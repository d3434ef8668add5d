//! Subscription parameters: what a subscriber asked to observe.
//!
//! Two subscriptions with byte-identical parameters share one registry entry,
//! so the parameter types come with an exact spec-level equality
//! ([`spec_params_eq`]) and an executable decision procedure ([`params_eq`]).

use vstd::prelude::*;

verus! {

/// How far along consensus a state must be before the subscriber is notified.
#[derive(Clone, Copy, Debug, PartialEq, Eq, Structural)]
pub enum CommitmentLevel {
    /// The most recently executed (but not necessarily confirmed) slot.
    Processed,
    /// A slot observed by a supermajority of validators.
    Confirmed,
    /// A slot past the point of safe rollback.
    Finalized,
}

/// How an account's data is rendered in notifications.
#[derive(Clone, Copy, Debug, PartialEq, Eq, Structural)]
pub enum UiAccountEncoding {
    /// Legacy rendering: a plain base58 string (bounded; large data is
    /// replaced by a notice).
    Binary,
    /// A `["<base58>","base58"]` pair.
    Base58,
    /// The ledger's parsed rendering for well-known programs, when available.
    JsonParsed,
}

/// A requested slice of account data.
#[derive(Clone, Copy, Debug, PartialEq, Eq, Structural)]
pub struct UiDataSliceConfig {
    pub offset: usize,
    pub length: usize,
}

/// A program-subscription filter.
#[derive(Clone, Debug)]
pub enum RpcFilterType {
    /// Matches accounts whose data is exactly this long.
    DataSize(u64),
    /// Matches accounts whose data at `offset` equals `bytes`.
    Memcmp { offset: usize, bytes: Vec<u8> },
}

/// Account subscription: one account observed at a commitment level.
#[derive(Clone, Debug)]
pub struct AccountSubscriptionParams {
    pub pubkey: Vec<u8>,
    pub commitment: CommitmentLevel,
    pub encoding: UiAccountEncoding,
    pub data_slice: Option<UiDataSliceConfig>,
}

/// Program subscription: all accounts a program owns, filtered.
#[derive(Clone, Debug)]
pub struct ProgramSubscriptionParams {
    pub pubkey: Vec<u8>,
    pub filters: Vec<RpcFilterType>,
    pub encoding: UiAccountEncoding,
    pub data_slice: Option<UiDataSliceConfig>,
    pub commitment: CommitmentLevel,
    pub with_context: bool,
}

/// Which transaction logs a logs subscription selects.
#[derive(Clone, Debug)]
pub enum LogsSubscriptionKind {
    /// Every transaction except votes.
    All,
    /// Every transaction, votes included.
    AllWithVotes,
    /// Transactions that mention one address.
    Single(Vec<u8>),
}

/// Logs subscription.
#[derive(Clone, Debug)]
pub struct LogsSubscriptionParams {
    pub kind: LogsSubscriptionKind,
    pub commitment: CommitmentLevel,
}

/// Signature subscription: the status of one transaction signature.
#[derive(Clone, Debug)]
pub struct SignatureSubscriptionParams {
    pub signature: Vec<u8>,
    pub commitment: CommitmentLevel,
    pub enable_received_notification: bool,
}

/// What a subscriber wants to observe: a closed sum over all kinds.
#[derive(Clone, Debug)]
pub enum SubscriptionParams {
    Account(AccountSubscriptionParams),
    Program(ProgramSubscriptionParams),
    Logs(LogsSubscriptionParams),
    Signature(SignatureSubscriptionParams),
    Slot,
    SlotsUpdates,
    Root,
    Vote,
}

/// Exact equality of two filters, over byte views.
pub open spec fn spec_filter_eq(a: RpcFilterType, b: RpcFilterType) -> bool {
    match (a, b) {
        (RpcFilterType::DataSize(x), RpcFilterType::DataSize(y)) => x == y,
        (
            RpcFilterType::Memcmp { offset: ao, bytes: ab },
            RpcFilterType::Memcmp { offset: bo, bytes: bb },
        ) => ao == bo && ab@ == bb@,
        _ => false,
    }
}

/// Exact equality of two filter lists, pointwise.
pub open spec fn spec_filters_eq(a: Seq<RpcFilterType>, b: Seq<RpcFilterType>) -> bool {
    a.len() == b.len() && forall|i: int| 0 <= i < a.len() ==> spec_filter_eq(a[i], b[i])
}

/// Exact equality of two logs-subscription kinds.
pub open spec fn spec_logs_kind_eq(a: LogsSubscriptionKind, b: LogsSubscriptionKind) -> bool {
    match (a, b) {
        (LogsSubscriptionKind::All, LogsSubscriptionKind::All) => true,
        (LogsSubscriptionKind::AllWithVotes, LogsSubscriptionKind::AllWithVotes) => true,
        (LogsSubscriptionKind::Single(x), LogsSubscriptionKind::Single(y)) => x@ == y@,
        _ => false,
    }
}

/// Byte-identical parameters: the canonical comparison that subscription
/// deduplication uses.
pub open spec fn spec_params_eq(a: SubscriptionParams, b: SubscriptionParams) -> bool {
    match (a, b) {
        (SubscriptionParams::Account(x), SubscriptionParams::Account(y)) => {
            &&& x.pubkey@ == y.pubkey@
            &&& x.commitment == y.commitment
            &&& x.encoding == y.encoding
            &&& x.data_slice == y.data_slice
        },
        (SubscriptionParams::Program(x), SubscriptionParams::Program(y)) => {
            &&& x.pubkey@ == y.pubkey@
            &&& spec_filters_eq(x.filters@, y.filters@)
            &&& x.encoding == y.encoding
            &&& x.data_slice == y.data_slice
            &&& x.commitment == y.commitment
            &&& x.with_context == y.with_context
        },
        (SubscriptionParams::Logs(x), SubscriptionParams::Logs(y)) => {
            &&& spec_logs_kind_eq(x.kind, y.kind)
            &&& x.commitment == y.commitment
        },
        (SubscriptionParams::Signature(x), SubscriptionParams::Signature(y)) => {
            &&& x.signature@ == y.signature@
            &&& x.commitment == y.commitment
            &&& x.enable_received_notification == y.enable_received_notification
        },
        (SubscriptionParams::Slot, SubscriptionParams::Slot) => true,
        (SubscriptionParams::SlotsUpdates, SubscriptionParams::SlotsUpdates) => true,
        (SubscriptionParams::Root, SubscriptionParams::Root) => true,
        (SubscriptionParams::Vote, SubscriptionParams::Vote) => true,
        _ => false,
    }
}

/// The commitment level a subscription queries at, where it has one.
pub open spec fn spec_commitment_of(p: SubscriptionParams) -> Option<CommitmentLevel> {
    match p {
        SubscriptionParams::Account(x) => Some(x.commitment),
        SubscriptionParams::Program(x) => Some(x.commitment),
        SubscriptionParams::Logs(x) => Some(x.commitment),
        SubscriptionParams::Signature(x) => Some(x.commitment),
        _ => None,
    }
}

/// Subscriptions driven by bank commitment events: the four
/// commitment-sensitive kinds.
pub open spec fn spec_is_commitment_watcher(p: SubscriptionParams) -> bool {
    spec_commitment_of(p) is Some
}

/// Subscriptions driven by gossip-observed confirmations: commitment-sensitive
/// kinds at the confirmed level only.
pub open spec fn spec_is_gossip_watcher(p: SubscriptionParams) -> bool {
    spec_commitment_of(p) == Some(CommitmentLevel::Confirmed)
}

/// The JSON-RPC method name notifications for this subscription carry.
pub open spec fn spec_method_of(p: SubscriptionParams) -> Seq<char> {
    match p {
        SubscriptionParams::Account(_) => "accountNotification"@,
        SubscriptionParams::Program(_) => "programNotification"@,
        SubscriptionParams::Logs(_) => "logsNotification"@,
        SubscriptionParams::Signature(_) => "signatureNotification"@,
        SubscriptionParams::Slot => "slotNotification"@,
        SubscriptionParams::SlotsUpdates => "slotsUpdatesNotification"@,
        SubscriptionParams::Root => "rootNotification"@,
        SubscriptionParams::Vote => "voteNotification"@,
    }
}

impl SubscriptionParams {
    /// The JSON-RPC method name used in outgoing notifications.
    pub fn method(&self) -> (r: &'static str)
        ensures
            r@ == spec_method_of(*self),
    {
        match self {
            SubscriptionParams::Account(_) => "accountNotification",
            SubscriptionParams::Program(_) => "programNotification",
            SubscriptionParams::Logs(_) => "logsNotification",
            SubscriptionParams::Signature(_) => "signatureNotification",
            SubscriptionParams::Slot => "slotNotification",
            SubscriptionParams::SlotsUpdates => "slotsUpdatesNotification",
            SubscriptionParams::Root => "rootNotification",
            SubscriptionParams::Vote => "voteNotification",
        }
    }

    /// Whether bank commitment events drive this subscription.
    pub fn is_commitment_watcher(&self) -> (r: bool)
        ensures
            r == spec_is_commitment_watcher(*self),
    {
        match self {
            SubscriptionParams::Account(_) => true,
            SubscriptionParams::Program(_) => true,
            SubscriptionParams::Logs(_) => true,
            SubscriptionParams::Signature(_) => true,
            _ => false,
        }
    }

    /// Whether gossip-observed confirmations drive this subscription.
    pub fn is_gossip_watcher(&self) -> (r: bool)
        ensures
            r == spec_is_gossip_watcher(*self),
    {
        match self {
            SubscriptionParams::Account(x) => x.commitment == CommitmentLevel::Confirmed,
            SubscriptionParams::Program(x) => x.commitment == CommitmentLevel::Confirmed,
            SubscriptionParams::Logs(x) => x.commitment == CommitmentLevel::Confirmed,
            SubscriptionParams::Signature(x) => x.commitment == CommitmentLevel::Confirmed,
            _ => false,
        }
    }
}

/// Byte-identical parameters are of the same kind, so they carry the same
/// method name.
pub proof fn lemma_params_eq_method(a: SubscriptionParams, b: SubscriptionParams)
    requires
        spec_params_eq(a, b),
    ensures
        spec_method_of(a) == spec_method_of(b),
{
}

/// Compare two byte vectors.
pub fn bytes_eq(a: &Vec<u8>, b: &Vec<u8>) -> (r: bool)
    ensures
        r == (a@ == b@),
{
    if a.len() != b.len() {
        proof {
            assert(a@ != b@);
        }
        return false;
    }
    let n = a.len();
    let mut i: usize = 0;
    while i < n
        invariant
            n == a@.len() == b@.len(),
            0 <= i <= n,
            forall|j: int| 0 <= j < i ==> a@[j] == b@[j],
        decreases n - i,
    {
        if a[i] != b[i] {
            return false;
        }
        i += 1;
    }
    proof {
        assert(a@ =~= b@);
    }
    true
}

fn opt_slice_eq(a: &Option<UiDataSliceConfig>, b: &Option<UiDataSliceConfig>) -> (r: bool)
    ensures
        r == (a == b),
{
    match (a, b) {
        (None, None) => true,
        (Some(x), Some(y)) => x == y,
        _ => false,
    }
}

fn filter_eq(a: &RpcFilterType, b: &RpcFilterType) -> (r: bool)
    ensures
        r == spec_filter_eq(*a, *b),
{
    match (a, b) {
        (RpcFilterType::DataSize(x), RpcFilterType::DataSize(y)) => x == y,
        (
            RpcFilterType::Memcmp { offset: ao, bytes: ab },
            RpcFilterType::Memcmp { offset: bo, bytes: bb },
        ) => *ao == *bo && bytes_eq(ab, bb),
        _ => false,
    }
}

fn filters_eq(a: &Vec<RpcFilterType>, b: &Vec<RpcFilterType>) -> (r: bool)
    ensures
        r == spec_filters_eq(a@, b@),
{
    if a.len() != b.len() {
        return false;
    }
    let n = a.len();
    let mut i: usize = 0;
    while i < n
        invariant
            n == a@.len() == b@.len(),
            0 <= i <= n,
            forall|j: int| 0 <= j < i ==> spec_filter_eq(a@[j], b@[j]),
        decreases n - i,
    {
        if !filter_eq(&a[i], &b[i]) {
            return false;
        }
        i += 1;
    }
    true
}

fn logs_kind_eq(a: &LogsSubscriptionKind, b: &LogsSubscriptionKind) -> (r: bool)
    ensures
        r == spec_logs_kind_eq(*a, *b),
{
    match (a, b) {
        (LogsSubscriptionKind::All, LogsSubscriptionKind::All) => true,
        (LogsSubscriptionKind::AllWithVotes, LogsSubscriptionKind::AllWithVotes) => true,
        (LogsSubscriptionKind::Single(x), LogsSubscriptionKind::Single(y)) => bytes_eq(x, y),
        _ => false,
    }
}

/// Decide byte-identity of two parameter values.
pub fn params_eq(a: &SubscriptionParams, b: &SubscriptionParams) -> (r: bool)
    ensures
        r == spec_params_eq(*a, *b),
{
    match (a, b) {
        (SubscriptionParams::Account(x), SubscriptionParams::Account(y)) => {
            bytes_eq(&x.pubkey, &y.pubkey) && x.commitment == y.commitment && x.encoding
                == y.encoding && opt_slice_eq(&x.data_slice, &y.data_slice)
        },
        (SubscriptionParams::Program(x), SubscriptionParams::Program(y)) => {
            bytes_eq(&x.pubkey, &y.pubkey) && filters_eq(&x.filters, &y.filters) && x.encoding
                == y.encoding && opt_slice_eq(&x.data_slice, &y.data_slice) && x.commitment
                == y.commitment && x.with_context == y.with_context
        },
        (SubscriptionParams::Logs(x), SubscriptionParams::Logs(y)) => {
            logs_kind_eq(&x.kind, &y.kind) && x.commitment == y.commitment
        },
        (SubscriptionParams::Signature(x), SubscriptionParams::Signature(y)) => {
            bytes_eq(&x.signature, &y.signature) && x.commitment == y.commitment
                && x.enable_received_notification == y.enable_received_notification
        },
        (SubscriptionParams::Slot, SubscriptionParams::Slot) => true,
        (SubscriptionParams::SlotsUpdates, SubscriptionParams::SlotsUpdates) => true,
        (SubscriptionParams::Root, SubscriptionParams::Root) => true,
        (SubscriptionParams::Vote, SubscriptionParams::Vote) => true,
        _ => false,
    }
}

} // verus!
