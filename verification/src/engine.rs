//! The match-and-notify engine.
//!
//! For one commitment event (bank- or gossip-driven), the engine walks the
//! relevant subscriptions, resolves each subscription's commitment level to a
//! slot, queries the bank at that slot, filters the results, deduplicates
//! account matches against the subscription's last-notified slot, and hands
//! each match to the notifier. The spec functions here pin down, entry by
//! entry, exactly which notifications an event produces
//! ([`spec_entry_emits`]), how each subscription's state changes
//! ([`spec_entry_after`]), and which signature subscriptions end
//! ([`spec_entry_terminal`]).

use vstd::prelude::*;
use vstd::string::StrSliceExecFns;

use crate::ledger::{
    spec_find_account, spec_find_bank, spec_find_parsed, spec_find_status, spec_logs_for,
    spec_program_accounts, Account, BankForks, CommitmentSlots, LedgerBank, ProgramAccountEntry,
    TransactionLogInfo,
};
use crate::notifier::{spec_notifs, RpcNotifier};
use crate::params::{
    spec_is_commitment_watcher, spec_is_gossip_watcher, spec_method_of, AccountSubscriptionParams,
    CommitmentLevel, LogsSubscriptionKind, LogsSubscriptionParams, ProgramSubscriptionParams,
    RpcFilterType, SignatureSubscriptionParams, SubscriptionParams, UiAccountEncoding,
};
use crate::registry::{SubscriptionEntry, SubscriptionInfo, SubscriptionsTracker};
use crate::values::{
    spec_bool, spec_context_wrap, spec_envelope_bytes, spec_opt_raw, spec_quoted_list,
    spec_render_account, spec_render_data, spec_render_value, spec_str_views, NotificationValue,
    UiAccount, UiAccountData,
};
use crate::wire::{base58_encode, base58_of, lit, spec_dec};

verus! {

/// Account data longer than this is not base58-rendered in the legacy
/// encoding; a notice string takes its place.
pub const MAX_BASE58_BYTES: usize = 128;

/// The slot whose ledger state a subscription at commitment level `c`
/// queries, given the current commitment snapshot.
pub open spec fn spec_resolved_slot(c: CommitmentLevel, cs: CommitmentSlots) -> u64 {
    match c {
        CommitmentLevel::Finalized => cs.highest_confirmed_root,
        CommitmentLevel::Confirmed => cs.highest_confirmed_slot,
        CommitmentLevel::Processed => cs.slot,
    }
}

/// Map a commitment level and a commitment snapshot to the slot to query.
pub fn resolved_slot(c: CommitmentLevel, cs: &CommitmentSlots) -> (r: u64)
    ensures
        r == spec_resolved_slot(c, *cs),
{
    match c {
        CommitmentLevel::Finalized => cs.highest_confirmed_root,
        CommitmentLevel::Confirmed => cs.highest_confirmed_slot,
        CommitmentLevel::Processed => cs.slot,
    }
}

/// The legacy rendering of account data: base58, or a notice when the data is
/// too large.
pub open spec fn spec_legacy_data(d: Seq<u8>) -> Seq<u8> {
    if d.len() <= MAX_BASE58_BYTES {
        base58_of(d)
    } else {
        lit("error: data too large for bs58 encoding"@)
    }
}

/// The rendered `data` member of an account payload, by encoding. The parsed
/// encoding falls back to the base58 pair when the ledger's parser produced
/// nothing for this account.
pub open spec fn spec_data_bytes(
    bank: LedgerBank,
    pk: Seq<u8>,
    data: Seq<u8>,
    enc: UiAccountEncoding,
) -> Seq<u8> {
    match enc {
        UiAccountEncoding::Binary => seq![34u8] + spec_legacy_data(data) + seq![34u8],
        UiAccountEncoding::Base58 => lit("[\""@) + base58_of(data) + lit("\",\"base58\"]"@),
        UiAccountEncoding::JsonParsed => match spec_find_parsed(bank.parsed_accounts@, pk) {
            Some(e) => e.json@,
            None => lit("[\""@) + base58_of(data) + lit("\",\"base58\"]"@),
        },
    }
}

/// The rendered account payload, from its raw ingredients.
pub open spec fn spec_account_bytes(
    bank: LedgerBank,
    pk: Seq<u8>,
    data: Seq<u8>,
    executable: bool,
    lamports: u64,
    owner: Seq<u8>,
    rent_epoch: u64,
    enc: UiAccountEncoding,
) -> Seq<u8> {
    lit("{\"data\":"@) + spec_data_bytes(bank, pk, data, enc) + lit(",\"executable\":"@)
        + spec_bool(executable) + lit(",\"lamports\":"@) + spec_dec(lamports as nat) + lit(
        ",\"owner\":\""@,
    ) + base58_of(owner) + lit("\",\"rentEpoch\":"@) + spec_dec(rent_epoch as nat) + lit("}"@)
}

/// The rendered payload of an existing account.
pub open spec fn spec_account_bytes_of(
    bank: LedgerBank,
    pk: Seq<u8>,
    a: Account,
    enc: UiAccountEncoding,
) -> Seq<u8> {
    spec_account_bytes(bank, pk, a.data@, a.executable, a.lamports, a.owner@, a.rent_epoch, enc)
}

/// The all-zero program id that owns the zero-valued account.
pub open spec fn spec_zero_pubkey() -> Seq<u8> {
    Seq::new(32, |i: int| 0u8)
}

/// The rendered payload of the zero-valued account, which signals account
/// deletion to subscribers.
pub open spec fn spec_zero_account_bytes(
    bank: LedgerBank,
    pk: Seq<u8>,
    enc: UiAccountEncoding,
) -> Seq<u8> {
    spec_account_bytes(bank, pk, Seq::empty(), false, 0, spec_zero_pubkey(), 0, enc)
}

/// Whether one program filter accepts account data.
pub open spec fn spec_filter_match(flt: RpcFilterType, data: Seq<u8>) -> bool {
    match flt {
        RpcFilterType::DataSize(n) => data.len() == n,
        RpcFilterType::Memcmp { offset, bytes } => {
            &&& offset + bytes@.len() <= data.len()
            &&& data.subrange(offset as int, offset + bytes@.len()) == bytes@
        },
    }
}

/// Whether every filter in the list accepts account data (conjunction).
pub open spec fn spec_filters_match(filters: Seq<RpcFilterType>, data: Seq<u8>) -> bool {
    forall|i: int| 0 <= i < filters.len() ==> spec_filter_match(filters[i], data)
}

/// The entries whose account data every filter accepts, in order.
pub open spec fn spec_apply_filters(
    s: Seq<ProgramAccountEntry>,
    filters: Seq<RpcFilterType>,
) -> Seq<ProgramAccountEntry>
    decreases s.len(),
{
    if s.len() == 0 {
        Seq::empty()
    } else if spec_filters_match(filters, s.last().account.data@) {
        spec_apply_filters(s.drop_last(), filters).push(s.last())
    } else {
        spec_apply_filters(s.drop_last(), filters)
    }
}

/// The log entries that are not votes, in order.
pub open spec fn spec_drop_votes(s: Seq<TransactionLogInfo>) -> Seq<TransactionLogInfo>
    decreases s.len(),
{
    if s.len() == 0 {
        Seq::empty()
    } else if !s.last().is_vote {
        spec_drop_votes(s.drop_last()).push(s.last())
    } else {
        spec_drop_votes(s.drop_last())
    }
}

/// The log entries a logs subscription selects from a bank.
pub open spec fn spec_selected_logs(bank: LedgerBank, p: LogsSubscriptionParams) -> Seq<
    TransactionLogInfo,
> {
    match p.kind {
        LogsSubscriptionKind::All => spec_drop_votes(spec_logs_for(bank.logs@, None)),
        LogsSubscriptionKind::AllWithVotes => spec_logs_for(bank.logs@, None),
        LogsSubscriptionKind::Single(pk) => spec_logs_for(bank.logs@, Some(pk@)),
    }
}

/// The rendered `result` member of one program notification.
pub open spec fn spec_program_value_bytes(
    bank: LedgerBank,
    slot: u64,
    pe: ProgramAccountEntry,
    enc: UiAccountEncoding,
) -> Seq<u8> {
    spec_context_wrap(
        slot,
        lit("{\"pubkey\":\""@) + base58_of(pe.pubkey@) + lit("\",\"account\":"@)
            + spec_account_bytes_of(bank, pe.pubkey@, pe.account, enc) + lit("}"@),
    )
}

/// The rendered `result` member of one logs notification.
pub open spec fn spec_logs_value_bytes(slot: u64, l: TransactionLogInfo) -> Seq<u8> {
    spec_context_wrap(
        slot,
        lit("{\"signature\":\""@) + base58_of(l.signature@) + lit("\",\"err\":"@) + spec_opt_raw(
            l.err,
        ) + lit(",\"logs\":["@) + spec_quoted_list(spec_str_views(l.log_messages@)) + lit("]}"@),
    )
}

/// The rendered `result` member of one processed-signature notification.
pub open spec fn spec_signature_value_bytes(slot: u64, err: Option<Vec<u8>>) -> Seq<u8> {
    spec_context_wrap(slot, lit("{\"err\":"@) + spec_opt_raw(err) + lit("}"@))
}

/// What an account subscription emits for one commitment event.
pub open spec fn spec_account_emits(
    e: SubscriptionEntry,
    p: AccountSubscriptionParams,
    f: BankForks,
    cs: CommitmentSlots,
) -> Seq<(u64, bool, Seq<u8>)> {
    let slot = spec_resolved_slot(p.commitment, cs);
    match spec_find_bank(f.banks@, slot) {
        None => Seq::empty(),
        Some(bank) => match spec_find_account(bank.accounts@, p.pubkey@) {
            Some(ae) => if ae.modified_slot != e.info.last_notified_slot {
                seq![
                    (
                        e.info.id,
                        false,
                        spec_envelope_bytes(
                            "accountNotification"@,
                            e.info.id,
                            spec_context_wrap(
                                slot,
                                spec_account_bytes_of(bank, p.pubkey@, ae.account, p.encoding),
                            ),
                        ),
                    ),
                ]
            } else {
                Seq::empty()
            },
            None => if e.info.last_notified_slot != 0 {
                seq![
                    (
                        e.info.id,
                        false,
                        spec_envelope_bytes(
                            "accountNotification"@,
                            e.info.id,
                            spec_context_wrap(
                                slot,
                                spec_zero_account_bytes(bank, p.pubkey@, p.encoding),
                            ),
                        ),
                    ),
                ]
            } else {
                Seq::empty()
            },
        },
    }
}

/// The account subscription's last-notified slot after one commitment event:
/// the modified slot of the match (zero when the account is gone), untouched
/// when the bank is missing or the match was suppressed.
pub open spec fn spec_account_new_last(
    e: SubscriptionEntry,
    p: AccountSubscriptionParams,
    f: BankForks,
    cs: CommitmentSlots,
) -> u64 {
    let slot = spec_resolved_slot(p.commitment, cs);
    match spec_find_bank(f.banks@, slot) {
        None => e.info.last_notified_slot,
        Some(bank) => match spec_find_account(bank.accounts@, p.pubkey@) {
            Some(ae) => ae.modified_slot,
            None => 0,
        },
    }
}

/// What a program subscription emits for one commitment event.
pub open spec fn spec_program_emits(
    e: SubscriptionEntry,
    p: ProgramSubscriptionParams,
    f: BankForks,
    cs: CommitmentSlots,
) -> Seq<(u64, bool, Seq<u8>)> {
    let slot = spec_resolved_slot(p.commitment, cs);
    match spec_find_bank(f.banks@, slot) {
        None => Seq::empty(),
        Some(bank) => spec_apply_filters(
            spec_program_accounts(bank.program_accounts@, p.pubkey@),
            p.filters@,
        ).map_values(
            |pe: ProgramAccountEntry|
                (
                    e.info.id,
                    false,
                    spec_envelope_bytes(
                        "programNotification"@,
                        e.info.id,
                        spec_program_value_bytes(bank, slot, pe, p.encoding),
                    ),
                ),
        ),
    }
}

/// What a logs subscription emits for one commitment event.
pub open spec fn spec_logs_emits(
    e: SubscriptionEntry,
    p: LogsSubscriptionParams,
    f: BankForks,
    cs: CommitmentSlots,
) -> Seq<(u64, bool, Seq<u8>)> {
    let slot = spec_resolved_slot(p.commitment, cs);
    match spec_find_bank(f.banks@, slot) {
        None => Seq::empty(),
        Some(bank) => spec_selected_logs(bank, p).map_values(
            |l: TransactionLogInfo|
                (
                    e.info.id,
                    false,
                    spec_envelope_bytes(
                        "logsNotification"@,
                        e.info.id,
                        spec_logs_value_bytes(slot, l),
                    ),
                ),
        ),
    }
}

/// What a signature subscription emits for one commitment event: its one
/// terminal notification, when the signature's status was processed.
pub open spec fn spec_signature_emits(
    e: SubscriptionEntry,
    p: SignatureSubscriptionParams,
    f: BankForks,
    cs: CommitmentSlots,
) -> Seq<(u64, bool, Seq<u8>)> {
    let slot = spec_resolved_slot(p.commitment, cs);
    match spec_find_bank(f.banks@, slot) {
        None => Seq::empty(),
        Some(bank) => match spec_find_status(bank.signature_statuses@, p.signature@) {
            None => Seq::empty(),
            Some(st) => seq![
                (
                    e.info.id,
                    true,
                    spec_envelope_bytes(
                        "signatureNotification"@,
                        e.info.id,
                        spec_signature_value_bytes(slot, st.err),
                    ),
                ),
            ],
        },
    }
}

/// Whether the event's watcher index selects this entry: bank events drive
/// every commitment-sensitive subscription, gossip events only those at the
/// confirmed level.
pub open spec fn spec_entry_selected(e: SubscriptionEntry, gossip: bool) -> bool {
    if gossip {
        spec_is_gossip_watcher(e.info.params)
    } else {
        spec_is_commitment_watcher(e.info.params)
    }
}

/// Exactly what one entry emits for one commitment event.
pub open spec fn spec_entry_emits(
    e: SubscriptionEntry,
    f: BankForks,
    cs: CommitmentSlots,
    gossip: bool,
) -> Seq<(u64, bool, Seq<u8>)> {
    if !spec_entry_selected(e, gossip) {
        Seq::empty()
    } else {
        match e.info.params {
            SubscriptionParams::Account(p) => spec_account_emits(e, p, f, cs),
            SubscriptionParams::Program(p) => spec_program_emits(e, p, f, cs),
            SubscriptionParams::Logs(p) => spec_logs_emits(e, p, f, cs),
            SubscriptionParams::Signature(p) => spec_signature_emits(e, p, f, cs),
            _ => Seq::empty(),
        }
    }
}

/// The entry's state after one commitment event: only account subscriptions
/// move their last-notified slot.
pub open spec fn spec_entry_after(
    e: SubscriptionEntry,
    f: BankForks,
    cs: CommitmentSlots,
    gossip: bool,
) -> SubscriptionEntry {
    if !spec_entry_selected(e, gossip) {
        e
    } else {
        match e.info.params {
            SubscriptionParams::Account(p) => SubscriptionEntry {
                info: SubscriptionInfo {
                    id: e.info.id,
                    params: e.info.params,
                    last_notified_slot: spec_account_new_last(e, p, f, cs),
                },
                refcount: e.refcount,
            },
            _ => e,
        }
    }
}

/// Whether this event ends the entry: a signature subscription whose terminal
/// notification was just emitted.
pub open spec fn spec_entry_terminal(
    e: SubscriptionEntry,
    f: BankForks,
    cs: CommitmentSlots,
    gossip: bool,
) -> bool {
    &&& spec_entry_selected(e, gossip)
    &&& e.info.params matches SubscriptionParams::Signature(p)
    &&& spec_find_bank(f.banks@, spec_resolved_slot(p.commitment, cs)) matches Some(bank)
    &&& spec_find_status(bank.signature_statuses@, p.signature@) is Some
}

/// Everything a run over `s` emits, in entry order.
pub open spec fn spec_emits_all(
    s: Seq<SubscriptionEntry>,
    f: BankForks,
    cs: CommitmentSlots,
    gossip: bool,
) -> Seq<(u64, bool, Seq<u8>)>
    decreases s.len(),
{
    if s.len() == 0 {
        Seq::empty()
    } else {
        spec_emits_all(s.drop_last(), f, cs, gossip) + spec_entry_emits(s.last(), f, cs, gossip)
    }
}

/// The registry contents after a run over `s`: per-entry updates applied,
/// terminal entries gone.
pub open spec fn spec_after_all(
    s: Seq<SubscriptionEntry>,
    f: BankForks,
    cs: CommitmentSlots,
    gossip: bool,
) -> Seq<SubscriptionEntry>
    decreases s.len(),
{
    if s.len() == 0 {
        Seq::empty()
    } else if spec_entry_terminal(s.last(), f, cs, gossip) {
        spec_after_all(s.drop_last(), f, cs, gossip)
    } else {
        spec_after_all(s.drop_last(), f, cs, gossip).push(spec_entry_after(s.last(), f, cs, gossip))
    }
}


/// Copy a byte vector.
pub(crate) fn clone_bytes(v: &Vec<u8>) -> (r: Vec<u8>)
    ensures
        r@ == v@,
{
    let r = v.clone();
    proof {
        assert(r@ =~= v@);
    }
    r
}

/// Copy an optional pre-rendered JSON fragment.
fn clone_opt_bytes(e: &Option<Vec<u8>>) -> (r: Option<Vec<u8>>)
    ensures
        spec_opt_raw(r) == spec_opt_raw(*e),
        r is Some <==> *e is Some,
{
    match e {
        None => None,
        Some(v) => Some(clone_bytes(v)),
    }
}

/// Copy a vector of strings.
fn clone_strings(v: &Vec<String>) -> (r: Vec<String>)
    ensures
        spec_str_views(r@) == spec_str_views(v@),
{
    let n = v.len();
    let mut out: Vec<String> = Vec::new();
    let mut i: usize = 0;
    while i < n
        invariant
            n == v@.len(),
            0 <= i <= n,
            out@.len() == i,
            forall|j: int| 0 <= j < i ==> out@[j]@ == v@[j]@,
        decreases n - i,
    {
        out.push(v[i].as_str().to_owned());
        i += 1;
    }
    proof {
        assert(spec_str_views(out@) =~= spec_str_views(v@));
    }
    out
}

/// Render an account's `data` member under the requested encoding.
fn encode_account_data(
    bank: &LedgerBank,
    pubkey: &Vec<u8>,
    data: &Vec<u8>,
    encoding: UiAccountEncoding,
) -> (r: UiAccountData)
    ensures
        spec_render_data(r) == spec_data_bytes(*bank, pubkey@, data@, encoding),
{
    match encoding {
        UiAccountEncoding::Binary => {
            if data.len() <= MAX_BASE58_BYTES {
                UiAccountData::Legacy(base58_encode(data))
            } else {
                UiAccountData::Legacy(("error: data too large for bs58 encoding").as_bytes_vec())
            }
        },
        UiAccountEncoding::Base58 => UiAccountData::Binary(base58_encode(data)),
        UiAccountEncoding::JsonParsed => match bank.get_parsed_account(pubkey) {
            Some(j) => UiAccountData::Parsed(clone_bytes(j)),
            None => UiAccountData::Binary(base58_encode(data)),
        },
    }
}

/// Encode an existing account for subscribers.
fn build_ui_account(
    bank: &LedgerBank,
    pubkey: &Vec<u8>,
    account: &Account,
    encoding: UiAccountEncoding,
) -> (r: UiAccount)
    ensures
        spec_render_account(r) == spec_account_bytes_of(*bank, pubkey@, *account, encoding),
{
    UiAccount {
        data: encode_account_data(bank, pubkey, &account.data, encoding),
        executable: account.executable,
        lamports: account.lamports,
        owner: base58_encode(&account.owner),
        rent_epoch: account.rent_epoch,
    }
}

/// Encode the zero-valued account, which stands for a deleted account.
fn build_zero_ui_account(bank: &LedgerBank, pubkey: &Vec<u8>, encoding: UiAccountEncoding) -> (r:
    UiAccount)
    ensures
        spec_render_account(r) == spec_zero_account_bytes(*bank, pubkey@, encoding),
{
    let zeros: Vec<u8> = vec![0u8; 32];
    let empty_data: Vec<u8> = Vec::new();
    proof {
        assert(zeros@ =~= spec_zero_pubkey());
        assert(empty_data@ =~= Seq::<u8>::empty());
    }
    UiAccount {
        data: encode_account_data(bank, pubkey, &empty_data, encoding),
        executable: false,
        lamports: 0,
        owner: base58_encode(&zeros),
        rent_epoch: 0,
    }
}

/// Whether `data` at `offset` equals `bytes`.
fn memcmp_match(offset: usize, bytes: &Vec<u8>, data: &Vec<u8>) -> (r: bool)
    ensures
        r == (offset + bytes@.len() <= data@.len() && data@.subrange(
            offset as int,
            offset + bytes@.len(),
        ) == bytes@),
{
    if bytes.len() > data.len() || offset > data.len() - bytes.len() {
        return false;
    }
    let m = bytes.len();
    let dlen = data.len();
    let mut i: usize = 0;
    while i < m
        invariant
            0 <= i <= m,
            m == bytes@.len(),
            dlen == data@.len(),
            offset + m <= dlen,
            forall|j: int| 0 <= j < i ==> data@[offset + j] == bytes@[j],
        decreases m - i,
    {
        if data[offset + i] != bytes[i] {
            proof {
                assert(data@.subrange(offset as int, offset + m as int)[i as int] == data@[offset
                    + i]);
            }
            return false;
        }
        i += 1;
    }
    proof {
        assert(data@.subrange(offset as int, offset + m as int) =~= bytes@);
    }
    true
}

/// Whether one filter accepts `data`.
fn filter_matches(flt: &RpcFilterType, data: &Vec<u8>) -> (r: bool)
    ensures
        r == spec_filter_match(*flt, data@),
{
    match flt {
        RpcFilterType::DataSize(n) => data.len() as u64 == *n,
        RpcFilterType::Memcmp { offset, bytes } => memcmp_match(*offset, bytes, data),
    }
}

/// Whether every filter accepts `data`.
fn filters_match(filters: &Vec<RpcFilterType>, data: &Vec<u8>) -> (r: bool)
    ensures
        r == spec_filters_match(filters@, data@),
{
    let n = filters.len();
    let mut i: usize = 0;
    while i < n
        invariant
            n == filters@.len(),
            0 <= i <= n,
            forall|j: int| 0 <= j < i ==> spec_filter_match(filters@[j], data@),
        decreases n - i,
    {
        if !filter_matches(&filters[i], data) {
            return false;
        }
        i += 1;
    }
    true
}

/// The log entries a logs subscription selects: by mentioned address for the
/// single-address kind, with votes dropped for the plain `All` kind.
pub fn get_transaction_logs<'a>(bank: &'a LedgerBank, params: &LogsSubscriptionParams) -> (r: Vec<
    &'a TransactionLogInfo,
>)
    ensures
        r@.map_values(|l: &TransactionLogInfo| *l) == spec_selected_logs(*bank, *params),
{
    match &params.kind {
        LogsSubscriptionKind::All => {
            let all = bank.get_transaction_logs(None);
            let ghost base = spec_logs_for(bank.logs@, None);
            let n = all.len();
            let mut out: Vec<&TransactionLogInfo> = Vec::new();
            let mut i: usize = 0;
            proof {
                assert(base.take(0) =~= Seq::<TransactionLogInfo>::empty());
                assert(out@.map_values(|l: &TransactionLogInfo| *l) =~= spec_drop_votes(
                    base.take(0),
                ));
            }
            while i < n
                invariant
                    n == all@.len(),
                    0 <= i <= n,
                    all@.map_values(|l: &TransactionLogInfo| *l) == base,
                    out@.map_values(|l: &TransactionLogInfo| *l) == spec_drop_votes(
                        base.take(i as int),
                    ),
                decreases n - i,
            {
                proof {
                    let t = base.take(i as int + 1);
                    assert(t.drop_last() =~= base.take(i as int));
                    assert(t.last() == base[i as int]);
                    assert(base[i as int] == *all@[i as int]);
                }
                let ghost prev = out@;
                if !all[i].is_vote {
                    out.push(all[i]);
                    proof {
                        assert(out@.map_values(|l: &TransactionLogInfo| *l) =~= prev.map_values(
                            |l: &TransactionLogInfo| *l,
                        ).push(base[i as int]));
                    }
                }
                i += 1;
            }
            proof {
                assert(base.take(n as int) =~= base);
            }
            out
        },
        LogsSubscriptionKind::AllWithVotes => bank.get_transaction_logs(None),
        LogsSubscriptionKind::Single(pk) => bank.get_transaction_logs(Some(pk)),
    }
}

/// Turn an account query result into at most one notification value and the
/// new last-notified-slot candidate.
///
/// A missing account becomes the zero-valued account at modified slot zero.
/// The match is suppressed exactly when its modified slot equals the
/// subscription's last-notified slot; strict equality, so that a fork revert
/// to an older slot is still announced.
pub fn filter_account_result(
    result: Option<(&Account, u64)>,
    params: &AccountSubscriptionParams,
    last_notified_slot: u64,
    bank: &LedgerBank,
    slot: u64,
) -> (r: (Option<NotificationValue>, u64))
    ensures
        (match result {
            Some((a, ms)) => {
                &&& r.1 == ms
                &&& ms != last_notified_slot ==> (r.0 matches Some(v) && spec_render_value(v)
                    == spec_context_wrap(
                    slot,
                    spec_account_bytes_of(*bank, params.pubkey@, *a, params.encoding),
                ))
                &&& ms == last_notified_slot ==> r.0 is None
            },
            None => {
                &&& r.1 == 0
                &&& last_notified_slot != 0 ==> (r.0 matches Some(v) && spec_render_value(v)
                    == spec_context_wrap(
                    slot,
                    spec_zero_account_bytes(*bank, params.pubkey@, params.encoding),
                ))
                &&& last_notified_slot == 0 ==> r.0 is None
            },
        }),
{
    match result {
        Some((a, ms)) => {
            if ms != last_notified_slot {
                let ui = build_ui_account(bank, &params.pubkey, a, params.encoding);
                (Some(NotificationValue::Account { context_slot: slot, account: ui }), ms)
            } else {
                (None, ms)
            }
        },
        None => {
            if last_notified_slot != 0 {
                let ui = build_zero_ui_account(bank, &params.pubkey, params.encoding);
                (Some(NotificationValue::Account { context_slot: slot, account: ui }), 0)
            } else {
                (None, 0)
            }
        },
    }
}

/// Apply the subscription's filter list and encode each surviving account as
/// a keyed notification value, in bank order.
pub fn filter_program_results(
    accounts: Vec<&ProgramAccountEntry>,
    params: &ProgramSubscriptionParams,
    bank: &LedgerBank,
    slot: u64,
) -> (r: Vec<NotificationValue>)
    ensures
        ({
            let matched = spec_apply_filters(
                accounts@.map_values(|e: &ProgramAccountEntry| *e),
                params.filters@,
            );
            &&& r@.len() == matched.len()
            &&& forall|k: int|
                0 <= k < matched.len() ==> spec_render_value(r@[k]) == spec_program_value_bytes(
                    *bank,
                    slot,
                    matched[k],
                    params.encoding,
                )
        }),
{
    let ghost accs = accounts@.map_values(|e: &ProgramAccountEntry| *e);
    let n = accounts.len();
    let mut out: Vec<NotificationValue> = Vec::new();
    let mut i: usize = 0;
    proof {
        assert(accs.take(0) =~= Seq::<ProgramAccountEntry>::empty());
    }
    while i < n
        invariant
            n == accounts@.len(),
            0 <= i <= n,
            accs == accounts@.map_values(|e: &ProgramAccountEntry| *e),
            out@.len() == spec_apply_filters(accs.take(i as int), params.filters@).len(),
            forall|k: int|
                0 <= k < out@.len() ==> spec_render_value(out@[k]) == spec_program_value_bytes(
                    *bank,
                    slot,
                    spec_apply_filters(accs.take(i as int), params.filters@)[k],
                    params.encoding,
                ),
        decreases n - i,
    {
        proof {
            let t = accs.take(i as int + 1);
            assert(t.drop_last() =~= accs.take(i as int));
            assert(t.last() == accs[i as int]);
            assert(accs[i as int] == *accounts@[i as int]);
        }
        if filters_match(&params.filters, &accounts[i].account.data) {
            let pk_b58 = base58_encode(&accounts[i].pubkey);
            let ui = build_ui_account(bank, &accounts[i].pubkey, &accounts[i].account, params.encoding);
            out.push(NotificationValue::Program { context_slot: slot, pubkey: pk_b58, account: ui });
        }
        i += 1;
    }
    proof {
        assert(accs.take(n as int) =~= accs);
    }
    out
}

/// Encode each selected log entry as a notification value, in bank order.
pub fn filter_logs_results(logs: Vec<&TransactionLogInfo>, slot: u64) -> (r: Vec<NotificationValue>)
    ensures
        ({
            let ls = logs@.map_values(|l: &TransactionLogInfo| *l);
            &&& r@.len() == ls.len()
            &&& forall|k: int|
                0 <= k < ls.len() ==> spec_render_value(r@[k]) == spec_logs_value_bytes(slot, ls[k])
        }),
{
    let ghost ls = logs@.map_values(|l: &TransactionLogInfo| *l);
    let n = logs.len();
    let mut out: Vec<NotificationValue> = Vec::new();
    let mut i: usize = 0;
    while i < n
        invariant
            n == logs@.len(),
            0 <= i <= n,
            ls == logs@.map_values(|l: &TransactionLogInfo| *l),
            out@.len() == i,
            forall|k: int|
                0 <= k < i ==> spec_render_value(out@[k]) == spec_logs_value_bytes(slot, ls[k]),
        decreases n - i,
    {
        proof {
            assert(ls[i as int] == *logs@[i as int]);
        }
        let v = NotificationValue::Logs {
            context_slot: slot,
            signature: base58_encode(&logs[i].signature),
            err: clone_opt_bytes(&logs[i].err),
            logs: clone_strings(&logs[i].log_messages),
        };
        out.push(v);
        i += 1;
    }
    out
}

/// Wrap a processed signature status as its one notification value.
pub fn filter_signature_result(result: Option<&Option<Vec<u8>>>, slot: u64) -> (r: Option<
    NotificationValue,
>)
    ensures
        (match result {
            None => r is None,
            Some(st) => r matches Some(v) && spec_render_value(v) == spec_signature_value_bytes(
                slot,
                *st,
            ),
        }),
{
    match result {
        None => None,
        Some(st) => Some(
            NotificationValue::SignatureProcessed { context_slot: slot, err: clone_opt_bytes(st) },
        ),
    }
}


/// Send one notification per value in order, all under one subscription.
fn notify_values(
    notifier: &mut RpcNotifier,
    values: &Vec<NotificationValue>,
    info: &SubscriptionInfo,
    is_final: bool,
)
    requires
        old(notifier).inv(),
    ensures
        final(notifier).inv(),
        final(notifier).recent_items.spec_max_len() == old(notifier).recent_items.spec_max_len(),
        final(notifier).recent_items.spec_max_total_bytes() == old(
            notifier,
        ).recent_items.spec_max_total_bytes(),
        spec_notifs(final(notifier).out@) == spec_notifs(old(notifier).out@)
            + values@.map_values(
            |v: NotificationValue|
                (
                    info.id,
                    is_final,
                    crate::values::spec_envelope(spec_method_of(info.params), info.id, v),
                ),
        ),
{
    let ghost mapped = values@.map_values(
        |v: NotificationValue|
            (
                info.id,
                is_final,
                crate::values::spec_envelope(spec_method_of(info.params), info.id, v),
            ),
    );
    let n = values.len();
    let mut j: usize = 0;
    proof {
        assert(mapped.take(0) =~= Seq::<(u64, bool, Seq<u8>)>::empty());
        assert(spec_notifs(notifier.out@) =~= spec_notifs(notifier.out@) + mapped.take(0));
    }
    while j < n
        invariant
            0 <= j <= n,
            n == values@.len(),
            mapped == values@.map_values(
                |v: NotificationValue|
                    (
                        info.id,
                        is_final,
                        crate::values::spec_envelope(spec_method_of(info.params), info.id, v),
                    ),
            ),
            notifier.inv(),
            notifier.recent_items.spec_max_len() == old(notifier).recent_items.spec_max_len(),
            notifier.recent_items.spec_max_total_bytes() == old(
                notifier,
            ).recent_items.spec_max_total_bytes(),
            spec_notifs(notifier.out@) == spec_notifs(old(notifier).out@) + mapped.take(j as int),
        decreases n - j,
    {
        notifier.notify(&values[j], info, is_final);
        proof {
            assert(mapped[j as int] == (
                info.id,
                is_final,
                crate::values::spec_envelope(
                    spec_method_of(info.params),
                    info.id,
                    values@[j as int],
                ),
            ));
            assert(mapped.take(j as int + 1) =~= mapped.take(j as int).push(mapped[j as int]));
            assert(spec_notifs(notifier.out@) =~= spec_notifs(old(notifier).out@) + mapped.take(
                j as int + 1,
            ));
        }
        j += 1;
    }
    proof {
        assert(mapped.take(n as int) =~= mapped);
    }
}

/// Resolve one subscription's commitment level, query the bank, filter, and
/// notify; the per-entry step of a commitment event.
///
/// Returns the entry's new last-notified slot and whether the entry is done
/// (a signature subscription whose terminal notification was just sent).
/// Subscriptions outside the event's watcher index are untouched.
#[verifier::rlimit(60)]
pub fn check_commitment_and_notify(
    entry: &SubscriptionEntry,
    bank_forks: &BankForks,
    commitment_slots: &CommitmentSlots,
    notifier: &mut RpcNotifier,
    gossip: bool,
) -> (r: (u64, bool))
    requires
        old(notifier).inv(),
    ensures
        final(notifier).inv(),
        final(notifier).recent_items.spec_max_len() == old(notifier).recent_items.spec_max_len(),
        final(notifier).recent_items.spec_max_total_bytes() == old(
            notifier,
        ).recent_items.spec_max_total_bytes(),
        spec_notifs(final(notifier).out@) == spec_notifs(old(notifier).out@) + spec_entry_emits(
            *entry,
            *bank_forks,
            *commitment_slots,
            gossip,
        ),
        r.0 == spec_entry_after(*entry, *bank_forks, *commitment_slots, gossip).info.last_notified_slot,
        r.1 == spec_entry_terminal(*entry, *bank_forks, *commitment_slots, gossip),
{
    let last = entry.info.last_notified_slot;
    let selected = if gossip {
        entry.info.params.is_gossip_watcher()
    } else {
        entry.info.params.is_commitment_watcher()
    };
    if !selected {
        proof {
            assert(spec_notifs(notifier.out@) =~= spec_notifs(notifier.out@) + Seq::<(
                u64,
                bool,
                Seq<u8>,
            )>::empty());
        }
        return (last, false);
    }
    match &entry.info.params {
        SubscriptionParams::Account(p) => {
            let slot = resolved_slot(p.commitment, commitment_slots);
            match bank_forks.get(slot) {
                None => {
                    proof {
                        assert(spec_notifs(notifier.out@) =~= spec_notifs(notifier.out@) + Seq::<(
                            u64,
                            bool,
                            Seq<u8>,
                        )>::empty());
                    }
                    (last, false)
                },
                Some(bank) => {
                    let result = bank.get_account_modified_slot(&p.pubkey);
                    let (value, new_last) = filter_account_result(result, p, last, bank, slot);
                    match value {
                        Some(v) => {
                            notifier.notify(&v, &entry.info, false);
                            proof {
                                assert(spec_notifs(notifier.out@) =~= spec_notifs(
                                    old(notifier).out@,
                                ) + spec_entry_emits(
                                    *entry,
                                    *bank_forks,
                                    *commitment_slots,
                                    gossip,
                                ));
                            }
                        },
                        None => {
                            proof {
                                assert(spec_notifs(notifier.out@) =~= spec_notifs(notifier.out@)
                                    + Seq::<(u64, bool, Seq<u8>)>::empty());
                            }
                        },
                    }
                    (new_last, false)
                },
            }
        },
        SubscriptionParams::Program(p) => {
            let slot = resolved_slot(p.commitment, commitment_slots);
            match bank_forks.get(slot) {
                None => {
                    proof {
                        assert(spec_notifs(notifier.out@) =~= spec_notifs(notifier.out@) + Seq::<(
                            u64,
                            bool,
                            Seq<u8>,
                        )>::empty());
                    }
                    (last, false)
                },
                Some(bank) => {
                    let accounts = bank.get_program_accounts_modified_since_parent(&p.pubkey);
                    let values = filter_program_results(accounts, p, bank, slot);
                    let ghost matched = spec_apply_filters(
                        spec_program_accounts(bank.program_accounts@, p.pubkey@),
                        p.filters@,
                    );
                    let ghost emitted = spec_entry_emits(
                        *entry,
                        *bank_forks,
                        *commitment_slots,
                        gossip,
                    );
                    let ghost mapped = values@.map_values(
                        |v: NotificationValue|
                            (
                                entry.info.id,
                                false,
                                crate::values::spec_envelope(
                                    spec_method_of(entry.info.params),
                                    entry.info.id,
                                    v,
                                ),
                            ),
                    );
                    proof {
                        assert(emitted == matched.map_values(
                            |pe: ProgramAccountEntry|
                                (
                                    entry.info.id,
                                    false,
                                    spec_envelope_bytes(
                                        "programNotification"@,
                                        entry.info.id,
                                        spec_program_value_bytes(*bank, slot, pe, p.encoding),
                                    ),
                                ),
                        ));
                        assert forall|k: int| 0 <= k < emitted.len() implies emitted[k]
                            == mapped[k] by {
                            assert(spec_render_value(values@[k]) == spec_program_value_bytes(
                                *bank,
                                slot,
                                matched[k],
                                p.encoding,
                            ));
                        }
                        assert(emitted =~= mapped);
                    }
                    notify_values(notifier, &values, &entry.info, false);
                    (last, false)
                },
            }
        },
        SubscriptionParams::Logs(p) => {
            let slot = resolved_slot(p.commitment, commitment_slots);
            match bank_forks.get(slot) {
                None => {
                    proof {
                        assert(spec_notifs(notifier.out@) =~= spec_notifs(notifier.out@) + Seq::<(
                            u64,
                            bool,
                            Seq<u8>,
                        )>::empty());
                    }
                    (last, false)
                },
                Some(bank) => {
                    let logs = get_transaction_logs(bank, p);
                    let values = filter_logs_results(logs, slot);
                    let ghost selected_logs = spec_selected_logs(*bank, *p);
                    let ghost emitted = spec_entry_emits(
                        *entry,
                        *bank_forks,
                        *commitment_slots,
                        gossip,
                    );
                    let ghost mapped = values@.map_values(
                        |v: NotificationValue|
                            (
                                entry.info.id,
                                false,
                                crate::values::spec_envelope(
                                    spec_method_of(entry.info.params),
                                    entry.info.id,
                                    v,
                                ),
                            ),
                    );
                    proof {
                        assert(emitted == selected_logs.map_values(
                            |l: TransactionLogInfo|
                                (
                                    entry.info.id,
                                    false,
                                    spec_envelope_bytes(
                                        "logsNotification"@,
                                        entry.info.id,
                                        spec_logs_value_bytes(slot, l),
                                    ),
                                ),
                        ));
                        assert forall|k: int| 0 <= k < emitted.len() implies emitted[k]
                            == mapped[k] by {
                            assert(spec_render_value(values@[k]) == spec_logs_value_bytes(
                                slot,
                                selected_logs[k],
                            ));
                        }
                        assert(emitted =~= mapped);
                    }
                    notify_values(notifier, &values, &entry.info, false);
                    (last, false)
                },
            }
        },
        SubscriptionParams::Signature(p) => {
            let slot = resolved_slot(p.commitment, commitment_slots);
            match bank_forks.get(slot) {
                None => {
                    proof {
                        assert(spec_notifs(notifier.out@) =~= spec_notifs(notifier.out@) + Seq::<(
                            u64,
                            bool,
                            Seq<u8>,
                        )>::empty());
                    }
                    (last, false)
                },
                Some(bank) => {
                    let result = bank.get_signature_status_processed_since_parent(&p.signature);
                    match filter_signature_result(result, slot) {
                        Some(v) => {
                            notifier.notify(&v, &entry.info, true);
                            proof {
                                assert(spec_notifs(notifier.out@) =~= spec_notifs(
                                    old(notifier).out@,
                                ) + spec_entry_emits(
                                    *entry,
                                    *bank_forks,
                                    *commitment_slots,
                                    gossip,
                                ));
                            }
                            (last, true)
                        },
                        None => {
                            proof {
                                assert(spec_notifs(notifier.out@) =~= spec_notifs(notifier.out@)
                                    + Seq::<(u64, bool, Seq<u8>)>::empty());
                            }
                            (last, false)
                        },
                    }
                },
            }
        },
        _ => {
            // A selected entry is one of the four commitment-sensitive kinds,
            // so this arm is unreachable.
            proof {
                assert(false);
            }
            (last, false)
        },
    }
}

/// Run one commitment event over the registry: the match-and-notify cycle.
///
/// Walks the entries in order, notifying through `notifier`; account entries
/// move their last-notified slot, and signature entries whose terminal
/// notification was sent leave the registry.
#[verifier::rlimit(100)]
#[verifier::spinoff_prover]
pub fn notify_accounts_logs_programs_signatures(
    subscriptions: &mut SubscriptionsTracker,
    bank_forks: &BankForks,
    commitment_slots: &CommitmentSlots,
    notifier: &mut RpcNotifier,
    gossip: bool,
)
    requires
        old(subscriptions).wf(),
        old(notifier).inv(),
    ensures
        final(subscriptions).wf(),
        final(subscriptions)@ == spec_after_all(
            old(subscriptions)@,
            *bank_forks,
            *commitment_slots,
            gossip,
        ),
        final(subscriptions).spec_max_active() == old(subscriptions).spec_max_active(),
        final(notifier).inv(),
        final(notifier).recent_items.spec_max_len() == old(notifier).recent_items.spec_max_len(),
        final(notifier).recent_items.spec_max_total_bytes() == old(
            notifier,
        ).recent_items.spec_max_total_bytes(),
        spec_notifs(final(notifier).out@) == spec_notifs(old(notifier).out@) + spec_emits_all(
            old(subscriptions)@,
            *bank_forks,
            *commitment_slots,
            gossip,
        ),
{
    let ghost orig = old(subscriptions)@;
    let ghost f = *bank_forks;
    let ghost cs = *commitment_slots;
    let mut i: usize = 0;
    let ghost mut k: int = 0;
    proof {
        assert(orig.take(0) =~= Seq::<SubscriptionEntry>::empty());
        assert(orig.skip(0) =~= orig);
        assert(subscriptions@ =~= spec_after_all(orig.take(0), f, cs, gossip) + orig.skip(0));
        assert(spec_notifs(notifier.out@) =~= spec_notifs(old(notifier).out@) + spec_emits_all(
            orig.take(0),
            f,
            cs,
            gossip,
        ));
    }
    while i < subscriptions.total()
        invariant
            0 <= k <= orig.len(),
            subscriptions@ == spec_after_all(orig.take(k), f, cs, gossip) + orig.skip(k),
            i == spec_after_all(orig.take(k), f, cs, gossip).len(),
            spec_notifs(notifier.out@) == spec_notifs(old(notifier).out@) + spec_emits_all(
                orig.take(k),
                f,
                cs,
                gossip,
            ),
            subscriptions.wf(),
            subscriptions.spec_max_active() == old(subscriptions).spec_max_active(),
            notifier.inv(),
            notifier.recent_items.spec_max_len() == old(notifier).recent_items.spec_max_len(),
            notifier.recent_items.spec_max_total_bytes() == old(
                notifier,
            ).recent_items.spec_max_total_bytes(),
            f == *bank_forks,
            cs == *commitment_slots,
        decreases orig.len() - k,
    {
        proof {
            assert(subscriptions@.len() == i + (orig.len() - k));
            assert(k < orig.len());
            assert(subscriptions@[i as int] == orig.skip(k)[0]);
            assert(orig.skip(k)[0] == orig[k]);
        }
        let ghost before = subscriptions@;
        let ghost out_before = spec_notifs(notifier.out@);
        let (new_last, remove) = check_commitment_and_notify(
            subscriptions.get(i),
            bank_forks,
            commitment_slots,
            notifier,
            gossip,
        );
        subscriptions.set_last_notified_slot(i, new_last);
        proof {
            let t = orig.take(k + 1);
            assert(t.drop_last() =~= orig.take(k));
            assert(t.last() == orig[k]);
            assert(subscriptions@[i as int] == spec_entry_after(orig[k], f, cs, gossip));
            assert(spec_emits_all(orig.take(k + 1), f, cs, gossip) == spec_emits_all(
                orig.take(k),
                f,
                cs,
                gossip,
            ) + spec_entry_emits(orig[k], f, cs, gossip));
            assert(spec_notifs(notifier.out@) =~= spec_notifs(old(notifier).out@)
                + spec_emits_all(orig.take(k + 1), f, cs, gossip));
        }
        if remove {
            subscriptions.remove_at(i);
            proof {
                assert(subscriptions@ =~= spec_after_all(orig.take(k + 1), f, cs, gossip)
                    + orig.skip(k + 1));
            }
        } else {
            i += 1;
            proof {
                assert(subscriptions@ =~= spec_after_all(orig.take(k + 1), f, cs, gossip)
                    + orig.skip(k + 1));
            }
        }
        proof {
            k = k + 1;
        }
    }
    proof {
        assert(subscriptions@.len() == i + (orig.len() - k));
        assert(k == orig.len());
        assert(orig.take(k) =~= orig);
    }
}


/// A run keeps every surviving entry's id: the registry after an event holds
/// no id that was not there before.
pub proof fn lemma_after_all_ids(
    s: Seq<SubscriptionEntry>,
    f: BankForks,
    cs: CommitmentSlots,
    gossip: bool,
    bound: u64,
)
    requires
        forall|i: int| 0 <= i < s.len() ==> s[i].info.id < bound,
    ensures
        forall|i: int|
            0 <= i < spec_after_all(s, f, cs, gossip).len() ==> spec_after_all(
                s,
                f,
                cs,
                gossip,
            )[i].info.id < bound,
    decreases s.len(),
{
    if s.len() > 0 {
        lemma_after_all_ids(s.drop_last(), f, cs, gossip, bound);
        assert(s.drop_last().len() < s.len());
        assert(forall|i: int| 0 <= i < s.drop_last().len() ==> s.drop_last()[i] == s[i]);
        assert(spec_entry_after(s.last(), f, cs, gossip).info.id == s.last().info.id);
    }
}

} // verus!
