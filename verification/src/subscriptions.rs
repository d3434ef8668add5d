//! The control surface: subscription lifecycle and event processing.
//!
//! [`RpcSubscriptions`] owns the registry and the notifier. Events arrive as
//! [`NotificationEntry`] values — the surrounding node multiplexes its
//! producers into one queue and drives
//! [`RpcSubscriptions::process_notification`] from a single worker, so the
//! registry needs no locking. Each event's exact effect — the notifications
//! appended and the registry afterwards — is given by [`spec_process_emits`]
//! and [`spec_process_entries`].

use vstd::prelude::*;
use vstd::multiset::Multiset;

use crate::engine::{
    notify_accounts_logs_programs_signatures, resolved_slot, spec_after_all, spec_emits_all,
    spec_resolved_slot,
};
use crate::ledger::{spec_find_account, spec_find_bank, BankForks, CommitmentSlots};
use crate::notifier::{spec_notifs, RpcNotification, RpcNotifier};
use crate::params::{spec_method_of, SubscriptionParams};
use crate::registry::{
    lemma_index_of_params, spec_index_of_params, SubscribeResult, SubscriptionEntry,
    SubscriptionInfo, SubscriptionsTracker,
};
use crate::values::{
    spec_render_slot_update, spec_render_value, spec_u64_list, NotificationValue, RpcVote,
    SlotInfo, SlotUpdate, Vote,
};
use crate::wire::{base58_of, lit, spec_dec, spec_dec_int};

verus! {

/// Default cap on distinct active subscriptions.
pub const DEFAULT_MAX_ACTIVE_SUBSCRIPTIONS: usize = 1000000;

/// Default cap on retained payloads (count), shared with the broadcast
/// channel capacity.
pub const DEFAULT_QUEUE_CAPACITY_ITEMS: usize = 10000000;

/// Default cap on retained payload bytes.
pub const DEFAULT_QUEUE_CAPACITY_BYTES: usize = 268435456;

/// Smaller queue caps for tests.
pub const TEST_QUEUE_CAPACITY_ITEMS: usize = 100;

/// Smaller byte cap for tests.
pub const TEST_QUEUE_CAPACITY_BYTES: usize = 1048576;

/// Engine configuration.
#[derive(Clone, Copy, Debug, PartialEq, Eq, Structural)]
pub struct PubSubConfig {
    /// Cap on distinct active subscriptions; subscribing past it fails.
    pub max_active_subscriptions: usize,
    /// Count cap for the recent-items buffer and the broadcast channel.
    pub queue_capacity_items: usize,
    /// Byte cap for the recent-items buffer.
    pub queue_capacity_bytes: usize,
}

impl Default for PubSubConfig {
    /// The production defaults.
    fn default() -> (r: PubSubConfig)
        ensures
            r == (PubSubConfig {
                max_active_subscriptions: DEFAULT_MAX_ACTIVE_SUBSCRIPTIONS,
                queue_capacity_items: DEFAULT_QUEUE_CAPACITY_ITEMS,
                queue_capacity_bytes: DEFAULT_QUEUE_CAPACITY_BYTES,
            }),
    {
        PubSubConfig {
            max_active_subscriptions: DEFAULT_MAX_ACTIVE_SUBSCRIPTIONS,
            queue_capacity_items: DEFAULT_QUEUE_CAPACITY_ITEMS,
            queue_capacity_bytes: DEFAULT_QUEUE_CAPACITY_BYTES,
        }
    }
}

impl PubSubConfig {
    /// Defaults with small queue caps, for tests.
    pub fn default_for_tests() -> (r: PubSubConfig)
        ensures
            r == (PubSubConfig {
                max_active_subscriptions: DEFAULT_MAX_ACTIVE_SUBSCRIPTIONS,
                queue_capacity_items: TEST_QUEUE_CAPACITY_ITEMS,
                queue_capacity_bytes: TEST_QUEUE_CAPACITY_BYTES,
            }),
    {
        PubSubConfig {
            max_active_subscriptions: DEFAULT_MAX_ACTIVE_SUBSCRIPTIONS,
            queue_capacity_items: TEST_QUEUE_CAPACITY_ITEMS,
            queue_capacity_bytes: TEST_QUEUE_CAPACITY_BYTES,
        }
    }
}

/// One event for the dispatcher, as the producers enqueue it.
#[derive(Debug)]
pub enum NotificationEntry {
    /// Slot progress, for slot watchers.
    Slot(SlotInfo),
    /// A slot-update, for slots-updates watchers.
    SlotUpdate(SlotUpdate),
    /// A vote observed on gossip, for vote watchers.
    Vote(Vote),
    /// A rooted slot, for root watchers.
    Root(u64),
    /// A bank commitment event, driving the commitment watchers.
    Bank(CommitmentSlots),
    /// A gossip-observed confirmation, driving the gossip watchers.
    Gossip(u64),
    /// Signatures first seen at a slot, for received-signature notification.
    SignaturesReceived((u64, Vec<Vec<u8>>)),
    /// A new subscriber with a fresh id.
    Subscribed(SubscriptionParams, u64),
    /// A subscriber gone.
    Unsubscribed(SubscriptionParams, u64),
}

/// Why a subscribe request failed.
#[derive(Clone, Copy, Debug, PartialEq, Eq, Structural)]
pub enum SubscribeError {
    /// The registry is at `max_active_subscriptions` distinct entries.
    CapacityExceeded,
}

/// Insert `x` into an already sorted sequence, before any equal elements'
/// successors — the unique sorted merge.
pub open spec fn spec_insert_sorted(x: u64, s: Seq<u64>) -> Seq<u64>
    decreases s.len(),
{
    if s.len() == 0 {
        seq![x]
    } else if x <= s[0] {
        seq![x] + s
    } else {
        seq![s[0]] + spec_insert_sorted(x, s.drop_first())
    }
}

/// Sort ascending by repeated insertion, taking elements from the back.
pub open spec fn spec_sort(s: Seq<u64>) -> Seq<u64>
    decreases s.len(),
{
    if s.len() == 0 {
        Seq::empty()
    } else {
        spec_insert_sorted(s.last(), spec_sort(s.drop_last()))
    }
}

/// Ascending order.
pub open spec fn spec_sorted(s: Seq<u64>) -> bool {
    forall|i: int, j: int| 0 <= i < j < s.len() ==> s[i] <= s[j]
}

/// Inserting into a sorted sequence keeps it sorted and adds the element.
pub proof fn lemma_insert_sorted(x: u64, s: Seq<u64>)
    requires
        spec_sorted(s),
    ensures
        spec_sorted(spec_insert_sorted(x, s)),
        spec_insert_sorted(x, s).to_multiset() == s.to_multiset().insert(x),
        spec_insert_sorted(x, s).len() == s.len() + 1,
    decreases s.len(),
{
    broadcast use vstd::seq_lib::group_seq_properties;
    broadcast use vstd::multiset::group_multiset_axioms;

    if s.len() == 0 {
        assert(s =~= Seq::<u64>::empty());
        assert(spec_insert_sorted(x, s) =~= s.push(x));
        s.to_multiset_ensures();
        assert(s.push(x).to_multiset() =~= s.to_multiset().insert(x));
    } else if x <= s[0] {
        let r = seq![x] + s;
        vstd::seq_lib::lemma_multiset_commutative(seq![x], s);
        assert(seq![x] =~= Seq::<u64>::empty().push(x));
        Seq::<u64>::empty().to_multiset_ensures();
        assert(seq![x].to_multiset() =~= Multiset::<u64>::empty().insert(x));
        assert(r.to_multiset() =~= s.to_multiset().insert(x));
        assert(forall|i: int| 0 <= i < s.len() ==> s[0] <= #[trigger] s[i]);
        assert(spec_sorted(r));
    } else {
        lemma_insert_sorted(x, s.drop_first());
        let inner = spec_insert_sorted(x, s.drop_first());
        let r = seq![s[0]] + inner;
        vstd::seq_lib::lemma_multiset_commutative(seq![s[0]], inner);
        assert(s =~= seq![s[0]] + s.drop_first());
        vstd::seq_lib::lemma_multiset_commutative(seq![s[0]], s.drop_first());
        assert(seq![s[0]] =~= Seq::<u64>::empty().push(s[0]));
        Seq::<u64>::empty().to_multiset_ensures();
        assert(seq![s[0]].to_multiset() =~= Multiset::<u64>::empty().insert(s[0]));
        assert(r.to_multiset() =~= s.to_multiset().insert(x));
        // every element of `inner` is either x (> s[0]) or from s.drop_first()
        // (>= s[0] by sortedness), so prepending s[0] stays sorted
        assert forall|i: int| 0 <= i < inner.len() implies s[0] <= inner[i] by {
            inner.to_multiset_ensures();
            assert(inner.contains(inner[i]));
            assert(inner.to_multiset().contains(inner[i]));
            if inner[i] != x {
                assert(s.drop_first().to_multiset().insert(x).contains(inner[i]));
                assert(s.drop_first().to_multiset().contains(inner[i]));
                s.drop_first().to_multiset_ensures();
                assert(s.drop_first().contains(inner[i]));
                let w = choose|w: int|
                    0 <= w < s.drop_first().len() && s.drop_first()[w] == inner[i];
                assert(s[w + 1] == inner[i]);
            }
        }
        assert(spec_sorted(r));
    }
}

/// The sort really sorts: ascending order, same multiset, same length.
pub proof fn lemma_spec_sort(s: Seq<u64>)
    ensures
        spec_sorted(spec_sort(s)),
        spec_sort(s).to_multiset() == s.to_multiset(),
        spec_sort(s).len() == s.len(),
    decreases s.len(),
{
    broadcast use vstd::seq_lib::group_seq_properties;

    if s.len() == 0 {
    } else {
        lemma_spec_sort(s.drop_last());
        lemma_insert_sorted(s.last(), spec_sort(s.drop_last()));
        s.drop_last().to_multiset_ensures();
        assert(s =~= s.drop_last().push(s.last()));
        assert(s.drop_last().push(s.last()).to_multiset() =~= s.drop_last().to_multiset().insert(
            s.last(),
        ));
    }
}

/// Insert `x` into the sorted vector `v` at its place.
fn insert_sorted(v: &mut Vec<u64>, x: u64)
    requires
        spec_sorted(old(v)@),
    ensures
        final(v)@ == spec_insert_sorted(x, old(v)@),
{
    let n = v.len();
    let mut i: usize = 0;
    while i < n && v[i] < x
        invariant
            0 <= i <= n,
            n == v@.len(),
            forall|j: int| 0 <= j < i ==> v@[j] < x,
        decreases n - i,
    {
        i += 1;
    }
    v.insert(i, x);
    proof {
        lemma_insert_sorted_at(x, old(v)@, i as int);
        assert(v@ =~= old(v)@.take(i as int) + seq![x] + old(v)@.skip(i as int));
    }
}

/// Where the first element at least `x` sits, the insertion lands.
proof fn lemma_insert_sorted_at(x: u64, s: Seq<u64>, i: int)
    requires
        0 <= i <= s.len(),
        forall|j: int| 0 <= j < i ==> s[j] < x,
        i < s.len() ==> x <= s[i],
    ensures
        spec_insert_sorted(x, s) == s.take(i) + seq![x] + s.skip(i),
    decreases s.len(),
{
    if s.len() == 0 {
        assert(spec_insert_sorted(x, s) =~= s.take(i) + seq![x] + s.skip(i));
    } else if x <= s[0] {
        assert(i == 0);
        assert(spec_insert_sorted(x, s) =~= s.take(0) + seq![x] + s.skip(0));
    } else {
        assert(i >= 1);
        lemma_insert_sorted_at(x, s.drop_first(), i - 1);
        assert(s.drop_first().take(i - 1) =~= s.take(i).drop_first());
        assert(s.drop_first().skip(i - 1) =~= s.skip(i));
        assert(seq![s[0]] + (s.drop_first().take(i - 1) + seq![x] + s.drop_first().skip(i - 1))
            =~= s.take(i) + seq![x] + s.skip(i));
    }
}

/// Sort a vector of slots ascending.
pub fn sort_slots(v: Vec<u64>) -> (r: Vec<u64>)
    ensures
        r@ == spec_sort(v@),
{
    let n = v.len();
    let mut out: Vec<u64> = Vec::new();
    let mut i: usize = 0;
    proof {
        assert(v@.take(0) =~= Seq::<u64>::empty());
        assert(out@ =~= spec_sort(v@.take(0)));
    }
    while i < n
        invariant
            0 <= i <= n,
            n == v@.len(),
            out@ == spec_sort(v@.take(i as int)),
        decreases n - i,
    {
        proof {
            lemma_spec_sort(v@.take(i as int));
            let t = v@.take(i as int + 1);
            assert(t.drop_last() =~= v@.take(i as int));
            assert(t.last() == v@[i as int]);
        }
        insert_sorted(&mut out, v[i]);
        i += 1;
    }
    proof {
        assert(v@.take(n as int) =~= v@);
    }
    out
}


/// Copy a vector of slots.
fn clone_slots(v: &Vec<u64>) -> (r: Vec<u64>)
    ensures
        r@ == v@,
{
    let r = v.clone();
    proof {
        assert(r@ =~= v@);
    }
    r
}

/// The commitment snapshot a gossip-observed confirmation stands for: only
/// the confirmed slot is populated.
pub open spec fn spec_gossip_slots(slot: u64) -> CommitmentSlots {
    CommitmentSlots { slot: 0, highest_confirmed_slot: slot, highest_confirmed_root: 0 }
}

/// A new subscription's starting last-notified slot: for an Account
/// subscription, the modified slot of the account at the commitment-resolved
/// slot; zero elsewhere.
pub open spec fn spec_initial_last_notified_slot(
    p: SubscriptionParams,
    f: BankForks,
    cs: CommitmentSlots,
) -> u64 {
    match p {
        SubscriptionParams::Account(ap) => match spec_find_bank(
            f.banks@,
            spec_resolved_slot(ap.commitment, cs),
        ) {
            None => 0,
            Some(bank) => match spec_find_account(bank.accounts@, ap.pubkey@) {
                Some(ae) => ae.modified_slot,
                None => 0,
            },
        },
        _ => 0,
    }
}

/// Compute a new subscription's starting last-notified slot.
pub fn initial_last_notified_slot(
    params: &SubscriptionParams,
    bank_forks: &BankForks,
    current: &CommitmentSlots,
) -> (r: u64)
    ensures
        r == spec_initial_last_notified_slot(*params, *bank_forks, *current),
{
    match params {
        SubscriptionParams::Account(p) => {
            let slot = resolved_slot(p.commitment, current);
            match bank_forks.get(slot) {
                Some(bank) => match bank.get_account_modified_slot(&p.pubkey) {
                    Some((_, s)) => s,
                    None => 0,
                },
                None => 0,
            }
        },
        _ => 0,
    }
}

/// What a node-progress event emits: one notification to the single watcher
/// entry whose parameters equal `target`, if the registry holds one.
pub open spec fn spec_singleton_emits(
    s: Seq<SubscriptionEntry>,
    target: SubscriptionParams,
    bytes: Seq<u8>,
) -> Seq<(u64, bool, Seq<u8>)> {
    let i = spec_index_of_params(s, target);
    if i == -1 {
        Seq::empty()
    } else {
        seq![
            (
                s[i].info.id,
                false,
                crate::values::spec_envelope_bytes(spec_method_of(target), s[i].info.id, bytes),
            ),
        ]
    }
}

/// The rendered payload of a vote notification.
pub open spec fn spec_vote_value_bytes(v: Vote) -> Seq<u8> {
    lit("{\"slots\":["@) + spec_u64_list(v.slots@) + lit("],\"hash\":\""@) + base58_of(v.hash@)
        + lit("\",\"timestamp\":"@) + (match v.timestamp {
        None => lit("null"@),
        Some(t) => spec_dec_int(t as int),
    }) + lit("}"@)
}

/// Whether a subscription wants a received-signature notification for `sig`.
pub open spec fn spec_received_match(e: SubscriptionEntry, sig: Seq<u8>) -> bool {
    match e.info.params {
        SubscriptionParams::Signature(p) => p.signature@ == sig
            && p.enable_received_notification,
        _ => false,
    }
}

/// The rendered payload of a received-signature notification.
pub open spec fn spec_received_value_bytes(slot: u64) -> Seq<u8> {
    spec_render_value(NotificationValue::SignatureReceived { context_slot: slot })
}

/// The received-signature notifications for one signature, in entry order.
pub open spec fn spec_received_for_sig(
    s: Seq<SubscriptionEntry>,
    sig: Seq<u8>,
    slot: u64,
) -> Seq<(u64, bool, Seq<u8>)>
    decreases s.len(),
{
    if s.len() == 0 {
        Seq::empty()
    } else if spec_received_match(s.last(), sig) {
        spec_received_for_sig(s.drop_last(), sig, slot).push(
            (
                s.last().info.id,
                false,
                crate::values::spec_envelope_bytes(
                    "signatureNotification"@,
                    s.last().info.id,
                    spec_received_value_bytes(slot),
                ),
            ),
        )
    } else {
        spec_received_for_sig(s.drop_last(), sig, slot)
    }
}

/// The received-signature notifications for a batch of signatures, in batch
/// order.
pub open spec fn spec_received_all(
    s: Seq<SubscriptionEntry>,
    sigs: Seq<Vec<u8>>,
    slot: u64,
) -> Seq<(u64, bool, Seq<u8>)>
    decreases sigs.len(),
{
    if sigs.len() == 0 {
        Seq::empty()
    } else {
        spec_received_all(s, sigs.drop_last(), slot) + spec_received_for_sig(
            s,
            sigs.last()@,
            slot,
        )
    }
}

/// The registry after a subscribe: a shared entry's reference count grows, or
/// a new entry appears under `id`, or — at the maximum — nothing changes.
pub open spec fn spec_subscribe_entries(
    s: Seq<SubscriptionEntry>,
    p: SubscriptionParams,
    id: u64,
    init: u64,
    max: int,
) -> Seq<SubscriptionEntry> {
    let i = spec_index_of_params(s, p);
    if i != -1 {
        s.update(
            i,
            SubscriptionEntry {
                info: s[i].info,
                refcount: if s[i].refcount < u64::MAX {
                    (s[i].refcount + 1) as u64
                } else {
                    u64::MAX
                },
            },
        )
    } else if s.len() >= max {
        s
    } else {
        s.push(
            SubscriptionEntry {
                info: SubscriptionInfo { id, params: p, last_notified_slot: init },
                refcount: 1,
            },
        )
    }
}

/// The registry after an unsubscribe: the matching entry's reference count
/// shrinks, the entry disappearing with its last subscriber.
pub open spec fn spec_unsubscribe_entries(
    s: Seq<SubscriptionEntry>,
    p: SubscriptionParams,
    id: u64,
) -> Seq<SubscriptionEntry> {
    let i = spec_index_of_params(s, p);
    if i == -1 || s[i].info.id != id {
        s
    } else if s[i].refcount > 1 {
        s.update(
            i,
            SubscriptionEntry { info: s[i].info, refcount: (s[i].refcount - 1) as u64 },
        )
    } else {
        s.remove(i)
    }
}

/// Exactly which notifications one event appends, given the registry and, for
/// commitment events, the ledger. `cs_now` is the current commitment snapshot,
/// consulted only when a subscribe initializes its last-notified slot.
pub open spec fn spec_process_emits(
    e: NotificationEntry,
    s: Seq<SubscriptionEntry>,
    f: BankForks,
    cs_now: CommitmentSlots,
) -> Seq<(u64, bool, Seq<u8>)> {
    match e {
        NotificationEntry::Subscribed(_, _) => Seq::empty(),
        NotificationEntry::Unsubscribed(_, _) => Seq::empty(),
        NotificationEntry::Slot(info) => spec_singleton_emits(
            s,
            SubscriptionParams::Slot,
            spec_render_value(NotificationValue::Slot { info }),
        ),
        NotificationEntry::SlotUpdate(u) => spec_singleton_emits(
            s,
            SubscriptionParams::SlotsUpdates,
            spec_render_slot_update(u),
        ),
        NotificationEntry::Vote(v) => spec_singleton_emits(
            s,
            SubscriptionParams::Vote,
            spec_vote_value_bytes(v),
        ),
        NotificationEntry::Root(slot) => spec_singleton_emits(
            s,
            SubscriptionParams::Root,
            spec_dec(slot as nat),
        ),
        NotificationEntry::Bank(cs) => spec_emits_all(s, f, cs, false),
        NotificationEntry::Gossip(slot) => spec_emits_all(s, f, spec_gossip_slots(slot), true),
        NotificationEntry::SignaturesReceived(t) => spec_received_all(s, t.1@, t.0),
    }
}

/// The registry after one event.
pub open spec fn spec_process_entries(
    e: NotificationEntry,
    s: Seq<SubscriptionEntry>,
    next_id: u64,
    max: int,
    f: BankForks,
    cs_now: CommitmentSlots,
) -> Seq<SubscriptionEntry> {
    match e {
        NotificationEntry::Subscribed(p, id) => if id >= next_id && id < u64::MAX {
            spec_subscribe_entries(
                s,
                p,
                id,
                spec_initial_last_notified_slot(p, f, cs_now),
                max,
            )
        } else {
            s
        },
        NotificationEntry::Unsubscribed(p, id) => spec_unsubscribe_entries(s, p, id),
        NotificationEntry::Bank(cs) => spec_after_all(s, f, cs, false),
        NotificationEntry::Gossip(slot) => spec_after_all(s, f, spec_gossip_slots(slot), true),
        _ => s,
    }
}

/// The id counter after one event: a subscribe with a usable fresh id moves
/// it past that id.
pub open spec fn spec_process_next_id(e: NotificationEntry, next_id: u64) -> u64 {
    match e {
        NotificationEntry::Subscribed(_, id) => if id >= next_id && id < u64::MAX {
            (id + 1) as u64
        } else {
            next_id
        },
        _ => next_id,
    }
}

/// The engine: registry, notifier, and the id counter.
#[derive(Debug)]
pub struct RpcSubscriptions {
    /// The registry of active subscriptions.
    pub subscriptions: SubscriptionsTracker,
    /// Renders and accounts for outgoing notifications.
    pub notifier: RpcNotifier,
    /// The next unused subscription id; every registered id is below it.
    pub next_id: u64,
}

impl RpcSubscriptions {
    /// The engine invariant.
    pub open spec fn wf(&self) -> bool {
        &&& self.subscriptions.wf()
        &&& self.notifier.inv()
        &&& forall|i: int|
            0 <= i < self.subscriptions@.len() ==> self.subscriptions@[i].info.id < self.next_id
    }

    /// The configured caps: active subscriptions, retained payload count,
    /// retained payload bytes.
    pub open spec fn spec_caps(&self) -> (usize, usize, usize) {
        (
            self.subscriptions.spec_max_active(),
            self.notifier.recent_items.spec_max_len(),
            self.notifier.recent_items.spec_max_total_bytes(),
        )
    }

    /// An empty engine under the default configuration.
    pub fn new() -> (r: RpcSubscriptions)
        ensures
            r.wf(),
            r.subscriptions@ == Seq::<SubscriptionEntry>::empty(),
            r.notifier.out@ == Seq::<RpcNotification>::empty(),
            r.next_id == 0,
            r.spec_caps() == (
                (
                    DEFAULT_MAX_ACTIVE_SUBSCRIPTIONS,
                    DEFAULT_QUEUE_CAPACITY_ITEMS,
                    DEFAULT_QUEUE_CAPACITY_BYTES,
                )
            ),
    {
        let config = PubSubConfig {
            max_active_subscriptions: DEFAULT_MAX_ACTIVE_SUBSCRIPTIONS,
            queue_capacity_items: DEFAULT_QUEUE_CAPACITY_ITEMS,
            queue_capacity_bytes: DEFAULT_QUEUE_CAPACITY_BYTES,
        };
        Self::new_with_config(&config)
    }

    /// An empty engine with smaller queue caps, for tests.
    pub fn new_for_tests() -> (r: RpcSubscriptions)
        ensures
            r.wf(),
            r.subscriptions@ == Seq::<SubscriptionEntry>::empty(),
            r.notifier.out@ == Seq::<RpcNotification>::empty(),
            r.next_id == 0,
            r.spec_caps() == (
                (
                    DEFAULT_MAX_ACTIVE_SUBSCRIPTIONS,
                    TEST_QUEUE_CAPACITY_ITEMS,
                    TEST_QUEUE_CAPACITY_BYTES,
                )
            ),
    {
        let config = PubSubConfig::default_for_tests();
        Self::new_with_config(&config)
    }

    /// An empty engine under `config`.
    pub fn new_with_config(config: &PubSubConfig) -> (r: RpcSubscriptions)
        ensures
            r.wf(),
            r.subscriptions@ == Seq::<SubscriptionEntry>::empty(),
            r.notifier.out@ == Seq::<RpcNotification>::empty(),
            r.notifier.recent_items.items() == Seq::<Seq<u8>>::empty(),
            r.notifier.num_messages == 0,
            r.notifier.num_bytes == 0,
            r.next_id == 0,
            r.spec_caps() == (
                (
                    config.max_active_subscriptions,
                    config.queue_capacity_items,
                    config.queue_capacity_bytes,
                )
            ),
    {
        RpcSubscriptions {
            subscriptions: SubscriptionsTracker::new(config.max_active_subscriptions),
            notifier: RpcNotifier::new(config.queue_capacity_items, config.queue_capacity_bytes),
            next_id: 0,
        }
    }

    /// The caller-facing count of active subscriptions: distinct entries.
    pub fn total(&self) -> (r: usize)
        ensures
            r == self.subscriptions@.len(),
    {
        self.subscriptions.total()
    }

    /// Hand the queued notifications to the transport layer, oldest first.
    pub fn drain_notifications(&mut self) -> (r: Vec<RpcNotification>)
        requires
            old(self).wf(),
        ensures
            final(self).wf(),
            r@ == old(self).notifier.out@,
            final(self).notifier.out@ == Seq::<RpcNotification>::empty(),
            final(self).subscriptions@ == old(self).subscriptions@,
            final(self).next_id == old(self).next_id,
            final(self).spec_caps() == old(self).spec_caps(),
    {
        self.notifier.drain()
    }

    /// Register a subscriber and return the id its notifications will carry:
    /// the shared entry's id when byte-identical parameters are already
    /// registered, a fresh one otherwise. Fails when the registry is at its
    /// configured maximum. A new Account subscription's last-notified slot is
    /// initialized from the ledger at its commitment-resolved slot.
    pub fn subscribe(
        &mut self,
        params: SubscriptionParams,
        bank_forks: &BankForks,
        current_commitment: &CommitmentSlots,
    ) -> (r: Result<u64, SubscribeError>)
        requires
            old(self).wf(),
            old(self).next_id < u64::MAX,
        ensures
            final(self).wf(),
            final(self).notifier == old(self).notifier,
            final(self).spec_caps() == old(self).spec_caps(),
            final(self).subscriptions@ == spec_subscribe_entries(
                old(self).subscriptions@,
                params,
                old(self).next_id,
                spec_initial_last_notified_slot(params, *bank_forks, *current_commitment),
                old(self).subscriptions.spec_max_active() as int,
            ),
            ({
                let i = spec_index_of_params(old(self).subscriptions@, params);
                &&& i != -1 ==> r == Ok::<u64, SubscribeError>(
                    old(self).subscriptions@[i].info.id,
                ) && final(self).next_id == old(self).next_id
                &&& (i == -1 && old(self).subscriptions@.len() >= old(
                    self,
                ).subscriptions.spec_max_active()) ==> r == Err::<u64, SubscribeError>(
                    SubscribeError::CapacityExceeded,
                ) && final(self).next_id == old(self).next_id
                &&& (i == -1 && old(self).subscriptions@.len() < old(
                    self,
                ).subscriptions.spec_max_active()) ==> r == Ok::<u64, SubscribeError>(
                    old(self).next_id,
                ) && final(self).next_id == old(self).next_id + 1
            }),
    {
        let init = initial_last_notified_slot(&params, bank_forks, current_commitment);
        let id = self.next_id;
        proof {
            assert forall|j: int|
                0 <= j < self.subscriptions@.len() implies self.subscriptions@[j].info.id
                != id by {}
        }
        let ghost before = self.subscriptions@;
        proof {
            lemma_index_of_params(before, params);
        }
        let result = self.subscriptions.subscribe(params, id, init);
        proof {
            let i = spec_index_of_params(before, params);
            if i != -1 {
                assert forall|j: int|
                    0 <= j < self.subscriptions@.len() implies self.subscriptions@[j].info.id
                    < self.next_id by {
                    assert(self.subscriptions@[j].info == before[j].info);
                }
            }
        }
        match result {
            SubscribeResult::Shared(existing_id) => Ok(existing_id),
            SubscribeResult::Inserted => {
                self.next_id = id + 1;
                proof {
                    assert forall|j: int|
                        0 <= j < self.subscriptions@.len() implies self.subscriptions@[j].info.id
                        < self.next_id by {
                        if j < before.len() {
                            assert(self.subscriptions@[j] == before[j]);
                        }
                    }
                }
                Ok(id)
            },
            SubscribeResult::AtCapacity => Err(SubscribeError::CapacityExceeded),
        }
    }

    /// Release one subscriber's hold on the entry matching `params` under
    /// `id`. Returns whether a matching entry was found.
    pub fn unsubscribe(&mut self, params: &SubscriptionParams, id: u64) -> (r: bool)
        requires
            old(self).wf(),
        ensures
            final(self).wf(),
            final(self).notifier == old(self).notifier,
            final(self).next_id == old(self).next_id,
            final(self).spec_caps() == old(self).spec_caps(),
            final(self).subscriptions@ == spec_unsubscribe_entries(
                old(self).subscriptions@,
                *params,
                id,
            ),
            r == ({
                let i = spec_index_of_params(old(self).subscriptions@, *params);
                i != -1 && old(self).subscriptions@[i].info.id == id
            }),
    {
        let r = self.subscriptions.unsubscribe(params, id);
        proof {
            lemma_index_of_params(old(self).subscriptions@, *params);
            let i = spec_index_of_params(old(self).subscriptions@, *params);
            if i != -1 && old(self).subscriptions@[i].info.id == id && old(
                self,
            ).subscriptions@[i].refcount == 1 {
                assert forall|j: int|
                    0 <= j < self.subscriptions@.len() implies self.subscriptions@[j].info.id
                    < self.next_id by {
                    let oj: int = if j < i {
                        j
                    } else {
                        j + 1
                    };
                    assert(self.subscriptions@[j] == old(self).subscriptions@[oj]);
                }
            } else if i != -1 && old(self).subscriptions@[i].info.id == id {
                assert forall|j: int|
                    0 <= j < self.subscriptions@.len() implies self.subscriptions@[j].info.id
                    < self.next_id by {
                    assert(self.subscriptions@[j].info == old(self).subscriptions@[j].info);
                }
            }
        }
        r
    }

    /// Notify the single node-progress watcher whose parameters equal
    /// `target`, if one is registered.
    fn notify_watcher(&mut self, target: &SubscriptionParams, value: &NotificationValue)
        requires
            old(self).wf(),
        ensures
            final(self).wf(),
            final(self).subscriptions@ == old(self).subscriptions@,
            final(self).next_id == old(self).next_id,
            final(self).spec_caps() == old(self).spec_caps(),
            spec_notifs(final(self).notifier.out@) == spec_notifs(old(self).notifier.out@)
                + spec_singleton_emits(
                old(self).subscriptions@,
                *target,
                spec_render_value(*value),
            ),
    {
        proof {
            lemma_index_of_params(self.subscriptions@, *target);
        }
        match self.subscriptions.find_params(target) {
            Some(i) => {
                proof {
                    crate::params::lemma_params_eq_method(
                        self.subscriptions@[i as int].info.params,
                        *target,
                    );
                }
                let sub = self.subscriptions.get(i);
                self.notifier.notify(value, &sub.info, false);
                proof {
                    assert(spec_notifs(self.notifier.out@) =~= spec_notifs(
                        old(self).notifier.out@,
                    ) + spec_singleton_emits(
                        old(self).subscriptions@,
                        *target,
                        spec_render_value(*value),
                    ));
                }
            },
            None => {
                proof {
                    assert(spec_notifs(self.notifier.out@) =~= spec_notifs(self.notifier.out@)
                        + Seq::<(u64, bool, Seq<u8>)>::empty());
                }
            },
        }
    }

    /// Emit received-signature notifications for a batch of signatures first
    /// seen at `slot`.
    fn notify_received(&mut self, slot: u64, signatures: &Vec<Vec<u8>>)
        requires
            old(self).wf(),
        ensures
            final(self).wf(),
            final(self).subscriptions@ == old(self).subscriptions@,
            final(self).next_id == old(self).next_id,
            final(self).spec_caps() == old(self).spec_caps(),
            spec_notifs(final(self).notifier.out@) == spec_notifs(old(self).notifier.out@)
                + spec_received_all(old(self).subscriptions@, signatures@, slot),
    {
        let ghost s = old(self).subscriptions@;
        let n = signatures.len();
        let mut i: usize = 0;
        proof {
            assert(signatures@.take(0) =~= Seq::<Vec<u8>>::empty());
            assert(spec_notifs(self.notifier.out@) =~= spec_notifs(old(self).notifier.out@)
                + spec_received_all(s, signatures@.take(0), slot));
        }
        while i < n
            invariant
                0 <= i <= n,
                n == signatures@.len(),
                self.wf(),
                self.subscriptions@ == s,
                s == old(self).subscriptions@,
                self.next_id == old(self).next_id,
                self.spec_caps() == old(self).spec_caps(),
                spec_notifs(self.notifier.out@) == spec_notifs(old(self).notifier.out@)
                    + spec_received_all(s, signatures@.take(i as int), slot),
            decreases n - i,
        {
            let ghost sig = signatures@[i as int]@;
            let ghost out_start = spec_notifs(self.notifier.out@);
            let m = self.subscriptions.total();
            let mut j: usize = 0;
            proof {
                assert(s.take(0) =~= Seq::<SubscriptionEntry>::empty());
                assert(out_start =~= out_start + spec_received_for_sig(s.take(0), sig, slot));
            }
            while j < m
                invariant
                    0 <= j <= m,
                    m == s.len(),
                    self.wf(),
                    self.subscriptions@ == s,
                    s == old(self).subscriptions@,
                    self.next_id == old(self).next_id,
                    self.spec_caps() == old(self).spec_caps(),
                    i < n,
                    n == signatures@.len(),
                    sig == signatures@[i as int]@,
                    spec_notifs(self.notifier.out@) == out_start + spec_received_for_sig(
                        s.take(j as int),
                        sig,
                        slot,
                    ),
                decreases m - j,
            {
                proof {
                    let t = s.take(j as int + 1);
                    assert(t.drop_last() =~= s.take(j as int));
                    assert(t.last() == s[j as int]);
                }
                let wants: bool = match &self.subscriptions.get(j).info.params {
                    SubscriptionParams::Signature(p) => p.enable_received_notification
                        && crate::params::bytes_eq(&p.signature, &signatures[i]),
                    _ => false,
                };
                if wants {
                    let v = NotificationValue::SignatureReceived { context_slot: slot };
                    let sub = self.subscriptions.get(j);
                    self.notifier.notify(&v, &sub.info, false);
                    proof {
                        assert(spec_notifs(self.notifier.out@) =~= out_start
                            + spec_received_for_sig(s.take(j as int + 1), sig, slot));
                    }
                }
                j += 1;
            }
            proof {
                assert(s.take(m as int) =~= s);
                let t = signatures@.take(i as int + 1);
                assert(t.drop_last() =~= signatures@.take(i as int));
                assert(t.last() == signatures@[i as int]);
                assert(spec_notifs(self.notifier.out@) =~= spec_notifs(old(self).notifier.out@)
                    + spec_received_all(s, signatures@.take(i as int + 1), slot));
            }
            i += 1;
        }
        proof {
            assert(signatures@.take(n as int) =~= signatures@);
        }
    }

    /// Dispatch one event: the dispatcher worker's step.
    ///
    /// `bank_forks` is the ledger snapshot the event is evaluated against;
    /// `current_commitment` is the commitment snapshot consulted when a
    /// subscribe initializes its last-notified slot.
    pub fn process_notification(
        &mut self,
        entry: NotificationEntry,
        bank_forks: &BankForks,
        current_commitment: &CommitmentSlots,
    )
        requires
            old(self).wf(),
        ensures
            final(self).wf(),
            final(self).spec_caps() == old(self).spec_caps(),
            spec_notifs(final(self).notifier.out@) == spec_notifs(old(self).notifier.out@)
                + spec_process_emits(
                entry,
                old(self).subscriptions@,
                *bank_forks,
                *current_commitment,
            ),
            final(self).subscriptions@ == spec_process_entries(
                entry,
                old(self).subscriptions@,
                old(self).next_id,
                old(self).subscriptions.spec_max_active() as int,
                *bank_forks,
                *current_commitment,
            ),
            final(self).next_id == spec_process_next_id(entry, old(self).next_id),
    {
        match entry {
            NotificationEntry::Subscribed(params, id) => {
                if id >= self.next_id && id < u64::MAX {
                    self.next_id = id + 1;
                    let init = initial_last_notified_slot(&params, bank_forks, current_commitment);
                    proof {
                        assert forall|j: int|
                            0 <= j < self.subscriptions@.len() implies self.subscriptions@[
                            j
                        ].info.id != id by {
                            assert(self.subscriptions@[j].info.id < old(self).next_id);
                        }
                        lemma_index_of_params(self.subscriptions@, params);
                    }
                    let ghost before = self.subscriptions@;
                    let _ = self.subscriptions.subscribe(params, id, init);
                    proof {
                        let i = spec_index_of_params(before, params);
                        if i != -1 {
                            assert forall|j: int|
                                0 <= j < self.subscriptions@.len() implies self.subscriptions@[
                                j
                            ].info.id < self.next_id by {
                                assert(self.subscriptions@[j].info == before[j].info);
                                assert(before[j].info.id < old(self).next_id);
                            }
                        } else if before.len() < self.subscriptions.spec_max_active() {
                            assert forall|j: int|
                                0 <= j < self.subscriptions@.len() implies self.subscriptions@[
                                j
                            ].info.id < self.next_id by {
                                if j < before.len() {
                                    assert(self.subscriptions@[j] == before[j]);
                                    assert(before[j].info.id < old(self).next_id);
                                } else {
                                    assert(self.subscriptions@[j].info.id == id);
                                }
                            }
                        } else {
                            assert(self.subscriptions@ == before);
                            assert forall|j: int|
                                0 <= j < self.subscriptions@.len() implies self.subscriptions@[
                                j
                            ].info.id < self.next_id by {
                                assert(before[j].info.id < old(self).next_id);
                            }
                        }
                    }
                }
                proof {
                    assert(spec_notifs(self.notifier.out@) =~= spec_notifs(self.notifier.out@)
                        + Seq::<(u64, bool, Seq<u8>)>::empty());
                }
            },
            NotificationEntry::Unsubscribed(params, id) => {
                let _ = self.unsubscribe(&params, id);
                proof {
                    assert(spec_notifs(self.notifier.out@) =~= spec_notifs(self.notifier.out@)
                        + Seq::<(u64, bool, Seq<u8>)>::empty());
                }
            },
            NotificationEntry::Slot(info) => {
                let v = NotificationValue::Slot { info };
                let target = SubscriptionParams::Slot;
                self.notify_watcher(&target, &v);
            },
            NotificationEntry::SlotUpdate(update) => {
                let target = SubscriptionParams::SlotsUpdates;
                let v = NotificationValue::SlotUpdate { update };
                self.notify_watcher(&target, &v);
            },
            NotificationEntry::Vote(vote) => {
                let rpc_vote = RpcVote {
                    slots: clone_slots(&vote.slots),
                    hash: crate::wire::base58_encode(&vote.hash),
                    timestamp: vote.timestamp,
                };
                let v = NotificationValue::Vote { vote: rpc_vote };
                proof {
                    assert(spec_render_value(v) == spec_vote_value_bytes(vote));
                }
                let target = SubscriptionParams::Vote;
                self.notify_watcher(&target, &v);
            },
            NotificationEntry::Root(slot) => {
                let v = NotificationValue::Root { slot };
                let target = SubscriptionParams::Root;
                self.notify_watcher(&target, &v);
            },
            NotificationEntry::Bank(commitment_slots) => {
                notify_accounts_logs_programs_signatures(
                    &mut self.subscriptions,
                    bank_forks,
                    &commitment_slots,
                    &mut self.notifier,
                    false,
                );
                proof {
                    crate::engine::lemma_after_all_ids(
                        old(self).subscriptions@,
                        *bank_forks,
                        commitment_slots,
                        false,
                        old(self).next_id,
                    );
                }
            },
            NotificationEntry::Gossip(slot) => {
                let commitment_slots = CommitmentSlots {
                    slot: 0,
                    highest_confirmed_slot: slot,
                    highest_confirmed_root: 0,
                };
                notify_accounts_logs_programs_signatures(
                    &mut self.subscriptions,
                    bank_forks,
                    &commitment_slots,
                    &mut self.notifier,
                    true,
                );
                proof {
                    crate::engine::lemma_after_all_ids(
                        old(self).subscriptions@,
                        *bank_forks,
                        spec_gossip_slots(slot),
                        true,
                        old(self).next_id,
                    );
                }
            },
            NotificationEntry::SignaturesReceived(slot_signatures) => {
                let (slot, signatures) = slot_signatures;
                self.notify_received(slot, &signatures);
            },
        }
    }
}


fn probe_next_id(e: NotificationEntry, n: u64) -> (r: u64)
    requires
        n < u64::MAX,
    ensures
        r == spec_process_next_id(e, n),
{
    match e {
        NotificationEntry::Subscribed(_p, id) => {
            if id >= n && id < u64::MAX {
                id + 1
            } else {
                n
            }
        },
        _ => n,
    }
}

} // verus!


verus! {

/// What one rooted slot produces: its slots-updates entry, then its root
/// notification.
pub open spec fn spec_root_pair_emits(
    s: Seq<SubscriptionEntry>,
    slot: u64,
    timestamp: u64,
) -> Seq<(u64, bool, Seq<u8>)> {
    spec_singleton_emits(
        s,
        SubscriptionParams::SlotsUpdates,
        spec_render_slot_update(SlotUpdate::Root { slot, timestamp }),
    ) + spec_singleton_emits(s, SubscriptionParams::Root, spec_dec(slot as nat))
}

/// What a batch of rooted slots produces, in batch order.
pub open spec fn spec_roots_emits(
    s: Seq<SubscriptionEntry>,
    slots: Seq<u64>,
    timestamp: u64,
) -> Seq<(u64, bool, Seq<u8>)>
    decreases slots.len(),
{
    if slots.len() == 0 {
        Seq::empty()
    } else {
        spec_roots_emits(s, slots.drop_last(), timestamp) + spec_root_pair_emits(
            s,
            slots.last(),
            timestamp,
        )
    }
}

impl RpcSubscriptions {
    /// Notify commitment watchers of a bank commitment event: accounts, logs,
    /// program accounts and signatures are matched against the ledger at each
    /// subscription's commitment-resolved slot.
    pub fn notify_subscribers(&mut self, commitment_slots: CommitmentSlots, bank_forks: &BankForks)
        requires
            old(self).wf(),
        ensures
            final(self).wf(),
            final(self).spec_caps() == old(self).spec_caps(),
            final(self).next_id == old(self).next_id,
            final(self).subscriptions@ == spec_after_all(
                old(self).subscriptions@,
                *bank_forks,
                commitment_slots,
                false,
            ),
            spec_notifs(final(self).notifier.out@) == spec_notifs(old(self).notifier.out@)
                + spec_emits_all(old(self).subscriptions@, *bank_forks, commitment_slots, false),
    {
        notify_accounts_logs_programs_signatures(
            &mut self.subscriptions,
            bank_forks,
            &commitment_slots,
            &mut self.notifier,
            false,
        );
        proof {
            crate::engine::lemma_after_all_ids(
                old(self).subscriptions@,
                *bank_forks,
                commitment_slots,
                false,
                old(self).next_id,
            );
        }
    }

    /// Notify gossip watchers — confirmed-commitment subscriptions — of a
    /// gossip-observed confirmation of `slot`.
    pub fn notify_gossip_subscribers(&mut self, slot: u64, bank_forks: &BankForks)
        requires
            old(self).wf(),
        ensures
            final(self).wf(),
            final(self).spec_caps() == old(self).spec_caps(),
            final(self).next_id == old(self).next_id,
            final(self).subscriptions@ == spec_after_all(
                old(self).subscriptions@,
                *bank_forks,
                spec_gossip_slots(slot),
                true,
            ),
            spec_notifs(final(self).notifier.out@) == spec_notifs(old(self).notifier.out@)
                + spec_emits_all(
                old(self).subscriptions@,
                *bank_forks,
                spec_gossip_slots(slot),
                true,
            ),
    {
        let commitment_slots = CommitmentSlots {
            slot: 0,
            highest_confirmed_slot: slot,
            highest_confirmed_root: 0,
        };
        notify_accounts_logs_programs_signatures(
            &mut self.subscriptions,
            bank_forks,
            &commitment_slots,
            &mut self.notifier,
            true,
        );
        proof {
            crate::engine::lemma_after_all_ids(
                old(self).subscriptions@,
                *bank_forks,
                spec_gossip_slots(slot),
                true,
                old(self).next_id,
            );
        }
    }

    /// Fan a slot update out to the slots-updates watcher.
    pub fn notify_slot_update(&mut self, slot_update: SlotUpdate)
        requires
            old(self).wf(),
        ensures
            final(self).wf(),
            final(self).spec_caps() == old(self).spec_caps(),
            final(self).next_id == old(self).next_id,
            final(self).subscriptions@ == old(self).subscriptions@,
            spec_notifs(final(self).notifier.out@) == spec_notifs(old(self).notifier.out@)
                + spec_singleton_emits(
                old(self).subscriptions@,
                SubscriptionParams::SlotsUpdates,
                spec_render_slot_update(slot_update),
            ),
    {
        let target = SubscriptionParams::SlotsUpdates;
        let v = NotificationValue::SlotUpdate { update: slot_update };
        self.notify_watcher(&target, &v);
    }

    /// Announce slot progress: the slot notification to slot watchers, then
    /// the created-bank update to slots-updates watchers. `timestamp` is the
    /// wall clock in milliseconds, supplied by the caller.
    pub fn notify_slot(&mut self, slot: u64, parent: u64, root: u64, timestamp: u64)
        requires
            old(self).wf(),
        ensures
            final(self).wf(),
            final(self).spec_caps() == old(self).spec_caps(),
            final(self).next_id == old(self).next_id,
            final(self).subscriptions@ == old(self).subscriptions@,
            spec_notifs(final(self).notifier.out@) == spec_notifs(old(self).notifier.out@)
                + spec_singleton_emits(
                old(self).subscriptions@,
                SubscriptionParams::Slot,
                spec_render_value(
                    NotificationValue::Slot { info: SlotInfo { slot, parent, root } },
                ),
            ) + spec_singleton_emits(
                old(self).subscriptions@,
                SubscriptionParams::SlotsUpdates,
                spec_render_slot_update(SlotUpdate::CreatedBank { slot, parent, timestamp }),
            ),
    {
        let target = SubscriptionParams::Slot;
        let v = NotificationValue::Slot { info: SlotInfo { slot, parent, root } };
        self.notify_watcher(&target, &v);
        self.notify_slot_update(SlotUpdate::CreatedBank { slot, parent, timestamp });
        proof {
            assert(spec_notifs(self.notifier.out@) =~= spec_notifs(old(self).notifier.out@)
                + spec_singleton_emits(
                old(self).subscriptions@,
                SubscriptionParams::Slot,
                spec_render_value(
                    NotificationValue::Slot { info: SlotInfo { slot, parent, root } },
                ),
            ) + spec_singleton_emits(
                old(self).subscriptions@,
                SubscriptionParams::SlotsUpdates,
                spec_render_slot_update(SlotUpdate::CreatedBank { slot, parent, timestamp }),
            ));
        }
    }

    /// Fan a gossip-observed vote out to the vote watcher, the bank-state
    /// hash rendered in base58.
    pub fn notify_vote(&mut self, vote: &Vote)
        requires
            old(self).wf(),
        ensures
            final(self).wf(),
            final(self).spec_caps() == old(self).spec_caps(),
            final(self).next_id == old(self).next_id,
            final(self).subscriptions@ == old(self).subscriptions@,
            spec_notifs(final(self).notifier.out@) == spec_notifs(old(self).notifier.out@)
                + spec_singleton_emits(
                old(self).subscriptions@,
                SubscriptionParams::Vote,
                spec_vote_value_bytes(*vote),
            ),
    {
        let rpc_vote = RpcVote {
            slots: clone_slots(&vote.slots),
            hash: crate::wire::base58_encode(&vote.hash),
            timestamp: vote.timestamp,
        };
        let v = NotificationValue::Vote { vote: rpc_vote };
        proof {
            assert(spec_render_value(v) == spec_vote_value_bytes(*vote));
        }
        let target = SubscriptionParams::Vote;
        self.notify_watcher(&target, &v);
    }

    /// Emit received-signature notifications for signatures first seen at a
    /// slot, to the signature subscriptions that asked for them.
    pub fn notify_signatures_received(&mut self, slot_signatures: (u64, Vec<Vec<u8>>))
        requires
            old(self).wf(),
        ensures
            final(self).wf(),
            final(self).spec_caps() == old(self).spec_caps(),
            final(self).next_id == old(self).next_id,
            final(self).subscriptions@ == old(self).subscriptions@,
            spec_notifs(final(self).notifier.out@) == spec_notifs(old(self).notifier.out@)
                + spec_received_all(
                old(self).subscriptions@,
                slot_signatures.1@,
                slot_signatures.0,
            ),
    {
        let (slot, signatures) = slot_signatures;
        self.notify_received(slot, &signatures);
    }

    /// Announce a batch of rooted slots, sorted ascending: for each slot, a
    /// root slot-update to the slots-updates watcher, then a root
    /// notification to the root watcher. `timestamp` is the wall clock in
    /// milliseconds, supplied by the caller.
    pub fn notify_roots(&mut self, rooted_slots: Vec<u64>, timestamp: u64)
        requires
            old(self).wf(),
        ensures
            final(self).wf(),
            final(self).spec_caps() == old(self).spec_caps(),
            final(self).next_id == old(self).next_id,
            final(self).subscriptions@ == old(self).subscriptions@,
            spec_notifs(final(self).notifier.out@) == spec_notifs(old(self).notifier.out@)
                + spec_roots_emits(
                old(self).subscriptions@,
                spec_sort(rooted_slots@),
                timestamp,
            ),
    {
        let ghost s = old(self).subscriptions@;
        let ghost ss = spec_sort(rooted_slots@);
        let sorted = sort_slots(rooted_slots);
        let n = sorted.len();
        let mut i: usize = 0;
        proof {
            assert(ss.take(0) =~= Seq::<u64>::empty());
            assert(spec_notifs(self.notifier.out@) =~= spec_notifs(old(self).notifier.out@)
                + spec_roots_emits(s, ss.take(0), timestamp));
        }
        while i < n
            invariant
                0 <= i <= n,
                n == sorted@.len(),
                sorted@ == ss,
                self.wf(),
                self.subscriptions@ == s,
                s == old(self).subscriptions@,
                self.next_id == old(self).next_id,
                self.spec_caps() == old(self).spec_caps(),
                spec_notifs(self.notifier.out@) == spec_notifs(old(self).notifier.out@)
                    + spec_roots_emits(s, ss.take(i as int), timestamp),
            decreases n - i,
        {
            let slot = sorted[i];
            self.notify_slot_update(SlotUpdate::Root { slot, timestamp });
            let target = SubscriptionParams::Root;
            let v = NotificationValue::Root { slot };
            self.notify_watcher(&target, &v);
            proof {
                let t = ss.take(i as int + 1);
                assert(t.drop_last() =~= ss.take(i as int));
                assert(t.last() == ss[i as int]);
                assert(spec_notifs(self.notifier.out@) =~= spec_notifs(old(self).notifier.out@)
                    + spec_roots_emits(s, ss.take(i as int + 1), timestamp));
            }
            i += 1;
        }
        proof {
            assert(ss.take(n as int) =~= ss);
        }
    }
}

} // verus!
