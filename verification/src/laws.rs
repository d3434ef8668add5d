//! Laws of the engine, stated and proved once and for all.
//!
//! Each proof function here states a guarantee of the engine over the spec
//! functions that the executable functions' contracts use, so the guarantees
//! compose with those contracts at every call site.

use vstd::prelude::*;

use crate::engine::{
    spec_account_new_last, spec_entry_after, spec_entry_emits, spec_entry_selected,
    spec_entry_terminal, spec_resolved_slot, spec_after_all,
};
use crate::ledger::{spec_find_account, spec_find_bank, BankForks, CommitmentSlots};
use crate::params::{spec_params_eq, SubscriptionParams};
use crate::registry::{spec_entries_wf, spec_index_of_params, SubscriptionEntry};
use crate::subscriptions::{spec_subscribe_entries, spec_unsubscribe_entries};

verus! {

/// Deduplication: an account subscription emits at most one notification per
/// commitment event, and a second event with the same commitment slots and
/// the same ledger emits nothing — the first event left the last-notified
/// slot equal to the account's modified slot.
pub proof fn lemma_account_dedup(
    e: SubscriptionEntry,
    f: BankForks,
    cs: CommitmentSlots,
    gossip: bool,
)
    requires
        e.info.params is Account,
    ensures
        spec_entry_emits(e, f, cs, gossip).len() <= 1,
        spec_entry_emits(spec_entry_after(e, f, cs, gossip), f, cs, gossip) == Seq::<(
            u64,
            bool,
            Seq<u8>,
        )>::empty(),
{
    let after = spec_entry_after(e, f, cs, gossip);
    if spec_entry_selected(e, gossip) {
        let p = e.info.params->Account_0;
        let slot = spec_resolved_slot(p.commitment, cs);
        match spec_find_bank(f.banks@, slot) {
            None => {
                assert(after == e);
            },
            Some(bank) => {
                assert(after.info.last_notified_slot == spec_account_new_last(e, p, f, cs));
                match spec_find_account(bank.accounts@, p.pubkey@) {
                    Some(ae) => {
                        assert(after.info.last_notified_slot == ae.modified_slot);
                    },
                    None => {
                        assert(after.info.last_notified_slot == 0);
                    },
                }
            },
        }
    }
}

/// Fork revert: when the ledger's modified slot for the account differs from
/// the subscription's last-notified slot — even when it is smaller, as after
/// a fork revert — exactly one notification goes out, and the last-notified
/// slot becomes that modified slot.
pub proof fn lemma_account_fork_revert(
    e: SubscriptionEntry,
    f: BankForks,
    cs: CommitmentSlots,
    gossip: bool,
)
    requires
        spec_entry_selected(e, gossip),
        e.info.params is Account,
        ({
            let p = e.info.params->Account_0;
            &&& spec_find_bank(f.banks@, spec_resolved_slot(p.commitment, cs)) matches Some(bank)
            &&& spec_find_account(bank.accounts@, p.pubkey@) matches Some(ae)
            &&& ae.modified_slot != e.info.last_notified_slot
        }),
    ensures
        spec_entry_emits(e, f, cs, gossip).len() == 1,
        ({
            let p = e.info.params->Account_0;
            let bank = spec_find_bank(f.banks@, spec_resolved_slot(p.commitment, cs))->Some_0;
            let ae = spec_find_account(bank.accounts@, p.pubkey@)->Some_0;
            spec_entry_after(e, f, cs, gossip).info.last_notified_slot == ae.modified_slot
        }),
{
}

/// Account deletion: when the ledger no longer holds the account and the
/// subscription was notified of it before (last-notified slot non-zero),
/// exactly one notification goes out and the last-notified slot becomes zero.
pub proof fn lemma_account_deletion(
    e: SubscriptionEntry,
    f: BankForks,
    cs: CommitmentSlots,
    gossip: bool,
)
    requires
        spec_entry_selected(e, gossip),
        e.info.params is Account,
        e.info.last_notified_slot != 0,
        ({
            let p = e.info.params->Account_0;
            &&& spec_find_bank(f.banks@, spec_resolved_slot(p.commitment, cs)) matches Some(bank)
            &&& spec_find_account(bank.accounts@, p.pubkey@) is None
        }),
    ensures
        spec_entry_emits(e, f, cs, gossip).len() == 1,
        spec_entry_after(e, f, cs, gossip).info.last_notified_slot == 0,
{
}

/// Signature terminal, first half: a signature subscription that emits at all
/// emits exactly one notification, marked final, and the entry is terminal.
pub proof fn lemma_signature_terminal(
    e: SubscriptionEntry,
    f: BankForks,
    cs: CommitmentSlots,
    gossip: bool,
)
    requires
        e.info.params is Signature,
    ensures
        spec_entry_emits(e, f, cs, gossip).len() <= 1,
        spec_entry_emits(e, f, cs, gossip).len() == 1 ==> spec_entry_terminal(e, f, cs, gossip),
        spec_entry_emits(e, f, cs, gossip).len() == 1 ==> spec_entry_emits(e, f, cs, gossip)[0].1
            == true,
{
}

/// Every id in the registry after a run was there before the run.
pub proof fn lemma_after_all_id_membership(
    s: Seq<SubscriptionEntry>,
    f: BankForks,
    cs: CommitmentSlots,
    gossip: bool,
)
    ensures
        forall|j: int|
            0 <= j < spec_after_all(s, f, cs, gossip).len() ==> exists|k: int|
                0 <= k < s.len() && (#[trigger] spec_after_all(s, f, cs, gossip)[j]).info.id == s[
                    k
                ].info.id,
    decreases s.len(),
{
    if s.len() > 0 {
        lemma_after_all_id_membership(s.drop_last(), f, cs, gossip);
        let prev = spec_after_all(s.drop_last(), f, cs, gossip);
        let cur = spec_after_all(s, f, cs, gossip);
        assert(forall|k: int| 0 <= k < s.drop_last().len() ==> s.drop_last()[k] == s[k]);
        assert forall|j: int| 0 <= j < cur.len() implies exists|k: int|
            0 <= k < s.len() && (#[trigger] cur[j]).info.id == s[k].info.id by {
            if j < prev.len() {
                assert(cur[j] == prev[j]);
                let k0 = choose|k0: int|
                    0 <= k0 < s.drop_last().len() && prev[j].info.id == s.drop_last()[k0].info.id;
                assert(cur[j].info.id == s[k0].info.id);
            } else {
                assert(cur[j] == spec_entry_after(s.last(), f, cs, gossip));
                assert(cur[j].info.id == s[s.len() - 1].info.id);
            }
        }
    }
}

/// Signature terminal, second half: a terminal entry leaves the registry —
/// after the run, no entry carries its id, so no later commitment event can
/// notify that subscription again.
pub proof fn lemma_terminal_removed(
    s: Seq<SubscriptionEntry>,
    f: BankForks,
    cs: CommitmentSlots,
    gossip: bool,
    i: int,
)
    requires
        spec_entries_wf(s),
        0 <= i < s.len(),
        spec_entry_terminal(s[i], f, cs, gossip),
    ensures
        forall|j: int|
            0 <= j < spec_after_all(s, f, cs, gossip).len() ==> (#[trigger] spec_after_all(
                s,
                f,
                cs,
                gossip,
            )[j]).info.id != s[i].info.id,
    decreases s.len(),
{
    let cur = spec_after_all(s, f, cs, gossip);
    assert(forall|k: int| 0 <= k < s.drop_last().len() ==> s.drop_last()[k] == s[k]);
    if i == s.len() - 1 {
        lemma_after_all_id_membership(s.drop_last(), f, cs, gossip);
        assert forall|j: int| 0 <= j < cur.len() implies (#[trigger] cur[j]).info.id != s[
            i
        ].info.id by {
            let prev = spec_after_all(s.drop_last(), f, cs, gossip);
            assert(cur == prev);
            let k0 = choose|k0: int|
                0 <= k0 < s.drop_last().len() && prev[j].info.id == s.drop_last()[k0].info.id;
            assert(s[k0].info.id != s[i].info.id);
        }
    } else {
        assert(spec_entries_wf(s.drop_last()));
        lemma_terminal_removed(s.drop_last(), f, cs, gossip, i);
        let prev = spec_after_all(s.drop_last(), f, cs, gossip);
        assert forall|j: int| 0 <= j < cur.len() implies (#[trigger] cur[j]).info.id != s[
            i
        ].info.id by {
            if !spec_entry_terminal(s.last(), f, cs, gossip) && j == cur.len() - 1 {
                assert(cur[j] == spec_entry_after(s.last(), f, cs, gossip));
                assert(cur[j].info.id == s[s.len() - 1].info.id);
                assert(s[s.len() - 1].info.id != s[i].info.id);
            } else {
                assert(cur[j] == prev[j]);
            }
        }
    }
}

/// Where a parameter value lands in a registry extended by one entry.
pub proof fn lemma_index_of_params_push(
    s: Seq<SubscriptionEntry>,
    e: SubscriptionEntry,
    p: SubscriptionParams,
)
    requires
        spec_index_of_params(s, p) == -1,
    ensures
        spec_params_eq(e.info.params, p) ==> spec_index_of_params(s.push(e), p) == s.len(),
        !spec_params_eq(e.info.params, p) ==> spec_index_of_params(s.push(e), p) == -1,
    decreases s.len(),
{
    if s.len() == 0 {
        assert(s.push(e).len() == 1);
        assert(s.push(e)[0] == e);
        assert(s.push(e).drop_first() =~= Seq::<SubscriptionEntry>::empty());
    } else {
        assert(s.push(e)[0] == s[0]);
        crate::registry::lemma_index_of_params(s.drop_first(), p);
        lemma_index_of_params_push(s.drop_first(), e, p);
        assert(s.push(e).drop_first() =~= s.drop_first().push(e));
    }
    if !spec_params_eq(e.info.params, p) {
        assert(!spec_params_eq(s.push(e)[0].info.params, p));
        assert(spec_index_of_params(s.push(e).drop_first(), p) == -1);
        assert(spec_index_of_params(s.push(e), p) == -1);
    }
}

/// Byte-identity of parameters is symmetric.
pub proof fn lemma_params_eq_sym(a: SubscriptionParams, b: SubscriptionParams)
    requires
        spec_params_eq(a, b),
    ensures
        spec_params_eq(b, a),
{
}

/// Deduplicated subscribe: a second subscribe with byte-identical parameters
/// shares the first one's entry — the count does not grow and the entry keeps
/// the first subscriber's id — and releasing one of the two subscribers
/// leaves the entry active.
pub proof fn lemma_subscribe_dedup(
    s: Seq<SubscriptionEntry>,
    p: SubscriptionParams,
    q: SubscriptionParams,
    id1: u64,
    id2: u64,
    init1: u64,
    init2: u64,
    max: int,
)
    requires
        spec_params_eq(q, p),
        spec_index_of_params(s, p) == -1,
        s.len() < max,
    ensures
        ({
            let s1 = spec_subscribe_entries(s, p, id1, init1, max);
            let s2 = spec_subscribe_entries(s1, q, id2, init2, max);
            let s3 = spec_unsubscribe_entries(s2, q, id1);
            &&& s1.len() == s.len() + 1
            &&& s2.len() == s1.len()
            &&& s2[s.len() as int].info.id == id1
            &&& s2[s.len() as int].refcount == 2
            &&& s3.len() == s2.len()
            &&& s3[s.len() as int].info.id == id1
            &&& s3[s.len() as int].refcount == 1
        }),
{
    let s1 = spec_subscribe_entries(s, p, id1, init1, max);
    let inserted = s1[s.len() as int];
    assert(inserted.info.params == p);
    lemma_params_eq_sym(q, p);
    assert(spec_params_eq(inserted.info.params, q));
    assert(spec_index_of_params(s, q) == -1) by {
        crate::registry::lemma_index_of_params(s, p);
        crate::registry::lemma_index_of_params(s, q);
        if spec_index_of_params(s, q) != -1 {
            let w = spec_index_of_params(s, q);
            assert(spec_params_eq(s[w].info.params, q));
            lemma_params_eq_trans(s[w].info.params, q, p);
        }
    }
    lemma_index_of_params_push(s, inserted, q);
    assert(spec_index_of_params(s1, q) == s.len());
    let n: int = s.len() as int;
    let s2 = spec_subscribe_entries(s1, q, id2, init2, max);
    assert(s2 == s1.update(n, SubscriptionEntry { info: s1[n].info, refcount: 2u64 }));
    lemma_index_of_params_update(
        s1,
        n,
        SubscriptionEntry { info: s1[n].info, refcount: 2u64 },
        q,
    );
    assert(spec_index_of_params(s2, q) == n);
    let s3 = spec_unsubscribe_entries(s2, q, id1);
    assert(s3 == s2.update(n, SubscriptionEntry { info: s2[n].info, refcount: 1u64 }));
}

/// A reference-count update at a matching entry does not move where a
/// parameter value is found.
pub proof fn lemma_index_of_params_update(
    s: Seq<SubscriptionEntry>,
    n: int,
    e: SubscriptionEntry,
    p: SubscriptionParams,
)
    requires
        0 <= n < s.len(),
        e.info.params == s[n].info.params,
    ensures
        spec_index_of_params(s.update(n, e), p) == spec_index_of_params(s, p),
    decreases s.len(),
{
    let t = s.update(n, e);
    if n == 0 {
        assert(t.drop_first() =~= s.drop_first());
        assert(t[0].info.params == s[0].info.params);
    } else {
        assert(t[0] == s[0]);
        assert(t.drop_first() =~= s.drop_first().update(n - 1, e));
        lemma_index_of_params_update(s.drop_first(), n - 1, e, p);
    }
}

/// Byte-identity of parameters is transitive.
pub proof fn lemma_params_eq_trans(
    a: SubscriptionParams,
    b: SubscriptionParams,
    c: SubscriptionParams,
)
    requires
        spec_params_eq(a, b),
        spec_params_eq(b, c),
    ensures
        spec_params_eq(a, c),
{
}

} // verus!
