//! The subscription registry: one entry per distinct parameter value.
//!
//! Subscribes with byte-identical parameters share a single entry whose
//! reference count tracks how many subscribers hold it; the caller-facing
//! count ([`SubscriptionsTracker::total`]) is the number of distinct entries.
//! The registry refuses new entries past its configured maximum.

use vstd::prelude::*;

use crate::params::{params_eq, spec_method_of, spec_params_eq, SubscriptionParams};

verus! {

/// One active subscription's state.
#[derive(Debug)]
pub struct SubscriptionInfo {
    /// The unique id notifications for this subscription carry.
    pub id: u64,
    pub params: SubscriptionParams,
    /// The slot of the last account notification; meaningful for Account
    /// subscriptions only, zero elsewhere.
    pub last_notified_slot: u64,
}

impl SubscriptionInfo {
    /// The JSON-RPC method name used in outgoing notifications.
    pub fn method(&self) -> (r: &'static str)
        ensures
            r@ == spec_method_of(self.params),
    {
        self.params.method()
    }
}

/// A registry entry: shared subscription state plus its reference count.
#[derive(Debug)]
pub struct SubscriptionEntry {
    pub info: SubscriptionInfo,
    /// How many subscribers share this entry; at least one. The count
    /// saturates, which no real subscriber population can reach.
    pub refcount: u64,
}

/// Entries have pairwise distinct parameters, pairwise distinct ids, and live
/// reference counts.
pub open spec fn spec_entries_wf(s: Seq<SubscriptionEntry>) -> bool {
    &&& forall|i: int, j: int|
        0 <= i < j < s.len() ==> !spec_params_eq(s[i].info.params, s[j].info.params)
    &&& forall|i: int, j: int| 0 <= i < j < s.len() ==> s[i].info.id != s[j].info.id
    &&& forall|i: int| 0 <= i < s.len() ==> s[i].refcount >= 1
}

/// The index of the first entry with parameters byte-identical to `p`, or -1.
pub open spec fn spec_index_of_params(s: Seq<SubscriptionEntry>, p: SubscriptionParams) -> int
    decreases s.len(),
{
    if s.len() == 0 {
        -1
    } else if spec_params_eq(s[0].info.params, p) {
        0
    } else {
        let r = spec_index_of_params(s.drop_first(), p);
        if r < 0 {
            -1
        } else {
            r + 1
        }
    }
}

/// What `spec_index_of_params` finds: either no entry matches, or the first
/// matching index.
pub proof fn lemma_index_of_params(s: Seq<SubscriptionEntry>, p: SubscriptionParams)
    ensures
        spec_index_of_params(s, p) == -1 ==> forall|j: int|
            0 <= j < s.len() ==> !spec_params_eq(s[j].info.params, p),
        spec_index_of_params(s, p) != -1 ==> {
            let r = spec_index_of_params(s, p);
            &&& 0 <= r < s.len()
            &&& spec_params_eq(s[r].info.params, p)
            &&& forall|j: int| 0 <= j < r ==> !spec_params_eq(s[j].info.params, p)
        },
    decreases s.len(),
{
    if s.len() > 0 {
        lemma_index_of_params(s.drop_first(), p);
        assert forall|j: int| 1 <= j < s.len() implies s.drop_first()[j - 1] == s[j] by {}
    }
}

/// How a subscribe request was satisfied.
#[derive(Clone, Copy, Debug, PartialEq, Eq, Structural)]
pub enum SubscribeResult {
    /// A new entry was inserted under the caller's id.
    Inserted,
    /// An entry with byte-identical parameters already existed; the caller
    /// shares it under the entry's id.
    Shared(u64),
    /// The registry is at its configured maximum; nothing changed.
    AtCapacity,
}

/// The registry of active subscriptions.
#[derive(Debug)]
pub struct SubscriptionsTracker {
    entries: Vec<SubscriptionEntry>,
    max_active_subscriptions: usize,
}

impl View for SubscriptionsTracker {
    type V = Seq<SubscriptionEntry>;

    closed spec fn view(&self) -> Seq<SubscriptionEntry> {
        self.entries@
    }
}

impl SubscriptionsTracker {
    /// The configured maximum number of distinct entries.
    pub closed spec fn spec_max_active(&self) -> usize {
        self.max_active_subscriptions
    }

    /// The registry invariant.
    pub open spec fn wf(&self) -> bool {
        spec_entries_wf(self@)
    }

    /// An empty registry refusing more than `max_active_subscriptions`
    /// distinct entries.
    pub fn new(max_active_subscriptions: usize) -> (r: SubscriptionsTracker)
        ensures
            r@ == Seq::<SubscriptionEntry>::empty(),
            r.spec_max_active() == max_active_subscriptions,
            r.wf(),
    {
        SubscriptionsTracker { entries: Vec::new(), max_active_subscriptions }
    }

    /// The caller-facing count of active subscriptions: distinct entries.
    pub fn total(&self) -> (r: usize)
        ensures
            r == self@.len(),
    {
        self.entries.len()
    }

    /// The entry at `i`.
    pub fn get(&self, i: usize) -> (r: &SubscriptionEntry)
        requires
            i < self@.len(),
        ensures
            *r == self@[i as int],
    {
        &self.entries[i]
    }

    /// Record that the subscription at `i` was last notified at `slot`.
    pub fn set_last_notified_slot(&mut self, i: usize, slot: u64)
        requires
            old(self).wf(),
            i < old(self)@.len(),
        ensures
            final(self)@ == old(self)@.update(
                i as int,
                (SubscriptionEntry {
                    info: SubscriptionInfo {
                        id: old(self)@[i as int].info.id,
                        params: old(self)@[i as int].info.params,
                        last_notified_slot: slot,
                    },
                    refcount: old(self)@[i as int].refcount,
                }),
            ),
            final(self).spec_max_active() == old(self).spec_max_active(),
            final(self).wf(),
    {
        self.entries[i].info.last_notified_slot = slot;
        proof {
            assert forall|a: int, b: int|
                0 <= a < b < self@.len() implies !spec_params_eq(
                self@[a].info.params,
                self@[b].info.params,
            ) && self@[a].info.id != self@[b].info.id by {
                assert(self@[a].info.params == old(self)@[a].info.params);
                assert(self@[b].info.params == old(self)@[b].info.params);
            }
        }
    }

    /// Remove the entry at `i` outright, whatever its reference count; the
    /// signature-subscription handler uses this after a terminal
    /// notification.
    pub fn remove_at(&mut self, i: usize)
        requires
            old(self).wf(),
            i < old(self)@.len(),
        ensures
            final(self)@ == old(self)@.remove(i as int),
            final(self).spec_max_active() == old(self).spec_max_active(),
            final(self).wf(),
    {
        self.entries.remove(i);
        proof {
            assert forall|a: int, b: int|
                0 <= a < b < self@.len() implies !spec_params_eq(
                self@[a].info.params,
                self@[b].info.params,
            ) && self@[a].info.id != self@[b].info.id by {
                let oa: int = if a < i { a } else { a + 1 };
                let ob: int = if b < i { b } else { b + 1 };
                assert(self@[a] == old(self)@[oa]);
                assert(self@[b] == old(self)@[ob]);
            }
        }
    }

    /// The index of the entry with parameters byte-identical to `p`, if one
    /// exists.
    pub(crate) fn find_params(&self, p: &SubscriptionParams) -> (r: Option<usize>)
        ensures
            match r {
                None => spec_index_of_params(self@, *p) == -1,
                Some(i) => i as int == spec_index_of_params(self@, *p) && i < self@.len(),
            },
    {
        let n = self.entries.len();
        let mut i: usize = 0;
        while i < n
            invariant
                n == self@.len(),
                0 <= i <= n,
                forall|j: int| 0 <= j < i ==> !spec_params_eq(self@[j].info.params, *p),
            decreases n - i,
        {
            if params_eq(&self.entries[i].params_ref(), p) {
                proof {
                    lemma_index_of_params(self@, *p);
                }
                return Some(i);
            }
            i += 1;
        }
        proof {
            lemma_index_of_params(self@, *p);
        }
        None
    }

    /// Register a subscriber.
    ///
    /// If an entry with byte-identical parameters exists, its reference count
    /// grows and the subscriber shares it under the entry's id. Otherwise,
    /// when the registry is below its maximum, a new entry is inserted under
    /// the caller's fresh `id` with `init_last_notified_slot` as its starting
    /// last-notified slot; at the maximum, nothing changes.
    pub fn subscribe(
        &mut self,
        params: SubscriptionParams,
        id: u64,
        init_last_notified_slot: u64,
    ) -> (r: SubscribeResult)
        requires
            old(self).wf(),
            forall|j: int| 0 <= j < old(self)@.len() ==> old(self)@[j].info.id != id,
        ensures
            ({
                let i = spec_index_of_params(old(self)@, params);
                &&& i != -1 ==> {
                    &&& r == SubscribeResult::Shared(old(self)@[i].info.id)
                    &&& final(self)@ == old(self)@.update(
                        i,
                        (SubscriptionEntry {
                            info: old(self)@[i].info,
                            refcount: if old(self)@[i].refcount < u64::MAX {
                                (old(self)@[i].refcount + 1) as u64
                            } else {
                                u64::MAX
                            },
                        }),
                    )
                }
                &&& i == -1 && old(self)@.len() >= old(self).spec_max_active() ==> {
                    &&& r == SubscribeResult::AtCapacity
                    &&& final(self)@ == old(self)@
                }
                &&& i == -1 && old(self)@.len() < old(self).spec_max_active() ==> {
                    &&& r == SubscribeResult::Inserted
                    &&& final(self)@ == old(self)@.push(
                        (SubscriptionEntry {
                            info: SubscriptionInfo {
                                id,
                                params,
                                last_notified_slot: init_last_notified_slot,
                            },
                            refcount: 1,
                        }),
                    )
                }
            }),
            final(self).spec_max_active() == old(self).spec_max_active(),
            final(self).wf(),
    {
        proof {
            lemma_index_of_params(self@, params);
        }
        match self.find_params(&params) {
            Some(i) => {
                let existing_id = self.entries[i].info.id;
                if self.entries[i].refcount < u64::MAX {
                    self.entries[i].refcount = self.entries[i].refcount + 1;
                }
                proof {
                    assert forall|a: int, b: int|
                        0 <= a < b < self@.len() implies !spec_params_eq(
                        self@[a].info.params,
                        self@[b].info.params,
                    ) && self@[a].info.id != self@[b].info.id by {
                        assert(self@[a].info == old(self)@[a].info);
                        assert(self@[b].info == old(self)@[b].info);
                    }
                }
                SubscribeResult::Shared(existing_id)
            },
            None => {
                if self.entries.len() >= self.max_active_subscriptions {
                    SubscribeResult::AtCapacity
                } else {
                    self.entries.push(
                        SubscriptionEntry {
                            info: SubscriptionInfo {
                                id,
                                params,
                                last_notified_slot: init_last_notified_slot,
                            },
                            refcount: 1,
                        },
                    );
                    proof {
                        let s = self@;
                        let o = old(self)@;
                        assert forall|a: int, b: int|
                            0 <= a < b < s.len() implies !spec_params_eq(
                            s[a].info.params,
                            s[b].info.params,
                        ) && s[a].info.id != s[b].info.id by {
                            if b < o.len() {
                                assert(s[a] == o[a] && s[b] == o[b]);
                            } else {
                                assert(s[a] == o[a]);
                            }
                        }
                    }
                    SubscribeResult::Inserted
                }
            },
        }
    }

    /// Release one subscriber's hold on the entry matching `params` under
    /// `id`. The entry disappears when its last subscriber releases it.
    /// Returns whether a matching entry was found.
    pub fn unsubscribe(&mut self, params: &SubscriptionParams, id: u64) -> (r: bool)
        requires
            old(self).wf(),
        ensures
            ({
                let i = spec_index_of_params(old(self)@, *params);
                &&& (i == -1 || (i != -1 && old(self)@[i].info.id != id)) ==> {
                    &&& r == false
                    &&& final(self)@ == old(self)@
                }
                &&& i != -1 && old(self)@[i].info.id == id && old(self)@[i].refcount > 1 ==> {
                    &&& r == true
                    &&& final(self)@ == old(self)@.update(
                        i,
                        (SubscriptionEntry {
                            info: old(self)@[i].info,
                            refcount: (old(self)@[i].refcount - 1) as u64,
                        }),
                    )
                }
                &&& i != -1 && old(self)@[i].info.id == id && old(self)@[i].refcount == 1 ==> {
                    &&& r == true
                    &&& final(self)@ == old(self)@.remove(i)
                }
            }),
            final(self).spec_max_active() == old(self).spec_max_active(),
            final(self).wf(),
    {
        proof {
            lemma_index_of_params(self@, *params);
        }
        match self.find_params(params) {
            Some(i) => {
                if self.entries[i].info.id != id {
                    return false;
                }
                if self.entries[i].refcount > 1 {
                    self.entries[i].refcount = self.entries[i].refcount - 1;
                    proof {
                        assert forall|a: int, b: int|
                            0 <= a < b < self@.len() implies !spec_params_eq(
                            self@[a].info.params,
                            self@[b].info.params,
                        ) && self@[a].info.id != self@[b].info.id by {
                            assert(self@[a].info == old(self)@[a].info);
                            assert(self@[b].info == old(self)@[b].info);
                        }
                    }
                } else {
                    self.remove_at_inner(i);
                }
                true
            },
            None => false,
        }
    }

    /// As `remove_at`, for use while `self` is already borrowed mutably.
    fn remove_at_inner(&mut self, i: usize)
        requires
            old(self).wf(),
            i < old(self)@.len(),
        ensures
            final(self)@ == old(self)@.remove(i as int),
            final(self).spec_max_active() == old(self).spec_max_active(),
            final(self).wf(),
    {
        self.entries.remove(i);
        proof {
            assert forall|a: int, b: int|
                0 <= a < b < self@.len() implies !spec_params_eq(
                self@[a].info.params,
                self@[b].info.params,
            ) && self@[a].info.id != self@[b].info.id by {
                let oa: int = if a < i { a } else { a + 1 };
                let ob: int = if b < i { b } else { b + 1 };
                assert(self@[a] == old(self)@[oa]);
                assert(self@[b] == old(self)@[ob]);
            }
        }
    }
}

impl SubscriptionEntry {
    /// The entry's parameters.
    fn params_ref(&self) -> (r: &SubscriptionParams)
        ensures
            *r == self.info.params,
    {
        &self.info.params
    }
}

} // verus!
