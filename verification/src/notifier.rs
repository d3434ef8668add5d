//! The notifier: renders one notification, records it for broadcast, and
//! retains the payload in the recent-items buffer.
//!
//! The engine is single-threaded; rendered notifications accumulate in an
//! outbox that the surrounding transport layer drains and fans out to its
//! receivers.

use vstd::prelude::*;

use crate::recent::{spec_evict, RecentItems};
use crate::registry::SubscriptionInfo;
use crate::values::{render_envelope, spec_envelope, NotificationValue};
use crate::params::spec_method_of;

verus! {

/// One rendered notification, ready for broadcast.
#[derive(Debug)]
pub struct RpcNotification {
    pub subscription_id: u64,
    /// Whether the subscription ends with this notification; the transport
    /// drops the subscriber after delivering it.
    pub is_final: bool,
    /// The rendered JSON-RPC message.
    pub json: Vec<u8>,
}

/// The observable content of a notification.
pub open spec fn spec_notif(n: RpcNotification) -> (u64, bool, Seq<u8>) {
    (n.subscription_id, n.is_final, n.json@)
}

/// The observable content of a queue of notifications.
pub open spec fn spec_notifs(s: Seq<RpcNotification>) -> Seq<(u64, bool, Seq<u8>)> {
    s.map_values(|n: RpcNotification| spec_notif(n))
}

/// `a + b`, stopping at the top of `u64`.
pub open spec fn spec_sat_add_u64(a: u64, b: u64) -> u64 {
    if a + b > u64::MAX {
        u64::MAX
    } else {
        (a + b) as u64
    }
}

fn sat_add_u64(a: u64, b: u64) -> (r: u64)
    ensures
        r == spec_sat_add_u64(a, b),
{
    if a > u64::MAX - b {
        u64::MAX
    } else {
        a + b
    }
}

/// Serializes notifications and accounts for them.
#[derive(Debug)]
pub struct RpcNotifier {
    /// Rendered notifications awaiting broadcast, oldest first.
    pub out: Vec<RpcNotification>,
    /// The bounded buffer of recently rendered payloads.
    pub recent_items: RecentItems,
    /// How many notifications were rendered; saturates.
    pub num_messages: u64,
    /// How many payload bytes were rendered; saturates.
    pub num_bytes: u64,
}

impl RpcNotifier {
    /// The recent-items accounting is intact.
    pub open spec fn inv(&self) -> bool {
        self.recent_items.inv()
    }

    /// A notifier with empty outbox and a recent-items buffer capped at
    /// `max_len` payloads and `max_total_bytes` bytes.
    pub fn new(max_len: usize, max_total_bytes: usize) -> (r: RpcNotifier)
        ensures
            r.out@ == Seq::<RpcNotification>::empty(),
            r.recent_items.items() == Seq::<Seq<u8>>::empty(),
            r.recent_items.spec_max_len() == max_len,
            r.recent_items.spec_max_total_bytes() == max_total_bytes,
            r.num_messages == 0,
            r.num_bytes == 0,
            r.inv(),
    {
        RpcNotifier {
            out: Vec::new(),
            recent_items: RecentItems::new(max_len, max_total_bytes),
            num_messages: 0,
            num_bytes: 0,
        }
    }

    /// Render `value` under `subscription`'s method and id, queue it for
    /// broadcast, retain the payload, and bump the counters.
    pub fn notify(&mut self, value: &NotificationValue, subscription: &SubscriptionInfo, is_final: bool)
        requires
            old(self).inv(),
        ensures
            final(self).inv(),
            spec_notifs(final(self).out@) == spec_notifs(old(self).out@).push(
                (
                    subscription.id,
                    is_final,
                    spec_envelope(spec_method_of(subscription.params), subscription.id, *value),
                ),
            ),
            final(self).recent_items.items() == spec_evict(
                old(self).recent_items.items().push(
                    spec_envelope(spec_method_of(subscription.params), subscription.id, *value),
                ),
                old(self).recent_items.spec_max_total_bytes() as int,
                old(self).recent_items.spec_max_len() as int,
            ),
            final(self).recent_items.spec_max_len() == old(self).recent_items.spec_max_len(),
            final(self).recent_items.spec_max_total_bytes() == old(
                self,
            ).recent_items.spec_max_total_bytes(),
            final(self).num_messages == spec_sat_add_u64(old(self).num_messages, 1),
            final(self).num_bytes == spec_sat_add_u64(
                old(self).num_bytes,
                spec_envelope(
                    spec_method_of(subscription.params),
                    subscription.id,
                    *value,
                ).len() as u64,
            ),
    {
        let json = render_envelope(subscription.method(), subscription.id, value);
        let retained = json.clone();
        proof {
            assert(retained@ =~= json@);
        }
        self.out.push(
            RpcNotification { subscription_id: subscription.id, is_final, json },
        );
        self.num_messages = sat_add_u64(self.num_messages, 1);
        self.num_bytes = sat_add_u64(self.num_bytes, retained.len() as u64);
        self.recent_items.push(retained);
        proof {
            assert(spec_notifs(self.out@) =~= spec_notifs(old(self).out@).push(
                (
                    subscription.id,
                    is_final,
                    spec_envelope(spec_method_of(subscription.params), subscription.id, *value),
                ),
            ));
        }
    }

    /// Hand the queued notifications to the transport layer, oldest first,
    /// leaving the outbox empty.
    pub fn drain(&mut self) -> (r: Vec<RpcNotification>)
        ensures
            r@ == old(self).out@,
            final(self).out@ == Seq::<RpcNotification>::empty(),
            final(self).recent_items == old(self).recent_items,
            final(self).num_messages == old(self).num_messages,
            final(self).num_bytes == old(self).num_bytes,
    {
        let r = self.out.split_off(0);
        proof {
            assert(r@ =~= old(self).out@);
            assert(self.out@ =~= Seq::<RpcNotification>::empty());
        }
        r
    }
}

} // verus!
