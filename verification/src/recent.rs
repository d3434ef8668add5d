//! The bounded buffer of recently rendered notification payloads.
//!
//! The buffer is the sole long-term holder of rendered payloads: it appends
//! each new payload and then evicts from the front until both its count cap
//! and its byte cap hold again. [`spec_evict`] pins the result down exactly:
//! the longest suffix of the appended queue that satisfies both caps.

use vstd::prelude::*;

verus! {

/// The byte total of a queue of payloads.
pub open spec fn spec_total(s: Seq<Seq<u8>>) -> int
    decreases s.len(),
{
    if s.len() == 0 {
        0
    } else {
        spec_total(s.drop_last()) + s.last().len()
    }
}

/// Evict from the front until both caps hold: the longest suffix of `s` whose
/// byte total is at most `max_total` and whose length is at most `max_len`.
pub open spec fn spec_evict(s: Seq<Seq<u8>>, max_total: int, max_len: int) -> Seq<Seq<u8>>
    decreases s.len(),
{
    if spec_total(s) <= max_total && s.len() <= max_len {
        s
    } else if s.len() == 0 {
        s
    } else {
        spec_evict(s.drop_first(), max_total, max_len)
    }
}

/// Byte totals are never negative.
pub proof fn lemma_total_nonneg(s: Seq<Seq<u8>>)
    ensures
        spec_total(s) >= 0,
    decreases s.len(),
{
    if s.len() > 0 {
        lemma_total_nonneg(s.drop_last());
    }
}

/// A byte total decomposes at the front as well as at the back.
pub proof fn lemma_total_drop_first(s: Seq<Seq<u8>>)
    requires
        s.len() > 0,
    ensures
        spec_total(s) == s.first().len() + spec_total(s.drop_first()),
    decreases s.len(),
{
    if s.len() == 1 {
        assert(s.drop_last() =~= Seq::<Seq<u8>>::empty());
        assert(s.drop_first() =~= Seq::<Seq<u8>>::empty());
    } else {
        lemma_total_drop_first(s.drop_last());
        assert(s.drop_last().drop_first() =~= s.drop_first().drop_last());
        assert(s.drop_last().first() == s.first());
        assert(s.drop_first().last() == s.last());
    }
}

/// A bounded FIFO of recently rendered notification payloads, enforcing both
/// a count cap and a byte cap.
#[derive(Debug)]
pub struct RecentItems {
    queue: Vec<Vec<u8>>,
    /// Exact byte accounting; wide enough that it cannot overflow.
    total_bytes: u128,
    max_len: usize,
    max_total_bytes: usize,
}

impl RecentItems {
    /// The retained payloads, oldest first.
    pub closed spec fn items(&self) -> Seq<Seq<u8>> {
        self.queue@.map_values(|v: Vec<u8>| v@)
    }

    /// The count cap.
    pub closed spec fn spec_max_len(&self) -> usize {
        self.max_len
    }

    /// The byte cap.
    pub closed spec fn spec_max_total_bytes(&self) -> usize {
        self.max_total_bytes
    }

    /// The accounting is exact and both caps hold.
    pub closed spec fn inv(&self) -> bool {
        &&& self.total_bytes == spec_total(self.items())
        &&& self.total_bytes <= self.max_total_bytes
        &&& self.items().len() <= self.max_len
    }

    /// An empty buffer with the given caps.
    pub fn new(max_len: usize, max_total_bytes: usize) -> (r: RecentItems)
        ensures
            r.items() == Seq::<Seq<u8>>::empty(),
            r.spec_max_len() == max_len,
            r.spec_max_total_bytes() == max_total_bytes,
            r.inv(),
    {
        let r = RecentItems { queue: Vec::new(), total_bytes: 0, max_len, max_total_bytes };
        proof {
            assert(r.items() =~= Seq::<Seq<u8>>::empty());
        }
        r
    }

    /// Append `item`, then evict from the front until both caps hold again.
    pub fn push(&mut self, item: Vec<u8>)
        requires
            old(self).inv(),
        ensures
            final(self).items() == spec_evict(
                old(self).items().push(item@),
                old(self).spec_max_total_bytes() as int,
                old(self).spec_max_len() as int,
            ),
            final(self).spec_max_len() == old(self).spec_max_len(),
            final(self).spec_max_total_bytes() == old(self).spec_max_total_bytes(),
            final(self).inv(),
    {
        let ghost target = old(self).items().push(item@);
        proof {
            lemma_total_nonneg(old(self).items());
        }
        self.total_bytes = self.total_bytes + item.len() as u128;
        self.queue.push(item);
        proof {
            assert(self.items() =~= target);
            assert(target.drop_last() =~= old(self).items());
            assert(self.total_bytes == spec_total(self.items()));
        }
        while self.total_bytes > self.max_total_bytes as u128 || self.queue.len() > self.max_len
            invariant
                self.total_bytes == spec_total(self.items()),
                self.max_len == old(self).max_len,
                self.max_total_bytes == old(self).max_total_bytes,
                spec_evict(self.items(), self.max_total_bytes as int, self.max_len as int)
                    == spec_evict(target, self.max_total_bytes as int, self.max_len as int),
            decreases self.queue@.len(),
        {
            proof {
                lemma_total_nonneg(self.items());
                if self.queue@.len() == 0 {
                    assert(spec_total(self.items()) == 0);
                    assert(false);
                }
                lemma_total_drop_first(self.items());
                lemma_total_nonneg(self.items().drop_first());
            }
            let ghost before = self.items();
            let evicted = self.queue.remove(0);
            self.total_bytes = self.total_bytes - evicted.len() as u128;
            proof {
                assert(self.items() =~= before.drop_first());
            }
        }
    }

    /// How many payloads are retained.
    pub fn len(&self) -> (r: usize)
        ensures
            r == self.items().len(),
    {
        self.queue.len()
    }

    /// How many bytes the retained payloads hold together.
    pub fn total_bytes(&self) -> (r: u128)
        requires
            self.inv(),
        ensures
            r == spec_total(self.items()),
    {
        self.total_bytes
    }
}


/// A queue of same-sized payloads totals its length times the size.
proof fn lemma_total_uniform(s: Seq<Seq<u8>>, b: int)
    requires
        forall|i: int| 0 <= i < s.len() ==> (#[trigger] s[i]).len() == b,
    ensures
        spec_total(s) == s.len() * b,
    decreases s.len(),
{
    if s.len() > 0 {
        assert(forall|i: int|
            0 <= i < s.drop_last().len() ==> (#[trigger] s.drop_last()[i]).len() == b);
        lemma_total_uniform(s.drop_last(), b);
        assert(s.last().len() == b);
        assert((s.len() - 1) * b + b == s.len() * b) by (nonlinear_arith);
    }
}

/// Memory bound: when every retained payload is exactly `b` bytes, the buffer
/// holds at most `max_len` payloads, and at most as many as fit under the
/// byte cap — at most `min(max_len, max_total_bytes / b)` in all.
pub proof fn lemma_recent_items_bound(r: &RecentItems, b: int)
    requires
        r.inv(),
        b > 0,
        forall|i: int| 0 <= i < r.items().len() ==> (#[trigger] r.items()[i]).len() == b,
    ensures
        r.items().len() <= r.spec_max_len(),
        r.items().len() * b <= r.spec_max_total_bytes(),
        r.items().len() <= r.spec_max_total_bytes() as int / b,
{
    lemma_total_uniform(r.items(), b);
    let n = r.items().len() as int;
    let m = r.spec_max_total_bytes() as int;
    assert(n <= m / b) by (nonlinear_arith)
        requires
            n * b <= m,
            b > 0,
            n >= 0,
    ;
}

} // verus!
