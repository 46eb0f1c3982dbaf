//! Bounded FIFO buffer for received input reports.
//!
//! The pump thread funnels every input report into one of these queues; the
//! read façade drains it. Capacity is capped at 30 entries and insertion when
//! full evicts the oldest entry (drop-oldest policy): a deliberate lossy
//! bounded-staleness design, enforced at insertion time only.

use std::collections::VecDeque;
use vstd::prelude::*;

verus! {

broadcast use vstd::std_specs::vecdeque::group_vec_dequeue_axioms;

/// Most input reports that are buffered per device before the oldest is
/// dropped.
pub const QUEUE_CAPACITY: usize = 30;

/// What one enqueue does to the queue's contents: append the report, evicting
/// the oldest entry first when the queue is at capacity.
pub open spec fn spec_enqueue(q: Seq<Seq<u8>>, r: Seq<u8>) -> Seq<Seq<u8>> {
    if q.len() < QUEUE_CAPACITY {
        q.push(r)
    } else {
        q.subrange(1, q.len() as int).push(r)
    }
}

/// The contents after enqueueing each of `rs` in order into an empty queue.
pub open spec fn spec_enqueue_all(rs: Seq<Seq<u8>>) -> Seq<Seq<u8>>
    decreases rs.len(),
{
    if rs.len() == 0 {
        Seq::empty()
    } else {
        spec_enqueue(spec_enqueue_all(rs.drop_last()), rs.last())
    }
}

/// What one pop returns and leaves behind: the oldest entry and the rest.
pub open spec fn spec_pop(q: Seq<Seq<u8>>) -> (Seq<u8>, Seq<Seq<u8>>)
    recommends
        q.len() > 0,
{
    (q.first(), q.drop_first())
}

/// The first `m` entries that `m` successive pops return, in pop order.
pub open spec fn spec_drain(q: Seq<Seq<u8>>, m: int) -> Seq<Seq<u8>>
    decreases m,
{
    if m <= 0 {
        Seq::empty()
    } else {
        seq![spec_pop(q).0] + spec_drain(spec_pop(q).1, m - 1)
    }
}

/// FIFO delivery: after enqueueing up to capacity-many reports into an empty
/// queue, the queue holds exactly those reports in arrival order, and any
/// number of pops returns a prefix of them in arrival order, byte-identical
/// to what was enqueued.
pub proof fn lemma_fifo_order(rs: Seq<Seq<u8>>, m: int)
    requires
        rs.len() <= QUEUE_CAPACITY,
        0 <= m <= rs.len(),
    ensures
        spec_enqueue_all(rs) == rs,
        spec_drain(spec_enqueue_all(rs), m) == rs.take(m),
{
    lemma_enqueue_all_below_capacity(rs);
    lemma_drain_is_prefix(rs, m);
}

/// Enqueueing a report while the queue is at capacity evicts exactly the
/// oldest entry: the length stays at capacity, the last slot holds the new
/// report, and every surviving entry moves up one place in arrival order.
pub proof fn lemma_capacity_eviction(q: Seq<Seq<u8>>, r: Seq<u8>)
    requires
        q.len() == QUEUE_CAPACITY,
    ensures
        spec_enqueue(q, r).len() == QUEUE_CAPACITY,
        spec_enqueue(q, r).last() == r,
        forall|i: int| 0 <= i < QUEUE_CAPACITY - 1 ==> spec_enqueue(q, r)[i] == q[i + 1],
{
}

proof fn lemma_enqueue_all_below_capacity(rs: Seq<Seq<u8>>)
    requires
        rs.len() <= QUEUE_CAPACITY,
    ensures
        spec_enqueue_all(rs) == rs,
    decreases rs.len(),
{
    if rs.len() > 0 {
        lemma_enqueue_all_below_capacity(rs.drop_last());
        assert(spec_enqueue_all(rs) =~= rs);
    } else {
        assert(spec_enqueue_all(rs) =~= rs);
    }
}

proof fn lemma_drain_is_prefix(q: Seq<Seq<u8>>, m: int)
    requires
        0 <= m <= q.len(),
    ensures
        spec_drain(q, m) == q.take(m),
    decreases m,
{
    if m > 0 {
        lemma_drain_is_prefix(q.drop_first(), m - 1);
        assert(spec_drain(q, m) =~= q.take(m));
    } else {
        assert(spec_drain(q, m) =~= q.take(m));
    }
}

/// The bounded report queue itself: arrival order is kept, and the capacity
/// bound is enforced on every insertion.
pub struct ReportQueue {
    reports: VecDeque<Vec<u8>>,
}

impl View for ReportQueue {
    type V = Seq<Seq<u8>>;

    closed spec fn view(&self) -> Seq<Seq<u8>> {
        Seq::new(self.reports@.len(), |i: int| self.reports@[i]@)
    }
}

impl ReportQueue {
    /// The queue never exceeds its capacity.
    pub open spec fn wf(&self) -> bool {
        self@.len() <= QUEUE_CAPACITY
    }

    /// An empty queue.
    pub fn new() -> (r: Self)
        ensures
            r@ == Seq::<Seq<u8>>::empty(),
            r.wf(),
    {
        let r = ReportQueue { reports: VecDeque::new() };
        proof {
            assert(r@ =~= Seq::<Seq<u8>>::empty());
        }
        r
    }

    /// How many reports are buffered.
    pub fn len(&self) -> (n: usize)
        ensures
            n == self@.len(),
    {
        self.reports.len()
    }

    /// Whether no report is buffered.
    pub fn is_empty(&self) -> (b: bool)
        ensures
            b == (self@.len() == 0),
    {
        self.reports.len() == 0
    }

    /// Append a received report, evicting the oldest entry first when the
    /// queue is at capacity.
    pub fn push(&mut self, report: Vec<u8>)
        requires
            old(self).wf(),
        ensures
            final(self).wf(),
            final(self)@ == spec_enqueue(old(self)@, report@),
            final(self)@.len() >= 1,
    {
        if self.reports.len() == QUEUE_CAPACITY {
            let _evicted = self.reports.pop_front();
        }
        self.reports.push_back(report);
        proof {
            assert(self@ =~= spec_enqueue(old(self)@, report@));
        }
    }

    /// Remove and return the oldest report, if any.
    pub fn pop(&mut self) -> (r: Option<Vec<u8>>)
        ensures
            old(self).wf() ==> final(self).wf(),
            old(self)@.len() == 0 ==> r is None && final(self)@ == old(self)@,
            old(self)@.len() > 0 ==> {
                &&& r matches Some(v) && v@ == spec_pop(old(self)@).0
                &&& final(self)@ == spec_pop(old(self)@).1
            },
    {
        let r = self.reports.pop_front();
        proof {
            if old(self)@.len() == 0 {
                assert(self@ =~= old(self)@);
            } else {
                assert(self@ =~= spec_pop(old(self)@).1);
            }
        }
        r
    }

    /// Discard every buffered report.
    pub fn clear(&mut self)
        ensures
            final(self)@ == Seq::<Seq<u8>>::empty(),
            final(self).wf(),
    {
        self.reports.clear();
        proof {
            assert(self@ =~= Seq::<Seq<u8>>::empty());
        }
    }
}

} // verus!
