//! The bounded, ordered hand-off queue connecting the listener stage to the
//! delivery sink: a single-producer/single-consumer FIFO of capacity 32.
//!
//! `enqueue` appends at the back only while the queue is under capacity
//! (a full queue refuses the packet and hands it back, so that the producer
//! can stall rather than drop), and `dequeue` removes from the front, so
//! packets leave in exactly the order in which they were accepted.

use vstd::prelude::*;

use crate::model::DanmakuPacket;
use crate::model::DanmakuPacketView;

verus! {

/// The fixed capacity of the hand-off queue.
pub const QUEUE_CAPACITY: usize = 32;

/// The bounded FIFO hand-off queue.
pub struct HandoffQueue {
    items: Vec<DanmakuPacket>,
}

impl View for HandoffQueue {
    type V = Seq<DanmakuPacketView>;

    closed spec fn view(&self) -> Seq<DanmakuPacketView> {
        self.items@.map_values(|p: DanmakuPacket| p@)
    }
}

impl HandoffQueue {
    /// Whether the queue is within its capacity bound.
    pub open spec fn wf(&self) -> bool {
        self@.len() <= QUEUE_CAPACITY
    }

    /// A fresh, empty queue.
    pub fn new() -> (q: HandoffQueue)
        ensures
            q@ == Seq::<DanmakuPacketView>::empty(),
            q.wf(),
    {
        let q = HandoffQueue { items: Vec::new() };
        proof {
            assert(q@ =~= Seq::<DanmakuPacketView>::empty());
        }
        q
    }

    /// How many packets are queued.
    pub fn len(&self) -> (n: usize)
        ensures
            n == self@.len(),
    {
        self.items.len()
    }

    /// Append a packet at the back; a full queue leaves the contents
    /// unchanged and hands the packet back for the producer to retry.
    pub fn enqueue(&mut self, p: DanmakuPacket) -> (r: Result<(), DanmakuPacket>)
        requires
            old(self).wf(),
        ensures
            final(self).wf(),
            old(self)@.len() < QUEUE_CAPACITY ==> r is Ok && final(self)@ == old(self)@.push(p@),
            old(self)@.len() == QUEUE_CAPACITY ==> (r matches Err(back) && back@ == p@
                && final(self)@ == old(self)@),
    {
        if self.items.len() < QUEUE_CAPACITY {
            let ghost prev = self@;
            let ghost pv = p@;
            self.items.push(p);
            proof {
                assert(self@ =~= prev.push(pv));
            }
            Ok(())
        } else {
            Err(p)
        }
    }

    /// Remove and return the front packet; `None` on an empty queue.
    pub fn dequeue(&mut self) -> (r: Option<DanmakuPacket>)
        requires
            old(self).wf(),
        ensures
            final(self).wf(),
            old(self)@.len() == 0 ==> r is None && final(self)@ == old(self)@,
            old(self)@.len() > 0 ==> (r matches Some(p) && p@ == old(self)@.first()
                && final(self)@ == old(self)@.drop_first()),
    {
        if self.items.len() == 0 {
            None
        } else {
            let ghost prev = self@;
            let p = self.items.remove(0);
            proof {
                assert(self@ =~= prev.drop_first());
            }
            Some(p)
        }
    }
}

/// The packets returned by `k` successive dequeues from a queue whose
/// contents are `c`, front first.
pub open spec fn drain_results(c: Seq<DanmakuPacketView>, k: int) -> Seq<DanmakuPacketView>
    decreases k,
{
    if k <= 0 || c.len() == 0 {
        Seq::empty()
    } else {
        seq![c.first()] + drain_results(c.drop_first(), k - 1)
    }
}

/// Order preservation: dequeuing `k` packets from a queue holding the
/// accepted sequence `c` yields exactly the first `k` packets of `c`, in
/// the order in which they were enqueued.
pub proof fn lemma_fifo_order(c: Seq<DanmakuPacketView>, k: int)
    requires
        0 <= k <= c.len(),
    ensures
        drain_results(c, k) == c.take(k),
    decreases k,
{
    if k == 0 {
        assert(drain_results(c, 0) =~= c.take(0));
    } else {
        lemma_fifo_order(c.drop_first(), k - 1);
        assert(seq![c.first()] + c.drop_first().take(k - 1) =~= c.take(k));
    }
}

} // verus!
