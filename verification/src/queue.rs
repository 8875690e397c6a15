use vstd::prelude::*;
use crate::measurement::MeasurementBuffer;

verus! {

/// What one receive attempt on the bounded queue yields.
pub enum QueueRecv {
    /// The oldest queued batch.
    Received(MeasurementBuffer),
    /// Nothing queued yet; the consumer should wait and try again.
    Empty,
    /// Nothing queued and every producer is gone: no batch will ever come.
    Closed,
}

/// The bounded first-in-first-out queue between the sources and the transform
/// stage.
///
/// Every source flushes into this one queue; the single transform task drains
/// it in arrival order. The capacity is fixed at construction: a send against
/// a full queue is refused rather than dropping a batch or blocking the
/// producer, and the refusal is the caller's fatal "source outran consumer"
/// condition.
pub struct InputQueue {
    items: Vec<MeasurementBuffer>,
    capacity: usize,
    closed: bool,
}

impl InputQueue {
    /// The queued batches, oldest first.
    pub closed spec fn batches(self) -> Seq<MeasurementBuffer> {
        self.items@
    }

    /// The fixed capacity.
    pub closed spec fn capacity(self) -> usize {
        self.capacity
    }

    /// Whether every producer is gone.
    pub closed spec fn is_closed(self) -> bool {
        self.closed
    }

    /// A queue is well formed when it never holds more than its capacity.
    pub open spec fn wf(self) -> bool {
        self.capacity() > 0 && self.batches().len() <= self.capacity()
    }

    /// An empty open queue of the given capacity.
    pub fn new(capacity: usize) -> (r: InputQueue)
        requires
            capacity > 0,
        ensures
            r.wf(),
            r.batches() == Seq::<MeasurementBuffer>::empty(),
            r.capacity() == capacity,
            !r.is_closed(),
    {
        InputQueue { items: Vec::new(), capacity, closed: false }
    }

    /// Appends `batch` unless the queue is full; a full queue refuses the
    /// batch and hands it back unchanged.
    pub fn try_send(&mut self, batch: MeasurementBuffer) -> (r: Result<(), MeasurementBuffer>)
        requires
            old(self).wf(),
        ensures
            final(self).wf(),
            final(self).capacity() == old(self).capacity(),
            final(self).is_closed() == old(self).is_closed(),
            old(self).batches().len() < old(self).capacity() ==> {
                &&& r is Ok
                &&& final(self).batches() == old(self).batches().push(batch)
            },
            old(self).batches().len() == old(self).capacity() ==> {
                &&& r == Err::<(), MeasurementBuffer>(batch)
                &&& final(self).batches() == old(self).batches()
            },
    {
        if self.items.len() < self.capacity {
            self.items.push(batch);
            Ok(())
        } else {
            Err(batch)
        }
    }

    /// Takes the oldest batch, first in first out. An empty queue yields
    /// `Empty` while a producer remains and `Closed` once none does.
    pub fn recv(&mut self) -> (r: QueueRecv)
        requires
            old(self).wf(),
        ensures
            final(self).wf(),
            final(self).capacity() == old(self).capacity(),
            final(self).is_closed() == old(self).is_closed(),
            old(self).batches().len() > 0 ==> {
                &&& r matches QueueRecv::Received(b) && b == old(self).batches()[0]
                &&& final(self).batches() == old(self).batches().subrange(
                    1,
                    old(self).batches().len() as int,
                )
            },
            old(self).batches().len() == 0 ==> {
                &&& final(self).batches() == old(self).batches()
                &&& r is Received == false
                &&& (r is Closed <==> old(self).is_closed())
                &&& (r is Empty <==> !old(self).is_closed())
            },
    {
        if self.items.len() > 0 {
            let b = self.items.remove(0);
            QueueRecv::Received(b)
        } else if self.closed {
            QueueRecv::Closed
        } else {
            QueueRecv::Empty
        }
    }

    /// Marks the queue closed: every producer is gone, and once drained the
    /// consumer will see `Closed` and end.
    pub fn close(&mut self)
        requires
            old(self).wf(),
        ensures
            final(self).wf(),
            final(self).batches() == old(self).batches(),
            final(self).capacity() == old(self).capacity(),
            final(self).is_closed(),
    {
        self.closed = true;
    }
}

} // verus!
