use vstd::prelude::*;
use crate::measurement::MeasurementBuffer;

verus! {

/// What one receive attempt on the broadcast channel yields.
pub enum BroadcastRecv {
    /// The next published batch this subscriber had not seen yet.
    Received(MeasurementBuffer),
    /// The subscriber fell behind the retained history: exactly this many
    /// batches were discarded before it could read them. The subscriber is
    /// moved up to the oldest batch still retained and keeps consuming.
    Lagged(u64),
    /// Nothing new yet; the subscriber should wait and try again.
    Empty,
    /// The subscriber is caught up and the publisher is gone.
    Closed,
}

/// The lag-tolerant broadcast channel between the transform stage and the
/// outputs.
///
/// Every published batch gets the next sequence number and is kept until the
/// channel holds `capacity` newer ones; each subscriber advances through the
/// sequence at its own pace and receives its own copy of each batch. A slow
/// subscriber therefore never blocks publishing or other subscribers: once it
/// falls behind the retained history it loses the discarded batches and is
/// told exactly how many. That deliberate trade — drop for the laggard, full
/// speed for everyone else — is the reason this transport is a broadcast and
/// not a per-output blocking queue.
pub struct BroadcastChannel {
    retained: Vec<MeasurementBuffer>,
    capacity: usize,
    next_seq: u64,
    receiver_count: usize,
    closed: bool,
}

/// One subscriber's position in the broadcast sequence.
pub struct BroadcastReceiver {
    next: u64,
}

impl BroadcastReceiver {
    /// The sequence number of the next batch this subscriber will read.
    pub closed spec fn next(self) -> u64 {
        self.next
    }

    /// Takes this subscriber's next batch, if it is still retained.
    ///
    /// If the subscriber fell behind the retained history it gets
    /// `Lagged(n)` with the exact count of batches discarded before it read
    /// them, and resumes at the oldest retained batch. A caught-up subscriber
    /// is told to wait (`Empty`) while the publisher lives and `Closed` once
    /// it is gone.
    pub fn recv(&mut self, chan: &BroadcastChannel) -> (r: BroadcastRecv)
        requires
            chan.wf(),
            old(self).next() <= chan.next_seq(),
        ensures
            final(self).next() <= chan.next_seq(),
            old(self).next() == chan.next_seq() ==> {
                &&& final(self).next() == old(self).next()
                &&& (r is Closed <==> chan.is_closed())
                &&& (r is Empty <==> !chan.is_closed())
            },
            old(self).next() < chan.start() ==> {
                &&& r == BroadcastRecv::Lagged((chan.start() - old(self).next()) as u64)
                &&& final(self).next() == chan.start()
            },
            chan.start() <= old(self).next() < chan.next_seq() ==> {
                &&& (r matches BroadcastRecv::Received(b)
                    && b@ == chan.retained()[old(self).next() - chan.start()]@)
                &&& final(self).next() == old(self).next() + 1
            },
    {
        if self.next == chan.next_seq {
            if chan.closed {
                BroadcastRecv::Closed
            } else {
                BroadcastRecv::Empty
            }
        } else {
            let len = chan.retained.len() as u64;
            let oldest = chan.next_seq - len;
            if self.next < oldest {
                let missed = oldest - self.next;
                self.next = oldest;
                BroadcastRecv::Lagged(missed)
            } else {
                let idx = (self.next - oldest) as usize;
                let batch = chan.retained[idx].clone();
                self.next = self.next + 1;
                BroadcastRecv::Received(batch)
            }
        }
    }
}

impl BroadcastChannel {
    /// The retained batches, oldest first.
    pub closed spec fn retained(self) -> Seq<MeasurementBuffer> {
        self.retained@
    }

    /// How many of the newest batches are retained for slow subscribers.
    pub closed spec fn capacity(self) -> usize {
        self.capacity
    }

    /// The sequence number the next published batch will get; equally, how
    /// many batches were ever published.
    pub closed spec fn next_seq(self) -> u64 {
        self.next_seq
    }

    /// How many subscribers are attached.
    pub closed spec fn receiver_count(self) -> usize {
        self.receiver_count
    }

    /// Whether the publisher is gone.
    pub closed spec fn is_closed(self) -> bool {
        self.closed
    }

    /// The sequence number of the oldest retained batch: everything before it
    /// is gone for good.
    pub open spec fn start(self) -> int {
        self.next_seq() - self.retained().len()
    }

    /// A channel is well formed when it retains at most `capacity` batches
    /// and never more than were published.
    pub open spec fn wf(self) -> bool {
        &&& self.capacity() > 0
        &&& self.retained().len() <= self.capacity()
        &&& self.retained().len() <= self.next_seq()
    }

    /// A fresh channel retaining up to `capacity` batches, with no
    /// subscriber and nothing published.
    pub fn new(capacity: usize) -> (r: BroadcastChannel)
        requires
            capacity > 0,
        ensures
            r.wf(),
            r.retained() == Seq::<MeasurementBuffer>::empty(),
            r.capacity() == capacity,
            r.next_seq() == 0,
            r.receiver_count() == 0,
            !r.is_closed(),
    {
        BroadcastChannel {
            retained: Vec::new(),
            capacity,
            next_seq: 0,
            receiver_count: 0,
            closed: false,
        }
    }

    /// Attaches a new subscriber. It starts at the next batch to be
    /// published: it will see everything published from now on and nothing
    /// from before.
    pub fn subscribe(&mut self) -> (r: BroadcastReceiver)
        requires
            old(self).wf(),
            old(self).receiver_count() < usize::MAX,
        ensures
            final(self).wf(),
            r.next() == old(self).next_seq(),
            final(self).receiver_count() == old(self).receiver_count() + 1,
            final(self).retained() == old(self).retained(),
            final(self).capacity() == old(self).capacity(),
            final(self).next_seq() == old(self).next_seq(),
            final(self).is_closed() == old(self).is_closed(),
    {
        self.receiver_count = self.receiver_count + 1;
        BroadcastReceiver { next: self.next_seq }
    }

    /// Detaches one subscriber.
    pub fn unsubscribe(&mut self)
        requires
            old(self).wf(),
            old(self).receiver_count() > 0,
        ensures
            final(self).wf(),
            final(self).receiver_count() == old(self).receiver_count() - 1,
            final(self).retained() == old(self).retained(),
            final(self).capacity() == old(self).capacity(),
            final(self).next_seq() == old(self).next_seq(),
            final(self).is_closed() == old(self).is_closed(),
    {
        self.receiver_count = self.receiver_count - 1;
    }

    /// Marks the publisher gone: caught-up subscribers will see `Closed`
    /// after draining what is retained.
    pub fn close(&mut self)
        requires
            old(self).wf(),
        ensures
            final(self).wf(),
            final(self).is_closed(),
            final(self).retained() == old(self).retained(),
            final(self).capacity() == old(self).capacity(),
            final(self).next_seq() == old(self).next_seq(),
            final(self).receiver_count() == old(self).receiver_count(),
    {
        self.closed = true;
    }

    /// Publishes `batch` to every subscriber, discarding the oldest retained
    /// batch if the history is full. With no subscriber at all the batch has
    /// nowhere to go and is handed back as an error.
    ///
    /// Publishing never waits for a slow subscriber: the oldest retained
    /// batch is sacrificed instead, and `start()` moves up by at most one, so
    /// a subscriber that was caught up before this call can still receive
    /// this very batch.
    pub fn send(&mut self, batch: MeasurementBuffer) -> (r: Result<(), MeasurementBuffer>)
        requires
            old(self).wf(),
            old(self).next_seq() < u64::MAX,
        ensures
            final(self).wf(),
            final(self).capacity() == old(self).capacity(),
            final(self).receiver_count() == old(self).receiver_count(),
            final(self).is_closed() == old(self).is_closed(),
            old(self).receiver_count() == 0 ==> {
                &&& r == Err::<(), MeasurementBuffer>(batch)
                &&& *final(self) == *old(self)
            },
            old(self).receiver_count() > 0 ==> {
                &&& r is Ok
                &&& final(self).next_seq() == old(self).next_seq() + 1
                &&& final(self).retained() == (if old(self).retained().len()
                    == old(self).capacity() {
                    old(self).retained().subrange(1, old(self).retained().len() as int)
                } else {
                    old(self).retained()
                }).push(batch)
                &&& old(self).start() <= final(self).start() <= old(self).next_seq()
            },
    {
        if self.receiver_count == 0 {
            Err(batch)
        } else {
            if self.retained.len() == self.capacity {
                self.retained.remove(0);
            }
            self.retained.push(batch);
            self.next_seq = self.next_seq + 1;
            Ok(())
        }
    }
}

/// A subscriber that was caught up when a batch was published can always
/// receive that batch: publishing moves the start of the retained history no
/// further than the old head of the sequence, so the subscriber's position
/// stays inside the retained window and its next receive is `Received`, never
/// `Lagged` and never a loss.
///
/// In particular, a pipeline that subscribes every output before any source
/// can emit — as `PendingPipeline::start` does — never loses a batch to a
/// missing subscriber at startup.
pub proof fn lemma_caught_up_subscriber_never_lags(
    before: BroadcastChannel,
    after: BroadcastChannel,
    rcv: BroadcastReceiver,
)
    requires
        before.wf(),
        after.wf(),
        rcv.next() == before.next_seq(),
        // what `send` ensures of the channel when a batch was published:
        after.next_seq() == before.next_seq() + 1,
        after.start() <= before.next_seq(),
    ensures
        after.start() <= rcv.next() < after.next_seq(),
{
}

/// A subscriber that just observed `Lagged` stands exactly at the oldest
/// retained batch, so while anything is retained its next receive yields a
/// batch: lag is recoverable and consumption resumes where the history
/// begins.
pub proof fn lemma_lagged_subscriber_resumes(chan: BroadcastChannel, rcv: BroadcastReceiver)
    requires
        chan.wf(),
        rcv.next() == chan.start(),
        chan.retained().len() > 0,
    ensures
        chan.start() <= rcv.next() < chan.next_seq(),
{
}

} // verus!
