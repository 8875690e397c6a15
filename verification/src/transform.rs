use vstd::prelude::*;
use crate::broadcast::BroadcastChannel;
use crate::error::TransformError;
use crate::measurement::MeasurementBuffer;

verus! {

/// A transform as the pipeline takes it in: the metadata the engine needs
/// for one pluggable transform of the chain. The transforming unit itself is
/// an external collaborator and stays with the caller, paired to this entry
/// by position.
pub struct TaggedTransform {
    /// Name of the plugin that registered the transform.
    pub plugin_name: String,
}

/// The progress of the transform chain over one batch.
///
/// The single transform task runs every registered transform over the batch,
/// in declared order — later transforms observe earlier transforms' output —
/// and publishes the result only when the whole chain succeeded. The first
/// failure halts the chain for good: a partly transformed batch must never
/// reach an output.
pub struct TransformChain {
    n: usize,
    applied: usize,
    failed: bool,
}

/// Which transform the chain asks for next: the one at position `applied`,
/// unless the chain has failed or is done.
pub open spec fn spec_next_to_apply(c: TransformChain) -> Option<usize> {
    if !c.failed() && c.applied() < c.n() {
        Some(c.applied())
    } else {
        None
    }
}

/// A chain never counts more applications than it has transforms.
pub open spec fn chain_wf(c: TransformChain) -> bool {
    c.applied() <= c.n()
}

/// Whether the batch may be published: only when every transform of the
/// chain was applied and none failed.
pub open spec fn spec_should_publish(c: TransformChain) -> bool {
    !c.failed() && c.applied() == c.n()
}

impl TransformChain {
    /// How many transforms the chain holds.
    pub closed spec fn n(self) -> usize {
        self.n
    }

    /// How many transforms were applied to the batch so far; after a failure,
    /// the position of the transform that failed.
    pub closed spec fn applied(self) -> usize {
        self.applied
    }

    /// Whether a transform failed; never cleared for the same batch.
    pub closed spec fn failed(self) -> bool {
        self.failed
    }

    /// A chain of `n` transforms, poised over a fresh batch.
    pub fn new(n: usize) -> (r: TransformChain)
        ensures
            chain_wf(r),
            r.n() == n,
            r.applied() == 0,
            !r.failed(),
    {
        TransformChain { n, applied: 0, failed: false }
    }

    /// The position of the transform to run next, or nothing when the chain
    /// is done with the batch — because every transform ran, or because one
    /// failed and the rest must not run.
    pub fn next_to_apply(&self) -> (r: Option<usize>)
        ensures
            r == spec_next_to_apply(*self),
    {
        if !self.failed && self.applied < self.n {
            Some(self.applied)
        } else {
            None
        }
    }

    /// Records the outcome of the transform at position `applied`: success
    /// advances the chain, failure halts it there for good.
    pub fn record(&mut self, ok: bool)
        requires
            !old(self).failed(),
            old(self).applied() < old(self).n(),
        ensures
            chain_wf(*final(self)),
            final(self).n() == old(self).n(),
            ok ==> final(self).applied() == old(self).applied() + 1 && !final(self).failed(),
            !ok ==> final(self).failed() && final(self).applied() == old(self).applied(),
    {
        if ok {
            self.applied = self.applied + 1;
        } else {
            self.failed = true;
        }
    }

    /// Whether the batch may be published.
    pub fn should_publish(&self) -> (r: bool)
        ensures
            r == spec_should_publish(*self),
    {
        !self.failed && self.applied == self.n
    }
}

/// Ends the chain's run over one batch: publishes the transformed batch to
/// every output subscriber, unless a transform failed — then nothing is
/// published and the transform task ends with that failure, naming the
/// position of the transform that failed. A publish that finds no subscriber
/// left is equally fatal.
pub fn finish_batch(
    chain: &TransformChain,
    batch: MeasurementBuffer,
    chan: &mut BroadcastChannel,
) -> (r: Result<(), TransformError>)
    requires
        chain_wf(*chain),
        spec_next_to_apply(*chain) is None,
        old(chan).wf(),
        old(chan).next_seq() < u64::MAX,
    ensures
        final(chan).wf(),
        final(chan).capacity() == old(chan).capacity(),
        final(chan).receiver_count() == old(chan).receiver_count(),
        final(chan).is_closed() == old(chan).is_closed(),
        chain.failed() ==> {
            &&& r == Err::<(), TransformError>(TransformError::TransformFailed(chain.applied()))
            &&& *final(chan) == *old(chan)
        },
        !chain.failed() && old(chan).receiver_count() == 0 ==> {
            &&& r == Err::<(), TransformError>(TransformError::PublishFailed)
            &&& *final(chan) == *old(chan)
        },
        !chain.failed() && old(chan).receiver_count() > 0 ==> {
            &&& r is Ok
            &&& final(chan).next_seq() == old(chan).next_seq() + 1
            &&& final(chan).retained() == (if old(chan).retained().len() == old(
                chan,
            ).capacity() {
                old(chan).retained().subrange(1, old(chan).retained().len() as int)
            } else {
                old(chan).retained()
            }).push(batch)
            &&& old(chan).start() <= final(chan).start() <= old(chan).next_seq()
        },
{
    if chain.should_publish() {
        match chan.send(batch) {
            Ok(()) => Ok(()),
            Err(_) => Err(TransformError::PublishFailed),
        }
    } else {
        Err(TransformError::TransformFailed(chain.applied))
    }
}

/// A failure halts the chain: once the transform at position `k` of `n` has
/// failed, the chain asks for no further transform — positions `k + 1` to
/// `n - 1` never execute for that batch, as nothing ever clears the failure —
/// and the batch may not be published, so no output receives it for that
/// round.
pub proof fn lemma_failed_chain_halts(c: TransformChain)
    requires
        c.failed(),
    ensures
        spec_next_to_apply(c) is None,
        !spec_should_publish(c),
{
}

} // verus!
