use vstd::prelude::*;

verus! {

/// Why the instantiation of a trigger was refused.
#[derive(Clone, Copy, PartialEq, Eq, Structural, Debug)]
pub enum TriggerError {
    /// The poll interval is zero: the flush cadence would be undefined.
    ZeroPollInterval,
    /// The flush interval is smaller than the poll interval (or the explicit
    /// flush-round count is zero), so the number of polls between two flushes
    /// truncates to zero. Accepting it would make the flush test meaningless,
    /// so it is refused at setup.
    ZeroFlushRounds,
}

/// An unrecoverable failure of a source task: the trigger could not be set up
/// or did not fire, or the source outran the transform stage and filled the
/// bounded queue. The task that reports it terminates.
#[derive(Clone, Copy, PartialEq, Eq, Structural, Debug)]
pub enum PollError {
    /// The trigger configuration was invalid.
    TriggerInit(TriggerError),
    /// The live trigger failed while the task waited on it.
    TriggerFailed,
    /// A flush found the bounded queue to the transform stage full.
    QueueFull,
}

/// An unrecoverable failure of the transform task: one transform of the chain
/// failed, or the transformed batch could not be published. The single
/// transform task terminates and no further batch reaches any output.
#[derive(Clone, Copy, PartialEq, Eq, Structural, Debug)]
pub enum TransformError {
    /// The transform at this position of the chain failed.
    TransformFailed(usize),
    /// Publishing to the broadcast channel failed: no subscriber is left.
    PublishFailed,
}

/// A failure on the output side. A single failed write is recoverable (the
/// output task logs it and keeps consuming); only the loss of the dedicated
/// blocking-write worker is fatal to the task.
#[derive(Clone, Copy, PartialEq, Eq, Structural, Debug)]
pub enum WriteError {
    /// One write attempt failed; the task continues with the next batch.
    WriteFailed,
    /// The worker that executes blocking writes was lost; the task ends.
    WorkerLost,
}

} // verus!
