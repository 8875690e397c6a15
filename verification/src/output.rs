use vstd::prelude::*;
use crate::broadcast::BroadcastRecv;
use crate::control::OutputCmd;
use crate::error::WriteError;

verus! {

/// An output as the pipeline takes it in: the metadata the engine needs for
/// one pluggable output. The writing unit itself is an external collaborator
/// and stays with the caller, paired to this entry by position.
pub struct TaggedOutput {
    /// Name of the plugin that registered the output.
    pub plugin_name: String,
}

/// What an output task does next.
#[derive(Clone, Copy, PartialEq, Eq, Structural, Debug)]
pub enum OutputAction {
    /// Go back to waiting on the first of a command change or a batch.
    Continue,
    /// Hold: consume no batch until a command other than `Pause` arrives.
    AwaitUnpause,
    /// Hand the received batch to the blocking write worker.
    Write,
    /// Terminate the task gracefully; no further write is attempted.
    Halt,
}

/// The step an output takes on a command change: `Run` is a no-op
/// continuation, `Pause` holds consumption, `Stop` terminates.
pub open spec fn spec_output_command_step(cmd: OutputCmd) -> OutputAction {
    match cmd {
        OutputCmd::Run => OutputAction::Continue,
        OutputCmd::Pause => OutputAction::AwaitUnpause,
        OutputCmd::Stop => OutputAction::Halt,
    }
}

/// The step an output takes when the command leaves `Pause`: `Run` resumes
/// consumption, `Stop` terminates even while paused.
pub open spec fn spec_unpause_step(cmd: OutputCmd) -> OutputAction
    recommends
        cmd != OutputCmd::Pause,
{
    match cmd {
        OutputCmd::Stop => OutputAction::Halt,
        _ => OutputAction::Continue,
    }
}

/// The step an output takes on a receive outcome. A batch goes to the write
/// worker. Lag — the output fell behind the broadcast history — is
/// recoverable by design: the task notes the loss and keeps consuming. Only
/// a closed channel (the publisher is gone) ends the task, gracefully.
pub open spec fn spec_receive_step(r: BroadcastRecv) -> OutputAction {
    match r {
        BroadcastRecv::Received(_) => OutputAction::Write,
        BroadcastRecv::Lagged(_) => OutputAction::Continue,
        BroadcastRecv::Empty => OutputAction::Continue,
        BroadcastRecv::Closed => OutputAction::Halt,
    }
}

/// What came back from the dedicated worker that runs one blocking write.
pub enum WriteCompletion {
    /// The write succeeded.
    Done,
    /// The write itself failed; the batch is lost for this output only.
    WriteFailed,
    /// The worker was lost before it could report a result.
    WorkerLost,
}

/// The step an output takes once the write worker reports back. A failed
/// write is logged, never fatal: every write is best effort and the task
/// carries on to the next batch. Losing the worker itself, though, is
/// unrecoverable and ends the task with an error.
pub open spec fn spec_write_step(c: WriteCompletion) -> Result<OutputAction, WriteError> {
    match c {
        WriteCompletion::Done => Ok(OutputAction::Continue),
        WriteCompletion::WriteFailed => Ok(OutputAction::Continue),
        WriteCompletion::WorkerLost => Err(WriteError::WorkerLost),
    }
}

/// Decides the step for a command change.
pub fn on_command(cmd: &OutputCmd) -> (r: OutputAction)
    ensures
        r == spec_output_command_step(*cmd),
{
    match cmd {
        OutputCmd::Run => OutputAction::Continue,
        OutputCmd::Pause => OutputAction::AwaitUnpause,
        OutputCmd::Stop => OutputAction::Halt,
    }
}

/// Decides the step once a paused output sees the command change away from
/// `Pause`.
pub fn on_unpause(cmd: &OutputCmd) -> (r: OutputAction)
    requires
        *cmd != OutputCmd::Pause,
    ensures
        r == spec_unpause_step(*cmd),
{
    match cmd {
        OutputCmd::Stop => OutputAction::Halt,
        _ => OutputAction::Continue,
    }
}

/// Decides the step for a receive outcome.
pub fn on_receive(outcome: &BroadcastRecv) -> (r: OutputAction)
    ensures
        r == spec_receive_step(*outcome),
{
    match outcome {
        BroadcastRecv::Received(_) => OutputAction::Write,
        BroadcastRecv::Lagged(_) => OutputAction::Continue,
        BroadcastRecv::Empty => OutputAction::Continue,
        BroadcastRecv::Closed => OutputAction::Halt,
    }
}

/// Decides the step once the write worker reports back.
pub fn on_write_completion(c: &WriteCompletion) -> (r: Result<OutputAction, WriteError>)
    ensures
        r == spec_write_step(*c),
{
    match c {
        WriteCompletion::Done => Ok(OutputAction::Continue),
        WriteCompletion::WriteFailed => Ok(OutputAction::Continue),
        WriteCompletion::WorkerLost => Err(WriteError::WorkerLost),
    }
}

/// A single failed write never stops an output: the task continues — it goes
/// back to receiving and will attempt the next batch — exactly as if the
/// write had succeeded. The pipeline treats every write as best effort.
pub proof fn lemma_write_failure_not_fatal()
    ensures
        spec_write_step(WriteCompletion::WriteFailed) == spec_write_step(WriteCompletion::Done),
        spec_write_step(WriteCompletion::WriteFailed) == Ok::<OutputAction, WriteError>(
            OutputAction::Continue,
        ),
{
}

/// Falling behind the broadcast history never stops an output: the lag
/// signal (with its exact dropped count) steps to `Continue`, so the task
/// resumes consuming the batches still retained rather than terminating.
pub proof fn lemma_lag_not_fatal(missed: u64)
    ensures
        spec_receive_step(BroadcastRecv::Lagged(missed)) == OutputAction::Continue,
{
}

} // verus!
