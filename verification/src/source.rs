use vstd::prelude::*;
use crate::control::SourceCmd;
use crate::error::PollError;
use crate::measurement::MeasurementBuffer;
use crate::queue::InputQueue;
use crate::trigger::SourceTrigger;
use crate::trigger::SourceTriggerProvider;
use vstd::arithmetic::div_mod::lemma_fundamental_div_mod;
use vstd::arithmetic::div_mod::lemma_mod_multiples_vanish;
use vstd::arithmetic::div_mod::lemma_small_mod;

verus! {

/// The execution class of a source: which worker pool runs its task.
#[derive(Clone, Copy, PartialEq, Eq, Structural, Debug)]
pub enum SourceType {
    /// Cooperative scheduling on the normal worker pool.
    Normal,
    /// The elevated-priority worker pool, for latency-sensitive sources.
    RealtimePriority,
}

/// A source as the pipeline takes it in: the scheduling metadata the engine
/// needs to run one pluggable measurement source. The polled unit itself is
/// an external collaborator and stays with the caller, paired to this entry
/// by position.
pub struct TaggedSource {
    /// Which worker pool runs this source's task.
    pub source_type: SourceType,
    /// The trigger configuration the task is started with.
    pub trigger_provider: SourceTriggerProvider,
    /// Name of the plugin that registered the source.
    pub plugin_name: String,
}

impl TaggedSource {
    /// Tags a source with its execution class, trigger configuration and
    /// owning plugin.
    pub fn new(
        source_type: SourceType,
        trigger_provider: SourceTriggerProvider,
        plugin_name: String,
    ) -> (r: TaggedSource)
        ensures
            r.source_type == source_type,
            r.trigger_provider == trigger_provider,
            r.plugin_name == plugin_name,
    {
        TaggedSource { source_type, trigger_provider, plugin_name }
    }
}

/// What a source task does next after consulting one command.
#[derive(Clone, Copy, PartialEq, Eq, Structural, Debug)]
pub enum CommandStep {
    /// Leave the command check and go on polling.
    Proceed,
    /// Stay paused: poll nothing until a different command arrives.
    StayPaused,
    /// Terminate the task; it polls nothing further, ever.
    Terminate,
}

/// The command step a source takes: `Run` proceeds, `Pause` holds, `Stop`
/// terminates, and a new trigger keeps the current pause state — a paused
/// source stays paused unless explicitly resumed.
pub open spec fn spec_command_step(cmd: SourceCmd, paused: bool) -> CommandStep {
    match cmd {
        SourceCmd::Run => CommandStep::Proceed,
        SourceCmd::Pause => CommandStep::StayPaused,
        SourceCmd::Stop => CommandStep::Terminate,
        SourceCmd::SetTrigger(_) => if paused {
            CommandStep::StayPaused
        } else {
            CommandStep::Proceed
        },
    }
}

/// The live state of one source task: the resolved trigger, the flush
/// cadence, the count of polls completed, and the batch accumulated since the
/// last flush.
///
/// The task runs the protocol of one source: wait for the trigger, poll,
/// and every `flush_rounds` polls hand the accumulated batch to the bounded
/// queue and consult the command slot. Commands are therefore observed at
/// flush boundaries, trading command latency for polling throughput.
pub struct SourceTaskState {
    trigger: SourceTrigger,
    flush_rounds: u64,
    round: u64,
    buffer: MeasurementBuffer,
}

impl SourceTaskState {
    /// The resolved trigger the task waits on before each poll.
    pub closed spec fn trigger(self) -> SourceTrigger {
        self.trigger
    }

    /// How many polls lie between two flushes.
    pub closed spec fn flush_rounds(self) -> u64 {
        self.flush_rounds
    }

    /// How many polls completed so far.
    pub closed spec fn round(self) -> u64 {
        self.round
    }

    /// The batch accumulated since the last flush.
    pub closed spec fn batch(self) -> MeasurementBuffer {
        self.buffer
    }

    /// The samples accumulated since the last flush, in poll order.
    pub open spec fn buffer_view(self) -> Seq<i64> {
        self.batch()@
    }

    /// The flush cadence is never zero; the task would otherwise never know
    /// when to flush.
    pub open spec fn wf(self) -> bool {
        self.flush_rounds() >= 1
    }

    /// Sets a source task up from its mandatory first command, which must
    /// carry a trigger configuration. The task starts with an empty batch and
    /// no poll done; an invalid cadence is refused here, before any poll.
    pub fn init(provider: SourceTriggerProvider) -> (r: Result<SourceTaskState, PollError>)
        ensures
            r is Ok <==> provider.valid(),
            provider.valid() ==> {
                &&& r matches Ok(s)
                &&& s.wf()
                &&& s.trigger() == provider.spec_trigger()
                &&& s.flush_rounds() == provider.spec_flush_rounds()
                &&& s.round() == 0
                &&& s.buffer_view() == Seq::<i64>::empty()
            },
            !provider.valid() ==> r == Err::<SourceTaskState, _>(
                PollError::TriggerInit(provider.refusal()),
            ),
    {
        match provider.provide() {
            Ok((trigger, flush_rounds)) => Ok(SourceTaskState {
                trigger,
                flush_rounds,
                round: 0,
                buffer: MeasurementBuffer::new(),
            }),
            Err(e) => Err(PollError::TriggerInit(e)),
        }
    }

    /// The resolved trigger, for the shell that owns the live timer to set
    /// it up — after setup and again after every reconfiguration.
    pub fn current_trigger(&self) -> (r: SourceTrigger)
        ensures
            r == self.trigger(),
    {
        self.trigger
    }

    /// Takes the accumulated batch out of the task, leaving a fresh empty
    /// one behind: the flush step for a caller that hands the batch to a
    /// live transport rather than to the queue model.
    pub fn take_batch(&mut self) -> (r: MeasurementBuffer)
        requires
            old(self).wf(),
        ensures
            final(self).wf(),
            r == old(self).batch(),
            final(self).buffer_view() == Seq::<i64>::empty(),
            final(self).trigger() == old(self).trigger(),
            final(self).flush_rounds() == old(self).flush_rounds(),
            final(self).round() == old(self).round(),
    {
        let mut outgoing = MeasurementBuffer::new();
        core::mem::swap(&mut outgoing, &mut self.buffer);
        outgoing
    }

    /// Records one completed poll: the samples it produced are appended, in
    /// order, to the accumulated batch, and the poll count advances by one.
    pub fn complete_poll(&mut self, samples: &Vec<i64>)
        requires
            old(self).wf(),
            old(self).round() < u64::MAX,
        ensures
            final(self).wf(),
            final(self).round() == old(self).round() + 1,
            final(self).buffer_view() == old(self).buffer_view() + samples@,
            final(self).trigger() == old(self).trigger(),
            final(self).flush_rounds() == old(self).flush_rounds(),
    {
        self.buffer.append_all(samples);
        self.round = self.round + 1;
    }

    /// Whether the poll just completed ends a flush round: every
    /// `flush_rounds` polls, the accumulated batch is due at the queue.
    pub fn flush_due(&self) -> (r: bool)
        requires
            self.wf(),
        ensures
            r == (self.round() % self.flush_rounds() == 0),
    {
        self.round % self.flush_rounds == 0
    }

    /// Hands the accumulated batch to the bounded queue and starts a fresh
    /// one. A full queue means this source outran the transform stage; that
    /// is fatal to the task — the batch is not silently dropped, the task
    /// ends with an error instead, and neither the queue nor the batch is
    /// touched.
    pub fn flush(&mut self, queue: &mut InputQueue) -> (r: Result<(), PollError>)
        requires
            old(self).wf(),
            old(queue).wf(),
        ensures
            final(self).wf(),
            final(queue).wf(),
            final(queue).capacity() == old(queue).capacity(),
            final(queue).is_closed() == old(queue).is_closed(),
            final(self).trigger() == old(self).trigger(),
            final(self).flush_rounds() == old(self).flush_rounds(),
            final(self).round() == old(self).round(),
            old(queue).batches().len() < old(queue).capacity() ==> {
                &&& r is Ok
                &&& final(queue).batches() == old(queue).batches().push(old(self).batch())
                &&& final(self).buffer_view() == Seq::<i64>::empty()
            },
            old(queue).batches().len() == old(queue).capacity() ==> {
                &&& r == Err::<(), PollError>(PollError::QueueFull)
                &&& final(queue).batches() == old(queue).batches()
                &&& final(self).batch() == old(self).batch()
            },
    {
        let mut outgoing = MeasurementBuffer::new();
        core::mem::swap(&mut outgoing, &mut self.buffer);
        match queue.try_send(outgoing) {
            Ok(()) => Ok(()),
            Err(refused) => {
                self.buffer = refused;
                Err(PollError::QueueFull)
            }
        }
    }

    /// Consults one command at a flush boundary (or while paused) and takes
    /// the corresponding step; `paused` says whether the task is currently
    /// holding in a pause.
    ///
    /// No step of this function polls: whatever the command, the accumulated
    /// batch and the poll count are left exactly as they were. A new trigger
    /// configuration is resolved in place and an invalid one ends the task
    /// with the same error the initial setup would give.
    pub fn handle_command(&mut self, cmd: &SourceCmd, paused: bool) -> (r: Result<
        CommandStep,
        PollError,
    >)
        requires
            old(self).wf(),
            !(cmd matches SourceCmd::SetTrigger(None::<SourceTriggerProvider>)),
        ensures
            final(self).wf(),
            final(self).round() == old(self).round(),
            final(self).batch() == old(self).batch(),
            !(cmd matches SourceCmd::SetTrigger(_)) ==> {
                &&& r == Ok::<_, PollError>(spec_command_step(*cmd, paused))
                &&& *final(self) == *old(self)
            },
            cmd matches SourceCmd::SetTrigger(Some(p)) ==> {
                &&& p.valid() ==> {
                    &&& r == Ok::<_, PollError>(spec_command_step(*cmd, paused))
                    &&& final(self).trigger() == p.spec_trigger()
                    &&& final(self).flush_rounds() == p.spec_flush_rounds()
                }
                &&& !p.valid() ==> {
                    &&& r == Err::<CommandStep, _>(PollError::TriggerInit(p.refusal()))
                    &&& *final(self) == *old(self)
                }
            },
    {
        match cmd {
            SourceCmd::Run => Ok(CommandStep::Proceed),
            SourceCmd::Pause => Ok(CommandStep::StayPaused),
            SourceCmd::Stop => Ok(CommandStep::Terminate),
            SourceCmd::SetTrigger(Some(provider)) => {
                match provider.provide() {
                    Ok((trigger, flush_rounds)) => {
                        self.trigger = trigger;
                        self.flush_rounds = flush_rounds;
                        if paused {
                            Ok(CommandStep::StayPaused)
                        } else {
                            Ok(CommandStep::Proceed)
                        }
                    }
                    Err(e) => Err(PollError::TriggerInit(e)),
                }
            }
            SourceCmd::SetTrigger(None) => vstd::pervasive::unreached(),
        }
    }
}

/// The samples of a run of polls, concatenated in poll order.
pub open spec fn concat_samples(polls: Seq<Seq<i64>>) -> Seq<i64>
    decreases polls.len(),
{
    if polls.len() == 0 {
        Seq::<i64>::empty()
    } else {
        polls[0] + concat_samples(polls.drop_first())
    }
}

/// The accumulated batch after a run of polls, each appending its samples —
/// the repeated effect that `complete_poll` states for a single poll.
pub open spec fn buffer_after_polls(buffer: Seq<i64>, polls: Seq<Seq<i64>>) -> Seq<i64>
    decreases polls.len(),
{
    if polls.len() == 0 {
        buffer
    } else {
        buffer_after_polls(buffer + polls[0], polls.drop_first())
    }
}

/// Accumulating a run of polls appends their concatenation.
pub proof fn lemma_buffer_after_polls(buffer: Seq<i64>, polls: Seq<Seq<i64>>)
    ensures
        buffer_after_polls(buffer, polls) == buffer + concat_samples(polls),
    decreases polls.len(),
{
    if polls.len() == 0 {
        assert(buffer + concat_samples(polls) == buffer);
    } else {
        lemma_buffer_after_polls(buffer + polls[0], polls.drop_first());
        assert((buffer + polls[0]) + concat_samples(polls.drop_first()) == buffer + (polls[0]
            + concat_samples(polls.drop_first())));
    }
}

/// The flush cadence: starting right after a flush (the poll count is a
/// multiple of `flush_rounds` and the batch is empty), no flush is due during
/// the next `flush_rounds - 1` polls, a flush is due exactly at poll
/// `flush_rounds`, and the batch then due holds exactly the samples of those
/// polls, in order — every sample polled between two flushes leaves in one
/// batch, and none leaves earlier.
pub proof fn lemma_flush_cadence(
    round: int,
    flush_rounds: int,
    buffer: Seq<i64>,
    polls: Seq<Seq<i64>>,
)
    requires
        flush_rounds >= 1,
        round >= 0,
        round % flush_rounds == 0,
        buffer.len() == 0,
        polls.len() == flush_rounds,
    ensures
        forall|j: int| 1 <= j < flush_rounds ==> #[trigger] ((round + j) % flush_rounds) != 0,
        (round + flush_rounds) % flush_rounds == 0,
        buffer_after_polls(buffer, polls) == concat_samples(polls),
{
    let q = round / flush_rounds;
    lemma_fundamental_div_mod(round, flush_rounds);
    assert forall|j: int| 1 <= j < flush_rounds implies #[trigger] ((round + j) % flush_rounds)
        != 0 by {
        lemma_mod_multiples_vanish(q, j, flush_rounds);
        lemma_small_mod(j as nat, flush_rounds as nat);
    }
    assert(flush_rounds * (q + 1) == flush_rounds * q + flush_rounds) by (nonlinear_arith);
    lemma_mod_multiples_vanish(q + 1, 0, flush_rounds);
    lemma_small_mod(0nat, flush_rounds as nat);
    lemma_buffer_after_polls(buffer, polls);
    assert(buffer + concat_samples(polls) == concat_samples(polls));
}

/// Stopping a source, paused or not, terminates its task: the command step on
/// `Stop` is `Terminate`, and a terminated task polls nothing further — in
/// particular, a paused source told to stop ends without a single further
/// poll, since while paused it only ever consults commands, which (per
/// `handle_command`) never adds a sample nor advances the poll count.
pub proof fn lemma_stop_terminates(paused: bool)
    ensures
        spec_command_step(SourceCmd::Stop, paused) == CommandStep::Terminate,
{
}

/// Pausing holds the task and resuming releases it: `Pause` steps to
/// `StayPaused`, in which the task polls nothing — every command step leaves
/// the accumulated batch and the poll count untouched, so no sample is polled
/// while paused — and `Run` received while paused steps to `Proceed`, after
/// which polling picks up exactly where it left off, the cadence and the
/// accumulated batch unchanged.
pub proof fn lemma_pause_then_run(paused: bool)
    ensures
        spec_command_step(SourceCmd::Pause, paused) == CommandStep::StayPaused,
        spec_command_step(SourceCmd::Run, true) == CommandStep::Proceed,
{
}

} // verus!
