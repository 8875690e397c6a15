use vstd::prelude::*;
use crate::error::TriggerError;

verus! {

/// The configuration of a source's trigger, consumed once to set the live
/// trigger up.
///
/// Instants and intervals are counted in microseconds: `start_time` on the
/// monotonic clock of the host, the two intervals as plain durations. The
/// asynchronous shell owns the clock and the timer; this crate owns the
/// resolved cadence.
#[derive(Clone, Copy, PartialEq, Eq, Structural, Debug)]
pub enum SourceTriggerProvider {
    /// Poll on a periodic timer, flushing every `flush_interval`.
    TimeInterval {
        /// Instant of the first tick, in microseconds on the monotonic clock.
        start_time: u64,
        /// Microseconds between two polls. Must not be zero.
        poll_interval: u64,
        /// Microseconds between two flushes. Must be at least `poll_interval`;
        /// a ratio that is not an integer truncates, so flushes come at least
        /// as often as this interval asks for.
        flush_interval: u64,
    },
    /// Poll whenever a caller-supplied future resolves; the shell owns the
    /// future, the engine only keeps the explicit flush cadence.
    Future {
        /// Number of polls between two flushes. Must not be zero.
        flush_rounds: u64,
    },
}

/// The resolved trigger of a running source: what the asynchronous shell must
/// wait on before each poll. The live timer itself is owned by the shell; it
/// is set up from the fields stated here.
#[derive(Clone, Copy, PartialEq, Eq, Structural, Debug)]
pub enum SourceTrigger {
    /// Wait for the next tick of a periodic timer.
    TimeInterval { start_time: u64, poll_interval: u64 },
    /// Wait for the caller-supplied future.
    Future,
}

impl SourceTriggerProvider {
    /// A provider is valid when its flush cadence resolves to at least one
    /// poll per flush.
    pub open spec fn valid(self) -> bool {
        match self {
            SourceTriggerProvider::TimeInterval { poll_interval, flush_interval, .. } =>
                poll_interval > 0 && flush_interval / poll_interval > 0,
            SourceTriggerProvider::Future { flush_rounds } => flush_rounds > 0,
        }
    }

    /// The number of polls between two flushes: for the periodic variant the
    /// flush interval divided by the poll interval, truncated.
    pub open spec fn spec_flush_rounds(self) -> u64
        recommends
            self.valid(),
    {
        match self {
            SourceTriggerProvider::TimeInterval { poll_interval, flush_interval, .. } =>
                flush_interval / poll_interval,
            SourceTriggerProvider::Future { flush_rounds } => flush_rounds,
        }
    }

    /// Why an invalid provider is refused: a zero poll interval leaves the
    /// cadence undefined; otherwise the cadence truncated to zero rounds.
    pub open spec fn refusal(self) -> TriggerError
        recommends
            !self.valid(),
    {
        if self matches SourceTriggerProvider::TimeInterval { poll_interval: 0u64, .. } {
            TriggerError::ZeroPollInterval
        } else {
            TriggerError::ZeroFlushRounds
        }
    }

    /// The trigger that `provide` resolves this provider to.
    pub open spec fn spec_trigger(self) -> SourceTrigger {
        match self {
            SourceTriggerProvider::TimeInterval { start_time, poll_interval, .. } =>
                SourceTrigger::TimeInterval { start_time, poll_interval },
            SourceTriggerProvider::Future { .. } => SourceTrigger::Future,
        }
    }

    /// Resolves the provider into a live trigger description and the number
    /// of polls between two flushes.
    ///
    /// A cadence that truncates to zero polls per flush would make the
    /// periodic flush test (`round % flush_rounds`) meaningless, so it is
    /// refused here, at setup, rather than discovered while the source runs.
    pub fn provide(self) -> (r: Result<(SourceTrigger, u64), TriggerError>)
        ensures
            r is Ok <==> self.valid(),
            self.valid() ==> r == Ok::<_, TriggerError>((self.spec_trigger(), self.spec_flush_rounds())),
            !self.valid() ==> r == Err::<(SourceTrigger, u64), _>(self.refusal()),
    {
        match self {
            SourceTriggerProvider::TimeInterval { start_time, poll_interval, flush_interval } => {
                if poll_interval == 0 {
                    Err(TriggerError::ZeroPollInterval)
                } else {
                    let flush_rounds = flush_interval / poll_interval;
                    if flush_rounds == 0 {
                        Err(TriggerError::ZeroFlushRounds)
                    } else {
                        Ok((SourceTrigger::TimeInterval { start_time, poll_interval }, flush_rounds))
                    }
                }
            }
            SourceTriggerProvider::Future { flush_rounds } => {
                if flush_rounds == 0 {
                    Err(TriggerError::ZeroFlushRounds)
                } else {
                    Ok((SourceTrigger::Future, flush_rounds))
                }
            }
        }
    }
}

} // verus!
