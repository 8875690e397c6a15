//! Execution engine of a measurement pipeline.
//!
//! The engine turns a declarative set of data sources, transforms and outputs
//! into a controllable concurrent dataflow: sources are polled on a trigger,
//! accumulated samples are flushed in batches through a bounded queue to the
//! transform chain, and the transformed batches fan out over a lag-tolerant
//! broadcast channel to every output. Commands (run, pause, stop, retrigger)
//! reach each source and output through a dedicated latest-value slot.
//!
//! The asynchronous shell (timers, task spawning, thread pools) lives outside
//! this crate; here stand the data model, the transport semantics and the
//! per-task decision logic, each with its contract.

pub mod broadcast;
pub mod control;
pub mod error;
pub mod measurement;
pub mod output;
pub mod pipeline;
pub mod queue;
pub mod source;
pub mod transform;
pub mod trigger;
