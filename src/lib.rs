//! A minimal single-threaded cooperative executor, reduced to its decisions.
//!
//! The wake signal, the run queue of spawned tasks and the run loop are
//! state machines whose transitions are proved here; the blocking and the
//! polling of real computations are left to the caller.

pub mod executor;
pub mod queue;
pub mod signal;
pub mod timer;

pub use executor::{block_on, spawn, Executor, Step};
pub use queue::RunQueue;
pub use signal::{Signal, State, WaitOutcome};
pub use timer::TimerFuture;
