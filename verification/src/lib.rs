//! A cooperative, remotely-triggerable shutdown signal for pull-based
//! sequences of values.
//!
//! A [`Trigger`] owns the unique right to fire a one-shot broadcast signal
//! (a [`Tripwire`]); a [`Valve`] is a clonable handle to the same signal that
//! wraps sequences into [`Valved`] guarded sequences. Once the trigger is
//! closed, every guarded sequence sharing that signal yields end-of-data on
//! its very next poll, before drawing anything more from its wrapped input.

pub mod flag;
pub mod signal;
pub mod wrapper;

pub use signal::Trigger;
pub use signal::Tripwire;
pub use wrapper::Guard;
pub use wrapper::Step;
pub use wrapper::Valve;
pub use wrapper::Valved;
pub use wrapper::VecSource;
