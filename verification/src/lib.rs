//! Activity-monitoring core: system-wide input-event counting and
//! foreground-window usage tracking.
//!
//! The crate holds the decision logic of the monitor: the two monotone
//! input counters, the hook-dispatch filters that decide which input
//! notifications count, and the polling state machine that turns a
//! stream of foreground-window samples into usage records. The
//! operating-system boundary (hook registration, the message pump,
//! window queries, the clock) stays outside; callers feed plain values
//! in and carry the decisions out.

pub mod counters;
pub mod hooks;
pub mod tracker;
