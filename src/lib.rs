//! Blocking time primitives and a lock-free periodic tick telegraph.
//!
//! A [`Deadline`] (or its twin [`Timeout`]) is due once, or again after each
//! period, and lets a thread block until it is due. A [`Timer`] ticks at a
//! period and flips one shared flag per tick; each [`Watcher`] derived from
//! it detects each flip once, without blocking.
mod clock;
mod deadline;
mod flag;
mod interval;
mod time;
mod timeout;
mod timer;

pub use clock::Clock;
pub use deadline::Deadline;
pub use flag::SharedFlag;
pub use interval::{
    finish_waits, lemma_once_due_after_delay, lemma_remaining_shrinks, lemma_repeat_waits_take_periods,
    lemma_wait_reaches_due_point, lemma_waits_catch_up, Plan, Schedule,
};
pub use time::{
    checked_delivery_time, delivery_spec, until_spec, Moment, Span, CLOCK_END, MAX_NANOS, NANOS_PER_MILLI,
    NANOS_PER_SEC, TEN_YEARS_NANOS,
};
pub use timeout::Timeout;
pub use timer::{detects, flag_after, lemma_each_tick_detected_once, lemma_parity, Timer, Watcher};
