//! Chainable duration and time helpers on a nanosecond clock model.
//!
//! Integer magnitudes become semantic durations (`5.days()`), durations
//! resolve to absolute instants relative to the wall clock
//! (`5.days().from_now()`), and instants truncate to the start or end of
//! their enclosing hour or minute.

pub mod time;
