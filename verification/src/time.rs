//! Temporal quantification: points on a clock and the spans between them.
//!
//! A point in time is kept as the reading of a clock: a whole number of
//! seconds and a count of nanoseconds below one second. Reading the clock is
//! left to the caller; everything that is computed from readings is proved
//! here, against the length of a `Duration` in nanoseconds.

pub mod duration;
pub mod instant;
pub mod reading;
pub mod system_time;

pub use core::time::Duration;
pub use duration::{dur_nanos, dur_secs, dur_subsec_nanos};
pub use instant::Instant;
pub use reading::{max_reading, reading_nanos, reading_order, NANOS_PER_SEC};
pub use system_time::{unix_epoch, SystemTime, SystemTimeError};
