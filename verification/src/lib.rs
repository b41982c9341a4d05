//! A clock duration of hours, minutes and seconds.
//!
//! A [`Mytime`] holds three magnitudes and stands for their total in
//! seconds. Two durations are equal where their totals are; normalizing
//! brings minutes and seconds below sixty and keeps the total; text shows
//! the fields as they are. Sums, differences, multiples and quotients are
//! taken on the totals and come out normalized.
//!
//! Totals are computed in `usize`. An operation that computes one requires
//! that it fits, and Verus holds every verified caller to that. Equality
//! and text need no total in `usize` and take every value. The one run-time
//! error is [`DivideByZero`].

pub mod arith;
pub mod clock;
pub mod error;
pub mod laws;
pub mod render;

pub use crate::clock::Mytime;
pub use crate::error::DivideByZero;
