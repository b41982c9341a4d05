//! The one way an operation on durations can fail.

use vstd::prelude::*;

verus! {

/// A duration was to be divided by the integer zero.
#[derive(Debug, Clone, Copy, PartialEq, Eq, Structural)]
pub struct DivideByZero;

} // verus!
