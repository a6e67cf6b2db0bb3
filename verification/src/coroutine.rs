//! The resume protocol shared by every coroutine of this crate.
//!
//! A coroutine is an explicit state machine: its local variables are fields,
//! its suspended program counter is an enum tag. Driving it one step is a
//! `resume` call that hands the coroutine a fresh input and receives either an
//! intermediate value (`Yielded`) or a terminal one (`Completed`).

use vstd::prelude::*;

verus! {

/// What one `resume` call hands back to the driver: an intermediate value at a
/// suspension point, or the coroutine's final result.
#[derive(Debug, Clone, PartialEq, Eq)]
pub enum CoroutineState<Y, R> {
    Yielded(Y),
    Completed(R),
}

/// A stand-in for a result that is never produced. A coroutine that never
/// terminates uses it as the result type, and an infallible operation uses it
/// as the error type. No function of this crate constructs a value of it, and
/// the field is private, so no caller can either; every contract that mentions
/// it also rules the corresponding variant out outright.
#[derive(Debug, Clone, PartialEq, Eq)]
pub struct Never {
    no_such_value: bool,
}

} // verus!
