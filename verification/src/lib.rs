//! Bring your own runtime: a verified capability layer.
//!
//! A family of interface contracts — locks, channels, task execution,
//! filesystem open options, socket addressing, timers — that let
//! higher-level code be written once and run atop any of several
//! independent concurrent-execution engines. The types here model the
//! observable behaviour every conforming engine must provide, precisely
//! enough that swapping the engine never changes what a conforming
//! caller sees; the contracts and proofs pin that behaviour down.
//!
//! Suspension is explicit rather than implicit in an `async` signature:
//! an operation that a real engine would park its caller on returns
//! [`Suspend::Pending`], and the caller retries once the documented wake
//! condition holds.

use vstd::prelude::*;

pub mod capability;
pub mod channel;
pub mod executor;
pub mod fs;
pub mod lock;
pub mod net;
pub mod runtime;
pub mod time;

verus! {

/// The outcome of an operation at a suspend point: either the result is
/// ready at once, or the caller yields to the scheduler and retries when
/// the wake condition holds.
pub enum Suspend<R> {
    /// The operation completed without suspending.
    Ready(R),
    /// The caller suspends; the operation's contract says what, if
    /// anything, was recorded while it waits.
    Pending,
}

impl<R> Suspend<R> {
    /// Whether the operation completed without suspending.
    pub fn is_ready(&self) -> (r: bool)
        ensures
            r == (self is Ready),
    {
        match self {
            Suspend::Ready(_) => true,
            Suspend::Pending => false,
        }
    }

    /// The ready result, for callers that know no suspension occurred.
    pub fn unwrap_ready(self) -> (r: R)
        requires
            self is Ready,
        ensures
            (self matches Suspend::Ready(v) && v == r),
    {
        match self {
            Suspend::Ready(r) => r,
            Suspend::Pending => vstd::pervasive::unreached(),
        }
    }
}

} // verus!
