//! The composed error type: a failure either of the lock or of the bus.

use vstd::prelude::*;

verus! {

/// The error type returned by most operations.
///
/// The error can either come from the mutex guarding the bus, or from the
/// physical bus itself; never from both at once.
#[derive(Debug)]
pub enum Error<MutexE, BusE> {
    /// The lock guarding the physical bus could not be acquired.
    Mutex(MutexE),
    /// The physical bus reported a failure.
    Bus(BusE),
}

/// The origin of a composed error.
///
/// A lock failure gets its own classification instead of borrowing one of the
/// bus-level conditions: the two kinds of failure are reported verbatim and
/// are never reclassified into each other.
#[derive(Clone, Copy, Debug, PartialEq, Eq, Structural)]
pub enum FailureKind {
    /// The failure came from the lock guarding the bus.
    Lock,
    /// The failure came from the physical bus.
    Bus,
}

impl<MutexE, BusE> Error<MutexE, BusE> {
    /// Classify this error by its origin.
    pub fn kind(&self) -> (r: FailureKind)
        ensures
            r == FailureKind::Lock <==> self is Mutex,
            r == FailureKind::Bus <==> self is Bus,
    {
        match self {
            Error::Mutex(_) => FailureKind::Lock,
            Error::Bus(_) => FailureKind::Bus,
        }
    }
}

} // verus!
