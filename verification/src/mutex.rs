//! The lock abstraction guarding the physical bus.
//!
//! The multiplexer funnels all traffic through one physical bus; a mutex
//! serializes the callers.  The trait hands the bus out by value: whoever
//! holds the bus value holds the lock, and `unlock` gives it back.  This is
//! the blocking variant; a suspending variant cannot be expressed here and is
//! layered on top by embedding code that drives a suspending mutex to
//! completion synchronously.

use vstd::prelude::*;

verus! {

/// Common part of every mutex that can guard the bus.
pub trait MutexBase: Sized {
    /// The actual bus that is wrapped inside this mutex.
    type Bus;

    /// The error returned by a failed lock acquisition.
    type Error;

    /// Create a new mutex of this type, initially unlocked, holding `bus`.
    fn new(bus: Self::Bus) -> Self;
}

/// A blocking mutex.
///
/// `lock` blocks the calling thread until the bus is available and then
/// yields exclusive possession of it, or reports a definite failure without
/// ever having touched the bus.  No fairness among waiters is promised.
/// `unlock` makes the bus immediately available to the next caller.
pub trait SyncMutex: MutexBase {
    /// Take exclusive possession of the bus, blocking until it is available.
    fn lock(&self) -> Result<Self::Bus, Self::Error>;

    /// Give the bus back, making it available to the next caller.
    fn unlock(&self, bus: Self::Bus);
}

/// A lock acquisition failed because a panic poisoned the underlying mutex.
#[derive(Clone, Copy, Debug, PartialEq, Eq, Structural)]
pub struct LockPoisoned;

#[verifier::external_type_specification]
#[verifier::external_body]
#[verifier::reject_recursive_types(T)]
pub struct ExStdMutex<T: ?Sized>(std::sync::Mutex<T>);

/// Relies on `std::sync::Mutex::new`: creates an unlocked mutex storing the
/// given value.
#[verifier::external_body]
fn raw_mutex_new<T>(value: T) -> std::sync::Mutex<T> {
    std::sync::Mutex::new(value)
}

/// Relies on `std::sync::Mutex::lock` and `Option::take`: blocks until the
/// slot holds a bus, then removes and returns it, or reports the mutex as
/// poisoned.  An empty slot means another caller holds the bus; the wait for
/// it polls the slot.  Which bus comes out depends on what other threads have
/// put in.
#[verifier::external_body]
fn raw_slot_take<B>(slot: &std::sync::Mutex<Option<B>>) -> Result<B, LockPoisoned> {
    loop {
        match slot.lock() {
            Ok(mut guard) => {
                if let Some(bus) = guard.take() {
                    return Ok(bus);
                }
            },
            Err(_) => return Err(LockPoisoned),
        }
    }
}

/// Relies on `std::sync::Mutex::lock`: briefly locks the slot and stores the
/// bus there.  A poisoned slot swallows the bus: after a poisoning panic every
/// later acquisition fails anyway.
#[verifier::external_body]
fn raw_slot_put<B>(slot: &std::sync::Mutex<Option<B>>, bus: B) {
    if let Ok(mut guard) = slot.lock() {
        *guard = Some(bus);
    }
}

/// A blocking mutex built on `std::sync::Mutex`.
///
/// The bus travels by value: `lock` takes it out of the slot and `unlock`
/// puts it back.  While one caller holds the bus, every other `lock` spins on
/// the empty slot until the holder returns it.
#[verifier::reject_recursive_types(B)]
pub struct StdMutex<B> {
    slot: std::sync::Mutex<Option<B>>,
}

impl<B> MutexBase for StdMutex<B> {
    type Bus = B;

    type Error = LockPoisoned;

    fn new(bus: B) -> Self {
        StdMutex { slot: raw_mutex_new(Some(bus)) }
    }
}

impl<B> SyncMutex for StdMutex<B> {
    fn lock(&self) -> Result<B, LockPoisoned> {
        raw_slot_take(&self.slot)
    }

    fn unlock(&self, bus: B) {
        raw_slot_put(&self.slot, bus);
    }
}

} // verus!
