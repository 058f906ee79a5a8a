//! Driver for the PCA9548A 8-channel I2C bus multiplexer.
//!
//! One physical bus sits behind a lock; selecting a channel writes a single
//! control byte to the chip and hands the caller a guard that keeps the bus
//! locked for the rest of the caller's transaction.

use vstd::prelude::*;

pub mod bus;
pub mod device;
pub mod error;
pub mod mock;
pub mod mutex;

pub use bus::{BusOperation, BusRecord, I2cBus, OpShape};
pub use device::{BusGuard, Pca9548a, SubBus};
pub use error::{Error, FailureKind};
pub use mutex::{LockPoisoned, MutexBase, StdMutex, SyncMutex};

verus! {

/// The base address of a PCA9548A.
///
/// The effective address is selected with the three address pins A0, A1 and
/// A2: `BASE_ADDRESS + A2 * 4 + A1 * 2 + A0`, where each pin contributes 1
/// when wired high and 0 when wired low.
pub const BASE_ADDRESS: u8 = 0x70;

} // verus!
