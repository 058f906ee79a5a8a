//! The multiplexer controller, the lock guard, and the per-channel proxy.
//!
//! Selecting a channel is one protocol: acquire the lock on the physical bus,
//! write a single control byte holding the channel mask to the chip, and keep
//! the lock for whatever the caller does next.  The guard returned by a
//! select is the only path to the bus, so no other caller's select can slip
//! in between a select and the transaction that follows it.

use vstd::prelude::*;

use crate::bus::{op_shapes, BusOperation, BusRecord, I2cBus};
use crate::error::Error;
use crate::mutex::{MutexBase, SyncMutex};

verus! {

/// The PCA9548A is an I2C multiplexer device: one physical bus fans out to
/// eight downstream channels, enabled by the bits of a control byte.
pub struct Pca9548a<M> {
    bus: M,
    address: u8,
}

/// Exclusive possession of the physical bus, from a select (or a manual lock
/// acquisition) until `release`.
///
/// While a guard exists the bus value is out of the mutex, so every other
/// caller's `lock` waits: nothing can interleave with the holder's traffic.
/// All contracts speak relative to `base`, the bus log at the moment the lock
/// was acquired.
pub struct BusGuard<'a, M: MutexBase> {
    mutex: &'a M,
    bus: M::Bus,
    base: Ghost<Seq<BusRecord>>,
}

impl<'a, M: SyncMutex> BusGuard<'a, M> where M::Bus: I2cBus {
    /// Every access completed on the underlying bus so far.
    pub closed spec fn log(&self) -> Seq<BusRecord> {
        self.bus.log()
    }

    /// The bus log at the moment this guard acquired the lock.
    pub closed spec fn base(&self) -> Seq<BusRecord> {
        self.base@
    }

    /// Write `data` to the device at `address` on the locked bus.
    pub fn write(&mut self, address: u8, data: &Vec<u8>) -> (r: Result<
        (),
        <M::Bus as I2cBus>::BusError,
    >)
        ensures
            final(self).base() == old(self).base(),
            r is Ok ==> final(self).log() == old(self).log().push(
                (BusRecord::Write { address, data: data@ }),
            ),
            r is Err ==> final(self).log() == old(self).log(),
    {
        self.bus.write(address, data)
    }

    /// Perform a combined transaction against the device at `address` on the
    /// locked bus.
    pub fn transaction(&mut self, address: u8, operations: &mut Vec<BusOperation>) -> (r: Result<
        (),
        <M::Bus as I2cBus>::BusError,
    >)
        ensures
            final(self).base() == old(self).base(),
            op_shapes(final(operations)@) == op_shapes(old(operations)@),
            r is Ok ==> final(self).log() == old(self).log().push(
                (BusRecord::Transaction { address, operations: op_shapes(old(operations)@) }),
            ),
            r is Err ==> final(self).log() == old(self).log(),
    {
        self.bus.transaction(address, operations)
    }

    /// Look at the underlying bus without giving up possession.
    pub fn bus_ref(&self) -> (r: &M::Bus)
        ensures
            r.log() == self.log(),
    {
        &self.bus
    }

    /// Give the bus back to the mutex, making it immediately available to the
    /// next caller.
    pub fn release(self) {
        let BusGuard { mutex, bus, base: _ } = self;
        mutex.unlock(bus);
    }
}

impl<M: MutexBase> Pca9548a<M> {
    /// The address of the chip on the physical bus.
    pub closed spec fn spec_address(&self) -> u8 {
        self.address
    }

    /// Create a new instance.
    ///
    /// Wraps `bus` in a fresh mutex and stores `address`; no bus traffic
    /// happens here.
    pub fn new(bus: M::Bus, address: u8) -> (r: Self)
        ensures
            r.spec_address() == address,
    {
        Pca9548a { bus: M::new(bus), address }
    }

    /// Get a subbus from this device.
    ///
    /// * `mask` The mask to use for the subbus: bit `i` enables channel `i`.
    ///
    /// Pure: no bus traffic and no locking happens here.
    pub fn subbus(&self, mask: u8) -> (r: SubBus<'_, M>)
        ensures
            r.spec_mask() == mask,
            r.controller() == *self,
    {
        SubBus { pca: self, mask }
    }

    /// Get a subbus with a single channel enabled.
    ///
    /// * `id` The id of the subbus, in range `0..8`.
    pub fn single_subbus(&self, id: u8) -> (r: SubBus<'_, M>)
        requires
            id < 8,
        ensures
            r.spec_mask() == 1u8 << id,
            r.controller() == *self,
    {
        self.subbus(1u8 << id)
    }
}

impl<M: SyncMutex> Pca9548a<M> where M::Bus: I2cBus {
    /// Get a lock on the physical bus without selecting anything.
    ///
    /// The returned guard starts with no traffic of its own: its log equals
    /// its base.
    pub fn bus(&self) -> (r: Result<BusGuard<'_, M>, M::Error>)
        ensures
            r matches Ok(g) ==> g.log() == g.base(),
    {
        match self.bus.lock() {
            Ok(bus) => {
                let base = Ghost(bus.log());
                Ok(BusGuard { mutex: &self.bus, bus, base })
            },
            Err(e) => Err(e),
        }
    }

    /// Select the subbus mask and return the lock on the bus.
    ///
    /// Acquires the lock, writes exactly one control byte equal to `mask` to
    /// the chip address, and on success hands the still-held lock to the
    /// caller: the guard's log is its base plus that one write, and nothing
    /// else reaches the bus until the guard is released.
    ///
    /// A lock failure is surfaced as [`Error::Mutex`] before any bus traffic
    /// is attempted; a failure of the control-byte write is surfaced as
    /// [`Error::Bus`] and releases the lock, leaving the bus log as it was.
    pub fn select_mask(&self, mask: u8) -> (r: Result<
        BusGuard<'_, M>,
        Error<M::Error, <M::Bus as I2cBus>::BusError>,
    >)
        ensures
            r matches Ok(g) ==> g.log() == g.base().push(
                (BusRecord::Write { address: self.spec_address(), data: seq![mask] }),
            ),
    {
        let mut bus = match self.bus.lock() {
            Ok(bus) => bus,
            Err(e) => {
                return Err(Error::Mutex(e));
            },
        };
        let base = Ghost(bus.log());
        let control = vec![mask];
        proof {
            assert(control@ =~= seq![mask]);
        }
        match bus.write(self.address, &control) {
            Ok(()) => Ok(BusGuard { mutex: &self.bus, bus, base }),
            Err(e) => {
                self.bus.unlock(bus);
                Err(Error::Bus(e))
            },
        }
    }

    /// Select a single subbus and return the lock on the bus.
    ///
    /// * `id` The id of the subbus, in range `0..8`.
    ///
    /// Equal to [`Self::select_mask`] with mask `1 << id`.
    pub fn select_single(&self, id: u8) -> (r: Result<
        BusGuard<'_, M>,
        Error<M::Error, <M::Bus as I2cBus>::BusError>,
    >)
        requires
            id < 8,
        ensures
            r matches Ok(g) ==> g.log() == g.base().push(
                (BusRecord::Write { address: self.spec_address(), data: seq![1u8 << id] }),
            ),
    {
        self.select_mask(1u8 << id)
    }
}

/// A proxy to a subbus: a borrowed view of the controller bound to a fixed
/// channel mask.  Created fresh per use, it carries no state between calls.
pub struct SubBus<'a, M> {
    pca: &'a Pca9548a<M>,
    mask: u8,
}

impl<'a, M> SubBus<'a, M> {
    /// The channel mask this proxy is bound to.
    pub closed spec fn spec_mask(&self) -> u8 {
        self.mask
    }

    /// The controller this proxy belongs to.
    pub closed spec fn controller(&self) -> Pca9548a<M> {
        *self.pca
    }
}

impl<'a, M: SyncMutex> SubBus<'a, M> where M::Bus: I2cBus {
    /// Select this subbus and return the lock on the bus.
    ///
    /// Equal to [`Pca9548a::select_mask`] with this proxy's mask.
    pub fn select(&self) -> (r: Result<
        BusGuard<'a, M>,
        Error<M::Error, <M::Bus as I2cBus>::BusError>,
    >)
        ensures
            r matches Ok(g) ==> g.log() == g.base().push(
                (BusRecord::Write {
                    address: self.controller().spec_address(),
                    data: seq![self.spec_mask()],
                }),
            ),
    {
        self.pca.select_mask(self.mask)
    }

    /// Select this subbus, then perform a combined transaction against the
    /// device at `address` on it.
    ///
    /// The lock acquired by the select is held across the whole call and
    /// released on every path out of it, so the control byte and the
    /// forwarded transaction reach the bus back to back.  Any bus-level
    /// failure, of the select write or of the transaction itself, is reported
    /// as [`Error::Bus`]; a lock failure, as [`Error::Mutex`], with no bus
    /// traffic performed.
    pub fn transaction(&mut self, address: u8, operations: &mut Vec<BusOperation>) -> (r: Result<
        (),
        Error<M::Error, <M::Bus as I2cBus>::BusError>,
    >)
        ensures
            *final(self) == *old(self),
            op_shapes(final(operations)@) == op_shapes(old(operations)@),
    {
        let mut guard = match self.pca.select_mask(self.mask) {
            Ok(guard) => guard,
            Err(e) => {
                return Err(e);
            },
        };
        let outcome = guard.transaction(address, operations);
        guard.release();
        match outcome {
            Ok(()) => Ok(()),
            Err(e) => Err(Error::Bus(e)),
        }
    }

    /// Select this subbus, then write `data` to the device at `address` on
    /// it, as a combined transaction of one write operation.
    pub fn write(&mut self, address: u8, data: Vec<u8>) -> (r: Result<
        (),
        Error<M::Error, <M::Bus as I2cBus>::BusError>,
    >)
        ensures
            *final(self) == *old(self),
    {
        let mut operations = vec![BusOperation::Write(data)];
        self.transaction(address, &mut operations)
    }
}

/// The select protocol is atomic with respect to the bus log: when a select
/// appends the control write to the log it found, and the transaction that
/// follows through the same guard appends its record to that, then the log
/// ends with exactly the pair, control write first, transaction second, with
/// nothing between them.  Exclusion among concurrent callers — that no other
/// caller's records can land between `base` and the pair's end — rests on the
/// mutex: the bus value is out of the mutex for the whole span.
pub proof fn lemma_select_then_transact_atomic(
    base: Seq<BusRecord>,
    control: BusRecord,
    forwarded: BusRecord,
    after_select: Seq<BusRecord>,
    after_transact: Seq<BusRecord>,
)
    requires
        after_select == base.push(control),
        after_transact == after_select.push(forwarded),
    ensures
        after_transact == base + seq![control, forwarded],
{
    assert(after_transact =~= base + seq![control, forwarded]);
}

} // verus!

