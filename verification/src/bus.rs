//! The transactional bus capability that the multiplexer drives.
//!
//! The multiplexer itself never interprets bus traffic; it only needs a bus
//! on which it can write the one-byte channel select and forward the caller's
//! transactions.  The trait models the bus with a ghost log of every access
//! completed so far, so that the select protocol can state exactly what it
//! puts on the wire and in which order.

use vstd::prelude::*;

verus! {

/// The shape of one operation inside a combined transaction, as it appears in
/// the bus model log: the bytes written, or the number of bytes read.
pub enum OpShape {
    /// Bytes written to the target device.
    Write { data: Seq<u8> },
    /// A read of the given number of bytes from the target device.
    Read { len: nat },
}

/// One completed access on the bus, as it appears in the bus model log.
pub enum BusRecord {
    /// A plain write of `data` to the device at `address`.
    Write { address: u8, data: Seq<u8> },
    /// A combined transaction against the device at `address`.
    Transaction { address: u8, operations: Seq<OpShape> },
}

/// One operation of a combined transaction handed to the bus.
pub enum BusOperation {
    /// Write these bytes to the target device.
    Write(Vec<u8>),
    /// Read from the target device into this buffer; the buffer keeps its
    /// length and comes back holding whatever the device answered.
    Read(Vec<u8>),
}

/// The shape of one requested operation: what of it is fixed by the caller.
pub open spec fn op_shape(op: BusOperation) -> OpShape {
    match op {
        BusOperation::Write(data) => OpShape::Write { data: data@ },
        BusOperation::Read(buffer) => OpShape::Read { len: buffer@.len() },
    }
}

/// The shapes of a whole operation sequence.
pub open spec fn op_shapes(ops: Seq<BusOperation>) -> Seq<OpShape> {
    ops.map_values(|op: BusOperation| op_shape(op))
}

/// A transactional bus, blocking variant.
///
/// An implementation reports in `log` every access it has completed, oldest
/// first.  A failed call leaves the log unchanged: the log records completed
/// accesses only.
pub trait I2cBus: Sized {
    /// The error reported by the bus driver.
    type BusError;

    /// Every access completed on this bus so far, oldest first.
    spec fn log(&self) -> Seq<BusRecord>;

    /// Write `data` to the device at `address`.
    fn write(&mut self, address: u8, data: &Vec<u8>) -> (r: Result<(), Self::BusError>)
        ensures
            r is Ok ==> final(self).log() == old(self).log().push(
                (BusRecord::Write { address, data: data@ }),
            ),
            r is Err ==> final(self).log() == old(self).log(),
    ;

    /// Perform a combined transaction against the device at `address`.
    ///
    /// Read buffers keep their length; write payloads are left as handed in.
    fn transaction(&mut self, address: u8, operations: &mut Vec<BusOperation>) -> (r: Result<
        (),
        Self::BusError,
    >)
        ensures
            op_shapes(final(operations)@) == op_shapes(old(operations)@),
            r is Ok ==> final(self).log() == old(self).log().push(
                (BusRecord::Transaction { address, operations: op_shapes(old(operations)@) }),
            ),
            r is Err ==> final(self).log() == old(self).log(),
    ;
}

} // verus!
