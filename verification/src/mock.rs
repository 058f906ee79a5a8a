//! Mock buses and a refusing mutex, for exercising the select protocol
//! without hardware.
//!
//! [`MockBus`] records every access and never fails; [`FailingBus`] refuses
//! every access; [`FailingMutex`] refuses every lock acquisition.  Together
//! they let a test drive each path of the protocol and inspect exactly what
//! reached the bus.

use vstd::prelude::*;

use crate::bus::{BusOperation, BusRecord, I2cBus, OpShape};
use crate::mutex::{MutexBase, SyncMutex};

verus! {

/// The error reported by the mock buses.
#[derive(Clone, Copy, Debug, PartialEq, Eq, Structural)]
pub struct MockBusError;

/// A lock acquisition refused by [`FailingMutex`].
#[derive(Clone, Copy, Debug, PartialEq, Eq, Structural)]
pub struct LockRefused;

/// One recorded operation of a combined transaction: the bytes written, or
/// the number of bytes read.
#[derive(Debug, PartialEq, Eq)]
pub enum RecordedOp {
    /// Bytes that were written.
    Write(Vec<u8>),
    /// A read of this many bytes.
    Read(usize),
}

/// One recorded access on a [`MockBus`].
#[derive(Debug, PartialEq, Eq)]
pub enum BusEvent {
    /// A plain write of `data` to the device at `address`.
    Write { address: u8, data: Vec<u8> },
    /// A combined transaction against the device at `address`.
    Transaction { address: u8, operations: Vec<RecordedOp> },
}

/// The model-log shape of one recorded operation.
pub open spec fn recorded_op_shape(op: RecordedOp) -> OpShape {
    match op {
        RecordedOp::Write(data) => OpShape::Write { data: data@ },
        RecordedOp::Read(len) => OpShape::Read { len: len as nat },
    }
}

/// The model-log record of one recorded access.
pub open spec fn event_record(event: BusEvent) -> BusRecord {
    match event {
        BusEvent::Write { address, data } => BusRecord::Write { address, data: data@ },
        BusEvent::Transaction { address, operations } => BusRecord::Transaction {
            address,
            operations: operations@.map_values(|op: RecordedOp| recorded_op_shape(op)),
        },
    }
}

/// A bus that performs no I/O: it records every access and always succeeds.
/// Read buffers are handed back as they came in.
pub struct MockBus {
    events: Vec<BusEvent>,
}

impl MockBus {
    /// A fresh mock bus with an empty record.
    pub fn new() -> (r: Self)
        ensures
            r.log() == Seq::<BusRecord>::empty(),
    {
        let r = MockBus { events: Vec::new() };
        proof {
            assert(r.log() =~= Seq::<BusRecord>::empty());
        }
        r
    }

    /// Everything recorded so far, oldest first.
    pub fn events(&self) -> (r: &Vec<BusEvent>)
        ensures
            r@.map_values(|event: BusEvent| event_record(event)) == self.log(),
    {
        &self.events
    }
}

impl I2cBus for MockBus {
    type BusError = MockBusError;

    closed spec fn log(&self) -> Seq<BusRecord> {
        self.events@.map_values(|event: BusEvent| event_record(event))
    }

    fn write(&mut self, address: u8, data: &Vec<u8>) -> (r: Result<(), MockBusError>) {
        let copied = data.clone();
        proof {
            assert(copied@ =~= data@);
        }
        self.events.push(BusEvent::Write { address, data: copied });
        proof {
            assert(self.log() =~= old(self).log().push(
                (BusRecord::Write { address, data: data@ }),
            ));
        }
        Ok(())
    }

    fn transaction(&mut self, address: u8, operations: &mut Vec<BusOperation>) -> (r: Result<
        (),
        MockBusError,
    >) {
        let ghost shapes = crate::bus::op_shapes(operations@);
        let mut recorded: Vec<RecordedOp> = Vec::new();
        let mut i: usize = 0;
        while i < operations.len()
            invariant
                i <= operations@.len(),
                operations@ == old(operations)@,
                recorded@.map_values(|op: RecordedOp| recorded_op_shape(op)) =~= crate::bus::op_shapes(
                    operations@.take(i as int),
                ),
            decreases operations@.len() - i,
        {
            let entry = match &operations[i] {
                BusOperation::Write(data) => {
                    let copied = data.clone();
                    proof {
                        assert(copied@ =~= operations@[i as int]->Write_0@);
                    }
                    RecordedOp::Write(copied)
                },
                BusOperation::Read(buffer) => RecordedOp::Read(buffer.len()),
            };
            proof {
                assert(recorded_op_shape(entry) == crate::bus::op_shape(operations@[i as int]));
            }
            let ghost previously = recorded@;
            recorded.push(entry);
            i = i + 1;
            proof {
                previously.lemma_push_map_commute(
                    |op: RecordedOp| recorded_op_shape(op),
                    entry,
                );
                operations@.lemma_map_take_succ(
                    |op: BusOperation| crate::bus::op_shape(op),
                    i - 1,
                );
                assert(recorded@.map_values(|op: RecordedOp| recorded_op_shape(op))
                    =~= crate::bus::op_shapes(operations@.take(i as int)));
            }
        }
        proof {
            assert(operations@.take(operations@.len() as int) =~= operations@);
        }
        self.events.push(BusEvent::Transaction { address, operations: recorded });
        proof {
            assert(self.log() =~= old(self).log().push(
                (BusRecord::Transaction { address, operations: shapes }),
            ));
        }
        Ok(())
    }
}

/// A bus on which every access fails and nothing is ever performed.
pub struct FailingBus {
    fault: MockBusError,
}

impl FailingBus {
    /// A fresh failing bus.
    pub fn new() -> (r: Self)
        ensures
            r.log() == Seq::<BusRecord>::empty(),
    {
        FailingBus { fault: MockBusError }
    }
}

impl I2cBus for FailingBus {
    type BusError = MockBusError;

    closed spec fn log(&self) -> Seq<BusRecord> {
        Seq::<BusRecord>::empty()
    }

    fn write(&mut self, address: u8, data: &Vec<u8>) -> (r: Result<(), MockBusError>) {
        Err(self.fault)
    }

    fn transaction(&mut self, address: u8, operations: &mut Vec<BusOperation>) -> (r: Result<
        (),
        MockBusError,
    >) {
        Err(self.fault)
    }
}

/// A mutex on which every lock acquisition fails: the bus stays inside and is
/// never touched.
pub struct FailingMutex<B> {
    bus: B,
}

impl<B> MutexBase for FailingMutex<B> {
    type Bus = B;

    type Error = LockRefused;

    fn new(bus: B) -> Self {
        FailingMutex { bus }
    }
}

impl<B> SyncMutex for FailingMutex<B> {
    fn lock(&self) -> Result<B, LockRefused> {
        Err(LockRefused)
    }

    fn unlock(&self, _bus: B) {
    }
}

} // verus!
