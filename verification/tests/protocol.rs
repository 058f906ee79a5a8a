//! The select protocol, observed through the recording mock bus.

use pca9548a::mock::{BusEvent, MockBus, RecordedOp};
use pca9548a::{BusOperation, Pca9548a, StdMutex, BASE_ADDRESS};

type MockedMux = Pca9548a<StdMutex<MockBus>>;

#[test]
fn select_mask_writes_exactly_one_control_byte() {
    for mask in 0..=255u8 {
        let pca: MockedMux = Pca9548a::new(MockBus::new(), BASE_ADDRESS);
        let guard = pca.select_mask(mask).unwrap();
        {
            let events = guard.bus_ref().events();
            assert_eq!(events.len(), 1);
            assert_eq!(
                events[0],
                BusEvent::Write {
                    address: BASE_ADDRESS,
                    data: vec![mask],
                }
            );
        }
        guard.release();
    }
}

#[test]
fn select_uses_the_configured_address() {
    let address = BASE_ADDRESS + 4 + 2 + 1;
    let pca: MockedMux = Pca9548a::new(MockBus::new(), address);
    let guard = pca.select_mask(0xA5).unwrap();
    assert_eq!(
        guard.bus_ref().events()[0],
        BusEvent::Write {
            address: 0x77,
            data: vec![0xA5],
        }
    );
    guard.release();
}

#[test]
fn single_subbus_selects_one_bit() {
    for id in 0..8u8 {
        let pca: MockedMux = Pca9548a::new(MockBus::new(), BASE_ADDRESS);
        let subbus = pca.single_subbus(id);
        let guard = subbus.select().unwrap();
        {
            let events = guard.bus_ref().events();
            assert_eq!(events.len(), 1);
            assert_eq!(
                events[0],
                BusEvent::Write {
                    address: BASE_ADDRESS,
                    data: vec![1u8 << id],
                }
            );
        }
        guard.release();
    }
}

#[test]
fn select_single_matches_select_mask_of_one_bit() {
    for id in 0..8u8 {
        let pca: MockedMux = Pca9548a::new(MockBus::new(), BASE_ADDRESS);
        let guard = pca.select_single(id).unwrap();
        assert_eq!(
            guard.bus_ref().events()[0],
            BusEvent::Write {
                address: BASE_ADDRESS,
                data: vec![1u8 << id],
            }
        );
        guard.release();
    }
}

#[test]
fn subbus_write_is_select_then_forward() {
    let pca: MockedMux = Pca9548a::new(MockBus::new(), BASE_ADDRESS);
    let mut subbus = pca.single_subbus(0);
    subbus.write(0x42, vec![1, 2, 3]).unwrap();

    let guard = pca.bus().unwrap();
    {
        let events = guard.bus_ref().events();
        assert_eq!(events.len(), 2);
        assert_eq!(
            events[0],
            BusEvent::Write {
                address: BASE_ADDRESS,
                data: vec![0x01],
            }
        );
        assert_eq!(
            events[1],
            BusEvent::Transaction {
                address: 0x42,
                operations: vec![RecordedOp::Write(vec![1, 2, 3])],
            }
        );
    }
    guard.release();
}

#[test]
fn subbus_transaction_records_every_operation_shape() {
    let pca: MockedMux = Pca9548a::new(MockBus::new(), BASE_ADDRESS);
    let mut subbus = pca.subbus(0xC3);
    let mut operations = vec![
        BusOperation::Write(vec![9, 8]),
        BusOperation::Read(vec![0; 4]),
    ];
    subbus.transaction(0x2A, &mut operations).unwrap();

    let guard = pca.bus().unwrap();
    {
        let events = guard.bus_ref().events();
        assert_eq!(events.len(), 2);
        assert_eq!(
            events[0],
            BusEvent::Write {
                address: BASE_ADDRESS,
                data: vec![0xC3],
            }
        );
        assert_eq!(
            events[1],
            BusEvent::Transaction {
                address: 0x2A,
                operations: vec![RecordedOp::Write(vec![9, 8]), RecordedOp::Read(4)],
            }
        );
    }
    guard.release();
}

#[test]
fn guard_forwards_manual_traffic() {
    let pca: MockedMux = Pca9548a::new(MockBus::new(), BASE_ADDRESS);
    let mut guard = pca.bus().unwrap();
    guard.write(0x10, &vec![7]).unwrap();
    let mut operations = vec![BusOperation::Read(vec![0; 2])];
    guard.transaction(0x11, &mut operations).unwrap();
    {
        let events = guard.bus_ref().events();
        assert_eq!(events.len(), 2);
        assert_eq!(
            events[0],
            BusEvent::Write {
                address: 0x10,
                data: vec![7],
            }
        );
        assert_eq!(
            events[1],
            BusEvent::Transaction {
                address: 0x11,
                operations: vec![RecordedOp::Read(2)],
            }
        );
    }
    guard.release();
}

#[test]
fn release_makes_the_bus_available_again() {
    let pca: MockedMux = Pca9548a::new(MockBus::new(), BASE_ADDRESS);

    let first = pca.bus().unwrap();
    first.release();

    let second = pca.select_mask(0x80).unwrap();
    second.release();

    let third = pca.bus().unwrap();
    assert_eq!(third.bus_ref().events().len(), 1);
    third.release();
}

#[test]
fn base_address_is_0x70() {
    assert_eq!(BASE_ADDRESS, 0x70);
}
