//! Failure paths: lock failures, bus failures, and their classification.

use pca9548a::mock::{FailingBus, FailingMutex, LockRefused, MockBusError};
use pca9548a::{BusOperation, Error, FailureKind, Pca9548a, StdMutex, BASE_ADDRESS};

#[test]
fn lock_failure_is_reported_as_lock_failure() {
    // The bus underneath fails every access, so any attempted I/O would have
    // surfaced as a bus failure: a lock-tagged error shows that the failed
    // acquisition produced zero bus traffic.
    let pca: Pca9548a<FailingMutex<FailingBus>> = Pca9548a::new(FailingBus::new(), BASE_ADDRESS);
    let err = match pca.select_mask(0x01) {
        Ok(_) => panic!("select must fail when the lock is refused"),
        Err(e) => e,
    };
    assert!(matches!(err, Error::Mutex(LockRefused)));
    assert_eq!(err.kind(), FailureKind::Lock);
}

#[test]
fn lock_failure_surfaces_on_manual_acquisition_too() {
    let pca: Pca9548a<FailingMutex<FailingBus>> = Pca9548a::new(FailingBus::new(), BASE_ADDRESS);
    assert!(pca.bus().is_err());
}

#[test]
fn control_byte_failure_is_reported_as_bus_failure() {
    let pca: Pca9548a<StdMutex<FailingBus>> = Pca9548a::new(FailingBus::new(), BASE_ADDRESS);
    let err = match pca.select_mask(0x03) {
        Ok(_) => panic!("select must fail when the control byte is refused"),
        Err(e) => e,
    };
    assert!(matches!(err, Error::Bus(MockBusError)));
    assert_eq!(err.kind(), FailureKind::Bus);
}

#[test]
fn control_byte_failure_releases_the_lock() {
    let pca: Pca9548a<StdMutex<FailingBus>> = Pca9548a::new(FailingBus::new(), BASE_ADDRESS);
    assert!(pca.select_mask(0x03).is_err());
    // The failed select must not leak exclusivity: the bus is available.
    let guard = pca.bus().unwrap();
    guard.release();
}

#[test]
fn subbus_write_failure_is_a_bus_failure() {
    let pca: Pca9548a<StdMutex<FailingBus>> = Pca9548a::new(FailingBus::new(), BASE_ADDRESS);
    let mut subbus = pca.single_subbus(3);
    let err = subbus.write(0x42, vec![1, 2, 3]).unwrap_err();
    assert_eq!(err.kind(), FailureKind::Bus);
    let guard = pca.bus().unwrap();
    guard.release();
}

#[test]
fn subbus_transaction_failure_is_a_bus_failure() {
    let pca: Pca9548a<StdMutex<FailingBus>> = Pca9548a::new(FailingBus::new(), BASE_ADDRESS);
    let mut subbus = pca.subbus(0x05);
    let mut operations = vec![BusOperation::Read(vec![0; 1])];
    let err = subbus.transaction(0x42, &mut operations).unwrap_err();
    assert_eq!(err.kind(), FailureKind::Bus);
}

#[test]
fn error_kind_classifies_by_origin() {
    let lock_side: Error<u8, u8> = Error::Mutex(1);
    assert_eq!(lock_side.kind(), FailureKind::Lock);
    let bus_side: Error<u8, u8> = Error::Bus(2);
    assert_eq!(bus_side.kind(), FailureKind::Bus);
    assert_ne!(FailureKind::Lock, FailureKind::Bus);
}
