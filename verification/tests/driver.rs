use std::cell::Cell;

use cufile::status::{CU_FILE_DRIVER_NOT_INITIALIZED, CU_FILE_SUCCESS};
use cufile::{CuFileDriver, CuFileError, DriverState};

#[test]
fn test_driver_init() {
    // Without NVIDIA drivers/hardware, opening the driver reports that the
    // nvidia-fs driver is not loaded.
    let mut state = DriverState::new();
    match CuFileDriver::init(&mut state, || CU_FILE_DRIVER_NOT_INITIALIZED) {
        Ok(_driver) => {
            assert!(true);
        }
        Err(e) => {
            println!(
                "Driver initialization failed (expected in test environment): {:?}",
                e
            );
        }
    }
}

#[test]
fn init_opens_the_driver_once() {
    let opened = Cell::new(0);
    let mut state = DriverState::new();
    assert!(!state.is_initialized());

    let first = CuFileDriver::init(&mut state, || {
        opened.set(opened.get() + 1);
        CU_FILE_SUCCESS
    });
    assert!(first.is_ok());
    assert!(state.is_initialized());

    // subsequent calls are no-ops
    let second = CuFileDriver::init(&mut state, || {
        opened.set(opened.get() + 1);
        CU_FILE_DRIVER_NOT_INITIALIZED
    });
    assert!(second.is_ok());
    assert!(state.is_initialized());
    assert_eq!(opened.get(), 1);
}

#[test]
fn failed_init_leaves_the_driver_closed() {
    let mut state = DriverState::new();
    let r = CuFileDriver::init(&mut state, || CU_FILE_DRIVER_NOT_INITIALIZED);
    match r {
        Ok(_) => panic!("a failed open gave a driver"),
        Err(e) => assert_eq!(e, CuFileError::DriverNotInitialized),
    }
    assert!(!state.is_initialized());

    // a later attempt opens again
    let r = CuFileDriver::init(&mut state, || CU_FILE_SUCCESS);
    assert!(r.is_ok());
    assert!(state.is_initialized());
}

#[test]
fn close_closes_an_open_driver_once() {
    let closed = Cell::new(0);
    let mut state = DriverState::new();
    let driver = CuFileDriver::init(&mut state, || CU_FILE_SUCCESS).unwrap();
    driver.close(&mut state, || {
        closed.set(closed.get() + 1);
        CU_FILE_SUCCESS
    });
    assert!(!state.is_initialized());
    assert_eq!(closed.get(), 1);

    // closing a driver that is not open does nothing
    let driver = CuFileDriver;
    driver.close(&mut state, || {
        closed.set(closed.get() + 1);
        CU_FILE_SUCCESS
    });
    assert!(!state.is_initialized());
    assert_eq!(closed.get(), 1);
}
