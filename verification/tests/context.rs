//! Context construction, teardown, and initialization failure paths.

use citro3d::driver::Driver;
use citro3d::{Error, Instance, DEFAULT_CMDBUF_SIZE};

#[test]
fn construction_succeeds_on_fresh_driver() {
    let gpu = Driver::power_on();
    let inst = Instance::new(gpu).expect("fresh driver must initialize");
    let d = inst.driver();
    assert!(d.is_initialized());
    assert_eq!(d.frames_begun(), 0);
    assert_eq!(d.frames_ended(), 0);
    assert!(d.calls().is_empty());
    assert_eq!(inst.buffer_info(), None);
    assert_eq!(inst.attr_info(), None);
}

#[test]
fn construction_fails_cleanly_on_faulty_driver() {
    let gpu = Driver::power_on_faulty();
    let r = Instance::new(gpu);
    assert!(matches!(r, Err(Error::FailedToInitialize)));
}

#[test]
fn second_construction_without_teardown_fails() {
    // Another client holds the driver initialized: init was already issued.
    let mut gpu = Driver::power_on();
    assert!(gpu.init(DEFAULT_CMDBUF_SIZE));
    let r = Instance::with_cmdbuf_size(gpu, DEFAULT_CMDBUF_SIZE);
    assert!(matches!(r, Err(Error::FailedToInitialize)));
}

#[test]
fn teardown_finalizes_exactly_once_and_allows_reinit() {
    let gpu = Driver::power_on();
    let inst = Instance::new(gpu).expect("fresh driver must initialize");
    // No frame was ever rendered; teardown still runs.
    let gpu = inst.fini();
    assert!(!gpu.is_initialized());
    let again = Instance::new(gpu).expect("after teardown the driver initializes again");
    assert!(again.driver().is_initialized());
}

#[test]
fn custom_cmdbuf_size_is_accepted() {
    let gpu = Driver::power_on();
    let inst = Instance::with_cmdbuf_size(gpu, 4096).expect("fresh driver must initialize");
    assert!(inst.driver().is_initialized());
}
