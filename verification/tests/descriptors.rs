//! Buffer and attribute descriptors: round trips through driver storage.

use citro3d::attrib;
use citro3d::buffer;
use citro3d::driver::Driver;
use citro3d::Instance;

fn fresh_instance() -> Instance {
    Instance::new(Driver::power_on()).expect("fresh driver must initialize")
}

#[test]
fn buffer_info_round_trips_by_value() {
    let mut inst = fresh_instance();
    assert_eq!(inst.buffer_info(), None);

    // A representative layout: stride 24 bytes, 2 attributes, permutation 0x10.
    let info = buffer::Info::new(0x3000_0000, 24, 2, 0x10);
    inst.set_buffer_info(&info);
    assert_eq!(inst.buffer_info(), Some(info));
}

#[test]
fn buffer_info_reports_the_last_descriptor_set() {
    let mut inst = fresh_instance();
    let first = buffer::Info::new(0x3000_0000, 24, 2, 0x10);
    let second = buffer::Info::new(0x3800_0000, 36, 3, 0x210);
    inst.set_buffer_info(&first);
    inst.set_buffer_info(&second);
    assert_eq!(inst.buffer_info(), Some(second));
}

#[test]
fn attr_info_round_trips_by_value() {
    let mut inst = fresh_instance();
    assert_eq!(inst.attr_info(), None);

    let mut info = attrib::Info::new();
    assert!(info.add_loader(0, attrib::Format::Float, 3));
    assert!(info.add_loader(1, attrib::Format::Float, 3));
    inst.set_attr_info(&info);
    assert_eq!(inst.attr_info(), Some(info));
}

#[test]
fn add_loader_rejects_bad_register_or_count() {
    let mut info = attrib::Info::new();
    assert!(!info.add_loader(attrib::ATTRIB_COUNT, attrib::Format::Float, 3));
    assert!(!info.add_loader(0, attrib::Format::Float, 0));
    assert!(!info.add_loader(0, attrib::Format::Float, 5));
    assert_eq!(info, attrib::Info::new());
    assert!(info.add_loader(attrib::ATTRIB_COUNT - 1, attrib::Format::Short, 4));
    assert!(info.add_loader(0, attrib::Format::UnsignedByte, 1));
}

#[test]
fn slice_reports_its_range_and_buffer() {
    let info = buffer::Info::new(0x3000_0000, 24, 2, 0x10);
    let slice = buffer::Slice::new(info, 3, 9);
    assert_eq!(*slice.info(), info);
    assert_eq!(slice.index(), 3);
    assert_eq!(slice.len(), 9);
}
