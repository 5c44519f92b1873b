use cpu8086::bus::AddressBus;
use cpu8086::memory::{Memory, ADDRESS_SPACE_SIZE};

#[test]
fn new_memory_is_zeroed() {
    let mem = Memory::new();
    assert_eq!(mem.read(0), 0);
    assert_eq!(mem.read(0x8_0000), 0);
    assert_eq!(mem.read(ADDRESS_SPACE_SIZE - 1), 0);
}

#[test]
fn address_space_is_one_mebibyte() {
    assert_eq!(ADDRESS_SPACE_SIZE, 0x10_0000);
}

#[test]
fn memory_write_then_read() {
    let mut mem = Memory::default();
    mem.write(0xF_FFFF, 0xEE);
    mem.write(0, 0x01);
    assert_eq!(mem.read(0xF_FFFF), 0xEE);
    assert_eq!(mem.read(0), 0x01);
    assert_eq!(mem.read(1), 0);
    assert_eq!(mem.read(0xF_FFFE), 0);
}

#[test]
fn bus_write_then_read_at_latched_address() {
    let mut bus = AddressBus::new();
    bus.set_address(0x2_0300);
    bus.write(0x7F);
    assert_eq!(bus.read(), 0x7F);
    bus.set_address(0x2_0301);
    assert_eq!(bus.read(), 0);
    bus.set_address(0x2_02FF);
    assert_eq!(bus.read(), 0);
    bus.set_address(0x2_0300);
    assert_eq!(bus.read(), 0x7F);
}

#[test]
fn bus_write_leaves_other_addresses() {
    let mut bus = AddressBus::default();
    bus.set_address(0x100);
    bus.write(0x11);
    bus.set_address(0x101);
    bus.write(0x22);
    bus.set_address(0x100);
    bus.write(0x33);
    assert_eq!(bus.read(), 0x33);
    bus.set_address(0x101);
    assert_eq!(bus.read(), 0x22);
}

#[test]
fn latching_an_address_moves_no_data() {
    let mut bus = AddressBus::new();
    bus.set_address(0x500);
    bus.write(0x42);
    bus.set_address(0x600);
    bus.set_address(0x500);
    assert_eq!(bus.read(), 0x42);
}
