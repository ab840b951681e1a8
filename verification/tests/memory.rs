use computer_simulator::components::bus::Bus;
use computer_simulator::components::{Enableable, Settable, BUS_WIDTH};
use computer_simulator::memory::{Cell, Memory64K};

#[test]
fn test_cell() {
    let mut bus = Bus::new(BUS_WIDTH);
    let mut cell = Cell::new();
    bus.set_value(0xFFFF);
    cell.update(true, true, &mut bus);
    println!("{:?}", cell.value.value())
}

#[test]
fn test_memory_64k_write() {
    let mut bus = Bus::new(BUS_WIDTH);
    let mut mem = Memory64K::new();
    let mut q: u16 = 0xFFFF;
    for i in 0x0000..0xFFFF {
        mem.address_register.set();
        bus.set_value(i);
        mem.update(&mut bus);
        mem.address_register.unset();
        mem.update(&mut bus);
        bus.set_value(q);
        mem.unset();
        mem.update(&mut bus);
        q -= 1;
    }
    let expected: u16 = 0xFFFF;
    for i in 0x0000..0xFFFF {
        mem.address_register.set();
        bus.set_value(i);
        mem.update(&mut bus);
        mem.address_register.unset();
        mem.update(&mut bus);
        mem.enable();
        mem.update(&mut bus);
        mem.disable();
        mem.update(&mut bus);
        assert_eq!(bus.get_value(), expected);
    }
}

#[test]
fn cell_stores_when_set_and_shows_when_enabled() {
    let mut bus = Bus::new(BUS_WIDTH);
    let mut cell = Cell::new();
    bus.set_value(0x1234);
    cell.update(true, false, &mut bus);
    bus.set_value(0);
    cell.update(false, true, &mut bus);
    assert_eq!(bus.get_value(), 0x1234);
}

#[test]
fn memory_reads_back_what_was_written() {
    let mut bus = Bus::new(BUS_WIDTH);
    let mut mem = Memory64K::new();
    for (address, value) in [(0x0000u16, 0x1111u16), (0x0101, 0x2222), (0xFFFF, 0x3333)] {
        mem.address_register.set();
        bus.set_value(address);
        mem.update(&mut bus);
        mem.address_register.unset();
        bus.set_value(value);
        mem.set();
        mem.update(&mut bus);
        mem.unset();
        mem.update(&mut bus);
    }
    for (address, value) in [(0x0000u16, 0x1111u16), (0x0101, 0x2222), (0xFFFF, 0x3333)] {
        mem.address_register.set();
        bus.set_value(address);
        mem.update(&mut bus);
        mem.address_register.unset();
        bus.set_value(0);
        mem.enable();
        mem.update(&mut bus);
        mem.disable();
        assert_eq!(bus.get_value(), value);
    }
}
