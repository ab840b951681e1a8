use computer_simulator::components::bus::Bus;
use computer_simulator::components::{Enableable, Settable, BUS_WIDTH};
use computer_simulator::computer::IOBus;
use computer_simulator::io::{DisplayAdapter, KeyPress, KeyboardAdapter, Peripheral, ScreenControl};

fn key_adapter_round_trip() {
    let mut io_bus = IOBus::new();
    let mut main_bus = Bus::new(BUS_WIDTH);
    let mut key_adapter = KeyboardAdapter::new();
    key_adapter.connect();
    main_bus.set_value(0x000F);
    key_adapter.keyboard_in_bus.set_value(0x1234);
    key_adapter.update(&io_bus, &mut main_bus);

    io_bus.set();
    io_bus.update(true, true);
    key_adapter.update(&io_bus, &mut main_bus);
    io_bus.unset();
    key_adapter.update(&io_bus, &mut main_bus);

    io_bus.enable();
    io_bus.update(false, false);
    key_adapter.update(&io_bus, &mut main_bus);

    key_adapter.update(&io_bus, &mut main_bus);

    assert_eq!(main_bus.get_value(), 0x1234);
    assert_eq!(key_adapter.key_code_register.value(), 0x0000);
}

#[test]
fn test_key_adapter() {
    key_adapter_round_trip();
}

#[test]
fn keyboard_test_key_adapter() {
    key_adapter_round_trip();
}

#[test]
fn key_adapter_ignores_other_addresses() {
    let mut io_bus = IOBus::new();
    let mut main_bus = Bus::new(BUS_WIDTH);
    let mut key_adapter = KeyboardAdapter::new();
    key_adapter.connect();
    main_bus.set_value(0x0007);
    key_adapter.keyboard_in_bus.set_value(0x1234);
    io_bus.set();
    io_bus.update(true, true);
    key_adapter.update(&io_bus, &mut main_bus);
    io_bus.unset();
    io_bus.enable();
    io_bus.update(false, false);
    key_adapter.update(&io_bus, &mut main_bus);
    key_adapter.update(&io_bus, &mut main_bus);
    assert_eq!(main_bus.get_value(), 0x0007);
    assert_eq!(key_adapter.keyboard_in_bus.get_value(), 0x1234);
}

#[test]
fn key_press_holds_its_fields() {
    let k = KeyPress { value: 65, is_down: true };
    let c = k;
    assert_eq!(c.value, 65);
    assert!(c.is_down);
}

#[test]
fn display_adapter_writes_display_memory_the_screen_shows() {
    let mut io_bus = IOBus::new();
    let mut main_bus = Bus::new(BUS_WIDTH);
    let mut adapter = DisplayAdapter::new();
    adapter.connect();

    // select the display adapter
    main_bus.set_value(0x0007);
    io_bus.set();
    io_bus.update(true, true);
    adapter.update(&io_bus, &mut main_bus);

    // the address in display memory, then the word for it
    io_bus.update(true, false);
    main_bus.set_value(0xFF00);
    adapter.update(&io_bus, &mut main_bus);
    main_bus.set_value(0x00AA);
    adapter.update(&io_bus, &mut main_bus);
    io_bus.unset();
    assert_eq!(main_bus.get_value(), 0x00AA);

    let mut screen = ScreenControl::new();
    assert_eq!(screen.clock, 33);
    screen.update(&mut adapter, &main_bus);
    assert_eq!(&screen.output[0..8], &[1, 0, 1, 0, 1, 0, 1, 0]);
    assert_eq!(&screen.output[8..16], &[1, 0, 1, 0, 1, 0, 1, 0]);
    assert_eq!(screen.output.len(), 160 * 240);
}

#[test]
fn display_adapter_ignores_data_when_not_selected() {
    let mut io_bus = IOBus::new();
    let mut main_bus = Bus::new(BUS_WIDTH);
    let mut adapter = DisplayAdapter::new();
    adapter.connect();

    main_bus.set_value(0x000F);
    io_bus.set();
    io_bus.update(true, true);
    adapter.update(&io_bus, &mut main_bus);

    io_bus.update(true, false);
    main_bus.set_value(0xFF00);
    adapter.update(&io_bus, &mut main_bus);
    main_bus.set_value(0x00AA);
    adapter.update(&io_bus, &mut main_bus);
    io_bus.unset();

    let mut screen = ScreenControl::new();
    screen.update(&mut adapter, &main_bus);
    // untouched display memory holds all ones
    assert_eq!(&screen.output[0..8], &[1, 1, 1, 1, 1, 1, 1, 1]);
}
