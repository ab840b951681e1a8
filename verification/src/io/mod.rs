//! The devices on the I/O bus: the display adapter with its memory and the
//! screen that reads it, and the keyboard adapter.
pub mod display;
pub mod display_ram;
pub mod keyboard;

pub use display::{DisplayAdapter, ScreenControl};
pub use keyboard::{KeyPress, KeyboardAdapter};

use crate::components::bus::Bus;
use crate::computer::iobus::IOBus;
use vstd::prelude::*;

verus! {

/// A device the CPU talks to over the I/O bus and the main bus.
pub trait Peripheral: Sized {
    /// Whether the device has been connected and is ready for updates.
    spec fn connected(&self) -> bool;

    /// Readies the device.
    fn connect(&mut self)
        ensures
            final(self).connected(),
    ;

    /// Lets the device see the I/O lines and the main bus, and put a word
    /// on the main bus.
    fn update(&mut self, io_bus: &IOBus, main_bus: &mut Bus)
        requires
            old(self).connected(),
            old(main_bus).wf(),
            old(main_bus)@.len() == 16,
            old(main_bus).bus_width() == 16,
        ensures
            final(self).connected(),
            final(main_bus).wf(),
            final(main_bus)@.len() == 16,
            final(main_bus).bus_width() == 16,
    ;
}

/// What an update leaves of device `d` as `e`, the I/O lines being `io` and
/// the main bus going from `bus` to `bus2`.
pub open spec fn device_updated(d: Device, e: Device, io: IOBus, bus: Seq<bool>, bus2: Seq<bool>) -> bool {
    match (d, e) {
        (Device::Display(a), Device::Display(b)) => bus2 == bus && display::display_updated(a, b, io, bus),
        (Device::Keyboard(a), Device::Keyboard(b)) => keyboard::keyboard_updated(a, b, io, bus, bus2),
        _ => false,
    }
}

/// The devices there are.
pub enum Device {
    Display(DisplayAdapter),
    Keyboard(KeyboardAdapter),
}

impl Peripheral for Device {
    open spec fn connected(&self) -> bool {
        match self {
            Device::Display(d) => d.connected(),
            Device::Keyboard(k) => k.connected(),
        }
    }

    fn connect(&mut self)
        ensures
            (*final(self) is Display) == (*old(self) is Display),
    {
        match self {
            Device::Display(d) => d.connect(),
            Device::Keyboard(k) => k.connect(),
        }
    }

    /// A display adapter only reads the main bus.
    fn update(&mut self, io_bus: &IOBus, main_bus: &mut Bus)
        ensures
            (*final(self) is Display) == (*old(self) is Display),
            *old(self) is Display ==> final(main_bus)@ == old(main_bus)@,
            device_updated(*old(self), *final(self), *io_bus, old(main_bus)@, final(main_bus)@),
    {
        match self {
            Device::Display(d) => d.update(io_bus, main_bus),
            Device::Keyboard(k) => k.update(io_bus, main_bus),
        }
    }
}

} // verus!
