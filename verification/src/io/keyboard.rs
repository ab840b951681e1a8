//! The keyboard adapter: the keyboard puts the code of a key on the
//! adapter's own bus, and the CPU reads it from there.
//!
//! [cpu] <--read/write--> keyboard adapter <--write-- keyboard
use super::Peripheral;
use crate::components::bus::Bus;
use crate::components::register::{driven, gated};
use crate::components::{ANDGate3, ANDGate8, Bit, Component, Enableable, Register, Settable};
use crate::computer::iobus::IOBus;
use crate::gates::{AND, NOT};
use vstd::prelude::*;

verus! {

/// Whether the low byte of the bus lines `l` holds the keyboard adapter's
/// address, 0x0F.
pub open spec fn keyboard_address(l: Seq<bool>) -> bool {
    !l[8] && !l[9] && !l[10] && !l[11] && l[12] && l[13] && l[14] && l[15]
}

/// What an update leaves of adapter `a` as `b`, the I/O lines being `io` and
/// the main bus going from `bus` to `bus2`: a key code asked for last time
/// goes on the main bus and the adapter's lines clear; it becomes selected
/// when the CPU puts out its address, and reads when selected for input.
pub open spec fn keyboard_updated(
    a: KeyboardAdapter,
    b: KeyboardAdapter,
    io: IOBus,
    bus: Seq<bool>,
    bus2: Seq<bool>,
) -> bool {
    &&& b.connected()
    &&& bus2 == (if a.reading() {
        a.in_lines()
    } else {
        bus
    })
    &&& b.in_lines() == (if a.reading() {
        Seq::new(16, |i: int| false)
    } else {
        a.in_lines()
    })
    &&& b.key_code_lines() == (if a.reading() {
        Seq::new(16, |i: int| false)
    } else {
        a.key_code_lines()
    })
    &&& b.selected() == (if io.line(0) && io.line(3) && io.line(2) {
        keyboard_address(bus2)
    } else {
        a.selected()
    })
    &&& b.reading() == (b.selected() && data_input(io))
}

/// Whether the I/O lines say: read data in.
pub open spec fn data_input(io: IOBus) -> bool {
    io.line(1) && !io.line(3) && !io.line(2)
}

pub struct KeyboardAdapter {
    /// The bus the keyboard puts key codes on.
    pub keyboard_in_bus: Bus,
    memory_bit: Bit,
    pub key_code_register: Register,
    and_gate1: ANDGate8,
    not_gates_for_and_gate1: [NOT; 4],
    and_gate2: ANDGate3,
    and_gate3: ANDGate3,
    not_gates_for_and_gate3: [NOT; 2],
    and_gate4: AND,
}

impl KeyboardAdapter {
    /// Whether the adapter is the device the CPU has selected.
    pub closed spec fn selected(&self) -> bool {
        self.memory_bit.wire_o@
    }

    /// The lines of the keyboard's bus.
    pub closed spec fn in_lines(&self) -> Seq<bool> {
        self.keyboard_in_bus@
    }

    /// What the key code register holds.
    pub closed spec fn key_code_lines(&self) -> Seq<bool> {
        self.key_code_register.stored_lines()
    }

    /// Whether the CPU reads from the adapter at its next update.
    pub closed spec fn reading(&self) -> bool {
        self.and_gate4@
    }

    /// The buses have sixteen lines, and the key code register is at rest.
    pub closed spec fn ready(&self) -> bool {
        &&& self.keyboard_in_bus.wf()
        &&& self.keyboard_in_bus@.len() == 16
        &&& self.keyboard_in_bus.bus_width() == 16
        &&& !self.key_code_register.set_on()
        &&& !self.key_code_register.enable_on()
        &&& self.memory_bit.stored() == self.memory_bit.wire_o@
    }

    pub fn new() -> (r: Self)
        ensures
            r.in_lines() == Seq::new(16, |i: int| false),
            !r.reading(),
    {
        Self {
            keyboard_in_bus: Bus::new(16),
            memory_bit: Bit::new(),
            key_code_register: Register::new(""),
            and_gate1: ANDGate8::new(),
            not_gates_for_and_gate1: [NOT::new(); 4],
            and_gate2: ANDGate3::new(),
            and_gate3: ANDGate3::new(),
            not_gates_for_and_gate3: [NOT::new(); 2],
            and_gate4: AND::new(),
        }
    }

    /// When the CPU reads: the key code register takes in the keyboard's
    /// bus and puts it on the main bus, then the keyboard's bus is cleared
    /// and the register takes in the zero.
    fn update_key_code_reg(&mut self, main_bus: &mut Bus)
        requires
            old(self).ready(),
            old(main_bus).wf(),
            old(main_bus)@.len() == 16,
        ensures
            final(self).ready(),
            final(self).memory_bit == old(self).memory_bit,
            final(self).and_gate4 == old(self).and_gate4,
            final(main_bus).wf(),
            final(main_bus).bus_width() == old(main_bus).bus_width(),
            final(main_bus)@ == (if old(self).reading() {
                old(self).keyboard_in_bus@
            } else {
                old(main_bus)@
            }),
            final(self).keyboard_in_bus@ == (if old(self).reading() {
                Seq::new(16, |i: int| false)
            } else {
                old(self).keyboard_in_bus@
            }),
            final(self).key_code_register.stored_lines() == (if old(self).reading() {
                Seq::new(16, |i: int| false)
            } else {
                old(self).key_code_register.stored_lines()
            }),
    {
        if self.and_gate4.get() {
            self.key_code_register.set();
            self.key_code_register.enable();
            self.key_code_register.update(&self.keyboard_in_bus, main_bus);
            assert(self.key_code_register.output_lines() =~= old(self).keyboard_in_bus@);
            assert(main_bus@ =~= old(self).keyboard_in_bus@);
            self.key_code_register.disable();
            // clear the register once everything is out
            self.keyboard_in_bus.set_value(0);
            proof {
                crate::bits::lemma_word_bits_zero();
            }
            self.key_code_register.update(&self.keyboard_in_bus, main_bus);
            self.key_code_register.unset();
            self.key_code_register.update(&self.keyboard_in_bus, main_bus);
        }
    }
}

impl Peripheral for KeyboardAdapter {
    open spec fn connected(&self) -> bool {
        self.ready()
    }

    /// Deselects the adapter and gives it a fresh key code register.
    fn connect(&mut self) {
        self.memory_bit.update(false, true);
        self.memory_bit.update(false, false);
        self.key_code_register = Register::new("KCR");
        self.keyboard_in_bus = Bus::new(16);
    }

    /// Hands over the key code if the CPU asked for it last time, then
    /// becomes selected when the CPU puts out the address 0x0F, and notes
    /// whether the CPU now reads data in.
    fn update(&mut self, io_bus: &IOBus, main_bus: &mut Bus)
        ensures
            final(main_bus)@ == (if old(self).reading() {
                old(self).in_lines()
            } else {
                old(main_bus)@
            }),
            final(self).in_lines() == (if old(self).reading() {
                Seq::new(16, |i: int| false)
            } else {
                old(self).in_lines()
            }),
            final(self).key_code_lines() == (if old(self).reading() {
                Seq::new(16, |i: int| false)
            } else {
                old(self).key_code_lines()
            }),
            final(self).selected() == (if io_bus.line(0) && io_bus.line(3) && io_bus.line(2) {
                keyboard_address(final(main_bus)@)
            } else {
                old(self).selected()
            }),
            final(self).reading() == (final(self).selected() && data_input(*io_bus)),
            keyboard_updated(*old(self), *final(self), *io_bus, old(main_bus)@, final(main_bus)@),
    {
        self.update_key_code_reg(main_bus);
        let l8 = main_bus.get_output_wire(8);
        let l9 = main_bus.get_output_wire(9);
        let l10 = main_bus.get_output_wire(10);
        let l11 = main_bus.get_output_wire(11);
        self.not_gates_for_and_gate1[0].update(l8);
        self.not_gates_for_and_gate1[1].update(l9);
        self.not_gates_for_and_gate1[2].update(l10);
        self.not_gates_for_and_gate1[3].update(l11);
        let n0 = self.not_gates_for_and_gate1[0].get();
        let n1 = self.not_gates_for_and_gate1[1].get();
        let n2 = self.not_gates_for_and_gate1[2].get();
        let n3 = self.not_gates_for_and_gate1[3].get();
        let l12 = main_bus.get_output_wire(12);
        let l13 = main_bus.get_output_wire(13);
        let l14 = main_bus.get_output_wire(14);
        let l15 = main_bus.get_output_wire(15);
        self.and_gate1.update(n0, n1, n2, n3, l12, l13, l14, l15);
        self.and_gate2.update(
            io_bus.get_output_wire(0),
            io_bus.get_output_wire(3),
            io_bus.get_output_wire(2),
        );
        let a1 = self.and_gate1.get();
        let a2 = self.and_gate2.get();
        self.memory_bit.update(a1, a2);
        let d = io_bus.get_output_wire(3);
        let m = io_bus.get_output_wire(2);
        self.not_gates_for_and_gate3[0].update(d);
        self.not_gates_for_and_gate3[1].update(m);
        let e = io_bus.get_output_wire(1);
        let nd = self.not_gates_for_and_gate3[0].get();
        let nm = self.not_gates_for_and_gate3[1].get();
        self.and_gate3.update(e, nd, nm);
        let selected = self.memory_bit.get();
        let reading = self.and_gate3.get();
        self.and_gate4.update(selected, reading);
    }
}

/// A key going down or up.
#[derive(Clone, Copy, Debug)]
pub struct KeyPress {
    pub value: i32,
    pub is_down: bool,
}

} // verus!
