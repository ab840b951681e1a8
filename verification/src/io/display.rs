//! The display adapter, which puts what the CPU writes into display memory,
//! and the screen control, which reads display memory into pixels.
//!
//! [cpu] --write--> display adapter --write--> display memory <--read-- screen control
use super::display_ram::{output_index, DisplayRAM};
use super::Peripheral;
use crate::components::bus::Bus;
use crate::components::register::{driven, gated};
use crate::components::{ANDGate3, ANDGate5, ANDGate8, Bit, Component, Enableable, Settable};
use crate::computer::iobus::IOBus;
use crate::gates::NOT;
use crate::memory::{address_index, drive_result, MEMORY_WORDS};
use vstd::prelude::*;

verus! {

/// Whether the low byte of the bus lines `l` holds the display adapter's
/// address, 0x07.
pub open spec fn display_address(l: Seq<bool>) -> bool {
    !l[8] && !l[9] && !l[10] && !l[11] && !l[12] && l[13] && l[14] && l[15]
}

/// Whether the I/O lines say: put out an address.
pub open spec fn address_output(io: IOBus) -> bool {
    io.line(0) && io.line(3) && io.line(2)
}

/// Whether the I/O lines say: put out data.
pub open spec fn data_output(io: IOBus) -> bool {
    io.line(0) && !io.line(3) && io.line(2)
}

/// A latch whose output shows what it holds.
pub open spec fn settled(b: Bit) -> bool {
    b.stored() == b.wire_o@
}

pub struct DisplayAdapter {
    pub screen_bus: Bus,
    display_ram: Option<DisplayRAM>,
    display_adapter_active_bit: Bit,
    pub input_mar_out_bus: Bus,
    address_select_and_gate: ANDGate8,
    address_select_not_gates: [NOT; 5],
    is_address_output_mode_gate: ANDGate3,
    input_mar_set_gate: ANDGate5,
    input_mar_set_not_gates: [NOT; 2],
    write_to_ram: Bit,
    write_to_ram_toggle_gate: NOT,
    display_ram_set_gate: ANDGate5,
}

impl DisplayAdapter {
    /// Whether the adapter has its display memory, every bus has sixteen
    /// lines, and the memory's address registers are at rest.
    pub closed spec fn ready(&self) -> bool {
        &&& self.display_ram is Some
        &&& self.display_ram->0.wf()
        &&& !self.display_ram->0.imar().set_on()
        &&& !self.display_ram->0.imar().enable_on()
        &&& !self.display_ram->0.omar().set_on()
        &&& !self.display_ram->0.omar().enable_on()
        &&& !self.display_ram->0.enable_on()
        &&& self.screen_bus.wf()
        &&& self.screen_bus@.len() == 16
        &&& self.screen_bus.bus_width() == 16
        &&& settled(self.display_adapter_active_bit)
        &&& settled(self.write_to_ram)
    }

    /// The lines of the screen bus.
    pub closed spec fn screen_lines(&self) -> Seq<bool> {
        self.screen_bus@
    }

    /// The display memory.
    pub closed spec fn ram(&self) -> DisplayRAM {
        self.display_ram->0
    }

    /// Whether the adapter is the device the CPU has selected.
    pub closed spec fn active(&self) -> bool {
        self.display_adapter_active_bit.wire_o@
    }

    /// Whether the next data the CPU puts out goes into display memory
    /// (otherwise it is the address for it).
    pub closed spec fn writes_to_ram(&self) -> bool {
        self.write_to_ram.wire_o@
    }

    pub fn new() -> (r: Self)
        ensures
            !r.ready(),
            r.screen_lines() == Seq::new(16, |i: int| false),
    {
        DisplayAdapter {
            screen_bus: Bus::new(16),
            display_ram: None,
            display_adapter_active_bit: Bit::new(),
            input_mar_out_bus: Bus::new(16),
            address_select_and_gate: ANDGate8::new(),
            address_select_not_gates: [NOT::new(); 5],
            is_address_output_mode_gate: ANDGate3::new(),
            input_mar_set_gate: ANDGate5::new(),
            input_mar_set_not_gates: [NOT::new(); 2],
            write_to_ram: Bit::new(),
            write_to_ram_toggle_gate: NOT::new(),
            display_ram_set_gate: ANDGate5::new(),
        }
    }

    fn toggle_write_to_ram(&mut self)
        requires
            settled(old(self).write_to_ram),
        ensures
            final(self).write_to_ram.wire_o@ == !old(self).write_to_ram.wire_o@,
            settled(final(self).write_to_ram),
            final(self).display_ram == old(self).display_ram,
            final(self).display_adapter_active_bit == old(self).display_adapter_active_bit,
            final(self).screen_bus == old(self).screen_bus,
    {
        let w = self.write_to_ram.get();
        self.write_to_ram_toggle_gate.update(w);
        let t = self.write_to_ram_toggle_gate.get();
        self.write_to_ram.update(t, true);
        self.write_to_ram.update(false, false);
    }

    /// When data is put out while the next word is an address: the input
    /// address register takes in the main bus.
    fn write_to_input_mar(&mut self, io_bus: &IOBus, main_bus: &Bus)
        requires
            old(self).ready(),
            !old(self).writes_to_ram(),
            main_bus@.len() == 16,
        ensures
            final(self).ready(),
            final(self).active() == old(self).active(),
            ({
                let go = data_output(*io_bus) && old(self).active();
                &&& final(self).writes_to_ram() == go
                &&& final(self).ram().imar().stored_lines() == (if go {
                    main_bus@
                } else {
                    old(self).ram().imar().stored_lines()
                })
                &&& final(self).ram().cells() == old(self).ram().cells()
                &&& final(self).ram().omar() == old(self).ram().omar()
                &&& final(self).ram().output_col() == old(self).ram().output_col()
                &&& final(self).ram().set_on() == old(self).ram().set_on()
                &&& final(self).ram().enable_on() == old(self).ram().enable_on()
            }),
            final(self).screen_bus.wf(),
            final(self).screen_bus.bus_width() == old(self).screen_bus.bus_width(),
            final(self).screen_bus@ == old(self).screen_bus@,
    {
        let w = self.write_to_ram.get();
        self.input_mar_set_not_gates[0].update(w);
        let n = self.input_mar_set_not_gates[0].get();
        let active = self.display_adapter_active_bit.get();
        self.input_mar_set_gate.update(
            io_bus.is_data_mode(),
            io_bus.is_set(),
            io_bus.is_output_mode(),
            active,
            n,
        );
        if self.input_mar_set_gate.get() {
            let mut ram = self.display_ram.take().unwrap();
            ram.set_input_address_register(true);
            ram.update_input_address_register(main_bus, &mut self.screen_bus);
            ram.set_input_address_register(false);
            ram.update_input_address_register(main_bus, &mut self.screen_bus);
            assert(main_bus@.take(16) =~= main_bus@);
            self.display_ram = Some(ram);
            self.toggle_write_to_ram();
        }
    }

    /// When data is put out while the next word is data: the display memory
    /// takes it in at the address the input address register holds.
    fn write_to_display_ram(&mut self, io_bus: &IOBus, main_bus: &Bus)
        requires
            old(self).ready(),
            old(self).writes_to_ram(),
            main_bus@.len() == 16,
            !old(self).ram().set_on(),
        ensures
            final(self).ready(),
            final(self).active() == old(self).active(),
            !final(self).ram().set_on(),
            ({
                let go = data_output(*io_bus) && old(self).active();
                let k = address_index(old(self).ram().imar().stored_lines());
                &&& final(self).writes_to_ram() == !go
                &&& final(self).ram().imar().stored_lines() == old(self).ram().imar().stored_lines()
                &&& 0 <= k < MEMORY_WORDS
                &&& final(self).ram().word(k) == (if go {
                    main_bus@
                } else {
                    old(self).ram().word(k)
                })
                &&& forall|j: int|
                    0 <= j < MEMORY_WORDS && j != k ==> #[trigger] final(self).ram().word(j) == old(
                        self,
                    ).ram().word(j)
                &&& final(self).ram().omar() == old(self).ram().omar()
                &&& final(self).ram().output_col() == old(self).ram().output_col()
                &&& final(self).ram().enable_on() == old(self).ram().enable_on()
            }),
            final(self).screen_bus.wf(),
            final(self).screen_bus.bus_width() == old(self).screen_bus.bus_width(),
            final(self).screen_bus@ == old(self).screen_bus@,
    {
        proof {
            old(self).ram().imar().lemma_shape();
            crate::memory::law_address_index_range(old(self).ram().imar().stored_lines());
        }
        let w = self.write_to_ram.get();
        let active = self.display_adapter_active_bit.get();
        self.display_ram_set_gate.update(
            io_bus.is_data_mode(),
            io_bus.is_set(),
            io_bus.is_output_mode(),
            active,
            w,
        );
        if self.display_ram_set_gate.get() {
            let mut ram = self.display_ram.take().unwrap();
            let ghost k = address_index(ram.imar().stored_lines());
            let ghost r0 = ram;
            ram.set();
            assert(ram.imar() == r0.imar());
            ram.update_incoming(main_bus, &mut self.screen_bus);
            assert(main_bus@.take(16) =~= main_bus@);
            assert(ram.word(k) == main_bus@);
            assert(ram.imar().stored_lines() == r0.imar().stored_lines());
            let ghost r1 = ram;
            ram.unset();
            ram.update_incoming(main_bus, &mut self.screen_bus);
            assert(ram.word(k) == r1.word(k));
            assert forall|j: int| 0 <= j < MEMORY_WORDS && j != k implies #[trigger] ram.word(j)
                == r0.word(j) by {
                assert(ram.word(j) == r1.word(j));
                assert(r1.word(j) == r0.word(j));
            }
            self.display_ram = Some(ram);
            self.toggle_write_to_ram();
        }
    }
}

impl Peripheral for DisplayAdapter {
    open spec fn connected(&self) -> bool {
        self.ready() && !self.ram().set_on()
    }

    /// Gives the adapter its display memory, inactive and waiting for an
    /// address.
    fn connect(&mut self) {
        self.display_ram = Some(DisplayRAM::new());
        self.display_adapter_active_bit.update(false, true);
        self.display_adapter_active_bit.update(false, false);
        self.write_to_ram.update(false, true);
        self.write_to_ram.update(false, false);
        self.screen_bus = Bus::new(16);
    }

    /// Becomes active when the CPU puts out the address 0x07, and takes the
    /// data it then puts out: first an address in display memory, then the
    /// word for it, in turn.
    fn update(&mut self, io_bus: &IOBus, main_bus: &mut Bus)
        ensures
            final(main_bus)@ == old(main_bus)@,
            final(self).active() == (if address_output(*io_bus) {
                display_address(old(main_bus)@)
            } else {
                old(self).active()
            }),
            ({
                let go = data_output(*io_bus) && final(self).active();
                let k = address_index(old(self).ram().imar().stored_lines());
                &&& final(self).writes_to_ram() == (if go {
                    !old(self).writes_to_ram()
                } else {
                    old(self).writes_to_ram()
                })
                &&& final(self).ram().imar().stored_lines() == (if go && !old(self).writes_to_ram() {
                    old(main_bus)@
                } else {
                    old(self).ram().imar().stored_lines()
                })
                &&& 0 <= k < MEMORY_WORDS
                &&& final(self).ram().word(k) == (if go && old(self).writes_to_ram() {
                    old(main_bus)@
                } else {
                    old(self).ram().word(k)
                })
                &&& forall|j: int|
                    0 <= j < MEMORY_WORDS && j != k ==> #[trigger] final(self).ram().word(j) == old(
                        self,
                    ).ram().word(j)
            }),
            display_updated(*old(self), *final(self), *io_bus, old(main_bus)@),
    {
        proof {
            old(self).ram().imar().lemma_shape();
            crate::memory::law_address_index_range(old(self).ram().imar().stored_lines());
        }
        let l8 = main_bus.get_output_wire(8);
        let l9 = main_bus.get_output_wire(9);
        let l10 = main_bus.get_output_wire(10);
        let l11 = main_bus.get_output_wire(11);
        let l12 = main_bus.get_output_wire(12);
        self.address_select_not_gates[0].update(l8);
        self.address_select_not_gates[1].update(l9);
        self.address_select_not_gates[2].update(l10);
        self.address_select_not_gates[3].update(l11);
        self.address_select_not_gates[4].update(l12);
        let n0 = self.address_select_not_gates[0].get();
        let n1 = self.address_select_not_gates[1].get();
        let n2 = self.address_select_not_gates[2].get();
        let n3 = self.address_select_not_gates[3].get();
        let n4 = self.address_select_not_gates[4].get();
        let l13 = main_bus.get_output_wire(13);
        let l14 = main_bus.get_output_wire(14);
        let l15 = main_bus.get_output_wire(15);
        self.address_select_and_gate.update(n0, n1, n2, n3, n4, l13, l14, l15);
        self.is_address_output_mode_gate.update(
            io_bus.is_set(),
            io_bus.is_address_mode(),
            io_bus.is_output_mode(),
        );
        let selected = self.address_select_and_gate.get();
        let address_out = self.is_address_output_mode_gate.get();
        self.display_adapter_active_bit.update(selected, address_out);
        // switch between writing to display memory and to its address register
        if self.write_to_ram.get() {
            self.write_to_display_ram(io_bus, main_bus);
        } else {
            self.write_to_input_mar(io_bus, main_bus);
        }
    }
}

/// The screen's height in pixels.
pub const SCREEN_HEIGHT: usize = 160;

/// The screen's width in pixels.
pub const SCREEN_WIDTH: usize = 240;

/// What an update leaves of adapter `a` as `b`, the I/O lines being `io`
/// and the main bus `bus`: it becomes active when the CPU puts out its
/// address, and while active takes the data put out, an address in display
/// memory and the word for it in turn.
pub open spec fn display_updated(a: DisplayAdapter, b: DisplayAdapter, io: IOBus, bus: Seq<bool>) -> bool {
    let go = data_output(io) && b.active();
    let k = address_index(a.ram().imar().stored_lines());
    &&& b.connected()
    &&& b.active() == (if address_output(io) {
        display_address(bus)
    } else {
        a.active()
    })
    &&& b.writes_to_ram() == (if go {
        !a.writes_to_ram()
    } else {
        a.writes_to_ram()
    })
    &&& b.ram().imar().stored_lines() == (if go && !a.writes_to_ram() {
        bus
    } else {
        a.ram().imar().stored_lines()
    })
    &&& b.ram().word(k) == (if go && a.writes_to_ram() {
        bus
    } else {
        a.ram().word(k)
    })
    &&& forall|j: int| 0 <= j < MEMORY_WORDS && j != k ==> #[trigger] b.ram().word(j) == a.ram().word(j)
}

/// What a redraw leaves of the screen `s` as `t` and of adapter `a` as `b`,
/// the main bus being `bus`: every pixel comes from the word the adapter's
/// output side chooses, the adapter's memory and state are kept, and its
/// input address register takes in the main bus.
pub open spec fn screen_drawn(
    s: ScreenControl,
    t: ScreenControl,
    a: DisplayAdapter,
    b: DisplayAdapter,
    bus: Seq<bool>,
) -> bool {
    let k = output_index(a.ram().omar().stored_lines(), a.ram().output_col());
    let w = a.ram().word(k);
    &&& b.connected()
    &&& forall|j: int| 0 <= j < MEMORY_WORDS ==> #[trigger] b.ram().word(j) == a.ram().word(j)
    &&& b.ram().omar().stored_lines() == a.ram().omar().stored_lines()
    &&& b.ram().output_col() == a.ram().output_col()
    &&& b.active() == a.active()
    &&& b.writes_to_ram() == a.writes_to_ram()
    &&& b.ram().imar().stored_lines() == bus
    &&& t.clock == s.clock
    &&& t.output@.len() == SCREEN_HEIGHT * SCREEN_WIDTH
    &&& forall|i: int| 0 <= i < SCREEN_HEIGHT * SCREEN_WIDTH ==> #[trigger] t.output@[i] == pixel(w[8 + i % 8])
}

/// The pixel for a line of the screen bus.
pub open spec fn pixel(on: bool) -> u8 {
    if on {
        1
    } else {
        0
    }
}

/// Reads display memory, a byte per eight pixels, into a picture of the
/// screen.
pub struct ScreenControl {
    /// The pixels, row after row; 1 is lit.
    pub output: Vec<u8>,
    /// Milliseconds between two refreshes.
    pub clock: u64,
}

impl ScreenControl {
    pub fn new() -> (r: Self)
        ensures
            r.output@ == Seq::new((SCREEN_HEIGHT * SCREEN_WIDTH) as nat, |i: int| 0u8),
            r.clock == 33,
    {
        let mut output: Vec<u8> = Vec::new();
        let mut i: usize = 0;
        while i < SCREEN_HEIGHT * SCREEN_WIDTH
            invariant
                i <= SCREEN_HEIGHT * SCREEN_WIDTH,
                output@ == Seq::new(i as nat, |j: int| 0u8),
            decreases SCREEN_HEIGHT * SCREEN_WIDTH - i,
        {
            output.push(0);
            i += 1;
            assert(output@ =~= Seq::new(i as nat, |j: int| 0u8));
        }
        ScreenControl { output, clock: 33 }
    }

    /// Puts `address` on the screen bus and lets the input address register
    /// take in its input (the main bus).
    pub fn set_output_ram_address(&mut self, adapter: &mut DisplayAdapter, main_bus: &Bus, address: u16)
        requires
            old(adapter).connected(),
            main_bus@.len() == 16,
        ensures
            final(adapter).connected(),
            final(adapter).ram().imar().stored_lines() == main_bus@,
            final(adapter).ram().cells() == old(adapter).ram().cells(),
            final(adapter).ram().omar() == old(adapter).ram().omar(),
            final(adapter).ram().output_col() == old(adapter).ram().output_col(),
            final(adapter).ram().enable_on() == old(adapter).ram().enable_on(),
            final(adapter).active() == old(adapter).active(),
            final(adapter).writes_to_ram() == old(adapter).writes_to_ram(),
            final(adapter).screen_lines() == crate::bits::word_bits(address),
            final(self).output == old(self).output,
            final(self).clock == old(self).clock,
    {
        adapter.screen_bus.set_value(address);
        let mut ram = adapter.display_ram.take().unwrap();
        ram.set_input_address_register(true);
        ram.update_input_address_register(main_bus, &mut adapter.screen_bus);
        ram.set_input_address_register(false);
        ram.update_input_address_register(main_bus, &mut adapter.screen_bus);
        assert(main_bus@.take(16) =~= main_bus@);
        adapter.display_ram = Some(ram);
    }

    /// Reads the cell the output address register chooses onto the screen
    /// bus and turns lines 8 to 15 of it into the eight pixels of row `y`
    /// from column `x` on.
    pub fn render_pixels_from_ram(&mut self, adapter: &mut DisplayAdapter, main_bus: &Bus, y: u16, x: &mut u16)
        requires
            old(adapter).connected(),
            main_bus@.len() == 16,
            old(self).output@.len() == SCREEN_HEIGHT * SCREEN_WIDTH,
            y < SCREEN_HEIGHT,
            *old(x) + 8 <= SCREEN_WIDTH,
        ensures
            final(adapter).connected(),
            final(adapter).ram().imar() == old(adapter).ram().imar(),
            forall|j: int| 0 <= j < MEMORY_WORDS ==> #[trigger] final(adapter).ram().word(j) == old(adapter).ram().word(j),
            final(adapter).ram().omar().stored_lines() == old(adapter).ram().omar().stored_lines(),
            final(adapter).ram().output_col() == old(adapter).ram().output_col(),
            final(adapter).active() == old(adapter).active(),
            final(adapter).writes_to_ram() == old(adapter).writes_to_ram(),
            *final(x) == *old(x) + 8,
            final(self).output@.len() == old(self).output@.len(),
            final(self).clock == old(self).clock,
            ({
                let k = output_index(old(adapter).ram().omar().stored_lines(), old(adapter).ram().output_col());
                let w = old(adapter).ram().word(k);
                forall|i: int|
                    0 <= i < SCREEN_HEIGHT * SCREEN_WIDTH ==> #[trigger] final(self).output@[i] == (
                    if y * SCREEN_WIDTH + *old(x) <= i < y * SCREEN_WIDTH + *old(x) + 8 {
                        pixel(w[8 + i - (y * SCREEN_WIDTH + *old(x))])
                    } else {
                        old(self).output@[i]
                    })
            }),
    {
        let mut ram = adapter.display_ram.take().unwrap();
        let ghost r0 = ram;
        let ghost k = output_index(ram.omar().stored_lines(), ram.output_col());
        ram.enable();
        ram.update_outgoing(main_bus, &mut adapter.screen_bus);
        let ghost r1 = ram;
        let ghost w = ram.word(k);
        proof {
            ram.lemma_word_shape(k);
            assert(gated(w, true) =~= w);
        }
        assert(adapter.screen_bus@ =~= w);
        let base: usize = (y as usize) * SCREEN_WIDTH;
        let ghost x0 = *x;
        let mut b: i32 = 8;
        while b < 16
            invariant
                8 <= b <= 16,
                *x == x0 + (b - 8),
                x0 + 8 <= SCREEN_WIDTH,
                base == y * SCREEN_WIDTH,
                y < SCREEN_HEIGHT,
                adapter.screen_bus@ == w,
                w.len() == 16,
                self.clock == old(self).clock,
                self.output@.len() == SCREEN_HEIGHT * SCREEN_WIDTH,
                forall|i: int|
                    0 <= i < SCREEN_HEIGHT * SCREEN_WIDTH ==> #[trigger] self.output@[i] == (
                    if base + x0 <= i < base + *x {
                        pixel(w[8 + i - (base + x0)])
                    } else {
                        old(self).output@[i]
                    }),
            decreases 16 - b,
        {
            let on = adapter.screen_bus.get_output_wire(b);
            let idx = base + (*x as usize);
            if on {
                self.output.set(idx, 1);
            } else {
                self.output.set(idx, 0);
            }
            *x = *x + 1;
            b += 1;
        }
        ram.disable();
        let ghost r2 = ram;
        ram.update_outgoing(main_bus, &mut adapter.screen_bus);
        adapter.display_ram = Some(ram);
        assert(adapter.ram() == ram);
        assert forall|j: int| 0 <= j < MEMORY_WORDS implies #[trigger] ram.word(j) == r0.word(j) by {
            assert(ram.word(j) == r2.word(j));
            assert(r2.word(j) == r1.word(j));
            assert(r1.word(j) == r0.word(j));
        }
    }
}

impl ScreenControl {
    /// Redraws the whole screen: for each row `y` and each byte `h` of it,
    /// the address `30 * y + h` goes on the screen bus, and the cell the
    /// output side chooses gives the row's pixels `8 * h` to `8 * h + 7`.
    pub fn update(&mut self, adapter: &mut DisplayAdapter, main_bus: &Bus)
        requires
            old(adapter).connected(),
            main_bus@.len() == 16,
            old(self).output@.len() == SCREEN_HEIGHT * SCREEN_WIDTH,
        ensures
            final(adapter).connected(),
            forall|j: int| 0 <= j < MEMORY_WORDS ==> #[trigger] final(adapter).ram().word(j) == old(adapter).ram().word(j),
            final(adapter).ram().omar().stored_lines() == old(adapter).ram().omar().stored_lines(),
            final(adapter).ram().output_col() == old(adapter).ram().output_col(),
            final(adapter).active() == old(adapter).active(),
            final(adapter).writes_to_ram() == old(adapter).writes_to_ram(),
            final(adapter).ram().imar().stored_lines() == main_bus@,
            final(self).output@.len() == SCREEN_HEIGHT * SCREEN_WIDTH,
            ({
                let k = output_index(old(adapter).ram().omar().stored_lines(), old(adapter).ram().output_col());
                let w = old(adapter).ram().word(k);
                forall|i: int|
                    0 <= i < SCREEN_HEIGHT * SCREEN_WIDTH ==> #[trigger] final(self).output@[i]
                        == pixel(w[8 + i % 8])
            }),
            final(self).clock == old(self).clock,
            screen_drawn(*old(self), *final(self), *old(adapter), *final(adapter), main_bus@),
    {
        let width_in_bytes: u16 = 30;
        let ghost k = output_index(adapter.ram().omar().stored_lines(), adapter.ram().output_col());
        let ghost w = adapter.ram().word(k);
        proof {
            adapter.ram().lemma_output_index_range();
        }
        let mut y: u16 = 0;
        while y < 160
            invariant
                y <= 160,
                width_in_bytes == 30,
                adapter.connected(),
                main_bus@.len() == 16,
                forall|j: int| 0 <= j < MEMORY_WORDS ==> #[trigger] adapter.ram().word(j) == old(adapter).ram().word(j),
                adapter.ram().omar().stored_lines() == old(adapter).ram().omar().stored_lines(),
                adapter.ram().output_col() == old(adapter).ram().output_col(),
                adapter.active() == old(adapter).active(),
                adapter.writes_to_ram() == old(adapter).writes_to_ram(),
                y > 0 ==> adapter.ram().imar().stored_lines() == main_bus@,
                k == output_index(adapter.ram().omar().stored_lines(), adapter.ram().output_col()),
                0 <= k < MEMORY_WORDS,
                w == adapter.ram().word(k),
                self.clock == old(self).clock,
                self.output@.len() == SCREEN_HEIGHT * SCREEN_WIDTH,
                forall|i: int|
                    0 <= i < y * SCREEN_WIDTH ==> #[trigger] self.output@[i] == pixel(w[8 + i % 8]),
            decreases 160 - y,
        {
            let vertical: u16 = y * width_in_bytes;
            let mut x: u16 = 0;
            let mut horizontal: u16 = 0;
            while horizontal < width_in_bytes
                invariant
                    horizontal <= 30,
                    width_in_bytes == 30,
                    vertical == y * 30,
                    y < 160,
                    x == 8 * horizontal,
                    adapter.connected(),
                    main_bus@.len() == 16,
                    forall|j: int| 0 <= j < MEMORY_WORDS ==> #[trigger] adapter.ram().word(j) == old(adapter).ram().word(j),
                    adapter.ram().omar().stored_lines() == old(adapter).ram().omar().stored_lines(),
                    adapter.ram().output_col() == old(adapter).ram().output_col(),
                    adapter.active() == old(adapter).active(),
                    adapter.writes_to_ram() == old(adapter).writes_to_ram(),
                    (y > 0 || horizontal > 0) ==> adapter.ram().imar().stored_lines() == main_bus@,
                    k == output_index(adapter.ram().omar().stored_lines(), adapter.ram().output_col()),
                    0 <= k < MEMORY_WORDS,
                    w == adapter.ram().word(k),
                    self.clock == old(self).clock,
                    self.output@.len() == SCREEN_HEIGHT * SCREEN_WIDTH,
                    forall|i: int|
                        0 <= i < y * SCREEN_WIDTH + x ==> #[trigger] self.output@[i] == pixel(
                            w[8 + i % 8],
                        ),
                decreases 30 - horizontal,
            {
                let ghost a0 = adapter.ram();
                self.set_output_ram_address(adapter, main_bus, vertical + horizontal);
                let ghost a1 = adapter.ram();
                let ghost x0 = x;
                self.render_pixels_from_ram(adapter, main_bus, y, &mut x);
                assert forall|j: int| 0 <= j < MEMORY_WORDS implies #[trigger] adapter.ram().word(j)
                    == old(adapter).ram().word(j) by {
                    assert(adapter.ram().word(j) == a1.word(j));
                    assert(a1.word(j) == a0.word(j));
                }
                assert forall|i: int| 0 <= i < y * SCREEN_WIDTH + x implies #[trigger] self.output@[i]
                    == pixel(w[8 + i % 8]) by {
                    if i >= y * SCREEN_WIDTH + x0 {
                        assert(i - (y * SCREEN_WIDTH + x0) == i % 8) by (nonlinear_arith)
                            requires
                                x0 == 8 * horizontal,
                                y * SCREEN_WIDTH + x0 <= i < y * SCREEN_WIDTH + x0 + 8,
                                SCREEN_WIDTH == 240,
                        ;
                    }
                }
                horizontal += 1;
            }
            y += 1;
        }
    }
}

} // verus!
