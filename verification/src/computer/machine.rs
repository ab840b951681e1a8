//! The computer: the CPU with its memory and display adapter, the screen,
//! and a keyboard adapter for the keyboard.
use crate::bits::{word_bits, word_value};
use crate::components::{Enableable, Settable};
use crate::components::stepper::stepper_update;
use crate::cpu::control::{cycle, kept, screen_refreshed, CPU};
use crate::io::display::{SCREEN_HEIGHT, SCREEN_WIDTH};
use crate::io::{Device, DisplayAdapter, KeyboardAdapter, ScreenControl};
use crate::memory::{address_index, Memory64K};
use vstd::prelude::*;

verus! {

/// Where programs are loaded; the memory below it is reserved.
pub const CODE_REGION_START: u16 = 0x0500;

/// Whether, and how often, the state of the CPU is shown while it runs.
pub struct PrintStateConfig {
    pub print_state: bool,
    pub print_state_every: u16,
}

impl PrintStateConfig {
    /// Whether the state is shown after step number `steps`.
    pub fn shows_step(&self, steps: u16) -> (r: bool)
        requires
            self.print_state ==> self.print_state_every != 0,
        ensures
            r == (self.print_state && steps % self.print_state_every == 0),
    {
        self.print_state && steps % self.print_state_every == 0
    }
}

/// The cell of memory that holds address `a`.
pub open spec fn cell_of(a: int) -> int {
    address_index(word_bits(a as u16))
}

pub struct Computer {
    cpu: CPU,
    pub screen_control: ScreenControl,
    pub keyboard_adapter: KeyboardAdapter,
}

impl Computer {
    /// The CPU, its memory and the display adapter are ready, and the
    /// screen has a pixel for each place.
    pub closed spec fn wf(&self) -> bool {
        &&& self.cpu.wf()
        &&& !self.cpu.ram().is_enabled()
        &&& !self.cpu.ram().is_set()
        &&& self.screen_control.output@.len() == SCREEN_HEIGHT * SCREEN_WIDTH
    }

    /// The screen's pixels.
    pub closed spec fn pixels(&self) -> Seq<u8> {
        self.screen_control.output@
    }

    /// The screen.
    pub closed spec fn screen(&self) -> ScreenControl {
        self.screen_control
    }

    /// The keyboard adapter.
    pub closed spec fn keyboard(&self) -> KeyboardAdapter {
        self.keyboard_adapter
    }

    /// The CPU.
    pub closed spec fn processor(&self) -> CPU {
        self.cpu
    }

    /// A computer with empty memory, a display adapter connected to the CPU,
    /// a blank screen, and a keyboard adapter of its own.
    pub fn new() -> (r: Self)
        ensures
            r.wf(),
            r.processor().devices().len() == 1,
            r.processor().devices()[0] is Display,
            r.pixels() == Seq::new((SCREEN_HEIGHT * SCREEN_WIDTH) as nat, |i: int| 0u8),
            r.processor().idle(),
    {
        let memory = Memory64K::new();
        let mut cpu = CPU::new(memory);
        cpu.connect_peripheral(Device::Display(DisplayAdapter::new()));
        Computer {
            cpu,
            screen_control: ScreenControl::new(),
            keyboard_adapter: KeyboardAdapter::new(),
        }
    }

    /// Writes `value` into memory at `address`, by way of the main bus.
    pub fn put_value_in_ram(&mut self, address: u16, value: u16)
        requires
            old(self).wf(),
        ensures
            final(self).wf(),
            final(self).processor().ram().word(cell_of(address as int)) == word_bits(value),
            forall|j: int|
                0 <= j < 65536 && j != cell_of(address as int) ==> #[trigger] final(self).processor().ram().word(j) == old(self).processor().ram().word(j),
            final(self).processor().devices() == old(self).processor().devices(),
            final(self).processor().iar_lines() == old(self).processor().iar_lines(),
            final(self).processor().stepper_state() == old(self).processor().stepper_state(),
            old(self).processor().idle() ==> final(self).processor().idle(),
            old(self).processor().fetch_ready() ==> final(self).processor().fetch_ready(),
    {
        self.cpu.set_cpu_memory_location(address, value);
    }

    /// Loads `values` into memory, one word after the other from `offset`.
    /// The memory below 0x0500 and from 0xFF00 on is reserved.
    pub fn load_to_ram(&mut self, offset: u16, values: Vec<u16>)
        requires
            old(self).wf(),
            0x0500 <= offset <= 0xFEFF,
            offset + values@.len() <= 0x10000,
        ensures
            final(self).wf(),
            forall|i: int|
                0 <= i < values@.len() ==> #[trigger] final(self).processor().ram().word(
                    cell_of(offset + i),
                ) == word_bits(values@[i]),
            forall|j: int|
                0 <= j < 65536 && (forall|a: int| offset <= a < offset + values@.len() ==> j != #[trigger] cell_of(a))
                    ==> #[trigger] final(self).processor().ram().word(j) == old(self).processor().ram().word(j),
            final(self).processor().devices() == old(self).processor().devices(),
            old(self).processor().idle() ==> final(self).processor().idle(),
            old(self).processor().fetch_ready() ==> final(self).processor().fetch_ready(),
    {
        let mut i: usize = 0;
        while i < values.len()
            invariant
                i <= values@.len(),
                offset + values@.len() <= 0x10000,
                self.wf(),
                self.processor().devices() == old(self).processor().devices(),
                old(self).processor().idle() ==> self.processor().idle(),
                old(self).processor().fetch_ready() ==> self.processor().fetch_ready(),
                forall|j: int|
                    0 <= j < i ==> #[trigger] self.processor().ram().word(cell_of(offset + j))
                        == word_bits(values@[j]),
                forall|j: int|
                    0 <= j < 65536 && (forall|a: int| offset <= a < offset + i ==> j != #[trigger] cell_of(a))
                        ==> #[trigger] self.processor().ram().word(j) == old(self).processor().ram().word(j),
            decreases values@.len() - i,
        {
            let address: u16 = offset + i as u16;
            let ghost before = self.processor().ram();
            self.put_value_in_ram(address, values[i]);
            proof {
                assert forall|j: int| 0 <= j < i + 1 implies #[trigger] self.processor().ram().word(
                    cell_of(offset + j),
                ) == word_bits(values@[j]) by {
                    if j < i {
                        let a = (offset + j) as u16;
                        assert(before.word(cell_of(offset + j)) == word_bits(values@[j]));
                        crate::bits::lemma_word_bits_shape(a);
                        crate::memory::law_address_index_range(word_bits(a));
                        if cell_of(offset + j) == cell_of(address as int) {
                            crate::bits::lemma_word_bits_shape(a);
                            crate::bits::lemma_word_bits_shape(address);
                            crate::memory::law_address_index_distinct(word_bits(a), word_bits(address));
                            crate::bits::lemma_word_bits_value(a);
                            crate::bits::lemma_word_bits_value(address);
                        }
                    }
                }
                assert(cell_of(offset + i) == cell_of(address as int));
                assert forall|j: int|
                    0 <= j < 65536 && (forall|a: int| offset <= a < offset + i + 1 ==> j != #[trigger] cell_of(a)) implies
                    #[trigger] self.processor().ram().word(j) == old(self).processor().ram().word(j) by {
                    assert(j != cell_of(offset + i));
                    assert(self.processor().ram().word(j) == before.word(j));
                }
            }
            i += 1;
        }
    }

    /// Gets the computer going: the last two words before the reserved
    /// memory jump back to the start of the code, and the CPU starts there.
    pub fn start(&mut self)
        requires
            old(self).wf(),
        ensures
            final(self).wf(),
            final(self).processor().iar_lines() == word_bits(CODE_REGION_START),
            final(self).processor().ram().word(cell_of(0xFEFE)) == word_bits(0x0040),
            final(self).processor().ram().word(cell_of(0xFEFF)) == word_bits(CODE_REGION_START),
            forall|j: int|
                0 <= j < 65536 && j != cell_of(0xFEFE) && j != cell_of(0xFEFF)
                    ==> #[trigger] final(self).processor().ram().word(j) == old(self).processor().ram().word(j),
            final(self).processor().devices() == old(self).processor().devices(),
            old(self).processor().idle() ==> final(self).processor().fetch_ready(),
    {
        // JMP back to the start of the code if the IAR reaches the end
        self.put_value_in_ram(0xFEFE, 0x0040);
        self.put_value_in_ram(0xFEFF, CODE_REGION_START);
        proof {
            crate::bits::lemma_word_bits_shape(0xFEFE);
            crate::memory::law_address_index_range(word_bits(0xFEFE));
            if cell_of(0xFEFE) == cell_of(0xFEFF) {
                crate::bits::lemma_word_bits_shape(0xFEFE);
                crate::bits::lemma_word_bits_shape(0xFEFF);
                crate::memory::law_address_index_distinct(word_bits(0xFEFE), word_bits(0xFEFF));
                crate::bits::lemma_word_bits_value(0xFEFE);
                crate::bits::lemma_word_bits_value(0xFEFF);
            }
        }
        let ghost r = self.cpu.ram();
        self.cpu.set_iar(CODE_REGION_START);
        assert(self.cpu.ram() == r);
    }

    /// One tick of the clock: the CPU takes a step.
    pub fn tick(&mut self)
        requires
            old(self).wf(),
        ensures
            final(self).wf(),
            final(self).processor().stepper_state() == stepper_update(
                stepper_update(old(self).processor().stepper_state(), !old(self).processor().clock()),
                old(self).processor().clock(),
            ),
            cycle(&old(self).processor(), &final(self).processor()),
    {
        self.cpu.step();
    }

    /// Redraws the screen from display memory.
    pub fn refresh_screen(&mut self)
        requires
            old(self).processor().wf(),
            old(self).pixels().len() == SCREEN_HEIGHT * SCREEN_WIDTH,
        ensures
            final(self).processor().wf(),
            final(self).pixels().len() == SCREEN_HEIGHT * SCREEN_WIDTH,
            screen_refreshed(
                old(self).processor(),
                final(self).processor(),
                old(self).screen(),
                final(self).screen(),
            ),
            kept(&old(self).processor(), &final(self).processor()),
            final(self).processor().ram() == old(self).processor().ram(),
            final(self).keyboard() == old(self).keyboard(),
    {
        self.cpu.refresh_screen(&mut self.screen_control);
    }

    /// The CPU, to look at.
    pub fn cpu(&self) -> (r: &CPU)
        ensures
            *r == self.processor(),
    {
        &self.cpu
    }
}

} // verus!
