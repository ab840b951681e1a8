//! Display memory: written through one address register from the main bus,
//! read through another onto the screen bus, each side with its own
//! decoders.
use crate::components::bus::Bus;
use crate::components::register::{driven, gated};
use crate::components::{Decoder8x256, Enableable, Register, Settable};
use crate::gates::Wire;
use crate::memory::{address_index, drive_result, lemma_nibble, nibble, Cell, MEMORY_WORDS};
use vstd::prelude::*;

verus! {

/// The cell that the output side reads for the address lines `l` while its
/// column decoder has `col` selected: the row comes from lines 8 to 15 (the
/// row decoder takes them after lines 0 to 7, so they are what it keeps).
pub open spec fn output_index(l: Seq<bool>, col: int) -> int {
    256 * (16 * nibble(l[12], l[13], l[14], l[15]) + nibble(l[8], l[9], l[10], l[11])) + col
}

pub struct DisplayRAM {
    pub input_address_register: Register,
    input_row_decoder: Decoder8x256,
    input_col_decoder: Decoder8x256,
    output_address_register: Register,
    output_row_decoder: Decoder8x256,
    output_col_decoder: Decoder8x256,
    data: Vec<Cell>,
    set: Wire,
    enable: Wire,
}

impl DisplayRAM {
    /// The memory holds one cell for each address, and the output column
    /// decoder has a column selected.
    pub closed spec fn wf(&self) -> bool {
        &&& self.data@.len() == MEMORY_WORDS
        &&& 0 <= self.output_col_decoder.selected() < 256
    }

    /// The register that chooses the cell to write.
    pub closed spec fn imar(&self) -> Register {
        self.input_address_register
    }

    /// The register that chooses the cell to read.
    pub closed spec fn omar(&self) -> Register {
        self.output_address_register
    }

    /// The column the output side reads from.
    pub closed spec fn output_col(&self) -> int {
        self.output_col_decoder.selected()
    }

    pub closed spec fn cells(&self) -> Seq<Cell> {
        self.data@
    }

    /// The word held by cell `i`.
    pub open spec fn word(&self, i: int) -> Seq<bool> {
        self.cells()[i].stored()
    }

    /// Every word has sixteen lines.
    pub proof fn lemma_word_shape(&self, i: int)
        requires
            self.wf(),
            0 <= i < MEMORY_WORDS,
        ensures
            self.word(i).len() == 16,
    {
        self.cells()[i].value.lemma_shape();
    }

    /// The cell the output side reads is one of the memory's cells.
    pub proof fn lemma_output_index_range(&self)
        requires
            self.wf(),
        ensures
            0 <= output_index(self.omar().stored_lines(), self.output_col()) < MEMORY_WORDS,
    {
        let l = self.omar().stored_lines();
        self.omar().lemma_shape();
        lemma_nibble(l[8], l[9], l[10], l[11]);
        lemma_nibble(l[12], l[13], l[14], l[15]);
    }

    pub closed spec fn set_on(&self) -> bool {
        self.set@
    }

    pub closed spec fn enable_on(&self) -> bool {
        self.enable@
    }

    pub fn new() -> (r: Self)
        ensures
            r.wf(),
            !r.set_on(),
            !r.enable_on(),
            r.imar().stored_lines() == Seq::new(16, |i: int| true),
            !r.imar().set_on(),
            !r.imar().enable_on(),
            r.omar().stored_lines() == Seq::new(16, |i: int| true),
            !r.omar().set_on(),
            !r.omar().enable_on(),
            r.output_col() == 0,
            forall|i: int| 0 <= i < MEMORY_WORDS ==> #[trigger] r.word(i) == Seq::new(16, |j: int| true),
    {
        let cell = Cell::new();
        let mut data: Vec<Cell> = Vec::new();
        let mut i: usize = 0;
        while i < MEMORY_WORDS
            invariant
                i <= MEMORY_WORDS,
                data@.len() == i,
                cell.stored() == Seq::new(16, |j: int| true),
                forall|j: int| 0 <= j < i ==> #[trigger] data@[j] == cell,
            decreases MEMORY_WORDS - i,
        {
            data.push(cell);
            i += 1;
        }
        Self {
            input_address_register: Register::new("IMAR"),
            input_row_decoder: Decoder8x256::new(),
            input_col_decoder: Decoder8x256::new(),
            output_address_register: Register::new("OMAR"),
            output_row_decoder: Decoder8x256::new(),
            output_col_decoder: Decoder8x256::new(),
            data,
            set: Wire::with_value(false),
            enable: Wire::with_value(false),
        }
    }

    pub fn enable(&mut self)
        ensures
            final(self).enable_on(),
            final(self).set_on() == old(self).set_on(),
            final(self).wf() == old(self).wf(),
            final(self).cells() == old(self).cells(),
            final(self).imar() == old(self).imar(),
            final(self).omar() == old(self).omar(),
            final(self).output_col() == old(self).output_col(),
    {
        self.enable.update(true)
    }

    pub fn disable(&mut self)
        ensures
            !final(self).enable_on(),
            final(self).set_on() == old(self).set_on(),
            final(self).wf() == old(self).wf(),
            final(self).cells() == old(self).cells(),
            final(self).imar() == old(self).imar(),
            final(self).omar() == old(self).omar(),
            final(self).output_col() == old(self).output_col(),
    {
        self.enable.update(false)
    }

    pub fn set(&mut self)
        ensures
            final(self).set_on(),
            final(self).enable_on() == old(self).enable_on(),
            final(self).wf() == old(self).wf(),
            final(self).cells() == old(self).cells(),
            final(self).imar() == old(self).imar(),
            final(self).omar() == old(self).omar(),
            final(self).output_col() == old(self).output_col(),
    {
        self.set.update(true)
    }

    pub fn unset(&mut self)
        ensures
            !final(self).set_on(),
            final(self).enable_on() == old(self).enable_on(),
            final(self).wf() == old(self).wf(),
            final(self).cells() == old(self).cells(),
            final(self).imar() == old(self).imar(),
            final(self).omar() == old(self).omar(),
            final(self).output_col() == old(self).output_col(),
    {
        self.set.update(false)
    }

    /// Turns the input address register's set signal on or off.
    pub fn set_input_address_register(&mut self, state: bool)
        ensures
            final(self).imar().set_on() == state,
            old(self).imar().set_kept(final(self).imar()),
            final(self).imar().enable_on() == old(self).imar().enable_on(),
            final(self).wf() == old(self).wf(),
            final(self).cells() == old(self).cells(),
            final(self).omar() == old(self).omar(),
            final(self).output_col() == old(self).output_col(),
            final(self).set_on() == old(self).set_on(),
            final(self).enable_on() == old(self).enable_on(),
    {
        if state {
            self.input_address_register.set();
        } else {
            self.input_address_register.unset();
        }
    }

    /// Lets the input address register alone take in the input bus (and,
    /// when enabled, drive the output bus).
    pub fn update_input_address_register(&mut self, input_bus: &Bus, output_bus: &mut Bus)
        requires
            input_bus@.len() >= 16,
            old(output_bus).wf(),
            old(output_bus)@.len() >= 16,
        ensures
            final(self).imar().stored_lines() == (if old(self).imar().set_on() {
                input_bus@.take(16)
            } else {
                old(self).imar().stored_lines()
            }),
            final(self).imar().word_lines() == final(self).imar().stored_lines(),
            final(self).imar().set_on() == old(self).imar().set_on(),
            final(self).imar().enable_on() == old(self).imar().enable_on(),
            final(self).wf() == old(self).wf(),
            final(self).cells() == old(self).cells(),
            final(self).omar() == old(self).omar(),
            final(self).output_col() == old(self).output_col(),
            final(self).set_on() == old(self).set_on(),
            final(self).enable_on() == old(self).enable_on(),
            final(output_bus).wf(),
            final(output_bus).bus_width() == old(output_bus).bus_width(),
            final(output_bus)@ == drive_result(
                old(output_bus)@,
                final(self).imar().output_lines(),
                old(self).imar().enable_on(),
            ),
    {
        self.input_address_register.update(input_bus, output_bus);
    }

    /// Runs lines 0 to 7 of the input address register through the input
    /// row decoder.
    fn decode_input_row(&mut self) -> (row: i32)
        ensures
            ({
                let l = old(self).input_address_register.word_lines();
                row == 16 * nibble(l[4], l[5], l[6], l[7]) + nibble(l[0], l[1], l[2], l[3])
            }),
            0 <= row < 256,
            final(self).input_address_register == old(self).input_address_register,
            final(self).output_address_register == old(self).output_address_register,
            final(self).input_col_decoder == old(self).input_col_decoder,
            final(self).output_col_decoder == old(self).output_col_decoder,
            final(self).data == old(self).data,
            final(self).set == old(self).set,
            final(self).enable == old(self).enable,
    {
        let a0 = self.input_address_register.bit(0);
        let a1 = self.input_address_register.bit(1);
        let a2 = self.input_address_register.bit(2);
        let a3 = self.input_address_register.bit(3);
        let a4 = self.input_address_register.bit(4);
        let a5 = self.input_address_register.bit(5);
        let a6 = self.input_address_register.bit(6);
        let a7 = self.input_address_register.bit(7);
        self.input_row_decoder.update(a0, a1, a2, a3, a4, a5, a6, a7);
        proof {
            lemma_nibble(a0, a1, a2, a3);
            lemma_nibble(a4, a5, a6, a7);
        }
        self.input_row_decoder.index()
    }

    /// Runs lines 8 to 15 of the input address register through the input
    /// column decoder.
    fn decode_input_col(&mut self) -> (col: i32)
        ensures
            ({
                let l = old(self).input_address_register.word_lines();
                col == 16 * nibble(l[12], l[13], l[14], l[15]) + nibble(l[8], l[9], l[10], l[11])
            }),
            0 <= col < 256,
            final(self).input_address_register == old(self).input_address_register,
            final(self).output_address_register == old(self).output_address_register,
            final(self).input_row_decoder == old(self).input_row_decoder,
            final(self).output_col_decoder == old(self).output_col_decoder,
            final(self).data == old(self).data,
            final(self).set == old(self).set,
            final(self).enable == old(self).enable,
    {
        let a8 = self.input_address_register.bit(8);
        let a9 = self.input_address_register.bit(9);
        let a10 = self.input_address_register.bit(10);
        let a11 = self.input_address_register.bit(11);
        let a12 = self.input_address_register.bit(12);
        let a13 = self.input_address_register.bit(13);
        let a14 = self.input_address_register.bit(14);
        let a15 = self.input_address_register.bit(15);
        self.input_col_decoder.update(a8, a9, a10, a11, a12, a13, a14, a15);
        proof {
            lemma_nibble(a8, a9, a10, a11);
            lemma_nibble(a12, a13, a14, a15);
        }
        self.input_col_decoder.index()
    }

    /// Runs the output address register through the output row decoder:
    /// first lines 0 to 7, then lines 8 to 15, which are what it keeps.
    fn decode_output_row(&mut self) -> (row: i32)
        ensures
            ({
                let l = old(self).output_address_register.word_lines();
                row == 16 * nibble(l[12], l[13], l[14], l[15]) + nibble(l[8], l[9], l[10], l[11])
            }),
            0 <= row < 256,
            final(self).input_address_register == old(self).input_address_register,
            final(self).output_address_register == old(self).output_address_register,
            final(self).output_col_decoder == old(self).output_col_decoder,
            final(self).data == old(self).data,
            final(self).set == old(self).set,
            final(self).enable == old(self).enable,
    {
        let a0 = self.output_address_register.bit(0);
        let a1 = self.output_address_register.bit(1);
        let a2 = self.output_address_register.bit(2);
        let a3 = self.output_address_register.bit(3);
        let a4 = self.output_address_register.bit(4);
        let a5 = self.output_address_register.bit(5);
        let a6 = self.output_address_register.bit(6);
        let a7 = self.output_address_register.bit(7);
        self.output_row_decoder.update(a0, a1, a2, a3, a4, a5, a6, a7);
        let a8 = self.output_address_register.bit(8);
        let a9 = self.output_address_register.bit(9);
        let a10 = self.output_address_register.bit(10);
        let a11 = self.output_address_register.bit(11);
        let a12 = self.output_address_register.bit(12);
        let a13 = self.output_address_register.bit(13);
        let a14 = self.output_address_register.bit(14);
        let a15 = self.output_address_register.bit(15);
        self.output_row_decoder.update(a8, a9, a10, a11, a12, a13, a14, a15);
        proof {
            lemma_nibble(a8, a9, a10, a11);
            lemma_nibble(a12, a13, a14, a15);
        }
        self.output_row_decoder.index()
    }

    /// The write side: the input address register takes in the input bus
    /// when set, and the cell it chooses takes in the input bus when the
    /// memory is set.
    #[verifier::spinoff_prover]
    #[verifier::rlimit(40)]
    pub fn update_incoming(&mut self, input_bus: &Bus, output_bus: &mut Bus)
        requires
            old(self).wf(),
            input_bus@.len() >= 16,
            old(output_bus).wf(),
            old(output_bus)@.len() >= 16,
        ensures
            final(self).wf(),
            final(self).set_on() == old(self).set_on(),
            final(self).enable_on() == old(self).enable_on(),
            final(self).omar() == old(self).omar(),
            final(self).output_col() == old(self).output_col(),
            ({
                let imar = old(self).imar();
                let stored = if imar.set_on() {
                    input_bus@.take(16)
                } else {
                    imar.stored_lines()
                };
                let k = address_index(stored);
                &&& final(self).imar().stored_lines() == stored
                &&& final(self).imar().word_lines() == stored
                &&& final(self).imar().set_on() == imar.set_on()
                &&& final(self).imar().enable_on() == imar.enable_on()
                &&& 0 <= k < MEMORY_WORDS
                &&& final(self).word(k) == (if old(self).set_on() {
                    input_bus@.take(16)
                } else {
                    old(self).word(k)
                })
                &&& forall|j: int|
                    0 <= j < MEMORY_WORDS && j != k ==> #[trigger] final(self).word(j) == old(
                        self,
                    ).word(j)
                &&& final(output_bus)@ == drive_result(
                    old(output_bus)@,
                    gated(stored, imar.enable_on()),
                    imar.enable_on(),
                )
            }),
            final(output_bus).wf(),
            final(output_bus).bus_width() == old(output_bus).bus_width(),
    {
        self.input_address_register.update(input_bus, output_bus);
        let ghost stored = self.input_address_register.word_lines();
        proof {
            self.input_address_register.lemma_shape();
        }
        let row = self.decode_input_row();
        let col = self.decode_input_col();
        let k = (row as usize) * 256 + (col as usize);
        let mut cell = self.data[k];
        let set = self.set.get();
        let mut quiet = Bus::new(16);
        cell.update_between(set, false, input_bus, &mut quiet);
        self.data.set(k, cell);
    }

    /// The read side: the output address register takes in the input bus
    /// when set, and the cell it chooses drives the output bus when the
    /// memory is enabled.
    #[verifier::spinoff_prover]
    #[verifier::rlimit(40)]
    pub fn update_outgoing(&mut self, input_bus: &Bus, output_bus: &mut Bus)
        requires
            old(self).wf(),
            input_bus@.len() >= 16,
            old(output_bus).wf(),
            old(output_bus)@.len() >= 16,
        ensures
            final(self).wf(),
            final(self).set_on() == old(self).set_on(),
            final(self).enable_on() == old(self).enable_on(),
            final(self).imar() == old(self).imar(),
            final(self).output_col() == old(self).output_col(),
            ({
                let omar = old(self).omar();
                let stored = if omar.set_on() {
                    input_bus@.take(16)
                } else {
                    omar.stored_lines()
                };
                let b1 = drive_result(old(output_bus)@, gated(stored, omar.enable_on()), omar.enable_on());
                let k = output_index(stored, old(self).output_col());
                &&& final(self).omar().stored_lines() == stored
                &&& final(self).omar().word_lines() == stored
                &&& final(self).omar().set_on() == omar.set_on()
                &&& final(self).omar().enable_on() == omar.enable_on()
                &&& 0 <= k < MEMORY_WORDS
                &&& forall|j: int|
                    0 <= j < MEMORY_WORDS ==> #[trigger] final(self).word(j) == old(self).word(j)
                &&& final(output_bus)@ == drive_result(
                    b1,
                    gated(old(self).word(k), old(self).enable_on()),
                    old(self).enable_on(),
                )
            }),
            final(output_bus).wf(),
            final(output_bus).bus_width() == old(output_bus).bus_width(),
    {
        self.output_address_register.update(input_bus, output_bus);
        let ghost stored = self.output_address_register.word_lines();
        proof {
            self.output_address_register.lemma_shape();
        }
        let row = self.decode_output_row();
        let col = self.output_col_decoder.index();
        let k = (row as usize) * 256 + (col as usize);
        let mut cell = self.data[k];
        let enable = self.enable.get();
        cell.update_between(false, enable, input_bus, output_bus);
        proof {
            assert(cell.stored() == old(self).word(k as int));
        }
        self.data.set(k, cell);
        assert forall|j: int| 0 <= j < MEMORY_WORDS implies #[trigger] self.word(j) == old(self).word(j) by {
            if j != k as int {
                assert(self.data@[j] == old(self).data@[j]);
            }
        }
    }
}

} // verus!
