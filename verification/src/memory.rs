//! Random access memory: 65536 words, each held in a register, one of which
//! the address register chooses.
use crate::bits::bit;
use crate::components::bus::Bus;
use crate::components::decoder::index4;
use crate::components::register::{driven, gated};
use crate::components::{Decoder8x256, Enableable, Register, Settable};
use crate::gates::{Wire, AND};
use vstd::prelude::*;

verus! {

/// The number of words the memory holds.
pub const MEMORY_WORDS: usize = 65536;

/// One word of memory: a register with the gates that pass on the memory's
/// set and enable signals when the word is selected.
#[derive(Debug, Clone, Copy)]
pub struct Cell {
    pub value: Register,
    pub gates: [AND; 3],
}

/// The bus after a register with the given output lines and enable signal has
/// driven it.
pub open spec fn drive_result(bus: Seq<bool>, outputs: Seq<bool>, enable: bool) -> Seq<bool> {
    if enable {
        driven(bus, outputs)
    } else {
        bus
    }
}

impl Cell {
    /// The word the cell holds.
    pub open spec fn stored(&self) -> Seq<bool> {
        self.value.stored_lines()
    }

    pub fn new() -> (r: Self)
        ensures
            r.stored() == Seq::new(16, |i: int| true),
            r.value.output_lines() == Seq::new(16, |i: int| false),
    {
        Self { value: Register::new(""), gates: [AND::new(); 3] }
    }

    /// Takes in the bus when `set`, and puts the word on the bus when
    /// `enable`.
    pub fn update(&mut self, set: bool, enable: bool, bus: &mut Bus)
        requires
            old(bus).wf(),
            old(bus)@.len() == 16,
        ensures
            final(self).stored() == (if set {
                old(bus)@
            } else {
                old(self).stored()
            }),
            final(self).value.output_lines() == gated(final(self).stored(), enable),
            final(self).value.set_on() == set,
            final(self).value.enable_on() == enable,
            final(bus).wf(),
            final(bus).bus_width() == old(bus).bus_width(),
            final(bus)@ == drive_result(old(bus)@, final(self).value.output_lines(), enable),
    {
        let g0 = self.gates[0].update(true, true);
        let g1 = self.gates[1].update(g0, set);
        let g2 = self.gates[2].update(g0, enable);
        if g1 {
            self.value.set();
        } else {
            self.value.unset();
        }
        if g2 {
            self.value.enable();
        } else {
            self.value.disable();
        }
        self.value.update_on(bus);
        assert(old(bus)@.take(16) =~= old(bus)@);
    }
}

impl Cell {
    /// Like `update`, for a cell that takes in one bus and drives another.
    pub fn update_between(&mut self, set: bool, enable: bool, input_bus: &Bus, output_bus: &mut Bus)
        requires
            input_bus@.len() >= 16,
            old(output_bus).wf(),
            old(output_bus)@.len() >= 16,
        ensures
            final(self).stored() == (if set {
                input_bus@.take(16)
            } else {
                old(self).stored()
            }),
            final(self).value.output_lines() == gated(final(self).stored(), enable),
            final(self).value.set_on() == set,
            final(self).value.enable_on() == enable,
            final(output_bus).wf(),
            final(output_bus).bus_width() == old(output_bus).bus_width(),
            final(output_bus)@ == drive_result(
                old(output_bus)@,
                final(self).value.output_lines(),
                enable,
            ),
    {
        let g0 = self.gates[0].update(true, true);
        let g1 = self.gates[1].update(g0, set);
        let g2 = self.gates[2].update(g0, enable);
        if g1 {
            self.value.set();
        } else {
            self.value.unset();
        }
        if g2 {
            self.value.enable();
        } else {
            self.value.disable();
        }
        self.value.update(input_bus, output_bus);
    }
}

/// The cell that the address on the lines `l` (line 0 the most significant)
/// chooses: bits 0 to 7 pick the row, bits 8 to 15 the column, each read by
/// a decoder that takes its low four lines as the group.
pub open spec fn address_index(l: Seq<bool>) -> int {
    let row = 16 * nibble(l[4], l[5], l[6], l[7]) + nibble(l[0], l[1], l[2], l[3]);
    let col = 16 * nibble(l[12], l[13], l[14], l[15]) + nibble(l[8], l[9], l[10], l[11]);
    256 * row + col
}

/// The number four lines spell, `a` the most significant.
#[verifier::opaque]
pub open spec fn nibble(a: bool, b: bool, c: bool, d: bool) -> int {
    index4(a, b, c, d)
}

/// A nibble is the decoder's number for its lines, from 0 to 15.
pub proof fn lemma_nibble(a: bool, b: bool, c: bool, d: bool)
    ensures
        nibble(a, b, c, d) == index4(a, b, c, d),
        0 <= nibble(a, b, c, d) < 16,
{
    reveal(nibble);
}

/// A nibble is a number from 0 to 15.
proof fn lemma_nibble_range(a: bool, b: bool, c: bool, d: bool)
    ensures
        0 <= nibble(a, b, c, d) < 16,
{
    reveal(nibble);
}

/// The lines that spell a nibble are determined by it.
proof fn lemma_nibble_injective(a: bool, b: bool, c: bool, d: bool, e: bool, f: bool, g: bool, h: bool)
    requires
        nibble(a, b, c, d) == nibble(e, f, g, h),
    ensures
        a == e && b == f && c == g && d == h,
{
    reveal(nibble);
}

pub struct Memory64K {
    pub address_register: Register,
    pub row_decoder: Decoder8x256,
    pub col_decoder: Decoder8x256,
    data: Vec<Cell>,
    set: Wire,
    enable: Wire,
}

impl Memory64K {
    /// The memory holds one cell for each address.
    pub closed spec fn wf(&self) -> bool {
        self.data@.len() == MEMORY_WORDS
    }

    /// The address register.
    pub closed spec fn mar(&self) -> Register {
        self.address_register
    }

    /// All the cells.
    pub closed spec fn cells(&self) -> Seq<Cell> {
        self.data@
    }

    /// The word held by cell `i`.
    pub open spec fn word(&self, i: int) -> Seq<bool> {
        self.cells()[i].stored()
    }

    /// The output lines of cell `i`.
    pub open spec fn cell_output(&self, i: int) -> Seq<bool> {
        self.cells()[i].value.output_lines()
    }

    pub closed spec fn set_on(&self) -> bool {
        self.set@
    }

    pub closed spec fn enable_on(&self) -> bool {
        self.enable@
    }

    pub fn new() -> (r: Self)
        ensures
            r.wf(),
            !r.set_on(),
            !r.enable_on(),
            r.mar().stored_lines() == Seq::new(16, |i: int| true),
            !r.mar().set_on(),
            !r.mar().enable_on(),
            forall|i: int| 0 <= i < MEMORY_WORDS ==> #[trigger] r.word(i) == Seq::new(16, |j: int| true),
    {
        let cell = Cell::new();
        let mut data: Vec<Cell> = Vec::new();
        let mut i: usize = 0;
        while i < MEMORY_WORDS
            invariant
                i <= MEMORY_WORDS,
                data@.len() == i,
                cell.stored() == Seq::new(16, |j: int| true),
                forall|j: int| 0 <= j < i ==> #[trigger] data@[j] == cell,
            decreases MEMORY_WORDS - i,
        {
            data.push(cell);
            i += 1;
        }
        Self {
            address_register: Register::new("MAR"),
            row_decoder: Decoder8x256::new(),
            col_decoder: Decoder8x256::new(),
            data,
            set: Wire::with_value(false),
            enable: Wire::with_value(false),
        }
    }

    /// Updates the address register from the bus, then lets the cell it
    /// chooses take in or drive the bus as the set and enable signals say.
    pub fn update(&mut self, bus: &mut Bus)
        requires
            old(self).wf(),
            old(bus).wf(),
            old(bus)@.len() == 16,
        ensures
            final(self).wf(),
            final(self).set_on() == old(self).set_on(),
            final(self).enable_on() == old(self).enable_on(),
            ({
                let mar = old(self).mar();
                let stored = if mar.set_on() {
                    old(bus)@
                } else {
                    mar.stored_lines()
                };
                let mar_out = gated(stored, mar.enable_on());
                let b1 = drive_result(old(bus)@, mar_out, mar.enable_on());
                let k = address_index(stored);
                let cell_stored = if old(self).set_on() {
                    b1
                } else {
                    old(self).word(k)
                };
                let cell_out = gated(cell_stored, old(self).enable_on());
                &&& final(self).mar().stored_lines() == stored
                &&& final(self).mar().output_lines() == mar_out
                &&& final(self).mar().set_on() == mar.set_on()
                &&& final(self).mar().enable_on() == mar.enable_on()
                &&& 0 <= k < MEMORY_WORDS
                &&& final(self).word(k) == cell_stored
                &&& final(self).cell_output(k) == cell_out
                &&& forall|j: int|
                    0 <= j < MEMORY_WORDS && j != k ==> #[trigger] final(self).word(j) == old(
                        self,
                    ).word(j) && final(self).cell_output(j) == old(self).cell_output(j)
                &&& final(bus)@ == drive_result(b1, cell_out, old(self).enable_on())
            }),
            final(bus).wf(),
            final(bus).bus_width() == old(bus).bus_width(),
    {
        self.address_register.update_on(bus);
        proof {
            self.address_register.lemma_shape();
            assert(old(bus)@.take(16) =~= old(bus)@);
        }
        let row = self.decode_row();
        let col = self.decode_col();
        let k = (row as usize) * 256 + (col as usize);
        let mut cell = self.data[k];
        let set = self.set.get();
        let enable = self.enable.get();
        cell.update(set, enable, bus);
        self.data.set(k, cell);
    }
}

impl Memory64K {
    /// Turns the address register's set signal on or off.
    pub fn set_address_register(&mut self, state: bool)
        ensures
            final(self).wf() == old(self).wf(),
            final(self).mar().set_on() == state,
            old(self).mar().set_kept(final(self).mar()),
            final(self).cells() == old(self).cells(),
            final(self).set_on() == old(self).set_on(),
            final(self).enable_on() == old(self).enable_on(),
    {
        if state {
            self.address_register.set();
        } else {
            self.address_register.unset();
        }
    }

    /// Lets the address register alone take in (and, when enabled, drive)
    /// the bus.
    pub fn update_address_register(&mut self, bus: &mut Bus)
        requires
            old(bus).wf(),
            old(bus)@.len() == 16,
        ensures
            final(self).wf() == old(self).wf(),
            final(self).cells() == old(self).cells(),
            final(self).set_on() == old(self).set_on(),
            final(self).enable_on() == old(self).enable_on(),
            final(self).mar().stored_lines() == (if old(self).mar().set_on() {
                old(bus)@
            } else {
                old(self).mar().stored_lines()
            }),
            final(self).mar().word_lines() == final(self).mar().stored_lines(),
            final(self).mar().output_lines() == gated(
                final(self).mar().stored_lines(),
                old(self).mar().enable_on(),
            ),
            final(self).mar().set_on() == old(self).mar().set_on(),
            final(self).mar().enable_on() == old(self).mar().enable_on(),
            final(bus).wf(),
            final(bus).bus_width() == old(bus).bus_width(),
            final(bus)@ == drive_result(
                old(bus)@,
                final(self).mar().output_lines(),
                old(self).mar().enable_on(),
            ),
    {
        self.address_register.update_on(bus);
        assert(old(bus)@.take(16) =~= old(bus)@);
    }
}

impl Enableable for Memory64K {
    /// Whether the chosen word is put on the bus.
    open spec fn is_enabled(&self) -> bool {
        self.enable_on()
    }

    open spec fn enable_kept(self, other: Self) -> bool {
        &&& other.wf() == self.wf()
        &&& other.set_on() == self.set_on()
        &&& other.cells() == self.cells()
        &&& other.mar() == self.mar()
    }

    fn enable(&mut self) {
        self.enable.update(true)
    }

    fn disable(&mut self) {
        self.enable.update(false)
    }
}

impl Settable for Memory64K {
    /// Whether the chosen word takes in the bus.
    open spec fn is_set(&self) -> bool {
        self.set_on()
    }

    open spec fn set_kept(self, other: Self) -> bool {
        &&& other.wf() == self.wf()
        &&& other.enable_on() == self.enable_on()
        &&& other.cells() == self.cells()
        &&& other.mar() == self.mar()
    }

    fn set(&mut self) {
        self.set.update(true)
    }

    fn unset(&mut self) {
        self.set.update(false)
    }
}

impl Memory64K {
    /// Runs lines 0 to 7 of the address register through the row decoder.
    fn decode_row(&mut self) -> (row: i32)
        ensures
            ({
                let l = old(self).address_register.word_lines();
                row == 16 * nibble(l[4], l[5], l[6], l[7]) + nibble(l[0], l[1], l[2], l[3])
            }),
            0 <= row < 256,
            final(self).address_register == old(self).address_register,
            final(self).col_decoder == old(self).col_decoder,
            final(self).data == old(self).data,
            final(self).set == old(self).set,
            final(self).enable == old(self).enable,
    {
        let a0 = self.address_register.bit(0);
        let a1 = self.address_register.bit(1);
        let a2 = self.address_register.bit(2);
        let a3 = self.address_register.bit(3);
        let a4 = self.address_register.bit(4);
        let a5 = self.address_register.bit(5);
        let a6 = self.address_register.bit(6);
        let a7 = self.address_register.bit(7);
        self.row_decoder.update(a0, a1, a2, a3, a4, a5, a6, a7);
        proof {
            lemma_nibble(a0, a1, a2, a3);
            lemma_nibble(a4, a5, a6, a7);
        }
        self.row_decoder.index()
    }

    /// Runs lines 8 to 15 of the address register through the column
    /// decoder.
    fn decode_col(&mut self) -> (col: i32)
        ensures
            ({
                let l = old(self).address_register.word_lines();
                col == 16 * nibble(l[12], l[13], l[14], l[15]) + nibble(l[8], l[9], l[10], l[11])
            }),
            0 <= col < 256,
            final(self).address_register == old(self).address_register,
            final(self).row_decoder == old(self).row_decoder,
            final(self).data == old(self).data,
            final(self).set == old(self).set,
            final(self).enable == old(self).enable,
    {
        let a8 = self.address_register.bit(8);
        let a9 = self.address_register.bit(9);
        let a10 = self.address_register.bit(10);
        let a11 = self.address_register.bit(11);
        let a12 = self.address_register.bit(12);
        let a13 = self.address_register.bit(13);
        let a14 = self.address_register.bit(14);
        let a15 = self.address_register.bit(15);
        self.col_decoder.update(a8, a9, a10, a11, a12, a13, a14, a15);
        proof {
            lemma_nibble(a8, a9, a10, a11);
            lemma_nibble(a12, a13, a14, a15);
        }
        self.col_decoder.index()
    }
}

proof fn lemma_digits(n: int, x1: int, y1: int, x2: int, y2: int)
    requires
        0 < n,
        0 <= y1 < n,
        0 <= y2 < n,
        n * x1 + y1 == n * x2 + y2,
    ensures
        x1 == x2,
        y1 == y2,
{
    if x1 < x2 {
        assert(n * x1 + n <= n * x2) by (nonlinear_arith)
            requires
                x1 < x2,
                0 < n,
        ;
    } else if x2 < x1 {
        assert(n * x2 + n <= n * x1) by (nonlinear_arith)
            requires
                x2 < x1,
                0 < n,
        ;
    }
}

proof fn lemma_address_digits(x1: int, y1: int, u1: int, v1: int, x2: int, y2: int, u2: int, v2: int)
    requires
        0 <= x1 < 16 && 0 <= y1 < 16 && 0 <= u1 < 16 && 0 <= v1 < 16,
        0 <= x2 < 16 && 0 <= y2 < 16 && 0 <= u2 < 16 && 0 <= v2 < 16,
        256 * (16 * x1 + y1) + (16 * u1 + v1) == 256 * (16 * x2 + y2) + (16 * u2 + v2),
    ensures
        x1 == x2 && y1 == y2 && u1 == u2 && v1 == v2,
{
    lemma_digits(256, 16 * x1 + y1, 16 * u1 + v1, 16 * x2 + y2, 16 * u2 + v2);
    lemma_digits(16, x1, y1, x2, y2);
    lemma_digits(16, u1, v1, u2, v2);
}

/// Every address chooses one of the cells.
pub proof fn law_address_index_range(l: Seq<bool>)
    requires
        l.len() == 16,
    ensures
        0 <= address_index(l) < 65536,
{
    lemma_nibble_range(l[0], l[1], l[2], l[3]);
    lemma_nibble_range(l[4], l[5], l[6], l[7]);
    lemma_nibble_range(l[8], l[9], l[10], l[11]);
    lemma_nibble_range(l[12], l[13], l[14], l[15]);
    let row = 16 * nibble(l[4], l[5], l[6], l[7]) + nibble(l[0], l[1], l[2], l[3]);
    let col = 16 * nibble(l[12], l[13], l[14], l[15]) + nibble(l[8], l[9], l[10], l[11]);
    assert(0 <= row < 256);
    assert(0 <= col < 256);
}

/// Distinct addresses choose distinct cells: a word written at one address
/// is not seen at any other.
pub proof fn law_address_index_distinct(l1: Seq<bool>, l2: Seq<bool>)
    requires
        l1.len() == 16,
        l2.len() == 16,
        address_index(l1) == address_index(l2),
    ensures
        l1 == l2,
{
    let x1 = nibble(l1[4], l1[5], l1[6], l1[7]);
    let y1 = nibble(l1[0], l1[1], l1[2], l1[3]);
    let u1 = nibble(l1[12], l1[13], l1[14], l1[15]);
    let v1 = nibble(l1[8], l1[9], l1[10], l1[11]);
    let x2 = nibble(l2[4], l2[5], l2[6], l2[7]);
    let y2 = nibble(l2[0], l2[1], l2[2], l2[3]);
    let u2 = nibble(l2[12], l2[13], l2[14], l2[15]);
    let v2 = nibble(l2[8], l2[9], l2[10], l2[11]);
    assert(256 * (16 * x1 + y1) + (16 * u1 + v1) == 256 * (16 * x2 + y2) + (16 * u2 + v2));
    lemma_nibble_range(l1[0], l1[1], l1[2], l1[3]);
    lemma_nibble_range(l1[4], l1[5], l1[6], l1[7]);
    lemma_nibble_range(l1[8], l1[9], l1[10], l1[11]);
    lemma_nibble_range(l1[12], l1[13], l1[14], l1[15]);
    lemma_nibble_range(l2[0], l2[1], l2[2], l2[3]);
    lemma_nibble_range(l2[4], l2[5], l2[6], l2[7]);
    lemma_nibble_range(l2[8], l2[9], l2[10], l2[11]);
    lemma_nibble_range(l2[12], l2[13], l2[14], l2[15]);
    lemma_address_digits(x1, y1, u1, v1, x2, y2, u2, v2);
    assert(x1 == x2 && y1 == y2 && u1 == u2 && v1 == v2);
    lemma_lines_from_nibbles(l1, l2);
}

proof fn lemma_lines_from_nibbles(l1: Seq<bool>, l2: Seq<bool>)
    requires
        l1.len() == 16,
        l2.len() == 16,
        nibble(l1[0], l1[1], l1[2], l1[3]) == nibble(l2[0], l2[1], l2[2], l2[3]),
        nibble(l1[4], l1[5], l1[6], l1[7]) == nibble(l2[4], l2[5], l2[6], l2[7]),
        nibble(l1[8], l1[9], l1[10], l1[11]) == nibble(l2[8], l2[9], l2[10], l2[11]),
        nibble(l1[12], l1[13], l1[14], l1[15]) == nibble(l2[12], l2[13], l2[14], l2[15]),
    ensures
        l1 == l2,
{
    lemma_nibble_injective(l1[0], l1[1], l1[2], l1[3], l2[0], l2[1], l2[2], l2[3]);
    lemma_nibble_injective(l1[4], l1[5], l1[6], l1[7], l2[4], l2[5], l2[6], l2[7]);
    lemma_nibble_injective(l1[8], l1[9], l1[10], l1[11], l2[8], l2[9], l2[10], l2[11]);
    lemma_nibble_injective(l1[12], l1[13], l1[14], l1[15], l2[12], l2[13], l2[14], l2[15]);
    lemma_lines_equal(l1, l2);
}

proof fn lemma_lines_equal(l1: Seq<bool>, l2: Seq<bool>)
    requires
        l1.len() == 16,
        l2.len() == 16,
        l1[0] == l2[0],
        l1[1] == l2[1],
        l1[2] == l2[2],
        l1[3] == l2[3],
        l1[4] == l2[4],
        l1[5] == l2[5],
        l1[6] == l2[6],
        l1[7] == l2[7],
        l1[8] == l2[8],
        l1[9] == l2[9],
        l1[10] == l2[10],
        l1[11] == l2[11],
        l1[12] == l2[12],
        l1[13] == l2[13],
        l1[14] == l2[14],
        l1[15] == l2[15],
    ensures
        l1 == l2,
{
    assert(l1 =~= l2);
}

} // verus!
