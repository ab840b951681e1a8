//! A bus: a row of wires shared by the components connected to it.
use super::Component;
use crate::bits::{
    bit_of, bits_value, lemma_bits_value_bound, lemma_p2_mono, lemma_p2_values, lemma_word_bits_value,
    word_bits, word_value,
};
use crate::gates::{lines_of, Wire};
use vstd::prelude::*;

verus! {

/// A bundle of parallel wires.  Line 0 carries the most significant bit.
#[derive(Clone, Debug)]
pub struct Bus {
    wires: Vec<Wire>,
    pub width: i32,
}

impl View for Bus {
    type V = Seq<bool>;

    closed spec fn view(&self) -> Seq<bool> {
        lines_of(self.wires@)
    }
}

/// The number of lines a bus of the given width has.
pub open spec fn line_count(width: i32) -> nat {
    if width < 0 {
        0
    } else {
        width as nat
    }
}

/// The lines that carry `value` on a bus of `n` lines, most significant bit
/// first.
pub open spec fn value_lines(value: u16, n: nat) -> Seq<bool> {
    Seq::new(n, |i: int| bit_of(value, n - 1 - i))
}

impl Bus {
    /// The width the bus was made with.
    pub closed spec fn bus_width(&self) -> i32 {
        self.width
    }

    /// The bus has as many lines as its width says.
    pub closed spec fn wf(&self) -> bool {
        self.wires@.len() == line_count(self.width)
    }

    pub fn new(width: i32) -> (r: Self)
        ensures
            r.wf(),
            r.bus_width() == width,
            r@ == Seq::new(line_count(width), |i: int| false),
    {
        let mut wires: Vec<Wire> = Vec::new();
        let mut i: i32 = 0;
        while i < width
            invariant
                0 <= i,
                i <= width || width < 0,
                width < 0 ==> i == 0,
                wires@.len() == i,
                forall|j: int| 0 <= j < i ==> !(#[trigger] wires@[j])@,
            decreases width - i,
        {
            wires.push(Wire::with_value(false));
            i += 1;
        }
        let r = Self { wires, width };
        assert(r@ =~= Seq::new(line_count(width), |i: int| false));
        r
    }

    /// Puts `value` on the bus, its least significant bit on the last line.
    pub fn set_value(&mut self, value: u16)
        requires
            old(self).wf(),
            old(self).bus_width() <= 16,
        ensures
            final(self).wf(),
            final(self).bus_width() == old(self).bus_width(),
            final(self)@ == value_lines(value, line_count(old(self).bus_width())),
            final(self).bus_width() == 16 ==> final(self)@ == word_bits(value),
            final(self).bus_width() == 16 ==> word_value(final(self)@) == value,
    {
        let n = self.wires.len();
        let ghost len = line_count(self.width);
        let mut i: usize = 0;
        while i < n
            invariant
                n == self.wires@.len(),
                n == len,
                n <= 16,
                i <= n,
                self.width == old(self).bus_width(),
                forall|j: int| 0 <= j < i ==> (#[trigger] self.wires@[j])@ == bit_of(value, n - 1 - j),
            decreases n - i,
        {
            let shift = (n - 1 - i) as u16;
            let line = (value >> shift) & 1u16 == 1u16;
            self.wires.set(i, Wire::with_value(line));
            i += 1;
        }
        assert(self@ =~= value_lines(value, len));
        proof {
            if self.width == 16 {
                assert(self@ =~= word_bits(value));
                lemma_word_bits_value(value);
            }
        }
    }

    /// The number on the bus, the last line being the least significant bit.
    pub fn get_value(&self) -> (r: u16)
        requires
            self.wf(),
            self.bus_width() <= 16,
        ensures
            r == bits_value(self@),
            self.bus_width() == 16 ==> r == word_value(self@),
    {
        let n = self.wires.len();
        let mut result: u16 = 0;
        let mut i: usize = 0;
        while i < n
            invariant
                n == self.wires@.len(),
                n <= 16,
                i <= n,
                result == bits_value(self@.take(i as int)),
            decreases n - i,
        {
            proof {
                lemma_bits_value_bound(self@.take(i as int));
                lemma_p2_mono((i + 1) as nat, 16);
                lemma_p2_values();
                assert(self@.take(i + 1).drop_last() =~= self@.take(i as int));
            }
            let line = self.wires[i].get();
            result = result * 2 + if line {
                1
            } else {
                0
            };
            i += 1;
        }
        assert(self@.take(n as int) =~= self@);
        result
    }
}

impl Component for Bus {
    open spec fn inputs(&self) -> Seq<bool> {
        self@
    }

    open spec fn has_output(&self, i: int) -> bool {
        0 <= i < self@.len()
    }

    open spec fn output_at(&self, i: int) -> bool {
        self@[i]
    }

    fn set_input_wire(&mut self, i: i32, value: bool)
        ensures
            final(self)@ == old(self)@.update(i as int, value),
            final(self).bus_width() == old(self).bus_width(),
            old(self).wf() ==> final(self).wf(),
    {
        self.wires.set(i as usize, Wire::with_value(value));
        assert(self@ =~= old(self)@.update(i as int, value));
    }

    fn get_output_wire(&self, i: i32) -> (r: bool)
        ensures
            r == self@[i as int],
    {
        self.wires[i as usize].get()
    }
}

/// A value put on a sixteen-line bus is the value read back from it.
pub proof fn law_bus_value_round_trip(value: u16)
    ensures
        word_value(value_lines(value, 16)) == value,
{
    assert(value_lines(value, 16) =~= word_bits(value));
    lemma_word_bits_value(value);
}

} // verus!
