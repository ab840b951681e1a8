//! Sixteen gates side by side: the bitwise operations of the arithmetic and
//! logic unit.
use super::Component;
use crate::bits::{
    bits_value, lemma_bits_value_bitwise, lemma_bits_value_bound, lemma_bits_value_not,
    lemma_p2_values, lines_and, lines_not, lines_or, lines_xor, word_value,
};
use crate::gates::{lines_of, Wire, AND, NOT, OR, XOR};
use vstd::prelude::*;

verus! {

/// Sixteen AND gates: the bitwise AND of two words.
#[derive(Clone, Copy, Debug)]
pub struct ANDer {
    inputs: [Wire; 32],
    pub gates: [AND; 16],
    outputs: [Wire; 16],
}

impl ANDer {
    pub closed spec fn input_lines(&self) -> Seq<bool> {
        lines_of(self.inputs@)
    }

    pub closed spec fn output_lines(&self) -> Seq<bool> {
        lines_of(self.outputs@)
    }

    /// A gate row has 32 input lines and 16 output lines.
    pub proof fn lemma_shape(&self)
        ensures
            self.input_lines().len() == 32,
            self.output_lines().len() == 16,
    {
    }

    pub fn new() -> (r: Self)
        ensures
            r.input_lines() == Seq::new(32, |i: int| false),
            r.output_lines() == Seq::new(16, |i: int| false),
    {
        let w = Wire::with_value(false);
        let g = AND::new();
        let r = Self { inputs: [w; 32], gates: [g; 16], outputs: [w; 16] };
        assert(r.input_lines() =~= Seq::new(32, |i: int| false));
        assert(r.output_lines() =~= Seq::new(16, |i: int| false));
        r
    }

    /// Combines input line `i` with input line `16 + i` for each `i`.
    pub fn update(&mut self)
        ensures
            final(self).input_lines() == old(self).input_lines(),
            final(self).output_lines() == lines_and(
                old(self).input_lines().subrange(0, 16),
                old(self).input_lines().subrange(16, 32),
            ),
            word_value(final(self).output_lines()) == (word_value(
                old(self).input_lines().subrange(0, 16),
            ) & word_value(old(self).input_lines().subrange(16, 32))),
    {
        let ghost a = old(self).input_lines().subrange(0, 16);
        let ghost b = old(self).input_lines().subrange(16, 32);
        let mut i: usize = 0;
        while i < 16
            invariant
                i <= 16,
                self.inputs == old(self).inputs,
                a == lines_of(self.inputs@).subrange(0, 16),
                b == lines_of(self.inputs@).subrange(16, 32),
                forall|j: int|
                    0 <= j < i ==> (#[trigger] self.outputs[j])@ == lines_and(a, b)[j],
            decreases 16 - i,
        {
            let x = self.inputs[16 + i].get();
            let y = self.inputs[i].get();
            self.gates[i].update(x, y);
            let out = self.gates[i].get();
            self.outputs[i].update(out);
            i += 1;
        }
        assert(self.output_lines() =~= lines_and(a, b));
        assert(self.input_lines() =~= old(self).input_lines());
        proof {
            lemma_bits_value_bitwise(a, b);
            lemma_bits_value_bound(a);
            lemma_bits_value_bound(b);
            lemma_p2_values();
        }
    }
}

impl Component for ANDer {
    open spec fn inputs(&self) -> Seq<bool> {
        self.input_lines()
    }

    open spec fn has_output(&self, i: int) -> bool {
        0 <= i < 16
    }

    open spec fn output_at(&self, i: int) -> bool {
        self.output_lines()[i]
    }

    fn set_input_wire(&mut self, i: i32, value: bool)
        ensures
            final(self).input_lines() == old(self).input_lines().update(i as int, value),
            final(self).output_lines() == old(self).output_lines(),
    {
        self.inputs[i as usize].update(value);
        assert(self.input_lines() =~= old(self).input_lines().update(i as int, value));
        assert(self.output_lines() =~= old(self).output_lines());
    }

    fn get_output_wire(&self, i: i32) -> (r: bool)
        ensures
            r == self.output_lines()[i as int],
    {
        self.outputs[i as usize].get()
    }
}

/// Sixteen NOT gates: the bitwise complement of a word.
#[derive(Clone, Copy, Debug)]
pub struct NOTer {
    inputs: [Wire; 16],
    pub gates: [NOT; 16],
    outputs: [Wire; 16],
}

impl NOTer {
    pub proof fn lemma_shape(&self)
        ensures
            self.input_lines().len() == 16,
            self.output_lines().len() == 16,
    {
    }

    pub closed spec fn input_lines(&self) -> Seq<bool> {
        lines_of(self.inputs@)
    }

    pub closed spec fn output_lines(&self) -> Seq<bool> {
        lines_of(self.outputs@)
    }

    pub fn new() -> (r: Self)
        ensures
            r.input_lines() == Seq::new(16, |i: int| false),
            r.output_lines() == Seq::new(16, |i: int| false),
    {
        let w = Wire::with_value(false);
        let g = NOT::new();
        let r = Self { inputs: [w; 16], gates: [g; 16], outputs: [w; 16] };
        assert(r.input_lines() =~= Seq::new(16, |i: int| false));
        assert(r.output_lines() =~= Seq::new(16, |i: int| false));
        r
    }

    /// Inverts every input line.
    pub fn update(&mut self)
        ensures
            final(self).input_lines() == old(self).input_lines(),
            final(self).output_lines() == lines_not(old(self).input_lines()),
            word_value(final(self).output_lines()) == !word_value(old(self).input_lines()),
    {
        let mut i: usize = 0;
        while i < 16
            invariant
                i <= 16,
                self.inputs == old(self).inputs,
                forall|j: int| 0 <= j < i ==> (#[trigger] self.outputs[j])@ == !old(self).inputs[j]@,
            decreases 16 - i,
        {
            let x = self.inputs[i].get();
            self.gates[i].update(x);
            let out = self.gates[i].get();
            self.outputs[i].update(out);
            i += 1;
        }
        assert(self.output_lines() =~= lines_not(old(self).input_lines()));
        assert(self.input_lines() =~= old(self).input_lines());
        proof {
            let a = old(self).input_lines();
            lemma_bits_value_not(a);
            lemma_bits_value_bound(a);
            lemma_p2_values();
            let v = bits_value(a) as u16;
            assert(!v == 65535 - v) by (bit_vector);
        }
    }
}

impl Component for NOTer {
    open spec fn inputs(&self) -> Seq<bool> {
        self.input_lines()
    }

    open spec fn has_output(&self, i: int) -> bool {
        0 <= i < 16
    }

    open spec fn output_at(&self, i: int) -> bool {
        self.output_lines()[i]
    }

    fn set_input_wire(&mut self, i: i32, value: bool)
        ensures
            final(self).input_lines() == old(self).input_lines().update(i as int, value),
            final(self).output_lines() == old(self).output_lines(),
    {
        self.inputs[i as usize].update(value);
        assert(self.input_lines() =~= old(self).input_lines().update(i as int, value));
        assert(self.output_lines() =~= old(self).output_lines());
    }

    fn get_output_wire(&self, i: i32) -> (r: bool)
        ensures
            r == self.output_lines()[i as int],
    {
        self.outputs[i as usize].get()
    }
}

/// Sixteen OR gates: the bitwise OR of two words.
#[derive(Clone, Copy, Debug)]
pub struct ORer {
    inputs: [Wire; 32],
    pub gates: [OR; 16],
    pub outputs: [Wire; 16],
}

impl ORer {
    pub closed spec fn input_lines(&self) -> Seq<bool> {
        lines_of(self.inputs@)
    }

    pub closed spec fn output_lines(&self) -> Seq<bool> {
        lines_of(self.outputs@)
    }

    /// A gate row has 32 input lines and 16 output lines.
    pub proof fn lemma_shape(&self)
        ensures
            self.input_lines().len() == 32,
            self.output_lines().len() == 16,
    {
    }

    pub fn new() -> (r: Self)
        ensures
            r.input_lines() == Seq::new(32, |i: int| false),
            r.output_lines() == Seq::new(16, |i: int| false),
    {
        let w = Wire::with_value(false);
        let g = OR::new();
        let r = Self { inputs: [w; 32], gates: [g; 16], outputs: [w; 16] };
        assert(r.input_lines() =~= Seq::new(32, |i: int| false));
        assert(r.output_lines() =~= Seq::new(16, |i: int| false));
        r
    }

    /// Combines input line `i` with input line `16 + i` for each `i`.
    pub fn update(&mut self)
        ensures
            final(self).input_lines() == old(self).input_lines(),
            final(self).output_lines() == lines_or(
                old(self).input_lines().subrange(0, 16),
                old(self).input_lines().subrange(16, 32),
            ),
            word_value(final(self).output_lines()) == (word_value(
                old(self).input_lines().subrange(0, 16),
            ) | word_value(old(self).input_lines().subrange(16, 32))),
    {
        let ghost a = old(self).input_lines().subrange(0, 16);
        let ghost b = old(self).input_lines().subrange(16, 32);
        let mut i: usize = 0;
        while i < 16
            invariant
                i <= 16,
                self.inputs == old(self).inputs,
                a == lines_of(self.inputs@).subrange(0, 16),
                b == lines_of(self.inputs@).subrange(16, 32),
                forall|j: int|
                    0 <= j < i ==> (#[trigger] self.outputs[j])@ == lines_or(a, b)[j],
            decreases 16 - i,
        {
            let x = self.inputs[16 + i].get();
            let y = self.inputs[i].get();
            self.gates[i].update(x, y);
            let out = self.gates[i].get();
            self.outputs[i].update(out);
            i += 1;
        }
        assert(self.output_lines() =~= lines_or(a, b));
        assert(self.input_lines() =~= old(self).input_lines());
        proof {
            lemma_bits_value_bitwise(a, b);
            lemma_bits_value_bound(a);
            lemma_bits_value_bound(b);
            lemma_p2_values();
        }
    }
}

impl Component for ORer {
    open spec fn inputs(&self) -> Seq<bool> {
        self.input_lines()
    }

    open spec fn has_output(&self, i: int) -> bool {
        0 <= i < 16
    }

    open spec fn output_at(&self, i: int) -> bool {
        self.output_lines()[i]
    }

    fn set_input_wire(&mut self, i: i32, value: bool)
        ensures
            final(self).input_lines() == old(self).input_lines().update(i as int, value),
            final(self).output_lines() == old(self).output_lines(),
    {
        self.inputs[i as usize].update(value);
        assert(self.input_lines() =~= old(self).input_lines().update(i as int, value));
        assert(self.output_lines() =~= old(self).output_lines());
    }

    fn get_output_wire(&self, i: i32) -> (r: bool)
        ensures
            r == self.output_lines()[i as int],
    {
        self.outputs[i as usize].get()
    }
}

/// Sixteen XOR gates: the bitwise XOR of two words.
#[derive(Clone, Copy, Debug)]
pub struct XORer {
    inputs: [Wire; 32],
    pub gates: [XOR; 16],
    outputs: [Wire; 16],
}

impl XORer {
    pub closed spec fn input_lines(&self) -> Seq<bool> {
        lines_of(self.inputs@)
    }

    pub closed spec fn output_lines(&self) -> Seq<bool> {
        lines_of(self.outputs@)
    }

    /// A gate row has 32 input lines and 16 output lines.
    pub proof fn lemma_shape(&self)
        ensures
            self.input_lines().len() == 32,
            self.output_lines().len() == 16,
    {
    }

    pub fn new() -> (r: Self)
        ensures
            r.input_lines() == Seq::new(32, |i: int| false),
            r.output_lines() == Seq::new(16, |i: int| false),
    {
        let w = Wire::with_value(false);
        let g = XOR::new();
        let r = Self { inputs: [w; 32], gates: [g; 16], outputs: [w; 16] };
        assert(r.input_lines() =~= Seq::new(32, |i: int| false));
        assert(r.output_lines() =~= Seq::new(16, |i: int| false));
        r
    }

    /// Combines input line `i` with input line `16 + i` for each `i`.
    pub fn update(&mut self)
        ensures
            final(self).input_lines() == old(self).input_lines(),
            final(self).output_lines() == lines_xor(
                old(self).input_lines().subrange(0, 16),
                old(self).input_lines().subrange(16, 32),
            ),
            word_value(final(self).output_lines()) == (word_value(
                old(self).input_lines().subrange(0, 16),
            ) ^ word_value(old(self).input_lines().subrange(16, 32))),
    {
        let ghost a = old(self).input_lines().subrange(0, 16);
        let ghost b = old(self).input_lines().subrange(16, 32);
        let mut i: usize = 0;
        while i < 16
            invariant
                i <= 16,
                self.inputs == old(self).inputs,
                a == lines_of(self.inputs@).subrange(0, 16),
                b == lines_of(self.inputs@).subrange(16, 32),
                forall|j: int|
                    0 <= j < i ==> (#[trigger] self.outputs[j])@ == lines_xor(a, b)[j],
            decreases 16 - i,
        {
            let x = self.inputs[16 + i].get();
            let y = self.inputs[i].get();
            self.gates[i].update(x, y);
            let out = self.gates[i].get();
            self.outputs[i].update(out);
            i += 1;
        }
        assert(self.output_lines() =~= lines_xor(a, b));
        assert(self.input_lines() =~= old(self).input_lines());
        proof {
            lemma_bits_value_bitwise(a, b);
            lemma_bits_value_bound(a);
            lemma_bits_value_bound(b);
            lemma_p2_values();
        }
    }
}

impl Component for XORer {
    open spec fn inputs(&self) -> Seq<bool> {
        self.input_lines()
    }

    open spec fn has_output(&self, i: int) -> bool {
        0 <= i < 16
    }

    open spec fn output_at(&self, i: int) -> bool {
        self.output_lines()[i]
    }

    fn set_input_wire(&mut self, i: i32, value: bool)
        ensures
            final(self).input_lines() == old(self).input_lines().update(i as int, value),
            final(self).output_lines() == old(self).output_lines(),
    {
        self.inputs[i as usize].update(value);
        assert(self.input_lines() =~= old(self).input_lines().update(i as int, value));
        assert(self.output_lines() =~= old(self).output_lines());
    }

    fn get_output_wire(&self, i: i32) -> (r: bool)
        ensures
            r == self.output_lines()[i as int],
    {
        self.outputs[i as usize].get()
    }
}

} // verus!
