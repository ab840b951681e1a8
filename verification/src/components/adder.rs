//! Binary addition: a full adder for one bit, and sixteen of them chained
//! into a ripple-carry adder.
use super::Component;
use crate::bits::{bit, bits_value, lemma_bits_value_bound, lemma_bits_value_prepend, lemma_p2_values, p2};
use crate::gates::{lines_of, Wire, AND, OR, XOR};
use vstd::prelude::*;

verus! {

/// Adds three bits: the sum bit and the carry to the next position.
#[derive(Clone, Copy, Debug)]
pub struct FullAdder {
    pub input_a: Wire,
    pub input_b: Wire,
    pub carry_in: Wire,
    pub xor1: XOR,
    pub xor2: XOR,
    pub and1: AND,
    pub and2: AND,
    pub or: OR,
    pub carry_out: Wire,
    pub sum: Wire,
}

impl FullAdder {
    pub fn new() -> (r: Self)
        ensures
            !r.sum@,
            !r.carry_out@,
    {
        let w = Wire::with_value(false);
        Self {
            input_a: w,
            input_b: w,
            carry_in: w,
            xor1: XOR::new(),
            xor2: XOR::new(),
            and1: AND::new(),
            and2: AND::new(),
            or: OR::new(),
            carry_out: w,
            sum: w,
        }
    }

    pub fn update(&mut self, value_a: bool, value_b: bool, carry_in: bool)
        ensures
            final(self).sum@ == ((value_a != value_b) != carry_in),
            final(self).carry_out@ == ((carry_in && (value_a != value_b)) || (value_a && value_b)),
            bit(value_a) + bit(value_b) + bit(carry_in) == bit(final(self).sum@) + 2 * bit(
                final(self).carry_out@,
            ),
    {
        self.input_a.update(value_a);
        self.input_b.update(value_b);
        self.carry_in.update(carry_in);
        let a = self.input_a.get();
        let b = self.input_b.get();
        let c = self.carry_in.get();
        self.xor1.update(a, b);
        let x1 = self.xor1.get();
        self.xor2.update(x1, c);
        let x2 = self.xor2.get();
        self.sum.update(x2);
        self.and1.update(c, x1);
        self.and2.update(a, b);
        let a1 = self.and1.get();
        let a2 = self.and2.get();
        self.or.update(a1, a2);
        let o = self.or.get();
        self.carry_out.update(o)
    }

    pub fn get_sum(&self) -> (r: bool)
        ensures
            r == self.sum@,
    {
        self.sum.get()
    }

    pub fn get_carry_out(&self) -> (r: bool)
        ensures
            r == self.carry_out@,
    {
        self.carry_out.get()
    }
}

proof fn lemma_bit_times(b: bool, p: nat)
    ensures
        bit(b) * p == (if b {
            p
        } else {
            0
        }),
{
}

/// One step of the carry chain: taking one more position of the two words
/// into the sum keeps the partial sums equal.
proof fn lemma_ripple_step(
    a: Seq<bool>,
    b: Seq<bool>,
    s: Seq<bool>,
    i: int,
    carry0: bool,
    c_in: bool,
    c_out: bool,
)
    requires
        a.len() == 16,
        b.len() == 16,
        s.len() == 16,
        1 <= i <= 16,
        bits_value(a.subrange(i, 16)) + bits_value(b.subrange(i, 16)) + bit(carry0) == bits_value(
            s.subrange(i, 16),
        ) + bit(c_in) * p2((16 - i) as nat),
        bit(a[i - 1]) + bit(b[i - 1]) + bit(c_in) == bit(s[i - 1]) + 2 * bit(c_out),
    ensures
        bits_value(a.subrange(i - 1, 16)) + bits_value(b.subrange(i - 1, 16)) + bit(carry0)
            == bits_value(s.subrange(i - 1, 16)) + bit(c_out) * p2((17 - i) as nat),
{
    let p = p2((16 - i) as nat);
    assert(p2((17 - i) as nat) == 2 * p);
    lemma_bits_value_prepend(a.subrange(i - 1, 16));
    lemma_bits_value_prepend(b.subrange(i - 1, 16));
    lemma_bits_value_prepend(s.subrange(i - 1, 16));
    assert(a.subrange(i - 1, 16).drop_first() =~= a.subrange(i, 16));
    assert(b.subrange(i - 1, 16).drop_first() =~= b.subrange(i, 16));
    assert(s.subrange(i - 1, 16).drop_first() =~= s.subrange(i, 16));
    lemma_bit_times(a[i - 1], p);
    lemma_bit_times(b[i - 1], p);
    lemma_bit_times(s[i - 1], p);
    lemma_bit_times(c_in, p);
    lemma_bit_times(c_out, 2 * p);
}

/// A 16-bit ripple-carry adder.  Input lines 0 to 15 carry one word, lines
/// 16 to 31 the other.
#[derive(Clone, Copy, Debug)]
pub struct Adder {
    inputs: [Wire; 32],
    carry_in: Wire,
    pub adds: [FullAdder; 16],
    carry_out: Wire,
    outputs: [Wire; 16],
}

impl Adder {
    pub closed spec fn input_lines(&self) -> Seq<bool> {
        lines_of(self.inputs@)
    }

    pub closed spec fn output_lines(&self) -> Seq<bool> {
        lines_of(self.outputs@)
    }

    pub closed spec fn carry(&self) -> bool {
        self.carry_out@
    }

    /// The first word on the input lines.
    pub open spec fn word_a(&self) -> nat {
        bits_value(self.input_lines().subrange(0, 16))
    }

    /// The second word on the input lines.
    pub open spec fn word_b(&self) -> nat {
        bits_value(self.input_lines().subrange(16, 32))
    }

    pub proof fn lemma_shape(&self)
        ensures
            self.input_lines().len() == 32,
            self.output_lines().len() == 16,
    {
    }

    pub fn new() -> (r: Self)
        ensures
            r.input_lines() == Seq::new(32, |i: int| false),
            r.output_lines() == Seq::new(16, |i: int| false),
            !r.carry(),
    {
        let w = Wire::with_value(false);
        let f = FullAdder::new();
        let r = Self { inputs: [w; 32], carry_in: w, adds: [f; 16], carry_out: w, outputs: [w; 16] };
        assert(r.input_lines() =~= Seq::new(32, |i: int| false));
        assert(r.output_lines() =~= Seq::new(16, |i: int| false));
        r
    }

    pub fn get_carry_out(&self) -> (r: bool)
        ensures
            r == self.carry(),
    {
        self.carry_out.get()
    }

    /// Adds the two words and the carry in, from the least significant
    /// position up.
    pub fn update(&mut self, carry_in: bool)
        ensures
            final(self).input_lines() == old(self).input_lines(),
            bits_value(final(self).output_lines()) == (old(self).word_a() + old(self).word_b() + bit(
                carry_in,
            )) % 65536,
            final(self).carry() == (old(self).word_a() + old(self).word_b() + bit(carry_in)
                >= 65536),
    {
        let ghost a = old(self).input_lines().subrange(0, 16);
        let ghost b = old(self).input_lines().subrange(16, 32);
        self.carry_in.update(carry_in);
        let mut i: usize = 16;
        proof {
            lemma_p2_values();
            assert(a.subrange(16, 16) =~= Seq::<bool>::empty());
            assert(b.subrange(16, 16) =~= Seq::<bool>::empty());
            assert(lines_of(self.outputs@).subrange(16, 16) =~= Seq::<bool>::empty());
        }
        while i > 0
            invariant
                i <= 16,
                self.inputs == old(self).inputs,
                a == lines_of(self.inputs@).subrange(0, 16),
                b == lines_of(self.inputs@).subrange(16, 32),
                self.carry_in@ == self.carry_out@ || i == 16,
                bits_value(a.subrange(i as int, 16)) + bits_value(b.subrange(i as int, 16)) + bit(
                    carry_in,
                ) == bits_value(lines_of(self.outputs@).subrange(i as int, 16)) + bit(self.carry_in@)
                    * p2((16 - i) as nat),
                i == 16 ==> self.carry_in@ == carry_in,
                i < 16 ==> self.carry_out@ == self.carry_in@,
            decreases i,
        {
            let ghost prev = lines_of(self.outputs@);
            let ghost c_in = self.carry_in@;
            let a_val = self.inputs[16 + i - 1].get();
            let b_val = self.inputs[i - 1].get();
            let c = self.carry_in.get();
            self.adds[i - 1].update(a_val, b_val, c);
            let s = self.adds[i - 1].get_sum();
            let co = self.adds[i - 1].get_carry_out();
            self.outputs[i - 1].update(s);
            self.carry_out.update(co);
            self.carry_in.update(co);
            proof {
                let out = lines_of(self.outputs@);
                assert(out.subrange(i as int, 16) =~= prev.subrange(i as int, 16));
                assert(a[i - 1] == self.inputs[i - 1]@);
                assert(b[i - 1] == self.inputs[16 + i - 1]@);
                lemma_ripple_step(a, b, out, i as int, carry_in, c_in, co);
            }
            i -= 1;
        }
        proof {
            let out = lines_of(self.outputs@);
            assert(a.subrange(0, 16) =~= a);
            assert(b.subrange(0, 16) =~= b);
            assert(out.subrange(0, 16) =~= out);
            lemma_bits_value_bound(out);
        }
        assert(self.input_lines() =~= old(self).input_lines());
    }
}

impl Component for Adder {
    open spec fn inputs(&self) -> Seq<bool> {
        self.input_lines()
    }

    open spec fn has_output(&self, i: int) -> bool {
        0 <= i < 16
    }

    open spec fn output_at(&self, i: int) -> bool {
        self.output_lines()[i]
    }

    fn set_input_wire(&mut self, i: i32, value: bool)
        ensures
            final(self).input_lines() == old(self).input_lines().update(i as int, value),
            final(self).output_lines() == old(self).output_lines(),
            final(self).carry() == old(self).carry(),
    {
        self.inputs[i as usize].update(value);
        assert(self.input_lines() =~= old(self).input_lines().update(i as int, value));
        assert(self.output_lines() =~= old(self).output_lines());
    }

    fn get_output_wire(&self, i: i32) -> (r: bool)
        ensures
            r == self.output_lines()[i as int],
    {
        self.outputs[i as usize].get()
    }
}

} // verus!
