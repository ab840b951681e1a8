//! Magnitude comparison of two words, one bit position at a time from the
//! most significant end.
use super::{ANDGate3, Component};
use crate::bits::{bit, bits_value, lines_xor};
use crate::gates::{lines_of, Wire, AND, NOT, OR, XOR};
use vstd::prelude::*;

verus! {

/// Compares one bit position, given what the more significant positions
/// decided.
#[derive(Clone, Copy, Debug)]
pub struct Compare2 {
    pub input_a: Wire,
    pub input_b: Wire,
    pub xor1: XOR,
    pub not1: NOT,
    pub and1: AND,
    pub and_gate3: ANDGate3,
    pub or1: OR,
    pub out: Wire,
    pub equal_in: Wire,
    pub equal_out: Wire,
    pub is_larger_in: Wire,
    pub is_larger_out: Wire,
}

impl Compare2 {
    pub fn new() -> (r: Self)
        ensures
            !r.equal_out@,
            !r.is_larger_out@,
            !r.out@,
    {
        let w = Wire::with_value(false);
        Self {
            input_a: w,
            input_b: w,
            xor1: XOR::new(),
            not1: NOT::new(),
            and1: AND::new(),
            and_gate3: ANDGate3::new(),
            or1: OR::new(),
            out: w,
            equal_in: w,
            equal_out: w,
            is_larger_in: w,
            is_larger_out: w,
        }
    }

    pub fn equal(&self) -> (r: bool)
        ensures
            r == self.equal_out@,
    {
        self.equal_out.get()
    }

    pub fn larger(&self) -> (r: bool)
        ensures
            r == self.is_larger_out@,
    {
        self.is_larger_out.get()
    }

    pub fn get(&self) -> (r: bool)
        ensures
            r == self.out@,
    {
        self.out.get()
    }

    /// The words are still equal when they were so far and the bits agree;
    /// `a` is larger when it was already, or the words were equal so far and
    /// only `a` has this bit.
    pub fn update(&mut self, input_a: bool, input_b: bool, equal_in: bool, is_larger_in: bool)
        ensures
            final(self).out@ == (input_a != input_b),
            final(self).equal_out@ == (equal_in && input_a == input_b),
            final(self).is_larger_out@ == (is_larger_in || (equal_in && input_a && !input_b)),
    {
        self.input_a.update(input_a);
        self.input_b.update(input_b);
        self.equal_in.update(equal_in);
        self.is_larger_in.update(is_larger_in);
        let a = self.input_a.get();
        let b = self.input_b.get();
        let eq = self.equal_in.get();
        let lg = self.is_larger_in.get();
        self.xor1.update(a, b);
        let x = self.xor1.get();
        self.not1.update(x);
        let n = self.not1.get();
        self.and1.update(n, eq);
        let e = self.and1.get();
        self.equal_out.update(e);
        self.and_gate3.update(eq, a, x);
        let g = self.and_gate3.get();
        self.or1.update(g, lg);
        let l = self.or1.get();
        self.is_larger_out.update(l);
        self.out.update(x)
    }
}

/// Compares two 16-bit words: input lines 0 to 15 carry `a`, lines 16 to 31
/// carry `b`.
#[derive(Clone, Copy, Debug)]
pub struct Comparator {
    inputs: [Wire; 32],
    pub equal_in: Wire,
    pub a_is_larger_in: Wire,
    pub compares: [Compare2; 16],
    pub outputs: [Wire; 16],
    pub equal_out: Wire,
    pub a_is_larger_out: Wire,
}

impl Comparator {
    pub closed spec fn input_lines(&self) -> Seq<bool> {
        lines_of(self.inputs@)
    }

    pub closed spec fn output_lines(&self) -> Seq<bool> {
        lines_of(self.outputs@)
    }

    pub closed spec fn is_equal(&self) -> bool {
        self.equal_out@
    }

    pub closed spec fn is_larger(&self) -> bool {
        self.a_is_larger_out@
    }

    /// The word `a` on input lines 0 to 15.
    pub open spec fn word_a(&self) -> nat {
        bits_value(self.input_lines().subrange(0, 16))
    }

    /// The word `b` on input lines 16 to 31.
    pub open spec fn word_b(&self) -> nat {
        bits_value(self.input_lines().subrange(16, 32))
    }

    pub proof fn lemma_shape(&self)
        ensures
            self.input_lines().len() == 32,
            self.output_lines().len() == 16,
    {
    }

    pub fn new() -> (r: Self)
        ensures
            r.input_lines() == Seq::new(32, |i: int| false),
            r.output_lines() == Seq::new(16, |i: int| false),
            !r.is_equal(),
            !r.is_larger(),
    {
        let w = Wire::with_value(false);
        let c = Compare2::new();
        let r = Self {
            inputs: [w; 32],
            equal_in: w,
            a_is_larger_in: w,
            compares: [c; 16],
            outputs: [w; 16],
            equal_out: w,
            a_is_larger_out: w,
        };
        assert(r.input_lines() =~= Seq::new(32, |i: int| false));
        assert(r.output_lines() =~= Seq::new(16, |i: int| false));
        r
    }

    pub fn update(&mut self)
        ensures
            final(self).input_lines() == old(self).input_lines(),
            final(self).is_equal() == (old(self).word_a() == old(self).word_b()),
            final(self).is_larger() == (old(self).word_a() > old(self).word_b()),
            final(self).output_lines() == lines_xor(
                old(self).input_lines().subrange(0, 16),
                old(self).input_lines().subrange(16, 32),
            ),
    {
        let ghost a = old(self).input_lines().subrange(0, 16);
        let ghost b = old(self).input_lines().subrange(16, 32);
        self.equal_in.update(true);
        self.a_is_larger_in.update(false);
        let mut i: usize = 0;
        proof {
            assert(a.take(0) =~= Seq::<bool>::empty());
            assert(b.take(0) =~= Seq::<bool>::empty());
        }
        while i < 16
            invariant
                i <= 16,
                self.inputs == old(self).inputs,
                a == lines_of(self.inputs@).subrange(0, 16),
                b == lines_of(self.inputs@).subrange(16, 32),
                self.equal_in@ == (bits_value(a.take(i as int)) == bits_value(b.take(i as int))),
                self.a_is_larger_in@ == (bits_value(a.take(i as int)) > bits_value(
                    b.take(i as int),
                )),
                i > 0 ==> self.equal_out@ == self.equal_in@,
                i > 0 ==> self.a_is_larger_out@ == self.a_is_larger_in@,
                forall|j: int| 0 <= j < i ==> (#[trigger] self.outputs[j])@ == (a[j] != b[j]),
            decreases 16 - i,
        {
            let x = self.inputs[i].get();
            let y = self.inputs[16 + i].get();
            let eq = self.equal_in.get();
            let lg = self.a_is_larger_in.get();
            self.compares[i].update(x, y, eq, lg);
            let o = self.compares[i].get();
            self.outputs[i].update(o);
            let e = self.compares[i].equal();
            let l = self.compares[i].larger();
            self.equal_out.update(e);
            self.a_is_larger_out.update(l);
            self.equal_in.update(e);
            self.a_is_larger_in.update(l);
            proof {
                assert(a.take(i + 1).drop_last() =~= a.take(i as int));
                assert(b.take(i + 1).drop_last() =~= b.take(i as int));
                assert(a[i as int] == x);
                assert(b[i as int] == y);
                assert(bits_value(a.take(i + 1)) == 2 * bits_value(a.take(i as int)) + bit(x));
                assert(bits_value(b.take(i + 1)) == 2 * bits_value(b.take(i as int)) + bit(y));
            }
            i += 1;
        }
        proof {
            assert(a.take(16) =~= a);
            assert(b.take(16) =~= b);
        }
        assert(self.output_lines() =~= lines_xor(a, b));
        assert(self.input_lines() =~= old(self).input_lines());
    }

    pub fn equal(&self) -> (r: bool)
        ensures
            r == self.is_equal(),
    {
        self.equal_out.get()
    }

    pub fn larger(&self) -> (r: bool)
        ensures
            r == self.is_larger(),
    {
        self.a_is_larger_out.get()
    }
}

impl Component for Comparator {
    open spec fn inputs(&self) -> Seq<bool> {
        self.input_lines()
    }

    open spec fn has_output(&self, i: int) -> bool {
        0 <= i < 16
    }

    open spec fn output_at(&self, i: int) -> bool {
        self.output_lines()[i]
    }

    fn set_input_wire(&mut self, i: i32, value: bool)
        ensures
            final(self).input_lines() == old(self).input_lines().update(i as int, value),
            final(self).output_lines() == old(self).output_lines(),
            final(self).is_equal() == old(self).is_equal(),
            final(self).is_larger() == old(self).is_larger(),
    {
        self.inputs[i as usize].update(value);
        assert(self.input_lines() =~= old(self).input_lines().update(i as int, value));
        assert(self.output_lines() =~= old(self).output_lines());
    }

    fn get_output_wire(&self, i: i32) -> (r: bool)
        ensures
            r == self.output_lines()[i as int],
    {
        self.outputs[i as usize].get()
    }
}

} // verus!
