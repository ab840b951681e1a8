//! Components built from gates: storage, buses, arithmetic and selection
//! circuits.
use crate::bits::{
    bit, bits_value, lemma_bits_value_bound, lemma_bits_value_prepend, lemma_bits_value_zero,
    lemma_p2_mono, lemma_p2_values, p2, word_value,
};
use crate::gates::{lines_of, Wire, AND, NOT};
use vstd::prelude::*;

pub mod adder;
pub mod bus;
pub mod busone;
pub mod comparator;
pub mod decoder;
pub mod gaters;
pub mod gates;
pub mod register;
pub mod stepper;
pub mod storage;

pub use adder::{Adder, FullAdder};
pub use bus::Bus;
pub use busone::BusOne;
pub use comparator::{Compare2, Comparator};
pub use decoder::{Decoder2x4, Decoder3x8, Decoder4x16, Decoder8x256};
pub use stepper::Stepper;
pub use storage::{Bit, Word};
pub use gaters::{ANDer, NOTer, ORer, XORer};
pub use register::Register;
pub use gates::{ANDGate3, ANDGate4, ANDGate5, ANDGate8, ORGate3, ORGate4, ORGate5, ORGate6};

verus! {

/// The number of lines of the machine's buses.
pub const BUS_WIDTH: i32 = 16;

/// Something that can put its contents on a bus when enabled.
pub trait Enableable: Sized {
    spec fn is_enabled(&self) -> bool;

    /// `other` differs from `self` at most in the enable signal.
    spec fn enable_kept(self, other: Self) -> bool;

    fn enable(&mut self)
        ensures
            final(self).is_enabled(),
            old(self).enable_kept(*final(self)),
    ;

    fn disable(&mut self)
        ensures
            !final(self).is_enabled(),
            old(self).enable_kept(*final(self)),
    ;
}

/// Something that takes in the contents of a bus when set.
pub trait Settable: Sized {
    spec fn is_set(&self) -> bool;

    /// `other` differs from `self` at most in the set signal.
    spec fn set_kept(self, other: Self) -> bool;

    fn set(&mut self)
        ensures
            final(self).is_set(),
            old(self).set_kept(*final(self)),
    ;

    fn unset(&mut self)
        ensures
            !final(self).is_set(),
            old(self).set_kept(*final(self)),
    ;
}

/// A circuit with numbered input and output lines.
pub trait Component {
    /// The signals on the input lines.
    spec fn inputs(&self) -> Seq<bool>;

    /// Whether `i` names an output line.
    spec fn has_output(&self, i: int) -> bool;

    /// The signal on output line `i`.
    spec fn output_at(&self, i: int) -> bool;

    fn set_input_wire(&mut self, i: i32, value: bool)
        requires
            0 <= i < old(self).inputs().len(),
        ensures
            final(self).inputs() == old(self).inputs().update(i as int, value),
    ;

    fn get_output_wire(&self, i: i32) -> (r: bool)
        requires
            self.has_output(i as int),
        ensures
            r == self.output_at(i as int),
    ;
}


/// Whether bit `k` (counted from the least significant bit) of the 32-bit
/// pattern of `v` is set.
pub open spec fn bit_of_i32(v: i32, k: int) -> bool {
    ((v as u32) >> (k as u32)) & 1u32 == 1u32
}

/// Puts `value` on input lines `end .. start` of `c`, its least significant
/// bit on line `start - 1`.
pub fn set_input_value<T: Component>(c: &mut T, value: i32, start: i32, end: i32)
    requires
        0 <= end <= start <= old(c).inputs().len(),
        start - end <= 32,
    ensures
        final(c).inputs().len() == old(c).inputs().len(),
        forall|i: int|
            end <= i < start ==> #[trigger] final(c).inputs()[i] == bit_of_i32(value, start - 1 - i),
        forall|i: int|
            0 <= i < old(c).inputs().len() && !(end <= i < start) ==> #[trigger] final(c).inputs()[i]
                == old(c).inputs()[i],
{
    let mut i: i32 = start;
    while i > end
        invariant
            0 <= end <= i <= start,
            c.inputs().len() == old(c).inputs().len(),
            start <= old(c).inputs().len(),
            start - end <= 32,
            forall|j: int| i <= j < start ==> #[trigger] c.inputs()[j] == bit_of_i32(value, start - 1 - j),
            forall|j: int|
                0 <= j < old(c).inputs().len() && !(i <= j < start) ==> #[trigger] c.inputs()[j]
                    == old(c).inputs()[j],
        decreases i - end,
    {
        i -= 1;
        let x = (start - 1 - i) as u32;
        let line = ((value as u32) >> x) & 1u32 == 1u32;
        c.set_input_wire(i, line);
    }
}

/// Puts a 16-bit value on the first sixteen input lines of `c`.
pub fn set_component_value_16<T: Component>(c: &mut T, value: i32)
    requires
        16 <= old(c).inputs().len(),
    ensures
        final(c).inputs().len() == old(c).inputs().len(),
        forall|i: int| 0 <= i < 16 ==> #[trigger] final(c).inputs()[i] == bit_of_i32(value, 15 - i),
        forall|i: int|
            16 <= i < old(c).inputs().len() ==> #[trigger] final(c).inputs()[i] == old(c).inputs()[i],
{
    set_input_value(c, value, 16, 0);
}

/// Puts two 16-bit values on the first 32 input lines of `c`: `input_a` on
/// lines 0 to 15, `input_b` on lines 16 to 31.
pub fn set_component_value_32<T: Component>(c: &mut T, input_a: i32, input_b: i32)
    requires
        32 <= old(c).inputs().len(),
    ensures
        final(c).inputs().len() == old(c).inputs().len(),
        forall|i: int| 0 <= i < 16 ==> #[trigger] final(c).inputs()[i] == bit_of_i32(input_a, 15 - i),
        forall|i: int|
            16 <= i < 32 ==> #[trigger] final(c).inputs()[i] == bit_of_i32(input_b, 31 - i),
        forall|i: int|
            32 <= i < old(c).inputs().len() ==> #[trigger] final(c).inputs()[i] == old(c).inputs()[i],
{
    set_input_value(c, input_a, 16, 0);
    set_input_value(c, input_b, 32, 16);
}

/// The number on the first `output_bits` output lines of `c`, line
/// `output_bits - 1` being the least significant bit.
pub fn get_output_value<T: Component>(c: &T, output_bits: i32) -> (r: i32)
    requires
        0 <= output_bits <= 32,
        forall|i: int| 0 <= i < output_bits ==> c.has_output(i),
    ensures
        r == (bits_value(Seq::new(output_bits as nat, |i: int| c.output_at(i))) as u32) as i32,
{
    let ghost lines = Seq::new(output_bits as nat, |i: int| c.output_at(i));
    let mut result: u32 = 0;
    let mut i: i32 = 0;
    while i < output_bits
        invariant
            0 <= i <= output_bits <= 32,
            lines == Seq::new(output_bits as nat, |i: int| c.output_at(i)),
            forall|j: int| 0 <= j < output_bits ==> c.has_output(j),
            result == bits_value(lines.take(i as int)),
        decreases output_bits - i,
    {
        proof {
            lemma_bits_value_bound(lines.take(i as int));
            lemma_p2_mono((i + 1) as nat, 32);
            crate::bits::lemma_p2_32();
            assert(lines.take(i + 1).drop_last() =~= lines.take(i as int));
        }
        let line = c.get_output_wire(i);
        result = result * 2 + if line {
            1
        } else {
            0
        };
        i += 1;
    }
    assert(lines.take(output_bits as int) =~= lines);
    result as i32
}

/// Sixteen AND gates that let the input lines through when enabled.
#[derive(Clone, Copy, Debug)]
pub struct Enabler {
    inputs: [Wire; 16],
    pub gates: [AND; 16],
    outputs: [Wire; 16],
}

impl Enabler {
    pub proof fn lemma_shape(&self)
        ensures
            self.input_lines().len() == 16,
            self.output_lines().len() == 16,
    {
    }

    pub closed spec fn input_lines(&self) -> Seq<bool> {
        lines_of(self.inputs@)
    }

    pub closed spec fn output_lines(&self) -> Seq<bool> {
        lines_of(self.outputs@)
    }

    pub fn new() -> (r: Self)
        ensures
            r.input_lines() == Seq::new(16, |i: int| false),
            r.output_lines() == Seq::new(16, |i: int| false),
    {
        let w = Wire::with_value(false);
        let g = AND::new();
        let inputs = [w, w, w, w, w, w, w, w, w, w, w, w, w, w, w, w];
        let gates = [g, g, g, g, g, g, g, g, g, g, g, g, g, g, g, g];
        let outputs = [w, w, w, w, w, w, w, w, w, w, w, w, w, w, w, w];
        assert(forall|i: int| 0 <= i < 16 ==> #[trigger] inputs@[i] == w && outputs@[i] == w);
        let r = Self { inputs, gates, outputs };
        assert(r.input_lines() =~= Seq::new(16, |i: int| false));
        assert(r.output_lines() =~= Seq::new(16, |i: int| false));
        r
    }

    /// Passes each input line through when `enable` is on; otherwise every
    /// output line is off.
    pub fn update(&mut self, enable: bool)
        ensures
            final(self).input_lines() == old(self).input_lines(),
            final(self).output_lines() == Seq::new(
                16,
                |i: int| old(self).input_lines()[i] && enable,
            ),
    {
        let mut i: usize = 0;
        while i < 16
            invariant
                i <= 16,
                self.inputs == old(self).inputs,
                forall|j: int|
                    0 <= j < i ==> (#[trigger] self.outputs[j])@ == (old(self).inputs[j]@ && enable),
            decreases 16 - i,
        {
            let input = self.inputs[i].get();
            self.gates[i].update(input, enable);
            let out = self.gates[i].get();
            self.outputs[i].update(out);
            i += 1;
        }
        assert(self.output_lines() =~= Seq::new(16, |i: int| old(self).input_lines()[i] && enable));
        assert(self.input_lines() =~= old(self).input_lines());
    }
}

impl Component for Enabler {
    open spec fn inputs(&self) -> Seq<bool> {
        self.input_lines()
    }

    open spec fn has_output(&self, i: int) -> bool {
        0 <= i < 16
    }

    open spec fn output_at(&self, i: int) -> bool {
        self.output_lines()[i]
    }

    fn set_input_wire(&mut self, i: i32, value: bool)
        ensures
            final(self).input_lines() == old(self).input_lines().update(i as int, value),
            final(self).output_lines() == old(self).output_lines(),
    {
        proof {
            self.lemma_shape();
            assert(self.inputs() == self.input_lines());
            assert(self.inputs@.len() == 16);
        }
        self.inputs[i as usize].update(value);
        assert(self.input_lines() =~= old(self).input_lines().update(i as int, value));
        assert(self.output_lines() =~= old(self).output_lines());
    }

    fn get_output_wire(&self, i: i32) -> (r: bool)
        ensures
            r == self.output_lines()[i as int],
    {
        proof {
            self.lemma_shape();
            assert(self.has_output(i as int) == (0 <= i < 16));
            assert(self.output_at(i as int) == self.output_lines()[i as int]);
            assert(self.outputs@.len() == 16);
        }
        self.outputs[i as usize].get()
    }
}

/// Moves every line one place towards the most significant end: doubles the
/// word.  The top line falls out as `shift_out`, `shift_in` fills the bottom.
#[derive(Clone, Copy, Debug)]
pub struct LeftShifter {
    inputs: [Wire; 16],
    outputs: [Wire; 16],
    pub shift_in: Wire,
    pub shift_out: Wire,
}

impl LeftShifter {
    pub proof fn lemma_shape(&self)
        ensures
            self.input_lines().len() == 16,
            self.output_lines().len() == 16,
    {
    }

    pub closed spec fn input_lines(&self) -> Seq<bool> {
        lines_of(self.inputs@)
    }

    pub closed spec fn output_lines(&self) -> Seq<bool> {
        lines_of(self.outputs@)
    }

    pub closed spec fn shifted_out(&self) -> bool {
        self.shift_out@
    }

    pub fn new() -> (r: Self)
        ensures
            r.input_lines() == Seq::new(16, |i: int| false),
            r.output_lines() == Seq::new(16, |i: int| false),
            !r.shifted_out(),
    {
        let w = Wire::with_value(false);
        let r = Self { inputs: [w; 16], outputs: [w; 16], shift_in: w, shift_out: w };
        assert(r.input_lines() =~= Seq::new(16, |i: int| false));
        assert(r.output_lines() =~= Seq::new(16, |i: int| false));
        r
    }

    /// The line shifted out by the last update.
    pub fn get(&self) -> (r: bool)
        ensures
            r == self.shifted_out(),
    {
        self.shift_out.get()
    }

    pub fn update(&mut self, shift_in: bool)
        ensures
            final(self).input_lines() == old(self).input_lines(),
            final(self).output_lines() == old(self).input_lines().drop_first().push(shift_in),
            final(self).shifted_out() == old(self).input_lines()[0],
            bits_value(final(self).output_lines()) == (2 * bits_value(old(self).input_lines())
                + bit(shift_in)) % 65536,
            final(self).shifted_out() == (bits_value(old(self).input_lines()) >= 32768),
    {
        self.shift_in.update(shift_in);
        let top = self.inputs[0].get();
        self.shift_out.update(top);
        let mut i: usize = 1;
        while i < 16
            invariant
                1 <= i <= 16,
                self.inputs == old(self).inputs,
                self.shift_in@ == shift_in,
                self.shift_out@ == old(self).inputs[0]@,
                forall|j: int| 0 <= j < i - 1 ==> (#[trigger] self.outputs[j])@ == old(self).inputs[j + 1]@,
            decreases 16 - i,
        {
            let x = self.inputs[i].get();
            self.outputs[i - 1].update(x);
            i += 1;
        }
        let fill = self.shift_in.get();
        self.outputs[15].update(fill);
        let ghost a = old(self).input_lines();
        let ghost out = a.drop_first().push(shift_in);
        assert(self.output_lines() =~= out);
        assert(self.input_lines() =~= a);
        proof {
            lemma_bits_value_prepend(a);
            lemma_bits_value_bound(a.drop_first());
            lemma_p2_values();
            assert(out.drop_last() =~= a.drop_first());
            assert(bits_value(out) == 2 * bits_value(a.drop_first()) + bit(shift_in));
            let d = bits_value(a.drop_first());
            assert(a.len() == 16);
            assert(p2(15) == 32768);
            assert(bits_value(a) == bit(a[0]) * p2(15) + d);
            assert(d < 32768);
            if a[0] {
                assert(bits_value(a) == 32768 + d);
                assert(2 * bits_value(a) + bit(shift_in) == 65536 + (2 * d + bit(shift_in)));
            } else {
                assert(bits_value(a) == d);
            }
        }
    }
}

impl Component for LeftShifter {
    open spec fn inputs(&self) -> Seq<bool> {
        self.input_lines()
    }

    open spec fn has_output(&self, i: int) -> bool {
        0 <= i < 16
    }

    open spec fn output_at(&self, i: int) -> bool {
        self.output_lines()[i]
    }

    fn set_input_wire(&mut self, i: i32, value: bool)
        ensures
            final(self).input_lines() == old(self).input_lines().update(i as int, value),
            final(self).output_lines() == old(self).output_lines(),
            final(self).shifted_out() == old(self).shifted_out(),
    {
        self.inputs[i as usize].update(value);
        assert(self.input_lines() =~= old(self).input_lines().update(i as int, value));
        assert(self.output_lines() =~= old(self).output_lines());
    }

    fn get_output_wire(&self, i: i32) -> (r: bool)
        ensures
            r == self.output_lines()[i as int],
    {
        self.outputs[i as usize].get()
    }
}

/// Moves every line one place towards the least significant end: halves the
/// word.  The bottom line falls out as `shift_out`, `shift_in` fills the top.
#[derive(Clone, Copy, Debug)]
pub struct RightShifter {
    inputs: [Wire; 16],
    outputs: [Wire; 16],
    pub shift_in: Wire,
    pub shift_out: Wire,
}

impl RightShifter {
    pub proof fn lemma_shape(&self)
        ensures
            self.input_lines().len() == 16,
            self.output_lines().len() == 16,
    {
    }

    pub closed spec fn input_lines(&self) -> Seq<bool> {
        lines_of(self.inputs@)
    }

    pub closed spec fn output_lines(&self) -> Seq<bool> {
        lines_of(self.outputs@)
    }

    pub closed spec fn shifted_out(&self) -> bool {
        self.shift_out@
    }

    pub fn new() -> (r: Self)
        ensures
            r.input_lines() == Seq::new(16, |i: int| false),
            r.output_lines() == Seq::new(16, |i: int| false),
            !r.shifted_out(),
    {
        let w = Wire::with_value(false);
        let r = Self { inputs: [w; 16], outputs: [w; 16], shift_in: w, shift_out: w };
        assert(r.input_lines() =~= Seq::new(16, |i: int| false));
        assert(r.output_lines() =~= Seq::new(16, |i: int| false));
        r
    }

    /// The line shifted out by the last update.
    pub fn get(&self) -> (r: bool)
        ensures
            r == self.shifted_out(),
    {
        self.shift_out.get()
    }

    pub fn update(&mut self, shift_in: bool)
        ensures
            final(self).input_lines() == old(self).input_lines(),
            final(self).output_lines() == seq![shift_in] + old(self).input_lines().drop_last(),
            final(self).shifted_out() == old(self).input_lines()[15],
            bits_value(final(self).output_lines()) == bit(shift_in) * 32768 + bits_value(
                old(self).input_lines(),
            ) / 2,
            final(self).shifted_out() == (bits_value(old(self).input_lines()) % 2 == 1),
    {
        self.shift_in.update(shift_in);
        let fill = self.shift_in.get();
        self.outputs[0].update(fill);
        let mut i: usize = 1;
        while i < 16
            invariant
                1 <= i <= 16,
                self.inputs == old(self).inputs,
                self.outputs[0]@ == shift_in,
                forall|j: int| 1 <= j < i ==> (#[trigger] self.outputs[j])@ == old(self).inputs[j - 1]@,
            decreases 16 - i,
        {
            let x = self.inputs[i - 1].get();
            self.outputs[i].update(x);
            i += 1;
        }
        let bottom = self.inputs[15].get();
        self.shift_out.update(bottom);
        let ghost a = old(self).input_lines();
        let ghost out = seq![shift_in] + a.drop_last();
        assert(self.output_lines() =~= out);
        assert(self.input_lines() =~= a);
        proof {
            lemma_bits_value_prepend(out);
            lemma_p2_values();
            assert(out.drop_first() =~= a.drop_last());
            assert(bits_value(a) == 2 * bits_value(a.drop_last()) + bit(a.last()));
        }
    }
}

impl Component for RightShifter {
    open spec fn inputs(&self) -> Seq<bool> {
        self.input_lines()
    }

    open spec fn has_output(&self, i: int) -> bool {
        0 <= i < 16
    }

    open spec fn output_at(&self, i: int) -> bool {
        self.output_lines()[i]
    }

    fn set_input_wire(&mut self, i: i32, value: bool)
        ensures
            final(self).input_lines() == old(self).input_lines().update(i as int, value),
            final(self).output_lines() == old(self).output_lines(),
            final(self).shifted_out() == old(self).shifted_out(),
    {
        self.inputs[i as usize].update(value);
        assert(self.input_lines() =~= old(self).input_lines().update(i as int, value));
        assert(self.output_lines() =~= old(self).output_lines());
    }

    fn get_output_wire(&self, i: i32) -> (r: bool)
        ensures
            r == self.output_lines()[i as int],
    {
        self.outputs[i as usize].get()
    }
}

/// Tells whether every input line is off: the word is zero.
#[derive(Clone, Copy, Debug)]
pub struct IsZero {
    inputs: [Wire; 16],
    pub orer: ORer,
    pub not_gate: NOT,
    output: Wire,
}

impl IsZero {
    pub proof fn lemma_shape(&self)
        ensures
            self.input_lines().len() == 16,
    {
    }

    pub closed spec fn input_lines(&self) -> Seq<bool> {
        lines_of(self.inputs@)
    }

    pub closed spec fn result(&self) -> bool {
        self.output@
    }

    pub fn new() -> (r: Self)
        ensures
            r.input_lines() == Seq::new(16, |i: int| false),
            !r.result(),
    {
        let w = Wire::with_value(false);
        let r = Self { inputs: [w; 16], orer: ORer::new(), not_gate: NOT::new(), output: w };
        assert(r.input_lines() =~= Seq::new(16, |i: int| false));
        r
    }

    pub fn reset(&mut self)
        ensures
            final(self).input_lines() == old(self).input_lines(),
            !final(self).result(),
    {
        self.output.update(false)
    }

    pub fn update(&mut self)
        ensures
            final(self).input_lines() == old(self).input_lines(),
            final(self).result() == (forall|i: int| 0 <= i < 16 ==> !old(self).input_lines()[i]),
            final(self).result() == (bits_value(old(self).input_lines()) == 0),
    {
        proof {
            self.orer.lemma_shape();
        }
        let mut i: usize = 0;
        while i < 16
            invariant
                i <= 16,
                self.inputs == old(self).inputs,
                forall|j: int|
                    0 <= j < i ==> #[trigger] self.orer.input_lines()[j] == old(self).inputs[j]@,
                forall|j: int|
                    0 <= j < i ==> #[trigger] self.orer.input_lines()[16 + j]
                        == old(self).inputs[j]@,
                self.orer.input_lines().len() == 32,
            decreases 16 - i,
        {
            let x = self.inputs[i].get();
            self.orer.set_input_wire(i as i32, x);
            self.orer.set_input_wire(i as i32 + BUS_WIDTH, x);
            i += 1;
        }
        proof {
            self.orer.lemma_shape();
        }
        let ghost pre = self.orer.input_lines();
        self.orer.update();
        proof {
            self.orer.lemma_shape();
            assert forall|j: int| 0 <= j < 16 implies #[trigger] self.orer.output_lines()[j]
                == old(self).inputs[j]@ by {
                assert(pre.subrange(0, 16)[j] == pre[j]);
                assert(pre.subrange(16, 32)[j] == pre[16 + j]);
                assert(pre[j] == old(self).inputs[j]@);
                assert(pre[16 + j] == old(self).inputs[j]@);
            }
        }
        let mut any = false;
        let mut k: usize = 0;
        while k < 16
            invariant
                k <= 16,
                self.inputs == old(self).inputs,
                forall|j: int| 0 <= j < 16 ==> #[trigger] self.orer.output_lines()[j] == old(self).inputs[j]@,
                any == (exists|j: int| 0 <= j < k && old(self).inputs[j]@),
            decreases 16 - k,
        {
            if self.orer.get_output_wire(k as i32) {
                any = true;
            }
            k += 1;
        }
        self.not_gate.update(any);
        let out = self.not_gate.get();
        self.output.update(out);
        assert(self.input_lines() =~= old(self).input_lines());
        proof {
            lemma_bits_value_zero(old(self).input_lines());
            assert(old(self).input_lines().len() == 16);
            if !any {
                assert forall|i: int| 0 <= i < 16 implies !old(self).input_lines()[i] by {
                    assert(!old(self).inputs[i]@);
                }
            } else {
                let j = choose|j: int| 0 <= j < 16 && old(self).inputs[j]@;
                assert(old(self).input_lines()[j]);
            }
        }
    }
}

impl Component for IsZero {
    open spec fn inputs(&self) -> Seq<bool> {
        self.input_lines()
    }

    open spec fn has_output(&self, i: int) -> bool {
        true
    }

    open spec fn output_at(&self, i: int) -> bool {
        self.result()
    }

    fn set_input_wire(&mut self, i: i32, value: bool)
        ensures
            final(self).input_lines() == old(self).input_lines().update(i as int, value),
            final(self).result() == old(self).result(),
    {
        self.inputs[i as usize].update(value);
        assert(self.input_lines() =~= old(self).input_lines().update(i as int, value));
    }

    fn get_output_wire(&self, _i: i32) -> (r: bool)
        ensures
            r == self.result(),
    {
        self.output.get()
    }
}

} // verus!
