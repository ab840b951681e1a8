//! The arithmetic and logic unit: eight operations on two words, with the
//! carry, comparison and zero flags.
use crate::bits::{
    bit, bits_value, lemma_bits_value_bitwise, lemma_bits_value_not, lemma_bits_value_zero,
    lemma_p2_values, lemma_u16_not, lemma_word_value_16, lines_and, lines_not, lines_or, lines_xor,
    word_value,
};
use crate::components::Enableable;
use crate::components::bus::Bus;
use crate::components::decoder::{index3, one_hot};
use crate::components::{
    ANDer, Adder, Comparator, Component, Decoder3x8, Enabler, IsZero, LeftShifter, NOTer, ORer,
    RightShifter, XORer,
};
use crate::gates::{Wire, AND};
use vstd::prelude::*;

verus! {

/// The operations, numbered as the three operation lines spell them.
#[derive(Debug, PartialEq, Eq, Clone, Copy, Structural)]
pub enum Operation {
    ADD,
    SHL,
    SHR,
    NOT,
    AND,
    OR,
    XOR,
    CMP,
}

/// The number of an operation.
pub open spec fn operation_number(op: Operation) -> i32 {
    match op {
        Operation::ADD => 0,
        Operation::SHL => 1,
        Operation::SHR => 2,
        Operation::NOT => 3,
        Operation::AND => 4,
        Operation::OR => 5,
        Operation::XOR => 6,
        Operation::CMP => 7,
    }
}

/// The operation a number names; numbers out of range name `CMP`.
pub open spec fn operation_of(v: i32) -> Operation {
    if v == 0 {
        Operation::ADD
    } else if v == 1 {
        Operation::SHL
    } else if v == 2 {
        Operation::SHR
    } else if v == 3 {
        Operation::NOT
    } else if v == 4 {
        Operation::AND
    } else if v == 5 {
        Operation::OR
    } else if v == 6 {
        Operation::XOR
    } else {
        Operation::CMP
    }
}

impl From<i32> for Operation {
    fn from(value: i32) -> (r: Self) {
        match value {
            0 => Operation::ADD,
            1 => Operation::SHL,
            2 => Operation::SHR,
            3 => Operation::NOT,
            4 => Operation::AND,
            5 => Operation::OR,
            6 => Operation::XOR,
            7 => Operation::CMP,
            _ => Operation::CMP,
        }
    }
}

impl vstd::std_specs::convert::FromSpecImpl<i32> for Operation {
    open spec fn obeys_from_spec() -> bool {
        true
    }

    open spec fn from_spec(v: i32) -> Operation {
        operation_of(v)
    }
}

impl From<Operation> for i32 {
    fn from(value: Operation) -> (r: Self) {
        match value {
            Operation::ADD => 0,
            Operation::SHL => 1,
            Operation::SHR => 2,
            Operation::NOT => 3,
            Operation::AND => 4,
            Operation::OR => 5,
            Operation::XOR => 6,
            Operation::CMP => 7,
        }
    }
}

impl vstd::std_specs::convert::FromSpecImpl<Operation> for i32 {
    open spec fn obeys_from_spec() -> bool {
        true
    }

    open spec fn from_spec(v: Operation) -> i32 {
        operation_number(v)
    }
}

impl Operation {
    /// The operation's mnemonic.
    pub fn name(&self) -> (r: &'static str)
        ensures
            r@.len() > 0,
    {
        match self {
            Operation::ADD => {
                proof {
                    reveal_strlit("ADD");
                }
                "ADD"
            },
            Operation::SHL => {
                proof {
                    reveal_strlit("SHL");
                }
                "SHL"
            },
            Operation::SHR => {
                proof {
                    reveal_strlit("SHR");
                }
                "SHR"
            },
            Operation::NOT => {
                proof {
                    reveal_strlit("NOT");
                }
                "NOT"
            },
            Operation::AND => {
                proof {
                    reveal_strlit("AND");
                }
                "AND"
            },
            Operation::OR => {
                proof {
                    reveal_strlit("OR");
                }
                "OR"
            },
            Operation::XOR => {
                proof {
                    reveal_strlit("XOR");
                }
                "XOR"
            },
            Operation::CMP => {
                proof {
                    reveal_strlit("CMP");
                }
                "CMP"
            },
        }
    }
}

/// The word the ALU puts out for operation `op` on `a` and `b`.  Additions
/// and left shifts wrap at sixteen bits; the carry in fills the bit a shift
/// frees; a comparison puts out nothing.
pub open spec fn alu_output(op: int, a: u16, b: u16, carry_in: bool) -> u16 {
    if op == 0 {
        ((a + b + bit(carry_in)) % 65536) as u16
    } else if op == 1 {
        ((2 * a + bit(carry_in)) % 65536) as u16
    } else if op == 2 {
        (bit(carry_in) * 32768 + a / 2) as u16
    } else if op == 3 {
        !a
    } else if op == 4 {
        a & b
    } else if op == 5 {
        a | b
    } else if op == 6 {
        a ^ b
    } else {
        0
    }
}

/// The carry flag after operation `op`: the bit an addition or a shift lets
/// out; the other operations leave the flag as it was.
pub open spec fn alu_carry(op: int, a: u16, b: u16, carry_in: bool, previous: bool) -> bool {
    if op == 0 {
        a + b + bit(carry_in) >= 65536
    } else if op == 1 {
        a >= 32768
    } else if op == 2 {
        a % 2 == 1
    } else {
        previous
    }
}

/// The zero flag: the result is zero.  A comparison, which puts out no
/// result, never sets it.
pub open spec fn alu_zero(op: int, a: u16, b: u16, carry_in: bool) -> bool {
    op != 7 && alu_output(op, a, b, carry_in) == 0
}

pub struct ALU {
    pub op: [Wire; 3],
    pub carry_in: Wire,
    pub carry_out: Wire,
    pub a_is_larger: Wire,
    pub is_equal: Wire,
    pub op_decoder: Decoder3x8,
    pub comparator: Comparator,
    pub xorer: XORer,
    pub orer: ORer,
    pub ander: ANDer,
    pub notter: NOTer,
    pub left_shifer: LeftShifter,
    pub right_shifer: RightShifter,
    pub adder: Adder,
    pub is_zero: IsZero,
    pub enablers: [Enabler; 7],
    pub and_gates: [AND; 3],
}

/// Everything but the enablers and the circuits behind them is as it was, and
/// so are the enablers other than number `k`.
pub open spec fn others_kept(s: ALU, t: ALU, k: int) -> bool {
    &&& t.op == s.op
    &&& t.carry_in == s.carry_in
    &&& t.carry_out == s.carry_out
    &&& t.a_is_larger == s.a_is_larger
    &&& t.is_equal == s.is_equal
    &&& t.op_decoder == s.op_decoder
    &&& t.is_zero == s.is_zero
    &&& forall|j: int| 0 <= j < 7 && j != k ==> #[trigger] t.enablers[j] == s.enablers[j]
}

impl ALU {
    /// The number the three operation lines spell, line 2 the most
    /// significant.
    pub open spec fn op_index(&self) -> int {
        index3(self.op[2]@, self.op[1]@, self.op[0]@)
    }

    pub fn new() -> (r: Self)
        ensures
            r.op_index() == 0,
            !r.carry_in@,
            !r.carry_out@,
    {
        let w = Wire::with_value(false);
        Self {
            op: [w; 3],
            carry_in: w,
            carry_out: w,
            a_is_larger: w,
            is_equal: w,
            op_decoder: Decoder3x8::new(),
            comparator: Comparator::new(),
            xorer: XORer::new(),
            orer: ORer::new(),
            ander: ANDer::new(),
            notter: NOTer::new(),
            left_shifer: LeftShifter::new(),
            right_shifer: RightShifter::new(),
            adder: Adder::new(),
            is_zero: IsZero::new(),
            enablers: [Enabler::new(); 7],
            and_gates: [AND::new(); 3],
        }
    }

    /// Puts bus `a` on input lines 0 to 15 of a two-word circuit and bus `b`
    /// on lines 16 to 31.
    pub fn set_wire_on_component<T: Component>(c: &mut T, input_a: &Bus, input_b: &Bus)
        requires
            old(c).inputs().len() == 32,
            input_a@.len() == 16,
            input_b@.len() == 16,
        ensures
            final(c).inputs() == input_a@ + input_b@,
    {
        let mut i: i32 = 16;
        while i > 0
            invariant
                0 <= i <= 16,
                input_a@.len() == 16,
                c.inputs().len() == 32,
                forall|j: int| i <= j < 16 ==> #[trigger] c.inputs()[j] == input_a@[j],
            decreases i,
        {
            i -= 1;
            let line = input_a.get_output_wire(i);
            c.set_input_wire(i, line);
        }
        let mut k: i32 = 32;
        while k > 16
            invariant
                16 <= k <= 32,
                input_a@.len() == 16,
                input_b@.len() == 16,
                c.inputs().len() == 32,
                forall|j: int| 0 <= j < 16 ==> #[trigger] c.inputs()[j] == input_a@[j],
                forall|j: int| k <= j < 32 ==> #[trigger] c.inputs()[j] == input_b@[j - 16],
            decreases k,
        {
            k -= 1;
            let line = input_b.get_output_wire(k - 16);
            c.set_input_wire(k, line);
        }
        assert(c.inputs() =~= input_a@ + input_b@);
    }

    /// Feeds the sixteen output lines of `c` into enabler `enabler_index`.
    pub fn wire_to_enabler<T: Component>(&mut self, c: &T, enabler_index: i32)
        requires
            0 <= enabler_index < 7,
            forall|i: int| 0 <= i < 16 ==> c.has_output(i),
        ensures
            final(self).enablers[enabler_index as int].input_lines() == Seq::new(
                16,
                |i: int| c.output_at(i),
            ),
            others_kept(*old(self), *final(self), enabler_index as int),
            final(self).comparator == old(self).comparator,
            final(self).and_gates == old(self).and_gates,
            final(self).adder == old(self).adder,
            final(self).left_shifer == old(self).left_shifer,
            final(self).right_shifer == old(self).right_shifer,
    {
        let k = enabler_index as usize;
        proof {
            self.enablers[k as int].lemma_shape();
        }
        let mut i: i32 = 0;
        while i < 16
            invariant
                0 <= i <= 16,
                k == enabler_index,
                k < 7,
                forall|j: int| 0 <= j < 16 ==> c.has_output(j),
                self.enablers[k as int].input_lines().len() == 16,
                others_kept(*old(self), *self, k as int),
                self.comparator == old(self).comparator,
                self.and_gates == old(self).and_gates,
                self.adder == old(self).adder,
                self.left_shifer == old(self).left_shifer,
                self.right_shifer == old(self).right_shifer,
                forall|j: int|
                    0 <= j < i ==> #[trigger] self.enablers[k as int].input_lines()[j]
                        == c.output_at(j),
            decreases 16 - i,
        {
            let line = c.get_output_wire(i);
            self.enablers[k].set_input_wire(i, line);
            i += 1;
        }
        assert(self.enablers[k as int].input_lines() =~= Seq::new(16, |i: int| c.output_at(i)));
    }

    /// Carries out the operation the operation lines name on the words of
    /// buses `a` and `b`: the result goes onto the output bus, and the carry,
    /// "a is larger", "equal" and zero flags onto lines 0 to 3 of the flags
    /// bus.
    pub fn update(
        &mut self,
        input_a: &Bus,
        input_b: &Bus,
        output_bus: &mut Bus,
        flags_output_bus: &mut Bus,
    )
        requires
            input_a@.len() == 16,
            input_b@.len() == 16,
            old(output_bus).wf(),
            old(output_bus)@.len() == 16,
            old(flags_output_bus).wf(),
            old(flags_output_bus)@.len() >= 4,
        ensures
            ({
                let op = old(self).op_index();
                let a = word_value(input_a@);
                let b = word_value(input_b@);
                let cin = old(self).carry_in@;
                let carry = alu_carry(op, a, b, cin, old(self).carry_out@);
                &&& final(output_bus)@.len() == 16
                &&& word_value(final(output_bus)@) == alu_output(op, a, b, cin)
                &&& final(self).carry_out@ == carry
                &&& final(flags_output_bus)@ == old(flags_output_bus)@.update(0, carry).update(
                    1,
                    a > b,
                ).update(2, a == b).update(3, alu_zero(op, a, b, cin))
            }),
            final(self).op == old(self).op,
            final(self).carry_in == old(self).carry_in,
            final(output_bus).wf(),
            final(output_bus).bus_width() == old(output_bus).bus_width(),
            final(flags_output_bus).wf(),
            final(flags_output_bus).bus_width() == old(flags_output_bus).bus_width(),
    {
        let ghost op = self.op_index();
        let ghost a = word_value(input_a@);
        let ghost b = word_value(input_b@);
        let ghost cin = self.carry_in@;
        let ghost old_carry = self.carry_out@;
        proof {
            lemma_word_value_16(input_a@);
            lemma_word_value_16(input_b@);
            lemma_p2_values();
        }
        self.update_op_decoder();
        let index = self.op_decoder.index();
        proof {
            assert(self.op_decoder.output_lines()[op]);
        }
        assert(index == op);
        let enabler = Operation::from(index);
        self.update_comparator(input_a, input_b);
        let ghost mut lines: Seq<bool> = Seq::empty();
        match enabler {
            Operation::ADD => {
                self.update_adder(input_a, input_b);
                proof {
                    lines = self.enablers[0].input_lines();
                    lemma_word_value_16(lines);
                }
            },
            Operation::SHL => {
                self.update_left_shifter(input_a);
                proof {
                    lines = self.enablers[1].input_lines();
                    lemma_word_value_16(lines);
                }
            },
            Operation::SHR => {
                self.update_right_shifter(input_a);
                proof {
                    lines = self.enablers[2].input_lines();
                    lemma_word_value_16(lines);
                }
            },
            Operation::NOT => {
                self.update_notter(input_a);
                proof {
                    lines = self.enablers[3].input_lines();
                    lemma_bits_value_not(input_a@);
                    lemma_word_value_16(lines);
                    lemma_u16_not(a);
                }
            },
            Operation::AND => {
                self.update_ander(input_a, input_b);
                proof {
                    lines = self.enablers[4].input_lines();
                    lemma_bits_value_bitwise(input_a@, input_b@);
                    lemma_word_value_16(lines);
                }
            },
            Operation::OR => {
                self.update_orer(input_a, input_b);
                proof {
                    lines = self.enablers[5].input_lines();
                    lemma_bits_value_bitwise(input_a@, input_b@);
                    lemma_word_value_16(lines);
                }
            },
            Operation::XOR => {
                self.update_xorer(input_a, input_b);
                proof {
                    lines = self.enablers[6].input_lines();
                    lemma_bits_value_bitwise(input_a@, input_b@);
                    lemma_word_value_16(lines);
                }
            },
            Operation::CMP => self.update_comparator(input_a, input_b),
        }
        assert(self.a_is_larger@ == (a > b));
        assert(self.is_equal@ == (a == b));
        assert(self.carry_in@ == cin);
        assert(self.carry_out@ == old_carry);
        if enabler != Operation::CMP {
            let k = i32::from(enabler);
            assert(k == op);
            assert(self.enablers[op].input_lines() == lines);
            assert(lines.len() == 16);
            assert(word_value(lines) == alu_output(op, a, b, cin));
            let ku = k as usize;
            self.enablers[ku].update(true);
            assert(self.enablers[op].output_lines() =~= lines);
            match enabler {
                Operation::ADD => {
                    let c = self.adder.get_carry_out();
                    let d = self.op_decoder.get_output_wire(0);
                    let g = self.and_gates[0].update(c, d);
                    self.carry_out.update(g);
                },
                Operation::SHR => {
                    let c = self.right_shifer.get();
                    let d = self.op_decoder.get_output_wire(2);
                    let g = self.and_gates[1].update(c, d);
                    self.carry_out.update(g);
                },
                Operation::SHL => {
                    let c = self.left_shifer.get();
                    let d = self.op_decoder.get_output_wire(1);
                    let g = self.and_gates[2].update(c, d);
                    self.carry_out.update(g);
                },
                _ => {},
            }
            assert(self.carry_out@ == alu_carry(op, a, b, cin, old_carry));
            proof {
                self.is_zero.lemma_shape();
            }
            let mut i: i32 = 0;
            while i < 16
                invariant
                    0 <= i <= 16,
                    ku == op,
                    0 <= op < 7,
                    self.enablers[op].output_lines() == lines,
                    lines.len() == 16,
                    self.is_zero.input_lines().len() == 16,
                    output_bus@.len() == 16,
                    output_bus.wf(),
                    output_bus.bus_width() == old(output_bus).bus_width(),
                    self.op == old(self).op,
                    self.carry_in == old(self).carry_in,
                    self.carry_out@ == alu_carry(op, a, b, cin, old_carry),
                    self.a_is_larger@ == (a > b),
                    self.is_equal@ == (a == b),
                    forall|j: int| 0 <= j < i ==> #[trigger] self.is_zero.input_lines()[j] == lines[j],
                    forall|j: int| 0 <= j < i ==> #[trigger] output_bus@[j] == lines[j],
                decreases 16 - i,
            {
                let line = self.enablers[ku].get_output_wire(i);
                self.is_zero.set_input_wire(i, line);
                output_bus.set_input_wire(i, line);
                i += 1;
            }
            assert(output_bus@ =~= lines);
            assert(self.is_zero.input_lines() =~= lines);
        } else {
            assert(op == 7);
            proof {
                self.is_zero.lemma_shape();
            }
            let mut i: i32 = 0;
            while i < 16
                invariant
                    0 <= i <= 16,
                    self.is_zero.input_lines().len() == 16,
                    output_bus@.len() == 16,
                    output_bus.wf(),
                    output_bus.bus_width() == old(output_bus).bus_width(),
                    self.op == old(self).op,
                    self.carry_in == old(self).carry_in,
                    self.carry_out@ == old_carry,
                    self.a_is_larger@ == (a > b),
                    self.is_equal@ == (a == b),
                    forall|j: int| 0 <= j < i ==> #[trigger] self.is_zero.input_lines()[j],
                    forall|j: int| 0 <= j < i ==> !(#[trigger] output_bus@[j]),
                decreases 16 - i,
            {
                self.is_zero.set_input_wire(i, true);
                output_bus.set_input_wire(i, false);
                i += 1;
            }
            proof {
                lemma_bits_value_zero(output_bus@);
                lemma_word_value_16(output_bus@);
            }
            assert(self.is_zero.input_lines()[0]);
        }
        self.is_zero.update();
        proof {
            lemma_word_value_16(output_bus@);
            lemma_bits_value_zero(old(self).is_zero.input_lines());
        }
        let carry = self.carry_out.get();
        flags_output_bus.set_input_wire(0, carry);
        let larger = self.a_is_larger.get();
        flags_output_bus.set_input_wire(1, larger);
        let equal = self.is_equal.get();
        flags_output_bus.set_input_wire(2, equal);
        let zero = self.is_zero.get_output_wire(0);
        flags_output_bus.set_input_wire(3, zero);
    }

    /// Puts bus `a` on the sixteen input lines of a one-word circuit.
    fn set_word_on_component<T: Component>(c: &mut T, input_a: &Bus)
        requires
            old(c).inputs().len() == 16,
            input_a@.len() == 16,
        ensures
            final(c).inputs() == input_a@,
    {
        let mut i: i32 = 16;
        while i > 0
            invariant
                0 <= i <= 16,
                input_a@.len() == 16,
                c.inputs().len() == 16,
                forall|j: int| i <= j < 16 ==> #[trigger] c.inputs()[j] == input_a@[j],
            decreases i,
        {
            i -= 1;
            let line = input_a.get_output_wire(i);
            c.set_input_wire(i, line);
        }
        assert(c.inputs() =~= input_a@);
    }

    fn update_op_decoder(&mut self)
        ensures
            final(self).op_decoder.output_lines() == one_hot(8, old(self).op_index()),
            final(self).op == old(self).op,
            final(self).carry_in == old(self).carry_in,
            final(self).carry_out == old(self).carry_out,
            final(self).is_zero == old(self).is_zero,
            final(self).enablers == old(self).enablers,
            final(self).and_gates == old(self).and_gates,
    {
        let a = self.op[2].get();
        let b = self.op[1].get();
        let c = self.op[0].get();
        self.op_decoder.update(a, b, c)
    }

    fn update_comparator(&mut self, input_a: &Bus, input_b: &Bus)
        requires
            input_a@.len() == 16,
            input_b@.len() == 16,
        ensures
            final(self).a_is_larger@ == (bits_value(input_a@) > bits_value(input_b@)),
            final(self).is_equal@ == (bits_value(input_a@) == bits_value(input_b@)),
            final(self).op == old(self).op,
            final(self).carry_in == old(self).carry_in,
            final(self).carry_out == old(self).carry_out,
            final(self).op_decoder == old(self).op_decoder,
            final(self).is_zero == old(self).is_zero,
            final(self).enablers == old(self).enablers,
            final(self).and_gates == old(self).and_gates,
            final(self).adder == old(self).adder,
            final(self).left_shifer == old(self).left_shifer,
            final(self).right_shifer == old(self).right_shifer,
    {
        proof {
            self.comparator.lemma_shape();
        }
        Self::set_wire_on_component(&mut self.comparator, input_a, input_b);
        assert((input_a@ + input_b@).subrange(0, 16) =~= input_a@);
        assert((input_a@ + input_b@).subrange(16, 32) =~= input_b@);
        self.comparator.update();
        let larger = self.comparator.larger();
        self.a_is_larger.update(larger);
        let equal = self.comparator.equal();
        self.is_equal.update(equal);
    }

    fn update_xorer(&mut self, input_a: &Bus, input_b: &Bus)
        requires
            input_a@.len() == 16,
            input_b@.len() == 16,
        ensures
            final(self).enablers[6].input_lines() == lines_xor(input_a@, input_b@),
            others_kept(*old(self), *final(self), 6),
            final(self).and_gates == old(self).and_gates,
    {
        proof {
            self.xorer.lemma_shape();
        }
        Self::set_wire_on_component(&mut self.xorer, input_a, input_b);
        assert((input_a@ + input_b@).subrange(0, 16) =~= input_a@);
        assert((input_a@ + input_b@).subrange(16, 32) =~= input_b@);
        self.xorer.update();
        let x = self.xorer;
        proof {
            x.lemma_shape();
        }
        self.wire_to_enabler(&x, 6);
        assert(self.enablers[6].input_lines() =~= lines_xor(input_a@, input_b@));
    }

    fn update_orer(&mut self, input_a: &Bus, input_b: &Bus)
        requires
            input_a@.len() == 16,
            input_b@.len() == 16,
        ensures
            final(self).enablers[5].input_lines() == lines_or(input_a@, input_b@),
            others_kept(*old(self), *final(self), 5),
            final(self).and_gates == old(self).and_gates,
    {
        proof {
            self.orer.lemma_shape();
        }
        Self::set_wire_on_component(&mut self.orer, input_a, input_b);
        assert((input_a@ + input_b@).subrange(0, 16) =~= input_a@);
        assert((input_a@ + input_b@).subrange(16, 32) =~= input_b@);
        self.orer.update();
        let x = self.orer;
        proof {
            x.lemma_shape();
        }
        self.wire_to_enabler(&x, 5);
        assert(self.enablers[5].input_lines() =~= lines_or(input_a@, input_b@));
    }

    fn update_ander(&mut self, input_a: &Bus, input_b: &Bus)
        requires
            input_a@.len() == 16,
            input_b@.len() == 16,
        ensures
            final(self).enablers[4].input_lines() == lines_and(input_a@, input_b@),
            others_kept(*old(self), *final(self), 4),
            final(self).and_gates == old(self).and_gates,
    {
        proof {
            self.ander.lemma_shape();
        }
        Self::set_wire_on_component(&mut self.ander, input_a, input_b);
        assert((input_a@ + input_b@).subrange(0, 16) =~= input_a@);
        assert((input_a@ + input_b@).subrange(16, 32) =~= input_b@);
        self.ander.update();
        let x = self.ander;
        proof {
            x.lemma_shape();
        }
        self.wire_to_enabler(&x, 4);
        assert(self.enablers[4].input_lines() =~= lines_and(input_a@, input_b@));
    }

    fn update_notter(&mut self, input_a: &Bus)
        requires
            input_a@.len() == 16,
        ensures
            final(self).enablers[3].input_lines() == lines_not(input_a@),
            others_kept(*old(self), *final(self), 3),
            final(self).and_gates == old(self).and_gates,
    {
        proof {
            self.notter.lemma_shape();
        }
        Self::set_word_on_component(&mut self.notter, input_a);
        self.notter.update();
        let x = self.notter;
        proof {
            x.lemma_shape();
        }
        self.wire_to_enabler(&x, 3);
        assert(self.enablers[3].input_lines() =~= lines_not(input_a@));
    }

    fn update_right_shifter(&mut self, input_a: &Bus)
        requires
            input_a@.len() == 16,
        ensures
            final(self).enablers[2].input_lines().len() == 16,
            bits_value(final(self).enablers[2].input_lines()) == bit(old(self).carry_in@) * 32768
                + bits_value(input_a@) / 2,
            final(self).right_shifer.shifted_out() == (bits_value(input_a@) % 2 == 1),
            others_kept(*old(self), *final(self), 2),
            final(self).and_gates == old(self).and_gates,
    {
        proof {
            self.right_shifer.lemma_shape();
        }
        Self::set_word_on_component(&mut self.right_shifer, input_a);
        let carry_in = self.carry_in.get();
        self.right_shifer.update(carry_in);
        let x = self.right_shifer;
        proof {
            x.lemma_shape();
        }
        self.wire_to_enabler(&x, 2);
        assert(self.enablers[2].input_lines() =~= x.output_lines());
    }

    fn update_left_shifter(&mut self, input_a: &Bus)
        requires
            input_a@.len() == 16,
        ensures
            final(self).enablers[1].input_lines().len() == 16,
            bits_value(final(self).enablers[1].input_lines()) == (2 * bits_value(input_a@) + bit(
                old(self).carry_in@,
            )) % 65536,
            final(self).left_shifer.shifted_out() == (bits_value(input_a@) >= 32768),
            others_kept(*old(self), *final(self), 1),
            final(self).and_gates == old(self).and_gates,
    {
        proof {
            self.left_shifer.lemma_shape();
        }
        Self::set_word_on_component(&mut self.left_shifer, input_a);
        let carry_in = self.carry_in.get();
        self.left_shifer.update(carry_in);
        let x = self.left_shifer;
        proof {
            x.lemma_shape();
        }
        self.wire_to_enabler(&x, 1);
        assert(self.enablers[1].input_lines() =~= x.output_lines());
    }

    fn update_adder(&mut self, input_a: &Bus, input_b: &Bus)
        requires
            input_a@.len() == 16,
            input_b@.len() == 16,
        ensures
            final(self).enablers[0].input_lines().len() == 16,
            bits_value(final(self).enablers[0].input_lines()) == (bits_value(input_a@)
                + bits_value(input_b@) + bit(old(self).carry_in@)) % 65536,
            final(self).adder.carry() == (bits_value(input_a@) + bits_value(input_b@) + bit(
                old(self).carry_in@,
            ) >= 65536),
            others_kept(*old(self), *final(self), 0),
            final(self).and_gates == old(self).and_gates,
    {
        proof {
            self.adder.lemma_shape();
        }
        Self::set_wire_on_component(&mut self.adder, input_a, input_b);
        assert((input_a@ + input_b@).subrange(0, 16) =~= input_a@);
        assert((input_a@ + input_b@).subrange(16, 32) =~= input_b@);
        let carry_in = self.carry_in.get();
        self.adder.update(carry_in);
        let x = self.adder;
        proof {
            x.lemma_shape();
        }
        self.wire_to_enabler(&x, 0);
        assert(self.enablers[0].input_lines() =~= x.output_lines());
    }
}

} // verus!
