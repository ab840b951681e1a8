//! Memory cells: a one-bit latch made of four NAND gates, and a word of
//! sixteen of them.
use super::Component;
use crate::gates::{lines_of, Wire, NAND};
use vstd::prelude::*;

verus! {

/// A one-bit memory cell.  While `set` is on the cell follows its input; when
/// `set` goes off it keeps the last value.
#[derive(Clone, Copy, Debug)]
pub struct Bit {
    pub gates: [NAND; 4],
    pub wire_o: Wire,
}

impl Bit {
    /// The value the latch holds: the opposite of the feedback gate.
    pub open spec fn stored(&self) -> bool {
        !self.gates[3]@
    }

    #[verifier::spinoff_prover]
    pub fn new() -> (r: Self)
        ensures
            r.wire_o@ == false,
            r.stored(),
    {
        let g = NAND::new();
        let gates = [g, g, g, g];
        assert(gates@[3] == g);
        Self { gates, wire_o: Wire::with_value(false) }
    }

    pub fn get(&self) -> (r: bool)
        ensures
            r == self.wire_o@,
    {
        self.wire_o.get()
    }

    /// One pass of the signals through the four gates.
    fn settle(&mut self, wire_i: bool, wire_s: bool)
        ensures
            wire_s ==> final(self).stored() == wire_i,
            wire_s && old(self).stored() == wire_i ==> final(self).wire_o@ == wire_i,
            !wire_s ==> final(self).wire_o@ == old(self).stored(),
            !wire_s ==> final(self).gates[3]@ == old(self).gates[3]@,
    {
        self.gates[0].update(wire_i, wire_s);
        let g0 = self.gates[0].get();
        self.gates[1].update(g0, wire_s);
        let g3 = self.gates[3].get();
        self.gates[2].update(g0, g3);
        let g2 = self.gates[2].get();
        let g1 = self.gates[1].get();
        self.gates[3].update(g2, g1);
        self.wire_o.update(g2);
    }

    pub fn update(&mut self, wire_i: bool, wire_s: bool)
        ensures
            final(self).wire_o@ == (if wire_s {
                wire_i
            } else {
                old(self).stored()
            }),
            final(self).stored() == final(self).wire_o@,
    {
        self.settle(wire_i, wire_s);
        self.settle(wire_i, wire_s);
    }
}

/// Sixteen one-bit cells that are set together.
#[derive(Clone, Copy, Debug)]
pub struct Word {
    inputs: [Wire; 16],
    pub bits: [Bit; 16],
    outputs: [Wire; 16],
}

impl Word {
    /// The signals on the input lines.
    pub closed spec fn input_lines(&self) -> Seq<bool> {
        lines_of(self.inputs@)
    }

    /// The signals on the output lines.
    pub closed spec fn output_lines(&self) -> Seq<bool> {
        lines_of(self.outputs@)
    }

    /// The values the sixteen cells hold.
    pub closed spec fn stored_lines(&self) -> Seq<bool> {
        Seq::new(16, |i: int| self.bits[i].stored())
    }

    pub proof fn lemma_shape(&self)
        ensures
            self.input_lines().len() == 16,
            self.output_lines().len() == 16,
            self.stored_lines().len() == 16,
    {
    }

    pub fn new() -> (r: Self)
        ensures
            r.input_lines() == Seq::new(16, |i: int| false),
            r.output_lines() == Seq::new(16, |i: int| false),
            r.stored_lines() == Seq::new(16, |i: int| true),
    {
        let w = Wire::with_value(false);
        let b = Bit::new();
        let inputs = [w, w, w, w, w, w, w, w, w, w, w, w, w, w, w, w];
        let bits = [b, b, b, b, b, b, b, b, b, b, b, b, b, b, b, b];
        let outputs = [w, w, w, w, w, w, w, w, w, w, w, w, w, w, w, w];
        assert(forall|i: int| 0 <= i < 16 ==> #[trigger] inputs@[i] == w && outputs@[i] == w && bits@[i] == b);
        let r = Self { inputs, bits, outputs };
        assert(r.input_lines() =~= Seq::new(16, |i: int| false));
        assert(r.output_lines() =~= Seq::new(16, |i: int| false));
        assert(r.stored_lines() =~= Seq::new(16, |i: int| true));
        r
    }

    /// Lets every cell take in its input line when `set` is on.
    pub fn update(&mut self, set: bool)
        ensures
            final(self).input_lines() == old(self).input_lines(),
            final(self).output_lines() == (if set {
                old(self).input_lines()
            } else {
                old(self).stored_lines()
            }),
            final(self).stored_lines() == final(self).output_lines(),
    {
        let mut i: usize = 0;
        while i < 16
            invariant
                i <= 16,
                self.inputs == old(self).inputs,
                forall|j: int|
                    i <= j < 16 ==> #[trigger] self.bits[j] == old(self).bits[j],
                forall|j: int|
                    0 <= j < i ==> (#[trigger] self.outputs[j])@ == (if set {
                        old(self).inputs[j]@
                    } else {
                        old(self).bits[j].stored()
                    }),
                forall|j: int| 0 <= j < i ==> #[trigger] self.bits[j].stored() == self.outputs[j]@,
            decreases 16 - i,
        {
            let input = self.inputs[i].get();
            self.bits[i].update(input, set);
            let out = self.bits[i].get();
            self.outputs[i].update(out);
            i += 1;
        }
        assert(self.output_lines() =~= (if set {
            old(self).input_lines()
        } else {
            old(self).stored_lines()
        }));
        assert(self.stored_lines() =~= self.output_lines());
        assert(self.input_lines() =~= old(self).input_lines());
    }
}

impl Component for Word {
    open spec fn inputs(&self) -> Seq<bool> {
        self.input_lines()
    }

    open spec fn has_output(&self, i: int) -> bool {
        0 <= i < 16
    }

    open spec fn output_at(&self, i: int) -> bool {
        self.output_lines()[i]
    }

    fn set_input_wire(&mut self, i: i32, value: bool)
        ensures
            final(self).output_lines() == old(self).output_lines(),
            final(self).stored_lines() == old(self).stored_lines(),
    {
        self.inputs[i as usize].update(value);
        assert(lines_of(self.inputs@) =~= lines_of(old(self).inputs@).update(i as int, value));
        assert(self.output_lines() =~= old(self).output_lines());
        assert(self.stored_lines() =~= old(self).stored_lines());
    }

    fn get_output_wire(&self, i: i32) -> (r: bool) {
        self.outputs[i as usize].get()
    }
}

} // verus!
