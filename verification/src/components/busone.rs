//! "Bus 1": passes a bus through unchanged, or puts the number 1 on it in
//! place of its contents.
use super::bus::Bus;
use super::register::driven;
use super::{Component, Enableable};
use crate::bits::{
    bits_value, lemma_bits_value_bound, lemma_bits_value_zero, lemma_p2_mono, lemma_p2_values,
};
use crate::gates::{lines_of, Wire, AND, NOT, OR};
use vstd::prelude::*;

verus! {

/// The lines that come out of bus 1: the number 1 when `bus1` is on,
/// otherwise the input lines.
pub open spec fn bus_one_lines(input: Seq<bool>, bus1: bool) -> Seq<bool> {
    Seq::new(16, |i: int| if i < 15 { input[i] && !bus1 } else { input[i] || bus1 })
}

#[derive(Clone, Copy, Debug)]
pub struct BusOne {
    inputs: [Wire; 16],
    pub bus1: Wire,
    pub and_gates: [AND; 15],
    pub not_gate: NOT,
    pub or_gate: OR,
    outputs: [Wire; 16],
}

impl BusOne {
    pub closed spec fn input_lines(&self) -> Seq<bool> {
        lines_of(self.inputs@)
    }

    pub closed spec fn output_lines(&self) -> Seq<bool> {
        lines_of(self.outputs@)
    }

    pub closed spec fn bus1_on(&self) -> bool {
        self.bus1@
    }

    pub proof fn lemma_shape(&self)
        ensures
            self.input_lines().len() == 16,
            self.output_lines().len() == 16,
    {
    }

    pub fn new() -> (r: Self)
        ensures
            r.input_lines() == Seq::new(16, |i: int| false),
            r.output_lines() == Seq::new(16, |i: int| false),
            !r.bus1_on(),
    {
        let w = Wire::with_value(false);
        let r = Self {
            inputs: [w; 16],
            bus1: w,
            and_gates: [AND::new(); 15],
            not_gate: NOT::new(),
            or_gate: OR::new(),
            outputs: [w; 16],
        };
        assert(r.input_lines() =~= Seq::new(16, |i: int| false));
        assert(r.output_lines() =~= Seq::new(16, |i: int| false));
        r
    }

    /// The number on the output lines, line 0 being the most significant bit.
    pub fn value(&self) -> (r: u16)
        ensures
            r == bits_value(self.output_lines()),
    {
        let mut value: u16 = 0;
        let mut i: usize = 0;
        while i < 16
            invariant
                0 <= i <= 16,
                self.output_lines().len() == 16,
                value == bits_value(self.output_lines().take(i as int)),
            decreases 16 - i,
        {
            proof {
                lemma_bits_value_bound(self.output_lines().take(i as int));
                lemma_p2_mono((i + 1) as nat, 16);
                lemma_p2_values();
                assert(self.output_lines().take(i + 1).drop_last() =~= self.output_lines().take(
                    i as int,
                ));
            }
            let line = self.outputs[i].get();
            value = value * 2 + if line {
                1
            } else {
                0
            };
            i += 1;
        }
        assert(self.output_lines().take(16) =~= self.output_lines());
        value
    }

    /// Reads the first sixteen lines of `input_bus`, and writes either them
    /// or the number 1 onto the first sixteen lines of `output_bus`.
    pub fn update(&mut self, input_bus: &Bus, output_bus: &mut Bus)
        requires
            input_bus@.len() >= 16,
            old(output_bus)@.len() >= 16,
            old(output_bus).wf(),
        ensures
            final(self).input_lines() == input_bus@.take(16),
            final(self).output_lines() == bus_one_lines(input_bus@, old(self).bus1_on()),
            final(self).bus1_on() == old(self).bus1_on(),
            final(output_bus).wf(),
            final(output_bus).bus_width() == old(output_bus).bus_width(),
            final(output_bus)@ == driven(old(output_bus)@, final(self).output_lines()),
    {
        let mut i: i32 = 16;
        while i > 0
            invariant
                0 <= i <= 16,
                input_bus@.len() >= 16,
                self.bus1 == old(self).bus1,
                forall|j: int| i <= j < 16 ==> (#[trigger] self.inputs[j])@ == input_bus@[j],
            decreases i,
        {
            i -= 1;
            let line = input_bus.get_output_wire(i);
            self.inputs[i as usize].update(line);
        }
        let bus1 = self.bus1.get();
        let not_bus1 = self.not_gate.update(bus1);
        let mut k: usize = 0;
        while k < 15
            invariant
                0 <= k <= 15,
                self.bus1 == old(self).bus1,
                not_bus1 == !bus1,
                bus1 == old(self).bus1@,
                forall|j: int| 0 <= j < 16 ==> (#[trigger] self.inputs[j])@ == input_bus@[j],
                forall|j: int|
                    0 <= j < k ==> (#[trigger] self.outputs[j])@ == (input_bus@[j] && !bus1),
            decreases 15 - k,
        {
            let line = self.inputs[k].get();
            let out = self.and_gates[k].update(line, not_bus1);
            self.outputs[k].update(out);
            k += 1;
        }
        let last = self.inputs[15].get();
        let out = self.or_gate.update(last, bus1);
        self.outputs[15].update(out);
        assert(self.input_lines() =~= input_bus@.take(16));
        assert(self.output_lines() =~= bus_one_lines(input_bus@, old(self).bus1_on()));
        let ghost after = *self;
        let mut m: i32 = 16;
        while m > 0
            invariant
                0 <= m <= 16,
                *self == after,
                after.output_lines().len() == 16,
                old(output_bus)@.len() >= 16,
                output_bus@.len() == old(output_bus)@.len(),
                output_bus.wf(),
                output_bus.bus_width() == old(output_bus).bus_width(),
                forall|j: int|
                    0 <= j < output_bus@.len() ==> #[trigger] output_bus@[j] == (if m <= j < 16 {
                        after.output_lines()[j]
                    } else {
                        old(output_bus)@[j]
                    }),
            decreases m,
        {
            m -= 1;
            let line = self.outputs[m as usize].get();
            output_bus.set_input_wire(m, line);
        }
        assert(output_bus@ =~= driven(old(output_bus)@, self.output_lines()));
    }
}

impl Component for BusOne {
    open spec fn inputs(&self) -> Seq<bool> {
        self.input_lines()
    }

    open spec fn has_output(&self, i: int) -> bool {
        0 <= i < 16
    }

    open spec fn output_at(&self, i: int) -> bool {
        self.output_lines()[i]
    }

    fn set_input_wire(&mut self, i: i32, value: bool)
        ensures
            final(self).output_lines() == old(self).output_lines(),
            final(self).bus1_on() == old(self).bus1_on(),
    {
        self.inputs[i as usize].update(value);
        assert(self.input_lines() =~= old(self).input_lines().update(i as int, value));
        assert(self.output_lines() =~= old(self).output_lines());
    }

    fn get_output_wire(&self, i: i32) -> (r: bool) {
        self.outputs[i as usize].get()
    }
}

impl Enableable for BusOne {
    open spec fn is_enabled(&self) -> bool {
        self.bus1_on()
    }

    open spec fn enable_kept(self, other: Self) -> bool {
        &&& other.input_lines() == self.input_lines()
        &&& other.output_lines() == self.output_lines()
    }

    fn enable(&mut self) {
        self.bus1.update(true)
    }

    fn disable(&mut self) {
        self.bus1.update(false)
    }
}

/// With bus 1 on the output carries the number 1 whatever the input; with it
/// off the output is the input.
pub proof fn law_bus_one(input: Seq<bool>)
    requires
        input.len() == 16,
    ensures
        bits_value(bus_one_lines(input, true)) == 1,
        bus_one_lines(input, false) == input,
{
    let s = bus_one_lines(input, true);
    lemma_bits_value_zero(s.drop_last());
    assert(bus_one_lines(input, false) =~= input);
}

} // verus!
