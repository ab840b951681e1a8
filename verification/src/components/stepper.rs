//! The stepper: a ring of six steps driven by the clock, built from twelve
//! memory cells in master/slave pairs.
use super::storage::Bit;
use crate::gates::{lines_of, Wire, AND, NOT, OR};
use vstd::prelude::*;

verus! {

/// What cell `n` of the chain holds after one pass, given what the cells held
/// before (`s`), the clock and the reset line.  Even cells are set while the
/// clock is off, odd cells while it is on; the reset line sets them all.
pub open spec fn stepper_cell(s: Seq<bool>, clock: bool, reset: bool, n: nat) -> bool
    decreases n,
{
    let set = if n % 2 == 0 {
        reset || !clock
    } else {
        reset || clock
    };
    let input = if n == 0 {
        !reset
    } else {
        stepper_cell(s, clock, reset, (n - 1) as nat)
    };
    if set {
        input
    } else {
        s[n as int]
    }
}

/// The twelve cells after one pass.
pub open spec fn stepper_next(s: Seq<bool>, clock: bool, reset: bool) -> Seq<bool> {
    Seq::new(12, |i: int| stepper_cell(s, clock, reset, i as nat))
}

/// The seven output lines for the given cells: step 1 is on until the first
/// pair has filled (or while resetting), step `k` is on while pair `k - 1`
/// has filled and pair `k` has not; the last line asks for a reset.
pub open spec fn stepper_outputs(b: Seq<bool>, reset: bool) -> Seq<bool> {
    Seq::new(
        7,
        |i: int|
            if i == 0 {
                !b[1] || reset
            } else if i < 6 {
                !b[2 * i + 1] && b[2 * i - 1]
            } else {
                b[11]
            },
    )
}

/// What the stepper's behaviour depends on: its cells, its output lines and
/// its reset line.
pub type StepperState = (Seq<bool>, Seq<bool>, bool);

/// The state of a stepper just made.
pub open spec fn stepper_initial() -> StepperState {
    (Seq::new(12, |i: int| true), Seq::new(7, |i: int| false), false)
}

/// The state after the clock line is moved to `clock`: the reset line takes
/// the last output, one pass is made, and a second pass with reset on follows
/// when that pass reached the last output.
pub open spec fn stepper_update(st: StepperState, clock: bool) -> StepperState {
    let r1 = st.1[6];
    let c1 = stepper_next(st.0, clock, r1);
    let o1 = stepper_outputs(c1, r1);
    if o1[6] {
        let c2 = stepper_next(c1, clock, true);
        (c2, stepper_outputs(c2, true), true)
    } else {
        (c1, o1, r1)
    }
}

/// One full clock cycle: the clock goes on, then off.
pub open spec fn stepper_cycle(st: StepperState) -> StepperState {
    stepper_update(stepper_update(st, true), false)
}

/// The state of a new stepper after `n` full clock cycles.
pub open spec fn stepper_after(n: nat) -> StepperState
    decreases n,
{
    if n == 0 {
        stepper_initial()
    } else {
        stepper_cycle(stepper_after((n - 1) as nat))
    }
}

/// Exactly output line `k` on, of seven.
pub open spec fn only_output(k: int) -> Seq<bool> {
    Seq::new(7, |i: int| i == k)
}

pub struct Stepper {
    pub input_or_gates: [OR; 2],
    pub reset: Wire,
    pub reset_not_gate: NOT,
    pub clock_in: Wire,
    pub clock_in_not_gate: NOT,
    pub bits: [Bit; 12],
    pub outputs: [Wire; 7],
    pub output_or_gate: OR,
    pub output_and_gates: [AND; 5],
    pub output_not_gates: [NOT; 6],
}

impl Stepper {
    /// What the twelve cells hold.
    pub open spec fn cells(&self) -> Seq<bool> {
        Seq::new(12, |i: int| self.bits[i].stored())
    }

    /// The seven output lines.
    pub open spec fn output_lines(&self) -> Seq<bool> {
        lines_of(self.outputs@)
    }

    /// Cells, output lines and reset line together.
    pub open spec fn state(&self) -> StepperState {
        (self.cells(), self.output_lines(), self.reset@)
    }

    pub fn new() -> (r: Self)
        ensures
            r.state() == stepper_initial(),
            r.cells() == Seq::new(12, |i: int| true),
            r.output_lines() == Seq::new(7, |i: int| false),
            !r.reset@,
            !r.clock_in@,
    {
        let w = Wire::with_value(false);
        let r = Self {
            bits: [Bit::new(); 12],
            reset: w,
            reset_not_gate: NOT::new(),
            clock_in: w,
            clock_in_not_gate: NOT::new(),
            input_or_gates: [OR::new(); 2],
            outputs: [w; 7],
            output_or_gate: OR::new(),
            output_and_gates: [AND::new(); 5],
            output_not_gates: [NOT::new(); 6],
        };
        assert(r.cells() =~= Seq::new(12, |i: int| true));
        assert(r.output_lines() =~= Seq::new(7, |i: int| false));
        assert(r.state() == stepper_initial());
        r
    }

    /// Moves the clock line to `clock_in`.  The reset line takes the value of
    /// the last output; when a step then reaches the last output the stepper
    /// is reset at once.
    pub fn update(&mut self, clock_in: bool)
        ensures
            final(self).state() == stepper_update(old(self).state(), clock_in),
            ({
                let r1 = old(self).output_lines()[6];
                let c1 = stepper_next(old(self).cells(), clock_in, r1);
                let o1 = stepper_outputs(c1, r1);
                if o1[6] {
                    let c2 = stepper_next(c1, clock_in, true);
                    &&& final(self).cells() == c2
                    &&& final(self).output_lines() == stepper_outputs(c2, true)
                    &&& final(self).reset@
                } else {
                    &&& final(self).cells() == c1
                    &&& final(self).output_lines() == o1
                    &&& final(self).reset@ == r1
                }
            }),
            final(self).clock_in@ == clock_in,
    {
        self.clock_in.update(clock_in);
        let last = self.outputs[6].get();
        self.reset.update(last);
        self.step();
        if self.outputs[6].get() {
            let last = self.outputs[6].get();
            self.reset.update(last);
            self.step();
        }
    }

    /// One pass of the signals through the gates and cells.
    pub fn step(&mut self)
        ensures
            final(self).cells() == stepper_next(old(self).cells(), old(self).clock_in@, old(self).reset@),
            final(self).output_lines() == stepper_outputs(final(self).cells(), old(self).reset@),
            final(self).clock_in == old(self).clock_in,
            final(self).reset == old(self).reset,
    {
        let ghost s = self.cells();
        let ghost c = self.clock_in@;
        let ghost r = self.reset@;
        let clock = self.clock_in.get();
        let not_clock = self.clock_in_not_gate.update(clock);
        let reset = self.reset.get();
        let not_reset = self.reset_not_gate.update(reset);

        let set_even = self.input_or_gates[0].update(reset, not_clock);
        let set_odd = self.input_or_gates[1].update(reset, clock);

        self.bits[0].update(not_reset, set_even);
        let b0 = self.bits[0].get();
        assert(b0 == stepper_cell(s, c, r, 0));
        self.bits[1].update(b0, set_odd);
        let b1 = self.bits[1].get();
        assert(b1 == stepper_cell(s, c, r, 1));
        let n0 = self.output_not_gates[0].update(b1);
        let out0 = self.output_or_gate.update(n0, reset);

        self.bits[2].update(b1, set_even);
        let b2 = self.bits[2].get();
        assert(b2 == stepper_cell(s, c, r, 2));
        self.bits[3].update(b2, set_odd);
        let b3 = self.bits[3].get();
        assert(b3 == stepper_cell(s, c, r, 3));
        let n1 = self.output_not_gates[1].update(b3);
        let out1 = self.output_and_gates[0].update(n1, b1);

        self.bits[4].update(b3, set_even);
        let b4 = self.bits[4].get();
        assert(b4 == stepper_cell(s, c, r, 4));
        self.bits[5].update(b4, set_odd);
        let b5 = self.bits[5].get();
        assert(b5 == stepper_cell(s, c, r, 5));
        let n2 = self.output_not_gates[2].update(b5);
        let out2 = self.output_and_gates[1].update(n2, b3);

        self.bits[6].update(b5, set_even);
        let b6 = self.bits[6].get();
        assert(b6 == stepper_cell(s, c, r, 6));
        self.bits[7].update(b6, set_odd);
        let b7 = self.bits[7].get();
        assert(b7 == stepper_cell(s, c, r, 7));
        let n3 = self.output_not_gates[3].update(b7);
        let out3 = self.output_and_gates[2].update(n3, b5);

        self.bits[8].update(b7, set_even);
        let b8 = self.bits[8].get();
        assert(b8 == stepper_cell(s, c, r, 8));
        self.bits[9].update(b8, set_odd);
        let b9 = self.bits[9].get();
        assert(b9 == stepper_cell(s, c, r, 9));
        let n4 = self.output_not_gates[4].update(b9);
        let out4 = self.output_and_gates[3].update(n4, b7);

        self.bits[10].update(b9, set_even);
        let b10 = self.bits[10].get();
        assert(b10 == stepper_cell(s, c, r, 10));
        self.bits[11].update(b10, set_odd);
        let b11 = self.bits[11].get();
        assert(b11 == stepper_cell(s, c, r, 11));
        let n5 = self.output_not_gates[5].update(b11);
        let out5 = self.output_and_gates[4].update(n5, b9);

        self.outputs[0].update(out0);
        self.outputs[1].update(out1);
        self.outputs[2].update(out2);
        self.outputs[3].update(out3);
        self.outputs[4].update(out4);
        self.outputs[5].update(out5);
        self.outputs[6].update(b11);
        assert(self.cells() =~= stepper_next(s, c, r));
        assert(self.output_lines() =~= stepper_outputs(self.cells(), r));
    }

    pub fn get_output_wire(&self, index: i32) -> (r: bool)
        requires
            0 <= index < 7,
        ensures
            r == self.output_lines()[index as int],
    {
        self.outputs[index as usize].get()
    }
}

/// The state after full cycle `n`, for `1 <= n <= 6`: the first `2n - 1`
/// cells are full, step `n` is on and the reset line is off.
pub open spec fn stepper_at_step(n: int) -> StepperState {
    (Seq::new(12, |i: int| i < 2 * n - 1), only_output(n - 1), false)
}

proof fn lemma_update_first_cycle()
    ensures
        stepper_cycle(stepper_initial()) == stepper_at_step(1),
{
    reveal_with_fuel(stepper_cell, 12);
    let h = stepper_update(stepper_initial(), true);
    let c1 = stepper_next(stepper_initial().0, true, false);
    assert(c1 =~= Seq::new(12, |i: int| true));
    let c2 = stepper_next(c1, true, true);
    assert(c2 =~= Seq::new(12, |i: int| false));
    assert(h.0 =~= Seq::new(12, |i: int| false));
    assert(h.1 =~= only_output(0));
    let d = stepper_next(h.0, false, false);
    assert(d =~= stepper_at_step(1).0);
    assert(stepper_outputs(d, false) =~= only_output(0));
}

proof fn lemma_update_cycle(n: int)
    requires
        1 <= n <= 6,
    ensures
        stepper_cycle(stepper_at_step(n)) == stepper_at_step(if n == 6 { 1 } else { n + 1 }),
{
    reveal_with_fuel(stepper_cell, 12);
    let st = stepper_at_step(n);
    let c1 = stepper_next(st.0, true, false);
    if n < 6 {
        assert(c1 =~= Seq::new(12, |i: int| i < 2 * n));
        assert(stepper_outputs(c1, false) =~= only_output(n));
        let c2 = stepper_next(c1, false, false);
        assert(c2 =~= stepper_at_step(n + 1).0);
        assert(stepper_outputs(c2, false) =~= only_output(n));
    } else {
        assert(c1 =~= Seq::new(12, |i: int| true));
        let c2 = stepper_next(c1, true, true);
        assert(c2 =~= Seq::new(12, |i: int| false));
        assert(stepper_outputs(c2, true) =~= only_output(0));
        let d = stepper_next(c2, false, false);
        assert(d =~= stepper_at_step(1).0);
        assert(stepper_outputs(d, false) =~= only_output(0));
    }
}

/// During each half of the clock cycle that starts from the end of step `n`
/// (or from a new stepper, `n` being 0) the stepper shows step `n + 1`,
/// after step 6 step 1 again, and the cycle ends at the end of that step.
pub proof fn lemma_cycle_halves(st: StepperState, n: int)
    requires
        0 <= n <= 6,
        n == 0 ==> st == stepper_initial(),
        n >= 1 ==> st == stepper_at_step(n),
    ensures
        stepper_update(st, true).1 == only_output(n % 6),
        stepper_update(stepper_update(st, true), false).1 == only_output(n % 6),
        stepper_update(stepper_update(st, true), false) == stepper_at_step(n % 6 + 1),
{
    reveal_with_fuel(stepper_cell, 12);
    if n == 0 {
        lemma_update_first_cycle();
        let c1 = stepper_next(st.0, true, false);
        assert(c1 =~= Seq::new(12, |i: int| true));
        let c2 = stepper_next(c1, true, true);
        assert(c2 =~= Seq::new(12, |i: int| false));
        assert(stepper_update(st, true).1 =~= only_output(0));
    } else {
        lemma_update_cycle(n);
        let c1 = stepper_next(st.0, true, false);
        if n < 6 {
            assert(c1 =~= Seq::new(12, |i: int| i < 2 * n));
            assert(stepper_outputs(c1, false) =~= only_output(n));
        } else {
            assert(c1 =~= Seq::new(12, |i: int| true));
            let c2 = stepper_next(c1, true, true);
            assert(c2 =~= Seq::new(12, |i: int| false));
            assert(stepper_outputs(c2, true) =~= only_output(0));
        }
    }
}

/// Driven by full clock cycles from new, the stepper shows no step before the
/// first cycle, step `n` (output line `n - 1`) after cycle `n` for the six
/// steps of an instruction, and then starts again at step 1: after `n + 6`
/// cycles it is where it was after `n`.
pub proof fn law_stepper_steps(n: nat)
    ensures
        stepper_after(0).1 == Seq::new(7, |i: int| false),
        1 <= n <= 6 ==> stepper_after(n).1 == only_output(n - 1),
        1 <= n ==> stepper_after(n + 6) == stepper_after(n),
    decreases n,
{
    assert(stepper_initial().1 =~= Seq::new(7, |i: int| false));
    if n >= 1 {
        lemma_steps_from_new(n);
        lemma_steps_from_new(n + 6);
        assert((n + 5) % 6 == (n - 1) % 6);
    }
}

proof fn lemma_steps_from_new(n: nat)
    requires
        n >= 1,
    ensures
        stepper_after(n) == stepper_at_step(((n - 1) % 6) + 1),
    decreases n,
{
    assert(stepper_after(n) == stepper_cycle(stepper_after((n - 1) as nat)));
    if n == 1 {
        assert(stepper_after(0) == stepper_initial());
        lemma_update_first_cycle();
    } else {
        lemma_steps_from_new((n - 1) as nat);
        let k = ((n - 2) % 6) + 1;
        lemma_update_cycle(k);
        assert((if k == 6 { 1 } else { k + 1 }) == ((n - 1) % 6) + 1);
    }
}

} // verus!