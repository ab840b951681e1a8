//! A register: a word of memory cells whose contents can be put on an output
//! bus through an enabler.
use super::{Component, Enableable, Enabler, Settable, Word};
use super::bus::Bus;
use crate::bits::bits_value;
use crate::gates::{lines_of, Wire};
use vstd::prelude::*;

verus! {

/// The lines a register puts out: its contents when enabled, otherwise none.
pub open spec fn gated(lines: Seq<bool>, enable: bool) -> Seq<bool> {
    Seq::new(16, |i: int| lines[i] && enable)
}

/// Lines `0 .. n` of `bus` replaced by `lines`.
pub open spec fn driven(bus: Seq<bool>, lines: Seq<bool>) -> Seq<bool> {
    Seq::new(bus.len(), |i: int| if i < lines.len() { lines[i] } else { bus[i] })
}

/// A 16-bit register.  `set` lets it take in the input bus; `enable` lets it
/// drive the output bus.
#[derive(Clone, Copy, Debug)]
pub struct Register {
    pub name: &'static str,
    pub set: Wire,
    pub enable: Wire,
    pub word: Word,
    pub enabler: Enabler,
    pub outputs: [Wire; 16],
}

impl Register {
    /// What the sixteen cells hold.
    pub closed spec fn stored_lines(&self) -> Seq<bool> {
        self.word.stored_lines()
    }

    /// The lines coming out of the memory cells.
    pub closed spec fn word_lines(&self) -> Seq<bool> {
        self.word.output_lines()
    }

    /// The lines coming out of the enabler.
    pub closed spec fn output_lines(&self) -> Seq<bool> {
        lines_of(self.outputs@)
    }

    pub closed spec fn set_on(&self) -> bool {
        self.set@
    }

    pub closed spec fn enable_on(&self) -> bool {
        self.enable@
    }

    pub proof fn lemma_shape(&self)
        ensures
            self.stored_lines().len() == 16,
            self.word_lines().len() == 16,
            self.output_lines().len() == 16,
    {
        self.word.lemma_shape();
    }

    pub fn new(name: &'static str) -> (r: Self)
        ensures
            r.name == name,
            r.stored_lines() == Seq::new(16, |i: int| true),
            r.word_lines() == Seq::new(16, |i: int| false),
            r.output_lines() == Seq::new(16, |i: int| false),
            !r.set_on(),
            !r.enable_on(),
    {
        let w = Wire::with_value(false);
        let outputs = [w, w, w, w, w, w, w, w, w, w, w, w, w, w, w, w];
        let r = Self {
            name,
            set: w,
            enable: w,
            word: Word::new(),
            enabler: Enabler::new(),
            outputs,
        };
        assert(r.output_lines() =~= Seq::new(16, |i: int| false));
        r
    }

    /// Line `index` of the memory cells' output.
    pub fn bit(&self, index: i32) -> (r: bool)
        requires
            0 <= index < 16,
        ensures
            r == self.word_lines()[index as int],
    {
        proof {
            self.word.lemma_shape();
        }
        self.word.get_output_wire(index)
    }

    /// The number the memory cells put out.
    pub fn word_value(&self) -> (r: u16)
        ensures
            r == bits_value(self.word_lines()),
    {
        proof {
            self.word.lemma_shape();
        }
        let mut value: u16 = 0;
        let mut i: i32 = 0;
        while i < 16
            invariant
                0 <= i <= 16,
                self.word_lines().len() == 16,
                value == bits_value(self.word_lines().take(i as int)),
            decreases 16 - i,
        {
            proof {
                crate::bits::lemma_bits_value_bound(self.word_lines().take(i as int));
                crate::bits::lemma_p2_mono((i + 1) as nat, 16);
                crate::bits::lemma_p2_values();
                assert(self.word_lines().take(i + 1).drop_last() =~= self.word_lines().take(
                    i as int,
                ));
            }
            let line = self.word.get_output_wire(i);
            value = value * 2 + if line {
                1
            } else {
                0
            };
            i += 1;
        }
        assert(self.word_lines().take(16) =~= self.word_lines());
        value
    }

    /// The number the register puts out through its enabler.
    pub fn value(&self) -> (r: u16)
        ensures
            r == bits_value(self.output_lines()),
    {
        let mut value: u16 = 0;
        let mut i: usize = 0;
        while i < 16
            invariant
                0 <= i <= 16,
                self.output_lines().len() == 16,
                value == bits_value(self.output_lines().take(i as int)),
            decreases 16 - i,
        {
            proof {
                crate::bits::lemma_bits_value_bound(self.output_lines().take(i as int));
                crate::bits::lemma_p2_mono((i + 1) as nat, 16);
                crate::bits::lemma_p2_values();
                assert(self.output_lines().take(i + 1).drop_last() =~= self.output_lines().take(
                    i as int,
                ));
            }
            let line = self.outputs[i].get();
            value = value * 2 + if line {
                1
            } else {
                0
            };
            i += 1;
        }
        assert(self.output_lines().take(16) =~= self.output_lines());
        value
    }

    /// Takes in the first sixteen lines of `input` when set, and passes
    /// the contents to the output lines when enabled.
    fn latch(&mut self, input: &Bus)
        requires
            input@.len() >= 16,
        ensures
            final(self).stored_lines() == (if old(self).set_on() {
                input@.take(16)
            } else {
                old(self).stored_lines()
            }),
            final(self).word_lines() == final(self).stored_lines(),
            final(self).output_lines() == gated(final(self).stored_lines(), old(self).enable_on()),
            final(self).set_on() == old(self).set_on(),
            final(self).enable_on() == old(self).enable_on(),
            final(self).name == old(self).name,
    {
        proof {
            self.word.lemma_shape();
        }
        let mut i: i32 = 16;
        while i > 0
            invariant
                0 <= i <= 16,
                input@.len() >= 16,
                self.word.input_lines().len() == 16,
                self.word.stored_lines() == old(self).word.stored_lines(),
                self.set == old(self).set,
                self.enable == old(self).enable,
                self.name == old(self).name,
                forall|j: int| i <= j < 16 ==> #[trigger] self.word.input_lines()[j] == input@[j],
            decreases i,
        {
            i -= 1;
            let line = input.get_output_wire(i);
            self.word.set_input_wire(i, line);
        }
        assert(self.word.input_lines() =~= input@.take(16));
        let set = self.set.get();
        self.word.update(set);
        let ghost word_after = self.word;
        proof {
            self.word.lemma_shape();
            self.enabler.lemma_shape();
        }
        let mut k: i32 = 0;
        while k < 16
            invariant
                0 <= k <= 16,
                self.word == word_after,
                self.set == old(self).set,
                self.enable == old(self).enable,
                self.name == old(self).name,
                word_after.output_lines().len() == 16,
                self.enabler.input_lines().len() == 16,
                forall|j: int|
                    0 <= j < k ==> #[trigger] self.enabler.input_lines()[j]
                        == word_after.output_lines()[j],
            decreases 16 - k,
        {
            let line = self.word.get_output_wire(k);
            self.enabler.set_input_wire(k, line);
            k += 1;
        }
        assert(self.enabler.input_lines() =~= self.word.output_lines());
        let enable = self.enable.get();
        self.enabler.update(enable);
        let ghost enabler_after = self.enabler;
        proof {
            self.enabler.lemma_shape();
        }
        let mut m: usize = 0;
        while m < 16
            invariant
                0 <= m <= 16,
                self.word == word_after,
                self.enabler == enabler_after,
                self.set == old(self).set,
                self.enable == old(self).enable,
                self.name == old(self).name,
                enabler_after.output_lines().len() == 16,
                forall|j: int|
                    0 <= j < m ==> (#[trigger] self.outputs[j])@ == enabler_after.output_lines()[j],
            decreases 16 - m,
        {
            let line = self.enabler.get_output_wire(m as i32);
            self.outputs[m].update(line);
            m += 1;
        }
        assert(self.output_lines() =~= gated(self.stored_lines(), old(self).enable_on()));
    }

    /// Writes the output lines onto the first sixteen lines of `output` when
    /// the register is enabled.
    fn drive(&self, output: &mut Bus)
        requires
            old(output)@.len() >= 16,
            old(output).wf(),
        ensures
            final(output).wf(),
            final(output).bus_width() == old(output).bus_width(),
            final(output)@ == (if self.enable_on() {
                driven(old(output)@, self.output_lines())
            } else {
                old(output)@
            }),
    {
        if self.enable.get() {
            let mut i: i32 = 16;
            while i > 0
                invariant
                    0 <= i <= 16,
                    old(output)@.len() >= 16,
                    output@.len() == old(output)@.len(),
                    output.wf(),
                    output.bus_width() == old(output).bus_width(),
                    self.output_lines().len() == 16,
                    forall|j: int|
                        0 <= j < output@.len() ==> #[trigger] output@[j] == (if i <= j < 16 {
                            self.output_lines()[j]
                        } else {
                            old(output)@[j]
                        }),
                decreases i,
            {
                i -= 1;
                let line = self.outputs[i as usize].get();
                output.set_input_wire(i, line);
            }
            assert(output@ =~= driven(old(output)@, self.output_lines()));
        }
    }

    /// Reads the input bus and, when enabled, drives the output bus.
    pub fn update(&mut self, input_bus: &Bus, output_bus: &mut Bus)
        requires
            input_bus@.len() >= 16,
            old(output_bus)@.len() >= 16,
            old(output_bus).wf(),
        ensures
            final(self).stored_lines() == (if old(self).set_on() {
                input_bus@.take(16)
            } else {
                old(self).stored_lines()
            }),
            final(self).word_lines() == final(self).stored_lines(),
            final(self).output_lines() == gated(final(self).stored_lines(), old(self).enable_on()),
            final(self).set_on() == old(self).set_on(),
            final(self).enable_on() == old(self).enable_on(),
            final(output_bus).wf(),
            final(output_bus).bus_width() == old(output_bus).bus_width(),
            final(output_bus)@ == (if old(self).enable_on() {
                driven(old(output_bus)@, final(self).output_lines())
            } else {
                old(output_bus)@
            }),
    {
        self.latch(input_bus);
        self.drive(output_bus);
    }

    /// Like `update`, for a register whose input and output are the same bus.
    pub fn update_on(&mut self, bus: &mut Bus)
        requires
            old(bus)@.len() >= 16,
            old(bus).wf(),
        ensures
            final(self).stored_lines() == (if old(self).set_on() {
                old(bus)@.take(16)
            } else {
                old(self).stored_lines()
            }),
            final(self).word_lines() == final(self).stored_lines(),
            final(self).output_lines() == gated(final(self).stored_lines(), old(self).enable_on()),
            final(self).set_on() == old(self).set_on(),
            final(self).enable_on() == old(self).enable_on(),
            final(bus).wf(),
            final(bus).bus_width() == old(bus).bus_width(),
            final(bus)@ == (if old(self).enable_on() {
                driven(old(bus)@, final(self).output_lines())
            } else {
                old(bus)@
            }),
    {
        self.latch(bus);
        self.drive(bus);
    }
}

impl Enableable for Register {
    open spec fn is_enabled(&self) -> bool {
        self.enable_on()
    }

    open spec fn enable_kept(self, other: Self) -> bool {
        &&& other.stored_lines() == self.stored_lines()
        &&& other.word_lines() == self.word_lines()
        &&& other.output_lines() == self.output_lines()
        &&& other.set_on() == self.set_on()
        &&& other.name == self.name
    }

    fn enable(&mut self) {
        self.enable.update(true)
    }

    fn disable(&mut self) {
        self.enable.update(false)
    }
}

impl Settable for Register {
    open spec fn is_set(&self) -> bool {
        self.set_on()
    }

    open spec fn set_kept(self, other: Self) -> bool {
        &&& other.stored_lines() == self.stored_lines()
        &&& other.word_lines() == self.word_lines()
        &&& other.output_lines() == self.output_lines()
        &&& other.enable_on() == self.enable_on()
        &&& other.name == self.name
    }

    fn set(&mut self) {
        self.set.update(true)
    }

    fn unset(&mut self) {
        self.set.update(false)
    }
}

} // verus!
