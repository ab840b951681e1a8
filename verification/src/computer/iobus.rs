//! The four control lines between the CPU and its peripherals.
use crate::components::{Enableable, Settable};
use crate::gates::Wire;
use vstd::prelude::*;

verus! {

/// The meaning of each of the four I/O lines, in line order.
#[derive(Clone, Copy, Debug, PartialEq, Eq, Structural)]
pub enum Mode {
    ClockSet,
    ClockEnable,
    Mode,
    DataOrAddress,
}

/// The line that carries a given signal.
pub open spec fn mode_line(m: Mode) -> int {
    match m {
        Mode::ClockSet => 0,
        Mode::ClockEnable => 1,
        Mode::Mode => 2,
        Mode::DataOrAddress => 3,
    }
}

/// The signal carried by line `v`; numbers past the last line mean `Mode`.
pub open spec fn mode_of_line(v: usize) -> Mode {
    if v == 0 {
        Mode::ClockSet
    } else if v == 1 {
        Mode::ClockEnable
    } else if v == 3 {
        Mode::DataOrAddress
    } else {
        Mode::Mode
    }
}

impl From<usize> for Mode {
    fn from(value: usize) -> (r: Self) {
        match value {
            0 => Mode::ClockSet,
            1 => Mode::ClockEnable,
            2 => Mode::Mode,
            3 => Mode::DataOrAddress,
            _ => Mode::Mode,
        }
    }
}

impl vstd::std_specs::convert::FromSpecImpl<usize> for Mode {
    open spec fn obeys_from_spec() -> bool {
        true
    }

    open spec fn from_spec(v: usize) -> Mode {
        mode_of_line(v)
    }
}

impl From<Mode> for i32 {
    fn from(value: Mode) -> (r: Self) {
        match value {
            Mode::ClockSet => 0,
            Mode::ClockEnable => 1,
            Mode::Mode => 2,
            Mode::DataOrAddress => 3,
        }
    }
}

impl vstd::std_specs::convert::FromSpecImpl<Mode> for i32 {
    open spec fn obeys_from_spec() -> bool {
        true
    }

    open spec fn from_spec(v: Mode) -> i32 {
        mode_line(v) as i32
    }
}

/// Four wires: clock set, clock enable, input/output, data/address.
#[derive(Clone, Copy, Debug)]
pub struct IOBus {
    wires: [Wire; 4],
}

impl IOBus {
    /// The signal on line `i`.
    pub closed spec fn line(&self, i: int) -> bool {
        self.wires[i]@
    }

    pub fn new() -> (r: Self)
        ensures
            forall|i: int| 0 <= i < 4 ==> !r.line(i),
    {
        Self { wires: [Wire::with_value(false); 4] }
    }

    pub fn is_set(&self) -> (r: bool)
        ensures
            r == self.line(mode_line(Mode::ClockSet)),
    {
        self.wires[0].get()
    }

    pub fn is_enable(&self) -> (r: bool)
        ensures
            r == self.line(mode_line(Mode::ClockEnable)),
    {
        self.wires[1].get()
    }

    pub fn is_input_mode(&self) -> (r: bool)
        ensures
            r == !self.line(mode_line(Mode::Mode)),
    {
        self.wires[2].get() == false
    }

    pub fn is_output_mode(&self) -> (r: bool)
        ensures
            r == self.line(mode_line(Mode::Mode)),
    {
        self.wires[2].get() == true
    }

    pub fn is_data_mode(&self) -> (r: bool)
        ensures
            r == !self.line(mode_line(Mode::DataOrAddress)),
    {
        self.wires[3].get() == false
    }

    pub fn is_address_mode(&self) -> (r: bool)
        ensures
            r == self.line(mode_line(Mode::DataOrAddress)),
    {
        self.wires[3].get() == true
    }

    /// Puts the direction (`false` input, `true` output) and the kind of
    /// transfer (`false` data, `true` address) on their lines.
    pub fn update(&mut self, mode: bool, data_or_address: bool)
        ensures
            final(self).line(2) == mode,
            final(self).line(3) == data_or_address,
            final(self).line(0) == old(self).line(0),
            final(self).line(1) == old(self).line(1),
    {
        self.wires[2].update(mode);
        self.wires[3].update(data_or_address);
    }

    pub fn get_output_wire(&self, index: i32) -> (r: bool)
        requires
            0 <= index < 4,
        ensures
            r == self.line(index as int),
    {
        self.wires[index as usize].get()
    }
}

impl Enableable for IOBus {
    open spec fn is_enabled(&self) -> bool {
        self.line(1)
    }

    open spec fn enable_kept(self, other: Self) -> bool {
        &&& other.line(0) == self.line(0)
        &&& other.line(2) == self.line(2)
        &&& other.line(3) == self.line(3)
    }

    fn enable(&mut self) {
        self.wires[1].update(true)
    }

    fn disable(&mut self) {
        self.wires[1].update(false)
    }
}

impl Settable for IOBus {
    open spec fn is_set(&self) -> bool {
        self.line(0)
    }

    open spec fn set_kept(self, other: Self) -> bool {
        &&& other.line(1) == self.line(1)
        &&& other.line(2) == self.line(2)
        &&& other.line(3) == self.line(3)
    }

    fn set(&mut self) {
        self.wires[0].update(true)
    }

    fn unset(&mut self) {
        self.wires[0].update(false)
    }
}

} // verus!
