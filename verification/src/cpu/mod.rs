//! The central processing unit and its arithmetic and logic unit.
pub mod alu;
pub mod control;

pub use alu::{Operation, ALU};
pub use control::CPU;

use crate::components::Decoder3x8;
use crate::gates::{AND, NOT};
use vstd::prelude::*;

verus! {

/// The four flags, in the order of their lines on the flags bus.
#[derive(Debug, Clone, Copy, PartialEq, Eq, Structural)]
pub enum FlagState {
    Carry,
    ALarger,
    Equal,
    Zero,
}

/// The line that carries a flag.
pub open spec fn flag_line(f: FlagState) -> i32 {
    match f {
        FlagState::Carry => 0,
        FlagState::ALarger => 1,
        FlagState::Equal => 2,
        FlagState::Zero => 3,
    }
}

impl From<FlagState> for i32 {
    fn from(state: FlagState) -> (r: Self) {
        match state {
            FlagState::Carry => 0,
            FlagState::ALarger => 1,
            FlagState::Equal => 2,
            FlagState::Zero => 3,
        }
    }
}

impl vstd::std_specs::convert::FromSpecImpl<FlagState> for i32 {
    open spec fn obeys_from_spec() -> bool {
        true
    }

    open spec fn from_spec(v: FlagState) -> i32 {
        flag_line(v)
    }
}

/// Decodes bits 1 to 3 of an ALU-less instruction into one of eight
/// selector lines, which are only on when bit 0 (the ALU bit) is off.
#[derive(Clone, Copy, Debug)]
pub struct InstructionDecoder3x8 {
    pub decoder: Decoder3x8,
    pub selector_gates: [AND; 8],
    pub bit0_not_gate: NOT,
}

impl InstructionDecoder3x8 {
    pub(crate) fn new() -> (r: Self)
        ensures
            forall|i: int| 0 <= i < 8 ==> !(#[trigger] r.selector_gates[i])@,
    {
        Self { decoder: Decoder3x8::new(), selector_gates: [AND::new(); 8], bit0_not_gate: NOT::new() }
    }
}

} // verus!
