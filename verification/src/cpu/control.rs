//! The CPU: registers, buses, the ALU, the memory and the control unit whose
//! gates turn the stepper's steps and the instruction register's bits into
//! the enable and set signals of the parts.
use super::alu::{alu_output, ALU};
use super::InstructionDecoder3x8;
use crate::bits::{word_bits, word_value};
use crate::components::bus::Bus;
use crate::components::stepper::{
    lemma_cycle_halves, only_output, stepper_at_step, stepper_initial, stepper_update, StepperState,
};
use crate::components::decoder::{index2, index3, one_hot};
use crate::components::register::gated;
use crate::components::busone::bus_one_lines;
use crate::components::{
    ANDGate3, ORGate3, ORGate4, ORGate5, ORGate6, Bit, BusOne, Decoder2x4, Enableable, Register,
    Settable, Stepper, Component,
};
use crate::computer::IOBus;
use crate::io::{device_updated, Device, DisplayAdapter, Peripheral, ScreenControl};
use crate::io::display::screen_drawn;
use crate::gates::{Wire, AND, NOT, OR};
use crate::memory::{address_index, drive_result, Memory64K, MEMORY_WORDS};
use vstd::prelude::*;

verus! {

/// A bus of sixteen lines, as every bus of the CPU is.
pub open spec fn bus16(b: Bus) -> bool {
    b.wf() && b@.len() == 16 && b.bus_width() == 16
}

pub struct CPU {
    gp_reg0: Register,
    gp_reg1: Register,
    gp_reg2: Register,
    gp_reg3: Register,
    tmp: Register,
    acc: Register,
    iar: Register,
    ir: Register,
    flags: Register,
    clock_state: bool,
    memory: Memory64K,
    alu: ALU,
    stepper: Stepper,
    busone: BusOne,
    main_bus: Bus,
    pub tmp_bus: Bus,
    pub busone_output: Bus,
    pub control_bus: Bus,
    acc_bus: Bus,
    pub alu_to_flags_bus: Bus,
    flags_bus: Bus,
    io_bus: IOBus,
    step4_gates: [AND; 8],
    step4_gate3_and: ANDGate3,
    step5_gates: [AND; 6],
    step5_gate3_and: ANDGate3,
    step6_gates: [ANDGate3; 2],
    step6_gates2_and: AND,
    instr_decoder3x8: InstructionDecoder3x8,
    instruction_decoder_enables2x4: [Decoder2x4; 2],
    instruction_decoder_set2x4: Decoder2x4,
    ir_instruction_and_gate: ANDGate3,
    ir_instruction_not_gate: NOT,
    io_bus_enable_gate: AND,
    register_a_enable_or_gate: ORGate3,
    register_b_enable_or_gate: ORGate4,
    register_b_set_or_gate: ORGate4,
    register_a_enable: Wire,
    register_b_enable: Wire,
    acc_enable_or_gate: ORGate4,
    acc_enable_and_gate: AND,
    bus_one_enable_or_gate: ORGate4,
    iar_enable_or_gate: ORGate4,
    iar_enable_and_gate: AND,
    ram_enable_or_gate: ORGate5,
    ram_enable_and_gate: AND,
    gp_reg_enable_and_gates: [ANDGate3; 8],
    gp_reg_enable_or_gates: [OR; 4],
    gp_reg_set_and_gates: [ANDGate3; 4],
    io_bus_set_gate: AND,
    ir_set_and_gate: AND,
    ir_bit4_not_gate: NOT,
    mar_set_and_gate: AND,
    mar_set_or_gate: ORGate6,
    iar_set_and_gate: AND,
    iar_set_or_gate: ORGate6,
    acc_set_and_gate: AND,
    acc_set_or_gate: ORGate4,
    ram_set_and_gate: AND,
    tmp_set_and_gate: AND,
    flags_set_and_gate: AND,
    flags_set_or_gate: OR,
    register_b_set: Wire,
    flag_state_gates: [AND; 4],
    flag_state_or_gate: ORGate4,
    alu_op_and_gates: [ANDGate3; 3],
    carry_temp: Bit,
    carry_and_gate: AND,
    peripherals: Vec<Device>,
}

/// What a step of the control unit leaves alone: the stepper and the clock,
/// and the shape of the buses and the memory.
pub open spec fn kept(s: &CPU, t: &CPU) -> bool {
    &&& t.stepper_state() == s.stepper_state()
    &&& t.clock() == s.clock()
    &&& t.wf()
}

/// The registers, memory, buses, ALU, stepper and devices of `t` are those
/// of `s`, but for the ones numbered in `ex` (in field order: the four
/// general purpose registers 0 to 3, TMP 4, ACC 5, IAR 6, IR 7, FLAGS 8, the
/// clock 9, memory 10, ALU 11, stepper 12, bus 1 13, the buses 14 to 20, the
/// I/O bus 21, the devices 22 and the instruction decoder 23).
spec fn data_same_but(s: &CPU, t: &CPU, ex: Set<int>) -> bool {
    &&& (!ex.contains(0) ==> t.gp_reg0 == s.gp_reg0)
    &&& (!ex.contains(1) ==> t.gp_reg1 == s.gp_reg1)
    &&& (!ex.contains(2) ==> t.gp_reg2 == s.gp_reg2)
    &&& (!ex.contains(3) ==> t.gp_reg3 == s.gp_reg3)
    &&& (!ex.contains(4) ==> t.tmp == s.tmp)
    &&& (!ex.contains(5) ==> t.acc == s.acc)
    &&& (!ex.contains(6) ==> t.iar == s.iar)
    &&& (!ex.contains(7) ==> t.ir == s.ir)
    &&& (!ex.contains(8) ==> t.flags == s.flags)
    &&& (!ex.contains(9) ==> t.clock_state == s.clock_state)
    &&& (!ex.contains(10) ==> t.memory == s.memory)
    &&& (!ex.contains(11) ==> t.alu == s.alu)
    &&& (!ex.contains(12) ==> t.stepper == s.stepper)
    &&& (!ex.contains(13) ==> t.busone == s.busone)
    &&& (!ex.contains(14) ==> t.main_bus == s.main_bus)
    &&& (!ex.contains(15) ==> t.tmp_bus == s.tmp_bus)
    &&& (!ex.contains(16) ==> t.busone_output == s.busone_output)
    &&& (!ex.contains(17) ==> t.control_bus == s.control_bus)
    &&& (!ex.contains(18) ==> t.acc_bus == s.acc_bus)
    &&& (!ex.contains(19) ==> t.alu_to_flags_bus == s.alu_to_flags_bus)
    &&& (!ex.contains(20) ==> t.flags_bus == s.flags_bus)
    &&& (!ex.contains(21) ==> t.io_bus == s.io_bus)
    &&& (!ex.contains(22) ==> t.peripherals == s.peripherals)
    &&& (!ex.contains(23) ==> t.instr_decoder3x8 == s.instr_decoder3x8)
}

/// The word register `r` holds once it has seen `bus`.
spec fn latch(r: Register, bus: Seq<bool>) -> Seq<bool> {
    if r.set_on() {
        bus.take(16)
    } else {
        r.stored_lines()
    }
}

/// `bus` once a part holding `w` has put it out, when `on`.
spec fn put(bus: Seq<bool>, w: Seq<bool>, on: bool) -> Seq<bool> {
    drive_result(bus, gated(w, on), on)
}

/// The set and enable signals of the parts are those of `s`.
spec fn signals_same(s: &CPU, t: &CPU) -> bool {
    &&& t.iar.set_on() == s.iar.set_on() && t.iar.enable_on() == s.iar.enable_on()
    &&& t.ir.set_on() == s.ir.set_on() && t.ir.enable_on() == s.ir.enable_on()
    &&& t.acc.set_on() == s.acc.set_on() && t.acc.enable_on() == s.acc.enable_on()
    &&& t.tmp.set_on() == s.tmp.set_on() && t.tmp.enable_on() == s.tmp.enable_on()
    &&& t.flags.set_on() == s.flags.set_on() && t.flags.enable_on() == s.flags.enable_on()
    &&& t.gp_reg0.set_on() == s.gp_reg0.set_on() && t.gp_reg0.enable_on() == s.gp_reg0.enable_on()
    &&& t.gp_reg1.set_on() == s.gp_reg1.set_on() && t.gp_reg1.enable_on() == s.gp_reg1.enable_on()
    &&& t.gp_reg2.set_on() == s.gp_reg2.set_on() && t.gp_reg2.enable_on() == s.gp_reg2.enable_on()
    &&& t.gp_reg3.set_on() == s.gp_reg3.set_on() && t.gp_reg3.enable_on() == s.gp_reg3.enable_on()
    &&& t.memory.set_on() == s.memory.set_on() && t.memory.enable_on() == s.memory.enable_on()
    &&& t.memory.mar().set_on() == s.memory.mar().set_on()
    &&& t.memory.mar().enable_on() == s.memory.mar().enable_on()
    &&& t.busone.bus1_on() == s.busone.bus1_on()
    &&& t.io_bus.line(0) == s.io_bus.line(0) && t.io_bus.line(1) == s.io_bus.line(1)
}

/// The instruction address, instruction, accumulator and memory address
/// registers and the memory of `t` hold what those of `s` hold.
spec fn held_same(s: &CPU, t: &CPU) -> bool {
    &&& t.iar.stored_lines() == s.iar.stored_lines()
    &&& t.ir.stored_lines() == s.ir.stored_lines()
    &&& t.acc.stored_lines() == s.acc.stored_lines()
    &&& t.memory.mar().stored_lines() == s.memory.mar().stored_lines()
    &&& forall|j: int| 0 <= j < MEMORY_WORDS ==> #[trigger] t.memory.word(j) == s.memory.word(j)
    &&& regs_same(s, t)
}

/// The general purpose, temporary and flags registers of `t`, and its latch
/// of the carry flag, hold what those of `s` hold.
spec fn regs_same(s: &CPU, t: &CPU) -> bool {
    &&& t.gp_reg0.stored_lines() == s.gp_reg0.stored_lines()
    &&& t.gp_reg1.stored_lines() == s.gp_reg1.stored_lines()
    &&& t.gp_reg2.stored_lines() == s.gp_reg2.stored_lines()
    &&& t.gp_reg3.stored_lines() == s.gp_reg3.stored_lines()
    &&& t.tmp.stored_lines() == s.tmp.stored_lines()
    &&& t.flags.stored_lines() == s.flags.stored_lines()
    &&& t.carry_temp.stored() == s.carry_temp.stored()
}

/// Half a clock cycle from `s` to `t`, with the clock on, in step `out + 1`
/// of the instruction held, which is not an ALU instruction but instruction
/// `k` of the decoder, every set signal being off at its start and only
/// display adapters connected.
spec fn runs(s: &CPU, t: &CPU, c: bool, out: int, k: int) -> bool {
    &&& s.unlatched()
    &&& all_displays(s.peripherals@)
    &&& c
    &&& t.stepper_state().1 == only_output(out)
    &&& s.decodes()
    &&& !s.ir_bit(8)
    &&& s.alu_op() == k
    &&& s.ir.word_lines() == s.ir.stored_lines()
}

/// Whether a conditional jump held is taken: one of the flags it names
/// (bits 4 to 7 of its low byte: carry, a larger, equal, zero) is on.
spec fn jump_taken(s: &CPU) -> bool {
    ||| s.ir_bit(12) && s.flags_bus@[0]
    ||| s.ir_bit(13) && s.flags_bus@[1]
    ||| s.ir_bit(14) && s.flags_bus@[2]
    ||| s.ir_bit(15) && s.flags_bus@[3]
}

/// What half a clock cycle, from `s` to `t` with the clock at `c`, does to
/// the registers, the memory and the latches of the control unit.  The set
/// signals are all off at its end and every register shows the word it
/// holds.  With the clock off nothing is taken in.  With it on, each step
/// moves one word over the main bus: step 1 puts the instruction address in
/// the memory address register and the address of the next word in the
/// accumulator, step 2 loads the instruction register from memory, step 3
/// moves the accumulator into the instruction address register, and steps 4
/// to 6 do what the instruction held asks for (an ALU instruction: register
/// B to the temporary register, the ALU's result to the accumulator, the
/// accumulator to register B; LD, ST, DATA, JMPR, JMP and JMP IF their
/// transfers).  Whatever a step does not take in keeps its word.
spec fn half_step(s: &CPU, t: &CPU, c: bool) -> bool {
    &&& t.unlatched()
    &&& !t.memory.enable_on()
    &&& t.decoded()
    &&& t.decodes()
    &&& t.iar.word_lines() == t.iar.stored_lines()
    &&& t.ir.word_lines() == t.ir.stored_lines()
    &&& t.peripherals@.len() == s.peripherals@.len()
    &&& all_displays(s.peripherals@) ==> all_displays(t.peripherals@)
    &&& !t.step_on(4) ==> !t.carry_and_gate@
    &&& t.ir_instruction_not_gate@ == !(t.ir_bit(11) && t.ir_bit(10) && t.ir_bit(9))
    &&& t.tmp.enable_on() == s.tmp.enable_on()
    &&& t.flags.enable_on() == s.flags.enable_on()
    &&& t.flags.enable_on() ==> t.flags_bus@ == t.flags.stored_lines()
    &&& t.flags.enable_on() ==> t.flag_state_or_gate@ == jump_taken(t)
    &&& forall|r: int| 0 <= r < 4 ==> #[trigger] t.register_lines(r) == t.held_lines(r)
    &&& s.unlatched() && !c ==> held_same(s, t)
    &&& s.unlatched() && !t.step_on(3) && !t.step_on(4) && !t.step_on(5) ==> regs_same(s, t)
    &&& s.unlatched() && !t.step_on(1) ==> t.ir.stored_lines() == s.ir.stored_lines()
    &&& s.unlatched() && all_displays(s.peripherals@) && c && t.stepper_state().1 == only_output(0)
        && !s.carry_and_gate@ ==> {
        &&& t.memory.mar().stored_lines() == s.iar.stored_lines()
        &&& word_value(t.acc.stored_lines()) == (word_value(s.iar.stored_lines()) + 1) % 65536
        &&& forall|j: int| 0 <= j < MEMORY_WORDS ==> #[trigger] t.memory.word(j) == s.memory.word(j)
    }
    &&& s.unlatched() && all_displays(s.peripherals@) && c && t.stepper_state().1 == only_output(1) ==> {
        &&& t.ir.stored_lines() == s.memory.word(address_index(s.memory.mar().stored_lines()))
        &&& t.acc.stored_lines() == s.acc.stored_lines()
        &&& t.memory.mar().stored_lines() == s.memory.mar().stored_lines()
    }
    &&& s.unlatched() && all_displays(s.peripherals@) && c && t.stepper_state().1 == only_output(2)
        ==> t.iar.stored_lines() == s.acc.stored_lines()
    &&& s.unlatched() && all_displays(s.peripherals@) && c && t.stepper_state().1 == only_output(3)
        && s.decoded() && s.ir_bit(8) && s.flags.enable_on() && s.flags_bus@ == s.flags.stored_lines() ==> {
        &&& t.tmp.stored_lines() == s.held_lines(s.reg_b())
        &&& t.carry_temp.stored() == s.flags.stored_lines()[0]
        &&& forall|r: int| #[trigger] t.held_lines(r) == s.held_lines(r)
        &&& t.flags.stored_lines() == s.flags.stored_lines()
    }
    &&& s.unlatched() && all_displays(s.peripherals@) && c && t.stepper_state().1 == only_output(4)
        && s.decoded() && s.ir_bit(8) && s.tmp.enable_on() && s.ir.word_lines() == s.ir.stored_lines() ==> {
        &&& word_value(t.acc.stored_lines()) == alu_output(
            s.alu_op(),
            word_value(s.held_lines(s.reg_a())),
            word_value(s.tmp.stored_lines()),
            s.carry_temp.stored(),
        )
        &&& forall|r: int| #[trigger] t.held_lines(r) == s.held_lines(r)
        &&& t.tmp.stored_lines() == s.tmp.stored_lines()
    }
    &&& s.unlatched() && all_displays(s.peripherals@) && c && t.stepper_state().1 == only_output(5)
        && s.decoded() && s.ir_bit(8) && s.ir_instruction_not_gate@ == !(s.ir_bit(11) && s.ir_bit(10)
        && s.ir_bit(9)) && s.ir.word_lines() == s.ir.stored_lines() ==> forall|r: int| 0 <= r < 4 ==> #[trigger] t.held_lines(r) == (if r == s.reg_b()
        && !(s.ir_bit(11) && s.ir_bit(10) && s.ir_bit(9)) {
        s.acc.stored_lines()
    } else {
        s.held_lines(r)
    })
    &&& runs(s, t, c, 3, 0) || runs(s, t, c, 3, 1) ==> {
        &&& t.memory.mar().stored_lines() == s.held_lines(s.reg_a())
        &&& t.iar.stored_lines() == s.iar.stored_lines()
        &&& regs_same(s, t)
        &&& forall|j: int| 0 <= j < MEMORY_WORDS ==> #[trigger] t.memory.word(j) == s.memory.word(j)
    }
    &&& (runs(s, t, c, 3, 2) || runs(s, t, c, 3, 5)) && !s.carry_and_gate@ ==> {
        &&& t.memory.mar().stored_lines() == s.iar.stored_lines()
        &&& word_value(t.acc.stored_lines()) == (word_value(s.iar.stored_lines()) + 1) % 65536
        &&& t.iar.stored_lines() == s.iar.stored_lines()
        &&& regs_same(s, t)
        &&& forall|j: int| 0 <= j < MEMORY_WORDS ==> #[trigger] t.memory.word(j) == s.memory.word(j)
    }
    &&& runs(s, t, c, 3, 3) ==> {
        &&& t.iar.stored_lines() == s.held_lines(s.reg_b())
        &&& regs_same(s, t)
    }
    &&& runs(s, t, c, 3, 4) ==> {
        &&& t.memory.mar().stored_lines() == s.iar.stored_lines()
        &&& t.iar.stored_lines() == s.iar.stored_lines()
        &&& regs_same(s, t)
        &&& forall|j: int| 0 <= j < MEMORY_WORDS ==> #[trigger] t.memory.word(j) == s.memory.word(j)
    }
    &&& runs(s, t, c, 4, 0) || runs(s, t, c, 4, 2) ==> {
        &&& forall|r: int| 0 <= r < 4 ==> #[trigger] t.held_lines(r) == (if r == s.reg_b() {
            s.memory.word(address_index(s.memory.mar().stored_lines()))
        } else {
            s.held_lines(r)
        })
        &&& t.iar.stored_lines() == s.iar.stored_lines()
        &&& t.acc.stored_lines() == s.acc.stored_lines()
        &&& t.memory.mar().stored_lines() == s.memory.mar().stored_lines()
        &&& forall|j: int| 0 <= j < MEMORY_WORDS ==> #[trigger] t.memory.word(j) == s.memory.word(j)
    }
    &&& runs(s, t, c, 4, 1) ==> {
        &&& t.memory.word(address_index(s.memory.mar().stored_lines())) == s.held_lines(s.reg_b())
        &&& forall|j: int| 0 <= j < MEMORY_WORDS && j != address_index(s.memory.mar().stored_lines())
            ==> #[trigger] t.memory.word(j) == s.memory.word(j)
        &&& t.iar.stored_lines() == s.iar.stored_lines()
        &&& forall|r: int| 0 <= r < 4 ==> #[trigger] t.held_lines(r) == s.held_lines(r)
    }
    &&& runs(s, t, c, 4, 4) ==> {
        &&& t.iar.stored_lines() == s.memory.word(address_index(s.memory.mar().stored_lines()))
        &&& forall|r: int| 0 <= r < 4 ==> #[trigger] t.held_lines(r) == s.held_lines(r)
    }
    &&& runs(s, t, c, 4, 5) ==> {
        &&& t.iar.stored_lines() == s.acc.stored_lines()
        &&& t.memory.mar().stored_lines() == s.memory.mar().stored_lines()
        &&& regs_same(s, t)
        &&& forall|j: int| 0 <= j < MEMORY_WORDS ==> #[trigger] t.memory.word(j) == s.memory.word(j)
    }
    &&& runs(s, t, c, 5, 2) ==> {
        &&& t.iar.stored_lines() == s.acc.stored_lines()
        &&& regs_same(s, t)
        &&& forall|j: int| 0 <= j < MEMORY_WORDS ==> #[trigger] t.memory.word(j) == s.memory.word(j)
    }
    &&& runs(s, t, c, 5, 5) && s.flag_state_or_gate@ == jump_taken(s) ==> {
        &&& t.iar.stored_lines() == (if jump_taken(s) {
            s.memory.word(address_index(s.memory.mar().stored_lines()))
        } else {
            s.iar.stored_lines()
        })
        &&& regs_same(s, t)
    }
    &&& s.unlatched() && s.decodes() && ((t.stepper_state().1 == only_output(3) && s.alu_op() != 3)
        || (t.stepper_state().1 == only_output(4) && s.alu_op() != 4 && s.alu_op() != 5)
        || (t.stepper_state().1 == only_output(5) && s.alu_op() != 2 && s.alu_op() != 5))
        ==> t.iar.stored_lines() == s.iar.stored_lines()
    &&& s.unlatched() && s.decodes() && (t.stepper_state().1 == only_output(1) || t.stepper_state().1
        == only_output(2) || t.stepper_state().1 == only_output(3) || t.stepper_state().1
        == only_output(5) || (t.stepper_state().1 == only_output(4) && (s.alu_op() != 1 || s.ir_bit(8))))
        ==> forall|j: int| 0 <= j < MEMORY_WORDS ==> #[trigger] t.memory.word(j) == s.memory.word(j)
    &&& s.unlatched() && s.decodes() && !s.ir_bit(8) && (t.stepper_state().1 == only_output(3)
        || t.stepper_state().1 == only_output(5) || (t.stepper_state().1 == only_output(4) && s.alu_op() != 0
        && s.alu_op() != 2 && s.alu_op() != 7)) ==> forall|r: int| 0 <= r < 4 ==> #[trigger] t.held_lines(r)
        == s.held_lines(r)
    &&& s.unlatched() && s.decodes() && ((t.stepper_state().1 == only_output(4) && !s.ir_bit(8))
        || t.stepper_state().1 == only_output(5) || (t.stepper_state().1 == only_output(3) && (s.alu_op() != 6
        || s.ir_bit(8)))) ==> t.flags.stored_lines() == s.flags.stored_lines()
    &&& s.unlatched() && !t.step_on(2) && ((s.decoded() && s.ir_bit(8)) || (!t.step_on(3)
        && !t.step_on(4) && !t.step_on(5))) ==> t.iar.stored_lines() == s.iar.stored_lines()
}

/// Half a clock cycle does the same from a state that differs only in the
/// clock.
proof fn lemma_half_step_from(s: &CPU, s2: &CPU, t: &CPU, c: bool)
    requires
        *s2 == (CPU { clock_state: s2.clock_state, ..*s }),
        half_step(s2, t, c),
    ensures
        half_step(s, t, c),
{
    assert(s2.ir == s.ir && s2.instr_decoder3x8 == s.instr_decoder3x8);
    if s2.decodes() {
        assert forall|k: int| 0 <= k < 8 implies #[trigger] s.sel(k) == (k == s.alu_op() && !s.ir_bit(8)) by {
            assert(s.sel(k) == s2.sel(k));
        }
    }
    if s.decodes() {
        assert forall|k: int| 0 <= k < 8 implies #[trigger] s2.sel(k) == (k == s2.alu_op() && !s2.ir_bit(8)) by {
            assert(s.sel(k) == s2.sel(k));
        }
    }
    if s2.decoded() {
        assert forall|k: int| 0 <= k < 8 && #[trigger] s.sel(k) implies !s.ir_bit(8) by {
            assert(s.sel(k) == s2.sel(k));
        }
    }
    if s.decoded() {
        assert forall|k: int| 0 <= k < 8 && #[trigger] s2.sel(k) implies !s2.ir_bit(8) by {
            assert(s.sel(k) == s2.sel(k));
        }
    }
    assert(held_same(s, t) == held_same(s2, t));
}

/// A clock cycle from `s` runs step 4, 5 or 6 of instruction `k` of the
/// decoder, which is not an ALU instruction, every set signal being off,
/// the clock off and only display adapters connected.
spec fn executes(s: &CPU, k: int) -> bool {
    &&& s.unlatched()
    &&& all_displays(s.peripherals@)
    &&& !s.clock()
    &&& s.decodes()
    &&& !s.ir_bit(8)
    &&& s.alu_op() == k
    &&& s.ir.word_lines() == s.ir.stored_lines()
}

/// What a clock cycle from `s` to `t` does, when every part's set signal
/// is off at its start, the clock is off and only display adapters are
/// connected: the two halves of the step the stepper moves to (see
/// `do_fetch_decode_execute` for the six steps of an instruction).  The set
/// signals are off again at its end, and every register shows the word it
/// holds.
pub closed spec fn cycle(s: &CPU, t: &CPU) -> bool {
    &&& t.unlatched()
    &&& !t.memory.enable_on()
    &&& t.decoded()
    &&& t.decodes()
    &&& t.iar.word_lines() == t.iar.stored_lines()
    &&& t.ir.word_lines() == t.ir.stored_lines()
    &&& t.peripherals@.len() == s.peripherals@.len()
    &&& all_displays(s.peripherals@) ==> all_displays(t.peripherals@)
    &&& !t.step_on(4) ==> !t.carry_and_gate@
    &&& t.ir_instruction_not_gate@ == !(t.ir_bit(11) && t.ir_bit(10) && t.ir_bit(9))
    &&& t.tmp.enable_on() == s.tmp.enable_on()
    &&& t.flags.enable_on() == s.flags.enable_on()
    &&& t.flags.enable_on() ==> t.flags_bus@ == t.flags.stored_lines()
    &&& t.flags.enable_on() ==> t.flag_state_or_gate@ == jump_taken(t)
    &&& forall|r: int| 0 <= r < 4 ==> #[trigger] t.register_lines(r) == t.held_lines(r)
    &&& s.unlatched() && all_displays(s.peripherals@) && !s.clock() ==> {
        &&& s.stepper_state() == stepper_initial() || s.stepper_state() == stepper_at_step(6)
            || s.stepper_state() == stepper_at_step(1) || s.stepper_state() == stepper_at_step(2)
            ==> regs_same(s, t)
        &&& s.stepper_state() == stepper_at_step(3) && s.decoded() && s.ir_bit(8) && s.flags.enable_on()
            && s.flags_bus@ == s.flags.stored_lines() ==> {
            &&& t.tmp.stored_lines() == s.held_lines(s.reg_b())
            &&& t.carry_temp.stored() == s.flags.stored_lines()[0]
            &&& forall|r: int| #[trigger] t.held_lines(r) == s.held_lines(r)
        }
        &&& s.stepper_state() == stepper_at_step(4) && s.decoded() && s.ir_bit(8) && s.tmp.enable_on()
            && s.ir.word_lines() == s.ir.stored_lines() ==> {
            &&& word_value(t.acc.stored_lines()) == alu_output(
                s.alu_op(),
                word_value(s.held_lines(s.reg_a())),
                word_value(s.tmp.stored_lines()),
                s.carry_temp.stored(),
            )
            &&& forall|r: int| #[trigger] t.held_lines(r) == s.held_lines(r)
        }
        &&& s.stepper_state() == stepper_at_step(5) && s.decoded() && s.ir_bit(8)
            && s.ir_instruction_not_gate@ == !(s.ir_bit(11) && s.ir_bit(10) && s.ir_bit(9))
            && s.ir.word_lines() == s.ir.stored_lines() ==> forall|r: int| 0 <= r < 4
            ==> #[trigger] t.held_lines(r) == (if r == s.reg_b() && !(s.ir_bit(11) && s.ir_bit(10)
            && s.ir_bit(9)) {
            s.acc.stored_lines()
        } else {
            s.held_lines(r)
        })
        &&& s.stepper_state() == stepper_at_step(3) && (executes(s, 0) || executes(s, 1)) ==> {
            &&& t.memory.mar().stored_lines() == s.held_lines(s.reg_a())
            &&& t.iar.stored_lines() == s.iar.stored_lines()
            &&& regs_same(s, t)
            &&& forall|j: int| 0 <= j < MEMORY_WORDS ==> #[trigger] t.memory.word(j) == s.memory.word(j)
        }
        &&& s.stepper_state() == stepper_at_step(3) && (executes(s, 2) || executes(s, 5)) && !s.carry_and_gate@ ==> {
            &&& t.memory.mar().stored_lines() == s.iar.stored_lines()
            &&& word_value(t.acc.stored_lines()) == (word_value(s.iar.stored_lines()) + 1) % 65536
            &&& t.iar.stored_lines() == s.iar.stored_lines()
            &&& regs_same(s, t)
            &&& forall|j: int| 0 <= j < MEMORY_WORDS ==> #[trigger] t.memory.word(j) == s.memory.word(j)
        }
        &&& s.stepper_state() == stepper_at_step(3) && executes(s, 3) ==> {
            &&& t.iar.stored_lines() == s.held_lines(s.reg_b())
            &&& regs_same(s, t)
        }
        &&& s.stepper_state() == stepper_at_step(3) && executes(s, 4) ==> {
            &&& t.memory.mar().stored_lines() == s.iar.stored_lines()
            &&& t.iar.stored_lines() == s.iar.stored_lines()
            &&& regs_same(s, t)
            &&& forall|j: int| 0 <= j < MEMORY_WORDS ==> #[trigger] t.memory.word(j) == s.memory.word(j)
        }
        &&& s.stepper_state() == stepper_at_step(4) && (executes(s, 0) || executes(s, 2)) ==> {
            &&& forall|r: int| 0 <= r < 4 ==> #[trigger] t.held_lines(r) == (if r == s.reg_b() {
                s.memory.word(address_index(s.memory.mar().stored_lines()))
            } else {
                s.held_lines(r)
            })
            &&& t.iar.stored_lines() == s.iar.stored_lines()
            &&& t.acc.stored_lines() == s.acc.stored_lines()
            &&& t.memory.mar().stored_lines() == s.memory.mar().stored_lines()
            &&& forall|j: int| 0 <= j < MEMORY_WORDS ==> #[trigger] t.memory.word(j) == s.memory.word(j)
        }
        &&& s.decodes() && ((s.stepper_state() == stepper_at_step(3) && s.alu_op() != 3)
            || (s.stepper_state() == stepper_at_step(4) && s.alu_op() != 4 && s.alu_op() != 5)
            || (s.stepper_state() == stepper_at_step(5) && s.alu_op() != 2 && s.alu_op() != 5))
            ==> t.iar.stored_lines() == s.iar.stored_lines()
        &&& s.decodes() && (s.stepper_state() == stepper_at_step(1) || s.stepper_state() == stepper_at_step(2)
            || s.stepper_state() == stepper_at_step(3) || s.stepper_state() == stepper_at_step(5)
            || (s.stepper_state() == stepper_at_step(4) && (s.alu_op() != 1 || s.ir_bit(8))))
            ==> forall|j: int| 0 <= j < MEMORY_WORDS ==> #[trigger] t.memory.word(j) == s.memory.word(j)
        &&& s.decodes() && !s.ir_bit(8) && (s.stepper_state() == stepper_at_step(3) || s.stepper_state()
            == stepper_at_step(5) || (s.stepper_state() == stepper_at_step(4) && s.alu_op() != 0 && s.alu_op() != 2
            && s.alu_op() != 7)) ==> forall|r: int| 0 <= r < 4 ==> #[trigger] t.held_lines(r) == s.held_lines(r)
        &&& s.decodes() && ((s.stepper_state() == stepper_at_step(4) && !s.ir_bit(8)) || s.stepper_state()
            == stepper_at_step(5) || (s.stepper_state() == stepper_at_step(3) && (s.alu_op() != 6 || s.ir_bit(8))))
            ==> t.flags.stored_lines() == s.flags.stored_lines()
        &&& s.stepper_state() == stepper_at_step(4) && executes(s, 1) ==> {
            &&& t.memory.word(address_index(s.memory.mar().stored_lines())) == s.held_lines(s.reg_b())
            &&& forall|j: int| 0 <= j < MEMORY_WORDS && j != address_index(s.memory.mar().stored_lines())
                ==> #[trigger] t.memory.word(j) == s.memory.word(j)
            &&& t.iar.stored_lines() == s.iar.stored_lines()
            &&& forall|r: int| 0 <= r < 4 ==> #[trigger] t.held_lines(r) == s.held_lines(r)
        }
        &&& s.stepper_state() == stepper_at_step(4) && executes(s, 4) ==> {
            &&& t.iar.stored_lines() == s.memory.word(address_index(s.memory.mar().stored_lines()))
            &&& forall|r: int| 0 <= r < 4 ==> #[trigger] t.held_lines(r) == s.held_lines(r)
        }
        &&& s.stepper_state() == stepper_at_step(4) && executes(s, 5) ==> {
            &&& t.iar.stored_lines() == s.acc.stored_lines()
            &&& t.memory.mar().stored_lines() == s.memory.mar().stored_lines()
            &&& regs_same(s, t)
            &&& forall|j: int| 0 <= j < MEMORY_WORDS ==> #[trigger] t.memory.word(j) == s.memory.word(j)
        }
        &&& s.stepper_state() == stepper_at_step(5) && executes(s, 2) ==> {
            &&& t.iar.stored_lines() == s.acc.stored_lines()
            &&& regs_same(s, t)
            &&& forall|j: int| 0 <= j < MEMORY_WORDS ==> #[trigger] t.memory.word(j) == s.memory.word(j)
        }
        &&& s.stepper_state() == stepper_at_step(5) && executes(s, 5) && s.flag_state_or_gate@ == jump_taken(s) ==> {
            &&& t.iar.stored_lines() == (if jump_taken(s) {
                s.memory.word(address_index(s.memory.mar().stored_lines()))
            } else {
                s.iar.stored_lines()
            })
            &&& regs_same(s, t)
        }
        &&& (s.stepper_state() == stepper_initial() || s.stepper_state() == stepper_at_step(6))
            && !s.carry_and_gate@ ==> {
            &&& t.memory.mar().stored_lines() == s.iar.stored_lines()
            &&& word_value(t.acc.stored_lines()) == (word_value(s.iar.stored_lines()) + 1) % 65536
            &&& t.iar.stored_lines() == s.iar.stored_lines()
            &&& forall|j: int| 0 <= j < MEMORY_WORDS ==> #[trigger] t.memory.word(j) == s.memory.word(j)
        }
        &&& s.stepper_state() == stepper_at_step(1) ==> {
            &&& t.ir.stored_lines() == s.memory.word(address_index(s.memory.mar().stored_lines()))
            &&& t.acc.stored_lines() == s.acc.stored_lines()
            &&& t.iar.stored_lines() == s.iar.stored_lines()
        }
        &&& s.stepper_state() == stepper_at_step(2) ==> {
            &&& t.iar.stored_lines() == s.acc.stored_lines()
            &&& t.ir.stored_lines() == s.ir.stored_lines()
        }
        &&& (s.stepper_state() == stepper_at_step(3) || s.stepper_state() == stepper_at_step(4)
            || s.stepper_state() == stepper_at_step(5)) && s.decoded() && s.ir_bit(8)
            ==> t.iar.stored_lines() == s.iar.stored_lines()
        &&& s.stepper_state() == stepper_initial() || s.stepper_state() == stepper_at_step(6)
            || s.stepper_state() == stepper_at_step(2) || s.stepper_state() == stepper_at_step(3)
            || s.stepper_state() == stepper_at_step(4) || s.stepper_state() == stepper_at_step(5)
            ==> t.ir.stored_lines() == s.ir.stored_lines()
    }
}

/// The two halves of a clock cycle that starts with the clock off make up
/// what `cycle` says.
#[verifier::spinoff_prover]
#[verifier::rlimit(100)]
proof fn lemma_cycle(s: &CPU, mid: &CPU, t: &CPU)
    requires
        !s.clock(),
        half_step(s, mid, true),
        half_step(mid, t, false),
        mid.stepper_state() == stepper_update(s.stepper_state(), true),
        t.stepper_state() == stepper_update(mid.stepper_state(), false),
    ensures
        cycle(s, t),
{
    if s.unlatched() && all_displays(s.peripherals@) {
        let st = s.stepper_state();
        assert(mid.unlatched());
        assert(held_same(mid, t));
        if st == stepper_initial() || st == stepper_at_step(6) {
            if st == stepper_initial() {
                lemma_cycle_halves(st, 0);
            } else {
                lemma_cycle_halves(st, 6);
            }
            lemma_outputs(mid, 0);
        }
        if (st == stepper_initial() || st == stepper_at_step(6)) && !s.carry_and_gate@ {
            if st == stepper_initial() {
                lemma_cycle_halves(st, 0);
            } else {
                lemma_cycle_halves(st, 6);
            }
            lemma_outputs(mid, 0);
            assert(mid.iar.stored_lines() == s.iar.stored_lines());
            assert forall|j: int| 0 <= j < MEMORY_WORDS implies #[trigger] t.memory.word(j) == s.memory.word(j) by {
                assert(mid.memory.word(j) == s.memory.word(j));
            }
        }
        if st == stepper_at_step(1) {
            lemma_cycle_halves(st, 1);
            lemma_outputs(mid, 1);
        }
        if st == stepper_at_step(2) {
            lemma_cycle_halves(st, 2);
            lemma_outputs(mid, 2);
        }
        if st == stepper_at_step(3) {
            lemma_cycle_halves(st, 3);
            lemma_outputs(mid, 3);
            assert(forall|r: int| #[trigger] t.held_lines(r) == mid.held_lines(r));
            assert(forall|j: int| 0 <= j < MEMORY_WORDS ==> #[trigger] t.memory.word(j) == mid.memory.word(j));
            assert(mid.stepper_state().1 == only_output(3));
            if executes(s, 0) || executes(s, 1) {
                assert(runs(s, mid, true, 3, 0) || runs(s, mid, true, 3, 1));
                assert(t.memory.mar().stored_lines() == s.held_lines(s.reg_a()));
                assert(t.iar.stored_lines() == s.iar.stored_lines());
                assert(regs_same(s, t));
            }
            if executes(s, 0) { assert(runs(s, mid, true, 3, 0)); }
            if executes(s, 1) { assert(runs(s, mid, true, 3, 1)); }
            if executes(s, 2) { assert(runs(s, mid, true, 3, 2)); }
            if executes(s, 3) { assert(runs(s, mid, true, 3, 3)); }
            if executes(s, 4) { assert(runs(s, mid, true, 3, 4)); }
            if executes(s, 5) { assert(runs(s, mid, true, 3, 5)); }
        }
        if st == stepper_at_step(4) {
            lemma_cycle_halves(st, 4);
            lemma_outputs(mid, 4);
            assert(forall|r: int| #[trigger] t.held_lines(r) == mid.held_lines(r));
            assert(forall|j: int| 0 <= j < MEMORY_WORDS ==> #[trigger] t.memory.word(j) == mid.memory.word(j));
            assert(mid.stepper_state().1 == only_output(4));
            if executes(s, 1) {
                assert(runs(s, mid, true, 4, 1));
                s.memory.mar().lemma_shape();
                crate::memory::law_address_index_range(s.memory.mar().stored_lines());
                assert(t.memory.word(address_index(s.memory.mar().stored_lines())) == s.held_lines(s.reg_b()));
                assert(t.iar.stored_lines() == s.iar.stored_lines());
            }
            if executes(s, 0) || executes(s, 2) {
                assert(t.iar.stored_lines() == s.iar.stored_lines());
                assert(t.memory.mar().stored_lines() == s.memory.mar().stored_lines());
            }
            if executes(s, 5) {
                assert(t.iar.stored_lines() == s.acc.stored_lines());
                assert(regs_same(s, t));
            }
            if executes(s, 0) { assert(runs(s, mid, true, 4, 0)); }
            if executes(s, 1) { assert(runs(s, mid, true, 4, 1)); }
            if executes(s, 2) { assert(runs(s, mid, true, 4, 2)); }
            if executes(s, 3) { assert(runs(s, mid, true, 4, 3)); }
            if executes(s, 4) { assert(runs(s, mid, true, 4, 4)); }
            if executes(s, 5) { assert(runs(s, mid, true, 4, 5)); }
        }
        if st == stepper_at_step(5) {
            lemma_cycle_halves(st, 5);
            lemma_outputs(mid, 5);
            assert(forall|r: int| #[trigger] t.held_lines(r) == mid.held_lines(r));
            assert(forall|j: int| 0 <= j < MEMORY_WORDS ==> #[trigger] t.memory.word(j) == mid.memory.word(j));
            assert(mid.stepper_state().1 == only_output(5));
            if executes(s, 2) {
                assert(t.iar.stored_lines() == s.acc.stored_lines());
                assert(regs_same(s, t));
            }
            if executes(s, 5) && s.flag_state_or_gate@ == jump_taken(s) {
                assert(regs_same(s, t));
            }
            if executes(s, 0) { assert(runs(s, mid, true, 5, 0)); }
            if executes(s, 1) { assert(runs(s, mid, true, 5, 1)); }
            if executes(s, 2) { assert(runs(s, mid, true, 5, 2)); }
            if executes(s, 3) { assert(runs(s, mid, true, 5, 3)); }
            if executes(s, 4) { assert(runs(s, mid, true, 5, 4)); }
            if executes(s, 5) { assert(runs(s, mid, true, 5, 5)); }
        }
    }
}

/// The stepper lines of a state that shows only line `k`.
proof fn lemma_outputs(c: &CPU, k: int)
    requires
        0 <= k < 7,
        c.stepper_state().1 == only_output(k),
    ensures
        forall|i: int| 0 <= i < 7 ==> #[trigger] c.step_on(i) == (i == k),
{
    assert forall|i: int| 0 <= i < 7 implies #[trigger] c.step_on(i) == (i == k) by {
        assert(c.step_on(i) == only_output(k)[i]);
    }
}

/// A clock cycle that starts with the clock on.
proof fn lemma_cycle_other(s: &CPU, mid: &CPU, t: &CPU)
    requires
        s.clock(),
        half_step(s, mid, false),
        half_step(mid, t, true),
    ensures
        cycle(s, t),
{
}

/// A state that keeps the clock, the stepper, the instruction register and
/// its decoder, the carry latch and the display-only devices of an idle
/// state, with every set signal off, is idle too.
proof fn lemma_idle_kept(s: &CPU, t: &CPU)
    requires
        s.idle(),
        t.wf(),
        t.unlatched(),
        t.clock_state == s.clock_state,
        t.stepper == s.stepper,
        t.ir == s.ir,
        t.instr_decoder3x8 == s.instr_decoder3x8,
        t.carry_and_gate == s.carry_and_gate,
        all_displays(t.peripherals@),
        t.tmp == s.tmp,
        t.flags == s.flags,
        t.flags_bus == s.flags_bus,
    ensures
        t.idle(),
{
    assert forall|k: int| 0 <= k < 8 && #[trigger] t.sel(k) implies !t.ir_bit(8) by {
        assert(t.sel(k) == s.sel(k));
    }
}

/// The selector lines of a decoder that shows the instruction held.
proof fn lemma_selectors(c: &CPU)
    requires
        c.decodes(),
    ensures
        c.sel(0) == (c.alu_op() == 0 && !c.ir_bit(8)),
        c.sel(1) == (c.alu_op() == 1 && !c.ir_bit(8)),
        c.sel(2) == (c.alu_op() == 2 && !c.ir_bit(8)),
        c.sel(3) == (c.alu_op() == 3 && !c.ir_bit(8)),
        c.sel(4) == (c.alu_op() == 4 && !c.ir_bit(8)),
        c.sel(5) == (c.alu_op() == 5 && !c.ir_bit(8)),
        c.sel(6) == (c.alu_op() == 6 && !c.ir_bit(8)),
        c.sel(7) == (c.alu_op() == 7 && !c.ir_bit(8)),
{
}

/// What running one instruction from `s` leaves as `t`, when `s` is at an
/// instruction boundary (see `CPU::do_fetch_decode_execute`).
pub open spec fn instruction_done(s: CPU, t: CPU) -> bool {
    &&& (s.fetch_ready() ==> {
        &&& t.fetch_ready()
        &&& t.ir_lines() == s.ram().word(address_index(s.iar_lines()))
        &&& forall|r: int| 0 <= r < 4 ==> #[trigger] t.register_lines(r) == t.held_lines(r)
    })
    &&& (s.fetch_ready() && t.ir_lines()[8] ==> {
        let ir = t.ir_lines();
        let ra = index2(ir[12], ir[13]);
        let rb = index2(ir[14], ir[15]);
        let compare = ir[9] && ir[10] && ir[11];
        &&& word_value(t.iar_lines()) == (word_value(s.iar_lines()) + 1) % 65536
        &&& !compare ==> word_value(t.held_lines(rb)) == alu_output(
            index3(ir[9], ir[10], ir[11]),
            word_value(s.held_lines(ra)),
            word_value(s.held_lines(rb)),
            s.flag_lines()[0],
        )
        &&& forall|r: int| 0 <= r < 4 && (r != rb || compare) ==> #[trigger] t.held_lines(r)
            == s.held_lines(r)
        &&& forall|j: int| 0 <= j < MEMORY_WORDS ==> #[trigger] t.ram().word(j) == s.ram().word(j)
    })
    &&& (s.fetch_ready() && !t.ir_lines()[8] ==> {
        let ir = t.ir_lines();
        let k = index3(ir[9], ir[10], ir[11]);
        let ra = index2(ir[12], ir[13]);
        let rb = index2(ir[14], ir[15]);
        let next = (word_value(s.iar_lines()) + 1) % 65536;
        let after = s.ram().word(address_index(word_bits(next as u16)));
        let taken = (ir[12] && s.flag_lines()[0]) || (ir[13] && s.flag_lines()[1])
            || (ir[14] && s.flag_lines()[2]) || (ir[15] && s.flag_lines()[3]);
        &&& (k == 0 || k == 1 || k == 6 || k == 7) ==> word_value(t.iar_lines()) == next
        &&& k == 2 ==> word_value(t.iar_lines()) == (next + 1) % 65536
        &&& k == 3 ==> t.iar_lines() == s.held_lines(rb)
        &&& k == 4 ==> t.iar_lines() == after
        &&& k == 5 && taken ==> t.iar_lines() == after
        &&& k == 5 && !taken ==> word_value(t.iar_lines()) == (next + 1) % 65536
        &&& k == 0 ==> forall|r: int| 0 <= r < 4 ==> #[trigger] t.held_lines(r) == (if r == rb {
            s.ram().word(address_index(s.held_lines(ra)))
        } else {
            s.held_lines(r)
        })
        &&& k == 2 ==> forall|r: int| 0 <= r < 4 ==> #[trigger] t.held_lines(r) == (if r == rb {
            after
        } else {
            s.held_lines(r)
        })
        &&& k != 0 && k != 2 && k != 7 ==> forall|r: int| 0 <= r < 4 ==> #[trigger] t.held_lines(r)
            == s.held_lines(r)
        &&& k == 1 ==> t.ram().word(address_index(s.held_lines(ra))) == s.held_lines(rb)
        &&& k == 1 ==> forall|j: int| 0 <= j < MEMORY_WORDS && j != address_index(s.held_lines(ra))
            ==> #[trigger] t.ram().word(j) == s.ram().word(j)
        &&& k != 1 ==> forall|j: int| 0 <= j < MEMORY_WORDS ==> #[trigger] t.ram().word(j) == s.ram().word(j)
    })
}

/// One clock cycle, from `s` to `t`, as `CPU::step` makes it.
pub open spec fn stepped(s: CPU, t: CPU) -> bool {
    &&& t.wf()
    &&& t.clock() == s.clock()
    &&& t.stepper_state() == stepper_update(stepper_update(s.stepper_state(), !s.clock()), s.clock())
    &&& cycle(&s, &t)
}

/// Where an instruction started at `start` stands after `i` clock cycles,
/// the CPU being `c`.
spec fn fetch_progress(start: CPU, i: int, c: CPU) -> bool {
    let w = start.memory.word(address_index(start.iar.stored_lines()));
    let next = (word_value(start.iar.stored_lines()) + 1) % 65536;
    let next2 = (next + 1) % 65536;
    let l = word_bits(next as u16);
    let after = start.memory.word(address_index(l));
    let ra = index2(w[12], w[13]);
    let rb = index2(w[14], w[15]);
    let op = index3(w[9], w[10], w[11]);
    let compare = w[9] && w[10] && w[11];
    let carry = start.flags.stored_lines()[0];
    let taken = (w[12] && start.flags_bus@[0]) || (w[13] && start.flags_bus@[1]) || (w[14]
        && start.flags_bus@[2]) || (w[15] && start.flags_bus@[3]);
    &&& c.wf()
    &&& c.clock() == start.clock()
    &&& start.fetch_ready() ==> {
        &&& c.unlatched()
        &&& c.decoded()
        &&& all_displays(c.peripherals@)
        &&& c.tmp.enable_on()
        &&& c.flags.enable_on()
        &&& c.flags_bus@ == c.flags.stored_lines()
        &&& c.iar.word_lines() == c.iar.stored_lines()
        &&& i == 0 ==> c == start
        &&& i >= 1 ==> c.stepper_state() == stepper_at_step(i)
        &&& i >= 1 ==> c.ir.word_lines() == c.ir.stored_lines()
        &&& i >= 1 ==> c.decodes()
        &&& i >= 1 ==> c.flag_state_or_gate@ == jump_taken(&c)
        &&& i >= 1 ==> c.ir_instruction_not_gate@ == !(c.ir_bit(11) && c.ir_bit(10) && c.ir_bit(9))
        &&& i >= 1 ==> forall|r: int| 0 <= r < 4 ==> #[trigger] c.register_lines(r) == c.held_lines(r)
        &&& 1 <= i <= 3 ==> regs_same(&start, &c)
        &&& forall|j: int| 0 <= j < MEMORY_WORDS && (op != 1 || w[8] || i <= 4
            || j != address_index(start.held_lines(ra))) ==> #[trigger] c.memory.word(j) == start.memory.word(j)
        &&& i == 1 ==> {
            &&& c.memory.mar().stored_lines() == start.iar.stored_lines()
            &&& word_value(c.acc.stored_lines()) == next
        }
        &&& i == 2 ==> word_value(c.acc.stored_lines()) == next
        &&& i >= 2 ==> c.ir.stored_lines() == w
        &&& i == 3 ==> word_value(c.iar.stored_lines()) == next
        &&& i == 3 ==> !c.carry_and_gate@
        &&& i >= 3 && w[8] ==> word_value(c.iar.stored_lines()) == next
        &&& i == 4 && w[8] ==> {
            &&& c.tmp.stored_lines() == start.held_lines(rb)
            &&& c.carry_temp.stored() == carry
            &&& forall|r: int| #[trigger] c.held_lines(r) == start.held_lines(r)
        }
        &&& i == 5 && w[8] ==> {
            &&& word_value(c.acc.stored_lines()) == alu_output(
                op,
                word_value(start.held_lines(ra)),
                word_value(start.held_lines(rb)),
                carry,
            )
            &&& forall|r: int| #[trigger] c.held_lines(r) == start.held_lines(r)
        }
        &&& i == 6 && w[8] ==> {
            &&& !compare ==> word_value(c.held_lines(rb)) == alu_output(
                op,
                word_value(start.held_lines(ra)),
                word_value(start.held_lines(rb)),
                carry,
            )
            &&& forall|r: int| 0 <= r < 4 && (r != rb || compare) ==> #[trigger] c.held_lines(r)
                == start.held_lines(r)
        }
        &&& i >= 4 && !w[8] ==> {
            &&& op == 1 && i >= 5 ==> c.memory.word(address_index(start.held_lines(ra))) == start.held_lines(rb)
            &&& op != 6 ==> c.flags.stored_lines() == start.flags.stored_lines()
            &&& (op != 0 && op != 2 && op != 7) || i == 4 ==> forall|r: int| 0 <= r < 4
                ==> #[trigger] c.held_lines(r) == start.held_lines(r)
            &&& op == 0 && i >= 5 ==> forall|r: int| 0 <= r < 4 ==> #[trigger] c.held_lines(r) == (if r == rb {
                start.memory.word(address_index(start.held_lines(ra)))
            } else {
                start.held_lines(r)
            })
            &&& op == 2 && i >= 5 ==> forall|r: int| 0 <= r < 4 ==> #[trigger] c.held_lines(r) == (if r == rb {
                after
            } else {
                start.held_lines(r)
            })
            &&& (op == 0 || op == 1 || op == 6 || op == 7) ==> word_value(c.iar.stored_lines()) == next
            &&& (op == 0 || op == 1) && i == 4 ==> c.memory.mar().stored_lines() == start.held_lines(ra)
            &&& op == 3 ==> c.iar.stored_lines() == start.held_lines(rb)
            &&& op == 4 && i == 4 ==> c.memory.mar().stored_lines() == l
            &&& op == 4 && i >= 5 ==> c.iar.stored_lines() == after
            &&& (op == 2 || op == 5) && i == 4 ==> {
                &&& c.memory.mar().stored_lines() == l
                &&& word_value(c.acc.stored_lines()) == next2
            }
            &&& op == 2 && i == 5 ==> word_value(c.acc.stored_lines()) == next2
            &&& op == 2 && i == 6 ==> word_value(c.iar.stored_lines()) == next2
            &&& op == 5 && i == 5 ==> {
                &&& c.memory.mar().stored_lines() == l
                &&& word_value(c.iar.stored_lines()) == next2
            }
            &&& op == 5 && i == 6 && taken ==> c.iar.stored_lines() == after
            &&& op == 5 && i == 6 && !taken ==> word_value(c.iar.stored_lines()) == next2
        }
        &&& i == 6 ==> !c.carry_and_gate@
    }
}

/// One more clock cycle of an instruction.
#[verifier::spinoff_prover]
#[verifier::rlimit(60)]
proof fn lemma_fetch_progress(start: CPU, i: int, before: CPU, c: CPU)
    requires
        0 <= i < 6,
        fetch_progress(start, i, before),
        stepped(before, c),
    ensures
        fetch_progress(start, i + 1, c),
{
    let w = start.memory.word(address_index(start.iar.stored_lines()));
    let next = (word_value(start.iar.stored_lines()) + 1) % 65536;
    let next2 = (next + 1) % 65536;
    let l = word_bits(next as u16);
    let after = start.memory.word(address_index(l));
    let ra = index2(w[12], w[13]);
    let rb = index2(w[14], w[15]);
    let op = index3(w[9], w[10], w[11]);
    let compare = w[9] && w[10] && w[11];
    let carry = start.flags.stored_lines()[0];
    let taken = (w[12] && start.flags_bus@[0]) || (w[13] && start.flags_bus@[1]) || (w[14]
        && start.flags_bus@[2]) || (w[15] && start.flags_bus@[3]);
    if start.fetch_ready() {
        let st = before.stepper_state();
        if i == 0 {
            lemma_cycle_halves(st, if st == stepper_initial() { 0 } else { 6 });
        } else {
            lemma_cycle_halves(st, i);
        }
        if i >= 3 {
            assert(before.ir_bit(8) == w[8]);
            assert(before.reg_a() == ra && before.reg_b() == rb && before.alu_op() == op);
        }
        if i == 5 {
            lemma_outputs(&c, 5);
        }
        if i == 2 {
            lemma_outputs(&c, 2);
        }
        if i == 1 {
            // the word fetched is the one the memory held at the start
            start.iar.lemma_shape();
            crate::memory::law_address_index_range(start.iar.stored_lines());
            assert(before.memory.word(address_index(start.iar.stored_lines())) == w);
        }
        if i == 5 && w[8] {
            before.acc.lemma_shape();
        }
        if i >= 3 && !w[8] {
            assert(executes(&before, op));
            start.gp_reg0.lemma_shape();
            start.gp_reg1.lemma_shape();
            start.gp_reg2.lemma_shape();
            start.gp_reg3.lemma_shape();
            assert(start.held_lines(ra).len() == 16);
            crate::memory::law_address_index_range(start.held_lines(ra));
            crate::bits::lemma_word_bits_shape(next as u16);
            crate::memory::law_address_index_range(l);
            if i == 3 {
                before.iar.lemma_shape();
                if op == 2 || op == 4 || op == 5 {
                    before.iar.lemma_shape();
                    crate::bits::lemma_word_bits_of_value(before.iar.stored_lines());
                    assert(before.iar.stored_lines() == l);
                }
            }
            if i == 5 && op == 5 {
                assert(jump_taken(&before) == taken);
            }
        }
    }
}

/// Driven for six clock cycles from an instruction boundary, the CPU runs
/// the instruction the instruction address register points at, as
/// `CPU::do_fetch_decode_execute` says: `states[k]` is the CPU after `k`
/// calls of `CPU::step`.
pub proof fn law_six_steps(states: Seq<CPU>)
    requires
        states.len() == 7,
        states[0].wf(),
        forall|k: int| 0 <= k < 6 ==> stepped(#[trigger] states[k], states[k + 1]),
    ensures
        instruction_done(states[0], states[6]),
{
    let start = states[0];
    assert(fetch_progress(start, 0, states[0]));
    assert(stepped(states[0], states[1]));
    lemma_fetch_progress(start, 0, states[0], states[1]);
    assert(stepped(states[1], states[2]));
    lemma_fetch_progress(start, 1, states[1], states[2]);
    assert(stepped(states[2], states[3]));
    lemma_fetch_progress(start, 2, states[2], states[3]);
    assert(stepped(states[3], states[4]));
    lemma_fetch_progress(start, 3, states[3], states[4]);
    assert(stepped(states[4], states[5]));
    lemma_fetch_progress(start, 4, states[4], states[5]);
    assert(stepped(states[5], states[6]));
    lemma_fetch_progress(start, 5, states[5], states[6]);
}

/// A part that drives all sixteen lines of a bus leaves its word there.
proof fn lemma_put(bus: Seq<bool>, w: Seq<bool>)
    requires
        bus.len() == 16,
        w.len() == 16,
    ensures
        put(bus, w, true) == w,
        put(bus, w, false) == bus,
{
    assert(put(bus, w, true) =~= w);
}

/// Each device of `ds` in turn, updated as `es` says, sees the I/O lines
/// `io` and the main bus, which goes from `bus` to `bus2` through them.
pub open spec fn devices_updated(ds: Seq<Device>, es: Seq<Device>, io: IOBus, bus: Seq<bool>, bus2: Seq<bool>) -> bool {
    &&& es.len() == ds.len()
    &&& exists|buses: Seq<Seq<bool>>| {
        &&& buses.len() == ds.len() + 1
        &&& buses[0] == bus
        &&& buses[ds.len() as int] == bus2
        &&& forall|j: int| 0 <= j < ds.len() ==> #[trigger] device_updated(ds[j], es[j], io, buses[j], buses[j + 1])
    }
}

/// What a redraw does, from CPU `c` and screen `s` to `d` and `t`: the first
/// display adapter connected, if there is one, draws the whole screen from
/// its memory (taking in the main bus as it goes); the other devices, and
/// the screen when there is no display adapter, are left as they were.
pub open spec fn screen_refreshed(c: CPU, d: CPU, s: ScreenControl, t: ScreenControl) -> bool {
    let ds = c.devices();
    &&& d.devices().len() == ds.len()
    &&& (forall|j: int| 0 <= j < ds.len() ==> !(#[trigger] ds[j] is Display)) ==> d.devices() == ds && t == s
    &&& forall|k: int|
        0 <= k < ds.len() && #[trigger] ds[k] is Display && (forall|j: int| 0 <= j < k ==> !(#[trigger] ds[j] is Display))
            ==> {
            &&& d.devices()[k] is Display
            &&& screen_drawn(s, t, ds[k]->Display_0, d.devices()[k]->Display_0, c.main_lines())
            &&& forall|j: int| 0 <= j < ds.len() && j != k ==> #[trigger] d.devices()[j] == ds[j]
        }
}

/// Every device in `ds` is a display adapter.
pub open spec fn all_displays(ds: Seq<Device>) -> bool {
    forall|i: int| 0 <= i < ds.len() ==> #[trigger] ds[i] is Display
}

/// Only control gates may differ between `s` and `t`.
spec fn data_same(s: &CPU, t: &CPU) -> bool {
    data_same_but(s, t, Set::empty())
}

/// The gates that the steps' gates and the set logic leave for later are
/// those of `s`.
spec fn step_gates_same(s: &CPU, t: &CPU) -> bool {
    &&& t.step4_gates == s.step4_gates
    &&& t.step4_gate3_and == s.step4_gate3_and
    &&& t.ir_bit4_not_gate == s.ir_bit4_not_gate
    &&& t.step5_gates == s.step5_gates
    &&& t.step5_gate3_and == s.step5_gate3_and
    &&& t.step6_gates == s.step6_gates
    &&& t.step6_gates2_and == s.step6_gates2_and
}

/// The gates the set logic computes for the next step are those of `s`.
spec fn latched_gates_same(s: &CPU, t: &CPU) -> bool {
    &&& t.ir_instruction_not_gate == s.ir_instruction_not_gate
    &&& t.flag_state_or_gate == s.flag_state_or_gate
    &&& t.carry_temp == s.carry_temp
    &&& t.carry_and_gate == s.carry_and_gate
}

impl CPU {
    /// Every bus has sixteen lines, the memory has all its cells, and its
    /// address register never drives the bus.
    pub closed spec fn wf(&self) -> bool {
        &&& self.memory.wf()
        &&& !self.memory.mar().enable_on()
        &&& bus16(self.main_bus)
        &&& bus16(self.tmp_bus)
        &&& bus16(self.busone_output)
        &&& bus16(self.control_bus)
        &&& bus16(self.acc_bus)
        &&& bus16(self.alu_to_flags_bus)
        &&& bus16(self.flags_bus)
        &&& forall|i: int| 0 <= i < self.peripherals@.len() ==> #[trigger] self.peripherals@[i].connected()
    }

    /// The devices connected to the I/O bus, in the order they were
    /// connected.
    pub closed spec fn devices(&self) -> Seq<Device> {
        self.peripherals@
    }

    /// The main bus once the instruction address register has had its
    /// turn.
    spec fn bus_after_iar(&self) -> Seq<bool> {
        put(self.main_bus@, latch(self.iar, self.main_bus@), self.iar.enable_on())
    }

    /// The memory address once the address register has had its turn.
    spec fn mar_after(&self) -> Seq<bool> {
        if self.memory.mar().set_on() {
            self.bus_after_iar()
        } else {
            self.memory.mar().stored_lines()
        }
    }

    /// The word of the addressed cell once it has had its turn.
    spec fn cell_after(&self) -> Seq<bool> {
        if self.memory.set_on() {
            self.bus_after_iar()
        } else {
            self.memory.word(address_index(self.mar_after()))
        }
    }

    /// The main bus once the memory has had its turn.
    spec fn bus_after_ram(&self) -> Seq<bool> {
        put(self.bus_after_iar(), self.cell_after(), self.memory.enable_on())
    }

    /// The main bus when general purpose register `n` has its turn, the
    /// accumulator holding `accw` (for `n == 4`, once all four had theirs).
    spec fn bus_at_gp(&self, accw: Seq<bool>, n: int) -> Seq<bool> {
        let b3 = put(self.bus_after_ram(), accw, self.acc.enable_on());
        let b4 = put(b3, latch(self.gp_reg0, b3), self.gp_reg0.enable_on());
        let b5 = put(b4, latch(self.gp_reg1, b4), self.gp_reg1.enable_on());
        let b6 = put(b5, latch(self.gp_reg2, b5), self.gp_reg2.enable_on());
        if n == 0 {
            b3
        } else if n == 1 {
            b4
        } else if n == 2 {
            b5
        } else if n == 3 {
            b6
        } else {
            put(b6, latch(self.gp_reg3, b6), self.gp_reg3.enable_on())
        }
    }

    /// The main bus once the accumulator, holding `accw`, and the four
    /// general purpose registers have had their turns.
    spec fn bus_after_regs(&self, accw: Seq<bool>) -> Seq<bool> {
        self.bus_at_gp(accw, 4)
    }

    /// The word general purpose register `r` holds: what it puts on the
    /// bus.  `register_lines` shows it once the register has been updated,
    /// as every register is during a clock cycle.
    pub closed spec fn held_lines(&self, r: int) -> Seq<bool> {
        if r == 0 {
            self.gp_reg0.stored_lines()
        } else if r == 1 {
            self.gp_reg1.stored_lines()
        } else if r == 2 {
            self.gp_reg2.stored_lines()
        } else {
            self.gp_reg3.stored_lines()
        }
    }

    /// Register A of the instruction held (bits 4 and 5 of its low byte).
    spec fn reg_a(&self) -> int {
        index2(self.ir_bit(12), self.ir_bit(13))
    }

    /// Register B of the instruction held (bits 6 and 7 of its low byte).
    spec fn reg_b(&self) -> int {
        index2(self.ir_bit(14), self.ir_bit(15))
    }

    /// The operation an ALU instruction asks for (bits 1 to 3 of its low
    /// byte).
    spec fn alu_op(&self) -> int {
        index3(self.ir_bit(9), self.ir_bit(10), self.ir_bit(11))
    }

    /// No part takes in its bus until the control unit says so.
    spec fn unlatched(&self) -> bool {
        &&& !self.iar.set_on()
        &&& !self.ir.set_on()
        &&& !self.acc.set_on()
        &&& !self.tmp.set_on()
        &&& !self.flags.set_on()
        &&& !self.gp_reg0.set_on()
        &&& !self.gp_reg1.set_on()
        &&& !self.gp_reg2.set_on()
        &&& !self.gp_reg3.set_on()
        &&& !self.memory.set_on()
        &&& !self.memory.mar().set_on()
        &&& !self.io_bus.line(0)
    }

    /// The selector lines of the instruction decoder are off while the
    /// instruction register holds an ALU instruction.
    spec fn decoded(&self) -> bool {
        forall|k: int| 0 <= k < 8 ==> #[trigger] self.sel(k) ==> !self.ir_bit(8)
    }

    /// The CPU is at an instruction boundary: the clock is off, the stepper
    /// is new or at the end of step 6, no part takes in its bus, the
    /// control lines left over from the last instruction are quiet, the
    /// instruction address register shows the word it holds and the only
    /// devices are display adapters.
    pub closed spec fn fetch_ready(&self) -> bool {
        &&& self.idle()
        &&& self.iar.word_lines() == self.iar.stored_lines()
    }

    /// As `fetch_ready`, but for the instruction address register, which
    /// may not show yet the word it holds (as in a new CPU, before an
    /// address is put in it).
    pub closed spec fn idle(&self) -> bool {
        &&& self.wf()
        &&& !self.clock()
        &&& (self.stepper_state() == stepper_initial() || self.stepper_state() == stepper_at_step(6))
        &&& self.unlatched()
        &&& self.decoded()
        &&& !self.carry_and_gate@
        &&& all_displays(self.peripherals@)
        &&& self.tmp.enable_on()
        &&& self.flags.enable_on()
        &&& self.flags_bus@ == self.flags.stored_lines()
    }

    /// The selector lines of the instruction decoder show the instruction
    /// held: only line `alu_op()`, and none for an ALU instruction.
    spec fn decodes(&self) -> bool {
        forall|k: int| 0 <= k < 8 ==> #[trigger] self.sel(k) == (k == self.alu_op() && !self.ir_bit(8))
    }

    /// Output line `i` of the stepper: step `i + 1` is under way.
    spec fn step_on(&self, i: int) -> bool {
        self.stepper.output_lines()[i]
    }

    /// Bit `i` of the instruction register, bit 0 the most significant.
    spec fn ir_bit(&self, i: int) -> bool {
        self.ir.word_lines()[i]
    }

    /// Selector line `i` of the instruction decoder.
    spec fn sel(&self, i: int) -> bool {
        self.instr_decoder3x8.selector_gates[i]@
    }

    pub closed spec fn stepper_state(&self) -> StepperState {
        self.stepper.state()
    }

    pub closed spec fn clock(&self) -> bool {
        self.clock_state
    }

    /// The word held by general purpose register `r`.
    pub closed spec fn register_lines(&self, r: int) -> Seq<bool> {
        if r == 0 {
            self.gp_reg0.word_lines()
        } else if r == 1 {
            self.gp_reg1.word_lines()
        } else if r == 2 {
            self.gp_reg2.word_lines()
        } else {
            self.gp_reg3.word_lines()
        }
    }

    /// The word held by the instruction address register.
    pub closed spec fn iar_lines(&self) -> Seq<bool> {
        self.iar.word_lines()
    }

    /// The word held by the instruction register.
    pub closed spec fn ir_lines(&self) -> Seq<bool> {
        self.ir.word_lines()
    }

    /// The lines of the main bus.
    pub closed spec fn main_lines(&self) -> Seq<bool> {
        self.main_bus@
    }

    /// The lines the flags register puts out.
    pub closed spec fn flag_lines(&self) -> Seq<bool> {
        self.flags_bus@
    }

    /// The memory.
    pub closed spec fn ram(&self) -> Memory64K {
        self.memory
    }

    /// Builds the CPU around `memory`.  The temporary register and the flags
    /// register are always enabled; the temporary register starts at zero.
    #[verifier::rlimit(30)]
    pub fn new(memory: Memory64K) -> (r: Self)
        requires
            memory.wf(),
            !memory.mar().enable_on(),
        ensures
            r.wf(),
            !r.clock(),
            r.stepper_state() == crate::components::stepper::stepper_initial(),
            r.ram() == memory,
            r.devices() == Seq::<Device>::empty(),
            !memory.set_on() && !memory.mar().set_on() ==> r.idle(),
    {
        let mut main_bus = Bus::new(16);
        let mut tmp_bus = Bus::new(16);
        let mut tmp = Register::new("TMP");
        Self::update_enable_status(&mut tmp, true);
        Self::update_set_status(&mut tmp, true);
        tmp.update(&main_bus, &mut tmp_bus);
        Self::update_set_status(&mut tmp, false);

        let acc_bus = Bus::new(16);
        let acc = Register::new("ACC");

        let control_bus = Bus::new(16);
        let mut ir = Register::new("IR");
        ir.disable();

        let alu_to_flags_bus = Bus::new(16);
        let mut flags_bus = Bus::new(16);
        let mut flags = Register::new("FLAGS");
        Self::update_enable_status(&mut flags, true);
        Self::update_set_status(&mut flags, true);
        let ghost flags_bus0 = flags_bus@;
        flags.update(&alu_to_flags_bus, &mut flags_bus);
        proof {
            flags.lemma_shape();
            lemma_put(flags_bus0, flags.stored_lines());
        }
        Self::update_set_status(&mut flags, false);

        let busone_output = Bus::new(16);
        let busone = BusOne::new();
        let alu = ALU::new();
        let r = Self {
            gp_reg0: Register::new("R0"),
            gp_reg1: Register::new("R1"),
            gp_reg2: Register::new("R2"),
            gp_reg3: Register::new("R3"),
            tmp,
            acc,
            ir,
            iar: Register::new("IAR"),
            flags,
            clock_state: false,
            memory,
            alu,
            stepper: Stepper::new(),
            busone,
            main_bus,
            tmp_bus,
            busone_output,
            control_bus,
            acc_bus,
            alu_to_flags_bus,
            flags_bus,
            io_bus: IOBus::new(),
            step4_gates: [AND::new(); 8],
            step4_gate3_and: ANDGate3::new(),
            step5_gates: [AND::new(); 6],
            step5_gate3_and: ANDGate3::new(),
            step6_gates: [ANDGate3::new(); 2],
            step6_gates2_and: AND::new(),
            instr_decoder3x8: InstructionDecoder3x8::new(),
            instruction_decoder_enables2x4: [Decoder2x4::new(); 2],
            instruction_decoder_set2x4: Decoder2x4::new(),
            ir_instruction_and_gate: ANDGate3::new(),
            ir_instruction_not_gate: NOT::new(),
            io_bus_enable_gate: AND::new(),
            register_a_enable_or_gate: ORGate3::new(),
            register_b_enable_or_gate: ORGate4::new(),
            register_b_set_or_gate: ORGate4::new(),
            register_a_enable: Wire::with_value(false),
            register_b_enable: Wire::with_value(false),
            acc_enable_or_gate: ORGate4::new(),
            acc_enable_and_gate: AND::new(),
            bus_one_enable_or_gate: ORGate4::new(),
            iar_enable_or_gate: ORGate4::new(),
            iar_enable_and_gate: AND::new(),
            ram_enable_or_gate: ORGate5::new(),
            ram_enable_and_gate: AND::new(),
            gp_reg_enable_and_gates: [ANDGate3::new(); 8],
            gp_reg_enable_or_gates: [OR::new(); 4],
            gp_reg_set_and_gates: [ANDGate3::new(); 4],
            io_bus_set_gate: AND::new(),
            ir_bit4_not_gate: NOT::new(),
            ir_set_and_gate: AND::new(),
            mar_set_or_gate: ORGate6::new(),
            mar_set_and_gate: AND::new(),
            iar_set_or_gate: ORGate6::new(),
            iar_set_and_gate: AND::new(),
            acc_set_or_gate: ORGate4::new(),
            acc_set_and_gate: AND::new(),
            ram_set_and_gate: AND::new(),
            tmp_set_and_gate: AND::new(),
            flags_set_or_gate: OR::new(),
            flags_set_and_gate: AND::new(),
            register_b_set: Wire::with_value(false),
            flag_state_gates: [AND::new(); 4],
            flag_state_or_gate: ORGate4::new(),
            alu_op_and_gates: [ANDGate3::new(); 3],
            carry_temp: Bit::new(),
            carry_and_gate: AND::new(),
            peripherals: Vec::new(),
        };
        r
    }

    fn update_enable_status<T: Enableable>(enableable: &mut T, state: bool)
        ensures
            final(enableable).is_enabled() == state,
            old(enableable).enable_kept(*final(enableable)),
    {
        if state {
            enableable.enable();
        } else {
            enableable.disable();
        }
    }

    fn update_set_status<T: Settable>(set: &mut T, state: bool)
        ensures
            final(set).is_set() == state,
            old(set).set_kept(*final(set)),
    {
        if state {
            set.set();
        } else {
            set.unset();
        }
    }
}

impl CPU {
    /// Puts `address` in the instruction address register, and leaves the
    /// main bus clear.
    pub fn set_iar(&mut self, address: u16)
        requires
            old(self).wf(),
        ensures
            kept(&*old(self), &*final(self)),
            final(self).iar_lines() == word_bits(address),
            final(self).main_lines() == word_bits(0),
            final(self).devices() == old(self).devices(),
            forall|r: int| #[trigger] final(self).register_lines(r) == old(self).register_lines(r),
            final(self).ir_lines() == old(self).ir_lines(),
            final(self).flag_lines() == old(self).flag_lines(),
            final(self).ram() == old(self).ram(),
            old(self).idle() ==> final(self).fetch_ready(),
    {
        self.main_bus.set_value(address);
        Self::update_set_status(&mut self.iar, true);
        self.iar.update_on(&mut self.main_bus);
        Self::update_set_status(&mut self.iar, false);
        self.iar.update_on(&mut self.main_bus);
        self.clear_main_bus();
        proof {
            if old(self).idle() {
                lemma_idle_kept(&*old(self), &*self);
            }
        }
    }

    /// One clock cycle: the clock goes on and off again, and the control
    /// unit does the work of the stepper's next step.
    pub fn step(&mut self)
        requires
            old(self).wf(),
        ensures
            final(self).wf(),
            final(self).clock() == old(self).clock(),
            final(self).stepper_state() == stepper_update(
                stepper_update(old(self).stepper_state(), !old(self).clock()),
                old(self).clock(),
            ),
            cycle(&*old(self), &*final(self)),
            stepped(*old(self), *final(self)),
            !final(self).ram().is_enabled(),
            !final(self).ram().is_set(),
    {
        let ghost mut mid = *self;
        let mut i: usize = 0;
        while i < 2
            invariant
                i <= 2,
                self.wf(),
                self.clock() == (if i == 1 {
                    !old(self).clock()
                } else {
                    old(self).clock()
                }),
                i == 0 ==> *self == *old(self),
                i == 1 ==> self.stepper_state() == stepper_update(
                    old(self).stepper_state(),
                    !old(self).clock(),
                ),
                i == 1 ==> half_step(&*old(self), &*self, !old(self).clock()),
                i == 2 ==> mid.stepper_state() == stepper_update(old(self).stepper_state(), !old(self).clock()),
                i == 2 ==> half_step(&*old(self), &mid, !old(self).clock()),
                i == 2 ==> half_step(&mid, &*self, old(self).clock()),
                i == 2 ==> self.stepper_state() == stepper_update(
                    stepper_update(old(self).stepper_state(), !old(self).clock()),
                    old(self).clock(),
                ),
            decreases 2 - i,
        {
            proof {
                if i == 1 {
                    mid = *self;
                }
            }
            self.clock_state = if self.clock_state {
                false
            } else {
                true
            };
            let clock_state = self.clock_state;
            let ghost before = *self;
            self.to_step(clock_state);
            proof {
                let from = if i == 0 { *old(self) } else { mid };
                lemma_half_step_from(&from, &before, &*self, clock_state);
            }
            i += 1;
        }
        proof {
            if !old(self).clock() {
                lemma_cycle(&*old(self), &mid, &*self);
            } else {
                lemma_cycle_other(&*old(self), &mid, &*self);
            }
        }
    }

    /// Moves the stepper with the clock, then lets the enabled part drive the
    /// main bus and the set parts take it in.
    #[verifier::spinoff_prover]
    #[verifier::rlimit(100)]
    fn to_step(&mut self, clock_state: bool)
        requires
            old(self).wf(),
            old(self).clock() == clock_state,
        ensures
            final(self).wf(),
            final(self).clock() == clock_state,
            final(self).stepper_state() == stepper_update(old(self).stepper_state(), clock_state),
            half_step(&*old(self), &*final(self), clock_state),
    {
        self.stepper.update(clock_state);
        let ghost s0 = *self;
        assert(s0.instr_decoder3x8 == old(self).instr_decoder3x8 && s0.ir == old(self).ir);
        proof {
            if old(self).decoded() {
                assert forall|k: int| 0 <= k < 8 && #[trigger] s0.sel(k) implies !s0.ir_bit(8) by {
                    assert(s0.sel(k) == old(self).sel(k));
                }
            }
            if old(self).decodes() {
                assert forall|k: int| 0 <= k < 8 implies #[trigger] s0.sel(k) == (k == s0.alu_op() && !s0.ir_bit(8)) by {
                    assert(s0.sel(k) == old(self).sel(k));
                }
            }
        }
        self.run_step_4_gates();
        self.run_step_5_gates();
        self.run_step_6_gates();
        let ghost s1 = *self;
        self.run_enable(clock_state);
        let ghost s2 = *self;
        self.update_states();
        let ghost s3 = *self;
        let ghost mut s3b = s3;
        if clock_state {
            self.run_enable(false);
            proof {
                s3b = *self;
            }
            self.update_states();
        }
        let ghost s4 = *self;
        self.run_set(clock_state);
        let ghost s5 = *self;
        self.update_states();
        let ghost s6 = *self;
        let ghost mut s6b = s6;
        if clock_state {
            self.run_set(false);
            proof {
                s6b = *self;
            }
            self.update_states();
        }
        let ghost s7 = *self;
        self.clear_main_bus();
        proof {
            if !clock_state && s0.unlatched() {
            assert(held_same(&s0, &s1));
            assert(s2.unlatched());
            assert(held_same(&s1, &s2));
            assert(held_same(&s2, &s3));
            assert(s5.unlatched());
            assert(held_same(&s4, &s5));
            assert(held_same(&s5, &s6));
            assert(held_same(&s0, &s7));
            }
            assert(forall|r: int| 0 <= r < 4 ==> #[trigger] s7.register_lines(r) == s7.held_lines(r));
            s7.flags.lemma_shape();
            lemma_put(s6b.flags_bus@, s7.flags.stored_lines());
            assert(s7.flags.enable_on() ==> s7.flags_bus@ == s7.flags.stored_lines());
            assert(!s6b.ir.set_on());
            assert(s7.ir_instruction_not_gate@ == !(s7.ir_bit(11) && s7.ir_bit(10) && s7.ir_bit(9)));
            if s0.unlatched() && !s0.step_on(3) && !s0.step_on(4) && !s0.step_on(5) {
                assert(s2.unlatched());
                assert(regs_same(&s0, &s3));
                assert(regs_same(&s0, &s4));
                assert(!s5.tmp.set_on() && !s5.flags.set_on() && !s5.gp_reg0.set_on() && !s5.gp_reg1.set_on());
                assert(!s5.gp_reg2.set_on() && !s5.gp_reg3.set_on());
                assert(regs_same(&s0, &s6));
                assert(regs_same(&s0, &s7));
            }
            if s0.unlatched() && all_displays(s0.peripherals@) && clock_state
                && s0.stepper_state().1 == only_output(0) && !s0.carry_and_gate@ {
                assert(s0.step_on(0) && !s0.step_on(1) && !s0.step_on(2) && !s0.step_on(3)
                    && !s0.step_on(4) && !s0.step_on(5));
                s0.iar.lemma_shape();
                let w = s0.iar.stored_lines();
                // the address goes out on the bus
                assert(s2.unlatched() && s2.iar.enable_on() && !s2.acc.enable_on() && !s2.memory.enable_on());
                assert(!s2.gp_reg0.enable_on() && !s2.gp_reg1.enable_on() && !s2.gp_reg2.enable_on() && !s2.gp_reg3.enable_on());
                lemma_put(s2.main_bus@, w);
                assert(s2.bus_after_iar() == w);
                assert(s2.bus_after_ram() == w);
                assert(s2.bus_after_regs(s3.acc.stored_lines()) == w);
                assert(s3.main_bus@ == w);
                // nothing drives it in the second enable phase
                assert(s3b.unlatched() && !s3b.iar.enable_on() && !s3b.acc.enable_on() && !s3b.memory.enable_on());
                assert(!s3b.gp_reg0.enable_on() && !s3b.gp_reg1.enable_on() && !s3b.gp_reg2.enable_on() && !s3b.gp_reg3.enable_on());
                assert(s3b.main_bus@ == w);
                assert(s4.main_bus@ == w);
                assert(held_same(&s0, &s1));
                assert(held_same(&s1, &s2));
                assert(held_same(&s2, &s3));
                assert(held_same(&s3, &s3b));
                assert(held_same(&s3b, &s4));
                assert(held_same(&s0, &s4));
                // the address register and the accumulator take it in
                assert(s5.memory.mar().set_on() && s5.acc.set_on() && !s5.iar.set_on() && !s5.memory.set_on());
                assert(!s5.iar.enable_on() && !s5.memory.enable_on() && s5.busone.bus1_on());
                assert(!s5.carry_and_gate@);
                assert(s5.main_bus@ == w);
                assert(s5.bus_after_iar() == w);
                assert(s6.memory.mar().stored_lines() == w);
                crate::components::busone::law_bus_one(s6.tmp_bus@);
                assert(word_value(s6.busone_output@) == 1);
                assert(s5.bus_after_ram() == w);
                assert(word_value(s6.acc_bus@) == (word_value(w) + 1) % 65536);
                assert(s6.acc.stored_lines() == s6.acc_bus@);
                // and keep it
                assert(s6b.unlatched());
                assert(s7.memory.mar().stored_lines() == w);
                assert(s7.acc.stored_lines() == s6.acc_bus@);
                assert(forall|j: int| 0 <= j < MEMORY_WORDS ==> #[trigger] s6.memory.word(j) == s5.memory.word(j));
                assert(forall|j: int| 0 <= j < MEMORY_WORDS ==> #[trigger] s7.memory.word(j) == s6b.memory.word(j));
                assert forall|j: int| 0 <= j < MEMORY_WORDS implies #[trigger] self.memory.word(j) == old(self).memory.word(j) by {
                    assert(s4.memory.word(j) == s0.memory.word(j));
                    assert(s5.memory.word(j) == s4.memory.word(j));
                    assert(s6.memory.word(j) == s5.memory.word(j));
                    assert(s6b.memory.word(j) == s6.memory.word(j));
                    assert(s7.memory.word(j) == s6b.memory.word(j));
                }
                assert(self.memory.mar().stored_lines() == old(self).iar.stored_lines());
                assert(word_value(self.acc.stored_lines()) == (word_value(old(self).iar.stored_lines()) + 1) % 65536);
            }
            if s0.unlatched() && all_displays(s0.peripherals@) && clock_state
                && s0.stepper_state().1 == only_output(1) {
                assert(!s0.step_on(0) && s0.step_on(1) && !s0.step_on(2) && !s0.step_on(3)
                    && !s0.step_on(4) && !s0.step_on(5));
                let k = address_index(s0.memory.mar().stored_lines());
                let w = s0.memory.word(k);
                s0.memory.mar().lemma_shape();
                crate::memory::law_address_index_range(s0.memory.mar().stored_lines());
                s0.memory.cells()[k].value.lemma_shape();
                // the addressed word goes out on the bus
                assert(s2.unlatched() && !s2.iar.enable_on() && !s2.acc.enable_on() && s2.memory.enable_on());
                assert(!s2.gp_reg0.enable_on() && !s2.gp_reg1.enable_on() && !s2.gp_reg2.enable_on() && !s2.gp_reg3.enable_on());
                assert(s2.bus_after_iar() == s2.main_bus@);
                assert(s2.mar_after() == s0.memory.mar().stored_lines());
                assert(s2.cell_after() == w);
                lemma_put(s2.main_bus@, w);
                assert(s2.bus_after_ram() == w);
                assert(s2.bus_after_regs(s3.acc.stored_lines()) == w);
                assert(s3.main_bus@ == w);
                assert(s3b.unlatched() && !s3b.iar.enable_on() && !s3b.acc.enable_on() && !s3b.memory.enable_on());
                assert(!s3b.gp_reg0.enable_on() && !s3b.gp_reg1.enable_on() && !s3b.gp_reg2.enable_on() && !s3b.gp_reg3.enable_on());
                assert(s4.main_bus@ == w);
                assert(held_same(&s0, &s1));
                assert(held_same(&s1, &s2));
                assert(held_same(&s2, &s3));
                assert(held_same(&s3, &s3b));
                assert(held_same(&s3b, &s4));
                // the instruction register takes it in
                assert(s5.ir.set_on() && !s5.memory.mar().set_on() && !s5.acc.set_on() && !s5.iar.set_on());
                assert(!s5.iar.enable_on());
                assert(s5.bus_after_iar() == w);
                assert(w.take(16) == w);
                assert(s6.ir.stored_lines() == w);
                assert(s6.acc.stored_lines() == s0.acc.stored_lines());
                assert(s6.memory.mar().stored_lines() == s0.memory.mar().stored_lines());
                assert(s6b.unlatched());
                assert(s7.ir.stored_lines() == w);
                assert(s7.acc.stored_lines() == s0.acc.stored_lines());
                assert(s7.memory.mar().stored_lines() == s0.memory.mar().stored_lines());
            }
            if s0.unlatched() && all_displays(s0.peripherals@) && clock_state
                && s0.stepper_state().1 == only_output(2) {
                assert(!s0.step_on(0) && !s0.step_on(1) && s0.step_on(2) && !s0.step_on(3)
                    && !s0.step_on(4) && !s0.step_on(5));
                let w = s0.acc.stored_lines();
                s0.acc.lemma_shape();
                // the accumulator puts its word on the bus
                assert(s2.unlatched() && !s2.iar.enable_on() && s2.acc.enable_on() && !s2.memory.enable_on());
                assert(!s2.gp_reg0.enable_on() && !s2.gp_reg1.enable_on() && !s2.gp_reg2.enable_on() && !s2.gp_reg3.enable_on());
                assert(s2.bus_after_iar() == s2.main_bus@);
                assert(s2.bus_after_ram() == s2.main_bus@);
                assert(s3.acc.stored_lines() == w);
                lemma_put(s2.main_bus@, w);
                assert(s2.bus_after_regs(s3.acc.stored_lines()) == w);
                assert(s3.main_bus@ == w);
                assert(s3b.unlatched() && !s3b.iar.enable_on() && !s3b.acc.enable_on() && !s3b.memory.enable_on());
                assert(!s3b.gp_reg0.enable_on() && !s3b.gp_reg1.enable_on() && !s3b.gp_reg2.enable_on() && !s3b.gp_reg3.enable_on());
                assert(s4.main_bus@ == w);
                // the instruction address register takes it in
                assert(s5.iar.set_on());
                assert(s5.main_bus@ == w);
                assert(w.take(16) == w);
                assert(s6.iar.stored_lines() == w);
                assert(s6b.unlatched());
                assert(s7.iar.stored_lines() == w);
            }
            if s0.unlatched() && all_displays(s0.peripherals@) && clock_state
                && s0.stepper_state().1 == only_output(3) && s0.decoded() && s0.ir_bit(8)
                && s0.flags.enable_on() && s0.flags_bus@ == s0.flags.stored_lines() {
                assert(!s0.step_on(0) && !s0.step_on(1) && !s0.step_on(2) && s0.step_on(3)
                    && !s0.step_on(4) && !s0.step_on(5));
                let rb = s0.reg_b();
                assert(!s0.sel(2) && !s0.sel(3) && !s0.sel(4) && !s0.sel(5) && !s0.sel(6) && !s0.sel(7));
                assert(!s0.sel(0) && !s0.sel(1));
                // register B goes out on the bus
                assert(s2.unlatched() && !s2.iar.enable_on() && !s2.acc.enable_on() && !s2.memory.enable_on());
                assert(s2.register_b_enable@ && !s2.register_a_enable@);
                assert(s2.gp_reg0.enable_on() == (rb == 0) && s2.gp_reg1.enable_on() == (rb == 1));
                assert(s2.gp_reg2.enable_on() == (rb == 2) && s2.gp_reg3.enable_on() == (rb == 3));
                let a = s3.acc.stored_lines();
                s0.gp_reg0.lemma_shape();
                s0.gp_reg1.lemma_shape();
                s0.gp_reg2.lemma_shape();
                s0.gp_reg3.lemma_shape();
                lemma_put(s2.bus_at_gp(a, 0), s0.gp_reg0.stored_lines());
                lemma_put(s2.bus_at_gp(a, 1), s0.gp_reg1.stored_lines());
                lemma_put(s2.bus_at_gp(a, 2), s0.gp_reg2.stored_lines());
                lemma_put(s2.bus_at_gp(a, 3), s0.gp_reg3.stored_lines());
                assert(s2.bus_after_regs(a) == s0.held_lines(rb));
                assert(s3.main_bus@ == s0.held_lines(rb));
                assert(s3b.unlatched() && !s3b.iar.enable_on() && !s3b.acc.enable_on() && !s3b.memory.enable_on());
                assert(!s3b.gp_reg0.enable_on() && !s3b.gp_reg1.enable_on() && !s3b.gp_reg2.enable_on() && !s3b.gp_reg3.enable_on());
                assert(s4.main_bus@ == s0.held_lines(rb));
                assert(regs_same(&s0, &s4));
                s0.flags.lemma_shape();
                lemma_put(s2.flags_bus@, s0.flags.stored_lines());
                assert(s3.flags_bus@ == s0.flags.stored_lines());
                assert(s4.flags_bus@ == s0.flags.stored_lines());
                // the temporary register takes it in, and the carry flag is latched
                assert(s5.tmp.set_on() && !s5.flags.set_on());
                assert(!s5.gp_reg0.set_on() && !s5.gp_reg1.set_on() && !s5.gp_reg2.set_on() && !s5.gp_reg3.set_on());
                assert(s5.carry_temp.stored() == s0.flags.stored_lines()[0]);
                assert(s5.bus_after_ram() == s0.held_lines(rb));
                assert(s6.tmp.stored_lines() == s0.held_lines(rb));
                assert(regs_same(&s6, &s7));
            }
            if s0.unlatched() && all_displays(s0.peripherals@) && clock_state
                && s0.stepper_state().1 == only_output(4) && s0.decoded() && s0.ir_bit(8)
                && s0.tmp.enable_on() && s0.ir.word_lines() == s0.ir.stored_lines() {
                assert(!s0.step_on(0) && !s0.step_on(1) && !s0.step_on(2) && !s0.step_on(3)
                    && s0.step_on(4) && !s0.step_on(5));
                let ra = s0.reg_a();
                assert(!s0.sel(2) && !s0.sel(3) && !s0.sel(4) && !s0.sel(5) && !s0.sel(6) && !s0.sel(7));
                assert(!s0.sel(0) && !s0.sel(1));
                // register A goes out on the bus
                assert(s2.unlatched() && !s2.iar.enable_on() && !s2.acc.enable_on() && !s2.memory.enable_on());
                assert(!s2.register_b_enable@ && s2.register_a_enable@ && !s2.busone.bus1_on());
                assert(s2.gp_reg0.enable_on() == (ra == 0) && s2.gp_reg1.enable_on() == (ra == 1));
                assert(s2.gp_reg2.enable_on() == (ra == 2) && s2.gp_reg3.enable_on() == (ra == 3));
                let a = s3.acc.stored_lines();
                s0.gp_reg0.lemma_shape();
                s0.gp_reg1.lemma_shape();
                s0.gp_reg2.lemma_shape();
                s0.gp_reg3.lemma_shape();
                lemma_put(s2.bus_at_gp(a, 0), s0.gp_reg0.stored_lines());
                lemma_put(s2.bus_at_gp(a, 1), s0.gp_reg1.stored_lines());
                lemma_put(s2.bus_at_gp(a, 2), s0.gp_reg2.stored_lines());
                lemma_put(s2.bus_at_gp(a, 3), s0.gp_reg3.stored_lines());
                assert(s2.bus_after_regs(a) == s0.held_lines(ra));
                assert(s3.main_bus@ == s0.held_lines(ra));
                assert(s3b.unlatched() && !s3b.iar.enable_on() && !s3b.acc.enable_on() && !s3b.memory.enable_on());
                assert(!s3b.gp_reg0.enable_on() && !s3b.gp_reg1.enable_on() && !s3b.gp_reg2.enable_on() && !s3b.gp_reg3.enable_on());
                assert(s4.main_bus@ == s0.held_lines(ra));
                assert(regs_same(&s0, &s4));
                // the accumulator takes in what the ALU makes of it and the
                // temporary register
                assert(s5.acc.set_on() && !s5.tmp.set_on() && !s5.iar.enable_on() && !s5.memory.enable_on());
                assert(!s5.gp_reg0.set_on() && !s5.gp_reg1.set_on() && !s5.gp_reg2.set_on() && !s5.gp_reg3.set_on());
                assert(s5.carry_and_gate@ == s0.carry_temp.stored());
                assert(s5.bus_after_ram() == s0.held_lines(ra));
                s0.tmp.lemma_shape();
                lemma_put(s5.tmp_bus@, s0.tmp.stored_lines());
                assert(s6.tmp_bus@ == s0.tmp.stored_lines());
                crate::components::busone::law_bus_one(s6.tmp_bus@);
                assert(s6.busone_output@ == s0.tmp.stored_lines());
                assert(s6.ir.stored_lines() == s0.ir.stored_lines());
                assert(s6.ir_bit(8));
                assert(s6.alu.op_index() == s0.alu_op());
                assert(s6.acc.stored_lines() == s6.acc_bus@);
                assert(forall|r: int| #[trigger] s6.held_lines(r) == s0.held_lines(r));
                assert(forall|r: int| #[trigger] s7.held_lines(r) == s0.held_lines(r));
            }
            if s0.unlatched() && all_displays(s0.peripherals@) && clock_state
                && s0.stepper_state().1 == only_output(5) && s0.decoded() && s0.ir_bit(8)
                && s0.ir_instruction_not_gate@ == !(s0.ir_bit(11) && s0.ir_bit(10) && s0.ir_bit(9))
                && s0.ir.word_lines() == s0.ir.stored_lines() {
                assert(!s0.step_on(0) && !s0.step_on(1) && !s0.step_on(2) && !s0.step_on(3)
                    && !s0.step_on(4) && s0.step_on(5));
                let rb = s0.reg_b();
                let back = !(s0.ir_bit(11) && s0.ir_bit(10) && s0.ir_bit(9));
                assert(!s0.sel(2) && !s0.sel(3) && !s0.sel(4) && !s0.sel(5) && !s0.sel(6) && !s0.sel(7));
                assert(!s0.sel(0) && !s0.sel(1));
                // the accumulator goes out on the bus, unless the ALU compared
                assert(s2.unlatched() && !s2.iar.enable_on() && s2.acc.enable_on() == back && !s2.memory.enable_on());
                assert(!s2.register_b_enable@ && !s2.register_a_enable@);
                assert(!s2.gp_reg0.enable_on() && !s2.gp_reg1.enable_on() && !s2.gp_reg2.enable_on() && !s2.gp_reg3.enable_on());
                s0.acc.lemma_shape();
                lemma_put(s2.main_bus@, s0.acc.stored_lines());
                assert(s3.acc.stored_lines() == s0.acc.stored_lines());
                assert(back ==> s3.main_bus@ == s0.acc.stored_lines());
                assert(s3b.unlatched() && !s3b.iar.enable_on() && !s3b.acc.enable_on() && !s3b.memory.enable_on());
                assert(!s3b.gp_reg0.enable_on() && !s3b.gp_reg1.enable_on() && !s3b.gp_reg2.enable_on() && !s3b.gp_reg3.enable_on());
                assert(back ==> s4.main_bus@ == s0.acc.stored_lines());
                assert(regs_same(&s0, &s4));
                // register B takes it in
                assert(s4.ir.word_lines() == s0.ir.word_lines());
                assert(s5.register_b_set@ == back);
                assert(s5.gp_reg0.set_on() == (back && rb == 0) && s5.gp_reg1.set_on() == (back && rb == 1));
                assert(s5.gp_reg2.set_on() == (back && rb == 2) && s5.gp_reg3.set_on() == (back && rb == 3));
                assert(!s5.acc.enable_on() && !s5.iar.enable_on() && !s5.memory.enable_on());
                assert(!s5.gp_reg0.enable_on() && !s5.gp_reg1.enable_on() && !s5.gp_reg2.enable_on() && !s5.gp_reg3.enable_on());
                let a = s6.acc.stored_lines();
                assert(s5.bus_at_gp(a, 0) == s5.main_bus@);
                assert(s5.bus_at_gp(a, 1) == s5.main_bus@);
                assert(s5.bus_at_gp(a, 2) == s5.main_bus@);
                assert(s5.bus_at_gp(a, 3) == s5.main_bus@);
                assert(s0.acc.stored_lines().take(16) == s0.acc.stored_lines());
                assert forall|r: int| 0 <= r < 4 implies #[trigger] s7.held_lines(r) == (if r == rb && back {
                    s0.acc.stored_lines()
                } else {
                    s0.held_lines(r)
                }) by {
                    assert(s6.held_lines(r) == s7.held_lines(r));
                }
            }
            if runs(&s0, &s7, clock_state, 3, 0) || runs(&s0, &s7, clock_state, 3, 1) {
                lemma_outputs(&s0, 3);
                let ra = s0.reg_a();
                // register A goes out on the bus
                assert(s2.unlatched() && !s2.iar.enable_on() && !s2.acc.enable_on() && !s2.memory.enable_on());
                assert(!s2.register_b_enable@ && s2.register_a_enable@ && !s2.busone.bus1_on());
                assert(s2.gp_reg0.enable_on() == (ra == 0) && s2.gp_reg1.enable_on() == (ra == 1));
                assert(s2.gp_reg2.enable_on() == (ra == 2) && s2.gp_reg3.enable_on() == (ra == 3));
                let a = s3.acc.stored_lines();
                s0.gp_reg0.lemma_shape();
                s0.gp_reg1.lemma_shape();
                s0.gp_reg2.lemma_shape();
                s0.gp_reg3.lemma_shape();
                lemma_put(s2.bus_at_gp(a, 0), s0.gp_reg0.stored_lines());
                lemma_put(s2.bus_at_gp(a, 1), s0.gp_reg1.stored_lines());
                lemma_put(s2.bus_at_gp(a, 2), s0.gp_reg2.stored_lines());
                lemma_put(s2.bus_at_gp(a, 3), s0.gp_reg3.stored_lines());
                assert(s2.bus_after_regs(a) == s0.held_lines(ra));
                assert(s3b.unlatched() && !s3b.iar.enable_on() && !s3b.acc.enable_on() && !s3b.memory.enable_on());
                assert(!s3b.gp_reg0.enable_on() && !s3b.gp_reg1.enable_on() && !s3b.gp_reg2.enable_on() && !s3b.gp_reg3.enable_on());
                assert(s4.main_bus@ == s0.held_lines(ra));
                assert(held_same(&s0, &s1));
                assert(held_same(&s1, &s2));
                assert(held_same(&s2, &s3));
                assert(held_same(&s3, &s3b));
                assert(held_same(&s3b, &s4));
                assert(held_same(&s0, &s4));
                // the memory address register takes it in
                assert(s5.memory.mar().set_on() && !s5.acc.set_on() && !s5.iar.set_on() && !s5.memory.set_on());
                assert(!s5.tmp.set_on() && !s5.flags.set_on() && !s5.ir.set_on());
                assert(!s5.gp_reg0.set_on() && !s5.gp_reg1.set_on() && !s5.gp_reg2.set_on() && !s5.gp_reg3.set_on());
                assert(s5.bus_after_iar() == s0.held_lines(ra));
                assert(s6.memory.mar().stored_lines() == s0.held_lines(ra));
                assert(forall|j: int| 0 <= j < MEMORY_WORDS ==> #[trigger] s6.memory.word(j) == s5.memory.word(j));
                assert(forall|j: int| 0 <= j < MEMORY_WORDS ==> #[trigger] s7.memory.word(j) == s6b.memory.word(j));
                assert forall|j: int| 0 <= j < MEMORY_WORDS implies #[trigger] s7.memory.word(j) == s0.memory.word(j) by {
                    assert(s4.memory.word(j) == s0.memory.word(j));
                    assert(s5.memory.word(j) == s4.memory.word(j));
                    assert(s6.memory.word(j) == s5.memory.word(j));
                    assert(s6b.memory.word(j) == s6.memory.word(j));
                }
                assert(regs_same(&s0, &s7));
            }
            if (runs(&s0, &s7, clock_state, 3, 2) || runs(&s0, &s7, clock_state, 3, 5)) && !s0.carry_and_gate@ {
                lemma_outputs(&s0, 3);
                s0.iar.lemma_shape();
                let w = s0.iar.stored_lines();
                // the address goes out on the bus
                assert(s2.unlatched() && s2.iar.enable_on() && !s2.acc.enable_on() && !s2.memory.enable_on());
                assert(!s2.register_b_enable@ && !s2.register_a_enable@ && s2.busone.bus1_on());
                assert(!s2.gp_reg0.enable_on() && !s2.gp_reg1.enable_on() && !s2.gp_reg2.enable_on() && !s2.gp_reg3.enable_on());
                lemma_put(s2.main_bus@, w);
                assert(s2.bus_after_iar() == w);
                assert(s2.bus_after_ram() == w);
                assert(s2.bus_after_regs(s3.acc.stored_lines()) == w);
                assert(s3b.unlatched() && !s3b.iar.enable_on() && !s3b.acc.enable_on() && !s3b.memory.enable_on());
                assert(!s3b.gp_reg0.enable_on() && !s3b.gp_reg1.enable_on() && !s3b.gp_reg2.enable_on() && !s3b.gp_reg3.enable_on());
                assert(s4.main_bus@ == w);
                assert(held_same(&s0, &s1));
                assert(held_same(&s1, &s2));
                assert(held_same(&s2, &s3));
                assert(held_same(&s3, &s3b));
                assert(held_same(&s3b, &s4));
                // the memory address register and the accumulator take it in
                assert(s5.memory.mar().set_on() && s5.acc.set_on() && !s5.iar.set_on() && !s5.memory.set_on());
                assert(!s5.tmp.set_on() && !s5.flags.set_on() && !s5.ir.set_on());
                assert(!s5.gp_reg0.set_on() && !s5.gp_reg1.set_on() && !s5.gp_reg2.set_on() && !s5.gp_reg3.set_on());
                assert(!s5.iar.enable_on() && !s5.memory.enable_on() && s5.busone.bus1_on());
                assert(!s5.carry_and_gate@);
                assert(s5.bus_after_iar() == w);
                assert(s6.memory.mar().stored_lines() == w);
                crate::components::busone::law_bus_one(s6.tmp_bus@);
                assert(word_value(s6.busone_output@) == 1);
                assert(s5.bus_after_ram() == w);
                assert(word_value(s6.acc_bus@) == (word_value(w) + 1) % 65536);
                assert(s6.acc.stored_lines() == s6.acc_bus@);
                assert(s6b.unlatched());
                assert(forall|j: int| 0 <= j < MEMORY_WORDS ==> #[trigger] s6.memory.word(j) == s5.memory.word(j));
                assert(forall|j: int| 0 <= j < MEMORY_WORDS ==> #[trigger] s7.memory.word(j) == s6b.memory.word(j));
                assert forall|j: int| 0 <= j < MEMORY_WORDS implies #[trigger] s7.memory.word(j) == s0.memory.word(j) by {
                    assert(s4.memory.word(j) == s0.memory.word(j));
                    assert(s5.memory.word(j) == s4.memory.word(j));
                    assert(s6.memory.word(j) == s5.memory.word(j));
                    assert(s6b.memory.word(j) == s6.memory.word(j));
                }
                assert(regs_same(&s0, &s7));
            }
            if runs(&s0, &s7, clock_state, 3, 3) {
                lemma_outputs(&s0, 3);
                let rb = s0.reg_b();
                // register B goes out on the bus
                assert(s2.unlatched() && !s2.iar.enable_on() && !s2.acc.enable_on() && !s2.memory.enable_on());
                assert(s2.register_b_enable@ && !s2.register_a_enable@ && !s2.busone.bus1_on());
                assert(s2.gp_reg0.enable_on() == (rb == 0) && s2.gp_reg1.enable_on() == (rb == 1));
                assert(s2.gp_reg2.enable_on() == (rb == 2) && s2.gp_reg3.enable_on() == (rb == 3));
                let a = s3.acc.stored_lines();
                s0.gp_reg0.lemma_shape();
                s0.gp_reg1.lemma_shape();
                s0.gp_reg2.lemma_shape();
                s0.gp_reg3.lemma_shape();
                lemma_put(s2.bus_at_gp(a, 0), s0.gp_reg0.stored_lines());
                lemma_put(s2.bus_at_gp(a, 1), s0.gp_reg1.stored_lines());
                lemma_put(s2.bus_at_gp(a, 2), s0.gp_reg2.stored_lines());
                lemma_put(s2.bus_at_gp(a, 3), s0.gp_reg3.stored_lines());
                assert(s2.bus_after_regs(a) == s0.held_lines(rb));
                assert(s3b.unlatched() && !s3b.iar.enable_on() && !s3b.acc.enable_on() && !s3b.memory.enable_on());
                assert(!s3b.gp_reg0.enable_on() && !s3b.gp_reg1.enable_on() && !s3b.gp_reg2.enable_on() && !s3b.gp_reg3.enable_on());
                assert(s4.main_bus@ == s0.held_lines(rb));
                assert(regs_same(&s0, &s4));
                // the instruction address register takes it in
                assert(s5.iar.set_on() && !s5.memory.mar().set_on() && !s5.acc.set_on() && !s5.memory.set_on());
                assert(!s5.tmp.set_on() && !s5.flags.set_on() && !s5.ir.set_on());
                assert(!s5.gp_reg0.set_on() && !s5.gp_reg1.set_on() && !s5.gp_reg2.set_on() && !s5.gp_reg3.set_on());
                assert(s0.held_lines(rb).take(16) == s0.held_lines(rb));
                assert(s6.iar.stored_lines() == s0.held_lines(rb));
                assert(regs_same(&s0, &s7));
            }
            if runs(&s0, &s7, clock_state, 3, 4) {
                lemma_outputs(&s0, 3);
                s0.iar.lemma_shape();
                let w = s0.iar.stored_lines();
                // the instruction address goes out on the bus
                assert(s2.unlatched() && s2.iar.enable_on() && !s2.acc.enable_on() && !s2.memory.enable_on());
                assert(!s2.register_b_enable@ && !s2.register_a_enable@);
                assert(!s2.gp_reg0.enable_on() && !s2.gp_reg1.enable_on() && !s2.gp_reg2.enable_on() && !s2.gp_reg3.enable_on());
                lemma_put(s2.main_bus@, w);
                assert(s2.bus_after_iar() == w);
                assert(s2.bus_after_ram() == w);
                assert(s2.bus_after_regs(s3.acc.stored_lines()) == w);
                assert(s3b.unlatched() && !s3b.iar.enable_on() && !s3b.acc.enable_on() && !s3b.memory.enable_on());
                assert(!s3b.gp_reg0.enable_on() && !s3b.gp_reg1.enable_on() && !s3b.gp_reg2.enable_on() && !s3b.gp_reg3.enable_on());
                assert(s4.main_bus@ == w);
                assert(held_same(&s0, &s1));
                assert(held_same(&s1, &s2));
                assert(held_same(&s2, &s3));
                assert(held_same(&s3, &s3b));
                assert(held_same(&s3b, &s4));
                // the memory address register takes it in
                assert(s5.memory.mar().set_on() && !s5.iar.set_on() && !s5.memory.set_on());
                assert(!s5.tmp.set_on() && !s5.flags.set_on() && !s5.ir.set_on());
                assert(!s5.gp_reg0.set_on() && !s5.gp_reg1.set_on() && !s5.gp_reg2.set_on() && !s5.gp_reg3.set_on());
                assert(!s5.iar.enable_on());
                assert(s5.bus_after_iar() == w);
                assert(s6.memory.mar().stored_lines() == w);
                assert(forall|j: int| 0 <= j < MEMORY_WORDS ==> #[trigger] s6.memory.word(j) == s5.memory.word(j));
                assert(forall|j: int| 0 <= j < MEMORY_WORDS ==> #[trigger] s7.memory.word(j) == s6b.memory.word(j));
                assert forall|j: int| 0 <= j < MEMORY_WORDS implies #[trigger] s7.memory.word(j) == s0.memory.word(j) by {
                    assert(s4.memory.word(j) == s0.memory.word(j));
                    assert(s5.memory.word(j) == s4.memory.word(j));
                    assert(s6.memory.word(j) == s5.memory.word(j));
                    assert(s6b.memory.word(j) == s6.memory.word(j));
                }
                assert(regs_same(&s0, &s7));
            }
            if runs(&s0, &s7, clock_state, 4, 0) || runs(&s0, &s7, clock_state, 4, 2) {
                lemma_outputs(&s0, 4);
                lemma_selectors(&s0);
                let rb = s0.reg_b();
                let k = address_index(s0.memory.mar().stored_lines());
                let w = s0.memory.word(k);
                s0.memory.mar().lemma_shape();
                crate::memory::law_address_index_range(s0.memory.mar().stored_lines());
                s0.memory.cells()[k].value.lemma_shape();
                // the addressed word goes out on the bus
                assert(s2.unlatched() && !s2.iar.enable_on() && !s2.acc.enable_on() && s2.memory.enable_on());
                assert(!s2.register_b_enable@ && !s2.register_a_enable@ && !s2.busone.bus1_on());
                assert(!s2.gp_reg0.enable_on() && !s2.gp_reg1.enable_on() && !s2.gp_reg2.enable_on() && !s2.gp_reg3.enable_on());
                assert(s2.bus_after_iar() == s2.main_bus@);
                assert(s2.mar_after() == s0.memory.mar().stored_lines());
                assert(s2.cell_after() == w);
                lemma_put(s2.main_bus@, w);
                assert(s2.bus_after_ram() == w);
                assert(s2.bus_after_regs(s3.acc.stored_lines()) == w);
                assert(s3b.unlatched() && !s3b.iar.enable_on() && !s3b.acc.enable_on() && !s3b.memory.enable_on());
                assert(!s3b.gp_reg0.enable_on() && !s3b.gp_reg1.enable_on() && !s3b.gp_reg2.enable_on() && !s3b.gp_reg3.enable_on());
                assert(s4.main_bus@ == w);
                assert(held_same(&s0, &s1));
                assert(held_same(&s1, &s2));
                assert(held_same(&s2, &s3));
                assert(held_same(&s3, &s3b));
                assert(held_same(&s3b, &s4));
                // register B takes it in
                assert(s4.ir.word_lines() == s0.ir.word_lines());
                assert(s5.register_b_set@);
                assert(s5.gp_reg0.set_on() == (rb == 0) && s5.gp_reg1.set_on() == (rb == 1));
                assert(s5.gp_reg2.set_on() == (rb == 2) && s5.gp_reg3.set_on() == (rb == 3));
                assert(!s5.iar.set_on() && !s5.memory.mar().set_on() && !s5.memory.set_on() && !s5.ir.set_on());
                assert(!s5.acc.enable_on() && !s5.iar.enable_on() && !s5.memory.enable_on());
                assert(!s5.gp_reg0.enable_on() && !s5.gp_reg1.enable_on() && !s5.gp_reg2.enable_on() && !s5.gp_reg3.enable_on());
                let a = s6.acc.stored_lines();
                assert(s5.bus_at_gp(a, 0) == w);
                assert(s5.bus_at_gp(a, 1) == w);
                assert(s5.bus_at_gp(a, 2) == w);
                assert(s5.bus_at_gp(a, 3) == w);
                assert(w.take(16) == w);
                assert forall|r: int| 0 <= r < 4 implies #[trigger] s7.held_lines(r) == (if r == rb {
                    w
                } else {
                    s0.held_lines(r)
                }) by {
                    assert(s6.held_lines(r) == s7.held_lines(r));
                }
                assert(!s5.acc.set_on());
                assert(s7.acc.stored_lines() == s0.acc.stored_lines());
                assert(forall|j: int| 0 <= j < MEMORY_WORDS ==> #[trigger] s6.memory.word(j) == s5.memory.word(j));
                assert(forall|j: int| 0 <= j < MEMORY_WORDS ==> #[trigger] s7.memory.word(j) == s6b.memory.word(j));
                assert forall|j: int| 0 <= j < MEMORY_WORDS implies #[trigger] s7.memory.word(j) == s0.memory.word(j) by {
                    assert(s4.memory.word(j) == s0.memory.word(j));
                    assert(s5.memory.word(j) == s4.memory.word(j));
                    assert(s6.memory.word(j) == s5.memory.word(j));
                    assert(s6b.memory.word(j) == s6.memory.word(j));
                }
            }
            if runs(&s0, &s7, clock_state, 4, 1) {
                lemma_outputs(&s0, 4);
                lemma_selectors(&s0);
                let rb = s0.reg_b();
                let k = address_index(s0.memory.mar().stored_lines());
                // register B goes out on the bus
                assert(s2.unlatched() && !s2.iar.enable_on() && !s2.acc.enable_on() && !s2.memory.enable_on());
                assert(s2.register_b_enable@ && !s2.register_a_enable@ && !s2.busone.bus1_on());
                assert(s2.gp_reg0.enable_on() == (rb == 0) && s2.gp_reg1.enable_on() == (rb == 1));
                assert(s2.gp_reg2.enable_on() == (rb == 2) && s2.gp_reg3.enable_on() == (rb == 3));
                let a = s3.acc.stored_lines();
                s0.gp_reg0.lemma_shape();
                s0.gp_reg1.lemma_shape();
                s0.gp_reg2.lemma_shape();
                s0.gp_reg3.lemma_shape();
                lemma_put(s2.bus_at_gp(a, 0), s0.gp_reg0.stored_lines());
                lemma_put(s2.bus_at_gp(a, 1), s0.gp_reg1.stored_lines());
                lemma_put(s2.bus_at_gp(a, 2), s0.gp_reg2.stored_lines());
                lemma_put(s2.bus_at_gp(a, 3), s0.gp_reg3.stored_lines());
                assert(s2.bus_after_regs(a) == s0.held_lines(rb));
                assert(s3b.unlatched() && !s3b.iar.enable_on() && !s3b.acc.enable_on() && !s3b.memory.enable_on());
                assert(!s3b.gp_reg0.enable_on() && !s3b.gp_reg1.enable_on() && !s3b.gp_reg2.enable_on() && !s3b.gp_reg3.enable_on());
                assert(s4.main_bus@ == s0.held_lines(rb));
                assert(held_same(&s0, &s1));
                assert(held_same(&s1, &s2));
                assert(held_same(&s2, &s3));
                assert(held_same(&s3, &s3b));
                assert(held_same(&s3b, &s4));
                // the addressed word takes it in
                assert(s5.memory.set_on() && !s5.memory.mar().set_on() && !s5.iar.set_on() && !s5.ir.set_on());
                assert(!s5.gp_reg0.set_on() && !s5.gp_reg1.set_on() && !s5.gp_reg2.set_on() && !s5.gp_reg3.set_on());
                assert(!s5.iar.enable_on());
                assert(s5.bus_after_iar() == s0.held_lines(rb));
                assert(s5.mar_after() == s0.memory.mar().stored_lines());
                assert(s6.memory.word(k) == s0.held_lines(rb));
                assert(s6b.unlatched());
                assert(s7.memory.word(k) == s0.held_lines(rb));
                assert forall|j: int| 0 <= j < MEMORY_WORDS && j != k implies #[trigger] s7.memory.word(j) == s0.memory.word(j) by {
                    assert(s4.memory.word(j) == s0.memory.word(j));
                    assert(s5.memory.word(j) == s4.memory.word(j));
                    assert(s6.memory.word(j) == s5.memory.word(j));
                    assert(s6b.memory.word(j) == s6.memory.word(j));
                }
                assert(forall|r: int| 0 <= r < 4 ==> #[trigger] s7.held_lines(r) == s0.held_lines(r));
            }
            if runs(&s0, &s7, clock_state, 4, 4) {
                lemma_outputs(&s0, 4);
                lemma_selectors(&s0);
                let k = address_index(s0.memory.mar().stored_lines());
                let w = s0.memory.word(k);
                s0.memory.mar().lemma_shape();
                crate::memory::law_address_index_range(s0.memory.mar().stored_lines());
                s0.memory.cells()[k].value.lemma_shape();
                // the addressed word goes out on the bus
                assert(s2.unlatched() && !s2.iar.enable_on() && !s2.acc.enable_on() && s2.memory.enable_on());
                assert(!s2.register_b_enable@ && !s2.register_a_enable@);
                assert(!s2.gp_reg0.enable_on() && !s2.gp_reg1.enable_on() && !s2.gp_reg2.enable_on() && !s2.gp_reg3.enable_on());
                assert(s2.bus_after_iar() == s2.main_bus@);
                assert(s2.mar_after() == s0.memory.mar().stored_lines());
                assert(s2.cell_after() == w);
                lemma_put(s2.main_bus@, w);
                assert(s2.bus_after_ram() == w);
                assert(s2.bus_after_regs(s3.acc.stored_lines()) == w);
                assert(s3b.unlatched() && !s3b.iar.enable_on() && !s3b.acc.enable_on() && !s3b.memory.enable_on());
                assert(!s3b.gp_reg0.enable_on() && !s3b.gp_reg1.enable_on() && !s3b.gp_reg2.enable_on() && !s3b.gp_reg3.enable_on());
                assert(s4.main_bus@ == w);
                assert(regs_same(&s0, &s4));
                // the instruction address register takes it in
                assert(s5.iar.set_on() && !s5.memory.set_on());
                assert(!s5.gp_reg0.set_on() && !s5.gp_reg1.set_on() && !s5.gp_reg2.set_on() && !s5.gp_reg3.set_on());
                assert(w.take(16) == w);
                assert(s6.iar.stored_lines() == w);
                assert(forall|r: int| 0 <= r < 4 ==> #[trigger] s7.held_lines(r) == s0.held_lines(r));
            }
            if runs(&s0, &s7, clock_state, 4, 5) {
                lemma_outputs(&s0, 4);
                lemma_selectors(&s0);
                let w = s0.acc.stored_lines();
                s0.acc.lemma_shape();
                // the accumulator puts its word on the bus
                assert(s2.unlatched() && !s2.iar.enable_on() && s2.acc.enable_on() && !s2.memory.enable_on());
                assert(!s2.register_b_enable@ && !s2.register_a_enable@);
                assert(!s2.gp_reg0.enable_on() && !s2.gp_reg1.enable_on() && !s2.gp_reg2.enable_on() && !s2.gp_reg3.enable_on());
                assert(s2.bus_after_iar() == s2.main_bus@);
                assert(s2.bus_after_ram() == s2.main_bus@);
                assert(s3.acc.stored_lines() == w);
                lemma_put(s2.main_bus@, w);
                assert(s2.bus_after_regs(s3.acc.stored_lines()) == w);
                assert(s3b.unlatched() && !s3b.iar.enable_on() && !s3b.acc.enable_on() && !s3b.memory.enable_on());
                assert(!s3b.gp_reg0.enable_on() && !s3b.gp_reg1.enable_on() && !s3b.gp_reg2.enable_on() && !s3b.gp_reg3.enable_on());
                assert(s4.main_bus@ == w);
                assert(held_same(&s0, &s1));
                assert(held_same(&s1, &s2));
                assert(held_same(&s2, &s3));
                assert(held_same(&s3, &s3b));
                assert(held_same(&s3b, &s4));
                // the instruction address register takes it in
                assert(s5.iar.set_on() && !s5.memory.set_on() && !s5.memory.mar().set_on() && !s5.acc.set_on());
                assert(!s5.tmp.set_on() && !s5.flags.set_on() && !s5.ir.set_on());
                assert(!s5.gp_reg0.set_on() && !s5.gp_reg1.set_on() && !s5.gp_reg2.set_on() && !s5.gp_reg3.set_on());
                assert(s5.main_bus@ == w);
                assert(w.take(16) == w);
                assert(s6.iar.stored_lines() == w);
                assert(forall|j: int| 0 <= j < MEMORY_WORDS ==> #[trigger] s6.memory.word(j) == s5.memory.word(j));
                assert(forall|j: int| 0 <= j < MEMORY_WORDS ==> #[trigger] s7.memory.word(j) == s6b.memory.word(j));
                assert forall|j: int| 0 <= j < MEMORY_WORDS implies #[trigger] s7.memory.word(j) == s0.memory.word(j) by {
                    assert(s4.memory.word(j) == s0.memory.word(j));
                    assert(s5.memory.word(j) == s4.memory.word(j));
                    assert(s6.memory.word(j) == s5.memory.word(j));
                    assert(s6b.memory.word(j) == s6.memory.word(j));
                }
                assert(regs_same(&s0, &s7));
            }
            if runs(&s0, &s7, clock_state, 5, 2) {
                lemma_outputs(&s0, 5);
                lemma_selectors(&s0);
                let w = s0.acc.stored_lines();
                s0.acc.lemma_shape();
                // the accumulator puts its word on the bus
                assert(s2.unlatched() && !s2.iar.enable_on() && s2.acc.enable_on() && !s2.memory.enable_on());
                assert(!s2.register_b_enable@ && !s2.register_a_enable@);
                assert(!s2.gp_reg0.enable_on() && !s2.gp_reg1.enable_on() && !s2.gp_reg2.enable_on() && !s2.gp_reg3.enable_on());
                assert(s2.bus_after_iar() == s2.main_bus@);
                assert(s2.bus_after_ram() == s2.main_bus@);
                assert(s3.acc.stored_lines() == w);
                lemma_put(s2.main_bus@, w);
                assert(s2.bus_after_regs(s3.acc.stored_lines()) == w);
                assert(s3b.unlatched() && !s3b.iar.enable_on() && !s3b.acc.enable_on() && !s3b.memory.enable_on());
                assert(!s3b.gp_reg0.enable_on() && !s3b.gp_reg1.enable_on() && !s3b.gp_reg2.enable_on() && !s3b.gp_reg3.enable_on());
                assert(s4.main_bus@ == w);
                assert(held_same(&s0, &s1));
                assert(held_same(&s1, &s2));
                assert(held_same(&s2, &s3));
                assert(held_same(&s3, &s3b));
                assert(held_same(&s3b, &s4));
                // the instruction address register takes it in
                assert(s5.iar.set_on() && !s5.memory.set_on() && !s5.memory.mar().set_on() && !s5.acc.set_on());
                assert(!s5.tmp.set_on() && !s5.flags.set_on() && !s5.ir.set_on());
                assert(!s5.gp_reg0.set_on() && !s5.gp_reg1.set_on() && !s5.gp_reg2.set_on() && !s5.gp_reg3.set_on());
                assert(s5.main_bus@ == w);
                assert(w.take(16) == w);
                assert(s6.iar.stored_lines() == w);
                assert(forall|j: int| 0 <= j < MEMORY_WORDS ==> #[trigger] s6.memory.word(j) == s5.memory.word(j));
                assert(forall|j: int| 0 <= j < MEMORY_WORDS ==> #[trigger] s7.memory.word(j) == s6b.memory.word(j));
                assert forall|j: int| 0 <= j < MEMORY_WORDS implies #[trigger] s7.memory.word(j) == s0.memory.word(j) by {
                    assert(s4.memory.word(j) == s0.memory.word(j));
                    assert(s5.memory.word(j) == s4.memory.word(j));
                    assert(s6.memory.word(j) == s5.memory.word(j));
                    assert(s6b.memory.word(j) == s6.memory.word(j));
                }
                assert(regs_same(&s0, &s7));
            }
            if runs(&s0, &s7, clock_state, 5, 5) && s0.flag_state_or_gate@ == jump_taken(&s0) {
                lemma_outputs(&s0, 5);
                lemma_selectors(&s0);
                let k = address_index(s0.memory.mar().stored_lines());
                let w = s0.memory.word(k);
                s0.memory.mar().lemma_shape();
                crate::memory::law_address_index_range(s0.memory.mar().stored_lines());
                s0.memory.cells()[k].value.lemma_shape();
                let taken = jump_taken(&s0);
                assert(s1.step6_gates[1]@ == taken);
                // the addressed word goes out on the bus when the jump is taken
                assert(s2.unlatched() && !s2.iar.enable_on() && !s2.acc.enable_on() && s2.memory.enable_on() == taken);
                assert(!s2.register_b_enable@ && !s2.register_a_enable@);
                assert(!s2.gp_reg0.enable_on() && !s2.gp_reg1.enable_on() && !s2.gp_reg2.enable_on() && !s2.gp_reg3.enable_on());
                assert(s2.bus_after_iar() == s2.main_bus@);
                assert(s2.mar_after() == s0.memory.mar().stored_lines());
                assert(s2.cell_after() == w);
                lemma_put(s2.main_bus@, w);
                assert(taken ==> s2.bus_after_ram() == w);
                assert(taken ==> s2.bus_after_regs(s3.acc.stored_lines()) == w);
                assert(s3b.unlatched() && !s3b.iar.enable_on() && !s3b.acc.enable_on() && !s3b.memory.enable_on());
                assert(!s3b.gp_reg0.enable_on() && !s3b.gp_reg1.enable_on() && !s3b.gp_reg2.enable_on() && !s3b.gp_reg3.enable_on());
                assert(taken ==> s4.main_bus@ == w);
                assert(regs_same(&s0, &s4));
                assert(s4.iar.stored_lines() == s0.iar.stored_lines());
                // and the instruction address register takes it in
                assert(s5.iar.set_on() == taken && !s5.memory.set_on());
                assert(!s5.tmp.set_on() && !s5.flags.set_on());
                assert(!s5.gp_reg0.set_on() && !s5.gp_reg1.set_on() && !s5.gp_reg2.set_on() && !s5.gp_reg3.set_on());
                assert(w.take(16) == w);
                assert(taken ==> s6.iar.stored_lines() == w);
                assert(!taken ==> s6.iar.stored_lines() == s0.iar.stored_lines());
                assert(regs_same(&s0, &s7));
            }
            if s7.flags.enable_on() {
                let p = if clock_state { s6 } else { s4 };
                let q = if clock_state { s6b } else { s5 };
                assert(q.flag_state_or_gate@ == jump_taken(&p));
                p.flags.lemma_shape();
                lemma_put(p.flags_bus@, p.flags.stored_lines());
                assert(p.flags_bus@ == p.flags.stored_lines());
                assert(s7.flags.stored_lines() == p.flags.stored_lines());
                assert(s7.ir.word_lines() == p.ir.word_lines());
                assert(s7.flag_state_or_gate@ == jump_taken(&s7));
            }
            if s0.unlatched() && s0.decodes() {
                lemma_selectors(&s0);
                let o = s0.stepper_state().1;
                let op = s0.alu_op();
                if o == only_output(1) || o == only_output(2) {
                    if o == only_output(1) {
                        lemma_outputs(&s0, 1);
                    } else {
                        lemma_outputs(&s0, 2);
                    }
                    assert(s2.unlatched());
                    assert(forall|j: int| 0 <= j < MEMORY_WORDS ==> #[trigger] s3.memory.word(j) == s2.memory.word(j));
                    assert(forall|j: int| 0 <= j < MEMORY_WORDS ==> #[trigger] s4.memory.word(j) == s3b.memory.word(j));
                    assert(!s5.memory.set_on());
                    assert(s6b.unlatched());
                    assert(forall|j: int| 0 <= j < MEMORY_WORDS ==> #[trigger] s6.memory.word(j) == s5.memory.word(j));
                    assert(forall|j: int| 0 <= j < MEMORY_WORDS ==> #[trigger] s7.memory.word(j) == s6b.memory.word(j));
                    assert forall|j: int| 0 <= j < MEMORY_WORDS implies #[trigger] s7.memory.word(j) == s0.memory.word(j) by {
                        assert(s3.memory.word(j) == s0.memory.word(j));
                        assert(s4.memory.word(j) == s3.memory.word(j));
                        assert(s5.memory.word(j) == s4.memory.word(j));
                        assert(s6.memory.word(j) == s5.memory.word(j));
                        assert(s6b.memory.word(j) == s6.memory.word(j));
                    }
                }
                if o == only_output(3) || o == only_output(4) || o == only_output(5) {
                    if o == only_output(3) {
                        lemma_outputs(&s0, 3);
                    } else if o == only_output(4) {
                        lemma_outputs(&s0, 4);
                    } else {
                        lemma_outputs(&s0, 5);
                    }
                    assert(s2.unlatched());
                    assert(s3.iar.stored_lines() == s0.iar.stored_lines());
                    assert(s4.iar.stored_lines() == s0.iar.stored_lines());
                    assert(s3.flags.stored_lines() == s0.flags.stored_lines());
                    assert(s4.flags.stored_lines() == s0.flags.stored_lines());
                    assert(forall|r: int| 0 <= r < 4 ==> #[trigger] s4.held_lines(r) == s0.held_lines(r));
                    assert(forall|j: int| 0 <= j < MEMORY_WORDS ==> #[trigger] s3.memory.word(j) == s2.memory.word(j));
                    assert(forall|j: int| 0 <= j < MEMORY_WORDS ==> #[trigger] s4.memory.word(j) == s3b.memory.word(j));
                    assert(s6b.unlatched());
                    assert(forall|j: int| 0 <= j < MEMORY_WORDS ==> #[trigger] s7.memory.word(j) == s6b.memory.word(j));
                    if (o == only_output(3) && op != 3) || (o == only_output(4) && op != 4 && op != 5)
                        || (o == only_output(5) && op != 2 && op != 5) {
                        assert(!s5.iar.set_on());
                        assert(s7.iar.stored_lines() == s0.iar.stored_lines());
                    }
                    if o == only_output(3) || o == only_output(5) || (o == only_output(4) && (op != 1 || s0.ir_bit(8))) {
                        assert(!s5.memory.set_on());
                        assert(forall|j: int| 0 <= j < MEMORY_WORDS ==> #[trigger] s6.memory.word(j) == s5.memory.word(j));
                        assert forall|j: int| 0 <= j < MEMORY_WORDS implies #[trigger] s7.memory.word(j) == s0.memory.word(j) by {
                            assert(s3.memory.word(j) == s0.memory.word(j));
                            assert(s4.memory.word(j) == s3.memory.word(j));
                            assert(s5.memory.word(j) == s4.memory.word(j));
                            assert(s6.memory.word(j) == s5.memory.word(j));
                            assert(s6b.memory.word(j) == s6.memory.word(j));
                        }
                    }
                    if !s0.ir_bit(8) && (o == only_output(3) || o == only_output(5) || (o == only_output(4)
                        && op != 0 && op != 2 && op != 7)) {
                        assert(!s5.register_b_set@);
                        assert(!s5.gp_reg0.set_on() && !s5.gp_reg1.set_on() && !s5.gp_reg2.set_on() && !s5.gp_reg3.set_on());
                        assert(forall|r: int| 0 <= r < 4 ==> #[trigger] s7.held_lines(r) == s0.held_lines(r));
                    }
                    if (o == only_output(4) && !s0.ir_bit(8)) || o == only_output(5) || (o == only_output(3)
                        && (op != 6 || s0.ir_bit(8))) {
                        assert(!s5.flags.set_on());
                        assert(s7.flags.stored_lines() == s0.flags.stored_lines());
                    }
                }
            }
            if s0.unlatched() && !s0.step_on(1) {
                assert(s2.unlatched());
                assert(s3.ir.stored_lines() == s0.ir.stored_lines());
                assert(s4.ir.stored_lines() == s0.ir.stored_lines());
                assert(!s5.ir.set_on());
                assert(s6.ir.stored_lines() == s0.ir.stored_lines());
                assert(s7.ir.stored_lines() == s0.ir.stored_lines());
            }
            if s0.unlatched() && !s0.step_on(2) && ((s0.decoded() && s0.ir_bit(8))
                || (!s0.step_on(3) && !s0.step_on(4) && !s0.step_on(5))) {
                assert(s2.unlatched());
                assert(s3.iar.stored_lines() == s0.iar.stored_lines());
                assert(s4.iar.stored_lines() == s0.iar.stored_lines());
                if s0.decoded() && s0.ir_bit(8) {
                    assert(!s0.sel(2) && !s0.sel(3) && !s0.sel(4) && !s0.sel(5));
                }
                assert(!s5.iar.set_on());
                assert(s6.iar.stored_lines() == s0.iar.stored_lines());
                assert(s7.iar.stored_lines() == s0.iar.stored_lines());
            }
        }
        assert(self.stepper_state() == s0.stepper_state());
        assert(s7.step_on(4) == s1.step_on(4));
        assert(!s7.memory.enable_on());
        assert(s7.decoded());
        assert forall|k: int| 0 <= k < 8 && #[trigger] self.sel(k) implies !self.ir_bit(8) by {
            assert(self.sel(k) == s7.sel(k));
        }
        assert(s7.decodes());
        assert forall|k: int| 0 <= k < 8 implies #[trigger] self.sel(k) == (k == self.alu_op() && !self.ir_bit(8)) by {
            assert(self.sel(k) == s7.sel(k));
        }
    }

    fn run_step_4_gates(&mut self)
        requires
            old(self).wf(),
        ensures
            kept(&*old(self), &*final(self)),
            data_same(&*old(self), &*final(self)),
            latched_gates_same(&*old(self), &*final(self)),
            final(self).step5_gates == old(self).step5_gates,
            final(self).step5_gate3_and == old(self).step5_gate3_and,
            final(self).step6_gates == old(self).step6_gates,
            final(self).step6_gates2_and == old(self).step6_gates2_and,
            final(self).step4_gates[0]@ == (old(self).step_on(3) && old(self).ir_bit(8)),
            forall|k: int| 1 <= k < 8 ==> #[trigger] final(self).step4_gates[k]@ == (old(self).step_on(3) && old(self).sel(k - 1)),
            final(self).step4_gate3_and@ == (old(self).step_on(3) && old(self).sel(7) && old(self).ir_bit(12)),
            final(self).ir_bit4_not_gate@ == !old(self).ir_bit(12),
    {
        let s3 = self.stepper.get_output_wire(3);
        let b8 = self.ir.bit(8);
        self.step4_gates[0].update(s3, b8);
        let mut gate: usize = 1;
        let mut selector: usize = 0;
        while selector < 7
            invariant
                selector <= 7,
                gate == selector + 1,
                kept(&*old(self), &*self),
                data_same(&*old(self), &*self),
                latched_gates_same(&*old(self), &*self),
                self.step5_gates == old(self).step5_gates,
                self.step5_gate3_and == old(self).step5_gate3_and,
                self.step6_gates == old(self).step6_gates,
                self.step6_gates2_and == old(self).step6_gates2_and,
                self.step4_gates[0]@ == (old(self).step_on(3) && old(self).ir_bit(8)),
                forall|k: int| 1 <= k < gate ==> #[trigger] self.step4_gates[k]@ == (old(self).step_on(3) && old(self).sel(k - 1)),
            decreases 7 - selector,
        {
            let s3 = self.stepper.get_output_wire(3);
            let sel = self.instr_decoder3x8.selector_gates[selector].get();
            self.step4_gates[gate].update(s3, sel);
            gate += 1;
            selector += 1;
        }
        let s3 = self.stepper.get_output_wire(3);
        let sel7 = self.instr_decoder3x8.selector_gates[7].get();
        let b12 = self.ir.bit(12);
        self.step4_gate3_and.update(s3, sel7, b12);
        let b12 = self.ir.bit(12);
        self.ir_bit4_not_gate.update(b12);
    }

    fn run_step_5_gates(&mut self)
        requires
            old(self).wf(),
        ensures
            kept(&*old(self), &*final(self)),
            data_same(&*old(self), &*final(self)),
            latched_gates_same(&*old(self), &*final(self)),
            final(self).step4_gates == old(self).step4_gates,
            final(self).step4_gate3_and == old(self).step4_gate3_and,
            final(self).ir_bit4_not_gate == old(self).ir_bit4_not_gate,
            final(self).step6_gates == old(self).step6_gates,
            final(self).step6_gates2_and == old(self).step6_gates2_and,
            final(self).step5_gates[0]@ == (old(self).step_on(4) && old(self).ir_bit(8)),
            final(self).step5_gates[1]@ == (old(self).step_on(4) && old(self).sel(0)),
            final(self).step5_gates[2]@ == (old(self).step_on(4) && old(self).sel(1)),
            final(self).step5_gates[3]@ == (old(self).step_on(4) && old(self).sel(2)),
            final(self).step5_gates[4]@ == (old(self).step_on(4) && old(self).sel(4)),
            final(self).step5_gates[5]@ == (old(self).step_on(4) && old(self).sel(5)),
            final(self).step5_gate3_and@ == (old(self).step_on(4) && old(self).sel(7)
                && old(self).ir_bit4_not_gate@),
    {
        let s4 = self.stepper.get_output_wire(4);
        let b8 = self.ir.bit(8);
        self.step5_gates[0].update(s4, b8);
        let sel0 = self.instr_decoder3x8.selector_gates[0].get();
        self.step5_gates[1].update(s4, sel0);
        let sel1 = self.instr_decoder3x8.selector_gates[1].get();
        self.step5_gates[2].update(s4, sel1);
        let sel2 = self.instr_decoder3x8.selector_gates[2].get();
        self.step5_gates[3].update(s4, sel2);
        let sel4 = self.instr_decoder3x8.selector_gates[4].get();
        self.step5_gates[4].update(s4, sel4);
        let sel5 = self.instr_decoder3x8.selector_gates[5].get();
        self.step5_gates[5].update(s4, sel5);
        let sel7 = self.instr_decoder3x8.selector_gates[7].get();
        let not4 = self.ir_bit4_not_gate.get();
        self.step5_gate3_and.update(s4, sel7, not4);
    }

    fn run_step_6_gates(&mut self)
        requires
            old(self).wf(),
        ensures
            kept(&*old(self), &*final(self)),
            data_same(&*old(self), &*final(self)),
            latched_gates_same(&*old(self), &*final(self)),
            final(self).step4_gates == old(self).step4_gates,
            final(self).step4_gate3_and == old(self).step4_gate3_and,
            final(self).ir_bit4_not_gate == old(self).ir_bit4_not_gate,
            final(self).step5_gates == old(self).step5_gates,
            final(self).step5_gate3_and == old(self).step5_gate3_and,
            final(self).step6_gates[0]@ == (old(self).step_on(5) && old(self).ir_bit(8)
                && old(self).ir_instruction_not_gate@),
            final(self).step6_gates2_and@ == (old(self).step_on(5) && old(self).sel(2)),
            final(self).step6_gates[1]@ == (old(self).step_on(5) && old(self).sel(5)
                && old(self).flag_state_or_gate@),
    {
        let s5 = self.stepper.get_output_wire(5);
        let b8 = self.ir.bit(8);
        let not_ins = self.ir_instruction_not_gate.get();
        self.step6_gates[0].update(s5, b8, not_ins);
        let sel2 = self.instr_decoder3x8.selector_gates[2].get();
        self.step6_gates2_and.update(s5, sel2);
        let sel5 = self.instr_decoder3x8.selector_gates[5].get();
        let flag = self.flag_state_or_gate.get();
        self.step6_gates[1].update(s5, sel5, flag);
    }

    /// Every part takes in and drives its buses as its signals say.
    #[verifier::spinoff_prover]
    fn update_states(&mut self)
        requires
            old(self).wf(),
        ensures
            kept(&*old(self), &*final(self)),
            signals_same(&*old(self), &*final(self)),
            step_gates_same(&*old(self), &*final(self)),
            latched_gates_same(&*old(self), &*final(self)),
            final(self).iar.stored_lines() == latch(old(self).iar, old(self).main_bus@),
            final(self).iar.word_lines() == final(self).iar.stored_lines(),
            final(self).memory.mar().stored_lines() == old(self).mar_after(),
            final(self).ir.stored_lines() == latch(old(self).ir, old(self).bus_after_iar()),
            final(self).ir.word_lines() == final(self).ir.stored_lines(),
            final(self).memory.word(address_index(old(self).mar_after())) == old(self).cell_after(),
            forall|j: int| 0 <= j < MEMORY_WORDS && j != address_index(old(self).mar_after())
                ==> #[trigger] final(self).memory.word(j) == old(self).memory.word(j),
            final(self).acc.stored_lines() == latch(old(self).acc, final(self).acc_bus@),
            final(self).gp_reg0.stored_lines() == latch(old(self).gp_reg0, old(self).bus_at_gp(final(self).acc.stored_lines(), 0)),
            final(self).gp_reg1.stored_lines() == latch(old(self).gp_reg1, old(self).bus_at_gp(final(self).acc.stored_lines(), 1)),
            final(self).gp_reg2.stored_lines() == latch(old(self).gp_reg2, old(self).bus_at_gp(final(self).acc.stored_lines(), 2)),
            final(self).gp_reg3.stored_lines() == latch(old(self).gp_reg3, old(self).bus_at_gp(final(self).acc.stored_lines(), 3)),
            final(self).gp_reg0.word_lines() == final(self).gp_reg0.stored_lines(),
            final(self).gp_reg1.word_lines() == final(self).gp_reg1.stored_lines(),
            final(self).gp_reg2.word_lines() == final(self).gp_reg2.stored_lines(),
            final(self).gp_reg3.word_lines() == final(self).gp_reg3.stored_lines(),
            final(self).tmp.stored_lines() == latch(old(self).tmp, old(self).bus_after_ram()),
            final(self).tmp_bus@ == put(old(self).tmp_bus@, final(self).tmp.stored_lines(), old(self).tmp.enable_on()),
            final(self).flags.stored_lines() == latch(old(self).flags, old(self).alu_to_flags_bus@),
            final(self).flags_bus@ == put(old(self).flags_bus@, final(self).flags.stored_lines(), old(self).flags.enable_on()),
            final(self).alu.carry_in@ == old(self).carry_and_gate@,
            !old(self).step_on(4) ==> final(self).alu.op_index() == 0,
            old(self).step_on(4) && final(self).ir_bit(8) ==> final(self).alu.op_index() == final(self).alu_op(),
            final(self).busone_output@ == bus_one_lines(final(self).tmp_bus@, old(self).busone.bus1_on()),
            word_value(final(self).acc_bus@) == alu_output(
                final(self).alu.op_index(),
                word_value(old(self).bus_after_ram()),
                word_value(final(self).busone_output@),
                old(self).carry_and_gate@,
            ),
            forall|k: int| 0 <= k < 8 ==> #[trigger] final(self).sel(k) ==> !final(self).ir_bit(8),
            final(self).decodes(),
            final(self).peripherals@.len() == old(self).peripherals@.len(),
            forall|i: int| 0 <= i < final(self).peripherals@.len() ==> (#[trigger] final(self).peripherals@[i] is Display) == (old(self).peripherals@[i] is Display),
            all_displays(old(self).peripherals@) ==> final(self).main_bus@ == old(self).bus_after_regs(final(self).acc.stored_lines()),
    {
        self.iar.update_on(&mut self.main_bus);
        self.memory.update_address_register(&mut self.main_bus);
        self.ir.update(&self.main_bus, &mut self.control_bus);
        self.memory.update(&mut self.main_bus);
        self.tmp.update(&self.main_bus, &mut self.tmp_bus);
        self.flags.update(&self.alu_to_flags_bus, &mut self.flags_bus);
        self.busone.update(&self.tmp_bus, &mut self.busone_output);
        self.update_alu();
        self.acc.update(&self.acc_bus, &mut self.main_bus);
        self.gp_reg0.update_on(&mut self.main_bus);
        self.gp_reg1.update_on(&mut self.main_bus);
        self.gp_reg2.update_on(&mut self.main_bus);
        self.gp_reg3.update_on(&mut self.main_bus);
        self.update_instruction_decoder3x8();
        let ghost decoded = *self;
        self.update_io_bus();
        Self::update_peripherals(&mut self.peripherals, &self.io_bus, &mut self.main_bus);
        assert forall|k: int| 0 <= k < 8 implies #[trigger] self.sel(k) == (k == self.alu_op() && !self.ir_bit(8)) by {
            assert(self.sel(k) == decoded.sel(k));
        }
    }

    /// Each device in turn sees the I/O lines and the main bus.
    fn update_peripherals(peripherals: &mut Vec<Device>, io_bus: &IOBus, main_bus: &mut Bus)
        requires
            bus16(*old(main_bus)),
            forall|i: int| 0 <= i < old(peripherals)@.len() ==> #[trigger] old(peripherals)@[i].connected(),
        ensures
            bus16(*final(main_bus)),
            final(peripherals)@.len() == old(peripherals)@.len(),
            forall|i: int| 0 <= i < final(peripherals)@.len() ==> #[trigger] final(peripherals)@[i].connected(),
            forall|i: int| 0 <= i < final(peripherals)@.len() ==> (#[trigger] final(peripherals)@[i] is Display) == (old(peripherals)@[i] is Display),
            all_displays(old(peripherals)@) ==> final(main_bus)@ == old(main_bus)@,
            devices_updated(old(peripherals)@, final(peripherals)@, *io_bus, old(main_bus)@, final(main_bus)@),
    {
        let n = peripherals.len();
        let mut i: usize = 0;
        let ghost mut buses: Seq<Seq<bool>> = seq![main_bus@];
        while i < n
            invariant
                i <= n,
                n == peripherals@.len(),
                n == old(peripherals)@.len(),
                bus16(*main_bus),
                forall|j: int| 0 <= j < n ==> #[trigger] peripherals@[j].connected(),
                forall|j: int| 0 <= j < n ==> (#[trigger] peripherals@[j] is Display) == (old(peripherals)@[j] is Display),
                all_displays(old(peripherals)@) ==> main_bus@ == old(main_bus)@,
                forall|j: int| i <= j < n ==> #[trigger] peripherals@[j] == old(peripherals)@[j],
                buses.len() == i + 1,
                buses[0] == old(main_bus)@,
                buses[i as int] == main_bus@,
                forall|j: int| 0 <= j < i ==> #[trigger] device_updated(old(peripherals)@[j], peripherals@[j], *io_bus, buses[j], buses[j + 1]),
            decreases n - i,
        {
            assert(peripherals@[i as int].connected());
            let ghost before = peripherals@;
            let ghost buses0 = buses;
            let mut d = peripherals.remove(i);
            d.update(io_bus, main_bus);
            peripherals.insert(i, d);
            proof {
                buses = buses.push(main_bus@);
            }
            assert forall|j: int| 0 <= j < n implies (#[trigger] peripherals@[j] is Display) == (old(peripherals)@[j] is Display) && peripherals@[j].connected() by {
                if j != i {
                    assert(peripherals@[j] == before[j]);
                }
            }
            assert forall|j: int| i + 1 <= j < n implies #[trigger] peripherals@[j] == old(peripherals)@[j] by {
                assert(peripherals@[j] == before[j]);
            }
            assert forall|j: int| 0 <= j < i + 1 implies #[trigger] device_updated(old(peripherals)@[j], peripherals@[j], *io_bus, buses[j], buses[j + 1]) by {
                if j < i {
                    assert(peripherals@[j] == before[j]);
                    assert(buses[j] == buses0[j] && buses[j + 1] == buses0[j + 1]);
                }
            }
            i += 1;
        }
        assert(devices_updated(old(peripherals)@, peripherals@, *io_bus, old(main_bus)@, main_bus@));
    }

    /// Connects `p` to the I/O bus and the main bus, after the devices there
    /// are.
    pub fn connect_peripheral(&mut self, p: Device)
        requires
            old(self).wf(),
        ensures
            kept(&*old(self), &*final(self)),
            final(self).devices().len() == old(self).devices().len() + 1,
            final(self).devices().drop_last() == old(self).devices(),
            final(self).devices().last().connected(),
            (final(self).devices().last() is Display) == (p is Display),
            forall|r: int| #[trigger] final(self).register_lines(r) == old(self).register_lines(r),
            final(self).iar_lines() == old(self).iar_lines(),
            final(self).ir_lines() == old(self).ir_lines(),
            final(self).main_lines() == old(self).main_lines(),
            final(self).ram() == old(self).ram(),
            p is Display && old(self).idle() ==> final(self).idle(),
            p is Display && old(self).fetch_ready() ==> final(self).fetch_ready(),
    {
        let mut p = p;
        p.connect();
        self.peripherals.push(p);
        proof {
            if p is Display && old(self).idle() {
                assert forall|i: int| 0 <= i < self.peripherals@.len() implies #[trigger] self.peripherals@[i] is Display by {
                    if i < old(self).peripherals@.len() {
                        assert(self.peripherals@[i] == old(self).peripherals@[i]);
                    }
                }
                lemma_idle_kept(&*old(self), &*self);
            }
        }
    }

    /// Redraws `screen` from the display memory of the first display adapter
    /// connected; does nothing when there is none.
    pub fn refresh_screen(&mut self, screen: &mut ScreenControl)
        requires
            old(self).wf(),
            old(screen).output@.len() == crate::io::display::SCREEN_HEIGHT * crate::io::display::SCREEN_WIDTH,
        ensures
            kept(&*old(self), &*final(self)),
            final(screen).output@.len() == old(screen).output@.len(),
            forall|r: int| 0 <= r < 4 ==> #[trigger] final(self).register_lines(r) == old(self).register_lines(r),
            final(self).iar_lines() == old(self).iar_lines(),
            final(self).ir_lines() == old(self).ir_lines(),
            final(self).main_lines() == old(self).main_lines(),
            final(self).ram() == old(self).ram(),
            screen_refreshed(*old(self), *final(self), *old(screen), *final(screen)),
    {
        let n = self.peripherals.len();
        let mut i: usize = 0;
        while i < n
            invariant
                i <= n,
                n == self.peripherals@.len(),
                self.peripherals@ == old(self).peripherals@,
                *screen == *old(screen),
                forall|j: int| 0 <= j < i ==> !(#[trigger] old(self).peripherals@[j] is Display),
                self.wf(),
                self.stepper_state() == old(self).stepper_state(),
                self.clock() == old(self).clock(),
                self.gp_reg0 == old(self).gp_reg0,
                self.gp_reg1 == old(self).gp_reg1,
                self.gp_reg2 == old(self).gp_reg2,
                self.gp_reg3 == old(self).gp_reg3,
                self.iar_lines() == old(self).iar_lines(),
                self.ir_lines() == old(self).ir_lines(),
                self.main_lines() == old(self).main_lines(),
                self.ram() == old(self).ram(),
                screen.output@.len() == old(screen).output@.len(),
                old(screen).output@.len() == crate::io::display::SCREEN_HEIGHT * crate::io::display::SCREEN_WIDTH,
            decreases n - i,
        {
            assert(self.peripherals@[i as int].connected());
            let ghost before = self.peripherals@;
            let ghost screen0 = *screen;
            let mut d = self.peripherals.remove(i);
            let ghost d0 = d;
            let found = match &mut d {
                Device::Display(adapter) => {
                    screen.update(adapter, &self.main_bus);
                    true
                },
                Device::Keyboard(_) => false,
            };
            self.peripherals.insert(i, d);
            proof {
                if found {
                    assert forall|j: int| 0 <= j < n && j != i implies #[trigger] self.peripherals@[j] == before[j] by {}
                    assert(d0 is Display && d is Display);
                    assert(screen_drawn(screen0, *screen, d0->Display_0, d->Display_0, old(self).main_lines()));
                } else {
                    assert(self.peripherals@ =~= before);
                }
            }
            if found {
                return;
            }
            i += 1;
        }
    }

    fn clear_main_bus(&mut self)
        requires
            old(self).wf(),
        ensures
            kept(&*old(self), &*final(self)),
            final(self).main_lines() == word_bits(0),
            *final(self) == (CPU { main_bus: final(self).main_bus, ..*old(self) }),
    {
        self.main_bus.set_value(0);
    }

    fn update_instruction_decoder3x8(&mut self)
        requires
            old(self).wf(),
        ensures
            *final(self) == (CPU { instr_decoder3x8: final(self).instr_decoder3x8, ..*old(self) }),
            forall|k: int| 0 <= k < 8 ==> #[trigger] final(self).sel(k) == (k == old(self).alu_op() && !old(self).ir_bit(8)),
    {
        let b8 = self.ir.bit(8);
        self.instr_decoder3x8.bit0_not_gate.update(b8);
        let b9 = self.ir.bit(9);
        let b10 = self.ir.bit(10);
        let b11 = self.ir.bit(11);
        self.instr_decoder3x8.decoder.update(b9, b10, b11);
        let mut i: usize = 0;
        while i < 8
            invariant
                i <= 8,
                *self == (CPU { instr_decoder3x8: self.instr_decoder3x8, ..*old(self) }),
                self.instr_decoder3x8.bit0_not_gate@ == !old(self).ir_bit(8),
                self.instr_decoder3x8.decoder.output_lines() == one_hot(8, old(self).alu_op()),
                forall|k: int| 0 <= k < i ==> #[trigger] self.sel(k) == (k == old(self).alu_op() && !old(self).ir_bit(8)),
            decreases 8 - i,
        {
            let line = self.instr_decoder3x8.decoder.get_output_wire(i as i32);
            let not0 = self.instr_decoder3x8.bit0_not_gate.get();
            let ghost prev = *self;
            self.instr_decoder3x8.selector_gates[i].update(line, not0);
            assert forall|k: int| 0 <= k <= i implies #[trigger] self.sel(k) == (k == old(self).alu_op() && !old(self).ir_bit(8)) by {
                if k < i {
                    assert(prev.sel(k) == self.sel(k));
                }
            }
            i += 1;
        }
    }

    fn update_io_bus(&mut self)
        requires
            old(self).wf(),
        ensures
            *final(self) == (CPU { io_bus: final(self).io_bus, ..*old(self) }),
            final(self).io_bus.line(0) == old(self).io_bus.line(0),
            final(self).io_bus.line(1) == old(self).io_bus.line(1),
            final(self).io_bus.line(2) == old(self).ir_bit(12),
            final(self).io_bus.line(3) == old(self).ir_bit(13),
    {
        let b12 = self.ir.bit(12);
        let b13 = self.ir.bit(13);
        self.io_bus.update(b12, b13)
    }

    /// Gives the ALU its operation (from bits 1 to 3 of an ALU instruction,
    /// during step 5) and its carry in, and runs it.
    fn update_alu(&mut self)
        requires
            old(self).wf(),
        ensures
            *final(self) == (CPU {
                alu: final(self).alu,
                alu_op_and_gates: final(self).alu_op_and_gates,
                acc_bus: final(self).acc_bus,
                alu_to_flags_bus: final(self).alu_to_flags_bus,
                ..*old(self)
            }),
            final(self).wf(),
            final(self).alu.carry_in@ == old(self).carry_and_gate@,
            !old(self).step_on(4) ==> final(self).alu.op_index() == 0,
            old(self).step_on(4) && old(self).ir_bit(8) ==> final(self).alu.op_index() == old(self).alu_op(),
            word_value(final(self).acc_bus@) == alu_output(
                final(self).alu.op_index(),
                word_value(old(self).main_bus@),
                word_value(old(self).busone_output@),
                old(self).carry_and_gate@,
            ),
    {
        let s4 = self.stepper.get_output_wire(4);
        let b8 = self.ir.bit(8);
        let b9 = self.ir.bit(9);
        let b10 = self.ir.bit(10);
        let b11 = self.ir.bit(11);
        self.alu_op_and_gates[2].update(b9, b8, s4);
        self.alu_op_and_gates[1].update(b10, b8, s4);
        self.alu_op_and_gates[0].update(b11, b8, s4);
        let op2 = self.alu_op_and_gates[2].get();
        self.alu.op[2].update(op2);
        let op1 = self.alu_op_and_gates[1].get();
        self.alu.op[1].update(op1);
        let op0 = self.alu_op_and_gates[0].get();
        self.alu.op[0].update(op0);
        let carry = self.carry_and_gate.get();
        self.alu.carry_in.update(carry);
        self.alu.update(
            &self.main_bus,
            &self.busone_output,
            &mut self.acc_bus,
            &mut self.alu_to_flags_bus,
        );
    }
}

impl CPU {
    /// Works out which parts drive the main bus; `state` is the clock's
    /// enable phase.
    fn run_enable(&mut self, state: bool)
        requires
            old(self).wf(),
        ensures
            kept(&*old(self), &*final(self)),
            step_gates_same(&*old(self), &*final(self)),
            latched_gates_same(&*old(self), &*final(self)),
            data_same_but(&*old(self), &*final(self), set![0, 1, 2, 3, 5, 6, 10, 13, 21]),
            old(self).io_bus.enable_kept(final(self).io_bus),
            old(self).iar.enable_kept(final(self).iar),
            old(self).busone.enable_kept(final(self).busone),
            old(self).acc.enable_kept(final(self).acc),
            old(self).memory.enable_kept(final(self).memory),
            old(self).gp_reg0.enable_kept(final(self).gp_reg0),
            old(self).gp_reg1.enable_kept(final(self).gp_reg1),
            old(self).gp_reg2.enable_kept(final(self).gp_reg2),
            old(self).gp_reg3.enable_kept(final(self).gp_reg3),
            final(self).io_bus.is_enabled() == (state && old(self).step5_gate3_and@),
            final(self).iar.enable_on() == (state && (old(self).step_on(0) || old(self).step4_gates[3]@
                || old(self).step4_gates[5]@ || old(self).step4_gates[6]@)),
            final(self).busone.bus1_on() == (old(self).step_on(0) || old(self).step4_gates[7]@
                || old(self).step4_gates[6]@ || old(self).step4_gates[3]@),
            final(self).acc.enable_on() == (state && (old(self).step_on(2) || old(self).step5_gates[5]@
                || old(self).step6_gates2_and@ || old(self).step6_gates[0]@)),
            final(self).memory.enable_on() == (state && (old(self).step_on(1) || old(self).step6_gates[1]@
                || old(self).step5_gates[4]@ || old(self).step5_gates[3]@ || old(self).step5_gates[1]@)),
            final(self).register_b_enable@ == (old(self).step4_gates[0]@ || old(self).step5_gates[2]@
                || old(self).step4_gates[4]@ || old(self).step4_gate3_and@),
            final(self).register_a_enable@ == (old(self).step4_gates[1]@ || old(self).step4_gates[2]@
                || old(self).step5_gates[0]@),
            final(self).gp_reg0.enable_on() == (state && ((final(self).register_b_enable@ && one_hot(4, index2(old(self).ir_bit(14), old(self).ir_bit(15)))[0])
                || (final(self).register_a_enable@ && one_hot(4, index2(old(self).ir_bit(12), old(self).ir_bit(13)))[0]))),
            final(self).gp_reg1.enable_on() == (state && ((final(self).register_b_enable@ && one_hot(4, index2(old(self).ir_bit(14), old(self).ir_bit(15)))[1])
                || (final(self).register_a_enable@ && one_hot(4, index2(old(self).ir_bit(12), old(self).ir_bit(13)))[1]))),
            final(self).gp_reg2.enable_on() == (state && ((final(self).register_b_enable@ && one_hot(4, index2(old(self).ir_bit(14), old(self).ir_bit(15)))[2])
                || (final(self).register_a_enable@ && one_hot(4, index2(old(self).ir_bit(12), old(self).ir_bit(13)))[2]))),
            final(self).gp_reg3.enable_on() == (state && ((final(self).register_b_enable@ && one_hot(4, index2(old(self).ir_bit(14), old(self).ir_bit(15)))[3])
                || (final(self).register_a_enable@ && one_hot(4, index2(old(self).ir_bit(12), old(self).ir_bit(13)))[3]))),
    {
        self.run_enable_on_io(state);
        self.run_enable_on_iar(state);
        self.run_enable_on_bus_one(state);
        self.run_enable_on_acc(state);
        self.run_enable_on_ram(state);
        self.run_enable_on_register_b();
        self.run_enable_on_register_a();
        self.run_enable_general_purpose_registers(state);
    }

    fn run_enable_on_io(&mut self, state: bool)
        requires
            old(self).wf(),
        ensures
            kept(&*old(self), &*final(self)),
            step_gates_same(&*old(self), &*final(self)),
            latched_gates_same(&*old(self), &*final(self)),
            data_same_but(&*old(self), &*final(self), set![21]),
            final(self).register_a_enable == old(self).register_a_enable,
            final(self).register_b_enable == old(self).register_b_enable,
            old(self).io_bus.enable_kept(final(self).io_bus),
            final(self).io_bus.is_enabled() == (state && old(self).step5_gate3_and@),
    {
        let g = self.step5_gate3_and.get();
        let e = self.io_bus_enable_gate.update(state, g);
        Self::update_enable_status(&mut self.io_bus, e);
    }

    fn run_enable_on_iar(&mut self, state: bool)
        requires
            old(self).wf(),
        ensures
            kept(&*old(self), &*final(self)),
            step_gates_same(&*old(self), &*final(self)),
            latched_gates_same(&*old(self), &*final(self)),
            data_same_but(&*old(self), &*final(self), set![6]),
            final(self).register_a_enable == old(self).register_a_enable,
            final(self).register_b_enable == old(self).register_b_enable,
            old(self).iar.enable_kept(final(self).iar),
            final(self).iar.enable_on() == (state && (old(self).step_on(0) || old(self).step4_gates[3]@
                || old(self).step4_gates[5]@ || old(self).step4_gates[6]@)),
    {
        let s0 = self.stepper.get_output_wire(0);
        let g3 = self.step4_gates[3].get();
        let g5 = self.step4_gates[5].get();
        let g6 = self.step4_gates[6].get();
        self.iar_enable_or_gate.update(s0, g3, g5, g6);
        let any = self.iar_enable_or_gate.get();
        let e = self.iar_enable_and_gate.update(state, any);
        Self::update_enable_status(&mut self.iar, e);
    }

    fn run_enable_on_bus_one(&mut self, state: bool)
        requires
            old(self).wf(),
        ensures
            kept(&*old(self), &*final(self)),
            step_gates_same(&*old(self), &*final(self)),
            latched_gates_same(&*old(self), &*final(self)),
            data_same_but(&*old(self), &*final(self), set![13]),
            final(self).register_a_enable == old(self).register_a_enable,
            final(self).register_b_enable == old(self).register_b_enable,
            old(self).busone.enable_kept(final(self).busone),
            final(self).busone.bus1_on() == (old(self).step_on(0) || old(self).step4_gates[7]@
                || old(self).step4_gates[6]@ || old(self).step4_gates[3]@),
    {
        let s0 = self.stepper.get_output_wire(0);
        let g7 = self.step4_gates[7].get();
        let g6 = self.step4_gates[6].get();
        let g3 = self.step4_gates[3].get();
        self.bus_one_enable_or_gate.update(s0, g7, g6, g3);
        let e = self.bus_one_enable_or_gate.get();
        Self::update_enable_status(&mut self.busone, e);
    }

    fn run_enable_on_acc(&mut self, state: bool)
        requires
            old(self).wf(),
        ensures
            kept(&*old(self), &*final(self)),
            step_gates_same(&*old(self), &*final(self)),
            latched_gates_same(&*old(self), &*final(self)),
            data_same_but(&*old(self), &*final(self), set![5]),
            final(self).register_a_enable == old(self).register_a_enable,
            final(self).register_b_enable == old(self).register_b_enable,
            old(self).acc.enable_kept(final(self).acc),
            final(self).acc.enable_on() == (state && (old(self).step_on(2) || old(self).step5_gates[5]@
                || old(self).step6_gates2_and@ || old(self).step6_gates[0]@)),
    {
        let s2 = self.stepper.get_output_wire(2);
        let g5 = self.step5_gates[5].get();
        let g6 = self.step6_gates2_and.get();
        let g60 = self.step6_gates[0].get();
        self.acc_enable_or_gate.update(s2, g5, g6, g60);
        let any = self.acc_enable_or_gate.get();
        let e = self.acc_enable_and_gate.update(state, any);
        Self::update_enable_status(&mut self.acc, e);
    }

    fn run_enable_on_ram(&mut self, state: bool)
        requires
            old(self).wf(),
        ensures
            kept(&*old(self), &*final(self)),
            step_gates_same(&*old(self), &*final(self)),
            latched_gates_same(&*old(self), &*final(self)),
            data_same_but(&*old(self), &*final(self), set![10]),
            final(self).register_a_enable == old(self).register_a_enable,
            final(self).register_b_enable == old(self).register_b_enable,
            old(self).memory.enable_kept(final(self).memory),
            final(self).memory.enable_on() == (state && (old(self).step_on(1) || old(self).step6_gates[1]@
                || old(self).step5_gates[4]@ || old(self).step5_gates[3]@ || old(self).step5_gates[1]@)),
    {
        let s1 = self.stepper.get_output_wire(1);
        let g61 = self.step6_gates[1].get();
        let g54 = self.step5_gates[4].get();
        let g53 = self.step5_gates[3].get();
        let g51 = self.step5_gates[1].get();
        self.ram_enable_or_gate.update(s1, g61, g54, g53, g51);
        let any = self.ram_enable_or_gate.get();
        let e = self.ram_enable_and_gate.update(state, any);
        Self::update_enable_status(&mut self.memory, e);
    }

    fn run_enable_on_register_b(&mut self)
        requires
            old(self).wf(),
        ensures
            kept(&*old(self), &*final(self)),
            step_gates_same(&*old(self), &*final(self)),
            latched_gates_same(&*old(self), &*final(self)),
            data_same_but(&*old(self), &*final(self), set![]),
            final(self).register_a_enable == old(self).register_a_enable,
            final(self).register_b_enable@ == (old(self).step4_gates[0]@ || old(self).step5_gates[2]@
                || old(self).step4_gates[4]@ || old(self).step4_gate3_and@),
    {
        let g40 = self.step4_gates[0].get();
        let g52 = self.step5_gates[2].get();
        let g44 = self.step4_gates[4].get();
        let g43 = self.step4_gate3_and.get();
        self.register_b_enable_or_gate.update(g40, g52, g44, g43);
        let e = self.register_b_enable_or_gate.get();
        self.register_b_enable.update(e);
    }

    fn run_enable_on_register_a(&mut self)
        requires
            old(self).wf(),
        ensures
            kept(&*old(self), &*final(self)),
            step_gates_same(&*old(self), &*final(self)),
            latched_gates_same(&*old(self), &*final(self)),
            data_same_but(&*old(self), &*final(self), set![]),
            final(self).register_b_enable == old(self).register_b_enable,
            final(self).register_a_enable@ == (old(self).step4_gates[1]@ || old(self).step4_gates[2]@
                || old(self).step5_gates[0]@),
    {
        let g41 = self.step4_gates[1].get();
        let g42 = self.step4_gates[2].get();
        let g50 = self.step5_gates[0].get();
        self.register_a_enable_or_gate.update(g41, g42, g50);
        let e = self.register_a_enable_or_gate.get();
        self.register_a_enable.update(e);
    }

    /// Register B of an instruction is named by bits 6 and 7, register A by
    /// bits 4 and 5; the one that the step calls for drives the bus.
    fn run_enable_general_purpose_registers(&mut self, state: bool)
        requires
            old(self).wf(),
        ensures
            kept(&*old(self), &*final(self)),
            step_gates_same(&*old(self), &*final(self)),
            latched_gates_same(&*old(self), &*final(self)),
            data_same_but(&*old(self), &*final(self), set![0, 1, 2, 3]),
            final(self).register_a_enable == old(self).register_a_enable,
            final(self).register_b_enable == old(self).register_b_enable,
            old(self).gp_reg0.enable_kept(final(self).gp_reg0),
            final(self).gp_reg0.enable_on() == (state && ((old(self).register_b_enable@ && one_hot(4, index2(old(self).ir_bit(14), old(self).ir_bit(15)))[0])
                || (old(self).register_a_enable@ && one_hot(4, index2(old(self).ir_bit(12), old(self).ir_bit(13)))[0]))),
            old(self).gp_reg1.enable_kept(final(self).gp_reg1),
            final(self).gp_reg1.enable_on() == (state && ((old(self).register_b_enable@ && one_hot(4, index2(old(self).ir_bit(14), old(self).ir_bit(15)))[1])
                || (old(self).register_a_enable@ && one_hot(4, index2(old(self).ir_bit(12), old(self).ir_bit(13)))[1]))),
            old(self).gp_reg2.enable_kept(final(self).gp_reg2),
            final(self).gp_reg2.enable_on() == (state && ((old(self).register_b_enable@ && one_hot(4, index2(old(self).ir_bit(14), old(self).ir_bit(15)))[2])
                || (old(self).register_a_enable@ && one_hot(4, index2(old(self).ir_bit(12), old(self).ir_bit(13)))[2]))),
            old(self).gp_reg3.enable_kept(final(self).gp_reg3),
            final(self).gp_reg3.enable_on() == (state && ((old(self).register_b_enable@ && one_hot(4, index2(old(self).ir_bit(14), old(self).ir_bit(15)))[3])
                || (old(self).register_a_enable@ && one_hot(4, index2(old(self).ir_bit(12), old(self).ir_bit(13)))[3]))),
    {
        let b14 = self.ir.bit(14);
        let b15 = self.ir.bit(15);
        self.instruction_decoder_enables2x4[0].update(b14, b15);
        let b12 = self.ir.bit(12);
        let b13 = self.ir.bit(13);
        self.instruction_decoder_enables2x4[1].update(b12, b13);
        let rb = self.register_b_enable.get();
        let ra = self.register_a_enable.get();

        let d = self.instruction_decoder_enables2x4[0].get_output_wire(0);
        self.gp_reg_enable_and_gates[0].update(state, rb, d);
        let d = self.instruction_decoder_enables2x4[1].get_output_wire(0);
        self.gp_reg_enable_and_gates[4].update(state, ra, d);
        let x = self.gp_reg_enable_and_gates[4].get();
        let y = self.gp_reg_enable_and_gates[0].get();
        let e = self.gp_reg_enable_or_gates[0].update(x, y);
        Self::update_enable_status(&mut self.gp_reg0, e);

        let d = self.instruction_decoder_enables2x4[0].get_output_wire(1);
        self.gp_reg_enable_and_gates[1].update(state, rb, d);
        let d = self.instruction_decoder_enables2x4[1].get_output_wire(1);
        self.gp_reg_enable_and_gates[5].update(state, ra, d);
        let x = self.gp_reg_enable_and_gates[5].get();
        let y = self.gp_reg_enable_and_gates[1].get();
        let e = self.gp_reg_enable_or_gates[1].update(x, y);
        Self::update_enable_status(&mut self.gp_reg1, e);

        let d = self.instruction_decoder_enables2x4[0].get_output_wire(2);
        self.gp_reg_enable_and_gates[2].update(state, rb, d);
        let d = self.instruction_decoder_enables2x4[1].get_output_wire(2);
        self.gp_reg_enable_and_gates[6].update(state, ra, d);
        let x = self.gp_reg_enable_and_gates[6].get();
        let y = self.gp_reg_enable_and_gates[2].get();
        let e = self.gp_reg_enable_or_gates[2].update(x, y);
        Self::update_enable_status(&mut self.gp_reg2, e);

        let d = self.instruction_decoder_enables2x4[0].get_output_wire(3);
        self.gp_reg_enable_and_gates[3].update(state, rb, d);
        let d = self.instruction_decoder_enables2x4[1].get_output_wire(3);
        self.gp_reg_enable_and_gates[7].update(state, ra, d);
        let x = self.gp_reg_enable_and_gates[7].get();
        let y = self.gp_reg_enable_and_gates[3].get();
        let e = self.gp_reg_enable_or_gates[3].update(x, y);
        Self::update_enable_status(&mut self.gp_reg3, e);
    }
}

impl CPU {
    /// Works out which parts take in their input bus; `state` is the clock's
    /// set phase.
    fn run_set(&mut self, state: bool)
        requires
            old(self).wf(),
        ensures
            kept(&*old(self), &*final(self)),
            step_gates_same(&*old(self), &*final(self)),
            data_same_but(&*old(self), &*final(self), set![0, 1, 2, 3, 4, 5, 6, 7, 8, 10, 21]),
            old(self).io_bus.set_kept(final(self).io_bus),
            old(self).iar.set_kept(final(self).iar),
            old(self).ir.set_kept(final(self).ir),
            old(self).acc.set_kept(final(self).acc),
            old(self).tmp.set_kept(final(self).tmp),
            old(self).flags.set_kept(final(self).flags),
            old(self).gp_reg0.set_kept(final(self).gp_reg0),
            old(self).gp_reg1.set_kept(final(self).gp_reg1),
            old(self).gp_reg2.set_kept(final(self).gp_reg2),
            old(self).gp_reg3.set_kept(final(self).gp_reg3),
            old(self).memory.mar().set_kept(final(self).memory.mar()),
            final(self).memory.cells() == old(self).memory.cells(),
            final(self).memory.enable_on() == old(self).memory.enable_on(),
            final(self).memory.mar().enable_on() == old(self).memory.mar().enable_on(),
            final(self).io_bus.line(0) == (state && old(self).step4_gate3_and@),
            final(self).memory.mar().set_on() == (state && (old(self).step_on(0) || old(self).step4_gates[3]@
                || old(self).step4_gates[6]@ || old(self).step4_gates[1]@ || old(self).step4_gates[2]@
                || old(self).step4_gates[5]@)),
            final(self).iar.set_on() == (state && (old(self).step_on(2) || old(self).step4_gates[4]@
                || old(self).step5_gates[4]@ || old(self).step5_gates[5]@ || old(self).step6_gates2_and@
                || old(self).step6_gates[1]@)),
            final(self).ir.set_on() == (state && old(self).step_on(1)),
            final(self).acc.set_on() == (state && (old(self).step_on(0) || old(self).step4_gates[3]@
                || old(self).step4_gates[6]@ || old(self).step5_gates[0]@)),
            final(self).memory.set_on() == (state && old(self).step5_gates[2]@),
            final(self).tmp.set_on() == (state && old(self).step4_gates[0]@),
            final(self).carry_and_gate@ == (final(self).carry_temp.wire_o@ && old(self).step5_gates[0]@),
            final(self).carry_temp.wire_o@ == (if state && old(self).step4_gates[0]@ {
                old(self).flags_bus@[0]
            } else {
                old(self).carry_temp.stored()
            }),
            final(self).carry_temp.stored() == final(self).carry_temp.wire_o@,
            final(self).flags.set_on() == (state && (old(self).step5_gates[0]@ || old(self).step4_gates[7]@)),
            final(self).register_b_set@ == (old(self).step5_gates[1]@ || old(self).step6_gates[0]@
                || old(self).step5_gates[3]@ || old(self).step5_gate3_and@),
            final(self).ir_instruction_not_gate@ == !(old(self).ir_bit(11) && old(self).ir_bit(10) && old(self).ir_bit(9)),
            final(self).flag_state_or_gate@ == jump_taken(&*old(self)),
            final(self).gp_reg0.set_on() == (state && final(self).register_b_set@ && one_hot(4, index2(old(self).ir_bit(14), old(self).ir_bit(15)))[0]),
            final(self).gp_reg1.set_on() == (state && final(self).register_b_set@ && one_hot(4, index2(old(self).ir_bit(14), old(self).ir_bit(15)))[1]),
            final(self).gp_reg2.set_on() == (state && final(self).register_b_set@ && one_hot(4, index2(old(self).ir_bit(14), old(self).ir_bit(15)))[2]),
            final(self).gp_reg3.set_on() == (state && final(self).register_b_set@ && one_hot(4, index2(old(self).ir_bit(14), old(self).ir_bit(15)))[3]),
    {
        let b11 = self.ir.bit(11);
        let b10 = self.ir.bit(10);
        let b9 = self.ir.bit(9);
        self.ir_instruction_and_gate.update(b11, b10, b9);
        let g = self.ir_instruction_and_gate.get();
        self.ir_instruction_not_gate.update(g);
        self.refresh_flag_state_gates();
        self.run_set_on_io(state);
        self.run_set_on_mar(state);
        self.run_set_on_iar(state);
        self.run_set_on_ir(state);
        self.run_set_on_acc(state);
        self.run_set_on_ram(state);
        self.run_set_on_tmp(state);
        self.run_set_on_flags(state);
        self.run_set_on_register_b();
        self.run_set_general_purpose_registers(state);
    }

    /// A conditional jump is taken when one of the flags it names (bits 4 to
    /// 7: carry, a larger, equal, zero) is on.
    fn refresh_flag_state_gates(&mut self)
        requires
            old(self).wf(),
        ensures
            kept(&*old(self), &*final(self)),
            step_gates_same(&*old(self), &*final(self)),
            data_same_but(&*old(self), &*final(self), set![]),
            final(self).register_b_set == old(self).register_b_set,
            final(self).ir_instruction_not_gate == old(self).ir_instruction_not_gate,
            final(self).carry_temp == old(self).carry_temp,
            final(self).carry_and_gate == old(self).carry_and_gate,
            final(self).flag_state_or_gate@ == ((old(self).ir_bit(12) && old(self).flags_bus@[0])
                || (old(self).ir_bit(13) && old(self).flags_bus@[1]) || (old(self).ir_bit(14)
                && old(self).flags_bus@[2]) || (old(self).ir_bit(15) && old(self).flags_bus@[3])),
    {
        let b12 = self.ir.bit(12);
        let f0 = self.flags_bus.get_output_wire(0);
        self.flag_state_gates[0].update(b12, f0);
        let b13 = self.ir.bit(13);
        let f1 = self.flags_bus.get_output_wire(1);
        self.flag_state_gates[1].update(b13, f1);
        let b14 = self.ir.bit(14);
        let f2 = self.flags_bus.get_output_wire(2);
        self.flag_state_gates[2].update(b14, f2);
        let b15 = self.ir.bit(15);
        let f3 = self.flags_bus.get_output_wire(3);
        self.flag_state_gates[3].update(b15, f3);
        let c = self.flag_state_gates[0].get();
        let a = self.flag_state_gates[1].get();
        let e = self.flag_state_gates[2].get();
        let z = self.flag_state_gates[3].get();
        self.flag_state_or_gate.update(c, a, e, z);
    }

    fn run_set_on_io(&mut self, state: bool)
        requires
            old(self).wf(),
        ensures
            kept(&*old(self), &*final(self)),
            step_gates_same(&*old(self), &*final(self)),
            latched_gates_same(&*old(self), &*final(self)),
            data_same_but(&*old(self), &*final(self), set![21]),
            final(self).register_b_set == old(self).register_b_set,
            old(self).io_bus.set_kept(final(self).io_bus),
            final(self).io_bus.line(0) == (state && old(self).step4_gate3_and@),
    {
        let g = self.step4_gate3_and.get();
        let e = self.io_bus_set_gate.update(state, g);
        Self::update_set_status(&mut self.io_bus, e);
    }

    fn run_set_on_mar(&mut self, state: bool)
        requires
            old(self).wf(),
        ensures
            kept(&*old(self), &*final(self)),
            step_gates_same(&*old(self), &*final(self)),
            latched_gates_same(&*old(self), &*final(self)),
            data_same_but(&*old(self), &*final(self), set![10]),
            final(self).register_b_set == old(self).register_b_set,
            old(self).memory.mar().set_kept(final(self).memory.mar()),
            final(self).memory.cells() == old(self).memory.cells(),
            final(self).memory.set_on() == old(self).memory.set_on(),
            final(self).memory.enable_on() == old(self).memory.enable_on(),
            final(self).memory.mar().enable_on() == old(self).memory.mar().enable_on(),
            final(self).memory.mar().set_on() == (state && (old(self).step_on(0) || old(self).step4_gates[3]@
                || old(self).step4_gates[6]@ || old(self).step4_gates[1]@ || old(self).step4_gates[2]@
                || old(self).step4_gates[5]@)),
    {
        let s0 = self.stepper.get_output_wire(0);
        let g3 = self.step4_gates[3].get();
        let g6 = self.step4_gates[6].get();
        let g1 = self.step4_gates[1].get();
        let g2 = self.step4_gates[2].get();
        let g5 = self.step4_gates[5].get();
        self.mar_set_or_gate.update(s0, g3, g6, g1, g2, g5);
        let any = self.mar_set_or_gate.get();
        let e = self.mar_set_and_gate.update(state, any);
        self.memory.set_address_register(e);
    }

    fn run_set_on_iar(&mut self, state: bool)
        requires
            old(self).wf(),
        ensures
            kept(&*old(self), &*final(self)),
            step_gates_same(&*old(self), &*final(self)),
            latched_gates_same(&*old(self), &*final(self)),
            data_same_but(&*old(self), &*final(self), set![6]),
            final(self).register_b_set == old(self).register_b_set,
            old(self).iar.set_kept(final(self).iar),
            final(self).iar.set_on() == (state && (old(self).step_on(2) || old(self).step4_gates[4]@
                || old(self).step5_gates[4]@ || old(self).step5_gates[5]@ || old(self).step6_gates2_and@
                || old(self).step6_gates[1]@)),
    {
        let s2 = self.stepper.get_output_wire(2);
        let g44 = self.step4_gates[4].get();
        let g54 = self.step5_gates[4].get();
        let g55 = self.step5_gates[5].get();
        let g62 = self.step6_gates2_and.get();
        let g61 = self.step6_gates[1].get();
        self.iar_set_or_gate.update(s2, g44, g54, g55, g62, g61);
        let any = self.iar_set_or_gate.get();
        let e = self.iar_set_and_gate.update(state, any);
        Self::update_set_status(&mut self.iar, e);
    }

    fn run_set_on_ir(&mut self, state: bool)
        requires
            old(self).wf(),
        ensures
            kept(&*old(self), &*final(self)),
            step_gates_same(&*old(self), &*final(self)),
            latched_gates_same(&*old(self), &*final(self)),
            data_same_but(&*old(self), &*final(self), set![7]),
            final(self).register_b_set == old(self).register_b_set,
            old(self).ir.set_kept(final(self).ir),
            final(self).ir.set_on() == (state && old(self).step_on(1)),
    {
        let s1 = self.stepper.get_output_wire(1);
        let e = self.ir_set_and_gate.update(state, s1);
        Self::update_set_status(&mut self.ir, e);
    }

    fn run_set_on_acc(&mut self, state: bool)
        requires
            old(self).wf(),
        ensures
            kept(&*old(self), &*final(self)),
            step_gates_same(&*old(self), &*final(self)),
            latched_gates_same(&*old(self), &*final(self)),
            data_same_but(&*old(self), &*final(self), set![5]),
            final(self).register_b_set == old(self).register_b_set,
            old(self).acc.set_kept(final(self).acc),
            final(self).acc.set_on() == (state && (old(self).step_on(0) || old(self).step4_gates[3]@
                || old(self).step4_gates[6]@ || old(self).step5_gates[0]@)),
    {
        let s0 = self.stepper.get_output_wire(0);
        let g3 = self.step4_gates[3].get();
        let g6 = self.step4_gates[6].get();
        let g50 = self.step5_gates[0].get();
        self.acc_set_or_gate.update(s0, g3, g6, g50);
        let any = self.acc_set_or_gate.get();
        let e = self.acc_set_and_gate.update(state, any);
        Self::update_set_status(&mut self.acc, e);
    }

    fn run_set_on_ram(&mut self, state: bool)
        requires
            old(self).wf(),
        ensures
            kept(&*old(self), &*final(self)),
            step_gates_same(&*old(self), &*final(self)),
            latched_gates_same(&*old(self), &*final(self)),
            data_same_but(&*old(self), &*final(self), set![10]),
            final(self).register_b_set == old(self).register_b_set,
            old(self).memory.set_kept(final(self).memory),
            final(self).memory.set_on() == (state && old(self).step5_gates[2]@),
    {
        let g52 = self.step5_gates[2].get();
        let e = self.ram_set_and_gate.update(state, g52);
        Self::update_set_status(&mut self.memory, e);
    }

    /// The temporary register takes in the bus; the carry flag is latched
    /// at the same time, to be the ALU's carry in during step 5.
    fn run_set_on_tmp(&mut self, state: bool)
        requires
            old(self).wf(),
        ensures
            kept(&*old(self), &*final(self)),
            step_gates_same(&*old(self), &*final(self)),
            data_same_but(&*old(self), &*final(self), set![4]),
            final(self).register_b_set == old(self).register_b_set,
            final(self).ir_instruction_not_gate == old(self).ir_instruction_not_gate,
            final(self).flag_state_or_gate == old(self).flag_state_or_gate,
            old(self).tmp.set_kept(final(self).tmp),
            final(self).tmp.set_on() == (state && old(self).step4_gates[0]@),
            final(self).carry_and_gate@ == (final(self).carry_temp.wire_o@ && old(self).step5_gates[0]@),
            final(self).carry_temp.wire_o@ == (if state && old(self).step4_gates[0]@ {
                old(self).flags_bus@[0]
            } else {
                old(self).carry_temp.stored()
            }),
            final(self).carry_temp.stored() == final(self).carry_temp.wire_o@,
    {
        let g40 = self.step4_gates[0].get();
        let e = self.tmp_set_and_gate.update(state, g40);
        Self::update_set_status(&mut self.tmp, e);
        let carry = self.flags_bus.get_output_wire(0);
        let set = self.tmp_set_and_gate.get();
        self.carry_temp.update(carry, set);
        let c = self.carry_temp.get();
        let g50 = self.step5_gates[0].get();
        self.carry_and_gate.update(c, g50);
    }

    fn run_set_on_flags(&mut self, state: bool)
        requires
            old(self).wf(),
        ensures
            kept(&*old(self), &*final(self)),
            step_gates_same(&*old(self), &*final(self)),
            latched_gates_same(&*old(self), &*final(self)),
            data_same_but(&*old(self), &*final(self), set![8]),
            final(self).register_b_set == old(self).register_b_set,
            old(self).flags.set_kept(final(self).flags),
            final(self).flags.set_on() == (state && (old(self).step5_gates[0]@ || old(self).step4_gates[7]@)),
    {
        let g50 = self.step5_gates[0].get();
        let g47 = self.step4_gates[7].get();
        let any = self.flags_set_or_gate.update(g50, g47);
        let e = self.flags_set_and_gate.update(state, any);
        Self::update_set_status(&mut self.flags, e);
    }

    fn run_set_on_register_b(&mut self)
        requires
            old(self).wf(),
        ensures
            kept(&*old(self), &*final(self)),
            step_gates_same(&*old(self), &*final(self)),
            latched_gates_same(&*old(self), &*final(self)),
            data_same_but(&*old(self), &*final(self), set![]),
            final(self).register_b_set@ == (old(self).step5_gates[1]@ || old(self).step6_gates[0]@
                || old(self).step5_gates[3]@ || old(self).step5_gate3_and@),
    {
        let g51 = self.step5_gates[1].get();
        let g60 = self.step6_gates[0].get();
        let g53 = self.step5_gates[3].get();
        let g5a = self.step5_gate3_and.get();
        self.register_b_set_or_gate.update(g51, g60, g53, g5a);
        let e = self.register_b_set_or_gate.get();
        self.register_b_set.update(e);
    }

    /// Register B of the instruction (bits 6 and 7) takes in the bus when
    /// the step calls for it.
    fn run_set_general_purpose_registers(&mut self, state: bool)
        requires
            old(self).wf(),
        ensures
            kept(&*old(self), &*final(self)),
            step_gates_same(&*old(self), &*final(self)),
            latched_gates_same(&*old(self), &*final(self)),
            data_same_but(&*old(self), &*final(self), set![0, 1, 2, 3]),
            final(self).register_b_set == old(self).register_b_set,
            old(self).gp_reg0.set_kept(final(self).gp_reg0),
            final(self).gp_reg0.set_on() == (state && old(self).register_b_set@ && one_hot(4, index2(old(self).ir_bit(14), old(self).ir_bit(15)))[0]),
            old(self).gp_reg1.set_kept(final(self).gp_reg1),
            final(self).gp_reg1.set_on() == (state && old(self).register_b_set@ && one_hot(4, index2(old(self).ir_bit(14), old(self).ir_bit(15)))[1]),
            old(self).gp_reg2.set_kept(final(self).gp_reg2),
            final(self).gp_reg2.set_on() == (state && old(self).register_b_set@ && one_hot(4, index2(old(self).ir_bit(14), old(self).ir_bit(15)))[2]),
            old(self).gp_reg3.set_kept(final(self).gp_reg3),
            final(self).gp_reg3.set_on() == (state && old(self).register_b_set@ && one_hot(4, index2(old(self).ir_bit(14), old(self).ir_bit(15)))[3]),
    {
        let b14 = self.ir.bit(14);
        let b15 = self.ir.bit(15);
        self.instruction_decoder_set2x4.update(b14, b15);
        let rb = self.register_b_set.get();
        let d = self.instruction_decoder_set2x4.get_output_wire(0);
        self.gp_reg_set_and_gates[0].update(state, rb, d);
        let e = self.gp_reg_set_and_gates[0].get();
        Self::update_set_status(&mut self.gp_reg0, e);
        let d = self.instruction_decoder_set2x4.get_output_wire(1);
        self.gp_reg_set_and_gates[1].update(state, rb, d);
        let e = self.gp_reg_set_and_gates[1].get();
        Self::update_set_status(&mut self.gp_reg1, e);
        let d = self.instruction_decoder_set2x4.get_output_wire(2);
        self.gp_reg_set_and_gates[2].update(state, rb, d);
        let e = self.gp_reg_set_and_gates[2].get();
        Self::update_set_status(&mut self.gp_reg2, e);
        let d = self.instruction_decoder_set2x4.get_output_wire(3);
        self.gp_reg_set_and_gates[3].update(state, rb, d);
        let e = self.gp_reg_set_and_gates[3].get();
        Self::update_set_status(&mut self.gp_reg3, e);
    }
}

impl CPU {
    /// Runs one instruction: six clock cycles, one for each step.
    ///
    /// Started at an instruction boundary, it fetches the word that the
    /// instruction address register points at into the instruction
    /// register, carries it out, and ends at the next boundary:
    /// - an ALU instruction (bit 8 of the word set) puts into register B
    ///   what the ALU makes of registers A and B with its operation and the
    ///   carry flag as carry in, unless the operation is a comparison;
    /// - LD loads register B from the memory at the address in register A,
    ///   ST stores register B there;
    /// - DATA loads register B with the word after the instruction and
    ///   moves past it;
    /// - JMPR jumps to the address in register B, JMP to the address in the
    ///   word after the instruction, and JMP IF does so when one of the
    ///   flags it names is on, else it moves past that word;
    /// - otherwise the instruction address register points at the next
    ///   word.  Registers and memory that an instruction does not name keep
    ///   their words.
    #[verifier::spinoff_prover]
    #[verifier::rlimit(60)]
    pub fn do_fetch_decode_execute(&mut self)
        requires
            old(self).wf(),
        ensures
            final(self).wf(),
            final(self).clock() == old(self).clock(),
            instruction_done(*old(self), *final(self)),
    {
        let ghost start = *self;
        let ghost mut states: Seq<CPU> = seq![*self];
        let mut i: usize = 0;
        while i < 6
            invariant
                i <= 6,
                start == *old(self),
                states.len() == i + 1,
                states[0] == start,
                states[i as int] == *self,
                forall|k: int| 0 <= k < i ==> stepped(#[trigger] states[k], states[k + 1]),
                self.wf(),
                self.clock() == old(self).clock(),
            decreases 6 - i,
        {
            let ghost before = *self;
            let ghost states0 = states;
            self.step();
            proof {
                states = states.push(*self);
                assert forall|k: int| 0 <= k < i + 1 implies stepped(#[trigger] states[k], states[k + 1]) by {
                    if k < i {
                        assert(states[k] == states0[k] && states[k + 1] == states0[k + 1]);
                    }
                }
            }
            i += 1;
        }
        proof {
            law_six_steps(states);
        }
    }

    /// Writes `value` into the memory at `address`, through the main bus.
    pub fn set_cpu_memory_location(&mut self, address: u16, value: u16)
        requires
            old(self).wf(),
        ensures
            kept(&*old(self), &*final(self)),
            final(self).ram().is_enabled() == old(self).ram().is_enabled(),
            !final(self).ram().is_set(),
            final(self).devices() == old(self).devices(),
            final(self).ram().word(address_index(word_bits(address))) == word_bits(value),
            forall|j: int|
                0 <= j < 65536 && j != address_index(word_bits(address)) ==> #[trigger] final(self).ram().word(j) == old(self).ram().word(j),
            forall|r: int| #[trigger] final(self).register_lines(r) == old(self).register_lines(r),
            final(self).iar_lines() == old(self).iar_lines(),
            final(self).ir_lines() == old(self).ir_lines(),
            final(self).flag_lines() == old(self).flag_lines(),
            old(self).idle() ==> final(self).idle(),
            old(self).fetch_ready() ==> final(self).fetch_ready(),
    {
        let ghost k = address_index(word_bits(address));
        let ghost m0 = self.memory;
        self.memory.set_address_register(true);
        self.main_bus.set_value(address);
        self.memory.update(&mut self.main_bus);
        let ghost m1 = self.memory;
        assert(m1.mar().stored_lines() == word_bits(address));
        self.memory.set_address_register(false);
        self.memory.update(&mut self.main_bus);
        let ghost m2 = self.memory;
        assert(m2.mar().stored_lines() == word_bits(address));
        self.main_bus.set_value(value);
        Self::update_set_status(&mut self.memory, true);
        self.memory.update(&mut self.main_bus);
        let ghost m3 = self.memory;
        assert(m3.word(k) == word_bits(value));
        assert forall|j: int| 0 <= j < 65536 && j != k implies #[trigger] m3.word(j) == m0.word(j) by {
            assert(m1.word(j) == m0.word(j));
            assert(m2.word(j) == m1.word(j));
        }
        Self::update_set_status(&mut self.memory, false);
        self.memory.update(&mut self.main_bus);
        assert forall|j: int| 0 <= j < 65536 && j != k implies #[trigger] self.memory.word(j)
            == m0.word(j) by {
            assert(m3.word(j) == m0.word(j));
            assert(self.memory.word(j) == m3.word(j));
        }
        proof {
            if old(self).idle() {
                lemma_idle_kept(&*old(self), &*self);
            }
        }
    }

    /// Loads the first four values into the general purpose registers.
    pub fn set_registers(&mut self, values: Vec<u16>)
        requires
            old(self).wf(),
            values.len() <= 4,
        ensures
            kept(&*old(self), &*final(self)),
            forall|r: int|
                0 <= r < values.len() ==> #[trigger] final(self).register_lines(r) == word_bits(
                    values[r],
                ),
            forall|r: int|
                values.len() <= r < 4 ==> #[trigger] final(self).register_lines(r) == old(self).register_lines(r),
            forall|r: int| 0 <= r < values.len() ==> #[trigger] final(self).held_lines(r) == word_bits(values[r]),
            forall|r: int| values.len() <= r < 4 ==> #[trigger] final(self).held_lines(r) == old(self).held_lines(r),
            final(self).iar_lines() == old(self).iar_lines(),
            final(self).ir_lines() == old(self).ir_lines(),
            final(self).ram() == old(self).ram(),
            old(self).idle() ==> final(self).idle(),
            old(self).fetch_ready() ==> final(self).fetch_ready(),
    {
        let mut i: usize = 0;
        while i < values.len()
            invariant
                i <= values.len() <= 4,
                kept(&*old(self), &*self),
                forall|r: int| 0 <= r < i ==> #[trigger] self.register_lines(r) == word_bits(values[r]),
                forall|r: int|
                    i <= r < 4 ==> #[trigger] self.register_lines(r) == old(self).register_lines(r),
                forall|r: int| 0 <= r < i ==> #[trigger] self.held_lines(r) == word_bits(values[r]),
                forall|r: int| i <= r < 4 ==> #[trigger] self.held_lines(r) == old(self).held_lines(r),
                self.iar_lines() == old(self).iar_lines(),
                self.ir_lines() == old(self).ir_lines(),
                self.ram() == old(self).ram(),
                old(self).idle() ==> self.idle(),
                old(self).fetch_ready() ==> self.fetch_ready(),
            decreases values.len() - i,
        {
            self.set_cpu_register(i as u16, values[i]);
            i += 1;
        }
    }

    /// Loads `value` into general purpose register `register`, through the
    /// main bus.
    pub fn set_cpu_register(&mut self, register: u16, value: u16)
        requires
            old(self).wf(),
            register < 4,
        ensures
            kept(&*old(self), &*final(self)),
            final(self).register_lines(register as int) == word_bits(value),
            final(self).held_lines(register as int) == word_bits(value),
            forall|r: int|
                0 <= r < 4 && r != register ==> #[trigger] final(self).held_lines(r) == old(self).held_lines(r),
            forall|r: int|
                0 <= r < 4 && r != register ==> #[trigger] final(self).register_lines(r) == old(self).register_lines(r),
            final(self).iar_lines() == old(self).iar_lines(),
            final(self).ir_lines() == old(self).ir_lines(),
            final(self).ram() == old(self).ram(),
            old(self).idle() ==> final(self).idle(),
            old(self).fetch_ready() ==> final(self).fetch_ready(),
    {
        let mut reg = if register == 0 {
            self.gp_reg0
        } else if register == 1 {
            self.gp_reg1
        } else if register == 2 {
            self.gp_reg2
        } else {
            self.gp_reg3
        };
        reg.set();
        reg.update_on(&mut self.main_bus);
        self.main_bus.set_value(value);
        let ghost lines = self.main_bus@;
        reg.update_on(&mut self.main_bus);
        assert(lines.take(16) =~= lines);
        reg.unset();
        reg.update_on(&mut self.main_bus);
        if register == 0 {
            self.gp_reg0 = reg;
        } else if register == 1 {
            self.gp_reg1 = reg;
        } else if register == 2 {
            self.gp_reg2 = reg;
        } else {
            self.gp_reg3 = reg;
        }
        proof {
            if old(self).idle() {
                lemma_idle_kept(&*old(self), &*self);
            }
        }
    }

    /// The word held by general purpose register `register`.
    pub fn register_value(&self, register: u16) -> (r: u16)
        requires
            register < 4,
        ensures
            r == word_value(self.register_lines(register as int)),
    {
        proof {
            self.gp_reg0.lemma_shape();
            self.gp_reg1.lemma_shape();
            self.gp_reg2.lemma_shape();
            self.gp_reg3.lemma_shape();
        }
        let v = if register == 0 {
            self.gp_reg0.word_value()
        } else if register == 1 {
            self.gp_reg1.word_value()
        } else if register == 2 {
            self.gp_reg2.word_value()
        } else {
            self.gp_reg3.word_value()
        };
        proof {
            crate::bits::lemma_word_value_16(self.register_lines(register as int));
        }
        v
    }

    /// The word held by the instruction address register.
    pub fn iar_value(&self) -> (r: u16)
        ensures
            r == word_value(self.iar_lines()),
    {
        proof {
            self.iar.lemma_shape();
            crate::bits::lemma_word_value_16(self.iar_lines());
        }
        self.iar.word_value()
    }

    /// The word held by the instruction register.
    pub fn ir_value(&self) -> (r: u16)
        ensures
            r == word_value(self.ir_lines()),
    {
        proof {
            self.ir.lemma_shape();
            crate::bits::lemma_word_value_16(self.ir_lines());
        }
        self.ir.word_value()
    }

    /// Line `i` of the flags bus: carry, a larger, equal, zero.
    pub fn flag(&self, i: i32) -> (r: bool)
        requires
            self.wf(),
            0 <= i < 4,
        ensures
            r == self.flag_lines()[i as int],
    {
        self.flags_bus.get_output_wire(i)
    }
}

} // verus!
