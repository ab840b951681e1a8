use computer_simulator::components::bus::Bus;
use computer_simulator::components::{Component, BUS_WIDTH};
use computer_simulator::cpu::alu::{Operation, ALU};

fn op_test(
    op: Operation,
    input_a: u16,
    input_b: u16,
    carry_in: bool,

    expected_output: u16,
    expected_equal: bool,
    expected_is_larger: bool,
    expected_carry_out: bool,
    expected_zero: bool,
) {
    let mut input_a_bus = Bus::new(BUS_WIDTH);
    let mut input_b_bus = Bus::new(BUS_WIDTH);
    let mut output_bus = Bus::new(BUS_WIDTH);
    let mut flags_bus = Bus::new(BUS_WIDTH);
    let mut alu = Box::new(ALU::new());

    input_a_bus.set_value(input_a);
    input_b_bus.set_value(input_b);

    set_operation(alu.as_mut(), op as u16);

    alu.carry_in.update(carry_in);
    alu.update(&input_a_bus, &input_b_bus, &mut output_bus, &mut flags_bus);

    let output = output_bus.get_value();
    let carry_out = flags_bus.get_output_wire(0);
    let is_larger = flags_bus.get_output_wire(1);
    let equal = flags_bus.get_output_wire(2);
    let zero = flags_bus.get_output_wire(3);

    assert_eq!(expected_output, output, "output: {:#X} expected: {:#X}", output, expected_output);
    assert_eq!(
        expected_carry_out, carry_out,
        "carry_out: {} expected: {}",
        carry_out, expected_carry_out
    );
    assert_eq!(
        expected_is_larger, is_larger,
        "is_larger: {} expected: {}",
        is_larger, expected_is_larger
    );
    assert_eq!(expected_equal, equal, "equal: {} expected: {}", equal, expected_equal);
    assert_eq!(expected_zero, zero, "zero: {} expected: {}", zero, expected_zero);
}

fn set_operation(alu: &mut ALU, vlaue: u16) {
    let vlaue = vlaue & 0x07;
    for i in (0..=2).rev() {
        match vlaue & (1 << i) {
            0 => alu.op[i].update(false),
            _ => alu.op[i].update(true),
        }
    }
}

#[test]
fn test_alu_add() {
    let o = Operation::ADD;
    op_test(o, 0x0000, 0x0000, false, 0x0000, true, false, false, true);
    op_test(o, 0x0001, 0x0001, false, 0x0002, true, false, false, false);
    op_test(o, 0x00FF, 0x0000, false, 0x00FF, false, true, false, false);
    op_test(o, 0x0000, 0x00FF, false, 0x00FF, false, false, false, false);
    op_test(o, 0xFF00, 0x00FF, false, 0xFFFF, false, true, false, false);
    op_test(o, 0xFFFF, 0x0001, false, 0x0000, false, true, true, true);

    op_test(o, 0x0000, 0x0000, true, 0x0001, true, false, false, false);
    op_test(o, 0x0001, 0x0001, true, 0x0003, true, false, false, false);
    op_test(o, 0xFFFF, 0x0000, true, 0x0000, false, true, true, true);
}

#[test]
fn test_alu_shl() {
    let o = Operation::SHL;
    let mut i: u16 = 1;
    while i < 0x7FFF {
        op_test(o, i, i, false, i * 2, true, false, false, false);
        op_test(o, i, 0x00, false, i * 2, false, true, false, false);
        i *= 2;
    }

    op_test(o, 0x0000, 0x0000, false, 0x0000, true, false, false, true);
    op_test(o, 0x0059, 0x0059, false, 0x00B2, true, false, false, false);
    op_test(o, 0x0004, 0x0001, false, 0x0008, false, true, false, false);

    op_test(o, 0x0073, 0x0000, false, 0x00E6, false, true, false, false);

    op_test(o, 0xAA00, 0x0001, false, 0x5400, false, true, true, false);

    op_test(o, 0x004A, 0x0001, true, 0x0095, false, true, false, false);

    op_test(o, 0x0000, 0x0005, false, 0x0000, false, false, false, true);
}

#[test]
fn test_alu_shr() {
    let o = Operation::SHR;
    let mut i: u16 = 0x8000;
    while i > 1 {
        op_test(o, i, i, false, i / 2, true, false, false, false);
        op_test(o, i, 0x00, false, i / 2, false, true, false, false);
        i /= 2;
    }
    op_test(o, 0x0000, 0x0000, false, 0x0000, true, false, false, true);
    op_test(o, 0x0056, 0x0056, false, 0x002B, true, false, false, false);
    op_test(o, 0x0004, 0x0001, false, 0x0002, false, true, false, false);
    op_test(o, 0x0072, 0x0000, false, 0x0039, false, true, false, false);

    op_test(o, 0x00A1, 0x0000, false, 0x0050, false, true, true, false);

    op_test(o, 0x4A00, 0x0001, true, 0xA500, false, true, false, false);

    op_test(o, 0x0000, 0x0005, false, 0x0000, false, false, false, true);
}

#[test]
fn test_alu_not() {
    let o = Operation::NOT;
    op_test(o, 0x0000, 0x0000, false, 0xFFFF, true, false, false, false);
    op_test(o, 0x00FF, 0x0000, false, 0xFF00, false, true, false, false);
    op_test(o, 0xFFFF, 0x0000, false, 0x0000, false, true, false, true);
    op_test(o, 0xFFFF, 0x00FF, false, 0x0000, false, true, false, true);
    op_test(o, 0xFFFF, 0x00FF, true, 0x0000, false, true, false, true);
    op_test(o, 0xA9A9, 0x5757, true, 0x5656, false, true, false, false);
}

#[test]
fn test_alu_and() {
    let o = Operation::AND;
    op_test(o, 0x0000, 0x0000, false, 0x0000, true, false, false, true);
    op_test(o, 0x00FF, 0x0000, false, 0x0000, false, true, false, true);
    op_test(o, 0xFFFF, 0x0000, false, 0x0000, false, true, false, true);
    op_test(o, 0xFFFF, 0x00FF, false, 0x00FF, false, true, false, false);
    op_test(o, 0xFFFF, 0x00FF, true, 0x00FF, false, true, false, false);
    op_test(o, 0xA9A9, 0x5757, true, 0x0101, false, true, false, false);
}

#[test]
fn test_alu_or() {
    let o = Operation::OR;
    op_test(o, 0x0000, 0x0000, false, 0x0000, true, false, false, true);
    op_test(o, 0x00FF, 0x0000, false, 0x00FF, false, true, false, false);
    op_test(o, 0xFFFF, 0x0000, false, 0xFFFF, false, true, false, false);
    op_test(o, 0xFFFF, 0x00FF, false, 0xFFFF, false, true, false, false);
    op_test(o, 0xFFFF, 0x00FF, true, 0xFFFF, false, true, false, false);
    op_test(o, 0xA9A9, 0x5757, true, 0xFFFF, false, true, false, false);
}

#[test]
fn test_alu_xor() {
    let o = Operation::XOR;
    op_test(o, 0x0000, 0x0000, false, 0x0000, true, false, false, true);
    op_test(o, 0x00FF, 0x0000, false, 0x00FF, false, true, false, false);
    op_test(o, 0xFFFF, 0x0000, false, 0xFFFF, false, true, false, false);
    op_test(o, 0xFFFF, 0x00FF, false, 0xFF00, false, true, false, false);
    op_test(o, 0xFFFF, 0x00FF, true, 0xFF00, false, true, false, false);
    op_test(o, 0xA9A9, 0x5757, true, 0xFEFE, false, true, false, false);
}

#[test]
fn test_alu_cmp() {
    let o = Operation::CMP;
    op_test(o, 0x0000, 0x0000, false, 0x0000, true, false, false, false);
    op_test(o, 0x00FF, 0x0000, false, 0x0000, false, true, false, false);
    op_test(o, 0xFFFF, 0x0000, false, 0x0000, false, true, false, false);
    op_test(o, 0xFFFF, 0x00FF, false, 0x0000, false, true, false, false);
    op_test(o, 0xFFFF, 0x00FF, true, 0x0000, false, true, false, false);
    op_test(o, 0xA9A9, 0x5757, true, 0x0000, false, true, false, false);
}

#[test]
fn alu_test_alu_add() {
    let o = Operation::ADD;
    op_test(o, 0x0000, 0x0000, false, 0x0000, true, false, false, true);
    op_test(o, 0x0001, 0x0001, false, 0x0002, true, false, false, false);
    op_test(o, 0x00FF, 0x0000, false, 0x00FF, false, true, false, false);
    op_test(o, 0x0000, 0x00FF, false, 0x00FF, false, false, false, false);
    op_test(o, 0xFF00, 0x00FF, false, 0xFFFF, false, true, false, false);
    op_test(o, 0xFFFF, 0x0001, false, 0x0000, false, true, true, true);

    op_test(o, 0x0000, 0x0000, true, 0x0001, true, false, false, false);
    op_test(o, 0x0001, 0x0001, true, 0x0003, true, false, false, false);
    op_test(o, 0xFFFF, 0x0000, true, 0x0000, false, true, true, true);
}

#[test]
fn alu_test_alu_shl() {
    let o = Operation::SHL;
    let mut i: u16 = 1;
    while i < 0x7FFF {
        op_test(o, i, i, false, i * 2, true, false, false, false);
        op_test(o, i, 0x00, false, i * 2, false, true, false, false);
        i *= 2;
    }

    op_test(o, 0x0000, 0x0000, false, 0x0000, true, false, false, true);
    op_test(o, 0x0059, 0x0059, false, 0x00B2, true, false, false, false);
    op_test(o, 0x0004, 0x0001, false, 0x0008, false, true, false, false);

    op_test(o, 0x0073, 0x0000, false, 0x00E6, false, true, false, false);

    op_test(o, 0xAA00, 0x0001, false, 0x5400, false, true, true, false);

    op_test(o, 0x004A, 0x0001, true, 0x0095, false, true, false, false);

    op_test(o, 0x0000, 0x0005, false, 0x0000, false, false, false, true);
}

#[test]
fn alu_test_alu_shr() {
    let o = Operation::SHR;
    let mut i: u16 = 0x8000;
    while i > 1 {
        op_test(o, i, i, false, i / 2, true, false, false, false);
        op_test(o, i, 0x00, false, i / 2, false, true, false, false);
        i /= 2;
    }
    op_test(o, 0x0000, 0x0000, false, 0x0000, true, false, false, true);
    op_test(o, 0x0056, 0x0056, false, 0x002B, true, false, false, false);
    op_test(o, 0x0004, 0x0001, false, 0x0002, false, true, false, false);
    op_test(o, 0x0072, 0x0000, false, 0x0039, false, true, false, false);

    op_test(o, 0x00A1, 0x0000, false, 0x0050, false, true, true, false);

    op_test(o, 0x4A00, 0x0001, true, 0xA500, false, true, false, false);

    op_test(o, 0x0000, 0x0005, false, 0x0000, false, false, false, true);
}

#[test]
fn alu_test_alu_not() {
    let o = Operation::NOT;
    op_test(o, 0x0000, 0x0000, false, 0xFFFF, true, false, false, false);
    op_test(o, 0x00FF, 0x0000, false, 0xFF00, false, true, false, false);
    op_test(o, 0xFFFF, 0x0000, false, 0x0000, false, true, false, true);
    op_test(o, 0xFFFF, 0x00FF, false, 0x0000, false, true, false, true);
    op_test(o, 0xFFFF, 0x00FF, true, 0x0000, false, true, false, true);
    op_test(o, 0xA9A9, 0x5757, true, 0x5656, false, true, false, false);
}

#[test]
fn alu_test_alu_and() {
    let o = Operation::AND;
    op_test(o, 0x0000, 0x0000, false, 0x0000, true, false, false, true);
    op_test(o, 0x00FF, 0x0000, false, 0x0000, false, true, false, true);
    op_test(o, 0xFFFF, 0x0000, false, 0x0000, false, true, false, true);
    op_test(o, 0xFFFF, 0x00FF, false, 0x00FF, false, true, false, false);
    op_test(o, 0xFFFF, 0x00FF, true, 0x00FF, false, true, false, false);
    op_test(o, 0xA9A9, 0x5757, true, 0x0101, false, true, false, false);
}

#[test]
fn alu_test_alu_or() {
    let o = Operation::OR;
    op_test(o, 0x0000, 0x0000, false, 0x0000, true, false, false, true);
    op_test(o, 0x00FF, 0x0000, false, 0x00FF, false, true, false, false);
    op_test(o, 0xFFFF, 0x0000, false, 0xFFFF, false, true, false, false);
    op_test(o, 0xFFFF, 0x00FF, false, 0xFFFF, false, true, false, false);
    op_test(o, 0xFFFF, 0x00FF, true, 0xFFFF, false, true, false, false);
    op_test(o, 0xA9A9, 0x5757, true, 0xFFFF, false, true, false, false);
}

#[test]
fn alu_test_alu_xor() {
    let o = Operation::XOR;
    op_test(o, 0x0000, 0x0000, false, 0x0000, true, false, false, true);
    op_test(o, 0x00FF, 0x0000, false, 0x00FF, false, true, false, false);
    op_test(o, 0xFFFF, 0x0000, false, 0xFFFF, false, true, false, false);
    op_test(o, 0xFFFF, 0x00FF, false, 0xFF00, false, true, false, false);
    op_test(o, 0xFFFF, 0x00FF, true, 0xFF00, false, true, false, false);
    op_test(o, 0xA9A9, 0x5757, true, 0xFEFE, false, true, false, false);
}

#[test]
fn alu_test_alu_cmp() {
    let o = Operation::CMP;
    op_test(o, 0x0000, 0x0000, false, 0x0000, true, false, false, false);
    op_test(o, 0x00FF, 0x0000, false, 0x0000, false, true, false, false);
    op_test(o, 0xFFFF, 0x0000, false, 0x0000, false, true, false, false);
    op_test(o, 0xFFFF, 0x00FF, false, 0x0000, false, true, false, false);
    op_test(o, 0xFFFF, 0x00FF, true, 0x0000, false, true, false, false);
    op_test(o, 0xA9A9, 0x5757, true, 0x0000, false, true, false, false);
}
