use computer_simulator::cpu::control::CPU;
use computer_simulator::memory::Memory64K;

const DATA3: u16 = 0x23;
const XOR22: u16 = 0xEA;
const CLF: u16 = 0x60;
const SHR0: u16 = 0xA0;
const JMPC: u16 = 0x58;
const JMP: u16 = 0x40;
const ADD12: u16 = 0x86;
const SHL1: u16 = 0x95;
const SHL3: u16 = 0x9F;

fn get_cpu() -> CPU {
    CPU::new(Memory64K::new())
}

fn test_instruction(
    cpu: &mut CPU,
    instruction: u16,
    input_registers: Vec<u16>,
    expected_output_registers: Vec<u16>,
) {
    cpu.set_cpu_memory_location(0x0000, instruction);
    cpu.set_iar(0x0000);
    cpu.set_registers(input_registers);

    cpu.do_fetch_decode_execute();

    check_registers(
        cpu,
        instruction,
        expected_output_registers[0],
        expected_output_registers[1],
        expected_output_registers[2],
        expected_output_registers[3],
    )
}

fn test_shift(
    cpu: &mut CPU,
    instruction: u16,
    input_registers: Vec<u16>,
    expected_output_registers: Vec<u16>,
    shifts: u16,
) {
    for i in 0..shifts {
        cpu.set_cpu_memory_location(i, instruction);
    }

    cpu.set_registers(input_registers);
    cpu.set_iar(0x0000);

    for _ in 0..shifts {
        cpu.do_fetch_decode_execute();
    }

    check_registers(
        cpu,
        instruction,
        expected_output_registers[0],
        expected_output_registers[1],
        expected_output_registers[2],
        expected_output_registers[3],
    );
}

fn check_registers(
    cpu: &CPU,
    instruction: u16,
    exp_reg0: u16,
    exp_reg1: u16,
    exp_reg2: u16,
    exp_reg3: u16,
) {
    check_register(cpu, instruction, 0, exp_reg0);
    check_register(cpu, instruction, 1, exp_reg1);
    check_register(cpu, instruction, 2, exp_reg2);
    check_register(cpu, instruction, 3, exp_reg3);
}

fn check_register(cpu: &CPU, instruction: u16, register: u16, expected: u16) {
    let reg_value: u16 = match register {
        0..=3 => cpu.register_value(register),
        _ => panic!("Unknown register {}", register),
    };

    assert_eq!(
        reg_value, expected,
        "Instruction: {:#X}, Expected register {} to have value of: {:#>04X} but got {:#>04X}",
        instruction, register, expected, reg_value
    )
}

fn check_iar(cpu: &CPU, exp_value: u16) {
    assert_eq!(
        cpu.iar_value(),
        exp_value,
        "Expected IAR to have value of: {:#X} but got {:#X}",
        exp_value,
        cpu.iar_value()
    )
}

fn check_ir(cpu: &CPU, exp_value: u16) {
    assert_eq!(
        cpu.ir_value(),
        exp_value,
        "Expected IR to have value of: {:#X} but got {:#X}",
        exp_value,
        cpu.ir_value()
    )
}

fn check_flags_register(
    cpu: &CPU,
    expected_carry: bool,
    expected_is_larger: bool,
    expected_is_equal: bool,
    expected_is_zero: bool,
) {
    assert_eq!(cpu.flag(0), expected_carry, "Expected carry flag to be: {}", expected_carry);
    assert_eq!(cpu.flag(1), expected_is_larger, "Expected is_larger flag to be: {}", expected_is_larger);
    assert_eq!(cpu.flag(2), expected_is_equal, "Expected is_equal flag to be: {}", expected_is_equal);
    assert_eq!(cpu.flag(3), expected_is_zero, "Expected is_zero flag to be: {}", expected_is_zero);
}

#[test]
fn test_cpu_iar_incremented_on_every_cycle() {
    let mut cpu = get_cpu();
    cpu.set_iar(0x0000);

    for i in 0..1000 {
        cpu.do_fetch_decode_execute();
        check_iar(&cpu, i + 1);
    }
}

#[test]
fn test_cpu_instruction_received_from_memory() {
    let mut cpu = get_cpu();
    let instructions = vec![0x008A, 0x0082, 0x0088, 0x0094, 0x00B1];

    let mut addr = 0xFF00;
    for i in instructions.iter() {
        cpu.set_cpu_memory_location(addr, *i);
        addr += 1;
    }

    cpu.set_iar(0xFF00);

    for i in instructions.iter() {
        cpu.do_fetch_decode_execute();
        check_ir(&cpu, *i);
    }
}

#[test]
fn test_cpu_flags_register_all_false() {
    let mut cpu = get_cpu();
    cpu.set_cpu_memory_location(0x0000, 0x0081);
    cpu.set_registers(vec![0x0009, 0x00A, 0x0002, 0x0003]);
    cpu.set_iar(0x0000);

    cpu.do_fetch_decode_execute();

    check_flags_register(&cpu, false, false, false, false);
}

#[test]
fn test_cpu_flags_register_carry_flag_enabled() {
    let mut cpu = get_cpu();
    cpu.set_cpu_memory_location(0x0000, 0x0081);
    cpu.set_registers(vec![0x0020, 0xFFFF, 0x0002, 0x0003]);
    cpu.set_iar(0x0000);

    cpu.do_fetch_decode_execute();

    check_flags_register(&cpu, true, false, false, false);
}

#[test]
fn test_cpu_flags_register_is_larger_flag_enabled() {
    let mut cpu = get_cpu();
    cpu.set_cpu_memory_location(0x0000, 0x0081);
    cpu.set_registers(vec![0x0021, 0x0020, 0x0002, 0x0003]);
    cpu.set_iar(0x0000);

    cpu.do_fetch_decode_execute();

    check_flags_register(&cpu, false, true, false, false);
}

#[test]
fn test_cpu_flags_register_is_equal_flag_enabled() {
    let mut cpu = get_cpu();
    cpu.set_cpu_memory_location(0x0000, 0x0081);
    cpu.set_registers(vec![0x0021, 0x0021, 0x0002, 0x0003]);
    cpu.set_iar(0x0000);

    cpu.do_fetch_decode_execute();

    check_flags_register(&cpu, false, false, true, false);
}

#[test]
fn test_cpu_flags_register_is_zero_flag_enabled() {
    let mut cpu = get_cpu();
    cpu.set_cpu_memory_location(0x0000, 0x0081);
    cpu.set_registers(vec![0x0001, 0xFFFF, 0x0002, 0x0003]);
    cpu.set_iar(0x0000);

    cpu.do_fetch_decode_execute();

    check_flags_register(&cpu, true, false, false, true);
}

#[test]
fn test_cpu_flags_register_multiple_enabled() {
    let mut cpu = get_cpu();
    cpu.set_cpu_memory_location(0x0000, 0x0081);
    cpu.set_registers(vec![0xFFFF, 0x0001, 0x0002, 0x0003]);
    cpu.set_iar(0x0000);

    cpu.do_fetch_decode_execute();

    check_flags_register(&cpu, true, true, false, true);
}

#[test]
fn test_cpu_ld() {
    let test_ld = |instruction: u16,
                   mem_address: u16,
                   mem_value: u16,
                   input_registers: Vec<u16>,
                   expected_output_registers: Vec<u16>| {
        let mut cpu = get_cpu();
        let ins_addr = 0x0000;
        cpu.set_cpu_memory_location(ins_addr, instruction);
        cpu.set_iar(ins_addr);
        cpu.set_cpu_memory_location(mem_address, mem_value);
        cpu.set_registers(input_registers);

        cpu.do_fetch_decode_execute();

        check_registers(&cpu, 
            instruction,
            expected_output_registers[0],
            expected_output_registers[1],
            expected_output_registers[2],
            expected_output_registers[3],
        );
    };

    test_ld(
        // LD R0, R0
        0x0000,
        0x0080,
        0x0023,
        vec![0x0080, 0x0081, 0x0082, 0x0083],
        vec![0x0023, 0x0081, 0x0082, 0x0083],
    );
    test_ld(
        // LD R0, R1
        0x0001,
        0x0084,
        0x00F2,
        vec![0x0084, 0x0085, 0x0086, 0x0087],
        vec![0x0084, 0x00F2, 0x0086, 0x0087],
    );
    test_ld(
        // LD R0, R2
        0x0002,
        0x0088,
        0x0001,
        vec![0x0088, 0x0089, 0x008A, 0x008B],
        vec![0x0088, 0x0089, 0x0001, 0x008B],
    );
    test_ld(
        // LD R0, R3
        0x0003,
        0x008C,
        0x005A,
        vec![0x008C, 0x008D, 0x008E, 0x008F],
        vec![0x008C, 0x008D, 0x008E, 0x005A],
    );

    test_ld(
        // LD R1, R0
        0x0004,
        0x0091,
        0x0023,
        vec![0x0090, 0x0091, 0x0092, 0x0093],
        vec![0x0023, 0x0091, 0x0092, 0x0093],
    );
    test_ld(
        // LD R1, R1
        0x0005,
        0x0095,
        0x00F2,
        vec![0x0094, 0x0095, 0x0096, 0x0097],
        vec![0x0094, 0x00F2, 0x0096, 0x0097],
    );
    test_ld(
        // LD R1, R2
        0x0006,
        0x0099,
        0x0001,
        vec![0x0098, 0x0099, 0x009A, 0x009B],
        vec![0x0098, 0x0099, 0x0001, 0x009B],
    );
    test_ld(
        // LD R1, R3
        0x0007,
        0x009D,
        0x005A,
        vec![0x009C, 0x009D, 0x009E, 0x009F],
        vec![0x009C, 0x009D, 0x009E, 0x005A],
    );

    test_ld(
        // LD R2, R0
        0x0008,
        0x00A2,
        0x0023,
        vec![0x00A0, 0x00A1, 0x00A2, 0x00A3],
        vec![0x0023, 0x00A1, 0x00A2, 0x00A3],
    );
    test_ld(
        // LD R2, R1
        0x0009,
        0x00A6,
        0x00F2,
        vec![0x00A4, 0x00A5, 0x00A6, 0x00A7],
        vec![0x00A4, 0x00F2, 0x00A6, 0x00A7],
    );
    test_ld(
        // LD R2, R2
        0x000A,
        0x00AA,
        0x0001,
        vec![0x00A8, 0x00A9, 0x00AA, 0x00AB],
        vec![0x00A8, 0x00A9, 0x0001, 0x00AB],
    );
    test_ld(
        // LD R2, R3
        0x000B,
        0x00AE,
        0x005A,
        vec![0x00AC, 0x00AD, 0x00AE, 0x00AF],
        vec![0x00AC, 0x00AD, 0x00AE, 0x005A],
    );

    test_ld(
        // LD R3, R0
        0x000C,
        0x00B3,
        0x0023,
        vec![0x00B0, 0x00B1, 0x00B2, 0x00B3],
        vec![0x0023, 0x00B1, 0x00B2, 0x00B3],
    );
    test_ld(
        // LD R3, R1
        0x000D,
        0x00B7,
        0x00F2,
        vec![0x00B4, 0x00B5, 0x00B6, 0x00B7],
        vec![0x00B4, 0x00F2, 0x00B6, 0x00B7],
    );
    test_ld(
        // LD R3, R2
        0x000E,
        0x22BB,
        0xAB01,
        vec![0x00B8, 0x00B9, 0x00BA, 0x22BB],
        vec![0x00B8, 0x00B9, 0xAB01, 0x22BB],
    );
    test_ld(
        // LD R3, R3
        0x000F,
        0x00BF,
        0x005A,
        vec![0x00BC, 0x00BD, 0x00BE, 0x00BF],
        vec![0x00BC, 0x00BD, 0x00BE, 0x005A],
    );
}

#[test]
fn test_cpu_st() {
    let test_st = |instruction: u16,
                   input_registers: Vec<u16>,
                   expected_value_addredd: u16,
                   expected_value: u16| {
        let mut cpu = get_cpu();

        // ST value into memory
        let ins_addr = 0x0000;
        cpu.set_cpu_memory_location(ins_addr, instruction);
        cpu.set_iar(ins_addr);
        cpu.set_registers(input_registers.clone());

        cpu.do_fetch_decode_execute();

        //LD value into register zero
        cpu.set_cpu_memory_location(ins_addr + 1, 0x0000);
        cpu.set_iar(ins_addr + 1);

        cpu.set_registers(vec![
            expected_value_addredd,
            input_registers[1].clone(),
            input_registers[2],
            input_registers[3],
        ]);

        cpu.do_fetch_decode_execute();

        assert_eq!(cpu.register_value(0), expected_value);
    };

    test_st(0x0010, vec![0x00A0, 0x0001, 0x0001, 0x0001], 0x00A0, 0x00A0); // ST R0, R0
    test_st(0x0011, vec![0x00A1, 0x0029, 0x0001, 0x0001], 0x00A1, 0x0029); // ST R0, R1
    test_st(0x0012, vec![0x00A2, 0x0001, 0x007F, 0x0001], 0x00A2, 0x007F); // ST R0, R2
    test_st(0x0013, vec![0x00A3, 0x0001, 0x0001, 0x001B], 0x00A3, 0x001B); // ST R0, R3

    test_st(0x0014, vec![0x00A0, 0x00B4, 0x0001, 0x0001], 0x00B4, 0x00A0); // ST R1, R0
    test_st(0x0015, vec![0x0001, 0x00B5, 0x0001, 0x0001], 0x00B5, 0x00B5); // ST R1, R1
    test_st(0x0016, vec![0x0001, 0x00B6, 0x007F, 0x0001], 0x00B6, 0x007F); // ST R1, R2
    test_st(0x0017, vec![0x0001, 0x00B7, 0x0001, 0x001B], 0x00B7, 0x001B); // ST R1, R3

    test_st(0x0018, vec![0x00A0, 0x0001, 0x00C8, 0x0001], 0x00C8, 0x00A0); // ST R2, R0
    test_st(0x0019, vec![0x0001, 0x0029, 0x00C9, 0x0001], 0x00C9, 0x0029); // ST R2, R1
    test_st(0x001A, vec![0x0001, 0x0001, 0x00CA, 0x0001], 0x00CA, 0x00CA); // ST R2, R2
    test_st(0x001B, vec![0x0001, 0x0001, 0x00CB, 0x001B], 0x00CB, 0x001B); // ST R2, R3

    test_st(0x001C, vec![0x00A0, 0x0001, 0x0001, 0x00DC], 0x00DC, 0x00A0); // ST R3, R0
    test_st(0x001D, vec![0x0001, 0x0029, 0x0001, 0x00DD], 0x00DD, 0x0029); // ST R3, R1
    test_st(0x001E, vec![0x0001, 0x0001, 0x1A7F, 0xFCDE], 0xFCDE, 0x1A7F); // ST R3, R2
    test_st(0x001F, vec![0x0001, 0x0001, 0x0001, 0x00DF], 0x00DF, 0x00DF); // ST R3, R3
}

#[test]
fn test_cpu_data() {
    let mut cpu = get_cpu();
    let ins_addr = 0x0000;

    // DATA R0
    cpu.set_cpu_memory_location(ins_addr, 0x0020);
    cpu.set_cpu_memory_location(ins_addr + 1, 0xF071);

    // DATA R1
    cpu.set_cpu_memory_location(ins_addr + 2, 0x0021);
    cpu.set_cpu_memory_location(ins_addr + 3, 0xF172);

    // DATA R2
    cpu.set_cpu_memory_location(ins_addr + 4, 0x0022);
    cpu.set_cpu_memory_location(ins_addr + 5, 0xF273);

    // DATA R3
    cpu.set_cpu_memory_location(ins_addr + 6, 0x0023);
    cpu.set_cpu_memory_location(ins_addr + 7, 0xF374);

    cpu.set_iar(ins_addr);

    cpu.set_registers(vec![0x0001, 0x0001, 0x0001, 0x0001]);

    for _ in 0..4 {
        cpu.do_fetch_decode_execute();
    }

    check_registers(&cpu, 0x0020, 0xF071, 0xF172, 0xF273, 0xF374);

    // check IAR has incremented 2 each time
    check_iar(&cpu, 0x0008)
}

#[test]
fn test_cpu_jmpr() {
    let test_jmpr = |instruction: u16, input_registers: Vec<u16>, expected_iar: u16| {
        let mut cpu = get_cpu();
        let ins_addr = 0x0000;
        // JMPR
        cpu.set_cpu_memory_location(ins_addr, instruction);
        cpu.set_iar(ins_addr);
        cpu.set_registers(input_registers.clone());

        cpu.do_fetch_decode_execute();

        // registers shouldn't change
        check_registers(&cpu, 
            instruction,
            input_registers[0],
            input_registers[1],
            input_registers[2],
            input_registers[3],
        );

        check_iar(&cpu, expected_iar);
    };
    test_jmpr(0x0030, vec![0x0083, 0x0001, 0x0001, 0x0001], 0x0083); // JR R0
    test_jmpr(0x0031, vec![0x0001, 0x00F1, 0x0001, 0x0001], 0x00F1); // JR R1
    test_jmpr(0x0032, vec![0x0001, 0x0001, 0x00BB, 0x0001], 0x00BB); // JR R2
    test_jmpr(0x0033, vec![0x0001, 0x0001, 0x0001, 0xFF19], 0xFF19); // JR R3
}

#[test]
fn test_cpu_jmp() {
    let test_jmp = |expected_iar: u16| {
        let mut cpu = get_cpu();
        let ins_addr = 0x0000;

        // JMP
        cpu.set_cpu_memory_location(ins_addr, 0x0040);
        cpu.set_cpu_memory_location(ins_addr + 1, expected_iar);

        cpu.set_iar(ins_addr);

        let input_registers = vec![0x0001, 0x0001, 0x0001, 0x0001];
        cpu.set_registers(input_registers.clone());

        cpu.do_fetch_decode_execute();

        // registers shouldn't change
        check_registers(&cpu, 
            0x0040,
            input_registers[0],
            input_registers[1],
            input_registers[2],
            input_registers[3],
        );

        // check IAR has jumped to the new location
        check_iar(&cpu, expected_iar);
    };

    for i in 0..0x0005 {
        test_jmp(i);
    }
}

#[test]
fn test_cpu_jmpz() {
    // JMPZ
    // perform NOT on R0 (0x00FF) to trigger zero flag
    test_jmp_conditional(
        0x0051,
        0x00AE,
        0x00B0,
        vec![0xFFFF, 0x0001, 0x0001, 0x0010],
        0x00AE,
    );

    // should not jump in false case
    test_jmp_conditional(
        0x0051,
        0x00AF,
        0x00B0,
        vec![0x0000, 0x0011, 0x0001, 0x0001],
        0x0003,
    );
}

#[test]
fn test_cpu_jmpe() {
    // JMPE
    test_jmp_conditional(
        0x0052,
        0x00AE,
        0x00F1,
        vec![0x0000, 0x0000, 0x0001, 0x0020],
        0x00AE,
    );

    // should not jump in false case
    test_jmp_conditional(
        0x0052,
        0x00AF,
        0x00F1,
        vec![0x0010, 0x0011, 0x0001, 0x0001],
        0x0003,
    );
}

#[test]
fn test_cpu_jmpez() {
    // JMPEZ
    // Jump if A = B or zero flag
    // a = b
    test_jmp_conditional(
        0x0053,
        0x0020,
        0x00F1,
        vec![0x0002, 0x0002, 0x0001, 0x0020],
        0x0020,
    );

    // zero flag (using and)
    test_jmp_conditional(
        0x0053,
        0x0020,
        0x00C1,
        vec![0x0001, 0x00FE, 0x0002, 0x0020],
        0x0020,
    );

    // should not jump in false case
    test_jmp_conditional(
        0x0053,
        0x0021,
        0x00F1,
        vec![0x0001, 0x0003, 0x0001, 0x0001],
        0x0003,
    );
}

#[test]
fn test_cpu_jmpa() {
    // JMPA
    test_jmp_conditional(
        0x0054,
        0x0020,
        0x00F1,
        vec![0x0002, 0x0001, 0x0001, 0x0020],
        0x0020,
    );

    // should not jump in false case
    test_jmp_conditional(
        0x0054,
        0x0021,
        0x00F1,
        vec![0x0001, 0x0003, 0x0001, 0x0001],
        0x0003,
    );
}

#[test]
fn test_cpu_jmpaz() {
    // JMPAZ
    // Jump is A is larger or zero flag
    // a larger
    test_jmp_conditional(
        0x0055,
        0x0020,
        0x00F1,
        vec![0x0002, 0x0001, 0x0001, 0x0020],
        0x0020,
    );

    // zero flag (using and)
    test_jmp_conditional(
        0x0055,
        0x0020,
        0x00C1,
        vec![0x0001, 0x00FE, 0x0002, 0x0002],
        0x0020,
    );

    // should not jump in false case
    test_jmp_conditional(
        0x0055,
        0x0021,
        0x00F1,
        vec![0x0001, 0x0003, 0x0001, 0x0001],
        0x0003,
    );
}

#[test]
fn test_cpu_jmpae() {
    // JMPAE
    // Jump is A is larger or A = B
    // a larger
    test_jmp_conditional(
        0x0056,
        0x0020,
        0x00F1,
        vec![0x0002, 0x0001, 0x0001, 0x0020],
        0x0020,
    );

    //a = b
    test_jmp_conditional(
        0x0056,
        0x0020,
        0x00F1,
        vec![0x0002, 0x0002, 0x0001, 0x0020],
        0x0020,
    );

    // should not jump in false case
    test_jmp_conditional(
        0x0056,
        0x0021,
        0x00F1,
        vec![0x0001, 0x0003, 0x0001, 0x0001],
        0x0003,
    );
}

#[test]
fn test_cpu_jmpaez() {
    // JMPAEZ
    // Jump if a is larger OR a = b OR zero flag

    // a larger
    test_jmp_conditional(
        0x0057,
        0x0020,
        0x00F1,
        vec![0x0002, 0x0001, 0x0001, 0x0020],
        0x0020,
    );

    // a = b
    test_jmp_conditional(
        0x0057,
        0x0020,
        0x00F1,
        vec![0x0002, 0x0002, 0x0001, 0x0020],
        0x0020,
    );

    // zero flag (using and)
    test_jmp_conditional(
        0x0057,
        0x0020,
        0x00C1,
        vec![0x0001, 0x00FE, 0x0002, 0x0002],
        0x0020,
    );

    // should not jump in false case
    test_jmp_conditional(
        0x0057,
        0x0021,
        0x00F1,
        vec![0x0001, 0x0003, 0x0001, 0x0001],
        0x0003,
    );
}

#[test]
fn test_cpu_jmpc() {
    // JMPC
    test_jmp_conditional(
        0x0058,
        0x0090,
        0x0081,
        vec![0x0004, 0xFFFF, 0x0001, 0x0020],
        0x0090,
    );

    // should not jump in false case
    test_jmp_conditional(
        0x0058,
        0x0091,
        0x0081,
        vec![0x0005, 0x0006, 0x0001, 0x0001],
        0x0003,
    );
}

#[test]
fn test_cpu_jmpcz() {
    // JMPCZ
    // Jump If Carry or zero flag
    // carry condition
    test_jmp_conditional(
        0x0059,
        0x0090,
        0x0081,
        vec![0x0004, 0xFFFF, 0x0001, 0x0020],
        0x0090,
    );
    // zero flag
    test_jmp_conditional(
        0x0059,
        0x0090,
        0x00B0,
        vec![0xFFFF, 0x00FE, 0x00FE, 0x00FE],
        0x0090,
    );
    // should not jump in false case
    test_jmp_conditional(
        0x0059,
        0x0091,
        0x0081,
        vec![0x0001, 0x0002, 0x0001, 0x0001],
        0x0003,
    );
}

#[test]
fn test_cpu_jmpce() {
    // JMPCE
    // Jump If Carry or A = B
    // carry condition
    test_jmp_conditional(
        0x005A,
        0x0090,
        0x0081,
        vec![0x0004, 0xFFFF, 0x0001, 0x0020],
        0x0090,
    );
    // a = b
    test_jmp_conditional(
        0x005A,
        0x0090,
        0x0081,
        vec![0x0002, 0x0002, 0x0001, 0x0020],
        0x0090,
    );
    // should not jump in false case
    test_jmp_conditional(
        0x005A,
        0x0091,
        0x0081,
        vec![0x0001, 0x0002, 0x0001, 0x0001],
        0x0003,
    );
}

#[test]
fn test_cpu_jmpcez() {
    // JMPCEZ
    // Jump if Carry OR a = b OR zero flag

    // carry condition
    test_jmp_conditional(
        0x005B,
        0x0090,
        0x0081,
        vec![0x0004, 0xFFFF, 0x0001, 0x0020],
        0x0090,
    );

    // a = b
    test_jmp_conditional(
        0x005B,
        0x0020,
        0x00F1,
        vec![0x0002, 0x0002, 0x0001, 0x0020],
        0x0020,
    );

    // zero flag (using and)
    test_jmp_conditional(
        0x005B,
        0x0020,
        0x00C1,
        vec![0x0001, 0x00FE, 0x0002, 0x0002],
        0x0020,
    );

    // should not jump in false case
    test_jmp_conditional(
        0x005B,
        0x0091,
        0x0081,
        vec![0x0001, 0x0002, 0x0001, 0x0001],
        0x0003,
    );
}

#[test]
fn test_cpu_jmpca() {
    // JMPCA
    // Jump If Carry or A larger
    // carry condition
    test_jmp_conditional(
        0x005C,
        0x0090,
        0x0081,
        vec![0x0004, 0xFFFF, 0x0001, 0x0020],
        0x0090,
    );
    // a is larger
    test_jmp_conditional(
        0x005C,
        0x0090,
        0x0081,
        vec![0x000A, 0x0001, 0x0001, 0x0020],
        0x0090,
    );
    // should not jump in false case
    test_jmp_conditional(
        0x005C,
        0x0091,
        0x0081,
        vec![0x0001, 0x0001, 0x0001, 0x0001],
        0x0003,
    );
}

#[test]
fn test_cpu_jmpcaz() {
    // JMPCAZ
    // Jump if Carry OR A is Larger OR zero flag

    // carry condition
    test_jmp_conditional(
        0x005D,
        0x0090,
        0x0081,
        vec![0x0004, 0xFFFF, 0x0001, 0x0020],
        0x0090,
    );

    // a larger
    test_jmp_conditional(
        0x005D,
        0x0020,
        0x00F1,
        vec![0x0002, 0x0001, 0x0001, 0x0020],
        0x0020,
    );

    // zero flag (using and)
    test_jmp_conditional(
        0x005D,
        0x0020,
        0x00C1,
        vec![0x0001, 0x00FE, 0x0002, 0x0002],
        0x0020,
    );

    // should not jump in false case
    test_jmp_conditional(
        0x005D,
        0x0091,
        0x0081,
        vec![0x0001, 0x0002, 0x0001, 0x0001],
        0x0003,
    );
}

#[test]
fn test_cpu_jmpcae() {
    // JMPCAE
    // Jump if Carry OR A is Larger OR A = B

    // carry condition
    test_jmp_conditional(
        0x005E,
        0x0090,
        0x0081,
        vec![0x0004, 0xFFFF, 0x0001, 0x0020],
        0x0090,
    );

    // a larger
    test_jmp_conditional(
        0x005E,
        0x0020,
        0x00F1,
        vec![0x0002, 0x0001, 0x0001, 0x0020],
        0x0020,
    );

    // a = b
    test_jmp_conditional(
        0x005E,
        0x0020,
        0x00F1,
        vec![0x0002, 0x0002, 0x0001, 0x0020],
        0x0020,
    );

    // should not jump in false case
    test_jmp_conditional(
        0x005E,
        0x0091,
        0x0081,
        vec![0x0001, 0x0002, 0x0001, 0x0001],
        0x0003,
    );
}

#[test]
fn test_cpu_jmpcaez() {
    // JMPCAEZ
    // Jump if Carry OR A is Larger OR A = B OR zero flag

    // carry condition
    test_jmp_conditional(
        0x005F,
        0x0090,
        0x0081,
        vec![0x0004, 0xFFFF, 0x0001, 0x0020],
        0x0090,
    );

    // a larger
    test_jmp_conditional(
        0x005F,
        0x0020,
        0x00F1,
        vec![0x0002, 0x0001, 0x0001, 0x0020],
        0x0020,
    );

    // a = b
    test_jmp_conditional(
        0x005F,
        0x0020,
        0x00F1,
        vec![0x0002, 0x0002, 0x0001, 0x0020],
        0x0020,
    );

    // zero flag (using and)
    test_jmp_conditional(
        0x005F,
        0x0020,
        0x00C1,
        vec![0x0001, 0x00FE, 0x0002, 0x0002],
        0x0020,
    );

    // should not jump in false case
    test_jmp_conditional(
        0x005F,
        0x0091,
        0x0081,
        vec![0x0001, 0x0002, 0x0001, 0x0001],
        0x0003,
    );
}

fn test_jmp_conditional(
    jmp_condition_instr: u16,
    destination: u16,
    initial_instr: u16,
    input_registers: Vec<u16>,
    expected_iar: u16,
) {
    let mut cpu = get_cpu();
    let ins_addr = 0x0000;

    cpu.set_cpu_memory_location(ins_addr, initial_instr);
    cpu.set_cpu_memory_location(ins_addr + 1, jmp_condition_instr);
    cpu.set_cpu_memory_location(ins_addr + 2, destination);

    cpu.set_iar(ins_addr);
    cpu.set_registers(input_registers);

    cpu.do_fetch_decode_execute();
    cpu.do_fetch_decode_execute();

    check_iar(&cpu, expected_iar);
}

#[test]
fn test_cpu_clf() {
    let test_clf = |initial_instruction: u16, initial_registers: Vec<u16>| {
        let mut cpu = get_cpu();
        let ins_addr = 0x0000;
        cpu.set_cpu_memory_location(ins_addr, initial_instruction);
        cpu.set_cpu_memory_location(ins_addr + 1, 0x0060);
        cpu.set_iar(ins_addr);
        cpu.set_registers(initial_registers);

        cpu.do_fetch_decode_execute();
        cpu.do_fetch_decode_execute();
        check_flags_register(&cpu, false, false, false, false);
    };

    // carry + zero + greater
    test_clf(0x0081, vec![0xFFFF, 0x0001, 0x0000, 0x0000]);
    // equal flag
    test_clf(0x0081, vec![0x0001, 0x0001, 0x0000, 0x0000]);
    // all flags should be false anyway
    test_clf(0x0081, vec![0x0001, 0x0002, 0x0000, 0x0000]);
}

#[test]
fn test_cpu_io_input_instruction() {}

#[test]
fn test_cpu_io_output_instruction() {}

#[test]
fn test_cpu_alu_add() {
    let mut cpu = get_cpu();
    let inputs = vec![0x0002, 0x0003, 0x0004, 0x0005];

    for i in 0..4 {
        for j in 0..4 {
            let mut res = vec![inputs[0], inputs[1], inputs[2], inputs[3]];
            match i {
                0 => match j {
                    0 => res[0] += inputs[0], // ADD R0, R0
                    1 => res[1] += inputs[0], // ADD R1, R0
                    2 => res[2] += inputs[0], // ADD R2, R0
                    3 => res[3] += inputs[0], // ADD R3, R0
                    _ => {}
                },
                1 => match j {
                    0 => res[0] += inputs[1], // ADD R0, R1
                    1 => res[1] += inputs[1], // ADD R1, R1
                    2 => res[2] += inputs[1], // ADD R2, R1
                    3 => res[3] += inputs[1], // ADD R3, R1
                    _ => {}
                },
                2 => match j {
                    0 => res[0] += inputs[2], // ADD R0, R2
                    1 => res[1] += inputs[2], // ADD R1, R2
                    2 => res[2] += inputs[2], // ADD R2, R2
                    3 => res[3] += inputs[2], // ADD R3, R2
                    _ => {}
                },
                3 => match j {
                    0 => res[0] += inputs[3], // ADD R0, R3
                    1 => res[1] += inputs[3], // ADD R1, R3
                    2 => res[2] += inputs[3], // ADD R2, R3
                    3 => res[3] += inputs[3], // ADD R3, R3
                    _ => {}
                },
                _ => {}
            }

            test_instruction(&mut cpu, 0x0080 + i * 4 + j, inputs.to_vec(), res);
        }
    }
}

#[test]
fn test_cpu_alu_add_with_array() {
    let test_alu_add_with_arrry =
        |instruction: u16, input_registers: Vec<u16>, expected_output_registers: Vec<u16>| {
            let mut cpu = get_cpu();
            cpu.set_cpu_memory_location(0x0000, instruction);
            cpu.set_cpu_memory_location(0x0001, instruction);
            cpu.set_iar(0x0000);

            cpu.set_registers(input_registers);
            cpu.do_fetch_decode_execute();

            cpu.set_registers(vec![0x0000, 0x0000, 0x0000, 0x0000]);
            cpu.do_fetch_decode_execute();

            check_registers(&cpu, 
                instruction,
                expected_output_registers[0],
                expected_output_registers[1],
                expected_output_registers[2],
                expected_output_registers[3],
            );
        };

    test_alu_add_with_arrry(
        0x0080,
        vec![0xFFFE, 0x0000, 0x0000, 0x0000],
        vec![0x0001, 0x0000, 0x0000, 0x0000],
    );
    test_alu_add_with_arrry(
        0x0081,
        vec![0xFFFF, 0x0000, 0x0000, 0x0000],
        vec![0x0000, 0x0000, 0x0000, 0x0000],
    );
    test_alu_add_with_arrry(
        0x0081,
        vec![0xFFFF, 0x0001, 0x0000, 0x0000],
        vec![0x0000, 0x0001, 0x0000, 0x0000],
    );
    test_alu_add_with_arrry(
        0x0081,
        vec![0xFFFE, 0x0005, 0x0000, 0x0000],
        vec![0x0000, 0x0001, 0x0000, 0x0000],
    );
    test_alu_add_with_arrry(
        0x0082,
        vec![0xFFFE, 0x0000, 0x0005, 0x0000],
        vec![0x0000, 0x0000, 0x0001, 0x0000],
    );
    test_alu_add_with_arrry(
        0x0083,
        vec![0xFFFE, 0x0000, 0x0000, 0x0005],
        vec![0x0000, 0x0000, 0x0000, 0x0001],
    );
}

#[test]
fn test_cpu_alu_shl() {
    let mut cpu = get_cpu();
    let ones = vec![0x0001, 0x0001, 0x0001, 0x0001];

    for shift in 0..16 {
        test_shift(&mut cpu, 
            // SHL R0
            0x0090,
            ones.clone(),
            vec![0x0001 << shift, 0x0001, 0x0001, 0x0001],
            shift,
        );
        test_shift(&mut cpu, 
            // SHL R1
            0x0095,
            ones.clone(),
            vec![0x0001, 0x0001 << shift, 0x0001, 0x0001],
            shift,
        );
        test_shift(&mut cpu, 
            // SHL R2
            0x009A,
            ones.clone(),
            vec![0x0001, 0x0001, 0x0001 << shift, 0x0001],
            shift,
        );
        test_shift(&mut cpu, 
            // SHL R3
            0x009F,
            ones.clone(),
            vec![0x0001, 0x0001, 0x0001, 0x0001 << shift],
            shift,
        );
    }
}

#[test]
fn test_cpu_alu_shr() {
    let mut cpu = get_cpu();
    let ones = vec![0x8000, 0x8000, 0x8000, 0x8000];

    for shift in 0..16 {
        test_shift(&mut cpu, 
            // SHR R0
            0x00A0,
            ones.clone(),
            vec![0x8000 >> shift, 0x8000, 0x8000, 0x8000],
            shift,
        );
        test_shift(&mut cpu, 
            // SHR R1
            0x00A5,
            ones.clone(),
            vec![0x8000, 0x8000 >> shift, 0x8000, 0x8000],
            shift,
        );
        test_shift(&mut cpu, 
            // SHR R2
            0x00AA,
            ones.clone(),
            vec![0x8000, 0x8000, 0x8000 >> shift, 0x8000],
            shift,
        );
        test_shift(&mut cpu, 
            // SHR R3
            0x00AF,
            ones.clone(),
            vec![0x8000, 0x8000, 0x8000, 0x8000 >> shift],
            shift,
        );
    }
}

#[test]
fn test_cpu_alu_not() {
    let mut cpu = get_cpu();
    test_instruction(&mut cpu, 
        // NOT R0
        0x00B0,
        vec![0x0000, 0x0000, 0x0000, 0x0000],
        vec![0xFFFF, 0x0000, 0x0000, 0x0000],
    );
    test_instruction(&mut cpu, 
        // NOT R1
        0x00B5,
        vec![0x0000, 0xFF00, 0x0000, 0x0000],
        vec![0x0000, 0x00FF, 0x0000, 0x0000],
    );
    test_instruction(&mut cpu, 
        // NOT R2
        0x00BA,
        vec![0x0000, 0x0000, 0xEEEE, 0x0000],
        vec![0x0000, 0x0000, 0x1111, 0x0000],
    );
    test_instruction(&mut cpu, 
        // NOT R3
        0x00BF,
        vec![0x0000, 0x0000, 0x0000, 0x1100],
        vec![0x0000, 0x0000, 0x0000, 0xEEFF],
    );
}

#[test]
fn test_cpu_alu_and() {
    let mut cpu = get_cpu();
    let input = vec![0xF00F, 0x0F0F, 0x0FF0, 0x00F1];
    for i in 0..4 {
        for j in 0..4 {
            let mut output = vec![input[0], input[1], input[2], input[3]];
            match i {
                0 => match j {
                    0 => output[0] = 0xF00F, // AND R0, R0
                    1 => output[1] = 0x000F, // AND R0, R1
                    2 => output[2] = 0x0000, // AND R0, R2
                    3 => output[3] = 0x0001, // AND R0, R3
                    _ => {}
                },
                1 => match j {
                    0 => output[0] = 0x000F, // AND R1, R0
                    1 => output[1] = 0x0F0F, // AND R1, R1
                    2 => output[2] = 0x0F00, // AND R1, R2
                    3 => output[3] = 0x0001, // AND R1, R3
                    _ => {}
                },
                2 => match j {
                    0 => output[0] = 0x0000, // AND R2, R0
                    1 => output[1] = 0x0F00, // AND R2, R1
                    2 => output[2] = 0x0FF0, // AND R2, R2
                    3 => output[3] = 0x00F0, // AND R2, R3
                    _ => {}
                },
                3 => match j {
                    0 => output[0] = 0x0001, // AND R3, R0
                    1 => output[1] = 0x0001, // AND R3, R1
                    2 => output[2] = 0x00F0, // AND R3, R2
                    3 => output[3] = 0x00F1, // AND R3, R3
                    _ => {}
                },
                _ => {}
            };
            test_instruction(&mut cpu, 0x00C0 + i * 4 + j, input.to_vec(), output);
        }
    }
}

#[test]
fn test_cpu_alu_or() {
    let mut cpu = get_cpu();
    let input = vec![0xF00F, 0x0F0F, 0x0FF0, 0x00F1];
    for i in 0..4 {
        for j in 0..4 {
            let mut output = vec![input[0], input[1], input[2], input[3]];
            match i {
                0 => match j {
                    0 => output[0] = 0xF00F, // OR R0, R0
                    1 => output[1] = 0xFF0F, // OR R0, R1
                    2 => output[2] = 0xFFFF, // OR R0, R2
                    3 => output[3] = 0xF0FF, // OR R0, R3
                    _ => {}
                },
                1 => match j {
                    0 => output[0] = 0xFF0F, // OR R1, R0
                    1 => output[1] = 0x0F0F, // OR R1, R1
                    2 => output[2] = 0x0FFF, // OR R1, R2
                    3 => output[3] = 0x0FFF, // OR R1, R3
                    _ => {}
                },
                2 => match j {
                    0 => output[0] = 0xFFFF, // OR R2, R0
                    1 => output[1] = 0x0FFF, // OR R2, R1
                    2 => output[2] = 0x0FF0, // OR R2, R2
                    3 => output[3] = 0x0FF1, // OR R2, R3
                    _ => {}
                },
                3 => match j {
                    0 => output[0] = 0xF0FF, // OR R3, R0
                    1 => output[1] = 0x0FFF, // OR R3, R1
                    2 => output[2] = 0x0FF1, // OR R3, R2
                    3 => output[3] = 0x00F1, // OR R3, R3
                    _ => {}
                },
                _ => {}
            };
            test_instruction(&mut cpu, 0x00D0 + i * 4 + j, input.to_vec(), output);
        }
    }
}

#[test]
fn test_cpu_alu_xor() {
    let mut cpu = get_cpu();
    let input = vec![0xF00F, 0x0F0F, 0x0FF0, 0x00F1];
    for i in 0..4 {
        for j in 0..4 {
            let mut output = vec![input[0], input[1], input[2], input[3]];
            match i {
                0 => match j {
                    0 => output[0] = 0x0000, // XOR R0, R0
                    1 => output[1] = 0xFF00, // XOR R0, R1
                    2 => output[2] = 0xFFFF, // XOR R0, R2
                    3 => output[3] = 0xF0FE, // XOR R0, R3
                    _ => {}
                },
                1 => match j {
                    0 => output[0] = 0xFF00, // XOR R1, R0
                    1 => output[1] = 0x0000, // XOR R1, R1
                    2 => output[2] = 0x00FF, // XOR R1, R2
                    3 => output[3] = 0x0FFE, // XOR R1, R3
                    _ => {}
                },
                // let input = vec![0xF00F, 0x0F0F, 0x0FF0, 0x00F1];
                2 => match j {
                    0 => output[0] = 0xFFFF, // XOR R2, R0
                    1 => output[1] = 0x00FF, // XOR R2, R1
                    2 => output[2] = 0x0000, // XOR R2, R2
                    3 => output[3] = 0x0F01, // XOR R2, R3
                    _ => {}
                },
                3 => match j {
                    0 => output[0] = 0xF0FE, // XOR R3, R0
                    1 => output[1] = 0x0FFE, // XOR R3, R1
                    2 => output[2] = 0x0F01, // XOR R3, R2
                    3 => output[3] = 0x0000, // XOR R3, R3
                    _ => {}
                },
                _ => {}
            };
            test_instruction(&mut cpu, 0x00E0 + i * 4 + j, input.to_vec(), output);
        }
    }
}

#[test]
fn test_cpu_alu_cmp() {
    let test_alu_cmp = |instruction: u16,
                        input_registers: Vec<u16>,
                        expected_output_registers: Vec<u16>,
                        compare_a: i32,
                        compare_b: i32| {
        let mut cpu = get_cpu();
        let ins_addr = 0x0000;
        cpu.set_cpu_memory_location(ins_addr, instruction);
        cpu.set_registers(input_registers.clone());
        cpu.set_iar(ins_addr);

        cpu.do_fetch_decode_execute();

        check_registers(&cpu, 
            instruction,
            expected_output_registers[0],
            expected_output_registers[1],
            expected_output_registers[2],
            expected_output_registers[3],
        );
        check_flags_register(&cpu, 
            false,
            input_registers[compare_a as usize] > input_registers[compare_b as usize],
            input_registers[compare_a as usize] == input_registers[compare_b as usize],
            false,
        );
    };

    let inputs = vec![0xAB92, 0x0092, 0x0045, 0x00AF];
    let mut instruction = 0x00F0;
    for i in 0..4 {
        for j in 0..4 {
            test_alu_cmp(instruction, inputs.clone(), inputs.clone(), i, j);
            instruction += 1;
        }
    }

    let zeros = vec![0x0000, 0x0000, 0x0000, 0x0000];
    instruction = 0x00F0;
    for i in 0..4 {
        for j in 0..4 {
            test_alu_cmp(instruction, zeros.clone(), zeros.clone(), i, j);
            instruction += 1;
        }
    }
}

#[test]
fn test_cpu_alu_subtract() {
    let test_alu_subtract = |input_a: u16, input_b: u16| {
        let mut cpu = get_cpu();
        cpu.set_registers(vec![input_a, input_b, 1, 0]);
        cpu.set_cpu_memory_location(0x0000, 0x00B5); // NOT
        cpu.set_cpu_memory_location(0x0001, 0x0089); // ADD R1, R2
        cpu.set_cpu_memory_location(0x0002, 0x0060); // CLF
        cpu.set_cpu_memory_location(0x0003, 0x0081); // ADD R1, R0

        cpu.set_iar(0x0000);
        cpu.do_fetch_decode_execute();
        cpu.do_fetch_decode_execute();
        cpu.do_fetch_decode_execute();
        cpu.do_fetch_decode_execute();
        check_register(&cpu, 0x0081, 1, input_a - input_b);
    };

    test_alu_subtract(0x0000, 0x0000);
    test_alu_subtract(0xFFFF, 0x1111);
    test_alu_subtract(0xFFFF, 0xFFFF);
}

#[test]
fn test_cpu_alu_multiply() {
    let test_cpu_multiply = |test_id: u16, input_a: u16, input_b: u16| {
        let mut cpu = get_cpu();
        let ins_addr = 0x0000;

        // DATA R3, 1
        // XOR R2, R2
        // CLF
        // SHR R0
        // JC ins_addr+9
        // JMP ins_addr+11
        // CLF
        // ADD R1, R2
        // CLF
        // SHL R1
        // SHL R3
        // JC, ins_addr+18
        // JMP, ins_addr+3

        // DATA R3, 1
        cpu.set_cpu_memory_location(ins_addr + 0, DATA3);
        cpu.set_cpu_memory_location(ins_addr + 1, 0x0001);
        // XOR R2, R2
        cpu.set_cpu_memory_location(ins_addr + 2, XOR22);
        // CLF
        cpu.set_cpu_memory_location(ins_addr + 3, CLF);
        // SHR R0
        cpu.set_cpu_memory_location(ins_addr + 4, SHR0);
        // JC 59
        cpu.set_cpu_memory_location(ins_addr + 5, JMPC);
        cpu.set_cpu_memory_location(ins_addr + 6, ins_addr + 9);
        // JMP 61
        cpu.set_cpu_memory_location(ins_addr + 7, JMP);
        cpu.set_cpu_memory_location(ins_addr + 8, ins_addr + 11);
        // CLF
        cpu.set_cpu_memory_location(ins_addr + 9, CLF);
        // ADD R1, R2
        cpu.set_cpu_memory_location(ins_addr + 10, ADD12);
        // CLF
        cpu.set_cpu_memory_location(ins_addr + 11, CLF);
        // SHL R1
        cpu.set_cpu_memory_location(ins_addr + 12, SHL1);
        // SHL R3
        cpu.set_cpu_memory_location(ins_addr + 13, SHL3);
        // JC 68
        cpu.set_cpu_memory_location(ins_addr + 14, JMPC);
        cpu.set_cpu_memory_location(ins_addr + 15, ins_addr + 18);
        // JMP 53
        cpu.set_cpu_memory_location(ins_addr + 16, JMP);
        cpu.set_cpu_memory_location(ins_addr + 17, ins_addr + 3);

        cpu.set_registers(vec![input_a, input_b, 0, 0]);
        cpu.set_iar(ins_addr);

        loop {
            cpu.do_fetch_decode_execute();
            if cpu.iar_value() >= ins_addr + 18 {
                break;
            }
        }

        check_register(&cpu, test_id, 2, input_a * input_b);
    };

    test_cpu_multiply(0, 0x0000, 0x0000);
    test_cpu_multiply(1, 0x0001, 0x0001);
    test_cpu_multiply(2, 0x0001, 0x0002);
    test_cpu_multiply(3, 0x0002, 0x0001);
    test_cpu_multiply(4, 0x0002, 0x0002);
    test_cpu_multiply(5, 0x000F, 0x000F);
}

