use computer_simulator::assembler::{
    AssemblerResolver, IOMode, Instr, Instruction, Label, Number, Register, Symbol, ADD, AND, CALL,
    CLF, CMP, DATA, IN, JMP, JMPF, JR, LOAD, NOT, OR, OUT, SHL, SHR, STORE, XOR,
};

const REG0: Register = Register::REG0;
const REG1: Register = Register::REG1;
const REG2: Register = Register::REG2;
const REG3: Register = Register::REG3;
const DATA_MODE: IOMode = IOMode::DataMode;
const ADDRESS_MODE: IOMode = IOMode::AddressMode;

#[test]
fn test_instruction_two_reg_string() {
    let instructions: Vec<(Instr, &str)> = vec![
        // LOAD
        (Instr::Load(LOAD::new(REG0, REG0)), "LD R0, R0"),
        (Instr::Load(LOAD::new(REG0, REG1)), "LD R0, R1"),
        (Instr::Load(LOAD::new(REG0, REG2)), "LD R0, R2"),
        (Instr::Load(LOAD::new(REG0, REG3)), "LD R0, R3"),
        (Instr::Load(LOAD::new(REG1, REG0)), "LD R1, R0"),
        (Instr::Load(LOAD::new(REG1, REG1)), "LD R1, R1"),
        (Instr::Load(LOAD::new(REG1, REG2)), "LD R1, R2"),
        (Instr::Load(LOAD::new(REG1, REG3)), "LD R1, R3"),
        (Instr::Load(LOAD::new(REG2, REG0)), "LD R2, R0"),
        (Instr::Load(LOAD::new(REG2, REG1)), "LD R2, R1"),
        (Instr::Load(LOAD::new(REG2, REG2)), "LD R2, R2"),
        (Instr::Load(LOAD::new(REG2, REG3)), "LD R2, R3"),
        (Instr::Load(LOAD::new(REG3, REG0)), "LD R3, R0"),
        (Instr::Load(LOAD::new(REG3, REG1)), "LD R3, R1"),
        (Instr::Load(LOAD::new(REG3, REG2)), "LD R3, R2"),
        (Instr::Load(LOAD::new(REG3, REG3)), "LD R3, R3"),
        // STORE
        (Instr::Store(STORE::new(REG0, REG0)), "ST R0, R0"),
        (Instr::Store(STORE::new(REG0, REG1)), "ST R0, R1"),
        (Instr::Store(STORE::new(REG0, REG2)), "ST R0, R2"),
        (Instr::Store(STORE::new(REG0, REG3)), "ST R0, R3"),
        (Instr::Store(STORE::new(REG1, REG0)), "ST R1, R0"),
        (Instr::Store(STORE::new(REG1, REG1)), "ST R1, R1"),
        (Instr::Store(STORE::new(REG1, REG2)), "ST R1, R2"),
        (Instr::Store(STORE::new(REG1, REG3)), "ST R1, R3"),
        (Instr::Store(STORE::new(REG2, REG0)), "ST R2, R0"),
        (Instr::Store(STORE::new(REG2, REG1)), "ST R2, R1"),
        (Instr::Store(STORE::new(REG2, REG2)), "ST R2, R2"),
        (Instr::Store(STORE::new(REG2, REG3)), "ST R2, R3"),
        (Instr::Store(STORE::new(REG3, REG0)), "ST R3, R0"),
        (Instr::Store(STORE::new(REG3, REG1)), "ST R3, R1"),
        (Instr::Store(STORE::new(REG3, REG2)), "ST R3, R2"),
        (Instr::Store(STORE::new(REG3, REG3)), "ST R3, R3"),
        // ADD
        (Instr::Add(ADD::new(REG0, REG0)), "ADD R0, R0"),
        (Instr::Add(ADD::new(REG0, REG1)), "ADD R0, R1"),
        (Instr::Add(ADD::new(REG0, REG2)), "ADD R0, R2"),
        (Instr::Add(ADD::new(REG0, REG3)), "ADD R0, R3"),
        (Instr::Add(ADD::new(REG1, REG0)), "ADD R1, R0"),
        (Instr::Add(ADD::new(REG1, REG1)), "ADD R1, R1"),
        (Instr::Add(ADD::new(REG1, REG2)), "ADD R1, R2"),
        (Instr::Add(ADD::new(REG1, REG3)), "ADD R1, R3"),
        (Instr::Add(ADD::new(REG2, REG0)), "ADD R2, R0"),
        (Instr::Add(ADD::new(REG2, REG1)), "ADD R2, R1"),
        (Instr::Add(ADD::new(REG2, REG2)), "ADD R2, R2"),
        (Instr::Add(ADD::new(REG2, REG3)), "ADD R2, R3"),
        (Instr::Add(ADD::new(REG3, REG0)), "ADD R3, R0"),
        (Instr::Add(ADD::new(REG3, REG1)), "ADD R3, R1"),
        (Instr::Add(ADD::new(REG3, REG2)), "ADD R3, R2"),
        (Instr::Add(ADD::new(REG3, REG3)), "ADD R3, R3"),
        // AND
        (Instr::And(AND::new(REG0, REG0)), "AND R0, R0"),
        (Instr::And(AND::new(REG0, REG1)), "AND R0, R1"),
        (Instr::And(AND::new(REG0, REG2)), "AND R0, R2"),
        (Instr::And(AND::new(REG0, REG3)), "AND R0, R3"),
        (Instr::And(AND::new(REG1, REG0)), "AND R1, R0"),
        (Instr::And(AND::new(REG1, REG1)), "AND R1, R1"),
        (Instr::And(AND::new(REG1, REG2)), "AND R1, R2"),
        (Instr::And(AND::new(REG1, REG3)), "AND R1, R3"),
        (Instr::And(AND::new(REG2, REG0)), "AND R2, R0"),
        (Instr::And(AND::new(REG2, REG1)), "AND R2, R1"),
        (Instr::And(AND::new(REG2, REG2)), "AND R2, R2"),
        (Instr::And(AND::new(REG2, REG3)), "AND R2, R3"),
        (Instr::And(AND::new(REG3, REG0)), "AND R3, R0"),
        (Instr::And(AND::new(REG3, REG1)), "AND R3, R1"),
        (Instr::And(AND::new(REG3, REG2)), "AND R3, R2"),
        (Instr::And(AND::new(REG3, REG3)), "AND R3, R3"),
        // OR
        (Instr::Or(OR::new(REG0, REG0)), "OR R0, R0"),
        (Instr::Or(OR::new(REG0, REG1)), "OR R0, R1"),
        (Instr::Or(OR::new(REG0, REG2)), "OR R0, R2"),
        (Instr::Or(OR::new(REG0, REG3)), "OR R0, R3"),
        (Instr::Or(OR::new(REG1, REG0)), "OR R1, R0"),
        (Instr::Or(OR::new(REG1, REG1)), "OR R1, R1"),
        (Instr::Or(OR::new(REG1, REG2)), "OR R1, R2"),
        (Instr::Or(OR::new(REG1, REG3)), "OR R1, R3"),
        (Instr::Or(OR::new(REG2, REG0)), "OR R2, R0"),
        (Instr::Or(OR::new(REG2, REG1)), "OR R2, R1"),
        (Instr::Or(OR::new(REG2, REG2)), "OR R2, R2"),
        (Instr::Or(OR::new(REG2, REG3)), "OR R2, R3"),
        (Instr::Or(OR::new(REG3, REG0)), "OR R3, R0"),
        (Instr::Or(OR::new(REG3, REG1)), "OR R3, R1"),
        (Instr::Or(OR::new(REG3, REG2)), "OR R3, R2"),
        (Instr::Or(OR::new(REG3, REG3)), "OR R3, R3"),
        // XOR
        (Instr::Xor(XOR::new(REG0, REG0)), "XOR R0, R0"),
        (Instr::Xor(XOR::new(REG0, REG1)), "XOR R0, R1"),
        (Instr::Xor(XOR::new(REG0, REG2)), "XOR R0, R2"),
        (Instr::Xor(XOR::new(REG0, REG3)), "XOR R0, R3"),
        (Instr::Xor(XOR::new(REG1, REG0)), "XOR R1, R0"),
        (Instr::Xor(XOR::new(REG1, REG1)), "XOR R1, R1"),
        (Instr::Xor(XOR::new(REG1, REG2)), "XOR R1, R2"),
        (Instr::Xor(XOR::new(REG1, REG3)), "XOR R1, R3"),
        (Instr::Xor(XOR::new(REG2, REG0)), "XOR R2, R0"),
        (Instr::Xor(XOR::new(REG2, REG1)), "XOR R2, R1"),
        (Instr::Xor(XOR::new(REG2, REG2)), "XOR R2, R2"),
        (Instr::Xor(XOR::new(REG2, REG3)), "XOR R2, R3"),
        (Instr::Xor(XOR::new(REG3, REG0)), "XOR R3, R0"),
        (Instr::Xor(XOR::new(REG3, REG1)), "XOR R3, R1"),
        (Instr::Xor(XOR::new(REG3, REG2)), "XOR R3, R2"),
        (Instr::Xor(XOR::new(REG3, REG3)), "XOR R3, R3"),
        // CMP
        (Instr::Cmp(CMP::new(REG0, REG0)), "CMP R0, R0"),
        (Instr::Cmp(CMP::new(REG0, REG1)), "CMP R0, R1"),
        (Instr::Cmp(CMP::new(REG0, REG2)), "CMP R0, R2"),
        (Instr::Cmp(CMP::new(REG0, REG3)), "CMP R0, R3"),
        (Instr::Cmp(CMP::new(REG1, REG0)), "CMP R1, R0"),
        (Instr::Cmp(CMP::new(REG1, REG1)), "CMP R1, R1"),
        (Instr::Cmp(CMP::new(REG1, REG2)), "CMP R1, R2"),
        (Instr::Cmp(CMP::new(REG1, REG3)), "CMP R1, R3"),
        (Instr::Cmp(CMP::new(REG2, REG0)), "CMP R2, R0"),
        (Instr::Cmp(CMP::new(REG2, REG1)), "CMP R2, R1"),
        (Instr::Cmp(CMP::new(REG2, REG2)), "CMP R2, R2"),
        (Instr::Cmp(CMP::new(REG2, REG3)), "CMP R2, R3"),
        (Instr::Cmp(CMP::new(REG3, REG0)), "CMP R3, R0"),
        (Instr::Cmp(CMP::new(REG3, REG1)), "CMP R3, R1"),
        (Instr::Cmp(CMP::new(REG3, REG2)), "CMP R3, R2"),
        (Instr::Cmp(CMP::new(REG3, REG3)), "CMP R3, R3"),
    ];

    for i in instructions {
        assert_eq!(i.0.string(), i.1);
    }
}

#[test]
fn test_instruction_two_reg() {
    let instructions: Vec<(Instr, u16)> = vec![
        // LOAD
        (Instr::Load(LOAD::new(REG0, REG0)), 0x0000),
        (Instr::Load(LOAD::new(REG0, REG1)), 0x0001),
        (Instr::Load(LOAD::new(REG0, REG2)), 0x0002),
        (Instr::Load(LOAD::new(REG0, REG3)), 0x0003),
        (Instr::Load(LOAD::new(REG1, REG0)), 0x0004),
        (Instr::Load(LOAD::new(REG1, REG1)), 0x0005),
        (Instr::Load(LOAD::new(REG1, REG2)), 0x0006),
        (Instr::Load(LOAD::new(REG1, REG3)), 0x0007),
        (Instr::Load(LOAD::new(REG2, REG0)), 0x0008),
        (Instr::Load(LOAD::new(REG2, REG1)), 0x0009),
        (Instr::Load(LOAD::new(REG2, REG2)), 0x000A),
        (Instr::Load(LOAD::new(REG2, REG3)), 0x000B),
        (Instr::Load(LOAD::new(REG3, REG0)), 0x000C),
        (Instr::Load(LOAD::new(REG3, REG1)), 0x000D),
        (Instr::Load(LOAD::new(REG3, REG2)), 0x000E),
        (Instr::Load(LOAD::new(REG3, REG3)), 0x000F),
        // STORE
        (Instr::Store(STORE::new(REG0, REG0)), 0x0010),
        (Instr::Store(STORE::new(REG0, REG1)), 0x0011),
        (Instr::Store(STORE::new(REG0, REG2)), 0x0012),
        (Instr::Store(STORE::new(REG0, REG3)), 0x0013),
        (Instr::Store(STORE::new(REG1, REG0)), 0x0014),
        (Instr::Store(STORE::new(REG1, REG1)), 0x0015),
        (Instr::Store(STORE::new(REG1, REG2)), 0x0016),
        (Instr::Store(STORE::new(REG1, REG3)), 0x0017),
        (Instr::Store(STORE::new(REG2, REG0)), 0x0018),
        (Instr::Store(STORE::new(REG2, REG1)), 0x0019),
        (Instr::Store(STORE::new(REG2, REG2)), 0x001A),
        (Instr::Store(STORE::new(REG2, REG3)), 0x001B),
        (Instr::Store(STORE::new(REG3, REG0)), 0x001C),
        (Instr::Store(STORE::new(REG3, REG1)), 0x001D),
        (Instr::Store(STORE::new(REG3, REG2)), 0x001E),
        (Instr::Store(STORE::new(REG3, REG3)), 0x001F),
        // ADD
        (Instr::Add(ADD::new(REG0, REG0)), 0x0080),
        (Instr::Add(ADD::new(REG0, REG1)), 0x0081),
        (Instr::Add(ADD::new(REG0, REG2)), 0x0082),
        (Instr::Add(ADD::new(REG0, REG3)), 0x0083),
        (Instr::Add(ADD::new(REG1, REG0)), 0x0084),
        (Instr::Add(ADD::new(REG1, REG1)), 0x0085),
        (Instr::Add(ADD::new(REG1, REG2)), 0x0086),
        (Instr::Add(ADD::new(REG1, REG3)), 0x0087),
        (Instr::Add(ADD::new(REG2, REG0)), 0x0088),
        (Instr::Add(ADD::new(REG2, REG1)), 0x0089),
        (Instr::Add(ADD::new(REG2, REG2)), 0x008A),
        (Instr::Add(ADD::new(REG2, REG3)), 0x008B),
        (Instr::Add(ADD::new(REG3, REG0)), 0x008C),
        (Instr::Add(ADD::new(REG3, REG1)), 0x008D),
        (Instr::Add(ADD::new(REG3, REG2)), 0x008E),
        (Instr::Add(ADD::new(REG3, REG3)), 0x008F),
        // AND
        (Instr::And(AND::new(REG0, REG0)), 0x00C0),
        (Instr::And(AND::new(REG0, REG1)), 0x00C1),
        (Instr::And(AND::new(REG0, REG2)), 0x00C2),
        (Instr::And(AND::new(REG0, REG3)), 0x00C3),
        (Instr::And(AND::new(REG1, REG0)), 0x00C4),
        (Instr::And(AND::new(REG1, REG1)), 0x00C5),
        (Instr::And(AND::new(REG1, REG2)), 0x00C6),
        (Instr::And(AND::new(REG1, REG3)), 0x00C7),
        (Instr::And(AND::new(REG2, REG0)), 0x00C8),
        (Instr::And(AND::new(REG2, REG1)), 0x00C9),
        (Instr::And(AND::new(REG2, REG2)), 0x00CA),
        (Instr::And(AND::new(REG2, REG3)), 0x00CB),
        (Instr::And(AND::new(REG3, REG0)), 0x00CC),
        (Instr::And(AND::new(REG3, REG1)), 0x00CD),
        (Instr::And(AND::new(REG3, REG2)), 0x00CE),
        (Instr::And(AND::new(REG3, REG3)), 0x00CF),
        // OR
        (Instr::Or(OR::new(REG0, REG0)), 0x00D0),
        (Instr::Or(OR::new(REG0, REG1)), 0x00D1),
        (Instr::Or(OR::new(REG0, REG2)), 0x00D2),
        (Instr::Or(OR::new(REG0, REG3)), 0x00D3),
        (Instr::Or(OR::new(REG1, REG0)), 0x00D4),
        (Instr::Or(OR::new(REG1, REG1)), 0x00D5),
        (Instr::Or(OR::new(REG1, REG2)), 0x00D6),
        (Instr::Or(OR::new(REG1, REG3)), 0x00D7),
        (Instr::Or(OR::new(REG2, REG0)), 0x00D8),
        (Instr::Or(OR::new(REG2, REG1)), 0x00D9),
        (Instr::Or(OR::new(REG2, REG2)), 0x00DA),
        (Instr::Or(OR::new(REG2, REG3)), 0x00DB),
        (Instr::Or(OR::new(REG3, REG0)), 0x00DC),
        (Instr::Or(OR::new(REG3, REG1)), 0x00DD),
        (Instr::Or(OR::new(REG3, REG2)), 0x00DE),
        (Instr::Or(OR::new(REG3, REG3)), 0x00DF),
        // XOR
        (Instr::Xor(XOR::new(REG0, REG0)), 0x00E0),
        (Instr::Xor(XOR::new(REG0, REG1)), 0x00E1),
        (Instr::Xor(XOR::new(REG0, REG2)), 0x00E2),
        (Instr::Xor(XOR::new(REG0, REG3)), 0x00E3),
        (Instr::Xor(XOR::new(REG1, REG0)), 0x00E4),
        (Instr::Xor(XOR::new(REG1, REG1)), 0x00E5),
        (Instr::Xor(XOR::new(REG1, REG2)), 0x00E6),
        (Instr::Xor(XOR::new(REG1, REG3)), 0x00E7),
        (Instr::Xor(XOR::new(REG2, REG0)), 0x00E8),
        (Instr::Xor(XOR::new(REG2, REG1)), 0x00E9),
        (Instr::Xor(XOR::new(REG2, REG2)), 0x00EA),
        (Instr::Xor(XOR::new(REG2, REG3)), 0x00EB),
        (Instr::Xor(XOR::new(REG3, REG0)), 0x00EC),
        (Instr::Xor(XOR::new(REG3, REG1)), 0x00ED),
        (Instr::Xor(XOR::new(REG3, REG2)), 0x00EE),
        (Instr::Xor(XOR::new(REG3, REG3)), 0x00EF),
        // CMP
        (Instr::Cmp(CMP::new(REG0, REG0)), 0x00F0),
        (Instr::Cmp(CMP::new(REG0, REG1)), 0x00F1),
        (Instr::Cmp(CMP::new(REG0, REG2)), 0x00F2),
        (Instr::Cmp(CMP::new(REG0, REG3)), 0x00F3),
        (Instr::Cmp(CMP::new(REG1, REG0)), 0x00F4),
        (Instr::Cmp(CMP::new(REG1, REG1)), 0x00F5),
        (Instr::Cmp(CMP::new(REG1, REG2)), 0x00F6),
        (Instr::Cmp(CMP::new(REG1, REG3)), 0x00F7),
        (Instr::Cmp(CMP::new(REG2, REG0)), 0x00F8),
        (Instr::Cmp(CMP::new(REG2, REG1)), 0x00F9),
        (Instr::Cmp(CMP::new(REG2, REG2)), 0x00FA),
        (Instr::Cmp(CMP::new(REG2, REG3)), 0x00FB),
        (Instr::Cmp(CMP::new(REG3, REG0)), 0x00FC),
        (Instr::Cmp(CMP::new(REG3, REG1)), 0x00FD),
        (Instr::Cmp(CMP::new(REG3, REG2)), 0x00FE),
        (Instr::Cmp(CMP::new(REG3, REG3)), 0x00FF),
    ];

    for i in instructions {
        assert_eq!(i.0.emit::<AssemblerResolver>(None).unwrap(), vec![i.1]);
    }
}

#[test]
fn test_instruction_one_reg_string() {
    let instructions: Vec<(Instr, &str)> = vec![
        // JR
        (Instr::Jr(JR::new(REG0)), "JR R0"),
        (Instr::Jr(JR::new(REG1)), "JR R1"),
        (Instr::Jr(JR::new(REG2)), "JR R2"),
        (Instr::Jr(JR::new(REG3)), "JR R3"),
        // NOT
        (Instr::Not(NOT::new(REG0)), "NOT R0"),
        (Instr::Not(NOT::new(REG1)), "NOT R1"),
        (Instr::Not(NOT::new(REG2)), "NOT R2"),
        (Instr::Not(NOT::new(REG3)), "NOT R3"),
        // SHL
        (Instr::Shl(SHL::new(REG0)), "SHL R0"),
        (Instr::Shl(SHL::new(REG1)), "SHL R1"),
        (Instr::Shl(SHL::new(REG2)), "SHL R2"),
        (Instr::Shl(SHL::new(REG3)), "SHL R3"),
        // SHR
        (Instr::Shr(SHR::new(REG0)), "SHR R0"),
        (Instr::Shr(SHR::new(REG1)), "SHR R1"),
        (Instr::Shr(SHR::new(REG2)), "SHR R2"),
        (Instr::Shr(SHR::new(REG3)), "SHR R3"),
    ];

    for i in instructions {
        assert_eq!(i.0.string(), i.1);
    }
}

#[test]
fn test_instruction_one_reg() {
    let instructions: Vec<(Instr, u16)> = vec![
        // JR
        (Instr::Jr(JR::new(REG0)), 0x0030),
        (Instr::Jr(JR::new(REG1)), 0x0031),
        (Instr::Jr(JR::new(REG2)), 0x0032),
        (Instr::Jr(JR::new(REG3)), 0x0033),
        // NOT
        (Instr::Not(NOT::new(REG0)), 0x00B0),
        (Instr::Not(NOT::new(REG1)), 0x00B5),
        (Instr::Not(NOT::new(REG2)), 0x00BA),
        (Instr::Not(NOT::new(REG3)), 0x00BF),
        // SHL
        (Instr::Shl(SHL::new(REG0)), 0x0090),
        (Instr::Shl(SHL::new(REG1)), 0x0095),
        (Instr::Shl(SHL::new(REG2)), 0x009A),
        (Instr::Shl(SHL::new(REG3)), 0x009F),
        // SHR
        (Instr::Shr(SHR::new(REG0)), 0x00A0),
        (Instr::Shr(SHR::new(REG1)), 0x00A5),
        (Instr::Shr(SHR::new(REG2)), 0x00AA),
        (Instr::Shr(SHR::new(REG3)), 0x00AF),
    ];

    for i in instructions {
        assert_eq!(i.0.emit::<AssemblerResolver>(None).unwrap(), vec![i.1]);
    }
}

#[test]
fn test_instruction_data_string() {
    let instructions: Vec<(DATA<Number>, &str)> = vec![
        (DATA::new(REG0, Number::new(0x0001)), "DATA R0, 0x0001"),
        (DATA::new(REG1, Number::new(0x0002)), "DATA R1, 0x0002"),
        (DATA::new(REG2, Number::new(0x0003)), "DATA R2, 0x0003"),
        (DATA::new(REG3, Number::new(0x0004)), "DATA R3, 0x0004"),
    ];
    for i in instructions {
        assert_eq!(i.0.string(), i.1);
    }

    let instructions: Vec<(DATA<Symbol>, &str)> = vec![
        (DATA::new(REG0, Symbol::new("aaa")), "DATA R0, %aaa"),
        (DATA::new(REG1, Symbol::new("bbb")), "DATA R1, %bbb"),
        (DATA::new(REG2, Symbol::new("ccc")), "DATA R2, %ccc"),
        (DATA::new(REG3, Symbol::new("ddd")), "DATA R3, %ddd"),
    ];

    for i in instructions {
        assert_eq!(i.0.string(), i.1);
    }
}

#[test]
fn test_instruction_data() {
    let instructions: Vec<(DATA<Number>, Vec<u16>)> = vec![
        (DATA::new(REG0, Number::new(0x0001)), vec![0x0020, 0x0001]),
        (DATA::new(REG1, Number::new(0x0002)), vec![0x0021, 0x0002]),
        (DATA::new(REG2, Number::new(0x0003)), vec![0x0022, 0x0003]),
        (DATA::new(REG3, Number::new(0x0004)), vec![0x0023, 0x0004]),
    ];
    for i in instructions {
        assert_eq!(i.0.emit::<AssemblerResolver>(None).unwrap(), i.1);
    }

    let instructions: Vec<(DATA<Symbol>, Vec<u16>)> = vec![
        (DATA::new(REG0, Symbol::new("aaa")), vec![0x0020, 0xA000]),
        (DATA::new(REG1, Symbol::new("bbb")), vec![0x0021, 0xB000]),
        (DATA::new(REG2, Symbol::new("ccc")), vec![0x0022, 0xC000]),
        (DATA::new(REG3, Symbol::new("ddd")), vec![0x0023, 0xD000]),
    ];

    

    let mut resolver = AssemblerResolver::new();
    resolver.add_symbol("aaa", 0xA000);
    resolver.add_symbol("bbb", 0xB000);
    resolver.add_symbol("ccc", 0xC000);
    resolver.add_symbol("ddd", 0xD000);

    for i in instructions {
        assert_eq!(i.0.emit(Some(&resolver)).unwrap(), i.1);
    }
}

#[test]
fn test_instruction_io_string() {
    let instructions: Vec<(Instr, &str)> = vec![
        // Data mode
        (Instr::In(IN::new(DATA_MODE, REG0)), "IN Data, R0"),
        (Instr::In(IN::new(DATA_MODE, REG1)), "IN Data, R1"),
        (Instr::In(IN::new(DATA_MODE, REG2)), "IN Data, R2"),
        (Instr::In(IN::new(DATA_MODE, REG3)), "IN Data, R3"),
        (Instr::Out(OUT::new(DATA_MODE, REG0)), "OUT Data, R0"),
        (Instr::Out(OUT::new(DATA_MODE, REG1)), "OUT Data, R1"),
        (Instr::Out(OUT::new(DATA_MODE, REG2)), "OUT Data, R2"),
        (Instr::Out(OUT::new(DATA_MODE, REG3)), "OUT Data, R3"),
        // Address mode
        (Instr::In(IN::new(ADDRESS_MODE, REG0)), "IN Addr, R0"),
        (Instr::In(IN::new(ADDRESS_MODE, REG1)), "IN Addr, R1"),
        (Instr::In(IN::new(ADDRESS_MODE, REG2)), "IN Addr, R2"),
        (Instr::In(IN::new(ADDRESS_MODE, REG3)), "IN Addr, R3"),
        (Instr::Out(OUT::new(ADDRESS_MODE, REG0)), "OUT Addr, R0"),
        (Instr::Out(OUT::new(ADDRESS_MODE, REG1)), "OUT Addr, R1"),
        (Instr::Out(OUT::new(ADDRESS_MODE, REG2)), "OUT Addr, R2"),
        (Instr::Out(OUT::new(ADDRESS_MODE, REG3)), "OUT Addr, R3"),
    ];

    for i in instructions {
        assert_eq!(i.0.string(), i.1);
    }
}

#[test]
fn test_instruction_io() {
    let instructions: Vec<(Instr, u16)> = vec![
        // Data mode
        (Instr::In(IN::new(DATA_MODE, REG0)), 0x0070),
        (Instr::In(IN::new(DATA_MODE, REG1)), 0x0071),
        (Instr::In(IN::new(DATA_MODE, REG2)), 0x0072),
        (Instr::In(IN::new(DATA_MODE, REG3)), 0x0073),
        (Instr::Out(OUT::new(DATA_MODE, REG0)), 0x0078),
        (Instr::Out(OUT::new(DATA_MODE, REG1)), 0x0079),
        (Instr::Out(OUT::new(DATA_MODE, REG2)), 0x007A),
        (Instr::Out(OUT::new(DATA_MODE, REG3)), 0x007B),
        // Address mode
        (Instr::In(IN::new(ADDRESS_MODE, REG0)), 0x0074),
        (Instr::In(IN::new(ADDRESS_MODE, REG1)), 0x0075),
        (Instr::In(IN::new(ADDRESS_MODE, REG2)), 0x0076),
        (Instr::In(IN::new(ADDRESS_MODE, REG3)), 0x0077),
        (Instr::Out(OUT::new(ADDRESS_MODE, REG0)), 0x007C),
        (Instr::Out(OUT::new(ADDRESS_MODE, REG1)), 0x007D),
        (Instr::Out(OUT::new(ADDRESS_MODE, REG2)), 0x007E),
        (Instr::Out(OUT::new(ADDRESS_MODE, REG3)), 0x007F),
    ];

    for i in instructions {
        assert_eq!(i.0.emit::<AssemblerResolver>(None).unwrap(), vec![i.1]);
    }
}

#[test]
fn test_instruction_jmp_string() {
    let instructions: Vec<(JMP, &str)> = vec![
        (JMP::new(Label::new("foo")), "JMP foo"),
        (JMP::new(Label::new("bar")), "JMP bar"),
    ];

    for i in instructions {
        assert_eq!(i.0.string(), i.1);
    }
}

#[test]
fn test_instruction_jmp() {
    let instructions: Vec<(JMP, Vec<u16>)> = vec![
        (JMP::new(Label::new("foo")), vec![0x0040, 0x0001]),
        (JMP::new(Label::new("bar")), vec![0x0040, 0x0002]),
    ];

    

    let mut resolver = AssemblerResolver::new();
    resolver.add_label("foo", 0x0001);
    resolver.add_label("bar", 0x0002);

    for i in instructions {
        assert_eq!(i.0.emit(Some(&resolver)).unwrap(), i.1);
    }
}

#[test]
fn test_instruction_clf_string() {
    let instructions: Vec<(CLF, &str)> = vec![(CLF::new(), "CLF")];

    for i in instructions {
        assert_eq!(i.0.string(), i.1);
    }
}

#[test]
fn test_instruction_clf() {
    let instructions: Vec<(CLF, u16)> = vec![(CLF::new(), 0x0060)];

    for i in instructions {
        assert_eq!(i.0.emit::<AssemblerResolver>(None).unwrap(), vec![i.1]);
    }
}

#[test]
fn test_instruction_call_string() {
    let instructions: Vec<(Instr, &str)> = vec![
        (Instr::Call(CALL::new(Label::new("foo"))), "CALL foo"),
        (Instr::Call(CALL::new(Label::new("bar"))), "CALL bar"),
    ];

    for i in instructions {
        assert_eq!(i.0.string(), i.1);
    }
}

#[test]
fn test_instruction_call() {
    let instructions: Vec<(Instr, Vec<u16>)> = vec![
        (
            Instr::Call(CALL::new(Label::new("foo"))),
            vec![0x0023, 0x1234, 0x0040, 0x0001],
        ),
        (
            Instr::Call(CALL::new(Label::new("bar"))),
            vec![0x0023, 0x1234, 0x0040, 0x0002],
        ),
    ];

    
    

    let mut resolver = AssemblerResolver::new();
    resolver.add_label("foo", 0x0001);
    resolver.add_label("bar", 0x0002);
    resolver.add_symbol("NEXTINSTRUCTION", 0x1234);

    for i in instructions {
        assert_eq!(
            i.0.emit(Some(&resolver))
                .unwrap(),
            i.1
        );
    }
}

#[test]
fn test_instruction_jmp_flag_string() {
    let instructions: Vec<(JMPF, &str)> = vec![
        (
            JMPF::new(vec!["Z".to_string()], Label::new("foo1")),
            "JMPZ foo1",
        ),
        (
            JMPF::new(vec!["E".to_string()], Label::new("foo2")),
            "JMPE foo2",
        ),
        (
            JMPF::new(vec!["E".to_string(), "Z".to_string()], Label::new("foo3")),
            "JMPEZ foo3",
        ),
        (
            JMPF::new(vec!["A".to_string()], Label::new("foo4")),
            "JMPA foo4",
        ),
        (
            JMPF::new(vec!["A".to_string(), "Z".to_string()], Label::new("foo5")),
            "JMPAZ foo5",
        ),
        (
            JMPF::new(vec!["A".to_string(), "E".to_string()], Label::new("foo6")),
            "JMPAE foo6",
        ),
        (
            JMPF::new(
                vec!["A".to_string(), "E".to_string(), "Z".to_string()],
                Label::new("foo7"),
            ),
            "JMPAEZ foo7",
        ),
        (
            JMPF::new(vec!["C".to_string()], Label::new("foo8")),
            "JMPC foo8",
        ),
        (
            JMPF::new(vec!["C".to_string(), "Z".to_string()], Label::new("foo9")),
            "JMPCZ foo9",
        ),
        (
            JMPF::new(vec!["C".to_string(), "E".to_string()], Label::new("fooA")),
            "JMPCE fooA",
        ),
        (
            JMPF::new(
                vec!["C".to_string(), "E".to_string(), "Z".to_string()],
                Label::new("fooB"),
            ),
            "JMPCEZ fooB",
        ),
        (
            JMPF::new(vec!["C".to_string(), "A".to_string()], Label::new("fooC")),
            "JMPCA fooC",
        ),
        (
            JMPF::new(
                vec!["C".to_string(), "A".to_string(), "Z".to_string()],
                Label::new("fooD"),
            ),
            "JMPCAZ fooD",
        ),
        (
            JMPF::new(
                vec!["C".to_string(), "A".to_string(), "E".to_string()],
                Label::new("fooE"),
            ),
            "JMPCAE fooE",
        ),
        (
            JMPF::new(
                vec![
                    "C".to_string(),
                    "A".to_string(),
                    "E".to_string(),
                    "Z".to_string(),
                ],
                Label::new("fooF"),
            ),
            "JMPCAEZ fooF",
        ),
    ];

    for i in instructions {
        assert_eq!(i.0.string(), i.1);
    }
}

#[test]
fn test_instruction_jmp_flag() {
    let instructions: Vec<(JMPF, Vec<u16>)> = vec![
        (
            JMPF::new(vec!["Z".to_string()], Label::new("foo1")),
            vec![0x0051, 0x0001],
        ),
        (
            JMPF::new(vec!["E".to_string()], Label::new("foo2")),
            vec![0x0052, 0x0002],
        ),
        (
            JMPF::new(vec!["E".to_string(), "Z".to_string()], Label::new("foo3")),
            vec![0x0053, 0x0003],
        ),
        (
            JMPF::new(vec!["A".to_string()], Label::new("foo4")),
            vec![0x0054, 0x0004],
        ),
        (
            JMPF::new(vec!["A".to_string(), "Z".to_string()], Label::new("foo5")),
            vec![0x0055, 0x0005],
        ),
        (
            JMPF::new(vec!["A".to_string(), "E".to_string()], Label::new("foo6")),
            vec![0x0056, 0x0006],
        ),
        (
            JMPF::new(
                vec!["A".to_string(), "E".to_string(), "Z".to_string()],
                Label::new("foo7"),
            ),
            vec![0x0057, 0x0007],
        ),
        (
            JMPF::new(vec!["C".to_string()], Label::new("foo8")),
            vec![0x0058, 0x0008],
        ),
        (
            JMPF::new(vec!["C".to_string(), "Z".to_string()], Label::new("foo9")),
            vec![0x0059, 0x0009],
        ),
        (
            JMPF::new(vec!["C".to_string(), "E".to_string()], Label::new("fooA")),
            vec![0x005A, 0x000A],
        ),
        (
            JMPF::new(
                vec!["C".to_string(), "E".to_string(), "Z".to_string()],
                Label::new("fooB"),
            ),
            vec![0x005B, 0x000B],
        ),
        (
            JMPF::new(vec!["C".to_string(), "A".to_string()], Label::new("fooC")),
            vec![0x005C, 0x000C],
        ),
        (
            JMPF::new(
                vec!["C".to_string(), "A".to_string(), "Z".to_string()],
                Label::new("fooD"),
            ),
            vec![0x005D, 0x000D],
        ),
        (
            JMPF::new(
                vec!["C".to_string(), "A".to_string(), "E".to_string()],
                Label::new("fooE"),
            ),
            vec![0x005E, 0x000E],
        ),
        (
            JMPF::new(
                vec![
                    "C".to_string(),
                    "A".to_string(),
                    "E".to_string(),
                    "Z".to_string(),
                ],
                Label::new("fooF"),
            ),
            vec![0x005F, 0x000F],
        ),
    ];

    

    let mut resolver = AssemblerResolver::new();
    resolver.add_label("foo1", 0x0001);
    resolver.add_label("foo2", 0x0002);
    resolver.add_label("foo3", 0x0003);
    resolver.add_label("foo4", 0x0004);
    resolver.add_label("foo5", 0x0005);
    resolver.add_label("foo6", 0x0006);
    resolver.add_label("foo7", 0x0007);
    resolver.add_label("foo8", 0x0008);
    resolver.add_label("foo9", 0x0009);
    resolver.add_label("fooA", 0x000A);
    resolver.add_label("fooB", 0x000B);
    resolver.add_label("fooC", 0x000C);
    resolver.add_label("fooD", 0x000D);
    resolver.add_label("fooE", 0x000E);
    resolver.add_label("fooF", 0x000F);

    for i in instructions {
        assert_eq!(i.0.emit(Some(&resolver)).unwrap(), i.1);
    }
}
