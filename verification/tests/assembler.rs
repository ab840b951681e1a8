use computer_simulator::assembler::{
    get_next_executable_instruction_loc, Assembler, Instr, Label, Number, Register, Symbol, ADD,
    CALL, DATA, DEFLABEL, DEFSYMBOL, JMP, JR,
};

#[test]
fn test_assembler() {}

#[test]
fn assembles_labels_and_symbols() {
    let program = vec![
        Instr::DefSymbol(DEFSYMBOL::new("ONE", 0x0001)),
        Instr::DefLabel(DEFLABEL::new("start")),
        Instr::DataSymbol(DATA::new(Register::REG0, Symbol::new("ONE"))),
        Instr::DataNumber(DATA::new(Register::REG1, Number::new(0x0002))),
        Instr::Add(ADD::new(Register::REG0, Register::REG1)),
        Instr::Jmp(JMP::new(Label::new("start"))),
    ];
    let mut assembler = Assembler::new();
    let words = assembler.process(0x0500, Some(program)).unwrap();
    assert_eq!(words, vec![0x0020, 0x0001, 0x0021, 0x0002, 0x0081, 0x0040, 0x0500]);
}

#[test]
fn call_saves_the_next_instruction() {
    let program = vec![
        Instr::Call(CALL::new(Label::new("routine"))),
        Instr::DefLabel(DEFLABEL::new("routine")),
        Instr::Jr(JR::new(Register::REG3)),
    ];
    let mut assembler = Assembler::new();
    let words = assembler.process(0x1000, Some(program)).unwrap();
    assert_eq!(words, vec![0x0023, 0x1004, 0x0040, 0x1004, 0x0033]);
}

#[test]
fn unknown_label_is_an_error() {
    let program = vec![Instr::Jmp(JMP::new(Label::new("nowhere")))];
    let mut assembler = Assembler::new();
    assert!(assembler.process(0x0500, Some(program)).is_err());
}

#[test]
fn label_defined_twice_is_an_error() {
    let program = vec![
        Instr::DefLabel(DEFLABEL::new("a")),
        Instr::DefLabel(DEFLABEL::new("a")),
    ];
    let mut assembler = Assembler::new();
    assert!(assembler.process(0x0500, Some(program)).is_err());
}

#[test]
fn symbol_defined_twice_is_an_error() {
    let program = vec![
        Instr::DefSymbol(DEFSYMBOL::new("X", 1)),
        Instr::DefSymbol(DEFSYMBOL::new("X", 2)),
    ];
    let mut assembler = Assembler::new();
    assert!(assembler.process(0x0500, Some(program)).is_err());
}

#[test]
fn next_executable_location_skips_definitions() {
    let program = vec![
        Instr::DefLabel(DEFLABEL::new("a")),
        Instr::DataNumber(DATA::new(Register::REG0, Number::new(7))),
        Instr::Jr(JR::new(Register::REG0)),
    ];
    assert_eq!(get_next_executable_instruction_loc(0x0100, 1, &program), 0x0102);
}
