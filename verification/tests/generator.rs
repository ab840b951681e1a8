use computer_simulator::assembler::{Assembler, Instr, Instruction, Instructions};
use computer_simulator::generator::common::{
    call_routine, deselect_io, initialise_common_code, render_string, reset_linex,
    select_display_adapter, update_pen_position,
};
use computer_simulator::generator::font::{font_description, FONT_CHARACTERS};
use computer_simulator::generator::programs::build_program;
use computer_simulator::assembler::Register;

fn texts(v: &[Instr]) -> Vec<String> {
    v.iter().map(|i| i.string()).collect()
}

#[test]
fn small_blocks_are_written_as_expected() {
    assert_eq!(texts(&call_routine("foo")), vec!["CALL foo"]);
    assert_eq!(
        texts(&select_display_adapter(Register::REG3)),
        vec!["DATA R3, %DISPLAY-ADAPTER-ADDR", "OUT Addr, R3"]
    );
    assert_eq!(texts(&deselect_io(Register::REG2)), vec!["XOR R2, R2", "OUT Addr, R2"]);
    assert_eq!(
        texts(&update_pen_position(0x00F0)),
        vec!["DATA R0, %PEN-POSITION-ADDR", "DATA R1, 0x00F0", "ST R0, R1"]
    );
    assert_eq!(
        texts(&reset_linex()),
        vec!["DATA R2, %LINEX", "DATA R3, 0x0000", "ST R2, R3"]
    );
}

#[test]
fn render_string_draws_each_character() {
    let r = render_string("Hi");
    assert_eq!(
        texts(&r),
        vec![
            "DATA R0, %KEYCODE-REGISTER",
            "DATA R1, 0x0048",
            "ST R0, R1",
            "CALL ROUTINE-io-drawFontCharacter",
            "DATA R0, %KEYCODE-REGISTER",
            "DATA R1, 0x0069",
            "ST R0, R1",
            "CALL ROUTINE-io-drawFontCharacter",
        ]
    );
}

#[test]
fn font_has_every_listed_character() {
    assert_eq!(FONT_CHARACTERS.len(), 92);
    for c in FONT_CHARACTERS {
        assert!(font_description(c).is_some());
    }
    assert!(font_description('\u{7f}').is_none());
    assert_eq!(
        font_description('A'),
        Some([0x007C, 0x00C6, 0x0082, 0x00FE, 0x0082, 0x0082, 0x0082, 0x0000])
    );
    // the last description given for '0' is the one kept
    assert_eq!(font_description('0'), Some([0xFFFF; 8]));
}

#[test]
fn common_code_starts_with_its_symbols_and_loads_the_font() {
    let code = initialise_common_code();
    let t = texts(&code);
    assert_eq!(t[0], "%LINE-WIDTH = 0x1E");
    assert!(t.contains(&"CALL ROUTINE-init-fontDescriptions".to_string()));
    assert!(t.contains(&"JMP main".to_string()));
    // eight lines of three instructions for each character of the font
    let stores = t.iter().filter(|s| s.as_str() == "ST R0, R1").count();
    assert!(stores >= 92 * 8);
}

#[test]
fn programs_are_found_by_name() {
    assert!(build_program("unknown").is_none());
    for name in ["ascii", "brush", "text_writer", "me"] {
        let program = build_program(name).unwrap();
        let text = program.to_text();
        assert!(text.contains("\nmain\n"), "{}", name);
    }
}

#[test]
fn programs_assemble() {
    for name in ["ascii", "text_writer", "me"] {
        let program: Instructions = build_program(name).unwrap();
        let mut assembler = Assembler::new();
        let words = assembler.process(0x0500, Some(program.get()));
        assert!(words.is_ok(), "{}", name);
        assert!(!words.unwrap().is_empty());
    }
}

#[test]
fn brush_jumps_to_a_label_it_never_defines() {
    let program: Instructions = build_program("brush").unwrap();
    let mut assembler = Assembler::new();
    assert!(assembler.process(0x0500, Some(program.get())).is_err());
}
