//! The programs: each one is the common code followed by its own `main`.
//!
//! Memory the programs use:
//! 0x0000 - 0x03FF the font;
//! 0x0400 the pen position; 0x0401 the key code register;
//! 0x0500 - 0xFEFD code and data;
//! 0xFEFE - 0xFEFF the jump back to the start of the code;
//! 0xFF00 - 0xFFFF variables of the routines.
use super::common::{
    call_ops, call_routine, common_code_ops, deselect_io, deselect_ops, equal_flag,
    initialise_common_code, pen_position_ops, render_ops, render_string, reset_linex,
    reset_linex_ops, return_ops, select_display_adapter, select_display_ops,
    update_pen_position,
};
use crate::assembler::program::{ops, string_views, Op};
use crate::assembler::{
    Instr, Instructions, IOMode, Label, Number, Register, Symbol, ADD, CLF, CMP, DATA, DEFLABEL,
    JMP, JMPF, JR, LOAD, NOT, OUT, SHL, STORE,
};
use vstd::prelude::*;
use vstd::string::StringExecFns;

verus! {

fn suffixed(prefix: &str, suffix: &str) -> (r: String)
    ensures
        r@ == prefix@ + suffix@,
{
    let mut s = String::from_str(prefix);
    s.append(suffix);
    s
}

fn suffixed_label(prefix: &str, suffix: &str) -> (r: Label)
    ensures
        r.name@ == prefix@ + suffix@,
{
    Label { name: suffixed(prefix, suffix) }
}

fn suffixed_deflabel(prefix: &str, suffix: &str) -> (r: Instr)
    ensures
        r@ == Op::DefLabel(prefix@ + suffix@),
{
    Instr::DefLabel(DEFLABEL { name: suffixed(prefix, suffix) })
}

fn equal_flags() -> (r: Vec<String>)
    ensures
        string_views(r@) == equal_flag(),
{
    let r = vec![String::from_str("E")];
    assert(string_views(r@) =~= equal_flag());
    r
}

/// The `main` of the program that draws every character from the space on.
pub open spec fn ascii_table_ops() -> Seq<Op> {
    seq![
        Op::DefLabel("main"@),
        Op::DataNumber(Register::REG0, 0x0020),
        Op::DataNumber(Register::REG2, 0xFF23),
        Op::Store(Register::REG2, Register::REG0),
        Op::DataSymbol(Register::REG2, "LINEX"@),
        Op::DataNumber(Register::REG1, 0x0000),
        Op::Store(Register::REG2, Register::REG1),
    ] + pen_position_ops(0x00F0) + seq![
        Op::DefLabel("main-loop"@),
        Op::DataNumber(Register::REG2, 0xFF23),
        Op::Load(Register::REG2, Register::REG0),
        Op::DataSymbol(Register::REG1, "ONE"@),
        Op::Add(Register::REG1, Register::REG0),
        Op::DataSymbol(Register::REG2, "KEYCODE-REGISTER"@),
        Op::Store(Register::REG2, Register::REG0),
        Op::DataNumber(Register::REG2, 0xFF23),
        Op::Store(Register::REG2, Register::REG0),
    ] + call_ops("ROUTINE-io-drawFontCharacter"@) + seq![
        Op::DataNumber(Register::REG2, 0xFF23),
        Op::Load(Register::REG2, Register::REG0),
        Op::DataNumber(Register::REG2, 0x007E),
        Op::Cmp(Register::REG0, Register::REG2),
        Op::Jmpf(equal_flag(), "main"@),
        Op::Jmp("main-loop"@),
    ]
}

/// The character table starts its counter at the space and adds one before
/// each character it draws, so the first drawn is `!`; the loop's only test
/// compares the counter with `~`, the last printable character, and only on
/// equality goes back to `main`: every character from `!` to `~` is drawn.
pub proof fn law_ascii_table_range()
    ensures
        ({
            let m = ascii_table_ops();
            let n = m.len() as int;
            &&& m[1] == Op::DataNumber(Register::REG0, ' ' as u16)
            &&& ' ' as u16 + 1 == '!' as u16
            &&& m[13] == Op::DataSymbol(Register::REG1, "ONE"@)
            &&& m[14] == Op::Add(Register::REG1, Register::REG0)
            &&& m[15] == Op::DataSymbol(Register::REG2, "KEYCODE-REGISTER"@)
            &&& m[16] == Op::Store(Register::REG2, Register::REG0)
            &&& m[19] == Op::Call("ROUTINE-io-drawFontCharacter"@)
            &&& m[n - 4] == Op::DataNumber(Register::REG2, '~' as u16)
            &&& m[n - 3] == Op::Cmp(Register::REG0, Register::REG2)
            &&& m[n - 2] == Op::Jmpf(equal_flag(), "main"@)
            &&& m[n - 1] == Op::Jmp("main-loop"@)
            &&& forall|i: int| 0 <= i < n && (#[trigger] m[i] is Cmp) ==> i == n - 3
            &&& forall|i: int| 0 <= i < n && (#[trigger] m[i] is Jmpf) ==> i == n - 2
        }),
        '~' as u16 == 0x007E,
        program_ops("ascii"@) == Some(ascii_table_ops()),
{
    let m = ascii_table_ops();
    assert(m.len() == 26);
}

/// Adds the `main` of the character table program.
pub fn ascii_table(instructions: &mut Instructions)
    ensures
        ops(final(instructions).instructions@) == ops(old(instructions).instructions@)
            + ascii_table_ops(),
{
    let b = vec![
        Instr::DefLabel(DEFLABEL::new("main")),
        Instr::DataNumber(DATA::new(Register::REG0, Number::new(0x0020))),
        Instr::DataNumber(DATA::new(Register::REG2, Number::new(0xFF23))),
        Instr::Store(STORE::new(Register::REG2, Register::REG0)),
        Instr::DataSymbol(DATA::new(Register::REG2, Symbol::new("LINEX"))),
        Instr::DataNumber(DATA::new(Register::REG1, Number::new(0x0000))),
        Instr::Store(STORE::new(Register::REG2, Register::REG1)),
    ];
    instructions.add(b);
    instructions.add(update_pen_position(0x00F0));
    let b = vec![
        Instr::DefLabel(DEFLABEL::new("main-loop")),
        Instr::DataNumber(DATA::new(Register::REG2, Number::new(0xFF23))),
        Instr::Load(LOAD::new(Register::REG2, Register::REG0)),
        Instr::DataSymbol(DATA::new(Register::REG1, Symbol::new("ONE"))),
        Instr::Add(ADD::new(Register::REG1, Register::REG0)),
        Instr::DataSymbol(DATA::new(Register::REG2, Symbol::new("KEYCODE-REGISTER"))),
        Instr::Store(STORE::new(Register::REG2, Register::REG0)),
        Instr::DataNumber(DATA::new(Register::REG2, Number::new(0xFF23))),
        Instr::Store(STORE::new(Register::REG2, Register::REG0)),
    ];
    instructions.add(b);
    instructions.add(call_routine("ROUTINE-io-drawFontCharacter"));
    let b = vec![
        Instr::DataNumber(DATA::new(Register::REG2, Number::new(0xFF23))),
        Instr::Load(LOAD::new(Register::REG2, Register::REG0)),
        Instr::DataNumber(DATA::new(Register::REG2, Number::new(0x007E))),
        Instr::Cmp(CMP::new(Register::REG0, Register::REG2)),
        Instr::Jmpf(JMPF::new(equal_flags(), Label::new("main"))),
        Instr::Jmp(JMP::new(Label::new("main-loop"))),
    ];
    instructions.add(b);
    assert(ops(instructions.instructions@) =~= ops(old(instructions).instructions@)
        + ascii_table_ops());
}

/// The `main` of the program that moves a brush with the arrow keys.
pub open spec fn brush_ops() -> Seq<Op> {
    seq![Op::DefLabel("main"@)] + pen_position_ops(0x00F0) + seq![Op::DefLabel("main-getInput"@)]
        + call_ops("drawBrush"@) + call_ops("ROUTINE-io-pollKeyboard"@) + call_ops("drawBrush"@)
        + seq![Op::Jmp("main-getInput"@)] + draw_brush_ops("drawBrush"@)
}

/// Adds the `main` of the brush program, with its routine.
pub fn brush(instructions: &mut Instructions)
    ensures
        ops(final(instructions).instructions@) == ops(old(instructions).instructions@)
            + brush_ops(),
{
    instructions.add(vec![Instr::DefLabel(DEFLABEL::new("main"))]);
    instructions.add(update_pen_position(0x00F0));
    instructions.add(vec![Instr::DefLabel(DEFLABEL::new("main-getInput"))]);
    instructions.add(call_routine("drawBrush"));
    instructions.add(call_routine("ROUTINE-io-pollKeyboard"));
    instructions.add(call_routine("drawBrush"));
    instructions.add(vec![Instr::Jmp(JMP::new(Label::new("main-getInput")))]);
    instructions.add(routine_draw_brush("drawBrush"));
    assert(ops(instructions.instructions@) =~= ops(old(instructions).instructions@) + brush_ops());
}

/// The `main` of the program that draws each key pressed.
pub open spec fn text_writer_ops() -> Seq<Op> {
    seq![Op::DefLabel("main"@)] + pen_position_ops(0x00F0) + seq![Op::DefLabel("main-getInput"@)]
        + call_ops("ROUTINE-io-pollKeyboard"@) + call_ops("ROUTINE-io-drawFontCharacter"@)
        + seq![Op::Jmp("main-getInput"@)]
}

/// Adds the `main` of the text writer.
pub fn text_writer(instructions: &mut Instructions)
    ensures
        ops(final(instructions).instructions@) == ops(old(instructions).instructions@)
            + text_writer_ops(),
{
    instructions.add(vec![Instr::DefLabel(DEFLABEL::new("main"))]);
    instructions.add(update_pen_position(0x00F0));
    instructions.add(vec![Instr::DefLabel(DEFLABEL::new("main-getInput"))]);
    instructions.add(call_routine("ROUTINE-io-pollKeyboard"));
    instructions.add(call_routine("ROUTINE-io-drawFontCharacter"));
    instructions.add(vec![Instr::Jmp(JMP::new(Label::new("main-getInput")))]);
    assert(ops(instructions.instructions@) =~= ops(old(instructions).instructions@)
        + text_writer_ops());
}

/// The text writer sets the pen position once: its loop starts at the label
/// placed after that setup, polls the keyboard, draws the key, and its last
/// instruction jumps back to that label, so each key is drawn after the one
/// before. Nothing in the loop touches the pen position, and nothing jumps
/// back to `main`.
pub proof fn law_text_writer_loop()
    ensures
        ({
            let m = text_writer_ops();
            &&& m[0] == Op::DefLabel("main"@)
            &&& m[1] == Op::DataSymbol(Register::REG0, "PEN-POSITION-ADDR"@)
            &&& m[2] == Op::DataNumber(Register::REG1, 0x00F0)
            &&& m[3] == Op::Store(Register::REG0, Register::REG1)
            &&& m[4] == Op::DefLabel("main-getInput"@)
            &&& m[5] == Op::Call("ROUTINE-io-pollKeyboard"@)
            &&& m[6] == Op::Call("ROUTINE-io-drawFontCharacter"@)
            &&& m.last() == Op::Jmp("main-getInput"@)
            &&& forall|i: int|
                4 <= i < m.len() ==> !(#[trigger] m[i] is DataSymbol && m[i]->DataSymbol_1
                    == "PEN-POSITION-ADDR"@)
            &&& forall|i: int| 0 <= i < m.len() ==> #[trigger] m[i] != Op::Jmp("main"@)
        }),
        program_ops("text_writer"@) == Some(text_writer_ops()),
{
    let m = text_writer_ops();
    assert(m.len() == 8);
    reveal_strlit("main-getInput");
    reveal_strlit("main");
    reveal_strlit("text_writer");
    reveal_strlit("ascii");
    reveal_strlit("brush");
    reveal_strlit("ROUTINE-io-pollKeyboard");
    reveal_strlit("ROUTINE-io-drawFontCharacter");
    reveal_strlit("PEN-POSITION-ADDR");
    assert("main-getInput"@.len() != "main"@.len());
    assert("text_writer"@.len() != "ascii"@.len());
    assert("text_writer"@.len() != "brush"@.len());
    assert("ROUTINE-io-pollKeyboard"@.len() != "PEN-POSITION-ADDR"@.len());
    assert("ROUTINE-io-drawFontCharacter"@.len() != "PEN-POSITION-ADDR"@.len());
}

/// Thirty dashes.
pub open spec fn dash_line() -> Seq<char> {
    Seq::new(30, |i: int| '-')
}

/// The `main` of the program that writes a few lines about its author.
pub open spec fn me_ops() -> Seq<Op> {
    seq![Op::DefLabel("main"@)] + pen_position_ops(0x00F7) + render_ops("Daniel Harper"@)
        + reset_linex_ops() + pen_position_ops(0x01E0) + render_ops(dash_line()) + reset_linex_ops()
        + pen_position_ops(0x03C1) + render_ops("www.ther.rs"@) + reset_linex_ops()
        + pen_position_ops(0x05A1) + render_ops("@ther"@) + reset_linex_ops() + pen_position_ops(
        0x087C,
    ) + render_ops(":^)"@) + reset_linex_ops() + seq![
        Op::DefLabel("noop"@),
        Op::Clf,
        Op::Jmp("noop"@),
    ]
}

/// Adds the `main` of the program that writes about its author.
pub fn me(instructions: &mut Instructions)
    ensures
        ops(final(instructions).instructions@) == ops(old(instructions).instructions@) + me_ops(),
{
    let dashes = "------------------------------";
    proof {
        reveal_strlit("------------------------------");
        assert(dashes@ =~= dash_line());
    }
    instructions.add(vec![Instr::DefLabel(DEFLABEL::new("main"))]);
    instructions.add(update_pen_position(0x00F7));
    instructions.add(render_string("Daniel Harper"));
    instructions.add(reset_linex());
    instructions.add(update_pen_position(0x01E0));
    instructions.add(render_string(dashes));
    instructions.add(reset_linex());
    instructions.add(update_pen_position(0x03C1));
    instructions.add(render_string("www.ther.rs"));
    instructions.add(reset_linex());
    instructions.add(update_pen_position(0x05A1));
    instructions.add(render_string("@ther"));
    instructions.add(reset_linex());
    instructions.add(update_pen_position(0x087C));
    instructions.add(render_string(":^)"));
    instructions.add(reset_linex());
    let b = vec![
        Instr::DefLabel(DEFLABEL::new("noop")),
        Instr::Clf(CLF::new()),
        Instr::Jmp(JMP::new(Label::new("noop"))),
    ];
    instructions.add(b);
    assert(ops(instructions.instructions@) =~= ops(old(instructions).instructions@) + me_ops());
}

/// The start of the brush routine: save the return address, fetch the pen
/// position, and pick the move that the arrow key asks for.
pub open spec fn brush_prologue_ops(p: Seq<char>) -> Seq<Op> {
    seq![
        Op::DefLabel(p),
        Op::DataSymbol(Register::REG2, "CALL-RETURN-ADDRESS"@),
        Op::Store(Register::REG2, Register::REG3),
        Op::DataSymbol(Register::REG2, "PEN-POSITION-ADDR"@),
        Op::Load(Register::REG2, Register::REG2),
        Op::DataNumber(Register::REG0, 0xFF00),
        Op::DataNumber(Register::REG1, 0x0000),
        Op::Store(Register::REG0, Register::REG1),
        Op::DataSymbol(Register::REG3, "KEYCODE-REGISTER"@),
        Op::Load(Register::REG3, Register::REG3),
        Op::DataNumber(Register::REG1, 0x0107),
        Op::Cmp(Register::REG3, Register::REG1),
        Op::Jmpf(equal_flag(), p + "-left"@),
        Op::DataNumber(Register::REG1, 0x0106),
        Op::Cmp(Register::REG3, Register::REG1),
        Op::Jmpf(equal_flag(), p + "-right"@),
        Op::DataNumber(Register::REG1, 0x0108),
        Op::Cmp(Register::REG3, Register::REG1),
        Op::Jmpf(equal_flag(), p + "down"@),
        Op::DataNumber(Register::REG1, 0x0109),
        Op::Cmp(Register::REG3, Register::REG1),
        Op::Jmpf(equal_flag(), p + "-up"@),
        Op::Jmp(p + "-start"@),
    ]
}

/// The four moves of the brush.
pub open spec fn brush_moves_ops(p: Seq<char>) -> Seq<Op> {
    seq![
        Op::DefLabel(p + "-right"@),
        Op::DataSymbol(Register::REG1, "ONE"@),
        Op::Add(Register::REG1, Register::REG2),
        Op::DataSymbol(Register::REG3, "PEN-POSITION-ADDR"@),
        Op::Store(Register::REG3, Register::REG2),
        Op::Jmp(p + "-start"@),
        Op::DefLabel(p + "-down"@),
        Op::DataNumber(Register::REG1, 0x00F0),
        Op::Add(Register::REG1, Register::REG2),
        Op::DataSymbol(Register::REG3, "PEN-POSITION-ADDR"@),
        Op::Store(Register::REG3, Register::REG2),
        Op::Jmp(p + "-start"@),
        Op::DefLabel(p + "-up"@),
        Op::DataSymbol(Register::REG1, "ONE"@),
        Op::DataNumber(Register::REG1, 0x00F0),
        Op::Not(Register::REG1),
        Op::Add(Register::REG0, Register::REG1),
        Op::Clf,
        Op::Add(Register::REG1, Register::REG2),
        Op::DataSymbol(Register::REG3, "PEN-POSITION-ADDR"@),
        Op::Store(Register::REG3, Register::REG2),
        Op::Jmp(p + "-start"@),
        Op::DefLabel(p + "-left"@),
        Op::DataSymbol(Register::REG0, "ONE"@),
        Op::DataSymbol(Register::REG1, "ONE"@),
        Op::Not(Register::REG1),
        Op::Add(Register::REG0, Register::REG1),
        Op::Clf,
        Op::Add(Register::REG1, Register::REG2),
        Op::DataSymbol(Register::REG3, "PEN-POSITION-ADDR"@),
        Op::Store(Register::REG3, Register::REG2),
        Op::Jmp(p + "-start"@),
        Op::DefLabel(p + "-start"@),
    ]
}

/// The loop that draws the brush: eight lines of the picture at address 0.
pub open spec fn brush_loop_ops(p: Seq<char>) -> Seq<Op> {
    seq![
        Op::DefLabel(p + "-STARTLOOP"@),
        Op::DataNumber(Register::REG3, 0x0000),
        Op::Shl(Register::REG3),
        Op::Shl(Register::REG3),
        Op::Shl(Register::REG3),
        Op::DataNumber(Register::REG0, 0xFF00),
        Op::Load(Register::REG0, Register::REG0),
        Op::Add(Register::REG0, Register::REG3),
        Op::DataSymbol(Register::REG1, "ONE"@),
        Op::Add(Register::REG1, Register::REG0),
        Op::DataNumber(Register::REG1, 0xFF00),
        Op::Store(Register::REG1, Register::REG0),
        Op::Load(Register::REG3, Register::REG0),
        Op::Out(IOMode::DataMode, Register::REG2),
        Op::Out(IOMode::DataMode, Register::REG0),
        Op::DataSymbol(Register::REG1, "LINE-WIDTH"@),
        Op::Add(Register::REG1, Register::REG2),
        Op::DataNumber(Register::REG0, 0xFF00),
        Op::Load(Register::REG0, Register::REG0),
        Op::DataNumber(Register::REG1, 0x0008),
        Op::Cmp(Register::REG0, Register::REG1),
        Op::Jmpf(equal_flag(), p + "-ENDLOOP"@),
        Op::Jmp(p + "-STARTLOOP"@),
        Op::DefLabel(p + "-ENDLOOP"@),
        Op::DefLabel(p + "-deselectIO"@),
    ]
}

/// The routine that moves the brush as the last key says and draws it.
pub open spec fn draw_brush_ops(p: Seq<char>) -> Seq<Op> {
    brush_prologue_ops(p) + brush_moves_ops(p) + select_display_ops(Register::REG3)
        + brush_loop_ops(p) + deselect_ops(Register::REG3) + return_ops()
}

#[verifier::spinoff_prover]
#[verifier::rlimit(100)]
fn routine_draw_brush(label_prefix: &str) -> (r: Vec<Instr>)
    ensures
        ops(r@) == draw_brush_ops(label_prefix@),
{
    let p = label_prefix;
    let font_y_adrr: u16 = 0xFF00;
    let mut instructions = Instructions::new();
    let b = vec![
        Instr::DefLabel(DEFLABEL::new(p)),
        Instr::DataSymbol(DATA::new(Register::REG2, Symbol::new("CALL-RETURN-ADDRESS"))),
        Instr::Store(STORE::new(Register::REG2, Register::REG3)),
        Instr::DataSymbol(DATA::new(Register::REG2, Symbol::new("PEN-POSITION-ADDR"))),
        Instr::Load(LOAD::new(Register::REG2, Register::REG2)),
        Instr::DataNumber(DATA::new(Register::REG0, Number::new(font_y_adrr))),
        Instr::DataNumber(DATA::new(Register::REG1, Number::new(0x0000))),
        Instr::Store(STORE::new(Register::REG0, Register::REG1)),
        Instr::DataSymbol(DATA::new(Register::REG3, Symbol::new("KEYCODE-REGISTER"))),
        Instr::Load(LOAD::new(Register::REG3, Register::REG3)),
        Instr::DataNumber(DATA::new(Register::REG1, Number::new(0x0107))),
        Instr::Cmp(CMP::new(Register::REG3, Register::REG1)),
        Instr::Jmpf(JMPF::new(equal_flags(), suffixed_label(p, "-left"))),
        Instr::DataNumber(DATA::new(Register::REG1, Number::new(0x0106))),
        Instr::Cmp(CMP::new(Register::REG3, Register::REG1)),
        Instr::Jmpf(JMPF::new(equal_flags(), suffixed_label(p, "-right"))),
        Instr::DataNumber(DATA::new(Register::REG1, Number::new(0x0108))),
        Instr::Cmp(CMP::new(Register::REG3, Register::REG1)),
        Instr::Jmpf(JMPF::new(equal_flags(), suffixed_label(p, "down"))),
        Instr::DataNumber(DATA::new(Register::REG1, Number::new(0x0109))),
        Instr::Cmp(CMP::new(Register::REG3, Register::REG1)),
        Instr::Jmpf(JMPF::new(equal_flags(), suffixed_label(p, "-up"))),
        Instr::Jmp(JMP::new(suffixed_label(p, "-start"))),
    ];
    assert(ops(b@) =~= brush_prologue_ops(p@));
    instructions.add(b);
    let b = vec![
        suffixed_deflabel(p, "-right"),
        Instr::DataSymbol(DATA::new(Register::REG1, Symbol::new("ONE"))),
        Instr::Add(ADD::new(Register::REG1, Register::REG2)),
        Instr::DataSymbol(DATA::new(Register::REG3, Symbol::new("PEN-POSITION-ADDR"))),
        Instr::Store(STORE::new(Register::REG3, Register::REG2)),
        Instr::Jmp(JMP::new(suffixed_label(p, "-start"))),
        suffixed_deflabel(p, "-down"),
        Instr::DataNumber(DATA::new(Register::REG1, Number::new(0x00F0))),
        Instr::Add(ADD::new(Register::REG1, Register::REG2)),
        Instr::DataSymbol(DATA::new(Register::REG3, Symbol::new("PEN-POSITION-ADDR"))),
        Instr::Store(STORE::new(Register::REG3, Register::REG2)),
        Instr::Jmp(JMP::new(suffixed_label(p, "-start"))),
        suffixed_deflabel(p, "-up"),
        Instr::DataSymbol(DATA::new(Register::REG1, Symbol::new("ONE"))),
        Instr::DataNumber(DATA::new(Register::REG1, Number::new(0x00F0))),
        Instr::Not(NOT::new(Register::REG1)),
        Instr::Add(ADD::new(Register::REG0, Register::REG1)),
        Instr::Clf(CLF::new()),
        Instr::Add(ADD::new(Register::REG1, Register::REG2)),
        Instr::DataSymbol(DATA::new(Register::REG3, Symbol::new("PEN-POSITION-ADDR"))),
        Instr::Store(STORE::new(Register::REG3, Register::REG2)),
        Instr::Jmp(JMP::new(suffixed_label(p, "-start"))),
        suffixed_deflabel(p, "-left"),
        Instr::DataSymbol(DATA::new(Register::REG0, Symbol::new("ONE"))),
        Instr::DataSymbol(DATA::new(Register::REG1, Symbol::new("ONE"))),
        Instr::Not(NOT::new(Register::REG1)),
        Instr::Add(ADD::new(Register::REG0, Register::REG1)),
        Instr::Clf(CLF::new()),
        Instr::Add(ADD::new(Register::REG1, Register::REG2)),
        Instr::DataSymbol(DATA::new(Register::REG3, Symbol::new("PEN-POSITION-ADDR"))),
        Instr::Store(STORE::new(Register::REG3, Register::REG2)),
        Instr::Jmp(JMP::new(suffixed_label(p, "-start"))),
        suffixed_deflabel(p, "-start"),
    ];
    assert(ops(b@) =~= brush_moves_ops(p@));
    instructions.add(b);
    instructions.add(select_display_adapter(Register::REG3));
    // the pen position stays in register 2 while drawing
    let pen_position_register = Register::REG2;
    let b = vec![
        suffixed_deflabel(p, "-STARTLOOP"),
        Instr::DataNumber(DATA::new(Register::REG3, Number::new(0x0000))),
        Instr::Shl(SHL::new(Register::REG3)),
        Instr::Shl(SHL::new(Register::REG3)),
        Instr::Shl(SHL::new(Register::REG3)),
        Instr::DataNumber(DATA::new(Register::REG0, Number::new(font_y_adrr))),
        Instr::Load(LOAD::new(Register::REG0, Register::REG0)),
        Instr::Add(ADD::new(Register::REG0, Register::REG3)),
        Instr::DataSymbol(DATA::new(Register::REG1, Symbol::new("ONE"))),
        Instr::Add(ADD::new(Register::REG1, Register::REG0)),
        Instr::DataNumber(DATA::new(Register::REG1, Number::new(font_y_adrr))),
        Instr::Store(STORE::new(Register::REG1, Register::REG0)),
        Instr::Load(LOAD::new(Register::REG3, Register::REG0)),
        Instr::Out(OUT::new(IOMode::DataMode, pen_position_register)),
        Instr::Out(OUT::new(IOMode::DataMode, Register::REG0)),
        Instr::DataSymbol(DATA::new(Register::REG1, Symbol::new("LINE-WIDTH"))),
        Instr::Add(ADD::new(Register::REG1, pen_position_register)),
        Instr::DataNumber(DATA::new(Register::REG0, Number::new(font_y_adrr))),
        Instr::Load(LOAD::new(Register::REG0, Register::REG0)),
        Instr::DataNumber(DATA::new(Register::REG1, Number::new(0x0008))),
        Instr::Cmp(CMP::new(Register::REG0, Register::REG1)),
        Instr::Jmpf(JMPF::new(equal_flags(), suffixed_label(p, "-ENDLOOP"))),
        Instr::Jmp(JMP::new(suffixed_label(p, "-STARTLOOP"))),
        suffixed_deflabel(p, "-ENDLOOP"),
        suffixed_deflabel(p, "-deselectIO"),
    ];
    assert(ops(b@) =~= brush_loop_ops(p@));
    instructions.add(b);
    instructions.add(deselect_io(Register::REG3));
    let b = vec![
        Instr::Clf(CLF::new()),
        Instr::DataSymbol(DATA::new(Register::REG3, Symbol::new("CALL-RETURN-ADDRESS"))),
        Instr::Load(LOAD::new(Register::REG3, Register::REG3)),
        Instr::Jr(JR::new(Register::REG3)),
    ];
    assert(ops(b@) =~= return_ops());
    instructions.add(b);
    instructions.get()
}

fn same_text(a: &str, b: &str) -> (r: bool)
    ensures
        r == (a@ == b@),
{
    String::from_str(a) == String::from_str(b)
}

/// The names of the programs.
pub open spec fn program_ops(name: Seq<char>) -> Option<Seq<Op>> {
    if name == "ascii"@ {
        Some(ascii_table_ops())
    } else if name == "brush"@ {
        Some(brush_ops())
    } else if name == "text_writer"@ {
        Some(text_writer_ops())
    } else if name == "me"@ {
        Some(me_ops())
    } else {
        None
    }
}

/// The whole program called `name`: the common code, then its own `main`;
/// `None` for a name that no program has.
pub fn build_program(name: &str) -> (r: Option<Instructions>)
    ensures
        match program_ops(name@) {
            Some(main) => r is Some && ops(r->0.instructions@) == common_code_ops() + main,
            None => r is None,
        },
{
    let mut instructions = Instructions::new();
    instructions.add(initialise_common_code());
    assert(ops(instructions.instructions@) =~= common_code_ops());
    if same_text(name, "ascii") {
        ascii_table(&mut instructions);
    } else if same_text(name, "brush") {
        brush(&mut instructions);
    } else if same_text(name, "text_writer") {
        text_writer(&mut instructions);
    } else if same_text(name, "me") {
        me(&mut instructions);
    } else {
        return None;
    }
    Some(instructions)
}

} // verus!
