//! The routines every program shares: the font, drawing a character,
//! reading the keyboard, and the small pieces the programs are built from.
use super::font::{font_picture, FONT_CHARACTERS, FONT_LINES};
use crate::assembler::program::{ops, string_views, Op};
use crate::assembler::{
    Instr, Instructions, IOMode, Label, Number, Register, Symbol, ADD, AND, CALL, CLF, CMP, DATA,
    DEFLABEL, DEFSYMBOL, IN, JMP, JMPF, JR, LOAD, NOT, OUT, SHL, STORE, XOR,
};
use crate::bits::word_bits;
use crate::io::display::{display_address, SCREEN_WIDTH};
use crate::io::keyboard::keyboard_address;
use vstd::prelude::*;
use vstd::string::StringExecFns;

verus! {

/// `prefix` followed by `suffix`.
fn suffixed(prefix: &str, suffix: &str) -> (r: String)
    ensures
        r@ == prefix@ + suffix@,
{
    let mut s = String::from_str(prefix);
    s.append(suffix);
    s
}

/// The label `prefix` followed by `suffix`.
fn suffixed_label(prefix: &str, suffix: &str) -> (r: Label)
    ensures
        r.name@ == prefix@ + suffix@,
{
    Label { name: suffixed(prefix, suffix) }
}

/// The definition of the label `prefix` followed by `suffix`.
fn suffixed_deflabel(prefix: &str, suffix: &str) -> (r: Instr)
    ensures
        r@ == Op::DefLabel(prefix@ + suffix@),
{
    Instr::DefLabel(DEFLABEL { name: suffixed(prefix, suffix) })
}

/// The flag list of a jump taken when the compared values are equal.
pub open spec fn equal_flag() -> Seq<Seq<char>> {
    seq!["E"@]
}

/// The flag list of a jump taken when the result is zero.
pub open spec fn zero_flag() -> Seq<Seq<char>> {
    seq!["Z"@]
}

fn equal_flags() -> (r: Vec<String>)
    ensures
        string_views(r@) == equal_flag(),
{
    let r = vec![String::from_str("E")];
    assert(string_views(r@) =~= equal_flag());
    r
}

fn zero_flags() -> (r: Vec<String>)
    ensures
        string_views(r@) == zero_flag(),
{
    let r = vec![String::from_str("Z")];
    assert(string_views(r@) =~= zero_flag());
    r
}

/// The instructions that call `routine`.
pub open spec fn call_ops(routine: Seq<char>) -> Seq<Op> {
    seq![Op::Call(routine)]
}

/// A call of the routine with the given label.
pub fn call_routine(routine: &str) -> (r: Vec<Instr>)
    ensures
        ops(r@) == call_ops(routine@),
{
    let r = vec![Instr::Call(CALL::new(Label::new(routine)))];
    assert(ops(r@) =~= call_ops(routine@));
    r
}

/// The instructions that select the display adapter on the I/O bus.
pub open spec fn select_display_ops(reg: Register) -> Seq<Op> {
    seq![Op::DataSymbol(reg, "DISPLAY-ADAPTER-ADDR"@), Op::Out(IOMode::AddressMode, reg)]
}

/// Selects the display adapter, by way of `use_register`.
pub fn select_display_adapter(use_register: Register) -> (r: Vec<Instr>)
    ensures
        ops(r@) == select_display_ops(use_register),
{
    let r = vec![
        Instr::DataSymbol(DATA::new(use_register, Symbol::new("DISPLAY-ADAPTER-ADDR"))),
        Instr::Out(OUT::new(IOMode::AddressMode, use_register)),
    ];
    assert(ops(r@) =~= select_display_ops(use_register));
    r
}

/// The instructions that deselect every device on the I/O bus.
pub open spec fn deselect_ops(reg: Register) -> Seq<Op> {
    seq![Op::Xor(reg, reg), Op::Out(IOMode::AddressMode, reg)]
}

/// Deselects the I/O devices: puts address zero on the I/O bus, by way of
/// `use_register`.
pub fn deselect_io(use_register: Register) -> (r: Vec<Instr>)
    ensures
        ops(r@) == deselect_ops(use_register),
{
    let r = vec![
        Instr::Xor(XOR::new(use_register, use_register)),
        Instr::Out(OUT::new(IOMode::AddressMode, use_register)),
    ];
    assert(ops(r@) =~= deselect_ops(use_register));
    r
}

/// The instructions that store `position` as the pen position.
pub open spec fn pen_position_ops(position: u16) -> Seq<Op> {
    seq![
        Op::DataSymbol(Register::REG0, "PEN-POSITION-ADDR"@),
        Op::DataNumber(Register::REG1, position),
        Op::Store(Register::REG0, Register::REG1),
    ]
}

/// Moves the pen to `position` in display memory.
pub fn update_pen_position(position: u16) -> (r: Vec<Instr>)
    ensures
        ops(r@) == pen_position_ops(position),
{
    let r = vec![
        Instr::DataSymbol(DATA::new(Register::REG0, Symbol::new("PEN-POSITION-ADDR"))),
        Instr::DataNumber(DATA::new(Register::REG1, Number::new(position))),
        Instr::Store(STORE::new(Register::REG0, Register::REG1)),
    ];
    assert(ops(r@) =~= pen_position_ops(position));
    r
}

/// The instructions that put the code of `c` in the key code register.
pub open spec fn keycode_ops(c: char) -> Seq<Op> {
    seq![
        Op::DataSymbol(Register::REG0, "KEYCODE-REGISTER"@),
        Op::DataNumber(Register::REG1, c as u16),
        Op::Store(Register::REG0, Register::REG1),
    ]
}

fn load_char_into_keycode_register(c: char) -> (r: Vec<Instr>)
    ensures
        ops(r@) == keycode_ops(c),
{
    let code: u16 = c as u16;
    let r = vec![
        Instr::DataSymbol(DATA::new(Register::REG0, Symbol::new("KEYCODE-REGISTER"))),
        Instr::DataNumber(DATA::new(Register::REG1, Number::new(code))),
        Instr::Store(STORE::new(Register::REG0, Register::REG1)),
    ];
    assert(ops(r@) =~= keycode_ops(c));
    r
}

/// The instructions that draw each character of `s` in turn.
pub open spec fn render_ops(s: Seq<char>) -> Seq<Op>
    decreases s.len(),
{
    if s.len() == 0 {
        Seq::empty()
    } else {
        render_ops(s.drop_last()) + keycode_ops(s.last()) + call_ops(
            "ROUTINE-io-drawFontCharacter"@,
        )
    }
}

/// Draws the characters of `str`, one after the other, at the pen.
pub fn render_string(str: &str) -> (r: Vec<Instr>)
    ensures
        ops(r@) == render_ops(str@),
{
    let mut instructions = Instructions::new();
    let n = str.unicode_len();
    let mut i: usize = 0;
    while i < n
        invariant
            i <= n,
            n == str@.len(),
            ops(instructions.instructions@) == render_ops(str@.take(i as int)),
        decreases n - i,
    {
        let c = str.get_char(i);
        instructions.add(load_char_into_keycode_register(c));
        instructions.add(call_routine("ROUTINE-io-drawFontCharacter"));
        proof {
            assert(str@.take(i + 1).drop_last() =~= str@.take(i as int));
        }
        i += 1;
    }
    assert(str@.take(n as int) =~= str@);
    instructions.get()
}

/// Rendering a string gives one block of four instructions for each of its
/// characters, whatever they are: block `i` puts the code of the `i`-th
/// character in the key code register and calls the drawing routine.
pub proof fn law_render_blocks(s: Seq<char>)
    ensures
        render_ops(s).len() == 4 * s.len(),
        forall|i: int|
            0 <= i < s.len() ==> {
                &&& #[trigger] render_ops(s)[4 * i] == Op::DataSymbol(
                    Register::REG0,
                    "KEYCODE-REGISTER"@,
                )
                &&& render_ops(s)[4 * i + 1] == Op::DataNumber(Register::REG1, s[i] as u16)
                &&& render_ops(s)[4 * i + 2] == Op::Store(Register::REG0, Register::REG1)
                &&& render_ops(s)[4 * i + 3] == Op::Call("ROUTINE-io-drawFontCharacter"@)
            },
    decreases s.len(),
{
    if s.len() > 0 {
        let t = s.drop_last();
        law_render_blocks(t);
        let n = t.len() as int;
        let r = render_ops(s);
        assert(r == render_ops(t) + keycode_ops(s.last()) + call_ops(
            "ROUTINE-io-drawFontCharacter"@,
        ));
        assert forall|i: int| 0 <= i < s.len() implies {
            &&& #[trigger] r[4 * i] == Op::DataSymbol(Register::REG0, "KEYCODE-REGISTER"@)
            &&& r[4 * i + 1] == Op::DataNumber(Register::REG1, s[i] as u16)
            &&& r[4 * i + 2] == Op::Store(Register::REG0, Register::REG1)
            &&& r[4 * i + 3] == Op::Call("ROUTINE-io-drawFontCharacter"@)
        } by {
            if i < n {
                assert(s[i] == t[i]);
                assert(render_ops(t)[4 * i] == Op::DataSymbol(Register::REG0, "KEYCODE-REGISTER"@));
            } else {
                assert(i == n);
            }
        }
    }
}

/// The instructions that set the line position back to zero.
pub open spec fn reset_linex_ops() -> Seq<Op> {
    seq![
        Op::DataSymbol(Register::REG2, "LINEX"@),
        Op::DataNumber(Register::REG3, 0x0000),
        Op::Store(Register::REG2, Register::REG3),
    ]
}

/// Sets the line position back to zero.
pub fn reset_linex() -> (r: Vec<Instr>)
    ensures
        ops(r@) == reset_linex_ops(),
{
    let mut instructions = Instructions::new();
    let block = vec![
        Instr::DataSymbol(DATA::new(Register::REG2, Symbol::new("LINEX"))),
        Instr::DataNumber(DATA::new(Register::REG3, Number::new(0x0000))),
        Instr::Store(STORE::new(Register::REG2, Register::REG3)),
    ];
    assert(ops(block@) =~= reset_linex_ops());
    instructions.add(block);
    assert(ops(instructions.instructions@) =~= reset_linex_ops());
    instructions.get()
}

/// The instructions that return from a routine to the address it saved.
pub open spec fn return_ops() -> Seq<Op> {
    seq![
        Op::Clf,
        Op::DataSymbol(Register::REG3, "CALL-RETURN-ADDRESS"@),
        Op::Load(Register::REG3, Register::REG3),
        Op::Jr(Register::REG3),
    ]
}

fn return_to_caller() -> (r: Vec<Instr>)
    ensures
        ops(r@) == return_ops(),
{
    let r = vec![
        Instr::Clf(CLF::new()),
        Instr::DataSymbol(DATA::new(Register::REG3, Symbol::new("CALL-RETURN-ADDRESS"))),
        Instr::Load(LOAD::new(Register::REG3, Register::REG3)),
        Instr::Jr(JR::new(Register::REG3)),
    ];
    assert(ops(r@) =~= return_ops());
    r
}

/// The address in memory of line `i` of the picture of `c`.  (The shift
/// takes `3 + i` places, so the pictures of different characters overlap.)
pub open spec fn font_line_address(c: char, i: int) -> u16 {
    ((c as u16) << ((3 + i) as u16)) as u16
}

/// The instructions that store the first `n` lines of a picture of `c`.
pub open spec fn picture_ops(c: char, lines: Seq<u16>, n: int) -> Seq<Op>
    decreases n,
{
    if n <= 0 {
        Seq::empty()
    } else {
        picture_ops(c, lines, n - 1) + seq![
            Op::DataNumber(Register::REG0, font_line_address(c, n - 1)),
            Op::DataNumber(Register::REG1, lines[n - 1]),
            Op::Store(Register::REG0, Register::REG1),
        ]
    }
}

/// The instructions that load the picture of `c` into memory.
pub open spec fn char_font_ops(c: char) -> Seq<Op> {
    match font_picture(c) {
        Some(lines) => picture_ops(c, lines, 8),
        None => Seq::empty(),
    }
}

fn load_font_character_into_font_region(c: char) -> (r: Vec<Instr>)
    requires
        FONT_CHARACTERS@.contains(c),
    ensures
        ops(r@) == char_font_ops(c),
{
    let font_description = match super::font::font_description(c) {
        Some(d) => d,
        None => {
            return Vec::new();
        },
    };
    let mut instructions = Instructions::new();
    let code: u16 = c as u16;
    let mut i: usize = 0;
    while i < 8
        invariant
            i <= 8,
            code == c as u16,
            font_picture(c) == Some(font_description@),
            ops(instructions.instructions@) == picture_ops(c, font_description@, i as int),
        decreases 8 - i,
    {
        let line = font_description[i];
        let shift: u16 = 3 + i as u16;
        let address: u16 = code << shift;
        let block = vec![
            Instr::DataNumber(DATA::new(Register::REG0, Number::new(address))),
            Instr::DataNumber(DATA::new(Register::REG1, Number::new(line))),
            Instr::Store(STORE::new(Register::REG0, Register::REG1)),
        ];
        assert(address == font_line_address(c, i as int));
        assert(ops(block@) =~= seq![
            Op::DataNumber(Register::REG0, font_line_address(c, i as int)),
            Op::DataNumber(Register::REG1, font_description@[i as int]),
            Op::Store(Register::REG0, Register::REG1),
        ]);
        instructions.add(block);
        i += 1;
    }
    instructions.get()
}

/// The instructions that load the pictures of the first `n` characters of
/// the font.
pub open spec fn font_ops(n: int) -> Seq<Op>
    decreases n,
{
    if n <= 0 {
        Seq::empty()
    } else {
        font_ops(n - 1) + char_font_ops(FONT_CHARACTERS@[n - 1])
    }
}

/// The routine that loads the whole font into memory.
pub open spec fn load_font_routine_ops(label: Seq<char>) -> Seq<Op> {
    seq![Op::DefLabel(label)] + font_ops(92) + seq![Op::Jr(Register::REG3)]
}

fn routine_load_font_descriptions(lable: &str) -> (r: Vec<Instr>)
    ensures
        ops(r@) == load_font_routine_ops(lable@),
{
    let mut instructions = Instructions::new();
    let first = vec![Instr::DefLabel(DEFLABEL::new(lable))];
    assert(ops(first@) =~= seq![Op::DefLabel(lable@)]);
    instructions.add(first);
    let mut k: usize = 0;
    while k < 92
        invariant
            k <= 92,
            ops(instructions.instructions@) == seq![Op::DefLabel(lable@)] + font_ops(k as int),
        decreases 92 - k,
    {
        let c = FONT_CHARACTERS[k];
        assert(FONT_CHARACTERS@.contains(c)) by {
            assert(FONT_CHARACTERS@[k as int] == c);
        }
        instructions.add(load_font_character_into_font_region(c));
        proof {
            assert(font_ops(k + 1) == font_ops(k as int) + char_font_ops(FONT_CHARACTERS@[k as int]));
        }
        k += 1;
    }
    let last = vec![Instr::Jr(JR::new(Register::REG3))];
    assert(ops(last@) =~= seq![Op::Jr(Register::REG3)]);
    instructions.add(last);
    instructions.get()
}

/// The start of the routine that draws a character: save the return
/// address, fetch the pen position, reset the line counter, and treat the
/// enter key apart.
pub open spec fn draw_prologue_ops(p: Seq<char>) -> Seq<Op> {
    seq![
        Op::DefLabel(p),
        Op::DataSymbol(Register::REG2, "CALL-RETURN-ADDRESS"@),
        Op::Store(Register::REG2, Register::REG3),
        Op::DataSymbol(Register::REG2, "PEN-POSITION-ADDR"@),
        Op::Load(Register::REG2, Register::REG2),
        Op::DataNumber(Register::REG0, 0xFF00),
        Op::DataNumber(Register::REG1, 0x0000),
        Op::Store(Register::REG0, Register::REG1),
        Op::DataSymbol(Register::REG3, "KEYCODE-REGISTER"@),
        Op::Load(Register::REG3, Register::REG3),
        Op::DataNumber(Register::REG1, 0x0101),
        Op::Cmp(Register::REG3, Register::REG1),
        Op::Jmpf(equal_flag(), p + "-carriage-return"@),
    ]
}

/// The loop that copies the eight lines of the picture to display memory.
pub open spec fn draw_loop_ops(p: Seq<char>) -> Seq<Op> {
    seq![
        Op::DefLabel(p + "-STARTLOOP"@),
        Op::DataSymbol(Register::REG3, "KEYCODE-REGISTER"@),
        Op::Load(Register::REG3, Register::REG3),
        Op::Shl(Register::REG3),
        Op::Shl(Register::REG3),
        Op::Shl(Register::REG3),
        Op::DataNumber(Register::REG0, 0xFF00),
        Op::Load(Register::REG0, Register::REG0),
        Op::Add(Register::REG0, Register::REG3),
        Op::DataSymbol(Register::REG1, "ONE"@),
        Op::Add(Register::REG1, Register::REG0),
        Op::DataNumber(Register::REG1, 0xFF00),
        Op::Store(Register::REG1, Register::REG0),
        Op::Load(Register::REG3, Register::REG0),
        Op::Out(IOMode::DataMode, Register::REG2),
        Op::Out(IOMode::DataMode, Register::REG0),
        Op::DataSymbol(Register::REG1, "LINE-WIDTH"@),
        Op::Add(Register::REG1, Register::REG2),
        Op::DataNumber(Register::REG0, 0xFF00),
        Op::Load(Register::REG0, Register::REG0),
        Op::DataNumber(Register::REG1, 0x0007),
        Op::Cmp(Register::REG0, Register::REG1),
        Op::Jmpf(equal_flag(), p + "-ENDLOOP"@),
        Op::Jmp(p + "-STARTLOOP"@),
    ]
}

/// After the picture: move along the line, or to the next line at its end.
pub open spec fn draw_advance_ops(p: Seq<char>) -> Seq<Op> {
    seq![
        Op::DefLabel(p + "-ENDLOOP"@),
        Op::DataSymbol(Register::REG1, "LINEX"@),
        Op::Load(Register::REG1, Register::REG1),
        Op::DataSymbol(Register::REG2, "ONE"@),
        Op::Add(Register::REG2, Register::REG1),
        Op::DataSymbol(Register::REG2, "LINEX"@),
        Op::Store(Register::REG2, Register::REG1),
        Op::DataSymbol(Register::REG0, "PEN-POSITION-ADDR"@),
        Op::Load(Register::REG0, Register::REG0),
        Op::DataNumber(Register::REG3, 0x001E),
        Op::Cmp(Register::REG1, Register::REG3),
        Op::Jmpf(equal_flag(), p + "-carriage-return"@),
        Op::Jmp(p + "-increment-cursor"@),
        Op::DefLabel(p + "-increment-cursor"@),
        Op::DataSymbol(Register::REG1, "ONE"@),
        Op::Add(Register::REG1, Register::REG0),
        Op::DataSymbol(Register::REG1, "PEN-POSITION-ADDR"@),
        Op::Store(Register::REG1, Register::REG0),
        Op::Jmp(p + "-deselectIO"@),
    ]
}

/// The carriage return: where the pen goes depends on the line position.
pub open spec fn draw_return_ops(p: Seq<char>) -> Seq<Op> {
    seq![
        Op::DefLabel(p + "-carriage-return"@),
        Op::DataSymbol(Register::REG1, "LINEX"@),
        Op::Load(Register::REG1, Register::REG1),
        Op::DataNumber(Register::REG2, 0x0000),
        Op::DataNumber(Register::REG3, 0x00F0),
        Op::Cmp(Register::REG1, Register::REG2),
        Op::Jmpf(equal_flag(), p + "-reposition-pen"@),
        Op::DataSymbol(Register::REG2, "ONE"@),
        Op::DataNumber(Register::REG3, 0x00EF),
        Op::Cmp(Register::REG1, Register::REG2),
        Op::Jmpf(equal_flag(), p + "-reposition-pen"@),
        Op::DataSymbol(Register::REG2, "LINE-WIDTH"@),
        Op::DataNumber(Register::REG3, 0x00F1),
        Op::Cmp(Register::REG1, Register::REG2),
        Op::Jmpf(equal_flag(), p + "-reposition-pen"@),
    ]
}

/// Moving the pen down from the middle of a line.
pub open spec fn draw_midline_ops(p: Seq<char>) -> Seq<Op> {
    seq![
        Op::DefLabel(p + "-reposition-pen-when-midline"@),
        Op::DataSymbol(Register::REG2, "ONE"@),
        Op::DataNumber(Register::REG0, 0x00EF),
        Op::Not(Register::REG1),
        Op::Add(Register::REG2, Register::REG1),
        Op::Clf,
        Op::Add(Register::REG0, Register::REG1),
        Op::DataSymbol(Register::REG0, "PEN-POSITION-ADDR"@),
        Op::Load(Register::REG0, Register::REG0),
        Op::Add(Register::REG1, Register::REG0),
        Op::DataSymbol(Register::REG1, "PEN-POSITION-ADDR"@),
        Op::Store(Register::REG1, Register::REG0),
        Op::Jmp(p + "-resetlinex"@),
    ]
}

/// Moving the pen by the amount in register 3, then starting a new line.
pub open spec fn draw_reposition_ops(p: Seq<char>) -> Seq<Op> {
    seq![
        Op::DefLabel(p + "-reposition-pen"@),
        Op::DataSymbol(Register::REG0, "PEN-POSITION-ADDR"@),
        Op::Load(Register::REG0, Register::REG0),
        Op::Add(Register::REG3, Register::REG0),
        Op::DataSymbol(Register::REG1, "PEN-POSITION-ADDR"@),
        Op::Store(Register::REG1, Register::REG0),
        Op::Jmp(p + "-resetlinex"@),
        Op::DefLabel(p + "-resetlinex"@),
        Op::DataSymbol(Register::REG2, "LINEX"@),
        Op::DataNumber(Register::REG3, 0x0000),
        Op::Store(Register::REG2, Register::REG3),
        Op::Jmp(p + "-deselectIO"@),
        Op::DefLabel(p + "-deselectIO"@),
    ]
}

/// The routine that draws the character in the key code register at the
/// pen, and moves the pen on.
pub open spec fn draw_font_character_ops(p: Seq<char>) -> Seq<Op> {
    draw_prologue_ops(p) + select_display_ops(Register::REG3) + draw_loop_ops(p)
        + draw_advance_ops(p) + draw_return_ops(p) + draw_midline_ops(p) + draw_reposition_ops(p)
        + deselect_ops(Register::REG3) + return_ops()
}

/// The drawing routine moves to a new line once the line position, counted
/// up by one after each character, reaches the width of a line in
/// characters: the screen's width over the eight pixels of a character,
/// which is also the value of the `LINE-WIDTH` symbol.
pub proof fn law_draw_line_width(p: Seq<char>)
    ensures
        ({
            let o = draw_font_character_ops(p);
            &&& o[40] == Op::DataSymbol(Register::REG1, "LINEX"@)
            &&& o[41] == Op::Load(Register::REG1, Register::REG1)
            &&& o[42] == Op::DataSymbol(Register::REG2, "ONE"@)
            &&& o[43] == Op::Add(Register::REG2, Register::REG1)
            &&& o[45] == Op::Store(Register::REG2, Register::REG1)
            &&& o[48] == Op::DataNumber(Register::REG3, (SCREEN_WIDTH / 8) as u16)
            &&& o[49] == Op::Cmp(Register::REG1, Register::REG3)
            &&& o[50] == Op::Jmpf(equal_flag(), p + "-carriage-return"@)
            &&& forall|i: int|
                44 <= i < 48 ==> !(#[trigger] o[i] is Load && o[i]->Load_1 == Register::REG1)
        }),
        common_symbol_ops().contains(Op::DefSymbol("LINE-WIDTH"@, (SCREEN_WIDTH / 8) as u16)),
        SCREEN_WIDTH / 8 == 30,
{
    let o = draw_font_character_ops(p);
    let a = draw_prologue_ops(p) + select_display_ops(Register::REG3) + draw_loop_ops(p);
    assert(a.len() == 39);
    let d = draw_advance_ops(p);
    assert forall|i: int| 0 <= i < d.len() implies #[trigger] o[39 + i] == d[i] by {
        assert(o == (((((a + d) + draw_return_ops(p)) + draw_midline_ops(p)) + draw_reposition_ops(
            p,
        )) + deselect_ops(Register::REG3)) + return_ops());
    }
    assert(o[40] == d[1]);
    assert(o[41] == d[2]);
    assert(o[42] == d[3]);
    assert(o[43] == d[4]);
    assert(o[44] == d[5]);
    assert(o[45] == d[6]);
    assert(o[46] == d[7]);
    assert(o[47] == d[8]);
    assert(o[48] == d[9]);
    assert(o[49] == d[10]);
    assert(o[50] == d[11]);
    assert(common_symbol_ops()[0] == Op::DefSymbol("LINE-WIDTH"@, (SCREEN_WIDTH / 8) as u16));
}

#[verifier::spinoff_prover]
#[verifier::rlimit(100)]
fn routine_draw_font_character(label_prefix: &str) -> (r: Vec<Instr>)
    ensures
        ops(r@) == draw_font_character_ops(label_prefix@),
{
    let p = label_prefix;
    let font_y_addr: u16 = 0xFF00;
    let mut instructions = Instructions::new();
    let b = vec![
        Instr::DefLabel(DEFLABEL::new(p)),
        Instr::DataSymbol(DATA::new(Register::REG2, Symbol::new("CALL-RETURN-ADDRESS"))),
        Instr::Store(STORE::new(Register::REG2, Register::REG3)),
        Instr::DataSymbol(DATA::new(Register::REG2, Symbol::new("PEN-POSITION-ADDR"))),
        Instr::Load(LOAD::new(Register::REG2, Register::REG2)),
        Instr::DataNumber(DATA::new(Register::REG0, Number::new(font_y_addr))),
        Instr::DataNumber(DATA::new(Register::REG1, Number::new(0x0000))),
        Instr::Store(STORE::new(Register::REG0, Register::REG1)),
        Instr::DataSymbol(DATA::new(Register::REG3, Symbol::new("KEYCODE-REGISTER"))),
        Instr::Load(LOAD::new(Register::REG3, Register::REG3)),
        Instr::DataNumber(DATA::new(Register::REG1, Number::new(0x0101))),
        Instr::Cmp(CMP::new(Register::REG3, Register::REG1)),
        Instr::Jmpf(JMPF::new(equal_flags(), suffixed_label(p, "-carriage-return"))),
    ];
    assert(ops(b@) =~= draw_prologue_ops(p@));
    instructions.add(b);
    instructions.add(select_display_adapter(Register::REG3));
    // we keep the pen position in register 2 while drawing
    let pen_position_register = Register::REG2;
    let b = vec![
        suffixed_deflabel(p, "-STARTLOOP"),
        Instr::DataSymbol(DATA::new(Register::REG3, Symbol::new("KEYCODE-REGISTER"))),
        Instr::Load(LOAD::new(Register::REG3, Register::REG3)),
        Instr::Shl(SHL::new(Register::REG3)),
        Instr::Shl(SHL::new(Register::REG3)),
        Instr::Shl(SHL::new(Register::REG3)),
        Instr::DataNumber(DATA::new(Register::REG0, Number::new(font_y_addr))),
        Instr::Load(LOAD::new(Register::REG0, Register::REG0)),
        Instr::Add(ADD::new(Register::REG0, Register::REG3)),
        Instr::DataSymbol(DATA::new(Register::REG1, Symbol::new("ONE"))),
        Instr::Add(ADD::new(Register::REG1, Register::REG0)),
        Instr::DataNumber(DATA::new(Register::REG1, Number::new(font_y_addr))),
        Instr::Store(STORE::new(Register::REG1, Register::REG0)),
        Instr::Load(LOAD::new(Register::REG3, Register::REG0)),
        Instr::Out(OUT::new(IOMode::DataMode, pen_position_register)),
        Instr::Out(OUT::new(IOMode::DataMode, Register::REG0)),
        Instr::DataSymbol(DATA::new(Register::REG1, Symbol::new("LINE-WIDTH"))),
        Instr::Add(ADD::new(Register::REG1, pen_position_register)),
        Instr::DataNumber(DATA::new(Register::REG0, Number::new(font_y_addr))),
        Instr::Load(LOAD::new(Register::REG0, Register::REG0)),
        Instr::DataNumber(DATA::new(Register::REG1, Number::new(0x0007))),
        Instr::Cmp(CMP::new(Register::REG0, Register::REG1)),
        Instr::Jmpf(JMPF::new(equal_flags(), suffixed_label(p, "-ENDLOOP"))),
        Instr::Jmp(JMP::new(suffixed_label(p, "-STARTLOOP"))),
    ];
    assert(ops(b@) =~= draw_loop_ops(p@));
    instructions.add(b);
    let b = vec![
        suffixed_deflabel(p, "-ENDLOOP"),
        Instr::DataSymbol(DATA::new(Register::REG1, Symbol::new("LINEX"))),
        Instr::Load(LOAD::new(Register::REG1, Register::REG1)),
        Instr::DataSymbol(DATA::new(Register::REG2, Symbol::new("ONE"))),
        Instr::Add(ADD::new(Register::REG2, Register::REG1)),
        Instr::DataSymbol(DATA::new(Register::REG2, Symbol::new("LINEX"))),
        Instr::Store(STORE::new(Register::REG2, Register::REG1)),
        Instr::DataSymbol(DATA::new(Register::REG0, Symbol::new("PEN-POSITION-ADDR"))),
        Instr::Load(LOAD::new(Register::REG0, Register::REG0)),
        Instr::DataNumber(DATA::new(Register::REG3, Number::new(0x001E))),
        Instr::Cmp(CMP::new(Register::REG1, Register::REG3)),
        Instr::Jmpf(JMPF::new(equal_flags(), suffixed_label(p, "-carriage-return"))),
        Instr::Jmp(JMP::new(suffixed_label(p, "-increment-cursor"))),
        suffixed_deflabel(p, "-increment-cursor"),
        Instr::DataSymbol(DATA::new(Register::REG1, Symbol::new("ONE"))),
        Instr::Add(ADD::new(Register::REG1, Register::REG0)),
        Instr::DataSymbol(DATA::new(Register::REG1, Symbol::new("PEN-POSITION-ADDR"))),
        Instr::Store(STORE::new(Register::REG1, Register::REG0)),
        Instr::Jmp(JMP::new(suffixed_label(p, "-deselectIO"))),
    ];
    assert(ops(b@) =~= draw_advance_ops(p@));
    instructions.add(b);
    // when the enter key is hit, or the line is full, start a new line
    let b = vec![
        suffixed_deflabel(p, "-carriage-return"),
        Instr::DataSymbol(DATA::new(Register::REG1, Symbol::new("LINEX"))),
        Instr::Load(LOAD::new(Register::REG1, Register::REG1)),
        Instr::DataNumber(DATA::new(Register::REG2, Number::new(0x0000))),
        Instr::DataNumber(DATA::new(Register::REG3, Number::new(0x00F0))),
        Instr::Cmp(CMP::new(Register::REG1, Register::REG2)),
        Instr::Jmpf(JMPF::new(equal_flags(), suffixed_label(p, "-reposition-pen"))),
        Instr::DataSymbol(DATA::new(Register::REG2, Symbol::new("ONE"))),
        Instr::DataNumber(DATA::new(Register::REG3, Number::new(0x00EF))),
        Instr::Cmp(CMP::new(Register::REG1, Register::REG2)),
        Instr::Jmpf(JMPF::new(equal_flags(), suffixed_label(p, "-reposition-pen"))),
        Instr::DataSymbol(DATA::new(Register::REG2, Symbol::new("LINE-WIDTH"))),
        Instr::DataNumber(DATA::new(Register::REG3, Number::new(0x00F1))),
        Instr::Cmp(CMP::new(Register::REG1, Register::REG2)),
        Instr::Jmpf(JMPF::new(equal_flags(), suffixed_label(p, "-reposition-pen"))),
    ];
    assert(ops(b@) =~= draw_return_ops(p@));
    instructions.add(b);
    let b = vec![
        suffixed_deflabel(p, "-reposition-pen-when-midline"),
        Instr::DataSymbol(DATA::new(Register::REG2, Symbol::new("ONE"))),
        Instr::DataNumber(DATA::new(Register::REG0, Number::new(0x00EF))),
        Instr::Not(NOT::new(Register::REG1)),
        Instr::Add(ADD::new(Register::REG2, Register::REG1)),
        Instr::Clf(CLF::new()),
        Instr::Add(ADD::new(Register::REG0, Register::REG1)),
        Instr::DataSymbol(DATA::new(Register::REG0, Symbol::new("PEN-POSITION-ADDR"))),
        Instr::Load(LOAD::new(Register::REG0, Register::REG0)),
        Instr::Add(ADD::new(Register::REG1, Register::REG0)),
        Instr::DataSymbol(DATA::new(Register::REG1, Symbol::new("PEN-POSITION-ADDR"))),
        Instr::Store(STORE::new(Register::REG1, Register::REG0)),
        Instr::Jmp(JMP::new(suffixed_label(p, "-resetlinex"))),
    ];
    assert(ops(b@) =~= draw_midline_ops(p@));
    instructions.add(b);
    let b = vec![
        suffixed_deflabel(p, "-reposition-pen"),
        Instr::DataSymbol(DATA::new(Register::REG0, Symbol::new("PEN-POSITION-ADDR"))),
        Instr::Load(LOAD::new(Register::REG0, Register::REG0)),
        Instr::Add(ADD::new(Register::REG3, Register::REG0)),
        Instr::DataSymbol(DATA::new(Register::REG1, Symbol::new("PEN-POSITION-ADDR"))),
        Instr::Store(STORE::new(Register::REG1, Register::REG0)),
        Instr::Jmp(JMP::new(suffixed_label(p, "-resetlinex"))),
        suffixed_deflabel(p, "-resetlinex"),
        Instr::DataSymbol(DATA::new(Register::REG2, Symbol::new("LINEX"))),
        Instr::DataNumber(DATA::new(Register::REG3, Number::new(0x0000))),
        Instr::Store(STORE::new(Register::REG2, Register::REG3)),
        Instr::Jmp(JMP::new(suffixed_label(p, "-deselectIO"))),
        suffixed_deflabel(p, "-deselectIO"),
    ];
    assert(ops(b@) =~= draw_reposition_ops(p@));
    instructions.add(b);
    instructions.add(deselect_io(Register::REG3));
    instructions.add(return_to_caller());
    instructions.get()
}

/// The routine that waits for a key and puts its code in the key code
/// register.
pub open spec fn poll_keyboard_ops(p: Seq<char>) -> Seq<Op> {
    seq![
        Op::DefLabel(p),
        Op::DataSymbol(Register::REG2, "CALL-RETURN-ADDRESS"@),
        Op::Store(Register::REG2, Register::REG3),
        Op::DataNumber(Register::REG2, 0x000F),
        Op::Out(IOMode::AddressMode, Register::REG2),
        Op::DefLabel(p + "-STARTLOOP"@),
        Op::In(IOMode::DataMode, Register::REG3),
        Op::And(Register::REG3, Register::REG3),
        Op::Jmpf(zero_flag(), p + "-STARTLOOP"@),
        Op::DefLabel(p + "-ENDLOOP"@),
        Op::DataSymbol(Register::REG0, "KEYCODE-REGISTER"@),
        Op::Store(Register::REG0, Register::REG3),
        Op::Xor(Register::REG2, Register::REG2),
        Op::Out(IOMode::AddressMode, Register::REG2),
    ] + return_ops()
}

fn routine_poll_keyboard(label_prefix: &str) -> (r: Vec<Instr>)
    ensures
        ops(r@) == poll_keyboard_ops(label_prefix@),
{
    let p = label_prefix;
    let mut instructions = Instructions::new();
    let b = vec![
        Instr::DefLabel(DEFLABEL::new(p)),
        Instr::DataSymbol(DATA::new(Register::REG2, Symbol::new("CALL-RETURN-ADDRESS"))),
        Instr::Store(STORE::new(Register::REG2, Register::REG3)),
        Instr::DataNumber(DATA::new(Register::REG2, Number::new(0x000F))),
        Instr::Out(OUT::new(IOMode::AddressMode, Register::REG2)),
        suffixed_deflabel(p, "-STARTLOOP"),
        Instr::In(IN::new(IOMode::DataMode, Register::REG3)),
        Instr::And(AND::new(Register::REG3, Register::REG3)),
        Instr::Jmpf(JMPF::new(zero_flags(), suffixed_label(p, "-STARTLOOP"))),
        suffixed_deflabel(p, "-ENDLOOP"),
        Instr::DataSymbol(DATA::new(Register::REG0, Symbol::new("KEYCODE-REGISTER"))),
        Instr::Store(STORE::new(Register::REG0, Register::REG3)),
        Instr::Xor(XOR::new(Register::REG2, Register::REG2)),
        Instr::Out(OUT::new(IOMode::AddressMode, Register::REG2)),
    ];
    instructions.add(b);
    instructions.add(return_to_caller());
    proof {
        assert(ops(instructions.instructions@) =~= poll_keyboard_ops(p@));
    }
    instructions.get()
}

/// The keyboard-polling routine selects the keyboard adapter before it
/// reads: the word it puts on the I/O bus in address mode is the one the
/// keyboard adapter answers to (and the display adapter does not), the
/// value of the `KEY-ADAPTER-ADDR` symbol, and no other address goes out
/// before its `IN Data` instruction.
pub proof fn law_poll_keyboard_selects_keyboard(p: Seq<char>)
    ensures
        ({
            let o = poll_keyboard_ops(p);
            exists|v: u16|
                {
                    &&& o[3] == Op::DataNumber(Register::REG2, v)
                    &&& keyboard_address(word_bits(v))
                    &&& !display_address(word_bits(v))
                    &&& common_symbol_ops().contains(Op::DefSymbol("KEY-ADAPTER-ADDR"@, v))
                }
        }),
        poll_keyboard_ops(p)[4] == Op::Out(IOMode::AddressMode, Register::REG2),
        poll_keyboard_ops(p)[5] == Op::DefLabel(p + "-STARTLOOP"@),
        poll_keyboard_ops(p)[6] == Op::In(IOMode::DataMode, Register::REG3),
        forall|i: int|
            0 <= i < 4 ==> !(#[trigger] poll_keyboard_ops(p)[i] is Out),
{
    let v: u16 = 0x000F;
    assert(word_bits(v)[8] == false) by {
        assert(((v >> 7u16) & 1u16) == 0u16) by (bit_vector)
            requires v == 0x000Fu16;
    }
    assert(word_bits(v)[9] == false) by {
        assert(((v >> 6u16) & 1u16) == 0u16) by (bit_vector)
            requires v == 0x000Fu16;
    }
    assert(word_bits(v)[10] == false) by {
        assert(((v >> 5u16) & 1u16) == 0u16) by (bit_vector)
            requires v == 0x000Fu16;
    }
    assert(word_bits(v)[11] == false) by {
        assert(((v >> 4u16) & 1u16) == 0u16) by (bit_vector)
            requires v == 0x000Fu16;
    }
    assert(word_bits(v)[12] == true) by {
        assert(((v >> 3u16) & 1u16) == 1u16) by (bit_vector)
            requires v == 0x000Fu16;
    }
    assert(word_bits(v)[13] == true) by {
        assert(((v >> 2u16) & 1u16) == 1u16) by (bit_vector)
            requires v == 0x000Fu16;
    }
    assert(word_bits(v)[14] == true) by {
        assert(((v >> 1u16) & 1u16) == 1u16) by (bit_vector)
            requires v == 0x000Fu16;
    }
    assert(word_bits(v)[15] == true) by {
        assert(((v >> 0u16) & 1u16) == 1u16) by (bit_vector)
            requires v == 0x000Fu16;
    }
    assert(common_symbol_ops()[7] == Op::DefSymbol("KEY-ADAPTER-ADDR"@, v));
    let o = poll_keyboard_ops(p);
    assert(o[3] == Op::DataNumber(Register::REG2, v));
}

/// The symbols every program uses.
pub open spec fn common_symbol_ops() -> Seq<Op> {
    seq![
        Op::DefSymbol("LINE-WIDTH"@, 0x001E),
        Op::DefSymbol("CALL-RETURN-ADDRESS"@, 0xFF33),
        Op::DefSymbol("ONE"@, 0x0001),
        Op::DefSymbol("LINEX"@, 0xFF01),
        Op::DefSymbol("PEN-POSITION-ADDR"@, 0x0400),
        Op::DefSymbol("KEYCODE-REGISTER"@, 0x0401),
        Op::DefSymbol("DISPLAY-ADAPTER-ADDR"@, 0x0007),
        Op::DefSymbol("KEY-ADAPTER-ADDR"@, 0x000F),
    ]
}

/// The code every program starts with: the symbols, the line position set
/// to zero, the font loaded, a jump to `main`, and the shared routines.
pub open spec fn common_code_ops() -> Seq<Op> {
    common_symbol_ops() + seq![
        Op::DataSymbol(Register::REG0, "LINEX"@),
        Op::DataNumber(Register::REG1, 0x0000),
        Op::Store(Register::REG0, Register::REG1),
        Op::DefLabel("start"@),
        Op::Call("ROUTINE-init-fontDescriptions"@),
        Op::Jmp("main"@),
        Op::DefLabel("ROUTINES"@),
    ] + load_font_routine_ops("ROUTINE-init-fontDescriptions"@) + draw_font_character_ops(
        "ROUTINE-io-drawFontCharacter"@,
    ) + poll_keyboard_ops("ROUTINE-io-pollKeyboard"@)
}

/// The common code loads the font and jumps to `main`, and it defines, each
/// under the label the programs call it by, the routine that draws a
/// character and the routine that polls the keyboard, the latter last.
pub proof fn law_common_code_routines()
    ensures
        ({
            let c = common_code_ops();
            let n = c.len() as int;
            &&& n >= 15 + 105 + 18
            &&& c[11] == Op::DefLabel("start"@)
            &&& c[12] == Op::Call("ROUTINE-init-fontDescriptions"@)
            &&& c[13] == Op::Jmp("main"@)
            &&& c[15] == Op::DefLabel("ROUTINE-init-fontDescriptions"@)
            &&& c[n - 123] == Op::DefLabel("ROUTINE-io-drawFontCharacter"@)
            &&& c.subrange(n - 123, n - 18) == draw_font_character_ops(
                "ROUTINE-io-drawFontCharacter"@,
            )
            &&& c[n - 18] == Op::DefLabel("ROUTINE-io-pollKeyboard"@)
            &&& c.subrange(n - 18, n) == poll_keyboard_ops("ROUTINE-io-pollKeyboard"@)
        }),
{
    let c = common_code_ops();
    let h = common_symbol_ops() + seq![
        Op::DataSymbol(Register::REG0, "LINEX"@),
        Op::DataNumber(Register::REG1, 0x0000),
        Op::Store(Register::REG0, Register::REG1),
        Op::DefLabel("start"@),
        Op::Call("ROUTINE-init-fontDescriptions"@),
        Op::Jmp("main"@),
        Op::DefLabel("ROUTINES"@),
    ];
    let f = load_font_routine_ops("ROUTINE-init-fontDescriptions"@);
    let d = draw_font_character_ops("ROUTINE-io-drawFontCharacter"@);
    let k = poll_keyboard_ops("ROUTINE-io-pollKeyboard"@);
    assert(c == ((h + f) + d) + k);
    assert(h.len() == 15);
    assert(d.len() == 105);
    assert(k.len() == 18);
    assert(f[0] == Op::DefLabel("ROUTINE-init-fontDescriptions"@));
    assert(c[15] == (h + f)[15]);
    let n = c.len() as int;
    assert(c.subrange(n - 18, n) =~= k);
    assert(c.subrange(n - 123, n - 18) =~= d);
    assert(c[n - 123] == c.subrange(n - 123, n - 18)[0]);
    assert(c[n - 18] == c.subrange(n - 18, n)[0]);
}

/// The code every program starts with.
pub fn initialise_common_code() -> (r: Vec<Instr>)
    ensures
        ops(r@) == common_code_ops(),
{
    let mut instructions = Instructions::new();
    let b = vec![
        Instr::DefSymbol(DEFSYMBOL::new("LINE-WIDTH", 0x001E)),
        Instr::DefSymbol(DEFSYMBOL::new("CALL-RETURN-ADDRESS", 0xFF33)),
        Instr::DefSymbol(DEFSYMBOL::new("ONE", 0x0001)),
        Instr::DefSymbol(DEFSYMBOL::new("LINEX", 0xFF01)),
        Instr::DefSymbol(DEFSYMBOL::new("PEN-POSITION-ADDR", 0x0400)),
        Instr::DefSymbol(DEFSYMBOL::new("KEYCODE-REGISTER", 0x0401)),
        Instr::DefSymbol(DEFSYMBOL::new("DISPLAY-ADAPTER-ADDR", 0x0007)),
        Instr::DefSymbol(DEFSYMBOL::new("KEY-ADAPTER-ADDR", 0x000F)),
    ];
    assert(ops(b@) =~= common_symbol_ops());
    instructions.add(b);
    let b = vec![
        Instr::DataSymbol(DATA::new(Register::REG0, Symbol::new("LINEX"))),
        Instr::DataNumber(DATA::new(Register::REG1, Number::new(0x0000))),
        Instr::Store(STORE::new(Register::REG0, Register::REG1)),
        Instr::DefLabel(DEFLABEL::new("start")),
    ];
    instructions.add(b);
    // jump to main once the font is loaded
    instructions.add(call_routine("ROUTINE-init-fontDescriptions"));
    let b = vec![
        Instr::Jmp(JMP::new(Label::new("main"))),
        Instr::DefLabel(DEFLABEL::new("ROUTINES")),
    ];
    instructions.add(b);
    proof {
        assert(ops(instructions.instructions@) =~= common_symbol_ops() + seq![
            Op::DataSymbol(Register::REG0, "LINEX"@),
            Op::DataNumber(Register::REG1, 0x0000),
            Op::Store(Register::REG0, Register::REG1),
            Op::DefLabel("start"@),
            Op::Call("ROUTINE-init-fontDescriptions"@),
            Op::Jmp("main"@),
            Op::DefLabel("ROUTINES"@),
        ]);
    }
    instructions.add(routine_load_font_descriptions("ROUTINE-init-fontDescriptions"));
    instructions.add(routine_draw_font_character("ROUTINE-io-drawFontCharacter"));
    instructions.add(routine_poll_keyboard("ROUTINE-io-pollKeyboard"));
    instructions.get()
}

} // verus!
