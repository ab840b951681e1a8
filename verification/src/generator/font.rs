//! The example programs: common routines (font loading and drawing, the
//! keyboard), and the programs built from them.
use crate::assembler::{
    Instr, Instructions, IOMode, Label, Number, Register, Symbol, ADD, AND, CALL, CLF, CMP, DATA,
    DEFLABEL, DEFSYMBOL, IN, JMP, JMPF, JR, LOAD, NOT, OUT, SHL, STORE, XOR,
};
use vstd::prelude::*;
use vstd::string::StringExecFns;

verus! {

/// The characters the font describes, in the order their descriptions are
/// loaded.
pub const FONT_CHARACTERS: [char; 92] = [' ', '!', '"', '\'', '#', '%', '$', '&', '(', ')', '*', '+', '/', '.', ',', '-', '=', '>', '<', '|', ']', '[', '\\', '~', '_', '`', '^', ';', '?', '@', 'A', 'B', 'C', 'D', 'E', 'F', 'G', 'H', 'I', 'J', 'K', 'L', 'M', 'N', 'O', 'P', 'Q', 'R', 'S', 'T', 'U', 'V', 'W', 'X', 'Y', 'Z', 'a', 'b', 'c', 'd', 'e', 'f', 'g', 'h', 'i', 'j', 'k', 'l', 'm', 'n', 'o', 'p', 'q', 'r', 's', 't', 'u', 'v', 'w', 'x', 'y', 'z', '0', '1', '2', '3', '4', '5', '6', '7', '8', '9'];

/// The eight lines (top first) of the picture of each character of
/// `FONT_CHARACTERS`, in the same order.
pub const FONT_LINES: [[u16; 8]; 92] = [
    [0x0000, 0x0000, 0x0000, 0x0000, 0x0000, 0x0000, 0x0000, 0x0000],
    [0x0010, 0x0010, 0x0010, 0x0010, 0x0010, 0x0000, 0x0010, 0x0000],
    [0x0028, 0x0028, 0x0000, 0x0000, 0x0000, 0x0000, 0x0000, 0x0000],
    [0x0020, 0x0020, 0x0020, 0x0000, 0x0000, 0x0000, 0x0000, 0x0000],
    [0x0028, 0x0028, 0x007C, 0x0028, 0x007C, 0x0028, 0x0028, 0x0000],
    [0x00C2, 0x00C4, 0x0008, 0x0010, 0x0020, 0x004C, 0x008C, 0x0000],
    [0x0010, 0x007E, 0x0090, 0x007C, 0x0012, 0x00FC, 0x0010, 0x0000],
    [0x0038, 0x0028, 0x0038, 0x00E0, 0x0094, 0x0088, 0x00F4, 0x0000],
    [0x0008, 0x0010, 0x0020, 0x0020, 0x0020, 0x0010, 0x0008, 0x0000],
    [0x0020, 0x0010, 0x0008, 0x0008, 0x0008, 0x0010, 0x0020, 0x0000],
    [0x0000, 0x0092, 0x0054, 0x0038, 0x0038, 0x0054, 0x0092, 0x0000],
    [0x0000, 0x0010, 0x0010, 0x007C, 0x0030, 0x0010, 0x0000, 0x0000],
    [0x0002, 0x0004, 0x0008, 0x0010, 0x0020, 0x0040, 0x0080, 0x0000],
    [0x0000, 0x0000, 0x0000, 0x0000, 0x0000, 0x0000, 0x0010, 0x0000],
    [0x0000, 0x0010, 0x0000, 0x0000, 0x0010, 0x0000, 0x0000, 0x0000],
    [0x0000, 0x0000, 0x0000, 0x007C, 0x0000, 0x0000, 0x0000, 0x0000],
    [0x0000, 0x0000, 0x00FE, 0x0000, 0x00FE, 0x0000, 0x0000, 0x0000],
    [0x0040, 0x0020, 0x0010, 0x0008, 0x0010, 0x0020, 0x0040, 0x0000],
    [0x0002, 0x0004, 0x0008, 0x0010, 0x0008, 0x0004, 0x0002, 0x0000],
    [0x0010, 0x0010, 0x0010, 0x0010, 0x0010, 0x0010, 0x0010, 0x0000],
    [0x0030, 0x0008, 0x000C, 0x0002, 0x000C, 0x0008, 0x0030, 0x0000],
    [0x0010, 0x0020, 0x0060, 0x0080, 0x0060, 0x0020, 0x0010, 0x0000],
    [0x0080, 0x0040, 0x0020, 0x0010, 0x0008, 0x0004, 0x0002, 0x0000],
    [0x0000, 0x0000, 0x0000, 0x0032, 0x004C, 0x0000, 0x0000, 0x0000],
    [0x0000, 0x0000, 0x0000, 0x0000, 0x0000, 0x0000, 0x007E, 0x0000],
    [0x0000, 0x0020, 0x0010, 0x0008, 0x0000, 0x0000, 0x0000, 0x0000],
    [0x0010, 0x0028, 0x0044, 0x0000, 0x0000, 0x0000, 0x0000, 0x0000],
    [0x0000, 0x0010, 0x0000, 0x0000, 0x0010, 0x0020, 0x0000, 0x0000],
    [0x007C, 0x0042, 0x0002, 0x0004, 0x0008, 0x0000, 0x0008, 0x0000],
    [0x007C, 0x008A, 0x009C, 0x00A8, 0x0098, 0x0084, 0x0078, 0x0000],
    [0x007C, 0x00C6, 0x0082, 0x00FE, 0x0082, 0x0082, 0x0082, 0x0000],
    [0x00FC, 0x0086, 0x0082, 0x00FE, 0x0082, 0x0086, 0x00FC, 0x0000],
    [0x007E, 0x00C0, 0x0080, 0x0080, 0x0080, 0x00C0, 0x007E, 0x0000],
    [0x00F8, 0x0086, 0x0082, 0x0082, 0x0082, 0x0086, 0x00F8, 0x0000],
    [0x007E, 0x00C0, 0x0080, 0x00FE, 0x0080, 0x00C0, 0x007E, 0x0000],
    [0x007E, 0x0080, 0x0080, 0x00FC, 0x0080, 0x0080, 0x0080, 0x0000],
    [0x007E, 0x0080, 0x0080, 0x009C, 0x0082, 0x0082, 0x00FE, 0x0000],
    [0x0082, 0x0082, 0x0082, 0x00FE, 0x0082, 0x0082, 0x0082, 0x0000],
    [0x00FE, 0x0010, 0x0010, 0x0010, 0x0010, 0x0010, 0x00FE, 0x0000],
    [0x0002, 0x0002, 0x0002, 0x0002, 0x0002, 0x0002, 0x00FC, 0x0000],
    [0x00C4, 0x00C8, 0x00F0, 0x00E0, 0x00D8, 0x00C4, 0x00C6, 0x0000],
    [0x0080, 0x0080, 0x0080, 0x0080, 0x0080, 0x0080, 0x007E, 0x0000],
    [0x0066, 0x00AA, 0x0092, 0x0092, 0x0082, 0x0082, 0x0082, 0x0000],
    [0x00C2, 0x00A2, 0x0092, 0x0092, 0x008A, 0x008A, 0x0086, 0x0000],
    [0x007C, 0x0082, 0x0082, 0x0082, 0x0082, 0x0082, 0x007C, 0x0000],
    [0x00FC, 0x0082, 0x0082, 0x01FC, 0x0080, 0x0080, 0x0080, 0x0000],
    [0x0078, 0x0084, 0x0084, 0x0084, 0x0094, 0x008C, 0x0076, 0x0007],
    [0x00FC, 0x0082, 0x0082, 0x00FC, 0x00A0, 0x0090, 0x008E, 0x0000],
    [0x007C, 0x0080, 0x0080, 0x007C, 0x0004, 0x0004, 0x00F8, 0x0000],
    [0x00FE, 0x0010, 0x0010, 0x0010, 0x0010, 0x0010, 0x0010, 0x0000],
    [0x00C6, 0x0042, 0x0042, 0x0042, 0x0042, 0x0042, 0x003C, 0x0000],
    [0x0082, 0x0082, 0x0082, 0x0082, 0x0044, 0x006C, 0x0010, 0x0000],
    [0x0082, 0x0082, 0x0082, 0x0092, 0x00BA, 0x00AA, 0x0044, 0x0000],
    [0x00C6, 0x0044, 0x0028, 0x0010, 0x0028, 0x0044, 0x00C6, 0x0000],
    [0x00C6, 0x0044, 0x0028, 0x0010, 0x0010, 0x0010, 0x0038, 0x0000],
    [0x00FE, 0x0082, 0x000C, 0x0038, 0x0060, 0x0082, 0x007E, 0x0000],
    [0x007C, 0x00C6, 0x0082, 0x00FE, 0x0082, 0x0082, 0x0082, 0x0000],
    [0x00FC, 0x0086, 0x0082, 0x00FE, 0x0082, 0x0086, 0x00FC, 0x0000],
    [0x007E, 0x00C0, 0x0080, 0x0080, 0x0080, 0x00C0, 0x007E, 0x0000],
    [0x00F8, 0x0086, 0x0082, 0x0082, 0x0082, 0x0086, 0x00F8, 0x0000],
    [0x007E, 0x00C0, 0x0080, 0x00FE, 0x0080, 0x00C0, 0x007E, 0x0000],
    [0x007E, 0x0080, 0x0080, 0x00FC, 0x0080, 0x0080, 0x0080, 0x0000],
    [0x007E, 0x0080, 0x0080, 0x009C, 0x0082, 0x0082, 0x00FE, 0x0000],
    [0x0082, 0x0082, 0x0082, 0x00FE, 0x0082, 0x0082, 0x0082, 0x0000],
    [0x00FE, 0x0010, 0x0010, 0x0010, 0x0010, 0x0010, 0x00FE, 0x0000],
    [0x0002, 0x0002, 0x0002, 0x0002, 0x0002, 0x0002, 0x00FC, 0x0000],
    [0x00C4, 0x00C8, 0x00F0, 0x00E0, 0x00D8, 0x00C4, 0x00C6, 0x0000],
    [0x0080, 0x0080, 0x0080, 0x0080, 0x0080, 0x0080, 0x007E, 0x0000],
    [0x0066, 0x00AA, 0x0092, 0x0092, 0x0082, 0x0082, 0x0082, 0x0000],
    [0x00C2, 0x00A2, 0x0092, 0x0092, 0x008A, 0x008A, 0x0086, 0x0000],
    [0x007C, 0x0082, 0x0082, 0x0082, 0x0082, 0x0082, 0x007C, 0x0000],
    [0x00FC, 0x0082, 0x0082, 0x01FC, 0x0080, 0x0080, 0x0080, 0x0000],
    [0x0078, 0x0084, 0x0084, 0x0084, 0x0094, 0x008C, 0x0076, 0x0007],
    [0x00FC, 0x0082, 0x0082, 0x00FC, 0x00A0, 0x0090, 0x008E, 0x0000],
    [0x007C, 0x0080, 0x0080, 0x007C, 0x0004, 0x0004, 0x00F8, 0x0000],
    [0x00FE, 0x0010, 0x0010, 0x0010, 0x0010, 0x0010, 0x0010, 0x0000],
    [0x00C6, 0x0042, 0x0042, 0x0042, 0x0042, 0x0042, 0x003C, 0x0000],
    [0x0082, 0x0082, 0x0082, 0x0082, 0x0044, 0x006C, 0x0010, 0x0000],
    [0x0082, 0x0082, 0x0082, 0x0092, 0x00BA, 0x00AA, 0x0044, 0x0000],
    [0x00C6, 0x0044, 0x0028, 0x0010, 0x0028, 0x0044, 0x00C6, 0x0000],
    [0x00C6, 0x0044, 0x0028, 0x0010, 0x0010, 0x0010, 0x0038, 0x0000],
    [0x00FE, 0x0082, 0x000C, 0x0038, 0x0060, 0x0082, 0x007E, 0x0000],
    [0xFFFF, 0xFFFF, 0xFFFF, 0xFFFF, 0xFFFF, 0xFFFF, 0xFFFF, 0xFFFF],
    [0x0038, 0x0058, 0x0018, 0x0018, 0x0018, 0x0018, 0x007E, 0x0000],
    [0x007C, 0x0082, 0x001C, 0x0020, 0x0040, 0x0080, 0x00FE, 0x0000],
    [0x007C, 0x0002, 0x0002, 0x001E, 0x0002, 0x0002, 0x00FC, 0x0000],
    [0x001C, 0x0024, 0x0044, 0x0084, 0x00FE, 0x0004, 0x0004, 0x0000],
    [0x00FE, 0x0080, 0x00F8, 0x0004, 0x0002, 0x0006, 0x00FC, 0x0000],
    [0x003E, 0x0040, 0x00F8, 0x0084, 0x0082, 0x0086, 0x00FC, 0x0000],
    [0x00FE, 0x0002, 0x0004, 0x0008, 0x0010, 0x0020, 0x0040, 0x0000],
    [0x007C, 0x0082, 0x0082, 0x007C, 0x0082, 0x0082, 0x007C, 0x0000],
    [0x007C, 0x0082, 0x0082, 0x007E, 0x0002, 0x0082, 0x007C, 0x0000],
];

/// Where `c` first stands in `s` from position `i` on, or -1.
pub open spec fn position_from(s: Seq<char>, c: char, i: int) -> int
    decreases s.len() - i,
{
    if i < 0 || i >= s.len() {
        -1
    } else if s[i] == c {
        i
    } else {
        position_from(s, c, i + 1)
    }
}

/// Where `c` stands among the font's characters, or -1.
pub open spec fn font_position(c: char) -> int {
    position_from(FONT_CHARACTERS@, c, 0)
}

/// The picture of `c`, when the font has one.
pub open spec fn font_picture(c: char) -> Option<Seq<u16>> {
    let k = font_position(c);
    if 0 <= k < 92 {
        Some(FONT_LINES@[k]@)
    } else {
        None
    }
}

/// The eight lines (top first) of the font picture of `c`, when the font has
/// one.
pub fn font_description(c: char) -> (r: Option<[u16; 8]>)
    ensures
        r is Some == FONT_CHARACTERS@.contains(c),
        match r {
            Some(lines) => font_picture(c) == Some(lines@),
            None => font_picture(c) is None,
        },
{
    let mut k: usize = 0;
    while k < 92
        invariant
            0 <= k <= 92,
            position_from(FONT_CHARACTERS@, c, 0) == position_from(FONT_CHARACTERS@, c, k as int),
            forall|j: int| 0 <= j < k ==> FONT_CHARACTERS@[j] != c,
        decreases 92 - k,
    {
        if FONT_CHARACTERS[k] == c {
            return Some(FONT_LINES[k]);
        }
        k += 1;
    }
    None
}

} // verus!
