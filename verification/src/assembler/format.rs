//! Hexadecimal text for words, as the assembler prints numbers.
use vstd::prelude::*;
use vstd::string::StringExecFns;

verus! {

/// The upper-case hexadecimal digit for `d`.
pub open spec fn hex_char(d: int) -> char {
    seq!['0', '1', '2', '3', '4', '5', '6', '7', '8', '9', 'A', 'B', 'C', 'D', 'E', 'F'][d]
}

/// Four hexadecimal digits for `v`, most significant first.
pub open spec fn hex4(v: u16) -> Seq<char> {
    seq![
        hex_char((v / 4096) as int),
        hex_char(((v / 256) % 16) as int),
        hex_char(((v / 16) % 16) as int),
        hex_char((v % 16) as int),
    ]
}

/// The hexadecimal digits of `v` without leading zeros (`0` for zero).
pub open spec fn hex_min(v: nat) -> Seq<char>
    decreases v,
{
    if v < 16 {
        seq![hex_char(v as int)]
    } else {
        hex_min(v / 16) + seq![hex_char((v % 16) as int)]
    }
}

/// The text of one hexadecimal digit.
pub fn hex_digit(d: u16) -> (r: &'static str)
    requires
        d < 16,
    ensures
        r@ == seq![hex_char(d as int)],
{
    match d {
        0 => {
            proof {
                reveal_strlit("0");
            }
            "0"
        },
        1 => {
            proof {
                reveal_strlit("1");
            }
            "1"
        },
        2 => {
            proof {
                reveal_strlit("2");
            }
            "2"
        },
        3 => {
            proof {
                reveal_strlit("3");
            }
            "3"
        },
        4 => {
            proof {
                reveal_strlit("4");
            }
            "4"
        },
        5 => {
            proof {
                reveal_strlit("5");
            }
            "5"
        },
        6 => {
            proof {
                reveal_strlit("6");
            }
            "6"
        },
        7 => {
            proof {
                reveal_strlit("7");
            }
            "7"
        },
        8 => {
            proof {
                reveal_strlit("8");
            }
            "8"
        },
        9 => {
            proof {
                reveal_strlit("9");
            }
            "9"
        },
        10 => {
            proof {
                reveal_strlit("A");
            }
            "A"
        },
        11 => {
            proof {
                reveal_strlit("B");
            }
            "B"
        },
        12 => {
            proof {
                reveal_strlit("C");
            }
            "C"
        },
        13 => {
            proof {
                reveal_strlit("D");
            }
            "D"
        },
        14 => {
            proof {
                reveal_strlit("E");
            }
            "E"
        },
        _ => {
            proof {
                reveal_strlit("F");
            }
            "F"
        },
    }
}

/// Appends the four hexadecimal digits of `v`.
pub fn push_hex4(s: &mut String, v: u16)
    ensures
        final(s)@ == old(s)@ + hex4(v),
{
    s.append(hex_digit(v / 4096));
    s.append(hex_digit((v / 256) % 16));
    s.append(hex_digit((v / 16) % 16));
    s.append(hex_digit(v % 16));
    assert(final(s)@ =~= old(s)@ + hex4(v));
}

/// Appends the hexadecimal digits of `v` without leading zeros.
pub fn push_hex_min(s: &mut String, v: u16)
    ensures
        final(s)@ == old(s)@ + hex_min(v as nat),
    decreases v,
{
    if v < 16 {
        s.append(hex_digit(v));
    } else {
        push_hex_min(s, v / 16);
        s.append(hex_digit(v % 16));
        assert(final(s)@ =~= old(s)@ + hex_min(v as nat));
    }
}

} // verus!
