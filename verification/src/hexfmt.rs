//! Rendering of bytes and words as fixed-width upper-case hexadecimal text.

use vstd::prelude::*;

verus! {

/// The upper-case hexadecimal digit for a nibble value.
pub open spec fn hex_char(n: u8) -> char {
    match n {
        0 => '0',
        1 => '1',
        2 => '2',
        3 => '3',
        4 => '4',
        5 => '5',
        6 => '6',
        7 => '7',
        8 => '8',
        9 => '9',
        10 => 'A',
        11 => 'B',
        12 => 'C',
        13 => 'D',
        14 => 'E',
        _ => 'F',
    }
}

/// A byte as exactly two upper-case hexadecimal digits.
pub open spec fn hex2(b: u8) -> Seq<char> {
    seq![hex_char(b / 16), hex_char(b % 16)]
}

/// A 16-bit word as exactly four upper-case hexadecimal digits.
pub open spec fn hex4(w: u16) -> Seq<char> {
    hex2((w / 0x100) as u8) + hex2((w % 0x100) as u8)
}

/// The single-character string for a nibble value.
fn hex_digit_str(n: u8) -> (s: &'static str)
    requires
        n < 16,
    ensures
        s@ == seq![hex_char(n)],
{
    match n {
        0 => {
            proof {
                reveal_strlit("0");
                assert("0"@ =~= seq![hex_char(0u8)]);
            }
            "0"
        },
        1 => {
            proof {
                reveal_strlit("1");
                assert("1"@ =~= seq![hex_char(1u8)]);
            }
            "1"
        },
        2 => {
            proof {
                reveal_strlit("2");
                assert("2"@ =~= seq![hex_char(2u8)]);
            }
            "2"
        },
        3 => {
            proof {
                reveal_strlit("3");
                assert("3"@ =~= seq![hex_char(3u8)]);
            }
            "3"
        },
        4 => {
            proof {
                reveal_strlit("4");
                assert("4"@ =~= seq![hex_char(4u8)]);
            }
            "4"
        },
        5 => {
            proof {
                reveal_strlit("5");
                assert("5"@ =~= seq![hex_char(5u8)]);
            }
            "5"
        },
        6 => {
            proof {
                reveal_strlit("6");
                assert("6"@ =~= seq![hex_char(6u8)]);
            }
            "6"
        },
        7 => {
            proof {
                reveal_strlit("7");
                assert("7"@ =~= seq![hex_char(7u8)]);
            }
            "7"
        },
        8 => {
            proof {
                reveal_strlit("8");
                assert("8"@ =~= seq![hex_char(8u8)]);
            }
            "8"
        },
        9 => {
            proof {
                reveal_strlit("9");
                assert("9"@ =~= seq![hex_char(9u8)]);
            }
            "9"
        },
        10 => {
            proof {
                reveal_strlit("A");
                assert("A"@ =~= seq![hex_char(10u8)]);
            }
            "A"
        },
        11 => {
            proof {
                reveal_strlit("B");
                assert("B"@ =~= seq![hex_char(11u8)]);
            }
            "B"
        },
        12 => {
            proof {
                reveal_strlit("C");
                assert("C"@ =~= seq![hex_char(12u8)]);
            }
            "C"
        },
        13 => {
            proof {
                reveal_strlit("D");
                assert("D"@ =~= seq![hex_char(13u8)]);
            }
            "D"
        },
        14 => {
            proof {
                reveal_strlit("E");
                assert("E"@ =~= seq![hex_char(14u8)]);
            }
            "E"
        },
        _ => {
            proof {
                reveal_strlit("F");
                assert("F"@ =~= seq![hex_char(15u8)]);
            }
            "F"
        },
    }
}

/// Render a byte as two upper-case hexadecimal digits.
pub fn hex_byte_str(b: u8) -> (s: String)
    ensures
        s@ == hex2(b),
{
    let mut s = String::from_str(hex_digit_str(b / 16));
    s.append(hex_digit_str(b % 16));
    proof {
        assert(s@ =~= hex2(b));
    }
    s
}

/// Render a 16-bit word as four upper-case hexadecimal digits.
pub fn hex_word_str(w: u16) -> (s: String)
    ensures
        s@ == hex4(w),
{
    let mut s = hex_byte_str((w / 0x100) as u8);
    s.append(hex_byte_str((w % 0x100) as u8).as_str());
    proof {
        assert(s@ =~= hex4(w));
    }
    s
}

} // verus!
