//! Text forms of identity values that hubs report as bytes: version numbers, MAC
//! addresses and names.

use vstd::prelude::*;
use vstd::string::*;
use vstd::utf8::{encode_utf8, valid_utf8};

verus! {

/// The upper-case hexadecimal digit of a value below 16.
pub open spec fn hex_digit(n: u8) -> char {
    match n {
        0 => '0',
        1 => '1',
        2 => '2',
        3 => '3',
        4 => '4',
        5 => '5',
        6 => '6',
        7 => '7',
        8 => '8',
        9 => '9',
        10 => 'A',
        11 => 'B',
        12 => 'C',
        13 => 'D',
        14 => 'E',
        15 => 'F',
        _ => '?',
    }
}

/// A byte as two upper-case hexadecimal digits.
pub open spec fn hex_byte(b: u8) -> Seq<char> {
    seq![hex_digit(b / 16), hex_digit(b % 16)]
}

/// A version number as the hub reports it, four bytes least significant first: major
/// (3 bits), minor (4 bits), bug-fix (one byte) and build (two bytes), the last two in
/// binary-coded decimal, written `M.m.bb.bbbb`.
pub open spec fn version_text(p: Seq<u8>) -> Seq<char> {
    seq![hex_digit((p[3] / 16) % 8), '.', hex_digit(p[3] % 16), '.'] + hex_byte(p[2]) + seq!['.']
        + hex_byte(p[1]) + hex_byte(p[0])
}

/// A MAC address of six bytes, written as colon-separated hexadecimal pairs.
pub open spec fn mac_text(p: Seq<u8>) -> Seq<char> {
    hex_byte(p[0]) + seq![':'] + hex_byte(p[1]) + seq![':'] + hex_byte(p[2]) + seq![':'] + hex_byte(
        p[3],
    ) + seq![':'] + hex_byte(p[4]) + seq![':'] + hex_byte(p[5])
}

fn push_hex_digit(s: &mut String, n: u8)
    requires
        n < 16,
    ensures
        final(s)@ == old(s)@ + seq![hex_digit(n)],
{
    match n {
        0 => {
            proof {
                reveal_strlit("0");
            }
            s.append("0");
        },
        1 => {
            proof {
                reveal_strlit("1");
            }
            s.append("1");
        },
        2 => {
            proof {
                reveal_strlit("2");
            }
            s.append("2");
        },
        3 => {
            proof {
                reveal_strlit("3");
            }
            s.append("3");
        },
        4 => {
            proof {
                reveal_strlit("4");
            }
            s.append("4");
        },
        5 => {
            proof {
                reveal_strlit("5");
            }
            s.append("5");
        },
        6 => {
            proof {
                reveal_strlit("6");
            }
            s.append("6");
        },
        7 => {
            proof {
                reveal_strlit("7");
            }
            s.append("7");
        },
        8 => {
            proof {
                reveal_strlit("8");
            }
            s.append("8");
        },
        9 => {
            proof {
                reveal_strlit("9");
            }
            s.append("9");
        },
        10 => {
            proof {
                reveal_strlit("A");
            }
            s.append("A");
        },
        11 => {
            proof {
                reveal_strlit("B");
            }
            s.append("B");
        },
        12 => {
            proof {
                reveal_strlit("C");
            }
            s.append("C");
        },
        13 => {
            proof {
                reveal_strlit("D");
            }
            s.append("D");
        },
        14 => {
            proof {
                reveal_strlit("E");
            }
            s.append("E");
        },
        _ => {
            proof {
                reveal_strlit("F");
            }
            s.append("F");
        },
    }
}

fn push_hex_byte(s: &mut String, b: u8)
    ensures
        final(s)@ == old(s)@ + hex_byte(b),
{
    push_hex_digit(s, b / 16);
    push_hex_digit(s, b % 16);
    assert(final(s)@ =~= old(s)@ + hex_byte(b));
}

fn push_char(s: &mut String, sep: &str)
    requires
        sep@.len() == 1,
    ensures
        final(s)@ == old(s)@ + sep@,
{
    s.append(sep);
}

/// The text of a version number report.
pub fn version_string(p: &[u8]) -> (r: String)
    requires
        p@.len() >= 4,
    ensures
        r@ == version_text(p@),
{
    proof {
        reveal_strlit(".");
    }
    let mut s = String::new();
    push_hex_digit(&mut s, (p[3] / 16) % 8);
    push_char(&mut s, ".");
    push_hex_digit(&mut s, p[3] % 16);
    push_char(&mut s, ".");
    push_hex_byte(&mut s, p[2]);
    push_char(&mut s, ".");
    push_hex_byte(&mut s, p[1]);
    push_hex_byte(&mut s, p[0]);
    assert(s@ =~= version_text(p@));
    s
}

/// The text of a MAC address report.
pub fn mac_string(p: &[u8]) -> (r: String)
    requires
        p@.len() >= 6,
    ensures
        r@ == mac_text(p@),
{
    proof {
        reveal_strlit(":");
    }
    let mut s = String::new();
    push_hex_byte(&mut s, p[0]);
    push_char(&mut s, ":");
    push_hex_byte(&mut s, p[1]);
    push_char(&mut s, ":");
    push_hex_byte(&mut s, p[2]);
    push_char(&mut s, ":");
    push_hex_byte(&mut s, p[3]);
    push_char(&mut s, ":");
    push_hex_byte(&mut s, p[4]);
    push_char(&mut s, ":");
    push_hex_byte(&mut s, p[5]);
    assert(s@ =~= mac_text(p@));
    s
}

/// Relies on std's `String::from_utf8`: it fails exactly on bytes that are not UTF-8, and
/// otherwise gives the string whose UTF-8 bytes are the input.
#[verifier::external_body]
pub(crate) fn utf8_string(b: &Vec<u8>) -> (r: Option<String>)
    ensures
        r is Some <==> valid_utf8(b@),
        r matches Some(s) ==> encode_utf8(s@) == b@,
{
    String::from_utf8(b.clone()).ok()
}

} // verus!
