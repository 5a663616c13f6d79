use vstd::prelude::*;

use crate::error::OmfError;

verus! {

/// The character for one digit value below 16, upper case.
pub open spec fn spec_digit(d: int) -> char {
    if d == 0 {
        '0'
    } else if d == 1 {
        '1'
    } else if d == 2 {
        '2'
    } else if d == 3 {
        '3'
    } else if d == 4 {
        '4'
    } else if d == 5 {
        '5'
    } else if d == 6 {
        '6'
    } else if d == 7 {
        '7'
    } else if d == 8 {
        '8'
    } else if d == 9 {
        '9'
    } else if d == 10 {
        'A'
    } else if d == 11 {
        'B'
    } else if d == 12 {
        'C'
    } else if d == 13 {
        'D'
    } else if d == 14 {
        'E'
    } else {
        'F'
    }
}

/// Decimal digits of `n`, most significant first, no leading zeros
/// (a single `'0'` for zero).
pub open spec fn spec_dec(n: nat) -> Seq<char>
    decreases n,
{
    if n < 10 {
        seq![spec_digit(n as int)]
    } else {
        spec_dec(n / 10) + seq![spec_digit((n % 10) as int)]
    }
}

/// Two upper-case hexadecimal digits of a byte.
pub open spec fn spec_hex2(v: u8) -> Seq<char> {
    seq![spec_digit(v as int / 16), spec_digit(v as int % 16)]
}

/// Four upper-case hexadecimal digits of a 16-bit word.
pub open spec fn spec_hex4(v: u16) -> Seq<char> {
    spec_hex2((v / 256) as u8) + spec_hex2((v % 256) as u8)
}

/// `s` padded on the right with spaces to at least four characters.
pub open spec fn spec_pad4(s: Seq<char>) -> Seq<char> {
    if s.len() >= 4 {
        s
    } else if s.len() == 3 {
        s + " "@
    } else if s.len() == 2 {
        s + "  "@
    } else if s.len() == 1 {
        s + "   "@
    } else {
        s + "    "@
    }
}

fn digit_str(d: u8) -> (r: &'static str)
    requires
        d < 16,
    ensures
        r@ == seq![spec_digit(d as int)],
{
    match d {
        0 => {
            proof {
                reveal_strlit("0");
                assert("0"@ =~= seq![spec_digit(0)]);
            }
            "0"
        },
        1 => {
            proof {
                reveal_strlit("1");
                assert("1"@ =~= seq![spec_digit(1)]);
            }
            "1"
        },
        2 => {
            proof {
                reveal_strlit("2");
                assert("2"@ =~= seq![spec_digit(2)]);
            }
            "2"
        },
        3 => {
            proof {
                reveal_strlit("3");
                assert("3"@ =~= seq![spec_digit(3)]);
            }
            "3"
        },
        4 => {
            proof {
                reveal_strlit("4");
                assert("4"@ =~= seq![spec_digit(4)]);
            }
            "4"
        },
        5 => {
            proof {
                reveal_strlit("5");
                assert("5"@ =~= seq![spec_digit(5)]);
            }
            "5"
        },
        6 => {
            proof {
                reveal_strlit("6");
                assert("6"@ =~= seq![spec_digit(6)]);
            }
            "6"
        },
        7 => {
            proof {
                reveal_strlit("7");
                assert("7"@ =~= seq![spec_digit(7)]);
            }
            "7"
        },
        8 => {
            proof {
                reveal_strlit("8");
                assert("8"@ =~= seq![spec_digit(8)]);
            }
            "8"
        },
        9 => {
            proof {
                reveal_strlit("9");
                assert("9"@ =~= seq![spec_digit(9)]);
            }
            "9"
        },
        10 => {
            proof {
                reveal_strlit("A");
                assert("A"@ =~= seq![spec_digit(10)]);
            }
            "A"
        },
        11 => {
            proof {
                reveal_strlit("B");
                assert("B"@ =~= seq![spec_digit(11)]);
            }
            "B"
        },
        12 => {
            proof {
                reveal_strlit("C");
                assert("C"@ =~= seq![spec_digit(12)]);
            }
            "C"
        },
        13 => {
            proof {
                reveal_strlit("D");
                assert("D"@ =~= seq![spec_digit(13)]);
            }
            "D"
        },
        14 => {
            proof {
                reveal_strlit("E");
                assert("E"@ =~= seq![spec_digit(14)]);
            }
            "E"
        },
        _ => {
            proof {
                reveal_strlit("F");
                assert("F"@ =~= seq![spec_digit(15)]);
            }
            "F"
        },
    }
}

/// Decimal rendering of `n`.
pub fn dec_str(n: usize) -> (r: String)
    ensures
        r@ == spec_dec(n as nat),
    decreases n,
{
    if n < 10 {
        digit_str(n as u8).to_owned()
    } else {
        let q = n / 10;
        let m = n % 10;
        let s = dec_str(q);
        let r = s.concat(digit_str(m as u8));
        proof {
            assert(r@ =~= spec_dec(n as nat));
        }
        r
    }
}

/// Two-digit upper-case hexadecimal rendering of a byte.
pub fn hex2_str(v: u8) -> (r: String)
    ensures
        r@ == spec_hex2(v),
{
    let hi: u8 = v / 16;
    let lo: u8 = v % 16;
    let s = digit_str(hi).to_owned();
    let r = s.concat(digit_str(lo));
    proof {
        assert(r@ =~= spec_hex2(v));
    }
    r
}

/// Four-digit upper-case hexadecimal rendering of a 16-bit word.
pub fn hex4_str(v: u16) -> (r: String)
    ensures
        r@ == spec_hex4(v),
{
    let hi: u8 = (v / 256) as u8;
    let lo: u8 = (v % 256) as u8;
    let r = hex2_str(hi).concat(hex2_str(lo).as_str());
    proof {
        assert(r@ =~= spec_hex4(v));
    }
    r
}

/// `s` padded on the right with spaces to at least four characters.
pub fn pad4(s: String) -> (r: String)
    ensures
        r@ == spec_pad4(s@),
{
    let l = s.as_str().unicode_len();
    if l >= 4 {
        s
    } else if l == 3 {
        s.concat(" ")
    } else if l == 2 {
        s.concat("  ")
    } else if l == 1 {
        s.concat("   ")
    } else {
        s.concat("    ")
    }
}

/// What decoding a byte sequence as text yields: the characters, or nothing
/// where the bytes are not valid text.
pub uninterp spec fn utf8_decode(b: Seq<u8>) -> Option<Seq<char>>;

/// Relies on `String::from_utf8`: whether the bytes are accepted, and which
/// characters come back, depend on the bytes alone; ASCII bytes (below 128)
/// are always accepted and decode to themselves.
#[verifier::external_body]
pub(crate) fn decode_text(b: Vec<u8>) -> (r: Result<String, OmfError>)
    ensures
        r matches Ok(s) ==> utf8_decode(b@) == Some(s@),
        r matches Err(e) ==> e == OmfError::Text && utf8_decode(b@) is None,
        r matches Err(e) ==> exists|i: int| 0 <= i < b@.len() && b@[i] >= 128,
        r matches Ok(s) ==> ((forall|i: int| 0 <= i < b@.len() ==> b@[i] < 128) ==> s@ == Seq::new(
            b@.len(),
            |i: int| b@[i] as char,
        )),
{
    match String::from_utf8(b) {
        Ok(s) => Ok(s),
        Err(_) => Err(OmfError::Text),
    }
}

/// What the grouped hexadecimal dump of a byte sequence looks like.
pub uninterp spec fn hex_dump_of(b: Seq<u8>) -> Seq<char>;

/// Relies on `pretty_hex::config_hex`: with a fixed configuration the dump
/// text depends on the bytes alone.
#[verifier::external_body]
pub(crate) fn hex_dump(b: &Vec<u8>) -> (r: String)
    ensures
        r@ == hex_dump_of(b@),
{
    let cfg = pretty_hex::HexConfig { group: 8, ..pretty_hex::HexConfig::default() };
    pretty_hex::config_hex(b, cfg)
}

} // verus!
