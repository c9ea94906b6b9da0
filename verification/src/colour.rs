//! The colour encoding: `#` followed by exactly six uppercase hex digits.

use vstd::prelude::*;

verus! {

/// An RGB colour, one byte per channel.
#[derive(Clone, Copy, Debug, PartialEq, Eq, Structural)]
pub struct Colour {
    pub r: u8,
    pub g: u8,
    pub b: u8,
}

pub open spec fn is_hex_digit(b: u8) -> bool {
    (48 <= b && b <= 57) || (65 <= b && b <= 70)
}

pub open spec fn hex_val(b: u8) -> int {
    if 48 <= b && b <= 57 {
        b - 48
    } else {
        b - 65 + 10
    }
}

/// The byte written as the hex digits `hi` then `lo`.
pub open spec fn spec_hex_byte(hi: u8, lo: u8) -> int {
    16 * hex_val(hi) + hex_val(lo)
}

fn hex_digit_value(b: u8) -> (r: Option<u8>)
    ensures
        r is Some <==> is_hex_digit(b),
        r matches Some(x) ==> x as int == hex_val(b) && x < 16,
{
    if 48 <= b && b <= 57 {
        Some(b - 48)
    } else if 65 <= b && b <= 70 {
        Some(b - 65 + 10)
    } else {
        None
    }
}

/// Decode six hex digits into three bytes; `None` as soon as any byte is
/// outside `0-9` / `A-F` (lowercase digits are rejected).
pub fn parse_6_hex(v: &[u8; 6]) -> (r: Option<[u8; 3]>)
    ensures
        r is Some <==> (forall|i: int| 0 <= i < 6 ==> is_hex_digit(v[i])),
        r matches Some(b) ==> b[0] == spec_hex_byte(v[0], v[1]) && b[1] == spec_hex_byte(
            v[2],
            v[3],
        ) && b[2] == spec_hex_byte(v[4], v[5]),
{
    let d0 = hex_digit_value(v[0]);
    let d1 = hex_digit_value(v[1]);
    let d2 = hex_digit_value(v[2]);
    let d3 = hex_digit_value(v[3]);
    let d4 = hex_digit_value(v[4]);
    let d5 = hex_digit_value(v[5]);
    match (d0, d1, d2, d3, d4, d5) {
        (Some(x0), Some(x1), Some(x2), Some(x3), Some(x4), Some(x5)) => {
            let mut out = [0u8; 3];
            out[0] = 16 * x0 + x1;
            out[1] = 16 * x2 + x3;
            out[2] = 16 * x4 + x5;
            assert(forall|i: int| 0 <= i < 6 ==> is_hex_digit(v[i]));
            Some(out)
        },
        _ => None,
    }
}

pub open spec fn is_hex_digit_char(c: char) -> bool {
    ('0' <= c && c <= '9') || ('A' <= c && c <= 'F')
}

/// The colour strings the decoder accepts: `#` then six uppercase hex digits.
pub open spec fn is_colour_literal(s: Seq<char>) -> bool {
    s.len() == 7 && s[0] == '#' && (forall|i: int| 1 <= i < 7 ==> is_hex_digit_char(s[i]))
}

/// The channel byte written at characters `hi`, `lo` of a colour literal.
pub open spec fn spec_colour_byte(hi: char, lo: char) -> int {
    spec_hex_byte(hi as u8, lo as u8)
}

fn char_to_byte(c: char) -> (r: u8)
    ensures
        c as int <= 255 ==> r as int == c as int,
        c as int > 255 ==> r == 255,
{
    let u = c as u32;
    if u <= 255 {
        u as u8
    } else {
        255
    }
}

/// The colour a valid literal denotes; `None` on any other string.
pub open spec fn spec_parse_colour(s: Seq<char>) -> Option<Colour> {
    if is_colour_literal(s) {
        Some(
            Colour {
                r: spec_colour_byte(s[1], s[2]) as u8,
                g: spec_colour_byte(s[3], s[4]) as u8,
                b: spec_colour_byte(s[5], s[6]) as u8,
            },
        )
    } else {
        None
    }
}

/// Decode a colour literal; `None` exactly when the string is not `#`
/// followed by six uppercase hex digits.
pub fn parse_colour(s: &str) -> (r: Option<Colour>)
    ensures
        r == spec_parse_colour(s@),
        r is Some <==> is_colour_literal(s@),
{
    if s.unicode_len() != 7 {
        return None;
    }
    if s.get_char(0) != '#' {
        return None;
    }
    let mut raw = [0u8; 6];
    let mut i: usize = 1;
    while i < 7
        invariant
            1 <= i <= 7,
            s@.len() == 7,
            forall|j: int| 1 <= j < i ==> (s@[j] as int <= 255 ==> raw[j - 1] as int
                == s@[j] as int),
            forall|j: int| 1 <= j < i ==> (s@[j] as int > 255 ==> raw[j - 1] == 255),
        decreases 7 - i,
    {
        let b = char_to_byte(s.get_char(i));
        raw[i - 1] = b;
        i += 1;
    }
    proof {
        assert forall|j: int| 0 <= j < 6 implies is_hex_digit(raw[j]) == is_hex_digit_char(
            s@[j + 1],
        ) && (is_hex_digit(raw[j]) ==> hex_val(raw[j]) == hex_val(s@[j + 1] as u8)) by {}
    }
    match parse_6_hex(&raw) {
        Some(bytes) => Some(Colour { r: bytes[0], g: bytes[1], b: bytes[2] }),
        None => None,
    }
}

} // verus!
