//! Colors as plain 8-bit channels, and parsing of `#rrggbb` hex strings
//! into them, so object construction can reject a malformed color up
//! front.

use vstd::prelude::*;

verus! {

/// An opaque RGB color.
#[derive(Clone, Copy, PartialEq, Eq, Structural, Debug)]
pub struct Color {
    pub r: u8,
    pub g: u8,
    pub b: u8,
}

/// The value of a hexadecimal digit character, or `-1` where the
/// character is none.
pub open spec fn hex_digit_val(c: char) -> int {
    let u = c as u32;
    if 48 <= u <= 57 {
        u - 48
    } else if 97 <= u <= 102 {
        u - 87
    } else if 65 <= u <= 70 {
        u - 55
    } else {
        -1
    }
}

/// Whether `s` is a well-formed color literal: a `#` followed by exactly
/// six hexadecimal digits.
pub open spec fn valid_hex_color(s: Seq<char>) -> bool {
    &&& s.len() == 7
    &&& s[0] == '#'
    &&& forall|i: int| 1 <= i < 7 ==> hex_digit_val(#[trigger] s[i]) >= 0
}

/// The byte encoded by the two hex digits at `i` and `i + 1`.
pub open spec fn hex_byte(s: Seq<char>, i: int) -> int {
    hex_digit_val(s[i]) * 16 + hex_digit_val(s[i + 1])
}

/// The color a well-formed `#rrggbb` literal denotes.
pub open spec fn spec_hex_color(s: Seq<char>) -> Color {
    Color { r: hex_byte(s, 1) as u8, g: hex_byte(s, 3) as u8, b: hex_byte(s, 5) as u8 }
}

/// Decodes one hexadecimal digit.
fn hex_digit(c: char) -> (v: Option<u8>)
    ensures
        v is Some <==> hex_digit_val(c) >= 0,
        v is Some ==> v->0 == hex_digit_val(c),
{
    let u = c as u32;
    if 48 <= u && u <= 57 {
        Some((u - 48) as u8)
    } else if 97 <= u && u <= 102 {
        Some((u - 87) as u8)
    } else if 65 <= u && u <= 70 {
        Some((u - 55) as u8)
    } else {
        None
    }
}

/// Reads the byte encoded at positions `i` and `i + 1` of `s`.
fn hex_byte_at(s: &str, i: usize) -> (v: Option<u8>)
    requires
        i + 1 < s@.len(),
        i + 1 < 7,
    ensures
        v is Some <==> hex_digit_val(s@[i as int]) >= 0 && hex_digit_val(s@[i + 1]) >= 0,
        v is Some ==> v->0 == hex_byte(s@, i as int),
{
    let hi = s.get_char(i);
    let lo = s.get_char(i + 1);
    match (hex_digit(hi), hex_digit(lo)) {
        (Some(h), Some(l)) => Some(h * 16 + l),
        _ => None,
    }
}

/// Parses a `#rrggbb` literal; yields a color exactly on well-formed
/// input.
pub fn hex_to_color(s: &str) -> (c: Option<Color>)
    ensures
        c is Some <==> valid_hex_color(s@),
        c is Some ==> c->0 == spec_hex_color(s@),
{
    let n = s.unicode_len();
    if n != 7 {
        return None;
    }
    if s.get_char(0) != '#' {
        return None;
    }
    let r = hex_byte_at(s, 1);
    let g = hex_byte_at(s, 3);
    let b = hex_byte_at(s, 5);
    match (r, g, b) {
        (Some(r), Some(g), Some(b)) => {
            assert forall|i: int| 1 <= i < 7 implies hex_digit_val(#[trigger] s@[i]) >= 0 by {}
            Some(Color { r, g, b })
        },
        _ => None,
    }
}

} // verus!
