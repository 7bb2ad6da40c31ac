//! The canonical BitTorrent v1 info-hash: twenty bytes, parsed from a
//! 40-character hexadecimal string (case-insensitive) and printed back as
//! canonical lowercase hexadecimal, plus the magnet identifier derived from it.

use vstd::prelude::*;
use vstd::string::{StrSliceExecFns, StringExecFns};

use crate::hex::{
    all_hex_digits, ascii_lowercase, bytes_of_hex, hex_char, hex_char_of, hex_digit_of_char,
    hex_digit_value, hex_of_bytes, is_hex_digit, lemma_hex_char_of_value,
    lemma_hex_digit_lowercase, lower_char, push_char,
};

verus! {

/// A string denotes an info-hash exactly when it consists of 40 hexadecimal
/// digits, in either case.
pub open spec fn valid_info_hash_hex(s: Seq<char>) -> bool {
    s.len() == 40 && all_hex_digits(s)
}

/// The magnet identifier submitted to the torrent engine for a given hash.
pub open spec fn magnet_uri_of(hash: Seq<u8>) -> Seq<char> {
    "magnet:?xt=urn:btih:"@ + hex_of_bytes(hash)
}

/// Why a string was rejected as an info-hash.
#[derive(Clone, Copy, Debug, PartialEq, Eq, Structural)]
pub enum ParseError {
    /// The string is not exactly 40 hexadecimal characters.
    InvalidInfoHash,
}

/// A validated 20-byte v1 info-hash. Its view is the byte sequence.
#[derive(Debug)]
pub struct InfoHash {
    bytes: Vec<u8>,
}

impl View for InfoHash {
    type V = Seq<u8>;

    closed spec fn view(&self) -> Seq<u8> {
        self.bytes@
    }
}

impl InfoHash {
    /// A value of this type always holds exactly twenty bytes.
    #[verifier::type_invariant]
    spec fn wf(self) -> bool {
        self.bytes@.len() == 20
    }

    /// Parses a 40-character hexadecimal string, in either case, into the
    /// twenty bytes it denotes; any other string is rejected.
    pub fn from_str(s: &str) -> (r: Result<InfoHash, ParseError>)
        ensures
            r is Ok <==> valid_info_hash_hex(s@),
            r is Ok ==> r->Ok_0@ == bytes_of_hex(s@) && r->Ok_0@.len() == 20,
            r is Err ==> r->Err_0 == ParseError::InvalidInfoHash,
    {
        if s.unicode_len() != 40 {
            return Err(ParseError::InvalidInfoHash);
        }
        let mut bytes: Vec<u8> = Vec::new();
        let mut i: usize = 0;
        while i < 20
            invariant
                s@.len() == 40,
                i <= 20,
                bytes@.len() == i,
                forall|j: int| 0 <= j < 2 * i ==> is_hex_digit(#[trigger] s@[j]),
                forall|j: int|
                    0 <= j < i ==> bytes@[j] == (hex_digit_value(s@[2 * j]) * 16 + hex_digit_value(
                        s@[2 * j + 1],
                    )) as u8,
            decreases 20 - i,
        {
            let hi = s.get_char(2 * i);
            let lo = s.get_char(2 * i + 1);
            match (hex_digit_of_char(hi), hex_digit_of_char(lo)) {
                (Some(h), Some(l)) => {
                    bytes.push(h * 16 + l);
                },
                _ => {
                    return Err(ParseError::InvalidInfoHash);
                },
            }
            i += 1;
        }
        proof {
            assert(bytes@ =~= bytes_of_hex(s@));
        }
        Ok(InfoHash { bytes })
    }

    /// The canonical lowercase hexadecimal form of the hash: 40 characters.
    pub fn to_hex_string(&self) -> (r: String)
        ensures
            r@ == hex_of_bytes(self@),
    {
        let mut r = String::new();
        let mut i: usize = 0;
        while i < self.bytes.len()
            invariant
                i <= self.bytes@.len(),
                r@.len() == 2 * i,
                forall|j: int| 0 <= j < 2 * i ==> r@[j] == hex_of_bytes(self.bytes@)[j],
            decreases self.bytes@.len() - i,
        {
            let b = self.bytes[i];
            let hi = hex_char(b / 16);
            let lo = hex_char(b % 16);
            push_char(&mut r, hi);
            push_char(&mut r, lo);
            i += 1;
        }
        proof {
            assert(r@ =~= hex_of_bytes(self@));
        }
        r
    }

    /// The magnet identifier handed to the torrent engine for this hash.
    pub fn magnet_link(&self) -> (m: String)
        ensures
            m@ == magnet_uri_of(self@),
    {
        let mut m = "magnet:?xt=urn:btih:".to_owned();
        let hex = self.to_hex_string();
        m.append(hex.as_str());
        m
    }
}

/// A string of 40 hexadecimal digits and its ASCII-lowercased form denote the
/// same bytes, and the canonical hexadecimal form of those bytes is exactly
/// the lowercased input: parsing is case-insensitive, printing canonical.
pub proof fn lemma_canonical_hex(s: Seq<char>)
    requires
        valid_info_hash_hex(s),
    ensures
        hex_of_bytes(bytes_of_hex(s)) == ascii_lowercase(s),
{
    let b = bytes_of_hex(s);
    let h = hex_of_bytes(b);
    assert forall|i: int| 0 <= i < 40 implies h[i] == lower_char(s[i]) by {
        let j = i / 2;
        let v_hi = hex_digit_value(s[2 * j]);
        let v_lo = hex_digit_value(s[2 * j + 1]);
        assert(is_hex_digit(s[2 * j]) && is_hex_digit(s[2 * j + 1]));
        assert(v_hi < 16 && v_lo < 16);
        assert(b[j] == v_hi * 16 + v_lo);
        assert((b[j] as int / 16) as u8 == v_hi && (b[j] as int % 16) as u8 == v_lo);
        lemma_lower_of_hex_digit(s[2 * j]);
        lemma_lower_of_hex_digit(s[2 * j + 1]);
    }
    assert(h =~= ascii_lowercase(s));
}

/// The canonical digit of a hexadecimal digit's value is its lowercase form.
proof fn lemma_lower_of_hex_digit(c: char)
    requires
        is_hex_digit(c),
    ensures
        hex_char_of(hex_digit_value(c)) == lower_char(c),
{
}

/// Round trip: the canonical hexadecimal string of any twenty bytes is a valid
/// info-hash string and parses back to exactly those bytes.
pub proof fn lemma_hex_round_trip(b: Seq<u8>)
    requires
        b.len() == 20,
    ensures
        valid_info_hash_hex(hex_of_bytes(b)),
        bytes_of_hex(hex_of_bytes(b)) == b,
{
    let s = hex_of_bytes(b);
    assert forall|i: int| 0 <= i < s.len() implies is_hex_digit(#[trigger] s[i]) by {
        if i % 2 == 0 {
            lemma_hex_char_of_value((b[i / 2] as int / 16) as u8);
        } else {
            lemma_hex_char_of_value((b[i / 2] as int % 16) as u8);
        }
    }
    assert forall|j: int| 0 <= j < 20 implies bytes_of_hex(s)[j] == b[j] by {
        lemma_hex_char_of_value((b[j] as int / 16) as u8);
        lemma_hex_char_of_value((b[j] as int % 16) as u8);
    }
    assert(bytes_of_hex(s) =~= b);
}

/// Two strings that differ only in ASCII case are either both valid info-hash
/// strings or both invalid, and when valid they denote the same bytes and the
/// same canonical hexadecimal output.
pub proof fn lemma_parse_case_insensitive(s: Seq<char>, t: Seq<char>)
    requires
        ascii_lowercase(s) == ascii_lowercase(t),
    ensures
        valid_info_hash_hex(s) <==> valid_info_hash_hex(t),
        valid_info_hash_hex(s) ==> bytes_of_hex(s) == bytes_of_hex(t),
        valid_info_hash_hex(s) ==> hex_of_bytes(bytes_of_hex(s)) == hex_of_bytes(bytes_of_hex(t)),
{
    assert(s.len() == ascii_lowercase(s).len());
    assert(t.len() == ascii_lowercase(t).len());
    assert(s.len() == t.len());
    assert forall|i: int| 0 <= i < s.len() implies lower_char(s[i]) == lower_char(t[i]) by {
        assert(ascii_lowercase(s)[i] == lower_char(s[i]));
        assert(ascii_lowercase(t)[i] == lower_char(t[i]));
    }
    assert forall|i: int|
        0 <= i < s.len() implies (is_hex_digit(s[i]) <==> is_hex_digit(t[i])) && (is_hex_digit(
        s[i],
    ) ==> hex_digit_value(s[i]) == hex_digit_value(t[i])) by {
        lemma_hex_digit_lowercase(s[i]);
        lemma_hex_digit_lowercase(t[i]);
    }
    if valid_info_hash_hex(s) {
        assert(valid_info_hash_hex(t));
        assert(bytes_of_hex(s) =~= bytes_of_hex(t));
    }
    if valid_info_hash_hex(t) {
        assert(valid_info_hash_hex(s));
    }
}

} // verus!
