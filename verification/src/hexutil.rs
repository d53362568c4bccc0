//! Hex decoding, specified exactly and delegated to the hex crate.

use vstd::prelude::*;

verus! {

/// Whether `c` is an ASCII hex digit (0-9, a-f, A-F).
pub open spec fn is_hex_digit(c: u8) -> bool {
    (48 <= c <= 57) || (97 <= c <= 102) || (65 <= c <= 70)
}

/// Whether every byte of `s` is an ASCII hex digit.
pub open spec fn all_hex_digits(s: Seq<u8>) -> bool {
    forall|i: int| 0 <= i < s.len() ==> is_hex_digit(#[trigger] s[i])
}

/// The value of one hex digit.
pub open spec fn hex_nibble(c: u8) -> u8 {
    if 48 <= c <= 57 {
        (c - 48) as u8
    } else if 97 <= c <= 102 {
        (c - 87) as u8
    } else if 65 <= c <= 70 {
        (c - 55) as u8
    } else {
        0
    }
}

/// The bytes an even-length hex digit string decodes to: each adjacent
/// digit pair becomes one byte, high nibble first.
pub open spec fn hex_decoded(s: Seq<u8>) -> Seq<u8> {
    Seq::new(s.len() / 2, |i: int| (hex_nibble(s[2 * i]) * 16 + hex_nibble(s[2 * i + 1])) as u8)
}

/// Why a hex string was rejected.
#[derive(Clone, Copy, Debug, PartialEq, Eq)]
pub enum HexDecodeError {
    /// The input holds an odd number of digits.
    OddLength,
    /// A byte of the input is not a hex digit.
    InvalidCharacter,
}

/// Exactly what `hex_decode_bytes` returns for `s`: decoding succeeds
/// precisely on an even-length string of hex digits, an odd length is
/// reported before a bad digit, and the three cases are exclusive.
pub open spec fn hex_decode_post(s: Seq<u8>, r: Result<Vec<u8>, HexDecodeError>) -> bool {
    match r {
        Ok(v) => s.len() % 2 == 0 && all_hex_digits(s) && v@ == hex_decoded(s),
        Err(HexDecodeError::OddLength) => s.len() % 2 != 0,
        Err(HexDecodeError::InvalidCharacter) => s.len() % 2 == 0 && !all_hex_digits(s),
    }
}

/// Relies on `hex::decode`: an even-length string of hex digits decodes to
/// its nibble pairs, high nibble of each pair first; an odd length and a
/// non-digit byte are rejected, the odd length first.
#[verifier::external_body]
pub fn hex_decode_bytes(s: &Vec<u8>) -> (r: Result<Vec<u8>, HexDecodeError>)
    ensures
        hex_decode_post(s@, r),
{
    match hex::decode(s.as_slice()) {
        Ok(v) => Ok(v),
        Err(hex::FromHexError::OddLength) => Err(HexDecodeError::OddLength),
        Err(_) => Err(HexDecodeError::InvalidCharacter),
    }
}


/// One lowercase hex digit: 0-9 then a-f.
pub open spec fn hex_lower_digit(n: u8) -> char {
    if n < 10 {
        (48 + n) as char
    } else {
        (87 + n) as char
    }
}

/// The lowercase hex text of a byte string: two digits per byte, high
/// nibble first.
pub open spec fn hex_encoded(b: Seq<u8>) -> Seq<char> {
    Seq::new(
        b.len() * 2,
        |i: int| if i % 2 == 0 {
            hex_lower_digit(b[i / 2] / 16)
        } else {
            hex_lower_digit(b[i / 2] % 16)
        },
    )
}

/// Relies on `hex::encode`: two lowercase digits per byte, high nibble
/// first.
#[verifier::external_body]
pub fn hex_encode_bytes(b: &Vec<u8>) -> (r: String)
    ensures
        r@ == hex_encoded(b@),
{
    hex::encode(b.as_slice())
}

} // verus!
