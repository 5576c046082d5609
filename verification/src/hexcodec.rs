//! Hexadecimal text for byte strings, through the `hex` crate.

use vstd::prelude::*;

verus! {

/// The lowercase hex digit for a value below sixteen.
pub open spec fn hex_char(v: nat) -> char {
    if v < 10 {
        crate::numbers::digit_char(v)
    } else if v == 10 { 'a' }
    else if v == 11 { 'b' }
    else if v == 12 { 'c' }
    else if v == 13 { 'd' }
    else if v == 14 { 'e' }
    else { 'f' }
}

/// The value of a hex digit of either case.
pub open spec fn hex_value(c: char) -> Option<nat> {
    if c == 'a' || c == 'A' { Some(10) }
    else if c == 'b' || c == 'B' { Some(11) }
    else if c == 'c' || c == 'C' { Some(12) }
    else if c == 'd' || c == 'D' { Some(13) }
    else if c == 'e' || c == 'E' { Some(14) }
    else if c == 'f' || c == 'F' { Some(15) }
    else { crate::numbers::digit_value(c) }
}

/// Lowercase hex text of bytes, two digits per byte.
pub open spec fn hex_text(b: Seq<u8>) -> Seq<char>
    decreases b.len(),
{
    if b.len() == 0 {
        Seq::empty()
    } else {
        hex_text(b.drop_last()) + seq![hex_char((b.last() / 16) as nat), hex_char((b.last() % 16) as nat)]
    }
}

/// The hex text of bytes has two digits per byte.
pub proof fn lemma_hex_text_len(b: Seq<u8>)
    ensures
        hex_text(b).len() == 2 * b.len(),
    decreases b.len(),
{
    if b.len() > 0 {
        lemma_hex_text_len(b.drop_last());
    }
}

/// Whether every character is a hex digit.
pub open spec fn all_hex(s: Seq<char>) -> bool {
    forall|i: int| 0 <= i < s.len() ==> (#[trigger] hex_value(s[i])) is Some
}

/// The bytes of a hex text, two digits per byte, when it has that shape.
pub open spec fn hex_bytes(s: Seq<char>) -> Option<Seq<u8>> {
    if s.len() % 2 == 0 && all_hex(s) {
        Some(Seq::new(s.len() / 2, |i: int|
            (hex_value(s[2 * i]).unwrap() * 16 + hex_value(s[2 * i + 1]).unwrap()) as u8))
    } else {
        None
    }
}

/// Why a hex text was refused.
#[derive(Debug, Clone, Copy, PartialEq, Eq, Structural)]
pub enum HexError {
    /// The text has an odd number of bytes.
    OddLength,
    /// A character that is not a hex digit, at a byte position.
    InvalidHexCharacter { c: char, index: usize },
    /// Any other refusal.
    Other,
}

/// Calls `hex::encode`: the lowercase hex text of the bytes, two digits per byte.
#[verifier::external_body]
pub(crate) fn hex_encode(data: &[u8]) -> (r: String)
    ensures
        r@ == hex_text(data@),
{
    hex::encode(data)
}

/// Calls `hex::decode`: the bytes of a text of an even number of hex digits
/// (either case), otherwise an error, which says an odd length when the text
/// has an odd number of bytes. Which character and position a
/// character error reports is left unsaid.
#[verifier::external_body]
pub(crate) fn hex_decode(s: &str) -> (r: Result<Vec<u8>, HexError>)
    ensures
        match hex_bytes(s@) {
            Some(b) => r matches Ok(v) && v@ == b,
            None => r is Err,
        },
        r matches Err(e) ==> ((e == HexError::OddLength) <==> vstd::utf8::encode_utf8(s@).len() % 2 == 1),
{
    match hex::decode(s) {
        Ok(v) => Ok(v),
        Err(hex::FromHexError::OddLength) => Err(HexError::OddLength),
        Err(hex::FromHexError::InvalidHexCharacter { c, index }) => Err(HexError::InvalidHexCharacter { c, index }),
        Err(_) => Err(HexError::Other),
    }
}

} // verus!
