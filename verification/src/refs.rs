//! References to blocks (`hash,index`) and to outputs (`hash#index`) typed by a user.

use vstd::prelude::*;
use vstd::string::*;
use crate::headers::{split_on, split_text};
use crate::hexcodec::{HexError, hex_bytes, hex_decode};
use crate::numbers::{parse_u32, parse_u64, unsigned_text_value};

verus! {

/// What `regex` finds as the first match of `pattern` in `text`: `None` when
/// the pattern does not compile, `Some(None)` when nothing matches, else the
/// text of capture groups 1 and 2 (each absent when it took no part).
pub uninterp spec fn regex_two_groups(pattern: Seq<char>, text: Seq<char>)
    -> Option<Option<(Option<Seq<char>>, Option<Seq<char>>)>>;

pub open spec fn opt_view(s: Option<String>) -> Option<Seq<char>> {
    match s {
        Some(s) => Some(s@),
        None => None,
    }
}

/// The pattern of a block reference: anything, a comma, then digits.
pub const BLOCK_REF_PATTERN: &'static str = "(.+),(\\d+)";

/// Calls `regex::Regex::new` and then `Regex::captures` on the first match:
/// the result is named `regex_two_groups`. For the block-reference pattern,
/// whose two groups are not optional, a match holds both groups.
#[verifier::external_body]
pub(crate) fn first_two_groups(pattern: &str, text: &str) -> (r: Option<Option<(Option<String>, Option<String>)>>)
    ensures
        match (r, regex_two_groups(pattern@, text@)) {
            (None, None) => true,
            (Some(None), Some(None)) => true,
            (Some(Some((a, b))), Some(Some((x, y)))) => opt_view(a) == x && opt_view(b) == y,
            _ => false,
        },
        pattern@ == BLOCK_REF_PATTERN@ ==> (r matches Some(Some((a, b))) ==> a is Some && b is Some),
{
    match regex::Regex::new(pattern) {
        Err(_) => None,
        Ok(re) => match re.captures(text) {
            None => Some(None),
            Some(c) => Some(Some((c.get(1).map(|m| m.as_str().to_string()), c.get(2).map(|m| m.as_str().to_string())))),
        },
    }
}

/// Why a typed reference was refused.
#[derive(Debug, Clone, Copy, PartialEq, Eq)]
pub enum RefError {
    /// The pattern of references did not compile.
    BadPattern,
    /// The text is not of the expected shape.
    InvalidFormat,
    /// The index is not an unsigned integer of the expected size.
    InvalidIndex,
    /// The hash is not hex.
    InvalidHash(HexError),
}

/// A block reference from the two groups matched in its text: the hash
/// (hex) and the index. The index is read before the hash.
pub open spec fn block_ref_of(hash: Seq<char>, index: Seq<char>) -> Result<(Seq<u8>, u64), RefError> {
    match unsigned_text_value(index) {
        Some(v) if v <= u64::MAX => match hex_bytes(hash) {
            Some(b) => Ok((b, v as u64)),
            None => Err(RefError::InvalidHash(HexError::Other)),
        },
        _ => Err(RefError::InvalidIndex),
    }
}

pub open spec fn same_outcome(r: Result<(Vec<u8>, u64), RefError>, s: Result<(Seq<u8>, u64), RefError>) -> bool {
    match (r, s) {
        (Ok((a, i)), Ok((b, j))) => a@ == b && i == j,
        (Err(RefError::InvalidHash(_)), Err(RefError::InvalidHash(_))) => true,
        (Err(e), Err(f)) => e == f,
        _ => false,
    }
}

/// The block reference from the groups that the pattern matched.
pub fn block_ref_from_groups(hash: &str, index: &str) -> (r: Result<(Vec<u8>, u64), RefError>)
    ensures
        same_outcome(r, block_ref_of(hash@, index@)),
{
    let idx = match parse_u64(index) {
        Some(v) => v,
        None => return Err(RefError::InvalidIndex),
    };
    match hex_decode(hash) {
        Ok(bytes) => Ok((bytes, idx)),
        Err(e) => Err(RefError::InvalidHash(e)),
    }
}

/// What a typed block reference gives, from what the pattern matched in it.
pub open spec fn block_ref_from_match(m: Option<Option<(Option<Seq<char>>, Option<Seq<char>>)>>) -> Result<(Seq<u8>, u64), RefError> {
    match m {
        None => Err(RefError::BadPattern),
        Some(None) => Err(RefError::InvalidFormat),
        Some(Some((Some(h), Some(i)))) => block_ref_of(h, i),
        Some(Some(_)) => Err(RefError::InvalidFormat),
    }
}

/// A block reference typed as `hash,index`.
pub fn parse_block_ref(text: &str) -> (r: Result<(Vec<u8>, u64), RefError>)
    ensures
        same_outcome(r, block_ref_from_match(regex_two_groups(BLOCK_REF_PATTERN@, text@))),
{
    match first_two_groups(BLOCK_REF_PATTERN, text) {
        None => Err(RefError::BadPattern),
        Some(None) => Err(RefError::InvalidFormat),
        Some(Some((Some(hash), Some(index)))) => block_ref_from_groups(hash.as_str(), index.as_str()),
        Some(Some(_)) => Err(RefError::InvalidFormat),
    }
}

/// The typed block reference `text` reads as `pair`.
pub open spec fn block_ref_read_as(text: Seq<char>, pair: (Vec<u8>, u64)) -> bool {
    match block_ref_from_match(regex_two_groups(BLOCK_REF_PATTERN@, text)) {
        Ok((h, x)) => pair.0@ == h && pair.1 == x,
        Err(_) => false,
    }
}

/// Every typed block reference, in order; the first refused one stops the reading.
pub fn parse_block_refs(texts: &Vec<String>) -> (r: Result<Vec<(Vec<u8>, u64)>, (usize, RefError)>)
    ensures
        match r {
            Ok(v) => v.len() == texts.len() && forall|i: int| 0 <= i < texts.len() ==>
                #[trigger] block_ref_read_as(texts@[i]@, v@[i]),
            Err((k, e)) => k < texts.len()
                && block_ref_from_match(regex_two_groups(BLOCK_REF_PATTERN@, texts@[k as int]@)) is Err
                && forall|i: int| 0 <= i < k ==> #[trigger] block_ref_from_match(regex_two_groups(BLOCK_REF_PATTERN@, texts@[i]@)) is Ok,
        },
{
    let mut out: Vec<(Vec<u8>, u64)> = Vec::new();
    let mut i: usize = 0;
    while i < texts.len()
        invariant
            i <= texts.len(),
            out.len() == i,
            forall|j: int| 0 <= j < i ==> #[trigger] block_ref_read_as(texts@[j]@, out@[j]),
        decreases texts.len() - i,
    {
        match parse_block_ref(texts[i].as_str()) {
            Ok(pair) => out.push(pair),
            Err(e) => {
                proof {
                    assert(block_ref_from_match(regex_two_groups(BLOCK_REF_PATTERN@, texts@[i as int]@)) is Err);
                    assert forall|j: int| 0 <= j < i implies #[trigger] block_ref_from_match(regex_two_groups(BLOCK_REF_PATTERN@, texts@[j]@)) is Ok by {
                        assert(block_ref_read_as(texts@[j]@, out@[j]));
                    }
                }
                return Err((i, e));
            },
        }
        i += 1;
    }
    Ok(out)
}

/// What an output reference typed as `hash#index` gives: exactly two pieces
/// around one `#`, the hash read as hex first, then the index.
pub open spec fn utxo_ref_of(text: Seq<char>) -> Result<(Seq<u8>, u64), RefError> {
    let parts = split_on(text, '#');
    if parts.len() != 2 {
        Err(RefError::InvalidFormat)
    } else {
        match hex_bytes(parts[0]) {
            None => Err(RefError::InvalidHash(HexError::Other)),
            Some(b) => match unsigned_text_value(parts[1]) {
                Some(v) if v <= u64::MAX => Ok((b, v as u64)),
                _ => Err(RefError::InvalidIndex),
            },
        }
    }
}

/// An output reference typed as `hash#index`.
pub fn parse_utxo_ref(text: &str) -> (r: Result<(Vec<u8>, u64), RefError>)
    ensures
        same_outcome(r, utxo_ref_of(text@)),
{
    let parts = split_text(text, '#');
    if parts.len() != 2 {
        return Err(RefError::InvalidFormat);
    }
    let txid = match hex_decode(parts[0].as_str()) {
        Ok(b) => b,
        Err(e) => return Err(RefError::InvalidHash(e)),
    };
    match parse_u64(parts[1].as_str()) {
        Some(v) => Ok((txid, v)),
        None => Err(RefError::InvalidIndex),
    }
}

/// The position of the first `c` in `s`.
pub open spec fn first_index_of(s: Seq<char>, c: char) -> Option<int> {
    if exists|i: int| 0 <= i < s.len() && s[i] == c {
        Some(choose|i: int| 0 <= i < s.len() && s[i] == c && forall|j: int| 0 <= j < i ==> s[j] != c)
    } else {
        None
    }
}

/// What an output reference typed as `hash#index` gives when it is split at
/// its first `#` and its index must fit in 32 bits.
pub open spec fn utxo_ref32_of(text: Seq<char>) -> Result<(Seq<u8>, u32), RefError> {
    match first_index_of(text, '#') {
        None => Err(RefError::InvalidFormat),
        Some(k) => match hex_bytes(text.subrange(0, k)) {
            None => Err(RefError::InvalidHash(HexError::Other)),
            Some(b) => match unsigned_text_value(text.subrange(k + 1, text.len() as int)) {
                Some(v) if v <= u32::MAX => Ok((b, v as u32)),
                _ => Err(RefError::InvalidIndex),
            },
        },
    }
}

/// An output reference typed as `hash#index`, split at its first `#`, with
/// an index that fits in 32 bits.
pub fn parse_utxo_ref32(text: &str) -> (r: Result<(Vec<u8>, u32), RefError>)
    ensures
        match (r, utxo_ref32_of(text@)) {
            (Ok((a, i)), Ok((b, j))) => a@ == b && i == j,
            (Err(RefError::InvalidHash(_)), Err(RefError::InvalidHash(_))) => true,
            (Err(e), Err(f)) => e == f,
            _ => false,
        },
{
    let count = text.unicode_len();
    let mut k: usize = 0;
    while k < count && text.get_char(k) != '#'
        invariant
            k <= count,
            count == text@.len(),
            forall|j: int| 0 <= j < k ==> text@[j] != '#',
        decreases count - k,
    {
        k += 1;
    }
    if k == count {
        return Err(RefError::InvalidFormat);
    }
    proof {
        let s = text@;
        assert(exists|i: int| 0 <= i < s.len() && s[i] == '#');
        let c = choose|i: int| 0 <= i < s.len() && s[i] == '#' && forall|j: int| 0 <= j < i ==> s[j] != '#';
        assert(exists|i: int| 0 <= i < s.len() && s[i] == '#' && forall|j: int| 0 <= j < i ==> s[j] != '#') by {
            assert(forall|j: int| 0 <= j < k ==> s[j] != '#');
        }
        if c < k as int {
            assert(s[c] != '#');
        } else if c > k as int {
            assert(s[k as int] == '#');
        }
    }
    let hash = text.substring_char(0, k);
    let index = text.substring_char(k + 1, count);
    let bytes = match hex_decode(hash) {
        Ok(b) => b,
        Err(e) => return Err(RefError::InvalidHash(e)),
    };
    match parse_u32(index) {
        Some(v) => Ok((bytes, v)),
        None => Err(RefError::InvalidIndex),
    }
}

/// A block reference made of a slot and a hash text: the hash is the text's
/// UTF-8 bytes, not its hex value.
pub fn block_ref(index: u64, hash: &str) -> (r: (Vec<u8>, u64))
    ensures
        r.0@ == vstd::utf8::encode_utf8(hash@),
        r.1 == index,
{
    let bytes = hash.as_bytes();
    let mut out: Vec<u8> = Vec::new();
    let mut i: usize = 0;
    while i < bytes.len()
        invariant
            i <= bytes@.len(),
            out@ == bytes@.take(i as int),
        decreases bytes@.len() - i,
    {
        out.push(bytes[i]);
        assert(out@ =~= bytes@.take(i + 1));
        i += 1;
    }
    assert(bytes@.take(i as int) =~= bytes@);
    (out, index)
}

/// Where the next page of the chain history starts: at the reference the
/// page gave, when the next page was asked for and there is one; `None`
/// stops the dump.
pub fn next_history_start(wants_more: bool, next: Option<(Vec<u8>, u64)>) -> (r: Option<(Vec<u8>, u64)>)
    ensures
        r == (if wants_more { next } else { None }),
{
    if wants_more { next } else { None }
}

} // verus!
