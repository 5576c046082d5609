//! Text helpers, the Name type and the Ada amount format.

use vstd::prelude::*;
use vstd::string::*;
use vstd::utf8::*;
use num_format::ToFormattedString;

verus! {

/// The first `n` characters of `s` (all of `s` when it is shorter).
pub open spec fn take_chars(s: Seq<char>, n: int) -> Seq<char> {
    if n >= s.len() {
        s
    } else if n <= 0 {
        Seq::empty()
    } else {
        s.subrange(0, n)
    }
}

/// `s` without its first `n` characters (empty when it is shorter).
pub open spec fn skip_chars(s: Seq<char>, n: int) -> Seq<char> {
    if n >= s.len() {
        Seq::empty()
    } else if n <= 0 {
        s
    } else {
        s.subrange(n, s.len() as int)
    }
}

pub open spec fn ellipsis() -> Seq<char> {
    seq!['.', '.', '.']
}

/// What `clip` shows of `s` in a budget of `len`.
///
/// The budget is compared with the UTF-8 byte length of the text; when the
/// text is too long, the head and tail are taken by characters, the tail
/// starting at the byte length minus the tail size.
pub open spec fn clip_spec(s: Seq<char>, len: nat) -> Seq<char> {
    let byte_len = encode_utf8(s).len();
    if byte_len <= len {
        s
    } else if len <= 3 {
        take_chars(s, len as int)
    } else {
        let budget = len - 3;
        let first = budget / 2;
        let second = budget - first;
        take_chars(s, first) + ellipsis() + skip_chars(s, byte_len - second)
    }
}

/// Appends one character to a string.
#[verifier::external_body]
pub(crate) fn push_char(s: &mut String, c: char)
    ensures
        final(s)@ == old(s)@.push(c),
{
    s.push(c);
}

/// The characters of `s` from `from` (inclusive) to `to` (exclusive), as a new string.
fn chars_between(s: &str, from: usize, to: usize) -> (r: String)
    requires
        from <= to <= s@.len(),
    ensures
        r@ == s@.subrange(from as int, to as int),
{
    let part = s.substring_char(from, to);
    String::from_str(part)
}

/// The first `n` characters of `s`.
pub fn take_prefix(s: &str, n: usize) -> (r: String)
    ensures
        r@ == take_chars(s@, n as int),
{
    let count = s.unicode_len();
    if n >= count {
        String::from_str(s)
    } else {
        chars_between(s, 0, n)
    }
}

/// `s` without its first `n` characters.
pub fn drop_prefix(s: &str, n: usize) -> (r: String)
    ensures
        r@ == skip_chars(s@, n as int),
{
    let count = s.unicode_len();
    if n >= count {
        String::new()
    } else if n == 0 {
        String::from_str(s)
    } else {
        chars_between(s, n, count)
    }
}

/// Shortens `input` to fit a display budget of `len`, keeping its head and
/// tail around an ellipsis; a budget of three or less keeps only the head.
pub fn clip(input: &str, len: usize) -> (r: String)
    requires
        encode_utf8(input@).len() <= usize::MAX,
    ensures
        r@ == clip_spec(input@, len as nat),
{
    let byte_len = input.len();
    if byte_len <= len {
        return String::from_str(input);
    }
    let ellipsis_len: usize = 3;
    if len <= ellipsis_len {
        return take_prefix(input, len);
    }
    let chars_to_take = len - ellipsis_len;
    let first_half_len = chars_to_take / 2;
    let second_half_len = chars_to_take - first_half_len;

    let mut out = take_prefix(input, first_half_len);
    out.append("...");
    let last_part = drop_prefix(input, byte_len - second_half_len);
    out.append(last_part.as_str());
    proof {
        reveal_strlit("...");
    }
    out
}

/// The option's label, marked with ` (current)` when it is the current one.
pub fn show_is_current(option: &str, is_current: bool) -> (r: String)
    ensures
        is_current ==> r@ == option@ + " (current)"@,
        !is_current ==> r@ == option@,
{
    if is_current {
        String::from_str(option).concat(" (current)")
    } else {
        String::from_str(option)
    }
}

} // verus!

verus! {

/// Why a name was refused.
#[derive(Debug, Clone, Copy, PartialEq, Eq, Structural)]
pub enum NameError {
    /// The value was empty.
    Empty,
}

impl NameError {
    /// The message shown for this error.
    pub fn message(&self) -> (r: String)
        ensures
            r@ == "Value cannot be empty."@,
    {
        String::from_str("Value cannot be empty.")
    }
}

/// A non-empty user-given name (of a wallet or a provider).
#[derive(Debug)]
pub struct Name(String);

impl Clone for Name {
    fn clone(&self) -> (r: Self)
        ensures
            r@ == self@,
    {
        proof {
            use_type_invariant(self);
        }
        Name(self.0.clone())
    }
}

impl View for Name {
    type V = Seq<char>;

    closed spec fn view(&self) -> Seq<char> {
        self.0@
    }
}

impl Name {
    #[verifier::type_invariant]
    spec fn non_empty(self) -> bool {
        self.0@.len() > 0
    }

    /// Accepts any non-empty value as a name.
    pub fn try_from(value: &str) -> (r: Result<Name, NameError>)
        ensures
            value@.len() == 0 <==> r is Err,
            r matches Ok(n) ==> n@ == value@,
    {
        if value.is_empty() {
            Err(NameError::Empty)
        } else {
            Ok(Name(String::from_str(value)))
        }
    }

    /// The name as text.
    pub fn as_str(&self) -> (r: &str)
        ensures
            r@ == self@,
            r@.len() > 0,
    {
        proof {
            use_type_invariant(self);
        }
        self.0.as_str()
    }

    /// The name as an owned string.
    pub fn to_string(&self) -> (r: String)
        ensures
            r@ == self@,
    {
        self.0.clone()
    }

    /// The name as a URL- and file-friendly slug.
    pub fn normalized(&self) -> (r: String)
        ensures
            r@ == slugified(self@),
            is_slug(r@),
    {
        slugify(self.0.as_str())
    }

    /// Whether two names are the same text.
    pub fn same(&self, other: &Name) -> (r: bool)
        ensures
            r == (self@ == other@),
    {
        self.0 == other.0
    }

    /// Whether the name is the text `s`.
    pub fn is(&self, s: &str) -> (r: bool)
        ensures
            r == (self@ == s@),
    {
        str_eq(self.0.as_str(), s)
    }
}

/// Whether two strings hold the same text.
#[verifier::external_body]
pub(crate) fn str_eq(a: &str, b: &str) -> (r: bool)
    ensures
        r == (a@ == b@),
{
    a == b
}

/// What `slug::slugify` returns for a text.
pub uninterp spec fn slugified(s: Seq<char>) -> Seq<char>;

/// A slug holds only `a`-`z`, `0`-`9` and `-`, never two `-` in a row, and
/// neither starts nor ends with `-`.
pub open spec fn is_slug(s: Seq<char>) -> bool {
    &&& forall|i: int| 0 <= i < s.len() ==> {
        let c = #[trigger] s[i];
        ('a' <= c && c <= 'z') || ('0' <= c && c <= '9') || c == '-'
    }
    &&& forall|i: int| 0 <= i < s.len() - 1 ==> !(#[trigger] s[i] == '-' && s[i + 1] == '-')
    &&& s.len() > 0 ==> s[0] != '-' && s.last() != '-'
}

/// Calls `slug::slugify`: the result is named `slugified`, and it has the
/// shape that the crate documents (only `a`-`z`, `0`-`9` and `-`, no double
/// `-`, none at either end). How each character is transliterated is left unsaid.
#[verifier::external_body]
fn slugify(s: &str) -> (r: String)
    ensures
        r@ == slugified(s@),
        is_slug(r@),
{
    slug::slugify(s)
}

/// What `num_format` writes for an unsigned integer in the `en` locale: its
/// decimal digits in groups of three separated by `,`.
pub open spec fn en_formatted(n: nat) -> Seq<char> {
    crate::numbers::group_thousands(crate::numbers::decimal(n))
}

/// Calls `num_format::ToFormattedString::to_formatted_string` with
/// `Locale::en`, whose grouping is the standard one (groups of three) and
/// whose separator is `,`.
#[verifier::external_body]
fn format_en(n: u64) -> (r: String)
    ensures
        r@ == en_formatted(n as nat),
{
    n.to_formatted_string(&num_format::Locale::en)
}

/// How an amount of lovelace reads in Ada: whole Ada grouped by thousands,
/// a `.`, then the six decimals.
pub open spec fn ada_text(lovelace: nat) -> Seq<char> {
    en_formatted(lovelace / 1_000_000) + seq!['.'] + crate::numbers::zero_padded(lovelace % 1_000_000, 6)
}

/// Formats lovelace amounts as Ada.
pub trait AdaFormat {
    fn format_ada(self) -> String;
}

impl AdaFormat for u64 {
    fn format_ada(self) -> (r: String)
        ensures
            r@ == ada_text(self as nat),
    {
        let factor: u64 = 1_000_000;
        let whole = self / factor;
        let fraction = self % factor;
        let mut out = format_en(whole);
        out.append(".");
        let fraction_str = crate::numbers::u64_zero_padded(fraction, 6);
        out.append(fraction_str.as_str());
        proof {
            reveal_strlit(".");
        }
        out
    }
}

} // verus!
