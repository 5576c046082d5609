//! Decimal rendering and parsing of integers, and the Ada amount format.

use vstd::prelude::*;
use vstd::string::*;
use crate::utils::push_char;

verus! {

/// The ASCII digit for a value below ten.
pub open spec fn digit_char(d: nat) -> char {
    if d == 0 { '0' }
    else if d == 1 { '1' }
    else if d == 2 { '2' }
    else if d == 3 { '3' }
    else if d == 4 { '4' }
    else if d == 5 { '5' }
    else if d == 6 { '6' }
    else if d == 7 { '7' }
    else if d == 8 { '8' }
    else { '9' }
}

/// The value of an ASCII digit, if `c` is one.
pub open spec fn digit_value(c: char) -> Option<nat> {
    if c == '0' { Some(0) }
    else if c == '1' { Some(1) }
    else if c == '2' { Some(2) }
    else if c == '3' { Some(3) }
    else if c == '4' { Some(4) }
    else if c == '5' { Some(5) }
    else if c == '6' { Some(6) }
    else if c == '7' { Some(7) }
    else if c == '8' { Some(8) }
    else if c == '9' { Some(9) }
    else { None }
}

/// The decimal digits of `n`, without leading zeros.
pub open spec fn decimal(n: nat) -> Seq<char>
    decreases n,
{
    if n < 10 {
        seq![digit_char(n)]
    } else {
        decimal(n / 10).push(digit_char(n % 10))
    }
}

/// The decimal text of an integer, with a leading `-` when it is negative.
pub open spec fn signed_decimal(i: int) -> Seq<char> {
    if i < 0 {
        seq!['-'] + decimal((-i) as nat)
    } else {
        decimal(i as nat)
    }
}

/// `k` zeros.
pub open spec fn zeros(k: nat) -> Seq<char> {
    Seq::new(k, |i: int| '0')
}

/// The decimal digits of `n`, left-padded with zeros to at least `width` characters.
pub open spec fn zero_padded(n: nat, width: nat) -> Seq<char> {
    let d = decimal(n);
    if d.len() >= width {
        d
    } else {
        zeros((width - d.len()) as nat) + d
    }
}

/// Digits with a `,` between each group of three, counted from the right.
pub open spec fn group_thousands(d: Seq<char>) -> Seq<char>
    decreases d.len(),
{
    if d.len() <= 3 {
        d
    } else {
        group_thousands(d.subrange(0, d.len() - 3)) + seq![','] + d.subrange(d.len() - 3, d.len() as int)
    }
}

/// The value of a run of ASCII digits, read most significant first.
pub open spec fn digits_value(s: Seq<char>) -> nat
    decreases s.len(),
{
    if s.len() == 0 {
        0
    } else {
        digits_value(s.drop_last()) * 10 + digit_value(s.last()).unwrap_or(0)
    }
}

pub open spec fn all_digits(s: Seq<char>) -> bool {
    forall|i: int| 0 <= i < s.len() ==> (#[trigger] digit_value(s[i])) is Some
}

/// The unsigned value that standard integer parsing reads from `s`: an
/// optional `+` followed by at least one ASCII digit.
pub open spec fn unsigned_text_value(s: Seq<char>) -> Option<nat> {
    let body = if s.len() > 0 && s[0] == '+' { s.drop_first() } else { s };
    if body.len() > 0 && all_digits(body) {
        Some(digits_value(body))
    } else {
        None
    }
}

/// The signed value that standard integer parsing reads from `s`: an
/// optional `+` or `-` followed by at least one ASCII digit.
pub open spec fn signed_text_value(s: Seq<char>) -> Option<int> {
    if s.len() > 0 && s[0] == '-' {
        let body = s.drop_first();
        if body.len() > 0 && all_digits(body) {
            Some(-(digits_value(body) as int))
        } else {
            None
        }
    } else {
        match unsigned_text_value(s) {
            Some(v) => Some(v as int),
            None => None,
        }
    }
}

fn digit_for(d: u64) -> (c: char)
    requires
        d < 10,
    ensures
        c == digit_char(d as nat),
{
    if d == 0 { '0' }
    else if d == 1 { '1' }
    else if d == 2 { '2' }
    else if d == 3 { '3' }
    else if d == 4 { '4' }
    else if d == 5 { '5' }
    else if d == 6 { '6' }
    else if d == 7 { '7' }
    else if d == 8 { '8' }
    else { '9' }
}

fn value_of_digit(c: char) -> (r: Option<u64>)
    ensures
        match digit_value(c) {
            Some(v) => r == Some(v as u64),
            None => r is None,
        },
{
    if c == '0' { Some(0) }
    else if c == '1' { Some(1) }
    else if c == '2' { Some(2) }
    else if c == '3' { Some(3) }
    else if c == '4' { Some(4) }
    else if c == '5' { Some(5) }
    else if c == '6' { Some(6) }
    else if c == '7' { Some(7) }
    else if c == '8' { Some(8) }
    else if c == '9' { Some(9) }
    else { None }
}

/// Appends the decimal digits of `n` to `out`.
fn push_decimal(out: &mut String, n: u64)
    ensures
        final(out)@ == old(out)@ + decimal(n as nat),
    decreases n,
{
    if n < 10 {
        push_char(out, digit_for(n));
        assert(old(out)@.push(digit_char(n as nat)) =~= old(out)@ + decimal(n as nat));
    } else {
        push_decimal(out, n / 10);
        push_char(out, digit_for(n % 10));
        assert(old(out)@ + decimal((n / 10) as nat) + seq![digit_char((n % 10) as nat)]
            =~= old(out)@ + decimal(n as nat));
    }
}

/// The decimal text of an unsigned integer.
pub fn u64_to_decimal(n: u64) -> (r: String)
    ensures
        r@ == decimal(n as nat),
{
    let mut out = String::new();
    push_decimal(&mut out, n);
    assert(Seq::<char>::empty() + decimal(n as nat) =~= decimal(n as nat));
    out
}

/// The decimal text of a signed integer.
pub fn i64_to_decimal(i: i64) -> (r: String)
    ensures
        r@ == signed_decimal(i as int),
{
    if i < 0 {
        let magnitude: u64 = if i == i64::MIN {
            9223372036854775808u64
        } else {
            (-i) as u64
        };
        let mut out = String::new();
        push_char(&mut out, '-');
        push_decimal(&mut out, magnitude);
        assert(seq!['-'] + decimal(magnitude as nat) =~= Seq::<char>::empty().push('-') + decimal(magnitude as nat));
        out
    } else {
        u64_to_decimal(i as u64)
    }
}

/// `decimal(n)` has at least one digit and at most as many as needed.
pub proof fn lemma_decimal_len(n: nat)
    ensures
        decimal(n).len() >= 1,
        n < 10 ==> decimal(n).len() == 1,
    decreases n,
{
    if n >= 10 {
        lemma_decimal_len(n / 10);
    }
}

/// The decimal digits of `n`, left-padded with zeros to `width` characters.
pub fn u64_zero_padded(n: u64, width: usize) -> (r: String)
    ensures
        r@ == zero_padded(n as nat, width as nat),
{
    let digits = u64_to_decimal(n);
    let count = digits.as_str().unicode_len();
    if count >= width {
        digits
    } else {
        let mut out = String::new();
        let pad = width - count;
        let mut i: usize = 0;
        while i < pad
            invariant
                i <= pad,
                out@ == zeros(i as nat),
            decreases pad - i,
        {
            push_char(&mut out, '0');
            i += 1;
            assert(out@ =~= zeros(i as nat));
        }
        out.append(digits.as_str());
        out
    }
}

/// Reads the unsigned integer that standard parsing reads from `s`; `None`
/// when `s` is not an optional `+` followed by digits or when the value does
/// not fit in `u64`.
pub fn parse_u64(s: &str) -> (r: Option<u64>)
    ensures
        match r {
            Some(v) => unsigned_text_value(s@) == Some(v as nat),
            None => match unsigned_text_value(s@) {
                Some(v) => v > u64::MAX,
                None => true,
            },
        },
{
    let count = s.unicode_len();
    let mut start: usize = 0;
    if count > 0 && s.get_char(0) == '+' {
        start = 1;
    }
    let ghost body = if s@.len() > 0 && s@[0] == '+' { s@.drop_first() } else { s@ };
    assert(body =~= s@.subrange(start as int, s@.len() as int));
    if start >= count {
        return None;
    }
    let mut value: u64 = 0;
    let mut overflow = false;
    let mut i: usize = start;
    while i < count
        invariant
            start <= i <= count,
            count == s@.len(),
            start < count,
            body == s@.subrange(start as int, count as int),
            body == (if s@.len() > 0 && s@[0] == '+' { s@.drop_first() } else { s@ }),
            all_digits(s@.subrange(start as int, i as int)),
            !overflow ==> value as nat == digits_value(s@.subrange(start as int, i as int)),
            overflow ==> digits_value(s@.subrange(start as int, i as int)) > u64::MAX,
        decreases count - i,
    {
        let c = s.get_char(i);
        let d = value_of_digit(c);
        let ghost prefix = s@.subrange(start as int, i as int);
        let ghost next = s@.subrange(start as int, i + 1);
        assert(next.drop_last() =~= prefix);
        assert(next.last() == c);
        match d {
            None => {
                assert(!all_digits(body)) by {
                    assert(body[i - start] == c);
                }
                assert(unsigned_text_value(s@) is None);
                return None;
            },
            Some(dv) => {
                assert(all_digits(next)) by {
                    assert forall|j: int| 0 <= j < next.len() implies (#[trigger] digit_value(next[j])) is Some by {
                        if j < prefix.len() {
                            assert(next[j] == prefix[j]);
                        }
                    }
                }
                if !overflow {
                    if value > (u64::MAX - dv) / 10 {
                        overflow = true;
                        assert(value * 10 + dv > u64::MAX) by (nonlinear_arith)
                            requires value > (u64::MAX - dv) / 10, dv < 10;
                    } else {
                        assert(value * 10 + dv <= u64::MAX) by (nonlinear_arith)
                            requires value <= (u64::MAX - dv) / 10, dv < 10;
                        value = value * 10 + dv;
                    }
                } else {
                    assert(digits_value(next) >= digits_value(prefix)) by (nonlinear_arith)
                        requires digits_value(next) == digits_value(prefix) * 10 + dv;
                }
            },
        }
        i += 1;
    }
    assert(s@.subrange(start as int, count as int) =~= body);
    if overflow {
        None
    } else {
        Some(value)
    }
}

/// Reads an unsigned integer that must fit in `u32`, as standard parsing does.
pub fn parse_u32(s: &str) -> (r: Option<u32>)
    ensures
        match r {
            Some(v) => unsigned_text_value(s@) == Some(v as nat),
            None => match unsigned_text_value(s@) {
                Some(v) => v > u32::MAX,
                None => true,
            },
        },
{
    match parse_u64(s) {
        Some(v) => {
            if v <= u32::MAX as u64 {
                Some(v as u32)
            } else {
                None
            }
        },
        None => None,
    }
}

/// Reads a signed integer as standard parsing of `i64` does.
pub fn parse_i64(s: &str) -> (r: Option<i64>)
    ensures
        match r {
            Some(v) => signed_text_value(s@) == Some(v as int),
            None => match signed_text_value(s@) {
                Some(v) => v < i64::MIN || v > i64::MAX,
                None => true,
            },
        },
{
    let count = s.unicode_len();
    if count > 0 && s.get_char(0) == '-' {
        let rest = s.substring_char(1, count);
        assert(rest@ =~= s@.drop_first());
        if count > 1 && rest.get_char(0) == '+' {
            assert(!all_digits(rest@)) by {
                assert(digit_value(rest@[0]) is None);
            }
            return None;
        }
        proof {
            if rest@.len() > 0 {
                assert(rest@[0] != '+');
                assert(rest@ =~= (if rest@.len() > 0 && rest@[0] == '+' { rest@.drop_first() } else { rest@ }));
            }
        }
        match parse_u64(rest) {
            Some(v) => {
                if v <= 9223372036854775808u64 {
                    if v == 9223372036854775808u64 {
                        Some(i64::MIN)
                    } else {
                        Some(-(v as i64))
                    }
                } else {
                    None
                }
            },
            None => None,
        }
    } else {
        match parse_u64(s) {
            Some(v) => {
                if v <= i64::MAX as u64 {
                    Some(v as i64)
                } else {
                    None
                }
            },
            None => None,
        }
    }
}

} // verus!
