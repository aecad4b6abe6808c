//! Reading integers from text the way `str::parse` does: for signed types
//! an optional `+` or `-`, for unsigned ones an optional `+`, then one or
//! more ASCII digits, and a value that fits the type.

use vstd::prelude::*;

use crate::text::chars_of;

verus! {

/// Whether a character is an ASCII digit.
pub open spec fn is_digit(c: char) -> bool {
    '0' <= c <= '9'
}

/// The value of a run of digits read in base ten.
pub open spec fn digits_value(s: Seq<char>) -> int
    decreases s.len(),
{
    if s.len() == 0 {
        0
    } else {
        digits_value(s.drop_last()) * 10 + (s.last() as int - '0' as int)
    }
}

/// Whether every character of `b` is a digit.
pub open spec fn all_digits(b: Seq<char>) -> bool {
    forall|i: int| 0 <= i < b.len() ==> is_digit(#[trigger] b[i])
}

/// The length of the sign that `s` starts with: 1 for `+` or `-`, else 0.
pub open spec fn sign_len(s: Seq<char>) -> int {
    if s.len() > 0 && (s[0] == '-' || s[0] == '+') { 1 } else { 0 }
}

/// The integer written in `s`: an optional sign and at least one digit,
/// nothing else.
pub open spec fn int_text(s: Seq<char>) -> Option<int> {
    let body = s.subrange(sign_len(s), s.len() as int);
    if body.len() > 0 && all_digits(body) {
        Some(if s.len() > 0 && s[0] == '-' { -digits_value(body) } else { digits_value(body) })
    } else {
        None
    }
}

proof fn lemma_digits_grow(s: Seq<char>, k: int)
    requires
        0 <= k <= s.len(),
        all_digits(s),
    ensures
        digits_value(s) >= digits_value(s.subrange(0, k)),
        digits_value(s.subrange(0, k)) >= 0,
    decreases s.len(),
{
    if s.len() > 0 {
        if k == s.len() {
            assert(s.subrange(0, k) =~= s);
            lemma_digits_grow(s.drop_last(), s.len() - 1);
            assert(s.drop_last().subrange(0, s.len() - 1) =~= s.drop_last());
        } else {
            lemma_digits_grow(s.drop_last(), k);
            assert(s.drop_last().subrange(0, k) =~= s.subrange(0, k));
            lemma_digits_grow(s.drop_last(), s.len() - 1);
            assert(s.drop_last().subrange(0, s.len() - 1) =~= s.drop_last());
        }
    }
}

/// The `i64` written in `s`, where it is one (as `s.parse::<i64>()`
/// gives it).
pub fn parse_i64(s: &str) -> (r: Option<i64>)
    ensures
        r == (match int_text(s@) {
            Some(v) => if i64::MIN <= v <= i64::MAX { Some(v as i64) } else { None },
            None => None,
        }),
{
    let v = chars_of(s);
    let n = v.len();
    if n == 0 {
        return None;
    }
    let neg = v[0] == '-';
    let start: usize = if v[0] == '-' || v[0] == '+' { 1 } else { 0 };
    if start == n {
        return None;
    }
    let ghost body = v@.subrange(start as int, n as int);
    assert(v@ == s@);
    assert(start == sign_len(s@));
    let mut acc: i128 = 0;
    let mut i: usize = start;
    while i < n
        invariant
            start <= i <= n == v@.len(),
            v@ == s@,
            start == sign_len(s@),
            neg == (s@.len() > 0 && s@[0] == '-'),
            body == v@.subrange(start as int, n as int),
            forall|j: int| start <= j < i ==> is_digit(#[trigger] v@[j]),
            acc == digits_value(v@.subrange(start as int, i as int)),
            0 <= acc <= 9_223_372_036_854_775_808,
        decreases n - i,
    {
        let c = v[i];
        if !('0' <= c && c <= '9') {
            proof {
                assert(body[i - start] == c);
                assert(!is_digit(body[i - start]));
                assert(!all_digits(body));
            }
            return None;
        }
        let d: i128 = (c as u32 - '0' as u32) as i128;
        assert(v@.subrange(start as int, i + 1).drop_last() =~= v@.subrange(start as int, i as int));
        let next = acc * 10 + d;
        assert(next == digits_value(v@.subrange(start as int, i + 1)));
        if next > 9_223_372_036_854_775_808 {
            proof {
                if all_digits(body) {
                    lemma_digits_grow(body, i + 1 - start);
                    assert(body.subrange(0, i + 1 - start) =~= v@.subrange(start as int, i + 1));
                }
            }
            return None;
        }
        acc = next;
        i = i + 1;
    }
    assert(all_digits(body)) by {
        assert forall|j: int| 0 <= j < body.len() implies is_digit(#[trigger] body[j]) by {
            assert(body[j] == v@[start + j]);
        }
    }
    if neg {
        Some((0 - acc) as i64)
    } else if acc > 9_223_372_036_854_775_807 {
        None
    } else {
        Some(acc as i64)
    }
}

/// The `i32` written in `s`, where it is one (as `s.parse::<i32>()`
/// gives it).
pub fn parse_i32(s: &str) -> (r: Option<i32>)
    ensures
        r == (match int_text(s@) {
            Some(v) => if i32::MIN <= v <= i32::MAX { Some(v as i32) } else { None },
            None => None,
        }),
{
    match parse_i64(s) {
        Some(x) => if -2147483648 <= x && x <= 2147483647 { Some(x as i32) } else { None },
        None => None,
    }
}

/// The length of the `+` that `s` starts with, if any.
pub open spec fn plus_len(s: Seq<char>) -> int {
    if s.len() > 0 && s[0] == '+' { 1 } else { 0 }
}

/// The natural number written in `s`: an optional `+` and at least one
/// digit, nothing else.
pub open spec fn uint_text(s: Seq<char>) -> Option<int> {
    let body = s.subrange(plus_len(s), s.len() as int);
    if body.len() > 0 && all_digits(body) {
        Some(digits_value(body))
    } else {
        None
    }
}

/// The `u64` written in `s`, where it is one (as `s.parse::<u64>()`
/// gives it).
pub fn parse_u64(s: &str) -> (r: Option<u64>)
    ensures
        r == (match uint_text(s@) {
            Some(v) => if v <= u64::MAX { Some(v as u64) } else { None },
            None => None,
        }),
{
    let v = chars_of(s);
    let n = v.len();
    if n == 0 {
        return None;
    }
    let start: usize = if v[0] == '+' { 1 } else { 0 };
    if start == n {
        return None;
    }
    let ghost body = v@.subrange(start as int, n as int);
    assert(v@ == s@);
    assert(start == plus_len(s@));
    let mut acc: u128 = 0;
    let mut i: usize = start;
    while i < n
        invariant
            start <= i <= n == v@.len(),
            v@ == s@,
            start == plus_len(s@),
            body == v@.subrange(start as int, n as int),
            forall|j: int| start <= j < i ==> is_digit(#[trigger] v@[j]),
            acc == digits_value(v@.subrange(start as int, i as int)),
            acc <= 18_446_744_073_709_551_615,
        decreases n - i,
    {
        let c = v[i];
        if !('0' <= c && c <= '9') {
            proof {
                assert(body[i - start] == c);
                assert(!is_digit(body[i - start]));
                assert(!all_digits(body));
            }
            return None;
        }
        let d: u128 = (c as u32 - '0' as u32) as u128;
        assert(v@.subrange(start as int, i + 1).drop_last() =~= v@.subrange(start as int, i as int));
        let next = acc * 10 + d;
        assert(next == digits_value(v@.subrange(start as int, i + 1)));
        if next > 18_446_744_073_709_551_615 {
            proof {
                if all_digits(body) {
                    lemma_digits_grow(body, i + 1 - start);
                    assert(body.subrange(0, i + 1 - start) =~= v@.subrange(start as int, i + 1));
                }
            }
            return None;
        }
        acc = next;
        i = i + 1;
    }
    assert(all_digits(body)) by {
        assert forall|j: int| 0 <= j < body.len() implies is_digit(#[trigger] body[j]) by {
            assert(body[j] == v@[start + j]);
        }
    }
    Some(acc as u64)
}

/// A number written without a sign is not negative.
pub proof fn lemma_uint_text_nonneg(s: Seq<char>)
    ensures
        uint_text(s) matches Some(v) ==> v >= 0,
{
    let body = s.subrange(plus_len(s), s.len() as int);
    if body.len() > 0 && all_digits(body) {
        lemma_digits_grow(body, 0);
        assert(body.subrange(0, 0) =~= Seq::<char>::empty());
    }
}

/// The `u32` written in `s`, where it is one.
pub fn parse_u32(s: &str) -> (r: Option<u32>)
    ensures
        r == (match uint_text(s@) {
            Some(v) => if v <= u32::MAX { Some(v as u32) } else { None },
            None => None,
        }),
{
    proof {
        lemma_uint_text_nonneg(s@);
    }
    match parse_u64(s) {
        Some(x) => if x <= 4294967295 { Some(x as u32) } else { None },
        None => None,
    }
}

/// The `u16` written in `s`, where it is one.
pub fn parse_u16(s: &str) -> (r: Option<u16>)
    ensures
        r == (match uint_text(s@) {
            Some(v) => if v <= u16::MAX { Some(v as u16) } else { None },
            None => None,
        }),
{
    proof {
        lemma_uint_text_nonneg(s@);
    }
    match parse_u64(s) {
        Some(x) => if x <= 65535 { Some(x as u16) } else { None },
        None => None,
    }
}

} // verus!
