//! Unsigned integers and flags as they are written in the text of a
//! variable.

use crate::digits::{
    all_digits, digit_of, digits_value, lemma_digits_value_grows, lemma_digits_value_push,
};
use crate::text::chars_of;
use vstd::prelude::*;

verus! {

/// `s` without the `+` that it may begin with.
pub open spec fn after_plus(s: Seq<char>) -> Seq<char> {
    if s.len() > 0 && s[0] == '+' {
        s.skip(1)
    } else {
        s
    }
}

/// The number written in `s` as an unsigned decimal integer: an optional
/// `+`, then one or more digits and nothing else. `None` where `s` is not
/// written so.
pub open spec fn unsigned_literal(s: Seq<char>) -> Option<nat> {
    let digits = after_plus(s);
    if digits.len() > 0 && all_digits(digits) {
        Some(digits_value(digits))
    } else {
        None
    }
}

/// The unsigned integer written in `s`, where it is at most `max`.
pub open spec fn unsigned_up_to(s: Seq<char>, max: nat) -> Option<nat> {
    match unsigned_literal(s) {
        Some(n) if n <= max => Some(n),
        _ => None,
    }
}

/// The flag written in `s`: exactly `true` or `false`.
pub open spec fn flag_literal(s: Seq<char>) -> Option<bool> {
    if s == seq!['t', 'r', 'u', 'e'] {
        Some(true)
    } else if s == seq!['f', 'a', 'l', 's', 'e'] {
        Some(false)
    } else {
        None
    }
}

/// Reads the unsigned decimal integer written in the whole of `text`, where
/// it is at most `max`.
pub fn parse_unsigned(text: &str, max: u64) -> (r: Option<u64>)
    ensures
        r is Some <==> unsigned_up_to(text@, max as nat) is Some,
        r matches Some(n) ==> unsigned_up_to(text@, max as nat) == Some(n as nat),
{
    let cs = chars_of(text);
    let n: usize = cs.len();
    let start: usize = if n > 0 && cs[0] == '+' {
        1
    } else {
        0
    };
    let ghost digits = after_plus(text@);
    assert(digits =~= text@.skip(start as int));
    if start == n {
        return None;
    }
    let mut acc: u64 = 0;
    let mut i: usize = start;
    while i < n
        invariant
            start <= i <= n,
            n == cs@.len(),
            cs@ == text@,
            digits == after_plus(text@),
            digits == text@.skip(start as int),
            all_digits(digits.take(i - start)),
            acc == digits_value(digits.take(i - start)),
            acc <= max,
        decreases n - i,
    {
        let ghost c = cs@[i as int];
        assert(digits[i - start] == c);
        let d = match digit_of(cs[i]) {
            Some(d) => d,
            None => {
                return None;
            },
        };
        proof {
            assert(digits.take(i + 1 - start) =~= digits.take(i - start).push(c));
            lemma_digits_value_push(digits.take(i - start), c);
            lemma_digits_value_grows(digits, i + 1 - start);
        }
        if d as u64 > max || acc > (max - d as u64) / 10 {
            return None;
        }
        acc = acc * 10 + d as u64;
        i += 1;
    }
    assert(digits.take(n - start) =~= digits);
    Some(acc)
}

/// Reads a `u64` written as an unsigned decimal integer.
pub fn parse_u64(text: &str) -> (r: Option<u64>)
    ensures
        r is Some <==> unsigned_up_to(text@, u64::MAX as nat) is Some,
        r matches Some(n) ==> unsigned_up_to(text@, u64::MAX as nat) == Some(n as nat),
{
    parse_unsigned(text, u64::MAX)
}

/// Reads a `u32` written as an unsigned decimal integer.
pub fn parse_u32(text: &str) -> (r: Option<u32>)
    ensures
        r is Some <==> unsigned_up_to(text@, u32::MAX as nat) is Some,
        r matches Some(n) ==> unsigned_up_to(text@, u32::MAX as nat) == Some(n as nat),
{
    match parse_unsigned(text, u32::MAX as u64) {
        Some(n) => Some(n as u32),
        None => None,
    }
}

/// Reads a `usize` written as an unsigned decimal integer.
pub fn parse_usize(text: &str) -> (r: Option<usize>)
    ensures
        r is Some <==> unsigned_up_to(text@, usize::MAX as nat) is Some,
        r matches Some(n) ==> unsigned_up_to(text@, usize::MAX as nat) == Some(n as nat),
{
    match parse_unsigned(text, usize::MAX as u64) {
        Some(n) => Some(n as usize),
        None => None,
    }
}

/// Reads a flag written as `true` or `false`.
pub fn parse_bool(text: &str) -> (r: Option<bool>)
    ensures
        r == flag_literal(text@),
{
    let cs = chars_of(text);
    if cs.len() == 4 && cs[0] == 't' && cs[1] == 'r' && cs[2] == 'u' && cs[3] == 'e' {
        assert(cs@ =~= seq!['t', 'r', 'u', 'e']);
        Some(true)
    } else if cs.len() == 5 && cs[0] == 'f' && cs[1] == 'a' && cs[2] == 'l' && cs[3] == 's'
        && cs[4] == 'e' {
        assert(cs@ =~= seq!['f', 'a', 'l', 's', 'e']);
        Some(false)
    } else {
        assert(cs@ != seq!['t', 'r', 'u', 'e']) by {
            let w = seq!['t', 'r', 'u', 'e'];
            assert(w.len() == 4 && w[0] == 't' && w[1] == 'r' && w[2] == 'u' && w[3] == 'e');
        }
        assert(cs@ != seq!['f', 'a', 'l', 's', 'e']) by {
            let w = seq!['f', 'a', 'l', 's', 'e'];
            assert(w.len() == 5 && w[0] == 'f' && w[1] == 'a' && w[2] == 'l' && w[3] == 's'
                && w[4] == 'e');
        }
        None
    }
}

} // verus!
