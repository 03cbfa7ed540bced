//! Reading a decimal literal: telling whether text is one, and how large
//! the number it denotes is in hundredths, which is what the bounds on the
//! ratios of the configuration are given in.

use crate::decimal::{
    digits_end, exponent_literal, finite_literal, is_letter, is_word, layout, literal_digits,
    literal_number, scaled_le, special_literal, Number,
};
use crate::digits::{
    all_digits, digit, digit_of, digits_value, is_digit, lemma_all_digits_concat,
    lemma_digits_value_bound, lemma_digits_value_push, lemma_digits_value_split,
    lemma_digits_value_zero, lemma_pow10_adds, lemma_pow10_increases, lemma_pow10_positive,
    lemma_pow10_small, pow10,
};
use crate::text::chars_of;
use vstd::arithmetic::div_mod::{
    lemma_fundamental_div_mod, lemma_fundamental_div_mod_converse, lemma_mod_bound,
};
use vstd::prelude::*;

verus! {

/// `m * 10^e`, rounded down to a whole number.
pub open spec fn scaled_floor(m: nat, e: int) -> nat {
    if e >= 0 {
        m * pow10(e as nat)
    } else {
        m / pow10((-e) as nat)
    }
}

/// `m * 10^e` is a whole number.
pub open spec fn scaled_whole(m: nat, e: int) -> bool {
    e >= 0 || m % pow10((-e) as nat) == 0
}

/// How many of the `len` digits of a run stand at or above the units once
/// the run is shifted by `shift` places: all of them for a shift to the
/// left, fewer for a shift to the right.
pub open spec fn whole_digits(len: nat, shift: int) -> int {
    if shift >= 0 {
        len as int
    } else if len + shift >= 0 {
        len + shift
    } else {
        0
    }
}

/// Shifting a run of digits to the right cuts it in two: the front is the
/// shifted number rounded down, and nothing is lost exactly where the back
/// denotes zero.
pub proof fn lemma_scaled_by_digits(s: Seq<char>, shift: int)
    requires
        all_digits(s),
        shift < 0,
    ensures
        scaled_floor(digits_value(s), shift) == digits_value(
            s.take(whole_digits(s.len(), shift)),
        ),
        scaled_whole(digits_value(s), shift) <==> digits_value(
            s.skip(whole_digits(s.len(), shift)),
        ) == 0,
{
    let m = digits_value(s);
    let k = whole_digits(s.len(), shift);
    let p = pow10((-shift) as nat);
    let front = digits_value(s.take(k));
    let back = digits_value(s.skip(k));
    lemma_pow10_positive((-shift) as nat);
    lemma_digits_value_split(s, k);
    assert(all_digits(s.skip(k))) by {
        assert forall|i: int| 0 <= i < s.skip(k).len() implies is_digit(
            #[trigger] s.skip(k)[i],
        ) by {
            assert(s.skip(k)[i] == s[i + k]);
        }
    }
    lemma_digits_value_bound(s.skip(k));
    if s.len() + shift >= 0 {
        assert(s.len() - k == -shift);
        assert(m == front * p + back);
        lemma_fundamental_div_mod_converse(m as int, p as int, front as int, back as int);
    } else {
        assert(s.take(0) =~= Seq::<char>::empty());
        assert(front == 0);
        assert(s.skip(0) =~= s);
        lemma_pow10_increases(s.len(), (-shift) as nat);
        assert(m == back && back < p);
        lemma_fundamental_div_mod_converse(m as int, p as int, 0, m as int);
    }
}

/// A number is at most one exactly where it has fewer than a hundred
/// hundredths, or a hundred of them and nothing more.
pub proof fn lemma_at_most_one(m: nat, e: int)
    ensures
        scaled_le(m, e, 1, 0) <==> (scaled_floor(m, e + 2) < 100 || (scaled_floor(m, e + 2) == 100
            && scaled_whole(m, e + 2))),
{
    lemma_pow10_small();
    let h = scaled_floor(m, e + 2);
    if e >= 0 {
        let p = pow10(e as nat);
        lemma_pow10_adds(e as nat, 2);
        assert(pow10((e + 2) as nat) == p * 100);
        assert(h == (m * p) * 100) by (nonlinear_arith)
            requires
                h == m * (p * 100),
        ;
        assert(scaled_le(m, e, 1, 0) <==> m * p <= 1);
    } else if e == -1 {
        assert(scaled_le(m, e, 1, 0) <==> m * 1 <= 1 * 10);
        assert(h == m * 10);
    } else if e == -2 {
        assert(scaled_le(m, e, 1, 0) <==> m * 1 <= 1 * 100);
        assert(h == m * 1);
    } else {
        let p = pow10((-e - 2) as nat);
        lemma_pow10_adds((-e - 2) as nat, 2);
        lemma_pow10_positive((-e - 2) as nat);
        lemma_fundamental_div_mod(m as int, p as int);
        lemma_mod_bound(m as int, p as int);
        let q = m as int / p as int;
        let r = m as int % p as int;
        assert(pow10((-e) as nat) == p * 100);
        assert(scaled_le(m, e, 1, 0) <==> m * 1 <= 1 * (p * 100));
        assert(h == q);
        assert(scaled_whole(m, e + 2) <==> r == 0);
        assert((m <= p * 100) <==> (q < 100 || (q == 100 && r == 0))) by (nonlinear_arith)
            requires
                m == p * q + r,
                0 <= r < p,
                p >= 1,
        ;
    }
}

/// A number is at least `bound / 100` exactly where it has at least `bound`
/// hundredths.
pub proof fn lemma_at_least(bound: nat, m: nat, e: int)
    ensures
        scaled_le(bound, -2, m, e) <==> scaled_floor(m, e + 2) >= bound,
{
    lemma_pow10_small();
    let h = scaled_floor(m, e + 2);
    if e >= -2 {
        let p = pow10((e + 2) as nat);
        assert(scaled_le(bound, -2, m, e) <==> bound * 1 <= m * p);
        assert(h == m * p);
    } else {
        let p = pow10((-e - 2) as nat);
        lemma_pow10_positive((-e - 2) as nat);
        lemma_fundamental_div_mod(m as int, p as int);
        lemma_mod_bound(m as int, p as int);
        let q = m as int / p as int;
        let r = m as int % p as int;
        assert(scaled_le(bound, -2, m, e) <==> bound * p <= m * 1);
        assert(h == q);
        assert((bound * p <= m) <==> (q >= bound)) by (nonlinear_arith)
            requires
                m == p * q + r,
                0 <= r < p,
                p >= 1,
        ;
    }
}

/// A number is zero exactly where it has no hundredths and nothing more.
pub proof fn lemma_zero_by_hundredths(m: nat, shift: int)
    ensures
        m == 0 <==> (scaled_floor(m, shift) == 0 && scaled_whole(m, shift)),
{
    if shift >= 0 {
        let p = pow10(shift as nat);
        lemma_pow10_positive(shift as nat);
        assert(m * p == 0 <==> m == 0) by (nonlinear_arith)
            requires
                p >= 1,
        ;
    } else {
        let p = pow10((-shift) as nat);
        lemma_pow10_positive((-shift) as nat);
        lemma_fundamental_div_mod(m as int, p as int);
        let q = m as int / p as int;
        let r = m as int % p as int;
        assert(q == 0 ==> p * q == 0);
        if m == 0 {
            lemma_fundamental_div_mod_converse(0, p as int, 0, 0);
        }
    }
}

/// `x`, held within `limit` of zero.
pub open spec fn clamped(x: int, limit: int) -> int {
    if x > limit {
        limit
    } else if x < -limit {
        -limit
    } else {
        x
    }
}

/// The smaller of two numbers.
pub open spec fn at_most(x: int, cap: int) -> int {
    if x < cap {
        x
    } else {
        cap
    }
}

/// Exponents are read exactly up to this size; a larger one is as good as
/// this one, since no literal has so many digits.
pub const EXPONENT_CAP: u128 = 1_000_000_000_000_000_000_000_000_000_000;

/// Hundredths are counted up to this number; what lies above is as good as
/// this.
pub const HUNDREDTHS_CAP: u16 = 1000;

/// What is kept of a literal once it is read: its kind and sign and, for a
/// finite number, its size in hundredths.
#[derive(Clone, Copy, Debug, PartialEq, Eq)]
pub enum Reading {
    NotANumber,
    Infinite { negative: bool },
    /// `hundredths` is the size of the number in hundredths, rounded down
    /// and capped; `whole` tells that the rounding lost nothing.
    Finite { negative: bool, hundredths: u16, whole: bool },
}

impl Reading {
    /// This reading is the one of the number `n`.
    pub open spec fn describes(self, n: Number) -> bool {
        match (self, n) {
            (Reading::NotANumber, Number::NotANumber) => true,
            (Reading::Infinite { negative: a }, Number::Infinite { negative: b }) => a == b,
            (
                Reading::Finite { negative: a, hundredths, whole },
                Number::Finite { negative: b, mantissa, exponent },
            ) => {
                &&& a == b
                &&& hundredths == at_most(
                    scaled_floor(mantissa, exponent + 2) as int,
                    HUNDREDTHS_CAP as int,
                )
                &&& whole == scaled_whole(mantissa, exponent + 2)
            },
            _ => false,
        }
    }
}

/// Finds the end of the run of digits that begins at `from`.
fn skip_digits(cs: &Vec<char>, from: usize) -> (to: usize)
    requires
        from <= cs.len(),
    ensures
        to == digits_end(cs@, from as int),
        from <= to <= cs.len(),
        all_digits(cs@.subrange(from as int, to as int)),
{
    let mut i: usize = from;
    while i < cs.len() && digit_of(cs[i]).is_some()
        invariant
            from <= i <= cs.len(),
            digits_end(cs@, from as int) == digits_end(cs@, i as int),
            forall|j: int| from <= j < i ==> is_digit(#[trigger] cs@[j]),
        decreases cs.len() - i,
    {
        i += 1;
    }
    i
}

/// Tells whether `c` is the lower-case letter `lower` or its upper-case
/// form.
fn letter(c: char, lower: char) -> (r: bool)
    requires
        'a' <= lower && lower <= 'z',
    ensures
        r == is_letter(c, lower),
{
    c == lower || c as u32 + 32 == lower as u32
}

/// The value of the digits of `cs` in `[from, to)`, counted up to `cap`.
fn capped_value(cs: &Vec<char>, from: usize, to: usize, cap: u128) -> (v: u128)
    requires
        from <= to <= cs.len(),
        all_digits(cs@.subrange(from as int, to as int)),
        cap <= EXPONENT_CAP,
    ensures
        v == at_most(digits_value(cs@.subrange(from as int, to as int)) as int, cap as int),
{
    let ghost run = cs@.subrange(from as int, to as int);
    let mut v: u128 = 0;
    let mut i: usize = from;
    assert(run.take(0) =~= Seq::<char>::empty());
    while i < to
        invariant
            from <= i <= to <= cs.len(),
            run == cs@.subrange(from as int, to as int),
            all_digits(run),
            cap <= EXPONENT_CAP,
            v == at_most(digits_value(run.take(i - from)) as int, cap as int),
        decreases to - i,
    {
        let ghost c = cs@[i as int];
        assert(run[i - from] == c);
        let d = digit(cs[i]);
        proof {
            assert(run.take(i + 1 - from) =~= run.take(i - from).push(c));
            lemma_digits_value_push(run.take(i - from), c);
        }
        v = if v >= cap {
            cap
        } else {
            let next = v * 10 + d as u128;
            if next >= cap {
                cap
            } else {
                next
            }
        };
        i += 1;
    }
    assert(run.take(to - from) =~= run);
    v
}

/// Reads the exponent that is written from `at` to the end of `cs`, exactly
/// where it is within `EXPONENT_CAP` of zero, else as that bound.
fn read_exponent(cs: &Vec<char>, at: usize) -> (r: Option<i128>)
    requires
        at <= cs.len(),
    ensures
        r is Some <==> exponent_literal(cs@, at as int) is Some,
        r matches Some(e) ==> e == clamped(
            exponent_literal(cs@, at as int).unwrap(),
            EXPONENT_CAP as int,
        ),
{
    let n = cs.len();
    if at == n {
        return Some(0);
    }
    if cs[at] != 'e' && cs[at] != 'E' {
        return None;
    }
    let signed = at + 1 < n && (cs[at + 1] == '+' || cs[at + 1] == '-');
    let negative = at + 1 < n && cs[at + 1] == '-';
    let from: usize = if signed {
        at + 2
    } else {
        at + 1
    };
    let to = skip_digits(cs, from);
    if from < to && to == n {
        let size = capped_value(cs, from, to, EXPONENT_CAP);
        Some(
            if negative {
                -(size as i128)
            } else {
                size as i128
            },
        )
    } else {
        None
    }
}

/// Tells which of the words for values that are no finite number stands in
/// `cs` after its sign, if any.
fn read_special(cs: &Vec<char>) -> (r: Option<Reading>)
    ensures
        r is Some <==> special_literal(cs@) is Some,
        r matches Some(reading) ==> reading.describes(special_literal(cs@).unwrap()),
{
    let negative = cs.len() > 0 && cs[0] == '-';
    let from: usize = if cs.len() > 0 && (cs[0] == '+' || cs[0] == '-') {
        1
    } else {
        0
    };
    let ghost word = cs@.skip(from as int);
    let ghost inf = seq!['i', 'n', 'f'];
    let ghost infinity = seq!['i', 'n', 'f', 'i', 'n', 'i', 't', 'y'];
    let ghost nan = seq!['n', 'a', 'n'];
    let n = cs.len() - from;
    if n == 3 {
        assert(word[0] == cs@[from as int] && word[1] == cs@[from + 1] && word[2] == cs@[from + 2]);
        let is_inf = letter(cs[from], 'i') && letter(cs[from + 1], 'n') && letter(
            cs[from + 2],
            'f',
        );
        let is_nan = letter(cs[from], 'n') && letter(cs[from + 1], 'a') && letter(
            cs[from + 2],
            'n',
        );
        assert(is_inf == is_word(word, inf)) by {
            assert(inf[0] == 'i' && inf[1] == 'n' && inf[2] == 'f');
        }
        assert(is_nan == is_word(word, nan)) by {
            assert(nan[0] == 'n' && nan[1] == 'a' && nan[2] == 'n');
        }
        if is_inf {
            Some(Reading::Infinite { negative })
        } else if is_nan {
            Some(Reading::NotANumber)
        } else {
            None
        }
    } else if n == 8 {
        assert(word[0] == cs@[from as int] && word[1] == cs@[from + 1] && word[2] == cs@[from + 2]
            && word[3] == cs@[from + 3] && word[4] == cs@[from + 4] && word[5] == cs@[from + 5]
            && word[6] == cs@[from + 6] && word[7] == cs@[from + 7]);
        let is_infinity = letter(cs[from], 'i') && letter(cs[from + 1], 'n') && letter(
            cs[from + 2],
            'f',
        ) && letter(cs[from + 3], 'i') && letter(cs[from + 4], 'n') && letter(cs[from + 5], 'i')
            && letter(cs[from + 6], 't') && letter(cs[from + 7], 'y');
        assert(is_infinity == is_word(word, infinity)) by {
            assert(infinity[0] == 'i' && infinity[1] == 'n' && infinity[2] == 'f' && infinity[3]
                == 'i' && infinity[4] == 'n' && infinity[5] == 'i' && infinity[6] == 't'
                && infinity[7] == 'y');
        }
        if is_infinity {
            Some(Reading::Infinite { negative })
        } else {
            None
        }
    } else {
        None
    }
}

/// `shift` stands for `exact`: it is the same number, or both lie so far from
/// zero on the same side that no run of digits reaches the units from there.
spec fn stands_for(shift: i128, exact: int) -> bool {
    ||| shift == exact
    ||| (shift > u64::MAX + 2 && exact >= shift)
    ||| (shift < -u64::MAX - 2 && exact <= shift)
}

/// Tells whether every digit of `digits` from `from` on is `0`.
fn zeros_from(digits: &Vec<char>, from: usize) -> (r: bool)
    requires
        from <= digits.len(),
        all_digits(digits@),
    ensures
        r <==> digits_value(digits@.skip(from as int)) == 0,
{
    let len = digits.len();
    let mut r = true;
    let mut j: usize = from;
    while j < len
        invariant
            from <= j <= len == digits@.len(),
            r <==> (forall|k: int| from <= k < j ==> digits@[k] == '0'),
        decreases len - j,
    {
        if digits[j] != '0' {
            r = false;
        }
        j += 1;
    }
    proof {
        let back = digits@.skip(from as int);
        assert forall|i: int| 0 <= i < back.len() implies is_digit(#[trigger] back[i]) by {
            assert(back[i] == digits@[i + from]);
        }
        lemma_digits_value_zero(back);
        if r {
            assert forall|i: int| 0 <= i < back.len() implies back[i] == '0' by {
                assert(back[i] == digits@[i + from]);
            }
        }
        if forall|i: int| 0 <= i < back.len() ==> back[i] == '0' {
            assert forall|k: int| from <= k < len implies digits@[k] == '0' by {
                assert(back[k - from] == digits@[k]);
            }
        }
    }
    r
}

/// `m * 10^shift`, counted up to `HUNDREDTHS_CAP`, from `m` counted so.
fn shift_left(front: u16, shift: i128, Ghost(m): Ghost<nat>, Ghost(exact): Ghost<int>) -> (r: u16)
    requires
        front == at_most(m as int, HUNDREDTHS_CAP as int),
        stands_for(shift, exact),
        shift >= 0,
    ensures
        r == at_most((m * pow10(exact as nat)) as int, HUNDREDTHS_CAP as int),
{
    let ghost p = pow10(exact as nat);
    proof {
        lemma_pow10_small();
        lemma_pow10_positive(exact as nat);
    }
    if front == 0 || shift == 0 {
        assert(m * p == m) by (nonlinear_arith)
            requires
                m == 0 || p == 1,
        ;
        front
    } else if shift >= 3 {
        proof {
            lemma_pow10_increases(3, exact as nat);
            assert(m * p >= 1000) by (nonlinear_arith)
                requires
                    m >= 1,
                    p >= 1000,
            ;
        }
        HUNDREDTHS_CAP
    } else {
        let factor: u32 = if shift == 1 {
            10
        } else {
            100
        };
        assert(p == factor);
        let scaled: u32 = front as u32 * factor;
        proof {
            assert(m >= 1000 ==> m * p >= 1000) by (nonlinear_arith)
                requires
                    p >= 1,
            ;
        }
        if scaled >= HUNDREDTHS_CAP as u32 {
            HUNDREDTHS_CAP
        } else {
            scaled as u16
        }
    }
}

/// The size in hundredths of the number that the run of digits `digits`
/// denotes once it is shifted by `shift` places, counted up to
/// `HUNDREDTHS_CAP`, and whether that size is a whole number.
fn hundredths(digits: &Vec<char>, shift: i128, Ghost(exact): Ghost<int>) -> (r: (u16, bool))
    requires
        all_digits(digits@),
        stands_for(shift, exact),
        -2 * EXPONENT_CAP <= shift <= 2 * EXPONENT_CAP,
    ensures
        r.0 == at_most(
            scaled_floor(digits_value(digits@), exact) as int,
            HUNDREDTHS_CAP as int,
        ),
        r.1 == scaled_whole(digits_value(digits@), exact),
{
    let len = digits.len();
    let ghost m = digits_value(digits@);
    if shift >= 0 {
        assert(digits@.subrange(0, len as int) =~= digits@);
        let front = capped_value(digits, 0, len, HUNDREDTHS_CAP as u128) as u16;
        (shift_left(front, shift, Ghost(m), Ghost(exact)), true)
    } else {
        let keep: usize = if -shift >= len as i128 {
            0
        } else {
            len - ((-shift) as usize)
        };
        assert(keep == whole_digits(len as nat, exact));
        assert(digits@.subrange(0, keep as int) =~= digits@.take(keep as int));
        assert(all_digits(digits@.take(keep as int))) by {
            assert forall|i: int| 0 <= i < keep implies is_digit(
                #[trigger] digits@.take(keep as int)[i],
            ) by {
                assert(digits@.take(keep as int)[i] == digits@[i]);
            }
        }
        let front = capped_value(digits, 0, keep, HUNDREDTHS_CAP as u128) as u16;
        let whole = zeros_from(digits, keep);
        proof {
            lemma_scaled_by_digits(digits@, exact);
        }
        (front, whole)
    }
}

/// Gathers the digits of `cs` that stand in `[whole, point)` and in
/// `[fraction, end)` into one run.
fn gather(cs: &Vec<char>, whole: usize, point: usize, fraction: usize, end: usize) -> (digits: Vec<
    char,
>)
    requires
        whole <= point <= fraction <= end <= cs.len(),
    ensures
        digits@ == cs@.subrange(whole as int, point as int) + cs@.subrange(
            fraction as int,
            end as int,
        ),
{
    let mut digits: Vec<char> = Vec::new();
    let mut i: usize = whole;
    while i < point
        invariant
            whole <= i <= point <= cs.len(),
            digits@ == cs@.subrange(whole as int, i as int),
        decreases point - i,
    {
        digits.push(cs[i]);
        assert(cs@.subrange(whole as int, i + 1) =~= cs@.subrange(whole as int, i as int).push(
            cs@[i as int],
        ));
        i += 1;
    }
    let mut i: usize = fraction;
    assert(digits@ =~= cs@.subrange(whole as int, point as int) + cs@.subrange(
        fraction as int,
        i as int,
    ));
    while i < end
        invariant
            whole <= point <= fraction <= i <= end <= cs.len(),
            digits@ == cs@.subrange(whole as int, point as int) + cs@.subrange(
                fraction as int,
                i as int,
            ),
        decreases end - i,
    {
        digits.push(cs[i]);
        assert(cs@.subrange(fraction as int, i + 1) =~= cs@.subrange(
            fraction as int,
            i as int,
        ).push(cs@[i as int]));
        assert(digits@ =~= cs@.subrange(whole as int, point as int) + cs@.subrange(
            fraction as int,
            i + 1,
        ));
        i += 1;
    }
    digits
}

/// Reads the finite number written in `cs`.
fn read_finite(cs: &Vec<char>) -> (r: Option<Reading>)
    ensures
        r is Some <==> finite_literal(cs@) is Some,
        r matches Some(reading) ==> reading.describes(finite_literal(cs@).unwrap()),
{
    let n = cs.len();
    let negative = n > 0 && cs[0] == '-';
    let whole: usize = if n > 0 && (cs[0] == '+' || cs[0] == '-') {
        1
    } else {
        0
    };
    let point = skip_digits(cs, whole);
    let fraction: usize = if point < n && cs[point] == '.' {
        point + 1
    } else {
        point
    };
    let end = skip_digits(cs, fraction);
    let ghost at = layout(cs@);
    assert(at.whole == whole && at.point == point && at.fraction == fraction && at.end == end);
    let digits = gather(cs, whole, point, fraction, end);
    assert(digits@ == literal_digits(cs@));
    if digits.len() == 0 {
        return None;
    }
    let exponent = match read_exponent(cs, end) {
        Some(e) => e,
        None => {
            return None;
        },
    };
    proof {
        lemma_all_digits_concat(
            cs@.subrange(whole as int, point as int),
            cs@.subrange(fraction as int, end as int),
        );
    }
    let ghost written = exponent_literal(cs@, end as int).unwrap();
    let ghost exact = written - (end - fraction) + 2;
    let shift: i128 = exponent - (end - fraction) as i128 + 2;
    let (size, exactly) = hundredths(&digits, shift, Ghost(exact));
    Some(Reading::Finite { negative, hundredths: size, whole: exactly })
}

/// Reads `text` as a decimal literal.
pub fn read_number(text: &str) -> (r: Option<Reading>)
    ensures
        r is Some <==> literal_number(text@) is Some,
        r matches Some(reading) ==> reading.describes(literal_number(text@).unwrap()),
{
    let cs = chars_of(text);
    match read_special(&cs) {
        Some(reading) => Some(reading),
        None => read_finite(&cs),
    }
}

} // verus!
