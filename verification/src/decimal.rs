//! Numbers written as decimal literals, and their exact comparison with the
//! bounds that the ratios of the configuration must keep.
//!
//! A literal is read as the number it denotes, digit for digit: nothing is
//! rounded, so a bound is kept or broken by the text itself.

use crate::digits::{
    all_digits, digits_value, is_digit, lemma_pow10_adds, lemma_pow10_positive, pow10,
};
use vstd::prelude::*;

verus! {

/// What a literal denotes.
pub enum Number {
    /// The number `mantissa * 10^exponent`, negated where `negative` holds.
    Finite { negative: bool, mantissa: nat, exponent: int },
    /// Plus or minus infinity.
    Infinite { negative: bool },
    /// The literal that stands for no number.
    NotANumber,
}

/// `c` is the lower-case letter `lower` or its upper-case form.
pub open spec fn is_letter(c: char, lower: char) -> bool
    recommends
        'a' <= lower && lower <= 'z',
{
    c == lower || c as int + 32 == lower as int
}

/// `s` is `word`, letter for letter, in any mix of upper and lower case.
pub open spec fn is_word(s: Seq<char>, word: Seq<char>) -> bool {
    s.len() == word.len() && forall|i: int| 0 <= i < s.len() ==> is_letter(#[trigger] s[i], word[i])
}

/// The number of characters that a sign takes at `at`: one for `+` or `-`,
/// else none.
pub open spec fn sign_len(s: Seq<char>, at: int) -> int {
    if 0 <= at < s.len() && (s[at] == '+' || s[at] == '-') {
        1
    } else {
        0
    }
}

/// A minus sign stands at `at`.
pub open spec fn minus_at(s: Seq<char>, at: int) -> bool {
    0 <= at < s.len() && s[at] == '-'
}

/// The end of the longest run of digits that begins at `from`.
pub open spec fn digits_end(s: Seq<char>, from: int) -> int
    decreases s.len() - from,
{
    if 0 <= from < s.len() && is_digit(s[from]) {
        digits_end(s, from + 1)
    } else {
        from
    }
}

/// The words for values that are no finite number: `inf`, `infinity` and
/// `nan`, after an optional sign, in any mix of upper and lower case.
pub open spec fn special_literal(s: Seq<char>) -> Option<Number> {
    let word = s.skip(sign_len(s, 0));
    if is_word(word, seq!['i', 'n', 'f']) || is_word(
        word,
        seq!['i', 'n', 'f', 'i', 'n', 'i', 't', 'y'],
    ) {
        Some(Number::Infinite { negative: minus_at(s, 0) })
    } else if is_word(word, seq!['n', 'a', 'n']) {
        Some(Number::NotANumber)
    } else {
        None
    }
}

/// The exponent that is written from `at` to the end of `s`: nothing, which
/// stands for zero, or `e` or `E`, an optional sign and one or more digits.
pub open spec fn exponent_literal(s: Seq<char>, at: int) -> Option<int> {
    if at == s.len() {
        Some(0)
    } else if 0 <= at < s.len() && (s[at] == 'e' || s[at] == 'E') {
        let from = at + 1 + sign_len(s, at + 1);
        let to = digits_end(s, from);
        if from < to && to == s.len() {
            let size = digits_value(s.subrange(from, to));
            Some(
                if minus_at(s, at + 1) {
                    -(size as int)
                } else {
                    size as int
                },
            )
        } else {
            None
        }
    } else {
        None
    }
}

/// Where the parts of a finite literal stand in `s`: the whole digits in
/// `[whole, point)`, the digits of the fraction in `[fraction, end)`.
pub struct Layout {
    pub whole: int,
    pub point: int,
    pub fraction: int,
    pub end: int,
}

/// The parts of `s` read as a finite literal, from the left and as far as
/// digits go: a sign, digits, a point, digits.
pub open spec fn layout(s: Seq<char>) -> Layout {
    let whole = sign_len(s, 0);
    let point = digits_end(s, whole);
    let fraction = if point < s.len() && s[point] == '.' {
        point + 1
    } else {
        point
    };
    Layout { whole, point, fraction, end: digits_end(s, fraction) }
}

/// All digits of the literal `s`, those before the point and those after.
pub open spec fn literal_digits(s: Seq<char>) -> Seq<char> {
    let at = layout(s);
    s.subrange(at.whole, at.point) + s.subrange(at.fraction, at.end)
}

/// The finite number written in `s`: an optional sign; digits, with a point
/// before, among or after them, and at least one digit in all; an optional
/// exponent.
pub open spec fn finite_literal(s: Seq<char>) -> Option<Number> {
    let at = layout(s);
    let digits = literal_digits(s);
    if digits.len() == 0 {
        None
    } else {
        match exponent_literal(s, at.end) {
            Some(e) => Some(
                Number::Finite {
                    negative: minus_at(s, 0),
                    mantissa: digits_value(digits),
                    exponent: e - (at.end - at.fraction),
                },
            ),
            None => None,
        }
    }
}

/// What `s` denotes as a decimal literal; `None` where it is not one.
pub open spec fn literal_number(s: Seq<char>) -> Option<Number> {
    match special_literal(s) {
        Some(n) => Some(n),
        None => finite_literal(s),
    }
}

/// `m1 * 10^e1 <= m2 * 10^e2`, stated over integers by scaling both sides by
/// the same power of ten.
pub open spec fn scaled_le(m1: nat, e1: int, m2: nat, e2: int) -> bool {
    let low = if e1 <= e2 {
        e1
    } else {
        e2
    };
    m1 * pow10((e1 - low) as nat) <= m2 * pow10((e2 - low) as nat)
}

impl Number {
    /// The number lies between zero and one, both included.
    pub open spec fn in_unit_interval(self) -> bool {
        match self {
            Number::Finite { negative, mantissa, exponent } => mantissa == 0 || (!negative
                && scaled_le(mantissa, exponent, 1, 0)),
            _ => false,
        }
    }

    /// The number is at least `bound / 100`.
    pub open spec fn at_least_hundredths(self, bound: nat) -> bool {
        match self {
            Number::Finite { negative, mantissa, exponent } => if negative {
                bound == 0 && mantissa == 0
            } else {
                scaled_le(bound, -2, mantissa, exponent)
            },
            Number::Infinite { negative } => !negative,
            Number::NotANumber => false,
        }
    }
}

/// The comparison may be made at any power of ten that is low enough,
/// not only at the lower of the two exponents.
pub proof fn lemma_scaled_le_at(m1: nat, e1: int, m2: nat, e2: int, low: int)
    requires
        low <= e1,
        low <= e2,
    ensures
        scaled_le(m1, e1, m2, e2) <==> m1 * pow10((e1 - low) as nat) <= m2 * pow10(
            (e2 - low) as nat,
        ),
{
    let least = if e1 <= e2 {
        e1
    } else {
        e2
    };
    let a = m1 * pow10((e1 - least) as nat);
    let b = m2 * pow10((e2 - least) as nat);
    let p = pow10((least - low) as nat);
    lemma_pow10_positive((least - low) as nat);
    lemma_pow10_adds((e1 - least) as nat, (least - low) as nat);
    lemma_pow10_adds((e2 - least) as nat, (least - low) as nat);
    assert(m1 * pow10((e1 - low) as nat) == a * p) by (nonlinear_arith)
        requires
            a == m1 * pow10((e1 - least) as nat),
            pow10((e1 - low) as nat) == pow10((e1 - least) as nat) * p,
    ;
    assert(m2 * pow10((e2 - low) as nat) == b * p) by (nonlinear_arith)
        requires
            b == m2 * pow10((e2 - least) as nat),
            pow10((e2 - low) as nat) == pow10((e2 - least) as nat) * p,
    ;
    assert((a <= b) <==> (a * p <= b * p)) by (nonlinear_arith)
        requires
            p >= 1,
    ;
}

/// The order of numbers is that of what they denote, whatever the way in
/// which they are written: a zero more at the end of the mantissa, with the
/// exponent one less, changes no comparison.
pub proof fn lemma_scaled_le_same_number(m: nat, e: int, m2: nat, e2: int)
    ensures
        scaled_le(m * 10, e - 1, m2, e2) <==> scaled_le(m, e, m2, e2),
        scaled_le(m2, e2, m * 10, e - 1) <==> scaled_le(m2, e2, m, e),
{
    let low = if e - 1 <= e2 {
        e - 1
    } else {
        e2
    };
    lemma_scaled_le_at(m * 10, e - 1, m2, e2, low);
    lemma_scaled_le_at(m, e, m2, e2, low);
    lemma_scaled_le_at(m2, e2, m * 10, e - 1, low);
    lemma_scaled_le_at(m2, e2, m, e, low);
    let p = pow10((e - 1 - low) as nat);
    assert(pow10((e - low) as nat) == 10 * p);
    assert((m * 10) * p == m * (10 * p)) by (nonlinear_arith);
}

/// The order of numbers is transitive.
pub proof fn lemma_scaled_le_transitive(m1: nat, e1: int, m2: nat, e2: int, m3: nat, e3: int)
    requires
        scaled_le(m1, e1, m2, e2),
        scaled_le(m2, e2, m3, e3),
    ensures
        scaled_le(m1, e1, m3, e3),
{
    let low = if e1 <= e2 && e1 <= e3 {
        e1
    } else if e2 <= e3 {
        e2
    } else {
        e3
    };
    lemma_scaled_le_at(m1, e1, m2, e2, low);
    lemma_scaled_le_at(m2, e2, m3, e3, low);
    lemma_scaled_le_at(m1, e1, m3, e3, low);
}

/// Of two numbers, one is at most the other.
pub proof fn lemma_scaled_le_total(m1: nat, e1: int, m2: nat, e2: int)
    ensures
        scaled_le(m1, e1, m2, e2) || scaled_le(m2, e2, m1, e1),
{
}

/// Between zero and one lies whatever is not negative and at most a number
/// that lies there; at least a bound is whatever is at least a number that
/// is.
pub proof fn lemma_ranges_follow_the_order(small: Number, large: Number, bound: nat)
    requires
        small matches Number::Finite { negative: false, mantissa: m1, exponent: e1 }
            && large matches Number::Finite { negative: false, mantissa: m2, exponent: e2 }
            && scaled_le(m1, e1, m2, e2),
    ensures
        large.in_unit_interval() ==> small.in_unit_interval(),
        small.at_least_hundredths(bound) ==> large.at_least_hundredths(bound),
{
    let m1 = small->mantissa;
    let e1 = small->exponent;
    let m2 = large->mantissa;
    let e2 = large->exponent;
    if large.in_unit_interval() {
        if m2 == 0 {
            let low = if e1 <= e2 {
                e1
            } else {
                e2
            };
            lemma_pow10_positive((e1 - low) as nat);
            assert(m1 == 0) by (nonlinear_arith)
                requires
                    m1 * pow10((e1 - low) as nat) <= 0 * pow10((e2 - low) as nat),
                    pow10((e1 - low) as nat) >= 1,
            ;
        } else {
            lemma_scaled_le_transitive(m1, e1, m2, e2, 1, 0);
        }
    }
    if small.at_least_hundredths(bound) {
        lemma_scaled_le_transitive(bound, -2, m1, e1, m2, e2);
    }
}

/// The literal made of an optional minus sign, the digits `whole`, a point
/// and the digits `fraction`.
pub open spec fn plain_decimal(negative: bool, whole: Seq<char>, fraction: Seq<char>) -> Seq<
    char,
> {
    (if negative {
        seq!['-']
    } else {
        Seq::<char>::empty()
    }) + whole + seq!['.'] + fraction
}

/// From `from` on, the digits of `s` go as far as `to` where digits stand
/// up to there and none stands there.
pub proof fn lemma_digits_end(s: Seq<char>, from: int, to: int)
    requires
        0 <= from <= to <= s.len(),
        forall|i: int| from <= i < to ==> is_digit(#[trigger] s[i]),
        to < s.len() ==> !is_digit(s[to]),
    ensures
        digits_end(s, from) == to,
    decreases to - from,
{
    if from < to {
        lemma_digits_end(s, from + 1, to);
    }
}

/// A number written plainly, with digits before and after a point and at
/// least one digit in all, is a literal, and it denotes what its digits
/// denote as one run, divided by ten for each digit after the point.
pub proof fn lemma_plain_decimal(negative: bool, whole: Seq<char>, fraction: Seq<char>)
    requires
        all_digits(whole),
        all_digits(fraction),
        whole.len() + fraction.len() > 0,
    ensures
        literal_number(plain_decimal(negative, whole, fraction)) == Some(
            Number::Finite {
                negative,
                mantissa: digits_value(whole + fraction),
                exponent: -(fraction.len() as int),
            },
        ),
{
    let s = plain_decimal(negative, whole, fraction);
    let a: int = if negative {
        1
    } else {
        0
    };
    let b = a + whole.len();
    assert(s.len() == b + 1 + fraction.len());
    assert(forall|i: int| a <= i < b ==> #[trigger] s[i] == whole[i - a]);
    assert(s[b] == '.');
    assert(forall|i: int| b < i < s.len() ==> #[trigger] s[i] == fraction[i - b - 1]);
    assert(negative ==> s[0] == '-');
    assert(sign_len(s, 0) == a);
    assert(minus_at(s, 0) == negative);
    lemma_digits_end(s, a, b);
    lemma_digits_end(s, b + 1, s.len() as int);
    assert(special_literal(s) is None) by {
        let word = s.skip(a);
        assert(word[0] == s[a]);
        assert(is_digit(s[a]) || s[a] == '.');
        assert(!is_letter(word[0], 'i') && !is_letter(word[0], 'n'));
        assert(seq!['i', 'n', 'f'][0] == 'i');
        assert(seq!['i', 'n', 'f', 'i', 'n', 'i', 't', 'y'][0] == 'i');
        assert(seq!['n', 'a', 'n'][0] == 'n');
    }
    assert(s.subrange(a, b) =~= whole);
    assert(s.subrange(b + 1, s.len() as int) =~= fraction);
}

} // verus!
