//! Ratios that cannot be out of range: a value of one of these types is
//! made from text by a check, and in no other way.

use crate::decimal::{literal_number, Number};
use crate::error::ErrorKind;
use crate::reading::{
    lemma_at_least, lemma_at_most_one, lemma_zero_by_hundredths, read_number, Reading,
};
use vstd::prelude::*;

verus! {

/// The least slack factor, in hundredths: 1.01.
pub const SLACK_MINIMUM_HUNDREDTHS: u16 = 101;

/// `s` is a literal for a number between zero and one, both included.
pub open spec fn is_unit_ratio(s: Seq<char>) -> bool {
    literal_number(s) matches Some(n) && n.in_unit_interval()
}

/// `s` is a literal for a number that is at least 1.01.
pub open spec fn is_slack_factor(s: Seq<char>) -> bool {
    literal_number(s) matches Some(n) && n.at_least_hundredths(SLACK_MINIMUM_HUNDREDTHS as nat)
}

/// A fraction between zero and one, both included, kept as the literal it
/// was written as.
#[derive(Debug)]
pub struct ZeroToOne {
    literal: String,
}

impl View for ZeroToOne {
    type V = Seq<char>;

    closed spec fn view(&self) -> Seq<char> {
        self.literal@
    }
}

impl Clone for ZeroToOne {
    fn clone(&self) -> (r: Self)
        ensures
            r@ == self@,
    {
        proof {
            use_type_invariant(self);
        }
        ZeroToOne { literal: self.literal.clone() }
    }
}

impl ZeroToOne {
    #[verifier::type_invariant]
    spec fn in_range(self) -> bool {
        is_unit_ratio(self.literal@)
    }

    /// The number that the fraction is.
    pub open spec fn number(&self) -> Number {
        literal_number(self@).unwrap()
    }

    /// Checks that `s` is a literal for a number between zero and one and
    /// keeps it. Text that is no literal is malformed; a literal for any
    /// other number, or for no number, is out of range.
    pub fn from_str(s: &str) -> (r: Result<ZeroToOne, ErrorKind>)
        ensures
            match r {
                Ok(ratio) => ratio@ == s@ && is_unit_ratio(s@),
                Err(kind) => if literal_number(s@) is None {
                    kind == ErrorKind::MalformedValue
                } else {
                    kind == ErrorKind::OutOfRange && !is_unit_ratio(s@)
                },
            },
    {
        let reading = match read_number(s) {
            Some(reading) => reading,
            None => {
                return Err(ErrorKind::MalformedValue);
            },
        };
        let admitted = match reading {
            Reading::Finite { negative, hundredths, whole } => {
                proof {
                    let n = literal_number(s@).unwrap();
                    lemma_zero_by_hundredths(n->mantissa, n->exponent + 2);
                    lemma_at_most_one(n->mantissa, n->exponent);
                }
                (hundredths == 0 && whole) || (!negative && (hundredths < 100 || (hundredths
                    == 100 && whole)))
            },
            _ => false,
        };
        if admitted {
            Ok(ZeroToOne { literal: s.to_owned() })
        } else {
            Err(ErrorKind::OutOfRange)
        }
    }

    /// The literal, which denotes a number between zero and one.
    pub fn as_str(&self) -> (s: &str)
        ensures
            s@ == self@,
            is_unit_ratio(s@),
    {
        proof {
            use_type_invariant(self);
        }
        self.literal.as_str()
    }
}

/// A factor of at least 1.01, kept as the literal it was written as.
#[derive(Debug)]
pub struct HistorySlack {
    literal: String,
}

impl View for HistorySlack {
    type V = Seq<char>;

    closed spec fn view(&self) -> Seq<char> {
        self.literal@
    }
}

impl Clone for HistorySlack {
    fn clone(&self) -> (r: Self)
        ensures
            r@ == self@,
    {
        proof {
            use_type_invariant(self);
        }
        HistorySlack { literal: self.literal.clone() }
    }
}

impl HistorySlack {
    #[verifier::type_invariant]
    spec fn in_range(self) -> bool {
        is_slack_factor(self.literal@)
    }

    /// The number that the factor is.
    pub open spec fn number(&self) -> Number {
        literal_number(self@).unwrap()
    }

    /// Checks that `s` is a literal for a number that is at least 1.01 and
    /// keeps it. Text that is no literal is malformed; a literal for a
    /// smaller number, or for no number, is out of range.
    pub fn from_str(s: &str) -> (r: Result<HistorySlack, ErrorKind>)
        ensures
            match r {
                Ok(factor) => factor@ == s@ && is_slack_factor(s@),
                Err(kind) => if literal_number(s@) is None {
                    kind == ErrorKind::MalformedValue
                } else {
                    kind == ErrorKind::OutOfRange && !is_slack_factor(s@)
                },
            },
    {
        let reading = match read_number(s) {
            Some(reading) => reading,
            None => {
                return Err(ErrorKind::MalformedValue);
            },
        };
        let admitted = match reading {
            Reading::Finite { negative, hundredths, whole } => {
                proof {
                    let n = literal_number(s@).unwrap();
                    lemma_at_least(SLACK_MINIMUM_HUNDREDTHS as nat, n->mantissa, n->exponent);
                }
                !negative && hundredths >= SLACK_MINIMUM_HUNDREDTHS
            },
            Reading::Infinite { negative } => !negative,
            Reading::NotANumber => false,
        };
        if admitted {
            Ok(HistorySlack { literal: s.to_owned() })
        } else {
            Err(ErrorKind::OutOfRange)
        }
    }

    /// The literal, which denotes a number that is at least 1.01.
    pub fn as_str(&self) -> (s: &str)
        ensures
            s@ == self@,
            is_slack_factor(s@),
    {
        proof {
            use_type_invariant(self);
        }
        self.literal.as_str()
    }
}

} // verus!
