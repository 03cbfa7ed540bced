//! Spans of time as the configuration hands them out: `std::time::Duration`
//! for most of them, `chrono::TimeDelta` for the interval that is given in
//! minutes.
//!
//! Both types are opaque to the verifier. What is said here of the functions
//! that make values of them is taken from their documentation and from the
//! source of `chrono`; nothing of it is proved.

use std::time::Duration;
use vstd::prelude::*;

verus! {

/// `chrono::TimeDelta`, which `chrono::Duration` is another name for.
/// Nothing is known of what is inside a value.
#[verifier::external_type_specification]
#[verifier::external_body]
pub struct ExTimeDelta(chrono::TimeDelta);

/// The length of a `Duration` in nanoseconds: what `Duration::as_nanos`
/// returns for it.
pub uninterp spec fn duration_nanos(d: Duration) -> nat;

/// The length of a `TimeDelta` in whole milliseconds: what
/// `TimeDelta::num_milliseconds` returns for it.
pub uninterp spec fn delta_millis(d: chrono::TimeDelta) -> int;

/// The largest number of minutes that `TimeDelta::minutes` accepts. A
/// `TimeDelta` holds at most `i64::MAX` milliseconds, which is
/// 9,223,372,036,854,775 whole seconds, and this many whole minutes.
pub const MAX_DELTA_MINUTES: u64 = 153_722_867_280_912;

/// `Duration::from_secs` makes a span of exactly `secs` seconds, for every
/// `secs`.
pub assume_specification[ Duration::from_secs ](secs: u64) -> (d: Duration)
    ensures
        duration_nanos(d) == secs * 1_000_000_000,
;

/// `Duration::from_millis` makes a span of exactly `millis` milliseconds,
/// for every `millis`.
pub assume_specification[ Duration::from_millis ](millis: u64) -> (d: Duration)
    ensures
        duration_nanos(d) == millis * 1_000_000,
;

/// `chrono::TimeDelta::minutes` makes a span of exactly `minutes` minutes.
/// It panics where that many minutes do not fit the type, so the caller
/// must keep within the bound.
pub assume_specification[ chrono::TimeDelta::minutes ](minutes: i64) -> (d: chrono::TimeDelta)
    requires
        -(MAX_DELTA_MINUTES as int) <= minutes <= MAX_DELTA_MINUTES as int,
    ensures
        delta_millis(d) == minutes * 60_000,
;

} // verus!
