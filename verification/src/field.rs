//! One field at a time: from the text of its variable, or from the default
//! declared for it, to a typed value or a rejection that names the variable.
//! A default is text as well, and is read as the text of a variable is.

use crate::decimal::literal_number;
use crate::error::{ConfigError, ConfigErrorView, ErrorKind};
use crate::number::{flag_literal, parse_bool, parse_u32, parse_u64, parse_usize, unsigned_up_to};
use crate::scalar::{is_slack_factor, is_unit_ratio, HistorySlack, ZeroToOne};
use crate::snapshot::{EnvSnapshot, Variables};
use vstd::prelude::*;

verus! {

/// What a field resolves to: its value, or the rejection of its variable.
pub type Resolved<T> = Result<T, ConfigErrorView>;

/// An optional text as the sequence of its characters.
pub open spec fn text_view(text: Option<&str>) -> Option<Seq<char>> {
    match text {
        Some(t) => Some(t@),
        None => None,
    }
}

/// The text that a field is read from: that of its variable where it is
/// set, else the default, if one is declared.
pub open spec fn field_text(
    env: Variables,
    key: Seq<char>,
    default: Option<Seq<char>>,
) -> Option<Seq<char>> {
    if env.contains_key(key) {
        Some(env[key])
    } else {
        default
    }
}

/// The rejection of `text`, read for the variable `key`.
pub open spec fn rejection(kind: ErrorKind, key: Seq<char>, text: Seq<char>) -> ConfigErrorView {
    ConfigErrorView { kind, variable: key, raw: Some(text) }
}

/// The rejection of the variable `key` because it is not set.
pub open spec fn absence(key: Seq<char>) -> ConfigErrorView {
    ConfigErrorView { kind: ErrorKind::MissingRequired, variable: key, raw: None }
}

/// A field that holds an unsigned integer: one that the type holds, which
/// goes up to `type_max`, and that is at most `max`. A field without text
/// is missing; text that is no integer of the type is malformed; an integer
/// above `max` is out of range.
pub open spec fn unsigned_field(
    env: Variables,
    key: Seq<char>,
    default: Option<Seq<char>>,
    type_max: nat,
    max: nat,
) -> Resolved<nat> {
    match field_text(env, key, default) {
        None => Err(absence(key)),
        Some(text) => match unsigned_up_to(text, type_max) {
            None => Err(rejection(ErrorKind::MalformedValue, key, text)),
            Some(n) => if n <= max {
                Ok(n)
            } else {
                Err(rejection(ErrorKind::OutOfRange, key, text))
            },
        },
    }
}

/// A `u64` field that admits values up to `max`.
pub open spec fn u64_field(
    env: Variables,
    key: Seq<char>,
    default: Option<Seq<char>>,
    max: u64,
) -> Resolved<u64> {
    match unsigned_field(env, key, default, u64::MAX as nat, max as nat) {
        Ok(n) => Ok(n as u64),
        Err(e) => Err(e),
    }
}

/// A `usize` field that admits values up to `max`.
pub open spec fn usize_field(
    env: Variables,
    key: Seq<char>,
    default: Option<Seq<char>>,
    max: usize,
) -> Resolved<usize> {
    match unsigned_field(env, key, default, usize::MAX as nat, max as nat) {
        Ok(n) => Ok(n as usize),
        Err(e) => Err(e),
    }
}

/// A `u64` field that may be left unset, which is no fault.
pub open spec fn optional_u64_field(env: Variables, key: Seq<char>) -> Resolved<Option<u64>> {
    if env.contains_key(key) {
        match u64_field(env, key, None, u64::MAX) {
            Ok(n) => Ok(Some(n)),
            Err(e) => Err(e),
        }
    } else {
        Ok(None)
    }
}

/// A `u32` field that may be left unset, which is no fault.
pub open spec fn optional_u32_field(env: Variables, key: Seq<char>) -> Resolved<Option<u32>> {
    if env.contains_key(key) {
        match unsigned_field(env, key, None, u32::MAX as nat, u32::MAX as nat) {
            Ok(n) => Ok(Some(n as u32)),
            Err(e) => Err(e),
        }
    } else {
        Ok(None)
    }
}

/// A field that holds a flag.
pub open spec fn flag_field(
    env: Variables,
    key: Seq<char>,
    default: Option<Seq<char>>,
) -> Resolved<bool> {
    match field_text(env, key, default) {
        None => Err(absence(key)),
        Some(text) => match flag_literal(text) {
            Some(flag) => Ok(flag),
            None => Err(rejection(ErrorKind::MalformedValue, key, text)),
        },
    }
}

/// A field that holds a decimal literal for a number that is `admitted`;
/// it resolves to the literal itself. Text that is no literal is malformed;
/// a literal that is not admitted is out of range.
pub open spec fn literal_field(
    env: Variables,
    key: Seq<char>,
    default: Option<Seq<char>>,
    admitted: spec_fn(Seq<char>) -> bool,
) -> Resolved<Seq<char>> {
    match field_text(env, key, default) {
        None => Err(absence(key)),
        Some(text) => if literal_number(text) is None {
            Err(rejection(ErrorKind::MalformedValue, key, text))
        } else if admitted(text) {
            Ok(text)
        } else {
            Err(rejection(ErrorKind::OutOfRange, key, text))
        },
    }
}

/// A field that holds a fraction between zero and one.
pub open spec fn unit_ratio_field(
    env: Variables,
    key: Seq<char>,
    default: Option<Seq<char>>,
) -> Resolved<Seq<char>> {
    literal_field(env, key, default, |s: Seq<char>| is_unit_ratio(s))
}

/// A field that holds a factor of at least 1.01.
pub open spec fn slack_factor_field(
    env: Variables,
    key: Seq<char>,
    default: Option<Seq<char>>,
) -> Resolved<Seq<char>> {
    literal_field(env, key, default, |s: Seq<char>| is_slack_factor(s))
}

/// What was read is what the field resolves to: the same value, or the
/// same rejection.
pub open spec fn reads<T>(r: Result<T, ConfigError>, field: Resolved<T>) -> bool {
    match r {
        Ok(v) => field == Resolved::<T>::Ok(v),
        Err(e) => field == Resolved::<T>::Err(e@),
    }
}

/// The text that the field `key` is read from.
pub fn read_text<'a>(env: &'a EnvSnapshot, key: &str, default: Option<&'a str>) -> (r: Option<
    &'a str,
>)
    ensures
        text_view(r) == field_text(env@, key@, text_view(default)),
{
    match env.get(key) {
        Some(text) => Some(text),
        None => default,
    }
}

/// Reads the `u64` field `key`, which admits values up to `max`.
pub fn read_u64(env: &EnvSnapshot, key: &str, default: Option<&str>, max: u64) -> (r: Result<
    u64,
    ConfigError,
>)
    ensures
        reads(r, u64_field(env@, key@, text_view(default), max)),
{
    match read_text(env, key, default) {
        None => Err(ConfigError::missing(key)),
        Some(text) => match parse_u64(text) {
            None => Err(ConfigError::rejected(ErrorKind::MalformedValue, key, text)),
            Some(n) => if n <= max {
                Ok(n)
            } else {
                Err(ConfigError::rejected(ErrorKind::OutOfRange, key, text))
            },
        },
    }
}

/// Reads the `usize` field `key`, which admits values up to `max`.
pub fn read_usize(env: &EnvSnapshot, key: &str, default: Option<&str>, max: usize) -> (r: Result<
    usize,
    ConfigError,
>)
    ensures
        reads(r, usize_field(env@, key@, text_view(default), max)),
{
    match read_text(env, key, default) {
        None => Err(ConfigError::missing(key)),
        Some(text) => match parse_usize(text) {
            None => Err(ConfigError::rejected(ErrorKind::MalformedValue, key, text)),
            Some(n) => if n <= max {
                Ok(n)
            } else {
                Err(ConfigError::rejected(ErrorKind::OutOfRange, key, text))
            },
        },
    }
}

/// Reads the `u64` field `key`, which may be left unset.
pub fn read_optional_u64(env: &EnvSnapshot, key: &str) -> (r: Result<Option<u64>, ConfigError>)
    ensures
        reads(r, optional_u64_field(env@, key@)),
{
    match env.get(key) {
        None => Ok(None),
        Some(text) => match parse_u64(text) {
            Some(n) => Ok(Some(n)),
            None => Err(ConfigError::rejected(ErrorKind::MalformedValue, key, text)),
        },
    }
}

/// Reads the `u32` field `key`, which may be left unset.
pub fn read_optional_u32(env: &EnvSnapshot, key: &str) -> (r: Result<Option<u32>, ConfigError>)
    ensures
        reads(r, optional_u32_field(env@, key@)),
{
    match env.get(key) {
        None => Ok(None),
        Some(text) => match parse_u32(text) {
            Some(n) => Ok(Some(n)),
            None => Err(ConfigError::rejected(ErrorKind::MalformedValue, key, text)),
        },
    }
}

/// Reads the flag `key`.
pub fn read_bool(env: &EnvSnapshot, key: &str, default: Option<&str>) -> (r: Result<
    bool,
    ConfigError,
>)
    ensures
        reads(r, flag_field(env@, key@, text_view(default))),
{
    match read_text(env, key, default) {
        None => Err(ConfigError::missing(key)),
        Some(text) => match parse_bool(text) {
            Some(flag) => Ok(flag),
            None => Err(ConfigError::rejected(ErrorKind::MalformedValue, key, text)),
        },
    }
}

/// Reads the field `key`, a fraction between zero and one.
pub fn read_zero_to_one(env: &EnvSnapshot, key: &str, default: Option<&str>) -> (r: Result<
    ZeroToOne,
    ConfigError,
>)
    ensures
        match r {
            Ok(ratio) => unit_ratio_field(env@, key@, text_view(default)) == Resolved::<
                Seq<char>,
            >::Ok(ratio@),
            Err(e) => unit_ratio_field(env@, key@, text_view(default)) == Resolved::<
                Seq<char>,
            >::Err(e@),
        },
{
    match read_text(env, key, default) {
        None => Err(ConfigError::missing(key)),
        Some(text) => match ZeroToOne::from_str(text) {
            Ok(ratio) => Ok(ratio),
            Err(kind) => Err(ConfigError::rejected(kind, key, text)),
        },
    }
}

/// Reads the field `key`, a factor of at least 1.01.
pub fn read_history_slack(env: &EnvSnapshot, key: &str, default: Option<&str>) -> (r: Result<
    HistorySlack,
    ConfigError,
>)
    ensures
        match r {
            Ok(factor) => slack_factor_field(env@, key@, text_view(default)) == Resolved::<
                Seq<char>,
            >::Ok(factor@),
            Err(e) => slack_factor_field(env@, key@, text_view(default)) == Resolved::<
                Seq<char>,
            >::Err(e@),
        },
{
    match read_text(env, key, default) {
        None => Err(ConfigError::missing(key)),
        Some(text) => match HistorySlack::from_str(text) {
            Ok(factor) => Ok(factor),
            Err(kind) => Err(ConfigError::rejected(kind, key, text)),
        },
    }
}

} // verus!
