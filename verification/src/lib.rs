//! Typed, validated configuration of a storage subsystem, resolved from a
//! snapshot of named text variables.
//!
//! Each field of the configuration has a variable. The text of the variable,
//! or the field's default where it is not set, is read as a value of the
//! field's type and checked against the field's range; the first field that
//! is refused ends the resolution. What is derived from other fields is
//! settled once every field has resolved.

pub mod decimal;
pub mod digits;
pub mod error;
pub mod field;
pub mod names;
pub mod number;
pub mod reading;
pub mod resolution;
pub mod scalar;
pub mod snapshot;
pub mod store;
pub mod text;
pub mod time;
