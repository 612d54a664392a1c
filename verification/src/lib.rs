//! Typed, validated values of a motor controller's output protocol.
//!
//! Raw protocol bytes enter through the conversions in [`motor`]; a byte that
//! names no value of a closed set is reported as an [`Error`] and never coerced.

pub mod error;
pub mod laws;
pub mod motor;

pub use error::{Error, Field, Result};
