//! Diagnostics for a compile-time format-description macro.
//!
//! The crate provides a closed taxonomy of the ways macro-input validation and
//! format-description validation can fail, renders each failure as a fixed,
//! deterministic message, and builds the token fragment
//! `::core::compile_error!("...")` that reports the failure to the host
//! compiler without aborting macro expansion.

pub mod digits;
pub mod error;
pub mod format_description;
pub mod tokens;
