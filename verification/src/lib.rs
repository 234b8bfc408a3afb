//! An optional-value type with the usual combinators, and a minimal
//! pull-based sequence interface that yields such values.
//!
//! Every executable function carries a contract that Verus proves.

pub mod iter;
pub mod laws;
pub mod option;
