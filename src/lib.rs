//! Fallible allocation: layouts, allocation outcomes and the errors that
//! describe them, so that running out of memory or asking for an impossible
//! layout is an ordinary error value rather than an abort.
//!
//! The library computes and checks everything that can be decided from plain
//! values: the layout of a value or of an array, whether a request is
//! admissible, and which error (with which message) a failed request gives.

pub mod alloc_error;
pub mod layout;
pub mod decimal;
pub mod allocation;
