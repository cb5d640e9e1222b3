//! The library's tagged error type.
//!
//! Two categories are kept apart: user errors (bad input, recoverable,
//! reported and the process exits cleanly) and integrity errors (a broken
//! format invariant or a missing configuration entry; reported as fatal
//! misconfiguration).

use vstd::prelude::*;

verus! {

#[derive(Clone, Copy, PartialEq, Eq, Structural, Debug)]
pub enum ErrorCategory {
    /// Bad user input; recoverable.
    User,
    /// A broken format invariant or missing configuration; fatal.
    Integrity,
}

/// An error of the library, with its category and a human-readable message.
#[derive(Debug)]
pub struct CoreError {
    pub category: ErrorCategory,
    pub message: String,
}

impl CoreError {
    pub fn user(message: String) -> (r: CoreError)
        ensures
            r.category == ErrorCategory::User,
            r.message@ == message@,
    {
        CoreError { category: ErrorCategory::User, message }
    }

    pub fn integrity(message: String) -> (r: CoreError)
        ensures
            r.category == ErrorCategory::Integrity,
            r.message@ == message@,
    {
        CoreError { category: ErrorCategory::Integrity, message }
    }

    /// The message, for display at the process boundary.
    pub fn message(&self) -> (r: &str)
        ensures
            r@ == self.message@,
    {
        self.message.as_str()
    }
}

} // verus!
