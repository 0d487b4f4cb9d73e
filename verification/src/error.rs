//! Operator error type.
use vstd::prelude::*;

verus! {

/// Errors surfaced by the operator's validation and preflight logic.
#[derive(Clone, Debug, PartialEq, Eq)]
pub enum Error {
    /// Invalid or unusable configuration; the text says what is wrong.
    ConfigError(String),
}

impl Error {
    /// The human-readable description carried by the error.
    pub fn message(&self) -> (m: String)
        ensures
            match self {
                Error::ConfigError(s) => m@ == s@,
            },
    {
        match self {
            Error::ConfigError(s) => s.clone(),
        }
    }
}

/// Operator result type.
pub type Result<T> = core::result::Result<T, Error>;

} // verus!
