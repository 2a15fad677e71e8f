//! The error type that the command layer reports.
use vstd::prelude::*;

verus! {

/// Error reported by the command layer; the payload is a human readable detail.
#[derive(Debug)]
pub enum AppError {
    InvalidPath(String),
    InvalidState(String),
    NotFound(String),
    Io(String),
}

/// Result of a command.
pub type AppResult<T> = Result<T, AppError>;

} // verus!
