use vstd::prelude::*;

verus! {

/// Error raised by the library's validation and policy functions.
#[derive(Clone, Debug, PartialEq, Eq)]
pub enum CoreError {
    InvalidInput(String),
    NonFinite(String),
    Dimension(String),
    LinearSolve(String),
    NonlinearSolve(String),
}

/// Result type shared by the library's fallible functions.
pub type CoreResult<T> = Result<T, CoreError>;

} // verus!
