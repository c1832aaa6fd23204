use vstd::prelude::*;

use crate::error::CoreError;

verus! {

/// Why an adaptive trial step was rejected.
#[derive(Clone, Copy, Debug, PartialEq, Eq)]
pub enum AdaptiveFailureKind {
    LocalError,
    LinearSolve,
    NonlinearSolve,
    NonFinite,
}

/// The recoverable failure kind of a trial error: solver and non-finite
/// failures make the controller shrink the step, every other error aborts.
pub open spec fn spec_adaptive_failure_kind(error: CoreError) -> Option<AdaptiveFailureKind> {
    match error {
        CoreError::NonFinite(_) => Some(AdaptiveFailureKind::NonFinite),
        CoreError::LinearSolve(_) => Some(AdaptiveFailureKind::LinearSolve),
        CoreError::NonlinearSolve(_) => Some(AdaptiveFailureKind::NonlinearSolve),
        _ => None,
    }
}

/// Classifies a trial error as a recoverable adaptive failure, or `None`
/// when the error must abort the integration.
pub fn adaptive_failure_kind(error: &CoreError) -> (kind: Option<AdaptiveFailureKind>)
    ensures
        kind == spec_adaptive_failure_kind(*error),
{
    match error {
        CoreError::NonFinite(_) => Some(AdaptiveFailureKind::NonFinite),
        CoreError::LinearSolve(_) => Some(AdaptiveFailureKind::LinearSolve),
        CoreError::NonlinearSolve(_) => Some(AdaptiveFailureKind::NonlinearSolve),
        _ => None,
    }
}

} // verus!
