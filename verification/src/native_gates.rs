use vstd::prelude::*;

use crate::radau::RadauIiaStages;

verus! {

/// Order of a fixed-order BDF method.
#[derive(Clone, Copy, Debug, PartialEq, Eq)]
pub enum BdfOrder {
    One,
    Two,
}

/// How a catalogued candidate integrator executes, as far as the native
/// gates read it: a BDF method of a given order, a Radau IIA method of a
/// given stage count, or any other (non-native) execution.
#[derive(Clone, Copy, Debug, PartialEq, Eq)]
pub enum CandidateExecution {
    Bdf { order: BdfOrder },
    RadauIrk { stages: RadauIiaStages },
    Other,
}

/// Convergence order that the native order gate demands of a candidate.
pub open spec fn spec_target_order(execution: CandidateExecution) -> Option<nat> {
    match execution {
        CandidateExecution::Bdf { order: BdfOrder::One } => Some(1),
        CandidateExecution::Bdf { order: BdfOrder::Two } => Some(2),
        CandidateExecution::RadauIrk { stages: RadauIiaStages::One } => Some(1),
        CandidateExecution::RadauIrk { stages: RadauIiaStages::Three } => Some(5),
        CandidateExecution::Other => None,
    }
}

pub fn target_order(execution: &CandidateExecution) -> (order: Option<usize>)
    ensures
        order matches Some(o) ==> spec_target_order(*execution) == Some(o as nat),
        order is None ==> spec_target_order(*execution) is None,
{
    match execution {
        CandidateExecution::Bdf { order: BdfOrder::One } => Some(1),
        CandidateExecution::Bdf { order: BdfOrder::Two } => Some(2),
        CandidateExecution::RadauIrk { stages: RadauIiaStages::One } => Some(1),
        CandidateExecution::RadauIrk { stages: RadauIiaStages::Three } => Some(5),
        CandidateExecution::Other => None,
    }
}

} // verus!
