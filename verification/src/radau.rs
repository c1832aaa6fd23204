use vstd::prelude::*;

verus! {

/// Number of stages of a Radau IIA collocation method.
#[derive(Clone, Copy, Debug, PartialEq, Eq)]
pub enum RadauIiaStages {
    One,
    Three,
}

/// How the coupled Radau stage system is solved.
#[derive(Clone, Copy, Debug, PartialEq, Eq)]
pub enum RadauStageSolveArchitecture {
    FullRealStageSystem,
    FullRealStageSystemTransformDeferred(RadauTransformLimitation),
}

/// Why the eigen-transformed Radau solve is not used.
#[derive(Clone, Copy, Debug, PartialEq, Eq)]
pub enum RadauTransformLimitation {
    /// Only a real dense LU factorization is available, so the standard
    /// real-plus-complex block transform cannot be formed.
    RealOnlyDenseLu,
}

/// Number of implicit stages of a Radau IIA method.
pub open spec fn radau_stage_count(stages: RadauIiaStages) -> nat {
    match stages {
        RadauIiaStages::One => 1,
        RadauIiaStages::Three => 3,
    }
}

/// Classical order of a Radau IIA method (`2s - 1` for `s` stages).
pub open spec fn radau_order(stages: RadauIiaStages) -> nat {
    (2 * radau_stage_count(stages) - 1) as nat
}

impl RadauIiaStages {
    pub fn count(self) -> (count: usize)
        ensures
            count == radau_stage_count(self),
    {
        match self {
            RadauIiaStages::One => 1,
            RadauIiaStages::Three => 3,
        }
    }

    pub fn order(self) -> (order: usize)
        ensures
            order == radau_order(self),
    {
        match self {
            RadauIiaStages::One => 1,
            RadauIiaStages::Three => 5,
        }
    }
}

/// The stage-solve architecture reported by a Radau step: the one-stage
/// method solves its real system directly, the three-stage method defers the
/// eigen-transform because only real LU is available.
pub fn stage_solve_architecture(stages: RadauIiaStages) -> (architecture:
    RadauStageSolveArchitecture)
    ensures
        architecture == (match stages {
            RadauIiaStages::One => RadauStageSolveArchitecture::FullRealStageSystem,
            RadauIiaStages::Three => RadauStageSolveArchitecture::FullRealStageSystemTransformDeferred(
                RadauTransformLimitation::RealOnlyDenseLu,
            ),
        }),
{
    match stages {
        RadauIiaStages::One => RadauStageSolveArchitecture::FullRealStageSystem,
        RadauIiaStages::Three => RadauStageSolveArchitecture::FullRealStageSystemTransformDeferred(
            RadauTransformLimitation::RealOnlyDenseLu,
        ),
    }
}

/// Identifier of the step-doubling estimator of the one-stage method.
pub open spec fn radau1_estimator_id() -> Seq<char> {
    "radau-iia1-step-doubling"@
}

/// Identifier of the embedded third-order estimator of the three-stage method.
pub open spec fn radau3_estimator_id() -> Seq<char> {
    "radau-iia3-scipy-1.17.0-embedded-order3"@
}

/// The local-error estimator that adaptive Radau integration uses for a
/// stage count: its order and its identifier.
pub fn adaptive_estimator(stages: RadauIiaStages) -> (estimator: (usize, &'static str))
    ensures
        stages is One ==> estimator.0 == 2 && estimator.1@ == radau1_estimator_id(),
        stages is Three ==> estimator.0 == 4 && estimator.1@ == radau3_estimator_id(),
{
    match stages {
        RadauIiaStages::One => (2, "radau-iia1-step-doubling"),
        RadauIiaStages::Three => (4, "radau-iia3-scipy-1.17.0-embedded-order3"),
    }
}

} // verus!
