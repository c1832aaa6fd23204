use vstd::prelude::*;

use crate::error::{CoreError, CoreResult};

verus! {

/// What the inner-forcing residual target claims: a per-stage residual
/// heuristic, not an endpoint-error bound.
#[derive(Clone, Copy, Debug, PartialEq, Eq)]
pub enum Rodas5pInnerForcingClaimScope {
    StageResidualHeuristicRequiresResolventBound,
}

pub const RODAS5P_INNER_FORCING_CLAIM_SCOPE: Rodas5pInnerForcingClaimScope =
    Rodas5pInnerForcingClaimScope::StageResidualHeuristicRequiresResolventBound;

/// Explicit GMRES tolerance arm used by the G4/S5B0 authority replay.
#[derive(Clone, Copy, Debug, PartialEq, Eq)]
pub enum G4S5B0LinearToleranceArm {
    LegacyFixed,
    OuterScaledNumericParity,
}

/// The kebab-case label of a linear tolerance arm.
pub open spec fn linear_tolerance_arm_label(arm: G4S5B0LinearToleranceArm) -> Seq<char> {
    match arm {
        G4S5B0LinearToleranceArm::LegacyFixed => "legacy-fixed"@,
        G4S5B0LinearToleranceArm::OuterScaledNumericParity => "outer-scaled-numeric-parity"@,
    }
}

impl G4S5B0LinearToleranceArm {
    pub const ALL: [G4S5B0LinearToleranceArm; 2] = [
        G4S5B0LinearToleranceArm::LegacyFixed,
        G4S5B0LinearToleranceArm::OuterScaledNumericParity,
    ];

    pub fn as_str(self) -> (label: &'static str)
        ensures
            label@ == linear_tolerance_arm_label(self),
    {
        match self {
            G4S5B0LinearToleranceArm::LegacyFixed => "legacy-fixed",
            G4S5B0LinearToleranceArm::OuterScaledNumericParity => "outer-scaled-numeric-parity",
        }
    }
}

/// The six protected G4/S5B0 runtime lanes that consume an inner policy.
#[derive(Clone, Copy, Debug, PartialEq, Eq)]
pub enum G4S5B0InnerToleranceLane {
    RegimeAtlas,
    AttemptTrace,
    ActualLevel1Prefix,
    ActualLevel2Prefix,
    StageGrowthSafety,
    FrozenFullEShadow,
}

/// The kebab-case label of an inner-tolerance lane.
pub open spec fn inner_tolerance_lane_label(lane: G4S5B0InnerToleranceLane) -> Seq<char> {
    match lane {
        G4S5B0InnerToleranceLane::RegimeAtlas => "regime-atlas"@,
        G4S5B0InnerToleranceLane::AttemptTrace => "attempt-trace"@,
        G4S5B0InnerToleranceLane::ActualLevel1Prefix => "actual-level1-prefix"@,
        G4S5B0InnerToleranceLane::ActualLevel2Prefix => "actual-level2-prefix"@,
        G4S5B0InnerToleranceLane::StageGrowthSafety => "stage-growth-safety"@,
        G4S5B0InnerToleranceLane::FrozenFullEShadow => "frozen-full-e-shadow"@,
    }
}

impl G4S5B0InnerToleranceLane {
    pub const ALL: [G4S5B0InnerToleranceLane; 6] = [
        G4S5B0InnerToleranceLane::RegimeAtlas,
        G4S5B0InnerToleranceLane::AttemptTrace,
        G4S5B0InnerToleranceLane::ActualLevel1Prefix,
        G4S5B0InnerToleranceLane::ActualLevel2Prefix,
        G4S5B0InnerToleranceLane::StageGrowthSafety,
        G4S5B0InnerToleranceLane::FrozenFullEShadow,
    ];

    pub fn as_str(self) -> (label: &'static str)
        ensures
            label@ == inner_tolerance_lane_label(self),
    {
        match self {
            G4S5B0InnerToleranceLane::RegimeAtlas => "regime-atlas",
            G4S5B0InnerToleranceLane::AttemptTrace => "attempt-trace",
            G4S5B0InnerToleranceLane::ActualLevel1Prefix => "actual-level1-prefix",
            G4S5B0InnerToleranceLane::ActualLevel2Prefix => "actual-level2-prefix",
            G4S5B0InnerToleranceLane::StageGrowthSafety => "stage-growth-safety",
            G4S5B0InnerToleranceLane::FrozenFullEShadow => "frozen-full-e-shadow",
        }
    }
}

/// Committed arm while the two-arm authority replay is being generated.
pub const G4_S5B0_COMMITTED_LINEAR_TOLERANCE_ARM: G4S5B0LinearToleranceArm =
    G4S5B0LinearToleranceArm::LegacyFixed;

pub fn committed_g4_s5b0_linear_tolerance_arm() -> (arm: G4S5B0LinearToleranceArm)
    ensures
        arm == G4S5B0LinearToleranceArm::LegacyFixed,
{
    G4_S5B0_COMMITTED_LINEAR_TOLERANCE_ARM
}

/// Message refusing a runtime arm that is not the committed one.
pub open spec fn arm_refusal_message(arm: G4S5B0LinearToleranceArm) -> Seq<char> {
    "G4/S5B0 runtime arm '"@ + linear_tolerance_arm_label(arm)
        + "' is not authority-enabled; committed arm is '"@ + linear_tolerance_arm_label(
        G4S5B0LinearToleranceArm::LegacyFixed,
    ) + "'"@
}

/// Admits a runtime tolerance arm for the authority trace only when it is the
/// committed arm; any other arm is refused with an explanatory message.
pub fn authorize_linear_tolerance_arm(arm: G4S5B0LinearToleranceArm) -> (result: CoreResult<()>)
    ensures
        result is Ok <==> arm == G4S5B0LinearToleranceArm::LegacyFixed,
        result matches Err(error) ==> error is InvalidInput,
        result matches Err(CoreError::InvalidInput(message)) ==> message@ == arm_refusal_message(
            arm,
        ),
{
    let committed = committed_g4_s5b0_linear_tolerance_arm();
    let is_committed = match arm {
        G4S5B0LinearToleranceArm::LegacyFixed => true,
        G4S5B0LinearToleranceArm::OuterScaledNumericParity => false,
    };
    if !is_committed {
        let mut message = "G4/S5B0 runtime arm '".to_owned();
        message.append(arm.as_str());
        message.append("' is not authority-enabled; committed arm is '");
        message.append(committed.as_str());
        message.append("'");
        return Err(CoreError::InvalidInput(message));
    }
    Ok(())
}

} // verus!
