use rodas5p_integrators::adaptive::{AdaptiveFailureKind, adaptive_failure_kind};
use rodas5p_integrators::error::CoreError;
use rodas5p_integrators::g3_fused_adaptive_gate::G3FusedAdaptiveProfile;
use rodas5p_integrators::g4_prefix_kernel_gate::G4PrefixKernelProfile;
use rodas5p_integrators::g4_s5b0_inner_tolerance::{
    G4S5B0InnerToleranceLane, G4S5B0LinearToleranceArm, authorize_linear_tolerance_arm,
    committed_g4_s5b0_linear_tolerance_arm,
};
use rodas5p_integrators::homotopy::HomotopyWorkLedger;
use rodas5p_integrators::homotopy_experiments::HomotopyExperimentProfile;
use rodas5p_integrators::homotopy_policy::validate_exponent;
use rodas5p_integrators::native_gates::{BdfOrder, CandidateExecution, target_order};
use rodas5p_integrators::path_controller::PathControllerProfile;
use rodas5p_integrators::radau::{
    RadauIiaStages, RadauStageSolveArchitecture, RadauTransformLimitation, adaptive_estimator,
    stage_solve_architecture,
};

#[test]
fn profile_labels_are_kebab_case() {
    assert_eq!(G3FusedAdaptiveProfile::Smoke.as_str(), "smoke");
    assert_eq!(G3FusedAdaptiveProfile::Canonical.as_str(), "canonical");
    assert_eq!(G4PrefixKernelProfile::Smoke.as_str(), "smoke");
    assert_eq!(G4PrefixKernelProfile::Canonical.as_str(), "canonical");
    assert_eq!(HomotopyExperimentProfile::Smoke.as_str(), "smoke");
    assert_eq!(HomotopyExperimentProfile::Canonical.as_str(), "canonical");
    assert_eq!(PathControllerProfile::Smoke.as_str(), "smoke");
    assert_eq!(PathControllerProfile::Canonical.as_str(), "canonical");
}

#[test]
fn inner_tolerance_labels_cover_every_arm_and_lane() {
    let arms: Vec<&str> = G4S5B0LinearToleranceArm::ALL.iter().map(|arm| arm.as_str()).collect();
    assert_eq!(arms, vec!["legacy-fixed", "outer-scaled-numeric-parity"]);
    let lanes: Vec<&str> = G4S5B0InnerToleranceLane::ALL.iter().map(|lane| lane.as_str()).collect();
    assert_eq!(
        lanes,
        vec![
            "regime-atlas",
            "attempt-trace",
            "actual-level1-prefix",
            "actual-level2-prefix",
            "stage-growth-safety",
            "frozen-full-e-shadow",
        ]
    );
}

#[test]
fn only_the_committed_tolerance_arm_is_authorized() {
    assert_eq!(committed_g4_s5b0_linear_tolerance_arm(), G4S5B0LinearToleranceArm::LegacyFixed);
    assert_eq!(authorize_linear_tolerance_arm(G4S5B0LinearToleranceArm::LegacyFixed), Ok(()));
    assert_eq!(
        authorize_linear_tolerance_arm(G4S5B0LinearToleranceArm::OuterScaledNumericParity),
        Err(CoreError::InvalidInput(
            "G4/S5B0 runtime arm 'outer-scaled-numeric-parity' is not authority-enabled; \
             committed arm is 'legacy-fixed'"
                .to_owned()
        ))
    );
}

#[test]
fn radau_stage_tables() {
    assert_eq!(RadauIiaStages::One.count(), 1);
    assert_eq!(RadauIiaStages::Three.count(), 3);
    assert_eq!(RadauIiaStages::One.order(), 1);
    assert_eq!(RadauIiaStages::Three.order(), 5);
    assert_eq!(
        stage_solve_architecture(RadauIiaStages::One),
        RadauStageSolveArchitecture::FullRealStageSystem
    );
    assert_eq!(
        stage_solve_architecture(RadauIiaStages::Three),
        RadauStageSolveArchitecture::FullRealStageSystemTransformDeferred(
            RadauTransformLimitation::RealOnlyDenseLu
        )
    );
    assert_eq!(adaptive_estimator(RadauIiaStages::One), (2, "radau-iia1-step-doubling"));
    assert_eq!(
        adaptive_estimator(RadauIiaStages::Three),
        (4, "radau-iia3-scipy-1.17.0-embedded-order3")
    );
}

#[test]
fn native_order_targets() {
    assert_eq!(target_order(&CandidateExecution::Bdf { order: BdfOrder::One }), Some(1));
    assert_eq!(target_order(&CandidateExecution::Bdf { order: BdfOrder::Two }), Some(2));
    assert_eq!(
        target_order(&CandidateExecution::RadauIrk { stages: RadauIiaStages::One }),
        Some(1)
    );
    assert_eq!(
        target_order(&CandidateExecution::RadauIrk { stages: RadauIiaStages::Three }),
        Some(5)
    );
    assert_eq!(target_order(&CandidateExecution::Other), None);
}

#[test]
fn adaptive_failures_are_only_solver_or_nonfinite_errors() {
    assert_eq!(
        adaptive_failure_kind(&CoreError::NonFinite("x".to_owned())),
        Some(AdaptiveFailureKind::NonFinite)
    );
    assert_eq!(
        adaptive_failure_kind(&CoreError::LinearSolve("x".to_owned())),
        Some(AdaptiveFailureKind::LinearSolve)
    );
    assert_eq!(
        adaptive_failure_kind(&CoreError::NonlinearSolve("x".to_owned())),
        Some(AdaptiveFailureKind::NonlinearSolve)
    );
    assert_eq!(adaptive_failure_kind(&CoreError::InvalidInput("x".to_owned())), None);
    assert_eq!(adaptive_failure_kind(&CoreError::Dimension("x".to_owned())), None);
}

#[test]
fn homotopy_ledger_starts_empty() {
    let ledger = HomotopyWorkLedger::default();
    assert_eq!(ledger.path_rounds, 0);
    assert_eq!(ledger.correction_rounds, 0);
    assert_eq!(ledger.tangent_evaluations, 0);
    assert_eq!(ledger.nonlinear_snapshots, 0);
    assert_eq!(ledger.coupling_actions, 0);
    assert_eq!(ledger.w_factorizations, 0);
    assert_eq!(ledger.w_solve_batches, 0);
    assert_eq!(ledger.w_solve_vectors, 0);
}

#[test]
fn exponent_must_be_positive_and_fit_i32() {
    assert_eq!(validate_exponent(1), Ok(()));
    assert_eq!(validate_exponent(i32::MAX as u32), Ok(()));
    let message = "homotopy policy exponent must lie in 1..=i32::MAX".to_owned();
    assert_eq!(validate_exponent(0), Err(CoreError::InvalidInput(message.clone())));
    assert_eq!(validate_exponent(i32::MAX as u32 + 1), Err(CoreError::InvalidInput(message)));
}
