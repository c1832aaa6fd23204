use rodas5p_integrators::g3_fused_adaptive_gate::G3FusedAdaptiveProfile;
use rodas5p_integrators::g4_s5b3_attempt_geometry::{
    AdaptiveEarlyFlowDefectOutcome, AdaptiveRunRecord, EarlyFlowDefectAttemptRecord,
    EarlyFlowDefectDiagnosticWork, EarlyFlowDefectTelemetryRecord, G4S5B3Profile, OverheadProtocol,
    RecordField, SuiteTelemetryMode, SuiteTrajectoryRecord, compare_trajectory,
    diagnostic_expensive_work_zero, hard_gate_summary, overhead_pair_order, same_f64_bits,
    same_nested_f64_bits, suites_numerically_identical, sum_diagnostic_work,
};

fn cheap_work(norms: u64) -> EarlyFlowDefectDiagnosticWork {
    EarlyFlowDefectDiagnosticWork {
        conceptual_vector_differences: 1,
        l2_norm_evaluations: norms,
        scalar_normalizations: 1,
        component_scale_evaluations: 1,
        wrms_norm_evaluations: 1,
        ..EarlyFlowDefectDiagnosticWork::default()
    }
}

fn attempt(outcome: AdaptiveEarlyFlowDefectOutcome, h: f64, eta: Option<f64>) -> EarlyFlowDefectAttemptRecord {
    EarlyFlowDefectAttemptRecord {
        outcome,
        step_size_bits: h.to_bits(),
        telemetry: Some(EarlyFlowDefectTelemetryRecord {
            normalized_defect_bits: eta.map(f64::to_bits),
            degenerate_nonzero_remainder: false,
            nonfinite_normalization: false,
            diagnostic_work: cheap_work(2),
        }),
        failure: None,
        time_error_norm_bits: Some(0.1_f64.to_bits()),
        phi_error_norm_bits: Some(0.2_f64.to_bits()),
        total_error_norm_bits: Some(0.3_f64.to_bits()),
        candidate_state_finite: Some(true),
        maximum_krylov_dimension: Some(6),
        phi_substeps: Some(1),
        has_trial_work: true,
    }
}

fn run(attempts: Vec<EarlyFlowDefectAttemptRecord>) -> AdaptiveRunRecord {
    AdaptiveRunRecord {
        output_times_bits: vec![0.0_f64.to_bits(), 1.0_f64.to_bits()],
        output_states_bits: vec![vec![1.0_f64.to_bits()], vec![0.5_f64.to_bits()]],
        success: true,
        message: "ok".to_owned(),
        counters: vec![10, 20, 0],
        internal_steps: 2,
        output_clipped_steps: 0,
        attempts: 3,
        accepted_steps: 2,
        rejected_steps: 1,
        accepted_step_sizes_bits: vec![0.5_f64.to_bits(), 0.25_f64.to_bits()],
        rejected_step_sizes_bits: vec![1.0_f64.to_bits()],
        time_error_norms_bits: vec![],
        phi_error_norms_bits: vec![],
        total_error_norms_bits: vec![],
        maximum_krylov_dimensions: vec![6, 6, 6],
        phi_substeps: vec![1, 1, 1],
        early_flow_defect_attempts: attempts,
    }
}

fn read_only_attempts() -> Vec<EarlyFlowDefectAttemptRecord> {
    vec![
        attempt(AdaptiveEarlyFlowDefectOutcome::RejectedErrorControl, 1.0, Some(3.0)),
        attempt(AdaptiveEarlyFlowDefectOutcome::Accepted, 0.5, Some(0.4)),
        attempt(AdaptiveEarlyFlowDefectOutcome::Accepted, 0.25, None),
    ]
}

#[test]
fn profile_tables_and_pair_order() {
    assert_eq!(G4S5B3Profile::Smoke.as_str(), "smoke");
    assert_eq!(G4S5B3Profile::Canonical.as_str(), "canonical");
    assert_eq!(G4S5B3Profile::Smoke.g3_profile(), G3FusedAdaptiveProfile::Smoke);
    assert_eq!(G4S5B3Profile::Canonical.g3_profile(), G3FusedAdaptiveProfile::Canonical);
    assert_eq!(G4S5B3Profile::Smoke.expected_trajectories(), 3);
    assert_eq!(G4S5B3Profile::Canonical.expected_trajectories(), 12);
    assert_eq!(
        G4S5B3Profile::Canonical.overhead_protocol(),
        OverheadProtocol {
            warmup_pairs: 1,
            measured_pairs: 7,
            minimum_wall_nanos: 250_000_000,
            maximum_repetitions: 1024,
        }
    );
    assert_eq!(G4S5B3Profile::Smoke.overhead_protocol().maximum_repetitions, 1);
    assert_eq!(SuiteTelemetryMode::Disabled.label(), "disabled");
    assert_eq!(SuiteTelemetryMode::RawReadOnly.label(), "read-only");
    assert_eq!(SuiteTelemetryMode::ToleranceScaledReadOnly.label(), "tolerance-scaled-read-only");
    assert_eq!(overhead_pair_order(0), "disabled-first");
    assert_eq!(overhead_pair_order(1), "read-only-first");
    assert_eq!(overhead_pair_order(6), "disabled-first");
}

#[test]
fn diagnostic_work_sums_fieldwise_with_saturation() {
    let total = sum_diagnostic_work(&[Some(cheap_work(2)), None, Some(cheap_work(5))]);
    assert_eq!(total.conceptual_vector_differences, 2);
    assert_eq!(total.l2_norm_evaluations, 7);
    assert_eq!(total.added_rhs_calls, 0);
    assert!(diagnostic_expensive_work_zero(total));
    let saturated = sum_diagnostic_work(&[Some(cheap_work(u64::MAX)), Some(cheap_work(1))]);
    assert_eq!(saturated.l2_norm_evaluations, u64::MAX);
    assert_eq!(sum_diagnostic_work(&[]), EarlyFlowDefectDiagnosticWork::default());
    let mut expensive = cheap_work(1);
    expensive.added_jvp_vectors = 4;
    let total = sum_diagnostic_work(&[Some(cheap_work(1)), Some(expensive)]);
    assert!(!diagnostic_expensive_work_zero(total));
}

#[test]
fn identical_runs_pass_every_trajectory_gate() {
    let disabled = run(vec![]);
    let read_only = run(read_only_attempts());
    let checks = compare_trajectory(&disabled, &read_only, true, true);
    assert!(checks.success);
    assert!(checks.requested_outputs_bitwise_identical);
    assert!(checks.controller_histories_bitwise_identical);
    assert!(checks.accepted_rejected_sequences_identical);
    assert!(checks.existing_work_counters_identical);
    assert!(checks.per_trial_work_complete);
    assert!(checks.per_trial_work_matches_aggregate);
    assert_eq!(checks.unscorable_attempts, 0);
    assert_eq!(checks.legacy_unclassified_attempts, 0);
    assert_eq!(checks.finite_eta_attempts, 2);
    assert_eq!(checks.null_eta_attempts, 1);
    assert_eq!(checks.degenerate_attempts, 0);
    assert_eq!(checks.diagnostic_work.l2_norm_evaluations, 6);
    assert!(checks.diagnostic_expensive_work_zero);
    assert!(checks.complete_attempt_coverage);
    assert!(checks.all_required_gates_pass);
    let unmatched = compare_trajectory(&disabled, &read_only, true, false);
    assert!(!unmatched.all_required_gates_pass);
    let unsummed = compare_trajectory(&disabled, &read_only, false, true);
    assert!(!unsummed.per_trial_work_matches_aggregate);
    assert!(!unsummed.all_required_gates_pass);
}

#[test]
fn perturbed_runs_fail_the_matching_gate() {
    let disabled = run(vec![]);
    let mut attempts = read_only_attempts();
    attempts[0].outcome = AdaptiveEarlyFlowDefectOutcome::TrialFailureUnscorable;
    attempts[2].telemetry = None;
    let read_only = run(attempts);
    let checks = compare_trajectory(&disabled, &read_only, true, true);
    assert_eq!(checks.unscorable_attempts, 1);
    assert!(!checks.accepted_rejected_sequences_identical);
    assert!(!checks.complete_attempt_coverage);
    assert!(!checks.all_required_gates_pass);

    let mut moved = run(read_only_attempts());
    moved.output_states_bits[1][0] = 0.25_f64.to_bits();
    let checks = compare_trajectory(&disabled, &moved, true, true);
    assert!(!checks.requested_outputs_bitwise_identical);
    assert!(checks.controller_histories_bitwise_identical);
    let mut counted = run(read_only_attempts());
    counted.counters[2] = 1;
    assert!(!compare_trajectory(&disabled, &counted, true, true).existing_work_counters_identical);
}

#[test]
fn hard_gate_summary_needs_expected_count_and_all_gates() {
    let checks = compare_trajectory(&run(vec![]), &run(read_only_attempts()), true, true);
    let summary = hard_gate_summary(G4S5B3Profile::Smoke, &[checks, checks, checks]);
    assert_eq!(summary.expected_trajectories, 3);
    assert_eq!(summary.observed_trajectories, 3);
    assert!(summary.passed);
    let short = hard_gate_summary(G4S5B3Profile::Smoke, &[checks, checks]);
    assert!(short.all_trajectories_successful);
    assert!(!short.passed);
    let mut failing = checks;
    failing.legacy_unclassified_attempts = 1;
    let summary = hard_gate_summary(G4S5B3Profile::Smoke, &[checks, failing, checks]);
    assert!(!summary.no_legacy_unclassified_attempts);
    assert!(summary.no_unscorable_attempts);
    assert!(!summary.passed);
    assert_eq!(hard_gate_summary(G4S5B3Profile::Canonical, &[]).expected_trajectories, 12);
}

fn suite_row(defect: f64) -> SuiteTrajectoryRecord {
    SuiteTrajectoryRecord {
        case_index: 0,
        output_times_bits: vec![1.0_f64.to_bits()],
        output_states_bits: vec![vec![2.0_f64.to_bits()]],
        success: true,
        message: "ok".to_owned(),
        counters: vec![1, 2],
        internal_steps: 1,
        output_clipped_steps: 0,
        attempts: 1,
        accepted_steps: 1,
        rejected_steps: 0,
        accepted_step_sizes_bits: vec![1.0_f64.to_bits()],
        rejected_step_sizes_bits: vec![],
        time_error_norms_bits: vec![],
        phi_error_norms_bits: vec![],
        total_error_norms_bits: vec![],
        maximum_krylov_dimensions: vec![4],
        phi_substeps: vec![1],
        early_flow_defect_attempts: vec![vec![
            RecordField::Text("accepted".to_owned()),
            RecordField::Float(defect.to_bits()),
            RecordField::Word(3),
            RecordField::Absent,
        ]],
    }
}

#[test]
fn suites_compare_outputs_by_bits_and_records_by_ieee_equality() {
    assert!(same_f64_bits(&[1, 2], &[1, 2]));
    assert!(!same_f64_bits(&[1, 2], &[1]));
    assert!(same_nested_f64_bits(&vec![vec![1], vec![]], &vec![vec![1], vec![]]));
    assert!(!same_nested_f64_bits(&vec![vec![1]], &vec![vec![2]]));
    assert!(suites_numerically_identical(&[suite_row(0.5)], &[suite_row(0.5)]));
    assert!(suites_numerically_identical(&[suite_row(0.0)], &[suite_row(-0.0)]));
    assert!(!suites_numerically_identical(&[suite_row(f64::NAN)], &[suite_row(f64::NAN)]));
    assert!(!suites_numerically_identical(&[suite_row(0.5)], &[]));
    let mut other = suite_row(0.5);
    other.output_states_bits[0][0] = (-2.0_f64).to_bits();
    assert!(!suites_numerically_identical(&[suite_row(0.5)], &[other]));
}
