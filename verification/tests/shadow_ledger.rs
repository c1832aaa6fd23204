use rodas5p_integrators::g4_s5b0_records::{
    G4S5B0AttemptTraceRecord, G4S5B0RjfAttemptRecord, G4S5B0TrajectoryRecord,
};
use rodas5p_integrators::g4_s5b0_regime_atlas::{
    FrozenShadowLedgerRow, G4S5B0Family, ShadowWorkCounts, family_count,
    frozen_family_set_is_exact, frozen_full_e_shadow_hard_gates, frozen_full_e_shadow_recommended,
    frozen_shadow_expensive_work_zero, frozen_shadow_row_ledger_exact, rjf_parity,
    summarize_frozen_shadow_ledger,
};

fn work(jvp: u64) -> ShadowWorkCounts {
    ShadowWorkCounts {
        jacobian_builds: 0,
        direct_factorizations: 0,
        nonlinear_solves: 0,
        nonlinear_iterations: 0,
        nonlinear_residual_evaluations: 0,
        nonlinear_jacobian_evaluations: 0,
        jvp_vectors: jvp,
    }
}

fn recommended_row() -> FrozenShadowLedgerRow {
    FrozenShadowLedgerRow {
        committed_rjf_jvp_before_target: 400,
        prefix_speculative_jvp_before_target: 10,
        prefix_speculative_jvp_after_target: 15,
        total_speculative_jvp_before_target: 20,
        total_speculative_jvp_after_target: 32,
        budget_cap_jvp: 80,
        budget_admitted: true,
        budget_exhausted: false,
        budget_breached: false,
        prefix_succeeded: true,
        recommended: true,
        retained_level2_resumed: true,
        shadow_full_e_completed: true,
        shadow_full_e_locally_admissible: true,
        work_roundtrip_exact: true,
        prefix_work: Some(work(5)),
        continuation_work: Some(work(7)),
        shadow_full_e_work: Some(work(3)),
    }
}

fn abstaining_row() -> FrozenShadowLedgerRow {
    FrozenShadowLedgerRow {
        committed_rjf_jvp_before_target: 100,
        prefix_speculative_jvp_before_target: 20,
        prefix_speculative_jvp_after_target: 20,
        total_speculative_jvp_before_target: 40,
        total_speculative_jvp_after_target: 40,
        budget_cap_jvp: 5,
        budget_admitted: true,
        budget_exhausted: true,
        budget_breached: false,
        prefix_succeeded: false,
        recommended: false,
        retained_level2_resumed: false,
        shadow_full_e_completed: false,
        shadow_full_e_locally_admissible: false,
        work_roundtrip_exact: true,
        prefix_work: None,
        continuation_work: None,
        shadow_full_e_work: None,
    }
}

fn trajectory(family: &str) -> G4S5B0TrajectoryRecord {
    G4S5B0TrajectoryRecord {
        trajectory_id: format!("{family}-8"),
        family: family.to_owned(),
        dimension: 8,
        rtol_bits: 1.0e-6_f64.to_bits(),
        success: true,
        failure: None,
        attempts: 3,
        accepted_steps: 2,
        rejected_steps: 1,
        endpoint_time_bits: 1.0_f64.to_bits(),
        explicit_jacobian_builds: 0,
        direct_factorizations: 0,
        newton_iterations: 0,
    }
}

fn attempt(index: usize) -> G4S5B0RjfAttemptRecord {
    G4S5B0RjfAttemptRecord {
        trajectory_id: "hires-ramped-8".to_owned(),
        family: "hires-ramped".to_owned(),
        dimension: 8,
        rtol_bits: 1.0e-6_f64.to_bits(),
        attempt_index: index,
        accepted_steps_before: index,
        t_start_bits: 0.0_f64.to_bits(),
        h_bits: 1.0e-2_f64.to_bits(),
        error_norm_bits: None,
        accepted: true,
        recoverable_failure: false,
        failure: None,
        wall_seconds_bits: 0.5_f64.to_bits(),
        rhs_evaluations: 6,
        jvp_vectors: 6,
        linear_matvecs: 6,
    }
}

#[test]
fn row_ledgers_check_counters_cap_and_endpoint_work() {
    assert!(frozen_shadow_row_ledger_exact(&recommended_row()));
    assert!(frozen_shadow_row_ledger_exact(&abstaining_row()));
    let mut wrong_cap = recommended_row();
    wrong_cap.budget_cap_jvp = 79;
    assert!(!frozen_shadow_row_ledger_exact(&wrong_cap));
    let mut wrong_total = recommended_row();
    wrong_total.total_speculative_jvp_after_target = 31;
    assert!(!frozen_shadow_row_ledger_exact(&wrong_total));
    let mut missing_endpoint = recommended_row();
    missing_endpoint.shadow_full_e_work = None;
    assert!(!frozen_shadow_row_ledger_exact(&missing_endpoint));
    let mut saturated = abstaining_row();
    saturated.prefix_speculative_jvp_before_target = u64::MAX;
    saturated.prefix_speculative_jvp_after_target = u64::MAX;
    saturated.prefix_work = Some(work(5));
    saturated.total_speculative_jvp_after_target = 45;
    saturated.budget_cap_jvp = 0;
    assert!(frozen_shadow_row_ledger_exact(&saturated));
}

#[test]
fn expensive_work_is_jacobian_factorization_and_nonlinear_work() {
    assert!(frozen_shadow_expensive_work_zero(work(1000)));
    let mut factorized = work(0);
    factorized.direct_factorizations = 1;
    assert!(!frozen_shadow_expensive_work_zero(factorized));
}

#[test]
fn ledger_summary_counts_events() {
    let mut unsafe_row = recommended_row();
    unsafe_row.shadow_full_e_locally_admissible = false;
    let mut failed_row = recommended_row();
    failed_row.shadow_full_e_completed = false;
    let mut breached = abstaining_row();
    breached.budget_breached = true;
    let rows = vec![recommended_row(), abstaining_row(), unsafe_row, failed_row, breached];
    let summary = summarize_frozen_shadow_ledger(&rows);
    assert_eq!(summary.recommendations, 3);
    assert_eq!(summary.retained_level2_resumptions, 3);
    assert_eq!(summary.shadow_full_e_completions, 2);
    assert_eq!(summary.shadow_full_e_failures, 1);
    assert_eq!(summary.unsafe_recommendations, 1);
    assert_eq!(summary.budget_breaches, 1);
    assert_eq!(summary.budget_exhaustions, 2);
    assert!(summary.prefix_transactions_resolved);
    assert!(summary.row_ledgers_exact);
    assert!(summary.resume_cardinality_exact);
    assert!(summary.shadow_implicit_expensive_work_zero);

    let mut unresolved = abstaining_row();
    unresolved.budget_exhausted = false;
    let mut orphan_resume = abstaining_row();
    orphan_resume.retained_level2_resumed = true;
    let summary = summarize_frozen_shadow_ledger(&[unresolved, orphan_resume]);
    assert!(!summary.prefix_transactions_resolved);
    assert!(!summary.resume_cardinality_exact);
    assert!(!summary.row_ledgers_exact);
    let empty = summarize_frozen_shadow_ledger(&[]);
    assert_eq!(empty.recommendations, 0);
    assert!(empty.resume_cardinality_exact);
}

#[test]
fn hard_gates_pass_only_when_every_gate_holds() {
    let reference = G4S5B0AttemptTraceRecord {
        schema: "schema".to_owned(),
        status: "complete".to_owned(),
        profile: "smoke".to_owned(),
        switching_active: false,
        committed_method: "rodas5p-rjf".to_owned(),
        attempt_rows: vec![attempt(0), attempt(1)],
        accepted_rows: vec![],
        trajectories: vec![trajectory("hires-ramped")],
    };
    let mut rerun = vec![attempt(0), attempt(1)];
    rerun[1].wall_seconds_bits = 9.0_f64.to_bits();
    let parity = rjf_parity(&rerun, &[], &[trajectory("hires-ramped")], &reference);
    assert!(parity.attempt_rows_exact_excluding_wall);
    assert!(parity.accepted_rows_exact_excluding_wall);
    assert!(parity.trajectories_exact);
    assert!(parity.passed);
    let short = rjf_parity(&rerun[..1], &[], &[trajectory("hires-ramped")], &reference);
    assert!(!short.attempt_rows_exact_excluding_wall);
    assert!(!short.passed);

    let ledger = summarize_frozen_shadow_ledger(&[recommended_row(), abstaining_row()]);
    let gates = frozen_full_e_shadow_hard_gates(true, &parity, &ledger, true);
    assert!(gates.active_switching_false);
    assert!(gates.passed);
    let gates = frozen_full_e_shadow_hard_gates(true, &parity, &ledger, false);
    assert!(!gates.realized_work_ratios_finite);
    assert!(!gates.passed);
    let gates = frozen_full_e_shadow_hard_gates(true, &short, &ledger, true);
    assert!(!gates.rjf_trace_exact_excluding_wall);
    assert!(!gates.passed);
}

#[test]
fn recommendation_needs_success_budget_and_bounded_drift() {
    assert!(frozen_full_e_shadow_recommended(true, false, false, true));
    assert!(!frozen_full_e_shadow_recommended(false, false, false, true));
    assert!(!frozen_full_e_shadow_recommended(true, true, false, true));
    assert!(!frozen_full_e_shadow_recommended(true, false, true, true));
    assert!(!frozen_full_e_shadow_recommended(true, false, false, false));
}

#[test]
fn family_set_must_be_exactly_the_six_atlas_families() {
    let all: Vec<G4S5B0TrajectoryRecord> = G4S5B0Family::ALL
        .iter()
        .flat_map(|family| vec![trajectory(family.as_str()), trajectory(family.as_str())])
        .collect();
    assert_eq!(family_count(&all), 6);
    assert!(frozen_family_set_is_exact(&all));
    assert!(!frozen_family_set_is_exact(&all[2..]));
    assert_eq!(family_count(&all[2..]), 5);
    let mut extra = all.clone();
    extra.push(trajectory("lorenz"));
    assert_eq!(family_count(&extra), 7);
    assert!(!frozen_family_set_is_exact(&extra));
    assert_eq!(family_count(&[]), 0);
}
