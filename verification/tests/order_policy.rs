use rodas5p_integrators::error::CoreError;
use rodas5p_integrators::homotopy::HomotopyPredictor;
use rodas5p_integrators::homotopy_order_policy::{
    PolicyReplayRecord, PolicySplitCounts, TrajectoryPathKey, execution_metadata,
    holdout_false_accepts, policy_split_counts, stable_case_split, trajectory_gate, winner_key,
};
use rodas5p_integrators::parallel::{ParallelExecution, rayon_thread_name};

fn row(policy: &str, split: &str, theta: f64, accepted: bool, false_accept: bool) -> PolicyReplayRecord {
    PolicyReplayRecord {
        policy_id: policy.to_owned(),
        split: split.to_owned(),
        theta_bits: theta.to_bits(),
        q: 2,
        path_rounds: 4,
        predictor: HomotopyPredictor::Euler,
        corrections_per_point: 1,
        evaluable: true,
        accepted,
        false_accept,
        low_depth: accepted,
        failed: !accepted,
    }
}

#[test]
fn case_split_is_the_parity_of_the_fnv1a_hash() {
    assert_eq!(stable_case_split(""), "holdout");
    assert_eq!(stable_case_split("a"), "calibration");
    assert_eq!(stable_case_split("b"), "holdout");
    assert_eq!(stable_case_split("foobar"), "calibration");
    assert_eq!(stable_case_split("case-0"), "calibration");
    assert_eq!(stable_case_split("case-1"), "holdout");
    assert_eq!(stable_case_split("case-1"), stable_case_split("case-1"));
}

#[test]
fn split_counts_select_by_policy_and_split() {
    let rows = vec![
        row("p", "calibration", 0.5, true, false),
        row("p", "calibration", 0.5, false, false),
        row("p", "holdout", 0.5, true, true),
        row("q", "calibration", 0.5, true, false),
    ];
    let counts = policy_split_counts(&"p".to_owned(), "calibration", &rows);
    assert_eq!(
        counts,
        PolicySplitCounts {
            rows: 2,
            evaluable_rows: 2,
            accepts: 1,
            low_depth_accepts: 1,
            false_accepts: 0,
            failures: 1,
        }
    );
    let holdout = policy_split_counts(&"p".to_owned(), "holdout", &rows);
    assert_eq!(holdout.rows, 1);
    assert_eq!(holdout.false_accepts, 1);
    assert_eq!(policy_split_counts(&"r".to_owned(), "holdout", &rows).rows, 0);
}

#[test]
fn winner_key_orders_false_accepts_then_depth_then_accepts_then_batches() {
    let counts = PolicySplitCounts {
        rows: 4,
        evaluable_rows: 4,
        accepts: 3,
        low_depth_accepts: 2,
        false_accepts: 1,
        failures: 0,
    };
    let key = winner_key(&counts, Some(12.5_f64.to_bits()), &"p".to_owned());
    assert_eq!(key, (1, usize::MAX - 2, usize::MAX - 3, 12.5_f64.to_bits(), "p".to_owned()));
    assert_eq!(winner_key(&counts, None, &"p".to_owned()).3, u64::MAX);
    assert_eq!(winner_key(&counts, Some(f64::INFINITY.to_bits()), &"p".to_owned()).3, u64::MAX);
    assert_eq!(winner_key(&counts, Some((-1.0_f64).to_bits()), &"p".to_owned()).3, u64::MAX);
    assert_eq!(winner_key(&counts, Some((-0.0_f64).to_bits()), &"p".to_owned()).3, (-0.0_f64).to_bits());
    let better = PolicySplitCounts { false_accepts: 0, ..counts };
    assert!(winner_key(&better, None, &"z".to_owned()) < key);
}

#[test]
fn holdout_false_accepts_match_the_representative_path() {
    let rows = vec![
        row("p", "holdout", 0.5, true, true),
        row("p", "holdout", 0.25, true, true),
        row("p", "calibration", 0.5, true, true),
        row("q", "holdout", 0.5, true, true),
        row("p", "holdout", 0.5, true, false),
    ];
    let path = TrajectoryPathKey {
        theta_bits: Some(0.5_f64.to_bits()),
        q: Some(2),
        path_rounds: Some(4),
        predictor: Some(HomotopyPredictor::Euler),
        corrections_per_point: Some(1),
    };
    let id = "p".to_owned();
    assert_eq!(holdout_false_accepts(Some(&id), Some(path), &rows), 1);
    assert_eq!(holdout_false_accepts(None, Some(path), &rows), 0);
    assert_eq!(holdout_false_accepts(Some(&id), None, &rows), 0);
    let other = TrajectoryPathKey { predictor: Some(HomotopyPredictor::AdamsBashforth2), ..path };
    assert_eq!(holdout_false_accepts(Some(&id), Some(other), &rows), 0);
}

#[test]
fn trajectory_gate_promotes_only_clean_groups() {
    let gate = trajectory_gate(
        "manufactured-vector-order".to_owned(),
        "homotopy".to_owned(),
        Some("p".to_owned()),
        true,
        false,
        true,
        0,
    );
    assert!(gate.fifth_order_applicable);
    assert!(!gate.stiff_regression_applicable);
    assert!(gate.stiff_regression_pass);
    assert!(gate.promote);
    let failed_order = trajectory_gate(
        "manufactured-vector-order".to_owned(),
        "homotopy".to_owned(),
        None,
        false,
        true,
        true,
        0,
    );
    assert!(!failed_order.fifth_order_pass);
    assert!(!failed_order.promote);
    let control = trajectory_gate(
        "robertson".to_owned(),
        "sequential-direct".to_owned(),
        None,
        false,
        false,
        false,
        0,
    );
    assert!(control.stiff_regression_applicable);
    assert!(control.stiff_regression_pass);
    assert!(control.promote);
    let leaky = trajectory_gate("robertson".to_owned(), "homotopy".to_owned(), None, true, true, true, 2);
    assert_eq!(leaky.holdout_false_accepts, 2);
    assert!(!leaky.promote);
    let shallow = trajectory_gate("robertson".to_owned(), "homotopy".to_owned(), None, true, true, false, 0);
    assert!(!shallow.promote);
}

#[test]
fn execution_contexts_and_thread_names() {
    assert_eq!(rayon_thread_name(0), "rodas5p-rayon-0");
    assert_eq!(rayon_thread_name(12), "rodas5p-rayon-12");
    assert_eq!(rayon_thread_name(907), "rodas5p-rayon-907");
    let sequential = ParallelExecution::sequential();
    assert_eq!(sequential.threads(), 1);
    assert_eq!(sequential.backend(), "sequential");
    assert!(sequential.pool().is_none());
    assert!(matches!(
        ParallelExecution::rayon(0),
        Err(CoreError::InvalidInput(message)) if message == "Rayon thread count must be positive"
    ));
    let single = ParallelExecution::rayon(1).expect("one thread runs sequentially");
    assert_eq!(single.backend(), "sequential");
    let pooled = ParallelExecution::rayon(2).expect("local pool");
    assert_eq!(pooled.threads(), 2);
    assert_eq!(pooled.backend(), "rayon-local");
    let pool = pooled.pool().expect("pool present");
    assert_eq!(pool.current_num_threads(), 2);
    let metadata = execution_metadata(&pooled);
    assert_eq!(metadata.backend, "rayon-local");
    assert_eq!(metadata.threads, 2);
    assert_eq!(execution_metadata(&sequential).backend, "sequential");
}

#[test]
fn ordered_batches_need_matching_lengths() {
    assert_eq!(ParallelExecution::validate_ordered_batch(3, 3), Ok(()));
    assert_eq!(
        ParallelExecution::validate_ordered_batch(3, 2),
        Err(CoreError::Dimension("parallel input/output batch length mismatch".to_owned()))
    );
}
