use rodas5p_integrators::g4_s5b0_regime_atlas::{
    CalibrationStep, G4S5B0Family, G4S5B0PrefixProbePolicy, G4S5B0Profile, PrefixPolicyState,
    ShadowWallMode, calibration_step, enforced_prefix_jvp_cap, frozen_k1_decision,
    measurement_build_verified, next_calibration_repetitions, pair_runs_rjf_first,
    production_shadow_wall_protocol, shadow_wall_pair_order, v36_profile_is_consumed,
};

#[test]
fn production_shadow_wall_protocol_is_frozen_and_alternating() {
    let protocol = production_shadow_wall_protocol();
    assert_eq!(protocol.warmup_pairs, 1);
    assert_eq!(protocol.measured_pairs, 7);
    assert_eq!(
        (protocol.minimum_wall_nanos as f64 / 1.0e9).to_bits(),
        0.25_f64.to_bits()
    );
    assert_eq!(protocol.maximum_repetitions, 1024);
    assert_eq!(
        (0..protocol.measured_pairs)
            .map(pair_runs_rjf_first)
            .collect::<Vec<_>>(),
        vec![true, false, true, false, true, false, true],
    );
    assert_eq!(next_calibration_repetitions(1, 1024), 2);
    assert_eq!(next_calibration_repetitions(512, 1024), 1024);
    assert_eq!(next_calibration_repetitions(1024, 1024), 1024);
}

#[test]
fn calibration_doubles_until_wall_or_cap() {
    assert_eq!(calibration_step(250_000_000, 1024, 1, 10), CalibrationStep::Repeat(2));
    assert_eq!(calibration_step(250_000_000, 1024, 64, 300_000_000), CalibrationStep::Freeze(64));
    assert_eq!(calibration_step(250_000_000, 1024, 1024, 10), CalibrationStep::Freeze(1024));
    assert_eq!(calibration_step(250_000_000, 1000, 512, 10), CalibrationStep::Repeat(1000));
    assert_eq!(next_calibration_repetitions(usize::MAX, usize::MAX), usize::MAX);
    let mut repetitions = 1;
    let mut rounds = 0;
    loop {
        match calibration_step(250_000_000, 1024, repetitions, 0) {
            CalibrationStep::Repeat(next) => repetitions = next,
            CalibrationStep::Freeze(frozen) => {
                assert_eq!(frozen, 1024);
                break;
            }
        }
        rounds += 1;
    }
    assert_eq!(rounds, 10);
}

#[test]
fn pair_order_labels_alternate() {
    assert_eq!(shadow_wall_pair_order(0), "rjf-first");
    assert_eq!(shadow_wall_pair_order(1), "shadow-first");
    assert_eq!(ShadowWallMode::RjfOnly.label(), "rjf-only");
    assert_eq!(ShadowWallMode::FrozenFullE.label(), "frozen-full-e-shadow");
}

#[test]
fn measurement_profile_detection() {
    assert!(measurement_build_verified("measurement"));
    assert!(!measurement_build_verified("release"));
    assert!(!measurement_build_verified(""));
}

#[test]
fn enforced_prefix_cap_is_min_of_reserve_and_remaining_quarter() {
    assert_eq!(enforced_prefix_jvp_cap(1000, 0), 80);
    assert_eq!(enforced_prefix_jvp_cap(1000, 200), 50);
    assert_eq!(enforced_prefix_jvp_cap(1000, 250), 0);
    assert_eq!(enforced_prefix_jvp_cap(1000, 400), 0);
    assert_eq!(enforced_prefix_jvp_cap(3, 0), 0);
    assert_eq!(enforced_prefix_jvp_cap(u64::MAX, 0), 80);
}

#[test]
fn frozen_k1_table_fires_on_registered_steps_only() {
    assert!(frozen_k1_decision("hires-ramped", 128, 8));
    assert!(frozen_k1_decision("hires-ramped", 512, 13));
    assert!(!frozen_k1_decision("hires-ramped", 128, 9));
    assert!(frozen_k1_decision("nonautonomous-stiff-forcing", 128, 32));
    assert!(!frozen_k1_decision("nonautonomous-stiff-forcing", 512, 32));
    assert!(frozen_k1_decision("nonautonomous-stiff-forcing", 512, 33));
    assert!(frozen_k1_decision("semilinear-advection-diffusion-ramped", 512, 27));
    assert!(!frozen_k1_decision("semilinear-advection-diffusion-ramped", 128, 27));
    assert!(!frozen_k1_decision("hires-ramped", 256, 8));
    assert!(!frozen_k1_decision("unknown", 128, 8));
}

#[test]
fn k3_policy_fires_on_third_consecutive_signal() {
    let mut state = PrefixPolicyState::new(G4S5B0PrefixProbePolicy::K3Development).unwrap();
    let signals = [true, true, true, true, false, true, true, true];
    let fired: Vec<bool> = signals
        .iter()
        .enumerate()
        .map(|(step, &signal)| state.observe_accepted("hires-ramped", 128, step, signal))
        .collect();
    assert_eq!(fired, vec![false, false, true, false, false, false, false, true]);

    let mut frozen = PrefixPolicyState::new(G4S5B0PrefixProbePolicy::FrozenK1Comparator).unwrap();
    assert!(frozen.observe_accepted("robertson-ramped", 128, 5, false));
    assert!(!frozen.observe_accepted("robertson-ramped", 128, 6, true));
}

#[test]
fn profile_tables() {
    assert_eq!(G4S5B0Profile::Canonical.dimensions(), vec![128, 512]);
    assert_eq!(G4S5B0Profile::Smoke.dimensions(), vec![32]);
    assert_eq!(G4S5B0Profile::StageGrowthHoldout384.as_str(), "stage-growth-holdout-384");
    assert!(G4S5B0Profile::Holdout512.uses_canonical_tolerances());
    assert!(!G4S5B0Profile::Smoke.uses_canonical_tolerances());
    assert!(v36_profile_is_consumed(G4S5B0Profile::EnforcedBudgetHoldout320));
    assert!(!v36_profile_is_consumed(G4S5B0Profile::Canonical));
    assert_eq!(G4S5B0Family::ALL.len(), 6);
    assert_eq!(
        G4S5B0Family::SemilinearAdvectionDiffusionRamped.as_str(),
        "semilinear-advection-diffusion-ramped"
    );
    assert_eq!(G4S5B0PrefixProbePolicy::K3Development.as_str(), "k3-development");
}
