use rodas5p_integrators::g4_s5b0_records::{
    G4S5B0AttemptTraceRecord, G4S5B0RjfAttemptRecord, G4S5B0StepRecord, G4S5B0TrajectoryRecord,
    accepted_row_exact_excluding_wall, attempt_row_exact_excluding_wall, opt_string_equal,
    trajectory_exact,
};
use rodas5p_integrators::g4_s5b0_trace_authority::{
    g4_s5b0_rjf_trace_digest, push_bool, push_option_str, push_option_u64, push_option_usize,
    push_str, push_u64, push_usize, rjf_trace_digest_bytes, to_hex_lower,
};
use sha2::Digest;

fn attempt(h: f64, wall: f64) -> G4S5B0RjfAttemptRecord {
    G4S5B0RjfAttemptRecord {
        trajectory_id: "stiff-decay-32".to_owned(),
        family: "stiff-decay".to_owned(),
        dimension: 32,
        rtol_bits: 1.0e-6_f64.to_bits(),
        attempt_index: 0,
        accepted_steps_before: 0,
        t_start_bits: 0.0_f64.to_bits(),
        h_bits: h.to_bits(),
        error_norm_bits: Some(0.5_f64.to_bits()),
        accepted: true,
        recoverable_failure: false,
        failure: None,
        wall_seconds_bits: wall.to_bits(),
        rhs_evaluations: 7,
        jvp_vectors: 12,
        linear_matvecs: 30,
    }
}

fn step(wall: f64) -> G4S5B0StepRecord {
    G4S5B0StepRecord {
        trajectory_id: "stiff-decay-32".to_owned(),
        family: "stiff-decay".to_owned(),
        dimension: 32,
        rtol_bits: 1.0e-6_f64.to_bits(),
        step_index: 0,
        t_start_bits: 0.0_f64.to_bits(),
        h_bits: 1.0e-3_f64.to_bits(),
        transition_level_bits: 0.25_f64.to_bits(),
        rodas_embedded_error_bits: 0.5_f64.to_bits(),
        rodas_wall_seconds_bits: wall.to_bits(),
        rodas_rhs_evaluations: 7,
        rodas_jvp_vectors: 12,
        rodas_linear_matvecs: 30,
        exponential_completed: true,
        exponential_total_error_bits: Some(0.125_f64.to_bits()),
        exponential_locally_admissible: true,
        exponential_wall_seconds_bits: Some(wall.to_bits()),
        exponential_prefix_wall_seconds_bits: Some((wall / 2.0).to_bits()),
        exponential_rhs_evaluations: Some(3),
        exponential_jvp_vectors: Some(9),
        exponential_maximum_krylov_dimension: Some(8),
        exponential_phi_substeps: Some(1),
        exponential_failure: None,
    }
}

fn trajectory() -> G4S5B0TrajectoryRecord {
    G4S5B0TrajectoryRecord {
        trajectory_id: "stiff-decay-32".to_owned(),
        family: "stiff-decay".to_owned(),
        dimension: 32,
        rtol_bits: 1.0e-6_f64.to_bits(),
        success: true,
        failure: None,
        attempts: 1,
        accepted_steps: 1,
        rejected_steps: 0,
        endpoint_time_bits: 1.0e-3_f64.to_bits(),
        explicit_jacobian_builds: 0,
        direct_factorizations: 0,
        newton_iterations: 0,
    }
}

fn report(h: f64, wall: f64) -> G4S5B0AttemptTraceRecord {
    G4S5B0AttemptTraceRecord {
        schema: "schema".to_owned(),
        status: "complete".to_owned(),
        profile: "smoke".to_owned(),
        switching_active: false,
        committed_method: "rodas5p-rjf".to_owned(),
        attempt_rows: vec![attempt(h, wall)],
        accepted_rows: vec![step(wall)],
        trajectories: vec![trajectory()],
    }
}

fn text(out: &mut Vec<u8>, value: &str) {
    out.extend_from_slice(&(value.len() as u64).to_be_bytes());
    out.extend_from_slice(value.as_bytes());
}

#[test]
fn primitive_encodings_are_big_endian_and_length_prefixed() {
    let mut bytes = Vec::new();
    push_bool(&mut bytes, true);
    push_bool(&mut bytes, false);
    push_u64(&mut bytes, 0x0102_0304_0506_0708);
    push_usize(&mut bytes, 258);
    push_str(&mut bytes, "ab");
    push_option_u64(&mut bytes, None);
    push_option_u64(&mut bytes, Some(1));
    push_option_usize(&mut bytes, Some(2));
    push_option_str(&mut bytes, Some("é"));
    push_option_str(&mut bytes, None);
    assert_eq!(
        bytes,
        vec![
            1, 0, 1, 2, 3, 4, 5, 6, 7, 8, 0, 0, 0, 0, 0, 0, 1, 2, 0, 0, 0, 0, 0, 0, 0, 2, b'a',
            b'b', 0, 1, 0, 0, 0, 0, 0, 0, 0, 1, 1, 0, 0, 0, 0, 0, 0, 0, 2, 1, 0, 0, 0, 0, 0, 0,
            0, 2, 0xc3, 0xa9, 0,
        ]
    );
}

#[test]
fn empty_trace_encoding_is_header_and_three_zero_counts() {
    let empty = G4S5B0AttemptTraceRecord {
        schema: "s".to_owned(),
        status: "ok".to_owned(),
        profile: "smoke".to_owned(),
        switching_active: true,
        committed_method: "m".to_owned(),
        attempt_rows: vec![],
        accepted_rows: vec![],
        trajectories: vec![],
    };
    let mut expected = Vec::new();
    text(&mut expected, "g4-s5b0-rjf-trace-digest-v1");
    text(&mut expected, "s");
    text(&mut expected, "ok");
    text(&mut expected, "smoke");
    expected.push(1);
    text(&mut expected, "m");
    for _ in 0..3 {
        expected.extend_from_slice(&0u64.to_be_bytes());
    }
    let bytes = rjf_trace_digest_bytes(&empty);
    assert_eq!(bytes, expected);
    let digest = g4_s5b0_rjf_trace_digest(&empty);
    let hash = sha2::Sha256::digest(&expected);
    let hex: String = hash.iter().map(|byte| format!("{byte:02x}")).collect();
    assert_eq!(digest, hex);
}

#[test]
fn hex_text_is_lower_case_two_digits_per_byte() {
    assert_eq!(to_hex_lower(&[]), "");
    assert_eq!(to_hex_lower(&[0x00, 0x0f, 0xa5, 0xff]), "000fa5ff");
}

#[test]
fn digest_is_sha256_of_the_encoding_in_lower_hex() {
    let trace = report(1.0e-3, 0.01);
    let digest = g4_s5b0_rjf_trace_digest(&trace);
    assert_eq!(digest.len(), 64);
    assert!(digest.chars().all(|c| c.is_ascii_digit() || ('a'..='f').contains(&c)));
    let expected = sha2::Sha256::digest(rjf_trace_digest_bytes(&trace));
    assert_eq!(digest, to_hex_lower(&expected));
    assert_ne!(digest, to_hex_lower(&rjf_trace_digest_bytes(&trace)));
}

#[test]
fn digest_ignores_wall_clock_but_not_step_size() {
    let base = g4_s5b0_rjf_trace_digest(&report(1.0e-3, 0.01));
    assert_eq!(base, g4_s5b0_rjf_trace_digest(&report(1.0e-3, 7.5)));
    assert_ne!(base, g4_s5b0_rjf_trace_digest(&report(2.0e-3, 0.01)));
}

#[test]
fn parity_excludes_wall_clock_and_compares_floats_by_ieee_equality() {
    assert!(attempt_row_exact_excluding_wall(&attempt(1.0e-3, 0.01), &attempt(1.0e-3, 9.0)));
    assert!(!attempt_row_exact_excluding_wall(&attempt(1.0e-3, 0.01), &attempt(2.0e-3, 0.01)));
    assert!(!attempt_row_exact_excluding_wall(&attempt(f64::NAN, 0.01), &attempt(f64::NAN, 0.01)));
    let mut slower = step(0.01);
    slower.rodas_wall_seconds_bits = 3.0_f64.to_bits();
    assert!(accepted_row_exact_excluding_wall(&step(0.01), &slower));
    assert!(!accepted_row_exact_excluding_wall(&step(0.01), &step(3.0)));
    let mut changed = step(0.01);
    changed.exponential_phi_substeps = Some(2);
    assert!(!accepted_row_exact_excluding_wall(&step(0.01), &changed));
    assert!(trajectory_exact(&trajectory(), &trajectory()));
    let mut failed = trajectory();
    failed.failure = Some("nonfinite".to_owned());
    assert!(!trajectory_exact(&trajectory(), &failed));
    assert!(opt_string_equal(&None, &None));
    assert!(opt_string_equal(&Some("a".to_owned()), &Some("a".to_owned())));
    assert!(!opt_string_equal(&Some("a".to_owned()), &None));
}
