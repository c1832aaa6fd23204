use vstd::prelude::*;

use crate::float_bits::{f64_bits_exact, f64_bits_identical, opt_f64_bits_exact, opt_f64_bits_identical};

verus! {

/// One R-JF trial attempt of a G4/S5B0 trajectory. Every floating-point
/// quantity is held as its IEEE-754 binary64 bit pattern.
#[derive(Clone, Debug)]
pub struct G4S5B0RjfAttemptRecord {
    pub trajectory_id: String,
    pub family: String,
    pub dimension: usize,
    pub rtol_bits: u64,
    pub attempt_index: usize,
    pub accepted_steps_before: usize,
    pub t_start_bits: u64,
    pub h_bits: u64,
    pub error_norm_bits: Option<u64>,
    pub accepted: bool,
    pub recoverable_failure: bool,
    pub failure: Option<String>,
    pub wall_seconds_bits: u64,
    pub rhs_evaluations: u64,
    pub jvp_vectors: u64,
    pub linear_matvecs: u64,
}

/// One accepted R-JF step with its read-only exponential shadow; floats are
/// held as IEEE-754 binary64 bit patterns.
#[derive(Clone, Debug)]
pub struct G4S5B0StepRecord {
    pub trajectory_id: String,
    pub family: String,
    pub dimension: usize,
    pub rtol_bits: u64,
    pub step_index: usize,
    pub t_start_bits: u64,
    pub h_bits: u64,
    pub transition_level_bits: u64,
    pub rodas_embedded_error_bits: u64,
    pub rodas_wall_seconds_bits: u64,
    pub rodas_rhs_evaluations: u64,
    pub rodas_jvp_vectors: u64,
    pub rodas_linear_matvecs: u64,
    pub exponential_completed: bool,
    pub exponential_total_error_bits: Option<u64>,
    pub exponential_locally_admissible: bool,
    pub exponential_wall_seconds_bits: Option<u64>,
    pub exponential_prefix_wall_seconds_bits: Option<u64>,
    pub exponential_rhs_evaluations: Option<u64>,
    pub exponential_jvp_vectors: Option<u64>,
    pub exponential_maximum_krylov_dimension: Option<usize>,
    pub exponential_phi_substeps: Option<usize>,
    pub exponential_failure: Option<String>,
}

/// Summary of one R-JF trajectory; floats are held as bit patterns.
#[derive(Clone, Debug)]
pub struct G4S5B0TrajectoryRecord {
    pub trajectory_id: String,
    pub family: String,
    pub dimension: usize,
    pub rtol_bits: u64,
    pub success: bool,
    pub failure: Option<String>,
    pub attempts: usize,
    pub accepted_steps: usize,
    pub rejected_steps: usize,
    pub endpoint_time_bits: u64,
    pub explicit_jacobian_builds: u64,
    pub direct_factorizations: u64,
    pub newton_iterations: u64,
}

/// The load-bearing content of an R-JF attempt-trace report.
#[derive(Clone, Debug)]
pub struct G4S5B0AttemptTraceRecord {
    pub schema: String,
    pub status: String,
    pub profile: String,
    pub switching_active: bool,
    pub committed_method: String,
    pub attempt_rows: Vec<G4S5B0RjfAttemptRecord>,
    pub accepted_rows: Vec<G4S5B0StepRecord>,
    pub trajectories: Vec<G4S5B0TrajectoryRecord>,
}

/// Character view of an optional string.
pub open spec fn opt_string_view(value: Option<String>) -> Option<Seq<char>> {
    match value {
        Some(s) => Some(s@),
        None => None,
    }
}

pub fn opt_string_equal(left: &Option<String>, right: &Option<String>) -> (equal: bool)
    ensures
        equal == (opt_string_view(*left) == opt_string_view(*right)),
{
    match (left, right) {
        (Some(l), Some(r)) => *l == *r,
        (None, None) => true,
        _ => false,
    }
}

/// Two attempts agree in every field but wall-clock time, each float both
/// bitwise and under IEEE-754 `==`.
pub open spec fn attempt_record_exact(l: G4S5B0RjfAttemptRecord, r: G4S5B0RjfAttemptRecord) -> bool {
    &&& l.trajectory_id@ == r.trajectory_id@
    &&& l.family@ == r.family@
    &&& l.dimension == r.dimension
    &&& f64_bits_exact(l.rtol_bits, r.rtol_bits)
    &&& l.attempt_index == r.attempt_index
    &&& l.accepted_steps_before == r.accepted_steps_before
    &&& f64_bits_exact(l.t_start_bits, r.t_start_bits)
    &&& f64_bits_exact(l.h_bits, r.h_bits)
    &&& opt_f64_bits_exact(l.error_norm_bits, r.error_norm_bits)
    &&& l.accepted == r.accepted
    &&& l.recoverable_failure == r.recoverable_failure
    &&& opt_string_view(l.failure) == opt_string_view(r.failure)
    &&& l.rhs_evaluations == r.rhs_evaluations
    &&& l.jvp_vectors == r.jvp_vectors
    &&& l.linear_matvecs == r.linear_matvecs
}

/// Two accepted steps agree in every field but the R-JF wall-clock time.
pub open spec fn step_record_exact(l: G4S5B0StepRecord, r: G4S5B0StepRecord) -> bool {
    &&& l.trajectory_id@ == r.trajectory_id@
    &&& l.family@ == r.family@
    &&& l.dimension == r.dimension
    &&& f64_bits_exact(l.rtol_bits, r.rtol_bits)
    &&& l.step_index == r.step_index
    &&& f64_bits_exact(l.t_start_bits, r.t_start_bits)
    &&& f64_bits_exact(l.h_bits, r.h_bits)
    &&& f64_bits_exact(l.transition_level_bits, r.transition_level_bits)
    &&& f64_bits_exact(l.rodas_embedded_error_bits, r.rodas_embedded_error_bits)
    &&& l.rodas_rhs_evaluations == r.rodas_rhs_evaluations
    &&& l.rodas_jvp_vectors == r.rodas_jvp_vectors
    &&& l.rodas_linear_matvecs == r.rodas_linear_matvecs
    &&& l.exponential_completed == r.exponential_completed
    &&& opt_f64_bits_exact(l.exponential_total_error_bits, r.exponential_total_error_bits)
    &&& l.exponential_locally_admissible == r.exponential_locally_admissible
    &&& opt_f64_bits_exact(l.exponential_wall_seconds_bits, r.exponential_wall_seconds_bits)
    &&& opt_f64_bits_exact(
        l.exponential_prefix_wall_seconds_bits,
        r.exponential_prefix_wall_seconds_bits,
    )
    &&& l.exponential_rhs_evaluations == r.exponential_rhs_evaluations
    &&& l.exponential_jvp_vectors == r.exponential_jvp_vectors
    &&& l.exponential_maximum_krylov_dimension == r.exponential_maximum_krylov_dimension
    &&& l.exponential_phi_substeps == r.exponential_phi_substeps
    &&& opt_string_view(l.exponential_failure) == opt_string_view(r.exponential_failure)
}

/// Two trajectory summaries agree in every field.
pub open spec fn trajectory_record_exact(l: G4S5B0TrajectoryRecord, r: G4S5B0TrajectoryRecord) -> bool {
    &&& l.trajectory_id@ == r.trajectory_id@
    &&& l.family@ == r.family@
    &&& l.dimension == r.dimension
    &&& f64_bits_exact(l.rtol_bits, r.rtol_bits)
    &&& l.success == r.success
    &&& opt_string_view(l.failure) == opt_string_view(r.failure)
    &&& l.attempts == r.attempts
    &&& l.accepted_steps == r.accepted_steps
    &&& l.rejected_steps == r.rejected_steps
    &&& f64_bits_exact(l.endpoint_time_bits, r.endpoint_time_bits)
    &&& l.explicit_jacobian_builds == r.explicit_jacobian_builds
    &&& l.direct_factorizations == r.direct_factorizations
    &&& l.newton_iterations == r.newton_iterations
}

pub fn attempt_row_exact_excluding_wall(
    left: &G4S5B0RjfAttemptRecord,
    right: &G4S5B0RjfAttemptRecord,
) -> (exact: bool)
    ensures
        exact == attempt_record_exact(*left, *right),
{
    left.trajectory_id == right.trajectory_id && left.family == right.family && left.dimension
        == right.dimension && f64_bits_identical(left.rtol_bits, right.rtol_bits)
        && left.attempt_index == right.attempt_index && left.accepted_steps_before
        == right.accepted_steps_before && f64_bits_identical(
        left.t_start_bits,
        right.t_start_bits,
    ) && f64_bits_identical(left.h_bits, right.h_bits) && opt_f64_bits_identical(
        left.error_norm_bits,
        right.error_norm_bits,
    ) && left.accepted == right.accepted && left.recoverable_failure == right.recoverable_failure
        && opt_string_equal(&left.failure, &right.failure) && left.rhs_evaluations
        == right.rhs_evaluations && left.jvp_vectors == right.jvp_vectors && left.linear_matvecs
        == right.linear_matvecs
}

fn opt_u64_equal(left: Option<u64>, right: Option<u64>) -> (equal: bool)
    ensures
        equal == (left == right),
{
    match (left, right) {
        (Some(l), Some(r)) => l == r,
        (None, None) => true,
        _ => false,
    }
}

fn opt_usize_equal(left: Option<usize>, right: Option<usize>) -> (equal: bool)
    ensures
        equal == (left == right),
{
    match (left, right) {
        (Some(l), Some(r)) => l == r,
        (None, None) => true,
        _ => false,
    }
}

pub fn accepted_row_exact_excluding_wall(
    left: &G4S5B0StepRecord,
    right: &G4S5B0StepRecord,
) -> (exact: bool)
    ensures
        exact == step_record_exact(*left, *right),
{
    left.trajectory_id == right.trajectory_id && left.family == right.family && left.dimension
        == right.dimension && f64_bits_identical(left.rtol_bits, right.rtol_bits)
        && left.step_index == right.step_index && f64_bits_identical(
        left.t_start_bits,
        right.t_start_bits,
    ) && f64_bits_identical(left.h_bits, right.h_bits) && f64_bits_identical(
        left.transition_level_bits,
        right.transition_level_bits,
    ) && f64_bits_identical(left.rodas_embedded_error_bits, right.rodas_embedded_error_bits)
        && left.rodas_rhs_evaluations == right.rodas_rhs_evaluations && left.rodas_jvp_vectors
        == right.rodas_jvp_vectors && left.rodas_linear_matvecs == right.rodas_linear_matvecs
        && left.exponential_completed == right.exponential_completed && opt_f64_bits_identical(
        left.exponential_total_error_bits,
        right.exponential_total_error_bits,
    ) && left.exponential_locally_admissible == right.exponential_locally_admissible
        && opt_f64_bits_identical(
        left.exponential_wall_seconds_bits,
        right.exponential_wall_seconds_bits,
    ) && opt_f64_bits_identical(
        left.exponential_prefix_wall_seconds_bits,
        right.exponential_prefix_wall_seconds_bits,
    ) && opt_u64_equal(left.exponential_rhs_evaluations, right.exponential_rhs_evaluations)
        && opt_u64_equal(left.exponential_jvp_vectors, right.exponential_jvp_vectors)
        && opt_usize_equal(
        left.exponential_maximum_krylov_dimension,
        right.exponential_maximum_krylov_dimension,
    ) && opt_usize_equal(left.exponential_phi_substeps, right.exponential_phi_substeps)
        && opt_string_equal(&left.exponential_failure, &right.exponential_failure)
}

pub fn trajectory_exact(left: &G4S5B0TrajectoryRecord, right: &G4S5B0TrajectoryRecord) -> (exact:
    bool)
    ensures
        exact == trajectory_record_exact(*left, *right),
{
    left.trajectory_id == right.trajectory_id && left.family == right.family && left.dimension
        == right.dimension && f64_bits_identical(left.rtol_bits, right.rtol_bits) && left.success
        == right.success && opt_string_equal(&left.failure, &right.failure) && left.attempts
        == right.attempts && left.accepted_steps == right.accepted_steps && left.rejected_steps
        == right.rejected_steps && f64_bits_identical(
        left.endpoint_time_bits,
        right.endpoint_time_bits,
    ) && left.explicit_jacobian_builds == right.explicit_jacobian_builds
        && left.direct_factorizations == right.direct_factorizations && left.newton_iterations
        == right.newton_iterations
}

} // verus!
