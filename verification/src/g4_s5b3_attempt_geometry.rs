use vstd::prelude::*;

use crate::counting::count_matching;
use crate::counting::lemma_count_matching_prefix;
use crate::float_bits::{F64_EXPONENT_MASK, f64_bits_ieee_eq, f64_bits_ieee_equal};
use crate::g3_fused_adaptive_gate::G3FusedAdaptiveProfile;
use crate::g4_s5b0_regime_atlas::sat_add_u64;

verus! {

/// Size profile of the attempt-geometry telemetry audit.
#[derive(Clone, Copy, Debug, PartialEq, Eq)]
pub enum G4S5B3Profile {
    Smoke,
    Canonical,
}

/// The kebab-case label of an attempt-geometry profile.
pub open spec fn g4_s5b3_profile_label(profile: G4S5B3Profile) -> Seq<char> {
    match profile {
        G4S5B3Profile::Smoke => "smoke"@,
        G4S5B3Profile::Canonical => "canonical"@,
    }
}

/// Paired wall-clock overhead protocol of an attempt-geometry profile.
#[derive(Clone, Copy, Debug, PartialEq, Eq)]
pub struct OverheadProtocol {
    pub warmup_pairs: usize,
    pub measured_pairs: usize,
    /// Minimum calibrated wall time of one arm, in nanoseconds.
    pub minimum_wall_nanos: u64,
    pub maximum_repetitions: usize,
}

impl G4S5B3Profile {
    pub fn as_str(self) -> (label: &'static str)
        ensures
            label@ == g4_s5b3_profile_label(self),
    {
        match self {
            G4S5B3Profile::Smoke => "smoke",
            G4S5B3Profile::Canonical => "canonical",
        }
    }

    /// The G3 problem corpus that an attempt-geometry profile replays.
    pub fn g3_profile(self) -> (profile: G3FusedAdaptiveProfile)
        ensures
            self is Smoke ==> profile is Smoke,
            self is Canonical ==> profile is Canonical,
    {
        match self {
            G4S5B3Profile::Smoke => G3FusedAdaptiveProfile::Smoke,
            G4S5B3Profile::Canonical => G3FusedAdaptiveProfile::Canonical,
        }
    }

    /// Smoke runs one unwarmed pair of single repetitions; canonical runs a
    /// warm-up pair and seven measured pairs calibrated to a quarter second
    /// with at most 1024 repetitions.
    pub fn overhead_protocol(self) -> (protocol: OverheadProtocol)
        ensures
            self is Smoke ==> protocol == (OverheadProtocol {
                warmup_pairs: 0,
                measured_pairs: 1,
                minimum_wall_nanos: 0,
                maximum_repetitions: 1,
            }),
            self is Canonical ==> protocol == (OverheadProtocol {
                warmup_pairs: 1,
                measured_pairs: 7,
                minimum_wall_nanos: 250_000_000,
                maximum_repetitions: 1024,
            }),
    {
        match self {
            G4S5B3Profile::Smoke => OverheadProtocol {
                warmup_pairs: 0,
                measured_pairs: 1,
                minimum_wall_nanos: 0,
                maximum_repetitions: 1,
            },
            G4S5B3Profile::Canonical => OverheadProtocol {
                warmup_pairs: 1,
                measured_pairs: 7,
                minimum_wall_nanos: 250_000_000,
                maximum_repetitions: 1024,
            },
        }
    }

    /// Number of trajectories (problems times tolerances) a profile runs.
    pub fn expected_trajectories(self) -> (count: usize)
        ensures
            self is Smoke ==> count == 3,
            self is Canonical ==> count == 12,
    {
        match self {
            G4S5B3Profile::Smoke => 3,
            G4S5B3Profile::Canonical => 12,
        }
    }
}

/// Telemetry mode of one suite execution.
#[derive(Clone, Copy, Debug, PartialEq, Eq)]
pub enum SuiteTelemetryMode {
    Disabled,
    RawReadOnly,
    ToleranceScaledReadOnly,
}

impl SuiteTelemetryMode {
    pub fn label(self) -> (label: &'static str)
        ensures
            self is Disabled ==> label@ == "disabled"@,
            self is RawReadOnly ==> label@ == "read-only"@,
            self is ToleranceScaledReadOnly ==> label@ == "tolerance-scaled-read-only"@,
    {
        match self {
            SuiteTelemetryMode::Disabled => "disabled",
            SuiteTelemetryMode::RawReadOnly => "read-only",
            SuiteTelemetryMode::ToleranceScaledReadOnly => "tolerance-scaled-read-only",
        }
    }
}

/// Order label of a paired overhead measurement: even pairs time the
/// disabled arm first.
pub fn overhead_pair_order(pair_index: usize) -> (order: &'static str)
    ensures
        pair_index % 2 == 0 ==> order@ == "disabled-first"@,
        pair_index % 2 != 0 ==> order@ == "read-only-first"@,
{
    if pair_index % 2 == 0 {
        "disabled-first"
    } else {
        "read-only-first"
    }
}

/// Work spent by the read-only early-flow-defect diagnostic of one attempt.
#[derive(Clone, Copy, Debug, PartialEq, Eq)]
pub struct EarlyFlowDefectDiagnosticWork {
    pub conceptual_vector_differences: u64,
    pub l2_norm_evaluations: u64,
    pub scalar_normalizations: u64,
    pub component_scale_evaluations: u64,
    pub wrms_norm_evaluations: u64,
    pub added_rhs_calls: u64,
    pub added_jvp_calls: u64,
    pub added_jvp_vectors: u64,
    pub added_phi_actions: u64,
    pub added_partial_t_calls: u64,
    pub added_jacobian_builds: u64,
    pub added_newton_iterations: u64,
}

impl Default for EarlyFlowDefectDiagnosticWork {
    fn default() -> (work: Self)
        ensures
            work == zero_diagnostic_work(),
    {
        EarlyFlowDefectDiagnosticWork {
            conceptual_vector_differences: 0,
            l2_norm_evaluations: 0,
            scalar_normalizations: 0,
            component_scale_evaluations: 0,
            wrms_norm_evaluations: 0,
            added_rhs_calls: 0,
            added_jvp_calls: 0,
            added_jvp_vectors: 0,
            added_phi_actions: 0,
            added_partial_t_calls: 0,
            added_jacobian_builds: 0,
            added_newton_iterations: 0,
        }
    }
}

/// The empty diagnostic work record.
pub open spec fn zero_diagnostic_work() -> EarlyFlowDefectDiagnosticWork {
    EarlyFlowDefectDiagnosticWork {
        conceptual_vector_differences: 0,
        l2_norm_evaluations: 0,
        scalar_normalizations: 0,
        component_scale_evaluations: 0,
        wrms_norm_evaluations: 0,
        added_rhs_calls: 0,
        added_jvp_calls: 0,
        added_jvp_vectors: 0,
        added_phi_actions: 0,
        added_partial_t_calls: 0,
        added_jacobian_builds: 0,
        added_newton_iterations: 0,
    }
}

/// Field-wise saturating sum of two diagnostic work records.
pub open spec fn spec_add_diagnostic_work(
    a: EarlyFlowDefectDiagnosticWork,
    b: EarlyFlowDefectDiagnosticWork,
) -> EarlyFlowDefectDiagnosticWork {
    EarlyFlowDefectDiagnosticWork {
        conceptual_vector_differences: sat_add_u64(
            a.conceptual_vector_differences,
            b.conceptual_vector_differences,
        ),
        l2_norm_evaluations: sat_add_u64(a.l2_norm_evaluations, b.l2_norm_evaluations),
        scalar_normalizations: sat_add_u64(a.scalar_normalizations, b.scalar_normalizations),
        component_scale_evaluations: sat_add_u64(
            a.component_scale_evaluations,
            b.component_scale_evaluations,
        ),
        wrms_norm_evaluations: sat_add_u64(a.wrms_norm_evaluations, b.wrms_norm_evaluations),
        added_rhs_calls: sat_add_u64(a.added_rhs_calls, b.added_rhs_calls),
        added_jvp_calls: sat_add_u64(a.added_jvp_calls, b.added_jvp_calls),
        added_jvp_vectors: sat_add_u64(a.added_jvp_vectors, b.added_jvp_vectors),
        added_phi_actions: sat_add_u64(a.added_phi_actions, b.added_phi_actions),
        added_partial_t_calls: sat_add_u64(a.added_partial_t_calls, b.added_partial_t_calls),
        added_jacobian_builds: sat_add_u64(a.added_jacobian_builds, b.added_jacobian_builds),
        added_newton_iterations: sat_add_u64(a.added_newton_iterations, b.added_newton_iterations),
    }
}

/// Total diagnostic work of a sequence of attempts, summed field-wise with
/// saturation; attempts without telemetry contribute nothing.
pub open spec fn spec_total_diagnostic_work(attempts: Seq<Option<EarlyFlowDefectDiagnosticWork>>) -> EarlyFlowDefectDiagnosticWork
    decreases attempts.len(),
{
    if attempts.len() == 0 {
        zero_diagnostic_work()
    } else {
        let rest = spec_total_diagnostic_work(attempts.drop_last());
        match attempts.last() {
            Some(work) => spec_add_diagnostic_work(rest, work),
            None => rest,
        }
    }
}

fn add_saturating(a: u64, b: u64) -> (sum: u64)
    ensures
        sum == sat_add_u64(a, b),
{
    if a > u64::MAX - b {
        u64::MAX
    } else {
        a + b
    }
}

fn add_diagnostic_work(
    a: EarlyFlowDefectDiagnosticWork,
    b: EarlyFlowDefectDiagnosticWork,
) -> (sum: EarlyFlowDefectDiagnosticWork)
    ensures
        sum == spec_add_diagnostic_work(a, b),
{
    EarlyFlowDefectDiagnosticWork {
        conceptual_vector_differences: add_saturating(
            a.conceptual_vector_differences,
            b.conceptual_vector_differences,
        ),
        l2_norm_evaluations: add_saturating(a.l2_norm_evaluations, b.l2_norm_evaluations),
        scalar_normalizations: add_saturating(a.scalar_normalizations, b.scalar_normalizations),
        component_scale_evaluations: add_saturating(
            a.component_scale_evaluations,
            b.component_scale_evaluations,
        ),
        wrms_norm_evaluations: add_saturating(a.wrms_norm_evaluations, b.wrms_norm_evaluations),
        added_rhs_calls: add_saturating(a.added_rhs_calls, b.added_rhs_calls),
        added_jvp_calls: add_saturating(a.added_jvp_calls, b.added_jvp_calls),
        added_jvp_vectors: add_saturating(a.added_jvp_vectors, b.added_jvp_vectors),
        added_phi_actions: add_saturating(a.added_phi_actions, b.added_phi_actions),
        added_partial_t_calls: add_saturating(a.added_partial_t_calls, b.added_partial_t_calls),
        added_jacobian_builds: add_saturating(a.added_jacobian_builds, b.added_jacobian_builds),
        added_newton_iterations: add_saturating(
            a.added_newton_iterations,
            b.added_newton_iterations,
        ),
    }
}

/// Sums the diagnostic work of every attempt that carries telemetry
/// (`None` stands for an attempt without telemetry).
pub fn sum_diagnostic_work(attempts: &[Option<EarlyFlowDefectDiagnosticWork>]) -> (total:
    EarlyFlowDefectDiagnosticWork)
    ensures
        total == spec_total_diagnostic_work(attempts@),
{
    let mut out = EarlyFlowDefectDiagnosticWork::default();
    let mut i: usize = 0;
    while i < attempts.len()
        invariant
            i <= attempts@.len(),
            out == spec_total_diagnostic_work(attempts@.subrange(0, i as int)),
        decreases attempts.len() - i,
    {
        assert(attempts@.subrange(0, i + 1).drop_last() =~= attempts@.subrange(0, i as int));
        match attempts[i] {
            Some(work) => {
                out = add_diagnostic_work(out, work);
            },
            None => {},
        }
        i += 1;
    }
    assert(attempts@.subrange(0, attempts@.len() as int) =~= attempts@);
    out
}

/// The read-only diagnostic added no RHS, JVP, phi, time-derivative,
/// Jacobian or Newton work.
pub open spec fn spec_diagnostic_expensive_work_zero(work: EarlyFlowDefectDiagnosticWork) -> bool {
    &&& work.added_rhs_calls == 0
    &&& work.added_jvp_calls == 0
    &&& work.added_jvp_vectors == 0
    &&& work.added_phi_actions == 0
    &&& work.added_partial_t_calls == 0
    &&& work.added_jacobian_builds == 0
    &&& work.added_newton_iterations == 0
}

pub fn diagnostic_expensive_work_zero(work: EarlyFlowDefectDiagnosticWork) -> (zero: bool)
    ensures
        zero == spec_diagnostic_expensive_work_zero(work),
{
    work.added_rhs_calls == 0 && work.added_jvp_calls == 0 && work.added_jvp_vectors == 0
        && work.added_phi_actions == 0 && work.added_partial_t_calls == 0
        && work.added_jacobian_builds == 0 && work.added_newton_iterations == 0
}

/// Integer and boolean outcome of comparing the telemetry-disabled and the
/// read-only run of one trajectory.
#[derive(Clone, Copy, Debug, PartialEq, Eq)]
pub struct G4S5B3TrajectoryChecks {
    pub success: bool,
    pub attempts: usize,
    pub accepted_steps: usize,
    pub rejected_steps: usize,
    pub unscorable_attempts: usize,
    pub legacy_unclassified_attempts: usize,
    pub finite_eta_attempts: usize,
    pub null_eta_attempts: usize,
    pub degenerate_attempts: usize,
    pub nonfinite_normalization_attempts: usize,
    pub requested_outputs_bitwise_identical: bool,
    pub controller_histories_bitwise_identical: bool,
    pub accepted_rejected_sequences_identical: bool,
    pub existing_work_counters_identical: bool,
    pub per_trial_work_complete: bool,
    pub per_trial_work_matches_aggregate: bool,
    pub diagnostic_expensive_work_zero: bool,
    pub complete_attempt_coverage: bool,
    pub diagnostic_work: EarlyFlowDefectDiagnosticWork,
    pub all_required_gates_pass: bool,
}

/// Hard gates of an attempt-geometry run.
#[derive(Clone, Debug, PartialEq, Eq)]
pub struct G4S5B3HardGateSummary {
    pub expected_trajectories: usize,
    pub observed_trajectories: usize,
    pub all_trajectories_successful: bool,
    pub requested_outputs_bitwise_identical: bool,
    pub controller_histories_bitwise_identical: bool,
    pub accepted_rejected_sequences_identical: bool,
    pub existing_work_counters_identical: bool,
    pub per_trial_work_complete: bool,
    pub per_trial_work_matches_aggregate: bool,
    pub no_unscorable_attempts: bool,
    pub no_legacy_unclassified_attempts: bool,
    pub diagnostic_expensive_work_zero: bool,
    pub complete_attempt_coverage: bool,
    pub passed: bool,
}

/// Every trajectory gate holds (and every count is zero).
pub open spec fn all_gates(t: G4S5B3TrajectoryChecks) -> bool {
    &&& t.success
    &&& t.requested_outputs_bitwise_identical
    &&& t.controller_histories_bitwise_identical
    &&& t.accepted_rejected_sequences_identical
    &&& t.existing_work_counters_identical
    &&& t.per_trial_work_complete
    &&& t.per_trial_work_matches_aggregate
    &&& t.unscorable_attempts == 0
    &&& t.legacy_unclassified_attempts == 0
    &&& t.diagnostic_expensive_work_zero
    &&& t.complete_attempt_coverage
    &&& t.all_required_gates_pass
}

/// Aggregates trajectory gates: each hard gate holds when it holds for every
/// trajectory, and the run passes when the trajectory count is the expected
/// one and every gate of every trajectory holds.
pub fn hard_gate_summary(profile: G4S5B3Profile, trajectories: &[G4S5B3TrajectoryChecks]) -> (summary:
    G4S5B3HardGateSummary)
    ensures
        summary.expected_trajectories == (if profile is Smoke { 3usize } else { 12usize }),
        summary.observed_trajectories == trajectories@.len(),
        summary.all_trajectories_successful == forall|i: int|
            0 <= i < trajectories@.len() ==> (#[trigger] trajectories@[i]).success,
        summary.requested_outputs_bitwise_identical == forall|i: int|
            0 <= i < trajectories@.len()
                ==> (#[trigger] trajectories@[i]).requested_outputs_bitwise_identical,
        summary.controller_histories_bitwise_identical == forall|i: int|
            0 <= i < trajectories@.len()
                ==> (#[trigger] trajectories@[i]).controller_histories_bitwise_identical,
        summary.accepted_rejected_sequences_identical == forall|i: int|
            0 <= i < trajectories@.len()
                ==> (#[trigger] trajectories@[i]).accepted_rejected_sequences_identical,
        summary.existing_work_counters_identical == forall|i: int|
            0 <= i < trajectories@.len()
                ==> (#[trigger] trajectories@[i]).existing_work_counters_identical,
        summary.per_trial_work_complete == forall|i: int|
            0 <= i < trajectories@.len() ==> (#[trigger] trajectories@[i]).per_trial_work_complete,
        summary.per_trial_work_matches_aggregate == forall|i: int|
            0 <= i < trajectories@.len()
                ==> (#[trigger] trajectories@[i]).per_trial_work_matches_aggregate,
        summary.no_unscorable_attempts == forall|i: int|
            0 <= i < trajectories@.len() ==> (#[trigger] trajectories@[i]).unscorable_attempts
                == 0,
        summary.no_legacy_unclassified_attempts == forall|i: int|
            0 <= i < trajectories@.len()
                ==> (#[trigger] trajectories@[i]).legacy_unclassified_attempts == 0,
        summary.diagnostic_expensive_work_zero == forall|i: int|
            0 <= i < trajectories@.len()
                ==> (#[trigger] trajectories@[i]).diagnostic_expensive_work_zero,
        summary.complete_attempt_coverage == forall|i: int|
            0 <= i < trajectories@.len() ==> (#[trigger] trajectories@[i]).complete_attempt_coverage,
        summary.passed == (summary.observed_trajectories == summary.expected_trajectories
            && forall|i: int| 0 <= i < trajectories@.len() ==> all_gates(#[trigger] trajectories@[i])),
{
    let expected_trajectories = profile.expected_trajectories();
    let mut successful = true;
    let mut outputs = true;
    let mut controllers = true;
    let mut sequences = true;
    let mut counters = true;
    let mut trial_complete = true;
    let mut trial_matches = true;
    let mut no_unscorable = true;
    let mut no_legacy = true;
    let mut work_zero = true;
    let mut coverage = true;
    let mut all_pass = true;
    let mut i: usize = 0;
    while i < trajectories.len()
        invariant
            i <= trajectories@.len(),
            successful == forall|j: int| 0 <= j < i ==> (#[trigger] trajectories@[j]).success,
            outputs == forall|j: int|
                0 <= j < i ==> (#[trigger] trajectories@[j]).requested_outputs_bitwise_identical,
            controllers == forall|j: int|
                0 <= j < i ==> (#[trigger] trajectories@[j]).controller_histories_bitwise_identical,
            sequences == forall|j: int|
                0 <= j < i ==> (#[trigger] trajectories@[j]).accepted_rejected_sequences_identical,
            counters == forall|j: int|
                0 <= j < i ==> (#[trigger] trajectories@[j]).existing_work_counters_identical,
            trial_complete == forall|j: int|
                0 <= j < i ==> (#[trigger] trajectories@[j]).per_trial_work_complete,
            trial_matches == forall|j: int|
                0 <= j < i ==> (#[trigger] trajectories@[j]).per_trial_work_matches_aggregate,
            no_unscorable == forall|j: int|
                0 <= j < i ==> (#[trigger] trajectories@[j]).unscorable_attempts == 0,
            no_legacy == forall|j: int|
                0 <= j < i ==> (#[trigger] trajectories@[j]).legacy_unclassified_attempts == 0,
            work_zero == forall|j: int|
                0 <= j < i ==> (#[trigger] trajectories@[j]).diagnostic_expensive_work_zero,
            coverage == forall|j: int|
                0 <= j < i ==> (#[trigger] trajectories@[j]).complete_attempt_coverage,
            all_pass == forall|j: int|
                0 <= j < i ==> (#[trigger] trajectories@[j]).all_required_gates_pass,
        decreases trajectories.len() - i,
    {
        let t = &trajectories[i];
        successful = successful && t.success;
        outputs = outputs && t.requested_outputs_bitwise_identical;
        controllers = controllers && t.controller_histories_bitwise_identical;
        sequences = sequences && t.accepted_rejected_sequences_identical;
        counters = counters && t.existing_work_counters_identical;
        trial_complete = trial_complete && t.per_trial_work_complete;
        trial_matches = trial_matches && t.per_trial_work_matches_aggregate;
        no_unscorable = no_unscorable && t.unscorable_attempts == 0;
        no_legacy = no_legacy && t.legacy_unclassified_attempts == 0;
        work_zero = work_zero && t.diagnostic_expensive_work_zero;
        coverage = coverage && t.complete_attempt_coverage;
        all_pass = all_pass && t.all_required_gates_pass;
        i += 1;
    }
    let observed_trajectories = trajectories.len();
    let passed = observed_trajectories == expected_trajectories && successful && outputs
        && controllers && sequences && counters && trial_complete && trial_matches && no_unscorable
        && no_legacy && work_zero && coverage && all_pass;
    proof {
        if passed {
            assert forall|j: int| 0 <= j < trajectories@.len() implies all_gates(
                #[trigger] trajectories@[j],
            ) by {
                assert(trajectories@[j].success);
                assert(trajectories@[j].requested_outputs_bitwise_identical);
                assert(trajectories@[j].controller_histories_bitwise_identical);
                assert(trajectories@[j].accepted_rejected_sequences_identical);
                assert(trajectories@[j].existing_work_counters_identical);
                assert(trajectories@[j].per_trial_work_complete);
                assert(trajectories@[j].per_trial_work_matches_aggregate);
                assert(trajectories@[j].unscorable_attempts == 0);
                assert(trajectories@[j].legacy_unclassified_attempts == 0);
                assert(trajectories@[j].diagnostic_expensive_work_zero);
                assert(trajectories@[j].complete_attempt_coverage);
                assert(trajectories@[j].all_required_gates_pass);
            }
        }
    }
    G4S5B3HardGateSummary {
        expected_trajectories,
        observed_trajectories,
        all_trajectories_successful: successful,
        requested_outputs_bitwise_identical: outputs,
        controller_histories_bitwise_identical: controllers,
        accepted_rejected_sequences_identical: sequences,
        existing_work_counters_identical: counters,
        per_trial_work_complete: trial_complete,
        per_trial_work_matches_aggregate: trial_matches,
        no_unscorable_attempts: no_unscorable,
        no_legacy_unclassified_attempts: no_legacy,
        diagnostic_expensive_work_zero: work_zero,
        complete_attempt_coverage: coverage,
        passed,
    }
}

/// One field of a flattened record, as the derived `==` of the record
/// compares it: doubles by IEEE-754 `==` (given by their bits), integers and
/// flags by value, text by characters, and an absent optional value only to
/// another absent one.
#[derive(Clone, Debug)]
pub enum RecordField {
    Float(u64),
    Word(u64),
    Text(String),
    Absent,
}

pub open spec fn field_eq(l: RecordField, r: RecordField) -> bool {
    match (l, r) {
        (RecordField::Float(a), RecordField::Float(b)) => f64_bits_ieee_eq(a, b),
        (RecordField::Word(a), RecordField::Word(b)) => a == b,
        (RecordField::Text(a), RecordField::Text(b)) => a@ == b@,
        (RecordField::Absent, RecordField::Absent) => true,
        _ => false,
    }
}

/// Two flattened records are equal field by field.
pub open spec fn record_eq(l: Seq<RecordField>, r: Seq<RecordField>) -> bool {
    l.len() == r.len() && forall|i: int| 0 <= i < l.len() ==> field_eq(l[i], r[i])
}

/// Two sequences of flattened records are equal record by record.
pub open spec fn records_eq(l: Seq<Vec<RecordField>>, r: Seq<Vec<RecordField>>) -> bool {
    l.len() == r.len() && forall|i: int| 0 <= i < l.len() ==> record_eq(l[i]@, r[i]@)
}

fn field_equal(l: &RecordField, r: &RecordField) -> (equal: bool)
    ensures
        equal == field_eq(*l, *r),
{
    match (l, r) {
        (RecordField::Float(a), RecordField::Float(b)) => f64_bits_ieee_equal(*a, *b),
        (RecordField::Word(a), RecordField::Word(b)) => *a == *b,
        (RecordField::Text(a), RecordField::Text(b)) => *a == *b,
        (RecordField::Absent, RecordField::Absent) => true,
        _ => false,
    }
}

fn record_equal(l: &Vec<RecordField>, r: &Vec<RecordField>) -> (equal: bool)
    ensures
        equal == record_eq(l@, r@),
{
    if l.len() != r.len() {
        return false;
    }
    let mut i: usize = 0;
    while i < l.len()
        invariant
            l@.len() == r@.len(),
            i <= l@.len(),
            forall|j: int| 0 <= j < i ==> field_eq(l@[j], r@[j]),
        decreases l.len() - i,
    {
        if !field_equal(&l[i], &r[i]) {
            return false;
        }
        i += 1;
    }
    true
}

fn records_equal(l: &Vec<Vec<RecordField>>, r: &Vec<Vec<RecordField>>) -> (equal: bool)
    ensures
        equal == records_eq(l@, r@),
{
    if l.len() != r.len() {
        return false;
    }
    let mut i: usize = 0;
    while i < l.len()
        invariant
            l@.len() == r@.len(),
            i <= l@.len(),
            forall|j: int| 0 <= j < i ==> record_eq(l@[j]@, r@[j]@),
        decreases l.len() - i,
    {
        if !record_equal(&l[i], &r[i]) {
            return false;
        }
        i += 1;
    }
    true
}

/// One trajectory of a suite execution: observed outputs and controller
/// diagnostics, with doubles held as IEEE-754 bit patterns, work counters
/// as their values in declaration order, and early-flow-defect attempts as
/// flattened records.
#[derive(Clone, Debug)]
pub struct SuiteTrajectoryRecord {
    pub case_index: usize,
    pub output_times_bits: Vec<u64>,
    pub output_states_bits: Vec<Vec<u64>>,
    pub success: bool,
    pub message: String,
    pub counters: Vec<u64>,
    pub internal_steps: usize,
    pub output_clipped_steps: usize,
    pub attempts: usize,
    pub accepted_steps: usize,
    pub rejected_steps: usize,
    pub accepted_step_sizes_bits: Vec<u64>,
    pub rejected_step_sizes_bits: Vec<u64>,
    pub time_error_norms_bits: Vec<u64>,
    pub phi_error_norms_bits: Vec<u64>,
    pub total_error_norms_bits: Vec<u64>,
    pub maximum_krylov_dimensions: Vec<usize>,
    pub phi_substeps: Vec<usize>,
    pub early_flow_defect_attempts: Vec<Vec<RecordField>>,
}

/// Views of nested bit vectors.
pub open spec fn nested_view(v: Seq<Vec<u64>>) -> Seq<Seq<u64>> {
    v.map_values(|row: Vec<u64>| row@)
}

/// Two suite trajectories are numerically identical: same case, bitwise
/// identical outputs and controller histories, equal counters and messages,
/// and equal attempt records.
pub open spec fn trajectory_numerically_identical(l: SuiteTrajectoryRecord, r: SuiteTrajectoryRecord) -> bool {
    &&& l.case_index == r.case_index
    &&& l.output_times_bits@ == r.output_times_bits@
    &&& nested_view(l.output_states_bits@) == nested_view(r.output_states_bits@)
    &&& l.success == r.success
    &&& l.message@ == r.message@
    &&& l.counters@ == r.counters@
    &&& l.internal_steps == r.internal_steps
    &&& l.output_clipped_steps == r.output_clipped_steps
    &&& l.attempts == r.attempts
    &&& l.accepted_steps == r.accepted_steps
    &&& l.rejected_steps == r.rejected_steps
    &&& l.accepted_step_sizes_bits@ == r.accepted_step_sizes_bits@
    &&& l.rejected_step_sizes_bits@ == r.rejected_step_sizes_bits@
    &&& l.time_error_norms_bits@ == r.time_error_norms_bits@
    &&& l.phi_error_norms_bits@ == r.phi_error_norms_bits@
    &&& l.total_error_norms_bits@ == r.total_error_norms_bits@
    &&& l.maximum_krylov_dimensions@ == r.maximum_krylov_dimensions@
    &&& l.phi_substeps@ == r.phi_substeps@
    &&& records_eq(l.early_flow_defect_attempts@, r.early_flow_defect_attempts@)
}

/// Bitwise equality of two bit vectors.
pub fn same_f64_bits(left: &[u64], right: &[u64]) -> (same: bool)
    ensures
        same == (left@ == right@),
{
    if left.len() != right.len() {
        return false;
    }
    let mut i: usize = 0;
    while i < left.len()
        invariant
            left@.len() == right@.len(),
            i <= left@.len(),
            forall|j: int| 0 <= j < i ==> left@[j] == right@[j],
        decreases left.len() - i,
    {
        if left[i] != right[i] {
            return false;
        }
        i += 1;
    }
    assert(left@ =~= right@);
    true
}

/// Bitwise equality of two nested bit vectors.
pub fn same_nested_f64_bits(left: &Vec<Vec<u64>>, right: &Vec<Vec<u64>>) -> (same: bool)
    ensures
        same == (nested_view(left@) == nested_view(right@)),
{
    if left.len() != right.len() {
        proof {
            assert(nested_view(left@).len() != nested_view(right@).len());
        }
        return false;
    }
    let mut i: usize = 0;
    while i < left.len()
        invariant
            left@.len() == right@.len(),
            i <= left@.len(),
            forall|j: int| 0 <= j < i ==> left@[j]@ == right@[j]@,
        decreases left.len() - i,
    {
        if !same_f64_bits(left[i].as_slice(), right[i].as_slice()) {
            proof {
                assert(nested_view(left@)[i as int] != nested_view(right@)[i as int]);
            }
            return false;
        }
        i += 1;
    }
    assert(nested_view(left@) =~= nested_view(right@));
    true
}

fn same_usizes(left: &[usize], right: &[usize]) -> (same: bool)
    ensures
        same == (left@ == right@),
{
    if left.len() != right.len() {
        return false;
    }
    let mut i: usize = 0;
    while i < left.len()
        invariant
            left@.len() == right@.len(),
            i <= left@.len(),
            forall|j: int| 0 <= j < i ==> left@[j] == right@[j],
        decreases left.len() - i,
    {
        if left[i] != right[i] {
            return false;
        }
        i += 1;
    }
    assert(left@ =~= right@);
    true
}

fn trajectories_numerically_identical(l: &SuiteTrajectoryRecord, r: &SuiteTrajectoryRecord) -> (same:
    bool)
    ensures
        same == trajectory_numerically_identical(*l, *r),
{
    l.case_index == r.case_index && same_f64_bits(
        l.output_times_bits.as_slice(),
        r.output_times_bits.as_slice(),
    ) && same_nested_f64_bits(&l.output_states_bits, &r.output_states_bits) && l.success
        == r.success && l.message == r.message && same_f64_bits(
        l.counters.as_slice(),
        r.counters.as_slice(),
    ) && l.internal_steps == r.internal_steps && l.output_clipped_steps == r.output_clipped_steps
        && l.attempts == r.attempts && l.accepted_steps == r.accepted_steps && l.rejected_steps
        == r.rejected_steps && same_f64_bits(
        l.accepted_step_sizes_bits.as_slice(),
        r.accepted_step_sizes_bits.as_slice(),
    ) && same_f64_bits(
        l.rejected_step_sizes_bits.as_slice(),
        r.rejected_step_sizes_bits.as_slice(),
    ) && same_f64_bits(l.time_error_norms_bits.as_slice(), r.time_error_norms_bits.as_slice())
        && same_f64_bits(l.phi_error_norms_bits.as_slice(), r.phi_error_norms_bits.as_slice())
        && same_f64_bits(l.total_error_norms_bits.as_slice(), r.total_error_norms_bits.as_slice())
        && same_usizes(
        l.maximum_krylov_dimensions.as_slice(),
        r.maximum_krylov_dimensions.as_slice(),
    ) && same_usizes(l.phi_substeps.as_slice(), r.phi_substeps.as_slice()) && records_equal(
        &l.early_flow_defect_attempts,
        &r.early_flow_defect_attempts,
    )
}

/// Two suite executions are numerically identical: the same number of
/// trajectories, pairwise numerically identical.
pub fn suites_numerically_identical(
    reference: &[SuiteTrajectoryRecord],
    candidate: &[SuiteTrajectoryRecord],
) -> (same: bool)
    ensures
        same == (reference@.len() == candidate@.len() && forall|i: int|
            0 <= i < reference@.len() ==> trajectory_numerically_identical(
                #[trigger] reference@[i],
                candidate@[i],
            )),
{
    if reference.len() != candidate.len() {
        return false;
    }
    let mut i: usize = 0;
    while i < reference.len()
        invariant
            reference@.len() == candidate@.len(),
            i <= reference@.len(),
            forall|j: int|
                0 <= j < i ==> trajectory_numerically_identical(
                    #[trigger] reference@[j],
                    candidate@[j],
                ),
        decreases reference.len() - i,
    {
        if !trajectories_numerically_identical(&reference[i], &candidate[i]) {
            return false;
        }
        i += 1;
    }
    true
}

/// An attempt added no expensive work (attempts without telemetry add none).
pub open spec fn attempt_expensive_work_zero(work: Option<EarlyFlowDefectDiagnosticWork>) -> bool {
    match work {
        Some(w) => spec_diagnostic_expensive_work_zero(w),
        None => true,
    }
}

/// The summed diagnostic work shows no expensive work exactly when no single
/// attempt's diagnostic did any: saturating sums of counts vanish only when
/// every summand does.
pub proof fn lemma_total_expensive_work_zero_iff_each(attempts: Seq<Option<EarlyFlowDefectDiagnosticWork>>)
    ensures
        spec_diagnostic_expensive_work_zero(spec_total_diagnostic_work(attempts)) <==> forall|i: int|
            0 <= i < attempts.len() ==> attempt_expensive_work_zero(#[trigger] attempts[i]),
    decreases attempts.len(),
{
    if attempts.len() > 0 {
        let rest = attempts.drop_last();
        lemma_total_expensive_work_zero_iff_each(rest);
        if forall|i: int| 0 <= i < attempts.len() ==> attempt_expensive_work_zero(#[trigger] attempts[i]) {
            assert forall|i: int| 0 <= i < rest.len() implies attempt_expensive_work_zero(
                #[trigger] rest[i],
            ) by {
                assert(attempt_expensive_work_zero(attempts[i]));
            }
            assert(attempt_expensive_work_zero(attempts[attempts.len() - 1]));
        }
        if spec_diagnostic_expensive_work_zero(spec_total_diagnostic_work(attempts)) {
            assert forall|i: int| 0 <= i < attempts.len() implies attempt_expensive_work_zero(
                #[trigger] attempts[i],
            ) by {
                if i < rest.len() {
                    assert(rest[i] == attempts[i]);
                }
            }
        }
    }
}

/// How an adaptive trial with early-flow-defect telemetry ended.
#[derive(Clone, Copy, Debug, PartialEq, Eq)]
pub enum AdaptiveEarlyFlowDefectOutcome {
    Accepted,
    RejectedErrorControl,
    TrialFailureUnscorable,
    LegacyUnclassified,
}

/// The read-only telemetry of one trial, as far as the comparison reads it;
/// the normalized defect is held as its IEEE-754 bit pattern.
#[derive(Clone, Copy, Debug, PartialEq, Eq)]
pub struct EarlyFlowDefectTelemetryRecord {
    pub normalized_defect_bits: Option<u64>,
    pub degenerate_nonzero_remainder: bool,
    pub nonfinite_normalization: bool,
    pub diagnostic_work: EarlyFlowDefectDiagnosticWork,
}

/// One adaptive trial of the fused exponential integrator, as far as the
/// comparison reads it; doubles are held as their bit patterns.
#[derive(Clone, Debug)]
pub struct EarlyFlowDefectAttemptRecord {
    pub outcome: AdaptiveEarlyFlowDefectOutcome,
    pub step_size_bits: u64,
    pub telemetry: Option<EarlyFlowDefectTelemetryRecord>,
    pub failure: Option<String>,
    pub time_error_norm_bits: Option<u64>,
    pub phi_error_norm_bits: Option<u64>,
    pub total_error_norm_bits: Option<u64>,
    pub candidate_state_finite: Option<bool>,
    pub maximum_krylov_dimension: Option<usize>,
    pub phi_substeps: Option<usize>,
    pub has_trial_work: bool,
}

/// Observed outputs and controller diagnostics of one adaptive run; doubles
/// are held as bit patterns and work counters as their values in
/// declaration order.
#[derive(Clone, Debug)]
pub struct AdaptiveRunRecord {
    pub output_times_bits: Vec<u64>,
    pub output_states_bits: Vec<Vec<u64>>,
    pub success: bool,
    pub message: String,
    pub counters: Vec<u64>,
    pub internal_steps: usize,
    pub output_clipped_steps: usize,
    pub attempts: usize,
    pub accepted_steps: usize,
    pub rejected_steps: usize,
    pub accepted_step_sizes_bits: Vec<u64>,
    pub rejected_step_sizes_bits: Vec<u64>,
    pub time_error_norms_bits: Vec<u64>,
    pub phi_error_norms_bits: Vec<u64>,
    pub total_error_norms_bits: Vec<u64>,
    pub maximum_krylov_dimensions: Vec<usize>,
    pub phi_substeps: Vec<usize>,
    pub early_flow_defect_attempts: Vec<EarlyFlowDefectAttemptRecord>,
}

/// Requested outputs, status and step counts agree bit for bit.
pub open spec fn outputs_identical(d: AdaptiveRunRecord, r: AdaptiveRunRecord) -> bool {
    &&& d.output_times_bits@ == r.output_times_bits@
    &&& nested_view(d.output_states_bits@) == nested_view(r.output_states_bits@)
    &&& d.success == r.success
    &&& d.message@ == r.message@
    &&& d.internal_steps == r.internal_steps
    &&& d.output_clipped_steps == r.output_clipped_steps
}

/// Controller histories agree bit for bit.
pub open spec fn controller_identical(d: AdaptiveRunRecord, r: AdaptiveRunRecord) -> bool {
    &&& d.attempts == r.attempts
    &&& d.accepted_steps == r.accepted_steps
    &&& d.rejected_steps == r.rejected_steps
    &&& d.accepted_step_sizes_bits@ == r.accepted_step_sizes_bits@
    &&& d.rejected_step_sizes_bits@ == r.rejected_step_sizes_bits@
    &&& d.time_error_norms_bits@ == r.time_error_norms_bits@
    &&& d.phi_error_norms_bits@ == r.phi_error_norms_bits@
    &&& d.total_error_norms_bits@ == r.total_error_norms_bits@
    &&& d.maximum_krylov_dimensions@ == r.maximum_krylov_dimensions@
    &&& d.phi_substeps@ == r.phi_substeps@
}

/// Step sizes (by bits) of the attempts that ended with the given outcome,
/// in attempt order.
pub open spec fn step_sizes_with_outcome(
    attempts: Seq<EarlyFlowDefectAttemptRecord>,
    outcome: AdaptiveEarlyFlowDefectOutcome,
) -> Seq<u64>
    decreases attempts.len(),
{
    if attempts.len() == 0 {
        seq![]
    } else {
        let rest = step_sizes_with_outcome(attempts.drop_last(), outcome);
        if attempts.last().outcome == outcome {
            rest.push(attempts.last().step_size_bits)
        } else {
            rest
        }
    }
}

/// The double with these bits is finite.
pub open spec fn f64_bits_finite(bits: u64) -> bool {
    bits & F64_EXPONENT_MASK != F64_EXPONENT_MASK
}

pub open spec fn has_outcome(outcome: AdaptiveEarlyFlowDefectOutcome) -> spec_fn(EarlyFlowDefectAttemptRecord) -> bool {
    |a: EarlyFlowDefectAttemptRecord| a.outcome == outcome
}

pub open spec fn has_finite_eta() -> spec_fn(EarlyFlowDefectAttemptRecord) -> bool {
    |a: EarlyFlowDefectAttemptRecord|
        match a.telemetry {
            Some(t) => match t.normalized_defect_bits {
                Some(bits) => f64_bits_finite(bits),
                None => false,
            },
            None => false,
        }
}

pub open spec fn is_degenerate() -> spec_fn(EarlyFlowDefectAttemptRecord) -> bool {
    |a: EarlyFlowDefectAttemptRecord|
        match a.telemetry {
            Some(t) => t.degenerate_nonzero_remainder,
            None => false,
        }
}

pub open spec fn has_nonfinite_normalization() -> spec_fn(EarlyFlowDefectAttemptRecord) -> bool {
    |a: EarlyFlowDefectAttemptRecord|
        match a.telemetry {
            Some(t) => t.nonfinite_normalization,
            None => false,
        }
}

/// The diagnostic work of each attempt (none without telemetry).
pub open spec fn attempt_diagnostic_works(attempts: Seq<EarlyFlowDefectAttemptRecord>) -> Seq<Option<EarlyFlowDefectDiagnosticWork>> {
    attempts.map_values(
        |a: EarlyFlowDefectAttemptRecord|
            match a.telemetry {
                Some(t) => Some(t.diagnostic_work),
                None => None,
            },
    )
}

/// The attempt is fully covered: no failure, telemetry and every error norm,
/// finiteness flag, Krylov size, substep count and trial work present.
pub open spec fn attempt_covered(a: EarlyFlowDefectAttemptRecord) -> bool {
    &&& a.failure is None
    &&& a.telemetry is Some
    &&& a.time_error_norm_bits is Some
    &&& a.phi_error_norm_bits is Some
    &&& a.total_error_norm_bits is Some
    &&& a.candidate_state_finite is Some
    &&& a.maximum_krylov_dimension is Some
    &&& a.phi_substeps is Some
    &&& a.has_trial_work
}

/// Per-attempt tallies of a read-only run.
struct AttemptTallies {
    accepted_sizes: Vec<u64>,
    rejected_sizes: Vec<u64>,
    works: Vec<Option<EarlyFlowDefectDiagnosticWork>>,
    unscorable: usize,
    legacy: usize,
    finite_eta: usize,
    degenerate: usize,
    nonfinite: usize,
    trial_work_complete: bool,
    covered: bool,
}

fn optional_diagnostic_work(a: &EarlyFlowDefectAttemptRecord) -> (work: Option<EarlyFlowDefectDiagnosticWork>)
    ensures
        work == (match a.telemetry {
            Some(t) => Some(t.diagnostic_work),
            None => None,
        }),
{
    match a.telemetry {
        Some(t) => Some(t.diagnostic_work),
        None => None,
    }
}

fn finite_eta(a: &EarlyFlowDefectAttemptRecord) -> (finite: bool)
    ensures
        finite == (has_finite_eta())(*a),
{
    match a.telemetry {
        Some(t) => match t.normalized_defect_bits {
            Some(bits) => bits & F64_EXPONENT_MASK != F64_EXPONENT_MASK,
            None => false,
        },
        None => false,
    }
}

fn covered(a: &EarlyFlowDefectAttemptRecord) -> (covered: bool)
    ensures
        covered == attempt_covered(*a),
{
    a.failure.is_none() && a.telemetry.is_some() && a.time_error_norm_bits.is_some()
        && a.phi_error_norm_bits.is_some() && a.total_error_norm_bits.is_some()
        && a.candidate_state_finite.is_some() && a.maximum_krylov_dimension.is_some()
        && a.phi_substeps.is_some() && a.has_trial_work
}

fn outcome_is(a: AdaptiveEarlyFlowDefectOutcome, b: AdaptiveEarlyFlowDefectOutcome) -> (same: bool)
    ensures
        same == (a == b),
{
    match (a, b) {
        (AdaptiveEarlyFlowDefectOutcome::Accepted, AdaptiveEarlyFlowDefectOutcome::Accepted) => true,
        (
            AdaptiveEarlyFlowDefectOutcome::RejectedErrorControl,
            AdaptiveEarlyFlowDefectOutcome::RejectedErrorControl,
        ) => true,
        (
            AdaptiveEarlyFlowDefectOutcome::TrialFailureUnscorable,
            AdaptiveEarlyFlowDefectOutcome::TrialFailureUnscorable,
        ) => true,
        (
            AdaptiveEarlyFlowDefectOutcome::LegacyUnclassified,
            AdaptiveEarlyFlowDefectOutcome::LegacyUnclassified,
        ) => true,
        _ => false,
    }
}

fn tally_attempts(attempts: &Vec<EarlyFlowDefectAttemptRecord>) -> (t: AttemptTallies)
    ensures
        t.accepted_sizes@ == step_sizes_with_outcome(
            attempts@,
            AdaptiveEarlyFlowDefectOutcome::Accepted,
        ),
        t.rejected_sizes@ == step_sizes_with_outcome(
            attempts@,
            AdaptiveEarlyFlowDefectOutcome::RejectedErrorControl,
        ),
        t.works@ == attempt_diagnostic_works(attempts@),
        t.unscorable == count_matching(
            attempts@,
            has_outcome(AdaptiveEarlyFlowDefectOutcome::TrialFailureUnscorable),
        ),
        t.legacy == count_matching(
            attempts@,
            has_outcome(AdaptiveEarlyFlowDefectOutcome::LegacyUnclassified),
        ),
        t.finite_eta == count_matching(attempts@, has_finite_eta()),
        t.finite_eta <= attempts@.len(),
        t.degenerate == count_matching(attempts@, is_degenerate()),
        t.nonfinite == count_matching(attempts@, has_nonfinite_normalization()),
        t.trial_work_complete == forall|i: int|
            0 <= i < attempts@.len() ==> (#[trigger] attempts@[i]).has_trial_work,
        t.covered == forall|i: int| 0 <= i < attempts@.len() ==> attempt_covered(#[trigger] attempts@[i]),
{
    let mut t = AttemptTallies {
        accepted_sizes: Vec::new(),
        rejected_sizes: Vec::new(),
        works: Vec::new(),
        unscorable: 0,
        legacy: 0,
        finite_eta: 0,
        degenerate: 0,
        nonfinite: 0,
        trial_work_complete: true,
        covered: true,
    };
    let mut i: usize = 0;
    while i < attempts.len()
        invariant
            i <= attempts@.len(),
            t.accepted_sizes@ == step_sizes_with_outcome(
                attempts@.subrange(0, i as int),
                AdaptiveEarlyFlowDefectOutcome::Accepted,
            ),
            t.rejected_sizes@ == step_sizes_with_outcome(
                attempts@.subrange(0, i as int),
                AdaptiveEarlyFlowDefectOutcome::RejectedErrorControl,
            ),
            t.works@ == attempt_diagnostic_works(attempts@.subrange(0, i as int)),
            t.unscorable == count_matching(
                attempts@.subrange(0, i as int),
                has_outcome(AdaptiveEarlyFlowDefectOutcome::TrialFailureUnscorable),
            ),
            t.legacy == count_matching(
                attempts@.subrange(0, i as int),
                has_outcome(AdaptiveEarlyFlowDefectOutcome::LegacyUnclassified),
            ),
            t.finite_eta == count_matching(attempts@.subrange(0, i as int), has_finite_eta()),
            t.degenerate == count_matching(attempts@.subrange(0, i as int), is_degenerate()),
            t.nonfinite == count_matching(
                attempts@.subrange(0, i as int),
                has_nonfinite_normalization(),
            ),
            t.unscorable <= i && t.legacy <= i && t.finite_eta <= i && t.degenerate <= i
                && t.nonfinite <= i,
            t.trial_work_complete == forall|j: int|
                0 <= j < i ==> (#[trigger] attempts@[j]).has_trial_work,
            t.covered == forall|j: int| 0 <= j < i ==> attempt_covered(#[trigger] attempts@[j]),
        decreases attempts.len() - i,
    {
        proof {
            assert(attempts@.subrange(0, i + 1).drop_last() =~= attempts@.subrange(0, i as int));
            lemma_count_matching_prefix(
                attempts@,
                has_outcome(AdaptiveEarlyFlowDefectOutcome::TrialFailureUnscorable),
                i as int,
            );
            lemma_count_matching_prefix(
                attempts@,
                has_outcome(AdaptiveEarlyFlowDefectOutcome::LegacyUnclassified),
                i as int,
            );
            lemma_count_matching_prefix(attempts@, has_finite_eta(), i as int);
            lemma_count_matching_prefix(attempts@, is_degenerate(), i as int);
            lemma_count_matching_prefix(attempts@, has_nonfinite_normalization(), i as int);
        }
        let a = &attempts[i];
        if outcome_is(a.outcome, AdaptiveEarlyFlowDefectOutcome::Accepted) {
            t.accepted_sizes.push(a.step_size_bits);
        }
        if outcome_is(a.outcome, AdaptiveEarlyFlowDefectOutcome::RejectedErrorControl) {
            t.rejected_sizes.push(a.step_size_bits);
        }
        t.works.push(optional_diagnostic_work(a));
        if outcome_is(a.outcome, AdaptiveEarlyFlowDefectOutcome::TrialFailureUnscorable) {
            t.unscorable = t.unscorable + 1;
        }
        if outcome_is(a.outcome, AdaptiveEarlyFlowDefectOutcome::LegacyUnclassified) {
            t.legacy = t.legacy + 1;
        }
        if finite_eta(a) {
            t.finite_eta = t.finite_eta + 1;
        }
        let degenerate = match a.telemetry {
            Some(telemetry) => telemetry.degenerate_nonzero_remainder,
            None => false,
        };
        if degenerate {
            t.degenerate = t.degenerate + 1;
        }
        let nonfinite = match a.telemetry {
            Some(telemetry) => telemetry.nonfinite_normalization,
            None => false,
        };
        if nonfinite {
            t.nonfinite = t.nonfinite + 1;
        }
        t.trial_work_complete = t.trial_work_complete && a.has_trial_work;
        t.covered = t.covered && covered(a);
        proof {
            assert(attempt_diagnostic_works(attempts@.subrange(0, i + 1))
                =~= attempt_diagnostic_works(attempts@.subrange(0, i as int)).push(
                match attempts@[i as int].telemetry {
                    Some(t) => Some(t.diagnostic_work),
                    None => None,
                },
            ));
        }
        i += 1;
    }
    assert(attempts@.subrange(0, attempts@.len() as int) =~= attempts@);
    t
}

/// Compares the telemetry-disabled run of a trajectory with its read-only
/// telemetry run. `trial_work_sums_to_aggregate` tells whether the per-trial
/// work counters add up to the read-only run's aggregate numerical work, and
/// `interval_sums_match` whether the sorted sum of attempted step sizes
/// equals (by bits) the controller's sum in both runs.
pub fn compare_trajectory(
    disabled: &AdaptiveRunRecord,
    read_only: &AdaptiveRunRecord,
    trial_work_sums_to_aggregate: bool,
    interval_sums_match: bool,
) -> (checks: G4S5B3TrajectoryChecks)
    ensures
        ({
            let attempts = read_only.early_flow_defect_attempts@;
            let accepted = step_sizes_with_outcome(attempts, AdaptiveEarlyFlowDefectOutcome::Accepted);
            let rejected = step_sizes_with_outcome(
                attempts,
                AdaptiveEarlyFlowDefectOutcome::RejectedErrorControl,
            );
            &&& checks.success == (disabled.success && read_only.success)
            &&& checks.attempts == read_only.attempts
            &&& checks.accepted_steps == read_only.accepted_steps
            &&& checks.rejected_steps == read_only.rejected_steps
            &&& checks.requested_outputs_bitwise_identical == outputs_identical(*disabled, *read_only)
            &&& checks.controller_histories_bitwise_identical == controller_identical(
                *disabled,
                *read_only,
            )
            &&& checks.accepted_rejected_sequences_identical == (attempts.len() == read_only.attempts
                && accepted == read_only.accepted_step_sizes_bits@ && rejected
                == read_only.rejected_step_sizes_bits@ && disabled.accepted_step_sizes_bits@
                == accepted && disabled.rejected_step_sizes_bits@ == rejected)
            &&& checks.existing_work_counters_identical == (disabled.counters@ == read_only.counters@)
            &&& checks.per_trial_work_complete == forall|i: int|
                0 <= i < attempts.len() ==> (#[trigger] attempts[i]).has_trial_work
            &&& checks.per_trial_work_matches_aggregate == (checks.per_trial_work_complete
                && trial_work_sums_to_aggregate)
            &&& checks.unscorable_attempts == count_matching(
                attempts,
                has_outcome(AdaptiveEarlyFlowDefectOutcome::TrialFailureUnscorable),
            )
            &&& checks.legacy_unclassified_attempts == count_matching(
                attempts,
                has_outcome(AdaptiveEarlyFlowDefectOutcome::LegacyUnclassified),
            )
            &&& checks.finite_eta_attempts == count_matching(attempts, has_finite_eta())
            &&& checks.null_eta_attempts == attempts.len() - checks.finite_eta_attempts
            &&& checks.degenerate_attempts == count_matching(attempts, is_degenerate())
            &&& checks.nonfinite_normalization_attempts == count_matching(
                attempts,
                has_nonfinite_normalization(),
            )
            &&& checks.diagnostic_work == spec_total_diagnostic_work(
                attempt_diagnostic_works(attempts),
            )
            &&& checks.diagnostic_expensive_work_zero == spec_diagnostic_expensive_work_zero(
                checks.diagnostic_work,
            )
            &&& checks.complete_attempt_coverage == (attempts.len() == read_only.attempts
                && forall|i: int| 0 <= i < attempts.len() ==> attempt_covered(#[trigger] attempts[i]))
            &&& checks.all_required_gates_pass == (disabled.success && read_only.success
                && checks.requested_outputs_bitwise_identical
                && checks.controller_histories_bitwise_identical
                && checks.accepted_rejected_sequences_identical
                && checks.existing_work_counters_identical && checks.per_trial_work_complete
                && checks.per_trial_work_matches_aggregate && checks.unscorable_attempts == 0
                && checks.legacy_unclassified_attempts == 0
                && checks.diagnostic_expensive_work_zero && checks.complete_attempt_coverage
                && interval_sums_match)
        }),
{
    let outputs = same_f64_bits(
        disabled.output_times_bits.as_slice(),
        read_only.output_times_bits.as_slice(),
    ) && same_nested_f64_bits(&disabled.output_states_bits, &read_only.output_states_bits)
        && disabled.success == read_only.success && disabled.message == read_only.message
        && disabled.internal_steps == read_only.internal_steps && disabled.output_clipped_steps
        == read_only.output_clipped_steps;
    let controller = disabled.attempts == read_only.attempts && disabled.accepted_steps
        == read_only.accepted_steps && disabled.rejected_steps == read_only.rejected_steps
        && same_f64_bits(
        disabled.accepted_step_sizes_bits.as_slice(),
        read_only.accepted_step_sizes_bits.as_slice(),
    ) && same_f64_bits(
        disabled.rejected_step_sizes_bits.as_slice(),
        read_only.rejected_step_sizes_bits.as_slice(),
    ) && same_f64_bits(
        disabled.time_error_norms_bits.as_slice(),
        read_only.time_error_norms_bits.as_slice(),
    ) && same_f64_bits(
        disabled.phi_error_norms_bits.as_slice(),
        read_only.phi_error_norms_bits.as_slice(),
    ) && same_f64_bits(
        disabled.total_error_norms_bits.as_slice(),
        read_only.total_error_norms_bits.as_slice(),
    ) && same_usizes(
        disabled.maximum_krylov_dimensions.as_slice(),
        read_only.maximum_krylov_dimensions.as_slice(),
    ) && same_usizes(disabled.phi_substeps.as_slice(), read_only.phi_substeps.as_slice());
    let attempts = &read_only.early_flow_defect_attempts;
    let tallies = tally_attempts(attempts);
    let sequences = attempts.len() == read_only.attempts && same_f64_bits(
        tallies.accepted_sizes.as_slice(),
        read_only.accepted_step_sizes_bits.as_slice(),
    ) && same_f64_bits(
        tallies.rejected_sizes.as_slice(),
        read_only.rejected_step_sizes_bits.as_slice(),
    ) && same_f64_bits(
        disabled.accepted_step_sizes_bits.as_slice(),
        tallies.accepted_sizes.as_slice(),
    ) && same_f64_bits(
        disabled.rejected_step_sizes_bits.as_slice(),
        tallies.rejected_sizes.as_slice(),
    );
    let counters = same_f64_bits(disabled.counters.as_slice(), read_only.counters.as_slice());
    let per_trial_work_matches_aggregate = tallies.trial_work_complete
        && trial_work_sums_to_aggregate;
    let diagnostic_work = sum_diagnostic_work(tallies.works.as_slice());
    let work_zero = diagnostic_expensive_work_zero(diagnostic_work);
    let coverage = attempts.len() == read_only.attempts && tallies.covered;
    let all_required_gates_pass = disabled.success && read_only.success && outputs && controller
        && sequences && counters && tallies.trial_work_complete && per_trial_work_matches_aggregate
        && tallies.unscorable == 0 && tallies.legacy == 0 && work_zero && coverage
        && interval_sums_match;
    G4S5B3TrajectoryChecks {
        success: disabled.success && read_only.success,
        attempts: read_only.attempts,
        accepted_steps: read_only.accepted_steps,
        rejected_steps: read_only.rejected_steps,
        unscorable_attempts: tallies.unscorable,
        legacy_unclassified_attempts: tallies.legacy,
        finite_eta_attempts: tallies.finite_eta,
        null_eta_attempts: attempts.len() - tallies.finite_eta,
        degenerate_attempts: tallies.degenerate,
        nonfinite_normalization_attempts: tallies.nonfinite,
        requested_outputs_bitwise_identical: outputs,
        controller_histories_bitwise_identical: controller,
        accepted_rejected_sequences_identical: sequences,
        existing_work_counters_identical: counters,
        per_trial_work_complete: tallies.trial_work_complete,
        per_trial_work_matches_aggregate,
        diagnostic_expensive_work_zero: work_zero,
        complete_attempt_coverage: coverage,
        diagnostic_work,
        all_required_gates_pass,
    }
}

} // verus!
