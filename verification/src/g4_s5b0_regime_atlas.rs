use vstd::prelude::*;

use crate::counting::{count_matching, lemma_count_matching_prefix, lemma_count_matching_zero};
use crate::error::CoreResult;
use crate::float_bits::f64_bits_is_nan;
use crate::g4_s5b0_trace_authority::{
    attempt_same_except_wall, attempt_texts_fit, enc_attempt, enc_trajectory,
    lemma_attempt_encoding_is_faithful, lemma_trajectory_encoding_is_faithful, trajectory_texts_fit,
};
use crate::g4_s5b0_records::{
    G4S5B0AttemptTraceRecord, G4S5B0RjfAttemptRecord, G4S5B0StepRecord, G4S5B0TrajectoryRecord,
    accepted_row_exact_excluding_wall, attempt_record_exact, attempt_row_exact_excluding_wall,
    step_record_exact, trajectory_exact, trajectory_record_exact,
};
use crate::policy_redesign_v25::{PersistenceLatch, latch_step};

verus! {

/// Equality of string slices compares their characters.
pub assume_specification[ <str as PartialEq>::eq ](left: &str, right: &str) -> (equal: bool)
    ensures
        equal == (left@ == right@),
;

/// Size profile of the G4/S5B0 regime atlas and its audits.
#[derive(Clone, Copy, Debug, PartialEq, Eq)]
pub enum G4S5B0Profile {
    Smoke,
    Canonical,
    Calibration128,
    Holdout512,
    StageGrowthCalibration96,
    StageGrowthCalibration192,
    StageGrowthCalibration256,
    EnforcedBudgetHoldout320,
    StageGrowthHoldout384,
}

/// Problem family of the regime atlas.
#[derive(Clone, Copy, Debug, PartialEq, Eq)]
pub enum G4S5B0Family {
    RobertsonRamped,
    HiresRamped,
    VanDerPolRamped,
    RotatingNonnormal,
    NonautonomousStiffForcing,
    SemilinearAdvectionDiffusionRamped,
}

/// The kebab-case label of a family.
pub open spec fn family_label(family: G4S5B0Family) -> Seq<char> {
    match family {
        G4S5B0Family::RobertsonRamped => "robertson-ramped"@,
        G4S5B0Family::HiresRamped => "hires-ramped"@,
        G4S5B0Family::VanDerPolRamped => "van-der-pol-ramped"@,
        G4S5B0Family::RotatingNonnormal => "rotating-nonnormal"@,
        G4S5B0Family::NonautonomousStiffForcing => "nonautonomous-stiff-forcing"@,
        G4S5B0Family::SemilinearAdvectionDiffusionRamped => "semilinear-advection-diffusion-ramped"@,
    }
}

impl G4S5B0Family {
    pub const ALL: [G4S5B0Family; 6] = [
        G4S5B0Family::RobertsonRamped,
        G4S5B0Family::HiresRamped,
        G4S5B0Family::VanDerPolRamped,
        G4S5B0Family::RotatingNonnormal,
        G4S5B0Family::NonautonomousStiffForcing,
        G4S5B0Family::SemilinearAdvectionDiffusionRamped,
    ];

    pub fn as_str(self) -> (label: &'static str)
        ensures
            label@ == family_label(self),
    {
        match self {
            G4S5B0Family::RobertsonRamped => "robertson-ramped",
            G4S5B0Family::HiresRamped => "hires-ramped",
            G4S5B0Family::VanDerPolRamped => "van-der-pol-ramped",
            G4S5B0Family::RotatingNonnormal => "rotating-nonnormal",
            G4S5B0Family::NonautonomousStiffForcing => "nonautonomous-stiff-forcing",
            G4S5B0Family::SemilinearAdvectionDiffusionRamped => "semilinear-advection-diffusion-ramped",
        }
    }
}

/// The kebab-case label of a profile.
pub open spec fn profile_label(profile: G4S5B0Profile) -> Seq<char> {
    match profile {
        G4S5B0Profile::Smoke => "smoke"@,
        G4S5B0Profile::Canonical => "canonical"@,
        G4S5B0Profile::Calibration128 => "calibration-128"@,
        G4S5B0Profile::Holdout512 => "holdout-512"@,
        G4S5B0Profile::StageGrowthCalibration96 => "stage-growth-calibration-96"@,
        G4S5B0Profile::StageGrowthCalibration192 => "stage-growth-calibration-192"@,
        G4S5B0Profile::StageGrowthCalibration256 => "stage-growth-calibration-256"@,
        G4S5B0Profile::EnforcedBudgetHoldout320 => "enforced-budget-holdout-320"@,
        G4S5B0Profile::StageGrowthHoldout384 => "stage-growth-holdout-384"@,
    }
}

/// The problem dimensions that a profile integrates.
pub open spec fn profile_dimensions(profile: G4S5B0Profile) -> Seq<usize> {
    match profile {
        G4S5B0Profile::Smoke => seq![32],
        G4S5B0Profile::Canonical => seq![128, 512],
        G4S5B0Profile::Calibration128 => seq![128],
        G4S5B0Profile::Holdout512 => seq![512],
        G4S5B0Profile::StageGrowthCalibration96 => seq![96],
        G4S5B0Profile::StageGrowthCalibration192 => seq![192],
        G4S5B0Profile::StageGrowthCalibration256 => seq![256],
        G4S5B0Profile::EnforcedBudgetHoldout320 => seq![320],
        G4S5B0Profile::StageGrowthHoldout384 => seq![384],
    }
}

impl G4S5B0Profile {
    pub fn as_str(self) -> (label: &'static str)
        ensures
            label@ == profile_label(self),
    {
        match self {
            G4S5B0Profile::Smoke => "smoke",
            G4S5B0Profile::Canonical => "canonical",
            G4S5B0Profile::Calibration128 => "calibration-128",
            G4S5B0Profile::Holdout512 => "holdout-512",
            G4S5B0Profile::StageGrowthCalibration96 => "stage-growth-calibration-96",
            G4S5B0Profile::StageGrowthCalibration192 => "stage-growth-calibration-192",
            G4S5B0Profile::StageGrowthCalibration256 => "stage-growth-calibration-256",
            G4S5B0Profile::EnforcedBudgetHoldout320 => "enforced-budget-holdout-320",
            G4S5B0Profile::StageGrowthHoldout384 => "stage-growth-holdout-384",
        }
    }

    pub fn dimensions(self) -> (dimensions: Vec<usize>)
        ensures
            dimensions@ == profile_dimensions(self),
    {
        match self {
            G4S5B0Profile::Smoke => vec![32],
            G4S5B0Profile::Canonical => vec![128, 512],
            G4S5B0Profile::Calibration128 => vec![128],
            G4S5B0Profile::Holdout512 => vec![512],
            G4S5B0Profile::StageGrowthCalibration96 => vec![96],
            G4S5B0Profile::StageGrowthCalibration192 => vec![192],
            G4S5B0Profile::StageGrowthCalibration256 => vec![256],
            G4S5B0Profile::EnforcedBudgetHoldout320 => vec![320],
            G4S5B0Profile::StageGrowthHoldout384 => vec![384],
        }
    }

    pub fn uses_canonical_tolerances(self) -> (canonical: bool)
        ensures
            canonical <==> (self is Canonical || self is Calibration128 || self is Holdout512),
    {
        match self {
            G4S5B0Profile::Canonical | G4S5B0Profile::Calibration128 | G4S5B0Profile::Holdout512 => true,
            _ => false,
        }
    }
}

/// Whether a profile's evidence was already consumed by the v3.6 economics
/// runs (the stage-growth and enforced-budget profiles).
pub fn v36_profile_is_consumed(profile: G4S5B0Profile) -> (consumed: bool)
    ensures
        consumed <==> (profile is StageGrowthCalibration96 || profile is StageGrowthCalibration192
            || profile is StageGrowthCalibration256 || profile is EnforcedBudgetHoldout320
            || profile is StageGrowthHoldout384),
{
    match profile {
        G4S5B0Profile::StageGrowthCalibration96
        | G4S5B0Profile::StageGrowthCalibration192
        | G4S5B0Profile::StageGrowthCalibration256
        | G4S5B0Profile::EnforcedBudgetHoldout320
        | G4S5B0Profile::StageGrowthHoldout384 => true,
        _ => false,
    }
}

/// Which prefix-probe policy drives the actual-prefix audits.
#[derive(Clone, Copy, Debug, PartialEq, Eq)]
pub enum G4S5B0PrefixProbePolicy {
    FrozenK1Comparator,
    K3Development,
}

/// The kebab-case label of a prefix-probe policy.
pub open spec fn prefix_probe_policy_label(policy: G4S5B0PrefixProbePolicy) -> Seq<char> {
    match policy {
        G4S5B0PrefixProbePolicy::FrozenK1Comparator => "frozen-k1-comparator"@,
        G4S5B0PrefixProbePolicy::K3Development => "k3-development"@,
    }
}

impl G4S5B0PrefixProbePolicy {
    pub fn as_str(self) -> (label: &'static str)
        ensures
            label@ == prefix_probe_policy_label(self),
    {
        match self {
            G4S5B0PrefixProbePolicy::FrozenK1Comparator => "frozen-k1-comparator",
            G4S5B0PrefixProbePolicy::K3Development => "k3-development",
        }
    }
}

/// The accepted-step indices at which the frozen k=1 comparator fires for a
/// (dimension, family) trajectory; empty for every other trajectory.
pub open spec fn frozen_k1_steps(dimension: usize, family: Seq<char>) -> Seq<usize> {
    if dimension == 128 && family == "hires-ramped"@ {
        seq![8, 13]
    } else if dimension == 128 && family == "nonautonomous-stiff-forcing"@ {
        seq![7, 10, 12, 14, 17, 32, 46, 59, 77, 88, 94, 98, 104, 110, 116, 121, 139, 159, 170]
    } else if dimension == 128 && family == "robertson-ramped"@ {
        seq![5, 14, 17, 21]
    } else if dimension == 128 && family == "rotating-nonnormal"@ {
        seq![6, 20, 29, 34, 43, 68, 95]
    } else if dimension == 128 && family == "semilinear-advection-diffusion-ramped"@ {
        seq![9, 15]
    } else if dimension == 128 && family == "van-der-pol-ramped"@ {
        seq![11, 14, 24, 62]
    } else if dimension == 512 && family == "hires-ramped"@ {
        seq![8, 13]
    } else if dimension == 512 && family == "nonautonomous-stiff-forcing"@ {
        seq![7, 10, 12, 14, 17, 33, 46, 59, 77, 88, 93, 98, 104, 110, 115, 121, 139, 159, 170]
    } else if dimension == 512 && family == "robertson-ramped"@ {
        seq![5, 14, 17, 21]
    } else if dimension == 512 && family == "rotating-nonnormal"@ {
        seq![6, 20, 29, 34, 43, 69, 95]
    } else if dimension == 512 && family == "semilinear-advection-diffusion-ramped"@ {
        seq![8, 20, 27, 34]
    } else if dimension == 512 && family == "van-der-pol-ramped"@ {
        seq![11, 14, 24, 62]
    } else {
        seq![]
    }
}

fn frozen_k1_table(family: &str, dimension: usize) -> (steps: Vec<usize>)
    ensures
        steps@ == frozen_k1_steps(dimension, family@),
{
    if dimension == 128 && family.eq("hires-ramped") {
        vec![8, 13]
    } else if dimension == 128 && family.eq("nonautonomous-stiff-forcing") {
        vec![7, 10, 12, 14, 17, 32, 46, 59, 77, 88, 94, 98, 104, 110, 116, 121, 139, 159, 170]
    } else if dimension == 128 && family.eq("robertson-ramped") {
        vec![5, 14, 17, 21]
    } else if dimension == 128 && family.eq("rotating-nonnormal") {
        vec![6, 20, 29, 34, 43, 68, 95]
    } else if dimension == 128 && family.eq("semilinear-advection-diffusion-ramped") {
        vec![9, 15]
    } else if dimension == 128 && family.eq("van-der-pol-ramped") {
        vec![11, 14, 24, 62]
    } else if dimension == 512 && family.eq("hires-ramped") {
        vec![8, 13]
    } else if dimension == 512 && family.eq("nonautonomous-stiff-forcing") {
        vec![7, 10, 12, 14, 17, 33, 46, 59, 77, 88, 93, 98, 104, 110, 115, 121, 139, 159, 170]
    } else if dimension == 512 && family.eq("robertson-ramped") {
        vec![5, 14, 17, 21]
    } else if dimension == 512 && family.eq("rotating-nonnormal") {
        vec![6, 20, 29, 34, 43, 69, 95]
    } else if dimension == 512 && family.eq("semilinear-advection-diffusion-ramped") {
        vec![8, 20, 27, 34]
    } else if dimension == 512 && family.eq("van-der-pol-ramped") {
        vec![11, 14, 24, 62]
    } else {
        Vec::new()
    }
}

/// The frozen k=1 comparator: fires on the pre-registered accepted steps of
/// each calibrated trajectory and nowhere else.
pub fn frozen_k1_decision(family: &str, dimension: usize, step: usize) -> (fire: bool)
    ensures
        fire <==> frozen_k1_steps(dimension, family@).contains(step),
{
    let steps = frozen_k1_table(family, dimension);
    let mut index: usize = 0;
    while index < steps.len()
        invariant
            index <= steps.len(),
            steps@ == frozen_k1_steps(dimension, family@),
            forall|j: int| 0 <= j < index ==> steps@[j] != step,
        decreases steps.len() - index,
    {
        if steps[index] == step {
            assert(steps@[index as int] == step);
            return true;
        }
        index += 1;
    }
    false
}

/// Persistence requirement of the development k=3 prefix-probe policy.
pub const K3_PERSISTENCE: usize = 3;

/// Decision state of a prefix-probe policy along one trajectory.
pub struct PrefixPolicyState {
    policy: G4S5B0PrefixProbePolicy,
    k3_latch: PersistenceLatch,
}

impl PrefixPolicyState {
    /// The policy this state applies.
    pub closed spec fn spec_policy(&self) -> G4S5B0PrefixProbePolicy {
        self.policy
    }

    /// The k=3 persistence latch state (requirement, streak, latched).
    pub closed spec fn k3_state(&self) -> (nat, nat, bool) {
        self.k3_latch@
    }

    /// The state is well formed: its latch is a valid k=3 latch.
    pub closed spec fn wf(&self) -> bool {
        self.k3_latch.wf() && self.k3_latch@.0 == 3
    }

    pub fn new(policy: G4S5B0PrefixProbePolicy) -> (result: CoreResult<Self>)
        ensures
            result matches Ok(state) && state.wf() && state.spec_policy() == policy
                && state.k3_state() == (3nat, 0nat, false),
    {
        match PersistenceLatch::new(K3_PERSISTENCE) {
            Ok(k3_latch) => Ok(PrefixPolicyState { policy, k3_latch }),
            Err(error) => Err(error),
        }
    }

    /// Decides whether to fire a prefix probe after the accepted step
    /// `step_index` of a (family, dimension) trajectory. `k3_signal` tells
    /// whether the causal error-drop feature of this step met its frozen
    /// threshold; only the k=3 policy reads it.
    pub fn observe_accepted(
        &mut self,
        family: &str,
        dimension: usize,
        step_index: usize,
        k3_signal: bool,
    ) -> (fire: bool)
        requires
            old(self).wf(),
        ensures
            final(self).wf(),
            final(self).spec_policy() == old(self).spec_policy(),
            old(self).spec_policy() is FrozenK1Comparator ==> {
                &&& fire == frozen_k1_steps(dimension, family@).contains(step_index)
                &&& final(self).k3_state() == old(self).k3_state()
            },
            old(self).spec_policy() is K3Development ==> (final(self).k3_state(), fire)
                == latch_step(old(self).k3_state(), k3_signal),
    {
        match self.policy {
            G4S5B0PrefixProbePolicy::FrozenK1Comparator => frozen_k1_decision(
                family,
                dimension,
                step_index,
            ),
            G4S5B0PrefixProbePolicy::K3Development => self.k3_latch.update(k3_signal),
        }
    }
}

/// Absolute per-event JVP reserve of a speculative prefix.
pub const V29_PREFIX_RESERVE_JVP: u64 = 80;

/// The JVP cap of the next speculative prefix: the absolute reserve, but
/// never more than what remains of a quarter of the committed R-JF JVPs.
pub open spec fn spec_enforced_prefix_jvp_cap(committed_rjf_jvp: u64, speculative_jvp: u64) -> nat {
    let cumulative_limit = committed_rjf_jvp / 4;
    let remaining: nat = if cumulative_limit >= speculative_jvp {
        (cumulative_limit - speculative_jvp) as nat
    } else {
        0
    };
    if remaining < 80 {
        remaining
    } else {
        80
    }
}

pub fn enforced_prefix_jvp_cap(committed_rjf_jvp: u64, speculative_jvp: u64) -> (cap: u64)
    ensures
        cap == spec_enforced_prefix_jvp_cap(committed_rjf_jvp, speculative_jvp),
        cap <= V29_PREFIX_RESERVE_JVP,
{
    let cumulative_limit = committed_rjf_jvp / 4;
    let remaining = cumulative_limit.saturating_sub(speculative_jvp);
    if V29_PREFIX_RESERVE_JVP < remaining {
        V29_PREFIX_RESERVE_JVP
    } else {
        remaining
    }
}

/// A prefix that stays within the enforced cap keeps the cumulative
/// speculative JVP count within a quarter of the committed R-JF count, and a
/// larger committed count or a smaller speculative count never lowers the cap.
pub proof fn lemma_enforced_cap_respects_budget(
    committed_rjf_jvp: u64,
    speculative_jvp: u64,
    used_jvp: u64,
    more_committed: u64,
    less_speculative: u64,
)
    requires
        speculative_jvp <= committed_rjf_jvp / 4,
        used_jvp <= spec_enforced_prefix_jvp_cap(committed_rjf_jvp, speculative_jvp),
        committed_rjf_jvp <= more_committed,
        less_speculative <= speculative_jvp,
    ensures
        speculative_jvp + used_jvp <= committed_rjf_jvp / 4,
        used_jvp <= 80,
        spec_enforced_prefix_jvp_cap(committed_rjf_jvp, speculative_jvp)
            <= spec_enforced_prefix_jvp_cap(more_committed, speculative_jvp),
        spec_enforced_prefix_jvp_cap(committed_rjf_jvp, speculative_jvp)
            <= spec_enforced_prefix_jvp_cap(committed_rjf_jvp, less_speculative),
{
    assert(committed_rjf_jvp / 4 <= more_committed / 4) by (nonlinear_arith)
        requires
            committed_rjf_jvp <= more_committed,
    ;
}

/// Paired wall-clock protocol of the frozen full-E shadow economics run.
#[derive(Clone, Copy, Debug, PartialEq, Eq)]
pub struct ShadowWallProtocol {
    pub warmup_pairs: usize,
    pub measured_pairs: usize,
    /// Minimum calibrated wall time of one arm, in nanoseconds.
    pub minimum_wall_nanos: u64,
    pub maximum_repetitions: usize,
}

/// The frozen production protocol: one warm-up pair, seven measured pairs,
/// a quarter second of calibrated wall time, at most 1024 repetitions.
pub fn production_shadow_wall_protocol() -> (protocol: ShadowWallProtocol)
    ensures
        protocol.warmup_pairs == 1,
        protocol.measured_pairs == 7,
        protocol.minimum_wall_nanos == 250_000_000,
        protocol.maximum_repetitions == 1024,
{
    ShadowWallProtocol {
        warmup_pairs: 1,
        measured_pairs: 7,
        minimum_wall_nanos: 250_000_000,
        maximum_repetitions: 1024,
    }
}

/// Repetition count after one unsuccessful calibration round: doubled, and
/// clamped to the maximum.
pub open spec fn spec_next_calibration_repetitions(current: usize, maximum: usize) -> nat {
    let doubled: nat = if 2 * current <= usize::MAX {
        (2 * current) as nat
    } else {
        usize::MAX as nat
    };
    if doubled < maximum {
        doubled
    } else {
        maximum as nat
    }
}

pub fn next_calibration_repetitions(current: usize, maximum: usize) -> (next: usize)
    ensures
        next == spec_next_calibration_repetitions(current, maximum),
{
    let doubled = if current > usize::MAX / 2 {
        usize::MAX
    } else {
        current * 2
    };
    if doubled < maximum {
        doubled
    } else {
        maximum
    }
}

/// Calibration strictly progresses toward the maximum and never passes it,
/// so the doubling calibration loop terminates.
pub proof fn lemma_calibration_progress(current: usize, maximum: usize)
    requires
        1 <= current < maximum,
    ensures
        current < spec_next_calibration_repetitions(current, maximum) <= maximum,
{
}

/// Outcome of one calibration round.
#[derive(Clone, Copy, Debug, PartialEq, Eq)]
pub enum CalibrationStep {
    /// Measure again with this many repetitions.
    Repeat(usize),
    /// Calibration is done; freeze this repetition count.
    Freeze(usize),
}

/// Calibration decision after timing `repetitions` repetitions of the
/// reference arm: freeze once the arm took at least the minimum wall time or
/// the repetition cap is reached, otherwise double the repetitions.
pub fn calibration_step(
    minimum_wall_nanos: u64,
    maximum_repetitions: usize,
    repetitions: usize,
    measured_wall_nanos: u64,
) -> (step: CalibrationStep)
    ensures
        (measured_wall_nanos >= minimum_wall_nanos || repetitions >= maximum_repetitions)
            ==> step == CalibrationStep::Freeze(repetitions),
        !(measured_wall_nanos >= minimum_wall_nanos || repetitions >= maximum_repetitions)
            ==> (step matches CalibrationStep::Repeat(next)
            && next == spec_next_calibration_repetitions(repetitions, maximum_repetitions)),
{
    if measured_wall_nanos >= minimum_wall_nanos || repetitions >= maximum_repetitions {
        CalibrationStep::Freeze(repetitions)
    } else {
        CalibrationStep::Repeat(next_calibration_repetitions(repetitions, maximum_repetitions))
    }
}

/// Paired measurements alternate their order: even pairs time R-JF first.
pub fn pair_runs_rjf_first(pair_index: usize) -> (rjf_first: bool)
    ensures
        rjf_first <==> pair_index % 2 == 0,
{
    pair_index % 2 == 0
}

/// Order label recorded for a paired measurement.
pub fn shadow_wall_pair_order(pair_index: usize) -> (order: &'static str)
    ensures
        pair_index % 2 == 0 ==> order@ == "rjf-first"@,
        pair_index % 2 != 0 ==> order@ == "shadow-first"@,
{
    if pair_runs_rjf_first(pair_index) {
        "rjf-first"
    } else {
        "shadow-first"
    }
}

/// Which suite a timed arm executes.
#[derive(Clone, Copy, Debug, PartialEq, Eq)]
pub enum ShadowWallMode {
    RjfOnly,
    FrozenFullE,
}

impl ShadowWallMode {
    pub fn label(self) -> (label: &'static str)
        ensures
            self is RjfOnly ==> label@ == "rjf-only"@,
            self is FrozenFullE ==> label@ == "frozen-full-e-shadow"@,
    {
        match self {
            ShadowWallMode::RjfOnly => "rjf-only",
            ShadowWallMode::FrozenFullE => "frozen-full-e-shadow",
        }
    }
}

/// Paired wall authority is valid only for a build whose Cargo profile
/// directory is the dedicated measurement profile.
pub fn measurement_build_verified(profile_directory: &str) -> (verified: bool)
    ensures
        verified <==> profile_directory@ == "measurement"@,
{
    profile_directory.eq("measurement")
}

/// Outcome of comparing a trace against the reference R-JF attempt trace.
#[derive(Clone, Debug, PartialEq, Eq)]
pub struct G4S5B0RjfParitySummary {
    pub attempt_rows_exact_excluding_wall: bool,
    pub accepted_rows_exact_excluding_wall: bool,
    pub trajectories_exact: bool,
    pub passed: bool,
}

/// Row-by-row exact agreement of attempt sequences (wall time excluded).
pub open spec fn attempts_exact(l: Seq<G4S5B0RjfAttemptRecord>, r: Seq<G4S5B0RjfAttemptRecord>) -> bool {
    l.len() == r.len() && forall|i: int| 0 <= i < l.len() ==> attempt_record_exact(l[i], r[i])
}

/// Row-by-row exact agreement of accepted-step sequences (R-JF wall time excluded).
pub open spec fn steps_exact(l: Seq<G4S5B0StepRecord>, r: Seq<G4S5B0StepRecord>) -> bool {
    l.len() == r.len() && forall|i: int| 0 <= i < l.len() ==> step_record_exact(l[i], r[i])
}

/// Row-by-row exact agreement of trajectory summaries.
pub open spec fn trajectories_exact(l: Seq<G4S5B0TrajectoryRecord>, r: Seq<G4S5B0TrajectoryRecord>) -> bool {
    l.len() == r.len() && forall|i: int| 0 <= i < l.len() ==> trajectory_record_exact(l[i], r[i])
}

fn all_attempts_exact(left: &[G4S5B0RjfAttemptRecord], right: &[G4S5B0RjfAttemptRecord]) -> (exact:
    bool)
    ensures
        exact == attempts_exact(left@, right@),
{
    if left.len() != right.len() {
        return false;
    }
    let mut i: usize = 0;
    while i < left.len()
        invariant
            left.len() == right.len(),
            i <= left.len(),
            forall|j: int| 0 <= j < i ==> attempt_record_exact(left@[j], right@[j]),
        decreases left.len() - i,
    {
        if !attempt_row_exact_excluding_wall(&left[i], &right[i]) {
            return false;
        }
        i += 1;
    }
    true
}

fn all_steps_exact(left: &[G4S5B0StepRecord], right: &[G4S5B0StepRecord]) -> (exact: bool)
    ensures
        exact == steps_exact(left@, right@),
{
    if left.len() != right.len() {
        return false;
    }
    let mut i: usize = 0;
    while i < left.len()
        invariant
            left.len() == right.len(),
            i <= left.len(),
            forall|j: int| 0 <= j < i ==> step_record_exact(left@[j], right@[j]),
        decreases left.len() - i,
    {
        if !accepted_row_exact_excluding_wall(&left[i], &right[i]) {
            return false;
        }
        i += 1;
    }
    true
}

fn all_trajectories_exact(left: &[G4S5B0TrajectoryRecord], right: &[G4S5B0TrajectoryRecord]) -> (exact:
    bool)
    ensures
        exact == trajectories_exact(left@, right@),
{
    if left.len() != right.len() {
        return false;
    }
    let mut i: usize = 0;
    while i < left.len()
        invariant
            left.len() == right.len(),
            i <= left.len(),
            forall|j: int| 0 <= j < i ==> trajectory_record_exact(left@[j], right@[j]),
        decreases left.len() - i,
    {
        if !trajectory_exact(&left[i], &right[i]) {
            return false;
        }
        i += 1;
    }
    true
}

/// Compares a re-executed R-JF trace with the reference trace: attempt and
/// accepted rows must agree in everything but wall-clock time, trajectory
/// summaries in everything.
pub fn rjf_parity(
    attempts: &[G4S5B0RjfAttemptRecord],
    accepted: &[G4S5B0StepRecord],
    trajectories: &[G4S5B0TrajectoryRecord],
    reference: &G4S5B0AttemptTraceRecord,
) -> (parity: G4S5B0RjfParitySummary)
    ensures
        parity.attempt_rows_exact_excluding_wall == attempts_exact(
            attempts@,
            reference.attempt_rows@,
        ),
        parity.accepted_rows_exact_excluding_wall == steps_exact(
            accepted@,
            reference.accepted_rows@,
        ),
        parity.trajectories_exact == trajectories_exact(trajectories@, reference.trajectories@),
        parity.passed == (parity.attempt_rows_exact_excluding_wall
            && parity.accepted_rows_exact_excluding_wall && parity.trajectories_exact),
{
    let attempt_rows_exact_excluding_wall = all_attempts_exact(
        attempts,
        reference.attempt_rows.as_slice(),
    );
    let accepted_rows_exact_excluding_wall = all_steps_exact(
        accepted,
        reference.accepted_rows.as_slice(),
    );
    let trajectories_exact = all_trajectories_exact(
        trajectories,
        reference.trajectories.as_slice(),
    );
    G4S5B0RjfParitySummary {
        attempt_rows_exact_excluding_wall,
        accepted_rows_exact_excluding_wall,
        trajectories_exact,
        passed: attempt_rows_exact_excluding_wall && accepted_rows_exact_excluding_wall
            && trajectories_exact,
    }
}

/// The family labels of a sequence of trajectories.
pub open spec fn trajectory_families(trajectories: Seq<G4S5B0TrajectoryRecord>) -> Seq<Seq<char>> {
    trajectories.map_values(|t: G4S5B0TrajectoryRecord| t.family@)
}

/// The set of the six atlas family labels.
pub open spec fn all_family_labels() -> Set<Seq<char>> {
    set![
        family_label(G4S5B0Family::RobertsonRamped),
        family_label(G4S5B0Family::HiresRamped),
        family_label(G4S5B0Family::VanDerPolRamped),
        family_label(G4S5B0Family::RotatingNonnormal),
        family_label(G4S5B0Family::NonautonomousStiffForcing),
        family_label(G4S5B0Family::SemilinearAdvectionDiffusionRamped),
    ]
}

/// Number of distinct families among the trajectories.
pub fn family_count(trajectories: &[G4S5B0TrajectoryRecord]) -> (count: usize)
    ensures
        count == trajectory_families(trajectories@).to_set().len(),
{
    let mut distinct: Vec<String> = Vec::new();
    let ghost families = trajectory_families(trajectories@);
    let mut i: usize = 0;
    while i < trajectories.len()
        invariant
            i <= trajectories.len(),
            families == trajectory_families(trajectories@),
            distinct@.map_values(|s: String| s@).no_duplicates(),
            distinct@.map_values(|s: String| s@).to_set() =~= families.subrange(0, i as int).to_set(),
        decreases trajectories.len() - i,
    {
        let family = &trajectories[i].family;
        let mut found = false;
        let mut j: usize = 0;
        while j < distinct.len()
            invariant
                j <= distinct.len(),
                found ==> distinct@.map_values(|s: String| s@).contains(family@),
                !found ==> forall|k: int| 0 <= k < j ==> distinct@[k]@ != family@,
            decreases distinct.len() - j,
        {
            if distinct[j] == *family {
                found = true;
                assert(distinct@.map_values(|s: String| s@)[j as int] == family@);
            }
            j += 1;
        }
        proof {
            let before = families.subrange(0, i as int);
            assert(families.subrange(0, i + 1) =~= before.push(families[i as int]));
            before.lemma_push_to_set_commute(families[i as int]);
            assert(families[i as int] == family@);
        }
        if !found {
            let ghost old_view = distinct@.map_values(|s: String| s@);
            proof {
                old_view.lemma_push_to_set_commute(family@);
                assert(!old_view.contains(family@));
            }
            let ghost old_distinct = distinct@;
            let copy = trajectories[i].family.clone();
            distinct.push(copy);
            proof {
                let new_view = distinct@.map_values(|s: String| s@);
                assert(new_view =~= old_view.push(family@));
                assert forall|a: int, b: int|
                    0 <= a < new_view.len() && 0 <= b < new_view.len() && a != b implies new_view[a]
                    != new_view[b] by {
                    if a < old_view.len() && b < old_view.len() {
                        assert(old_view[a] != old_view[b]);
                    } else if a < old_view.len() {
                        assert(old_view.contains(old_view[a]));
                    } else {
                        assert(old_view.contains(old_view[b]));
                    }
                }
            }
        } else {
            proof {
                let v = distinct@.map_values(|s: String| s@);
                assert(v.to_set().contains(family@));
                assert(v.to_set().insert(family@) =~= v.to_set());
            }
        }
        i += 1;
    }
    proof {
        assert(families.subrange(0, trajectories@.len() as int) =~= families);
        distinct@.map_values(|s: String| s@).unique_seq_to_set();
    }
    distinct.len()
}

fn is_atlas_family_label(label: &str) -> (known: bool)
    ensures
        known == all_family_labels().contains(label@),
{
    label.eq(G4S5B0Family::RobertsonRamped.as_str()) || label.eq(
        G4S5B0Family::HiresRamped.as_str(),
    ) || label.eq(G4S5B0Family::VanDerPolRamped.as_str()) || label.eq(
        G4S5B0Family::RotatingNonnormal.as_str(),
    ) || label.eq(G4S5B0Family::NonautonomousStiffForcing.as_str()) || label.eq(
        G4S5B0Family::SemilinearAdvectionDiffusionRamped.as_str(),
    )
}

fn has_family(trajectories: &[G4S5B0TrajectoryRecord], label: &str) -> (present: bool)
    ensures
        present == trajectory_families(trajectories@).contains(label@),
{
    let ghost families = trajectory_families(trajectories@);
    let mut i: usize = 0;
    while i < trajectories.len()
        invariant
            i <= trajectories.len(),
            families == trajectory_families(trajectories@),
            forall|j: int| 0 <= j < i ==> families[j] != label@,
        decreases trajectories.len() - i,
    {
        if trajectories[i].family.as_str().eq(label) {
            assert(families[i as int] == label@);
            return true;
        }
        i += 1;
    }
    false
}

/// Whether the trajectories cover exactly the six atlas families: every
/// family present is an atlas family, and every atlas family is present.
pub fn frozen_family_set_is_exact(trajectories: &[G4S5B0TrajectoryRecord]) -> (exact: bool)
    ensures
        exact == (trajectory_families(trajectories@).to_set() == all_family_labels()),
{
    let ghost families = trajectory_families(trajectories@);
    let mut i: usize = 0;
    while i < trajectories.len()
        invariant
            i <= trajectories.len(),
            families == trajectory_families(trajectories@),
            forall|j: int| 0 <= j < i ==> all_family_labels().contains(families[j]),
        decreases trajectories.len() - i,
    {
        if !is_atlas_family_label(trajectories[i].family.as_str()) {
            proof {
                assert(families.to_set().contains(families[i as int]));
            }
            return false;
        }
        i += 1;
    }
    let labels = [
        G4S5B0Family::RobertsonRamped.as_str(),
        G4S5B0Family::HiresRamped.as_str(),
        G4S5B0Family::VanDerPolRamped.as_str(),
        G4S5B0Family::RotatingNonnormal.as_str(),
        G4S5B0Family::NonautonomousStiffForcing.as_str(),
        G4S5B0Family::SemilinearAdvectionDiffusionRamped.as_str(),
    ];
    let mut k: usize = 0;
    while k < 6
        invariant
            k <= 6,
            families == trajectory_families(trajectories@),
            labels@.len() == 6,
            labels@[0]@ == family_label(G4S5B0Family::RobertsonRamped),
            labels@[1]@ == family_label(G4S5B0Family::HiresRamped),
            labels@[2]@ == family_label(G4S5B0Family::VanDerPolRamped),
            labels@[3]@ == family_label(G4S5B0Family::RotatingNonnormal),
            labels@[4]@ == family_label(G4S5B0Family::NonautonomousStiffForcing),
            labels@[5]@ == family_label(G4S5B0Family::SemilinearAdvectionDiffusionRamped),
            forall|m: int| 0 <= m < k ==> families.contains(#[trigger] labels@[m]@),
        decreases 6 - k,
    {
        if !has_family(trajectories, labels[k]) {
            proof {
                assert(all_family_labels().contains(labels@[k as int]@));
                assert(!families.to_set().contains(labels@[k as int]@));
            }
            return false;
        }
        k += 1;
    }
    proof {
        assert(families.contains(labels@[0]@));
        assert(families.contains(labels@[1]@));
        assert(families.contains(labels@[2]@));
        assert(families.contains(labels@[3]@));
        assert(families.contains(labels@[4]@));
        assert(families.contains(labels@[5]@));
        assert forall|x: Seq<char>| families.to_set().contains(x) implies all_family_labels().contains(x) by {
            let j = choose|j: int| 0 <= j < families.len() && families[j] == x;
        }
        assert(families.to_set() =~= all_family_labels());
    }
    true
}

/// The work counters that the frozen full-E shadow ledger reads.
#[derive(Clone, Copy, Debug, PartialEq, Eq)]
pub struct ShadowWorkCounts {
    pub jacobian_builds: u64,
    pub direct_factorizations: u64,
    pub nonlinear_solves: u64,
    pub nonlinear_iterations: u64,
    pub nonlinear_residual_evaluations: u64,
    pub nonlinear_jacobian_evaluations: u64,
    pub jvp_vectors: u64,
}

/// The shadow never performed implicit (Jacobian, factorization or
/// nonlinear-solver) work.
pub open spec fn spec_expensive_work_zero(work: ShadowWorkCounts) -> bool {
    &&& work.jacobian_builds == 0
    &&& work.direct_factorizations == 0
    &&& work.nonlinear_solves == 0
    &&& work.nonlinear_iterations == 0
    &&& work.nonlinear_residual_evaluations == 0
    &&& work.nonlinear_jacobian_evaluations == 0
}

pub fn frozen_shadow_expensive_work_zero(work: ShadowWorkCounts) -> (zero: bool)
    ensures
        zero == spec_expensive_work_zero(work),
{
    work.jacobian_builds == 0 && work.direct_factorizations == 0 && work.nonlinear_solves == 0
        && work.nonlinear_iterations == 0 && work.nonlinear_residual_evaluations == 0
        && work.nonlinear_jacobian_evaluations == 0
}

/// Ledger fields of one frozen full-E shadow event.
#[derive(Clone, Copy, Debug, PartialEq, Eq)]
pub struct FrozenShadowLedgerRow {
    pub committed_rjf_jvp_before_target: u64,
    pub prefix_speculative_jvp_before_target: u64,
    pub prefix_speculative_jvp_after_target: u64,
    pub total_speculative_jvp_before_target: u64,
    pub total_speculative_jvp_after_target: u64,
    pub budget_cap_jvp: u64,
    pub budget_admitted: bool,
    pub budget_exhausted: bool,
    pub budget_breached: bool,
    pub prefix_succeeded: bool,
    pub recommended: bool,
    pub retained_level2_resumed: bool,
    pub shadow_full_e_completed: bool,
    pub shadow_full_e_locally_admissible: bool,
    pub work_roundtrip_exact: bool,
    pub prefix_work: Option<ShadowWorkCounts>,
    pub continuation_work: Option<ShadowWorkCounts>,
    pub shadow_full_e_work: Option<ShadowWorkCounts>,
}

/// Saturating addition of two `u64` counters.
pub open spec fn sat_add_u64(a: u64, b: u64) -> u64 {
    if a + b <= u64::MAX {
        (a + b) as u64
    } else {
        u64::MAX
    }
}

/// JVP vectors charged by optional work (none charges nothing).
pub open spec fn work_jvp(work: Option<ShadowWorkCounts>) -> u64 {
    match work {
        Some(w) => w.jvp_vectors,
        None => 0,
    }
}

/// An event's ledger is exact: both speculative counters advanced by exactly
/// the charged work, the cap is the enforced cap, and endpoint work is
/// present exactly for recommended events.
pub open spec fn spec_row_ledger_exact(row: FrozenShadowLedgerRow) -> bool {
    let prefix_jvp = work_jvp(row.prefix_work);
    let continuation_jvp = work_jvp(row.continuation_work);
    &&& row.prefix_speculative_jvp_after_target == sat_add_u64(
        row.prefix_speculative_jvp_before_target,
        prefix_jvp,
    )
    &&& row.total_speculative_jvp_after_target == sat_add_u64(
        sat_add_u64(row.total_speculative_jvp_before_target, prefix_jvp),
        continuation_jvp,
    )
    &&& row.budget_cap_jvp == spec_enforced_prefix_jvp_cap(
        row.committed_rjf_jvp_before_target,
        row.prefix_speculative_jvp_before_target,
    )
    &&& if row.recommended {
        row.work_roundtrip_exact && row.continuation_work is Some && row.shadow_full_e_work is Some
    } else {
        !row.retained_level2_resumed && row.continuation_work is None
            && row.shadow_full_e_work is None
    }
}

fn sat_add(a: u64, b: u64) -> (sum: u64)
    ensures
        sum == sat_add_u64(a, b),
{
    if a > u64::MAX - b {
        u64::MAX
    } else {
        a + b
    }
}

fn optional_jvp(work: Option<ShadowWorkCounts>) -> (jvp: u64)
    ensures
        jvp == work_jvp(work),
{
    match work {
        Some(w) => w.jvp_vectors,
        None => 0,
    }
}

pub fn frozen_shadow_row_ledger_exact(row: &FrozenShadowLedgerRow) -> (exact: bool)
    ensures
        exact == spec_row_ledger_exact(*row),
{
    let prefix_jvp = optional_jvp(row.prefix_work);
    let continuation_jvp = optional_jvp(row.continuation_work);
    let prefix_state_exact = row.prefix_speculative_jvp_after_target == sat_add(
        row.prefix_speculative_jvp_before_target,
        prefix_jvp,
    );
    let total_state_exact = row.total_speculative_jvp_after_target == sat_add(
        sat_add(row.total_speculative_jvp_before_target, prefix_jvp),
        continuation_jvp,
    );
    let cap_exact = row.budget_cap_jvp == enforced_prefix_jvp_cap(
        row.committed_rjf_jvp_before_target,
        row.prefix_speculative_jvp_before_target,
    );
    let endpoint_ledger_exact = if row.recommended {
        row.work_roundtrip_exact && row.continuation_work.is_some()
            && row.shadow_full_e_work.is_some()
    } else {
        !row.retained_level2_resumed && row.continuation_work.is_none()
            && row.shadow_full_e_work.is_none()
    };
    prefix_state_exact && total_state_exact && cap_exact && endpoint_ledger_exact
}

/// Optional work that, when present, performed no implicit work.
pub open spec fn opt_expensive_work_zero(work: Option<ShadowWorkCounts>) -> bool {
    match work {
        Some(w) => spec_expensive_work_zero(w),
        None => true,
    }
}

fn optional_expensive_work_zero(work: Option<ShadowWorkCounts>) -> (zero: bool)
    ensures
        zero == opt_expensive_work_zero(work),
{
    match work {
        Some(w) => frozen_shadow_expensive_work_zero(w),
        None => true,
    }
}

pub open spec fn is_recommended() -> spec_fn(FrozenShadowLedgerRow) -> bool {
    |r: FrozenShadowLedgerRow| r.recommended
}

pub open spec fn is_resumed() -> spec_fn(FrozenShadowLedgerRow) -> bool {
    |r: FrozenShadowLedgerRow| r.retained_level2_resumed
}

pub open spec fn is_completed() -> spec_fn(FrozenShadowLedgerRow) -> bool {
    |r: FrozenShadowLedgerRow| r.shadow_full_e_completed
}

pub open spec fn is_continuation_failure() -> spec_fn(FrozenShadowLedgerRow) -> bool {
    |r: FrozenShadowLedgerRow| r.recommended && !r.shadow_full_e_completed
}

pub open spec fn is_unsafe_recommendation() -> spec_fn(FrozenShadowLedgerRow) -> bool {
    |r: FrozenShadowLedgerRow|
        r.recommended && r.shadow_full_e_completed && !r.shadow_full_e_locally_admissible
}

pub open spec fn is_budget_breach() -> spec_fn(FrozenShadowLedgerRow) -> bool {
    |r: FrozenShadowLedgerRow| r.budget_breached
}

pub open spec fn is_budget_exhaustion() -> spec_fn(FrozenShadowLedgerRow) -> bool {
    |r: FrozenShadowLedgerRow| r.budget_exhausted
}

/// An admitted prefix transaction ended in success or in a charged
/// budget-exhaustion abstention.
pub open spec fn spec_transaction_resolved(r: FrozenShadowLedgerRow) -> bool {
    !r.budget_admitted || r.prefix_succeeded || r.budget_exhausted
}

/// None of the event's prefix, continuation or full-E work was implicit.
pub open spec fn spec_row_expensive_work_zero(r: FrozenShadowLedgerRow) -> bool {
    opt_expensive_work_zero(r.prefix_work) && opt_expensive_work_zero(r.continuation_work)
        && opt_expensive_work_zero(r.shadow_full_e_work)
}

/// Counts and ledger checks over all events of a frozen full-E shadow run.
#[derive(Clone, Copy, Debug, PartialEq, Eq)]
pub struct FrozenShadowLedgerSummary {
    pub recommendations: usize,
    pub retained_level2_resumptions: usize,
    pub shadow_full_e_completions: usize,
    pub shadow_full_e_failures: usize,
    pub unsafe_recommendations: usize,
    pub budget_breaches: usize,
    pub budget_exhaustions: usize,
    pub prefix_transactions_resolved: bool,
    pub row_ledgers_exact: bool,
    pub resume_cardinality_exact: bool,
    pub shadow_implicit_expensive_work_zero: bool,
}

pub fn summarize_frozen_shadow_ledger(rows: &[FrozenShadowLedgerRow]) -> (summary:
    FrozenShadowLedgerSummary)
    ensures
        summary.recommendations == count_matching(rows@, is_recommended()),
        summary.retained_level2_resumptions == count_matching(rows@, is_resumed()),
        summary.shadow_full_e_completions == count_matching(rows@, is_completed()),
        summary.shadow_full_e_failures == count_matching(rows@, is_continuation_failure()),
        summary.unsafe_recommendations == count_matching(rows@, is_unsafe_recommendation()),
        summary.budget_breaches == count_matching(rows@, is_budget_breach()),
        summary.budget_exhaustions == count_matching(rows@, is_budget_exhaustion()),
        summary.prefix_transactions_resolved == forall|i: int|
            0 <= i < rows@.len() ==> spec_transaction_resolved(#[trigger] rows@[i]),
        summary.row_ledgers_exact == forall|i: int|
            0 <= i < rows@.len() ==> spec_row_ledger_exact(#[trigger] rows@[i]),
        summary.resume_cardinality_exact == (summary.recommendations
            == summary.retained_level2_resumptions && forall|i: int|
            0 <= i < rows@.len() ==> #[trigger] rows@[i].recommended
                == rows@[i].retained_level2_resumed),
        summary.shadow_implicit_expensive_work_zero == forall|i: int|
            0 <= i < rows@.len() ==> spec_row_expensive_work_zero(#[trigger] rows@[i]),
{
    let mut recommendations: usize = 0;
    let mut resumptions: usize = 0;
    let mut completions: usize = 0;
    let mut failures: usize = 0;
    let mut unsafe_recommendations: usize = 0;
    let mut breaches: usize = 0;
    let mut exhaustions: usize = 0;
    let mut resolved = true;
    let mut ledgers_exact = true;
    let mut pairwise_resumed = true;
    let mut work_zero = true;
    let mut i: usize = 0;
    while i < rows.len()
        invariant
            i <= rows.len(),
            recommendations == count_matching(rows@.subrange(0, i as int), is_recommended()),
            resumptions == count_matching(rows@.subrange(0, i as int), is_resumed()),
            completions == count_matching(rows@.subrange(0, i as int), is_completed()),
            failures == count_matching(rows@.subrange(0, i as int), is_continuation_failure()),
            unsafe_recommendations == count_matching(
                rows@.subrange(0, i as int),
                is_unsafe_recommendation(),
            ),
            breaches == count_matching(rows@.subrange(0, i as int), is_budget_breach()),
            exhaustions == count_matching(rows@.subrange(0, i as int), is_budget_exhaustion()),
            recommendations <= i && resumptions <= i && completions <= i && failures <= i
                && unsafe_recommendations <= i && breaches <= i && exhaustions <= i,
            resolved == forall|j: int| 0 <= j < i ==> spec_transaction_resolved(#[trigger] rows@[j]),
            ledgers_exact == forall|j: int| 0 <= j < i ==> spec_row_ledger_exact(#[trigger] rows@[j]),
            pairwise_resumed == forall|j: int|
                0 <= j < i ==> #[trigger] rows@[j].recommended == rows@[j].retained_level2_resumed,
            work_zero == forall|j: int|
                0 <= j < i ==> spec_row_expensive_work_zero(#[trigger] rows@[j]),
        decreases rows.len() - i,
    {
        let row = &rows[i];
        proof {
            lemma_count_matching_prefix(rows@, is_recommended(), i as int);
            lemma_count_matching_prefix(rows@, is_resumed(), i as int);
            lemma_count_matching_prefix(rows@, is_completed(), i as int);
            lemma_count_matching_prefix(rows@, is_continuation_failure(), i as int);
            lemma_count_matching_prefix(rows@, is_unsafe_recommendation(), i as int);
            lemma_count_matching_prefix(rows@, is_budget_breach(), i as int);
            lemma_count_matching_prefix(rows@, is_budget_exhaustion(), i as int);
        }
        if row.recommended {
            recommendations += 1;
        }
        if row.retained_level2_resumed {
            resumptions += 1;
        }
        if row.shadow_full_e_completed {
            completions += 1;
        }
        if row.recommended && !row.shadow_full_e_completed {
            failures += 1;
        }
        if row.recommended && row.shadow_full_e_completed && !row.shadow_full_e_locally_admissible {
            unsafe_recommendations += 1;
        }
        if row.budget_breached {
            breaches += 1;
        }
        if row.budget_exhausted {
            exhaustions += 1;
        }
        resolved = resolved && (!row.budget_admitted || row.prefix_succeeded
            || row.budget_exhausted);
        ledgers_exact = ledgers_exact && frozen_shadow_row_ledger_exact(row);
        pairwise_resumed = pairwise_resumed && row.recommended == row.retained_level2_resumed;
        work_zero = work_zero && optional_expensive_work_zero(row.prefix_work)
            && optional_expensive_work_zero(row.continuation_work)
            && optional_expensive_work_zero(row.shadow_full_e_work);
        i += 1;
    }
    proof {
        assert(rows@.subrange(0, rows@.len() as int) =~= rows@);
    }
    FrozenShadowLedgerSummary {
        recommendations,
        retained_level2_resumptions: resumptions,
        shadow_full_e_completions: completions,
        shadow_full_e_failures: failures,
        unsafe_recommendations,
        budget_breaches: breaches,
        budget_exhaustions: exhaustions,
        prefix_transactions_resolved: resolved,
        row_ledgers_exact: ledgers_exact,
        resume_cardinality_exact: recommendations == resumptions && pairwise_resumed,
        shadow_implicit_expensive_work_zero: work_zero,
    }
}

/// Hard gates of the frozen full-E shadow run.
#[derive(Clone, Debug, PartialEq, Eq)]
pub struct G4S5B0FrozenFullEShadowHardGates {
    pub all_rjf_trajectories_successful: bool,
    pub rjf_trace_exact_excluding_wall: bool,
    pub zero_budget_breaches: bool,
    pub prefix_transactions_resolved: bool,
    pub zero_continuation_failures: bool,
    pub zero_unsafe_recommendations: bool,
    pub work_ledgers_exact: bool,
    pub realized_work_ratios_finite: bool,
    pub resume_cardinality_exact: bool,
    pub shadow_implicit_expensive_work_zero: bool,
    pub active_switching_false: bool,
    pub passed: bool,
}

/// Assembles the hard gates from the R-JF outcome, the parity summary, the
/// ledger summary and the finiteness of the realized work ratios; the run
/// passes only when every gate holds.
pub fn frozen_full_e_shadow_hard_gates(
    all_rjf_trajectories_successful: bool,
    parity: &G4S5B0RjfParitySummary,
    ledger: &FrozenShadowLedgerSummary,
    realized_work_ratios_finite: bool,
) -> (gates: G4S5B0FrozenFullEShadowHardGates)
    ensures
        gates.all_rjf_trajectories_successful == all_rjf_trajectories_successful,
        gates.rjf_trace_exact_excluding_wall == parity.passed,
        gates.zero_budget_breaches == (ledger.budget_breaches == 0),
        gates.prefix_transactions_resolved == ledger.prefix_transactions_resolved,
        gates.zero_continuation_failures == (ledger.shadow_full_e_failures == 0),
        gates.zero_unsafe_recommendations == (ledger.unsafe_recommendations == 0),
        gates.work_ledgers_exact == ledger.row_ledgers_exact,
        gates.realized_work_ratios_finite == realized_work_ratios_finite,
        gates.resume_cardinality_exact == ledger.resume_cardinality_exact,
        gates.shadow_implicit_expensive_work_zero == ledger.shadow_implicit_expensive_work_zero,
        gates.active_switching_false,
        gates.passed == (gates.all_rjf_trajectories_successful
            && gates.rjf_trace_exact_excluding_wall && gates.zero_budget_breaches
            && gates.prefix_transactions_resolved && gates.zero_continuation_failures
            && gates.zero_unsafe_recommendations && gates.work_ledgers_exact
            && gates.realized_work_ratios_finite && gates.resume_cardinality_exact
            && gates.shadow_implicit_expensive_work_zero && gates.active_switching_false),
{
    let zero_budget_breaches = ledger.budget_breaches == 0;
    let zero_continuation_failures = ledger.shadow_full_e_failures == 0;
    let zero_unsafe_recommendations = ledger.unsafe_recommendations == 0;
    let passed = all_rjf_trajectories_successful && parity.passed && zero_budget_breaches
        && ledger.prefix_transactions_resolved && zero_continuation_failures
        && zero_unsafe_recommendations && ledger.row_ledgers_exact && realized_work_ratios_finite
        && ledger.resume_cardinality_exact && ledger.shadow_implicit_expensive_work_zero;
    G4S5B0FrozenFullEShadowHardGates {
        all_rjf_trajectories_successful,
        rjf_trace_exact_excluding_wall: parity.passed,
        zero_budget_breaches,
        prefix_transactions_resolved: ledger.prefix_transactions_resolved,
        zero_continuation_failures,
        zero_unsafe_recommendations,
        work_ledgers_exact: ledger.row_ledgers_exact,
        realized_work_ratios_finite,
        resume_cardinality_exact: ledger.resume_cardinality_exact,
        shadow_implicit_expensive_work_zero: ledger.shadow_implicit_expensive_work_zero,
        active_switching_false: true,
        passed,
    }
}

/// The ledger's zero-count gates mean what they say: the summary counts no
/// budget breach, no continuation failure or no unsafe recommendation
/// exactly when no event breached its budget, no recommended event failed to
/// complete, or no recommended completed event was locally inadmissible.
pub proof fn lemma_zero_ledger_counts_mean_no_offending_event(rows: Seq<FrozenShadowLedgerRow>)
    ensures
        count_matching(rows, is_budget_breach()) == 0 <==> forall|i: int|
            0 <= i < rows.len() ==> !(#[trigger] rows[i]).budget_breached,
        count_matching(rows, is_continuation_failure()) == 0 <==> forall|i: int|
            0 <= i < rows.len() ==> !((#[trigger] rows[i]).recommended
                && !rows[i].shadow_full_e_completed),
        count_matching(rows, is_unsafe_recommendation()) == 0 <==> forall|i: int|
            0 <= i < rows.len() ==> !((#[trigger] rows[i]).recommended
                && rows[i].shadow_full_e_completed && !rows[i].shadow_full_e_locally_admissible),
{
    lemma_count_matching_zero(rows, is_budget_breach());
    lemma_count_matching_zero(rows, is_continuation_failure());
    lemma_count_matching_zero(rows, is_unsafe_recommendation());
}

/// No floating-point field of an attempt row is a NaN.
pub open spec fn attempt_has_no_nan(a: G4S5B0RjfAttemptRecord) -> bool {
    &&& !f64_bits_is_nan(a.rtol_bits)
    &&& !f64_bits_is_nan(a.t_start_bits)
    &&& !f64_bits_is_nan(a.h_bits)
    &&& match a.error_norm_bits {
        Some(bits) => !f64_bits_is_nan(bits),
        None => true,
    }
}

/// Attempt parity excludes exactly the wall-clock time: two attempt rows
/// are exact when, and only when, they agree in every other field and those
/// floating-point fields are not NaN (a NaN never equals itself).
pub proof fn lemma_attempt_parity_excludes_only_wall(a: G4S5B0RjfAttemptRecord, b: G4S5B0RjfAttemptRecord)
    ensures
        attempt_record_exact(a, b) <==> (attempt_same_except_wall(a, b) && attempt_has_no_nan(a)),
{
}

/// Six distinct atlas families: a trace whose family set is exact has
/// exactly six distinct families.
pub proof fn lemma_exact_family_set_has_six_families(trajectories: Seq<G4S5B0TrajectoryRecord>)
    requires
        trajectory_families(trajectories).to_set() == all_family_labels(),
    ensures
        trajectory_families(trajectories).to_set().len() == 6,
{
    reveal_strlit("robertson-ramped");
    reveal_strlit("hires-ramped");
    reveal_strlit("van-der-pol-ramped");
    reveal_strlit("rotating-nonnormal");
    reveal_strlit("nonautonomous-stiff-forcing");
    reveal_strlit("semilinear-advection-diffusion-ramped");
    let l0 = family_label(G4S5B0Family::RobertsonRamped);
    let l1 = family_label(G4S5B0Family::HiresRamped);
    let l2 = family_label(G4S5B0Family::VanDerPolRamped);
    let l3 = family_label(G4S5B0Family::RotatingNonnormal);
    let l4 = family_label(G4S5B0Family::NonautonomousStiffForcing);
    let l5 = family_label(G4S5B0Family::SemilinearAdvectionDiffusionRamped);
    assert(l0[0] != l1[0] && l0[0] != l2[0] && l0[2] != l3[2] && l0[0] != l4[0] && l0[0] != l5[0]);
    assert(l1[0] != l2[0] && l1[0] != l3[0] && l1[0] != l4[0] && l1[0] != l5[0]);
    assert(l2[0] != l3[0] && l2[0] != l4[0] && l2[0] != l5[0]);
    assert(l3[0] != l4[0] && l3[0] != l5[0]);
    assert(l4[0] != l5[0]);
    let s = Set::<Seq<char>>::empty().insert(l0).insert(l1).insert(l2).insert(l3).insert(l4).insert(l5);
    assert(s =~= all_family_labels());
    assert(Set::<Seq<char>>::empty().insert(l0).len() == 1);
    assert(Set::<Seq<char>>::empty().insert(l0).insert(l1).len() == 2);
    assert(Set::<Seq<char>>::empty().insert(l0).insert(l1).insert(l2).len() == 3);
    assert(Set::<Seq<char>>::empty().insert(l0).insert(l1).insert(l2).insert(l3).len() == 4);
    assert(Set::<Seq<char>>::empty().insert(l0).insert(l1).insert(l2).insert(l3).insert(l4).len() == 5);
}

/// A completed prefix event is recommended for the frozen full-E shadow
/// when its budget was neither exhausted nor breached and its quadratic
/// drift `zeta34` was finite and within the frozen threshold
/// (`zeta34_within_frozen_tau`).
pub fn frozen_full_e_shadow_recommended(
    prefix_succeeded: bool,
    budget_exhausted: bool,
    budget_breached: bool,
    zeta34_within_frozen_tau: bool,
) -> (recommended: bool)
    ensures
        recommended == (prefix_succeeded && !budget_exhausted && !budget_breached
            && zeta34_within_frozen_tau),
{
    prefix_succeeded && !budget_exhausted && !budget_breached && zeta34_within_frozen_tau
}

/// Trajectory parity is equality of the digest encoding: two summaries are
/// exact (every field equal, doubles bitwise and not NaN) exactly when their
/// canonical encodings agree and their doubles are not NaN. A summary that
/// differs in any field, its step counts included, is never exact.
pub proof fn lemma_trajectory_parity_is_encoding_equality(
    l: G4S5B0TrajectoryRecord,
    r: G4S5B0TrajectoryRecord,
)
    requires
        trajectory_texts_fit(l),
        trajectory_texts_fit(r),
    ensures
        trajectory_record_exact(l, r) <==> (enc_trajectory(l) == enc_trajectory(r)
            && !f64_bits_is_nan(l.rtol_bits) && !f64_bits_is_nan(l.endpoint_time_bits)),
{
    lemma_trajectory_encoding_is_faithful(l, r);
}

/// Attempt parity is equality of the digest encoding: two attempt rows are
/// exact exactly when their canonical encodings (which leave out wall-clock
/// time) agree and their doubles are not NaN.
pub proof fn lemma_attempt_parity_is_encoding_equality(
    l: G4S5B0RjfAttemptRecord,
    r: G4S5B0RjfAttemptRecord,
)
    requires
        attempt_texts_fit(l),
        attempt_texts_fit(r),
    ensures
        attempt_record_exact(l, r) <==> (enc_attempt(l) == enc_attempt(r) && attempt_has_no_nan(
            l,
        )),
{
    lemma_attempt_encoding_is_faithful(l, r);
}

/// In an exact ledger row each speculative counter moves by exactly the JVP
/// vectors charged to the event: the prefix counter by the prefix work, the
/// total counter by the prefix and continuation work, both saturating at
/// `u64::MAX`; the cap is at most the per-event reserve and, when positive,
/// leaves the prefix counter within a quarter of the committed R-JF JVPs;
/// and endpoint work is recorded exactly for recommended events.
pub proof fn lemma_exact_row_ledger_counters(row: FrozenShadowLedgerRow)
    requires
        spec_row_ledger_exact(row),
    ensures
        ({
            let prefix_jvp: int = match row.prefix_work {
                Some(w) => w.jvp_vectors as int,
                None => 0,
            };
            let continuation_jvp: int = match row.continuation_work {
                Some(w) => w.jvp_vectors as int,
                None => 0,
            };
            let before = row.prefix_speculative_jvp_before_target as int;
            let after = row.prefix_speculative_jvp_after_target as int;
            let total_before = row.total_speculative_jvp_before_target as int;
            let total_after = row.total_speculative_jvp_after_target as int;
            &&& before <= after
            &&& before + prefix_jvp <= u64::MAX ==> after == before + prefix_jvp
            &&& before + prefix_jvp > u64::MAX ==> after == u64::MAX
            &&& total_before <= total_after
            &&& total_before + prefix_jvp + continuation_jvp <= u64::MAX ==> total_after
                == total_before + prefix_jvp + continuation_jvp
            &&& total_before + prefix_jvp + continuation_jvp > u64::MAX ==> total_after == u64::MAX
            &&& row.budget_cap_jvp <= 80
            &&& row.budget_cap_jvp > 0 ==> before + row.budget_cap_jvp
                <= row.committed_rjf_jvp_before_target / 4
            &&& row.recommended ==> row.continuation_work is Some && row.shadow_full_e_work is Some
            &&& !row.recommended ==> row.continuation_work is None && row.shadow_full_e_work is None
                && !row.retained_level2_resumed
        }),
{
}

proof fn lemma_family_literals_distinct()
    ensures
        "hires-ramped"@ != "nonautonomous-stiff-forcing"@,
        "hires-ramped"@ != "robertson-ramped"@,
        "hires-ramped"@ != "rotating-nonnormal"@,
        "hires-ramped"@ != "semilinear-advection-diffusion-ramped"@,
        "hires-ramped"@ != "van-der-pol-ramped"@,
        "nonautonomous-stiff-forcing"@ != "robertson-ramped"@,
        "nonautonomous-stiff-forcing"@ != "rotating-nonnormal"@,
        "nonautonomous-stiff-forcing"@ != "semilinear-advection-diffusion-ramped"@,
        "nonautonomous-stiff-forcing"@ != "van-der-pol-ramped"@,
        "robertson-ramped"@ != "rotating-nonnormal"@,
        "robertson-ramped"@ != "semilinear-advection-diffusion-ramped"@,
        "robertson-ramped"@ != "van-der-pol-ramped"@,
        "rotating-nonnormal"@ != "semilinear-advection-diffusion-ramped"@,
        "rotating-nonnormal"@ != "van-der-pol-ramped"@,
        "semilinear-advection-diffusion-ramped"@ != "van-der-pol-ramped"@,
{
    reveal_strlit("hires-ramped");
    reveal_strlit("nonautonomous-stiff-forcing");
    reveal_strlit("robertson-ramped");
    reveal_strlit("rotating-nonnormal");
    reveal_strlit("semilinear-advection-diffusion-ramped");
    reveal_strlit("van-der-pol-ramped");
    assert("hires-ramped"@[0] == 'h');
    assert("nonautonomous-stiff-forcing"@[0] == 'n');
    assert("robertson-ramped"@[1] == 'o');
    assert("rotating-nonnormal"@[1] == 'o');
    assert("robertson-ramped"@[2] == 'b');
    assert("rotating-nonnormal"@[2] == 't');
    assert("robertson-ramped"@[0] == 'r');
    assert("rotating-nonnormal"@[0] == 'r');
    assert("semilinear-advection-diffusion-ramped"@[0] == 's');
    assert("van-der-pol-ramped"@[0] == 'v');
}

/// The frozen k=1 comparator's pre-registered firing steps: for each of the
/// twelve calibrated (dimension, family) trajectories, the comparator fires on
/// exactly the listed accepted steps, and on no step of any other trajectory.
pub proof fn lemma_frozen_k1_table(dimension: usize, family: Seq<char>, step: usize)
    ensures
        (dimension == 128 && family == "hires-ramped"@) ==> (frozen_k1_steps(dimension, family).contains(step)
            <==> step == 8 || step == 13),
        (dimension == 128 && family == "nonautonomous-stiff-forcing"@) ==> (frozen_k1_steps(dimension, family).contains(step)
            <==> (step == 7 || step == 10 || step == 12 || step == 14 || step == 17 || step == 32
            || step == 46 || step == 59 || step == 77 || step == 88 || step == 94 || step == 98
            || step == 104 || step == 110 || step == 116 || step == 121 || step == 139 || step == 159
            || step == 170)),
        (dimension == 128 && family == "robertson-ramped"@) ==> (frozen_k1_steps(dimension, family).contains(step)
            <==> (step == 5 || step == 14 || step == 17 || step == 21)),
        (dimension == 128 && family == "rotating-nonnormal"@) ==> (frozen_k1_steps(dimension, family).contains(step)
            <==> (step == 6 || step == 20 || step == 29 || step == 34 || step == 43 || step == 68
            || step == 95)),
        (dimension == 128 && family == "semilinear-advection-diffusion-ramped"@) ==> (frozen_k1_steps(dimension, family).contains(step)
            <==> (step == 9 || step == 15)),
        (dimension == 128 && family == "van-der-pol-ramped"@) ==> (frozen_k1_steps(dimension, family).contains(step)
            <==> (step == 11 || step == 14 || step == 24 || step == 62)),
        (dimension == 512 && family == "hires-ramped"@) ==> (frozen_k1_steps(dimension, family).contains(step)
            <==> step == 8 || step == 13),
        (dimension == 512 && family == "nonautonomous-stiff-forcing"@) ==> (frozen_k1_steps(dimension, family).contains(step)
            <==> (step == 7 || step == 10 || step == 12 || step == 14 || step == 17 || step == 33
            || step == 46 || step == 59 || step == 77 || step == 88 || step == 93 || step == 98
            || step == 104 || step == 110 || step == 115 || step == 121 || step == 139 || step == 159
            || step == 170)),
        (dimension == 512 && family == "robertson-ramped"@) ==> (frozen_k1_steps(dimension, family).contains(step)
            <==> (step == 5 || step == 14 || step == 17 || step == 21)),
        (dimension == 512 && family == "rotating-nonnormal"@) ==> (frozen_k1_steps(dimension, family).contains(step)
            <==> (step == 6 || step == 20 || step == 29 || step == 34 || step == 43 || step == 69
            || step == 95)),
        (dimension == 512 && family == "semilinear-advection-diffusion-ramped"@) ==> (frozen_k1_steps(dimension, family).contains(step)
            <==> (step == 8 || step == 20 || step == 27 || step == 34)),
        (dimension == 512 && family == "van-der-pol-ramped"@) ==> (frozen_k1_steps(dimension, family).contains(step)
            <==> (step == 11 || step == 14 || step == 24 || step == 62)),
        (dimension != 128 && dimension != 512) ==> !frozen_k1_steps(dimension, family).contains(step),
{
    lemma_family_literals_distinct();
    let steps = frozen_k1_steps(dimension, family);
    if steps.contains(step) {
        let k = choose|k: int| 0 <= k < steps.len() && steps[k] == step;
    }
    assert forall|k: int| 0 <= k < steps.len() implies steps.contains(#[trigger] steps[k]) by {}
}

} // verus!
