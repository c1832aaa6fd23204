use vstd::prelude::*;
use vstd::utf8::encode_utf8;

use crate::counting::{
    count_matching, lemma_count_matching_monotone, lemma_count_matching_prefix,
    lemma_count_matching_split,
};
use crate::float_bits::{F64_EXPONENT_MASK, F64_MAGNITUDE_MASK};
use crate::homotopy::HomotopyPredictor;
use crate::parallel::ParallelExecution;

verus! {

/// 64-bit FNV-1a offset basis.
pub const FNV_OFFSET_BASIS: u64 = 0xcbf29ce484222325;

/// 64-bit FNV-1a prime.
pub const FNV_PRIME: u64 = 0x100000001b3;

/// 64-bit FNV-1a hash of a byte string.
pub open spec fn fnv1a(bytes: Seq<u8>) -> u64
    decreases bytes.len(),
{
    if bytes.len() == 0 {
        FNV_OFFSET_BASIS
    } else {
        vstd::wrapping::u64_specs::wrapping_mul(
            fnv1a(bytes.drop_last()) ^ (bytes.last() as u64),
            FNV_PRIME,
        )
    }
}

/// Calibration/holdout split of a case: the parity of the FNV-1a hash of
/// its UTF-8 identifier.
pub open spec fn case_split(case_id: Seq<char>) -> Seq<char> {
    if fnv1a(encode_utf8(case_id)) & 1 == 0 {
        "calibration"@
    } else {
        "holdout"@
    }
}

pub fn stable_case_split(case_id: &str) -> (split: &'static str)
    ensures
        split@ == case_split(case_id@),
{
    let bytes = case_id.as_bytes();
    let mut hash: u64 = FNV_OFFSET_BASIS;
    let mut i: usize = 0;
    while i < bytes.len()
        invariant
            i <= bytes@.len(),
            bytes@ == encode_utf8(case_id@),
            hash == fnv1a(bytes@.subrange(0, i as int)),
        decreases bytes.len() - i,
    {
        assert(bytes@.subrange(0, i + 1).drop_last() =~= bytes@.subrange(0, i as int));
        hash = hash ^ (bytes[i] as u64);
        hash = hash.wrapping_mul(FNV_PRIME);
        i += 1;
    }
    assert(bytes@.subrange(0, bytes@.len() as int) =~= bytes@);
    if hash & 1 == 0 {
        "calibration"
    } else {
        "holdout"
    }
}

/// Execution backend of a policy screen.
#[derive(Clone, Debug, PartialEq, Eq)]
pub struct PolicyExecutionMetadata {
    pub backend: String,
    pub threads: usize,
}

/// One policy-replay row, as far as split summaries and gates read it;
/// the path parameter `theta` is held as its IEEE-754 bit pattern.
#[derive(Clone, Debug)]
pub struct PolicyReplayRecord {
    pub policy_id: String,
    pub split: String,
    pub theta_bits: u64,
    pub q: usize,
    pub path_rounds: usize,
    pub predictor: HomotopyPredictor,
    pub corrections_per_point: usize,
    pub evaluable: bool,
    pub accepted: bool,
    pub false_accept: bool,
    pub low_depth: bool,
    pub failed: bool,
}

/// Integer part of the summary of one policy on one split.
#[derive(Clone, Copy, Debug, PartialEq, Eq)]
pub struct PolicySplitCounts {
    pub rows: usize,
    pub evaluable_rows: usize,
    pub accepts: usize,
    pub low_depth_accepts: usize,
    pub false_accepts: usize,
    pub failures: usize,
}

/// The row belongs to this policy and split.
pub open spec fn in_selection(policy_id: Seq<char>, split: Seq<char>, r: PolicyReplayRecord) -> bool {
    r.policy_id@ == policy_id && r.split@ == split
}

pub open spec fn selected(policy_id: Seq<char>, split: Seq<char>) -> spec_fn(PolicyReplayRecord) -> bool {
    |r: PolicyReplayRecord| in_selection(policy_id, split, r)
}

pub open spec fn selected_evaluable(policy_id: Seq<char>, split: Seq<char>) -> spec_fn(PolicyReplayRecord) -> bool {
    |r: PolicyReplayRecord| in_selection(policy_id, split, r) && r.evaluable
}

pub open spec fn selected_accepted(policy_id: Seq<char>, split: Seq<char>) -> spec_fn(PolicyReplayRecord) -> bool {
    |r: PolicyReplayRecord| in_selection(policy_id, split, r) && r.accepted
}

pub open spec fn selected_low_depth_accepted(policy_id: Seq<char>, split: Seq<char>) -> spec_fn(PolicyReplayRecord) -> bool {
    |r: PolicyReplayRecord| in_selection(policy_id, split, r) && r.accepted && r.low_depth
}

pub open spec fn selected_false_accept(policy_id: Seq<char>, split: Seq<char>) -> spec_fn(PolicyReplayRecord) -> bool {
    |r: PolicyReplayRecord| in_selection(policy_id, split, r) && r.false_accept
}

pub open spec fn selected_failed(policy_id: Seq<char>, split: Seq<char>) -> spec_fn(PolicyReplayRecord) -> bool {
    |r: PolicyReplayRecord| in_selection(policy_id, split, r) && r.failed
}

/// Counts the replay rows of one policy on one split, and among them the
/// evaluable rows, accepts, low-depth accepts, false accepts and failures.
pub fn policy_split_counts(policy_id: &String, split: &str, rows: &[PolicyReplayRecord]) -> (counts:
    PolicySplitCounts)
    ensures
        counts.rows == count_matching(rows@, selected(policy_id@, split@)),
        counts.evaluable_rows == count_matching(rows@, selected_evaluable(policy_id@, split@)),
        counts.accepts == count_matching(rows@, selected_accepted(policy_id@, split@)),
        counts.low_depth_accepts == count_matching(
            rows@,
            selected_low_depth_accepted(policy_id@, split@),
        ),
        counts.false_accepts == count_matching(rows@, selected_false_accept(policy_id@, split@)),
        counts.failures == count_matching(rows@, selected_failed(policy_id@, split@)),
        counts.low_depth_accepts <= counts.accepts,
        counts.accepts <= counts.rows,
        counts.evaluable_rows <= counts.rows,
        counts.false_accepts <= counts.rows,
        counts.failures <= counts.rows,
{
    let ghost p = policy_id@;
    let ghost s = split@;
    let mut counts = PolicySplitCounts {
        rows: 0,
        evaluable_rows: 0,
        accepts: 0,
        low_depth_accepts: 0,
        false_accepts: 0,
        failures: 0,
    };
    let mut i: usize = 0;
    while i < rows.len()
        invariant
            i <= rows@.len(),
            p == policy_id@,
            s == split@,
            counts.rows == count_matching(rows@.subrange(0, i as int), selected(p, s)),
            counts.evaluable_rows == count_matching(
                rows@.subrange(0, i as int),
                selected_evaluable(p, s),
            ),
            counts.accepts == count_matching(rows@.subrange(0, i as int), selected_accepted(p, s)),
            counts.low_depth_accepts == count_matching(
                rows@.subrange(0, i as int),
                selected_low_depth_accepted(p, s),
            ),
            counts.false_accepts == count_matching(
                rows@.subrange(0, i as int),
                selected_false_accept(p, s),
            ),
            counts.failures == count_matching(rows@.subrange(0, i as int), selected_failed(p, s)),
            counts.rows <= i && counts.evaluable_rows <= i && counts.accepts <= i
                && counts.low_depth_accepts <= i && counts.false_accepts <= i && counts.failures
                <= i,
        decreases rows.len() - i,
    {
        proof {
            lemma_count_matching_prefix(rows@, selected(p, s), i as int);
            lemma_count_matching_prefix(rows@, selected_evaluable(p, s), i as int);
            lemma_count_matching_prefix(rows@, selected_accepted(p, s), i as int);
            lemma_count_matching_prefix(rows@, selected_low_depth_accepted(p, s), i as int);
            lemma_count_matching_prefix(rows@, selected_false_accept(p, s), i as int);
            lemma_count_matching_prefix(rows@, selected_failed(p, s), i as int);
        }
        let row = &rows[i];
        if row.policy_id == *policy_id && row.split.as_str().eq(split) {
            counts.rows = counts.rows + 1;
            if row.evaluable {
                counts.evaluable_rows = counts.evaluable_rows + 1;
            }
            if row.accepted {
                counts.accepts = counts.accepts + 1;
            }
            if row.accepted && row.low_depth {
                counts.low_depth_accepts = counts.low_depth_accepts + 1;
            }
            if row.false_accept {
                counts.false_accepts = counts.false_accepts + 1;
            }
            if row.failed {
                counts.failures = counts.failures + 1;
            }
        }
        i += 1;
    }
    assert(rows@.subrange(0, rows@.len() as int) =~= rows@);
    proof {
        lemma_split_counts_nest(p, s, rows@);
    }
    counts
}

/// Selected rows that were accepted but are not low depth.
pub open spec fn selected_deep_accepted(policy_id: Seq<char>, split: Seq<char>) -> spec_fn(PolicyReplayRecord) -> bool {
    |r: PolicyReplayRecord| in_selection(policy_id, split, r) && r.accepted && !r.low_depth
}

/// The split counts nest: low-depth accepts are accepts, and accepts,
/// evaluable rows, false accepts and failures are rows of the selection.
pub proof fn lemma_split_counts_nest(policy_id: Seq<char>, split: Seq<char>, rows: Seq<PolicyReplayRecord>)
    ensures
        count_matching(rows, selected_low_depth_accepted(policy_id, split)) <= count_matching(
            rows,
            selected_accepted(policy_id, split),
        ),
        count_matching(rows, selected_accepted(policy_id, split)) <= count_matching(
            rows,
            selected(policy_id, split),
        ),
        count_matching(rows, selected_evaluable(policy_id, split)) <= count_matching(
            rows,
            selected(policy_id, split),
        ),
        count_matching(rows, selected_false_accept(policy_id, split)) <= count_matching(
            rows,
            selected(policy_id, split),
        ),
        count_matching(rows, selected_failed(policy_id, split)) <= count_matching(
            rows,
            selected(policy_id, split),
        ),
{
    lemma_low_depth_accepts_partition_accepts(policy_id, split, rows);
    lemma_count_matching_monotone(
        rows,
        selected_accepted(policy_id, split),
        selected(policy_id, split),
    );
    lemma_count_matching_monotone(
        rows,
        selected_evaluable(policy_id, split),
        selected(policy_id, split),
    );
    lemma_count_matching_monotone(
        rows,
        selected_false_accept(policy_id, split),
        selected(policy_id, split),
    );
    lemma_count_matching_monotone(rows, selected_failed(policy_id, split), selected(policy_id, split));
}

/// Only accepted rows count as low-depth accepts: the accepts of a policy on
/// a split are exactly its low-depth accepts plus its accepted rows that are
/// not low depth, so a row that was not accepted never adds a low-depth accept.
pub proof fn lemma_low_depth_accepts_partition_accepts(
    policy_id: Seq<char>,
    split: Seq<char>,
    rows: Seq<PolicyReplayRecord>,
)
    ensures
        count_matching(rows, selected_low_depth_accepted(policy_id, split)) + count_matching(
            rows,
            selected_deep_accepted(policy_id, split),
        ) == count_matching(rows, selected_accepted(policy_id, split)),
{
    lemma_count_matching_split(
        rows,
        selected_accepted(policy_id, split),
        |r: PolicyReplayRecord| r.low_depth,
        selected_low_depth_accepted(policy_id, split),
        selected_deep_accepted(policy_id, split),
    );
}

/// A double (by bits) that is finite and compares `>= 0.0`: not an
/// infinity or NaN, and either sign-clear or a zero.
pub open spec fn f64_bits_finite_nonnegative(bits: u64) -> bool {
    &&& bits & F64_EXPONENT_MASK != F64_EXPONENT_MASK
    &&& (bits >> 63u64 == 0 || bits & F64_MAGNITUDE_MASK == 0)
}

/// Sort key of a calibration summary when choosing a family winner: fewest
/// false accepts, then most low-depth accepts, then most accepts, then the
/// smallest usable median of accepted W-solve batches (compared by bits;
/// missing, non-finite or negative medians sort last), then the policy id.
pub fn winner_key(counts: &PolicySplitCounts, median_w_solve_batches_bits: Option<u64>, policy_id: &String) -> (key: (usize, usize, usize, u64, String))
    ensures
        key.0 == counts.false_accepts,
        key.1 == usize::MAX - counts.low_depth_accepts,
        key.2 == usize::MAX - counts.accepts,
        key.3 == (match median_w_solve_batches_bits {
            Some(bits) => if f64_bits_finite_nonnegative(bits) {
                bits
            } else {
                u64::MAX
            },
            None => u64::MAX,
        }),
        key.4@ == policy_id@,
{
    let batches = match median_w_solve_batches_bits {
        Some(bits) => if bits & F64_EXPONENT_MASK != F64_EXPONENT_MASK && (bits >> 63u64 == 0
            || bits & F64_MAGNITUDE_MASK == 0) {
            bits
        } else {
            u64::MAX
        },
        None => u64::MAX,
    };
    (
        counts.false_accepts,
        usize::MAX - counts.low_depth_accepts,
        usize::MAX - counts.accepts,
        batches,
        policy_id.clone(),
    )
}

/// Path parameters of a trajectory group's representative row (absent for
/// the sequential control); `theta` is held as its bit pattern.
#[derive(Clone, Copy, Debug, PartialEq, Eq)]
pub struct TrajectoryPathKey {
    pub theta_bits: Option<u64>,
    pub q: Option<usize>,
    pub path_rounds: Option<usize>,
    pub predictor: Option<HomotopyPredictor>,
    pub corrections_per_point: Option<usize>,
}

/// A replay row is a holdout false accept of this policy with exactly the
/// representative's path parameters (theta compared by bits).
pub open spec fn holdout_false_accept_of(policy_id: Seq<char>, path: TrajectoryPathKey) -> spec_fn(PolicyReplayRecord) -> bool {
    |r: PolicyReplayRecord|
        r.split@ == "holdout"@ && r.false_accept && r.policy_id@ == policy_id && path.theta_bits
            == Some(r.theta_bits) && path.q == Some(r.q) && path.path_rounds == Some(r.path_rounds)
            && path.predictor == Some(r.predictor) && path.corrections_per_point == Some(
            r.corrections_per_point,
        )
}

fn predictor_equal(left: Option<HomotopyPredictor>, right: HomotopyPredictor) -> (equal: bool)
    ensures
        equal == (left == Some(right)),
{
    match (left, right) {
        (Some(HomotopyPredictor::Euler), HomotopyPredictor::Euler) => true,
        (Some(HomotopyPredictor::AdamsBashforth2), HomotopyPredictor::AdamsBashforth2) => true,
        _ => false,
    }
}

fn opt_usize_is(left: Option<usize>, right: usize) -> (equal: bool)
    ensures
        equal == (left == Some(right)),
{
    match left {
        Some(l) => l == right,
        None => false,
    }
}

fn opt_u64_is(left: Option<u64>, right: u64) -> (equal: bool)
    ensures
        equal == (left == Some(right)),
{
    match left {
        Some(l) => l == right,
        None => false,
    }
}

/// Number of holdout false accepts that a homotopy trajectory group
/// inherits from the replay of its policy; zero without a policy or a
/// representative.
pub fn holdout_false_accepts(
    policy_id: Option<&String>,
    representative: Option<TrajectoryPathKey>,
    rows: &[PolicyReplayRecord],
) -> (count: usize)
    ensures
        (policy_id is None || representative is None) ==> count == 0,
        policy_id matches Some(id) ==> representative matches Some(path) ==> count
            == count_matching(rows@, holdout_false_accept_of(id@, path)),
{
    match (policy_id, representative) {
        (Some(id), Some(path)) => {
            let ghost p = id@;
            let mut count: usize = 0;
            let mut i: usize = 0;
            while i < rows.len()
                invariant
                    i <= rows@.len(),
                    p == id@,
                    count == count_matching(
                        rows@.subrange(0, i as int),
                        holdout_false_accept_of(p, path),
                    ),
                    count <= i,
                decreases rows.len() - i,
            {
                proof {
                    lemma_count_matching_prefix(rows@, holdout_false_accept_of(p, path), i as int);
                }
                let row = &rows[i];
                if row.split.as_str().eq("holdout") && row.false_accept && row.policy_id == *id
                    && opt_u64_is(path.theta_bits, row.theta_bits) && opt_usize_is(path.q, row.q)
                    && opt_usize_is(path.path_rounds, row.path_rounds) && predictor_equal(
                    path.predictor,
                    row.predictor,
                ) && opt_usize_is(path.corrections_per_point, row.corrections_per_point) {
                    count = count + 1;
                }
                i += 1;
            }
            assert(rows@.subrange(0, rows@.len() as int) =~= rows@);
            count
        },
        _ => 0,
    }
}

/// Promotion gate of one (problem, method, policy) trajectory group.
#[derive(Clone, Debug, PartialEq, Eq)]
pub struct PolicyTrajectoryGate {
    pub problem_id: String,
    pub method: String,
    pub policy_id: Option<String>,
    pub fifth_order_applicable: bool,
    pub fifth_order_pass: bool,
    pub stiff_regression_applicable: bool,
    pub stiff_regression_pass: bool,
    pub low_depth_nonempty: bool,
    pub holdout_false_accepts: usize,
    pub promote: bool,
}

/// The problem whose trajectories must show fifth-order convergence.
pub open spec fn order_problem_id() -> Seq<char> {
    "manufactured-vector-order"@
}

/// The sequential direct-solve control method.
pub open spec fn sequential_method() -> Seq<char> {
    "sequential-direct"@
}

/// The promotion gate of a trajectory group. The order gate applies only to
/// the order problem and needs the measured orders to pass there; the stiff
/// regression gate applies to the other problems, is waived for the
/// sequential control, and otherwise needs the measured stiff comparison to
/// pass. A group is promoted when both gates pass, it inherits no holdout
/// false accept, and it is the control or has a low-depth trajectory.
pub fn trajectory_gate(
    problem_id: String,
    method: String,
    policy_id: Option<String>,
    measured_orders_pass: bool,
    measured_stiff_pass: bool,
    low_depth_nonempty: bool,
    holdout_false_accepts: usize,
) -> (gate: PolicyTrajectoryGate)
    ensures
        gate.problem_id@ == problem_id@,
        gate.method@ == method@,
        gate.policy_id == policy_id,
        gate.fifth_order_applicable == (problem_id@ == order_problem_id()),
        gate.fifth_order_pass == (!gate.fifth_order_applicable || measured_orders_pass),
        gate.stiff_regression_applicable == (problem_id@ != order_problem_id()),
        gate.stiff_regression_pass == (!gate.stiff_regression_applicable || method@
            == sequential_method() || measured_stiff_pass),
        gate.low_depth_nonempty == low_depth_nonempty,
        gate.holdout_false_accepts == holdout_false_accepts,
        gate.promote == (gate.fifth_order_pass && gate.stiff_regression_pass
            && holdout_false_accepts == 0 && (method@ == sequential_method()
            || low_depth_nonempty)),
{
    let fifth_order_applicable = problem_id.as_str().eq("manufactured-vector-order");
    let is_sequential = method.as_str().eq("sequential-direct");
    let fifth_order_pass = !fifth_order_applicable || measured_orders_pass;
    let stiff_regression_applicable = !fifth_order_applicable;
    let stiff_regression_pass = !stiff_regression_applicable || is_sequential
        || measured_stiff_pass;
    let promote = fifth_order_pass && stiff_regression_pass && holdout_false_accepts == 0 && (
    is_sequential || low_depth_nonempty);
    proof {
        reveal_strlit("manufactured-vector-order");
        reveal_strlit("sequential-direct");
    }
    PolicyTrajectoryGate {
        problem_id,
        method,
        policy_id,
        fifth_order_applicable,
        fifth_order_pass,
        stiff_regression_applicable,
        stiff_regression_pass,
        low_depth_nonempty,
        holdout_false_accepts,
        promote,
    }
}

/// Records the backend and thread count that ran a policy screen.
pub fn execution_metadata(execution: &ParallelExecution) -> (metadata: PolicyExecutionMetadata)
    ensures
        metadata.threads == execution.spec_threads(),
        execution.has_pool() ==> metadata.backend@ == "rayon-local"@,
        !execution.has_pool() ==> metadata.backend@ == "sequential"@,
{
    PolicyExecutionMetadata { backend: execution.backend().to_owned(), threads: execution.threads() }
}

} // verus!
