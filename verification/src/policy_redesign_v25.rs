use vstd::prelude::*;

use crate::error::{CoreError, CoreResult};

verus! {

/// Causal point features that a prefix-probe policy may read.
#[derive(Clone, Copy, Debug, PartialEq, Eq)]
pub enum PointFeature {
    JvpPressure,
    StepContraction,
    ErrorCurvature,
}

/// The kebab-case label of a point feature.
pub open spec fn point_feature_label(feature: PointFeature) -> Seq<char> {
    match feature {
        PointFeature::JvpPressure => "jvp-pressure"@,
        PointFeature::StepContraction => "step-contraction"@,
        PointFeature::ErrorCurvature => "error-curvature"@,
    }
}

impl PointFeature {
    pub fn as_str(self) -> (label: &'static str)
        ensures
            label@ == point_feature_label(self),
    {
        match self {
            PointFeature::JvpPressure => "jvp-pressure",
            PointFeature::StepContraction => "step-contraction",
            PointFeature::ErrorCurvature => "error-curvature",
        }
    }
}

/// What a policy decided to do at one accepted step.
#[derive(Clone, Copy, Debug, PartialEq, Eq)]
pub enum ProbeAction {
    NoProbe,
    PrefixProbe,
}

/// Abstract latch state: (required consecutive count, current streak, latched).
pub type LatchState = (nat, nat, bool);

/// A latch state is well formed when the requirement is at least one, the
/// streak never exceeds it, and the latch is set exactly when the streak has
/// reached the requirement.
pub open spec fn latch_wf(s: LatchState) -> bool {
    &&& s.0 >= 1
    &&& s.1 <= s.0
    &&& (s.2 <==> s.1 == s.0)
}

/// One observation of the latch: the next state and whether the latch fired.
pub open spec fn latch_step(s: LatchState, signal: bool) -> (LatchState, bool) {
    if !signal {
        ((s.0, 0, false), false)
    } else if s.2 {
        (s, false)
    } else {
        let streak = s.1 + 1;
        ((s.0, streak, streak >= s.0), streak >= s.0)
    }
}

/// Number of consecutive `true` observations that end at index `i`
/// (zero when `signals[i]` is false or `i` is negative).
pub open spec fn run_length(signals: Seq<bool>, i: int) -> nat
    decreases i + 1,
{
    if i < 0 || i >= signals.len() {
        0
    } else if !signals[i] {
        0
    } else {
        run_length(signals, i - 1) + 1
    }
}

/// State reached by a fresh latch with requirement `k` after the first `n` signals.
pub open spec fn latch_state_after(k: nat, signals: Seq<bool>, n: nat) -> LatchState
    decreases n,
{
    if n == 0 {
        (k, 0, false)
    } else {
        latch_step(latch_state_after(k, signals, (n - 1) as nat), signals[n - 1]).0
    }
}

/// Whether a fresh latch with requirement `k` fires on observation `i`.
pub open spec fn latch_fires_at(k: nat, signals: Seq<bool>, i: nat) -> bool {
    latch_step(latch_state_after(k, signals, i), signals[i as int]).1
}

/// Counts consecutive confirmations of a boolean signal and fires once per
/// maximal run of `true` observations.
#[derive(Clone, Debug, PartialEq, Eq)]
pub struct PersistenceLatch {
    required_consecutive: usize,
    streak: usize,
    latched: bool,
}

impl View for PersistenceLatch {
    type V = LatchState;

    closed spec fn view(&self) -> LatchState {
        (self.required_consecutive as nat, self.streak as nat, self.latched)
    }
}

impl PersistenceLatch {
    /// Every latch built by `new` and advanced by `update` is well formed.
    pub closed spec fn wf(&self) -> bool {
        latch_wf(self@)
    }

    pub fn new(required_consecutive: usize) -> (result: CoreResult<Self>)
        ensures
            required_consecutive == 0 <==> result is Err,
            result matches Err(CoreError::InvalidInput(message))
                ==> message@ == "persistence confirmation requires k>=1"@,
            result matches Err(error) ==> error is InvalidInput,
            result matches Ok(latch) ==> latch@ == (required_consecutive as nat, 0nat, false)
                && latch.wf(),
    {
        if required_consecutive == 0 {
            return Err(CoreError::InvalidInput("persistence confirmation requires k>=1".to_owned()));
        }
        Ok(PersistenceLatch { required_consecutive, streak: 0, latched: false })
    }

    /// Returns true exactly once per maximal true excursion, when the required
    /// number of consecutive true observations has been reached.
    pub fn update(&mut self, signal: bool) -> (fired: bool)
        requires
            old(self).wf(),
        ensures
            final(self).wf(),
            (final(self)@, fired) == latch_step(old(self)@, signal),
    {
        if !signal {
            *self = PersistenceLatch {
                required_consecutive: self.required_consecutive,
                streak: 0,
                latched: false,
            };
            return false;
        }
        if self.latched {
            return false;
        }
        let streak = self.streak.saturating_add(1);
        let fired = streak >= self.required_consecutive;
        *self = PersistenceLatch {
            required_consecutive: self.required_consecutive,
            streak,
            latched: fired,
        };
        fired
    }
}

/// After any prefix of observations, a fresh latch's streak is the current
/// run length capped at the requirement, and it is set exactly when that run
/// has reached the requirement.
pub proof fn lemma_latch_state_tracks_run(k: nat, signals: Seq<bool>, n: nat)
    requires
        k >= 1,
        n <= signals.len(),
    ensures
        latch_wf(latch_state_after(k, signals, n)),
        latch_state_after(k, signals, n).0 == k,
        latch_state_after(k, signals, n).1 == (if run_length(signals, n - 1) >= k {
            k
        } else {
            run_length(signals, n - 1)
        }),
        latch_state_after(k, signals, n).2 == (run_length(signals, n - 1) >= k),
    decreases n,
{
    if n > 0 {
        lemma_latch_state_tracks_run(k, signals, (n - 1) as nat);
    }
}

/// The latch fires on observation `i` exactly when the run of consecutive
/// `true` observations ending at `i` has length exactly `k`.
pub proof fn lemma_latch_fires_iff_run_reaches_k(k: nat, signals: Seq<bool>, i: nat)
    requires
        k >= 1,
        i < signals.len(),
    ensures
        latch_fires_at(k, signals, i) == (run_length(signals, i as int) == k),
{
    lemma_latch_state_tracks_run(k, signals, i);
}

/// Within a maximal excursion of `true` observations `signals[start..=end]`,
/// a fresh latch fires exactly once, on the `k`-th observation of the
/// excursion, and not at all when the excursion is shorter than `k`.
pub proof fn lemma_latch_fires_once_per_excursion(
    k: nat,
    signals: Seq<bool>,
    start: nat,
    end: nat,
    i: nat,
)
    requires
        k >= 1,
        start <= end < signals.len(),
        start == 0 || !signals[start - 1],
        forall|j: int| start <= j <= end ==> signals[j],
        start <= i <= end,
    ensures
        latch_fires_at(k, signals, i) <==> i == start + k - 1,
{
    lemma_run_length_in_excursion(signals, start, i);
    lemma_latch_fires_iff_run_reaches_k(k, signals, i);
}

proof fn lemma_run_length_in_excursion(signals: Seq<bool>, start: nat, i: nat)
    requires
        start <= i < signals.len(),
        start == 0 || !signals[start - 1],
        forall|j: int| start <= j <= i ==> signals[j],
    ensures
        run_length(signals, i as int) == i - start + 1,
    decreases i,
{
    if i > start {
        lemma_run_length_in_excursion(signals, start, (i - 1) as nat);
    } else {
        assert(run_length(signals, i - 1) == 0);
    }
}

} // verus!
