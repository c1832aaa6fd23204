use vstd::prelude::*;

verus! {

/// Predictor used along a homotopy path.
#[derive(Clone, Copy, Debug, PartialEq, Eq)]
pub enum HomotopyPredictor {
    Euler,
    AdamsBashforth2,
}

/// Work charged to one homotopy path: rounds, corrections and common-W
/// factorizations and solves.
#[derive(Clone, Debug, PartialEq, Eq)]
pub struct HomotopyWorkLedger {
    pub path_rounds: usize,
    pub correction_rounds: usize,
    pub tangent_evaluations: u64,
    pub nonlinear_snapshots: u64,
    pub coupling_actions: u64,
    pub w_factorizations: u64,
    pub w_solve_batches: u64,
    pub w_solve_vectors: u64,
}

impl Default for HomotopyWorkLedger {
    fn default() -> (ledger: Self)
        ensures
            ledger.path_rounds == 0,
            ledger.correction_rounds == 0,
            ledger.tangent_evaluations == 0,
            ledger.nonlinear_snapshots == 0,
            ledger.coupling_actions == 0,
            ledger.w_factorizations == 0,
            ledger.w_solve_batches == 0,
            ledger.w_solve_vectors == 0,
    {
        HomotopyWorkLedger {
            path_rounds: 0,
            correction_rounds: 0,
            tangent_evaluations: 0,
            nonlinear_snapshots: 0,
            coupling_actions: 0,
            w_factorizations: 0,
            w_solve_batches: 0,
            w_solve_vectors: 0,
        }
    }
}

} // verus!
