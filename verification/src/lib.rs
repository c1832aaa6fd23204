//! Verified decision logic of the RODAS5P integrator research crate: profile
//! labels, persistence latches, speculative-budget ledgers, replay parity and
//! canonical trace digests.

pub mod error;
pub mod g3_fused_adaptive_gate;
pub mod policy_redesign_v25;
pub mod g4_prefix_kernel_gate;
pub mod homotopy_experiments;
pub mod path_controller;
pub mod radau;
pub mod g4_s5b0_inner_tolerance;
pub mod adaptive;
pub mod integrate;
pub mod native_gates;
pub mod homotopy;
pub mod g4_s5b0_regime_atlas;
pub mod float_bits;
pub mod counting;
pub mod g4_s5b0_records;
pub mod g4_s5b0_trace_authority;
pub mod g4_s5b3_attempt_geometry;
pub mod homotopy_order_policy;
pub mod parallel;
pub mod homotopy_policy;
