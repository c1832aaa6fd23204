use vstd::prelude::*;

verus! {

/// Step method of the fixed-step and adaptive RODAS5P drivers.
#[derive(Clone, Copy, Debug, PartialEq, Eq)]
pub enum IntegrationMethod {
    Sequential,
    Sabr,
}

} // verus!
