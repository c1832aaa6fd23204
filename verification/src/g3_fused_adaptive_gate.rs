use vstd::prelude::*;

verus! {

/// Size profile of the fused adaptive exponential gate.
#[derive(Clone, Copy, Debug, PartialEq, Eq)]
pub enum G3FusedAdaptiveProfile {
    Smoke,
    Canonical,
}

/// The kebab-case label of a G3 profile.
pub open spec fn g3_profile_label(profile: G3FusedAdaptiveProfile) -> Seq<char> {
    match profile {
        G3FusedAdaptiveProfile::Smoke => "smoke"@,
        G3FusedAdaptiveProfile::Canonical => "canonical"@,
    }
}

impl G3FusedAdaptiveProfile {
    pub fn as_str(self) -> (label: &'static str)
        ensures
            label@ == g3_profile_label(self),
    {
        match self {
            G3FusedAdaptiveProfile::Smoke => "smoke",
            G3FusedAdaptiveProfile::Canonical => "canonical",
        }
    }
}

} // verus!
