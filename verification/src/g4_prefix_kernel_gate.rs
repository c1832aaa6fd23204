use vstd::prelude::*;

verus! {

/// Size profile of the prefix-kernel gate.
#[derive(Clone, Copy, Debug, PartialEq, Eq)]
pub enum G4PrefixKernelProfile {
    Smoke,
    Canonical,
}

/// The kebab-case label of a profile.
pub open spec fn g4_prefix_kernel_profile_label(profile: G4PrefixKernelProfile) -> Seq<char> {
    match profile {
        G4PrefixKernelProfile::Smoke => "smoke"@,
        G4PrefixKernelProfile::Canonical => "canonical"@,
    }
}

impl G4PrefixKernelProfile {
    pub fn as_str(self) -> (label: &'static str)
        ensures
            label@ == g4_prefix_kernel_profile_label(self),
    {
        match self {
            G4PrefixKernelProfile::Smoke => "smoke",
            G4PrefixKernelProfile::Canonical => "canonical",
        }
    }
}

} // verus!
