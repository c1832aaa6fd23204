use vstd::prelude::*;

verus! {

/// Size profile of the homotopy path-controller screen.
#[derive(Clone, Copy, Debug, PartialEq, Eq)]
pub enum PathControllerProfile {
    Smoke,
    Canonical,
}

/// The kebab-case label of a profile.
pub open spec fn path_controller_profile_label(profile: PathControllerProfile) -> Seq<char> {
    match profile {
        PathControllerProfile::Smoke => "smoke"@,
        PathControllerProfile::Canonical => "canonical"@,
    }
}

impl PathControllerProfile {
    pub fn as_str(self) -> (label: &'static str)
        ensures
            label@ == path_controller_profile_label(self),
    {
        match self {
            PathControllerProfile::Smoke => "smoke",
            PathControllerProfile::Canonical => "canonical",
        }
    }
}

} // verus!
