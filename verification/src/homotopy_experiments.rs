use vstd::prelude::*;

verus! {

/// Size profile of the homotopy experiment screen.
#[derive(Clone, Copy, Debug, PartialEq, Eq)]
pub enum HomotopyExperimentProfile {
    Smoke,
    Canonical,
}

/// The kebab-case label of a profile.
pub open spec fn homotopy_experiment_profile_label(profile: HomotopyExperimentProfile) -> Seq<char> {
    match profile {
        HomotopyExperimentProfile::Smoke => "smoke"@,
        HomotopyExperimentProfile::Canonical => "canonical"@,
    }
}

impl HomotopyExperimentProfile {
    pub fn as_str(self) -> (label: &'static str)
        ensures
            label@ == homotopy_experiment_profile_label(self),
    {
        match self {
            HomotopyExperimentProfile::Smoke => "smoke",
            HomotopyExperimentProfile::Canonical => "canonical",
        }
    }
}

} // verus!
