//! The phases a render passes through, as reported on the progress log.

use vstd::prelude::*;

verus! {

/// The phase of a render, in the order the pipeline passes through them.
#[derive(Clone, Copy, Debug, PartialEq, Eq, Structural)]
pub enum Phase {
    Initializing,
    Raytracing,
    Processing,
    Finishing,
}

impl Phase {
    /// The phase's name, as the progress log spells it.
    pub open spec fn spec_name(self) -> Seq<char> {
        match self {
            Phase::Initializing => "Initializing"@,
            Phase::Raytracing => "Raytracing"@,
            Phase::Processing => "Processing"@,
            Phase::Finishing => "Finishing"@,
        }
    }

    /// Returns the phase's name.
    pub fn name(&self) -> (s: String)
        ensures
            s@ == self.spec_name(),
    {
        broadcast use vstd::string::to_string_from_display_ensures_for_str;

        match self {
            Phase::Initializing => "Initializing".to_string(),
            Phase::Raytracing => "Raytracing".to_string(),
            Phase::Processing => "Processing".to_string(),
            Phase::Finishing => "Finishing".to_string(),
        }
    }
}

} // verus!
