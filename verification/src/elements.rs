//! The closed set of element kinds and what is fixed for each of them.

use vstd::prelude::*;

verus! {

/// The kind of an atom. Everything a kind determines is immutable.
#[derive(Clone, Copy, Debug, PartialEq, Eq, Structural)]
pub enum ElementInfo {
    Hydrogen,
    Iron,
    Uranium,
    Thorium,
}

impl ElementInfo {
    /// Maximum health of the kind, in tenths of a health point.
    pub open spec fn spec_max_health(&self) -> i64 {
        match self {
            ElementInfo::Hydrogen => 1000,
            ElementInfo::Iron => 3000,
            ElementInfo::Uranium => 1000,
            ElementInfo::Thorium => 2000,
        }
    }

    /// Time between two shots of the kind, in milliseconds.
    pub open spec fn spec_firing_time(&self) -> u64 {
        match self {
            ElementInfo::Hydrogen => 1000,
            ElementInfo::Iron => 1000,
            ElementInfo::Uranium => 500,
            ElementInfo::Thorium => 200,
        }
    }

    /// Key of the picture that shows the kind.
    pub open spec fn spec_image_path(&self) -> Seq<char> {
        match self {
            ElementInfo::Hydrogen => "ElementH.png"@,
            ElementInfo::Iron => "ElementFe.png"@,
            ElementInfo::Uranium => "ElementU.png"@,
            ElementInfo::Thorium => "ElementTh.png"@,
        }
    }

    /// The kinds in their fixed order.
    pub open spec fn spec_all() -> Seq<ElementInfo> {
        seq![
            ElementInfo::Hydrogen,
            ElementInfo::Iron,
            ElementInfo::Uranium,
            ElementInfo::Thorium,
        ]
    }

    pub fn image_path(&self) -> (path: &'static str)
        ensures
            path@ == self.spec_image_path(),
    {
        match self {
            ElementInfo::Hydrogen => "ElementH.png",
            ElementInfo::Iron => "ElementFe.png",
            ElementInfo::Uranium => "ElementU.png",
            ElementInfo::Thorium => "ElementTh.png",
        }
    }

    #[verifier::when_used_as_spec(spec_max_health)]
    pub fn max_health(&self) -> (health: i64)
        ensures
            health == self.spec_max_health(),
    {
        match self {
            ElementInfo::Hydrogen => 1000,
            ElementInfo::Iron => 3000,
            ElementInfo::Uranium => 1000,
            ElementInfo::Thorium => 2000,
        }
    }

    #[verifier::when_used_as_spec(spec_firing_time)]
    pub fn firing_time(&self) -> (millis: u64)
        ensures
            millis == self.spec_firing_time(),
    {
        match self {
            ElementInfo::Hydrogen => 1000,
            ElementInfo::Iron => 1000,
            ElementInfo::Uranium => 500,
            ElementInfo::Thorium => 200,
        }
    }

    /// Every kind, once, in the fixed order.
    pub fn all() -> (kinds: Vec<ElementInfo>)
        ensures
            kinds@ == Self::spec_all(),
    {
        vec![ElementInfo::Hydrogen, ElementInfo::Iron, ElementInfo::Uranium, ElementInfo::Thorium]
    }
}

} // verus!
