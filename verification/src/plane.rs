//! The four data planes.

use vstd::prelude::*;

verus! {

/// The role a table plays.
#[derive(Clone, Copy, Debug, PartialEq, Eq, Structural)]
pub enum Plane {
    Knowledge,
    Context,
    Control,
    Execution,
}

impl Plane {
    /// The tag that stands for a plane in a stored row.
    pub open spec fn spec_tag(self) -> u8 {
        match self {
            Plane::Knowledge => 0,
            Plane::Context => 1,
            Plane::Control => 2,
            Plane::Execution => 3,
        }
    }

    /// Whether large text is kept out of this plane's tables.
    pub open spec fn forbids_large_text(self) -> bool {
        self == Plane::Control || self == Plane::Execution
    }

    /// The tag that stands for this plane in a stored row.
    pub fn tag(self) -> (t: u8)
        ensures
            t == self.spec_tag(),
    {
        match self {
            Plane::Knowledge => 0,
            Plane::Context => 1,
            Plane::Control => 2,
            Plane::Execution => 3,
        }
    }

    /// The name of this plane.
    pub fn name(self) -> (n: &'static str)
        ensures
            n@ == self.spec_name(),
    {
        match self {
            Plane::Knowledge => "Knowledge",
            Plane::Context => "Context",
            Plane::Control => "Control",
            Plane::Execution => "Execution",
        }
    }

    /// The name of this plane.
    pub open spec fn spec_name(self) -> Seq<char> {
        match self {
            Plane::Knowledge => "Knowledge"@,
            Plane::Context => "Context"@,
            Plane::Control => "Control"@,
            Plane::Execution => "Execution"@,
        }
    }
}

} // verus!
