//! Sphere construction errors.
use vstd::prelude::*;

verus! {

/// Error returned when a sphere cannot be constructed.
#[derive(Debug, Clone, Copy, PartialEq, Eq, Structural)]
pub enum SphereConstructionError {
    /// The requested radius is negative.
    NegativeRadius,
    /// The main axis direction has zero length.
    NullNormal,
}

impl SphereConstructionError {
    /// The human-readable description of the error.
    pub open spec fn spec_message(self) -> Seq<char> {
        match self {
            SphereConstructionError::NegativeRadius => "radius is negative"@,
            SphereConstructionError::NullNormal => "axis direction has zero length"@,
        }
    }

    /// Returns the human-readable description of the error; it is never
    /// empty.
    pub fn to_string(&self) -> (s: String)
        ensures
            s@ == self.spec_message(),
            s@.len() > 0,
    {
        proof {
            reveal_strlit("axis direction has zero length");
            reveal_strlit("radius is negative");
        }
        let message = match self {
            SphereConstructionError::NegativeRadius => "radius is negative",
            SphereConstructionError::NullNormal => "axis direction has zero length",
        };
        message.to_owned()
    }
}

} // verus!
