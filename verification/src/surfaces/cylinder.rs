//! Cylinder construction errors.
use vstd::prelude::*;

verus! {

/// Error returned when a cylinder cannot be constructed.
#[derive(Debug, Clone, Copy, PartialEq, Eq, Structural)]
pub enum CylinderConstructionError {
    /// The requested radius is negative.
    NegativeRadius,
    /// The axis direction has zero length.
    NullNormal,
}

impl CylinderConstructionError {
    /// The human-readable description of the error.
    pub open spec fn spec_message(self) -> Seq<char> {
        match self {
            CylinderConstructionError::NegativeRadius => "radius is negative"@,
            CylinderConstructionError::NullNormal => "axis direction has zero length"@,
        }
    }

    /// Returns the human-readable description of the error; it is never
    /// empty.
    pub fn to_string(&self) -> (s: String)
        ensures
            s@ == self.spec_message(),
            s@.len() > 0,
    {
        proof {
            reveal_strlit("axis direction has zero length");
            reveal_strlit("radius is negative");
        }
        let message = match self {
            CylinderConstructionError::NegativeRadius => "radius is negative",
            CylinderConstructionError::NullNormal => "axis direction has zero length",
        };
        message.to_owned()
    }
}

} // verus!
