//! Cone construction errors.
use vstd::prelude::*;

verus! {

/// Error returned when a cone cannot be constructed.
#[derive(Debug, Clone, Copy, PartialEq, Eq, Structural)]
pub enum ConeConstructionError {
    /// The requested reference radius is negative.
    NegativeRadius,
    /// The semi-angle is out of the accepted range.
    BadAngle,
    /// The two points used to derive the axis are coincident (or too close
    /// to distinguish).
    NullAxis,
    /// The derived semi-angle is (numerically) zero or a right angle.
    NullAngle,
    /// The axis direction has zero length.
    NullNormal,
}

impl ConeConstructionError {
    /// The human-readable description of the error.
    pub open spec fn spec_message(self) -> Seq<char> {
        match self {
            ConeConstructionError::NegativeRadius => "radius is negative"@,
            ConeConstructionError::BadAngle => "semi-angle is out of range"@,
            ConeConstructionError::NullAxis => "the two points are confused"@,
            ConeConstructionError::NullAngle => "semi-angle is null or a right angle"@,
            ConeConstructionError::NullNormal => "axis direction has zero length"@,
        }
    }

    /// Returns the human-readable description of the error; it is never
    /// empty.
    pub fn to_string(&self) -> (s: String)
        ensures
            s@ == self.spec_message(),
            s@.len() > 0,
    {
        proof {
            reveal_strlit("axis direction has zero length");
            reveal_strlit("radius is negative");
            reveal_strlit("semi-angle is null or a right angle");
            reveal_strlit("semi-angle is out of range");
            reveal_strlit("the two points are confused");
        }
        let message = match self {
            ConeConstructionError::NegativeRadius => "radius is negative",
            ConeConstructionError::BadAngle => "semi-angle is out of range",
            ConeConstructionError::NullAxis => "the two points are confused",
            ConeConstructionError::NullAngle => "semi-angle is null or a right angle",
            ConeConstructionError::NullNormal => "axis direction has zero length",
        };
        message.to_owned()
    }
}

} // verus!
