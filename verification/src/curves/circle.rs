//! Circle construction errors.
use vstd::prelude::*;

verus! {

/// Error returned when a circle (3D or 2D) cannot be constructed.
#[derive(Debug, Clone, Copy, PartialEq, Eq, Structural)]
pub enum CircleConstructionError {
    /// The requested radius is negative.
    NegativeRadius,
    /// The normal (or main axis direction) has zero length.
    NullNormal,
    /// Two (or more) of the three points given to build the circle are
    /// coincident (or too close to distinguish).
    ConfusedPoints,
    /// The three points given to build the circle are collinear, so no
    /// (finite-radius) circle passes through all three.
    CollinearPoints,
}

impl CircleConstructionError {
    /// The human-readable description of the error.
    pub open spec fn spec_message(self) -> Seq<char> {
        match self {
            CircleConstructionError::NegativeRadius => "radius is negative"@,
            CircleConstructionError::NullNormal => "normal has zero length"@,
            CircleConstructionError::ConfusedPoints => "the points are confused"@,
            CircleConstructionError::CollinearPoints => "the points are collinear"@,
        }
    }

    /// Returns the human-readable description of the error; it is never
    /// empty.
    pub fn to_string(&self) -> (s: String)
        ensures
            s@ == self.spec_message(),
            s@.len() > 0,
    {
        proof {
            reveal_strlit("normal has zero length");
            reveal_strlit("radius is negative");
            reveal_strlit("the points are collinear");
            reveal_strlit("the points are confused");
        }
        let message = match self {
            CircleConstructionError::NegativeRadius => "radius is negative",
            CircleConstructionError::NullNormal => "normal has zero length",
            CircleConstructionError::ConfusedPoints => "the points are confused",
            CircleConstructionError::CollinearPoints => "the points are collinear",
        };
        message.to_owned()
    }
}

} // verus!
