//! Hyperbola construction errors.
use vstd::prelude::*;

verus! {

/// Error returned when a hyperbola cannot be constructed.
#[derive(Debug, Clone, Copy, PartialEq, Eq, Structural)]
pub enum HyperbolaConstructionError {
    /// The major or minor radius is negative.
    NegativeRadius,
    /// The normal (or the x direction) has zero length, or the x direction
    /// is parallel to the normal.
    NullNormal,
    /// Two (or more) of the three points given to build the hyperbola are
    /// coincident (or too close to distinguish).
    ConfusedPoints,
    /// The second point lies on the major-axis line, so no minor axis can
    /// be derived.
    CollinearPoints,
}

impl HyperbolaConstructionError {
    /// The human-readable description of the error.
    pub open spec fn spec_message(self) -> Seq<char> {
        match self {
            HyperbolaConstructionError::NegativeRadius => "radius is negative"@,
            HyperbolaConstructionError::NullNormal => "normal has zero length"@,
            HyperbolaConstructionError::ConfusedPoints => "the points are confused"@,
            HyperbolaConstructionError::CollinearPoints => "the points are collinear"@,
        }
    }

    /// Returns the human-readable description of the error; it is never
    /// empty.
    pub fn to_string(&self) -> (s: String)
        ensures
            s@ == self.spec_message(),
            s@.len() > 0,
    {
        proof {
            reveal_strlit("normal has zero length");
            reveal_strlit("radius is negative");
            reveal_strlit("the points are collinear");
            reveal_strlit("the points are confused");
        }
        let message = match self {
            HyperbolaConstructionError::NegativeRadius => "radius is negative",
            HyperbolaConstructionError::NullNormal => "normal has zero length",
            HyperbolaConstructionError::ConfusedPoints => "the points are confused",
            HyperbolaConstructionError::CollinearPoints => "the points are collinear",
        };
        message.to_owned()
    }
}

} // verus!
