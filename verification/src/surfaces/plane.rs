//! Plane construction errors.
use vstd::prelude::*;

verus! {

/// Error returned when a plane cannot be constructed.
#[derive(Debug, Clone, Copy, PartialEq, Eq, Structural)]
pub enum PlaneConstructionError {
    /// The normal has zero length.
    NullNormal,
    /// Two (or more) of the points given to build the plane are coincident
    /// (or too close to distinguish).
    ConfusedPoints,
    /// The three points given to build the plane are collinear, so no
    /// normal can be derived from them.
    CollinearPoints,
    /// The equation `ax + by + cz + d = 0` is degenerate: `a`, `b`, and `c`
    /// are all (numerically) zero.
    BadEquation,
}

impl PlaneConstructionError {
    /// The human-readable description of the error.
    pub open spec fn spec_message(self) -> Seq<char> {
        match self {
            PlaneConstructionError::NullNormal => "normal has zero length"@,
            PlaneConstructionError::ConfusedPoints => "the points are confused"@,
            PlaneConstructionError::CollinearPoints => "the points are collinear"@,
            PlaneConstructionError::BadEquation => "the equation is degenerate"@,
        }
    }

    /// Returns the human-readable description of the error; it is never
    /// empty.
    pub fn to_string(&self) -> (s: String)
        ensures
            s@ == self.spec_message(),
            s@.len() > 0,
    {
        proof {
            reveal_strlit("normal has zero length");
            reveal_strlit("the equation is degenerate");
            reveal_strlit("the points are collinear");
            reveal_strlit("the points are confused");
        }
        let message = match self {
            PlaneConstructionError::NullNormal => "normal has zero length",
            PlaneConstructionError::ConfusedPoints => "the points are confused",
            PlaneConstructionError::CollinearPoints => "the points are collinear",
            PlaneConstructionError::BadEquation => "the equation is degenerate",
        };
        message.to_owned()
    }
}

} // verus!
