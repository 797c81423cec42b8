//! Axis and frame construction errors.
use vstd::prelude::*;

verus! {

/// Error returned when an axis or a frame cannot be constructed.
#[derive(Debug, Clone, Copy, PartialEq, Eq, Structural)]
pub enum FrameConstructionError {
    /// A direction vector could not be normalized (zero length).
    NullDirection,
    /// Two directions that should span a plane are parallel.
    ParallelDirections,
    /// Two directions that should be orthogonal are not.
    NotOrthogonal,
}

impl FrameConstructionError {
    /// The human-readable description of the error.
    pub open spec fn spec_message(self) -> Seq<char> {
        match self {
            FrameConstructionError::NullDirection => "direction has zero length"@,
            FrameConstructionError::ParallelDirections => "directions are parallel"@,
            FrameConstructionError::NotOrthogonal => "directions are not orthogonal"@,
        }
    }

    /// Returns the human-readable description of the error; it is never
    /// empty.
    pub fn to_string(&self) -> (s: String)
        ensures
            s@ == self.spec_message(),
            s@.len() > 0,
    {
        proof {
            reveal_strlit("direction has zero length");
            reveal_strlit("directions are not orthogonal");
            reveal_strlit("directions are parallel");
        }
        let message = match self {
            FrameConstructionError::NullDirection => "direction has zero length",
            FrameConstructionError::ParallelDirections => "directions are parallel",
            FrameConstructionError::NotOrthogonal => "directions are not orthogonal",
        };
        message.to_owned()
    }
}

} // verus!
