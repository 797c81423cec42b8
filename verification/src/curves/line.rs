//! Line construction errors.
use vstd::prelude::*;

verus! {

/// Error returned when a line (3D or 2D) cannot be constructed.
#[derive(Debug, Clone, Copy, PartialEq, Eq, Structural)]
pub enum LineConstructionError {
    /// A direction vector could not be normalized (zero length).
    NullDirection,
    /// The two points given to build the line are coincident (or too close
    /// to distinguish), so no direction can be derived from them.
    ConfusedPoints,
}

impl LineConstructionError {
    /// The human-readable description of the error.
    pub open spec fn spec_message(self) -> Seq<char> {
        match self {
            LineConstructionError::NullDirection => "direction has zero length"@,
            LineConstructionError::ConfusedPoints => "the two points are confused"@,
        }
    }

    /// Returns the human-readable description of the error; it is never
    /// empty.
    pub fn to_string(&self) -> (s: String)
        ensures
            s@ == self.spec_message(),
            s@.len() > 0,
    {
        proof {
            reveal_strlit("direction has zero length");
            reveal_strlit("the two points are confused");
        }
        let message = match self {
            LineConstructionError::NullDirection => "direction has zero length",
            LineConstructionError::ConfusedPoints => "the two points are confused",
        };
        message.to_owned()
    }
}

} // verus!
