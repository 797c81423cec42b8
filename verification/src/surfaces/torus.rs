//! Torus construction errors.
use vstd::prelude::*;

verus! {

/// Error returned when a torus cannot be constructed.
#[derive(Debug, Clone, Copy, PartialEq, Eq, Structural)]
pub enum TorusConstructionError {
    /// Either the major or the minor radius is negative.
    NegativeRadius,
    /// The main axis direction has zero length.
    NullNormal,
}

impl TorusConstructionError {
    /// The human-readable description of the error.
    pub open spec fn spec_message(self) -> Seq<char> {
        match self {
            TorusConstructionError::NegativeRadius => "radius is negative"@,
            TorusConstructionError::NullNormal => "normal has zero length"@,
        }
    }

    /// Returns the human-readable description of the error; it is never
    /// empty.
    pub fn to_string(&self) -> (s: String)
        ensures
            s@ == self.spec_message(),
            s@.len() > 0,
    {
        proof {
            reveal_strlit("normal has zero length");
            reveal_strlit("radius is negative");
        }
        let message = match self {
            TorusConstructionError::NegativeRadius => "radius is negative",
            TorusConstructionError::NullNormal => "normal has zero length",
        };
        message.to_owned()
    }
}

} // verus!
