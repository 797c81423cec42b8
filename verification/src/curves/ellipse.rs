//! Ellipse construction errors.
use vstd::prelude::*;

verus! {

/// Error returned when an ellipse cannot be constructed.
#[derive(Debug, Clone, Copy, PartialEq, Eq, Structural)]
pub enum EllipseConstructionError {
    /// The requested minor radius is negative.
    NegativeRadius,
    /// The major radius is smaller than the minor radius.
    InvertedRadii,
    /// The normal (or the x direction) has zero length, or the x direction
    /// is parallel to the normal.
    NullNormal,
    /// The major-axis point coincides with the center, so no major axis can
    /// be derived.
    NullAxis,
    /// The two points given do not determine a valid major/minor axis pair.
    InvertedAxis,
}

impl EllipseConstructionError {
    /// The human-readable description of the error.
    pub open spec fn spec_message(self) -> Seq<char> {
        match self {
            EllipseConstructionError::NegativeRadius => "minor radius is negative"@,
            EllipseConstructionError::InvertedRadii => "major radius is smaller than minor radius"@,
            EllipseConstructionError::NullNormal => "normal has zero length"@,
            EllipseConstructionError::NullAxis => "major-axis point coincides with the center"@,
            EllipseConstructionError::InvertedAxis => "the two points do not determine a valid axis pair"@,
        }
    }

    /// Returns the human-readable description of the error; it is never
    /// empty.
    pub fn to_string(&self) -> (s: String)
        ensures
            s@ == self.spec_message(),
            s@.len() > 0,
    {
        proof {
            reveal_strlit("major radius is smaller than minor radius");
            reveal_strlit("major-axis point coincides with the center");
            reveal_strlit("minor radius is negative");
            reveal_strlit("normal has zero length");
            reveal_strlit("the two points do not determine a valid axis pair");
        }
        let message = match self {
            EllipseConstructionError::NegativeRadius => "minor radius is negative",
            EllipseConstructionError::InvertedRadii => "major radius is smaller than minor radius",
            EllipseConstructionError::NullNormal => "normal has zero length",
            EllipseConstructionError::NullAxis => "major-axis point coincides with the center",
            EllipseConstructionError::InvertedAxis => "the two points do not determine a valid axis pair",
        };
        message.to_owned()
    }
}

} // verus!
