//! Curve-on-surface parametrization errors.
use vstd::prelude::*;

verus! {

/// Error returned when a 3D curve has no exact 2D image in a surface's
/// parameter space.
#[derive(Debug, Clone, Copy, PartialEq, Eq, Structural)]
pub enum ParametrizeError {
    /// No closed-form 2D representation exists for this curve/surface pair.
    NotAnalytic,
    /// The curve does not lie on the surface (within tolerance).
    CurveNotOnSurface,
}

impl ParametrizeError {
    /// The human-readable description of the error.
    pub open spec fn spec_message(self) -> Seq<char> {
        match self {
            ParametrizeError::NotAnalytic => "no closed-form 2D representation exists for this curve/surface pair"@,
            ParametrizeError::CurveNotOnSurface => "the curve does not lie on the surface"@,
        }
    }

    /// Returns the human-readable description of the error; it is never
    /// empty.
    pub fn to_string(&self) -> (s: String)
        ensures
            s@ == self.spec_message(),
            s@.len() > 0,
    {
        proof {
            reveal_strlit("no closed-form 2D representation exists for this curve/surface pair");
            reveal_strlit("the curve does not lie on the surface");
        }
        let message = match self {
            ParametrizeError::NotAnalytic => "no closed-form 2D representation exists for this curve/surface pair",
            ParametrizeError::CurveNotOnSurface => "the curve does not lie on the surface",
        };
        message.to_owned()
    }
}

} // verus!
