//! B-spline (NURBS) curve construction: its error type and the order in
//! which the constructor checks its inputs.
use vstd::prelude::*;

use crate::curve_math::bspline::{direction_verdict, validate_direction};

verus! {

/// Error returned when a B-spline curve (or one direction of a B-spline
/// surface) cannot be constructed from the given degree, poles, knots,
/// multiplicities, and (for rational curves) weights.
#[derive(Debug, Clone, Copy, PartialEq, Eq, Structural)]
pub enum BSplineConstructionError {
    /// The degree is `< 1` or `> 25`.
    InvalidDegree,
    /// Fewer than two distinct knot values were given.
    TooFewKnots,
    /// The knot values are not strictly increasing.
    KnotsNotIncreasing,
    /// A multiplicity is too large: an interior multiplicity exceeds the
    /// degree, or (non-periodic) an end multiplicity exceeds `degree + 1`, or
    /// (periodic) any multiplicity exceeds the degree.
    MultiplicityTooLarge,
    /// The curve is periodic but the first and last multiplicities differ.
    PeriodicEndMultiplicityMismatch,
    /// The pole count is inconsistent with the knots and multiplicities
    /// (non-periodic requires `n_poles == sum(mults) - degree - 1`; periodic
    /// requires `n_poles == sum(mults) - mults[last]`), or too small to
    /// evaluate the curve (non-periodic: fewer than `degree + 1` poles;
    /// periodic: fewer than `degree` poles, or a zero end multiplicity).
    PoleCountMismatch,
    /// The number of weights does not equal the number of poles.
    WeightCountMismatch,
    /// A weight is zero or negative.
    NonPositiveWeight,
}

impl BSplineConstructionError {
    /// The human-readable description of the error.
    pub open spec fn spec_message(self) -> Seq<char> {
        match self {
            BSplineConstructionError::InvalidDegree => "degree must be between 1 and 25"@,
            BSplineConstructionError::TooFewKnots => "fewer than two distinct knots"@,
            BSplineConstructionError::KnotsNotIncreasing => "knots are not strictly increasing"@,
            BSplineConstructionError::MultiplicityTooLarge => "a knot multiplicity is too large"@,
            BSplineConstructionError::PeriodicEndMultiplicityMismatch =>
                "periodic end multiplicities differ"@,
            BSplineConstructionError::PoleCountMismatch =>
                "pole count is inconsistent with knots and multiplicities"@,
            BSplineConstructionError::WeightCountMismatch =>
                "weight count does not match pole count"@,
            BSplineConstructionError::NonPositiveWeight => "a weight is zero or negative"@,
        }
    }

    /// Returns the human-readable description of the error; it is never
    /// empty.
    pub fn to_string(&self) -> (s: String)
        ensures
            s@ == self.spec_message(),
            s@.len() > 0,
    {
        proof {
            reveal_strlit("degree must be between 1 and 25");
            reveal_strlit("fewer than two distinct knots");
            reveal_strlit("knots are not strictly increasing");
            reveal_strlit("a knot multiplicity is too large");
            reveal_strlit("periodic end multiplicities differ");
            reveal_strlit("pole count is inconsistent with knots and multiplicities");
            reveal_strlit("weight count does not match pole count");
            reveal_strlit("a weight is zero or negative");
        }
        let message = match self {
            BSplineConstructionError::InvalidDegree => "degree must be between 1 and 25",
            BSplineConstructionError::TooFewKnots => "fewer than two distinct knots",
            BSplineConstructionError::KnotsNotIncreasing => "knots are not strictly increasing",
            BSplineConstructionError::MultiplicityTooLarge => "a knot multiplicity is too large",
            BSplineConstructionError::PeriodicEndMultiplicityMismatch => {
                "periodic end multiplicities differ"
            },
            BSplineConstructionError::PoleCountMismatch => {
                "pole count is inconsistent with knots and multiplicities"
            },
            BSplineConstructionError::WeightCountMismatch => {
                "weight count does not match pole count"
            },
            BSplineConstructionError::NonPositiveWeight => "a weight is zero or negative",
        };
        message.to_owned()
    }
}

/// The outcome of constructing a B-spline curve: weight checks first (count,
/// then positivity), then the direction validation.
///
/// `weight_count` is `None` for a non-rational curve; `weights_positive`
/// states whether every weight is strictly positive.
pub open spec fn curve_construction_verdict(
    degree: nat,
    n_poles: nat,
    weight_count: Option<usize>,
    weights_positive: bool,
    n_knots: nat,
    knots_increasing: bool,
    mults: Seq<u32>,
    periodic: bool,
) -> Result<(), BSplineConstructionError> {
    match weight_count {
        Some(w) if w != n_poles => Err(BSplineConstructionError::WeightCountMismatch),
        Some(w) if !weights_positive => Err(BSplineConstructionError::NonPositiveWeight),
        _ => direction_verdict(degree, n_poles, n_knots, knots_increasing, mults, periodic),
    }
}

/// Decides whether a B-spline curve can be built from its inputs, and with
/// which error it is refused otherwise.
///
/// The weight count is checked before the weights' signs, and both before
/// the degree, knots, multiplicities and pole count.
pub fn check_curve_construction(
    degree: usize,
    n_poles: usize,
    weight_count: Option<usize>,
    weights_positive: bool,
    n_knots: usize,
    knots_increasing: bool,
    mults: &[u32],
    periodic: bool,
) -> (r: Result<(), BSplineConstructionError>)
    ensures
        r == curve_construction_verdict(
            degree as nat,
            n_poles as nat,
            weight_count,
            weights_positive,
            n_knots as nat,
            knots_increasing,
            mults@,
            periodic,
        ),
{
    if let Some(w) = weight_count {
        if w != n_poles {
            return Err(BSplineConstructionError::WeightCountMismatch);
        }
        if !weights_positive {
            return Err(BSplineConstructionError::NonPositiveWeight);
        }
    }
    validate_direction(degree, n_poles, n_knots, knots_increasing, mults, periodic)
}

/// A rational curve whose weights match the poles in number and are all
/// positive is validated exactly as the polynomial curve on the same degree,
/// poles, knots and multiplicities.
pub proof fn lemma_rational_validated_as_polynomial(
    degree: nat,
    n_poles: usize,
    n_knots: nat,
    knots_increasing: bool,
    mults: Seq<u32>,
    periodic: bool,
)
    ensures
        curve_construction_verdict(
            degree,
            n_poles as nat,
            Some(n_poles),
            true,
            n_knots,
            knots_increasing,
            mults,
            periodic,
        ) == curve_construction_verdict(
            degree,
            n_poles as nat,
            None,
            false,
            n_knots,
            knots_increasing,
            mults,
            periodic,
        ),
        curve_construction_verdict(
            degree,
            n_poles as nat,
            None,
            false,
            n_knots,
            knots_increasing,
            mults,
            periodic,
        ) == direction_verdict(degree, n_poles as nat, n_knots, knots_increasing, mults, periodic),
{
}

/// Law: the weights of a rational curve are checked first. A weight count
/// that differs from the pole count, smaller or larger, is a
/// `WeightCountMismatch` error whatever the rest; with the right count,
/// a non-positive weight is a `NonPositiveWeight` error; with the right
/// count and positive weights, and for a polynomial curve whatever
/// `weights_positive` says, the curve is judged by its direction alone.
pub proof fn lemma_curve_weight_checks(
    degree: nat,
    n_poles: usize,
    weight_count: Option<usize>,
    weights_positive: bool,
    n_knots: nat,
    knots_increasing: bool,
    mults: Seq<u32>,
    periodic: bool,
)
    ensures
        weight_count matches Some(w) && w != n_poles ==> curve_construction_verdict(
            degree,
            n_poles as nat,
            weight_count,
            weights_positive,
            n_knots,
            knots_increasing,
            mults,
            periodic,
        ) == Err::<(), BSplineConstructionError>(BSplineConstructionError::WeightCountMismatch),
        weight_count == Some(n_poles) && !weights_positive ==> curve_construction_verdict(
            degree,
            n_poles as nat,
            weight_count,
            weights_positive,
            n_knots,
            knots_increasing,
            mults,
            periodic,
        ) == Err::<(), BSplineConstructionError>(BSplineConstructionError::NonPositiveWeight),
        (weight_count == Some(n_poles) && weights_positive) || weight_count is None
            ==> curve_construction_verdict(
            degree,
            n_poles as nat,
            weight_count,
            weights_positive,
            n_knots,
            knots_increasing,
            mults,
            periodic,
        ) == direction_verdict(degree, n_poles as nat, n_knots, knots_increasing, mults, periodic),
{
}

} // verus!
