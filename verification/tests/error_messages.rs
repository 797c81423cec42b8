use geomrust::{
    BSplineConstructionError, CircleConstructionError, ConeConstructionError,
    CylinderConstructionError, EllipseConstructionError, FrameConstructionError,
    HyperbolaConstructionError, LineConstructionError, ParabolaConstructionError,
    ParametrizeError, PlaneConstructionError, SphereConstructionError, TorusConstructionError,
};

#[test]
fn test_weight_error_variants_display() {
    assert!(!BSplineConstructionError::WeightCountMismatch
        .to_string()
        .is_empty());
    assert!(!BSplineConstructionError::NonPositiveWeight
        .to_string()
        .is_empty());
}

#[test]
fn test_error_display_all_variants() {
    let variants = [
        BSplineConstructionError::InvalidDegree,
        BSplineConstructionError::TooFewKnots,
        BSplineConstructionError::KnotsNotIncreasing,
        BSplineConstructionError::MultiplicityTooLarge,
        BSplineConstructionError::PeriodicEndMultiplicityMismatch,
        BSplineConstructionError::PoleCountMismatch,
        BSplineConstructionError::WeightCountMismatch,
        BSplineConstructionError::NonPositiveWeight,
    ];
    for v in variants {
        assert!(!v.to_string().is_empty());
    }
}

#[test]
fn test_circle_construction_error_display() {
    assert_eq!(
        CircleConstructionError::NegativeRadius.to_string(),
        "radius is negative"
    );
    assert_eq!(
        CircleConstructionError::NullNormal.to_string(),
        "normal has zero length"
    );
    assert_eq!(
        CircleConstructionError::ConfusedPoints.to_string(),
        "the points are confused"
    );
    assert_eq!(
        CircleConstructionError::CollinearPoints.to_string(),
        "the points are collinear"
    );
}

#[test]
fn test_ellipse_construction_error_display() {
    assert_eq!(
        EllipseConstructionError::NegativeRadius.to_string(),
        "minor radius is negative"
    );
    assert_eq!(
        EllipseConstructionError::InvertedRadii.to_string(),
        "major radius is smaller than minor radius"
    );
    assert_eq!(
        EllipseConstructionError::NullNormal.to_string(),
        "normal has zero length"
    );
    assert_eq!(
        EllipseConstructionError::NullAxis.to_string(),
        "major-axis point coincides with the center"
    );
    assert_eq!(
        EllipseConstructionError::InvertedAxis.to_string(),
        "the two points do not determine a valid axis pair"
    );
}

#[test]
fn test_hyperbola_construction_error_display() {
    assert_eq!(
        HyperbolaConstructionError::NegativeRadius.to_string(),
        "radius is negative"
    );
    assert_eq!(
        HyperbolaConstructionError::NullNormal.to_string(),
        "normal has zero length"
    );
    assert_eq!(
        HyperbolaConstructionError::ConfusedPoints.to_string(),
        "the points are confused"
    );
    assert_eq!(
        HyperbolaConstructionError::CollinearPoints.to_string(),
        "the points are collinear"
    );
}

#[test]
fn test_line_construction_error_display() {
    assert_eq!(
        LineConstructionError::NullDirection.to_string(),
        "direction has zero length"
    );
    assert_eq!(
        LineConstructionError::ConfusedPoints.to_string(),
        "the two points are confused"
    );
}

#[test]
fn test_parabola_construction_error_display() {
    assert_eq!(
        ParabolaConstructionError::NegativeFocal.to_string(),
        "focal distance is negative"
    );
    assert_eq!(
        ParabolaConstructionError::NullNormal.to_string(),
        "normal has zero length"
    );
}

#[test]
fn test_parametrize_error_display_and_is_std_error() {
    assert!(!ParametrizeError::NotAnalytic.to_string().is_empty());
    assert!(!ParametrizeError::CurveNotOnSurface.to_string().is_empty());
}

#[test]
fn test_frame_construction_error_display() {
    assert_eq!(
        FrameConstructionError::NullDirection.to_string(),
        "direction has zero length"
    );
    assert_eq!(
        FrameConstructionError::ParallelDirections.to_string(),
        "directions are parallel"
    );
    assert_eq!(
        FrameConstructionError::NotOrthogonal.to_string(),
        "directions are not orthogonal"
    );
}

#[test]
fn cone_test_error_display() {
    assert_eq!(
        ConeConstructionError::NegativeRadius.to_string(),
        "radius is negative"
    );
    assert_eq!(
        ConeConstructionError::BadAngle.to_string(),
        "semi-angle is out of range"
    );
    assert_eq!(
        ConeConstructionError::NullAxis.to_string(),
        "the two points are confused"
    );
    assert_eq!(
        ConeConstructionError::NullAngle.to_string(),
        "semi-angle is null or a right angle"
    );
    assert_eq!(
        ConeConstructionError::NullNormal.to_string(),
        "axis direction has zero length"
    );
}

#[test]
fn cylinder_test_error_display() {
    assert_eq!(
        CylinderConstructionError::NegativeRadius.to_string(),
        "radius is negative"
    );
    assert_eq!(
        CylinderConstructionError::NullNormal.to_string(),
        "axis direction has zero length"
    );
}

#[test]
fn plane_test_error_display() {
    assert_eq!(
        PlaneConstructionError::NullNormal.to_string(),
        "normal has zero length"
    );
    assert_eq!(
        PlaneConstructionError::ConfusedPoints.to_string(),
        "the points are confused"
    );
    assert_eq!(
        PlaneConstructionError::CollinearPoints.to_string(),
        "the points are collinear"
    );
    assert_eq!(
        PlaneConstructionError::BadEquation.to_string(),
        "the equation is degenerate"
    );
}

#[test]
fn sphere_test_error_display() {
    assert_eq!(
        SphereConstructionError::NegativeRadius.to_string(),
        "radius is negative"
    );
    assert_eq!(
        SphereConstructionError::NullNormal.to_string(),
        "axis direction has zero length"
    );
}

#[test]
fn torus_test_error_display() {
    assert_eq!(
        TorusConstructionError::NegativeRadius.to_string(),
        "radius is negative"
    );
    assert_eq!(
        TorusConstructionError::NullNormal.to_string(),
        "normal has zero length"
    );
}

#[test]
fn bspline_messages_are_exact() {
    assert_eq!(
        BSplineConstructionError::InvalidDegree.to_string(),
        "degree must be between 1 and 25"
    );
    assert_eq!(
        BSplineConstructionError::PoleCountMismatch.to_string(),
        "pole count is inconsistent with knots and multiplicities"
    );
    assert_eq!(
        BSplineConstructionError::NonPositiveWeight.to_string(),
        "a weight is zero or negative"
    );
}

#[test]
fn parametrize_messages_are_exact() {
    assert_eq!(
        ParametrizeError::NotAnalytic.to_string(),
        "no closed-form 2D representation exists for this curve/surface pair"
    );
    assert_eq!(
        ParametrizeError::CurveNotOnSurface.to_string(),
        "the curve does not lie on the surface"
    );
}

#[test]
fn errors_compare_by_variant() {
    assert_eq!(LineConstructionError::NullDirection, LineConstructionError::NullDirection);
    assert_ne!(LineConstructionError::NullDirection, LineConstructionError::ConfusedPoints);
    let e = TorusConstructionError::NullNormal;
    let copy = e;
    assert_eq!(format!("{:?}", copy), "NullNormal");
}
