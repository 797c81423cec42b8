//! Curve construction errors and the B-spline curve constructor's checks.
pub mod bspline;
pub mod circle;
pub mod ellipse;
pub mod hyperbola;
pub mod line;
pub mod parabola;
pub mod parametrize;

pub use bspline::BSplineConstructionError;
pub use circle::CircleConstructionError;
pub use ellipse::EllipseConstructionError;
pub use hyperbola::HyperbolaConstructionError;
pub use line::LineConstructionError;
pub use parabola::ParabolaConstructionError;
pub use parametrize::ParametrizeError;
