//! B-spline knot bookkeeping shared by curves and surfaces.
pub mod bspline;
