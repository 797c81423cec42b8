//! Verified core of a geometric kernel for CAD-grade curves and surfaces.
//!
//! The library holds the parts of the kernel that are decided on integers
//! and enum values: the construction errors of every curve, surface and
//! placement type (with their exact messages), and the B-spline knot
//! bookkeeping (direction validation, flat knot sequences, parameter-range
//! indices, periodic pole wrapping, and the order in which curve and surface
//! constructors report their errors).
pub mod curve_math;
pub mod curves;
pub mod frame;
pub mod surfaces;

pub use curves::{
    BSplineConstructionError, CircleConstructionError, EllipseConstructionError,
    HyperbolaConstructionError, LineConstructionError, ParabolaConstructionError,
    ParametrizeError,
};
pub use frame::FrameConstructionError;
pub use surfaces::{
    ConeConstructionError, CylinderConstructionError, PlaneConstructionError,
    SphereConstructionError, TorusConstructionError,
};
