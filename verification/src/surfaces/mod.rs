//! Surface construction errors and the B-spline surface constructor's checks.
pub mod bspline;
pub mod cone;
pub mod cylinder;
pub mod plane;
pub mod sphere;
pub mod torus;

pub use cone::ConeConstructionError;
pub use cylinder::CylinderConstructionError;
pub use plane::PlaneConstructionError;
pub use sphere::SphereConstructionError;
pub use torus::TorusConstructionError;
