# geomrust

A geometric kernel for CAD-grade curves and surfaces, split in two:

- `src/` is the verified library (Verus). It holds what the kernel decides on
  integers and enum values: the construction errors of every curve, surface
  and placement type with their exact messages, and the B-spline knot
  bookkeeping — direction validation (degree, knot count, multiplicities,
  pole count), flat knot sequences, the active parameter range, periodic pole
  wrapping, and the order in which the B-spline curve and surface
  constructors report their errors.
- `app/` is the floating-point kernel built on it: points, vectors, frames,
  transforms, analytic and B-spline evaluation, curve-on-surface
  parametrization, and the Python bindings.

`tests/` exercises the library from outside.
