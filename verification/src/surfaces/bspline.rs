//! B-spline (NURBS) surface construction: the shape checks on the pole and
//! weight grids, and the order in which the constructor reports errors.
use vstd::prelude::*;

use crate::curve_math::bspline::{direction_verdict, validate_direction};
use crate::curves::bspline::BSplineConstructionError;

verus! {

/// Every entry of `s` equals `v`.
pub open spec fn all_equal(s: Seq<usize>, v: usize) -> bool {
    forall|i: int| 0 <= i < s.len() ==> s[i] == v
}

/// The view of an optional slice of row lengths.
pub open spec fn rows_view(rows: Option<&[usize]>) -> Option<Seq<usize>> {
    match rows {
        Some(r) => Some(r@),
        None => None,
    }
}

/// The error found by the grid checks, if any.
///
/// `pole_rows[i]` is the length of the `i`-th row of the pole grid (one row
/// per `u` index); `weight_rows` holds the row lengths of the weight grid of
/// a rational surface, and `weights_positive` states whether every weight is
/// strictly positive. An empty or ragged pole grid is a pole-count error; a
/// weight grid of another shape is a weight-count error.
pub open spec fn grid_error(
    pole_rows: Seq<usize>,
    weight_rows: Option<Seq<usize>>,
    weights_positive: bool,
) -> Option<BSplineConstructionError> {
    if pole_rows.len() == 0 || pole_rows[0] == 0 {
        Some(BSplineConstructionError::PoleCountMismatch)
    } else if !all_equal(pole_rows, pole_rows[0]) {
        Some(BSplineConstructionError::PoleCountMismatch)
    } else {
        match weight_rows {
            Some(w) => if w.len() != pole_rows.len() || !all_equal(w, pole_rows[0]) {
                Some(BSplineConstructionError::WeightCountMismatch)
            } else if !weights_positive {
                Some(BSplineConstructionError::NonPositiveWeight)
            } else {
                None
            },
            None => None,
        }
    }
}

/// The outcome of constructing a B-spline surface: grid checks, then the
/// `u` direction (over the grid rows), then the `v` direction (over the grid
/// columns).
pub open spec fn surface_construction_verdict(
    u_degree: nat,
    v_degree: nat,
    pole_rows: Seq<usize>,
    weight_rows: Option<Seq<usize>>,
    weights_positive: bool,
    n_u_knots: nat,
    u_knots_increasing: bool,
    u_mults: Seq<u32>,
    n_v_knots: nat,
    v_knots_increasing: bool,
    v_mults: Seq<u32>,
    u_periodic: bool,
    v_periodic: bool,
) -> Result<(), BSplineConstructionError> {
    match grid_error(pole_rows, weight_rows, weights_positive) {
        Some(e) => Err(e),
        None => match direction_verdict(
            u_degree,
            pole_rows.len(),
            n_u_knots,
            u_knots_increasing,
            u_mults,
            u_periodic,
        ) {
            Err(e) => Err(e),
            Ok(_) => direction_verdict(
                v_degree,
                pole_rows[0] as nat,
                n_v_knots,
                v_knots_increasing,
                v_mults,
                v_periodic,
            ),
        },
    }
}

/// Whether every row length in `rows[lo..]` equals `v`.
fn rows_all_equal(rows: &[usize], lo: usize, v: usize) -> (r: bool)
    requires
        lo <= rows.len(),
        forall|i: int| 0 <= i < lo ==> rows@[i] == v,
    ensures
        r == all_equal(rows@, v),
{
    let mut i = lo;
    while i < rows.len()
        invariant
            lo <= i <= rows.len(),
            forall|j: int| 0 <= j < i ==> rows@[j] == v,
        decreases rows.len() - i,
    {
        if rows[i] != v {
            return false;
        }
        i = i + 1;
    }
    true
}

/// Decides whether a B-spline surface can be built from its inputs, and
/// with which error it is refused otherwise.
///
/// Checks, in this order: the pole grid is non-empty and rectangular; the
/// weight grid (if any) has the pole grid's shape, then its weights are
/// positive; then the `u` direction with one pole per grid row; then the `v`
/// direction with one pole per grid column.
#[allow(clippy::too_many_arguments)]
pub fn check_surface_construction(
    u_degree: usize,
    v_degree: usize,
    pole_rows: &[usize],
    weight_rows: Option<&[usize]>,
    weights_positive: bool,
    n_u_knots: usize,
    u_knots_increasing: bool,
    u_mults: &[u32],
    n_v_knots: usize,
    v_knots_increasing: bool,
    v_mults: &[u32],
    u_periodic: bool,
    v_periodic: bool,
) -> (r: Result<(), BSplineConstructionError>)
    ensures
        r == surface_construction_verdict(
            u_degree as nat,
            v_degree as nat,
            pole_rows@,
            rows_view(weight_rows),
            weights_positive,
            n_u_knots as nat,
            u_knots_increasing,
            u_mults@,
            n_v_knots as nat,
            v_knots_increasing,
            v_mults@,
            u_periodic,
            v_periodic,
        ),
{
    let n_u = pole_rows.len();
    if n_u == 0 || pole_rows[0] == 0 {
        return Err(BSplineConstructionError::PoleCountMismatch);
    }
    let n_v = pole_rows[0];
    if !rows_all_equal(pole_rows, 1, n_v) {
        return Err(BSplineConstructionError::PoleCountMismatch);
    }
    if let Some(w) = weight_rows {
        if w.len() != n_u || !rows_all_equal(w, 0, n_v) {
            return Err(BSplineConstructionError::WeightCountMismatch);
        }
        if !weights_positive {
            return Err(BSplineConstructionError::NonPositiveWeight);
        }
    }
    validate_direction(u_degree, n_u, n_u_knots, u_knots_increasing, u_mults, u_periodic)?;
    validate_direction(v_degree, n_v, n_v_knots, v_knots_increasing, v_mults, v_periodic)
}

/// Law: an empty pole grid, a grid whose first row is empty, or a ragged
/// grid (some row not as long as the first) is a `PoleCountMismatch`
/// error, whatever the weights and directions.
#[verifier::rlimit(20)]
pub proof fn lemma_surface_bad_grid(
    u_degree: nat,
    v_degree: nat,
    pole_rows: Seq<usize>,
    weight_rows: Option<Seq<usize>>,
    weights_positive: bool,
    n_u_knots: nat,
    u_knots_increasing: bool,
    u_mults: Seq<u32>,
    n_v_knots: nat,
    v_knots_increasing: bool,
    v_mults: Seq<u32>,
    u_periodic: bool,
    v_periodic: bool,
    i: int,
)
    requires
        pole_rows.len() == 0 || pole_rows[0] == 0 || (0 <= i < pole_rows.len() && pole_rows[i]
            != pole_rows[0]),
    ensures
        surface_construction_verdict(
            u_degree,
            v_degree,
            pole_rows,
            weight_rows,
            weights_positive,
            n_u_knots,
            u_knots_increasing,
            u_mults,
            n_v_knots,
            v_knots_increasing,
            v_mults,
            u_periodic,
            v_periodic,
        ) == Err::<(), BSplineConstructionError>(BSplineConstructionError::PoleCountMismatch),
{
}

/// Law: on a non-empty rectangular pole grid of `n_u` rows of `n_v` poles,
///
/// - a weight grid of another shape (another row count, or some row not
///   `n_v` long) is a `WeightCountMismatch` error;
/// - a weight grid of exactly the pole grid's shape with a non-positive
///   weight is a `NonPositiveWeight` error;
/// - with positive weights of that shape the surface is judged exactly as
///   the polynomial surface (no weight grid);
/// - the polynomial surface is judged by its `u` direction, validated
///   alone with `u_periodic` and one pole per row (`n_u` poles), and, if
///   that succeeds, by its `v` direction, validated alone with `v_periodic`
///   and one pole per column (`n_v` poles); it is accepted exactly when
///   both directions are.
pub proof fn lemma_surface_weights_and_directions(
    u_degree: nat,
    v_degree: nat,
    pole_rows: Seq<usize>,
    weight_rows: Option<Seq<usize>>,
    weights_positive: bool,
    n_u_knots: nat,
    u_knots_increasing: bool,
    u_mults: Seq<u32>,
    n_v_knots: nat,
    v_knots_increasing: bool,
    v_mults: Seq<u32>,
    u_periodic: bool,
    v_periodic: bool,
)
    requires
        pole_rows.len() > 0,
        pole_rows[0] > 0,
        forall|i: int| 0 <= i < pole_rows.len() ==> #[trigger] pole_rows[i] == pole_rows[0],
    ensures
        (weight_rows matches Some(w) && (w.len() != pole_rows.len() || exists|i: int|
            0 <= i < w.len() && #[trigger] w[i] != pole_rows[0])) ==> surface_construction_verdict(
            u_degree,
            v_degree,
            pole_rows,
            weight_rows,
            weights_positive,
            n_u_knots,
            u_knots_increasing,
            u_mults,
            n_v_knots,
            v_knots_increasing,
            v_mults,
            u_periodic,
            v_periodic,
        ) == Err::<(), BSplineConstructionError>(BSplineConstructionError::WeightCountMismatch),
        weight_rows == Some(pole_rows) && !weights_positive ==> surface_construction_verdict(
            u_degree,
            v_degree,
            pole_rows,
            weight_rows,
            weights_positive,
            n_u_knots,
            u_knots_increasing,
            u_mults,
            n_v_knots,
            v_knots_increasing,
            v_mults,
            u_periodic,
            v_periodic,
        ) == Err::<(), BSplineConstructionError>(BSplineConstructionError::NonPositiveWeight),
        weight_rows == Some(pole_rows) && weights_positive ==> surface_construction_verdict(
            u_degree,
            v_degree,
            pole_rows,
            weight_rows,
            weights_positive,
            n_u_knots,
            u_knots_increasing,
            u_mults,
            n_v_knots,
            v_knots_increasing,
            v_mults,
            u_periodic,
            v_periodic,
        ) == surface_construction_verdict(
            u_degree,
            v_degree,
            pole_rows,
            None,
            false,
            n_u_knots,
            u_knots_increasing,
            u_mults,
            n_v_knots,
            v_knots_increasing,
            v_mults,
            u_periodic,
            v_periodic,
        ),
        ({
            let verdict = surface_construction_verdict(
                u_degree,
                v_degree,
                pole_rows,
                None,
                weights_positive,
                n_u_knots,
                u_knots_increasing,
                u_mults,
                n_v_knots,
                v_knots_increasing,
                v_mults,
                u_periodic,
                v_periodic,
            );
            let u_dir = direction_verdict(
                u_degree,
                pole_rows.len(),
                n_u_knots,
                u_knots_increasing,
                u_mults,
                u_periodic,
            );
            let v_dir = direction_verdict(
                v_degree,
                pole_rows[0] as nat,
                n_v_knots,
                v_knots_increasing,
                v_mults,
                v_periodic,
            );
            &&& u_dir is Err ==> verdict == u_dir
            &&& u_dir is Ok ==> verdict == v_dir
            &&& (verdict is Ok <==> u_dir is Ok && v_dir is Ok)
        }),
{
}

} // verus!
