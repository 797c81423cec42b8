//! Integer side of B-spline evaluation: validating a direction (degree,
//! knots, multiplicities, pole count), expanding knots into the flat knot
//! sequence, picking the active parameter range out of it, and wrapping pole
//! indices of periodic curves.
//!
//! A knot vector is given as distinct knot values plus one multiplicity per
//! value; its *flat* form repeats knot `i` exactly `mults[i]` times.
use vstd::prelude::*;

use crate::curves::bspline::BSplineConstructionError;

verus! {

/// Maximum supported B-spline degree.
pub const MAX_DEGREE: usize = 25;

/// Sum of a sequence of multiplicities.
pub open spec fn seq_sum(s: Seq<u32>) -> int
    decreases s.len(),
{
    if s.len() == 0 {
        0
    } else {
        seq_sum(s.drop_last()) + s.last()
    }
}

/// Whether some multiplicity with index in `lo..hi` exceeds `bound`.
pub open spec fn mult_exceeds(mults: Seq<u32>, lo: int, hi: int, bound: int) -> bool {
    exists|i: int| lo <= i < hi && mults[i] > bound
}

/// The error found by the checks that precede the pole-count check, if any:
/// degree bounds, knot count, knot monotonicity, and multiplicity bounds.
///
/// `knots_increasing` states whether the knot values are strictly
/// increasing.
pub open spec fn structural_error(
    degree: nat,
    n_knots: nat,
    knots_increasing: bool,
    mults: Seq<u32>,
    periodic: bool,
) -> Option<BSplineConstructionError> {
    let last = mults.len() - 1;
    if !(1 <= degree <= MAX_DEGREE) {
        Some(BSplineConstructionError::InvalidDegree)
    } else if n_knots < 2 || mults.len() < 2 || n_knots != mults.len() {
        Some(BSplineConstructionError::TooFewKnots)
    } else if !knots_increasing {
        Some(BSplineConstructionError::KnotsNotIncreasing)
    } else if periodic && mults[0] != mults[last] {
        Some(BSplineConstructionError::PeriodicEndMultiplicityMismatch)
    } else if periodic && mult_exceeds(mults, 0, mults.len() as int, degree as int) {
        Some(BSplineConstructionError::MultiplicityTooLarge)
    } else if !periodic && (mults[0] > degree + 1 || mults[last] > degree + 1 || mult_exceeds(
        mults,
        1,
        last,
        degree as int,
    )) {
        Some(BSplineConstructionError::MultiplicityTooLarge)
    } else {
        None
    }
}

/// The pole count that a direction's knots and multiplicities call for:
/// `sum(mults) - mults[last]` if periodic, `sum(mults) - degree - 1`
/// otherwise.
pub open spec fn expected_pole_count(degree: nat, mults: Seq<u32>, periodic: bool) -> int {
    if periodic {
        seq_sum(mults) - mults.last()
    } else {
        seq_sum(mults) - degree - 1
    }
}

/// Whether a direction has enough poles to be evaluated everywhere on its
/// parameter range: at least `degree + 1` for a clamped direction; for a
/// periodic one at least `degree` (its span windows wrap around the pole
/// ring), with the end knot present in the flat sequence (end multiplicity
/// at least 1), so that the period is bounded by the first and last knots.
pub open spec fn enough_poles(degree: nat, n_poles: nat, mults: Seq<u32>, periodic: bool) -> bool {
    if periodic {
        n_poles >= degree && mults.last() >= 1
    } else {
        n_poles >= degree + 1
    }
}

/// The outcome of validating one B-spline direction.
pub open spec fn direction_verdict(
    degree: nat,
    n_poles: nat,
    n_knots: nat,
    knots_increasing: bool,
    mults: Seq<u32>,
    periodic: bool,
) -> Result<(), BSplineConstructionError> {
    match structural_error(degree, n_knots, knots_increasing, mults, periodic) {
        Some(e) => Err(e),
        None => if n_poles == expected_pole_count(degree, mults, periodic) && enough_poles(
            degree,
            n_poles,
            mults,
            periodic,
        ) {
            Ok(())
        } else {
            Err(BSplineConstructionError::PoleCountMismatch)
        },
    }
}

/// The first `n` pairs of the flat knot sequence: knot `i` repeated
/// `mults[i]` times, for `i < n`.
pub open spec fn flat_prefix<T>(knots: Seq<T>, mults: Seq<u32>, n: int) -> Seq<T>
    decreases n,
{
    if n <= 0 {
        Seq::empty()
    } else {
        flat_prefix(knots, mults, n - 1) + Seq::new(mults[n - 1] as nat, |j: int| knots[n - 1])
    }
}

/// Number of (knot, multiplicity) pairs: the shorter of the two sequences.
pub open spec fn pair_count<T>(knots: Seq<T>, mults: Seq<u32>) -> int {
    if knots.len() <= mults.len() {
        knots.len() as int
    } else {
        mults.len() as int
    }
}

/// The flat knot sequence of `knots`/`mults`.
pub open spec fn spec_flat_knots<T>(knots: Seq<T>, mults: Seq<u32>) -> Seq<T> {
    flat_prefix(knots, mults, pair_count(knots, mults))
}

/// A prefix of the multiplicities never sums to more than all of them.
pub proof fn lemma_prefix_sum_le(s: Seq<u32>, i: int)
    requires
        0 <= i <= s.len(),
    ensures
        0 <= seq_sum(s.take(i)) <= seq_sum(s),
    decreases s.len(),
{
    if i == s.len() {
        assert(s.take(i) =~= s);
        lemma_sum_nonneg(s);
    } else {
        assert(s.take(i) =~= s.drop_last().take(i));
        lemma_prefix_sum_le(s.drop_last(), i);
    }
}

/// Sums of multiplicities are never negative.
pub proof fn lemma_sum_nonneg(s: Seq<u32>)
    ensures
        seq_sum(s) >= 0,
    decreases s.len(),
{
    if s.len() > 0 {
        lemma_sum_nonneg(s.drop_last());
    }
}

/// Sum of all multiplicities, as the evaluator computes it for the flat
/// knot count.
pub fn sum_mults(mults: &[u32]) -> (s: u32)
    requires
        seq_sum(mults@) <= u32::MAX,
    ensures
        s == seq_sum(mults@),
{
    let mut s: u32 = 0;
    let mut i: usize = 0;
    while i < mults.len()
        invariant
            i <= mults.len(),
            seq_sum(mults@) <= u32::MAX,
            s == seq_sum(mults@.take(i as int)),
        decreases mults.len() - i,
    {
        proof {
            assert(mults@.take(i + 1).drop_last() =~= mults@.take(i as int));
            lemma_prefix_sum_le(mults@, i + 1);
        }
        s = s + mults[i];
        i = i + 1;
    }
    proof {
        assert(mults@.take(i as int) =~= mults@);
    }
    s
}

/// A prefix of `i` multiplicities sums to at most `i * u32::MAX`.
proof fn lemma_prefix_sum_bound(s: Seq<u32>, i: int)
    requires
        0 <= i <= s.len(),
    ensures
        seq_sum(s.take(i)) <= i * (u32::MAX as int),
    decreases i,
{
    if i > 0 {
        assert(s.take(i).drop_last() =~= s.take(i - 1));
        lemma_prefix_sum_bound(s, i - 1);
    }
}

/// Sum of all multiplicities, computed wide enough never to overflow.
fn sum_mults_wide(mults: &[u32]) -> (s: u128)
    ensures
        s == seq_sum(mults@),
{
    let mut s: u128 = 0;
    let mut i: usize = 0;
    while i < mults.len()
        invariant
            i <= mults.len(),
            s == seq_sum(mults@.take(i as int)),
        decreases mults.len() - i,
    {
        proof {
            assert(mults@.take(i + 1).drop_last() =~= mults@.take(i as int));
            lemma_prefix_sum_bound(mults@, i as int);
            assert(i * (u32::MAX as int) <= usize::MAX * (u32::MAX as int)) by (nonlinear_arith)
                requires
                    i <= usize::MAX,
            ;
        }
        s = s + mults[i] as u128;
        i = i + 1;
    }
    proof {
        assert(mults@.take(i as int) =~= mults@);
    }
    s
}

/// Whether some multiplicity in `lo..hi` exceeds `bound`.
fn any_mult_exceeds(mults: &[u32], lo: usize, hi: usize, bound: u32) -> (r: bool)
    requires
        lo <= hi <= mults.len(),
    ensures
        r == mult_exceeds(mults@, lo as int, hi as int, bound as int),
{
    let mut i = lo;
    while i < hi
        invariant
            lo <= i <= hi <= mults.len(),
            forall|j: int| lo <= j < i ==> mults@[j] <= bound,
        decreases hi - i,
    {
        if mults[i] > bound {
            return true;
        }
        i = i + 1;
    }
    false
}

/// Validates a B-spline direction (shared by curves and both directions of
/// a surface).
///
/// Checks, in this order: degree bounds (`1..=25`), knot count (at least two
/// knots, as many multiplicities as knots), strict monotonicity of the knot
/// values (given as `knots_increasing`), the periodic end-multiplicity
/// match, the multiplicity bounds, and finally the pole count: it must match
/// the knots and multiplicities and be large enough to evaluate the
/// direction (see [`enough_poles`]).
/// Weights are not validated here.
pub fn validate_direction(
    degree: usize,
    n_poles: usize,
    n_knots: usize,
    knots_increasing: bool,
    mults: &[u32],
    periodic: bool,
) -> (r: Result<(), BSplineConstructionError>)
    ensures
        r == direction_verdict(
            degree as nat,
            n_poles as nat,
            n_knots as nat,
            knots_increasing,
            mults@,
            periodic,
        ),
{
    if degree < 1 || degree > MAX_DEGREE {
        return Err(BSplineConstructionError::InvalidDegree);
    }
    if n_knots < 2 || mults.len() < 2 || n_knots != mults.len() {
        return Err(BSplineConstructionError::TooFewKnots);
    }
    if !knots_increasing {
        return Err(BSplineConstructionError::KnotsNotIncreasing);
    }
    let last = mults.len() - 1;
    let deg = degree as u32;
    if periodic {
        if mults[0] != mults[last] {
            return Err(BSplineConstructionError::PeriodicEndMultiplicityMismatch);
        }
        if any_mult_exceeds(mults, 0, mults.len(), deg) {
            return Err(BSplineConstructionError::MultiplicityTooLarge);
        }
    } else {
        if mults[0] > deg + 1 || mults[last] > deg + 1 {
            return Err(BSplineConstructionError::MultiplicityTooLarge);
        }
        if any_mult_exceeds(mults, 1, last, deg) {
            return Err(BSplineConstructionError::MultiplicityTooLarge);
        }
    }
    let total = sum_mults_wide(mults);
    let matches = if periodic {
        (n_poles as u128) + (mults[last] as u128) == total
    } else {
        (n_poles as u128) + (degree as u128) + 1 == total
    };
    let enough = if periodic {
        n_poles >= degree && mults[last] >= 1
    } else {
        n_poles > degree
    };
    if matches && enough {
        Ok(())
    } else {
        Err(BSplineConstructionError::PoleCountMismatch)
    }
}

/// Builds the flat knot sequence: knot `i` repeated `mults[i]` times, for
/// every `i` below the shorter of the two lengths.
///
/// This is plain repetition with no padding; e.g. knots `[0, 1, 2]` with
/// multiplicities `[3, 1, 3]` give `[0, 0, 0, 1, 2, 2, 2]`.
pub fn flat_knots<T: Copy>(knots: &[T], mults: &[u32]) -> (out: Vec<T>)
    ensures
        out@ == spec_flat_knots(knots@, mults@),
{
    let n = if knots.len() <= mults.len() {
        knots.len()
    } else {
        mults.len()
    };
    let mut out: Vec<T> = Vec::new();
    let mut i: usize = 0;
    while i < n
        invariant
            i <= n,
            n as int == pair_count(knots@, mults@),
            n <= knots.len(),
            n <= mults.len(),
            out@ == flat_prefix(knots@, mults@, i as int),
        decreases n - i,
    {
        let k = knots[i];
        let m = mults[i];
        let mut j: u32 = 0;
        while j < m
            invariant
                i < n,
                n <= knots.len(),
                n <= mults.len(),
                m == mults@[i as int],
                k == knots@[i as int],
                j <= m,
                out@ == flat_prefix(knots@, mults@, i as int) + Seq::new(
                    j as nat,
                    |t: int| knots@[i as int],
                ),
            decreases m - j,
        {
            out.push(k);
            proof {
                assert(Seq::new((j + 1) as nat, |t: int| knots@[i as int]) =~= Seq::new(
                    j as nat,
                    |t: int| knots@[i as int],
                ).push(k));
            }
            j = j + 1;
        }
        proof {
            assert(out@ =~= flat_prefix(knots@, mults@, i + 1));
        }
        i = i + 1;
    }
    out
}

/// The active parameter range of a direction, as the pair of flat-knot
/// values `(flat[first], flat[last])` that bound it.
///
/// Non-periodic: the clamped span `(flat[degree], flat[len - 1 - degree])`.
/// Periodic: `(flat[0], flat[len - 1])`, whose width is the period.
/// `sum_mults` is the multiplicity sum the flat sequence was built from.
pub fn param_range<T: Copy>(flat: &[T], degree: usize, periodic: bool, sum_mults: usize) -> (r: (
    T,
    T,
))
    requires
        flat.len() == sum_mults,
        flat.len() > 0,
        !periodic ==> degree < flat.len(),
    ensures
        periodic ==> r == (flat@[0], flat@[flat.len() - 1]),
        !periodic ==> r == (flat@[degree as int], flat@[flat.len() - 1 - degree]),
{
    if periodic {
        (flat[0], flat[flat.len() - 1])
    } else {
        (flat[degree], flat[flat.len() - 1 - degree])
    }
}

/// The pole that feeds slot `k` of a periodic direction's extended (tiled)
/// pole buffer, whose middle knot copy starts at `mid_off`: the buffer is
/// aligned `degree` slots early, so the first window of the middle copy
/// (slots `mid_off - degree ..= mid_off`) holds poles `0 ..= degree`.
pub open spec fn pole_slot(k: int, mid_off: int, degree: int, n_poles: int) -> int {
    (k + degree - mid_off) % n_poles
}

/// Index of the pole that feeds slot `k` of a periodic direction's extended
/// (tiled) pole buffer: `k + degree - mid_off` taken modulo the pole count,
/// as a non-negative remainder.
pub fn periodic_pole_index(k: usize, mid_off: usize, degree: usize, n_poles: usize) -> (r: usize)
    requires
        n_poles > 0,
        n_poles <= isize::MAX,
        k + degree <= isize::MAX,
        mid_off <= isize::MAX,
    ensures
        r == pole_slot(k as int, mid_off as int, degree as int, n_poles as int),
        r < n_poles,
{
    let s = k + degree;
    if s >= mid_off {
        (s - mid_off) % n_poles
    } else {
        let a = mid_off - s;
        let d = a % n_poles;
        proof {
            let n = n_poles as int;
            let ai = a as int;
            let x = k + degree - mid_off;
            let q = ai / n;
            vstd::arithmetic::div_mod::lemma_fundamental_div_mod(ai, n);
            if d == 0 {
                assert(x == (-q) * n + 0) by (nonlinear_arith)
                    requires
                        ai == n * q + 0,
                        x == -ai,
                ;
                vstd::arithmetic::div_mod::lemma_fundamental_div_mod_converse(x, n, -q, 0);
            } else {
                assert(x == (-q - 1) * n + (n - d)) by (nonlinear_arith)
                    requires
                        ai == n * q + d,
                        x == -ai,
                ;
                vstd::arithmetic::div_mod::lemma_fundamental_div_mod_converse(x, n, -q - 1, n - d);
            }
        }
        if d == 0 {
            0
        } else {
            n_poles - d
        }
    }
}

// ---- laws ----
/// The flat knot sequence of the first `n` pairs has `sum(mults[..n])`
/// entries.
pub proof fn lemma_flat_prefix_len<T>(knots: Seq<T>, mults: Seq<u32>, n: int)
    requires
        0 <= n <= mults.len(),
    ensures
        flat_prefix(knots, mults, n).len() == seq_sum(mults.take(n)),
    decreases n,
{
    if n > 0 {
        lemma_flat_prefix_len(knots, mults, n - 1);
        assert(mults.take(n).drop_last() =~= mults.take(n - 1));
    }
}

/// In the flat knot sequence, knot `i` occupies exactly the `mults[i]`
/// slots that start at `sum(mults[..i])`.
pub proof fn lemma_flat_knots_repeat<T>(knots: Seq<T>, mults: Seq<u32>, i: int, j: int)
    requires
        0 <= i < pair_count(knots, mults),
        0 <= j < mults[i],
    ensures
        seq_sum(mults.take(i)) + j < spec_flat_knots(knots, mults).len(),
        spec_flat_knots(knots, mults)[seq_sum(mults.take(i)) + j] == knots[i],
{
    lemma_flat_prefix_keeps(knots, mults, i + 1, pair_count(knots, mults));
    lemma_flat_prefix_len(knots, mults, i);
    let base = seq_sum(mults.take(i));
    let p = flat_prefix(knots, mults, i + 1);
    assert(p[base + j] == knots[i]);
}

/// A shorter flat prefix is a prefix of a longer one.
proof fn lemma_flat_prefix_keeps<T>(knots: Seq<T>, mults: Seq<u32>, m: int, n: int)
    requires
        0 <= m <= n,
    ensures
        flat_prefix(knots, mults, m).len() <= flat_prefix(knots, mults, n).len(),
        forall|t: int|
            0 <= t < flat_prefix(knots, mults, m).len() ==> flat_prefix(knots, mults, n)[t]
                == flat_prefix(knots, mults, m)[t],
    decreases n - m,
{
    if m < n {
        lemma_flat_prefix_keeps(knots, mults, m, n - 1);
    }
}

/// A direction that validates can be evaluated: its flat knot sequence has
/// the multiplicity sum as length and is non-empty; a non-periodic direction
/// has at least `degree + 1` poles, so its active span `flat[degree] ..
/// flat[len - 1 - degree]` covers at least one knot interval
/// (`degree < len - 1 - degree`); a periodic direction has at least one pole
/// (at least `degree`), and its flat sequence ends with its last knot.
pub proof fn lemma_validated_range_readable<T>(
    degree: nat,
    n_poles: nat,
    knots: Seq<T>,
    knots_increasing: bool,
    mults: Seq<u32>,
    periodic: bool,
)
    requires
        direction_verdict(degree, n_poles, knots.len(), knots_increasing, mults, periodic) is Ok,
    ensures
        spec_flat_knots(knots, mults).len() == seq_sum(mults),
        spec_flat_knots(knots, mults).len() > 0,
        !periodic ==> spec_flat_knots(knots, mults).len() == n_poles + degree + 1,
        !periodic ==> degree < spec_flat_knots(knots, mults).len() - 1 - degree,
        periodic ==> spec_flat_knots(knots, mults).len() == n_poles + mults.last(),
        periodic ==> n_poles >= 1 && n_poles >= degree && mults.last() >= 1,
{
    lemma_flat_prefix_len(knots, mults, mults.len() as int);
    assert(mults.take(mults.len() as int) =~= mults);
}

/// Pole indices of a periodic direction repeat with the pole count: slot
/// `k + n_poles` of the extended buffer is fed by the same pole as slot `k`,
/// and every slot is fed by a pole that exists.
pub proof fn lemma_pole_index_wraps(k: int, mid_off: int, degree: int, n_poles: int)
    requires
        n_poles > 0,
    ensures
        pole_slot(k + n_poles, mid_off, degree, n_poles) == pole_slot(k, mid_off, degree, n_poles),
        0 <= pole_slot(k, mid_off, degree, n_poles) < n_poles,
{
    assert(k + n_poles + degree - mid_off == (k + degree - mid_off) + n_poles);
    vstd::arithmetic::div_mod::lemma_mod_add_multiples_vanish(k + degree - mid_off, n_poles);
    vstd::arithmetic::div_mod::lemma_mod_bound(k + degree - mid_off, n_poles);
}

/// Span `mid_off + s` of the middle knot copy is evaluated on the window of
/// slots `mid_off + s - degree ..= mid_off + s`; slot `i` of that window is
/// fed by pole `s + i` (modulo the pole count), so the span is shaped by
/// poles `s, s + 1, ..., s + degree`.
pub proof fn lemma_middle_span_poles(s: int, i: int, mid_off: int, degree: int, n_poles: int)
    requires
        n_poles > 0,
        0 <= i <= degree,
    ensures
        pole_slot(mid_off + s - degree + i, mid_off, degree, n_poles) == (s + i) % n_poles,
{
    assert(mid_off + s - degree + i + degree - mid_off == s + i);
}

/// Law: how one direction is judged, case by case, in terms of its inputs.
///
/// - a degree outside `1..=25` is an `InvalidDegree` error, whatever the rest;
/// - with a valid degree, fewer than two knots, or a multiplicity count that
///   differs from the knot count, is a `TooFewKnots` error;
/// - with valid counts, knots that are not strictly increasing are a
///   `KnotsNotIncreasing` error;
/// - a periodic direction whose end multiplicities differ is a
///   `PeriodicEndMultiplicityMismatch` error;
/// - a periodic direction with equal ends but some multiplicity above the
///   degree, or a clamped one with an end multiplicity above `degree + 1` or
///   an interior one above the degree, is a `MultiplicityTooLarge` error.
pub proof fn lemma_direction_errors(
    degree: nat,
    n_poles: nat,
    n_knots: nat,
    knots_increasing: bool,
    mults: Seq<u32>,
    periodic: bool,
)
    ensures
        !(1 <= degree <= 25) ==> direction_verdict(
            degree,
            n_poles,
            n_knots,
            knots_increasing,
            mults,
            periodic,
        ) == Err::<(), BSplineConstructionError>(BSplineConstructionError::InvalidDegree),
        1 <= degree <= 25 && (n_knots < 2 || mults.len() != n_knots) ==> direction_verdict(
            degree,
            n_poles,
            n_knots,
            knots_increasing,
            mults,
            periodic,
        ) == Err::<(), BSplineConstructionError>(BSplineConstructionError::TooFewKnots),
        1 <= degree <= 25 && n_knots >= 2 && mults.len() == n_knots && !knots_increasing
            ==> direction_verdict(degree, n_poles, n_knots, knots_increasing, mults, periodic)
            == Err::<(), BSplineConstructionError>(BSplineConstructionError::KnotsNotIncreasing),
        1 <= degree <= 25 && n_knots >= 2 && mults.len() == n_knots && knots_increasing && periodic
            && mults[0] != mults[mults.len() - 1] ==> direction_verdict(
            degree,
            n_poles,
            n_knots,
            knots_increasing,
            mults,
            periodic,
        ) == Err::<(), BSplineConstructionError>(
            BSplineConstructionError::PeriodicEndMultiplicityMismatch,
        ),
        forall|j: int|
            #![trigger mults[j]]
            1 <= degree <= 25 && n_knots >= 2 && mults.len() == n_knots && knots_increasing
                && periodic && mults[0] == mults[mults.len() - 1] && 0 <= j < mults.len()
                && mults[j] > degree ==> direction_verdict(
                degree,
                n_poles,
                n_knots,
                knots_increasing,
                mults,
                periodic,
            ) == Err::<(), BSplineConstructionError>(
                BSplineConstructionError::MultiplicityTooLarge,
            ),
        forall|j: int|
            #![trigger mults[j]]
            1 <= degree <= 25 && n_knots >= 2 && mults.len() == n_knots && knots_increasing
                && !periodic && (((j == 0 || j == mults.len() - 1) && mults[j] > degree + 1) || (0
                < j < mults.len() - 1 && mults[j] > degree)) ==> direction_verdict(
                degree,
                n_poles,
                n_knots,
                knots_increasing,
                mults,
                periodic,
            ) == Err::<(), BSplineConstructionError>(
                BSplineConstructionError::MultiplicityTooLarge,
            ),
{
    assert forall|j: int|
        #![trigger mults[j]]
        1 <= degree <= 25 && n_knots >= 2 && mults.len() == n_knots && knots_increasing && periodic
            && mults[0] == mults[mults.len() - 1] && 0 <= j < mults.len() && mults[j]
            > degree implies direction_verdict(
            degree,
            n_poles,
            n_knots,
            knots_increasing,
            mults,
            periodic,
        ) == Err::<(), BSplineConstructionError>(BSplineConstructionError::MultiplicityTooLarge) by {
        assert(mult_exceeds(mults, 0, mults.len() as int, degree as int));
    }
    assert forall|j: int|
        #![trigger mults[j]]
        1 <= degree <= 25 && n_knots >= 2 && mults.len() == n_knots && knots_increasing
            && !periodic && (((j == 0 || j == mults.len() - 1) && mults[j] > degree + 1) || (0 < j
            < mults.len() - 1 && mults[j] > degree)) implies direction_verdict(
            degree,
            n_poles,
            n_knots,
            knots_increasing,
            mults,
            periodic,
        ) == Err::<(), BSplineConstructionError>(BSplineConstructionError::MultiplicityTooLarge) by {
        if 0 < j < mults.len() - 1 && mults[j] > degree {
            assert(mult_exceeds(mults, 1, mults.len() - 1, degree as int));
        }
    }
}

/// Law: a clamped (non-periodic) direction with a valid degree, as many
/// multiplicities as knots (at least two), strictly increasing knots, end
/// multiplicities at most `degree + 1` and interior multiplicities at most
/// the degree is accepted exactly when it has `sum(mults) - degree - 1`
/// poles and at least `degree + 1` of them; otherwise it is a pole-count
/// error. End multiplicities below `degree + 1` (unclamped knot vectors)
/// and interior multiplicities equal to the degree are accepted.
pub proof fn lemma_clamped_direction_verdict(degree: nat, n_poles: nat, n_knots: nat, mults: Seq<u32>)
    requires
        1 <= degree <= 25,
        n_knots >= 2,
        mults.len() == n_knots,
        mults[0] <= degree + 1,
        mults[mults.len() - 1] <= degree + 1,
        forall|i: int| 0 < i < mults.len() - 1 ==> mults[i] <= degree,
    ensures
        direction_verdict(degree, n_poles, n_knots, true, mults, false) == (if n_poles == seq_sum(
            mults,
        ) - degree - 1 && n_poles >= degree + 1 {
            Ok::<(), BSplineConstructionError>(())
        } else {
            Err(BSplineConstructionError::PoleCountMismatch)
        }),
{
    assert(!mult_exceeds(mults, 1, mults.len() - 1, degree as int));
}

/// Law: a periodic direction with a valid degree, as many multiplicities as
/// knots (at least two), strictly increasing knots, equal end
/// multiplicities and every multiplicity at most the degree is accepted
/// exactly when it has `sum(mults) - mults[last]` poles, at least `degree`
/// of them, and a non-zero end multiplicity; otherwise it is a pole-count
/// error.
pub proof fn lemma_periodic_direction_verdict(degree: nat, n_poles: nat, n_knots: nat, mults: Seq<u32>)
    requires
        1 <= degree <= 25,
        n_knots >= 2,
        mults.len() == n_knots,
        mults[0] == mults[mults.len() - 1],
        forall|i: int| 0 <= i < mults.len() ==> mults[i] <= degree,
    ensures
        direction_verdict(degree, n_poles, n_knots, true, mults, true) == (if n_poles == seq_sum(
            mults,
        ) - mults[mults.len() - 1] && n_poles >= degree && mults[mults.len() - 1] >= 1 {
            Ok::<(), BSplineConstructionError>(())
        } else {
            Err(BSplineConstructionError::PoleCountMismatch)
        }),
{
    assert(!mult_exceeds(mults, 0, mults.len() as int, degree as int));
}

} // verus!
