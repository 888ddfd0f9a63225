//! The least-squares solver.
//!
//! `solve` factors the design matrix by a thin singular value
//! decomposition, inverts each singular value unless its magnitude lies
//! below the cutoff (in which case the direction is dropped by using zero
//! instead), and projects the target vector through the resulting
//! pseudo-inverse.  The decomposition itself is delegated to nalgebra
//! behind a trusted wrapper whose result is named; everything around it --
//! the shape checks, the finiteness screens, the cutoff policy and the two
//! transpose-products -- is verified code over bit patterns, so the
//! contract of `solve` pins its result exactly as a function of the inputs
//! and the named operations.
//!
//! The named scalar operations are defined only where IEEE 754 determines
//! the result bit for bit: on finite operands (a NaN result's bits are not
//! fixed by the language).  The solver therefore screens its inputs and
//! the returned factors for finiteness, the accumulating loops check the
//! operands of every step, and the finished coefficient vector is
//! screened once more, so a sum or product that leaves the finite range
//! surfaces as `NumericFailure` instead of an infinite result.

use vstd::prelude::*;

use nalgebra::linalg::SVD;
use nalgebra::DMatrix;
use safe_arch::cast_to_m128d_from_m128i;
use safe_arch::get_f64_from_m128d_s;
use safe_arch::m128i;

use crate::fbits::add_ck;
use crate::fbits::below_tol;
use crate::fbits::div_bits;
use crate::fbits::f_add_ck;
use crate::fbits::f_div;
use crate::fbits::f_mul_ck;
use crate::fbits::finite_bits;
use crate::fbits::lemma_one_bits_wf;
use crate::fbits::mul_ck;
use crate::fbits::EXP_MASK;
use crate::fbits::ABS_MASK;
use crate::fbits::ONE_BITS;
use crate::fbits::TOL_BITS;
use crate::fbits::ZERO_BITS;
use crate::matrix::mat_view;
use crate::matrix::rect;
use crate::matrix::shaped;
use crate::matrix::CoefficientVector;
use crate::matrix::DesignMatrix;
use crate::matrix::RegressionError;
use crate::matrix::TargetVector;

verus! {

/// Convergence tolerance handed to the decomposition: the bit pattern of
/// five units in the last place of one (5 * 2^-52).
pub const SVD_EPS_BITS: u64 = 0x3CD4_0000_0000_0000;

/// Iteration cap handed to the decomposition.  The iteration is bounded so
/// that a failure to converge surfaces as `NumericFailure` instead of
/// running forever.
pub const SVD_MAX_ITER: usize = 1000;

/// Whether every entry of the matrix is a finite number.
pub open spec fn all_finite(m: Seq<Seq<u64>>) -> bool {
    forall|i: int, j: int|
        0 <= i < m.len() && 0 <= j < m[i].len() ==> finite_bits(#[trigger] m[i][j])
}

/// Whether every entry of the vector is a finite number.
pub open spec fn vec_finite(v: Seq<u64>) -> bool {
    forall|i: int| 0 <= i < v.len() ==> finite_bits(#[trigger] v[i])
}

/// The smaller of the two dimensions: the number of singular values of the
/// thin decomposition.
pub open spec fn svd_k(n_rows: int, n_cols: int) -> int {
    if n_rows <= n_cols {
        n_rows
    } else {
        n_cols
    }
}

/// What the thin singular value decomposition of the matrix with the given
/// entries returns for the given tolerance and iteration cap: `None` when
/// it does not converge, otherwise the left factor, the singular values,
/// and the transposed right factor, all row-major as bit patterns.  The
/// computation also uses the platform's `hypot`; the name treats that
/// implementation as one fixed function, so what is proved through this
/// name -- the solver's determinism included -- holds for one build of
/// the library, not bit for bit across different platforms or math
/// library versions.
pub uninterp spec fn svd_of(m: Seq<Seq<u64>>, eps: u64, max_iter: int) -> Option<
    (Seq<Seq<u64>>, Seq<u64>, Seq<Seq<u64>>),
>;

/// Relies on nalgebra's `SVD::try_new`: the thin singular value
/// decomposition `m = U * diag(s) * Vt`, computed with both orthogonal
/// factors, `None` when the iteration does not converge within the cap.
/// For an `r x c` input, `U` is `r x k`, `s` has length `k`, and `Vt` is
/// `k x c`, where `k` is the smaller of `r` and `c`.  The requires keep
/// clear of what the source does not promise.  The entries must be
/// finite and the tolerance must be this crate's fixed one: the
/// iteration zeroes every diagonal entry at or below the tolerance
/// before its two-by-two kernel runs, and under a smaller tolerance that
/// kernel can underflow into a NaN singular value, which the final sort
/// rejects with a panic.  The cap must be positive, since a cap of zero
/// is documented to iterate without bound.  For the admitted arguments
/// the result depends on the entries, the tolerance and the cap alone
/// and is named `svd_of`: besides IEEE 754 scalar arithmetic and
/// comparisons, the computation uses the platform's `hypot`, which the
/// name treats as a fixed function (see `svd_of`).  Entries are rebuilt
/// from their bit patterns by `safe_arch`'s bit-preserving casts; the
/// factors are read back row-major with `to_bits`.
#[verifier::external_body]
fn svd_factor(m: &Vec<Vec<u64>>, nr: usize, nc: usize, eps: u64, max_iter: usize) -> (r: Option<
    (Vec<Vec<u64>>, Vec<u64>, Vec<Vec<u64>>),
>)
    requires
        shaped(mat_view(m@)),
        all_finite(mat_view(m@)),
        nr == m@.len(),
        nc == mat_view(m@)[0].len(),
        eps == SVD_EPS_BITS,
        max_iter >= 1,
    ensures
        (r is Some) == (svd_of(mat_view(m@), eps, max_iter as int) is Some),
        r is Some ==> mat_view(r.unwrap().0@) == svd_of(mat_view(m@), eps, max_iter as int).unwrap().0,
        r is Some ==> r.unwrap().1@ == svd_of(mat_view(m@), eps, max_iter as int).unwrap().1,
        r is Some ==> mat_view(r.unwrap().2@) == svd_of(mat_view(m@), eps, max_iter as int).unwrap().2,
        r is Some ==> rect(
            mat_view(r.unwrap().0@),
            m@.len() as int,
            svd_k(m@.len() as int, mat_view(m@)[0].len() as int),
        ),
        r is Some ==> r.unwrap().1@.len() == svd_k(m@.len() as int, mat_view(m@)[0].len() as int),
        r is Some ==> rect(
            mat_view(r.unwrap().2@),
            svd_k(m@.len() as int, mat_view(m@)[0].len() as int),
            mat_view(m@)[0].len() as int,
        ),
{
    let dbl = |b: u64| get_f64_from_m128d_s(cast_to_m128d_from_m128i(m128i::from([b, 0])));
    let rows_of = |w: DMatrix<u64>| w.row_iter().map(|q| q.iter().copied().collect()).collect();
    let svd = SVD::try_new(
        DMatrix::from_row_iterator(nr, nc, m.iter().flatten().copied().map(dbl)),
        true, true, dbl(eps), max_iter,
    )?;
    let u = svd.u?.map(|x| x.to_bits());
    let v_t = svd.v_t?.map(|x| x.to_bits());
    Some((rows_of(u), svd.singular_values.iter().map(|x| x.to_bits()).collect(), rows_of(v_t)))
}

/// The bit pattern of the dot product of column `j` of `m` with `v`,
/// accumulated in row order starting from zero: the sum over `i < n` of
/// `m[i][j] * v[i]`, each operation the named double-precision one.
/// `None` as soon as any operand of a step is non-finite, since the step's
/// result is then not determined bit for bit.
pub open spec fn col_dot_ck(m: Seq<Seq<u64>>, v: Seq<u64>, j: int, n: int) -> Option<u64>
    decreases n,
{
    if n <= 0 {
        Some(ZERO_BITS)
    } else {
        match (col_dot_ck(m, v, j, n - 1), mul_ck(m[n - 1][j], v[n - 1])) {
            (Some(acc), Some(p)) => add_ck(acc, p),
            _ => None,
        }
    }
}

/// Once a checked dot product is undetermined, it stays undetermined for
/// every longer prefix.
proof fn lemma_col_dot_ck_none(m: Seq<Seq<u64>>, v: Seq<u64>, j: int, i: int, n: int)
    requires
        0 <= i <= n,
        col_dot_ck(m, v, j, i) is None,
    ensures
        col_dot_ck(m, v, j, n) is None,
    decreases n - i,
{
    if i < n {
        lemma_col_dot_ck_none(m, v, j, i, n - 1);
    }
}

/// The product of the transpose of `m` with `v`: one dot product per
/// column of `m`, accumulated over all of `v`; `None` when any of the dot
/// products is undetermined.
pub open spec fn tr_mul_ck(m: Seq<Seq<u64>>, v: Seq<u64>) -> Option<Seq<u64>> {
    if forall|j: int|
        0 <= j < m[0].len() ==> (#[trigger] col_dot_ck(m, v, j, v.len() as int)) is Some {
        Some(Seq::new(m[0].len(), |j: int| col_dot_ck(m, v, j, v.len() as int).unwrap()))
    } else {
        None
    }
}

/// The pseudo-inverse of one singular value: zero when its magnitude lies
/// below the cutoff, its reciprocal otherwise.
pub open spec fn pinv_entry(s: u64) -> u64 {
    if below_tol(s) {
        ZERO_BITS
    } else {
        div_bits(ONE_BITS, s)
    }
}

/// The pseudo-inverse of the singular-value sequence, element by element.
pub open spec fn pinv_seq(s: Seq<u64>) -> Seq<u64> {
    Seq::new(s.len(), |i: int| pinv_entry(s[i]))
}

/// The componentwise product of two sequences of bit patterns; `None`
/// when any of the products is undetermined.
pub open spec fn scale_ck(a: Seq<u64>, b: Seq<u64>) -> Option<Seq<u64>> {
    if forall|i: int| 0 <= i < a.len() ==> (#[trigger] mul_ck(a[i], b[i])) is Some {
        Some(Seq::new(a.len(), |i: int| mul_ck(a[i], b[i]).unwrap()))
    } else {
        None
    }
}

/// The coefficients obtained from the factors of the decomposition:
/// `V * pinv(s) * (Ut * y)`, written with the transpose-product applied to
/// `Vt` and to `U`; `None` when any intermediate value of the chain is
/// undetermined.
pub open spec fn factors_theta_ck(
    u: Seq<Seq<u64>>,
    s: Seq<u64>,
    vt: Seq<Seq<u64>>,
    y: Seq<u64>,
) -> Option<Seq<u64>> {
    match tr_mul_ck(u, y) {
        None => None,
        Some(uty) => match scale_ck(pinv_seq(s), uty) {
            None => None,
            Some(z) => tr_mul_ck(vt, z),
        },
    }
}

/// What `solve` returns, as a function of the views of its inputs: a shape
/// mismatch is reported first; a non-finite entry of the matrix or the
/// target, a decomposition that does not converge or returns a non-finite
/// factor, an accumulation that leaves the finite range, and a non-finite
/// finished coefficient are numeric failures; otherwise the coefficients
/// are computed from the named decomposition of the matrix.
pub open spec fn solve_spec(x: Seq<Seq<u64>>, y: Seq<u64>) -> Result<Seq<u64>, RegressionError> {
    if x.len() != y.len() {
        Err(RegressionError::ShapeMismatch)
    } else if !all_finite(x) || !vec_finite(y) {
        Err(RegressionError::NumericFailure)
    } else {
        match svd_of(x, SVD_EPS_BITS, SVD_MAX_ITER as int) {
            None => Err(RegressionError::NumericFailure),
            Some(f) => if !(all_finite(f.0) && vec_finite(f.1) && all_finite(f.2)) {
                Err(RegressionError::NumericFailure)
            } else {
                match factors_theta_ck(f.0, f.1, f.2, y) {
                    Some(theta) => if vec_finite(theta) {
                        Ok(theta)
                    } else {
                        Err(RegressionError::NumericFailure)
                    },
                    None => Err(RegressionError::NumericFailure),
                }
            },
        }
    }
}

/// The view of a solver result: the coefficients' bit patterns on success,
/// the error unchanged on failure.
pub open spec fn coeff_result_view(r: Result<CoefficientVector, RegressionError>) -> Result<
    Seq<u64>,
    RegressionError,
> {
    match r {
        Ok(c) => Ok(c@),
        Err(e) => Err(e),
    }
}

/// The view of an optional vector of bit patterns.
pub open spec fn opt_vec_view(r: Option<Vec<u64>>) -> Option<Seq<u64>> {
    match r {
        Some(v) => Some(v@),
        None => None,
    }
}

/// Whether every entry of the stored matrix is finite, by its exponent
/// field.
#[verifier::loop_isolation(false)]
fn matrix_all_finite(m: &Vec<Vec<u64>>) -> (r: bool)
    ensures
        r == all_finite(mat_view(m@)),
{
    let mut i: usize = 0;
    while i < m.len()
        invariant
            i <= m@.len(),
            forall|a: int, b: int|
                0 <= a < i && 0 <= b < mat_view(m@)[a].len() ==> finite_bits(
                    #[trigger] mat_view(m@)[a][b],
                ),
        decreases m@.len() - i,
    {
        let mut j: usize = 0;
        while j < m[i].len()
            invariant
                i < m@.len(),
                j <= m@[i as int]@.len(),
                forall|b: int|
                    0 <= b < j ==> finite_bits(#[trigger] mat_view(m@)[i as int][b]),
            decreases m@[i as int]@.len() - j,
        {
            if (m[i][j] & EXP_MASK) == EXP_MASK {
                proof {
                    assert(!finite_bits(mat_view(m@)[i as int][j as int]));
                }
                return false;
            }
            j += 1;
        }
        i += 1;
    }
    true
}

/// Whether every entry of the vector is finite, by its exponent field.
#[verifier::loop_isolation(false)]
fn vec_all_finite(v: &Vec<u64>) -> (r: bool)
    ensures
        r == vec_finite(v@),
{
    let mut i: usize = 0;
    while i < v.len()
        invariant
            i <= v@.len(),
            forall|t: int| 0 <= t < i ==> finite_bits(#[trigger] v@[t]),
        decreases v@.len() - i,
    {
        if (v[i] & EXP_MASK) == EXP_MASK {
            return false;
        }
        i += 1;
    }
    true
}

/// The product of the transpose of `m` with `v`, accumulated exactly as
/// `tr_mul_ck` states: column by column, row by row, starting from zero,
/// checking every operand and giving up the moment a step's result is not
/// determined.
#[verifier::loop_isolation(false)]
fn tr_mul_checked(m: &Vec<Vec<u64>>, v: &Vec<u64>) -> (r: Option<Vec<u64>>)
    requires
        m@.len() == v@.len(),
        m@.len() >= 1,
        rect(mat_view(m@), m@.len() as int, mat_view(m@)[0].len() as int),
    ensures
        opt_vec_view(r) == tr_mul_ck(mat_view(m@), v@),
{
    let n = m.len();
    let k = m[0].len();
    let mut out: Vec<u64> = Vec::new();
    let mut j: usize = 0;
    while j < k
        invariant
            j <= k,
            out@.len() == j,
            forall|t: int|
                0 <= t < j ==> Some(#[trigger] out@[t]) == col_dot_ck(
                    mat_view(m@),
                    v@,
                    t,
                    n as int,
                ),
        decreases k - j,
    {
        let mut acc: u64 = ZERO_BITS;
        let mut i: usize = 0;
        while i < n
            invariant
                i <= n,
                j < k,
                Some(acc) == col_dot_ck(mat_view(m@), v@, j as int, i as int),
            decreases n - i,
        {
            proof {
                assert(mat_view(m@)[i as int].len() == k);
            }
            let stepped = match f_mul_ck(m[i][j], v[i]) {
                Some(p) => f_add_ck(acc, p),
                None => None,
            };
            match stepped {
                Some(a2) => {
                    acc = a2;
                },
                None => {
                    proof {
                        assert(col_dot_ck(mat_view(m@), v@, j as int, i + 1) is None);
                        lemma_col_dot_ck_none(mat_view(m@), v@, j as int, i + 1, n as int);
                    }
                    return None;
                },
            }
            i += 1;
        }
        out.push(acc);
        j += 1;
    }
    proof {
        assert forall|t: int|
            0 <= t < k implies (#[trigger] col_dot_ck(mat_view(m@), v@, t, n as int)) is Some by {
            assert(Some(out@[t]) == col_dot_ck(mat_view(m@), v@, t, n as int));
        }
        assert(out@ =~= tr_mul_ck(mat_view(m@), v@).unwrap());
    }
    Some(out)
}

/// The pseudo-inverse of the singular values: each entry below the cutoff
/// in magnitude becomes zero, every other entry is divided into one.  The
/// entries must be finite; an entry at or above the cutoff in magnitude
/// is then a finite non-zero divisor, so every quotient is determined.
#[verifier::loop_isolation(false)]
fn pinv_vec(s: &Vec<u64>) -> (r: Vec<u64>)
    requires
        vec_finite(s@),
    ensures
        r@ == pinv_seq(s@),
{
    let mut out: Vec<u64> = Vec::new();
    let mut i: usize = 0;
    while i < s.len()
        invariant
            i <= s@.len(),
            out@.len() == i,
            forall|t: int| 0 <= t < i ==> #[trigger] out@[t] == pinv_entry(s@[t]),
        decreases s@.len() - i,
    {
        let si = s[i];
        if (si & ABS_MASK) < TOL_BITS {
            out.push(ZERO_BITS);
        } else {
            proof {
                lemma_one_bits_wf();
                assert(finite_bits(s@[i as int]));
            }
            out.push(f_div(ONE_BITS, si));
        }
        i += 1;
    }
    proof {
        assert(out@ =~= pinv_seq(s@));
    }
    out
}

/// The componentwise product of two equally long vectors of bit patterns,
/// checking every operand pair and giving up the moment a product is not
/// determined.
#[verifier::loop_isolation(false)]
fn scale_checked(a: &Vec<u64>, b: &Vec<u64>) -> (r: Option<Vec<u64>>)
    requires
        a@.len() == b@.len(),
    ensures
        opt_vec_view(r) == scale_ck(a@, b@),
{
    let mut out: Vec<u64> = Vec::new();
    let mut i: usize = 0;
    while i < a.len()
        invariant
            i <= a@.len(),
            out@.len() == i,
            forall|t: int| 0 <= t < i ==> Some(#[trigger] out@[t]) == mul_ck(a@[t], b@[t]),
        decreases a@.len() - i,
    {
        match f_mul_ck(a[i], b[i]) {
            Some(p) => {
                out.push(p);
            },
            None => {
                proof {
                    assert(mul_ck(a@[i as int], b@[i as int]) is None);
                }
                return None;
            },
        }
        i += 1;
    }
    proof {
        assert forall|t: int|
            0 <= t < a@.len() implies (#[trigger] mul_ck(a@[t], b@[t])) is Some by {
            assert(Some(out@[t]) == mul_ck(a@[t], b@[t]));
        }
        assert(out@ =~= scale_ck(a@, b@).unwrap());
    }
    Some(out)
}

/// Computes the least-squares coefficients for the design matrix and the
/// target vector.
///
/// A row count differing from the target's length is a `ShapeMismatch`.  A
/// non-finite entry in the matrix or the target, a decomposition that does
/// not converge or hands back a non-finite factor, an accumulation that
/// leaves the finite range, and a non-finite finished coefficient are
/// each a `NumericFailure`, never a default result: a non-finite value is
/// reported, not returned or computed with.  On success every coefficient
/// is finite, and the coefficients are exactly the projection of the
/// target through the pseudo-inverse built from the named decomposition,
/// with every singular value below the cutoff dropped, so rank deficiency
/// is not an error.  Zero-sized inputs cannot reach this function: the
/// constructors of [`DesignMatrix`] and [`TargetVector`] reject them as
/// `InvalidShape`.
pub fn solve(x: &DesignMatrix, y: &TargetVector) -> (r: Result<
    CoefficientVector,
    RegressionError,
>)
    ensures
        coeff_result_view(r) == solve_spec(x@, y@),
        r is Ok ==> r.unwrap()@.len() == x@[0].len(),
        r is Ok ==> vec_finite(r.unwrap()@),
{
    proof {
        use_type_invariant(x);
        use_type_invariant(y);
    }
    if x.n_rows() != y.len() {
        return Err(RegressionError::ShapeMismatch);
    }
    let rows = x.rows_ref();
    if !matrix_all_finite(rows) {
        return Err(RegressionError::NumericFailure);
    }
    if !vec_all_finite(y.bits_ref()) {
        return Err(RegressionError::NumericFailure);
    }
    match svd_factor(rows, x.n_rows(), x.n_cols(), SVD_EPS_BITS, SVD_MAX_ITER) {
        None => Err(RegressionError::NumericFailure),
        Some((u, s, vt)) => {
            if !matrix_all_finite(&u) || !vec_all_finite(&s) || !matrix_all_finite(&vt) {
                return Err(RegressionError::NumericFailure);
            }
            let ghost f = svd_of(x@, SVD_EPS_BITS, SVD_MAX_ITER as int).unwrap();
            match tr_mul_checked(&u, y.bits_ref()) {
                None => {
                    proof {
                        assert(factors_theta_ck(f.0, f.1, f.2, y@) is None);
                    }
                    Err(RegressionError::NumericFailure)
                },
                Some(uty) => {
                    let p = pinv_vec(&s);
                    match scale_checked(&p, &uty) {
                        None => {
                            proof {
                                assert(factors_theta_ck(f.0, f.1, f.2, y@) is None);
                            }
                            Err(RegressionError::NumericFailure)
                        },
                        Some(z) => match tr_mul_checked(&vt, &z) {
                            None => {
                                proof {
                                    assert(factors_theta_ck(f.0, f.1, f.2, y@) is None);
                                }
                                Err(RegressionError::NumericFailure)
                            },
                            Some(theta) => {
                                proof {
                                    assert(theta@ == factors_theta_ck(f.0, f.1, f.2, y@).unwrap());
                                    assert(theta@.len() == mat_view(vt@)[0].len());
                                    assert(mat_view(vt@)[0].len() == x@[0].len());
                                }
                                if !vec_all_finite(&theta) {
                                    return Err(RegressionError::NumericFailure);
                                }
                                Ok(CoefficientVector::from_vec(theta))
                            },
                        },
                    }
                },
            }
        },
    }
}

/// The solver is deterministic: its contract determines the result from
/// the views of the inputs alone, so two calls of `solve` on identical
/// matrices and targets return identical bit patterns, with no hidden
/// state carried between calls.  Through `svd_of` this treats the
/// platform's math library as fixed, so it speaks of one build of the
/// library; see the note on `svd_of`.
pub proof fn lemma_solve_deterministic(
    x1: Seq<Seq<u64>>,
    y1: Seq<u64>,
    x2: Seq<Seq<u64>>,
    y2: Seq<u64>,
)
    requires
        x1 == x2,
        y1 == y2,
    ensures
        solve_spec(x1, y1) == solve_spec(x2, y2),
{
}

/// Rank deficiency is never an error: no failure condition of the solver
/// mentions the magnitudes of the singular values.  Whenever the inputs
/// agree in shape and are finite, the named decomposition converges to
/// finite factors, and every accumulation of the projection -- the
/// finished coefficients included -- stays finite, the solver returns
/// those coefficients: a singular value below the cutoff only makes the
/// matching entry of the pseudo-inverse zero, by `pinv_entry`, and is
/// never divided by.
pub proof fn lemma_rank_deficiency_never_fails(x: Seq<Seq<u64>>, y: Seq<u64>)
    requires
        x.len() == y.len(),
        all_finite(x),
        vec_finite(y),
        svd_of(x, SVD_EPS_BITS, SVD_MAX_ITER as int) is Some,
        ({
            let f = svd_of(x, SVD_EPS_BITS, SVD_MAX_ITER as int).unwrap();
            all_finite(f.0) && vec_finite(f.1) && all_finite(f.2)
        }),
        ({
            let f = svd_of(x, SVD_EPS_BITS, SVD_MAX_ITER as int).unwrap();
            factors_theta_ck(f.0, f.1, f.2, y) is Some
                && vec_finite(factors_theta_ck(f.0, f.1, f.2, y).unwrap())
        }),
    ensures
        solve_spec(x, y) is Ok,
{
}

} // verus!
