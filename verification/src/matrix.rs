//! The data model: matrices and vectors of double-precision bit patterns,
//! with their shape invariants, and the design-matrix builder.
//!
//! A matrix is stored row-major as a vector of rows; its mathematical view
//! is a sequence of sequences of bit patterns.  Shape validity -- at least
//! one row, at least one column, all rows of equal length -- is a type
//! invariant established by the constructors, so every value of these types
//! that verified code can hold is well-shaped.

use vstd::prelude::*;

use crate::fbits::ONE_BITS;

verus! {

/// The failures the library can report.
#[derive(Clone, Copy, Debug, PartialEq, Eq, Structural)]
pub enum RegressionError {
    /// A matrix or vector has a structurally invalid size: zero rows, zero
    /// columns, or rows of unequal length.
    InvalidShape,
    /// Two inputs that must agree in a dimension do not: the row count of
    /// the matrix differs from the length of the target vector.
    ShapeMismatch,
    /// The decomposition step could not produce a result: a non-finite
    /// value reached it, or it did not converge.
    NumericFailure,
}

/// The mathematical view of row-major storage: each row as its sequence of
/// bit patterns.
pub open spec fn mat_view(rows: Seq<Vec<u64>>) -> Seq<Seq<u64>> {
    Seq::new(rows.len(), |i: int| rows[i]@)
}

/// `m` consists of exactly `r` rows, each of length `c`.
pub open spec fn rect(m: Seq<Seq<u64>>, r: int, c: int) -> bool {
    m.len() == r && (forall|i: int| 0 <= i < r ==> (#[trigger] m[i]).len() == c)
}

/// Shape validity: at least one row, at least one column, and all rows of
/// equal length.
pub open spec fn shaped(m: Seq<Seq<u64>>) -> bool {
    m.len() >= 1 && m[0].len() >= 1 && rect(m, m.len() as int, m[0].len() as int)
}

/// A raw feature matrix: one row per observation, one column per feature,
/// each entry the bit pattern of a double-precision value.
#[derive(Debug)]
pub struct FeatureMatrix {
    rows: Vec<Vec<u64>>,
}

impl View for FeatureMatrix {
    type V = Seq<Seq<u64>>;

    closed spec fn view(&self) -> Seq<Seq<u64>> {
        mat_view(self.rows@)
    }
}

impl FeatureMatrix {
    /// Every feature matrix that can be held is well-shaped.
    #[verifier::type_invariant]
    pub open spec fn wf(self) -> bool {
        shaped(self@)
    }

    /// Builds a feature matrix from its rows, rejecting a structurally
    /// invalid shape: no rows, no columns, or rows of unequal length.
    pub fn new(rows: Vec<Vec<u64>>) -> (r: Result<FeatureMatrix, RegressionError>)
        ensures
            r is Ok <==> shaped(mat_view(rows@)),
            r is Ok ==> r.unwrap()@ == mat_view(rows@),
            r is Err ==> r.unwrap_err() == RegressionError::InvalidShape,
    {
        if rows.len() == 0 {
            return Err(RegressionError::InvalidShape);
        }
        let c = rows[0].len();
        if c == 0 {
            return Err(RegressionError::InvalidShape);
        }
        let mut i: usize = 0;
        while i < rows.len()
            invariant
                i <= rows@.len(),
                rows@.len() >= 1,
                c == mat_view(rows@)[0].len(),
                c >= 1,
                forall|k: int| 0 <= k < i ==> (#[trigger] mat_view(rows@)[k]).len() == c,
            decreases rows@.len() - i,
        {
            if rows[i].len() != c {
                proof {
                    assert(shaped(mat_view(rows@)) ==> mat_view(rows@)[i as int].len() == c);
                }
                return Err(RegressionError::InvalidShape);
            }
            i += 1;
        }
        Ok(FeatureMatrix { rows })
    }

    /// The number of observations.
    pub fn n_rows(&self) -> (r: usize)
        ensures
            r == self@.len(),
    {
        self.rows.len()
    }

    /// The number of features per observation.
    pub fn n_features(&self) -> (r: usize)
        ensures
            r == self@[0].len(),
    {
        proof {
            use_type_invariant(self);
        }
        self.rows[0].len()
    }

    /// The bit pattern stored at the given row and column.
    pub fn bit_at(&self, i: usize, j: usize) -> (r: u64)
        requires
            i < self@.len(),
            j < self@[i as int].len(),
        ensures
            r == self@[i as int][j as int],
    {
        self.rows[i][j]
    }
}

/// The matrix handed to the solver.  It is usually built from a
/// [`FeatureMatrix`] by [`build_design_matrix`], which prepends the bias
/// column; [`DesignMatrix::from_rows`] builds one directly for bias-free
/// regression.
#[derive(Debug)]
pub struct DesignMatrix {
    rows: Vec<Vec<u64>>,
}

impl View for DesignMatrix {
    type V = Seq<Seq<u64>>;

    closed spec fn view(&self) -> Seq<Seq<u64>> {
        mat_view(self.rows@)
    }
}

impl DesignMatrix {
    /// Every design matrix that can be held is well-shaped.
    #[verifier::type_invariant]
    pub open spec fn wf(self) -> bool {
        shaped(self@)
    }

    /// Builds a design matrix directly from its rows -- no bias column is
    /// added -- rejecting a structurally invalid shape.
    pub fn from_rows(rows: Vec<Vec<u64>>) -> (r: Result<DesignMatrix, RegressionError>)
        ensures
            r is Ok <==> shaped(mat_view(rows@)),
            r is Ok ==> r.unwrap()@ == mat_view(rows@),
            r is Err ==> r.unwrap_err() == RegressionError::InvalidShape,
    {
        match FeatureMatrix::new(rows) {
            Ok(f) => Ok(DesignMatrix { rows: f.rows }),
            Err(e) => Err(e),
        }
    }

    /// The number of observations.
    pub fn n_rows(&self) -> (r: usize)
        ensures
            r == self@.len(),
    {
        self.rows.len()
    }

    /// The number of columns, bias column included when one was prepended.
    pub fn n_cols(&self) -> (r: usize)
        ensures
            r == self@[0].len(),
    {
        proof {
            use_type_invariant(self);
        }
        self.rows[0].len()
    }

    /// The bit pattern stored at the given row and column.
    pub fn bit_at(&self, i: usize, j: usize) -> (r: u64)
        requires
            i < self@.len(),
            j < self@[i as int].len(),
        ensures
            r == self@[i as int][j as int],
    {
        self.rows[i][j]
    }

    /// Row-major access to the stored rows, for the solver.
    pub(crate) fn rows_ref(&self) -> (r: &Vec<Vec<u64>>)
        ensures
            mat_view(r@) == self@,
    {
        &self.rows
    }
}

/// Augments a feature matrix with a constant bias column: the result has
/// the same rows in the same order, each with the bit pattern of one
/// prepended, so it has one more column than the input and every other
/// entry is carried over bit for bit.
pub fn build_design_matrix(f: &FeatureMatrix) -> (d: DesignMatrix)
    ensures
        d@.len() == f@.len(),
        forall|i: int| 0 <= i < f@.len() ==> #[trigger] d@[i] == seq![ONE_BITS] + f@[i],
{
    proof {
        use_type_invariant(f);
    }
    let n = f.rows.len();
    let mut out: Vec<Vec<u64>> = Vec::new();
    let mut i: usize = 0;
    while i < n
        invariant
            i <= n,
            n == f.rows@.len(),
            shaped(mat_view(f.rows@)),
            out@.len() == i,
            forall|k: int| 0 <= k < i ==> (#[trigger] out@[k])@ == seq![ONE_BITS] + mat_view(
                f.rows@,
            )[k],
        decreases n - i,
    {
        let m = f.rows[i].len();
        let mut row: Vec<u64> = Vec::new();
        row.push(ONE_BITS);
        let mut j: usize = 0;
        while j < m
            invariant
                j <= m,
                i < f.rows@.len(),
                m == f.rows@[i as int]@.len(),
                row@.len() == j + 1,
                row@[0] == ONE_BITS,
                forall|t: int| 1 <= t <= j ==> #[trigger] row@[t] == f.rows@[i as int]@[t - 1],
            decreases m - j,
        {
            let val = f.rows[i][j];
            row.push(val);
            j += 1;
        }
        proof {
            assert(row@ =~= seq![ONE_BITS] + mat_view(f.rows@)[i as int]);
        }
        out.push(row);
        i += 1;
    }
    proof {
        let ov = mat_view(out@);
        let fv = mat_view(f.rows@);
        assert forall|k: int| 0 <= k < n implies (#[trigger] ov[k]) == seq![ONE_BITS] + fv[k] by {
            assert(ov[k] == out@[k]@);
        }
        assert forall|k: int| 0 <= k < n implies (#[trigger] ov[k]).len() == ov[0].len() by {
            assert(fv[k].len() == fv[0].len());
        }
        assert(shaped(ov));
    }
    DesignMatrix { rows: out }
}

/// The target vector: one observed value per row of the matrix, each the
/// bit pattern of a double-precision value.
#[derive(Debug)]
pub struct TargetVector {
    values: Vec<u64>,
}

impl View for TargetVector {
    type V = Seq<u64>;

    closed spec fn view(&self) -> Seq<u64> {
        self.values@
    }
}

impl TargetVector {
    /// Every target vector that can be held is non-empty.
    #[verifier::type_invariant]
    pub open spec fn wf(self) -> bool {
        self@.len() >= 1
    }

    /// Builds a target vector from its values, rejecting an empty one as a
    /// structurally invalid shape.
    pub fn new(values: Vec<u64>) -> (r: Result<TargetVector, RegressionError>)
        ensures
            r is Ok <==> values@.len() >= 1,
            r is Ok ==> r.unwrap()@ == values@,
            r is Err ==> r.unwrap_err() == RegressionError::InvalidShape,
    {
        if values.len() == 0 {
            return Err(RegressionError::InvalidShape);
        }
        Ok(TargetVector { values })
    }

    /// The number of observed values.
    pub fn len(&self) -> (r: usize)
        ensures
            r == self@.len(),
    {
        self.values.len()
    }

    /// The bit pattern of the value at the given position.
    pub fn bit_at(&self, i: usize) -> (r: u64)
        requires
            i < self@.len(),
        ensures
            r == self@[i as int],
    {
        self.values[i]
    }

    /// The stored bit patterns, for the solver.
    pub(crate) fn bits_ref(&self) -> (r: &Vec<u64>)
        ensures
            r@ == self@,
    {
        &self.values
    }
}

/// The result of a solve: the fitted coefficients as bit patterns, the
/// intercept first when the design matrix carried a bias column, then one
/// weight per feature column in input order.
#[derive(Debug)]
pub struct CoefficientVector {
    values: Vec<u64>,
}

impl View for CoefficientVector {
    type V = Seq<u64>;

    closed spec fn view(&self) -> Seq<u64> {
        self.values@
    }
}

impl CoefficientVector {
    /// Wraps the computed coefficients; only the solver builds one.
    pub(crate) fn from_vec(values: Vec<u64>) -> (r: CoefficientVector)
        ensures
            r@ == values@,
    {
        CoefficientVector { values }
    }

    /// The number of coefficients.
    pub fn len(&self) -> (r: usize)
        ensures
            r == self@.len(),
    {
        self.values.len()
    }

    /// The bit pattern of the coefficient at the given position.
    pub fn bit_at(&self, i: usize) -> (r: u64)
        requires
            i < self@.len(),
        ensures
            r == self@[i as int],
    {
        self.values[i]
    }

    /// The coefficients' bit patterns.
    pub fn bits(&self) -> (r: &Vec<u64>)
        ensures
            r@ == self@,
    {
        &self.values
    }
}

} // verus!
