use svd_ols::fbits::ONE_BITS;
use svd_ols::matrix::build_design_matrix;
use svd_ols::matrix::FeatureMatrix;
use svd_ols::matrix::RegressionError;
use svd_ols::matrix::TargetVector;

fn to_bit_rows(rows: Vec<Vec<f64>>) -> Vec<Vec<u64>> {
    rows.iter().map(|r| r.iter().map(|x| x.to_bits()).collect()).collect()
}

#[test]
fn builder_keeps_rows_and_prepends_bias() {
    let f = FeatureMatrix::new(to_bit_rows(vec![vec![2.5, -3.0], vec![4.0, 5.5]])).unwrap();
    assert_eq!(f.n_rows(), 2);
    assert_eq!(f.n_features(), 2);
    let d = build_design_matrix(&f);
    assert_eq!(d.n_rows(), 2);
    assert_eq!(d.n_cols(), 3);
    for i in 0..2 {
        assert_eq!(d.bit_at(i, 0), ONE_BITS);
        assert_eq!(f64::from_bits(d.bit_at(i, 0)), 1.0);
        for j in 0..2 {
            assert_eq!(d.bit_at(i, j + 1), f.bit_at(i, j));
        }
    }
    assert_eq!(d.bit_at(0, 1), 2.5f64.to_bits());
    assert_eq!(d.bit_at(1, 2), 5.5f64.to_bits());
}

#[test]
fn builder_rejects_no_rows() {
    let r = FeatureMatrix::new(Vec::new());
    assert_eq!(r.unwrap_err(), RegressionError::InvalidShape);
}

#[test]
fn builder_rejects_no_columns() {
    let r = FeatureMatrix::new(vec![Vec::new()]);
    assert_eq!(r.unwrap_err(), RegressionError::InvalidShape);
}

#[test]
fn builder_rejects_ragged_rows() {
    let r = FeatureMatrix::new(to_bit_rows(vec![vec![1.0], vec![1.0, 2.0]]));
    assert_eq!(r.unwrap_err(), RegressionError::InvalidShape);
}

#[test]
fn target_rejects_empty() {
    let r = TargetVector::new(Vec::new());
    assert_eq!(r.unwrap_err(), RegressionError::InvalidShape);
}

#[test]
fn target_keeps_values() {
    let t = TargetVector::new(vec![1.25f64.to_bits(), (-2.0f64).to_bits()]).unwrap();
    assert_eq!(t.len(), 2);
    assert_eq!(f64::from_bits(t.bit_at(0)), 1.25);
    assert_eq!(f64::from_bits(t.bit_at(1)), -2.0);
}
