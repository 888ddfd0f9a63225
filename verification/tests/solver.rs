use svd_ols::matrix::build_design_matrix;
use svd_ols::matrix::CoefficientVector;
use svd_ols::matrix::DesignMatrix;
use svd_ols::matrix::FeatureMatrix;
use svd_ols::matrix::RegressionError;
use svd_ols::matrix::TargetVector;
use svd_ols::solver::solve;

fn to_bit_rows(rows: Vec<Vec<f64>>) -> Vec<Vec<u64>> {
    rows.iter().map(|r| r.iter().map(|x| x.to_bits()).collect()).collect()
}

fn design(rows: Vec<Vec<f64>>) -> DesignMatrix {
    DesignMatrix::from_rows(to_bit_rows(rows)).unwrap()
}

fn target(values: Vec<f64>) -> TargetVector {
    TargetVector::new(values.iter().map(|x| x.to_bits()).collect()).unwrap()
}

fn values(c: &CoefficientVector) -> Vec<f64> {
    c.bits().iter().map(|b| f64::from_bits(*b)).collect()
}

fn line_design() -> DesignMatrix {
    let f = FeatureMatrix::new(to_bit_rows(vec![vec![1.0], vec![2.0], vec![3.0]])).unwrap();
    build_design_matrix(&f)
}

#[test]
fn solve_rejects_row_count_mismatch() {
    let x = design(vec![
        vec![1.0, 1.0],
        vec![1.0, 2.0],
        vec![1.0, 3.0],
        vec![1.0, 4.0],
        vec![1.0, 5.0],
    ]);
    assert_eq!(x.n_rows(), 5);
    let y = target(vec![1.0, 2.0, 3.0, 4.0]);
    assert_eq!(y.len(), 4);
    let r = solve(&x, &y);
    assert_eq!(r.unwrap_err(), RegressionError::ShapeMismatch);
}

#[test]
fn solve_unit_slope_line() {
    let x = line_design();
    let y = target(vec![1.0, 2.0, 3.0]);
    let theta = values(&solve(&x, &y).unwrap());
    assert_eq!(theta.len(), 2);
    assert!(theta[0].abs() < 1e-9, "intercept {} not near 0", theta[0]);
    assert!((theta[1] - 1.0).abs() < 1e-9, "slope {} not near 1", theta[1]);
    for i in 0..3 {
        let fitted = theta[0] + theta[1] * ((i + 1) as f64);
        assert!((fitted - ((i + 1) as f64)).abs() < 1e-9);
    }
}

#[test]
fn solve_constant_target() {
    let x = line_design();
    let y = target(vec![2.0, 2.0, 2.0]);
    let theta = values(&solve(&x, &y).unwrap());
    assert!((theta[0] - 2.0).abs() < 1e-9, "intercept {} not near 2", theta[0]);
    assert!(theta[1].abs() < 1e-9, "slope {} not near 0", theta[1]);
}

#[test]
fn solve_square_full_rank_matches_inverse() {
    let x = design(vec![vec![2.0, 1.0], vec![1.0, 3.0]]);
    let y = target(vec![3.0, 5.0]);
    let theta = values(&solve(&x, &y).unwrap());
    assert!((theta[0] - 0.8).abs() < 1e-9, "theta0 {}", theta[0]);
    assert!((theta[1] - 1.4).abs() < 1e-9, "theta1 {}", theta[1]);
}

#[test]
fn solve_overdetermined_residual_orthogonal_to_columns() {
    let rows = vec![
        vec![1.0, 0.0],
        vec![1.0, 1.0],
        vec![1.0, 2.0],
        vec![1.0, 4.0],
    ];
    let x = design(rows.clone());
    let ys = vec![1.0, 3.0, 2.0, 5.0];
    let y = target(ys.clone());
    let theta = values(&solve(&x, &y).unwrap());
    let residual: Vec<f64> = (0..4)
        .map(|i| rows[i][0] * theta[0] + rows[i][1] * theta[1] - ys[i])
        .collect();
    for j in 0..2 {
        let dot: f64 = (0..4).map(|i| rows[i][j] * residual[i]).sum();
        assert!(dot.abs() < 1e-9, "column {} not orthogonal: {}", j, dot);
    }
}

#[test]
fn solve_rank_deficient_gives_min_norm_best_fit() {
    let x = design(vec![vec![1.0, 1.0], vec![2.0, 2.0], vec![3.0, 3.0]]);
    let y = target(vec![2.0, 4.0, 6.0]);
    let r = solve(&x, &y);
    let theta = values(&r.unwrap());
    assert!(theta.iter().all(|t| t.is_finite()));
    for (i, scale) in [1.0f64, 2.0, 3.0].iter().enumerate() {
        let fitted = scale * theta[0] + scale * theta[1];
        assert!((fitted - 2.0 * scale).abs() < 1e-9, "row {} fitted {}", i, fitted);
    }
    assert!((theta[0] - 1.0).abs() < 1e-9, "theta0 {} not minimum-norm", theta[0]);
    assert!((theta[1] - 1.0).abs() < 1e-9, "theta1 {} not minimum-norm", theta[1]);
}

#[test]
fn solve_underdetermined_gives_min_norm() {
    let x = design(vec![vec![1.0, 1.0]]);
    let y = target(vec![2.0]);
    let theta = values(&solve(&x, &y).unwrap());
    assert!((theta[0] - 1.0).abs() < 1e-9, "theta0 {}", theta[0]);
    assert!((theta[1] - 1.0).abs() < 1e-9, "theta1 {}", theta[1]);
}

#[test]
fn solve_drops_singular_values_below_cutoff() {
    let x = design(vec![vec![1.0, 0.0], vec![0.0, 1e-11]]);
    let y = target(vec![1.0, 1.0]);
    let theta = values(&solve(&x, &y).unwrap());
    assert!((theta[0] - 1.0).abs() < 1e-9, "theta0 {}", theta[0]);
    assert!(theta[1].abs() < 1e-6, "direction below cutoff not dropped: {}", theta[1]);
}

#[test]
fn solve_keeps_singular_values_above_cutoff() {
    let x = design(vec![vec![1.0, 0.0], vec![0.0, 1e-9]]);
    let y = target(vec![1.0, 1.0]);
    let theta = values(&solve(&x, &y).unwrap());
    assert!((theta[0] - 1.0).abs() < 1e-9, "theta0 {}", theta[0]);
    assert!(theta[1] > 1e8, "direction above cutoff was dropped: {}", theta[1]);
}

#[test]
fn solve_twice_gives_identical_bits() {
    let theta_a = solve(&line_design(), &target(vec![1.1, 1.9, 3.2]))
        .unwrap()
        .bits()
        .clone();
    let theta_b = solve(&line_design(), &target(vec![1.1, 1.9, 3.2]))
        .unwrap()
        .bits()
        .clone();
    assert_eq!(theta_a, theta_b);
}

#[test]
fn solve_nan_entry_is_numeric_failure() {
    let x = design(vec![vec![1.0, f64::NAN], vec![1.0, 2.0]]);
    let y = target(vec![1.0, 2.0]);
    assert_eq!(solve(&x, &y).unwrap_err(), RegressionError::NumericFailure);
}

#[test]
fn solve_infinite_entry_is_numeric_failure() {
    let x = design(vec![vec![1.0, 1.0], vec![f64::INFINITY, 2.0]]);
    let y = target(vec![1.0, 2.0]);
    assert_eq!(solve(&x, &y).unwrap_err(), RegressionError::NumericFailure);
}

#[test]
fn solve_nan_target_is_numeric_failure() {
    let x = line_design();
    let y = target(vec![1.0, f64::NAN, 3.0]);
    assert_eq!(solve(&x, &y).unwrap_err(), RegressionError::NumericFailure);
}

#[test]
fn solve_infinite_target_is_numeric_failure() {
    let x = line_design();
    let y = target(vec![1.0, f64::NEG_INFINITY, 3.0]);
    assert_eq!(solve(&x, &y).unwrap_err(), RegressionError::NumericFailure);
}

#[test]
fn solve_overflowing_accumulation_is_numeric_failure() {
    let x = design(vec![vec![1.0], vec![1.0]]);
    let y = target(vec![f64::MAX, f64::MAX]);
    assert_eq!(solve(&x, &y).unwrap_err(), RegressionError::NumericFailure);
}

#[test]
fn solve_infinite_coefficient_is_numeric_failure() {
    // Singular vectors at forty-five degrees and tiny singular values:
    // every intermediate stays finite, and only the last addition of the
    // first coefficient overflows.
    let x = design(vec![vec![1.5e-9, 0.5e-9], vec![0.5e-9, 1.5e-9]]);
    let y = target(vec![3.6e299, 1.2e299]);
    assert_eq!(solve(&x, &y).unwrap_err(), RegressionError::NumericFailure);
}

#[test]
fn design_from_rows_rejects_invalid_shape() {
    assert_eq!(
        DesignMatrix::from_rows(Vec::new()).unwrap_err(),
        RegressionError::InvalidShape
    );
    assert_eq!(
        DesignMatrix::from_rows(to_bit_rows(vec![vec![1.0, 2.0], vec![3.0]])).unwrap_err(),
        RegressionError::InvalidShape
    );
}

#[test]
fn coefficient_vector_exposes_bits() {
    let x = line_design();
    let y = target(vec![1.0, 2.0, 3.0]);
    let c = solve(&x, &y).unwrap();
    assert_eq!(c.len(), 2);
    assert_eq!(c.bit_at(0), c.bits()[0]);
    assert_eq!(c.bit_at(1), c.bits()[1]);
}
