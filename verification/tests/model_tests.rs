//! The model's construction, validation, and inference surface: the preset,
//! the fail-fast errors, clipping, thresholding, and the accuracy count.

use logreg::bits::F_ONE;
use logreg::bits::F_ZERO;
use logreg::matrix::Matrix;
use logreg::model::LogisticRegression;
use logreg::model::ModelError;
use logreg::standardize::check_feature_spreads;

fn bits_rows(rows: &[&[f64]]) -> Matrix {
    let data: Vec<Vec<u64>> = rows
        .iter()
        .map(|r| r.iter().map(|v| v.to_bits()).collect())
        .collect();
    Matrix::from_rows(data).unwrap()
}

fn column(vals: &[f64]) -> Matrix {
    let data: Vec<Vec<u64>> = vals.iter().map(|v| vec![v.to_bits()]).collect();
    Matrix::from_rows(data).unwrap()
}

#[test]
fn default_is_the_preset() {
    let model = LogisticRegression::default();
    assert_eq!(f64::from_bits(model.learning_rate()), 0.01);
    assert_eq!(model.n_iters(), 200);
    assert_eq!(f64::from_bits(model.eps()), 1.0e-12);
    assert!(!model.is_fitted());
}

#[test]
fn new_keeps_the_hyperparameters() {
    let model = LogisticRegression::new((0.02f64).to_bits(), 350);
    assert_eq!(f64::from_bits(model.learning_rate()), 0.02);
    assert_eq!(model.n_iters(), 350);
    assert_eq!(f64::from_bits(model.eps()), 1.0e-12);
}

#[test]
fn unfitted_model_fails_fast() {
    let model = LogisticRegression::default();
    let a = column(&[0.4, 0.6]);
    let y = column(&[0.0, 1.0]);
    assert_eq!(model.weights().err(), Some(ModelError::NotFitted));
    assert_eq!(model.bias().err(), Some(ModelError::NotFitted));
    assert!(matches!(model.predict(&a), Err(ModelError::NotFitted)));
    assert_eq!(model.score(&a, &y).err(), Some(ModelError::NotFitted));
}

#[test]
fn init_fit_rejects_row_count_mismatch() {
    let mut model = LogisticRegression::default();
    let x = bits_rows(&[&[0.1, 0.2], &[0.3, 0.4]]);
    let y = column(&[0.0, 1.0, 0.0]);
    let w0 = column(&[0.0, 0.0]);
    assert_eq!(model.init_fit(&x, &y, w0), Err(ModelError::ShapeMismatch));
    assert!(!model.is_fitted());
}

#[test]
fn init_fit_rejects_weight_shape_mismatch() {
    let mut model = LogisticRegression::default();
    let x = bits_rows(&[&[0.1, 0.2], &[0.3, 0.4]]);
    let y = column(&[0.0, 1.0]);
    let w0 = column(&[0.0, 0.0, 0.0]);
    assert_eq!(model.init_fit(&x, &y, w0), Err(ModelError::ShapeMismatch));
}

#[test]
fn init_fit_rejects_empty_input() {
    let mut model = LogisticRegression::default();
    let x = Matrix::from_rows(Vec::new()).unwrap();
    let y = Matrix::from_rows(Vec::new()).unwrap();
    let w0 = Matrix::from_rows(Vec::new()).unwrap();
    assert_eq!(model.init_fit(&x, &y, w0), Err(ModelError::ShapeMismatch));
}

#[test]
fn init_fit_rejects_non_label_entries() {
    let mut model = LogisticRegression::default();
    let x = bits_rows(&[&[0.1, 0.2], &[0.3, 0.4]]);
    let y = column(&[0.0, 0.5]);
    let w0 = column(&[0.0, 0.0]);
    assert_eq!(model.init_fit(&x, &y, w0), Err(ModelError::InvalidLabel));
}

#[test]
fn init_fit_installs_the_initial_parameters() {
    let mut model = LogisticRegression::default();
    let x = bits_rows(&[&[0.1, 0.2], &[0.3, 0.4]]);
    let y = column(&[0.0, 1.0]);
    let w0 = column(&[0.25, -0.75]);
    assert_eq!(model.init_fit(&x, &y, w0), Ok(()));
    assert!(model.is_fitted());
    let w = model.weights().unwrap();
    assert_eq!(w.rows(), 2);
    assert_eq!(w.cols(), 1);
    assert_eq!(f64::from_bits(w.get(0, 0)), 0.25);
    assert_eq!(f64::from_bits(w.get(1, 0)), -0.75);
    assert_eq!(f64::from_bits(model.bias().unwrap()), 0.0);
}

#[test]
fn refitting_discards_previous_parameters() {
    let mut model = LogisticRegression::default();
    let x = bits_rows(&[&[0.1, 0.2], &[0.3, 0.4]]);
    let y = column(&[0.0, 1.0]);
    assert_eq!(model.init_fit(&x, &y, column(&[0.25, -0.75])), Ok(()));
    let up = column(&[9.0, 9.0]);
    assert_eq!(model.update_params(up, (5.0f64).to_bits()), Ok(()));
    assert_eq!(model.init_fit(&x, &y, column(&[0.5, 0.5])), Ok(()));
    let w = model.weights().unwrap();
    assert_eq!(f64::from_bits(w.get(0, 0)), 0.5);
    assert_eq!(f64::from_bits(w.get(1, 0)), 0.5);
    assert_eq!(f64::from_bits(model.bias().unwrap()), 0.0);
}

#[test]
fn update_params_requires_a_fitted_model() {
    let mut model = LogisticRegression::default();
    let w = column(&[0.1]);
    assert_eq!(
        model.update_params(w, (0.0f64).to_bits()),
        Err(ModelError::NotFitted)
    );
}

#[test]
fn update_params_rejects_a_changed_shape() {
    let mut model = LogisticRegression::default();
    let x = bits_rows(&[&[0.1, 0.2], &[0.3, 0.4]]);
    let y = column(&[0.0, 1.0]);
    assert_eq!(model.init_fit(&x, &y, column(&[0.0, 0.0])), Ok(()));
    let w = column(&[0.1, 0.2, 0.3]);
    assert_eq!(
        model.update_params(w, (0.0f64).to_bits()),
        Err(ModelError::ShapeMismatch)
    );
}

#[test]
fn clip_activations_stays_inside_the_open_interval() {
    let mut model = LogisticRegression::default();
    let x = bits_rows(&[&[0.1], &[0.3]]);
    let y = column(&[0.0, 1.0]);
    assert_eq!(model.init_fit(&x, &y, column(&[0.0])), Ok(()));
    let a = column(&[0.0, 1.0, 0.5, 1.0e-15, f64::NAN]);
    let clipped = model.clip_activations(&a);
    assert_eq!(clipped.rows(), 5);
    assert_eq!(clipped.cols(), 1);
    let eps = 1.0e-12f64;
    for i in 0..5 {
        let v = f64::from_bits(clipped.get(i, 0));
        assert!(v != 0.0 && v != 1.0 && !v.is_nan());
        assert!((eps..=1.0 - eps).contains(&v));
    }
    assert_eq!(f64::from_bits(clipped.get(0, 0)), eps);
    assert_eq!(f64::from_bits(clipped.get(1, 0)), 1.0 - eps);
    assert_eq!(f64::from_bits(clipped.get(2, 0)), 0.5);
    assert_eq!(f64::from_bits(clipped.get(3, 0)), 1.0e-15f64.max(eps));
    assert_eq!(f64::from_bits(clipped.get(4, 0)), eps);
}

#[test]
fn predict_thresholds_at_half() {
    let mut model = LogisticRegression::default();
    let x = bits_rows(&[&[0.1], &[0.3]]);
    let y = column(&[0.0, 1.0]);
    assert_eq!(model.init_fit(&x, &y, column(&[0.0])), Ok(()));
    let a = column(&[0.2, 0.5, 0.9, 0.49999999999]);
    let p = model.predict(&a).unwrap();
    assert_eq!(p.rows(), 4);
    assert_eq!(p.cols(), 1);
    let expected: [f64; 4] = [0.0, 1.0, 1.0, 0.0];
    for (i, e) in expected.iter().enumerate() {
        assert_eq!(p.get(i, 0), e.to_bits());
    }
}

#[test]
fn predict_twice_is_identical() {
    let mut model = LogisticRegression::default();
    let x = bits_rows(&[&[0.1], &[0.3]]);
    let y = column(&[0.0, 1.0]);
    assert_eq!(model.init_fit(&x, &y, column(&[0.0])), Ok(()));
    let a = column(&[0.2, 0.5, 0.9, 0.1, 0.7]);
    let p1 = model.predict(&a).unwrap();
    let p2 = model.predict(&a).unwrap();
    assert_eq!(p1.rows(), p2.rows());
    for i in 0..p1.rows() {
        assert_eq!(p1.get(i, 0), p2.get(i, 0));
    }
}

#[test]
fn predictions_are_always_labels() {
    let mut model = LogisticRegression::default();
    let x = bits_rows(&[&[0.1], &[0.3]]);
    let y = column(&[0.0, 1.0]);
    assert_eq!(model.init_fit(&x, &y, column(&[0.0])), Ok(()));
    let a = column(&[f64::NAN, f64::INFINITY, -3.0, 0.5, 1.0e-300]);
    let p = model.predict(&a).unwrap();
    for i in 0..p.rows() {
        let v = p.get(i, 0);
        assert!(v == F_ZERO || v == F_ONE);
    }
}

#[test]
fn score_counts_exact_matches() {
    let mut model = LogisticRegression::default();
    let x = bits_rows(&[&[0.1], &[0.3]]);
    let y_fit = column(&[0.0, 1.0]);
    assert_eq!(model.init_fit(&x, &y_fit, column(&[0.0])), Ok(()));
    let a = column(&[0.2, 0.9, 0.9, 0.2]);
    let y = column(&[0.0, 1.0, 0.0, 1.0]);
    let (correct, total) = model.score(&a, &y).unwrap();
    assert_eq!(correct, 2);
    assert_eq!(total, 4);
}

#[test]
fn score_rejects_mismatched_and_invalid_input() {
    let mut model = LogisticRegression::default();
    let x = bits_rows(&[&[0.1], &[0.3]]);
    let y_fit = column(&[0.0, 1.0]);
    assert_eq!(model.init_fit(&x, &y_fit, column(&[0.0])), Ok(()));
    let a = column(&[0.2, 0.9]);
    let y_short = column(&[0.0]);
    assert_eq!(model.score(&a, &y_short), Err(ModelError::ShapeMismatch));
    let y_bad = column(&[0.0, 0.25]);
    assert_eq!(model.score(&a, &y_bad), Err(ModelError::InvalidLabel));
    let empty = Matrix::from_rows(Vec::new()).unwrap();
    assert_eq!(model.score(&empty, &empty), Err(ModelError::ShapeMismatch));
}

#[test]
fn from_rows_rejects_ragged_input() {
    let data = vec![vec![F_ZERO, F_ONE], vec![F_ZERO]];
    assert!(matches!(
        Matrix::from_rows(data),
        Err(ModelError::ShapeMismatch)
    ));
}

#[test]
fn matrix_get_reads_row_major_entries() {
    let m = bits_rows(&[&[1.0, 2.0], &[3.0, 4.0]]);
    assert_eq!(m.rows(), 2);
    assert_eq!(m.cols(), 2);
    assert_eq!(f64::from_bits(m.get(0, 1)), 2.0);
    assert_eq!(f64::from_bits(m.get(1, 0)), 3.0);
}

#[test]
fn zeros_is_all_zero() {
    let m = Matrix::zeros(2, 3);
    assert_eq!(m.rows(), 2);
    assert_eq!(m.cols(), 3);
    for i in 0..2 {
        for j in 0..3 {
            assert_eq!(m.get(i, j), F_ZERO);
        }
    }
}

#[test]
fn spread_check_accepts_positive_finite_spreads() {
    let stds: Vec<u64> = [1.0, 0.5, 3.0e5].iter().map(|v: &f64| v.to_bits()).collect();
    assert_eq!(check_feature_spreads(&stds), Ok(()));
}

#[test]
fn spread_check_names_the_first_degenerate_column() {
    let cases: &[(&[f64], usize)] = &[
        (&[1.0, 0.0, 2.0], 1),
        (&[-0.0, 1.0], 0),
        (&[1.0, f64::NAN], 1),
        (&[f64::INFINITY, 1.0], 0),
        (&[1.0, -2.0], 1),
    ];
    for (stds, expected) in cases {
        let bits: Vec<u64> = stds.iter().map(|v| v.to_bits()).collect();
        assert_eq!(check_feature_spreads(&bits), Err(*expected));
    }
}
