use alphaforge::{Matrix, PricePredictor, StrategyError};

fn b(x: f64) -> u64 {
    x.to_bits()
}

fn f(x: u64) -> f64 {
    f64::from_bits(x)
}

fn matrix_from(rows: &[Vec<f64>], cols: usize) -> Matrix {
    let mut m = Matrix::new(cols);
    for row in rows {
        assert_eq!(row.len(), cols);
        m.push_row(row.iter().map(|&x| b(x)).collect());
    }
    m
}

fn sample_features() -> Matrix {
    matrix_from(
        &[
            vec![1.0, 2.0],
            vec![2.0, 3.0],
            vec![3.0, 4.0],
            vec![4.0, 5.0],
        ],
        2,
    )
}

fn sample_targets() -> Vec<u64> {
    vec![b(3.0), b(5.0), b(7.0), b(9.0)]
}

#[test]
fn test_train_and_predict() {
    let features = sample_features();
    let targets = sample_targets();

    let mut predictor = PricePredictor::new();
    let result = predictor.train(&features, &targets);
    assert!(result.is_ok());

    let test_features = matrix_from(&[vec![5.0, 6.0]], 2);
    let predictions = predictor.predict(&test_features);
    assert!(predictions.is_ok());
}

#[test]
fn test_evaluate() {
    let features = sample_features();
    let targets = sample_targets();

    let mut predictor = PricePredictor::new();
    predictor.train(&features, &targets).unwrap();

    let r2 = predictor.evaluate(&features, &targets).unwrap();
    assert!(f(r2) > 0.8); // Good fit
}

#[test]
fn test_train_deterministic() {
    let features = matrix_from(
        &[vec![0.0], vec![0.5], vec![1.0], vec![1.5], vec![2.0]],
        1,
    );
    let targets = vec![b(1.0), b(2.0), b(3.0), b(4.0), b(5.0)];

    let mut p1 = PricePredictor::new();
    let mut p2 = PricePredictor::new();
    p1.train(&features, &targets).unwrap();
    p2.train(&features, &targets).unwrap();

    assert_eq!(p1.coefficients, p2.coefficients);
    assert_eq!(p1.intercept, p2.intercept);
    assert_eq!(p1.feature_count, p2.feature_count);
}

#[test]
fn test_r2_perfect_linear() {
    // target = 2 * feature + 1, exactly
    let features = matrix_from(
        &[vec![0.0], vec![0.5], vec![1.0], vec![1.5], vec![2.0]],
        1,
    );
    let targets = vec![b(1.0), b(2.0), b(3.0), b(4.0), b(5.0)];

    let mut predictor = PricePredictor::new();
    predictor.train(&features, &targets).unwrap();

    let r2 = predictor.evaluate(&features, &targets).unwrap();
    assert!(f(r2) > 0.99);
}

#[test]
fn test_predict_exact() {
    // y = 2 * x + 1 on x = 3 is exactly 7 in binary64 arithmetic
    let predictor = PricePredictor {
        coefficients: vec![b(2.0)],
        intercept: b(1.0),
        feature_count: 1,
    };
    let features = matrix_from(&[vec![3.0]], 1);
    let predictions = predictor.predict(&features).unwrap();
    assert_eq!(predictions, vec![b(7.0)]);
}

#[test]
fn test_predict_feature_count_mismatch() {
    let predictor = PricePredictor::new();
    let features = matrix_from(&[vec![1.0, 2.0]], 2);
    let result = predictor.predict(&features);
    assert_eq!(result.unwrap_err(), StrategyError::FeatureCountMismatch);
}

#[test]
fn test_train_dimension_mismatch() {
    let features = matrix_from(&[vec![1.0], vec![2.0]], 1);
    let targets = vec![b(1.0), b(2.0), b(3.0)];
    let mut predictor = PricePredictor::new();
    let result = predictor.train(&features, &targets);
    assert_eq!(result.unwrap_err(), StrategyError::DimensionMismatch);
    // the failed call left the model untouched
    assert!(predictor.coefficients.is_empty());
    assert_eq!(predictor.feature_count, 0);
}

#[test]
fn test_evaluate_exact() {
    // An all-zero model predicts zero everywhere: with targets 1 and 3 the
    // mean is 2, the total sum of squares 2, the residual sum 10, and the
    // score exactly 1 - 10/2 = -4.
    let predictor = PricePredictor {
        coefficients: vec![b(0.0)],
        intercept: b(0.0),
        feature_count: 1,
    };
    let features = matrix_from(&[vec![0.0], vec![0.0]], 1);
    let targets = vec![b(1.0), b(3.0)];
    let r2 = predictor.evaluate(&features, &targets).unwrap();
    assert_eq!(r2, b(-4.0));
}

#[test]
fn test_evaluate_constant_targets() {
    // Zero target variance: the score divides by zero and is not finite;
    // callers must treat it as meaningful only for non-constant targets.
    let predictor = PricePredictor {
        coefficients: vec![b(0.0)],
        intercept: b(0.0),
        feature_count: 1,
    };
    let features = matrix_from(&[vec![0.0], vec![0.0]], 1);
    let targets = vec![b(5.0), b(5.0)];
    let r2 = predictor.evaluate(&features, &targets).unwrap();
    assert!(!f(r2).is_finite());
}

#[test]
fn test_predict_untrained() {
    // An untrained model never predicts, not even on zero-width rows.
    let predictor = PricePredictor::new();
    let features = matrix_from(&[vec![], vec![]], 0);
    let result = predictor.predict(&features);
    assert_eq!(result.unwrap_err(), StrategyError::FeatureCountMismatch);
    let evaluated = predictor.evaluate(&features, &vec![b(1.0), b(2.0)]);
    assert_eq!(evaluated.unwrap_err(), StrategyError::FeatureCountMismatch);
}

#[test]
fn test_record_round_trip() {
    let features = matrix_from(
        &[vec![0.0], vec![0.5], vec![1.0], vec![1.5], vec![2.0]],
        1,
    );
    let targets = vec![b(1.0), b(2.0), b(3.0), b(4.0), b(5.0)];
    let mut predictor = PricePredictor::new();
    predictor.train(&features, &targets).unwrap();

    let record = predictor.to_record();
    let restored = PricePredictor::from_record(&record).unwrap();
    assert_eq!(restored.coefficients, predictor.coefficients);
    assert_eq!(restored.intercept, predictor.intercept);
    assert_eq!(restored.feature_count, predictor.feature_count);
}

#[test]
fn test_from_record_malformed() {
    // too short
    let result = PricePredictor::from_record(&vec![5u64]);
    assert_eq!(result.unwrap_err(), StrategyError::SerializationFailure);
    // feature count does not match the number of coefficients
    let result = PricePredictor::from_record(&vec![3u64, 0, 0]);
    assert_eq!(result.unwrap_err(), StrategyError::SerializationFailure);
    // a consistent record parses
    let result = PricePredictor::from_record(&vec![1u64, b(0.5), b(2.0)]);
    let p = result.unwrap();
    assert_eq!(p.feature_count, 1);
    assert_eq!(p.intercept, b(0.5));
    assert_eq!(p.coefficients, vec![b(2.0)]);
}

#[test]
fn test_default_is_untrained() {
    let p = PricePredictor::default();
    assert!(p.coefficients.is_empty());
    assert_eq!(p.intercept, b(0.0));
    assert_eq!(p.feature_count, 0);
}

#[test]
fn test_error_descriptions() {
    let errors = [
        StrategyError::InsufficientData,
        StrategyError::DimensionMismatch,
        StrategyError::FeatureCountMismatch,
        StrategyError::InsufficientHistory,
        StrategyError::SerializationFailure,
    ];
    for e in errors {
        assert!(!e.describe().is_empty());
    }
}
