use spectremesh::calibration::FearCalibrator;
use spectremesh::calibration::SampleStatistics;
use spectremesh::error::FearError;
use spectremesh::ratio::Ratio;
use spectremesh::scalar::Scalar;
use std::time::Duration;

fn scalar(x: f32) -> Scalar {
    Scalar::from_bits(x.to_bits())
}

fn number(x: Scalar) -> f32 {
    f32::from_bits(x.to_bits())
}

fn share(r: Ratio) -> f32 {
    r.numerator as f32 / r.denominator as f32
}

fn statistics(samples: &Vec<Scalar>) -> SampleStatistics {
    let values: Vec<f32> = samples.iter().map(|x| number(*x)).collect();
    let mean = values.iter().sum::<f32>() / values.len() as f32;
    let variance = values.iter().map(|x| (x - mean).powi(2)).sum::<f32>() / values.len() as f32;
    SampleStatistics { mean: scalar(mean), deviation: scalar(variance.sqrt()) }
}

fn statistics_with(calibrator: &FearCalibrator, sample: f32) -> SampleStatistics {
    let mut samples = calibrator.baseline_samples().clone();
    samples.push(scalar(sample));
    statistics(&samples)
}

fn normalize(calibrator: &FearCalibrator, logit: f32) -> f32 {
    let z = (logit - number(calibrator.mean())) / number(calibrator.std_dev());
    let sigmoid = 1.0 / (1.0 + (-z).exp());
    number(calibrator.normalize_fear(scalar(sigmoid)))
}

#[test]
fn test_fear_calibrator_creation() {
    let calibrator = FearCalibrator::new(Duration::from_secs(30), 1).unwrap();
    assert!(!calibrator.is_calibrated());
    assert_eq!(share(calibrator.calibration_progress()), 0.0);
    assert_eq!(calibrator.target_samples(), 30);
}

#[test]
fn test_fear_calibration_mathematics() {
    let mut calibrator = FearCalibrator::new(Duration::from_secs(10), 1).unwrap();

    let baseline_samples = vec![0.2, 0.25, 0.18, 0.22, 0.19, 0.21, 0.23, 0.20, 0.24, 0.17];
    for sample in baseline_samples {
        calibrator.add_sample(scalar(sample), statistics_with(&calibrator, sample)).unwrap();
    }

    assert!(calibrator.is_calibrated());
    assert_eq!(share(calibrator.calibration_progress()), 1.0);

    let neutral_fear = normalize(&calibrator, 0.2);
    assert!((neutral_fear - 0.5).abs() < 0.1);

    let high_fear = normalize(&calibrator, 0.8);
    assert!(high_fear > 0.7);

    let low_fear = normalize(&calibrator, 0.05);
    assert!(low_fear < 0.3);
}

#[test]
fn test_calibration_incomplete() {
    let mut calibrator = FearCalibrator::new(Duration::from_secs(30), 1).unwrap();

    for _ in 0..5 {
        calibrator.add_sample(scalar(0.2), statistics_with(&calibrator, 0.2)).unwrap();
    }

    assert!(!calibrator.is_calibrated());
    assert!((share(calibrator.calibration_progress()) - 5.0 / 30.0).abs() < 0.01);

    assert_eq!(normalize(&calibrator, 0.8), 0.3);
}

#[test]
fn test_extract_fear_logit() {
    let emotion_logits = [0.1f32, 0.1, 0.8, 0.1, 0.1, 0.1, 0.1].map(scalar);
    let fear_logit = FearCalibrator::extract_fear_logit(&emotion_logits);
    assert_eq!(number(fear_logit), 0.8);
}

#[test]
fn test_small_std_dev_handling() {
    let mut calibrator = FearCalibrator::new(Duration::from_secs(5), 1).unwrap();

    for _ in 0..5 {
        calibrator.add_sample(scalar(0.5), statistics_with(&calibrator, 0.5)).unwrap();
    }

    assert!(calibrator.is_calibrated());
    let normalized = normalize(&calibrator, 0.6);
    assert!(normalized >= 0.0 && normalized <= 1.0);
}

#[test]
fn test_sigmoid_mapping() {
    let mut calibrator = FearCalibrator::new(Duration::from_secs(3), 1).unwrap();

    calibrator.add_sample(scalar(0.0), statistics_with(&calibrator, 0.0)).unwrap();
    calibrator.add_sample(scalar(0.0), statistics_with(&calibrator, 0.0)).unwrap();
    calibrator.add_sample(scalar(0.0), statistics_with(&calibrator, 0.0)).unwrap();
    assert!(calibrator.is_calibrated());

    let result = normalize(&calibrator, 0.0);
    assert!((result - 0.5).abs() < 0.1);
}

#[test]
fn identical_samples_give_their_value_and_unit_deviation() {
    let mut calibrator = FearCalibrator::new(Duration::from_secs(4), 2).unwrap();
    assert_eq!(calibrator.target_samples(), 8);
    for _ in 0..8 {
        calibrator.add_sample(scalar(0.25), statistics_with(&calibrator, 0.25)).unwrap();
    }
    assert!(calibrator.is_calibrated());
    assert_eq!(number(calibrator.mean()), 0.25);
    assert_eq!(number(calibrator.std_dev()), 1.0);
    assert!((normalize(&calibrator, 0.25) - 0.5).abs() < 1e-6);
}

#[test]
fn no_sample_means_neutral_score() {
    let calibrator = FearCalibrator::new(Duration::from_secs(10), 30).unwrap();
    assert!(!calibrator.is_calibrated());
    for x in [-5.0f32, 0.0, 0.3, 0.99, 42.0, f32::NAN] {
        assert_eq!(number(calibrator.normalize_fear(scalar(x))), 0.3);
    }
}

#[test]
fn progress_rises_and_stops_at_one() {
    let mut calibrator = FearCalibrator::new(Duration::from_secs(4), 1).unwrap();
    let mut last = 0.0f32;
    for i in 0..10 {
        calibrator.add_sample(scalar(0.1 * i as f32), statistics_with(&calibrator, 0.1 * i as f32)).unwrap();
        let now = share(calibrator.calibration_progress());
        assert!(now >= last);
        assert!(now <= 1.0);
        if calibrator.is_calibrated() {
            assert_eq!(now, 1.0);
        }
        last = now;
    }
    assert!(calibrator.is_calibrated());
    assert_eq!(calibrator.baseline_samples().len(), 4);
}

#[test]
fn end_to_end_example() {
    let mut calibrator = FearCalibrator::new(Duration::from_secs(10), 1).unwrap();
    assert_eq!(calibrator.target_samples(), 10);
    let logits = [0.2f32, 0.25, 0.18, 0.22, 0.19, 0.21, 0.23, 0.20, 0.24, 0.17];
    for (i, x) in logits.iter().enumerate() {
        assert!(!calibrator.is_calibrated());
        calibrator.add_sample(scalar(*x), statistics_with(&calibrator, *x)).unwrap();
        assert_eq!(calibrator.is_calibrated(), i == 9);
    }
    assert!((number(calibrator.mean()) - 0.209).abs() < 1e-4);
    assert!((normalize(&calibrator, 0.209) - 0.5).abs() < 0.1);
    assert!(normalize(&calibrator, 0.8) > 0.7);
    assert!(normalize(&calibrator, 0.05) < 0.3);
}

#[test]
fn target_is_rounded_and_zero_is_refused() {
    assert_eq!(FearCalibrator::new(Duration::from_millis(300), 30).unwrap().target_samples(), 9);
    assert_eq!(FearCalibrator::new(Duration::from_millis(1500), 1).unwrap().target_samples(), 2);
    assert_eq!(FearCalibrator::new(Duration::from_millis(1499), 1).unwrap().target_samples(), 1);
    let refused = FearCalibrator::new(Duration::from_millis(499), 1);
    assert!(matches!(refused, Err(FearError::Configuration { .. })));
    assert!(FearCalibrator::new(Duration::from_secs(30), 0).is_err());
}

#[test]
fn baseline_is_fixed_with_the_sample_that_completes_the_set() {
    let mut calibrator = FearCalibrator::new(Duration::from_secs(3), 1).unwrap();
    let early = SampleStatistics { mean: scalar(9.0), deviation: scalar(9.0) };
    let stats = SampleStatistics { mean: scalar(0.5), deviation: scalar(0.2) };
    assert!(!calibrator.completes_with_next());
    calibrator.add_sample(scalar(0.5), early).unwrap();
    assert!(!calibrator.is_calibrated());
    assert_eq!((number(calibrator.mean()), number(calibrator.std_dev())), (0.0, 1.0));
    calibrator.add_sample(scalar(0.5), early).unwrap();
    assert!(!calibrator.is_calibrated());
    assert_eq!(calibrator.calibration_progress(), Ratio { numerator: 2, denominator: 3 });
    assert!(calibrator.completes_with_next());
    calibrator.add_sample(scalar(0.5), stats).unwrap();
    assert!(calibrator.is_calibrated());
    assert!(!calibrator.completes_with_next());
    assert_eq!(share(calibrator.calibration_progress()), 1.0);
    assert_eq!((number(calibrator.mean()), number(calibrator.std_dev())), (0.5, 0.2));

    // Once calibrated a sample is ignored: nothing is kept of it.
    calibrator.add_sample(scalar(0.9), early).unwrap();
    assert_eq!(calibrator.baseline_samples().len(), 3);
    assert_eq!((number(calibrator.mean()), number(calibrator.std_dev())), (0.5, 0.2));
}

#[test]
fn small_deviation_is_replaced_by_one() {
    for (deviation, kept) in [(0.0f32, 1.0f32), (0.0099, 1.0), (0.01, 0.01), (0.5, 0.5)] {
        let mut calibrator = FearCalibrator::new(Duration::from_secs(1), 1).unwrap();
        let stats = SampleStatistics { mean: scalar(0.4), deviation: scalar(deviation) };
        calibrator.add_sample(scalar(0.4), stats).unwrap();
        assert!(calibrator.is_calibrated());
        assert_eq!(number(calibrator.std_dev()), kept);
        assert_eq!(number(FearCalibrator::kept_deviation(scalar(deviation))), kept);
    }
}

#[test]
fn ten_samples_give_their_mean_and_deviation() {
    let mut calibrator = FearCalibrator::new(Duration::from_secs(10), 1).unwrap();
    assert_eq!(calibrator.target_samples(), 10);
    let samples = [0.2f32, 0.25, 0.18, 0.22, 0.19, 0.21, 0.23, 0.20, 0.24];
    for sample in samples {
        calibrator.add_sample(scalar(sample), statistics_with(&calibrator, sample)).unwrap();
        assert!(!calibrator.is_calibrated());
    }
    calibrator.add_sample(scalar(0.17), statistics_with(&calibrator, 0.17)).unwrap();
    assert!(calibrator.is_calibrated());
    assert_eq!(calibrator.calibration_progress(), Ratio { numerator: 10, denominator: 10 });
    assert!((number(calibrator.mean()) - 0.209).abs() < 1e-4);
    assert!((number(calibrator.std_dev()) - 0.02468).abs() < 1e-4);
}
