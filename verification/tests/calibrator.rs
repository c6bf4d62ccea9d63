use spectremesh::calibration::SampleStatistics;
use spectremesh::calibrator::AdaptiveCalibrator;
use spectremesh::calibrator::UpdateRule;
use spectremesh::error::CalibrationError;
use spectremesh::ratio::Ratio;
use spectremesh::scalar::Scalar;
use std::time::Duration;

fn scalar(x: f32) -> Scalar {
    Scalar::from_bits(x.to_bits())
}

fn number(x: Scalar) -> f32 {
    f32::from_bits(x.to_bits())
}

fn share(r: Ratio) -> f32 {
    r.numerator as f32 / r.denominator as f32
}

fn update_for(calibrator: &AdaptiveCalibrator, sample: f32) -> SampleStatistics {
    let stats = calibrator.baseline_stats();
    let mean = number(stats.mean);
    let std_dev = number(stats.std_dev);
    let (mean, deviation) = match calibrator.update_rule(scalar(sample)) {
        UpdateRule::Running => {
            let count = (stats.sample_count + 1) as f32;
            let delta = sample - mean;
            let variance = std_dev.powi(2);
            (mean + delta / count, (variance + (delta * delta - variance) / count).sqrt())
        }
        UpdateRule::Smoothing => {
            let alpha = number(calibrator.alpha());
            let delta = sample - mean;
            let variance = (1.0 - alpha) * std_dev.powi(2) + alpha * delta.powi(2);
            ((1.0 - alpha) * mean + alpha * sample, variance.sqrt())
        }
        _ => (sample, 1.0),
    };
    SampleStatistics { mean: scalar(mean), deviation: scalar(deviation) }
}

fn add(calibrator: &mut AdaptiveCalibrator, sample: f32) -> Result<(), CalibrationError> {
    let update = update_for(calibrator, sample);
    calibrator.add_sample(scalar(sample), update)
}

fn add_at(calibrator: &mut AdaptiveCalibrator, sample: f32, elapsed: Duration) {
    let update = update_for(calibrator, sample);
    calibrator.add_sample_at(scalar(sample), update, elapsed).unwrap();
}

fn normalize(calibrator: &AdaptiveCalibrator, logit: f32) -> f32 {
    let stats = calibrator.baseline_stats();
    let z = (logit - number(stats.mean)) / number(stats.std_dev);
    let sigmoid = 1.0 / (1.0 + (-z).exp());
    number(calibrator.normalize_fear(scalar(sigmoid)))
}

#[test]
fn test_calibrator_creation() {
    let calibrator = AdaptiveCalibrator::new(Duration::from_secs(30), scalar(0.05)).unwrap();
    assert!(!calibrator.is_calibrated());
    assert_eq!(share(calibrator.progress()), 0.0);
    assert!(!calibrator.is_frozen());
    assert_eq!(number(calibrator.alpha()), 0.05);
}

#[test]
fn test_calibrator_with_defaults() {
    let calibrator = AdaptiveCalibrator::with_defaults(Duration::from_secs(30)).unwrap();
    assert_eq!(number(calibrator.alpha()), 0.05);
}

#[test]
fn test_initial_calibration() {
    let mut calibrator = AdaptiveCalibrator::new(Duration::from_millis(100), scalar(0.05)).unwrap();

    for i in 0..50 {
        let sample = 0.5 + (i as f32 * 0.01);
        add_at(&mut calibrator, sample, Duration::from_millis(i));
    }
    assert!(!calibrator.is_calibrated());

    add_at(&mut calibrator, 0.6, Duration::from_millis(150));

    assert!(calibrator.is_calibrated());
    assert_eq!(share(calibrator.progress()), 1.0);
}

#[test]
fn test_fear_normalization() {
    let mut calibrator = AdaptiveCalibrator::new(Duration::from_millis(1), scalar(0.05)).unwrap();

    assert_eq!(normalize(&calibrator, 0.8), 0.3);

    for i in 0..30 {
        let sample = if i % 2 == 0 { 0.3 } else { 0.7 };
        add_at(&mut calibrator, sample, Duration::from_millis(10));
    }
    assert!(calibrator.is_calibrated());
    let mean = number(calibrator.baseline_stats().mean);
    assert!((mean - 0.5).abs() < 0.05);

    let normalized = normalize(&calibrator, 0.7);
    assert!(normalized > 0.5);

    let normalized_low = normalize(&calibrator, 0.3);
    assert!(normalized_low < 0.5);
}

#[test]
fn test_freeze_unfreeze() {
    let mut calibrator = AdaptiveCalibrator::new(Duration::from_secs(30), scalar(0.05)).unwrap();

    assert!(add(&mut calibrator, 0.5).is_ok());

    calibrator.freeze();
    assert!(calibrator.is_frozen());
    assert!(add(&mut calibrator, 0.6).is_err());

    calibrator.unfreeze();
    assert!(!calibrator.is_frozen());
    assert!(add(&mut calibrator, 0.6).is_ok());
}

#[test]
fn test_reset() {
    let mut calibrator = AdaptiveCalibrator::new(Duration::from_secs(30), scalar(0.05)).unwrap();

    add(&mut calibrator, 0.5).unwrap();
    add(&mut calibrator, 0.6).unwrap();

    let initial_count = calibrator.baseline_stats().sample_count;
    assert!(initial_count > 0);

    calibrator.reset();
    assert_eq!(calibrator.baseline_stats().sample_count, 0);
    assert!(!calibrator.is_calibrated());
    assert!(!calibrator.is_frozen());
}

#[test]
fn test_invalid_alpha() {
    let mut calibrator = AdaptiveCalibrator::new(Duration::from_secs(30), scalar(0.05)).unwrap();

    assert!(calibrator.set_alpha(scalar(0.0)).is_err());
    assert!(calibrator.set_alpha(scalar(1.0)).is_err());
    assert!(calibrator.set_alpha(scalar(-0.1)).is_err());
    assert!(calibrator.set_alpha(scalar(1.1)).is_err());

    assert!(calibrator.set_alpha(scalar(0.1)).is_ok());
    assert_eq!(number(calibrator.alpha()), 0.1);
}

#[test]
fn test_drift_calculation() {
    let mut calibrator = AdaptiveCalibrator::new(Duration::from_secs(30), scalar(0.05)).unwrap();
    add(&mut calibrator, 0.5).unwrap();
    assert_eq!(number(calibrator.baseline_stats().mean), 0.5);
    assert_eq!(number(calibrator.drift_checkpoint()), 0.0);

    let difference = number(calibrator.baseline_stats().mean) - 0.4;
    let drift = number(calibrator.calculate_drift(scalar(difference)));
    assert!((drift - 0.1).abs() < f32::EPSILON);
    assert_eq!(number(calibrator.drift_checkpoint()), 0.5);

    let drift = number(calibrator.calculate_drift(scalar(-0.25)));
    assert_eq!(drift, 0.25);
}

#[test]
fn construction_refuses_bad_settings() {
    for alpha in [0.0f32, 1.0, -0.1, 1.1, f32::NAN, f32::INFINITY] {
        let refused = AdaptiveCalibrator::new(Duration::from_secs(30), scalar(alpha));
        match refused {
            Err(CalibrationError::InvalidParameters { reason }) => {
                assert_eq!(reason, "Alpha must be between 0 and 1")
            }
            _ => panic!("alpha {} was accepted", alpha),
        }
    }
    let refused = AdaptiveCalibrator::new(Duration::from_secs(0), scalar(0.05));
    match refused {
        Err(CalibrationError::InvalidParameters { reason }) => {
            assert_eq!(reason, "Initial period must be positive")
        }
        _ => panic!("an empty period was accepted"),
    }
    assert!(AdaptiveCalibrator::with_defaults(Duration::from_secs(0)).is_err());
    let mut calibrator = AdaptiveCalibrator::with_defaults(Duration::from_secs(1)).unwrap();
    assert!(calibrator.set_alpha(scalar(f32::NAN)).is_err());
    assert_eq!(number(calibrator.alpha()), 0.05);
}

#[test]
fn frozen_calibrator_refuses_every_sample_and_stays() {
    let mut calibrator = AdaptiveCalibrator::with_defaults(Duration::from_secs(30)).unwrap();
    add(&mut calibrator, 0.5).unwrap();
    add(&mut calibrator, 0.7).unwrap();
    let mean = calibrator.baseline_stats().mean;
    let std_dev = calibrator.baseline_stats().std_dev;
    let count = calibrator.baseline_stats().sample_count;
    let stamp = calibrator.baseline_stats().last_update;

    calibrator.freeze();
    calibrator.freeze();
    for i in 0..5 {
        let answer = add(&mut calibrator, 0.1 * i as f32);
        assert!(matches!(answer, Err(CalibrationError::Frozen)));
        assert_eq!(calibrator.update_rule(scalar(0.3)), UpdateRule::Refused);
        assert_eq!(calibrator.baseline_stats().mean, mean);
        assert_eq!(calibrator.baseline_stats().std_dev, std_dev);
        assert_eq!(calibrator.baseline_stats().sample_count, count);
        assert_eq!(calibrator.baseline_stats().last_update, stamp);
    }

    calibrator.unfreeze();
    add(&mut calibrator, 0.9).unwrap();
    assert_eq!(calibrator.baseline_stats().sample_count, count + 1);
    assert_ne!(calibrator.baseline_stats().mean, mean);
}

#[test]
fn samples_that_are_no_numbers_leave_no_trace() {
    let mut calibrator = AdaptiveCalibrator::with_defaults(Duration::from_secs(30)).unwrap();
    add(&mut calibrator, 0.5).unwrap();
    for x in [f32::NAN, f32::INFINITY, f32::NEG_INFINITY] {
        assert_eq!(calibrator.update_rule(scalar(x)), UpdateRule::Skipped);
        let update = SampleStatistics { mean: scalar(9.0), deviation: scalar(9.0) };
        assert!(calibrator.add_sample(scalar(x), update).is_ok());
        assert_eq!(calibrator.baseline_stats().sample_count, 1);
        assert_eq!(number(calibrator.baseline_stats().mean), 0.5);
        assert_eq!(number(calibrator.baseline_stats().std_dev), 1.0);
    }
}

#[test]
fn rules_follow_the_phases() {
    let mut calibrator = AdaptiveCalibrator::with_defaults(Duration::from_secs(2)).unwrap();
    assert_eq!(calibrator.update_rule(scalar(0.5)), UpdateRule::First);
    let ignored = SampleStatistics { mean: scalar(7.0), deviation: scalar(7.0) };
    calibrator.add_sample_at(scalar(0.5), ignored, Duration::from_secs(0)).unwrap();
    assert_eq!(number(calibrator.baseline_stats().mean), 0.5);
    assert_eq!(number(calibrator.baseline_stats().std_dev), 1.0);

    assert_eq!(calibrator.update_rule(scalar(0.5)), UpdateRule::Running);
    let update = SampleStatistics { mean: scalar(0.6), deviation: scalar(0.01) };
    calibrator.add_sample_at(scalar(0.7), update, Duration::from_secs(1)).unwrap();
    assert_eq!(number(calibrator.baseline_stats().mean), 0.6);
    assert_eq!(number(calibrator.baseline_stats().std_dev), 0.1);

    let update = SampleStatistics { mean: scalar(0.6), deviation: scalar(f32::NAN) };
    calibrator.add_sample_at(scalar(0.7), update, Duration::from_secs(1)).unwrap();
    assert_eq!(number(calibrator.baseline_stats().std_dev), 0.1);

    // Time alone does not end the initial calibration, nor do samples alone.
    let update = SampleStatistics { mean: scalar(0.6), deviation: scalar(0.3) };
    calibrator.add_sample_at(scalar(0.7), update, Duration::from_secs(5)).unwrap();
    assert!(!calibrator.is_calibrated());
    for _ in 0..30 {
        calibrator.add_sample_at(scalar(0.7), update, Duration::from_millis(1999)).unwrap();
    }
    assert!(!calibrator.is_calibrated());
    assert_eq!(calibrator.baseline_stats().sample_count, 34);
    calibrator.add_sample_at(scalar(0.7), update, Duration::from_secs(2)).unwrap();
    assert!(calibrator.is_calibrated());
    assert_eq!(number(calibrator.drift_checkpoint()), 0.6);
    assert_eq!(calibrator.update_rule(scalar(0.5)), UpdateRule::Smoothing);

    // Once calibrated, an early clock reading does not reopen the calibration.
    calibrator.add_sample_at(scalar(0.7), update, Duration::from_secs(0)).unwrap();
    assert!(calibrator.is_calibrated());
    assert_eq!(number(calibrator.baseline_stats().std_dev), 0.3);

    calibrator.reset();
    assert!(!calibrator.is_calibrated());
    assert_eq!(calibrator.update_rule(scalar(0.5)), UpdateRule::First);
}

#[test]
fn progress_is_the_smaller_share() {
    let mut calibrator = AdaptiveCalibrator::with_defaults(Duration::from_secs(10)).unwrap();
    let update = SampleStatistics { mean: scalar(0.5), deviation: scalar(0.2) };
    assert_eq!(share(calibrator.progress_at(Duration::from_secs(5))), 0.0);
    for _ in 0..15 {
        calibrator.add_sample_at(scalar(0.5), update, Duration::from_secs(1)).unwrap();
    }
    let r = calibrator.progress_at(Duration::from_secs(2));
    assert_eq!((r.numerator, r.denominator), (2_000_000_000, 10_000_000_000));
    let r = calibrator.progress_at(Duration::from_secs(8));
    assert_eq!((r.numerator, r.denominator), (15, 30));
    let r = calibrator.progress_at(Duration::from_secs(100));
    assert_eq!((r.numerator, r.denominator), (15, 30));
    for _ in 0..15 {
        calibrator.add_sample_at(scalar(0.5), update, Duration::from_secs(10)).unwrap();
    }
    assert!(calibrator.is_calibrated());
    assert_eq!(share(calibrator.progress_at(Duration::from_secs(0))), 1.0);
}

#[test]
fn sample_that_is_no_number_leaves_no_trace() {
    let mut calibrator = AdaptiveCalibrator::with_defaults(Duration::from_secs(30)).unwrap();
    add(&mut calibrator, 0.4).unwrap();
    add(&mut calibrator, 0.6).unwrap();
    let before = calibrator.baseline_stats().clone();
    let calibrated = calibrator.is_calibrated();
    for sample in [f32::NAN, f32::INFINITY, f32::NEG_INFINITY] {
        let reading = std::time::Instant::now();
        while std::time::Instant::now() == reading {}
        assert!(add(&mut calibrator, sample).is_ok());
        let after = calibrator.baseline_stats();
        assert_eq!(after.sample_count, before.sample_count);
        assert_eq!(after.mean, before.mean);
        assert_eq!(after.std_dev, before.std_dev);
        assert_eq!(after.last_update, before.last_update);
        assert_eq!(calibrator.is_calibrated(), calibrated);
    }
    let reading = std::time::Instant::now();
    while std::time::Instant::now() == reading {}
    add(&mut calibrator, 0.5).unwrap();
    assert_eq!(calibrator.baseline_stats().sample_count, 3);
    assert!(calibrator.baseline_stats().last_update > before.last_update);
}

#[test]
fn deviation_of_the_baseline_keeps_its_floor() {
    let mut calibrator = AdaptiveCalibrator::with_defaults(Duration::from_millis(1)).unwrap();
    assert!(number(calibrator.baseline_stats().std_dev) >= 0.1);
    for (n, deviation) in [0.0f32, 0.05, f32::NAN, 0.0999, 0.1, 0.3, -1.0].into_iter().enumerate() {
        let update = SampleStatistics { mean: scalar(0.5), deviation: scalar(deviation) };
        calibrator.add_sample_at(scalar(0.5), update, Duration::from_secs(n as u64)).unwrap();
        let kept = number(calibrator.baseline_stats().std_dev);
        assert!(kept >= 0.1, "{} was kept as {}", deviation, kept);
        let told = calibrator.baseline_after(scalar(0.5), update);
        assert!(number(told.deviation) >= 0.1);
    }
    calibrator.reset();
    assert_eq!(number(calibrator.baseline_stats().std_dev), 1.0);
}
