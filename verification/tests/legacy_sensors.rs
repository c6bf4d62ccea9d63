use spectremesh::calibration::SampleStatistics;
use spectremesh::config::FearConfig;
use spectremesh::error::CameraError;
use spectremesh::error::FearError;
use spectremesh::mock_sensor::MockFearSensor;
use spectremesh::onnx_sensor::enumerate_cameras;
use spectremesh::types::fallback_logits;
use spectremesh::onnx_sensor::logits_from_output;
use spectremesh::onnx_sensor::resolve_logits;
use spectremesh::onnx_sensor::tick_duration;
use spectremesh::onnx_sensor::CalibrationState;
use spectremesh::onnx_sensor::OnnxFearSensor;
use spectremesh::pipeline::SendOutcome;
use spectremesh::ratio::Ratio;
use spectremesh::scalar::Scalar;
use spectremesh::sensor::LoopControl;
use spectremesh::types::CameraConfig;
use std::time::Duration;

fn scalar(x: f32) -> Scalar {
    Scalar::from_bits(x.to_bits())
}

fn number(x: Scalar) -> f32 {
    f32::from_bits(x.to_bits())
}

fn share(r: Ratio) -> f32 {
    r.numerator as f32 / r.denominator as f32
}

fn numbers(values: &[Scalar]) -> Vec<f32> {
    values.iter().map(|x| number(*x)).collect()
}

fn short_config() -> FearConfig {
    FearConfig {
        calibration_duration: Duration::from_millis(300),
        camera: CameraConfig { fps: 30, ..CameraConfig::default() },
        ..FearConfig::default()
    }
}

#[test]
fn test_mock_sensor_initialization() {
    let mut sensor = MockFearSensor::new(vec![scalar(0.1), scalar(0.5), scalar(0.9)]);
    let config = FearConfig::default();

    assert!(sensor.initialize(&config).is_ok());
    assert!(!sensor.is_calibrated());
    assert_eq!(share(sensor.calibration_progress()), 0.0);
}

#[test]
fn test_mock_sensor_camera_enumeration() {
    let sensor = MockFearSensor::new(vec![scalar(0.5)]);
    let cameras = sensor.enumerate_cameras().unwrap();

    assert_eq!(cameras.len(), 1);
    assert_eq!(cameras[0].id, 999);
    assert_eq!(cameras[0].name, "Mock Camera");
}

#[test]
fn test_mock_sensor_fear_generation() {
    let mut sensor = MockFearSensor::new(vec![scalar(0.1), scalar(0.8), scalar(0.3)]);
    sensor.initialize(&short_config()).unwrap();
    let mut run = sensor.start().unwrap();

    let logits1 = run.next_logits();
    let logits2 = run.next_logits();
    let logits3 = run.next_logits();
    let logits4 = run.next_logits();

    assert_eq!(number(logits1[2]), 0.1);
    assert_eq!(number(logits2[2]), 0.8);
    assert_eq!(number(logits3[2]), 0.3);
    assert_eq!(number(logits4[2]), 0.1);
    assert_eq!(numbers(&logits1), vec![0.1, 0.1, 0.1, 0.1, 0.1, 0.1, 0.5]);
}

#[test]
fn test_step_pattern() {
    let sensor = MockFearSensor::step_pattern();
    assert_eq!(sensor.fear_sequence.len(), 10);
    assert_eq!(number(sensor.fear_sequence[0]), 0.1);
    assert_eq!(number(sensor.fear_sequence[3]), 0.8);
    assert_eq!(number(sensor.fear_sequence[8]), 0.9);
}

#[test]
fn test_mock_sensor_calibration() {
    let mut sensor = MockFearSensor::new(vec![scalar(0.2); 10]);
    sensor.initialize(&short_config()).unwrap();
    let mut run = sensor.start().unwrap();
    let mut state = CalibrationState { calibrated: false, progress: Ratio::nothing() };

    let mut calibrated = false;
    for _ in 0..20 {
        let logits = run.next_logits();
        let stats = SampleStatistics { mean: scalar(0.2), deviation: scalar(0.0) };
        let score = run.batch.tick(&mut state, logits, stats, scalar(0.5));
        assert_eq!(score.calibrated, state.calibrated);
        assert_eq!(run.batch.after_send(SendOutcome::Sent), LoopControl::Continue);
        if state.calibrated {
            calibrated = true;
            assert_eq!(run.batch.calibrator_ref().baseline_samples().len(), 9);
            assert_eq!(number(score.value), 0.5);
            break;
        }
        assert_eq!(number(score.value), 0.2);
    }

    assert!(calibrated, "Sensor should be calibrated after receiving enough samples");
    assert_eq!(share(state.progress), 1.0);
}

#[test]
fn test_onnx_sensor_creation() {
    let sensor = OnnxFearSensor::new();
    assert!(!sensor.is_calibrated());
    assert_eq!(share(sensor.calibration_progress()), 0.0);
}

#[test]
fn test_onnx_sensor_initialization_without_model() {
    let mut sensor = OnnxFearSensor::new();
    let config = FearConfig { model_path: "nonexistent_model.onnx".to_string(), ..FearConfig::default() };

    let missing = FearError::model_not_found("Model not found: nonexistent_model.onnx");
    let result = sensor.initialize(&config, Err(missing), "haarcascade_frontalface_alt.xml".to_string());
    assert!(result.is_err());

    match result {
        Err(FearError::ModelNotFound { .. }) => {}
        _ => panic!("Expected ModelNotFound error"),
    }
    assert!(sensor.start().is_err());
}

#[test]
fn test_face_detector_path() {
    let path = OnnxFearSensor::get_face_detector_path(&[false, false, false, false]);
    assert_eq!(path, "haarcascade_frontalface_alt.xml");
    let path = OnnxFearSensor::get_face_detector_path(&[false, true, true, false]);
    assert_eq!(path, "assets/models/haarcascade_frontalface_alt.xml");
    let path = OnnxFearSensor::get_face_detector_path(&[false, false, true, true]);
    assert_eq!(path, "/usr/share/opencv4/haarcascades/haarcascade_frontalface_alt.xml");
    let path = OnnxFearSensor::get_face_detector_path(&[false, false, false, true]);
    assert_eq!(path, "/usr/local/share/opencv4/haarcascades/haarcascade_frontalface_alt.xml");
    let path = OnnxFearSensor::get_face_detector_path(&[true, true, true, true]);
    assert_eq!(path, "haarcascade_frontalface_alt.xml");
}

#[test]
fn test_onnx_sensor_camera_enumeration() {
    let probes = vec![None, Some((640, 480)), None, Some((1280, 720)), None, None, None, None, None, None];
    let cameras = enumerate_cameras(&probes).unwrap();
    assert_eq!(cameras.len(), 2);
    assert_eq!((cameras[0].id, cameras[0].name.as_str(), cameras[0].resolution), (1, "Camera 1", (640, 480)));
    assert_eq!((cameras[1].id, cameras[1].name.as_str(), cameras[1].resolution), (3, "Camera 3", (1280, 720)));

    assert!(matches!(enumerate_cameras(&vec![None; 10]), Err(CameraError::NoCamerasAvailable)));
    assert!(matches!(enumerate_cameras(&Vec::new()), Err(CameraError::NoCamerasAvailable)));
}

#[test]
fn neutral_logits_stand_in() {
    assert_eq!(numbers(&fallback_logits()), vec![0.1, 0.1, 0.3, 0.1, 0.1, 0.1, 0.2]);

    let logits = [0.5f32; 7].map(scalar);
    let resolved = resolve_logits(Ok(logits));
    assert_eq!(resolved.emotion_logits, logits);
    assert!(!resolved.warn);

    let resolved = resolve_logits(Err(FearError::NoFaceDetected));
    assert_eq!(resolved.emotion_logits, fallback_logits());
    assert!(!resolved.warn);

    let resolved = resolve_logits(Err(FearError::onnx_runtime("Inference failed")));
    assert_eq!(resolved.emotion_logits, fallback_logits());
    assert!(resolved.warn);
}

#[test]
fn classifier_output_must_hold_seven_numbers() {
    let output: Vec<Scalar> = (0..7).map(|i| scalar(i as f32)).collect();
    assert_eq!(logits_from_output(&output).unwrap().to_vec(), output);
    for n in [0usize, 6, 8, 12] {
        let output: Vec<Scalar> = (0..n).map(|i| scalar(i as f32)).collect();
        match logits_from_output(&output) {
            Err(FearError::InvalidLogits { message }) => {
                assert_eq!(message, format!("Expected 7 emotion classes, got {}", n))
            }
            _ => panic!("{} numbers are no logits", n),
        }
    }
}

#[test]
fn onnx_sensor_hands_its_calibrator_to_the_loop() {
    let mut sensor = OnnxFearSensor::new();
    match sensor.start() {
        Err(FearError::OnnxRuntime { message }) => assert_eq!(message, "Sensor not initialized"),
        _ => panic!("nothing was initialized"),
    }
    sensor.initialize(&short_config(), Ok(()), "cascade.xml".to_string()).unwrap();
    let mut run = sensor.start().unwrap();
    assert!(sensor.start().is_err());

    let mut state = CalibrationState { calibrated: false, progress: Ratio::nothing() };
    let logits = fallback_logits();
    // Before calibration the score is the raw fear logit.
    let early = SampleStatistics { mean: scalar(9.0), deviation: scalar(9.0) };
    assert!(!run.due_next());
    let score = run.tick(&mut state, logits, early, scalar(0.99));
    assert_eq!(number(score.value), 0.3);
    assert!(!score.calibrated);
    assert_eq!(number(score.confidence), 0.9);
    assert_eq!((state.progress.numerator, state.progress.denominator), (1, 9));

    let stats = SampleStatistics { mean: scalar(0.3), deviation: scalar(0.2) };
    for n in 2..=9 {
        assert_eq!(run.due_next(), n == 9);
        let score = run.tick(&mut state, logits, stats, scalar(0.6));
        assert_eq!(score.calibrated, n == 9);
        assert_eq!(state.calibrated, n == 9);
    }
    assert_eq!(number(run.calibrator_ref().mean()), 0.3);
    assert_eq!(number(run.calibrator_ref().std_dev()), 0.2);
    // A calibrated loop takes no more samples and clamps what it is given.
    assert_eq!(number(run.tick(&mut state, logits, early, scalar(1.5)).value), 1.0);
    assert_eq!(run.calibrator_ref().baseline_samples().len(), 9);
    assert_eq!(number(run.calibrator_ref().mean()), 0.3);
    assert!(run.score(logits, scalar(0.7)).calibrated);

    sensor.publish(state);
    assert!(sensor.is_calibrated());
    assert_eq!(share(sensor.calibration_progress()), 1.0);
    sensor.stop().unwrap();
}

#[test]
fn loop_ends_after_its_frames_or_with_its_channel() {
    let mut sensor = OnnxFearSensor::new();
    sensor.initialize(&short_config(), Ok(()), "cascade.xml".to_string()).unwrap();
    let mut run = sensor.start().unwrap();
    for n in 1..=10_000u32 {
        let outcome = if n % 3 == 0 { SendOutcome::Full } else { SendOutcome::Sent };
        assert_eq!(run.after_send(outcome), LoopControl::Continue);
    }
    assert_eq!(run.after_send(SendOutcome::Sent), LoopControl::Stop);

    let mut sensor = MockFearSensor::new(Vec::new());
    sensor.initialize(&short_config()).unwrap();
    let mut run = sensor.start().unwrap();
    // An empty sequence gives the neutral value.
    assert_eq!(number(run.next_logits()[2]), 0.3);
    assert_eq!(run.batch.after_send(SendOutcome::Closed), LoopControl::Stop);
    for _ in 0..1000 {
        assert_eq!(run.batch.after_send(SendOutcome::Sent), LoopControl::Continue);
    }
    assert_eq!(run.batch.after_send(SendOutcome::Sent), LoopControl::Stop);
    assert_eq!(tick_duration(), Duration::from_millis(33));
}

#[test]
fn sensors_refuse_a_calibration_without_samples() {
    let config = FearConfig { calibration_duration: Duration::from_millis(10), ..FearConfig::default() };
    let mut sensor = MockFearSensor::new(vec![scalar(0.5)]);
    assert!(matches!(sensor.initialize(&config), Err(FearError::Configuration { .. })));
    assert!(sensor.start().is_err());
    let mut sensor = OnnxFearSensor::new();
    assert!(sensor.initialize(&config, Ok(()), "cascade.xml".to_string()).is_err());
    assert!(sensor.start().is_err());
}

#[test]
fn detector_is_looked_for_in_four_places() {
    let places = spectremesh::onnx_sensor::face_detector_candidates();
    assert_eq!(places.len(), 4);
    assert_eq!(places[0], "haarcascade_frontalface_alt.xml");
    assert_eq!(places[3], "/usr/local/share/opencv4/haarcascades/haarcascade_frontalface_alt.xml");
    for (i, place) in places.iter().enumerate() {
        let mut found = [false; 4];
        found[i] = true;
        assert_eq!(&OnnxFearSensor::get_face_detector_path(&found), place);
    }
    assert_eq!(OnnxFearSensor::get_face_detector_path(&[false; 4]), places[0]);
    assert_eq!(OnnxFearSensor::get_face_detector_path(&[false, true, true, false]), places[1]);
}

#[test]
fn one_tick_of_the_batch_loop() {
    let calibrator = spectremesh::calibration::FearCalibrator::new(Duration::from_secs(2), 1).unwrap();
    let mut batch = spectremesh::onnx_sensor::BatchLoop::new(calibrator, 10);
    let mut state = CalibrationState { calibrated: false, progress: spectremesh::ratio::Ratio::nothing() };
    let logits = |fear: f32| [0.1f32, 0.1, fear, 0.1, 0.1, 0.1, 0.5].map(|x| Scalar::from_bits(x.to_bits()));
    let number = |x: Scalar| f32::from_bits(x.to_bits());
    let idle = SampleStatistics { mean: Scalar::from_bits(9.0f32.to_bits()), deviation: Scalar::from_bits(9.0f32.to_bits()) };
    let half = Scalar::from_bits(0.5f32.to_bits());

    assert!(!batch.due_next());
    let score = batch.tick(&mut state, logits(0.2), idle, half);
    assert!(!score.calibrated);
    assert_eq!(number(score.value), 0.2);
    assert_eq!(number(score.confidence), 0.9);
    assert_eq!(state.progress, spectremesh::ratio::Ratio { numerator: 1, denominator: 2 });

    assert!(batch.due_next());
    let statistics = SampleStatistics {
        mean: Scalar::from_bits(0.3f32.to_bits()),
        deviation: Scalar::from_bits(0.001f32.to_bits()),
    };
    let score = batch.tick(&mut state, logits(0.4), statistics, Scalar::from_bits(0.52f32.to_bits()));
    assert!(score.calibrated);
    assert_eq!(number(score.value), 0.52);
    assert!(state.calibrated);
    assert_eq!(number(batch.calibrator_ref().mean()), 0.3);
    assert_eq!(number(batch.calibrator_ref().std_dev()), 1.0);
    assert_eq!(number(spectremesh::calibration::FearCalibrator::kept_deviation(statistics.deviation)), 1.0);

    // Once calibrated, neither a sample nor statistics are taken.
    assert!(!batch.due_next());
    let score = batch.tick(&mut state, logits(0.9), idle, Scalar::from_bits(2.0f32.to_bits()));
    assert!(score.calibrated);
    assert_eq!(number(score.value), 1.0);
    assert_eq!(batch.calibrator_ref().baseline_samples().len(), 2);
    assert_eq!(number(batch.calibrator_ref().mean()), 0.3);
}

#[test]
fn loop_counts_the_frames_it_made() {
    let calibrator = spectremesh::calibration::FearCalibrator::new(Duration::from_secs(1), 1).unwrap();
    let mut batch = spectremesh::onnx_sensor::BatchLoop::new(calibrator, 2);
    assert_eq!(batch.frames_made(), 0);
    assert_eq!(batch.after_send(SendOutcome::Sent), LoopControl::Continue);
    assert_eq!(batch.after_send(SendOutcome::Full), LoopControl::Continue);
    assert_eq!(batch.frames_made(), 2);
    assert_eq!(batch.after_send(SendOutcome::Closed), LoopControl::Stop);
    assert_eq!(batch.frames_made(), 2);
    assert_eq!(batch.after_send(SendOutcome::Sent), LoopControl::Stop);
    assert_eq!(batch.frames_made(), 3);
}
