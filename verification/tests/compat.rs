use spectremesh::compat::after_score_send;
use spectremesh::compat::convert_fear_config_to_sensor_config;
use spectremesh::compat::convert_fear_frame_to_fear_score;
use spectremesh::compat::convert_sensor_error_to_fear_error;
use spectremesh::compat::MockFearSensor;
use spectremesh::compat::YuNetFearSensor;
use spectremesh::config::FearConfig;
use spectremesh::error::CalibrationError;
use spectremesh::error::FearError;
use spectremesh::error::SensorError;
use spectremesh::error::YuNetError;
use spectremesh::pipeline::SendOutcome;
use spectremesh::ratio::Ratio;
use spectremesh::scalar::Scalar;
use spectremesh::sensor::LoopControl;
use spectremesh::types::CameraConfig;
use spectremesh::types::FearFrame;
use std::time::Duration;

fn scalar(x: f32) -> Scalar {
    Scalar::from_bits(x.to_bits())
}

fn number(x: Scalar) -> f32 {
    f32::from_bits(x.to_bits())
}

fn share(r: Ratio) -> f32 {
    r.numerator as f32 / r.denominator as f32
}

#[test]
fn test_fear_config_to_sensor_config_conversion() {
    let fear_config = FearConfig {
        model_path: "test_model.onnx".to_string(),
        camera: CameraConfig { device_id: 1, fps: 60, width: 1280, height: 720 },
        calibration_duration: Duration::from_secs(45),
        debug: true,
        inference_timeout: Duration::from_millis(200),
    };

    let fps = scalar(fear_config.camera.fps as f32);
    let sensor_config = convert_fear_config_to_sensor_config(&fear_config, fps);

    assert_eq!(sensor_config.emotion_model_path, Some("test_model.onnx".to_string()));
    assert_eq!(sensor_config.camera_id, 1);
    assert_eq!(number(sensor_config.target_fps), 60.0);
    assert!(sensor_config.onnx_threads <= 4);
    assert_eq!(sensor_config.channel_buffer_size, 2);
}

#[test]
fn test_fear_frame_to_fear_score_conversion() {
    let emotion_logits = [0.1f32, 0.1, 0.8, 0.1, 0.1, 0.1, 0.1].map(scalar);
    let fear_frame = FearFrame::new(
        scalar(0.75),
        emotion_logits,
        scalar(0.9),
        true,
        Duration::from_millis(5),
    );

    let fear_score = convert_fear_frame_to_fear_score(fear_frame);

    assert_eq!(number(fear_score.value), 0.75);
    assert_eq!(fear_score.emotion_logits, emotion_logits);
    assert_eq!(number(fear_score.confidence), 0.9);
    assert!(fear_score.calibrated);
    assert_eq!(number(fear_score.extract_fear_logit()), 0.8);

    let frame = FearFrame::new(scalar(0.3), emotion_logits, scalar(0.9), false, Duration::ZERO);
    assert!(!convert_fear_frame_to_fear_score(frame).calibrated);
}

#[test]
fn test_mock_fear_sensor_basic_functionality() {
    let mut sensor = MockFearSensor::new(vec![0.3f32, 0.5, 0.7].into_iter().map(scalar).collect());
    let config = FearConfig::default();

    assert!(sensor.initialize(&config).is_ok());
    assert!(!sensor.is_calibrated());
    assert_eq!(share(sensor.calibration_progress()), 0.0);

    let cameras = sensor.enumerate_cameras().unwrap();
    assert_eq!(cameras.len(), 1);
    assert_eq!(cameras[0].name, "Mock Camera");

    assert!(sensor.stop().is_ok());
}

#[test]
fn test_mock_fear_sensor_patterns() {
    let step_sensor = MockFearSensor::step_pattern();
    assert!(!step_sensor.fear_sequence.is_empty());
    let values: Vec<f32> = step_sensor.fear_sequence.iter().map(|x| number(*x)).collect();
    assert_eq!(values, vec![0.1, 0.2, 0.3, 0.7, 0.8, 0.9, 0.8, 0.7, 0.3, 0.2, 0.1]);
}

#[test]
fn test_yunet_fear_sensor_creation() {
    let sensor = YuNetFearSensor::new();
    assert!(!sensor.is_calibrated());
    assert_eq!(share(sensor.calibration_progress()), 0.0);
}

#[test]
fn test_error_handling_compatibility() {
    let mut sensor = YuNetFearSensor::new();

    let start_result = sensor.start(Duration::from_millis(33));
    assert!(start_result.is_err(), "Should fail to start without initialization");

    let stop_result = sensor.stop();
    assert!(stop_result.is_ok(), "Stop should succeed even without starting");
}

#[test]
fn test_mock_sensor_compatibility() {
    let mut sensor = MockFearSensor::new(vec![scalar(0.5)]);
    let config = FearConfig::default();
    sensor.initialize(&config).unwrap();
    let mut run = sensor.start().unwrap();
    let score = sensor.next_score(&mut run);
    assert!(number(score.value) >= 0.0 && number(score.value) <= 1.0, "Fear value should be normalized");
    assert!(number(score.confidence) >= 0.0 && number(score.confidence) <= 1.0);
    assert_eq!(score.emotion_logits.len(), 7, "Should have 7 emotion classes");
    assert_eq!(number(score.emotion_logits[2]), 0.5, "Fear should be at index 2");
    sensor.stop().unwrap();
}

#[test]
fn test_fear_score_compatibility() {
    let mut sensor = MockFearSensor::new(vec![scalar(0.3), scalar(0.7)]);
    sensor.initialize(&FearConfig::default()).unwrap();
    let mut run = sensor.start().unwrap();
    let score = sensor.next_score(&mut run);
    assert_eq!(score.extract_fear_logit(), score.emotion_logits[2]);
    assert_eq!(number(sensor.next_score(&mut run).value), 0.7);
    assert_eq!(number(sensor.next_score(&mut run).value), 0.3);
}

#[test]
fn mock_sensor_calibrates_after_twenty_scores() {
    let mut sensor = MockFearSensor::step_pattern();
    sensor.initialize(&FearConfig::default()).unwrap();
    let mut run = sensor.start().unwrap();
    for n in 1..=25usize {
        let score = sensor.next_score(&mut run);
        assert_eq!(score.calibrated, n >= 20);
        assert_eq!(sensor.is_calibrated(), n >= 20);
        assert_eq!(number(score.confidence), 0.9);
        assert_eq!(number(score.emotion_logits[0]), 0.1);
        assert_eq!(number(score.emotion_logits[6]), 0.1);
        assert_eq!(score.value, sensor.fear_sequence[(n - 1) % 11]);
        let progress = sensor.calibration_progress();
        assert_eq!((progress.numerator, progress.denominator), (n.min(20) as u128, 20));
    }
    sensor.initialize(&FearConfig::default()).unwrap();
    assert!(!sensor.is_calibrated());
    assert_eq!(share(sensor.calibration_progress()), 0.0);
}

#[test]
fn yunet_sensor_through_the_older_interface() {
    let mut sensor = YuNetFearSensor::new();
    let config = FearConfig::default().with_camera_device(3);
    let failed = sensor.initialize(&config, scalar(30.0), Err(SensorError::ModelLoading("gone".to_string())));
    match failed {
        Err(FearError::ModelNotFound { message }) => assert_eq!(message, "gone"),
        _ => panic!("a missing model is a missing model"),
    }
    match sensor.start(Duration::from_millis(33)) {
        Err(FearError::OnnxRuntime { message }) => assert_eq!(message, "Sensor not initialized"),
        _ => panic!("nothing was initialized"),
    }
    sensor.initialize(&config, scalar(30.0), Ok(())).unwrap();
    let started = sensor.start(Duration::from_millis(33)).unwrap();
    assert_eq!(started.producer.frames_since_refresh(), 0);
    let cameras = sensor.enumerate_cameras().unwrap();
    assert_eq!(cameras.len(), 1);
    assert_eq!((cameras[0].id, cameras[0].name.as_str(), cameras[0].resolution), (0, "Default Camera", (640, 480)));
    sensor.stop().unwrap();
}

#[test]
fn sensor_errors_in_the_older_interface() {
    let text = |e: SensorError| match convert_sensor_error_to_fear_error(e) {
        FearError::OnnxRuntime { message } => format!("runtime:{}", message),
        FearError::ModelNotFound { message } => format!("model:{}", message),
        FearError::NoFaceDetected => "noface".to_string(),
        _ => "other".to_string(),
    };
    assert_eq!(text(SensorError::OnnxEnvironment("a".to_string())), "runtime:a");
    assert_eq!(text(SensorError::ModelLoading("a".to_string())), "model:a");
    assert_eq!(text(SensorError::CameraInit("a".to_string())), "runtime:Camera init: a");
    assert_eq!(text(SensorError::FrameProcessing("a".to_string())), "runtime:Frame processing: a");
    assert_eq!(text(SensorError::FaceDetection(YuNetError::InvalidOutput)), "noface");
    assert_eq!(text(SensorError::Calibration(CalibrationError::Frozen)), "runtime:Calibration error");
    assert_eq!(text(SensorError::ChannelError), "runtime:Channel communication error");
    assert_eq!(text(SensorError::NotInitialized), "runtime:Sensor not initialized");
}

#[test]
fn relay_ends_with_its_channel() {
    assert_eq!(after_score_send(SendOutcome::Sent), LoopControl::Continue);
    assert_eq!(after_score_send(SendOutcome::Full), LoopControl::Continue);
    assert_eq!(after_score_send(SendOutcome::Closed), LoopControl::Stop);
}

#[test]
fn status_reaches_the_older_interface() {
    let mut sensor = YuNetFearSensor::new();
    let config = FearConfig::default();
    sensor.initialize(&config, Scalar::from_bits(30.0f32.to_bits()), Ok(())).unwrap();
    sensor.start(std::time::Duration::from_millis(33)).unwrap();
    assert!(sensor.get_state().running);
    assert!(!sensor.is_calibrated());

    let mut report = sensor.get_state();
    report.calibrated = true;
    report.calibration_progress = spectremesh::ratio::Ratio::whole();
    sensor.publish(report);
    assert!(sensor.is_calibrated());
    assert_eq!(sensor.calibration_progress(), spectremesh::ratio::Ratio::whole());

    sensor.stop().unwrap();
    sensor.finished();
    assert!(!sensor.get_state().running);
    assert!(sensor.is_calibrated());
    assert!(sensor.start(std::time::Duration::from_millis(33)).is_err());
}

#[test]
fn mock_without_target_is_calibrated_at_once() {
    let mut sensor = MockFearSensor::new(vec![Scalar::from_bits(0.5f32.to_bits())]);
    sensor.calibration_state.target = 0;
    let mut run = sensor.start().unwrap();
    let score = sensor.next_score(&mut run);
    assert!(score.calibrated);
    assert_eq!(sensor.calibration_progress(), spectremesh::ratio::Ratio::whole());
}
