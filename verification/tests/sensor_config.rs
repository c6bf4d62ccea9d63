use spectremesh::config::EnvOverrides;
use spectremesh::config::SensorConfig;
use spectremesh::scalar::Scalar;

fn scalar(x: f32) -> Scalar {
    Scalar::from_bits(x.to_bits())
}

fn number(x: Scalar) -> f32 {
    f32::from_bits(x.to_bits())
}

fn nothing_set() -> EnvOverrides {
    EnvOverrides {
        threads: None,
        freeze_calibration: None,
        camera_id: None,
        target_fps: None,
        buffer_size: None,
        metrics_port: None,
        grpc_socket: None,
    }
}

#[test]
fn test_default_config() {
    let config = SensorConfig::default();

    assert!(config.emotion_model_path.is_none());
    assert!(config.onnx_threads > 0);
    assert!(!config.freeze_calibration);
    assert_eq!(config.camera_id, 0);
    assert_eq!(number(config.target_fps), 30.0);
    assert_eq!(config.channel_buffer_size, 2);
    assert_eq!(config.metrics_port, 9090);
    assert_eq!(config.grpc_socket_path, "/tmp/spectre_sensor.sock");
}

#[test]
fn test_config_validation() {
    let mut config = SensorConfig::default();

    assert!(config.validate().is_ok());

    config.onnx_threads = 0;
    assert!(config.validate().is_err());
    config.onnx_threads = 1;

    config.target_fps = scalar(0.0);
    assert!(config.validate().is_err());
    config.target_fps = scalar(30.0);

    config.channel_buffer_size = 0;
    assert!(config.validate().is_err());
    config.channel_buffer_size = 2;

    config.grpc_socket_path = String::new();
    assert!(config.validate().is_err());
}

#[test]
fn test_config_builders() {
    let config = SensorConfig::default()
        .with_model_path("test_model.onnx".to_string())
        .with_freeze_calibration(true)
        .with_camera_id(1)
        .with_target_fps(scalar(60.0))
        .with_onnx_threads(4)
        .with_buffer_size(5)
        .with_metrics_port(8080)
        .with_grpc_socket("/tmp/test.sock".to_string());

    assert_eq!(config.emotion_model_path, Some("test_model.onnx".to_string()));
    assert!(config.freeze_calibration);
    assert_eq!(config.camera_id, 1);
    assert_eq!(number(config.target_fps), 60.0);
    assert_eq!(config.onnx_threads, 4);
    assert_eq!(config.channel_buffer_size, 5);
    assert_eq!(config.metrics_port, 8080);
    assert_eq!(config.grpc_socket_path, "/tmp/test.sock");
}

#[test]
fn test_env_override() {
    let config = SensorConfig::from_env(EnvOverrides {
        threads: Some(8),
        freeze_calibration: Some(true),
        camera_id: Some(2),
        target_fps: Some(scalar(60.0)),
        buffer_size: Some(4),
        metrics_port: Some(8080),
        grpc_socket: Some("/tmp/test.sock".to_string()),
    });

    assert_eq!(config.onnx_threads, 8);
    assert!(config.freeze_calibration);
    assert_eq!(config.camera_id, 2);
    assert_eq!(number(config.target_fps), 60.0);
    assert_eq!(config.channel_buffer_size, 4);
    assert_eq!(config.metrics_port, 8080);
    assert_eq!(config.grpc_socket_path, "/tmp/test.sock");
}

#[test]
fn test_bounds_checking() {
    let config = SensorConfig::default()
        .with_target_fps(scalar(-10.0))
        .with_target_fps(scalar(200.0))
        .with_onnx_threads(0)
        .with_buffer_size(0);

    assert_eq!(number(config.target_fps), 120.0);
    assert_eq!(config.onnx_threads, 1);
    assert_eq!(config.channel_buffer_size, 1);
}

#[test]
fn environment_without_settings_gives_the_defaults() {
    let config = SensorConfig::from_env(nothing_set());
    assert!(config.onnx_threads >= 1);
    assert!(!config.freeze_calibration);
    assert_eq!(config.camera_id, 0);
    assert_eq!(number(config.target_fps), 30.0);
    assert_eq!(config.channel_buffer_size, 2);
    assert_eq!(config.metrics_port, 9090);
    assert_eq!(config.grpc_socket_path, "/tmp/spectre_sensor.sock");

    let mut overrides = nothing_set();
    overrides.threads = Some(0);
    assert_eq!(SensorConfig::from_env(overrides).onnx_threads, 1);
}

#[test]
fn frame_rate_is_held_between_one_and_120() {
    for (asked, set) in [(-10.0f32, 1.0f32), (0.5, 1.0), (1.0, 1.0), (29.97, 29.97), (120.0, 120.0), (200.0, 120.0)] {
        assert_eq!(number(SensorConfig::default().with_target_fps(scalar(asked)).target_fps), set);
    }
    assert_eq!(number(SensorConfig::default().with_target_fps(scalar(f32::NAN)).target_fps), 1.0);
}

#[test]
fn validation_names_the_first_fault() {
    let mut config = SensorConfig::default();
    config.onnx_threads = 0;
    config.target_fps = scalar(-1.0);
    assert_eq!(config.validate().unwrap_err(), "ONNX thread count must be at least 1");
    config.onnx_threads = 2;
    config.channel_buffer_size = 0;
    assert_eq!(config.validate().unwrap_err(), "Target FPS must be positive");
    config.target_fps = scalar(-0.0);
    assert_eq!(config.validate().unwrap_err(), "Target FPS must be positive");
    config.target_fps = scalar(0.001);
    config.grpc_socket_path = String::new();
    assert_eq!(config.validate().unwrap_err(), "Channel buffer size must be at least 1");
    config.channel_buffer_size = 1;
    assert_eq!(config.validate().unwrap_err(), "gRPC socket path cannot be empty");
}

#[test]
fn frame_rate_must_be_a_positive_number() {
    let mut config = SensorConfig::default();
    assert!(config.validate().is_ok());
    for rate in [f32::NAN, -f32::NAN, 0.0, -0.0, -30.0, f32::NEG_INFINITY] {
        config.target_fps = scalar(rate);
        assert_eq!(config.validate().unwrap_err(), "Target FPS must be positive");
    }
    for rate in [f32::MIN_POSITIVE, 0.5, 30.0, 120.0, f32::INFINITY] {
        config.target_fps = scalar(rate);
        assert!(config.validate().is_ok());
    }
}
