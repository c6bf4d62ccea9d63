use spectremesh::error::CameraError;
use spectremesh::error::FearError;

#[test]
fn test_fear_error_creation() {
    let error = FearError::onnx_runtime("Test error");
    assert!(matches!(error, FearError::OnnxRuntime { .. }));
    assert_eq!(error.to_string(), "ONNX Runtime error: Test error");
}

#[test]
fn test_camera_error_creation() {
    let error = CameraError::not_found(0);
    assert!(matches!(error, CameraError::NotFound { device_id: 0 }));
    assert_eq!(error.to_string(), "Camera not found: device_id=0");
}

#[test]
fn test_error_conversion() {
    let camera_error = CameraError::not_found(0);
    let fear_error: FearError = camera_error.into();
    assert!(matches!(fear_error, FearError::Camera(_)));
}
