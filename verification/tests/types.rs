use spectremesh::types::CameraDevice;

#[test]
fn test_camera_device() {
    let device = CameraDevice::new(0, "Test Camera".to_string(), (640, 480));
    assert_eq!(device.id, 0);
    assert_eq!(device.name, "Test Camera");
    assert_eq!(device.resolution, (640, 480));
}
