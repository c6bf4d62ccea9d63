use spectremesh::config::TerrainConfig;
use spectremesh::scalar::Scalar;
use spectremesh::types::FearBucket;
use spectremesh::types::FearFrame;
use spectremesh::types::FearScore;
use spectremesh::types::PerformanceMetrics;
use spectremesh::types::CameraConfig;
use std::time::Duration;

fn scalar(x: f32) -> Scalar {
    Scalar::from_bits(x.to_bits())
}

fn number(x: Scalar) -> f32 {
    f32::from_bits(x.to_bits())
}

#[test]
fn types_test_fear_bucket_distortion() {
    assert_eq!(number(FearBucket::Low.distortion_intensity()), 0.1);
    assert_eq!(number(FearBucket::Medium.distortion_intensity()), 0.5);
    assert_eq!(number(FearBucket::High.distortion_intensity()), 1.0);
}

#[test]
fn test_fear_score_creation() {
    let emotion_logits = [0.1f32, 0.1, 0.8, 0.1, 0.1, 0.1, 0.1].map(scalar);
    let score = FearScore::new_calibrated(scalar(0.75), emotion_logits, scalar(0.9));

    assert_eq!(number(score.value), 0.75);
    assert_eq!(number(score.extract_fear_logit()), 0.8);
    assert!(score.calibrated);
    assert_eq!(number(score.confidence), 0.9);

    let score = FearScore::new_uncalibrated(scalar(0.75), emotion_logits, scalar(0.9));
    assert!(!score.calibrated);
    assert_eq!(score.emotion_logits, emotion_logits);
}

#[test]
fn types_test_fear_frame_creation() {
    let emotion_logits = [0.1f32, 0.1, 0.8, 0.1, 0.1, 0.1, 0.1].map(scalar);
    let frame = FearFrame::new(
        scalar(0.75),
        emotion_logits,
        scalar(0.9),
        true,
        Duration::from_millis(5),
    );

    assert_eq!(number(frame.fear_score), 0.75);
    assert_eq!(number(frame.extract_fear_logit()), 0.8);
    assert!(frame.calibrated);
    assert_eq!(frame.inference_latency, Duration::from_millis(5));
    assert!(frame.timestamp_us() > 1_600_000_000_000_000);
}

#[test]
fn test_performance_metrics() {
    let mut metrics = PerformanceMetrics::new();

    metrics.update_fps(scalar(30.0 / Duration::from_secs(1).as_secs_f32()), Duration::from_secs(1));
    assert_eq!(number(metrics.current_fps), 30.0);

    metrics.record_dropped_frame();
    assert_eq!(metrics.dropped_frames, 1);

    let latencies = vec![
        Duration::from_millis(1),
        Duration::from_millis(2),
        Duration::from_millis(3),
        Duration::from_millis(4),
        Duration::from_millis(10),
    ];
    metrics.update_inference_latency(&latencies);
    assert_eq!(metrics.p95_inference_latency, Duration::from_millis(10));
}

#[test]
fn test_terrain_config_default() {
    let config = TerrainConfig::default();
    assert_eq!(config.chunk_size, 16);
    assert_eq!(config.render_distance, 8);
    assert_eq!(number(config.base_height), 64.0);
    assert_eq!(number(config.fear_multiplier), 10.0);
    assert_eq!(number(config.noise_scale), 0.01);
}

#[test]
fn bucket_boundaries() {
    let cases = [
        (0.0f32, FearBucket::Low),
        (0.329, FearBucket::Low),
        (0.33, FearBucket::Medium),
        (0.659, FearBucket::Medium),
        (0.66, FearBucket::High),
        (1.0, FearBucket::High),
        (-3.0, FearBucket::Low),
        (-0.0, FearBucket::Low),
        (f32::NEG_INFINITY, FearBucket::Low),
        (7.0, FearBucket::High),
        (f32::INFINITY, FearBucket::High),
        (f32::NAN, FearBucket::High),
    ];
    for (score, bucket) in cases {
        assert_eq!(FearBucket::from_score(scalar(score)), bucket, "{}", score);
    }
}

#[test]
fn bucket_never_falls_when_the_score_rises() {
    let rank = |b: FearBucket| match b {
        FearBucket::Low => 0,
        FearBucket::Medium => 1,
        FearBucket::High => 2,
    };
    let mut last = 0;
    for i in 0..=1000 {
        let now = rank(FearBucket::from_score(scalar(i as f32 / 1000.0)));
        assert!(now >= last);
        last = now;
    }
    assert_eq!(last, 2);
}

#[test]
fn fear_logit_is_the_third_everywhere() {
    let logits = [1.0f32, 2.0, 3.0, 4.0, 5.0, 6.0, 7.0].map(scalar);
    let score = FearScore::new_calibrated(scalar(0.5), logits, scalar(0.9));
    let frame = FearFrame::new(scalar(0.5), logits, scalar(0.9), false, Duration::from_millis(1));
    assert_eq!(score.extract_fear_logit(), logits[2]);
    assert_eq!(frame.extract_fear_logit(), logits[2]);
    assert_eq!(spectremesh::types::fear_logit_of(&logits), logits[2]);
    assert_eq!(spectremesh::calibration::FearCalibrator::extract_fear_logit(&logits), logits[2]);
    assert_eq!(spectremesh::types::FEAR_INDEX, 2);
}

#[test]
fn percentile_of_latency_windows() {
    let mut metrics = PerformanceMetrics::new();
    metrics.update_inference_latency(&Vec::new());
    assert_eq!(metrics.p95_inference_latency, Duration::ZERO);

    metrics.update_inference_latency(&vec![Duration::from_millis(7)]);
    assert_eq!(metrics.p95_inference_latency, Duration::from_millis(7));

    let window: Vec<Duration> = (1..=20u64).rev().map(Duration::from_millis).collect();
    metrics.update_inference_latency(&window);
    assert_eq!(metrics.p95_inference_latency, Duration::from_millis(20));

    let window: Vec<Duration> = (1..=100u64).map(|i| Duration::from_millis((i * 37) % 101)).collect();
    let mut sorted = window.clone();
    sorted.sort();
    metrics.update_inference_latency(&window);
    assert_eq!(metrics.p95_inference_latency, sorted[95]);

    metrics.update_inference_latency(&Vec::new());
    assert_eq!(metrics.p95_inference_latency, sorted[95]);
}

#[test]
fn frame_rate_over_no_time_is_not_taken() {
    let mut metrics = PerformanceMetrics::new();
    metrics.update_fps(scalar(25.0), Duration::from_millis(40));
    metrics.update_fps(scalar(f32::INFINITY), Duration::ZERO);
    assert_eq!(number(metrics.current_fps), 25.0);
}

#[test]
fn camera_config_defaults() {
    let config = CameraConfig::default();
    assert_eq!((config.device_id, config.fps, config.width, config.height), (0, 30, 640, 480));
}
