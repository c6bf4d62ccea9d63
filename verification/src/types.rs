//! Measurements, buckets and the rolling performance figures.

use crate::scalar::lemma_key_orders_values;
use crate::scalar::Scalar;
use crate::scalar::FIFTH_BITS;
use crate::scalar::HALF_BITS;
use crate::scalar::LOW_LIMIT_BITS;
use crate::scalar::MEDIUM_LIMIT_BITS;
use crate::scalar::ONE_BITS;
use crate::scalar::TENTH_BITS;
use crate::scalar::THREE_TENTHS_BITS;
use crate::scalar::ZERO_BITS;
use crate::time::ascending;
use crate::time::duration_nanos;
use crate::time::sort_durations;
use crate::time::micros_of;
use crate::time::since_unix_epoch;
use std::time::Duration;
use std::time::Instant;
use vstd::prelude::*;

verus! {

/// Number of emotion classes that the classifier scores.
pub const EMOTION_CLASSES: usize = 7;

/// Place of the fear class among the emotion logits:
/// angry, disgust, fear, happy, sad, surprise, neutral.
pub const FEAR_INDEX: usize = 2;

/// The raw classifier output, one logit per emotion class.
pub type EmotionLogits = [Scalar; 7];

/// The fear logit of a set of emotion logits.
pub open spec fn fear_logit(logits: EmotionLogits) -> Scalar {
    logits[2]
}

/// Reads the fear logit, the one place where the index is applied.
pub fn fear_logit_of(logits: &EmotionLogits) -> (r: Scalar)
    ensures
        r == fear_logit(*logits),
        r == logits[FEAR_INDEX as int],
{
    logits[FEAR_INDEX]
}

/// The logits that stand in where a frame gives none: a neutral face.
pub open spec fn neutral_logits() -> EmotionLogits {
    [
        Scalar::of(TENTH_BITS),
        Scalar::of(TENTH_BITS),
        Scalar::of(THREE_TENTHS_BITS),
        Scalar::of(TENTH_BITS),
        Scalar::of(TENTH_BITS),
        Scalar::of(TENTH_BITS),
        Scalar::of(FIFTH_BITS),
    ]
}

/// The neutral logits: 0.1, 0.1, 0.3, 0.1, 0.1, 0.1, 0.2.
pub fn fallback_logits() -> (r: EmotionLogits)
    ensures
        r == neutral_logits(),
        fear_logit(r) == Scalar::of(THREE_TENTHS_BITS),
{
    let tenth = Scalar::from_bits(TENTH_BITS);
    let r: EmotionLogits = [
        tenth,
        tenth,
        Scalar::from_bits(THREE_TENTHS_BITS),
        tenth,
        tenth,
        tenth,
        Scalar::from_bits(FIFTH_BITS),
    ];
    assert(r == neutral_logits());
    r
}

/// A fear score measurement with metadata.
#[derive(Debug, Clone)]
pub struct FearScore {
    /// Normalized fear level.
    pub value: Scalar,
    /// Raw emotion logits from the model.
    pub emotion_logits: EmotionLogits,
    /// Model confidence.
    pub confidence: Scalar,
    /// Whether this score has been calibrated.
    pub calibrated: bool,
    /// When this measurement was taken.
    pub timestamp: Instant,
}

impl FearScore {
    /// A score that a calibrated baseline stands behind.
    pub fn new_calibrated(value: Scalar, emotion_logits: EmotionLogits, confidence: Scalar) -> (r:
        Self)
        ensures
            r.value == value,
            r.emotion_logits == emotion_logits,
            r.confidence == confidence,
            r.calibrated,
    {
        Self { value, emotion_logits, confidence, calibrated: true, timestamp: Instant::now() }
    }

    /// A score taken while the baseline is still being collected.
    pub fn new_uncalibrated(
        value: Scalar,
        emotion_logits: EmotionLogits,
        confidence: Scalar,
    ) -> (r: Self)
        ensures
            r.value == value,
            r.emotion_logits == emotion_logits,
            r.confidence == confidence,
            !r.calibrated,
    {
        Self { value, emotion_logits, confidence, calibrated: false, timestamp: Instant::now() }
    }

    /// The fear logit among the emotion logits of this score.
    pub fn extract_fear_logit(&self) -> (r: Scalar)
        ensures
            r == fear_logit(self.emotion_logits),
    {
        fear_logit_of(&self.emotion_logits)
    }
}

/// A single fear measurement frame with timing information.
#[derive(Debug, Clone)]
pub struct FearFrame {
    /// When this measurement was taken.
    pub timestamp: Instant,
    /// The fear score measurement.
    pub fear_score: Scalar,
    /// Raw emotion logits from the model.
    pub emotion_logits: EmotionLogits,
    /// Model confidence.
    pub confidence: Scalar,
    /// Whether this score has been calibrated.
    pub calibrated: bool,
    /// Inference latency for this frame.
    pub inference_latency: Duration,
}

impl FearFrame {
    /// Score and confidence both lie between 0 and 1.
    pub open spec fn is_normalized(self) -> bool {
        self.fear_score.in_unit_interval() && self.confidence.in_unit_interval()
    }

    /// A frame with the given measurements, stamped with the current time.
    pub fn new(
        fear_score: Scalar,
        emotion_logits: EmotionLogits,
        confidence: Scalar,
        calibrated: bool,
        inference_latency: Duration,
    ) -> (r: Self)
        ensures
            r.fear_score == fear_score,
            r.emotion_logits == emotion_logits,
            r.confidence == confidence,
            r.calibrated == calibrated,
            r.inference_latency == inference_latency,
    {
        Self {
            timestamp: Instant::now(),
            fear_score,
            emotion_logits,
            confidence,
            calibrated,
            inference_latency,
        }
    }

    /// The wall-clock time of the call in microseconds since the Unix epoch.
    pub fn timestamp_us(&self) -> u64 {
        let since = since_unix_epoch();
        micros_of(&since)
    }

    /// The fear logit among the emotion logits of this frame.
    pub fn extract_fear_logit(&self) -> (r: Scalar)
        ensures
            r == fear_logit(self.emotion_logits),
    {
        fear_logit_of(&self.emotion_logits)
    }
}

/// Fear bucket classification for terrain updates.
#[derive(Debug, Clone, Copy, PartialEq, Eq, Hash, Structural)]
pub enum FearBucket {
    /// Scores below 0.33.
    Low,
    /// Scores from 0.33 and below 0.66.
    Medium,
    /// Scores from 0.66, and what is no number.
    High,
}

/// The bucket that a score falls in.
pub open spec fn bucket_of(score: Scalar) -> FearBucket {
    if score.lt(Scalar::of(LOW_LIMIT_BITS)) {
        FearBucket::Low
    } else if score.lt(Scalar::of(MEDIUM_LIMIT_BITS)) {
        FearBucket::Medium
    } else {
        FearBucket::High
    }
}

impl FearBucket {
    /// The place of the bucket in the order Low, Medium, High.
    pub open spec fn rank(self) -> int {
        match self {
            FearBucket::Low => 0,
            FearBucket::Medium => 1,
            FearBucket::High => 2,
        }
    }

    /// The distortion that a bucket asks for.
    pub open spec fn intensity(self) -> Scalar {
        match self {
            FearBucket::Low => Scalar::of(TENTH_BITS),
            FearBucket::Medium => Scalar::of(HALF_BITS),
            FearBucket::High => Scalar::of(ONE_BITS),
        }
    }

    /// Classify a fear score into a bucket.
    pub fn from_score(score: Scalar) -> (r: Self)
        ensures
            r == bucket_of(score),
    {
        if score.less_than(Scalar::from_bits(LOW_LIMIT_BITS)) {
            FearBucket::Low
        } else if score.less_than(Scalar::from_bits(MEDIUM_LIMIT_BITS)) {
            FearBucket::Medium
        } else {
            FearBucket::High
        }
    }

    /// Get the distortion intensity for shader uniforms: 0.1, 0.5 or 1.0.
    pub fn distortion_intensity(&self) -> (r: Scalar)
        ensures
            r == self.intensity(),
    {
        match self {
            FearBucket::Low => Scalar::from_bits(TENTH_BITS),
            FearBucket::Medium => Scalar::from_bits(HALF_BITS),
            FearBucket::High => Scalar::from_bits(ONE_BITS),
        }
    }
}

/// The two limits of the partition are numbers, the lower below the higher,
/// and both lie strictly between 0 and 1.
pub proof fn lemma_bucket_limits()
    ensures
        Scalar::of(ZERO_BITS).lt(Scalar::of(LOW_LIMIT_BITS)),
        Scalar::of(LOW_LIMIT_BITS).lt(Scalar::of(MEDIUM_LIMIT_BITS)),
        Scalar::of(MEDIUM_LIMIT_BITS).lt(Scalar::of(ONE_BITS)),
{
    lemma_key_orders_values(Scalar::of(ZERO_BITS), Scalar::of(LOW_LIMIT_BITS));
    lemma_key_orders_values(Scalar::of(LOW_LIMIT_BITS), Scalar::of(MEDIUM_LIMIT_BITS));
    lemma_key_orders_values(Scalar::of(MEDIUM_LIMIT_BITS), Scalar::of(ONE_BITS));
}

/// Every number falls in exactly one bucket, fixed by the two limits: Low
/// below the first, High from the second on, Medium between them.
pub proof fn lemma_bucket_partition(score: Scalar)
    requires
        !score.is_nan(),
    ensures
        bucket_of(score) == FearBucket::Low <==> score.lt(Scalar::of(LOW_LIMIT_BITS)),
        bucket_of(score) == FearBucket::Medium <==> Scalar::of(LOW_LIMIT_BITS).le(score)
            && score.lt(Scalar::of(MEDIUM_LIMIT_BITS)),
        bucket_of(score) == FearBucket::High <==> Scalar::of(MEDIUM_LIMIT_BITS).le(score),
{
    lemma_bucket_limits();
}

/// The bucket never falls when the score rises.
pub proof fn lemma_bucket_monotone(lower: Scalar, higher: Scalar)
    requires
        lower.le(higher),
    ensures
        bucket_of(lower).rank() <= bucket_of(higher).rank(),
{
    lemma_bucket_limits();
}

/// The buckets at the ends of the score range, at both limits, and just
/// below each limit, at 0.329 and at 0.659.
pub proof fn lemma_bucket_boundaries()
    ensures
        bucket_of(Scalar::of(ZERO_BITS)) == FearBucket::Low,
        bucket_of(Scalar::of(0x3ea8_72b0)) == FearBucket::Low,
        bucket_of(Scalar::of(LOW_LIMIT_BITS)) == FearBucket::Medium,
        bucket_of(Scalar::of(0x3f28_b439)) == FearBucket::Medium,
        bucket_of(Scalar::of(MEDIUM_LIMIT_BITS)) == FearBucket::High,
        bucket_of(Scalar::of(ONE_BITS)) == FearBucket::High,
{
    lemma_bucket_limits();
    lemma_key_orders_values(Scalar::of(0x3ea8_72b0), Scalar::of(LOW_LIMIT_BITS));
    lemma_key_orders_values(Scalar::of(0x3f28_b439), Scalar::of(LOW_LIMIT_BITS));
    lemma_key_orders_values(Scalar::of(0x3f28_b439), Scalar::of(MEDIUM_LIMIT_BITS));
}

/// The fear logit is the third logit wherever it is read: from a bare set of
/// logits, from a score and from a frame.
pub proof fn lemma_fear_index_agrees(logits: EmotionLogits, score: FearScore, frame: FearFrame)
    requires
        score.emotion_logits == logits,
        frame.emotion_logits == logits,
    ensures
        fear_logit(score.emotion_logits) == logits[2],
        fear_logit(frame.emotion_logits) == logits[2],
        fear_logit(logits) == logits[FEAR_INDEX as int],
{
}

/// Camera device information.
#[derive(Debug, PartialEq)]
pub struct CameraDevice {
    /// Device ID.
    pub id: u32,
    /// Human-readable device name.
    pub name: String,
    /// Supported resolution (width, height).
    pub resolution: (u32, u32),
}

impl Clone for CameraDevice {
    fn clone(&self) -> (r: Self)
        ensures
            r.id == self.id,
            r.name@ == self.name@,
            r.resolution == self.resolution,
    {
        Self {
            id: self.id,
            name: self.name.clone(),
            resolution: (self.resolution.0, self.resolution.1),
        }
    }
}

impl CameraDevice {
    /// Create a new camera device.
    pub fn new(id: u32, name: String, resolution: (u32, u32)) -> (r: Self)
        ensures
            r.id == id,
            r.name == name,
            r.resolution == resolution,
    {
        Self { id, name, resolution }
    }
}

/// Camera configuration.
#[derive(Debug, Clone)]
pub struct CameraConfig {
    /// Camera device ID.
    pub device_id: u32,
    /// Target frames per second.
    pub fps: u32,
    /// Frame width.
    pub width: u32,
    /// Frame height.
    pub height: u32,
}

impl Default for CameraConfig {
    fn default() -> (r: Self)
        ensures
            r.device_id == 0,
            r.fps == 30,
            r.width == 640,
            r.height == 480,
    {
        Self { device_id: 0, fps: 30, width: 640, height: 480 }
    }
}

/// The place, in a window of `len` sorted samples, of the sample that 95 in
/// 100 do not exceed.
pub open spec fn percentile_index(len: nat) -> nat {
    len * 19 / 20
}

/// `d` stands at place `k` when the values are put in ascending order.
pub open spec fn is_order_statistic(values: Seq<Duration>, k: int, d: Duration) -> bool {
    exists|sorted: Seq<Duration>|
        sorted.to_multiset() == values.to_multiset() && ascending(sorted) && 0 <= k
            < sorted.len() && #[trigger] sorted[k] == d
}

/// Performance metrics for monitoring.
#[derive(Debug, Clone)]
pub struct PerformanceMetrics {
    /// Current frames per second.
    pub current_fps: Scalar,
    /// 95th percentile inference latency.
    pub p95_inference_latency: Duration,
    /// Total number of dropped frames.
    pub dropped_frames: u64,
    /// Calibration drift (change in baseline mean).
    pub calibration_drift: Scalar,
    /// Last update timestamp.
    pub last_update: Instant,
}

impl Default for PerformanceMetrics {
    fn default() -> (r: Self)
        ensures
            r.current_fps == Scalar::of(ZERO_BITS),
            duration_nanos(r.p95_inference_latency) == 0,
            r.dropped_frames == 0,
            r.calibration_drift == Scalar::of(ZERO_BITS),
    {
        Self {
            current_fps: Scalar::zero(),
            p95_inference_latency: Duration::from_secs(0),
            dropped_frames: 0,
            calibration_drift: Scalar::zero(),
            last_update: Instant::now(),
        }
    }
}

impl PerformanceMetrics {
    /// Create new metrics.
    pub fn new() -> (r: Self)
        ensures
            r.current_fps == Scalar::of(ZERO_BITS),
            duration_nanos(r.p95_inference_latency) == 0,
            r.dropped_frames == 0,
            r.calibration_drift == Scalar::of(ZERO_BITS),
    {
        Self::default()
    }

    /// Takes over the frame rate that the caller measured over `elapsed`,
    /// `frames_per_second` being the frame count divided by the seconds
    /// elapsed. A rate over no time at all is not taken.
    pub fn update_fps(&mut self, frames_per_second: Scalar, elapsed: Duration)
        ensures
            final(self).current_fps == if duration_nanos(elapsed) > 0 {
                frames_per_second
            } else {
                old(self).current_fps
            },
            final(self).p95_inference_latency == old(self).p95_inference_latency,
            final(self).dropped_frames == old(self).dropped_frames,
            final(self).calibration_drift == old(self).calibration_drift,
    {
        if elapsed.as_nanos() > 0 {
            self.current_fps = frames_per_second;
        }
        self.last_update = Instant::now();
    }

    /// Record a dropped frame.
    pub fn record_dropped_frame(&mut self)
        requires
            old(self).dropped_frames < u64::MAX,
        ensures
            final(self).dropped_frames == old(self).dropped_frames + 1,
            final(self).current_fps == old(self).current_fps,
            final(self).p95_inference_latency == old(self).p95_inference_latency,
            final(self).calibration_drift == old(self).calibration_drift,
            final(self).last_update == old(self).last_update,
    {
        self.dropped_frames = self.dropped_frames + 1;
    }

    /// Update inference latency percentile from a window of samples. An empty
    /// window leaves the figure as it is.
    pub fn update_inference_latency(&mut self, latencies: &Vec<Duration>)
        ensures
            latencies@.len() == 0 ==> final(self).p95_inference_latency
                == old(self).p95_inference_latency,
            latencies@.len() > 0 ==> is_order_statistic(
                latencies@,
                percentile_index(latencies@.len()) as int,
                final(self).p95_inference_latency,
            ),
            final(self).current_fps == old(self).current_fps,
            final(self).dropped_frames == old(self).dropped_frames,
            final(self).calibration_drift == old(self).calibration_drift,
            final(self).last_update == old(self).last_update,
    {
        let len: usize = latencies.len();
        if len > 0 {
            let mut sorted: Vec<Duration> = Vec::new();
            let mut i: usize = 0;
            while i < len
                invariant
                    len == latencies@.len(),
                    i <= len,
                    sorted@ == latencies@.subrange(0, i as int),
                decreases len - i,
            {
                sorted.push(latencies[i]);
                i = i + 1;
            }
            assert(sorted@ == latencies@);
            sort_durations(&mut sorted);
            proof {
                sorted@.to_multiset_ensures();
                latencies@.to_multiset_ensures();
            }
            let wide: u128 = len as u128;
            let index: usize = (wide * 19 / 20) as usize;
            self.p95_inference_latency = sorted[index];
        }
    }
}

} // verus!
