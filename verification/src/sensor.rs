//! The sensor and its producer loop.
//!
//! The sensor goes from idle to initialized to running and back. While it
//! runs, a producer loop turns what camera, face detector and classifier hand
//! over into frames, feeds the calibrator, offers each frame to the pipeline
//! without waiting, and publishes its status. Devices, clocks and arithmetic
//! belong to the caller; every decision of the loop is made here.

use crate::calibration::normalized_score;
use crate::calibration::SampleStatistics;
use crate::calibrator::AdaptiveCalibrator;
use crate::calibrator::CalibratorModel;
use crate::config::SensorConfig;
use crate::error::CalibrationError;
use crate::error::SensorError;
use crate::error::YuNetError;
use crate::pipeline::lemma_back_pressure;
use crate::pipeline::FramePipeline;
use crate::pipeline::PipelineModel;
use crate::pipeline::PipelineStep;
use crate::pipeline::SendOutcome;
use crate::ratio::Ratio;
use crate::scalar::Scalar;
use crate::scalar::TWENTIETH_BITS;
use crate::scalar::ZERO_BITS;
use crate::time::duration_nanos;
use crate::types::fallback_logits;
use crate::types::fear_logit;
use crate::types::fear_logit_of;
use crate::types::is_order_statistic;
use crate::types::neutral_logits;
use crate::types::percentile_index;
use crate::types::EmotionLogits;
use crate::types::FearFrame;
use crate::types::PerformanceMetrics;
use std::time::Duration;
use vstd::prelude::*;
use vstd::string::*;

verus! {

/// Seconds that the initial calibration of a sensor lasts.
pub const CALIBRATION_SECONDS: u64 = 30;

/// Nanoseconds between two refreshes of the published metrics.
pub const METRICS_INTERVAL_NANOS: u128 = 1_000_000_000;

/// Nanoseconds of inference beyond which a tick is reported as slow.
pub const LATENCY_BUDGET_NANOS: u128 = 10_000_000;

/// Shared sensor state for thread communication: what the producer loop
/// publishes and any reader may copy.
#[derive(Debug, Clone)]
pub struct SensorState {
    /// Whether the producer loop runs, or is asked to go on running.
    pub running: bool,
    /// Progress of the calibration at the last refresh.
    pub calibration_progress: Ratio,
    /// Whether the calibrator was calibrated at the last refresh.
    pub calibrated: bool,
    /// Text of the last failure that the loop recovered from.
    pub last_error: Option<String>,
    /// Aggregate figures of the last refresh.
    pub metrics: PerformanceMetrics,
}

impl SensorState {
    /// The status of a sensor before its loop has published anything: not
    /// running, not calibrated, no progress, no error and no figures.
    pub open spec fn is_fresh(self) -> bool {
        &&& !self.running
        &&& self.calibration_progress == Ratio::of(0, 1)
        &&& !self.calibrated
        &&& self.last_error.is_none()
        &&& self.metrics.current_fps == Scalar::of(ZERO_BITS)
        &&& duration_nanos(self.metrics.p95_inference_latency) == 0
        &&& self.metrics.dropped_frames == 0
        &&& self.metrics.calibration_drift == Scalar::of(ZERO_BITS)
    }
}

impl Default for SensorState {
    fn default() -> (r: Self)
        ensures
            r.is_fresh(),
            !r.running,
            r.calibration_progress.is_nothing(),
            !r.calibrated,
            r.last_error.is_none(),
            r.metrics.dropped_frames == 0,
    {
        Self {
            running: false,
            calibration_progress: Ratio::nothing(),
            calibrated: false,
            last_error: None,
            metrics: PerformanceMetrics::new(),
        }
    }
}

/// Where a sensor stands between its start and its stop.
#[derive(Debug, Clone, Copy, PartialEq, Eq, Structural)]
pub enum SensorPhase {
    /// Nothing is loaded.
    Idle,
    /// Models and calibrator are ready; no loop runs.
    Initialized,
    /// The producer loop runs.
    Running,
    /// The loop was asked to stop and has not been started again.
    Stopping,
}

/// What the producer loop does next.
#[derive(Debug, Clone, Copy, PartialEq, Eq, Structural)]
pub enum LoopControl {
    /// Go on with the tick.
    Continue,
    /// Leave the loop.
    Stop,
}

/// What the classifier found in one frame.
#[derive(Debug, Clone)]
pub struct Measurement {
    /// The raw logits, one per emotion class.
    pub emotion_logits: EmotionLogits,
    /// Confidence of the face detection.
    pub confidence: Scalar,
    /// Time that detection and inference took.
    pub inference_latency: Duration,
}

/// High-performance emotion sensor: the part that owns configuration,
/// calibrator and status, without the devices.
pub struct EmotionSensor {
    models_ready: bool,
    calibrator: Option<AdaptiveCalibrator>,
    config: SensorConfig,
    state: SensorState,
    phase: SensorPhase,
}

/// What `EmotionSensor::start` hands to the task that runs the loop.
pub struct Started {
    /// The working state of the producer loop.
    pub producer: ProducerLoop,
    /// The pipeline that the loop feeds.
    pub pipeline: FramePipeline,
}

/// The working state of the producer loop.
pub struct ProducerLoop {
    calibrator: AdaptiveCalibrator,
    frame_count: u64,
    latency_samples: Vec<Duration>,
    frame_duration: Duration,
}

impl EmotionSensor {
    /// Where the sensor stands.
    pub closed spec fn phase(self) -> SensorPhase {
        self.phase
    }

    /// The published status.
    pub closed spec fn status(self) -> SensorState {
        self.state
    }

    /// The calibrator, while the sensor holds one.
    pub closed spec fn calibrator(self) -> Option<CalibratorModel> {
        match self.calibrator {
            Some(c) => Some(c@),
            None => None,
        }
    }

    /// The configuration that the sensor was made with.
    pub closed spec fn config(self) -> SensorConfig {
        self.config
    }

    /// The sensor holds its models and its calibrator exactly while it is
    /// initialized and no loop has taken them over.
    pub closed spec fn wf(self) -> bool {
        &&& self.models_ready <==> self.phase == SensorPhase::Initialized
        &&& self.models_ready ==> self.calibrator.is_some()
        &&& self.calibrator matches Some(c) ==> c@.wf()
        &&& self.phase == SensorPhase::Running ==> self.state.running
    }

    /// Create a new emotion sensor: idle, with the default status.
    pub fn new(config: SensorConfig) -> (r: Self)
        ensures
            r.wf(),
            r.phase() == SensorPhase::Idle,
            r.config() == config,
            r.calibrator().is_none(),
            r.status().is_fresh(),
            !r.status().running,
            !r.status().calibrated,
            r.status().calibration_progress.is_nothing(),
            r.status().last_error.is_none(),
    {
        Self {
            models_ready: false,
            calibrator: None,
            config,
            state: SensorState::default(),
            phase: SensorPhase::Idle,
        }
    }

    /// Initialize the sensor once the caller has tried to load the runtime,
    /// the face detector and the emotion model; `assets` is what came of it.
    /// A failure leaves the sensor as it was and is handed back. On success
    /// the sensor is initialized, with a fresh calibrator, and its status is
    /// reset: what an earlier run published of progress, calibration, errors
    /// and figures is gone. A sensor whose loop still runs is no longer
    /// asked to run, so that the loop ends with its next tick.
    pub fn initialize(&mut self, assets: Result<(), SensorError>) -> (r: Result<(), SensorError>)
        requires
            old(self).wf(),
        ensures
            final(self).wf(),
            r.is_ok() == assets.is_ok(),
            r matches Err(e) ==> assets == Err::<(), SensorError>(e),
            final(self).config() == old(self).config(),
            assets.is_err() ==> final(self).phase() == old(self).phase()
                && final(self).calibrator() == old(self).calibrator() && final(self).status()
                == old(self).status(),
            assets.is_ok() ==> final(self).status().is_fresh(),
            assets.is_ok() ==> final(self).phase() == SensorPhase::Initialized
                && final(self).calibrator() == Some(
                CalibratorModel::fresh(
                    CALIBRATION_SECONDS as nat * 1_000_000_000,
                    Scalar::of(TWENTIETH_BITS),
                ),
            ),
    {
        match assets {
            Err(e) => Err(e),
            Ok(()) => {
                match AdaptiveCalibrator::with_defaults(Duration::from_secs(CALIBRATION_SECONDS)) {
                    Ok(calibrator) => {
                        self.calibrator = Some(calibrator);
                        self.models_ready = true;
                        self.phase = SensorPhase::Initialized;
                        self.state = SensorState::default();
                        Ok(())
                    },
                    Err(_) => Ok(()),
                }
            },
        }
    }

    /// Start the sensor: hand models, calibrator and a new pipeline to the
    /// producer loop and publish that it runs. `frame_duration` is the time
    /// that one frame takes at the target frame rate. A sensor that is not
    /// initialized fails with `NotInitialized`, a configuration without room
    /// for a frame with `ChannelError`; both leave the sensor as it was.
    pub fn start(&mut self, frame_duration: Duration) -> (r: Result<Started, SensorError>)
        requires
            old(self).wf(),
        ensures
            final(self).wf(),
            final(self).config() == old(self).config(),
            r.is_ok() <==> old(self).phase() == SensorPhase::Initialized
                && old(self).config().channel_buffer_size > 0,
            r matches Err(e) ==> *final(self) == *old(self) && if old(self).phase()
                != SensorPhase::Initialized {
                e is NotInitialized
            } else {
                e is ChannelError
            },
            r matches Ok(started) ==> {
                &&& final(self).phase() == SensorPhase::Running
                &&& final(self).calibrator().is_none()
                &&& final(self).status().running
                &&& final(self).status().last_error.is_none()
                &&& final(self).status().calibrated == old(self).status().calibrated
                &&& final(self).status().calibration_progress == old(self).status().calibration_progress
                &&& final(self).status().metrics == old(self).status().metrics
                &&& started.producer.wf()
                &&& Some(started.producer.calibrator()) == old(self).calibrator()
                &&& started.producer.frame_count() == 0
                &&& started.producer.latencies() == Seq::<Duration>::empty()
                &&& started.producer.frame_duration() == frame_duration
                &&& started.pipeline.wf()
                &&& started.pipeline.capacity() == old(self).config().channel_buffer_size
                &&& !started.pipeline.closed()
                &&& started.pipeline.buffered() == Seq::<FearFrame>::empty()
                &&& started.pipeline.produced() == 0
                &&& started.pipeline.dropped() == 0
            },
    {
        if !self.models_ready {
            return Err(SensorError::NotInitialized);
        }
        let pipeline = match FramePipeline::new(self.config.channel_buffer_size) {
            Some(pipeline) => pipeline,
            None => {
                return Err(SensorError::ChannelError);
            },
        };
        let calibrator = match self.calibrator.take() {
            Some(calibrator) => calibrator,
            None => {
                return Err(SensorError::NotInitialized);
            },
        };
        self.models_ready = false;
        self.phase = SensorPhase::Running;
        self.state.running = true;
        self.state.last_error = None;
        Ok(
            Started {
                producer: ProducerLoop {
                    calibrator,
                    frame_count: 0,
                    latency_samples: Vec::new(),
                    frame_duration,
                },
                pipeline,
            },
        )
    }

    /// Stop the sensor: publish that the loop shall not go on. The loop sees
    /// it at the top of its next tick.
    pub fn stop(&mut self) -> (r: Result<(), SensorError>)
        requires
            old(self).wf(),
        ensures
            final(self).wf(),
            r.is_ok(),
            !final(self).status().running,
            final(self).status().calibrated == old(self).status().calibrated,
            final(self).status().calibration_progress == old(self).status().calibration_progress,
            final(self).status().last_error == old(self).status().last_error,
            final(self).status().metrics == old(self).status().metrics,
            final(self).config() == old(self).config(),
            final(self).calibrator() == old(self).calibrator(),
            final(self).phase() == if old(self).phase() == SensorPhase::Running {
                SensorPhase::Stopping
            } else {
                old(self).phase()
            },
    {
        self.state.running = false;
        if self.phase == SensorPhase::Running {
            self.phase = SensorPhase::Stopping;
        }
        Ok(())
    }

    /// Takes over what the producer loop reports: progress and state of the
    /// calibration, the last error and the metrics. Whether the sensor is
    /// asked to run is the sensor's own to say and stays as it is.
    pub fn publish(&mut self, report: SensorState)
        requires
            old(self).wf(),
        ensures
            final(self).wf(),
            final(self).phase() == old(self).phase(),
            final(self).config() == old(self).config(),
            final(self).calibrator() == old(self).calibrator(),
            final(self).status().running == old(self).status().running,
            final(self).status().calibration_progress == report.calibration_progress,
            final(self).status().calibrated == report.calibrated,
            final(self).status().last_error == report.last_error,
            final(self).status().metrics == report.metrics,
    {
        self.state.calibration_progress = report.calibration_progress;
        self.state.calibrated = report.calibrated;
        self.state.last_error = report.last_error;
        self.state.metrics = report.metrics;
    }

    /// Notes that the producer loop has ended, by a stop or by itself: the
    /// sensor no longer runs and is idle again. A sensor whose loop never
    /// ran stays where it stands.
    pub fn finished(&mut self)
        requires
            old(self).wf(),
        ensures
            final(self).wf(),
            final(self).config() == old(self).config(),
            final(self).calibrator() == old(self).calibrator(),
            !final(self).status().running,
            final(self).status().calibrated == old(self).status().calibrated,
            final(self).status().calibration_progress == old(self).status().calibration_progress,
            final(self).status().last_error == old(self).status().last_error,
            final(self).status().metrics == old(self).status().metrics,
            final(self).phase() == if old(self).phase() == SensorPhase::Running
                || old(self).phase() == SensorPhase::Stopping {
                SensorPhase::Idle
            } else {
                old(self).phase()
            },
    {
        self.state.running = false;
        match self.phase {
            SensorPhase::Running => {
                self.phase = SensorPhase::Idle;
            },
            SensorPhase::Stopping => {
                self.phase = SensorPhase::Idle;
            },
            _ => {},
        }
    }

    /// The configuration that the sensor was made with.
    pub fn configuration(&self) -> (r: &SensorConfig)
        ensures
            *r == self.config(),
    {
        &self.config
    }

    /// Get current sensor state: a copy of the published status.
    pub fn get_state(&self) -> (r: SensorState)
        ensures
            r.running == self.status().running,
            r.calibrated == self.status().calibrated,
            r.calibration_progress == self.status().calibration_progress,
            r.metrics.dropped_frames == self.status().metrics.dropped_frames,
            r.metrics.current_fps == self.status().metrics.current_fps,
            r.metrics.calibration_drift == self.status().metrics.calibration_drift,
            r.metrics.p95_inference_latency == self.status().metrics.p95_inference_latency,
            r.last_error.is_some() == self.status().last_error.is_some(),
            r.last_error matches Some(text) ==> self.status().last_error matches Some(published)
                && text@ == published@,
    {
        let last_error = match &self.state.last_error {
            Some(text) => Some(text.clone()),
            None => None,
        };
        SensorState {
            running: self.state.running,
            calibration_progress: self.state.calibration_progress,
            calibrated: self.state.calibrated,
            last_error,
            metrics: PerformanceMetrics {
                current_fps: self.state.metrics.current_fps,
                p95_inference_latency: self.state.metrics.p95_inference_latency,
                dropped_frames: self.state.metrics.dropped_frames,
                calibration_drift: self.state.metrics.calibration_drift,
                last_update: self.state.metrics.last_update,
            },
        }
    }

    /// Control calibration: freeze or unfreeze the calibrator that the sensor
    /// holds. Without a calibrator nothing happens.
    pub fn control_calibration(&mut self, freeze: bool) -> (r: Result<(), SensorError>)
        requires
            old(self).wf(),
        ensures
            final(self).wf(),
            r.is_ok(),
            final(self).phase() == old(self).phase(),
            final(self).status() == old(self).status(),
            final(self).config() == old(self).config(),
            final(self).calibrator() == match old(self).calibrator() {
                Some(c) => Some(
                    if freeze {
                        c.froze()
                    } else {
                        c.unfroze()
                    },
                ),
                None => None,
            },
    {
        match self.calibrator.take() {
            Some(calibrator) => {
                let mut calibrator = calibrator;
                if freeze {
                    calibrator.freeze();
                } else {
                    calibrator.unfreeze();
                }
                self.calibrator = Some(calibrator);
            },
            None => {},
        }
        Ok(())
    }

    /// Reset calibration: start the calibrator that the sensor holds over.
    /// Without a calibrator nothing happens.
    pub fn reset_calibration(&mut self) -> (r: Result<(), SensorError>)
        requires
            old(self).wf(),
        ensures
            final(self).wf(),
            r.is_ok(),
            final(self).phase() == old(self).phase(),
            final(self).status() == old(self).status(),
            final(self).config() == old(self).config(),
            final(self).calibrator() == match old(self).calibrator() {
                Some(c) => Some(c.restarted()),
                None => None,
            },
    {
        match self.calibrator.take() {
            Some(calibrator) => {
                let mut calibrator = calibrator;
                calibrator.reset();
                self.calibrator = Some(calibrator);
            },
            None => {},
        }
        Ok(())
    }
}

/// The frame carries the measurement with the given score and calibration
/// flag. Nothing is said of its time stamp.
pub open spec fn frame_of(
    frame: FearFrame,
    measurement: Measurement,
    score: Scalar,
    calibrated: bool,
) -> bool {
    &&& frame.fear_score == score
    &&& frame.emotion_logits == measurement.emotion_logits
    &&& frame.confidence == measurement.confidence
    &&& frame.calibrated == calibrated
    &&& frame.inference_latency == measurement.inference_latency
}

/// What the offer of a measurement's frame does to the pipeline and to the
/// count of dropped frames in the status. With room in the pipeline the
/// frame joins the waiting frames. From a full pipeline it is lost and
/// counted as dropped, and the waiting frames stay. A closed pipeline takes
/// no offer, and nothing is counted.
pub open spec fn offered(
    before: FramePipeline,
    after: FramePipeline,
    dropped_before: u64,
    dropped_after: u64,
    measurement: Measurement,
    score: Scalar,
    calibrated: bool,
) -> bool {
    &&& after.capacity() == before.capacity()
    &&& after.closed() == before.closed()
    &&& after.taken() == before.taken()
    &&& if before.closed() {
        &&& after.buffered() == before.buffered()
        &&& after.produced() == before.produced()
        &&& after.dropped() == before.dropped()
        &&& dropped_after == dropped_before
    } else if before.buffered().len() < before.capacity() {
        &&& after.buffered().len() == before.buffered().len() + 1
        &&& after.buffered().drop_last() == before.buffered()
        &&& frame_of(after.buffered().last(), measurement, score, calibrated)
        &&& after.produced() == before.produced() + 1
        &&& after.dropped() == before.dropped()
        &&& dropped_after == dropped_before
    } else {
        &&& after.buffered() == before.buffered()
        &&& after.produced() == before.produced() + 1
        &&& after.dropped() == before.dropped() + 1
        &&& dropped_after == dropped_before + 1
    }
}

/// The count of dropped frames in the status after a row of steps on the
/// pipeline, where the loop counts each of its offers that found the pipeline
/// full, and what the consumers do is not counted.
pub open spec fn dropped_in_status(
    before: nat,
    pipeline: PipelineModel,
    steps: Seq<PipelineStep>,
) -> nat
    decreases steps.len(),
{
    if steps.len() == 0 {
        before
    } else {
        let earlier = dropped_in_status(before, pipeline, steps.drop_last());
        if steps.last() is Offer && pipeline.ran(steps.drop_last()).outcome()
            == SendOutcome::Full {
            earlier + 1
        } else {
            earlier
        }
    }
}

/// After one offer the status counts one drop more exactly where the offer
/// found the pipeline full; which frame was offered does not matter.
pub proof fn lemma_one_offer(before: nat, pipeline: PipelineModel, frame: FearFrame)
    ensures
        dropped_in_status(before, pipeline, seq![PipelineStep::Offer(frame)]) == before + (
        if pipeline.outcome() == SendOutcome::Full {
            1int
        } else {
            0int
        }),
{
    let steps = seq![PipelineStep::Offer(frame)];
    assert(steps.drop_last() =~= Seq::<PipelineStep>::empty());
    assert(steps.last() == PipelineStep::Offer(frame));
    assert(pipeline.ran(steps.drop_last()) == pipeline);
    assert(dropped_in_status(before, pipeline, steps.drop_last()) == before);
}

/// The count of dropped frames in the status follows the pipeline: over any
/// row of offers by the loop and takes by the consumers it never falls, it
/// rises by one with each offer that finds the pipeline full and with
/// nothing else, and it has risen by exactly the frames that were offered
/// and not delivered.
pub proof fn lemma_status_counts_drops(
    before: nat,
    pipeline: PipelineModel,
    steps: Seq<PipelineStep>,
)
    requires
        pipeline.wf(),
    ensures
        dropped_in_status(before, pipeline, steps) >= before,
        dropped_in_status(before, pipeline, steps) == before + (pipeline.ran(steps).dropped
            - pipeline.dropped),
        dropped_in_status(before, pipeline, steps) == before + (pipeline.ran(steps).produced
            - pipeline.produced) - (pipeline.ran(steps).delivered() - pipeline.delivered()),
    decreases steps.len(),
{
    lemma_back_pressure(pipeline, steps);
    if steps.len() > 0 {
        lemma_status_counts_drops(before, pipeline, steps.drop_last());
        lemma_back_pressure(pipeline, steps.drop_last());
    }
}

/// Each counter that a tick raises has room for one more.
pub open spec fn within_limits(
    producer: ProducerLoop,
    state: SensorState,
    pipeline: FramePipeline,
) -> bool {
    &&& pipeline.produced() < u64::MAX
    &&& state.metrics.dropped_frames < u64::MAX
    &&& producer.frame_count() < u64::MAX
}

/// What the second half of a tick does to the loop, the status and the
/// pipeline. The calibrator has taken the fear logit of the measurement at
/// some time. Where the calibrator was frozen, the failure is published, no
/// frame was made, and the loop goes on. Otherwise the latency was noted and
/// the frame of the measurement, scored against the baseline after the
/// sample, was offered to the pipeline, which ends the loop if it is closed.
/// The tick is counted unless the loop ends.
pub open spec fn processed(
    before: ProducerLoop,
    after: ProducerLoop,
    state_before: SensorState,
    state_after: SensorState,
    pipeline_before: FramePipeline,
    pipeline_after: FramePipeline,
    measurement: Measurement,
    update: SampleStatistics,
    sigmoid: Scalar,
    r: LoopControl,
) -> bool {
    &&& after.wf()
    &&& pipeline_after.wf()
    &&& after.frame_duration() == before.frame_duration()
    &&& exists|elapsed_nanos: nat|
        after.calibrator() == #[trigger] before.calibrator().sampled(
            fear_logit(measurement.emotion_logits),
            update,
            elapsed_nanos,
        )
    &&& before.calibrator().frozen ==> {
        &&& r == LoopControl::Continue
        &&& pipeline_after == pipeline_before
        &&& after.latencies() == before.latencies()
        &&& state_after.metrics == state_before.metrics
        &&& state_after.last_error matches Some(text) && text@ == SensorError::Calibration(
            CalibrationError::Frozen,
        ).text()
    }
    &&& !before.calibrator().frozen ==> {
        &&& r == if pipeline_before.closed() {
            LoopControl::Stop
        } else {
            LoopControl::Continue
        }
        &&& after.latencies() == before.latencies().push(measurement.inference_latency)
        &&& offered(
            pipeline_before,
            pipeline_after,
            state_before.metrics.dropped_frames,
            state_after.metrics.dropped_frames,
            measurement,
            normalized_score(after.calibrator().complete, sigmoid),
            after.calibrator().complete,
        )
        &&& state_after.last_error == state_before.last_error
    }
    &&& after.frame_count() == if r == LoopControl::Stop {
        before.frame_count()
    } else {
        before.frame_count() + 1
    }
    &&& state_after.running == state_before.running
    &&& state_after.calibrated == state_before.calibrated
    &&& state_after.calibration_progress == state_before.calibration_progress
    &&& state_after.metrics.current_fps == state_before.metrics.current_fps
    &&& state_after.metrics.calibration_drift == state_before.metrics.calibration_drift
    &&& state_after.metrics.p95_inference_latency == state_before.metrics.p95_inference_latency
}

/// The failure is that no face was in view, which is a matter of course.
pub open spec fn no_face(failure: SensorError) -> bool {
    failure matches SensorError::FaceDetection(cause) && cause is NoFacesDetected
}

/// The time that the loop rests after a tick that took `elapsed`: what is
/// left of the frame's time, and nothing where the tick used it up.
pub open spec fn rest_nanos(elapsed: Duration, frame_duration: Duration) -> Option<nat> {
    if duration_nanos(elapsed) < duration_nanos(frame_duration) {
        Some((duration_nanos(frame_duration) - duration_nanos(elapsed)) as nat)
    } else {
        None
    }
}

impl ProducerLoop {
    /// The calibrator that the loop feeds.
    pub closed spec fn calibrator(self) -> CalibratorModel {
        self.calibrator@
    }

    /// Frames handled since the last refresh of the metrics.
    pub closed spec fn frame_count(self) -> nat {
        self.frame_count as nat
    }

    /// Inference latencies measured since the last refresh of the metrics.
    pub closed spec fn latencies(self) -> Seq<Duration> {
        self.latency_samples@
    }

    /// The time that one frame takes at the target frame rate.
    pub closed spec fn frame_duration(self) -> Duration {
        self.frame_duration
    }

    /// The calibrator is sound.
    pub closed spec fn wf(self) -> bool {
        self.calibrator@.wf()
    }

    /// Whether the loop goes on: asked at the top of every tick.
    pub fn should_continue(&self, state: &SensorState) -> (r: LoopControl)
        ensures
            r == if state.running {
                LoopControl::Continue
            } else {
                LoopControl::Stop
            },
    {
        if state.running {
            LoopControl::Continue
        } else {
            LoopControl::Stop
        }
    }

    /// What follows the attempt to capture a frame. After a failed capture
    /// the loop rests for one frame and tries again: `Some` holds that rest.
    /// With a frame in hand the tick goes on at once.
    pub fn after_capture(&self, captured: bool) -> (r: Option<Duration>)
        ensures
            r == if captured {
                None
            } else {
                Some(self.frame_duration())
            },
    {
        if captured {
            None
        } else {
            Some(self.frame_duration)
        }
    }

    /// The measurement that a tick goes on with. What detector and
    /// classifier measured is taken as it is. Where they failed, the neutral
    /// logits stand in, with no confidence and the time that the attempt
    /// took: silently where no face was in view, and with the failure
    /// published as the last error otherwise. The tick goes on either way.
    pub fn resolve_measurement(
        &self,
        state: &mut SensorState,
        outcome: Result<Measurement, SensorError>,
        elapsed: Duration,
    ) -> (r: Measurement)
        ensures
            outcome matches Ok(measured) ==> r == measured && *final(state) == *old(state),
            outcome matches Err(e) ==> {
                &&& r.emotion_logits == neutral_logits()
                &&& r.confidence == Scalar::of(ZERO_BITS)
                &&& r.inference_latency == elapsed
                &&& no_face(e) ==> *final(state) == *old(state)
                &&& !no_face(e) ==> (final(state).last_error matches Some(text) && text@
                    == e.text())
            },
            final(state).running == old(state).running,
            final(state).calibrated == old(state).calibrated,
            final(state).calibration_progress == old(state).calibration_progress,
            final(state).metrics == old(state).metrics,
    {
        match outcome {
            Ok(measured) => measured,
            Err(e) => {
                let silent = match &e {
                    SensorError::FaceDetection(YuNetError::NoFacesDetected) => true,
                    _ => false,
                };
                if !silent {
                    state.last_error = Some(e.to_string());
                }
                Measurement {
                    emotion_logits: fallback_logits(),
                    confidence: Scalar::zero(),
                    inference_latency: elapsed,
                }
            },
        }
    }

    /// The calibrator that the loop feeds, to read the baseline from.
    pub fn calibrator_ref(&self) -> (r: &AdaptiveCalibrator)
        ensures
            r@ == self.calibrator(),
    {
        &self.calibrator
    }

    /// Freezes or unfreezes the calibrator while the loop runs.
    pub fn control_calibration(&mut self, freeze: bool)
        requires
            old(self).wf(),
        ensures
            final(self).wf(),
            final(self).calibrator() == if freeze {
                old(self).calibrator().froze()
            } else {
                old(self).calibrator().unfroze()
            },
            final(self).frame_count() == old(self).frame_count(),
            final(self).latencies() == old(self).latencies(),
            final(self).frame_duration() == old(self).frame_duration(),
    {
        if freeze {
            self.calibrator.freeze();
        } else {
            self.calibrator.unfreeze();
        }
    }

    /// Starts the calibrator over while the loop runs: no sample seen, not
    /// calibrated, not frozen.
    pub fn reset_calibration(&mut self)
        requires
            old(self).wf(),
        ensures
            final(self).wf(),
            final(self).calibrator() == old(self).calibrator().restarted(),
            final(self).frame_count() == old(self).frame_count(),
            final(self).latencies() == old(self).latencies(),
            final(self).frame_duration() == old(self).frame_duration(),
    {
        self.calibrator.reset();
    }

    /// Feeds the fear logit of a measurement to the calibrator, at the time
    /// that the clock shows. `update` holds the mean and deviation that the
    /// calibrator's rule for this logit gives. A frozen calibrator fails the
    /// tick with a calibration error.
    pub fn take_sample(&mut self, emotion_logits: &EmotionLogits, update: SampleStatistics) -> (r:
        Result<(), SensorError>)
        requires
            old(self).wf(),
        ensures
            final(self).wf(),
            final(self).frame_count() == old(self).frame_count(),
            final(self).latencies() == old(self).latencies(),
            final(self).frame_duration() == old(self).frame_duration(),
            exists|elapsed_nanos: nat| final(self).calibrator()
                == #[trigger] old(self).calibrator().sampled(
                    fear_logit(*emotion_logits),
                    update,
                    elapsed_nanos,
                ),
            r.is_err() <==> old(self).calibrator().frozen,
            r matches Err(e) ==> (e matches SensorError::Calibration(cause) && cause is Frozen),
    {
        let logit = fear_logit_of(emotion_logits);
        let ghost before = self.calibrator@;
        let answer = self.calibrator.add_sample(logit, update);
        proof {
            let elapsed_nanos = choose|elapsed_nanos: nat|
                self.calibrator@ == #[trigger] before.sampled(logit, update, elapsed_nanos);
            assert(self.calibrator() == old(self).calibrator().sampled(
                fear_logit(*emotion_logits),
                update,
                elapsed_nanos,
            ));
        }
        match answer {
            Ok(()) => Ok(()),
            Err(e) => Err(SensorError::Calibration(e)),
        }
    }

    /// Builds the frame of a measurement. `sigmoid` is the logistic function
    /// of the fear logit's z-score against the current baseline. The frame
    /// carries logits, confidence and latency as measured, the score that the
    /// calibrator gives, and whether the calibrator is calibrated.
    pub fn build_frame(&self, measurement: Measurement, sigmoid: Scalar) -> (r: FearFrame)
        ensures
            r.fear_score == normalized_score(self.calibrator().complete, sigmoid),
            r.emotion_logits == measurement.emotion_logits,
            r.confidence == measurement.confidence,
            r.calibrated == self.calibrator().complete,
            r.inference_latency == measurement.inference_latency,
            !sigmoid.is_nan() ==> r.fear_score.in_unit_interval(),
            !sigmoid.is_nan() && measurement.confidence.in_unit_interval() ==> r.is_normalized(),
    {
        let score = self.calibrator.normalize_fear(sigmoid);
        FearFrame::new(
            score,
            measurement.emotion_logits,
            measurement.confidence,
            self.calibrator.is_calibrated(),
            measurement.inference_latency,
        )
    }

    /// Notes the inference latency of a frame that is about to be offered to
    /// the pipeline.
    pub fn note_latency(&mut self, latency: Duration)
        ensures
            final(self).latencies() == old(self).latencies().push(latency),
            final(self).calibrator() == old(self).calibrator(),
            final(self).frame_count() == old(self).frame_count(),
            final(self).frame_duration() == old(self).frame_duration(),
    {
        self.latency_samples.push(latency);
    }

    /// What follows the offer of a frame to the pipeline. A frame that went
    /// in needs nothing more. A frame that found the pipeline full is lost
    /// and counted as dropped. A pipeline without receivers ends the loop.
    pub fn after_send(&self, state: &mut SensorState, outcome: SendOutcome) -> (r: LoopControl)
        requires
            old(state).metrics.dropped_frames < u64::MAX,
        ensures
            r == if outcome == SendOutcome::Closed {
                LoopControl::Stop
            } else {
                LoopControl::Continue
            },
            final(state).metrics.dropped_frames == old(state).metrics.dropped_frames + if outcome
                == SendOutcome::Full {
                1int
            } else {
                0int
            },
            final(state).running == old(state).running,
            final(state).calibrated == old(state).calibrated,
            final(state).calibration_progress == old(state).calibration_progress,
            final(state).last_error == old(state).last_error,
            final(state).metrics.current_fps == old(state).metrics.current_fps,
            final(state).metrics.calibration_drift == old(state).metrics.calibration_drift,
            final(state).metrics.p95_inference_latency == old(state).metrics.p95_inference_latency,
    {
        match outcome {
            SendOutcome::Sent => LoopControl::Continue,
            SendOutcome::Full => {
                state.metrics.record_dropped_frame();
                LoopControl::Continue
            },
            SendOutcome::Closed => LoopControl::Stop,
        }
    }

    /// Builds the frame of a measurement and offers it to the pipeline
    /// without waiting. `sigmoid` is the logistic function of the fear
    /// logit's z-score against the current baseline. The latency of the
    /// measurement is noted for the metrics. With room in the pipeline the
    /// frame joins the waiting frames; from a full pipeline it is lost and
    /// counted as dropped, in the pipeline and in the status, and the waiting
    /// frames stay; a closed pipeline ends the loop.
    pub fn deliver(
        &mut self,
        state: &mut SensorState,
        pipeline: &mut FramePipeline,
        measurement: Measurement,
        sigmoid: Scalar,
    ) -> (r: LoopControl)
        requires
            old(self).wf(),
            old(pipeline).wf(),
            old(pipeline).produced() < u64::MAX,
            old(state).metrics.dropped_frames < u64::MAX,
        ensures
            final(self).wf(),
            final(self).calibrator() == old(self).calibrator(),
            final(self).frame_count() == old(self).frame_count(),
            final(self).frame_duration() == old(self).frame_duration(),
            final(self).latencies() == old(self).latencies().push(measurement.inference_latency),
            final(pipeline).wf(),
            r == if old(pipeline).closed() {
                LoopControl::Stop
            } else {
                LoopControl::Continue
            },
            offered(
                *old(pipeline),
                *final(pipeline),
                old(state).metrics.dropped_frames,
                final(state).metrics.dropped_frames,
                measurement,
                normalized_score(old(self).calibrator().complete, sigmoid),
                old(self).calibrator().complete,
            ),
            exists|frame: FearFrame|
                frame_of(
                    frame,
                    measurement,
                    normalized_score(old(self).calibrator().complete, sigmoid),
                    old(self).calibrator().complete,
                ) && final(pipeline)@ == #[trigger] old(pipeline)@.offered(frame),
            final(state).metrics.dropped_frames == old(state).metrics.dropped_frames
                + if old(pipeline)@.outcome() == SendOutcome::Full {
                1int
            } else {
                0int
            },
            final(state).running == old(state).running,
            final(state).calibrated == old(state).calibrated,
            final(state).calibration_progress == old(state).calibration_progress,
            final(state).last_error == old(state).last_error,
            final(state).metrics.current_fps == old(state).metrics.current_fps,
            final(state).metrics.calibration_drift == old(state).metrics.calibration_drift,
            final(state).metrics.p95_inference_latency == old(state).metrics.p95_inference_latency,
    {
        let latency = measurement.inference_latency;
        let frame = self.build_frame(measurement, sigmoid);
        self.note_latency(latency);
        let ghost waiting = pipeline.buffered();
        let ghost before = pipeline@;
        let outcome = pipeline.try_send(frame);
        proof {
            if outcome == SendOutcome::Sent {
                assert(waiting.push(frame).drop_last() =~= waiting);
                assert(waiting.push(frame).last() == frame);
            }
            assert(pipeline@ == before.offered(frame));
        }
        self.after_send(state, outcome)
    }

    /// The second half of a tick, once the measurement is at hand: feeds
    /// the fear logit to the calibrator, at the time that the clock shows,
    /// builds the frame and offers it to the pipeline. `update` holds the
    /// mean and deviation that the calibrator's rule for this logit gives,
    /// `sigmoid` the logistic function of the logit's z-score against the
    /// baseline after the sample. A frozen calibrator fails the tick: the
    /// failure is published, no frame is made, and the loop goes on. The
    /// tick is counted unless the pipeline is closed, which ends the loop.
    pub fn process(
        &mut self,
        state: &mut SensorState,
        pipeline: &mut FramePipeline,
        measurement: Measurement,
        update: SampleStatistics,
        sigmoid: Scalar,
    ) -> (r: LoopControl)
        requires
            old(self).wf(),
            old(pipeline).wf(),
            old(pipeline).produced() < u64::MAX,
            old(state).metrics.dropped_frames < u64::MAX,
            old(self).frame_count() < u64::MAX,
        ensures
            processed(
                *old(self),
                *final(self),
                *old(state),
                *final(state),
                *old(pipeline),
                *final(pipeline),
                measurement,
                update,
                sigmoid,
                r,
            ),
    {
        match self.take_sample(&measurement.emotion_logits, update) {
            Ok(()) => {
                match self.deliver(state, pipeline, measurement, sigmoid) {
                    LoopControl::Continue => {
                        self.count_frame();
                        LoopControl::Continue
                    },
                    LoopControl::Stop => LoopControl::Stop,
                }
            },
            Err(e) => {
                self.record_failure(state, &e);
                self.count_frame();
                LoopControl::Continue
            },
        }
    }

    /// The second half of a tick for a loop that may have run for longer
    /// than its counters can tell. While each of the three counters that the
    /// tick raises has room for one more (frames offered to the pipeline,
    /// frames dropped in the status, frames since the last refresh), the tick
    /// is done as `process` does it. Once one of them is at its limit the
    /// loop ends instead, and nothing is changed.
    pub fn process_within_limits(
        &mut self,
        state: &mut SensorState,
        pipeline: &mut FramePipeline,
        measurement: Measurement,
        update: SampleStatistics,
        sigmoid: Scalar,
    ) -> (r: LoopControl)
        requires
            old(self).wf(),
            old(pipeline).wf(),
        ensures
            final(self).wf(),
            final(pipeline).wf(),
            within_limits(*old(self), *old(state), *old(pipeline)) ==> processed(
                *old(self),
                *final(self),
                *old(state),
                *final(state),
                *old(pipeline),
                *final(pipeline),
                measurement,
                update,
                sigmoid,
                r,
            ),
            !within_limits(*old(self), *old(state), *old(pipeline)) ==> r == LoopControl::Stop
                && *final(self) == *old(self) && *final(state) == *old(state) && *final(pipeline)
                == *old(pipeline),
    {
        if pipeline.produced_frames() < u64::MAX && state.metrics.dropped_frames < u64::MAX
            && self.frame_count < u64::MAX {
            self.process(state, pipeline, measurement, update, sigmoid)
        } else {
            LoopControl::Stop
        }
    }

    /// Publishes a failure that the loop recovered from: its text becomes
    /// the last error of the status. The loop goes on.
    pub fn record_failure(&self, state: &mut SensorState, failure: &SensorError)
        ensures
            (final(state).last_error matches Some(text) && text@ == failure.text()),
            final(state).running == old(state).running,
            final(state).calibrated == old(state).calibrated,
            final(state).calibration_progress == old(state).calibration_progress,
            final(state).metrics == old(state).metrics,
    {
        state.last_error = Some(failure.to_string());
    }

    /// Counts a tick in which a frame was captured, whether or not it could
    /// be processed.
    pub fn count_frame(&mut self)
        requires
            old(self).frame_count() < u64::MAX,
        ensures
            final(self).frame_count() == old(self).frame_count() + 1,
            final(self).calibrator() == old(self).calibrator(),
            final(self).latencies() == old(self).latencies(),
            final(self).frame_duration() == old(self).frame_duration(),
    {
        self.frame_count = self.frame_count + 1;
    }

    /// The number of frames handled since the last refresh of the metrics.
    pub fn frames_since_refresh(&self) -> (r: u64)
        ensures
            r == self.frame_count(),
    {
        self.frame_count
    }

    /// The current mean less the mean at the last drift check is what
    /// `refresh_metrics` wants as its drift; these are the two means.
    pub fn drift_operands(&self) -> (r: (Scalar, Scalar))
        ensures
            r.0 == self.calibrator().mean,
            r.1 == self.calibrator().previous_mean,
    {
        (self.calibrator.baseline_stats().mean, self.calibrator.drift_checkpoint())
    }

    /// Refreshes the published metrics if a second or more has passed since
    /// the last refresh, and tells whether it did. `since_refresh` is that
    /// time, `frames_per_second` the frame count divided by it, and
    /// `mean_change` the current mean of the baseline less the mean at the
    /// last refresh. A refresh publishes the frame rate, the 95th percentile
    /// of the latencies noted, progress and state of the calibration and the
    /// size of the drift, and starts frame count and latencies anew.
    pub fn refresh_metrics(
        &mut self,
        state: &mut SensorState,
        since_refresh: Duration,
        frames_per_second: Scalar,
        mean_change: Scalar,
    ) -> (r: bool)
        requires
            old(self).wf(),
        ensures
            final(self).wf(),
            r == (duration_nanos(since_refresh) >= METRICS_INTERVAL_NANOS),
            final(self).frame_duration() == old(self).frame_duration(),
            final(state).running == old(state).running,
            final(state).last_error == old(state).last_error,
            final(state).metrics.dropped_frames == old(state).metrics.dropped_frames,
            !r ==> *final(self) == *old(self) && *final(state) == *old(state),
            r ==> {
                &&& final(self).frame_count() == 0
                &&& final(self).latencies() == Seq::<Duration>::empty()
                &&& final(self).calibrator() == (CalibratorModel {
                    previous_mean: old(self).calibrator().mean,
                    ..old(self).calibrator()
                })
                &&& final(state).metrics.current_fps == frames_per_second
                &&& final(state).metrics.calibration_drift == mean_change.spec_abs()
                &&& final(state).calibrated == old(self).calibrator().complete
                &&& final(state).calibration_progress.is_share()
                &&& old(self).calibrator().complete ==> final(state).calibration_progress.is_whole()
                &&& exists|elapsed_nanos: nat|
                    final(state).calibration_progress
                        == #[trigger] old(self).calibrator().progress(elapsed_nanos)
                &&& old(self).latencies().len() == 0 ==> final(state).metrics.p95_inference_latency
                    == old(state).metrics.p95_inference_latency
                &&& old(self).latencies().len() > 0 ==> is_order_statistic(
                    old(self).latencies(),
                    percentile_index(old(self).latencies().len()) as int,
                    final(state).metrics.p95_inference_latency,
                )
            },
    {
        if since_refresh.as_nanos() < METRICS_INTERVAL_NANOS {
            return false;
        }
        state.metrics.update_fps(frames_per_second, since_refresh);
        state.metrics.update_inference_latency(&self.latency_samples);
        state.calibration_progress = self.calibrator.progress();
        state.calibrated = self.calibrator.is_calibrated();
        state.metrics.calibration_drift = self.calibrator.calculate_drift(mean_change);
        self.frame_count = 0;
        self.latency_samples.clear();
        true
    }

    /// The rest after a tick that took `elapsed`: what is left of the
    /// frame's time, and none where the tick used it up.
    pub fn pace(&self, elapsed: Duration) -> (r: Option<Duration>)
        ensures
            r.is_some() == rest_nanos(elapsed, self.frame_duration()).is_some(),
            r matches Some(rest) ==> Some(duration_nanos(rest)) == rest_nanos(
                elapsed,
                self.frame_duration(),
            ),
    {
        remaining(elapsed, self.frame_duration)
    }

    /// Marks the end of the loop in the status: the sensor no longer runs.
    pub fn finish(self, state: &mut SensorState)
        ensures
            !final(state).running,
            final(state).calibrated == old(state).calibrated,
            final(state).calibration_progress == old(state).calibration_progress,
            final(state).last_error == old(state).last_error,
            final(state).metrics == old(state).metrics,
    {
        state.running = false;
    }
}

/// What is left of `budget` after `elapsed`, and none where nothing is left.
pub fn remaining(elapsed: Duration, budget: Duration) -> (r: Option<Duration>)
    ensures
        r.is_some() == rest_nanos(elapsed, budget).is_some(),
        r matches Some(rest) ==> Some(duration_nanos(rest)) == rest_nanos(elapsed, budget),
{
    if elapsed.as_nanos() < budget.as_nanos() {
        Some(budget.saturating_sub(elapsed))
    } else {
        None
    }
}

/// Whether a tick's inference took longer than the budget of 10 ms. This is
/// worth a warning and no more: the loop goes on.
pub fn exceeds_latency_budget(inference_time: Duration) -> (r: bool)
    ensures
        r == (duration_nanos(inference_time) > LATENCY_BUDGET_NANOS),
{
    inference_time.as_nanos() > LATENCY_BUDGET_NANOS
}

/// The emotion logits in the output of the classifier: its first seven
/// numbers. An output with fewer numbers fails the frame.
pub fn emotion_logits_from_output(output: &Vec<Scalar>) -> (r: Result<EmotionLogits, SensorError>)
    ensures
        r.is_ok() <==> output@.len() >= 7,
        r matches Ok(logits) ==> logits@ == output@.subrange(0, 7),
        r matches Err(e) ==> (e matches SensorError::FrameProcessing(text) && text@
            == "Insufficient output dimensions"@),
{
    if output.len() < 7 {
        return Err(
            SensorError::FrameProcessing(String::from_str("Insufficient output dimensions")),
        );
    }
    let logits: EmotionLogits = [
        output[0],
        output[1],
        output[2],
        output[3],
        output[4],
        output[5],
        output[6],
    ];
    assert(logits@ =~= output@.subrange(0, 7));
    Ok(logits)
}

} // verus!
