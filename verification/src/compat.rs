//! The older sensor interface over the newer sensor, and a mock sensor that
//! needs no hardware.

use crate::calibration::collected_share;
use crate::config::FearConfig;
use crate::config::SensorConfig;
use crate::error::CameraError;
use crate::error::FearError;
use crate::error::SensorError;
use crate::pipeline::SendOutcome;
use crate::ratio::Ratio;
use crate::scalar::Scalar;
use crate::scalar::NINE_TENTHS_BITS;
use crate::scalar::TENTH_BITS;
use crate::sensor::EmotionSensor;
use crate::sensor::LoopControl;
use crate::sensor::SensorPhase;
use crate::sensor::SensorState;
use crate::sensor::Started;
use crate::types::CameraDevice;
use crate::types::EmotionLogits;
use crate::types::FearFrame;
use crate::types::FearScore;
use std::time::Duration;
use vstd::prelude::*;
use vstd::string::*;

verus! {

/// Frames that the score channel of a sensor holds at most.
pub const SCORE_BUFFER: usize = 2;

/// Threads that a converted configuration gives to the runtime at most.
pub const THREAD_LIMIT: usize = 4;

/// Samples after which the mock sensor counts as calibrated.
pub const MOCK_TARGET: usize = 20;

/// Convert `FearConfig` to `SensorConfig`. `target_fps` is the camera's frame
/// rate as a single-precision number. The runtime gets as many threads as
/// there are processors, and four at most.
pub fn convert_fear_config_to_sensor_config(fear_config: &FearConfig, target_fps: Scalar) -> (r:
    SensorConfig)
    ensures
        (r.emotion_model_path matches Some(path) && path@ == fear_config.model_path@),
        r.onnx_threads <= THREAD_LIMIT,
        !r.freeze_calibration,
        r.camera_id == fear_config.camera.device_id,
        r.target_fps == target_fps,
        r.channel_buffer_size == 2,
        r.metrics_port == 9090,
        r.grpc_socket_path@ == "/tmp/spectre_sensor.sock"@,
{
    let processors: usize = num_cpus::get();
    SensorConfig {
        emotion_model_path: Some(fear_config.model_path.clone()),
        onnx_threads: if processors > THREAD_LIMIT {
            THREAD_LIMIT
        } else {
            processors
        },
        freeze_calibration: false,
        camera_id: fear_config.camera.device_id,
        target_fps,
        channel_buffer_size: 2,
        metrics_port: 9090,
        grpc_socket_path: String::from_str("/tmp/spectre_sensor.sock"),
    }
}

/// Convert `FearFrame` to `FearScore`: score, logits, confidence and the
/// calibration flag are carried over.
pub fn convert_fear_frame_to_fear_score(fear_frame: FearFrame) -> (r: FearScore)
    ensures
        r.value == fear_frame.fear_score,
        r.emotion_logits == fear_frame.emotion_logits,
        r.confidence == fear_frame.confidence,
        r.calibrated == fear_frame.calibrated,
{
    if fear_frame.calibrated {
        FearScore::new_calibrated(
            fear_frame.fear_score,
            fear_frame.emotion_logits,
            fear_frame.confidence,
        )
    } else {
        FearScore::new_uncalibrated(
            fear_frame.fear_score,
            fear_frame.emotion_logits,
            fear_frame.confidence,
        )
    }
}

/// The error of the older interface that stands for an error of the sensor.
pub open spec fn converted_error(sensor_error: SensorError) -> FearErrorShape {
    match sensor_error {
        SensorError::OnnxEnvironment(msg) => FearErrorShape::OnnxRuntime(msg@),
        SensorError::ModelLoading(msg) => FearErrorShape::ModelNotFound(msg@),
        SensorError::CameraInit(msg) => FearErrorShape::OnnxRuntime("Camera init: "@ + msg@),
        SensorError::FrameProcessing(msg) => FearErrorShape::OnnxRuntime(
            "Frame processing: "@ + msg@,
        ),
        SensorError::FaceDetection(_) => FearErrorShape::NoFaceDetected,
        SensorError::Calibration(_) => FearErrorShape::OnnxRuntime("Calibration error"@),
        SensorError::ChannelError => FearErrorShape::OnnxRuntime("Channel communication error"@),
        SensorError::NotInitialized => FearErrorShape::OnnxRuntime("Sensor not initialized"@),
    }
}

/// The kinds of error that a conversion gives, with their texts.
pub enum FearErrorShape {
    /// A runtime error with the given message.
    OnnxRuntime(Seq<char>),
    /// A missing model with the given message.
    ModelNotFound(Seq<char>),
    /// No face in view.
    NoFaceDetected,
}

/// The kind and the text of an error of the older interface, where it is one
/// of the kinds that a conversion gives.
pub open spec fn shape_of(error: FearError) -> Option<FearErrorShape> {
    match error {
        FearError::OnnxRuntime { message } => Some(FearErrorShape::OnnxRuntime(message@)),
        FearError::ModelNotFound { message } => Some(FearErrorShape::ModelNotFound(message@)),
        FearError::NoFaceDetected => Some(FearErrorShape::NoFaceDetected),
        _ => None,
    }
}

/// Convert `SensorError` to `FearError`.
pub fn convert_sensor_error_to_fear_error(sensor_error: SensorError) -> (r: FearError)
    ensures
        shape_of(r) == Some(converted_error(sensor_error)),
{
    match sensor_error {
        SensorError::OnnxEnvironment(msg) => FearError::OnnxRuntime { message: msg },
        SensorError::ModelLoading(msg) => FearError::model_not_found(msg.as_str()),
        SensorError::CameraInit(msg) => FearError::OnnxRuntime {
            message: String::from_str("Camera init: ").concat(msg.as_str()),
        },
        SensorError::FrameProcessing(msg) => FearError::OnnxRuntime {
            message: String::from_str("Frame processing: ").concat(msg.as_str()),
        },
        SensorError::FaceDetection(_) => FearError::NoFaceDetected,
        SensorError::Calibration(_) => FearError::OnnxRuntime {
            message: String::from_str("Calibration error"),
        },
        SensorError::ChannelError => FearError::OnnxRuntime {
            message: String::from_str("Channel communication error"),
        },
        SensorError::NotInitialized => FearError::OnnxRuntime {
            message: String::from_str("Sensor not initialized"),
        },
    }
}

/// What follows the offer of a score to a score channel: a full channel
/// loses the score and the relay goes on; a closed channel ends the relay.
pub fn after_score_send(outcome: SendOutcome) -> (r: LoopControl)
    ensures
        r == if outcome == SendOutcome::Closed {
            LoopControl::Stop
        } else {
            LoopControl::Continue
        },
{
    match outcome {
        SendOutcome::Sent => LoopControl::Continue,
        SendOutcome::Full => LoopControl::Continue,
        SendOutcome::Closed => LoopControl::Stop,
    }
}

/// The one camera that a sensor without enumeration reports.
fn single_camera(name: &str) -> (r: Vec<CameraDevice>)
    ensures
        r@.len() == 1,
        r@[0].id == 0,
        r@[0].name@ == name@,
        r@[0].resolution == (640u32, 480u32),
{
    let mut cameras: Vec<CameraDevice> = Vec::new();
    cameras.push(CameraDevice::new(0, String::from_str(name), (640, 480)));
    cameras
}

/// YuNet-based fear sensor behind the older interface.
pub struct YuNetFearSensor {
    emotion_sensor: EmotionSensor,
    relaying: bool,
}

impl YuNetFearSensor {
    /// The sensor behind the interface.
    pub closed spec fn sensor(self) -> EmotionSensor {
        self.emotion_sensor
    }

    /// Whether frames are being relayed as scores.
    pub closed spec fn relaying(self) -> bool {
        self.relaying
    }

    /// The sensor behind the interface is sound.
    pub open spec fn wf(self) -> bool {
        self.sensor().wf()
    }

    /// Create a new YuNet fear sensor with the default configuration.
    pub fn new() -> (r: Self)
        ensures
            r.wf(),
            !r.relaying(),
            r.sensor().phase() == SensorPhase::Idle,
            !r.sensor().status().calibrated,
            r.sensor().status().calibration_progress.is_nothing(),
    {
        Self { emotion_sensor: EmotionSensor::new(SensorConfig::default()), relaying: false }
    }

    /// Initialize the sensor with the given configuration, once the caller
    /// has tried to load the models; `assets` is what came of it. The sensor
    /// is made anew from the converted configuration; a failure to load is
    /// handed back as an error of the older interface.
    pub fn initialize(
        &mut self,
        config: &FearConfig,
        target_fps: Scalar,
        assets: Result<(), SensorError>,
    ) -> (r: Result<(), FearError>)
        ensures
            final(self).wf(),
            final(self).relaying() == old(self).relaying(),
            r.is_ok() == assets.is_ok(),
            assets matches Err(cause) ==> (r matches Err(e) && shape_of(e) == Some(
                converted_error(cause),
            )) && final(self).sensor().phase() == SensorPhase::Idle,
            assets.is_ok() ==> final(self).sensor().phase() == SensorPhase::Initialized,
            final(self).sensor().config().camera_id == config.camera.device_id,
            final(self).sensor().config().target_fps == target_fps,
            final(self).sensor().config().channel_buffer_size == 2,
            final(self).sensor().status().is_fresh(),
    {
        let sensor_config = convert_fear_config_to_sensor_config(config, target_fps);
        self.emotion_sensor = EmotionSensor::new(sensor_config);
        match self.emotion_sensor.initialize(assets) {
            Ok(()) => Ok(()),
            Err(e) => Err(convert_sensor_error_to_fear_error(e)),
        }
    }

    /// Start continuous fear detection: start the sensor and relay its
    /// frames as scores.
    pub fn start(&mut self, frame_duration: Duration) -> (r: Result<Started, FearError>)
        requires
            old(self).wf(),
        ensures
            final(self).wf(),
            r.is_ok() <==> old(self).sensor().phase() == SensorPhase::Initialized
                && old(self).sensor().config().channel_buffer_size > 0,
            r.is_ok() ==> final(self).relaying() && final(self).sensor().phase()
                == SensorPhase::Running && final(self).sensor().status().running,
            r matches Err(e) ==> final(self).relaying() == old(self).relaying()
                && final(self).sensor() == old(self).sensor() && shape_of(e) == Some(
                FearErrorShape::OnnxRuntime(
                    if old(self).sensor().phase() != SensorPhase::Initialized {
                        "Sensor not initialized"@
                    } else {
                        "Channel communication error"@
                    },
                ),
            ),
    {
        match self.emotion_sensor.start(frame_duration) {
            Ok(started) => {
                self.relaying = true;
                Ok(started)
            },
            Err(e) => Err(convert_sensor_error_to_fear_error(e)),
        }
    }

    /// Stop detection and cleanup resources.
    pub fn stop(&mut self) -> (r: Result<(), FearError>)
        requires
            old(self).wf(),
        ensures
            final(self).wf(),
            r.is_ok(),
            !final(self).relaying(),
            !final(self).sensor().status().running,
    {
        match self.emotion_sensor.stop() {
            Ok(()) => {
                self.relaying = false;
                Ok(())
            },
            Err(e) => Err(convert_sensor_error_to_fear_error(e)),
        }
    }

    /// Takes over what the producer loop reports of calibration, errors and
    /// metrics.
    pub fn publish(&mut self, report: SensorState)
        requires
            old(self).wf(),
        ensures
            final(self).wf(),
            final(self).relaying() == old(self).relaying(),
            final(self).sensor().phase() == old(self).sensor().phase(),
            final(self).sensor().config() == old(self).sensor().config(),
            final(self).sensor().status().running == old(self).sensor().status().running,
            final(self).sensor().status().calibration_progress == report.calibration_progress,
            final(self).sensor().status().calibrated == report.calibrated,
            final(self).sensor().status().last_error == report.last_error,
            final(self).sensor().status().metrics == report.metrics,
    {
        self.emotion_sensor.publish(report);
    }

    /// Notes that the producer loop has ended: the sensor no longer runs and
    /// relays nothing.
    pub fn finished(&mut self)
        requires
            old(self).wf(),
        ensures
            final(self).wf(),
            !final(self).relaying(),
            !final(self).sensor().status().running,
            final(self).sensor().config() == old(self).sensor().config(),
            final(self).sensor().status().calibrated == old(self).sensor().status().calibrated,
            final(self).sensor().status().calibration_progress
                == old(self).sensor().status().calibration_progress,
            final(self).sensor().phase() == if old(self).sensor().phase() == SensorPhase::Running
                || old(self).sensor().phase() == SensorPhase::Stopping {
                SensorPhase::Idle
            } else {
                old(self).sensor().phase()
            },
    {
        self.emotion_sensor.finished();
        self.relaying = false;
    }

    /// Get current sensor state: a copy of the published status.
    pub fn get_state(&self) -> (r: SensorState)
        ensures
            r.running == self.sensor().status().running,
            r.calibrated == self.sensor().status().calibrated,
            r.calibration_progress == self.sensor().status().calibration_progress,
            r.metrics.dropped_frames == self.sensor().status().metrics.dropped_frames,
            r.metrics.current_fps == self.sensor().status().metrics.current_fps,
            r.metrics.calibration_drift == self.sensor().status().metrics.calibration_drift,
            r.metrics.p95_inference_latency
                == self.sensor().status().metrics.p95_inference_latency,
            r.last_error.is_some() == self.sensor().status().last_error.is_some(),
            r.last_error matches Some(text) ==> self.sensor().status().last_error matches Some(
                published,
            ) && text@ == published@,
    {
        self.emotion_sensor.get_state()
    }

    /// Get available camera devices: one default camera.
    pub fn enumerate_cameras(&self) -> (r: Result<Vec<CameraDevice>, CameraError>)
        ensures
            (r matches Ok(cameras) && cameras@.len() == 1 && cameras@[0].id == 0
                && cameras@[0].name@ == "Default Camera"@ && cameras@[0].resolution == (
                640u32,
                480u32,
            )),
    {
        Ok(single_camera("Default Camera"))
    }

    /// Check if sensor is currently calibrated, by the published status.
    pub fn is_calibrated(&self) -> (r: bool)
        ensures
            r == self.sensor().status().calibrated,
    {
        self.emotion_sensor.get_state().calibrated
    }

    /// Get current calibration progress, by the published status.
    pub fn calibration_progress(&self) -> (r: Ratio)
        ensures
            r == self.sensor().status().calibration_progress,
    {
        self.emotion_sensor.get_state().calibration_progress
    }
}

/// Calibration of the mock sensor: a count of the scores made.
#[derive(Debug, Clone, Copy, PartialEq, Eq, Structural)]
pub struct MockCalibrationState {
    /// Whether as many scores were made as the calibration takes.
    pub calibrated: bool,
    /// The share of the target that is reached.
    pub progress: Ratio,
    /// Scores made since the sensor was initialized.
    pub samples: usize,
    /// Scores that the calibration takes.
    pub target: usize,
}

/// Mock fear sensor for testing without hardware dependencies.
pub struct MockFearSensor {
    /// The fear values that the sensor goes through, again and again.
    pub fear_sequence: Vec<Scalar>,
    /// The place in the sequence at which a new run begins.
    pub current_index: usize,
    /// The calibration as it stands.
    pub calibration_state: MockCalibrationState,
}

/// The run of a mock sensor: its place in the sequence.
pub struct MockRun {
    fear_sequence: Vec<Scalar>,
    current_index: usize,
}

/// The logits that the mock sensor makes around a fear value: a tenth for
/// every class but fear.
pub open spec fn mock_logits(fear_value: Scalar) -> EmotionLogits {
    [
        Scalar::of(TENTH_BITS),
        Scalar::of(TENTH_BITS),
        fear_value,
        Scalar::of(TENTH_BITS),
        Scalar::of(TENTH_BITS),
        Scalar::of(TENTH_BITS),
        Scalar::of(TENTH_BITS),
    ]
}

/// The step pattern: low, then high, then low again.
pub open spec fn step_values() -> Seq<Scalar> {
    seq![
        Scalar::of(0x3dcc_cccd),
        Scalar::of(0x3e4c_cccd),
        Scalar::of(0x3e99_999a),
        Scalar::of(0x3f33_3333),
        Scalar::of(0x3f4c_cccd),
        Scalar::of(0x3f66_6666),
        Scalar::of(0x3f4c_cccd),
        Scalar::of(0x3f33_3333),
        Scalar::of(0x3e99_999a),
        Scalar::of(0x3e4c_cccd),
        Scalar::of(0x3dcc_cccd),
    ]
}

impl MockCalibrationState {
    /// The state after one more score. A calibration that takes no score is
    /// complete with the first.
    pub open spec fn counted(self) -> MockCalibrationState {
        let samples = if self.samples < usize::MAX {
            (self.samples + 1) as usize
        } else {
            self.samples
        };
        MockCalibrationState {
            calibrated: samples >= self.target,
            progress: if self.target == 0 {
                Ratio::of(1, 1)
            } else {
                collected_share(samples as nat, self.target as nat)
            },
            samples,
            target: self.target,
        }
    }

    /// The state of a sensor that has made no score.
    pub open spec fn cleared(self) -> MockCalibrationState {
        MockCalibrationState {
            calibrated: false,
            progress: Ratio::of(0, 1),
            samples: 0,
            target: self.target,
        }
    }
}

impl MockFearSensor {
    /// The calibration as it stands.
    pub open spec fn calibration(self) -> MockCalibrationState {
        self.calibration_state
    }

    /// Create a new mock sensor that goes through the given fear values.
    pub fn new(fear_sequence: Vec<Scalar>) -> (r: Self)
        ensures
            r.fear_sequence@ == fear_sequence@,
            r.current_index == 0,
            r.calibration() == (MockCalibrationState {
                calibrated: false,
                progress: Ratio::of(0, 1),
                samples: 0,
                target: MOCK_TARGET,
            }),
    {
        Self {
            fear_sequence,
            current_index: 0,
            calibration_state: MockCalibrationState {
                calibrated: false,
                progress: Ratio::nothing(),
                samples: 0,
                target: MOCK_TARGET,
            },
        }
    }

    /// Create a step pattern sensor (low, high, low): the values 0.1, 0.2,
    /// 0.3, 0.7, 0.8, 0.9, 0.8, 0.7, 0.3, 0.2, 0.1.
    pub fn step_pattern() -> (r: Self)
        ensures
            r.fear_sequence@ == step_values(),
            r.current_index == 0,
            r.calibration().target == MOCK_TARGET,
            !r.calibration().calibrated,
    {
        let mut sequence: Vec<Scalar> = Vec::new();
        sequence.push(Scalar::from_bits(0x3dcc_cccd));
        sequence.push(Scalar::from_bits(0x3e4c_cccd));
        sequence.push(Scalar::from_bits(0x3e99_999a));
        sequence.push(Scalar::from_bits(0x3f33_3333));
        sequence.push(Scalar::from_bits(0x3f4c_cccd));
        sequence.push(Scalar::from_bits(0x3f66_6666));
        sequence.push(Scalar::from_bits(0x3f4c_cccd));
        sequence.push(Scalar::from_bits(0x3f33_3333));
        sequence.push(Scalar::from_bits(0x3e99_999a));
        sequence.push(Scalar::from_bits(0x3e4c_cccd));
        sequence.push(Scalar::from_bits(0x3dcc_cccd));
        assert(sequence@ =~= step_values());
        Self::new(sequence)
    }

    /// Initialize the sensor: back to the start of the sequence, with no
    /// score made.
    pub fn initialize(&mut self, _config: &FearConfig) -> (r: Result<(), FearError>)
        ensures
            r.is_ok(),
            final(self).fear_sequence@ == old(self).fear_sequence@,
            final(self).current_index == 0,
            final(self).calibration() == old(self).calibration().cleared(),
    {
        self.current_index = 0;
        self.calibration_state.calibrated = false;
        self.calibration_state.progress = Ratio::nothing();
        self.calibration_state.samples = 0;
        Ok(())
    }

    /// Start continuous fear detection: a run through the sequence from the
    /// current place on.
    pub fn start(&mut self) -> (r: Result<MockRun, FearError>)
        ensures
            *final(self) == *old(self),
            (r matches Ok(run) && run.sequence() == old(self).fear_sequence@ && run.index()
                == old(self).current_index),
    {
        Ok(MockRun { fear_sequence: self.fear_sequence.clone(), current_index: self.current_index })
    }

    /// Makes the next score of a run: the fear value at the run's place in
    /// the sequence, which starts over at its end, with mock logits around
    /// it and a confidence of 0.9. The score counts towards the calibration
    /// and is calibrated once the count has reached the target.
    pub fn next_score(&mut self, run: &mut MockRun) -> (r: FearScore)
        requires
            old(run).sequence().len() > 0,
        ensures
            final(run).sequence() == old(run).sequence(),
            final(run).index() == if old(run).index() < usize::MAX {
                old(run).index() + 1
            } else {
                0
            },
            final(self).fear_sequence == old(self).fear_sequence,
            final(self).current_index == old(self).current_index,
            final(self).calibration() == old(self).calibration().counted(),
            r.value == old(run).sequence()[old(run).index() as int % old(run).sequence().len() as int],
            r.emotion_logits == mock_logits(r.value),
            r.confidence == Scalar::of(NINE_TENTHS_BITS),
            r.calibrated == final(self).calibration().calibrated,
    {
        let len: usize = run.fear_sequence.len();
        let fear_value = run.fear_sequence[run.current_index % len];
        run.current_index = if run.current_index < usize::MAX {
            run.current_index + 1
        } else {
            0
        };
        if self.calibration_state.samples < usize::MAX {
            self.calibration_state.samples = self.calibration_state.samples + 1;
        }
        let target: usize = self.calibration_state.target;
        let samples: usize = self.calibration_state.samples;
        self.calibration_state.progress = if target == 0 {
            Ratio::whole()
        } else {
            Ratio::share(samples as u128, target as u128)
        };
        self.calibration_state.calibrated = samples >= target;
        let tenth = Scalar::from_bits(TENTH_BITS);
        let emotion_logits: EmotionLogits = [
            tenth,
            tenth,
            fear_value,
            tenth,
            tenth,
            tenth,
            tenth,
        ];
        assert(emotion_logits == mock_logits(fear_value));
        let confidence = Scalar::from_bits(NINE_TENTHS_BITS);
        if self.calibration_state.calibrated {
            FearScore::new_calibrated(fear_value, emotion_logits, confidence)
        } else {
            FearScore::new_uncalibrated(fear_value, emotion_logits, confidence)
        }
    }

    /// Stop detection and cleanup resources.
    pub fn stop(&mut self) -> (r: Result<(), FearError>)
        ensures
            r.is_ok(),
            *final(self) == *old(self),
    {
        Ok(())
    }

    /// Get available camera devices: one mock camera.
    pub fn enumerate_cameras(&self) -> (r: Result<Vec<CameraDevice>, CameraError>)
        ensures
            (r matches Ok(cameras) && cameras@.len() == 1 && cameras@[0].id == 0
                && cameras@[0].name@ == "Mock Camera"@ && cameras@[0].resolution == (
                640u32,
                480u32,
            )),
    {
        Ok(single_camera("Mock Camera"))
    }

    /// Check if sensor is currently calibrated.
    pub fn is_calibrated(&self) -> (r: bool)
        ensures
            r == self.calibration().calibrated,
    {
        self.calibration_state.calibrated
    }

    /// Get current calibration progress.
    pub fn calibration_progress(&self) -> (r: Ratio)
        ensures
            r == self.calibration().progress,
    {
        self.calibration_state.progress
    }
}

impl MockRun {
    /// The fear values that the run goes through.
    pub closed spec fn sequence(self) -> Seq<Scalar> {
        self.fear_sequence@
    }

    /// The number of scores made in this run, plus the place it began at.
    pub closed spec fn index(self) -> nat {
        self.current_index as nat
    }
}

} // verus!
