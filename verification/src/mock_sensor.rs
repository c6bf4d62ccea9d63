//! A sensor that needs no hardware: it goes through a given row of fear
//! values, again and again, and calibrates on them like the real one.

use crate::calibration::samples_for;
use crate::calibration::FearCalibrator;
use crate::config::FearConfig;
use crate::error::CameraError;
use crate::error::FearError;
use crate::onnx_sensor::BatchLoop;
use crate::onnx_sensor::CalibrationState;
use crate::ratio::Ratio;
use crate::scalar::Scalar;
use crate::scalar::HALF_BITS;
use crate::scalar::NINE_TENTHS_BITS;
use crate::scalar::TENTH_BITS;
use crate::scalar::THREE_TENTHS_BITS;
use crate::time::duration_nanos;
use crate::types::fear_logit;
use crate::types::CameraDevice;
use crate::types::EmotionLogits;
use vstd::prelude::*;
use vstd::string::*;

verus! {

/// Frames after which a run of the mock sensor ends by itself.
pub const MOCK_FRAME_LIMIT: u64 = 1000;

/// Number of the camera that the mock sensor reports.
pub const MOCK_CAMERA_ID: u32 = 999;

/// Bit pattern of the single-precision number nearest to `0.8`.
pub const FOUR_FIFTHS_BITS: u32 = 0x3f4c_cccd;

/// The logits that the mock sensor makes around a fear value: a tenth for
/// every class but fear and neutral, and a half for neutral.
pub open spec fn mock_logits(fear_value: Scalar) -> EmotionLogits {
    [
        Scalar::of(TENTH_BITS),
        Scalar::of(TENTH_BITS),
        fear_value,
        Scalar::of(TENTH_BITS),
        Scalar::of(TENTH_BITS),
        Scalar::of(TENTH_BITS),
        Scalar::of(HALF_BITS),
    ]
}

/// The step pattern: 0.1 three times, 0.8 three times, 0.3 twice, 0.9 twice.
pub open spec fn step_values() -> Seq<Scalar> {
    seq![
        Scalar::of(TENTH_BITS),
        Scalar::of(TENTH_BITS),
        Scalar::of(TENTH_BITS),
        Scalar::of(FOUR_FIFTHS_BITS),
        Scalar::of(FOUR_FIFTHS_BITS),
        Scalar::of(FOUR_FIFTHS_BITS),
        Scalar::of(THREE_TENTHS_BITS),
        Scalar::of(THREE_TENTHS_BITS),
        Scalar::of(NINE_TENTHS_BITS),
        Scalar::of(NINE_TENTHS_BITS),
    ]
}

/// The fear value at a place of a sequence, and the neutral 0.3 where the
/// sequence is empty.
pub open spec fn value_at(sequence: Seq<Scalar>, index: int) -> Scalar {
    if sequence.len() == 0 {
        Scalar::of(THREE_TENTHS_BITS)
    } else {
        sequence[index]
    }
}

/// The place that follows a place of a sequence, back at the start after
/// the end.
pub open spec fn next_index(sequence: Seq<Scalar>, index: int) -> int {
    if sequence.len() == 0 {
        index
    } else if index + 1 >= sequence.len() {
        0
    } else {
        index + 1
    }
}

/// Mock fear sensor that generates predictable fear sequences.
pub struct MockFearSensor {
    /// The fear values that the sensor goes through.
    pub fear_sequence: Vec<Scalar>,
    /// The place in the sequence.
    pub current_index: usize,
    /// The calibrator, between initialization and start.
    pub calibrator: Option<FearCalibrator>,
    /// Whether a run was started and not stopped.
    pub running: bool,
    /// What the last run published of its calibration.
    pub calibration_state: CalibrationState,
}

/// A run of the mock sensor.
pub struct MockRun {
    /// The fear values that the run goes through.
    pub fear_sequence: Vec<Scalar>,
    /// The place of the next value.
    pub current_index: usize,
    /// The loop over the calibrator.
    pub batch: BatchLoop,
}

impl MockRun {
    /// The place lies in the sequence and the calibrator is sound.
    pub open spec fn wf(self) -> bool {
        &&& self.batch.wf()
        &&& self.fear_sequence@.len() > 0 ==> self.current_index < self.fear_sequence@.len()
    }

    /// The logits of the next tick: the fear value at the run's place in the
    /// sequence, or the neutral 0.3 for an empty sequence, with mock logits
    /// around it. The run moves on by one place and starts over at the end.
    pub fn next_logits(&mut self) -> (r: EmotionLogits)
        requires
            old(self).wf(),
        ensures
            final(self).wf(),
            final(self).fear_sequence == old(self).fear_sequence,
            final(self).batch == old(self).batch,
            r == mock_logits(value_at(old(self).fear_sequence@, old(self).current_index as int)),
            fear_logit(r) == value_at(old(self).fear_sequence@, old(self).current_index as int),
            final(self).current_index == next_index(
                old(self).fear_sequence@,
                old(self).current_index as int,
            ),
    {
        let len: usize = self.fear_sequence.len();
        let fear_value = if len == 0 {
            Scalar::from_bits(THREE_TENTHS_BITS)
        } else {
            let value = self.fear_sequence[self.current_index];
            self.current_index = if self.current_index + 1 == len {
                0
            } else {
                self.current_index + 1
            };
            value
        };
        let tenth = Scalar::from_bits(TENTH_BITS);
        let r: EmotionLogits = [
            tenth,
            tenth,
            fear_value,
            tenth,
            tenth,
            tenth,
            Scalar::from_bits(HALF_BITS),
        ];
        assert(r == mock_logits(fear_value));
        r
    }
}

impl MockFearSensor {
    /// A calibrator that the sensor holds is sound.
    pub open spec fn wf(self) -> bool {
        self.calibrator matches Some(c) ==> c.wf()
    }

    /// A mock sensor that goes through the given fear values.
    pub fn new(fear_sequence: Vec<Scalar>) -> (r: Self)
        ensures
            r.wf(),
            r.fear_sequence == fear_sequence,
            r.current_index == 0,
            r.calibrator.is_none(),
            !r.running,
            !r.calibration_state.calibrated,
            r.calibration_state.progress.is_nothing(),
    {
        Self {
            fear_sequence,
            current_index: 0,
            calibrator: None,
            running: false,
            calibration_state: CalibrationState { calibrated: false, progress: Ratio::nothing() },
        }
    }

    /// Create a mock sensor with step changes for testing.
    pub fn step_pattern() -> (r: Self)
        ensures
            r.wf(),
            r.fear_sequence@ == step_values(),
            r.current_index == 0,
            r.calibrator.is_none(),
            !r.running,
    {
        let low = Scalar::from_bits(TENTH_BITS);
        let high = Scalar::from_bits(FOUR_FIFTHS_BITS);
        let middle = Scalar::from_bits(THREE_TENTHS_BITS);
        let top = Scalar::from_bits(NINE_TENTHS_BITS);
        let mut sequence: Vec<Scalar> = Vec::new();
        sequence.push(low);
        sequence.push(low);
        sequence.push(low);
        sequence.push(high);
        sequence.push(high);
        sequence.push(high);
        sequence.push(middle);
        sequence.push(middle);
        sequence.push(top);
        sequence.push(top);
        assert(sequence@ =~= step_values());
        Self::new(sequence)
    }

    /// Initialize the sensor with a fresh calibrator for the configured
    /// calibration time and frame rate. A configuration whose calibration
    /// takes no sample is refused and leaves the sensor as it was.
    pub fn initialize(&mut self, config: &FearConfig) -> (r: Result<(), FearError>)
        requires
            old(self).wf(),
        ensures
            final(self).wf(),
            r.is_ok() <==> samples_for(
                duration_nanos(config.calibration_duration),
                config.camera.fps as nat,
            ) >= 1,
            r.is_err() ==> *final(self) == *old(self),
            r.is_ok() ==> {
                &&& final(self).fear_sequence == old(self).fear_sequence
                &&& final(self).current_index == old(self).current_index
                &&& !final(self).running
                &&& !final(self).calibration_state.calibrated
                &&& final(self).calibration_state.progress.is_nothing()
                &&& final(self).calibrator matches Some(c) && !c.calibrated() && c.samples()
                    == Seq::<Scalar>::empty()
            },
    {
        match FearCalibrator::new(config.calibration_duration, config.camera.fps) {
            Err(e) => Err(e),
            Ok(calibrator) => {
                self.calibrator = Some(calibrator);
                self.running = false;
                self.calibration_state.calibrated = false;
                self.calibration_state.progress = Ratio::nothing();
                Ok(())
            },
        }
    }

    /// Start continuous fear detection: a run from the start of the
    /// sequence, over the sensor's calibrator. A sensor that is not
    /// initialized fails and stays as it is.
    pub fn start(&mut self) -> (r: Result<MockRun, FearError>)
        requires
            old(self).wf(),
        ensures
            final(self).wf(),
            r.is_ok() <==> old(self).calibrator.is_some(),
            r matches Err(e) ==> *final(self) == *old(self) && (e matches FearError::OnnxRuntime {
                message,
            } && message@ == "Sensor not initialized"@),
            r matches Ok(run) ==> {
                &&& final(self).running
                &&& final(self).calibrator.is_none()
                &&& final(self).fear_sequence == old(self).fear_sequence
                &&& final(self).current_index == old(self).current_index
                &&& final(self).calibration_state == old(self).calibration_state
                &&& run.wf()
                &&& run.fear_sequence@ == old(self).fear_sequence@
                &&& run.current_index == 0
                &&& Some(run.batch.calibrator()) == old(self).calibrator
                &&& run.batch.frames() == 0
                &&& run.batch.limit() == MOCK_FRAME_LIMIT
            },
    {
        match self.calibrator.take() {
            None => Err(
                FearError::OnnxRuntime { message: String::from_str("Sensor not initialized") },
            ),
            Some(calibrator) => {
                self.running = true;
                Ok(
                    MockRun {
                        fear_sequence: self.fear_sequence.clone(),
                        current_index: 0,
                        batch: BatchLoop::new(calibrator, MOCK_FRAME_LIMIT),
                    },
                )
            },
        }
    }

    /// Stop detection and cleanup resources.
    pub fn stop(&mut self) -> (r: Result<(), FearError>)
        ensures
            r.is_ok(),
            !final(self).running,
            final(self).fear_sequence == old(self).fear_sequence,
            final(self).current_index == old(self).current_index,
            final(self).calibrator == old(self).calibrator,
            final(self).calibration_state == old(self).calibration_state,
    {
        self.running = false;
        Ok(())
    }

    /// Get available camera devices: one mock camera with the number 999.
    pub fn enumerate_cameras(&self) -> (r: Result<Vec<CameraDevice>, CameraError>)
        ensures
            (r matches Ok(cameras) && cameras@.len() == 1 && cameras@[0].id == MOCK_CAMERA_ID
                && cameras@[0].name@ == "Mock Camera"@ && cameras@[0].resolution == (
                640u32,
                480u32,
            )),
    {
        let mut cameras: Vec<CameraDevice> = Vec::new();
        cameras.push(CameraDevice::new(MOCK_CAMERA_ID, String::from_str("Mock Camera"), (640, 480)));
        Ok(cameras)
    }

    /// Check if sensor is currently calibrated.
    pub fn is_calibrated(&self) -> (r: bool)
        ensures
            r == self.calibration_state.calibrated,
    {
        self.calibration_state.calibrated
    }

    /// Get current calibration progress.
    pub fn calibration_progress(&self) -> (r: Ratio)
        ensures
            r == self.calibration_state.progress,
    {
        self.calibration_state.progress
    }
}

} // verus!
