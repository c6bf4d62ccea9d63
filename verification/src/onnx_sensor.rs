//! The sensor over the batch calibrator and the loop that it runs.
//!
//! Each tick of the loop has logits to work with: where no face is in view or
//! the classifier fails, a fixed set of neutral logits stands in, so that the
//! calibrator is fed and the consumers are served whatever the camera sees.

use crate::calibration::baseline_deviation;
use crate::calibration::collected_share;
use crate::calibration::normalized_score;
use crate::calibration::samples_for;
use crate::calibration::FearCalibrator;
use crate::calibration::SampleStatistics;
use crate::config::FearConfig;
use crate::error::CameraError;
use crate::error::FearError;
use crate::pipeline::SendOutcome;
use crate::ratio::Ratio;
use crate::scalar::Scalar;
use crate::scalar::NINE_TENTHS_BITS;
use crate::sensor::LoopControl;
use crate::text::decimal;
use crate::text::decimal_text;
use crate::time::duration_nanos;
use crate::types::fear_logit;
use crate::types::fallback_logits;
use crate::types::fear_logit_of;
use crate::types::neutral_logits;
use crate::types::CameraDevice;
use crate::types::EmotionLogits;
use crate::types::FearScore;
use std::time::Duration;
use vstd::prelude::*;
use vstd::string::*;

verus! {

/// Frames after which the loop of the sensor ends by itself.
pub const FRAME_LIMIT: u64 = 10000;

/// Milliseconds that one tick of the loop lasts.
pub const TICK_MILLIS: u64 = 33;

/// Camera numbers that are probed for a camera.
pub const CAMERA_PROBES: usize = 10;

/// The logits of a tick and whether their making is worth a warning.
pub struct Resolved {
    /// The logits to go on with.
    pub emotion_logits: EmotionLogits,
    /// Whether something failed that is no matter of course.
    pub warn: bool,
}

/// The logits that a tick goes on with. What the classifier gave is taken as
/// it is. Where no face was found the neutral logits stand in, silently;
/// where anything else failed they stand in too, with a warning.
pub fn resolve_logits(outcome: Result<EmotionLogits, FearError>) -> (r: Resolved)
    ensures
        outcome matches Ok(logits) ==> r.emotion_logits == logits && !r.warn,
        outcome matches Err(e) ==> r.emotion_logits == neutral_logits() && r.warn == !(e
            is NoFaceDetected),
{
    match outcome {
        Ok(emotion_logits) => Resolved { emotion_logits, warn: false },
        Err(FearError::NoFaceDetected) => Resolved {
            emotion_logits: fallback_logits(),
            warn: false,
        },
        Err(_) => Resolved { emotion_logits: fallback_logits(), warn: true },
    }
}

/// The emotion logits in the output of the classifier, which must hold
/// exactly seven numbers.
pub fn logits_from_output(output: &Vec<Scalar>) -> (r: Result<EmotionLogits, FearError>)
    ensures
        r.is_ok() <==> output@.len() == 7,
        r matches Ok(logits) ==> logits@ == output@,
        r matches Err(e) ==> (e matches FearError::InvalidLogits { message } && message@
            == "Expected 7 emotion classes, got "@ + decimal(output@.len())),
{
    if output.len() != 7 {
        let mut message = String::from_str("Expected 7 emotion classes, got ");
        let count = decimal_text(output.len() as u64);
        message.append(count.as_str());
        return Err(FearError::InvalidLogits { message });
    }
    let logits: EmotionLogits = [
        output[0],
        output[1],
        output[2],
        output[3],
        output[4],
        output[5],
        output[6],
    ];
    assert(logits@ =~= output@);
    Ok(logits)
}

/// Shared calibration state: what the loop publishes of its calibrator.
#[derive(Debug, Clone, Copy, PartialEq, Eq, Structural)]
pub struct CalibrationState {
    /// Whether the baseline is fixed.
    pub calibrated: bool,
    /// The share of the wanted samples that is collected.
    pub progress: Ratio,
}

/// The working state of a loop over a batch calibrator.
pub struct BatchLoop {
    calibrator: FearCalibrator,
    frame_count: u64,
    frame_limit: u64,
}

impl BatchLoop {
    /// The calibrator that the loop feeds.
    pub closed spec fn calibrator(self) -> FearCalibrator {
        self.calibrator
    }

    /// The number of frames that the loop has made.
    pub closed spec fn frames(self) -> nat {
        self.frame_count as nat
    }

    /// The number of frames after which the loop ends by itself.
    pub closed spec fn limit(self) -> nat {
        self.frame_limit as nat
    }

    /// The calibrator is sound.
    pub open spec fn wf(self) -> bool {
        self.calibrator().wf()
    }

    /// A loop over the given calibrator that ends after more than
    /// `frame_limit` frames.
    pub fn new(calibrator: FearCalibrator, frame_limit: u64) -> (r: Self)
        ensures
            r.calibrator() == calibrator,
            r.frames() == 0,
            r.limit() == frame_limit,
    {
        Self { calibrator, frame_count: 0, frame_limit }
    }

    /// The number of frames that the loop has made.
    pub fn frames_made(&self) -> (r: u64)
        ensures
            r == self.frames(),
    {
        self.frame_count
    }

    /// The calibrator that the loop feeds, to read samples and baseline from.
    pub fn calibrator_ref(&self) -> (r: &FearCalibrator)
        ensures
            *r == self.calibrator(),
    {
        &self.calibrator
    }

    /// Whether the baseline falls due with the next sample: the calibrator
    /// is not calibrated and lacks no more than that sample. The caller then
    /// has the statistics of the collected samples and the new one to make.
    pub fn due_next(&self) -> (r: bool)
        requires
            self.wf(),
        ensures
            r == (!self.calibrator().calibrated() && self.calibrator().samples().len() + 1
                >= self.calibrator().target()),
    {
        self.calibrator.completes_with_next()
    }

    /// One tick of the loop, from the logits to the score. A calibrator that
    /// is not calibrated takes the fear logit as a sample; if that completes
    /// the set, the baseline is fixed from `statistics`, the mean and
    /// deviation of all samples with the new one; how far the calibration is
    /// is published. The score is the normalized one once the calibrator is
    /// calibrated, `sigmoid` being the logistic function of the fear logit's
    /// z-score against the baseline, and the raw fear logit before that.
    pub fn tick(
        &mut self,
        state: &mut CalibrationState,
        emotion_logits: EmotionLogits,
        statistics: SampleStatistics,
        sigmoid: Scalar,
    ) -> (r: FearScore)
        requires
            old(self).wf(),
        ensures
            final(self).wf(),
            final(self).frames() == old(self).frames(),
            final(self).limit() == old(self).limit(),
            final(self).calibrator().target() == old(self).calibrator().target(),
            r.emotion_logits == emotion_logits,
            r.confidence == Scalar::of(NINE_TENTHS_BITS),
            r.calibrated == final(self).calibrator().calibrated(),
            r.value == if final(self).calibrator().calibrated() {
                normalized_score(true, sigmoid)
            } else {
                fear_logit(emotion_logits)
            },
            old(self).calibrator().calibrated() ==> {
                &&& final(self).calibrator().calibrated()
                &&& final(self).calibrator().samples() == old(self).calibrator().samples()
                &&& final(self).calibrator().baseline_mean() == old(self).calibrator().baseline_mean()
                &&& final(self).calibrator().baseline_std_dev()
                    == old(self).calibrator().baseline_std_dev()
                &&& *final(state) == *old(state)
            },
            !old(self).calibrator().calibrated() ==> {
                &&& final(self).calibrator().samples() == old(self).calibrator().samples().push(
                    fear_logit(emotion_logits),
                )
                &&& final(self).calibrator().calibrated()
                    == (final(self).calibrator().samples().len() >= final(self).calibrator().target())
                &&& final(self).calibrator().calibrated()
                    ==> final(self).calibrator().baseline_mean() == statistics.mean
                    && final(self).calibrator().baseline_std_dev()
                    == baseline_deviation(statistics.deviation)
                &&& final(state).calibrated == final(self).calibrator().calibrated()
                &&& final(state).progress == collected_share(
                    final(self).calibrator().samples().len(),
                    final(self).calibrator().target(),
                )
            },
    {
        if !self.calibrator.is_calibrated() {
            let logit = fear_logit_of(&emotion_logits);
            match self.calibrator.add_sample(logit, statistics) {
                Ok(()) => {},
                Err(_) => {},
            }
            state.calibrated = self.calibrator.is_calibrated();
            state.progress = self.calibrator.calibration_progress();
        }
        self.score(emotion_logits, sigmoid)
    }

    /// The score of a tick, with a confidence of 0.9. `sigmoid` is the
    /// logistic function of the fear logit's z-score against the baseline.
    /// A calibrated loop gives the normalized score; before that the score
    /// is the raw fear logit, marked as not calibrated.
    pub fn score(&self, emotion_logits: EmotionLogits, sigmoid: Scalar) -> (r: FearScore)
        ensures
            r.emotion_logits == emotion_logits,
            r.confidence == Scalar::of(NINE_TENTHS_BITS),
            r.calibrated == self.calibrator().calibrated(),
            r.value == if self.calibrator().calibrated() {
                normalized_score(true, sigmoid)
            } else {
                fear_logit(emotion_logits)
            },
    {
        let confidence = Scalar::from_bits(NINE_TENTHS_BITS);
        if self.calibrator.is_calibrated() {
            let value = self.calibrator.normalize_fear(sigmoid);
            FearScore::new_calibrated(value, emotion_logits, confidence)
        } else {
            let value = fear_logit_of(&emotion_logits);
            FearScore::new_uncalibrated(value, emotion_logits, confidence)
        }
    }

    /// What follows the offer of a score to the score channel. A closed
    /// channel ends the loop at once. Otherwise the frame is counted, whether
    /// the score went in or was lost to a full channel, and the loop ends
    /// once more frames are counted than its limit.
    pub fn after_send(&mut self, outcome: SendOutcome) -> (r: LoopControl)
        requires
            old(self).frames() < u64::MAX,
        ensures
            final(self).calibrator() == old(self).calibrator(),
            final(self).limit() == old(self).limit(),
            final(self).frames() == if outcome == SendOutcome::Closed {
                old(self).frames()
            } else {
                old(self).frames() + 1
            },
            r == if outcome == SendOutcome::Closed || final(self).frames() > final(self).limit() {
                LoopControl::Stop
            } else {
                LoopControl::Continue
            },
    {
        match outcome {
            SendOutcome::Closed => LoopControl::Stop,
            _ => {
                self.frame_count = self.frame_count + 1;
                if self.frame_count > self.frame_limit {
                    LoopControl::Stop
                } else {
                    LoopControl::Continue
                }
            },
        }
    }
}

/// The time of one tick of the loop: 33 milliseconds.
pub fn tick_duration() -> (r: Duration)
    ensures
        duration_nanos(r) == 33_000_000,
{
    Duration::from_millis(TICK_MILLIS)
}

/// The places where the face detector's cascade file is looked for, in the
/// order in which they are tried.
pub open spec fn detector_candidates() -> Seq<Seq<char>> {
    seq![
        "haarcascade_frontalface_alt.xml"@,
        "assets/models/haarcascade_frontalface_alt.xml"@,
        "/usr/share/opencv4/haarcascades/haarcascade_frontalface_alt.xml"@,
        "/usr/local/share/opencv4/haarcascades/haarcascade_frontalface_alt.xml"@,
    ]
}

/// The place of the first candidate that exists, and the first place if none
/// does.
pub open spec fn first_found(found: [bool; 4]) -> int {
    if found[0] {
        0
    } else if found[1] {
        1
    } else if found[2] {
        2
    } else if found[3] {
        3
    } else {
        0
    }
}

/// The places where the face detector's cascade file is looked for, in the
/// order in which they are tried.
pub fn face_detector_candidates() -> (r: Vec<String>)
    ensures
        r@.len() == detector_candidates().len(),
        forall|i: int| 0 <= i < r@.len() ==> (#[trigger] r@[i])@ == detector_candidates()[i],
{
    let mut places: Vec<String> = Vec::new();
    places.push(String::from_str("haarcascade_frontalface_alt.xml"));
    places.push(String::from_str("assets/models/haarcascade_frontalface_alt.xml"));
    places.push(
        String::from_str("/usr/share/opencv4/haarcascades/haarcascade_frontalface_alt.xml"),
    );
    places.push(
        String::from_str("/usr/local/share/opencv4/haarcascades/haarcascade_frontalface_alt.xml"),
    );
    places
}

/// What a probe of one camera number found: the frame size of a camera that
/// opened, and nothing where none did.
pub type Probe = Option<(u32, u32)>;

/// Real sensor with camera capture, without its devices: what it holds
/// between initialization, start and stop.
pub struct OnnxFearSensor {
    session_loaded: bool,
    calibrator: Option<FearCalibrator>,
    face_detector_path: Option<String>,
    calibration_state: CalibrationState,
    running: bool,
}

impl OnnxFearSensor {
    /// Whether a model session is held.
    pub closed spec fn session_loaded(self) -> bool {
        self.session_loaded
    }

    /// The calibrator, while the sensor holds one.
    pub closed spec fn calibrator(self) -> Option<FearCalibrator> {
        self.calibrator
    }

    /// The path of the face detector, while the sensor holds one.
    pub closed spec fn detector_path(self) -> Option<String> {
        self.face_detector_path
    }

    /// What is published of the calibration.
    pub closed spec fn calibration(self) -> CalibrationState {
        self.calibration_state
    }

    /// Whether the loop was started and not stopped.
    pub closed spec fn running(self) -> bool {
        self.running
    }

    /// The sensor can start exactly when it holds session, detector path and
    /// a sound calibrator.
    pub closed spec fn wf(self) -> bool {
        &&& self.session_loaded ==> self.calibrator.is_some() && self.face_detector_path.is_some()
        &&& self.calibrator matches Some(c) ==> c.wf()
    }

    /// A sensor that holds nothing yet.
    pub fn new() -> (r: Self)
        ensures
            r.wf(),
            !r.session_loaded(),
            r.calibrator().is_none(),
            r.detector_path().is_none(),
            !r.calibration().calibrated,
            r.calibration().progress.is_nothing(),
            !r.running(),
    {
        Self {
            session_loaded: false,
            calibrator: None,
            face_detector_path: None,
            calibration_state: CalibrationState { calibrated: false, progress: Ratio::nothing() },
            running: false,
        }
    }

    /// Get the path to the face detector: the first of the candidates that
    /// exists, and the first candidate where none exists. `found` tells of
    /// each candidate whether it exists.
    pub fn get_face_detector_path(found: &[bool; 4]) -> (r: String)
        ensures
            r@ == detector_candidates()[first_found(*found)],
    {
        if found[0] {
            String::from_str("haarcascade_frontalface_alt.xml")
        } else if found[1] {
            String::from_str("assets/models/haarcascade_frontalface_alt.xml")
        } else if found[2] {
            String::from_str("/usr/share/opencv4/haarcascades/haarcascade_frontalface_alt.xml")
        } else if found[3] {
            String::from_str(
                "/usr/local/share/opencv4/haarcascades/haarcascade_frontalface_alt.xml",
            )
        } else {
            String::from_str("haarcascade_frontalface_alt.xml")
        }
    }

    /// Initialize the sensor once the caller has tried to load the model;
    /// `model` is what came of it. A failure to load, or a configuration
    /// whose calibration takes no sample, is handed back and leaves the
    /// sensor as it was. On success the sensor holds session, detector path
    /// and a fresh calibrator, and is neither calibrated nor running.
    pub fn initialize(
        &mut self,
        config: &FearConfig,
        model: Result<(), FearError>,
        detector_path: String,
    ) -> (r: Result<(), FearError>)
        requires
            old(self).wf(),
        ensures
            final(self).wf(),
            r.is_ok() <==> model.is_ok() && samples_for(
                duration_nanos(config.calibration_duration),
                config.camera.fps as nat,
            ) >= 1,
            r.is_err() ==> *final(self) == *old(self),
            model matches Err(e) ==> r == Err::<(), FearError>(e),
            r.is_ok() ==> {
                &&& final(self).session_loaded()
                &&& final(self).detector_path() == Some(detector_path)
                &&& !final(self).running()
                &&& !final(self).calibration().calibrated
                &&& final(self).calibration().progress.is_nothing()
                &&& final(self).calibrator() matches Some(c) && !c.calibrated() && c.samples()
                    == Seq::<Scalar>::empty()
            },
    {
        match model {
            Err(e) => Err(e),
            Ok(()) => {
                match FearCalibrator::new(config.calibration_duration, config.camera.fps) {
                    Err(e) => Err(e),
                    Ok(calibrator) => {
                        self.session_loaded = true;
                        self.face_detector_path = Some(detector_path);
                        self.calibrator = Some(calibrator);
                        self.calibration_state.calibrated = false;
                        self.calibration_state.progress = Ratio::nothing();
                        self.running = false;
                        Ok(())
                    },
                }
            },
        }
    }

    /// Start continuous fear detection: hand session and calibrator to the
    /// loop. A sensor that is not initialized fails and stays as it is.
    pub fn start(&mut self) -> (r: Result<BatchLoop, FearError>)
        requires
            old(self).wf(),
        ensures
            final(self).wf(),
            r.is_ok() <==> old(self).session_loaded(),
            r matches Err(e) ==> *final(self) == *old(self) && (e matches FearError::OnnxRuntime {
                message,
            } && message@ == "Sensor not initialized"@),
            r matches Ok(run) ==> {
                &&& final(self).running()
                &&& !final(self).session_loaded()
                &&& final(self).calibrator().is_none()
                &&& final(self).detector_path().is_none()
                &&& final(self).calibration() == old(self).calibration()
                &&& run.wf()
                &&& Some(run.calibrator()) == old(self).calibrator()
                &&& run.frames() == 0
                &&& run.limit() == FRAME_LIMIT
            },
    {
        if !self.session_loaded {
            return Err(FearError::OnnxRuntime { message: String::from_str("Sensor not initialized") });
        }
        match self.calibrator.take() {
            None => Err(
                FearError::OnnxRuntime { message: String::from_str("Sensor not initialized") },
            ),
            Some(calibrator) => {
                self.session_loaded = false;
                self.face_detector_path = None;
                self.running = true;
                Ok(BatchLoop::new(calibrator, FRAME_LIMIT))
            },
        }
    }

    /// Stop detection and cleanup resources.
    pub fn stop(&mut self) -> (r: Result<(), FearError>)
        requires
            old(self).wf(),
        ensures
            final(self).wf(),
            r.is_ok(),
            !final(self).running(),
            final(self).session_loaded() == old(self).session_loaded(),
            final(self).calibrator() == old(self).calibrator(),
            final(self).detector_path() == old(self).detector_path(),
            final(self).calibration() == old(self).calibration(),
    {
        self.running = false;
        Ok(())
    }

    /// Takes over what the loop published of its calibration.
    pub fn publish(&mut self, state: CalibrationState)
        requires
            old(self).wf(),
        ensures
            final(self).wf(),
            final(self).calibration() == state,
            final(self).running() == old(self).running(),
            final(self).session_loaded() == old(self).session_loaded(),
            final(self).calibrator() == old(self).calibrator(),
            final(self).detector_path() == old(self).detector_path(),
    {
        self.calibration_state = state;
    }

    /// Check if sensor is currently calibrated.
    pub fn is_calibrated(&self) -> (r: bool)
        ensures
            r == self.calibration().calibrated,
    {
        self.calibration_state.calibrated
    }

    /// Get current calibration progress.
    pub fn calibration_progress(&self) -> (r: Ratio)
        ensures
            r == self.calibration().progress,
    {
        self.calibration_state.progress
    }
}

/// The name that a camera is listed under.
pub open spec fn camera_name(number: nat) -> Seq<char> {
    "Camera "@ + decimal(number)
}

/// Get available camera devices from the probes of the camera numbers: one
/// device for every camera that opened, numbered and named by its place, with
/// the frame size that it reported. No camera at all is an error.
pub fn enumerate_cameras(probes: &Vec<Probe>) -> (r: Result<Vec<CameraDevice>, CameraError>)
    requires
        probes@.len() <= u32::MAX,
    ensures
        r.is_ok() <==> exists|i: int| 0 <= i < probes@.len() && probes@[i].is_some(),
        r matches Err(e) ==> e is NoCamerasAvailable,
        r matches Ok(cameras) ==> {
            &&& cameras@.len() <= probes@.len()
            &&& forall|k: int|
                0 <= k < cameras@.len() ==> {
                    let device = #[trigger] cameras@[k];
                    &&& device.id < probes@.len()
                    &&& probes@[device.id as int] == Some(device.resolution)
                    &&& device.name@ == camera_name(device.id as nat)
                }
            &&& forall|k: int, l: int|
                0 <= k < l < cameras@.len() ==> (#[trigger] cameras@[k]).id < (
                #[trigger] cameras@[l]).id
            &&& forall|i: int|
                0 <= i < probes@.len() && (#[trigger] probes@[i]).is_some() ==> exists|k: int|
                    0 <= k < cameras@.len() && (#[trigger] cameras@[k]).id == i
        },
{
    let mut cameras: Vec<CameraDevice> = Vec::new();
    let mut i: usize = 0;
    while i < probes.len()
        invariant
            i <= probes@.len() <= u32::MAX,
            cameras@.len() <= i,
            forall|k: int|
                0 <= k < cameras@.len() ==> {
                    let device = #[trigger] cameras@[k];
                    &&& device.id < i
                    &&& probes@[device.id as int] == Some(device.resolution)
                    &&& device.name@ == camera_name(device.id as nat)
                },
            forall|k: int, l: int|
                0 <= k < l < cameras@.len() ==> (#[trigger] cameras@[k]).id < (
                #[trigger] cameras@[l]).id,
            forall|j: int|
                0 <= j < i && (#[trigger] probes@[j]).is_some() ==> exists|k: int|
                    0 <= k < cameras@.len() && (#[trigger] cameras@[k]).id == j,
        decreases probes@.len() - i,
    {
        match probes[i] {
            Some(resolution) => {
                let mut name = String::from_str("Camera ");
                let number = decimal_text(i as u64);
                name.append(number.as_str());
                let ghost before = cameras@;
                cameras.push(CameraDevice::new(i as u32, name, resolution));
                assert(forall|k: int| 0 <= k < before.len() ==> cameras@[k] == before[k]);
                assert(cameras@[before.len() as int].id == i);
                assert forall|j: int|
                    0 <= j < i + 1 && (#[trigger] probes@[j]).is_some() implies exists|k: int|
                    0 <= k < cameras@.len() && (#[trigger] cameras@[k]).id == j by {
                    if j < i {
                        let k = choose|k: int| 0 <= k < before.len() && (#[trigger] before[k]).id == j;
                        assert(cameras@[k].id == j);
                    } else {
                        assert(cameras@[before.len() as int].id == j);
                    }
                }
            },
            None => {},
        }
        i = i + 1;
    }
    if cameras.len() == 0 {
        Err(CameraError::NoCamerasAvailable)
    } else {
        assert(probes@[cameras@[0].id as int].is_some());
        Ok(cameras)
    }
}

} // verus!
