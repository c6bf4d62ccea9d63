//! The events that a sensor service streams, and the answers it gives.

use crate::calibrator::BaselineStats;
use crate::error::SensorError;
use crate::ratio::Ratio;
use crate::scalar::Scalar;
use crate::sensor::EmotionSensor;
use crate::sensor::SensorState;
use crate::time::duration_nanos;
use crate::time::micros_field;
use crate::time::micros_of;
use crate::types::fear_logit;
use crate::types::EmotionLogits;
use crate::types::FearFrame;
use vstd::prelude::*;
use vstd::string::*;

verus! {

/// The kinds of event that a stream can be restricted to.
#[derive(Debug, Clone, Copy, PartialEq, Eq, Structural)]
pub enum EventType {
    /// Progress of the calibration.
    CalibrationProgress,
    /// A fear score.
    Score,
    /// A fault of the sensor.
    SensorFault,
}

/// How grave a fault is.
#[derive(Debug, Clone, Copy, PartialEq, Eq, Structural)]
pub enum FaultSeverity {
    Info,
    Warning,
    Error,
    Critical,
}

/// A fear score as it is streamed.
#[derive(Debug, Clone, Copy)]
pub struct Score {
    pub normalized_fear: Scalar,
    pub raw_fear_logit: Scalar,
    pub confidence: Scalar,
    pub calibrated: bool,
    pub emotion_logits: EmotionLogits,
    pub inference_latency_us: u64,
}

/// The baseline as it is streamed.
#[derive(Debug, Clone, Copy, PartialEq, Eq, Structural)]
pub struct BaselineReport {
    pub mean: Scalar,
    pub std_dev: Scalar,
    pub sample_count: u32,
}

impl BaselineReport {
    /// The baseline of a calibrator as it is streamed.
    pub fn of(stats: &BaselineStats) -> (r: BaselineReport)
        ensures
            r.mean == stats.mean,
            r.std_dev == stats.std_dev,
            r.sample_count == stats.sample_count,
    {
        BaselineReport {
            mean: stats.mean,
            std_dev: stats.std_dev,
            sample_count: stats.sample_count,
        }
    }
}

/// Progress of the calibration as it is streamed.
#[derive(Debug, Clone, Copy, PartialEq, Eq, Structural)]
pub struct CalibrationProgress {
    pub progress: Ratio,
    pub completed: bool,
    pub baseline: Option<BaselineReport>,
}

/// A fault as it is streamed.
#[derive(Debug, Clone)]
pub struct SensorFault {
    pub severity: FaultSeverity,
    pub message: String,
    pub error_code: String,
    pub recoverable: bool,
}

/// What an event carries.
#[derive(Debug, Clone)]
pub enum Event {
    CalibrationProgress(CalibrationProgress),
    Score(Score),
    SensorFault(SensorFault),
}

/// An event of the sensor.
#[derive(Debug, Clone)]
pub struct SensorEvent {
    pub timestamp_us: u64,
    pub event: Option<Event>,
}

/// The figures of the status as they are streamed.
#[derive(Debug, Clone, Copy, PartialEq, Eq, Structural)]
pub struct MetricsReport {
    pub current_fps: Scalar,
    pub p95_inference_latency_us: u64,
    pub dropped_frames: u64,
    pub calibration_drift: Scalar,
}

/// The answer to a request for the status.
#[derive(Debug, Clone)]
pub struct StatusResponse {
    pub running: bool,
    pub calibration: Option<CalibrationProgress>,
    pub last_error: Option<SensorFault>,
    pub metrics: Option<MetricsReport>,
}

/// What a request asks of the calibration.
#[derive(Debug, Clone, Copy, PartialEq, Eq, Structural)]
pub enum CalibrationAction {
    /// Start the calibration anew.
    StartCalibration(bool),
    /// Freeze the calibration, or unfreeze it.
    FreezeCalibration(bool),
    /// Reset the calibration.
    ResetCalibration(bool),
}

/// The answer to a request about the calibration.
#[derive(Debug, Clone)]
pub struct CalibrationResponse {
    pub success: bool,
    pub error_message: Option<String>,
}

/// The kind of an event, where it carries anything.
pub open spec fn kind_of(event: SensorEvent) -> Option<EventType> {
    match event.event {
        Some(Event::CalibrationProgress(_)) => Some(EventType::CalibrationProgress),
        Some(Event::Score(_)) => Some(EventType::Score),
        Some(Event::SensorFault(_)) => Some(EventType::SensorFault),
        None => None,
    }
}

/// Whether a stream with the given filters passes an event: without filters
/// every event passes; with filters an event passes if its kind is among
/// them, and an event that carries nothing never does.
pub open spec fn passes(event: SensorEvent, filters: Seq<EventType>) -> bool {
    filters.len() == 0 || (kind_of(event) matches Some(kind) && filters.contains(kind))
}

/// The scores among the events, in their order.
pub open spec fn scores_of(events: Seq<SensorEvent>) -> Seq<Score>
    decreases events.len(),
{
    if events.len() == 0 {
        Seq::empty()
    } else {
        match events.last().event {
            Some(Event::Score(score)) => scores_of(events.drop_last()).push(score),
            _ => scores_of(events.drop_last()),
        }
    }
}

/// The calibration reports among the events, in their order.
pub open spec fn progress_of(events: Seq<SensorEvent>) -> Seq<CalibrationProgress>
    decreases events.len(),
{
    if events.len() == 0 {
        Seq::empty()
    } else {
        match events.last().event {
            Some(Event::CalibrationProgress(progress)) => progress_of(events.drop_last()).push(
                progress,
            ),
            _ => progress_of(events.drop_last()),
        }
    }
}

/// The score that a frame is streamed as.
pub open spec fn score_of(frame: FearFrame) -> Score {
    Score {
        normalized_fear: frame.fear_score,
        raw_fear_logit: fear_logit(frame.emotion_logits),
        confidence: frame.confidence,
        calibrated: frame.calibrated,
        emotion_logits: frame.emotion_logits,
        inference_latency_us: micros_field(duration_nanos(frame.inference_latency)),
    }
}

/// The event that carries a frame as a score, stamped with the given time.
pub fn event_from_frame(frame: &FearFrame, timestamp_us: u64) -> (r: SensorEvent)
    ensures
        r.timestamp_us == timestamp_us,
        r.event matches Some(Event::Score(score)) && score == score_of(*frame),
{
    let latency: u64 = micros_of(&frame.inference_latency);
    SensorEvent {
        timestamp_us,
        event: Some(
            Event::Score(
                Score {
                    normalized_fear: frame.fear_score,
                    raw_fear_logit: frame.extract_fear_logit(),
                    confidence: frame.confidence,
                    calibrated: frame.calibrated,
                    emotion_logits: frame.emotion_logits,
                    inference_latency_us: latency,
                },
            ),
        ),
    }
}

/// The event by which a frame reaches a stream with the given filters: the
/// frame as a score, stamped with the time of the call, where the filters
/// pass scores, and nothing where they do not.
pub fn stream_event(frame: &FearFrame, filters: &Vec<EventType>) -> (r: Option<SensorEvent>)
    ensures
        r.is_some() == (filters@.len() == 0 || filters@.contains(EventType::Score)),
        r matches Some(event) ==> (event.event matches Some(Event::Score(score)) && score
            == score_of(*frame)),
{
    let event = event_from_frame(frame, frame.timestamp_us());
    if should_send_event(&event, filters) {
        Some(event)
    } else {
        None
    }
}

fn listed(filters: &Vec<EventType>, kind: EventType) -> (r: bool)
    ensures
        r == filters@.contains(kind),
{
    let mut i: usize = 0;
    while i < filters.len()
        invariant
            i <= filters@.len(),
            forall|j: int| 0 <= j < i ==> filters@[j] != kind,
        decreases filters@.len() - i,
    {
        if filters[i] == kind {
            return true;
        }
        i = i + 1;
    }
    false
}

/// Check if event should be sent based on filters.
pub fn should_send_event(event: &SensorEvent, filters: &Vec<EventType>) -> (r: bool)
    ensures
        r == passes(*event, filters@),
{
    if filters.len() == 0 {
        return true;
    }
    match &event.event {
        Some(Event::CalibrationProgress(_)) => listed(filters, EventType::CalibrationProgress),
        Some(Event::Score(_)) => listed(filters, EventType::Score),
        Some(Event::SensorFault(_)) => listed(filters, EventType::SensorFault),
        None => false,
    }
}

/// Helper function to extract scores from events: the scores that the
/// events carry, in the order of the events.
pub fn extract_scores(events: &Vec<SensorEvent>) -> (r: Vec<Score>)
    ensures
        r@ == scores_of(events@),
{
    let mut scores: Vec<Score> = Vec::new();
    let mut i: usize = 0;
    assert(events@.subrange(0, 0) =~= Seq::<SensorEvent>::empty());
    while i < events.len()
        invariant
            i <= events@.len(),
            scores@ == scores_of(events@.subrange(0, i as int)),
        decreases events@.len() - i,
    {
        assert(events@.subrange(0, i + 1).drop_last() =~= events@.subrange(0, i as int));
        assert(events@.subrange(0, i + 1).last() == events@[i as int]);
        match &events[i].event {
            Some(Event::Score(score)) => {
                scores.push(*score);
            },
            _ => {},
        }
        i = i + 1;
    }
    assert(events@.subrange(0, events@.len() as int) =~= events@);
    scores
}

/// Helper function to extract calibration progress from events: the
/// calibration reports that the events carry, in the order of the events.
pub fn extract_calibration_progress(events: &Vec<SensorEvent>) -> (r: Vec<CalibrationProgress>)
    ensures
        r@ == progress_of(events@),
{
    let mut reports: Vec<CalibrationProgress> = Vec::new();
    let mut i: usize = 0;
    assert(events@.subrange(0, 0) =~= Seq::<SensorEvent>::empty());
    while i < events.len()
        invariant
            i <= events@.len(),
            reports@ == progress_of(events@.subrange(0, i as int)),
        decreases events@.len() - i,
    {
        assert(events@.subrange(0, i + 1).drop_last() =~= events@.subrange(0, i as int));
        assert(events@.subrange(0, i + 1).last() == events@[i as int]);
        match &events[i].event {
            Some(Event::CalibrationProgress(progress)) => {
                reports.push(*progress);
            },
            _ => {},
        }
        i = i + 1;
    }
    assert(events@.subrange(0, events@.len() as int) =~= events@);
    reports
}

/// The answer to a request for the status, from the published state and
/// from the baseline that the producer loop last reported, where there is
/// one. The baseline is reported once the sensor is calibrated and not
/// before. The last error is reported as a recoverable fault.
pub fn status_response(state: &SensorState, baseline: Option<BaselineReport>) -> (r:
    StatusResponse)
    ensures
        r.running == state.running,
        r.calibration == Some(
            CalibrationProgress {
                progress: state.calibration_progress,
                completed: state.calibrated,
                baseline: if state.calibrated {
                    baseline
                } else {
                    None
                },
            },
        ),
        r.metrics == Some(
            MetricsReport {
                current_fps: state.metrics.current_fps,
                p95_inference_latency_us: micros_field(
                    duration_nanos(state.metrics.p95_inference_latency),
                ),
                dropped_frames: state.metrics.dropped_frames,
                calibration_drift: state.metrics.calibration_drift,
            },
        ),
        r.last_error.is_some() == state.last_error.is_some(),
        (r.last_error matches Some(fault) ==> state.last_error matches Some(text) && fault.message@
            == text@ && fault.severity == FaultSeverity::Error && fault.error_code@
            == "SENSOR_ERROR"@ && fault.recoverable),
{
    let baseline = if state.calibrated {
        baseline
    } else {
        None
    };
    let last_error = match &state.last_error {
        Some(text) => Some(
            SensorFault {
                severity: FaultSeverity::Error,
                message: text.clone(),
                error_code: String::from_str("SENSOR_ERROR"),
                recoverable: true,
            },
        ),
        None => None,
    };
    StatusResponse {
        running: state.running,
        calibration: Some(
            CalibrationProgress {
                progress: state.calibration_progress,
                completed: state.calibrated,
                baseline,
            },
        ),
        last_error,
        metrics: Some(
            MetricsReport {
                current_fps: state.metrics.current_fps,
                p95_inference_latency_us: micros_of(&state.metrics.p95_inference_latency),
                dropped_frames: state.metrics.dropped_frames,
                calibration_drift: state.metrics.calibration_drift,
            },
        ),
    }
}

/// Control calibration: starting and resetting both start the calibrator
/// over, freezing freezes or unfreezes it. A request without an action
/// changes nothing and is answered as a failure.
pub fn control_calibration(sensor: &mut EmotionSensor, action: Option<CalibrationAction>) -> (r:
    CalibrationResponse)
    requires
        old(sensor).wf(),
    ensures
        final(sensor).wf(),
        r.success == action.is_some(),
        final(sensor).phase() == old(sensor).phase(),
        final(sensor).status() == old(sensor).status(),
        final(sensor).config() == old(sensor).config(),
        action.is_some() ==> r.error_message.is_none(),
        action.is_none() ==> *final(sensor) == *old(sensor) && (r.error_message matches Some(text)
            && text@ == "No action specified"@),
        final(sensor).calibrator() == match old(sensor).calibrator() {
            None => None,
            Some(c) => Some(
                match action {
                    Some(CalibrationAction::StartCalibration(_)) => c.restarted(),
                    Some(CalibrationAction::ResetCalibration(_)) => c.restarted(),
                    Some(CalibrationAction::FreezeCalibration(freeze)) => if freeze {
                        c.froze()
                    } else {
                        c.unfroze()
                    },
                    None => c,
                },
            ),
        },
{
    let result: Result<(), SensorError> = match action {
        Some(CalibrationAction::StartCalibration(_)) => sensor.reset_calibration(),
        Some(CalibrationAction::FreezeCalibration(freeze)) => sensor.control_calibration(freeze),
        Some(CalibrationAction::ResetCalibration(_)) => sensor.reset_calibration(),
        None => {
            return CalibrationResponse {
                success: false,
                error_message: Some(String::from_str("No action specified")),
            };
        },
    };
    match result {
        Ok(()) => CalibrationResponse { success: true, error_message: None },
        Err(e) => CalibrationResponse { success: false, error_message: Some(e.to_string()) },
    }
}

} // verus!
