//! The adaptive calibrator: a baseline that keeps following its samples.
//!
//! During an initial period the baseline is the running mean and deviation of
//! all samples seen. Once the period has passed and enough samples were seen,
//! the calibrator is calibrated for good and follows new samples by an
//! exponential moving average. The arithmetic of both rules is done by the
//! caller's floating-point unit; the calibrator decides which rule applies,
//! keeps the deviation from falling below its floor, counts, and guards the
//! baseline against samples while frozen.

use crate::calibration::lemma_neutral_in_unit_interval;
use crate::calibration::normalized_score;
use crate::calibration::SampleStatistics;
use crate::error::CalibrationError;
use crate::ratio::Ratio;
use crate::scalar::lemma_key_orders_values;
use crate::scalar::Scalar;
use crate::scalar::ONE_BITS;
use crate::scalar::TENTH_BITS;
use crate::scalar::THREE_TENTHS_BITS;
use crate::scalar::TWENTIETH_BITS;
use crate::scalar::ZERO_BITS;
use crate::time::duration_nanos;
use crate::time::nanos_limit;
use std::time::Duration;
use std::time::Instant;
use vstd::prelude::*;
use vstd::string::*;

verus! {

/// Samples that the initial calibration takes at least.
pub const MINIMUM_SAMPLES: u32 = 30;

/// Baseline statistics for calibration.
#[derive(Debug, Clone)]
pub struct BaselineStats {
    /// Current mean of fear logits.
    pub mean: Scalar,
    /// Current standard deviation.
    pub std_dev: Scalar,
    /// Number of samples processed.
    pub sample_count: u32,
    /// Last update timestamp.
    pub last_update: Instant,
}

impl Default for BaselineStats {
    fn default() -> (r: Self)
        ensures
            r.mean == Scalar::of(ZERO_BITS),
            r.std_dev == Scalar::of(ONE_BITS),
            r.sample_count == 0,
    {
        Self {
            mean: Scalar::zero(),
            std_dev: Scalar::one(),
            sample_count: 0,
            last_update: Instant::now(),
        }
    }
}

/// The rule by which a sample changes the baseline.
#[derive(Debug, Clone, Copy, PartialEq, Eq, Structural)]
pub enum UpdateRule {
    /// The calibrator is frozen: the sample is refused.
    Refused,
    /// The sample is no finite number: it is passed over.
    Skipped,
    /// The first sample is the mean itself, with a deviation of 1.
    First,
    /// Running mean and variance over all samples seen so far.
    Running,
    /// Exponential moving average of mean and variance.
    Smoothing,
}

/// The state of an adaptive calibrator, apart from its clock readings.
pub struct CalibratorModel {
    /// Mean of the baseline.
    pub mean: Scalar,
    /// Standard deviation of the baseline.
    pub std_dev: Scalar,
    /// Number of samples taken.
    pub sample_count: nat,
    /// Weight of a new sample in the moving average.
    pub alpha: Scalar,
    /// Whether samples are refused.
    pub frozen: bool,
    /// Samples that the initial calibration takes at least.
    pub min_samples: nat,
    /// Length of the initial period in nanoseconds.
    pub period_nanos: nat,
    /// Whether the initial calibration is complete.
    pub complete: bool,
    /// Mean at the last drift check.
    pub previous_mean: Scalar,
}

/// A sample as it is offered to a calibrator: the logit, the mean and
/// deviation that the rule for it gives, and the time since the calibration
/// began.
pub struct Offer {
    /// The fear logit.
    pub fear_logit: Scalar,
    /// Mean and deviation by the rule that applies.
    pub update: SampleStatistics,
    /// Nanoseconds since the calibration began.
    pub elapsed_nanos: nat,
}

/// A deviation held to the floor of 0.1; what is no number gives way to it.
pub open spec fn floored_deviation(deviation: Scalar) -> Scalar {
    deviation.spec_max(Scalar::of(TENTH_BITS))
}

/// A weight for the moving average lies strictly between 0 and 1.
pub open spec fn valid_alpha(alpha: Scalar) -> bool {
    Scalar::of(ZERO_BITS).lt(alpha) && alpha.lt(Scalar::of(ONE_BITS))
}

/// A count raised by one, and held at the largest count there is.
pub open spec fn counted(count: nat) -> nat {
    if count < u32::MAX {
        count + 1
    } else {
        count
    }
}

impl CalibratorModel {
    /// The state of a calibrator that has seen nothing.
    pub open spec fn fresh(period_nanos: nat, alpha: Scalar) -> CalibratorModel {
        CalibratorModel {
            mean: Scalar::of(ZERO_BITS),
            std_dev: Scalar::of(ONE_BITS),
            sample_count: 0,
            alpha,
            frozen: false,
            min_samples: MINIMUM_SAMPLES as nat,
            period_nanos,
            complete: false,
            previous_mean: Scalar::of(ZERO_BITS),
        }
    }

    /// The rule that applies to the next sample.
    pub open spec fn rule_for(self, fear_logit: Scalar) -> UpdateRule {
        if self.frozen {
            UpdateRule::Refused
        } else if !fear_logit.is_finite() {
            UpdateRule::Skipped
        } else if self.complete {
            UpdateRule::Smoothing
        } else if counted(self.sample_count) == 1 {
            UpdateRule::First
        } else {
            UpdateRule::Running
        }
    }

    /// The state after a sample, where `update` holds the mean and deviation
    /// that the rule for this sample gives, and `elapsed_nanos` is the time
    /// since the calibration began.
    pub open spec fn sampled(
        self,
        fear_logit: Scalar,
        update: SampleStatistics,
        elapsed_nanos: nat,
    ) -> CalibratorModel {
        match self.rule_for(fear_logit) {
            UpdateRule::Refused => self,
            UpdateRule::Skipped => self,
            UpdateRule::Smoothing => CalibratorModel {
                mean: update.mean,
                std_dev: floored_deviation(update.deviation),
                sample_count: counted(self.sample_count),
                ..self
            },
            UpdateRule::First => CalibratorModel {
                mean: fear_logit,
                std_dev: Scalar::of(ONE_BITS),
                sample_count: counted(self.sample_count),
                ..self
            }.settled(elapsed_nanos),
            UpdateRule::Running => CalibratorModel {
                mean: update.mean,
                std_dev: floored_deviation(update.deviation),
                sample_count: counted(self.sample_count),
                ..self
            }.settled(elapsed_nanos),
        }
    }

    /// Mean and deviation of the baseline after the next sample, whenever
    /// it comes: they can be told before the sample is taken.
    pub open spec fn baseline_after(
        self,
        fear_logit: Scalar,
        update: SampleStatistics,
    ) -> SampleStatistics {
        match self.rule_for(fear_logit) {
            UpdateRule::Refused => SampleStatistics { mean: self.mean, deviation: self.std_dev },
            UpdateRule::Skipped => SampleStatistics { mean: self.mean, deviation: self.std_dev },
            UpdateRule::First => SampleStatistics {
                mean: fear_logit,
                deviation: Scalar::of(ONE_BITS),
            },
            UpdateRule::Running => SampleStatistics {
                mean: update.mean,
                deviation: floored_deviation(update.deviation),
            },
            UpdateRule::Smoothing => SampleStatistics {
                mean: update.mean,
                deviation: floored_deviation(update.deviation),
            },
        }
    }

    /// The state after a row of samples, offered one after the other.
    pub open spec fn sampled_each(self, offers: Seq<Offer>) -> CalibratorModel
        decreases offers.len(),
    {
        if offers.len() == 0 {
            self
        } else {
            self.sampled_each(offers.drop_last()).sampled(
                offers.last().fear_logit,
                offers.last().update,
                offers.last().elapsed_nanos,
            )
        }
    }

    /// The initial calibration ends as soon as the initial period has passed
    /// and enough samples were taken; the mean of that moment is the first
    /// checkpoint for the drift.
    pub open spec fn settled(self, elapsed_nanos: nat) -> CalibratorModel {
        if elapsed_nanos >= self.period_nanos && self.sample_count >= self.min_samples {
            CalibratorModel { complete: true, previous_mean: self.mean, ..self }
        } else {
            self
        }
    }

    /// The state with samples refused.
    pub open spec fn froze(self) -> CalibratorModel {
        CalibratorModel { frozen: true, ..self }
    }

    /// The state with samples taken again.
    pub open spec fn unfroze(self) -> CalibratorModel {
        CalibratorModel { frozen: false, ..self }
    }

    /// The state of a calibrator that starts over with its settings.
    pub open spec fn restarted(self) -> CalibratorModel {
        CalibratorModel {
            mean: Scalar::of(ZERO_BITS),
            std_dev: Scalar::of(ONE_BITS),
            sample_count: 0,
            frozen: false,
            complete: false,
            previous_mean: Scalar::of(ZERO_BITS),
            ..self
        }
    }

    /// The progress of the initial calibration: the smaller of the share of
    /// the initial period that has passed and the share of the minimum
    /// samples that were taken, and 1 once the calibration is complete.
    pub open spec fn progress(self, elapsed_nanos: nat) -> Ratio {
        let by_time = Ratio::of(
            if elapsed_nanos < self.period_nanos {
                elapsed_nanos
            } else {
                self.period_nanos
            },
            self.period_nanos,
        );
        let by_samples = Ratio::of(
            if self.sample_count < self.min_samples {
                self.sample_count
            } else {
                self.min_samples
            },
            self.min_samples,
        );
        if self.complete {
            Ratio::of(1, 1)
        } else if by_time.le(by_samples) {
            by_time
        } else {
            by_samples
        }
    }

    /// The settings are in their ranges, and the standard deviation of the
    /// baseline is a number of at least 0.1.
    pub open spec fn wf(self) -> bool {
        &&& self.min_samples == MINIMUM_SAMPLES
        &&& 0 < self.period_nanos < nanos_limit()
        &&& self.sample_count <= u32::MAX
        &&& valid_alpha(self.alpha)
        &&& Scalar::of(TENTH_BITS).le(self.std_dev)
    }
}

/// Adaptive fear calibrator with EMA updates.
pub struct AdaptiveCalibrator {
    baseline: BaselineStats,
    alpha: Scalar,
    frozen: bool,
    min_samples: u32,
    initial_period: Duration,
    start_time: Instant,
    initial_complete: bool,
    previous_mean: Scalar,
}

impl View for AdaptiveCalibrator {
    type V = CalibratorModel;

    closed spec fn view(&self) -> CalibratorModel {
        CalibratorModel {
            mean: self.baseline.mean,
            std_dev: self.baseline.std_dev,
            sample_count: self.baseline.sample_count as nat,
            alpha: self.alpha,
            frozen: self.frozen,
            min_samples: self.min_samples as nat,
            period_nanos: duration_nanos(self.initial_period),
            complete: self.initial_complete,
            previous_mean: self.previous_mean,
        }
    }
}

impl AdaptiveCalibrator {
    /// The time of the last sample taken, or of the creation or reset.
    pub closed spec fn last_update(self) -> Instant {
        self.baseline.last_update
    }

    /// Create a new adaptive calibrator. An initial period of no length and a
    /// weight that does not lie strictly between 0 and 1 are refused.
    pub fn new(initial_period: Duration, alpha: Scalar) -> (r: Result<Self, CalibrationError>)
        ensures
            r.is_ok() <==> duration_nanos(initial_period) > 0 && valid_alpha(alpha),
            r matches Ok(c) ==> c@ == CalibratorModel::fresh(duration_nanos(initial_period), alpha)
                && c@.wf(),
            r matches Err(e) ==> (e matches CalibrationError::InvalidParameters { reason }
                && reason@ == if duration_nanos(initial_period) == 0 {
                "Initial period must be positive"@
            } else {
                "Alpha must be between 0 and 1"@
            }),
    {
        proof {
            lemma_floor_holds(alpha);
        }
        if initial_period.as_nanos() == 0 {
            return Err(
                CalibrationError::InvalidParameters {
                    reason: String::from_str("Initial period must be positive"),
                },
            );
        }
        if !(Scalar::zero().less_than(alpha) && alpha.less_than(Scalar::one())) {
            return Err(
                CalibrationError::InvalidParameters {
                    reason: String::from_str("Alpha must be between 0 and 1"),
                },
            );
        }
        Ok(
            Self {
                baseline: BaselineStats::default(),
                alpha,
                frozen: false,
                min_samples: MINIMUM_SAMPLES,
                initial_period,
                start_time: Instant::now(),
                initial_complete: false,
                previous_mean: Scalar::zero(),
            },
        )
    }

    /// Create with the default weight of 0.05.
    pub fn with_defaults(initial_period: Duration) -> (r: Result<Self, CalibrationError>)
        ensures
            r.is_ok() <==> duration_nanos(initial_period) > 0,
            r matches Ok(c) ==> c@ == CalibratorModel::fresh(
                duration_nanos(initial_period),
                Scalar::of(TWENTIETH_BITS),
            ) && c@.wf(),
            r matches Err(e) ==> (e matches CalibrationError::InvalidParameters { reason }
                && reason@ == "Initial period must be positive"@),
    {
        proof {
            lemma_default_alpha_valid();
        }
        Self::new(initial_period, Scalar::from_bits(TWENTIETH_BITS))
    }

    /// The rule by which the next sample would change the baseline. It tells
    /// the caller which arithmetic to do before handing the sample in.
    pub fn update_rule(&self, fear_logit: Scalar) -> (r: UpdateRule)
        ensures
            r == self@.rule_for(fear_logit),
    {
        if self.frozen {
            UpdateRule::Refused
        } else if !fear_logit.finite() {
            UpdateRule::Skipped
        } else if self.initial_complete {
            UpdateRule::Smoothing
        } else if self.baseline.sample_count == 0 {
            UpdateRule::First
        } else {
            UpdateRule::Running
        }
    }

    /// Mean and deviation that the baseline will have once the sample is
    /// taken with the given update, whenever that is. The caller needs them
    /// for the sigmoid of the frame that the sample belongs to.
    pub fn baseline_after(&self, fear_logit: Scalar, update: SampleStatistics) -> (r:
        SampleStatistics)
        ensures
            r == self@.baseline_after(fear_logit, update),
            forall|elapsed_nanos: nat|
                (#[trigger] self@.sampled(fear_logit, update, elapsed_nanos)).mean == r.mean
                    && self@.sampled(fear_logit, update, elapsed_nanos).std_dev == r.deviation,
    {
        match self.update_rule(fear_logit) {
            UpdateRule::Refused => SampleStatistics {
                mean: self.baseline.mean,
                deviation: self.baseline.std_dev,
            },
            UpdateRule::Skipped => SampleStatistics {
                mean: self.baseline.mean,
                deviation: self.baseline.std_dev,
            },
            UpdateRule::First => SampleStatistics { mean: fear_logit, deviation: Scalar::one() },
            UpdateRule::Running => SampleStatistics {
                mean: update.mean,
                deviation: update.deviation.max(Scalar::from_bits(TENTH_BITS)),
            },
            UpdateRule::Smoothing => SampleStatistics {
                mean: update.mean,
                deviation: update.deviation.max(Scalar::from_bits(TENTH_BITS)),
            },
        }
    }

    /// Add a new fear logit sample, at the time that the clock shows.
    /// `update` holds the mean and the deviation that the rule for this
    /// sample gives. A frozen calibrator refuses the sample; a sample that is
    /// no finite number is passed over without a trace: nothing is counted
    /// and the time of the last update stays. Whether this sample
    /// ends the initial calibration depends on the reading of the clock.
    pub fn add_sample(&mut self, fear_logit: Scalar, update: SampleStatistics) -> (r: Result<
        (),
        CalibrationError,
    >)
        requires
            old(self)@.wf(),
        ensures
            final(self)@.wf(),
            exists|elapsed_nanos: nat| final(self)@ == #[trigger] old(self)@.sampled(
                fear_logit,
                update,
                elapsed_nanos,
            ),
            r is Err <==> old(self)@.rule_for(fear_logit) is Refused,
            r matches Err(e) ==> e is Frozen,
            old(self)@.rule_for(fear_logit) is Refused || old(self)@.rule_for(fear_logit)
                is Skipped ==> final(self)@ == old(self)@ && final(self).last_update()
                    == old(self).last_update(),
    {
        let elapsed = self.start_time.elapsed();
        self.add_sample_at(fear_logit, update, elapsed)
    }

    /// Add a new fear logit sample, `elapsed` after the calibration began.
    /// A frozen calibrator fails with `Frozen` and stays as it is. A sample
    /// that is no finite number is passed over: nothing changes and nothing
    /// is counted. Any other sample is counted and changes the baseline by
    /// the rule that applies: the first sample is the mean, with a deviation
    /// of 1; later samples bring the mean and the deviation of `update`, the
    /// deviation held to the floor of 0.1. The initial calibration is complete,
    /// for good, with the first sample that comes when the initial period has
    /// passed and the minimum of samples is reached.
    pub fn add_sample_at(
        &mut self,
        fear_logit: Scalar,
        update: SampleStatistics,
        elapsed: Duration,
    ) -> (r: Result<(), CalibrationError>)
        requires
            old(self)@.wf(),
        ensures
            final(self)@.wf(),
            final(self)@ == old(self)@.sampled(fear_logit, update, duration_nanos(elapsed)),
            r is Err <==> old(self)@.rule_for(fear_logit) is Refused,
            r matches Err(e) ==> e is Frozen,
            old(self)@.rule_for(fear_logit) is Refused || old(self)@.rule_for(fear_logit)
                is Skipped ==> final(self).last_update() == old(self).last_update(),
    {
        proof {
            lemma_floor_holds(update.deviation);
        }
        if self.frozen {
            return Err(CalibrationError::Frozen);
        }
        if !fear_logit.finite() {
            return Ok(());
        }
        let first: bool = self.baseline.sample_count == 0;
        if self.baseline.sample_count < u32::MAX {
            self.baseline.sample_count = self.baseline.sample_count + 1;
        }
        self.baseline.last_update = Instant::now();
        if !self.initial_complete {
            if first {
                self.baseline.mean = fear_logit;
                self.baseline.std_dev = Scalar::one();
            } else {
                self.baseline.mean = update.mean;
                self.baseline.std_dev = update.deviation.max(Scalar::from_bits(TENTH_BITS));
            }
            let period_over: bool = elapsed.as_nanos() >= self.initial_period.as_nanos();
            if period_over && self.baseline.sample_count >= self.min_samples {
                self.initial_complete = true;
                self.previous_mean = self.baseline.mean;
            }
        } else {
            self.baseline.mean = update.mean;
            self.baseline.std_dev = update.deviation.max(Scalar::from_bits(TENTH_BITS));
        }
        Ok(())
    }

    /// Normalize a fear logit. `sigmoid` is the logistic function of the
    /// logit's z-score against the baseline, as the caller's floating-point
    /// unit computed it. Until the initial calibration is complete the score
    /// is the neutral 0.3; afterwards it is the sigmoid, held between 0 and 1.
    pub fn normalize_fear(&self, sigmoid: Scalar) -> (r: Scalar)
        ensures
            r == normalized_score(self@.complete, sigmoid),
            !self@.complete ==> r == Scalar::of(THREE_TENTHS_BITS),
            !sigmoid.is_nan() ==> r.in_unit_interval(),
    {
        proof {
            lemma_neutral_in_unit_interval();
        }
        if !self.is_calibrated() {
            return Scalar::from_bits(THREE_TENTHS_BITS);
        }
        sigmoid.clamp_unit()
    }

    /// Check if calibration is complete.
    pub fn is_calibrated(&self) -> (r: bool)
        ensures
            r == self@.complete,
    {
        self.initial_complete
    }

    /// Get calibration progress at the time that the clock shows.
    pub fn progress(&self) -> (r: Ratio)
        requires
            self@.wf(),
        ensures
            exists|elapsed_nanos: nat| r == #[trigger] self@.progress(elapsed_nanos),
            r.is_share(),
            self@.complete ==> r.is_whole(),
            self@.sample_count == 0 && !self@.complete ==> r.is_nothing(),
    {
        let elapsed = self.start_time.elapsed();
        self.progress_at(elapsed)
    }

    /// Get calibration progress `elapsed` after the calibration began: the
    /// smaller of the share of the initial period that has passed and the
    /// share of the minimum samples taken, never more than 1, and exactly 1
    /// once calibrated.
    pub fn progress_at(&self, elapsed: Duration) -> (r: Ratio)
        requires
            self@.wf(),
        ensures
            r == self@.progress(duration_nanos(elapsed)),
            r.is_share(),
            self@.complete ==> r.is_whole(),
            self@.sample_count == 0 && !self@.complete ==> r.is_nothing(),
    {
        if self.initial_complete {
            return Ratio::whole();
        }
        let by_time = Ratio::share(elapsed.as_nanos(), self.initial_period.as_nanos());
        let by_samples = Ratio::share(self.baseline.sample_count as u128, self.min_samples as u128);
        assert(by_time.numerator * by_samples.denominator <= u128::MAX && by_samples.numerator
            * by_time.denominator <= u128::MAX) by (nonlinear_arith)
            requires
                by_time.numerator <= by_time.denominator,
                by_time.denominator < 0x1_0000_0000_0000_0000 * 1_000_000_000,
                by_samples.numerator <= by_samples.denominator,
                by_samples.denominator == 30,
        ;
        if by_time.numerator * by_samples.denominator <= by_samples.numerator
            * by_time.denominator {
            assert(by_samples.numerator == 0 ==> by_time.numerator == 0) by (nonlinear_arith)
                requires
                    by_time.numerator * by_samples.denominator <= by_samples.numerator
                        * by_time.denominator,
                    by_samples.denominator == 30,
            ;
            by_time
        } else {
            by_samples
        }
    }

    /// Freeze calibration to prevent further updates.
    pub fn freeze(&mut self)
        ensures
            final(self)@ == old(self)@.froze(),
            final(self).last_update() == old(self).last_update(),
    {
        self.frozen = true;
    }

    /// Unfreeze calibration to allow updates.
    pub fn unfreeze(&mut self)
        ensures
            final(self)@ == old(self)@.unfroze(),
            final(self).last_update() == old(self).last_update(),
    {
        self.frozen = false;
    }

    /// Reset calibration to initial state: no sample seen, not calibrated,
    /// not frozen, the clock started anew. The settings stay.
    pub fn reset(&mut self)
        ensures
            final(self)@ == old(self)@.restarted(),
            old(self)@.wf() ==> final(self)@.wf(),
    {
        proof {
            lemma_floor_holds(self@.std_dev);
        }
        self.baseline = BaselineStats::default();
        self.start_time = Instant::now();
        self.initial_complete = false;
        self.frozen = false;
        self.previous_mean = Scalar::zero();
    }

    /// Get current baseline statistics.
    pub fn baseline_stats(&self) -> (r: &BaselineStats)
        ensures
            r.mean == self@.mean,
            r.std_dev == self@.std_dev,
            r.sample_count == self@.sample_count,
            r.last_update == self.last_update(),
    {
        &self.baseline
    }

    /// The mean at the last drift check.
    pub fn drift_checkpoint(&self) -> (r: Scalar)
        ensures
            r == self@.previous_mean,
    {
        self.previous_mean
    }

    /// Calculate calibration drift: the size of the change in mean since the
    /// last check. `difference` is the current mean less the mean at the last
    /// check, as the caller's floating-point unit computed it; its size is
    /// the drift. The current mean becomes the new checkpoint.
    pub fn calculate_drift(&mut self, difference: Scalar) -> (r: Scalar)
        ensures
            r == difference.spec_abs(),
            final(self)@ == (CalibratorModel { previous_mean: old(self)@.mean, ..old(self)@ }),
            final(self).last_update() == old(self).last_update(),
    {
        self.previous_mean = self.baseline.mean;
        difference.abs()
    }

    /// Check if calibration is frozen.
    pub fn is_frozen(&self) -> (r: bool)
        ensures
            r == self@.frozen,
    {
        self.frozen
    }

    /// Get the EMA alpha parameter.
    pub fn alpha(&self) -> (r: Scalar)
        ensures
            r == self@.alpha,
    {
        self.alpha
    }

    /// Set a new EMA alpha parameter, which must lie strictly between 0 and
    /// 1. Any other weight is refused and the old one stays.
    pub fn set_alpha(&mut self, alpha: Scalar) -> (r: Result<(), CalibrationError>)
        ensures
            r.is_ok() <==> valid_alpha(alpha),
            r.is_ok() ==> final(self)@ == (CalibratorModel { alpha, ..old(self)@ }),
            r matches Err(e) ==> final(self)@ == old(self)@ && (e matches
                CalibrationError::InvalidParameters { reason } && reason@ ==
                "Alpha must be between 0 and 1"@),
            final(self).last_update() == old(self).last_update(),
            old(self)@.wf() ==> final(self)@.wf(),
    {
        if !(Scalar::zero().less_than(alpha) && alpha.less_than(Scalar::one())) {
            return Err(
                CalibrationError::InvalidParameters {
                    reason: String::from_str("Alpha must be between 0 and 1"),
                },
            );
        }
        self.alpha = alpha;
        Ok(())
    }
}

/// The floor holds: a deviation that was held to the floor is a number of
/// at least 0.1, and so is the deviation of 1 that a baseline starts with.
pub proof fn lemma_floor_holds(deviation: Scalar)
    ensures
        Scalar::of(TENTH_BITS).le(floored_deviation(deviation)),
        Scalar::of(TENTH_BITS).le(Scalar::of(ONE_BITS)),
{
    lemma_key_orders_values(Scalar::of(TENTH_BITS), Scalar::of(ONE_BITS));
    lemma_key_orders_values(Scalar::of(TENTH_BITS), deviation);
}

/// The default weight of 0.05 lies strictly between 0 and 1.
pub proof fn lemma_default_alpha_valid()
    ensures
        valid_alpha(Scalar::of(TWENTIETH_BITS)),
{
    lemma_key_orders_values(Scalar::of(ZERO_BITS), Scalar::of(TWENTIETH_BITS));
    lemma_key_orders_values(Scalar::of(TWENTIETH_BITS), Scalar::of(ONE_BITS));
}

/// Freezing: a frozen calibrator refuses every sample and stays exactly as it
/// is, however many samples are offered; after unfreezing, a sample is no
/// longer refused, and a finite one is counted.
pub proof fn lemma_freeze_holds(
    c: CalibratorModel,
    first: Scalar,
    second: Scalar,
    update: SampleStatistics,
    elapsed_nanos: nat,
)
    requires
        c.wf(),
    ensures
        c.froze().rule_for(first) is Refused,
        c.froze().sampled(first, update, elapsed_nanos) == c.froze(),
        c.froze().sampled(first, update, elapsed_nanos).sampled(second, update, elapsed_nanos)
            == c.froze(),
        c.froze().froze() == c.froze(),
        !(c.froze().unfroze().rule_for(first) is Refused),
        first.is_finite() && c.sample_count < u32::MAX ==> c.froze().unfroze().sampled(
            first,
            update,
            elapsed_nanos,
        ).sample_count == c.sample_count + 1,
{
}

/// A frozen calibrator stays exactly as it is, whatever samples are offered
/// and however many.
pub proof fn lemma_frozen_stays(c: CalibratorModel, offers: Seq<Offer>)
    requires
        c.frozen,
    ensures
        c.sampled_each(offers) == c,
    decreases offers.len(),
{
    if offers.len() > 0 {
        lemma_frozen_stays(c, offers.drop_last());
    }
}

/// A sound calibrator stays sound by whatever is done with it: by a sample,
/// by freezing and unfreezing, and by starting over. The standard deviation
/// of its baseline is at least 0.1 throughout.
pub proof fn lemma_steps_keep_sound(
    c: CalibratorModel,
    fear_logit: Scalar,
    update: SampleStatistics,
    elapsed_nanos: nat,
)
    requires
        c.wf(),
    ensures
        c.sampled(fear_logit, update, elapsed_nanos).wf(),
        c.froze().wf(),
        c.unfroze().wf(),
        c.restarted().wf(),
        Scalar::of(TENTH_BITS).le(c.sampled(fear_logit, update, elapsed_nanos).std_dev),
{
    lemma_floor_holds(update.deviation);
}

/// The initial calibration never reopens by itself: a sample leaves a
/// calibrated calibrator calibrated, and only a restart returns it to
/// collecting.
pub proof fn lemma_calibration_is_final(
    c: CalibratorModel,
    fear_logit: Scalar,
    update: SampleStatistics,
    elapsed_nanos: nat,
)
    requires
        c.complete,
    ensures
        c.sampled(fear_logit, update, elapsed_nanos).complete,
        c.froze().complete,
        c.unfroze().complete,
        !c.restarted().complete && !c.restarted().frozen && c.restarted().sample_count == 0,
{
}

/// The deviation of the baseline never falls below the floor of 0.1 by a
/// sample that was taken.
pub proof fn lemma_deviation_floor(
    c: CalibratorModel,
    fear_logit: Scalar,
    update: SampleStatistics,
    elapsed_nanos: nat,
)
    requires
        !(c.rule_for(fear_logit) is Refused),
        !(c.rule_for(fear_logit) is Skipped),
    ensures
        Scalar::of(TENTH_BITS).le(c.sampled(fear_logit, update, elapsed_nanos).std_dev),
{
    lemma_key_orders_values(Scalar::of(TENTH_BITS), Scalar::of(ONE_BITS));
    lemma_key_orders_values(Scalar::of(TENTH_BITS), update.deviation);
}

} // verus!
