//! The batch calibrator: a baseline from a fixed number of samples.
//!
//! The calibrator collects raw fear logits until it has as many as the
//! calibration time holds frames. Mean and standard deviation of the collected
//! samples are then computed by the caller's floating-point unit and handed
//! in; from then on the baseline is fixed. The calibrator decides when samples
//! are taken, when the baseline is due, which deviation is too small to divide
//! by, and what a score is before and after calibration.

use crate::error::FearError;
use crate::ratio::Ratio;
use crate::scalar::lemma_key_orders_values;
use crate::scalar::lemma_unit_bounds;
use crate::scalar::Scalar;
use crate::scalar::HALF_BITS;
use crate::scalar::HUNDREDTH_BITS;
use crate::scalar::ONE_BITS;
use crate::scalar::THREE_TENTHS_BITS;
use crate::scalar::ZERO_BITS;
use crate::time::duration_nanos;
use crate::types::fear_logit;
use crate::types::fear_logit_of;
use crate::types::EmotionLogits;
use std::time::Duration;
use vstd::prelude::*;
use vstd::string::*;

verus! {

/// Mean and population standard deviation of a set of samples, as the
/// caller's floating-point unit computed them.
#[derive(Clone, Copy, Debug, PartialEq, Eq, Structural)]
pub struct SampleStatistics {
    /// Arithmetic mean of the samples.
    pub mean: Scalar,
    /// Square root of the population variance of the samples.
    pub deviation: Scalar,
}

/// The number of samples that a calibration of the given length takes at the
/// given frame rate: the product of seconds and frames per second, rounded to
/// the nearest whole number, halves upwards.
pub open spec fn samples_for(calibration_nanos: nat, fps: nat) -> nat {
    (calibration_nanos * fps + 500_000_000) / 1_000_000_000
}

/// The standard deviation that a baseline keeps: 1 in place of a deviation
/// below 0.01, by which no score could sensibly be divided.
pub open spec fn baseline_deviation(deviation: Scalar) -> Scalar {
    if deviation.lt(Scalar::of(HUNDREDTH_BITS)) {
        Scalar::of(ONE_BITS)
    } else {
        deviation
    }
}

/// The score for a logit whose sigmoid of the z-score is `sigmoid`: the
/// neutral 0.3 before calibration, the sigmoid held between 0 and 1 after.
pub open spec fn normalized_score(calibrated: bool, sigmoid: Scalar) -> Scalar {
    if calibrated {
        sigmoid.spec_clamp(Scalar::of(ZERO_BITS), Scalar::of(ONE_BITS))
    } else {
        Scalar::of(THREE_TENTHS_BITS)
    }
}

/// The share of the wanted samples that has been collected, at most 1.
pub open spec fn collected_share(collected: nat, target: nat) -> Ratio {
    Ratio::of(
        if collected < target {
            collected
        } else {
            target
        },
        target,
    )
}

/// Implements the z-score normalization for fear calibration.
pub struct FearCalibrator {
    baseline_samples: Vec<Scalar>,
    target_samples: usize,
    mean: Scalar,
    std_dev: Scalar,
    calibrated: bool,
}

impl FearCalibrator {
    /// The samples collected so far, oldest first.
    pub closed spec fn samples(self) -> Seq<Scalar> {
        self.baseline_samples@
    }

    /// The number of samples that make the baseline.
    pub closed spec fn target(self) -> nat {
        self.target_samples as nat
    }

    /// The mean of the baseline; 0 before calibration.
    pub closed spec fn baseline_mean(self) -> Scalar {
        self.mean
    }

    /// The standard deviation of the baseline; 1 before calibration.
    pub closed spec fn baseline_std_dev(self) -> Scalar {
        self.std_dev
    }

    /// The baseline is fixed.
    pub closed spec fn calibrated(self) -> bool {
        self.calibrated
    }

    /// At least one sample is wanted, the baseline is fixed exactly when the
    /// set of samples is full, and its standard deviation is never below
    /// 0.01.
    pub open spec fn wf(self) -> bool {
        &&& self.target() >= 1
        &&& self.calibrated() == (self.samples().len() >= self.target())
        &&& !self.baseline_std_dev().lt(Scalar::of(HUNDREDTH_BITS))
    }

    /// A calibrator for a calibration of the given length at the given frame
    /// rate. A combination that asks for no sample at all is refused as a
    /// configuration error; a count beyond `usize::MAX` is held to it.
    pub fn new(calibration_duration: Duration, fps: u32) -> (r: Result<Self, FearError>)
        ensures
            r.is_ok() <==> samples_for(duration_nanos(calibration_duration), fps as nat) >= 1,
            r matches Ok(c) ==> c.wf() && c.samples() == Seq::<Scalar>::empty() && !c.calibrated()
                && c.baseline_mean() == Scalar::of(ZERO_BITS) && c.baseline_std_dev() == Scalar::of(
                ONE_BITS,
            ) && c.target() == if samples_for(duration_nanos(calibration_duration), fps as nat)
                <= usize::MAX {
                samples_for(duration_nanos(calibration_duration), fps as nat)
            } else {
                usize::MAX as nat
            },
            r matches Err(e) ==> (e matches FearError::Configuration { message } && message@
                == "calibration duration and frame rate give no sample"@),
    {
        proof {
            lemma_key_orders_values(Scalar::of(ONE_BITS), Scalar::of(HUNDREDTH_BITS));
        }
        let nanos: u128 = calibration_duration.as_nanos();
        let frames: u128 = fps as u128;
        assert(nanos * frames + 500_000_000 < u128::MAX) by (nonlinear_arith)
            requires
                nanos < 0x1_0000_0000_0000_0000 * 1_000_000_000,
                frames < 0x1_0000_0000,
        ;
        let wanted: u128 = (nanos * frames + 500_000_000) / 1_000_000_000;
        if wanted == 0 {
            return Err(
                FearError::Configuration {
                    message: String::from_str("calibration duration and frame rate give no sample"),
                },
            );
        }
        let target_samples: usize = if wanted <= usize::MAX as u128 {
            wanted as usize
        } else {
            usize::MAX
        };
        Ok(
            Self {
                baseline_samples: Vec::new(),
                target_samples,
                mean: Scalar::zero(),
                std_dev: Scalar::one(),
                calibrated: false,
            },
        )
    }

    /// Whether the next sample completes the set: the calibrator is not
    /// calibrated and lacks no more than one sample. The caller then has the
    /// statistics of the collected samples and the new one to make.
    pub fn completes_with_next(&self) -> (r: bool)
        requires
            self.wf(),
        ensures
            r == (!self.calibrated() && self.samples().len() + 1 >= self.target()),
    {
        !self.calibrated && self.baseline_samples.len() >= self.target_samples - 1
    }

    /// Add a raw emotion logit sample during the calibration period. Once
    /// calibrated the sample is ignored and nothing changes. Otherwise it
    /// joins the collected samples; with the sample that completes the set
    /// the baseline is fixed, for good, from `statistics`: the arithmetic
    /// mean and the population standard deviation of the collected samples
    /// with the new one, as the caller's floating-point unit computed them.
    /// The mean is taken as it is; a deviation below 0.01 is replaced by 1.
    /// Before the set is complete `statistics` is not read.
    pub fn add_sample(&mut self, raw_fear_logit: Scalar, statistics: SampleStatistics) -> (r:
        Result<(), FearError>)
        requires
            old(self).wf(),
        ensures
            final(self).wf(),
            r.is_ok(),
            final(self).target() == old(self).target(),
            old(self).calibrated() ==> final(self).samples() == old(self).samples()
                && final(self).calibrated() && final(self).baseline_mean()
                    == old(self).baseline_mean() && final(self).baseline_std_dev()
                    == old(self).baseline_std_dev(),
            !old(self).calibrated() ==> final(self).samples() == old(self).samples().push(
                raw_fear_logit,
            ) && final(self).calibrated() == (old(self).samples().len() + 1 >= old(self).target()),
            !old(self).calibrated() && final(self).calibrated() ==> final(self).baseline_mean()
                == statistics.mean && final(self).baseline_std_dev() == baseline_deviation(
                statistics.deviation,
            ),
            !final(self).calibrated() ==> final(self).baseline_mean() == old(self).baseline_mean()
                && final(self).baseline_std_dev() == old(self).baseline_std_dev(),
    {
        if self.calibrated {
            return Ok(());
        }
        self.baseline_samples.push(raw_fear_logit);
        if self.baseline_samples.len() >= self.target_samples {
            self.compute_baseline(statistics)
        } else {
            Ok(())
        }
    }

    /// The standard deviation that a baseline keeps of a measured one: 1 in
    /// place of a deviation below 0.01.
    pub fn kept_deviation(deviation: Scalar) -> (r: Scalar)
        ensures
            r == baseline_deviation(deviation),
            !r.lt(Scalar::of(HUNDREDTH_BITS)),
    {
        proof {
            lemma_key_orders_values(Scalar::of(ONE_BITS), Scalar::of(HUNDREDTH_BITS));
        }
        if deviation.less_than(Scalar::from_bits(HUNDREDTH_BITS)) {
            Scalar::one()
        } else {
            deviation
        }
    }

    /// Fixes the baseline from the statistics of the collected samples. The
    /// mean is taken as it is; a deviation below 0.01 is replaced by 1. With
    /// no sample at all the baseline stays open and the call fails.
    fn compute_baseline(&mut self, statistics: SampleStatistics) -> (r: Result<(), FearError>)
        ensures
            final(self).target() == old(self).target(),
            final(self).samples() == old(self).samples(),
            r.is_ok() <==> old(self).samples().len() > 0,
            r.is_ok() ==> final(self).calibrated() && final(self).baseline_mean()
                == statistics.mean && final(self).baseline_std_dev() == baseline_deviation(
                statistics.deviation,
            ) && !final(self).baseline_std_dev().lt(Scalar::of(HUNDREDTH_BITS)),
            r matches Err(e) ==> e is CalibrationIncomplete && *final(self) == *old(self),
    {
        if self.baseline_samples.len() == 0 {
            return Err(FearError::CalibrationIncomplete);
        }
        self.mean = statistics.mean;
        self.std_dev = Self::kept_deviation(statistics.deviation);
        self.calibrated = true;
        Ok(())
    }

    /// Convert raw fear logit to normalized fear score. `sigmoid` is the
    /// logistic function of the logit's z-score against the baseline, as the
    /// caller's floating-point unit computed it. Before calibration the score
    /// is the neutral 0.3 whatever the logit; afterwards it is the sigmoid,
    /// held between 0 and 1.
    pub fn normalize_fear(&self, sigmoid: Scalar) -> (r: Scalar)
        ensures
            r == normalized_score(self.calibrated(), sigmoid),
            !self.calibrated() ==> r == Scalar::of(THREE_TENTHS_BITS),
            !sigmoid.is_nan() ==> r.in_unit_interval(),
    {
        proof {
            lemma_neutral_in_unit_interval();
        }
        if !self.calibrated {
            return Scalar::from_bits(THREE_TENTHS_BITS);
        }
        sigmoid.clamp_unit()
    }

    /// Extract fear component from 7-class emotion logits.
    pub fn extract_fear_logit(emotion_logits: &EmotionLogits) -> (r: Scalar)
        ensures
            r == fear_logit(*emotion_logits),
            r == emotion_logits[2],
    {
        fear_logit_of(emotion_logits)
    }

    /// Whether the baseline is fixed.
    pub fn is_calibrated(&self) -> (r: bool)
        ensures
            r == self.calibrated(),
    {
        self.calibrated
    }

    /// The share of the wanted samples that is collected: the number of
    /// samples over the target, and 1 from the target on.
    pub fn calibration_progress(&self) -> (r: Ratio)
        requires
            self.wf(),
        ensures
            r == collected_share(self.samples().len(), self.target()),
            r.is_share(),
            r.is_whole() <==> self.calibrated(),
    {
        Ratio::share(self.baseline_samples.len() as u128, self.target_samples as u128)
    }

    /// The samples collected so far, oldest first.
    pub fn baseline_samples(&self) -> (r: &Vec<Scalar>)
        ensures
            r@ == self.samples(),
    {
        &self.baseline_samples
    }

    /// The number of samples that make the baseline.
    pub fn target_samples(&self) -> (r: usize)
        ensures
            r == self.target(),
    {
        self.target_samples
    }

    /// The mean of the baseline; 0 before calibration.
    pub fn mean(&self) -> (r: Scalar)
        ensures
            r == self.baseline_mean(),
    {
        self.mean
    }

    /// The standard deviation of the baseline; 1 before calibration.
    pub fn std_dev(&self) -> (r: Scalar)
        ensures
            r == self.baseline_std_dev(),
    {
        self.std_dev
    }
}

/// The neutral score 0.3 lies between 0 and 1.
pub proof fn lemma_neutral_in_unit_interval()
    ensures
        Scalar::of(THREE_TENTHS_BITS).in_unit_interval(),
{
    lemma_key_orders_values(Scalar::of(ZERO_BITS), Scalar::of(THREE_TENTHS_BITS));
    lemma_key_orders_values(Scalar::of(THREE_TENTHS_BITS), Scalar::of(ONE_BITS));
}

/// Neutrality before calibration: a calibrator that was given no sample is
/// not calibrated, and scores every logit at the neutral 0.3.
pub proof fn lemma_neutral_before_calibration(c: FearCalibrator, sigmoid: Scalar)
    requires
        c.wf(),
        c.samples().len() == 0,
    ensures
        !c.calibrated(),
        normalized_score(c.calibrated(), sigmoid) == Scalar::of(THREE_TENTHS_BITS),
{
}

/// Progress saturation: the progress never exceeds 1, never falls when a
/// sample is added, and is exactly 1 exactly when the calibrator is
/// calibrated.
pub proof fn lemma_progress_saturates(c: FearCalibrator, collected_before: nat, added: nat)
    requires
        c.wf(),
    ensures
        collected_share(collected_before, c.target()).is_share(),
        collected_share(collected_before, c.target()).le(
            collected_share(collected_before + added, c.target()),
        ),
        c.calibrated() <==> collected_share(c.samples().len(), c.target()).is_whole(),
{
    let t = c.target();
    let a = collected_share(collected_before, t);
    let b = collected_share(collected_before + added, t);
    assert(a.numerator <= b.numerator);
    assert(a.numerator * b.denominator <= b.numerator * a.denominator) by (nonlinear_arith)
        requires
            a.numerator <= b.numerator,
            a.denominator == b.denominator,
    ;
}

/// A baseline from samples that do not differ: a deviation of zero, like
/// every deviation below 0.01, gives a baseline with a standard deviation of
/// exactly 1, and a sigmoid of one half is scored as one half.
pub proof fn lemma_flat_baseline(deviation: Scalar)
    ensures
        deviation.lt(Scalar::of(HUNDREDTH_BITS)) ==> baseline_deviation(deviation) == Scalar::of(
            ONE_BITS,
        ),
        Scalar::of(ZERO_BITS).lt(Scalar::of(HUNDREDTH_BITS)),
        baseline_deviation(Scalar::of(ZERO_BITS)) == Scalar::of(ONE_BITS),
        normalized_score(true, Scalar::of(HALF_BITS)) == Scalar::of(HALF_BITS),
{
    lemma_key_orders_values(Scalar::of(ZERO_BITS), Scalar::of(HUNDREDTH_BITS));
    lemma_key_orders_values(Scalar::of(ZERO_BITS), Scalar::of(HALF_BITS));
    lemma_key_orders_values(Scalar::of(HALF_BITS), Scalar::of(ONE_BITS));
    lemma_unit_bounds();
}

} // verus!
