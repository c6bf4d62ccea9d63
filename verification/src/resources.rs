//! What a consumer of the frames keeps: the current fear, its bucket, and
//! whether the terrain has to be rebuilt.
//!
//! A consumer reacts to buckets, not to scores: the terrain is rebuilt once
//! for every change of bucket, however many frames arrive in between.

use crate::pipeline::FramePipeline;
use crate::scalar::Scalar;
use crate::scalar::TENTH_BITS;
use crate::scalar::THREE_TENTHS_BITS;
use crate::types::bucket_of;
use crate::types::FearBucket;
use crate::types::FearFrame;
use crate::types::FearScore;
use std::time::Instant;
use vstd::prelude::*;

verus! {

/// Resource for managing fear sensor state and integration.
#[derive(Debug, Clone)]
pub struct FearState {
    /// Current normalized fear level.
    pub current_fear: Scalar,
    /// Current fear bucket for terrain updates.
    pub current_bucket: FearBucket,
    /// Previous fear bucket (to detect changes).
    pub previous_bucket: FearBucket,
    /// Whether the sensor is calibrated.
    pub calibrated: bool,
    /// Last update timestamp.
    pub last_update: Instant,
    /// Distortion intensity for shader uniforms.
    pub distortion_intensity: Scalar,
    /// Whether terrain needs rebuilding.
    pub terrain_needs_rebuild: bool,
}

/// A fear state without its time stamp.
pub struct FearSummary {
    pub current_fear: Scalar,
    pub current_bucket: FearBucket,
    pub previous_bucket: FearBucket,
    pub calibrated: bool,
    pub distortion_intensity: Scalar,
    pub terrain_needs_rebuild: bool,
}

impl FearSummary {
    /// The state before any frame: neutral fear in the low bucket.
    pub open spec fn initial() -> FearSummary {
        FearSummary {
            current_fear: Scalar::of(THREE_TENTHS_BITS),
            current_bucket: FearBucket::Low,
            previous_bucket: FearBucket::Low,
            calibrated: false,
            distortion_intensity: Scalar::of(TENTH_BITS),
            terrain_needs_rebuild: false,
        }
    }

    /// The state after a measurement: the score is taken over, the bucket
    /// follows the score, and a change of bucket asks for a rebuild.
    pub open spec fn updated(self, score: Scalar, calibrated: bool) -> FearSummary {
        FearSummary {
            current_fear: score,
            current_bucket: bucket_of(score),
            previous_bucket: self.current_bucket,
            calibrated,
            distortion_intensity: bucket_of(score).intensity(),
            terrain_needs_rebuild: self.terrain_needs_rebuild || bucket_of(score)
                != self.current_bucket,
        }
    }

    /// The state after a row of frames, taken in their order.
    pub open spec fn updated_by(self, frames: Seq<FearFrame>) -> FearSummary
        decreases frames.len(),
    {
        if frames.len() == 0 {
            self
        } else {
            self.updated_by(frames.drop_last()).updated(
                frames.last().fear_score,
                frames.last().calibrated,
            )
        }
    }

    /// The state once the terrain is rebuilt.
    pub open spec fn rebuilt(self) -> FearSummary {
        FearSummary { terrain_needs_rebuild: false, ..self }
    }
}

impl View for FearState {
    type V = FearSummary;

    open spec fn view(&self) -> FearSummary {
        FearSummary {
            current_fear: self.current_fear,
            current_bucket: self.current_bucket,
            previous_bucket: self.previous_bucket,
            calibrated: self.calibrated,
            distortion_intensity: self.distortion_intensity,
            terrain_needs_rebuild: self.terrain_needs_rebuild,
        }
    }
}

impl Default for FearState {
    fn default() -> (r: Self)
        ensures
            r@ == FearSummary::initial(),
    {
        Self {
            current_fear: Scalar::from_bits(THREE_TENTHS_BITS),
            current_bucket: FearBucket::Low,
            previous_bucket: FearBucket::Low,
            calibrated: false,
            last_update: Instant::now(),
            distortion_intensity: Scalar::from_bits(TENTH_BITS),
            terrain_needs_rebuild: false,
        }
    }
}

impl FearState {
    fn update(&mut self, score: Scalar, calibrated: bool)
        ensures
            final(self)@ == old(self)@.updated(score, calibrated),
    {
        self.current_fear = score;
        self.calibrated = calibrated;
        self.last_update = Instant::now();
        self.previous_bucket = self.current_bucket;
        self.current_bucket = FearBucket::from_score(score);
        self.distortion_intensity = self.current_bucket.distortion_intensity();
        if self.current_bucket != self.previous_bucket {
            self.terrain_needs_rebuild = true;
        }
    }

    /// Update fear state from a new frame.
    pub fn update_from_frame(&mut self, frame: FearFrame)
        ensures
            final(self)@ == old(self)@.updated(frame.fear_score, frame.calibrated),
    {
        self.update(frame.fear_score, frame.calibrated);
    }

    /// Update fear state from a fear score.
    pub fn update_from_score(&mut self, score: FearScore)
        ensures
            final(self)@ == old(self)@.updated(score.value, score.calibrated),
    {
        self.update(score.value, score.calibrated);
    }

    /// Mark terrain rebuild as complete.
    pub fn terrain_rebuilt(&mut self)
        ensures
            final(self)@ == old(self)@.rebuilt(),
            final(self).last_update == old(self).last_update,
    {
        self.terrain_needs_rebuild = false;
    }

    /// Check if terrain needs rebuilding.
    pub fn needs_terrain_rebuild(&self) -> (r: bool)
        ensures
            r == self@.terrain_needs_rebuild,
    {
        self.terrain_needs_rebuild
    }

    /// Get current distortion intensity for shader uniforms.
    pub fn get_distortion_intensity(&self) -> (r: Scalar)
        ensures
            r == self@.distortion_intensity,
    {
        self.distortion_intensity
    }
}

/// System to update fear state from sensor input: takes in, oldest first,
/// the frames that the consumer found waiting at this tick.
pub fn update_fear_system(fear_state: &mut FearState, frames: Vec<FearFrame>)
    ensures
        final(fear_state)@ == old(fear_state)@.updated_by(frames@),
{
    let ghost start = fear_state@;
    let mut i: usize = 0;
    assert(frames@.subrange(0, 0) =~= Seq::<FearFrame>::empty());
    while i < frames.len()
        invariant
            i <= frames@.len(),
            fear_state@ == start.updated_by(frames@.subrange(0, i as int)),
        decreases frames@.len() - i,
    {
        let frame = &frames[i];
        assert(frames@.subrange(0, i + 1).drop_last() =~= frames@.subrange(0, i as int));
        assert(frames@.subrange(0, i + 1).last() == frames@[i as int]);
        fear_state.update(frame.fear_score, frame.calibrated);
        i = i + 1;
    }
    assert(frames@.subrange(0, frames@.len() as int) =~= frames@);
}

/// Takes every frame that waits in the pipeline, without waiting for any,
/// and updates the fear state from them, oldest first. The pipeline is left
/// empty.
pub fn receive_fear_frames(fear_state: &mut FearState, pipeline: &mut FramePipeline)
    requires
        old(pipeline).wf(),
    ensures
        final(pipeline).wf(),
        final(fear_state)@ == old(fear_state)@.updated_by(old(pipeline).buffered()),
        final(pipeline).buffered() == Seq::<FearFrame>::empty(),
        final(pipeline).capacity() == old(pipeline).capacity(),
        final(pipeline).closed() == old(pipeline).closed(),
        final(pipeline).produced() == old(pipeline).produced(),
        final(pipeline).dropped() == old(pipeline).dropped(),
        final(pipeline).taken() == old(pipeline).taken() + old(pipeline).buffered().len(),
{
    let frames = pipeline.drain();
    update_fear_system(fear_state, frames);
}

/// System to update terrain based on fear level changes: tells whether the
/// terrain is to be rebuilt now, and takes the request as served.
pub fn update_terrain_system(fear_state: &mut FearState) -> (rebuild: bool)
    ensures
        rebuild == old(fear_state)@.terrain_needs_rebuild,
        final(fear_state)@ == old(fear_state)@.rebuilt(),
        final(fear_state).last_update == old(fear_state).last_update,
{
    if fear_state.needs_terrain_rebuild() {
        fear_state.terrain_rebuilt();
        true
    } else {
        false
    }
}

/// System to update shader uniforms based on fear level: the distortion
/// intensity that the shaders are to use.
pub fn update_shader_uniforms_system(fear_state: &FearState) -> (r: Scalar)
    ensures
        r == fear_state@.distortion_intensity,
{
    fear_state.get_distortion_intensity()
}

/// The distortion shown is always that of the current bucket, from the first
/// frame on.
pub proof fn lemma_intensity_follows_bucket(s: FearSummary, score: Scalar, calibrated: bool)
    ensures
        s.updated(score, calibrated).distortion_intensity == s.updated(
            score,
            calibrated,
        ).current_bucket.intensity(),
        s.updated(score, calibrated).current_bucket == bucket_of(score),
{
}

/// One rebuild per change of bucket: a frame asks for a rebuild exactly when
/// it changes the bucket or a rebuild is still owed, and after the rebuild a
/// frame in the same bucket asks for none.
pub proof fn lemma_rebuild_once_per_change(s: FearSummary, score: Scalar, next: Scalar, calibrated: bool)
    ensures
        s.updated(score, calibrated).terrain_needs_rebuild == (s.terrain_needs_rebuild
            || bucket_of(score) != s.current_bucket),
        !s.updated(score, calibrated).rebuilt().terrain_needs_rebuild,
        bucket_of(next) == bucket_of(score) ==> !s.updated(score, calibrated).rebuilt().updated(
            next,
            calibrated,
        ).terrain_needs_rebuild,
        bucket_of(next) != bucket_of(score) ==> s.updated(score, calibrated).rebuilt().updated(
            next,
            calibrated,
        ).terrain_needs_rebuild,
{
}

} // verus!
