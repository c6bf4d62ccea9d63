//! The bounded frame pipeline between the producer loop and its consumers.
//!
//! Frames travel through a bounded channel of `async_channel`. The producer
//! never waits: a frame that finds the channel full is dropped and counted.
//! Frames leave in the order in which they were accepted.

use crate::types::FearFrame;
use async_channel::Receiver;
use async_channel::Sender;
use async_channel::TryRecvError;
use async_channel::TrySendError;
use vstd::prelude::*;

verus! {

/// The sending end of a channel of `async_channel`.
#[verifier::external_type_specification]
#[verifier::external_body]
#[verifier::reject_recursive_types(T)]
pub struct ExSender<T>(Sender<T>);

/// The receiving end of a channel of `async_channel`.
#[verifier::external_type_specification]
#[verifier::external_body]
#[verifier::reject_recursive_types(T)]
pub struct ExReceiver<T>(Receiver<T>);

/// The frames that wait in the channel behind a receiver, oldest first.
pub uninterp spec fn queued_frames(rx: Receiver<FearFrame>) -> Seq<FearFrame>;

/// The number of frames that the channel behind a receiver was made to hold.
pub uninterp spec fn queue_capacity(rx: Receiver<FearFrame>) -> nat;

/// Whether the channel behind a receiver is closed.
pub uninterp spec fn queue_closed(rx: Receiver<FearFrame>) -> bool;

/// What became of a frame that was offered to a channel.
#[derive(Debug, Clone, Copy, PartialEq, Eq, Structural)]
pub enum SendOutcome {
    /// The frame waits in the channel.
    Sent,
    /// The channel was full: the frame is lost.
    Full,
    /// The channel is closed: the frame is lost and no other will go in.
    Closed,
}

/// Both ends of one bounded channel, held together so that nothing else can
/// send into it, take from it or close it, and so that it closes only when it
/// is told to.
pub struct ChannelEnds {
    tx: Sender<FearFrame>,
    rx: Receiver<FearFrame>,
}

impl ChannelEnds {
    /// The frames that wait in the channel, oldest first.
    pub closed spec fn frames(self) -> Seq<FearFrame> {
        queued_frames(self.rx)
    }

    /// The number of frames that the channel holds at most.
    pub closed spec fn capacity(self) -> nat {
        queue_capacity(self.rx)
    }

    /// Whether the channel is closed.
    pub closed spec fn closed(self) -> bool {
        queue_closed(self.rx)
    }
}

/// Makes a channel with `async_channel::bounded`, which panics on a capacity
/// of zero. The new channel is open and empty and holds at most `capacity`
/// frames.
#[verifier::external_body]
fn open_channel(capacity: usize) -> (ends: ChannelEnds)
    requires
        capacity > 0,
    ensures
        queued_frames(ends.rx) == Seq::<FearFrame>::empty(),
        queue_capacity(ends.rx) == capacity,
        !queue_closed(ends.rx),
{
    let (tx, rx) = async_channel::bounded(capacity);
    ChannelEnds { tx, rx }
}

/// Offers a frame with `Sender::try_send`, which never waits. A closed
/// channel refuses the frame, whether or not it has room. An open one appends
/// the frame if there is room and hands it back, to be lost, if there is
/// none.
#[verifier::external_body]
fn channel_try_send(ends: &mut ChannelEnds, frame: FearFrame) -> (outcome: SendOutcome)
    ensures
        queue_capacity(final(ends).rx) == queue_capacity(old(ends).rx),
        queue_closed(final(ends).rx) == queue_closed(old(ends).rx),
        queue_closed(old(ends).rx) ==> outcome == SendOutcome::Closed && queued_frames(
            final(ends).rx,
        ) == queued_frames(old(ends).rx),
        !queue_closed(old(ends).rx) && queued_frames(old(ends).rx).len() < queue_capacity(
            old(ends).rx,
        ) ==> outcome == SendOutcome::Sent && queued_frames(final(ends).rx) == queued_frames(
            old(ends).rx,
        ).push(frame),
        !queue_closed(old(ends).rx) && queued_frames(old(ends).rx).len() >= queue_capacity(
            old(ends).rx,
        ) ==> outcome == SendOutcome::Full && queued_frames(final(ends).rx) == queued_frames(
            old(ends).rx,
        ),
{
    match ends.tx.try_send(frame) {
        Ok(()) => SendOutcome::Sent,
        Err(TrySendError::Full(_)) => SendOutcome::Full,
        Err(TrySendError::Closed(_)) => SendOutcome::Closed,
    }
}

/// Takes the oldest waiting frame with `Receiver::try_recv`, which never
/// waits: `None` exactly when no frame waits. Frames that wait in a closed
/// channel can still be taken.
#[verifier::external_body]
fn channel_try_recv(ends: &mut ChannelEnds) -> (taken: Option<FearFrame>)
    ensures
        queue_capacity(final(ends).rx) == queue_capacity(old(ends).rx),
        queue_closed(final(ends).rx) == queue_closed(old(ends).rx),
        queued_frames(old(ends).rx).len() == 0 ==> taken.is_none() && queued_frames(
            final(ends).rx,
        ) == queued_frames(old(ends).rx),
        queued_frames(old(ends).rx).len() > 0 ==> taken == Some(queued_frames(old(ends).rx)[0])
            && queued_frames(final(ends).rx) == queued_frames(old(ends).rx).drop_first(),
{
    match ends.rx.try_recv() {
        Ok(frame) => Some(frame),
        Err(TryRecvError::Empty) => None,
        Err(TryRecvError::Closed) => None,
    }
}

/// Closes the channel with `Receiver::close`, which tells whether this call
/// closed it. The frames that wait stay and can still be taken.
#[verifier::external_body]
fn channel_close(ends: &mut ChannelEnds) -> (closed_now: bool)
    ensures
        queue_closed(final(ends).rx),
        closed_now == !queue_closed(old(ends).rx),
        queue_capacity(final(ends).rx) == queue_capacity(old(ends).rx),
        queued_frames(final(ends).rx) == queued_frames(old(ends).rx),
{
    ends.rx.close()
}

/// A pipeline as the proofs see it: what waits in it and what was counted.
pub struct PipelineModel {
    /// The number of frames that may wait at once.
    pub capacity: nat,
    /// Whether the consumers have closed the pipeline.
    pub closed: bool,
    /// The frames that wait for a consumer, oldest first.
    pub buffered: Seq<FearFrame>,
    /// The number of frames offered while the pipeline was open.
    pub produced: nat,
    /// The number of frames lost to a full pipeline.
    pub dropped: nat,
    /// The number of frames that consumers have taken.
    pub taken: nat,
}

/// What a producer or a consumer does to a pipeline.
pub enum PipelineStep {
    /// The producer offers a frame without waiting.
    Offer(FearFrame),
    /// A consumer takes the oldest waiting frame, if one waits.
    Take,
    /// A consumer takes every frame that waits.
    Drain,
    /// The consumers close the pipeline.
    Close,
}

impl PipelineModel {
    /// An open, empty pipeline on which nothing was counted.
    pub open spec fn fresh(capacity: nat) -> PipelineModel {
        PipelineModel {
            capacity,
            closed: false,
            buffered: Seq::empty(),
            produced: 0,
            dropped: 0,
            taken: 0,
        }
    }

    /// What becomes of the next frame that is offered: a closed pipeline
    /// refuses it whether or not it has room, an open one takes it if it has
    /// room and loses it if it has none.
    pub open spec fn outcome(self) -> SendOutcome {
        if self.closed {
            SendOutcome::Closed
        } else if self.buffered.len() < self.capacity {
            SendOutcome::Sent
        } else {
            SendOutcome::Full
        }
    }

    /// The pipeline after the offer of a frame. With room the frame joins
    /// the end of the queue. Without room the new frame is the one that is
    /// lost: the waiting frames stay as they are, in their order, and the
    /// drop is counted. A closed pipeline stays as it is.
    pub open spec fn offered(self, frame: FearFrame) -> PipelineModel {
        match self.outcome() {
            SendOutcome::Sent => PipelineModel {
                buffered: self.buffered.push(frame),
                produced: self.produced + 1,
                ..self
            },
            SendOutcome::Full => PipelineModel {
                produced: self.produced + 1,
                dropped: self.dropped + 1,
                ..self
            },
            SendOutcome::Closed => self,
        }
    }

    /// The pipeline after a consumer has taken the oldest frame, if any.
    pub open spec fn took(self) -> PipelineModel {
        if self.buffered.len() == 0 {
            self
        } else {
            PipelineModel { buffered: self.buffered.drop_first(), taken: self.taken + 1, ..self }
        }
    }

    /// The pipeline after a consumer has taken every waiting frame.
    pub open spec fn drained(self) -> PipelineModel {
        PipelineModel {
            buffered: Seq::empty(),
            taken: self.taken + self.buffered.len(),
            ..self
        }
    }

    /// The pipeline after the consumers have closed it.
    pub open spec fn shut(self) -> PipelineModel {
        PipelineModel { closed: true, ..self }
    }

    /// The pipeline after one step of a producer or a consumer.
    pub open spec fn stepped(self, step: PipelineStep) -> PipelineModel {
        match step {
            PipelineStep::Offer(frame) => self.offered(frame),
            PipelineStep::Take => self.took(),
            PipelineStep::Drain => self.drained(),
            PipelineStep::Close => self.shut(),
        }
    }

    /// The pipeline after a row of steps, in their order.
    pub open spec fn ran(self, steps: Seq<PipelineStep>) -> PipelineModel
        decreases steps.len(),
    {
        if steps.len() == 0 {
            self
        } else {
            self.ran(steps.drop_last()).stepped(steps.last())
        }
    }

    /// The number of frames that were delivered into the pipeline: those
    /// that consumers have taken and those that still wait for one.
    pub open spec fn delivered(self) -> nat {
        self.taken + self.buffered.len()
    }

    /// Never more frames wait than the pipeline holds, and every frame that
    /// was offered is accounted for: dropped, taken, or still waiting.
    pub open spec fn wf(self) -> bool {
        &&& self.capacity > 0
        &&& self.buffered.len() <= self.capacity
        &&& self.produced == self.dropped + self.taken + self.buffered.len()
    }
}

/// A bounded pipeline of frames with its back-pressure accounting.
pub struct FramePipeline {
    ends: ChannelEnds,
    produced: u64,
    dropped: u64,
    taken: u64,
}

impl View for FramePipeline {
    type V = PipelineModel;

    open spec fn view(&self) -> PipelineModel {
        PipelineModel {
            capacity: self.capacity(),
            closed: self.closed(),
            buffered: self.buffered(),
            produced: self.produced(),
            dropped: self.dropped(),
            taken: self.taken(),
        }
    }
}

impl FramePipeline {
    /// The frames that wait for a consumer, oldest first.
    pub closed spec fn buffered(self) -> Seq<FearFrame> {
        self.ends.frames()
    }

    /// The number of frames that may wait at once.
    pub closed spec fn capacity(self) -> nat {
        self.ends.capacity()
    }

    /// Whether the consumers have closed the pipeline.
    pub closed spec fn closed(self) -> bool {
        self.ends.closed()
    }

    /// The number of frames that the producer has offered while the pipeline
    /// was open.
    pub closed spec fn produced(self) -> nat {
        self.produced as nat
    }

    /// The number of frames that were lost to a full pipeline.
    pub closed spec fn dropped(self) -> nat {
        self.dropped as nat
    }

    /// The number of frames that consumers have taken.
    pub closed spec fn taken(self) -> nat {
        self.taken as nat
    }

    /// The number of frames that were delivered into the pipeline: those
    /// that consumers have taken and those that still wait for one.
    pub open spec fn delivered(self) -> nat {
        self@.delivered()
    }

    /// Never more frames wait than the pipeline holds, and every frame that
    /// was offered is accounted for: dropped, taken, or still waiting.
    pub open spec fn wf(self) -> bool {
        self@.wf()
    }

    /// An open, empty pipeline that holds at most `capacity` frames; `None`
    /// for a capacity of zero.
    pub fn new(capacity: usize) -> (r: Option<Self>)
        ensures
            capacity == 0 <==> r.is_none(),
            r matches Some(p) ==> p@ == PipelineModel::fresh(capacity as nat) && p.wf(),
            r matches Some(p) ==> p.capacity() == capacity && !p.closed() && p.buffered()
                == Seq::<FearFrame>::empty() && p.produced() == 0 && p.dropped() == 0 && p.taken()
                == 0,
    {
        if capacity == 0 {
            None
        } else {
            Some(Self { ends: open_channel(capacity), produced: 0, dropped: 0, taken: 0 })
        }
    }

    /// The number of frames dropped so far.
    pub fn dropped_frames(&self) -> (r: u64)
        ensures
            r == self.dropped(),
    {
        self.dropped
    }

    /// The number of frames offered so far.
    pub fn produced_frames(&self) -> (r: u64)
        ensures
            r == self.produced(),
    {
        self.produced
    }

    /// The number of frames taken so far.
    pub fn taken_frames(&self) -> (r: u64)
        ensures
            r == self.taken(),
    {
        self.taken
    }

    /// Offers a frame without waiting. With room left the frame joins the end
    /// of the queue; from a full pipeline the frame is dropped, the dropped
    /// counter rises by one and the waiting frames stay as they are. A closed
    /// pipeline takes no offer: nothing is counted and nothing changes.
    pub fn try_send(&mut self, frame: FearFrame) -> (outcome: SendOutcome)
        requires
            old(self).wf(),
            old(self).produced() < u64::MAX,
        ensures
            final(self).wf(),
            final(self)@ == old(self)@.offered(frame),
            outcome == old(self)@.outcome(),
            final(self).capacity() == old(self).capacity(),
            final(self).closed() == old(self).closed(),
            final(self).taken() == old(self).taken(),
            outcome == if old(self).closed() {
                SendOutcome::Closed
            } else if old(self).buffered().len() < old(self).capacity() {
                SendOutcome::Sent
            } else {
                SendOutcome::Full
            },
            final(self).buffered() == if outcome == SendOutcome::Sent {
                old(self).buffered().push(frame)
            } else {
                old(self).buffered()
            },
            final(self).produced() == if outcome == SendOutcome::Closed {
                old(self).produced()
            } else {
                old(self).produced() + 1
            },
            final(self).dropped() == if outcome == SendOutcome::Full {
                old(self).dropped() + 1
            } else {
                old(self).dropped()
            },
    {
        let outcome = channel_try_send(&mut self.ends, frame);
        match outcome {
            SendOutcome::Sent => {
                self.produced = self.produced + 1;
            },
            SendOutcome::Full => {
                self.produced = self.produced + 1;
                self.dropped = self.dropped + 1;
            },
            SendOutcome::Closed => {},
        }
        outcome
    }

    /// Takes the oldest waiting frame, or `None` at once when none waits.
    pub fn try_recv(&mut self) -> (r: Option<FearFrame>)
        requires
            old(self).wf(),
        ensures
            final(self).wf(),
            final(self)@ == old(self)@.took(),
            final(self).capacity() == old(self).capacity(),
            final(self).closed() == old(self).closed(),
            final(self).produced() == old(self).produced(),
            final(self).dropped() == old(self).dropped(),
            old(self).buffered().len() == 0 ==> r.is_none() && final(self).buffered()
                == old(self).buffered() && final(self).taken() == old(self).taken(),
            old(self).buffered().len() > 0 ==> r == Some(old(self).buffered()[0])
                && final(self).buffered() == old(self).buffered().drop_first()
                && final(self).taken() == old(self).taken() + 1,
    {
        let taken = channel_try_recv(&mut self.ends);
        if taken.is_some() {
            self.taken = self.taken + 1;
        }
        taken
    }

    /// Takes every frame that waits now, oldest first, and leaves the
    /// pipeline empty.
    pub fn drain(&mut self) -> (frames: Vec<FearFrame>)
        requires
            old(self).wf(),
        ensures
            final(self).wf(),
            final(self)@ == old(self)@.drained(),
            frames@ == old(self).buffered(),
            frames@.len() <= old(self).capacity(),
            final(self).buffered() == Seq::<FearFrame>::empty(),
            final(self).capacity() == old(self).capacity(),
            final(self).closed() == old(self).closed(),
            final(self).produced() == old(self).produced(),
            final(self).dropped() == old(self).dropped(),
            final(self).taken() == old(self).taken() + frames@.len(),
    {
        let mut frames: Vec<FearFrame> = Vec::new();
        loop
            invariant
                self.wf(),
                self.capacity() == old(self).capacity(),
                self.closed() == old(self).closed(),
                self.produced() == old(self).produced(),
                self.dropped() == old(self).dropped(),
                self.taken() == old(self).taken() + frames@.len(),
                frames@ + self.buffered() == old(self).buffered(),
            ensures
                self.buffered().len() == 0,
            decreases self.buffered().len(),
        {
            let ghost before = self.buffered();
            match self.try_recv() {
                Some(frame) => {
                    frames.push(frame);
                    assert(frames@ + self.buffered() == old(self).buffered()) by {
                        assert(before == seq![frame] + before.drop_first());
                        assert(frames@ + self.buffered() =~= frames@.drop_last() + before);
                    }
                },
                None => {
                    break ;
                },
            }
        }
        assert(frames@ == old(self).buffered()) by {
            assert(self.buffered() =~= Seq::<FearFrame>::empty());
            assert(frames@ + self.buffered() =~= frames@);
        }
        assert(self.buffered() =~= Seq::<FearFrame>::empty());
        frames
    }

    /// Closes the pipeline from the consumers' side and tells whether this
    /// call closed it. The frames that wait can still be taken; the producer
    /// learns of it with its next offer.
    pub fn close(&mut self) -> (closed_now: bool)
        requires
            old(self).wf(),
        ensures
            final(self).wf(),
            final(self)@ == old(self)@.shut(),
            final(self).closed(),
            closed_now == !old(self).closed(),
            final(self).capacity() == old(self).capacity(),
            final(self).buffered() == old(self).buffered(),
            final(self).produced() == old(self).produced(),
            final(self).dropped() == old(self).dropped(),
            final(self).taken() == old(self).taken(),
    {
        channel_close(&mut self.ends)
    }

    /// Gives up the accounting and hands out the two ends of the channel, for
    /// a producer and consumers that run side by side. The frames that wait
    /// stay in the channel.
    pub fn split(self) -> (ends: (Sender<FearFrame>, Receiver<FearFrame>))
        ensures
            queued_frames(ends.1) == self.buffered(),
            queue_capacity(ends.1) == self.capacity(),
            queue_closed(ends.1) == self.closed(),
    {
        (self.ends.tx, self.ends.rx)
    }
}

/// A sound pipeline stays sound by every step.
pub proof fn lemma_step_keeps_sound(p: PipelineModel, step: PipelineStep)
    requires
        p.wf(),
    ensures
        p.stepped(step).wf(),
        p.stepped(step).capacity == p.capacity,
        p.stepped(step).dropped >= p.dropped,
        p.stepped(step).produced >= p.produced,
        p.stepped(step).delivered() >= p.delivered(),
{
}

/// Back-pressure: whatever is offered, taken and closed, in whatever order
/// and however fast, never more frames wait than the pipeline holds, the
/// count of dropped frames never falls, and it has risen by exactly the
/// frames that were offered and not delivered.
pub proof fn lemma_back_pressure(p: PipelineModel, steps: Seq<PipelineStep>)
    requires
        p.wf(),
    ensures
        p.ran(steps).wf(),
        p.ran(steps).capacity == p.capacity,
        p.ran(steps).buffered.len() <= p.capacity,
        p.ran(steps).dropped >= p.dropped,
        p.ran(steps).produced >= p.produced,
        p.ran(steps).delivered() >= p.delivered(),
        p.ran(steps).dropped - p.dropped == (p.ran(steps).produced - p.produced) - (p.ran(
            steps,
        ).delivered() - p.delivered()),
    decreases steps.len(),
{
    if steps.len() > 0 {
        lemma_back_pressure(p, steps.drop_last());
        lemma_step_keeps_sound(p.ran(steps.drop_last()), steps.last());
    }
}

/// Back-pressure from the start: a pipeline made for `capacity` frames
/// never holds more, and its dropped frames are exactly those offered and
/// not delivered, whatever was done with it.
pub proof fn lemma_back_pressure_from_start(capacity: nat, steps: Seq<PipelineStep>)
    requires
        capacity > 0,
    ensures
        PipelineModel::fresh(capacity).ran(steps).buffered.len() <= capacity,
        PipelineModel::fresh(capacity).ran(steps).dropped == PipelineModel::fresh(capacity).ran(
            steps,
        ).produced - PipelineModel::fresh(capacity).ran(steps).delivered(),
{
    lemma_back_pressure(PipelineModel::fresh(capacity), steps);
}

/// The newest frame is the one that is dropped: an offer to a full, open
/// pipeline is answered with `Full`, the frames that wait stay as they are,
/// in their order, and the count of dropped frames rises by exactly one. An
/// offer that is accepted leaves that count as it is.
pub proof fn lemma_newest_is_dropped(p: PipelineModel, frame: FearFrame)
    requires
        p.wf(),
        !p.closed,
    ensures
        p.buffered.len() == p.capacity ==> p.outcome() == SendOutcome::Full && p.offered(
            frame,
        ).buffered == p.buffered && p.offered(frame).dropped == p.dropped + 1,
        p.buffered.len() < p.capacity ==> p.outcome() == SendOutcome::Sent && p.offered(
            frame,
        ).buffered == p.buffered.push(frame) && p.offered(frame).dropped == p.dropped,
        p.offered(frame).taken == p.taken,
{
}

/// Frames leave in the order in which they were accepted: a frame that is
/// accepted waits behind every frame that waited before it, and the frame
/// that is taken is the one that waited longest.
pub proof fn lemma_first_in_first_out(p: PipelineModel, frame: FearFrame)
    requires
        p.wf(),
        p.outcome() == SendOutcome::Sent,
    ensures
        p.offered(frame).buffered.last() == frame,
        p.offered(frame).buffered.drop_last() == p.buffered,
        p.buffered.len() > 0 ==> p.offered(frame).took().buffered == p.took().buffered.push(frame),
        p.buffered.len() == 0 ==> p.offered(frame).took().buffered == p.buffered,
{
    assert(p.buffered.push(frame).drop_last() =~= p.buffered);
    if p.buffered.len() > 0 {
        assert(p.buffered.push(frame).drop_first() =~= p.buffered.drop_first().push(frame));
    } else {
        assert(p.buffered.push(frame).drop_first() =~= p.buffered);
    }
}

} // verus!
