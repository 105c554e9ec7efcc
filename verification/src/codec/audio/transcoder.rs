//! Audio transcoder: how its decoder, resampler and encoder are configured
//! from the input and output parameters, which stage an item goes to next
//! (decoded frames with a negative timestamp are dropped while a packet is
//! transcoded) and the order in which the stages are flushed, the queue of
//! transcoded packets and the rule that new input is refused until every
//! transcoded packet has been taken.
use crate::codec::audio::encoder::{AudioEncoder, AudioEncoderBuilder};
use crate::codec::audio::resampler::AudioResampler;
use crate::error::Error;
use crate::codec::audio::{AudioFrame, ChannelLayout, SampleFormat};
use crate::codec::CodecError;
use crate::time::TimeBase;
use std::collections::VecDeque;
use vstd::prelude::*;

verus! {

/// The audio parameters of one side of a transcoder (what the transcoder
/// reads of the codec parameters).
#[derive(Copy, Clone)]
pub struct AudioParameters {
    pub sample_format: SampleFormat,
    pub sample_rate: u32,
    pub channel_layout: ChannelLayout,
}

/// Builder for an audio transcoder from given input parameters to given
/// output parameters.
pub struct AudioTranscoderBuilder {
    input: AudioParameters,
    output: AudioParameters,
}

impl AudioTranscoderBuilder {
    /// The input parameters (model).
    pub closed spec fn spec_input(self) -> AudioParameters {
        self.input
    }

    /// The output parameters (model).
    pub closed spec fn spec_output(self) -> AudioParameters {
        self.output
    }

    /// Create a builder for a transcoder from `input` to `output`.
    pub fn new(input: AudioParameters, output: AudioParameters) -> (r: AudioTranscoderBuilder)
        ensures
            r.spec_input() == input,
            r.spec_output() == output,
    {
        AudioTranscoderBuilder { input, output }
    }

    /// Time base of the decoder: one tick per input sample.
    pub fn decoder_time_base(&self) -> (r: TimeBase)
        ensures
            r.spec_num() == 1,
            r.spec_den() == self.spec_input().sample_rate,
    {
        TimeBase::new(1, self.input.sample_rate)
    }

    /// Configuration of the encoder: the output parameters, with one tick per
    /// output sample as its time base.
    pub fn encoder(&self) -> (r: Result<AudioEncoder, Error>)
        ensures
            r matches Ok(enc) && {
                &&& enc.spec_time_base().spec_num() == 1
                &&& enc.spec_time_base().spec_den() == self.spec_output().sample_rate
                &&& enc.spec_sample_format() == self.spec_output().sample_format
                &&& enc.spec_sample_rate() == self.spec_output().sample_rate
                &&& enc.spec_channel_layout() == self.spec_output().channel_layout
            },
    {
        let out = self.output;
        AudioEncoderBuilder::from_parameters(
            out.sample_format,
            out.sample_rate,
            out.channel_layout,
        ).time_base(TimeBase::new(1, out.sample_rate)).build()
    }

    /// Configuration of the resampler: from the input parameters to the
    /// output parameters, producing frames of `target_frame_samples` samples
    /// (what the opened encoder reports as its samples per frame; `None`
    /// means no fixed frame size). Every parameter is set, so building it
    /// always succeeds.
    pub fn resampler(&self, target_frame_samples: Option<usize>) -> (r: Result<
        AudioResampler,
        Error,
    >)
        ensures
            r matches Ok(res) && {
                &&& res.spec_source_channel_layout() == self.spec_input().channel_layout
                &&& res.spec_source_sample_format() == self.spec_input().sample_format
                &&& res.spec_source_sample_rate() == self.spec_input().sample_rate
                &&& res.spec_target_channel_layout() == self.spec_output().channel_layout
                &&& res.spec_target_sample_format() == self.spec_output().sample_format
                &&& res.spec_target_sample_rate() == self.spec_output().sample_rate
                &&& res.spec_target_frame_samples() == match target_frame_samples {
                    Some(n) => n,
                    None => 0,
                }
            },
    {
        let input = self.input;
        let output = self.output;
        AudioResampler::builder().source_channel_layout(input.channel_layout).source_sample_format(
            input.sample_format,
        ).source_sample_rate(input.sample_rate).target_channel_layout(
            output.channel_layout,
        ).target_sample_format(output.sample_format).target_sample_rate(
            output.sample_rate,
        ).target_frame_samples(target_frame_samples).build()
    }
}

/// Whether a decoded frame goes on to the resampler: frames with a negative
/// presentation timestamp (the initial padding, and frames without a
/// timestamp) are dropped.
pub fn passes_to_resampler(frame: &AudioFrame) -> (r: bool)
    ensures
        r == (frame.spec_pts() >= 0),
{
    frame.pts().timestamp() >= 0
}

/// A stage of the transcoder's pipeline.
#[derive(Copy, Clone, PartialEq, Eq, Structural)]
pub enum Stage {
    Decoder,
    Resampler,
    Encoder,
}

/// What the transcoder is doing: transcoding a pushed packet, or flushing a
/// given stage (the stages are flushed in pipeline order).
#[derive(Copy, Clone, PartialEq, Eq, Structural)]
pub enum Phase {
    Pushing,
    Flushing(Stage),
}

/// What happened at a stage.
#[derive(Copy, Clone, PartialEq, Eq, Structural)]
pub enum Event {
    /// The stage accepted what it was given (an item pushed, or a flush).
    Accepted(Stage),
    /// An item was taken from the stage; for a frame taken from the decoder,
    /// `pts` is its raw presentation timestamp.
    Taken(Stage, i64),
    /// Nothing more can be taken from the stage for now.
    Drained(Stage),
}

/// What the transcoder does next.
#[derive(Copy, Clone, PartialEq, Eq, Structural)]
pub enum Action {
    /// Take the next item from the stage.
    Take(Stage),
    /// Push the item just taken into the stage.
    Push(Stage),
    /// Drop the frame just taken from the decoder, and take the next one.
    Discard,
    /// Put the packet just taken from the encoder at the end of the ready
    /// queue, and take the next one.
    Output,
    /// Flush the stage.
    Flush(Stage),
    /// The push (or the flush) is complete.
    Done,
}

/// The next step of the transcoder: given what it is doing and what just
/// happened, what it is doing now and what it does next.
///
/// - A stage that accepted its input is drained: items are taken from it.
/// - A frame from the decoder goes to the resampler, except that while a
///   packet is being transcoded a frame with a negative presentation
///   timestamp (the initial padding) is dropped; a frame from the resampler
///   goes to the encoder; a packet from the encoder goes to the ready queue.
/// - When a stage is drained, taking resumes at the stage before it, except
///   for the stage being flushed: a drained decoder ends a push; a drained
///   flushed decoder is followed by flushing the resampler, and a drained
///   flushed resampler by flushing the encoder; a drained flushed encoder
///   ends the flush.
pub fn transcode_step(phase: Phase, event: Event) -> (r: (Phase, Action))
    ensures
        r == transcode_next(phase, event),
{
    match event {
        Event::Accepted(stage) => (phase, Action::Take(stage)),
        Event::Taken(Stage::Decoder, pts) => {
            if phase == Phase::Pushing && pts < 0 {
                (phase, Action::Discard)
            } else {
                (phase, Action::Push(Stage::Resampler))
            }
        },
        Event::Taken(Stage::Resampler, _) => (phase, Action::Push(Stage::Encoder)),
        Event::Taken(Stage::Encoder, _) => (phase, Action::Output),
        Event::Drained(Stage::Decoder) => {
            if phase == Phase::Flushing(Stage::Decoder) {
                (Phase::Flushing(Stage::Resampler), Action::Flush(Stage::Resampler))
            } else {
                (phase, Action::Done)
            }
        },
        Event::Drained(Stage::Resampler) => {
            if phase == Phase::Flushing(Stage::Resampler) {
                (Phase::Flushing(Stage::Encoder), Action::Flush(Stage::Encoder))
            } else {
                (phase, Action::Take(Stage::Decoder))
            }
        },
        Event::Drained(Stage::Encoder) => {
            if phase == Phase::Flushing(Stage::Encoder) {
                (phase, Action::Done)
            } else {
                (phase, Action::Take(Stage::Resampler))
            }
        },
    }
}

/// The transcoder's step relation (see `transcode_step`).
pub open spec fn transcode_next(phase: Phase, event: Event) -> (Phase, Action) {
    match event {
        Event::Accepted(stage) => (phase, Action::Take(stage)),
        Event::Taken(stage, pts) => match stage {
            Stage::Decoder => if phase == Phase::Pushing && pts < 0 {
                (phase, Action::Discard)
            } else {
                (phase, Action::Push(Stage::Resampler))
            },
            Stage::Resampler => (phase, Action::Push(Stage::Encoder)),
            Stage::Encoder => (phase, Action::Output),
        },
        Event::Drained(stage) => match stage {
            Stage::Decoder => if phase == Phase::Flushing(Stage::Decoder) {
                (Phase::Flushing(Stage::Resampler), Action::Flush(Stage::Resampler))
            } else {
                (phase, Action::Done)
            },
            Stage::Resampler => if phase == Phase::Flushing(Stage::Resampler) {
                (Phase::Flushing(Stage::Encoder), Action::Flush(Stage::Encoder))
            } else {
                (phase, Action::Take(Stage::Decoder))
            },
            Stage::Encoder => if phase == Phase::Flushing(Stage::Encoder) {
                (phase, Action::Done)
            } else {
                (phase, Action::Take(Stage::Resampler))
            },
        },
    }
}

/// How items move through the pipeline, in every phase: a stage that has
/// accepted an item (or a flush) is drained next; an item taken from the
/// decoder goes into the resampler unless it is a frame with a negative
/// timestamp taken while a packet is transcoded, which is dropped; an item
/// taken from the resampler goes into the encoder; a packet taken from the
/// encoder goes to the ready queue. None of these changes the phase.
pub proof fn lemma_pipeline_routes(p: Phase, s: Stage, pts: i64)
    ensures
        transcode_next(p, Event::Accepted(s)) == (p, Action::Take(s)),
        (p == Phase::Pushing && pts < 0) ==> transcode_next(p, Event::Taken(Stage::Decoder, pts))
            == (p, Action::Discard),
        !(p == Phase::Pushing && pts < 0) ==> transcode_next(p, Event::Taken(Stage::Decoder, pts))
            == (p, Action::Push(Stage::Resampler)),
        transcode_next(p, Event::Taken(Stage::Resampler, pts)) == (p, Action::Push(Stage::Encoder)),
        transcode_next(p, Event::Taken(Stage::Encoder, pts)) == (p, Action::Output),
{
}

/// When a stage that is not being flushed runs dry, taking resumes at the
/// stage before it (a push ends when the decoder runs dry).
pub proof fn lemma_drained_resumes_upstream(p: Phase)
    ensures
        p != Phase::Flushing(Stage::Encoder) ==> transcode_next(p, Event::Drained(Stage::Encoder))
            == (p, Action::Take(Stage::Resampler)),
        p != Phase::Flushing(Stage::Resampler) ==> transcode_next(p, Event::Drained(Stage::Resampler))
            == (p, Action::Take(Stage::Decoder)),
        transcode_next(Phase::Pushing, Event::Drained(Stage::Decoder)) == (
        Phase::Pushing, Action::Done),
{
}

/// Flushing goes through the stages in pipeline order, each once: the
/// decoder, then the resampler, then the encoder, and then it is done.
pub proof fn lemma_flush_order()
    ensures
        transcode_next(Phase::Flushing(Stage::Decoder), Event::Drained(Stage::Decoder)) == (
        Phase::Flushing(Stage::Resampler), Action::Flush(Stage::Resampler)),
        transcode_next(Phase::Flushing(Stage::Resampler), Event::Drained(Stage::Resampler)) == (
        Phase::Flushing(Stage::Encoder), Action::Flush(Stage::Encoder)),
        transcode_next(Phase::Flushing(Stage::Encoder), Event::Drained(Stage::Encoder)) == (
        Phase::Flushing(Stage::Encoder), Action::Done),
        forall|p: Phase, e: Event| (#[trigger] transcode_next(p, e)).0 != p ==> (p
            == Phase::Flushing(Stage::Decoder) && e == Event::Drained(Stage::Decoder)) || (p
            == Phase::Flushing(Stage::Resampler) && e == Event::Drained(Stage::Resampler)),
{
}

/// The packets that the transcoder produced and that have not been taken
/// yet, oldest first.
pub struct ReadyQueue<T> {
    ready: VecDeque<T>,
}

impl<T> View for ReadyQueue<T> {
    type V = Seq<T>;

    closed spec fn view(&self) -> Seq<T> {
        self.ready@
    }
}

impl<T> ReadyQueue<T> {
    /// Create an empty queue.
    pub fn new() -> (r: ReadyQueue<T>)
        ensures
            r@ == Seq::<T>::empty(),
    {
        ReadyQueue { ready: VecDeque::new() }
    }

    /// Check that a packet may be pushed for transcoding: every transcoded
    /// packet must have been taken first.
    pub fn check_push(&self) -> (r: Result<(), CodecError>)
        ensures
            self@.len() == 0 ==> r is Ok,
            self@.len() > 0 ==> (r matches Err(e) && e.spec_is_again() && e.spec_again_message()
                == Some(
                "take all transcoded packets before pushing another packet for transcoding"@,
            )),
    {
        if self.ready.len() != 0 {
            return Err(
                CodecError::again(
                    "take all transcoded packets before pushing another packet for transcoding".to_owned(),
                ),
            );
        }
        Ok(())
    }

    /// Check that the transcoder may be flushed: every transcoded packet
    /// must have been taken first.
    pub fn check_flush(&self) -> (r: Result<(), CodecError>)
        ensures
            self@.len() == 0 ==> r is Ok,
            self@.len() > 0 ==> (r matches Err(e) && e.spec_is_again() && e.spec_again_message()
                == Some("take all transcoded packets before flushing the transcoder"@)),
    {
        if self.ready.len() != 0 {
            return Err(
                CodecError::again(
                    "take all transcoded packets before flushing the transcoder".to_owned(),
                ),
            );
        }
        Ok(())
    }

    /// Put a transcoded packet at the end of the queue.
    pub fn push_to_output(&mut self, packet: T)
        ensures
            final(self)@ == old(self)@.push(packet),
    {
        self.ready.push_back(packet);
    }

    /// Take the next packet from the transcoder (the oldest one), if any.
    pub fn take(&mut self) -> (r: Option<T>)
        ensures
            old(self)@.len() == 0 ==> r is None && final(self)@ == old(self)@,
            old(self)@.len() > 0 ==> r == Some(old(self)@[0]) && final(self)@ == old(self)@.drop_first(),
    {
        self.ready.pop_front()
    }
}

/// Packets leave the queue in the order in which they entered it: after
/// pushing `p` onto a queue holding `q`, taking gives the first packet of
/// `q`, or `p` when `q` was empty.
pub proof fn lemma_first_in_first_out<T>(q: Seq<T>, p: T)
    ensures
        q.len() == 0 ==> q.push(p)[0] == p && q.push(p).drop_first() == Seq::<T>::empty(),
        q.len() > 0 ==> q.push(p)[0] == q[0] && q.push(p).drop_first() == q.drop_first().push(p),
{
    if q.len() == 0 {
        assert(q.push(p).drop_first() =~= Seq::<T>::empty());
    } else {
        assert(q.push(p).drop_first() =~= q.drop_first().push(p));
    }
}

} // verus!
