//! The way of an audio packet: through the decoder and the resampler into the queue.
use std::collections::VecDeque;
use crate::decoder::{Decoder, DecoderOutput};
use crate::error::{errno_again, errno_invalid, FfmpegError};
use crate::packet::Packet;
use crate::pcm::{AudioResampler, PcmAudioFrame, PcmFormat, ResamplePlan};
use crate::playback::{DecoderDrainStatus, PlaybackError, AUDIO_SEEK_INVALID_PACKET_LIMIT};
use crate::time::Duration;
use crate::video::DecoderOutputFrame;
use vstd::prelude::*;

verus! {

/// What the audio output says of its own clock.
#[derive(Clone, Copy, Debug, PartialEq, Eq, Structural)]
pub struct AudioClockSnapshot {
    pub media_time: Option<Duration>,
    pub queued_duration: Option<Duration>,
    pub queued_frames: u64,
    pub read_frames: u64,
    pub written_frames: u64,
    pub underflow_frames: u64,
}

/// What an audio decoder makes of a packet.
#[derive(Debug, PartialEq, Eq)]
pub enum AudioSendOutcome {
    Accepted,
    /// The decoder takes nothing before its frames are taken from it.
    Again(FfmpegError),
    /// The decoder cannot make sense of the packet.
    Invalid(FfmpegError),
    Failed(FfmpegError),
}

impl AudioSendOutcome {
    /// The error, where there is one.
    pub open spec fn error(self) -> Option<FfmpegError> {
        match self {
            AudioSendOutcome::Accepted => None,
            AudioSendOutcome::Again(error) => Some(error),
            AudioSendOutcome::Invalid(error) => Some(error),
            AudioSendOutcome::Failed(error) => Some(error),
        }
    }

    /// What a decoder made of a packet, on a machine with a given `EAGAIN` and `EINVAL`.
    pub open spec fn told(
        sent: Result<(), FfmpegError>,
        again: i32,
        invalid: i32,
    ) -> AudioSendOutcome {
        match sent {
            Ok(_) => AudioSendOutcome::Accepted,
            Err(error) => if error.reports_system(again) {
                AudioSendOutcome::Again(error)
            } else if error.reports_system(invalid) {
                AudioSendOutcome::Invalid(error)
            } else {
                AudioSendOutcome::Failed(error)
            },
        }
    }

    /// Tells a decoder that is full, or cannot make sense of a packet, from one that failed; `again`
    /// and `invalid` are the machine's `EAGAIN` and `EINVAL`.
    pub fn read(sent: Result<(), FfmpegError>, again: i32, invalid: i32) -> (r: Self)
        requires
            again > 0,
            invalid > 0,
        ensures
            r == Self::told(sent, again, invalid),
    {
        match sent {
            Ok(()) => AudioSendOutcome::Accepted,
            Err(error) => {
                if error.reports_errno(again) {
                    AudioSendOutcome::Again(error)
                } else if error.reports_errno(invalid) {
                    AudioSendOutcome::Invalid(error)
                } else {
                    AudioSendOutcome::Failed(error)
                }
            },
        }
    }

    /// Tells a decoder that is full, or cannot make sense of a packet, from one that failed, on this
    /// machine.
    pub fn of(sent: Result<(), FfmpegError>) -> (r: Self)
        ensures
            exists|again: i32|
                crate::error::means_again(again) && r == #[trigger] Self::told(sent, again, 22),
    {
        Self::read(sent, errno_again(), errno_invalid())
    }
}

/// The audio decoder that is in use, and what steers it.
#[derive(Clone, Copy, Debug, PartialEq, Eq, Structural)]
pub struct AudioRoute {
    pub decoder: Option<Decoder>,
    pub resampler: Option<AudioResampler>,
    pub output: PcmFormat,
    pub output_active: bool,
    /// Behind a seek the first packets may start in the middle of a run.
    pub waiting_for_valid_packet: bool,
    pub dropped_packets: usize,
}

/// Audio on its way from the demuxer to the output.
pub struct AudioPath {
    pub route: AudioRoute,
    pub frames: VecDeque<PcmAudioFrame>,
}

/// What the resampler made of its input: the frames, the samples and how long they last.
#[derive(Debug)]
pub struct Resampled {
    pub converted: i32,
    pub samples: Vec<u32>,
    pub length: Duration,
}

/// A drain of the audio decoder that is under way.
#[derive(Clone, Copy, Debug, PartialEq, Eq, Structural)]
pub struct AudioDrain {
    pub status: DecoderDrainStatus,
}

/// How a drain goes on.
#[derive(Debug)]
pub enum AudioDrainStep {
    /// The decoder is asked for a frame.
    Receive(AudioDrain),
    /// A decoded run is resampled.
    Convert(AudioDrain, ResamplePlan),
    /// The decoder has no more: the resampler hands out what it still holds.
    DrainResampler(AudioDrain),
    Finished(Result<DecoderDrainStatus, PlaybackError>),
}

/// A drain that has brought nothing yet.
pub open spec fn fresh_drain() -> AudioDrain {
    AudioDrain { status: DecoderDrainStatus { frames: 0, end_of_stream: false } }
}

/// A drain that has brought one frame more.
pub open spec fn drained_one(drain: AudioDrain) -> AudioDrain {
    AudioDrain {
        status: DecoderDrainStatus {
            frames: crate::pcm::more(drain.status.frames),
            ..drain.status
        },
    }
}

/// Whether a frame is what the resampler made of a run.
pub open spec fn resampled_as(
    frame: PcmAudioFrame,
    resampler: AudioResampler,
    pts: Option<Duration>,
    resampled: Resampled,
) -> bool {
    let frames = crate::frame::counted(resampled.converted);
    &&& frame.format == resampler.output_format
    &&& frame.pts == pts
    &&& frame.frames == frames
    &&& frame.samples@ == resampled.samples@.subrange(
        0,
        frames * resampler.laid_out_channels(),
    )
}

/// The resampler behind a run.
pub open spec fn resampler_behind(
    resampler: AudioResampler,
    pts: Option<Duration>,
    resampled: Resampled,
) -> AudioResampler {
    AudioResampler {
        next_output_pts: crate::pcm::end_of_run(
            pts,
            crate::frame::counted(resampled.converted) as usize,
            resampler.output_format.sample_rate,
            resampled.length,
        ),
        ..resampler
    }
}

/// Whether the resampler's buffer holds the frames that it says.
pub open spec fn holds_frames(resampled: Resampled, resampler: AudioResampler) -> bool {
    crate::frame::counted(resampled.converted) * resampler.laid_out_channels()
        <= resampled.samples@.len()
}

impl AudioDrain {
    pub fn begin() -> (r: Self)
        ensures
            r == fresh_drain(),
    {
        AudioDrain { status: DecoderDrainStatus { frames: 0, end_of_stream: false } }
    }
}

impl AudioPath {
    /// The resampler in use; the first run makes it.
    pub open spec fn resampler_for(self) -> AudioResampler {
        match self.route.resampler {
            Some(resampler) => resampler,
            None => AudioResampler { output_format: self.route.output, next_output_pts: None },
        }
    }

    /// Goes on when the decoder was asked for a frame.
    pub fn drain_received(
        &mut self,
        drain: AudioDrain,
        output: Result<DecoderOutputFrame, FfmpegError>,
    ) -> (r: AudioDrainStep)
        requires
            old(self).route.decoder is Some,
        ensures
            final(self).frames == old(self).frames,
            output is Err ==> *final(self) == *old(self) && r == AudioDrainStep::Finished(
                Err(PlaybackError::Ffmpeg(output->Err_0)),
            ),
            output is Ok && output->Ok_0 is NeedMoreInput ==> *final(self) == *old(self) && r
                == AudioDrainStep::Finished(Ok(drain.status)),
            output is Ok && output->Ok_0 is EndOfStream ==> {
                &&& final(self).route == (AudioRoute {
                    decoder: Some(
                        old(self).route.decoder->0.after_receive(Some(DecoderOutput::EndOfStream)),
                    ),
                    ..old(self).route
                })
                &&& r == (if old(self).route.resampler is Some {
                    AudioDrainStep::DrainResampler(drain)
                } else {
                    AudioDrainStep::Finished(
                        Ok(DecoderDrainStatus { end_of_stream: true, ..drain.status }),
                    )
                })
            },
            output is Ok && output->Ok_0 is Frame ==> {
                let frame = output->Ok_0->Frame_0;
                let audible = frame.sample_rate > 0 && frame.samples > 0 && frame.channels > 0;
                let timeline = crate::pcm::resampler_timeline(
                    old(self).resampler_for().next_output_pts,
                    frame.shown_at(),
                );
                &&& audible ==> final(self).route == (AudioRoute {
                    resampler: Some(old(self).resampler_for()),
                    ..old(self).route
                }) && r == AudioDrainStep::Convert(
                    drain,
                    ResamplePlan {
                        pts: timeline.0,
                        reanchored: timeline.1,
                        input_samples: frame.samples,
                    },
                )
                &&& !audible ==> *final(self) == *old(self) && r == AudioDrainStep::Finished(
                    Err(PlaybackError::Ffmpeg(FfmpegError::ExpectedAudioFrame)),
                )
            },
    {
        match output {
            Err(error) => AudioDrainStep::Finished(Err(PlaybackError::Ffmpeg(error))),
            Ok(DecoderOutputFrame::NeedMoreInput) => AudioDrainStep::Finished(Ok(drain.status)),
            Ok(DecoderOutputFrame::EndOfStream) => {
                if let Some(decoder) = self.route.decoder {
                    let mut decoder = decoder;
                    decoder.note_output(DecoderOutput::EndOfStream);
                    self.route.decoder = Some(decoder);
                }
                if self.route.resampler.is_some() {
                    AudioDrainStep::DrainResampler(drain)
                } else {
                    AudioDrainStep::Finished(
                        Ok(DecoderDrainStatus { frames: drain.status.frames, end_of_stream: true }),
                    )
                }
            },
            Ok(DecoderOutputFrame::Frame(frame)) => {
                let resampler = match self.route.resampler {
                    Some(resampler) => resampler,
                    None => match AudioResampler::new_from_frame(&frame, self.route.output) {
                        Ok(resampler) => resampler,
                        Err(error) => {
                            return AudioDrainStep::Finished(Err(PlaybackError::Ffmpeg(error)));
                        },
                    },
                };
                match resampler.begin_convert(&frame) {
                    Err(error) => AudioDrainStep::Finished(Err(PlaybackError::Ffmpeg(error))),
                    Ok(plan) => {
                        self.route.resampler = Some(resampler);
                        AudioDrainStep::Convert(drain, plan)
                    },
                }
            },
        }
    }

    /// Goes on when a run was resampled. While no output listens, the run is thrown away.
    pub fn drain_converted(
        &mut self,
        drain: AudioDrain,
        plan: ResamplePlan,
        resampled: Result<Resampled, FfmpegError>,
    ) -> (r: AudioDrainStep)
        requires
            old(self).route.resampler is Some,
            resampled is Ok ==> holds_frames(resampled->Ok_0, old(self).route.resampler->0),
        ensures
            resampled is Err ==> *final(self) == *old(self) && r == AudioDrainStep::Finished(
                Err(PlaybackError::Ffmpeg(resampled->Err_0)),
            ),
            resampled is Ok ==> {
                let resampler = old(self).route.resampler->0;
                &&& final(self).route == (AudioRoute {
                    resampler: Some(resampler_behind(resampler, plan.pts, resampled->Ok_0)),
                    ..old(self).route
                })
                &&& r == AudioDrainStep::Receive(drained_one(drain))
                &&& !old(self).route.output_active ==> final(self).frames == old(self).frames
                &&& old(self).route.output_active ==> final(self).frames@.len() == old(self).frames@.len() + 1 && final(self).frames@.drop_last() == old(self).frames@
                    && resampled_as(final(self).frames@.last(), resampler, plan.pts, resampled->Ok_0)
            },
    {
        match resampled {
            Err(error) => AudioDrainStep::Finished(Err(PlaybackError::Ffmpeg(error))),
            Ok(run) => {
                if let Some(resampler) = self.route.resampler {
                    let mut resampler = resampler;
                    let frame = resampler.finish_convert(
                        plan.pts,
                        run.converted,
                        run.samples,
                        run.length,
                    );
                    self.route.resampler = Some(resampler);
                    if self.route.output_active {
                        self.frames.push_back(frame);
                        assert(self.frames@.drop_last() =~= old(self).frames@);
                    }
                }
                AudioDrainStep::Receive(Self::one_more_frame(drain))
            },
        }
    }

    /// Goes on when the resampler was asked for what it still holds. It is asked until nothing
    /// comes any more, and then the drain is at its end.
    pub fn drain_resampler(
        &mut self,
        drain: AudioDrain,
        resampled: Result<Resampled, FfmpegError>,
    ) -> (r: AudioDrainStep)
        requires
            old(self).route.resampler is Some,
            resampled is Ok ==> holds_frames(resampled->Ok_0, old(self).route.resampler->0),
        ensures
            resampled is Err ==> *final(self) == *old(self) && r == AudioDrainStep::Finished(
                Err(PlaybackError::Ffmpeg(resampled->Err_0)),
            ),
            resampled is Ok && resampled->Ok_0.converted <= 0 ==> *final(self) == *old(self) && r
                == AudioDrainStep::Finished(
                Ok(DecoderDrainStatus { end_of_stream: true, ..drain.status }),
            ),
            resampled is Ok && resampled->Ok_0.converted > 0 ==> {
                let resampler = old(self).route.resampler->0;
                let pts = resampler.next_output_pts;
                &&& final(self).route == (AudioRoute {
                    resampler: Some(resampler_behind(resampler, pts, resampled->Ok_0)),
                    ..old(self).route
                })
                &&& r == AudioDrainStep::DrainResampler(drained_one(drain))
                &&& !old(self).route.output_active ==> final(self).frames == old(self).frames
                &&& old(self).route.output_active ==> final(self).frames@.len() == old(self).frames@.len() + 1 && final(self).frames@.drop_last() == old(self).frames@
                    && resampled_as(final(self).frames@.last(), resampler, pts, resampled->Ok_0)
            },
    {
        match resampled {
            Err(error) => AudioDrainStep::Finished(Err(PlaybackError::Ffmpeg(error))),
            Ok(run) => {
                if run.converted <= 0 {
                    return AudioDrainStep::Finished(
                        Ok(DecoderDrainStatus { frames: drain.status.frames, end_of_stream: true }),
                    );
                }
                if let Some(resampler) = self.route.resampler {
                    let mut resampler = resampler;
                    let frame = resampler.finish_drain(run.converted, run.samples, run.length);
                    self.route.resampler = Some(resampler);
                    if self.route.output_active {
                        if let Some(frame) = frame {
                            self.frames.push_back(frame);
                            assert(self.frames@.drop_last() =~= old(self).frames@);
                        }
                    }
                }
                AudioDrainStep::DrainResampler(Self::one_more_frame(drain))
            },
        }
    }

    fn one_more_frame(drain: AudioDrain) -> (r: AudioDrain)
        ensures
            r == drained_one(drain),
    {
        AudioDrain {
            status: DecoderDrainStatus {
                frames: drain.status.frames.saturating_add(1),
                end_of_stream: drain.status.end_of_stream,
            },
        }
    }

    /// Throws away the frames that wait; their number.
    pub fn discard(&mut self) -> (r: usize)
        ensures
            r == old(self).frames@.len(),
            final(self).route == old(self).route,
            final(self).frames@ == Seq::<PcmAudioFrame>::empty(),
    {
        let discarded: usize = self.frames.len();
        self.frames.clear();
        discarded
    }

    /// Says whether an output listens. Where none does any more, the frames that wait are thrown
    /// away; their number.
    pub fn set_output_active(&mut self, active: bool) -> (r: usize)
        ensures
            final(self).route == (AudioRoute { output_active: active, ..old(self).route }),
            old(self).route.output_active && !active ==> r == old(self).frames@.len() && final(self).frames@ == Seq::<PcmAudioFrame>::empty(),
            !old(self).route.output_active || active ==> r == 0 && final(self).frames == old(self).frames,
    {
        if self.route.output_active == active {
            return 0;
        }
        self.route.output_active = active;
        if active {
            0
        } else {
            self.discard()
        }
    }
}

/// Where the decoding of an audio packet stands.
#[derive(Clone, Copy, Debug, PartialEq, Eq, Structural)]
pub enum AudioStage {
    Sending,
    DrainingFull(AudioDrain),
    Resending,
    DrainingSent(AudioDrain),
}

/// An audio packet on its way through the decoder.
#[derive(Debug)]
pub struct AudioTask {
    pub packet: Packet,
    pub stage: AudioStage,
}

/// How the decoding of an audio packet goes on.
#[derive(Debug)]
pub enum AudioStep {
    Continue(AudioTask),
    Finished(Result<(), PlaybackError>),
}

impl AudioPath {
    pub fn begin_route(&self, packet: Packet) -> (r: AudioTask)
        ensures
            r == (AudioTask { packet, stage: AudioStage::Sending }),
    {
        AudioTask { packet, stage: AudioStage::Sending }
    }

    /// Goes on when the decoder was sent the packet. Behind a seek, packets that it cannot make
    /// sense of are passed over, up to a limit.
    pub fn route_sent(&mut self, task: AudioTask, outcome: AudioSendOutcome) -> (r: AudioStep)
        requires
            task.stage is Sending || task.stage is Resending,
        ensures
            final(self).frames == old(self).frames,
            outcome is Accepted ==> final(self).route == (AudioRoute {
                waiting_for_valid_packet: false,
                dropped_packets: 0,
                ..old(self).route
            }) && r == AudioStep::Continue(
                AudioTask { stage: AudioStage::DrainingSent(fresh_drain()), ..task },
            ),
            outcome is Again && task.stage is Sending ==> *final(self) == *old(self) && r
                == AudioStep::Continue(
                AudioTask { stage: AudioStage::DrainingFull(fresh_drain()), ..task },
            ),
            outcome is Invalid && old(self).passes_over_invalid() ==> final(self).route == (
            AudioRoute {
                dropped_packets: (old(self).route.dropped_packets + 1) as usize,
                ..old(self).route
            }) && r == AudioStep::Finished(Ok(())),
            (outcome is Again && task.stage is Resending) || outcome is Failed || (outcome is Invalid
                && !old(self).passes_over_invalid()) ==> *final(self) == *old(self) && r
                == AudioStep::Finished(Err(PlaybackError::Ffmpeg(outcome.error()->0))),
    {
        match outcome {
            AudioSendOutcome::Accepted => {
                self.route.waiting_for_valid_packet = false;
                self.route.dropped_packets = 0;
                AudioStep::Continue(
                    AudioTask { stage: AudioStage::DrainingSent(AudioDrain::begin()), ..task },
                )
            },
            AudioSendOutcome::Again(error) => {
                if let AudioStage::Sending = task.stage {
                    return AudioStep::Continue(
                        AudioTask { stage: AudioStage::DrainingFull(AudioDrain::begin()), ..task },
                    );
                }
                AudioStep::Finished(Err(PlaybackError::Ffmpeg(error)))
            },
            AudioSendOutcome::Invalid(error) => {
                if self.route.waiting_for_valid_packet && self.route.dropped_packets
                    < AUDIO_SEEK_INVALID_PACKET_LIMIT {
                    self.route.dropped_packets = self.route.dropped_packets + 1;
                    return AudioStep::Finished(Ok(()));
                }
                AudioStep::Finished(Err(PlaybackError::Ffmpeg(error)))
            },
            AudioSendOutcome::Failed(error) => AudioStep::Finished(
                Err(PlaybackError::Ffmpeg(error)),
            ),
        }
    }

    /// Whether a packet that makes no sense is passed over.
    pub open spec fn passes_over_invalid(self) -> bool {
        self.route.waiting_for_valid_packet && self.route.dropped_packets
            < AUDIO_SEEK_INVALID_PACKET_LIMIT
    }

    /// Goes on when a drain for the packet is at its end: a full decoder is sent the packet once
    /// more.
    pub fn route_drained(
        &self,
        task: AudioTask,
        drained: Result<DecoderDrainStatus, PlaybackError>,
    ) -> (r: AudioStep)
        requires
            task.stage is DrainingFull || task.stage is DrainingSent,
        ensures
            drained is Err ==> r == AudioStep::Finished(Err(drained->Err_0)),
            drained is Ok ==> r == (if task.stage is DrainingFull {
                AudioStep::Continue(AudioTask { stage: AudioStage::Resending, ..task })
            } else {
                AudioStep::Finished(Ok(()))
            }),
    {
        match drained {
            Err(error) => AudioStep::Finished(Err(error)),
            Ok(_) => match task.stage {
                AudioStage::DrainingFull(_) => AudioStep::Continue(
                    AudioTask { stage: AudioStage::Resending, ..task },
                ),
                _ => AudioStep::Finished(Ok(())),
            },
        }
    }
}

/// Whether `count` packets in a row that make no sense are all passed over.
pub open spec fn all_passed_over(path: AudioPath, count: nat) -> bool
    decreases count,
{
    if count == 0 {
        true
    } else {
        let next = AudioPath {
            route: AudioRoute {
                dropped_packets: (path.route.dropped_packets + 1) as usize,
                ..path.route
            },
            ..path
        };
        path.passes_over_invalid() && all_passed_over(next, (count - 1) as nat)
    }
}

/// Behind a seek a run of senseless packets is passed over as far as the limit, and no further.
pub proof fn law_senseless_packets_are_bounded(path: AudioPath, count: nat)
    requires
        path.route.waiting_for_valid_packet,
        path.route.dropped_packets <= AUDIO_SEEK_INVALID_PACKET_LIMIT,
    ensures
        all_passed_over(path, count) <==> path.route.dropped_packets + count
            <= AUDIO_SEEK_INVALID_PACKET_LIMIT,
    decreases count,
{
    if count > 0 && path.passes_over_invalid() {
        let next = AudioPath {
            route: AudioRoute {
                dropped_packets: (path.route.dropped_packets + 1) as usize,
                ..path.route
            },
            ..path
        };
        law_senseless_packets_are_bounded(next, (count - 1) as nat);
    }
}

/// A resampled run holds the converted frames, from the front, each with all its channels; the next
/// run is expected where this one ends.
pub proof fn law_a_resampled_run_is_the_front_of_the_buffer(
    frame: PcmAudioFrame,
    resampler: AudioResampler,
    pts: Duration,
    resampled: Resampled,
    i: int,
)
    requires
        resampled_as(frame, resampler, Some(pts), resampled),
        holds_frames(resampled, resampler),
        resampler.output_format.channels > 0,
        resampler.output_format.sample_rate > 0,
        resampled.converted > 0,
        pts.nanos + resampled.length.nanos <= crate::time::MAX_DURATION_NANOS,
        0 <= i < frame.samples@.len(),
    ensures
        frame.frames == resampled.converted,
        frame.samples@.len() == resampled.converted * resampler.output_format.channels,
        frame.samples@[i] == resampled.samples@[i],
        frame.pts == Some(pts),
        frame.format == resampler.output_format,
        resampler_behind(resampler, Some(pts), resampled).next_output_pts is Some,
        resampler_behind(resampler, Some(pts), resampled).next_output_pts->0.nanos == pts.nanos
            + resampled.length.nanos,
        resampler_behind(resampler, Some(pts), resampled).output_format == resampler.output_format,
{
    assert(resampled.converted * resampler.output_format.channels >= 0) by (nonlinear_arith)
        requires
            resampled.converted > 0,
            resampler.output_format.channels > 0,
    ;
}

/// What a decoder says of a packet is what its error number says: nothing, that it is full, that the
/// packet makes no sense, or another failure.
pub proof fn law_a_refusal_is_told_by_its_number(error: FfmpegError, again: i32, invalid: i32)
    ensures
        AudioSendOutcome::told(Ok(()), again, invalid) is Accepted,
        AudioSendOutcome::told(Err(error), again, invalid).error() == Some(error),
        AudioSendOutcome::told(Err(error), again, invalid) is Again <==> error.reports_system(again),
        AudioSendOutcome::told(Err(error), again, invalid) is Invalid <==> (!error.reports_system(
            again,
        ) && error.reports_system(invalid)),
{
}

/// Senseless packets are passed over only while a seek waits for a sound one, and at most 64 of them.
pub proof fn law_at_most_64_packets_are_passed_over(path: AudioPath)
    ensures
        path.passes_over_invalid() <==> (path.route.waiting_for_valid_packet
            && path.route.dropped_packets < 64),
{
}

/// A drain counts the frames that it brings, one by one, and starts at none.
pub proof fn law_a_drain_counts_its_frames(drain: AudioDrain)
    ensures
        fresh_drain().status.frames == 0,
        !fresh_drain().status.end_of_stream,
        drain.status.frames < usize::MAX ==> drained_one(drain).status.frames
            == drain.status.frames + 1,
        drained_one(drain).status.end_of_stream == drain.status.end_of_stream,
{
}

/// One resampler serves a path until it is taken away: the first run makes it, for the format that
/// the path puts out, with no place to go on from.
pub proof fn law_the_first_run_makes_the_resampler(path: AudioPath)
    ensures
        path.route.resampler is Some ==> path.resampler_for() == path.route.resampler->0,
        path.route.resampler is None ==> path.resampler_for().output_format == path.route.output
            && path.resampler_for().next_output_pts is None,
{
}

} // verus!
