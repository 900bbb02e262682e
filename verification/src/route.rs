//! How one video packet is decoded, call by call.
use crate::decoder::{Decoder, DecoderBackend, DecoderConfig, DecoderOutput};
use crate::demuxer::OwnedCodecParameters;
use crate::error::FfmpegError;
use crate::packet::Packet;
use crate::playback::{
    trim_video_queue, MediaCodecFallbackTarget, OpenedMediaInfo, PlaybackError,
};
use crate::video::{
    DecodedVideoFrame, DecoderOutputFrame, FallbackStep, FallbackTask, SendOutcome, VideoPath,
    VideoRoute,
};
use vstd::prelude::*;

verus! {

/// Where the decoding of a packet stands.
#[derive(Clone, Debug)]
pub enum RouteStage {
    Sending,
    /// The decoder took the packet: its frames are taken until it has no more.
    DrainingSent,
    /// The decoder was full: its frames are taken, and the packet is sent once more.
    DrainingFull,
    Resending,
    /// The decoder failed: a simpler one takes its place.
    Falling(FallbackTask),
}

/// A packet on its way through the decoder.
#[derive(Clone, Debug)]
pub struct RouteTask {
    pub packet: Packet,
    pub limit: usize,
    pub before_frames: usize,
    /// Whether the decoder was replaced on this packet's account.
    pub recovered: bool,
    pub stage: RouteStage,
}

/// The call that a packet needs next.
#[derive(Clone, Copy, Debug, PartialEq, Eq, Structural)]
pub enum RouteAction {
    SendPacket,
    ReceiveFrame,
    OpenDecoder(DecoderConfig),
}

/// How the decoding of a packet goes on; at its end stands whether anything moved.
#[derive(Debug)]
pub enum RouteStep {
    Continue(RouteTask),
    Finished(Result<bool, PlaybackError>),
}

impl RouteTask {
    pub open spec fn needs(self) -> RouteAction {
        match self.stage {
            RouteStage::Sending => RouteAction::SendPacket,
            RouteStage::Resending => RouteAction::SendPacket,
            RouteStage::DrainingSent => RouteAction::ReceiveFrame,
            RouteStage::DrainingFull => RouteAction::ReceiveFrame,
            RouteStage::Falling(fallback) => RouteAction::OpenDecoder(fallback.wanted()),
        }
    }

    /// The call that the packet needs next.
    pub fn action(&self) -> (r: RouteAction)
        ensures
            r == self.needs(),
    {
        match &self.stage {
            RouteStage::Sending => RouteAction::SendPacket,
            RouteStage::Resending => RouteAction::SendPacket,
            RouteStage::DrainingSent => RouteAction::ReceiveFrame,
            RouteStage::DrainingFull => RouteAction::ReceiveFrame,
            RouteStage::Falling(fallback) => RouteAction::OpenDecoder(fallback.config()),
        }
    }
}

/// What takes the place of a decoder that failed on a packet, and the stage that it is reported
/// under. A decoder that has just been replaced is not replaced again.
pub open spec fn recovery(
    path: VideoPath,
    recovered: bool,
    parameters: Seq<OwnedCodecParameters>,
) -> Option<(MediaCodecFallbackTarget, Seq<char>)> {
    if recovered {
        None
    } else if path.backend() == Some(DecoderBackend::MediaCodec) {
        if path.on_surface() && !path.route.surface_disabled {
            Some((MediaCodecFallbackTarget::ByteBuffer, "decode"@))
        } else {
            Some((MediaCodecFallbackTarget::Software, "decode_bytebuffer_to_software"@))
        }
    } else if path.backend() == Some(DecoderBackend::VideoToolbox) && path.decodes_av1(parameters) {
        Some((MediaCodecFallbackTarget::Software, "decode_videotoolbox_to_software"@))
    } else if path.backend() == Some(DecoderBackend::AvCodec) {
        Some((MediaCodecFallbackTarget::Software, "decode_avcodec_to_software"@))
    } else {
        None
    }
}

/// Whether a step down began: `fallback` is under way, and `after` is what `before` became.
pub open spec fn begins_fallback(
    fallback: FallbackTask,
    target: MediaCodecFallbackTarget,
    before: VideoPath,
    after: VideoPath,
    source: OwnedCodecParameters,
    stage: Seq<char>,
    reason: Seq<char>,
) -> bool {
    match target {
        MediaCodecFallbackTarget::ByteBuffer => crate::video::begins_byte_buffer(
            fallback,
            before,
            after,
            source,
            stage,
            reason,
            None,
        ),
        MediaCodecFallbackTarget::Software => crate::video::begins_software(
            fallback,
            before,
            after,
            source,
            stage,
            reason,
            None,
        ),
    }
}

/// What a failed call comes to: a step down where there is one, and the error where there is none.
pub open spec fn fails_over(
    task: RouteTask,
    error: PlaybackError,
    before: VideoPath,
    after: VideoPath,
    info_before: OpenedMediaInfo,
    info_after: OpenedMediaInfo,
    parameters: Seq<OwnedCodecParameters>,
    r: RouteStep,
) -> bool {
    let source = crate::video::decode_source(
        before.route.decoder,
        info_before.selected_video_track,
        parameters,
    );
    match recovery(before, task.recovered, parameters) {
        None => after == before && info_after == info_before && r == RouteStep::Finished(
            Err(error),
        ),
        Some(step) => match source {
            Err(missing) => after == before && info_after == info_before && r
                == RouteStep::Finished(Err(missing)),
            Ok(found) => {
                &&& r is Continue
                &&& r->Continue_0.packet == task.packet
                &&& r->Continue_0.limit == task.limit
                &&& r->Continue_0.before_frames == task.before_frames
                &&& r->Continue_0.recovered == task.recovered
                &&& r->Continue_0.stage is Falling
                &&& begins_fallback(
                    r->Continue_0.stage->Falling_0,
                    step.0,
                    before,
                    after,
                    found,
                    step.1,
                    error.text(),
                )
                &&& info_after == (OpenedMediaInfo { video_decode_backend: None, ..info_before })
            },
        },
    }
}

impl VideoPath {
    /// Starts to decode a packet. While a key frame is waited for, every other packet is thrown
    /// away, which counts as a move.
    pub fn begin_route(&mut self, packet: Packet, limit: usize) -> (r: RouteStep)
        ensures
            old(self).route.waiting_for_keyframe && !packet.key() ==> *final(self) == *old(self)
                && r == RouteStep::Finished(Ok(true)),
            !old(self).route.waiting_for_keyframe || packet.key() ==> {
                &&& final(self).route == (VideoRoute {
                    waiting_for_keyframe: false,
                    ..old(self).route
                })
                &&& final(self).unavailable_reason == old(self).unavailable_reason
                &&& final(self).events == old(self).events
                &&& final(self).frames == old(self).frames
                &&& final(self).pending == old(self).pending
                &&& r == RouteStep::Continue(
                    RouteTask {
                        packet,
                        limit: old(self).picture_limit(limit),
                        before_frames: old(self).frames@.len() as usize,
                        recovered: false,
                        stage: RouteStage::Sending,
                    },
                )
            },
    {
        if self.route.waiting_for_keyframe {
            if !packet.is_key() {
                return RouteStep::Finished(Ok(true));
            }
            self.route.waiting_for_keyframe = false;
        }
        let limit: usize = self.frame_limit(limit);
        let before_frames: usize = self.frames.len();
        RouteStep::Continue(
            RouteTask {
                packet,
                limit,
                before_frames,
                recovered: false,
                stage: RouteStage::Sending,
            },
        )
    }

    /// Goes on when the decoder was sent the packet. One that is full twice in a row leaves the
    /// packet first in the line of those that wait.
    pub fn route_sent(
        &mut self,
        info: &mut OpenedMediaInfo,
        parameters: &Vec<OwnedCodecParameters>,
        task: RouteTask,
        outcome: SendOutcome,
    ) -> (r: RouteStep)
        requires
            task.stage is Sending || task.stage is Resending,
        ensures
            outcome is Accepted ==> *final(self) == *old(self) && *final(info) == *old(info) && r
                == RouteStep::Continue(RouteTask { stage: RouteStage::DrainingSent, ..task }),
            outcome is Again && task.stage is Sending ==> *final(self) == *old(self)
                && *final(info) == *old(info) && r == RouteStep::Continue(
                RouteTask { stage: RouteStage::DrainingFull, ..task },
            ),
            outcome is Again && task.stage is Resending ==> {
                &&& *final(info) == *old(info)
                &&& final(self).route == old(self).route
                &&& final(self).unavailable_reason == old(self).unavailable_reason
                &&& final(self).events == old(self).events
                &&& final(self).frames == old(self).frames
                &&& final(self).pending@ == seq![task.packet] + old(self).pending@
                &&& r == RouteStep::Finished(Ok(old(self).frames@.len() > task.before_frames))
            },
            outcome is Failed ==> fails_over(
                task,
                PlaybackError::Ffmpeg(outcome->Failed_0),
                *old(self),
                *final(self),
                *old(info),
                *final(info),
                parameters@,
                r,
            ),
    {
        match outcome {
            SendOutcome::Accepted => RouteStep::Continue(
                RouteTask { stage: RouteStage::DrainingSent, ..task },
            ),
            SendOutcome::Again => {
                match task.stage {
                    RouteStage::Sending => RouteStep::Continue(
                        RouteTask { stage: RouteStage::DrainingFull, ..task },
                    ),
                    _ => {
                        self.pending.push_front(task.packet);
                        RouteStep::Finished(Ok(self.frames.len() > task.before_frames))
                    },
                }
            },
            SendOutcome::Failed(error) => self.route_failed(
                info,
                parameters,
                task,
                PlaybackError::Ffmpeg(error),
            ),
        }
    }

    /// Goes on when the decoder was asked for a frame.
    pub fn route_received(
        &mut self,
        info: &mut OpenedMediaInfo,
        parameters: &Vec<OwnedCodecParameters>,
        task: RouteTask,
        output: Result<DecoderOutputFrame, FfmpegError>,
    ) -> (r: RouteStep)
        requires
            task.stage is DrainingSent || task.stage is DrainingFull,
            old(self).route.decoder is Some,
        ensures
            output is Ok && output->Ok_0 is Frame ==> {
                &&& *final(info) == *old(info)
                &&& final(self).route == old(self).route
                &&& final(self).unavailable_reason == old(self).unavailable_reason
                &&& final(self).events == old(self).events
                &&& final(self).frames@ == old(self).frames@.push(
                    DecodedVideoFrame {
                        frame: output->Ok_0->Frame_0,
                        decode_backend: old(self).route.decoder->0.backend,
                    },
                )
                &&& final(self).pending == old(self).pending
                &&& r == RouteStep::Continue(task)
            },
            output is Ok && output->Ok_0 !is Frame ==> {
                &&& *final(info) == *old(info)
                &&& final(self).route == (VideoRoute {
                    decoder: Some(
                        old(self).route.decoder->0.after_receive(
                            Some(
                                if output->Ok_0 is EndOfStream {
                                    DecoderOutput::EndOfStream
                                } else {
                                    DecoderOutput::NeedMoreInput
                                },
                            ),
                        ),
                    ),
                    ..old(self).route
                })
                &&& final(self).unavailable_reason == old(self).unavailable_reason
                &&& final(self).events == old(self).events
                &&& final(self).frames@ == crate::playback::newest(
                    old(self).frames@,
                    task.limit as int,
                )
                &&& final(self).pending == old(self).pending
                &&& r == (if task.stage is DrainingSent {
                    RouteStep::Finished(Ok(true))
                } else {
                    RouteStep::Continue(RouteTask { stage: RouteStage::Resending, ..task })
                })
            },
            output is Err ==> fails_over(
                task,
                PlaybackError::Ffmpeg(output->Err_0),
                *old(self),
                *final(self),
                *old(info),
                *final(info),
                parameters@,
                r,
            ),
    {
        match output {
            Ok(DecoderOutputFrame::Frame(frame)) => {
                self.take_frame(frame);
                RouteStep::Continue(task)
            },
            Ok(DecoderOutputFrame::NeedMoreInput) => {
                self.note_output(DecoderOutput::NeedMoreInput);
                trim_video_queue(&mut self.frames, task.limit);
                Self::drained(task)
            },
            Ok(DecoderOutputFrame::EndOfStream) => {
                self.note_output(DecoderOutput::EndOfStream);
                trim_video_queue(&mut self.frames, task.limit);
                Self::drained(task)
            },
            Err(error) => self.route_failed(info, parameters, task, PlaybackError::Ffmpeg(error)),
        }
    }

    /// Goes on when the decoder that takes a failed one's place was opened, or was not. A packet
    /// that starts a decodable run is sent again; any other is thrown away, and so is what comes
    /// up to the next key frame.
    pub fn route_opened(
        &mut self,
        info: &mut OpenedMediaInfo,
        parameters: &Vec<OwnedCodecParameters>,
        task: RouteTask,
        opened: Result<Decoder, String>,
    ) -> (r: RouteStep)
        requires
            task.stage is Falling,
        ensures
            opened is Ok ==> {
                let key = task.packet.key();
                &&& exists|held: VideoPath| #[trigger]
                    crate::video::fallback_took_hold(
                        task.stage->Falling_0,
                        opened->Ok_0,
                        *old(self),
                        held,
                        *old(info),
                        *final(info),
                    ) && final(self).route == (VideoRoute {
                        waiting_for_keyframe: held.route.waiting_for_keyframe || !key,
                        ..held.route
                    }) && final(self).unavailable_reason == held.unavailable_reason
                        && final(self).events == held.events && final(self).frames == held.frames
                        && final(self).pending == held.pending
                &&& !key ==> r == RouteStep::Finished(Ok(true))
                &&& key ==> r == RouteStep::Continue(
                    RouteTask { stage: RouteStage::Sending, recovered: true, ..task },
                )
            },
            opened is Err && task.stage->Falling_0.target == MediaCodecFallbackTarget::ByteBuffer ==> {
                &&& crate::video::steps_to_software(
                    task.stage->Falling_0,
                    opened->Err_0@,
                    *old(self),
                    *final(self),
                    *old(info),
                    *final(info),
                    parameters@,
                    match r {
                        RouteStep::Continue(next) => FallbackStep::Open(next.stage->Falling_0),
                        RouteStep::Finished(result) => FallbackStep::Failed(result->Err_0),
                    },
                )
                &&& r is Finished ==> r->Finished_0 is Err
                &&& r is Continue ==> r->Continue_0.stage is Falling && r->Continue_0 == (
                RouteTask { stage: r->Continue_0.stage, ..task })
            },
            opened is Err && task.stage->Falling_0.target == MediaCodecFallbackTarget::Software
                ==> r is Finished && r->Finished_0 is Err && crate::video::nothing_left(
                task.stage->Falling_0,
                opened->Err_0@,
                *old(self),
                *final(self),
                *old(info),
                *final(info),
                FallbackStep::Failed(r->Finished_0->Err_0),
            ),
    {
        let RouteTask { packet, limit, before_frames, recovered, stage } = task;
        match stage {
            RouteStage::Falling(fallback) => match self.finish_fallback(
                info,
                parameters,
                fallback,
                opened,
            ) {
                FallbackStep::Open(next) => RouteStep::Continue(
                    RouteTask {
                        packet,
                        limit,
                        before_frames,
                        recovered,
                        stage: RouteStage::Falling(next),
                    },
                ),
                FallbackStep::Failed(error) => RouteStep::Finished(Err(error)),
                FallbackStep::Done => {
                    let ghost held = *self;
                    assert(crate::video::fallback_took_hold(
                        fallback,
                        opened->Ok_0,
                        *old(self),
                        held,
                        *old(info),
                        *info,
                    ));
                    if !packet.is_key() {
                        self.route.waiting_for_keyframe = true;
                        return RouteStep::Finished(Ok(true));
                    }
                    RouteStep::Continue(
                        RouteTask {
                            packet,
                            limit,
                            before_frames,
                            recovered: true,
                            stage: RouteStage::Sending,
                        },
                    )
                },
            },
            _ => RouteStep::Finished(Ok(true)),
        }
    }

    /// Takes a picture from the decoder in use.
    pub fn take_frame(&mut self, frame: crate::frame::Frame)
        requires
            old(self).route.decoder is Some,
        ensures
            final(self).route == old(self).route,
            final(self).unavailable_reason == old(self).unavailable_reason,
            final(self).events == old(self).events,
            final(self).frames@ == old(self).frames@.push(
                DecodedVideoFrame {
                    frame,
                    decode_backend: old(self).route.decoder->0.backend,
                },
            ),
            final(self).pending == old(self).pending,
    {
        if let Some(decoder) = &self.route.decoder {
            let decode_backend = decoder.backend();
            self.frames.push_back(DecodedVideoFrame { frame, decode_backend });
        }
    }

    /// Notes what the decoder in use said when it was asked for a frame.
    pub fn note_output(&mut self, output: DecoderOutput)
        requires
            old(self).route.decoder is Some,
        ensures
            final(self).route == (VideoRoute {
                decoder: Some(old(self).route.decoder->0.after_receive(Some(output))),
                ..old(self).route
            }),
            final(self).unavailable_reason == old(self).unavailable_reason,
            final(self).events == old(self).events,
            final(self).frames == old(self).frames,
            final(self).pending == old(self).pending,
    {
        if let Some(decoder) = self.route.decoder {
            let mut decoder = decoder;
            decoder.note_output(output);
            self.route.decoder = Some(decoder);
        }
    }

    fn drained(task: RouteTask) -> (r: RouteStep)
        requires
            task.stage is DrainingSent || task.stage is DrainingFull,
        ensures
            r == (if task.stage is DrainingSent {
                RouteStep::Finished(Ok(true))
            } else {
                RouteStep::Continue(RouteTask { stage: RouteStage::Resending, ..task })
            }),
    {
        match task.stage {
            RouteStage::DrainingSent => RouteStep::Finished(Ok(true)),
            _ => RouteStep::Continue(RouteTask { stage: RouteStage::Resending, ..task }),
        }
    }

    fn route_failed(
        &mut self,
        info: &mut OpenedMediaInfo,
        parameters: &Vec<OwnedCodecParameters>,
        task: RouteTask,
        error: PlaybackError,
    ) -> (r: RouteStep)
        ensures
            fails_over(
                task,
                error,
                *old(self),
                *final(self),
                *old(info),
                *final(info),
                parameters@,
                r,
            ),
    {
        if task.recovered {
            return RouteStep::Finished(Err(error));
        }
        let reason = error.message();
        let begun = match self.active_backend() {
            Some(DecoderBackend::MediaCodec) => match self.fallback_target() {
                Some(MediaCodecFallbackTarget::ByteBuffer) => self.begin_byte_buffer_fallback(
                    info,
                    parameters,
                    "decode",
                    reason.as_str(),
                    None,
                ),
                _ => self.begin_software_fallback(
                    info,
                    parameters,
                    "decode_bytebuffer_to_software",
                    reason.as_str(),
                    None,
                ),
            },
            Some(DecoderBackend::VideoToolbox) => {
                if !self.active_codec_is_av1(parameters) {
                    return RouteStep::Finished(Err(error));
                }
                self.begin_software_fallback(
                    info,
                    parameters,
                    "decode_videotoolbox_to_software",
                    reason.as_str(),
                    None,
                )
            },
            Some(DecoderBackend::AvCodec) => self.begin_software_fallback(
                info,
                parameters,
                "decode_avcodec_to_software",
                reason.as_str(),
                None,
            ),
            _ => {
                return RouteStep::Finished(Err(error));
            },
        };
        match begun {
            Err(missing) => RouteStep::Finished(Err(missing)),
            Ok(fallback) => RouteStep::Continue(
                RouteTask { stage: RouteStage::Falling(fallback), ..task },
            ),
        }
    }
}

/// A decoder is replaced at most once for one packet: what fails after that is an error.
pub proof fn law_one_packet_replaces_the_decoder_once(
    task: RouteTask,
    error: PlaybackError,
    before: VideoPath,
    after: VideoPath,
    info_before: OpenedMediaInfo,
    info_after: OpenedMediaInfo,
    parameters: Seq<OwnedCodecParameters>,
    r: RouteStep,
)
    requires
        task.recovered,
        fails_over(task, error, before, after, info_before, info_after, parameters, r),
    ensures
        r == RouteStep::Finished(Err(error)),
        after == before,
{
}

/// A decoder that failed is replaced by the next simpler one: a surface by the decoder without one,
/// that by software, and the others that the systems bring by software too, VideoToolbox only for
/// AV1. Software is not replaced, nor a decoder that has just been put in.
pub proof fn law_a_failed_decoder_makes_room(
    path: VideoPath,
    recovered: bool,
    parameters: Seq<OwnedCodecParameters>,
)
    ensures
        recovered ==> recovery(path, recovered, parameters) is None,
        path.route.decoder is None ==> recovery(path, recovered, parameters) is None,
        path.route.decoder is Some && !recovered ==> {
            let step = recovery(path, recovered, parameters);
            let decoder = path.route.decoder->0;
            let found = crate::video::parameters_of(parameters, decoder.stream_index);
            match decoder.backend {
                DecoderBackend::Software => step is None,
                DecoderBackend::D3d11va => step is None,
                DecoderBackend::AvCodec => step is Some && (step->0).0
                    == MediaCodecFallbackTarget::Software,
                DecoderBackend::MediaCodec => step is Some && ((step->0).0
                    == MediaCodecFallbackTarget::ByteBuffer <==> (decoder.mediacodec_surface
                    && !path.route.surface_disabled)),
                DecoderBackend::VideoToolbox => (step is Some <==> (found is Some
                    && crate::video::names_av1(found->0.parameters.codec_name))) && (step is Some
                    ==> (step->0).0 == MediaCodecFallbackTarget::Software),
            }
        },
{
}

/// A step down keeps the packet that failed, to be decoded again, and throws away what the failed
/// decoder had made.
pub proof fn law_a_step_down_keeps_the_packet(
    task: RouteTask,
    error: PlaybackError,
    before: VideoPath,
    after: VideoPath,
    info_before: OpenedMediaInfo,
    info_after: OpenedMediaInfo,
    parameters: Seq<OwnedCodecParameters>,
    r: RouteStep,
)
    requires
        fails_over(task, error, before, after, info_before, info_after, parameters, r),
    ensures
        r is Continue ==> r->Continue_0.packet == task.packet && after.route.decoder is None
            && after.frames@.len() == 0 && after.pending@.len() == 0
            && info_after.video_decode_backend is None && info_after.selected_video_track
            == info_before.selected_video_track && info_after.tracks == info_before.tracks,
        r !is Continue ==> after == before && info_after == info_before && r is Finished
            && r->Finished_0 is Err,
{
}

/// Sending and receiving alternate with the stage that the packet is in.
pub proof fn law_what_a_stage_asks_for(task: RouteTask)
    ensures
        task.needs() is SendPacket <==> (task.stage is Sending || task.stage is Resending),
        task.needs() is ReceiveFrame <==> (task.stage is DrainingSent || task.stage
            is DrainingFull),
        task.needs() is OpenDecoder <==> task.stage is Falling,
{
}

} // verus!
