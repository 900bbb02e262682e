//! A playback session: the queues of an open medium, and the pump that fills them.
use crate::audio::{
    AudioDrain, AudioDrainStep, AudioPath, AudioSendOutcome, AudioStage, AudioStep, AudioTask,
};
use crate::decoder::{Decoder, DecoderBackend, DecoderOutput};
use crate::demux::{AsyncDemuxer, PumpInput};
use crate::demuxer::OwnedCodecParameters;
use crate::error::{api_error, errno_again, FfmpegError, AVERROR_EOF};
use crate::external::SubtitlePath;
use crate::packet::Packet;
use crate::pcm::ResamplePlan;
use crate::playback::{
    audio_queue_blocks_demux, trim_subtitle_queue, OpenedMediaInfo, PlaybackError,
    PlaybackPumpDemand, PlaybackQueueLimits, DECODER_EOF_DRAIN_STALL_TIMEOUT_NANOS,
};
use crate::route::{RouteStep, RouteTask};
use crate::subtitle::DecodedSubtitleFrame;
use crate::time::{Duration, Instant};
use crate::video::{DecoderOutputFrame, StallReport, VideoPath, VideoRoute};
use vstd::prelude::*;

verus! {

/// How far the end of the medium has come.
#[derive(Clone, Copy, Debug, PartialEq, Eq, Structural)]
pub struct EofDrain {
    /// The demuxer has read the medium out.
    pub demux_eof: bool,
    pub polls: u64,
    pub pending_logged: bool,
    pub last_progress_at: Option<Instant>,
    /// The decoders are empty too.
    pub eof: bool,
}

/// A medium that is being read.
pub open spec fn undrained() -> EofDrain {
    EofDrain {
        demux_eof: false,
        polls: 0,
        pending_logged: false,
        last_progress_at: None,
        eof: false,
    }
}

/// An open medium.
pub struct PlaybackSession {
    pub demuxer: AsyncDemuxer,
    pub codec_parameters: Vec<OwnedCodecParameters>,
    pub video: VideoPath,
    pub audio: AudioPath,
    pub subtitles: SubtitlePath,
    pub info: OpenedMediaInfo,
    pub queue_limits: PlaybackQueueLimits,
    pub drain: EofDrain,
}

/// What a decoder makes of the end of its stream.
#[derive(Debug, PartialEq, Eq)]
pub enum EofOutcome {
    Accepted,
    /// The decoder knew already, and has nothing left.
    Ended,
    Again,
    Failed(FfmpegError),
}

impl EofOutcome {
    /// Whether this is what a decoder made of the end of its stream, on a machine with a given
    /// `EAGAIN`.
    pub open spec fn told(self, code: i32, message: Seq<char>, again: i32) -> bool {
        &&& self is Ended <==> code == AVERROR_EOF
        &&& self is Accepted <==> code >= 0
        &&& self is Again <==> code == -again && code != AVERROR_EOF
        &&& self is Failed ==> crate::error::api_error_for(
            self->Failed_0,
            "avcodec_send_packet_eof"@,
            code,
            message,
        )
    }

    /// Reads the status with which a decoder took the end of its stream; `again` is the machine's
    /// `EAGAIN`.
    pub fn read(code: i32, message: &str, again: i32) -> (r: Self)
        requires
            again > 0,
        ensures
            r.told(code, message@, again),
    {
        if code == AVERROR_EOF {
            return EofOutcome::Ended;
        }
        if code >= 0 {
            return EofOutcome::Accepted;
        }
        let error = api_error("avcodec_send_packet_eof", code, message);
        if error.reports_errno(again) {
            EofOutcome::Again
        } else {
            EofOutcome::Failed(error)
        }
    }

    /// Reads the status with which a decoder took the end of its stream on this machine.
    pub fn of(code: i32, message: &str) -> (r: Self)
        ensures
            exists|again: i32|
                crate::error::means_again(again) && #[trigger] r.told(code, message@, again),
    {
        Self::read(code, message, errno_again())
    }
}

/// The emptying of the decoders behind the end of the medium.
#[derive(Clone, Copy, Debug, PartialEq, Eq, Structural)]
pub struct Finishing {
    pub made_progress: bool,
    /// The pump has just learnt of the end, which counts as a move in any case.
    pub from_poll: bool,
    pub at: Instant,
}

/// What a drain of the audio decoder waits for.
#[derive(Clone, Copy, Debug, PartialEq, Eq, Structural)]
pub enum AudioDrainPhase {
    Receive,
    Convert(ResamplePlan),
    DrainResampler,
}

/// Where a pump stands. The first group goes on by itself; the others wait for a call.
#[derive(Debug)]
pub enum PumpStage {
    /// The packets that wait are looked at.
    Pending { routed: bool },
    /// The packets that wait are done with.
    Settled { routed: bool },
    /// Nothing waits: may the demuxer be asked?
    Gate,
    /// The medium is read out: the decoders are emptied.
    Finish,
    EofBegin,
    VideoPart,
    AudioPart,
    Conclude,
    RoutePending { routed: bool, route: RouteTask },
    Poll,
    RouteVideo { route: RouteTask },
    RouteAudio { task: AudioTask, phase: AudioDrainPhase },
    DecodeSubtitle { packet: Packet },
    VideoEof,
    VideoDrain { frames: usize },
    AudioEof,
    DrainAudio { drain: AudioDrain, phase: AudioDrainPhase },
}

/// One pump of the session that is under way.
#[derive(Debug)]
pub struct PumpTask {
    pub demand: PlaybackPumpDemand,
    pub finishing: Option<Finishing>,
    pub stage: PumpStage,
}

/// What is reported of decoders that do not come to their end.
#[derive(Clone, Copy, Debug, PartialEq, Eq, Structural)]
pub struct DrainReport {
    pub stalled_for: Duration,
    pub polls: u64,
    pub video_complete: bool,
    pub audio_complete: bool,
    pub backend: Option<DecoderBackend>,
}

/// Why a pump failed.
#[derive(Debug)]
pub enum PumpFailure {
    Playback(PlaybackError),
    InputStall(StallReport),
    DrainStall(DrainReport),
}

/// How a pump goes on; at its end stands whether anything moved.
#[derive(Debug)]
pub enum PumpStep {
    Continue(PumpTask),
    Finished(Result<bool, PumpFailure>),
}

impl PumpTask {
    /// The same pump at another stage.
    pub open spec fn at(self, stage: PumpStage) -> PumpTask {
        PumpTask { stage, ..self }
    }

    /// What the pump comes to where `moved` tells whether anything moved.
    pub open spec fn ends(self, moved: bool) -> PumpStep {
        PumpStep::Finished(Ok(moved || (self.finishing is Some && self.finishing->0.from_poll)))
    }

    fn end(&self, moved: bool) -> (r: PumpStep)
        ensures
            r == self.ends(moved),
    {
        match &self.finishing {
            Some(finishing) => PumpStep::Finished(Ok(moved || finishing.from_poll)),
            None => PumpStep::Finished(Ok(moved)),
        }
    }

    fn moved_to(self, stage: PumpStage) -> (r: PumpStep)
        ensures
            r == PumpStep::Continue(self.at(stage)),
    {
        PumpStep::Continue(
            PumpTask { demand: self.demand, finishing: self.finishing, stage },
        )
    }

    /// The same emptying of the decoders, with a move noted.
    pub open spec fn noting(self, moved: bool) -> PumpTask {
        PumpTask {
            finishing: match self.finishing {
                Some(finishing) => Some(
                    Finishing {
                        made_progress: finishing.made_progress || moved,
                        ..finishing
                    },
                ),
                None => None,
            },
            ..self
        }
    }

    fn note(self, moved: bool) -> (r: PumpTask)
        ensures
            r == self.noting(moved),
    {
        let finishing = match self.finishing {
            Some(finishing) => Some(
                Finishing {
                    made_progress: finishing.made_progress || moved,
                    from_poll: finishing.from_poll,
                    at: finishing.at,
                },
            ),
            None => None,
        };
        PumpTask { finishing, ..self }
    }
}

impl PlaybackSession {
    /// Whether two sessions differ in their video alone.
    pub open spec fn same_but_video(self, other: PlaybackSession) -> bool {
        &&& self.demuxer == other.demuxer
        &&& self.codec_parameters == other.codec_parameters
        &&& self.audio == other.audio
        &&& self.subtitles == other.subtitles
        &&& self.info == other.info
        &&& self.queue_limits == other.queue_limits
        &&& self.drain == other.drain
    }

    /// Whether two sessions differ in their video and what is known of it.
    pub open spec fn same_but_video_and_info(self, other: PlaybackSession) -> bool {
        &&& self.demuxer == other.demuxer
        &&& self.codec_parameters == other.codec_parameters
        &&& self.audio == other.audio
        &&& self.subtitles == other.subtitles
        &&& self.queue_limits == other.queue_limits
        &&& self.drain == other.drain
    }

    /// Whether two sessions differ in their audio alone.
    pub open spec fn same_but_audio(self, other: PlaybackSession) -> bool {
        &&& self.demuxer == other.demuxer
        &&& self.codec_parameters == other.codec_parameters
        &&& self.video == other.video
        &&& self.subtitles == other.subtitles
        &&& self.info == other.info
        &&& self.queue_limits == other.queue_limits
        &&& self.drain == other.drain
    }

    /// Starts a pump. While video is held back, the packets that wait are let be.
    pub fn begin_pump(&self, demand: PlaybackPumpDemand) -> (r: PumpTask)
        ensures
            r.demand == demand,
            r.finishing is None,
            r.stage == (if self.video.route.suspended {
                PumpStage::Gate
            } else {
                PumpStage::Pending { routed: false }
            }),
    {
        PumpTask {
            demand,
            finishing: None,
            stage: if self.video.route.suspended {
                PumpStage::Gate
            } else {
                PumpStage::Pending { routed: false }
            },
        }
    }

    /// Looks at the packets that wait. One that is due goes to the decoder; where none is, or where
    /// the decoder's own pictures would run out, the wait is no stall.
    pub fn pump_pending(&mut self, task: PumpTask) -> (r: PumpStep)
        requires
            task.stage is Pending,
        ensures
            final(self).same_but_video(*old(self)),
            final(self).video.unavailable_reason == old(self).video.unavailable_reason,
            final(self).video.events == old(self).video.events,
            final(self).video.frames == old(self).video.frames,
            ({
                let routed = task.stage->Pending_routed;
                let waiting = old(self).video.pending@;
                let quiet = VideoRoute {
                    stall: crate::video::quiet_watch(),
                    ..old(self).video.route
                };
                if old(self).video.defers() || waiting.len() == 0 {
                    &&& final(self).video.route == quiet
                    &&& final(self).video.pending@ == waiting
                    &&& r == PumpStep::Continue(task.at(PumpStage::Settled { routed }))
                } else if old(self).video.route.waiting_for_keyframe && !waiting[0].key() {
                    &&& final(self).video.route == quiet
                    &&& final(self).video.pending@ == waiting.subrange(1, waiting.len() as int)
                    &&& r == PumpStep::Continue(task.at(PumpStage::Pending { routed: true }))
                } else {
                    &&& final(self).video.route == (VideoRoute {
                        waiting_for_keyframe: false,
                        ..old(self).video.route
                    })
                    &&& final(self).video.pending@ == waiting.subrange(1, waiting.len() as int)
                    &&& r == PumpStep::Continue(
                        task.at(
                            PumpStage::RoutePending {
                                routed,
                                route: RouteTask {
                                    packet: waiting[0],
                                    limit: old(self).video.picture_limit(
                                        old(self).queue_limits.video_frames,
                                    ),
                                    before_frames: old(self).video.frames@.len() as usize,
                                    recovered: false,
                                    stage: crate::route::RouteStage::Sending,
                                },
                            },
                        ),
                    )
                }
            }),
    {
        let routed = match &task.stage {
            PumpStage::Pending { routed } => *routed,
            _ => false,
        };
        if self.video.should_defer() {
            self.video.reset_stall();
            return task.moved_to(PumpStage::Settled { routed });
        }
        match self.video.pending.pop_front() {
            None => {
                self.video.reset_stall();
                task.moved_to(PumpStage::Settled { routed })
            },
            Some(packet) => match self.video.begin_route(packet, self.queue_limits.video_frames) {
                RouteStep::Continue(route) => task.moved_to(
                    PumpStage::RoutePending { routed, route },
                ),
                RouteStep::Finished(_) => {
                    self.video.reset_stall();
                    task.moved_to(PumpStage::Pending { routed: true })
                },
            },
        }
    }

    /// Decides what comes behind the packets that wait.
    pub fn pump_settled(&self, task: PumpTask) -> (r: PumpStep)
        requires
            task.stage is Settled,
        ensures
            ({
                let routed = task.stage->Settled_routed;
                let waiting = self.video.pending@.len() > 0;
                r == (match task.finishing {
                    None => if routed {
                        PumpStep::Finished(Ok(true))
                    } else if waiting {
                        PumpStep::Finished(Ok(false))
                    } else {
                        PumpStep::Continue(task.at(PumpStage::Gate))
                    },
                    Some(finishing) => if routed {
                        PumpStep::Continue(
                            task.noting(true).at(PumpStage::Pending { routed: false }),
                        )
                    } else if waiting {
                        task.ends(finishing.made_progress)
                    } else {
                        PumpStep::Continue(task.at(PumpStage::EofBegin))
                    },
                })
            }),
    {
        let routed = match &task.stage {
            PumpStage::Settled { routed } => *routed,
            _ => false,
        };
        let waiting = self.video.pending.len() > 0;
        match task.finishing {
            None => {
                if routed {
                    PumpStep::Finished(Ok(true))
                } else if waiting {
                    PumpStep::Finished(Ok(false))
                } else {
                    task.moved_to(PumpStage::Gate)
                }
            },
            Some(finishing) => {
                if routed {
                    task.note(true).moved_to(PumpStage::Pending { routed: false })
                } else if waiting {
                    task.end(finishing.made_progress)
                } else {
                    task.moved_to(PumpStage::EofBegin)
                }
            },
        }
    }

    /// Decides whether the demuxer is asked for a packet.
    pub fn pump_gate(&self, task: PumpTask) -> (r: PumpStep)
        requires
            task.stage is Gate,
        ensures
            r == (if crate::playback::audio_blocks(
                task.demand,
                self.audio.route.output_active,
                self.audio.frames@.len() as usize,
                self.queue_limits.audio_frames,
            ) {
                PumpStep::Finished(Ok(false))
            } else if self.drain.demux_eof {
                PumpStep::Continue(task.at(PumpStage::Finish))
            } else {
                PumpStep::Continue(task.at(PumpStage::Poll))
            }),
    {
        if audio_queue_blocks_demux(
            task.demand,
            self.audio.route.output_active,
            self.audio.frames.len(),
            self.queue_limits.audio_frames,
        ) {
            return PumpStep::Finished(Ok(false));
        }
        if self.drain.demux_eof {
            return task.moved_to(PumpStage::Finish);
        }
        task.moved_to(PumpStage::Poll)
    }

    /// The same session on another handle of the demuxer.
    pub open spec fn with_demuxer(self, demuxer: AsyncDemuxer) -> PlaybackSession {
        PlaybackSession { demuxer, ..self }
    }

    /// Asks the demuxer for a packet and goes on with what came.
    pub fn pump_poll(&mut self, task: PumpTask) -> (r: PumpStep)
        requires
            task.stage is Poll,
        ensures
            exists|input: Result<PumpInput, PlaybackError>|
                final(self).demuxer.polled(old(self).demuxer, input)
                    && #[trigger] final(self).input_taken(
                    old(self).with_demuxer(final(self).demuxer),
                    task,
                    input,
                    r,
                ) && (input is Err ==> input->Err_0 is DemuxWorker),
    {
        let input = self.demuxer.poll();
        let ghost arrived = input;
        let ghost polled = *self;
        let r = self.pump_input(task, input);
        assert(polled == old(self).with_demuxer(self.demuxer));
        assert(self.input_taken(polled, task, arrived, r));
        r
    }

    /// Where a packet goes.
    pub open spec fn is_video(self, packet: Packet) -> bool {
        self.video.route.decoder is Some && self.video.route.decoder->0.stream_index
            == packet.stream_index
    }

    pub open spec fn is_audio(self, packet: Packet) -> bool {
        self.audio.route.decoder is Some && self.audio.route.decoder->0.stream_index
            == packet.stream_index
    }

    pub open spec fn is_subtitle(self, packet: Packet) -> bool {
        self.subtitles.decoder is Some && self.subtitles.decoder->0.stream_index
            == packet.stream_index
    }

    /// Whether what the demuxer brought was taken up: `before` is the session before it.
    pub open spec fn input_taken(
        self,
        before: PlaybackSession,
        task: PumpTask,
        input: Result<PumpInput, PlaybackError>,
        r: PumpStep,
    ) -> bool {
        &&& self.demuxer == before.demuxer
        &&& self.codec_parameters == before.codec_parameters
        &&& self.audio == before.audio
        &&& self.subtitles == before.subtitles
        &&& self.info == before.info
        &&& self.queue_limits == before.queue_limits
        &&& input is Err ==> self == before && r == PumpStep::Finished(
                Err(PumpFailure::Playback(input->Err_0)),
            )
        &&& input is Ok && input->Ok_0 is Empty ==> self == before && r
                == PumpStep::Finished(Ok(false))
        &&& input is Ok && input->Ok_0 is Eof ==> {
                &&& self.video == before.video
                &&& self.drain == (EofDrain { demux_eof: true, ..before.drain })
                &&& r is Continue && r->Continue_0.stage is Finish && r->Continue_0.demand
                    == task.demand && r->Continue_0.finishing is Some
                    && r->Continue_0.finishing->0.from_poll
                    && !r->Continue_0.finishing->0.made_progress
            }
        &&& input is Ok && input->Ok_0 is Packet ==> {
                let packet = input->Ok_0->Packet_0;
                let video = before.video;
                &&& self.drain == before.drain
                &&& self.video.unavailable_reason == video.unavailable_reason
                &&& self.video.events == video.events
                &&& self.video.frames == video.frames
                &&& if before.is_video(packet) {
                    if video.route.suspended {
                        self == before && r == PumpStep::Finished(Ok(true))
                    } else if video.defers() {
                        self.video.route == video.route && self.video.pending@
                            == video.pending@.push(packet) && r == PumpStep::Finished(Ok(true))
                    } else if video.route.waiting_for_keyframe && !packet.key() {
                        self == before && r == PumpStep::Finished(Ok(true))
                    } else {
                        self.video.route == (VideoRoute {
                            waiting_for_keyframe: false,
                            ..video.route
                        }) && self.video.pending == video.pending && r
                            == PumpStep::Continue(
                            task.at(
                                PumpStage::RouteVideo {
                                    route: RouteTask {
                                        packet,
                                        limit: video.picture_limit(
                                            before.queue_limits.video_frames,
                                        ),
                                        before_frames: video.frames@.len() as usize,
                                        recovered: false,
                                        stage: crate::route::RouteStage::Sending,
                                    },
                                },
                            ),
                        )
                    }
                } else {
                    &&& self == before
                    &&& r == (if before.is_audio(packet) {
                        PumpStep::Continue(
                            task.at(
                                PumpStage::RouteAudio {
                                    task: AudioTask { packet, stage: AudioStage::Sending },
                                    phase: AudioDrainPhase::Receive,
                                },
                            ),
                        )
                    } else if before.is_subtitle(packet) {
                        PumpStep::Continue(task.at(PumpStage::DecodeSubtitle { packet }))
                    } else {
                        PumpStep::Finished(Ok(true))
                    })
                }
            }
    }

    /// Goes on with what the demuxer brought: a packet goes to the decoder of its stream, the
    /// video decoder first. Video that is held back is thrown away; video that the decoder has no
    /// room for waits.
    pub fn pump_input(&mut self, task: PumpTask, input: Result<PumpInput, PlaybackError>) -> (r:
        PumpStep)
        ensures
            final(self).input_taken(*old(self), task, input, r),
    {
        match input {
            Err(error) => PumpStep::Finished(Err(PumpFailure::Playback(error))),
            Ok(PumpInput::Empty) => PumpStep::Finished(Ok(false)),
            Ok(PumpInput::Eof) => {
                self.drain.demux_eof = true;
                PumpStep::Continue(
                    PumpTask {
                        demand: task.demand,
                        finishing: Some(
                            Finishing {
                                made_progress: false,
                                from_poll: true,
                                at: Instant { nanos: 0 },
                            },
                        ),
                        stage: PumpStage::Finish,
                    },
                )
            },
            Ok(PumpInput::Packet(packet)) => {
                let stream_index: i32 = packet.stream_index();
                let for_video = match &self.video.route.decoder {
                    Some(decoder) => decoder.stream_index() == stream_index,
                    None => false,
                };
                if for_video {
                    if self.video.route.suspended {
                        return PumpStep::Finished(Ok(true));
                    }
                    if self.video.should_defer() {
                        self.video.pending.push_back(packet);
                        return PumpStep::Finished(Ok(true));
                    }
                    return match self.video.begin_route(packet, self.queue_limits.video_frames) {
                        RouteStep::Continue(route) => task.moved_to(
                            PumpStage::RouteVideo { route },
                        ),
                        RouteStep::Finished(_) => PumpStep::Finished(Ok(true)),
                    };
                }
                let for_audio = match &self.audio.route.decoder {
                    Some(decoder) => decoder.stream_index() == stream_index,
                    None => false,
                };
                if for_audio {
                    return task.moved_to(
                        PumpStage::RouteAudio {
                            task: self.audio.begin_route(packet),
                            phase: AudioDrainPhase::Receive,
                        },
                    );
                }
                let for_subtitles = match &self.subtitles.decoder {
                    Some(decoder) => decoder.stream_index() == stream_index,
                    None => false,
                };
                if for_subtitles {
                    return task.moved_to(PumpStage::DecodeSubtitle { packet });
                }
                PumpStep::Finished(Ok(true))
            },
        }
    }

    /// Goes on with a step of the decoding of a video packet. A packet that was waiting and moved
    /// ends a stall; one that did not is noted.
    pub fn pump_route(&mut self, task: PumpTask, step: RouteStep, now: Instant) -> (r: PumpStep)
        requires
            task.stage is RoutePending || task.stage is RouteVideo,
        ensures
            final(self).same_but_video(*old(self)),
            final(self).video.unavailable_reason == old(self).video.unavailable_reason,
            final(self).video.events == old(self).video.events,
            final(self).video.frames == old(self).video.frames,
            final(self).video.pending == old(self).video.pending,
            step is Continue ==> *final(self) == *old(self) && r == PumpStep::Continue(
                task.at(
                    if task.stage is RoutePending {
                        PumpStage::RoutePending {
                            routed: task.stage->RoutePending_routed,
                            route: step->Continue_0,
                        }
                    } else {
                        PumpStage::RouteVideo { route: step->Continue_0 }
                    },
                ),
            ),
            step is Finished && step->Finished_0 is Err ==> *final(self) == *old(self) && r
                == PumpStep::Finished(Err(PumpFailure::Playback(step->Finished_0->Err_0))),
            step is Finished && step->Finished_0 is Ok && task.stage is RouteVideo ==> *final(self)
                == *old(self) && r == PumpStep::Finished(Ok(true)),
            step is Finished && step->Finished_0 is Ok && task.stage is RoutePending ==> {
                let since = match old(self).video.route.stall.started_at {
                    Some(started_at) => started_at,
                    None => now,
                };
                let polls = crate::video::one_more(old(self).video.route.stall.polls);
                if step->Finished_0->Ok_0 {
                    &&& final(self).video.route == (VideoRoute {
                        stall: crate::video::quiet_watch(),
                        ..old(self).video.route
                    })
                    &&& r == PumpStep::Continue(task.at(PumpStage::Pending { routed: true }))
                } else {
                    &&& final(self).video.route == (VideoRoute {
                        stall: crate::video::StallWatch {
                            polls,
                            logged: true,
                            started_at: Some(since),
                        },
                        ..old(self).video.route
                    })
                    &&& r == (if now.since(since).nanos
                        < crate::playback::DECODER_INPUT_STALL_TIMEOUT_NANOS {
                        PumpStep::Continue(
                            task.at(
                                PumpStage::Settled { routed: task.stage->RoutePending_routed },
                            ),
                        )
                    } else {
                        PumpStep::Finished(
                            Err(
                                PumpFailure::InputStall(
                                    StallReport {
                                        stalled_for: now.since(since),
                                        polls,
                                        pending_packets: old(self).video.pending@.len() as usize,
                                        backend: old(self).video.backend(),
                                    },
                                ),
                            ),
                        )
                    })
                }
            },
    {
        let pending: Option<bool> = match &task.stage {
            PumpStage::RoutePending { routed, .. } => Some(*routed),
            _ => None,
        };
        match step {
            RouteStep::Continue(route) => match pending {
                Some(routed) => task.moved_to(PumpStage::RoutePending { routed, route }),
                None => task.moved_to(PumpStage::RouteVideo { route }),
            },
            RouteStep::Finished(Err(error)) => PumpStep::Finished(
                Err(PumpFailure::Playback(error)),
            ),
            RouteStep::Finished(Ok(moved)) => match pending {
                None => PumpStep::Finished(Ok(true)),
                Some(routed) => {
                    if moved {
                        self.video.reset_stall();
                        return task.moved_to(PumpStage::Pending { routed: true });
                    }
                    match self.video.observe_stall(now) {
                        Ok(()) => task.moved_to(PumpStage::Settled { routed }),
                        Err(report) => PumpStep::Finished(Err(PumpFailure::InputStall(report))),
                    }
                },
            },
        }
    }

    /// Goes on with what was decoded of a subtitle packet.
    pub fn pump_subtitle(
        &mut self,
        task: PumpTask,
        decoded: Result<Option<DecodedSubtitleFrame>, FfmpegError>,
    ) -> (r: PumpStep)
        requires
            task.stage is DecodeSubtitle,
        ensures
            final(self).demuxer == old(self).demuxer,
            final(self).codec_parameters == old(self).codec_parameters,
            final(self).video == old(self).video,
            final(self).audio == old(self).audio,
            final(self).info == old(self).info,
            final(self).queue_limits == old(self).queue_limits,
            final(self).drain == old(self).drain,
            final(self).subtitles.decoder == old(self).subtitles.decoder,
            final(self).subtitles.fonts == old(self).subtitles.fonts,
            final(self).subtitles.external == old(self).subtitles.external,
            final(self).subtitles.frames@ == (if decoded is Ok && decoded->Ok_0 is Some {
                crate::playback::newest(
                    old(self).subtitles.frames@.push(decoded->Ok_0->0),
                    old(self).queue_limits.subtitle_frames as int,
                )
            } else {
                old(self).subtitles.frames@
            }),
            r == (match decoded {
                Ok(_) => PumpStep::Finished(Ok(true)),
                Err(error) => PumpStep::Finished(
                    Err(PumpFailure::Playback(PlaybackError::Ffmpeg(error))),
                ),
            }),
    {
        match decoded {
            Err(error) => PumpStep::Finished(
                Err(PumpFailure::Playback(PlaybackError::Ffmpeg(error))),
            ),
            Ok(None) => PumpStep::Finished(Ok(true)),
            Ok(Some(frame)) => {
                self.subtitles.frames.push_back(frame);
                trim_subtitle_queue(
                    &mut self.subtitles.frames,
                    self.queue_limits.subtitle_frames,
                );
                PumpStep::Finished(Ok(true))
            },
        }
    }

    /// Begins to empty the decoders, or notes that they are empty.
    pub fn pump_finish(&self, task: PumpTask) -> (r: PumpStep)
        requires
            task.stage is Finish,
        ensures
            ({
                let from_poll = task.finishing is Some && task.finishing->0.from_poll;
                if self.drain.eof {
                    r == PumpStep::Finished(Ok(from_poll))
                } else {
                    &&& r is Continue
                    &&& r->Continue_0.demand == task.demand
                    &&& r->Continue_0.finishing is Some
                    &&& r->Continue_0.finishing->0.from_poll == from_poll
                    &&& !r->Continue_0.finishing->0.made_progress
                    &&& r->Continue_0.stage == (if self.video.route.suspended {
                        PumpStage::EofBegin
                    } else {
                        PumpStage::Pending { routed: false }
                    })
                }
            }),
    {
        let from_poll = match &task.finishing {
            Some(finishing) => finishing.from_poll,
            None => false,
        };
        if self.drain.eof {
            return PumpStep::Finished(Ok(from_poll));
        }
        PumpStep::Continue(
            PumpTask {
                demand: task.demand,
                finishing: Some(
                    Finishing { made_progress: false, from_poll, at: Instant { nanos: 0 } },
                ),
                stage: if self.video.route.suspended {
                    PumpStage::EofBegin
                } else {
                    PumpStage::Pending { routed: false }
                },
            },
        )
    }

    /// Notes that the decoders are polled for their end once more.
    pub fn pump_eof_begin(&mut self, task: PumpTask, now: Instant) -> (r: PumpStep)
        requires
            task.stage is EofBegin,
            task.finishing is Some,
        ensures
            final(self).demuxer == old(self).demuxer,
            final(self).codec_parameters == old(self).codec_parameters,
            final(self).video == old(self).video,
            final(self).audio == old(self).audio,
            final(self).subtitles == old(self).subtitles,
            final(self).info == old(self).info,
            final(self).queue_limits == old(self).queue_limits,
            final(self).drain == (EofDrain {
                polls: crate::video::one_more(old(self).drain.polls),
                last_progress_at: match old(self).drain.last_progress_at {
                    Some(at) => Some(at),
                    None => Some(now),
                },
                ..old(self).drain
            }),
            r == PumpStep::Continue(
                PumpTask {
                    finishing: Some(Finishing { at: now, ..task.finishing->0 }),
                    stage: PumpStage::VideoPart,
                    ..task
                },
            ),
    {
        self.drain.polls = self.drain.polls.saturating_add(1);
        if self.drain.last_progress_at.is_none() {
            self.drain.last_progress_at = Some(now);
        }
        let finishing = match task.finishing {
            Some(finishing) => Some(
                Finishing {
                    made_progress: finishing.made_progress,
                    from_poll: finishing.from_poll,
                    at: now,
                },
            ),
            None => None,
        };
        PumpStep::Continue(
            PumpTask { demand: task.demand, finishing, stage: PumpStage::VideoPart },
        )
    }

    /// Decides what the video decoder is asked on the way to its end.
    pub fn pump_video_part(&self, task: PumpTask) -> (r: PumpStep)
        requires
            task.stage is VideoPart,
        ensures
            r == PumpStep::Continue(
                task.at(
                    match self.video.route.decoder {
                        Some(decoder) => if self.video.route.suspended || decoder.end_of_stream {
                            PumpStage::AudioPart
                        } else if decoder.eof_sent {
                            PumpStage::VideoDrain { frames: 0 }
                        } else {
                            PumpStage::VideoEof
                        },
                        None => PumpStage::AudioPart,
                    },
                ),
            ),
    {
        let stage = match &self.video.route.decoder {
            Some(decoder) => if self.video.route.suspended || decoder.is_end_of_stream() {
                PumpStage::AudioPart
            } else if decoder.eof_sent() {
                PumpStage::VideoDrain { frames: 0 }
            } else {
                PumpStage::VideoEof
            },
            None => PumpStage::AudioPart,
        };
        task.moved_to(stage)
    }

    /// Goes on when the video decoder was told of the end.
    pub fn pump_video_eof(&mut self, task: PumpTask, outcome: EofOutcome) -> (r: PumpStep)
        requires
            task.stage is VideoEof,
            old(self).video.route.decoder is Some,
        ensures
            final(self).same_but_video(*old(self)),
            final(self).video.unavailable_reason == old(self).video.unavailable_reason,
            final(self).video.events == old(self).video.events,
            final(self).video.frames == old(self).video.frames,
            final(self).video.pending == old(self).video.pending,
            final(self).video.route == (VideoRoute {
                decoder: Some(told_of_end(old(self).video.route.decoder->0, outcome)),
                ..old(self).video.route
            }),
            r == (match outcome {
                EofOutcome::Failed(error) => PumpStep::Finished(
                    Err(PumpFailure::Playback(PlaybackError::Ffmpeg(error))),
                ),
                EofOutcome::Again => PumpStep::Continue(
                    task.at(PumpStage::VideoDrain { frames: 0 }),
                ),
                _ => PumpStep::Continue(
                    task.noting(true).at(PumpStage::VideoDrain { frames: 0 }),
                ),
            }),
    {
        if let Some(decoder) = self.video.route.decoder {
            self.video.route.decoder = Some(note_end(decoder, &outcome));
        }
        match outcome {
            EofOutcome::Failed(error) => PumpStep::Finished(
                Err(PumpFailure::Playback(PlaybackError::Ffmpeg(error))),
            ),
            EofOutcome::Again => task.moved_to(PumpStage::VideoDrain { frames: 0 }),
            _ => task.note(true).moved_to(PumpStage::VideoDrain { frames: 0 }),
        }
    }

    /// Goes on when the video decoder was asked for a frame on the way to its end. Every frame is
    /// kept.
    pub fn pump_video_drain(
        &mut self,
        task: PumpTask,
        output: Result<DecoderOutputFrame, FfmpegError>,
    ) -> (r: PumpStep)
        requires
            task.stage is VideoDrain,
            old(self).video.route.decoder is Some,
        ensures
            final(self).same_but_video(*old(self)),
            final(self).video.unavailable_reason == old(self).video.unavailable_reason,
            final(self).video.events == old(self).video.events,
            final(self).video.pending == old(self).video.pending,
            final(self).video.frames@ == (if output is Ok && output->Ok_0 is Frame {
                old(self).video.frames@.push(
                    crate::video::DecodedVideoFrame {
                        frame: output->Ok_0->Frame_0,
                        decode_backend: old(self).video.route.decoder->0.backend,
                    },
                )
            } else {
                old(self).video.frames@
            }),
            final(self).video.route == (if output is Ok && output->Ok_0 is EndOfStream {
                VideoRoute {
                    decoder: Some(
                        old(self).video.route.decoder->0.after_receive(
                            Some(DecoderOutput::EndOfStream),
                        ),
                    ),
                    ..old(self).video.route
                }
            } else {
                old(self).video.route
            }),
            ({
                let frames = task.stage->VideoDrain_frames;
                r == (match output {
                    Err(error) => PumpStep::Finished(
                        Err(PumpFailure::Playback(PlaybackError::Ffmpeg(error))),
                    ),
                    Ok(DecoderOutputFrame::Frame(_)) => PumpStep::Continue(
                        task.at(PumpStage::VideoDrain { frames: crate::pcm::more(frames) }),
                    ),
                    Ok(DecoderOutputFrame::NeedMoreInput) => PumpStep::Continue(
                        task.noting(frames > 0).at(PumpStage::AudioPart),
                    ),
                    Ok(DecoderOutputFrame::EndOfStream) => PumpStep::Continue(
                        task.noting(true).at(PumpStage::AudioPart),
                    ),
                })
            }),
    {
        let frames: usize = match &task.stage {
            PumpStage::VideoDrain { frames } => *frames,
            _ => 0,
        };
        match output {
            Err(error) => PumpStep::Finished(
                Err(PumpFailure::Playback(PlaybackError::Ffmpeg(error))),
            ),
            Ok(DecoderOutputFrame::Frame(frame)) => {
                self.video.take_frame(frame);
                task.moved_to(PumpStage::VideoDrain { frames: frames.saturating_add(1) })
            },
            Ok(DecoderOutputFrame::NeedMoreInput) => task.note(frames > 0).moved_to(
                PumpStage::AudioPart,
            ),
            Ok(DecoderOutputFrame::EndOfStream) => {
                self.video.note_output(DecoderOutput::EndOfStream);
                task.note(true).moved_to(PumpStage::AudioPart)
            },
        }
    }

    /// Decides what the audio decoder is asked on the way to its end.
    pub fn pump_audio_part(&self, task: PumpTask) -> (r: PumpStep)
        requires
            task.stage is AudioPart,
        ensures
            r == PumpStep::Continue(
                task.at(
                    match self.audio.route.decoder {
                        Some(decoder) => if decoder.end_of_stream {
                            PumpStage::Conclude
                        } else if decoder.eof_sent {
                            PumpStage::DrainAudio {
                                drain: crate::audio::fresh_drain(),
                                phase: AudioDrainPhase::Receive,
                            }
                        } else {
                            PumpStage::AudioEof
                        },
                        None => PumpStage::Conclude,
                    },
                ),
            ),
    {
        let stage = match &self.audio.route.decoder {
            Some(decoder) => if decoder.is_end_of_stream() {
                PumpStage::Conclude
            } else if decoder.eof_sent() {
                PumpStage::DrainAudio {
                    drain: AudioDrain::begin(),
                    phase: AudioDrainPhase::Receive,
                }
            } else {
                PumpStage::AudioEof
            },
            None => PumpStage::Conclude,
        };
        task.moved_to(stage)
    }

    /// Goes on when the audio decoder was told of the end.
    pub fn pump_audio_eof(&mut self, task: PumpTask, outcome: EofOutcome) -> (r: PumpStep)
        requires
            task.stage is AudioEof,
            old(self).audio.route.decoder is Some,
        ensures
            final(self).same_but_audio(*old(self)),
            final(self).audio.frames == old(self).audio.frames,
            final(self).audio.route == (crate::audio::AudioRoute {
                decoder: Some(told_of_end(old(self).audio.route.decoder->0, outcome)),
                ..old(self).audio.route
            }),
            ({
                let next = PumpStage::DrainAudio {
                    drain: crate::audio::fresh_drain(),
                    phase: AudioDrainPhase::Receive,
                };
                r == (match outcome {
                    EofOutcome::Failed(error) => PumpStep::Finished(
                        Err(PumpFailure::Playback(PlaybackError::Ffmpeg(error))),
                    ),
                    EofOutcome::Again => PumpStep::Continue(task.at(next)),
                    _ => PumpStep::Continue(task.noting(true).at(next)),
                })
            }),
    {
        if let Some(decoder) = self.audio.route.decoder {
            self.audio.route.decoder = Some(note_end(decoder, &outcome));
        }
        let next = PumpStage::DrainAudio {
            drain: AudioDrain::begin(),
            phase: AudioDrainPhase::Receive,
        };
        match outcome {
            EofOutcome::Failed(error) => PumpStep::Finished(
                Err(PumpFailure::Playback(PlaybackError::Ffmpeg(error))),
            ),
            EofOutcome::Again => task.moved_to(next),
            _ => task.note(true).moved_to(next),
        }
    }

    /// Goes on when an audio packet was sent.
    pub fn pump_audio_sent(&mut self, task: PumpTask, outcome: AudioSendOutcome) -> (r: PumpStep)
        requires
            task.stage is RouteAudio,
            task.stage->RouteAudio_task.stage is Sending || task.stage->RouteAudio_task.stage
                is Resending,
        ensures
            final(self).same_but_audio(*old(self)),
            final(self).audio.frames == old(self).audio.frames,
            ({
                let audio = old(self).audio.route;
                let packet_task = task.stage->RouteAudio_task;
                let passed = outcome is Invalid && old(self).audio.passes_over_invalid();
                &&& final(self).audio.route == (if outcome is Accepted {
                    crate::audio::AudioRoute {
                        waiting_for_valid_packet: false,
                        dropped_packets: 0,
                        ..audio
                    }
                } else if passed {
                    crate::audio::AudioRoute {
                        dropped_packets: (audio.dropped_packets + 1) as usize,
                        ..audio
                    }
                } else {
                    audio
                })
                &&& r == (if outcome is Accepted || (outcome is Again
                    && packet_task.stage is Sending) {
                    PumpStep::Continue(
                        task.at(
                            PumpStage::RouteAudio {
                                task: AudioTask {
                                    packet: packet_task.packet,
                                    stage: if outcome is Accepted {
                                        AudioStage::DrainingSent(crate::audio::fresh_drain())
                                    } else {
                                        AudioStage::DrainingFull(crate::audio::fresh_drain())
                                    },
                                },
                                phase: AudioDrainPhase::Receive,
                            },
                        ),
                    )
                } else if passed {
                    PumpStep::Finished(Ok(true))
                } else {
                    PumpStep::Finished(
                        Err(
                            PumpFailure::Playback(PlaybackError::Ffmpeg(outcome.error()->0)),
                        ),
                    )
                })
            }),
    {
        let PumpTask { demand, finishing, stage } = task;
        match stage {
            PumpStage::RouteAudio { task: audio_task, .. } => match self.audio.route_sent(
                audio_task,
                outcome,
            ) {
                AudioStep::Continue(next) => PumpStep::Continue(
                    PumpTask {
                        demand,
                        finishing,
                        stage: PumpStage::RouteAudio {
                            task: next,
                            phase: AudioDrainPhase::Receive,
                        },
                    },
                ),
                AudioStep::Finished(Ok(())) => PumpStep::Finished(Ok(true)),
                AudioStep::Finished(Err(error)) => PumpStep::Finished(
                    Err(PumpFailure::Playback(error)),
                ),
            },
            _ => PumpStep::Finished(Ok(true)),
        }
    }

    /// Goes on with a step of an audio drain: on the way to the decoder's end, or for a packet.
    pub fn pump_audio_drained(&self, task: PumpTask, step: AudioDrainStep) -> (r: PumpStep)
        requires
            task.stage is DrainAudio || (task.stage is RouteAudio && (
            task.stage->RouteAudio_task.stage is DrainingFull
                || task.stage->RouteAudio_task.stage is DrainingSent)),
        ensures
            step is Finished && step->Finished_0 is Err ==> r == PumpStep::Finished(
                Err(PumpFailure::Playback(step->Finished_0->Err_0)),
            ),
            step is Finished && step->Finished_0 is Ok ==> r == (if task.stage is DrainAudio {
                PumpStep::Continue(
                    task.noting(step->Finished_0->Ok_0.progressed()).at(PumpStage::Conclude),
                )
            } else if task.stage->RouteAudio_task.stage is DrainingFull {
                PumpStep::Continue(
                    task.at(
                        PumpStage::RouteAudio {
                            task: AudioTask {
                                packet: task.stage->RouteAudio_task.packet,
                                stage: AudioStage::Resending,
                            },
                            phase: AudioDrainPhase::Receive,
                        },
                    ),
                )
            } else {
                PumpStep::Finished(Ok(true))
            }),
            step !is Finished ==> {
                let drain = drain_of(step);
                let phase = phase_of(step);
                r == PumpStep::Continue(
                    task.at(
                        if task.stage is DrainAudio {
                            PumpStage::DrainAudio { drain, phase }
                        } else {
                            PumpStage::RouteAudio {
                                task: AudioTask {
                                    packet: task.stage->RouteAudio_task.packet,
                                    stage: if task.stage->RouteAudio_task.stage is DrainingFull {
                                        AudioStage::DrainingFull(drain)
                                    } else {
                                        AudioStage::DrainingSent(drain)
                                    },
                                },
                                phase,
                            }
                        },
                    ),
                )
            },
    {
        let (drain, phase) = match step {
            AudioDrainStep::Finished(Err(error)) => {
                return PumpStep::Finished(Err(PumpFailure::Playback(error)));
            },
            AudioDrainStep::Finished(Ok(status)) => {
                let PumpTask { demand, finishing, stage } = task;
                return match stage {
                    PumpStage::RouteAudio { task: audio_task, .. } => {
                        match self.audio.route_drained(audio_task, Ok(status)) {
                            AudioStep::Continue(next) => PumpStep::Continue(
                                PumpTask {
                                    demand,
                                    finishing,
                                    stage: PumpStage::RouteAudio {
                                        task: next,
                                        phase: AudioDrainPhase::Receive,
                                    },
                                },
                            ),
                            AudioStep::Finished(Ok(())) => PumpStep::Finished(Ok(true)),
                            AudioStep::Finished(Err(error)) => PumpStep::Finished(
                                Err(PumpFailure::Playback(error)),
                            ),
                        }
                    },
                    _ => PumpTask { demand, finishing, stage: PumpStage::Conclude }.note(
                        status.made_progress(),
                    ).moved_to(PumpStage::Conclude),
                };
            },
            AudioDrainStep::Receive(drain) => (drain, AudioDrainPhase::Receive),
            AudioDrainStep::Convert(drain, plan) => (drain, AudioDrainPhase::Convert(plan)),
            AudioDrainStep::DrainResampler(drain) => (drain, AudioDrainPhase::DrainResampler),
        };
        let PumpTask { demand, finishing, stage } = task;
        let stage = match stage {
            PumpStage::RouteAudio { task: audio_task, .. } => {
                let stage = match audio_task.stage {
                    AudioStage::DrainingFull(_) => AudioStage::DrainingFull(drain),
                    _ => AudioStage::DrainingSent(drain),
                };
                PumpStage::RouteAudio {
                    task: AudioTask { packet: audio_task.packet, stage },
                    phase,
                }
            },
            _ => PumpStage::DrainAudio { drain, phase },
        };
        PumpStep::Continue(PumpTask { demand, finishing, stage })
    }

    /// Whether the video decoder has come to its end, or is not asked for any.
    pub open spec fn video_complete(self) -> bool {
        self.video.route.suspended || self.video.route.decoder is None
            || self.video.route.decoder->0.end_of_stream
    }

    /// Whether the audio decoder has come to its end.
    pub open spec fn audio_complete(self) -> bool {
        self.audio.route.decoder is None || self.audio.route.decoder->0.end_of_stream
    }

    /// Decides what the polling of the decoders came to: the end, a move, or nothing. Nothing for
    /// too long is reported.
    pub fn pump_conclude(&mut self, task: PumpTask) -> (r: PumpStep)
        requires
            task.stage is Conclude,
            task.finishing is Some,
            old(self).drain.last_progress_at is Some,
        ensures
            final(self).demuxer == old(self).demuxer,
            final(self).codec_parameters == old(self).codec_parameters,
            final(self).video == old(self).video,
            final(self).audio == old(self).audio,
            final(self).subtitles == old(self).subtitles,
            final(self).info == old(self).info,
            final(self).queue_limits == old(self).queue_limits,
            ({
                let finishing = task.finishing->0;
                let complete = old(self).video_complete() && old(self).audio_complete();
                let progress = if finishing.made_progress {
                    finishing.at
                } else {
                    old(self).drain.last_progress_at->0
                };
                let stalled_for = finishing.at.since(progress);
                &&& final(self).drain == (EofDrain {
                    last_progress_at: Some(progress),
                    eof: old(self).drain.eof || complete,
                    pending_logged: old(self).drain.pending_logged || !complete,
                    ..old(self).drain
                })
                &&& r == (if complete {
                    PumpStep::Finished(Ok(true))
                } else if stalled_for.nanos >= DECODER_EOF_DRAIN_STALL_TIMEOUT_NANOS {
                    PumpStep::Finished(
                        Err(
                            PumpFailure::DrainStall(
                                DrainReport {
                                    stalled_for,
                                    polls: old(self).drain.polls,
                                    video_complete: old(self).video_complete(),
                                    audio_complete: old(self).audio_complete(),
                                    backend: old(self).video.backend(),
                                },
                            ),
                        ),
                    )
                } else {
                    task.ends(finishing.made_progress)
                })
            }),
    {
        let (made_progress, at) = match &task.finishing {
            Some(finishing) => (finishing.made_progress, finishing.at),
            None => (false, Instant { nanos: 0 }),
        };
        if made_progress {
            self.drain.last_progress_at = Some(at);
        }
        let video_complete = self.video.route.suspended || match &self.video.route.decoder {
            Some(decoder) => decoder.is_end_of_stream(),
            None => true,
        };
        let audio_complete = match &self.audio.route.decoder {
            Some(decoder) => decoder.is_end_of_stream(),
            None => true,
        };
        if video_complete && audio_complete {
            self.drain.eof = true;
            return PumpStep::Finished(Ok(true));
        }
        self.drain.pending_logged = true;
        let progress = match self.drain.last_progress_at {
            Some(progress) => progress,
            None => at,
        };
        let stalled_for = at.saturating_duration_since(progress);
        if stalled_for.as_nanos() >= DECODER_EOF_DRAIN_STALL_TIMEOUT_NANOS {
            return PumpStep::Finished(
                Err(
                    PumpFailure::DrainStall(
                        DrainReport {
                            stalled_for,
                            polls: self.drain.polls,
                            video_complete,
                            audio_complete,
                            backend: self.video.active_backend(),
                        },
                    ),
                ),
            );
        }
        task.end(made_progress)
    }
}

/// The drain that a step goes on with.
pub open spec fn drain_of(step: AudioDrainStep) -> AudioDrain {
    match step {
        AudioDrainStep::Receive(drain) => drain,
        AudioDrainStep::Convert(drain, _) => drain,
        AudioDrainStep::DrainResampler(drain) => drain,
        AudioDrainStep::Finished(_) => crate::audio::fresh_drain(),
    }
}

/// What a step of a drain waits for.
pub open spec fn phase_of(step: AudioDrainStep) -> AudioDrainPhase {
    match step {
        AudioDrainStep::Receive(_) => AudioDrainPhase::Receive,
        AudioDrainStep::Convert(_, plan) => AudioDrainPhase::Convert(plan),
        AudioDrainStep::DrainResampler(_) => AudioDrainPhase::DrainResampler,
        AudioDrainStep::Finished(_) => AudioDrainPhase::Receive,
    }
}

/// A decoder when it was told of the end.
pub open spec fn told_of_end(decoder: Decoder, outcome: EofOutcome) -> Decoder {
    match outcome {
        EofOutcome::Accepted => Decoder { eof_sent: true, ..decoder },
        EofOutcome::Ended => Decoder { eof_sent: true, end_of_stream: true, ..decoder },
        EofOutcome::Again => decoder,
        EofOutcome::Failed(_) => decoder,
    }
}

fn note_end(decoder: Decoder, outcome: &EofOutcome) -> (r: Decoder)
    ensures
        r == told_of_end(decoder, *outcome),
{
    let mut decoder = decoder;
    match outcome {
        EofOutcome::Accepted => {
            decoder.eof_sent = true;
        },
        EofOutcome::Ended => {
            decoder.eof_sent = true;
            decoder.end_of_stream = true;
        },
        EofOutcome::Again => {},
        EofOutcome::Failed(_) => {},
    }
    decoder
}

/// A packet goes to the decoder of its stream and to no other, and a packet of no stream that is
/// decoded is thrown away. Only the path of the pictures may change before it is decoded.
pub proof fn law_a_packet_goes_to_its_stream(
    after: PlaybackSession,
    before: PlaybackSession,
    task: PumpTask,
    packet: Packet,
    r: PumpStep,
)
    requires
        after.input_taken(before, task, Ok(PumpInput::Packet(packet)), r),
    ensures
        after.audio == before.audio,
        after.subtitles == before.subtitles,
        after.demuxer == before.demuxer,
        after.drain == before.drain,
        after.video.frames == before.video.frames,
        r is Continue ==> r->Continue_0.demand == task.demand,
        r is Continue && r->Continue_0.stage is RouteVideo ==> before.video.route.decoder is Some
            && before.video.route.decoder->0.stream_index == packet.stream_index
            && r->Continue_0.stage->RouteVideo_route.packet == packet
            && !r->Continue_0.stage->RouteVideo_route.recovered,
        r is Continue && r->Continue_0.stage is RouteAudio ==> before.audio.route.decoder is Some
            && before.audio.route.decoder->0.stream_index == packet.stream_index
            && r->Continue_0.stage->RouteAudio_task.packet == packet,
        r is Continue && r->Continue_0.stage is DecodeSubtitle ==> before.subtitles.decoder is Some
            && before.subtitles.decoder->0.stream_index == packet.stream_index
            && r->Continue_0.stage->DecodeSubtitle_packet == packet,
        r !is Continue ==> r == PumpStep::Finished(Ok(true)),
        (before.video.route.decoder is None || before.video.route.decoder->0.stream_index
            != packet.stream_index) ==> after.video == before.video && (
        before.audio.route.decoder is Some && before.audio.route.decoder->0.stream_index
            == packet.stream_index ==> r is Continue && r->Continue_0.stage is RouteAudio) && ((
        before.audio.route.decoder is None || before.audio.route.decoder->0.stream_index
            != packet.stream_index) && before.subtitles.decoder is Some
            && before.subtitles.decoder->0.stream_index == packet.stream_index ==> r is Continue
            && r->Continue_0.stage is DecodeSubtitle),
{
}

/// A video decoder that waits for a key packet is handed none before it, and from the first one on
/// it waits no more; pictures that are not wanted are not decoded, and a packet that cannot be
/// decoded yet waits behind the others.
pub proof fn law_decoding_starts_at_a_key_packet(
    after: PlaybackSession,
    before: PlaybackSession,
    task: PumpTask,
    packet: Packet,
    r: PumpStep,
)
    requires
        after.input_taken(before, task, Ok(PumpInput::Packet(packet)), r),
        before.video.route.decoder is Some,
        before.video.route.decoder->0.stream_index == packet.stream_index,
    ensures
        before.video.route.suspended ==> after == before && r == PumpStep::Finished(Ok(true)),
        !before.video.route.suspended && !before.video.defers() ==> {
            &&& before.video.route.waiting_for_keyframe && packet.flags.bits % 2 == 0 ==> after
                == before && r == PumpStep::Finished(Ok(true))
            &&& !before.video.route.waiting_for_keyframe || packet.flags.bits % 2 == 1 ==> r
                is Continue && r->Continue_0.stage is RouteVideo
                && !after.video.route.waiting_for_keyframe && after.video.pending
                == before.video.pending
        },
        !before.video.route.suspended && before.video.defers() ==> after.video.pending@.len()
            == before.video.pending@.len() + 1 && after.video.pending@.last() == packet
            && after.video.pending@.drop_last() == before.video.pending@,
        after.video.route.decoder == before.video.route.decoder,
        after.video.route.suspended == before.video.route.suspended,
        r is Continue ==> r->Continue_0.stage->RouteVideo_route.before_frames
            == before.video.frames@.len() as usize,
{
    crate::packet::law_the_lowest_flag_marks_a_key(packet);
}

/// The end of the medium is noted, and nothing that was read before is lost by it.
pub proof fn law_the_end_of_the_medium_is_noted(
    after: PlaybackSession,
    before: PlaybackSession,
    task: PumpTask,
    r: PumpStep,
)
    requires
        after.input_taken(before, task, Ok(PumpInput::Eof), r),
    ensures
        after.drain.demux_eof,
        after.drain.eof == before.drain.eof,
        after.video == before.video,
        after.audio == before.audio,
        after.subtitles == before.subtitles,
        r is Continue,
        r->Continue_0.stage is Finish,
        r->Continue_0.demand == task.demand,
{
}

/// A decoder has been told of the end once it took the word, and has come to it only where it says
/// so itself.
pub proof fn law_a_decoder_is_told_of_the_end_once(decoder: Decoder, outcome: EofOutcome)
    requires
        !decoder.eof_sent,
        !decoder.end_of_stream,
    ensures
        told_of_end(decoder, outcome).eof_sent <==> (outcome is Accepted || outcome is Ended),
        told_of_end(decoder, outcome).end_of_stream <==> outcome is Ended,
        told_of_end(decoder, outcome).stream_index == decoder.stream_index,
        told_of_end(decoder, outcome).backend == decoder.backend,
{
}

/// The video is done with once its decoder is, and where none is wanted; the audio once its decoder
/// is.
pub proof fn law_when_the_decoders_are_done(session: PlaybackSession)
    ensures
        session.video.route.suspended ==> session.video_complete(),
        session.video.route.decoder is None ==> session.video_complete(),
        session.audio.route.decoder is None ==> session.audio_complete(),
        session.video.route.decoder is Some && !session.video.route.suspended ==> (
        session.video_complete() <==> session.video.route.decoder->0.end_of_stream),
        session.audio.route.decoder is Some ==> (session.audio_complete()
            <==> session.audio.route.decoder->0.end_of_stream),
{
}

/// A pump has moved something where it says so, or where it is at the end of a medium that was just
/// read out.
pub proof fn law_a_pump_tells_what_moved(task: PumpTask, moved: bool, stage: PumpStage)
    ensures
        task.ends(true) == PumpStep::Finished(Ok(true)),
        task.finishing is None ==> task.ends(moved) == PumpStep::Finished(Ok(moved)),
        task.finishing is Some && !task.finishing->0.from_poll ==> task.ends(moved)
            == PumpStep::Finished(Ok(moved)),
        task.finishing is Some && task.finishing->0.from_poll ==> task.ends(moved)
            == PumpStep::Finished(Ok(true)),
        task.noting(moved).demand == task.demand,
        task.noting(moved).stage == task.stage,
        task.finishing is Some ==> task.noting(moved).finishing is Some && (task.noting(
            moved,
        ).finishing->0.made_progress <==> (moved || task.finishing->0.made_progress))
            && task.noting(moved).finishing->0.from_poll == task.finishing->0.from_poll,
        task.at(stage).stage == stage && task.at(stage).demand == task.demand && task.at(
            stage,
        ).finishing == task.finishing,
{
}

/// A session that has just been opened has not come to its end.
pub proof fn law_a_new_session_is_not_at_its_end()
    ensures
        !undrained().demux_eof,
        !undrained().eof,
        undrained().polls == 0,
        undrained().last_progress_at is None,
{
}

/// What a decoder makes of the word of the end is read off its status: it took it, it was at the end
/// already, it is full, or it failed; exactly one of these.
pub proof fn law_the_status_tells_what_became_of_the_end(
    outcome: EofOutcome,
    code: i32,
    message: Seq<char>,
    again: i32,
)
    requires
        outcome.told(code, message, again),
        0 < again < 1_000,
    ensures
        code >= 0 ==> outcome is Accepted,
        code == -541_478_725 ==> outcome is Ended,
        code == -again ==> outcome is Again,
        code < 0 && code != -541_478_725 && code != -again ==> outcome is Failed
            && outcome->Failed_0 is Api && outcome->Failed_0->code == code,
{
}

/// What is done to the pictures of a session leaves its sound, its subtitles and its reading alone,
/// and what is done to its sound leaves the pictures alone.
pub proof fn law_sound_and_pictures_are_kept_apart(
    after: PlaybackSession,
    before: PlaybackSession,
    demuxer: AsyncDemuxer,
)
    ensures
        after.same_but_video(before) ==> after.audio == before.audio && after.subtitles
            == before.subtitles && after.demuxer == before.demuxer && after.info == before.info
            && after.drain == before.drain && after.queue_limits == before.queue_limits
            && after.codec_parameters == before.codec_parameters,
        after.same_but_video_and_info(before) ==> after.audio == before.audio && after.subtitles
            == before.subtitles && after.demuxer == before.demuxer && after.drain == before.drain
            && after.queue_limits == before.queue_limits && after.codec_parameters
            == before.codec_parameters,
        after.same_but_audio(before) ==> after.video == before.video && after.subtitles
            == before.subtitles && after.demuxer == before.demuxer && after.info == before.info
            && after.drain == before.drain && after.queue_limits == before.queue_limits
            && after.codec_parameters == before.codec_parameters,
        before.with_demuxer(demuxer).demuxer == demuxer,
        before.with_demuxer(demuxer).video == before.video,
        before.with_demuxer(demuxer).audio == before.audio,
        before.with_demuxer(demuxer).subtitles == before.subtitles,
        before.with_demuxer(demuxer).drain == before.drain,
{
}

/// What arrives from the demuxer changes neither the streams that are known nor how much is kept, and
/// an error ends the pump with nothing changed.
pub proof fn law_input_leaves_the_rest_alone(
    after: PlaybackSession,
    before: PlaybackSession,
    task: PumpTask,
    input: Result<PumpInput, PlaybackError>,
    r: PumpStep,
)
    requires
        after.input_taken(before, task, input, r),
    ensures
        after.codec_parameters == before.codec_parameters,
        after.queue_limits == before.queue_limits,
        after.info == before.info,
        after.video.events == before.video.events,
        after.video.unavailable_reason == before.video.unavailable_reason,
        input is Err ==> after == before && r is Finished && r->Finished_0 is Err
            && r->Finished_0->Err_0 is Playback,
        input is Ok && input->Ok_0 is Empty ==> after == before && r == PumpStep::Finished(
            Ok(false),
        ),
{
}

} // verus!
