//! Seeking in an open medium, and what becomes of its decoders.
use crate::decoder::{Decoder, DecoderBackend, DecoderConfig, Platform};
use crate::error::FfmpegError;
use crate::events::{VideoDecoderEvent, VideoFrameImportFailure};
use crate::packet::Packet;
use crate::pcm::PcmAudioFrame;
use crate::playback::{
    mediacodec_seek_route, DiscardedPlaybackQueues, MediaCodecFallbackTarget, MediaCodecSeekRoute,
    OpenedMediaInfo, PlaybackError, VIDEO_PUMP_PACKET_BUDGET, VIDEO_PUMP_TIME_BUDGET_NANOS,
};
use crate::session::PlaybackSession;
use crate::subtitle::DecodedSubtitleFrame;
use crate::text::joined;
use crate::time::Duration;
use crate::video::{
    codec_parameters_for, is_av1, DecodedVideoFrame, FallbackStep, FallbackTask, ImportDetail,
    VideoPath, VideoRoute,
};
use vstd::prelude::*;

verus! {

/// How a decoder is opened again for a seek.
#[derive(Clone, Copy, Debug, PartialEq, Eq, Structural)]
pub enum ReopenRoute {
    VideoToolbox,
    MediaCodec(MediaCodecSeekRoute),
    AvCodecSurface,
}

impl ReopenRoute {
    pub open spec fn wanted(self) -> DecoderConfig {
        match self {
            ReopenRoute::VideoToolbox => crate::decoder::plain_config(DecoderBackend::VideoToolbox),
            ReopenRoute::MediaCodec(route) => route.config(),
            ReopenRoute::AvCodecSurface => crate::decoder::plain_config(DecoderBackend::AvCodec),
        }
    }

    pub fn config(self) -> (r: DecoderConfig)
        ensures
            r == self.wanted(),
    {
        match self {
            ReopenRoute::VideoToolbox => DecoderConfig::videotoolbox(),
            ReopenRoute::MediaCodec(route) => route.decoder_config(),
            ReopenRoute::AvCodecSurface => DecoderConfig::avcodec(),
        }
    }

    /// The stage under which the new decoder is reported.
    pub open spec fn stage(self) -> Seq<char> {
        match self {
            ReopenRoute::VideoToolbox => "seek_reopen_videotoolbox"@,
            ReopenRoute::MediaCodec(MediaCodecSeekRoute::Surface) => "seek_reopen_surface"@,
            ReopenRoute::MediaCodec(MediaCodecSeekRoute::ByteBuffer) => "seek_reopen_bytebuffer"@,
            ReopenRoute::AvCodecSurface => "seek_reopen_avcodec_surface"@,
        }
    }

    fn stage_text(self) -> (r: &'static str)
        ensures
            r@ == self.stage(),
    {
        match self {
            ReopenRoute::VideoToolbox => "seek_reopen_videotoolbox",
            ReopenRoute::MediaCodec(MediaCodecSeekRoute::Surface) => "seek_reopen_surface",
            ReopenRoute::MediaCodec(MediaCodecSeekRoute::ByteBuffer) => "seek_reopen_bytebuffer",
            ReopenRoute::AvCodecSurface => "seek_reopen_avcodec_surface",
        }
    }

    /// The text of a decoder that is being opened again; `target` is the place in seconds.
    pub open spec fn reopening_text(self, target: Seq<char>) -> Seq<char> {
        match self {
            ReopenRoute::VideoToolbox =>
                "VideoToolbox decoder is being reopened for seek to "@ + target + "s"@,
            ReopenRoute::MediaCodec(route) => "MediaCodec "@ + route.name()
                + " decoder is being reopened for seek to "@ + target + "s"@,
            ReopenRoute::AvCodecSurface =>
                "AVCodec Surface decoder is being reopened for seek to "@ + target + "s"@,
        }
    }

    fn reopening(self, target: &str) -> (r: String)
        ensures
            r@ == self.reopening_text(target@),
    {
        match self {
            ReopenRoute::VideoToolbox => {
                let mut text = joined("VideoToolbox decoder is being reopened for seek to ", target);
                text.append("s");
                text
            },
            ReopenRoute::MediaCodec(route) => {
                let mut text = joined("MediaCodec ", route.as_str());
                text.append(" decoder is being reopened for seek to ");
                text.append(target);
                text.append("s");
                text
            },
            ReopenRoute::AvCodecSurface => {
                let mut text = joined(
                    "AVCodec Surface decoder is being reopened for seek to ",
                    target,
                );
                text.append("s");
                text
            },
        }
    }
}

/// A decoder that is being opened again for a seek.
#[derive(Debug)]
pub struct ReopenTask {
    pub route: ReopenRoute,
    pub stream_index: i32,
    pub codec: Option<String>,
}

/// How the opening of a decoder for a seek goes on.
#[derive(Debug)]
pub enum ReopenStep {
    Done,
    /// The decoder would not open again: a simpler one takes its place.
    Fallback(FallbackTask),
    Failed(PlaybackError),
}

/// Which decoder a seek opens again. A surface decoder cannot be relied on to be emptied in place,
/// and VideoToolbox neither; the others are kept.
pub open spec fn reopens(path: VideoPath, platform: Platform) -> Option<ReopenRoute> {
    match platform {
        Platform::Android => match crate::playback::seek_route(path.backend(), path.on_surface()) {
            Some(route) => Some(ReopenRoute::MediaCodec(route)),
            None => None,
        },
        Platform::OpenHarmony => if path.route.decoder is Some
            && path.route.decoder->0.on_avcodec_surface() {
            Some(ReopenRoute::AvCodecSurface)
        } else {
            None
        },
        Platform::Apple => if path.backend() == Some(DecoderBackend::VideoToolbox) {
            Some(ReopenRoute::VideoToolbox)
        } else {
            None
        },
        Platform::Windows => None,
        Platform::Other => None,
    }
}

/// Whether `event` reports a decoder that was opened again.
pub open spec fn reports_reopening(event: VideoDecoderEvent, task: ReopenTask, fallbacks: u64) -> bool {
    let backend = task.route.wanted().backend;
    &&& event.stage@ == task.route.stage()
    &&& event.requested_backend == backend
    &&& event.previous_backend == Some(backend)
    &&& event.active_backend == backend
    &&& event.fallback_count == fallbacks
    &&& event.codec == task.codec
    &&& event.pixel_format is None
    &&& event.line_sizes is None
    &&& event.reason is None
}

impl VideoPath {
    fn reopen_route(&self, platform: Platform) -> (r: Option<ReopenRoute>)
        ensures
            r == reopens(*self, platform),
    {
        match platform {
            Platform::Android => match mediacodec_seek_route(
                self.active_backend(),
                self.uses_surface(),
            ) {
                Some(route) => Some(ReopenRoute::MediaCodec(route)),
                None => None,
            },
            Platform::OpenHarmony => match &self.route.decoder {
                Some(decoder) => if decoder.uses_avcodec_surface() {
                    Some(ReopenRoute::AvCodecSurface)
                } else {
                    None
                },
                None => None,
            },
            Platform::Apple => match self.active_backend() {
                Some(DecoderBackend::VideoToolbox) => Some(ReopenRoute::VideoToolbox),
                _ => None,
            },
            Platform::Windows => None,
            Platform::Other => None,
        }
    }
}

impl PlaybackSession {
    /// Throws away everything that waits.
    pub fn discard_queued_frames_and_packets(&mut self) -> (r: DiscardedPlaybackQueues)
        ensures
            r == (DiscardedPlaybackQueues {
                video_frames: old(self).video.frames@.len() as usize,
                audio_frames: old(self).audio.frames@.len() as usize,
                subtitle_frames: old(self).subtitles.frames@.len() as usize,
                video_packets: old(self).video.pending@.len() as usize,
            }),
            final(self).emptied(*old(self)),
            final(self).video.frames@.len() == 0,
            final(self).video.pending@.len() == 0,
            final(self).audio.frames@.len() == 0,
            final(self).subtitles.frames@.len() == 0,
            final(self).video.route == old(self).video.route,
            final(self).audio.route == old(self).audio.route,
            final(self).info == old(self).info,
            final(self).demuxer == old(self).demuxer,
    {
        let video = self.video.discard();
        let audio: usize = self.audio.discard();
        let subtitles: usize = self.subtitles.frames.len();
        self.subtitles.frames.clear();
        DiscardedPlaybackQueues {
            video_frames: video.video_frames,
            audio_frames: audio,
            subtitle_frames: subtitles,
            video_packets: video.video_packets,
        }
    }

    /// Whether nothing waits any more, and what steers the session besides its routes is as it was
    /// in another.
    pub open spec fn emptied(self, before: PlaybackSession) -> bool {
        &&& self.codec_parameters == before.codec_parameters
        &&& self.queue_limits == before.queue_limits
        &&& self.drain == before.drain
        &&& self.video.unavailable_reason == before.video.unavailable_reason
        &&& self.video.events == before.video.events
        &&& self.video.frames@ == Seq::<DecodedVideoFrame>::empty()
        &&& self.video.pending@ == Seq::<Packet>::empty()
        &&& self.audio.frames@ == Seq::<PcmAudioFrame>::empty()
        &&& self.subtitles.frames@ == Seq::<DecodedSubtitleFrame>::empty()
        &&& self.subtitles.decoder == before.subtitles.decoder
        &&& self.subtitles.fonts == before.subtitles.fonts
        &&& self.subtitles.external == before.subtitles.external
    }

    /// Whether packets are thrown away behind a seek up to the next key frame. AV1 on VideoToolbox
    /// starts anywhere.
    pub open spec fn gates_keyframes(self, platform: Platform) -> bool {
        self.video.route.decoder is Some && !(platform == Platform::Apple && self.video.backend()
            == Some(DecoderBackend::VideoToolbox) && self.video.decodes_av1(
            self.codec_parameters@,
        ))
    }

    /// Empties the queues for a seek, and has the decoders start at a place where they can.
    pub fn prepare_seek(&mut self, platform: Platform)
        ensures
            final(self).emptied(*old(self)),
            final(self).video.frames@.len() == 0,
            final(self).video.pending@.len() == 0,
            final(self).audio.frames@.len() == 0,
            final(self).subtitles.frames@.len() == 0,
            final(self).info == old(self).info,
            final(self).demuxer == old(self).demuxer,
            final(self).video.route == (VideoRoute {
                waiting_for_keyframe: old(self).gates_keyframes(platform),
                ..old(self).video.route
            }),
            final(self).audio.route == (crate::audio::AudioRoute {
                waiting_for_valid_packet: old(self).audio.route.decoder is Some,
                dropped_packets: 0,
                ..old(self).audio.route
            }),
    {
        let _ = self.discard_queued_frames_and_packets();
        let bypass = match platform {
            Platform::Apple => match self.video.active_backend() {
                Some(DecoderBackend::VideoToolbox) => self.video.active_codec_is_av1(
                    &self.codec_parameters,
                ),
                _ => false,
            },
            _ => false,
        };
        self.video.route.waiting_for_keyframe = self.video.route.decoder.is_some() && !bypass;
        self.audio.route.waiting_for_valid_packet = self.audio.route.decoder.is_some();
        self.audio.route.dropped_packets = 0;
    }

    /// Whether a seek was begun: `before` is the session before it.
    pub open spec fn seek_begun(
        self,
        before: PlaybackSession,
        position: Duration,
        require_video_decoder: bool,
        platform: Platform,
        r: Result<(), PlaybackError>,
    ) -> bool {
        if require_video_decoder && before.video.lacks_decoder(before.info.selected_video_track) {
            &&& self == before
            &&& r is Err
            &&& r->Err_0 is VideoDecoderUnavailable
            &&& r->Err_0->VideoDecoderUnavailable_reason@ == before.video.missing_text(
                before.info.selected_video_track->0,
            )
        } else {
            &&& self.demuxer.sought(before.demuxer, position)
            &&& self.info == before.info
            &&& r is Ok <==> self.demuxer.took_command()
            &&& r is Err ==> crate::demux::command_channel_closed(r) && self
                == before.with_demuxer(self.demuxer)
            &&& r is Ok ==> self.emptied(before) && self.video.route == (VideoRoute {
                waiting_for_keyframe: before.gates_keyframes(platform),
                ..before.video.route
            }) && self.audio.route == (crate::audio::AudioRoute {
                waiting_for_valid_packet: before.audio.route.decoder is Some,
                dropped_packets: 0,
                ..before.audio.route
            })
        }
    }

    /// Begins a seek: the demuxer is sent to the place, and everything that waits is thrown away.
    /// A medium whose video cannot be decoded is not sought, unless it is being stopped.
    pub fn begin_seek(&mut self, position: Duration, require_video_decoder: bool, platform: Platform) -> (r:
        Result<(), PlaybackError>)
        ensures
            final(self).seek_begun(*old(self), position, require_video_decoder, platform, r),
            r is Ok ==> final(self).video.frames@.len() == 0,
            r is Ok ==> final(self).video.pending@.len() == 0,
            r is Ok ==> final(self).audio.frames@.len() == 0,
            r is Ok ==> final(self).subtitles.frames@.len() == 0,
    {
        if require_video_decoder {
            if let Err(error) = self.video.ensure_available(self.info.selected_video_track) {
                return Err(error);
            }
        }
        if let Err(error) = self.demuxer.seek(position) {
            return Err(error);
        }
        self.prepare_seek(platform);
        Ok(())
    }

    /// Retires the decoder that a seek opens again; `target` is the place in seconds, as text.
    /// Nothing where the decoder in use is kept.
    pub fn begin_reopen(&mut self, platform: Platform, target: &str) -> (r: Result<
        Option<ReopenTask>,
        PlaybackError,
    >)
        ensures
            ({
                let route = reopens(old(self).video, platform);
                let stream = old(self).video.route.decoder->0.stream_index;
                let source = crate::video::parameters_of(old(self).codec_parameters@, stream);
                &&& route is None ==> *final(self) == *old(self) && r == Ok::<
                    Option<ReopenTask>,
                    PlaybackError,
                >(None)
                &&& route is Some && source is None ==> *final(self) == *old(self) && r == Err::<
                    Option<ReopenTask>,
                    PlaybackError,
                >(
                    PlaybackError::TrackNotFound {
                        kind: crate::media::TrackKind::Video,
                        track_id: stream as i64,
                    },
                )
                &&& route is Some && source is Some ==> {
                    &&& r is Ok && r->Ok_0 is Some
                    &&& r->Ok_0->0 == (ReopenTask {
                        route: route->0,
                        stream_index: stream,
                        codec: source->0.parameters.codec_name,
                    })
                    &&& final(self).same_but_video_and_info(*old(self))
                    &&& final(self).info == (OpenedMediaInfo {
                        video_decode_backend: None,
                        ..old(self).info
                    })
                    &&& final(self).video.route == (VideoRoute {
                        decoder: None,
                        ..old(self).video.route
                    })
                    &&& final(self).video.unavailable_reason is Some
                    &&& final(self).video.unavailable_reason->0@ == route->0.reopening_text(target@)
                    &&& final(self).video.events == old(self).video.events
                    &&& final(self).video.frames == old(self).video.frames
                    &&& final(self).video.pending == old(self).video.pending
                }
            }),
    {
        let route = match self.video.reopen_route(platform) {
            None => {
                return Ok(None);
            },
            Some(route) => route,
        };
        let stream_index: i32 = match &self.video.route.decoder {
            Some(decoder) => decoder.stream_index(),
            None => {
                return Ok(None);
            },
        };
        let codec = match codec_parameters_for(&self.codec_parameters, stream_index) {
            Err(error) => {
                return Err(error);
            },
            Ok(parameters) => parameters.codec_name(),
        };
        self.video.unavailable_reason = Some(route.reopening(target));
        self.info.video_decode_backend = None;
        self.video.route.decoder = None;
        Ok(Some(ReopenTask { route, stream_index, codec }))
    }

    /// Goes on when the decoder was opened again, or was not.
    pub fn finish_reopen(&mut self, task: ReopenTask, opened: Result<Decoder, FfmpegError>) -> (r:
        ReopenStep)
        requires
            old(self).video.route.decoder is None,
        ensures
            final(self).same_but_video_and_info(*old(self)),
            opened is Ok ==> {
                &&& r is Done
                &&& final(self).info == (OpenedMediaInfo {
                    video_decode_backend: Some(task.route.wanted().backend),
                    ..old(self).info
                })
                &&& final(self).video.route == (VideoRoute {
                    decoder: Some(opened->Ok_0),
                    surface_disabled: if task.route is MediaCodec {
                        task.route->MediaCodec_0 == MediaCodecSeekRoute::ByteBuffer
                    } else {
                        old(self).video.route.surface_disabled
                    },
                    ..old(self).video.route
                })
                &&& final(self).video.unavailable_reason is None
                &&& final(self).video.frames == old(self).video.frames
                &&& final(self).video.pending == old(self).video.pending
                &&& final(self).video.events@.len() == old(self).video.events@.len() + 1
                &&& final(self).video.events@.drop_last() == old(self).video.events@
                &&& reports_reopening(
                    final(self).video.events@.last(),
                    task,
                    old(self).video.route.fallbacks,
                )
            },
            opened is Err && task.route is VideoToolbox ==> *final(self) == *old(self) && r
                == ReopenStep::Failed(PlaybackError::Ffmpeg(opened->Err_0)),
            opened is Err && task.route !is VideoToolbox ==> {
                let source = crate::video::decode_source(
                    None,
                    old(self).info.selected_video_track,
                    old(self).codec_parameters@,
                );
                &&& source is Err ==> *final(self) == *old(self) && r == ReopenStep::Failed(
                    source->Err_0,
                )
                &&& source is Ok ==> {
                    &&& r is Fallback
                    &&& final(self).info == (OpenedMediaInfo {
                        video_decode_backend: None,
                        ..old(self).info
                    })
                    &&& task.route == ReopenRoute::MediaCodec(MediaCodecSeekRoute::Surface)
                        ==> crate::video::begins_byte_buffer(
                        r->Fallback_0,
                        old(self).video,
                        final(self).video,
                        source->Ok_0,
                        "seek_reopen"@,
                        opened->Err_0.text(),
                        None,
                    )
                    &&& task.route != ReopenRoute::MediaCodec(MediaCodecSeekRoute::Surface)
                        ==> crate::video::begins_software(
                        r->Fallback_0,
                        old(self).video,
                        final(self).video,
                        source->Ok_0,
                        if task.route is MediaCodec {
                            "seek_reopen_bytebuffer_to_software"@
                        } else {
                            "seek_reopen_avcodec_to_software"@
                        },
                        opened->Err_0.text(),
                        None,
                    )
                }
            },
    {
        match opened {
            Ok(decoder) => {
                let backend = task.route.config().backend;
                self.video.route.decoder = Some(decoder);
                self.info.video_decode_backend = Some(backend);
                self.video.unavailable_reason = None;
                if let ReopenRoute::MediaCodec(route) = task.route {
                    self.video.route.surface_disabled = route == MediaCodecSeekRoute::ByteBuffer;
                }
                self.video.events.push_back(
                    VideoDecoderEvent {
                        stage: task.route.stage_text().to_owned(),
                        requested_backend: backend,
                        previous_backend: Some(backend),
                        active_backend: backend,
                        fallback_count: self.video.route.fallbacks,
                        codec: task.codec,
                        pixel_format: None,
                        line_sizes: None,
                        reason: None,
                    },
                );
                assert(self.video.events@.drop_last() =~= old(self).video.events@);
                ReopenStep::Done
            },
            Err(error) => {
                let reason = error.message();
                let begun = match task.route {
                    ReopenRoute::VideoToolbox => {
                        return ReopenStep::Failed(PlaybackError::Ffmpeg(error));
                    },
                    ReopenRoute::MediaCodec(MediaCodecSeekRoute::Surface) =>
                    self.video.begin_byte_buffer_fallback(
                        &mut self.info,
                        &self.codec_parameters,
                        "seek_reopen",
                        reason.as_str(),
                        None,
                    ),
                    ReopenRoute::MediaCodec(MediaCodecSeekRoute::ByteBuffer) =>
                    self.video.begin_software_fallback(
                        &mut self.info,
                        &self.codec_parameters,
                        "seek_reopen_bytebuffer_to_software",
                        reason.as_str(),
                        None,
                    ),
                    ReopenRoute::AvCodecSurface => self.video.begin_software_fallback(
                        &mut self.info,
                        &self.codec_parameters,
                        "seek_reopen_avcodec_to_software",
                        reason.as_str(),
                        None,
                    ),
                };
                match begun {
                    Ok(fallback) => ReopenStep::Fallback(fallback),
                    Err(error) => ReopenStep::Failed(error),
                }
            },
        }
    }

    /// Ends a seek, when the decoders and the subtitle files stand at the place: a decoder that was
    /// not opened again is emptied in place, and the end of the medium is forgotten.
    pub fn finish_seek(&mut self, reopened: bool, flush_audio: bool)
        ensures
            final(self).demuxer == old(self).demuxer,
            final(self).codec_parameters == old(self).codec_parameters,
            final(self).subtitles == old(self).subtitles,
            final(self).info == old(self).info,
            final(self).queue_limits == old(self).queue_limits,
            final(self).video.unavailable_reason == old(self).video.unavailable_reason,
            final(self).video.events == old(self).video.events,
            final(self).video.frames == old(self).video.frames,
            final(self).video.pending == old(self).video.pending,
            final(self).audio.frames == old(self).audio.frames,
            final(self).video.route == (VideoRoute {
                decoder: if reopened {
                    old(self).video.route.decoder
                } else {
                    emptied_decoder(old(self).video.route.decoder)
                },
                stall: crate::video::quiet_watch(),
                ..old(self).video.route
            }),
            final(self).audio.route == (crate::audio::AudioRoute {
                decoder: if flush_audio {
                    emptied_decoder(old(self).audio.route.decoder)
                } else {
                    old(self).audio.route.decoder
                },
                resampler: None,
                ..old(self).audio.route
            }),
            final(self).drain == crate::session::undrained(),
    {
        if !reopened {
            if let Some(decoder) = self.video.route.decoder {
                let mut decoder = decoder;
                decoder.flush();
                self.video.route.decoder = Some(decoder);
            }
        }
        if flush_audio {
            if let Some(decoder) = self.audio.route.decoder {
                let mut decoder = decoder;
                decoder.flush();
                self.audio.route.decoder = Some(decoder);
            }
        }
        self.audio.route.resampler = None;
        self.reset_eof_drain_state();
    }

    /// Whether a renderer's refusal concerns the decoder in use.
    pub fn video_import_failure_matches_active_decoder(&self, failure: &VideoFrameImportFailure) -> (r:
        bool)
        ensures
            r == (failure.decode_backend == (match self.video.backend() {
                Some(backend) => backend,
                None => DecoderBackend::Software,
            }) && (failure.decode_backend != DecoderBackend::MediaCodec
                || failure.mediacodec_surface == self.video.on_surface())),
    {
        let active = match self.video.active_backend() {
            Some(backend) => backend,
            None => DecoderBackend::Software,
        };
        failure.decode_backend == active && (failure.decode_backend != DecoderBackend::MediaCodec
            || failure.mediacodec_surface == self.video.uses_surface())
    }

    /// What a renderer's refusal has the session step down to. Feedback on a decoder or a route
    /// that is no longer in use is passed over, and so is that on decoders that have nothing below
    /// them.
    pub open spec fn import_step(self, failure: VideoFrameImportFailure) -> Option<
        MediaCodecFallbackTarget,
    > {
        if self.video.backend() != Some(failure.decode_backend) {
            None
        } else {
            match failure.decode_backend {
                DecoderBackend::AvCodec => Some(MediaCodecFallbackTarget::Software),
                DecoderBackend::VideoToolbox => if crate::video::names_av1(failure.codec) {
                    Some(MediaCodecFallbackTarget::Software)
                } else {
                    None
                },
                DecoderBackend::MediaCodec => if failure.mediacodec_surface
                    == self.video.on_surface() {
                    self.video.steps_down_to()
                } else {
                    None
                },
                _ => None,
            }
        }
    }

    /// The stage under which that step is reported.
    pub open spec fn import_stage(stage: Seq<char>, backend: DecoderBackend, target: MediaCodecFallbackTarget) -> Seq<
        char,
    > {
        match (backend, target) {
            (DecoderBackend::AvCodec, _) => stage + "_avcodec_to_software"@,
            (DecoderBackend::VideoToolbox, _) => stage + "_videotoolbox_to_software"@,
            (_, MediaCodecFallbackTarget::ByteBuffer) => stage,
            (_, MediaCodecFallbackTarget::Software) => stage + "_bytebuffer_to_software"@,
        }
    }

    /// Begins the step down that a renderer's refusal calls for, where it calls for one.
    pub fn begin_import_fallback(&mut self, stage: &str, failure: &VideoFrameImportFailure) -> (r: Result<
        Option<FallbackTask>,
        PlaybackError,
    >)
        ensures
            ({
                let step = old(self).import_step(*failure);
                let source = crate::video::decode_source(
                    old(self).video.route.decoder,
                    old(self).info.selected_video_track,
                    old(self).codec_parameters@,
                );
                &&& final(self).same_but_video_and_info(*old(self))
                &&& step is None ==> *final(self) == *old(self) && r == Ok::<
                    Option<FallbackTask>,
                    PlaybackError,
                >(None)
                &&& step is Some && source is Err ==> *final(self) == *old(self) && r == Err::<
                    Option<FallbackTask>,
                    PlaybackError,
                >(source->Err_0)
                &&& step is Some && source is Ok ==> {
                    &&& r is Ok && r->Ok_0 is Some
                    &&& final(self).info == (OpenedMediaInfo {
                        video_decode_backend: None,
                        ..old(self).info
                    })
                    &&& step->0 == MediaCodecFallbackTarget::ByteBuffer
                        ==> crate::video::begins_byte_buffer(
                        r->Ok_0->0,
                        old(self).video,
                        final(self).video,
                        source->Ok_0,
                        Self::import_stage(stage@, failure.decode_backend, step->0),
                        failure.reason@,
                        Some(ImportDetail::from_failure(*failure)),
                    )
                    &&& step->0 == MediaCodecFallbackTarget::Software
                        ==> crate::video::begins_software(
                        r->Ok_0->0,
                        old(self).video,
                        final(self).video,
                        source->Ok_0,
                        Self::import_stage(stage@, failure.decode_backend, step->0),
                        failure.reason@,
                        Some(ImportDetail::from_failure(*failure)),
                    )
                }
            }),
    {
        let target = match failure.decode_backend {
            DecoderBackend::AvCodec => Some(MediaCodecFallbackTarget::Software),
            DecoderBackend::VideoToolbox => if is_av1(&failure.codec) {
                Some(MediaCodecFallbackTarget::Software)
            } else {
                None
            },
            DecoderBackend::MediaCodec => if failure.mediacodec_surface
                == self.video.uses_surface() {
                self.video.fallback_target()
            } else {
                None
            },
            _ => None,
        };
        if self.video.active_backend() != Some(failure.decode_backend) {
            return Ok(None);
        }
        let target = match target {
            None => {
                return Ok(None);
            },
            Some(target) => target,
        };
        let begun = match target {
            MediaCodecFallbackTarget::ByteBuffer => self.video.begin_byte_buffer_fallback(
                &mut self.info,
                &self.codec_parameters,
                stage,
                failure.reason.as_str(),
                Some(ImportDetail::of(failure)),
            ),
            MediaCodecFallbackTarget::Software => {
                let suffix = match failure.decode_backend {
                    DecoderBackend::AvCodec => "_avcodec_to_software",
                    DecoderBackend::VideoToolbox => "_videotoolbox_to_software",
                    _ => "_bytebuffer_to_software",
                };
                let stage = joined(stage, suffix);
                self.video.begin_software_fallback(
                    &mut self.info,
                    &self.codec_parameters,
                    stage.as_str(),
                    failure.reason.as_str(),
                    Some(ImportDetail::of(failure)),
                )
            },
        };
        match begun {
            Ok(task) => Ok(Some(task)),
            Err(error) => Err(error),
        }
    }

    /// Ends the step down that a renderer's refusal called for: behind one of Android's decoders the
    /// new one starts at a key frame.
    pub fn finish_import_fallback(&mut self, failed_backend: DecoderBackend)
        ensures
            final(self).same_but_video(*old(self)),
            final(self).video.unavailable_reason == old(self).video.unavailable_reason,
            final(self).video.events == old(self).video.events,
            final(self).video.frames == old(self).video.frames,
            final(self).video.pending == old(self).video.pending,
            final(self).video.route == (VideoRoute {
                waiting_for_keyframe: old(self).video.route.waiting_for_keyframe || failed_backend
                    == DecoderBackend::MediaCodec,
                ..old(self).video.route
            }),
    {
        if failed_backend == DecoderBackend::MediaCodec {
            self.video.route.waiting_for_keyframe = true;
        }
    }

    /// Begins the step down that a decoder which takes no packet calls for, where there is one.
    pub fn begin_stall_recovery(&mut self, reason: &str) -> (r: Result<
        Option<FallbackTask>,
        PlaybackError,
    >)
        ensures
            ({
                let step = if old(self).video.backend() == Some(DecoderBackend::AvCodec) {
                    Some(MediaCodecFallbackTarget::Software)
                } else {
                    old(self).video.steps_down_to()
                };
                let source = crate::video::decode_source(
                    old(self).video.route.decoder,
                    old(self).info.selected_video_track,
                    old(self).codec_parameters@,
                );
                &&& final(self).same_but_video_and_info(*old(self))
                &&& step is None ==> *final(self) == *old(self) && r == Ok::<
                    Option<FallbackTask>,
                    PlaybackError,
                >(None)
                &&& step is Some && source is Err ==> *final(self) == *old(self) && r == Err::<
                    Option<FallbackTask>,
                    PlaybackError,
                >(source->Err_0)
                &&& step is Some && source is Ok ==> {
                    &&& r is Ok && r->Ok_0 is Some
                    &&& final(self).info == (OpenedMediaInfo {
                        video_decode_backend: None,
                        ..old(self).info
                    })
                    &&& step->0 == MediaCodecFallbackTarget::ByteBuffer
                        ==> crate::video::begins_byte_buffer(
                        r->Ok_0->0,
                        old(self).video,
                        final(self).video,
                        source->Ok_0,
                        "decoder_input_stall"@,
                        reason@,
                        None,
                    )
                    &&& step->0 == MediaCodecFallbackTarget::Software
                        ==> crate::video::begins_software(
                        r->Ok_0->0,
                        old(self).video,
                        final(self).video,
                        source->Ok_0,
                        if old(self).video.backend() == Some(DecoderBackend::AvCodec) {
                            "decoder_input_stall_avcodec_to_software"@
                        } else {
                            "decoder_input_stall_bytebuffer_to_software"@
                        },
                        reason@,
                        None,
                    )
                }
            }),
    {
        let begun = if self.video.active_backend() == Some(DecoderBackend::AvCodec) {
            self.video.begin_software_fallback(
                &mut self.info,
                &self.codec_parameters,
                "decoder_input_stall_avcodec_to_software",
                reason,
                None,
            )
        } else {
            match self.video.fallback_target() {
                None => {
                    return Ok(None);
                },
                Some(MediaCodecFallbackTarget::ByteBuffer) => self.video.begin_byte_buffer_fallback(
                    &mut self.info,
                    &self.codec_parameters,
                    "decoder_input_stall",
                    reason,
                    None,
                ),
                Some(MediaCodecFallbackTarget::Software) => self.video.begin_software_fallback(
                    &mut self.info,
                    &self.codec_parameters,
                    "decoder_input_stall_bytebuffer_to_software",
                    reason,
                    None,
                ),
            }
        };
        match begun {
            Ok(task) => Ok(Some(task)),
            Err(error) => Err(error),
        }
    }

    /// Goes on with a step down of the session's video decoder.
    pub fn finish_fallback(&mut self, task: FallbackTask, opened: Result<Decoder, String>) -> (r:
        FallbackStep)
        ensures
            final(self).same_but_video_and_info(*old(self)),
            opened is Ok ==> r is Done && crate::video::fallback_took_hold(
                task,
                opened->Ok_0,
                old(self).video,
                final(self).video,
                old(self).info,
                final(self).info,
            ),
            opened is Err && task.target == MediaCodecFallbackTarget::ByteBuffer
                ==> crate::video::steps_to_software(
                task,
                opened->Err_0@,
                old(self).video,
                final(self).video,
                old(self).info,
                final(self).info,
                old(self).codec_parameters@,
                r,
            ),
            opened is Err && task.target == MediaCodecFallbackTarget::Software
                ==> crate::video::nothing_left(
                task,
                opened->Err_0@,
                old(self).video,
                final(self).video,
                old(self).info,
                final(self).info,
                r,
            ),
    {
        self.video.finish_fallback(&mut self.info, &self.codec_parameters, task, opened)
    }

    /// Whether a pump for the next picture goes on: until one is there, within a budget of packets
    /// and of time.
    pub fn wants_video(&self, pumped_packets: usize, elapsed: Duration) -> (r: bool)
        ensures
            r == (self.video.frames@.len() == 0 && !self.drain.eof && pumped_packets
                < VIDEO_PUMP_PACKET_BUDGET && elapsed.nanos < VIDEO_PUMP_TIME_BUDGET_NANOS),
    {
        self.video.frames.len() == 0 && !self.drain.eof && pumped_packets < VIDEO_PUMP_PACKET_BUDGET
            && elapsed.as_nanos() < VIDEO_PUMP_TIME_BUDGET_NANOS
    }

    /// Hands out the next picture.
    pub fn pop_video_frame(&mut self) -> (r: Option<DecodedVideoFrame>)
        ensures
            final(self).same_but_video(*old(self)),
            final(self).video.route == old(self).video.route,
            final(self).video.unavailable_reason == old(self).video.unavailable_reason,
            final(self).video.events == old(self).video.events,
            final(self).video.pending == old(self).video.pending,
            old(self).video.frames@.len() == 0 ==> r is None && final(self).video.frames@
                == old(self).video.frames@,
            old(self).video.frames@.len() > 0 ==> r == Some(old(self).video.frames@[0])
                && final(self).video.frames@ == old(self).video.frames@.subrange(
                1,
                old(self).video.frames@.len() as int,
            ),
    {
        self.video.frames.pop_front()
    }

    /// Whether a pump for the next run of audio goes on.
    pub fn wants_audio(&self, found: bool, pumped_packets: usize, max_packets: usize, out_of_time: bool) -> (r:
        bool)
        ensures
            r == (!found && !self.drain.eof && pumped_packets < max_packets && !out_of_time),
    {
        !found && !self.drain.eof && pumped_packets < max_packets && !out_of_time
    }

    pub fn is_eof(&self) -> (r: bool)
        ensures
            r == self.drain.eof,
    {
        self.drain.eof
    }

    pub fn info(&self) -> (r: &OpenedMediaInfo)
        ensures
            *r == self.info,
    {
        &self.info
    }
}

/// A decoder that was emptied in place.
pub open spec fn emptied_decoder(decoder: Option<Decoder>) -> Option<Decoder> {
    match decoder {
        Some(decoder) => Some(decoder.flushed()),
        None => None,
    }
}

/// A seek that was begun leaves nothing of the old place behind: no picture, no sound, no subtitle and
/// no packet waits any more, whatever waited before. The demuxer was sent to the target, and what it
/// still hands out of the old place is known by its number.
pub proof fn law_a_seek_leaves_nothing_behind(
    after: PlaybackSession,
    before: PlaybackSession,
    position: Duration,
    require_video_decoder: bool,
    platform: Platform,
)
    requires
        after.seek_begun(
            before,
            position,
            require_video_decoder,
            platform,
            Ok::<(), PlaybackError>(()),
        ),
    ensures
        after.video.frames@.len() == 0,
        after.video.pending@.len() == 0,
        after.audio.frames@.len() == 0,
        after.subtitles.frames@.len() == 0,
        after.demuxer.commands.given().len() == before.demuxer.commands.given().len() + 1,
        after.demuxer.commands.given().last() is Seek,
        after.demuxer.commands.given().last()->Seek_position == position,
        after.demuxer.commands.given().last()->Seek_generation == after.demuxer.generation,
        before.demuxer.generation < u64::MAX ==> after.demuxer.generation
            > before.demuxer.generation,
        !after.demuxer.active,
        after.video.route.decoder == before.video.route.decoder,
        after.audio.route.decoder == before.audio.route.decoder,
        after.subtitles.decoder == before.subtitles.decoder,
        after.subtitles.external == before.subtitles.external,
        after.info == before.info,
{
}

/// A seek that was begun waits for a key packet where pictures are decoded, and for a packet that
/// makes sense where sound is; only AV1 on VideoToolbox starts anywhere. The count of packets passed
/// over starts anew.
pub proof fn law_a_seek_waits_for_a_place_to_start(
    after: PlaybackSession,
    before: PlaybackSession,
    position: Duration,
    require_video_decoder: bool,
    platform: Platform,
)
    requires
        after.seek_begun(
            before,
            position,
            require_video_decoder,
            platform,
            Ok::<(), PlaybackError>(()),
        ),
    ensures
        before.video.route.decoder is None ==> !after.video.route.waiting_for_keyframe,
        before.video.route.decoder is Some && (platform != Platform::Apple
            || before.video.route.decoder->0.backend != DecoderBackend::VideoToolbox)
            ==> after.video.route.waiting_for_keyframe,
        before.audio.route.decoder is Some <==> after.audio.route.waiting_for_valid_packet,
        after.audio.route.dropped_packets == 0,
        after.video.route.suspended == before.video.route.suspended,
        after.video.route.fallbacks == before.video.route.fallbacks,
        after.audio.route.output_active == before.audio.route.output_active,
        after.queue_limits == before.queue_limits,
        after.codec_parameters == before.codec_parameters,
{
}

/// A seek that cannot be begun changes nothing that is decoded or waits.
pub proof fn law_a_failed_seek_changes_nothing(
    after: PlaybackSession,
    before: PlaybackSession,
    position: Duration,
    require_video_decoder: bool,
    platform: Platform,
    r: Result<(), PlaybackError>,
)
    requires
        after.seek_begun(before, position, require_video_decoder, platform, r),
        r is Err,
    ensures
        after.video == before.video,
        after.audio == before.audio,
        after.subtitles == before.subtitles,
        after.info == before.info,
        require_video_decoder && before.info.selected_video_track is Some
            && before.video.route.decoder is None ==> after == before && r->Err_0
            is VideoDecoderUnavailable,
        r->Err_0 is VideoDecoderUnavailable || r->Err_0 is DemuxWorker,
{
}

/// A seek opens a decoder again that cannot be emptied in place: VideoToolbox on the systems of Apple,
/// MediaCodec on Android, in the way it decodes, and a surface on OpenHarmony. All others are kept.
pub proof fn law_which_decoders_a_seek_opens_again(path: VideoPath, platform: Platform)
    ensures
        platform == Platform::Windows || platform == Platform::Other ==> reopens(path, platform)
            is None,
        path.route.decoder is None ==> reopens(path, platform) is None,
        path.route.decoder is Some ==> {
            let decoder = path.route.decoder->0;
            &&& platform == Platform::Apple ==> (reopens(path, platform) is Some <==> decoder.backend
                == DecoderBackend::VideoToolbox)
            &&& platform == Platform::Android ==> (reopens(path, platform) is Some
                <==> decoder.backend == DecoderBackend::MediaCodec)
            &&& platform == Platform::OpenHarmony ==> (reopens(path, platform) is Some <==> (
            decoder.backend == DecoderBackend::AvCodec && decoder.avcodec_surface))
            &&& reopens(path, platform) is Some ==> reopens(path, platform)->0.wanted().backend
                == decoder.backend && (decoder.backend == DecoderBackend::MediaCodec ==> reopens(
                path,
                platform,
            )->0.wanted().mediacodec_surface == decoder.mediacodec_surface)
        },
{
}

/// A refusal of the renderer is acted on only where it speaks of the decoder in use, and of the way it
/// decodes.
pub proof fn law_a_stale_refusal_is_passed_over(
    session: PlaybackSession,
    failure: VideoFrameImportFailure,
)
    ensures
        session.video.route.decoder is None ==> session.import_step(failure) is None,
        session.video.route.decoder is Some && session.video.route.decoder->0.backend
            != failure.decode_backend ==> session.import_step(failure) is None,
        failure.decode_backend == DecoderBackend::Software || failure.decode_backend
            == DecoderBackend::D3d11va ==> session.import_step(failure) is None,
        session.video.route.decoder is Some && session.video.route.decoder->0.backend
            == failure.decode_backend ==> {
            let decoder = session.video.route.decoder->0;
            &&& failure.decode_backend == DecoderBackend::AvCodec ==> session.import_step(failure)
                == Some(MediaCodecFallbackTarget::Software)
            &&& failure.decode_backend == DecoderBackend::VideoToolbox && failure.codec is None
                ==> session.import_step(failure) is None
            &&& failure.decode_backend == DecoderBackend::MediaCodec && failure.mediacodec_surface
                != decoder.mediacodec_surface ==> session.import_step(failure) is None
            &&& failure.decode_backend == DecoderBackend::MediaCodec && failure.mediacodec_surface
                == decoder.mediacodec_surface ==> session.import_step(failure) == Some(
                if decoder.mediacodec_surface && !session.video.route.surface_disabled {
                    MediaCodecFallbackTarget::ByteBuffer
                } else {
                    MediaCodecFallbackTarget::Software
                },
            )
        },
{
}

/// A decoder that was emptied in place is the same decoder, which has neither come to the end nor
/// been told of it.
pub proof fn law_an_emptied_decoder_starts_anew(decoder: Option<Decoder>)
    ensures
        emptied_decoder(decoder) is Some <==> decoder is Some,
        decoder is Some ==> !emptied_decoder(decoder)->0.end_of_stream && !emptied_decoder(
            decoder,
        )->0.eof_sent && emptied_decoder(decoder)->0.stream_index == decoder->0.stream_index
            && emptied_decoder(decoder)->0.backend == decoder->0.backend,
{
}

/// A decoder that was opened again is reported as itself, with the count of steps down as it is.
pub proof fn law_opening_again_is_no_step_down(
    event: VideoDecoderEvent,
    task: ReopenTask,
    fallbacks: u64,
)
    requires
        reports_reopening(event, task, fallbacks),
    ensures
        event.active_backend == event.requested_backend,
        event.previous_backend == Some(event.active_backend),
        event.fallback_count == fallbacks,
        event.reason is None,
        event.codec == task.codec,
        event.active_backend == task.route.wanted().backend,
{
}

} // verus!
