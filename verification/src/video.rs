//! The way of a video packet: to the decoder, through its replies, and down the ladder of
//! decoders where one fails.
use std::collections::VecDeque;
use crate::decoder::{Decoder, DecoderBackend, DecoderConfig};
use crate::demuxer::OwnedCodecParameters;
use crate::error::{errno_again, FfmpegError};
use crate::events::{VideoDecoderEvent, VideoFrameImportFailure};
use crate::frame::Frame;
use crate::media::TrackKind;
use crate::packet::Packet;
use crate::playback::{
    mediacodec_fallback_target, stream_index_i32, video_decoder_unavailability_reason,
    DiscardedPlaybackQueues, MediaCodecFallbackTarget, OpenedMediaInfo, PlaybackError,
    AVCODEC_SURFACE_VIDEO_FRAME_QUEUE_LIMIT, D3D11VA_VIDEO_FRAME_QUEUE_LIMIT,
    DECODER_INPUT_STALL_TIMEOUT_NANOS,
};
use crate::text::{copied_text, eq_ignore_ascii_case, joined};
use crate::time::{Duration, Instant};
use vstd::prelude::*;

verus! {

/// A decoded picture, with the decoder that it came from.
#[derive(Clone, Debug, PartialEq, Eq)]
pub struct DecodedVideoFrame {
    pub frame: Frame,
    pub decode_backend: DecoderBackend,
}

/// What a decoder hands out when it is asked for a frame.
#[derive(Clone, Debug, PartialEq, Eq)]
pub enum DecoderOutputFrame {
    Frame(Frame),
    NeedMoreInput,
    EndOfStream,
}

/// What a decoder makes of a packet.
#[derive(Debug, PartialEq, Eq)]
pub enum SendOutcome {
    Accepted,
    /// The decoder takes nothing before its frames are taken from it.
    Again,
    Failed(FfmpegError),
}

impl SendOutcome {
    /// What a decoder made of a packet, on a machine with a given `EAGAIN`.
    pub open spec fn told(sent: Result<(), FfmpegError>, again: i32) -> SendOutcome {
        match sent {
            Ok(_) => SendOutcome::Accepted,
            Err(error) => if error.reports_system(again) {
                SendOutcome::Again
            } else {
                SendOutcome::Failed(error)
            },
        }
    }

    /// Tells a decoder that is full from one that failed; `again` is the machine's `EAGAIN`.
    pub fn read(sent: Result<(), FfmpegError>, again: i32) -> (r: Self)
        requires
            again > 0,
        ensures
            r == Self::told(sent, again),
    {
        match sent {
            Ok(()) => SendOutcome::Accepted,
            Err(error) => {
                if error.reports_errno(again) {
                    SendOutcome::Again
                } else {
                    SendOutcome::Failed(error)
                }
            },
        }
    }

    /// Tells a decoder that is full from one that failed, on this machine.
    pub fn of(sent: Result<(), FfmpegError>) -> (r: Self)
        ensures
            exists|again: i32|
                crate::error::means_again(again) && r == #[trigger] Self::told(sent, again),
    {
        Self::read(sent, errno_again())
    }
}

/// How long the decoder has refused the packet that is due.
#[derive(Clone, Copy, Debug, PartialEq, Eq, Structural)]
pub struct StallWatch {
    pub polls: u64,
    pub logged: bool,
    pub started_at: Option<Instant>,
}

/// A watch that has seen nothing.
pub open spec fn quiet_watch() -> StallWatch {
    StallWatch { polls: 0, logged: false, started_at: None }
}

/// A count that stops at the largest number.
pub open spec fn one_more(n: u64) -> u64 {
    if n == u64::MAX { n } else { (n + 1) as u64 }
}

/// What is reported of a decoder that has refused a packet for too long.
#[derive(Clone, Copy, Debug, PartialEq, Eq, Structural)]
pub struct StallReport {
    pub stalled_for: Duration,
    pub polls: u64,
    pub pending_packets: usize,
    pub backend: Option<DecoderBackend>,
}

/// The decoder that is in use, and what steers it.
#[derive(Clone, Copy, Debug, PartialEq, Eq, Structural)]
pub struct VideoRoute {
    pub decoder: Option<Decoder>,
    pub suspended: bool,
    /// Packets are thrown away up to the next one that starts a decodable run.
    pub waiting_for_keyframe: bool,
    /// A surface that failed once is not tried again.
    pub surface_disabled: bool,
    pub fallbacks: u64,
    pub stall: StallWatch,
}

/// Video on its way from the demuxer to the presenter.
pub struct VideoPath {
    pub route: VideoRoute,
    pub unavailable_reason: Option<String>,
    pub events: VecDeque<VideoDecoderEvent>,
    pub frames: VecDeque<DecodedVideoFrame>,
    pub pending: VecDeque<Packet>,
}

/// What a renderer said of the picture that it could not take.
#[derive(Clone, Debug, PartialEq, Eq)]
pub struct ImportDetail {
    pub codec: Option<String>,
    pub pixel_format: Option<String>,
    pub line_sizes: [i32; 4],
}

impl ImportDetail {
    pub open spec fn from_failure(failure: VideoFrameImportFailure) -> ImportDetail {
        ImportDetail {
            codec: failure.codec,
            pixel_format: failure.pixel_format,
            line_sizes: failure.line_sizes,
        }
    }

    pub fn of(failure: &VideoFrameImportFailure) -> (r: Self)
        ensures
            r == Self::from_failure(*failure),
    {
        ImportDetail {
            codec: copied_text(&failure.codec),
            pixel_format: copied_text(&failure.pixel_format),
            line_sizes: failure.line_sizes,
        }
    }
}

/// The parameters of a stream: the first that carry its number.
pub open spec fn parameters_of(parameters: Seq<OwnedCodecParameters>, stream_index: i32) -> Option<
    OwnedCodecParameters,
>
    decreases parameters.len(),
{
    if parameters.len() == 0 {
        None
    } else if parameters[0].parameters.stream_index == stream_index {
        Some(parameters[0])
    } else {
        parameters_of(parameters.drop_first(), stream_index)
    }
}

pub fn codec_parameters_for(parameters: &Vec<OwnedCodecParameters>, stream_index: i32) -> (r: Result<
    &OwnedCodecParameters,
    PlaybackError,
>)
    ensures
        r is Ok <==> parameters_of(parameters@, stream_index) is Some,
        r is Ok ==> *r->Ok_0 == parameters_of(parameters@, stream_index)->0,
        r is Err ==> r->Err_0 == (PlaybackError::TrackNotFound {
            kind: TrackKind::Video,
            track_id: stream_index as i64,
        }),
{
    let mut i: usize = 0;
    assert(parameters@.subrange(0, parameters@.len() as int) =~= parameters@);
    while i < parameters.len()
        invariant
            i <= parameters@.len(),
            parameters_of(parameters@, stream_index) == parameters_of(
                parameters@.subrange(i as int, parameters@.len() as int),
                stream_index,
            ),
        decreases parameters@.len() - i,
    {
        let ghost rest = parameters@.subrange(i as int, parameters@.len() as int);
        if parameters[i].parameters.stream_index == stream_index {
            return Ok(&parameters[i]);
        }
        assert(rest.drop_first() =~= parameters@.subrange(i + 1, parameters@.len() as int));
        i = i + 1;
    }
    Err(PlaybackError::TrackNotFound { kind: TrackKind::Video, track_id: stream_index as i64 })
}

/// The stream that is decoded: that of the decoder, or that of the selected track.
pub open spec fn stream_to_decode(decoder: Option<Decoder>, selected: Option<i64>) -> Result<
    i32,
    PlaybackError,
> {
    match decoder {
        Some(decoder) => Ok(decoder.stream_index),
        None => match selected {
            None => Err(PlaybackError::NoVideoTrack),
            Some(track_id) => if i32::MIN <= track_id <= i32::MAX {
                Ok(track_id as i32)
            } else {
                Err(PlaybackError::TrackNotFound { kind: TrackKind::Video, track_id })
            },
        },
    }
}

/// The parameters of the stream that is decoded.
pub open spec fn decode_source(
    decoder: Option<Decoder>,
    selected: Option<i64>,
    parameters: Seq<OwnedCodecParameters>,
) -> Result<OwnedCodecParameters, PlaybackError> {
    match stream_to_decode(decoder, selected) {
        Err(error) => Err(error),
        Ok(stream_index) => match parameters_of(parameters, stream_index) {
            Some(found) => Ok(found),
            None => Err(
                PlaybackError::TrackNotFound {
                    kind: TrackKind::Video,
                    track_id: stream_index as i64,
                },
            ),
        },
    }
}

/// A step down to a simpler decoder that is under way.
#[derive(Clone, Debug)]
pub struct FallbackTask {
    pub target: MediaCodecFallbackTarget,
    pub stage: String,
    pub reason: String,
    pub stream_index: i32,
    pub codec: Option<String>,
    pub previous_backend: DecoderBackend,
    pub import: Option<ImportDetail>,
}

/// How a step down goes on.
#[derive(Debug)]
pub enum FallbackStep {
    /// A decoder is to be opened; the result goes to [`VideoPath::finish_fallback`].
    Open(FallbackTask),
    Done,
    Failed(PlaybackError),
}

impl FallbackTask {
    pub open spec fn wanted(self) -> DecoderConfig {
        match self.target {
            MediaCodecFallbackTarget::ByteBuffer => crate::decoder::plain_config(
                DecoderBackend::MediaCodec,
            ),
            MediaCodecFallbackTarget::Software => crate::decoder::plain_config(
                DecoderBackend::Software,
            ),
        }
    }

    /// The decoder that is to be opened.
    pub fn config(&self) -> (r: DecoderConfig)
        ensures
            r == self.wanted(),
    {
        match self.target {
            MediaCodecFallbackTarget::ByteBuffer => DecoderConfig::mediacodec_byte_buffer(),
            MediaCodecFallbackTarget::Software => DecoderConfig::software(),
        }
    }

    /// The codec that is reported: the renderer knows best.
    pub open spec fn reported_codec(self) -> Option<String> {
        if self.import is Some && self.import->0.codec is Some {
            self.import->0.codec
        } else {
            self.codec
        }
    }

    /// Whether `event` reports that the step down succeeded.
    pub open spec fn reported_by(self, event: VideoDecoderEvent, stage: Seq<char>, count: u64) -> bool {
        &&& event.stage@ == stage
        &&& event.requested_backend == self.previous_backend
        &&& event.previous_backend == Some(self.previous_backend)
        &&& event.active_backend == self.wanted().backend
        &&& event.fallback_count == count
        &&& event.codec == self.reported_codec()
        &&& event.pixel_format == (match self.import {
            Some(import) => import.pixel_format,
            None => None,
        })
        &&& event.line_sizes == (match self.import {
            Some(import) => Some(import.line_sizes),
            None => None,
        })
        &&& event.reason == Some(self.reason)
    }

    fn event(self, stage: String, count: u64) -> (r: VideoDecoderEvent)
        ensures
            self.reported_by(r, stage@, count),
    {
        let active_backend = self.config().backend;
        let (import_codec, pixel_format, line_sizes) = match self.import {
            Some(import) => (import.codec, import.pixel_format, Some(import.line_sizes)),
            None => (None, None, None),
        };
        VideoDecoderEvent {
            stage,
            requested_backend: self.previous_backend,
            previous_backend: Some(self.previous_backend),
            active_backend,
            fallback_count: count,
            codec: match import_codec {
                Some(codec) => Some(codec),
                None => self.codec,
            },
            pixel_format,
            line_sizes,
            reason: Some(self.reason),
        }
    }
}

/// The text of a decoder that made room for software.
pub open spec fn retired_text(stage: Seq<char>, backend: DecoderBackend, reason: Seq<char>) -> Seq<
    char,
> {
    stage + ": "@ + backend.name() + " decoder retired before software fallback: "@ + reason
}

/// The text of a surface decoder that made room for one without a surface.
pub open spec fn retired_surface_text(stage: Seq<char>, reason: Seq<char>) -> Seq<char> {
    stage + ": MediaCodec Surface decoder retired before byte-buffer fallback: "@ + reason
}

/// The text of two decoders that failed one after the other.
pub open spec fn both_failed_text(surface: Seq<char>, byte_buffer: Seq<char>) -> Seq<char> {
    "MediaCodec surface mode failed: "@ + surface + "; MediaCodec byte-buffer mode failed: "@
        + byte_buffer
}

/// The text of a software decoder that would not open.
pub open spec fn software_failed_text(stage: Seq<char>, reason: Seq<char>, error: Seq<char>) -> Seq<
    char,
> {
    stage + ": "@ + reason + "; software decoder open failed: "@ + error
}

impl VideoPath {
    pub open spec fn backend(self) -> Option<DecoderBackend> {
        match self.route.decoder {
            Some(decoder) => Some(decoder.backend),
            None => None,
        }
    }

    pub fn active_backend(&self) -> (r: Option<DecoderBackend>)
        ensures
            r == self.backend(),
    {
        match &self.route.decoder {
            Some(decoder) => Some(decoder.backend()),
            None => None,
        }
    }

    pub open spec fn on_surface(self) -> bool {
        self.route.decoder is Some && self.route.decoder->0.on_surface()
    }

    pub fn uses_surface(&self) -> (r: bool)
        ensures
            r == self.on_surface(),
    {
        match &self.route.decoder {
            Some(decoder) => decoder.uses_mediacodec_surface(),
            None => false,
        }
    }

    /// Whether no video is decoded although a track is selected.
    pub open spec fn lacks_decoder(self, selected: Option<i64>) -> bool {
        selected is Some && self.route.decoder is None
    }

    pub open spec fn missing_text(self, track_id: i64) -> Seq<char> {
        crate::playback::missing_decoder_text(
            track_id,
            match self.unavailable_reason {
                Some(reason) => Some(reason@),
                None => None,
            },
        )
    }

    pub fn ensure_available(&self, selected: Option<i64>) -> (r: Result<(), PlaybackError>)
        ensures
            r is Err <==> self.lacks_decoder(selected),
            r is Err ==> r->Err_0 is VideoDecoderUnavailable
                && r->Err_0->VideoDecoderUnavailable_reason@ == self.missing_text(selected->0),
    {
        let recorded = match &self.unavailable_reason {
            Some(reason) => Some(reason.as_str()),
            None => None,
        };
        match video_decoder_unavailability_reason(
            selected,
            self.route.decoder.is_some(),
            recorded,
        ) {
            None => Ok(()),
            Some(reason) => Err(PlaybackError::VideoDecoderUnavailable { reason }),
        }
    }

    /// Throws away every picture and every packet that waits.
    pub fn discard(&mut self) -> (r: DiscardedPlaybackQueues)
        ensures
            r == (DiscardedPlaybackQueues {
                video_frames: old(self).frames@.len() as usize,
                audio_frames: 0,
                subtitle_frames: 0,
                video_packets: old(self).pending@.len() as usize,
            }),
            final(self).route == old(self).route,
            final(self).unavailable_reason == old(self).unavailable_reason,
            final(self).events == old(self).events,
            final(self).frames@ == Seq::<DecodedVideoFrame>::empty(),
            final(self).pending@ == Seq::<Packet>::empty(),
    {
        let discarded = DiscardedPlaybackQueues {
            video_frames: self.frames.len(),
            audio_frames: 0,
            subtitle_frames: 0,
            video_packets: self.pending.len(),
        };
        self.frames.clear();
        self.pending.clear();
        discarded
    }

    /// The route when decoding is held back or taken up again. A decoder that is taken up again
    /// starts at a key frame.
    pub open spec fn route_when_suspended(self, suspended: bool) -> VideoRoute {
        if self.route.suspended == suspended {
            self.route
        } else if suspended {
            VideoRoute { suspended, stall: quiet_watch(), ..self.route }
        } else {
            VideoRoute {
                suspended,
                stall: quiet_watch(),
                decoder: match self.route.decoder {
                    Some(decoder) => Some(decoder.flushed()),
                    None => None,
                },
                waiting_for_keyframe: self.route.decoder is Some,
                ..self.route
            }
        }
    }

    /// Whether decoding was held back or taken up again: a change throws away what was decoded and
    /// what waits.
    pub open spec fn suspended(self, before: VideoPath, suspended: bool) -> bool {
        &&& self.route == before.route_when_suspended(suspended)
        &&& self.unavailable_reason == before.unavailable_reason
        &&& self.events == before.events
        &&& before.route.suspended == suspended ==> self == before
        &&& before.route.suspended != suspended ==> self.frames@ == Seq::<
            DecodedVideoFrame,
        >::empty() && self.pending@ == Seq::<Packet>::empty()
    }

    /// Holds decoding back, or takes it up again; `r` tells whether a decoder is to be flushed.
    pub fn set_suspended(&mut self, suspended: bool) -> (r: bool)
        ensures
            final(self).suspended(*old(self), suspended),
            r == (old(self).route.suspended && !suspended && old(self).route.decoder is Some),
    {
        if self.route.suspended == suspended {
            return false;
        }
        self.route.suspended = suspended;
        let _ = self.discard();
        self.reset_stall();
        if suspended {
            return false;
        }
        let mut flushed = false;
        if let Some(decoder) = self.route.decoder {
            let mut decoder = decoder;
            decoder.flush();
            self.route.decoder = Some(decoder);
            flushed = true;
        }
        self.route.waiting_for_keyframe = self.route.decoder.is_some();
        flushed
    }

    /// Hands out the reports on the decoder that have gathered.
    pub fn take_events(&mut self) -> (r: Vec<VideoDecoderEvent>)
        ensures
            r@ == old(self).events@,
            final(self).events@ == Seq::<VideoDecoderEvent>::empty(),
            final(self).route == old(self).route,
            final(self).unavailable_reason == old(self).unavailable_reason,
            final(self).frames == old(self).frames,
            final(self).pending == old(self).pending,
    {
        let mut taken: Vec<VideoDecoderEvent> = Vec::new();
        assert(taken@ + self.events@ =~= old(self).events@);
        while self.events.len() > 0
            invariant
                taken@ + self.events@ == old(self).events@,
                self.route == old(self).route,
                self.unavailable_reason == old(self).unavailable_reason,
                self.frames == old(self).frames,
                self.pending == old(self).pending,
            decreases self.events@.len(),
        {
            let ghost before = taken@ + self.events@;
            if let Some(event) = self.events.pop_front() {
                taken.push(event);
            }
            assert(taken@ + self.events@ =~= before);
        }
        assert(taken@ =~= old(self).events@);
        taken
    }

    pub fn reset_stall(&mut self)
        ensures
            final(self).route == (VideoRoute { stall: quiet_watch(), ..old(self).route }),
            final(self).unavailable_reason == old(self).unavailable_reason,
            final(self).events == old(self).events,
            final(self).frames == old(self).frames,
            final(self).pending == old(self).pending,
    {
        self.route.stall = StallWatch { polls: 0, logged: false, started_at: None };
    }

    /// Notes that the decoder has refused the packet that is due once more; after two seconds of
    /// that it is reported.
    pub fn observe_stall(&mut self, now: Instant) -> (r: Result<(), StallReport>)
        ensures
            ({
                let since = match old(self).route.stall.started_at {
                    Some(started_at) => started_at,
                    None => now,
                };
                let polls = one_more(old(self).route.stall.polls);
                &&& final(self).route == (VideoRoute {
                    stall: StallWatch { polls, logged: true, started_at: Some(since) },
                    ..old(self).route
                })
                &&& r == (if now.since(since).nanos < DECODER_INPUT_STALL_TIMEOUT_NANOS {
                    Ok::<(), StallReport>(())
                } else {
                    Err(
                        StallReport {
                            stalled_for: now.since(since),
                            polls,
                            pending_packets: old(self).pending@.len() as usize,
                            backend: old(self).backend(),
                        },
                    )
                })
            }),
            final(self).unavailable_reason == old(self).unavailable_reason,
            final(self).events == old(self).events,
            final(self).frames == old(self).frames,
            final(self).pending == old(self).pending,
    {
        let polls: u64 = self.route.stall.polls.saturating_add(1);
        let started_at = match self.route.stall.started_at {
            Some(started_at) => started_at,
            None => now,
        };
        self.route.stall = StallWatch { polls, logged: true, started_at: Some(started_at) };
        let stalled_for = now.saturating_duration_since(started_at);
        if stalled_for.as_nanos() < DECODER_INPUT_STALL_TIMEOUT_NANOS {
            return Ok(());
        }
        Err(
            StallReport {
                stalled_for,
                polls,
                pending_packets: self.pending.len(),
                backend: self.active_backend(),
            },
        )
    }

    /// Whether packets wait because the decoder's own pictures would run out.
    pub open spec fn defers(self) -> bool {
        self.route.decoder is Some && ((self.route.decoder->0.backend == DecoderBackend::D3d11va
            && self.frames@.len() >= D3D11VA_VIDEO_FRAME_QUEUE_LIMIT) || (
        self.route.decoder->0.on_avcodec_surface() && self.frames@.len()
            >= AVCODEC_SURFACE_VIDEO_FRAME_QUEUE_LIMIT))
    }

    pub fn should_defer(&self) -> (r: bool)
        ensures
            r == self.defers(),
    {
        match &self.route.decoder {
            None => false,
            Some(decoder) => (decoder.backend == DecoderBackend::D3d11va && self.frames.len()
                >= D3D11VA_VIDEO_FRAME_QUEUE_LIMIT) || (decoder.uses_avcodec_surface()
                && self.frames.len() >= AVCODEC_SURFACE_VIDEO_FRAME_QUEUE_LIMIT),
        }
    }

    /// How many decoded pictures are kept.
    pub open spec fn picture_limit(self, limit: usize) -> usize {
        if self.backend() == Some(DecoderBackend::D3d11va) {
            D3D11VA_VIDEO_FRAME_QUEUE_LIMIT
        } else if self.route.decoder is Some && self.route.decoder->0.on_avcodec_surface() {
            AVCODEC_SURFACE_VIDEO_FRAME_QUEUE_LIMIT
        } else {
            limit
        }
    }

    pub fn frame_limit(&self, limit: usize) -> (r: usize)
        ensures
            r == self.picture_limit(limit),
    {
        match &self.route.decoder {
            None => limit,
            Some(decoder) => if decoder.backend == DecoderBackend::D3d11va {
                D3D11VA_VIDEO_FRAME_QUEUE_LIMIT
            } else if decoder.uses_avcodec_surface() {
                AVCODEC_SURFACE_VIDEO_FRAME_QUEUE_LIMIT
            } else {
                limit
            },
        }
    }

    /// Whether the stream that is decoded holds AV1.
    pub open spec fn decodes_av1(self, parameters: Seq<OwnedCodecParameters>) -> bool {
        &&& self.route.decoder is Some
        &&& parameters_of(parameters, self.route.decoder->0.stream_index) is Some
        &&& names_av1(
            parameters_of(
                parameters,
                self.route.decoder->0.stream_index,
            )->0.parameters.codec_name,
        )
    }

    pub fn active_codec_is_av1(&self, parameters: &Vec<OwnedCodecParameters>) -> (r: bool)
        ensures
            r == self.decodes_av1(parameters@),
    {
        match &self.route.decoder {
            None => false,
            Some(decoder) => match codec_parameters_for(parameters, decoder.stream_index) {
                Err(_) => false,
                Ok(found) => is_av1(&found.parameters.codec_name),
            },
        }
    }

    pub open spec fn steps_down_to(self) -> Option<MediaCodecFallbackTarget> {
        crate::playback::fallback_target(
            self.backend(),
            self.on_surface(),
            self.route.surface_disabled,
        )
    }

    pub fn fallback_target(&self) -> (r: Option<MediaCodecFallbackTarget>)
        ensures
            r == self.steps_down_to(),
    {
        mediacodec_fallback_target(
            self.active_backend(),
            self.uses_surface(),
            self.route.surface_disabled,
        )
    }

    fn source<'a>(&self, selected: Option<i64>, parameters: &'a Vec<OwnedCodecParameters>) -> (r:
        Result<&'a OwnedCodecParameters, PlaybackError>)
        ensures
            r is Ok <==> decode_source(self.route.decoder, selected, parameters@) is Ok,
            r is Ok ==> *r->Ok_0 == decode_source(
                self.route.decoder,
                selected,
                parameters@,
            )->Ok_0,
            r is Ok ==> stream_to_decode(self.route.decoder, selected) == Ok::<i32, PlaybackError>(
                r->Ok_0.parameters.stream_index,
            ),
            r is Err ==> r->Err_0 == decode_source(
                self.route.decoder,
                selected,
                parameters@,
            )->Err_0,
    {
        let stream_index: i32 = match &self.route.decoder {
            Some(decoder) => decoder.stream_index,
            None => match selected {
                None => {
                    return Err(PlaybackError::NoVideoTrack);
                },
                Some(track_id) => match stream_index_i32(track_id, TrackKind::Video, track_id) {
                    Ok(stream_index) => stream_index,
                    Err(error) => {
                        return Err(error);
                    },
                },
            },
        };
        proof {
            lemma_parameters_carry_their_number(parameters@, stream_index);
        }
        codec_parameters_for(parameters, stream_index)
    }

    /// Retires a surface decoder and makes ready for one without a surface.
    pub fn begin_byte_buffer_fallback(
        &mut self,
        info: &mut OpenedMediaInfo,
        parameters: &Vec<OwnedCodecParameters>,
        stage: &str,
        reason: &str,
        import: Option<ImportDetail>,
    ) -> (r: Result<FallbackTask, PlaybackError>)
        ensures
            ({
                let source = decode_source(
                    old(self).route.decoder,
                    old(info).selected_video_track,
                    parameters@,
                );
                &&& r is Ok <==> source is Ok
                &&& r is Err ==> r->Err_0 == source->Err_0 && *final(self) == *old(self)
                    && *final(info) == *old(info)
                &&& r is Ok ==> begins_byte_buffer(
                    r->Ok_0,
                    *old(self),
                    *final(self),
                    source->Ok_0,
                    stage@,
                    reason@,
                    import,
                ) && *final(info) == (OpenedMediaInfo { video_decode_backend: None, ..*old(info) })
            }),
    {
        let (stream_index, codec) = match self.source(info.selected_video_track, parameters) {
            Err(error) => {
                return Err(error);
            },
            Ok(found) => (found.parameters.stream_index, found.codec_name()),
        };
        let mut text = joined(
            stage,
            ": MediaCodec Surface decoder retired before byte-buffer fallback: ",
        );
        text.append(reason);
        self.unavailable_reason = Some(text);
        info.video_decode_backend = None;
        self.route.surface_disabled = true;
        let _ = self.discard();
        self.route.decoder = None;
        Ok(
            FallbackTask {
                target: MediaCodecFallbackTarget::ByteBuffer,
                stage: stage.to_owned(),
                reason: reason.to_owned(),
                stream_index,
                codec,
                previous_backend: DecoderBackend::MediaCodec,
                import,
            },
        )
    }

    /// Retires the decoder in use and makes ready for software.
    pub fn begin_software_fallback(
        &mut self,
        info: &mut OpenedMediaInfo,
        parameters: &Vec<OwnedCodecParameters>,
        stage: &str,
        reason: &str,
        import: Option<ImportDetail>,
    ) -> (r: Result<FallbackTask, PlaybackError>)
        ensures
            ({
                let source = decode_source(
                    old(self).route.decoder,
                    old(info).selected_video_track,
                    parameters@,
                );
                &&& r is Ok <==> source is Ok
                &&& r is Err ==> r->Err_0 == source->Err_0 && *final(self) == *old(self)
                    && *final(info) == *old(info)
                &&& r is Ok ==> begins_software(
                    r->Ok_0,
                    *old(self),
                    *final(self),
                    source->Ok_0,
                    stage@,
                    reason@,
                    import,
                ) && *final(info) == (OpenedMediaInfo { video_decode_backend: None, ..*old(info) })
            }),
    {
        let (stream_index, codec) = match self.source(info.selected_video_track, parameters) {
            Err(error) => {
                return Err(error);
            },
            Ok(found) => (found.parameters.stream_index, found.codec_name()),
        };
        let previous_backend = match &self.route.decoder {
            Some(decoder) => decoder.backend(),
            None => DecoderBackend::MediaCodec,
        };
        let mut text = joined(stage, ": ");
        text.append(previous_backend.as_str());
        text.append(" decoder retired before software fallback: ");
        text.append(reason);
        self.unavailable_reason = Some(text);
        info.video_decode_backend = None;
        let _ = self.discard();
        self.route.decoder = None;
        self.route.fallbacks = self.route.fallbacks.saturating_add(1);
        Ok(
            FallbackTask {
                target: MediaCodecFallbackTarget::Software,
                stage: stage.to_owned(),
                reason: reason.to_owned(),
                stream_index,
                codec,
                previous_backend,
                import,
            },
        )
    }

    /// Goes on when the decoder that a step down asked for was opened, or was not; an error is
    /// given by its text. Behind one that has no surface comes software, and behind software
    /// nothing.
    pub fn finish_fallback(
        &mut self,
        info: &mut OpenedMediaInfo,
        parameters: &Vec<OwnedCodecParameters>,
        task: FallbackTask,
        opened: Result<Decoder, String>,
    ) -> (r: FallbackStep)
        ensures
            opened is Ok ==> fallback_took_hold(
                task,
                opened->Ok_0,
                *old(self),
                *final(self),
                *old(info),
                *final(info),
            ) && r is Done,
            opened is Err && task.target == MediaCodecFallbackTarget::Software ==> nothing_left(
                task,
                opened->Err_0@,
                *old(self),
                *final(self),
                *old(info),
                *final(info),
                r,
            ),
            opened is Err && task.target == MediaCodecFallbackTarget::ByteBuffer ==> steps_to_software(
                task,
                opened->Err_0@,
                *old(self),
                *final(self),
                *old(info),
                *final(info),
                parameters@,
                r,
            ),
    {
        match opened {
            Ok(decoder) => {
                self.route.decoder = Some(decoder);
                self.unavailable_reason = None;
                let stage: String = match task.target {
                    MediaCodecFallbackTarget::ByteBuffer => {
                        info.video_decode_backend = Some(DecoderBackend::MediaCodec);
                        self.route.fallbacks = self.route.fallbacks.saturating_add(1);
                        joined(task.stage.as_str(), "_surface_to_bytebuffer")
                    },
                    MediaCodecFallbackTarget::Software => {
                        info.video_decode_backend = Some(DecoderBackend::Software);
                        task.stage.clone()
                    },
                };
                let event = task.event(stage, self.route.fallbacks);
                self.events.push_back(event);
                assert(self.events@.drop_last() =~= old(self).events@);
                FallbackStep::Done
            },
            Err(error) => match task.target {
                MediaCodecFallbackTarget::Software => {
                    let mut text = joined(task.stage.as_str(), ": ");
                    text.append(task.reason.as_str());
                    text.append("; software decoder open failed: ");
                    text.append(error.as_str());
                    self.unavailable_reason = Some(text.clone());
                    info.video_decode_backend = None;
                    FallbackStep::Failed(PlaybackError::VideoDecoderUnavailable { reason: text })
                },
                MediaCodecFallbackTarget::ByteBuffer => {
                    self.route.fallbacks = self.route.fallbacks.saturating_add(1);
                    let stage = joined(task.stage.as_str(), "_bytebuffer_to_software");
                    let mut reason = joined(
                        "MediaCodec surface mode failed: ",
                        task.reason.as_str(),
                    );
                    reason.append("; MediaCodec byte-buffer mode failed: ");
                    reason.append(error.as_str());
                    match self.begin_software_fallback(
                        info,
                        parameters,
                        stage.as_str(),
                        reason.as_str(),
                        task.import,
                    ) {
                        Ok(next) => FallbackStep::Open(next),
                        Err(error) => FallbackStep::Failed(error),
                    }
                },
            },
        }
    }
}

/// Whether a codec goes by the name of AV1.
pub open spec fn names_av1(codec: Option<String>) -> bool {
    codec is Some && crate::text::same_ignoring_case(codec->0@, "av1"@)
}

pub fn is_av1(codec: &Option<String>) -> (r: bool)
    ensures
        r == names_av1(*codec),
{
    match codec {
        Some(codec) => eq_ignore_ascii_case(codec.as_str(), "av1"),
        None => false,
    }
}

proof fn lemma_parameters_carry_their_number(
    parameters: Seq<OwnedCodecParameters>,
    stream_index: i32,
)
    ensures
        parameters_of(parameters, stream_index) is Some ==> parameters_of(
            parameters,
            stream_index,
        )->0.parameters.stream_index == stream_index,
    decreases parameters.len(),
{
    if parameters.len() > 0 {
        lemma_parameters_carry_their_number(parameters.drop_first(), stream_index);
    }
}

/// Whether `task` is a step down to a decoder without a surface, and `after` what `before` became:
/// the surface is given up for good, and nothing that it had decoded is kept.
pub open spec fn begins_byte_buffer(
    task: FallbackTask,
    before: VideoPath,
    after: VideoPath,
    source: OwnedCodecParameters,
    stage: Seq<char>,
    reason: Seq<char>,
    import: Option<ImportDetail>,
) -> bool {
    &&& task.target == MediaCodecFallbackTarget::ByteBuffer
    &&& task.stage@ == stage
    &&& task.reason@ == reason
    &&& task.stream_index == source.parameters.stream_index
    &&& task.codec == source.parameters.codec_name
    &&& task.previous_backend == DecoderBackend::MediaCodec
    &&& task.import == import
    &&& after.route == (VideoRoute { decoder: None, surface_disabled: true, ..before.route })
    &&& after.unavailable_reason is Some
    &&& after.unavailable_reason->0@ == retired_surface_text(stage, reason)
    &&& after.events == before.events
    &&& after.frames@ == Seq::<DecodedVideoFrame>::empty()
    &&& after.pending@ == Seq::<Packet>::empty()
}

/// Whether `task` is a step down to software, and `after` what `before` became: nothing that the
/// decoder in use had decoded is kept.
pub open spec fn begins_software(
    task: FallbackTask,
    before: VideoPath,
    after: VideoPath,
    source: OwnedCodecParameters,
    stage: Seq<char>,
    reason: Seq<char>,
    import: Option<ImportDetail>,
) -> bool {
    &&& task.target == MediaCodecFallbackTarget::Software
    &&& task.stage@ == stage
    &&& task.reason@ == reason
    &&& task.stream_index == source.parameters.stream_index
    &&& task.codec == source.parameters.codec_name
    &&& task.previous_backend == (match before.backend() {
        Some(backend) => backend,
        None => DecoderBackend::MediaCodec,
    })
    &&& task.import == import
    &&& after.route == (VideoRoute {
        decoder: None,
        fallbacks: one_more(before.route.fallbacks),
        ..before.route
    })
    &&& after.unavailable_reason is Some
    &&& after.unavailable_reason->0@ == retired_text(stage, task.previous_backend, reason)
    &&& after.events == before.events
    &&& after.frames@ == Seq::<DecodedVideoFrame>::empty()
    &&& after.pending@ == Seq::<Packet>::empty()
}

/// Whether a step down ended with its decoder in use, and was reported.
pub open spec fn fallback_took_hold(
    task: FallbackTask,
    decoder: Decoder,
    before: VideoPath,
    after: VideoPath,
    info_before: OpenedMediaInfo,
    info_after: OpenedMediaInfo,
) -> bool {
    let byte_buffer = task.target == MediaCodecFallbackTarget::ByteBuffer;
    let fallbacks = if byte_buffer {
        one_more(before.route.fallbacks)
    } else {
        before.route.fallbacks
    };
    &&& after.route == (VideoRoute { decoder: Some(decoder), fallbacks, ..before.route })
    &&& after.unavailable_reason is None
    &&& after.frames == before.frames
    &&& after.pending == before.pending
    &&& after.events@.len() == before.events@.len() + 1
    &&& after.events@.drop_last() == before.events@
    &&& task.reported_by(
        after.events@.last(),
        if byte_buffer {
            task.stage@ + "_surface_to_bytebuffer"@
        } else {
            task.stage@
        },
        fallbacks,
    )
    &&& info_after == (OpenedMediaInfo {
        video_decode_backend: Some(task.wanted().backend),
        ..info_before
    })
}

/// Whether a step down ended with no decoder at all: the failure is kept, and nothing else changed.
pub open spec fn nothing_left(
    task: FallbackTask,
    error: Seq<char>,
    before: VideoPath,
    after: VideoPath,
    info_before: OpenedMediaInfo,
    info_after: OpenedMediaInfo,
    r: FallbackStep,
) -> bool {
    let text = software_failed_text(task.stage@, task.reason@, error);
    &&& r is Failed && r->Failed_0 is VideoDecoderUnavailable
    &&& r->Failed_0->VideoDecoderUnavailable_reason@ == text
    &&& after.route == before.route
    &&& after.unavailable_reason is Some
    &&& after.unavailable_reason->0@ == text
    &&& after.events == before.events
    &&& after.frames == before.frames
    &&& after.pending == before.pending
    &&& info_after == (OpenedMediaInfo { video_decode_backend: None, ..info_before })
}

/// What comes behind a decoder without a surface that would not open: software, or the error that
/// no stream is known to decode.
pub open spec fn steps_to_software(
    task: FallbackTask,
    error: Seq<char>,
    before: VideoPath,
    after: VideoPath,
    info_before: OpenedMediaInfo,
    info_after: OpenedMediaInfo,
    parameters: Seq<OwnedCodecParameters>,
    step: FallbackStep,
) -> bool {
    match decode_source(before.route.decoder, info_before.selected_video_track, parameters) {
        Err(missing) => {
            &&& step == FallbackStep::Failed(missing)
            &&& after.route == (VideoRoute {
                fallbacks: one_more(before.route.fallbacks),
                ..before.route
            })
            &&& after.unavailable_reason == before.unavailable_reason
            &&& after.events == before.events
            &&& after.frames == before.frames
            &&& after.pending == before.pending
            &&& info_after == info_before
        },
        Ok(source) => {
            let next = step->Open_0;
            &&& step is Open
            &&& next.target == MediaCodecFallbackTarget::Software
            &&& next.stage@ == task.stage@ + "_bytebuffer_to_software"@
            &&& next.reason@ == both_failed_text(task.reason@, error)
            &&& next.stream_index == source.parameters.stream_index
            &&& next.codec == source.parameters.codec_name
            &&& next.previous_backend == (match before.backend() {
                Some(backend) => backend,
                None => DecoderBackend::MediaCodec,
            })
            &&& next.import == task.import
            &&& after.route == (VideoRoute {
                decoder: None,
                fallbacks: one_more(one_more(before.route.fallbacks)),
                ..before.route
            })
            &&& after.unavailable_reason is Some
            &&& after.unavailable_reason->0@ == retired_text(
                next.stage@,
                next.previous_backend,
                next.reason@,
            )
            &&& after.events == before.events
            &&& after.frames@ == Seq::<DecodedVideoFrame>::empty()
            &&& after.pending@ == Seq::<Packet>::empty()
            &&& info_after == (OpenedMediaInfo { video_decode_backend: None, ..info_before })
        },
    }
}

/// How simple a decoder is: a surface, then Android's decoder without one, then software.
pub open spec fn rung(config: DecoderConfig) -> int {
    if config.backend == DecoderBackend::Software {
        0
    } else if config.backend == DecoderBackend::MediaCodec && config.mediacodec_surface {
        2
    } else {
        1
    }
}

/// Every step down leads to a simpler decoder, and each is taken at most once: from a surface to
/// a decoder without one, and from there to software.
pub proof fn law_fallbacks_only_step_down(path: VideoPath, task: FallbackTask)
    requires
        path.steps_down_to() is Some,
        task.target == path.steps_down_to()->0,
    ensures
        rung(task.wanted()) < rung(
            DecoderConfig {
                backend: path.route.decoder->0.backend,
                mediacodec_surface: path.route.decoder->0.mediacodec_surface,
            },
        ),
        path.route.surface_disabled ==> task.target == MediaCodecFallbackTarget::Software,
{
}

/// The parameters of a stream are the first that carry its number.
pub proof fn law_the_first_parameters_of_a_stream(
    parameters: Seq<OwnedCodecParameters>,
    stream_index: i32,
    i: int,
)
    ensures
        0 <= i < parameters.len() && parameters[i].parameters.stream_index == stream_index && (
        forall|j: int|
            0 <= j < i ==> (#[trigger] parameters[j]).parameters.stream_index != stream_index)
            ==> parameters_of(parameters, stream_index) == Some(parameters[i]),
        (forall|j: int|
            0 <= j < parameters.len() ==> (#[trigger] parameters[j]).parameters.stream_index
                != stream_index) ==> parameters_of(parameters, stream_index) is None,
    decreases parameters.len(),
{
    if parameters.len() > 0 {
        let rest = parameters.drop_first();
        assert(forall|j: int| 0 <= j < rest.len() ==> #[trigger] rest[j] == parameters[j + 1]);
        law_the_first_parameters_of_a_stream(rest, stream_index, i - 1);
    }
}

/// The stream to decode is that of the decoder in use, and without one that of the selected track.
pub proof fn law_what_is_decoded(decoder: Option<Decoder>, selected: Option<i64>)
    ensures
        decoder is Some ==> stream_to_decode(decoder, selected) == Ok::<i32, PlaybackError>(
            decoder->0.stream_index,
        ),
        decoder is None && selected is None ==> stream_to_decode(decoder, selected) == Err::<
            i32,
            PlaybackError,
        >(PlaybackError::NoVideoTrack),
        decoder is None && selected is Some ==> match stream_to_decode(decoder, selected) {
            Ok(stream) => stream == selected->0,
            Err(error) => (selected->0 < i32::MIN || selected->0 > i32::MAX) && error
                is TrackNotFound && error->track_id == selected->0,
        },
{
}

/// Holding back the decoding of pictures and taking it up again throws away what was decoded and
/// what waits. A decoder that is taken up again is emptied and starts at a key packet; asking for
/// what already is changes nothing.
pub proof fn law_taking_up_decoding_starts_at_a_key(
    after: VideoPath,
    before: VideoPath,
    suspended: bool,
)
    requires
        after.suspended(before, suspended),
    ensures
        after.route.suspended == suspended,
        before.route.suspended == suspended ==> after == before,
        before.route.suspended != suspended ==> after.frames@.len() == 0 && after.pending@.len()
            == 0 && after.route.stall.polls == 0 && after.route.stall.started_at is None,
        before.route.suspended && !suspended && before.route.decoder is Some
            ==> after.route.waiting_for_keyframe && after.route.decoder is Some
            && after.route.decoder->0 == before.route.decoder->0.flushed(),
        !before.route.suspended && suspended ==> after.route.decoder == before.route.decoder
            && after.route.waiting_for_keyframe == before.route.waiting_for_keyframe,
        after.route.fallbacks == before.route.fallbacks,
        after.route.surface_disabled == before.route.surface_disabled,
        (after.route.decoder is Some) == (before.route.decoder is Some),
{
}

/// Where the decoder lends its own pictures, only so many are kept: 8 of Direct3D, 2 on an OpenHarmony
/// surface. All others keep as many as they are told, and do not make packets wait.
pub proof fn law_lent_pictures_are_few(path: VideoPath, limit: usize)
    ensures
        path.route.decoder is None ==> path.picture_limit(limit) == limit && !path.defers(),
        path.route.decoder is Some ==> {
            let decoder = path.route.decoder->0;
            &&& decoder.backend == DecoderBackend::D3d11va ==> path.picture_limit(limit) == 8
            &&& decoder.backend == DecoderBackend::D3d11va && !decoder.on_avcodec_surface() ==> (
            path.defers() <==> path.frames@.len() >= 8)
            &&& decoder.backend != DecoderBackend::D3d11va && decoder.on_avcodec_surface()
                ==> path.picture_limit(limit) == 2 && (path.defers() <==> path.frames@.len() >= 2)
            &&& decoder.backend != DecoderBackend::D3d11va && !decoder.on_avcodec_surface()
                ==> path.picture_limit(limit) == limit && !path.defers()
        },
{
}

/// Each step down counts once: a step to a decoder without a surface when it has succeeded, one to
/// software when it begins. The listeners are told of it behind all they were told before.
pub proof fn law_a_step_down_counts_once(
    task: FallbackTask,
    decoder: Decoder,
    before: VideoPath,
    begun: VideoPath,
    after: VideoPath,
    info_before: OpenedMediaInfo,
    info_after: OpenedMediaInfo,
    source: OwnedCodecParameters,
    stage: Seq<char>,
    reason: Seq<char>,
    import: Option<ImportDetail>,
)
    requires
        task.target == MediaCodecFallbackTarget::ByteBuffer ==> begins_byte_buffer(
            task,
            before,
            begun,
            source,
            stage,
            reason,
            import,
        ),
        task.target == MediaCodecFallbackTarget::Software ==> begins_software(
            task,
            before,
            begun,
            source,
            stage,
            reason,
            import,
        ),
        fallback_took_hold(task, decoder, begun, after, info_before, info_after),
        before.route.fallbacks < u64::MAX,
    ensures
        after.route.fallbacks == before.route.fallbacks + 1,
        after.route.decoder == Some(decoder),
        after.unavailable_reason is None,
        after.frames@.len() == 0,
        after.pending@.len() == 0,
        after.route.suspended == before.route.suspended,
        after.route.waiting_for_keyframe == before.route.waiting_for_keyframe,
        task.target == MediaCodecFallbackTarget::ByteBuffer ==> after.route.surface_disabled,
        task.target == MediaCodecFallbackTarget::Software ==> after.route.surface_disabled
            == before.route.surface_disabled,
        after.events@.len() == before.events@.len() + 1,
        after.events@.drop_last() == before.events@,
        after.events@.last().fallback_count == after.route.fallbacks,
        task.target == MediaCodecFallbackTarget::ByteBuffer ==> info_after.video_decode_backend
            == Some(DecoderBackend::MediaCodec) && after.events@.last().active_backend
            == DecoderBackend::MediaCodec,
        task.target == MediaCodecFallbackTarget::Software ==> info_after.video_decode_backend == Some(
            DecoderBackend::Software,
        ) && after.events@.last().active_backend == DecoderBackend::Software,
{
}

/// A step down that ends with no decoder at all leaves the route as it is, says so, and reports
/// nothing as changed.
pub proof fn law_without_a_decoder_the_failure_stands(
    task: FallbackTask,
    error: Seq<char>,
    before: VideoPath,
    after: VideoPath,
    info_before: OpenedMediaInfo,
    info_after: OpenedMediaInfo,
    r: FallbackStep,
)
    requires
        nothing_left(task, error, before, after, info_before, info_after, r),
    ensures
        r is Failed,
        r->Failed_0 is VideoDecoderUnavailable,
        after.unavailable_reason is Some,
        after.unavailable_reason->0@ == r->Failed_0->VideoDecoderUnavailable_reason@,
        after.route == before.route,
        after.events == before.events,
        info_after.video_decode_backend is None,
        info_after.selected_video_track == info_before.selected_video_track,
{
}

/// Behind a decoder without a surface that would not open comes software, for the same stream, and
/// what was decoded before is thrown away; both steps count.
pub proof fn law_software_comes_last(
    task: FallbackTask,
    error: Seq<char>,
    before: VideoPath,
    after: VideoPath,
    info_before: OpenedMediaInfo,
    info_after: OpenedMediaInfo,
    parameters: Seq<OwnedCodecParameters>,
    step: FallbackStep,
)
    requires
        steps_to_software(
            task,
            error,
            before,
            after,
            info_before,
            info_after,
            parameters,
            step,
        ),
        before.route.fallbacks < u64::MAX - 1,
    ensures
        step is Open || step is Failed,
        step is Open ==> step->Open_0.wanted().backend == DecoderBackend::Software
            && after.frames@.len() == 0 && after.pending@.len() == 0 && after.route.decoder is None
            && after.route.fallbacks == before.route.fallbacks + 2 && after.unavailable_reason
            is Some && after.events == before.events && info_after.video_decode_backend is None,
        step is Open && before.route.decoder is Some ==> step->Open_0.stream_index
            == before.route.decoder->0.stream_index,
        step is Open && before.route.decoder is None ==> info_before.selected_video_track == Some(
            step->Open_0.stream_index as i64,
        ),
        step is Failed ==> after.route.fallbacks == before.route.fallbacks + 1 && after.frames
            == before.frames && info_after == info_before,
        after.route.surface_disabled == before.route.surface_disabled,
        after.route.suspended == before.route.suspended,
{
    match decode_source(before.route.decoder, info_before.selected_video_track, parameters) {
        Ok(source) => {
            let stream = stream_to_decode(
                before.route.decoder,
                info_before.selected_video_track,
            )->Ok_0;
            lemma_parameters_carry_the_stream(parameters, stream);
        },
        Err(_) => {},
    }
}

/// The parameters that are found for a stream carry its number.
proof fn lemma_parameters_carry_the_stream(
    parameters: Seq<OwnedCodecParameters>,
    stream_index: i32,
)
    ensures
        parameters_of(parameters, stream_index) is Some ==> parameters_of(
            parameters,
            stream_index,
        )->0.parameters.stream_index == stream_index,
    decreases parameters.len(),
{
    if parameters.len() > 0 {
        lemma_parameters_carry_the_stream(parameters.drop_first(), stream_index);
    }
}

/// AV1 goes by its name in any case of letters, and by no other.
pub proof fn law_av1_goes_by_its_name(codec: Option<String>)
    ensures
        codec is None ==> !names_av1(codec),
        codec is Some && codec->0@ == seq!['a', 'v', '1'] ==> names_av1(codec),
        codec is Some && codec->0@ == seq!['A', 'V', '1'] ==> names_av1(codec),
        codec is Some && codec->0@.len() != 3 ==> !names_av1(codec),
{
    reveal_strlit("av1");
}

/// A step down knows where it leads, which stream it decodes and what it came from, and it throws
/// away what was decoded.
pub proof fn law_a_step_down_knows_where_it_leads(
    task: FallbackTask,
    before: VideoPath,
    after: VideoPath,
    source: OwnedCodecParameters,
    stage: Seq<char>,
    reason: Seq<char>,
    import: Option<ImportDetail>,
)
    ensures
        begins_byte_buffer(task, before, after, source, stage, reason, import) ==> {
            &&& task.target == MediaCodecFallbackTarget::ByteBuffer
            &&& task.wanted().backend == DecoderBackend::MediaCodec
            &&& !task.wanted().mediacodec_surface
            &&& task.stream_index == source.parameters.stream_index
            &&& task.previous_backend == DecoderBackend::MediaCodec
            &&& after.route.surface_disabled
            &&& after.route.decoder is None
            &&& after.route.fallbacks == before.route.fallbacks
            &&& after.frames@.len() == 0 && after.pending@.len() == 0
            &&& after.events == before.events
            &&& after.unavailable_reason is Some
            &&& task.reason@ == reason && task.stage@ == stage && task.import == import
        },
        begins_software(task, before, after, source, stage, reason, import) ==> {
            &&& task.target == MediaCodecFallbackTarget::Software
            &&& task.wanted().backend == DecoderBackend::Software
            &&& task.stream_index == source.parameters.stream_index
            &&& before.route.decoder is Some ==> task.previous_backend
                == before.route.decoder->0.backend
            &&& after.route.decoder is None
            &&& before.route.fallbacks < u64::MAX ==> after.route.fallbacks
                == before.route.fallbacks + 1
            &&& after.route.surface_disabled == before.route.surface_disabled
            &&& after.frames@.len() == 0 && after.pending@.len() == 0
            &&& after.events == before.events
            &&& after.unavailable_reason is Some
            &&& task.reason@ == reason && task.stage@ == stage && task.import == import
        },
{
}

/// A step down is reported with the decoders on both ends of it, its reason, and what the renderer
/// said of the picture, where it said anything.
pub proof fn law_a_step_down_is_reported_in_full(
    task: FallbackTask,
    event: VideoDecoderEvent,
    stage: Seq<char>,
    count: u64,
)
    requires
        task.reported_by(event, stage, count),
    ensures
        event.stage@ == stage,
        event.requested_backend == task.previous_backend,
        event.previous_backend == Some(task.previous_backend),
        event.fallback_count == count,
        event.reason == Some(task.reason),
        task.import is None ==> event.codec == task.codec && event.pixel_format is None
            && event.line_sizes is None,
        task.import is Some ==> event.pixel_format == task.import->0.pixel_format
            && event.line_sizes == Some(task.import->0.line_sizes),
        task.import is Some && task.import->0.codec is Some ==> event.codec
            == task.import->0.codec,
        task.import is Some && task.import->0.codec is None ==> event.codec == task.codec,
{
}

/// A track that is selected lacks a decoder where there is none; without a selected track none is
/// lacking.
pub proof fn law_when_a_decoder_is_lacking(path: VideoPath, selected: Option<i64>)
    ensures
        selected is None ==> !path.lacks_decoder(selected),
        path.route.decoder is Some ==> !path.lacks_decoder(selected),
        selected is Some && path.route.decoder is None ==> path.lacks_decoder(selected),
{
}

} // verus!
