//! The rules of playback: errors, limits, what is opened with what, and the small decisions.
use std::collections::VecDeque;
use crate::decoder::{DecoderBackend, DecoderConfig, Platform};
use crate::error::FfmpegError;
use crate::media::{
    request_uses_http_source, MediaRequest, TrackInfo, TrackKind, TrackSelection, VideoParams,
};
use crate::pcm::PcmFormat;
use crate::schedule::{PlaybackTimingConfig, DEFAULT_AUDIO_LEAD_NANOS, STREAMING_AUDIO_LEAD_NANOS};
use crate::subtitle::SubtitleTrackConfig;
use crate::text::{
    characters, eq_ignore_ascii_case, is_white_space, joined, signed_decimal_text,
};
use crate::time::Duration;
use vstd::prelude::*;

verus! {

pub const DEFAULT_VIDEO_FRAME_QUEUE_LIMIT: usize = 8;

pub const DEFAULT_AUDIO_FRAME_QUEUE_LIMIT: usize = 16;

/// How many decoded audio frames a request for video may gather while it scans past interleaved
/// audio packets: wider than any sane interleave distance, yet still a bound.
pub const VIDEO_DEMAND_AUDIO_FRAME_CEILING: usize = 512;

pub const STREAMING_VIDEO_FRAME_QUEUE_LIMIT: usize = 48;

pub const STREAMING_AUDIO_FRAME_QUEUE_LIMIT: usize = 128;

pub const D3D11VA_VIDEO_FRAME_QUEUE_LIMIT: usize = 8;

/// A surface queue is commonly triple-buffered: one slot stays free for the presenter.
pub const AVCODEC_SURFACE_VIDEO_FRAME_QUEUE_LIMIT: usize = 2;

pub const SUBTITLE_FRAME_QUEUE_LIMIT: usize = 32;

pub const EXTERNAL_SUBTITLE_LOOKAHEAD_NANOS: u128 = 5_000_000_000;

pub const OUTPUT_AUDIO_CLOCK_STALE_TOLERANCE_NANOS: u128 = 250_000_000;

pub const DEMUX_PACKET_QUEUE_LIMIT: usize = 512;

pub const SEEK_PREROLL_DECODE_TIME_BUDGET_NANOS: u128 = 5_000_000;

pub const SEEK_PREROLL_LOG_INTERVAL_NANOS: u128 = 500_000_000;

pub const VIDEO_PUMP_PACKET_BUDGET: usize = 64;

pub const VIDEO_PUMP_TIME_BUDGET_NANOS: u128 = 5_000_000;

pub const AUDIO_SEEK_INVALID_PACKET_LIMIT: usize = 64;

pub const DECODER_EOF_DRAIN_STALL_TIMEOUT_NANOS: u128 = 2_000_000_000;

pub const DECODER_INPUT_STALL_TIMEOUT_NANOS: u128 = 2_000_000_000;

pub const AUDIO_EOF_OUTPUT_STALL_TIMEOUT_NANOS: u128 = 10_000_000_000;

#[derive(Clone, Debug, PartialEq, Eq)]
pub enum PlaybackError {
    Ffmpeg(FfmpegError),
    Source(String),
    NoVideoTrack,
    VideoDecoderUnavailable { reason: String },
    UnexpectedDecoderOutput,
    NoSubtitleTrack,
    TrackNotFound { kind: TrackKind, track_id: i64 },
    SubtitleTrackNotRemovable(i64),
    DemuxWorker(String),
    DecoderDrainTimeout { reason: String },
    DecoderInputStall { reason: String },
    AudioOutputStall { reason: String },
}

/// The name of a kind of track.
pub open spec fn kind_name(kind: TrackKind) -> Seq<char> {
    match kind {
        TrackKind::Video => "Video"@,
        TrackKind::Audio => "Audio"@,
        TrackKind::Subtitle => "Subtitle"@,
    }
}

fn kind_text(kind: TrackKind) -> (r: &'static str)
    ensures
        r@ == kind_name(kind),
{
    match kind {
        TrackKind::Video => "Video",
        TrackKind::Audio => "Audio",
        TrackKind::Subtitle => "Subtitle",
    }
}

impl PlaybackError {
    /// The text that describes the error.
    pub open spec fn text(self) -> Seq<char> {
        match self {
            PlaybackError::Ffmpeg(error) => "ffmpeg error: "@ + error.text(),
            PlaybackError::Source(reason) => "source error: "@ + reason@,
            PlaybackError::NoVideoTrack => "no video track found"@,
            PlaybackError::VideoDecoderUnavailable { reason } => "video decoder unavailable: "@
                + reason@,
            PlaybackError::UnexpectedDecoderOutput =>
                "selected decoder output is not a video frame"@,
            PlaybackError::NoSubtitleTrack => "no subtitle track found"@,
            PlaybackError::TrackNotFound { kind, track_id } => "track not found: kind="@ + kind_name(
                kind,
            ) + " id="@ + crate::text::signed_decimal(track_id as int),
            PlaybackError::SubtitleTrackNotRemovable(track_id) =>
                "subtitle track is not removable: "@ + crate::text::signed_decimal(track_id as int),
            PlaybackError::DemuxWorker(reason) => "demux worker error: "@ + reason@,
            PlaybackError::DecoderDrainTimeout { reason } => "decoder EOF drain timed out: "@
                + reason@,
            PlaybackError::DecoderInputStall { reason } => "decoder input stalled: "@ + reason@,
            PlaybackError::AudioOutputStall { reason } => "audio output stalled at EOF: "@
                + reason@,
        }
    }

    pub fn message(&self) -> (r: String)
        ensures
            r@ == self.text(),
    {
        match self {
            PlaybackError::Ffmpeg(error) => joined("ffmpeg error: ", error.message().as_str()),
            PlaybackError::Source(reason) => joined("source error: ", reason.as_str()),
            PlaybackError::NoVideoTrack => "no video track found".to_owned(),
            PlaybackError::VideoDecoderUnavailable { reason } => joined(
                "video decoder unavailable: ",
                reason.as_str(),
            ),
            PlaybackError::UnexpectedDecoderOutput =>
                "selected decoder output is not a video frame".to_owned(),
            PlaybackError::NoSubtitleTrack => "no subtitle track found".to_owned(),
            PlaybackError::TrackNotFound { kind, track_id } => {
                let mut out = joined("track not found: kind=", kind_text(*kind));
                out.append(" id=");
                out.append(signed_decimal_text(*track_id).as_str());
                out
            },
            PlaybackError::SubtitleTrackNotRemovable(track_id) => joined(
                "subtitle track is not removable: ",
                signed_decimal_text(*track_id).as_str(),
            ),
            PlaybackError::DemuxWorker(reason) => joined("demux worker error: ", reason.as_str()),
            PlaybackError::DecoderDrainTimeout { reason } => joined(
                "decoder EOF drain timed out: ",
                reason.as_str(),
            ),
            PlaybackError::DecoderInputStall { reason } => joined(
                "decoder input stalled: ",
                reason.as_str(),
            ),
            PlaybackError::AudioOutputStall { reason } => joined(
                "audio output stalled at EOF: ",
                reason.as_str(),
            ),
        }
    }
}

/// How many decoded frames of each kind are kept.
#[derive(Clone, Copy, Debug, PartialEq, Eq, Structural)]
pub struct PlaybackQueueLimits {
    pub video_frames: usize,
    pub audio_frames: usize,
    pub subtitle_frames: usize,
}

/// The limits of local media.
pub open spec fn local_limits() -> PlaybackQueueLimits {
    PlaybackQueueLimits {
        video_frames: DEFAULT_VIDEO_FRAME_QUEUE_LIMIT,
        audio_frames: DEFAULT_AUDIO_FRAME_QUEUE_LIMIT,
        subtitle_frames: SUBTITLE_FRAME_QUEUE_LIMIT,
    }
}

/// The limits of media that come over the network.
pub open spec fn streaming_limits() -> PlaybackQueueLimits {
    PlaybackQueueLimits {
        video_frames: STREAMING_VIDEO_FRAME_QUEUE_LIMIT,
        audio_frames: STREAMING_AUDIO_FRAME_QUEUE_LIMIT,
        subtitle_frames: SUBTITLE_FRAME_QUEUE_LIMIT,
    }
}

impl PlaybackQueueLimits {
    pub fn for_request(request: &MediaRequest) -> (r: Self)
        ensures
            r == (if crate::media::streamed(*request) {
                streaming_limits()
            } else {
                local_limits()
            }),
    {
        if request_uses_http_source(request) {
            PlaybackQueueLimits {
                video_frames: STREAMING_VIDEO_FRAME_QUEUE_LIMIT,
                audio_frames: STREAMING_AUDIO_FRAME_QUEUE_LIMIT,
                subtitle_frames: SUBTITLE_FRAME_QUEUE_LIMIT,
            }
        } else {
            PlaybackQueueLimits::default()
        }
    }
}

impl Default for PlaybackQueueLimits {
    fn default() -> (r: Self)
        ensures
            r == local_limits(),
    {
        PlaybackQueueLimits {
            video_frames: DEFAULT_VIDEO_FRAME_QUEUE_LIMIT,
            audio_frames: DEFAULT_AUDIO_FRAME_QUEUE_LIMIT,
            subtitle_frames: SUBTITLE_FRAME_QUEUE_LIMIT,
        }
    }
}

/// What a pump of the demuxer is for.
#[derive(Clone, Copy, Debug, PartialEq, Eq, Structural)]
pub enum PlaybackPumpDemand {
    Video,
    Audio,
}

/// The most decoded audio frames that a pump tolerates. A full audio queue stops audio prefetch,
/// but a request for video scans past it, up to a ceiling of its own.
pub open spec fn audio_frame_bound(demand: PlaybackPumpDemand, limit: usize) -> usize {
    match demand {
        PlaybackPumpDemand::Audio => limit,
        PlaybackPumpDemand::Video => if limit >= VIDEO_DEMAND_AUDIO_FRAME_CEILING {
            limit
        } else {
            VIDEO_DEMAND_AUDIO_FRAME_CEILING
        },
    }
}

/// Whether the decoded audio frames hold the demuxer back.
pub open spec fn audio_blocks(
    demand: PlaybackPumpDemand,
    audio_output_active: bool,
    queued_audio_frames: usize,
    audio_frame_limit: usize,
) -> bool {
    audio_output_active && queued_audio_frames >= audio_frame_bound(demand, audio_frame_limit)
}

pub fn audio_queue_blocks_demux(
    demand: PlaybackPumpDemand,
    audio_output_active: bool,
    queued_audio_frames: usize,
    audio_frame_limit: usize,
) -> (r: bool)
    ensures
        r == audio_blocks(demand, audio_output_active, queued_audio_frames, audio_frame_limit),
{
    if !audio_output_active {
        return false;
    }
    let limit: usize = match demand {
        PlaybackPumpDemand::Audio => audio_frame_limit,
        PlaybackPumpDemand::Video => if audio_frame_limit >= VIDEO_DEMAND_AUDIO_FRAME_CEILING {
            audio_frame_limit
        } else {
            VIDEO_DEMAND_AUDIO_FRAME_CEILING
        },
    };
    queued_audio_frames >= limit
}

/// What holds back a request for video holds back a request for audio too, and a request for
/// video is held back before the audio queue grows past its ceiling.
pub proof fn law_video_demand_is_relaxed_but_bounded(active: bool, queued: usize, limit: usize)
    ensures
        audio_blocks(PlaybackPumpDemand::Video, active, queued, limit) ==> audio_blocks(
            PlaybackPumpDemand::Audio,
            active,
            queued,
            limit,
        ),
        active && queued >= limit && queued >= VIDEO_DEMAND_AUDIO_FRAME_CEILING ==> audio_blocks(
            PlaybackPumpDemand::Video,
            active,
            queued,
            limit,
        ),
{
}

#[derive(Clone, Copy, Debug, PartialEq, Eq, Structural)]
pub enum VideoDecodePreference {
    Software,
    VideoToolbox,
    D3d11va,
    MediaCodec,
    MediaCodecByteBuffer,
    AvCodec,
}

/// The preference of a system that has a decoder of its own, and software elsewhere.
pub open spec fn preference_on(platform: Platform) -> VideoDecodePreference {
    match platform {
        Platform::Apple => VideoDecodePreference::VideoToolbox,
        Platform::Windows => VideoDecodePreference::D3d11va,
        Platform::Android => VideoDecodePreference::MediaCodec,
        Platform::OpenHarmony => VideoDecodePreference::AvCodec,
        Platform::Other => VideoDecodePreference::Software,
    }
}

impl VideoDecodePreference {
    pub open spec fn config(self) -> DecoderConfig {
        match self {
            VideoDecodePreference::Software => crate::decoder::plain_config(
                DecoderBackend::Software,
            ),
            VideoDecodePreference::VideoToolbox => crate::decoder::plain_config(
                DecoderBackend::VideoToolbox,
            ),
            VideoDecodePreference::D3d11va => crate::decoder::plain_config(DecoderBackend::D3d11va),
            VideoDecodePreference::MediaCodec => crate::decoder::surface_config(),
            VideoDecodePreference::MediaCodecByteBuffer => crate::decoder::plain_config(
                DecoderBackend::MediaCodec,
            ),
            VideoDecodePreference::AvCodec => crate::decoder::plain_config(DecoderBackend::AvCodec),
        }
    }

    pub fn decoder_config(self) -> (r: DecoderConfig)
        ensures
            r == self.config(),
    {
        match self {
            VideoDecodePreference::Software => DecoderConfig::software(),
            VideoDecodePreference::VideoToolbox => DecoderConfig::videotoolbox(),
            VideoDecodePreference::D3d11va => DecoderConfig::d3d11va(),
            VideoDecodePreference::MediaCodec => DecoderConfig::mediacodec(),
            VideoDecodePreference::MediaCodecByteBuffer => DecoderConfig::mediacodec_byte_buffer(),
            VideoDecodePreference::AvCodec => DecoderConfig::avcodec(),
        }
    }

    /// The preference of a system that has a decoder of its own, and software elsewhere.
    pub fn for_platform(platform: Platform) -> (r: Self)
        ensures
            r == preference_on(platform),
    {
        match platform {
            Platform::Apple => VideoDecodePreference::VideoToolbox,
            Platform::Windows => VideoDecodePreference::D3d11va,
            Platform::Android => VideoDecodePreference::MediaCodec,
            Platform::OpenHarmony => VideoDecodePreference::AvCodec,
            Platform::Other => VideoDecodePreference::Software,
        }
    }
}

impl Default for VideoDecodePreference {
    /// The preference where nothing is known of the system.
    fn default() -> (r: Self)
        ensures
            r == VideoDecodePreference::Software,
    {
        VideoDecodePreference::Software
    }
}

#[derive(Clone, Copy, Debug, PartialEq, Eq, Structural)]
pub struct PlaybackSessionConfig {
    pub video_decode: VideoDecodePreference,
    pub audio_output: PcmFormat,
    pub timing: PlaybackTimingConfig,
}

/// The configuration that a session starts with where nothing is known of the system.
pub open spec fn default_session_config() -> PlaybackSessionConfig {
    PlaybackSessionConfig {
        video_decode: VideoDecodePreference::Software,
        audio_output: crate::pcm::interleaved(48_000, 2),
        timing: crate::schedule::default_timing(),
    }
}

impl PlaybackSessionConfig {
    /// The configuration that a session starts with on a system.
    pub fn for_platform(platform: Platform) -> (r: Self)
        ensures
            r == (PlaybackSessionConfig {
                video_decode: preference_on(platform),
                ..default_session_config()
            }),
    {
        PlaybackSessionConfig {
            video_decode: VideoDecodePreference::for_platform(platform),
            audio_output: PcmFormat::default(),
            timing: PlaybackTimingConfig::default(),
        }
    }
}

impl Default for PlaybackSessionConfig {
    /// The configuration where nothing is known of the system.
    fn default() -> (r: Self)
        ensures
            r == default_session_config(),
    {
        PlaybackSessionConfig {
            video_decode: VideoDecodePreference::default(),
            audio_output: PcmFormat::default(),
            timing: PlaybackTimingConfig::default(),
        }
    }
}

/// What is known of an open medium.
#[derive(Clone, Debug, PartialEq, Eq)]
pub struct OpenedMediaInfo {
    pub uri: String,
    pub duration: Option<Duration>,
    pub tracks: Vec<TrackInfo>,
    pub video_params: Option<VideoParams>,
    pub selected_video_track: Option<i64>,
    pub selected_audio_track: Option<i64>,
    pub selected_subtitle_track: Option<i64>,
    pub subtitle_tracks: Vec<SubtitleTrackConfig>,
    pub video_decode_backend: Option<DecoderBackend>,
    pub audio_output: Option<PcmFormat>,
}

impl OpenedMediaInfo {
    pub open spec fn selection(self) -> TrackSelection {
        TrackSelection {
            video: self.selected_video_track,
            audio: self.selected_audio_track,
            subtitle: self.selected_subtitle_track,
        }
    }

    pub fn track_selection(&self) -> (r: TrackSelection)
        ensures
            r == self.selection(),
    {
        TrackSelection {
            video: self.selected_video_track,
            audio: self.selected_audio_track,
            subtitle: self.selected_subtitle_track,
        }
    }
}

/// What came of draining a decoder.
#[derive(Clone, Copy, Debug, PartialEq, Eq, Structural)]
pub struct DecoderDrainStatus {
    pub frames: usize,
    pub end_of_stream: bool,
}

impl DecoderDrainStatus {
    pub open spec fn progressed(self) -> bool {
        self.frames > 0 || self.end_of_stream
    }

    pub fn made_progress(self) -> (r: bool)
        ensures
            r == self.progressed(),
    {
        self.frames > 0 || self.end_of_stream
    }
}

impl Default for DecoderDrainStatus {
    fn default() -> (r: Self)
        ensures
            r == (DecoderDrainStatus { frames: 0, end_of_stream: false }),
    {
        DecoderDrainStatus { frames: 0, end_of_stream: false }
    }
}

/// What was thrown away when the queues were cleared.
#[derive(Clone, Copy, Debug, PartialEq, Eq, Structural)]
pub struct DiscardedPlaybackQueues {
    pub video_frames: usize,
    pub audio_frames: usize,
    pub subtitle_frames: usize,
    pub video_packets: usize,
}

#[derive(Clone, Copy, Debug, PartialEq, Eq, Structural)]
pub enum PlaybackRunState {
    Stopped,
    Playing,
    Paused,
    Ended,
}

impl PlaybackRunState {
    pub open spec fn name(self) -> Seq<char> {
        match self {
            PlaybackRunState::Stopped => "Stopped"@,
            PlaybackRunState::Playing => "Playing"@,
            PlaybackRunState::Paused => "Paused"@,
            PlaybackRunState::Ended => "Ended"@,
        }
    }

    pub fn as_str(self) -> (r: &'static str)
        ensures
            r@ == self.name(),
    {
        match self {
            PlaybackRunState::Stopped => "Stopped",
            PlaybackRunState::Playing => "Playing",
            PlaybackRunState::Paused => "Paused",
            PlaybackRunState::Ended => "Ended",
        }
    }
}

/// Whether playback has come to its natural end: the medium is read out, and nothing that is
/// still to be shown or heard is left.
pub open spec fn at_natural_end(
    session_eof: bool,
    pending_video: bool,
    queued_video: bool,
    audio_output_active: bool,
    pending_audio: bool,
    queued_audio: bool,
) -> bool {
    session_eof && !pending_video && !queued_video && (audio_output_active ==> !pending_audio
        && !queued_audio)
}

pub fn playback_eof_ready(
    session_eof: bool,
    pending_video: bool,
    queued_video: bool,
    audio_output_active: bool,
    pending_audio: bool,
    queued_audio: bool,
) -> (r: bool)
    ensures
        r == at_natural_end(
            session_eof,
            pending_video,
            queued_video,
            audio_output_active,
            pending_audio,
            queued_audio,
        ),
{
    session_eof && !pending_video && !queued_video && (!audio_output_active || (!pending_audio
        && !queued_audio))
}

pub fn playback_state_requires_rewind(state: PlaybackRunState) -> (r: bool)
    ensures
        r == (state == PlaybackRunState::Ended),
{
    state == PlaybackRunState::Ended
}

/// Why no video is decoded although a video track is selected; nothing where there is no such
/// want.
pub fn video_decoder_unavailability_reason(
    selected_video_track: Option<i64>,
    decoder_available: bool,
    recorded_reason: Option<&str>,
) -> (r: Option<String>)
    ensures
        r is Some <==> selected_video_track is Some && !decoder_available,
        r is Some ==> r->0@ == missing_decoder_text(
            selected_video_track->0,
            match recorded_reason {
                Some(reason) => Some(reason@),
                None => None,
            },
        ),
{
    match selected_video_track {
        None => None,
        Some(track_id) => {
            if decoder_available {
                return None;
            }
            match recorded_reason {
                Some(reason) => Some(reason.to_owned()),
                None => {
                    let mut out = joined(
                        "selected video track ",
                        signed_decimal_text(track_id).as_str(),
                    );
                    out.append(" has no active decoder; reopen the media before playback");
                    Some(out)
                },
            }
        },
    }
}

/// The text that says why no video is decoded: the reason that was recorded, where there is one.
pub open spec fn missing_decoder_text(track_id: i64, recorded: Option<Seq<char>>) -> Seq<char> {
    match recorded {
        Some(reason) => reason,
        None => "selected video track "@ + crate::text::signed_decimal(track_id as int)
            + " has no active decoder; reopen the media before playback"@,
    }
}

/// The state that a seek leaves playback in.
pub open spec fn state_after_seek(before: PlaybackRunState, resume: bool) -> PlaybackRunState {
    if resume {
        PlaybackRunState::Playing
    } else if before == PlaybackRunState::Stopped || before == PlaybackRunState::Ended {
        PlaybackRunState::Stopped
    } else {
        PlaybackRunState::Paused
    }
}

pub fn playback_state_after_seek(state: PlaybackRunState) -> (r: PlaybackRunState)
    ensures
        r == state_after_seek(state, state == PlaybackRunState::Playing),
{
    playback_state_after_seek_intent(state, state == PlaybackRunState::Playing)
}

pub fn playback_state_after_seek_intent(
    state_before: PlaybackRunState,
    resume_after_seek: bool,
) -> (r: PlaybackRunState)
    ensures
        r == state_after_seek(state_before, resume_after_seek),
{
    if resume_after_seek {
        PlaybackRunState::Playing
    } else {
        match state_before {
            PlaybackRunState::Stopped => PlaybackRunState::Stopped,
            PlaybackRunState::Ended => PlaybackRunState::Stopped,
            PlaybackRunState::Playing => PlaybackRunState::Paused,
            PlaybackRunState::Paused => PlaybackRunState::Paused,
        }
    }
}

/// Whether the decoding up to a seek target has taken its share of time for now.
pub open spec fn preroll_spent(dropped: usize, budget: usize, elapsed: Duration) -> bool {
    (dropped >= budget && dropped >= 1) || elapsed.nanos >= SEEK_PREROLL_DECODE_TIME_BUDGET_NANOS
}

pub fn seek_preroll_budget_exhausted(
    dropped_frames: usize,
    configured_frame_budget: usize,
    elapsed: Duration,
) -> (r: bool)
    ensures
        r == preroll_spent(dropped_frames, configured_frame_budget, elapsed),
{
    let budget: usize = if configured_frame_budget == 0 {
        1
    } else {
        configured_frame_budget
    };
    dropped_frames >= budget || elapsed.as_nanos() >= SEEK_PREROLL_DECODE_TIME_BUDGET_NANOS
}

/// The timing of a session: media that come over the network get a longer audio lead, unless the
/// lead was chosen.
pub open spec fn timing_for(request: MediaRequest, timing: PlaybackTimingConfig) -> PlaybackTimingConfig {
    if crate::media::streamed(request) && timing.audio_lead_time.nanos == DEFAULT_AUDIO_LEAD_NANOS {
        PlaybackTimingConfig {
            audio_lead_time: Duration { nanos: STREAMING_AUDIO_LEAD_NANOS },
            ..timing
        }
    } else {
        timing
    }
}

pub fn playback_timing_for_request(request: &MediaRequest, timing: PlaybackTimingConfig) -> (r:
    PlaybackTimingConfig)
    ensures
        r == timing_for(*request, timing),
{
    if request_uses_http_source(request) && timing.audio_lead_time.nanos
        == DEFAULT_AUDIO_LEAD_NANOS {
        return PlaybackTimingConfig {
            audio_lead_time: Duration { nanos: STREAMING_AUDIO_LEAD_NANOS },
            ..timing
        };
    }
    timing
}

/// The newest of a run of frames: as many as a limit allows.
pub open spec fn newest<T>(frames: Seq<T>, limit: int) -> Seq<T> {
    if frames.len() <= limit {
        frames
    } else {
        frames.subrange(frames.len() - limit, frames.len() as int)
    }
}

/// Cuts a queue down to a limit; the frames that came first leave first, so the end of a medium
/// never freezes on an older picture than the last one.
pub fn trim_video_queue<T>(frames: &mut VecDeque<T>, limit: usize)
    ensures
        final(frames)@ == newest(old(frames)@, limit as int),
{
    while frames.len() > limit
        invariant
            frames@.len() <= old(frames)@.len(),
            frames@ =~= old(frames)@.subrange(
                old(frames)@.len() - frames@.len(),
                old(frames)@.len() as int,
            ),
            frames@.len() < old(frames)@.len() ==> frames@.len() >= limit,
        decreases frames@.len(),
    {
        let _ = frames.pop_front();
    }
}

/// Cuts a queue of subtitles down to a limit.
pub fn trim_subtitle_queue<T>(frames: &mut VecDeque<T>, limit: usize)
    ensures
        final(frames)@ == newest(old(frames)@, limit as int),
{
    trim_video_queue(frames, limit);
}

/// A trimmed queue is never longer than the limit, keeps the frame that came last, and is not
/// changed by trimming again.
pub proof fn law_trimming_keeps_the_newest<T>(frames: Seq<T>, limit: int)
    requires
        limit >= 0,
    ensures
        newest(frames, limit).len() <= limit || newest(frames, limit).len() == frames.len(),
        frames.len() > limit ==> newest(frames, limit).len() == limit,
        frames.len() > 0 && limit > 0 ==> newest(frames, limit).last() == frames.last(),
        newest(newest(frames, limit), limit) == newest(frames, limit),
{
}

/// Whether a decoder that would not open may be replaced by software: the decoders of Windows,
/// Android and OpenHarmony, and VideoToolbox for AV1.
pub open spec fn open_failure_falls_back(backend: DecoderBackend, codec: Option<Seq<char>>) -> bool {
    match backend {
        DecoderBackend::D3d11va => true,
        DecoderBackend::MediaCodec => true,
        DecoderBackend::AvCodec => true,
        DecoderBackend::VideoToolbox => codec is Some && crate::text::same_ignoring_case(
            codec->0,
            "av1"@,
        ),
        DecoderBackend::Software => false,
    }
}

/// The characters of an optional text.
pub open spec fn text_of(text: Option<&str>) -> Option<Seq<char>> {
    match text {
        Some(text) => Some(text@),
        None => None,
    }
}

pub fn should_fallback_video_decoder_open_error(backend: DecoderBackend, codec: Option<&str>) -> (r:
    bool)
    ensures
        r == open_failure_falls_back(backend, text_of(codec)),
{
    match backend {
        DecoderBackend::D3d11va => true,
        DecoderBackend::MediaCodec => true,
        DecoderBackend::AvCodec => true,
        DecoderBackend::VideoToolbox => match codec {
            Some(codec) => eq_ignore_ascii_case(codec, "av1"),
            None => false,
        },
        DecoderBackend::Software => false,
    }
}

/// The stage under which the opening of a decoder is reported.
pub open spec fn open_stage(config: DecoderConfig) -> Seq<char> {
    match config.backend {
        DecoderBackend::MediaCodec => if config.mediacodec_surface {
            "open_surface"@
        } else {
            "open_bytebuffer"@
        },
        DecoderBackend::AvCodec => "open_avcodec"@,
        _ => "open"@,
    }
}

pub fn video_decoder_open_stage(config: DecoderConfig) -> (r: &'static str)
    ensures
        r@ == open_stage(config),
{
    match config.backend {
        DecoderBackend::MediaCodec => if config.mediacodec_surface {
            "open_surface"
        } else {
            "open_bytebuffer"
        },
        DecoderBackend::AvCodec => "open_avcodec",
        _ => "open",
    }
}

/// Whether `error` says that no decoder could be opened, and at which stage.
pub open spec fn unavailable_at(error: PlaybackError, stage: Seq<char>, reason: Seq<char>) -> bool {
    error is VideoDecoderUnavailable && error->VideoDecoderUnavailable_reason@ == stage + ": "@
        + reason
}

pub fn video_decoder_open_unavailable_error(stage: &str, reason: &str) -> (r: PlaybackError)
    ensures
        unavailable_at(r, stage@, reason@),
{
    let mut text = joined(stage, ": ");
    text.append(reason);
    PlaybackError::VideoDecoderUnavailable { reason: text }
}

/// What Android's decoder steps down to.
#[derive(Clone, Copy, Debug, PartialEq, Eq, Structural)]
pub enum MediaCodecFallbackTarget {
    ByteBuffer,
    Software,
}

pub open spec fn fallback_target(
    active_backend: Option<DecoderBackend>,
    uses_surface: bool,
    surface_disabled: bool,
) -> Option<MediaCodecFallbackTarget> {
    if active_backend != Some(DecoderBackend::MediaCodec) {
        None
    } else if uses_surface && !surface_disabled {
        Some(MediaCodecFallbackTarget::ByteBuffer)
    } else {
        Some(MediaCodecFallbackTarget::Software)
    }
}

pub fn mediacodec_fallback_target(
    active_backend: Option<DecoderBackend>,
    uses_surface: bool,
    surface_disabled: bool,
) -> (r: Option<MediaCodecFallbackTarget>)
    ensures
        r == fallback_target(active_backend, uses_surface, surface_disabled),
{
    match active_backend {
        Some(DecoderBackend::MediaCodec) => if uses_surface && !surface_disabled {
            Some(MediaCodecFallbackTarget::ByteBuffer)
        } else {
            Some(MediaCodecFallbackTarget::Software)
        },
        _ => None,
    }
}

/// How Android's decoder is opened again for a seek.
#[derive(Clone, Copy, Debug, PartialEq, Eq, Structural)]
pub enum MediaCodecSeekRoute {
    Surface,
    ByteBuffer,
}

impl MediaCodecSeekRoute {
    pub open spec fn config(self) -> DecoderConfig {
        match self {
            MediaCodecSeekRoute::Surface => crate::decoder::surface_config(),
            MediaCodecSeekRoute::ByteBuffer => crate::decoder::plain_config(
                DecoderBackend::MediaCodec,
            ),
        }
    }

    pub fn decoder_config(self) -> (r: DecoderConfig)
        ensures
            r == self.config(),
    {
        match self {
            MediaCodecSeekRoute::Surface => DecoderConfig::mediacodec(),
            MediaCodecSeekRoute::ByteBuffer => DecoderConfig::mediacodec_byte_buffer(),
        }
    }

    pub open spec fn name(self) -> Seq<char> {
        match self {
            MediaCodecSeekRoute::Surface => "surface_ahardwarebuffer"@,
            MediaCodecSeekRoute::ByteBuffer => "bytebuffer_cpu_upload"@,
        }
    }

    pub fn as_str(self) -> (r: &'static str)
        ensures
            r@ == self.name(),
    {
        match self {
            MediaCodecSeekRoute::Surface => "surface_ahardwarebuffer",
            MediaCodecSeekRoute::ByteBuffer => "bytebuffer_cpu_upload",
        }
    }
}

pub open spec fn seek_route(active_backend: Option<DecoderBackend>, uses_surface: bool) -> Option<
    MediaCodecSeekRoute,
> {
    if active_backend != Some(DecoderBackend::MediaCodec) {
        None
    } else if uses_surface {
        Some(MediaCodecSeekRoute::Surface)
    } else {
        Some(MediaCodecSeekRoute::ByteBuffer)
    }
}

pub fn mediacodec_seek_route(active_backend: Option<DecoderBackend>, uses_surface: bool) -> (r: Option<
    MediaCodecSeekRoute,
>)
    ensures
        r == seek_route(active_backend, uses_surface),
{
    match active_backend {
        Some(DecoderBackend::MediaCodec) => if uses_surface {
            Some(MediaCodecSeekRoute::Surface)
        } else {
            Some(MediaCodecSeekRoute::ByteBuffer)
        },
        _ => None,
    }
}

/// The number of a stream, where it is one.
pub fn stream_index_i32(stream_index: i64, kind: TrackKind, track_id: i64) -> (r: Result<
    i32,
    PlaybackError,
>)
    ensures
        r == (if i32::MIN <= stream_index <= i32::MAX {
            Ok::<i32, PlaybackError>(stream_index as i32)
        } else {
            Err(PlaybackError::TrackNotFound { kind, track_id })
        }),
{
    if stream_index < i32::MIN as i64 || stream_index > i32::MAX as i64 {
        return Err(PlaybackError::TrackNotFound { kind, track_id });
    }
    Ok(stream_index as i32)
}

/// The path of an address, without query and fragment.
pub open spec fn path_of(uri: Seq<char>) -> Seq<char>
    decreases uri.len(),
{
    if uri.len() == 0 || uri[0] == '?' || uri[0] == '#' {
        Seq::empty()
    } else {
        seq![uri[0]] + path_of(uri.drop_first())
    }
}

/// The last segment of a path.
pub open spec fn leaf_of(path: Seq<char>) -> Seq<char>
    decreases path.len(),
{
    if path.len() == 0 || path.last() == '/' {
        Seq::empty()
    } else {
        leaf_of(path.drop_last()).push(path.last())
    }
}

/// What stands behind the last dot of a name.
pub open spec fn behind_last_dot(name: Seq<char>) -> Option<Seq<char>>
    decreases name.len(),
{
    if name.len() == 0 {
        None
    } else if name.last() == '.' {
        Some(Seq::empty())
    } else {
        match behind_last_dot(name.drop_last()) {
            Some(rest) => Some(rest.push(name.last())),
            None => None,
        }
    }
}

/// The extension of a name: what stands behind its last dot, where something stands on both sides
/// of it.
pub open spec fn extension_of(name: Seq<char>) -> Option<Seq<char>> {
    match behind_last_dot(name) {
        Some(rest) => if 0 < rest.len() && rest.len() + 1 < name.len() {
            Some(rest)
        } else {
            None
        },
        None => None,
    }
}

/// Whether an extension names a text subtitle format.
pub open spec fn names_text_subtitle(extension: Seq<char>) -> bool {
    ||| crate::text::same_ignoring_case(extension, "srt"@)
    ||| crate::text::same_ignoring_case(extension, "vtt"@)
    ||| crate::text::same_ignoring_case(extension, "ass"@)
    ||| crate::text::same_ignoring_case(extension, "ssa"@)
}

pub fn uri_path_component(uri: &str) -> (r: &str)
    ensures
        r@ == path_of(uri@),
{
    let text = characters(uri);
    let mut i: usize = 0;
    assert(text@.subrange(0, text@.len() as int) =~= text@);
    while i < text.len()
        invariant_except_break
            i <= text@.len(),
            text@ == uri@,
            path_of(text@) =~= text@.subrange(0, i as int) + path_of(
                text@.subrange(i as int, text@.len() as int),
            ),
        ensures
            i <= text@.len(),
            text@ == uri@,
            path_of(text@) == text@.subrange(0, i as int),
        decreases text@.len() - i,
    {
        let ghost rest = text@.subrange(i as int, text@.len() as int);
        if text[i] == '?' || text[i] == '#' {
            assert(path_of(rest) =~= Seq::empty());
            assert(path_of(text@) =~= text@.subrange(0, i as int));
            break;
        }
        assert(rest.drop_first() =~= text@.subrange(i + 1, text@.len() as int));
        i = i + 1;
    }
    uri.substring_char(0, i)
}

fn path_leaf(path: &str) -> (r: &str)
    ensures
        r@ == leaf_of(path@),
{
    let text = characters(path);
    let total: usize = text.len();
    let mut i: usize = total;
    assert(text@.subrange(0, total as int) =~= text@);
    while i > 0
        invariant_except_break
            i <= total,
            total == text@.len(),
            text@ == path@,
            leaf_of(text@) =~= leaf_of(text@.subrange(0, i as int)) + text@.subrange(
                i as int,
                total as int,
            ),
        ensures
            i <= total,
            total == text@.len(),
            text@ == path@,
            leaf_of(text@) == text@.subrange(i as int, total as int),
        decreases i,
    {
        let ghost front = text@.subrange(0, i as int);
        if text[i - 1] == '/' {
            assert(leaf_of(front) =~= Seq::empty());
            assert(leaf_of(text@) =~= text@.subrange(i as int, total as int));
            break;
        }
        assert(front.drop_last() =~= text@.subrange(0, i - 1));
        i = i - 1;
    }
    path.substring_char(i, total)
}

/// The extension of the last segment of a path.
pub fn subtitle_path_extension(path: &str) -> (r: Option<&str>)
    ensures
        text_of(r) == extension_of(leaf_of(path@)),
{
    let leaf = path_leaf(path);
    let text = characters(leaf);
    let total: usize = text.len();
    let mut i: usize = total;
    proof {
        assert(text@.subrange(0, total as int) =~= text@);
        match behind_last_dot(text@) {
            Some(rest) => {
                assert(rest + text@.subrange(total as int, total as int) =~= rest);
            },
            None => {},
        }
    }
    while i > 0
        invariant
            i <= total,
            total == text@.len(),
            text@ == leaf@,
            leaf@ == leaf_of(path@),
            behind_last_dot(text@) == (match behind_last_dot(text@.subrange(0, i as int)) {
                Some(rest) => Some(rest + text@.subrange(i as int, total as int)),
                None => None,
            }),
        decreases i,
    {
        let ghost front = text@.subrange(0, i as int);
        if text[i - 1] == '.' {
            assert(behind_last_dot(front) == Some(Seq::<char>::empty()));
            assert(behind_last_dot(text@)->0 =~= text@.subrange(i as int, total as int));
            if i >= 2 && i < total {
                return Some(leaf.substring_char(i, total));
            }
            return None;
        }
        proof {
            assert(front.drop_last() =~= text@.subrange(0, i - 1));
            match behind_last_dot(front.drop_last()) {
                Some(rest) => {
                    assert(rest.push(front.last()) + text@.subrange(i as int, total as int)
                        =~= rest + text@.subrange(i - 1, total as int));
                },
                None => {},
            }
        }
        i = i - 1;
    }
    None
}

/// Whether the characters of a subtitle are looked at before it is opened: those of the text
/// formats, and of an address that names no format at all. Pictures are left alone.
pub open spec fn inspected(uri: Seq<char>) -> bool {
    match extension_of(leaf_of(path_of(uri))) {
        Some(extension) => names_text_subtitle(extension),
        None => true,
    }
}

pub fn external_subtitle_needs_charset_inspection(uri: &str) -> (r: bool)
    ensures
        r == inspected(uri@),
{
    let path = uri_path_component(uri);
    match subtitle_path_extension(path) {
        Some(extension) => eq_ignore_ascii_case(extension, "srt") || eq_ignore_ascii_case(
            extension,
            "vtt",
        ) || eq_ignore_ascii_case(extension, "ass") || eq_ignore_ascii_case(extension, "ssa"),
        None => true,
    }
}

/// A text without the white space in front.
pub open spec fn without_leading(text: Seq<char>) -> Seq<char>
    decreases text.len(),
{
    if text.len() > 0 && crate::text::white_space(text[0]) {
        without_leading(text.drop_first())
    } else {
        text
    }
}

/// A text without the white space at its end.
pub open spec fn without_trailing(text: Seq<char>) -> Seq<char>
    decreases text.len(),
{
    if text.len() > 0 && crate::text::white_space(text.last()) {
        without_trailing(text.drop_last())
    } else {
        text
    }
}

/// The title of a subtitle that has none: the last segment of its address.
pub open spec fn title_of(uri: Seq<char>) -> Option<Seq<char>> {
    let title = without_trailing(without_leading(leaf_of(uri)));
    if title.len() == 0 { None } else { Some(title) }
}

pub fn external_subtitle_title(uri: &str) -> (r: Option<String>)
    ensures
        r is Some <==> title_of(uri@) is Some,
        r is Some ==> r->0@ == title_of(uri@)->0,
{
    let leaf = path_leaf(uri);
    let text = characters(leaf);
    let total: usize = text.len();
    let mut start: usize = 0;
    assert(text@.subrange(0, total as int) =~= text@);
    while start < total
        invariant_except_break
            start <= total,
            total == text@.len(),
            without_leading(text@) == without_leading(text@.subrange(start as int, total as int)),
        ensures
            start <= total,
            total == text@.len(),
            without_leading(text@) == text@.subrange(start as int, total as int),
        decreases total - start,
    {
        let ghost rest = text@.subrange(start as int, total as int);
        if !is_white_space(text[start]) {
            break;
        }
        assert(rest.drop_first() =~= text@.subrange(start + 1, total as int));
        start = start + 1;
    }
    let ghost front = text@.subrange(start as int, total as int);
    let mut end: usize = total;
    while end > start
        invariant_except_break
            start <= end <= total,
            total == text@.len(),
            front == text@.subrange(start as int, total as int),
            without_trailing(front) == without_trailing(text@.subrange(start as int, end as int)),
        ensures
            start <= end <= total,
            without_trailing(front) == text@.subrange(start as int, end as int),
        decreases end,
    {
        let ghost rest = text@.subrange(start as int, end as int);
        if !is_white_space(text[end - 1]) {
            break;
        }
        assert(rest.drop_last() =~= text@.subrange(start as int, end - 1));
        end = end - 1;
    }
    if start == end {
        return None;
    }
    Some(leaf.substring_char(start, end).to_owned())
}

/// Playback has ended exactly when the medium is read out and nothing is left to show, nor, where
/// there is an output for it, to hear.
pub proof fn law_what_is_left_keeps_playback_going(
    pending_video: bool,
    queued_video: bool,
    active: bool,
    pending_audio: bool,
    queued_audio: bool,
)
    ensures
        !at_natural_end(false, pending_video, queued_video, active, pending_audio, queued_audio),
        pending_video || queued_video ==> !at_natural_end(
            true,
            pending_video,
            queued_video,
            active,
            pending_audio,
            queued_audio,
        ),
        at_natural_end(true, pending_video, queued_video, true, pending_audio, queued_audio) <==> !(
        pending_video || queued_video || pending_audio || queued_audio),
        at_natural_end(true, false, false, false, pending_audio, queued_audio),
{
}

/// Playback that ran goes on after a seek where it is told to; otherwise a seek leaves no playback
/// running, and one that was stopped or had ended stays stopped.
pub proof fn law_a_seek_does_not_start_playback(before: PlaybackRunState, resume: bool)
    ensures
        state_after_seek(before, resume) == PlaybackRunState::Playing <==> resume,
        !resume ==> (state_after_seek(before, resume) == PlaybackRunState::Stopped <==> (before
            == PlaybackRunState::Stopped || before == PlaybackRunState::Ended)),
        state_after_seek(before, resume) != PlaybackRunState::Ended,
{
}

/// Each frame of a trimmed queue is the one that stands as far from the end of the whole queue.
pub proof fn law_the_newest_keep_their_order<T>(frames: Seq<T>, limit: int, back: int)
    requires
        limit >= 0,
        1 <= back <= limit,
        back <= frames.len(),
    ensures
        newest(frames, limit).len() >= back,
        newest(frames, limit)[newest(frames, limit).len() - back] == frames[frames.len() - back],
{
}

/// The timing of media on the disk is what was asked for. Over the network the lead of the sound
/// grows from its default of 120 ms to a second and a half, and nothing else changes.
pub proof fn law_only_the_default_lead_grows(request: MediaRequest, timing: PlaybackTimingConfig)
    ensures
        ({
            let chosen = timing_for(request, timing);
            &&& (PlaybackTimingConfig { audio_lead_time: timing.audio_lead_time, ..chosen })
                == timing
            &&& !crate::media::streamed(request) ==> chosen == timing
            &&& timing.audio_lead_time.nanos != 120_000_000 ==> chosen == timing
            &&& crate::media::streamed(request) && timing.audio_lead_time.nanos == 120_000_000
                ==> chosen.audio_lead_time.nanos == 1_500_000_000
        }),
{
}

/// Sound that has no output holds nothing back. With one, a request for sound stops at the limit,
/// and one for pictures at 512 frames where the limit is not higher.
pub proof fn law_when_sound_holds_back(active: bool, queued: usize, limit: usize)
    ensures
        !audio_blocks(PlaybackPumpDemand::Audio, false, queued, limit),
        !audio_blocks(PlaybackPumpDemand::Video, false, queued, limit),
        audio_blocks(PlaybackPumpDemand::Audio, true, queued, limit) <==> queued >= limit,
        audio_blocks(PlaybackPumpDemand::Video, true, queued, limit) <==> (queued >= limit && queued
            >= 512),
{
}

/// The queues of media that come over the network are longer than those of local ones, and all are
/// bounded.
pub proof fn law_the_queues_are_bounded()
    ensures
        local_limits().video_frames == 8 && local_limits().audio_frames == 16,
        streaming_limits().video_frames == 48 && streaming_limits().audio_frames == 128,
        local_limits().subtitle_frames == 32 && streaming_limits().subtitle_frames == 32,
{
}

/// A MediaCodec decoder falls back in steps: from the surface to its own buffers, from there to
/// software, and no other decoder takes part. A seek keeps the way it decodes.
pub proof fn law_mediacodec_falls_back_in_steps(
    backend: Option<DecoderBackend>,
    uses_surface: bool,
    disabled: bool,
)
    ensures
        (fallback_target(backend, uses_surface, disabled) is None) == (backend != Some(
            DecoderBackend::MediaCodec,
        )),
        fallback_target(backend, uses_surface, disabled) == Some(
            MediaCodecFallbackTarget::ByteBuffer,
        ) <==> (backend == Some(DecoderBackend::MediaCodec) && uses_surface && !disabled),
        (seek_route(backend, uses_surface) is None) == (backend != Some(DecoderBackend::MediaCodec)),
        seek_route(backend, uses_surface) == Some(MediaCodecSeekRoute::Surface) <==> (backend
            == Some(DecoderBackend::MediaCodec) && uses_surface),
        MediaCodecSeekRoute::Surface.config().mediacodec_surface,
        !MediaCodecSeekRoute::ByteBuffer.config().mediacodec_surface,
{
}

/// A pump on its way to a seek target goes on until it has dropped its share, at least one, or has
/// taken 5 ms.
pub proof fn law_the_way_to_a_target_is_rationed(dropped: usize, budget: usize, elapsed: Duration)
    ensures
        elapsed.nanos >= 5_000_000 ==> preroll_spent(dropped, budget, elapsed),
        elapsed.nanos < 5_000_000 ==> (preroll_spent(dropped, budget, elapsed) <==> (dropped >= 1
            && dropped >= budget)),
{
}

/// Whether a software decoder may take over: for the systems' own decoders other than VideoToolbox
/// always, for VideoToolbox with AV1 only, and never for software itself.
pub proof fn law_who_may_be_replaced(codec: Option<Seq<char>>)
    ensures
        open_failure_falls_back(DecoderBackend::D3d11va, codec),
        open_failure_falls_back(DecoderBackend::MediaCodec, codec),
        open_failure_falls_back(DecoderBackend::AvCodec, codec),
        !open_failure_falls_back(DecoderBackend::Software, codec),
        codec is None ==> !open_failure_falls_back(DecoderBackend::VideoToolbox, codec),
        codec is Some && codec->0.len() != 3 ==> !open_failure_falls_back(
            DecoderBackend::VideoToolbox,
            codec,
        ),
{
    reveal_strlit("av1");
}

/// The path is what stands in front of the first question mark or hash.
pub proof fn law_the_path_ends_at_the_query(path: Seq<char>, rest: Seq<char>, mark: char)
    requires
        forall|i: int| 0 <= i < path.len() ==> path[i] != '?' && path[i] != '#',
        mark == '?' || mark == '#',
    ensures
        path_of(path) == path,
        path_of(path.push(mark) + rest) == path,
    decreases path.len(),
{
    let whole = path.push(mark) + rest;
    if path.len() > 0 {
        let tail = path.drop_first();
        assert forall|i: int| 0 <= i < tail.len() implies tail[i] != '?' && tail[i] != '#' by {
            assert(tail[i] == path[i + 1]);
        }
        law_the_path_ends_at_the_query(tail, rest, mark);
        assert(whole.drop_first() =~= tail.push(mark) + rest);
        assert(whole[0] == path[0]);
        assert(seq![path[0]] + tail =~= path);
    } else {
        assert(whole[0] == mark);
        assert(path =~= Seq::empty());
    }
}

/// The last segment is what stands behind the last slash.
pub proof fn law_the_leaf_stands_behind_the_slash(directory: Seq<char>, name: Seq<char>)
    requires
        forall|i: int| 0 <= i < name.len() ==> name[i] != '/',
    ensures
        leaf_of(name) == name,
        leaf_of(directory.push('/') + name) == name,
    decreases name.len(),
{
    let whole = directory.push('/') + name;
    if name.len() > 0 {
        let head = name.drop_last();
        assert forall|i: int| 0 <= i < head.len() implies head[i] != '/' by {
            assert(head[i] == name[i]);
        }
        law_the_leaf_stands_behind_the_slash(directory, head);
        assert(whole.drop_last() =~= directory.push('/') + head);
        assert(whole.last() == name.last());
        assert(head.push(name.last()) =~= name);
    } else {
        assert(whole.last() == '/');
        assert(name =~= Seq::empty());
    }
}

/// What stands behind the last dot is the tail that holds no dot.
proof fn lemma_behind_the_dot(stem: Seq<char>, extension: Seq<char>)
    requires
        forall|i: int| 0 <= i < extension.len() ==> extension[i] != '.',
    ensures
        behind_last_dot(stem.push('.') + extension) == Some(extension),
        behind_last_dot(extension) is None,
    decreases extension.len(),
{
    let whole = stem.push('.') + extension;
    if extension.len() > 0 {
        let head = extension.drop_last();
        assert forall|i: int| 0 <= i < head.len() implies head[i] != '.' by {
            assert(head[i] == extension[i]);
        }
        lemma_behind_the_dot(stem, head);
        assert(whole.drop_last() =~= stem.push('.') + head);
        assert(whole.last() == extension.last());
        assert(head.push(extension.last()) =~= extension);
    } else {
        assert(whole.last() == '.');
        assert(extension =~= Seq::empty());
    }
}

/// A name made of a stem, a dot and an extension without dots has that extension, where neither is
/// empty; a name without a dot has none.
pub proof fn law_the_extension_stands_behind_the_dot(stem: Seq<char>, extension: Seq<char>)
    requires
        forall|i: int| 0 <= i < extension.len() ==> extension[i] != '.',
    ensures
        stem.len() > 0 && extension.len() > 0 ==> extension_of(stem.push('.') + extension) == Some(
            extension,
        ),
        stem.len() == 0 || extension.len() == 0 ==> extension_of(stem.push('.') + extension) is None,
        extension_of(extension) is None,
{
    lemma_behind_the_dot(stem, extension);
}

/// Of a text only white space is taken away in front and behind, and all of it.
pub proof fn law_trimming_takes_white_space_only(text: Seq<char>)
    ensures
        ({
            let left = without_leading(text);
            let from = text.len() - left.len();
            &&& 0 <= from <= text.len()
            &&& left == text.subrange(from, text.len() as int)
            &&& forall|i: int| 0 <= i < from ==> crate::text::white_space(text[i])
            &&& left.len() > 0 ==> !crate::text::white_space(left[0])
        }),
        ({
            let right = without_trailing(text);
            &&& right.len() <= text.len()
            &&& right == text.subrange(0, right.len() as int)
            &&& forall|i: int|
                right.len() <= i < text.len() ==> crate::text::white_space(text[i])
            &&& right.len() > 0 ==> !crate::text::white_space(right.last())
        }),
    decreases text.len(),
{
    if text.len() > 0 {
        let tail = text.drop_first();
        let head = text.drop_last();
        law_trimming_takes_white_space_only(tail);
        law_trimming_takes_white_space_only(head);
        if crate::text::white_space(text[0]) {
            let left = without_leading(tail);
            let from = tail.len() - left.len();
            assert(left =~= text.subrange(from + 1, text.len() as int));
            assert forall|i: int| 0 <= i < from + 1 implies crate::text::white_space(text[i]) by {
                if i > 0 {
                    assert(text[i] == tail[i - 1]);
                }
            }
        } else {
            assert(text =~= text.subrange(0, text.len() as int));
        }
        if crate::text::white_space(text.last()) {
            let right = without_trailing(head);
            assert(right =~= text.subrange(0, right.len() as int));
            assert forall|i: int| right.len() <= i < text.len() implies crate::text::white_space(
                text[i],
            ) by {
                if i < text.len() - 1 {
                    assert(text[i] == head[i]);
                }
            }
        } else {
            assert(text =~= text.subrange(0, text.len() as int));
        }
    }
}

/// A subtitle's title is its file name, where that is more than white space.
pub proof fn law_the_title_is_the_file_name(directory: Seq<char>, name: Seq<char>)
    requires
        forall|i: int| 0 <= i < name.len() ==> name[i] != '/',
        name.len() > 0,
        !crate::text::white_space(name[0]),
        !crate::text::white_space(name.last()),
    ensures
        title_of(directory.push('/') + name) == Some(name),
        title_of(name) == Some(name),
{
    law_the_leaf_stands_behind_the_slash(directory, name);
}

/// Each system is asked for its own decoder first.
pub proof fn law_each_system_has_its_own_decoder(platform: Platform)
    ensures
        preference_on(Platform::Apple).config().backend == DecoderBackend::VideoToolbox,
        preference_on(Platform::Windows).config().backend == DecoderBackend::D3d11va,
        preference_on(Platform::Android).config().backend == DecoderBackend::MediaCodec,
        preference_on(Platform::Android).config().mediacodec_surface,
        preference_on(Platform::OpenHarmony).config().backend == DecoderBackend::AvCodec,
        preference_on(Platform::Other).config().backend == DecoderBackend::Software,
        platform != Platform::Android ==> !preference_on(platform).config().mediacodec_surface,
        VideoDecodePreference::MediaCodecByteBuffer.config().backend == DecoderBackend::MediaCodec,
        !VideoDecodePreference::MediaCodecByteBuffer.config().mediacodec_surface,
{
}

/// A drain got somewhere when it brought a frame or came to the end.
pub proof fn law_a_drain_that_got_somewhere(status: DecoderDrainStatus)
    ensures
        status.frames > 0 ==> status.progressed(),
        status.end_of_stream ==> status.progressed(),
        status.frames == 0 && !status.end_of_stream ==> !status.progressed(),
{
}

/// A session decodes in software and puts out stereo at 48 kHz, unless told otherwise.
pub proof fn law_the_session_that_is_used_by_default()
    ensures
        default_session_config().video_decode == VideoDecodePreference::Software,
        default_session_config().audio_output.sample_rate == 48_000,
        default_session_config().audio_output.channels == 2,
        default_session_config().timing == crate::schedule::default_timing(),
{
}

/// The characters of a file are looked at where its extension names a text format, whatever stands
/// behind the path, and where it has none; a file of another kind is left alone.
pub proof fn law_text_subtitles_are_looked_at(
    directory: Seq<char>,
    stem: Seq<char>,
    query: Seq<char>,
)
    requires
        stem.len() > 0,
        forall|i: int|
            0 <= i < stem.len() ==> stem[i] != '?' && stem[i] != '#' && stem[i] != '/' && stem[i]
                != '.',
        forall|i: int| 0 <= i < directory.len() ==> directory[i] != '?' && directory[i] != '#',
    ensures
        inspected(directory.push('/') + stem),
        inspected(directory.push('/') + (stem.push('.') + "srt"@)),
        inspected((directory.push('/') + (stem.push('.') + "ass"@)).push('?') + query),
        !inspected(directory.push('/') + (stem.push('.') + "sup"@)),
{
    reveal_strlit("srt");
    reveal_strlit("vtt");
    reveal_strlit("ass");
    reveal_strlit("ssa");
    reveal_strlit("sup");
    let plain = directory.push('/') + stem;
    assert(forall|i: int| 0 <= i < plain.len() ==> plain[i] != '?' && plain[i] != '#');
    law_the_path_ends_at_the_query(plain, query, '?');
    law_the_leaf_stands_behind_the_slash(directory, stem);
    law_the_extension_stands_behind_the_dot(stem, stem);
    let srt = stem.push('.') + "srt"@;
    let srt_path = directory.push('/') + srt;
    assert(forall|i: int| 0 <= i < srt.len() ==> srt[i] != '/' && srt[i] != '?' && srt[i] != '#');
    assert(forall|i: int| 0 <= i < srt_path.len() ==> srt_path[i] != '?' && srt_path[i] != '#');
    law_the_path_ends_at_the_query(srt_path, query, '?');
    law_the_leaf_stands_behind_the_slash(directory, srt);
    law_the_extension_stands_behind_the_dot(stem, "srt"@);
    let ass = stem.push('.') + "ass"@;
    let ass_path = directory.push('/') + ass;
    assert(forall|i: int| 0 <= i < ass.len() ==> ass[i] != '/' && ass[i] != '?' && ass[i] != '#');
    assert(forall|i: int| 0 <= i < ass_path.len() ==> ass_path[i] != '?' && ass_path[i] != '#');
    law_the_path_ends_at_the_query(ass_path, query, '?');
    law_the_leaf_stands_behind_the_slash(directory, ass);
    law_the_extension_stands_behind_the_dot(stem, "ass"@);
    let sup = stem.push('.') + "sup"@;
    let sup_path = directory.push('/') + sup;
    assert(forall|i: int| 0 <= i < sup.len() ==> sup[i] != '/' && sup[i] != '?' && sup[i] != '#');
    assert(forall|i: int| 0 <= i < sup_path.len() ==> sup_path[i] != '?' && sup_path[i] != '#');
    law_the_path_ends_at_the_query(sup_path, query, '?');
    law_the_leaf_stands_behind_the_slash(directory, sup);
    law_the_extension_stands_behind_the_dot(stem, "sup"@);
    let extension = "sup"@;
    assert(crate::text::folded(extension[1]) != crate::text::folded("srt"@[1]));
    assert(crate::text::folded(extension[0]) != crate::text::folded("vtt"@[0]));
    assert(crate::text::folded(extension[0]) != crate::text::folded("ass"@[0]));
    assert(crate::text::folded(extension[1]) != crate::text::folded("ssa"@[1]));
}

} // verus!
