//! Opening a medium: which tracks play, which streams are read, and the session that comes of it.
use std::collections::VecDeque;
use crate::audio::{AudioPath, AudioRoute};
use crate::decoder::{Decoder, DecoderBackend};
use crate::demux::AsyncDemuxer;
use crate::demuxer::{CodecParameters, Demuxer, OwnedCodecParameters, SubtitleDecoder};
use crate::error::FfmpegError;
use crate::external::{find_track, SubtitlePath};
use crate::ladder::OpenedVideo;
use crate::media::{
    mark_selected_tracks, MediaRequest, TrackInfo, TrackKind, TrackSelection, VideoParams,
};
use crate::packet::StreamSelection;
use crate::playback::{
    stream_index_i32, OpenedMediaInfo, PlaybackError, PlaybackQueueLimits, PlaybackSessionConfig,
};
use crate::probe::{MediaProbe, VideoProbe};
use crate::session::{EofDrain, PlaybackSession};
use crate::subtitle::{SubtitleTrackConfig, SubtitleTrackSource};
use crate::video::{StallWatch, VideoPath, VideoRoute};
use vstd::prelude::*;

verus! {

/// The tracks that a medium starts with: the first of each kind.
#[derive(Clone, Copy, Debug, PartialEq, Eq, Structural)]
pub struct StartTracks {
    pub video: Option<i32>,
    pub audio: Option<i32>,
    pub subtitle: Option<i32>,
}

/// The number of the first track of a kind.
pub open spec fn first_id(tracks: Seq<TrackInfo>, kind: TrackKind) -> Option<i64> {
    match crate::external::first_of_kind(tracks, kind) {
        Some(track) => Some(track.id),
        None => None,
    }
}

/// A number of a stream, as that of a track.
pub open spec fn as_track(stream: Option<i32>) -> Option<i64> {
    match stream {
        Some(stream) => Some(stream as i64),
        None => None,
    }
}

fn track_number(stream: Option<i32>) -> (r: Option<i64>)
    ensures
        r == as_track(stream),
{
    match stream {
        Some(stream) => Some(stream as i64),
        None => None,
    }
}

fn first_stream(demuxer: &Demuxer, kind: TrackKind) -> (r: Option<i32>)
    requires
        demuxer.well_formed(),
    ensures
        as_track(r) == first_id(demuxer.probe.tracks@, kind),
        r is Some ==> demuxer.knows(r->0),
{
    match find_track(&demuxer.probe.tracks, kind) {
        None => None,
        Some(at) => {
            proof {
                crate::demuxer::law_reported_tracks_are_known(*demuxer, at as int);
            }
            Some(demuxer.probe.tracks[at].id as i32)
        },
    }
}

impl StartTracks {
    pub fn of(demuxer: &Demuxer) -> (r: Self)
        requires
            demuxer.well_formed(),
        ensures
            as_track(r.video) == first_id(demuxer.probe.tracks@, TrackKind::Video),
            as_track(r.audio) == first_id(demuxer.probe.tracks@, TrackKind::Audio),
            as_track(r.subtitle) == first_id(demuxer.probe.tracks@, TrackKind::Subtitle),
    {
        StartTracks {
            video: first_stream(demuxer, TrackKind::Video),
            audio: first_stream(demuxer, TrackKind::Audio),
            subtitle: first_stream(demuxer, TrackKind::Subtitle),
        }
    }
}

/// The parameters of every track, in the order of the tracks.
pub fn track_parameters(demuxer: &Demuxer) -> (r: Result<Vec<CodecParameters>, FfmpegError>)
    requires
        demuxer.well_formed(),
    ensures
        r is Ok,
        r->Ok_0@.len() == demuxer.probe.tracks@.len(),
        forall|i: int|
            0 <= i < r->Ok_0@.len() ==> (#[trigger] r->Ok_0@[i]) == demuxer.parameters_at(
                demuxer.probe.tracks@[i].id as i32,
            ) && r->Ok_0@[i].stream_index == demuxer.probe.tracks@[i].id && r->Ok_0@[i].kind
                == Some(demuxer.probe.tracks@[i].kind) && r->Ok_0@[i].codec_name
                == demuxer.probe.tracks@[i].codec,
{
    let mut list: Vec<CodecParameters> = Vec::new();
    let mut i: usize = 0;
    while i < demuxer.probe.tracks.len()
        invariant
            demuxer.well_formed(),
            i <= demuxer.probe.tracks@.len(),
            list@.len() == i,
            forall|j: int|
                0 <= j < i ==> (#[trigger] list@[j]) == demuxer.parameters_at(
                    demuxer.probe.tracks@[j].id as i32,
                ) && list@[j].stream_index == demuxer.probe.tracks@[j].id
                    && list@[j].kind == Some(demuxer.probe.tracks@[j].kind) && list@[j].codec_name
                    == demuxer.probe.tracks@[j].codec,
        decreases demuxer.probe.tracks@.len() - i,
    {
        proof {
            crate::demuxer::lemma_tracks_have_parameters(*demuxer, i as int);
        }
        match demuxer.codec_parameters(demuxer.probe.tracks[i].id as i32) {
            Ok(parameters) => {
                list.push(parameters);
            },
            Err(error) => {
                return Err(error);
            },
        }
        i = i + 1;
    }
    Ok(list)
}

/// Whether a stream belongs to one of a run of subtitle tracks.
pub open spec fn carries_subtitles(tracks: Seq<SubtitleTrackConfig>, stream: i32) -> bool {
    exists|i: int|
        0 <= i < tracks.len() && (#[trigger] tracks[i]).source == (SubtitleTrackSource::Embedded {
            stream_index: stream as i64,
        })
}

/// Whether a subtitle track names a stream that there cannot be.
pub open spec fn names_no_stream(track: SubtitleTrackConfig) -> bool {
    track.source is Embedded && !(i32::MIN <= track.source->stream_index <= i32::MAX)
}

/// What is reported of the first subtitle track that names no stream.
pub open spec fn missing_subtitle(tracks: Seq<SubtitleTrackConfig>) -> PlaybackError
    decreases tracks.len(),
{
    if tracks.len() == 0 {
        PlaybackError::NoSubtitleTrack
    } else if names_no_stream(tracks[0]) {
        PlaybackError::TrackNotFound { kind: TrackKind::Subtitle, track_id: tracks[0].id }
    } else {
        missing_subtitle(tracks.drop_first())
    }
}

/// The streams that are read: those that play, and every subtitle stream of the medium, so that
/// another subtitle can be chosen without a gap.
pub fn streams_to_read(
    video: Option<i32>,
    audio: Option<i32>,
    subtitles: &Vec<SubtitleTrackConfig>,
) -> (r: Result<Vec<i32>, PlaybackError>)
    ensures
        r is Ok <==> forall|i: int|
            0 <= i < subtitles@.len() ==> !names_no_stream(#[trigger] subtitles@[i]),
        r is Ok ==> forall|s: i32| #[trigger]
            r->Ok_0@.contains(s) <==> (video == Some(s) || audio == Some(s) || carries_subtitles(
                subtitles@,
                s,
            )),
        r is Err ==> r->Err_0 == missing_subtitle(subtitles@),
{
    let mut streams: Vec<i32> = Vec::new();
    if let Some(stream) = video {
        streams.push(stream);
        assert(streams@[0] == stream);
    }
    let ghost first = streams@;
    if let Some(stream) = audio {
        streams.push(stream);
        assert(streams@ == first.push(stream));
        assert(streams@.last() == stream);
    }
    assert forall|s: i32| #[trigger] streams@.contains(s) <==> (video == Some(s) || audio == Some(
        s,
    )) by {
        if video == Some(s) {
            assert(streams@[0] == s);
        }
        if audio == Some(s) {
            assert(streams@[streams@.len() - 1] == s);
        }
    }
    let mut i: usize = 0;
    assert(subtitles@.subrange(0, subtitles@.len() as int) =~= subtitles@);
    while i < subtitles.len()
        invariant
            i <= subtitles@.len(),
            forall|j: int| 0 <= j < i ==> !names_no_stream(#[trigger] subtitles@[j]),
            missing_subtitle(subtitles@) == missing_subtitle(
                subtitles@.subrange(i as int, subtitles@.len() as int),
            ),
            forall|s: i32| #[trigger]
                streams@.contains(s) <==> (video == Some(s) || audio == Some(s)
                    || carries_subtitles(subtitles@.subrange(0, i as int), s)),
        decreases subtitles@.len() - i,
    {
        let ghost seen = subtitles@.subrange(0, i as int);
        let ghost more = subtitles@.subrange(0, i + 1);
        let ghost before = streams@;
        let ghost rest = subtitles@.subrange(i as int, subtitles@.len() as int);
        assert(rest.drop_first() =~= subtitles@.subrange(i + 1, subtitles@.len() as int));
        assert(more =~= seen.push(subtitles@[i as int]));
        if let SubtitleTrackSource::Embedded { stream_index } = &subtitles[i].source {
            match stream_index_i32(*stream_index, TrackKind::Subtitle, subtitles[i].id) {
                Ok(stream) => {
                    streams.push(stream);
                },
                Err(error) => {
                    assert(names_no_stream(subtitles@[i as int]));
                    return Err(error);
                },
            }
        }
        proof {
            assert forall|s: i32| #[trigger] streams@.contains(s) <==> (video == Some(s) || audio
                == Some(s) || carries_subtitles(more, s)) by {
                lemma_push_contains(before, streams@, s);
                if carries_subtitles(seen, s) {
                    let k = choose|k: int|
                        0 <= k < seen.len() && (#[trigger] seen[k]).source == (
                        SubtitleTrackSource::Embedded { stream_index: s as i64 });
                    assert(more[k].source == seen[k].source);
                }
                if carries_subtitles(more, s) && !carries_subtitles(seen, s) {
                    let k = choose|k: int|
                        0 <= k < more.len() && (#[trigger] more[k]).source == (
                        SubtitleTrackSource::Embedded { stream_index: s as i64 });
                    if k < i {
                        assert(seen[k].source == more[k].source);
                    }
                    assert(streams@.last() == s);
                    assert(streams@[streams@.len() - 1] == s);
                }
                if streams@.contains(s) && !before.contains(s) {
                    assert(more[i as int].source == (SubtitleTrackSource::Embedded {
                        stream_index: s as i64,
                    }));
                }
            }
        }
        i = i + 1;
    }
    assert(subtitles@.subrange(0, subtitles@.len() as int) =~= subtitles@);
    Ok(streams)
}

proof fn lemma_push_contains(before: Seq<i32>, after: Seq<i32>, s: i32)
    requires
        after == before || after == before.push(after.last()),
    ensures
        before.contains(s) ==> after.contains(s),
        after.contains(s) && !before.contains(s) ==> after.len() > 0 && after.last() == s && after
            == before.push(s),
{
    if before.contains(s) {
        let k = choose|k: int| 0 <= k < before.len() && before[k] == s;
        assert(after[k] == s);
    }
    if after.contains(s) && !before.contains(s) {
        let k = choose|k: int| 0 <= k < after.len() && after[k] == s;
        if k < before.len() {
            assert(before[k] == s);
        }
    }
}

/// The picture format of a track.
pub open spec fn params_of(video: Seq<VideoProbe>, track_id: i64) -> Option<VideoParams>
    decreases video.len(),
{
    if video.len() == 0 {
        None
    } else if video[0].track_id == track_id {
        Some(video[0].params)
    } else {
        params_of(video.drop_first(), track_id)
    }
}

fn find_params(video: &Vec<VideoProbe>, track_id: i64) -> (r: Option<VideoParams>)
    ensures
        r == params_of(video@, track_id),
{
    let mut i: usize = 0;
    assert(video@.subrange(0, video@.len() as int) =~= video@);
    while i < video.len()
        invariant
            i <= video@.len(),
            params_of(video@, track_id) == params_of(
                video@.subrange(i as int, video@.len() as int),
                track_id,
            ),
        decreases video@.len() - i,
    {
        let ghost rest = video@.subrange(i as int, video@.len() as int);
        if video[i].track_id == track_id {
            return Some(video[i].params);
        }
        assert(rest.drop_first() =~= video@.subrange(i + 1, video@.len() as int));
        i = i + 1;
    }
    None
}

/// What was opened for a session.
pub struct OpenedParts {
    pub codec_parameters: Vec<OwnedCodecParameters>,
    pub video: Option<OpenedVideo>,
    pub audio: Option<Decoder>,
    /// A subtitle decoder that would not open leaves the medium without subtitles at first.
    pub subtitle: Option<SubtitleDecoder>,
}

impl PlaybackSession {
    /// Puts a session together from an open medium and what was opened for its first tracks.
    pub fn assemble(
        request: &MediaRequest,
        config: PlaybackSessionConfig,
        probe: MediaProbe,
        tracks: StartTracks,
        parts: OpenedParts,
        demuxer: AsyncDemuxer,
    ) -> (r: Self)
        requires
            parts.subtitle is Some ==> tracks.subtitle is Some,
        ensures
            ({
                let video = as_track(tracks.video);
                let audio = as_track(tracks.audio);
                let subtitle = if parts.subtitle is Some {
                    as_track(tracks.subtitle)
                } else {
                    None
                };
                let selection = TrackSelection { video, audio, subtitle };
                let decoder = match parts.video {
                    Some(opened) => Some(opened.decoder),
                    None => None,
                };
                &&& r.demuxer == demuxer
                &&& r.codec_parameters == parts.codec_parameters
                &&& r.info.uri == probe.uri
                &&& r.info.duration == probe.duration
                &&& r.info.tracks@ == probe.tracks@.map_values(
                    |track: TrackInfo| crate::media::marked(track, selection),
                )
                &&& r.info.selection() == selection
                &&& r.info.video_params == (match video {
                    Some(track_id) => params_of(probe.video@, track_id),
                    None => None,
                })
                &&& r.info.subtitle_tracks == probe.subtitles
                &&& r.info.video_decode_backend == (match decoder {
                    Some(decoder) => Some(decoder.backend),
                    None => None,
                })
                &&& r.info.audio_output == (if parts.audio is Some {
                    Some(config.audio_output)
                } else {
                    None
                })
                &&& r.video.route == (VideoRoute {
                    decoder,
                    suspended: false,
                    waiting_for_keyframe: false,
                    surface_disabled: decoder is Some && decoder->0.backend
                        == DecoderBackend::MediaCodec && !decoder->0.on_surface(),
                    fallbacks: match parts.video {
                        Some(opened) => opened.fallbacks,
                        None => 0,
                    },
                    stall: crate::video::quiet_watch(),
                })
                &&& r.video.unavailable_reason is None
                &&& r.video.events@ == (match parts.video {
                    Some(opened) => seq![opened.event],
                    None => seq![],
                })
                &&& r.video.frames@.len() == 0
                &&& r.video.pending@.len() == 0
                &&& r.audio.route == (AudioRoute {
                    decoder: parts.audio,
                    resampler: None,
                    output: config.audio_output,
                    output_active: true,
                    waiting_for_valid_packet: false,
                    dropped_packets: 0,
                })
                &&& r.audio.frames@.len() == 0
                &&& r.subtitles.decoder == parts.subtitle
                &&& r.subtitles.fonts == probe.subtitle_fonts
                &&& r.subtitles.external@.len() == 0
                &&& r.subtitles.frames@.len() == 0
                &&& r.queue_limits == (if crate::media::streamed(*request) {
                    crate::playback::streaming_limits()
                } else {
                    crate::playback::local_limits()
                })
                &&& r.drain == crate::session::undrained()
            }),
    {
        let queue_limits = PlaybackQueueLimits::for_request(request);
        let MediaProbe {
            uri,
            duration,
            tracks: mut listed,
            video: video_probes,
            audio: _,
            subtitles,
            subtitle_fonts,
        } = probe;
        let selected_video_track = track_number(tracks.video);
        let selected_audio_track = track_number(tracks.audio);
        let selected_subtitle_track = if parts.subtitle.is_some() {
            track_number(tracks.subtitle)
        } else {
            None
        };
        let video_params = match selected_video_track {
            Some(track_id) => find_params(&video_probes, track_id),
            None => None,
        };
        mark_selected_tracks(
            &mut listed,
            selected_video_track,
            selected_audio_track,
            selected_subtitle_track,
        );
        let OpenedParts { codec_parameters, video, audio, subtitle } = parts;
        let mut events = VecDeque::new();
        let (decoder, fallbacks): (Option<Decoder>, u64) = match video {
            Some(opened) => {
                events.push_back(opened.event);
                (Some(opened.decoder), opened.fallbacks)
            },
            None => (None, 0),
        };
        let (video_decode_backend, surface_disabled) = match &decoder {
            Some(decoder) => (
                Some(decoder.backend()),
                decoder.backend() == DecoderBackend::MediaCodec
                    && !decoder.uses_mediacodec_surface(),
            ),
            None => (None, false),
        };
        let info = OpenedMediaInfo {
            uri,
            duration,
            tracks: listed,
            video_params,
            selected_video_track,
            selected_audio_track,
            selected_subtitle_track,
            subtitle_tracks: subtitles,
            video_decode_backend,
            audio_output: if audio.is_some() {
                Some(config.audio_output)
            } else {
                None
            },
        };
        PlaybackSession {
            demuxer,
            codec_parameters,
            video: VideoPath {
                route: VideoRoute {
                    decoder,
                    suspended: false,
                    waiting_for_keyframe: false,
                    surface_disabled,
                    fallbacks,
                    stall: StallWatch { polls: 0, logged: false, started_at: None },
                },
                unavailable_reason: None,
                events,
                frames: VecDeque::new(),
                pending: VecDeque::new(),
            },
            audio: AudioPath {
                route: AudioRoute {
                    decoder: audio,
                    resampler: None,
                    output: config.audio_output,
                    output_active: true,
                    waiting_for_valid_packet: false,
                    dropped_packets: 0,
                },
                frames: VecDeque::new(),
            },
            subtitles: SubtitlePath {
                decoder: subtitle,
                fonts: subtitle_fonts,
                external: Vec::new(),
                frames: VecDeque::new(),
            },
            info,
            queue_limits,
            drain: EofDrain {
                demux_eof: false,
                polls: 0,
                pending_logged: false,
                last_progress_at: None,
                eof: false,
            },
        }
    }
}

/// Whether a stream is read when a medium starts with some tracks.
pub open spec fn is_read(
    tracks: StartTracks,
    subtitles: Seq<SubtitleTrackConfig>,
    stream: i32,
) -> bool {
    tracks.video == Some(stream) || tracks.audio == Some(stream) || carries_subtitles(
        subtitles,
        stream,
    )
}

/// Hands a freshly opened demuxer the streams that are to be read; without any track every stream
/// passes.
pub fn select_start_streams(demuxer: &mut Demuxer, tracks: StartTracks) -> (r: Result<
    (),
    PlaybackError,
>)
    requires
        old(demuxer).well_formed(),
    ensures
        final(demuxer).probe == old(demuxer).probe,
        final(demuxer).slots == old(demuxer).slots,
        final(demuxer).stream_time_bases == old(demuxer).stream_time_bases,
        final(demuxer).timeline_origin_micros == old(demuxer).timeline_origin_micros,
        ({
            let subtitles = old(demuxer).probe.subtitles@;
            let named = forall|i: int|
                0 <= i < subtitles.len() ==> !names_no_stream(#[trigger] subtitles[i]);
            let known = forall|s: i32| #[trigger]
                is_read(tracks, subtitles, s) ==> old(demuxer).knows(s);
            &&& r is Ok <==> named && known
            &&& r is Err ==> final(demuxer).selection == old(demuxer).selection
            &&& r is Err && !named ==> r->Err_0 == missing_subtitle(subtitles)
            &&& r is Err && named ==> r->Err_0 is Ffmpeg && r->Err_0->Ffmpeg_0 is UnknownStream
                && is_read(tracks, subtitles, r->Err_0->Ffmpeg_0->UnknownStream_0)
                && !old(demuxer).knows(r->Err_0->Ffmpeg_0->UnknownStream_0)
        }),
        r is Ok ==> {
            let none = tracks.video is None && tracks.audio is None && forall|s: i32|
                !carries_subtitles(old(demuxer).probe.subtitles@, s);
            &&& none ==> final(demuxer).selection == old(demuxer).selection
            &&& !none ==> forall|s: i32| #[trigger]
                final(demuxer).selection.passes(s) <==> (tracks.video == Some(s) || tracks.audio
                    == Some(s) || carries_subtitles(old(demuxer).probe.subtitles@, s))
        },
{
    let streams = match streams_to_read(tracks.video, tracks.audio, &demuxer.probe.subtitles) {
        Ok(streams) => streams,
        Err(error) => {
            return Err(error);
        },
    };
    if streams.len() == 0 {
        proof {
            assert forall|s: i32| !carries_subtitles(demuxer.probe.subtitles@, s) by {
                assert(!streams@.contains(s));
            }
            if tracks.video is Some {
                assert(streams@.contains(tracks.video->0));
            }
            if tracks.audio is Some {
                assert(streams@.contains(tracks.audio->0));
            }
            assert forall|s: i32| #[trigger]
                is_read(tracks, demuxer.probe.subtitles@, s) implies demuxer.knows(s) by {
                assert(streams@.contains(s));
            }
        }
        return Ok(());
    }
    assert(streams@.contains(streams@[0]));
    let selection = StreamSelection::only(streams);
    assert forall|s: i32| #[trigger]
        is_read(tracks, demuxer.probe.subtitles@, s) <==> selection.passes(s) by {
        assert(streams@.contains(s) <==> selection.passes(s));
    }
    match demuxer.set_stream_selection(selection) {
        Ok(()) => {
            assert forall|s: i32| #[trigger]
                is_read(tracks, old(demuxer).probe.subtitles@, s) implies old(demuxer).knows(
                s,
            ) by {
                assert(selection.passes(s));
            }
            Ok(())
        },
        Err(error) => {
            assert(is_read(
                tracks,
                old(demuxer).probe.subtitles@,
                error->UnknownStream_0,
            ));
            Err(PlaybackError::Ffmpeg(error))
        },
    }
}

/// A medium starts with the first track of each kind.
pub proof fn law_the_first_track_is_selected(tracks: Seq<TrackInfo>, kind: TrackKind, i: int)
    ensures
        0 <= i < tracks.len() && tracks[i].kind == kind && (forall|j: int|
            0 <= j < i ==> (#[trigger] tracks[j]).kind != kind) ==> first_id(tracks, kind) == Some(
            tracks[i].id,
        ),
        (forall|j: int| 0 <= j < tracks.len() ==> (#[trigger] tracks[j]).kind != kind) ==> first_id(
            tracks,
            kind,
        ) is None,
{
    crate::external::law_the_first_of_a_kind(tracks, Seq::empty(), kind, i);
}

/// The streams that are read are those of the video and the audio that start, and of every subtitle
/// that lies in the medium.
pub proof fn law_what_is_read(
    tracks: StartTracks,
    subtitles: Seq<SubtitleTrackConfig>,
    stream: i32,
    i: int,
)
    ensures
        tracks.video == Some(stream) ==> is_read(tracks, subtitles, stream),
        tracks.audio == Some(stream) ==> is_read(tracks, subtitles, stream),
        0 <= i < subtitles.len() && subtitles[i].source is Embedded
            && subtitles[i].source->stream_index == stream ==> is_read(tracks, subtitles, stream),
        tracks.video != Some(stream) && tracks.audio != Some(stream) && (forall|j: int|
            0 <= j < subtitles.len() ==> (#[trigger] subtitles[j]).source !is Embedded
                || subtitles[j].source->stream_index != stream) ==> !is_read(
            tracks,
            subtitles,
            stream,
        ),
{
}

/// The picture format of a track is the first that is listed under its number.
pub proof fn law_the_first_picture_format_counts(video: Seq<VideoProbe>, track_id: i64, i: int)
    ensures
        0 <= i < video.len() && video[i].track_id == track_id && (forall|j: int|
            0 <= j < i ==> (#[trigger] video[j]).track_id != track_id) ==> params_of(
            video,
            track_id,
        ) == Some(video[i].params),
        (forall|j: int| 0 <= j < video.len() ==> (#[trigger] video[j]).track_id != track_id)
            ==> params_of(video, track_id) is None,
    decreases video.len(),
{
    if video.len() > 0 {
        let rest = video.drop_first();
        assert(forall|j: int| 0 <= j < rest.len() ==> #[trigger] rest[j] == video[j + 1]);
        law_the_first_picture_format_counts(rest, track_id, i - 1);
    }
}

/// The first subtitle track whose stream there cannot be is the one that is reported.
pub proof fn law_the_first_missing_subtitle_is_reported(tracks: Seq<SubtitleTrackConfig>, i: int)
    requires
        0 <= i < tracks.len(),
        tracks[i].source is Embedded,
        tracks[i].source->stream_index < i32::MIN || tracks[i].source->stream_index > i32::MAX,
        forall|j: int|
            0 <= j < i ==> (#[trigger] tracks[j]).source !is Embedded || i32::MIN
                <= tracks[j].source->stream_index <= i32::MAX,
    ensures
        missing_subtitle(tracks) == (PlaybackError::TrackNotFound {
            kind: TrackKind::Subtitle,
            track_id: tracks[i].id,
        }),
    decreases tracks.len(),
{
    if i > 0 {
        let rest = tracks.drop_first();
        assert(forall|j: int| 0 <= j < rest.len() ==> #[trigger] rest[j] == tracks[j + 1]);
        assert(!names_no_stream(tracks[0]));
        law_the_first_missing_subtitle_is_reported(rest, i - 1);
    }
}

/// The number of a track is that of its stream.
pub proof fn law_a_stream_keeps_its_number(stream: Option<i32>)
    ensures
        as_track(stream) is Some <==> stream is Some,
        stream is Some ==> as_track(stream)->0 == stream->0,
{
}

} // verus!
