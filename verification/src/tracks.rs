//! Changing what plays: audio and subtitle tracks, and subtitle files beside the medium.
use std::collections::VecDeque;
use crate::decoder::{Decoder, DecoderBackend};
use crate::demuxer::{OwnedCodecParameters, SubtitleDecoder};
use crate::external::ExternalSubtitleSession;
use crate::media::{mark_selected_tracks, TrackInfo, TrackKind, TrackSelection};
use crate::opening::streams_to_read;
use crate::packet::StreamSelection;
use crate::pcm::PcmAudioFrame;
use crate::playback::{stream_index_i32, OpenedMediaInfo, PlaybackError};
use crate::session::{EofDrain, PlaybackSession};
use crate::subtitle::{
    clear_subtitle_frame, DecodedSubtitleFrame, SubtitleTrackConfig, SubtitleTrackSource,
};
use crate::text::copied_text;
use crate::time::{Duration, Instant};
use crate::video::codec_parameters_for;
use vstd::prelude::*;

verus! {

/// Whether a list holds a track of a kind under a number.
pub open spec fn lists_track(tracks: Seq<TrackInfo>, track_id: i64, kind: TrackKind) -> bool {
    exists|i: int|
        0 <= i < tracks.len() && (#[trigger] tracks[i]).id == track_id && tracks[i].kind == kind
}

/// The stream of a track.
pub open spec fn track_stream(tracks: Seq<TrackInfo>, track_id: i64, kind: TrackKind) -> Result<
    i32,
    PlaybackError,
> {
    if lists_track(tracks, track_id, kind) && i32::MIN <= track_id <= i32::MAX {
        Ok(track_id as i32)
    } else {
        Err(PlaybackError::TrackNotFound { kind, track_id })
    }
}

pub fn embedded_track_stream_index(tracks: &Vec<TrackInfo>, track_id: i64, kind: TrackKind) -> (r:
    Result<i32, PlaybackError>)
    ensures
        r == track_stream(tracks@, track_id, kind),
{
    let mut i: usize = 0;
    while i < tracks.len()
        invariant
            i <= tracks@.len(),
            forall|j: int|
                0 <= j < i ==> !((#[trigger] tracks@[j]).id == track_id && tracks@[j].kind == kind),
        decreases tracks@.len() - i,
    {
        if tracks[i].id == track_id && tracks[i].kind == kind {
            assert(lists_track(tracks@, track_id, kind));
            return stream_index_i32(track_id, kind, track_id);
        }
        i = i + 1;
    }
    Err(PlaybackError::TrackNotFound { kind, track_id })
}

/// Where a subtitle track comes from: the first that carries its number tells.
pub open spec fn source_of(tracks: Seq<SubtitleTrackConfig>, track_id: i64) -> Option<
    SubtitleTrackSource,
>
    decreases tracks.len(),
{
    if tracks.len() == 0 {
        None
    } else if tracks[0].id == track_id {
        Some(tracks[0].source)
    } else {
        source_of(tracks.drop_first(), track_id)
    }
}

pub fn subtitle_track_source(tracks: &Vec<SubtitleTrackConfig>, track_id: i64) -> (r: Result<
    SubtitleTrackSource,
    PlaybackError,
>)
    ensures
        r == (match source_of(tracks@, track_id) {
            Some(source) => Ok::<SubtitleTrackSource, PlaybackError>(source),
            None => Err(PlaybackError::TrackNotFound { kind: TrackKind::Subtitle, track_id }),
        }),
{
    let mut i: usize = 0;
    assert(tracks@.subrange(0, tracks@.len() as int) =~= tracks@);
    while i < tracks.len()
        invariant
            i <= tracks@.len(),
            source_of(tracks@, track_id) == source_of(
                tracks@.subrange(i as int, tracks@.len() as int),
                track_id,
            ),
        decreases tracks@.len() - i,
    {
        let ghost rest = tracks@.subrange(i as int, tracks@.len() as int);
        if tracks[i].id == track_id {
            return Ok(tracks[i].source.duplicate());
        }
        assert(rest.drop_first() =~= tracks@.subrange(i + 1, tracks@.len() as int));
        i = i + 1;
    }
    Err(PlaybackError::TrackNotFound { kind: TrackKind::Subtitle, track_id })
}

/// A list without the tracks of a number.
pub open spec fn tracks_without(tracks: Seq<TrackInfo>, track_id: i64) -> Seq<TrackInfo>
    decreases tracks.len(),
{
    if tracks.len() == 0 {
        tracks
    } else if tracks[0].id == track_id {
        tracks_without(tracks.drop_first(), track_id)
    } else {
        seq![tracks[0]] + tracks_without(tracks.drop_first(), track_id)
    }
}

fn remove_track(tracks: &mut Vec<TrackInfo>, track_id: i64)
    ensures
        final(tracks)@ == tracks_without(old(tracks)@, track_id),
{
    let mut kept: Vec<TrackInfo> = Vec::new();
    assert(kept@ + tracks_without(tracks@, track_id) =~= tracks_without(old(tracks)@, track_id));
    while tracks.len() > 0
        invariant
            kept@ + tracks_without(tracks@, track_id) == tracks_without(old(tracks)@, track_id),
        decreases tracks@.len(),
    {
        let ghost before = tracks@;
        let ghost had = kept@;
        let track = tracks.remove(0);
        assert(tracks@ =~= before.drop_first());
        if track.id != track_id {
            kept.push(track);
            assert(kept@ + tracks_without(tracks@, track_id) =~= had + (seq![before[0]]
                + tracks_without(before.drop_first(), track_id)));
        }
    }
    assert(kept@ =~= tracks_without(old(tracks)@, track_id));
    *tracks = kept;
}

/// A list without the subtitle tracks of a number.
pub open spec fn subtitles_without(tracks: Seq<SubtitleTrackConfig>, track_id: i64) -> Seq<
    SubtitleTrackConfig,
>
    decreases tracks.len(),
{
    if tracks.len() == 0 {
        tracks
    } else if tracks[0].id == track_id {
        subtitles_without(tracks.drop_first(), track_id)
    } else {
        seq![tracks[0]] + subtitles_without(tracks.drop_first(), track_id)
    }
}

fn remove_subtitle(tracks: &mut Vec<SubtitleTrackConfig>, track_id: i64)
    ensures
        final(tracks)@ == subtitles_without(old(tracks)@, track_id),
{
    let mut kept: Vec<SubtitleTrackConfig> = Vec::new();
    assert(kept@ + subtitles_without(tracks@, track_id) =~= subtitles_without(
        old(tracks)@,
        track_id,
    ));
    while tracks.len() > 0
        invariant
            kept@ + subtitles_without(tracks@, track_id) == subtitles_without(
                old(tracks)@,
                track_id,
            ),
        decreases tracks@.len(),
    {
        let ghost before = tracks@;
        let ghost had = kept@;
        let track = tracks.remove(0);
        assert(tracks@ =~= before.drop_first());
        if track.id != track_id {
            kept.push(track);
            assert(kept@ + subtitles_without(tracks@, track_id) =~= had + (seq![before[0]]
                + subtitles_without(before.drop_first(), track_id)));
        }
    }
    assert(kept@ =~= subtitles_without(old(tracks)@, track_id));
    *tracks = kept;
}

/// A queue without the subtitles of a track.
pub open spec fn frames_without(frames: Seq<DecodedSubtitleFrame>, track_id: i64) -> Seq<
    DecodedSubtitleFrame,
>
    decreases frames.len(),
{
    if frames.len() == 0 {
        frames
    } else if frames[0].track_id == track_id {
        frames_without(frames.drop_first(), track_id)
    } else {
        seq![frames[0]] + frames_without(frames.drop_first(), track_id)
    }
}

fn remove_frames(frames: &mut VecDeque<DecodedSubtitleFrame>, track_id: i64)
    ensures
        final(frames)@ == frames_without(old(frames)@, track_id),
{
    let mut kept: VecDeque<DecodedSubtitleFrame> = VecDeque::new();
    assert(kept@ + frames_without(frames@, track_id) =~= frames_without(old(frames)@, track_id));
    while frames.len() > 0
        invariant
            kept@ + frames_without(frames@, track_id) == frames_without(old(frames)@, track_id),
        decreases frames@.len(),
    {
        let ghost before = frames@;
        let ghost had = kept@;
        if let Some(frame) = frames.pop_front() {
            assert(frames@ =~= before.drop_first());
            if frame.track_id != track_id {
                kept.push_back(frame);
                assert(kept@ + frames_without(frames@, track_id) =~= had + (seq![before[0]]
                    + frames_without(before.drop_first(), track_id)));
            }
        }
    }
    assert(kept@ =~= frames_without(old(frames)@, track_id));
    *frames = kept;
}

/// What a choice of a subtitle track needs.
#[derive(Clone, Copy, Debug, PartialEq, Eq, Structural)]
pub enum SubtitleChoice {
    /// A decoder for a stream of the medium is to be opened.
    OpenDecoder { track_id: i64, stream_index: i32 },
    /// Nothing is to be opened.
    Ready(Option<i64>),
}

/// A list of tracks with its marks set anew.
pub open spec fn remarked(tracks: Seq<TrackInfo>, selection: TrackSelection) -> Seq<TrackInfo> {
    tracks.map_values(|track: TrackInfo| crate::media::marked(track, selection))
}

impl PlaybackSession {
    fn mark_tracks(&mut self)
        ensures
            final(self).demuxer == old(self).demuxer,
            final(self).codec_parameters == old(self).codec_parameters,
            final(self).video == old(self).video,
            final(self).audio == old(self).audio,
            final(self).subtitles == old(self).subtitles,
            final(self).queue_limits == old(self).queue_limits,
            final(self).drain == old(self).drain,
            final(self).info.tracks@ == remarked(old(self).info.tracks@, old(self).info.selection()),
            final(self).info == (OpenedMediaInfo {
                tracks: final(self).info.tracks,
                ..old(self).info
            }),
    {
        mark_selected_tracks(
            &mut self.info.tracks,
            self.info.selected_video_track,
            self.info.selected_audio_track,
            self.info.selected_subtitle_track,
        );
    }

    /// Whether `r` is what the demuxer is to read for the tracks that are selected: their streams and
    /// those of all subtitles, or every stream where there are none.
    pub open spec fn selects(self, r: Result<StreamSelection, PlaybackError>) -> bool {
        let video = self.info.selected_video_track;
        let audio = self.info.selected_audio_track;
        let video_stream = track_stream(self.info.tracks@, video->0, TrackKind::Video);
        let audio_stream = track_stream(self.info.tracks@, audio->0, TrackKind::Audio);
        let subtitles = self.info.subtitle_tracks@;
        let found = (video is Some ==> video_stream is Ok) && (audio is Some ==> audio_stream is Ok)
            && forall|i: int|
            0 <= i < subtitles.len() ==> !crate::opening::names_no_stream(#[trigger] subtitles[i]);
        &&& r is Ok <==> found
        &&& r is Err ==> r->Err_0 == (if video is Some && video_stream is Err {
            video_stream->Err_0
        } else if audio is Some && audio_stream is Err {
            audio_stream->Err_0
        } else {
            crate::opening::missing_subtitle(subtitles)
        })
        &&& r is Ok && r->Ok_0 is Only ==> forall|s: i32| #[trigger]
            r->Ok_0.passes(s) <==> ((video is Some && video_stream == Ok::<i32, PlaybackError>(s))
                || (audio is Some && audio_stream == Ok::<i32, PlaybackError>(s))
                || crate::opening::carries_subtitles(subtitles, s))
        &&& r is Ok ==> (r->Ok_0 is All <==> video is None && audio is None && forall|s: i32|
            !crate::opening::carries_subtitles(subtitles, s))
    }

    /// The streams that the demuxer is to read for the tracks that are selected; every stream where
    /// there is none.
    pub fn demux_selection(&self) -> (r: Result<StreamSelection, PlaybackError>)
        ensures
            self.selects(r),
    {
        let video: Option<i32> = match self.info.selected_video_track {
            Some(track_id) => match embedded_track_stream_index(
                &self.info.tracks,
                track_id,
                TrackKind::Video,
            ) {
                Ok(stream) => Some(stream),
                Err(error) => {
                    return Err(error);
                },
            },
            None => None,
        };
        let audio: Option<i32> = match self.info.selected_audio_track {
            Some(track_id) => match embedded_track_stream_index(
                &self.info.tracks,
                track_id,
                TrackKind::Audio,
            ) {
                Ok(stream) => Some(stream),
                Err(error) => {
                    return Err(error);
                },
            },
            None => None,
        };
        match streams_to_read(video, audio, &self.info.subtitle_tracks) {
            Err(error) => Err(error),
            Ok(streams) => {
                if streams.len() == 0 {
                    proof {
                        assert forall|s: i32|
                            !crate::opening::carries_subtitles(self.info.subtitle_tracks@, s) by {
                            assert(!streams@.contains(s));
                        }
                        if video is Some {
                            assert(streams@.contains(video->0));
                        }
                        if audio is Some {
                            assert(streams@.contains(audio->0));
                        }
                    }
                    return Ok(StreamSelection::all());
                }
                let ghost first = streams@[0];
                assert(streams@.contains(first));
                let selection = StreamSelection::only(streams);
                assert(selection.passes(first));
                Ok(selection)
            },
        }
    }

    /// Forgets how far the end of the medium had come.
    pub fn reset_eof_drain_state(&mut self)
        ensures
            final(self).demuxer == old(self).demuxer,
            final(self).codec_parameters == old(self).codec_parameters,
            final(self).video.route == (crate::video::VideoRoute {
                stall: crate::video::quiet_watch(),
                ..old(self).video.route
            }),
            final(self).video.unavailable_reason == old(self).video.unavailable_reason,
            final(self).video.events == old(self).video.events,
            final(self).video.frames == old(self).video.frames,
            final(self).video.pending == old(self).video.pending,
            final(self).audio == old(self).audio,
            final(self).subtitles == old(self).subtitles,
            final(self).info == old(self).info,
            final(self).queue_limits == old(self).queue_limits,
            final(self).drain == crate::session::undrained(),
    {
        self.drain = EofDrain {
            demux_eof: false,
            polls: 0,
            pending_logged: false,
            last_progress_at: None,
            eof: false,
        };
        self.video.reset_stall();
    }

    /// Whether the demuxer was told which streams to read for the tracks that are selected, `before`
    /// being the session before it. It may not take commands any more.
    pub open spec fn reselected(self, before: PlaybackSession, r: Result<(), PlaybackError>) -> bool {
        exists|choice: Result<StreamSelection, PlaybackError>|
            {
                &&& #[trigger] before.selects(choice)
                &&& choice is Err ==> self.demuxer == before.demuxer && r == Err::<
                    (),
                    PlaybackError,
                >(choice->Err_0)
                &&& choice is Ok ==> self.demuxer.chose(before.demuxer, choice->Ok_0) && (r is Ok
                    <==> self.demuxer.took_command()) && (r is Err
                    ==> crate::demux::command_channel_closed(r))
            }
    }

    /// Hands the demuxer the streams of the tracks that are selected. In a new generation the
    /// medium is read anew.
    pub fn update_demux_selection(&mut self) -> (r: Result<(), PlaybackError>)
        ensures
            final(self).codec_parameters == old(self).codec_parameters,
            final(self).audio == old(self).audio,
            final(self).subtitles == old(self).subtitles,
            final(self).info == old(self).info,
            final(self).queue_limits == old(self).queue_limits,
            final(self).video.unavailable_reason == old(self).video.unavailable_reason,
            final(self).video.events == old(self).video.events,
            final(self).video.frames == old(self).video.frames,
            final(self).video.pending == old(self).video.pending,
            final(self).reselected(*old(self), r),
            r is Ok ==> final(self).drain == crate::session::undrained() && final(self).video.route
                == (crate::video::VideoRoute {
                stall: crate::video::quiet_watch(),
                ..old(self).video.route
            }),
            r is Err ==> final(self).drain == old(self).drain && final(self).video
                == old(self).video,
    {
        let selection = match self.demux_selection() {
            Ok(selection) => selection,
            Err(error) => {
                return Err(error);
            },
        };
        if let Err(error) = self.demuxer.set_stream_selection(selection) {
            return Err(error);
        }
        self.reset_eof_drain_state();
        Ok(())
    }

    /// The parameters that a decoder for an audio track is opened with.
    pub fn audio_parameters(&self, track_id: i64) -> (r: Result<&OwnedCodecParameters, PlaybackError>)
        ensures
            ({
                let stream = track_stream(self.info.tracks@, track_id, TrackKind::Audio);
                match stream {
                    Err(error) => r == Err::<&OwnedCodecParameters, PlaybackError>(error),
                    Ok(stream_index) => match crate::video::parameters_of(
                        self.codec_parameters@,
                        stream_index,
                    ) {
                        Some(parameters) => r is Ok && *r->Ok_0 == parameters,
                        None => r == Err::<&OwnedCodecParameters, PlaybackError>(
                            PlaybackError::TrackNotFound {
                                kind: TrackKind::Video,
                                track_id: stream_index as i64,
                            },
                        ),
                    },
                }
            }),
    {
        match embedded_track_stream_index(&self.info.tracks, track_id, TrackKind::Audio) {
            Err(error) => Err(error),
            Ok(stream_index) => codec_parameters_for(&self.codec_parameters, stream_index),
        }
    }

    /// Takes up an audio track with its decoder, or none. What the old track had decoded is thrown
    /// away.
    pub fn apply_audio_track(&mut self, choice: Option<(i64, Decoder)>)
        ensures
            final(self).demuxer == old(self).demuxer,
            final(self).codec_parameters == old(self).codec_parameters,
            final(self).video == old(self).video,
            final(self).subtitles == old(self).subtitles,
            final(self).queue_limits == old(self).queue_limits,
            final(self).drain == old(self).drain,
            final(self).audio.frames@ == Seq::<PcmAudioFrame>::empty(),
            final(self).audio.route == (crate::audio::AudioRoute {
                decoder: match choice {
                    Some(choice) => Some(choice.1),
                    None => None,
                },
                resampler: None,
                ..old(self).audio.route
            }),
            final(self).info == (OpenedMediaInfo {
                selected_audio_track: match choice {
                    Some(choice) => Some(choice.0),
                    None => None,
                },
                audio_output: match choice {
                    Some(_) => Some(old(self).audio.route.output),
                    None => None,
                },
                ..old(self).info
            }),
    {
        match choice {
            Some((track_id, decoder)) => {
                self.audio.route.decoder = Some(decoder);
                self.info.selected_audio_track = Some(track_id);
                self.info.audio_output = Some(self.audio.route.output);
            },
            None => {
                self.audio.route.decoder = None;
                self.info.selected_audio_track = None;
                self.info.audio_output = None;
            },
        }
        self.audio.route.resampler = None;
        self.audio.frames.clear();
    }

    /// Chooses an audio track, whose decoder is open, or none: the medium is read anew, and the
    /// marks follow.
    pub fn select_audio_track(&mut self, choice: Option<(i64, Decoder)>) -> (r: Result<
        (),
        PlaybackError,
    >)
        ensures
            final(self).codec_parameters == old(self).codec_parameters,
            final(self).subtitles == old(self).subtitles,
            final(self).queue_limits == old(self).queue_limits,
            final(self).video.unavailable_reason == old(self).video.unavailable_reason,
            final(self).video.events == old(self).video.events,
            final(self).video.pending == old(self).video.pending,
            final(self).video.frames == old(self).video.frames,
            final(self).audio.frames@ == Seq::<PcmAudioFrame>::empty(),
            final(self).audio.route == (crate::audio::AudioRoute {
                decoder: match choice {
                    Some(choice) => Some(choice.1),
                    None => None,
                },
                resampler: None,
                ..old(self).audio.route
            }),
            final(self).info == (OpenedMediaInfo {
                selected_audio_track: match choice {
                    Some(choice) => Some(choice.0),
                    None => None,
                },
                audio_output: match choice {
                    Some(_) => Some(old(self).audio.route.output),
                    None => None,
                },
                tracks: final(self).info.tracks,
                ..old(self).info
            }),
            exists|chosen: PlaybackSession|
                {
                    &&& #[trigger] final(self).reselected(chosen, r)
                    &&& chosen.demuxer == old(self).demuxer
                    &&& chosen.info.tracks == old(self).info.tracks
                    &&& chosen.info.subtitle_tracks == old(self).info.subtitle_tracks
                    &&& chosen.info.selection() == final(self).info.selection()
                },
            r is Ok ==> {
                &&& final(self).drain == crate::session::undrained()
                &&& final(self).video.route == (crate::video::VideoRoute {
                    stall: crate::video::quiet_watch(),
                    ..old(self).video.route
                })
                &&& final(self).info.tracks@ == remarked(
                    old(self).info.tracks@,
                    final(self).info.selection(),
                )
            },
            r is Err ==> final(self).info.tracks == old(self).info.tracks && final(self).drain
                == old(self).drain && final(self).video == old(self).video,
    {
        self.apply_audio_track(choice);
        let ghost chosen = *self;
        let result = self.update_demux_selection();
        let ghost told = *self;
        if result.is_ok() {
            self.mark_tracks();
        }
        proof {
            let read = choose|read: Result<StreamSelection, PlaybackError>|
                {
                    &&& #[trigger] chosen.selects(read)
                    &&& read is Err ==> told.demuxer == chosen.demuxer && result == Err::<
                        (),
                        PlaybackError,
                    >(read->Err_0)
                    &&& read is Ok ==> told.demuxer.chose(chosen.demuxer, read->Ok_0) && (
                    result is Ok <==> told.demuxer.took_command()) && (result is Err ==> crate::demux::command_channel_closed(result))
                };
            assert(chosen.selects(read));
            assert(self.reselected(chosen, result));
        }
        result
    }

    /// What the choice of a subtitle track needs: a track of the medium a decoder, a file nothing.
    pub fn plan_subtitle_track(&self, track_id: Option<i64>) -> (r: Result<
        SubtitleChoice,
        PlaybackError,
    >)
        ensures
            track_id is None ==> r == Ok::<SubtitleChoice, PlaybackError>(
                SubtitleChoice::Ready(None),
            ),
            track_id is Some ==> match source_of(self.info.subtitle_tracks@, track_id->0) {
                None => r == Err::<SubtitleChoice, PlaybackError>(
                    PlaybackError::TrackNotFound {
                        kind: TrackKind::Subtitle,
                        track_id: track_id->0,
                    },
                ),
                Some(SubtitleTrackSource::External { .. }) => r == Ok::<
                    SubtitleChoice,
                    PlaybackError,
                >(SubtitleChoice::Ready(track_id)),
                Some(SubtitleTrackSource::Embedded { stream_index }) => if i32::MIN
                    <= stream_index <= i32::MAX {
                    r == Ok::<SubtitleChoice, PlaybackError>(
                        SubtitleChoice::OpenDecoder {
                            track_id: track_id->0,
                            stream_index: stream_index as i32,
                        },
                    )
                } else {
                    r == Err::<SubtitleChoice, PlaybackError>(
                        PlaybackError::TrackNotFound {
                            kind: TrackKind::Subtitle,
                            track_id: track_id->0,
                        },
                    )
                },
            },
    {
        match track_id {
            None => Ok(SubtitleChoice::Ready(None)),
            Some(track_id) => match subtitle_track_source(&self.info.subtitle_tracks, track_id) {
                Err(error) => Err(error),
                Ok(SubtitleTrackSource::External { .. }) => Ok(
                    SubtitleChoice::Ready(Some(track_id)),
                ),
                Ok(SubtitleTrackSource::Embedded { stream_index }) => match stream_index_i32(
                    stream_index,
                    TrackKind::Subtitle,
                    track_id,
                ) {
                    Err(error) => Err(error),
                    Ok(stream_index) => Ok(SubtitleChoice::OpenDecoder { track_id, stream_index }),
                },
            },
        }
    }

    /// Takes up a subtitle track, or none. The demuxer is let be: every subtitle stream is read in
    /// any case, so that audio and video go on without a gap.
    pub fn apply_subtitle_track(&mut self, track_id: Option<i64>, decoder: Option<SubtitleDecoder>)
        ensures
            final(self).demuxer == old(self).demuxer,
            final(self).codec_parameters == old(self).codec_parameters,
            final(self).video == old(self).video,
            final(self).audio == old(self).audio,
            final(self).queue_limits == old(self).queue_limits,
            final(self).drain == old(self).drain,
            final(self).subtitles.decoder == decoder,
            final(self).subtitles.fonts == old(self).subtitles.fonts,
            final(self).subtitles.external == old(self).subtitles.external,
            final(self).subtitles.frames@ == Seq::<DecodedSubtitleFrame>::empty(),
            final(self).info.tracks@ == remarked(
                old(self).info.tracks@,
                TrackSelection { subtitle: track_id, ..old(self).info.selection() },
            ),
            final(self).info == (OpenedMediaInfo {
                selected_subtitle_track: track_id,
                tracks: final(self).info.tracks,
                ..old(self).info
            }),
    {
        self.subtitles.decoder = decoder;
        self.info.selected_subtitle_track = track_id;
        self.subtitles.frames.clear();
        self.mark_tracks();
    }

    /// Chooses a subtitle track: what clears the old one from the screen.
    pub fn select_subtitle_track(
        &mut self,
        track_id: Option<i64>,
        decoder: Option<SubtitleDecoder>,
        media_time: Duration,
    ) -> (r: Option<DecodedSubtitleFrame>)
        ensures
            final(self).demuxer == old(self).demuxer,
            final(self).codec_parameters == old(self).codec_parameters,
            final(self).video == old(self).video,
            final(self).audio == old(self).audio,
            final(self).queue_limits == old(self).queue_limits,
            final(self).drain == old(self).drain,
            final(self).subtitles.decoder == decoder,
            final(self).subtitles.fonts == old(self).subtitles.fonts,
            final(self).subtitles.external == old(self).subtitles.external,
            final(self).subtitles.frames@ == Seq::<DecodedSubtitleFrame>::empty(),
            final(self).info.tracks@ == remarked(
                old(self).info.tracks@,
                TrackSelection { subtitle: track_id, ..old(self).info.selection() },
            ),
            final(self).info == (OpenedMediaInfo {
                selected_subtitle_track: track_id,
                tracks: final(self).info.tracks,
                ..old(self).info
            }),
            clears(r, old(self).info.selected_subtitle_track, media_time),
    {
        let previous = self.info.selected_subtitle_track;
        self.apply_subtitle_track(track_id, decoder);
        clear_subtitle_frame(previous, media_time)
    }

    /// Takes up a subtitle file and lists it; its track is chosen next.
    pub fn add_external_subtitle(&mut self, external: ExternalSubtitleSession) -> (r:
        SubtitleTrackConfig)
        ensures
            r == external.track,
            final(self).demuxer == old(self).demuxer,
            final(self).codec_parameters == old(self).codec_parameters,
            final(self).video == old(self).video,
            final(self).audio == old(self).audio,
            final(self).queue_limits == old(self).queue_limits,
            final(self).drain == old(self).drain,
            final(self).subtitles.decoder == old(self).subtitles.decoder,
            final(self).subtitles.fonts == old(self).subtitles.fonts,
            final(self).subtitles.frames == old(self).subtitles.frames,
            final(self).subtitles.external@ == old(self).subtitles.external@.push(external),
            final(self).info.subtitle_tracks@ == old(self).info.subtitle_tracks@.push(
                external.track,
            ),
            final(self).info.tracks@ == old(self).info.tracks@.push(listed_file(external.track)),
            final(self).info == (OpenedMediaInfo {
                tracks: final(self).info.tracks,
                subtitle_tracks: final(self).info.subtitle_tracks,
                ..old(self).info
            }),
    {
        let track = external.track.duplicate();
        let mut info = TrackInfo::external(track.id, TrackKind::Subtitle);
        info.title = copied_text(&track.title);
        info.language = copied_text(&track.language);
        info.selected = true;
        self.info.tracks.push(info);
        self.info.subtitle_tracks.push(track.duplicate());
        self.subtitles.external.push(external);
        track
    }

    /// Whether a subtitle track was removed: `before` is the session before it.
    pub open spec fn subtitle_removed(
        self,
        before: PlaybackSession,
        track_id: i64,
        media_time: Duration,
        r: Result<Option<DecodedSubtitleFrame>, PlaybackError>,
    ) -> bool {
        let is_file = exists|at: int| #[trigger]
            before.subtitles.file_of(track_id, at);
        let stays = exists|i: int|
            0 <= i < before.info.subtitle_tracks@.len() && (
            #[trigger] before.info.subtitle_tracks@[i]).id == track_id && before.info.subtitle_tracks@[i].source is Embedded;
        let was_selected = before.info.selected_subtitle_track == Some(track_id);
        &&& self.demuxer == before.demuxer
        &&& self.codec_parameters == before.codec_parameters
        &&& self.video == before.video
        &&& self.audio == before.audio
        &&& self.queue_limits == before.queue_limits
        &&& self.drain == before.drain
        &&& self.subtitles.decoder == before.subtitles.decoder
        &&& self.subtitles.fonts == before.subtitles.fonts
        &&& !is_file ==> self == before && r == (if stays {
            Err::<Option<DecodedSubtitleFrame>, PlaybackError>(
                PlaybackError::SubtitleTrackNotRemovable(track_id),
            )
        } else {
            Ok(None)
        })
        &&& is_file ==> {
            &&& r is Ok && clears(r->Ok_0, Some(track_id), media_time)
            &&& exists|at: int| #[trigger]
                before.subtitles.file_of(track_id, at) && self.subtitles.external@ == before.subtitles.external@.remove(at)
            &&& self.subtitles.frames@ == frames_without(
                before.subtitles.frames@,
                track_id,
            )
            &&& self.info.subtitle_tracks@ == subtitles_without(
                before.info.subtitle_tracks@,
                track_id,
            )
            &&& self.info.selected_subtitle_track == (if was_selected {
                None
            } else {
                before.info.selected_subtitle_track
            })
            &&& self.info.tracks@ == (if was_selected {
                remarked(
                    tracks_without(before.info.tracks@, track_id),
                    self.info.selection(),
                )
            } else {
                tracks_without(before.info.tracks@, track_id)
            })
            &&& self.info == (OpenedMediaInfo {
                tracks: self.info.tracks,
                subtitle_tracks: self.info.subtitle_tracks,
                selected_subtitle_track: self.info.selected_subtitle_track,
                ..before.info
            })
        }
    }

    /// Takes a subtitle file away: what clears it from the screen. A track of the medium stays, and
    /// a number that is not known changes nothing.
    pub fn remove_subtitle_track(&mut self, track_id: i64, media_time: Duration) -> (r: Result<
        Option<DecodedSubtitleFrame>,
        PlaybackError,
    >)
        ensures
            final(self).subtitle_removed(*old(self), track_id, media_time, r),
    {
        let was_selected = self.info.selected_subtitle_track == Some(track_id);
        let at: usize = match self.subtitles.find_external(track_id) {
            Some(at) => at,
            None => {
                let mut i: usize = 0;
                while i < self.info.subtitle_tracks.len()
                    invariant
                        *self == *old(self),
                        i <= self.info.subtitle_tracks@.len(),
                        forall|at: int| !self.subtitles.file_of(track_id, at),
                        forall|j: int|
                            0 <= j < i ==> !((#[trigger] self.info.subtitle_tracks@[j]).id
                                == track_id && self.info.subtitle_tracks@[j].source is Embedded),
                    decreases self.info.subtitle_tracks@.len() - i,
                {
                    if self.info.subtitle_tracks[i].id == track_id
                        && !self.info.subtitle_tracks[i].can_remove() {
                        return Err(PlaybackError::SubtitleTrackNotRemovable(track_id));
                    }
                    i = i + 1;
                }
                return Ok(None);
            },
        };
        assert(old(self).subtitles.file_of(track_id, at as int));
        let _ = self.subtitles.external.remove(at);
        remove_frames(&mut self.subtitles.frames, track_id);
        remove_track(&mut self.info.tracks, track_id);
        remove_subtitle(&mut self.info.subtitle_tracks, track_id);
        if was_selected {
            self.info.selected_subtitle_track = None;
            self.mark_tracks();
        }
        Ok(clear_subtitle_frame(Some(track_id), media_time))
    }

    /// Whether the next subtitle is looked for at all, and the file that is read on first.
    pub fn subtitle_source(&self) -> (r: Option<Option<usize>>)
        ensures
            ({
                let selected = self.info.selected_subtitle_track;
                let is_file = exists|at: int| #[trigger]
                    self.subtitles.file_of(selected->0, at);
                &&& r is Some <==> selected is Some && (self.subtitles.decoder is Some || is_file)
                &&& r is Some && r->0 is Some ==> self.subtitles.file_of(
                    selected->0,
                    r->0->0 as int,
                )
                &&& r is Some && r->0 is None ==> !is_file
            }),
    {
        match self.info.selected_subtitle_track {
            None => None,
            Some(track_id) => {
                let file = self.subtitles.find_external(track_id);
                if file.is_none() && self.subtitles.decoder.is_none() {
                    return None;
                }
                Some(file)
            },
        }
    }

    /// The codec of the video track that is selected.
    pub fn selected_video_codec(&self) -> (r: Option<String>)
        ensures
            r == (match self.info.selected_video_track {
                None => None,
                Some(track_id) => codec_listed(self.info.tracks@, track_id),
            }),
    {
        match self.info.selected_video_track {
            None => None,
            Some(track_id) => listed_codec(&self.info.tracks, track_id),
        }
    }

    /// Whether a decoder that was replaced has to start again from an earlier place.
    pub fn decoder_fallback_requires_replay(&self) -> (r: bool)
        ensures
            r == (self.drain.demux_eof || self.drain.eof || self.video.backend() == Some(
                DecoderBackend::VideoToolbox,
            ) || self.video.backend() == Some(DecoderBackend::AvCodec)),
    {
        if self.drain.demux_eof || self.drain.eof {
            return true;
        }
        match self.video.active_backend() {
            Some(DecoderBackend::VideoToolbox) => true,
            Some(DecoderBackend::AvCodec) => true,
            _ => false,
        }
    }

    /// Whether the watches on the decoders of a session start anew, and nothing else differs from
    /// `before`.
    pub open spec fn rebased(self, before: PlaybackSession, now: Instant) -> bool {
        &&& self.demuxer == before.demuxer
        &&& self.codec_parameters == before.codec_parameters
        &&& self.audio == before.audio
        &&& self.subtitles == before.subtitles
        &&& self.info == before.info
        &&& self.queue_limits == before.queue_limits
        &&& self.video.unavailable_reason == before.video.unavailable_reason
        &&& self.video.events == before.video.events
        &&& self.video.frames == before.video.frames
        &&& self.video.pending == before.video.pending
        &&& self.video.route == (crate::video::VideoRoute {
            stall: crate::video::StallWatch {
                started_at: match before.video.route.stall.started_at {
                    Some(_) => Some(now),
                    None => None,
                },
                ..before.video.route.stall
            },
            ..before.video.route
        })
        &&& self.drain == (EofDrain {
            last_progress_at: match before.drain.last_progress_at {
                Some(_) => Some(now),
                None => None,
            },
            ..before.drain
        })
    }

    /// Starts the watches on the decoders anew, where they run.
    pub fn rebase_decoder_progress_watchdogs(&mut self, now: Instant)
        ensures
            final(self).rebased(*old(self), now),
    {
        if self.video.route.stall.started_at.is_some() {
            self.video.route.stall.started_at = Some(now);
        }
        if self.drain.last_progress_at.is_some() {
            self.drain.last_progress_at = Some(now);
        }
    }
}

/// The codec of the first track that carries a number.
pub open spec fn codec_listed(tracks: Seq<TrackInfo>, track_id: i64) -> Option<String>
    decreases tracks.len(),
{
    if tracks.len() == 0 {
        None
    } else if tracks[0].id == track_id {
        tracks[0].codec
    } else {
        codec_listed(tracks.drop_first(), track_id)
    }
}

fn listed_codec(tracks: &Vec<TrackInfo>, track_id: i64) -> (r: Option<String>)
    ensures
        r == codec_listed(tracks@, track_id),
{
    let mut i: usize = 0;
    assert(tracks@.subrange(0, tracks@.len() as int) =~= tracks@);
    while i < tracks.len()
        invariant
            i <= tracks@.len(),
            codec_listed(tracks@, track_id) == codec_listed(
                tracks@.subrange(i as int, tracks@.len() as int),
                track_id,
            ),
        decreases tracks@.len() - i,
    {
        let ghost rest = tracks@.subrange(i as int, tracks@.len() as int);
        if tracks[i].id == track_id {
            return copied_text(&tracks[i].codec);
        }
        assert(rest.drop_first() =~= tracks@.subrange(i + 1, tracks@.len() as int));
        i = i + 1;
    }
    None
}

/// How a subtitle file is listed among the tracks.
pub open spec fn listed_file(track: SubtitleTrackConfig) -> TrackInfo {
    TrackInfo {
        title: track.title,
        language: track.language,
        selected: true,
        ..crate::media::bare_track(
            track.id,
            TrackKind::Subtitle,
            crate::media::TrackSource::External,
        )
    }
}

/// Whether `frame` clears a subtitle track from the screen.
pub open spec fn clears(
    frame: Option<DecodedSubtitleFrame>,
    track_id: Option<i64>,
    media_time: Duration,
) -> bool {
    match track_id {
        None => frame is None,
        Some(track_id) => frame is Some && crate::subtitle::DecodedSubtitleFrame::blank(
            frame->0,
            track_id,
            Some(media_time),
            None,
        ),
    }
}

/// Taking a file away that was added last leaves the lists as they were before, where its number
/// was new.
pub proof fn law_removing_undoes_adding(
    tracks: Seq<TrackInfo>,
    subtitles: Seq<SubtitleTrackConfig>,
    added: SubtitleTrackConfig,
)
    requires
        forall|i: int| 0 <= i < tracks.len() ==> (#[trigger] tracks[i]).id != added.id,
        forall|i: int| 0 <= i < subtitles.len() ==> (#[trigger] subtitles[i]).id != added.id,
    ensures
        tracks_without(tracks.push(listed_file(added)), added.id) == tracks,
        subtitles_without(subtitles.push(added), added.id) == subtitles,
    decreases tracks.len() + subtitles.len(),
{
    reveal_with_fuel(tracks_without, 2);
    reveal_with_fuel(subtitles_without, 2);
    if tracks.len() > 0 {
        let rest = tracks.drop_first();
        assert forall|i: int| 0 <= i < rest.len() implies (#[trigger] rest[i]).id != added.id by {
            assert(rest[i] == tracks[i + 1]);
        }
        law_removing_undoes_adding(rest, subtitles, added);
        let all = tracks.push(listed_file(added));
        assert(all.drop_first() =~= rest.push(listed_file(added)));
        assert(seq![tracks[0]] + rest =~= tracks);
    } else {
        let all = tracks.push(listed_file(added));
        assert(all.drop_first() =~= tracks);
    }
    if subtitles.len() > 0 {
        let rest = subtitles.drop_first();
        assert forall|i: int| 0 <= i < rest.len() implies (#[trigger] rest[i]).id != added.id by {
            assert(rest[i] == subtitles[i + 1]);
        }
        law_removing_undoes_adding(tracks, rest, added);
        let all = subtitles.push(added);
        assert(all.drop_first() =~= rest.push(added));
        assert(seq![subtitles[0]] + rest =~= subtitles);
    } else {
        let all = subtitles.push(added);
        assert(all.drop_first() =~= subtitles);
    }
}

/// How many tracks of other numbers stand in front of a place.
pub open spec fn others_before(tracks: Seq<TrackInfo>, track_id: i64, at: int) -> int
    decreases at,
{
    if at <= 0 {
        0
    } else {
        others_before(tracks, track_id, at - 1) + if tracks[at - 1].id == track_id {
            0int
        } else {
            1int
        }
    }
}

/// Counting from the second place on leaves out the first.
proof fn lemma_others_behind_the_first(tracks: Seq<TrackInfo>, track_id: i64, at: int)
    requires
        1 <= at <= tracks.len(),
    ensures
        others_before(tracks, track_id, at) == others_before(
            tracks.drop_first(),
            track_id,
            at - 1,
        ) + if tracks[0].id == track_id { 0int } else { 1int },
    decreases at,
{
    if at > 1 {
        lemma_others_behind_the_first(tracks, track_id, at - 1);
        assert(tracks.drop_first()[at - 2] == tracks[at - 1]);
    } else {
        reveal_with_fuel(others_before, 2);
    }
}

/// Taking the tracks of a number out of a list leaves none of them, and all others in their order:
/// each stands where as many others stand in front of it as before.
pub proof fn law_removing_keeps_the_others(tracks: Seq<TrackInfo>, track_id: i64)
    ensures
        forall|i: int|
            0 <= i < tracks_without(tracks, track_id).len() ==> (#[trigger] tracks_without(
                tracks,
                track_id,
            )[i]).id != track_id,
        tracks_without(tracks, track_id).len() == others_before(
            tracks,
            track_id,
            tracks.len() as int,
        ),
        forall|i: int|
            0 <= i < tracks.len() && (#[trigger] tracks[i]).id != track_id ==> 0 <= others_before(
                tracks,
                track_id,
                i,
            ) < tracks_without(tracks, track_id).len() && tracks_without(
                tracks,
                track_id,
            )[others_before(tracks, track_id, i)] == tracks[i],
    decreases tracks.len(),
{
    if tracks.len() > 0 {
        let rest = tracks.drop_first();
        let left = tracks_without(tracks, track_id);
        let tail = tracks_without(rest, track_id);
        law_removing_keeps_the_others(rest, track_id);
        lemma_others_behind_the_first(tracks, track_id, tracks.len() as int);
        let skip = if tracks[0].id == track_id { 0int } else { 1int };
        assert(left.len() == tail.len() + skip);
        assert forall|i: int| 0 <= i < left.len() implies (#[trigger] left[i]).id != track_id by {
            if i >= skip {
                assert(left[i] == tail[i - skip]);
            }
        }
        assert forall|i: int|
            0 <= i < tracks.len() && (#[trigger] tracks[i]).id != track_id implies 0
            <= others_before(tracks, track_id, i) < left.len() && left[others_before(
            tracks,
            track_id,
            i,
        )] == tracks[i] by {
            if i > 0 {
                lemma_others_behind_the_first(tracks, track_id, i);
                assert(rest[i - 1] == tracks[i]);
                let at = others_before(rest, track_id, i - 1);
                assert(left[at + skip] == tail[at]);
            }
        }
    }
}

/// Taking the subtitles of a track out of a queue, or of a list, leaves none of them and nothing new,
/// and keeps every other.
pub proof fn law_only_subtitles_of_the_track_leave(
    frames: Seq<DecodedSubtitleFrame>,
    subtitles: Seq<SubtitleTrackConfig>,
    track_id: i64,
)
    ensures
        forall|i: int|
            0 <= i < frames_without(frames, track_id).len() ==> (#[trigger] frames_without(
                frames,
                track_id,
            )[i]).track_id != track_id && frames.contains(frames_without(frames, track_id)[i]),
        forall|i: int|
            0 <= i < frames.len() && (#[trigger] frames[i]).track_id != track_id
                ==> frames_without(frames, track_id).contains(frames[i]),
        forall|i: int|
            0 <= i < subtitles_without(subtitles, track_id).len() ==> (#[trigger] subtitles_without(
                subtitles,
                track_id,
            )[i]).id != track_id && subtitles.contains(subtitles_without(subtitles, track_id)[i]),
        forall|i: int|
            0 <= i < subtitles.len() && (#[trigger] subtitles[i]).id != track_id
                ==> subtitles_without(subtitles, track_id).contains(subtitles[i]),
    decreases frames.len() + subtitles.len(),
{
    if frames.len() > 0 {
        let rest = frames.drop_first();
        let left = frames_without(frames, track_id);
        let tail = frames_without(rest, track_id);
        law_only_subtitles_of_the_track_leave(rest, subtitles, track_id);
        let skip = if frames[0].track_id == track_id { 0int } else { 1int };
        assert(left.len() == tail.len() + skip);
        assert forall|i: int| 0 <= i < left.len() implies (#[trigger] left[i]).track_id != track_id
            && frames.contains(left[i]) by {
            if i >= skip {
                assert(left[i] == tail[i - skip]);
                let at = choose|at: int| 0 <= at < rest.len() && rest[at] == tail[i - skip];
                assert(frames[at + 1] == left[i]);
            } else {
                assert(left[0] == frames[0]);
            }
        }
        assert forall|i: int|
            0 <= i < frames.len() && (#[trigger] frames[i]).track_id != track_id implies left.contains(
            frames[i],
        ) by {
            if i > 0 {
                assert(rest[i - 1] == frames[i]);
                let at = choose|at: int| 0 <= at < tail.len() && tail[at] == rest[i - 1];
                assert(left[at + skip] == frames[i]);
            } else {
                assert(left[0] == frames[0]);
            }
        }
    }
    if subtitles.len() > 0 {
        let rest = subtitles.drop_first();
        let left = subtitles_without(subtitles, track_id);
        let tail = subtitles_without(rest, track_id);
        law_only_subtitles_of_the_track_leave(frames, rest, track_id);
        let skip = if subtitles[0].id == track_id { 0int } else { 1int };
        assert(left.len() == tail.len() + skip);
        assert forall|i: int| 0 <= i < left.len() implies (#[trigger] left[i]).id != track_id
            && subtitles.contains(left[i]) by {
            if i >= skip {
                assert(left[i] == tail[i - skip]);
                let at = choose|at: int| 0 <= at < rest.len() && rest[at] == tail[i - skip];
                assert(subtitles[at + 1] == left[i]);
            } else {
                assert(left[0] == subtitles[0]);
            }
        }
        assert forall|i: int|
            0 <= i < subtitles.len() && (#[trigger] subtitles[i]).id != track_id implies left.contains(
            subtitles[i],
        ) by {
            if i > 0 {
                assert(rest[i - 1] == subtitles[i]);
                let at = choose|at: int| 0 <= at < tail.len() && tail[at] == rest[i - 1];
                assert(left[at + skip] == subtitles[i]);
            } else {
                assert(left[0] == subtitles[0]);
            }
        }
    }
}

/// Setting the marks anew keeps the tracks and their order, and marks of each kind the one that is
/// selected.
pub proof fn law_remarking_marks_the_selected(
    tracks: Seq<TrackInfo>,
    selection: TrackSelection,
    i: int,
)
    requires
        0 <= i < tracks.len(),
    ensures
        remarked(tracks, selection).len() == tracks.len(),
        remarked(tracks, selection)[i].id == tracks[i].id,
        remarked(tracks, selection)[i].kind == tracks[i].kind,
        remarked(tracks, selection)[i].selected <==> (match tracks[i].kind {
            TrackKind::Video => selection.video,
            TrackKind::Audio => selection.audio,
            TrackKind::Subtitle => selection.subtitle,
        }) == Some(tracks[i].id),
        (TrackInfo { selected: tracks[i].selected, ..remarked(tracks, selection)[i] }) == tracks[i],
{
}

/// The first track that carries a number tells where it comes from and what its codec is.
pub proof fn law_the_first_of_a_number_tells(
    subtitles: Seq<SubtitleTrackConfig>,
    tracks: Seq<TrackInfo>,
    track_id: i64,
    i: int,
)
    ensures
        0 <= i < subtitles.len() && subtitles[i].id == track_id && (forall|j: int|
            0 <= j < i ==> (#[trigger] subtitles[j]).id != track_id) ==> source_of(
            subtitles,
            track_id,
        ) == Some(subtitles[i].source),
        (forall|j: int| 0 <= j < subtitles.len() ==> (#[trigger] subtitles[j]).id != track_id)
            ==> source_of(subtitles, track_id) is None,
        0 <= i < tracks.len() && tracks[i].id == track_id && (forall|j: int|
            0 <= j < i ==> (#[trigger] tracks[j]).id != track_id) ==> codec_listed(tracks, track_id)
            == tracks[i].codec,
        (forall|j: int| 0 <= j < tracks.len() ==> (#[trigger] tracks[j]).id != track_id)
            ==> codec_listed(tracks, track_id) is None,
    decreases subtitles.len() + tracks.len(),
{
    if subtitles.len() > 0 {
        let rest = subtitles.drop_first();
        assert(forall|j: int| 0 <= j < rest.len() ==> #[trigger] rest[j] == subtitles[j + 1]);
        law_the_first_of_a_number_tells(rest, Seq::empty(), track_id, i - 1);
    }
    if tracks.len() > 0 {
        let rest = tracks.drop_first();
        assert(forall|j: int| 0 <= j < rest.len() ==> #[trigger] rest[j] == tracks[j + 1]);
        law_the_first_of_a_number_tells(Seq::empty(), rest, track_id, i - 1);
    }
}

/// A track's stream is the one that carries its number; a track of another kind has none.
pub proof fn law_a_track_is_its_stream(tracks: Seq<TrackInfo>, track_id: i64, kind: TrackKind)
    ensures
        track_stream(tracks, track_id, kind) is Ok ==> track_stream(tracks, track_id, kind)->Ok_0
            == track_id && (exists|i: int|
            0 <= i < tracks.len() && (#[trigger] tracks[i]).id == track_id && tracks[i].kind
                == kind),
        (forall|i: int|
            0 <= i < tracks.len() ==> (#[trigger] tracks[i]).id != track_id || tracks[i].kind
                != kind) ==> track_stream(tracks, track_id, kind) == Err::<i32, PlaybackError>(
            PlaybackError::TrackNotFound { kind, track_id },
        ),
        forall|i: int|
            0 <= i < tracks.len() && (#[trigger] tracks[i]).id == track_id && tracks[i].kind == kind
                && i32::MIN <= track_id <= i32::MAX ==> track_stream(tracks, track_id, kind) is Ok,
{
}

/// A subtitle file that is removed leaves no trace: neither it nor a subtitle of it is listed, queued
/// or selected any more, and nothing else of the session is touched. One that lies in the medium
/// itself is refused, and nothing changes.
pub proof fn law_a_removed_subtitle_leaves_no_trace(
    after: PlaybackSession,
    before: PlaybackSession,
    track_id: i64,
    media_time: Duration,
    r: Result<Option<DecodedSubtitleFrame>, PlaybackError>,
)
    requires
        after.subtitle_removed(before, track_id, media_time, r),
    ensures
        r is Err ==> after == before && r->Err_0 == PlaybackError::SubtitleTrackNotRemovable(
            track_id,
        ),
        after.video == before.video,
        after.audio == before.audio,
        after.demuxer == before.demuxer,
        r is Ok && r->Ok_0 is Some ==> {
            &&& forall|i: int|
                0 <= i < after.info.subtitle_tracks@.len() ==> (
                #[trigger] after.info.subtitle_tracks@[i]).id != track_id
            &&& forall|i: int|
                0 <= i < after.info.tracks@.len() ==> (#[trigger] after.info.tracks@[i]).id
                    != track_id
            &&& forall|i: int|
                0 <= i < after.subtitles.frames@.len() ==> (#[trigger] after.subtitles.frames@[i]).track_id
                    != track_id
            &&& after.info.selected_subtitle_track != Some(track_id)
            &&& before.info.selected_subtitle_track != Some(track_id)
                ==> after.info.selected_subtitle_track == before.info.selected_subtitle_track
            &&& after.info.selected_video_track == before.info.selected_video_track
            &&& after.info.selected_audio_track == before.info.selected_audio_track
            &&& after.subtitles.external@.len() + 1 == before.subtitles.external@.len()
        },
{
    if r is Ok && r->Ok_0 is Some {
        law_removing_keeps_the_others(before.info.tracks@, track_id);
        law_only_subtitles_of_the_track_leave(
            before.subtitles.frames@,
            before.info.subtitle_tracks@,
            track_id,
        );
        let left = tracks_without(before.info.tracks@, track_id);
        assert forall|i: int| 0 <= i < after.info.tracks@.len() implies (
        #[trigger] after.info.tracks@[i]).id != track_id by {
            assert(left[i].id != track_id);
        }
    }
}

/// What clears a track from the screen is of that track, at the time it is cleared, and empty.
pub proof fn law_clearing_shows_nothing(
    frame: Option<DecodedSubtitleFrame>,
    track_id: Option<i64>,
    media_time: Duration,
)
    requires
        clears(frame, track_id, media_time),
    ensures
        frame is Some <==> track_id is Some,
        frame is Some ==> frame->0.track_id == track_id->0 && frame->0.start == Some(media_time)
            && frame->0.end is None && frame->0.text@.len() == 0 && frame->0.bitmap.planes@.len() == 0
            && !frame->0.forced,
{
}

/// The demuxer reads the streams of the selected video and audio, where there are any, and a track
/// that is selected but not there is an error.
pub proof fn law_the_selected_streams_are_read(
    session: PlaybackSession,
    selection: StreamSelection,
    stream: i32,
)
    requires
        session.selects(Ok(selection)),
    ensures
        session.info.selected_video_track == Some(stream as i64) ==> selection.passes(stream),
        session.info.selected_audio_track == Some(stream as i64) ==> selection.passes(stream),
        session.info.selected_video_track is Some ==> selection is Only && lists_track(
            session.info.tracks@,
            session.info.selected_video_track->0,
            TrackKind::Video,
        ),
        session.info.selected_audio_track is Some ==> selection is Only && lists_track(
            session.info.tracks@,
            session.info.selected_audio_track->0,
            TrackKind::Audio,
        ),
        selection is Only && session.info.selected_video_track != Some(stream as i64)
            && session.info.selected_audio_track != Some(stream as i64)
            && !crate::opening::carries_subtitles(session.info.subtitle_tracks@, stream)
            ==> !selection.passes(stream),
{
}

/// Moving the watches of a session to another start of time touches nothing but watches that run.
pub proof fn law_rebasing_a_session_moves_its_watches_only(
    after: PlaybackSession,
    before: PlaybackSession,
    now: Instant,
)
    requires
        after.rebased(before, now),
    ensures
        after.demuxer == before.demuxer,
        after.audio == before.audio,
        after.subtitles == before.subtitles,
        after.info == before.info,
        after.video.frames == before.video.frames,
        after.video.pending == before.video.pending,
        after.video.route.decoder == before.video.route.decoder,
        after.video.route.stall.polls == before.video.route.stall.polls,
        after.drain.demux_eof == before.drain.demux_eof,
        after.drain.eof == before.drain.eof,
        before.drain.last_progress_at is Some ==> after.drain.last_progress_at == Some(now),
        before.drain.last_progress_at is None ==> after.drain.last_progress_at is None,
        before.video.route.stall.started_at is Some ==> after.video.route.stall.started_at == Some(
            now,
        ),
{
}

/// A subtitle file that was added is listed under its number, selected, and can be removed.
pub proof fn law_an_added_file_is_selected(track: SubtitleTrackConfig)
    ensures
        listed_file(track).id == track.id,
        listed_file(track).kind == TrackKind::Subtitle,
        listed_file(track).selected,
        listed_file(track).can_remove,
        listed_file(track).title == track.title,
        listed_file(track).language == track.language,
{
}

/// Where the selected tracks cannot be read the demuxer is told nothing; else it is told which streams
/// to read, once, in a new generation.
pub proof fn law_a_selection_is_passed_to_the_demuxer(
    after: PlaybackSession,
    before: PlaybackSession,
    r: Result<(), PlaybackError>,
)
    requires
        after.reselected(before, r),
        before.demuxer.generation < u64::MAX,
    ensures
        r is Ok ==> after.demuxer.generation == before.demuxer.generation + 1
            && !after.demuxer.active && after.demuxer.commands.given().len()
            == before.demuxer.commands.given().len() + 1 && after.demuxer.commands.given().last()
            is SetSelection && after.demuxer.commands.given().last()->SetSelection_generation
            == after.demuxer.generation && after.demuxer.commands.fate()
            == crate::channel::Fate::Taken,
        r is Err && r->Err_0 is TrackNotFound ==> after.demuxer == before.demuxer,
{
}

} // verus!
