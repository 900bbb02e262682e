//! Subtitles on their way to the presenter: those of the medium and those of other files.
use std::collections::VecDeque;
use crate::demuxer::{Demuxer, SubtitleDecoder};
use crate::media::{TrackInfo, TrackKind};
use crate::packet::StreamSelection;
use crate::playback::{
    external_subtitle_title, PlaybackError, EXTERNAL_SUBTITLE_LOOKAHEAD_NANOS,
    SUBTITLE_FRAME_QUEUE_LIMIT,
};
use crate::subtitle::{
    decoded_subtitle_start, select_ready_subtitle, DecodedSubtitleFrame, SubtitleFontAttachment,
    SubtitleQueueCandidate, SubtitleTrackConfig, SubtitleTrackSource,
};
use crate::text::copied_text;
use crate::time::Duration;
use vstd::prelude::*;

verus! {

/// A subtitle file beside the medium.
pub struct ExternalSubtitleSession {
    pub demuxer: Demuxer,
    pub decoder: SubtitleDecoder,
    pub track: SubtitleTrackConfig,
    pub frames: VecDeque<DecodedSubtitleFrame>,
    pub eof: bool,
}

/// What reading a subtitle file brings.
#[derive(Debug)]
pub enum ExternalRead {
    Frame(DecodedSubtitleFrame),
    /// A packet that holds no subtitle of its own.
    Nothing,
    End,
}

/// The address of a subtitle file; a track of the medium is none.
pub fn external_subtitle_uri(config: &SubtitleTrackConfig) -> (r: Result<String, PlaybackError>)
    ensures
        r == (match config.source {
            SubtitleTrackSource::External { uri } => Ok::<String, PlaybackError>(uri),
            SubtitleTrackSource::Embedded { stream_index } => Err(
                PlaybackError::SubtitleTrackNotRemovable(stream_index),
            ),
        }),
{
    match &config.source {
        SubtitleTrackSource::External { uri } => Ok(uri.clone()),
        SubtitleTrackSource::Embedded { stream_index } => Err(
            PlaybackError::SubtitleTrackNotRemovable(*stream_index),
        ),
    }
}

/// The first track of a kind.
pub open spec fn first_of_kind(tracks: Seq<TrackInfo>, kind: TrackKind) -> Option<TrackInfo>
    decreases tracks.len(),
{
    if tracks.len() == 0 {
        None
    } else if tracks[0].kind == kind {
        Some(tracks[0])
    } else {
        first_of_kind(tracks.drop_first(), kind)
    }
}

/// The first track of a kind.
pub fn find_track(tracks: &Vec<TrackInfo>, kind: TrackKind) -> (r: Option<usize>)
    ensures
        r is Some <==> first_of_kind(tracks@, kind) is Some,
        r is Some ==> r->0 < tracks@.len() && tracks@[r->0 as int] == first_of_kind(
            tracks@,
            kind,
        )->0,
{
    let mut i: usize = 0;
    assert(tracks@.subrange(0, tracks@.len() as int) =~= tracks@);
    while i < tracks.len()
        invariant
            i <= tracks@.len(),
            first_of_kind(tracks@, kind) == first_of_kind(
                tracks@.subrange(i as int, tracks@.len() as int),
                kind,
            ),
        decreases tracks@.len() - i,
    {
        let ghost rest = tracks@.subrange(i as int, tracks@.len() as int);
        if tracks[i].kind == kind {
            return Some(i);
        }
        assert(rest.drop_first() =~= tracks@.subrange(i + 1, tracks@.len() as int));
        i = i + 1;
    }
    None
}

/// The stream of a subtitle file: its first subtitle track.
pub fn external_subtitle_stream(demuxer: &Demuxer) -> (r: Result<i32, PlaybackError>)
    requires
        demuxer.well_formed(),
    ensures
        r is Ok <==> first_of_kind(demuxer.probe.tracks@, TrackKind::Subtitle) is Some,
        r is Ok ==> r->Ok_0 == first_of_kind(demuxer.probe.tracks@, TrackKind::Subtitle)->0.id,
        r is Ok ==> demuxer.knows(r->Ok_0),
        r is Err ==> r->Err_0 is NoSubtitleTrack,
{
    match find_track(&demuxer.probe.tracks, TrackKind::Subtitle) {
        None => Err(PlaybackError::NoSubtitleTrack),
        Some(at) => {
            proof {
                crate::demuxer::law_reported_tracks_are_known(*demuxer, at as int);
            }
            Ok(demuxer.probe.tracks[at].id as i32)
        },
    }
}

/// The first subtitle track of a file that stands in the file itself.
pub open spec fn first_embedded(tracks: Seq<SubtitleTrackConfig>) -> Option<SubtitleTrackConfig>
    decreases tracks.len(),
{
    if tracks.len() == 0 {
        None
    } else if tracks[0].source is Embedded {
        Some(tracks[0])
    } else {
        first_embedded(tracks.drop_first())
    }
}

fn find_embedded(tracks: &Vec<SubtitleTrackConfig>) -> (r: Option<usize>)
    ensures
        r is Some <==> first_embedded(tracks@) is Some,
        r is Some ==> r->0 < tracks@.len() && tracks@[r->0 as int] == first_embedded(tracks@)->0,
{
    let mut i: usize = 0;
    assert(tracks@.subrange(0, tracks@.len() as int) =~= tracks@);
    while i < tracks.len()
        invariant
            i <= tracks@.len(),
            first_embedded(tracks@) == first_embedded(
                tracks@.subrange(i as int, tracks@.len() as int),
            ),
        decreases tracks@.len() - i,
    {
        let ghost rest = tracks@.subrange(i as int, tracks@.len() as int);
        if tracks[i].source.is_embedded() {
            return Some(i);
        }
        assert(rest.drop_first() =~= tracks@.subrange(i + 1, tracks@.len() as int));
        i = i + 1;
    }
    None
}

/// Whether `track` is a configured track, filled up: where language and title are not given, the
/// file's own stand in, and for the title its address.
pub open spec fn filled_up(
    track: SubtitleTrackConfig,
    config: SubtitleTrackConfig,
    probed: Seq<SubtitleTrackConfig>,
    uri: Seq<char>,
) -> bool {
    let own = first_embedded(probed);
    let title = if config.title is Some {
        config.title
    } else if own is Some {
        own->0.title
    } else {
        None
    };
    &&& track.id == config.id
    &&& track.source == config.source
    &&& track.language == (if config.language is Some {
        config.language
    } else if own is Some {
        own->0.language
    } else {
        None
    })
    &&& title is Some ==> track.title == title
    &&& title is None ==> match crate::playback::title_of(uri) {
        Some(text) => track.title is Some && track.title->0@ == text,
        None => track.title is None,
    }
}

/// The text, or another where there is none.
fn text_or(text: Option<String>, other: &Option<String>) -> (r: Option<String>)
    ensures
        r == (if text is Some {
            text
        } else {
            *other
        }),
{
    match text {
        Some(text) => Some(text),
        None => copied_text(other),
    }
}

impl ExternalSubtitleSession {
    /// Takes over an open subtitle file: of its streams, the first subtitle track passes.
    pub fn open(
        config: SubtitleTrackConfig,
        uri: &str,
        demuxer: Demuxer,
        decoder: SubtitleDecoder,
    ) -> (r: Result<Self, PlaybackError>)
        requires
            demuxer.well_formed(),
        ensures
            r is Ok <==> first_of_kind(demuxer.probe.tracks@, TrackKind::Subtitle) is Some,
            r is Err ==> r->Err_0 is NoSubtitleTrack,
            r is Ok ==> {
                let session = r->Ok_0;
                let stream = first_of_kind(demuxer.probe.tracks@, TrackKind::Subtitle)->0.id as i32;
                &&& filled_up(session.track, config, demuxer.probe.subtitles@, uri@)
                &&& session.decoder == decoder
                &&& session.demuxer == (Demuxer {
                    selection: session.demuxer.selection,
                    ..demuxer
                })
                &&& forall|s: i32| #[trigger] session.demuxer.selection.passes(s) <==> s == stream
                &&& session.frames@ == Seq::<DecodedSubtitleFrame>::empty()
                &&& !session.eof
            },
    {
        let stream_index: i32 = match external_subtitle_stream(&demuxer) {
            Ok(stream_index) => stream_index,
            Err(error) => {
                return Err(error);
            },
        };
        let mut wanted: Vec<i32> = Vec::new();
        wanted.push(stream_index);
        let selection = StreamSelection::only(wanted);
        assert forall|s: i32| #[trigger] selection.passes(s) <==> s == stream_index by {
            if s == stream_index {
                assert(wanted@[0] == s);
            }
        }
        let mut demuxer = demuxer;
        let ghost probe = demuxer.probe;
        if let Err(error) = demuxer.set_stream_selection(selection) {
            return Err(PlaybackError::Ffmpeg(error));
        }
        let mut config = config;
        let ghost given = config;
        if let Some(at) = find_embedded(&demuxer.probe.subtitles) {
            let SubtitleTrackConfig { id, language, title, source } = config;
            config = SubtitleTrackConfig {
                id,
                language: text_or(language, &demuxer.probe.subtitles[at].language),
                title: text_or(title, &demuxer.probe.subtitles[at].title),
                source,
            };
        }
        if config.title.is_none() {
            config.title = external_subtitle_title(uri);
        }
        Ok(
            ExternalSubtitleSession {
                demuxer,
                decoder,
                track: config,
                frames: VecDeque::new(),
                eof: false,
            },
        )
    }

    pub fn track(&self) -> (r: &SubtitleTrackConfig)
        ensures
            *r == self.track,
    {
        &self.track
    }

    /// Whether the file is read on: up to some seconds ahead, and no more than a fixed number of
    /// subtitles.
    pub open spec fn reads_on(self, media_time: Duration) -> bool {
        let ahead = media_time.sum(Duration { nanos: EXTERNAL_SUBTITLE_LOOKAHEAD_NANOS });
        &&& self.frames@.len() < SUBTITLE_FRAME_QUEUE_LIMIT
        &&& !self.eof
        &&& !(self.frames@.len() > 0 && self.frames@.last().start is Some
            && self.frames@.last().start->0.nanos > ahead.nanos)
    }

    pub fn wants_more(&self, media_time: Duration) -> (r: bool)
        ensures
            r == self.reads_on(media_time),
    {
        let ahead = media_time.saturating_add(
            Duration { nanos: EXTERNAL_SUBTITLE_LOOKAHEAD_NANOS },
        );
        let queued: usize = self.frames.len();
        if queued >= SUBTITLE_FRAME_QUEUE_LIMIT || self.eof {
            return false;
        }
        if queued > 0 {
            if let Some(start) = self.frames[queued - 1].start {
                if start.nanos > ahead.nanos {
                    return false;
                }
            }
        }
        true
    }

    /// Takes what reading on brought: a subtitle goes under the number of the file's track.
    pub fn take_read(&mut self, read: ExternalRead)
        ensures
            final(self).track == old(self).track,
            final(self).demuxer == old(self).demuxer,
            final(self).decoder == old(self).decoder,
            final(self).eof == (old(self).eof || read is End),
            final(self).frames@ == (match read {
                ExternalRead::Frame(frame) => old(self).frames@.push(
                    DecodedSubtitleFrame { track_id: old(self).track.id, ..frame },
                ),
                _ => old(self).frames@,
            }),
    {
        match read {
            ExternalRead::Frame(frame) => {
                self.frames.push_back(frame.with_track_id(self.track.id));
            },
            ExternalRead::Nothing => {},
            ExternalRead::End => {
                self.eof = true;
            },
        }
    }

    /// When the next subtitle is due; one without a time is due at once.
    pub open spec fn next_start(self) -> Option<Duration> {
        if self.frames@.len() == 0 {
            None
        } else {
            Some(crate::subtitle::start_of(self.frames@[0]))
        }
    }

    pub fn peek_start(&self) -> (r: Option<Duration>)
        ensures
            r == self.next_start(),
    {
        if self.frames.len() == 0 {
            return None;
        }
        Some(decoded_subtitle_start(&self.frames[0]))
    }

    pub fn pop_front(&mut self) -> (r: Option<DecodedSubtitleFrame>)
        ensures
            final(self).track == old(self).track,
            final(self).demuxer == old(self).demuxer,
            final(self).decoder == old(self).decoder,
            final(self).eof == old(self).eof,
            old(self).frames@.len() == 0 ==> r is None && final(self).frames@ == old(self).frames@,
            old(self).frames@.len() > 0 ==> r == Some(old(self).frames@[0]) && final(self).frames@
                == old(self).frames@.subrange(1, old(self).frames@.len() as int),
    {
        self.frames.pop_front()
    }

    /// Goes on when the file was sought: nothing that was read before is kept.
    pub fn finish_seek(&mut self)
        ensures
            final(self).track == old(self).track,
            final(self).demuxer == old(self).demuxer,
            final(self).decoder == old(self).decoder,
            !final(self).eof,
            final(self).frames@ == Seq::<DecodedSubtitleFrame>::empty(),
    {
        self.frames.clear();
        self.eof = false;
    }
}

/// Subtitles on their way to the presenter.
pub struct SubtitlePath {
    pub decoder: Option<SubtitleDecoder>,
    pub fonts: Vec<SubtitleFontAttachment>,
    pub external: Vec<ExternalSubtitleSession>,
    pub frames: VecDeque<DecodedSubtitleFrame>,
}

impl SubtitlePath {
    /// When the next subtitle of the medium is due.
    pub open spec fn embedded_start(self) -> Option<Duration> {
        if self.frames@.len() == 0 {
            None
        } else {
            Some(crate::subtitle::start_of(self.frames@[0]))
        }
    }

    /// The selected files among the first `n`, with the time that their next subtitle is due.
    pub open spec fn external_starts(self, selected: Option<i64>, n: int) -> Seq<(usize, Duration)>
        decreases n,
    {
        if n <= 0 {
            Seq::empty()
        } else {
            let before = self.external_starts(selected, n - 1);
            let session = self.external@[n - 1];
            if Some(session.track.id) == selected && session.next_start() is Some {
                before.push(((n - 1) as usize, session.next_start()->0))
            } else {
                before
            }
        }
    }

    /// The subtitles that may come next.
    pub open spec fn waiting(self, selected: Option<i64>) -> Seq<SubtitleQueueCandidate> {
        crate::subtitle::candidates(
            self.embedded_start(),
            self.external_starts(selected, self.external@.len() as int),
        )
    }

    /// Hands out the subtitle that is due, the earliest first; of the queues only the one that it
    /// came from changes.
    pub fn pop_ready(&mut self, selected: Option<i64>, media_time: Duration) -> (r: Option<
        DecodedSubtitleFrame,
    >)
        ensures
            final(self).decoder == old(self).decoder,
            final(self).fonts == old(self).fonts,
            final(self).external@.len() == old(self).external@.len(),
            ({
                let all = old(self).waiting(selected);
                &&& r is None ==> *final(self) == *old(self) && forall|i: int|
                    0 <= i < all.len() ==> (#[trigger] all[i]).due().nanos > media_time.nanos
                &&& r is Some ==> exists|at: int|
                    #[trigger] crate::subtitle::taken_at(all, media_time, at) && handed_out(
                        *old(self),
                        *final(self),
                        all[at],
                        r->0,
                    )
            }),
    {
        let embedded_start = if self.frames.len() == 0 {
            None
        } else {
            Some(decoded_subtitle_start(&self.frames[0]))
        };
        let mut starts: Vec<(usize, Duration)> = Vec::new();
        let mut i: usize = 0;
        while i < self.external.len()
            invariant
                *self == *old(self),
                i <= self.external@.len(),
                starts@ == self.external_starts(selected, i as int),
                forall|j: int|
                    0 <= j < starts@.len() ==> (#[trigger] starts@[j]).0 < i && self.external@[
                        starts@[j].0 as int
                    ].next_start() == Some(starts@[j].1),
            decreases self.external@.len() - i,
        {
            if Some(self.external[i].track.id) == selected {
                if let Some(start) = self.external[i].peek_start() {
                    starts.push((i, start));
                }
            }
            i = i + 1;
        }
        let ghost all = self.waiting(selected);
        match select_ready_subtitle(embedded_start, &starts, media_time) {
            None => None,
            Some(candidate) => {
                let ghost at = choose|at: int| #[trigger]
                    crate::subtitle::taken_at(all, media_time, at) && all[at] == candidate;
                match candidate {
                    SubtitleQueueCandidate::Embedded { .. } => {
                        let frame = self.frames.pop_front();
                        assert(handed_out(*old(self), *self, all[at], frame->0));
                        frame
                    },
                    SubtitleQueueCandidate::External { index, start } => {
                        assert(at < starts@.len());
                        assert(starts@[at] == (index, start));
                        let mut session = self.external.remove(index);
                        let frame = session.pop_front();
                        self.external.insert(index, session);
                        assert forall|j: int|
                            0 <= j < old(self).external@.len() && j
                                != index implies #[trigger] self.external@[j] == old(
                            self).external@[j] by {}
                        assert(handed_out(*old(self), *self, all[at], frame->0));
                        frame
                    },
                }
            },
        }
    }

    /// The place of the first file that carries a track's number.
    pub open spec fn file_of(self, track_id: i64, at: int) -> bool {
        &&& 0 <= at < self.external@.len()
        &&& self.external@[at].track.id == track_id
        &&& forall|i: int| 0 <= i < at ==> (#[trigger] self.external@[i]).track.id != track_id
    }

    pub fn find_external(&self, track_id: i64) -> (r: Option<usize>)
        ensures
            r is Some ==> self.file_of(track_id, r->0 as int),
            r is None ==> forall|i: int|
                0 <= i < self.external@.len() ==> (#[trigger] self.external@[i]).track.id
                    != track_id,
    {
        let mut i: usize = 0;
        while i < self.external.len()
            invariant
                i <= self.external@.len(),
                forall|j: int|
                    0 <= j < i ==> (#[trigger] self.external@[j]).track.id != track_id,
            decreases self.external@.len() - i,
        {
            if self.external[i].track.id == track_id {
                return Some(i);
            }
            i = i + 1;
        }
        None
    }
}

/// Whether `frame` was handed out from the queue of a candidate, and nothing else changed.
pub open spec fn handed_out(
    before: SubtitlePath,
    after: SubtitlePath,
    candidate: SubtitleQueueCandidate,
    frame: DecodedSubtitleFrame,
) -> bool {
    match candidate {
        SubtitleQueueCandidate::Embedded { .. } => {
            &&& before.frames@.len() > 0
            &&& frame == before.frames@[0]
            &&& after.frames@ == before.frames@.subrange(1, before.frames@.len() as int)
            &&& after.external == before.external
        },
        SubtitleQueueCandidate::External { index, .. } => {
            let file = before.external@[index as int];
            let left = after.external@[index as int];
            &&& index < before.external@.len()
            &&& file.frames@.len() > 0
            &&& frame == file.frames@[0]
            &&& left.frames@ == file.frames@.subrange(1, file.frames@.len() as int)
            &&& left.track == file.track
            &&& left.demuxer == file.demuxer
            &&& left.decoder == file.decoder
            &&& left.eof == file.eof
            &&& after.frames == before.frames
            &&& forall|i: int|
                0 <= i < before.external@.len() && i != index ==> #[trigger] after.external@[i]
                    == before.external@[i]
        },
    }
}

/// The first track of a kind is the one in front of all others of that kind, and so is the first
/// subtitle that lies in the medium.
pub proof fn law_the_first_of_a_kind(
    tracks: Seq<TrackInfo>,
    subtitles: Seq<SubtitleTrackConfig>,
    kind: TrackKind,
    i: int,
)
    ensures
        0 <= i < tracks.len() && tracks[i].kind == kind && (forall|j: int|
            0 <= j < i ==> (#[trigger] tracks[j]).kind != kind) ==> first_of_kind(tracks, kind)
            == Some(tracks[i]),
        (forall|j: int| 0 <= j < tracks.len() ==> (#[trigger] tracks[j]).kind != kind)
            ==> first_of_kind(tracks, kind) is None,
        0 <= i < subtitles.len() && subtitles[i].source is Embedded && (forall|j: int|
            0 <= j < i ==> (#[trigger] subtitles[j]).source !is Embedded) ==> first_embedded(
            subtitles,
        ) == Some(subtitles[i]),
        (forall|j: int| 0 <= j < subtitles.len() ==> (#[trigger] subtitles[j]).source !is Embedded)
            ==> first_embedded(subtitles) is None,
    decreases tracks.len() + subtitles.len(),
{
    if tracks.len() > 0 {
        let rest = tracks.drop_first();
        assert(forall|j: int| 0 <= j < rest.len() ==> #[trigger] rest[j] == tracks[j + 1]);
        law_the_first_of_a_kind(rest, Seq::empty(), kind, i - 1);
    }
    if subtitles.len() > 0 {
        let rest = subtitles.drop_first();
        assert(forall|j: int| 0 <= j < rest.len() ==> #[trigger] rest[j] == subtitles[j + 1]);
        law_the_first_of_a_kind(Seq::empty(), rest, kind, i - 1);
    }
}

/// What was configured for a subtitle file stands: its number, its source, and language and title
/// where they are given. What is not given comes from the file.
pub proof fn law_what_is_configured_stands(
    track: SubtitleTrackConfig,
    config: SubtitleTrackConfig,
    probed: Seq<SubtitleTrackConfig>,
    uri: Seq<char>,
)
    requires
        filled_up(track, config, probed, uri),
    ensures
        track.id == config.id,
        track.source == config.source,
        config.language is Some ==> track.language == config.language,
        config.title is Some ==> track.title == config.title,
        config.language is None && probed.len() > 0 && probed[0].source is Embedded
            ==> track.language == probed[0].language,
        config.title is None && probed.len() > 0 && probed[0].source is Embedded
            && probed[0].title is Some ==> track.title == probed[0].title,
        config.language is None && probed.len() == 0 ==> track.language is None,
{
}

/// A subtitle file is read on until 32 subtitles wait, the last of them lies more than 5 s ahead, or
/// the file is at its end.
pub proof fn law_a_file_is_read_a_little_ahead(
    file: ExternalSubtitleSession,
    media_time: Duration,
)
    requires
        media_time.nanos + 5_000_000_000 <= crate::time::MAX_DURATION_NANOS,
    ensures
        file.eof || file.frames@.len() >= 32 ==> !file.reads_on(media_time),
        !file.eof && file.frames@.len() == 0 ==> file.reads_on(media_time),
        !file.eof && 0 < file.frames@.len() < 32 && file.frames@.last().start is Some ==> (
        file.reads_on(media_time) <==> file.frames@.last().start->0.nanos <= media_time.nanos
            + 5_000_000_000),
        !file.eof && 0 < file.frames@.len() < 32 && file.frames@.last().start is None
            ==> file.reads_on(media_time),
{
}

/// Each selected file that has a subtitle waiting is listed once, with the time of that subtitle, and
/// no other file is.
pub proof fn law_selected_files_take_part(path: SubtitlePath, selected: Option<i64>, n: int)
    requires
        0 <= n <= path.external@.len() <= usize::MAX,
    ensures
        forall|k: int|
            0 <= k < path.external_starts(selected, n).len() ==> {
                let entry = #[trigger] path.external_starts(selected, n)[k];
                let file = path.external@[entry.0 as int];
                &&& entry.0 < n
                &&& Some(file.track.id) == selected
                &&& file.frames@.len() > 0
                &&& file.frames@[0].start is Some ==> entry.1 == file.frames@[0].start->0
                &&& file.frames@[0].start is None ==> entry.1.nanos == 0
            },
        forall|i: int|
            0 <= i < n && Some((#[trigger] path.external@[i]).track.id) == selected
                && path.external@[i].frames@.len() > 0 ==> exists|k: int|
                0 <= k < path.external_starts(selected, n).len() && (
                #[trigger] path.external_starts(selected, n)[k]).0 == i,
        forall|a: int, b: int|
            0 <= a < b < path.external_starts(selected, n).len() ==> (
            #[trigger] path.external_starts(selected, n)[a]).0 < (
            #[trigger] path.external_starts(selected, n)[b]).0,
    decreases n,
{
    if n > 0 {
        law_selected_files_take_part(path, selected, n - 1);
        let before = path.external_starts(selected, n - 1);
        let all = path.external_starts(selected, n);
        assert(forall|k: int| 0 <= k < before.len() ==> all[k] == #[trigger] before[k]);
        assert forall|i: int|
            0 <= i < n && Some((#[trigger] path.external@[i]).track.id) == selected
                && path.external@[i].frames@.len() > 0 implies exists|k: int|
            0 <= k < all.len() && (#[trigger] all[k]).0 == i by {
            if i < n - 1 {
                let k = choose|k: int| 0 <= k < before.len() && (#[trigger] before[k]).0 == i;
                assert(all[k].0 == i);
            } else {
                assert(all[all.len() - 1].0 == i);
            }
        }
        assert forall|k: int| 0 <= k < all.len() implies ({
            let entry = #[trigger] all[k];
            let file = path.external@[entry.0 as int];
            &&& entry.0 < n
            &&& Some(file.track.id) == selected
            &&& file.frames@.len() > 0
            &&& file.frames@[0].start is Some ==> entry.1 == file.frames@[0].start->0
            &&& file.frames@[0].start is None ==> entry.1.nanos == 0
        }) by {
            if k < before.len() {
                assert(all[k] == before[k]);
            }
        }
        assert forall|a: int, b: int| 0 <= a < b < all.len() implies (#[trigger] all[a]).0 < (
        #[trigger] all[b]).0 by {
            assert(all[a] == before[a]);
            if b < before.len() {
                assert(all[b] == before[b]);
            }
        }
    }
}

/// A subtitle that is handed out leaves its queue, and it was the first there; all others stay in
/// their order, and so do all other queues.
pub proof fn law_handing_out_takes_the_first(
    before: SubtitlePath,
    after: SubtitlePath,
    candidate: SubtitleQueueCandidate,
    frame: DecodedSubtitleFrame,
)
    requires
        handed_out(before, after, candidate, frame),
    ensures
        candidate is Embedded ==> before.frames@ == seq![frame] + after.frames@ && after.external
            == before.external,
        candidate is External ==> {
            let index = candidate->index as int;
            &&& 0 <= index < before.external@.len()
            &&& before.external@[index].frames@ == seq![frame] + after.external@[index].frames@
            &&& after.external@[index].track == before.external@[index].track
            &&& after.frames == before.frames
            &&& forall|i: int|
                0 <= i < before.external@.len() && i != index ==> #[trigger] after.external@[i]
                    == before.external@[i]
        },
{
    if candidate is Embedded {
        assert(before.frames@ =~= seq![frame] + after.frames@);
    } else {
        let index = candidate->index as int;
        assert(before.external@[index].frames@ =~= seq![frame] + after.external@[index].frames@);
    }
}

} // verus!
