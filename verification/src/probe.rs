//! What a container holds: its tracks, their formats, and the fonts it carries.
use crate::color::{color_primaries, transfer_function};
use crate::decoder::CodecId;
use crate::fonts::{subtitle_font_attachment, AttachmentStream};
use crate::media::{TrackInfo, TrackKind, VideoParams};
use crate::packet::TimeBase;
use crate::subtitle::{SubtitleFontAttachment, SubtitleTrackConfig};
use crate::text::{copied_text, joined, signed_decimal_text};
use crate::time::Duration;
use vstd::prelude::*;

verus! {

#[derive(Clone, Debug, PartialEq, Eq)]
pub struct VideoProbe {
    pub track_id: i64,
    pub params: VideoParams,
    pub codec: Option<String>,
    pub pixel_format: Option<String>,
    pub profile: Option<String>,
    pub level: Option<i32>,
}

#[derive(Clone, Debug, PartialEq, Eq)]
pub struct AudioProbe {
    pub track_id: i64,
    pub codec: Option<String>,
    pub sample_rate: u32,
    pub channels: u32,
    pub sample_format: Option<String>,
}

#[derive(Clone, Debug, PartialEq, Eq)]
pub struct MediaProbe {
    pub uri: String,
    pub duration: Option<Duration>,
    pub tracks: Vec<TrackInfo>,
    pub video: Vec<VideoProbe>,
    pub audio: Vec<AudioProbe>,
    pub subtitles: Vec<SubtitleTrackConfig>,
    pub subtitle_fonts: Vec<SubtitleFontAttachment>,
}

/// What a stream of a container carries.
#[derive(Clone, Copy, Debug, PartialEq, Eq, Structural)]
pub enum StreamContent {
    Video,
    Audio,
    Subtitle,
    Attachment,
    Other,
}

/// The kind of track that a stream is, if it is one.
pub open spec fn kind_of(content: StreamContent) -> Option<TrackKind> {
    match content {
        StreamContent::Video => Some(TrackKind::Video),
        StreamContent::Audio => Some(TrackKind::Audio),
        StreamContent::Subtitle => Some(TrackKind::Subtitle),
        StreamContent::Attachment => None,
        StreamContent::Other => None,
    }
}

pub fn track_kind(content: StreamContent) -> (r: Option<TrackKind>)
    ensures
        r == kind_of(content),
{
    match content {
        StreamContent::Video => Some(TrackKind::Video),
        StreamContent::Audio => Some(TrackKind::Audio),
        StreamContent::Subtitle => Some(TrackKind::Subtitle),
        StreamContent::Attachment => None,
        StreamContent::Other => None,
    }
}

/// What a container states of one stream.
#[derive(Clone, Debug, PartialEq, Eq)]
pub struct StreamDescription {
    pub index: i32,
    pub time_base_num: i32,
    pub time_base_den: i32,
    pub title: Option<String>,
    pub language: Option<String>,
    /// What the stream holds, where the container says so.
    pub codec: Option<CodecDescription>,
}

/// What a container states of the data of a stream.
#[derive(Clone, Debug, PartialEq, Eq)]
pub struct CodecDescription {
    pub id: CodecId,
    pub content: StreamContent,
    pub codec: Option<String>,
    pub width: i32,
    pub height: i32,
    pub pixel_format: Option<String>,
    /// The number of the profile, where it is known.
    pub profile: Option<i32>,
    /// The name of the profile, where it has one.
    pub profile_name: Option<String>,
    pub level: i32,
    pub color_primaries: i32,
    pub color_transfer: i32,
    pub sample_rate: i32,
    pub channels: i32,
    pub sample_format: Option<String>,
    pub attachment: AttachmentStream,
}

/// The length of a medium, where the container knows it.
pub open spec fn stated_duration(micros: i64) -> Option<Duration> {
    if micros <= 0 { None } else { Some(Duration { nanos: (micros * 1_000) as u128 }) }
}

pub fn duration_from_micros(micros: i64) -> (r: Option<Duration>)
    ensures
        r == stated_duration(micros),
{
    if micros <= 0 {
        return None;
    }
    Some(Duration::from_micros(micros as u64))
}

/// Whether `profile` names the profile of a stream: by its name where it has one, else by the
/// codec and the number.
pub open spec fn names_profile(profile: Option<String>, codec: CodecDescription) -> bool {
    if codec.codec is None || codec.profile is None {
        profile is None
    } else {
        &&& profile is Some
        &&& codec.profile_name is Some ==> profile == codec.profile_name
        &&& codec.profile_name is None ==> profile->0@ == codec.codec->0@ + ":"@
            + crate::text::signed_decimal(codec.profile->0 as int)
    }
}

fn profile_name(codec: &CodecDescription) -> (r: Option<String>)
    ensures
        names_profile(r, *codec),
{
    match (&codec.codec, codec.profile) {
        (Some(name), Some(profile)) => match &codec.profile_name {
            Some(profile_name) => Some(profile_name.clone()),
            None => {
                let mut out = joined(name.as_str(), ":");
                out.append(signed_decimal_text(profile as i64).as_str());
                Some(out)
            },
        },
        _ => None,
    }
}

/// The level of a stream, where it is known.
pub open spec fn stated_level(level: i32) -> Option<i32> {
    if level > 0 { Some(level) } else { None }
}

/// Whether `probe` states the video format of a stream.
pub open spec fn video_probed(probe: VideoProbe, stream: StreamDescription) -> bool {
    let codec = stream.codec->0;
    &&& probe.track_id == stream.index
    &&& probe.params == (VideoParams {
        width: crate::frame::counted(codec.width),
        height: crate::frame::counted(codec.height),
        primaries: crate::color::primaries_of(codec.color_primaries),
        transfer: crate::color::transfer_of(codec.color_transfer),
    })
    &&& probe.codec == codec.codec
    &&& probe.pixel_format == codec.pixel_format
    &&& names_profile(probe.profile, codec)
    &&& probe.level == stated_level(codec.level)
}

/// The audio format of a stream.
pub open spec fn audio_probed(stream: StreamDescription) -> AudioProbe {
    let codec = stream.codec->0;
    AudioProbe {
        track_id: stream.index as i64,
        codec: codec.codec,
        sample_rate: crate::frame::counted(codec.sample_rate),
        channels: crate::frame::counted(codec.channels),
        sample_format: codec.sample_format,
    }
}

/// The subtitle track of a stream.
pub open spec fn subtitle_probed(track: TrackInfo) -> SubtitleTrackConfig {
    SubtitleTrackConfig {
        id: track.id,
        language: track.language,
        title: track.title,
        source: crate::subtitle::SubtitleTrackSource::Embedded { stream_index: track.id },
    }
}

/// Whether `track` is the track of a stream.
pub open spec fn track_of(track: TrackInfo, stream: StreamDescription) -> bool {
    let codec = stream.codec->0;
    let kind = kind_of(codec.content)->0;
    let bare = crate::media::bare_track(
        stream.index as i64,
        kind,
        crate::media::TrackSource::Embedded,
    );
    let named = TrackInfo {
        title: stream.title,
        language: stream.language,
        codec: codec.codec,
        ..bare
    };
    match kind {
        TrackKind::Video => track == (TrackInfo {
            width: crate::frame::counted(codec.width),
            height: crate::frame::counted(codec.height),
            pixel_format: codec.pixel_format,
            profile: track.profile,
            level: stated_level(codec.level),
            ..named
        }) && names_profile(track.profile, codec),
        TrackKind::Audio => track == (TrackInfo {
            sample_rate: crate::frame::counted(codec.sample_rate),
            channels: crate::frame::counted(codec.channels),
            sample_format: codec.sample_format,
            ..named
        }),
        TrackKind::Subtitle => track == named,
    }
}

fn count(n: i32) -> (r: u32)
    ensures
        r == crate::frame::counted(n),
{
    if n < 0 {
        0
    } else {
        n as u32
    }
}

fn video_probe(stream_index: i64, codec: &CodecDescription) -> (r: VideoProbe)
    ensures
        r.track_id == stream_index,
        r.params == (VideoParams {
            width: crate::frame::counted(codec.width),
            height: crate::frame::counted(codec.height),
            primaries: crate::color::primaries_of(codec.color_primaries),
            transfer: crate::color::transfer_of(codec.color_transfer),
        }),
        r.codec == codec.codec,
        r.pixel_format == codec.pixel_format,
        names_profile(r.profile, *codec),
        r.level == stated_level(codec.level),
{
    VideoProbe {
        track_id: stream_index,
        params: VideoParams {
            width: count(codec.width),
            height: count(codec.height),
            primaries: color_primaries(codec.color_primaries),
            transfer: transfer_function(codec.color_transfer),
        },
        codec: copied_text(&codec.codec),
        pixel_format: copied_text(&codec.pixel_format),
        profile: profile_name(codec),
        level: if codec.level > 0 {
            Some(codec.level)
        } else {
            None
        },
    }
}

fn audio_probe(stream_index: i64, codec: &CodecDescription) -> (r: AudioProbe)
    ensures
        r == (AudioProbe {
            track_id: stream_index,
            codec: codec.codec,
            sample_rate: crate::frame::counted(codec.sample_rate),
            channels: crate::frame::counted(codec.channels),
            sample_format: codec.sample_format,
        }),
{
    AudioProbe {
        track_id: stream_index,
        codec: copied_text(&codec.codec),
        sample_rate: count(codec.sample_rate),
        channels: count(codec.channels),
        sample_format: copied_text(&codec.sample_format),
    }
}

pub fn subtitle_probe(track: &TrackInfo) -> (r: SubtitleTrackConfig)
    ensures
        r == subtitle_probed(*track),
{
    let mut config = SubtitleTrackConfig::embedded(track.id, track.id);
    config.language = copied_text(&track.language);
    config.title = copied_text(&track.title);
    config
}

/// Whether a slot of a container holds a track.
pub open spec fn holds_track(slot: Option<StreamDescription>) -> bool {
    slot is Some && slot->0.codec is Some && kind_of(slot->0.codec->0.content) is Some
}

/// Whether a slot of a container holds a track of a kind.
pub open spec fn holds_kind(slot: Option<StreamDescription>, kind: TrackKind) -> bool {
    holds_track(slot) && kind_of(slot->0.codec->0.content) == Some(kind)
}

/// The streams of the first `n` slots that are tracks.
pub open spec fn tracks_among(slots: Seq<Option<StreamDescription>>, n: int) -> Seq<
    StreamDescription,
>
    decreases n,
{
    if n <= 0 {
        Seq::empty()
    } else if holds_track(slots[n - 1]) {
        tracks_among(slots, n - 1).push(slots[n - 1]->0)
    } else {
        tracks_among(slots, n - 1)
    }
}

/// The streams of the first `n` slots that are tracks of a kind.
pub open spec fn kind_among(
    slots: Seq<Option<StreamDescription>>,
    kind: TrackKind,
    n: int,
) -> Seq<StreamDescription>
    decreases n,
{
    if n <= 0 {
        Seq::empty()
    } else if holds_kind(slots[n - 1], kind) {
        kind_among(slots, kind, n - 1).push(slots[n - 1]->0)
    } else {
        kind_among(slots, kind, n - 1)
    }
}

/// The bytes of a run of fonts.
pub open spec fn font_bytes(fonts: Seq<AttachmentStream>) -> int
    decreases fonts.len(),
{
    if fonts.len() == 0 {
        0
    } else {
        font_bytes(fonts.drop_last()) + fonts.last().data_size
    }
}

/// Whether an attachment is taken as a font behind those that were taken before.
pub open spec fn taken_as_font(attachment: AttachmentStream, before: Seq<AttachmentStream>) -> bool {
    &&& attachment.admissible(before.len() as usize, font_bytes(before) as usize)
    &&& crate::fonts::faces_fit(attachment.font_data())
    &&& crate::fonts::font_faces(attachment.font_data()).len() > 0
}

/// The attachments of the first `n` slots that are taken as fonts.
pub open spec fn fonts_among(slots: Seq<Option<StreamDescription>>, n: int) -> Seq<AttachmentStream>
    decreases n,
{
    if n <= 0 {
        Seq::empty()
    } else {
        let before = fonts_among(slots, n - 1);
        let slot = slots[n - 1];
        if slot is Some && slot->0.codec is Some && slot->0.codec->0.content
            == StreamContent::Attachment && taken_as_font(slot->0.codec->0.attachment, before) {
            before.push(slot->0.codec->0.attachment)
        } else {
            before
        }
    }
}

/// Whether `font` is the font of an attachment.
pub open spec fn font_of(font: SubtitleFontAttachment, attachment: AttachmentStream) -> bool {
    &&& font.name@ == attachment.name()
    &&& font.mime_type == attachment.mime_type
    &&& font.data@ == attachment.font_data()
    &&& crate::fonts::increasing(crate::fonts::texts(font.families@))
    &&& forall|t: Seq<char>| #[trigger] crate::fonts::texts(font.families@).contains(t)
        <==> crate::fonts::names_font(crate::fonts::font_faces(attachment.font_data()), t)
}

/// The time base of a slot.
pub open spec fn slot_time_base(slot: Option<StreamDescription>) -> Option<TimeBase> {
    match slot {
        None => None,
        Some(stream) => Some(
            if stream.time_base_den == 0 {
                TimeBase { num: 0, den: 1 }
            } else {
                TimeBase { num: stream.time_base_num, den: stream.time_base_den }
            },
        ),
    }
}

/// Whether the attachments of a container are as large as they say.
pub open spec fn slots_well_formed(slots: Seq<Option<StreamDescription>>) -> bool {
    forall|i: int|
        0 <= i < slots.len() && (#[trigger] slots[i]) is Some && slots[i]->0.codec is Some
            ==> slots[i]->0.codec->0.attachment.well_formed()
}

/// Whether `probe` states what a container holds: its tracks in order, the format of each kind,
/// and the fonts that are taken.
pub open spec fn probed(
    probe: MediaProbe,
    uri: Seq<char>,
    duration_micros: i64,
    slots: Seq<Option<StreamDescription>>,
) -> bool {
    let n = slots.len() as int;
    let tracks = tracks_among(slots, n);
    let video = kind_among(slots, TrackKind::Video, n);
    let audio = kind_among(slots, TrackKind::Audio, n);
    let subtitles = kind_among(slots, TrackKind::Subtitle, n);
    let fonts = fonts_among(slots, n);
    &&& probe.uri@ == uri
    &&& probe.duration == stated_duration(duration_micros)
    &&& probe.tracks@.len() == tracks.len()
    &&& forall|i: int|
        0 <= i < tracks.len() ==> track_of(#[trigger] probe.tracks@[i], tracks[i])
    &&& probe.video@.len() == video.len()
    &&& forall|i: int|
        0 <= i < video.len() ==> video_probed(#[trigger] probe.video@[i], video[i])
    &&& probe.audio@ == audio.map_values(|stream: StreamDescription| audio_probed(stream))
    &&& probe.subtitles@.len() == subtitles.len()
    &&& forall|i: int|
        0 <= i < subtitles.len() ==> #[trigger] probe.subtitles@[i] == (SubtitleTrackConfig {
            id: subtitles[i].index as i64,
            language: subtitles[i].language,
            title: subtitles[i].title,
            source: crate::subtitle::SubtitleTrackSource::Embedded {
                stream_index: subtitles[i].index as i64,
            },
        })
    &&& probe.subtitle_fonts@.len() == fonts.len()
    &&& forall|i: int|
        0 <= i < fonts.len() ==> font_of(#[trigger] probe.subtitle_fonts@[i], fonts[i])
}

/// Reads the description of a container: its tracks in order, the format of each kind, the fonts
/// that are taken, and the time base of every slot.
pub fn inspect_streams(
    uri: &str,
    duration_micros: i64,
    slots: &Vec<Option<StreamDescription>>,
) -> (r: (MediaProbe, Vec<Option<TimeBase>>))
    requires
        slots_well_formed(slots@),
    ensures
        probed(r.0, uri@, duration_micros, slots@),
        r.1@ == slots@.map_values(|slot: Option<StreamDescription>| slot_time_base(slot)),
{
    let mut tracks: Vec<TrackInfo> = Vec::new();
    let mut video: Vec<VideoProbe> = Vec::new();
    let mut audio: Vec<AudioProbe> = Vec::new();
    let mut subtitles: Vec<SubtitleTrackConfig> = Vec::new();
    let mut fonts: Vec<SubtitleFontAttachment> = Vec::new();
    let mut accepted_bytes: usize = 0;
    let mut time_bases: Vec<Option<TimeBase>> = Vec::new();
    let mut i: usize = 0;
    while i < slots.len()
        invariant
            i <= slots@.len(),
            slots_well_formed(slots@),
            tracks@.len() == tracks_among(slots@, i as int).len(),
            forall|j: int|
                0 <= j < tracks@.len() ==> track_of(
                    #[trigger] tracks@[j],
                    tracks_among(slots@, i as int)[j],
                ),
            video@.len() == kind_among(slots@, TrackKind::Video, i as int).len(),
            forall|j: int|
                0 <= j < video@.len() ==> video_probed(
                    #[trigger] video@[j],
                    kind_among(slots@, TrackKind::Video, i as int)[j],
                ),
            audio@ =~= kind_among(slots@, TrackKind::Audio, i as int).map_values(
                |stream: StreamDescription| audio_probed(stream),
            ),
            subtitles@.len() == kind_among(slots@, TrackKind::Subtitle, i as int).len(),
            forall|j: int|
                0 <= j < subtitles@.len() ==> #[trigger] subtitles@[j] == (SubtitleTrackConfig {
                    id: kind_among(slots@, TrackKind::Subtitle, i as int)[j].index as i64,
                    language: kind_among(slots@, TrackKind::Subtitle, i as int)[j].language,
                    title: kind_among(slots@, TrackKind::Subtitle, i as int)[j].title,
                    source: crate::subtitle::SubtitleTrackSource::Embedded {
                        stream_index: kind_among(slots@, TrackKind::Subtitle, i as int)[j].index as i64,
                    },
                }),
            fonts@.len() == fonts_among(slots@, i as int).len(),
            fonts@.len() <= crate::fonts::MAX_SUBTITLE_FONT_ATTACHMENTS,
            forall|j: int|
                0 <= j < fonts@.len() ==> font_of(
                    #[trigger] fonts@[j],
                    fonts_among(slots@, i as int)[j],
                ),
            accepted_bytes == font_bytes(fonts_among(slots@, i as int)),
            accepted_bytes <= crate::fonts::MAX_SUBTITLE_FONT_TOTAL_BYTES,
            time_bases@ =~= slots@.subrange(0, i as int).map_values(
                |slot: Option<StreamDescription>| slot_time_base(slot),
            ),
        decreases slots@.len() - i,
    {
        match &slots[i] {
            None => {
                time_bases.push(None);
            },
            Some(stream) => {
                time_bases.push(
                    Some(TimeBase::from_ratio(stream.time_base_num, stream.time_base_den)),
                );
                if let Some(codec) = &stream.codec {
                    if codec.content == StreamContent::Attachment {
                        let ghost before = fonts_among(slots@, i as int);
                        if let Some(font) = subtitle_font_attachment(
                            &codec.attachment,
                            fonts.len(),
                            accepted_bytes,
                        ) {
                            assert(taken_as_font(codec.attachment, before));
                            assert(before.push(codec.attachment).drop_last() =~= before);
                            accepted_bytes = accepted_bytes + codec.attachment.data_size as usize;
                            fonts.push(font);
                        }
                    } else if let Some(kind) = track_kind(codec.content) {
                        let mut track = TrackInfo::embedded(stream.index as i64, kind);
                        track.title = copied_text(&stream.title);
                        track.language = copied_text(&stream.language);
                        track.codec = copied_text(&codec.codec);
                        match kind {
                            TrackKind::Video => {
                                let probe = video_probe(track.id, codec);
                                track.width = probe.params.width;
                                track.height = probe.params.height;
                                track.pixel_format = copied_text(&probe.pixel_format);
                                track.profile = copied_text(&probe.profile);
                                track.level = probe.level;
                                video.push(probe);
                            },
                            TrackKind::Audio => {
                                let probe = audio_probe(track.id, codec);
                                track.sample_rate = probe.sample_rate;
                                track.channels = probe.channels;
                                track.sample_format = copied_text(&probe.sample_format);
                                audio.push(probe);
                            },
                            TrackKind::Subtitle => {
                                subtitles.push(subtitle_probe(&track));
                            },
                        }
                        tracks.push(track);
                    }
                }
            },
        }
        i = i + 1;
    }
    assert(slots@.subrange(0, slots@.len() as int) =~= slots@);
    (
        MediaProbe {
            uri: uri.to_owned(),
            duration: duration_from_micros(duration_micros),
            tracks,
            video,
            audio,
            subtitles,
            subtitle_fonts: fonts,
        },
        time_bases,
    )
}

/// However many attachments a container has, the fonts that are taken keep to the limits.
pub proof fn law_fonts_keep_to_the_limits(slots: Seq<Option<StreamDescription>>, n: int)
    requires
        0 <= n <= slots.len(),
    ensures
        fonts_among(slots, n).len() <= crate::fonts::MAX_SUBTITLE_FONT_ATTACHMENTS,
        0 <= font_bytes(fonts_among(slots, n)) <= crate::fonts::MAX_SUBTITLE_FONT_TOTAL_BYTES,
    decreases n,
{
    if n > 0 {
        law_fonts_keep_to_the_limits(slots, n - 1);
        let before = fonts_among(slots, n - 1);
        let slot = slots[n - 1];
        if slot is Some && slot->0.codec is Some {
            assert(before.push(slot->0.codec->0.attachment).drop_last() =~= before);
        }
    }
}

/// A stated length is in microseconds; one that is not positive is not known.
pub proof fn law_a_length_is_stated_in_microseconds(micros: i64)
    ensures
        micros > 0 ==> stated_duration(micros) is Some && stated_duration(micros)->0.nanos == micros
            * 1_000,
        micros <= 0 ==> stated_duration(micros) is None,
{
}

/// Every slot that holds video, audio or subtitles gives one track, in the order of the slots, and
/// no other slot does.
pub proof fn law_each_stream_gives_one_track(
    slots: Seq<Option<StreamDescription>>,
    kind: TrackKind,
    n: int,
)
    requires
        0 < n <= slots.len(),
    ensures
        tracks_among(slots, 0).len() == 0,
        kind_among(slots, kind, 0).len() == 0,
        ({
            let slot = slots[n - 1];
            let content = slot->0.codec->0.content;
            let known = slot is Some && slot->0.codec is Some;
            let is_track = known && (content == StreamContent::Video || content
                == StreamContent::Audio || content == StreamContent::Subtitle);
            let of_kind = known && match kind {
                TrackKind::Video => content == StreamContent::Video,
                TrackKind::Audio => content == StreamContent::Audio,
                TrackKind::Subtitle => content == StreamContent::Subtitle,
            };
            &&& is_track ==> tracks_among(slots, n) == tracks_among(slots, n - 1).push(slot->0)
            &&& !is_track ==> tracks_among(slots, n) == tracks_among(slots, n - 1)
            &&& of_kind ==> kind_among(slots, kind, n) == kind_among(slots, kind, n - 1).push(
                slot->0,
            )
            &&& !of_kind ==> kind_among(slots, kind, n) == kind_among(slots, kind, n - 1)
        }),
{
}

/// The number of a track is that of its stream, and its size and its sound are those that the stream
/// states, where a negative one counts as none.
pub proof fn law_a_track_describes_its_stream(track: TrackInfo, stream: StreamDescription)
    requires
        track_of(track, stream),
        stream.codec is Some,
        kind_of(stream.codec->0.content) is Some,
    ensures
        track.id == stream.index,
        track.title == stream.title,
        track.language == stream.language,
        track.codec == stream.codec->0.codec,
        !track.selected,
        !track.can_remove,
        stream.codec->0.content == StreamContent::Video <==> track.kind == TrackKind::Video,
        stream.codec->0.content == StreamContent::Audio <==> track.kind == TrackKind::Audio,
        stream.codec->0.content == StreamContent::Subtitle <==> track.kind == TrackKind::Subtitle,
        track.kind == TrackKind::Video && stream.codec->0.width >= 0 ==> track.width
            == stream.codec->0.width,
        track.kind == TrackKind::Video && stream.codec->0.height >= 0 ==> track.height
            == stream.codec->0.height,
        track.kind == TrackKind::Video && stream.codec->0.width < 0 ==> track.width == 0,
        track.kind == TrackKind::Audio && stream.codec->0.sample_rate >= 0 ==> track.sample_rate
            == stream.codec->0.sample_rate,
        track.kind == TrackKind::Audio && stream.codec->0.channels >= 0 ==> track.channels
            == stream.codec->0.channels,
{
}

/// The time base of a stream is what its container says; one that divides by zero stands for no time
/// at all.
pub proof fn law_a_time_base_never_divides_by_zero(slot: Option<StreamDescription>)
    ensures
        slot is Some <==> slot_time_base(slot) is Some,
        slot is Some ==> slot_time_base(slot)->0.den != 0,
        slot is Some && slot->0.time_base_den != 0 ==> slot_time_base(slot)->0.num
            == slot->0.time_base_num && slot_time_base(slot)->0.den == slot->0.time_base_den,
        slot is Some && slot->0.time_base_den == 0 ==> slot_time_base(slot)->0.num == 0,
{
}

/// An attachment is taken only behind fewer than 256 fonts, where it holds no more than 64 MiB and
/// all together no more than 256 MiB.
pub proof fn law_the_limits_of_fonts(attachment: AttachmentStream, before: Seq<AttachmentStream>)
    requires
        taken_as_font(attachment, before),
        before.len() <= usize::MAX,
        0 <= font_bytes(before) <= usize::MAX,
    ensures
        before.len() < 256,
        0 < attachment.data_size <= 67_108_864,
        font_bytes(before.push(attachment)) == font_bytes(before) + attachment.data_size,
        font_bytes(before.push(attachment)) <= 268_435_456,
{
    assert(before.push(attachment).drop_last() =~= before);
}

/// What is stated of the pictures and the sound of a stream is what the stream carries: its number,
/// its size, its colours and its rate; a level that is not positive is not known.
pub proof fn law_what_is_stated_of_a_stream(
    video: VideoProbe,
    stream: StreamDescription,
)
    requires
        stream.codec is Some,
        video_probed(video, stream),
        stream.codec->0.width >= 0,
        stream.codec->0.height >= 0,
        stream.codec->0.sample_rate >= 0,
        stream.codec->0.channels >= 0,
    ensures
        video.track_id == stream.index,
        video.params.width == stream.codec->0.width,
        video.params.height == stream.codec->0.height,
        stream.codec->0.color_primaries == 9 ==> video.params.primaries
            == crate::media::ColorPrimaries::Bt2020,
        stream.codec->0.color_transfer == 16 ==> video.params.transfer
            == crate::media::TransferFunction::Pq,
        video.codec == stream.codec->0.codec,
        video.pixel_format == stream.codec->0.pixel_format,
        stream.codec->0.level > 0 ==> video.level == Some(stream.codec->0.level),
        stream.codec->0.level <= 0 ==> video.level is None,
        stream.codec->0.profile is None || stream.codec->0.codec is None ==> video.profile is None,
        stream.codec->0.profile is Some && stream.codec->0.codec is Some
            && stream.codec->0.profile_name is Some ==> video.profile
            == stream.codec->0.profile_name,
        audio_probed(stream).track_id == stream.index,
        audio_probed(stream).sample_rate == stream.codec->0.sample_rate,
        audio_probed(stream).channels == stream.codec->0.channels,
        audio_probed(stream).codec == stream.codec->0.codec,
        audio_probed(stream).sample_format == stream.codec->0.sample_format,
{
}

/// A subtitle track of a medium keeps number, language and title, and lies in the stream of its
/// number.
pub proof fn law_a_subtitle_track_lies_in_its_stream(track: TrackInfo)
    ensures
        subtitle_probed(track).id == track.id,
        subtitle_probed(track).language == track.language,
        subtitle_probed(track).title == track.title,
        subtitle_probed(track).source is Embedded,
        subtitle_probed(track).source->stream_index == track.id,
{
}

/// A font keeps the name, the type and the bytes of its attachment.
pub proof fn law_a_font_is_its_attachment(
    font: SubtitleFontAttachment,
    attachment: AttachmentStream,
)
    requires
        font_of(font, attachment),
        attachment.filename is Some,
        attachment.data is Some,
        0 <= attachment.data_size <= attachment.data->0@.len(),
    ensures
        font.name@ == attachment.filename->0@,
        font.mime_type == attachment.mime_type,
        font.data@ == attachment.data->0@.subrange(0, attachment.data_size as int),
        font.data@.len() == attachment.data_size,
{
}

} // verus!
