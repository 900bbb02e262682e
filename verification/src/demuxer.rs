//! The demuxer: which streams it passes on, where it seeks, and how it reads a source of bytes.
use std::sync::Arc;
use crate::decoder::{CodecId, DecoderConfig, DecoderOpening, DecoderRequest, Platform};
use crate::error::{
    av_error, check, errno_invalid, errno_io, errno_not_seekable, FfmpegError, AVERROR_EOF,
};
use crate::media::{TrackInfo, TrackKind};
use crate::packet::{absolute_seek_target_micros, timestamp_value, Packet, StreamSelection, TimeBase};
use crate::probe::{inspect_streams, track_kind, MediaProbe, StreamDescription};
use crate::subtitle::{
    import_subtitle, AssTrackResources, DecodedSubtitle, DecodedSubtitleFrame,
    SubtitleFontAttachment, SubtitleTrackConfig,
};
use crate::text::copied_text;
use crate::time::Duration;
use vstd::prelude::*;

verus! {

/// What a container states of itself once it is open.
#[derive(Clone, Debug, PartialEq, Eq)]
pub struct ContainerDescription {
    pub duration_micros: i64,
    /// Where the container's timeline starts, or `i64::MIN`.
    pub start_time: i64,
    pub slots: Vec<Option<StreamDescription>>,
}

/// Whether every stream carries the number of its slot.
pub open spec fn numbered(slots: Seq<Option<StreamDescription>>) -> bool {
    &&& slots.len() <= i32::MAX
    &&& forall|i: int|
        0 <= i < slots.len() && (#[trigger] slots[i]) is Some ==> slots[i]->0.index == i
}

impl ContainerDescription {
    pub open spec fn well_formed(self) -> bool {
        &&& numbered(self.slots@)
        &&& crate::probe::slots_well_formed(self.slots@)
    }

    /// The start of the timeline in microseconds, zero where it is not known.
    pub open spec fn origin(self) -> i64 {
        if self.start_time == i64::MIN { 0 } else { self.start_time }
    }

    pub fn timeline_origin_micros(&self) -> (r: i64)
        ensures
            r == self.origin(),
    {
        match timestamp_value(self.start_time) {
            Some(origin) => origin,
            None => 0,
        }
    }
}

/// What a decoder is told of its stream.
#[derive(Clone, Debug, PartialEq, Eq)]
pub struct CodecParameters {
    pub stream_index: i32,
    pub time_base: TimeBase,
    pub codec: CodecId,
    pub codec_name: Option<String>,
    pub kind: Option<TrackKind>,
}

impl CodecParameters {
    pub fn stream_index(&self) -> (r: i32)
        ensures
            r == self.stream_index,
    {
        self.stream_index
    }

    pub fn time_base(&self) -> (r: TimeBase)
        ensures
            r == self.time_base,
    {
        self.time_base
    }

    pub fn codec_name(&self) -> (r: Option<String>)
        ensures
            r == self.codec_name,
    {
        copied_text(&self.codec_name)
    }

    pub fn kind(&self) -> (r: Option<TrackKind>)
        ensures
            r == self.kind,
    {
        self.kind
    }
}

/// The parameters of a stream, kept beyond the demuxer's own.
#[derive(Clone, Debug, PartialEq, Eq)]
pub struct OwnedCodecParameters {
    pub parameters: CodecParameters,
}

impl OwnedCodecParameters {
    /// Keeps the parameters of a stream: `allocated` says whether there was room for them, and
    /// `code` how the media library copied them.
    pub fn copy_from(
        parameters: CodecParameters,
        allocated: bool,
        code: i32,
        message: &str,
    ) -> (r: Result<Self, FfmpegError>)
        ensures
            r is Ok <==> allocated && code >= 0,
            r is Ok ==> r->Ok_0.parameters == parameters,
            !allocated ==> r is Err && r->Err_0 is NullPointer && r->Err_0->NullPointer_0@
                == "avcodec_parameters_alloc"@,
            allocated && code < 0 ==> r is Err && crate::error::api_error_for(
                r->Err_0,
                "avcodec_parameters_copy"@,
                code,
                message@,
            ),
    {
        if !allocated {
            return Err(FfmpegError::NullPointer("avcodec_parameters_alloc".to_owned()));
        }
        match check(code, "avcodec_parameters_copy", message) {
            Err(error) => Err(error),
            Ok(()) => Ok(OwnedCodecParameters { parameters }),
        }
    }

    pub fn stream_index(&self) -> (r: i32)
        ensures
            r == self.parameters.stream_index,
    {
        self.parameters.stream_index
    }

    pub fn time_base(&self) -> (r: TimeBase)
        ensures
            r == self.parameters.time_base,
    {
        self.parameters.time_base
    }

    pub fn codec_name(&self) -> (r: Option<String>)
        ensures
            r == self.parameters.codec_name,
    {
        copied_text(&self.parameters.codec_name)
    }

    pub fn kind(&self) -> (r: Option<TrackKind>)
        ensures
            r == self.parameters.kind,
    {
        self.parameters.kind
    }

    /// Starts to open a decoder for the stream.
    pub fn open_with_config(&self, config: DecoderConfig, platform: Platform) -> (r: DecoderOpening)
        ensures
            r.well_formed(),
            r.done == 0,
            r.request == (DecoderRequest {
                codec: self.parameters.codec,
                stream_index: self.parameters.stream_index,
                time_base: self.parameters.time_base,
                config,
                platform,
            }),
    {
        DecoderOpening::begin(
            DecoderRequest {
                codec: self.parameters.codec,
                stream_index: self.parameters.stream_index,
                time_base: self.parameters.time_base,
                config,
                platform,
            },
        )
    }
}

/// Where a seek goes: in the ticks of a stream, or in microseconds of the whole container.
#[derive(Clone, Copy, Debug, PartialEq, Eq)]
pub struct SeekPlan {
    pub relative_target: i64,
    pub absolute_target: i64,
    /// The stream that is seeked by, with its time base.
    pub stream: Option<(i32, TimeBase)>,
}

/// What follows when a container was asked to seek back to a key frame.
#[derive(Clone, Copy, Debug, PartialEq, Eq, Structural)]
pub enum SeekStep {
    /// The container would not go back: it is asked for any place on its timeline.
    SeekFullRange,
    Flush,
}

/// What came of reading one packet.
#[derive(Clone, Debug, PartialEq, Eq)]
pub enum ReadStep {
    Packet(Packet),
    /// The packet belongs to a stream that is not passed on.
    Skip,
    EndOfStream,
}

/// An open container, by what the player keeps of it.
#[derive(Debug)]
pub struct Demuxer {
    pub probe: MediaProbe,
    pub slots: Vec<Option<StreamDescription>>,
    pub stream_time_bases: Vec<Option<TimeBase>>,
    pub timeline_origin_micros: i64,
    pub selection: StreamSelection,
}

/// The position of a seek in microseconds.
pub open spec fn seek_micros(position: Duration) -> i64 {
    crate::time::min_int((position.nanos / 1_000) as int, i64::MAX as int) as i64
}

/// Whether a track is a video track that a selection passes.
pub open spec fn seekable_by(track: TrackInfo, selection: StreamSelection) -> bool {
    &&& track.kind == TrackKind::Video
    &&& i32::MIN <= track.id <= i32::MAX
    &&& selection.passes(track.id as i32)
}

/// The place of the first track that a seek may go by.
pub open spec fn first_seekable(
    tracks: Seq<TrackInfo>,
    selection: StreamSelection,
    at: int,
) -> bool {
    &&& 0 <= at < tracks.len()
    &&& seekable_by(tracks[at], selection)
    &&& forall|i: int| 0 <= i < at ==> !seekable_by(#[trigger] tracks[i], selection)
}

impl Demuxer {
    pub open spec fn well_formed(self) -> bool {
        &&& numbered(self.slots@)
        &&& self.stream_time_bases@ == self.slots@.map_values(
            |slot: Option<StreamDescription>| crate::probe::slot_time_base(slot),
        )
        &&& exists|micros: i64| #[trigger]
            crate::probe::probed(self.probe, self.probe.uri@, micros, self.slots@)
    }

    /// The time base of a stream.
    pub open spec fn base_of(self, stream_index: i32) -> Option<TimeBase> {
        if 0 <= stream_index < self.stream_time_bases@.len() {
            self.stream_time_bases@[stream_index as int]
        } else {
            None
        }
    }

    /// Whether the container has a stream.
    pub open spec fn knows(self, stream_index: i32) -> bool {
        self.base_of(stream_index) is Some || exists|i: int|
            0 <= i < self.probe.tracks@.len() && (#[trigger] self.probe.tracks@[i]).id
                == stream_index
    }

    /// Takes over an open container; every stream passes.
    pub fn open(uri: &str, container: ContainerDescription) -> (r: Self)
        requires
            container.well_formed(),
        ensures
            r.well_formed(),
            r.probe.uri@ == uri@,
            crate::probe::probed(r.probe, uri@, container.duration_micros, container.slots@),
            r.slots == container.slots,
            r.timeline_origin_micros == container.origin(),
            r.selection is All,
    {
        let timeline_origin_micros: i64 = container.timeline_origin_micros();
        let (probe, stream_time_bases) = inspect_streams(
            uri,
            container.duration_micros,
            &container.slots,
        );
        Demuxer {
            probe,
            slots: container.slots,
            stream_time_bases,
            timeline_origin_micros,
            selection: StreamSelection::all(),
        }
    }

    pub fn probe(&self) -> (r: &MediaProbe)
        ensures
            *r == self.probe,
    {
        &self.probe
    }

    pub fn selection(&self) -> (r: &StreamSelection)
        ensures
            *r == self.selection,
    {
        &self.selection
    }

    /// Chooses the streams that are passed on. Where one of them is not in the container, nothing
    /// changes, and the smallest such number is reported.
    pub fn set_stream_selection(&mut self, selection: StreamSelection) -> (r: Result<
        (),
        FfmpegError,
    >)
        ensures
            final(self).probe == old(self).probe,
            final(self).slots == old(self).slots,
            final(self).stream_time_bases == old(self).stream_time_bases,
            final(self).timeline_origin_micros == old(self).timeline_origin_micros,
            final(self).selection == (if r is Ok {
                selection
            } else {
                old(self).selection
            }),
            r is Ok <==> selection is All || forall|s: i32|
                selection.passes(s) ==> old(self).knows(s),
            r is Err ==> {
                &&& r->Err_0 is UnknownStream
                &&& selection.passes(r->Err_0->UnknownStream_0)
                &&& !old(self).knows(r->Err_0->UnknownStream_0)
                &&& forall|s: i32|
                    selection.passes(s) && !old(self).knows(s) ==> r->Err_0->UnknownStream_0 <= s
            },
    {
        if let Some(streams) = selection.named_streams() {
            let mut unknown: Option<i32> = None;
            let mut i: usize = 0;
            while i < streams.len()
                invariant
                    i <= streams@.len(),
                    unknown is None ==> forall|j: int|
                        0 <= j < i ==> self.knows(#[trigger] streams@[j]),
                    unknown is Some ==> streams@.contains(unknown->0) && !self.knows(unknown->0)
                        && forall|j: int|
                        0 <= j < i && !self.knows(#[trigger] streams@[j]) ==> unknown->0
                            <= streams@[j],
                decreases streams@.len() - i,
            {
                let stream_index: i32 = streams[i];
                if !self.has_stream(stream_index) {
                    match unknown {
                        None => {
                            unknown = Some(stream_index);
                        },
                        Some(smallest) => {
                            if stream_index < smallest {
                                unknown = Some(stream_index);
                            }
                        },
                    }
                }
                i = i + 1;
            }
            assert forall|s: i32| selection.passes(s) && !self.knows(s) implies unknown is Some
                && unknown->0 <= s by {
                assert(streams@.contains(s));
                let k = choose|k: int| 0 <= k < streams@.len() && streams@[k] == s;
                assert(!self.knows(streams@[k]));
            }
            if let Some(stream_index) = unknown {
                return Err(FfmpegError::UnknownStream(stream_index));
            }
        }
        self.selection = selection;
        Ok(())
    }

    pub fn stream_time_base(&self, stream_index: i32) -> (r: Option<TimeBase>)
        ensures
            r == self.base_of(stream_index),
    {
        if stream_index < 0 || stream_index as usize >= self.stream_time_bases.len() {
            return None;
        }
        self.stream_time_bases[stream_index as usize]
    }

    /// The parameters of a stream that the container describes.
    pub open spec fn parameters_at(self, stream_index: i32) -> CodecParameters {
        let slot = self.slots@[stream_index as int];
        CodecParameters {
            stream_index,
            time_base: crate::probe::slot_time_base(slot)->0,
            codec: slot->0.codec->0.id,
            codec_name: slot->0.codec->0.codec,
            kind: crate::probe::kind_of(slot->0.codec->0.content),
        }
    }

    /// The parameters of a stream.
    pub fn codec_parameters(&self, stream_index: i32) -> (r: Result<CodecParameters, FfmpegError>)
        ensures
            ({
                let known = 0 <= stream_index < self.slots@.len()
                    && self.slots@[stream_index as int] is Some;
                let slot = self.slots@[stream_index as int];
                &&& r is Ok <==> known && slot->0.codec is Some
                &&& !known ==> r == Err::<CodecParameters, FfmpegError>(
                    FfmpegError::UnknownStream(stream_index),
                )
                &&& known && slot->0.codec is None ==> r is Err && r->Err_0 is NullPointer
                    && r->Err_0->NullPointer_0@ == "AVStream.codecpar"@
                &&& r is Ok ==> r->Ok_0 == self.parameters_at(stream_index)
            }),
    {
        if stream_index < 0 || stream_index as usize >= self.slots.len() {
            return Err(FfmpegError::UnknownStream(stream_index));
        }
        match &self.slots[stream_index as usize] {
            None => Err(FfmpegError::UnknownStream(stream_index)),
            Some(stream) => match &stream.codec {
                None => Err(FfmpegError::NullPointer("AVStream.codecpar".to_owned())),
                Some(codec) => Ok(
                    CodecParameters {
                        stream_index,
                        time_base: TimeBase::from_ratio(stream.time_base_num, stream.time_base_den),
                        codec: codec.id,
                        codec_name: copied_text(&codec.codec),
                        kind: track_kind(codec.content),
                    },
                ),
            },
        }
    }

    /// Reads what the media library says of the next packet: `origin` is the start of the
    /// timeline in ticks of the packet's stream.
    pub fn read_packet(&self, code: i32, message: &str, packet: Packet, origin: i64) -> (r: Result<
        ReadStep,
        FfmpegError,
    >)
        ensures
            r is Err <==> code < 0 && code != AVERROR_EOF,
            r is Err ==> crate::error::api_error_for(
                r->Err_0,
                "av_read_frame"@,
                code,
                message@,
            ),
            code == AVERROR_EOF ==> r == Ok::<ReadStep, FfmpegError>(ReadStep::EndOfStream),
            code >= 0 && !self.selection.passes(packet.stream_index) ==> r == Ok::<
                ReadStep,
                FfmpegError,
            >(ReadStep::Skip),
            code >= 0 && self.selection.passes(packet.stream_index) ==> r is Ok
                && r->Ok_0 is Packet && self.delivers(r->Ok_0->Packet_0, packet, origin),
    {
        if code == AVERROR_EOF {
            return Ok(ReadStep::EndOfStream);
        }
        match check(code, "av_read_frame", message) {
            Err(error) => Err(error),
            Ok(()) => {
                let stream_index: i32 = packet.stream_index();
                let mut packet = packet;
                packet.time_base = self.stream_time_base(stream_index);
                packet.normalize_timeline(self.timeline_origin_micros, origin);
                if self.selection.accepts(stream_index) {
                    Ok(ReadStep::Packet(packet))
                } else {
                    Ok(ReadStep::Skip)
                }
            },
        }
    }

    /// Whether `out` is a packet as it is passed on: with the time base of its stream, on a
    /// timeline that starts at zero.
    pub open spec fn delivers(self, out: Packet, packet: Packet, origin: i64) -> bool {
        let base = self.base_of(packet.stream_index);
        let moved = base is Some && self.timeline_origin_micros != 0;
        &&& out.stream_index == packet.stream_index
        &&& out.flags == packet.flags
        &&& out.position == packet.position
        &&& out.duration == packet.duration
        &&& out.data@ == packet.data@
        &&& out.time_base == base
        &&& out.pts == (if moved {
            Packet::shifted(packet.pts, origin)
        } else {
            packet.pts
        })
        &&& out.dts == (if moved {
            Packet::shifted(packet.dts, origin)
        } else {
            packet.dts
        })
    }

    /// The stream that a seek goes by: the first video stream that is passed on.
    pub fn selected_video_seek_stream(&self) -> (r: Option<i32>)
        ensures
            r is None <==> forall|i: int|
                0 <= i < self.probe.tracks@.len() ==> !seekable_by(
                    #[trigger] self.probe.tracks@[i],
                    self.selection,
                ),
            r is Some ==> exists|at: int|
                #[trigger] first_seekable(self.probe.tracks@, self.selection, at) && r->0
                    == self.probe.tracks@[at].id,
    {
        let mut i: usize = 0;
        while i < self.probe.tracks.len()
            invariant
                i <= self.probe.tracks@.len(),
                forall|j: int|
                    0 <= j < i ==> !seekable_by(#[trigger] self.probe.tracks@[j], self.selection),
            decreases self.probe.tracks@.len() - i,
        {
            let id: i64 = self.probe.tracks[i].id;
            if self.probe.tracks[i].kind == TrackKind::Video && id >= i32::MIN as i64 && id
                <= i32::MAX as i64 {
                if self.selection.accepts(id as i32) {
                    assert(first_seekable(self.probe.tracks@, self.selection, i as int));
                    return Some(id as i32);
                }
            }
            i = i + 1;
        }
        None
    }

    /// Lays out a seek: by the first video stream that is passed on, or by the container's own
    /// clock where there is none.
    pub fn plan_seek(&self, position: Duration) -> (r: SeekPlan)
        requires
            self.well_formed(),
        ensures
            r.relative_target == seek_micros(position),
            r.absolute_target == crate::packet::cut_off(
                self.timeline_origin_micros + seek_micros(position),
            ),
            r.stream is None <==> forall|i: int|
                0 <= i < self.probe.tracks@.len() ==> !seekable_by(
                    #[trigger] self.probe.tracks@[i],
                    self.selection,
                ),
            r.stream is Some ==> self.base_of((r.stream->0).0) == Some((r.stream->0).1) && exists|
                at: int,
            |
                #[trigger] first_seekable(self.probe.tracks@, self.selection, at) && (r.stream->0).0
                    == self.probe.tracks@[at].id,
    {
        let micros: u128 = position.as_micros();
        let relative_target: i64 = if micros > i64::MAX as u128 {
            i64::MAX
        } else {
            micros as i64
        };
        let absolute_target: i64 = absolute_seek_target_micros(
            relative_target,
            self.timeline_origin_micros,
        );
        let stream: Option<(i32, TimeBase)> = match self.selected_video_seek_stream() {
            None => None,
            Some(stream_index) => {
                proof {
                    let at = choose|at: int| #[trigger]
                        first_seekable(self.probe.tracks@, self.selection, at) && stream_index
                            == self.probe.tracks@[at].id;
                    lemma_tracks_have_time_bases(*self, at);
                }
                match self.stream_time_base(stream_index) {
                    Some(time_base) => Some((stream_index, time_base)),
                    None => None,
                }
            },
        };
        SeekPlan { relative_target, absolute_target, stream }
    }

    /// Whether the container has a stream.
    pub fn has_stream(&self, stream_index: i32) -> (r: bool)
        ensures
            r == self.knows(stream_index),
    {
        if self.stream_time_base(stream_index).is_some() {
            return true;
        }
        let mut i: usize = 0;
        while i < self.probe.tracks.len()
            invariant
                i <= self.probe.tracks@.len(),
                forall|j: int|
                    0 <= j < i ==> (#[trigger] self.probe.tracks@[j]).id != stream_index,
            decreases self.probe.tracks@.len() - i,
        {
            if self.probe.tracks[i].id == stream_index as i64 {
                assert(self.probe.tracks@[i as int].id == stream_index);
                return true;
            }
            i = i + 1;
        }
        false
    }
}

/// Every track of a container stands in a slot.
proof fn lemma_tracks_stand_in_slots(slots: Seq<Option<StreamDescription>>, n: int, i: int)
    requires
        0 <= n <= slots.len(),
        0 <= i < crate::probe::tracks_among(slots, n).len(),
    ensures
        exists|k: int|
            0 <= k < n && (#[trigger] slots[k]) is Some && crate::probe::holds_track(slots[k])
                && slots[k]->0 == crate::probe::tracks_among(slots, n)[i],
    decreases n,
{
    if n > 0 {
        let before = crate::probe::tracks_among(slots, n - 1);
        if i < before.len() {
            lemma_tracks_stand_in_slots(slots, n - 1, i);
        } else {
            assert(crate::probe::holds_track(slots[n - 1]));
        }
    }
}

/// Every track of an open container has a time base.
proof fn lemma_tracks_have_time_bases(demuxer: Demuxer, at: int)
    requires
        demuxer.well_formed(),
        0 <= at < demuxer.probe.tracks@.len(),
    ensures
        0 <= demuxer.probe.tracks@[at].id < demuxer.slots@.len(),
        demuxer.base_of(demuxer.probe.tracks@[at].id as i32) is Some,
{
    let micros = choose|micros: i64| #[trigger]
        crate::probe::probed(demuxer.probe, demuxer.probe.uri@, micros, demuxer.slots@);
    let n = demuxer.slots@.len() as int;
    let tracks = crate::probe::tracks_among(demuxer.slots@, n);
    assert(crate::probe::track_of(demuxer.probe.tracks@[at], tracks[at]));
    lemma_tracks_stand_in_slots(demuxer.slots@, n, at);
    let k = choose|k: int|
        0 <= k < n && (#[trigger] demuxer.slots@[k]) is Some && crate::probe::holds_track(
            demuxer.slots@[k],
        ) && demuxer.slots@[k]->0 == tracks[at];
    assert(demuxer.probe.tracks@[at].id == k);
}

/// Every track of an open container has parameters.
pub proof fn lemma_tracks_have_parameters(demuxer: Demuxer, at: int)
    requires
        demuxer.well_formed(),
        0 <= at < demuxer.probe.tracks@.len(),
    ensures
        ({
            let track = demuxer.probe.tracks@[at];
            let slot = demuxer.slots@[track.id as int];
            &&& 0 <= track.id < demuxer.slots@.len()
            &&& track.id <= i32::MAX
            &&& slot is Some && slot->0.codec is Some
            &&& crate::probe::kind_of(slot->0.codec->0.content) == Some(track.kind)
            &&& track.codec == slot->0.codec->0.codec
        }),
{
    let micros = choose|micros: i64| #[trigger]
        crate::probe::probed(demuxer.probe, demuxer.probe.uri@, micros, demuxer.slots@);
    let n = demuxer.slots@.len() as int;
    let tracks = crate::probe::tracks_among(demuxer.slots@, n);
    assert(crate::probe::track_of(demuxer.probe.tracks@[at], tracks[at]));
    lemma_tracks_stand_in_slots(demuxer.slots@, n, at);
    let k = choose|k: int|
        0 <= k < n && (#[trigger] demuxer.slots@[k]) is Some && crate::probe::holds_track(
            demuxer.slots@[k],
        ) && demuxer.slots@[k]->0 == tracks[at];
    assert(demuxer.probe.tracks@[at].id == k);
}

/// Every track that a container reports can be selected, and seeks can go by it.
pub proof fn law_reported_tracks_are_known(demuxer: Demuxer, at: int)
    requires
        demuxer.well_formed(),
        0 <= at < demuxer.probe.tracks@.len(),
    ensures
        0 <= demuxer.probe.tracks@[at].id <= i32::MAX,
        demuxer.knows(demuxer.probe.tracks@[at].id as i32),
        demuxer.base_of(demuxer.probe.tracks@[at].id as i32) is Some,
{
    lemma_tracks_have_time_bases(demuxer, at);
}

impl SeekPlan {
    /// The stream that the media library is asked to seek by; below zero for the container.
    pub fn stream_index(&self) -> (r: i32)
        ensures
            r == (match self.stream {
                Some(stream) => stream.0,
                None => -1i32,
            }),
    {
        match self.stream {
            Some((stream_index, _)) => stream_index,
            None => -1,
        }
    }

    /// The target that the media library is asked for; `rescaled` is the absolute target in
    /// ticks of the stream.
    pub fn target(&self, rescaled: i64) -> (r: i64)
        ensures
            r == (if self.stream is Some {
                rescaled
            } else {
                self.absolute_target
            }),
    {
        match self.stream {
            Some(_) => rescaled,
            None => self.absolute_target,
        }
    }
}

/// What follows when a container was asked to seek back to a key frame.
pub fn after_backward_seek(backward: i32) -> (r: SeekStep)
    ensures
        r == (if backward < 0 {
            SeekStep::SeekFullRange
        } else {
            SeekStep::Flush
        }),
{
    if backward < 0 {
        SeekStep::SeekFullRange
    } else {
        SeekStep::Flush
    }
}

/// Reads how a container sought any place on its timeline. A refusal is reported as that of the
/// first request.
pub fn after_full_range_seek(backward: i32, backward_message: &str, full_range: i32) -> (r: Result<
    (),
    FfmpegError,
>)
    requires
        backward < 0,
    ensures
        r is Ok <==> full_range >= 0,
        r is Err ==> crate::error::api_error_for(
            r->Err_0,
            "av_seek_frame"@,
            backward,
            backward_message@,
        ),
{
    if full_range < 0 {
        return check(backward, "av_seek_frame", backward_message);
    }
    Ok(())
}

/// Whether a text holds the character zero.
pub open spec fn holds_nul(text: Seq<char>) -> bool {
    exists|i: int| 0 <= i < text.len() && #[trigger] text[i] as int == 0
}

/// Whether an address can be handed to the media library, which ends a text at the character
/// zero.
pub fn check_uri(uri: &str) -> (r: Result<(), FfmpegError>)
    ensures
        r == (if holds_nul(uri@) {
            Err::<(), FfmpegError>(FfmpegError::InteriorNul)
        } else {
            Ok(())
        }),
{
    let characters = crate::text::characters(uri);
    let mut i: usize = 0;
    while i < characters.len()
        invariant
            i <= characters@.len(),
            characters@ == uri@,
            forall|j: int| 0 <= j < i ==> #[trigger] characters@[j] as int != 0,
        decreases characters@.len() - i,
    {
        if characters[i] == '\0' {
            assert(characters@[i as int] as int == 0);
            return Err(FfmpegError::InteriorNul);
        }
        i = i + 1;
    }
    Ok(())
}

/// What a medium holds; `opened` is what the media library made of its address.
pub fn probe_uri(uri: &str, opened: Result<ContainerDescription, FfmpegError>) -> (r: Result<
    MediaProbe,
    FfmpegError,
>)
    requires
        opened is Ok ==> opened->Ok_0.well_formed(),
    ensures
        r is Ok <==> !holds_nul(uri@) && opened is Ok,
        holds_nul(uri@) ==> r == Err::<MediaProbe, FfmpegError>(FfmpegError::InteriorNul),
        !holds_nul(uri@) && opened is Err ==> r == Err::<MediaProbe, FfmpegError>(opened->Err_0),
        r is Ok ==> crate::probe::probed(
            r->Ok_0,
            uri@,
            opened->Ok_0.duration_micros,
            opened->Ok_0.slots@,
        ),
{
    match check_uri(uri) {
        Err(error) => Err(error),
        Ok(()) => match opened {
            Err(error) => Err(error),
            Ok(container) => Ok(Demuxer::open(uri, container).probe),
        },
    }
}

/// What the medium of a file holds.
pub fn probe_path(path: &str, opened: Result<ContainerDescription, FfmpegError>) -> (r: Result<
    MediaProbe,
    FfmpegError,
>)
    requires
        opened is Ok ==> opened->Ok_0.well_formed(),
    ensures
        r is Ok <==> !holds_nul(path@) && opened is Ok,
        holds_nul(path@) ==> r == Err::<MediaProbe, FfmpegError>(FfmpegError::InteriorNul),
        !holds_nul(path@) && opened is Err ==> r == Err::<MediaProbe, FfmpegError>(opened->Err_0),
        r is Ok ==> crate::probe::probed(
            r->Ok_0,
            path@,
            opened->Ok_0.duration_micros,
            opened->Ok_0.slots@,
        ),
{
    probe_uri(path, opened)
}

/// A place that a seek in a source of bytes counts from.
#[derive(Clone, Copy, Debug, PartialEq, Eq, Structural)]
pub enum SeekOrigin {
    Start,
    Current,
    End,
    /// Not a seek: the length of the source is asked for.
    Size,
    Unknown,
}

/// The place of a reader in a source of bytes.
#[derive(Clone, Copy, Debug, PartialEq, Eq, Structural)]
pub struct ByteCursor {
    pub offset: u64,
}

/// The length of a source, as a signed number.
pub open spec fn signed_length(length: u64) -> int {
    crate::time::min_int(length as int, i64::MAX as int)
}

/// A place in a source, read as a signed number.
pub open spec fn signed_place(offset: u64) -> int {
    if offset <= i64::MAX { offset as int } else { offset - u64::MAX - 1 }
}

fn place_as_signed(offset: u64) -> (r: i64)
    ensures
        r == signed_place(offset),
{
    if offset <= i64::MAX as u64 {
        offset as i64
    } else {
        -((u64::MAX - offset) as i64) - 1
    }
}

/// The codes with which a read or a seek fails on a machine: for an argument that makes no sense,
/// for a source that failed, and for one whose length is not known.
#[derive(Clone, Copy, Debug, PartialEq, Eq, Structural)]
pub struct SourceErrors {
    pub invalid: i32,
    pub io: i32,
    pub not_seekable: i32,
}

impl SourceErrors {
    pub open spec fn below_zero(self) -> bool {
        self.invalid < 0 && self.io < 0 && self.not_seekable < 0
    }

    /// The codes of this machine.
    pub fn of_this_machine() -> (r: Self)
        ensures
            r.invalid == -22,
            r.io == -5,
            r.not_seekable == -29,
    {
        SourceErrors {
            invalid: av_error(errno_invalid()),
            io: av_error(errno_io()),
            not_seekable: av_error(errno_not_seekable()),
        }
    }
}

impl ByteCursor {
    pub fn new() -> (r: Self)
        ensures
            r.offset == 0,
    {
        ByteCursor { offset: 0 }
    }

    /// How many of the bytes that a source handed out fit into a buffer, and the code that says
    /// so; `received` is the number of bytes that the source handed out at the cursor, or none
    /// where it failed. The cursor moves past the bytes that fit.
    pub fn read_packet(
        &mut self,
        buffer_size: i32,
        received: Option<usize>,
        errors: SourceErrors,
    ) -> (r: i32)
        requires
            errors.below_zero(),
        ensures
            ({
                let taken = crate::time::min_int(received->0 as int, buffer_size as int);
                let reads = buffer_size > 0 && received is Some && received->0 > 0;
                &&& reads ==> r == taken && final(self).offset == crate::time::min_int(
                    old(self).offset + taken,
                    u64::MAX as int,
                )
                &&& !reads ==> *final(self) == *old(self)
                &&& buffer_size <= 0 ==> r == errors.invalid
                &&& buffer_size > 0 && received is None ==> r == errors.io
                &&& buffer_size > 0 && received == Some(0usize) ==> r == AVERROR_EOF
            }),
    {
        if buffer_size <= 0 {
            return errors.invalid;
        }
        match received {
            None => errors.io,
            Some(received) => {
                if received == 0 {
                    return AVERROR_EOF;
                }
                let taken: usize = if received < buffer_size as usize {
                    received
                } else {
                    buffer_size as usize
                };
                self.offset = self.offset.saturating_add(taken as u64);
                taken as i32
            },
        }
    }

    /// Where a seek would go, from the length of the source where it counts from the end.
    pub open spec fn target(self, offset: i64, origin: SeekOrigin, length: Option<u64>) -> int {
        match origin {
            SeekOrigin::Current => signed_place(self.offset) + offset,
            SeekOrigin::End => signed_length(length->0) + offset,
            _ => offset as int,
        }
    }

    /// Moves the cursor, or tells the length of the source. `length` is the length of the source,
    /// `Ok(None)` where it has none and an error where it failed to say.
    pub fn seek(
        &mut self,
        offset: i64,
        origin: SeekOrigin,
        length: Result<Option<u64>, ()>,
        errors: SourceErrors,
    ) -> (r: i64)
        requires
            errors.below_zero(),
            origin == SeekOrigin::Current ==> i64::MIN <= signed_place(old(self).offset) + offset
                <= i64::MAX,
            origin == SeekOrigin::End && length is Ok && length->Ok_0 is Some ==> i64::MIN
                <= signed_length(length->Ok_0->0) + offset <= i64::MAX,
        ensures
            ({
                let asks = origin == SeekOrigin::End || origin == SeekOrigin::Size;
                let failed = asks && length is Err;
                let endless = asks && length is Ok && length->Ok_0 is None;
                let target = old(self).target(offset, origin, length->Ok_0);
                let moves = !failed && !endless && origin != SeekOrigin::Size && origin
                    != SeekOrigin::Unknown && target >= 0;
                &&& failed ==> r == errors.io
                &&& endless ==> r == errors.not_seekable
                &&& origin == SeekOrigin::Size && !failed && !endless ==> r == signed_length(
                    length->Ok_0->0,
                )
                &&& origin == SeekOrigin::Unknown ==> r == errors.invalid
                &&& !failed && !endless && !asks && origin != SeekOrigin::Unknown && target < 0
                    ==> r == errors.invalid
                &&& origin == SeekOrigin::End && !failed && !endless && target < 0 ==> r
                    == errors.invalid
                &&& moves ==> r == target && final(self).offset == target
                &&& !moves ==> *final(self) == *old(self)
            }),
    {
        let target: i64 = match origin {
            SeekOrigin::Size => {
                return match length {
                    Ok(Some(length)) => if length > i64::MAX as u64 {
                        i64::MAX
                    } else {
                        length as i64
                    },
                    Ok(None) => errors.not_seekable as i64,
                    Err(_) => errors.io as i64,
                };
            },
            SeekOrigin::Start => offset,
            SeekOrigin::Current => place_as_signed(self.offset) + offset,
            SeekOrigin::End => match length {
                Ok(Some(length)) => {
                    let end: i64 = if length > i64::MAX as u64 {
                        i64::MAX
                    } else {
                        length as i64
                    };
                    end + offset
                },
                Ok(None) => {
                    return errors.not_seekable as i64;
                },
                Err(_) => {
                    return errors.io as i64;
                },
            },
            SeekOrigin::Unknown => {
                return errors.invalid as i64;
            },
        };
        if target < 0 {
            return errors.invalid as i64;
        }
        self.offset = target as u64;
        target
    }
}

/// After a seek from the start the cursor stands where the seek said, and a seek by nothing from
/// there tells the same place again.
pub proof fn law_a_seek_from_the_start_is_absolute(cursor: ByteCursor, offset: i64)
    requires
        offset >= 0,
    ensures
        cursor.target(offset, SeekOrigin::Start, None) == offset,
        (ByteCursor { offset: offset as u64 }).target(0, SeekOrigin::Current, None) == offset,
{
}

/// What came back from the calls that open a subtitle decoder, in their order. Nothing behind a
/// failed one is looked at.
#[derive(Clone, Debug, PartialEq, Eq)]
pub struct SubtitleOpenReplies {
    pub found: bool,
    pub allocated: bool,
    pub copied_code: i32,
    pub copied_message: String,
    pub opened_code: i32,
    pub opened_message: String,
    /// The header of the script, from the decoder or from the stream.
    pub codec_private: Option<Vec<u8>>,
    /// Whether the codec writes text.
    pub is_text: bool,
}

/// A subtitle decoder, by what the player keeps of it.
#[derive(Debug)]
pub struct SubtitleDecoder {
    pub stream_index: i32,
    pub time_base: TimeBase,
    pub track: SubtitleTrackConfig,
    pub ass_track: Option<Arc<AssTrackResources>>,
    pub missing_ass_header_reported: bool,
}

impl SubtitleDecoder {
    /// Opens a decoder for a subtitle stream; the fonts go with the header of its script.
    pub fn open_with_fonts(
        parameters: &CodecParameters,
        replies: SubtitleOpenReplies,
        fonts: Vec<SubtitleFontAttachment>,
    ) -> (r: Result<Self, FfmpegError>)
        ensures
            r is Ok <==> parameters.kind == Some(TrackKind::Subtitle) && replies.found
                && replies.allocated && replies.copied_code >= 0 && replies.opened_code >= 0,
            r is Err ==> (if parameters.kind != Some(TrackKind::Subtitle) {
                r->Err_0 is ExpectedSubtitleStream
            } else if !replies.found {
                r->Err_0 is NullPointer && r->Err_0->NullPointer_0@
                    == "avcodec_find_decoder(subtitle)"@
            } else if !replies.allocated {
                r->Err_0 is NullPointer && r->Err_0->NullPointer_0@
                    == "avcodec_alloc_context3(subtitle)"@
            } else if replies.copied_code < 0 {
                crate::error::api_error_for(
                    r->Err_0,
                    "avcodec_parameters_to_context(subtitle)"@,
                    replies.copied_code,
                    replies.copied_message@,
                )
            } else {
                crate::error::api_error_for(
                    r->Err_0,
                    "avcodec_open2(subtitle)"@,
                    replies.opened_code,
                    replies.opened_message@,
                )
            }),
            r is Ok ==> {
                let decoder = r->Ok_0;
                &&& decoder.stream_index == parameters.stream_index
                &&& decoder.time_base == parameters.time_base
                &&& decoder.track.id == parameters.stream_index
                &&& decoder.track.source
                    == crate::subtitle::SubtitleTrackSource::Embedded {
                    stream_index: parameters.stream_index as i64,
                }
                &&& decoder.ass_track is Some <==> replies.codec_private is Some
                &&& decoder.ass_track is Some ==> *decoder.ass_track->0 == (AssTrackResources {
                    track_id: parameters.stream_index as i64,
                    codec_private: replies.codec_private->0,
                    fonts,
                })
                &&& decoder.missing_ass_header_reported == (replies.codec_private is None
                    && replies.is_text)
            },
    {
        if parameters.kind != Some(TrackKind::Subtitle) {
            return Err(FfmpegError::ExpectedSubtitleStream);
        }
        if !replies.found {
            return Err(FfmpegError::NullPointer("avcodec_find_decoder(subtitle)".to_owned()));
        }
        if !replies.allocated {
            return Err(FfmpegError::NullPointer("avcodec_alloc_context3(subtitle)".to_owned()));
        }
        if let Err(error) = check(
            replies.copied_code,
            "avcodec_parameters_to_context(subtitle)",
            replies.copied_message.as_str(),
        ) {
            return Err(error);
        }
        if let Err(error) = check(
            replies.opened_code,
            "avcodec_open2(subtitle)",
            replies.opened_message.as_str(),
        ) {
            return Err(error);
        }
        let track_id: i64 = parameters.stream_index as i64;
        let missing_ass_header_reported = replies.codec_private.is_none() && replies.is_text;
        let ass_track: Option<Arc<AssTrackResources>> = match replies.codec_private {
            Some(codec_private) => Some(
                Arc::new(AssTrackResources { track_id, codec_private, fonts }),
            ),
            None => None,
        };
        Ok(
            SubtitleDecoder {
                stream_index: parameters.stream_index,
                time_base: parameters.time_base,
                track: SubtitleTrackConfig::embedded(track_id, track_id),
                ass_track,
                missing_ass_header_reported,
            },
        )
    }

    pub fn stream_index(&self) -> (r: i32)
        ensures
            r == self.stream_index,
    {
        self.stream_index
    }

    pub fn time_base(&self) -> (r: TimeBase)
        ensures
            r == self.time_base,
    {
        self.time_base
    }

    pub fn track(&self) -> (r: &SubtitleTrackConfig)
        ensures
            *r == self.track,
    {
        &self.track
    }

    /// Reads what the media library made of a packet: nothing, or a subtitle with the size of the
    /// picture that it was drawn for. A script without its header is noted once.
    pub fn decode_packet(
        &mut self,
        packet: &Packet,
        code: i32,
        message: &str,
        subtitle: Option<&DecodedSubtitle>,
        canvas: (u32, u32),
    ) -> (r: Result<Option<DecodedSubtitleFrame>, FfmpegError>)
        ensures
            final(self).stream_index == old(self).stream_index,
            final(self).time_base == old(self).time_base,
            final(self).track == old(self).track,
            final(self).ass_track == old(self).ass_track,
            packet.stream_index != old(self).stream_index ==> *final(self) == *old(self) && r
                == Err::<Option<DecodedSubtitleFrame>, FfmpegError>(
                FfmpegError::StreamMismatch {
                    decoder_stream: old(self).stream_index,
                    packet_stream: packet.stream_index,
                },
            ),
            packet.stream_index == old(self).stream_index && code < 0 ==> *final(self) == *old(self)
                && r is Err && crate::error::api_error_for(
                r->Err_0,
                "avcodec_decode_subtitle2"@,
                code,
                message@,
            ),
            packet.stream_index == old(self).stream_index && code >= 0 && subtitle is None
                ==> *final(self) == *old(self) && r == Ok::<
                Option<DecodedSubtitleFrame>,
                FfmpegError,
            >(None),
            packet.stream_index == old(self).stream_index && code >= 0 && subtitle is Some ==> {
                let rects = subtitle->0.rects@;
                let n = rects.len() as int;
                let broken = exists|i: int|
                    0 <= i < rects.len() && crate::subtitle::unreadable(#[trigger] rects[i]);
                &&& r is Err <==> broken
                &&& r is Err ==> crate::subtitle::reports_first_unreadable(r->Err_0, rects)
                    && *final(self) == *old(self)
                &&& r is Ok ==> r->Ok_0 is Some
                &&& r is Ok ==> r->Ok_0->0.track_id == old(self).stream_index
                &&& r is Ok ==> r->Ok_0->0.start == subtitle->0.shown_from()
                &&& r is Ok ==> r->Ok_0->0.end == subtitle->0.shown_until()
                &&& r is Ok ==> r->Ok_0->0.text@ == crate::subtitle::texts_of(rects, n)
                &&& r is Ok ==> r->Ok_0->0.forced == crate::subtitle::forced_among(rects, n)
                &&& r is Ok ==> r->Ok_0->0.bitmap.planes@.len() == crate::subtitle::pictures_of(
                    rects,
                    n,
                ).len() && forall|i: int|
                    0 <= i < r->Ok_0->0.bitmap.planes@.len() ==> crate::subtitle::plane_shows(
                        #[trigger] r->Ok_0->0.bitmap.planes@[i],
                        crate::subtitle::pictures_of(rects, n)[i],
                        canvas,
                    )
                &&& r is Ok ==> r->Ok_0->0.ass_track == (if crate::subtitle::ass_among(rects, n) {
                    old(self).ass_track
                } else {
                    None
                })
                &&& r is Ok ==> final(self).missing_ass_header_reported == (
                old(self).missing_ass_header_reported || (r->Ok_0->0.holds_ass()
                    && r->Ok_0->0.ass_track is None))
            },
    {
        if packet.stream_index() != self.stream_index {
            return Err(
                FfmpegError::StreamMismatch {
                    decoder_stream: self.stream_index,
                    packet_stream: packet.stream_index(),
                },
            );
        }
        if let Err(error) = check(code, "avcodec_decode_subtitle2", message) {
            return Err(error);
        }
        match subtitle {
            None => Ok(None),
            Some(subtitle) => {
                let ass_track: Option<Arc<AssTrackResources>> = match &self.ass_track {
                    Some(ass_track) => Some(Arc::clone(ass_track)),
                    None => None,
                };
                match import_subtitle(self.stream_index as i64, subtitle, canvas, ass_track) {
                    Err(error) => Err(error),
                    Ok(frame) => {
                        if frame.has_ass_chunks() && frame.ass_track.is_none()
                            && !self.missing_ass_header_reported {
                            self.missing_ass_header_reported = true;
                        }
                        Ok(Some(frame))
                    },
                }
            },
        }
    }
}

/// A seek goes to the whole microseconds of its position, as far as the number reaches.
pub proof fn law_a_seek_goes_to_whole_microseconds(position: Duration)
    ensures
        position.nanos < 9_223_372_036_854_775_808_000 ==> seek_micros(position) * 1_000
            <= position.nanos < (seek_micros(position) + 1) * 1_000,
        position.nanos >= 9_223_372_036_854_775_807_000 ==> seek_micros(position) == i64::MAX,
{
}

/// A packet is passed on as it was read, only its times are moved: by the start of the timeline,
/// where that is not zero, and never where they are not set.
pub proof fn law_a_packet_is_passed_on_as_it_was_read(
    demuxer: Demuxer,
    out: Packet,
    packet: Packet,
    origin: i64,
)
    requires
        demuxer.delivers(out, packet, origin),
    ensures
        out.data@ == packet.data@,
        out.stream_index == packet.stream_index,
        out.flags == packet.flags,
        out.duration == packet.duration,
        out.position == packet.position,
        packet.pts == i64::MIN ==> out.pts == i64::MIN,
        packet.dts == i64::MIN ==> out.dts == i64::MIN,
        demuxer.timeline_origin_micros == 0 ==> out.pts == packet.pts && out.dts == packet.dts,
        ({
            let described = 0 <= packet.stream_index < demuxer.stream_time_bases@.len()
                && demuxer.stream_time_bases@[packet.stream_index as int] is Some;
            &&& described ==> out.time_base
                == demuxer.stream_time_bases@[packet.stream_index as int]
            &&& !described ==> out.time_base is None && out.pts == packet.pts && out.dts
                == packet.dts
            &&& described && demuxer.timeline_origin_micros != 0 && packet.pts != i64::MIN
                && i64::MIN <= packet.pts - origin <= i64::MAX ==> out.pts + origin == packet.pts
            &&& described && demuxer.timeline_origin_micros != 0 && packet.dts != i64::MIN
                && i64::MIN <= packet.dts - origin <= i64::MAX ==> out.dts + origin == packet.dts
        }),
{
}

/// A timeline starts where the container says, and at zero where it says nothing.
pub proof fn law_an_unknown_start_is_zero(container: ContainerDescription)
    ensures
        container.start_time == i64::MIN ==> container.origin() == 0,
        container.start_time != i64::MIN ==> container.origin() == container.start_time,
{
}

/// A seek goes by the first video track that is read, and by no other kind of track.
pub proof fn law_a_seek_goes_by_the_first_video(
    tracks: Seq<TrackInfo>,
    selection: StreamSelection,
    a: int,
    b: int,
)
    requires
        first_seekable(tracks, selection, a),
    ensures
        tracks[a].kind == TrackKind::Video,
        selection.passes(tracks[a].id as i32),
        0 <= b < a && tracks[b].kind == TrackKind::Video && i32::MIN <= tracks[b].id <= i32::MAX
            ==> !selection.passes(tracks[b].id as i32),
        first_seekable(tracks, selection, b) ==> a == b,
{
}

/// A cursor goes as far from where it stands, or from the end, as the seek says.
pub proof fn law_a_cursor_moves_by_the_offset(cursor: ByteCursor, offset: i64, length: u64)
    requires
        cursor.offset <= i64::MAX,
        length <= i64::MAX,
    ensures
        cursor.target(offset, SeekOrigin::Current, None) - cursor.offset == offset,
        cursor.target(offset, SeekOrigin::End, Some(length)) - length == offset,
{
}

/// A stream is known where the container describes it or lists a track of it.
pub proof fn law_what_a_container_knows(demuxer: Demuxer, stream_index: i32, i: int)
    ensures
        0 <= stream_index < demuxer.stream_time_bases@.len()
            && demuxer.stream_time_bases@[stream_index as int] is Some ==> demuxer.knows(
            stream_index,
        ),
        0 <= i < demuxer.probe.tracks@.len() && demuxer.probe.tracks@[i].id == stream_index
            ==> demuxer.knows(stream_index),
        stream_index < 0 && (forall|j: int|
            0 <= j < demuxer.probe.tracks@.len() ==> (#[trigger] demuxer.probe.tracks@[j]).id
                != stream_index) ==> !demuxer.knows(stream_index),
{
}

/// An address holds the character zero where it stands anywhere in it.
pub proof fn law_a_zero_is_found_anywhere(front: Seq<char>, zero: char, rest: Seq<char>)
    requires
        zero as int == 0,
    ensures
        holds_nul(front.push(zero) + rest),
        (forall|i: int| 0 <= i < front.len() ==> #[trigger] front[i] as int != 0) ==> !holds_nul(
            front,
        ),
{
    let whole = front.push(zero) + rest;
    assert(whole[front.len() as int] as int == 0);
}

} // verus!
