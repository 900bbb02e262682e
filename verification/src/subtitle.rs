//! Subtitle tracks, decoded subtitle frames, and the import of decoded rectangles.
use std::sync::Arc;
use crate::error::FfmpegError;
use crate::frame::Plane;
use crate::text::copied_text;
use crate::time::Duration;
use vstd::prelude::*;

verus! {

#[derive(Clone, Debug, PartialEq, Eq)]
pub enum SubtitleTrackSource {
    Embedded { stream_index: i64 },
    External { uri: String },
}

impl SubtitleTrackSource {
    pub fn is_embedded(&self) -> (r: bool)
        ensures
            r == (self is Embedded),
    {
        matches!(self, SubtitleTrackSource::Embedded { .. })
    }

    /// A copy of the source.
    pub fn duplicate(&self) -> (r: Self)
        ensures
            r == *self,
    {
        match self {
            SubtitleTrackSource::Embedded { stream_index } => SubtitleTrackSource::Embedded {
                stream_index: *stream_index,
            },
            SubtitleTrackSource::External { uri } => SubtitleTrackSource::External {
                uri: uri.clone(),
            },
        }
    }
}

#[derive(Clone, Debug, PartialEq, Eq)]
pub struct SubtitleTrackConfig {
    pub id: i64,
    pub language: Option<String>,
    pub title: Option<String>,
    pub source: SubtitleTrackSource,
}

impl SubtitleTrackConfig {
    pub fn embedded(id: i64, stream_index: i64) -> (r: Self)
        ensures
            r == (SubtitleTrackConfig {
                id,
                language: None,
                title: None,
                source: SubtitleTrackSource::Embedded { stream_index },
            }),
    {
        SubtitleTrackConfig {
            id,
            language: None,
            title: None,
            source: SubtitleTrackSource::Embedded { stream_index },
        }
    }

    pub fn external(id: i64, uri: String) -> (r: Self)
        ensures
            r == (SubtitleTrackConfig {
                id,
                language: None,
                title: None,
                source: SubtitleTrackSource::External { uri },
            }),
    {
        SubtitleTrackConfig {
            id,
            language: None,
            title: None,
            source: SubtitleTrackSource::External { uri },
        }
    }

    /// Only a track that was added from outside the medium can be removed.
    pub fn can_remove(&self) -> (r: bool)
        ensures
            r == (self.source is External),
    {
        !self.source.is_embedded()
    }

    /// A copy of the configuration.
    pub fn duplicate(&self) -> (r: Self)
        ensures
            r == *self,
    {
        SubtitleTrackConfig {
            id: self.id,
            language: copied_text(&self.language),
            title: copied_text(&self.title),
            source: self.source.duplicate(),
        }
    }
}

/// A font that a medium carries.
#[derive(Clone, Debug, PartialEq, Eq)]
pub struct SubtitleFontAttachment {
    pub name: String,
    pub mime_type: Option<String>,
    pub families: Vec<String>,
    pub data: Vec<u8>,
}

impl SubtitleFontAttachment {
    pub fn byte_len(&self) -> (r: usize)
        ensures
            r == self.data@.len(),
    {
        self.data.len()
    }
}

/// What all ASS chunks of a track share.
#[derive(Clone, Debug, PartialEq, Eq)]
pub struct AssTrackResources {
    pub track_id: i64,
    pub codec_private: Vec<u8>,
    pub fonts: Vec<SubtitleFontAttachment>,
}

#[derive(Clone, Copy, Debug, PartialEq, Eq, Structural)]
pub enum SubtitleTextFormat {
    PlainText,
    Ass,
}

#[derive(Clone, Debug, PartialEq, Eq)]
pub struct SubtitleTextSegment {
    pub format: SubtitleTextFormat,
    pub text: String,
    pub forced: bool,
}

/// A picture on a canvas, as bytes of red, green, blue and alpha.
#[derive(Clone, Debug, PartialEq, Eq)]
pub struct SubtitleBitmapPlane {
    pub x: i32,
    pub y: i32,
    pub width: u32,
    pub height: u32,
    pub canvas_width: u32,
    pub canvas_height: u32,
    pub rgba: Vec<u8>,
}

#[derive(Clone, Debug, PartialEq, Eq)]
pub struct SubtitleBitmap {
    pub planes: Vec<SubtitleBitmapPlane>,
}

/// What a subtitle decoder made of one packet.
#[derive(Clone, Debug, PartialEq, Eq)]
pub struct DecodedSubtitleFrame {
    pub track_id: i64,
    pub start: Option<Duration>,
    pub end: Option<Duration>,
    pub text: Vec<SubtitleTextSegment>,
    pub bitmap: SubtitleBitmap,
    pub forced: bool,
    pub ass_track: Option<Arc<AssTrackResources>>,
}

impl DecodedSubtitleFrame {
    /// Whether the frame holds nothing but its times.
    pub open spec fn blank(
        self,
        track_id: i64,
        start: Option<Duration>,
        end: Option<Duration>,
    ) -> bool {
        &&& self.track_id == track_id
        &&& self.start == start
        &&& self.end == end
        &&& self.text@.len() == 0
        &&& self.bitmap.planes@.len() == 0
        &&& !self.forced
        &&& self.ass_track is None
    }

    pub fn new(track_id: i64, start: Option<Duration>, end: Option<Duration>) -> (r: Self)
        ensures
            r.blank(track_id, start, end),
    {
        DecodedSubtitleFrame {
            track_id,
            start,
            end,
            text: Vec::new(),
            bitmap: SubtitleBitmap { planes: Vec::new() },
            forced: false,
            ass_track: None,
        }
    }

    pub fn push_text(&mut self, segment: SubtitleTextSegment)
        ensures
            final(self).text@ == old(self).text@.push(segment),
            final(self).forced == (old(self).forced || segment.forced),
            final(self).track_id == old(self).track_id,
            final(self).start == old(self).start,
            final(self).end == old(self).end,
            final(self).bitmap == old(self).bitmap,
            final(self).ass_track == old(self).ass_track,
    {
        self.forced = self.forced || segment.forced;
        self.text.push(segment);
    }

    pub fn push_bitmap_plane(&mut self, plane: SubtitleBitmapPlane, forced: bool)
        ensures
            final(self).bitmap.planes@ == old(self).bitmap.planes@.push(plane),
            final(self).forced == (old(self).forced || forced),
            final(self).track_id == old(self).track_id,
            final(self).start == old(self).start,
            final(self).end == old(self).end,
            final(self).text == old(self).text,
            final(self).ass_track == old(self).ass_track,
    {
        self.forced = self.forced || forced;
        self.bitmap.planes.push(plane);
    }

    /// Whether any of the texts is an ASS chunk.
    pub open spec fn holds_ass(self) -> bool {
        exists|i: int|
            0 <= i < self.text@.len() && (#[trigger] self.text@[i]).format
                == SubtitleTextFormat::Ass
    }

    pub fn has_ass_chunks(&self) -> (r: bool)
        ensures
            r == self.holds_ass(),
    {
        let mut i: usize = 0;
        while i < self.text.len()
            invariant
                i <= self.text@.len(),
                forall|j: int|
                    0 <= j < i ==> (#[trigger] self.text@[j]).format != SubtitleTextFormat::Ass,
            decreases self.text@.len() - i,
        {
            if self.text[i].format == SubtitleTextFormat::Ass {
                return true;
            }
            i = i + 1;
        }
        false
    }

    pub fn with_track_id(self, track_id: i64) -> (r: Self)
        ensures
            r == (DecodedSubtitleFrame { track_id, ..self }),
    {
        let mut frame = self;
        frame.track_id = track_id;
        frame
    }
}

/// Where a frame starts; a frame without a start is due at once.
pub open spec fn start_of(frame: DecodedSubtitleFrame) -> Duration {
    match frame.start {
        Some(start) => start,
        None => Duration { nanos: 0 },
    }
}

pub fn decoded_subtitle_start(frame: &DecodedSubtitleFrame) -> (r: Duration)
    ensures
        r == start_of(*frame),
{
    match frame.start {
        Some(start) => start,
        None => Duration::zero(),
    }
}

/// The frame that takes a track's last subtitle off the screen.
pub fn clear_subtitle_frame(track_id: Option<i64>, media_time: Duration) -> (r: Option<
    DecodedSubtitleFrame,
>)
    ensures
        r is Some <==> track_id is Some,
        r matches Some(frame) ==> frame.blank(track_id->0, Some(media_time), None),
{
    match track_id {
        Some(track_id) => Some(DecodedSubtitleFrame::new(track_id, Some(media_time), None)),
        None => None,
    }
}

/// The number of colours that a palette can hold.
pub const PALETTE_SIZE: i32 = 256;

/// A rectangle that a subtitle decoder produced.
#[derive(Clone, Debug, PartialEq, Eq)]
pub enum SubtitleRect {
    Text { text: Option<String>, forced: bool },
    Ass { text: Option<String>, forced: bool },
    Bitmap { bitmap: PaletteBitmap, forced: bool },
    Other,
}

/// A picture whose pixels are places in a palette of colours, each a word of alpha, red, green and
/// blue from the high byte down.
#[derive(Clone, Debug, PartialEq, Eq)]
pub struct PaletteBitmap {
    pub x: i32,
    pub y: i32,
    pub width: i32,
    pub height: i32,
    pub colors: i32,
    pub pixels: Plane,
    pub palette: Option<Vec<u32>>,
}

/// A byte of a palette colour: 0 is red, 1 green, 2 blue and 3 alpha.
pub open spec fn color_byte(color: u32, which: int) -> u8 {
    if which == 0 {
        ((color / 0x1_0000) % 256) as u8
    } else if which == 1 {
        ((color / 0x100) % 256) as u8
    } else if which == 2 {
        (color % 256) as u8
    } else {
        ((color / 0x100_0000) % 256) as u8
    }
}

pub fn palette_color_to_rgba(color: u32) -> (r: [u8; 4])
    ensures
        forall|i: int| 0 <= i < 4 ==> r@[i] == color_byte(color, i),
{
    [
        ((color / 0x1_0000) % 256) as u8,
        ((color / 0x100) % 256) as u8,
        (color % 256) as u8,
        ((color / 0x100_0000) % 256) as u8,
    ]
}

impl PaletteBitmap {
    /// Whether there is nothing to show.
    pub open spec fn empty(self) -> bool {
        self.width <= 0 || self.height <= 0
    }

    /// Whether every pixel and every colour can be read.
    pub open spec fn readable(self) -> bool {
        &&& self.pixels.holds_rows(self.width as int, self.height as int)
        &&& self.palette is Some
        &&& 0 < self.colors <= PALETTE_SIZE
        &&& self.colors <= self.palette->0@.len()
    }

    /// The colour of a pixel; a place beyond the palette is transparent black.
    pub open spec fn color_at(self, row: int, col: int) -> u32 {
        let place = self.pixels.at(row, col);
        if place < self.colors { self.palette->0@[place as int] } else { 0 }
    }

    /// The first `rows` rows as bytes of red, green, blue and alpha.
    pub open spec fn rgba_rows(self, rows: int) -> Seq<u8>
        decreases rows,
    {
        if rows <= 0 {
            Seq::empty()
        } else {
            self.rgba_rows(rows - 1) + Seq::new(
                (4 * self.width) as nat,
                |i: int| color_byte(self.color_at(rows - 1, i / 4), i % 4),
            )
        }
    }

    /// The error for a picture that cannot be read.
    pub open spec fn malformed(self) -> FfmpegError {
        FfmpegError::InvalidSubtitleBitmap {
            width: self.width,
            height: self.height,
            stride: self.pixels.stride,
            colors: self.colors,
        }
    }

    /// The picture in red, green, blue and alpha, on a canvas; an empty picture gives nothing.
    pub fn to_rgba_plane(&self, canvas_width: u32, canvas_height: u32) -> (r: Result<
        Option<SubtitleBitmapPlane>,
        FfmpegError,
    >)
        ensures
            self.empty() ==> r == Ok::<Option<SubtitleBitmapPlane>, FfmpegError>(None),
            !self.empty() && !self.readable() ==> r == Err::<
                Option<SubtitleBitmapPlane>,
                FfmpegError,
            >(self.malformed()),
            !self.empty() && self.readable() ==> {
                &&& r is Ok
                &&& r->Ok_0 matches Some(plane) && plane.x == self.x && plane.y == self.y
                    && plane.width == self.width && plane.height == self.height
                    && plane.canvas_width == canvas_width && plane.canvas_height == canvas_height
                    && plane.rgba@ == self.rgba_rows(self.height as int) && plane.rgba@.len() == 4
                    * self.width * self.height
            },
    {
        if self.width <= 0 || self.height <= 0 {
            return Ok(None);
        }
        let width: u64 = self.width as u64;
        let height: u64 = self.height as u64;
        let error = FfmpegError::InvalidSubtitleBitmap {
            width: self.width,
            height: self.height,
            stride: self.pixels.stride,
            colors: self.colors,
        };
        let palette = match &self.palette {
            Some(palette) => palette,
            None => {
                return Err(error);
            },
        };
        if self.colors <= 0 || self.colors > PALETTE_SIZE || (self.colors as usize)
            > palette.len() || !self.pixels.can_read(width, height) {
            return Err(error);
        }
        let mut rgba: Vec<u8> = Vec::new();
        let mut row: u64 = 0;
        while row < height
            invariant
                row <= height,
                width == self.width,
                height == self.height,
                self.readable(),
                self.palette == Some(*palette),
                rgba@ == self.rgba_rows(row as int),
            decreases height - row,
        {
            let ghost before = rgba@;
            let mut col: u64 = 0;
            while col < width
                invariant
                    col <= width,
                    row < height,
                    width == self.width,
                    height == self.height,
                    self.readable(),
                    self.palette == Some(*palette),
                    rgba@ =~= before + Seq::new(
                        (4 * col) as nat,
                        |i: int| color_byte(self.color_at(row as int, i / 4), i % 4),
                    ),
                decreases width - col,
            {
                let place: u8 = self.pixels.byte(
                    row,
                    col,
                    Ghost(width as int),
                    Ghost(height as int),
                );
                let color: u32 = if (place as i32) < self.colors {
                    palette[place as usize]
                } else {
                    0
                };
                let bytes = palette_color_to_rgba(color);
                rgba.push(bytes[0]);
                rgba.push(bytes[1]);
                rgba.push(bytes[2]);
                rgba.push(bytes[3]);
                col = col + 1;
            }
            row = row + 1;
        }
        proof {
            lemma_rgba_length(*self, height as int);
        }
        Ok(
            Some(
                SubtitleBitmapPlane {
                    x: self.x,
                    y: self.y,
                    width: self.width as u32,
                    height: self.height as u32,
                    canvas_width,
                    canvas_height,
                    rgba,
                },
            ),
        )
    }
}

/// Four bytes stand for every pixel.
proof fn lemma_rgba_length(bitmap: PaletteBitmap, rows: int)
    requires
        bitmap.width > 0,
        rows >= 0,
    ensures
        bitmap.rgba_rows(rows).len() == 4 * bitmap.width * rows,
    decreases rows,
{
    if rows > 0 {
        lemma_rgba_length(bitmap, rows - 1);
        assert(4 * bitmap.width * (rows - 1) + 4 * bitmap.width == 4 * bitmap.width * rows)
            by (nonlinear_arith);
    } else {
        assert(4 * bitmap.width * rows == 0) by (nonlinear_arith)
            requires
                rows == 0,
        ;
    }
}

/// Where the bytes of a pixel stand among those of the first rows.
proof fn lemma_rgba_at(bitmap: PaletteBitmap, rows: int, row: int, col: int, which: int)
    requires
        bitmap.width > 0,
        0 <= row < rows,
        0 <= col < bitmap.width,
        0 <= which < 4,
    ensures
        0 <= 4 * (row * bitmap.width + col) + which < bitmap.rgba_rows(rows).len(),
        bitmap.rgba_rows(rows)[4 * (row * bitmap.width + col) + which] == color_byte(
            bitmap.color_at(row, col),
            which,
        ),
    decreases rows,
{
    let width = bitmap.width as int;
    let at = 4 * (row * width + col) + which;
    lemma_rgba_length(bitmap, rows - 1);
    lemma_rgba_length(bitmap, rows);
    let before = bitmap.rgba_rows(rows - 1);
    assert(4 * (row * width + col) == 4 * width * row + 4 * col) by (nonlinear_arith);
    assert(4 * width * row >= 0) by (nonlinear_arith)
        requires
            width > 0,
            row >= 0,
    ;
    assert(4 * width * rows == 4 * width * (rows - 1) + 4 * width) by (nonlinear_arith);
    if row == rows - 1 {
        let i = 4 * col + which;
        assert(at == before.len() + i);
        assert(i / 4 == col && i % 4 == which);
        assert(bitmap.rgba_rows(rows)[at] == color_byte(bitmap.color_at(rows - 1, i / 4), i % 4));
    } else {
        lemma_rgba_at(bitmap, rows - 1, row, col, which);
        assert(at < before.len());
        assert(bitmap.rgba_rows(rows)[at] == before[at]);
    }
}

/// The four bytes of a colour make it up.
proof fn lemma_color_bytes(color: u32)
    ensures
        color_byte(color, 3) * 0x100_0000 + color_byte(color, 0) * 0x1_0000 + color_byte(color, 1)
            * 0x100 + color_byte(color, 2) == color,
        color == 0 ==> color_byte(color, 0) == 0 && color_byte(color, 1) == 0 && color_byte(
            color,
            2,
        ) == 0 && color_byte(color, 3) == 0,
{
}

/// Every picture whose rows and colours are all there is turned, pixel by pixel, into the colours of
/// its palette: the four bytes of a pixel are the red, green, blue and alpha of the entry that it
/// names, whichever entry that is. A pixel that names none is transparent.
#[verifier::spinoff_prover]
#[verifier::rlimit(40)]
pub proof fn law_a_pixel_gets_the_color_it_names(
    bitmap: PaletteBitmap,
    pixels: Seq<u8>,
    palette: Seq<u32>,
    row: int,
    col: int,
)
    requires
        bitmap.width > 0,
        bitmap.height > 0,
        bitmap.width <= bitmap.pixels.stride,
        bitmap.pixels.bytes is Some,
        bitmap.pixels.bytes->0@ == pixels,
        (bitmap.height - 1) * bitmap.pixels.stride + bitmap.width <= pixels.len(),
        bitmap.palette is Some,
        bitmap.palette->0@ == palette,
        1 <= bitmap.colors <= 256,
        bitmap.colors <= palette.len(),
        0 <= row < bitmap.height,
        0 <= col < bitmap.width,
    ensures
        !bitmap.empty(),
        bitmap.readable(),
        ({
            let rgba = bitmap.rgba_rows(bitmap.height as int);
            let at = 4 * (row * bitmap.width + col);
            let named = pixels[row * bitmap.pixels.stride + col];
            &&& rgba.len() == 4 * bitmap.width * bitmap.height
            &&& 0 <= at && at + 3 < rgba.len()
            &&& named < bitmap.colors ==> rgba[at + 3] * 0x100_0000 + rgba[at] * 0x1_0000 + rgba[at
                + 1] * 0x100 + rgba[at + 2] == palette[named as int]
            &&& named >= bitmap.colors ==> rgba[at] == 0 && rgba[at + 1] == 0 && rgba[at + 2] == 0
                && rgba[at + 3] == 0
        }),
{
    lemma_rgba_length(bitmap, bitmap.height as int);
    lemma_rgba_at(bitmap, bitmap.height as int, row, col, 0);
    lemma_rgba_at(bitmap, bitmap.height as int, row, col, 1);
    lemma_rgba_at(bitmap, bitmap.height as int, row, col, 2);
    lemma_rgba_at(bitmap, bitmap.height as int, row, col, 3);
    lemma_color_bytes(bitmap.color_at(row, col));
}

/// What a subtitle decoder reports of one packet.
#[derive(Clone, Debug, PartialEq, Eq)]
pub struct DecodedSubtitle {
    /// The time of the subtitle in microseconds, or `i64::MIN`.
    pub pts: i64,
    /// The distance of `pts` from the start of the timeline.
    pub pts_magnitude: Duration,
    /// Where the packet lies on the media timeline.
    pub packet_start: Option<Duration>,
    /// Milliseconds from the subtitle's time to the moment it is shown.
    pub start_display_time: u32,
    /// Milliseconds from the subtitle's time to the moment it is taken down.
    pub end_display_time: u32,
    pub rects: Vec<SubtitleRect>,
}

impl DecodedSubtitle {
    /// The subtitle's own time: the decoder's where it lies on the timeline, else the packet's.
    pub open spec fn time(self) -> Option<Duration> {
        if self.pts >= 0 { Some(self.pts_magnitude) } else { self.packet_start }
    }

    /// When the subtitle is shown.
    pub open spec fn shown_from(self) -> Option<Duration> {
        match self.time() {
            Some(time) => Some(
                time.sum(Duration { nanos: (self.start_display_time * 1_000_000) as u128 }),
            ),
            None => None,
        }
    }

    /// When the subtitle is taken down, where the decoder says so.
    pub open spec fn shown_until(self) -> Option<Duration> {
        if self.shown_from() is None || self.end_display_time <= self.start_display_time
            || self.end_display_time == u32::MAX {
            None
        } else {
            Some(
                self.shown_from()->0.sum(
                    Duration {
                        nanos: ((self.end_display_time - self.start_display_time) * 1_000_000)
                            as u128,
                    },
                ),
            )
        }
    }

    fn subtitle_start_time(&self) -> (r: Option<Duration>)
        ensures
            r == self.time(),
    {
        if self.pts >= 0 {
            Some(self.pts_magnitude)
        } else {
            self.packet_start
        }
    }

    fn subtitle_end_time(&self, start: Option<Duration>) -> (r: Option<Duration>)
        requires
            start == self.shown_from(),
        ensures
            r == self.shown_until(),
    {
        match start {
            None => None,
            Some(start) => {
                if self.end_display_time <= self.start_display_time || self.end_display_time
                    == u32::MAX {
                    return None;
                }
                let millis: u64 = (self.end_display_time - self.start_display_time) as u64;
                Some(start.saturating_add(Duration::from_millis(millis)))
            },
        }
    }
}

/// A text that has something in it.
pub open spec fn shows_text(text: Option<String>) -> bool {
    text is Some && text->0@.len() > 0
}

/// The texts that the first `n` rectangles give.
pub open spec fn texts_of(rects: Seq<SubtitleRect>, n: int) -> Seq<SubtitleTextSegment>
    decreases n,
{
    if n <= 0 {
        Seq::empty()
    } else {
        let before = texts_of(rects, n - 1);
        match rects[n - 1] {
            SubtitleRect::Text { text, forced } => if shows_text(text) {
                before.push(
                    SubtitleTextSegment {
                        format: SubtitleTextFormat::PlainText,
                        text: text->0,
                        forced,
                    },
                )
            } else {
                before
            },
            SubtitleRect::Ass { text, forced } => if shows_text(text) {
                before.push(
                    SubtitleTextSegment { format: SubtitleTextFormat::Ass, text: text->0, forced },
                )
            } else {
                before
            },
            _ => before,
        }
    }
}

/// The pictures among the first `n` rectangles that have something to show.
pub open spec fn pictures_of(rects: Seq<SubtitleRect>, n: int) -> Seq<PaletteBitmap>
    decreases n,
{
    if n <= 0 {
        Seq::empty()
    } else {
        let before = pictures_of(rects, n - 1);
        match rects[n - 1] {
            SubtitleRect::Bitmap { bitmap, forced } => if bitmap.empty() {
                before
            } else {
                before.push(bitmap)
            },
            _ => before,
        }
    }
}

/// Whether one of the first `n` rectangles that is shown is forced.
pub open spec fn forced_among(rects: Seq<SubtitleRect>, n: int) -> bool
    decreases n,
{
    if n <= 0 {
        false
    } else {
        forced_among(rects, n - 1) || match rects[n - 1] {
            SubtitleRect::Text { text, forced } => shows_text(text) && forced,
            SubtitleRect::Ass { text, forced } => shows_text(text) && forced,
            SubtitleRect::Bitmap { bitmap, forced } => !bitmap.empty() && forced,
            SubtitleRect::Other => false,
        }
    }
}

/// Whether one of the first `n` rectangles is an ASS chunk that is shown.
pub open spec fn ass_among(rects: Seq<SubtitleRect>, n: int) -> bool
    decreases n,
{
    if n <= 0 {
        false
    } else {
        ass_among(rects, n - 1) || (rects[n - 1] matches SubtitleRect::Ass { text, forced }
            && shows_text(text))
    }
}

/// The first rectangle that cannot be read.
pub open spec fn unreadable(rect: SubtitleRect) -> bool {
    rect matches SubtitleRect::Bitmap { bitmap, forced } && !bitmap.empty() && !bitmap.readable()
}

/// Whether a plane shows a picture on a canvas.
pub open spec fn plane_shows(
    plane: SubtitleBitmapPlane,
    bitmap: PaletteBitmap,
    canvas: (u32, u32),
) -> bool {
    &&& plane.x == bitmap.x
    &&& plane.y == bitmap.y
    &&& plane.width == bitmap.width
    &&& plane.height == bitmap.height
    &&& plane.canvas_width == canvas.0
    &&& plane.canvas_height == canvas.1
    &&& plane.rgba@ == bitmap.rgba_rows(bitmap.height as int)
}

/// Whether `error` is the report of the first rectangle that cannot be read.
pub open spec fn reports_first_unreadable(error: FfmpegError, rects: Seq<SubtitleRect>) -> bool {
    exists|i: int|
        #![trigger rects[i]]
        0 <= i < rects.len() && unreadable(rects[i]) && error
            == rects[i]->bitmap.malformed() && forall|j: int|
            0 <= j < i ==> !unreadable(#[trigger] rects[j])
}

/// Turns what a decoder reports into a frame of a track. ASS chunks carry the resources of their
/// track along. The first picture that cannot be read makes the whole frame fail.
pub fn import_subtitle(
    track_id: i64,
    subtitle: &DecodedSubtitle,
    canvas: (u32, u32),
    ass_track: Option<Arc<AssTrackResources>>,
) -> (r: Result<DecodedSubtitleFrame, FfmpegError>)
    ensures
        r is Err <==> exists|i: int|
            0 <= i < subtitle.rects@.len() && unreadable(#[trigger] subtitle.rects@[i]),
        r matches Err(error) ==> reports_first_unreadable(error, subtitle.rects@),
        r matches Ok(frame) ==> {
            let n = subtitle.rects@.len() as int;
            &&& frame.track_id == track_id
            &&& frame.start == subtitle.shown_from()
            &&& frame.end == subtitle.shown_until()
            &&& frame.text@ == texts_of(subtitle.rects@, n)
            &&& frame.bitmap.planes@.len() == pictures_of(subtitle.rects@, n).len()
            &&& forall|i: int|
                0 <= i < frame.bitmap.planes@.len() ==> plane_shows(
                    #[trigger] frame.bitmap.planes@[i],
                    pictures_of(subtitle.rects@, n)[i],
                    canvas,
                )
            &&& frame.forced == forced_among(subtitle.rects@, n)
            &&& frame.ass_track == (if ass_among(subtitle.rects@, n) {
                ass_track
            } else {
                None
            })
        },
{
    let offset = Duration::from_millis(subtitle.start_display_time as u64);
    let start = match subtitle.subtitle_start_time() {
        Some(time) => Some(time.saturating_add(offset)),
        None => None,
    };
    let end = subtitle.subtitle_end_time(start);
    let mut frame = DecodedSubtitleFrame::new(track_id, start, end);
    let mut has_ass = false;
    let mut i: usize = 0;
    while i < subtitle.rects.len()
        invariant
            i <= subtitle.rects@.len(),
            forall|j: int| 0 <= j < i ==> !unreadable(#[trigger] subtitle.rects@[j]),
            frame.track_id == track_id,
            frame.start == subtitle.shown_from(),
            frame.end == subtitle.shown_until(),
            frame.text@ == texts_of(subtitle.rects@, i as int),
            frame.bitmap.planes@.len() == pictures_of(subtitle.rects@, i as int).len(),
            forall|j: int|
                0 <= j < frame.bitmap.planes@.len() ==> plane_shows(
                    #[trigger] frame.bitmap.planes@[j],
                    pictures_of(subtitle.rects@, i as int)[j],
                    canvas,
                ),
            frame.forced == forced_among(subtitle.rects@, i as int),
            has_ass == ass_among(subtitle.rects@, i as int),
            frame.ass_track is None,
        decreases subtitle.rects@.len() - i,
    {
        match &subtitle.rects[i] {
            SubtitleRect::Text { text, forced } => {
                if let Some(text) = text {
                    if !text.as_str().is_empty() {
                        frame.push_text(
                            SubtitleTextSegment {
                                format: SubtitleTextFormat::PlainText,
                                text: text.clone(),
                                forced: *forced,
                            },
                        );
                    }
                }
            },
            SubtitleRect::Ass { text, forced } => {
                if let Some(text) = text {
                    if !text.as_str().is_empty() {
                        has_ass = true;
                        frame.push_text(
                            SubtitleTextSegment {
                                format: SubtitleTextFormat::Ass,
                                text: text.clone(),
                                forced: *forced,
                            },
                        );
                    }
                }
            },
            SubtitleRect::Bitmap { bitmap, forced } => {
                match bitmap.to_rgba_plane(canvas.0, canvas.1) {
                    Ok(Some(plane)) => {
                        frame.push_bitmap_plane(plane, *forced);
                    },
                    Ok(None) => {},
                    Err(error) => {
                        assert(unreadable(subtitle.rects@[i as int]));
                        return Err(error);
                    },
                }
            },
            SubtitleRect::Other => {},
        }
        i = i + 1;
    }
    if has_ass {
        frame.ass_track = ass_track;
    }
    Ok(frame)
}

/// The most bytes of codec data that a track of ASS chunks may carry.
pub const MAX_ASS_CODEC_PRIVATE_BYTES: usize = 16_777_216;

/// The codec data of a track, where it is there and not too large. `size` is its size as the
/// container states it.
pub fn copy_ass_codec_private(data: Option<&Vec<u8>>, size: i32) -> (r: Option<Vec<u8>>)
    requires
        data matches Some(data) ==> 0 < size <= MAX_ASS_CODEC_PRIVATE_BYTES ==> size
            <= data@.len(),
    ensures
        r is Some <==> data is Some && 0 < size <= MAX_ASS_CODEC_PRIVATE_BYTES,
        r matches Some(copy) ==> copy@ == data->0@.subrange(0, size as int),
{
    match data {
        None => None,
        Some(data) => {
            if size <= 0 || size as usize > MAX_ASS_CODEC_PRIVATE_BYTES {
                return None;
            }
            let mut out: Vec<u8> = Vec::new();
            let mut i: usize = 0;
            let total: usize = size as usize;
            while i < total
                invariant
                    i <= total <= data@.len(),
                    out@ =~= data@.subrange(0, i as int),
                decreases total - i,
            {
                out.push(data[i]);
                i = i + 1;
            }
            Some(out)
        },
    }
}

/// A candidate of the queues from which the next subtitle is taken.
#[derive(Clone, Copy, Debug, PartialEq, Eq, Structural)]
pub enum SubtitleQueueCandidate {
    Embedded { start: Duration },
    External { index: usize, start: Duration },
}

impl SubtitleQueueCandidate {
    /// When the candidate is due.
    pub open spec fn due(self) -> Duration {
        match self {
            SubtitleQueueCandidate::Embedded { start } => start,
            SubtitleQueueCandidate::External { index, start } => start,
        }
    }

    pub fn start(&self) -> (r: Duration)
        ensures
            r == self.due(),
    {
        match self {
            SubtitleQueueCandidate::Embedded { start } => *start,
            SubtitleQueueCandidate::External { start, .. } => *start,
        }
    }
}

/// The candidates in the order in which they are preferred: the external queues, then the
/// embedded one.
pub open spec fn candidates(
    embedded_start: Option<Duration>,
    external_starts: Seq<(usize, Duration)>,
) -> Seq<SubtitleQueueCandidate> {
    let external = external_starts.map_values(
        |entry: (usize, Duration)|
            SubtitleQueueCandidate::External { index: entry.0, start: entry.1 },
    );
    match embedded_start {
        Some(start) => external.push(SubtitleQueueCandidate::Embedded { start }),
        None => external,
    }
}

/// Whether the candidate at `at` is the one to take: it is due, none that is due starts earlier,
/// and of those that start with it, it is the first.
pub open spec fn taken_at(
    all: Seq<SubtitleQueueCandidate>,
    media_time: Duration,
    at: int,
) -> bool {
    &&& 0 <= at < all.len()
    &&& all[at].due().nanos <= media_time.nanos
    &&& forall|j: int| 0 <= j < at ==> (#[trigger] all[j]).due().nanos > all[at].due().nanos
    &&& forall|j: int| at < j < all.len() ==> (#[trigger] all[j]).due().nanos
        >= all[at].due().nanos
}

/// The subtitle to show next: the earliest that is due, an external one before an embedded one.
pub fn select_ready_subtitle(
    embedded_start: Option<Duration>,
    external_starts: &Vec<(usize, Duration)>,
    media_time: Duration,
) -> (r: Option<SubtitleQueueCandidate>)
    ensures
        ({
            let all = candidates(embedded_start, external_starts@);
            match r {
                Some(candidate) => exists|at: int|
                    #[trigger] taken_at(all, media_time, at) && all[at] == candidate,
                None => forall|i: int|
                    0 <= i < all.len() ==> (#[trigger] all[i]).due().nanos > media_time.nanos,
            }
        }),
{
    let ghost all = candidates(embedded_start, external_starts@);
    let ghost mut at: int = -1;
    let mut best: Option<SubtitleQueueCandidate> = None;
    let mut i: usize = 0;
    while i < external_starts.len()
        invariant
            i <= external_starts@.len(),
            all == candidates(embedded_start, external_starts@),
            best is None ==> forall|j: int|
                0 <= j < i ==> (#[trigger] all[j]).due().nanos > media_time.nanos,
            best matches Some(candidate) ==> {
                &&& 0 <= at < i
                &&& all[at] == candidate
                &&& all[at].due().nanos <= media_time.nanos
                &&& forall|j: int|
                    0 <= j < at ==> (#[trigger] all[j]).due().nanos > all[at].due().nanos
                &&& forall|j: int|
                    at < j < i ==> (#[trigger] all[j]).due().nanos >= all[at].due().nanos
            },
        decreases external_starts@.len() - i,
    {
        let entry = external_starts[i];
        let start = entry.1;
        assert(all[i as int] == SubtitleQueueCandidate::External { index: entry.0, start });
        if start.nanos <= media_time.nanos {
            let earlier = match &best {
                Some(candidate) => start.nanos < candidate.start().nanos,
                None => true,
            };
            if earlier {
                best = Some(SubtitleQueueCandidate::External { index: entry.0, start });
                proof {
                    at = i as int;
                }
            }
        }
        i = i + 1;
    }
    let ghost queues = external_starts@.len() as int;
    if let Some(start) = embedded_start {
        assert(all[queues] == SubtitleQueueCandidate::Embedded { start });
        if start.nanos <= media_time.nanos {
            let earlier = match &best {
                Some(candidate) => start.nanos < candidate.start().nanos,
                None => true,
            };
            if earlier {
                best = Some(SubtitleQueueCandidate::Embedded { start });
                proof {
                    at = queues;
                }
            }
        }
    }
    assert(best is Some ==> taken_at(all, media_time, at));
    best
}

/// The subtitle to take is unique: no two places of the candidates satisfy the choice.
pub proof fn law_the_next_subtitle_is_unique(
    all: Seq<SubtitleQueueCandidate>,
    media_time: Duration,
    a: int,
    b: int,
)
    requires
        taken_at(all, media_time, a),
        taken_at(all, media_time, b),
    ensures
        a == b,
{
}

/// A subtitle is shown as many milliseconds behind its own time as its decoder says, and taken down
/// as many behind that as lie between the two; where the decoder gives no end, it stays.
pub proof fn law_a_subtitle_is_shown_at_its_time(packet: DecodedSubtitle, time: Duration)
    requires
        packet.pts >= 0 ==> time == packet.pts_magnitude,
        packet.pts < 0 ==> packet.packet_start == Some(time),
        time.nanos + u32::MAX * 2_000_000 <= crate::time::MAX_DURATION_NANOS,
    ensures
        packet.shown_from() is Some,
        packet.shown_from()->0.nanos == time.nanos + packet.start_display_time * 1_000_000,
        packet.shown_until() is Some <==> (packet.start_display_time < packet.end_display_time
            < u32::MAX),
        packet.shown_until() is Some ==> packet.shown_until()->0.nanos == time.nanos
            + packet.end_display_time * 1_000_000,
{
}

/// A subtitle without any time of its own or of its packet is shown at once and stays.
pub proof fn law_a_subtitle_without_time_has_none(packet: DecodedSubtitle)
    requires
        packet.pts < 0,
        packet.packet_start is None,
    ensures
        packet.shown_from() is None,
        packet.shown_until() is None,
{
}

/// The texts of a subtitle are those of its rectangles that hold any, in their order, each as it
/// stands there, and one more rectangle adds at most one text behind the others.
pub proof fn law_texts_come_in_the_order_of_their_rectangles(rects: Seq<SubtitleRect>, n: int)
    requires
        0 < n <= rects.len(),
    ensures
        texts_of(rects, 0).len() == 0,
        match rects[n - 1] {
            SubtitleRect::Text { text, forced } => if text is Some && text->0@.len() > 0 {
                &&& texts_of(rects, n).len() == texts_of(rects, n - 1).len() + 1
                &&& texts_of(rects, n).drop_last() == texts_of(rects, n - 1)
                &&& texts_of(rects, n).last().text == text->0
                &&& texts_of(rects, n).last().forced == forced
                &&& texts_of(rects, n).last().format == SubtitleTextFormat::PlainText
            } else {
                texts_of(rects, n) == texts_of(rects, n - 1)
            },
            SubtitleRect::Ass { text, forced } => if text is Some && text->0@.len() > 0 {
                &&& texts_of(rects, n).len() == texts_of(rects, n - 1).len() + 1
                &&& texts_of(rects, n).drop_last() == texts_of(rects, n - 1)
                &&& texts_of(rects, n).last().text == text->0
                &&& texts_of(rects, n).last().forced == forced
                &&& texts_of(rects, n).last().format == SubtitleTextFormat::Ass
            } else {
                texts_of(rects, n) == texts_of(rects, n - 1)
            },
            _ => texts_of(rects, n) == texts_of(rects, n - 1),
        },
{
}

/// The pictures of a subtitle are those of its rectangles that have a size, in their order.
pub proof fn law_pictures_come_in_the_order_of_their_rectangles(rects: Seq<SubtitleRect>, n: int)
    requires
        0 < n <= rects.len(),
    ensures
        pictures_of(rects, 0).len() == 0,
        match rects[n - 1] {
            SubtitleRect::Bitmap { bitmap, forced } => if bitmap.width > 0 && bitmap.height > 0 {
                &&& pictures_of(rects, n).len() == pictures_of(rects, n - 1).len() + 1
                &&& pictures_of(rects, n).drop_last() == pictures_of(rects, n - 1)
                &&& pictures_of(rects, n).last() == bitmap
            } else {
                pictures_of(rects, n) == pictures_of(rects, n - 1)
            },
            _ => pictures_of(rects, n) == pictures_of(rects, n - 1),
        },
{
}

/// A subtitle is forced exactly when one of its rectangles that shows something is.
pub proof fn law_one_forced_rectangle_forces_the_subtitle(rects: Seq<SubtitleRect>, n: int)
    requires
        0 <= n <= rects.len(),
    ensures
        forced_among(rects, n) <==> exists|i: int|
            #![trigger rects[i]]
            0 <= i < n && match rects[i] {
                SubtitleRect::Text { text, forced } => forced && text is Some && text->0@.len() > 0,
                SubtitleRect::Ass { text, forced } => forced && text is Some && text->0@.len() > 0,
                SubtitleRect::Bitmap { bitmap, forced } => forced && bitmap.width > 0
                    && bitmap.height > 0,
                SubtitleRect::Other => false,
            },
        ass_among(rects, n) <==> exists|i: int|
            #![trigger rects[i]]
            0 <= i < n && rects[i] is Ass && rects[i]->Ass_text is Some
                && rects[i]->Ass_text->0@.len() > 0,
    decreases n,
{
    if n > 0 {
        law_one_forced_rectangle_forces_the_subtitle(rects, n - 1);
        let last = rects[n - 1];
        assert(forced_among(rects, n - 1) ==> forced_among(rects, n));
    }
}

/// The next subtitle is one that is due, and no other that waits starts earlier.
pub proof fn law_the_earliest_subtitle_comes_first(
    embedded: Option<Duration>,
    external: Seq<(usize, Duration)>,
    media_time: Duration,
    at: int,
)
    requires
        taken_at(candidates(embedded, external), media_time, at),
    ensures
        ({
            let all = candidates(embedded, external);
            let chosen = all[at];
            let start = match chosen {
                SubtitleQueueCandidate::Embedded { start } => start,
                SubtitleQueueCandidate::External { index, start } => start,
            };
            &&& start.nanos <= media_time.nanos
            &&& embedded is Some ==> start.nanos <= embedded->0.nanos
            &&& forall|i: int|
                0 <= i < external.len() ==> start.nanos <= (#[trigger] external[i]).1.nanos
            &&& chosen is Embedded ==> embedded == Some(start)
            &&& chosen is External ==> at < external.len() && external[at] == (
                chosen->index,
                start,
            )
            &&& embedded is Some && chosen is Embedded ==> forall|i: int|
                0 <= i < external.len() ==> start.nanos < (#[trigger] external[i]).1.nanos
        }),
{
    let all = candidates(embedded, external);
    assert(forall|i: int|
        0 <= i < external.len() ==> (#[trigger] external[i]).1 == all[i].due());
    if embedded is Some {
        assert(all[external.len() as int].due() == embedded->0);
    }
}

/// A subtitle is left waiting only while none is due: as soon as one is, one is taken.
pub proof fn law_a_due_subtitle_does_not_wait(
    all: Seq<SubtitleQueueCandidate>,
    media_time: Duration,
    i: int,
)
    requires
        0 <= i < all.len(),
        all[i].due().nanos <= media_time.nanos,
    ensures
        exists|at: int| #[trigger] taken_at(all, media_time, at),
    decreases all[i].due().nanos, i,
{
    if !taken_at(all, media_time, i) {
        let j = choose|j: int|
            0 <= j < all.len() && ((j < i && (#[trigger] all[j]).due().nanos <= all[i].due().nanos)
                || (j > i && all[j].due().nanos < all[i].due().nanos));
        law_a_due_subtitle_does_not_wait(all, media_time, j);
    }
}

/// A subtitle without a start is due at once, any other at its start.
pub proof fn law_a_subtitle_without_start_is_due_at_once(frame: DecodedSubtitleFrame)
    ensures
        frame.start is None ==> start_of(frame).nanos == 0,
        frame.start is Some ==> start_of(frame) == frame.start->0,
{
}

/// A picture is shown where it belongs, in its own size, with the bytes of its own pixels.
pub proof fn law_a_plane_lies_where_its_picture_does(
    plane: SubtitleBitmapPlane,
    bitmap: PaletteBitmap,
    canvas: (u32, u32),
)
    requires
        plane_shows(plane, bitmap, canvas),
        bitmap.width > 0,
        bitmap.height > 0,
    ensures
        plane.x == bitmap.x,
        plane.y == bitmap.y,
        plane.width == bitmap.width,
        plane.height == bitmap.height,
        plane.canvas_width == canvas.0,
        plane.canvas_height == canvas.1,
        plane.rgba@.len() == 4 * bitmap.width * bitmap.height,
{
    lemma_rgba_length(bitmap, bitmap.height as int);
}

/// A picture that has a size is refused exactly when a row or a colour of it cannot be read, and one
/// without a size never is.
pub proof fn law_only_unreadable_pictures_are_refused(bitmap: PaletteBitmap, forced: bool)
    ensures
        bitmap.width <= 0 || bitmap.height <= 0 ==> !unreadable(
            (SubtitleRect::Bitmap { bitmap, forced }),
        ),
        bitmap.width > 0 && bitmap.height > 0 && (bitmap.palette is None || bitmap.pixels.bytes
            is None || bitmap.colors <= 0 || bitmap.colors > 256) ==> unreadable(
            (SubtitleRect::Bitmap { bitmap, forced }),
        ),
        !unreadable(SubtitleRect::Other),
        bitmap.malformed() is InvalidSubtitleBitmap,
        bitmap.malformed()->InvalidSubtitleBitmap_width == bitmap.width,
        bitmap.malformed()->InvalidSubtitleBitmap_height == bitmap.height,
        bitmap.malformed()->colors == bitmap.colors,
{
}

/// The report of a subtitle that cannot be read speaks of its first such picture.
pub proof fn law_the_first_unreadable_picture_is_reported(
    error: FfmpegError,
    rects: Seq<SubtitleRect>,
    i: int,
)
    requires
        reports_first_unreadable(error, rects),
        0 <= i < rects.len(),
        rects[i] is Bitmap,
        unreadable(rects[i]),
        forall|j: int| 0 <= j < i ==> !unreadable(#[trigger] rects[j]),
    ensures
        error is InvalidSubtitleBitmap,
        error->InvalidSubtitleBitmap_width == rects[i]->bitmap.width,
        error->InvalidSubtitleBitmap_height == rects[i]->bitmap.height,
        error->InvalidSubtitleBitmap_stride == rects[i]->bitmap.pixels.stride,
        error->colors == rects[i]->bitmap.colors,
{
}

/// A subtitle holds an ASS chunk exactly when one of its texts is one.
pub proof fn law_one_ass_text_makes_it_ass(frame: DecodedSubtitleFrame, i: int)
    requires
        0 <= i < frame.text@.len(),
    ensures
        frame.text@[i].format == SubtitleTextFormat::Ass ==> frame.holds_ass(),
        (forall|j: int|
            0 <= j < frame.text@.len() ==> (#[trigger] frame.text@[j]).format
                != SubtitleTextFormat::Ass) ==> !frame.holds_ass(),
{
}

/// A blank subtitle has its track and its times, and nothing to show.
pub proof fn law_a_blank_subtitle_has_only_its_times(
    frame: DecodedSubtitleFrame,
    track_id: i64,
    start: Option<Duration>,
    end: Option<Duration>,
)
    ensures
        frame.blank(track_id, start, end) <==> (frame.track_id == track_id && frame.start == start
            && frame.end == end && frame.text@.len() == 0 && frame.bitmap.planes@.len() == 0
            && !frame.forced && frame.ass_track is None),
{
}

} // verus!
