//! Decoded frames and their repacking into planes that a renderer uploads.
use crate::color::{
    color_primaries, color_range, matrix_coefficients, transfer_function, ColorRange,
    MatrixCoefficients,
};
use crate::media::{ColorPrimaries, TransferFunction};
use crate::packet::{timestamp_in, timestamp_value, PacketTimestamp, TimeBase};
use crate::text::{copied_text, decimal_text, joined};
use crate::time::Duration;
use vstd::prelude::*;

verus! {

/// The layout of a decoded picture.
#[derive(Clone, Copy, Debug, PartialEq, Eq, Structural)]
pub enum PixelFormat {
    /// No format.
    Unset,
    /// 8-bit planar 4:2:0.
    Yuv420p,
    /// 8-bit 4:2:0 with interleaved chroma.
    Nv12,
    /// 10-bit planar 4:2:0 in little-endian words.
    Yuv420p10Le,
    /// 10-bit 4:2:0 with interleaved chroma, in the high bits of little-endian words.
    P010Le,
    VideoToolbox,
    D3d11,
    MediaCodec,
    /// Any other format, by its number.
    Other(i32),
}

/// One plane of a picture: rows of bytes, `stride` apart.
#[derive(Clone, Debug, PartialEq, Eq)]
pub struct Plane {
    pub stride: i32,
    pub bytes: Option<Vec<u8>>,
}

impl Plane {
    /// The distance of two rows.
    pub open spec fn row_stride(self) -> int {
        if self.stride < 0 { 0 } else { self.stride as int }
    }

    /// Whether `rows` rows of `row_bytes` bytes can be read.
    pub open spec fn holds_rows(self, row_bytes: int, rows: int) -> bool {
        &&& self.bytes is Some
        &&& row_bytes <= self.row_stride()
        &&& rows > 0 ==> (rows - 1) * self.row_stride() + row_bytes <= self.bytes->0@.len()
    }

    /// A byte of a row.
    pub open spec fn at(self, row: int, offset: int) -> u8 {
        self.bytes->0@[row * self.row_stride() + offset]
    }

    /// Whether `rows` rows of `row_bytes` bytes can be read.
    pub(crate) fn can_read(&self, row_bytes: u64, rows: u64) -> (r: bool)
        requires
            row_bytes <= u32::MAX,
            rows <= u32::MAX,
        ensures
            r == self.holds_rows(row_bytes as int, rows as int),
    {
        let stride: u64 = if self.stride < 0 {
            0
        } else {
            self.stride as u64
        };
        match &self.bytes {
            None => false,
            Some(bytes) => {
                if stride < row_bytes {
                    return false;
                }
                if rows == 0 {
                    return true;
                }
                assert(0 <= (rows - 1) * stride <= 0xffff_ffff * 0x7fff_ffff) by (nonlinear_arith)
                    requires
                        0 <= rows - 1 <= 0xffff_ffff,
                        0 <= stride <= 0x7fff_ffff,
                ;
                let needed: u128 = (rows - 1) as u128 * stride as u128 + row_bytes as u128;
                needed <= bytes.len() as u128
            },
        }
    }

    /// A byte of a row.
    pub(crate) fn byte(&self, row: u64, offset: u64, Ghost(row_bytes): Ghost<int>, Ghost(rows): Ghost<int>)
        -> (r: u8)
        requires
            self.holds_rows(row_bytes, rows),
            row < rows,
            offset < row_bytes,
        ensures
            r == self.at(row as int, offset as int),
    {
        let stride: u64 = if self.stride < 0 {
            0
        } else {
            self.stride as u64
        };
        match &self.bytes {
            Some(bytes) => {
                let total: usize = bytes.len();
                assert(row * stride <= (rows - 1) * stride) by (nonlinear_arith)
                    requires
                        row <= rows - 1,
                        0 <= stride,
                ;
                assert(0 <= row * stride) by (nonlinear_arith)
                    requires
                        0 <= row,
                        0 <= stride,
                ;
                assert(row * stride + offset < total);
                let start: usize = (row as u128 * stride as u128) as usize;
                bytes[start + offset as usize]
            },
            None => 0,
        }
    }
}

/// Half of an extent, rounded up.
pub open spec fn half_up(n: int) -> int {
    (n + 1) / 2
}

/// The rows of a plane, each cut to `row_bytes` bytes, one behind the other.
pub open spec fn packed_rows(plane: Plane, row_bytes: int, rows: int) -> Seq<u8>
    decreases rows,
{
    if rows <= 0 {
        Seq::empty()
    } else {
        packed_rows(plane, row_bytes, rows - 1) + Seq::new(
            row_bytes as nat,
            |i: int| plane.at(rows - 1, i),
        )
    }
}

/// The rows of two planes, byte by byte in turn.
pub open spec fn interleaved_rows(first: Plane, second: Plane, samples: int, rows: int) -> Seq<u8>
    decreases rows,
{
    if rows <= 0 {
        Seq::empty()
    } else {
        interleaved_rows(first, second, samples, rows - 1) + Seq::new(
            (2 * samples) as nat,
            |i: int|
                if i % 2 == 0 {
                    first.at(rows - 1, i / 2)
                } else {
                    second.at(rows - 1, i / 2)
                },
        )
    }
}

/// A byte of a 10-bit sample that is moved to the high bits of its little-endian word.
pub open spec fn raised_byte(low: u8, high: u8, which: int) -> u8 {
    let word = ((low + 256 * high) % 1024) * 64;
    if which == 0 { (word % 256) as u8 } else { (word / 256) as u8 }
}

/// A byte of a sample of a row, after the sample was moved to the high bits of its word.
pub open spec fn raised_at(plane: Plane, row: int, sample: int, which: int) -> u8 {
    raised_byte(plane.at(row, 2 * sample), plane.at(row, 2 * sample + 1), which)
}

/// The 10-bit rows of a plane, each sample moved to the high bits of its word.
pub open spec fn raised_rows(plane: Plane, samples: int, rows: int) -> Seq<u8>
    decreases rows,
{
    if rows <= 0 {
        Seq::empty()
    } else {
        raised_rows(plane, samples, rows - 1) + Seq::new(
            (2 * samples) as nat,
            |i: int| raised_at(plane, rows - 1, i / 2, i % 2),
        )
    }
}

/// The 10-bit rows of two planes, sample by sample in turn, each sample moved to the high bits of
/// its word.
pub open spec fn raised_interleaved_rows(
    first: Plane,
    second: Plane,
    samples: int,
    rows: int,
) -> Seq<u8>
    decreases rows,
{
    if rows <= 0 {
        Seq::empty()
    } else {
        raised_interleaved_rows(first, second, samples, rows - 1) + Seq::new(
            (4 * samples) as nat,
            |i: int|
                if i % 4 < 2 {
                    raised_at(first, rows - 1, i / 4, i % 2)
                } else {
                    raised_at(second, rows - 1, i / 4, i % 2)
                },
        )
    }
}

fn pack_rows(plane: &Plane, row_bytes: u64, rows: u64) -> (r: Option<Vec<u8>>)
    requires
        row_bytes <= u32::MAX,
        rows <= u32::MAX,
    ensures
        r is Some <==> plane.holds_rows(row_bytes as int, rows as int),
        r matches Some(bytes) ==> bytes@ == packed_rows(*plane, row_bytes as int, rows as int),
{
    if !plane.can_read(row_bytes, rows) {
        return None;
    }
    let mut out: Vec<u8> = Vec::new();
    let mut row: u64 = 0;
    while row < rows
        invariant
            row <= rows,
            plane.holds_rows(row_bytes as int, rows as int),
            out@ == packed_rows(*plane, row_bytes as int, row as int),
        decreases rows - row,
    {
        let ghost before = out@;
        let mut col: u64 = 0;
        while col < row_bytes
            invariant
                col <= row_bytes,
                row < rows,
                plane.holds_rows(row_bytes as int, rows as int),
                out@ =~= before + Seq::new(col as nat, |i: int| plane.at(row as int, i)),
            decreases row_bytes - col,
        {
            out.push(plane.byte(row, col, Ghost(row_bytes as int), Ghost(rows as int)));
            col = col + 1;
        }
        row = row + 1;
    }
    Some(out)
}

fn interleave_rows(first: &Plane, second: &Plane, samples: u64, rows: u64) -> (r: Option<Vec<u8>>)
    requires
        samples <= u32::MAX,
        rows <= u32::MAX,
    ensures
        r is Some <==> first.holds_rows(samples as int, rows as int) && second.holds_rows(
            samples as int,
            rows as int,
        ),
        r matches Some(bytes) ==> bytes@ == interleaved_rows(
            *first,
            *second,
            samples as int,
            rows as int,
        ),
{
    if !first.can_read(samples, rows) || !second.can_read(samples, rows) {
        return None;
    }
    let mut out: Vec<u8> = Vec::new();
    let mut row: u64 = 0;
    while row < rows
        invariant
            row <= rows,
            first.holds_rows(samples as int, rows as int),
            second.holds_rows(samples as int, rows as int),
            out@ == interleaved_rows(*first, *second, samples as int, row as int),
        decreases rows - row,
    {
        let ghost before = out@;
        let mut col: u64 = 0;
        while col < samples
            invariant
                col <= samples,
                row < rows,
                first.holds_rows(samples as int, rows as int),
                second.holds_rows(samples as int, rows as int),
                out@ =~= before + Seq::new(
                    (2 * col) as nat,
                    |i: int|
                        if i % 2 == 0 {
                            first.at(row as int, i / 2)
                        } else {
                            second.at(row as int, i / 2)
                        },
                ),
            decreases samples - col,
        {
            out.push(first.byte(row, col, Ghost(samples as int), Ghost(rows as int)));
            out.push(second.byte(row, col, Ghost(samples as int), Ghost(rows as int)));
            col = col + 1;
        }
        row = row + 1;
    }
    Some(out)
}

fn push_raised(out: &mut Vec<u8>, low: u8, high: u8)
    ensures
        final(out)@ == old(out)@.push(raised_byte(low, high, 0)).push(raised_byte(low, high, 1)),
{
    let word: u16 = ((low as u16 + 256 * high as u16) % 1024) * 64;
    out.push((word % 256) as u8);
    out.push((word / 256) as u8);
}

fn raise_rows(plane: &Plane, samples: u64, rows: u64) -> (r: Option<Vec<u8>>)
    requires
        2 * samples <= u32::MAX,
        rows <= u32::MAX,
    ensures
        r is Some <==> plane.holds_rows(2 * samples, rows as int),
        r matches Some(bytes) ==> bytes@ == raised_rows(*plane, samples as int, rows as int),
{
    if !plane.can_read(2 * samples, rows) {
        return None;
    }
    let mut out: Vec<u8> = Vec::new();
    let mut row: u64 = 0;
    while row < rows
        invariant
            row <= rows,
            2 * samples <= u32::MAX,
            plane.holds_rows(2 * samples, rows as int),
            out@ == raised_rows(*plane, samples as int, row as int),
        decreases rows - row,
    {
        let ghost before = out@;
        let mut col: u64 = 0;
        while col < samples
            invariant
                col <= samples,
                row < rows,
                2 * samples <= u32::MAX,
                plane.holds_rows(2 * samples, rows as int),
                out@ =~= before + Seq::new(
                    (2 * col) as nat,
                    |i: int| raised_at(*plane, row as int, i / 2, i % 2),
                ),
            decreases samples - col,
        {
            let low: u8 = plane.byte(row, 2 * col, Ghost(2 * samples), Ghost(rows as int));
            let high: u8 = plane.byte(row, 2 * col + 1, Ghost(2 * samples), Ghost(rows as int));
            push_raised(&mut out, low, high);
            col = col + 1;
        }
        row = row + 1;
    }
    Some(out)
}

fn raise_interleaved_rows(first: &Plane, second: &Plane, samples: u64, rows: u64) -> (r: Option<
    Vec<u8>,
>)
    requires
        2 * samples <= u32::MAX,
        rows <= u32::MAX,
    ensures
        r is Some <==> first.holds_rows(2 * samples, rows as int) && second.holds_rows(
            2 * samples,
            rows as int,
        ),
        r matches Some(bytes) ==> bytes@ == raised_interleaved_rows(
            *first,
            *second,
            samples as int,
            rows as int,
        ),
{
    if !first.can_read(2 * samples, rows) || !second.can_read(2 * samples, rows) {
        return None;
    }
    let mut out: Vec<u8> = Vec::new();
    let mut row: u64 = 0;
    while row < rows
        invariant
            row <= rows,
            2 * samples <= u32::MAX,
            first.holds_rows(2 * samples, rows as int),
            second.holds_rows(2 * samples, rows as int),
            out@ == raised_interleaved_rows(*first, *second, samples as int, row as int),
        decreases rows - row,
    {
        let ghost before = out@;
        let mut col: u64 = 0;
        while col < samples
            invariant
                col <= samples,
                row < rows,
                2 * samples <= u32::MAX,
                first.holds_rows(2 * samples, rows as int),
                second.holds_rows(2 * samples, rows as int),
                out@ =~= before + Seq::new(
                    (4 * col) as nat,
                    |i: int|
                        if i % 4 < 2 {
                            raised_at(*first, row as int, i / 4, i % 2)
                        } else {
                            raised_at(*second, row as int, i / 4, i % 2)
                        },
                ),
            decreases samples - col,
        {
            let low: u8 = first.byte(row, 2 * col, Ghost(2 * samples), Ghost(rows as int));
            let high: u8 = first.byte(row, 2 * col + 1, Ghost(2 * samples), Ghost(rows as int));
            push_raised(&mut out, low, high);
            let low: u8 = second.byte(row, 2 * col, Ghost(2 * samples), Ghost(rows as int));
            let high: u8 = second.byte(row, 2 * col + 1, Ghost(2 * samples), Ghost(rows as int));
            push_raised(&mut out, low, high);
            col = col + 1;
        }
        row = row + 1;
    }
    Some(out)
}

/// Tightly packed NV12 planes: an 8-bit luma plane of `width * height` samples and an interleaved
/// Cb/Cr plane of half the extent, rounded up, each way.
#[derive(Clone, Debug, PartialEq, Eq)]
pub struct Nv12Frame {
    pub width: u32,
    pub height: u32,
    pub luma: Vec<u8>,
    pub chroma: Vec<u8>,
}

/// The format in which a renderer uploads a repacked frame.
#[derive(Clone, Copy, Debug, PartialEq, Eq, Structural)]
pub enum PlanarPixelFormat {
    /// 8-bit luma and interleaved 8-bit chroma.
    Nv12,
    /// 10-bit luma and interleaved chroma, in the high bits of little-endian words.
    P010,
}

impl PlanarPixelFormat {
    /// The name of the format.
    pub open spec fn name(self) -> Seq<char> {
        match self {
            PlanarPixelFormat::Nv12 => "Nv12"@,
            PlanarPixelFormat::P010 => "P010"@,
        }
    }

    pub fn as_str(self) -> (r: &'static str)
        ensures
            r@ == self.name(),
    {
        match self {
            PlanarPixelFormat::Nv12 => "Nv12",
            PlanarPixelFormat::P010 => "P010",
        }
    }
}

/// A tightly packed frame. The planes hold raw bytes: one for a sample of
/// [`PlanarPixelFormat::Nv12`], two in little-endian order for one of
/// [`PlanarPixelFormat::P010`]. Chroma is interleaved Cb/Cr of half the extent, rounded up.
#[derive(Clone, Debug, PartialEq, Eq)]
pub struct PlanarFrame {
    pub format: PlanarPixelFormat,
    pub width: u32,
    pub height: u32,
    pub luma: Vec<u8>,
    pub chroma: Vec<u8>,
}

#[derive(Clone, Debug, PartialEq, Eq)]
pub enum PlanarFrameConversionError {
    ExpectedP010 { format: PlanarPixelFormat },
    InvalidP010PlaneSize {
        plane: &'static str,
        actual: usize,
        expected: usize,
        width: u32,
        height: u32,
    },
    DimensionsOverflow { width: u32, height: u32 },
}

impl PlanarFrameConversionError {
    /// The text that describes the error.
    pub open spec fn text(self) -> Seq<char> {
        match self {
            PlanarFrameConversionError::ExpectedP010 {
                format,
            } => "P010 to NV12 conversion requires P010 input, got "@ + format.name(),
            PlanarFrameConversionError::InvalidP010PlaneSize {
                plane,
                actual,
                expected,
                width,
                height,
            } => "P010 "@ + plane@ + " plane is "@ + crate::text::decimal(actual as nat)
                + " bytes, expected "@ + crate::text::decimal(expected as nat) + " for "@
                + crate::text::decimal(width as nat) + "x"@ + crate::text::decimal(height as nat),
            PlanarFrameConversionError::DimensionsOverflow {
                width,
                height,
            } => "P010 plane dimensions overflow host address space for "@ + crate::text::decimal(
                width as nat,
            ) + "x"@ + crate::text::decimal(height as nat),
        }
    }

    pub fn message(&self) -> (r: String)
        ensures
            r@ == self.text(),
    {
        match self {
            PlanarFrameConversionError::ExpectedP010 { format } => joined(
                "P010 to NV12 conversion requires P010 input, got ",
                format.as_str(),
            ),
            PlanarFrameConversionError::InvalidP010PlaneSize {
                plane,
                actual,
                expected,
                width,
                height,
            } => {
                let mut out = joined("P010 ", *plane);
                out.append(" plane is ");
                out.append(decimal_text(*actual as u128).as_str());
                out.append(" bytes, expected ");
                out.append(decimal_text(*expected as u128).as_str());
                out.append(" for ");
                out.append(decimal_text(*width as u128).as_str());
                out.append("x");
                out.append(decimal_text(*height as u128).as_str());
                out
            },
            PlanarFrameConversionError::DimensionsOverflow { width, height } => {
                let mut out = joined(
                    "P010 plane dimensions overflow host address space for ",
                    decimal_text(*width as u128).as_str(),
                );
                out.append("x");
                out.append(decimal_text(*height as u128).as_str());
                out
            },
        }
    }
}

/// The 8-bit sample nearest to a 10-bit sample that stands in the high bits of a word.
pub open spec fn lowered_sample(low: u8, high: u8) -> u8 {
    let code = (low + 256 * high) / 64;
    crate::time::min_int((code + 2) / 4, 255) as u8
}

/// The 8-bit samples of a plane of 10-bit samples; a byte without its pair is left out.
pub open spec fn lowered_samples(source: Seq<u8>) -> Seq<u8> {
    Seq::new(source.len() / 2, |i: int| lowered_sample(source[2 * i], source[2 * i + 1]))
}

/// The bytes of the luma plane of a P010 frame.
pub open spec fn p010_luma_bytes(width: u32, height: u32) -> int {
    2 * (width * height)
}

/// The bytes of the chroma plane of a P010 frame.
pub open spec fn p010_chroma_bytes(width: u32, height: u32) -> int {
    4 * (half_up(width as int) * half_up(height as int))
}

pub fn downconvert_p010_samples_to_u8(source: &Vec<u8>) -> (r: Vec<u8>)
    ensures
        r@ == lowered_samples(source@),
{
    let total: usize = source.len() / 2;
    let mut out: Vec<u8> = Vec::new();
    let mut i: usize = 0;
    while i < total
        invariant
            i <= total,
            total == source@.len() / 2,
            2 * total <= source@.len() <= usize::MAX,
            out@ =~= lowered_samples(source@).subrange(0, i as int),
        decreases total - i,
    {
        let low: u8 = source[2 * i];
        let high: u8 = source[2 * i + 1];
        let code: u16 = (low as u16 + 256 * high as u16) / 64;
        let rounded: u16 = (code + 2) / 4;
        let sample: u8 = if rounded > 255 {
            255
        } else {
            rounded as u8
        };
        out.push(sample);
        i = i + 1;
    }
    out
}

impl PlanarFrame {
    /// Turns a P010 frame into an NV12 frame, each sample rounded to the nearest 8-bit one.
    pub fn downconvert_p010_to_nv12(self) -> (r: Result<Self, PlanarFrameConversionError>)
        ensures
            self.format != PlanarPixelFormat::P010 ==> r == Err::<
                Self,
                PlanarFrameConversionError,
            >(PlanarFrameConversionError::ExpectedP010 { format: self.format }),
            self.format == PlanarPixelFormat::P010 ==> {
                let luma = p010_luma_bytes(self.width, self.height);
                let chroma = p010_chroma_bytes(self.width, self.height);
                if luma > usize::MAX || chroma > usize::MAX {
                    r == Err::<Self, PlanarFrameConversionError>(
                        PlanarFrameConversionError::DimensionsOverflow {
                            width: self.width,
                            height: self.height,
                        },
                    )
                } else if self.luma@.len() != luma {
                    r is Err && size_error(r->Err_0, self, "luma"@, self.luma@.len(), luma)
                } else if self.chroma@.len() != chroma {
                    r is Err && size_error(r->Err_0, self, "chroma"@, self.chroma@.len(), chroma)
                } else {
                    &&& r is Ok
                    &&& r->Ok_0.format == PlanarPixelFormat::Nv12
                    &&& r->Ok_0.width == self.width
                    &&& r->Ok_0.height == self.height
                    &&& r->Ok_0.luma@ == lowered_samples(self.luma@)
                    &&& r->Ok_0.chroma@ == lowered_samples(self.chroma@)
                }
            },
    {
        if self.format != PlanarPixelFormat::P010 {
            return Err(PlanarFrameConversionError::ExpectedP010 { format: self.format });
        }
        let half_width: u128 = (self.width as u128 + 1) / 2;
        let half_height: u128 = (self.height as u128 + 1) / 2;
        assert(0 <= self.width * self.height <= 0xffff_ffff * 0xffff_ffff) by (nonlinear_arith)
            requires
                0 <= self.width <= 0xffff_ffff,
                0 <= self.height <= 0xffff_ffff,
        ;
        assert(0 <= half_width * half_height <= 0x8000_0000 * 0x8000_0000) by (nonlinear_arith)
            requires
                0 <= half_width <= 0x8000_0000,
                0 <= half_height <= 0x8000_0000,
        ;
        let wanted_luma: u128 = 2 * (self.width as u128 * self.height as u128);
        let wanted_chroma: u128 = 4 * (half_width * half_height);
        if wanted_luma > usize::MAX as u128 || wanted_chroma > usize::MAX as u128 {
            return Err(
                PlanarFrameConversionError::DimensionsOverflow {
                    width: self.width,
                    height: self.height,
                },
            );
        }
        let expected_luma: usize = wanted_luma as usize;
        let expected_chroma: usize = wanted_chroma as usize;
        if self.luma.len() != expected_luma {
            return Err(
                PlanarFrameConversionError::InvalidP010PlaneSize {
                    plane: "luma",
                    actual: self.luma.len(),
                    expected: expected_luma,
                    width: self.width,
                    height: self.height,
                },
            );
        }
        if self.chroma.len() != expected_chroma {
            return Err(
                PlanarFrameConversionError::InvalidP010PlaneSize {
                    plane: "chroma",
                    actual: self.chroma.len(),
                    expected: expected_chroma,
                    width: self.width,
                    height: self.height,
                },
            );
        }
        Ok(
            PlanarFrame {
                format: PlanarPixelFormat::Nv12,
                width: self.width,
                height: self.height,
                luma: downconvert_p010_samples_to_u8(&self.luma),
                chroma: downconvert_p010_samples_to_u8(&self.chroma),
            },
        )
    }
}

/// Whether `error` reports that a plane of `frame` has the wrong size.
pub open spec fn size_error(
    error: PlanarFrameConversionError,
    frame: PlanarFrame,
    plane: Seq<char>,
    actual: nat,
    expected: int,
) -> bool {
    &&& error is InvalidP010PlaneSize
    &&& error->plane@ == plane
    &&& error->actual == actual
    &&& error->expected == expected
    &&& error->InvalidP010PlaneSize_width == frame.width
    &&& error->InvalidP010PlaneSize_height == frame.height
}

/// A Core Video pixel buffer that a frame refers to.
#[derive(Clone, Copy, Debug, PartialEq, Eq, Structural)]
pub struct VideoToolboxPixelBuffer {
    pub raw: u64,
    pub width: u32,
    pub height: u32,
}

impl VideoToolboxPixelBuffer {
    pub fn raw(self) -> (r: u64)
        ensures
            r == self.raw,
    {
        self.raw
    }

    pub fn width(self) -> (r: u32)
        ensures
            r == self.width,
    {
        self.width
    }

    pub fn height(self) -> (r: u32)
        ensures
            r == self.height,
    {
        self.height
    }
}

/// A slice of a Direct3D texture array that a frame refers to.
#[derive(Clone, Copy, Debug, PartialEq, Eq, Structural)]
pub struct D3d11vaTexture {
    pub raw_texture: u64,
    pub array_index: u32,
    pub width: u32,
    pub height: u32,
}

impl D3d11vaTexture {
    pub fn raw_texture(self) -> (r: u64)
        ensures
            r == self.raw_texture,
    {
        self.raw_texture
    }

    pub fn array_index(self) -> (r: u32)
        ensures
            r == self.array_index,
    {
        self.array_index
    }

    pub fn width(self) -> (r: u32)
        ensures
            r == self.width,
    {
        self.width
    }

    pub fn height(self) -> (r: u32)
        ensures
            r == self.height,
    {
        self.height
    }
}

/// A decoded picture or a run of decoded samples.
#[derive(Clone, Debug, PartialEq, Eq)]
pub struct Frame {
    pub width: i32,
    pub height: i32,
    pub sample_rate: i32,
    pub channels: i32,
    pub samples: i32,
    pub sample_format: Option<String>,
    pub format: PixelFormat,
    pub format_name: Option<String>,
    pub planes: [Plane; 4],
    /// The addresses that the planes of a hardware frame hold.
    pub handles: [u64; 4],
    pub has_hw_frames_context: bool,
    /// The ticks at which the frame is shown, or `i64::MIN`.
    pub pts: i64,
    pub time_base: TimeBase,
    /// The distance of `pts` from the start of the timeline.
    pub pts_magnitude: Duration,
    pub color_primaries: i32,
    pub color_transfer: i32,
    pub color_range: i32,
    pub color_matrix: i32,
}

/// A size that counts from zero.
pub open spec fn counted(n: i32) -> u32 {
    if n < 0 { 0 } else { n as u32 }
}

fn count(n: i32) -> (r: u32)
    ensures
        r == counted(n),
{
    if n < 0 {
        0
    } else {
        n as u32
    }
}

/// A request to bring a picture into NV12.
#[derive(Clone, Copy, Debug, PartialEq, Eq, Structural)]
pub struct ScaleRequest {
    pub width: i32,
    pub height: i32,
    pub chroma_linesize: i32,
}

impl Frame {
    /// Where the frame lies on the media timeline.
    pub open spec fn shown_at(self) -> Option<Duration> {
        if self.pts != i64::MIN && (PacketTimestamp {
            raw: self.pts,
            time_base: self.time_base,
        }).on_timeline() {
            Some(self.pts_magnitude)
        } else {
            None
        }
    }

    pub fn width(&self) -> (r: u32)
        ensures
            r == counted(self.width),
    {
        count(self.width)
    }

    pub fn height(&self) -> (r: u32)
        ensures
            r == counted(self.height),
    {
        count(self.height)
    }

    pub fn sample_rate(&self) -> (r: u32)
        ensures
            r == counted(self.sample_rate),
    {
        count(self.sample_rate)
    }

    pub fn channel_count(&self) -> (r: u32)
        ensures
            r == counted(self.channels),
    {
        count(self.channels)
    }

    pub fn sample_count(&self) -> (r: usize)
        ensures
            r == counted(self.samples),
    {
        count(self.samples) as usize
    }

    pub fn sample_format(&self) -> (r: Option<String>)
        ensures
            r == self.sample_format,
    {
        copied_text(&self.sample_format)
    }

    pub fn is_audio(&self) -> (r: bool)
        ensures
            r == (self.sample_rate > 0 && self.samples > 0 && self.channels > 0),
    {
        self.sample_rate() > 0 && self.sample_count() > 0 && self.channel_count() > 0
    }

    pub fn pixel_format(&self) -> (r: Option<String>)
        ensures
            r == self.format_name,
    {
        copied_text(&self.format_name)
    }

    pub fn raw_pixel_format(&self) -> (r: PixelFormat)
        ensures
            r == self.format,
    {
        self.format
    }

    pub fn line_sizes(&self) -> (r: [i32; 4])
        ensures
            forall|i: int| 0 <= i < 4 ==> r@[i] == self.planes@[i].stride,
    {
        [self.planes[0].stride, self.planes[1].stride, self.planes[2].stride, self.planes[3].stride]
    }

    pub fn is_videotoolbox(&self) -> (r: bool)
        ensures
            r == (self.format == PixelFormat::VideoToolbox),
    {
        self.format == PixelFormat::VideoToolbox
    }

    pub fn is_d3d11va(&self) -> (r: bool)
        ensures
            r == (self.format == PixelFormat::D3d11),
    {
        self.format == PixelFormat::D3d11
    }

    pub fn is_mediacodec(&self) -> (r: bool)
        ensures
            r == (self.format == PixelFormat::MediaCodec),
    {
        self.format == PixelFormat::MediaCodec
    }

    pub fn has_hw_frames_context(&self) -> (r: bool)
        ensures
            r == self.has_hw_frames_context,
    {
        self.has_hw_frames_context
    }

    /// The pixel buffer of a VideoToolbox frame.
    pub fn videotoolbox_pixel_buffer(&self) -> (r: Option<VideoToolboxPixelBuffer>)
        ensures
            r == (if self.format == PixelFormat::VideoToolbox && self.handles@[3] != 0 {
                Some(
                    VideoToolboxPixelBuffer {
                        raw: self.handles@[3],
                        width: counted(self.width),
                        height: counted(self.height),
                    },
                )
            } else {
                None
            }),
    {
        if !self.is_videotoolbox() || self.handles[3] == 0 {
            return None;
        }
        Some(
            VideoToolboxPixelBuffer {
                raw: self.handles[3],
                width: self.width(),
                height: self.height(),
            },
        )
    }

    /// The texture of a Direct3D frame.
    pub fn d3d11va_texture(&self) -> (r: Option<D3d11vaTexture>)
        ensures
            r == (if self.format == PixelFormat::D3d11 && self.handles@[0] != 0
                && self.handles@[1] <= u32::MAX {
                Some(
                    D3d11vaTexture {
                        raw_texture: self.handles@[0],
                        array_index: self.handles@[1] as u32,
                        width: counted(self.width),
                        height: counted(self.height),
                    },
                )
            } else {
                None
            }),
    {
        if !self.is_d3d11va() || self.handles[0] == 0 || self.handles[1] > u32::MAX as u64 {
            return None;
        }
        Some(
            D3d11vaTexture {
                raw_texture: self.handles[0],
                array_index: self.handles[1] as u32,
                width: self.width(),
                height: self.height(),
            },
        )
    }

    pub fn raw_pts(&self) -> (r: Option<i64>)
        ensures
            r == crate::packet::set_timestamp(self.pts),
    {
        timestamp_value(self.pts)
    }

    pub fn pts(&self) -> (r: Option<PacketTimestamp>)
        ensures
            r == crate::packet::stamped(self.pts, Some(self.time_base)),
    {
        timestamp_in(self.pts, Some(self.time_base))
    }

    /// Where the frame lies on the media timeline.
    pub fn media_pts(&self) -> (r: Option<Duration>)
        ensures
            r == self.shown_at(),
    {
        match self.pts() {
            Some(timestamp) => timestamp.as_duration(self.pts_magnitude),
            None => None,
        }
    }

    pub fn color_primaries(&self) -> (r: ColorPrimaries)
        ensures
            r == crate::color::primaries_of(self.color_primaries),
    {
        color_primaries(self.color_primaries)
    }

    pub fn transfer_function(&self) -> (r: TransferFunction)
        ensures
            r == crate::color::transfer_of(self.color_transfer),
    {
        transfer_function(self.color_transfer)
    }

    pub fn color_range(&self) -> (r: ColorRange)
        ensures
            r == crate::color::range_of(self.color_range),
    {
        color_range(self.color_range)
    }

    pub fn matrix_coefficients(&self) -> (r: MatrixCoefficients)
        ensures
            r == crate::color::matrix_of(self.color_matrix),
    {
        matrix_coefficients(self.color_matrix)
    }

    /// Whether the luma rows of the picture can be read.
    pub open spec fn has_luma(self, bytes_per_sample: int) -> bool {
        self.width > 0 && self.height > 0 && self.planes@[0].holds_rows(
            bytes_per_sample * self.width,
            self.height as int,
        )
    }

    /// Whether the chroma rows of planes 1 and 2 can be read.
    pub open spec fn has_planar_chroma(self, bytes_per_sample: int) -> bool {
        &&& self.planes@[1].holds_rows(
            bytes_per_sample * half_up(self.width as int),
            half_up(self.height as int),
        )
        &&& self.planes@[2].holds_rows(
            bytes_per_sample * half_up(self.width as int),
            half_up(self.height as int),
        )
    }

    /// Whether the interleaved chroma rows of plane 1 can be read.
    pub open spec fn has_interleaved_chroma(self, bytes_per_sample: int) -> bool {
        self.planes@[1].holds_rows(
            2 * bytes_per_sample * half_up(self.width as int),
            half_up(self.height as int),
        )
    }

    /// Repacks an 8-bit 4:2:0 picture into tightly packed NV12 planes. Other formats, an empty
    /// picture and planes that are missing or too narrow give nothing.
    pub fn to_nv12(&self) -> (r: Option<Nv12Frame>)
        ensures
            r is Some <==> self.has_luma(1) && (self.format == PixelFormat::Yuv420p
                && self.has_planar_chroma(1) || self.format == PixelFormat::Nv12
                && self.has_interleaved_chroma(1)),
            r matches Some(frame) ==> {
                &&& frame.width == self.width
                &&& frame.height == self.height
                &&& frame.luma@ == packed_rows(
                    self.planes@[0],
                    self.width as int,
                    self.height as int,
                )
                &&& self.format == PixelFormat::Yuv420p ==> frame.chroma@ == interleaved_rows(
                    self.planes@[1],
                    self.planes@[2],
                    half_up(self.width as int),
                    half_up(self.height as int),
                )
                &&& self.format == PixelFormat::Nv12 ==> frame.chroma@ == packed_rows(
                    self.planes@[1],
                    2 * half_up(self.width as int),
                    half_up(self.height as int),
                )
            },
    {
        if self.width <= 0 || self.height <= 0 {
            return None;
        }
        let width: u64 = self.width as u64;
        let height: u64 = self.height as u64;
        let half_width: u64 = (width + 1) / 2;
        let half_height: u64 = (height + 1) / 2;
        let luma = match pack_rows(&self.planes[0], width, height) {
            Some(luma) => luma,
            None => {
                return None;
            },
        };
        let chroma = match self.format {
            PixelFormat::Yuv420p => interleave_rows(
                &self.planes[1],
                &self.planes[2],
                half_width,
                half_height,
            ),
            PixelFormat::Nv12 => pack_rows(&self.planes[1], 2 * half_width, half_height),
            _ => None,
        };
        match chroma {
            Some(chroma) => Some(
                Nv12Frame { width: self.width as u32, height: self.height as u32, luma, chroma },
            ),
            None => None,
        }
    }

    /// Whether the picture has a layout that is repacked without a scaler.
    pub open spec fn repacks_natively(self) -> bool {
        self.format == PixelFormat::Yuv420p || self.format == PixelFormat::Nv12 || self.format
            == PixelFormat::Yuv420p10Le || self.format == PixelFormat::P010Le
    }

    /// What a scaler has to do for a picture of another layout; hardware pictures and empty ones
    /// cannot be scaled.
    pub fn scale_request(&self) -> (r: Option<ScaleRequest>)
        ensures
            r == (if self.width <= 0 || self.height <= 0 || self.format == PixelFormat::Unset
                || self.format == PixelFormat::VideoToolbox || (self.format is Other
                && self.format->0 < 0) || 2 * half_up(self.width as int) > i32::MAX {
                None
            } else {
                Some(
                    ScaleRequest {
                        width: self.width,
                        height: self.height,
                        chroma_linesize: (2 * half_up(self.width as int)) as i32,
                    },
                )
            }),
    {
        if self.width <= 0 || self.height <= 0 {
            return None;
        }
        match self.format {
            PixelFormat::Unset | PixelFormat::VideoToolbox => {
                return None;
            },
            PixelFormat::Other(number) => {
                if number < 0 {
                    return None;
                }
            },
            _ => {},
        }
        let chroma_row_bytes: i64 = 2 * ((self.width as i64 + 1) / 2);
        if chroma_row_bytes > i32::MAX as i64 {
            return None;
        }
        Some(
            ScaleRequest {
                width: self.width,
                height: self.height,
                chroma_linesize: chroma_row_bytes as i32,
            },
        )
    }

    /// Repacks a picture into planes that a renderer uploads: 4:2:0 pictures keep their depth.
    /// `scaled` is what a scaler made of a picture of another layout, where it could.
    pub fn to_planar_frame(&self, scaled: Option<PlanarFrame>) -> (r: Option<PlanarFrame>)
        ensures
            !self.repacks_natively() ==> r == scaled,
            self.format == PixelFormat::Yuv420p ==> {
                &&& r is Some <==> self.has_luma(1) && self.has_planar_chroma(1)
                &&& r matches Some(frame) ==> frame.format == PlanarPixelFormat::Nv12
                    && frame.luma@ == packed_rows(
                    self.planes@[0],
                    self.width as int,
                    self.height as int,
                ) && frame.chroma@ == interleaved_rows(
                    self.planes@[1],
                    self.planes@[2],
                    half_up(self.width as int),
                    half_up(self.height as int),
                )
            },
            self.format == PixelFormat::Nv12 ==> {
                &&& r is Some <==> self.has_luma(1) && self.has_interleaved_chroma(1)
                &&& r matches Some(frame) ==> frame.format == PlanarPixelFormat::Nv12
                    && frame.luma@ == packed_rows(
                    self.planes@[0],
                    self.width as int,
                    self.height as int,
                ) && frame.chroma@ == packed_rows(
                    self.planes@[1],
                    2 * half_up(self.width as int),
                    half_up(self.height as int),
                )
            },
            self.format == PixelFormat::Yuv420p10Le ==> {
                &&& r is Some <==> self.has_luma(2) && self.has_planar_chroma(2)
                &&& r matches Some(frame) ==> frame.format == PlanarPixelFormat::P010
                    && frame.luma@ == raised_rows(
                    self.planes@[0],
                    self.width as int,
                    self.height as int,
                ) && frame.chroma@ == raised_interleaved_rows(
                    self.planes@[1],
                    self.planes@[2],
                    half_up(self.width as int),
                    half_up(self.height as int),
                )
            },
            self.format == PixelFormat::P010Le ==> {
                &&& r is Some <==> self.has_luma(2) && self.has_interleaved_chroma(2)
                &&& r matches Some(frame) ==> frame.format == PlanarPixelFormat::P010
                    && frame.luma@ == packed_rows(
                    self.planes@[0],
                    2 * self.width,
                    self.height as int,
                ) && frame.chroma@ == packed_rows(
                    self.planes@[1],
                    4 * half_up(self.width as int),
                    half_up(self.height as int),
                )
            },
            self.repacks_natively() ==> (r matches Some(frame) ==> frame.width == self.width
                && frame.height == self.height),
    {
        match self.format {
            PixelFormat::Yuv420p | PixelFormat::Nv12 => match self.to_nv12() {
                Some(nv12) => Some(
                    PlanarFrame {
                        format: PlanarPixelFormat::Nv12,
                        width: nv12.width,
                        height: nv12.height,
                        luma: nv12.luma,
                        chroma: nv12.chroma,
                    },
                ),
                None => None,
            },
            PixelFormat::Yuv420p10Le | PixelFormat::P010Le => {
                if self.width <= 0 || self.height <= 0 {
                    return None;
                }
                let width: u64 = self.width as u64;
                let height: u64 = self.height as u64;
                let half_width: u64 = (width + 1) / 2;
                let half_height: u64 = (height + 1) / 2;
                let (luma, chroma) = if self.format == PixelFormat::P010Le {
                    if 4 * half_width > u32::MAX as u64 {
                        assert(!self.has_interleaved_chroma(2));
                        return None;
                    }
                    (
                        pack_rows(&self.planes[0], 2 * width, height),
                        pack_rows(&self.planes[1], 4 * half_width, half_height),
                    )
                } else {
                    (
                        raise_rows(&self.planes[0], width, height),
                        raise_interleaved_rows(
                            &self.planes[1],
                            &self.planes[2],
                            half_width,
                            half_height,
                        ),
                    )
                };
                match (luma, chroma) {
                    (Some(luma), Some(chroma)) => Some(
                        PlanarFrame {
                            format: PlanarPixelFormat::P010,
                            width: self.width as u32,
                            height: self.height as u32,
                            luma,
                            chroma,
                        },
                    ),
                    _ => None,
                }
            },
            _ => scaled,
        }
    }
}

proof fn lemma_packed_rows_len(plane: Plane, row_bytes: int, rows: int)
    requires
        row_bytes >= 0,
        rows >= 0,
    ensures
        packed_rows(plane, row_bytes, rows).len() == row_bytes * rows,
    decreases rows,
{
    if rows > 0 {
        lemma_packed_rows_len(plane, row_bytes, rows - 1);
        assert(row_bytes * (rows - 1) + row_bytes == row_bytes * rows) by (nonlinear_arith);
    } else {
        assert(row_bytes * rows == 0) by (nonlinear_arith)
            requires
                rows == 0,
        ;
    }
}

/// Repacking takes away exactly the padding of the rows: every sample of the picture stands in
/// the packed plane, row by row.
pub proof fn law_packed_planes_hold_the_picture(
    plane: Plane,
    row_bytes: int,
    rows: int,
    row: int,
    offset: int,
)
    requires
        0 <= row < rows,
        0 <= offset < row_bytes,
    ensures
        packed_rows(plane, row_bytes, rows).len() == row_bytes * rows,
        packed_rows(plane, row_bytes, rows)[row_bytes * row + offset] == plane.at(row, offset),
    decreases rows,
{
    lemma_packed_rows_len(plane, row_bytes, rows);
    lemma_packed_rows_len(plane, row_bytes, rows - 1);
    if row < rows - 1 {
        law_packed_planes_hold_the_picture(plane, row_bytes, rows - 1, row, offset);
        assert(row_bytes * row + offset < row_bytes * (rows - 1)) by (nonlinear_arith)
            requires
                row <= rows - 2,
                0 <= offset < row_bytes,
        ;
        assert(row_bytes * row + offset >= 0) by (nonlinear_arith)
            requires
                0 <= row,
                0 <= offset < row_bytes,
        ;
    }
}

/// An 8-bit sample that was widened to ten bits comes back unchanged, wherever its code stands:
/// so the anchors of limited range, and black and white of full range, are kept exactly.
pub proof fn law_lowering_keeps_widened_samples(sample: u8, low: u8, high: u8)
    requires
        low + 256 * high == (4 * sample) * 64,
    ensures
        lowered_sample(low, high) == sample,
{
}

/// Lowering never leaves the order of two samples.
pub proof fn law_lowering_is_monotonic(low_a: u8, high_a: u8, low_b: u8, high_b: u8)
    requires
        low_a + 256 * high_a <= low_b + 256 * high_b,
    ensures
        lowered_sample(low_a, high_a) <= lowered_sample(low_b, high_b),
{
}

/// Where a byte of a run of rows of the same length stands: behind all bytes of the rows above.
proof fn lemma_row_places(length: int, rows: int, row: int, offset: int)
    requires
        0 <= row < rows,
        0 <= offset < length,
    ensures
        0 <= length * row + offset < length * rows,
        length * (rows - 1) + length == length * rows,
        row < rows - 1 ==> length * row + offset < length * (rows - 1),
{
    assert(0 <= length * row + offset < length * rows) by (nonlinear_arith)
        requires
            0 <= row < rows,
            0 <= offset < length,
    ;
    assert(length * (rows - 1) + length == length * rows) by (nonlinear_arith);
    assert(row < rows - 1 ==> length * row + offset < length * (rows - 1)) by (nonlinear_arith)
        requires
            0 <= offset < length,
    ;
}

/// The bytes of interleaved rows, and how many there are.
proof fn lemma_interleaved(first: Plane, second: Plane, samples: int, rows: int)
    requires
        samples >= 0,
        rows >= 0,
    ensures
        interleaved_rows(first, second, samples, rows).len() == 2 * samples * rows,
        forall|row: int, i: int|
            0 <= row < rows && 0 <= i < 2 * samples ==> #[trigger] interleaved_rows(
                first,
                second,
                samples,
                rows,
            )[2 * samples * row + i] == if i % 2 == 0 {
                first.at(row, i / 2)
            } else {
                second.at(row, i / 2)
            },
    decreases rows,
{
    if rows > 0 {
        lemma_interleaved(first, second, samples, rows - 1);
        let length = 2 * samples;
        let all = interleaved_rows(first, second, samples, rows);
        assert(length * (rows - 1) + length == length * rows) by (nonlinear_arith);
        assert forall|row: int, i: int| 0 <= row < rows && 0 <= i < 2 * samples implies
            #[trigger] all[2 * samples * row + i] == if i % 2 == 0 {
                first.at(row, i / 2)
            } else {
                second.at(row, i / 2)
            } by {
            lemma_row_places(length, rows, row, i);
            if row < rows - 1 {
                assert(all[length * row + i] == interleaved_rows(
                    first,
                    second,
                    samples,
                    rows - 1,
                )[2 * samples * row + i]);
            }
        }
    } else {
        assert(2 * samples * rows == 0) by (nonlinear_arith)
            requires
                rows == 0,
        ;
    }
}

/// The bytes of raised rows, and how many there are.
proof fn lemma_raised(plane: Plane, samples: int, rows: int)
    requires
        samples >= 0,
        rows >= 0,
    ensures
        raised_rows(plane, samples, rows).len() == 2 * samples * rows,
        forall|row: int, i: int|
            0 <= row < rows && 0 <= i < 2 * samples ==> #[trigger] raised_rows(
                plane,
                samples,
                rows,
            )[2 * samples * row + i] == raised_at(plane, row, i / 2, i % 2),
    decreases rows,
{
    if rows > 0 {
        lemma_raised(plane, samples, rows - 1);
        let length = 2 * samples;
        let all = raised_rows(plane, samples, rows);
        assert(length * (rows - 1) + length == length * rows) by (nonlinear_arith);
        assert forall|row: int, i: int| 0 <= row < rows && 0 <= i < 2 * samples implies
            #[trigger] all[2 * samples * row + i] == raised_at(plane, row, i / 2, i % 2) by {
            lemma_row_places(length, rows, row, i);
            if row < rows - 1 {
                assert(all[length * row + i] == raised_rows(plane, samples, rows - 1)[2 * samples
                    * row + i]);
            }
        }
    } else {
        assert(2 * samples * rows == 0) by (nonlinear_arith)
            requires
                rows == 0,
        ;
    }
}

/// The bytes of raised and interleaved rows, and how many there are.
proof fn lemma_raised_interleaved(first: Plane, second: Plane, samples: int, rows: int)
    requires
        samples >= 0,
        rows >= 0,
    ensures
        raised_interleaved_rows(first, second, samples, rows).len() == 4 * samples * rows,
        forall|row: int, i: int|
            0 <= row < rows && 0 <= i < 4 * samples ==> #[trigger] raised_interleaved_rows(
                first,
                second,
                samples,
                rows,
            )[4 * samples * row + i] == if i % 4 < 2 {
                raised_at(first, row, i / 4, i % 2)
            } else {
                raised_at(second, row, i / 4, i % 2)
            },
    decreases rows,
{
    if rows > 0 {
        lemma_raised_interleaved(first, second, samples, rows - 1);
        let length = 4 * samples;
        let all = raised_interleaved_rows(first, second, samples, rows);
        assert(length * (rows - 1) + length == length * rows) by (nonlinear_arith);
        assert forall|row: int, i: int| 0 <= row < rows && 0 <= i < 4 * samples implies
            #[trigger] all[4 * samples * row + i] == if i % 4 < 2 {
                raised_at(first, row, i / 4, i % 2)
            } else {
                raised_at(second, row, i / 4, i % 2)
            } by {
            lemma_row_places(length, rows, row, i);
            if row < rows - 1 {
                assert(all[length * row + i] == raised_interleaved_rows(
                    first,
                    second,
                    samples,
                    rows - 1,
                )[4 * samples * row + i]);
            }
        }
    } else {
        assert(4 * samples * rows == 0) by (nonlinear_arith)
            requires
                rows == 0,
        ;
    }
}

/// The two chroma samples of a place stand side by side, that of the first plane in front, and none
/// is lost.
pub proof fn law_interleaving_pairs_the_samples(
    first: Plane,
    second: Plane,
    samples: int,
    rows: int,
    row: int,
    sample: int,
)
    requires
        first.bytes is Some,
        second.bytes is Some,
        first.stride >= 0,
        second.stride >= 0,
        0 <= row < rows,
        0 <= sample < samples,
    ensures
        ({
            let all = interleaved_rows(first, second, samples, rows);
            let at = 2 * samples * row + 2 * sample;
            &&& all.len() == 2 * samples * rows
            &&& 0 <= at && at + 1 < all.len()
            &&& all[at] == first.bytes->0@[row * first.stride + sample]
            &&& all[at + 1] == second.bytes->0@[row * second.stride + sample]
        }),
{
    lemma_interleaved(first, second, samples, rows);
    lemma_row_places(2 * samples, rows, row, 2 * sample);
    lemma_row_places(2 * samples, rows, row, 2 * sample + 1);
    let all = interleaved_rows(first, second, samples, rows);
    assert(all[2 * samples * row + (2 * sample)] == first.at(row, sample));
    assert(all[2 * samples * row + (2 * sample + 1)] == second.at(row, sample));
}

/// A 10-bit sample keeps its value and stands in the high bits of its word: the word is 64 times the
/// sample.
pub proof fn law_raising_keeps_the_sample(low: u8, high: u8)
    requires
        low + 256 * high < 1024,
    ensures
        raised_byte(low, high, 0) + 256 * raised_byte(low, high, 1) == 64 * (low + 256 * high),
{
}

/// Every luma sample of a 10-bit picture stands in the repacked plane, at its place, 64 times as
/// large.
pub proof fn law_raised_planes_hold_the_picture(
    plane: Plane,
    samples: int,
    rows: int,
    row: int,
    sample: int,
)
    requires
        plane.bytes is Some,
        plane.stride >= 0,
        0 <= row < rows,
        0 <= sample < samples,
        plane.bytes->0@[row * plane.stride + 2 * sample] + 256 * plane.bytes->0@[row * plane.stride
            + 2 * sample + 1] < 1024,
    ensures
        ({
            let all = raised_rows(plane, samples, rows);
            let at = 2 * samples * row + 2 * sample;
            let from = row * plane.stride + 2 * sample;
            &&& all.len() == 2 * samples * rows
            &&& 0 <= at && at + 1 < all.len()
            &&& all[at] + 256 * all[at + 1] == 64 * (plane.bytes->0@[from] + 256
                * plane.bytes->0@[from + 1])
        }),
{
    lemma_raised(plane, samples, rows);
    lemma_row_places(2 * samples, rows, row, 2 * sample);
    lemma_row_places(2 * samples, rows, row, 2 * sample + 1);
    let all = raised_rows(plane, samples, rows);
    assert(all[2 * samples * row + (2 * sample)] == raised_at(plane, row, sample, 0));
    assert(all[2 * samples * row + (2 * sample + 1)] == raised_at(plane, row, sample, 1));
}

/// The two 10-bit chroma samples of a place stand side by side, that of the first plane in front,
/// each 64 times as large.
pub proof fn law_raising_and_interleaving_pairs_the_samples(
    first: Plane,
    second: Plane,
    samples: int,
    rows: int,
    row: int,
    sample: int,
)
    requires
        first.bytes is Some,
        second.bytes is Some,
        first.stride >= 0,
        second.stride >= 0,
        0 <= row < rows,
        0 <= sample < samples,
        first.bytes->0@[row * first.stride + 2 * sample] + 256 * first.bytes->0@[row * first.stride
            + 2 * sample + 1] < 1024,
        second.bytes->0@[row * second.stride + 2 * sample] + 256 * second.bytes->0@[row
            * second.stride + 2 * sample + 1] < 1024,
    ensures
        ({
            let all = raised_interleaved_rows(first, second, samples, rows);
            let at = 4 * samples * row + 4 * sample;
            let a = row * first.stride + 2 * sample;
            let b = row * second.stride + 2 * sample;
            &&& all.len() == 4 * samples * rows
            &&& 0 <= at && at + 3 < all.len()
            &&& all[at] + 256 * all[at + 1] == 64 * (first.bytes->0@[a] + 256 * first.bytes->0@[a
                + 1])
            &&& all[at + 2] + 256 * all[at + 3] == 64 * (second.bytes->0@[b] + 256
                * second.bytes->0@[b + 1])
        }),
{
    lemma_raised_interleaved(first, second, samples, rows);
    lemma_row_places(4 * samples, rows, row, 4 * sample);
    lemma_row_places(4 * samples, rows, row, 4 * sample + 3);
    let all = raised_interleaved_rows(first, second, samples, rows);
    assert(all[4 * samples * row + (4 * sample)] == raised_at(first, row, sample, 0));
    assert(all[4 * samples * row + (4 * sample + 1)] == raised_at(first, row, sample, 1));
    assert(all[4 * samples * row + (4 * sample + 2)] == raised_at(second, row, sample, 0));
    assert(all[4 * samples * row + (4 * sample + 3)] == raised_at(second, row, sample, 1));
}

/// A packed plane holds the bytes of the picture itself, which lie a stride apart.
pub proof fn law_packing_reads_the_bytes_of_the_rows(
    plane: Plane,
    row_bytes: int,
    rows: int,
    row: int,
    offset: int,
)
    requires
        plane.bytes is Some,
        plane.stride >= 0,
        0 <= row < rows,
        0 <= offset < row_bytes,
    ensures
        packed_rows(plane, row_bytes, rows).len() == row_bytes * rows,
        packed_rows(plane, row_bytes, rows)[row_bytes * row + offset] == plane.bytes->0@[row
            * plane.stride + offset],
{
    law_packed_planes_hold_the_picture(plane, row_bytes, rows, row, offset);
}

/// Rows can be read exactly when each of them fits the stride and the last ends within the bytes.
pub proof fn law_when_rows_can_be_read(plane: Plane, row_bytes: int, rows: int, row: int, offset: int)
    requires
        0 <= row < rows,
        0 <= offset < row_bytes,
        plane.stride >= 0,
    ensures
        plane.holds_rows(row_bytes, rows) ==> plane.bytes is Some && row_bytes <= plane.stride && 0
            <= row * plane.stride + offset < plane.bytes->0@.len(),
        plane.bytes is Some && row_bytes <= plane.stride && (rows - 1) * plane.stride + row_bytes
            <= plane.bytes->0@.len() ==> plane.holds_rows(row_bytes, rows),
{
    let stride = plane.stride as int;
    assert(0 <= row * stride <= (rows - 1) * stride) by (nonlinear_arith)
        requires
            0 <= row <= rows - 1,
            stride >= 0,
    ;
}

/// A 10-bit sample comes out as the nearest 8-bit one: no other is closer to a quarter of it.
pub proof fn law_lowering_takes_the_nearest(low: u8, high: u8, other: u8)
    ensures
        ({
            let code = (low + 256 * high) / 64;
            let chosen = 4 * lowered_sample(low, high) - code;
            let instead = 4 * other - code;
            (if chosen < 0 { -chosen } else { chosen }) <= (if instead < 0 {
                -instead
            } else {
                instead
            })
        }),
{
}

/// The samples of a plane are lowered one by one, in their order.
pub proof fn law_lowering_keeps_the_order(source: Seq<u8>, i: int)
    requires
        0 <= i < source.len() / 2,
    ensures
        lowered_samples(source).len() == source.len() / 2,
        lowered_samples(source)[i] == lowered_sample(source[2 * i], source[2 * i + 1]),
{
}

/// A P010 frame has two bytes for each pixel, and four for each two by two of them, where an odd
/// side counts as the next even one.
pub proof fn law_the_sizes_of_p010_planes(width: u32, height: u32)
    requires
        width % 2 == 0,
        height % 2 == 0,
    ensures
        p010_luma_bytes(width, height) == 2 * width * height,
        p010_chroma_bytes(width, height) == width * height,
        width < u32::MAX ==> half_up((width + 1) as int) == width / 2 + 1,
        half_up(width as int) == width / 2,
{
    let w = (width / 2) as int;
    let h = (height / 2) as int;
    assert(half_up(width as int) == w && half_up(height as int) == h);
    assert(width == 2 * w && height == 2 * h);
    assert(4 * (w * h) == (2 * w) * (2 * h)) by (nonlinear_arith);
    assert(2 * (width * height) == 2 * width * height) by (nonlinear_arith);
}

/// A frame has a time exactly when its timestamp is set and does not lie before the start.
pub proof fn law_a_set_timestamp_is_the_time_of_its_frame(frame: Frame)
    requires
        frame.time_base.num > 0,
        frame.time_base.den > 0,
    ensures
        frame.pts >= 0 ==> frame.shown_at() == Some(frame.pts_magnitude),
        frame.pts < 0 ==> frame.shown_at() is None,
{
}

/// A picture can be repacked only where every byte that is needed lies within its planes: those of
/// the luma rows, and those of the chroma rows, which are half as many and half as long, rounded up.
pub proof fn law_a_picture_is_repacked_only_where_it_is_whole(
    frame: Frame,
    bytes_per_sample: int,
    row: int,
    sample: int,
)
    requires
        1 <= bytes_per_sample <= 2,
        frame.planes@[0].stride >= 0,
        frame.planes@[1].stride >= 0,
        frame.planes@[2].stride >= 0,
        0 <= row,
        0 <= sample,
    ensures
        frame.width <= 0 || frame.height <= 0 ==> !frame.has_luma(bytes_per_sample),
        frame.has_luma(bytes_per_sample) && row < frame.height && sample < frame.width ==> row
            * frame.planes@[0].stride + bytes_per_sample * sample + bytes_per_sample
            <= frame.planes@[0].bytes->0@.len(),
        frame.has_luma(bytes_per_sample) && frame.has_planar_chroma(bytes_per_sample) && 2 * sample
            < frame.width && 2 * row < frame.height ==> row * frame.planes@[1].stride + bytes_per_sample * sample
            + bytes_per_sample <= frame.planes@[1].bytes->0@.len() && row * frame.planes@[2].stride
            + bytes_per_sample * sample + bytes_per_sample <= frame.planes@[2].bytes->0@.len(),
        frame.has_luma(bytes_per_sample) && frame.has_interleaved_chroma(bytes_per_sample) && 2
            * sample < frame.width && 2 * row < frame.height ==> row * frame.planes@[1].stride + 2
            * bytes_per_sample * sample + 2 * bytes_per_sample <= frame.planes@[1].bytes->0@.len(),
{
    if frame.has_luma(bytes_per_sample) && row < frame.height && sample < frame.width {
        lemma_row_end(frame.planes@[0].stride as int, frame.height as int, row);
        lemma_sample_end(bytes_per_sample, frame.width as int, sample);
    }
    if frame.has_luma(bytes_per_sample) && 2 * row < frame.height && 2 * sample < frame.width {
        let rows = half_up(frame.height as int);
        let samples = half_up(frame.width as int);
        lemma_row_end(frame.planes@[1].stride as int, rows, row);
        lemma_row_end(frame.planes@[2].stride as int, rows, row);
        lemma_sample_end(bytes_per_sample, samples, sample);
        lemma_sample_end(2 * bytes_per_sample, samples, sample);
    }
}

/// No row begins behind the last.
proof fn lemma_row_end(stride: int, rows: int, row: int)
    requires
        stride >= 0,
        0 <= row < rows,
    ensures
        row * stride <= (rows - 1) * stride,
{
    assert(row * stride <= (rows - 1) * stride) by (nonlinear_arith)
        requires
            stride >= 0,
            0 <= row <= rows - 1,
    ;
}

/// No sample ends behind its row.
proof fn lemma_sample_end(size: int, samples: int, sample: int)
    requires
        size >= 0,
        0 <= sample < samples,
    ensures
        size * sample + size <= size * samples,
{
    assert(size * sample + size <= size * samples) by (nonlinear_arith)
        requires
            size >= 0,
            0 <= sample <= samples - 1,
    ;
}

/// The layouts that are repacked as they are, without a scaler.
pub proof fn law_which_layouts_are_repacked(frame: Frame)
    ensures
        frame.repacks_natively() <==> (frame.format == PixelFormat::Yuv420p || frame.format
            == PixelFormat::Nv12 || frame.format == PixelFormat::Yuv420p10Le || frame.format
            == PixelFormat::P010Le),
{
}

} // verus!
