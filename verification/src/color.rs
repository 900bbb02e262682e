//! Colour descriptions of decoded frames, by the code points of ITU-T H.273.
use crate::media::{ColorPrimaries, TransferFunction};
use vstd::prelude::*;

verus! {

pub const PRIMARIES_BT709: i32 = 1;

pub const PRIMARIES_BT2020: i32 = 9;

pub const PRIMARIES_SMPTE432: i32 = 12;

pub const TRANSFER_BT709: i32 = 1;

pub const TRANSFER_IEC61966_2_1: i32 = 13;

pub const TRANSFER_SMPTE2084: i32 = 16;

pub const TRANSFER_ARIB_STD_B67: i32 = 18;

pub const RANGE_UNSPECIFIED: i32 = 0;

pub const RANGE_MPEG: i32 = 1;

pub const RANGE_JPEG: i32 = 2;

pub const MATRIX_RGB: i32 = 0;

pub const MATRIX_BT709: i32 = 1;

pub const MATRIX_UNSPECIFIED: i32 = 2;

pub const MATRIX_BT470BG: i32 = 5;

pub const MATRIX_SMPTE170M: i32 = 6;

pub const MATRIX_BT2020_NCL: i32 = 9;

#[derive(Clone, Copy, Debug, PartialEq, Eq, Structural)]
pub enum ColorRange {
    Unspecified,
    Limited,
    Full,
}

#[derive(Clone, Copy, Debug, PartialEq, Eq, Structural)]
pub enum MatrixCoefficients {
    Unspecified,
    Identity,
    Bt709,
    Bt601,
    Bt2020NonConstantLuminance,
}

/// The primaries that a code point stands for.
pub open spec fn primaries_of(value: i32) -> ColorPrimaries {
    if value == PRIMARIES_BT709 {
        ColorPrimaries::Bt709
    } else if value == PRIMARIES_SMPTE432 {
        ColorPrimaries::DisplayP3
    } else if value == PRIMARIES_BT2020 {
        ColorPrimaries::Bt2020
    } else {
        ColorPrimaries::Unknown
    }
}

pub fn color_primaries(value: i32) -> (r: ColorPrimaries)
    ensures
        r == primaries_of(value),
{
    if value == PRIMARIES_BT709 {
        ColorPrimaries::Bt709
    } else if value == PRIMARIES_SMPTE432 {
        ColorPrimaries::DisplayP3
    } else if value == PRIMARIES_BT2020 {
        ColorPrimaries::Bt2020
    } else {
        ColorPrimaries::Unknown
    }
}

/// The transfer function that a code point stands for.
pub open spec fn transfer_of(value: i32) -> TransferFunction {
    if value == TRANSFER_IEC61966_2_1 {
        TransferFunction::Srgb
    } else if value == TRANSFER_BT709 {
        TransferFunction::Bt1886
    } else if value == TRANSFER_SMPTE2084 {
        TransferFunction::Pq
    } else if value == TRANSFER_ARIB_STD_B67 {
        TransferFunction::Hlg
    } else {
        TransferFunction::Unknown
    }
}

pub fn transfer_function(value: i32) -> (r: TransferFunction)
    ensures
        r == transfer_of(value),
{
    if value == TRANSFER_IEC61966_2_1 {
        TransferFunction::Srgb
    } else if value == TRANSFER_BT709 {
        TransferFunction::Bt1886
    } else if value == TRANSFER_SMPTE2084 {
        TransferFunction::Pq
    } else if value == TRANSFER_ARIB_STD_B67 {
        TransferFunction::Hlg
    } else {
        TransferFunction::Unknown
    }
}

/// The range that a code point stands for.
pub open spec fn range_of(value: i32) -> ColorRange {
    if value == RANGE_MPEG {
        ColorRange::Limited
    } else if value == RANGE_JPEG {
        ColorRange::Full
    } else {
        ColorRange::Unspecified
    }
}

pub fn color_range(value: i32) -> (r: ColorRange)
    ensures
        r == range_of(value),
{
    if value == RANGE_MPEG {
        ColorRange::Limited
    } else if value == RANGE_JPEG {
        ColorRange::Full
    } else {
        ColorRange::Unspecified
    }
}

/// The matrix that a code point stands for.
pub open spec fn matrix_of(value: i32) -> MatrixCoefficients {
    if value == MATRIX_RGB {
        MatrixCoefficients::Identity
    } else if value == MATRIX_BT709 {
        MatrixCoefficients::Bt709
    } else if value == MATRIX_BT470BG || value == MATRIX_SMPTE170M {
        MatrixCoefficients::Bt601
    } else if value == MATRIX_BT2020_NCL {
        MatrixCoefficients::Bt2020NonConstantLuminance
    } else {
        MatrixCoefficients::Unspecified
    }
}

pub fn matrix_coefficients(value: i32) -> (r: MatrixCoefficients)
    ensures
        r == matrix_of(value),
{
    if value == MATRIX_RGB {
        MatrixCoefficients::Identity
    } else if value == MATRIX_BT709 {
        MatrixCoefficients::Bt709
    } else if value == MATRIX_BT470BG || value == MATRIX_SMPTE170M {
        MatrixCoefficients::Bt601
    } else if value == MATRIX_BT2020_NCL {
        MatrixCoefficients::Bt2020NonConstantLuminance
    } else {
        MatrixCoefficients::Unspecified
    }
}

/// The light levels that a frame carries, in nits.
#[derive(Clone, Copy, Debug, PartialEq, Eq, Structural)]
pub struct ContentLightMetadata {
    pub max_content_light_level_nits: u32,
    pub max_frame_average_light_level_nits: u32,
}

/// The light levels of a frame; a frame that states neither carries none.
pub fn content_light_metadata(max_cll: u32, max_fall: u32) -> (r: Option<ContentLightMetadata>)
    ensures
        r == (if max_cll == 0 && max_fall == 0 {
            None
        } else {
            Some(
                ContentLightMetadata {
                    max_content_light_level_nits: max_cll,
                    max_frame_average_light_level_nits: max_fall,
                },
            )
        }),
{
    if max_cll == 0 && max_fall == 0 {
        return None;
    }
    Some(
        ContentLightMetadata {
            max_content_light_level_nits: max_cll,
            max_frame_average_light_level_nits: max_fall,
        },
    )
}

/// The code points of colour are those of the standard, and every other one is unknown.
pub proof fn law_code_points_are_those_of_the_standard(value: i32)
    ensures
        primaries_of(value) == ColorPrimaries::Bt709 <==> value == 1,
        primaries_of(value) == ColorPrimaries::Bt2020 <==> value == 9,
        primaries_of(value) == ColorPrimaries::DisplayP3 <==> value == 12,
        transfer_of(value) == TransferFunction::Bt1886 <==> value == 1,
        transfer_of(value) == TransferFunction::Srgb <==> value == 13,
        transfer_of(value) == TransferFunction::Pq <==> value == 16,
        transfer_of(value) == TransferFunction::Hlg <==> value == 18,
        range_of(value) == ColorRange::Limited <==> value == 1,
        range_of(value) == ColorRange::Full <==> value == 2,
        matrix_of(value) == MatrixCoefficients::Identity <==> value == 0,
        matrix_of(value) == MatrixCoefficients::Bt709 <==> value == 1,
        matrix_of(value) == MatrixCoefficients::Bt601 <==> (value == 5 || value == 6),
        matrix_of(value) == MatrixCoefficients::Bt2020NonConstantLuminance <==> value == 9,
        value != 1 && value != 9 && value != 12 ==> primaries_of(value) == ColorPrimaries::Unknown,
        value != 1 && value != 13 && value != 16 && value != 18 ==> transfer_of(value)
            == TransferFunction::Unknown,
        value != 1 && value != 2 ==> range_of(value) == ColorRange::Unspecified,
        value != 0 && value != 1 && value != 5 && value != 6 && value != 9 ==> matrix_of(value)
            == MatrixCoefficients::Unspecified,
{
}

} // verus!
