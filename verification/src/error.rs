//! Errors of the media library.
use crate::text::{joined, signed_decimal_text};
use vstd::prelude::*;

verus! {

/// The code with which the media library reports the end of a stream.
pub const AVERROR_EOF: i32 = -541_478_725;

#[derive(Clone, Debug, PartialEq, Eq)]
pub enum FfmpegError {
    InteriorNul,
    Api { operation: String, code: i32, message: String },
    NullPointer(String),
    UnknownStream(i32),
    StreamMismatch { decoder_stream: i32, packet_stream: i32 },
    ExpectedAudioFrame,
    ExpectedSubtitleStream,
    UnsupportedD3d11vaSwFormat(i32),
    AndroidMediaCodec(String),
    AndroidMediaCodecBackpressure(String),
    InvalidSubtitleBitmap { width: i32, height: i32, stride: i32, colors: i32 },
    Source(String),
}

/// Whether a number is `EAGAIN` on one of the systems that the player is built for: 11 on Linux,
/// Android, OpenHarmony and Windows, 35 on those of Apple.
pub open spec fn means_again(errno: i32) -> bool {
    errno == 11 || errno == 35
}

/// The error number `libc::EAGAIN` of this machine. It is one of two numbers; which of them depends on
/// the system.
#[verifier::external_body]
pub(crate) fn errno_again() -> (r: i32)
    ensures
        means_again(r),
{
    libc::EAGAIN
}

/// The error number `libc::EINVAL`: the same on every system that the player is built for, which are
/// Linux, Android, OpenHarmony, Windows and those of Apple.
#[verifier::external_body]
pub(crate) fn errno_invalid() -> (r: i32)
    ensures
        r == 22,
{
    libc::EINVAL
}

/// The error number `libc::EIO`: the same on every system that the player is built for.
#[verifier::external_body]
pub(crate) fn errno_io() -> (r: i32)
    ensures
        r == 5,
{
    libc::EIO
}

/// The error number `libc::ESPIPE`: the same on every system that the player is built for.
#[verifier::external_body]
pub(crate) fn errno_not_seekable() -> (r: i32)
    ensures
        r == 29,
{
    libc::ESPIPE
}

/// The code with which the media library reports a system error.
pub fn av_error(errno: i32) -> (r: i32)
    requires
        errno > i32::MIN,
    ensures
        r == -errno,
{
    -errno
}

impl FfmpegError {
    /// Whether the media library itself reported `code`.
    pub open spec fn reports(self, code: int) -> bool {
        self is Api && self->code == code
    }

    /// The text that describes the error.
    pub open spec fn text(self) -> Seq<char> {
        match self {
            FfmpegError::InteriorNul => "path contains interior nul byte"@,
            FfmpegError::Api { operation, code, message } => "ffmpeg error in "@ + operation@ + ": "@
                + message@ + " ("@ + crate::text::signed_decimal(code as int) + ")"@,
            FfmpegError::NullPointer(operation) => "ffmpeg returned a null pointer from "@
                + operation@,
            FfmpegError::UnknownStream(index) => "unknown stream index: "@
                + crate::text::signed_decimal(index as int),
            FfmpegError::StreamMismatch { decoder_stream, packet_stream } => "packet stream "@
                + crate::text::signed_decimal(packet_stream as int)
                + " does not match decoder stream "@ + crate::text::signed_decimal(
                decoder_stream as int,
            ),
            FfmpegError::ExpectedAudioFrame => "expected audio frame"@,
            FfmpegError::ExpectedSubtitleStream => "expected subtitle stream"@,
            FfmpegError::UnsupportedD3d11vaSwFormat(
                format,
            ) => "unsupported D3D11VA software pixel format: "@ + crate::text::signed_decimal(
                format as int,
            ),
            FfmpegError::AndroidMediaCodec(reason) => "Android MediaCodec surface error: "@
                + reason@,
            FfmpegError::AndroidMediaCodecBackpressure(
                reason,
            ) => "Android MediaCodec surface backpressure: "@ + reason@,
            FfmpegError::InvalidSubtitleBitmap { width, height, stride, colors } =>
                "invalid subtitle bitmap: width="@ + crate::text::signed_decimal(width as int)
                + " height="@ + crate::text::signed_decimal(height as int) + " stride="@
                + crate::text::signed_decimal(stride as int) + " colors="@
                + crate::text::signed_decimal(colors as int),
            FfmpegError::Source(reason) => "source error: "@ + reason@,
        }
    }

    pub fn message(&self) -> (r: String)
        ensures
            r@ == self.text(),
    {
        match self {
            FfmpegError::InteriorNul => "path contains interior nul byte".to_owned(),
            FfmpegError::Api { operation, code, message } => {
                let mut out = joined("ffmpeg error in ", operation.as_str());
                out.append(": ");
                out.append(message.as_str());
                out.append(" (");
                out.append(signed_decimal_text(*code as i64).as_str());
                out.append(")");
                out
            },
            FfmpegError::NullPointer(operation) => joined(
                "ffmpeg returned a null pointer from ",
                operation.as_str(),
            ),
            FfmpegError::UnknownStream(index) => joined(
                "unknown stream index: ",
                signed_decimal_text(*index as i64).as_str(),
            ),
            FfmpegError::StreamMismatch { decoder_stream, packet_stream } => {
                let mut out = joined(
                    "packet stream ",
                    signed_decimal_text(*packet_stream as i64).as_str(),
                );
                out.append(" does not match decoder stream ");
                out.append(signed_decimal_text(*decoder_stream as i64).as_str());
                out
            },
            FfmpegError::ExpectedAudioFrame => "expected audio frame".to_owned(),
            FfmpegError::ExpectedSubtitleStream => "expected subtitle stream".to_owned(),
            FfmpegError::UnsupportedD3d11vaSwFormat(format) => joined(
                "unsupported D3D11VA software pixel format: ",
                signed_decimal_text(*format as i64).as_str(),
            ),
            FfmpegError::AndroidMediaCodec(reason) => joined(
                "Android MediaCodec surface error: ",
                reason.as_str(),
            ),
            FfmpegError::AndroidMediaCodecBackpressure(reason) => joined(
                "Android MediaCodec surface backpressure: ",
                reason.as_str(),
            ),
            FfmpegError::InvalidSubtitleBitmap { width, height, stride, colors } => {
                let mut out = joined(
                    "invalid subtitle bitmap: width=",
                    signed_decimal_text(*width as i64).as_str(),
                );
                out.append(" height=");
                out.append(signed_decimal_text(*height as i64).as_str());
                out.append(" stride=");
                out.append(signed_decimal_text(*stride as i64).as_str());
                out.append(" colors=");
                out.append(signed_decimal_text(*colors as i64).as_str());
                out
            },
            FfmpegError::Source(reason) => joined("source error: ", reason.as_str()),
        }
    }

    /// Whether the error reports a system error.
    pub open spec fn reports_system(self, errno: i32) -> bool {
        self.reports(-errno)
    }

    /// Whether the error reports the system error `errno`.
    pub fn reports_errno(&self, errno: i32) -> (r: bool)
        requires
            errno > i32::MIN,
        ensures
            r == self.reports_system(errno),
    {
        match self {
            FfmpegError::Api { code, .. } => *code == av_error(errno),
            _ => false,
        }
    }

    /// Whether the media library asked to try again.
    pub fn is_again(&self) -> (r: bool)
        ensures
            exists|errno: i32| means_again(errno) && r == #[trigger] self.reports_system(errno),
    {
        self.reports_errno(errno_again())
    }

    /// Whether the media library refused an argument.
    pub fn is_invalid_argument(&self) -> (r: bool)
        ensures
            r == self.reports_system(22),
    {
        self.reports_errno(errno_invalid())
    }

    pub fn is_android_mediacodec_backpressure(&self) -> (r: bool)
        ensures
            r == (self is AndroidMediaCodecBackpressure),
    {
        matches!(self, FfmpegError::AndroidMediaCodecBackpressure(_))
    }
}

/// Turns a code of the media library into a result; `message` is the library's own text for a
/// code below zero.
pub fn check(code: i32, operation: &str, message: &str) -> (r: Result<(), FfmpegError>)
    ensures
        r is Ok <==> code >= 0,
        r matches Err(error) ==> api_error_for(error, operation@, code, message@),
{
    if code >= 0 {
        Ok(())
    } else {
        Err(api_error(operation, code, message))
    }
}

/// Whether `error` is the report of `code` by `operation`.
pub open spec fn api_error_for(
    error: FfmpegError,
    operation: Seq<char>,
    code: i32,
    message: Seq<char>,
) -> bool {
    &&& error is Api
    &&& error->operation@ == operation
    &&& error->code == code
    &&& error->Api_message@ == message
}

pub fn api_error(operation: &str, code: i32, message: &str) -> (r: FfmpegError)
    ensures
        api_error_for(r, operation@, code, message@),
{
    FfmpegError::Api { operation: operation.to_owned(), code, message: message.to_owned() }
}

} // verus!
