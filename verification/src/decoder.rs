//! Decoders of the media library: how one is chosen and opened, and what its replies mean.
use crate::error::{api_error, av_error, check, errno_again, FfmpegError, AVERROR_EOF};
use crate::frame::PixelFormat;
use crate::packet::{Packet, TimeBase};
use crate::text::{joined, signed_decimal_text};
use vstd::prelude::*;

verus! {

/// What a decoder has to hand out.
#[derive(Clone, Copy, Debug, PartialEq, Eq, Structural)]
pub enum DecoderOutput {
    Frame,
    NeedMoreInput,
    EndOfStream,
}

#[derive(Clone, Copy, Debug, PartialEq, Eq, Structural)]
pub enum DecoderBackend {
    Software,
    VideoToolbox,
    D3d11va,
    MediaCodec,
    AvCodec,
}

impl DecoderBackend {
    pub open spec fn name(self) -> Seq<char> {
        match self {
            DecoderBackend::Software => "software"@,
            DecoderBackend::VideoToolbox => "videotoolbox"@,
            DecoderBackend::D3d11va => "d3d11va"@,
            DecoderBackend::MediaCodec => "mediacodec"@,
            DecoderBackend::AvCodec => "avcodec"@,
        }
    }

    pub fn as_str(self) -> (r: &'static str)
        ensures
            r@ == self.name(),
    {
        match self {
            DecoderBackend::Software => "software",
            DecoderBackend::VideoToolbox => "videotoolbox",
            DecoderBackend::D3d11va => "d3d11va",
            DecoderBackend::MediaCodec => "mediacodec",
            DecoderBackend::AvCodec => "avcodec",
        }
    }
}

/// Which decoder is wanted; `mediacodec_surface` asks for pictures on a surface in place of bytes.
#[derive(Clone, Copy, Debug, PartialEq, Eq, Structural)]
pub struct DecoderConfig {
    pub backend: DecoderBackend,
    pub mediacodec_surface: bool,
}

/// The decoder of a backend that hands out no surface.
pub open spec fn plain_config(backend: DecoderBackend) -> DecoderConfig {
    DecoderConfig { backend, mediacodec_surface: false }
}

/// The decoder of Android that draws on a surface.
pub open spec fn surface_config() -> DecoderConfig {
    DecoderConfig { backend: DecoderBackend::MediaCodec, mediacodec_surface: true }
}

impl DecoderConfig {
    pub fn software() -> (r: Self)
        ensures
            r == plain_config(DecoderBackend::Software),
    {
        DecoderConfig { backend: DecoderBackend::Software, mediacodec_surface: false }
    }

    pub fn videotoolbox() -> (r: Self)
        ensures
            r == plain_config(DecoderBackend::VideoToolbox),
    {
        DecoderConfig { backend: DecoderBackend::VideoToolbox, mediacodec_surface: false }
    }

    pub fn d3d11va() -> (r: Self)
        ensures
            r == plain_config(DecoderBackend::D3d11va),
    {
        DecoderConfig { backend: DecoderBackend::D3d11va, mediacodec_surface: false }
    }

    pub fn mediacodec() -> (r: Self)
        ensures
            r == surface_config(),
    {
        DecoderConfig { backend: DecoderBackend::MediaCodec, mediacodec_surface: true }
    }

    pub fn mediacodec_byte_buffer() -> (r: Self)
        ensures
            r == plain_config(DecoderBackend::MediaCodec),
    {
        DecoderConfig { backend: DecoderBackend::MediaCodec, mediacodec_surface: false }
    }

    pub fn avcodec() -> (r: Self)
        ensures
            r == plain_config(DecoderBackend::AvCodec),
    {
        DecoderConfig { backend: DecoderBackend::AvCodec, mediacodec_surface: false }
    }
}

impl Default for DecoderConfig {
    fn default() -> (r: Self)
        ensures
            r == plain_config(DecoderBackend::Software),
    {
        DecoderConfig::software()
    }
}

/// The system that the player runs on.
#[derive(Clone, Copy, Debug, PartialEq, Eq, Structural)]
pub enum Platform {
    Apple,
    Windows,
    Android,
    OpenHarmony,
    Other,
}

/// The codecs that are told apart when a decoder is opened.
#[derive(Clone, Copy, Debug, PartialEq, Eq, Structural)]
pub enum CodecId {
    H264,
    Hevc,
    Mpeg2Video,
    Mpeg4,
    Vp8,
    Vp9,
    Av1,
    Other(i32),
}

/// A decoder that is looked up by its name.
#[derive(Clone, Copy, Debug, PartialEq, Eq, Structural)]
pub enum DecoderName {
    Dav1d,
    Av1,
    H264MediaCodec,
    HevcMediaCodec,
    Mpeg2MediaCodec,
    Mpeg4MediaCodec,
    Vp8MediaCodec,
    Vp9MediaCodec,
    Av1MediaCodec,
}

impl DecoderName {
    pub open spec fn name(self) -> Seq<char> {
        match self {
            DecoderName::Dav1d => "libdav1d"@,
            DecoderName::Av1 => "av1"@,
            DecoderName::H264MediaCodec => "h264_mediacodec"@,
            DecoderName::HevcMediaCodec => "hevc_mediacodec"@,
            DecoderName::Mpeg2MediaCodec => "mpeg2_mediacodec"@,
            DecoderName::Mpeg4MediaCodec => "mpeg4_mediacodec"@,
            DecoderName::Vp8MediaCodec => "vp8_mediacodec"@,
            DecoderName::Vp9MediaCodec => "vp9_mediacodec"@,
            DecoderName::Av1MediaCodec => "av1_mediacodec"@,
        }
    }

    pub fn as_str(self) -> (r: &'static str)
        ensures
            r@ == self.name(),
    {
        match self {
            DecoderName::Dav1d => "libdav1d",
            DecoderName::Av1 => "av1",
            DecoderName::H264MediaCodec => "h264_mediacodec",
            DecoderName::HevcMediaCodec => "hevc_mediacodec",
            DecoderName::Mpeg2MediaCodec => "mpeg2_mediacodec",
            DecoderName::Mpeg4MediaCodec => "mpeg4_mediacodec",
            DecoderName::Vp8MediaCodec => "vp8_mediacodec",
            DecoderName::Vp9MediaCodec => "vp9_mediacodec",
            DecoderName::Av1MediaCodec => "av1_mediacodec",
        }
    }
}

/// How a decoder is looked up.
#[derive(Clone, Copy, Debug, PartialEq, Eq, Structural)]
pub enum DecoderLookup {
    ById,
    ByName(DecoderName),
    /// The backend has no decoder for the codec.
    Missing,
}

/// The MediaCodec decoder of a codec.
pub open spec fn mediacodec_name(codec: CodecId) -> Option<DecoderName> {
    match codec {
        CodecId::H264 => Some(DecoderName::H264MediaCodec),
        CodecId::Hevc => Some(DecoderName::HevcMediaCodec),
        CodecId::Mpeg2Video => Some(DecoderName::Mpeg2MediaCodec),
        CodecId::Mpeg4 => Some(DecoderName::Mpeg4MediaCodec),
        CodecId::Vp8 => Some(DecoderName::Vp8MediaCodec),
        CodecId::Vp9 => Some(DecoderName::Vp9MediaCodec),
        CodecId::Av1 => Some(DecoderName::Av1MediaCodec),
        CodecId::Other(_) => None,
    }
}

/// How the decoder of a backend is looked up. AV1 is decoded by dav1d in software, except on
/// Windows, and by the native decoder where VideoToolbox takes over.
pub open spec fn lookup_of(
    backend: DecoderBackend,
    codec: CodecId,
    platform: Platform,
) -> DecoderLookup {
    match backend {
        DecoderBackend::Software => if codec == CodecId::Av1 && platform != Platform::Windows {
            DecoderLookup::ByName(DecoderName::Dav1d)
        } else {
            DecoderLookup::ById
        },
        DecoderBackend::VideoToolbox => if codec == CodecId::Av1 {
            DecoderLookup::ByName(DecoderName::Av1)
        } else {
            DecoderLookup::ById
        },
        DecoderBackend::MediaCodec => match mediacodec_name(codec) {
            Some(name) => DecoderLookup::ByName(name),
            None => DecoderLookup::Missing,
        },
        DecoderBackend::D3d11va => DecoderLookup::ById,
        DecoderBackend::AvCodec => DecoderLookup::ById,
    }
}

/// The operation that a failed lookup is reported for.
pub open spec fn lookup_operation(backend: DecoderBackend, lookup: DecoderLookup) -> Seq<char> {
    if backend == DecoderBackend::MediaCodec {
        "avcodec_find_decoder_by_name(MediaCodec)"@
    } else {
        match lookup {
            DecoderLookup::ByName(DecoderName::Dav1d) => "avcodec_find_decoder_by_name(libdav1d)"@,
            DecoderLookup::ByName(DecoderName::Av1) => "avcodec_find_decoder_by_name(av1)"@,
            _ => "avcodec_find_decoder"@,
        }
    }
}

fn software_decoder(codec: CodecId, platform: Platform) -> (r: DecoderLookup)
    ensures
        r == lookup_of(DecoderBackend::Software, codec, platform),
{
    if codec == CodecId::Av1 && platform != Platform::Windows {
        DecoderLookup::ByName(DecoderName::Dav1d)
    } else {
        DecoderLookup::ById
    }
}

fn videotoolbox_decoder(codec: CodecId, platform: Platform) -> (r: DecoderLookup)
    ensures
        r == lookup_of(DecoderBackend::VideoToolbox, codec, platform),
{
    if codec == CodecId::Av1 {
        DecoderLookup::ByName(DecoderName::Av1)
    } else {
        DecoderLookup::ById
    }
}

fn mediacodec_decoder(codec: CodecId, platform: Platform) -> (r: DecoderLookup)
    ensures
        r == lookup_of(DecoderBackend::MediaCodec, codec, platform),
{
    match codec {
        CodecId::H264 => DecoderLookup::ByName(DecoderName::H264MediaCodec),
        CodecId::Hevc => DecoderLookup::ByName(DecoderName::HevcMediaCodec),
        CodecId::Mpeg2Video => DecoderLookup::ByName(DecoderName::Mpeg2MediaCodec),
        CodecId::Mpeg4 => DecoderLookup::ByName(DecoderName::Mpeg4MediaCodec),
        CodecId::Vp8 => DecoderLookup::ByName(DecoderName::Vp8MediaCodec),
        CodecId::Vp9 => DecoderLookup::ByName(DecoderName::Vp9MediaCodec),
        CodecId::Av1 => DecoderLookup::ByName(DecoderName::Av1MediaCodec),
        CodecId::Other(_) => DecoderLookup::Missing,
    }
}

fn decoder_lookup(backend: DecoderBackend, codec: CodecId, platform: Platform) -> (r: DecoderLookup)
    ensures
        r == lookup_of(backend, codec, platform),
{
    match backend {
        DecoderBackend::Software => software_decoder(codec, platform),
        DecoderBackend::MediaCodec => mediacodec_decoder(codec, platform),
        DecoderBackend::VideoToolbox => videotoolbox_decoder(codec, platform),
        DecoderBackend::D3d11va => DecoderLookup::ById,
        DecoderBackend::AvCodec => DecoderLookup::ById,
    }
}

fn find_operation(backend: DecoderBackend, lookup: DecoderLookup) -> (r: &'static str)
    ensures
        r@ == lookup_operation(backend, lookup),
{
    if backend == DecoderBackend::MediaCodec {
        return "avcodec_find_decoder_by_name(MediaCodec)";
    }
    match lookup {
        DecoderLookup::ByName(DecoderName::Dav1d) => "avcodec_find_decoder_by_name(libdav1d)",
        DecoderLookup::ByName(DecoderName::Av1) => "avcodec_find_decoder_by_name(av1)",
        _ => "avcodec_find_decoder",
    }
}

/// A device that decodes in hardware.
#[derive(Clone, Copy, Debug, PartialEq, Eq, Structural)]
pub enum HardwareDevice {
    VideoToolbox,
    D3d11va,
    MediaCodec,
}

/// An option that is handed to a decoder when it is opened.
#[derive(Clone, Copy, Debug, PartialEq, Eq, Structural)]
pub enum DecoderOption {
    ErikaNonblocking,
    NdkCodec,
    DelayFlush,
}

impl DecoderOption {
    pub open spec fn name(self) -> Seq<char> {
        match self {
            DecoderOption::ErikaNonblocking => "erika_nonblocking"@,
            DecoderOption::NdkCodec => "ndk_codec"@,
            DecoderOption::DelayFlush => "delay_flush"@,
        }
    }

    pub fn as_str(self) -> (r: &'static str)
        ensures
            r@ == self.name(),
    {
        match self {
            DecoderOption::ErikaNonblocking => "erika_nonblocking",
            DecoderOption::NdkCodec => "ndk_codec",
            DecoderOption::DelayFlush => "delay_flush",
        }
    }

    pub open spec fn operation(self) -> Seq<char> {
        match self {
            DecoderOption::ErikaNonblocking => "av_dict_set(erika_nonblocking=1)"@,
            DecoderOption::NdkCodec => "av_dict_set(ndk_codec=1)"@,
            DecoderOption::DelayFlush => "av_dict_set(delay_flush=1)"@,
        }
    }

    fn operation_text(self) -> (r: &'static str)
        ensures
            r@ == self.operation(),
    {
        match self {
            DecoderOption::ErikaNonblocking => "av_dict_set(erika_nonblocking=1)",
            DecoderOption::NdkCodec => "av_dict_set(ndk_codec=1)",
            DecoderOption::DelayFlush => "av_dict_set(delay_flush=1)",
        }
    }
}

/// One call into the media library on the way to an open decoder.
#[derive(Clone, Copy, Debug, PartialEq, Eq, Structural)]
pub enum OpenAction {
    Find(DecoderLookup),
    AllocateContext,
    CopyParameters,
    Configure(HardwareDevice),
    SetOption(DecoderOption),
    Open,
}

/// What came back from an [`OpenAction`].
#[derive(Debug, PartialEq, Eq)]
pub enum OpenReply {
    /// Whether a pointer came back at all.
    Pointer { found: bool },
    Status { code: i32, message: String },
    Configured(Result<(), FfmpegError>),
    /// The status of the opening and the options that were left over.
    Opened { code: i32, message: String, nonblocking_left: bool, surface_option_left: bool },
}

/// A request for a decoder.
#[derive(Clone, Copy, Debug, PartialEq, Eq, Structural)]
pub struct DecoderRequest {
    pub codec: CodecId,
    pub stream_index: i32,
    pub time_base: TimeBase,
    pub config: DecoderConfig,
    pub platform: Platform,
}

/// An open decoder, by what the player keeps of it.
#[derive(Clone, Copy, Debug, PartialEq, Eq, Structural)]
pub struct Decoder {
    pub stream_index: i32,
    pub time_base: TimeBase,
    pub backend: DecoderBackend,
    pub mediacodec_surface: bool,
    pub avcodec_surface: bool,
    pub eof_sent: bool,
    pub end_of_stream: bool,
}

impl DecoderRequest {
    /// Whether the request is for Android's decoder on Android itself.
    pub open spec fn on_android(self) -> bool {
        self.platform == Platform::Android && self.config.backend == DecoderBackend::MediaCodec
    }

    /// The device that is configured before the decoder is opened.
    pub open spec fn device(self) -> Option<HardwareDevice> {
        match self.config.backend {
            DecoderBackend::VideoToolbox => Some(HardwareDevice::VideoToolbox),
            DecoderBackend::D3d11va => Some(HardwareDevice::D3d11va),
            DecoderBackend::MediaCodec => if self.on_android() && self.config.mediacodec_surface {
                Some(HardwareDevice::MediaCodec)
            } else {
                None
            },
            DecoderBackend::Software => None,
            DecoderBackend::AvCodec => None,
        }
    }

    /// The options that the decoder is opened with.
    pub open spec fn options(self) -> Seq<DecoderOption> {
        if !self.on_android() {
            seq![]
        } else if self.config.mediacodec_surface {
            seq![DecoderOption::ErikaNonblocking, DecoderOption::NdkCodec, DecoderOption::DelayFlush]
        } else {
            seq![DecoderOption::ErikaNonblocking]
        }
    }

    /// The calls that open the decoder, in their order.
    pub open spec fn plan(self) -> Seq<OpenAction> {
        seq![
            OpenAction::Find(lookup_of(self.config.backend, self.codec, self.platform)),
            OpenAction::AllocateContext,
            OpenAction::CopyParameters,
        ] + (match self.device() {
            Some(device) => seq![OpenAction::Configure(device)],
            None => seq![],
        }) + self.options().map_values(|option: DecoderOption| OpenAction::SetOption(option))
            + seq![OpenAction::Open]
    }

    /// Whether a reply is of the kind that an action brings.
    pub open spec fn answers(self, action: OpenAction, reply: OpenReply) -> bool {
        match action {
            OpenAction::Find(_) => reply is Pointer,
            OpenAction::AllocateContext => reply is Pointer,
            OpenAction::CopyParameters => reply is Status,
            OpenAction::Configure(_) => reply is Configured,
            OpenAction::SetOption(_) => reply is Status,
            OpenAction::Open => reply is Opened,
        }
    }

    /// Whether the opening goes on after a reply.
    pub open spec fn goes_on(self, action: OpenAction, reply: OpenReply) -> bool {
        match reply {
            OpenReply::Pointer { found } => found && action != OpenAction::Find(
                DecoderLookup::Missing,
            ),
            OpenReply::Status { code, .. } => code >= 0,
            OpenReply::Configured(result) => result is Ok,
            OpenReply::Opened { code, nonblocking_left, surface_option_left, .. } => code >= 0
                && !(self.on_android() && nonblocking_left) && !(self.on_android()
                && self.config.mediacodec_surface && surface_option_left),
        }
    }

    /// Whether `error` is the report of a reply that ends the opening.
    pub open spec fn explains(
        self,
        error: FfmpegError,
        action: OpenAction,
        reply: OpenReply,
    ) -> bool {
        match (action, reply) {
            (OpenAction::Find(lookup), OpenReply::Pointer { .. }) => error is NullPointer
                && error->NullPointer_0@ == lookup_operation(self.config.backend, lookup),
            (OpenAction::AllocateContext, OpenReply::Pointer { .. }) => error is NullPointer
                && error->NullPointer_0@ == "avcodec_alloc_context3"@,
            (
                OpenAction::CopyParameters,
                OpenReply::Status { code, message },
            ) => crate::error::api_error_for(
                error,
                "avcodec_parameters_to_context"@,
                code,
                message@,
            ),
            (OpenAction::Configure(_), OpenReply::Configured(result)) => result == Err::<
                (),
                FfmpegError,
            >(error),
            (
                OpenAction::SetOption(option),
                OpenReply::Status { code, message },
            ) => crate::error::api_error_for(error, option.operation(), code, message@),
            (
                OpenAction::Open,
                OpenReply::Opened { code, message, nonblocking_left, .. },
            ) => if code < 0 {
                crate::error::api_error_for(error, "avcodec_open2"@, code, message@)
            } else if nonblocking_left {
                error is AndroidMediaCodec && error->AndroidMediaCodec_0@
                    == "FFmpeg did not consume required decoder option erika_nonblocking=1; rebuild Android native dependencies with the Erika FFmpeg 8.1.2 patch set"@
            } else {
                error is AndroidMediaCodec && error->AndroidMediaCodec_0@
                    == "FFmpeg did not consume required Surface decoder options ndk_codec=1 and delay_flush=1"@
            },
            _ => false,
        }
    }

    /// The decoder that the request ends in.
    pub open spec fn decoder(self) -> Decoder {
        Decoder {
            stream_index: self.stream_index,
            time_base: self.time_base,
            backend: self.config.backend,
            mediacodec_surface: self.config.mediacodec_surface,
            avcodec_surface: self.config.backend == DecoderBackend::AvCodec,
            eof_sent: false,
            end_of_stream: false,
        }
    }

    /// The calls that open the decoder, in their order.
    pub fn open_plan(&self) -> (r: Vec<OpenAction>)
        ensures
            r@ == self.plan(),
    {
        let mut plan: Vec<OpenAction> = Vec::new();
        plan.push(
            OpenAction::Find(decoder_lookup(self.config.backend, self.codec, self.platform)),
        );
        plan.push(OpenAction::AllocateContext);
        plan.push(OpenAction::CopyParameters);
        let android = self.platform == Platform::Android;
        match self.config.backend {
            DecoderBackend::Software => {},
            DecoderBackend::AvCodec => {},
            DecoderBackend::MediaCodec => {
                if android && self.config.mediacodec_surface {
                    plan.push(OpenAction::Configure(HardwareDevice::MediaCodec));
                }
            },
            DecoderBackend::VideoToolbox => {
                plan.push(OpenAction::Configure(HardwareDevice::VideoToolbox));
            },
            DecoderBackend::D3d11va => {
                plan.push(OpenAction::Configure(HardwareDevice::D3d11va));
            },
        }
        if android && self.config.backend == DecoderBackend::MediaCodec {
            plan.push(OpenAction::SetOption(DecoderOption::ErikaNonblocking));
            if self.config.mediacodec_surface {
                plan.push(OpenAction::SetOption(DecoderOption::NdkCodec));
                plan.push(OpenAction::SetOption(DecoderOption::DelayFlush));
            }
        }
        plan.push(OpenAction::Open);
        assert(plan@ =~= self.plan());
        plan
    }

    /// Reads the reply to one action of the plan.
    pub fn read_reply(&self, action: OpenAction, reply: OpenReply) -> (r: Result<(), FfmpegError>)
        requires
            self.answers(action, reply),
        ensures
            r is Ok <==> self.goes_on(action, reply),
            r matches Err(error) ==> self.explains(error, action, reply),
    {
        match action {
            OpenAction::Find(lookup) => match reply {
                OpenReply::Pointer { found } => {
                    if !found || lookup == DecoderLookup::Missing {
                        return Err(
                            FfmpegError::NullPointer(
                                find_operation(self.config.backend, lookup).to_owned(),
                            ),
                        );
                    }
                    Ok(())
                },
                _ => Ok(()),
            },
            OpenAction::AllocateContext => match reply {
                OpenReply::Pointer { found } => {
                    if !found {
                        return Err(FfmpegError::NullPointer("avcodec_alloc_context3".to_owned()));
                    }
                    Ok(())
                },
                _ => Ok(()),
            },
            OpenAction::CopyParameters => match reply {
                OpenReply::Status { code, message } => check(
                    code,
                    "avcodec_parameters_to_context",
                    message.as_str(),
                ),
                _ => Ok(()),
            },
            OpenAction::Configure(_) => match reply {
                OpenReply::Configured(result) => result,
                _ => Ok(()),
            },
            OpenAction::SetOption(option) => match reply {
                OpenReply::Status { code, message } => check(
                    code,
                    option.operation_text(),
                    message.as_str(),
                ),
                _ => Ok(()),
            },
            OpenAction::Open => match reply {
                OpenReply::Opened { code, message, nonblocking_left, surface_option_left } =>
                self.read_open_status(
                    code,
                    message.as_str(),
                    nonblocking_left,
                    surface_option_left,
                ),
                _ => Ok(()),
            },
        }
    }

    /// An option that the decoder did not take would leave it waiting where the player must not,
    /// so the decoder is refused.
    fn read_open_status(
        &self,
        code: i32,
        message: &str,
        nonblocking_left: bool,
        surface_option_left: bool,
    ) -> (r: Result<(), FfmpegError>)
        ensures
            forall|reply: OpenReply|
                reply is Opened && reply->Opened_code == code && reply->Opened_message@ == message@
                    && reply->nonblocking_left == nonblocking_left && reply->surface_option_left
                    == surface_option_left ==> (r is Ok <==> #[trigger] self.goes_on(
                    OpenAction::Open,
                    reply,
                )) && (r is Err ==> self.explains(r->Err_0, OpenAction::Open, reply)),
    {
        let android = self.platform == Platform::Android && self.config.backend
            == DecoderBackend::MediaCodec;
        match check(code, "avcodec_open2", message) {
            Err(error) => Err(error),
            Ok(()) => {
                if android && nonblocking_left {
                    return Err(
                        FfmpegError::AndroidMediaCodec(
                            "FFmpeg did not consume required decoder option erika_nonblocking=1; rebuild Android native dependencies with the Erika FFmpeg 8.1.2 patch set".to_owned(),
                        ),
                    );
                }
                if android && self.config.mediacodec_surface && surface_option_left {
                    return Err(
                        FfmpegError::AndroidMediaCodec(
                            "FFmpeg did not consume required Surface decoder options ndk_codec=1 and delay_flush=1".to_owned(),
                        ),
                    );
                }
                Ok(())
            },
        }
    }
}

/// How far an opening has come.
#[derive(Clone, Debug, PartialEq, Eq)]
pub struct DecoderOpening {
    pub request: DecoderRequest,
    pub plan: Vec<OpenAction>,
    pub done: usize,
}

impl DecoderOpening {
    pub open spec fn well_formed(self) -> bool {
        &&& self.plan@ == self.request.plan()
        &&& self.done < self.plan@.len()
    }

    pub fn begin(request: DecoderRequest) -> (r: Self)
        ensures
            r.well_formed(),
            r.request == request,
            r.done == 0,
    {
        DecoderOpening { request, plan: request.open_plan(), done: 0 }
    }

    /// The call that is due.
    pub fn action(&self) -> (r: OpenAction)
        requires
            self.well_formed(),
        ensures
            r == self.request.plan()[self.done as int],
    {
        self.plan[self.done]
    }

    /// Takes the reply to the call that was due: the decoder once the last call went well, and
    /// the error of the first call that did not.
    pub fn answer(&mut self, reply: OpenReply) -> (r: Result<Option<Decoder>, FfmpegError>)
        requires
            old(self).well_formed(),
            old(self).request.answers(old(self).request.plan()[old(self).done as int], reply),
        ensures
            final(self).request == old(self).request,
            ({
                let request = old(self).request;
                let action = request.plan()[old(self).done as int];
                let last = old(self).done + 1 == request.plan().len();
                &&& r is Err <==> !request.goes_on(action, reply)
                &&& r is Err ==> request.explains(r->Err_0, action, reply) && *final(self) == *old(self)
                &&& r is Ok ==> r->Ok_0 == (if last {
                    Some(request.decoder())
                } else {
                    None
                })
                &&& r is Ok && !last ==> final(self).well_formed() && final(self).done == old(self).done + 1
                &&& r is Ok && last ==> *final(self) == *old(self)
            }),
    {
        let action = self.plan[self.done];
        match self.request.read_reply(action, reply) {
            Err(error) => Err(error),
            Ok(()) => {
                if self.done + 1 < self.plan.len() {
                    self.done = self.done + 1;
                    return Ok(None);
                }
                Ok(
                    Some(
                        Decoder {
                            stream_index: self.request.stream_index,
                            time_base: self.request.time_base,
                            backend: self.request.config.backend,
                            mediacodec_surface: self.request.config.mediacodec_surface,
                            avcodec_surface: self.request.config.backend
                                == DecoderBackend::AvCodec,
                            eof_sent: false,
                            end_of_stream: false,
                        },
                    ),
                )
            },
        }
    }
}

/// A decoder is opened last of all, and every option that Android's decoder depends on is set
/// before that.
pub proof fn law_a_decoder_is_opened_last(request: DecoderRequest)
    ensures
        request.plan().last() == OpenAction::Open,
        forall|i: int|
            0 <= i < request.plan().len() - 1 ==> #[trigger] request.plan()[i] != OpenAction::Open,
        request.on_android() ==> request.plan().contains(
            OpenAction::SetOption(DecoderOption::ErikaNonblocking),
        ),
        request.on_android() && request.config.mediacodec_surface ==> request.plan().contains(
            OpenAction::SetOption(DecoderOption::NdkCodec),
        ) && request.plan().contains(OpenAction::SetOption(DecoderOption::DelayFlush)),
{
    let plan = request.plan();
    if request.on_android() {
        if request.config.mediacodec_surface {
            assert(plan[4] == OpenAction::SetOption(DecoderOption::ErikaNonblocking));
            assert(plan[5] == OpenAction::SetOption(DecoderOption::NdkCodec));
            assert(plan[6] == OpenAction::SetOption(DecoderOption::DelayFlush));
        } else {
            assert(plan[3] == OpenAction::SetOption(DecoderOption::ErikaNonblocking));
        }
    }
}

impl Decoder {
    pub fn stream_index(&self) -> (r: i32)
        ensures
            r == self.stream_index,
    {
        self.stream_index
    }

    pub fn time_base(&self) -> (r: TimeBase)
        ensures
            r == self.time_base,
    {
        self.time_base
    }

    pub fn backend(&self) -> (r: DecoderBackend)
        ensures
            r == self.backend,
    {
        self.backend
    }

    pub open spec fn on_surface(self) -> bool {
        self.backend == DecoderBackend::MediaCodec && self.mediacodec_surface
    }

    pub fn uses_mediacodec_surface(&self) -> (r: bool)
        ensures
            r == self.on_surface(),
    {
        self.backend == DecoderBackend::MediaCodec && self.mediacodec_surface
    }

    pub open spec fn on_avcodec_surface(self) -> bool {
        self.backend == DecoderBackend::AvCodec && self.avcodec_surface
    }

    pub fn uses_avcodec_surface(&self) -> (r: bool)
        ensures
            r == self.on_avcodec_surface(),
    {
        self.backend == DecoderBackend::AvCodec && self.avcodec_surface
    }

    pub fn eof_sent(&self) -> (r: bool)
        ensures
            r == self.eof_sent,
    {
        self.eof_sent
    }

    pub fn is_end_of_stream(&self) -> (r: bool)
        ensures
            r == self.end_of_stream,
    {
        self.end_of_stream
    }

    /// Whether a packet may be sent to the decoder at all.
    pub fn admit_packet(&self, packet: &Packet) -> (r: Result<(), FfmpegError>)
        ensures
            r == (if packet.stream_index == self.stream_index {
                Ok::<(), FfmpegError>(())
            } else {
                Err(
                    FfmpegError::StreamMismatch {
                        decoder_stream: self.stream_index,
                        packet_stream: packet.stream_index,
                    },
                )
            }),
    {
        if packet.stream_index() != self.stream_index {
            return Err(
                FfmpegError::StreamMismatch {
                    decoder_stream: self.stream_index,
                    packet_stream: packet.stream_index(),
                },
            );
        }
        Ok(())
    }

    /// Reads the status with which the media library took a packet.
    pub fn send_packet(&mut self, packet: &Packet, code: i32, message: &str) -> (r: Result<
        (),
        FfmpegError,
    >)
        ensures
            *final(self) == *old(self),
            r is Ok <==> packet.stream_index == old(self).stream_index && code >= 0,
            packet.stream_index != old(self).stream_index ==> r == Err::<(), FfmpegError>(
                FfmpegError::StreamMismatch {
                    decoder_stream: old(self).stream_index,
                    packet_stream: packet.stream_index,
                },
            ),
            packet.stream_index == old(self).stream_index && code < 0 ==> r is Err
                && crate::error::api_error_for(r->Err_0, "avcodec_send_packet"@, code, message@),
    {
        match self.admit_packet(packet) {
            Err(error) => Err(error),
            Ok(()) => check(code, "avcodec_send_packet", message),
        }
    }

    /// Reads the status with which the media library took the end of the stream. Once it has been
    /// sent it is not sent again, and no status is looked at.
    pub fn send_eof(&mut self, code: i32, message: &str) -> (r: Result<(), FfmpegError>)
        ensures
            r is Ok <==> old(self).eof_sent || code == AVERROR_EOF || code >= 0,
            r is Err ==> crate::error::api_error_for(
                r->Err_0,
                "avcodec_send_packet_eof"@,
                code,
                message@,
            ) && *final(self) == *old(self),
            r is Ok ==> *final(self) == (Decoder {
                eof_sent: true,
                end_of_stream: old(self).end_of_stream || (!old(self).eof_sent && code
                    == AVERROR_EOF),
                ..*old(self)
            }),
    {
        if self.eof_sent {
            return Ok(());
        }
        if code == AVERROR_EOF {
            self.eof_sent = true;
            self.end_of_stream = true;
            return Ok(());
        }
        match check(code, "avcodec_send_packet_eof", message) {
            Err(error) => Err(error),
            Ok(()) => {
                self.eof_sent = true;
                Ok(())
            },
        }
    }

    /// What a status of the media library says of the next frame.
    pub open spec fn output_for(code: i32, again: i32) -> Option<DecoderOutput> {
        if code == -again {
            Some(DecoderOutput::NeedMoreInput)
        } else if code == AVERROR_EOF {
            Some(DecoderOutput::EndOfStream)
        } else if code >= 0 {
            Some(DecoderOutput::Frame)
        } else {
            None
        }
    }

    /// The decoder after a frame was asked for.
    pub open spec fn after_receive(self, output: Option<DecoderOutput>) -> Decoder {
        Decoder {
            end_of_stream: self.end_of_stream || output == Some(DecoderOutput::EndOfStream),
            ..self
        }
    }

    /// Reads the status with which the media library handed out a frame; `again` is the error
    /// number of the machine that asks for more input.
    pub fn read_frame_status(&mut self, code: i32, message: &str, again: i32) -> (r: Result<
        DecoderOutput,
        FfmpegError,
    >)
        requires
            again > 0,
        ensures
            *final(self) == old(self).after_receive(Self::output_for(code, again)),
            r is Ok <==> Self::output_for(code, again) is Some,
            r is Ok ==> Some(r->Ok_0) == Self::output_for(code, again),
            r is Err ==> crate::error::api_error_for(
                r->Err_0,
                "avcodec_receive_frame"@,
                code,
                message@,
            ),
    {
        if code == av_error(again) {
            return Ok(DecoderOutput::NeedMoreInput);
        }
        if code == AVERROR_EOF {
            self.end_of_stream = true;
            return Ok(DecoderOutput::EndOfStream);
        }
        match check(code, "avcodec_receive_frame", message) {
            Err(error) => Err(error),
            Ok(()) => Ok(DecoderOutput::Frame),
        }
    }

    /// Reads the status with which the media library handed out a frame on this machine.
    pub fn receive_frame(&mut self, code: i32, message: &str) -> (r: Result<
        DecoderOutput,
        FfmpegError,
    >)
        ensures
            exists|again: i32|
                {
                    &&& crate::error::means_again(again)
                    &&& *final(self) == old(self).after_receive(
                        #[trigger] Self::output_for(code, again),
                    )
                    &&& r is Ok <==> Self::output_for(code, again) is Some
                    &&& r is Ok ==> Some(r->Ok_0) == Self::output_for(code, again)
                },
            code >= 0 ==> r == Ok::<DecoderOutput, FfmpegError>(DecoderOutput::Frame),
            r is Err ==> crate::error::api_error_for(
                r->Err_0,
                "avcodec_receive_frame"@,
                code,
                message@,
            ),
    {
        let again: i32 = errno_again();
        self.read_frame_status(code, message, again)
    }

    /// Whether a picture may be taken from the decoder; `attached` says whether the decoder draws
    /// on a surface. On Android a picture that waits on a surface needs one.
    pub fn admit_frame(&self, platform: Platform, format: PixelFormat, attached: bool) -> (r: Result<
        (),
        FfmpegError,
    >)
        ensures
            r is Err <==> platform == Platform::Android && self.backend
                == DecoderBackend::MediaCodec && format == PixelFormat::MediaCodec && !attached,
            r is Err ==> r->Err_0 is AndroidMediaCodec && r->Err_0->AndroidMediaCodec_0@
                == "decoder returned AV_PIX_FMT_MEDIACODEC without an AImageReader source"@,
    {
        if platform == Platform::Android && self.backend == DecoderBackend::MediaCodec && format
            == PixelFormat::MediaCodec && !attached {
            return Err(
                FfmpegError::AndroidMediaCodec(
                    "decoder returned AV_PIX_FMT_MEDIACODEC without an AImageReader source".to_owned(),
                ),
            );
        }
        Ok(())
    }

    /// Notes what a frame that was asked for turned out to be.
    pub fn note_output(&mut self, output: DecoderOutput)
        ensures
            *final(self) == old(self).after_receive(Some(output)),
    {
        if output == DecoderOutput::EndOfStream {
            self.end_of_stream = true;
        }
    }

    pub open spec fn flushed(self) -> Decoder {
        Decoder { eof_sent: false, end_of_stream: false, ..self }
    }

    pub fn flush(&mut self)
        ensures
            *final(self) == old(self).flushed(),
    {
        self.eof_sent = false;
        self.end_of_stream = false;
    }
}

/// One way in which a codec can decode in hardware.
#[derive(Clone, Copy, Debug, PartialEq, Eq, Structural)]
pub struct HardwareConfig {
    pub device: HardwareDevice,
    /// Whether the codec takes a device of its own.
    pub device_context: bool,
    pub pixel_format: i32,
}

/// The place of the first way that serves a device.
pub open spec fn first_serving(
    configs: Seq<HardwareConfig>,
    device: HardwareDevice,
    at: int,
) -> bool {
    &&& 0 <= at < configs.len()
    &&& configs[at].device == device && configs[at].device_context
    &&& forall|i: int|
        0 <= i < at ==> !((#[trigger] configs[i]).device == device && configs[i].device_context)
}

/// The pixel format of the first way in which a codec decodes on a device.
pub fn hardware_pixel_format(configs: &Vec<HardwareConfig>, device: HardwareDevice) -> (r: Option<
    i32,
>)
    ensures
        r is None <==> forall|i: int|
            0 <= i < configs@.len() ==> !((#[trigger] configs@[i]).device == device
                && configs@[i].device_context),
        r is Some ==> exists|at: int|
            #[trigger] first_serving(configs@, device, at) && r->0 == configs@[at].pixel_format,
{
    let mut index: usize = 0;
    while index < configs.len()
        invariant
            index <= configs@.len(),
            forall|i: int|
                0 <= i < index ==> !((#[trigger] configs@[i]).device == device
                    && configs@[i].device_context),
        decreases configs@.len() - index,
    {
        if configs[index].device == device && configs[index].device_context {
            assert(first_serving(configs@, device, index as int));
            return Some(configs[index].pixel_format);
        }
        index = index + 1;
    }
    None
}

/// The format that ends a list of formats.
pub const PIXEL_FORMAT_END: i32 = -1;

/// Whether a list of formats holds one at a place before its end mark.
pub open spec fn offers(formats: Seq<i32>, format: i32, at: int) -> bool {
    &&& 0 <= at < formats.len()
    &&& formats[at] == format
    &&& forall|i: int| 0 <= i <= at ==> #[trigger] formats[i] != PIXEL_FORMAT_END
}

/// The format of the device, where a decoder offers it; without it the media library chooses.
/// The list counts up to its end mark.
pub fn select_hardware_format(target: Option<i32>, formats: &Vec<i32>) -> (r: Option<i32>)
    ensures
        r is Some <==> target is Some && exists|i: int| offers(formats@, target->0, i),
        r is Some ==> r == target,
{
    match target {
        None => None,
        Some(wanted) => {
            let mut index: usize = 0;
            while index < formats.len()
                invariant
                    target == Some(wanted),
                    index <= formats@.len(),
                    forall|i: int|
                        0 <= i < index ==> #[trigger] formats@[i] != wanted && formats@[i]
                            != PIXEL_FORMAT_END,
                decreases formats@.len() - index,
            {
                if formats[index] == PIXEL_FORMAT_END {
                    assert forall|i: int| !offers(formats@, wanted, i) by {
                        if 0 <= i < index {
                            assert(formats@[i] != wanted);
                        } else if 0 <= i < formats@.len() {
                            assert(formats@[index as int] == PIXEL_FORMAT_END);
                        }
                    }
                    return None;
                }
                if formats[index] == wanted {
                    assert(offers(formats@, target->0, index as int));
                    return Some(wanted);
                }
                index = index + 1;
            }
            None
        },
    }
}

/// What came back from the calls that give a decoder its device, in their order. Nothing behind
/// a failed one is looked at.
#[derive(Clone, Debug, PartialEq, Eq)]
pub struct DeviceReplies {
    pub pixel_format: Option<i32>,
    pub created_code: i32,
    pub created_message: String,
    pub created: bool,
    pub referenced: bool,
}

pub open spec fn device_lookup_operation(device: HardwareDevice) -> Seq<char> {
    match device {
        HardwareDevice::VideoToolbox => "avcodec_get_hw_config(VideoToolbox)"@,
        HardwareDevice::D3d11va => "avcodec_get_hw_config(D3D11VA)"@,
        HardwareDevice::MediaCodec => "avcodec_get_hw_config(MediaCodec)"@,
    }
}

pub open spec fn device_creation_operation(device: HardwareDevice) -> Seq<char> {
    match device {
        HardwareDevice::VideoToolbox => "av_hwdevice_ctx_create(VideoToolbox)"@,
        HardwareDevice::D3d11va => "av_hwdevice_ctx_create(D3D11VA)"@,
        HardwareDevice::MediaCodec => "av_hwdevice_ctx_create(MediaCodec)"@,
    }
}

fn device_operations(device: HardwareDevice) -> (r: (&'static str, &'static str))
    ensures
        r.0@ == device_lookup_operation(device),
        r.1@ == device_creation_operation(device),
{
    match device {
        HardwareDevice::VideoToolbox => (
            "avcodec_get_hw_config(VideoToolbox)",
            "av_hwdevice_ctx_create(VideoToolbox)",
        ),
        HardwareDevice::D3d11va => (
            "avcodec_get_hw_config(D3D11VA)",
            "av_hwdevice_ctx_create(D3D11VA)",
        ),
        HardwareDevice::MediaCodec => (
            "avcodec_get_hw_config(MediaCodec)",
            "av_hwdevice_ctx_create(MediaCodec)",
        ),
    }
}

/// Gives a decoder its hardware device: the pixel format that it decodes to, or the error of the
/// first call that failed.
pub fn configure_hardware(device: HardwareDevice, replies: &DeviceReplies) -> (r: Result<
    i32,
    FfmpegError,
>)
    ensures
        r is Ok <==> replies.pixel_format is Some && replies.created_code >= 0 && replies.created
            && replies.referenced,
        r is Ok ==> r->Ok_0 == replies.pixel_format->0,
        r is Err ==> if replies.pixel_format is None {
            r->Err_0 is NullPointer && r->Err_0->NullPointer_0@ == device_lookup_operation(device)
        } else if replies.created_code < 0 {
            crate::error::api_error_for(
                r->Err_0,
                device_creation_operation(device),
                replies.created_code,
                replies.created_message@,
            )
        } else if !replies.created {
            r->Err_0 is NullPointer && r->Err_0->NullPointer_0@ == device_creation_operation(
                device,
            )
        } else {
            r->Err_0 is NullPointer && r->Err_0->NullPointer_0@ == "av_buffer_ref(hw_device_ctx)"@
        },
{
    let (lookup, creation) = device_operations(device);
    match replies.pixel_format {
        None => Err(FfmpegError::NullPointer(lookup.to_owned())),
        Some(pixel_format) => {
            if replies.created_code < 0 {
                return Err(
                    api_error(creation, replies.created_code, replies.created_message.as_str()),
                );
            }
            if !replies.created {
                return Err(FfmpegError::NullPointer(creation.to_owned()));
            }
            if !replies.referenced {
                return Err(FfmpegError::NullPointer("av_buffer_ref(hw_device_ctx)".to_owned()));
            }
            Ok(pixel_format)
        },
    }
}

/// What came back from the calls that give Android's decoder its surface, in their order.
/// Nothing behind a failed one is looked at.
#[derive(Clone, Debug, PartialEq, Eq)]
pub struct SurfaceReplies {
    pub pixel_format: Option<i32>,
    /// The error of the surface's own making.
    pub source_error: Option<String>,
    pub device: bool,
    pub device_context: bool,
    pub surface_context: bool,
    pub initialized_code: i32,
    pub initialized_message: String,
    pub referenced: bool,
}

impl SurfaceReplies {
    /// Whether every call went well.
    pub open spec fn all_well(self, mediacodec_format: i32) -> bool {
        &&& self.pixel_format == Some(mediacodec_format)
        &&& self.source_error is None
        &&& self.device
        &&& self.device_context
        &&& self.surface_context
        &&& self.initialized_code >= 0
        &&& self.referenced
    }

    /// Whether `error` is the report of the first call that failed.
    pub open spec fn explains(self, error: FfmpegError, mediacodec_format: i32) -> bool {
        if self.pixel_format is None {
            error is AndroidMediaCodec && error->AndroidMediaCodec_0@
                == "avcodec_get_hw_config did not expose a MediaCodec HW device format"@
        } else if self.pixel_format->0 != mediacodec_format {
            error is AndroidMediaCodec && error->AndroidMediaCodec_0@
                == "unexpected MediaCodec hardware pixel format "@ + crate::text::signed_decimal(
                self.pixel_format->0 as int,
            )
        } else if self.source_error is Some {
            error == FfmpegError::AndroidMediaCodec(self.source_error->0)
        } else if !self.device {
            error is NullPointer && error->NullPointer_0@ == "av_hwdevice_ctx_alloc(MediaCodec)"@
        } else if !self.device_context {
            error is NullPointer && error->NullPointer_0@ == "AVHWDeviceContext(MediaCodec)"@
        } else if !self.surface_context {
            error is NullPointer && error->NullPointer_0@ == "AVMediaCodecDeviceContext"@
        } else if self.initialized_code < 0 {
            crate::error::api_error_for(
                error,
                "av_hwdevice_ctx_init(MediaCodec)"@,
                self.initialized_code,
                self.initialized_message@,
            )
        } else {
            error is NullPointer && error->NullPointer_0@
                == "av_buffer_ref(MediaCodec hw_device_ctx)"@
        }
    }
}

/// Gives Android's decoder its surface, or the error of the first call that failed;
/// `mediacodec_format` is the pixel format of a surface picture.
pub fn configure_mediacodec(replies: &SurfaceReplies, mediacodec_format: i32) -> (r: Result<
    (),
    FfmpegError,
>)
    ensures
        r is Ok <==> replies.all_well(mediacodec_format),
        r is Err ==> replies.explains(r->Err_0, mediacodec_format),
{
    match replies.pixel_format {
        None => {
            return Err(
                FfmpegError::AndroidMediaCodec(
                    "avcodec_get_hw_config did not expose a MediaCodec HW device format".to_owned(),
                ),
            );
        },
        Some(pixel_format) => {
            if pixel_format != mediacodec_format {
                return Err(
                    FfmpegError::AndroidMediaCodec(
                        joined(
                            "unexpected MediaCodec hardware pixel format ",
                            signed_decimal_text(pixel_format as i64).as_str(),
                        ),
                    ),
                );
            }
        },
    }
    if let Some(error) = &replies.source_error {
        return Err(FfmpegError::AndroidMediaCodec(error.clone()));
    }
    if !replies.device {
        return Err(FfmpegError::NullPointer("av_hwdevice_ctx_alloc(MediaCodec)".to_owned()));
    }
    if !replies.device_context {
        return Err(FfmpegError::NullPointer("AVHWDeviceContext(MediaCodec)".to_owned()));
    }
    if !replies.surface_context {
        return Err(FfmpegError::NullPointer("AVMediaCodecDeviceContext".to_owned()));
    }
    match check(
        replies.initialized_code,
        "av_hwdevice_ctx_init(MediaCodec)",
        replies.initialized_message.as_str(),
    ) {
        Err(error) => Err(error),
        Ok(()) => {
            if !replies.referenced {
                return Err(
                    FfmpegError::NullPointer("av_buffer_ref(MediaCodec hw_device_ctx)".to_owned()),
                );
            }
            Ok(())
        },
    }
}

/// A side of the surface that Android's decoder draws on: the larger of the two sizes that the
/// codec states, and never below zero.
pub fn surface_side(size: i32, coded_size: i32) -> (r: u32)
    ensures
        r == crate::time::max_int(crate::time::max_int(size as int, coded_size as int), 0),
{
    let side: i32 = if size >= coded_size {
        size
    } else {
        coded_size
    };
    if side < 0 {
        0
    } else {
        side as u32
    }
}

/// The unit that the sides of a D3D11 picture are multiples of.
pub open spec fn side_unit(codec: CodecId) -> int {
    match codec {
        CodecId::Mpeg2Video => 32,
        CodecId::Hevc => 128,
        CodecId::Av1 => 128,
        _ => 16,
    }
}

/// The sides of a D3D11 picture are multiples of this.
pub fn d3d11va_surface_alignment(codec: CodecId) -> (r: i32)
    ensures
        r == side_unit(codec),
{
    match codec {
        CodecId::Mpeg2Video => 32,
        CodecId::Hevc => 128,
        CodecId::Av1 => 128,
        _ => 16,
    }
}

/// The number of D3D11 pictures that are set aside.
pub fn d3d11va_pool_size(codec: CodecId) -> (r: i32)
    ensures
        r == (match codec {
            CodecId::H264 => 20i32,
            CodecId::Hevc => 20,
            CodecId::Vp9 => 12,
            CodecId::Av1 => 12,
            _ => 5,
        }),
{
    match codec {
        CodecId::H264 => 20,
        CodecId::Hevc => 20,
        CodecId::Vp9 => 12,
        CodecId::Av1 => 12,
        _ => 5,
    }
}

/// The smallest multiple of `alignment` that reaches `value`, and at least one.
pub fn align_i32(value: i32, alignment: i32) -> (r: i32)
    requires
        alignment > 0,
        crate::time::max_int(value as int, 1) + alignment <= i32::MAX,
    ensures
        r as int % alignment as int == 0,
        r >= value && r >= 1,
        r - alignment < crate::time::max_int(value as int, 1),
{
    let value: i32 = if value < 1 {
        1
    } else {
        value
    };
    let steps: i32 = (value + alignment - 1) / alignment;
    proof {
        let a = alignment as int;
        let n = value + alignment - 1;
        vstd::arithmetic::div_mod::lemma_fundamental_div_mod(n, a);
        vstd::arithmetic::div_mod::lemma_mod_bound(n, a);
        vstd::arithmetic::mul::lemma_mul_is_commutative(a, n / a);
        vstd::arithmetic::div_mod::lemma_mod_multiples_basic(n / a, a);
        assert(steps == n / a);
        assert(steps * alignment == n - n % a);
    }
    steps * alignment
}

/// The picture size and the number of pictures of a D3D11 decoder.
#[derive(Clone, Copy, Debug, PartialEq, Eq, Structural)]
pub struct D3d11FramePool {
    pub ten_bits: bool,
    pub width: i32,
    pub height: i32,
    pub pool_size: i32,
}

/// Lays out the pictures of a D3D11 decoder; `ten_bits` says whether the codec decodes to more
/// than eight bits.
pub fn d3d11va_frame_pool(codec: CodecId, ten_bits: bool, coded_width: i32, coded_height: i32) -> (r:
    D3d11FramePool)
    requires
        coded_width <= i32::MAX - side_unit(codec),
        coded_height <= i32::MAX - side_unit(codec),
    ensures
        r.ten_bits == ten_bits,
        ({
            let a = side_unit(codec);
            &&& (r.width as int) % a == 0 && r.width >= coded_width && r.width >= 1 && r.width - a
                < crate::time::max_int(coded_width as int, 1)
            &&& (r.height as int) % a == 0 && r.height >= coded_height && r.height >= 1 && r.height - a
                < crate::time::max_int(coded_height as int, 1)
        }),
        r.pool_size == (match codec {
            CodecId::H264 => 20i32,
            CodecId::Hevc => 20,
            CodecId::Vp9 => 12,
            CodecId::Av1 => 12,
            _ => 5,
        }),
{
    let alignment: i32 = d3d11va_surface_alignment(codec);
    D3d11FramePool {
        ten_bits,
        width: align_i32(coded_width, alignment),
        height: align_i32(coded_height, alignment),
        pool_size: d3d11va_pool_size(codec),
    }
}

/// How far the picture of a surface frame has come on its way from the codec. A picture is known
/// by a number; a failure is kept as its text.
#[derive(Debug, PartialEq, Eq)]
pub struct FrameDelivery {
    pub released: bool,
    pub result: Option<Result<u64, String>>,
}

/// What is due next for a surface frame.
#[derive(Debug, PartialEq, Eq)]
pub enum DeliveryStep {
    Finished(Result<u64, FfmpegError>),
    CheckCapacity,
    Release,
    Acquire,
}

/// Why no picture came out of the surface.
#[derive(Clone, Debug, PartialEq, Eq)]
pub enum AcquireFailure {
    /// The surface is full: the picture may be asked for again.
    Backpressure(String),
    Failed(String),
}

impl FrameDelivery {
    pub fn new() -> (r: Self)
        ensures
            r == (FrameDelivery { released: false, result: None }),
    {
        FrameDelivery { released: false, result: None }
    }

    /// What a kept result answers.
    pub open spec fn kept(self) -> Result<u64, FfmpegError> {
        match self.result->0 {
            Ok(image) => Ok(image),
            Err(text) => Err(FfmpegError::AndroidMediaCodec(text)),
        }
    }

    fn kept_result(&self) -> (r: Option<Result<u64, FfmpegError>>)
        ensures
            r is Some <==> self.result is Some,
            r is Some ==> r->0 == self.kept(),
    {
        match &self.result {
            None => None,
            Some(Ok(image)) => Some(Ok(*image)),
            Some(Err(text)) => Some(Err(FfmpegError::AndroidMediaCodec(text.clone()))),
        }
    }

    /// Starts to bring a frame's picture: `received` is the pixel format of the frame where it is
    /// no surface frame, and `attached` says whether the frame knows its surface.
    pub fn begin(&self, received: Option<&str>, attached: bool) -> (r: DeliveryStep)
        ensures
            received is Some ==> r is Finished && r->0 is Err && r->0->Err_0 is AndroidMediaCodec
                && r->0->Err_0->AndroidMediaCodec_0@ == "expected AV_PIX_FMT_MEDIACODEC, received "@
                + received->0@,
            received is None && !attached ==> r is Finished && r->0 is Err
                && r->0->Err_0 is AndroidMediaCodec && r->0->Err_0->AndroidMediaCodec_0@
                == "MediaCodec frame is not associated with its AImageReader source"@,
            received is None && attached ==> r == (if self.result is Some {
                DeliveryStep::Finished(self.kept())
            } else if self.released {
                DeliveryStep::Acquire
            } else {
                DeliveryStep::CheckCapacity
            }),
    {
        if let Some(received) = received {
            return DeliveryStep::Finished(
                Err(
                    FfmpegError::AndroidMediaCodec(
                        joined("expected AV_PIX_FMT_MEDIACODEC, received ", received),
                    ),
                ),
            );
        }
        if !attached {
            return DeliveryStep::Finished(
                Err(
                    FfmpegError::AndroidMediaCodec(
                        "MediaCodec frame is not associated with its AImageReader source".to_owned(),
                    ),
                ),
            );
        }
        match self.kept_result() {
            Some(result) => DeliveryStep::Finished(result),
            None => if self.released {
                DeliveryStep::Acquire
            } else {
                DeliveryStep::CheckCapacity
            },
        }
    }

    /// Goes on when the surface has said whether it has room: a full one leaves the codec's
    /// buffer where it is, for a later try.
    pub fn after_capacity(&mut self, backpressure: Option<String>, buffer: bool) -> (r: DeliveryStep)
        requires
            old(self).result is None,
            !old(self).released,
        ensures
            final(self).released == old(self).released,
            backpressure is Some ==> *final(self) == *old(self) && r == DeliveryStep::Finished(
                Err(FfmpegError::AndroidMediaCodecBackpressure(backpressure->0)),
            ),
            backpressure is None && !buffer ==> {
                &&& r is Finished && r->0 is Err && r->0->Err_0 is NullPointer
                &&& r->0->Err_0->NullPointer_0@ == "AVMediaCodecBuffer"@
                &&& final(self).result is Some && final(self).result->0 is Err
                &&& final(self).result->0->Err_0@ == r->0->Err_0.text()
            },
            backpressure is None && buffer ==> *final(self) == *old(self) && r
                == DeliveryStep::Release,
    {
        match backpressure {
            Some(text) => DeliveryStep::Finished(
                Err(FfmpegError::AndroidMediaCodecBackpressure(text)),
            ),
            None => {
                if !buffer {
                    let error = FfmpegError::NullPointer("AVMediaCodecBuffer".to_owned());
                    self.result = Some(Err(error.message()));
                    return DeliveryStep::Finished(Err(error));
                }
                DeliveryStep::Release
            },
        }
    }

    /// Goes on when the codec has been asked to draw its buffer.
    pub fn after_release(&mut self, code: i32, message: &str) -> (r: DeliveryStep)
        requires
            old(self).result is None,
            !old(self).released,
        ensures
            code >= 0 ==> r == DeliveryStep::Acquire && *final(self) == (FrameDelivery {
                released: true,
                ..*old(self)
            }),
            code < 0 ==> {
                &&& r is Finished && r->0 is Err
                &&& crate::error::api_error_for(
                    r->0->Err_0,
                    "av_mediacodec_release_buffer(render=1)"@,
                    code,
                    message@,
                )
                &&& !final(self).released
                &&& final(self).result is Some && final(self).result->0 is Err
                &&& final(self).result->0->Err_0@ == r->0->Err_0.text()
            },
    {
        if code < 0 {
            let error = api_error("av_mediacodec_release_buffer(render=1)", code, message);
            self.result = Some(Err(error.message()));
            return DeliveryStep::Finished(Err(error));
        }
        self.released = true;
        DeliveryStep::Acquire
    }

    /// Goes on when the surface has been asked for the picture. One that is not there yet is
    /// asked for again later; every other answer is kept.
    pub fn after_acquire(&mut self, acquired: Result<u64, AcquireFailure>) -> (r: Result<
        u64,
        FfmpegError,
    >)
        requires
            old(self).result is None,
        ensures
            final(self).released == old(self).released,
            acquired is Ok ==> r == Ok::<u64, FfmpegError>(acquired->Ok_0) && final(self).result
                == Some(Ok::<u64, String>(acquired->Ok_0)),
            acquired is Err && acquired->Err_0 is Backpressure ==> *final(self) == *old(self) && r
                == Err::<u64, FfmpegError>(
                FfmpegError::AndroidMediaCodecBackpressure(acquired->Err_0->Backpressure_0),
            ),
            acquired is Err && acquired->Err_0 is Failed ==> r == Err::<u64, FfmpegError>(
                FfmpegError::AndroidMediaCodec(acquired->Err_0->Failed_0),
            ) && final(self).result == Some(Err::<u64, String>(acquired->Err_0->Failed_0)),
    {
        match acquired {
            Ok(image) => {
                self.result = Some(Ok(image));
                Ok(image)
            },
            Err(AcquireFailure::Backpressure(text)) => Err(
                FfmpegError::AndroidMediaCodecBackpressure(text),
            ),
            Err(AcquireFailure::Failed(text)) => {
                self.result = Some(Err(text.clone()));
                Err(FfmpegError::AndroidMediaCodec(text))
            },
        }
    }

    /// The picture that was brought before, for a reader that may not bring it.
    pub fn prepared(&self, received: Option<&str>, attached: bool) -> (r: Result<u64, FfmpegError>)
        ensures
            received is None && attached && self.result is Some ==> r == self.kept(),
            received is Some || !attached || self.result is None ==> r is Err
                && r->Err_0 is AndroidMediaCodec && r->Err_0->AndroidMediaCodec_0@ == (if received
                is Some {
                "expected AV_PIX_FMT_MEDIACODEC, received "@ + received->0@
            } else if !attached {
                "MediaCodec frame is not associated with its AImageReader source"@
            } else {
                "MediaCodec image was not prepared on the playback worker"@
            }),
    {
        if let Some(received) = received {
            return Err(
                FfmpegError::AndroidMediaCodec(
                    joined("expected AV_PIX_FMT_MEDIACODEC, received ", received),
                ),
            );
        }
        if !attached {
            return Err(
                FfmpegError::AndroidMediaCodec(
                    "MediaCodec frame is not associated with its AImageReader source".to_owned(),
                ),
            );
        }
        match self.kept_result() {
            Some(result) => result,
            None => Err(
                FfmpegError::AndroidMediaCodec(
                    "MediaCodec image was not prepared on the playback worker".to_owned(),
                ),
            ),
        }
    }
}

/// AV1 in software is decoded by dav1d except on Windows, and VideoToolbox hands it to the decoder of
/// its own name; MediaCodec has one for each codec that it knows and none for others; every other
/// decoder is found by its codec.
pub proof fn law_how_a_decoder_is_found(codec: CodecId, platform: Platform)
    ensures
        lookup_of(DecoderBackend::Software, codec, platform) == (if codec == CodecId::Av1
            && platform != Platform::Windows {
            DecoderLookup::ByName(DecoderName::Dav1d)
        } else {
            DecoderLookup::ById
        }),
        lookup_of(DecoderBackend::D3d11va, codec, platform) == DecoderLookup::ById,
        lookup_of(DecoderBackend::AvCodec, codec, platform) == DecoderLookup::ById,
        lookup_of(DecoderBackend::VideoToolbox, CodecId::Av1, platform) == DecoderLookup::ByName(
            DecoderName::Av1,
        ),
        codec != CodecId::Av1 ==> lookup_of(DecoderBackend::VideoToolbox, codec, platform)
            == DecoderLookup::ById,
        lookup_of(DecoderBackend::MediaCodec, CodecId::H264, platform) == DecoderLookup::ByName(
            DecoderName::H264MediaCodec,
        ),
        lookup_of(DecoderBackend::MediaCodec, CodecId::Hevc, platform) == DecoderLookup::ByName(
            DecoderName::HevcMediaCodec,
        ),
        lookup_of(DecoderBackend::MediaCodec, CodecId::Vp9, platform) == DecoderLookup::ByName(
            DecoderName::Vp9MediaCodec,
        ),
        lookup_of(DecoderBackend::MediaCodec, CodecId::Av1, platform) == DecoderLookup::ByName(
            DecoderName::Av1MediaCodec,
        ),
        codec is Other ==> lookup_of(DecoderBackend::MediaCodec, codec, platform)
            == DecoderLookup::Missing,
{
}

/// A status that says that more is needed is no error, neither is one that says that the end has
/// come; a frame has come where the status is not negative, and anything else is an error.
pub proof fn law_what_a_status_says(code: i32, again: i32)
    requires
        0 < again < 1_000,
    ensures
        code == -again ==> Decoder::output_for(code, again) == Some(DecoderOutput::NeedMoreInput),
        code == AVERROR_EOF ==> Decoder::output_for(code, again) == Some(
            DecoderOutput::EndOfStream,
        ),
        code >= 0 ==> Decoder::output_for(code, again) == Some(DecoderOutput::Frame),
        code < 0 && code != -again && code != AVERROR_EOF ==> Decoder::output_for(code, again)
            is None,
{
}

/// A decoder has come to its end once it says so, and stays there until it is emptied; emptied, it
/// can be told of the end again. It stays the decoder of its stream.
pub proof fn law_a_decoder_stays_at_its_end(decoder: Decoder, output: Option<DecoderOutput>)
    ensures
        decoder.end_of_stream ==> decoder.after_receive(output).end_of_stream,
        !decoder.end_of_stream ==> (decoder.after_receive(output).end_of_stream <==> output == Some(
            DecoderOutput::EndOfStream,
        )),
        decoder.after_receive(output).eof_sent == decoder.eof_sent,
        decoder.after_receive(output).stream_index == decoder.stream_index,
        !decoder.flushed().end_of_stream,
        !decoder.flushed().eof_sent,
        decoder.flushed().stream_index == decoder.stream_index,
        decoder.flushed().backend == decoder.backend,
        decoder.flushed().time_base == decoder.time_base,
        decoder.flushed().mediacodec_surface == decoder.mediacodec_surface,
{
}

/// The decoder that a request ends in is the one that was asked for, at the start of its stream.
pub proof fn law_a_request_ends_in_its_decoder(request: DecoderRequest)
    ensures
        request.decoder().stream_index == request.stream_index,
        request.decoder().time_base == request.time_base,
        request.decoder().backend == request.config.backend,
        request.decoder().mediacodec_surface == request.config.mediacodec_surface,
        !request.decoder().eof_sent,
        !request.decoder().end_of_stream,
{
}

/// A device is configured for the decoders that need one, and only for them.
pub proof fn law_which_decoders_need_a_device(request: DecoderRequest)
    ensures
        request.config.backend == DecoderBackend::VideoToolbox ==> request.device() == Some(
            HardwareDevice::VideoToolbox,
        ),
        request.config.backend == DecoderBackend::D3d11va ==> request.device() == Some(
            HardwareDevice::D3d11va,
        ),
        request.config.backend == DecoderBackend::Software || request.config.backend
            == DecoderBackend::AvCodec ==> request.device() is None,
        request.config.backend == DecoderBackend::MediaCodec ==> (request.device() is Some <==> (
        request.platform == Platform::Android && request.config.mediacodec_surface)),
        request.platform != Platform::Android ==> request.options().len() == 0,
        request.config.backend != DecoderBackend::MediaCodec ==> request.options().len() == 0,
        request.platform == Platform::Android && request.config.backend
            == DecoderBackend::MediaCodec ==> request.options().len() == (
        if request.config.mediacodec_surface {
            3int
        } else {
            1
        }),
{
}

/// The sides of a Direct3D picture are multiples of 16, of 32 for MPEG-2, and of 128 for HEVC and
/// AV1.
pub proof fn law_the_units_of_sides(codec: CodecId)
    ensures
        side_unit(CodecId::Mpeg2Video) == 32,
        side_unit(CodecId::Hevc) == 128,
        side_unit(CodecId::Av1) == 128,
        codec != CodecId::Mpeg2Video && codec != CodecId::Hevc && codec != CodecId::Av1
            ==> side_unit(codec) == 16,
{
}

/// An opening goes on exactly when its call went well, and for Android's decoder only where the media
/// library took the options that it depends on.
pub proof fn law_when_an_opening_goes_on(
    request: DecoderRequest,
    action: OpenAction,
    code: i32,
    message: String,
)
    ensures
        request.goes_on(action, OpenReply::Status { code, message }) <==> code >= 0,
        !request.goes_on(action, (OpenReply::Pointer { found: false })),
        !request.goes_on(
            OpenAction::Find(DecoderLookup::Missing),
            (OpenReply::Pointer { found: true }),
        ),
        request.goes_on(
            OpenAction::Find(DecoderLookup::ById),
            (OpenReply::Pointer { found: true }),
        ),
        request.goes_on(OpenAction::AllocateContext, (OpenReply::Pointer { found: true })),
{
}

/// The first way that serves a device is the only one that is taken, and it is one for that device.
pub proof fn law_the_first_way_that_serves_is_taken(
    configs: Seq<HardwareConfig>,
    device: HardwareDevice,
    a: int,
    b: int,
)
    requires
        first_serving(configs, device, a),
    ensures
        0 <= a < configs.len(),
        configs[a].device == device,
        configs[a].device_context,
        0 <= b < a && configs[b].device == device ==> !configs[b].device_context,
        first_serving(configs, device, b) ==> a == b,
{
}

/// A list of formats ends at its mark: a format is offered only in front of it.
pub proof fn law_formats_end_at_their_mark(formats: Seq<i32>, format: i32, at: int, end: int)
    requires
        0 <= end < formats.len(),
        formats[end] == -1,
    ensures
        offers(formats, format, at) ==> 0 <= at < end && formats[at] == format,
        0 <= at < end && formats[at] == format && (forall|i: int|
            0 <= i < end ==> #[trigger] formats[i] != -1) ==> offers(formats, format, at),
        format == -1 ==> !offers(formats, format, at),
{
}

/// A decoder is open once the call succeeds; on Android it counts only where the media library took
/// every option that it was given.
pub proof fn law_when_a_decoder_is_open(
    request: DecoderRequest,
    code: i32,
    message: String,
    nonblocking_left: bool,
    surface_option_left: bool,
)
    ensures
        ({
            let reply = OpenReply::Opened { code, message, nonblocking_left, surface_option_left };
            let android = request.platform == Platform::Android && request.config.backend
                == DecoderBackend::MediaCodec;
            &&& code < 0 ==> !request.goes_on(OpenAction::Open, reply)
            &&& code >= 0 && !android ==> request.goes_on(OpenAction::Open, reply)
            &&& code >= 0 && android ==> (request.goes_on(OpenAction::Open, reply) <==> (
            !nonblocking_left && (request.config.mediacodec_surface ==> !surface_option_left)))
        }),
{
}

} // verus!
