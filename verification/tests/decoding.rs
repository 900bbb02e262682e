//! How decoders are opened, fed, replaced and emptied.
use erika::audio::{
    AudioDrain, AudioDrainStep, AudioPath, AudioRoute, AudioSendOutcome, AudioStage, AudioStep,
    Resampled,
};
use erika::decoder::{
    align_i32, configure_hardware, configure_mediacodec, d3d11va_frame_pool,
    hardware_pixel_format, select_hardware_format, surface_side, AcquireFailure, CodecId,
    D3d11FramePool, Decoder, DecoderBackend, DecoderConfig, DecoderLookup, DecoderName,
    DecoderOpening, DecoderOption, DecoderOutput, DecoderRequest, DeliveryStep, DeviceReplies,
    FrameDelivery, HardwareConfig, HardwareDevice, OpenAction, OpenReply, Platform,
    SurfaceReplies, PIXEL_FORMAT_END,
};
use erika::demux::{
    after_offer, demux_message_generation, AsyncDemuxer, CommandStep, DeliveryOutcome,
    DemuxCommand, DemuxMessage, DemuxWorker, PumpInput, WorkerStep,
};
use erika::demuxer::{CodecParameters, OwnedCodecParameters};
use erika::error::{av_error, FfmpegError, AVERROR_EOF};
use erika::events::VideoFrameImportFailure;
use erika::external::SubtitlePath;
use erika::frame::{Frame, PixelFormat, Plane};
use erika::ladder::{DecoderLadder, LadderStep};
use erika::media::{TrackInfo, TrackKind};
use erika::packet::{Packet, PacketFlags, StreamSelection, TimeBase};
use erika::pcm::{AudioResampler, PcmFormat};
use erika::playback::{
    MediaCodecFallbackTarget, MediaCodecSeekRoute, OpenedMediaInfo, PlaybackError,
    PlaybackPumpDemand, PlaybackQueueLimits, AUDIO_SEEK_INVALID_PACKET_LIMIT,
    DEMUX_PACKET_QUEUE_LIMIT,
    DECODER_EOF_DRAIN_STALL_TIMEOUT_NANOS, DECODER_INPUT_STALL_TIMEOUT_NANOS,
};
use erika::route::{RouteAction, RouteStep};
use erika::seek::{ReopenRoute, ReopenStep};
use erika::session::{
    EofDrain, EofOutcome, PlaybackSession, PumpFailure, PumpStage, PumpStep, PumpTask,
};
use erika::subtitle::DecodedSubtitleFrame;
use erika::time::{Duration, Instant};
use erika::video::{
    DecodedVideoFrame, DecoderOutputFrame, FallbackStep, SendOutcome, StallWatch, VideoPath,
    VideoRoute,
};
use std::collections::VecDeque;

const TICKS: TimeBase = TimeBase {
    num: 1,
    den: 1_000,
};

fn request(config: DecoderConfig, codec: CodecId, platform: Platform) -> DecoderRequest {
    DecoderRequest {
        codec,
        stream_index: 0,
        time_base: TICKS,
        config,
        platform,
    }
}

fn good_reply(action: OpenAction) -> OpenReply {
    match action {
        OpenAction::Find(_) | OpenAction::AllocateContext => OpenReply::Pointer { found: true },
        OpenAction::CopyParameters | OpenAction::SetOption(_) => OpenReply::Status {
            code: 0,
            message: String::new(),
        },
        OpenAction::Configure(_) => OpenReply::Configured(Ok(())),
        OpenAction::Open => OpenReply::Opened {
            code: 0,
            message: String::new(),
            nonblocking_left: false,
            surface_option_left: false,
        },
    }
}

fn open(request: DecoderRequest) -> Decoder {
    let mut opening = DecoderOpening::begin(request);
    for _ in 0..16 {
        let reply = good_reply(opening.action());
        if let Some(decoder) = opening.answer(reply).unwrap() {
            return decoder;
        }
    }
    panic!("the opening has no end");
}

fn api(operation: &str, code: i32) -> FfmpegError {
    FfmpegError::Api {
        operation: operation.to_string(),
        code,
        message: "bad".to_string(),
    }
}

#[test]
fn a_software_decoder_is_opened_in_four_calls() {
    let plan = request(DecoderConfig::software(), CodecId::H264, Platform::Other).open_plan();
    assert_eq!(
        plan,
        vec![
            OpenAction::Find(DecoderLookup::ById),
            OpenAction::AllocateContext,
            OpenAction::CopyParameters,
            OpenAction::Open,
        ]
    );
}

#[test]
fn androids_surface_decoder_gets_its_options_before_it_is_opened() {
    let request = request(DecoderConfig::mediacodec(), CodecId::Hevc, Platform::Android);
    assert_eq!(
        request.open_plan(),
        vec![
            OpenAction::Find(DecoderLookup::ByName(DecoderName::HevcMediaCodec)),
            OpenAction::AllocateContext,
            OpenAction::CopyParameters,
            OpenAction::Configure(HardwareDevice::MediaCodec),
            OpenAction::SetOption(DecoderOption::ErikaNonblocking),
            OpenAction::SetOption(DecoderOption::NdkCodec),
            OpenAction::SetOption(DecoderOption::DelayFlush),
            OpenAction::Open,
        ]
    );
    let decoder = open(request);
    assert_eq!(decoder.backend(), DecoderBackend::MediaCodec);
    assert!(decoder.uses_mediacodec_surface());
    assert!(!decoder.uses_avcodec_surface());
    assert!(!decoder.is_end_of_stream());
}

#[test]
fn av1_is_looked_up_by_name() {
    let refused = |config: DecoderConfig, platform: Platform| {
        let mut opening = DecoderOpening::begin(request(config, CodecId::Av1, platform));
        opening
            .answer(OpenReply::Pointer { found: false })
            .unwrap_err()
    };
    assert_eq!(
        refused(DecoderConfig::videotoolbox(), Platform::Apple),
        FfmpegError::NullPointer("avcodec_find_decoder_by_name(av1)".to_string())
    );
    assert_eq!(
        refused(DecoderConfig::software(), Platform::Other),
        FfmpegError::NullPointer("avcodec_find_decoder_by_name(libdav1d)".to_string())
    );
    assert_eq!(
        refused(DecoderConfig::software(), Platform::Windows),
        FfmpegError::NullPointer("avcodec_find_decoder".to_string())
    );
}

#[test]
fn every_failed_call_of_an_opening_is_named() {
    let request = request(DecoderConfig::mediacodec(), CodecId::H264, Platform::Android);
    let pointer = || OpenReply::Pointer { found: false };
    let status = || OpenReply::Status {
        code: -3,
        message: "bad".to_string(),
    };
    let refused = FfmpegError::AndroidMediaCodec("no surface".to_string());
    let opened = |code, nonblocking_left, surface_option_left| OpenReply::Opened {
        code,
        message: "bad".to_string(),
        nonblocking_left,
        surface_option_left,
    };
    let find = OpenAction::Find(DecoderLookup::ByName(DecoderName::H264MediaCodec));
    let read = |action, reply| request.read_reply(action, reply).unwrap_err();
    assert_eq!(
        read(find, pointer()),
        FfmpegError::NullPointer("avcodec_find_decoder_by_name(MediaCodec)".to_string())
    );
    assert_eq!(
        read(OpenAction::AllocateContext, pointer()),
        FfmpegError::NullPointer("avcodec_alloc_context3".to_string())
    );
    assert_eq!(
        read(OpenAction::CopyParameters, status()),
        api("avcodec_parameters_to_context", -3)
    );
    assert_eq!(
        read(
            OpenAction::Configure(HardwareDevice::MediaCodec),
            OpenReply::Configured(Err(refused))
        ),
        FfmpegError::AndroidMediaCodec("no surface".to_string())
    );
    assert_eq!(
        read(OpenAction::SetOption(DecoderOption::NdkCodec), status()),
        api("av_dict_set(ndk_codec=1)", -3)
    );
    assert_eq!(
        read(OpenAction::Open, opened(-3, true, true)),
        api("avcodec_open2", -3)
    );
    assert!(matches!(
        read(OpenAction::Open, opened(0, true, true)),
        FfmpegError::AndroidMediaCodec(text) if text.contains("erika_nonblocking=1")
    ));
    assert!(matches!(
        read(OpenAction::Open, opened(0, false, true)),
        FfmpegError::AndroidMediaCodec(text) if text.contains("ndk_codec=1 and delay_flush=1")
    ));
    let missing = self::request(
        DecoderConfig::mediacodec(),
        CodecId::Other(7),
        Platform::Android,
    );
    assert!(missing
        .read_reply(
            OpenAction::Find(DecoderLookup::Missing),
            OpenReply::Pointer { found: true }
        )
        .is_err());
}

#[test]
fn decoders_pass_on_what_the_library_says() {
    let mut decoder = open(request(
        DecoderConfig::software(),
        CodecId::H264,
        Platform::Other,
    ));
    assert!(decoder.send_packet(&packet(0, true), 0, "").is_ok());
    assert_eq!(
        decoder.send_packet(&packet(3, true), 0, ""),
        Err(FfmpegError::StreamMismatch {
            decoder_stream: 0,
            packet_stream: 3
        })
    );
    assert_eq!(
        decoder.send_packet(&packet(0, true), -5, "bad"),
        Err(api("avcodec_send_packet", -5))
    );
    assert_eq!(decoder.receive_frame(0, ""), Ok(DecoderOutput::Frame));
    assert_eq!(
        decoder.receive_frame(av_error(libc::EAGAIN), ""),
        Ok(DecoderOutput::NeedMoreInput)
    );
    assert_eq!(
        decoder.read_frame_status(-35, "", 35),
        Ok(DecoderOutput::NeedMoreInput)
    );
    assert_eq!(
        decoder.receive_frame(-1_000_000, "bad"),
        Err(api("avcodec_receive_frame", -1_000_000))
    );
    assert_eq!(
        decoder.send_eof(-5, "bad"),
        Err(api("avcodec_send_packet_eof", -5))
    );
    assert!(!decoder.eof_sent());
    assert!(decoder.send_eof(0, "").is_ok());
    assert!(decoder.eof_sent() && !decoder.is_end_of_stream());
    assert!(decoder.send_eof(-5, "bad").is_ok());
    assert_eq!(
        decoder.receive_frame(AVERROR_EOF, ""),
        Ok(DecoderOutput::EndOfStream)
    );
    assert!(decoder.is_end_of_stream());
    decoder.flush();
    assert!(!decoder.eof_sent() && !decoder.is_end_of_stream());
    assert!(decoder.send_eof(AVERROR_EOF, "").is_ok());
    assert!(decoder.is_end_of_stream());
}

#[test]
fn hardware_formats_are_chosen_and_explained() {
    let config = |device, device_context, pixel_format| HardwareConfig {
        device,
        device_context,
        pixel_format,
    };
    let configs = vec![
        config(HardwareDevice::D3d11va, false, 1),
        config(HardwareDevice::VideoToolbox, true, 2),
        config(HardwareDevice::D3d11va, true, 3),
        config(HardwareDevice::D3d11va, true, 4),
    ];
    assert_eq!(
        hardware_pixel_format(&configs, HardwareDevice::D3d11va),
        Some(3)
    );
    assert_eq!(
        hardware_pixel_format(&configs, HardwareDevice::MediaCodec),
        None
    );
    assert_eq!(
        select_hardware_format(Some(3), &vec![1, 3, PIXEL_FORMAT_END]),
        Some(3)
    );
    assert_eq!(
        select_hardware_format(Some(3), &vec![1, PIXEL_FORMAT_END, 3]),
        None
    );
    assert_eq!(select_hardware_format(None, &vec![3]), None);

    let good = DeviceReplies {
        pixel_format: Some(9),
        created_code: 0,
        created_message: "bad".to_string(),
        created: true,
        referenced: true,
    };
    let device = HardwareDevice::VideoToolbox;
    let null = |text: &str| Err(FfmpegError::NullPointer(text.to_string()));
    assert_eq!(configure_hardware(device, &good), Ok(9));
    let mut replies = good.clone();
    replies.pixel_format = None;
    assert_eq!(
        configure_hardware(device, &replies),
        null("avcodec_get_hw_config(VideoToolbox)")
    );
    let mut replies = good.clone();
    replies.created_code = -1;
    assert_eq!(
        configure_hardware(device, &replies),
        Err(api("av_hwdevice_ctx_create(VideoToolbox)", -1))
    );
    let mut replies = good.clone();
    replies.created = false;
    assert_eq!(
        configure_hardware(device, &replies),
        null("av_hwdevice_ctx_create(VideoToolbox)")
    );
    let mut replies = good;
    replies.referenced = false;
    assert_eq!(
        configure_hardware(device, &replies),
        null("av_buffer_ref(hw_device_ctx)")
    );
}

#[test]
fn a_surface_is_given_to_androids_decoder() {
    let good = SurfaceReplies {
        pixel_format: Some(50),
        source_error: None,
        device: true,
        device_context: true,
        surface_context: true,
        initialized_code: 0,
        initialized_message: "bad".to_string(),
        referenced: true,
    };
    let fails = |change: fn(&mut SurfaceReplies)| {
        let mut replies = good.clone();
        change(&mut replies);
        configure_mediacodec(&replies, 50).unwrap_err()
    };
    let codec = |text: &str| FfmpegError::AndroidMediaCodec(text.to_string());
    let null = |text: &str| FfmpegError::NullPointer(text.to_string());
    assert_eq!(configure_mediacodec(&good, 50), Ok(()));
    assert_eq!(
        fails(|replies| replies.pixel_format = None),
        codec("avcodec_get_hw_config did not expose a MediaCodec HW device format")
    );
    assert_eq!(
        fails(|replies| replies.pixel_format = Some(-2)),
        codec("unexpected MediaCodec hardware pixel format -2")
    );
    assert_eq!(
        fails(|replies| replies.source_error = Some("no reader".to_string())),
        codec("no reader")
    );
    assert_eq!(
        fails(|replies| replies.device = false),
        null("av_hwdevice_ctx_alloc(MediaCodec)")
    );
    assert_eq!(
        fails(|replies| replies.device_context = false),
        null("AVHWDeviceContext(MediaCodec)")
    );
    assert_eq!(
        fails(|replies| replies.surface_context = false),
        null("AVMediaCodecDeviceContext")
    );
    assert_eq!(
        fails(|replies| replies.initialized_code = -4),
        api("av_hwdevice_ctx_init(MediaCodec)", -4)
    );
    assert_eq!(
        fails(|replies| replies.referenced = false),
        null("av_buffer_ref(MediaCodec hw_device_ctx)")
    );
}

#[test]
fn hardware_pictures_have_aligned_sides() {
    assert_eq!(align_i32(1_080, 16), 1_088);
    assert_eq!(align_i32(1_088, 16), 1_088);
    assert_eq!(align_i32(-3, 16), 16);
    assert_eq!(surface_side(1_920, 1_936), 1_936);
    assert_eq!(surface_side(-1, -7), 0);
    let pool = |codec| d3d11va_frame_pool(codec, false, 1_920, 1_080);
    let expected = |width, height, pool_size| D3d11FramePool {
        ten_bits: false,
        width,
        height,
        pool_size,
    };
    assert_eq!(pool(CodecId::H264), expected(1_920, 1_088, 20));
    assert_eq!(pool(CodecId::Hevc), expected(1_920, 1_152, 20));
    assert_eq!(pool(CodecId::Av1), expected(1_920, 1_152, 12));
    assert_eq!(pool(CodecId::Mpeg2Video), expected(1_920, 1_088, 5));
    assert_eq!(pool(CodecId::Vp9), expected(1_920, 1_088, 12));
}

#[test]
fn a_surface_picture_is_released_once_and_then_kept() {
    let mut delivery = FrameDelivery::new();
    assert!(delivery.prepared(None, true).is_err());
    assert_eq!(delivery.begin(None, true), DeliveryStep::CheckCapacity);
    assert_eq!(
        delivery.after_capacity(Some("full".to_string()), true),
        DeliveryStep::Finished(Err(FfmpegError::AndroidMediaCodecBackpressure(
            "full".to_string()
        )))
    );
    assert_eq!(delivery.begin(None, true), DeliveryStep::CheckCapacity);
    assert_eq!(delivery.after_capacity(None, true), DeliveryStep::Release);
    assert_eq!(delivery.after_release(0, ""), DeliveryStep::Acquire);
    assert_eq!(
        delivery.after_acquire(Err(AcquireFailure::Backpressure("later".to_string()))),
        Err(FfmpegError::AndroidMediaCodecBackpressure(
            "later".to_string()
        ))
    );
    assert_eq!(delivery.begin(None, true), DeliveryStep::Acquire);
    assert_eq!(delivery.after_acquire(Ok(77)), Ok(77));
    assert_eq!(delivery.begin(None, true), DeliveryStep::Finished(Ok(77)));
    assert_eq!(delivery.prepared(None, true), Ok(77));
}

#[test]
fn a_surface_picture_needs_a_decoder_that_draws_on_one() {
    let surface = PixelFormat::MediaCodec;
    let hardware = decoder(DecoderBackend::MediaCodec, true);
    assert_eq!(
        hardware.admit_frame(Platform::Android, surface, false),
        Err(FfmpegError::AndroidMediaCodec(
            "decoder returned AV_PIX_FMT_MEDIACODEC without an AImageReader source".to_string()
        ))
    );
    assert_eq!(hardware.admit_frame(Platform::Android, surface, true), Ok(()));
    assert_eq!(hardware.admit_frame(Platform::Other, surface, false), Ok(()));
    assert_eq!(
        hardware.admit_frame(Platform::Android, PixelFormat::Nv12, false),
        Ok(())
    );
    let software = decoder(DecoderBackend::Software, false);
    assert_eq!(software.admit_frame(Platform::Android, surface, false), Ok(()));
}

#[test]
fn failed_deliveries_are_remembered() {
    let codec = |text: &str| FfmpegError::AndroidMediaCodec(text.to_string());
    let mut delivery = FrameDelivery::new();
    assert_eq!(
        delivery.begin(Some("yuv420p"), true),
        DeliveryStep::Finished(Err(codec("expected AV_PIX_FMT_MEDIACODEC, received yuv420p")))
    );
    assert_eq!(
        delivery.begin(None, false),
        DeliveryStep::Finished(Err(codec(
            "MediaCodec frame is not associated with its AImageReader source"
        )))
    );
    assert_eq!(
        delivery.after_capacity(None, false),
        DeliveryStep::Finished(Err(FfmpegError::NullPointer(
            "AVMediaCodecBuffer".to_string()
        )))
    );
    assert!(matches!(
        delivery.begin(None, true),
        DeliveryStep::Finished(Err(FfmpegError::AndroidMediaCodec(_)))
    ));

    let mut delivery = FrameDelivery::new();
    assert_eq!(
        delivery.after_release(-2, "bad"),
        DeliveryStep::Finished(Err(api("av_mediacodec_release_buffer(render=1)", -2)))
    );
    assert!(!delivery.released);

    let mut delivery = FrameDelivery::new();
    let _ = delivery.after_release(0, "");
    assert_eq!(
        delivery.after_acquire(Err(AcquireFailure::Failed("gone".to_string()))),
        Err(codec("gone"))
    );
    assert_eq!(delivery.prepared(None, true), Err(codec("gone")));
}

fn ladder(config: DecoderConfig, codec: &str) -> DecoderLadder {
    DecoderLadder::begin(config, Some(codec.to_string()))
}

fn refused(ladder: DecoderLadder, error: &str) -> DecoderLadder {
    match ladder.answer(Err(error.to_string())) {
        LadderStep::Open(next) => next,
        _ => panic!("there is a rung below"),
    }
}

fn decoder(backend: DecoderBackend, surface: bool) -> Decoder {
    Decoder {
        stream_index: 0,
        time_base: TICKS,
        backend,
        mediacodec_surface: surface,
        avcodec_surface: backend == DecoderBackend::AvCodec,
        eof_sent: false,
        end_of_stream: false,
    }
}

#[test]
fn the_ladder_goes_down_to_software() {
    let first = ladder(DecoderConfig::mediacodec(), "hevc");
    assert_eq!(first.next_config(), DecoderConfig::mediacodec());
    let second = refused(first, "surface");
    assert_eq!(
        second.next_config(),
        DecoderConfig::mediacodec_byte_buffer()
    );
    let third = refused(second, "buffer");
    assert_eq!(third.next_config(), DecoderConfig::software());
    match third.answer(Ok(decoder(DecoderBackend::Software, false))) {
        LadderStep::Opened(opened) => {
            assert_eq!(opened.fallbacks, 2);
            assert_eq!(opened.event.stage, "open_bytebuffer_to_software");
            assert_eq!(
                opened.event.previous_backend,
                Some(DecoderBackend::MediaCodec)
            );
            assert_eq!(opened.event.active_backend, DecoderBackend::Software);
            assert_eq!(opened.event.codec.as_deref(), Some("hevc"));
            assert_eq!(
                opened.event.reason.as_deref(),
                Some("surface mode failed: surface; MediaCodec byte-buffer mode failed: buffer")
            );
        }
        _ => panic!("software opens"),
    }
}

#[test]
fn the_ladder_ends_with_every_reason() {
    let last = refused(
        refused(ladder(DecoderConfig::mediacodec(), "hevc"), "one"),
        "two",
    );
    match last.answer(Err("three".to_string())) {
        LadderStep::Failed(PlaybackError::VideoDecoderUnavailable { reason }) => {
            assert!(reason.contains("open_software_failed"));
            assert!(reason.contains(
                "MediaCodec Surface open failed: one; MediaCodec byte-buffer open failed: two; \
                 software decoder open failed: three"
            ));
        }
        _ => panic!("nothing is below software"),
    }
    match ladder(DecoderConfig::software(), "h264").answer(Err("broken".to_string())) {
        LadderStep::Failed(PlaybackError::VideoDecoderUnavailable { reason }) => {
            assert!(reason.contains("software decoder open failed: broken"));
        }
        _ => panic!("software has nothing below it"),
    }
}

#[test]
fn a_decoder_that_opens_at_once_is_no_fallback() {
    let first = ladder(DecoderConfig::software(), "h264");
    match first.answer(Ok(decoder(DecoderBackend::Software, false))) {
        LadderStep::Opened(opened) => {
            assert_eq!(opened.fallbacks, 0);
            assert_eq!(opened.event.previous_backend, None);
            assert_eq!(opened.event.reason, None);
        }
        _ => panic!("software opens"),
    }
}

fn packet(stream_index: i32, key: bool) -> Packet {
    Packet {
        stream_index,
        flags: PacketFlags {
            bits: if key { 1 } else { 0 },
        },
        position: -1,
        pts: 0,
        dts: 0,
        duration: 0,
        time_base: Some(TICKS),
        data: vec![1],
    }
}

fn frame(samples: i32) -> Frame {
    let empty = || Plane {
        stride: 0,
        bytes: None,
    };
    Frame {
        width: 16,
        height: 16,
        sample_rate: if samples > 0 { 48_000 } else { 0 },
        channels: if samples > 0 { 1 } else { 0 },
        samples,
        sample_format: None,
        format: PixelFormat::Yuv420p,
        format_name: None,
        planes: [empty(), empty(), empty(), empty()],
        handles: [0; 4],
        has_hw_frames_context: false,
        pts: 0,
        time_base: TICKS,
        pts_magnitude: Duration::zero(),
        color_primaries: 0,
        color_transfer: 0,
        color_range: 0,
        color_matrix: 0,
    }
}

fn parameters(codec: &str) -> Vec<OwnedCodecParameters> {
    vec![OwnedCodecParameters {
        parameters: CodecParameters {
            stream_index: 0,
            time_base: TICKS,
            codec: CodecId::H264,
            codec_name: Some(codec.to_string()),
            kind: Some(TrackKind::Video),
        },
    }]
}

fn info() -> OpenedMediaInfo {
    OpenedMediaInfo {
        uri: "movie.mkv".to_string(),
        duration: None,
        tracks: vec![
            TrackInfo::embedded(0, TrackKind::Video),
            TrackInfo::embedded(1, TrackKind::Audio),
        ],
        video_params: None,
        selected_video_track: Some(0),
        selected_audio_track: Some(1),
        selected_subtitle_track: None,
        subtitle_tracks: Vec::new(),
        video_decode_backend: Some(DecoderBackend::Software),
        audio_output: Some(PcmFormat::default()),
    }
}

fn video(decoder: Option<Decoder>) -> VideoPath {
    VideoPath {
        route: VideoRoute {
            decoder,
            suspended: false,
            waiting_for_keyframe: false,
            surface_disabled: false,
            fallbacks: 0,
            stall: StallWatch {
                polls: 0,
                logged: false,
                started_at: None,
            },
        },
        unavailable_reason: None,
        events: VecDeque::new(),
        frames: VecDeque::new(),
        pending: VecDeque::new(),
    }
}

fn audio() -> AudioPath {
    AudioPath {
        route: AudioRoute {
            decoder: Some(Decoder {
                stream_index: 1,
                ..decoder(DecoderBackend::Software, false)
            }),
            resampler: None,
            output: PcmFormat::f32_interleaved(48_000, 1),
            output_active: true,
            waiting_for_valid_packet: false,
            dropped_packets: 0,
        },
        frames: VecDeque::new(),
    }
}

/// A session, and the far ends of its demuxer's channels.
struct Bench {
    session: PlaybackSession,
    packets: crossbeam_channel::Sender<DemuxMessage>,
    commands: crossbeam_channel::Receiver<DemuxCommand>,
}

fn bench(backend: DecoderBackend, surface: bool, codec: &str) -> Bench {
    let (demuxer, outlet, commands) = AsyncDemuxer::new();
    let packets = outlet.sender().clone();
    drop(outlet);
    Bench {
        session: PlaybackSession {
            demuxer,
            codec_parameters: parameters(codec),
            video: video(Some(decoder(backend, surface))),
            audio: audio(),
            subtitles: SubtitlePath {
                decoder: None,
                fonts: Vec::new(),
                external: Vec::new(),
                frames: VecDeque::new(),
            },
            info: info(),
            queue_limits: PlaybackQueueLimits::default(),
            drain: EofDrain {
                demux_eof: false,
                polls: 0,
                pending_logged: false,
                last_progress_at: None,
                eof: false,
            },
        },
        packets,
        commands,
    }
}

fn at(nanos: u128) -> Instant {
    Instant {
        nanos: 1_000_000_000 + nanos,
    }
}

fn route(step: RouteStep) -> erika::route::RouteTask {
    match step {
        RouteStep::Continue(task) => task,
        RouteStep::Finished(_) => panic!("the packet is under way"),
    }
}

#[test]
fn a_packet_is_sent_and_its_frames_are_taken() {
    let mut path = video(Some(decoder(DecoderBackend::Software, false)));
    let mut info = info();
    let parameters = parameters("h264");
    let task = route(path.begin_route(packet(0, true), 2));
    assert_eq!(task.action(), RouteAction::SendPacket);
    let mut task = route(path.route_sent(&mut info, &parameters, task, SendOutcome::Accepted));
    assert_eq!(task.action(), RouteAction::ReceiveFrame);
    for _ in 0..3 {
        let output = Ok(DecoderOutputFrame::Frame(frame(0)));
        task = route(path.route_received(&mut info, &parameters, task, output));
    }
    assert_eq!(path.frames.len(), 3);
    let output = Ok(DecoderOutputFrame::NeedMoreInput);
    assert!(matches!(
        path.route_received(&mut info, &parameters, task, output),
        RouteStep::Finished(Ok(true))
    ));
    assert_eq!(path.frames.len(), 2);
}

#[test]
fn a_full_decoder_is_emptied_and_tried_once_more() {
    let mut path = video(Some(decoder(DecoderBackend::Software, false)));
    let mut info = info();
    let parameters = parameters("h264");
    path.pending.push_back(packet(0, false));
    let task = route(path.begin_route(packet(0, true), 8));
    let task = route(path.route_sent(&mut info, &parameters, task, SendOutcome::Again));
    let output = Ok(DecoderOutputFrame::NeedMoreInput);
    let task = route(path.route_received(&mut info, &parameters, task, output));
    assert_eq!(task.action(), RouteAction::SendPacket);
    assert!(matches!(
        path.route_sent(&mut info, &parameters, task, SendOutcome::Again),
        RouteStep::Finished(Ok(false))
    ));
    assert_eq!(path.pending.len(), 2);
    assert!(path.pending[0].is_key());
}

#[test]
fn one_packet_replaces_a_decoder_once() {
    let mut path = video(Some(decoder(DecoderBackend::MediaCodec, true)));
    let mut info = info();
    let parameters = parameters("h264");
    let task = route(path.begin_route(packet(0, true), 8));
    let failed = || SendOutcome::Failed(api("avcodec_send_packet", -5));
    let task = route(path.route_sent(&mut info, &parameters, task, failed()));
    assert_eq!(
        task.action(),
        RouteAction::OpenDecoder(DecoderConfig::mediacodec_byte_buffer())
    );
    assert!(path.route.surface_disabled && path.route.decoder.is_none());
    let opened = Err("no buffer mode".to_string());
    let task = route(path.route_opened(&mut info, &parameters, task, opened));
    assert_eq!(
        task.action(),
        RouteAction::OpenDecoder(DecoderConfig::software())
    );
    let opened = Ok(decoder(DecoderBackend::Software, false));
    let task = route(path.route_opened(&mut info, &parameters, task, opened));
    assert_eq!(task.action(), RouteAction::SendPacket);
    assert_eq!(info.video_decode_backend, Some(DecoderBackend::Software));
    let events = path.take_events();
    assert_eq!(events.len(), 1);
    assert_eq!(events[0].stage, "decode_bytebuffer_to_software");
    assert_eq!(events[0].fallback_count, 2);
    assert!(matches!(
        path.route_sent(&mut info, &parameters, task, failed()),
        RouteStep::Finished(Err(PlaybackError::Ffmpeg(_)))
    ));
}

#[test]
fn behind_a_replacement_the_next_key_frame_is_waited_for() {
    let mut path = video(Some(decoder(DecoderBackend::AvCodec, false)));
    let mut info = info();
    let parameters = parameters("h264");
    let task = route(path.begin_route(packet(0, false), 8));
    let failed = SendOutcome::Failed(api("avcodec_send_packet", -5));
    let task = route(path.route_sent(&mut info, &parameters, task, failed));
    let opened = Ok(decoder(DecoderBackend::Software, false));
    assert!(matches!(
        path.route_opened(&mut info, &parameters, task, opened),
        RouteStep::Finished(Ok(true))
    ));
    assert!(path.route.waiting_for_keyframe);
    assert!(matches!(
        path.begin_route(packet(0, false), 8),
        RouteStep::Finished(Ok(true))
    ));
    let _ = route(path.begin_route(packet(0, true), 8));
    assert!(!path.route.waiting_for_keyframe);
}

#[test]
fn software_that_does_not_open_leaves_no_decoder() {
    let mut path = video(Some(decoder(DecoderBackend::VideoToolbox, false)));
    let mut info = info();
    let parameters = parameters("AV1");
    assert!(path.active_codec_is_av1(&parameters));
    let task = path
        .begin_software_fallback(&mut info, &parameters, "decode", "broken", None)
        .unwrap();
    assert_eq!(task.previous_backend, DecoderBackend::VideoToolbox);
    assert_eq!(
        path.unavailable_reason.as_deref(),
        Some("decode: videotoolbox decoder retired before software fallback: broken")
    );
    let opened = Err("nothing".to_string());
    let expected = "decode: broken; software decoder open failed: nothing";
    match path.finish_fallback(&mut info, &parameters, task, opened) {
        FallbackStep::Failed(PlaybackError::VideoDecoderUnavailable { reason }) => {
            assert_eq!(reason, expected)
        }
        _ => panic!("nothing is below software"),
    }
    assert_eq!(
        path.ensure_available(Some(0)),
        Err(PlaybackError::VideoDecoderUnavailable {
            reason: expected.to_string()
        })
    );
    assert_eq!(path.ensure_available(None), Ok(()));
}

#[test]
fn fallbacks_step_down_from_surface_to_buffer_to_software() {
    let surface = video(Some(decoder(DecoderBackend::MediaCodec, true)));
    assert_eq!(
        surface.fallback_target(),
        Some(MediaCodecFallbackTarget::ByteBuffer)
    );
    let buffer = video(Some(decoder(DecoderBackend::MediaCodec, false)));
    assert_eq!(
        buffer.fallback_target(),
        Some(MediaCodecFallbackTarget::Software)
    );
    let software = video(Some(decoder(DecoderBackend::Software, false)));
    assert_eq!(software.fallback_target(), None);
}

#[test]
fn scarce_pictures_hold_packets_back() {
    let mut path = video(Some(decoder(DecoderBackend::D3d11va, false)));
    assert_eq!(path.frame_limit(48), 8);
    for _ in 0..8 {
        assert!(!path.should_defer());
        path.take_frame(frame(0));
    }
    assert!(path.should_defer());
    assert_eq!(path.discard().video_frames, 8);
    let path = video(Some(decoder(DecoderBackend::AvCodec, false)));
    assert_eq!(path.frame_limit(48), 2);
    let path = video(Some(decoder(DecoderBackend::Software, false)));
    assert_eq!(path.frame_limit(48), 48);
}

#[test]
fn a_decoder_that_takes_nothing_is_reported() {
    let mut path = video(Some(decoder(DecoderBackend::MediaCodec, true)));
    path.pending.push_back(packet(0, true));
    assert_eq!(path.observe_stall(at(0)), Ok(()));
    assert_eq!(
        path.observe_stall(at(DECODER_INPUT_STALL_TIMEOUT_NANOS - 1)),
        Ok(())
    );
    let report = path
        .observe_stall(at(DECODER_INPUT_STALL_TIMEOUT_NANOS))
        .unwrap_err();
    assert_eq!(report.polls, 3);
    assert_eq!(report.pending_packets, 1);
    assert_eq!(report.stalled_for, Duration::from_secs(2));
    path.reset_stall();
    assert_eq!(path.observe_stall(at(9_000_000_000)), Ok(()));
}

#[test]
fn senseless_audio_behind_a_seek_is_passed_over_up_to_a_limit() {
    let mut path = audio();
    path.route.waiting_for_valid_packet = true;
    let invalid = || AudioSendOutcome::Invalid(api("avcodec_send_packet", -22));
    for _ in 0..AUDIO_SEEK_INVALID_PACKET_LIMIT {
        let task = path.begin_route(packet(1, true));
        assert!(matches!(
            path.route_sent(task, invalid()),
            AudioStep::Finished(Ok(()))
        ));
    }
    let task = path.begin_route(packet(1, true));
    assert!(matches!(
        path.route_sent(task, invalid()),
        AudioStep::Finished(Err(_))
    ));
    let task = path.begin_route(packet(1, true));
    assert!(matches!(
        path.route_sent(task, AudioSendOutcome::Accepted),
        AudioStep::Continue(_)
    ));
    assert_eq!(path.route.dropped_packets, 0);
    assert!(!path.route.waiting_for_valid_packet);
}

fn run(converted: i32) -> Resampled {
    Resampled {
        converted,
        samples: vec![0; 960],
        length: Duration::from_millis(20),
    }
}

#[test]
fn audio_is_resampled_and_the_resampler_is_emptied_last() {
    let mut path = audio();
    let drain = AudioDrain::begin();
    let output = Ok(DecoderOutputFrame::Frame(frame(960)));
    let (drain, plan) = match path.drain_received(drain, output) {
        AudioDrainStep::Convert(drain, plan) => (drain, plan),
        _ => panic!("the run is resampled"),
    };
    assert_eq!(plan.pts, Some(Duration::zero()));
    let drain = match path.drain_converted(drain, plan, Ok(run(960))) {
        AudioDrainStep::Receive(drain) => drain,
        _ => panic!("the decoder is asked again"),
    };
    assert_eq!(path.frames.len(), 1);
    let output = Ok(DecoderOutputFrame::EndOfStream);
    let drain = match path.drain_received(drain, output) {
        AudioDrainStep::DrainResampler(drain) => drain,
        _ => panic!("the resampler holds samples"),
    };
    let drain = match path.drain_resampler(drain, Ok(run(5))) {
        AudioDrainStep::DrainResampler(drain) => drain,
        _ => panic!("the resampler is asked again"),
    };
    match path.drain_resampler(drain, Ok(run(0))) {
        AudioDrainStep::Finished(Ok(status)) => {
            assert_eq!(status.frames, 2);
            assert!(status.end_of_stream);
        }
        _ => panic!("the resampler is empty"),
    }
    assert_eq!(path.frames[1].pts, Some(Duration::from_millis(20)));
    assert_eq!(path.frames[1].frames, 5);
    assert_eq!(path.set_output_active(false), 2);
    assert_eq!(path.discard(), 0);
}

#[test]
fn silence_is_no_audio() {
    let mut path = audio();
    let output = Ok(DecoderOutputFrame::Frame(frame(0)));
    assert!(matches!(
        path.drain_received(AudioDrain::begin(), output),
        AudioDrainStep::Finished(Err(PlaybackError::Ffmpeg(FfmpegError::ExpectedAudioFrame)))
    ));
}

#[test]
fn a_full_audio_decoder_is_drained_and_tried_once_more() {
    let mut path = audio();
    let again = || AudioSendOutcome::Again(api("avcodec_send_packet", -11));
    let task = path.begin_route(packet(1, true));
    let task = match path.route_sent(task, again()) {
        AudioStep::Continue(task) => task,
        AudioStep::Finished(_) => panic!("the decoder is drained"),
    };
    assert!(matches!(task.stage, AudioStage::DrainingFull(_)));
    let status = AudioDrain::begin().status;
    let task = match path.route_drained(task, Ok(status)) {
        AudioStep::Continue(task) => task,
        AudioStep::Finished(_) => panic!("the packet is sent again"),
    };
    assert!(matches!(
        path.route_sent(task, again()),
        AudioStep::Finished(Err(_))
    ));
}

fn going(step: PumpStep) -> PumpTask {
    match step {
        PumpStep::Continue(task) => task,
        PumpStep::Finished(result) => panic!("the pump ended: {result:?}"),
    }
}

fn polled(bench: &mut Bench) -> PumpTask {
    let task = bench.session.begin_pump(PlaybackPumpDemand::Video);
    let task = going(bench.session.pump_pending(task));
    let task = going(bench.session.pump_settled(task));
    going(bench.session.pump_gate(task))
}

#[test]
fn a_pump_asks_the_demuxer_and_routes_what_comes() {
    let mut bench = bench(DecoderBackend::Software, false, "h264");
    let task = polled(&mut bench);
    assert!(matches!(task.stage, PumpStage::Poll));
    assert!(matches!(
        bench.session.pump_poll(task),
        PumpStep::Finished(Ok(false))
    ));
    assert!(matches!(
        bench.commands.try_recv(),
        Ok(DemuxCommand::Start { generation: 1 })
    ));

    let generation = bench.session.demuxer.generation;
    for stream in [0, 1, 9] {
        let packet = packet(stream, true);
        bench
            .packets
            .send(DemuxMessage::Packet { generation, packet })
            .unwrap();
    }
    let task = polled(&mut bench);
    let task = going(bench.session.pump_poll(task));
    assert!(matches!(task.stage, PumpStage::RouteVideo { .. }));
    let task = polled(&mut bench);
    let task = going(bench.session.pump_poll(task));
    assert!(matches!(task.stage, PumpStage::RouteAudio { .. }));
    let task = polled(&mut bench);
    assert!(matches!(
        bench.session.pump_poll(task),
        PumpStep::Finished(Ok(true))
    ));
}

#[test]
fn audio_only_playback_throws_video_packets_away() {
    let mut bench = bench(DecoderBackend::Software, false, "h264");
    bench.session.video.set_suspended(true);
    let task = bench.session.begin_pump(PlaybackPumpDemand::Audio);
    assert!(matches!(task.stage, PumpStage::Gate));
    let input = Ok(PumpInput::Packet(packet(0, true)));
    assert!(matches!(
        bench.session.pump_input(task, input),
        PumpStep::Finished(Ok(true))
    ));
    assert!(bench.session.video.frames.is_empty());
    assert!(bench.session.video.pending.is_empty());
    assert!(bench.session.video.route.suspended);
    bench.session.video.set_suspended(false);
    assert!(bench.session.video.route.waiting_for_keyframe);
    let task = bench.session.begin_pump(PlaybackPumpDemand::Video);
    let input = Ok(PumpInput::Packet(packet(0, false)));
    assert!(matches!(
        bench.session.pump_input(task, input),
        PumpStep::Finished(Ok(true))
    ));
    let task = bench.session.begin_pump(PlaybackPumpDemand::Video);
    let input = Ok(PumpInput::Packet(packet(0, true)));
    let _ = going(bench.session.pump_input(task, input));
    assert!(!bench.session.video.route.waiting_for_keyframe);
}

#[test]
fn a_waiting_packet_that_does_not_move_is_a_stall() {
    let mut bench = bench(DecoderBackend::Software, false, "h264");
    let mut stall = |nanos: u128| {
        bench.session.video.pending.push_back(packet(0, true));
        let task = bench.session.begin_pump(PlaybackPumpDemand::Video);
        let task = going(bench.session.pump_pending(task));
        assert!(matches!(task.stage, PumpStage::RoutePending { .. }));
        bench
            .session
            .pump_route(task, RouteStep::Finished(Ok(false)), at(nanos))
    };
    assert!(matches!(
        going(stall(0)).stage,
        PumpStage::Settled { routed: false }
    ));
    match stall(DECODER_INPUT_STALL_TIMEOUT_NANOS) {
        PumpStep::Finished(Err(PumpFailure::InputStall(report))) => {
            assert_eq!(report.polls, 2);
        }
        _ => panic!("the stall is reported"),
    }
    let task = bench.session.begin_pump(PlaybackPumpDemand::Video);
    bench.session.video.pending.push_back(packet(0, true));
    let task = going(bench.session.pump_pending(task));
    let step = RouteStep::Finished(Ok(true));
    let task = going(bench.session.pump_route(task, step, at(0)));
    assert!(matches!(task.stage, PumpStage::Pending { routed: true }));
    assert_eq!(bench.session.video.route.stall.started_at, None);
}

fn finishing(bench: &mut Bench, now: Instant) -> PumpTask {
    let task = bench.session.begin_pump(PlaybackPumpDemand::Video);
    let task = going(bench.session.pump_input(task, Ok(PumpInput::Eof)));
    let task = going(bench.session.pump_finish(task));
    let task = going(bench.session.pump_pending(task));
    let task = going(bench.session.pump_settled(task));
    let task = going(bench.session.pump_eof_begin(task, now));
    going(bench.session.pump_video_part(task))
}

#[test]
fn behind_the_end_the_decoders_are_emptied() {
    let mut bench = bench(DecoderBackend::Software, false, "h264");
    let task = finishing(&mut bench, at(0));
    assert!(matches!(task.stage, PumpStage::VideoEof));
    let task = going(bench.session.pump_video_eof(task, EofOutcome::Accepted));
    let output = Ok(DecoderOutputFrame::Frame(frame(0)));
    let task = going(bench.session.pump_video_drain(task, output));
    let output = Ok(DecoderOutputFrame::EndOfStream);
    let task = going(bench.session.pump_video_drain(task, output));
    let task = going(bench.session.pump_audio_part(task));
    assert!(matches!(task.stage, PumpStage::AudioEof));
    let task = going(bench.session.pump_audio_eof(task, EofOutcome::Accepted));
    let output = Ok(DecoderOutputFrame::EndOfStream);
    let step = bench
        .session
        .audio
        .drain_received(AudioDrain::begin(), output);
    let task = going(bench.session.pump_audio_drained(task, step));
    assert!(matches!(
        bench.session.pump_conclude(task),
        PumpStep::Finished(Ok(true))
    ));
    assert!(bench.session.is_eof());
    assert!(bench.session.pop_video_frame().is_some());
    assert!(bench.session.pop_video_frame().is_none());
    assert!(!bench.session.wants_video(0, Duration::zero()));
}

#[test]
fn decoders_that_do_not_come_to_their_end_are_reported() {
    let mut bench = bench(DecoderBackend::Software, false, "h264");
    let mut round = |nanos: u128| {
        let task = finishing(&mut bench, at(nanos));
        let task = match task.stage {
            PumpStage::VideoEof => {
                going(bench.session.pump_video_eof(task, EofOutcome::Again))
            }
            _ => task,
        };
        let output = Ok(DecoderOutputFrame::NeedMoreInput);
        let task = going(bench.session.pump_video_drain(task, output));
        let task = going(bench.session.pump_audio_part(task));
        let task = going(bench.session.pump_audio_eof(task, EofOutcome::Again));
        let output = Ok(DecoderOutputFrame::NeedMoreInput);
        let step = bench
            .session
            .audio
            .drain_received(AudioDrain::begin(), output);
        let task = going(bench.session.pump_audio_drained(task, step));
        bench.session.pump_conclude(task)
    };
    assert!(matches!(round(0), PumpStep::Finished(Ok(true))));
    match round(DECODER_EOF_DRAIN_STALL_TIMEOUT_NANOS) {
        PumpStep::Finished(Err(PumpFailure::DrainStall(report))) => {
            assert_eq!(report.polls, 2);
            assert_eq!(report.stalled_for, Duration::from_secs(2));
            assert!(!report.video_complete && !report.audio_complete);
        }
        _ => panic!("the stall is reported"),
    }
}

#[test]
fn a_decoders_end_is_read_from_its_status() {
    assert!(matches!(EofOutcome::of(0, ""), EofOutcome::Accepted));
    assert!(matches!(EofOutcome::of(AVERROR_EOF, ""), EofOutcome::Ended));
    assert!(matches!(
        EofOutcome::of(av_error(libc::EAGAIN), ""),
        EofOutcome::Again
    ));
    assert!(matches!(
        EofOutcome::of(-1_000_000, ""),
        EofOutcome::Failed(_)
    ));
    assert!(matches!(SendOutcome::of(Ok(())), SendOutcome::Accepted));
    assert!(matches!(
        SendOutcome::of(Err(api("send", av_error(libc::EAGAIN)))),
        SendOutcome::Again
    ));
    assert!(matches!(
        AudioSendOutcome::of(Err(api("send", av_error(libc::EINVAL)))),
        AudioSendOutcome::Invalid(_)
    ));
}

#[test]
fn the_error_numbers_of_a_machine_tell_a_full_decoder() {
    assert!(matches!(
        SendOutcome::read(Err(api("send", -35)), 35),
        SendOutcome::Again
    ));
    assert!(matches!(
        SendOutcome::read(Err(api("send", -35)), 11),
        SendOutcome::Failed(_)
    ));
    assert!(matches!(
        AudioSendOutcome::read(Err(api("send", -35)), 35, 22),
        AudioSendOutcome::Again(_)
    ));
    assert!(matches!(
        AudioSendOutcome::read(Err(api("send", -22)), 35, 22),
        AudioSendOutcome::Invalid(_)
    ));
    assert!(matches!(
        AudioSendOutcome::read(Err(FfmpegError::InteriorNul), 35, 22),
        AudioSendOutcome::Failed(_)
    ));
    assert!(matches!(EofOutcome::read(-35, "", 35), EofOutcome::Again));
    assert!(matches!(
        EofOutcome::read(-35, "", 11),
        EofOutcome::Failed(_)
    ));
}

#[test]
fn subtitles_are_queued() {
    let mut bench = bench(DecoderBackend::Software, false, "h264");
    let task = || PumpTask {
        demand: PlaybackPumpDemand::Video,
        finishing: None,
        stage: PumpStage::DecodeSubtitle {
            packet: packet(2, true),
        },
    };
    for index in 0..40 {
        let frame = DecodedSubtitleFrame::new(2, Some(Duration::from_secs(index)), None);
        assert!(matches!(
            bench.session.pump_subtitle(task(), Ok(Some(frame))),
            PumpStep::Finished(Ok(true))
        ));
    }
    assert_eq!(
        bench.session.subtitles.frames[0].start,
        Some(Duration::from_secs(8))
    );
    assert!(matches!(
        bench.session.pump_subtitle(task(), Err(api("decode", -1))),
        PumpStep::Finished(Err(PumpFailure::Playback(_)))
    ));
}

#[test]
fn a_seek_opens_androids_decoder_again() {
    let mut bench = bench(DecoderBackend::MediaCodec, true, "hevc");
    bench
        .session
        .video
        .frames
        .push_back(DecodedVideoFrame {
            frame: frame(0),
            decode_backend: DecoderBackend::MediaCodec,
        });
    bench
        .session
        .begin_seek(Duration::from_secs(3), true, Platform::Android)
        .unwrap();
    assert!(bench.session.video.frames.is_empty());
    assert!(bench.session.video.route.waiting_for_keyframe);
    assert!(matches!(
        bench.commands.try_recv(),
        Ok(DemuxCommand::Seek { generation: 2, position }) if position == Duration::from_secs(3)
    ));
    let task = bench
        .session
        .begin_reopen(Platform::Android, "3.000")
        .unwrap()
        .unwrap();
    assert_eq!(
        task.route,
        ReopenRoute::MediaCodec(MediaCodecSeekRoute::Surface)
    );
    assert!(bench.session.video.route.decoder.is_none());
    let opened = Ok(decoder(DecoderBackend::MediaCodec, true));
    assert!(matches!(
        bench.session.finish_reopen(task, opened),
        ReopenStep::Done
    ));
    bench.session.finish_seek(true, true);
    let events = bench.session.video.take_events();
    assert_eq!(events.len(), 1);
    assert_eq!(events[0].fallback_count, 0);
    assert_eq!(bench.session.video.unavailable_reason, None);
}

#[test]
fn a_decoder_that_does_not_open_again_is_replaced() {
    let mut bench = bench(DecoderBackend::MediaCodec, true, "hevc");
    let task = bench
        .session
        .begin_reopen(Platform::Android, "0.000")
        .unwrap()
        .unwrap();
    match bench.session.finish_reopen(task, Err(api("open", -1))) {
        ReopenStep::Fallback(task) => {
            assert_eq!(task.target, MediaCodecFallbackTarget::ByteBuffer);
            let opened = Ok(decoder(DecoderBackend::MediaCodec, false));
            assert!(matches!(
                bench.session.finish_fallback(task, opened),
                FallbackStep::Done
            ));
        }
        _ => panic!("a simpler decoder takes its place"),
    }
    let mut kept = self::bench(DecoderBackend::Software, false, "hevc");
    assert!(kept
        .session
        .begin_reopen(Platform::Android, "0.000")
        .unwrap()
        .is_none());
    let mut apple = self::bench(DecoderBackend::VideoToolbox, false, "hevc");
    let task = apple
        .session
        .begin_reopen(Platform::Apple, "0.000")
        .unwrap()
        .unwrap();
    assert!(matches!(
        apple.session.finish_reopen(task, Err(api("open", -1))),
        ReopenStep::Failed(PlaybackError::Ffmpeg(_))
    ));
}

fn import_failure(backend: DecoderBackend, surface: bool, codec: &str) -> VideoFrameImportFailure {
    VideoFrameImportFailure {
        decode_backend: backend,
        mediacodec_surface: surface,
        codec: Some(codec.to_string()),
        pixel_format: None,
        line_sizes: [0; 4],
        width: 16,
        height: 16,
        generation: 1,
        reason: "refused".to_string(),
    }
}

#[test]
fn refused_pictures_step_the_decoder_down() {
    let mut bench = bench(DecoderBackend::MediaCodec, true, "hevc");
    let surface = import_failure(DecoderBackend::MediaCodec, true, "hevc");
    let buffer = import_failure(DecoderBackend::MediaCodec, false, "hevc");
    let session = &mut bench.session;
    assert!(session.video_import_failure_matches_active_decoder(&surface));
    assert!(!session.video_import_failure_matches_active_decoder(&buffer));
    assert!(session
        .begin_import_fallback("import", &buffer)
        .unwrap()
        .is_none());
    let task = session
        .begin_import_fallback("import", &surface)
        .unwrap()
        .unwrap();
    assert_eq!(task.target, MediaCodecFallbackTarget::ByteBuffer);
    assert_eq!(task.stage, "import");
    let opened = Ok(decoder(DecoderBackend::MediaCodec, false));
    assert!(matches!(
        session.finish_fallback(task, opened),
        FallbackStep::Done
    ));
    session.finish_import_fallback(DecoderBackend::MediaCodec);
    assert!(session.video.route.waiting_for_keyframe);
    let task = session
        .begin_import_fallback("import", &buffer)
        .unwrap()
        .unwrap();
    assert_eq!(task.stage, "import_bytebuffer_to_software");

    let mut toolbox = self::bench(DecoderBackend::VideoToolbox, false, "h264");
    let failure = import_failure(DecoderBackend::VideoToolbox, false, "h264");
    assert!(toolbox
        .session
        .begin_import_fallback("import", &failure)
        .unwrap()
        .is_none());
}

#[test]
fn a_stalled_decoder_is_replaced_where_there_is_another() {
    let mut bench = bench(DecoderBackend::AvCodec, false, "hevc");
    let task = bench
        .session
        .begin_stall_recovery("no input")
        .unwrap()
        .unwrap();
    assert_eq!(task.stage, "decoder_input_stall_avcodec_to_software");
    let mut software = self::bench(DecoderBackend::Software, false, "hevc");
    assert!(software
        .session
        .begin_stall_recovery("no input")
        .unwrap()
        .is_none());
    let mut empty = self::bench(DecoderBackend::AvCodec, false, "hevc");
    empty.session.codec_parameters.clear();
    assert_eq!(
        empty.session.begin_stall_recovery("no input").unwrap_err(),
        PlaybackError::TrackNotFound {
            kind: TrackKind::Video,
            track_id: 0
        }
    );
}

#[test]
fn budgets_bound_a_pump() {
    let mut bench = bench(DecoderBackend::Software, false, "h264");
    let session = &mut bench.session;
    assert!(session.wants_video(63, Duration::from_millis(4)));
    assert!(!session.wants_video(64, Duration::zero()));
    assert!(!session.wants_video(0, Duration::from_millis(5)));
    assert!(session.wants_audio(false, 3, 4, false));
    assert!(!session.wants_audio(true, 3, 4, false));
    assert!(!session.wants_audio(false, 4, 4, false));
    assert!(!session.wants_audio(false, 3, 4, true));
    session.video.take_frame(frame(0));
    session.video.pending.push_back(packet(0, true));
    let discarded = session.discard_queued_frames_and_packets();
    assert_eq!(discarded.video_frames, 1);
    assert_eq!(discarded.video_packets, 1);
}

#[test]
fn the_demux_worker_seeks_when_it_starts() {
    let mut worker = DemuxWorker::new();
    assert_eq!(worker.next_step(), WorkerStep::WaitForCommand);
    let position = Duration::from_secs(9);
    let seek = DemuxCommand::Seek {
        generation: 2,
        position,
    };
    assert!(matches!(
        worker.handle_demux_command(seek),
        CommandStep::Done
    ));
    let select = DemuxCommand::SetSelection {
        generation: 3,
        selection: StreamSelection::all(),
    };
    assert!(matches!(
        worker.handle_demux_command(select),
        CommandStep::Select(_)
    ));
    assert!(worker.finish_selection(None).is_none());
    assert!(worker.abandons(3));
    let start = DemuxCommand::Start { generation: 1 };
    assert!(matches!(
        worker.handle_demux_command(start),
        CommandStep::Seek(to) if to == position
    ));
    assert!(worker.finish_seek(None).is_none());
    assert_eq!(worker.generation, 3);
    assert_eq!(worker.next_step(), WorkerStep::ReadPacket);
    assert!(worker.abandons(2) && !worker.abandons(3));

    let message = worker.finish_read(Ok(Some(packet(0, true))));
    assert_eq!(demux_message_generation(&message), 3);
    assert!(matches!(
        worker.finish_read(Ok(None)),
        DemuxMessage::Eof { generation: 3 }
    ));
    assert_eq!(worker.next_step(), WorkerStep::WaitForCommand);
    assert!(matches!(
        worker.handle_demux_command(DemuxCommand::Stop),
        CommandStep::Exit
    ));
}

#[test]
fn the_demux_worker_tells_its_failures() {
    let mut worker = DemuxWorker::new();
    assert!(matches!(
        worker.finish_seek(Some("no".to_string())),
        Some(DemuxMessage::Error { generation: 1, message }) if message == "no"
    ));
    assert_eq!(worker.next_step(), WorkerStep::WaitForCommand);
    assert!(worker.finish_selection(Some("no".to_string())).is_some());
    assert!(matches!(
        worker.finish_read(Err("no".to_string())),
        DemuxMessage::Error { .. }
    ));
    assert_eq!(after_offer(true, false), DeliveryOutcome::Delivered);
    assert_eq!(after_offer(false, false), DeliveryOutcome::Retry);
    assert_eq!(after_offer(false, true), DeliveryOutcome::Exit);
}

#[test]
fn stale_messages_are_passed_over() {
    let (mut demuxer, outlet, commands) = AsyncDemuxer::new();
    let packets = outlet.sender().clone();
    drop(outlet);
    let stale = DemuxMessage::Eof { generation: 1 };
    demuxer.seek(Duration::from_secs(1)).unwrap();
    assert!(!demuxer.active);
    packets.send(stale).unwrap();
    packets
        .send(DemuxMessage::Packet {
            generation: 2,
            packet: packet(4, true),
        })
        .unwrap();
    assert!(matches!(
        demuxer.poll(),
        Ok(PumpInput::Packet(packet)) if packet.stream_index() == 4
    ));
    assert!(demuxer.active);
    assert!(matches!(demuxer.poll(), Ok(PumpInput::Empty)));
    packets
        .send(DemuxMessage::Error {
            generation: 2,
            message: "broken".to_string(),
        })
        .unwrap();
    assert_eq!(
        demuxer.poll().unwrap_err(),
        PlaybackError::DemuxWorker("broken".to_string())
    );
    packets.send(DemuxMessage::Eof { generation: 2 }).unwrap();
    assert!(matches!(demuxer.poll(), Ok(PumpInput::Eof)));
    drop(packets);
    assert_eq!(
        demuxer.poll().unwrap_err(),
        PlaybackError::DemuxWorker("demux packet channel closed".to_string())
    );
    drop(commands);
    assert_eq!(
        demuxer.seek(Duration::zero()).unwrap_err(),
        PlaybackError::DemuxWorker("demux command channel closed".to_string())
    );
}

#[test]
fn a_new_generation_forgets_what_was_read() {
    let (mut demuxer, outlet, commands) = AsyncDemuxer::new();
    assert_eq!(outlet.sender().capacity(), Some(DEMUX_PACKET_QUEUE_LIMIT));
    let packets = outlet.sender().clone();
    drop(outlet);
    demuxer.start().unwrap();
    packets.send(DemuxMessage::Eof { generation: 1 }).unwrap();
    demuxer
        .set_stream_selection(StreamSelection::only(vec![2]))
        .unwrap();
    assert!(packets.is_empty());
    assert_eq!(demuxer.generation, 2);
    assert!(matches!(
        commands.try_recv(),
        Ok(DemuxCommand::Start { generation: 1 })
    ));
    assert!(matches!(
        commands.try_recv(),
        Ok(DemuxCommand::SetSelection { generation: 2, selection }) if selection.accepts(2)
    ));
}

#[test]
fn runs_of_audio_join_up() {
    let mut resampler = AudioResampler {
        output_format: PcmFormat::f32_interleaved(48_000, 1),
        next_output_pts: None,
    };
    let plan = resampler.begin_convert(&frame(960)).unwrap();
    assert_eq!(plan.input_samples, 960);
    let first = resampler.finish_convert(
        plan.pts,
        960,
        vec![7; 1_000],
        Duration::from_millis(20),
    );
    assert_eq!(first.samples.len(), 960);
    assert_eq!(
        resampler.next_output_pts,
        Some(Duration::from_millis(20))
    );
    assert!(resampler
        .finish_drain(0, Vec::new(), Duration::zero())
        .is_none());
}
