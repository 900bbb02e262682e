//! Small values: times, texts, frames, colours, and the shares of the player's state.
use erika::channel::Offer;
use erika::clock::{
    add_signed_duration, duration_to_nanos, elapsed_since, nanos_to_duration, ClockReading,
    PlaybackClock, PlaybackClockSource,
};
use erika::color::{
    content_light_metadata, transfer_function, TRANSFER_ARIB_STD_B67, TRANSFER_BT709,
    TRANSFER_SMPTE2084,
};
use erika::decoder::{DecoderBackend, Platform};
use erika::error::{api_error, av_error};
use erika::fonts::{collect_families, FontFace};
use erika::frame::{downconvert_p010_samples_to_u8, Frame, PixelFormat, Plane};
use erika::media::{
    greatest_common_divisor, is_http_uri, request_uses_http_source, MediaRequest,
    MediaSourceHint, PlayerError, PlayerState, TrackKind, TransferFunction,
};
use erika::packet::{timestamp_value, Packet, PacketFlags, TimeBase};
use erika::pcm::{
    audio_seek_floor_action, duration_to_audio_frames_ceil, pcm_end_pts, resampler_drain_capacity,
    resampler_output_capacity, AudioSeekFloorAction, PcmAudioFrame, PcmFormat,
};
use erika::playback::{
    stream_index_i32, subtitle_path_extension, uri_path_component,
    video_decoder_open_unavailable_error, PlaybackError, PlaybackSessionConfig,
    VideoDecodePreference,
};
use erika::player::{
    audio_clock_offered, PlaybackCommand, Player, PlayerConfig, PlayerId,
};
use erika::probe::{duration_from_micros, track_kind, StreamContent};
use erika::shared::{PlayerAudioFrame, PlayerVideoFrame};
use erika::subtitle::{
    clear_subtitle_frame, decoded_subtitle_start, palette_color_to_rgba, DecodedSubtitleFrame,
    SubtitleBitmapPlane, SubtitleTextFormat, SubtitleTextSegment,
};
use erika::surface::{
    RenderFrameContext, SurfaceOutputCapabilities, WgpuSurfaceHandle, WgpuSurfaceKind,
};
use erika::text::{
    characters, contains_ignoring_case, copied_text, decimal_text, eq_ignore_ascii_case,
    is_white_space, joined, last_index_of, same_text, signed_decimal_text, stands_before,
    starts_with, starts_with_ignoring_case, truth_text,
};
use erika::time::{Duration, Instant};

#[test]
fn spans_do_not_pass_their_bounds() {
    let second = Duration::from_secs(1);
    let half = Duration::from_millis(500);
    assert_eq!(second.as_micros(), 1_000_000);
    assert!(Duration::zero().is_zero() && !half.is_zero());
    assert_eq!(second.checked_sub(half), Some(half));
    assert_eq!(half.checked_sub(second), None);
    assert_eq!(half.saturating_sub(second), Duration::zero());
    assert_eq!(second.min(half), half);
    let early = Instant { nanos: 7 };
    let late = Instant { nanos: 9 };
    assert_eq!(
        late.saturating_duration_since(early),
        Duration::from_nanos(2)
    );
    assert_eq!(early.saturating_duration_since(late), Duration::zero());
    assert_eq!(elapsed_since(early, late), Duration::from_nanos(2));
    assert_eq!(duration_to_nanos(half), 500_000_000);
    assert_eq!(nanos_to_duration(-1), Duration::zero());
    assert_eq!(
        nanos_to_duration(i128::MAX),
        Duration::from_nanos(u64::MAX)
    );
    assert_eq!(add_signed_duration(second, -500_000_000), half);
    assert_eq!(
        add_signed_duration(half, -2_000_000_000),
        Duration::zero()
    );
}

#[test]
fn a_clock_is_moved_to_a_source() {
    let now = Instant {
        nanos: 3_000_000_000,
    };
    let mut clock = PlaybackClock::paused_at(Duration::from_secs(1));
    clock.sync_to(Duration::from_secs(4), now, PlaybackClockSource::Audio);
    let snapshot = clock.snapshot_at(ClockReading {
        now,
        advance: Duration::zero(),
    });
    assert_eq!(snapshot.media_time, Duration::from_secs(4));
    assert_eq!(snapshot.source, PlaybackClockSource::Audio);
    assert_eq!(f64::from_bits(snapshot.rate), 1.0);
}

#[test]
fn texts_are_searched_and_written() {
    assert!(starts_with("https://a", "https://"));
    assert!(!starts_with("http", "https"));
    assert!(starts_with_ignoring_case("HTTP://a", "http://"));
    assert!(eq_ignore_ascii_case("AV1", "av1"));
    assert!(!eq_ignore_ascii_case("\u{e9}", "\u{c9}"));
    assert!(contains_ignoring_case("xMediaCodecx", "mediacodec"));
    assert!(!contains_ignoring_case("abc", "abd"));
    assert_eq!(last_index_of(&characters("a.b.c"), '.'), Some(3));
    assert_eq!(last_index_of(&characters("abc"), '.'), None);
    assert!(is_white_space('\u{3000}') && !is_white_space('a'));
    assert!(same_text("a", "a") && !same_text("a", "ab"));
    assert!(stands_before("a", "ab") && stands_before("a", "b"));
    assert!(!stands_before("b", "a") && !stands_before("a", "a"));
    assert_eq!(joined("a", "b"), "ab");
    assert_eq!(decimal_text(0), "0");
    assert_eq!(decimal_text(u128::MAX), u128::MAX.to_string());
    assert_eq!(signed_decimal_text(i64::MIN), i64::MIN.to_string());
    assert_eq!(signed_decimal_text(-7), "-7");
    assert_eq!(truth_text(true), "true");
    assert_eq!(copied_text(&Some("a".to_string())), Some("a".to_string()));
    assert_eq!(copied_text(&None), None);
}

#[test]
fn uris_are_taken_apart() {
    assert!(is_http_uri("https://a") && !is_http_uri("file:///a"));
    let mut request = MediaRequest::new("http://host/a.mkv");
    assert!(request_uses_http_source(&request));
    request.source_hint = MediaSourceHint::LocalFile;
    assert!(!request_uses_http_source(&request));
    assert_eq!(uri_path_component("a.srt?x=1#y"), "a.srt");
    assert_eq!(subtitle_path_extension("/tmp/a.tar.gz"), Some("gz"));
    assert_eq!(subtitle_path_extension("/tmp/.hidden"), None);
    assert_eq!(subtitle_path_extension("/tmp/plain"), None);
    assert_eq!(greatest_common_divisor(12, 18), 6);
    assert_eq!(greatest_common_divisor(0, 0), 0);
}

#[test]
fn packets_tell_what_they_know() {
    let packet = Packet {
        stream_index: 1,
        flags: PacketFlags { bits: 2 | 4 },
        position: -1,
        pts: i64::MIN,
        dts: 5,
        duration: 0,
        time_base: Some(TimeBase::from_ratio(1, 0)),
        data: vec![1, 2],
    };
    assert_eq!(packet.raw_pts(), None);
    assert_eq!(packet.raw_dts(), Some(5));
    assert_eq!(packet.raw_duration(), None);
    assert_eq!(packet.time_base(), Some(TimeBase { num: 0, den: 1 }));
    assert!(!packet.is_key());
    assert!(packet.flags().is_corrupt() && packet.flags().is_discard());
    assert_eq!(timestamp_value(i64::MIN), None);
    assert_eq!(timestamp_value(-3), Some(-3));
}

fn plane(stride: i32, bytes: Vec<u8>) -> Plane {
    Plane {
        stride,
        bytes: Some(bytes),
    }
}

fn frame(format: PixelFormat, handles: [u64; 4]) -> Frame {
    Frame {
        width: 2,
        height: 2,
        sample_rate: 0,
        channels: 0,
        samples: 0,
        sample_format: None,
        format,
        format_name: None,
        planes: [
            plane(3, vec![1, 2, 0, 3, 4, 0]),
            plane(1, vec![5]),
            plane(1, vec![6]),
            Plane {
                stride: 0,
                bytes: None,
            },
        ],
        handles,
        has_hw_frames_context: false,
        pts: 90,
        time_base: TimeBase {
            num: 1,
            den: 1_000,
        },
        pts_magnitude: Duration::from_millis(90),
        color_primaries: 0,
        color_transfer: TRANSFER_SMPTE2084,
        color_range: 0,
        color_matrix: 0,
    }
}

#[test]
fn frames_are_packed_or_point_to_the_hardware() {
    let software = frame(PixelFormat::Yuv420p, [0; 4]);
    let packed = software.to_nv12().unwrap();
    assert_eq!(packed.luma, vec![1, 2, 3, 4]);
    assert_eq!(packed.chroma, vec![5, 6]);
    assert!(!software.is_audio() && !software.is_mediacodec());
    assert_eq!(software.raw_pts(), Some(90));
    assert_eq!(software.raw_pixel_format(), PixelFormat::Yuv420p);
    assert_eq!(software.channel_count(), 0);
    assert_eq!(software.sample_count(), 0);
    assert_eq!(software.transfer_function(), TransferFunction::Pq);
    assert!(software.videotoolbox_pixel_buffer().is_none());

    let toolbox = frame(PixelFormat::VideoToolbox, [0, 0, 0, 77]);
    assert!(toolbox.is_videotoolbox());
    assert_eq!(toolbox.videotoolbox_pixel_buffer().unwrap().raw(), 77);
    assert!(frame(PixelFormat::VideoToolbox, [0; 4])
        .videotoolbox_pixel_buffer()
        .is_none());

    let direct = frame(PixelFormat::D3d11, [9, 3, 0, 0]);
    assert!(direct.is_d3d11va());
    let texture = direct.d3d11va_texture().unwrap();
    assert_eq!(texture.raw_texture(), 9);
    assert_eq!(texture.array_index(), 3);
    assert!(frame(PixelFormat::D3d11, [9, 1 << 40, 0, 0])
        .d3d11va_texture()
        .is_none());
    assert_eq!(
        downconvert_p010_samples_to_u8(&vec![0x00, 0x10, 0xc0, 0xff]),
        vec![16, 255]
    );
}

#[test]
fn colours_are_told() {
    assert_eq!(transfer_function(TRANSFER_BT709), TransferFunction::Bt1886);
    assert_eq!(
        transfer_function(TRANSFER_ARIB_STD_B67),
        TransferFunction::Hlg
    );
    assert_eq!(transfer_function(999), TransferFunction::Unknown);
    assert_eq!(content_light_metadata(0, 0), None);
    let light = content_light_metadata(4_000, 450).unwrap();
    assert_eq!(light.max_content_light_level_nits, 4_000);
    assert_eq!(light.max_frame_average_light_level_nits, 450);
    assert_eq!(palette_color_to_rgba(0x8040_20ff), [0x40, 0x20, 0xff, 0x80]);
}

#[test]
fn runs_of_audio_are_measured() {
    assert_eq!(
        duration_to_audio_frames_ceil(Duration::from_millis(9), 1_000),
        9
    );
    assert_eq!(
        duration_to_audio_frames_ceil(Duration::from_nanos(9_000_001), 1_000),
        10
    );
    assert_eq!(resampler_output_capacity(0), 1);
    assert_eq!(resampler_output_capacity(1 << 40), i32::MAX);
    assert_eq!(resampler_drain_capacity(-4), 0);
    assert_eq!(resampler_drain_capacity(7), 7);
    let second = Duration::from_secs(1);
    assert_eq!(
        pcm_end_pts(Some(second), 10, 10, second),
        Some(Duration::from_secs(2))
    );
    assert_eq!(pcm_end_pts(Some(second), 0, 10, second), Some(second));
    assert_eq!(pcm_end_pts(None, 10, 10, second), None);
    let run = PcmAudioFrame {
        format: PcmFormat::f32_interleaved(10, 1),
        pts: Some(second),
        frames: 10,
        samples: vec![0; 10],
    };
    assert_eq!(
        audio_seek_floor_action(&run, Duration::from_millis(1_450)),
        AudioSeekFloorAction::Emit { trimmed_frames: 5 }
    );
    assert_eq!(
        audio_seek_floor_action(&run, Duration::from_secs(2)),
        AudioSeekFloorAction::Drop
    );
}

#[test]
fn subtitles_hold_text_and_pictures() {
    let mut subtitle = DecodedSubtitleFrame::new(4, None, None);
    assert_eq!(decoded_subtitle_start(&subtitle), Duration::zero());
    assert!(!subtitle.has_ass_chunks());
    subtitle.push_text(SubtitleTextSegment {
        format: SubtitleTextFormat::Ass,
        text: "a".to_string(),
        forced: true,
    });
    assert!(subtitle.has_ass_chunks());
    subtitle.push_bitmap_plane(
        SubtitleBitmapPlane {
            x: 0,
            y: 0,
            width: 1,
            height: 1,
            canvas_width: 1,
            canvas_height: 1,
            rgba: vec![0; 4],
        },
        true,
    );
    assert!(subtitle.forced);
    assert_eq!(subtitle.with_track_id(9).track_id, 9);
    assert!(clear_subtitle_frame(None, Duration::zero()).is_none());
    let clear = clear_subtitle_frame(Some(2), Duration::from_secs(3)).unwrap();
    assert_eq!(clear.start, Some(Duration::from_secs(3)));
    assert!(clear.text.is_empty());
}

#[test]
fn families_are_sorted_and_single() {
    let face = |families: Vec<&str>, post_script: &str| FontFace {
        families: families.iter().map(|name| name.to_string()).collect(),
        post_script_name: post_script.to_string(),
    };
    let faces = vec![face(vec!["b", "a"], "c"), face(vec!["a"], "")];
    assert_eq!(
        collect_families(&faces),
        vec!["a".to_string(), "b".to_string(), "c".to_string()]
    );
}

#[test]
fn streams_and_platforms_are_told_apart() {
    assert_eq!(track_kind(StreamContent::Attachment), None);
    assert_eq!(track_kind(StreamContent::Video), Some(TrackKind::Video));
    assert_eq!(duration_from_micros(0), None);
    assert_eq!(
        duration_from_micros(1_500_000),
        Some(Duration::from_millis(1_500))
    );
    assert_eq!(stream_index_i32(5, TrackKind::Audio, 5), Ok(5));
    assert_eq!(
        stream_index_i32(1 << 40, TrackKind::Audio, 6),
        Err(PlaybackError::TrackNotFound {
            kind: TrackKind::Audio,
            track_id: 6
        })
    );
    assert_eq!(
        VideoDecodePreference::for_platform(Platform::Android),
        VideoDecodePreference::MediaCodec
    );
    assert_eq!(
        VideoDecodePreference::for_platform(Platform::Other),
        VideoDecodePreference::Software
    );
    let config = PlayerConfig::for_platform(Platform::Android);
    assert_eq!(config.playback.video_decode, VideoDecodePreference::MediaCodec);
    assert_eq!(
        config.playback,
        PlaybackSessionConfig::for_platform(Platform::Android)
    );
    assert_eq!(config.audio_frame_queue_capacity, 192);
    assert_eq!(
        PlayerConfig::for_platform(Platform::Other),
        PlayerConfig::default()
    );
    assert_eq!(
        PlaybackSessionConfig::for_platform(Platform::Apple).video_decode,
        VideoDecodePreference::VideoToolbox
    );
    assert_eq!(
        video_decoder_open_unavailable_error("open", "broken"),
        PlaybackError::VideoDecoderUnavailable {
            reason: "open: broken".to_string()
        }
    );
    assert!(api_error("read", av_error(5), "bad").reports_errno(5));
    assert!(!api_error("read", 5, "bad").reports_errno(5));
}

#[test]
fn surfaces_and_contexts_are_built_up() {
    let handle = WgpuSurfaceHandle::new(WgpuSurfaceKind::Unknown, 1, 2, 3, 4, 1.0f64.to_bits());
    let capable = handle.with_output_capabilities(SurfaceOutputCapabilities {
        extended_linear: true,
        direct_composition: false,
        desired_headroom: 2.0f32.to_bits(),
        fallback_reason: None,
    });
    assert!(capable.output_capabilities.extended_linear);
    let overlay = 5u8;
    let context: RenderFrameContext<'_, u8, u8> =
        RenderFrameContext::new(Duration::from_secs(1), 2)
            .overlay(Some(&overlay))
            .danmaku(None)
            .output_size(640, 480);
    assert_eq!(context.overlay, Some(&5));
    assert_eq!((context.output_width, context.output_height), (640, 480));
    assert_eq!(context.generation, 2);
}

fn player(state: PlayerState) -> Player {
    let mut player = Player::new(PlayerConfig::default(), PlayerId::of_counter(1));
    player.inner.status.state = state;
    player
}

#[test]
fn places_are_reserved_and_given_back() {
    let mut player = player(PlayerState::Playing);
    player.inner.status.playback_generation = 4;
    let relocation = player.inner.relocate(Duration::from_secs(9));
    assert_eq!(relocation.generation, 5);
    assert!(relocation.resume_after_seek);
    assert_eq!(player.playback_generation(), 5);
    player.inner.roll_back(relocation);
    assert_eq!(player.playback_generation(), 4);
    let first = player.inner.relocate(Duration::from_secs(1));
    let second = player.inner.relocate(Duration::from_secs(2));
    player.inner.roll_back(first);
    assert_eq!(player.playback_generation(), second.generation);
}

#[test]
fn only_an_open_medium_is_started() {
    let mut idle = player(PlayerState::Idle);
    assert_eq!(
        idle.inner.reserve_play().err().unwrap(),
        PlayerError::InvalidStateTransition {
            from: PlayerState::Idle,
            to: PlayerState::Playing
        }
    );
    let mut ready = player(PlayerState::Ready);
    assert!(matches!(
        ready.inner.reserve_play(),
        Ok(PlaybackCommand::Play { sequence: 1, .. })
    ));
    assert!(ready.ensure_not_closed().is_ok());
    assert_eq!(
        player(PlayerState::Closed).ensure_not_closed(),
        Err(PlayerError::Closed)
    );
}

#[test]
fn an_older_timeline_is_not_published() {
    let mut player = player(PlayerState::Playing);
    player.inner.publish_playback_generation(6);
    assert_eq!(player.playback_generation(), 6);
    player.inner.publish_playback_generation(3);
    assert_eq!(player.playback_generation(), 6);
    let clock = PlaybackClock::paused_at(Duration::from_secs(2));
    assert!(!player.inner.sync_playback_clock(clock, 5));
    assert!(player.inner.sync_playback_clock(clock, 7));
    assert_eq!(player.playback_generation(), 7);
}

#[test]
fn receivers_that_are_gone_are_let_go() {
    let mut player = player(PlayerState::Playing);
    let first = player.subscribe();
    let _second = player.subscribe();
    drop(first);
    player.inner.retain_subscribers(&vec![false, true]);
    assert_eq!(player.inner.subscribers.len(), 1);
    let video = player.subscribe_video_frames();
    let picture = || {
        PlayerVideoFrame::from_decoded(
            frame(PixelFormat::Yuv420p, [0; 4]),
            DecoderBackend::Software,
            None,
            Duration::zero(),
            None,
            1,
        )
    };
    player.inner.emit_video_frame(picture());
    assert_eq!(video.try_recv().unwrap().generation, 1);
    drop(video);
    player.inner.emit_video_frame(picture());
    assert!(player.inner.video_frame_sender.is_none());
    let run = PlayerAudioFrame {
        frame: PcmAudioFrame {
            format: PcmFormat::default(),
            pts: None,
            frames: 0,
            samples: Vec::new(),
        },
        generation: 1,
    };
    let _ = player.subscribe_audio_frames();
    player.inner.audio_frame_offered(Offer::Disconnected(run));
    assert!(player.inner.audio_frame_sender.is_none());
}

#[test]
fn a_full_command_queue_drops_an_audio_clock() {
    let command = || PlaybackCommand::Shutdown;
    assert!(audio_clock_offered(Offer::Sent).is_ok());
    assert!(audio_clock_offered(Offer::Full(command())).is_ok());
    assert!(audio_clock_offered(Offer::Disconnected(command())).is_err());
}
