//! The rules of playback: what depends on a few plain values alone.
use erika::decoder::{DecoderBackend, DecoderConfig};
use erika::media::{
    ColorPrimaries, FrameRate, MediaRequest, PlayerError, PlayerState, TrackInfo, TrackKind,
    TrackSelection, TransferFunction, VideoParams,
};
use erika::pcm::PcmFormat;
use erika::playback::{
    audio_queue_blocks_demux, external_subtitle_needs_charset_inspection, external_subtitle_title,
    mediacodec_fallback_target, mediacodec_seek_route, playback_eof_ready,
    playback_state_after_seek, playback_state_after_seek_intent, playback_state_requires_rewind,
    playback_timing_for_request, seek_preroll_budget_exhausted,
    should_fallback_video_decoder_open_error, trim_video_queue, video_decoder_open_stage,
    video_decoder_unavailability_reason, DecoderDrainStatus, MediaCodecFallbackTarget,
    MediaCodecSeekRoute, OpenedMediaInfo, PlaybackError, PlaybackPumpDemand, PlaybackQueueLimits,
    PlaybackRunState, DEFAULT_AUDIO_FRAME_QUEUE_LIMIT, SEEK_PREROLL_DECODE_TIME_BUDGET_NANOS,
    STREAMING_AUDIO_FRAME_QUEUE_LIMIT, STREAMING_VIDEO_FRAME_QUEUE_LIMIT,
    SUBTITLE_FRAME_QUEUE_LIMIT, VIDEO_DEMAND_AUDIO_FRAME_CEILING,
};
use erika::schedule::{
    DisplaySyncConfig, DisplaySyncState, PlaybackTimingConfig, VideoFrameDecision,
    VideoFrameScheduler, DEFAULT_AUDIO_LEAD_NANOS, STREAMING_AUDIO_LEAD_NANOS,
};
use erika::subtitle::{select_ready_subtitle, SubtitleQueueCandidate, SubtitleTrackConfig};
use erika::time::Duration;
use std::collections::VecDeque;

#[test]
fn decoder_drain_status_reports_only_frames_or_end_of_stream_as_progress() {
    assert!(!DecoderDrainStatus::default().made_progress());
    assert!(DecoderDrainStatus {
        frames: 1,
        end_of_stream: false,
    }
    .made_progress());
    assert!(DecoderDrainStatus {
        frames: 0,
        end_of_stream: true,
    }
    .made_progress());
    assert!(DecoderDrainStatus {
        frames: 1,
        end_of_stream: true,
    }
    .made_progress());
}

#[test]
fn playback_eof_ready_covers_every_pending_output_combination() {
    for session_eof in [false, true] {
        for pending_video in [false, true] {
            for queued_video in [false, true] {
                for audio_output_active in [false, true] {
                    for pending_audio in [false, true] {
                        for queued_audio in [false, true] {
                            let expected = session_eof
                                && !pending_video
                                && !queued_video
                                && (!audio_output_active || (!pending_audio && !queued_audio));
                            assert_eq!(
                                playback_eof_ready(
                                    session_eof,
                                    pending_video,
                                    queued_video,
                                    audio_output_active,
                                    pending_audio,
                                    queued_audio,
                                ),
                                expected,
                                "session_eof={session_eof} pending_video={pending_video} queued_video={queued_video} audio_output_active={audio_output_active} pending_audio={pending_audio} queued_audio={queued_audio}",
                            );
                        }
                    }
                }
            }
        }
    }
}

#[test]
fn only_natural_eof_requires_a_zero_rewind_before_play() {
    assert!(!playback_state_requires_rewind(PlaybackRunState::Stopped));
    assert!(playback_state_requires_rewind(PlaybackRunState::Ended));
    assert!(!playback_state_requires_rewind(PlaybackRunState::Paused));
    assert!(!playback_state_requires_rewind(PlaybackRunState::Playing));
}

#[test]
fn selected_video_track_without_decoder_reports_the_recorded_reason() {
    assert_eq!(video_decoder_unavailability_reason(None, false, None), None);
    assert_eq!(
        video_decoder_unavailability_reason(Some(7), true, Some("ignored")),
        None
    );
    assert_eq!(
        video_decoder_unavailability_reason(Some(7), false, Some("software fallback failed")),
        Some("software fallback failed".to_string())
    );
    assert_eq!(
        video_decoder_unavailability_reason(Some(7), false, None),
        Some(
            "selected video track 7 has no active decoder; reopen the media before playback"
                .to_string()
        )
    );
}

#[test]
fn successful_seek_preserves_terminal_and_paused_states() {
    assert_eq!(
        playback_state_after_seek(PlaybackRunState::Stopped),
        PlaybackRunState::Stopped
    );
    assert_eq!(
        playback_state_after_seek(PlaybackRunState::Ended),
        PlaybackRunState::Stopped
    );
    assert_eq!(
        playback_state_after_seek(PlaybackRunState::Paused),
        PlaybackRunState::Paused
    );
    assert_eq!(
        playback_state_after_seek(PlaybackRunState::Playing),
        PlaybackRunState::Playing
    );
    assert_eq!(
        playback_state_after_seek_intent(PlaybackRunState::Paused, true),
        PlaybackRunState::Playing
    );
    assert_eq!(
        playback_state_after_seek_intent(PlaybackRunState::Paused, false),
        PlaybackRunState::Paused
    );
}

#[test]
fn mediacodec_seek_reopens_the_active_surface_or_bytebuffer_route() {
    assert_eq!(
        mediacodec_seek_route(Some(DecoderBackend::MediaCodec), true),
        Some(MediaCodecSeekRoute::Surface)
    );
    assert_eq!(
        mediacodec_seek_route(Some(DecoderBackend::MediaCodec), false),
        Some(MediaCodecSeekRoute::ByteBuffer)
    );
    assert_eq!(
        mediacodec_seek_route(Some(DecoderBackend::Software), false),
        None
    );
    assert_eq!(
        MediaCodecSeekRoute::Surface.decoder_config(),
        DecoderConfig::mediacodec()
    );
    assert_eq!(
        MediaCodecSeekRoute::ByteBuffer.decoder_config(),
        DecoderConfig::mediacodec_byte_buffer()
    );
}

#[test]
fn seek_preroll_budget_yields_by_frame_count_or_elapsed_time() {
    let budget = Duration {
        nanos: SEEK_PREROLL_DECODE_TIME_BUDGET_NANOS,
    };
    assert!(!seek_preroll_budget_exhausted(
        2,
        3,
        budget.saturating_sub(Duration::from_nanos(1))
    ));
    assert!(seek_preroll_budget_exhausted(3, 3, Duration::zero()));
    assert!(seek_preroll_budget_exhausted(1, 100, budget));
    assert!(
        seek_preroll_budget_exhausted(1, 0, Duration::zero()),
        "a zero scheduler budget must still allow one frame before yielding"
    );
}

#[test]
fn decoder_open_fallback_is_enabled_for_platform_hardware_backends() {
    assert!(should_fallback_video_decoder_open_error(
        DecoderBackend::D3d11va,
        None
    ));
    assert!(should_fallback_video_decoder_open_error(
        DecoderBackend::MediaCodec,
        None
    ));
    assert!(!should_fallback_video_decoder_open_error(
        DecoderBackend::VideoToolbox,
        Some("h264")
    ));
    assert!(should_fallback_video_decoder_open_error(
        DecoderBackend::VideoToolbox,
        Some("av1")
    ));
    assert!(should_fallback_video_decoder_open_error(
        DecoderBackend::VideoToolbox,
        Some("AV1")
    ));
    assert!(!should_fallback_video_decoder_open_error(
        DecoderBackend::Software,
        Some("av1")
    ));
}

#[test]
fn mediacodec_open_events_identify_surface_and_bytebuffer_modes() {
    assert_eq!(
        video_decoder_open_stage(DecoderConfig::mediacodec()),
        "open_surface"
    );
    assert_eq!(
        video_decoder_open_stage(DecoderConfig::mediacodec_byte_buffer()),
        "open_bytebuffer"
    );
    assert_eq!(video_decoder_open_stage(DecoderConfig::software()), "open");
}

#[test]
fn mediacodec_surface_failure_steps_down_to_bytebuffer() {
    assert_eq!(
        mediacodec_fallback_target(Some(DecoderBackend::MediaCodec), true, false),
        Some(MediaCodecFallbackTarget::ByteBuffer)
    );
}

#[test]
fn mediacodec_bytebuffer_failure_steps_down_to_software() {
    assert_eq!(
        mediacodec_fallback_target(Some(DecoderBackend::MediaCodec), false, true),
        Some(MediaCodecFallbackTarget::Software)
    );
    assert_eq!(
        mediacodec_fallback_target(Some(DecoderBackend::MediaCodec), true, true),
        Some(MediaCodecFallbackTarget::Software),
        "a disabled Surface path must not be re-enabled by a stale decoder"
    );
}

#[test]
fn mediacodec_fallback_ignores_non_mediacodec_decoders() {
    assert_eq!(
        mediacodec_fallback_target(Some(DecoderBackend::Software), false, true),
        None
    );
}

#[test]
fn opened_media_info_keeps_probe_summary() {
    let mut video_track = TrackInfo::embedded(0, TrackKind::Video);
    video_track.codec = Some("hevc".to_string());
    let info = OpenedMediaInfo {
        uri: "file:///tmp/test.mp4".to_string(),
        duration: Some(Duration::from_secs(12)),
        tracks: vec![video_track],
        video_params: Some(VideoParams {
            width: 3840,
            height: 2160,
            primaries: ColorPrimaries::Bt2020,
            transfer: TransferFunction::Pq,
        }),
        selected_video_track: Some(0),
        selected_audio_track: Some(1),
        selected_subtitle_track: Some(2),
        subtitle_tracks: vec![SubtitleTrackConfig::embedded(2, 2)],
        video_decode_backend: Some(DecoderBackend::Software),
        audio_output: Some(PcmFormat::default()),
    };

    assert_eq!(info.duration, Some(Duration::from_secs(12)));
    assert_eq!(info.tracks.len(), 1);
    assert_eq!(
        info.video_params.as_ref().map(|params| params.width),
        Some(3840)
    );
    assert_eq!(info.selected_video_track, Some(0));
    assert_eq!(info.selected_audio_track, Some(1));
    assert_eq!(info.selected_subtitle_track, Some(2));
    assert_eq!(info.subtitle_tracks.len(), 1);
    assert_eq!(info.video_decode_backend, Some(DecoderBackend::Software));
    assert_eq!(info.audio_output, Some(PcmFormat::default()));
    assert_eq!(
        info.track_selection(),
        TrackSelection {
            video: Some(0),
            audio: Some(1),
            subtitle: Some(2),
        }
    );
}

#[test]
fn subtitle_queue_selects_ready_external_before_future_embedded() {
    let candidate = select_ready_subtitle(
        Some(Duration::from_secs(10)),
        &vec![(3, Duration::from_secs(1))],
        Duration::from_secs(2),
    )
    .unwrap();

    assert!(matches!(
        candidate,
        SubtitleQueueCandidate::External {
            index: 3,
            start
        } if start == Duration::from_secs(1)
    ));
}

#[test]
fn subtitle_queue_selects_earliest_ready_candidate() {
    let candidate = select_ready_subtitle(
        Some(Duration::from_secs(1)),
        &vec![(0, Duration::from_secs(2))],
        Duration::from_secs(3),
    )
    .unwrap();

    assert!(matches!(
        candidate,
        SubtitleQueueCandidate::Embedded { start } if start == Duration::from_secs(1)
    ));
}

#[test]
fn subtitle_queue_waits_when_no_candidate_is_ready() {
    assert!(select_ready_subtitle(
        Some(Duration::from_secs(5)),
        &vec![(0, Duration::from_secs(6))],
        Duration::from_secs(4),
    )
    .is_none());
}

#[test]
fn external_subtitle_inspection_covers_query_uris_and_extensionless_uris() {
    assert!(external_subtitle_needs_charset_inspection("/tmp/movie.srt"));
    // Signed sidecar URLs keep their extension behind a query string.
    assert!(external_subtitle_needs_charset_inspection(
        "https://host/sub.srt?token=abc"
    ));
    // Android content picks arrive as a bare descriptor with no file name.
    assert!(external_subtitle_needs_charset_inspection(
        "fd://42?offset=0&length=4096"
    ));
    // Bitmap subtitle formats stay on the regular source path so their
    // bytes are never buffered for a charset guess.
    assert!(!external_subtitle_needs_charset_inspection(
        "/tmp/movie.sup"
    ));
    assert!(!external_subtitle_needs_charset_inspection(
        "https://host/movie.idx?token=abc"
    ));
}

#[test]
fn external_subtitle_titles_are_file_names() {
    assert_eq!(
        external_subtitle_title("https://host/dir/ movie.zh.srt"),
        Some("movie.zh.srt".to_string())
    );
    assert_eq!(
        external_subtitle_title("plain.ass"),
        Some("plain.ass".to_string())
    );
    assert_eq!(external_subtitle_title("https://host/dir/ "), None);
}

#[test]
fn http_playback_uses_deeper_audio_lead() {
    let request = MediaRequest::new("https://example.invalid/video.mkv");
    let timing = playback_timing_for_request(&request, PlaybackTimingConfig::default());

    assert_eq!(
        timing.audio_lead_time,
        Duration {
            nanos: STREAMING_AUDIO_LEAD_NANOS
        }
    );
}

#[test]
fn custom_audio_lead_is_preserved_for_http_playback() {
    let request = MediaRequest::new("https://example.invalid/video.mkv");
    let custom = PlaybackTimingConfig {
        audio_lead_time: Duration::from_millis(750),
        ..PlaybackTimingConfig::default()
    };
    let timing = playback_timing_for_request(&request, custom);

    assert_eq!(timing.audio_lead_time, Duration::from_millis(750));
}

#[test]
fn local_playback_keeps_default_audio_lead() {
    let request = MediaRequest::new("/tmp/video.mkv");
    let timing = playback_timing_for_request(&request, PlaybackTimingConfig::default());

    assert_eq!(
        timing.audio_lead_time,
        Duration {
            nanos: DEFAULT_AUDIO_LEAD_NANOS
        }
    );
}

#[test]
fn http_requests_get_deeper_playback_queue_limits() {
    let request = MediaRequest::new("https://example.invalid/video.mkv");
    let limits = PlaybackQueueLimits::for_request(&request);

    assert_eq!(limits.video_frames, STREAMING_VIDEO_FRAME_QUEUE_LIMIT);
    assert_eq!(limits.audio_frames, STREAMING_AUDIO_FRAME_QUEUE_LIMIT);
    assert_eq!(limits.subtitle_frames, SUBTITLE_FRAME_QUEUE_LIMIT);
}

#[test]
fn local_requests_keep_default_playback_queue_limits() {
    let request = MediaRequest::new("/tmp/video.mkv");
    let limits = PlaybackQueueLimits::for_request(&request);

    assert_eq!(limits, PlaybackQueueLimits::default());
}

#[test]
fn full_audio_queue_only_blocks_audio_driven_demux() {
    assert!(audio_queue_blocks_demux(
        PlaybackPumpDemand::Audio,
        true,
        DEFAULT_AUDIO_FRAME_QUEUE_LIMIT,
        DEFAULT_AUDIO_FRAME_QUEUE_LIMIT,
    ));
    assert!(!audio_queue_blocks_demux(
        PlaybackPumpDemand::Video,
        true,
        DEFAULT_AUDIO_FRAME_QUEUE_LIMIT,
        DEFAULT_AUDIO_FRAME_QUEUE_LIMIT,
    ));
}

#[test]
fn video_demand_audio_backpressure_is_relaxed_but_bounded() {
    // Wide enough to cross a container whose audio is interleaved several
    // seconds ahead of the next video packet...
    assert!(!audio_queue_blocks_demux(
        PlaybackPumpDemand::Video,
        true,
        VIDEO_DEMAND_AUDIO_FRAME_CEILING - 1,
        DEFAULT_AUDIO_FRAME_QUEUE_LIMIT,
    ));
    // ...but still a ceiling, so a stream that never yields another video
    // packet cannot grow the decoded audio queue without bound.
    assert!(audio_queue_blocks_demux(
        PlaybackPumpDemand::Video,
        true,
        VIDEO_DEMAND_AUDIO_FRAME_CEILING,
        DEFAULT_AUDIO_FRAME_QUEUE_LIMIT,
    ));
    // A streaming profile already allows more than the ceiling; keep its
    // own limit rather than tightening it.
    assert!(!audio_queue_blocks_demux(
        PlaybackPumpDemand::Video,
        true,
        VIDEO_DEMAND_AUDIO_FRAME_CEILING,
        VIDEO_DEMAND_AUDIO_FRAME_CEILING * 2,
    ));
    // Inactive audio output never blocks either demand.
    assert!(!audio_queue_blocks_demux(
        PlaybackPumpDemand::Audio,
        false,
        VIDEO_DEMAND_AUDIO_FRAME_CEILING * 4,
        DEFAULT_AUDIO_FRAME_QUEUE_LIMIT,
    ));
}

#[test]
fn video_frame_scheduler_waits_presents_and_drops() {
    let scheduler = VideoFrameScheduler::new(Duration::from_millis(4), Duration::from_millis(80));

    assert_eq!(
        scheduler.schedule(
            Some(Duration::from_millis(110)),
            Duration::from_millis(100),
            false
        ),
        VideoFrameDecision::Wait {
            early_by: Duration::from_millis(6)
        }
    );
    assert_eq!(
        scheduler.schedule(
            Some(Duration::from_millis(98)),
            Duration::from_millis(100),
            false
        ),
        VideoFrameDecision::Present {
            late_by: Some(Duration::from_millis(2))
        }
    );
    assert_eq!(
        scheduler.schedule(
            Some(Duration::from_millis(10)),
            Duration::from_millis(100),
            false
        ),
        VideoFrameDecision::Drop {
            late_by: Duration::from_millis(90)
        }
    );
}

#[test]
fn video_frame_scheduler_always_presents_first_frame() {
    let scheduler = VideoFrameScheduler::new(Duration::zero(), Duration::from_millis(1));

    assert_eq!(
        scheduler.schedule(
            Some(Duration::from_millis(10)),
            Duration::from_millis(100),
            true
        ),
        VideoFrameDecision::Present {
            late_by: Some(Duration::from_millis(90))
        }
    );
}

/// The span of a number of seconds, rounded to the nearest nanosecond.
fn seconds(value: f64) -> Duration {
    Duration::from_nanos((value * 1e9).round() as u64)
}

#[test]
fn display_sync_quantizes_frames_to_vsyncs_and_carries_error() {
    let mut state = DisplaySyncState::default();
    let config = DisplaySyncConfig::for_refresh_interval(Some(seconds(1.0 / 60.0)));
    let first = state.schedule_frame(seconds(1.0 / 24.0), config);
    let second = state.schedule_frame(seconds(1.0 / 24.0), config);

    assert_eq!(first.vsyncs + second.vsyncs, 5);
    assert_ne!(first.vsyncs, second.vsyncs);
    assert!(first.residual_error_nanos.signum() != second.residual_error_nanos.signum());
}

#[test]
fn display_sync_reset_forgets_the_error() {
    let mut state = DisplaySyncState::default();
    let config = DisplaySyncConfig::for_refresh_interval(None);
    assert_eq!(config.vsync_interval, Duration::from_millis(16));
    state.schedule_frame(Duration::from_millis(20), config);
    assert_eq!(state.residual_error_nanos(), 4_000_000);
    state.reset();
    assert_eq!(state.residual_error_nanos(), 0);
}

#[test]
fn frame_rates_are_reduced() {
    assert_eq!(
        FrameRate::new(48_000, 2_002),
        Some(FrameRate {
            numerator: 24_000,
            denominator: 1_001,
        })
    );
    assert_eq!(FrameRate::new(0, 1), None);
    assert_eq!(FrameRate::new(1, 0), None);
}

#[test]
fn trimming_keeps_the_newest_frames() {
    let mut frames: VecDeque<u32> = VecDeque::from([1, 2, 3, 4, 5]);
    trim_video_queue(&mut frames, 2);
    assert_eq!(frames, VecDeque::from([4, 5]));
}

#[test]
fn headers_are_redacted() {
    let request = MediaRequest::new("https://host/a").with_http_headers(vec![(
        "Authorization".to_string(),
        "Bearer abc".to_string(),
    )]);
    assert_eq!(
        request.redacted_headers(),
        vec![("Authorization".to_string(), "REDACTED".to_string())]
    );
}

#[test]
fn errors_describe_themselves() {
    assert_eq!(PlayerError::Closed.message(), "player is closed");
    assert_eq!(
        PlayerError::InvalidStateTransition {
            from: PlayerState::Idle,
            to: PlayerState::Playing,
        }
        .message(),
        "invalid state transition from Idle to Playing"
    );
    assert_eq!(
        PlayerError::Renderer("x".to_string()).message(),
        "renderer error: x"
    );
    assert_eq!(
        PlayerError::RendererBackpressure("x".to_string()).message(),
        "renderer backpressure: x"
    );
    assert_eq!(
        PlayerError::Source("x".to_string()).message(),
        "source error: x"
    );
    assert_eq!(
        PlayerError::Playback("x".to_string()).message(),
        "playback error: x"
    );
    assert_eq!(
        PlaybackError::TrackNotFound {
            kind: TrackKind::Audio,
            track_id: -3,
        }
        .message(),
        "track not found: kind=Audio id=-3"
    );
    assert_eq!(
        PlaybackError::SubtitleTrackNotRemovable(12).message(),
        "subtitle track is not removable: 12"
    );
    assert_eq!(
        PlaybackError::NoVideoTrack.message(),
        "no video track found"
    );
    assert_eq!(
        PlaybackError::DecoderInputStall {
            reason: "r".to_string()
        }
        .message(),
        "decoder input stalled: r"
    );
}
