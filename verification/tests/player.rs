//! The player: commands, and what listeners are told.
use crossbeam_channel::{bounded, Receiver};
use erika::audio::AudioClockSnapshot;
use erika::buffering::{
    audio_snapshot_is_starved, audio_snapshot_recovery_reference, AudioFeed,
    AudioOutputBackpressureState, AUDIO_OUTPUT_BACKPRESSURE_TIMEOUT_NANOS,
};
use erika::channel::Outlet;
use erika::clock::{ClockReading, PlaybackClock};
use erika::decoder::DecoderBackend;
use erika::events::{
    AudioOutputEvent, AudioOutputRuntimeStats, PlayerEvent, VideoDecoderEvent,
    VideoFrameImportFailure,
};
use erika::media::{
    ColorPrimaries, MediaRequest, PlayerError, PlayerState, TrackInfo, TrackKind, TrackSelection,
    TransferFunction, VideoParams,
};
use erika::pcm::{PcmAudioFrame, PcmFormat};
use erika::playback::{OpenedMediaInfo, PlaybackRunState};
use erika::player::{
    enqueue_frame_output_resume_after_timeout, frame_output_acknowledged, frame_output_remaining,
    frame_output_sent, next_external_subtitle_track_id, send_command, subtitle_reply, video_decode_reply,
    BarrierReply, PlaybackCommand, Player, PlayerConfig, PlayerId,
    SUBTITLE_FRAME_HANDOFF_MIN_CAPACITY,
};
use erika::shared::{
    begin_playback_command_execution, video_import_feedback_is_current,
    worker_clock_generation_is_stale, worker_generation_is_stale, AudioFrameEmitResult,
    PlayerAudioFrame, PlayerSubtitleFrame,
};
use erika::subtitle::{DecodedSubtitleFrame, SubtitleTrackConfig};
use erika::surface::{
    FlutterTextureHandle, FlutterTextureKind, MetalSurfaceHandle, PlatformSurface,
    WgpuSurfaceHandle, WgpuSurfaceKind,
};
use erika::time::{Duration, Instant};
use erika::worker::PlaybackWorker;

fn player() -> Player {
    Player::new(PlayerConfig::default(), PlayerId::of_counter(1))
}

/// A reading for clocks that are parked, or anchored at this very moment.
fn now() -> ClockReading {
    ClockReading {
        now: Instant {
            nanos: 5_000_000_000,
        },
        advance: Duration::zero(),
    }
}

fn install_test_runtime(player: &mut Player, capacity: usize) -> Receiver<PlaybackCommand> {
    let (commands, receiver) = bounded(capacity.max(1));
    player.lifecycle.commands = Some(Outlet::over(commands));
    receiver
}

fn play_with_test_commit(
    player: &mut Player,
    commands: &Receiver<PlaybackCommand>,
    restarted_from_eof: bool,
) -> (u64, u64) {
    player.play().expect("queue play command");
    let (sequence, generation) = match commands.try_recv().expect("play command") {
        PlaybackCommand::Play {
            sequence,
            generation,
        } => (sequence, generation),
        _ => panic!("expected play command"),
    };
    let worker_generation = if restarted_from_eof {
        generation.saturating_add(1).max(1)
    } else {
        generation.max(1)
    };
    assert!(player.inner.commit_playback_command_intent(
        sequence,
        Some(worker_generation),
        restarted_from_eof.then_some(Duration::zero()),
        Some(PlayerState::Playing),
        now(),
    ));
    player.inner.deliver();
    (sequence, generation)
}

fn set_playback(
    player: &mut Player,
    state: PlayerState,
    media_time: Duration,
    generation: u64,
    ended: bool,
) {
    player.inner.status.state = state;
    player.inner.status.playback_clock = PlaybackClock::paused_at(media_time);
    player.inner.status.playback_generation = generation;
    player.inner.status.ended = ended;
}

fn install_fake_playback(
    player: &mut Player,
    state: PlayerState,
    media_time: Duration,
    generation: u64,
    ended: bool,
) -> Receiver<PlaybackCommand> {
    let receiver = install_test_runtime(player, 16);
    set_playback(player, state, media_time, generation, ended);
    receiver
}

fn install_disconnected_playback(
    player: &mut Player,
    state: PlayerState,
    media_time: Duration,
    generation: u64,
    ended: bool,
) {
    let receiver = install_test_runtime(player, 1);
    drop(receiver);
    set_playback(player, state, media_time, generation, ended);
}

fn test_audio_frame(generation: u64) -> PlayerAudioFrame {
    PlayerAudioFrame {
        frame: PcmAudioFrame {
            format: PcmFormat::default(),
            pts: Some(Duration::from_millis(generation)),
            frames: 1,
            samples: vec![0, 0],
        },
        generation,
    }
}

fn subtitle_at(millis: u64) -> PlayerSubtitleFrame {
    PlayerSubtitleFrame {
        frame: DecodedSubtitleFrame::new(
            2,
            Some(Duration::from_millis(millis)),
            Some(Duration::from_millis(millis + 1)),
        ),
        pts: Some(Duration::from_millis(millis)),
        media_time: Duration::from_millis(millis),
        late_by: None,
        generation: 1,
    }
}

#[test]
fn frame_output_barrier_is_a_noop_without_open_media() {
    let player = player();
    assert!(player.begin_frame_output(true).is_none());
}

#[test]
fn video_decode_mode_is_a_noop_without_open_media() {
    let player = player();
    assert!(player.begin_video_decode_mode(true).is_none());
}

#[test]
fn video_decode_mode_is_answered_by_the_worker() {
    let mut player = player();
    let _receiver = install_test_runtime(&mut player, 1);
    let (command, response) = player.begin_video_decode_mode(true).unwrap();
    match command {
        PlaybackCommand::SetVideoDecodeSuspended {
            suspended: true,
            mut reply,
        } => assert!(reply.give(Ok(()))),
        _ => panic!("unexpected playback command"),
    }
    assert_eq!(video_decode_reply(response.recv().ok()), Ok(true));
    assert_eq!(
        video_decode_reply(Some(Err("no".to_string()))),
        Err(PlayerError::Playback("no".to_string()))
    );
    assert_eq!(
        video_decode_reply(None),
        Err(PlayerError::Playback(
            "playback worker stopped before acknowledging video decode mode".to_string()
        ))
    );
}

#[test]
fn frame_output_barrier_reports_an_unresponsive_worker() {
    let mut player = player();
    let receiver = install_test_runtime(&mut player, 2);
    let timeout = Duration::from_millis(25);

    let (command, response) = player.begin_frame_output(true).unwrap();
    let mut commands = player.lifecycle.commands.unwrap();
    assert!(commands.sender().try_send(command).is_ok());
    assert!(frame_output_sent(BarrierReply::Done, true, timeout).is_ok());
    assert!(response.try_recv().is_err());
    let (result, resume) = frame_output_acknowledged(BarrierReply::Timeout, true, timeout);
    assert!(resume);
    let error = result.unwrap_err();
    assert!(error
        .message()
        .contains("did not acknowledge frame output quiesce"));
    assert_eq!(
        error.message(),
        "playback error: playback worker did not acknowledge frame output quiesce within 25 ms"
    );
    assert_eq!(
        enqueue_frame_output_resume_after_timeout(&mut commands),
        BarrierReply::Done
    );

    assert!(matches!(
        receiver.try_recv().unwrap(),
        PlaybackCommand::SetFrameOutputQuiesced { quiesced: true, .. }
    ));
    assert!(matches!(
        receiver.try_recv().unwrap(),
        PlaybackCommand::SetFrameOutputQuiesced {
            quiesced: false,
            ..
        }
    ));
    drop(receiver);
    assert_eq!(
        enqueue_frame_output_resume_after_timeout(&mut commands),
        BarrierReply::Disconnected
    );
}

#[test]
fn frame_output_barrier_errors_name_the_action() {
    let timeout = Duration::from_secs(2);
    assert_eq!(
        frame_output_sent(BarrierReply::Timeout, false, timeout),
        Err(PlayerError::Playback(
            "timed out after 2000 ms while sending frame output resume to the playback worker"
                .to_string()
        ))
    );
    assert_eq!(
        frame_output_sent(BarrierReply::Disconnected, false, timeout),
        Err(PlayerError::Playback(
            "playback worker is not running".to_string()
        ))
    );
    assert_eq!(
        frame_output_acknowledged(BarrierReply::Done, true, timeout),
        (Ok(true), false)
    );
    assert_eq!(
        frame_output_acknowledged(BarrierReply::Disconnected, false, timeout),
        (
            Err(PlayerError::Playback(
                "playback worker stopped before acknowledging frame output resume".to_string()
            )),
            false
        )
    );
    assert_eq!(
        frame_output_remaining(timeout, Duration::from_millis(1_500)),
        Duration::from_millis(500)
    );
    assert_eq!(
        frame_output_remaining(timeout, Duration::from_secs(3)),
        Duration::zero()
    );
}

#[test]
fn stale_worker_generation_cannot_publish_position_or_stopped_state() {
    let mut player = player();
    let events = player.subscribe();
    player.inner.status.state = PlayerState::Playing;
    player.inner.status.playback_clock = PlaybackClock::paused_at(Duration::from_secs(5));
    player.inner.status.playback_generation = 4;

    assert!(worker_generation_is_stale(3, 4));
    assert!(!player
        .inner
        .emit_for_generation(3, PlayerEvent::PositionChanged(Duration::from_millis(3_400))));
    assert!(!player
        .inner
        .set_state_for_generation(3, PlayerState::Stopped));
    player.inner.deliver();

    assert_eq!(player.state(), PlayerState::Playing);
    assert_eq!(player.current_media_time(now()), Duration::from_secs(5));
    assert!(events.try_recv().is_err());
    assert!(!worker_generation_is_stale(4, 4));
}

#[test]
fn stale_video_import_feedback_cannot_downgrade_a_new_decoder_generation() {
    assert!(video_import_feedback_is_current(7, 7, 7));
    assert!(!video_import_feedback_is_current(6, 7, 7));
    assert!(!video_import_feedback_is_current(7, 7, 8));
    assert!(!video_import_feedback_is_current(8, 7, 7));
}

#[test]
fn newer_command_sequence_rejects_older_state_and_position_commit() {
    let mut player = player();
    let events = player.subscribe();
    player.inner.status.state = PlayerState::Stopped;
    player.inner.status.playback_clock = PlaybackClock::paused_at(Duration::from_secs(9));
    player.inner.status.playback_command_sequence = 7;

    assert!(!player.inner.commit_playback_command_intent(
        6,
        None,
        Some(Duration::zero()),
        Some(PlayerState::Playing),
        now(),
    ));
    player.inner.deliver();
    assert_eq!(player.state(), PlayerState::Stopped);
    assert_eq!(player.current_media_time(now()), Duration::from_secs(9));
    assert!(events.try_recv().is_err());
}

#[test]
fn fifo_commands_execute_even_when_a_newer_sequence_is_already_reserved() {
    let mut player = player();
    player.inner.status.playback_command_sequence = 2;
    let mut last_executed = 0;

    assert!(begin_playback_command_execution(1, &mut last_executed));
    assert_eq!(last_executed, 1);
    assert!(!player.inner.commit_playback_command_intent(
        1,
        None,
        Some(Duration::from_secs(3)),
        Some(PlayerState::Playing),
        now(),
    ));
    assert!(begin_playback_command_execution(2, &mut last_executed));
    assert_eq!(last_executed, 2);
}

#[test]
fn lower_sequence_arriving_after_newer_execution_is_skipped() {
    let mut last_executed = 0;

    assert!(begin_playback_command_execution(2, &mut last_executed));
    assert!(!begin_playback_command_execution(1, &mut last_executed));
    assert_eq!(last_executed, 2);
}

#[test]
fn seek_while_playing_carries_resume_intent_past_stale_eof() {
    let mut player = player();
    let receiver = install_test_runtime(&mut player, 2);
    player.inner.status.state = PlayerState::Playing;
    let stale_generation = player.playback_generation();

    player.seek(Duration::from_secs(4), now()).unwrap();

    let (sequence, generation, resume_after_seek) =
        match receiver.try_recv().expect("seek command") {
            PlaybackCommand::Seek {
                position,
                sequence,
                generation,
                resume_after_seek,
            } => {
                assert_eq!(position, Duration::from_secs(4));
                (sequence, generation, resume_after_seek)
            }
            _ => panic!("expected seek command"),
        };
    assert!(resume_after_seek);
    assert!(generation > stale_generation);
    assert!(player
        .inner
        .status
        .playback_command_sequence_is_current(sequence));
    assert!(!player
        .inner
        .set_state_for_generation(stale_generation, PlayerState::Stopped));
    assert_eq!(player.state(), PlayerState::Playing);
}

#[test]
fn stop_sequence_supersedes_a_pending_restart_commit() {
    let mut player = player();
    let receiver = install_test_runtime(&mut player, 3);
    player.inner.status.state = PlayerState::Stopped;
    player.inner.status.playback_clock = PlaybackClock::paused_at(Duration::from_secs(11));
    player.play().unwrap();
    let play_sequence = match receiver.try_recv().expect("play command") {
        PlaybackCommand::Play { sequence, .. } => sequence,
        _ => panic!("expected play command"),
    };

    player.stop(now()).unwrap();
    let stop_sequence = match receiver.try_recv().expect("stop command") {
        PlaybackCommand::Stop { sequence, .. } => sequence,
        _ => panic!("expected stop command"),
    };
    assert!(stop_sequence > play_sequence);
    assert!(!player.inner.commit_playback_command_intent(
        play_sequence,
        None,
        Some(Duration::zero()),
        Some(PlayerState::Playing),
        now(),
    ));
    assert_eq!(player.state(), PlayerState::Stopped);
    assert_eq!(player.current_media_time(now()), Duration::zero());
}

#[test]
fn player_play_returns_after_queueing_without_false_playing_state() {
    let mut player = player();
    let receiver = install_test_runtime(&mut player, 2);
    player.inner.status.state = PlayerState::Stopped;
    player.play().unwrap();

    let sequence = match receiver.try_recv().unwrap() {
        PlaybackCommand::Play { sequence, .. } => sequence,
        _ => panic!("expected play command"),
    };
    assert_eq!(player.state(), PlayerState::Stopped);

    assert!(player.inner.commit_playback_command_intent(
        sequence,
        Some(1),
        None,
        Some(PlayerState::Playing),
        now(),
    ));
    assert_eq!(player.state(), PlayerState::Playing);
}

#[test]
fn player_stop_after_error_then_failed_restart_does_not_false_publish_playing() {
    let mut player = player();
    let receiver = install_test_runtime(&mut player, 2);
    player.inner.status.state = PlayerState::Error;
    player.inner.status.playback_clock = PlaybackClock::paused_at(Duration::from_secs(7));

    player.stop(now()).unwrap();
    assert!(matches!(
        receiver.try_recv().unwrap(),
        PlaybackCommand::Stop { .. }
    ));
    assert_eq!(player.state(), PlayerState::Stopped);
    assert_eq!(player.current_media_time(now()), Duration::zero());

    player.play().unwrap();

    match receiver.try_recv().unwrap() {
        PlaybackCommand::Play { .. } => {}
        _ => panic!("expected play command"),
    }
    let message = "video decoder unavailable: all fallback routes failed".to_string();
    player.inner.set_state(PlayerState::Error);
    player
        .inner
        .emit(PlayerEvent::Error(PlayerError::Playback(message)));
    player.inner.deliver();

    assert_eq!(player.state(), PlayerState::Error);
    assert_ne!(player.state(), PlayerState::Playing);
    assert_eq!(player.current_media_time(now()), Duration::zero());
}

#[test]
fn player_play_pause_emits_state_events_after_ready() {
    let mut player = player();
    let events = player.subscribe();

    player.inner.set_state(PlayerState::Ready);
    player.inner.deliver();
    assert!(matches!(
        player.play().unwrap_err(),
        PlayerError::Playback(_)
    ));

    assert_eq!(
        events.try_recv().unwrap(),
        PlayerEvent::StateChanged(PlayerState::Ready)
    );
}

#[test]
fn pause_waits_for_worker_position_before_paused_state() {
    let mut player = player();
    let events = player.subscribe();
    let commands = install_test_runtime(&mut player, 1);
    let anchor = now().now;
    player.inner.status.state = PlayerState::Playing;
    player.inner.status.playback_clock = PlaybackClock::running_at(Duration::from_secs(10), anchor);

    player.pause().unwrap();

    let sequence = match commands.try_recv().unwrap() {
        PlaybackCommand::Pause { sequence } => sequence,
        _ => panic!("expected pause command"),
    };
    assert_eq!(player.state(), PlayerState::Playing);
    assert!(events.try_recv().is_err());

    let position = Duration::from_millis(9_250);
    assert!(player.inner.commit_playback_command_intent(
        sequence,
        None,
        Some(position),
        Some(PlayerState::Paused),
        now(),
    ));
    player.inner.deliver();
    assert_eq!(
        events.try_recv().unwrap(),
        PlayerEvent::PositionChanged(position)
    );
    assert_eq!(
        events.try_recv().unwrap(),
        PlayerEvent::StateChanged(PlayerState::Paused)
    );
    assert_eq!(player.current_media_time(now()), position);
    assert_eq!(player.state(), PlayerState::Paused);
    let snapshot = player.playback_snapshot();
    assert_eq!(snapshot.state, PlayerState::Paused);
    assert!(!snapshot.clock.is_running());
    assert!(!snapshot.is_playing());
    let later = ClockReading {
        now: Instant {
            nanos: anchor.nanos + 60_000_000_000,
        },
        advance: Duration::from_secs(60),
    };
    assert_eq!(snapshot.media_time_at(later), snapshot.media_time_at(now()));
}

#[test]
fn failed_pause_leaves_the_running_clock_unchanged() {
    let mut player = player();
    let commands = install_test_runtime(&mut player, 1);
    drop(commands);
    player.inner.status.state = PlayerState::Playing;
    player.inner.status.playback_clock =
        PlaybackClock::running_at(Duration::from_secs(10), now().now);

    assert!(matches!(player.pause(), Err(PlayerError::Playback(_))));

    let snapshot = player.playback_snapshot();
    assert_eq!(snapshot.state, PlayerState::Playing);
    assert!(snapshot.clock.is_running());
}

#[test]
fn closed_player_rejects_commands() {
    let mut player = player();
    player.begin_close();
    player.finish_close();
    assert_eq!(player.play().unwrap_err(), PlayerError::Closed);
    assert_eq!(player.pause().unwrap_err(), PlayerError::Closed);
    assert_eq!(
        player.seek(Duration::zero(), now()).unwrap_err(),
        PlayerError::Closed
    );
    assert_eq!(player.stop(now()).unwrap_err(), PlayerError::Closed);
    assert_eq!(player.begin_open().unwrap_err(), PlayerError::Closed);
    assert_eq!(player.detach_surface().unwrap_err(), PlayerError::Closed);
}

#[test]
fn states_that_do_not_play_refuse_to_pause() {
    let mut player = player();
    let _commands = install_test_runtime(&mut player, 1);
    player.inner.status.state = PlayerState::Ready;
    assert_eq!(
        player.pause().unwrap_err(),
        PlayerError::InvalidStateTransition {
            from: PlayerState::Ready,
            to: PlayerState::Paused,
        }
    );
    player.inner.status.state = PlayerState::Playing;
    assert_eq!(
        player.play().unwrap_err(),
        PlayerError::InvalidStateTransition {
            from: PlayerState::Playing,
            to: PlayerState::Playing,
        }
    );
}

#[test]
fn attach_surface_emits_event() {
    let mut player = player();
    let events = player.subscribe();
    let surface =
        PlatformSurface::Metal(MetalSurfaceHandle::new(42, 1920, 1080, 2.0f64.to_bits()));

    player.attach_surface(surface.duplicate()).unwrap();

    assert_eq!(
        events.try_recv().unwrap(),
        PlayerEvent::SurfaceAttached(surface)
    );
    player.detach_surface().unwrap();
    assert_eq!(events.try_recv().unwrap(), PlayerEvent::SurfaceDetached);
}

#[test]
fn attach_wgpu_surface_emits_event() {
    let mut player = player();
    let events = player.subscribe();
    let surface = PlatformSurface::Wgpu(WgpuSurfaceHandle::new(
        WgpuSurfaceKind::MacOsCaMetalLayer,
        42,
        0,
        1920,
        1080,
        2.0f64.to_bits(),
    ));

    player.attach_surface(surface.duplicate()).unwrap();

    assert_eq!(
        events.try_recv().unwrap(),
        PlayerEvent::SurfaceAttached(surface)
    );
}

#[test]
fn attach_flutter_texture_surface_emits_event() {
    let mut player = player();
    let events = player.subscribe();
    let surface = PlatformSurface::FlutterTexture(FlutterTextureHandle::new(
        FlutterTextureKind::MacOsTextureRegistrar,
        7,
        1280,
        720,
        2.0f64.to_bits(),
    ));

    player.attach_surface(surface.duplicate()).unwrap();

    assert_eq!(
        events.try_recv().unwrap(),
        PlayerEvent::SurfaceAttached(surface)
    );
}

#[test]
fn subscribe_subtitle_frames_replaces_previous_sender() {
    let mut player = player();
    let first = player.subscribe_subtitle_frames();
    let second = player.subscribe_subtitle_frames();

    player.inner.emit_subtitle_frame(subtitle_at(0));

    assert!(first.try_recv().is_err());
    assert!(second.try_recv().is_ok());
}

#[test]
fn a_command_is_begun_sent_and_ended_in_steps() {
    let mut player = player();
    assert!(player.begin_play().is_err());
    assert!(player.begin_relocation(Duration::zero()).is_err());
    let receiver = install_test_runtime(&mut player, 4);
    player.inner.status.state = PlayerState::Playing;
    let listener = player.subscribe();
    assert!(matches!(
        player.begin_play(),
        Err(PlayerError::InvalidStateTransition { .. })
    ));
    assert!(matches!(
        player.begin_pause(),
        Ok(PlaybackCommand::Pause { sequence: 1 })
    ));

    let relocation = player.begin_relocation(Duration::from_secs(3)).unwrap();
    assert_eq!(relocation.sequence, 2);
    let commands = player.lifecycle.commands.as_mut().unwrap();
    assert!(send_command(commands, relocation.seek_command()).is_ok());
    assert!(matches!(
        receiver.try_recv(),
        Ok(PlaybackCommand::Seek { sequence: 2, .. })
    ));
    assert!(player.end_seek(relocation, true, now()).is_ok());
    assert_eq!(
        listener.try_recv(),
        Ok(PlayerEvent::PositionChanged(Duration::from_secs(3)))
    );

    let before = player.inner.status.playback_clock;
    let relocation = player.begin_relocation(Duration::zero()).unwrap();
    drop(receiver);
    let commands = player.lifecycle.commands.as_mut().unwrap();
    let sent = send_command(commands, relocation.stop_command()).is_ok();
    assert!(!sent);
    assert_eq!(
        player.end_stop(relocation, sent, now()),
        Err(PlayerError::Playback(
            "playback worker is not running".to_string()
        ))
    );
    assert_eq!(player.inner.status.playback_clock, before);
    assert!(listener.try_recv().is_err());
}

#[test]
fn a_queue_holds_at_least_one_message() {
    let config = PlayerConfig {
        event_channel_capacity: 0,
        video_frame_queue_capacity: 0,
        audio_frame_queue_capacity: 5,
        ..PlayerConfig::default()
    };
    let mut player = Player::new(config, PlayerId::of_counter(1));
    assert_eq!(player.command_channel().0.sender().capacity(), Some(1));
    assert_eq!(player.subscribe_video_frames().capacity(), Some(1));
    assert_eq!(player.subscribe_audio_frames().capacity(), Some(5));
    assert_eq!(
        player.subscribe_subtitle_frames().capacity(),
        Some(SUBTITLE_FRAME_HANDOFF_MIN_CAPACITY)
    );
    assert_eq!(player.subscribe().capacity(), None);
}

#[test]
fn a_full_audio_queue_applies_backpressure() {
    let config = PlayerConfig {
        audio_frame_queue_capacity: 1,
        ..PlayerConfig::default()
    };
    let mut player = Player::new(config, PlayerId::of_counter(1));
    let _frames = player.subscribe_audio_frames();
    assert!(matches!(
        player.inner.try_emit_audio_frame(test_audio_frame(1)),
        AudioFrameEmitResult::Sent
    ));
    match player.inner.try_emit_audio_frame(test_audio_frame(2)) {
        AudioFrameEmitResult::Full(frame) => {
            assert_eq!(frame, test_audio_frame(2).frame);
        }
        _ => panic!("a full audio queue must apply backpressure"),
    }
    assert!(player.inner.audio_frame_output_is_active());
}

#[test]
fn disconnected_audio_frame_queue_is_removed_without_blocking() {
    let mut player = player();
    let frames = player.subscribe_audio_frames();
    drop(frames);

    assert!(!matches!(
        player.inner.try_emit_audio_frame(test_audio_frame(1)),
        AudioFrameEmitResult::Sent
    ));
    assert!(player.inner.audio_frame_sender.is_none());
}

#[test]
fn disconnected_full_audio_queue_is_detected_without_a_preflight_full_check() {
    let config = PlayerConfig {
        audio_frame_queue_capacity: 1,
        ..PlayerConfig::default()
    };
    let mut player = Player::new(config, PlayerId::of_counter(1));
    let frames = player.subscribe_audio_frames();
    assert!(matches!(
        player.inner.try_emit_audio_frame(test_audio_frame(1)),
        AudioFrameEmitResult::Sent
    ));
    drop(frames);

    assert!(matches!(
        player.inner.try_emit_audio_frame(test_audio_frame(2)),
        AudioFrameEmitResult::Disconnected(_)
    ));
    assert!(player.inner.audio_frame_sender.is_none());
}

#[test]
fn subtitle_event_handoff_does_not_drop_when_configured_capacity_is_exceeded() {
    let config = PlayerConfig {
        subtitle_frame_queue_capacity: 1,
        ..PlayerConfig::default()
    };
    let mut player = Player::new(config, PlayerId::of_counter(1));
    let frames = player.subscribe_subtitle_frames();

    for index in 0..64 {
        player.inner.emit_subtitle_frame(subtitle_at(index));
    }

    assert_eq!(frames.try_iter().count(), 64);
}

#[test]
fn subtitle_event_handoff_bounds_a_stalled_subscriber() {
    let config = PlayerConfig {
        subtitle_frame_queue_capacity: 1,
        ..PlayerConfig::default()
    };
    let mut player = Player::new(config, PlayerId::of_counter(1));
    let frames = player.subscribe_subtitle_frames();

    for index in 0..=SUBTITLE_FRAME_HANDOFF_MIN_CAPACITY {
        player.inner.emit_subtitle_frame(subtitle_at(index as u64));
    }

    assert_eq!(
        frames.try_iter().count(),
        SUBTITLE_FRAME_HANDOFF_MIN_CAPACITY
    );
    assert_eq!(player.inner.status.subtitle_frame_backpressure_drops, 1);
}

#[test]
fn player_track_cache_defaults_to_empty_selection() {
    let player = player();

    assert!(player.tracks().is_empty());
    assert_eq!(player.track_selection(), TrackSelection::default());
}

#[test]
fn stopped_play_from_eof_publishes_rewind_before_playing() {
    let mut player = player();
    let events = player.subscribe();
    let commands = install_fake_playback(
        &mut player,
        PlayerState::Stopped,
        Duration::from_secs(8),
        7,
        true,
    );

    let (_, command_generation) = play_with_test_commit(&mut player, &commands, true);

    assert_eq!(command_generation, 7);
    assert_eq!(player.current_media_time(now()), Duration::zero());
    assert_eq!(player.playback_generation(), 8);
    assert_eq!(player.state(), PlayerState::Playing);
    assert!(!player.is_ended());
    assert_eq!(
        events.try_iter().collect::<Vec<_>>(),
        vec![
            PlayerEvent::PositionChanged(Duration::zero()),
            PlayerEvent::StateChanged(PlayerState::Playing),
        ]
    );
}

#[test]
fn stopped_play_at_zero_does_not_publish_another_generation() {
    let mut player = player();
    let events = player.subscribe();
    let commands = install_fake_playback(
        &mut player,
        PlayerState::Stopped,
        Duration::zero(),
        7,
        false,
    );

    let (_, command_generation) = play_with_test_commit(&mut player, &commands, false);

    assert_eq!(command_generation, 7);
    assert_eq!(player.current_media_time(now()), Duration::zero());
    assert_eq!(player.playback_generation(), 7);
    assert!(!player.is_ended());
    assert_eq!(
        events.try_iter().collect::<Vec<_>>(),
        vec![PlayerEvent::StateChanged(PlayerState::Playing)]
    );
}

#[test]
fn failed_eof_play_rolls_back_prepublished_clock_and_generation() {
    let mut player = player();
    let events = player.subscribe();
    install_disconnected_playback(
        &mut player,
        PlayerState::Stopped,
        Duration::from_secs(8),
        7,
        true,
    );

    assert!(matches!(player.play(), Err(PlayerError::Playback(_))));

    assert_eq!(player.current_media_time(now()), Duration::from_secs(8));
    assert_eq!(player.playback_generation(), 7);
    assert_eq!(player.state(), PlayerState::Stopped);
    assert!(player.is_ended());
    assert!(player.is_stopped_at_end());
    assert!(events.try_recv().is_err());
}

#[test]
fn seek_from_eof_then_play_preserves_nonzero_target_and_single_generation() {
    let mut player = player();
    let events = player.subscribe();
    let commands = install_fake_playback(
        &mut player,
        PlayerState::Stopped,
        Duration::from_secs(8),
        7,
        true,
    );
    let target = Duration::from_millis(3_250);

    player.seek(target, now()).unwrap();

    assert!(matches!(
        commands.try_recv(),
        Ok(PlaybackCommand::Seek { position, .. }) if position == target
    ));
    let (_, command_generation) = play_with_test_commit(&mut player, &commands, false);
    assert_eq!(command_generation, 8);
    assert_eq!(player.current_media_time(now()), target);
    assert_eq!(player.playback_generation(), 8);
    assert_eq!(player.state(), PlayerState::Playing);
    assert!(!player.is_ended());
    assert_eq!(
        events.try_iter().collect::<Vec<_>>(),
        vec![
            PlayerEvent::PositionChanged(target),
            PlayerEvent::StateChanged(PlayerState::Playing),
        ]
    );
}

#[test]
fn failed_seek_from_eof_restores_ended_marker() {
    let mut player = player();
    install_disconnected_playback(
        &mut player,
        PlayerState::Stopped,
        Duration::from_secs(8),
        7,
        true,
    );

    assert!(matches!(
        player.seek(Duration::from_millis(3_250), now()),
        Err(PlayerError::Playback(_))
    ));

    assert_eq!(player.current_media_time(now()), Duration::from_secs(8));
    assert_eq!(player.playback_generation(), 7);
    assert_eq!(player.state(), PlayerState::Stopped);
    assert!(player.is_ended());
}

#[test]
fn stop_publishes_zero_before_stopped() {
    let mut player = player();
    let events = player.subscribe();
    let commands = install_fake_playback(
        &mut player,
        PlayerState::Playing,
        Duration::from_secs(3),
        11,
        false,
    );

    player.stop(now()).unwrap();

    assert!(matches!(
        commands.try_recv(),
        Ok(PlaybackCommand::Stop { .. })
    ));
    assert_eq!(player.current_media_time(now()), Duration::zero());
    assert_eq!(player.playback_generation(), 12);
    assert_eq!(player.state(), PlayerState::Stopped);
    assert!(!player.is_ended());
    assert_eq!(
        events.try_iter().collect::<Vec<_>>(),
        vec![
            PlayerEvent::PositionChanged(Duration::zero()),
            PlayerEvent::StateChanged(PlayerState::Stopped),
        ]
    );
}

#[test]
fn failed_stop_rolls_back_prepublished_clock_and_generation() {
    let mut player = player();
    let events = player.subscribe();
    install_disconnected_playback(
        &mut player,
        PlayerState::Playing,
        Duration::from_secs(3),
        11,
        false,
    );

    assert!(matches!(player.stop(now()), Err(PlayerError::Playback(_))));

    assert_eq!(player.current_media_time(now()), Duration::from_secs(3));
    assert_eq!(player.playback_generation(), 11);
    assert_eq!(player.state(), PlayerState::Playing);
    assert!(!player.is_ended());
    assert!(events.try_recv().is_err());
}

#[test]
fn natural_eof_worker_events_are_ordered_once_without_generation_change() {
    let mut player = player();
    let events = player.subscribe();
    player.inner.status.state = PlayerState::Playing;
    player.inner.status.playback_clock = PlaybackClock::paused_at(Duration::from_millis(7_967));
    player.inner.status.playback_generation = 13;
    let mut eof_published = false;

    player
        .inner
        .publish_natural_eof_events(13, Duration::from_secs(8), &mut eof_published);
    player
        .inner
        .publish_natural_eof_events(13, Duration::from_secs(8), &mut eof_published);
    player.inner.deliver();

    assert!(eof_published);
    assert_eq!(player.current_media_time(now()), Duration::from_secs(8));
    assert_eq!(player.playback_generation(), 13);
    assert_eq!(player.state(), PlayerState::Stopped);
    assert!(player.is_ended());
    assert_eq!(
        events.try_iter().collect::<Vec<_>>(),
        vec![
            PlayerEvent::PositionChanged(Duration::from_secs(8)),
            PlayerEvent::StateChanged(PlayerState::Stopped),
        ]
    );
}

#[test]
fn ended_play_clears_stale_audio_snapshot_before_restart() {
    let mut worker = PlaybackWorker::new(1, now().now);
    worker.audio = AudioFeed {
        snapshot: Some(AudioClockSnapshot {
            media_time: Some(Duration::from_secs(8)),
            queued_duration: Some(Duration::from_millis(100)),
            queued_frames: 4_800,
            read_frames: 48_000,
            written_frames: 52_800,
            underflow_frames: 0,
        }),
        observed_at: Some(now().now),
    };
    let command = PlaybackCommand::Play {
        sequence: 1,
        generation: 1,
    };

    worker.observe_audio_pump_command(PlaybackRunState::Ended, &command, now().now);

    assert!(worker.audio.snapshot.is_none());
    assert!(worker.audio.observed_at.is_none());
}

#[test]
fn buffering_audio_starvation_requires_empty_queue_and_underflow_progress() {
    let healthy = AudioClockSnapshot {
        media_time: Some(Duration::from_secs(5)),
        queued_duration: Some(Duration::from_millis(100)),
        queued_frames: 4_800,
        read_frames: 48_000,
        written_frames: 52_800,
        underflow_frames: 10,
    };
    assert!(!audio_snapshot_is_starved(healthy, Some(9), false));

    let empty = AudioClockSnapshot {
        queued_duration: Some(Duration::zero()),
        queued_frames: 0,
        underflow_frames: 11,
        ..healthy
    };
    assert!(audio_snapshot_is_starved(empty, Some(10), false));
    assert!(!audio_snapshot_is_starved(empty, Some(11), false));
    assert!(audio_snapshot_is_starved(empty, Some(11), true));
}

#[test]
fn buffering_audio_recovery_requires_low_water_mark() {
    let snapshot = |queued_duration, queued_frames| AudioClockSnapshot {
        media_time: Some(Duration::from_secs(7)),
        queued_duration: Some(queued_duration),
        queued_frames,
        read_frames: 48_000,
        written_frames: 60_000,
        underflow_frames: 0,
    };

    assert_eq!(
        audio_snapshot_recovery_reference(snapshot(Duration::from_millis(249), 11_952)),
        None
    );
    assert_eq!(
        audio_snapshot_recovery_reference(snapshot(Duration::from_millis(250), 12_000)),
        Some(Duration::from_secs(7))
    );
}

#[test]
fn worker_clock_waits_for_prepublished_generation() {
    assert!(worker_clock_generation_is_stale(8, 7));
    assert!(!worker_clock_generation_is_stale(8, 8));
    assert!(!worker_clock_generation_is_stale(7, 8));
}

#[test]
fn player_rapid_seeks_enqueue_fifo_and_publish_latest_target() {
    let mut player = player();
    let events = player.subscribe();
    let receiver = install_test_runtime(&mut player, 3);
    player.inner.status.state = PlayerState::Playing;
    let before_generation = player.playback_generation();
    let targets = [
        Duration::from_secs(1),
        Duration::from_secs(4),
        Duration::from_secs(2),
    ];

    for target in targets {
        player.seek(target, now()).unwrap();
    }

    let queued_targets = receiver
        .try_iter()
        .map(|command| match command {
            PlaybackCommand::Seek { position, .. } => position,
            _ => panic!("unexpected playback command"),
        })
        .collect::<Vec<_>>();
    let published_targets = events
        .try_iter()
        .map(|event| match event {
            PlayerEvent::PositionChanged(position) => position,
            _ => panic!("unexpected player event"),
        })
        .collect::<Vec<_>>();

    assert_eq!(queued_targets, targets);
    assert_eq!(published_targets, targets);
    assert_eq!(player.current_media_time(now()), targets[2]);
    assert_eq!(
        player.playback_generation(),
        before_generation + targets.len() as u64
    );
    assert_eq!(player.state(), PlayerState::Playing);
}

#[test]
fn player_seek_updates_shared_media_time_and_generation_immediately_when_ready() {
    let mut player = player();
    let receiver = install_test_runtime(&mut player, 1);
    player.inner.status.state = PlayerState::Ready;
    let before_generation = player.playback_generation();

    player.seek(Duration::from_secs(12), now()).unwrap();

    assert!(matches!(
        receiver.try_recv(),
        Ok(PlaybackCommand::Seek {
            position,
            resume_after_seek: false,
            ..
        }) if position == Duration::from_secs(12)
    ));
    assert_eq!(player.current_media_time(now()), Duration::from_secs(12));
    assert_eq!(player.playback_generation(), before_generation + 1);
    assert_eq!(player.state(), PlayerState::Ready);
}

#[test]
fn player_seek_while_paused_preserves_paused_state() {
    let mut player = player();
    let events = player.subscribe();
    let receiver = install_test_runtime(&mut player, 1);
    player.inner.status.state = PlayerState::Paused;
    player.inner.status.playback_clock = PlaybackClock::paused_at(Duration::from_secs(8));
    let target = Duration::from_secs(23);

    player.seek(target, now()).unwrap();

    assert!(matches!(
        receiver.try_recv(),
        Ok(PlaybackCommand::Seek {
            position,
            resume_after_seek: false,
            ..
        }) if position == target
    ));
    assert_eq!(player.current_media_time(now()), target);
    assert_eq!(player.state(), PlayerState::Paused);
    assert_eq!(events.try_recv(), Ok(PlayerEvent::PositionChanged(target)));
    assert!(events.try_recv().is_err());
}

#[test]
fn failed_seek_does_not_leave_clock_generation_half_updated() {
    let mut player = player();
    let receiver = install_test_runtime(&mut player, 1);
    drop(receiver);
    player.inner.status.state = PlayerState::Ready;
    let before_generation = player.playback_generation();

    assert!(player.seek(Duration::from_secs(12), now()).is_err());

    assert_eq!(player.current_media_time(now()), Duration::zero());
    assert_eq!(player.playback_generation(), before_generation);
}

#[test]
fn player_open_missing_media_reports_playback_error() {
    let mut player = player();
    let events = player.subscribe();

    let epoch = player.begin_open().unwrap();
    player.announce_opening();
    let error = player.fail_open(epoch, "ffmpeg error: no such file".to_string());

    assert!(matches!(error, PlayerError::Playback(_)));
    assert_eq!(
        events.try_recv().unwrap(),
        PlayerEvent::StateChanged(PlayerState::Opening)
    );
    assert_eq!(
        events.try_recv().unwrap(),
        PlayerEvent::StateChanged(PlayerState::Error)
    );
    assert!(matches!(
        events.try_recv().unwrap(),
        PlayerEvent::Error(PlayerError::Playback(_))
    ));
}

fn opened_info() -> OpenedMediaInfo {
    OpenedMediaInfo {
        uri: "movie.mkv".to_string(),
        duration: Some(Duration::from_secs(8)),
        tracks: vec![
            TrackInfo::embedded(0, TrackKind::Video),
            TrackInfo::embedded(1, TrackKind::Audio),
        ],
        video_params: Some(VideoParams {
            width: 640,
            height: 480,
            primaries: ColorPrimaries::Bt709,
            transfer: TransferFunction::Bt1886,
        }),
        selected_video_track: Some(0),
        selected_audio_track: Some(1),
        selected_subtitle_track: None,
        subtitle_tracks: Vec::new(),
        video_decode_backend: Some(DecoderBackend::Software),
        audio_output: None,
    }
}

fn decoder_event() -> VideoDecoderEvent {
    VideoDecoderEvent {
        stage: "open".to_string(),
        requested_backend: DecoderBackend::Software,
        previous_backend: None,
        active_backend: DecoderBackend::Software,
        fallback_count: 0,
        codec: Some("h264".to_string()),
        pixel_format: None,
        line_sizes: None,
        reason: None,
    }
}

#[test]
fn opening_a_medium_tells_the_listeners_in_order() {
    let mut player = player();
    let events = player.subscribe();
    let info = opened_info();
    let epoch = player.begin_open().unwrap();
    player.announce_opening();
    let (commands, _worker) = player.command_channel();
    let before = player.playback_generation();
    let generation = player
        .adopt_media(epoch, MediaRequest::new("movie.mkv"), &info, commands)
        .unwrap();
    assert_eq!(generation, before + 1);
    player.announce_media(&info, vec![decoder_event()]);
    player.inner.deliver();

    assert_eq!(
        events.try_iter().collect::<Vec<_>>(),
        vec![
            PlayerEvent::StateChanged(PlayerState::Opening),
            PlayerEvent::DurationChanged(Some(Duration::from_secs(8))),
            PlayerEvent::TracksChanged(info.tracks.clone()),
            PlayerEvent::TrackSelectionChanged(info.track_selection()),
            PlayerEvent::VideoParamsChanged(info.video_params.unwrap()),
            PlayerEvent::VideoDecoderChanged(decoder_event()),
            PlayerEvent::StateChanged(PlayerState::Ready),
        ]
    );
    assert_eq!(player.state(), PlayerState::Ready);
    assert_eq!(player.duration(), Some(Duration::from_secs(8)));
    assert_eq!(player.tracks(), info.tracks);
}

#[test]
fn the_timeline_grows_across_reopening() {
    let mut player = player();
    let info = opened_info();
    let mut last = player.playback_generation();
    for _ in 0..3 {
        let epoch = player.begin_open().unwrap();
        let (commands, _worker) = player.command_channel();
        player
            .adopt_media(epoch, MediaRequest::new("movie.mkv"), &info, commands)
            .unwrap();
        assert!(player.playback_generation() > last);
        last = player.playback_generation();
    }
}

#[test]
fn an_overtaken_opening_is_refused() {
    let mut player = player();
    let info = opened_info();
    let first = player.begin_open().unwrap();
    let second = player.begin_open().unwrap();
    assert!(second > first);
    let (commands, _worker) = player.command_channel();
    let error = player
        .adopt_media(first, MediaRequest::new("movie.mkv"), &info, commands)
        .unwrap_err();
    assert_eq!(
        error,
        PlayerError::Playback(
            "media open was superseded by a newer lifecycle operation".to_string()
        )
    );
    player.begin_close();
    player.finish_close();
    assert_eq!(
        player.fail_open(second, "late".to_string()),
        PlayerError::Closed
    );
}

#[test]
fn closing_forgets_the_medium() {
    let mut player = player();
    let events = player.subscribe();
    let info = opened_info();
    let epoch = player.begin_open().unwrap();
    let (commands, worker) = player.command_channel();
    player
        .adopt_media(epoch, MediaRequest::new("movie.mkv"), &info, commands)
        .unwrap();
    player.begin_close();
    assert!(worker.recv().is_err());
    player.finish_close();
    assert_eq!(player.state(), PlayerState::Closed);
    assert!(player.tracks().is_empty());
    assert_eq!(player.duration(), None);
    assert_eq!(
        events.try_iter().collect::<Vec<_>>(),
        vec![PlayerEvent::StateChanged(PlayerState::Closed)]
    );
}

#[test]
fn listeners_that_are_gone_are_let_go() {
    let mut player = player();
    let first = player.subscribe();
    let second = player.subscribe();
    drop(first);
    let event = AudioOutputEvent {
        stats: AudioOutputRuntimeStats {
            recovery_state: "running".to_string(),
            last_error_code: 0,
            recovery_attempts: 0,
            recovery_count: 0,
            recovery_failures: 0,
            transition_sequence: 1,
        },
    };
    player.report_audio_output_event(event.clone());
    assert_eq!(player.inner.subscribers.len(), 1);
    assert_eq!(
        second.try_recv().unwrap(),
        PlayerEvent::AudioOutputChanged(event)
    );
}

#[test]
fn tracks_are_told_of_where_they_changed() {
    let mut player = player();
    let info = opened_info();
    player
        .inner
        .sync_track_state(&info.tracks, info.track_selection());
    assert_eq!(player.inner.outbox.len(), 2);
    player
        .inner
        .sync_track_state(&info.tracks, info.track_selection());
    assert_eq!(player.inner.outbox.len(), 2);
    let mut titled = info.tracks.clone();
    titled[1].title = Some("Commentary".to_string());
    player
        .inner
        .sync_track_state(&titled, info.track_selection());
    assert_eq!(player.inner.outbox.len(), 3);
    assert_eq!(player.inner.outbox[2], PlayerEvent::TracksChanged(titled));
}

#[test]
fn commands_without_an_answer_reach_the_worker() {
    let mut player = player();
    let receiver = install_test_runtime(&mut player, 8);
    player.set_playback_rate(1.5f64.to_bits()).unwrap();
    player.remove_subtitle_track(7).unwrap();
    player.select_audio_track(Some(2)).unwrap();
    player.select_subtitle_track(None).unwrap();
    let failure = VideoFrameImportFailure {
        decode_backend: DecoderBackend::Software,
        mediacodec_surface: false,
        codec: None,
        pixel_format: None,
        line_sizes: [0; 4],
        width: 0,
        height: 0,
        generation: 1,
        reason: "r".to_string(),
    };
    player
        .report_video_frame_import_failure(failure.clone())
        .unwrap();
    let snapshot = AudioClockSnapshot {
        media_time: None,
        queued_duration: None,
        queued_frames: 3,
        read_frames: 0,
        written_frames: 0,
        underflow_frames: 0,
    };
    player.update_audio_clock(snapshot).unwrap();
    assert!(
        matches!(receiver.try_recv(), Ok(PlaybackCommand::SetPlaybackRate(bits)) if bits == 1.5f64.to_bits())
    );
    assert!(matches!(
        receiver.try_recv(),
        Ok(PlaybackCommand::RemoveSubtitleTrack(7))
    ));
    assert!(matches!(
        receiver.try_recv(),
        Ok(PlaybackCommand::SelectAudioTrack(Some(2)))
    ));
    assert!(matches!(
        receiver.try_recv(),
        Ok(PlaybackCommand::SelectSubtitleTrack(None))
    ));
    assert!(
        matches!(receiver.try_recv(), Ok(PlaybackCommand::VideoFrameImportFailed(sent)) if sent == failure)
    );
    assert!(
        matches!(receiver.try_recv(), Ok(PlaybackCommand::AudioClock(sent)) if sent == snapshot)
    );
}

#[test]
fn a_busy_worker_misses_the_audio_clock() {
    let mut player = player();
    let receiver = install_test_runtime(&mut player, 1);
    let snapshot = AudioClockSnapshot {
        media_time: None,
        queued_duration: None,
        queued_frames: 0,
        read_frames: 0,
        written_frames: 0,
        underflow_frames: 0,
    };
    assert!(player.update_audio_clock(snapshot).is_ok());
    assert!(player.update_audio_clock(snapshot).is_ok());
    assert_eq!(receiver.try_iter().count(), 1);
    drop(receiver);
    assert_eq!(
        player.update_audio_clock(snapshot),
        Err(PlayerError::Playback(
            "playback worker is not running".to_string()
        ))
    );
}

#[test]
fn subtitle_files_are_added_by_the_worker() {
    let mut player = player();
    let receiver = install_test_runtime(&mut player, 1);
    let id = next_external_subtitle_track_id(7);
    assert_eq!(id, 1_000_007);
    assert_eq!(next_external_subtitle_track_id(u64::MAX), i64::MAX);
    let response = player
        .add_external_subtitle("/tmp/a.srt".to_string(), id)
        .unwrap();
    match receiver.try_recv().unwrap() {
        PlaybackCommand::AddExternalSubtitle { config, mut reply } => {
            assert_eq!(
                config,
                SubtitleTrackConfig::external(1_000_007, "/tmp/a.srt".to_string())
            );
            assert!(reply.give(Ok(config)));
        }
        _ => panic!("unexpected playback command"),
    }
    let track = subtitle_reply(response.try_recv().ok()).unwrap();
    assert_eq!(track.id, 1_000_007);
    assert_eq!(
        subtitle_reply(Some(Err("bad file".to_string()))),
        Err(PlayerError::Playback("bad file".to_string()))
    );
    assert_eq!(
        subtitle_reply(None),
        Err(PlayerError::Playback(
            "playback worker stopped before opening the external subtitle".to_string()
        ))
    );
}

#[test]
fn a_stuck_audio_receiver_is_reported_after_ten_seconds() {
    let mut state = AudioOutputBackpressureState::default();
    let at = |nanos| Instant { nanos };
    assert_eq!(state.observe(at(1)), None);
    assert_eq!(
        state.observe(at(AUDIO_OUTPUT_BACKPRESSURE_TIMEOUT_NANOS)),
        None
    );
    let report = state
        .observe(at(AUDIO_OUTPUT_BACKPRESSURE_TIMEOUT_NANOS + 1))
        .unwrap();
    assert_eq!(report.polls, 3);
    assert_eq!(report.stalled_for, Duration::from_secs(10));
    state.reset();
    assert_eq!(state, AudioOutputBackpressureState::default());
}

#[test]
fn player_numbers_are_never_zero() {
    assert_eq!(PlayerId::of_counter(0).get(), 1);
    assert_eq!(PlayerId::of_counter(7).get(), 7);
    let player = Player::new(PlayerConfig::default(), PlayerId::of_counter(9));
    assert_eq!(player.id().get(), 9);
    assert_eq!(player.config().name, "Erika");
}
