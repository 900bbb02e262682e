//! The engine on a made-up medium: eight seconds of thirty pictures and fifty runs of audio each.
//! Its first audio track is a tone of 880 Hz, its second one of 1320 Hz.
use crossbeam_channel::{Receiver, Sender};
use erika::audio::{AudioClockSnapshot, AudioPath, AudioRoute};
use erika::buffering::{update_buffering, AudioFeed, PlaybackBufferingTracker};
use erika::clock::{ClockReading, PlaybackClockSnapshot, PlaybackClockSource};
use erika::control::{finish_replacement, DueStep};
use erika::decoder::{Decoder, DecoderBackend, Platform};
use erika::demux::{AsyncDemuxer, DemuxCommand, DemuxMessage};
use erika::engine::{
    FetchStep, Presentation, TickStep, TickTask, TimedAudioFrame, TimedVideoFrame,
    VideoPlaybackEngine,
};
use erika::error::FfmpegError;
use erika::events::{PlayerEvent, VideoFrameImportFailure};
use erika::external::SubtitlePath;
use erika::frame::{Frame, PixelFormat, Plane};
use erika::media::{PlayerError, PlayerState, TrackInfo, TrackKind};
use erika::packet::TimeBase;
use erika::pcm::{PcmAudioFrame, PcmFormat};
use erika::playback::{
    OpenedMediaInfo, PlaybackError, PlaybackQueueLimits, PlaybackRunState,
    AUDIO_EOF_OUTPUT_STALL_TIMEOUT_NANOS,
};
use erika::player::{PlaybackCommand, Player, PlayerConfig, PlayerId};
use erika::session::{EofDrain, PlaybackSession};
use erika::shared::PlayerInner;
use erika::subtitle::{DecodedSubtitleFrame, SubtitleTrackConfig};
use erika::time::{Duration, Instant};
use erika::video::{DecodedVideoFrame, StallWatch, VideoPath, VideoRoute};
use erika::worker::{
    fail_playback, playback_poll_interval, CommandStep, PlaybackWorker, PositionMark, PumpNext,
};
use std::collections::VecDeque;

fn decoder(stream_index: i32, backend: DecoderBackend) -> Decoder {
    Decoder {
        stream_index,
        time_base: TimeBase {
            num: 1,
            den: 1_000_000,
        },
        backend,
        mediacodec_surface: false,
        avcodec_surface: false,
        eof_sent: false,
        end_of_stream: false,
    }
}

fn picture(index: u64) -> DecodedVideoFrame {
    let micros = (index * 1_000_000 + 15) / 30;
    let empty = || Plane {
        stride: 0,
        bytes: None,
    };
    DecodedVideoFrame {
        frame: Frame {
            width: 16,
            height: 16,
            sample_rate: 0,
            channels: 0,
            samples: 0,
            sample_format: None,
            format: PixelFormat::Yuv420p,
            format_name: Some("yuv420p".to_string()),
            planes: [empty(), empty(), empty(), empty()],
            handles: [0; 4],
            has_hw_frames_context: false,
            pts: micros as i64,
            time_base: TimeBase {
                num: 1,
                den: 1_000_000,
            },
            pts_magnitude: Duration::from_micros(micros),
            color_primaries: 0,
            color_transfer: 0,
            color_range: 0,
            color_matrix: 0,
        },
        decode_backend: DecoderBackend::Software,
    }
}

const SAMPLE_RATE: u64 = 48_000;

fn sound(track: i64, index: u64) -> PcmAudioFrame {
    let tone = if track == 2 { 1_320.0 } else { 880.0 };
    let sample = |at: u64| {
        let seconds = at as f64 / SAMPLE_RATE as f64;
        ((seconds * tone * std::f64::consts::TAU).sin() as f32).to_bits()
    };
    PcmAudioFrame {
        format: PcmFormat::f32_interleaved(SAMPLE_RATE as u32, 1),
        pts: Some(Duration::from_millis(index * 20)),
        frames: 960,
        samples: (index * 960..(index + 1) * 960).map(sample).collect(),
    }
}

fn positive_zero_crossing_indices(frame: &PcmAudioFrame) -> Vec<usize> {
    let channels = frame.format.channels as usize;
    assert!(channels > 0);
    let mut samples = frame
        .samples
        .chunks_exact(channels)
        .map(|samples| f32::from_bits(samples[0]));
    let Some(mut previous) = samples.next() else {
        return Vec::new();
    };
    let mut crossings = Vec::new();
    for (index, sample) in samples.enumerate() {
        if previous <= 0.0 && sample > 0.0 {
            crossings.push(index + 1);
        }
        previous = sample;
    }
    crossings
}

fn estimated_frequency_hz(frame: &PcmAudioFrame) -> f64 {
    let crossings = positive_zero_crossing_indices(frame);
    assert!(crossings.len() >= 2);
    let crossing_span = crossings.last().unwrap() - crossings.first().unwrap();
    (crossings.len() - 1) as f64 * frame.format.sample_rate as f64 / crossing_span as f64
}

fn duration_difference(left: Duration, right: Duration) -> Duration {
    if left.nanos >= right.nanos {
        left.saturating_sub(right)
    } else {
        right.saturating_sub(left)
    }
}

/// An engine, and how far its medium has been decoded.
struct Fixture {
    engine: VideoPlaybackEngine,
    video_at: u64,
    audio_at: u64,
    _packets: Sender<DemuxMessage>,
    _commands: Receiver<DemuxCommand>,
}

const PICTURES: u64 = 240;
const SOUNDS: u64 = 400;

fn playback_fixture_engine() -> Fixture {
    let (demuxer, outlet, commands) = AsyncDemuxer::new();
    let packets = outlet.sender().clone();
    drop(outlet);
    let session = PlaybackSession {
        demuxer,
        codec_parameters: Vec::new(),
        video: VideoPath {
            route: VideoRoute {
                decoder: Some(decoder(0, DecoderBackend::Software)),
                suspended: false,
                waiting_for_keyframe: false,
                surface_disabled: false,
                fallbacks: 0,
                stall: StallWatch {
                    polls: 0,
                    logged: false,
                    started_at: None,
                },
            },
            unavailable_reason: None,
            events: VecDeque::new(),
            frames: VecDeque::new(),
            pending: VecDeque::new(),
        },
        audio: AudioPath {
            route: AudioRoute {
                decoder: Some(decoder(1, DecoderBackend::Software)),
                resampler: None,
                output: PcmFormat::default(),
                output_active: true,
                waiting_for_valid_packet: false,
                dropped_packets: 0,
            },
            frames: VecDeque::new(),
        },
        subtitles: SubtitlePath {
            decoder: None,
            fonts: Vec::new(),
            external: Vec::new(),
            frames: VecDeque::new(),
        },
        info: OpenedMediaInfo {
            uri: "fixture".to_string(),
            duration: Some(Duration::from_secs(8)),
            tracks: vec![
                TrackInfo::embedded(0, TrackKind::Video),
                TrackInfo::embedded(1, TrackKind::Audio),
                TrackInfo::embedded(2, TrackKind::Audio),
            ],
            video_params: None,
            selected_video_track: Some(0),
            selected_audio_track: Some(1),
            selected_subtitle_track: None,
            subtitle_tracks: vec![SubtitleTrackConfig::embedded(3, 3)],
            video_decode_backend: Some(DecoderBackend::Software),
            audio_output: Some(PcmFormat::default()),
        },
        queue_limits: PlaybackQueueLimits::default(),
        drain: EofDrain {
            demux_eof: false,
            polls: 0,
            pending_logged: false,
            last_progress_at: None,
            eof: false,
        },
    };
    let mut engine = VideoPlaybackEngine::from_session(session);
    engine.set_audio_output_active(true);
    Fixture {
        engine,
        video_at: 0,
        audio_at: 0,
        _packets: packets,
        _commands: commands,
    }
}

fn start() -> Instant {
    Instant {
        nanos: 1_000_000_000_000,
    }
}

fn after(instant: Instant, span: Duration) -> Instant {
    Instant {
        nanos: instant.nanos + span.nanos,
    }
}

fn reading(engine: &VideoPlaybackEngine, now: Instant) -> ClockReading {
    let clock = engine.clock();
    let elapsed = clock.elapsed_at(now).nanos as f64;
    ClockReading {
        now,
        advance: Duration::from_nanos((elapsed * f64::from_bits(clock.rate())).round() as u64),
    }
}

impl Fixture {
    fn shows(&self, now: Instant) -> Duration {
        self.engine.media_time_at(reading(&self.engine, now))
    }

    fn play_at(&mut self, now: Instant) -> bool {
        match self.engine.plan_play().expect("play fixture") {
            None => false,
            Some(rewind) => {
                if rewind {
                    self.seek_with(Duration::zero(), false, now);
                }
                self.engine.start_playback(now);
                rewind
            }
        }
    }

    fn pause_at(&mut self, now: Instant) {
        let at = reading(&self.engine, now);
        self.engine.run.pause(at);
    }

    fn rewind_streams(&mut self, position: Duration) {
        self.engine.session.finish_seek(false, true);
        self.video_at = (position.as_millis() as u64 / 1_000) * 30;
        self.audio_at = position.as_millis() as u64 / 20 / 25 * 25;
    }

    fn seek_with(&mut self, position: Duration, resume: bool, now: Instant) {
        self.engine.begin_seek(position, Platform::Other).unwrap();
        self.rewind_streams(position);
        self.engine.finish_seek(position, resume, now);
    }

    fn seek_at(&mut self, position: Duration, now: Instant) {
        let resume = self.engine.state() == PlaybackRunState::Playing;
        self.seek_with(position, resume, now);
    }

    fn stop_at(&mut self, now: Instant) {
        self.engine.begin_stop(Platform::Other).unwrap();
        self.rewind_streams(Duration::zero());
        self.engine.finish_stop(now);
    }

    fn tick_at(&mut self, now: Instant) -> Option<TimedVideoFrame> {
        let mut task = self.engine.begin_tick()?;
        loop {
            if self.engine.needs_frame() {
                let frame = if self.video_at < PICTURES {
                    self.video_at += 1;
                    Some(picture(self.video_at - 1))
                } else {
                    self.engine.session.drain.eof = self.audio_at >= SOUNDS;
                    None
                };
                let at = reading(&self.engine, now);
                if let FetchStep::AudioStalled(report) = self.engine.finish_fetch(frame, at) {
                    panic!("audio stalled: {report:?}");
                }
            }
            let at = reading(&self.engine, now);
            match self.engine.tick_frame(task, Duration::zero(), at) {
                TickStep::Continue(next) => task = next,
                TickStep::Nothing => return None,
                TickStep::Due(task, presentation) => {
                    return self.engine.present(task, presentation)
                }
                TickStep::Present(frame) => return Some(frame),
            }
        }
    }

    fn tick_audio_at(&mut self, now: Instant) -> Option<TimedAudioFrame> {
        while self.engine.needs_audio() && self.audio_at < SOUNDS {
            self.audio_at += 1;
            let track = self.engine.track_selection().audio.expect("audio track");
            let frame = sound(track, self.audio_at - 1);
            let cut = match (self.engine.run.audio_seek_floor, frame.pts) {
                (Some(floor), Some(pts)) => floor.saturating_sub(pts),
                _ => Duration::zero(),
            };
            self.engine.offer_audio(frame, cut);
        }
        let at = reading(&self.engine, now);
        self.engine.take_due_audio(at)
    }

    fn select_audio_track_at(&mut self, track_id: i64, now: Instant) {
        let at = reading(&self.engine, now);
        let Some(position) = self.engine.plan_audio_track(Some(track_id), at) else {
            return;
        };
        let opened = decoder(track_id as i32, DecoderBackend::Software);
        self.engine
            .session
            .select_audio_track(Some((track_id, opened)))
            .unwrap();
        self.engine.begin_seek(position, Platform::Other).unwrap();
        self.rewind_streams(position);
        self.engine.finish_stream_reset(position, now);
    }

    fn next_av_at_target(
        &mut self,
        now: Instant,
        target: Duration,
    ) -> (TimedVideoFrame, TimedAudioFrame) {
        let video = self.next_video_at(now);
        let audio = self.next_audio_at(now);
        let video_pts = video.pts.expect("fixture video PTS");
        let audio_pts = audio.pts.expect("fixture audio PTS");

        assert!(video_pts >= target, "video preroll escaped: {video_pts:?}");
        assert!(audio_pts >= target, "audio preroll escaped: {audio_pts:?}");
        assert!(video_pts.saturating_sub(target) <= FRAME);
        assert!(audio_pts.saturating_sub(target) <= FRAME);
        assert!(duration_difference(video_pts, audio_pts) <= FRAME);
        assert_eq!(video.media_time, video_pts);
        (video, audio)
    }

    fn audio_track_ids(&self) -> Vec<i64> {
        self.engine
            .info()
            .tracks
            .iter()
            .filter(|track| track.kind == TrackKind::Audio)
            .map(|track| track.id)
            .collect()
    }

    fn next_video_at(&mut self, now: Instant) -> TimedVideoFrame {
        for _ in 0..1_000 {
            if let Some(frame) = self.tick_at(now) {
                return frame;
            }
            assert_ne!(self.engine.state(), PlaybackRunState::Ended);
        }
        panic!("no video frame came");
    }

    fn next_audio_at(&mut self, now: Instant) -> TimedAudioFrame {
        self.tick_audio_at(now).expect("an audio frame is due")
    }

    fn drive_to_eof_at(&mut self, started_at: Instant) -> (Instant, Duration) {
        let mut timing = self.engine.timing_config();
        timing.video_scheduler.drop_tolerance = Duration::from_secs(9);
        self.engine.set_timing_config(timing);
        self.play_at(started_at);
        let first = self.next_video_at(started_at);
        assert_eq!(first.pts, Some(Duration::zero()));
        let eof_at = after(started_at, Duration::from_secs(8));
        let mut last = first.pts;
        for _ in 0..2_000 {
            if self.engine.state() == PlaybackRunState::Ended {
                break;
            }
            if let Some(frame) = self.tick_at(eof_at) {
                last = frame.pts.or(last);
            }
            let _ = self.tick_audio_at(eof_at);
        }
        assert_eq!(self.engine.state(), PlaybackRunState::Ended);
        (eof_at, last.expect("last fixture video PTS"))
    }
}

const FRAME: Duration = Duration { nanos: 34_000_000 };

#[test]
fn playback_fixture_rapid_seek_emits_only_final_target_av() {
    let mut fixture = playback_fixture_engine();
    let t0 = start();
    fixture.play_at(t0);

    fixture.seek_at(
        Duration::from_millis(1_275),
        after(t0, Duration::from_millis(10)),
    );
    fixture.seek_at(
        Duration::from_millis(6_125),
        after(t0, Duration::from_millis(20)),
    );
    let target = Duration::from_millis(3_250);
    let settled_at = after(t0, Duration::from_millis(30));
    fixture.seek_at(target, settled_at);

    let video = fixture.next_video_at(settled_at);
    let audio = fixture.next_audio_at(settled_at);
    let video_pts = video.pts.expect("fixture video PTS");
    let audio_pts = audio.pts.expect("fixture audio PTS");

    assert!(video_pts >= target, "video preroll escaped: {video_pts:?}");
    assert!(audio_pts >= target, "audio preroll escaped: {audio_pts:?}");
    assert!(video_pts.saturating_sub(target) <= FRAME);
    assert!(audio_pts.saturating_sub(target) <= FRAME);
    assert!(duration_difference(video_pts, audio_pts) <= FRAME);
    assert_eq!(video.media_time, video_pts);
}

#[test]
fn playback_fixture_paused_seek_previews_target_and_keeps_clock_frozen() {
    let mut fixture = playback_fixture_engine();
    let t0 = start();
    fixture.play_at(t0);
    let _ = fixture.next_video_at(t0);

    let paused_at = after(t0, Duration::from_millis(500));
    fixture.pause_at(paused_at);
    let target = Duration::from_millis(5_125);
    fixture.seek_at(target, paused_at);

    assert_eq!(fixture.engine.state(), PlaybackRunState::Paused);
    assert_eq!(fixture.shows(paused_at), target);
    let resume_at = after(paused_at, Duration::from_secs(60));
    assert_eq!(fixture.shows(resume_at), target);
    let preview = fixture.next_video_at(resume_at);
    let preview_pts = preview.pts.expect("paused seek preview PTS");
    assert!(preview_pts >= target);
    assert!(preview_pts.saturating_sub(target) <= FRAME);
    assert_eq!(preview.media_time, target);
    assert_eq!(fixture.engine.state(), PlaybackRunState::Paused);
    assert_eq!(fixture.shows(resume_at), target);
    assert!(
        fixture.tick_at(resume_at).is_none(),
        "a paused seek must present exactly one target frame"
    );
    assert!(fixture.tick_audio_at(resume_at).is_none());

    fixture.play_at(resume_at);
    let playing_at = after(resume_at, Duration::from_millis(50));
    let video = fixture.next_video_at(playing_at);
    let audio = fixture.next_audio_at(playing_at);
    let video_pts = video.pts.expect("resumed video PTS");
    let audio_pts = audio.pts.expect("resumed audio PTS");
    assert!(video_pts >= target);
    assert!(audio_pts >= target);
    assert!(audio_pts.saturating_sub(target) <= FRAME);
}

#[test]
fn playback_fixture_seek_parks_the_clock_until_the_first_frame_is_presented() {
    let mut fixture = playback_fixture_engine();
    let t0 = start();
    fixture.play_at(t0);
    let _ = fixture.next_video_at(t0);

    let seek_at = after(t0, Duration::from_millis(500));
    let target = Duration::from_millis(5_125);
    fixture.seek_at(target, seek_at);

    for elapsed in [0u64, 20, 100, 400, 800] {
        assert_eq!(
            fixture.shows(after(seek_at, Duration::from_millis(elapsed))),
            target,
            "clock advanced during seek preroll after {elapsed} ms"
        );
    }

    let audio = fixture.next_audio_at(after(seek_at, Duration::from_millis(20)));
    let audio_pts = audio.pts.expect("post-seek audio PTS");
    assert!(audio_pts >= target);

    let resumed_at = after(seek_at, Duration::from_millis(900));
    let video = fixture.next_video_at(resumed_at);
    let video_pts = video.pts.expect("post-seek video PTS");
    assert!(video_pts >= target);
    assert!(fixture.shows(resumed_at) >= target);
    assert!(
        fixture.shows(after(resumed_at, Duration::from_millis(50))) > fixture.shows(resumed_at),
        "clock must run once the first post-seek frame is presented"
    );
}

#[test]
fn playback_fixture_pause_during_playing_seek_finishes_target_preview() {
    let mut fixture = playback_fixture_engine();
    let t0 = start();
    fixture.play_at(t0);
    let _ = fixture.next_video_at(t0);

    let seek_at = after(t0, Duration::from_millis(500));
    let target = Duration::from_millis(5_125);
    fixture.seek_at(target, seek_at);
    assert_eq!(fixture.engine.state(), PlaybackRunState::Playing);

    let paused_at = after(seek_at, Duration::from_millis(100));
    fixture.pause_at(paused_at);
    assert_eq!(fixture.engine.state(), PlaybackRunState::Paused);
    assert!(fixture.engine.has_pending_paused_seek_frame());
    assert_eq!(fixture.shows(paused_at), target);

    let preview = fixture.next_video_at(paused_at);
    let preview_pts = preview.pts.expect("interrupted seek preview PTS");
    assert!(preview_pts >= target);
    assert!(preview_pts.saturating_sub(target) <= FRAME);
    assert_eq!(preview.media_time, target);
    assert_eq!(fixture.engine.state(), PlaybackRunState::Paused);
    assert!(!fixture.engine.has_pending_paused_seek_frame());
    assert!(fixture.tick_at(paused_at).is_none());
}

fn snapshot(media_time: Duration) -> AudioClockSnapshot {
    AudioClockSnapshot {
        media_time: Some(media_time),
        queued_duration: Some(Duration::from_millis(250)),
        queued_frames: 12_000,
        read_frames: 24_000,
        written_frames: 36_000,
        underflow_frames: 0,
    }
}

#[test]
fn playback_fixture_non_unit_rate_rejects_audio_master_correction() {
    let mut fixture = playback_fixture_engine();
    let t0 = start();
    fixture.play_at(t0);
    let _ = fixture.next_video_at(t0);

    let rate_changed_at = after(t0, Duration::from_millis(100));
    let at = reading(&fixture.engine, rate_changed_at);
    fixture.engine.run.set_playback_rate(2.0f64.to_bits(), at);
    let sync_at = after(rate_changed_at, Duration::from_millis(100));
    let at = reading(&fixture.engine, sync_at);
    let before = fixture.engine.clock_snapshot_at(at);
    let correction = fixture
        .engine
        .run
        .sync_to_audio_clock(snapshot(Duration::from_secs(5)), at);

    assert!(correction.is_none());
    assert_eq!(fixture.engine.clock_snapshot_at(at), before);
    assert_eq!(before.media_time, Duration::from_millis(300));
    assert_eq!(before.source, PlaybackClockSource::Wall);
    assert_eq!(f64::from_bits(before.rate), 2.0);
}

#[test]
fn the_clock_follows_a_fresh_audio_output() {
    let mut fixture = playback_fixture_engine();
    let t0 = start();
    fixture.play_at(t0);
    let _ = fixture.next_video_at(t0);
    let later = after(t0, Duration::from_secs(1));
    let at = reading(&fixture.engine, later);
    assert!(fixture
        .engine
        .run
        .sync_to_audio_clock(snapshot(Duration::from_millis(700)), at)
        .is_none());
    let correction = fixture
        .engine
        .run
        .sync_to_audio_clock(snapshot(Duration::from_millis(1_050)), at)
        .unwrap();
    assert_eq!(correction.applied, Duration::from_millis(5));
    assert_eq!(fixture.shows(later), Duration::from_millis(1_005));
}

#[test]
fn playback_fixture_audio_track_switch_restarts_at_current_media_time() {
    let mut fixture = playback_fixture_engine();
    let audio_track_ids = fixture.audio_track_ids();
    assert_eq!(audio_track_ids, vec![1, 2]);

    let t0 = start();
    fixture.play_at(t0);
    let _ = fixture.next_video_at(t0);
    let first_track_audio = fixture.next_audio_at(t0);

    let switch_at = after(t0, Duration::from_secs(2));
    fixture.select_audio_track_at(audio_track_ids[1], switch_at);
    assert_eq!(
        fixture.engine.track_selection().audio,
        Some(audio_track_ids[1])
    );

    let switched_video = fixture.next_video_at(switch_at);
    let switched_audio = fixture.next_audio_at(switch_at);
    let switched_video_pts = switched_video.pts.expect("switched video PTS");
    let switched_audio_pts = switched_audio.pts.expect("switched audio PTS");
    let two = Duration::from_secs(2);
    assert!(switched_video_pts >= two);
    assert!(switched_audio_pts >= two);
    assert!(switched_video_pts.saturating_sub(two) <= FRAME);
    assert!(switched_audio_pts.saturating_sub(two) <= FRAME);

    let first_frequency = estimated_frequency_hz(&first_track_audio.frame);
    let switched_frequency = estimated_frequency_hz(&switched_audio.frame);
    assert!((800.0..=960.0).contains(&first_frequency));
    assert!(
        (1_200.0..=1_440.0).contains(&switched_frequency),
        "expected 1320 Hz track after switch, got {switched_frequency:.1} Hz"
    );
}

#[test]
fn playback_fixture_stop_rewinds_and_replays_from_zero() {
    let mut fixture = playback_fixture_engine();
    let second_audio_track = fixture.audio_track_ids()[1];
    let t0 = start();
    fixture.play_at(t0);

    let midstream_target = Duration::from_millis(3_250);
    let midstream_at = after(t0, Duration::from_millis(10));
    fixture.seek_at(midstream_target, midstream_at);
    let _ = fixture.next_av_at_target(midstream_at, midstream_target);
    fixture.select_audio_track_at(second_audio_track, midstream_at);
    let at = reading(&fixture.engine, midstream_at);
    fixture.engine.run.set_playback_rate(1.5f64.to_bits(), at);

    let stopped_at = after(midstream_at, Duration::from_millis(10));
    fixture.stop_at(stopped_at);

    assert_eq!(fixture.engine.state(), PlaybackRunState::Stopped);
    assert_eq!(fixture.shows(stopped_at), Duration::zero());
    let replay_at = after(stopped_at, Duration::from_secs(60));
    assert_eq!(fixture.shows(replay_at), Duration::zero());
    let at = reading(&fixture.engine, stopped_at);
    assert_eq!(
        f64::from_bits(fixture.engine.clock_snapshot_at(at).rate),
        1.5
    );
    assert_eq!(
        fixture.engine.track_selection().audio,
        Some(second_audio_track)
    );
    assert!(fixture.tick_at(stopped_at).is_none());

    assert!(!fixture.play_at(replay_at));
    let (_, audio) = fixture.next_av_at_target(replay_at, Duration::zero());
    let replay_frequency = estimated_frequency_hz(&audio.frame);
    assert!(
        (1_200.0..=1_440.0).contains(&replay_frequency),
        "expected preserved 1320 Hz track after stop, got {replay_frequency:.1} Hz"
    );
}

#[test]
fn playback_fixture_play_from_eof_auto_rewinds() {
    let mut fixture = playback_fixture_engine();
    let t0 = start();
    let (eof_at, _) = fixture.drive_to_eof_at(t0);
    assert_eq!(fixture.engine.state(), PlaybackRunState::Ended);

    let replay_at = after(eof_at, Duration::from_secs(60));
    assert!(fixture.play_at(replay_at));

    assert_eq!(fixture.engine.state(), PlaybackRunState::Playing);
    assert_eq!(fixture.shows(replay_at), Duration::zero());
    let _ = fixture.next_av_at_target(replay_at, Duration::zero());
}

#[test]
fn playback_fixture_seek_from_eof_recovers_for_nonzero_and_zero_targets() {
    for target in [Duration::from_millis(3_250), Duration::zero()] {
        let mut fixture = playback_fixture_engine();
        let t0 = start();
        let (eof_at, _) = fixture.drive_to_eof_at(t0);
        assert_eq!(fixture.engine.state(), PlaybackRunState::Ended);

        let seek_at = after(eof_at, Duration::from_secs(1));
        fixture.seek_at(target, seek_at);

        assert_eq!(fixture.engine.state(), PlaybackRunState::Stopped);
        assert_eq!(fixture.shows(seek_at), target);
        let replay_at = after(seek_at, Duration::from_secs(60));
        assert_eq!(fixture.shows(replay_at), target);

        assert!(!fixture.play_at(replay_at));
        let _ = fixture.next_av_at_target(replay_at, target);
    }
}

#[test]
fn playback_fixture_eof_ends_and_freezes_clock_at_duration() {
    let mut fixture = playback_fixture_engine();
    let t0 = start();
    let (eof_at, last_video_pts) = fixture.drive_to_eof_at(t0);

    let duration = fixture.engine.info().duration.expect("fixture duration");
    assert_eq!(duration, Duration::from_secs(8));
    assert!(last_video_pts <= duration);
    assert!(duration.saturating_sub(last_video_pts) <= FRAME);
    assert_eq!(fixture.shows(eof_at), duration);
    let later = after(eof_at, Duration::from_secs(60));
    assert_eq!(fixture.shows(later), duration);
    let at = reading(&fixture.engine, later);
    assert_eq!(
        fixture.engine.clock_snapshot_at(at),
        PlaybackClockSnapshot {
            media_time: duration,
            source: PlaybackClockSource::Wall,
            rate: 1.0f64.to_bits(),
        }
    );
    assert!(fixture.tick_at(later).is_none());
}

#[test]
fn buffering_freezes_clock_and_resumes_from_recovered_media_time() {
    let mut fixture = playback_fixture_engine();
    let t0 = start();
    fixture.play_at(t0);
    let _ = fixture.next_video_at(t0);
    let stalled_at = after(t0, Duration::from_secs(2));

    let at = reading(&fixture.engine, stalled_at);
    assert!(fixture.engine.run.begin_buffering(at));
    assert!(fixture.engine.is_buffering());
    assert_eq!(fixture.shows(stalled_at), Duration::from_secs(2));
    let recovered_at = after(stalled_at, Duration::from_secs(15));
    assert_eq!(fixture.shows(recovered_at), Duration::from_secs(2));

    assert!(fixture.engine.run.resume_buffering(
        Duration::from_millis(2_250),
        PlaybackClockSource::Audio,
        recovered_at,
    ));
    assert!(!fixture.engine.is_buffering());
    assert_eq!(fixture.shows(recovered_at), Duration::from_millis(2_250));
    assert_eq!(
        fixture.shows(after(recovered_at, Duration::from_millis(50))),
        Duration::from_millis(2_300)
    );
}

#[test]
fn buffering_resume_allows_controlled_backward_reanchor() {
    let mut fixture = playback_fixture_engine();
    let t0 = start();
    fixture.play_at(t0);
    let _ = fixture.next_video_at(t0);
    let stalled_at = after(t0, Duration::from_secs(10));

    let at = reading(&fixture.engine, stalled_at);
    assert!(fixture.engine.run.begin_buffering(at));
    let resumed_at = after(stalled_at, Duration::from_secs(1));
    assert!(fixture.engine.run.resume_buffering(
        Duration::from_secs(4),
        PlaybackClockSource::Audio,
        resumed_at,
    ));
    assert_eq!(fixture.shows(resumed_at), Duration::from_secs(4));
}

#[test]
fn playback_without_data_is_held_after_half_a_second() {
    let mut fixture = playback_fixture_engine();
    let t0 = start();
    fixture.play_at(t0);
    let mut tracker = PlaybackBufferingTracker::default();
    let silent = AudioFeed {
        snapshot: None,
        observed_at: None,
    };
    let at = reading(&fixture.engine, t0);
    assert_eq!(
        update_buffering(&mut fixture.engine, &mut tracker, silent, false, at),
        None
    );
    let soon = after(t0, Duration::from_millis(499));
    let at = reading(&fixture.engine, soon);
    assert_eq!(
        update_buffering(&mut fixture.engine, &mut tracker, silent, false, at),
        None
    );
    let late = after(t0, Duration::from_millis(500));
    let at = reading(&fixture.engine, late);
    assert_eq!(
        update_buffering(&mut fixture.engine, &mut tracker, silent, false, at),
        Some(true)
    );
    assert!(fixture.engine.is_buffering());

    let first = fixture.next_video_at(late);
    assert_eq!(first.pts, Some(Duration::zero()));
    assert!(fixture.tick_at(late).is_none());
    let heard = AudioFeed {
        snapshot: Some(snapshot(Duration::from_millis(40))),
        observed_at: Some(late),
    };
    let at = reading(&fixture.engine, late);
    assert_eq!(
        update_buffering(&mut fixture.engine, &mut tracker, heard, true, at),
        Some(false)
    );
    assert!(!fixture.engine.is_buffering());
    assert_eq!(fixture.shows(late), Duration::from_millis(40));
    assert_eq!(fixture.engine.clock().source(), PlaybackClockSource::Audio);
}

#[test]
fn audio_that_nobody_takes_is_reported_at_the_end() {
    let mut fixture = playback_fixture_engine();
    let t0 = start();
    fixture.play_at(t0);
    let _ = fixture.next_video_at(t0);
    fixture.engine.restore_pending_audio_frame(sound(1, 5));
    fixture.engine.session.drain.eof = true;
    let at = reading(&fixture.engine, t0);
    assert!(matches!(
        fixture.engine.finish_fetch(None, at),
        FetchStep::Done
    ));
    let late = after(
        t0,
        Duration {
            nanos: AUDIO_EOF_OUTPUT_STALL_TIMEOUT_NANOS,
        },
    );
    let at = reading(&fixture.engine, late);
    match fixture.engine.finish_fetch(None, at) {
        FetchStep::AudioStalled(report) => {
            assert_eq!(report.pending_frames, 1);
            assert_eq!(report.stalled_for, Duration::from_secs(10));
        }
        FetchStep::Done => panic!("the stall must be reported"),
    }
    assert_ne!(fixture.engine.state(), PlaybackRunState::Ended);

    fixture.engine.set_audio_output_active(false);
    let at = reading(&fixture.engine, late);
    assert!(matches!(
        fixture.engine.finish_fetch(None, at),
        FetchStep::Done
    ));
    assert_eq!(fixture.engine.state(), PlaybackRunState::Ended);
}

#[test]
fn late_pictures_are_dropped_but_not_for_ever() {
    let mut fixture = playback_fixture_engine();
    let t0 = start();
    fixture.play_at(t0);
    let _ = fixture.next_video_at(t0);
    let drops = fixture
        .engine
        .timing_config()
        .video_scheduler
        .max_consecutive_drops as u64;
    let late = after(t0, Duration::from_secs(5));
    let frame = fixture.tick_at(late).expect("a late picture is shown");
    assert_eq!(frame.pts, picture(1 + drops).frame.media_pts());
    assert!(frame.late_by.unwrap() > Duration::from_secs(4));
}

#[test]
fn a_missing_decoder_blocks_playing_and_seeking_but_not_stopping() {
    let mut fixture = playback_fixture_engine();
    let t0 = start();
    fixture.play_at(t0);
    fixture.engine.session.video.route.decoder = None;
    fixture.engine.session.video.unavailable_reason = Some("forced failure".to_string());

    fixture.stop_at(t0);
    assert_eq!(fixture.engine.state(), PlaybackRunState::Stopped);
    let expected = PlaybackError::VideoDecoderUnavailable {
        reason: "forced failure".to_string(),
    };
    assert_eq!(fixture.engine.plan_play().unwrap_err(), expected);
    assert_eq!(
        fixture
            .engine
            .begin_seek(Duration::from_secs(1), Platform::Other)
            .unwrap_err(),
        expected
    );
    assert_eq!(fixture.shows(t0), Duration::zero());
    assert!(!fixture.engine.clock().is_running());
    assert!(!fixture.engine.should_prefill_audio());
}

#[test]
fn subtitles_wait_for_their_time() {
    let mut fixture = playback_fixture_engine();
    let t0 = start();
    fixture.play_at(t0);
    fixture.engine.pending_subtitle = Some(DecodedSubtitleFrame::new(
        3,
        Some(Duration::from_secs(2)),
        None,
    ));
    assert!(!fixture.engine.needs_subtitle());
    assert!(fixture
        .engine
        .take_due_subtitle(Duration::from_millis(1_999))
        .is_none());
    let due = fixture
        .engine
        .take_due_subtitle(Duration::from_millis(2_100))
        .unwrap();
    assert_eq!(due.late_by, Some(Duration::from_millis(100)));
    assert!(fixture.engine.needs_subtitle());
    assert_eq!(
        fixture
            .engine
            .remove_subtitle_track(3, Duration::zero())
            .unwrap_or(None)
            .is_some(),
        false
    );
}

fn import_failure(backend: DecoderBackend, generation: u64) -> VideoFrameImportFailure {
    VideoFrameImportFailure {
        decode_backend: backend,
        mediacodec_surface: false,
        codec: Some("h264".to_string()),
        pixel_format: None,
        line_sizes: [0; 4],
        width: 16,
        height: 16,
        generation,
        reason: "import failed".to_string(),
    }
}

#[test]
fn a_refused_picture_names_where_playback_starts_again() {
    let mut fixture = playback_fixture_engine();
    let t0 = start();
    fixture.play_at(t0);
    let _ = fixture.next_video_at(t0);
    fixture.engine.session.video.route.decoder = Some(decoder(0, DecoderBackend::VideoToolbox));
    fixture.engine.pending_frame = Some(picture(1));
    let at = reading(&fixture.engine, after(t0, Duration::from_millis(20)));
    let task = fixture
        .engine
        .begin_frame_failure(&import_failure(DecoderBackend::VideoToolbox, 1), at);
    assert!(task.requires_replay);
    assert!(task.resume);
    assert_eq!(task.replay_position, Duration::zero());
    assert!(fixture.engine.pending_frame.is_none());
    assert_eq!(
        fixture.engine.finish_decoder_fallback(task),
        Some((Duration::zero(), true))
    );
}

#[test]
fn a_surface_that_does_not_deliver_is_described() {
    let mut fixture = playback_fixture_engine();
    assert!(fixture.engine.delivery_failure("full").is_none());
    fixture.engine.session.info.tracks[0].codec = Some("hevc".to_string());
    fixture.engine.pending_frame = Some(picture(3));
    let failure = fixture.engine.delivery_failure("no image").unwrap();
    assert_eq!(
        failure.reason,
        "stage=android_mediacodec_worker_prepare reason=no image"
    );
    assert_eq!(failure.codec.as_deref(), Some("hevc"));
    assert_eq!((failure.width, failure.height), (16, 16));
    assert_eq!(failure.generation, 0);
}

#[test]
fn a_surface_decides_how_a_due_picture_goes_on() {
    let mut fixture = playback_fixture_engine();
    let task = TickTask {
        paused_preview: false,
        consecutive_drops: 0,
        preroll_drops: 0,
    };
    let presentation = Presentation {
        pts: Some(Duration::from_millis(100)),
        media_time: Duration::from_millis(100),
        late_by: None,
    };
    assert!(!fixture.engine.awaits_delivery(Platform::Android));
    let broken = || FfmpegError::AndroidMediaCodec("no image".to_string());
    let step = fixture.engine.finish_due(task, presentation, Err(broken()));
    assert!(matches!(
        step,
        DueStep::Failed(PlaybackError::Ffmpeg(FfmpegError::AndroidMediaCodec(_)))
    ));

    let mut pending = picture(3);
    pending.frame.format = PixelFormat::MediaCodec;
    fixture.engine.pending_frame = Some(pending.clone());
    assert!(fixture.engine.awaits_delivery(Platform::Android));
    assert!(!fixture.engine.awaits_delivery(Platform::Other));

    let full = FfmpegError::AndroidMediaCodecBackpressure("full".to_string());
    let step = fixture.engine.finish_due(task, presentation, Err(full));
    assert!(matches!(step, DueStep::Shown(None)));
    assert_eq!(fixture.engine.pending_frame, Some(pending.clone()));

    match fixture.engine.finish_due(task, presentation, Err(broken())) {
        DueStep::Replace { failure, error } => {
            assert!(failure.mediacodec_surface);
            assert!(failure
                .reason
                .starts_with("stage=android_mediacodec_worker_prepare reason="));
            assert!(failure.reason.ends_with("no image"));
            assert_eq!(finish_replacement(true, error), Ok(None));
        }
        other => panic!("unexpected step: {other:?}"),
    }
    assert_eq!(
        finish_replacement(false, broken()),
        Err(PlaybackError::Ffmpeg(broken()))
    );
    assert_eq!(fixture.engine.pending_frame, Some(pending.clone()));

    match fixture.engine.finish_due(task, presentation, Ok(())) {
        DueStep::Shown(Some(frame)) => {
            assert_eq!(frame.frame, pending.frame);
            assert_eq!(frame.pts, Some(Duration::from_millis(100)));
        }
        other => panic!("unexpected step: {other:?}"),
    }
    assert!(fixture.engine.pending_frame.is_none());
}

#[test]
fn suspended_video_is_taken_up_where_the_clock_stands() {
    let mut fixture = playback_fixture_engine();
    let t0 = start();
    fixture.play_at(t0);
    let _ = fixture.next_video_at(t0);
    fixture.engine.suspend_video();
    assert!(fixture.engine.session.video.route.suspended);
    let later = after(t0, Duration::from_secs(2));
    let at = reading(&fixture.engine, later);
    let position = fixture
        .engine
        .begin_video_resume(at, Platform::Other)
        .unwrap();
    assert_eq!(position, Duration::from_secs(2));
    assert!(!fixture.engine.session.video.route.suspended);
    assert!(fixture.engine.session.video.route.waiting_for_keyframe);
    fixture.engine.finish_video_resume(position, later);
    assert!(fixture.engine.is_waiting_for_first_frame());
    assert_eq!(fixture.engine.run.video_seek_floor, Some(position));
}

fn shared(state: PlayerState) -> Player {
    let mut player = Player::new(PlayerConfig::default(), PlayerId::of_counter(1));
    player.inner.status.state = state;
    player
}

fn take(inner: &mut PlayerInner) -> Vec<PlayerEvent> {
    std::mem::take(&mut inner.outbox)
}

#[test]
fn the_worker_pauses_and_says_where() {
    let mut fixture = playback_fixture_engine();
    let mut player = shared(PlayerState::Playing);
    let t0 = start();
    let mut worker = PlaybackWorker::new(1, t0);
    fixture.play_at(t0);
    let _ = fixture.next_video_at(t0);
    player.inner.status.playback_command_sequence = 3;
    let at = reading(&fixture.engine, after(t0, Duration::from_millis(250)));
    let step = worker.begin_command(
        &mut fixture.engine,
        &mut player.inner,
        PlaybackCommand::Pause { sequence: 3 },
        at,
    );
    assert!(matches!(step, CommandStep::Done));
    assert_eq!(fixture.engine.state(), PlaybackRunState::Paused);
    assert_eq!(
        take(&mut player.inner),
        vec![
            PlayerEvent::PositionChanged(Duration::from_millis(250)),
            PlayerEvent::StateChanged(PlayerState::Paused),
        ]
    );
    let step = worker.begin_command(
        &mut fixture.engine,
        &mut player.inner,
        PlaybackCommand::Play {
            sequence: 2,
            generation: 1,
        },
        at,
    );
    assert!(matches!(step, CommandStep::Done));
}

#[test]
fn a_restart_from_the_end_starts_a_new_timeline() {
    let mut fixture = playback_fixture_engine();
    let mut player = shared(PlayerState::Stopped);
    let t0 = start();
    let mut worker = PlaybackWorker::new(7, t0);
    player.inner.status.playback_generation = 7;
    player.inner.status.playback_command_sequence = 1;
    player.inner.status.ended = true;
    fixture.drive_to_eof_at(t0);
    let at = reading(&fixture.engine, after(t0, Duration::from_secs(20)));
    let step = worker.begin_command(
        &mut fixture.engine,
        &mut player.inner,
        PlaybackCommand::Play {
            sequence: 1,
            generation: 7,
        },
        at,
    );
    match step {
        CommandStep::Play {
            sequence: 1,
            generation: 7,
            from: PlaybackRunState::Ended,
        } => {}
        _ => panic!("the engine must be started"),
    }
    let restarted = fixture.play_at(at.now);
    worker.finish_play(
        &mut fixture.engine,
        &mut player.inner,
        1,
        7,
        PlaybackRunState::Ended,
        Ok(restarted),
        at,
    );
    assert_eq!(worker.generation, 8);
    assert_eq!(player.playback_generation(), 8);
    assert!(!player.is_ended());
    assert_eq!(
        take(&mut player.inner),
        vec![
            PlayerEvent::PositionChanged(Duration::zero()),
            PlayerEvent::StateChanged(PlayerState::Playing),
        ]
    );
}

#[test]
fn a_failed_start_is_explained() {
    let mut fixture = playback_fixture_engine();
    let mut player = shared(PlayerState::Stopped);
    let t0 = start();
    let mut worker = PlaybackWorker::new(1, t0);
    let at = reading(&fixture.engine, t0);
    worker.finish_play(
        &mut fixture.engine,
        &mut player.inner,
        0,
        1,
        PlaybackRunState::Ended,
        Err("no decoder".to_string()),
        at,
    );
    assert_eq!(
        take(&mut player.inner),
        vec![
            PlayerEvent::Error(PlayerError::Playback(
                "failed to restart playback from Ended at zero: no decoder".to_string()
            )),
            PlayerEvent::StateChanged(PlayerState::Error),
        ]
    );
    worker.finish_play(
        &mut fixture.engine,
        &mut player.inner,
        0,
        1,
        PlaybackRunState::Paused,
        Err("no decoder".to_string()),
        at,
    );
    assert_eq!(
        take(&mut player.inner),
        vec![PlayerEvent::Error(PlayerError::Playback(
            "failed to start playback from Paused: no decoder".to_string()
        ))]
    );
}

#[test]
fn overtaken_outcomes_are_not_told() {
    let mut fixture = playback_fixture_engine();
    let mut player = shared(PlayerState::Playing);
    let t0 = start();
    let mut worker = PlaybackWorker::new(1, t0);
    player.inner.status.playback_command_sequence = 9;
    let at = reading(&fixture.engine, t0);
    worker.finish_seek(
        &mut fixture.engine,
        &mut player.inner,
        8,
        5,
        true,
        Ok(()),
        at,
    );
    assert_eq!(worker.generation, 5);
    worker.finish_stop(
        &mut fixture.engine,
        &mut player.inner,
        8,
        6,
        Err("late".to_string()),
        at,
    );
    assert_eq!(worker.generation, 5);
    assert_eq!(player.state(), PlayerState::Playing);
    assert!(take(&mut player.inner).is_empty());
    worker.finish_stop(
        &mut fixture.engine,
        &mut player.inner,
        9,
        6,
        Ok(()),
        at,
    );
    assert_eq!(worker.generation, 6);
    assert_eq!(player.state(), PlayerState::Stopped);
}

#[test]
fn stale_pictures_do_not_replace_the_decoder() {
    let mut fixture = playback_fixture_engine();
    let mut player = shared(PlayerState::Playing);
    let t0 = start();
    let worker = PlaybackWorker::new(7, t0);
    player.inner.status.playback_generation = 7;
    let at = reading(&fixture.engine, t0);
    let failure = import_failure(DecoderBackend::MediaCodec, 6);
    assert!(matches!(
        worker.take_import_failure(&mut fixture.engine, &mut player.inner, failure, at),
        CommandStep::Done
    ));
    let failure = import_failure(DecoderBackend::MediaCodec, 7);
    assert!(matches!(
        worker.take_import_failure(&mut fixture.engine, &mut player.inner, failure, at),
        CommandStep::ReplaceDecoder(_)
    ));
    assert!(take(&mut player.inner).is_empty());
    let failure = import_failure(DecoderBackend::Software, 7);
    let message = failure.structured_message();
    assert!(matches!(
        worker.take_import_failure(&mut fixture.engine, &mut player.inner, failure, at),
        CommandStep::Done
    ));
    assert_eq!(
        take(&mut player.inner),
        vec![
            PlayerEvent::Error(PlayerError::Renderer(message)),
            PlayerEvent::StateChanged(PlayerState::Error),
        ]
    );
}

#[test]
fn a_turn_hands_out_pictures_sound_and_positions() {
    let mut fixture = playback_fixture_engine();
    let mut player = shared(PlayerState::Playing);
    let video = player.subscribe_video_frames();
    let audio = player.subscribe_audio_frames();
    let t0 = start();
    let mut worker = PlaybackWorker::new(4, t0);
    player.inner.status.playback_generation = 4;
    fixture.play_at(t0);

    assert!(worker.begin_turn(&mut fixture.engine, &mut player.inner));
    let frame = fixture.tick_at(t0);
    let at = reading(&fixture.engine, t0);
    assert!(worker.video_ticked(&mut fixture.engine, &mut player.inner, Ok(frame), at));
    assert_eq!(video.try_recv().unwrap().generation, 4);
    assert!(player.playback_snapshot().clock.is_running());
    assert!(worker.plays_sound(&fixture.engine));
    assert!(worker.should_prefill(&fixture.engine, t0));
    let frame = fixture.tick_audio_at(t0);
    let next = worker.audio_ticked(&mut fixture.engine, &mut player.inner, Ok(frame), at);
    assert_eq!(next, PumpNext::Again);
    assert_eq!(audio.try_recv().unwrap().generation, 4);
    assert_eq!(
        worker.audio_ticked(&mut fixture.engine, &mut player.inner, Ok(None), at),
        PumpNext::Enough
    );
    worker.settle_buffering(&mut fixture.engine, &mut player.inner, true, at);
    worker.tell_decoders(&mut fixture.engine, &mut player.inner);
    worker.tell_position(&fixture.engine, &mut player.inner, at);
    assert_eq!(
        take(&mut player.inner),
        vec![PlayerEvent::PositionChanged(Duration::zero())]
    );

    drop(audio);
    let frame = fixture.tick_audio_at(t0);
    let next = worker.audio_ticked(&mut fixture.engine, &mut player.inner, Ok(frame), at);
    assert_eq!(next, PumpNext::Enough);
    assert!(!fixture.engine.has_audio_output());
}

#[test]
fn a_picture_that_cannot_be_handed_out_ends_playback() {
    let mut fixture = playback_fixture_engine();
    let mut player = shared(PlayerState::Playing);
    let video = player.subscribe_video_frames();
    let t0 = start();
    let mut worker = PlaybackWorker::new(4, t0);
    player.inner.status.playback_generation = 4;
    fixture.play_at(t0);
    let frame = fixture.tick_at(t0).unwrap();
    let at = reading(&fixture.engine, t0);
    assert!(worker.video_handoff_failed(
        &mut fixture.engine,
        &mut player.inner,
        &frame,
        "no frame".to_string(),
        at,
    ));
    assert!(video.try_recv().is_err());
    assert_eq!(
        worker.position,
        Some(PositionMark {
            generation: 4,
            position: Duration::zero(),
        })
    );
    assert_eq!(fixture.engine.state(), PlaybackRunState::Paused);
    assert_eq!(
        take(&mut player.inner),
        vec![
            PlayerEvent::Error(PlayerError::Playback("no frame".to_string())),
            PlayerEvent::StateChanged(PlayerState::Error),
        ]
    );
    assert!(!player.playback_snapshot().clock.is_running());
}

#[test]
fn the_natural_end_is_told_once_per_playing() {
    let mut fixture = playback_fixture_engine();
    let mut player = shared(PlayerState::Playing);
    let t0 = start();
    let mut worker = PlaybackWorker::new(1, t0);
    let (eof_at, _) = fixture.drive_to_eof_at(t0);
    let at = reading(&fixture.engine, eof_at);
    worker.tell_position(&fixture.engine, &mut player.inner, at);
    worker.tell_position(&fixture.engine, &mut player.inner, at);
    assert_eq!(
        take(&mut player.inner),
        vec![
            PlayerEvent::PositionChanged(Duration::from_secs(8)),
            PlayerEvent::StateChanged(PlayerState::Stopped),
        ]
    );
    assert!(player.is_stopped_at_end());
}

#[test]
fn a_failure_pauses_the_engine() {
    let mut fixture = playback_fixture_engine();
    let mut player = shared(PlayerState::Playing);
    let t0 = start();
    fixture.play_at(t0);
    let _ = fixture.next_video_at(t0);
    let at = reading(&fixture.engine, t0);
    fail_playback(
        &mut fixture.engine,
        &mut player.inner,
        "broken".to_string(),
        at,
    );
    assert_eq!(fixture.engine.state(), PlaybackRunState::Paused);
    assert_eq!(player.state(), PlayerState::Error);
    assert!(fixture.tick_at(t0).is_none());
}

#[test]
fn the_worker_hurries_only_while_there_is_something_to_show() {
    let fast = Duration::from_millis(2);
    let slow = Duration::from_millis(50);
    assert_eq!(
        playback_poll_interval(PlaybackRunState::Playing, false),
        fast
    );
    assert_eq!(playback_poll_interval(PlaybackRunState::Paused, true), fast);
    assert_eq!(
        playback_poll_interval(PlaybackRunState::Paused, false),
        slow
    );
    assert_eq!(playback_poll_interval(PlaybackRunState::Ended, true), slow);
    assert_eq!(
        PlaybackWorker::pump_time(0, Duration::from_millis(2)),
        Some(Duration::from_millis(3))
    );
    assert_eq!(PlaybackWorker::pump_time(8, Duration::zero()), None);
    assert_eq!(
        PlaybackWorker::pump_time(0, Duration::from_millis(5)),
        None
    );
}

#[test]
fn quiescing_is_acknowledged() {
    let mut fixture = playback_fixture_engine();
    let mut player = shared(PlayerState::Playing);
    let t0 = start();
    let mut worker = PlaybackWorker::new(1, t0);
    let (commands, _worker_end) = player.command_channel();
    player.lifecycle.commands = Some(commands);
    let (command, response) = player.begin_frame_output(true).unwrap();
    let at = reading(&fixture.engine, t0);
    assert!(matches!(
        worker.begin_command(&mut fixture.engine, &mut player.inner, command, at),
        CommandStep::Acknowledged { .. }
    ));
    assert!(worker.quiesced);
    assert!(response.try_recv().is_ok());
    assert!(!worker.begin_turn(&mut fixture.engine, &mut player.inner));
    assert!(matches!(
        worker.begin_command(
            &mut fixture.engine,
            &mut player.inner,
            PlaybackCommand::Shutdown,
            at
        ),
        CommandStep::Exit
    ));
}
