//! The playback engine: a session on a clock, one tick at a time.
use crate::audio::AudioClockSnapshot;
use crate::clock::{
    ClockCorrection, ClockReading, PlaybackClock, PlaybackClockSnapshot, PlaybackClockSource,
};
use crate::decoder::DecoderBackend;
use crate::events::VideoFrameImportFailure;
use crate::frame::Frame;
use crate::media::TrackSelection;
use crate::pcm::{keep_audio_frame_after_seek_floor, PcmAudioFrame};
use crate::playback::{
    playback_eof_ready, playback_state_after_seek_intent, playback_state_requires_rewind,
    seek_preroll_budget_exhausted, OpenedMediaInfo, PlaybackError, PlaybackRunState,
    AUDIO_EOF_OUTPUT_STALL_TIMEOUT_NANOS, OUTPUT_AUDIO_CLOCK_STALE_TOLERANCE_NANOS,
    SEEK_PREROLL_LOG_INTERVAL_NANOS,
};
use crate::rate::rate_is_near_unit;
use crate::schedule::{PlaybackTimingConfig, VideoFrameDecision};
use crate::session::PlaybackSession;
use crate::subtitle::DecodedSubtitleFrame;
use crate::time::{Duration, Instant};
use crate::video::DecodedVideoFrame;
use vstd::prelude::*;

verus! {

/// A picture that is due.
#[derive(Clone, Debug, PartialEq, Eq)]
pub struct TimedVideoFrame {
    pub frame: Frame,
    pub decode_backend: DecoderBackend,
    pub pts: Option<Duration>,
    pub media_time: Duration,
    pub late_by: Option<Duration>,
}

/// A run of audio that is due.
#[derive(Clone, Debug, PartialEq, Eq)]
pub struct TimedAudioFrame {
    pub frame: PcmAudioFrame,
    pub pts: Option<Duration>,
    pub media_time: Duration,
    pub late_by: Option<Duration>,
}

/// A subtitle that is due.
#[derive(Debug)]
pub struct TimedSubtitleFrame {
    pub frame: DecodedSubtitleFrame,
    pub pts: Option<Duration>,
    pub media_time: Duration,
    pub late_by: Option<Duration>,
}

/// How long the last runs of audio have waited for the output.
#[derive(Clone, Copy, Debug, PartialEq, Eq, Structural)]
pub struct AudioEofStall {
    pub started_at: Option<Instant>,
    pub pending_frames: usize,
    pub logged: bool,
}

pub open spec fn no_audio_stall() -> AudioEofStall {
    AudioEofStall { started_at: None, pending_frames: 0, logged: false }
}

/// How the decoding up to a seek target goes.
#[derive(Clone, Copy, Debug, PartialEq, Eq, Structural)]
pub struct SeekPreroll {
    pub started_at: Option<Instant>,
    pub dropped_frames: u64,
    pub last_log: Option<Instant>,
}

pub open spec fn no_preroll() -> SeekPreroll {
    SeekPreroll { started_at: None, dropped_frames: 0, last_log: None }
}

pub open spec fn fresh_preroll(now: Instant) -> SeekPreroll {
    SeekPreroll { started_at: Some(now), dropped_frames: 0, last_log: None }
}

/// What steers playback.
#[derive(Clone, Copy, Debug, PartialEq, Eq, Structural)]
pub struct EngineState {
    pub state: PlaybackRunState,
    pub clock: PlaybackClock,
    pub timing: PlaybackTimingConfig,
    pub audio_output_active: bool,
    pub audio_stall: AudioEofStall,
    pub last_presented_pts: Option<Duration>,
    pub eof: bool,
    pub waiting_for_first_frame: bool,
    pub buffering: bool,
    pub buffering_video_pts: Option<Duration>,
    /// A seek while paused shows one picture of its target.
    pub paused_seek_frame_pending: bool,
    pub video_seek_floor: Option<Duration>,
    pub audio_seek_floor: Option<Duration>,
    pub preroll: SeekPreroll,
}

/// What is reported of audio that the output does not take.
#[derive(Clone, Copy, Debug, PartialEq, Eq, Structural)]
pub struct AudioStallReport {
    pub pending_frames: usize,
    pub stalled_for: Duration,
}

impl EngineState {
    /// Whether the times that the state holds are times.
    pub open spec fn well_formed(self) -> bool {
        self.audio_seek_floor is Some ==> self.audio_seek_floor->0.valid()
    }

    /// Playback of a medium that has just been opened.
    pub open spec fn opened(timing: PlaybackTimingConfig) -> EngineState {
        EngineState {
            state: PlaybackRunState::Paused,
            clock: PlaybackClock::fresh(Duration { nanos: 0 }),
            timing,
            audio_output_active: true,
            audio_stall: no_audio_stall(),
            last_presented_pts: None,
            eof: false,
            waiting_for_first_frame: false,
            buffering: false,
            buffering_video_pts: None,
            paused_seek_frame_pending: false,
            video_seek_floor: None,
            audio_seek_floor: None,
            preroll: no_preroll(),
        }
    }

    pub fn new(timing: PlaybackTimingConfig) -> (r: Self)
        ensures
            r == Self::opened(timing),
            r.well_formed(),
    {
        EngineState {
            state: PlaybackRunState::Paused,
            clock: PlaybackClock::default(),
            timing,
            audio_output_active: true,
            audio_stall: AudioEofStall { started_at: None, pending_frames: 0, logged: false },
            last_presented_pts: None,
            eof: false,
            waiting_for_first_frame: false,
            buffering: false,
            buffering_video_pts: None,
            paused_seek_frame_pending: false,
            video_seek_floor: None,
            audio_seek_floor: None,
            preroll: SeekPreroll { started_at: None, dropped_frames: 0, last_log: None },
        }
    }

    fn reset_audio_eof_stall_state(&mut self)
        ensures
            *final(self) == (EngineState { audio_stall: no_audio_stall(), ..*old(self) }),
    {
        self.audio_stall = AudioEofStall { started_at: None, pending_frames: 0, logged: false };
    }

    /// Holds the clock while data is missing; only a player that plays can run dry, and only once.
    pub fn begin_buffering(&mut self, reading: ClockReading) -> (r: bool)
        ensures
            r == (old(self).state == PlaybackRunState::Playing && !old(self).buffering),
            *final(self) == (if r {
                EngineState {
                    clock: old(self).clock.paused(reading),
                    buffering: true,
                    buffering_video_pts: None,
                    ..*old(self)
                }
            } else {
                *old(self)
            }),
    {
        if self.state != PlaybackRunState::Playing || self.buffering {
            return false;
        }
        self.clock.pause(reading);
        self.buffering = true;
        self.buffering_video_pts = None;
        true
    }

    /// Lets the clock run again from a place where data is there.
    pub fn resume_buffering(
        &mut self,
        reference_time: Duration,
        source: PlaybackClockSource,
        now: Instant,
    ) -> (r: bool)
        ensures
            r == (old(self).state == PlaybackRunState::Playing && old(self).buffering),
            *final(self) == (if r {
                EngineState {
                    clock: old(self).clock.moved_to(reference_time, now, source).started(now),
                    buffering: false,
                    buffering_video_pts: None,
                    ..*old(self)
                }
            } else {
                *old(self)
            }),
    {
        if self.state != PlaybackRunState::Playing || !self.buffering {
            return false;
        }
        self.clock.sync_to(reference_time, now, source);
        self.clock.play(now);
        self.buffering = false;
        self.buffering_video_pts = None;
        true
    }

    /// The watch on the audio output, started anew.
    pub open spec fn rebased(self, now: Instant) -> EngineState {
        EngineState {
            audio_stall: AudioEofStall {
                started_at: match self.audio_stall.started_at {
                    Some(_) => Some(now),
                    None => None,
                },
                ..self.audio_stall
            },
            ..self
        }
    }

    /// Playback that has been started. The clock runs only once a picture has been shown.
    pub open spec fn playing(self, now: Instant) -> EngineState {
        EngineState {
            clock: if self.last_presented_pts is None {
                self.clock
            } else {
                self.clock.started(now)
            },
            state: PlaybackRunState::Playing,
            buffering: false,
            buffering_video_pts: None,
            waiting_for_first_frame: self.last_presented_pts is None,
            paused_seek_frame_pending: false,
            audio_stall: AudioEofStall {
                started_at: match self.audio_stall.started_at {
                    Some(_) => Some(now),
                    None => None,
                },
                ..self.audio_stall
            },
            ..self
        }
    }

    pub fn start_playback(&mut self, now: Instant)
        ensures
            *final(self) == old(self).playing(now),
    {
        let waiting_for_first_frame = self.last_presented_pts.is_none();
        if !waiting_for_first_frame {
            self.clock.play(now);
        }
        self.state = PlaybackRunState::Playing;
        self.buffering = false;
        self.buffering_video_pts = None;
        self.waiting_for_first_frame = waiting_for_first_frame;
        self.paused_seek_frame_pending = false;
        if self.audio_stall.started_at.is_some() {
            self.audio_stall.started_at = Some(now);
        }
    }

    /// Playback that has been paused. A seek whose picture is still to come keeps it as a preview.
    pub open spec fn paused(self, reading: ClockReading) -> EngineState {
        if self.state != PlaybackRunState::Playing {
            self
        } else {
            EngineState {
                clock: self.clock.paused(reading),
                state: PlaybackRunState::Paused,
                buffering: false,
                buffering_video_pts: None,
                waiting_for_first_frame: false,
                paused_seek_frame_pending: self.waiting_for_first_frame
                    && self.video_seek_floor is Some,
                ..self
            }
        }
    }

    pub fn pause(&mut self, reading: ClockReading)
        ensures
            *final(self) == old(self).paused(reading),
    {
        if self.state != PlaybackRunState::Playing {
            return;
        }
        let seek_frame_pending = self.waiting_for_first_frame && self.video_seek_floor.is_some();
        self.clock.pause(reading);
        self.state = PlaybackRunState::Paused;
        self.buffering = false;
        self.buffering_video_pts = None;
        self.waiting_for_first_frame = false;
        self.paused_seek_frame_pending = seek_frame_pending;
    }

    /// Playback that has been stopped: at the start, parked, with nothing shown.
    pub open spec fn stopped(self, now: Instant) -> EngineState {
        EngineState {
            clock: self.clock.parked_at(Duration { nanos: 0 }),
            last_presented_pts: None,
            state: PlaybackRunState::Stopped,
            eof: false,
            waiting_for_first_frame: false,
            buffering: false,
            buffering_video_pts: None,
            paused_seek_frame_pending: false,
            video_seek_floor: Some(Duration { nanos: 0 }),
            audio_seek_floor: Some(Duration { nanos: 0 }),
            audio_stall: no_audio_stall(),
            preroll: fresh_preroll(now),
            ..self
        }
    }

    pub fn commit_stopped(&mut self, now: Instant)
        ensures
            *final(self) == old(self).stopped(now),
            final(self).well_formed(),
    {
        self.clock.reset(Duration::zero(), false, now);
        self.last_presented_pts = None;
        self.state = PlaybackRunState::Stopped;
        self.eof = false;
        self.waiting_for_first_frame = false;
        self.buffering = false;
        self.buffering_video_pts = None;
        self.paused_seek_frame_pending = false;
        self.video_seek_floor = Some(Duration::zero());
        self.audio_seek_floor = Some(Duration::zero());
        self.reset_audio_eof_stall_state();
        self.preroll = SeekPreroll { started_at: Some(now), dropped_frames: 0, last_log: None };
    }

    /// Playback in a state behind a seek: the clock is parked on the target until the first
    /// picture of it is shown, and nothing before the target is.
    pub open spec fn sought(self, position: Duration, state: PlaybackRunState, now: Instant) -> EngineState {
        EngineState {
            clock: self.clock.parked_at(position),
            last_presented_pts: None,
            eof: false,
            state,
            buffering: false,
            buffering_video_pts: None,
            waiting_for_first_frame: state == PlaybackRunState::Playing,
            paused_seek_frame_pending: state == PlaybackRunState::Paused,
            video_seek_floor: Some(position),
            audio_seek_floor: Some(position),
            preroll: fresh_preroll(now),
            ..self
        }
    }

    /// Ends a seek that the session has made.
    pub fn finish_seek(&mut self, position: Duration, resume_after_seek: bool, now: Instant)
        requires
            position.valid(),
        ensures
            *final(self) == old(self).sought(
                position,
                crate::playback::state_after_seek(old(self).state, resume_after_seek),
                now,
            ),
            final(self).well_formed(),
    {
        let state_after = playback_state_after_seek_intent(self.state, resume_after_seek);
        self.clock.reset(position, false, now);
        self.last_presented_pts = None;
        self.eof = false;
        self.state = state_after;
        self.buffering = false;
        self.buffering_video_pts = None;
        self.waiting_for_first_frame = state_after == PlaybackRunState::Playing;
        self.paused_seek_frame_pending = state_after == PlaybackRunState::Paused;
        self.video_seek_floor = Some(position);
        self.audio_seek_floor = Some(position);
        self.preroll = SeekPreroll { started_at: Some(now), dropped_frames: 0, last_log: None };
    }

    /// Ends the new start of the streams that another track called for: as a seek that keeps the
    /// state.
    pub fn finish_stream_reset(&mut self, media_time: Duration, now: Instant)
        requires
            media_time.valid(),
        ensures
            *final(self) == old(self).sought(media_time, old(self).state, now),
            final(self).well_formed(),
    {
        self.clock.reset(media_time, false, now);
        self.last_presented_pts = None;
        self.eof = false;
        self.buffering = false;
        self.buffering_video_pts = None;
        self.waiting_for_first_frame = self.state == PlaybackRunState::Playing;
        self.paused_seek_frame_pending = self.state == PlaybackRunState::Paused;
        self.video_seek_floor = Some(media_time);
        self.audio_seek_floor = Some(media_time);
        self.preroll = SeekPreroll { started_at: Some(now), dropped_frames: 0, last_log: None };
    }

    /// Playback at another rate, from where it stands.
    pub open spec fn at_rate(self, rate: u64, reading: ClockReading) -> EngineState {
        EngineState {
            clock: PlaybackClock {
                rate: crate::rate::positive_or_unit(rate),
                ..self.clock.moved_to(self.clock.shows(reading), reading.now, self.clock.source)
            },
            ..self
        }
    }

    pub fn set_playback_rate(&mut self, rate: u64, reading: ClockReading)
        ensures
            *final(self) == old(self).at_rate(rate, reading),
    {
        self.clock.set_rate(rate, reading);
    }

    /// Whether the clock follows the audio output: while it plays at media speed, has not run dry,
    /// and the output's own clock is not far behind.
    pub open spec fn follows(self, snapshot: AudioClockSnapshot, reading: ClockReading) -> bool {
        &&& self.state == PlaybackRunState::Playing
        &&& !self.buffering
        &&& crate::rate::near_unit(self.clock.rate)
        &&& snapshot.media_time is Some
        &&& snapshot.media_time->0.sum(
            Duration { nanos: OUTPUT_AUDIO_CLOCK_STALE_TOLERANCE_NANOS },
        ).nanos >= self.clock.shows(reading).nanos
    }

    /// Playback once its clock has taken a step towards the audio output, where it follows it.
    pub open spec fn disciplined(self, snapshot: AudioClockSnapshot, reading: ClockReading) -> EngineState {
        let shown = self.clock.shows(reading);
        let reference = snapshot.media_time->0;
        let config = self.timing.audio_sync;
        let source = PlaybackClockSource::Audio;
        if !self.follows(snapshot, reading) {
            self
        } else {
            EngineState {
                clock: if crate::clock::correction_moves(reference, shown, config) {
                    self.clock.moved_to(
                        crate::clock::corrected_time(reference, shown, config),
                        reading.now,
                        source,
                    )
                } else {
                    PlaybackClock { source, ..self.clock }
                },
                ..self
            }
        }
    }

    pub fn sync_to_audio_clock(&mut self, snapshot: AudioClockSnapshot, reading: ClockReading) -> (r:
        Option<ClockCorrection>)
        ensures
            *final(self) == old(self).disciplined(snapshot, reading),
            r == (if old(self).follows(snapshot, reading) {
                Some(
                    crate::clock::correction_for(
                        snapshot.media_time->0,
                        old(self).clock.shows(reading),
                        PlaybackClockSource::Audio,
                        old(self).timing.audio_sync,
                    ),
                )
            } else {
                None
            }),
    {
        if self.state != PlaybackRunState::Playing || self.buffering {
            return None;
        }
        if !rate_is_near_unit(self.clock.rate()) {
            return None;
        }
        match snapshot.media_time {
            None => None,
            Some(media_time) => {
                let before = self.clock.media_time_at(reading);
                let tolerance = Duration { nanos: OUTPUT_AUDIO_CLOCK_STALE_TOLERANCE_NANOS };
                if media_time.saturating_add(tolerance).nanos < before.nanos {
                    return None;
                }
                Some(
                    self.clock.discipline_to(
                        media_time,
                        reading,
                        PlaybackClockSource::Audio,
                        self.timing.audio_sync,
                    ),
                )
            },
        }
    }

    /// Notes that runs of audio wait for the output behind the end of the medium. As long as some
    /// are taken the output is alive; after ten seconds of none it is reported.
    pub fn observe_audio_eof_stall(&mut self, pending_frames: usize, now: Instant) -> (r: Result<
        (),
        AudioStallReport,
    >)
        ensures
            ({
                let stall = old(self).audio_stall;
                let since = if stall.started_at is None || pending_frames < stall.pending_frames {
                    now
                } else {
                    stall.started_at->0
                };
                &&& *final(self) == (EngineState {
                    audio_stall: AudioEofStall {
                        started_at: Some(since),
                        pending_frames,
                        logged: true,
                    },
                    ..*old(self)
                })
                &&& r == (if now.since(since).nanos < AUDIO_EOF_OUTPUT_STALL_TIMEOUT_NANOS {
                    Ok::<(), AudioStallReport>(())
                } else {
                    Err(AudioStallReport { pending_frames, stalled_for: now.since(since) })
                })
            }),
    {
        let since = match self.audio_stall.started_at {
            Some(started_at) => if pending_frames < self.audio_stall.pending_frames {
                now
            } else {
                started_at
            },
            None => now,
        };
        self.audio_stall = AudioEofStall { started_at: Some(since), pending_frames, logged: true };
        let stalled_for = now.saturating_duration_since(since);
        if stalled_for.as_nanos() < AUDIO_EOF_OUTPUT_STALL_TIMEOUT_NANOS {
            return Ok(());
        }
        Err(AudioStallReport { pending_frames, stalled_for })
    }

    /// Playback at its natural end: the clock stands at the length of the medium.
    pub open spec fn ended(self, duration: Option<Duration>, reading: ClockReading) -> EngineState {
        EngineState {
            eof: true,
            state: PlaybackRunState::Ended,
            buffering: false,
            buffering_video_pts: None,
            audio_stall: no_audio_stall(),
            clock: self.clock.parked_at(
                match duration {
                    Some(duration) => duration,
                    None => self.clock.shows(reading),
                },
            ),
            ..self
        }
    }

    /// Whether a picture lies before the target of a seek.
    pub open spec fn before_target(self, pts: Option<Duration>) -> bool {
        self.video_seek_floor is Some && pts is Some && pts->0.nanos
            < self.video_seek_floor->0.nanos
    }

    /// Decides whether a picture is thrown away because it lies before the target of a seek. The
    /// first that does not ends the approach.
    pub fn should_drop_video_seek_preroll(&mut self, pts: Option<Duration>) -> (r: bool)
        ensures
            r == old(self).before_target(pts),
            *final(self) == (if r || old(self).video_seek_floor is None {
                *old(self)
            } else {
                EngineState { video_seek_floor: None, preroll: no_preroll(), ..*old(self) }
            }),
    {
        match self.video_seek_floor {
            None => false,
            Some(target) => {
                if let Some(pts) = pts {
                    if pts.nanos < target.nanos {
                        return true;
                    }
                }
                self.video_seek_floor = None;
                self.preroll = SeekPreroll { started_at: None, dropped_frames: 0, last_log: None };
                false
            },
        }
    }

    pub fn media_time_at(&self, reading: ClockReading) -> (r: Duration)
        ensures
            r == self.clock.shows(reading),
    {
        self.clock.media_time_at(reading)
    }

    /// Whether a tick looks for a picture, and whether that is the preview of a paused seek.
    pub open spec fn looks_for_picture(self) -> Option<bool> {
        let preview = self.state == PlaybackRunState::Paused && self.paused_seek_frame_pending;
        if self.state != PlaybackRunState::Playing && !preview {
            None
        } else if self.buffering && self.buffering_video_pts is Some {
            None
        } else {
            Some(preview)
        }
    }
}

/// A tick that is under way.
#[derive(Clone, Copy, Debug, PartialEq, Eq, Structural)]
pub struct TickTask {
    pub paused_preview: bool,
    pub consecutive_drops: usize,
    pub preroll_drops: usize,
}

/// What a picture is shown as.
#[derive(Clone, Copy, Debug, PartialEq, Eq, Structural)]
pub struct Presentation {
    pub pts: Option<Duration>,
    pub media_time: Duration,
    pub late_by: Option<Duration>,
}

/// How a tick goes on.
#[derive(Debug)]
pub enum TickStep {
    /// The next picture is looked for.
    Continue(TickTask),
    /// Nothing is shown this time.
    Nothing,
    /// The picture that waits is due; the surface that holds it may have to hand it over first.
    Due(TickTask, Presentation),
    Present(TimedVideoFrame),
}

/// What came of the search for a picture.
#[derive(Debug)]
pub enum FetchStep {
    Done,
    /// The output does not take the last runs of audio.
    AudioStalled(AudioStallReport),
}

/// A refusal of a picture that is being dealt with.
#[derive(Clone, Copy, Debug, PartialEq, Eq, Structural)]
pub struct FailureTask {
    pub requires_replay: bool,
    pub replay_position: Duration,
    pub resume: bool,
}

/// Playback of an open medium.
pub struct VideoPlaybackEngine {
    pub session: PlaybackSession,
    pub run: EngineState,
    pub pending_frame: Option<DecodedVideoFrame>,
    pub pending_audio: Option<PcmAudioFrame>,
    pub pending_subtitle: Option<DecodedSubtitleFrame>,
}

impl VideoPlaybackEngine {
    pub fn from_session_with_timing(session: PlaybackSession, timing: PlaybackTimingConfig) -> (r: Self)
        ensures
            r.session == session,
            r.run == EngineState::opened(timing),
            r.pending_frame is None,
            r.pending_audio is None,
            r.pending_subtitle is None,
    {
        VideoPlaybackEngine {
            session,
            run: EngineState::new(timing),
            pending_frame: None,
            pending_audio: None,
            pending_subtitle: None,
        }
    }

    pub fn from_session(session: PlaybackSession) -> (r: Self)
        ensures
            r.session == session,
            r.run == EngineState::opened(crate::schedule::default_timing()),
            r.pending_frame is None,
            r.pending_audio is None,
            r.pending_subtitle is None,
    {
        VideoPlaybackEngine::from_session_with_timing(session, PlaybackTimingConfig::default())
    }

    pub fn info(&self) -> (r: &OpenedMediaInfo)
        ensures
            *r == self.session.info,
    {
        self.session.info()
    }

    pub fn track_selection(&self) -> (r: TrackSelection)
        ensures
            r == self.session.info.selection(),
    {
        self.session.info.track_selection()
    }

    pub fn state(&self) -> (r: PlaybackRunState)
        ensures
            r == self.run.state,
    {
        self.run.state
    }

    pub fn clock(&self) -> (r: PlaybackClock)
        ensures
            r == self.run.clock,
    {
        self.run.clock
    }

    pub fn clock_snapshot_at(&self, reading: ClockReading) -> (r: PlaybackClockSnapshot)
        ensures
            r == (PlaybackClockSnapshot {
                media_time: self.run.clock.shows(reading),
                source: self.run.clock.source,
                rate: self.run.clock.rate,
            }),
    {
        self.run.clock.snapshot_at(reading)
    }

    pub fn timing_config(&self) -> (r: PlaybackTimingConfig)
        ensures
            r == self.run.timing,
    {
        self.run.timing
    }

    pub fn set_timing_config(&mut self, timing: PlaybackTimingConfig)
        ensures
            final(self).same_but_run(*old(self)),
            final(self).run == (EngineState { timing, ..old(self).run }),
    {
        self.run.timing = timing;
    }

    /// Whether two engines differ in what steers them alone.
    pub open spec fn same_but_run(self, other: VideoPlaybackEngine) -> bool {
        &&& self.session == other.session
        &&& self.pending_frame == other.pending_frame
        &&& self.pending_audio == other.pending_audio
        &&& self.pending_subtitle == other.pending_subtitle
    }

    pub open spec fn hears(self) -> bool {
        self.run.audio_output_active && self.session.info.selected_audio_track is Some
    }

    pub fn has_audio_output(&self) -> (r: bool)
        ensures
            r == self.hears(),
    {
        self.run.audio_output_active && self.session.info.selected_audio_track.is_some()
    }

    pub fn has_video_output(&self) -> (r: bool)
        ensures
            r == (self.session.info.selected_video_track is Some),
    {
        self.session.info.selected_video_track.is_some()
    }

    pub fn should_prefill_audio(&self) -> (r: bool)
        ensures
            r == (self.run.state == PlaybackRunState::Playing),
    {
        self.run.state == PlaybackRunState::Playing
    }

    pub fn has_pending_paused_seek_frame(&self) -> (r: bool)
        ensures
            r == (self.run.state == PlaybackRunState::Paused && self.run.paused_seek_frame_pending),
    {
        self.run.state == PlaybackRunState::Paused && self.run.paused_seek_frame_pending
    }

    /// Whether the output became active or inactive. Where it was the same before, nothing changed.
    pub open spec fn output_switched(self, before: VideoPlaybackEngine, active: bool) -> bool {
        if before.run.audio_output_active == active {
            self == before
        } else {
            &&& self.session.same_but_audio(before.session)
            &&& self.pending_frame == before.pending_frame
            &&& self.pending_subtitle == before.pending_subtitle
            &&& self.run == (EngineState {
                audio_output_active: active,
                audio_stall: no_audio_stall(),
                ..before.run
            })
            &&& self.session.audio.route == (crate::audio::AudioRoute {
                output_active: active,
                ..before.session.audio.route
            })
            &&& self.pending_audio == (if active {
                before.pending_audio
            } else {
                None
            })
            &&& self.session.audio.frames@ == (if !active
                && before.session.audio.route.output_active {
                Seq::<PcmAudioFrame>::empty()
            } else {
                before.session.audio.frames@
            })
        }
    }

    /// Says whether an output listens. Where none does any more, the audio that waits is thrown
    /// away.
    pub fn set_audio_output_active(&mut self, active: bool)
        ensures
            final(self).output_switched(*old(self), active),
    {
        if self.run.audio_output_active == active {
            return;
        }
        if !active {
            self.pending_audio = None;
        }
        let _ = self.session.audio.set_output_active(active);
        self.run.audio_output_active = active;
        self.run.reset_audio_eof_stall_state();
    }

    /// Whether playback may start, and whether it first goes back to the start: at its natural end
    /// it does.
    pub fn plan_play(&self) -> (r: Result<Option<bool>, PlaybackError>)
        ensures
            ({
                let selected = self.session.info.selected_video_track;
                &&& r is Err <==> self.session.video.lacks_decoder(selected)
                &&& r is Err ==> r->Err_0 is VideoDecoderUnavailable
                    && r->Err_0->VideoDecoderUnavailable_reason@
                    == self.session.video.missing_text(selected->0)
                &&& r is Ok ==> r->Ok_0 == (if self.run.state == PlaybackRunState::Playing {
                    None
                } else {
                    Some(self.run.state == PlaybackRunState::Ended)
                })
            }),
    {
        if let Err(error) = self.session.video.ensure_available(
            self.session.info.selected_video_track,
        ) {
            return Err(error);
        }
        if self.run.state == PlaybackRunState::Playing {
            return Ok(None);
        }
        Ok(Some(playback_state_requires_rewind(self.run.state)))
    }

    /// Starts playback; the watches on the decoders start anew.
    pub fn start_playback(&mut self, now: Instant)
        ensures
            final(self).run == old(self).run.playing(now),
            final(self).pending_frame == old(self).pending_frame,
            final(self).pending_audio == old(self).pending_audio,
            final(self).pending_subtitle == old(self).pending_subtitle,
            final(self).session.rebased(old(self).session, now),
    {
        self.run.start_playback(now);
        self.session.rebase_decoder_progress_watchdogs(now);
    }

    /// Has the watches on the decoders and on the audio output start anew.
    pub fn rebase_progress_watchdogs(&mut self, now: Instant)
        ensures
            final(self).session.rebased(old(self).session, now),
            final(self).run == old(self).run.rebased(now),
            final(self).pending_frame == old(self).pending_frame,
            final(self).pending_audio == old(self).pending_audio,
            final(self).pending_subtitle == old(self).pending_subtitle,
    {
        self.session.rebase_decoder_progress_watchdogs(now);
        if self.run.audio_stall.started_at.is_some() {
            self.run.audio_stall.started_at = Some(now);
        }
    }

    /// Throws away what the engine itself holds, before a decoder is touched.
    pub fn discard_pending_frames_for_seek(&mut self)
        ensures
            final(self).session == old(self).session,
            final(self).pending_frame is None,
            final(self).pending_audio is None,
            final(self).pending_subtitle is None,
            final(self).run == (EngineState { audio_stall: no_audio_stall(), ..old(self).run }),
    {
        self.pending_frame = None;
        self.pending_audio = None;
        self.pending_subtitle = None;
        self.run.reset_audio_eof_stall_state();
    }

    /// Goes on with the picture that the session brought. Without one, and with the medium read out,
    /// playback is at its end once the audio is heard out; without an output the audio is thrown
    /// away.
    pub fn finish_fetch(&mut self, frame: Option<DecodedVideoFrame>, reading: ClockReading) -> (r:
        FetchStep)
        requires
            old(self).pending_frame is None,
        ensures
            final(self).pending_frame == frame,
            final(self).pending_subtitle == old(self).pending_subtitle,
            final(self).session.same_but_audio(old(self).session),
            final(self).session.audio.route == old(self).session.audio.route,
            ({
                let run = old(self).run;
                let over = frame is None && old(self).session.drain.eof;
                let waiting = audio_waiting(old(self).pending_audio, old(self).session.audio.frames@);
                let since = if run.audio_stall.started_at is None || waiting
                    < run.audio_stall.pending_frames {
                    reading.now
                } else {
                    run.audio_stall.started_at->0
                };
                let blocked = over && run.audio_output_active && waiting > 0;
                &&& !over ==> final(self).run == run && final(self).pending_audio
                    == old(self).pending_audio && final(self).session.audio.frames
                    == old(self).session.audio.frames && r is Done
                &&& over && !run.audio_output_active ==> final(self).pending_audio is None
                    && final(self).session.audio.frames@.len() == 0
                &&& over && run.audio_output_active ==> final(self).pending_audio
                    == old(self).pending_audio && final(self).session.audio.frames
                    == old(self).session.audio.frames
                &&& blocked ==> final(self).run == (EngineState {
                    audio_stall: AudioEofStall {
                        started_at: Some(since),
                        pending_frames: waiting as usize,
                        logged: true,
                    },
                    ..run
                })
                &&& blocked ==> (r is AudioStalled <==> reading.now.since(since).nanos
                    >= AUDIO_EOF_OUTPUT_STALL_TIMEOUT_NANOS)
                &&& r is AudioStalled ==> blocked && r->AudioStalled_0 == (AudioStallReport {
                    pending_frames: waiting as usize,
                    stalled_for: reading.now.since(since),
                })
                &&& over && !blocked ==> r is Done && final(self).run == (
                if old(self).session.video.frames@.len() > 0 {
                    EngineState { audio_stall: no_audio_stall(), ..run }
                } else {
                    run.ended(old(self).session.info.duration, reading)
                })
            }),
    {
        self.pending_frame = frame;
        if self.pending_frame.is_some() || !self.session.is_eof() {
            return FetchStep::Done;
        }
        if !self.run.audio_output_active {
            self.pending_audio = None;
            let _ = self.session.audio.discard();
        }
        let queued_audio: usize = self.session.audio.frames.len();
        let pending_audio = self.pending_audio.is_some();
        if self.run.audio_output_active && (pending_audio || queued_audio > 0) {
            let waiting: usize = if pending_audio {
                queued_audio.saturating_add(1)
            } else {
                queued_audio
            };
            return match self.run.observe_audio_eof_stall(waiting, reading.now) {
                Ok(()) => FetchStep::Done,
                Err(report) => FetchStep::AudioStalled(report),
            };
        }
        self.run.reset_audio_eof_stall_state();
        if !playback_eof_ready(
            self.session.is_eof(),
            self.pending_frame.is_some(),
            self.session.video.frames.len() > 0,
            self.run.audio_output_active,
            self.pending_audio.is_some(),
            self.session.audio.frames.len() > 0,
        ) {
            return FetchStep::Done;
        }
        self.run.eof = true;
        self.run.state = PlaybackRunState::Ended;
        self.run.buffering = false;
        self.run.buffering_video_pts = None;
        let media_time = match self.session.info.duration {
            Some(duration) => duration,
            None => self.run.clock.media_time_at(reading),
        };
        self.run.clock.reset(media_time, false, reading.now);
        FetchStep::Done
    }

    /// Where a decoder that takes no packet is replaced, playback starts again from here, and goes
    /// on if it was playing.
    pub fn stall_replay(&self, reading: ClockReading) -> (r: (Duration, bool))
        ensures
            r.0 == (match self.run.video_seek_floor {
                Some(target) => target,
                None => self.run.clock.shows(reading),
            }),
            r.1 == (self.run.state == PlaybackRunState::Playing),
    {
        let position = match self.run.video_seek_floor {
            Some(target) => target,
            None => self.run.clock.media_time_at(reading),
        };
        (position, self.run.state == PlaybackRunState::Playing)
    }

    /// Begins a tick, where a picture is looked for at all.
    pub fn begin_tick(&self) -> (r: Option<TickTask>)
        ensures
            r == (match self.run.looks_for_picture() {
                Some(paused_preview) => Some(
                    TickTask { paused_preview, consecutive_drops: 0, preroll_drops: 0 },
                ),
                None => None,
            }),
    {
        let paused_preview = self.run.state == PlaybackRunState::Paused
            && self.run.paused_seek_frame_pending;
        if self.run.state != PlaybackRunState::Playing && !paused_preview {
            return None;
        }
        if self.run.buffering && self.run.buffering_video_pts.is_some() {
            return None;
        }
        Some(TickTask { paused_preview, consecutive_drops: 0, preroll_drops: 0 })
    }

    /// Whether the session is asked for a picture.
    pub fn needs_frame(&self) -> (r: bool)
        ensures
            r == (self.pending_frame is None && !self.run.eof),
    {
        self.pending_frame.is_none() && !self.run.eof
    }

    /// Goes on with a tick when the session has been asked. A picture before the target of a seek
    /// is thrown away, within a budget; the first behind it starts the clock; a late one is thrown
    /// away, but not too many in a row; and one that is not due yet waits.
    pub fn tick_frame(&mut self, task: TickTask, elapsed: Duration, reading: ClockReading) -> (r: TickStep)
        ensures
            final(self).session == old(self).session,
            final(self).pending_audio == old(self).pending_audio,
            final(self).pending_subtitle == old(self).pending_subtitle,
            old(self).pending_frame is None ==> r is Nothing && final(self).pending_frame is None
                && final(self).run == (if task.paused_preview && old(self).run.eof {
                EngineState { paused_seek_frame_pending: false, ..old(self).run }
            } else {
                old(self).run
            }),
            old(self).pending_frame is Some ==> ticked(
                old(self).run,
                final(self).run,
                old(self).pending_frame->0,
                final(self).pending_frame,
                task,
                elapsed,
                reading,
                r,
            ),
    {
        let pts = match &self.pending_frame {
            None => {
                if task.paused_preview && self.run.eof {
                    self.run.paused_seek_frame_pending = false;
                }
                return TickStep::Nothing;
            },
            Some(frame) => frame.frame.media_pts(),
        };
        if self.run.should_drop_video_seek_preroll(pts) {
            self.pending_frame = None;
            let drops: usize = task.preroll_drops.saturating_add(1);
            self.run.preroll.dropped_frames = self.run.preroll.dropped_frames.saturating_add(1);
            if seek_preroll_budget_exhausted(
                drops,
                self.run.timing.video_scheduler.max_consecutive_drops,
                elapsed,
            ) {
                let recent = match self.run.preroll.last_log {
                    Some(last) => reading.now.saturating_duration_since(last).as_nanos()
                        < SEEK_PREROLL_LOG_INTERVAL_NANOS,
                    None => false,
                };
                if !recent {
                    self.run.preroll.last_log = Some(reading.now);
                }
                return TickStep::Nothing;
            }
            return TickStep::Continue(
                TickTask {
                    paused_preview: task.paused_preview,
                    consecutive_drops: task.consecutive_drops,
                    preroll_drops: drops,
                },
            );
        }
        let first = self.run.last_presented_pts.is_none();
        let mut reading = reading;
        if first && self.run.waiting_for_first_frame {
            let start = match pts {
                Some(pts) => pts,
                None => Duration::zero(),
            };
            self.run.clock.sync_to(start, reading.now, PlaybackClockSource::Wall);
            if !self.run.buffering {
                self.run.clock.play(reading.now);
            }
            self.run.waiting_for_first_frame = false;
            reading = ClockReading { now: reading.now, advance: Duration::zero() };
        }
        let media_time = self.run.clock.media_time_at(reading);
        if self.run.buffering {
            let frame = self.pending_frame.take();
            self.run.last_presented_pts = pts;
            self.run.buffering_video_pts = match pts {
                Some(pts) => Some(pts),
                None => Some(media_time),
            };
            return match frame {
                Some(frame) => TickStep::Present(
                    TimedVideoFrame {
                        frame: frame.frame,
                        decode_backend: frame.decode_backend,
                        pts,
                        media_time,
                        late_by: None,
                    },
                ),
                None => TickStep::Nothing,
            };
        }
        let decision = self.run.timing.video_scheduler.schedule(pts, media_time, first);
        match decision {
            VideoFrameDecision::Wait { .. } => TickStep::Nothing,
            VideoFrameDecision::Drop { late_by } => {
                if task.consecutive_drops < self.run.timing.video_scheduler.max_consecutive_drops {
                    self.pending_frame = None;
                    return TickStep::Continue(
                        TickTask {
                            paused_preview: task.paused_preview,
                            consecutive_drops: task.consecutive_drops + 1,
                            preroll_drops: task.preroll_drops,
                        },
                    );
                }
                TickStep::Due(task, Presentation { pts, media_time, late_by: Some(late_by) })
            },
            VideoFrameDecision::Present { late_by } => TickStep::Due(
                task,
                Presentation { pts, media_time, late_by },
            ),
        }
    }

    /// Whether the picture that waited was shown, `before` being the engine before it.
    pub open spec fn presented(
        self,
        before: VideoPlaybackEngine,
        task: TickTask,
        presentation: Presentation,
        r: Option<TimedVideoFrame>,
    ) -> bool {
        &&& self.session == before.session
        &&& self.pending_audio == before.pending_audio
        &&& self.pending_subtitle == before.pending_subtitle
        &&& self.pending_frame is None
        &&& before.pending_frame is None ==> r is None && self.run == before.run
        &&& before.pending_frame is Some ==> {
            &&& r == Some(
                TimedVideoFrame {
                    frame: before.pending_frame->0.frame,
                    decode_backend: before.pending_frame->0.decode_backend,
                    pts: presentation.pts,
                    media_time: presentation.media_time,
                    late_by: presentation.late_by,
                },
            )
            &&& self.run == (EngineState {
                last_presented_pts: presentation.pts,
                paused_seek_frame_pending: before.run.paused_seek_frame_pending
                    && !task.paused_preview,
                ..before.run
            })
        }
    }

    /// Shows the picture that is due.
    pub fn present(&mut self, task: TickTask, presentation: Presentation) -> (r: Option<
        TimedVideoFrame,
    >)
        ensures
            final(self).presented(*old(self), task, presentation, r),
    {
        match self.pending_frame.take() {
            None => None,
            Some(frame) => {
                self.run.last_presented_pts = presentation.pts;
                if task.paused_preview {
                    self.run.paused_seek_frame_pending = false;
                }
                Some(
                    TimedVideoFrame {
                        frame: frame.frame,
                        decode_backend: frame.decode_backend,
                        pts: presentation.pts,
                        media_time: presentation.media_time,
                        late_by: presentation.late_by,
                    },
                )
            },
        }
    }

    /// Offers a run of audio to the engine; `length` is the length in time of the frames that the
    /// target of a seek cuts off. What lies before the target is thrown away.
    pub fn offer_audio(&mut self, frame: PcmAudioFrame, length: Duration) -> (r: bool)
        requires
            old(self).run.well_formed(),
            old(self).pending_audio is None,
        ensures
            r == crate::pcm::survives_floor(old(self).run.audio_seek_floor, frame),
            final(self).session == old(self).session,
            final(self).pending_frame == old(self).pending_frame,
            final(self).pending_subtitle == old(self).pending_subtitle,
            final(self).run == (EngineState {
                audio_seek_floor: if r {
                    None
                } else {
                    old(self).run.audio_seek_floor
                },
                ..old(self).run
            }),
            final(self).pending_audio is Some <==> r,
            r ==> crate::pcm::passed_floor(
                old(self).run.audio_seek_floor,
                frame,
                final(self).pending_audio->0,
                length,
            ),
    {
        let mut frame = frame;
        if keep_audio_frame_after_seek_floor(&mut self.run.audio_seek_floor, &mut frame, length) {
            self.pending_audio = Some(frame);
            return true;
        }
        false
    }

    /// Whether the session is asked for a run of audio.
    pub fn needs_audio(&self) -> (r: bool)
        ensures
            r == (self.run.state == PlaybackRunState::Playing && self.pending_audio is None
                && !self.run.eof),
    {
        self.run.state == PlaybackRunState::Playing && self.pending_audio.is_none()
            && !self.run.eof
    }

    /// Whether the run of audio that waits is due: it may go out a little ahead of its time.
    pub open spec fn audio_due(self, media_time: Duration) -> bool {
        &&& self.run.state == PlaybackRunState::Playing
        &&& self.pending_audio is Some
        &&& !(self.pending_audio->0.pts is Some && self.pending_audio->0.pts->0.nanos
            > media_time.sum(self.run.timing.audio_lead_time).nanos)
    }

    /// Hands out the run of audio that is due.
    pub fn take_due_audio(&mut self, reading: ClockReading) -> (r: Option<TimedAudioFrame>)
        ensures
            ({
                let media_time = old(self).run.clock.shows(reading);
                let due = old(self).audio_due(media_time);
                &&& r is Some <==> due
                &&& !due ==> *final(self) == *old(self)
                &&& due ==> final(self).session == old(self).session && final(self).run
                    == old(self).run && final(self).pending_frame == old(self).pending_frame
                    && final(self).pending_subtitle == old(self).pending_subtitle
                    && final(self).pending_audio is None && r->0 == (TimedAudioFrame {
                    frame: old(self).pending_audio->0,
                    pts: old(self).pending_audio->0.pts,
                    media_time,
                    late_by: late(old(self).pending_audio->0.pts, media_time),
                })
            }),
    {
        if self.run.state != PlaybackRunState::Playing {
            return None;
        }
        let media_time = self.run.clock.media_time_at(reading);
        let pts = match &self.pending_audio {
            None => {
                return None;
            },
            Some(frame) => frame.pts,
        };
        if let Some(pts) = pts {
            let ahead = media_time.saturating_add(self.run.timing.audio_lead_time);
            if pts.nanos > ahead.nanos {
                return None;
            }
        }
        match self.pending_audio.take() {
            None => None,
            Some(frame) => Some(
                TimedAudioFrame { frame, pts, media_time, late_by: lateness_of(pts, media_time) },
            ),
        }
    }

    /// Takes a run of audio back that the output had no room for.
    pub fn restore_pending_audio_frame(&mut self, frame: PcmAudioFrame)
        requires
            old(self).pending_audio is None,
        ensures
            final(self).session == old(self).session,
            final(self).run == old(self).run,
            final(self).pending_frame == old(self).pending_frame,
            final(self).pending_subtitle == old(self).pending_subtitle,
            final(self).pending_audio == Some(frame),
    {
        self.pending_audio = Some(frame);
    }

    /// Whether the session is asked for a subtitle.
    pub fn needs_subtitle(&self) -> (r: bool)
        ensures
            r == (self.run.state == PlaybackRunState::Playing && self.pending_subtitle is None
                && !self.run.eof),
    {
        self.run.state == PlaybackRunState::Playing && self.pending_subtitle.is_none()
            && !self.run.eof
    }

    /// Hands out the subtitle that is due.
    pub fn take_due_subtitle(&mut self, media_time: Duration) -> (r: Option<TimedSubtitleFrame>)
        ensures
            final(self).session == old(self).session,
            final(self).run == old(self).run,
            final(self).pending_frame == old(self).pending_frame,
            final(self).pending_audio == old(self).pending_audio,
            ({
                let waiting = old(self).pending_subtitle;
                let due = old(self).run.state == PlaybackRunState::Playing && waiting is Some && !(
                waiting->0.start is Some && waiting->0.start->0.nanos > media_time.nanos);
                &&& r is Some <==> due
                &&& !due ==> final(self).pending_subtitle == waiting
                &&& due ==> final(self).pending_subtitle is None && r->0 == (TimedSubtitleFrame {
                    frame: waiting->0,
                    pts: waiting->0.start,
                    media_time,
                    late_by: late(waiting->0.start, media_time),
                })
            }),
    {
        if self.run.state != PlaybackRunState::Playing {
            return None;
        }
        let pts = match &self.pending_subtitle {
            None => {
                return None;
            },
            Some(frame) => frame.start,
        };
        if let Some(pts) = pts {
            if pts.nanos > media_time.nanos {
                return None;
            }
        }
        match self.pending_subtitle.take() {
            None => None,
            Some(frame) => Some(
                TimedSubtitleFrame { frame, pts, media_time, late_by: lateness_of(pts, media_time) },
            ),
        }
    }

    /// Begins to deal with a picture that was refused: where playback would start again. A picture
    /// that waits and came from the decoder in question is thrown away.
    pub fn begin_frame_failure(&mut self, failure: &VideoFrameImportFailure, reading: ClockReading) -> (r:
        FailureTask)
        ensures
            final(self).session == old(self).session,
            final(self).run == old(self).run,
            final(self).pending_audio == old(self).pending_audio,
            final(self).pending_subtitle == old(self).pending_subtitle,
            ({
                let active = match old(self).session.video.backend() {
                    Some(backend) => backend,
                    None => DecoderBackend::Software,
                };
                let concerns = failure.decode_backend == active && (failure.decode_backend
                    != DecoderBackend::MediaCodec || failure.mediacodec_surface
                    == old(self).session.video.on_surface());
                &&& final(self).pending_frame == (if concerns {
                    None
                } else {
                    old(self).pending_frame
                })
                &&& r.replay_position == (match old(self).run.last_presented_pts {
                    Some(pts) => pts,
                    None => old(self).run.clock.shows(reading),
                })
                &&& r.resume == (old(self).run.state == PlaybackRunState::Playing)
                &&& r.requires_replay == (old(self).session.drain.demux_eof
                    || old(self).session.drain.eof || old(self).session.video.backend() == Some(
                    DecoderBackend::VideoToolbox,
                ) || old(self).session.video.backend() == Some(DecoderBackend::AvCodec))
            }),
    {
        let requires_replay = self.session.decoder_fallback_requires_replay();
        let replay_position = match self.run.last_presented_pts {
            Some(pts) => pts,
            None => self.run.clock.media_time_at(reading),
        };
        let resume = self.run.state == PlaybackRunState::Playing;
        if self.session.video_import_failure_matches_active_decoder(failure) {
            self.pending_frame = None;
        }
        FailureTask { requires_replay, replay_position, resume }
    }

    /// Ends it when the decoder was replaced: playback is no longer at its end, and starts again
    /// from an earlier place where that is called for.
    pub fn finish_decoder_fallback(&mut self, task: FailureTask) -> (r: Option<(Duration, bool)>)
        ensures
            final(self).same_but_run(*old(self)),
            final(self).run == (EngineState { eof: false, ..old(self).run }),
            r == (if task.requires_replay {
                Some((task.replay_position, task.resume))
            } else {
                None
            }),
    {
        self.run.eof = false;
        if !task.requires_replay {
            return None;
        }
        Some((task.replay_position, task.resume))
    }

    /// Holds video back, while nobody looks: the picture that waits is thrown away.
    pub fn suspend_video(&mut self)
        ensures
            final(self).pending_frame is None,
            final(self).pending_audio == old(self).pending_audio,
            final(self).pending_subtitle == old(self).pending_subtitle,
            final(self).run == old(self).run,
            final(self).session.same_but_video(old(self).session),
            final(self).session.video.suspended(old(self).session.video, true),
    {
        self.pending_frame = None;
        let _ = self.session.video.set_suspended(true);
    }
}

/// How many runs of audio wait for the output.
pub open spec fn audio_waiting(pending: Option<PcmAudioFrame>, queued: Seq<PcmAudioFrame>) -> int {
    let total = queued.len() as int + if pending is Some {
        1int
    } else {
        0int
    };
    if total > usize::MAX { usize::MAX as int } else { total }
}

/// How late something is, where its time has come.
pub open spec fn late(pts: Option<Duration>, media_time: Duration) -> Option<Duration> {
    match pts {
        Some(pts) => crate::schedule::lateness(pts, media_time),
        None => None,
    }
}

fn lateness_of(pts: Option<Duration>, media_time: Duration) -> (r: Option<Duration>)
    ensures
        r == late(pts, media_time),
{
    match pts {
        Some(pts) => media_time.checked_sub(pts),
        None => None,
    }
}

/// What steers playback when the first picture behind a start or a seek has come: the clock stands
/// at that picture, and runs unless data is missing.
pub open spec fn at_first_picture(run: EngineState, pts: Option<Duration>, now: Instant) -> EngineState {
    let start = match pts {
        Some(pts) => pts,
        None => Duration { nanos: 0 },
    };
    let moved = run.clock.moved_to(start, now, PlaybackClockSource::Wall);
    EngineState {
        clock: if run.buffering {
            moved
        } else {
            moved.started(now)
        },
        waiting_for_first_frame: false,
        ..run
    }
}

/// Whether a tick did what it should with a picture: `before` and `after` are what steers playback,
/// and `left` the picture that still waits.
pub open spec fn ticked(
    before: EngineState,
    after: EngineState,
    frame: DecodedVideoFrame,
    left: Option<DecodedVideoFrame>,
    task: TickTask,
    elapsed: Duration,
    reading: ClockReading,
    r: TickStep,
) -> bool {
    let pts = frame.frame.shown_at();
    if before.before_target(pts) {
        let drops = crate::pcm::more(task.preroll_drops);
        let spent = crate::playback::preroll_spent(
            drops,
            before.timing.video_scheduler.max_consecutive_drops,
            elapsed,
        );
        let recent = before.preroll.last_log is Some && reading.now.since(
            before.preroll.last_log->0,
        ).nanos < SEEK_PREROLL_LOG_INTERVAL_NANOS;
        &&& left is None
        &&& after == (EngineState {
            preroll: SeekPreroll {
                dropped_frames: crate::video::one_more(before.preroll.dropped_frames),
                last_log: if spent && !recent {
                    Some(reading.now)
                } else {
                    before.preroll.last_log
                },
                ..before.preroll
            },
            ..before
        })
        &&& spent ==> r is Nothing
        &&& !spent ==> r == TickStep::Continue(TickTask { preroll_drops: drops, ..task })
    } else {
        let reached = if before.video_seek_floor is None {
            before
        } else {
            EngineState { video_seek_floor: None, preroll: no_preroll(), ..before }
        };
        let first = reached.last_presented_pts is None;
        let starts = first && reached.waiting_for_first_frame;
        let run = if starts {
            at_first_picture(reached, pts, reading.now)
        } else {
            reached
        };
        let media_time = run.clock.shows(
            if starts {
                reading.at_anchor()
            } else {
                reading
            },
        );
        if run.buffering {
            &&& left is None
            &&& after == (EngineState {
                last_presented_pts: pts,
                buffering_video_pts: match pts {
                    Some(pts) => Some(pts),
                    None => Some(media_time),
                },
                ..run
            })
            &&& r == TickStep::Present(
                TimedVideoFrame {
                    frame: frame.frame,
                    decode_backend: frame.decode_backend,
                    pts,
                    media_time,
                    late_by: None,
                },
            )
        } else {
            let drops = task.consecutive_drops < run.timing.video_scheduler.max_consecutive_drops;
            &&& after == run
            &&& match run.timing.video_scheduler.decides(pts, media_time, first) {
                VideoFrameDecision::Wait { .. } => r is Nothing && left == Some(frame),
                VideoFrameDecision::Drop { late_by } => if drops {
                    left is None && r == TickStep::Continue(
                        TickTask {
                            consecutive_drops: (task.consecutive_drops + 1) as usize,
                            ..task
                        },
                    )
                } else {
                    left == Some(frame) && r == TickStep::Due(
                        task,
                        Presentation { pts, media_time, late_by: Some(late_by) },
                    )
                },
                VideoFrameDecision::Present { late_by } => left == Some(frame) && r
                    == TickStep::Due(task, Presentation { pts, media_time, late_by }),
            }
        }
    }
}

/// What is done to playback does not change the speed that was chosen, and not how it is timed
/// either: only setting the rate does.
pub proof fn law_playback_keeps_its_speed(
    run: EngineState,
    position: Duration,
    state: PlaybackRunState,
    length: Option<Duration>,
    snapshot: AudioClockSnapshot,
    reading: ClockReading,
)
    ensures
        run.playing(reading.now).clock.rate == run.clock.rate,
        run.paused(reading).clock.rate == run.clock.rate,
        run.stopped(reading.now).clock.rate == run.clock.rate,
        run.sought(position, state, reading.now).clock.rate == run.clock.rate,
        run.ended(length, reading).clock.rate == run.clock.rate,
        run.disciplined(snapshot, reading).clock.rate == run.clock.rate,
        at_first_picture(run, length, reading.now).clock.rate == run.clock.rate,
        run.playing(reading.now).timing == run.timing,
        run.paused(reading).timing == run.timing,
        run.stopped(reading.now).timing == run.timing,
        run.sought(position, state, reading.now).timing == run.timing,
        run.ended(length, reading).timing == run.timing,
        run.disciplined(snapshot, reading).timing == run.timing,
        run.playing(reading.now).audio_output_active == run.audio_output_active,
        run.paused(reading).audio_output_active == run.audio_output_active,
        run.stopped(reading.now).audio_output_active == run.audio_output_active,
        run.sought(position, state, reading.now).audio_output_active == run.audio_output_active,
        run.ended(length, reading).audio_output_active == run.audio_output_active,
{
}

/// Another rate leaves playback where it is: the clock shows the same, runs as it did, and nothing
/// else changes.
pub proof fn law_another_speed_starts_from_here(run: EngineState, rate: u64, reading: ClockReading)
    requires
        run.clock.base_media_time.valid(),
    ensures
        run.at_rate(rate, reading).clock.shows(reading.at_anchor()) == run.clock.shows(reading),
        run.at_rate(rate, reading).clock.anchor is Some <==> run.clock.anchor is Some,
        0 < rate < 0x7ff0_0000_0000_0000 ==> run.at_rate(rate, reading).clock.rate == rate,
        (EngineState { clock: run.clock, ..run.at_rate(rate, reading) }) == run,
{
}

/// Starting and pausing do not move the clock. Once a picture has been shown, a started clock runs;
/// before that it waits for the first one. A paused clock stands still.
pub proof fn law_play_and_pause_do_not_jump(run: EngineState, reading: ClockReading, later: ClockReading)
    requires
        run.clock.base_media_time.valid(),
    ensures
        ({
            let played = run.playing(reading.now);
            &&& played.state == PlaybackRunState::Playing
            &&& !played.buffering
            &&& run.last_presented_pts is Some ==> played.clock.anchor is Some
                && !played.waiting_for_first_frame
            &&& run.last_presented_pts is None ==> played.clock == run.clock
                && played.waiting_for_first_frame
            &&& run.clock.anchor is None ==> played.clock.shows(reading.at_anchor())
                == run.clock.shows(reading)
            &&& run.clock.anchor is Some ==> played.clock == run.clock
            &&& played.last_presented_pts == run.last_presented_pts
            &&& played.video_seek_floor == run.video_seek_floor
            &&& played.audio_seek_floor == run.audio_seek_floor
            &&& played.eof == run.eof
        }),
        run.state == PlaybackRunState::Playing ==> {
            let paused = run.paused(reading);
            &&& paused.state == PlaybackRunState::Paused
            &&& paused.clock.anchor is None
            &&& paused.clock.shows(later) == run.clock.shows(reading)
            &&& paused.last_presented_pts == run.last_presented_pts
            &&& paused.video_seek_floor == run.video_seek_floor
            &&& paused.audio_seek_floor == run.audio_seek_floor
            &&& paused.eof == run.eof
        },
        run.state != PlaybackRunState::Playing ==> run.paused(reading) == run,
{
}

/// Behind a seek nothing has been shown and nothing has ended; what lies before the target is not
/// wanted, of the pictures and of the sound.
pub proof fn law_a_seek_starts_anew(
    run: EngineState,
    position: Duration,
    state: PlaybackRunState,
    now: Instant,
    pts: Duration,
)
    ensures
        ({
            let sought = run.sought(position, state, now);
            &&& sought.state == state
            &&& sought.clock.anchor is None
            &&& sought.clock.base_media_time == position
            &&& sought.last_presented_pts is None
            &&& !sought.eof && !sought.buffering
            &&& sought.before_target(Some(pts)) <==> pts.nanos < position.nanos
            &&& !sought.before_target(None)
            &&& sought.audio_seek_floor == Some(position)
            &&& sought.waiting_for_first_frame <==> state == PlaybackRunState::Playing
            &&& sought.paused_seek_frame_pending <==> state == PlaybackRunState::Paused
        }),
        ({
            let stopped = run.stopped(now);
            &&& stopped.state == PlaybackRunState::Stopped
            &&& stopped.clock.anchor is None
            &&& stopped.clock.base_media_time.nanos == 0
            &&& stopped.last_presented_pts is None
            &&& !stopped.eof && !stopped.buffering && !stopped.waiting_for_first_frame
            &&& !stopped.paused_seek_frame_pending
            &&& !stopped.before_target(Some(pts))
        }),
{
}

/// Playback that has come to its end stands at the length of the medium, or where it was read out if
/// that is not known.
pub proof fn law_the_end_stands_at_the_length(
    run: EngineState,
    length: Option<Duration>,
    reading: ClockReading,
    later: ClockReading,
)
    ensures
        ({
            let ended = run.ended(length, reading);
            &&& ended.state == PlaybackRunState::Ended
            &&& ended.eof
            &&& !ended.buffering
            &&& ended.clock.anchor is None
            &&& length is Some ==> ended.clock.shows(later) == length->0
            &&& length is None ==> ended.clock.shows(later) == run.clock.shows(reading)
            &&& ended.looks_for_picture() is None
        }),
{
}

/// The clock follows the audio output only while playback runs at media speed and does not wait for
/// data, and an output that lies more than a quarter of a second behind is not followed. Where it
/// follows, it comes no farther from the output.
pub proof fn law_the_clock_follows_the_output(
    run: EngineState,
    snapshot: AudioClockSnapshot,
    reading: ClockReading,
)
    requires
        run.clock.shows(reading).nanos <= u64::MAX,
        snapshot.media_time is Some ==> snapshot.media_time->0.nanos <= u64::MAX,
    ensures
        ({
            let shown = run.clock.shows(reading);
            let after = run.disciplined(snapshot, reading);
            let may = run.state == PlaybackRunState::Playing && !run.buffering
                && crate::rate::near_unit(run.clock.rate) && snapshot.media_time is Some
                && snapshot.media_time->0.nanos + 250_000_000 >= shown.nanos;
            &&& !may ==> after == run
            &&& (EngineState { clock: run.clock, ..after }) == run
            &&& may ==> {
                let output = snapshot.media_time->0;
                let moved = after.clock.shows(
                    if after.clock.anchor == run.clock.anchor {
                        reading
                    } else {
                        reading.at_anchor()
                    },
                );
                let distance = crate::clock::apart(output, shown);
                let config = run.timing.audio_sync;
                &&& after.clock.source == PlaybackClockSource::Audio
                &&& config.enabled && distance > config.deadband.nanos && distance > 0
                    && run.clock.anchor is Some ==> {
                    let then = after.clock.shows(reading.at_anchor());
                    &&& distance >= config.snap_threshold.nanos ==> then == output
                    &&& config.max_correction_per_frame.nanos > 0 ==> crate::clock::apart(
                        output,
                        then,
                    ) < distance
                }
            }
        }),
{
}

/// What a tick makes of a picture at or behind the target of a seek, where playback does not wait for
/// data: one that is more than the lead ahead of the clock waits, one that is later than the tolerance
/// is dropped while drops are left, and any other is due. The first picture is due whatever its time.
pub proof fn law_a_tick_shows_what_is_due(
    before: EngineState,
    after: EngineState,
    frame: DecodedVideoFrame,
    left: Option<DecodedVideoFrame>,
    task: TickTask,
    elapsed: Duration,
    reading: ClockReading,
    step: TickStep,
    pts: Duration,
)
    requires
        ticked(before, after, frame, left, task, elapsed, reading, step),
        frame.frame.shown_at() == Some(pts),
        before.video_seek_floor is None || before.video_seek_floor->0.nanos <= pts.nanos,
        !before.buffering,
        pts.valid(),
        before.clock.shows(reading).valid(),
        before.timing.video_scheduler.lead_time.valid(),
    ensures
        after.video_seek_floor is None,
        after.timing == before.timing,
        after.last_presented_pts == before.last_presented_pts,
        after.state == before.state,
        before.last_presented_pts is Some ==> {
            let shown = before.clock.shows(reading).nanos;
            let rule = before.timing.video_scheduler;
            &&& after.clock == before.clock
            &&& pts.nanos > shown + rule.lead_time.nanos ==> step is Nothing && left == Some(frame)
            &&& shown > pts.nanos + rule.drop_tolerance.nanos && task.consecutive_drops
                < rule.max_consecutive_drops ==> left is None && step is Continue
                && step->Continue_0.consecutive_drops == task.consecutive_drops + 1
            &&& pts.nanos <= shown + rule.lead_time.nanos && (shown <= pts.nanos
                + rule.drop_tolerance.nanos || task.consecutive_drops >= rule.max_consecutive_drops)
                ==> left == Some(frame) && step is Due && step->Due_1.pts == Some(pts)
                && step->Due_1.media_time.nanos == shown
        },
        before.last_presented_pts is None ==> left == Some(frame) && step is Due && step->Due_1.pts
            == Some(pts),
        before.last_presented_pts is None && before.waiting_for_first_frame ==> after.clock.anchor
            is Some && after.clock.base_media_time == pts && step->Due_1.media_time == pts
            && !after.waiting_for_first_frame,
{
}

/// A run of audio is due once the clock, with the lead that audio has, has reached it; one without a
/// time is due at once. Nothing is due while playback does not run.
pub proof fn law_audio_is_due_with_its_lead(engine: VideoPlaybackEngine, media_time: Duration)
    requires
        media_time.valid(),
        engine.run.timing.audio_lead_time.valid(),
        engine.pending_audio is Some && engine.pending_audio->0.pts is Some
            ==> engine.pending_audio->0.pts->0.valid(),
    ensures
        engine.run.state != PlaybackRunState::Playing ==> !engine.audio_due(media_time),
        engine.pending_audio is None ==> !engine.audio_due(media_time),
        engine.run.state == PlaybackRunState::Playing && engine.pending_audio is Some ==> (
        engine.audio_due(media_time) <==> (engine.pending_audio->0.pts is None
            || engine.pending_audio->0.pts->0.nanos <= media_time.nanos
            + engine.run.timing.audio_lead_time.nanos)),
{
}

/// A tick looks for a picture while playback runs, and while it is paused only for the one of a seek;
/// held playback shows one picture and no more.
pub proof fn law_when_a_picture_is_looked_for(run: EngineState)
    ensures
        run.looks_for_picture() is Some ==> run.state == PlaybackRunState::Playing || (run.state
            == PlaybackRunState::Paused && run.paused_seek_frame_pending),
        run.state == PlaybackRunState::Playing && !run.buffering ==> run.looks_for_picture()
            == Some(false),
        run.state == PlaybackRunState::Paused && run.paused_seek_frame_pending && !run.buffering
            ==> run.looks_for_picture() == Some(true),
        run.buffering && run.buffering_video_pts is Some ==> run.looks_for_picture() is None,
{
}

/// The picture that was shown is the one that waited, with the times that it was due with, and none
/// waits any more.
pub proof fn law_what_is_shown_is_what_waited(
    after: VideoPlaybackEngine,
    before: VideoPlaybackEngine,
    task: TickTask,
    presentation: Presentation,
    shown: Option<TimedVideoFrame>,
)
    requires
        after.presented(before, task, presentation, shown),
        before.pending_frame is Some,
    ensures
        shown is Some,
        shown->0.frame == before.pending_frame->0.frame,
        shown->0.decode_backend == before.pending_frame->0.decode_backend,
        shown->0.pts == presentation.pts,
        shown->0.media_time == presentation.media_time,
        shown->0.late_by == presentation.late_by,
        after.pending_frame is None,
        after.run.last_presented_pts == presentation.pts,
        task.paused_preview ==> !after.run.paused_seek_frame_pending,
        after.run.clock == before.run.clock,
        after.run.state == before.run.state,
        after.session == before.session,
        after.pending_audio == before.pending_audio,
        after.pending_subtitle == before.pending_subtitle,
{
}

/// An output that is switched off takes the sound with it that waits: none of it comes out late when
/// the output is switched on again.
pub proof fn law_sound_without_an_output_is_thrown_away(
    after: VideoPlaybackEngine,
    before: VideoPlaybackEngine,
)
    requires
        after.output_switched(before, false),
        before.run.audio_output_active,
        before.session.audio.route.output_active,
    ensures
        !after.run.audio_output_active,
        !after.session.audio.route.output_active,
        after.pending_audio is None,
        after.session.audio.frames@.len() == 0,
        after.run.clock == before.run.clock,
        after.run.state == before.run.state,
        after.pending_frame == before.pending_frame,
        after.session.video == before.session.video,
{
}

/// A medium that was opened waits at its start, paused, with nothing shown and nothing ended.
pub proof fn law_an_opened_medium_waits_at_its_start(timing: PlaybackTimingConfig, reading: ClockReading)
    ensures
        ({
            let run = EngineState::opened(timing);
            &&& run.state == PlaybackRunState::Paused
            &&& run.clock.shows(reading).nanos == 0
            &&& run.clock.anchor is None
            &&& run.clock.rate == 0x3ff0_0000_0000_0000
            &&& run.timing == timing
            &&& run.audio_output_active
            &&& run.last_presented_pts is None
            &&& !run.eof && !run.buffering && !run.waiting_for_first_frame
            &&& !run.paused_seek_frame_pending
            &&& run.video_seek_floor is None && run.audio_seek_floor is None
            &&& run.looks_for_picture() is None
        }),
{
}

/// Moving the watches to another start of time touches nothing but a watch that runs.
pub proof fn law_rebasing_moves_a_running_watch_only(run: EngineState, now: Instant)
    ensures
        run.audio_stall.started_at is None ==> run.rebased(now) == run,
        run.audio_stall.started_at is Some ==> run.rebased(now).audio_stall.started_at == Some(now),
        run.rebased(now).audio_stall.pending_frames == run.audio_stall.pending_frames,
        (EngineState { audio_stall: run.audio_stall, ..run.rebased(now) }) == run,
{
}

/// Sound is heard where there is an output for it and a track of it.
pub proof fn law_sound_needs_a_track_and_an_output(engine: VideoPlaybackEngine)
    ensures
        engine.hears() ==> engine.run.audio_output_active
            && engine.session.info.selected_audio_track is Some,
        engine.run.audio_output_active && engine.session.info.selected_audio_track is Some
            ==> engine.hears(),
{
}

/// All runs of sound that wait are counted, in the queue and in front of it.
pub proof fn law_all_waiting_sound_is_counted(
    pending: Option<PcmAudioFrame>,
    queued: Seq<PcmAudioFrame>,
)
    requires
        queued.len() < usize::MAX,
    ensures
        pending is Some ==> audio_waiting(pending, queued) == queued.len() + 1,
        pending is None ==> audio_waiting(pending, queued) == queued.len(),
{
}

/// Something is late by what has gone by since its time, and not at all before.
pub proof fn law_late_is_what_has_gone_by(pts: Duration, media_time: Duration)
    ensures
        late(None, media_time) is None,
        late(Some(pts), media_time) is Some <==> media_time.nanos >= pts.nanos,
        media_time.nanos >= pts.nanos ==> pts.nanos + late(Some(pts), media_time)->0.nanos
            == media_time.nanos,
{
}

/// A pause ends the wait for data and for the first picture; only the picture of a seek is still
/// wanted, where it has not come yet.
pub proof fn law_a_pause_ends_every_wait(run: EngineState, reading: ClockReading)
    requires
        run.state == PlaybackRunState::Playing,
    ensures
        !run.paused(reading).buffering,
        run.paused(reading).buffering_video_pts is None,
        !run.paused(reading).waiting_for_first_frame,
        run.paused(reading).paused_seek_frame_pending <==> (run.waiting_for_first_frame
            && run.video_seek_floor is Some),
        run.paused(reading).audio_stall == run.audio_stall,
        run.paused(reading).preroll == run.preroll,
{
}

/// What only steers playback leaves all that is decoded where it is.
pub proof fn law_steering_leaves_what_is_decoded(
    after: VideoPlaybackEngine,
    before: VideoPlaybackEngine,
)
    requires
        after.same_but_run(before),
    ensures
        after.session == before.session,
        after.pending_frame == before.pending_frame,
        after.pending_audio == before.pending_audio,
        after.pending_subtitle == before.pending_subtitle,
{
}

} // verus!
