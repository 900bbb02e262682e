//! When playback runs dry, and when it goes on: what the audio output says, and for how long.
use crate::audio::AudioClockSnapshot;
use crate::clock::{ClockReading, PlaybackClockSource};
use crate::engine::{EngineState, VideoPlaybackEngine};
use crate::playback::PlaybackRunState;
use crate::time::{Duration, Instant};
use vstd::prelude::*;

verus! {

/// Below this much queued audio more is decoded.
pub const AUDIO_PREFILL_LOW_WATER_NANOS: u128 = 350_000_000;

/// For how long what the audio output said counts.
pub const AUDIO_CLOCK_SNAPSHOT_STALE_AFTER_NANOS: u128 = 500_000_000;

/// For how long playback may lack data before it is held.
pub const PLAYBACK_STARVATION_GRACE_NANOS: u128 = 500_000_000;

/// With this much queued audio playback goes on.
pub const PLAYBACK_BUFFER_RECOVERY_AUDIO_NANOS: u128 = 250_000_000;

/// For how long a receiver of audio may have no room.
pub const AUDIO_OUTPUT_BACKPRESSURE_TIMEOUT_NANOS: u128 = 10_000_000_000;

/// What the audio output said last, and when.
#[derive(Clone, Copy, Debug, PartialEq, Eq, Structural)]
pub struct AudioFeed {
    pub snapshot: Option<AudioClockSnapshot>,
    pub observed_at: Option<Instant>,
}

impl AudioFeed {
    pub open spec fn silent() -> AudioFeed {
        AudioFeed { snapshot: None, observed_at: None }
    }

    /// Whether something was heard lately.
    pub open spec fn recent(self, now: Instant) -> bool {
        self.observed_at is Some && now.since(self.observed_at->0).nanos
            < AUDIO_CLOCK_SNAPSHOT_STALE_AFTER_NANOS
    }

    /// What was heard, where that was lately.
    pub open spec fn heard(self, now: Instant) -> Option<AudioClockSnapshot> {
        if self.recent(now) { self.snapshot } else { None }
    }

    pub open spec fn underflow(self) -> Option<u64> {
        match self.snapshot {
            Some(snapshot) => Some(snapshot.underflow_frames),
            None => None,
        }
    }

    fn is_recent(&self, now: Instant) -> (r: bool)
        ensures
            r == self.recent(now),
    {
        match self.observed_at {
            Some(at) => now.saturating_duration_since(at).as_nanos()
                < AUDIO_CLOCK_SNAPSHOT_STALE_AFTER_NANOS,
            None => false,
        }
    }

    fn recent_snapshot(&self, now: Instant) -> (r: Option<AudioClockSnapshot>)
        ensures
            r == self.heard(now),
    {
        if self.is_recent(now) {
            self.snapshot
        } else {
            None
        }
    }

    fn underflow_frames(&self) -> (r: Option<u64>)
        ensures
            r == self.underflow(),
    {
        match self.snapshot {
            Some(snapshot) => Some(snapshot.underflow_frames),
            None => None,
        }
    }
}

/// Whether the audio output has nothing left: its queue is empty, and it either ran out since the
/// last time or had run out already.
pub fn audio_snapshot_is_starved(
    snapshot: AudioClockSnapshot,
    previous_underflow_frames: Option<u64>,
    starvation_pending: bool,
) -> (r: bool)
    ensures
        r == out_of_audio(snapshot, previous_underflow_frames, starvation_pending),
{
    let underflow_advanced = match previous_underflow_frames {
        Some(previous) => snapshot.underflow_frames > previous,
        None => false,
    };
    snapshot.queued_frames == 0 && (underflow_advanced || starvation_pending)
}

pub open spec fn out_of_audio(
    snapshot: AudioClockSnapshot,
    previous_underflow_frames: Option<u64>,
    starvation_pending: bool,
) -> bool {
    snapshot.queued_frames == 0 && (starvation_pending || (previous_underflow_frames is Some
        && snapshot.underflow_frames > previous_underflow_frames->0))
}

/// Where playback goes on, once enough audio is queued again.
pub fn audio_snapshot_recovery_reference(snapshot: AudioClockSnapshot) -> (r: Option<Duration>)
    ensures
        r == recovery_reference(snapshot),
{
    match snapshot.queued_duration {
        Some(queued) => if queued.as_nanos() >= PLAYBACK_BUFFER_RECOVERY_AUDIO_NANOS {
            snapshot.media_time
        } else {
            None
        },
        None => None,
    }
}

pub open spec fn recovery_reference(snapshot: AudioClockSnapshot) -> Option<Duration> {
    if snapshot.queued_duration is Some && snapshot.queued_duration->0.nanos
        >= PLAYBACK_BUFFER_RECOVERY_AUDIO_NANOS {
        snapshot.media_time
    } else {
        None
    }
}

/// What is known of playback that may run dry.
#[derive(Clone, Copy, Debug, PartialEq, Eq, Structural)]
pub struct PlaybackBufferingTracker {
    pub active: bool,
    pub starvation_started_at: Option<Instant>,
    pub last_video_frame_at: Option<Instant>,
    pub last_audio_underflow_frames: Option<u64>,
}

impl PlaybackBufferingTracker {
    pub open spec fn calm() -> PlaybackBufferingTracker {
        PlaybackBufferingTracker {
            active: false,
            starvation_started_at: None,
            last_video_frame_at: None,
            last_audio_underflow_frames: None,
        }
    }

    /// What is known once a picture may have come.
    pub open spec fn seeing(self, produced_video_frame: bool, now: Instant) -> PlaybackBufferingTracker {
        PlaybackBufferingTracker {
            last_video_frame_at: if produced_video_frame {
                Some(now)
            } else {
                self.last_video_frame_at
            },
            ..self
        }
    }

    /// Whether playback lacks data: the audio output has nothing left, or there is no audio and no
    /// picture came for a while, or the first picture has not come yet.
    pub open spec fn starved(
        self,
        run: EngineState,
        has_audio: bool,
        has_video: bool,
        audio: AudioFeed,
        now: Instant,
    ) -> bool {
        ||| has_audio && audio.heard(now) is Some && out_of_audio(
            audio.heard(now)->0,
            self.last_audio_underflow_frames,
            self.starvation_started_at is Some,
        )
        ||| has_video && !has_audio && self.last_video_frame_at is Some && now.since(
            self.last_video_frame_at->0,
        ).nanos >= PLAYBACK_STARVATION_GRACE_NANOS
        ||| run.waiting_for_first_frame
    }

    /// Since when playback lacks data.
    pub open spec fn starved_since(self, now: Instant) -> Instant {
        match self.starvation_started_at {
            Some(since) => since,
            None => now,
        }
    }
}

impl Default for PlaybackBufferingTracker {
    fn default() -> (r: Self)
        ensures
            r == PlaybackBufferingTracker::calm(),
    {
        PlaybackBufferingTracker {
            active: false,
            starvation_started_at: None,
            last_video_frame_at: None,
            last_audio_underflow_frames: None,
        }
    }
}

/// Where held playback goes on, if it can: with audio, where the audio output stands once enough is
/// queued; without, at the picture that was shown.
pub open spec fn goes_on_at(
    run: EngineState,
    has_audio: bool,
    has_video: bool,
    audio: AudioFeed,
    reading: ClockReading,
) -> Option<(Duration, PlaybackClockSource)> {
    let reference = match audio.heard(reading.now) {
        Some(snapshot) => recovery_reference(snapshot),
        None => None,
    };
    if (has_video && run.buffering_video_pts is None) || (has_audio && reference is None) {
        None
    } else if reference is Some {
        Some((reference->0, PlaybackClockSource::Audio))
    } else if run.buffering_video_pts is Some {
        Some((run.buffering_video_pts->0, PlaybackClockSource::Wall))
    } else {
        Some((run.clock.shows(reading), PlaybackClockSource::Wall))
    }
}

/// Whether a look at the data was taken as it should: `run` and `tracker` are what was known, `after`
/// and `left` what became of it, and `told` what the listeners are told.
pub open spec fn looked(
    run: EngineState,
    after: EngineState,
    tracker: PlaybackBufferingTracker,
    left: PlaybackBufferingTracker,
    has_audio: bool,
    has_video: bool,
    audio: AudioFeed,
    produced_video_frame: bool,
    reading: ClockReading,
    told: Option<bool>,
) -> bool {
    let now = reading.now;
    let seen = tracker.seeing(produced_video_frame, now);
    let heard = PlaybackBufferingTracker { last_audio_underflow_frames: audio.underflow(), ..seen };
    if run.state != PlaybackRunState::Playing {
        &&& after == run
        &&& left == PlaybackBufferingTracker::calm()
        &&& told == (if tracker.active {
            Some(false)
        } else {
            None
        })
    } else if tracker.active && !run.buffering {
        &&& after == run
        &&& left == (PlaybackBufferingTracker {
            active: false,
            starvation_started_at: None,
            last_video_frame_at: if produced_video_frame {
                Some(now)
            } else {
                None
            },
            ..heard
        })
        &&& told == Some(false)
    } else if run.buffering {
        match goes_on_at(run, has_audio, has_video, audio, reading) {
            Some(place) => {
                &&& after == (EngineState {
                    clock: run.clock.moved_to(place.0, now, place.1).started(now),
                    buffering: false,
                    buffering_video_pts: None,
                    ..run
                })
                &&& left == (PlaybackBufferingTracker {
                    active: false,
                    starvation_started_at: None,
                    last_video_frame_at: Some(now),
                    ..heard
                })
                &&& told == Some(false)
            },
            None => after == run && left == heard && told is None,
        }
    } else if seen.starved(run, has_audio, has_video, audio, now) {
        let since = seen.starved_since(now);
        if now.since(since).nanos >= PLAYBACK_STARVATION_GRACE_NANOS {
            &&& after == (EngineState {
                clock: run.clock.paused(reading),
                buffering: true,
                buffering_video_pts: None,
                ..run
            })
            &&& left == (PlaybackBufferingTracker {
                active: true,
                starvation_started_at: Some(since),
                ..heard
            })
            &&& told == Some(true)
        } else {
            &&& after == run
            &&& left == (PlaybackBufferingTracker { starvation_started_at: Some(since), ..heard })
            &&& told is None
        }
    } else {
        &&& after == run
        &&& left == (PlaybackBufferingTracker {
            starvation_started_at: None,
            last_video_frame_at: match seen.last_video_frame_at {
                Some(at) => Some(at),
                None => Some(now),
            },
            ..heard
        })
        &&& told is None
    }
}

/// Holds playback that lacks data, lets it go on where data is there again, and says what the
/// listeners are told.
pub fn update_buffering(
    engine: &mut VideoPlaybackEngine,
    tracker: &mut PlaybackBufferingTracker,
    audio: AudioFeed,
    produced_video_frame: bool,
    reading: ClockReading,
) -> (r: Option<bool>)
    ensures
        final(engine).same_but_run(*old(engine)),
        looked(
            old(engine).run,
            final(engine).run,
            *old(tracker),
            *final(tracker),
            old(engine).hears(),
            old(engine).session.info.selected_video_track is Some,
            audio,
            produced_video_frame,
            reading,
            r,
        ),
{
    let now = reading.now;
    if produced_video_frame {
        tracker.last_video_frame_at = Some(now);
    }
    if engine.state() != PlaybackRunState::Playing {
        let ended_buffering = tracker.active;
        *tracker = PlaybackBufferingTracker::default();
        return if ended_buffering {
            Some(false)
        } else {
            None
        };
    }
    let underflow = audio.underflow_frames();
    if tracker.active && !engine.is_buffering() {
        tracker.active = false;
        tracker.starvation_started_at = None;
        tracker.last_video_frame_at = if produced_video_frame {
            Some(now)
        } else {
            None
        };
        tracker.last_audio_underflow_frames = underflow;
        return Some(false);
    }
    let fresh_audio = audio.recent_snapshot(now);
    if engine.is_buffering() {
        let video_ready = !engine.has_video_output() || engine.buffering_video_pts().is_some();
        let audio_reference = match fresh_audio {
            Some(snapshot) => audio_snapshot_recovery_reference(snapshot),
            None => None,
        };
        let audio_ready = !engine.has_audio_output() || audio_reference.is_some();
        if video_ready && audio_ready {
            let reference = match audio_reference {
                Some(reference) => reference,
                None => match engine.buffering_video_pts() {
                    Some(pts) => pts,
                    None => engine.media_time_at(reading),
                },
            };
            let source = if audio_reference.is_some() {
                PlaybackClockSource::Audio
            } else {
                PlaybackClockSource::Wall
            };
            if engine.run.resume_buffering(reference, source, now) {
                tracker.active = false;
                tracker.starvation_started_at = None;
                tracker.last_video_frame_at = Some(now);
                tracker.last_audio_underflow_frames = underflow;
                return Some(false);
            }
        }
        tracker.last_audio_underflow_frames = underflow;
        return None;
    }
    let audio_starved = if engine.has_audio_output() {
        match fresh_audio {
            Some(snapshot) => audio_snapshot_is_starved(
                snapshot,
                tracker.last_audio_underflow_frames,
                tracker.starvation_started_at.is_some(),
            ),
            None => false,
        }
    } else {
        false
    };
    let video_starved = engine.has_video_output() && !engine.has_audio_output() && match tracker.last_video_frame_at {
        Some(last) => now.saturating_duration_since(last).as_nanos()
            >= PLAYBACK_STARVATION_GRACE_NANOS,
        None => false,
    };
    let starved = audio_starved || video_starved || engine.is_waiting_for_first_frame();
    if starved {
        let started = match tracker.starvation_started_at {
            Some(started) => started,
            None => now,
        };
        tracker.starvation_started_at = Some(started);
        if now.saturating_duration_since(started).as_nanos() >= PLAYBACK_STARVATION_GRACE_NANOS
            && engine.run.begin_buffering(reading) {
            tracker.active = true;
            tracker.last_audio_underflow_frames = underflow;
            return Some(true);
        }
    } else {
        tracker.starvation_started_at = None;
        if tracker.last_video_frame_at.is_none() {
            tracker.last_video_frame_at = Some(now);
        }
    }
    tracker.last_audio_underflow_frames = underflow;
    None
}

/// Whether more audio is decoded: while playback plays, and the output either said nothing lately or
/// has little left.
pub fn should_prefill_audio(engine: &VideoPlaybackEngine, audio: AudioFeed, now: Instant) -> (r: bool)
    ensures
        r == (engine.run.state == PlaybackRunState::Playing && (!audio.recent(now)
            || audio.snapshot is None || audio.snapshot->0.queued_duration is None
            || audio.snapshot->0.queued_duration->0.nanos < AUDIO_PREFILL_LOW_WATER_NANOS)),
{
    if !engine.should_prefill_audio() {
        return false;
    }
    if !audio.is_recent(now) {
        return true;
    }
    match audio.snapshot {
        Some(snapshot) => match snapshot.queued_duration {
            Some(queued) => queued.as_nanos() < AUDIO_PREFILL_LOW_WATER_NANOS,
            None => true,
        },
        None => true,
    }
}

/// How long the receiver of audio has had no room.
#[derive(Clone, Copy, Debug, PartialEq, Eq, Structural)]
pub struct AudioOutputBackpressureState {
    pub started_at: Option<Instant>,
    pub polls: u64,
    pub pending_logged: bool,
}

/// What is reported of a receiver of audio that has no room.
#[derive(Clone, Copy, Debug, PartialEq, Eq, Structural)]
pub struct BackpressureReport {
    pub stalled_for: Duration,
    pub polls: u64,
}

impl AudioOutputBackpressureState {
    pub open spec fn relaxed() -> AudioOutputBackpressureState {
        AudioOutputBackpressureState { started_at: None, polls: 0, pending_logged: false }
    }

    /// The state after another try that failed.
    pub open spec fn pressed(self, now: Instant) -> AudioOutputBackpressureState {
        AudioOutputBackpressureState {
            started_at: match self.started_at {
                Some(at) => Some(at),
                None => Some(now),
            },
            polls: crate::video::one_more(self.polls),
            pending_logged: true,
        }
    }

    /// Notes another try that failed; after ten seconds it is reported.
    pub fn observe(&mut self, now: Instant) -> (r: Option<BackpressureReport>)
        ensures
            *final(self) == old(self).pressed(now),
            ({
                let stalled_for = now.since(final(self).started_at->0);
                r == (if stalled_for.nanos < AUDIO_OUTPUT_BACKPRESSURE_TIMEOUT_NANOS {
                    None
                } else {
                    Some(BackpressureReport { stalled_for, polls: final(self).polls })
                })
            }),
    {
        let started_at = match self.started_at {
            Some(at) => at,
            None => now,
        };
        self.started_at = Some(started_at);
        self.polls = self.polls.saturating_add(1);
        self.pending_logged = true;
        let stalled_for = now.saturating_duration_since(started_at);
        if stalled_for.as_nanos() < AUDIO_OUTPUT_BACKPRESSURE_TIMEOUT_NANOS {
            return None;
        }
        Some(BackpressureReport { stalled_for, polls: self.polls })
    }

    pub fn reset(&mut self)
        ensures
            *final(self) == Self::relaxed(),
    {
        self.started_at = None;
        self.polls = 0;
        self.pending_logged = false;
    }
}

impl Default for AudioOutputBackpressureState {
    fn default() -> (r: Self)
        ensures
            r == AudioOutputBackpressureState::relaxed(),
    {
        AudioOutputBackpressureState { started_at: None, polls: 0, pending_logged: false }
    }
}

/// The listeners are told in turn that playback is held and that it goes on: after a look that told
/// them that it is held, the next thing they are told is that it goes on.
pub proof fn law_holding_and_going_on_alternate(
    run: EngineState,
    after: EngineState,
    tracker: PlaybackBufferingTracker,
    left: PlaybackBufferingTracker,
    has_audio: bool,
    has_video: bool,
    audio: AudioFeed,
    produced_video_frame: bool,
    reading: ClockReading,
    told: Option<bool>,
)
    requires
        looked(
            run,
            after,
            tracker,
            left,
            has_audio,
            has_video,
            audio,
            produced_video_frame,
            reading,
            told,
        ),
        run.buffering ==> tracker.active,
    ensures
        after.buffering && after.state == PlaybackRunState::Playing ==> left.active,
        told == Some(true) ==> !tracker.active && left.active,
        told == Some(false) ==> tracker.active && !left.active,
        told is None ==> left.active == tracker.active,
{
}

/// Playback is never held before it has lacked data for the whole grace time.
pub proof fn law_a_short_gap_does_not_hold_playback(
    run: EngineState,
    after: EngineState,
    tracker: PlaybackBufferingTracker,
    left: PlaybackBufferingTracker,
    has_audio: bool,
    has_video: bool,
    audio: AudioFeed,
    produced_video_frame: bool,
    reading: ClockReading,
    told: Option<bool>,
)
    requires
        looked(
            run,
            after,
            tracker,
            left,
            has_audio,
            has_video,
            audio,
            produced_video_frame,
            reading,
            told,
        ),
        !run.buffering,
        after.buffering,
    ensures
        tracker.starvation_started_at is Some,
        reading.now.since(tracker.starvation_started_at->0).nanos
            >= PLAYBACK_STARVATION_GRACE_NANOS,
        tracker.seeing(produced_video_frame, reading.now).starved(
            run,
            has_audio,
            has_video,
            audio,
            reading.now,
        ),
{
}

/// Playback that is held stands where it was, and once it goes on it runs from the place where the
/// sound stands, or without sound from the picture that was shown meanwhile. Neither changes the
/// speed, what has been shown, or whether playback is wanted.
pub proof fn law_held_playback_stands_and_goes_on(
    run: EngineState,
    after: EngineState,
    tracker: PlaybackBufferingTracker,
    left: PlaybackBufferingTracker,
    has_audio: bool,
    has_video: bool,
    audio: AudioFeed,
    produced_video_frame: bool,
    reading: ClockReading,
    told: Option<bool>,
    later: ClockReading,
)
    requires
        looked(
            run,
            after,
            tracker,
            left,
            has_audio,
            has_video,
            audio,
            produced_video_frame,
            reading,
            told,
        ),
        run.clock.base_media_time.valid(),
    ensures
        after.state == run.state,
        after.clock.rate == run.clock.rate,
        after.last_presented_pts == run.last_presented_pts,
        after.timing == run.timing,
        after.video_seek_floor == run.video_seek_floor,
        after.audio_seek_floor == run.audio_seek_floor,
        after.eof == run.eof,
        after.waiting_for_first_frame == run.waiting_for_first_frame,
        told == Some(true) ==> after.buffering && after.clock.anchor is None
            && after.clock.shows(later) == run.clock.shows(reading),
        run.buffering && !after.buffering ==> after.clock.anchor == Some(reading.now)
            && after.buffering_video_pts is None && told == Some(false),
        run.buffering && !after.buffering && has_audio ==> audio.snapshot is Some
            && audio.snapshot->0.media_time == Some(after.clock.base_media_time)
            && audio.snapshot->0.queued_duration is Some
            && audio.snapshot->0.queued_duration->0.nanos >= 250_000_000
            && after.clock.source == PlaybackClockSource::Audio,
        run.buffering && !after.buffering && has_video ==> run.buffering_video_pts is Some,
        run.buffering && !after.buffering && audio.snapshot is None ==> after.clock.source
            == PlaybackClockSource::Wall && (run.buffering_video_pts is Some
            ==> after.clock.base_media_time == run.buffering_video_pts->0) && (
        run.buffering_video_pts is None ==> after.clock.base_media_time == run.clock.shows(reading)),
        told is None ==> after == run,
{
}

/// Held playback goes on as soon as it can: a picture has come where there is video, and the output
/// has told lately that a quarter of a second of sound is queued where there is audio.
pub proof fn law_held_playback_does_not_wait_longer(
    run: EngineState,
    after: EngineState,
    tracker: PlaybackBufferingTracker,
    left: PlaybackBufferingTracker,
    has_audio: bool,
    has_video: bool,
    audio: AudioFeed,
    produced_video_frame: bool,
    reading: ClockReading,
    told: Option<bool>,
)
    requires
        looked(
            run,
            after,
            tracker,
            left,
            has_audio,
            has_video,
            audio,
            produced_video_frame,
            reading,
            told,
        ),
        run.state == PlaybackRunState::Playing,
        run.buffering,
        tracker.active,
        has_video ==> run.buffering_video_pts is Some,
        has_audio ==> audio.snapshot is Some && audio.observed_at is Some
            && audio.observed_at->0.nanos <= reading.now.nanos
            && reading.now.nanos < audio.observed_at->0.nanos + 500_000_000
            && audio.snapshot->0.media_time is Some && audio.snapshot->0.queued_duration is Some
            && audio.snapshot->0.queued_duration->0.nanos >= 250_000_000,
    ensures
        !after.buffering,
        told == Some(false),
        !left.active,
{
}

/// Playback is held once half a second has gone by since it first lacked data: the output that was
/// heard lately ran empty, or there is no sound and no picture came for half a second, or the first
/// picture is still missing. The first look at the lack only remembers it, and a look without one
/// forgets it.
pub proof fn law_playback_is_held_after_half_a_second(
    run: EngineState,
    after: EngineState,
    tracker: PlaybackBufferingTracker,
    left: PlaybackBufferingTracker,
    has_audio: bool,
    has_video: bool,
    audio: AudioFeed,
    reading: ClockReading,
    told: Option<bool>,
)
    requires
        looked(
            run,
            after,
            tracker,
            left,
            has_audio,
            has_video,
            audio,
            false,
            reading,
            told,
        ),
        run.state == PlaybackRunState::Playing,
        !run.buffering,
        !tracker.active,
        reading.now.nanos <= crate::time::MAX_DURATION_NANOS,
    ensures
        ({
            let now = reading.now.nanos;
            let recent = audio.observed_at is Some && now < audio.observed_at->0.nanos
                + 500_000_000;
            let empty = has_audio && recent && audio.snapshot is Some
                && audio.snapshot->0.queued_frames == 0 && (tracker.starvation_started_at is Some
                || (tracker.last_audio_underflow_frames is Some
                && audio.snapshot->0.underflow_frames > tracker.last_audio_underflow_frames->0));
            let blind = has_video && !has_audio && tracker.last_video_frame_at is Some && now
                >= tracker.last_video_frame_at->0.nanos + 500_000_000;
            let lacks = empty || blind || run.waiting_for_first_frame;
            &&& !lacks ==> !after.buffering && left.starvation_started_at is None && told is None
            &&& lacks && tracker.starvation_started_at is None ==> !after.buffering
                && left.starvation_started_at == Some(reading.now)
            &&& lacks && tracker.starvation_started_at is Some ==> left.starvation_started_at
                == tracker.starvation_started_at && (after.buffering <==> now
                >= tracker.starvation_started_at->0.nanos + 500_000_000)
        }),
{
}

/// Each refused try counts, and the time since the first of them runs on.
pub proof fn law_refused_tries_add_up(state: AudioOutputBackpressureState, now: Instant)
    ensures
        state.polls < u64::MAX ==> state.pressed(now).polls == state.polls + 1,
        state.polls == u64::MAX ==> state.pressed(now).polls == state.polls,
        state.started_at is Some ==> state.pressed(now).started_at == state.started_at,
        state.started_at is None ==> state.pressed(now).started_at == Some(now),
{
}

} // verus!
