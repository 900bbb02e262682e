//! The media clock: where playback stands on the media timeline.
use crate::rate::sanitize_playback_rate;
use crate::rate::UNIT_BITS;
use crate::time::{Duration, Instant};
use vstd::prelude::*;

verus! {

#[derive(Clone, Copy, Debug, PartialEq, Eq, Structural)]
pub enum PlaybackClockMode {
    Wall,
    AudioMaster,
}

impl Default for PlaybackClockMode {
    fn default() -> (r: Self)
        ensures
            r == PlaybackClockMode::AudioMaster,
    {
        PlaybackClockMode::AudioMaster
    }
}

/// How far and how fast the media clock follows the audio output.
#[derive(Clone, Copy, Debug, PartialEq, Eq, Structural)]
pub struct AudioSyncConfig {
    pub enabled: bool,
    pub deadband: Duration,
    pub max_correction_per_frame: Duration,
    pub snap_threshold: Duration,
}

impl Default for AudioSyncConfig {
    fn default() -> (r: Self)
        ensures
            r == (AudioSyncConfig {
                enabled: true,
                deadband: Duration { nanos: 5_000_000 },
                max_correction_per_frame: Duration { nanos: 5_000_000 },
                snap_threshold: Duration { nanos: 250_000_000 },
            }),
    {
        AudioSyncConfig {
            enabled: true,
            deadband: Duration::from_millis(5),
            max_correction_per_frame: Duration::from_millis(5),
            snap_threshold: Duration::from_millis(250),
        }
    }
}

#[derive(Clone, Copy, Debug, PartialEq, Eq, Structural)]
pub enum PlaybackClockSource {
    Wall,
    Audio,
    Display,
}

impl Default for PlaybackClockSource {
    fn default() -> (r: Self)
        ensures
            r == PlaybackClockSource::Wall,
    {
        PlaybackClockSource::Wall
    }
}

#[derive(Clone, Copy, Debug, PartialEq, Eq, Structural)]
pub enum ClockCorrectionDirection {
    Neutral,
    Forward,
    Backward,
}

/// What one step of audio discipline found and did.
#[derive(Clone, Copy, Debug, PartialEq, Eq, Structural)]
pub struct ClockCorrection {
    pub source: PlaybackClockSource,
    pub direction: ClockCorrectionDirection,
    pub drift: Duration,
    pub applied: Duration,
    pub snapped: bool,
}

impl ClockCorrection {
    pub fn none(source: PlaybackClockSource) -> (r: Self)
        ensures
            r == no_correction(source),
    {
        ClockCorrection {
            source,
            direction: ClockCorrectionDirection::Neutral,
            drift: Duration::zero(),
            applied: Duration::zero(),
            snapped: false,
        }
    }
}

/// The correction that reports no drift and changes nothing.
pub open spec fn no_correction(source: PlaybackClockSource) -> ClockCorrection {
    ClockCorrection {
        source,
        direction: ClockCorrectionDirection::Neutral,
        drift: Duration { nanos: 0 },
        applied: Duration { nanos: 0 },
        snapped: false,
    }
}

/// A span as a signed number of nanoseconds.
pub open spec fn signed_nanos(duration: Duration) -> int {
    crate::time::min_int(duration.nanos as int, i128::MAX as int)
}

pub fn duration_to_nanos(duration: Duration) -> (r: i128)
    ensures
        r == signed_nanos(duration),
        duration.valid() ==> r == duration.nanos,
{
    if duration.nanos > i128::MAX as u128 {
        i128::MAX
    } else {
        duration.nanos as i128
    }
}

/// The span of a signed number of nanoseconds: nothing below zero, and no more than
/// `u64::MAX` nanoseconds.
pub open spec fn clamped_span(nanos: int) -> Duration {
    Duration { nanos: crate::time::min_int(crate::time::max_int(nanos, 0), u64::MAX as int) as u128 }
}

pub fn nanos_to_duration(nanos: i128) -> (r: Duration)
    ensures
        r == clamped_span(nanos as int),
        r.valid(),
{
    if nanos < 0 {
        Duration { nanos: 0 }
    } else if nanos > u64::MAX as i128 {
        Duration { nanos: u64::MAX as u128 }
    } else {
        Duration { nanos: nanos as u128 }
    }
}

pub fn add_signed_duration(base: Duration, delta_nanos: i128) -> (r: Duration)
    ensures
        r == clamped_span(signed_nanos(base) + delta_nanos),
        r.valid(),
{
    let start: i128 = duration_to_nanos(base);
    if delta_nanos > 0 && start > i128::MAX - delta_nanos {
        nanos_to_duration(i128::MAX)
    } else {
        nanos_to_duration(start + delta_nanos)
    }
}

/// The wall-clock span from `anchor` to `now`, or nothing where `now` is the earlier one.
pub fn elapsed_since(anchor: Instant, now: Instant) -> (r: Duration)
    ensures
        r == now.since(anchor),
        r.valid(),
{
    now.saturating_duration_since(anchor)
}

/// A reading of the monotonic clock for one media clock.
///
/// `advance` is the media time that the media clock gained since its anchor: the
/// wall-clock span [`PlaybackClock::elapsed_at`] scaled by [`PlaybackClock::rate`]. A clock
/// that is parked, or anchored at `now` itself, has gained nothing.
#[derive(Clone, Copy, Debug, PartialEq, Eq, Structural)]
pub struct ClockReading {
    pub now: Instant,
    pub advance: Duration,
}

impl ClockReading {
    /// The same point in time, for a clock that has gained nothing since its anchor.
    pub open spec fn at_anchor(self) -> ClockReading {
        ClockReading { now: self.now, advance: Duration { nanos: 0 } }
    }
}

/// What a media clock shows at one point in time.
#[derive(Clone, Copy, Debug, PartialEq, Eq, Structural)]
pub struct PlaybackClockSnapshot {
    pub media_time: Duration,
    pub source: PlaybackClockSource,
    /// The bits of the rate.
    pub rate: u64,
}

/// A clock on the media timeline: parked at a position, or running from an anchor.
#[derive(Clone, Copy, Debug, PartialEq, Eq, Structural)]
pub struct PlaybackClock {
    pub base_media_time: Duration,
    pub anchor: Option<Instant>,
    /// The bits of the rate.
    pub rate: u64,
    pub source: PlaybackClockSource,
}

/// The drift of a reference from a media time: positive where the reference is ahead.
pub open spec fn drift_of(reference: Duration, current: Duration) -> int {
    signed_nanos(reference) - signed_nanos(current)
}

/// The direction of a drift.
pub open spec fn drift_direction(drift: int) -> ClockCorrectionDirection {
    if drift > 0 {
        ClockCorrectionDirection::Forward
    } else if drift < 0 {
        ClockCorrectionDirection::Backward
    } else {
        ClockCorrectionDirection::Neutral
    }
}

/// The size of a drift, as the correction reports it.
pub open spec fn drift_size(drift: int) -> Duration {
    clamped_span(if drift < 0 { -drift } else { drift })
}

/// What a discipline step reports for a clock that shows `current`.
pub open spec fn correction_for(
    reference: Duration,
    current: Duration,
    source: PlaybackClockSource,
    config: AudioSyncConfig,
) -> ClockCorrection {
    let drift = drift_of(reference, current);
    let size = drift_size(drift);
    if !config.enabled {
        no_correction(source)
    } else if drift == 0 || size.nanos <= config.deadband.nanos {
        ClockCorrection {
            source,
            direction: drift_direction(drift),
            drift: size,
            applied: Duration { nanos: 0 },
            snapped: false,
        }
    } else if size.nanos >= config.snap_threshold.nanos {
        ClockCorrection {
            source,
            direction: drift_direction(drift),
            drift: size,
            applied: size,
            snapped: true,
        }
    } else {
        ClockCorrection {
            source,
            direction: drift_direction(drift),
            drift: size,
            applied: size.shorter(config.max_correction_per_frame),
            snapped: false,
        }
    }
}

/// Whether a discipline step moves the clock.
pub open spec fn correction_moves(
    reference: Duration,
    current: Duration,
    config: AudioSyncConfig,
) -> bool {
    config.enabled && drift_of(reference, current) != 0
        && drift_size(drift_of(reference, current)).nanos > config.deadband.nanos
}

/// Where a discipline step that moves the clock puts it.
pub open spec fn corrected_time(
    reference: Duration,
    current: Duration,
    config: AudioSyncConfig,
) -> Duration {
    let drift = drift_of(reference, current);
    let size = drift_size(drift);
    let applied = signed_nanos(size.shorter(config.max_correction_per_frame));
    if size.nanos >= config.snap_threshold.nanos {
        reference
    } else if drift > 0 {
        clamped_span(signed_nanos(current) + applied)
    } else {
        clamped_span(signed_nanos(current) - applied)
    }
}

/// How far two media times lie apart, in nanoseconds.
pub open spec fn apart(a: Duration, b: Duration) -> int {
    if a.nanos >= b.nanos { a.nanos - b.nanos } else { b.nanos - a.nanos }
}

impl PlaybackClock {
    /// What the clock shows at `reading`.
    pub open spec fn shows(self, reading: ClockReading) -> Duration {
        if self.anchor is Some {
            self.base_media_time.sum(reading.advance)
        } else {
            self.base_media_time
        }
    }

    /// The clock moved to `media_time`; a running clock runs on from `now`.
    pub open spec fn moved_to(
        self,
        media_time: Duration,
        now: Instant,
        source: PlaybackClockSource,
    ) -> PlaybackClock {
        PlaybackClock {
            base_media_time: media_time,
            anchor: if self.anchor is Some { Some(now) } else { None },
            rate: self.rate,
            source,
        }
    }

    /// The clock parked at `media_time`, on the wall clock again.
    pub open spec fn parked_at(self, media_time: Duration) -> PlaybackClock {
        PlaybackClock {
            base_media_time: media_time,
            anchor: None,
            rate: self.rate,
            source: PlaybackClockSource::Wall,
        }
    }

    /// The clock running: from `now` where it was parked, and as before where it ran.
    pub open spec fn started(self, now: Instant) -> PlaybackClock {
        PlaybackClock {
            anchor: if self.anchor is Some { self.anchor } else { Some(now) },
            ..self
        }
    }

    /// The clock parked where it stands at `reading`.
    pub open spec fn paused(self, reading: ClockReading) -> PlaybackClock {
        PlaybackClock { base_media_time: self.shows(reading), anchor: None, ..self }
    }

    /// The clock after one step of discipline.
    pub open spec fn disciplined(
        self,
        reference: Duration,
        reading: ClockReading,
        source: PlaybackClockSource,
        config: AudioSyncConfig,
    ) -> PlaybackClock {
        if correction_moves(reference, self.shows(reading), config) {
            self.moved_to(
                corrected_time(reference, self.shows(reading), config),
                reading.now,
                source,
            )
        } else {
            PlaybackClock { source, ..self }
        }
    }

    /// The clock at another rate from `reading` on.
    pub open spec fn at_rate(self, rate: u64, reading: ClockReading) -> PlaybackClock {
        PlaybackClock {
            rate: crate::rate::positive_or_unit(rate),
            ..self.moved_to(self.shows(reading), reading.now, self.source)
        }
    }

    /// A fresh clock, parked at `media_time`.
    pub open spec fn fresh(media_time: Duration) -> PlaybackClock {
        PlaybackClock {
            base_media_time: media_time,
            anchor: None,
            rate: UNIT_BITS,
            source: PlaybackClockSource::Wall,
        }
    }

    pub fn paused_at(media_time: Duration) -> (r: Self)
        ensures
            r == PlaybackClock::fresh(media_time),
    {
        PlaybackClock {
            base_media_time: media_time,
            anchor: None,
            rate: UNIT_BITS,
            source: PlaybackClockSource::Wall,
        }
    }

    pub fn running_at(media_time: Duration, now: Instant) -> (r: Self)
        ensures
            r == PlaybackClock::fresh(media_time).started(now),
    {
        PlaybackClock {
            base_media_time: media_time,
            anchor: Some(now),
            rate: UNIT_BITS,
            source: PlaybackClockSource::Wall,
        }
    }

    /// The wall-clock span that a reading at `now` has to scale by the rate.
    pub fn elapsed_at(&self, now: Instant) -> (r: Duration)
        ensures
            r == (match self.anchor {
                Some(anchor) => now.since(anchor),
                None => Duration { nanos: 0 },
            }),
    {
        match self.anchor {
            Some(anchor) => elapsed_since(anchor, now),
            None => Duration::zero(),
        }
    }

    pub fn media_time_at(&self, reading: ClockReading) -> (r: Duration)
        ensures
            r == self.shows(reading),
    {
        match self.anchor {
            Some(_) => self.base_media_time.saturating_add(reading.advance),
            None => self.base_media_time,
        }
    }

    pub fn snapshot_at(&self, reading: ClockReading) -> (r: PlaybackClockSnapshot)
        ensures
            r == (PlaybackClockSnapshot {
                media_time: self.shows(reading),
                source: self.source,
                rate: self.rate,
            }),
    {
        PlaybackClockSnapshot {
            media_time: self.media_time_at(reading),
            source: self.source,
            rate: self.rate,
        }
    }

    pub fn is_running(&self) -> (r: bool)
        ensures
            r == (self.anchor is Some),
    {
        self.anchor.is_some()
    }

    pub fn source(&self) -> (r: PlaybackClockSource)
        ensures
            r == self.source,
    {
        self.source
    }

    /// The bits of the rate.
    pub fn rate(&self) -> (r: u64)
        ensures
            r == self.rate,
    {
        self.rate
    }

    pub fn play(&mut self, now: Instant)
        ensures
            *final(self) == old(self).started(now),
            final(self).base_media_time == old(self).base_media_time,
            final(self).rate == old(self).rate,
            final(self).source == old(self).source,
            final(self).anchor is Some,
            old(self).anchor is Some ==> final(self).anchor == old(self).anchor,
            old(self).anchor is None ==> final(self).anchor == Some(now),
    {
        if self.anchor.is_none() {
            self.anchor = Some(now);
        }
    }

    pub fn pause(&mut self, reading: ClockReading)
        ensures
            *final(self) == old(self).paused(reading),
            final(self).anchor is None,
            final(self).rate == old(self).rate,
            final(self).source == old(self).source,
            old(self).anchor is None ==> final(self).base_media_time == old(self).base_media_time,
            old(self).anchor is Some && old(self).base_media_time.nanos + reading.advance.nanos
                <= crate::time::MAX_DURATION_NANOS ==> final(self).base_media_time.nanos
                == old(self).base_media_time.nanos + reading.advance.nanos,
    {
        self.base_media_time = self.media_time_at(reading);
        self.anchor = None;
    }

    pub fn seek(&mut self, media_time: Duration, now: Instant)
        ensures
            *final(self) == old(self).moved_to(media_time, now, old(self).source),
            final(self).base_media_time == media_time,
            final(self).rate == old(self).rate,
            final(self).source == old(self).source,
            final(self).anchor == (if old(self).anchor is Some {
                Some(now)
            } else {
                None
            }),
    {
        self.base_media_time = media_time;
        if self.anchor.is_some() {
            self.anchor = Some(now);
        }
    }

    pub fn reset(&mut self, media_time: Duration, running: bool, now: Instant)
        ensures
            *final(self) == (if running {
                old(self).parked_at(media_time).started(now)
            } else {
                old(self).parked_at(media_time)
            }),
            final(self).base_media_time == media_time,
            final(self).rate == old(self).rate,
            final(self).source == PlaybackClockSource::Wall,
            final(self).anchor == (if running {
                Some(now)
            } else {
                None
            }),
    {
        self.base_media_time = media_time;
        self.anchor = if running {
            Some(now)
        } else {
            None
        };
        self.source = PlaybackClockSource::Wall;
    }

    pub fn sync_to(&mut self, media_time: Duration, now: Instant, source: PlaybackClockSource)
        ensures
            *final(self) == old(self).moved_to(media_time, now, source),
            final(self).base_media_time == media_time,
            final(self).rate == old(self).rate,
            final(self).source == source,
            final(self).anchor == (if old(self).anchor is Some {
                Some(now)
            } else {
                None
            }),
    {
        self.base_media_time = media_time;
        if self.anchor.is_some() {
            self.anchor = Some(now);
        }
        self.source = source;
    }

    /// Moves the clock towards `reference_time`: not at all within the dead band, at once
    /// from the snap threshold on, and by a bounded step in between.
    pub fn discipline_to(
        &mut self,
        reference_time: Duration,
        reading: ClockReading,
        source: PlaybackClockSource,
        config: AudioSyncConfig,
    ) -> (r: ClockCorrection)
        ensures
            r == correction_for(reference_time, old(self).shows(reading), source, config),
            *final(self) == old(self).disciplined(reference_time, reading, source, config),
            final(self).rate == old(self).rate,
            final(self).source == source,
            final(self).anchor is Some <==> old(self).anchor is Some,
    {
        self.source = source;
        if !config.enabled {
            return ClockCorrection::none(source);
        }
        let current = self.media_time_at(reading);
        let drift_nanos: i128 = duration_to_nanos(reference_time) - duration_to_nanos(current);
        let drift_abs = nanos_to_duration(
            if drift_nanos < 0 {
                -drift_nanos
            } else {
                drift_nanos
            },
        );
        let direction = if drift_nanos > 0 {
            ClockCorrectionDirection::Forward
        } else if drift_nanos < 0 {
            ClockCorrectionDirection::Backward
        } else {
            ClockCorrectionDirection::Neutral
        };
        if drift_abs.nanos <= config.deadband.nanos || drift_nanos == 0 {
            return ClockCorrection {
                source,
                direction,
                drift: drift_abs,
                applied: Duration::zero(),
                snapped: false,
            };
        }
        if drift_abs.nanos >= config.snap_threshold.nanos {
            self.sync_to(reference_time, reading.now, source);
            return ClockCorrection {
                source,
                direction,
                drift: drift_abs,
                applied: drift_abs,
                snapped: true,
            };
        }
        let applied = drift_abs.min(config.max_correction_per_frame);
        let step: i128 = duration_to_nanos(applied);
        let correction_nanos: i128 = if drift_nanos > 0 {
            step
        } else {
            -step
        };
        self.sync_to(add_signed_duration(current, correction_nanos), reading.now, source);
        ClockCorrection { source, direction, drift: drift_abs, applied, snapped: false }
    }

    /// Changes the rate from here on; the media time that was reached stays.
    pub fn set_rate(&mut self, rate: u64, reading: ClockReading)
        ensures
            *final(self) == old(self).at_rate(rate, reading),
            final(self).base_media_time == old(self).shows(reading),
            final(self).source == old(self).source,
            final(self).anchor == (if old(self).anchor is Some {
                Some(reading.now)
            } else {
                None
            }),
    {
        self.base_media_time = self.media_time_at(reading);
        self.rate = sanitize_playback_rate(rate);
        if self.anchor.is_some() {
            self.anchor = Some(reading.now);
        }
    }
}

impl Default for PlaybackClock {
    fn default() -> (r: Self)
        ensures
            r == PlaybackClock::fresh(Duration { nanos: 0 }),
    {
        PlaybackClock::paused_at(Duration::zero())
    }
}

/// A parked clock is frozen: it shows the same media time at every reading.
pub proof fn law_parked_clock_is_frozen(clock: PlaybackClock, a: ClockReading, b: ClockReading)
    requires
        clock.anchor is None,
    ensures
        clock.shows(a) == clock.shows(b),
{
}

/// Pausing is continuous and final: the paused clock shows, at every later reading, what the
/// clock showed when it was paused, and pausing it again changes nothing.
pub proof fn law_pause_freezes_what_was_shown(
    clock: PlaybackClock,
    paused_at: ClockReading,
    later: ClockReading,
)
    ensures
        clock.paused(paused_at).shows(later) == clock.shows(paused_at),
        clock.paused(paused_at).paused(later) == clock.paused(paused_at),
{
}

/// A clock that is moved to a position shows that position until time passes, whether it runs
/// or not, and a parked clock that is started shows the position it was parked at.
pub proof fn law_seek_then_read_gives_the_target(
    clock: PlaybackClock,
    target: Duration,
    source: PlaybackClockSource,
    reading: ClockReading,
)
    requires
        target.valid(),
    ensures
        clock.moved_to(target, reading.now, source).shows(reading.at_anchor()) == target,
        clock.parked_at(target).shows(reading) == target,
        clock.parked_at(target).started(reading.now).shows(reading.at_anchor()) == target,
{
}

/// Starting never makes the clock jump: it shows at the start what it showed before.
pub proof fn law_start_is_continuous(clock: PlaybackClock, reading: ClockReading)
    requires
        clock.base_media_time.valid(),
    ensures
        clock.anchor is None ==> clock.started(reading.now).shows(reading.at_anchor())
            == clock.shows(reading),
        clock.anchor is Some ==> clock.started(reading.now) == clock,
{
}

/// A rate change is continuous: right after it the clock shows what it showed right before.
pub proof fn law_rate_change_is_continuous(clock: PlaybackClock, rate: u64, reading: ClockReading)
    requires
        clock.base_media_time.valid(),
    ensures
        clock.at_rate(rate, reading).shows(reading.at_anchor()) == clock.shows(reading),
        clock.at_rate(rate, reading).anchor is Some <==> clock.anchor is Some,
        clock.at_rate(rate, reading).source == clock.source,
{
}

/// The clock never runs backwards between two readings of one running stretch.
pub proof fn law_running_clock_is_monotonic(
    clock: PlaybackClock,
    earlier: ClockReading,
    later: ClockReading,
)
    requires
        earlier.advance.nanos <= later.advance.nanos,
    ensures
        clock.shows(earlier).nanos <= clock.shows(later).nanos,
{
}

/// A discipline step never overshoots: the corrected time lies between the time that was
/// shown and the reference, and it moves by no more than the configured step unless it snaps.
pub proof fn law_discipline_never_overshoots(
    reference: Duration,
    current: Duration,
    source: PlaybackClockSource,
    config: AudioSyncConfig,
)
    requires
        reference.nanos <= u64::MAX,
        current.nanos <= u64::MAX,
        correction_moves(reference, current, config),
    ensures
        ({
            let after = corrected_time(reference, current, config);
            let report = correction_for(reference, current, source, config);
            &&& reference.nanos >= current.nanos ==> current.nanos <= after.nanos
                <= reference.nanos
            &&& reference.nanos <= current.nanos ==> reference.nanos <= after.nanos
                <= current.nanos
            &&& after.nanos - current.nanos == report.applied.nanos || current.nanos - after.nanos
                == report.applied.nanos
            &&& !report.snapped ==> report.applied.nanos <= config.max_correction_per_frame.nanos
            &&& report.snapped ==> after == reference
        }),
{
}

/// A running clock shows the place of its anchor and what it gained since, and a parked one the
/// place where it was parked.
pub proof fn law_a_clock_adds_what_it_gained(clock: PlaybackClock, reading: ClockReading)
    ensures
        clock.anchor is None ==> clock.shows(reading).nanos == clock.base_media_time.nanos,
        clock.anchor is Some && clock.base_media_time.nanos + reading.advance.nanos
            <= crate::time::MAX_DURATION_NANOS ==> clock.shows(reading).nanos
            == clock.base_media_time.nanos + reading.advance.nanos,
{
}

/// A step of discipline brings the clock nearer to the reference, whichever of the two is ahead: by
/// no more than the configured step, all the way from the snap threshold on, and not at all within
/// the dead band. What is reported is how far apart they were and how far the clock was moved.
pub proof fn law_discipline_closes_the_gap(
    clock: PlaybackClock,
    reference: Duration,
    reading: ClockReading,
    source: PlaybackClockSource,
    config: AudioSyncConfig,
)
    requires
        config.enabled,
        reference.nanos <= u64::MAX,
        clock.shows(reading).nanos <= u64::MAX,
    ensures
        ({
            let shown = clock.shows(reading);
            let after = clock.disciplined(reference, reading, source, config);
            let report = correction_for(reference, shown, source, config);
            let distance = apart(reference, shown);
            let step = config.max_correction_per_frame.nanos;
            let then = after.shows(reading.at_anchor());
            &&& report.drift.nanos == distance
            &&& report.source == source && after.source == source
            &&& reference.nanos > shown.nanos <==> report.direction
                == ClockCorrectionDirection::Forward
            &&& reference.nanos < shown.nanos <==> report.direction
                == ClockCorrectionDirection::Backward
            &&& distance <= config.deadband.nanos || distance == 0 ==> {
                &&& report.applied.nanos == 0
                &&& !report.snapped
                &&& after.shows(reading) == shown
                &&& after.anchor == clock.anchor
            }
            &&& distance > config.deadband.nanos && distance > 0 ==> {
                &&& report.applied.nanos == apart(then, shown)
                &&& report.snapped <==> distance >= config.snap_threshold.nanos
                &&& distance >= config.snap_threshold.nanos ==> apart(reference, then) == 0
                &&& distance < config.snap_threshold.nanos && step <= distance ==> apart(
                    reference,
                    then,
                ) == distance - step
                &&& distance < config.snap_threshold.nanos && step > distance ==> apart(
                    reference,
                    then,
                ) == 0
                &&& step > 0 ==> apart(reference, then) < distance
                &&& clock.anchor is Some ==> after.anchor == Some(reading.now)
                &&& clock.anchor is None ==> after.anchor is None
            }
        }),
{
}

/// A discipline that is switched off leaves the clock where it is, and reports nothing.
pub proof fn law_no_discipline_without_leave(
    clock: PlaybackClock,
    reference: Duration,
    reading: ClockReading,
    source: PlaybackClockSource,
    config: AudioSyncConfig,
)
    requires
        !config.enabled,
    ensures
        ({
            let after = clock.disciplined(reference, reading, source, config);
            let report = correction_for(reference, clock.shows(reading), source, config);
            &&& after.shows(reading) == clock.shows(reading)
            &&& after.anchor == clock.anchor
            &&& after.source == source
            &&& report.drift.nanos == 0 && report.applied.nanos == 0 && !report.snapped
            &&& report.direction == ClockCorrectionDirection::Neutral
        }),
{
}

/// The rate changes by setting it alone: a clock that is paused, started, moved, parked or
/// disciplined keeps it.
pub proof fn law_only_setting_changes_the_rate(
    clock: PlaybackClock,
    target: Duration,
    reading: ClockReading,
    source: PlaybackClockSource,
    config: AudioSyncConfig,
)
    ensures
        clock.paused(reading).rate == clock.rate,
        clock.started(reading.now).rate == clock.rate,
        clock.moved_to(target, reading.now, source).rate == clock.rate,
        clock.parked_at(target).rate == clock.rate,
        clock.disciplined(target, reading, source, config).rate == clock.rate,
        clock.paused(reading).started(reading.now).rate == clock.rate,
        PlaybackClock::fresh(target).rate == UNIT_BITS,
{
}

/// A clock runs or stands still as it was told: pausing and parking stop it, starting makes it run,
/// and moving it, disciplining it or changing its rate does neither.
pub proof fn law_a_clock_runs_as_it_was_told(
    clock: PlaybackClock,
    target: Duration,
    rate: u64,
    reading: ClockReading,
    source: PlaybackClockSource,
    config: AudioSyncConfig,
)
    ensures
        clock.paused(reading).anchor is None,
        clock.parked_at(target).anchor is None,
        PlaybackClock::fresh(target).anchor is None,
        clock.started(reading.now).anchor is Some,
        clock.anchor is None ==> clock.started(reading.now).anchor == Some(reading.now),
        clock.moved_to(target, reading.now, source).anchor is Some <==> clock.anchor is Some,
        clock.disciplined(target, reading, source, config).anchor is Some <==> clock.anchor is Some,
        clock.at_rate(rate, reading).anchor is Some <==> clock.anchor is Some,
        clock.anchor is Some ==> clock.moved_to(target, reading.now, source).anchor == Some(
            reading.now,
        ),
        clock.anchor is Some ==> clock.at_rate(rate, reading).anchor == Some(reading.now),
        clock.moved_to(target, reading.now, source).source == source,
        clock.parked_at(target).source == PlaybackClockSource::Wall,
        clock.paused(reading).source == clock.source,
        clock.started(reading.now).source == clock.source,
{
}

} // verus!
