//! When a decoded frame is shown: the frame scheduler and the display's vsync grid.
use crate::clock::{duration_to_nanos, nanos_to_duration};
use crate::clock::{AudioSyncConfig, PlaybackClockMode};
use crate::time::Duration;
use vstd::prelude::*;

verus! {

/// How many nanoseconds decoded audio runs ahead of the media clock for local media.
pub const DEFAULT_AUDIO_LEAD_NANOS: u128 = 120_000_000;

/// How many nanoseconds decoded audio runs ahead of the media clock for streamed media.
pub const STREAMING_AUDIO_LEAD_NANOS: u128 = 1_500_000_000;

#[derive(Clone, Copy, Debug, PartialEq, Eq, Structural)]
pub enum VideoFrameDecision {
    Present { late_by: Option<Duration> },
    Wait { early_by: Duration },
    Drop { late_by: Duration },
}

impl VideoFrameDecision {
    pub fn late_by(self) -> (r: Option<Duration>)
        ensures
            r == (match self {
                VideoFrameDecision::Present { late_by } => late_by,
                VideoFrameDecision::Drop { late_by } => Some(late_by),
                VideoFrameDecision::Wait { early_by } => None,
            }),
    {
        match self {
            VideoFrameDecision::Present { late_by } => late_by,
            VideoFrameDecision::Drop { late_by } => Some(late_by),
            VideoFrameDecision::Wait { .. } => None,
        }
    }
}

#[derive(Clone, Copy, Debug, PartialEq, Eq, Structural)]
pub struct VideoFrameScheduler {
    pub lead_time: Duration,
    pub drop_tolerance: Duration,
    pub max_consecutive_drops: usize,
}

/// How late a frame is, where its time has come.
pub open spec fn lateness(pts: Duration, media_time: Duration) -> Option<Duration> {
    if media_time.nanos >= pts.nanos {
        Some(media_time.less(pts))
    } else {
        None
    }
}

impl VideoFrameScheduler {
    /// What becomes of a frame.
    pub open spec fn decides(
        self,
        pts: Option<Duration>,
        media_time: Duration,
        first_frame: bool,
    ) -> VideoFrameDecision {
        match pts {
            None => VideoFrameDecision::Present { late_by: None },
            Some(pts) => if first_frame {
                VideoFrameDecision::Present { late_by: lateness(pts, media_time) }
            } else if media_time.sum(self.lead_time).nanos < pts.nanos {
                VideoFrameDecision::Wait { early_by: pts.less(media_time.sum(self.lead_time)) }
            } else if media_time.nanos >= pts.nanos && media_time.nanos - pts.nanos
                > self.drop_tolerance.nanos {
                VideoFrameDecision::Drop { late_by: media_time.less(pts) }
            } else {
                VideoFrameDecision::Present { late_by: lateness(pts, media_time) }
            },
        }
    }

    pub fn new(lead_time: Duration, drop_tolerance: Duration) -> (r: Self)
        ensures
            r == (VideoFrameScheduler { lead_time, drop_tolerance, max_consecutive_drops: 5 }),
    {
        VideoFrameScheduler { lead_time, drop_tolerance, max_consecutive_drops: 5 }
    }

    pub fn schedule(
        self,
        pts: Option<Duration>,
        media_time: Duration,
        first_frame: bool,
    ) -> (r: VideoFrameDecision)
        ensures
            r == self.decides(pts, media_time, first_frame),
    {
        let pts = match pts {
            Some(pts) => pts,
            None => {
                return VideoFrameDecision::Present { late_by: None };
            },
        };
        if first_frame {
            return VideoFrameDecision::Present { late_by: media_time.checked_sub(pts) };
        }
        let horizon = media_time.saturating_add(self.lead_time);
        if horizon.nanos < pts.nanos {
            return VideoFrameDecision::Wait { early_by: pts.saturating_sub(horizon) };
        }
        match media_time.checked_sub(pts) {
            Some(late_by) => {
                if late_by.nanos > self.drop_tolerance.nanos {
                    VideoFrameDecision::Drop { late_by }
                } else {
                    VideoFrameDecision::Present { late_by: Some(late_by) }
                }
            },
            None => VideoFrameDecision::Present { late_by: None },
        }
    }
}

impl Default for VideoFrameScheduler {
    fn default() -> (r: Self)
        ensures
            r == default_scheduler(),
    {
        VideoFrameScheduler::new(Duration::from_millis(4), Duration::from_millis(120))
    }
}

/// The scheduler that playback starts with.
pub open spec fn default_scheduler() -> VideoFrameScheduler {
    VideoFrameScheduler {
        lead_time: Duration { nanos: 4_000_000 },
        drop_tolerance: Duration { nanos: 120_000_000 },
        max_consecutive_drops: 5,
    }
}

/// The timing of one playback session.
#[derive(Clone, Copy, Debug, PartialEq, Eq, Structural)]
pub struct PlaybackTimingConfig {
    pub clock_mode: PlaybackClockMode,
    pub video_scheduler: VideoFrameScheduler,
    pub audio_lead_time: Duration,
    pub audio_sync: AudioSyncConfig,
}

/// The timing that playback starts with.
pub open spec fn default_timing() -> PlaybackTimingConfig {
    PlaybackTimingConfig {
        clock_mode: PlaybackClockMode::AudioMaster,
        video_scheduler: default_scheduler(),
        audio_lead_time: Duration { nanos: DEFAULT_AUDIO_LEAD_NANOS },
        audio_sync: AudioSyncConfig {
            enabled: true,
            deadband: Duration { nanos: 5_000_000 },
            max_correction_per_frame: Duration { nanos: 5_000_000 },
            snap_threshold: Duration { nanos: 250_000_000 },
        },
    }
}

impl Default for PlaybackTimingConfig {
    fn default() -> (r: Self)
        ensures
            r == default_timing(),
    {
        PlaybackTimingConfig {
            clock_mode: PlaybackClockMode::default(),
            video_scheduler: VideoFrameScheduler::default(),
            audio_lead_time: Duration { nanos: DEFAULT_AUDIO_LEAD_NANOS },
            audio_sync: AudioSyncConfig::default(),
        }
    }
}

/// The first frame is always presented, however early or late it is.
pub proof fn law_first_frame_is_presented(
    scheduler: VideoFrameScheduler,
    pts: Option<Duration>,
    media_time: Duration,
)
    ensures
        scheduler.decides(pts, media_time, true) is Present,
{
}

/// Of a later frame: it waits exactly while it lies beyond the lead time, it is dropped exactly
/// once it is later than the tolerance, and it is presented in between.
pub proof fn law_schedule_splits_the_timeline(
    scheduler: VideoFrameScheduler,
    pts: Duration,
    media_time: Duration,
)
    requires
        media_time.valid(),
        scheduler.lead_time.valid(),
        pts.valid(),
    ensures
        ({
            let decision = scheduler.decides(Some(pts), media_time, false);
            &&& decision is Wait <==> pts.nanos > media_time.nanos + scheduler.lead_time.nanos
            &&& decision is Drop <==> media_time.nanos > pts.nanos + scheduler.drop_tolerance.nanos
            &&& decision is Present <==> pts.nanos <= media_time.nanos + scheduler.lead_time.nanos
                && media_time.nanos <= pts.nanos + scheduler.drop_tolerance.nanos
        }),
{
}

/// A frame that waits stops waiting once the media clock has moved on by `early_by`.
pub proof fn law_a_waiting_frame_is_due_after_its_wait(
    scheduler: VideoFrameScheduler,
    pts: Duration,
    media_time: Duration,
)
    requires
        scheduler.decides(Some(pts), media_time, false) is Wait,
        pts.valid(),
        media_time.valid(),
    ensures
        ({
            let early_by = scheduler.decides(Some(pts), media_time, false)->early_by;
            scheduler.decides(Some(pts), media_time.sum(early_by), false) is Present
        }),
{
}

/// How frames are laid on the display's refresh grid.
#[derive(Clone, Copy, Debug, PartialEq, Eq, Structural)]
pub struct DisplaySyncConfig {
    pub enabled: bool,
    pub vsync_interval: Duration,
    pub allow_zero_vsyncs: bool,
}

impl DisplaySyncConfig {
    /// The default grid with the interval of a display: `interval` is the reciprocal of a
    /// refresh rate that is a positive, finite number, and `None` stands for any other rate.
    pub fn for_refresh_interval(interval: Option<Duration>) -> (r: Self)
        ensures
            r == (DisplaySyncConfig {
                enabled: true,
                vsync_interval: match interval {
                    Some(interval) => interval,
                    None => Duration { nanos: 16_000_000 },
                },
                allow_zero_vsyncs: false,
            }),
    {
        let vsync_interval = match interval {
            Some(interval) => interval,
            None => Duration::from_millis(16),
        };
        DisplaySyncConfig { enabled: true, vsync_interval, allow_zero_vsyncs: false }
    }
}

impl Default for DisplaySyncConfig {
    fn default() -> (r: Self)
        ensures
            r == (DisplaySyncConfig {
                enabled: true,
                vsync_interval: Duration { nanos: 16_666_667 },
                allow_zero_vsyncs: false,
            }),
    {
        DisplaySyncConfig {
            enabled: true,
            vsync_interval: Duration::from_nanos(16_666_667),
            allow_zero_vsyncs: false,
        }
    }
}

/// The error between the frame durations asked for and the vsyncs given so far.
#[derive(Clone, Copy, Debug, PartialEq, Eq, Structural)]
pub struct DisplaySyncState {
    pub residual_error_nanos: i128,
}

impl Default for DisplaySyncState {
    fn default() -> (r: Self)
        ensures
            r.residual_error_nanos == 0,
    {
        DisplaySyncState { residual_error_nanos: 0 }
    }
}

#[derive(Clone, Copy, Debug, PartialEq, Eq, Structural)]
pub struct DisplayFrameSchedule {
    pub vsyncs: u32,
    pub scheduled_duration: Duration,
    pub residual_error_nanos: i128,
}

/// The number of vsyncs nearest to `target` nanoseconds, halves rounded up.
pub open spec fn nearest_vsyncs(target: int, vsync: int) -> int {
    if target <= 0 { 0 } else { (target + vsync / 2) / vsync }
}

/// The number of vsyncs that a frame gets.
pub open spec fn granted_vsyncs(target: int, vsync: int, allow_zero: bool) -> int {
    crate::time::min_int(
        crate::time::max_int(nearest_vsyncs(target, vsync), if allow_zero { 0 } else { 1 }),
        u32::MAX as int,
    )
}

/// Whether frames are quantised at all.
pub open spec fn quantises(config: DisplaySyncConfig) -> bool {
    config.enabled && config.vsync_interval.nanos != 0
}

impl DisplaySyncState {
    pub fn reset(&mut self)
        ensures
            final(self).residual_error_nanos == 0,
    {
        self.residual_error_nanos = 0;
    }

    pub fn residual_error_nanos(&self) -> (r: i128)
        ensures
            r == self.residual_error_nanos,
    {
        self.residual_error_nanos
    }

    /// Gives a frame whole vsyncs and carries the rounding error to the next frame.
    pub fn schedule_frame(
        &mut self,
        frame_duration: Duration,
        config: DisplaySyncConfig,
    ) -> (r: DisplayFrameSchedule)
        requires
            frame_duration.valid(),
            config.vsync_interval.valid(),
            quantises(config) ==> {
                let vsync = config.vsync_interval.nanos as int;
                let target = frame_duration.nanos + old(self).residual_error_nanos;
                &&& target + vsync / 2 <= i128::MAX
                &&& target - granted_vsyncs(target, vsync, config.allow_zero_vsyncs) * vsync
                    >= i128::MIN
            },
        ensures
            !quantises(config) ==> *final(self) == *old(self) && r == (DisplayFrameSchedule {
                vsyncs: 1,
                scheduled_duration: frame_duration,
                residual_error_nanos: old(self).residual_error_nanos,
            }),
            quantises(config) ==> {
                let vsync = config.vsync_interval.nanos as int;
                let target = frame_duration.nanos + old(self).residual_error_nanos;
                let granted = granted_vsyncs(target, vsync, config.allow_zero_vsyncs);
                &&& r.vsyncs == granted
                &&& r.scheduled_duration == crate::clock::clamped_span(granted * vsync)
                &&& r.residual_error_nanos == target - granted * vsync
                &&& final(self).residual_error_nanos == r.residual_error_nanos
            },
            config.enabled && config.vsync_interval.nanos > 0 ==> {
                let vsync = config.vsync_interval.nanos as int;
                let target = frame_duration.nanos + old(self).residual_error_nanos;
                &&& r.residual_error_nanos == target - r.vsyncs * vsync
                &&& r.vsyncs * vsync <= u64::MAX ==> r.scheduled_duration.nanos == r.vsyncs * vsync
                &&& !config.allow_zero_vsyncs ==> r.vsyncs >= 1
                &&& vsync <= 2 * target && target <= u32::MAX * vsync ==> -vsync <= 2
                    * r.residual_error_nanos <= vsync
            },
    {
        if !config.enabled || config.vsync_interval.is_zero() {
            return DisplayFrameSchedule {
                vsyncs: 1,
                scheduled_duration: frame_duration,
                residual_error_nanos: self.residual_error_nanos,
            };
        }
        let vsync_nanos: i128 = duration_to_nanos(config.vsync_interval);
        let target_nanos: i128 = duration_to_nanos(frame_duration) + self.residual_error_nanos;
        let rounded: u128 = if target_nanos <= 0 {
            0
        } else {
            let numerator: u128 = target_nanos as u128 + (vsync_nanos as u128) / 2;
            numerator / (vsync_nanos as u128)
        };
        let min_vsyncs: u128 = if config.allow_zero_vsyncs {
            0
        } else {
            1
        };
        let at_least: u128 = if rounded < min_vsyncs {
            min_vsyncs
        } else {
            rounded
        };
        let vsyncs: u32 = if at_least > u32::MAX as u128 {
            u32::MAX
        } else {
            at_least as u32
        };
        let ghost granted = granted_vsyncs(
            target_nanos as int,
            vsync_nanos as int,
            config.allow_zero_vsyncs,
        );
        assert(vsyncs == granted);
        proof {
            if vsync_nanos <= 2 * target_nanos && target_nanos <= u32::MAX * vsync_nanos {
                law_a_frame_gets_the_nearest_vsyncs(
                    target_nanos as int,
                    vsync_nanos as int,
                    config.allow_zero_vsyncs,
                );
            }
        }
        assert(0 <= vsyncs * vsync_nanos <= 0x1_0000_0000 * vsync_nanos) by (nonlinear_arith)
            requires
                0 <= vsyncs <= 0x1_0000_0000,
                0 <= vsync_nanos,
        ;
        let scheduled_nanos: i128 = vsyncs as i128 * vsync_nanos;
        self.residual_error_nanos = target_nanos - scheduled_nanos;
        DisplayFrameSchedule {
            vsyncs,
            scheduled_duration: nanos_to_duration(scheduled_nanos),
            residual_error_nanos: self.residual_error_nanos,
        }
    }
}

/// The error that is carried on after a run of frames.
pub open spec fn carried_after(frames: Seq<int>, carried: int, vsync: int, allow_zero: bool) -> int
    decreases frames.len(),
{
    if frames.len() == 0 {
        carried
    } else {
        let target = frames.last() + carried_after(frames.drop_last(), carried, vsync, allow_zero);
        target - granted_vsyncs(target, vsync, allow_zero) * vsync
    }
}

/// The vsyncs that a run of frames gets.
pub open spec fn vsyncs_after(frames: Seq<int>, carried: int, vsync: int, allow_zero: bool) -> int
    decreases frames.len(),
{
    if frames.len() == 0 {
        0
    } else {
        let target = frames.last() + carried_after(frames.drop_last(), carried, vsync, allow_zero);
        vsyncs_after(frames.drop_last(), carried, vsync, allow_zero) + granted_vsyncs(
            target,
            vsync,
            allow_zero,
        )
    }
}

/// The time that a run of frames asks for.
pub open spec fn time_of(frames: Seq<int>) -> int
    decreases frames.len(),
{
    if frames.len() == 0 {
        0
    } else {
        time_of(frames.drop_last()) + frames.last()
    }
}

/// No time is lost or invented over any run of frames: the vsyncs given and the error carried
/// on make up the durations asked for and the error carried in.
pub proof fn law_display_sync_conserves_time(
    frames: Seq<int>,
    carried: int,
    vsync: int,
    allow_zero: bool,
)
    ensures
        vsyncs_after(frames, carried, vsync, allow_zero) * vsync + carried_after(
            frames,
            carried,
            vsync,
            allow_zero,
        ) == time_of(frames) + carried,
    decreases frames.len(),
{
    if frames.len() > 0 {
        let before = frames.drop_last();
        law_display_sync_conserves_time(before, carried, vsync, allow_zero);
        let target = frames.last() + carried_after(before, carried, vsync, allow_zero);
        let given = vsyncs_after(before, carried, vsync, allow_zero);
        let granted = granted_vsyncs(target, vsync, allow_zero);
        assert((given + granted) * vsync == given * vsync + granted * vsync) by (nonlinear_arith);
    }
}

/// A frame that asks for at least half an interval, and for no more intervals than can be counted,
/// gets the vsyncs that come nearest to what it asks for: the error is at most half an interval
/// either way.
pub proof fn law_a_frame_gets_the_nearest_vsyncs(target: int, vsync: int, allow_zero: bool)
    requires
        vsync > 0,
        vsync <= 2 * target,
        target <= u32::MAX * vsync,
    ensures
        ({
            let error = target - granted_vsyncs(target, vsync, allow_zero) * vsync;
            -vsync <= 2 * error <= vsync
        }),
        1 <= granted_vsyncs(target, vsync, allow_zero) <= u32::MAX,
{
    let shifted = target + vsync / 2;
    vstd::arithmetic::div_mod::lemma_fundamental_div_mod(shifted, vsync);
    let q = shifted / vsync;
    assert(vsync * q == q * vsync) by (nonlinear_arith);
    assert(q >= 1) by (nonlinear_arith)
        requires
            shifted == vsync * q + shifted % vsync,
            0 <= shifted % vsync < vsync,
            shifted >= vsync,
            vsync > 0,
    ;
    assert(q <= u32::MAX) by (nonlinear_arith)
        requires
            shifted == vsync * q + shifted % vsync,
            0 <= shifted % vsync < vsync,
            shifted < u32::MAX * vsync + vsync,
            vsync > 0,
    ;
}

/// A frame that asks for less than half an interval gets none where that is allowed, and one where
/// it is not; one that asks for more than can be counted gets as many as can.
pub proof fn law_vsyncs_at_the_ends(target: int, vsync: int, allow_zero: bool)
    requires
        vsync > 0,
    ensures
        2 * target < vsync && allow_zero ==> granted_vsyncs(target, vsync, allow_zero) == 0,
        2 * target < vsync && !allow_zero ==> granted_vsyncs(target, vsync, allow_zero) == 1,
        target > u32::MAX * vsync ==> granted_vsyncs(target, vsync, allow_zero) == u32::MAX,
{
    let shifted = target + vsync / 2;
    vstd::arithmetic::div_mod::lemma_fundamental_div_mod(shifted, vsync);
    let q = shifted / vsync;
    if 2 * target < vsync && target > 0 {
        assert(q <= 0) by (nonlinear_arith)
            requires
                shifted == vsync * q + shifted % vsync,
                0 <= shifted % vsync < vsync,
                shifted < vsync,
                vsync > 0,
        ;
        assert(q >= 0) by (nonlinear_arith)
            requires
                shifted == vsync * q + shifted % vsync,
                0 <= shifted % vsync < vsync,
                shifted >= 0,
                vsync > 0,
        ;
    }
    if target > u32::MAX * vsync {
        assert(u32::MAX * vsync >= 0) by (nonlinear_arith)
            requires
                vsync > 0,
        ;
        assert(q >= u32::MAX) by (nonlinear_arith)
            requires
                shifted == vsync * q + shifted % vsync,
                0 <= shifted % vsync < vsync,
                shifted >= u32::MAX * vsync,
                vsync > 0,
        ;
    }
}

/// Over any run of frames that each last at least an interval, the error that is carried on stays
/// within half an interval either way; where a frame may get no vsync, over any run of frames.
pub proof fn law_the_carried_error_stays_small(
    frames: Seq<int>,
    carried: int,
    vsync: int,
    allow_zero: bool,
)
    requires
        vsync > 0,
        -vsync <= 2 * carried <= vsync,
        forall|i: int|
            0 <= i < frames.len() ==> (if allow_zero {
                0
            } else {
                vsync
            }) <= #[trigger] frames[i] <= (u32::MAX - 1) * vsync,
    ensures
        -vsync <= 2 * carried_after(frames, carried, vsync, allow_zero) <= vsync,
    decreases frames.len(),
{
    if frames.len() > 0 {
        let before = frames.drop_last();
        assert forall|i: int| 0 <= i < before.len() implies (if allow_zero {
            0
        } else {
            vsync
        }) <= #[trigger] before[i] <= (u32::MAX - 1) * vsync by {
            assert(before[i] == frames[i]);
        }
        law_the_carried_error_stays_small(before, carried, vsync, allow_zero);
        let last = frames[frames.len() - 1];
        let target = last + carried_after(before, carried, vsync, allow_zero);
        assert(target <= u32::MAX * vsync) by (nonlinear_arith)
            requires
                2 * target <= 2 * ((u32::MAX - 1) * vsync) + vsync,
                vsync > 0,
        ;
        if vsync <= 2 * target {
            law_a_frame_gets_the_nearest_vsyncs(target, vsync, allow_zero);
        } else {
            law_vsyncs_at_the_ends(target, vsync, allow_zero);
        }
    }
}

/// Where a frame gets the nearest number of vsyncs, the error carried on is at most half an
/// interval either way.
pub proof fn law_display_sync_error_is_bounded(target: int, vsync: int, allow_zero: bool)
    requires
        vsync > 0,
        target > 0,
        granted_vsyncs(target, vsync, allow_zero) == nearest_vsyncs(target, vsync),
    ensures
        ({
            let carried = target - granted_vsyncs(target, vsync, allow_zero) * vsync;
            -vsync <= 2 * carried <= vsync
        }),
{
    let shifted = target + vsync / 2;
    vstd::arithmetic::div_mod::lemma_fundamental_div_mod(shifted, vsync);
    let q = shifted / vsync;
    assert(vsync * q == q * vsync) by (nonlinear_arith);
}

/// How early a waiting frame is, and how late another, is what lies between its time and the clock.
pub proof fn law_a_decision_tells_the_distance(
    scheduler: VideoFrameScheduler,
    pts: Duration,
    media_time: Duration,
    first: bool,
)
    requires
        pts.valid(),
        media_time.valid(),
    ensures
        match scheduler.decides(Some(pts), media_time, first) {
            VideoFrameDecision::Wait { early_by } => !first && media_time.nanos
                + scheduler.lead_time.nanos + early_by.nanos == pts.nanos && early_by.nanos > 0,
            VideoFrameDecision::Drop { late_by } => !first && pts.nanos + late_by.nanos
                == media_time.nanos && late_by.nanos > scheduler.drop_tolerance.nanos,
            VideoFrameDecision::Present { late_by } => match late_by {
                Some(late_by) => pts.nanos + late_by.nanos == media_time.nanos && (first
                    || late_by.nanos <= scheduler.drop_tolerance.nanos),
                None => media_time.nanos < pts.nanos && (first || pts.nanos <= media_time.nanos
                    + scheduler.lead_time.nanos),
            },
        },
        scheduler.decides(None, media_time, first) == (VideoFrameDecision::Present {
            late_by: None,
        }),
{
}

/// Unless told otherwise a picture is shown up to 4 ms early and dropped when more than 120 ms late,
/// five in a row at the most. The sound leads by 120 ms and steers the clock: it is moved 5 ms at a
/// time, once it is off by more than 5 ms, and at once from 250 ms on.
pub proof fn law_the_timing_that_is_used_by_default()
    ensures
        default_scheduler().lead_time.nanos == 4_000_000,
        default_scheduler().drop_tolerance.nanos == 120_000_000,
        default_scheduler().max_consecutive_drops == 5,
        default_timing().clock_mode == PlaybackClockMode::AudioMaster,
        default_timing().video_scheduler == default_scheduler(),
        default_timing().audio_lead_time.nanos == 120_000_000,
        default_timing().audio_sync.enabled,
        default_timing().audio_sync.deadband.nanos == 5_000_000,
        default_timing().audio_sync.max_correction_per_frame.nanos == 5_000_000,
        default_timing().audio_sync.snap_threshold.nanos == 250_000_000,
{
}

/// Frames are put on the rhythm of the display only where that is wanted and the rhythm is known.
pub proof fn law_without_a_rhythm_nothing_is_rounded(config: DisplaySyncConfig)
    ensures
        !config.enabled ==> !quantises(config),
        config.vsync_interval.nanos == 0 ==> !quantises(config),
        config.enabled && config.vsync_interval.nanos > 0 ==> quantises(config),
{
}

} // verus!
