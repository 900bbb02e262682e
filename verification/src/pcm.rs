//! PCM audio: formats, decoded runs, the resampler's timeline and the trimming after a seek.
use std::collections::VecDeque;
use crate::error::FfmpegError;
use crate::frame::Frame;
use crate::time::Duration;
use vstd::prelude::*;

verus! {

#[derive(Clone, Copy, Debug, PartialEq, Eq, Structural)]
pub enum PcmSampleFormat {
    F32Interleaved,
}

#[derive(Clone, Copy, Debug, PartialEq, Eq, Structural)]
pub struct PcmFormat {
    pub sample_rate: u32,
    pub channels: u32,
    pub sample_format: PcmSampleFormat,
}

/// The format of interleaved single-precision samples.
pub open spec fn interleaved(sample_rate: u32, channels: u32) -> PcmFormat {
    PcmFormat { sample_rate, channels, sample_format: PcmSampleFormat::F32Interleaved }
}

impl PcmFormat {
    pub fn f32_interleaved(sample_rate: u32, channels: u32) -> (r: Self)
        ensures
            r == interleaved(sample_rate, channels),
    {
        PcmFormat { sample_rate, channels, sample_format: PcmSampleFormat::F32Interleaved }
    }
}

impl Default for PcmFormat {
    fn default() -> (r: Self)
        ensures
            r == interleaved(48_000, 2),
    {
        PcmFormat::f32_interleaved(48_000, 2)
    }
}

/// A run of decoded audio. The samples are held as the bits of IEEE 754 single-precision numbers,
/// interleaved by channel.
#[derive(Clone, Debug, PartialEq, Eq)]
pub struct PcmAudioFrame {
    pub format: PcmFormat,
    pub pts: Option<Duration>,
    pub frames: usize,
    pub samples: Vec<u32>,
}

/// How far a decoded timestamp may stray from the resampler's own timeline before the timeline
/// starts anew, in nanoseconds.
pub const RESAMPLER_DISCONTINUITY_NANOS: u128 = 250_000_000;

/// Which timestamp a run of resampled audio gets, and whether the timeline starts anew there.
pub open spec fn resampler_timeline(
    expected: Option<Duration>,
    input: Option<Duration>,
) -> (Option<Duration>, bool) {
    match (expected, input) {
        (None, input) => (input, false),
        (Some(expected), None) => (Some(expected), false),
        (Some(expected), Some(input)) => {
            let drift = expected.nanos - input.nanos;
            if drift > RESAMPLER_DISCONTINUITY_NANOS || -drift > RESAMPLER_DISCONTINUITY_NANOS {
                (Some(input), true)
            } else {
                (Some(expected), false)
            }
        },
    }
}

pub fn select_resampler_output_pts(expected: Option<Duration>, input: Option<Duration>) -> (r: (
    Option<Duration>,
    bool,
))
    ensures
        r == resampler_timeline(expected, input),
{
    let expected = match expected {
        Some(expected) => expected,
        None => {
            return (input, false);
        },
    };
    let input = match input {
        Some(input) => input,
        None => {
            return (Some(expected), false);
        },
    };
    let drift: u128 = if expected.nanos >= input.nanos {
        expected.nanos - input.nanos
    } else {
        input.nanos - expected.nanos
    };
    if drift > RESAMPLER_DISCONTINUITY_NANOS {
        (Some(input), true)
    } else {
        (Some(expected), false)
    }
}

/// Where a run of audio ends; `length` is the run's length in time.
pub open spec fn end_of_run(
    pts: Option<Duration>,
    frames: usize,
    sample_rate: u32,
    length: Duration,
) -> Option<Duration> {
    match pts {
        None => None,
        Some(pts) => if frames == 0 || sample_rate == 0 {
            Some(pts)
        } else {
            Some(pts.sum(length))
        },
    }
}

pub fn pcm_end_pts(
    pts: Option<Duration>,
    frames: usize,
    sample_rate: u32,
    length: Duration,
) -> (r: Option<Duration>)
    ensures
        r == end_of_run(pts, frames, sample_rate, length),
{
    match pts {
        None => None,
        Some(pts) => {
            if frames == 0 || sample_rate == 0 {
                Some(pts)
            } else {
                Some(pts.saturating_add(length))
            }
        },
    }
}

/// The timeline of an audio resampler.
#[derive(Clone, Copy, Debug, PartialEq, Eq, Structural)]
pub struct AudioResampler {
    pub output_format: PcmFormat,
    pub next_output_pts: Option<Duration>,
}

/// How a decoded run is to be resampled.
#[derive(Clone, Copy, Debug, PartialEq, Eq, Structural)]
pub struct ResamplePlan {
    pub pts: Option<Duration>,
    /// Whether what the resampler still holds belongs to another stretch of the timeline and is
    /// to be thrown away.
    pub reanchored: bool,
    pub input_samples: i32,
}

/// How many frames the resampler's output buffer has to hold: at least one.
pub fn resampler_output_capacity(rescaled: i64) -> (r: i32)
    ensures
        r == (if rescaled < 1 {
            1
        } else if rescaled > i32::MAX {
            i32::MAX as int
        } else {
            rescaled as int
        }),
{
    if rescaled < 1 {
        1
    } else if rescaled > i32::MAX as i64 {
        i32::MAX
    } else {
        rescaled as i32
    }
}

/// How many frames a drain of the resampler has to hold, which is none where nothing is held
/// back.
pub fn resampler_drain_capacity(delay: i64) -> (r: i32)
    ensures
        r == (if delay < 0 {
            0
        } else if delay > i32::MAX {
            i32::MAX as int
        } else {
            delay as int
        }),
{
    if delay < 0 {
        0
    } else if delay > i32::MAX as i64 {
        i32::MAX
    } else {
        delay as i32
    }
}

impl AudioResampler {
    /// The number of channels that a run is laid out for.
    pub open spec fn laid_out_channels(self) -> int {
        if self.output_format.channels == 0 { 1 } else { self.output_format.channels as int }
    }

    pub fn new_from_frame(frame: &Frame, output_format: PcmFormat) -> (r: Result<
        Self,
        FfmpegError,
    >)
        ensures
            r == (if frame.sample_rate > 0 && frame.samples > 0 && frame.channels > 0 {
                Ok(AudioResampler { output_format, next_output_pts: None })
            } else {
                Err::<AudioResampler, FfmpegError>(FfmpegError::ExpectedAudioFrame)
            }),
    {
        if !frame.is_audio() {
            return Err(FfmpegError::ExpectedAudioFrame);
        }
        Ok(AudioResampler { output_format, next_output_pts: None })
    }

    pub fn output_format(&self) -> (r: PcmFormat)
        ensures
            r == self.output_format,
    {
        self.output_format
    }

    /// How `frame` is to be resampled.
    pub fn begin_convert(&self, frame: &Frame) -> (r: Result<ResamplePlan, FfmpegError>)
        ensures
            r == (if frame.sample_rate > 0 && frame.samples > 0 && frame.channels > 0 {
                Ok(
                    ResamplePlan {
                        pts: resampler_timeline(self.next_output_pts, frame.shown_at()).0,
                        reanchored: resampler_timeline(self.next_output_pts, frame.shown_at()).1,
                        input_samples: frame.samples,
                    },
                )
            } else {
                Err::<ResamplePlan, FfmpegError>(FfmpegError::ExpectedAudioFrame)
            }),
    {
        if !frame.is_audio() {
            return Err(FfmpegError::ExpectedAudioFrame);
        }
        let (pts, reanchored) = select_resampler_output_pts(
            self.next_output_pts,
            frame.media_pts(),
        );
        Ok(ResamplePlan { pts, reanchored, input_samples: frame.samples })
    }

    /// Takes up what the resampler produced: `converted` frames at the front of `samples`, which
    /// last `length`.
    pub fn finish_convert(
        &mut self,
        pts: Option<Duration>,
        converted: i32,
        samples: Vec<u32>,
        length: Duration,
    ) -> (r: PcmAudioFrame)
        requires
            crate::frame::counted(converted) * old(self).laid_out_channels() <= samples@.len(),
        ensures
            ({
                let frames = crate::frame::counted(converted);
                &&& r.format == old(self).output_format
                &&& r.pts == pts
                &&& r.frames == frames
                &&& r.samples@ == samples@.subrange(0, frames * old(self).laid_out_channels())
                &&& *final(self) == (AudioResampler {
                    next_output_pts: end_of_run(
                        pts,
                        frames as usize,
                        old(self).output_format.sample_rate,
                        length,
                    ),
                    ..*old(self)
                })
            }),
    {
        let frames: usize = if converted < 0 {
            0
        } else {
            converted as usize
        };
        let channels: u32 = if self.output_format.channels == 0 {
            1
        } else {
            self.output_format.channels
        };
        let total: usize = samples.len();
        assert(0 <= frames * channels) by (nonlinear_arith)
            requires
                0 <= frames,
                0 <= channels,
        ;
        let kept: usize = (frames as u128 * channels as u128) as usize;
        let mut samples = samples;
        samples.truncate(kept);
        self.next_output_pts = pcm_end_pts(pts, frames, self.output_format.sample_rate, length);
        PcmAudioFrame { format: self.output_format, pts, frames, samples }
    }

    /// Takes up what a drain produced, which goes on where the last run ended; a drain without
    /// output changes nothing.
    pub fn finish_drain(&mut self, converted: i32, samples: Vec<u32>, length: Duration) -> (r:
        Option<PcmAudioFrame>)
        requires
            crate::frame::counted(converted) * old(self).laid_out_channels() <= samples@.len(),
        ensures
            converted <= 0 ==> r is None && *final(self) == *old(self),
            converted > 0 ==> {
                &&& r matches Some(frame) && frame.format == old(self).output_format && frame.pts
                    == old(self).next_output_pts && frame.frames == converted && frame.samples@
                    == samples@.subrange(0, converted * old(self).laid_out_channels())
                &&& *final(self) == (AudioResampler {
                    next_output_pts: end_of_run(
                        old(self).next_output_pts,
                        converted as usize,
                        old(self).output_format.sample_rate,
                        length,
                    ),
                    ..*old(self)
                })
            },
    {
        if converted <= 0 {
            return None;
        }
        let pts = self.next_output_pts;
        Some(self.finish_convert(pts, converted, samples, length))
    }
}

/// What the trimming after a seek does with a run of audio.
#[derive(Clone, Copy, Debug, PartialEq, Eq, Structural)]
pub enum AudioSeekFloorAction {
    Drop,
    Emit { trimmed_frames: usize },
}

/// The number of audio frames that cover a span, rounded up.
pub open spec fn frames_covering(duration: Duration, sample_rate: u32) -> int {
    crate::time::min_int(
        (duration.nanos * sample_rate + 999_999_999) / 1_000_000_000,
        usize::MAX as int,
    )
}

pub fn duration_to_audio_frames_ceil(duration: Duration, sample_rate: u32) -> (r: usize)
    requires
        duration.valid(),
    ensures
        r == frames_covering(duration, sample_rate),
{
    assert(0 <= duration.nanos * sample_rate <= 18_446_744_073_709_551_615_999_999_999
        * 0xffff_ffff) by (nonlinear_arith)
        requires
            0 <= duration.nanos <= 18_446_744_073_709_551_615_999_999_999,
            0 <= sample_rate <= 0xffff_ffff,
    ;
    let numerator: u128 = duration.nanos * sample_rate as u128;
    let frames: u128 = (numerator + 999_999_999) / 1_000_000_000;
    if frames > usize::MAX as u128 {
        usize::MAX
    } else {
        frames as usize
    }
}

/// What becomes of a run of audio when playback resumes at `target`.
pub open spec fn floor_action(frame: PcmAudioFrame, target: Duration) -> AudioSeekFloorAction {
    let keeps_all = frame.pts is None || frame.pts->0.nanos >= target.nanos
        || frame.format.channels == 0 || frame.format.sample_rate == 0;
    if keeps_all {
        AudioSeekFloorAction::Emit { trimmed_frames: 0 }
    } else {
        let available = frame.samples@.len() / (frame.format.channels as nat);
        let trimmed = frames_covering(target.less(frame.pts->0), frame.format.sample_rate);
        if trimmed >= available {
            AudioSeekFloorAction::Drop
        } else {
            AudioSeekFloorAction::Emit { trimmed_frames: trimmed as usize }
        }
    }
}

/// What becomes of a run of audio when playback resumes at `target`.
pub fn audio_seek_floor_action(frame: &PcmAudioFrame, target: Duration) -> (r: AudioSeekFloorAction)
    requires
        target.valid(),
    ensures
        r == floor_action(*frame, target),
{
    let pts = match frame.pts {
        Some(pts) => pts,
        None => {
            return AudioSeekFloorAction::Emit { trimmed_frames: 0 };
        },
    };
    if pts.nanos >= target.nanos {
        return AudioSeekFloorAction::Emit { trimmed_frames: 0 };
    }
    if frame.format.channels == 0 || frame.format.sample_rate == 0 {
        return AudioSeekFloorAction::Emit { trimmed_frames: 0 };
    }
    let available: u128 = frame.samples.len() as u128 / frame.format.channels as u128;
    let delta = target.saturating_sub(pts);
    let trimmed: usize = duration_to_audio_frames_ceil(delta, frame.format.sample_rate);
    if trimmed as u128 >= available {
        return AudioSeekFloorAction::Drop;
    }
    AudioSeekFloorAction::Emit { trimmed_frames: trimmed }
}

/// A run of audio without its first `trimmed` frames, which last `length`.
pub open spec fn trimmed_run(
    frame: PcmAudioFrame,
    after: PcmAudioFrame,
    trimmed: int,
    length: Duration,
) -> bool {
    let channels = frame.format.channels as int;
    &&& after.format == frame.format
    &&& after.samples@ == frame.samples@.subrange(
        trimmed * channels,
        frame.samples@.len() as int,
    )
    &&& after.frames == after.samples@.len() / (frame.format.channels as nat)
    &&& after.pts == Some(frame.pts->0.sum(length))
}

/// Trims a run of audio so that it starts at or after `target`. `length` is the length in time of
/// the frames that [`audio_seek_floor_action`] says are trimmed.
pub fn trim_audio_frame_to_seek_floor(
    frame: &mut PcmAudioFrame,
    target: Duration,
    length: Duration,
) -> (r: AudioSeekFloorAction)
    requires
        target.valid(),
    ensures
        r == floor_action(*old(frame), target),
        r is Drop || r->trimmed_frames == 0 ==> *final(frame) == *old(frame),
        r is Emit && r->trimmed_frames > 0 ==> trimmed_run(
            *old(frame),
            *final(frame),
            r->trimmed_frames as int,
            length,
        ),
{
    let action = audio_seek_floor_action(frame, target);
    if let AudioSeekFloorAction::Emit { trimmed_frames } = action {
        if trimmed_frames > 0 {
            if let Some(pts) = frame.pts {
                let channels: u32 = frame.format.channels;
                let total: usize = frame.samples.len();
                proof {
                    let available = total as int / channels as int;
                    vstd::arithmetic::div_mod::lemma_fundamental_div_mod(
                        total as int,
                        channels as int,
                    );
                    assert(0 <= trimmed_frames * channels <= channels * available)
                        by (nonlinear_arith)
                        requires
                            0 <= trimmed_frames <= available,
                            0 <= channels,
                    ;
                }
                let cut: usize = (trimmed_frames as u128 * channels as u128) as usize;
                let rest = frame.samples.split_off(cut);
                frame.frames = (rest.len() as u128 / channels as u128) as usize;
                frame.samples = rest;
                frame.pts = Some(pts.saturating_add(length));
            }
        }
    }
    action
}

/// Whether a run of audio survives the seek floor.
pub open spec fn survives_floor(floor: Option<Duration>, frame: PcmAudioFrame) -> bool {
    floor is None || floor_action(frame, floor->0) is Emit
}

/// Whether `after` is what the seek floor leaves of a run of audio, where the frames that it
/// trims last `length`.
pub open spec fn passed_floor(
    floor: Option<Duration>,
    frame: PcmAudioFrame,
    after: PcmAudioFrame,
    length: Duration,
) -> bool {
    match floor {
        None => after == frame,
        Some(target) => match floor_action(frame, target) {
            AudioSeekFloorAction::Drop => after == frame,
            AudioSeekFloorAction::Emit { trimmed_frames } => if trimmed_frames == 0 {
                after == frame
            } else {
                trimmed_run(frame, after, trimmed_frames as int, length)
            },
        },
    }
}

/// Passes a run of audio through the seek floor: the first run that reaches the floor is trimmed
/// to it and lifts it. `length` is the length in time of the frames that are trimmed.
pub fn keep_audio_frame_after_seek_floor(
    seek_floor: &mut Option<Duration>,
    frame: &mut PcmAudioFrame,
    length: Duration,
) -> (r: bool)
    requires
        *old(seek_floor) is Some ==> old(seek_floor)->0.valid(),
    ensures
        r == survives_floor(*old(seek_floor), *old(frame)),
        *final(seek_floor) == (if r {
            None
        } else {
            *old(seek_floor)
        }),
        passed_floor(*old(seek_floor), *old(frame), *final(frame), length),
{
    let target = match *seek_floor {
        Some(target) => target,
        None => {
            return true;
        },
    };
    match trim_audio_frame_to_seek_floor(frame, target, length) {
        AudioSeekFloorAction::Drop => false,
        AudioSeekFloorAction::Emit { .. } => {
            *seek_floor = None;
            true
        },
    }
}

/// One step of the search for a run of audio that survives the seek floor.
#[derive(Debug)]
pub enum AudioFilterStep {
    /// The queue is empty.
    Exhausted,
    /// The time budget is spent; the rest of the queue is kept.
    OutOfTime,
    /// A run was thrown away; the search goes on.
    Filtered,
    /// A run survived.
    Found(PcmAudioFrame),
}

/// Takes the next step of the search for a run of audio that survives the seek floor. At least
/// one run is looked at, whatever the budget. `elapsed` is the time that the search has taken,
/// and `length` the length in time of the frames that the seek floor trims from the first run.
pub fn pop_matching_audio_frame(
    frames: &mut VecDeque<PcmAudioFrame>,
    seek_floor: &mut Option<Duration>,
    filtered_frames: &mut usize,
    inspected_frames: &mut usize,
    elapsed: Duration,
    max_duration: Duration,
    length: Duration,
) -> (r: AudioFilterStep)
    requires
        *old(seek_floor) is Some ==> old(seek_floor)->0.valid(),
    ensures
        old(frames)@.len() == 0 ==> r is Exhausted,
        old(frames)@.len() > 0 && *old(inspected_frames) > 0 && elapsed.nanos >= max_duration.nanos
            ==> r is OutOfTime,
        r is Exhausted || r is OutOfTime ==> {
            &&& final(frames)@ == old(frames)@
            &&& *final(seek_floor) == *old(seek_floor)
            &&& *final(filtered_frames) == *old(filtered_frames)
            &&& *final(inspected_frames) == *old(inspected_frames)
        },
        old(frames)@.len() > 0 && !(*old(inspected_frames) > 0 && elapsed.nanos
            >= max_duration.nanos) ==> {
            let first = old(frames)@[0];
            &&& final(frames)@ == old(frames)@.skip(1)
            &&& *final(inspected_frames) == more(*old(inspected_frames))
            &&& survives_floor(*old(seek_floor), first) ==> {
                &&& r matches AudioFilterStep::Found(frame) && passed_floor(
                    *old(seek_floor),
                    first,
                    frame,
                    length,
                )
                &&& *final(seek_floor) is None
                &&& *final(filtered_frames) == *old(filtered_frames)
            }
            &&& !survives_floor(*old(seek_floor), first) ==> {
                &&& r is Filtered
                &&& *final(seek_floor) == *old(seek_floor)
                &&& *final(filtered_frames) == more(*old(filtered_frames))
            }
        },
{
    if frames.len() == 0 {
        return AudioFilterStep::Exhausted;
    }
    if *inspected_frames > 0 && elapsed.nanos >= max_duration.nanos {
        return AudioFilterStep::OutOfTime;
    }
    let ghost before = frames@;
    match frames.pop_front() {
        None => AudioFilterStep::Exhausted,
        Some(popped) => {
            assert(frames@ =~= before.skip(1));
            let mut frame = popped;
            *inspected_frames = inspected_frames.saturating_add(1);
            if keep_audio_frame_after_seek_floor(seek_floor, &mut frame, length) {
                return AudioFilterStep::Found(frame);
            }
            *filtered_frames = filtered_frames.saturating_add(1);
            AudioFilterStep::Filtered
        },
    }
}

/// A count of one more.
pub open spec fn more(n: usize) -> usize {
    if n == usize::MAX { n } else { (n + 1) as usize }
}

/// A run that ends at or before the target is thrown away: the frames that cover the gap to the
/// target are all it has.
pub proof fn law_audio_before_the_target_is_dropped(frame: PcmAudioFrame, target: Duration)
    requires
        target.valid(),
        frame.pts is Some,
        frame.pts->0.nanos < target.nanos,
        frame.format.channels > 0,
        frame.format.sample_rate > 0,
        // The run, counted in nanoseconds times frames per second, ends at or before the target.
        (frame.samples@.len() / (frame.format.channels as nat)) * 1_000_000_000 <= (target.nanos
            - frame.pts->0.nanos) * frame.format.sample_rate,
    ensures
        floor_action(frame, target) is Drop,
{
    let available = (frame.samples@.len() / (frame.format.channels as nat)) as int;
    let gap = (target.nanos - frame.pts->0.nanos) * frame.format.sample_rate;
    assert((gap + 999_999_999) / 1_000_000_000 >= available) by (nonlinear_arith)
        requires
            available * 1_000_000_000 <= gap,
    ;
    lemma_available_fits(frame);
}

proof fn lemma_available_fits(frame: PcmAudioFrame)
    requires
        frame.format.channels > 0,
    ensures
        frame.samples@.len() / (frame.format.channels as nat) <= usize::MAX,
{
    let total: usize = frame.samples.len();
    assert(total == frame.samples@.len());
    vstd::arithmetic::div_mod::lemma_div_is_ordered_by_denominator(
        total as int,
        1,
        frame.format.channels as int,
    );
}

/// What the trimming leaves starts at or after the target, and by less than one frame: the
/// trimmed frames cover the gap to the target and one frame fewer would not.
pub proof fn law_trimming_covers_the_gap_tightly(frame: PcmAudioFrame, target: Duration)
    requires
        target.valid(),
        floor_action(frame, target) is Emit,
        floor_action(frame, target)->trimmed_frames > 0,
    ensures
        ({
            let trimmed = floor_action(frame, target)->trimmed_frames as int;
            let gap = (target.nanos - frame.pts->0.nanos) * frame.format.sample_rate;
            (trimmed - 1) * 1_000_000_000 < gap <= trimmed * 1_000_000_000
        }),
{
    lemma_available_fits(frame);
    let gap = (target.nanos - frame.pts->0.nanos) * frame.format.sample_rate;
    assert(target.less(frame.pts->0).nanos * frame.format.sample_rate == gap);
    assert(gap >= 0) by (nonlinear_arith)
        requires
            gap == (target.nanos - frame.pts->0.nanos) * frame.format.sample_rate,
            target.nanos >= frame.pts->0.nanos,
    ;
    let trimmed = (gap + 999_999_999) / 1_000_000_000;
    assert(floor_action(frame, target)->trimmed_frames == trimmed);
}

/// The resampler goes on where its last run ended as long as the input agrees to a quarter of a
/// second, on either side; beyond that the input is right and the timeline starts anew.
pub proof fn law_the_timeline_goes_on_without_gaps(expected: Duration, input: Duration)
    ensures
        ({
            let (pts, anew) = resampler_timeline(Some(expected), Some(input));
            let close = expected.nanos <= input.nanos + 250_000_000 && input.nanos <= expected.nanos
                + 250_000_000;
            &&& anew <==> !close
            &&& pts == Some(if close { expected } else { input })
        }),
        resampler_timeline(Some(expected), None) == (Some(expected), false),
        resampler_timeline(None, Some(input)) == (Some(input), false),
        resampler_timeline(None, None) == (None::<Duration>, false),
{
}

/// A run ends its length behind its start; an empty one ends where it starts, and one without a time
/// has no end.
pub proof fn law_a_run_ends_its_length_behind(
    pts: Duration,
    frames: usize,
    sample_rate: u32,
    length: Duration,
)
    requires
        pts.nanos + length.nanos <= crate::time::MAX_DURATION_NANOS,
    ensures
        end_of_run(None, frames, sample_rate, length) is None,
        end_of_run(Some(pts), frames, sample_rate, length) is Some,
        end_of_run(Some(pts), 0, sample_rate, length)->0.nanos == pts.nanos,
        frames > 0 && sample_rate > 0 ==> end_of_run(
            Some(pts),
            frames,
            sample_rate,
            length,
        )->0.nanos == pts.nanos + length.nanos,
{
}

/// A run at or behind the target, and one without a time, are left whole; of an earlier one nothing
/// is left or something is missing.
pub proof fn law_audio_behind_the_target_is_whole(
    frame: PcmAudioFrame,
    after: PcmAudioFrame,
    target: Duration,
    length: Duration,
)
    requires
        passed_floor(Some(target), frame, after, length),
        target.valid(),
    ensures
        frame.pts is None || frame.pts->0.nanos >= target.nanos ==> after == frame
            && survives_floor(Some(target), frame),
        frame.pts is Some && frame.pts->0.nanos < target.nanos && frame.format.channels > 0
            && frame.format.sample_rate > 0 && survives_floor(Some(target), frame) ==> {
            let channels = frame.format.channels as int;
            let gone = frame.samples@.len() - after.samples@.len();
            &&& gone > 0
            &&& gone % channels == 0
            &&& after.format == frame.format
            &&& forall|i: int|
                0 <= i < after.samples@.len() ==> after.samples@[i] == frame.samples@[i + gone]
            &&& after.frames == after.samples@.len() / (frame.format.channels as nat)
            &&& after.frames > 0
            &&& frame.pts->0.nanos + length.nanos <= crate::time::MAX_DURATION_NANOS
                ==> after.pts == Some(
                Duration { nanos: (frame.pts->0.nanos + length.nanos) as u128 },
            )
        },
        survives_floor(None, frame),
{
    if frame.pts is Some && frame.pts->0.nanos < target.nanos && frame.format.channels > 0
        && frame.format.sample_rate > 0 && survives_floor(Some(target), frame) {
        let channels = frame.format.channels as int;
        let gap = target.nanos - frame.pts->0.nanos;
        let rate = frame.format.sample_rate as int;
        let trimmed = floor_action(frame, target)->trimmed_frames as int;
        let len = frame.samples@.len() as int;
        assert(gap * rate >= 1) by (nonlinear_arith)
            requires
                gap >= 1,
                rate >= 1,
        ;
        assert(trimmed >= 1);
        assert(trimmed * channels >= 1) by (nonlinear_arith)
            requires
                trimmed >= 1,
                channels >= 1,
        ;
        assert((trimmed + 1) * channels <= len) by (nonlinear_arith)
            requires
                trimmed < len / channels,
                channels >= 1,
                len >= 0,
        ;
        assert(trimmed * channels + channels == (trimmed + 1) * channels) by (nonlinear_arith);
        assert((trimmed * channels) % channels == 0) by (nonlinear_arith)
            requires
                channels >= 1,
        ;
        assert((len - trimmed * channels) / channels >= 1) by (nonlinear_arith)
            requires
                len - trimmed * channels >= channels,
                channels >= 1,
        ;
    }
}

/// Without a target nothing is taken from a run of sound.
pub proof fn law_without_a_target_sound_is_whole(
    frame: PcmAudioFrame,
    after: PcmAudioFrame,
    length: Duration,
)
    ensures
        passed_floor(None, frame, after, length) <==> after == frame,
        survives_floor(None, frame),
{
}

} // verus!
