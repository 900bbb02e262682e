//! What a player asks of the engine: to seek, to stop, to change a track, to hold video back.
use crate::clock::ClockReading;
use crate::decoder::Platform;
use crate::engine::{
    EngineState, Presentation, SeekPreroll, TickStep, TickTask, TimedSubtitleFrame, TimedVideoFrame,
    VideoPlaybackEngine,
};
use crate::error::FfmpegError;
use crate::events::{VideoDecoderEvent, VideoFrameImportFailure};
use crate::frame::PixelFormat;
use crate::playback::{PlaybackError, PlaybackRunState};
use crate::session::PlaybackSession;
use crate::subtitle::DecodedSubtitleFrame;
use crate::text::joined;
use crate::time::{Duration, Instant};
use crate::video::{DecodedVideoFrame, VideoPath, VideoRoute};
use vstd::prelude::*;

verus! {

/// The subtitle that takes another from the screen.
pub open spec fn clear_at(frame: Option<DecodedSubtitleFrame>, media_time: Duration) -> Option<
    TimedSubtitleFrame,
> {
    match frame {
        Some(frame) => Some(
            TimedSubtitleFrame { frame, pts: Some(media_time), media_time, late_by: None },
        ),
        None => None,
    }
}

/// Puts the time on the subtitle that takes another from the screen.
pub fn timed_clear(frame: Option<DecodedSubtitleFrame>, media_time: Duration) -> (r: Option<
    TimedSubtitleFrame,
>)
    ensures
        r == clear_at(frame, media_time),
{
    match frame {
        Some(frame) => Some(
            TimedSubtitleFrame { frame, pts: Some(media_time), media_time, late_by: None },
        ),
        None => None,
    }
}

/// A session whose video is no longer held back.
pub open spec fn with_video_resumed(session: PlaybackSession) -> PlaybackSession {
    PlaybackSession {
        video: VideoPath {
            route: VideoRoute { suspended: false, ..session.video.route },
            ..session.video
        },
        ..session
    }
}

impl VideoPlaybackEngine {
    pub fn is_buffering(&self) -> (r: bool)
        ensures
            r == self.run.buffering,
    {
        self.run.buffering
    }

    pub fn is_waiting_for_first_frame(&self) -> (r: bool)
        ensures
            r == self.run.waiting_for_first_frame,
    {
        self.run.waiting_for_first_frame
    }

    pub fn buffering_video_pts(&self) -> (r: Option<Duration>)
        ensures
            r == self.run.buffering_video_pts,
    {
        self.run.buffering_video_pts
    }

    pub fn media_time_at(&self, reading: ClockReading) -> (r: Duration)
        ensures
            r == self.run.clock.shows(reading),
    {
        self.run.media_time_at(reading)
    }

    pub fn take_video_decoder_events(&mut self) -> (r: Vec<VideoDecoderEvent>)
        ensures
            r@ == old(self).session.video.events@,
            final(self).session.video.events@ == Seq::<VideoDecoderEvent>::empty(),
            final(self).session.video.route == old(self).session.video.route,
            final(self).session.video.frames == old(self).session.video.frames,
            final(self).session.video.pending == old(self).session.video.pending,
            final(self).session.video.unavailable_reason
                == old(self).session.video.unavailable_reason,
            final(self).session.same_but_video(old(self).session),
            final(self).run == old(self).run,
            final(self).pending_frame == old(self).pending_frame,
            final(self).pending_audio == old(self).pending_audio,
            final(self).pending_subtitle == old(self).pending_subtitle,
    {
        self.session.video.take_events()
    }

    /// Whether nothing waits in the engine itself, as before a seek.
    pub open spec fn discarded(self, before: VideoPlaybackEngine) -> bool {
        &&& self.pending_frame is None
        &&& self.pending_audio is None
        &&& self.pending_subtitle is None
        &&& self.run == (EngineState {
            audio_stall: crate::engine::no_audio_stall(),
            ..before.run
        })
    }

    /// Begins a seek. What the engine holds is thrown away before a decoder is touched, even where
    /// the seek is then refused.
    pub fn begin_seek(&mut self, position: Duration, platform: Platform) -> (r: Result<
        (),
        PlaybackError,
    >)
        ensures
            final(self).discarded(*old(self)),
            final(self).session.seek_begun(old(self).session, position, true, platform, r),
    {
        self.discard_pending_frames_for_seek();
        self.session.begin_seek(position, true, platform)
    }

    /// Ends a seek when the session has been sent to the place.
    pub fn finish_seek(&mut self, position: Duration, resume_after_seek: bool, now: Instant)
        requires
            position.valid(),
        ensures
            final(self).same_but_run(*old(self)),
            final(self).run == old(self).run.sought(
                position,
                crate::playback::state_after_seek(old(self).run.state, resume_after_seek),
                now,
            ),
            final(self).run.well_formed(),
    {
        self.run.finish_seek(position, resume_after_seek, now);
    }

    /// Begins to stop. A medium whose video cannot be decoded can be stopped too.
    pub fn begin_stop(&mut self, platform: Platform) -> (r: Result<(), PlaybackError>)
        ensures
            final(self).discarded(*old(self)),
            final(self).session.seek_begun(
                old(self).session,
                Duration { nanos: 0 },
                false,
                platform,
                r,
            ),
    {
        self.discard_pending_frames_for_seek();
        self.session.begin_seek(Duration::zero(), false, platform)
    }

    /// Ends a stop when the session is at the start.
    pub fn finish_stop(&mut self, now: Instant)
        ensures
            final(self).session == old(self).session,
            final(self).pending_frame is None,
            final(self).pending_audio is None,
            final(self).pending_subtitle is None,
            final(self).run == old(self).run.stopped(now),
            final(self).run.well_formed(),
    {
        self.pending_frame = None;
        self.pending_audio = None;
        self.pending_subtitle = None;
        self.run.commit_stopped(now);
    }

    /// Where the streams start again for another audio track. Nothing where the track is the one
    /// already.
    pub fn plan_audio_track(&self, track_id: Option<i64>, reading: ClockReading) -> (r: Option<
        Duration,
    >)
        ensures
            r == (if self.session.info.selected_audio_track == track_id {
                None
            } else {
                Some(self.run.clock.shows(reading))
            }),
    {
        if self.session.info.selected_audio_track == track_id {
            return None;
        }
        Some(self.run.media_time_at(reading))
    }

    /// Where the streams start again for another subtitle track. Nothing where the track is the
    /// one already.
    pub fn plan_subtitle_track(&self, track_id: Option<i64>, reading: ClockReading) -> (r: Option<
        Duration,
    >)
        ensures
            r == (if self.session.info.selected_subtitle_track == track_id {
                None
            } else {
                Some(self.run.clock.shows(reading))
            }),
    {
        if self.session.info.selected_subtitle_track == track_id {
            return None;
        }
        Some(self.run.media_time_at(reading))
    }

    /// Ends the new start of the streams that another track called for.
    pub fn finish_stream_reset(&mut self, media_time: Duration, now: Instant)
        requires
            media_time.valid(),
        ensures
            final(self).same_but_run(*old(self)),
            final(self).run == old(self).run.sought(media_time, old(self).run.state, now),
            final(self).run.well_formed(),
    {
        self.run.finish_stream_reset(media_time, now);
    }

    /// Ends the addition of a subtitle file: the subtitle that waits is of another track.
    pub fn finish_add_subtitle(
        &mut self,
        clear: Option<DecodedSubtitleFrame>,
        media_time: Duration,
    ) -> (r: Option<TimedSubtitleFrame>)
        ensures
            r == clear_at(clear, media_time),
            final(self).session == old(self).session,
            final(self).run == old(self).run,
            final(self).pending_frame == old(self).pending_frame,
            final(self).pending_audio == old(self).pending_audio,
            final(self).pending_subtitle is None,
    {
        self.pending_subtitle = None;
        timed_clear(clear, media_time)
    }

    /// Removes a subtitle track. Where something was on the screen, the subtitle that waits goes
    /// with it.
    pub fn remove_subtitle_track(&mut self, track_id: i64, media_time: Duration) -> (r: Result<
        Option<TimedSubtitleFrame>,
        PlaybackError,
    >)
        ensures
            final(self).run == old(self).run,
            final(self).pending_frame == old(self).pending_frame,
            final(self).pending_audio == old(self).pending_audio,
            final(self).pending_subtitle == (if r is Ok && r->Ok_0 is Some {
                None
            } else {
                old(self).pending_subtitle
            }),
            final(self).session.subtitle_removed(
                old(self).session,
                track_id,
                media_time,
                match r {
                    Ok(Some(timed)) => Ok(Some(timed.frame)),
                    Ok(None) => Ok(None),
                    Err(error) => Err(error),
                },
            ),
            r is Ok ==> r->Ok_0 == clear_at(
                match r->Ok_0 {
                    Some(timed) => Some(timed.frame),
                    None => None,
                },
                media_time,
            ),
    {
        match self.session.remove_subtitle_track(track_id, media_time) {
            Err(error) => Err(error),
            Ok(None) => Ok(None),
            Ok(Some(frame)) => {
                self.pending_subtitle = None;
                Ok(timed_clear(Some(frame), media_time))
            },
        }
    }

    /// Begins to take video up again: the session is sent to where the clock stands.
    pub fn begin_video_resume(&mut self, reading: ClockReading, platform: Platform) -> (r: Result<
        Duration,
        PlaybackError,
    >)
        ensures
            final(self).run == old(self).run,
            final(self).pending_frame == old(self).pending_frame,
            final(self).pending_audio == old(self).pending_audio,
            final(self).pending_subtitle == old(self).pending_subtitle,
            r is Ok ==> r->Ok_0 == old(self).run.clock.shows(reading),
            final(self).session.seek_begun(
                with_video_resumed(old(self).session),
                old(self).run.clock.shows(reading),
                true,
                platform,
                match r {
                    Ok(_) => Ok(()),
                    Err(error) => Err(error),
                },
            ),
    {
        let position = self.run.media_time_at(reading);
        self.session.video.route.suspended = false;
        match self.session.begin_seek(position, true, platform) {
            Ok(()) => Ok(position),
            Err(error) => Err(error),
        }
    }

    /// Takes video up again, when the session has been sent to the place: as a seek that keeps what
    /// playback does.
    pub fn finish_video_resume(&mut self, position: Duration, now: Instant)
        requires
            position.valid(),
        ensures
            final(self).session == old(self).session,
            final(self).pending_frame is None,
            final(self).pending_audio is None,
            final(self).pending_subtitle is None,
            final(self).run == (EngineState {
                last_presented_pts: None,
                waiting_for_first_frame: true,
                video_seek_floor: Some(position),
                audio_seek_floor: Some(position),
                preroll: crate::engine::fresh_preroll(now),
                ..old(self).run
            }),
            final(self).run.well_formed(),
    {
        self.pending_frame = None;
        self.pending_audio = None;
        self.pending_subtitle = None;
        self.run.last_presented_pts = None;
        self.run.waiting_for_first_frame = true;
        self.run.video_seek_floor = Some(position);
        self.run.audio_seek_floor = Some(position);
        self.run.preroll = SeekPreroll { started_at: Some(now), dropped_frames: 0, last_log: None };
    }

    /// Whether a report tells of the picture that waits, which its surface did not hand over.
    pub open spec fn undelivered(self, error: Seq<char>, failure: VideoFrameImportFailure) -> bool {
        let pending = self.pending_frame->0;
        &&& failure == (VideoFrameImportFailure {
            decode_backend: pending.decode_backend,
            mediacodec_surface: pending.frame.format == PixelFormat::MediaCodec,
            codec: match self.session.info.selected_video_track {
                None => None,
                Some(track_id) => crate::tracks::codec_listed(
                    self.session.info.tracks@,
                    track_id,
                ),
            },
            pixel_format: pending.frame.format_name,
            line_sizes: failure.line_sizes,
            width: crate::frame::counted(pending.frame.width),
            height: crate::frame::counted(pending.frame.height),
            generation: 0,
            reason: failure.reason,
        })
        &&& forall|i: int|
            0 <= i < 4 ==> #[trigger] failure.line_sizes@[i] == pending.frame.planes@[i].stride
        &&& failure.reason@ == "stage=android_mediacodec_worker_prepare reason="@ + error
    }

    /// What is reported of the picture that waits, when its surface did not hand it over.
    pub fn delivery_failure(&self, error: &str) -> (r: Option<VideoFrameImportFailure>)
        ensures
            self.pending_frame is None <==> r is None,
            r is Some ==> self.undelivered(error@, r->0),
    {
        match &self.pending_frame {
            None => None,
            Some(pending) => Some(
                VideoFrameImportFailure {
                    decode_backend: pending.decode_backend,
                    mediacodec_surface: pending.frame.is_mediacodec(),
                    codec: self.session.selected_video_codec(),
                    pixel_format: pending.frame.pixel_format(),
                    line_sizes: pending.frame.line_sizes(),
                    width: pending.frame.width(),
                    height: pending.frame.height(),
                    generation: 0,
                    reason: joined("stage=android_mediacodec_worker_prepare reason=", error),
                },
            ),
        }
    }

    /// Whether the picture that waits is handed over by a surface.
    pub fn awaits_delivery(&self, platform: Platform) -> (r: bool)
        ensures
            r == (platform == Platform::Android && self.pending_frame is Some
                && self.pending_frame->0.frame.format == PixelFormat::MediaCodec),
    {
        match &self.pending_frame {
            None => false,
            Some(pending) => platform == Platform::Android && pending.frame.is_mediacodec(),
        }
    }

    /// Goes on with the picture that is due, when its surface was asked for it. Where the surface
    /// has no room the picture waits for the next tick; any other failure is reported, and the
    /// decoder is replaced.
    pub fn finish_due(
        &mut self,
        task: TickTask,
        presentation: Presentation,
        delivered: Result<(), FfmpegError>,
    ) -> (r: DueStep)
        ensures
            delivered is Ok ==> r is Shown && final(self).presented(
                *old(self),
                task,
                presentation,
                r->Shown_0,
            ),
            delivered is Err ==> *final(self) == *old(self),
            delivered is Err && delivered->Err_0 is AndroidMediaCodecBackpressure ==> r
                == DueStep::Shown(None),
            delivered is Err && !(delivered->Err_0 is AndroidMediaCodecBackpressure) ==> (if old(
                self).pending_frame is Some {
                &&& r is Replace
                &&& r->Replace_error == delivered->Err_0
                &&& old(self).undelivered(delivered->Err_0.text(), r->Replace_failure)
            } else {
                r == DueStep::Failed(PlaybackError::Ffmpeg(delivered->Err_0))
            }),
    {
        match delivered {
            Ok(()) => DueStep::Shown(self.present(task, presentation)),
            Err(error) => {
                if error.is_android_mediacodec_backpressure() {
                    return DueStep::Shown(None);
                }
                match self.delivery_failure(error.message().as_str()) {
                    Some(failure) => DueStep::Replace { failure, error },
                    None => DueStep::Failed(PlaybackError::Ffmpeg(error)),
                }
            },
        }
    }
}

/// How a picture that is due goes on, when its surface was asked for it.
#[derive(Debug)]
pub enum DueStep {
    Shown(Option<TimedVideoFrame>),
    /// The decoder is to be replaced, for the failure.
    Replace { failure: VideoFrameImportFailure, error: FfmpegError },
    Failed(PlaybackError),
}

/// Ends a tick whose picture was not handed over: there is none where the decoder was replaced, and
/// the failure stands where it was not.
pub fn finish_replacement(replaced: bool, error: FfmpegError) -> (r: Result<
    Option<TimedVideoFrame>,
    PlaybackError,
>)
    ensures
        r == (if replaced {
            Ok::<Option<TimedVideoFrame>, PlaybackError>(None)
        } else {
            Err(PlaybackError::Ffmpeg(error))
        }),
{
    if replaced {
        Ok(None)
    } else {
        Err(PlaybackError::Ffmpeg(error))
    }
}

/// A seek parks the clock on its target: whatever the time, the clock shows the target, also once
/// playback has been started, until the first picture of the target is shown.
pub proof fn law_a_seek_parks_the_clock(
    run: EngineState,
    position: Duration,
    state: PlaybackRunState,
    now: Instant,
    started: Instant,
    reading: ClockReading,
)
    ensures
        run.sought(position, state, now).clock.shows(reading) == position,
        run.sought(position, state, now).playing(started).clock.shows(reading) == position,
        run.sought(position, state, now).playing(started).waiting_for_first_frame,
{
}

/// The first picture behind a seek starts the clock at that picture, unless data is missing.
pub proof fn law_the_first_picture_starts_the_clock(
    run: EngineState,
    pts: Duration,
    reading: ClockReading,
)
    requires
        pts.valid(),
    ensures
        crate::engine::at_first_picture(run, Some(pts), reading.now).clock.shows(
            reading.at_anchor(),
        ) == pts,
        crate::engine::at_first_picture(run, Some(pts), reading.now).clock.anchor is Some <==> (
        run.clock.anchor is Some || !run.buffering),
{
}

/// No picture before the target of a seek is ever shown.
pub proof fn law_nothing_before_the_target_is_shown(
    before: EngineState,
    after: EngineState,
    frame: DecodedVideoFrame,
    left: Option<DecodedVideoFrame>,
    task: TickTask,
    elapsed: Duration,
    reading: ClockReading,
    step: TickStep,
)
    requires
        crate::engine::ticked(before, after, frame, left, task, elapsed, reading, step),
        before.before_target(frame.frame.shown_at()),
    ensures
        step is Nothing || step is Continue,
        left is None,
        after.video_seek_floor == before.video_seek_floor,
        after.clock == before.clock,
{
}

/// A seek while paused shows one picture: the seek makes the tick look for it, and once it has been
/// shown no tick looks for another.
pub proof fn law_a_paused_seek_shows_one_picture(
    run: EngineState,
    position: Duration,
    now: Instant,
    shown: Option<Duration>,
)
    ensures
        run.sought(position, PlaybackRunState::Paused, now).looks_for_picture() == Some(true),
        (EngineState {
            last_presented_pts: shown,
            paused_seek_frame_pending: false,
            ..run.sought(position, PlaybackRunState::Paused, now)
        }).looks_for_picture() is None,
{
}

/// Where playback is paused before the first picture of a seek has come, that picture is still
/// looked for, and the clock stays on the target.
pub proof fn law_a_pause_keeps_the_picture_of_a_seek(
    run: EngineState,
    position: Duration,
    now: Instant,
    pause: ClockReading,
    later: ClockReading,
)
    ensures
        run.sought(position, PlaybackRunState::Playing, now).paused(pause).looks_for_picture()
            == Some(true),
        run.sought(position, PlaybackRunState::Playing, now).paused(pause).clock.shows(later)
            == position,
{
}

/// A stopped engine stands at the start, shows nothing, and starts from there.
pub proof fn law_a_stop_goes_back_to_the_start(
    run: EngineState,
    now: Instant,
    started: Instant,
    reading: ClockReading,
)
    ensures
        run.stopped(now).looks_for_picture() is None,
        run.stopped(now).clock.shows(reading) == (Duration { nanos: 0 }),
        run.stopped(now).playing(started).clock.shows(reading) == (Duration { nanos: 0 }),
        run.stopped(now).playing(started).looks_for_picture() == Some(false),
{
}

/// Playback that has ended is played again from the start.
pub proof fn law_a_replay_begins_at_the_start(
    run: EngineState,
    duration: Option<Duration>,
    end: ClockReading,
    now: Instant,
    reading: ClockReading,
)
    ensures
        ({
            let ended = run.ended(duration, end);
            let zero = Duration { nanos: 0 };
            let again = ended.sought(
                zero,
                crate::playback::state_after_seek(ended.state, false),
                now,
            ).playing(now);
            &&& crate::playback::state_after_seek(ended.state, false) != PlaybackRunState::Ended
            &&& !again.eof
            &&& again.clock.shows(reading) == zero
            &&& again.looks_for_picture() == Some(false)
        }),
{
}

/// While data is missing the clock stands still, and only one more picture is shown.
pub proof fn law_buffering_holds_playback(
    run: EngineState,
    begun: ClockReading,
    later: ClockReading,
    pts: Duration,
)
    requires
        run.state == PlaybackRunState::Playing,
    ensures
        ({
            let held = EngineState {
                clock: run.clock.paused(begun),
                buffering: true,
                buffering_video_pts: None,
                ..run
            };
            let shown = EngineState { buffering_video_pts: Some(pts), ..held };
            &&& held.clock.shows(later) == run.clock.shows(begun)
            &&& held.looks_for_picture() == Some(false)
            &&& shown.looks_for_picture() is None
        }),
{
}

/// What clears a subtitle from the screen is shown at once.
pub proof fn law_clearing_is_shown_at_once(
    frame: Option<DecodedSubtitleFrame>,
    media_time: Duration,
)
    ensures
        clear_at(frame, media_time) is Some <==> frame is Some,
        frame is Some ==> clear_at(frame, media_time)->0.frame == frame->0 && clear_at(
            frame,
            media_time,
        )->0.media_time == media_time && clear_at(frame, media_time)->0.pts == Some(media_time)
            && clear_at(frame, media_time)->0.late_by is None,
{
}

/// Nothing that waits in the engine outlives a seek, and what is known of playback stays.
pub proof fn law_nothing_waits_behind_a_seek(
    after: VideoPlaybackEngine,
    before: VideoPlaybackEngine,
)
    requires
        after.discarded(before),
    ensures
        after.pending_frame is None,
        after.pending_audio is None,
        after.pending_subtitle is None,
        after.run.clock == before.run.clock,
        after.run.state == before.run.state,
        after.run.timing == before.run.timing,
        after.run.last_presented_pts == before.run.last_presented_pts,
        after.run.eof == before.run.eof,
{
}

/// Taking up the decoding of pictures again touches nothing but that.
pub proof fn law_resuming_video_changes_nothing_else(session: PlaybackSession)
    ensures
        !with_video_resumed(session).video.route.suspended,
        with_video_resumed(session).video.route.decoder == session.video.route.decoder,
        with_video_resumed(session).video.frames == session.video.frames,
        with_video_resumed(session).video.pending == session.video.pending,
        with_video_resumed(session).audio == session.audio,
        with_video_resumed(session).subtitles == session.subtitles,
        with_video_resumed(session).demuxer == session.demuxer,
{
}

} // verus!
