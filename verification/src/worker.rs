//! The playback worker: what it does with commands, with what the engine brings, and when.
use crate::buffering::{
    should_prefill_audio, update_buffering, AudioFeed, AudioOutputBackpressureState,
    BackpressureReport, PlaybackBufferingTracker,
};
use crate::channel::{Fate, Outlet};
use crate::clock::ClockReading;
use crate::decoder::DecoderBackend;
use crate::engine::{
    EngineState, TimedAudioFrame, TimedSubtitleFrame, TimedVideoFrame, VideoPlaybackEngine,
};
use crate::events::{PlayerEvent, VideoDecoderEvent, VideoFrameImportFailure};
use crate::media::{PlayerError, PlayerState};
use crate::playback::PlaybackRunState;
use crate::player::PlaybackCommand;
use crate::shared::{
    begin_playback_command_execution, count_generation, later_of, video_import_feedback_is_current,
    AudioFrameEmitResult, PlayerAudioFrame, PlayerInner, PlayerStatus, PlayerSubtitleFrame,
    PlayerVideoFrame,
};
use crate::subtitle::SubtitleTrackConfig;
use crate::text::joined;
use crate::time::{Duration, Instant};
use vstd::prelude::*;

verus! {

/// How many runs of audio are decoded in a turn.
pub const AUDIO_PREFILL_AFTER_VIDEO_LIMIT: usize = 8;

/// How many packets are read for one run of audio.
pub const AUDIO_PREFILL_PACKET_BUDGET: usize = 6;

/// How long audio is decoded in a turn.
pub const AUDIO_PREFILL_TIME_BUDGET_NANOS: u128 = 5_000_000;

/// How often listeners are told of the position.
pub const POSITION_EVENT_INTERVAL_NANOS: u128 = 100_000_000;

/// How long the worker waits for a command: hardly at all while there is something to show.
pub fn playback_poll_interval(state: PlaybackRunState, paused_seek_frame_pending: bool) -> (r: Duration)
    ensures
        r.nanos == (if state == PlaybackRunState::Playing || (state == PlaybackRunState::Paused
            && paused_seek_frame_pending) {
            2_000_000int
        } else {
            50_000_000
        }),
{
    if state == PlaybackRunState::Playing || (state == PlaybackRunState::Paused
        && paused_seek_frame_pending) {
        Duration::from_millis(2)
    } else {
        Duration::from_millis(50)
    }
}

/// A position that listeners have not been told of.
#[derive(Clone, Copy, Debug, PartialEq, Eq, Structural)]
pub struct PositionMark {
    pub generation: u64,
    pub position: Duration,
}

/// What the playback worker knows.
#[derive(Clone, Copy, Debug, PartialEq, Eq, Structural)]
pub struct PlaybackWorker {
    pub generation: u64,
    pub executed_sequence: u64,
    pub quiesced: bool,
    pub position: Option<PositionMark>,
    pub position_told_at: Instant,
    pub eof_published: bool,
    pub audio: AudioFeed,
    pub backpressure: AudioOutputBackpressureState,
    pub buffering: PlaybackBufferingTracker,
}

/// How a command goes on.
pub enum CommandStep {
    Done,
    /// The command has been carried out and answered; nothing more is done with the reply.
    Acknowledged { reply: Outlet<()> },
    /// The worker ends.
    Exit,
    /// The engine starts; its outcome goes to [`PlaybackWorker::finish_play`].
    Play { sequence: u64, generation: u64, from: PlaybackRunState },
    /// The engine seeks; its outcome goes to [`PlaybackWorker::finish_seek`].
    Seek { position: Duration, sequence: u64, generation: u64, resume_after_seek: bool },
    /// The engine stops; its outcome goes to [`PlaybackWorker::finish_stop`].
    Stop { sequence: u64, generation: u64 },
    /// The decoder is replaced; the outcome goes to [`PlaybackWorker::finish_import_failure`].
    ReplaceDecoder(VideoFrameImportFailure),
    /// A file is opened; the outcome goes to [`PlaybackWorker::finish_add_subtitle`].
    AddSubtitle {
        config: SubtitleTrackConfig,
        reply: Outlet<Result<SubtitleTrackConfig, String>>,
    },
    /// The outcome goes to [`PlaybackWorker::finish_track_change`].
    SelectAudio(Option<i64>),
    /// The outcome goes to [`PlaybackWorker::finish_track_change`].
    SelectSubtitle(Option<i64>),
    /// The outcome goes to [`PlaybackWorker::finish_suspend`].
    Suspend { suspended: bool, reply: Outlet<Result<(), String>> },
}

/// How the decoding of audio in a turn goes on.
#[derive(Clone, Copy, Debug, PartialEq, Eq, Structural)]
pub enum PumpNext {
    Again,
    Enough,
    /// The receiver has had no room for too long.
    Blocked(BackpressureReport),
}

/// What listeners are told of a failure.
pub open spec fn failure_events(status: PlayerStatus, error: PlayerError) -> Seq<PlayerEvent> {
    seq![PlayerEvent::Error(error)] + status.state_events(PlayerState::Error)
}

/// Ends playback for good with an error. The engine is paused first, so that the same failure is not
/// met again and again.
fn fail_with(engine: &mut VideoPlaybackEngine, inner: &mut PlayerInner, error: PlayerError, reading: ClockReading)
    ensures
        final(engine).same_but_run(*old(engine)),
        final(engine).run == old(engine).run.paused(reading),
        final(inner).became(
            *old(inner),
            PlayerStatus { state: PlayerState::Error, ..old(inner).status },
            failure_events(old(inner).status, error),
        ),
{
    engine.run.pause(reading);
    inner.emit(PlayerEvent::Error(error));
    inner.set_state(PlayerState::Error);
    assert(inner.outbox@ =~= old(inner).outbox@ + failure_events(old(inner).status, error));
}

/// Ends playback with a failure of decoding, demuxing or the audio output.
pub fn fail_playback(
    engine: &mut VideoPlaybackEngine,
    inner: &mut PlayerInner,
    message: String,
    reading: ClockReading,
)
    ensures
        final(engine).same_but_run(*old(engine)),
        final(engine).run == old(engine).run.paused(reading),
        final(inner).became(
            *old(inner),
            PlayerStatus { state: PlayerState::Error, ..old(inner).status },
            failure_events(old(inner).status, PlayerError::Playback(message)),
        ),
{
    fail_with(engine, inner, PlayerError::Playback(message), reading);
}

/// Ends playback with a picture that the renderer cannot show.
pub fn fail_video_import(
    engine: &mut VideoPlaybackEngine,
    inner: &mut PlayerInner,
    message: String,
    reading: ClockReading,
)
    ensures
        final(engine).same_but_run(*old(engine)),
        final(engine).run == old(engine).run.paused(reading),
        final(inner).became(
            *old(inner),
            PlayerStatus { state: PlayerState::Error, ..old(inner).status },
            failure_events(old(inner).status, PlayerError::Renderer(message)),
        ),
{
    fail_with(engine, inner, PlayerError::Renderer(message), reading);
}

/// A subtitle of the engine as the player hands it out.
pub open spec fn handed_out(frame: TimedSubtitleFrame, generation: u64) -> PlayerSubtitleFrame {
    PlayerSubtitleFrame {
        frame: frame.frame,
        pts: frame.pts,
        media_time: frame.media_time,
        late_by: frame.late_by,
        generation,
    }
}

pub fn player_subtitle_frame(frame: TimedSubtitleFrame, generation: u64) -> (r: PlayerSubtitleFrame)
    ensures
        r == handed_out(frame, generation),
{
    PlayerSubtitleFrame {
        frame: frame.frame,
        pts: frame.pts,
        media_time: frame.media_time,
        late_by: frame.late_by,
        generation,
    }
}

/// The text of a playback that could not be started.
pub open spec fn start_failure(from: PlaybackRunState, error: Seq<char>) -> Seq<char> {
    if from == PlaybackRunState::Stopped || from == PlaybackRunState::Ended {
        "failed to restart playback from "@ + from.name() + " at zero: "@ + error
    } else {
        "failed to start playback from "@ + from.name() + ": "@ + error
    }
}

fn start_failure_text(from: PlaybackRunState, error: &str) -> (r: String)
    ensures
        r@ == start_failure(from, error@),
{
    if from == PlaybackRunState::Stopped || from == PlaybackRunState::Ended {
        let mut text = joined("failed to restart playback from ", from.as_str());
        text.append(" at zero: ");
        text.append(error);
        text
    } else {
        let mut text = joined("failed to start playback from ", from.as_str());
        text.append(": ");
        text.append(error);
        text
    }
}

impl PlaybackWorker {
    pub open spec fn started(initial_generation: u64, now: Instant) -> PlaybackWorker {
        PlaybackWorker {
            generation: crate::shared::counted_generation(initial_generation),
            executed_sequence: 0,
            quiesced: false,
            position: None,
            position_told_at: if now.nanos >= POSITION_EVENT_INTERVAL_NANOS {
                Instant { nanos: (now.nanos - POSITION_EVENT_INTERVAL_NANOS) as u128 }
            } else {
                now
            },
            eof_published: false,
            audio: AudioFeed::silent(),
            backpressure: AudioOutputBackpressureState::relaxed(),
            buffering: PlaybackBufferingTracker::calm(),
        }
    }

    pub fn new(initial_generation: u64, now: Instant) -> (r: Self)
        ensures
            r == Self::started(initial_generation, now),
    {
        PlaybackWorker {
            generation: count_generation(initial_generation),
            executed_sequence: 0,
            quiesced: false,
            position: None,
            position_told_at: if now.nanos >= POSITION_EVENT_INTERVAL_NANOS {
                Instant { nanos: now.nanos - POSITION_EVENT_INTERVAL_NANOS }
            } else {
                now
            },
            eof_published: false,
            audio: AudioFeed { snapshot: None, observed_at: None },
            backpressure: AudioOutputBackpressureState::default(),
            buffering: PlaybackBufferingTracker::default(),
        }
    }

    /// How long the worker waits for a command. An output that is quiesced cannot show a preview, so
    /// there is no hurry then.
    pub fn poll_interval(&self, engine: &VideoPlaybackEngine) -> (r: Duration)
        ensures
            r.nanos == (if engine.run.state == PlaybackRunState::Playing || (engine.run.state
                == PlaybackRunState::Paused && engine.run.paused_seek_frame_pending
                && !self.quiesced) {
                2_000_000int
            } else {
                50_000_000
            }),
    {
        playback_poll_interval(
            engine.state(),
            engine.has_pending_paused_seek_frame() && !self.quiesced,
        )
    }

    /// What is known of the audio output once a command has come. What it said before a seek, a stop,
    /// another track or a restart no longer counts.
    pub open spec fn feed_after(
        feed: AudioFeed,
        command: PlaybackCommand,
        state: PlaybackRunState,
        now: Instant,
    ) -> AudioFeed {
        match command {
            PlaybackCommand::AudioClock(snapshot) => AudioFeed {
                snapshot: Some(snapshot),
                observed_at: Some(now),
            },
            PlaybackCommand::Play { .. } => if state == PlaybackRunState::Stopped || state
                == PlaybackRunState::Ended {
                AudioFeed::silent()
            } else {
                feed
            },
            PlaybackCommand::Seek { .. } => AudioFeed::silent(),
            PlaybackCommand::Stop { .. } => AudioFeed::silent(),
            PlaybackCommand::SelectAudioTrack(_) => AudioFeed::silent(),
            _ => feed,
        }
    }

    /// Notes what a command says of the audio output.
    pub fn observe_audio_pump_command(
        &mut self,
        state: PlaybackRunState,
        command: &PlaybackCommand,
        now: Instant,
    )
        ensures
            *final(self) == (PlaybackWorker {
                audio: Self::feed_after(old(self).audio, *command, state, now),
                ..*old(self)
            }),
    {
        let silent = AudioFeed { snapshot: None, observed_at: None };
        match command {
            PlaybackCommand::AudioClock(snapshot) => {
                self.audio = AudioFeed { snapshot: Some(*snapshot), observed_at: Some(now) };
            },
            PlaybackCommand::Play { .. } => {
                if state == PlaybackRunState::Stopped || state == PlaybackRunState::Ended {
                    self.audio = silent;
                }
            },
            PlaybackCommand::Seek { .. } => {
                self.audio = silent;
            },
            PlaybackCommand::Stop { .. } => {
                self.audio = silent;
            },
            PlaybackCommand::SelectAudioTrack(_) => {
                self.audio = silent;
            },
            _ => {},
        }
    }

    /// The worker with a command executed, where it is not overtaken.
    pub open spec fn executing(self, sequence: u64) -> PlaybackWorker {
        PlaybackWorker {
            executed_sequence: if sequence > self.executed_sequence {
                sequence
            } else {
                self.executed_sequence
            },
            ..self
        }
    }

    /// Whether a command to play, to seek or to stop was taken: it waits for the engine, unless a
    /// later one has been executed.
    pub open spec fn taken(
        self,
        after: PlaybackWorker,
        sequence: u64,
        step: CommandStep,
        wanted: CommandStep,
    ) -> bool {
        &&& after == self.executing(sequence)
        &&& step == (if sequence > self.executed_sequence {
            wanted
        } else {
            CommandStep::Done
        })
    }

    /// Takes a command to play.
    pub fn take_play(&mut self, sequence: u64, generation: u64, from: PlaybackRunState) -> (r:
        CommandStep)
        ensures
            old(self).taken(
                *final(self),
                sequence,
                r,
                CommandStep::Play { sequence, generation, from },
            ),
    {
        if begin_playback_command_execution(sequence, &mut self.executed_sequence) {
            CommandStep::Play { sequence, generation, from }
        } else {
            CommandStep::Done
        }
    }

    /// Whether a command to pause was executed, unless it was overtaken: the engine is paused, and
    /// where it stands is made known with the state.
    pub open spec fn pause_executed(
        self,
        after: PlaybackWorker,
        engine: VideoPlaybackEngine,
        engine_after: VideoPlaybackEngine,
        inner: PlayerInner,
        inner_after: PlayerInner,
        sequence: u64,
        reading: ClockReading,
    ) -> bool {
        let overtaken = sequence <= self.executed_sequence;
        let position = Some(engine.run.paused(reading).clock.shows(reading));
        let state = Some(PlayerState::Paused);
        &&& after == self.executing(sequence)
        &&& engine_after.same_but_run(engine)
        &&& engine_after.run == (if overtaken {
            engine.run
        } else {
            engine.run.paused(reading)
        })
        &&& if overtaken || inner.status.playback_command_sequence != sequence {
            inner_after == inner
        } else {
            inner_after.became(
                inner,
                inner.status.committed(None, position, state, reading),
                inner.status.commit_events(position, state),
            )
        }
    }

    /// Executes a command to pause.
    pub fn pause(
        &mut self,
        engine: &mut VideoPlaybackEngine,
        inner: &mut PlayerInner,
        sequence: u64,
        reading: ClockReading,
    )
        ensures
            old(self).pause_executed(
                *final(self),
                *old(engine),
                *final(engine),
                *old(inner),
                *final(inner),
                sequence,
                reading,
            ),
    {
        if !begin_playback_command_execution(sequence, &mut self.executed_sequence) {
            return;
        }
        engine.run.pause(reading);
        let position = engine.run.media_time_at(reading);
        let _ = inner.commit_playback_command_intent(
            sequence,
            None,
            Some(position),
            Some(PlayerState::Paused),
            reading,
        );
    }

    /// Whether what the renderer says of a picture was taken. What is of another timeline is
    /// ignored; a picture of the software decoder, which nothing can replace, ends playback.
    pub open spec fn import_failure_taken(
        self,
        engine: VideoPlaybackEngine,
        engine_after: VideoPlaybackEngine,
        inner: PlayerInner,
        inner_after: PlayerInner,
        failure: VideoFrameImportFailure,
        reading: ClockReading,
        step: CommandStep,
    ) -> bool {
        let current = failure.generation == self.generation && failure.generation
            == crate::shared::counted_generation(inner.status.playback_generation);
        let replaceable = failure.decode_backend == DecoderBackend::MediaCodec
            || failure.decode_backend == DecoderBackend::VideoToolbox || failure.decode_backend
            == DecoderBackend::AvCodec;
        &&& step == (if current && replaceable {
            CommandStep::ReplaceDecoder(failure)
        } else {
            CommandStep::Done
        })
        &&& if current && failure.decode_backend == DecoderBackend::Software {
            import_failed(
                engine,
                engine_after,
                inner,
                inner_after,
                crate::events::json_object(failure.fields()),
                reading,
            )
        } else {
            engine_after == engine && inner_after == inner
        }
    }

    /// Takes what the renderer says of a picture.
    pub fn take_import_failure(
        &self,
        engine: &mut VideoPlaybackEngine,
        inner: &mut PlayerInner,
        failure: VideoFrameImportFailure,
        reading: ClockReading,
    ) -> (r: CommandStep)
        ensures
            self.import_failure_taken(
                *old(engine),
                *final(engine),
                *old(inner),
                *final(inner),
                failure,
                reading,
                r,
            ),
    {
        let shared_generation: u64 = inner.status.shared_playback_generation();
        if !video_import_feedback_is_current(
            failure.generation,
            self.generation,
            shared_generation,
        ) {
            return CommandStep::Done;
        }
        match failure.decode_backend {
            DecoderBackend::MediaCodec => CommandStep::ReplaceDecoder(failure),
            DecoderBackend::VideoToolbox => CommandStep::ReplaceDecoder(failure),
            DecoderBackend::AvCodec => CommandStep::ReplaceDecoder(failure),
            DecoderBackend::Software => {
                fail_import_with_text(engine, inner, failure.structured_message(), reading);
                CommandStep::Done
            },
            _ => CommandStep::Done,
        }
    }

    /// Whether a subtitle track was removed, on a new timeline where something was on the screen.
    pub open spec fn removal_executed(
        self,
        after: PlaybackWorker,
        engine: VideoPlaybackEngine,
        engine_after: VideoPlaybackEngine,
        inner: PlayerInner,
        inner_after: PlayerInner,
        track_id: i64,
        reading: ClockReading,
    ) -> bool {
        &&& engine_after.run == engine.run
        &&& exists|outcome: Result<Option<TimedSubtitleFrame>, crate::playback::PlaybackError>|
            #![trigger removal_seen(engine, engine_after, track_id, reading, outcome)]
            {
                &&& removal_seen(engine, engine_after, track_id, reading, outcome)
                &&& match outcome {
                    Ok(Some(clear)) => after == self.on_next_timeline()
                        && inner_after.tracks_changed(
                        inner,
                        after.generation,
                        engine_after.session.info,
                        Some(clear),
                    ),
                    Ok(None) => after == self && inner_after == inner,
                    Err(error) => after == self && inner_after.told_error(inner, error.text()),
                }
            }
    }

    /// Removes a subtitle track.
    pub fn remove_subtitle(
        &mut self,
        engine: &mut VideoPlaybackEngine,
        inner: &mut PlayerInner,
        track_id: i64,
        reading: ClockReading,
    )
        ensures
            old(self).removal_executed(
                *final(self),
                *old(engine),
                *final(engine),
                *old(inner),
                *final(inner),
                track_id,
                reading,
            ),
    {
        let media_time = engine.run.media_time_at(reading);
        let outcome = engine.remove_subtitle_track(track_id, media_time);
        let ghost seen = outcome;
        assert(removal_seen(*old(engine), *engine, track_id, reading, seen));
        match outcome {
            Ok(Some(frame)) => {
                self.publish_track_change(engine, inner, Some(frame));
            },
            Ok(None) => {},
            Err(error) => {
                tell_error(inner, error.message());
            },
        }
    }

    /// The worker on a new timeline.
    pub open spec fn on_next_timeline(self) -> PlaybackWorker {
        PlaybackWorker { generation: crate::demux::next_generation(self.generation), ..self }
    }

    /// Makes a change of the tracks known, on a new timeline. A subtitle that clears the screen goes
    /// out with it.
    pub fn publish_track_change(
        &mut self,
        engine: &VideoPlaybackEngine,
        inner: &mut PlayerInner,
        clear: Option<TimedSubtitleFrame>,
    )
        ensures
            *final(self) == old(self).on_next_timeline(),
            final(inner).tracks_changed(
                *old(inner),
                final(self).generation,
                engine.session.info,
                clear,
            ),
    {
        self.generation = self.generation.saturating_add(1);
        inner.publish_playback_generation(self.generation);
        assert(inner.outbox@ =~= old(inner).outbox@);
        if let Some(frame) = clear {
            inner.emit_subtitle_frame(player_subtitle_frame(frame, self.generation));
        }
        inner.sync_track_state(&engine.session.info.tracks, engine.track_selection());
    }

    /// Sets whether the frame output is quiesced, and acknowledges it. An output that is resumed has
    /// not made its decoders wait.
    pub fn set_frame_output_quiesced(
        &mut self,
        engine: &mut VideoPlaybackEngine,
        quiesced: bool,
        reply: &mut Outlet<()>,
        now: Instant,
    )
        ensures
            final(reply).gave(*old(reply), ()),
            *final(self) == (PlaybackWorker { quiesced, ..*old(self) }),
            quiesced ==> *final(engine) == *old(engine),
            !quiesced ==> {
                &&& final(engine).session.rebased(old(engine).session, now)
                &&& final(engine).pending_frame == old(engine).pending_frame
                &&& final(engine).pending_audio == old(engine).pending_audio
                &&& final(engine).pending_subtitle == old(engine).pending_subtitle
                &&& final(engine).run == old(engine).run.rebased(now)
            },
    {
        self.quiesced = quiesced;
        if !quiesced {
            engine.rebase_progress_watchdogs(now);
        }
        let _ = reply.give(());
    }

    /// The timeline of a worker whose command was carried out.
    pub open spec fn joined(self, generation: u64) -> u64 {
        crate::shared::counted_generation(
            crate::shared::later_generation(self.generation, generation),
        )
    }

    /// Ends a command to play; `outcome` says whether the engine went back to the start for it.
    pub fn finish_play(
        &mut self,
        engine: &mut VideoPlaybackEngine,
        inner: &mut PlayerInner,
        sequence: u64,
        generation: u64,
        from: PlaybackRunState,
        outcome: Result<bool, String>,
        reading: ClockReading,
    )
        ensures
            ({
                let current = old(inner).status.playback_command_sequence == sequence;
                let timeline = if outcome == Ok::<bool, String>(true) {
                    crate::demux::next_generation(old(self).joined(generation))
                } else {
                    old(self).joined(generation)
                };
                let position = if outcome == Ok::<bool, String>(true) {
                    Some(Duration { nanos: 0 })
                } else {
                    None
                };
                &&& outcome is Ok ==> *final(self) == (PlaybackWorker {
                    generation: timeline,
                    ..*old(self)
                }) && *final(engine) == *old(engine)
                &&& outcome is Err ==> *final(self) == *old(self)
                &&& !current ==> *final(inner) == *old(inner) && *final(engine) == *old(engine)
                &&& current && outcome is Ok ==> final(inner).became(
                    *old(inner),
                    old(inner).status.committed(
                        Some(timeline),
                        position,
                        Some(PlayerState::Playing),
                        reading,
                    ),
                    old(inner).status.commit_events(position, Some(PlayerState::Playing)),
                )
                &&& current && outcome is Err ==> playback_failed(
                    *old(engine),
                    *final(engine),
                    *old(inner),
                    *final(inner),
                    start_failure(from, outcome->Err_0@),
                    reading,
                )
            }),
    {
        match outcome {
            Ok(restarted) => {
                self.generation = count_generation(later_of(self.generation, generation));
                if restarted {
                    self.generation = self.generation.saturating_add(1);
                }
                let position = if restarted {
                    Some(Duration::zero())
                } else {
                    None
                };
                let _ = inner.commit_playback_command_intent(
                    sequence,
                    Some(self.generation),
                    position,
                    Some(PlayerState::Playing),
                    reading,
                );
            },
            Err(error) => {
                if inner.status.playback_command_sequence_is_current(sequence) {
                    fail_with_text(engine, inner, start_failure_text(from, error.as_str()), reading);
                }
            },
        }
    }

    /// Ends a command to seek.
    pub fn finish_seek(
        &mut self,
        engine: &mut VideoPlaybackEngine,
        inner: &mut PlayerInner,
        sequence: u64,
        generation: u64,
        resume_after_seek: bool,
        outcome: Result<(), String>,
        reading: ClockReading,
    )
        ensures
            ({
                let current = old(inner).status.playback_command_sequence == sequence;
                let state = if resume_after_seek {
                    Some(PlayerState::Playing)
                } else {
                    None
                };
                &&& *final(self) == (PlaybackWorker {
                    generation: if outcome is Ok {
                        old(self).joined(generation)
                    } else {
                        old(self).generation
                    },
                    ..*old(self)
                })
                &&& !current ==> *final(inner) == *old(inner) && *final(engine) == *old(engine)
                &&& current && outcome is Ok ==> *final(engine) == *old(engine) && final(inner).became(
                    *old(inner),
                    old(inner).status.committed(
                        Some(final(self).generation),
                        None,
                        state,
                        reading,
                    ),
                    old(inner).status.commit_events(None, state),
                )
                &&& current && outcome is Err ==> playback_failed(
                    *old(engine),
                    *final(engine),
                    *old(inner),
                    *final(inner),
                    outcome->Err_0@,
                    reading,
                )
            }),
    {
        if outcome.is_ok() {
            self.generation = count_generation(later_of(self.generation, generation));
        }
        if !inner.status.playback_command_sequence_is_current(sequence) {
            return;
        }
        match outcome {
            Err(error) => {
                fail_with_text(engine, inner, error, reading);
            },
            Ok(()) => {
                let state = if resume_after_seek {
                    Some(PlayerState::Playing)
                } else {
                    None
                };
                let _ = inner.commit_playback_command_intent(
                    sequence,
                    Some(self.generation),
                    None,
                    state,
                    reading,
                );
            },
        }
    }

    /// Ends a command to stop.
    pub fn finish_stop(
        &mut self,
        engine: &mut VideoPlaybackEngine,
        inner: &mut PlayerInner,
        sequence: u64,
        generation: u64,
        outcome: Result<(), String>,
        reading: ClockReading,
    )
        ensures
            ({
                let current = old(inner).status.playback_command_sequence == sequence;
                let zero = Some(Duration { nanos: 0 });
                let state = Some(PlayerState::Stopped);
                &&& *final(self) == (PlaybackWorker {
                    generation: if current && outcome is Ok {
                        old(self).joined(generation)
                    } else {
                        old(self).generation
                    },
                    ..*old(self)
                })
                &&& !current ==> *final(inner) == *old(inner) && *final(engine) == *old(engine)
                &&& current && outcome is Ok ==> *final(engine) == *old(engine) && final(inner).became(
                    *old(inner),
                    old(inner).status.committed(
                        Some(final(self).generation),
                        zero,
                        state,
                        reading,
                    ),
                    old(inner).status.commit_events(zero, state),
                )
                &&& current && outcome is Err ==> playback_failed(
                    *old(engine),
                    *final(engine),
                    *old(inner),
                    *final(inner),
                    outcome->Err_0@,
                    reading,
                )
            }),
    {
        if !inner.status.playback_command_sequence_is_current(sequence) {
            return;
        }
        match outcome {
            Ok(()) => {
                self.generation = count_generation(later_of(self.generation, generation));
                let _ = inner.commit_playback_command_intent(
                    sequence,
                    Some(self.generation),
                    Some(Duration::zero()),
                    Some(PlayerState::Stopped),
                    reading,
                );
            },
            Err(error) => {
                fail_with_text(engine, inner, error, reading);
            },
        }
    }

    /// Ends the replacement of a decoder whose picture the renderer could not show.
    pub fn finish_import_failure(
        &self,
        engine: &mut VideoPlaybackEngine,
        inner: &mut PlayerInner,
        failure: &VideoFrameImportFailure,
        outcome: Result<(), String>,
        reading: ClockReading,
    )
        ensures
            outcome is Ok ==> *final(engine) == *old(engine) && *final(inner) == *old(inner),
            outcome is Err ==> import_failed(
                *old(engine),
                *final(engine),
                *old(inner),
                *final(inner),
                crate::events::json_object(failure.fields())
                    + "; software decoder recovery failed: "@ + outcome->Err_0@,
                reading,
            ),
    {
        if let Err(error) = outcome {
            let mut message = joined(
                failure.structured_message().as_str(),
                "; software decoder recovery failed: ",
            );
            message.append(error.as_str());
            fail_import_with_text(engine, inner, message, reading);
        }
    }

    /// Ends the addition of a subtitle file. The listeners are told of it before it is answered.
    pub fn finish_add_subtitle(
        &mut self,
        engine: &VideoPlaybackEngine,
        inner: &mut PlayerInner,
        outcome: Result<(SubtitleTrackConfig, Option<TimedSubtitleFrame>), String>,
        reply: &mut Outlet<Result<SubtitleTrackConfig, String>>,
    )
        ensures
            final(reply).gave(
                *old(reply),
                match outcome {
                    Ok((track, _)) => Ok(track),
                    Err(message) => Err(message),
                },
            ),
            outcome is Ok ==> *final(self) == old(self).on_next_timeline() && exists|mid: PlayerInner|
                {
                    &&& #[trigger] mid.tracks_changed(
                        *old(inner),
                        final(self).generation,
                        engine.session.info,
                        (outcome->Ok_0).1,
                    )
                    &&& final(inner).delivered(mid)
                },
            outcome is Err ==> *final(self) == *old(self) && exists|mid: PlayerInner|
                #[trigger] mid.told_error(*old(inner), outcome->Err_0@) && final(inner).delivered(
                    mid,
                ),
    {
        match outcome {
            Ok((track, clear)) => {
                self.publish_track_change(engine, inner, clear);
                inner.deliver();
                let _ = reply.give(Ok(track));
            },
            Err(message) => {
                tell_error(inner, message.clone());
                inner.deliver();
                let _ = reply.give(Err(message));
            },
        }
    }

    /// Ends the choice of another audio or subtitle track.
    pub fn finish_track_change(
        &mut self,
        engine: &VideoPlaybackEngine,
        inner: &mut PlayerInner,
        outcome: Result<Option<TimedSubtitleFrame>, String>,
    )
        ensures
            outcome is Ok ==> *final(self) == old(self).on_next_timeline() && final(inner).tracks_changed(
                *old(inner),
                final(self).generation,
                engine.session.info,
                outcome->Ok_0,
            ),
            outcome is Err ==> *final(self) == *old(self) && final(inner).told_error(
                *old(inner),
                outcome->Err_0@,
            ),
    {
        match outcome {
            Ok(clear) => {
                self.publish_track_change(engine, inner, clear);
            },
            Err(message) => {
                tell_error(inner, message);
            },
        }
    }

    /// Answers whether video is held back, or is taken up again.
    pub fn finish_suspend(
        &self,
        outcome: Result<(), String>,
        reply: &mut Outlet<Result<(), String>>,
    )
        ensures
            final(reply).gave(*old(reply), outcome),
    {
        let _ = reply.give(outcome);
    }

    /// Takes a command. What the worker can do by itself is done; for the rest the engine is needed,
    /// and its outcome goes to the function that the step names.
    pub fn begin_command(
        &mut self,
        engine: &mut VideoPlaybackEngine,
        inner: &mut PlayerInner,
        command: PlaybackCommand,
        reading: ClockReading,
    ) -> (r: CommandStep)
        ensures
            command is Shutdown <==> r is Exit,
            match command {
                PlaybackCommand::Play { sequence, generation } => {
                    &&& old(self).taken(
                        *final(self),
                        sequence,
                        r,
                        CommandStep::Play { sequence, generation, from: old(engine).run.state },
                    )
                    &&& *final(engine) == *old(engine)
                    &&& *final(inner) == *old(inner)
                },
                PlaybackCommand::Seek { position, sequence, generation, resume_after_seek } => {
                    &&& old(self).taken(
                        *final(self),
                        sequence,
                        r,
                        CommandStep::Seek { position, sequence, generation, resume_after_seek },
                    )
                    &&& *final(engine) == *old(engine)
                    &&& *final(inner) == *old(inner)
                },
                PlaybackCommand::Stop { sequence, generation } => {
                    &&& old(self).taken(
                        *final(self),
                        sequence,
                        r,
                        CommandStep::Stop { sequence, generation },
                    )
                    &&& *final(engine) == *old(engine)
                    &&& *final(inner) == *old(inner)
                },
                PlaybackCommand::Pause { sequence } => {
                    &&& r is Done
                    &&& old(self).pause_executed(
                        *final(self),
                        *old(engine),
                        *final(engine),
                        *old(inner),
                        *final(inner),
                        sequence,
                        reading,
                    )
                },
                PlaybackCommand::SetPlaybackRate(rate) => {
                    &&& r is Done
                    &&& *final(self) == *old(self)
                    &&& *final(inner) == *old(inner)
                    &&& final(engine).same_but_run(*old(engine))
                    &&& final(engine).run == old(engine).run.at_rate(rate, reading)
                },
                PlaybackCommand::AudioClock(snapshot) => {
                    &&& r is Done
                    &&& *final(self) == *old(self)
                    &&& *final(inner) == *old(inner)
                    &&& final(engine).same_but_run(*old(engine))
                    &&& final(engine).run == old(engine).run.disciplined(snapshot, reading)
                },
                PlaybackCommand::VideoFrameImportFailed(failure) => {
                    &&& *final(self) == *old(self)
                    &&& old(self).import_failure_taken(
                        *old(engine),
                        *final(engine),
                        *old(inner),
                        *final(inner),
                        failure,
                        reading,
                        r,
                    )
                },
                PlaybackCommand::AddExternalSubtitle { config, reply } => {
                    &&& r == CommandStep::AddSubtitle { config, reply }
                    &&& *final(self) == *old(self)
                    &&& *final(engine) == *old(engine)
                    &&& *final(inner) == *old(inner)
                },
                PlaybackCommand::RemoveSubtitleTrack(track_id) => {
                    &&& r is Done
                    &&& old(self).removal_executed(
                        *final(self),
                        *old(engine),
                        *final(engine),
                        *old(inner),
                        *final(inner),
                        track_id,
                        reading,
                    )
                },
                PlaybackCommand::SelectAudioTrack(track_id) => {
                    &&& r == CommandStep::SelectAudio(track_id)
                    &&& *final(self) == *old(self)
                    &&& *final(engine) == *old(engine)
                    &&& *final(inner) == *old(inner)
                },
                PlaybackCommand::SelectSubtitleTrack(track_id) => {
                    &&& r == CommandStep::SelectSubtitle(track_id)
                    &&& *final(self) == *old(self)
                    &&& *final(engine) == *old(engine)
                    &&& *final(inner) == *old(inner)
                },
                PlaybackCommand::SetFrameOutputQuiesced { quiesced, reply } => {
                    &&& r is Acknowledged
                    &&& r->Acknowledged_reply.gave(reply, ())
                    &&& *final(self) == (PlaybackWorker { quiesced, ..*old(self) })
                    &&& *final(inner) == *old(inner)
                    &&& quiesced ==> *final(engine) == *old(engine)
                    &&& !quiesced ==> {
                        &&& final(engine).session.rebased(old(engine).session, reading.now)
                        &&& final(engine).pending_frame == old(engine).pending_frame
                        &&& final(engine).pending_audio == old(engine).pending_audio
                        &&& final(engine).pending_subtitle == old(engine).pending_subtitle
                        &&& final(engine).run == old(engine).run.rebased(reading.now)
                    }
                },
                PlaybackCommand::SetVideoDecodeSuspended { suspended, reply } => {
                    &&& r == CommandStep::Suspend { suspended, reply }
                    &&& *final(self) == *old(self)
                    &&& *final(engine) == *old(engine)
                    &&& *final(inner) == *old(inner)
                },
                PlaybackCommand::Shutdown => {
                    &&& *final(self) == *old(self)
                    &&& *final(engine) == *old(engine)
                    &&& *final(inner) == *old(inner)
                },
            },
    {
        match command {
            PlaybackCommand::Play { sequence, generation } => self.take_play(
                sequence,
                generation,
                engine.state(),
            ),
            PlaybackCommand::Pause { sequence } => {
                self.pause(engine, inner, sequence, reading);
                CommandStep::Done
            },
            PlaybackCommand::Seek { position, sequence, generation, resume_after_seek } => {
                if begin_playback_command_execution(sequence, &mut self.executed_sequence) {
                    CommandStep::Seek { position, sequence, generation, resume_after_seek }
                } else {
                    CommandStep::Done
                }
            },
            PlaybackCommand::SetPlaybackRate(rate) => {
                engine.run.set_playback_rate(rate, reading);
                CommandStep::Done
            },
            PlaybackCommand::Stop { sequence, generation } => {
                if begin_playback_command_execution(sequence, &mut self.executed_sequence) {
                    CommandStep::Stop { sequence, generation }
                } else {
                    CommandStep::Done
                }
            },
            PlaybackCommand::AudioClock(snapshot) => {
                let _ = engine.run.sync_to_audio_clock(snapshot, reading);
                CommandStep::Done
            },
            PlaybackCommand::VideoFrameImportFailed(failure) => self.take_import_failure(
                engine,
                inner,
                failure,
                reading,
            ),
            PlaybackCommand::AddExternalSubtitle { config, reply } => CommandStep::AddSubtitle {
                config,
                reply,
            },
            PlaybackCommand::RemoveSubtitleTrack(track_id) => {
                self.remove_subtitle(engine, inner, track_id, reading);
                CommandStep::Done
            },
            PlaybackCommand::SelectAudioTrack(track_id) => CommandStep::SelectAudio(track_id),
            PlaybackCommand::SelectSubtitleTrack(track_id) => CommandStep::SelectSubtitle(track_id),
            PlaybackCommand::SetFrameOutputQuiesced { quiesced, reply } => {
                let mut reply = reply;
                self.set_frame_output_quiesced(engine, quiesced, &mut reply, reading.now);
                CommandStep::Acknowledged { reply }
            },
            PlaybackCommand::SetVideoDecodeSuspended { suspended, reply } => CommandStep::Suspend {
                suspended,
                reply,
            },
            PlaybackCommand::Shutdown => CommandStep::Exit,
        }
    }

    /// Begins the rest of a turn, when the commands have been dealt with, and says whether a picture
    /// is looked for. The clock is made known first.
    pub fn begin_turn(&mut self, engine: &mut VideoPlaybackEngine, inner: &mut PlayerInner) -> (r: bool)
        ensures
            r == !old(self).quiesced,
            *final(self) == (PlaybackWorker {
                eof_published: old(self).eof_published && old(engine).run.state
                    == PlaybackRunState::Ended,
                backpressure: if old(engine).run.state != PlaybackRunState::Playing
                    || old(self).quiesced {
                    AudioOutputBackpressureState::relaxed()
                } else {
                    old(self).backpressure
                },
                ..*old(self)
            }),
            final(engine).output_switched(*old(engine), old(inner).audio_frame_sender is Some),
            final(inner).clock_synced(
                *old(inner),
                old(engine).run.clock,
                old(self).generation,
            ),
    {
        if engine.state() != PlaybackRunState::Ended {
            self.eof_published = false;
        }
        engine.set_audio_output_active(inner.audio_frame_output_is_active());
        if engine.state() != PlaybackRunState::Playing || self.quiesced {
            self.backpressure.reset();
        }
        let _ = inner.sync_playback_clock(engine.clock(), self.generation);
        !self.quiesced
    }

    /// Goes on with what the search for a picture brought: the picture is handed out, or a failure
    /// ends playback; then the clock is made known.
    pub fn video_ticked(
        &mut self,
        engine: &mut VideoPlaybackEngine,
        inner: &mut PlayerInner,
        outcome: Result<Option<TimedVideoFrame>, String>,
        reading: ClockReading,
    ) -> (r: bool)
        ensures
            r == (outcome is Ok && outcome->Ok_0 is Some),
            *final(self) == (PlaybackWorker {
                position: if r {
                    Some(
                        PositionMark {
                            generation: old(self).generation,
                            position: shown_position(outcome->Ok_0->0),
                        },
                    )
                } else {
                    old(self).position
                },
                ..*old(self)
            }),
            outcome is Ok ==> *final(engine) == *old(engine),
            outcome is Ok ==> exists|mid: PlayerInner|
                #![trigger mid.same_but_video(*old(inner))]
                {
                    &&& mid.same_but_video(*old(inner))
                    &&& !r ==> mid == *old(inner)
                    &&& r ==> crate::shared::handed_out(
                        mid.video_frame_sender,
                        old(inner).video_frame_sender,
                        mid.departed@.video,
                        old(inner).departed@.video,
                        shown_frame(outcome->Ok_0->0, old(self).generation),
                    )
                    &&& final(inner).clock_synced(
                        mid,
                        old(engine).run.clock,
                        old(self).generation,
                    )
                },
            outcome is Err ==> exists|mid: PlayerInner|
                #![trigger playback_failed(*old(engine), *final(engine), *old(inner), mid, outcome->Err_0@, reading)]
                playback_failed(
                    *old(engine),
                    *final(engine),
                    *old(inner),
                    mid,
                    outcome->Err_0@,
                    reading,
                ) && final(inner).clock_synced(
                    mid,
                    final(engine).run.clock,
                    old(self).generation,
                ),
    {
        let produced = match outcome {
            Ok(Some(frame)) => {
                let position = match frame.pts {
                    Some(pts) => pts,
                    None => frame.media_time,
                };
                self.position = Some(PositionMark { generation: self.generation, position });
                inner.emit_video_frame(
                    PlayerVideoFrame::from_decoded(
                        frame.frame,
                        frame.decode_backend,
                        frame.pts,
                        frame.media_time,
                        frame.late_by,
                        self.generation,
                    ),
                );
                true
            },
            Ok(None) => {
                assert(inner.same_but_video(*old(inner)));
                false
            },
            Err(message) => {
                fail_with_text(engine, inner, message, reading);
                false
            },
        };
        let _ = inner.sync_playback_clock(engine.clock(), self.generation);
        produced
    }

    /// Goes on when a picture was found that cannot be handed out: playback ends, and the clock is
    /// made known. A picture was there all the same.
    pub fn video_handoff_failed(
        &mut self,
        engine: &mut VideoPlaybackEngine,
        inner: &mut PlayerInner,
        frame: &TimedVideoFrame,
        message: String,
        reading: ClockReading,
    ) -> (r: bool)
        ensures
            r,
            *final(self) == (PlaybackWorker {
                position: Some(
                    PositionMark {
                        generation: old(self).generation,
                        position: shown_position(*frame),
                    },
                ),
                ..*old(self)
            }),
            exists|mid: PlayerInner|
                #![trigger playback_failed(*old(engine), *final(engine), *old(inner), mid, message@, reading)]
                playback_failed(
                    *old(engine),
                    *final(engine),
                    *old(inner),
                    mid,
                    message@,
                    reading,
                ) && final(inner).clock_synced(
                    mid,
                    final(engine).run.clock,
                    old(self).generation,
                ),
    {
        let position = match frame.pts {
            Some(pts) => pts,
            None => frame.media_time,
        };
        self.position = Some(PositionMark { generation: self.generation, position });
        fail_with_text(engine, inner, message, reading);
        let _ = inner.sync_playback_clock(engine.clock(), self.generation);
        true
    }

    /// Whether sound and subtitles are dealt with in this turn.
    pub fn plays_sound(&self, engine: &VideoPlaybackEngine) -> (r: bool)
        ensures
            r == (!self.quiesced && engine.run.state == PlaybackRunState::Playing),
    {
        !self.quiesced && engine.state() == PlaybackRunState::Playing
    }

    /// Whether audio is decoded in this turn.
    pub fn should_prefill(&self, engine: &VideoPlaybackEngine, now: Instant) -> (r: bool)
        ensures
            r == (engine.run.state == PlaybackRunState::Playing && (!self.audio.recent(now)
                || self.audio.snapshot is None || self.audio.snapshot->0.queued_duration is None
                || self.audio.snapshot->0.queued_duration->0.nanos
                < crate::buffering::AUDIO_PREFILL_LOW_WATER_NANOS)),
    {
        should_prefill_audio(engine, self.audio, now)
    }

    /// How long another run of audio may take to decode, where there is time for one.
    pub fn pump_time(ticks: usize, elapsed: Duration) -> (r: Option<Duration>)
        ensures
            r == (if ticks < AUDIO_PREFILL_AFTER_VIDEO_LIMIT && elapsed.nanos
                < AUDIO_PREFILL_TIME_BUDGET_NANOS {
                Some(
                    Duration { nanos: (AUDIO_PREFILL_TIME_BUDGET_NANOS - elapsed.nanos) as u128 },
                )
            } else {
                None
            }),
    {
        if ticks >= AUDIO_PREFILL_AFTER_VIDEO_LIMIT || elapsed.nanos
            >= AUDIO_PREFILL_TIME_BUDGET_NANOS {
            return None;
        }
        Some(Duration { nanos: AUDIO_PREFILL_TIME_BUDGET_NANOS - elapsed.nanos })
    }

    /// Whether the worker went on when a run of audio was offered to its receiver. What was not taken
    /// for want of room waits in the engine; where the receiver is gone, the engine has no output any
    /// more.
    pub open spec fn sound_offered(
        self,
        after: PlaybackWorker,
        engine: VideoPlaybackEngine,
        engine_after: VideoPlaybackEngine,
        result: AudioFrameEmitResult,
        now: Instant,
        r: PumpNext,
    ) -> bool {
        match result {
            AudioFrameEmitResult::Sent => {
                &&& r == PumpNext::Again
                &&& engine_after == engine
                &&& after == (PlaybackWorker {
                    backpressure: AudioOutputBackpressureState::relaxed(),
                    ..self
                })
            },
            AudioFrameEmitResult::Full(frame) => {
                let pressed = self.backpressure.pressed(now);
                let stalled_for = now.since(pressed.started_at->0);
                &&& r == (if stalled_for.nanos
                    < crate::buffering::AUDIO_OUTPUT_BACKPRESSURE_TIMEOUT_NANOS {
                    PumpNext::Enough
                } else {
                    PumpNext::Blocked(BackpressureReport { stalled_for, polls: pressed.polls })
                })
                &&& after == (PlaybackWorker { backpressure: pressed, ..self })
                &&& engine_after.pending_audio == Some(frame)
                &&& engine_after.session == engine.session
                &&& engine_after.run == engine.run
                &&& engine_after.pending_frame == engine.pending_frame
                &&& engine_after.pending_subtitle == engine.pending_subtitle
            },
            AudioFrameEmitResult::Disconnected(_) => {
                &&& r == PumpNext::Enough
                &&& engine_after.output_switched(engine, false)
                &&& after == (PlaybackWorker {
                    backpressure: AudioOutputBackpressureState::relaxed(),
                    ..self
                })
            },
        }
    }

    /// Goes on when a run of audio was offered to its receiver.
    pub fn audio_emitted(
        &mut self,
        engine: &mut VideoPlaybackEngine,
        result: AudioFrameEmitResult,
        now: Instant,
    ) -> (r: PumpNext)
        requires
            old(engine).pending_audio is None,
        ensures
            old(self).sound_offered(*final(self), *old(engine), *final(engine), result, now, r),
    {
        match result {
            AudioFrameEmitResult::Sent => {
                self.backpressure.reset();
                PumpNext::Again
            },
            AudioFrameEmitResult::Full(frame) => {
                engine.restore_pending_audio_frame(frame);
                match self.backpressure.observe(now) {
                    Some(report) => PumpNext::Blocked(report),
                    None => PumpNext::Enough,
                }
            },
            AudioFrameEmitResult::Disconnected(_) => {
                self.backpressure.reset();
                engine.set_audio_output_active(false);
                PumpNext::Enough
            },
        }
    }

    /// Goes on with what the search for a run of audio brought: it is handed out, or a failure ends
    /// playback.
    pub fn audio_ticked(
        &mut self,
        engine: &mut VideoPlaybackEngine,
        inner: &mut PlayerInner,
        outcome: Result<Option<TimedAudioFrame>, String>,
        reading: ClockReading,
    ) -> (r: PumpNext)
        requires
            outcome is Ok && outcome->Ok_0 is Some ==> old(engine).pending_audio is None,
        ensures
            outcome is Err ==> r == PumpNext::Enough && *final(self) == *old(self)
                && playback_failed(
                *old(engine),
                *final(engine),
                *old(inner),
                *final(inner),
                outcome->Err_0@,
                reading,
            ),
            outcome is Ok && outcome->Ok_0 is None ==> r == PumpNext::Enough && *final(self)
                == *old(self) && *final(engine) == *old(engine) && *final(inner) == *old(inner),
            outcome is Ok && outcome->Ok_0 is Some ==> {
                let frame = outcome->Ok_0->0.frame;
                &&& final(inner).same_but_audio(*old(inner))
                &&& crate::shared::handed_out(
                    final(inner).audio_frame_sender,
                    old(inner).audio_frame_sender,
                    final(inner).departed@.audio,
                    old(inner).departed@.audio,
                    PlayerAudioFrame { frame, generation: old(self).generation },
                )
                &&& exists|result: AudioFrameEmitResult|
                    {
                        &&& #[trigger] old(self).sound_offered(
                            *final(self),
                            *old(engine),
                            *final(engine),
                            result,
                            reading.now,
                            r,
                        )
                        &&& final(inner).audio_frame_sender is None <==> result is Disconnected
                        &&& result is Sent <==> final(inner).audio_frame_sender is Some && final(
                            inner).audio_frame_sender->0.fate() == Fate::Taken
                        &&& result is Full ==> result->Full_0 == frame
                    }
            },
    {
        match outcome {
            Ok(Some(frame)) => {
                let result = inner.try_emit_audio_frame(
                    PlayerAudioFrame { frame: frame.frame, generation: self.generation },
                );
                self.audio_emitted(engine, result, reading.now)
            },
            Ok(None) => PumpNext::Enough,
            Err(message) => {
                fail_with_text(engine, inner, message, reading);
                PumpNext::Enough
            },
        }
    }

    /// Goes on with what the search for a subtitle brought: it is handed out, or a failure ends
    /// playback.
    pub fn subtitle_ticked(
        &self,
        engine: &mut VideoPlaybackEngine,
        inner: &mut PlayerInner,
        outcome: Result<Option<TimedSubtitleFrame>, String>,
        reading: ClockReading,
    )
        ensures
            outcome is Ok ==> *final(engine) == *old(engine),
            outcome is Ok && outcome->Ok_0 is None ==> *final(inner) == *old(inner),
            outcome is Ok && outcome->Ok_0 is Some ==> final(inner).same_but_subtitles(
                *old(inner),
            ) && final(inner).subtitle_given(
                *old(inner),
                handed_out(outcome->Ok_0->0, self.generation),
            ),
            outcome is Err ==> playback_failed(
                *old(engine),
                *final(engine),
                *old(inner),
                *final(inner),
                outcome->Err_0@,
                reading,
            ),
    {
        match outcome {
            Ok(Some(frame)) => {
                inner.emit_subtitle_frame(player_subtitle_frame(frame, self.generation));
            },
            Ok(None) => {},
            Err(message) => {
                fail_with_text(engine, inner, message, reading);
            },
        }
    }

    /// Looks whether playback lacks data, makes the clock known, and has the listeners told.
    pub fn settle_buffering(
        &mut self,
        engine: &mut VideoPlaybackEngine,
        inner: &mut PlayerInner,
        produced_video_frame: bool,
        reading: ClockReading,
    )
        ensures
            final(engine).same_but_run(*old(engine)),
            *final(self) == (PlaybackWorker { buffering: final(self).buffering, ..*old(self) }),
            exists|told: Option<bool>|
                #![trigger told_of_buffering(told)]
                {
                    &&& crate::buffering::looked(
                        old(engine).run,
                        final(engine).run,
                        old(self).buffering,
                        final(self).buffering,
                        old(engine).hears(),
                        old(engine).session.info.selected_video_track is Some,
                        old(self).audio,
                        produced_video_frame,
                        reading,
                        told,
                    )
                    &&& final(inner).same_but_status(*old(inner))
                    &&& final(inner).outbox@ == old(inner).outbox@ + told_of_buffering(told)
                    &&& final(inner).status == synced_status(
                        old(inner).status,
                        final(engine).run,
                        old(self).generation,
                    )
                },
    {
        let told = update_buffering(
            engine,
            &mut self.buffering,
            self.audio,
            produced_video_frame,
            reading,
        );
        let _ = inner.sync_playback_clock(engine.clock(), self.generation);
        assert(inner.outbox@ =~= old(inner).outbox@);
        if let Some(buffering) = told {
            inner.emit(PlayerEvent::BufferingChanged(buffering));
        }
        assert(inner.outbox@ =~= old(inner).outbox@ + told_of_buffering(told));
    }

    /// Has the listeners told of the decoders that took over.
    pub fn tell_decoders(&self, engine: &mut VideoPlaybackEngine, inner: &mut PlayerInner)
        ensures
            final(engine).session.video.events@ == Seq::<VideoDecoderEvent>::empty(),
            final(engine).session.same_but_video(old(engine).session),
            final(engine).session.video.route == old(engine).session.video.route,
            final(engine).session.video.frames == old(engine).session.video.frames,
            final(engine).session.video.pending == old(engine).session.video.pending,
            final(engine).session.video.unavailable_reason
                == old(engine).session.video.unavailable_reason,
            final(engine).run == old(engine).run,
            final(engine).pending_frame == old(engine).pending_frame,
            final(engine).pending_audio == old(engine).pending_audio,
            final(engine).pending_subtitle == old(engine).pending_subtitle,
            final(inner).became(
                *old(inner),
                old(inner).status,
                old(engine).session.video.events@.map_values(
                    |event: VideoDecoderEvent| PlayerEvent::VideoDecoderChanged(event),
                ),
            ),
    {
        let events = engine.take_video_decoder_events();
        let ghost told = events@.map_values(
            |event: VideoDecoderEvent| PlayerEvent::VideoDecoderChanged(event),
        );
        let mut i: usize = 0;
        while i < events.len()
            invariant
                i <= events@.len(),
                told == events@.map_values(
                    |event: VideoDecoderEvent| PlayerEvent::VideoDecoderChanged(event),
                ),
                inner.same_but_status(*old(inner)),
                inner.status == old(inner).status,
                inner.outbox@ == old(inner).outbox@ + told.take(i as int),
            decreases events@.len() - i,
        {
            inner.emit(PlayerEvent::VideoDecoderChanged(events[i].duplicate()));
            assert(told.take(i + 1) =~= told.take(i as int).push(told[i as int]));
            assert(inner.outbox@ =~= old(inner).outbox@ + told.take(i + 1));
            i = i + 1;
        }
        assert(told.take(events@.len() as int) =~= told);
        assert(inner.outbox@ =~= old(inner).outbox@ + told);
    }

    /// The position that listeners may still be told of: one of another timeline is forgotten.
    pub open spec fn mark(self) -> Option<PositionMark> {
        if self.position is Some && self.position->0.generation != self.generation {
            None
        } else {
            self.position
        }
    }

    /// Has the listeners told of the natural end, once, or else of the position, now and then.
    pub fn tell_position(
        &mut self,
        engine: &VideoPlaybackEngine,
        inner: &mut PlayerInner,
        reading: ClockReading,
    )
        ensures
            ({
                let ended = engine.run.state == PlaybackRunState::Ended;
                let stale = crate::shared::counted_generation(old(self).generation)
                    < crate::shared::counted_generation(old(inner).status.playback_generation);
                let end = match engine.session.info.duration {
                    Some(duration) => duration,
                    None => engine.run.clock.shows(reading),
                };
                let due = old(self).mark() is Some && (reading.now.since(
                    old(self).position_told_at,
                ).nanos >= POSITION_EVENT_INTERVAL_NANOS || engine.run.state
                    != PlaybackRunState::Playing);
                &&& ended ==> *final(self) == (PlaybackWorker {
                    position: None,
                    eof_published: old(self).eof_published || !stale,
                    ..*old(self)
                })
                &&& ended && !old(self).eof_published && !stale ==> final(inner).became(
                    *old(inner),
                    old(inner).status.finished(end),
                    seq![PlayerEvent::PositionChanged(end)] + old(inner).status.state_events(
                        PlayerState::Stopped,
                    ),
                )
                &&& ended && (old(self).eof_published || stale) ==> *final(inner) == *old(inner)
                &&& !ended ==> *final(self) == (PlaybackWorker {
                    position: if due {
                        None
                    } else {
                        old(self).mark()
                    },
                    position_told_at: if due {
                        reading.now
                    } else {
                        old(self).position_told_at
                    },
                    eof_published: false,
                    ..*old(self)
                })
                &&& !ended && due && !stale ==> final(inner).became(
                    *old(inner),
                    old(inner).status,
                    seq![PlayerEvent::PositionChanged(old(self).mark()->0.position)],
                )
                &&& !ended && !(due && !stale) ==> *final(inner) == *old(inner)
            }),
    {
        if let Some(mark) = self.position {
            if mark.generation != self.generation {
                self.position = None;
            }
        }
        if engine.state() == PlaybackRunState::Ended {
            let final_position = match engine.session.info.duration {
                Some(duration) => duration,
                None => engine.media_time_at(reading),
            };
            inner.publish_natural_eof_events(
                self.generation,
                final_position,
                &mut self.eof_published,
            );
            self.position = None;
            return;
        }
        self.eof_published = false;
        if let Some(mark) = self.position {
            if reading.now.saturating_duration_since(self.position_told_at).as_nanos()
                >= POSITION_EVENT_INTERVAL_NANOS || engine.state() != PlaybackRunState::Playing {
                self.position = None;
                let _ = inner.emit_for_generation(
                    mark.generation,
                    PlayerEvent::PositionChanged(mark.position),
                );
                self.position_told_at = reading.now;
            }
        }
    }
}

/// The position of a picture: its own time, or that of the clock.
pub open spec fn shown_position(frame: TimedVideoFrame) -> Duration {
    match frame.pts {
        Some(pts) => pts,
        None => frame.media_time,
    }
}

/// A picture as the player hands it out.
pub open spec fn shown_frame(frame: TimedVideoFrame, generation: u64) -> PlayerVideoFrame {
    PlayerVideoFrame {
        frame: frame.frame,
        decode_backend: frame.decode_backend,
        pts: frame.pts,
        media_time: frame.media_time,
        late_by: frame.late_by,
        generation,
    }
}

/// What listeners are told of missing data.
pub open spec fn told_of_buffering(told: Option<bool>) -> Seq<PlayerEvent> {
    match told {
        Some(buffering) => seq![PlayerEvent::BufferingChanged(buffering)],
        None => Seq::<PlayerEvent>::empty(),
    }
}

/// The status once the worker's clock was made known.
pub open spec fn synced_status(status: PlayerStatus, run: EngineState, generation: u64) -> PlayerStatus {
    if crate::shared::counted_generation(generation) >= crate::shared::counted_generation(
        status.playback_generation,
    ) {
        PlayerStatus {
            playback_clock: run.clock,
            playback_generation: crate::shared::counted_generation(generation),
            ..status
        }
    } else {
        status
    }
}

/// Whether the engine removed a subtitle track.
pub open spec fn removal_seen(
    before: VideoPlaybackEngine,
    after: VideoPlaybackEngine,
    track_id: i64,
    reading: ClockReading,
    outcome: Result<Option<TimedSubtitleFrame>, crate::playback::PlaybackError>,
) -> bool {
    &&& after.pending_frame == before.pending_frame
    &&& after.pending_audio == before.pending_audio
    &&& after.pending_subtitle == (if outcome is Ok && outcome->Ok_0 is Some {
        None
    } else {
        before.pending_subtitle
    })
    &&& after.session.subtitle_removed(
        before.session,
        track_id,
        before.run.clock.shows(reading),
        match outcome {
            Ok(Some(timed)) => Ok(Some(timed.frame)),
            Ok(None) => Ok(None),
            Err(error) => Err(error),
        },
    )
}

/// Whether a failure paused the engine, and the player is in the error state.
pub open spec fn given_up(
    engine: VideoPlaybackEngine,
    engine_after: VideoPlaybackEngine,
    inner: PlayerInner,
    inner_after: PlayerInner,
    reading: ClockReading,
) -> bool {
    &&& engine_after.same_but_run(engine)
    &&& engine_after.run == engine.run.paused(reading)
    &&& inner_after.same_but_status(inner)
    &&& inner_after.status == (PlayerStatus { state: PlayerState::Error, ..inner.status })
    &&& inner_after.outbox@.len() == inner.outbox@.len() + (if inner.status.state
        == PlayerState::Error {
        1int
    } else {
        2
    })
    &&& inner_after.outbox@.take(inner.outbox@.len() as int) == inner.outbox@
    &&& inner.status.state != PlayerState::Error ==> inner_after.outbox@.last()
        == PlayerEvent::StateChanged(PlayerState::Error)
}

/// Whether playback was ended by a failure with this text.
pub open spec fn playback_failed(
    engine: VideoPlaybackEngine,
    engine_after: VideoPlaybackEngine,
    inner: PlayerInner,
    inner_after: PlayerInner,
    text: Seq<char>,
    reading: ClockReading,
) -> bool {
    &&& given_up(engine, engine_after, inner, inner_after, reading)
    &&& says_failure(inner_after.outbox@[inner.outbox@.len() as int], text)
}

/// Whether playback was ended by a picture that the renderer cannot show, with this text.
pub open spec fn import_failed(
    engine: VideoPlaybackEngine,
    engine_after: VideoPlaybackEngine,
    inner: PlayerInner,
    inner_after: PlayerInner,
    text: Seq<char>,
    reading: ClockReading,
) -> bool {
    let event = inner_after.outbox@[inner.outbox@.len() as int];
    &&& given_up(engine, engine_after, inner, inner_after, reading)
    &&& event is Error
    &&& event->Error_0 is Renderer
    &&& event->Error_0->Renderer_0@ == text
}

/// Whether an event tells of a failure of playback with this text.
pub open spec fn says_failure(event: PlayerEvent, text: Seq<char>) -> bool {
    &&& event is Error
    &&& event->Error_0 is Playback
    &&& event->Error_0->Playback_0@ == text
}

fn fail_import_with_text(
    engine: &mut VideoPlaybackEngine,
    inner: &mut PlayerInner,
    message: String,
    reading: ClockReading,
)
    ensures
        import_failed(
            *old(engine),
            *final(engine),
            *old(inner),
            *final(inner),
            message@,
            reading,
        ),
{
    fail_video_import(engine, inner, message, reading);
    assert(inner.outbox@.take(old(inner).outbox@.len() as int) =~= old(inner).outbox@);
}

fn fail_with_text(
    engine: &mut VideoPlaybackEngine,
    inner: &mut PlayerInner,
    message: String,
    reading: ClockReading,
)
    ensures
        playback_failed(
            *old(engine),
            *final(engine),
            *old(inner),
            *final(inner),
            message@,
            reading,
        ),
{
    fail_playback(engine, inner, message, reading);
    assert(inner.outbox@.take(old(inner).outbox@.len() as int) =~= old(inner).outbox@);
}

fn tell_error(inner: &mut PlayerInner, message: String)
    ensures
        final(inner).told_error(*old(inner), message@),
{
    inner.emit(PlayerEvent::Error(PlayerError::Playback(message)));
    assert(inner.outbox@.drop_last() =~= old(inner).outbox@);
}

impl PlayerInner {
    /// Whether the listeners are told of a failure that ends nothing.
    pub open spec fn told_error(self, before: PlayerInner, text: Seq<char>) -> bool {
        &&& self.same_but_status(before)
        &&& self.status == before.status
        &&& self.outbox@.len() == before.outbox@.len() + 1
        &&& self.outbox@.drop_last() == before.outbox@
        &&& says_failure(self.outbox@.last(), text)
    }

    /// Whether a change of the tracks was made known, on a timeline, and a subtitle that clears the
    /// screen went out with it.
    pub open spec fn tracks_changed(
        self,
        before: PlayerInner,
        generation: u64,
        info: crate::playback::OpenedMediaInfo,
        clear: Option<TimedSubtitleFrame>,
    ) -> bool {
        &&& match clear {
            Some(frame) => self.subtitle_given(before, handed_out(frame, generation)),
            None => self.subtitle_frame_sender == before.subtitle_frame_sender && self.departed
                == before.departed && self.status.subtitle_frame_backpressure_drops
                == before.status.subtitle_frame_backpressure_drops,
        }
        &&& self.tracks_synced(before, info.tracks, info.selection())
        &&& self.media == before.media
        &&& self.surface == before.surface
        &&& self.subscribers == before.subscribers
        &&& self.video_frame_sender == before.video_frame_sender
        &&& self.audio_frame_sender == before.audio_frame_sender
        &&& self.departed@ == (crate::shared::Departed {
            subtitles: self.departed@.subtitles,
            ..before.departed@
        })
        &&& self.status == (PlayerStatus {
            playback_generation: crate::shared::later_generation(
                before.status.playback_generation,
                crate::shared::counted_generation(generation),
            ),
            track_selection: info.selection(),
            subtitle_frame_backpressure_drops: self.status.subtitle_frame_backpressure_drops,
            ..before.status
        })
    }
}

/// A worker executes commands in the order in which they were given: one that was overtaken is
/// passed over, whatever it is.
pub proof fn law_overtaken_commands_are_passed_over(
    worker: PlaybackWorker,
    after: PlaybackWorker,
    sequence: u64,
    step: CommandStep,
    wanted: CommandStep,
)
    requires
        worker.taken(after, sequence, step, wanted),
    ensures
        after.executed_sequence >= worker.executed_sequence,
        sequence <= worker.executed_sequence ==> after == worker && step is Done,
{
}

/// A failure pauses the engine: it looks for no picture any more, unless the picture of a seek is
/// still to come, and no failure is met twice in a row by playing on.
pub proof fn law_a_failure_stops_playback(run: EngineState, reading: ClockReading)
    ensures
        run.paused(reading).state != PlaybackRunState::Playing,
        run.state == PlaybackRunState::Playing && !run.waiting_for_first_frame ==> run.paused(
            reading,
        ).looks_for_picture() is None,
{
}

/// A command is executed exactly when none that was given later has been, and from then on it is the
/// last that was.
pub proof fn law_a_command_is_executed_in_its_turn(
    worker: PlaybackWorker,
    after: PlaybackWorker,
    sequence: u64,
    step: CommandStep,
    wanted: CommandStep,
)
    requires
        worker.taken(after, sequence, step, wanted),
    ensures
        sequence > worker.executed_sequence ==> step == wanted && after.executed_sequence
            == sequence,
        after.generation == worker.generation,
        after.quiesced == worker.quiesced,
        after.position == worker.position,
        after.audio == worker.audio,
        after.buffering == worker.buffering,
{
}

/// A pause that is carried out stops the clock where it is, leaves what is decoded alone, and makes
/// the place and the state known, unless another command was given since.
pub proof fn law_a_pause_stops_where_playback_is(
    worker: PlaybackWorker,
    after: PlaybackWorker,
    engine: VideoPlaybackEngine,
    engine_after: VideoPlaybackEngine,
    inner: PlayerInner,
    inner_after: PlayerInner,
    sequence: u64,
    reading: ClockReading,
    later: ClockReading,
)
    requires
        worker.pause_executed(
            after,
            engine,
            engine_after,
            inner,
            inner_after,
            sequence,
            reading,
        ),
        sequence > worker.executed_sequence,
        engine.run.state == PlaybackRunState::Playing,
    ensures
        engine_after.run.state == PlaybackRunState::Paused,
        engine_after.run.clock.shows(later) == engine.run.clock.shows(reading),
        engine_after.run.clock.rate == engine.run.clock.rate,
        engine_after.pending_frame == engine.pending_frame,
        engine_after.pending_audio == engine.pending_audio,
        engine_after.session == engine.session,
        inner.status.playback_command_sequence != sequence ==> inner_after == inner,
        inner.status.playback_command_sequence == sequence ==> inner_after.status.state
            == PlayerState::Paused && inner_after.status.playback_clock.shows(later)
            == engine.run.clock.shows(reading) && inner_after.outbox@.len()
            > inner.outbox@.len() && inner_after.outbox@[inner.outbox@.len() as int]
            == PlayerEvent::PositionChanged(engine.run.clock.shows(reading)),
{
}

/// What the output said before a seek, a stop, another audio track or a start from the beginning is
/// forgotten; what it says is known from then on, with its time; every other command leaves it alone.
pub proof fn law_what_the_output_said_before_a_move_is_forgotten(
    feed: AudioFeed,
    command: PlaybackCommand,
    state: PlaybackRunState,
    now: Instant,
)
    ensures
        ({
            let after = PlaybackWorker::feed_after(feed, command, state, now);
            &&& command is Seek || command is Stop || command is SelectAudioTrack
                ==> after.snapshot is None && after.observed_at is None
            &&& command is Play && (state == PlaybackRunState::Stopped || state
                == PlaybackRunState::Ended) ==> after.snapshot is None && after.observed_at is None
            &&& command is Play && (state == PlaybackRunState::Playing || state
                == PlaybackRunState::Paused) ==> after == feed
            &&& command is AudioClock ==> after.snapshot == Some(command->AudioClock_0)
                && after.observed_at == Some(now)
            &&& command is Pause ==> after == feed
        }),
{
}

/// A worker that has carried out a command is on the later of its own timeline and the command's.
pub proof fn law_a_worker_never_leaves_its_timeline_backwards(
    worker: PlaybackWorker,
    generation: u64,
)
    requires
        worker.generation > 0,
    ensures
        worker.joined(generation) >= worker.generation,
        worker.joined(generation) >= generation,
        worker.joined(generation) == worker.generation || worker.joined(generation) == generation,
        worker.generation < u64::MAX ==> worker.on_next_timeline().generation == worker.generation
            + 1,
        worker.on_next_timeline().executed_sequence == worker.executed_sequence,
{
}

/// A new worker has executed nothing and may tell a position at once.
pub proof fn law_a_new_worker_has_done_nothing(initial_generation: u64, now: Instant)
    ensures
        ({
            let worker = PlaybackWorker::started(initial_generation, now);
            &&& worker.executed_sequence == 0
            &&& !worker.quiesced && !worker.eof_published
            &&& worker.position is None
            &&& initial_generation > 0 ==> worker.generation == initial_generation
            &&& initial_generation == 0 ==> worker.generation == 1
            &&& now.nanos >= 100_000_000 ==> worker.position_told_at.nanos + 100_000_000
                == now.nanos
            &&& !worker.buffering.active
            &&& worker.audio.snapshot is None
        }),
{
}

/// Sound that was taken ends the wait of its output; sound for which there was no room is kept for
/// the next try, and after ten seconds of that the output is reported as blocked. An output that is
/// gone is switched off.
pub proof fn law_sound_is_kept_until_there_is_room(
    worker: PlaybackWorker,
    after: PlaybackWorker,
    engine: VideoPlaybackEngine,
    engine_after: VideoPlaybackEngine,
    result: AudioFrameEmitResult,
    now: Instant,
    r: PumpNext,
)
    requires
        worker.sound_offered(after, engine, engine_after, result, now, r),
        now.nanos <= crate::time::MAX_DURATION_NANOS,
    ensures
        result is Sent ==> r is Again && engine_after == engine && after.backpressure.polls == 0
            && after.backpressure.started_at is None,
        result is Full ==> {
            &&& engine_after.pending_audio == Some(result->Full_0)
            &&& engine_after.session == engine.session
            &&& engine_after.run == engine.run
            &&& worker.backpressure.polls < u64::MAX ==> after.backpressure.polls
                == worker.backpressure.polls + 1
            &&& worker.backpressure.started_at is None ==> r is Enough
                && after.backpressure.started_at == Some(now)
            &&& worker.backpressure.started_at is Some ==> after.backpressure.started_at
                == worker.backpressure.started_at && (r is Blocked <==> now.nanos
                >= worker.backpressure.started_at->0.nanos + 10_000_000_000) && r !is Again
        },
        result is Disconnected ==> r is Enough && !engine_after.run.audio_output_active
            && after.backpressure.polls == 0,
        after.generation == worker.generation,
        after.executed_sequence == worker.executed_sequence,
{
}

/// A position of another timeline is forgotten, one of this timeline is not.
pub proof fn law_a_position_belongs_to_its_timeline(worker: PlaybackWorker)
    ensures
        worker.mark() is Some ==> worker.mark() == worker.position && worker.mark()->0.generation
            == worker.generation,
        worker.position is Some && worker.position->0.generation == worker.generation
            ==> worker.mark() == worker.position,
{
}

/// A picture and a subtitle are handed out as they are, marked with their timeline.
pub proof fn law_frames_are_handed_out_as_they_are(
    video: TimedVideoFrame,
    subtitle: TimedSubtitleFrame,
    generation: u64,
)
    ensures
        shown_frame(video, generation).frame == video.frame,
        shown_frame(video, generation).pts == video.pts,
        shown_frame(video, generation).media_time == video.media_time,
        shown_frame(video, generation).late_by == video.late_by,
        shown_frame(video, generation).decode_backend == video.decode_backend,
        shown_frame(video, generation).generation == generation,
        video.pts is Some ==> shown_position(video) == video.pts->0,
        video.pts is None ==> shown_position(video) == video.media_time,
        handed_out(subtitle, generation).frame == subtitle.frame,
        handed_out(subtitle, generation).pts == subtitle.pts,
        handed_out(subtitle, generation).media_time == subtitle.media_time,
        handed_out(subtitle, generation).late_by == subtitle.late_by,
        handed_out(subtitle, generation).generation == generation,
{
}

/// The player's clock follows the worker's on its own and later timelines only.
pub proof fn law_the_player_follows_its_own_timeline(
    status: PlayerStatus,
    run: EngineState,
    generation: u64,
)
    requires
        generation > 0,
        status.playback_generation > 0,
    ensures
        generation < status.playback_generation ==> synced_status(status, run, generation)
            == status,
        generation >= status.playback_generation ==> synced_status(
            status,
            run,
            generation,
        ).playback_clock == run.clock && synced_status(status, run, generation).playback_generation
            == generation,
        synced_status(status, run, generation).state == status.state,
        synced_status(status, run, generation).ended == status.ended,
        synced_status(status, run, generation).playback_command_sequence
            == status.playback_command_sequence,
{
}

/// A report of a picture that could not be shown counts only on the timeline that worker and player
/// are both on. There the decoders that the systems bring are replaced; software cannot be, so that
/// playback ends.
pub proof fn law_a_report_of_another_timeline_is_ignored(
    worker: PlaybackWorker,
    engine: VideoPlaybackEngine,
    engine_after: VideoPlaybackEngine,
    inner: PlayerInner,
    inner_after: PlayerInner,
    failure: VideoFrameImportFailure,
    reading: ClockReading,
    step: CommandStep,
)
    requires
        worker.import_failure_taken(
            engine,
            engine_after,
            inner,
            inner_after,
            failure,
            reading,
            step,
        ),
        inner.status.playback_generation > 0,
    ensures
        ({
            let current = failure.generation == worker.generation && failure.generation
                == inner.status.playback_generation;
            &&& !current ==> step is Done && engine_after == engine && inner_after == inner
            &&& current && (failure.decode_backend == DecoderBackend::MediaCodec
                || failure.decode_backend == DecoderBackend::VideoToolbox || failure.decode_backend
                == DecoderBackend::AvCodec) ==> step == CommandStep::ReplaceDecoder(failure)
                && engine_after == engine && inner_after == inner
            &&& current && failure.decode_backend == DecoderBackend::Software ==> step is Done
                && inner_after.status.state == PlayerState::Error && engine_after.run.state
                != PlaybackRunState::Playing
            &&& current && failure.decode_backend == DecoderBackend::D3d11va ==> step is Done
                && engine_after == engine && inner_after == inner
        }),
{
}

/// A failure puts the player into the error state and is told with its reason, behind all that is to
/// be told already; the engine is paused and loses nothing.
pub proof fn law_a_failure_is_told_with_its_reason(
    engine: VideoPlaybackEngine,
    engine_after: VideoPlaybackEngine,
    inner: PlayerInner,
    inner_after: PlayerInner,
    text: Seq<char>,
    reading: ClockReading,
)
    requires
        playback_failed(engine, engine_after, inner, inner_after, text, reading),
    ensures
        inner_after.status.state == PlayerState::Error,
        inner_after.status.playback_clock == inner.status.playback_clock,
        inner_after.status.playback_generation == inner.status.playback_generation,
        inner_after.outbox@.len() > inner.outbox@.len(),
        inner_after.outbox@[inner.outbox@.len() as int] is Error,
        inner_after.outbox@[inner.outbox@.len() as int]->Error_0 is Playback,
        inner_after.outbox@[inner.outbox@.len() as int]->Error_0->Playback_0@ == text,
        inner.status.state != PlayerState::Error ==> inner_after.outbox@.last()
            == PlayerEvent::StateChanged(PlayerState::Error),
        inner.status.state == PlayerState::Error ==> inner_after.outbox@.len()
            == inner.outbox@.len() + 1,
        engine_after.run.state != PlaybackRunState::Playing,
        engine_after.session == engine.session,
        engine_after.pending_frame == engine.pending_frame,
        engine_after.pending_audio == engine.pending_audio,
{
}

/// A failure that ends nothing is told, and neither status nor tracks change.
pub proof fn law_a_small_failure_ends_nothing(
    after: PlayerInner,
    before: PlayerInner,
    text: Seq<char>,
)
    requires
        after.told_error(before, text),
    ensures
        after.status == before.status,
        after.tracks == before.tracks,
        after.outbox@.len() == before.outbox@.len() + 1,
        after.outbox@.last() is Error,
        after.outbox@.last()->Error_0 is Playback,
        after.outbox@.last()->Error_0->Playback_0@ == text,
{
}

/// A change of the tracks is made known with the selection of the engine, on its timeline or a later
/// one; what clears the screen goes out with it, and position and state stay.
pub proof fn law_a_change_of_tracks_keeps_the_place(
    after: PlayerInner,
    before: PlayerInner,
    generation: u64,
    info: crate::playback::OpenedMediaInfo,
    clear: Option<TimedSubtitleFrame>,
)
    requires
        after.tracks_changed(before, generation, info, clear),
    ensures
        after.status.playback_clock == before.status.playback_clock,
        after.status.state == before.status.state,
        after.status.ended == before.status.ended,
        after.status.playback_generation >= before.status.playback_generation,
        after.status.playback_generation >= generation,
        after.status.track_selection.video == info.selected_video_track,
        after.status.track_selection.audio == info.selected_audio_track,
        after.status.track_selection.subtitle == info.selected_subtitle_track,
        clear is None ==> after.subtitle_frame_sender == before.subtitle_frame_sender,
        clear is Some && after.subtitle_frame_sender is Some
            ==> after.subtitle_frame_sender->0.given().last().frame == clear->0.frame
            && after.subtitle_frame_sender->0.given().last().generation == generation,
{
}

/// Taking a subtitle track away neither moves nor stops playback, and the subtitle that waits goes
/// only where something was taken away.
pub proof fn law_removing_a_track_does_not_move_playback(
    before: VideoPlaybackEngine,
    after: VideoPlaybackEngine,
    track_id: i64,
    reading: ClockReading,
    outcome: Result<Option<TimedSubtitleFrame>, crate::playback::PlaybackError>,
)
    requires
        removal_seen(before, after, track_id, reading, outcome),
    ensures
        after.pending_frame == before.pending_frame,
        after.pending_audio == before.pending_audio,
        after.session.video == before.session.video,
        after.session.audio == before.session.audio,
        outcome is Err || outcome->Ok_0 is None ==> after.pending_subtitle
            == before.pending_subtitle,
        outcome is Ok && outcome->Ok_0 is Some ==> after.pending_subtitle is None,
        outcome is Err ==> after.session == before.session,
{
}

/// The listeners are told that data is missing or there again, and of nothing else.
pub proof fn law_missing_data_is_told(told: Option<bool>)
    ensures
        told is None ==> told_of_buffering(told).len() == 0,
        told is Some ==> told_of_buffering(told).len() == 1 && told_of_buffering(told)[0]
            == PlayerEvent::BufferingChanged(told->0),
{
}

/// A failure is told before the state that it leads to, and the state only where it is another.
pub proof fn law_a_failure_is_told_first(status: PlayerStatus, error: PlayerError)
    ensures
        failure_events(status, error)[0] == PlayerEvent::Error(error),
        status.state == PlayerState::Error ==> failure_events(status, error).len() == 1,
        status.state != PlayerState::Error ==> failure_events(status, error).len() == 2
            && failure_events(status, error)[1] == PlayerEvent::StateChanged(PlayerState::Error),
{
}

/// Removing a subtitle track leaves the clock and the state of playback alone; the worker goes on to a
/// new timeline only where something was on the screen.
pub proof fn law_a_removal_leaves_the_clock_alone(
    worker: PlaybackWorker,
    after: PlaybackWorker,
    engine: VideoPlaybackEngine,
    engine_after: VideoPlaybackEngine,
    inner: PlayerInner,
    inner_after: PlayerInner,
    track_id: i64,
    reading: ClockReading,
)
    requires
        worker.removal_executed(
            after,
            engine,
            engine_after,
            inner,
            inner_after,
            track_id,
            reading,
        ),
        worker.generation < u64::MAX,
    ensures
        engine_after.run == engine.run,
        engine_after.pending_frame == engine.pending_frame,
        engine_after.pending_audio == engine.pending_audio,
        after.executed_sequence == worker.executed_sequence,
        after.generation == worker.generation || after.generation == worker.generation + 1,
        inner_after.status.state == inner.status.state,
        inner_after.status.playback_clock == inner.status.playback_clock,
{
}

/// A picture that cannot be shown at all is told as a failure of the renderer, with its reason.
pub proof fn law_a_picture_that_cannot_be_shown_is_told(
    engine: VideoPlaybackEngine,
    engine_after: VideoPlaybackEngine,
    inner: PlayerInner,
    inner_after: PlayerInner,
    text: Seq<char>,
    reading: ClockReading,
)
    requires
        import_failed(engine, engine_after, inner, inner_after, text, reading),
    ensures
        inner_after.status.state == PlayerState::Error,
        inner_after.outbox@[inner.outbox@.len() as int] is Error,
        inner_after.outbox@[inner.outbox@.len() as int]->Error_0 is Renderer,
        inner_after.outbox@[inner.outbox@.len() as int]->Error_0->Renderer_0@ == text,
        engine_after.run.state != PlaybackRunState::Playing,
        engine_after.session == engine.session,
{
}

} // verus!
