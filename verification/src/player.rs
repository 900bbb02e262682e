//! The player as its callers see it: commands to the playback worker, and what it says back.
use crate::audio::AudioClockSnapshot;
use crate::channel::{bounded_channel, unbounded_channel, Fate, Offer, Outlet};
use crate::clock::{ClockReading, PlaybackClock};
use crate::decoder::Platform;
use crate::events::{
    AudioOutputEvent, PlayerEvent, VideoDecoderEvent, VideoFrameImportFailure,
};
use crate::media::{
    duplicate_tracks, MediaRequest, PlayerError, PlayerState, RendererBackendPreference, TrackInfo,
    TrackSelection,
};
use crate::playback::{OpenedMediaInfo, PlaybackSessionConfig};
use crate::shared::{
    PlaybackSnapshot, PlayerAudioFrame, PlayerInner, PlayerSubtitleFrame, PlayerVideoFrame,
};
use crate::subtitle::SubtitleTrackConfig;
use crate::surface::PlatformSurface;
use crate::text::{decimal_text, joined};
use crate::time::Duration;
use crossbeam_channel::Receiver;
use vstd::prelude::*;

verus! {

/// The number from which the tracks of subtitle files are counted.
pub const EXTERNAL_SUBTITLE_TRACK_ID_BASE: i64 = 1_000_000;

/// How long the frame output barrier waits.
pub const FRAME_OUTPUT_BARRIER_TIMEOUT_NANOS: u128 = 2_000_000_000;

/// Subtitles are events: a lost one can take a sign or a line with it, so there is room for many.
pub const SUBTITLE_FRAME_HANDOFF_MIN_CAPACITY: usize = 1024;

/// The most messages that a channel of a player holds.
pub open spec fn channel_limit() -> int {
    usize::MAX as int / 65_536
}

#[derive(Clone, Debug, PartialEq, Eq)]
pub struct PlayerConfig {
    pub name: String,
    pub event_channel_capacity: usize,
    pub playback: PlaybackSessionConfig,
    pub renderer: RendererBackendPreference,
    pub video_frame_queue_capacity: usize,
    pub audio_frame_queue_capacity: usize,
    pub subtitle_frame_queue_capacity: usize,
}

impl PlayerConfig {
    /// Whether the channels that the configuration asks for can be made.
    pub open spec fn fits(self) -> bool {
        &&& self.event_channel_capacity <= channel_limit()
        &&& self.video_frame_queue_capacity <= channel_limit()
        &&& self.audio_frame_queue_capacity <= channel_limit()
        &&& self.subtitle_frame_queue_capacity <= channel_limit()
    }

    /// The configuration that a player starts with on a system.
    pub fn for_platform(platform: Platform) -> (r: Self)
        ensures
            r.name@ == "Erika"@,
            r == (PlayerConfig {
                name: r.name,
                event_channel_capacity: 1024,
                playback: PlaybackSessionConfig {
                    video_decode: crate::playback::preference_on(platform),
                    ..crate::playback::default_session_config()
                },
                renderer: RendererBackendPreference::Auto,
                video_frame_queue_capacity: 3,
                audio_frame_queue_capacity: 192,
                subtitle_frame_queue_capacity: 16,
            }),
            r.fits(),
    {
        PlayerConfig {
            playback: PlaybackSessionConfig::for_platform(platform),
            ..PlayerConfig::default()
        }
    }
}

impl Default for PlayerConfig {
    /// The configuration where nothing is known of the system.
    fn default() -> (r: Self)
        ensures
            r.name@ == "Erika"@,
            r == (PlayerConfig {
                name: r.name,
                event_channel_capacity: 1024,
                playback: crate::playback::default_session_config(),
                renderer: RendererBackendPreference::Auto,
                video_frame_queue_capacity: 3,
                audio_frame_queue_capacity: 192,
                subtitle_frame_queue_capacity: 16,
            }),
            r.fits(),
    {
        PlayerConfig {
            name: "Erika".to_owned(),
            event_channel_capacity: 1024,
            playback: PlaybackSessionConfig::default(),
            renderer: RendererBackendPreference::default(),
            video_frame_queue_capacity: 3,
            audio_frame_queue_capacity: 192,
            subtitle_frame_queue_capacity: 16,
        }
    }
}

/// How many messages may wait in a queue for which `wanted` were asked: at least one.
pub open spec fn queue_room(wanted: usize) -> nat {
    if wanted == 0 { 1 } else { wanted as nat }
}

/// How many messages may wait in a queue for which `wanted` were asked.
pub fn queue_capacity(wanted: usize) -> (r: usize)
    ensures
        r == queue_room(wanted),
{
    if wanted == 0 {
        1
    } else {
        wanted
    }
}

/// The number of a player; never zero.
#[derive(Clone, Copy, Debug, PartialEq, Eq, Hash, Structural)]
pub struct PlayerId {
    pub value: u64,
}

impl PlayerId {
    /// The number that belongs to the count of players made so far.
    pub fn of_counter(counter: u64) -> (r: Self)
        ensures
            r.value == crate::shared::counted_generation(counter),
            r.value > 0,
    {
        PlayerId { value: if counter == 0 { 1 } else { counter } }
    }

    pub fn get(self) -> (r: u64)
        ensures
            r == self.value,
    {
        self.value
    }
}

/// The number of the track of a subtitle file; `offset` counts the files that were added.
pub fn next_external_subtitle_track_id(offset: u64) -> (r: i64)
    ensures
        r == (if offset > i64::MAX - EXTERNAL_SUBTITLE_TRACK_ID_BASE {
            i64::MAX as int
        } else {
            EXTERNAL_SUBTITLE_TRACK_ID_BASE + offset
        }),
        r >= EXTERNAL_SUBTITLE_TRACK_ID_BASE,
{
    let room: u64 = i64::MAX as u64 - EXTERNAL_SUBTITLE_TRACK_ID_BASE as u64;
    if offset > room {
        i64::MAX
    } else {
        EXTERNAL_SUBTITLE_TRACK_ID_BASE + offset as i64
    }
}

/// What a player asks of its playback worker.
pub enum PlaybackCommand {
    Play { sequence: u64, generation: u64 },
    Pause { sequence: u64 },
    Seek { position: Duration, sequence: u64, generation: u64, resume_after_seek: bool },
    /// The bits of the rate.
    SetPlaybackRate(u64),
    Stop { sequence: u64, generation: u64 },
    AudioClock(AudioClockSnapshot),
    VideoFrameImportFailed(VideoFrameImportFailure),
    AddExternalSubtitle {
        config: SubtitleTrackConfig,
        reply: Outlet<Result<SubtitleTrackConfig, String>>,
    },
    RemoveSubtitleTrack(i64),
    SelectAudioTrack(Option<i64>),
    SelectSubtitleTrack(Option<i64>),
    SetFrameOutputQuiesced { quiesced: bool, reply: Outlet<()> },
    SetVideoDecodeSuspended { suspended: bool, reply: Outlet<Result<(), String>> },
    Shutdown,
}

/// Whether one answer that is given to an outlet arrives at a receiver.
pub open spec fn answers_at<T>(reply: Outlet<T>, response: Receiver<T>) -> bool {
    &&& reply.unused()
    &&& reply.reader() == response
    &&& reply.room() == Some(1nat)
}

/// A command that has been numbered and starts a new timeline, with what it replaces.
#[derive(Clone, Copy, Debug, PartialEq, Eq, Structural)]
pub struct Relocation {
    pub position: Duration,
    pub sequence: u64,
    pub generation: u64,
    pub resume_after_seek: bool,
    pub previous_clock: PlaybackClock,
    pub previous_generation: u64,
    pub previous_ended: bool,
}

impl Relocation {
    pub fn seek_command(&self) -> (r: PlaybackCommand)
        ensures
            r == (PlaybackCommand::Seek {
                position: self.position,
                sequence: self.sequence,
                generation: self.generation,
                resume_after_seek: self.resume_after_seek,
            }),
    {
        PlaybackCommand::Seek {
            position: self.position,
            sequence: self.sequence,
            generation: self.generation,
            resume_after_seek: self.resume_after_seek,
        }
    }

    pub fn stop_command(&self) -> (r: PlaybackCommand)
        ensures
            r == (PlaybackCommand::Stop { sequence: self.sequence, generation: self.generation }),
    {
        PlaybackCommand::Stop { sequence: self.sequence, generation: self.generation }
    }
}

/// The error of a player whose worker is gone.
fn worker_is_not_running() -> (r: PlayerError)
    ensures
        r is Playback,
        r->Playback_0@ == "playback worker is not running"@,
{
    PlayerError::Playback("playback worker is not running".to_owned())
}

/// Whether a result says that the worker is gone.
pub open spec fn worker_gone<T>(r: Result<T, PlayerError>) -> bool {
    r is Err && r->Err_0 is Playback && r->Err_0->Playback_0@ == "playback worker is not running"@
}

/// Whether a result says that nothing is open.
pub open spec fn nothing_open<T>(r: Result<T, PlayerError>) -> bool {
    r is Err && r->Err_0 is Playback && r->Err_0->Playback_0@ == "no media is open"@
}

impl PlayerInner {
    /// Whether playback can be started from a state.
    pub open spec fn starts_from(state: PlayerState) -> bool {
        state == PlayerState::Ready || state == PlayerState::Paused || state
            == PlayerState::Stopped
    }

    /// Numbers the command to play, where the state allows it.
    pub fn reserve_play(&mut self) -> (r: Result<PlaybackCommand, PlayerError>)
        ensures
            Self::starts_from(old(self).status.state) ==> final(self).became(
                *old(self),
                old(self).status.numbered(),
                Seq::<PlayerEvent>::empty(),
            ) && r == Ok::<PlaybackCommand, PlayerError>(
                PlaybackCommand::Play {
                    sequence: final(self).status.playback_command_sequence,
                    generation: crate::shared::counted_generation(
                        old(self).status.playback_generation,
                    ),
                },
            ),
            !Self::starts_from(old(self).status.state) ==> *final(self) == *old(self) && r == Err::<
                PlaybackCommand,
                PlayerError,
            >(
                PlayerError::InvalidStateTransition {
                    from: old(self).status.state,
                    to: PlayerState::Playing,
                },
            ),
    {
        match self.status.state {
            PlayerState::Ready => {},
            PlayerState::Paused => {},
            PlayerState::Stopped => {},
            from => {
                return Err(
                    PlayerError::InvalidStateTransition { from, to: PlayerState::Playing },
                );
            },
        }
        let sequence: u64 = self.status.give_number();
        assert(self.outbox@ =~= old(self).outbox@ + Seq::<PlayerEvent>::empty());
        Ok(
            PlaybackCommand::Play {
                sequence,
                generation: self.status.shared_playback_generation(),
            },
        )
    }

    /// Numbers the command to pause, where the player plays.
    pub fn reserve_pause(&mut self) -> (r: Result<PlaybackCommand, PlayerError>)
        ensures
            old(self).status.state == PlayerState::Playing ==> final(self).became(
                *old(self),
                old(self).status.numbered(),
                Seq::<PlayerEvent>::empty(),
            ) && r == Ok::<PlaybackCommand, PlayerError>(
                PlaybackCommand::Pause { sequence: final(self).status.playback_command_sequence },
            ),
            old(self).status.state != PlayerState::Playing ==> *final(self) == *old(self) && r
                == Err::<PlaybackCommand, PlayerError>(
                PlayerError::InvalidStateTransition {
                    from: old(self).status.state,
                    to: PlayerState::Paused,
                },
            ),
    {
        if self.status.state != PlayerState::Playing {
            return Err(
                PlayerError::InvalidStateTransition {
                    from: self.status.state,
                    to: PlayerState::Paused,
                },
            );
        }
        let sequence: u64 = self.status.give_number();
        assert(self.outbox@ =~= old(self).outbox@ + Seq::<PlayerEvent>::empty());
        Ok(PlaybackCommand::Pause { sequence })
    }

    /// Numbers a command that starts a new timeline at a position. The clock stands there at once,
    /// before the worker has got the command.
    pub fn relocate(&mut self, position: Duration) -> (r: Relocation)
        ensures
            final(self).became(
                *old(self),
                old(self).status.relocated(position),
                Seq::<PlayerEvent>::empty(),
            ),
            r == (Relocation {
                position,
                sequence: final(self).status.playback_command_sequence,
                generation: final(self).status.playback_generation,
                resume_after_seek: old(self).status.state == PlayerState::Playing,
                previous_clock: old(self).status.playback_clock,
                previous_generation: old(self).status.playback_generation,
                previous_ended: old(self).status.ended,
            }),
    {
        let previous_clock = self.status.playback_clock;
        let previous_generation: u64 = self.status.playback_generation;
        let previous_ended = self.status.ended;
        let sequence: u64 = self.status.give_number();
        self.status.playback_clock = PlaybackClock::paused_at(position);
        self.status.playback_generation = self.status.playback_generation.saturating_add(1);
        self.status.ended = false;
        assert(self.outbox@ =~= old(self).outbox@ + Seq::<PlayerEvent>::empty());
        Relocation {
            position,
            sequence,
            generation: self.status.playback_generation,
            resume_after_seek: self.status.state == PlayerState::Playing,
            previous_clock,
            previous_generation,
            previous_ended,
        }
    }

    /// Takes a new timeline back, where its command did not reach the worker and no other command
    /// was given since.
    pub fn roll_back(&mut self, relocation: Relocation)
        ensures
            old(self).status.playback_command_sequence != relocation.sequence ==> *final(self)
                == *old(self),
            old(self).status.playback_command_sequence == relocation.sequence ==> final(
                self).became(
                *old(self),
                crate::shared::PlayerStatus {
                    playback_clock: relocation.previous_clock,
                    playback_generation: relocation.previous_generation,
                    ended: relocation.previous_ended,
                    ..old(self).status
                },
                Seq::<PlayerEvent>::empty(),
            ),
    {
        if self.status.playback_command_sequence == relocation.sequence {
            self.status.playback_clock = relocation.previous_clock;
            self.status.playback_generation = relocation.previous_generation;
            self.status.ended = relocation.previous_ended;
            assert(self.outbox@ =~= old(self).outbox@ + Seq::<PlayerEvent>::empty());
        }
    }

    /// Ends a seek when its command was sent or was not.
    pub fn finish_seek(&mut self, relocation: Relocation, sent: bool, reading: ClockReading) -> (r:
        Result<(), PlayerError>)
        ensures
            final(self).relocation_ended(*old(self), relocation, None, sent, reading),
            sent ==> r is Ok,
            !sent ==> worker_gone(r),
    {
        if !sent {
            self.roll_back(relocation);
            return Err(worker_is_not_running());
        }
        let _ = self.commit_playback_command_intent(
            relocation.sequence,
            None,
            Some(relocation.position),
            None,
            reading,
        );
        Ok(())
    }

    /// Ends a stop when its command was sent or was not.
    pub fn finish_stop(&mut self, relocation: Relocation, sent: bool, reading: ClockReading) -> (r:
        Result<(), PlayerError>)
        ensures
            final(self).relocation_ended(
                *old(self),
                relocation,
                Some(PlayerState::Stopped),
                sent,
                reading,
            ),
            sent ==> r is Ok,
            !sent ==> worker_gone(r),
    {
        if !sent {
            self.roll_back(relocation);
            return Err(worker_is_not_running());
        }
        let _ = self.commit_playback_command_intent(
            relocation.sequence,
            None,
            Some(relocation.position),
            Some(PlayerState::Stopped),
            reading,
        );
        Ok(())
    }

    /// Whether a command that starts a new timeline was ended: taken back where it was not sent, and
    /// made known where it was. Another command that was given since is left alone.
    pub open spec fn relocation_ended(
        self,
        before: PlayerInner,
        relocation: Relocation,
        state: Option<PlayerState>,
        sent: bool,
        reading: ClockReading,
    ) -> bool {
        if before.status.playback_command_sequence != relocation.sequence {
            self == before
        } else if sent {
            self.became(
                before,
                before.status.committed(None, Some(relocation.position), state, reading),
                before.status.commit_events(Some(relocation.position), state),
            )
        } else {
            self.became(
                before,
                crate::shared::PlayerStatus {
                    playback_clock: relocation.previous_clock,
                    playback_generation: relocation.previous_generation,
                    ended: relocation.previous_ended,
                    ..before.status
                },
                Seq::<PlayerEvent>::empty(),
            )
        }
    }
}

/// What a player does with its worker over time.
pub struct PlayerLifecycle {
    /// Counts the openings and closings.
    pub epoch: u64,
    /// The way to the playback worker of the open medium.
    pub commands: Option<Outlet<PlaybackCommand>>,
}

/// A player.
pub struct Player {
    pub id: PlayerId,
    pub config: PlayerConfig,
    pub inner: PlayerInner,
    pub lifecycle: PlayerLifecycle,
}

/// What came of waiting for the frame output barrier.
#[derive(Clone, Copy, Debug, PartialEq, Eq, Structural)]
pub enum BarrierReply {
    Done,
    Timeout,
    Disconnected,
}

/// What is asked of the frame output.
pub open spec fn output_action(quiesced: bool) -> Seq<char> {
    if quiesced { "quiesce"@ } else { "resume"@ }
}

fn output_action_text(quiesced: bool) -> (r: &'static str)
    ensures
        r@ == output_action(quiesced),
{
    if quiesced {
        "quiesce"
    } else {
        "resume"
    }
}

/// Reads how the request of the frame output barrier was sent.
pub fn frame_output_sent(reply: BarrierReply, quiesced: bool, timeout: Duration) -> (r: Result<
    (),
    PlayerError,
>)
    ensures
        reply == BarrierReply::Done ==> r is Ok,
        reply == BarrierReply::Disconnected ==> worker_gone(r),
        reply == BarrierReply::Timeout ==> r is Err && r->Err_0 is Playback && r->Err_0->Playback_0@
            == "timed out after "@ + crate::text::decimal((timeout.nanos / 1_000_000) as nat)
            + " ms while sending frame output "@ + output_action(quiesced)
            + " to the playback worker"@,
{
    match reply {
        BarrierReply::Done => Ok(()),
        BarrierReply::Disconnected => Err(worker_is_not_running()),
        BarrierReply::Timeout => {
            let mut message = joined(
                "timed out after ",
                decimal_text(timeout.as_millis()).as_str(),
            );
            message.append(" ms while sending frame output ");
            message.append(output_action_text(quiesced));
            message.append(" to the playback worker");
            Err(PlayerError::Playback(message))
        },
    }
}

/// Reads the acknowledgement of the frame output barrier, and whether the output is to be resumed:
/// a request to quiesce that timed out may still be waiting for the worker.
pub fn frame_output_acknowledged(reply: BarrierReply, quiesced: bool, timeout: Duration) -> (r: (
    Result<bool, PlayerError>,
    bool,
))
    ensures
        r.1 == (reply == BarrierReply::Timeout && quiesced),
        reply == BarrierReply::Done ==> r.0 == Ok::<bool, PlayerError>(true),
        reply == BarrierReply::Timeout ==> r.0 is Err && r.0->Err_0 is Playback
            && r.0->Err_0->Playback_0@ == "playback worker did not acknowledge frame output "@
            + output_action(quiesced) + " within "@ + crate::text::decimal(
            (timeout.nanos / 1_000_000) as nat,
        ) + " ms"@,
        reply == BarrierReply::Disconnected ==> r.0 is Err && r.0->Err_0 is Playback
            && r.0->Err_0->Playback_0@
            == "playback worker stopped before acknowledging frame output "@ + output_action(
            quiesced,
        ),
{
    match reply {
        BarrierReply::Done => (Ok(true), false),
        BarrierReply::Timeout => {
            let mut message = joined(
                "playback worker did not acknowledge frame output ",
                output_action_text(quiesced),
            );
            message.append(" within ");
            message.append(decimal_text(timeout.as_millis()).as_str());
            message.append(" ms");
            (Err(PlayerError::Playback(message)), quiesced)
        },
        BarrierReply::Disconnected => {
            let message = joined(
                "playback worker stopped before acknowledging frame output ",
                output_action_text(quiesced),
            );
            (Err(PlayerError::Playback(message)), false)
        },
    }
}

/// How long the acknowledgement is waited for.
pub fn frame_output_remaining(timeout: Duration, elapsed: Duration) -> (r: Duration)
    ensures
        r == timeout.less(elapsed),
{
    timeout.saturating_sub(elapsed)
}

/// Has the frame output resumed, without waiting, and says whether the worker will get to it, which
/// depends on other threads.
pub fn enqueue_frame_output_resume_after_timeout(commands: &mut Outlet<PlaybackCommand>) -> (r:
    BarrierReply)
    ensures
        final(commands).same_channel(*old(commands)),
        final(commands).given().len() == old(commands).given().len() + 1,
        final(commands).given().drop_last() == old(commands).given(),
        final(commands).given().last() is SetFrameOutputQuiesced,
        !final(commands).given().last()->SetFrameOutputQuiesced_quiesced,
        final(commands).fates() == old(commands).fates().push(final(commands).fate()),
        r == (match final(commands).fate() {
            Fate::Taken => BarrierReply::Done,
            Fate::Refused => BarrierReply::Timeout,
            Fate::Lost => BarrierReply::Disconnected,
        }),
{
    let (reply, _response) = bounded_channel(1);
    let offer = commands.offer(PlaybackCommand::SetFrameOutputQuiesced { quiesced: false, reply });
    assert(commands.given().drop_last() =~= old(commands).given());
    match offer {
        Offer::Sent => BarrierReply::Done,
        Offer::Full(_) => BarrierReply::Timeout,
        Offer::Disconnected(_) => BarrierReply::Disconnected,
    }
}

/// Reads what the worker said of a subtitle file, or that it said nothing.
pub fn subtitle_reply(reply: Option<Result<SubtitleTrackConfig, String>>) -> (r: Result<
    SubtitleTrackConfig,
    PlayerError,
>)
    ensures
        reply is None ==> r is Err && r->Err_0 is Playback && r->Err_0->Playback_0@
            == "playback worker stopped before opening the external subtitle"@,
        reply is Some ==> r == (match reply->0 {
            Ok(track) => Ok::<SubtitleTrackConfig, PlayerError>(track),
            Err(reason) => Err(PlayerError::Playback(reason)),
        }),
{
    match reply {
        None => Err(
            PlayerError::Playback(
                "playback worker stopped before opening the external subtitle".to_owned(),
            ),
        ),
        Some(Ok(track)) => Ok(track),
        Some(Err(reason)) => Err(PlayerError::Playback(reason)),
    }
}

/// Reads what the worker said of the video decode mode, or that it said nothing.
pub fn video_decode_reply(reply: Option<Result<(), String>>) -> (r: Result<bool, PlayerError>)
    ensures
        reply is None ==> r is Err && r->Err_0 is Playback && r->Err_0->Playback_0@
            == "playback worker stopped before acknowledging video decode mode"@,
        reply is Some ==> r == (match reply->0 {
            Ok(_) => Ok::<bool, PlayerError>(true),
            Err(reason) => Err(PlayerError::Playback(reason)),
        }),
{
    match reply {
        None => Err(
            PlayerError::Playback(
                "playback worker stopped before acknowledging video decode mode".to_owned(),
            ),
        ),
        Some(Ok(())) => Ok(true),
        Some(Err(reason)) => Err(PlayerError::Playback(reason)),
    }
}

impl Player {
    pub fn new(config: PlayerConfig, id: PlayerId) -> (r: Self)
        ensures
            r.config == config,
            r.id == id,
            r.inner.status == crate::shared::PlayerStatus::fresh(),
            r.inner.media is None,
            r.inner.surface is None,
            r.inner.tracks@.len() == 0,
            r.inner.subscribers@.len() == 0,
            r.inner.video_frame_sender is None,
            r.inner.audio_frame_sender is None,
            r.inner.subtitle_frame_sender is None,
            r.inner.outbox@.len() == 0,
            r.inner.departed@.nobody(),
            r.lifecycle.epoch == 1,
            r.lifecycle.commands is None,
    {
        Player {
            id,
            config,
            inner: PlayerInner::new(),
            lifecycle: PlayerLifecycle { epoch: 1, commands: None },
        }
    }

    pub fn id(&self) -> (r: PlayerId)
        ensures
            r == self.id,
    {
        self.id
    }

    pub fn config(&self) -> (r: &PlayerConfig)
        ensures
            *r == self.config,
    {
        &self.config
    }

    pub fn state(&self) -> (r: PlayerState)
        ensures
            r == self.inner.status.state,
    {
        self.inner.status.state
    }

    pub fn is_ended(&self) -> (r: bool)
        ensures
            r == self.inner.status.ended,
    {
        self.inner.status.ended
    }

    pub fn is_stopped_at_end(&self) -> (r: bool)
        ensures
            r == (self.inner.status.state == PlayerState::Stopped && self.inner.status.ended),
    {
        self.inner.status.state == PlayerState::Stopped && self.inner.status.ended
    }

    pub fn current_media_time(&self, reading: ClockReading) -> (r: Duration)
        ensures
            r == self.inner.status.playback_clock.shows(reading),
    {
        self.inner.status.playback_clock.media_time_at(reading)
    }

    pub fn playback_snapshot(&self) -> (r: PlaybackSnapshot)
        ensures
            r == (PlaybackSnapshot {
                clock: self.inner.status.playback_clock,
                generation: crate::shared::counted_generation(
                    self.inner.status.playback_generation,
                ),
                state: self.inner.status.state,
            }),
    {
        self.inner.status.snapshot()
    }

    pub fn duration(&self) -> (r: Option<Duration>)
        ensures
            r == self.inner.status.duration,
    {
        self.inner.status.duration
    }

    pub fn playback_generation(&self) -> (r: u64)
        ensures
            r == crate::shared::counted_generation(self.inner.status.playback_generation),
    {
        self.inner.status.shared_playback_generation()
    }

    pub fn tracks(&self) -> (r: Vec<TrackInfo>)
        ensures
            r@ == self.inner.tracks@,
    {
        duplicate_tracks(&self.inner.tracks)
    }

    pub fn track_selection(&self) -> (r: TrackSelection)
        ensures
            r == self.inner.status.track_selection,
    {
        self.inner.status.track_selection
    }

    /// Whether two players differ in what they share with the worker alone.
    pub open spec fn same_but_inner(self, other: Player) -> bool {
        &&& self.id == other.id
        &&& self.config == other.config
        &&& self.lifecycle == other.lifecycle
    }

    /// Takes a listener on.
    pub fn subscribe(&mut self) -> (r: Receiver<PlayerEvent>)
        ensures
            final(self).same_but_inner(*old(self)),
            final(self).inner.status == old(self).inner.status,
            final(self).inner.media == old(self).inner.media,
            final(self).inner.surface == old(self).inner.surface,
            final(self).inner.tracks == old(self).inner.tracks,
            final(self).inner.outbox == old(self).inner.outbox,
            final(self).inner.video_frame_sender == old(self).inner.video_frame_sender,
            final(self).inner.audio_frame_sender == old(self).inner.audio_frame_sender,
            final(self).inner.subtitle_frame_sender == old(self).inner.subtitle_frame_sender,
            final(self).inner.subscribers@.len() == old(self).inner.subscribers@.len() + 1,
            final(self).inner.subscribers@.drop_last() == old(self).inner.subscribers@,
            final(self).inner.subscribers@.last().unused(),
            final(self).inner.subscribers@.last().reader() == r,
            final(self).inner.subscribers@.last().room() is None,
            final(self).inner.departed == old(self).inner.departed,
    {
        let (outlet, receiver) = unbounded_channel();
        self.inner.subscribers.push(outlet);
        assert(self.inner.subscribers@.drop_last() =~= old(self).inner.subscribers@);
        receiver
    }

    /// The channel over which a playback worker gets its commands.
    pub fn command_channel(&self) -> (r: (Outlet<PlaybackCommand>, Receiver<PlaybackCommand>))
        requires
            self.config.fits(),
        ensures
            r.0.unused(),
            r.0.reader() == r.1,
            r.0.room() == Some(queue_room(self.config.event_channel_capacity)),
    {
        bounded_channel(queue_capacity(self.config.event_channel_capacity))
    }

    /// Takes a receiver of pictures on, in place of another.
    pub fn subscribe_video_frames(&mut self) -> (r: Receiver<PlayerVideoFrame>)
        requires
            old(self).config.fits(),
        ensures
            final(self).same_but_inner(*old(self)),
            final(self).inner.same_but_video(old(self).inner),
            final(self).inner.video_frame_sender is Some,
            final(self).inner.video_frame_sender->0.unused(),
            final(self).inner.video_frame_sender->0.reader() == r,
            final(self).inner.video_frame_sender->0.room() == Some(
                queue_room(old(self).config.video_frame_queue_capacity),
            ),
            final(self).inner.departed == old(self).inner.departed,
    {
        let capacity: usize = queue_capacity(self.config.video_frame_queue_capacity);
        let (outlet, receiver) = bounded_channel(capacity);
        self.inner.video_frame_sender = Some(outlet);
        receiver
    }

    /// Takes a receiver of audio on, in place of another.
    pub fn subscribe_audio_frames(&mut self) -> (r: Receiver<PlayerAudioFrame>)
        requires
            old(self).config.fits(),
        ensures
            final(self).same_but_inner(*old(self)),
            final(self).inner.same_but_audio(old(self).inner),
            final(self).inner.audio_frame_sender is Some,
            final(self).inner.audio_frame_sender->0.unused(),
            final(self).inner.audio_frame_sender->0.reader() == r,
            final(self).inner.audio_frame_sender->0.room() == Some(
                queue_room(old(self).config.audio_frame_queue_capacity),
            ),
            final(self).inner.departed == old(self).inner.departed,
    {
        let capacity: usize = queue_capacity(self.config.audio_frame_queue_capacity);
        let (outlet, receiver) = bounded_channel(capacity);
        self.inner.audio_frame_sender = Some(outlet);
        receiver
    }

    /// How many subtitles may wait: enough for a host that stalls for a while, and no more.
    pub fn subtitle_handoff_capacity(&self) -> (r: usize)
        ensures
            r == crate::time::max_int(
                self.config.subtitle_frame_queue_capacity as int,
                SUBTITLE_FRAME_HANDOFF_MIN_CAPACITY as int,
            ),
    {
        if self.config.subtitle_frame_queue_capacity >= SUBTITLE_FRAME_HANDOFF_MIN_CAPACITY {
            self.config.subtitle_frame_queue_capacity
        } else {
            SUBTITLE_FRAME_HANDOFF_MIN_CAPACITY
        }
    }

    /// Takes a receiver of subtitles on, in place of another; what was dropped is counted anew.
    pub fn subscribe_subtitle_frames(&mut self) -> (r: Receiver<PlayerSubtitleFrame>)
        requires
            old(self).config.fits(),
        ensures
            final(self).same_but_inner(*old(self)),
            final(self).inner.same_but_subtitles(old(self).inner),
            final(self).inner.status.subtitle_frame_backpressure_drops == 0,
            final(self).inner.subtitle_frame_sender is Some,
            final(self).inner.subtitle_frame_sender->0.unused(),
            final(self).inner.subtitle_frame_sender->0.reader() == r,
            final(self).inner.subtitle_frame_sender->0.room() == Some(
                crate::time::max_int(
                    old(self).config.subtitle_frame_queue_capacity as int,
                    SUBTITLE_FRAME_HANDOFF_MIN_CAPACITY as int,
                ) as nat,
            ),
            final(self).inner.departed == old(self).inner.departed,
    {
        let capacity: usize = self.subtitle_handoff_capacity();
        let (outlet, receiver) = bounded_channel(capacity);
        self.inner.subtitle_frame_sender = Some(outlet);
        self.inner.status.subtitle_frame_backpressure_drops = 0;
        receiver
    }

    /// Whether the player takes commands: it is not closed.
    pub fn ensure_not_closed(&self) -> (r: Result<(), PlayerError>)
        ensures
            r == (if self.inner.status.state == PlayerState::Closed {
                Err::<(), PlayerError>(PlayerError::Closed)
            } else {
                Ok(())
            }),
    {
        if self.inner.status.state == PlayerState::Closed {
            Err(PlayerError::Closed)
        } else {
            Ok(())
        }
    }

    /// Whether a result refuses a command: the player is closed, or nothing is open.
    pub open spec fn refuses<T>(self, r: Result<T, PlayerError>) -> bool {
        if self.inner.status.state == PlayerState::Closed {
            r == Err::<T, PlayerError>(PlayerError::Closed)
        } else {
            self.lifecycle.commands is None && nothing_open(r)
        }
    }

    /// Whether the player can be given a command at all.
    pub open spec fn commandable(self) -> bool {
        self.inner.status.state != PlayerState::Closed && self.lifecycle.commands is Some
    }

    fn check_commandable(&self) -> (r: Result<(), PlayerError>)
        ensures
            r is Ok <==> self.commandable(),
            r is Err ==> self.refuses(r),
    {
        if let Err(error) = self.ensure_not_closed() {
            return Err(error);
        }
        if self.lifecycle.commands.is_none() {
            return Err(PlayerError::Playback("no media is open".to_owned()));
        }
        Ok(())
    }

    /// Whether a command was given to the worker, and nothing else changed but what is shared with
    /// it.
    pub open spec fn commanded(self, before: Player, command: PlaybackCommand) -> bool {
        &&& self.id == before.id
        &&& self.config == before.config
        &&& self.lifecycle.epoch == before.lifecycle.epoch
        &&& before.lifecycle.commands is Some
        &&& self.lifecycle.commands is Some
        &&& self.lifecycle.commands->0.gave(before.lifecycle.commands->0, command)
    }

    /// Whether a result says if the worker took the last command.
    pub open spec fn reports<T>(self, r: Result<T, PlayerError>) -> bool {
        &&& r is Ok <==> self.lifecycle.commands->0.fate() == Fate::Taken
        &&& r is Err ==> worker_gone(r)
    }

    /// Whether a command was given to the worker, where one can be given at all. The worker may be
    /// gone.
    pub open spec fn told_worker(
        self,
        before: Player,
        command: PlaybackCommand,
        r: Result<(), PlayerError>,
    ) -> bool {
        if before.commandable() {
            self.commanded(before, command) && self.inner == before.inner && self.reports(r)
        } else {
            self == before && before.refuses(r)
        }
    }

    /// Gives a command to the worker. Whether it is there depends on other threads.
    fn send_playback_command(&mut self, command: PlaybackCommand) -> (r: Result<(), PlayerError>)
        ensures
            final(self).told_worker(*old(self), command, r),
    {
        if let Err(error) = self.check_commandable() {
            return Err(error);
        }
        match &mut self.lifecycle.commands {
            None => Err(PlayerError::Playback("no media is open".to_owned())),
            Some(commands) => send_command(commands, command),
        }
    }

    /// Numbers the command to play, where the player takes it.
    pub fn begin_play(&mut self) -> (r: Result<PlaybackCommand, PlayerError>)
        ensures
            !old(self).commandable() ==> *final(self) == *old(self) && old(self).refuses(r),
            old(self).commandable() && !PlayerInner::starts_from(old(self).inner.status.state)
                ==> *final(self) == *old(self) && r == Err::<PlaybackCommand, PlayerError>(
                PlayerError::InvalidStateTransition {
                    from: old(self).inner.status.state,
                    to: PlayerState::Playing,
                },
            ),
            old(self).commandable() && PlayerInner::starts_from(old(self).inner.status.state)
                ==> final(self).same_but_inner(*old(self)) && final(self).inner.became(
                old(self).inner,
                old(self).inner.status.numbered(),
                Seq::<PlayerEvent>::empty(),
            ) && r == Ok::<PlaybackCommand, PlayerError>(
                PlaybackCommand::Play {
                    sequence: final(self).inner.status.playback_command_sequence,
                    generation: crate::shared::counted_generation(
                        old(self).inner.status.playback_generation,
                    ),
                },
            ),
    {
        if let Err(error) = self.check_commandable() {
            return Err(error);
        }
        self.inner.reserve_play()
    }

    /// Numbers the command to pause, where the player takes it.
    pub fn begin_pause(&mut self) -> (r: Result<PlaybackCommand, PlayerError>)
        ensures
            !old(self).commandable() ==> *final(self) == *old(self) && old(self).refuses(r),
            old(self).commandable() && old(self).inner.status.state != PlayerState::Playing
                ==> *final(self) == *old(self) && r == Err::<PlaybackCommand, PlayerError>(
                PlayerError::InvalidStateTransition {
                    from: old(self).inner.status.state,
                    to: PlayerState::Paused,
                },
            ),
            old(self).commandable() && old(self).inner.status.state == PlayerState::Playing
                ==> final(self).same_but_inner(*old(self)) && final(self).inner.became(
                old(self).inner,
                old(self).inner.status.numbered(),
                Seq::<PlayerEvent>::empty(),
            ) && r == Ok::<PlaybackCommand, PlayerError>(
                PlaybackCommand::Pause {
                    sequence: final(self).inner.status.playback_command_sequence,
                },
            ),
    {
        if let Err(error) = self.check_commandable() {
            return Err(error);
        }
        self.inner.reserve_pause()
    }

    /// Numbers a command that starts a new timeline at a position, where the player takes it. The
    /// clock stands there at once.
    pub fn begin_relocation(&mut self, position: Duration) -> (r: Result<Relocation, PlayerError>)
        ensures
            !old(self).commandable() ==> *final(self) == *old(self) && old(self).refuses(r),
            old(self).commandable() ==> final(self).same_but_inner(*old(self)) && final(
                self).inner.became(
                old(self).inner,
                old(self).inner.status.relocated(position),
                Seq::<PlayerEvent>::empty(),
            ) && r == Ok::<Relocation, PlayerError>(
                Relocation {
                    position,
                    sequence: final(self).inner.status.playback_command_sequence,
                    generation: final(self).inner.status.playback_generation,
                    resume_after_seek: old(self).inner.status.state == PlayerState::Playing,
                    previous_clock: old(self).inner.status.playback_clock,
                    previous_generation: old(self).inner.status.playback_generation,
                    previous_ended: old(self).inner.status.ended,
                },
            ),
    {
        if let Err(error) = self.check_commandable() {
            return Err(error);
        }
        Ok(self.inner.relocate(position))
    }

    /// Whether a command that starts a new timeline was ended, and where it was sent the listeners
    /// were told of it.
    pub open spec fn relocation_told(
        self,
        before: Player,
        relocation: Relocation,
        state: Option<PlayerState>,
        sent: bool,
        reading: ClockReading,
    ) -> bool {
        &&& self.same_but_inner(before)
        &&& exists|mid: PlayerInner|
            {
                &&& #[trigger] mid.relocation_ended(before.inner, relocation, state, sent, reading)
                &&& sent ==> self.inner.delivered(mid)
                &&& !sent ==> self.inner == mid
            }
    }

    /// Ends a seek when its command was sent or was not, and tells the listeners.
    pub fn end_seek(&mut self, relocation: Relocation, sent: bool, reading: ClockReading) -> (r:
        Result<(), PlayerError>)
        ensures
            final(self).relocation_told(*old(self), relocation, None, sent, reading),
            sent ==> r is Ok,
            !sent ==> worker_gone(r),
    {
        let result = self.inner.finish_seek(relocation, sent, reading);
        if sent {
            self.inner.deliver();
        }
        result
    }

    /// Ends a stop when its command was sent or was not, and tells the listeners.
    pub fn end_stop(&mut self, relocation: Relocation, sent: bool, reading: ClockReading) -> (r:
        Result<(), PlayerError>)
        ensures
            final(self).relocation_told(
                *old(self),
                relocation,
                Some(PlayerState::Stopped),
                sent,
                reading,
            ),
            sent ==> r is Ok,
            !sent ==> worker_gone(r),
    {
        let result = self.inner.finish_stop(relocation, sent, reading);
        if sent {
            self.inner.deliver();
        }
        result
    }

    /// Has playback started. The state changes when the worker has done so.
    pub fn play(&mut self) -> (r: Result<(), PlayerError>)
        ensures
            !old(self).commandable() ==> *final(self) == *old(self) && old(self).refuses(r),
            old(self).commandable() && !PlayerInner::starts_from(old(self).inner.status.state)
                ==> *final(self) == *old(self) && r == Err::<(), PlayerError>(
                PlayerError::InvalidStateTransition {
                    from: old(self).inner.status.state,
                    to: PlayerState::Playing,
                },
            ),
            old(self).commandable() && PlayerInner::starts_from(old(self).inner.status.state)
                ==> final(self).inner.became(
                old(self).inner,
                old(self).inner.status.numbered(),
                Seq::<PlayerEvent>::empty(),
            ) && final(self).commanded(
                *old(self),
                PlaybackCommand::Play {
                    sequence: old(self).inner.status.numbered().playback_command_sequence,
                    generation: crate::shared::counted_generation(
                        old(self).inner.status.playback_generation,
                    ),
                },
            ) && final(self).reports(r),
    {
        match self.begin_play() {
            Err(error) => Err(error),
            Ok(command) => self.send_playback_command(command),
        }
    }

    /// Has playback paused. The state changes when the worker has done so.
    pub fn pause(&mut self) -> (r: Result<(), PlayerError>)
        ensures
            !old(self).commandable() ==> *final(self) == *old(self) && old(self).refuses(r),
            old(self).commandable() && old(self).inner.status.state != PlayerState::Playing
                ==> *final(self) == *old(self) && r == Err::<(), PlayerError>(
                PlayerError::InvalidStateTransition {
                    from: old(self).inner.status.state,
                    to: PlayerState::Paused,
                },
            ),
            old(self).commandable() && old(self).inner.status.state == PlayerState::Playing
                ==> final(self).inner.became(
                old(self).inner,
                old(self).inner.status.numbered(),
                Seq::<PlayerEvent>::empty(),
            ) && final(self).commanded(
                *old(self),
                PlaybackCommand::Pause {
                    sequence: old(self).inner.status.numbered().playback_command_sequence,
                },
            ) && final(self).reports(r),
    {
        match self.begin_pause() {
            Err(error) => Err(error),
            Ok(command) => self.send_playback_command(command),
        }
    }

    /// Has the place changed. The clock shows it at once; where the worker is gone, everything but
    /// the number of the command is as before.
    pub fn seek(&mut self, position: Duration, reading: ClockReading) -> (r: Result<
        (),
        PlayerError,
    >)
        ensures
            !old(self).commandable() ==> *final(self) == *old(self) && old(self).refuses(r),
            old(self).commandable() ==> final(self).commanded(
                *old(self),
                PlaybackCommand::Seek {
                    position,
                    sequence: old(self).inner.status.relocated(position).playback_command_sequence,
                    generation: old(self).inner.status.relocated(position).playback_generation,
                    resume_after_seek: old(self).inner.status.state == PlayerState::Playing,
                },
            ) && final(self).reports(r),
            old(self).commandable() && r is Ok ==> final(self).inner.status == old(
                self).inner.status.relocated(position) && final(self).inner.told_after(
                old(self).inner,
                seq![PlayerEvent::PositionChanged(position)],
            ),
            old(self).commandable() && r is Err ==> final(self).inner.became(
                old(self).inner,
                old(self).inner.status.numbered(),
                Seq::<PlayerEvent>::empty(),
            ),
    {
        let relocation = match self.begin_relocation(position) {
            Err(error) => {
                return Err(error);
            },
            Ok(relocation) => relocation,
        };
        let sent = self.send_playback_command(relocation.seek_command()).is_ok();
        let result = self.end_seek(relocation, sent, reading);
        if !sent {
            assert(self.inner.outbox@ =~= old(self).inner.outbox@ + Seq::<PlayerEvent>::empty());
        }
        result
    }

    /// Has playback stopped. The player is stopped at once; where the worker is gone, everything but
    /// the number of the command is as before.
    pub fn stop(&mut self, reading: ClockReading) -> (r: Result<(), PlayerError>)
        ensures
            !old(self).commandable() ==> *final(self) == *old(self) && old(self).refuses(r),
            old(self).commandable() ==> final(self).commanded(
                *old(self),
                PlaybackCommand::Stop {
                    sequence: old(self).inner.status.relocated(
                        Duration { nanos: 0 },
                    ).playback_command_sequence,
                    generation: old(self).inner.status.relocated(
                        Duration { nanos: 0 },
                    ).playback_generation,
                },
            ) && final(self).reports(r),
            old(self).commandable() && r is Ok ==> final(self).inner.status == (
            crate::shared::PlayerStatus {
                state: PlayerState::Stopped,
                ..old(self).inner.status.relocated(Duration { nanos: 0 })
            }) && final(self).inner.told_after(
                old(self).inner,
                seq![PlayerEvent::PositionChanged(Duration { nanos: 0 })]
                    + old(self).inner.status.state_events(PlayerState::Stopped),
            ),
            old(self).commandable() && r is Err ==> final(self).inner.became(
                old(self).inner,
                old(self).inner.status.numbered(),
                Seq::<PlayerEvent>::empty(),
            ),
    {
        let relocation = match self.begin_relocation(Duration::zero()) {
            Err(error) => {
                return Err(error);
            },
            Ok(relocation) => relocation,
        };
        let sent = self.send_playback_command(relocation.stop_command()).is_ok();
        let result = self.end_stop(relocation, sent, reading);
        if !sent {
            assert(self.inner.outbox@ =~= old(self).inner.outbox@ + Seq::<PlayerEvent>::empty());
        }
        result
    }

    /// Has the rate changed; `rate` holds its bits.
    pub fn set_playback_rate(&mut self, rate: u64) -> (r: Result<(), PlayerError>)
        ensures
            final(self).told_worker(*old(self), PlaybackCommand::SetPlaybackRate(rate), r),
    {
        self.send_playback_command(PlaybackCommand::SetPlaybackRate(rate))
    }

    /// Has a subtitle file added as the track `track_id`, and returns where the answer comes.
    pub fn add_external_subtitle(&mut self, uri: String, track_id: i64) -> (r: Result<
        Receiver<Result<SubtitleTrackConfig, String>>,
        PlayerError,
    >)
        ensures
            !old(self).commandable() ==> *final(self) == *old(self) && old(self).refuses(r),
            old(self).commandable() ==> {
                let command = final(self).lifecycle.commands->0.given().last();
                &&& final(self).commanded(*old(self), command)
                &&& final(self).inner == old(self).inner
                &&& command is AddExternalSubtitle
                &&& command->AddExternalSubtitle_config == (SubtitleTrackConfig {
                    id: track_id,
                    language: None,
                    title: None,
                    source: crate::subtitle::SubtitleTrackSource::External { uri },
                })
                &&& command->AddExternalSubtitle_reply.unused()
                &&& r is Ok ==> answers_at(command->AddExternalSubtitle_reply, r->Ok_0)
                &&& final(self).reports(r)
            },
    {
        let config = SubtitleTrackConfig::external(track_id, uri);
        let (reply, response) = bounded_channel(1);
        match self.send_playback_command(PlaybackCommand::AddExternalSubtitle { config, reply }) {
            Ok(()) => Ok(response),
            Err(error) => Err(error),
        }
    }

    pub fn remove_subtitle_track(&mut self, track_id: i64) -> (r: Result<(), PlayerError>)
        ensures
            final(self).told_worker(*old(self), PlaybackCommand::RemoveSubtitleTrack(track_id), r),
    {
        self.send_playback_command(PlaybackCommand::RemoveSubtitleTrack(track_id))
    }

    pub fn select_audio_track(&mut self, track_id: Option<i64>) -> (r: Result<(), PlayerError>)
        ensures
            final(self).told_worker(*old(self), PlaybackCommand::SelectAudioTrack(track_id), r),
    {
        self.send_playback_command(PlaybackCommand::SelectAudioTrack(track_id))
    }

    pub fn select_subtitle_track(&mut self, track_id: Option<i64>) -> (r: Result<(), PlayerError>)
        ensures
            final(self).told_worker(*old(self), PlaybackCommand::SelectSubtitleTrack(track_id), r),
    {
        self.send_playback_command(PlaybackCommand::SelectSubtitleTrack(track_id))
    }

    /// Tells the worker where the audio output stands. A worker that is busy misses it.
    pub fn update_audio_clock(&mut self, snapshot: AudioClockSnapshot) -> (r: Result<
        (),
        PlayerError,
    >)
        ensures
            !old(self).commandable() ==> *final(self) == *old(self) && old(self).refuses(r),
            old(self).commandable() ==> {
                &&& final(self).commanded(*old(self), PlaybackCommand::AudioClock(snapshot))
                &&& final(self).inner == old(self).inner
                &&& r is Err <==> final(self).lifecycle.commands->0.fate() == Fate::Lost
                &&& r is Err ==> worker_gone(r)
            },
    {
        if let Err(error) = self.check_commandable() {
            return Err(error);
        }
        match &mut self.lifecycle.commands {
            None => Err(PlayerError::Playback("no media is open".to_owned())),
            Some(commands) => audio_clock_offered(
                commands.offer(PlaybackCommand::AudioClock(snapshot)),
            ),
        }
    }

    pub fn report_video_frame_import_failure(&mut self, failure: VideoFrameImportFailure) -> (r: Result<(), PlayerError>)
        ensures
            final(self).told_worker(*old(self), PlaybackCommand::VideoFrameImportFailed(failure), r),
    {
        self.send_playback_command(PlaybackCommand::VideoFrameImportFailed(failure))
    }

    /// The request for the frame output barrier, and where it is acknowledged. Nothing where nothing
    /// is open.
    pub fn begin_frame_output(&self, quiesced: bool) -> (r: Option<(PlaybackCommand, Receiver<()>)>)
        ensures
            r is Some <==> self.lifecycle.commands is Some,
            r is Some ==> (r->0).0 is SetFrameOutputQuiesced
                && (r->0).0->SetFrameOutputQuiesced_quiesced == quiesced
                && answers_at((r->0).0->SetFrameOutputQuiesced_reply, (r->0).1),
    {
        if self.lifecycle.commands.is_none() {
            return None;
        }
        let (reply, response) = bounded_channel(1);
        Some((PlaybackCommand::SetFrameOutputQuiesced { quiesced, reply }, response))
    }

    /// The request for the video decode mode, and where it is answered. Nothing where nothing is
    /// open.
    pub fn begin_video_decode_mode(&self, suspended: bool) -> (r: Option<
        (PlaybackCommand, Receiver<Result<(), String>>),
    >)
        ensures
            r is Some <==> self.lifecycle.commands is Some,
            r is Some ==> (r->0).0 is SetVideoDecodeSuspended
                && (r->0).0->SetVideoDecodeSuspended_suspended == suspended
                && answers_at((r->0).0->SetVideoDecodeSuspended_reply, (r->0).1),
    {
        if self.lifecycle.commands.is_none() {
            return None;
        }
        let (reply, response) = bounded_channel(1);
        Some((PlaybackCommand::SetVideoDecodeSuspended { suspended, reply }, response))
    }

    /// Whether the epoch moved on, the worker was let go, and nothing else changed.
    pub open spec fn retired(self, before: Player) -> bool {
        &&& self.id == before.id
        &&& self.config == before.config
        &&& self.inner == before.inner
        &&& self.lifecycle.epoch == crate::demux::next_generation(before.lifecycle.epoch)
        &&& self.lifecycle.commands is None
    }

    /// Begins to open another medium: the worker of the last one is let go. It has ended before
    /// [`Player::announce_opening`] is called.
    pub fn begin_open(&mut self) -> (r: Result<u64, PlayerError>)
        ensures
            old(self).inner.status.state == PlayerState::Closed ==> *final(self) == *old(self) && r
                == Err::<u64, PlayerError>(PlayerError::Closed),
            old(self).inner.status.state != PlayerState::Closed ==> final(self).retired(*old(self))
                && r == Ok::<u64, PlayerError>(final(self).lifecycle.epoch),
    {
        if let Err(error) = self.ensure_not_closed() {
            return Err(error);
        }
        self.lifecycle.epoch = self.lifecycle.epoch.saturating_add(1);
        self.lifecycle.commands = None;
        Ok(self.lifecycle.epoch)
    }

    pub fn announce_opening(&mut self)
        ensures
            final(self).same_but_inner(*old(self)),
            final(self).inner.status == (crate::shared::PlayerStatus {
                state: PlayerState::Opening,
                ..old(self).inner.status
            }),
            final(self).inner.told_after(
                old(self).inner,
                old(self).inner.status.state_events(PlayerState::Opening),
            ),
    {
        self.inner.set_state(PlayerState::Opening);
        self.inner.deliver();
    }

    /// The error of an opening that another opening, or the closing, overtook.
    pub open spec fn overtaken<T>(self, r: Result<T, PlayerError>) -> bool {
        if self.inner.status.state == PlayerState::Closed {
            r == Err::<T, PlayerError>(PlayerError::Closed)
        } else {
            r is Err && r->Err_0 is Playback && r->Err_0->Playback_0@
                == "media open was superseded by a newer lifecycle operation"@
        }
    }

    fn superseded_open_error(&self) -> (r: PlayerError)
        ensures
            self.overtaken(Err::<(), PlayerError>(r)),
    {
        if self.inner.status.state == PlayerState::Closed {
            PlayerError::Closed
        } else {
            PlayerError::Playback(
                "media open was superseded by a newer lifecycle operation".to_owned(),
            )
        }
    }

    /// Ends an opening that failed.
    pub fn fail_open(&mut self, epoch: u64, reason: String) -> (r: PlayerError)
        ensures
            final(self).same_but_inner(*old(self)),
            old(self).lifecycle.epoch != epoch ==> *final(self) == *old(self)
                && old(self).overtaken(Err::<(), PlayerError>(r)),
            old(self).lifecycle.epoch == epoch ==> r == PlayerError::Playback(reason) && final(
                self).inner.status == (crate::shared::PlayerStatus {
                state: PlayerState::Error,
                ..old(self).inner.status
            }) && final(self).inner.told_after(
                old(self).inner,
                old(self).inner.status.state_events(PlayerState::Error).push(
                    PlayerEvent::Error(PlayerError::Playback(reason)),
                ),
            ),
    {
        if self.lifecycle.epoch != epoch {
            return self.superseded_open_error();
        }
        let error = PlayerError::Playback(reason);
        self.inner.set_state(PlayerState::Error);
        self.inner.emit(PlayerEvent::Error(error.duplicate()));
        assert(self.inner.outbox@ =~= old(self).inner.outbox@ + old(self).inner.status.state_events(PlayerState::Error).push(PlayerEvent::Error(error)));
        self.inner.deliver();
        error
    }

    /// The status of a player that has opened a medium: parked at its start, on a new timeline.
    pub open spec fn opened_status(
        before: crate::shared::PlayerStatus,
        info: OpenedMediaInfo,
    ) -> crate::shared::PlayerStatus {
        crate::shared::PlayerStatus {
            duration: info.duration,
            playback_clock: PlaybackClock::fresh(Duration { nanos: 0 }),
            playback_generation: crate::demux::next_generation(before.playback_generation),
            playback_command_sequence: 0,
            ended: false,
            track_selection: info.selection(),
            ..before
        }
    }

    /// Takes the medium on that was opened, unless the opening was overtaken, and returns the number
    /// of its timeline.
    pub fn adopt_media(
        &mut self,
        epoch: u64,
        media: MediaRequest,
        info: &OpenedMediaInfo,
        commands: Outlet<PlaybackCommand>,
    ) -> (r: Result<u64, PlayerError>)
        ensures
            final(self).id == old(self).id,
            final(self).config == old(self).config,
            old(self).lifecycle.epoch != epoch ==> *final(self) == *old(self)
                && old(self).overtaken(r),
            old(self).lifecycle.epoch == epoch && old(self).inner.status.state
                == PlayerState::Closed ==> *final(self) == *old(self) && r == Err::<
                u64,
                PlayerError,
            >(PlayerError::Closed),
            old(self).lifecycle.epoch == epoch && old(self).inner.status.state
                != PlayerState::Closed ==> {
                &&& r == Ok::<u64, PlayerError>(final(self).inner.status.playback_generation)
                &&& final(self).lifecycle.epoch == epoch
                &&& final(self).lifecycle.commands is Some
                &&& final(self).lifecycle.commands->0 == commands
                &&& final(self).inner.status == Self::opened_status(
                    old(self).inner.status,
                    *info,
                )
                &&& final(self).inner.media == Some(media)
                &&& final(self).inner.tracks@ == info.tracks@
                &&& final(self).inner.surface == old(self).inner.surface
                &&& final(self).inner.outbox == old(self).inner.outbox
                &&& final(self).inner.same_listeners(old(self).inner)
            },
    {
        if self.lifecycle.epoch != epoch {
            return Err(self.superseded_open_error());
        }
        if self.inner.status.state == PlayerState::Closed {
            return Err(PlayerError::Closed);
        }
        let generation: u64 = self.inner.status.playback_generation.saturating_add(1);
        self.inner.media = Some(media);
        self.inner.status.duration = info.duration;
        self.inner.status.playback_clock = PlaybackClock::paused_at(Duration::zero());
        self.inner.status.playback_generation = generation;
        self.inner.status.playback_command_sequence = 0;
        self.inner.status.ended = false;
        self.inner.tracks = duplicate_tracks(&info.tracks);
        self.inner.status.track_selection = info.track_selection();
        self.lifecycle.commands = Some(commands);
        Ok(generation)
    }

    /// What listeners are told of a medium that was opened: its length, its tracks, which of them
    /// are selected, its pictures, its decoders, and that the player is ready, in this order.
    pub open spec fn opening_told(
        events: Seq<PlayerEvent>,
        info: OpenedMediaInfo,
        decoders: Seq<VideoDecoderEvent>,
        before: PlayerState,
    ) -> bool {
        let params = if info.video_params is Some {
            1int
        } else {
            0
        };
        let states = if before != PlayerState::Ready {
            1int
        } else {
            0
        };
        &&& events.len() == 3 + params + decoders.len() + states
        &&& events[0] == PlayerEvent::DurationChanged(info.duration)
        &&& PlayerEvent::TracksChanged(info.tracks).same(events[1])
        &&& events[2] == PlayerEvent::TrackSelectionChanged(info.selection())
        &&& info.video_params is Some ==> events[3] == PlayerEvent::VideoParamsChanged(
            info.video_params->0,
        )
        &&& forall|i: int|
            #![trigger events[3 + params + i]]
            #![trigger decoders[i]]
            0 <= i < decoders.len() ==> events[3 + params + i]
                == PlayerEvent::VideoDecoderChanged(decoders[i])
        &&& states == 1 ==> events.last() == PlayerEvent::StateChanged(PlayerState::Ready)
    }

    /// Has the listeners told of the medium that was opened.
    pub fn announce_media(&mut self, info: &OpenedMediaInfo, decoder_events: Vec<VideoDecoderEvent>)
        ensures
            final(self).same_but_inner(*old(self)),
            final(self).inner.same_but_status(old(self).inner),
            final(self).inner.status == (crate::shared::PlayerStatus {
                state: PlayerState::Ready,
                ..old(self).inner.status
            }),
            final(self).inner.outbox@.len() >= old(self).inner.outbox@.len(),
            final(self).inner.outbox@.take(old(self).inner.outbox@.len() as int)
                == old(self).inner.outbox@,
            Self::opening_told(
                final(self).inner.outbox@.skip(old(self).inner.outbox@.len() as int),
                *info,
                decoder_events@,
                old(self).inner.status.state,
            ),
    {
        let ghost start = self.inner.outbox@;
        self.inner.emit(PlayerEvent::DurationChanged(info.duration));
        self.inner.emit(PlayerEvent::TracksChanged(duplicate_tracks(&info.tracks)));
        self.inner.emit(PlayerEvent::TrackSelectionChanged(info.track_selection()));
        if let Some(params) = info.video_params {
            self.inner.emit(PlayerEvent::VideoParamsChanged(params));
        }
        let ghost head = self.inner.outbox@;
        let mut i: usize = 0;
        while i < decoder_events.len()
            invariant
                i <= decoder_events@.len(),
                self.id == old(self).id,
                self.config == old(self).config,
                self.lifecycle == old(self).lifecycle,
                self.inner.same_but_status(old(self).inner),
                self.inner.status == old(self).inner.status,
                self.inner.outbox@.len() == head.len() + i,
                self.inner.outbox@.take(head.len() as int) == head,
                forall|j: int|
                    0 <= j < i ==> #[trigger] self.inner.outbox@[head.len() + j]
                        == PlayerEvent::VideoDecoderChanged(decoder_events@[j]),
            decreases decoder_events@.len() - i,
        {
            let ghost before = self.inner.outbox@;
            self.inner.emit(PlayerEvent::VideoDecoderChanged(decoder_events[i].duplicate()));
            assert(self.inner.outbox@.take(head.len() as int) =~= before.take(head.len() as int));
            i = i + 1;
        }
        let ghost listed = self.inner.outbox@;
        self.inner.set_state(PlayerState::Ready);
        proof {
            let all = self.inner.outbox@;
            let told = all.skip(start.len() as int);
            assert(all.take(listed.len() as int) =~= listed);
            assert forall|k: int| 0 <= k < head.len() implies all[k] == head[k] by {
                assert(all.take(listed.len() as int)[k] == listed[k]);
                assert(listed.take(head.len() as int)[k] == head[k]);
            }
            assert(all.take(start.len() as int) =~= start);
            let params = if info.video_params is Some {
                1int
            } else {
                0
            };
            assert(head.len() == start.len() + 3 + params);
            assert forall|j: int| 0 <= j < decoder_events@.len() implies #[trigger] told[3 + params
                + j] == PlayerEvent::VideoDecoderChanged(decoder_events@[j]) by {
                assert(listed[head.len() + j] == PlayerEvent::VideoDecoderChanged(
                    decoder_events@[j],
                ));
                assert(all.take(listed.len() as int)[head.len() + j] == listed[head.len() + j]);
            }
        }
    }

    /// Begins to close: the worker is let go. It has ended before [`Player::finish_close`] is called.
    pub fn begin_close(&mut self)
        ensures
            final(self).retired(*old(self)),
    {
        self.lifecycle.epoch = self.lifecycle.epoch.saturating_add(1);
        self.lifecycle.commands = None;
    }

    /// The status of a player that was closed.
    pub open spec fn closed_status(before: crate::shared::PlayerStatus) -> crate::shared::PlayerStatus {
        crate::shared::PlayerStatus {
            state: PlayerState::Closed,
            track_selection: TrackSelection { video: None, audio: None, subtitle: None },
            duration: None,
            playback_clock: PlaybackClock::fresh(Duration { nanos: 0 }),
            playback_generation: crate::demux::next_generation(before.playback_generation),
            ended: false,
            ..before
        }
    }

    pub fn finish_close(&mut self)
        ensures
            final(self).same_but_inner(*old(self)),
            final(self).inner.status == Self::closed_status(old(self).inner.status),
            final(self).inner.media is None,
            final(self).inner.tracks@.len() == 0,
            final(self).inner.surface == old(self).inner.surface,
            final(self).inner.video_frame_sender == old(self).inner.video_frame_sender,
            final(self).inner.audio_frame_sender == old(self).inner.audio_frame_sender,
            final(self).inner.subtitle_frame_sender == old(self).inner.subtitle_frame_sender,
            final(self).inner.outbox@.len() == 0,
            final(self).inner.told_listeners(
                old(self).inner,
                old(self).inner.outbox@ + old(self).inner.status.state_events(PlayerState::Closed),
            ),
    {
        self.inner.media = None;
        self.inner.tracks.clear();
        self.inner.status.track_selection = TrackSelection {
            video: None,
            audio: None,
            subtitle: None,
        };
        self.inner.status.duration = None;
        self.inner.status.playback_clock = PlaybackClock::paused_at(Duration::zero());
        self.inner.status.playback_generation = self.inner.status.playback_generation.saturating_add(
            1,
        );
        self.inner.status.ended = false;
        self.inner.set_state(PlayerState::Closed);
        self.inner.deliver();
    }

    pub fn attach_surface(&mut self, surface: PlatformSurface) -> (r: Result<(), PlayerError>)
        ensures
            final(self).same_but_inner(*old(self)),
            final(self).surface_changed(
                *old(self),
                Some(surface),
                PlayerEvent::SurfaceAttached(surface),
                r,
            ),
    {
        if let Err(error) = self.ensure_not_closed() {
            return Err(error);
        }
        self.inner.surface = Some(surface.duplicate());
        self.inner.emit(PlayerEvent::SurfaceAttached(surface));
        self.inner.deliver();
        Ok(())
    }

    pub fn detach_surface(&mut self) -> (r: Result<(), PlayerError>)
        ensures
            final(self).same_but_inner(*old(self)),
            final(self).surface_changed(*old(self), None, PlayerEvent::SurfaceDetached, r),
    {
        if let Err(error) = self.ensure_not_closed() {
            return Err(error);
        }
        self.inner.surface = None;
        self.inner.emit(PlayerEvent::SurfaceDetached);
        self.inner.deliver();
        Ok(())
    }

    /// Whether the surface became another one, and the listeners were told so; a closed player keeps
    /// what it has.
    pub open spec fn surface_changed(
        self,
        before: Player,
        surface: Option<PlatformSurface>,
        event: PlayerEvent,
        r: Result<(), PlayerError>,
    ) -> bool {
        if before.inner.status.state == PlayerState::Closed {
            self == before && r == Err::<(), PlayerError>(PlayerError::Closed)
        } else {
            &&& r is Ok
            &&& self.inner.surface == surface
            &&& self.inner.status == before.inner.status
            &&& self.inner.media == before.inner.media
            &&& self.inner.tracks == before.inner.tracks
            &&& self.inner.video_frame_sender == before.inner.video_frame_sender
            &&& self.inner.audio_frame_sender == before.inner.audio_frame_sender
            &&& self.inner.subtitle_frame_sender == before.inner.subtitle_frame_sender
            &&& self.inner.outbox@.len() == 0
            &&& self.inner.told_listeners(before.inner, before.inner.outbox@ + seq![event])
        }
    }

    /// Has the listeners told of the audio output.
    pub fn report_audio_output_event(&mut self, event: AudioOutputEvent)
        ensures
            final(self).same_but_inner(*old(self)),
            final(self).inner.status == old(self).inner.status,
            final(self).inner.told_after(
                old(self).inner,
                seq![PlayerEvent::AudioOutputChanged(event)],
            ),
    {
        self.inner.emit(PlayerEvent::AudioOutputChanged(event));
        self.inner.deliver();
    }
}

/// Gives a command to the worker. Whether it is there depends on other threads.
pub fn send_command(commands: &mut Outlet<PlaybackCommand>, command: PlaybackCommand) -> (r: Result<
    (),
    PlayerError,
>)
    ensures
        final(commands).gave(*old(commands), command),
        r is Ok <==> final(commands).fate() == Fate::Taken,
        r is Err ==> worker_gone(r),
{
    if commands.give(command) {
        Ok(())
    } else {
        Err(worker_is_not_running())
    }
}

/// Reads whether the worker was told where the audio output stands.
pub fn audio_clock_offered(offer: Offer<PlaybackCommand>) -> (r: Result<(), PlayerError>)
    ensures
        offer is Disconnected ==> worker_gone(r),
        !(offer is Disconnected) ==> r is Ok,
{
    match offer {
        Offer::Sent => Ok(()),
        Offer::Full(_) => Ok(()),
        Offer::Disconnected(_) => Err(worker_is_not_running()),
    }
}

impl PlayerInner {
    /// Whether the listeners were told what was to be told and `events` behind it, and nothing
    /// changed besides but the status.
    pub open spec fn told_after(self, before: PlayerInner, events: Seq<PlayerEvent>) -> bool {
        &&& self.media == before.media
        &&& self.surface == before.surface
        &&& self.tracks == before.tracks
        &&& self.video_frame_sender == before.video_frame_sender
        &&& self.audio_frame_sender == before.audio_frame_sender
        &&& self.subtitle_frame_sender == before.subtitle_frame_sender
        &&& self.told_listeners(before, before.outbox@ + events)
        &&& self.outbox@.len() == 0
    }
}

/// A command that could not be sent leaves no trace: clock, timeline and end are what they were
/// before it was tried. One that was sent is made known; one that was overtaken changes nothing.
pub proof fn law_an_unsent_command_leaves_no_trace(
    after: PlayerInner,
    before: PlayerInner,
    started: crate::shared::PlayerStatus,
    relocation: Relocation,
    state: Option<PlayerState>,
    sent: bool,
    reading: ClockReading,
)
    requires
        after.relocation_ended(before, relocation, state, sent, reading),
        relocation.previous_clock == started.playback_clock,
        relocation.previous_generation == started.playback_generation,
        relocation.previous_ended == started.ended,
        before.status == started.relocated(relocation.position),
    ensures
        before.status.playback_command_sequence != relocation.sequence ==> after == before,
        before.status.playback_command_sequence == relocation.sequence && !sent ==> {
            &&& after.status.playback_clock == started.playback_clock
            &&& after.status.playback_generation == started.playback_generation
            &&& after.status.ended == started.ended
            &&& after.status.state == started.state
            &&& after.outbox@ == before.outbox@
        },
        before.status.playback_command_sequence == relocation.sequence && sent ==> {
            &&& after.status.playback_clock.base_media_time == relocation.position
            &&& after.status.playback_clock.anchor is None
            &&& after.status.playback_generation == before.status.playback_generation
            &&& state is Some ==> after.status.state == state->0
            &&& state is None ==> after.status.state == started.state
            &&& after.outbox@.len() > before.outbox@.len()
            &&& after.outbox@[before.outbox@.len() as int] == PlayerEvent::PositionChanged(
                relocation.position,
            )
        },
{
    assert(before.outbox@ + Seq::<PlayerEvent>::empty() =~= before.outbox@);
}

/// A medium that was opened stands at its start on a new timeline, with its own length and tracks,
/// and no command of the one before reaches it.
pub proof fn law_an_opened_medium_stands_at_its_start(
    before: crate::shared::PlayerStatus,
    info: OpenedMediaInfo,
    reading: ClockReading,
)
    requires
        before.playback_generation < u64::MAX,
    ensures
        ({
            let after = Player::opened_status(before, info);
            &&& after.playback_clock.shows(reading).nanos == 0
            &&& after.playback_clock.anchor is None
            &&& after.playback_generation == before.playback_generation + 1
            &&& after.playback_command_sequence == 0
            &&& !after.ended
            &&& after.duration == info.duration
            &&& after.track_selection.video == info.selected_video_track
            &&& after.track_selection.audio == info.selected_audio_track
            &&& after.track_selection.subtitle == info.selected_subtitle_track
            &&& after.state == before.state
        }),
{
}

/// A closed player has nothing open and selects nothing, and what its worker still says is of an old
/// timeline.
pub proof fn law_a_closed_player_holds_nothing(
    before: crate::shared::PlayerStatus,
    reading: ClockReading,
)
    requires
        before.playback_generation < u64::MAX,
    ensures
        ({
            let after = Player::closed_status(before);
            &&& after.state == PlayerState::Closed
            &&& after.duration is None
            &&& after.track_selection.video is None && after.track_selection.audio is None
                && after.track_selection.subtitle is None
            &&& after.playback_clock.shows(reading).nanos == 0
            &&& after.playback_generation == before.playback_generation + 1
            &&& !after.ended
        }),
{
}

/// Playback is started from a player that is ready, paused or stopped, and from no other.
pub proof fn law_playback_starts_from_rest(state: PlayerState)
    ensures
        PlayerInner::starts_from(PlayerState::Ready),
        PlayerInner::starts_from(PlayerState::Paused),
        PlayerInner::starts_from(PlayerState::Stopped),
        !PlayerInner::starts_from(PlayerState::Idle),
        !PlayerInner::starts_from(PlayerState::Playing),
        !PlayerInner::starts_from(PlayerState::Error),
        !PlayerInner::starts_from(PlayerState::Closed),
{
}

/// A queue holds as many messages as were asked for, and at least one.
pub proof fn law_a_queue_has_room_for_one(wanted: usize)
    ensures
        queue_room(wanted) >= 1,
        wanted > 0 ==> queue_room(wanted) == wanted,
{
}

/// The listeners hear the length of a medium that was opened first, and last that the player is
/// ready, where it was not.
pub proof fn law_an_opening_is_told_in_order(
    events: Seq<PlayerEvent>,
    info: OpenedMediaInfo,
    decoders: Seq<VideoDecoderEvent>,
    before: PlayerState,
    i: int,
)
    requires
        Player::opening_told(events, info, decoders, before),
    ensures
        events.len() >= 3,
        events[0] == PlayerEvent::DurationChanged(info.duration),
        events[1] is TracksChanged && events[1]->TracksChanged_0@ == info.tracks@,
        events[2] is TrackSelectionChanged && events[2]->TrackSelectionChanged_0.video
            == info.selected_video_track && events[2]->TrackSelectionChanged_0.audio
            == info.selected_audio_track && events[2]->TrackSelectionChanged_0.subtitle
            == info.selected_subtitle_track,
        before != PlayerState::Ready ==> events.last() == PlayerEvent::StateChanged(
            PlayerState::Ready,
        ),
        info.video_params is Some ==> events[3] == PlayerEvent::VideoParamsChanged(
            info.video_params->0,
        ),
        info.video_params is None && 0 <= i < decoders.len() ==> events[3 + i]
            == PlayerEvent::VideoDecoderChanged(decoders[i]),
        info.video_params is Some && 0 <= i < decoders.len() ==> events[4 + i]
            == PlayerEvent::VideoDecoderChanged(decoders[i]),
{
    let params = if info.video_params is Some { 1int } else { 0 };
    if 0 <= i < decoders.len() {
        assert(events[3 + params + i] == PlayerEvent::VideoDecoderChanged(decoders[i]));
    }
}

/// A closed player and one without a medium refuse every command, each with its own reason, and
/// nothing changes; another gives the command to its worker once.
pub proof fn law_a_command_is_refused_or_given_once(
    after: Player,
    before: Player,
    command: PlaybackCommand,
    r: Result<(), PlayerError>,
)
    requires
        after.told_worker(before, command, r),
    ensures
        before.inner.status.state == PlayerState::Closed ==> after == before && r == Err::<
            (),
            PlayerError,
        >(PlayerError::Closed),
        before.inner.status.state != PlayerState::Closed && before.lifecycle.commands is None
            ==> after == before && r is Err && r->Err_0 is Playback,
        before.inner.status.state != PlayerState::Closed && before.lifecycle.commands is Some ==> {
            let outlet = after.lifecycle.commands->0;
            &&& after.lifecycle.commands is Some
            &&& outlet.given().len() == before.lifecycle.commands->0.given().len() + 1
            &&& outlet.given().last() == command
            &&& after.inner == before.inner
            &&& r is Ok <==> outlet.fate() == Fate::Taken
            &&& r is Err ==> r->Err_0 is Playback
        },
{
}

/// Another surface is the player's from then on, and the listeners are told of it last; a closed
/// player keeps what it has.
pub proof fn law_another_surface_is_told(
    after: Player,
    before: Player,
    surface: Option<PlatformSurface>,
    event: PlayerEvent,
    r: Result<(), PlayerError>,
)
    requires
        after.surface_changed(before, surface, event, r),
    ensures
        before.inner.status.state == PlayerState::Closed ==> after == before && r == Err::<
            (),
            PlayerError,
        >(PlayerError::Closed),
        before.inner.status.state != PlayerState::Closed ==> r is Ok && after.inner.surface
            == surface && after.inner.status == before.inner.status && after.inner.media
            == before.inner.media && after.inner.tracks == before.inner.tracks
            && after.inner.outbox@.len() == 0,
{
}

/// A player that opens another medium or closes lets its worker go, in a new epoch.
pub proof fn law_a_worker_belongs_to_its_epoch(after: Player, before: Player)
    requires
        after.retired(before),
        before.lifecycle.epoch < u64::MAX,
    ensures
        after.lifecycle.commands is None,
        after.lifecycle.epoch == before.lifecycle.epoch + 1,
        after.inner == before.inner,
        after.id == before.id,
        after.config == before.config,
{
}

/// The answer to a question arrives where it is waited for, and there is room for it.
pub proof fn law_an_answer_has_room<T>(reply: Outlet<T>, response: Receiver<T>)
    requires
        answers_at(reply, response),
    ensures
        reply.reader() == response,
        reply.given().len() == 0,
        reply.room() == Some(1nat),
{
}

/// A command that started a new timeline and was sent leaves nothing untold, and one that was not
/// sent tells nobody.
pub proof fn law_a_sent_move_is_told(
    after: Player,
    before: Player,
    relocation: Relocation,
    state: Option<PlayerState>,
    sent: bool,
    reading: ClockReading,
)
    requires
        after.relocation_told(before, relocation, state, sent, reading),
    ensures
        after.lifecycle == before.lifecycle,
        after.id == before.id,
        sent ==> after.inner.outbox@.len() == 0,
        before.inner.status.playback_command_sequence == relocation.sequence && sent
            ==> after.inner.status.playback_clock.base_media_time == relocation.position && (state
            is Some ==> after.inner.status.state == state->0),
        before.inner.status.playback_command_sequence == relocation.sequence && !sent
            ==> after.inner.status.playback_clock == relocation.previous_clock
            && after.inner.status.playback_generation == relocation.previous_generation
            && after.inner.status.ended == relocation.previous_ended,
        before.inner.status.playback_command_sequence != relocation.sequence
            ==> after.inner.status == before.inner.status,
{
}

/// A configuration can be met where none of its queues is longer than a channel can be.
pub proof fn law_a_configuration_can_be_met(config: PlayerConfig)
    requires
        config.event_channel_capacity <= 65_535,
        config.video_frame_queue_capacity <= 65_535,
        config.audio_frame_queue_capacity <= 65_535,
        config.subtitle_frame_queue_capacity <= 65_535,
    ensures
        config.fits(),
{
}

/// A player takes commands exactly while it is open and has a worker; what it is given goes to that
/// worker, of the same epoch.
pub proof fn law_when_a_player_takes_commands(
    after: Player,
    before: Player,
    command: PlaybackCommand,
)
    ensures
        before.commandable() <==> (before.inner.status.state != PlayerState::Closed
            && before.lifecycle.commands is Some),
        after.commanded(before, command) ==> after.lifecycle.epoch == before.lifecycle.epoch
            && after.id == before.id && after.config == before.config
            && after.lifecycle.commands is Some && after.lifecycle.commands->0.reader()
            == before.lifecycle.commands->0.reader(),
        after.same_but_inner(before) ==> after.lifecycle == before.lifecycle && after.id == before.id
            && after.config == before.config,
{
}

/// Telling events leaves the medium, its tracks, the surface and the receivers of frames alone, and
/// nothing untold.
pub proof fn law_telling_events_leaves_the_rest_alone(
    after: PlayerInner,
    before: PlayerInner,
    events: Seq<PlayerEvent>,
)
    requires
        after.told_after(before, events),
    ensures
        after.media == before.media,
        after.surface == before.surface,
        after.tracks == before.tracks,
        after.video_frame_sender == before.video_frame_sender,
        after.audio_frame_sender == before.audio_frame_sender,
        after.subtitle_frame_sender == before.subtitle_frame_sender,
        after.outbox@.len() == 0,
        after.subscribers@.len() <= before.subscribers@.len(),
{
}

} // verus!
