//! What a player and its playback worker share: the state that callers see, and those who listen.
use crate::channel::{Fate, Offer, Outlet};
use crate::clock::{ClockReading, PlaybackClock};
use crate::decoder::DecoderBackend;
use crate::events::PlayerEvent;
use crate::frame::Frame;
use crate::media::{
    duplicate_tracks, MediaRequest, PlayerError, PlayerState, TrackInfo, TrackSelection,
};
use crate::pcm::PcmAudioFrame;
use crate::subtitle::DecodedSubtitleFrame;
use crate::surface::PlatformSurface;
use crate::text::same_text;
use crate::time::Duration;
use vstd::prelude::*;

verus! {

/// A picture that the player hands out.
#[derive(Clone, Debug, PartialEq, Eq)]
pub struct PlayerVideoFrame {
    pub frame: Frame,
    pub decode_backend: DecoderBackend,
    pub pts: Option<Duration>,
    pub media_time: Duration,
    pub late_by: Option<Duration>,
    pub generation: u64,
}

impl PlayerVideoFrame {
    pub fn from_decoded(
        frame: Frame,
        decode_backend: DecoderBackend,
        pts: Option<Duration>,
        media_time: Duration,
        late_by: Option<Duration>,
        generation: u64,
    ) -> (r: Self)
        ensures
            r == (PlayerVideoFrame { frame, decode_backend, pts, media_time, late_by, generation }),
    {
        PlayerVideoFrame { frame, decode_backend, pts, media_time, late_by, generation }
    }
}

/// A run of audio that the player hands out.
#[derive(Clone, Debug, PartialEq, Eq)]
pub struct PlayerAudioFrame {
    pub frame: PcmAudioFrame,
    pub generation: u64,
}

/// A subtitle that the player hands out.
#[derive(Clone, Debug, PartialEq, Eq)]
pub struct PlayerSubtitleFrame {
    pub frame: DecodedSubtitleFrame,
    pub pts: Option<Duration>,
    pub media_time: Duration,
    pub late_by: Option<Duration>,
    pub generation: u64,
}

/// What callers see of playback.
#[derive(Clone, Copy, Debug, PartialEq, Eq, Structural)]
pub struct PlayerStatus {
    pub state: PlayerState,
    /// Whether playback came to its natural end.
    pub ended: bool,
    pub duration: Option<Duration>,
    pub playback_clock: PlaybackClock,
    /// The number of the timeline; a seek, a stop or another track starts a new one.
    pub playback_generation: u64,
    /// The number of the last command that was given.
    pub playback_command_sequence: u64,
    pub track_selection: TrackSelection,
    pub subtitle_frame_backpressure_drops: u64,
}

/// A view of the playback clock, with the timeline and the state that belong to it.
#[derive(Clone, Copy, Debug, PartialEq, Eq, Structural)]
pub struct PlaybackSnapshot {
    pub clock: PlaybackClock,
    pub generation: u64,
    pub state: PlayerState,
}

impl PlaybackSnapshot {
    pub fn media_time_at(&self, reading: ClockReading) -> (r: Duration)
        ensures
            r == self.clock.shows(reading),
    {
        self.clock.media_time_at(reading)
    }

    pub fn is_playing(&self) -> (r: bool)
        ensures
            r == (self.state == PlayerState::Playing),
    {
        self.state == PlayerState::Playing
    }
}

/// A generation as it counts: there is none before the first.
pub open spec fn counted_generation(generation: u64) -> u64 {
    if generation == 0 { 1 } else { generation }
}

/// The later of two generations.
pub open spec fn later_generation(a: u64, b: u64) -> u64 {
    if a >= b { a } else { b }
}

pub(crate) fn count_generation(generation: u64) -> (r: u64)
    ensures
        r == counted_generation(generation),
{
    if generation == 0 {
        1
    } else {
        generation
    }
}

pub(crate) fn later_of(a: u64, b: u64) -> (r: u64)
    ensures
        r == later_generation(a, b),
{
    if a >= b {
        a
    } else {
        b
    }
}

/// Whether the worker's clock belongs to a timeline that has been left already.
pub fn worker_clock_generation_is_stale(shared_generation: u64, worker_generation: u64) -> (r: bool)
    ensures
        r == (counted_generation(shared_generation) > counted_generation(worker_generation)),
{
    count_generation(shared_generation) > count_generation(worker_generation)
}

/// Whether what the worker says is of a timeline that has been left already.
pub fn worker_generation_is_stale(worker_generation: u64, shared_generation: u64) -> (r: bool)
    ensures
        r == (counted_generation(worker_generation) < counted_generation(shared_generation)),
{
    count_generation(worker_generation) < count_generation(shared_generation)
}

/// Whether what the renderer says of a picture is of the timeline that everybody is on.
pub fn video_import_feedback_is_current(
    failure_generation: u64,
    worker_generation: u64,
    shared_generation: u64,
) -> (r: bool)
    ensures
        r == (failure_generation == worker_generation && failure_generation == shared_generation),
{
    failure_generation == worker_generation && failure_generation == shared_generation
}

/// Whether a command is executed. One that was given earlier than one already executed is not.
pub fn begin_playback_command_execution(sequence: u64, last_executed_sequence: &mut u64) -> (r: bool)
    ensures
        r == (sequence > *old(last_executed_sequence)),
        *final(last_executed_sequence) == (if r {
            sequence
        } else {
            *old(last_executed_sequence)
        }),
{
    if sequence <= *last_executed_sequence {
        return false;
    }
    *last_executed_sequence = sequence;
    true
}

impl PlayerStatus {
    /// A player that has opened nothing yet.
    pub open spec fn fresh() -> PlayerStatus {
        PlayerStatus {
            state: PlayerState::Idle,
            ended: false,
            duration: None,
            playback_clock: PlaybackClock::fresh(Duration { nanos: 0 }),
            playback_generation: 1,
            playback_command_sequence: 0,
            track_selection: TrackSelection { video: None, audio: None, subtitle: None },
            subtitle_frame_backpressure_drops: 0,
        }
    }

    pub fn new() -> (r: Self)
        ensures
            r == Self::fresh(),
    {
        PlayerStatus {
            state: PlayerState::Idle,
            ended: false,
            duration: None,
            playback_clock: PlaybackClock::paused_at(Duration::zero()),
            playback_generation: 1,
            playback_command_sequence: 0,
            track_selection: TrackSelection { video: None, audio: None, subtitle: None },
            subtitle_frame_backpressure_drops: 0,
        }
    }

    /// The status with one more command given.
    pub open spec fn numbered(self) -> PlayerStatus {
        PlayerStatus {
            playback_command_sequence: crate::demux::next_generation(
                self.playback_command_sequence,
            ),
            ..self
        }
    }

    /// The status with a command given that starts a new timeline, parked at a position.
    pub open spec fn relocated(self, position: Duration) -> PlayerStatus {
        PlayerStatus {
            playback_clock: PlaybackClock::fresh(position),
            playback_generation: crate::demux::next_generation(self.playback_generation),
            ended: false,
            ..self.numbered()
        }
    }

    /// The status with the outcome of a command: the timeline never goes back, a position parks the
    /// clock, and a paused player has a parked clock.
    pub open spec fn committed(
        self,
        playback_generation: Option<u64>,
        position: Option<Duration>,
        state: Option<PlayerState>,
        reading: ClockReading,
    ) -> PlayerStatus {
        let clock = match position {
            Some(position) => PlaybackClock::fresh(position),
            None => self.playback_clock,
        };
        PlayerStatus {
            playback_generation: match playback_generation {
                Some(generation) => later_generation(
                    self.playback_generation,
                    counted_generation(generation),
                ),
                None => self.playback_generation,
            },
            ended: false,
            playback_clock: if state == Some(PlayerState::Paused) {
                clock.paused(reading)
            } else {
                clock
            },
            state: match state {
                Some(state) => state,
                None => self.state,
            },
            ..self
        }
    }

    /// What listeners are told of the outcome of a command: the position first, then a new state.
    pub open spec fn commit_events(self, position: Option<Duration>, state: Option<PlayerState>) -> Seq<
        PlayerEvent,
    > {
        let moved = match position {
            Some(position) => seq![PlayerEvent::PositionChanged(position)],
            None => Seq::<PlayerEvent>::empty(),
        };
        match state {
            Some(state) => moved + self.state_events(state),
            None => moved,
        }
    }

    /// What listeners are told of a state: nothing where it is the same.
    pub open spec fn state_events(self, next: PlayerState) -> Seq<PlayerEvent> {
        if self.state == next {
            Seq::<PlayerEvent>::empty()
        } else {
            seq![PlayerEvent::StateChanged(next)]
        }
    }

    /// The status at the natural end of playback.
    pub open spec fn finished(self, position: Duration) -> PlayerStatus {
        PlayerStatus {
            playback_clock: PlaybackClock::fresh(position),
            ended: true,
            state: PlayerState::Stopped,
            ..self
        }
    }

    pub fn snapshot(&self) -> (r: PlaybackSnapshot)
        ensures
            r == (PlaybackSnapshot {
                clock: self.playback_clock,
                generation: counted_generation(self.playback_generation),
                state: self.state,
            }),
    {
        PlaybackSnapshot {
            clock: self.playback_clock,
            generation: count_generation(self.playback_generation),
            state: self.state,
        }
    }

    pub fn shared_playback_generation(&self) -> (r: u64)
        ensures
            r == counted_generation(self.playback_generation),
    {
        count_generation(self.playback_generation)
    }

    pub fn playback_command_sequence_is_current(&self, sequence: u64) -> (r: bool)
        ensures
            r == (self.playback_command_sequence == sequence),
    {
        self.playback_command_sequence == sequence
    }

    pub(crate) fn give_number(&mut self) -> (r: u64)
        ensures
            *final(self) == old(self).numbered(),
            r == final(self).playback_command_sequence,
    {
        self.playback_command_sequence = self.playback_command_sequence.saturating_add(1);
        self.playback_command_sequence
    }
}

impl PlayerEvent {
    /// Whether two events say the same.
    pub open spec fn same(self, other: PlayerEvent) -> bool {
        match self {
            PlayerEvent::TracksChanged(tracks) => other is TracksChanged && other->TracksChanged_0@
                == tracks@,
            _ => self == other,
        }
    }

    pub fn duplicate(&self) -> (r: Self)
        ensures
            self.same(r),
    {
        match self {
            PlayerEvent::StateChanged(state) => PlayerEvent::StateChanged(*state),
            PlayerEvent::DurationChanged(duration) => PlayerEvent::DurationChanged(*duration),
            PlayerEvent::PositionChanged(position) => PlayerEvent::PositionChanged(*position),
            PlayerEvent::TracksChanged(tracks) => PlayerEvent::TracksChanged(
                duplicate_tracks(tracks),
            ),
            PlayerEvent::TrackSelectionChanged(selection) => PlayerEvent::TrackSelectionChanged(
                *selection,
            ),
            PlayerEvent::BufferingChanged(buffering) => PlayerEvent::BufferingChanged(*buffering),
            PlayerEvent::VideoParamsChanged(params) => PlayerEvent::VideoParamsChanged(*params),
            PlayerEvent::VideoDecoderChanged(event) => PlayerEvent::VideoDecoderChanged(
                event.duplicate(),
            ),
            PlayerEvent::AudioOutputChanged(event) => PlayerEvent::AudioOutputChanged(
                event.duplicate(),
            ),
            PlayerEvent::SurfaceAttached(surface) => PlayerEvent::SurfaceAttached(
                surface.duplicate(),
            ),
            PlayerEvent::SurfaceDetached => PlayerEvent::SurfaceDetached,
            PlayerEvent::Error(error) => PlayerEvent::Error(error.duplicate()),
        }
    }
}

impl PlayerError {
    pub fn duplicate(&self) -> (r: Self)
        ensures
            r == *self,
    {
        match self {
            PlayerError::Closed => PlayerError::Closed,
            PlayerError::InvalidStateTransition { from, to } => PlayerError::InvalidStateTransition {
                from: *from,
                to: *to,
            },
            PlayerError::Renderer(reason) => PlayerError::Renderer(reason.clone()),
            PlayerError::RendererBackpressure(reason) => PlayerError::RendererBackpressure(
                reason.clone(),
            ),
            PlayerError::Source(reason) => PlayerError::Source(reason.clone()),
            PlayerError::Playback(reason) => PlayerError::Playback(reason.clone()),
        }
    }
}

/// Whether two optional texts read the same.
pub open spec fn same_reading(a: Option<String>, b: Option<String>) -> bool {
    match (a, b) {
        (Some(a), Some(b)) => a@ == b@,
        (None, None) => true,
        _ => false,
    }
}

fn reads_same(a: &Option<String>, b: &Option<String>) -> (r: bool)
    ensures
        r == same_reading(*a, *b),
{
    match (a, b) {
        (Some(a), Some(b)) => same_text(a.as_str(), b.as_str()),
        (None, None) => true,
        _ => false,
    }
}

/// Whether two tracks are described alike.
pub open spec fn described_alike(a: TrackInfo, b: TrackInfo) -> bool {
    &&& a.id == b.id
    &&& a.kind == b.kind
    &&& same_reading(a.title, b.title)
    &&& same_reading(a.language, b.language)
    &&& same_reading(a.codec, b.codec)
    &&& a.width == b.width
    &&& a.height == b.height
    &&& a.sample_rate == b.sample_rate
    &&& a.channels == b.channels
    &&& same_reading(a.pixel_format, b.pixel_format)
    &&& same_reading(a.sample_format, b.sample_format)
    &&& same_reading(a.profile, b.profile)
    &&& a.level == b.level
    &&& a.bit_rate == b.bit_rate
    &&& a.frame_rate == b.frame_rate
    &&& a.selected == b.selected
    &&& a.source == b.source
    &&& a.can_remove == b.can_remove
}

/// Whether two lists describe the same tracks.
pub open spec fn same_tracks(a: Seq<TrackInfo>, b: Seq<TrackInfo>) -> bool {
    a.len() == b.len() && forall|i: int| 0 <= i < a.len() ==> described_alike(#[trigger] a[i], b[i])
}

fn tracks_match(a: &Vec<TrackInfo>, b: &Vec<TrackInfo>) -> (r: bool)
    ensures
        r == same_tracks(a@, b@),
{
    if a.len() != b.len() {
        return false;
    }
    let mut i: usize = 0;
    while i < a.len()
        invariant
            i <= a@.len(),
            a@.len() == b@.len(),
            forall|j: int| 0 <= j < i ==> described_alike(#[trigger] a@[j], b@[j]),
        decreases a@.len() - i,
    {
        let (x, y) = (&a[i], &b[i]);
        let alike = x.id == y.id && x.kind == y.kind && reads_same(&x.title, &y.title)
            && reads_same(&x.language, &y.language) && reads_same(&x.codec, &y.codec) && x.width
            == y.width && x.height == y.height && x.sample_rate == y.sample_rate && x.channels
            == y.channels && reads_same(&x.pixel_format, &y.pixel_format) && reads_same(
            &x.sample_format,
            &y.sample_format,
        ) && reads_same(&x.profile, &y.profile) && x.level == y.level && x.bit_rate == y.bit_rate
            && x.frame_rate == y.frame_rate && x.selected == y.selected && x.source == y.source
            && x.can_remove == y.can_remove;
        assert(alike == described_alike(a@[i as int], b@[i as int]));
        if !alike {
            return false;
        }
        i = i + 1;
    }
    true
}

/// Those of the listeners that still receive.
pub open spec fn still_there<T>(listeners: Seq<T>, received: Seq<bool>) -> Seq<T>
    decreases listeners.len(),
{
    if listeners.len() == 0 {
        Seq::<T>::empty()
    } else {
        let before = still_there(listeners.drop_last(), received.drop_last());
        if received.last() {
            before.push(listeners.last())
        } else {
            before
        }
    }
}

/// Whether a listener was told of events, in order, behind what it was told before, and took every
/// one.
pub open spec fn heard(
    after: Outlet<PlayerEvent>,
    before: Outlet<PlayerEvent>,
    events: Seq<PlayerEvent>,
) -> bool {
    let had = before.given().len() as int;
    &&& after.same_channel(before)
    &&& after.given().len() == had + events.len()
    &&& forall|i: int| 0 <= i < had ==> #[trigger] after.given()[i] == before.given()[i]
    &&& forall|i: int|
        0 <= i < events.len() ==> (#[trigger] events[i]).same(after.given()[had + i])
    &&& after.fates() == before.fates() + all_taken(events.len())
}

/// What became of a run of messages that were all taken.
pub open spec fn all_taken(n: nat) -> Seq<Fate> {
    Seq::new(n, |i: int| Fate::Taken)
}

/// Whether the listeners `after` are those that stood at `places` before, and were told of events.
pub open spec fn kept_at(
    after: Seq<Outlet<PlayerEvent>>,
    before: Seq<Outlet<PlayerEvent>>,
    events: Seq<PlayerEvent>,
    places: Seq<int>,
) -> bool {
    &&& places.len() == after.len()
    &&& forall|i: int, j: int|
        0 <= i < j < places.len() ==> #[trigger] places[i] < #[trigger] places[j]
    &&& forall|i: int|
        0 <= i < after.len() ==> 0 <= #[trigger] places[i] < before.len() && heard(
            after[i],
            before[places[i]],
            events,
        )
}

/// Whether a listener was told of events, in order, until there was one that it did not take.
pub open spec fn lost(
    after: Outlet<PlayerEvent>,
    before: Outlet<PlayerEvent>,
    events: Seq<PlayerEvent>,
) -> bool {
    let had = before.given().len() as int;
    let told = after.given().len() - had;
    &&& after.same_channel(before)
    &&& 0 < told <= events.len()
    &&& forall|i: int| 0 <= i < had ==> #[trigger] after.given()[i] == before.given()[i]
    &&& forall|i: int| 0 <= i < told ==> (#[trigger] events[i]).same(after.given()[had + i])
    &&& after.fates() == before.fates() + all_taken((told - 1) as nat).push(Fate::Lost)
}

/// Whether the listeners that stood at `exits` before were let go, since they were told of events
/// and did not take them all.
pub open spec fn left_at(
    gone_after: Seq<Outlet<PlayerEvent>>,
    gone_before: Seq<Outlet<PlayerEvent>>,
    before: Seq<Outlet<PlayerEvent>>,
    events: Seq<PlayerEvent>,
    exits: Seq<int>,
) -> bool {
    &&& gone_after.len() == gone_before.len() + exits.len()
    &&& forall|i: int|
        0 <= i < gone_before.len() ==> #[trigger] gone_after[i] == gone_before[i]
    &&& forall|i: int|
        0 <= i < exits.len() ==> 0 <= #[trigger] exits[i] < before.len() && lost(
            gone_after[gone_before.len() + i],
            before[exits[i]],
            events,
        )
}

/// Whether every number below `total` stands in one of two lists, and in one only.
pub open spec fn parted(total: nat, places: Seq<int>, exits: Seq<int>) -> bool {
    &&& places.len() + exits.len() == total
    &&& forall|k: int|
        0 <= k < total ==> (#[trigger] places.contains(k) <==> !exits.contains(k))
}

/// Whether the listeners were told of events, and each either took them all, and stands where it
/// stood among the others, or was let go. Who receives depends on other threads.
pub open spec fn passed_on(
    after: Seq<Outlet<PlayerEvent>>,
    before: Seq<Outlet<PlayerEvent>>,
    gone_after: Seq<Outlet<PlayerEvent>>,
    gone_before: Seq<Outlet<PlayerEvent>>,
    events: Seq<PlayerEvent>,
) -> bool {
    exists|places: Seq<int>, exits: Seq<int>|
        #![trigger parted(before.len(), places, exits)]
        {
            &&& parted(before.len(), places, exits)
            &&& kept_at(after, before, events, places)
            &&& left_at(gone_after, gone_before, before, events, exits)
        }
}

/// The answers turned round.
pub open spec fn turned(received: Seq<bool>) -> Seq<bool> {
    Seq::new(received.len(), |i: int| !received[i])
}

/// The places of the listeners that still receive.
spec fn places_of(received: Seq<bool>) -> Seq<int>
    decreases received.len(),
{
    if received.len() == 0 {
        Seq::<int>::empty()
    } else if received.last() {
        places_of(received.drop_last()).push(received.len() - 1)
    } else {
        places_of(received.drop_last())
    }
}

/// The listeners that still receive stand where they stood among the others.
proof fn lemma_places(listeners: Seq<Outlet<PlayerEvent>>, received: Seq<bool>)
    requires
        listeners.len() == received.len(),
    ensures
        places_of(received).len() == still_there(listeners, received).len(),
        forall|i: int, j: int|
            0 <= i < j < places_of(received).len() ==> #[trigger] places_of(received)[i]
                < #[trigger] places_of(received)[j],
        forall|i: int|
            0 <= i < places_of(received).len() ==> 0 <= #[trigger] places_of(received)[i]
                < listeners.len() && received[places_of(received)[i]] && still_there(
                listeners,
                received,
            )[i] == listeners[places_of(received)[i]],
    decreases listeners.len(),
{
    if listeners.len() > 0 {
        lemma_places(listeners.drop_last(), received.drop_last());
    }
}

/// A place is kept if the listener received.
proof fn lemma_place_kept(received: Seq<bool>, k: int)
    requires
        0 <= k < received.len(),
        received[k],
    ensures
        places_of(received).contains(k),
    decreases received.len(),
{
    let places = places_of(received);
    if k == received.len() - 1 {
        assert(places.last() == k);
    } else {
        lemma_place_kept(received.drop_last(), k);
        let shorter = places_of(received.drop_last());
        let i = shorter.index_of(k);
        assert(places[i] == k);
    }
}

/// Every listener either receives or does not.
proof fn lemma_parted(listeners: Seq<Outlet<PlayerEvent>>, received: Seq<bool>)
    requires
        listeners.len() == received.len(),
    ensures
        parted(listeners.len(), places_of(received), places_of(turned(received))),
{
    let places = places_of(received);
    let exits = places_of(turned(received));
    lemma_places(listeners, received);
    lemma_places(listeners, turned(received));
    lemma_parted_lengths(received);
    assert forall|k: int| 0 <= k < listeners.len() implies (#[trigger] places.contains(k)
        <==> !exits.contains(k)) by {
        if received[k] {
            lemma_place_kept(received, k);
            if exits.contains(k) {
                let i = exits.index_of(k);
                assert(turned(received)[exits[i]]);
            }
        } else {
            lemma_place_kept(turned(received), k);
            if places.contains(k) {
                let i = places.index_of(k);
                assert(received[places[i]]);
            }
        }
    }
}

proof fn lemma_parted_lengths(received: Seq<bool>)
    ensures
        places_of(received).len() + places_of(turned(received)).len() == received.len(),
    decreases received.len(),
{
    if received.len() > 0 {
        lemma_parted_lengths(received.drop_last());
        assert(turned(received).drop_last() =~= turned(received.drop_last()));
    }
}

/// A listener that took the earlier events and was let go over a later one was let go over all.
proof fn lemma_lost_later(
    last: Outlet<PlayerEvent>,
    middle: Outlet<PlayerEvent>,
    first: Outlet<PlayerEvent>,
    earlier: Seq<PlayerEvent>,
    later: Seq<PlayerEvent>,
)
    requires
        heard(middle, first, earlier),
        lost(last, middle, later),
    ensures
        lost(last, first, earlier + later),
{
    let events = earlier + later;
    let had = first.given().len() as int;
    let been = middle.given().len() as int;
    let told = last.given().len() - had;
    assert forall|k: int| 0 <= k < had implies #[trigger] last.given()[k] == first.given()[k] by {
        assert(middle.given()[k] == first.given()[k]);
    }
    assert forall|k: int| 0 <= k < told implies (#[trigger] events[k]).same(
        last.given()[had + k],
    ) by {
        if k < earlier.len() {
            assert(events[k] == earlier[k]);
            assert(last.given()[had + k] == middle.given()[had + k]);
        } else {
            let n = k - earlier.len();
            assert(events[k] == later[n]);
            assert(later[n].same(last.given()[been + n]));
        }
    }
    assert(last.fates() =~= first.fates() + all_taken((told - 1) as nat).push(Fate::Lost));
}

/// A listener that was let go over some events was let go over these and more.
proof fn lemma_lost_earlier(
    middle: Outlet<PlayerEvent>,
    first: Outlet<PlayerEvent>,
    earlier: Seq<PlayerEvent>,
    later: Seq<PlayerEvent>,
)
    requires
        lost(middle, first, earlier),
    ensures
        lost(middle, first, earlier + later),
{
    let events = earlier + later;
    let had = first.given().len() as int;
    assert forall|k: int| 0 <= k < middle.given().len() - had implies (#[trigger] events[k]).same(
        middle.given()[had + k],
    ) by {
        assert(events[k] == earlier[k]);
    }
}

/// A listener that took the earlier events and the later ones took all.
proof fn lemma_heard_twice(
    last: Outlet<PlayerEvent>,
    middle: Outlet<PlayerEvent>,
    first: Outlet<PlayerEvent>,
    earlier: Seq<PlayerEvent>,
    later: Seq<PlayerEvent>,
)
    requires
        heard(middle, first, earlier),
        heard(last, middle, later),
    ensures
        heard(last, first, earlier + later),
{
    let events = earlier + later;
    let had = first.given().len() as int;
    let been = middle.given().len() as int;
    assert forall|k: int| 0 <= k < had implies #[trigger] last.given()[k] == first.given()[k] by {
        assert(middle.given()[k] == first.given()[k]);
    }
    assert forall|k: int| 0 <= k < events.len() implies (#[trigger] events[k]).same(
        last.given()[had + k],
    ) by {
        if k < earlier.len() {
            assert(events[k] == earlier[k]);
            assert(last.given()[had + k] == middle.given()[had + k]);
        } else {
            let n = k - earlier.len();
            assert(events[k] == later[n]);
            assert(later[n].same(last.given()[been + n]));
        }
    }
    assert(last.fates() =~= first.fates() + all_taken(events.len()));
}

/// What is parted in two goes is parted in one.
proof fn lemma_parted_twice(
    first: nat,
    a: Seq<int>,
    a_exits: Seq<int>,
    b: Seq<int>,
    b_exits: Seq<int>,
    places: Seq<int>,
    exits: Seq<int>,
)
    requires
        parted(first, a, a_exits),
        parted(a.len(), b, b_exits),
        forall|i: int, j: int| 0 <= i < j < a.len() ==> #[trigger] a[i] < #[trigger] a[j],
        forall|i: int| 0 <= i < b.len() ==> 0 <= #[trigger] b[i] < a.len(),
        forall|i: int| 0 <= i < b_exits.len() ==> 0 <= #[trigger] b_exits[i] < a.len(),
        places == Seq::new(b.len(), |i: int| a[b[i]]),
        exits == a_exits + Seq::new(b_exits.len(), |i: int| a[b_exits[i]]),
    ensures
        parted(first, places, exits),
{
    assert forall|k: int| 0 <= k < first implies (#[trigger] places.contains(k)
        <==> !exits.contains(k)) by {
        if a.contains(k) {
            let p = a.index_of(k);
            assert(a[p] == k);
            if b.contains(p) {
                let q = b.index_of(p);
                assert(places[q] == k);
                if exits.contains(k) {
                    let j = exits.index_of(k);
                    if j < a_exits.len() {
                        assert(a_exits[j] == k);
                    } else {
                        let n = j - a_exits.len();
                        assert(a[b_exits[n]] == k);
                        assert(b_exits[n] == p);
                        assert(b_exits.contains(p));
                    }
                }
            } else {
                let n = b_exits.index_of(p);
                assert(b_exits.contains(p));
                assert(exits[a_exits.len() + n] == k);
                if places.contains(k) {
                    let q = places.index_of(k);
                    assert(a[b[q]] == k);
                    assert(b[q] == p);
                }
            }
        } else {
            let j = a_exits.index_of(k);
            assert(a_exits.contains(k));
            assert(exits[j] == k);
            if places.contains(k) {
                let q = places.index_of(k);
                assert(a[b[q]] == k);
            }
        }
    }
}

/// What was told in two goes was told in one.
proof fn lemma_passed_on_twice(
    last: Seq<Outlet<PlayerEvent>>,
    middle: Seq<Outlet<PlayerEvent>>,
    first: Seq<Outlet<PlayerEvent>>,
    gone_last: Seq<Outlet<PlayerEvent>>,
    gone_middle: Seq<Outlet<PlayerEvent>>,
    gone_first: Seq<Outlet<PlayerEvent>>,
    earlier: Seq<PlayerEvent>,
    later: Seq<PlayerEvent>,
)
    requires
        passed_on(middle, first, gone_middle, gone_first, earlier),
        passed_on(last, middle, gone_last, gone_middle, later),
    ensures
        passed_on(last, first, gone_last, gone_first, earlier + later),
{
    let (a, a_exits): (Seq<int>, Seq<int>) = choose|places: Seq<int>, exits: Seq<int>|
        #![trigger parted(first.len(), places, exits)]
        {
            &&& parted(first.len(), places, exits)
            &&& kept_at(middle, first, earlier, places)
            &&& left_at(gone_middle, gone_first, first, earlier, exits)
        };
    let (b, b_exits): (Seq<int>, Seq<int>) = choose|places: Seq<int>, exits: Seq<int>|
        #![trigger parted(middle.len(), places, exits)]
        {
            &&& parted(middle.len(), places, exits)
            &&& kept_at(last, middle, later, places)
            &&& left_at(gone_last, gone_middle, middle, later, exits)
        };
    let events = earlier + later;
    let places = Seq::new(b.len(), |i: int| a[b[i]]);
    let exits = a_exits + Seq::new(b_exits.len(), |i: int| a[b_exits[i]]);
    lemma_parted_twice(first.len(), a, a_exits, b, b_exits, places, exits);
    assert forall|i: int, j: int| 0 <= i < j < places.len() implies #[trigger] places[i]
        < #[trigger] places[j] by {
        assert(b[i] < b[j]);
        assert(a[b[i]] < a[b[j]]);
    }
    assert forall|i: int| 0 <= i < last.len() implies 0 <= #[trigger] places[i] < first.len()
        && heard(last[i], first[places[i]], events) by {
        let m = b[i];
        let f = a[m];
        lemma_heard_twice(last[i], middle[m], first[f], earlier, later);
    }
    assert(kept_at(last, first, events, places));
    assert forall|i: int| 0 <= i < gone_first.len() implies #[trigger] gone_last[i]
        == gone_first[i] by {
        assert(gone_middle[i] == gone_first[i]);
    }
    assert forall|i: int| 0 <= i < exits.len() implies 0 <= #[trigger] exits[i] < first.len()
        && lost(gone_last[gone_first.len() + i], first[exits[i]], events) by {
        if i < a_exits.len() {
            let f = a_exits[i];
            let gone = gone_middle[gone_first.len() + i];
            assert(gone_last[gone_first.len() + i] == gone);
            lemma_lost_earlier(gone, first[f], earlier, later);
        } else {
            let n = i - a_exits.len();
            let m = b_exits[n];
            let f = a[m];
            assert(heard(middle[m], first[f], earlier));
            lemma_lost_later(gone_last[gone_middle.len() + n], middle[m], first[f], earlier, later);
        }
    }
    assert(left_at(gone_last, gone_first, first, events, exits));
}

/// Telling nothing changes no listener.
proof fn lemma_nothing_passed_on(
    listeners: Seq<Outlet<PlayerEvent>>,
    gone: Seq<Outlet<PlayerEvent>>,
)
    ensures
        passed_on(listeners, listeners, gone, gone, Seq::<PlayerEvent>::empty()),
{
    let places = Seq::new(listeners.len(), |i: int| i);
    let exits = Seq::<int>::empty();
    assert forall|i: int| 0 <= i < listeners.len() implies 0 <= #[trigger] places[i]
        < listeners.len() && heard(
        listeners[i],
        listeners[places[i]],
        Seq::<PlayerEvent>::empty(),
    ) by {
        assert(listeners[i].fates() =~= listeners[i].fates() + all_taken(0));
    }
    assert forall|k: int| 0 <= k < listeners.len() implies (#[trigger] places.contains(k)
        <==> !exits.contains(k)) by {
        assert(places[k] == k);
    }
    assert(parted(listeners.len(), places, exits));
    assert(kept_at(listeners, listeners, Seq::<PlayerEvent>::empty(), places));
}

/// What was made of a run of audio that was to be handed out.
#[derive(Debug)]
pub enum AudioFrameEmitResult {
    Sent,
    Full(PcmAudioFrame),
    Disconnected(PcmAudioFrame),
}

/// Whether a message was handed to the receiver that there was before, if there was one. One that
/// does not receive any more is let go, and one that receives stays.
pub open spec fn handed_out<T>(
    after: Option<Outlet<T>>,
    before: Option<Outlet<T>>,
    gone_after: Seq<Outlet<T>>,
    gone_before: Seq<Outlet<T>>,
    message: T,
) -> bool {
    match before {
        None => after is None && gone_after == gone_before,
        Some(receiver) => match after {
            Some(outlet) => {
                &&& outlet.gave(receiver, message)
                &&& outlet.fate() != Fate::Lost
                &&& gone_after == gone_before
            },
            None => {
                &&& gone_after == gone_before.push(gone_after.last())
                &&& gone_after.last().gave(receiver, message)
                &&& gone_after.last().fate() == Fate::Lost
            },
        },
    }
}

/// The receivers that were let go, with one more, where there was one.
pub open spec fn left<T>(gone: Seq<Outlet<T>>, receiver: Option<Outlet<T>>) -> Seq<Outlet<T>> {
    match receiver {
        None => gone,
        Some(outlet) => gone.push(outlet),
    }
}

/// The receivers that were let go since they did not receive any more, in order, each with what was
/// given to it.
pub struct Departed {
    pub listeners: Seq<Outlet<PlayerEvent>>,
    pub video: Seq<Outlet<PlayerVideoFrame>>,
    pub audio: Seq<Outlet<PlayerAudioFrame>>,
    pub subtitles: Seq<Outlet<PlayerSubtitleFrame>>,
}

impl Departed {
    /// Whether nobody was let go yet.
    pub open spec fn nobody(self) -> bool {
        &&& self.listeners == Seq::<Outlet<PlayerEvent>>::empty()
        &&& self.video == Seq::<Outlet<PlayerVideoFrame>>::empty()
        &&& self.audio == Seq::<Outlet<PlayerAudioFrame>>::empty()
        &&& self.subtitles == Seq::<Outlet<PlayerSubtitleFrame>>::empty()
    }
}

/// What a player and its worker share.
pub struct PlayerInner {
    pub status: PlayerStatus,
    pub media: Option<MediaRequest>,
    pub surface: Option<PlatformSurface>,
    pub tracks: Vec<TrackInfo>,
    pub subscribers: Vec<Outlet<PlayerEvent>>,
    pub video_frame_sender: Option<Outlet<PlayerVideoFrame>>,
    pub audio_frame_sender: Option<Outlet<PlayerAudioFrame>>,
    pub subtitle_frame_sender: Option<Outlet<PlayerSubtitleFrame>>,
    /// What the listeners have not been told yet, in order.
    pub outbox: Vec<PlayerEvent>,
    pub departed: Ghost<Departed>,
}

impl PlayerInner {
    pub fn new() -> (r: Self)
        ensures
            r.status == PlayerStatus::fresh(),
            r.media is None,
            r.surface is None,
            r.tracks@ == Seq::<TrackInfo>::empty(),
            r.subscribers@ == Seq::<Outlet<PlayerEvent>>::empty(),
            r.video_frame_sender is None,
            r.audio_frame_sender is None,
            r.subtitle_frame_sender is None,
            r.outbox@ == Seq::<PlayerEvent>::empty(),
            r.departed@.nobody(),
    {
        PlayerInner {
            status: PlayerStatus::new(),
            media: None,
            surface: None,
            tracks: Vec::new(),
            subscribers: Vec::new(),
            video_frame_sender: None,
            audio_frame_sender: None,
            subtitle_frame_sender: None,
            outbox: Vec::new(),
            departed: Ghost(
                Departed {
                    listeners: Seq::empty(),
                    video: Seq::empty(),
                    audio: Seq::empty(),
                    subtitles: Seq::empty(),
                },
            ),
        }
    }

    /// Whether two differ in their status and in what is to be told alone.
    pub open spec fn same_listeners(self, other: PlayerInner) -> bool {
        &&& self.subscribers == other.subscribers
        &&& self.video_frame_sender == other.video_frame_sender
        &&& self.audio_frame_sender == other.audio_frame_sender
        &&& self.subtitle_frame_sender == other.subtitle_frame_sender
        &&& self.departed == other.departed
    }

    pub open spec fn same_but_status(self, other: PlayerInner) -> bool {
        &&& self.media == other.media
        &&& self.surface == other.surface
        &&& self.tracks == other.tracks
        &&& self.same_listeners(other)
    }

    /// Whether the status became `status`, `events` are to be told besides, and nothing else
    /// changed.
    pub open spec fn became(self, before: PlayerInner, status: PlayerStatus, events: Seq<PlayerEvent>) -> bool {
        &&& self.same_but_status(before)
        &&& self.status == status
        &&& self.outbox@ == before.outbox@ + events
    }

    /// Has an event told to the listeners.
    pub fn emit(&mut self, event: PlayerEvent)
        ensures
            final(self).became(*old(self), old(self).status, seq![event]),
    {
        self.outbox.push(event);
        assert(self.outbox@ =~= old(self).outbox@ + seq![event]);
    }

    /// Has an event told, unless it is of a timeline that has been left.
    pub fn emit_for_generation(&mut self, playback_generation: u64, event: PlayerEvent) -> (r: bool)
        ensures
            r == (counted_generation(playback_generation) >= counted_generation(
                old(self).status.playback_generation,
            )),
            r ==> final(self).became(*old(self), old(self).status, seq![event]),
            !r ==> *final(self) == *old(self),
    {
        if worker_generation_is_stale(playback_generation, self.status.playback_generation) {
            return false;
        }
        self.emit(event);
        true
    }

    pub fn set_state(&mut self, next: PlayerState)
        ensures
            final(self).became(
                *old(self),
                PlayerStatus { state: next, ..old(self).status },
                old(self).status.state_events(next),
            ),
    {
        let previous = self.status.state;
        self.status.state = next;
        if previous != next {
            self.outbox.push(PlayerEvent::StateChanged(next));
        }
        assert(self.outbox@ =~= old(self).outbox@ + old(self).status.state_events(next));
    }

    pub fn set_state_for_generation(&mut self, playback_generation: u64, next: PlayerState) -> (r: bool)
        ensures
            r == (counted_generation(playback_generation) >= counted_generation(
                old(self).status.playback_generation,
            )),
            r ==> final(self).became(
                *old(self),
                PlayerStatus { state: next, ..old(self).status },
                old(self).status.state_events(next),
            ),
            !r ==> *final(self) == *old(self),
    {
        if worker_generation_is_stale(playback_generation, self.status.playback_generation) {
            return false;
        }
        self.set_state(next);
        true
    }

    /// Makes the outcome of a command known, unless another command was given since.
    pub fn commit_playback_command_intent(
        &mut self,
        sequence: u64,
        playback_generation: Option<u64>,
        position: Option<Duration>,
        state: Option<PlayerState>,
        reading: ClockReading,
    ) -> (r: bool)
        ensures
            r == (old(self).status.playback_command_sequence == sequence),
            !r ==> *final(self) == *old(self),
            r ==> final(self).became(
                *old(self),
                old(self).status.committed(playback_generation, position, state, reading),
                old(self).status.commit_events(position, state),
            ),
    {
        if self.status.playback_command_sequence != sequence {
            return false;
        }
        if let Some(playback_generation) = playback_generation {
            self.status.playback_generation = later_of(
                self.status.playback_generation,
                count_generation(playback_generation),
            );
        }
        self.status.ended = false;
        if let Some(position) = position {
            self.status.playback_clock = PlaybackClock::paused_at(position);
            self.outbox.push(PlayerEvent::PositionChanged(position));
        }
        if let Some(state) = state {
            if state == PlayerState::Paused {
                self.status.playback_clock.pause(reading);
            }
            let previous = self.status.state;
            self.status.state = state;
            if previous != state {
                self.outbox.push(PlayerEvent::StateChanged(state));
            }
        }
        assert(self.outbox@ =~= old(self).outbox@ + old(self).status.commit_events(
            position,
            state,
        ));
        true
    }

    /// Makes a new timeline known; the number never goes back.
    pub fn publish_playback_generation(&mut self, playback_generation: u64)
        ensures
            final(self).became(
                *old(self),
                PlayerStatus {
                    playback_generation: later_generation(
                        old(self).status.playback_generation,
                        counted_generation(playback_generation),
                    ),
                    ..old(self).status
                },
                Seq::<PlayerEvent>::empty(),
            ),
    {
        self.status.playback_generation = later_of(
            self.status.playback_generation,
            count_generation(playback_generation),
        );
        assert(self.outbox@ =~= old(self).outbox@ + Seq::<PlayerEvent>::empty());
    }

    /// Makes the worker's clock known, unless its timeline has been left. The clock itself is
    /// published, not what it shows.
    pub fn sync_playback_clock(&mut self, clock: PlaybackClock, playback_generation: u64) -> (r: bool)
        ensures
            r == (counted_generation(playback_generation) >= counted_generation(
                old(self).status.playback_generation,
            )),
            final(self).clock_synced(*old(self), clock, playback_generation),
    {
        if worker_clock_generation_is_stale(
            self.status.playback_generation,
            playback_generation,
        ) {
            return false;
        }
        self.status.playback_clock = clock;
        self.status.playback_generation = count_generation(playback_generation);
        assert(self.outbox@ =~= old(self).outbox@ + Seq::<PlayerEvent>::empty());
        true
    }

    /// Makes the natural end known, once: the last position first, then the new state. A timeline
    /// that has been left does not end.
    pub fn publish_natural_eof_events(
        &mut self,
        playback_generation: u64,
        final_position: Duration,
        eof_published: &mut bool,
    )
        ensures
            ({
                let stale = counted_generation(playback_generation) < counted_generation(
                    old(self).status.playback_generation,
                );
                &&& *old(eof_published) || stale ==> *final(self) == *old(self)
                    && *final(eof_published) == *old(eof_published)
                &&& !*old(eof_published) && !stale ==> *final(eof_published) && final(self).became(
                    *old(self),
                    old(self).status.finished(final_position),
                    seq![PlayerEvent::PositionChanged(final_position)]
                        + old(self).status.state_events(PlayerState::Stopped),
                )
            }),
    {
        if *eof_published {
            return;
        }
        if worker_generation_is_stale(playback_generation, self.status.playback_generation) {
            return;
        }
        self.status.playback_clock = PlaybackClock::paused_at(final_position);
        self.status.ended = true;
        self.outbox.push(PlayerEvent::PositionChanged(final_position));
        let previous = self.status.state;
        self.status.state = PlayerState::Stopped;
        if previous != PlayerState::Stopped {
            self.outbox.push(PlayerEvent::StateChanged(PlayerState::Stopped));
        }
        assert(self.outbox@ =~= old(self).outbox@ + (seq![
            PlayerEvent::PositionChanged(final_position),
        ] + old(self).status.state_events(PlayerState::Stopped)));
        *eof_published = true;
    }

    /// Whether the tracks became those of the engine, and the listeners are told of the list and of
    /// the selection as far as they are others than before.
    pub open spec fn tracks_synced(
        self,
        before: PlayerInner,
        tracks: Vec<TrackInfo>,
        selection: TrackSelection,
    ) -> bool {
        let listed = !same_tracks(before.tracks@, tracks@);
        let chosen = before.status.track_selection != selection;
        let first = before.outbox@.len() as int;
        let second = if listed {
            first + 1
        } else {
            first
        };
        &&& self.tracks@ == (if listed {
            tracks@
        } else {
            before.tracks@
        })
        &&& self.status.track_selection == selection
        &&& self.outbox@.len() == (if chosen {
            second + 1
        } else {
            second
        })
        &&& self.outbox@.subrange(0, first) == before.outbox@
        &&& listed ==> PlayerEvent::TracksChanged(tracks).same(self.outbox@[first])
        &&& chosen ==> self.outbox@[second] == PlayerEvent::TrackSelectionChanged(selection)
    }

    /// Whether the worker's clock was made known, or was not because its timeline has been left.
    pub open spec fn clock_synced(self, before: PlayerInner, clock: PlaybackClock, playback_generation: u64) -> bool {
        if counted_generation(playback_generation) >= counted_generation(
            before.status.playback_generation,
        ) {
            self.became(
                before,
                PlayerStatus {
                    playback_clock: clock,
                    playback_generation: counted_generation(playback_generation),
                    ..before.status
                },
                Seq::<PlayerEvent>::empty(),
            )
        } else {
            self == before
        }
    }

    /// Makes the tracks of the engine known, where they are others than before.
    pub fn sync_track_state(&mut self, tracks: &Vec<TrackInfo>, selection: TrackSelection)
        ensures
            final(self).media == old(self).media,
            final(self).surface == old(self).surface,
            final(self).same_listeners(*old(self)),
            final(self).status == (PlayerStatus { track_selection: selection, ..old(self).status }),
            final(self).tracks_synced(*old(self), *tracks, selection),
    {
        if !tracks_match(&self.tracks, tracks) {
            self.tracks = duplicate_tracks(tracks);
            self.outbox.push(PlayerEvent::TracksChanged(duplicate_tracks(tracks)));
        }
        if self.status.track_selection != selection {
            self.status.track_selection = selection;
            self.outbox.push(PlayerEvent::TrackSelectionChanged(selection));
        }
        assert(self.outbox@.subrange(0, old(self).outbox@.len() as int) =~= old(self).outbox@);
    }

    /// Lets those listeners go that did not receive what they were told.
    pub fn retain_subscribers(&mut self, received: &Vec<bool>)
        requires
            received@.len() == old(self).subscribers@.len(),
        ensures
            final(self).status == old(self).status,
            final(self).media == old(self).media,
            final(self).surface == old(self).surface,
            final(self).tracks == old(self).tracks,
            final(self).outbox == old(self).outbox,
            final(self).video_frame_sender == old(self).video_frame_sender,
            final(self).audio_frame_sender == old(self).audio_frame_sender,
            final(self).subtitle_frame_sender == old(self).subtitle_frame_sender,
            final(self).subscribers@ == still_there(old(self).subscribers@, received@),
            final(self).departed@ == (Departed {
                listeners: old(self).departed@.listeners + still_there(
                    old(self).subscribers@,
                    turned(received@),
                ),
                ..old(self).departed@
            }),
    {
        let ghost all = self.subscribers@;
        let total: usize = self.subscribers.len();
        let mut kept: usize = 0;
        let mut i: usize = 0;
        assert(all.take(0) =~= Seq::<Outlet<PlayerEvent>>::empty());
        assert(self.departed@.listeners + Seq::<Outlet<PlayerEvent>>::empty()
            =~= self.departed@.listeners);
        while i < total
            invariant
                kept <= i <= total,
                total == all.len(),
                received@.len() == all.len(),
                self.subscribers@.len() == kept + (total - i),
                self.subscribers@.take(kept as int) == still_there(
                    all.take(i as int),
                    received@.take(i as int),
                ),
                self.subscribers@.skip(kept as int) == all.skip(i as int),
                self.departed@ == (Departed {
                    listeners: old(self).departed@.listeners + still_there(
                        all.take(i as int),
                        turned(received@.take(i as int)),
                    ),
                    ..old(self).departed@
                }),
                self.status == old(self).status,
                self.media == old(self).media,
                self.surface == old(self).surface,
                self.tracks == old(self).tracks,
                self.outbox == old(self).outbox,
                self.video_frame_sender == old(self).video_frame_sender,
                self.audio_frame_sender == old(self).audio_frame_sender,
                self.subtitle_frame_sender == old(self).subtitle_frame_sender,
            decreases total - i,
        {
            let ghost before = self.subscribers@;
            assert(all.take(i + 1).drop_last() =~= all.take(i as int));
            assert(received@.take(i + 1).drop_last() =~= received@.take(i as int));
            assert(turned(received@.take(i + 1)).drop_last() =~= turned(received@.take(i as int)));
            assert(before[kept as int] == before.skip(kept as int)[0]);
            assert(before[kept as int] == all[i as int]);
            if received[i] {
                assert(before.take(kept + 1) =~= before.take(kept as int).push(all[i as int]));
                assert(before.skip(kept + 1) =~= before.skip(kept as int).skip(1));
                assert(all.skip(i + 1) =~= all.skip(i as int).skip(1));
                kept = kept + 1;
            } else {
                let gone = self.subscribers.remove(kept);
                self.departed = Ghost(
                    Departed {
                        listeners: self.departed@.listeners.push(gone),
                        ..self.departed@
                    },
                );
                assert(self.departed@.listeners =~= old(self).departed@.listeners + still_there(
                    all.take(i + 1),
                    turned(received@.take(i + 1)),
                ));
                assert(self.subscribers@.take(kept as int) =~= before.take(kept as int));
                assert(self.subscribers@.skip(kept as int) =~= before.skip(kept as int).skip(1));
                assert(all.skip(i + 1) =~= all.skip(i as int).skip(1));
            }
            i = i + 1;
        }
        assert(all.take(total as int) =~= all);
        assert(received@.take(total as int) =~= received@);
        assert(self.subscribers@.take(kept as int) =~= self.subscribers@);
    }

    /// Whether nothing but the listeners and what is to be told changed.
    pub open spec fn same_but_listeners(self, before: PlayerInner) -> bool {
        &&& self.status == before.status
        &&& self.media == before.media
        &&& self.surface == before.surface
        &&& self.tracks == before.tracks
        &&& self.video_frame_sender == before.video_frame_sender
        &&& self.audio_frame_sender == before.audio_frame_sender
        &&& self.subtitle_frame_sender == before.subtitle_frame_sender
        &&& self.departed@ == (Departed {
            listeners: self.departed@.listeners,
            ..before.departed@
        })
    }

    /// Whether the listeners were told of events, and those that did not take them let go.
    pub open spec fn told_listeners(self, before: PlayerInner, events: Seq<PlayerEvent>) -> bool {
        &&& passed_on(
            self.subscribers@,
            before.subscribers@,
            self.departed@.listeners,
            before.departed@.listeners,
            events,
        )
        &&& self.departed@ == (Departed {
            listeners: self.departed@.listeners,
            ..before.departed@
        })
    }

    /// Tells one event to every listener, and lets those go that do not receive any more. Who
    /// receives depends on other threads.
    fn publish(&mut self, event: &PlayerEvent)
        ensures
            final(self).same_but_listeners(*old(self)),
            final(self).outbox == old(self).outbox,
            final(self).told_listeners(*old(self), seq![*event]),
    {
        let mut received: Vec<bool> = Vec::new();
        let mut i: usize = 0;
        while i < self.subscribers.len()
            invariant
                self.same_but_listeners(*old(self)),
                self.outbox == old(self).outbox,
                self.departed == old(self).departed,
                self.subscribers@.len() == old(self).subscribers@.len(),
                i <= self.subscribers@.len(),
                received@.len() == i,
                forall|j: int|
                    #![trigger self.subscribers@[j]]
                    0 <= j < i && received@[j] ==> heard(
                        self.subscribers@[j],
                        old(self).subscribers@[j],
                        seq![*event],
                    ),
                forall|j: int|
                    #![trigger self.subscribers@[j]]
                    0 <= j < i && !received@[j] ==> lost(
                        self.subscribers@[j],
                        old(self).subscribers@[j],
                        seq![*event],
                    ),
                forall|j: int|
                    i <= j < self.subscribers@.len() ==> #[trigger] self.subscribers@[j]
                        == old(self).subscribers@[j],
            decreases self.subscribers@.len() - i,
        {
            let copy = event.duplicate();
            let taken = self.subscribers[i].give(copy);
            proof {
                if taken {
                    assert(self.subscribers@[i as int].fates()
                        =~= old(self).subscribers@[i as int].fates() + all_taken(1));
                } else {
                    assert(self.subscribers@[i as int].fates()
                        =~= old(self).subscribers@[i as int].fates() + all_taken(0).push(
                        Fate::Lost,
                    ));
                }
            }
            received.push(taken);
            i = i + 1;
        }
        let ghost told = self.subscribers@;
        self.retain_subscribers(&received);
        proof {
            lemma_places(told, received@);
            let places = places_of(received@);
            assert forall|k: int| 0 <= k < self.subscribers@.len() implies 0
                <= #[trigger] places[k] < old(self).subscribers@.len() && heard(
                self.subscribers@[k],
                old(self).subscribers@[places[k]],
                seq![*event],
            ) by {
                assert(self.subscribers@[k] == told[places[k]]);
            }
            assert(kept_at(self.subscribers@, old(self).subscribers@, seq![*event], places));
            lemma_places(told, turned(received@));
            lemma_parted(told, received@);
            let exits = places_of(turned(received@));
            let gone_before = old(self).departed@.listeners;
            let gone_after = self.departed@.listeners;
            assert forall|k: int| 0 <= k < exits.len() implies 0 <= #[trigger] exits[k]
                < old(self).subscribers@.len() && lost(
                gone_after[gone_before.len() + k],
                old(self).subscribers@[exits[k]],
                seq![*event],
            ) by {
                assert(turned(received@)[exits[k]]);
                assert(gone_after[gone_before.len() + k] == told[exits[k]]);
            }
            assert(left_at(
                gone_after,
                gone_before,
                old(self).subscribers@,
                seq![*event],
                exits,
            ));
            assert(parted(old(self).subscribers@.len(), places, exits));
        }
    }

    /// Whether the listeners were told what was to be told, and nothing else changed.
    pub open spec fn delivered(self, before: PlayerInner) -> bool {
        &&& self.same_but_listeners(before)
        &&& self.outbox@ == Seq::<PlayerEvent>::empty()
        &&& self.told_listeners(before, before.outbox@)
    }

    /// Tells the listeners what is to be told, in order.
    pub fn deliver(&mut self)
        ensures
            final(self).delivered(*old(self)),
    {
        let mut events: Vec<PlayerEvent> = Vec::new();
        std::mem::swap(&mut self.outbox, &mut events);
        let mut i: usize = 0;
        proof {
            lemma_nothing_passed_on(self.subscribers@, self.departed@.listeners);
            assert(events@.take(0) =~= Seq::<PlayerEvent>::empty());
        }
        while i < events.len()
            invariant
                self.same_but_listeners(*old(self)),
                self.outbox@ == Seq::<PlayerEvent>::empty(),
                events@ == old(self).outbox@,
                i <= events@.len(),
                self.told_listeners(*old(self), events@.take(i as int)),
            decreases events@.len() - i,
        {
            let ghost before = *self;
            self.publish(&events[i]);
            proof {
                lemma_passed_on_twice(
                    self.subscribers@,
                    before.subscribers@,
                    old(self).subscribers@,
                    self.departed@.listeners,
                    before.departed@.listeners,
                    old(self).departed@.listeners,
                    events@.take(i as int),
                    seq![events@[i as int]],
                );
                assert(events@.take(i + 1) =~= events@.take(i as int) + seq![events@[i as int]]);
            }
            i = i + 1;
        }
        assert(events@.take(i as int) =~= events@);
    }

    /// Whether two differ in the receiver of pictures alone.
    pub open spec fn same_but_video(self, other: PlayerInner) -> bool {
        &&& self.status == other.status
        &&& self.media == other.media
        &&& self.surface == other.surface
        &&& self.tracks == other.tracks
        &&& self.subscribers == other.subscribers
        &&& self.outbox == other.outbox
        &&& self.audio_frame_sender == other.audio_frame_sender
        &&& self.subtitle_frame_sender == other.subtitle_frame_sender
        &&& self.departed@ == (Departed { video: self.departed@.video, ..other.departed@ })
    }

    /// Goes on when a picture was offered: a receiver that is gone is forgotten, one that has no
    /// room misses the picture.
    pub fn video_frame_offered(&mut self, offer: Offer<PlayerVideoFrame>)
        ensures
            final(self).same_but_video(*old(self)),
            final(self).video_frame_sender == (if offer is Disconnected {
                None
            } else {
                old(self).video_frame_sender
            }),
            final(self).departed@.video == (if offer is Disconnected {
                left(old(self).departed@.video, old(self).video_frame_sender)
            } else {
                old(self).departed@.video
            }),
    {
        match offer {
            Offer::Sent => {},
            Offer::Full(_) => {},
            Offer::Disconnected(_) => {
                self.departed = Ghost(
                    Departed {
                        video: left(self.departed@.video, self.video_frame_sender),
                        ..self.departed@
                    },
                );
                self.video_frame_sender = None;
            },
        }
    }

    /// Hands out a picture.
    pub fn emit_video_frame(&mut self, frame: PlayerVideoFrame)
        ensures
            final(self).same_but_video(*old(self)),
            handed_out(
                final(self).video_frame_sender,
                old(self).video_frame_sender,
                final(self).departed@.video,
                old(self).departed@.video,
                frame,
            ),
    {
        let offer = match &mut self.video_frame_sender {
            None => {
                return;
            },
            Some(outlet) => outlet.offer(frame),
        };
        self.video_frame_offered(offer);
    }

    pub fn audio_frame_output_is_active(&self) -> (r: bool)
        ensures
            r == (self.audio_frame_sender is Some),
    {
        self.audio_frame_sender.is_some()
    }

    /// Whether two differ in the receiver of audio alone.
    pub open spec fn same_but_audio(self, other: PlayerInner) -> bool {
        &&& self.status == other.status
        &&& self.media == other.media
        &&& self.surface == other.surface
        &&& self.tracks == other.tracks
        &&& self.subscribers == other.subscribers
        &&& self.outbox == other.outbox
        &&& self.video_frame_sender == other.video_frame_sender
        &&& self.subtitle_frame_sender == other.subtitle_frame_sender
        &&& self.departed@ == (Departed { audio: self.departed@.audio, ..other.departed@ })
    }

    /// Goes on when a run of audio was offered: what was not taken comes back, and a receiver that
    /// is gone is forgotten.
    pub fn audio_frame_offered(&mut self, offer: Offer<PlayerAudioFrame>) -> (r: AudioFrameEmitResult)
        ensures
            final(self).same_but_audio(*old(self)),
            final(self).audio_frame_sender == (if offer is Disconnected {
                None
            } else {
                old(self).audio_frame_sender
            }),
            final(self).departed@.audio == (if offer is Disconnected {
                left(old(self).departed@.audio, old(self).audio_frame_sender)
            } else {
                old(self).departed@.audio
            }),
            r == (match offer {
                Offer::Sent => AudioFrameEmitResult::Sent,
                Offer::Full(frame) => AudioFrameEmitResult::Full(frame.frame),
                Offer::Disconnected(frame) => AudioFrameEmitResult::Disconnected(frame.frame),
            }),
    {
        match offer {
            Offer::Sent => AudioFrameEmitResult::Sent,
            Offer::Full(frame) => AudioFrameEmitResult::Full(frame.frame),
            Offer::Disconnected(frame) => {
                self.departed = Ghost(
                    Departed {
                        audio: left(self.departed@.audio, self.audio_frame_sender),
                        ..self.departed@
                    },
                );
                self.audio_frame_sender = None;
                AudioFrameEmitResult::Disconnected(frame.frame)
            },
        }
    }

    /// Hands out a run of audio. Nothing is lost: what was not taken comes back.
    pub fn try_emit_audio_frame(&mut self, frame: PlayerAudioFrame) -> (r: AudioFrameEmitResult)
        ensures
            final(self).same_but_audio(*old(self)),
            old(self).audio_frame_sender is None ==> r == AudioFrameEmitResult::Disconnected(
                frame.frame,
            ) && *final(self) == *old(self),
            r is Full ==> r->Full_0 == frame.frame,
            r is Disconnected ==> r->Disconnected_0 == frame.frame,
            final(self).audio_frame_sender is None <==> r is Disconnected,
            handed_out(
                final(self).audio_frame_sender,
                old(self).audio_frame_sender,
                final(self).departed@.audio,
                old(self).departed@.audio,
                frame,
            ),
            r is Sent <==> final(self).audio_frame_sender is Some
                && final(self).audio_frame_sender->0.fate() == Fate::Taken,
    {
        let offer = match &mut self.audio_frame_sender {
            None => {
                return AudioFrameEmitResult::Disconnected(frame.frame);
            },
            Some(outlet) => outlet.offer(frame),
        };
        self.audio_frame_offered(offer)
    }

    /// Whether two differ in the receiver of subtitles, and in how many were dropped, alone.
    pub open spec fn same_but_subtitles(self, other: PlayerInner) -> bool {
        &&& self.status == (PlayerStatus {
            subtitle_frame_backpressure_drops: self.status.subtitle_frame_backpressure_drops,
            ..other.status
        })
        &&& self.media == other.media
        &&& self.surface == other.surface
        &&& self.tracks == other.tracks
        &&& self.subscribers == other.subscribers
        &&& self.outbox == other.outbox
        &&& self.video_frame_sender == other.video_frame_sender
        &&& self.audio_frame_sender == other.audio_frame_sender
        &&& self.departed@ == (Departed { subtitles: self.departed@.subtitles, ..other.departed@ })
    }

    /// Goes on when a subtitle was offered: one for which there is no room is dropped and counted,
    /// and a receiver that is gone is forgotten.
    pub fn subtitle_frame_offered(&mut self, offer: Offer<PlayerSubtitleFrame>)
        ensures
            final(self).same_but_subtitles(*old(self)),
            final(self).status.subtitle_frame_backpressure_drops == (if offer is Full {
                crate::video::one_more(old(self).status.subtitle_frame_backpressure_drops)
            } else {
                old(self).status.subtitle_frame_backpressure_drops
            }),
            final(self).subtitle_frame_sender == (if offer is Disconnected {
                None
            } else {
                old(self).subtitle_frame_sender
            }),
            final(self).departed@.subtitles == (if offer is Disconnected {
                left(old(self).departed@.subtitles, old(self).subtitle_frame_sender)
            } else {
                old(self).departed@.subtitles
            }),
    {
        match offer {
            Offer::Sent => {},
            Offer::Full(_) => {
                self.status.subtitle_frame_backpressure_drops =
                self.status.subtitle_frame_backpressure_drops.saturating_add(1);
            },
            Offer::Disconnected(_) => {
                self.departed = Ghost(
                    Departed {
                        subtitles: left(self.departed@.subtitles, self.subtitle_frame_sender),
                        ..self.departed@
                    },
                );
                self.subtitle_frame_sender = None;
            },
        }
    }

    /// Whether a subtitle was handed out to the receiver that there was, if there was one. Where it
    /// had no room, one more is counted as dropped.
    pub open spec fn subtitle_given(self, before: PlayerInner, frame: PlayerSubtitleFrame) -> bool {
        let dropped = before.status.subtitle_frame_backpressure_drops;
        &&& before.subtitle_frame_sender is None ==> self.subtitle_frame_sender is None
            && self.status.subtitle_frame_backpressure_drops == dropped
        &&& handed_out(
            self.subtitle_frame_sender,
            before.subtitle_frame_sender,
            self.departed@.subtitles,
            before.departed@.subtitles,
            frame,
        )
        &&& before.subtitle_frame_sender is Some
            ==> self.status.subtitle_frame_backpressure_drops == (if self.subtitle_frame_sender
            is Some && self.subtitle_frame_sender->0.fate() == Fate::Refused {
            crate::video::one_more(dropped)
        } else {
            dropped
        })
    }

    /// Hands out a subtitle.
    pub fn emit_subtitle_frame(&mut self, frame: PlayerSubtitleFrame)
        ensures
            final(self).same_but_subtitles(*old(self)),
            final(self).subtitle_given(*old(self), frame),
    {
        let offer = match &mut self.subtitle_frame_sender {
            None => {
                return;
            },
            Some(outlet) => outlet.offer(frame),
        };
        self.subtitle_frame_offered(offer);
    }
}

/// The number of the timeline never goes back, and a command that starts a new one is given a higher
/// number, as long as there is one.
pub proof fn law_the_timeline_never_goes_back(
    status: PlayerStatus,
    generation: Option<u64>,
    position: Option<Duration>,
    state: Option<PlayerState>,
    target: Duration,
    reading: ClockReading,
)
    ensures
        status.committed(generation, position, state, reading).playback_generation
            >= status.playback_generation,
        status.relocated(target).playback_generation >= status.playback_generation,
        status.playback_generation < u64::MAX ==> status.relocated(target).playback_generation
            > status.playback_generation,
        status.finished(target).playback_generation == status.playback_generation,
{
}

/// Once a command has started a new timeline, nothing that the worker says of the old one is told
/// any more: not a position, not a state, not its clock, and not its end.
pub proof fn law_a_new_timeline_silences_the_old(status: PlayerStatus, target: Duration)
    requires
        0 < status.playback_generation < u64::MAX,
    ensures
        counted_generation(status.playback_generation) < counted_generation(
            status.relocated(target).playback_generation,
        ),
{
}

/// A player that is paused stands still: its clock shows the same at every later time, and where a
/// position was given with the pause, it is that position.
pub proof fn law_a_paused_player_stands_still(
    status: PlayerStatus,
    generation: Option<u64>,
    position: Option<Duration>,
    reading: ClockReading,
    a: ClockReading,
    b: ClockReading,
)
    ensures
        ({
            let paused = status.committed(
                generation,
                position,
                Some(PlayerState::Paused),
                reading,
            );
            &&& paused.playback_clock.shows(a) == paused.playback_clock.shows(b)
            &&& position is Some ==> paused.playback_clock.shows(a) == position->0
        }),
{
}

/// A command that a later one overtook has no effect any more: its number is no longer the current
/// one.
pub proof fn law_a_later_command_overtakes(status: PlayerStatus)
    requires
        status.playback_command_sequence < u64::MAX,
    ensures
        status.numbered().playback_command_sequence > status.playback_command_sequence,
        status.numbered() == (PlayerStatus {
            playback_command_sequence: status.numbered().playback_command_sequence,
            ..status
        }),
{
}

/// A player whose command was carried out stands at the place that came with it and has the state
/// that came with it; what did not come with it stays. It has not ended, and its length, its tracks
/// and the commands that it was given are left alone.
pub proof fn law_an_outcome_is_taken_as_it_comes(
    status: PlayerStatus,
    generation: Option<u64>,
    position: Option<Duration>,
    state: Option<PlayerState>,
    reading: ClockReading,
)
    ensures
        ({
            let after = status.committed(generation, position, state, reading);
            &&& after.state == (if state is Some { state->0 } else { status.state })
            &&& position is Some ==> after.playback_clock.base_media_time == position->0
                && after.playback_clock.anchor is None
            &&& position is None && state != Some(PlayerState::Paused) ==> after.playback_clock
                == status.playback_clock
            &&& position is None && state == Some(PlayerState::Paused)
                ==> after.playback_clock.anchor is None && after.playback_clock.base_media_time
                == status.playback_clock.shows(reading) && after.playback_clock.rate
                == status.playback_clock.rate
            &&& !after.ended
            &&& after.duration == status.duration
            &&& after.track_selection == status.track_selection
            &&& after.playback_command_sequence == status.playback_command_sequence
            &&& after.subtitle_frame_backpressure_drops == status.subtitle_frame_backpressure_drops
            &&& generation is None ==> after.playback_generation == status.playback_generation
            &&& generation is Some ==> after.playback_generation == status.playback_generation
                || after.playback_generation == generation->0 || after.playback_generation == 1
            &&& generation is Some ==> after.playback_generation >= generation->0
        }),
{
}

/// The listeners are told of a new place and of a state, the place first, and of a state only where
/// it is another.
pub proof fn law_listeners_hear_what_changed(
    status: PlayerStatus,
    position: Option<Duration>,
    state: Option<PlayerState>,
)
    ensures
        ({
            let told = status.commit_events(position, state);
            let moved = if position is Some { 1int } else { 0 };
            let changed = if state is Some && state->0 != status.state { 1int } else { 0 };
            &&& told.len() == moved + changed
            &&& position is Some ==> told[0] == PlayerEvent::PositionChanged(position->0)
            &&& changed == 1 ==> told[moved] == PlayerEvent::StateChanged(state->0)
        }),
{
}

/// A command that moves playback puts it on the next timeline, parked at its place, under the next
/// number; one that does not only takes the next number. Neither changes the state or what is open.
pub proof fn law_a_move_parks_the_player(status: PlayerStatus, position: Duration)
    requires
        status.playback_generation < u64::MAX,
        status.playback_command_sequence < u64::MAX,
    ensures
        ({
            let after = status.relocated(position);
            &&& after.playback_generation == status.playback_generation + 1
            &&& after.playback_command_sequence == status.playback_command_sequence + 1
            &&& after.playback_clock.base_media_time == position
            &&& after.playback_clock.anchor is None
            &&& !after.ended
            &&& after.state == status.state
            &&& after.duration == status.duration
            &&& after.track_selection == status.track_selection
        }),
        status.numbered().playback_command_sequence == status.playback_command_sequence + 1,
        status.numbered().playback_generation == status.playback_generation,
        status.numbered().playback_clock == status.playback_clock,
        status.numbered().ended == status.ended,
{
}

/// A player at its natural end is stopped and stands where playback ended.
pub proof fn law_a_finished_player_stands_at_its_end(
    status: PlayerStatus,
    position: Duration,
    reading: ClockReading,
)
    ensures
        status.finished(position).ended,
        status.finished(position).state == PlayerState::Stopped,
        status.finished(position).playback_clock.shows(reading) == position,
        status.finished(position).duration == status.duration,
        status.finished(position).playback_command_sequence == status.playback_command_sequence,
{
}

/// A new player has opened nothing, has not been told anything, and stands at the start.
pub proof fn law_a_new_player_is_idle(reading: ClockReading)
    ensures
        PlayerStatus::fresh().state == PlayerState::Idle,
        PlayerStatus::fresh().playback_clock.shows(reading).nanos == 0,
        PlayerStatus::fresh().playback_generation == 1,
        PlayerStatus::fresh().playback_command_sequence == 0,
        PlayerStatus::fresh().duration is None,
        !PlayerStatus::fresh().ended,
{
}

/// The worker's clock is made known on its own timeline and on a later one, and never on an earlier
/// one than the player's.
pub proof fn law_an_old_clock_is_not_made_known(
    after: PlayerInner,
    before: PlayerInner,
    clock: PlaybackClock,
    generation: u64,
)
    requires
        after.clock_synced(before, clock, generation),
        before.status.playback_generation > 0,
        generation > 0,
    ensures
        generation < before.status.playback_generation ==> after == before,
        generation >= before.status.playback_generation ==> after.status.playback_clock == clock
            && after.status.playback_generation == generation && after.status.state
            == before.status.state && after.status.ended == before.status.ended,
        after.outbox@ == before.outbox@,
{
    assert(before.outbox@ + Seq::<PlayerEvent>::empty() =~= before.outbox@);
}

/// The listeners that stay are those that received, in their order.
pub proof fn law_only_who_received_stays<T>(listeners: Seq<T>, received: Seq<bool>)
    requires
        received.len() == listeners.len(),
    ensures
        (forall|i: int| 0 <= i < received.len() ==> received[i]) ==> still_there(
            listeners,
            received,
        ) == listeners,
        (forall|i: int| 0 <= i < received.len() ==> !received[i]) ==> still_there(
            listeners,
            received,
        ).len() == 0,
        forall|i: int|
            0 <= i < listeners.len() && received[i] ==> still_there(listeners, received).contains(
                #[trigger] listeners[i],
            ),
        still_there(listeners, received).len() <= listeners.len(),
        listeners.len() > 0 && received.last() ==> still_there(listeners, received).len() > 0
            && still_there(listeners, received).last() == listeners.last(),
    decreases listeners.len(),
{
    if listeners.len() > 0 {
        let head = listeners.drop_last();
        let answers = received.drop_last();
        law_only_who_received_stays(head, answers);
        let before = still_there(head, answers);
        let all = still_there(listeners, received);
        assert forall|i: int| 0 <= i < listeners.len() && received[i] implies all.contains(
            #[trigger] listeners[i],
        ) by {
            if i < head.len() {
                assert(head[i] == listeners[i] && answers[i] == received[i]);
                let k = choose|k: int| 0 <= k < before.len() && before[k] == head[i];
                assert(all[k] == listeners[i]);
            } else {
                assert(all.last() == listeners[i]);
            }
        }
        if forall|i: int| 0 <= i < received.len() ==> received[i] {
            assert(forall|i: int| 0 <= i < answers.len() ==> answers[i] == received[i]);
            assert(head.push(listeners.last()) =~= listeners);
        }
        if forall|i: int| 0 <= i < received.len() ==> !received[i] {
            assert(forall|i: int| 0 <= i < answers.len() ==> answers[i] == received[i]);
        }
    } else {
        assert(still_there(listeners, received) =~= listeners);
    }
}

/// A subtitle that finds no room is counted, and its receiver stays; one whose receiver is gone is
/// not counted, and one that arrives is not either.
pub proof fn law_a_dropped_subtitle_is_counted(
    after: PlayerInner,
    before: PlayerInner,
    frame: PlayerSubtitleFrame,
)
    requires
        after.subtitle_given(before, frame),
        before.status.subtitle_frame_backpressure_drops < u64::MAX,
    ensures
        ({
            let had = before.status.subtitle_frame_backpressure_drops;
            let has = after.status.subtitle_frame_backpressure_drops;
            &&& has == had || has == had + 1
            &&& has == had + 1 ==> after.subtitle_frame_sender is Some
                && after.subtitle_frame_sender->0.fate() == Fate::Refused
            &&& after.subtitle_frame_sender is Some && after.subtitle_frame_sender->0.fate()
                == Fate::Refused && before.subtitle_frame_sender is Some ==> has == had + 1
            &&& before.subtitle_frame_sender is None ==> after.subtitle_frame_sender is None
            &&& after.subtitle_frame_sender is Some ==> after.subtitle_frame_sender->0.given().len()
                == before.subtitle_frame_sender->0.given().len() + 1
                && after.subtitle_frame_sender->0.given().last() == frame
        }),
{
}

/// A listener that stays was told of every event, in order, behind what it was told before, and took
/// them all.
pub proof fn law_a_listener_that_stays_heard_everything(
    after: Seq<Outlet<PlayerEvent>>,
    before: Seq<Outlet<PlayerEvent>>,
    gone_after: Seq<Outlet<PlayerEvent>>,
    gone_before: Seq<Outlet<PlayerEvent>>,
    events: Seq<PlayerEvent>,
    i: int,
)
    requires
        passed_on(after, before, gone_after, gone_before, events),
        0 <= i < after.len(),
    ensures
        after.len() + gone_after.len() == before.len() + gone_before.len(),
        exists|k: int|
            {
                &&& 0 <= k < before.len()
                &&& after[i].reader() == (#[trigger] before[k]).reader()
                &&& after[i].given().len() == before[k].given().len() + events.len()
                &&& forall|j: int|
                    0 <= j < before[k].given().len() ==> #[trigger] after[i].given()[j]
                        == before[k].given()[j]
                &&& forall|j: int|
                    0 <= j < events.len() ==> (#[trigger] events[j]).same(
                        after[i].given()[before[k].given().len() + j],
                    )
            },
{
    let (places, exits) = choose|places: Seq<int>, exits: Seq<int>|
        #![trigger parted(before.len(), places, exits)]
        {
            &&& parted(before.len(), places, exits)
            &&& kept_at(after, before, events, places)
            &&& left_at(gone_after, gone_before, before, events, exits)
        };
    let k = places[i];
    assert(heard(after[i], before[k], events));
}

/// A listener is let go only where there was an event that it did not take; of the events before that
/// it missed none.
pub proof fn law_only_who_did_not_take_an_event_is_let_go(
    after: Outlet<PlayerEvent>,
    before: Outlet<PlayerEvent>,
    events: Seq<PlayerEvent>,
)
    requires
        lost(after, before, events),
    ensures
        after.given().len() > before.given().len(),
        after.fate() == Fate::Lost,
        after.given().len() <= before.given().len() + events.len(),
        events.len() > 0,
        after.reader() == before.reader(),
        (events[0]).same(after.given()[before.given().len() as int]),
{
    let had = before.given().len() as int;
    let first = 0int;
    assert(events[first].same(after.given()[had + first]));
}

/// The listeners are told of the tracks and of the selection exactly where they are others than
/// before, of the tracks first, behind all that they are to be told already.
pub proof fn law_a_change_of_tracks_is_told(
    after: PlayerInner,
    before: PlayerInner,
    tracks: Vec<TrackInfo>,
    selection: TrackSelection,
)
    requires
        after.tracks_synced(before, tracks, selection),
    ensures
        after.status.track_selection == selection,
        after.outbox@.len() >= before.outbox@.len(),
        after.outbox@.subrange(0, before.outbox@.len() as int) == before.outbox@,
        tracks@ == before.tracks@ && before.status.track_selection == selection
            ==> after.outbox@.len() == before.outbox@.len() && after.tracks@ == before.tracks@,
        tracks@.len() != before.tracks@.len() ==> after.tracks@ == tracks@ && after.outbox@.len()
            > before.outbox@.len() && after.outbox@[before.outbox@.len() as int] is TracksChanged
            && after.outbox@[before.outbox@.len() as int]->TracksChanged_0@ == tracks@,
        before.status.track_selection != selection ==> after.outbox@.len() > before.outbox@.len()
            && after.outbox@.last() == PlayerEvent::TrackSelectionChanged(selection),
{
}

/// Two lists describe the same tracks only if each track has the same number, kind, mark and place.
pub proof fn law_another_track_is_another_list(a: Seq<TrackInfo>, b: Seq<TrackInfo>, i: int)
    requires
        0 <= i < a.len(),
        same_tracks(a, b),
    ensures
        a.len() == b.len(),
        a[i].id == b[i].id,
        a[i].kind == b[i].kind,
        a[i].selected == b[i].selected,
        a[i].source == b[i].source,
        a[i].can_remove == b[i].can_remove,
        a[i].width == b[i].width && a[i].height == b[i].height,
        a[i].sample_rate == b[i].sample_rate && a[i].channels == b[i].channels,
        a[i].title is Some <==> b[i].title is Some,
        a[i].title is Some ==> a[i].title->0@ == b[i].title->0@,
        a[i].language is Some <==> b[i].language is Some,
        a[i].language is Some ==> a[i].language->0@ == b[i].language->0@,
        a[i].codec is Some <==> b[i].codec is Some,
        a[i].codec is Some ==> a[i].codec->0@ == b[i].codec->0@,
{
    assert(described_alike(a[i], b[i]));
}

/// A list describes itself.
pub proof fn law_a_list_is_itself(a: Seq<TrackInfo>)
    ensures
        same_tracks(a, a),
{
}

/// Telling the listeners leaves nothing to be told, and neither status nor tracks are touched.
pub proof fn law_telling_leaves_nothing_untold(after: PlayerInner, before: PlayerInner)
    requires
        after.delivered(before),
    ensures
        after.outbox@.len() == 0,
        after.status == before.status,
        after.tracks == before.tracks,
        after.media == before.media,
        after.surface == before.surface,
        after.video_frame_sender == before.video_frame_sender,
        after.audio_frame_sender == before.audio_frame_sender,
        after.subtitle_frame_sender == before.subtitle_frame_sender,
        after.subscribers@.len() <= before.subscribers@.len(),
{
}

/// A message goes to the receiver that there is, once; a receiver that is gone is let go, and no
/// receiver comes from nowhere.
pub proof fn law_a_message_goes_to_its_receiver_once<T>(
    after: Option<Outlet<T>>,
    before: Option<Outlet<T>>,
    gone_after: Seq<Outlet<T>>,
    gone_before: Seq<Outlet<T>>,
    message: T,
)
    requires
        handed_out(after, before, gone_after, gone_before, message),
    ensures
        before is None ==> after is None && gone_after == gone_before,
        after is Some ==> before is Some && after->0.given().len() == before->0.given().len() + 1
            && after->0.given().last() == message && after->0.reader() == before->0.reader()
            && gone_after == gone_before,
        before is Some && after is None ==> gone_after.len() == gone_before.len() + 1
            && gone_after.last().given().last() == message && gone_after.last().fate()
            == Fate::Lost,
{
    if before is Some && after is None {
        let last = gone_after.last();
        assert(gone_before.push(last).len() == gone_before.len() + 1);
    }
}

/// What is done to one receiver, or to the status, leaves all others, the medium, the surface and the
/// tracks alone.
pub proof fn law_receivers_are_kept_apart(after: PlayerInner, before: PlayerInner)
    ensures
        after.same_but_status(before) ==> after.media == before.media && after.surface
            == before.surface && after.tracks == before.tracks && after.subscribers
            == before.subscribers && after.video_frame_sender == before.video_frame_sender
            && after.audio_frame_sender == before.audio_frame_sender && after.subtitle_frame_sender
            == before.subtitle_frame_sender && after.departed == before.departed,
        after.same_but_video(before) ==> after.status == before.status && after.media
            == before.media && after.surface == before.surface && after.tracks == before.tracks
            && after.subscribers == before.subscribers && after.outbox == before.outbox
            && after.audio_frame_sender == before.audio_frame_sender && after.subtitle_frame_sender
            == before.subtitle_frame_sender && after.departed@.listeners
            == before.departed@.listeners,
        after.same_but_audio(before) ==> after.status == before.status && after.media
            == before.media && after.surface == before.surface && after.tracks == before.tracks
            && after.subscribers == before.subscribers && after.outbox == before.outbox
            && after.video_frame_sender == before.video_frame_sender && after.subtitle_frame_sender
            == before.subtitle_frame_sender && after.departed@.listeners
            == before.departed@.listeners,
        after.same_but_subtitles(before) ==> after.status.state == before.status.state
            && after.status.playback_clock == before.status.playback_clock
            && after.status.playback_generation == before.status.playback_generation && after.media
            == before.media && after.surface == before.surface && after.tracks == before.tracks
            && after.subscribers == before.subscribers && after.outbox == before.outbox
            && after.video_frame_sender == before.video_frame_sender && after.audio_frame_sender
            == before.audio_frame_sender,
{
}

/// What is to be told stands behind what was to be told before.
pub proof fn law_news_queue_up(
    after: PlayerInner,
    before: PlayerInner,
    status: PlayerStatus,
    events: Seq<PlayerEvent>,
    i: int,
)
    requires
        after.became(before, status, events),
    ensures
        after.status == status,
        after.outbox@.len() == before.outbox@.len() + events.len(),
        0 <= i < before.outbox@.len() ==> after.outbox@[i] == before.outbox@[i],
        0 <= i < events.len() ==> after.outbox@[before.outbox@.len() + i] == events[i],
        after.media == before.media,
        after.tracks == before.tracks,
        after.subscribers == before.subscribers,
{
}

} // verus!
