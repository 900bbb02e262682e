//! Demuxing on a thread of its own: the worker's rules, and the handle that playback holds.
use crossbeam_channel::Receiver;
use crate::channel::{bounded_channel, unbounded_channel, Arrival, Inlet, Outlet};
use crate::packet::{Packet, StreamSelection};
use crate::playback::{PlaybackError, DEMUX_PACKET_QUEUE_LIMIT};
use crate::time::Duration;
use vstd::prelude::*;

verus! {

/// What the worker tells playback; every message carries the generation that it belongs to.
#[derive(Debug)]
pub enum DemuxMessage {
    Packet { generation: u64, packet: Packet },
    Eof { generation: u64 },
    Error { generation: u64, message: String },
}

/// What playback asks of the worker.
#[derive(Debug)]
pub enum DemuxCommand {
    Start { generation: u64 },
    SetSelection { generation: u64, selection: StreamSelection },
    Seek { generation: u64, position: Duration },
    Stop,
}

/// What a pump of the demuxer brings.
#[derive(Debug)]
pub enum PumpInput {
    Packet(Packet),
    Eof,
    Empty,
}

impl DemuxMessage {
    pub open spec fn carried_generation(self) -> u64 {
        match self {
            DemuxMessage::Packet { generation, .. } => generation,
            DemuxMessage::Eof { generation } => generation,
            DemuxMessage::Error { generation, .. } => generation,
        }
    }
}

pub fn demux_message_generation(message: &DemuxMessage) -> (r: u64)
    ensures
        r == message.carried_generation(),
{
    match message {
        DemuxMessage::Packet { generation, .. } => *generation,
        DemuxMessage::Eof { generation } => *generation,
        DemuxMessage::Error { generation, .. } => *generation,
    }
}

/// The state of the demux worker. A seek that was asked for while the worker stood still waits
/// until it starts.
#[derive(Clone, Copy, Debug, PartialEq, Eq)]
pub struct DemuxWorker {
    pub generation: u64,
    pub eof: bool,
    pub active: bool,
    pub pending_seek: Option<(u64, Duration)>,
}

/// What a command has the worker do.
#[derive(Debug)]
pub enum CommandStep {
    /// Nothing more is to be done.
    Done,
    /// The demuxer seeks; its result goes to [`DemuxWorker::finish_seek`].
    Seek(Duration),
    /// The demuxer takes a selection; its result goes to [`DemuxWorker::finish_selection`].
    Select(StreamSelection),
    Exit,
}

/// What the worker does between two commands.
#[derive(Clone, Copy, Debug, PartialEq, Eq, Structural)]
pub enum WorkerStep {
    WaitForCommand,
    ReadPacket,
}

/// What the worker does when it has offered a message.
#[derive(Clone, Copy, Debug, PartialEq, Eq, Structural)]
pub enum DeliveryOutcome {
    Delivered,
    /// There is no room: the worker waits a moment for a command and offers the message again.
    Retry,
    Exit,
}

impl DemuxWorker {
    pub open spec fn idle() -> DemuxWorker {
        DemuxWorker { generation: 1, eof: false, active: false, pending_seek: None }
    }

    pub fn new() -> (r: Self)
        ensures
            r == Self::idle(),
    {
        DemuxWorker { generation: 1, eof: false, active: false, pending_seek: None }
    }

    /// The worker after a command, before the demuxer has done its part.
    pub open spec fn told(self, command: DemuxCommand) -> DemuxWorker {
        match command {
            DemuxCommand::Start { generation } => match self.pending_seek {
                Some(seek) => DemuxWorker {
                    generation: seek.0,
                    eof: false,
                    active: self.active,
                    pending_seek: None,
                },
                None => DemuxWorker { generation, active: true, ..self },
            },
            DemuxCommand::SetSelection { generation, .. } => DemuxWorker {
                generation,
                eof: false,
                active: false,
                pending_seek: match self.pending_seek {
                    Some(seek) => Some((generation, seek.1)),
                    None => None,
                },
            },
            DemuxCommand::Seek { generation, position } => DemuxWorker {
                generation,
                eof: false,
                active: false,
                pending_seek: Some((generation, position)),
            },
            DemuxCommand::Stop => self,
        }
    }

    /// Takes a command. A selection keeps a seek that is still to come, and moves it to its own
    /// generation, so that its packets are not taken for stale ones.
    pub fn handle_demux_command(&mut self, command: DemuxCommand) -> (r: CommandStep)
        ensures
            *final(self) == old(self).told(command),
            r == (match command {
                DemuxCommand::Start { .. } => match old(self).pending_seek {
                    Some(seek) => CommandStep::Seek(seek.1),
                    None => CommandStep::Done,
                },
                DemuxCommand::SetSelection { selection, .. } => CommandStep::Select(selection),
                DemuxCommand::Seek { .. } => CommandStep::Done,
                DemuxCommand::Stop => CommandStep::Exit,
            }),
    {
        match command {
            DemuxCommand::Start { generation } => {
                self.generation = generation;
                match self.pending_seek {
                    Some((seek_generation, position)) => {
                        self.pending_seek = None;
                        self.generation = seek_generation;
                        self.eof = false;
                        CommandStep::Seek(position)
                    },
                    None => {
                        self.active = true;
                        CommandStep::Done
                    },
                }
            },
            DemuxCommand::SetSelection { generation, selection } => {
                self.generation = generation;
                self.eof = false;
                self.active = false;
                if let Some((_, position)) = self.pending_seek {
                    self.pending_seek = Some((generation, position));
                }
                CommandStep::Select(selection)
            },
            DemuxCommand::Seek { generation, position } => {
                self.generation = generation;
                self.eof = false;
                self.active = false;
                self.pending_seek = Some((generation, position));
                CommandStep::Done
            },
            DemuxCommand::Stop => CommandStep::Exit,
        }
    }

    /// Whether `message` reports `error` under the worker's generation; without an error there is
    /// no message.
    pub open spec fn reports(self, message: Option<DemuxMessage>, error: Option<String>) -> bool {
        match error {
            None => message is None,
            Some(error) => message == Some(
                DemuxMessage::Error { generation: self.generation, message: error },
            ),
        }
    }

    /// Goes on when the demuxer has sought: a failed seek is told, and the worker stands still.
    pub fn finish_seek(&mut self, error: Option<String>) -> (r: Option<DemuxMessage>)
        ensures
            *final(self) == (if error is None {
                DemuxWorker { active: true, ..*old(self) }
            } else {
                DemuxWorker { eof: true, active: false, ..*old(self) }
            }),
            old(self).reports(r, error),
    {
        match error {
            None => {
                self.active = true;
                None
            },
            Some(message) => {
                self.eof = true;
                self.active = false;
                Some(DemuxMessage::Error { generation: self.generation, message })
            },
        }
    }

    /// Goes on when the demuxer has taken a selection: a refused one is told, and the worker
    /// reads no more.
    pub fn finish_selection(&mut self, error: Option<String>) -> (r: Option<DemuxMessage>)
        ensures
            *final(self) == (if error is None {
                *old(self)
            } else {
                DemuxWorker { eof: true, ..*old(self) }
            }),
            old(self).reports(r, error),
    {
        match error {
            None => None,
            Some(message) => {
                self.eof = true;
                Some(DemuxMessage::Error { generation: self.generation, message })
            },
        }
    }

    /// What the worker does when no command is waiting.
    pub open spec fn goes_on_with(self) -> WorkerStep {
        if self.eof || !self.active {
            WorkerStep::WaitForCommand
        } else {
            WorkerStep::ReadPacket
        }
    }

    pub fn next_step(&self) -> (r: WorkerStep)
        ensures
            r == self.goes_on_with(),
    {
        if self.eof || !self.active {
            WorkerStep::WaitForCommand
        } else {
            WorkerStep::ReadPacket
        }
    }

    /// Turns what was read into the message that is due. Behind the end, and behind an error,
    /// nothing more is read.
    pub fn finish_read(&mut self, read: Result<Option<Packet>, String>) -> (r: DemuxMessage)
        ensures
            r.carried_generation() == old(self).generation,
            *final(self) == (if read is Ok && read->Ok_0 is Some {
                *old(self)
            } else {
                DemuxWorker { eof: true, ..*old(self) }
            }),
            r == (match read {
                Ok(Some(packet)) => DemuxMessage::Packet {
                    generation: old(self).generation,
                    packet,
                },
                Ok(None) => DemuxMessage::Eof { generation: old(self).generation },
                Err(message) => DemuxMessage::Error { generation: old(self).generation, message },
            }),
    {
        match read {
            Ok(Some(packet)) => DemuxMessage::Packet { generation: self.generation, packet },
            Ok(None) => {
                self.eof = true;
                DemuxMessage::Eof { generation: self.generation }
            },
            Err(message) => {
                self.eof = true;
                DemuxMessage::Error { generation: self.generation, message }
            },
        }
    }

    /// Whether a message that waits for room is given up, because a command has overtaken it.
    pub open spec fn gives_up(self, message_generation: u64) -> bool {
        !self.active || self.generation != message_generation
    }

    pub fn abandons(&self, message_generation: u64) -> (r: bool)
        ensures
            r == self.gives_up(message_generation),
    {
        !self.active || self.generation != message_generation
    }
}

/// What the worker does when it has offered a message.
pub fn after_offer(sent: bool, disconnected: bool) -> (r: DeliveryOutcome)
    ensures
        r == (if sent {
            DeliveryOutcome::Delivered
        } else if disconnected {
            DeliveryOutcome::Exit
        } else {
            DeliveryOutcome::Retry
        }),
{
    if sent {
        DeliveryOutcome::Delivered
    } else if disconnected {
        DeliveryOutcome::Exit
    } else {
        DeliveryOutcome::Retry
    }
}

/// A seek that is asked for before the worker starts is done when it starts, whatever selections
/// come in between, and under the generation of the last one.
pub proof fn law_a_waiting_seek_survives_selections(
    worker: DemuxWorker,
    seek_generation: u64,
    position: Duration,
    selections: Seq<(u64, StreamSelection)>,
    start: u64,
)
    ensures
        ({
            let sought = worker.told(
                DemuxCommand::Seek { generation: seek_generation, position },
            );
            let chosen = after_selections(sought, selections);
            let last = if selections.len() == 0 {
                seek_generation
            } else {
                selections.last().0
            };
            &&& chosen.pending_seek == Some((last, position))
            &&& chosen.told(DemuxCommand::Start { generation: start }).generation == last
            &&& chosen.told(DemuxCommand::Start { generation: start }).pending_seek is None
        }),
    decreases selections.len(),
{
    if selections.len() > 0 {
        law_a_waiting_seek_survives_selections(
            worker,
            seek_generation,
            position,
            selections.drop_last(),
            start,
        );
    }
}

/// The worker after a run of selections.
pub open spec fn after_selections(
    worker: DemuxWorker,
    selections: Seq<(u64, StreamSelection)>,
) -> DemuxWorker
    decreases selections.len(),
{
    if selections.len() == 0 {
        worker
    } else {
        let last = selections.last();
        after_selections(worker, selections.drop_last()).told(
            DemuxCommand::SetSelection { generation: last.0, selection: last.1 },
        )
    }
}

/// Between a seek or a selection and the next start the worker reads nothing, and what it was
/// about to tell is given up.
pub proof fn law_a_restarted_worker_stands_still(worker: DemuxWorker, command: DemuxCommand)
    requires
        command is Seek || command is SetSelection,
    ensures
        worker.told(command).goes_on_with() == WorkerStep::WaitForCommand,
        forall|generation: u64| worker.told(command).gives_up(generation),
{
}

/// The next generation; it is never zero, and it grows until it reaches the largest number.
pub open spec fn next_generation(generation: u64) -> u64 {
    if generation == u64::MAX { generation } else { (generation + 1) as u64 }
}

fn following_generation(generation: u64) -> (r: u64)
    ensures
        r == next_generation(generation),
        r >= 1,
{
    generation.saturating_add(1)
}

/// What a received message is to playback.
#[derive(Debug)]
pub enum PollStep {
    Finished(Result<PumpInput, PlaybackError>),
    /// The message is stale: the next one is looked at.
    Next,
}

/// The handle on the demux worker that playback holds.
pub struct AsyncDemuxer {
    pub packets: Inlet<DemuxMessage>,
    pub commands: Outlet<DemuxCommand>,
    pub generation: u64,
    pub active: bool,
}

/// Whether `result` says that the worker takes no more commands.
pub open spec fn command_channel_closed<T>(result: Result<T, PlaybackError>) -> bool {
    &&& result is Err
    &&& result->Err_0 is DemuxWorker
    &&& result->Err_0->DemuxWorker_0@ == "demux command channel closed"@
}

fn read_sent(sent: bool) -> (r: Result<(), PlaybackError>)
    ensures
        r is Ok <==> sent,
        !sent ==> command_channel_closed(r),
{
    if sent {
        Ok(())
    } else {
        Err(PlaybackError::DemuxWorker("demux command channel closed".to_owned()))
    }
}

/// What a message is to a reader of a generation. Messages of other generations are stale.
pub open spec fn reads(generation: u64, message: DemuxMessage) -> PollStep {
    if message.carried_generation() != generation {
        PollStep::Next
    } else {
        match message {
            DemuxMessage::Packet { packet, .. } => PollStep::Finished(Ok(PumpInput::Packet(packet))),
            DemuxMessage::Eof { .. } => PollStep::Finished(Ok(PumpInput::Eof)),
            DemuxMessage::Error { message, .. } => PollStep::Finished(
                Err(PlaybackError::DemuxWorker(message)),
            ),
        }
    }
}

/// Whether an arrival is passed over by a reader of a generation: a stale message is.
pub open spec fn passed_over(generation: u64, arrival: Arrival<DemuxMessage>) -> bool {
    arrival is Message && reads(generation, arrival->Message_0) is Next
}

/// Whether `r` is what an arrival is to a reader of a generation.
pub open spec fn answers(
    generation: u64,
    arrival: Arrival<DemuxMessage>,
    r: Result<PumpInput, PlaybackError>,
) -> bool {
    match arrival {
        Arrival::Message(message) => reads(generation, message) == PollStep::Finished(r),
        Arrival::Empty => r == Ok::<PumpInput, PlaybackError>(PumpInput::Empty),
        Arrival::Disconnected => r is Err && r->Err_0 is DemuxWorker && r->Err_0->DemuxWorker_0@
            == "demux packet channel closed"@,
    }
}

/// Reads one arrival for a generation.
pub fn read_arrival(generation: u64, arrival: Arrival<DemuxMessage>) -> (r: PollStep)
    ensures
        arrival is Message ==> r == reads(generation, arrival->Message_0),
        arrival is Empty ==> r == PollStep::Finished(Ok(PumpInput::Empty)),
        arrival is Disconnected ==> r is Finished && r->0 is Err && r->0->Err_0 is DemuxWorker
            && r->0->Err_0->DemuxWorker_0@ == "demux packet channel closed"@,
{
    match arrival {
        Arrival::Message(message) => {
            if demux_message_generation(&message) != generation {
                return PollStep::Next;
            }
            match message {
                DemuxMessage::Packet { packet, .. } => PollStep::Finished(
                    Ok(PumpInput::Packet(packet)),
                ),
                DemuxMessage::Eof { .. } => PollStep::Finished(Ok(PumpInput::Eof)),
                DemuxMessage::Error { message, .. } => PollStep::Finished(
                    Err(PlaybackError::DemuxWorker(message)),
                ),
            }
        },
        Arrival::Empty => PollStep::Finished(Ok(PumpInput::Empty)),
        Arrival::Disconnected => PollStep::Finished(
            Err(PlaybackError::DemuxWorker("demux packet channel closed".to_owned())),
        ),
    }
}

impl AsyncDemuxer {
    /// Whether a seek was asked for, in a new generation.
    pub open spec fn sought(self, before: AsyncDemuxer, position: Duration) -> bool {
        let generation = next_generation(before.generation);
        &&& self.generation == generation
        &&& !self.active
        &&& self.packets.emptied(before.packets)
        &&& self.commands.gave(before.commands, DemuxCommand::Seek { generation, position })
    }

    /// Whether other streams were asked for, in a new generation.
    pub open spec fn chose(self, before: AsyncDemuxer, selection: StreamSelection) -> bool {
        let generation = next_generation(before.generation);
        &&& self.generation == generation
        &&& !self.active
        &&& self.packets.emptied(before.packets)
        &&& self.commands.gave(before.commands, DemuxCommand::SetSelection { generation, selection })
    }

    /// Whether the worker was told to start, where it did not run. It runs if it took that.
    pub open spec fn started(self, before: AsyncDemuxer) -> bool {
        &&& self.generation == before.generation
        &&& self.packets == before.packets
        &&& before.active ==> self == before
        &&& !before.active ==> self.commands.gave(
            before.commands,
            DemuxCommand::Start { generation: before.generation },
        ) && (self.active <==> self.took_command())
    }

    /// Whether the worker took the last command.
    pub open spec fn took_command(self) -> bool {
        self.commands.fate() == crate::channel::Fate::Taken
    }

    /// Makes the handle, and the halves of its channels that the worker's thread gets.
    pub fn new() -> (r: (Self, Outlet<DemuxMessage>, Receiver<DemuxCommand>))
        ensures
            r.0.generation == 1,
            !r.0.active,
            r.0.commands.unused(),
            r.0.commands.reader() == r.2,
            r.0.commands.room() is None,
            r.1.unused(),
            r.1.reader() == r.0.packets.half(),
            r.1.room() == Some(DEMUX_PACKET_QUEUE_LIMIT as nat),
            r.0.packets.taken() == Seq::<Arrival<DemuxMessage>>::empty(),
    {
        assert(DEMUX_PACKET_QUEUE_LIMIT <= usize::MAX / 65_536);
        let (packet_outlet, packets) = bounded_channel(DEMUX_PACKET_QUEUE_LIMIT);
        let (commands, command_receiver) = unbounded_channel();
        (
            AsyncDemuxer {
                packets: Inlet::over(packets),
                commands,
                generation: 1,
                active: false,
            },
            packet_outlet,
            command_receiver,
        )
    }

    /// The command that starts the worker, where it does not run.
    pub fn start_command(&self) -> (r: Option<DemuxCommand>)
        ensures
            r == (if self.active {
                None
            } else {
                Some(DemuxCommand::Start { generation: self.generation })
            }),
    {
        if self.active {
            return None;
        }
        Some(DemuxCommand::Start { generation: self.generation })
    }

    /// Goes on when the start was sent.
    pub fn finish_start(&mut self, sent: bool) -> (r: Result<(), PlaybackError>)
        ensures
            r is Ok <==> sent,
            !sent ==> command_channel_closed(r),
            *final(self) == (AsyncDemuxer { active: old(self).active || sent, ..*old(self) }),
    {
        if sent {
            self.active = true;
        }
        read_sent(sent)
    }

    /// Starts the worker, where it does not run.
    pub fn start(&mut self) -> (r: Result<(), PlaybackError>)
        ensures
            final(self).started(*old(self)),
            r is Ok <==> final(self).active,
            r is Err ==> command_channel_closed(r),
    {
        match self.start_command() {
            None => Ok(()),
            Some(command) => {
                let sent = self.commands.give(command);
                self.finish_start(sent)
            },
        }
    }

    /// Begins a new generation with a selection: the command that says so.
    pub fn selection_command(&mut self, selection: StreamSelection) -> (r: DemuxCommand)
        ensures
            *final(self) == (AsyncDemuxer {
                generation: next_generation(old(self).generation),
                active: false,
                ..*old(self)
            }),
            r == (DemuxCommand::SetSelection {
                generation: next_generation(old(self).generation),
                selection,
            }),
    {
        self.generation = following_generation(self.generation);
        self.active = false;
        DemuxCommand::SetSelection { generation: self.generation, selection }
    }

    /// Chooses the streams that are passed on, in a new generation.
    pub fn set_stream_selection(&mut self, selection: StreamSelection) -> (r: Result<
        (),
        PlaybackError,
    >)
        ensures
            final(self).chose(*old(self), selection),
            r is Ok <==> final(self).took_command(),
            r is Err ==> command_channel_closed(r),
    {
        let command = self.selection_command(selection);
        self.drain_stale_packets();
        let sent = self.commands.give(command);
        read_sent(sent)
    }

    /// Begins a new generation with a seek: the command that says so.
    pub fn seek_command(&mut self, position: Duration) -> (r: DemuxCommand)
        ensures
            *final(self) == (AsyncDemuxer {
                generation: next_generation(old(self).generation),
                active: false,
                ..*old(self)
            }),
            r == (DemuxCommand::Seek {
                generation: next_generation(old(self).generation),
                position,
            }),
    {
        self.generation = following_generation(self.generation);
        self.active = false;
        DemuxCommand::Seek { generation: self.generation, position }
    }

    /// Seeks, in a new generation.
    pub fn seek(&mut self, position: Duration) -> (r: Result<(), PlaybackError>)
        ensures
            final(self).sought(*old(self), position),
            r is Ok <==> final(self).took_command(),
            r is Err ==> command_channel_closed(r),
    {
        let command = self.seek_command(position);
        self.drain_stale_packets();
        let sent = self.commands.give(command);
        read_sent(sent)
    }

    /// Whether the worker was asked for a packet: it was told to start where it did not run, and
    /// where it runs, what arrived was taken until something of this generation was there, or nothing
    /// at all, which is `r`. What came before that is stale.
    pub open spec fn polled(
        self,
        before: AsyncDemuxer,
        r: Result<PumpInput, PlaybackError>,
    ) -> bool {
        let had = before.packets.taken().len() as int;
        let has = self.packets.taken().len() as int;
        &&& (AsyncDemuxer { packets: before.packets, ..self }).started(before)
        &&& !self.active ==> self.packets == before.packets && command_channel_closed(r)
        &&& self.active ==> {
            &&& self.packets.went_on(before.packets)
            &&& had < has
            &&& forall|i: int|
                had <= i < has - 1 ==> passed_over(
                    self.generation,
                    #[trigger] self.packets.taken()[i],
                )
            &&& answers(self.generation, self.packets.taken().last(), r) || (passed_over(
                self.generation,
                self.packets.taken().last(),
            ) && has == had + u64::MAX && r == Ok::<PumpInput, PlaybackError>(PumpInput::Empty))
        }
    }

    /// The next packet of this generation, without waiting. Messages of older generations are
    /// passed over. What arrives depends on other threads.
    pub fn poll(&mut self) -> (r: Result<PumpInput, PlaybackError>)
        ensures
            final(self).polled(*old(self), r),
            r is Ok ==> final(self).active,
            r is Err ==> r->Err_0 is DemuxWorker,
    {
        if let Err(error) = self.start() {
            return Err(error);
        }
        let ghost running = *self;
        let mut left: u64 = u64::MAX;
        while left > 0
            invariant
                running.started(*old(self)),
                running.active,
                *self == (AsyncDemuxer { packets: self.packets, ..running }),
                self.packets.went_on(old(self).packets),
                self.packets.taken().len() == old(self).packets.taken().len() + (u64::MAX - left),
                forall|i: int|
                    old(self).packets.taken().len() <= i < self.packets.taken().len()
                        ==> passed_over(self.generation, #[trigger] self.packets.taken()[i]),
            decreases left,
        {
            let ghost before = self.packets;
            let arrival = self.packets.take();
            assert(forall|i: int|
                0 <= i < before.taken().len() ==> self.packets.taken()[i] == before.taken()[i]);
            assert(old(self).packets.taken() =~= self.packets.taken().subrange(
                0,
                old(self).packets.taken().len() as int,
            ));
            match read_arrival(self.generation, arrival) {
                PollStep::Finished(result) => {
                    return result;
                },
                PollStep::Next => {},
            }
            left = left - 1;
        }
        Ok(PumpInput::Empty)
    }

    /// Throws away what has arrived until nothing more is there. What arrives depends on other
    /// threads.
    pub fn drain_stale_packets(&mut self)
        ensures
            *final(self) == (AsyncDemuxer { packets: final(self).packets, ..*old(self) }),
            final(self).packets.emptied(old(self).packets),
    {
        self.packets.empty();
    }
}

/// A new generation outlives every message of an older one: none of them is taken for its own,
/// as long as generations can still be told apart.
pub proof fn law_stale_messages_are_passed_over(generation: u64, message: DemuxMessage)
    requires
        message.carried_generation() <= generation,
        generation < u64::MAX,
    ensures
        reads(next_generation(generation), message) is Next,
{
}

/// Every seek and every selection opens a generation of its own, and no message of an earlier one is
/// read in it; a message of the generation itself is read as it is.
pub proof fn law_each_order_opens_a_generation(
    before: AsyncDemuxer,
    after: AsyncDemuxer,
    position: Duration,
    selection: StreamSelection,
    message: DemuxMessage,
)
    requires
        after.sought(before, position) || after.chose(before, selection),
        before.generation < u64::MAX,
    ensures
        after.generation == before.generation + 1,
        !after.active,
        match message {
            DemuxMessage::Packet { generation, packet } => {
                &&& generation <= before.generation ==> reads(after.generation, message) is Next
                &&& generation == after.generation ==> reads(after.generation, message)
                    == PollStep::Finished(Ok(PumpInput::Packet(packet)))
            },
            DemuxMessage::Eof { generation } => {
                &&& generation <= before.generation ==> reads(after.generation, message) is Next
                &&& generation == after.generation ==> reads(after.generation, message)
                    == PollStep::Finished(Ok(PumpInput::Eof))
            },
            DemuxMessage::Error { generation, message: text } => {
                &&& generation <= before.generation ==> reads(after.generation, message) is Next
                &&& generation == after.generation ==> reads(after.generation, message)
                    == PollStep::Finished(Err(PlaybackError::DemuxWorker(text)))
            },
        },
{
}

/// A worker does what it was told last: a seek is kept until it starts and then done under its
/// generation, a start without one only sets it to work.
pub proof fn law_a_worker_does_what_it_is_told(
    worker: DemuxWorker,
    generation: u64,
    position: Duration,
    selection: StreamSelection,
)
    ensures
        ({
            let sought = worker.told(DemuxCommand::Seek { generation, position });
            &&& sought.generation == generation
            &&& !sought.eof && !sought.active
            &&& sought.pending_seek == Some((generation, position))
        }),
        ({
            let chosen = worker.told(DemuxCommand::SetSelection { generation, selection });
            &&& chosen.generation == generation
            &&& !chosen.eof && !chosen.active
            &&& chosen.pending_seek is Some <==> worker.pending_seek is Some
        }),
        ({
            let started = worker.told(DemuxCommand::Start { generation });
            &&& started.pending_seek is None
            &&& worker.pending_seek is None ==> started.active && started.generation == generation
                && started.eof == worker.eof
            &&& worker.pending_seek is Some ==> !started.eof && started.generation == (
            worker.pending_seek->0).0
        }),
        worker.told(DemuxCommand::Stop) == worker,
{
}

/// A worker reads on only while it is at work and the medium is not at its end; a message that waits
/// is given up once its generation is over or the worker has stopped.
pub proof fn law_when_a_worker_reads(worker: DemuxWorker, message_generation: u64)
    ensures
        worker.goes_on_with() == WorkerStep::ReadPacket <==> (worker.active && !worker.eof),
        worker.goes_on_with() == WorkerStep::WaitForCommand <==> (!worker.active || worker.eof),
        worker.active && worker.generation == message_generation ==> !worker.gives_up(
            message_generation,
        ),
        worker.generation != message_generation || !worker.active ==> worker.gives_up(
            message_generation,
        ),
{
}

/// An error is reported under the generation in which it came up, with its own words.
pub proof fn law_an_error_is_reported_with_its_words(
    worker: DemuxWorker,
    message: Option<DemuxMessage>,
    error: Option<String>,
)
    requires
        worker.reports(message, error),
    ensures
        message is Some <==> error is Some,
        message is Some ==> message->0 is Error && message->0->Error_generation
            == worker.generation && message->0->Error_message == error->0,
{
}

/// A worker that has just been made reads nothing before it is told to, and is of the first
/// generation.
pub proof fn law_a_new_worker_waits()
    ensures
        DemuxWorker::idle().goes_on_with() == WorkerStep::WaitForCommand,
        DemuxWorker::idle().generation == 1,
        DemuxWorker::idle().pending_seek is None,
        DemuxWorker::idle().told(
            (DemuxCommand::Start { generation: 1 }),
        ).goes_on_with() == WorkerStep::ReadPacket,
{
}

/// What a poll answers is the last thing that arrived: nothing where nothing was there, an error
/// where the worker is gone, and otherwise a message of the generation that is read, never a stale
/// one. All that arrived before it was stale.
pub proof fn law_a_poll_answers_with_its_own_generation(
    after: AsyncDemuxer,
    before: AsyncDemuxer,
    packet: Packet,
    i: int,
)
    requires
        after.polled(before, Ok(PumpInput::Packet(packet))),
    ensures
        after.active,
        after.generation == before.generation,
        after.packets.taken().len() > before.packets.taken().len(),
        after.packets.taken().last() is Message,
        after.packets.taken().last()->Message_0 is Packet,
        after.packets.taken().last()->Message_0->Packet_generation == before.generation,
        after.packets.taken().last()->Message_0->packet == packet,
        before.packets.taken().len() <= i < after.packets.taken().len() - 1
            ==> after.packets.taken()[i] is Message && after.packets.taken()[i]->Message_0.carried_generation()
            != before.generation,
{
}

/// The end of the medium and an empty channel are told apart.
pub proof fn law_a_poll_tells_the_end_from_nothing(
    generation: u64,
    message: DemuxMessage,
    r: Result<PumpInput, PlaybackError>,
)
    ensures
        answers(generation, Arrival::Empty, r) <==> r == Ok::<PumpInput, PlaybackError>(
            PumpInput::Empty,
        ),
        answers(generation, Arrival::Disconnected, r) ==> r is Err,
        answers(generation, Arrival::Message((DemuxMessage::Eof { generation })), r) <==> r == Ok::<
            PumpInput,
            PlaybackError,
        >(PumpInput::Eof),
        message.carried_generation() != generation ==> passed_over(
            generation,
            Arrival::Message(message),
        ),
        message.carried_generation() == generation ==> !passed_over(
            generation,
            Arrival::Message(message),
        ),
{
}

/// A worker that runs is not told to start again; one that does not is told so once, in the
/// generation that is read, and runs if it took that.
pub proof fn law_a_worker_is_started_once(after: AsyncDemuxer, before: AsyncDemuxer)
    requires
        after.started(before),
    ensures
        before.active ==> after == before,
        !before.active ==> after.commands.given().len() == before.commands.given().len() + 1
            && after.commands.given().last() is Start
            && after.commands.given().last()->Start_generation == before.generation && (after.active
            <==> after.commands.fate() == crate::channel::Fate::Taken),
        after.generation == before.generation,
        after.packets == before.packets,
{
}

} // verus!
