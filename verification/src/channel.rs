//! The channels between the player's threads.
use crossbeam_channel::{Receiver, Sender};
use vstd::prelude::*;

verus! {

/// The sending half of a channel of `crossbeam_channel`.
#[verifier::external_type_specification]
#[verifier::external_body]
#[verifier::reject_recursive_types(T)]
pub struct ExSender<T>(Sender<T>);

/// The receiving half of a channel of `crossbeam_channel`.
#[verifier::external_type_specification]
#[verifier::external_body]
#[verifier::reject_recursive_types(T)]
pub struct ExReceiver<T>(Receiver<T>);

/// What became of a message that was given to a channel.
#[derive(Clone, Copy, Debug, PartialEq, Eq, Structural)]
pub enum Fate {
    Taken,
    /// There was no room for it.
    Refused,
    /// Nobody received any more.
    Lost,
}

/// The sending half of a channel, with the messages that were given to it through this half, and
/// what became of each.
#[verifier::reject_recursive_types(T)]
pub struct Outlet<T> {
    sender: Sender<T>,
    given: Ghost<Seq<T>>,
    fates: Ghost<Seq<Fate>>,
    reader: Ghost<Receiver<T>>,
    room: Ghost<Option<nat>>,
}

/// The receiving half of a channel, with what its tries to receive came to.
#[verifier::reject_recursive_types(T)]
pub struct Inlet<T> {
    receiver: Receiver<T>,
    taken: Ghost<Seq<Arrival<T>>>,
}

/// What a try to send came to.
#[derive(Debug)]
pub enum Offer<T> {
    Sent,
    /// There is no room; the message comes back.
    Full(T),
    /// Nobody receives any more; the message comes back.
    Disconnected(T),
}

impl<T> Offer<T> {
    /// What became of the message.
    pub open spec fn fate(self) -> Fate {
        match self {
            Offer::Sent => Fate::Taken,
            Offer::Full(_) => Fate::Refused,
            Offer::Disconnected(_) => Fate::Lost,
        }
    }
}

/// What a try to receive came to.
#[derive(Debug)]
pub enum Arrival<T> {
    Message(T),
    Empty,
    Disconnected,
}

/// Makes a channel by `crossbeam_channel::bounded`: what is given to the one half arrives at the
/// other, and at most `capacity` messages wait in between. The function panics for a capacity that no
/// memory can hold; one message takes far less than 64 KiB, so a smaller share of the address
/// space is safe. Nothing is said of what the channel holds, which depends on other threads.
#[verifier::external_body]
pub(crate) fn bounded_channel<T>(capacity: usize) -> (r: (Outlet<T>, Receiver<T>))
    requires
        capacity <= usize::MAX / 65_536,
    ensures
        r.0.unused(),
        r.0.reader() == r.1,
        r.0.room() == Some(capacity as nat),
{
    let (sender, receiver) = crossbeam_channel::bounded(capacity);
    let outlet = Outlet {
        sender,
        given: Ghost(Seq::empty()),
        fates: Ghost(Seq::empty()),
        reader: Ghost(receiver),
        room: Ghost(Some(capacity as nat)),
    };
    (outlet, receiver)
}

/// Makes a channel by `crossbeam_channel::unbounded`: what is given to the one half arrives at the
/// other, and any number of messages may wait in between. Nothing is said of what the channel holds,
/// which depends on other threads.
#[verifier::external_body]
pub(crate) fn unbounded_channel<T>() -> (r: (Outlet<T>, Receiver<T>))
    ensures
        r.0.unused(),
        r.0.reader() == r.1,
        r.0.room() is None,
{
    let (sender, receiver) = crossbeam_channel::unbounded();
    let outlet = Outlet {
        sender,
        given: Ghost(Seq::empty()),
        fates: Ghost(Seq::empty()),
        reader: Ghost(receiver),
        room: Ghost(None),
    };
    (outlet, receiver)
}

/// Sends a message by `Sender::send`, which waits for room, and says whether anybody receives.
/// That depends on other threads, so nothing is said of the result.
#[verifier::external_body]
fn send<T>(sender: &Sender<T>, message: T) -> (r: bool) {
    sender.send(message).is_ok()
}

/// Tries to send a message by `Sender::try_send`. Whether it is taken depends on other threads; a
/// message that is not taken comes back as it was.
#[verifier::external_body]
fn try_send<T>(sender: &Sender<T>, message: T) -> (r: Offer<T>)
    ensures
        r is Full ==> r->Full_0 == message,
        r is Disconnected ==> r->Disconnected_0 == message,
{
    match sender.try_send(message) {
        Ok(()) => Offer::Sent,
        Err(crossbeam_channel::TrySendError::Full(message)) => Offer::Full(message),
        Err(crossbeam_channel::TrySendError::Disconnected(message)) => Offer::Disconnected(message),
    }
}

impl<T> Outlet<T> {
    /// The outlet of a sending half that was made elsewhere, and that nothing has been given to. Who
    /// receives is not known of it.
    pub fn over(sender: Sender<T>) -> (r: Self)
        ensures
            r.half() == sender,
            r.unused(),
    {
        Outlet {
            sender,
            given: Ghost(Seq::empty()),
            fates: Ghost(Seq::empty()),
            reader: Ghost(arbitrary()),
            room: Ghost(arbitrary()),
        }
    }

    pub fn sender(&self) -> (r: &Sender<T>)
        ensures
            *r == self.half(),
    {
        &self.sender
    }

    /// The sending half itself.
    pub closed spec fn half(self) -> Sender<T> {
        self.sender
    }

    /// The messages that were given to the outlet, in order.
    pub closed spec fn given(self) -> Seq<T> {
        self.given@
    }

    /// What became of each message.
    pub closed spec fn fates(self) -> Seq<Fate> {
        self.fates@
    }

    /// The receiving half at which the messages arrive.
    pub closed spec fn reader(self) -> Receiver<T> {
        self.reader@
    }

    /// How many messages may wait in the channel, where there is a limit.
    pub closed spec fn room(self) -> Option<nat> {
        self.room@
    }

    /// Whether two outlets lead into the same channel.
    pub open spec fn same_channel(self, other: Outlet<T>) -> bool {
        &&& self.half() == other.half()
        &&& self.reader() == other.reader()
        &&& self.room() == other.room()
    }

    /// Whether nothing was given to the outlet yet.
    pub open spec fn unused(self) -> bool {
        &&& self.given() == Seq::<T>::empty()
        &&& self.fates() == Seq::<Fate>::empty()
    }

    /// What became of the last message.
    pub open spec fn fate(self) -> Fate {
        self.fates().last()
    }

    /// Whether one more message was given to the outlet.
    pub open spec fn gave(self, before: Outlet<T>, message: T) -> bool {
        &&& self.same_channel(before)
        &&& self.given() == before.given().push(message)
        &&& self.fates() == before.fates().push(self.fate())
    }

    /// Sends a message, and waits for room. Whether anybody receives depends on other threads.
    pub fn give(&mut self, message: T) -> (r: bool)
        ensures
            final(self).gave(*old(self), message),
            final(self).fate() == (if r {
                Fate::Taken
            } else {
                Fate::Lost
            }),
    {
        self.given = Ghost(self.given@.push(message));
        let taken = send(&self.sender, message);
        self.fates = Ghost(
            self.fates@.push(
                if taken {
                    Fate::Taken
                } else {
                    Fate::Lost
                },
            ),
        );
        taken
    }

    /// Sends a message where there is room for it. Whether there is depends on other threads; a
    /// message that is not taken comes back.
    pub fn offer(&mut self, message: T) -> (r: Offer<T>)
        ensures
            final(self).gave(*old(self), message),
            final(self).fate() == r.fate(),
            r is Full ==> r->Full_0 == message,
            r is Disconnected ==> r->Disconnected_0 == message,
    {
        self.given = Ghost(self.given@.push(message));
        let offer = try_send(&self.sender, message);
        self.fates = Ghost(self.fates@.push(offer.fate()));
        offer
    }
}

/// Tries to receive a message by `Receiver::try_recv`. What arrives depends on other threads, so
/// nothing is said of the result.
#[verifier::external_body]
fn try_recv<T>(receiver: &Receiver<T>) -> (r: Arrival<T>) {
    match receiver.try_recv() {
        Ok(message) => Arrival::Message(message),
        Err(crossbeam_channel::TryRecvError::Empty) => Arrival::Empty,
        Err(crossbeam_channel::TryRecvError::Disconnected) => Arrival::Disconnected,
    }
}

impl<T> Inlet<T> {
    /// The inlet of a receiving half that nothing has been taken from.
    pub fn over(receiver: Receiver<T>) -> (r: Self)
        ensures
            r.half() == receiver,
            r.taken() == Seq::<Arrival<T>>::empty(),
    {
        Inlet { receiver, taken: Ghost(Seq::empty()) }
    }

    /// The receiving half itself.
    pub closed spec fn half(self) -> Receiver<T> {
        self.receiver
    }

    /// What the tries to receive came to, in order.
    pub closed spec fn taken(self) -> Seq<Arrival<T>> {
        self.taken@
    }

    /// Whether one more try to receive was made.
    pub open spec fn took(self, before: Inlet<T>, arrival: Arrival<T>) -> bool {
        &&& self.half() == before.half()
        &&& self.taken() == before.taken().push(arrival)
    }

    /// Whether tries to receive were made behind those that had been made before.
    pub open spec fn went_on(self, before: Inlet<T>) -> bool {
        &&& self.half() == before.half()
        &&& before.taken().is_prefix_of(self.taken())
    }

    /// Whether the inlet was emptied: messages were taken until there was none. It is left at the
    /// latest when as many as a number can count were taken.
    pub open spec fn emptied(self, before: Inlet<T>) -> bool {
        let had = before.taken().len() as int;
        let has = self.taken().len() as int;
        &&& self.went_on(before)
        &&& had < has
        &&& forall|i: int| had <= i < has - 1 ==> (#[trigger] self.taken()[i]) is Message
        &&& !(self.taken().last() is Message) || has == had + u64::MAX
    }

    /// Takes a message where there is one. What arrives depends on other threads.
    pub fn take(&mut self) -> (r: Arrival<T>)
        ensures
            final(self).took(*old(self), r),
    {
        let arrival = try_recv(&self.receiver);
        self.taken = Ghost(self.taken@.push(arrival));
        arrival
    }

    /// Takes messages until there is none, and throws them away.
    pub fn empty(&mut self)
        ensures
            final(self).emptied(*old(self)),
    {
        let mut left: u64 = u64::MAX;
        while left > 0
            invariant
                self.went_on(*old(self)),
                self.taken().len() == old(self).taken().len() + (u64::MAX - left),
                forall|i: int|
                    old(self).taken().len() <= i < self.taken().len() ==> (
                    #[trigger] self.taken()[i]) is Message,
            decreases left,
        {
            let ghost before = *self;
            let arrival = self.take();
            assert(forall|i: int|
                0 <= i < before.taken().len() ==> self.taken()[i] == before.taken()[i]);
            assert(old(self).taken() =~= self.taken().subrange(0, old(self).taken().len() as int));
            match arrival {
                Arrival::Message(_) => {},
                Arrival::Empty => {
                    return;
                },
                Arrival::Disconnected => {
                    return;
                },
            }
            left = left - 1;
        }
    }
}

} // verus!
