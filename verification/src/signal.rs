//! Change signals: the broadcast channels over which a holder of state tells
//! its subscribers that something changed. A signal carries no state; who
//! gets one reads the state again.
//!
//! A channel is used from one place at a time: its sending end is written
//! through `&mut` only, so that what was sent is a value of the sending end,
//! and how far a subscriber has come is a value of its receiving end.

use crate::viewmodel::image_frame::PropertyChangedNotification as FrameNotification;
use crate::viewmodel::top_panel::PropertyChangedNotification as PanelNotification;
use tokio::sync::broadcast::error::TryRecvError;
use tokio::sync::broadcast::{Receiver, Sender};
use vstd::prelude::*;

verus! {

/// The number of values that a channel keeps for a subscriber who does not
/// poll. Beyond it the oldest are dropped. It is a power of two, so the
/// channel keeps exactly this many and no more.
pub const SIGNAL_CAPACITY: usize = 32;

/// The sending end of a broadcast channel, `tokio::sync::broadcast::Sender`.
#[verifier::external_type_specification]
#[verifier::external_body]
#[verifier::reject_recursive_types(T)]
pub struct ExSender<T>(Sender<T>);

/// A receiving end of a broadcast channel,
/// `tokio::sync::broadcast::Receiver`.
#[verifier::external_type_specification]
#[verifier::external_body]
#[verifier::reject_recursive_types(T)]
pub struct ExReceiver<T>(Receiver<T>);

/// What a poll of a receiving end brings.
pub enum Polled<T> {
    /// The next value that waited.
    Got(T),
    /// The receiving end had fallen behind by more than the channel keeps:
    /// the oldest values are lost, and the end now stands at the oldest
    /// value that is kept.
    Lagged,
    /// Nothing waits.
    Empty,
    /// Nothing waits, and no sending end is left.
    Closed,
}

/// What a poll brings, where `sent` was sent on the channel so far, the
/// receiving end has passed the first `passed` of it, and the channel keeps
/// `room` values.
pub open spec fn poll_result<T>(sent: Seq<T>, passed: nat, room: nat) -> Polled<T> {
    if passed >= sent.len() {
        Polled::Empty
    } else if sent.len() - passed > room {
        Polled::Lagged
    } else {
        Polled::Got(sent[passed as int])
    }
}

/// How many values the receiving end has passed after that poll: one more
/// where it got a value, all but the last `room` where it had fallen
/// behind.
pub open spec fn passed_after(sent: nat, passed: nat, room: nat) -> nat {
    if passed >= sent {
        passed
    } else if sent - passed > room {
        (sent - room) as nat
    } else {
        passed + 1
    }
}

/// How many values wait for a receiving end after a poll, where `waiting`
/// waited before it: one less where it got a value, as many as the channel
/// keeps where it had fallen behind.
pub open spec fn waiting_after(waiting: nat, room: nat) -> nat {
    if waiting == 0 {
        0
    } else if waiting > room {
        room
    } else {
        (waiting - 1) as nat
    }
}

/// Whether a poll tells of a change: it brings a value, or tells that
/// values were lost.
pub open spec fn tells<T>(polled: Polled<T>) -> bool {
    polled is Got || polled is Lagged
}

/// The values that were sent through a sending end of change signals, oldest first.
pub uninterp spec fn signals_sent(sender: Sender<()>) -> Seq<()>;

/// The number of values that the channel of a sending end of change signals keeps.
pub uninterp spec fn signals_room(sender: Sender<()>) -> nat;

/// How many of the values sent through `sender` the receiving end has
/// passed, or nothing where it is no end of that channel.
pub uninterp spec fn signals_passed(receiver: Receiver<()>, sender: Sender<()>) -> Option<nat>;

/// Calls `tokio::sync::broadcast::channel`, which makes a channel that
/// keeps `capacity` values, rounded up to a power of two, and hands back
/// its sending end and a first receiving end. It panics on a capacity of
/// zero or above `usize::MAX / 2`. `requires` admits the one capacity that
/// is used here, a power of two, so that nothing is rounded. The contract
/// claims that nothing was sent yet, that the channel keeps `capacity`
/// values, and that the receiving end has passed nothing.
#[verifier::external_body]
fn open_signals(capacity: usize) -> (ends: (Sender<()>, Receiver<()>))
    requires
        capacity == SIGNAL_CAPACITY,
    ensures
        signals_sent(ends.0) == Seq::<()>::empty(),
        signals_room(ends.0) == capacity,
        signals_passed(ends.1, ends.0) == Some(0nat),
{
    tokio::sync::broadcast::channel(capacity)
}

/// Calls `Sender::send`, which queues `value` for every receiving end that
/// exists, and fails without queueing where none exists. `keeper` is not
/// used: that it is there shows that a receiving end exists. The contract
/// claims that the value is added to what was sent where `keeper` is an
/// end of this channel, that no receiving end moves, and that the call
/// does not panic.
#[verifier::external_body]
fn send_signals(sender: &mut Sender<()>, keeper: &Receiver<()>, value: ())
    ensures
        signals_room(*final(sender)) == signals_room(*old(sender)),
        forall|receiver: Receiver<()>| #[trigger]
            signals_passed(receiver, *final(sender)) == signals_passed(receiver, *old(sender)),
        signals_passed(*keeper, *old(sender)) is Some ==> signals_sent(*final(sender)) == signals_sent(
            *old(sender),
        ).push(value),
    no_unwind
{
    sender.send(value).ok();
}

/// Calls `Sender::subscribe`, which makes a receiving end that gets the
/// values sent from now on. It panics only when a quarter of `usize::MAX`
/// receiving ends exist, which is more than memory holds. The contract
/// claims that the new end has passed all that was sent so far.
#[verifier::external_body]
fn subscribe_signals(sender: &Sender<()>) -> (receiver: Receiver<()>)
    ensures
        signals_passed(receiver, *sender) == Some(signals_sent(*sender).len()),
{
    sender.subscribe()
}

/// Calls `Receiver::try_recv`, which hands out the next value that waits,
/// without blocking. `sender` is not used: the contract speaks of what was
/// sent through it. Where the receiving end is an end of that channel, the
/// contract claims what the poll brings and how far the end has come
/// after it: a value while no more wait than the channel keeps, the news
/// of a loss beyond that, nothing where nothing waits.
#[verifier::external_body]
fn poll_signals(receiver: &mut Receiver<()>, sender: &Sender<()>) -> (out: Polled<()>)
    ensures
        signals_passed(*old(receiver), *sender) is Some && signals_passed(*old(receiver), *sender)->0
            <= signals_sent(*sender).len() ==> out == poll_result(
            signals_sent(*sender),
            signals_passed(*old(receiver), *sender)->0,
            signals_room(*sender),
        ) && signals_passed(*final(receiver), *sender) == Some(
            passed_after(
                signals_sent(*sender).len(),
                signals_passed(*old(receiver), *sender)->0,
                signals_room(*sender),
            ),
        ),
{
    match receiver.try_recv() {
        Ok(value) => Polled::Got(value),
        Err(TryRecvError::Lagged(_)) => Polled::Lagged,
        Err(TryRecvError::Empty) => Polled::Empty,
        Err(TryRecvError::Closed) => Polled::Closed,
    }
}

/// The sending end of a channel of change signals, with a receiving end that is
/// never polled and keeps the channel open. The channel keeps
/// `SIGNAL_CAPACITY` values.
pub struct SignalOutlet {
    sender: Sender<()>,
    keeper: Receiver<()>,
}

impl SignalOutlet {
    #[verifier::type_invariant]
    spec fn well_formed(self) -> bool {
        &&& signals_passed(self.keeper, self.sender) is Some
        &&& signals_room(self.sender) == SIGNAL_CAPACITY
    }

    /// What was sent so far, oldest first.
    pub closed spec fn sent(&self) -> Seq<()> {
        signals_sent(self.sender)
    }

    /// How many of the values sent a subscription has passed, or nothing
    /// where it is no subscription to this channel.
    pub closed spec fn passed(&self, receiver: Receiver<()>) -> Option<nat> {
        signals_passed(receiver, self.sender)
    }

    /// Whether every subscription stands where it stood with `before`.
    pub open spec fn keeps_subscribers(&self, before: SignalOutlet) -> bool {
        forall|receiver: Receiver<()>| #[trigger] self.passed(receiver) == before.passed(receiver)
    }

    /// A channel on which nothing was sent.
    pub(crate) fn new() -> (outlet: SignalOutlet)
        ensures
            outlet.sent() == Seq::<()>::empty(),
    {
        let (sender, keeper) = open_signals(SIGNAL_CAPACITY);
        SignalOutlet { sender, keeper }
    }

    /// Sends `value` to every subscription.
    pub(crate) fn send(&mut self, value: ())
        ensures
            final(self).sent() == old(self).sent().push(value),
            final(self).keeps_subscribers(*old(self)),
    {
        proof {
            use_type_invariant(&*self);
        }
        send_signals(&mut self.sender, &self.keeper, value);
    }

    /// A new subscription. It has passed all that was sent so far.
    pub(crate) fn subscribe(&self) -> (receiver: Receiver<()>)
        ensures
            self.passed(receiver) == Some(self.sent().len()),
    {
        subscribe_signals(&self.sender)
    }

    /// Polls a subscription to this channel: the next value that it has not
    /// passed, while no more wait than the channel keeps; the news of a
    /// loss beyond that; nothing where nothing waits.
    pub(crate) fn poll(&self, receiver: &mut Receiver<()>) -> (polled: Polled<()>)
        ensures
            self.passed(*old(receiver)) is Some && self.passed(*old(receiver))->0
                <= self.sent().len() ==> {
                &&& polled == poll_result(
                    self.sent(),
                    self.passed(*old(receiver))->0,
                    SIGNAL_CAPACITY as nat,
                )
                &&& self.passed(*final(receiver)) == Some(
                    passed_after(
                        self.sent().len(),
                        self.passed(*old(receiver))->0,
                        SIGNAL_CAPACITY as nat,
                    ),
                )
            },
    {
        proof {
            use_type_invariant(self);
        }
        poll_signals(receiver, &self.sender)
    }
}

/// The values that were sent through a sending end of window notifications, oldest first.
pub uninterp spec fn frame_notices_sent(sender: Sender<FrameNotification>) -> Seq<FrameNotification>;

/// The number of values that the channel of a sending end of window notifications keeps.
pub uninterp spec fn frame_notices_room(sender: Sender<FrameNotification>) -> nat;

/// How many of the values sent through `sender` the receiving end has
/// passed, or nothing where it is no end of that channel.
pub uninterp spec fn frame_notices_passed(receiver: Receiver<FrameNotification>, sender: Sender<FrameNotification>) -> Option<nat>;

/// Calls `tokio::sync::broadcast::channel`, which makes a channel that
/// keeps `capacity` values, rounded up to a power of two, and hands back
/// its sending end and a first receiving end. It panics on a capacity of
/// zero or above `usize::MAX / 2`. `requires` admits the one capacity that
/// is used here, a power of two, so that nothing is rounded. The contract
/// claims that nothing was sent yet, that the channel keeps `capacity`
/// values, and that the receiving end has passed nothing.
#[verifier::external_body]
fn open_frame_notices(capacity: usize) -> (ends: (Sender<FrameNotification>, Receiver<FrameNotification>))
    requires
        capacity == SIGNAL_CAPACITY,
    ensures
        frame_notices_sent(ends.0) == Seq::<FrameNotification>::empty(),
        frame_notices_room(ends.0) == capacity,
        frame_notices_passed(ends.1, ends.0) == Some(0nat),
{
    tokio::sync::broadcast::channel(capacity)
}

/// Calls `Sender::send`, which queues `value` for every receiving end that
/// exists, and fails without queueing where none exists. `keeper` is not
/// used: that it is there shows that a receiving end exists. The contract
/// claims that the value is added to what was sent where `keeper` is an
/// end of this channel, that no receiving end moves, and that the call
/// does not panic.
#[verifier::external_body]
fn send_frame_notices(sender: &mut Sender<FrameNotification>, keeper: &Receiver<FrameNotification>, value: FrameNotification)
    ensures
        frame_notices_room(*final(sender)) == frame_notices_room(*old(sender)),
        forall|receiver: Receiver<FrameNotification>| #[trigger]
            frame_notices_passed(receiver, *final(sender)) == frame_notices_passed(receiver, *old(sender)),
        frame_notices_passed(*keeper, *old(sender)) is Some ==> frame_notices_sent(*final(sender)) == frame_notices_sent(
            *old(sender),
        ).push(value),
    no_unwind
{
    sender.send(value).ok();
}

/// Calls `Sender::subscribe`, which makes a receiving end that gets the
/// values sent from now on. It panics only when a quarter of `usize::MAX`
/// receiving ends exist, which is more than memory holds. The contract
/// claims that the new end has passed all that was sent so far.
#[verifier::external_body]
fn subscribe_frame_notices(sender: &Sender<FrameNotification>) -> (receiver: Receiver<FrameNotification>)
    ensures
        frame_notices_passed(receiver, *sender) == Some(frame_notices_sent(*sender).len()),
{
    sender.subscribe()
}

/// Calls `Receiver::try_recv`, which hands out the next value that waits,
/// without blocking. `sender` is not used: the contract speaks of what was
/// sent through it. Where the receiving end is an end of that channel, the
/// contract claims what the poll brings and how far the end has come
/// after it: a value while no more wait than the channel keeps, the news
/// of a loss beyond that, nothing where nothing waits.
#[verifier::external_body]
fn poll_frame_notices(receiver: &mut Receiver<FrameNotification>, sender: &Sender<FrameNotification>) -> (out: Polled<FrameNotification>)
    ensures
        frame_notices_passed(*old(receiver), *sender) is Some && frame_notices_passed(*old(receiver), *sender)->0
            <= frame_notices_sent(*sender).len() ==> out == poll_result(
            frame_notices_sent(*sender),
            frame_notices_passed(*old(receiver), *sender)->0,
            frame_notices_room(*sender),
        ) && frame_notices_passed(*final(receiver), *sender) == Some(
            passed_after(
                frame_notices_sent(*sender).len(),
                frame_notices_passed(*old(receiver), *sender)->0,
                frame_notices_room(*sender),
            ),
        ),
{
    match receiver.try_recv() {
        Ok(value) => Polled::Got(value),
        Err(TryRecvError::Lagged(_)) => Polled::Lagged,
        Err(TryRecvError::Empty) => Polled::Empty,
        Err(TryRecvError::Closed) => Polled::Closed,
    }
}

/// The sending end of a channel of window notifications, with a receiving end that is
/// never polled and keeps the channel open. The channel keeps
/// `SIGNAL_CAPACITY` values.
pub struct FrameOutlet {
    sender: Sender<FrameNotification>,
    keeper: Receiver<FrameNotification>,
}

impl FrameOutlet {
    #[verifier::type_invariant]
    spec fn well_formed(self) -> bool {
        &&& frame_notices_passed(self.keeper, self.sender) is Some
        &&& frame_notices_room(self.sender) == SIGNAL_CAPACITY
    }

    /// What was sent so far, oldest first.
    pub closed spec fn sent(&self) -> Seq<FrameNotification> {
        frame_notices_sent(self.sender)
    }

    /// How many of the values sent a subscription has passed, or nothing
    /// where it is no subscription to this channel.
    pub closed spec fn passed(&self, receiver: Receiver<FrameNotification>) -> Option<nat> {
        frame_notices_passed(receiver, self.sender)
    }

    /// Whether every subscription stands where it stood with `before`.
    pub open spec fn keeps_subscribers(&self, before: FrameOutlet) -> bool {
        forall|receiver: Receiver<FrameNotification>| #[trigger] self.passed(receiver) == before.passed(receiver)
    }

    /// A channel on which nothing was sent.
    pub(crate) fn new() -> (outlet: FrameOutlet)
        ensures
            outlet.sent() == Seq::<FrameNotification>::empty(),
    {
        let (sender, keeper) = open_frame_notices(SIGNAL_CAPACITY);
        FrameOutlet { sender, keeper }
    }

    /// Sends `value` to every subscription.
    pub(crate) fn send(&mut self, value: FrameNotification)
        ensures
            final(self).sent() == old(self).sent().push(value),
            final(self).keeps_subscribers(*old(self)),
    {
        proof {
            use_type_invariant(&*self);
        }
        send_frame_notices(&mut self.sender, &self.keeper, value);
    }

    /// A new subscription. It has passed all that was sent so far.
    pub(crate) fn subscribe(&self) -> (receiver: Receiver<FrameNotification>)
        ensures
            self.passed(receiver) == Some(self.sent().len()),
    {
        subscribe_frame_notices(&self.sender)
    }

    /// Polls a subscription to this channel: the next value that it has not
    /// passed, while no more wait than the channel keeps; the news of a
    /// loss beyond that; nothing where nothing waits.
    pub(crate) fn poll(&self, receiver: &mut Receiver<FrameNotification>) -> (polled: Polled<FrameNotification>)
        ensures
            self.passed(*old(receiver)) is Some && self.passed(*old(receiver))->0
                <= self.sent().len() ==> {
                &&& polled == poll_result(
                    self.sent(),
                    self.passed(*old(receiver))->0,
                    SIGNAL_CAPACITY as nat,
                )
                &&& self.passed(*final(receiver)) == Some(
                    passed_after(
                        self.sent().len(),
                        self.passed(*old(receiver))->0,
                        SIGNAL_CAPACITY as nat,
                    ),
                )
            },
    {
        proof {
            use_type_invariant(self);
        }
        poll_frame_notices(receiver, &self.sender)
    }
}

/// The values that were sent through a sending end of menu notifications, oldest first.
pub uninterp spec fn panel_notices_sent(sender: Sender<PanelNotification>) -> Seq<PanelNotification>;

/// The number of values that the channel of a sending end of menu notifications keeps.
pub uninterp spec fn panel_notices_room(sender: Sender<PanelNotification>) -> nat;

/// How many of the values sent through `sender` the receiving end has
/// passed, or nothing where it is no end of that channel.
pub uninterp spec fn panel_notices_passed(receiver: Receiver<PanelNotification>, sender: Sender<PanelNotification>) -> Option<nat>;

/// Calls `tokio::sync::broadcast::channel`, which makes a channel that
/// keeps `capacity` values, rounded up to a power of two, and hands back
/// its sending end and a first receiving end. It panics on a capacity of
/// zero or above `usize::MAX / 2`. `requires` admits the one capacity that
/// is used here, a power of two, so that nothing is rounded. The contract
/// claims that nothing was sent yet, that the channel keeps `capacity`
/// values, and that the receiving end has passed nothing.
#[verifier::external_body]
fn open_panel_notices(capacity: usize) -> (ends: (Sender<PanelNotification>, Receiver<PanelNotification>))
    requires
        capacity == SIGNAL_CAPACITY,
    ensures
        panel_notices_sent(ends.0) == Seq::<PanelNotification>::empty(),
        panel_notices_room(ends.0) == capacity,
        panel_notices_passed(ends.1, ends.0) == Some(0nat),
{
    tokio::sync::broadcast::channel(capacity)
}

/// Calls `Sender::send`, which queues `value` for every receiving end that
/// exists, and fails without queueing where none exists. `keeper` is not
/// used: that it is there shows that a receiving end exists. The contract
/// claims that the value is added to what was sent where `keeper` is an
/// end of this channel, that no receiving end moves, and that the call
/// does not panic.
#[verifier::external_body]
fn send_panel_notices(sender: &mut Sender<PanelNotification>, keeper: &Receiver<PanelNotification>, value: PanelNotification)
    ensures
        panel_notices_room(*final(sender)) == panel_notices_room(*old(sender)),
        forall|receiver: Receiver<PanelNotification>| #[trigger]
            panel_notices_passed(receiver, *final(sender)) == panel_notices_passed(receiver, *old(sender)),
        panel_notices_passed(*keeper, *old(sender)) is Some ==> panel_notices_sent(*final(sender)) == panel_notices_sent(
            *old(sender),
        ).push(value),
    no_unwind
{
    sender.send(value).ok();
}

/// Calls `Sender::subscribe`, which makes a receiving end that gets the
/// values sent from now on. It panics only when a quarter of `usize::MAX`
/// receiving ends exist, which is more than memory holds. The contract
/// claims that the new end has passed all that was sent so far.
#[verifier::external_body]
fn subscribe_panel_notices(sender: &Sender<PanelNotification>) -> (receiver: Receiver<PanelNotification>)
    ensures
        panel_notices_passed(receiver, *sender) == Some(panel_notices_sent(*sender).len()),
{
    sender.subscribe()
}

/// Calls `Receiver::try_recv`, which hands out the next value that waits,
/// without blocking. `sender` is not used: the contract speaks of what was
/// sent through it. Where the receiving end is an end of that channel, the
/// contract claims what the poll brings and how far the end has come
/// after it: a value while no more wait than the channel keeps, the news
/// of a loss beyond that, nothing where nothing waits.
#[verifier::external_body]
fn poll_panel_notices(receiver: &mut Receiver<PanelNotification>, sender: &Sender<PanelNotification>) -> (out: Polled<PanelNotification>)
    ensures
        panel_notices_passed(*old(receiver), *sender) is Some && panel_notices_passed(*old(receiver), *sender)->0
            <= panel_notices_sent(*sender).len() ==> out == poll_result(
            panel_notices_sent(*sender),
            panel_notices_passed(*old(receiver), *sender)->0,
            panel_notices_room(*sender),
        ) && panel_notices_passed(*final(receiver), *sender) == Some(
            passed_after(
                panel_notices_sent(*sender).len(),
                panel_notices_passed(*old(receiver), *sender)->0,
                panel_notices_room(*sender),
            ),
        ),
{
    match receiver.try_recv() {
        Ok(value) => Polled::Got(value),
        Err(TryRecvError::Lagged(_)) => Polled::Lagged,
        Err(TryRecvError::Empty) => Polled::Empty,
        Err(TryRecvError::Closed) => Polled::Closed,
    }
}

/// The sending end of a channel of menu notifications, with a receiving end that is
/// never polled and keeps the channel open. The channel keeps
/// `SIGNAL_CAPACITY` values.
pub struct PanelOutlet {
    sender: Sender<PanelNotification>,
    keeper: Receiver<PanelNotification>,
}

impl PanelOutlet {
    #[verifier::type_invariant]
    spec fn well_formed(self) -> bool {
        &&& panel_notices_passed(self.keeper, self.sender) is Some
        &&& panel_notices_room(self.sender) == SIGNAL_CAPACITY
    }

    /// What was sent so far, oldest first.
    pub closed spec fn sent(&self) -> Seq<PanelNotification> {
        panel_notices_sent(self.sender)
    }

    /// How many of the values sent a subscription has passed, or nothing
    /// where it is no subscription to this channel.
    pub closed spec fn passed(&self, receiver: Receiver<PanelNotification>) -> Option<nat> {
        panel_notices_passed(receiver, self.sender)
    }

    /// Whether every subscription stands where it stood with `before`.
    pub open spec fn keeps_subscribers(&self, before: PanelOutlet) -> bool {
        forall|receiver: Receiver<PanelNotification>| #[trigger] self.passed(receiver) == before.passed(receiver)
    }

    /// A channel on which nothing was sent.
    pub(crate) fn new() -> (outlet: PanelOutlet)
        ensures
            outlet.sent() == Seq::<PanelNotification>::empty(),
    {
        let (sender, keeper) = open_panel_notices(SIGNAL_CAPACITY);
        PanelOutlet { sender, keeper }
    }

    /// Sends `value` to every subscription.
    pub(crate) fn send(&mut self, value: PanelNotification)
        ensures
            final(self).sent() == old(self).sent().push(value),
            final(self).keeps_subscribers(*old(self)),
    {
        proof {
            use_type_invariant(&*self);
        }
        send_panel_notices(&mut self.sender, &self.keeper, value);
    }

    /// A new subscription. It has passed all that was sent so far.
    pub(crate) fn subscribe(&self) -> (receiver: Receiver<PanelNotification>)
        ensures
            self.passed(receiver) == Some(self.sent().len()),
    {
        subscribe_panel_notices(&self.sender)
    }

    /// Polls a subscription to this channel: the next value that it has not
    /// passed, while no more wait than the channel keeps; the news of a
    /// loss beyond that; nothing where nothing waits.
    pub(crate) fn poll(&self, receiver: &mut Receiver<PanelNotification>) -> (polled: Polled<PanelNotification>)
        ensures
            self.passed(*old(receiver)) is Some && self.passed(*old(receiver))->0
                <= self.sent().len() ==> {
                &&& polled == poll_result(
                    self.sent(),
                    self.passed(*old(receiver))->0,
                    SIGNAL_CAPACITY as nat,
                )
                &&& self.passed(*final(receiver)) == Some(
                    passed_after(
                        self.sent().len(),
                        self.passed(*old(receiver))->0,
                        SIGNAL_CAPACITY as nat,
                    ),
                )
            },
    {
        proof {
            use_type_invariant(self);
        }
        poll_panel_notices(receiver, &self.sender)
    }
}

} // verus!
