//! The observable cell: one slot for a picture that may be absent, and a
//! channel that signals each write.

use crate::picture::{Picture, PictureView};
use crate::signal::{passed_after, tells, Polled, SignalOutlet, SIGNAL_CAPACITY};
use arc_swap::ArcSwap;
use std::sync::Arc;
use tokio::sync::broadcast::Receiver;
use vstd::prelude::*;

verus! {

/// The slot of a cell: an `arc_swap::ArcSwap`, which hands out its value as
/// a shared snapshot and replaces it as a whole. The type of the slot names
/// a strategy that its crate keeps private, so it cannot be declared to the
/// verifier, and the struct around it is opaque instead. This module alone
/// reaches the slot, and it writes only through `&mut`.
#[verifier::external_body]
pub struct Slot {
    inner: ArcSwap<Option<Picture>>,
}

/// What a slot holds: the value it was made with, or the value of the last
/// swap.
pub uninterp spec fn slot_content(slot: Slot) -> Option<Picture>;

/// Calls `ArcSwap::new`, which makes a slot that holds `value`. The
/// contract claims that the new slot holds it.
#[verifier::external_body]
fn slot_new(value: Arc<Option<Picture>>) -> (slot: Slot)
    ensures
        slot_content(slot) == *value,
{
    Slot { inner: ArcSwap::new(value) }
}

/// Calls `ArcSwap::load_full`, which hands out another handle to what the
/// slot holds and leaves the slot as it is. The contract claims that the
/// handle leads to what the slot holds.
#[verifier::external_body]
fn slot_load(slot: &Slot) -> (value: Arc<Option<Picture>>)
    ensures
        *value == slot_content(*slot),
{
    slot.inner.load_full()
}

/// Calls `ArcSwap::swap`, which puts `value` in the slot and hands out what
/// the slot held before. The contract claims both.
#[verifier::external_body]
fn slot_swap(slot: &mut Slot, value: Arc<Option<Picture>>) -> (previous: Arc<Option<Picture>>)
    ensures
        *previous == slot_content(*old(slot)),
        slot_content(*final(slot)) == *value,
{
    slot.inner.swap(value)
}

/// The mathematical value of a picture that may be absent.
pub open spec fn view_of(picture: Option<Picture>) -> Option<PictureView> {
    match picture {
        Some(p) => Some(p@),
        None => None,
    }
}

/// A cell that holds a picture or nothing. A read hands out a snapshot
/// that later writes do not touch; a write replaces the whole value and
/// signals the change to every subscriber.
pub struct Image {
    data: Slot,
    channel: SignalOutlet,
}

impl View for Image {
    type V = Option<PictureView>;

    closed spec fn view(&self) -> Option<PictureView> {
        view_of(slot_content(self.data))
    }
}

impl Image {
    /// The picture that the cell holds, if it holds one.
    pub closed spec fn content(&self) -> Option<Picture> {
        slot_content(self.data)
    }

    /// The number of writes that the cell has signalled so far.
    pub closed spec fn signals(&self) -> nat {
        self.channel.sent().len()
    }

    /// How many signals of this cell a subscription has passed, or nothing
    /// where it is no subscription to this cell.
    pub closed spec fn passed(&self, receiver: Receiver<()>) -> Option<nat> {
        self.channel.passed(receiver)
    }

    /// Whether every subscription stands where it stood with `before`.
    pub open spec fn keeps_subscribers(&self, before: Image) -> bool {
        forall|receiver: Receiver<()>| #[trigger] self.passed(receiver) == before.passed(receiver)
    }

    /// What a write leaves: the new value, one signal more, and every
    /// subscription where it stood.
    pub open spec fn written(&self, before: Image, value: Option<PictureView>) -> bool {
        &&& self@ == value
        &&& self.signals() == before.signals() + 1
        &&& self.keeps_subscribers(before)
    }

    /// The view of a cell is the view of what it holds.
    pub proof fn lemma_view_of_content(&self)
        ensures
            self@ == view_of(self.content()),
    {
    }

    /// An empty cell that has signalled nothing.
    pub fn new() -> (cell: Image)
        ensures
            cell@ is None,
            cell.signals() == 0,
    {
        Self { data: slot_new(Arc::new(None)), channel: SignalOutlet::new() }
    }

    /// A snapshot of what the cell holds.
    pub fn get(&self) -> (snapshot: Arc<Option<Picture>>)
        ensures
            *snapshot == self.content(),
            view_of(*snapshot) == self@,
    {
        slot_load(&self.data)
    }

    /// Replaces what the cell holds and signals the change.
    pub fn set(&mut self, data: Option<Picture>)
        ensures
            final(self).written(*old(self), view_of(data)),
    {
        let _ = slot_swap(&mut self.data, Arc::new(data));
        self.notify_property_changed();
    }

    /// Replaces what the cell holds by a snapshot taken earlier, and
    /// signals the change.
    pub fn set_arc(&mut self, data: Arc<Option<Picture>>)
        ensures
            final(self).written(*old(self), view_of(*data)),
    {
        let _ = slot_swap(&mut self.data, data);
        self.notify_property_changed();
    }

    /// Empties the cell, hands out what it held, and signals the change.
    pub fn take(&mut self) -> (previous: Arc<Option<Picture>>)
        ensures
            view_of(*previous) == old(self)@,
            final(self).written(*old(self), None),
    {
        let new_data = slot_swap(&mut self.data, Arc::new(None));
        self.notify_property_changed();
        new_data
    }

    /// A new subscription to the change signals of this cell. It has
    /// passed every signal so far, and gets the signals of the writes that
    /// follow.
    pub fn get_property_changed_rx(&self) -> (receiver: Receiver<()>)
        ensures
            self.passed(receiver) == Some(self.signals()),
    {
        self.channel.subscribe()
    }

    /// Polls a subscription to this cell. It tells of a change exactly
    /// where a signal waits that the subscription has not passed, and the
    /// subscription then stands one signal further, or, where it had
    /// fallen behind by more than the channel keeps, at the oldest signal
    /// that is kept.
    pub fn poll(&self, receiver: &mut Receiver<()>) -> (polled: Polled<()>)
        ensures
            self.passed(*old(receiver)) is Some && self.passed(*old(receiver))->0
                <= self.signals() ==> {
                &&& tells(polled) == (self.passed(*old(receiver))->0 < self.signals())
                &&& polled is Lagged == (self.signals() - self.passed(*old(receiver))->0
                    > SIGNAL_CAPACITY)
                &&& polled !is Closed
                &&& self.passed(*final(receiver)) == Some(
                    passed_after(
                        self.signals(),
                        self.passed(*old(receiver))->0,
                        SIGNAL_CAPACITY as nat,
                    ),
                )
            },
    {
        self.channel.poll(receiver)
    }

    fn notify_property_changed(&mut self)
        ensures
            final(self).data == old(self).data,
            final(self).signals() == old(self).signals() + 1,
            final(self).keeps_subscribers(*old(self)),
    {
        self.channel.send(());
    }
}

} // verus!
