//! The menu bar.

use crate::model::image::view_of;
use crate::model::image_service::ImageService;
use crate::model::session::{CellId, EditSession};
use crate::picture::{Picture, PictureView};
use crate::signal::{Polled, SIGNAL_CAPACITY};
use crate::view::GuiAction;
use crate::viewmodel;
use crate::viewmodel::top_panel::{PanelProperties, PropertyChangedNotification};
use tokio::sync::broadcast::Receiver;
use vstd::prelude::*;

verus! {

/// What the menu bar holds from frame to frame.
pub struct PanelState {
    /// Whether the menu offers the transforms.
    pub has_current: bool,
    /// Whether the menu offers to accept or drop the provisional picture.
    pub has_preview: bool,
    /// Whether a file dialog was opened and has not answered yet.
    pub awaiting_file: bool,
    /// How many notifications of its view-model the menu has passed, or
    /// nothing where it is not subscribed to it.
    pub seen: Option<nat>,
    /// What the view-model of the panel knows and has told.
    pub viewmodel: PanelProperties,
}

impl PanelState {
    /// Whether the menu offers `action`. To open a file is always offered;
    /// a transform needs a current picture; to accept or to drop needs a
    /// provisional one; a reset needs either.
    pub open spec fn offers(self, action: GuiAction) -> bool {
        match action {
            GuiAction::OpenFileDialog => true,
            GuiAction::ApplyGrayscale => self.has_current,
            GuiAction::ApplyInvert => self.has_current,
            GuiAction::AcceptOperation => self.has_preview,
            GuiAction::DiscardOperation => self.has_preview,
            GuiAction::ResetAll => self.has_current || self.has_preview,
        }
    }

    /// Whether the menu is subscribed to its view-model and has passed no
    /// more notifications than the view-model has sent.
    pub open spec fn tied(self) -> bool {
        self.seen is Some && self.seen->0 <= self.viewmodel.notified.len()
    }

    /// Whether notifications were lost: more wait than the channel keeps.
    pub open spec fn lost(self) -> bool {
        self.viewmodel.notified.len() - self.seen->0 > SIGNAL_CAPACITY
    }

    /// The first notification that the menu can still get.
    pub open spec fn first_kept(self) -> nat {
        if self.lost() {
            (self.viewmodel.notified.len() - SIGNAL_CAPACITY) as nat
        } else {
            self.seen->0
        }
    }

    /// The state after the view-model named a property that changed: the
    /// menu takes the property over from the view-model.
    pub open spec fn after_notification(self, notification: PropertyChangedNotification) -> PanelState {
        match notification {
            PropertyChangedNotification::HasCurrent => PanelState {
                has_current: self.viewmodel.has_current,
                ..self
            },
            PropertyChangedNotification::HasPreview => PanelState {
                has_preview: self.viewmodel.has_preview,
                ..self
            },
        }
    }

    /// The state after the news that notifications were lost: the menu
    /// takes every property over from the view-model.
    pub open spec fn after_loss(self) -> PanelState {
        PanelState {
            has_current: self.viewmodel.has_current,
            has_preview: self.viewmodel.has_preview,
            ..self
        }
    }

    /// The state after the notifications up to the first `to` were taken:
    /// the menu has taken over each property that one of them names, and
    /// every property where notifications were lost.
    pub open spec fn drained_to(self, to: nat) -> PanelState {
        let reread = self.lost() && to >= self.first_kept();
        let taken = if to >= self.first_kept() {
            self.viewmodel.notified.subrange(self.first_kept() as int, to as int)
        } else {
            Seq::empty()
        };
        PanelState {
            has_current: if reread || taken.contains(PropertyChangedNotification::HasCurrent) {
                self.viewmodel.has_current
            } else {
                self.has_current
            },
            has_preview: if reread || taken.contains(PropertyChangedNotification::HasPreview) {
                self.viewmodel.has_preview
            } else {
                self.has_preview
            },
            seen: Some(to),
            ..self
        }
    }

    /// The state after every notification that waited was taken.
    pub open spec fn drained(self) -> PanelState {
        self.drained_to(self.viewmodel.notified.len())
    }

    /// The drain takes over the property that a waiting notification names.
    pub proof fn lemma_drained_takes(self, at: int)
        requires
            self.tied(),
            self.first_kept() <= at < self.viewmodel.notified.len(),
        ensures
            self.viewmodel.notified[at] == PropertyChangedNotification::HasCurrent
                ==> self.drained().has_current == self.viewmodel.has_current,
            self.viewmodel.notified[at] == PropertyChangedNotification::HasPreview
                ==> self.drained().has_preview == self.viewmodel.has_preview,
    {
        let taken = self.viewmodel.notified.subrange(
            self.first_kept() as int,
            self.viewmodel.notified.len() as int,
        );
        assert(taken[at - self.first_kept()] == self.viewmodel.notified[at]);
    }

    /// Whether `answer` ends a wait: the panel waits for a file dialog and
    /// the dialog has answered.
    pub open spec fn takes_answer(self, answer: Option<Option<Picture>>) -> bool {
        self.awaiting_file && answer is Some
    }

    /// The state after the file dialog was polled: an answer ends the wait.
    pub open spec fn after_answer(self, answer: Option<Option<Picture>>) -> PanelState {
        if self.takes_answer(answer) {
            PanelState { awaiting_file: false, ..self }
        } else {
            self
        }
    }

    /// The state after a click on `action`: a click that opens the file
    /// dialog leaves the panel waiting for its answer; no other click
    /// changes the panel.
    pub open spec fn after_click(self, action: GuiAction) -> PanelState {
        match action {
            GuiAction::OpenFileDialog => PanelState { awaiting_file: true, ..self },
            _ => self,
        }
    }
}

/// The session after a click on `action` in a menu in state `panel`: what
/// the menu does not offer changes nothing, and neither does opening the
/// file dialog; each other command is carried out.
pub open spec fn session_after_click(
    panel: PanelState,
    action: GuiAction,
    session: EditSession,
) -> EditSession {
    if !panel.offers(action) {
        session
    } else {
        match action {
            GuiAction::OpenFileDialog => session,
            GuiAction::ApplyGrayscale => session.apply_grayscale(),
            GuiAction::ApplyInvert => session.apply_invert(),
            GuiAction::AcceptOperation => session.accept(),
            GuiAction::DiscardOperation => session.discard(),
            GuiAction::ResetAll => session.reset(None),
        }
    }
}

/// How often a click on `action` in a menu in state `panel` writes the
/// current and the provisional picture of `session`: each command that is
/// carried out writes the cells that it changes, once each.
pub open spec fn writes_of_click(panel: PanelState, action: GuiAction, session: EditSession) -> (
    nat,
    nat,
) {
    if !panel.offers(action) {
        (0, 0)
    } else {
        match action {
            GuiAction::OpenFileDialog => (0, 0),
            GuiAction::ApplyGrayscale => (0, if session.current is Some { 1 } else { 0 }),
            GuiAction::ApplyInvert => (0, if session.has_negative() { 1 } else { 0 }),
            GuiAction::AcceptOperation => if session.preview is Some {
                (1, 1)
            } else {
                (0, 0)
            },
            GuiAction::DiscardOperation => (0, 1),
            GuiAction::ResetAll => (1, 1),
        }
    }
}

/// The session after the file dialog was polled in a menu in state `panel`:
/// an answer that ends a wait is taken in as what the load came to.
pub open spec fn session_after_answer(
    panel: PanelState,
    answer: Option<Option<Picture>>,
    session: EditSession,
) -> EditSession {
    if panel.takes_answer(answer) {
        session.loaded(view_of(answer->0))
    } else {
        session
    }
}

/// A copy of a property after a frame: it is what it was, or it was taken
/// over from its source.
pub open spec fn kept_or_taken(before: bool, after: bool, source: bool) -> bool {
    after == before || after == source
}

/// The menu bar: which commands it offers, and the file dialog it may be
/// waiting for.
pub struct TopPanel {
    has_current: bool,
    has_preview: bool,
    awaiting_file: bool,
    viewmodel: viewmodel::top_panel::TopPanel,
    vm_rx: Receiver<PropertyChangedNotification>,
}

impl View for TopPanel {
    type V = PanelState;

    closed spec fn view(&self) -> PanelState {
        PanelState {
            has_current: self.has_current,
            has_preview: self.has_preview,
            awaiting_file: self.awaiting_file,
            seen: self.viewmodel.passed(self.vm_rx),
            viewmodel: self.viewmodel@,
        }
    }
}

impl TopPanel {
    /// The view-model of the menu.
    pub closed spec fn spec_viewmodel(&self) -> viewmodel::top_panel::TopPanel {
        self.viewmodel
    }

    /// A menu bar over `viewmodel`. It starts as if there were no picture,
    /// waits for no dialog, and has passed every notification so far.
    pub fn new(viewmodel: viewmodel::top_panel::TopPanel) -> (panel: TopPanel)
        ensures
            panel@ == (PanelState {
                has_current: false,
                has_preview: false,
                awaiting_file: false,
                seen: Some(viewmodel@.notified.len()),
                viewmodel: viewmodel@,
            }),
            panel.spec_viewmodel() == viewmodel,
    {
        let vm_rx = viewmodel.get_receiver();
        Self { has_current: false, has_preview: false, awaiting_file: false, viewmodel, vm_rx }
    }

    /// Whether the menu offers `action` in this frame.
    pub fn offers(&self, action: GuiAction) -> (offered: bool)
        ensures
            offered == self@.offers(action),
    {
        match action {
            GuiAction::OpenFileDialog => true,
            GuiAction::ApplyGrayscale => self.has_current,
            GuiAction::ApplyInvert => self.has_current,
            GuiAction::AcceptOperation => self.has_preview,
            GuiAction::DiscardOperation => self.has_preview,
            GuiAction::ResetAll => self.has_current || self.has_preview,
        }
    }

    /// Whether a file dialog was opened and has not answered yet.
    pub fn awaits_file(&self) -> (awaiting: bool)
        ensures
            awaiting == self@.awaiting_file,
    {
        self.awaiting_file
    }

    /// A click on `action`. What the menu does not offer cannot be clicked
    /// and changes nothing. A click that opens the file dialog leaves the
    /// panel waiting for the answer and is reported back, so that the
    /// dialog is opened; each other command goes to `image_service` by way
    /// of the view-model.
    pub fn ui(&mut self, action: GuiAction, image_service: &mut ImageService) -> (open_dialog: bool)
        ensures
            open_dialog == (action == GuiAction::OpenFileDialog),
            final(self)@ == old(self)@.after_click(action),
            final(self).spec_viewmodel().keeps_ties(old(self).spec_viewmodel()),
            final(image_service)@ == session_after_click(old(self)@, action, old(image_service)@),
            final(image_service).wrote(
                *old(image_service),
                writes_of_click(old(self)@, action, old(image_service)@).0,
                writes_of_click(old(self)@, action, old(image_service)@).1,
            ),
    {
        if !self.offers(action) {
            assert(image_service.wrote(*image_service, 0, 0));
            return false;
        }
        match action {
            GuiAction::OpenFileDialog => {
                self.awaiting_file = true;
                assert(image_service.wrote(*image_service, 0, 0));
                true
            },
            GuiAction::ApplyGrayscale => {
                self.viewmodel.apply_grayscale(image_service);
                false
            },
            GuiAction::ApplyInvert => {
                self.viewmodel.apply_invert(image_service);
                false
            },
            GuiAction::AcceptOperation => {
                self.viewmodel.accept_operation(image_service);
                false
            },
            GuiAction::DiscardOperation => {
                self.viewmodel.discard_operation(image_service);
                false
            },
            GuiAction::ResetAll => {
                self.viewmodel.reset_images(image_service);
                false
            },
        }
    }

    /// What a frame does before the menu is drawn. The view-model polls its
    /// cells. Where the panel waits for a file dialog and `answer` brings
    /// its answer, what the load came to goes to `image_service` and the
    /// waiting ends. Then every notification of the view-model that waits
    /// is taken, and for each the menu takes the named property over;
    /// where notifications were lost, it takes every property over.
    pub fn show(&mut self, image_service: &mut ImageService, answer: Option<Option<Picture>>)
        ensures
            kept_or_taken(
                old(self)@.viewmodel.has_current,
                final(self)@.viewmodel.has_current,
                old(image_service)@.current.is_some(),
            ),
            kept_or_taken(
                old(self)@.viewmodel.has_preview,
                final(self)@.viewmodel.has_preview,
                old(image_service)@.preview.is_some(),
            ),
            kept_or_taken(
                old(self)@.has_current,
                final(self)@.has_current,
                final(self)@.viewmodel.has_current,
            ),
            kept_or_taken(
                old(self)@.has_preview,
                final(self)@.has_preview,
                final(self)@.viewmodel.has_preview,
            ),
            final(self)@.awaiting_file == old(self)@.after_answer(answer).awaiting_file,
            final(image_service)@ == session_after_answer(old(self)@, answer, old(image_service)@),
            final(image_service).same_cells(*old(image_service)),
            old(self).spec_viewmodel().follows(old(image_service)) ==> {
                &&& final(self)@.viewmodel == old(self)@.viewmodel.after_poll(
                    old(self).spec_viewmodel().waits(old(image_service), CellId::Current),
                    old(self).spec_viewmodel().waits(old(image_service), CellId::Preview),
                    old(image_service)@.current.is_some(),
                    old(image_service)@.preview.is_some(),
                )
                &&& final(self).spec_viewmodel().follows(final(image_service))
                &&& final(self).spec_viewmodel().waiting(final(image_service), CellId::Current)
                    == crate::signal::waiting_after(
                    old(self).spec_viewmodel().waiting(old(image_service), CellId::Current),
                    SIGNAL_CAPACITY as nat,
                )
                &&& final(self).spec_viewmodel().waiting(final(image_service), CellId::Preview)
                    == crate::signal::waiting_after(
                    old(self).spec_viewmodel().waiting(old(image_service), CellId::Preview),
                    SIGNAL_CAPACITY as nat,
                )
            },
            old(self)@.tied() ==> final(self)@ == (PanelState {
                viewmodel: final(self)@.viewmodel,
                ..old(self)@.after_answer(answer)
            }).drained(),
    {
        self.viewmodel.process_messages(image_service);
        self.dialog_polled(image_service, answer);
        let ghost polled = self@;
        let ghost polled_viewmodel = self.viewmodel;
        let ghost mut at: nat = 0;
        proof {
            if polled.tied() {
                at = polled.seen->0;
                assert(polled.drained_to(at) == polled) by {
                    assert(polled.viewmodel.notified.subrange(at as int, at as int)
                        =~= Seq::empty());
                }
            }
        }
        let mut left: usize = SIGNAL_CAPACITY + 2;
        while left > 0
            invariant
                left <= SIGNAL_CAPACITY + 2,
                self.spec_viewmodel() == polled_viewmodel,
                self@.viewmodel == polled.viewmodel,
                self@.awaiting_file == polled.awaiting_file,
                kept_or_taken(polled.has_current, self@.has_current, polled.viewmodel.has_current),
                kept_or_taken(polled.has_preview, self@.has_preview, polled.viewmodel.has_preview),
                polled.tied() ==> {
                    &&& polled.seen->0 <= at <= polled.viewmodel.notified.len()
                    &&& self@ == polled.drained_to(at)
                    &&& at < polled.viewmodel.notified.len() ==> (if polled.viewmodel.notified.len()
                        - at > SIGNAL_CAPACITY {
                        SIGNAL_CAPACITY + 2
                    } else {
                        polled.viewmodel.notified.len() - at + 1
                    }) <= left
                    &&& at >= polled.first_kept() || at == polled.seen->0
                },
            decreases left,
        {
            let ghost before = self@;
            match self.viewmodel.poll(&mut self.vm_rx) {
                Polled::Got(notification) => {
                    self.notified(notification);
                    proof {
                        if polled.tied() {
                            Self::lemma_take_one(polled, at);
                            at = at + 1;
                        }
                    }
                    left -= 1;
                },
                Polled::Lagged => {
                    self.lost();
                    proof {
                        if polled.tied() {
                            at = polled.first_kept();
                            assert(polled.viewmodel.notified.subrange(at as int, at as int)
                                =~= Seq::empty());
                        }
                    }
                    left -= 1;
                },
                Polled::Empty => {
                    left = 0;
                },
                Polled::Closed => {
                    left = 0;
                },
            }
        }
    }

    /// Taking the notification at `at` after those before it is taking the
    /// notifications up to `at + 1`.
    proof fn lemma_take_one(polled: PanelState, at: nat)
        requires
            polled.tied(),
            polled.first_kept() <= at < polled.viewmodel.notified.len(),
        ensures
            polled.drained_to(at + 1) == (PanelState {
                seen: Some(at + 1),
                ..polled.drained_to(at).after_notification(polled.viewmodel.notified[at as int])
            }),
    {
        let notes = polled.viewmodel.notified;
        let first = polled.first_kept() as int;
        let taken = notes.subrange(first, at as int);
        let more = notes.subrange(first, at as int + 1);
        assert(more =~= taken.push(notes[at as int]));
        assert forall|n: PropertyChangedNotification|
            more.contains(n) == (taken.contains(n) || n == notes[at as int]) by {
            if taken.contains(n) {
                let i = choose|i: int| 0 <= i < taken.len() && taken[i] == n;
                assert(more[i] == n);
            }
            if n == notes[at as int] {
                assert(more[more.len() - 1] == n);
            }
            if more.contains(n) {
                let i = choose|i: int| 0 <= i < more.len() && more[i] == n;
                if i < taken.len() {
                    assert(taken[i] == n);
                }
            }
        }
    }

    /// What follows a poll of the file dialog. Where the panel waits for a
    /// dialog and `answer` brings its answer, what the load came to goes
    /// to `image_service` and the waiting ends; else nothing changes.
    pub fn dialog_polled(&mut self, image_service: &mut ImageService, answer: Option<Option<Picture>>)
        ensures
            final(self)@ == old(self)@.after_answer(answer),
            final(self).spec_viewmodel().unchanged(old(self).spec_viewmodel()),
            final(image_service)@ == session_after_answer(old(self)@, answer, old(image_service)@),
            final(image_service).same_cells(*old(image_service)),
    {
        if self.awaiting_file {
            if let Some(outcome) = answer {
                self.viewmodel.open_decoded(image_service, outcome);
                self.awaiting_file = false;
            }
        }
    }

    /// What follows a notification of the view-model: the menu takes the
    /// named property over.
    pub fn notified(&mut self, notification: PropertyChangedNotification)
        ensures
            final(self)@ == old(self)@.after_notification(notification),
            final(self).spec_viewmodel() == old(self).spec_viewmodel(),
    {
        match notification {
            PropertyChangedNotification::HasCurrent => {
                self.has_current = self.viewmodel.get_has_current();
            },
            PropertyChangedNotification::HasPreview => {
                self.has_preview = self.viewmodel.get_has_preview();
            },
        }
    }

    /// What follows the news that notifications were lost: the menu takes
    /// every property over.
    pub fn lost(&mut self)
        ensures
            final(self)@ == old(self)@.after_loss(),
            final(self).spec_viewmodel() == old(self).spec_viewmodel(),
    {
        self.has_current = self.viewmodel.get_has_current();
        self.has_preview = self.viewmodel.get_has_preview();
    }
}

} // verus!
