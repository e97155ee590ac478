//! The mathematical state of the editing service, the steps that lead from
//! one state to the next, and what holds of them.

use crate::operations::{grayscale_spec, invert_spec};
use crate::picture::{PictureView, PixelLayout};
use vstd::prelude::*;

verus! {

/// Names one of the two cells of a service.
#[derive(Clone, Copy, Debug, PartialEq, Eq, Structural)]
pub enum CellId {
    /// The cell of the picture that is being edited.
    Current,
    /// The cell of the provisional picture.
    Preview,
}

/// The mathematical state of the service.
pub struct EditSession {
    /// The picture that is being edited.
    pub current: Option<PictureView>,
    /// The provisional result of a transform, not yet accepted.
    pub preview: Option<PictureView>,
    /// The pictures of finished loads, oldest first, that the next update
    /// applies.
    pub pending: Seq<PictureView>,
}

impl EditSession {
    /// The session at the start: no picture, nothing waiting.
    pub open spec fn empty() -> EditSession {
        EditSession { current: None, preview: None, pending: Seq::empty() }
    }

    /// What the cell named `id` holds.
    pub open spec fn held(self, id: CellId) -> Option<PictureView> {
        match id {
            CellId::Current => self.current,
            CellId::Preview => self.preview,
        }
    }

    /// A finished load joins the queue. The pictures stay as they are.
    pub open spec fn deliver(self, picture: PictureView) -> EditSession {
        EditSession { pending: self.pending.push(picture), ..self }
    }

    /// A load came to `outcome`. Where it came to nothing, because there
    /// was no source or its bytes were no image, nothing changes; else the
    /// decoded picture joins the queue.
    pub open spec fn loaded(self, outcome: Option<PictureView>) -> EditSession {
        match outcome {
            Some(picture) => self.deliver(picture),
            None => self,
        }
    }

    /// The current picture is replaced and the provisional one dropped.
    pub open spec fn reset(self, new_image: Option<PictureView>) -> EditSession {
        EditSession { current: new_image, preview: None, ..self }
    }

    /// The first `n` waiting pictures are applied in turn, each by a reset.
    pub open spec fn apply_pending(self, n: nat) -> EditSession
        decreases n,
    {
        if n == 0 {
            self
        } else {
            self.apply_pending((n - 1) as nat).reset(Some(self.pending[n - 1]))
        }
    }

    /// The queue is drained: every waiting picture is applied in turn, so
    /// that the last one stays as the current picture.
    pub open spec fn update(self) -> EditSession {
        if self.pending.len() == 0 {
            self
        } else {
            EditSession { current: Some(self.pending.last()), preview: None, pending: Seq::empty() }
        }
    }

    /// A transform was asked for and came to `outcome`. With a current
    /// picture and a result, the result becomes the provisional picture;
    /// without either, nothing changes.
    pub open spec fn transform(self, outcome: Option<PictureView>) -> EditSession {
        match (self.current, outcome) {
            (Some(_), Some(result)) => EditSession { preview: Some(result), ..self },
            _ => self,
        }
    }

    /// The current picture in shades of grey becomes the provisional one.
    pub open spec fn apply_grayscale(self) -> EditSession {
        match self.current {
            Some(picture) => self.transform(Some(grayscale_spec(picture))),
            None => self,
        }
    }

    /// The negative of the current picture becomes the provisional one,
    /// where the current picture has a negative.
    pub open spec fn apply_invert(self) -> EditSession {
        match self.current {
            Some(picture) => self.transform(invert_spec(picture)),
            None => self,
        }
    }

    /// Whether there is a current picture and it has a negative.
    pub open spec fn has_negative(self) -> bool {
        self.current is Some && invert_spec(self.current->0) is Some
    }

    /// The provisional picture, where there is one, becomes the current one.
    pub open spec fn accept(self) -> EditSession {
        match self.preview {
            Some(picture) => EditSession { current: Some(picture), preview: None, ..self },
            None => self,
        }
    }

    /// The provisional picture is dropped.
    pub open spec fn discard(self) -> EditSession {
        EditSession { preview: None, ..self }
    }
}

/// Where the editing stands.
#[derive(Clone, Copy, Debug, PartialEq, Eq, Structural)]
pub enum Phase {
    /// No picture.
    Empty,
    /// A current picture and no provisional one.
    HasCurrent,
    /// A current picture and a provisional one that waits to be accepted
    /// or dropped.
    HasCurrentAndPreview,
}

impl EditSession {
    /// A provisional picture never stands without a current one.
    pub open spec fn settled(self) -> bool {
        self.preview is Some ==> self.current is Some
    }

    /// Where the editing stands.
    pub open spec fn phase(self) -> Phase {
        if self.current is None {
            Phase::Empty
        } else if self.preview is None {
            Phase::HasCurrent
        } else {
            Phase::HasCurrentAndPreview
        }
    }

    /// Draining the queue is applying each waiting picture in turn.
    pub proof fn lemma_update_applies_each(self)
        ensures
            self.update().current == self.apply_pending(self.pending.len()).current,
            self.update().preview == self.apply_pending(self.pending.len()).preview,
    {
        self.lemma_apply_pending(self.pending.len());
    }

    /// After the first `n` waiting pictures were applied, the last of them is
    /// current and no provisional picture is left.
    pub proof fn lemma_apply_pending(self, n: nat)
        requires
            n <= self.pending.len(),
        ensures
            n == 0 ==> self.apply_pending(n) == self,
            n > 0 ==> self.apply_pending(n).current == Some(self.pending[n - 1]),
            n > 0 ==> self.apply_pending(n).preview is None,
        decreases n,
    {
        if n > 0 {
            self.lemma_apply_pending((n - 1) as nat);
        }
    }

    /// A load that came to a picture, once applied, makes that picture the
    /// current one and leaves no provisional picture, whatever the session
    /// held before. Until it is applied the pictures stay.
    pub proof fn lemma_load_valid(self, picture: PictureView)
        ensures
            self.loaded(Some(picture)).update().current == Some(picture),
            self.loaded(Some(picture)).update().preview is None,
            self.loaded(Some(picture)).update().pending.len() == 0,
            self.loaded(Some(picture)).current == self.current,
            self.loaded(Some(picture)).preview == self.preview,
    {
    }

    /// A load that came to nothing, for want of a source or of bytes that
    /// are an image, changes nothing.
    pub proof fn lemma_load_invalid(self)
        ensures
            self.loaded(None) == self,
            self.pending.len() == 0 ==> self.loaded(None).update() == self,
    {
    }

    /// Without a current picture a transform changes nothing, whatever it
    /// would come to.
    pub proof fn lemma_transform_without_current(self, outcome: Option<PictureView>)
        requires
            self.current is None,
        ensures
            self.transform(outcome) == self,
            self.apply_grayscale() == self,
            self.apply_invert() == self,
    {
    }

    /// A transform that declines changes nothing.
    pub proof fn lemma_transform_declined(self)
        ensures
            self.transform(None) == self,
            self.current matches Some(picture) && picture.layout == PixelLayout::Rgba
                ==> self.apply_invert() == self,
    {
    }

    /// A transform that comes to a result on a current picture shows the
    /// result as the provisional picture and leaves the current one.
    pub proof fn lemma_transform_done(self, result: PictureView)
        requires
            self.current is Some,
        ensures
            self.transform(Some(result)).preview == Some(result),
            self.transform(Some(result)).current == self.current,
            self.transform(Some(result)).pending == self.pending,
    {
    }

    /// Accepting without a provisional picture changes nothing.
    pub proof fn lemma_accept_without_preview(self)
        requires
            self.preview is None,
        ensures
            self.accept() == self,
    {
    }

    /// Accepting a provisional picture makes it the current one and leaves
    /// no provisional picture; accepting once more changes nothing.
    pub proof fn lemma_accept_preview(self)
        requires
            self.preview is Some,
        ensures
            self.accept().current == self.preview,
            self.accept().preview is None,
            self.accept().pending == self.pending,
            self.accept().accept() == self.accept(),
    {
    }

    /// Dropping the provisional picture leaves none, and leaves the current
    /// picture as it is.
    pub proof fn lemma_discard(self)
        ensures
            self.discard().preview is None,
            self.discard().current == self.current,
            self.discard().pending == self.pending,
            self.discard().discard() == self.discard(),
    {
    }

    /// A reset to nothing leaves neither a current nor a provisional
    /// picture, whatever the session held.
    pub proof fn lemma_reset_to_nothing(self)
        ensures
            self.reset(None).current is None,
            self.reset(None).preview is None,
            self.reset(None).pending == self.pending,
    {
    }

    /// No operation leaves a provisional picture without a current one.
    pub proof fn lemma_settled_is_kept(
        self,
        loaded: Option<PictureView>,
        picture: PictureView,
        outcome: Option<PictureView>,
        new_image: Option<PictureView>,
    )
        requires
            self.settled(),
        ensures
            EditSession::empty().settled(),
            self.deliver(picture).settled(),
            self.loaded(loaded).settled(),
            self.update().settled(),
            self.transform(outcome).settled(),
            self.apply_grayscale().settled(),
            self.apply_invert().settled(),
            self.accept().settled(),
            self.discard().settled(),
            self.reset(new_image).settled(),
    {
    }

    /// A provisional picture never outlives the current picture it was made
    /// from: whatever changes the current picture leaves no provisional
    /// one.
    pub proof fn lemma_preview_goes_with_current(
        self,
        loaded: Option<PictureView>,
        picture: PictureView,
        outcome: Option<PictureView>,
        new_image: Option<PictureView>,
    )
        ensures
            self.deliver(picture).current == self.current,
            self.loaded(loaded).current == self.current,
            self.transform(outcome).current == self.current,
            self.apply_grayscale().current == self.current,
            self.apply_invert().current == self.current,
            self.discard().current == self.current,
            self.update().current != self.current ==> self.update().preview is None,
            self.accept().current != self.current ==> self.accept().preview is None,
            self.reset(new_image).preview is None,
    {
    }

    /// Draining the queue leaves nothing to drain: a second update changes
    /// nothing.
    pub proof fn lemma_update_twice(self)
        ensures
            self.update().pending.len() == 0,
            self.update().update() == self.update(),
    {
    }

    /// The steps of the editing workflow: a load that succeeds leads from
    /// any phase to a current picture alone; a transform that succeeds
    /// adds a provisional picture; accepting or dropping it leads back; a
    /// reset to nothing leads to the empty phase.
    pub proof fn lemma_workflow(self, picture: PictureView, result: PictureView)
        requires
            self.settled(),
        ensures
            EditSession::empty().phase() == Phase::Empty,
            self.loaded(Some(picture)).update().phase() == Phase::HasCurrent,
            self.phase() == Phase::HasCurrent ==> self.transform(Some(result)).phase()
                == Phase::HasCurrentAndPreview,
            self.phase() == Phase::HasCurrentAndPreview ==> self.accept().phase()
                == Phase::HasCurrent,
            self.phase() == Phase::HasCurrentAndPreview ==> self.discard().phase()
                == Phase::HasCurrent,
            self.reset(None).phase() == Phase::Empty,
            self.phase() == Phase::Empty ==> self.transform(Some(result)).phase() == Phase::Empty,
            self.phase() == Phase::Empty ==> self.accept().phase() == Phase::Empty,
            self.phase() == Phase::Empty ==> self.discard().phase() == Phase::Empty,
            self.phase() == Phase::HasCurrent ==> self.accept().phase() == Phase::HasCurrent,
            self.phase() == Phase::HasCurrent ==> self.discard().phase() == Phase::HasCurrent,
    {
    }

    /// A whole edit: from the empty session, loading a picture, turning it
    /// to grey, accepting the result, and resetting.
    pub proof fn lemma_edit_from_load_to_reset(picture: PictureView)
        ensures
            ({
                let loaded = EditSession::empty().loaded(Some(picture)).update();
                let previewed = loaded.apply_grayscale();
                let accepted = previewed.accept();
                let cleared = accepted.reset(None);
                &&& loaded == (EditSession {
                    current: Some(picture),
                    preview: None,
                    pending: Seq::empty(),
                })
                &&& previewed == (EditSession {
                    current: Some(picture),
                    preview: Some(grayscale_spec(picture)),
                    pending: Seq::empty(),
                })
                &&& accepted == (EditSession {
                    current: Some(grayscale_spec(picture)),
                    preview: None,
                    pending: Seq::empty(),
                })
                &&& cleared == EditSession::empty()
            }),
    {
    }
}

} // verus!
