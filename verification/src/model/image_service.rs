//! The editing service: the current picture, the provisional one, and the
//! finished loads that wait to be applied.

use crate::codec::decode;
use crate::model::image::{view_of, Image};
use crate::model::session::{CellId, EditSession};
use crate::operations::{grayscale, invert};
use crate::picture::{Picture, PictureView};
use std::collections::VecDeque;
use vstd::prelude::*;

verus! {

/// What a finished load reports.
pub enum Message {
    /// A picture was decoded and waits to become the current one.
    ImageLoaded(Picture),
}

impl View for Message {
    type V = PictureView;

    open spec fn view(&self) -> PictureView {
        match self {
            Message::ImageLoaded(picture) => picture@,
        }
    }
}

/// Owns the current and the provisional picture and carries out the
/// editing operations on them.
pub struct ImageService {
    message_queue: VecDeque<Message>,
    current_image: Image,
    preview_image: Image,
}

impl View for ImageService {
    type V = EditSession;

    closed spec fn view(&self) -> EditSession {
        EditSession {
            current: self.current_image@,
            preview: self.preview_image@,
            pending: self.message_queue@.map_values(|m: Message| m@),
        }
    }
}

impl ImageService {
    /// The current picture itself, if there is one.
    pub closed spec fn current_picture(&self) -> Option<Picture> {
        self.current_image.content()
    }

    /// The cell named `id`.
    pub closed spec fn spec_cell(&self, id: CellId) -> Image {
        match id {
            CellId::Current => self.current_image,
            CellId::Preview => self.preview_image,
        }
    }

    /// Whether the two cells are what they were with `before`: nothing was
    /// written, nothing signalled.
    pub open spec fn same_cells(&self, before: ImageService) -> bool {
        &&& self.spec_cell(CellId::Current) == before.spec_cell(CellId::Current)
        &&& self.spec_cell(CellId::Preview) == before.spec_cell(CellId::Preview)
    }

    /// Whether, since `before`, the current cell was written `current`
    /// times and the provisional cell `preview` times: each write was
    /// signalled, and every subscription stands where it stood.
    pub open spec fn wrote(&self, before: ImageService, current: nat, preview: nat) -> bool {
        &&& self.spec_cell(CellId::Current).keeps_subscribers(before.spec_cell(CellId::Current))
        &&& self.spec_cell(CellId::Preview).keeps_subscribers(before.spec_cell(CellId::Preview))
        &&& self.spec_cell(CellId::Current).signals() == before.spec_cell(
            CellId::Current,
        ).signals() + current
        &&& self.spec_cell(CellId::Preview).signals() == before.spec_cell(
            CellId::Preview,
        ).signals() + preview
    }

    /// Whether, since `before`, every subscription stands where it stood
    /// and no signal was taken back.
    pub open spec fn signalled(&self, before: ImageService) -> bool {
        exists|current: nat, preview: nat| self.wrote(before, current, preview)
    }

    /// What the session calls current is the value of the current picture.
    pub proof fn lemma_current_picture(&self)
        ensures
            self@.current == view_of(self.current_picture()),
    {
        self.current_image.lemma_view_of_content();
    }

    /// A service with no picture and nothing waiting.
    pub fn new() -> (service: ImageService)
        ensures
            service@ == EditSession::empty(),
            service.spec_cell(CellId::Current).signals() == 0,
            service.spec_cell(CellId::Preview).signals() == 0,
    {
        let service = Self {
            message_queue: VecDeque::new(),
            current_image: Image::new(),
            preview_image: Image::new(),
        };
        assert(service@.pending =~= Seq::empty());
        service
    }

    /// Applies the finished loads that wait, oldest first, each as a reset
    /// to its picture. Called once per frame.
    pub fn update(&mut self)
        ensures
            final(self)@ == old(self)@.update(),
            old(self)@.pending.len() == 0 ==> final(self)@ == old(self)@,
            final(self).wrote(*old(self), old(self)@.pending.len(), old(self)@.pending.len()),
    {
        let ghost start = self@;
        let ghost mut done: nat = 0;
        while self.message_queue.len() > 0
            invariant
                start == old(self)@,
                self.wrote(*old(self), done, done),
                done <= start.pending.len(),
                self@.pending == start.pending.skip(done as int),
                self@.current == start.apply_pending(done).current,
                self@.preview == start.apply_pending(done).preview,
            decreases self.message_queue.len(),
        {
            let ghost before = self@;
            let ghost queue = self.message_queue@;
            let message = self.message_queue.pop_front();
            match message {
                Some(Message::ImageLoaded(new_image)) => {
                    assert(before.pending.len() == queue.len());
                    assert(done < start.pending.len());
                    assert(before.pending[0] == queue[0]@);
                    assert(self@.pending =~= before.pending.skip(1));
                    assert(before.pending.skip(1) =~= start.pending.skip(done as int + 1));
                    assert(new_image@ == start.pending[done as int]);
                    self.reset(Some(new_image));
                    proof {
                        done = done + 1;
                    }
                },
                None => {},
            }
        }
        proof {
            assert(done == start.pending.len());
            start.lemma_apply_pending(done);
            assert(self@.pending =~= Seq::empty());
            if done == 0 {
                assert(self@.pending =~= start.pending);
            }
        }
    }

    /// The cell that holds the current picture.
    pub fn get_current_image(&self) -> (cell: &Image)
        ensures
            *cell == self.spec_cell(CellId::Current),
            cell@ == self@.current,
    {
        &self.current_image
    }

    /// The cell that holds the provisional picture.
    pub fn get_preview_image(&self) -> (cell: &Image)
        ensures
            *cell == self.spec_cell(CellId::Preview),
            cell@ == self@.preview,
    {
        &self.preview_image
    }

    /// The cell named `id`.
    pub fn cell(&self, id: CellId) -> (cell: &Image)
        ensures
            *cell == self.spec_cell(id),
            cell@ == self@.held(id),
    {
        match id {
            CellId::Current => &self.current_image,
            CellId::Preview => &self.preview_image,
        }
    }

    /// Queues a decoded picture as a finished load. The pictures stay as
    /// they are until the next update.
    pub fn deliver(&mut self, message: Message)
        ensures
            final(self)@ == old(self)@.deliver(message@),
            final(self).same_cells(*old(self)),
    {
        self.message_queue.push_back(message);
        assert(self@.pending =~= old(self)@.pending.push(message@));
    }

    /// Takes in what a load came to. Where it came to nothing, nothing
    /// happens. A decoded picture waits as a finished load; the next update
    /// makes it the current one.
    pub fn load_decoded(&mut self, outcome: Option<Picture>)
        ensures
            final(self)@ == old(self)@.loaded(view_of(outcome)),
            final(self)@.current == old(self)@.current,
            final(self)@.preview == old(self)@.preview,
            final(self).same_cells(*old(self)),
    {
        if let Some(image) = outcome {
            self.deliver(Message::ImageLoaded(image));
        }
    }

    /// Loads a new picture from the bytes of `file`: decodes them and takes
    /// in what that came to. Without a file nothing happens, and nothing
    /// happens where the decoder turns the bytes down.
    pub fn load_new_image(&mut self, file: Option<&[u8]>)
        ensures
            exists|outcome: Option<PictureView>|
                final(self)@ == #[trigger] old(self)@.loaded(outcome),
            file is None ==> final(self)@ == old(self)@,
            final(self)@.current == old(self)@.current,
            final(self)@.preview == old(self)@.preview,
            final(self).same_cells(*old(self)),
    {
        match file {
            Some(bytes) => {
                let outcome = decode(bytes);
                let ghost seen = view_of(outcome);
                self.load_decoded(outcome);
                assert(self@ == old(self)@.loaded(seen));
            },
            None => {
                assert(self@ == old(self)@.loaded(None));
            },
        }
    }

    /// Applies `func` to the current picture and shows the result as the
    /// provisional picture. Without a current picture `func` is not called
    /// and nothing changes; where `func` declines, nothing changes either.
    pub fn apply_transform<F: Fn(&Picture) -> Option<Picture>>(&mut self, func: F)
        requires
            forall|picture: Picture| #[trigger] call_requires(func, (&picture,)),
        ensures
            match old(self).current_picture() {
                Some(picture) => exists|outcome: Option<Picture>|
                    call_ensures(func, (&picture,), outcome)
                        && final(self)@ == old(self)@.transform(view_of(outcome))
                        && final(self).wrote(
                        *old(self),
                        0,
                        if outcome is Some {
                            1
                        } else {
                            0
                        },
                    ),
                None => final(self)@ == old(self)@ && final(self).wrote(*old(self), 0, 0),
            },
            old(self)@.current is None ==> final(self)@ == old(self)@,
            (forall|picture: Picture, outcome: Option<Picture>|
                call_ensures(func, (&picture,), outcome) ==> outcome is None) ==> final(self)@
                == old(self)@,
            final(self)@.current == old(self)@.current,
            final(self)@.pending == old(self)@.pending,
    {
        proof {
            self.lemma_current_picture();
        }
        let current_image = self.current_image.get();
        if let Some(current_image) = &*current_image {
            let outcome = func(current_image);
            let ghost seen = outcome;
            if let Some(transformed) = outcome {
                self.preview_image.set(Some(transformed));
            }
            assert(self@ == old(self)@.transform(view_of(seen)));
            assert(self.wrote(*old(self), 0, if seen is Some { 1 } else { 0 }));
        }
    }

    /// Shows the current picture in shades of grey as the provisional
    /// picture.
    pub fn apply_grayscale(&mut self)
        ensures
            final(self)@ == old(self)@.apply_grayscale(),
            final(self).wrote(*old(self), 0, if old(self)@.current is Some { 1 } else { 0 }),
    {
        proof {
            self.lemma_current_picture();
        }
        self.apply_transform(grayscale);
    }

    /// Shows the negative of the current picture as the provisional
    /// picture. A picture that is not grey has none, and nothing changes.
    pub fn apply_invert(&mut self)
        ensures
            final(self)@ == old(self)@.apply_invert(),
            final(self).wrote(*old(self), 0, if old(self)@.has_negative() { 1 } else { 0 }),
    {
        proof {
            self.lemma_current_picture();
        }
        self.apply_transform(invert);
    }

    /// Makes the provisional picture the current one. Without a
    /// provisional picture nothing happens.
    pub fn accept_operation(&mut self)
        ensures
            final(self)@ == old(self)@.accept(),
            old(self)@.preview is None ==> final(self)@ == old(self)@,
            old(self)@.preview is Some ==> final(self)@.current == old(self)@.preview,
            old(self)@.preview is Some ==> final(self)@.preview is None,
            final(self).wrote(
                *old(self),
                if old(self)@.preview is Some { 1 } else { 0 },
                if old(self)@.preview is Some { 1 } else { 0 },
            ),
    {
        let preview_image = self.preview_image.get();
        if preview_image.is_some() {
            self.preview_image.set(None);
            self.current_image.set_arc(preview_image);
        }
    }

    /// Drops the provisional picture. The current picture stays.
    pub fn discard_operation(&mut self)
        ensures
            final(self)@ == old(self)@.discard(),
            final(self)@.preview is None,
            final(self)@.current == old(self)@.current,
            final(self).wrote(*old(self), 0, 1),
    {
        self.preview_image.set(None);
    }

    /// Replaces the current picture by `new_image`, or by nothing, and
    /// drops the provisional picture.
    pub fn reset(&mut self, new_image: Option<Picture>)
        ensures
            final(self)@ == old(self)@.reset(view_of(new_image)),
            final(self)@.current == view_of(new_image),
            final(self)@.preview is None,
            final(self).wrote(*old(self), 1, 1),
    {
        self.current_image.set(new_image);
        self.preview_image.set(None);
    }
}

} // verus!
