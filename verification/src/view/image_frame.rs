//! A window that shows one picture.

use crate::model::image::{view_of, Image};
use crate::picture::{Picture, PictureView};
use crate::signal::{Polled, SIGNAL_CAPACITY};
use crate::view::GuiAction;
use crate::viewmodel;
use crate::viewmodel::image_frame::{FrameProperties, PropertyChangedNotification};
use tokio::sync::broadcast::Receiver;
use vstd::prelude::*;

verus! {

/// The mathematical value of a texture.
pub struct TextureView {
    pub width: nat,
    pub height: nat,
    pub pixels: Seq<u8>,
}

/// The texture that shows `picture`: its size, and red, green, blue and
/// alpha of each of its pixels.
pub open spec fn texture_of(picture: PictureView) -> TextureView {
    TextureView { width: picture.width, height: picture.height, pixels: picture.rgba_samples() }
}

/// The texture that shows a picture that may be absent.
pub open spec fn texture_of_option(picture: Option<PictureView>) -> Option<TextureView> {
    match picture {
        Some(p) => Some(texture_of(p)),
        None => None,
    }
}

/// A picture made ready for drawing: its size and, for each pixel, red,
/// green, blue and alpha. Every texture holds four samples for each of its
/// pixels.
pub struct Texture {
    size: [usize; 2],
    pixels: Vec<u8>,
}

impl View for Texture {
    type V = TextureView;

    closed spec fn view(&self) -> TextureView {
        TextureView {
            width: self.size[0] as nat,
            height: self.size[1] as nat,
            pixels: self.pixels@,
        }
    }
}

impl TextureView {
    /// There are four samples for each pixel.
    pub open spec fn wf(self) -> bool {
        self.pixels.len() == 4 * (self.width * self.height)
    }
}

impl Texture {
    #[verifier::type_invariant]
    spec fn well_formed(self) -> bool {
        self@.wf()
    }

    /// Makes `picture` ready for drawing.
    pub fn from_picture(picture: &Picture) -> (texture: Texture)
        ensures
            texture@ == texture_of(picture@),
    {
        let size: [usize; 2] = [picture.width() as usize, picture.height() as usize];
        let pixels = picture.to_rgba8();
        Texture { size, pixels }
    }

    /// Width and height, in pixels.
    pub fn size(&self) -> (size: [usize; 2])
        ensures
            size[0] == self@.width,
            size[1] == self@.height,
    {
        self.size
    }

    /// Red, green, blue and alpha of each pixel, row by row.
    pub fn pixels(&self) -> (pixels: &Vec<u8>)
        ensures
            pixels@ == self@.pixels,
            self@.wf(),
    {
        proof {
            use_type_invariant(self);
        }
        &self.pixels
    }
}

/// What is inside a picture window.
#[derive(Clone, Copy, Debug, PartialEq, Eq, Structural)]
pub enum FrameContent {
    /// The picture of the window.
    Picture,
    /// A note that there is nothing to show, and below it, where
    /// `offer_open` holds, a button that opens a picture.
    NothingToShow { offer_open: bool },
}

/// The window as a frame draws it.
pub struct Window {
    /// The title to draw.
    pub title: String,
    /// Whether the window is drawn at all.
    pub open: bool,
    /// Whether the frame was told of a new picture, so that what was made
    /// of the old texture is out of date.
    pub image_changed: bool,
}

/// What a picture window holds from frame to frame.
pub struct FrameState {
    /// Whether the window offers to open a picture while it has none.
    pub accept_input: bool,
    /// The texture of the picture, where there is one.
    pub image: Option<TextureView>,
    /// Whether the window is open.
    pub open: bool,
    /// The title of the window.
    pub title: Seq<char>,
    /// How many notifications of its view-model the window has passed, or
    /// nothing where it is not subscribed to it.
    pub seen: Option<nat>,
    /// What the view-model of the window holds and has told.
    pub viewmodel: FrameProperties,
}

impl FrameState {
    /// What is inside the window.
    pub open spec fn content(self) -> FrameContent {
        match self.image {
            Some(_) => FrameContent::Picture,
            None => FrameContent::NothingToShow { offer_open: self.accept_input },
        }
    }

    /// Whether the window is subscribed to its view-model and has passed
    /// no more notifications than the view-model has sent.
    pub open spec fn tied(self) -> bool {
        self.seen is Some && self.seen->0 <= self.viewmodel.notified.len()
    }

    /// Whether notifications were lost: more wait than the channel keeps.
    pub open spec fn lost(self) -> bool {
        self.viewmodel.notified.len() - self.seen->0 > SIGNAL_CAPACITY
    }

    /// The first notification that the window can still get.
    pub open spec fn first_kept(self) -> nat {
        if self.lost() {
            (self.viewmodel.notified.len() - SIGNAL_CAPACITY) as nat
        } else {
            self.seen->0
        }
    }

    /// The state after the view-model named a property that changed: the
    /// window takes the property over, and for a changed picture makes a
    /// texture of the picture that the view-model holds.
    pub open spec fn after_notification(self, notification: PropertyChangedNotification) -> FrameState {
        match notification {
            PropertyChangedNotification::AcceptInput => FrameState {
                accept_input: self.viewmodel.accept_input,
                ..self
            },
            PropertyChangedNotification::Image => FrameState {
                image: texture_of_option(self.viewmodel.image),
                ..self
            },
            PropertyChangedNotification::Open => FrameState { open: self.viewmodel.open, ..self },
            PropertyChangedNotification::Title => FrameState { title: self.viewmodel.title, ..self },
        }
    }

    /// The state after the news that notifications were lost: the window
    /// takes every property over from the view-model.
    pub open spec fn after_loss(self) -> FrameState {
        FrameState {
            accept_input: self.viewmodel.accept_input,
            image: texture_of_option(self.viewmodel.image),
            open: self.viewmodel.open,
            title: self.viewmodel.title,
            ..self
        }
    }

    /// Whether the notifications up to the first `to` tell of `property`:
    /// one of them names it, or notifications were lost.
    pub open spec fn told_of(self, property: PropertyChangedNotification, to: nat) -> bool {
        to >= self.first_kept() && (self.lost() || self.viewmodel.notified.subrange(
            self.first_kept() as int,
            to as int,
        ).contains(property))
    }

    /// The state after the notifications up to the first `to` were taken:
    /// the window has taken over each property that they tell of.
    pub open spec fn drained_to(self, to: nat) -> FrameState {
        FrameState {
            accept_input: if self.told_of(PropertyChangedNotification::AcceptInput, to) {
                self.viewmodel.accept_input
            } else {
                self.accept_input
            },
            image: if self.told_of(PropertyChangedNotification::Image, to) {
                texture_of_option(self.viewmodel.image)
            } else {
                self.image
            },
            open: if self.told_of(PropertyChangedNotification::Open, to) {
                self.viewmodel.open
            } else {
                self.open
            },
            title: if self.told_of(PropertyChangedNotification::Title, to) {
                self.viewmodel.title
            } else {
                self.title
            },
            seen: Some(to),
            ..self
        }
    }

    /// The state after every notification that waited was taken.
    pub open spec fn drained(self) -> FrameState {
        self.drained_to(self.viewmodel.notified.len())
    }

    /// The drain takes over the property that a waiting notification names.
    pub proof fn lemma_drained_takes(self, at: int)
        requires
            self.tied(),
            self.first_kept() <= at < self.viewmodel.notified.len(),
        ensures
            self.told_of(self.viewmodel.notified[at], self.viewmodel.notified.len()),
    {
        let taken = self.viewmodel.notified.subrange(
            self.first_kept() as int,
            self.viewmodel.notified.len() as int,
        );
        assert(taken[at - self.first_kept()] == self.viewmodel.notified[at]);
    }

    /// The state after the window was drawn: whether it is still open has
    /// gone to the view-model, which has told of it.
    pub open spec fn after_drawn(self, open: bool) -> FrameState {
        FrameState {
            viewmodel: FrameProperties { open, ..self.viewmodel }.told(
                PropertyChangedNotification::Open,
            ),
            ..self
        }
    }

    /// Whether `after` can follow this state in a frame: each property of
    /// the window is what it was, or was taken over from the view-model of
    /// `after`.
    pub open spec fn refreshed(self, after: FrameState) -> bool {
        &&& after.accept_input == self.accept_input || after.accept_input
            == after.viewmodel.accept_input
        &&& after.image == self.image || after.image == texture_of_option(after.viewmodel.image)
        &&& after.open == self.open || after.open == after.viewmodel.open
        &&& after.title == self.title || after.title == after.viewmodel.title
    }

    /// Whether a frame can lead from this state to `after` and hand back
    /// `window`. The view-model has polled its cell once. A window that is
    /// subscribed to its view-model has then taken every notification
    /// that waited, and says that the picture changed exactly where they
    /// told of the picture. The window is drawn as `after` has it.
    pub open spec fn shown(
        self,
        after: FrameState,
        window: Window,
        model: Option<PictureView>,
    ) -> bool {
        &&& window.title@ == after.title
        &&& window.open == after.open
        &&& after.viewmodel == self.viewmodel || after.viewmodel == self.viewmodel.after_poll(
            true,
            model,
        )
        &&& self.refreshed(after)
        &&& !window.image_changed ==> after.image == self.image
        &&& window.image_changed ==> after.image == texture_of_option(after.viewmodel.image)
        &&& self.tied() ==> {
            let polled = FrameState { viewmodel: after.viewmodel, ..self };
            &&& after == polled.drained()
            &&& window.image_changed == polled.told_of(
                PropertyChangedNotification::Image,
                polled.viewmodel.notified.len(),
            )
        }
    }
}

/// A window that shows the picture of one cell, or offers to open one.
pub struct ImageFrame {
    accept_input: bool,
    image: Option<Texture>,
    open: bool,
    title: String,
    viewmodel: viewmodel::image_frame::ImageFrame,
    vm_rx: Receiver<PropertyChangedNotification>,
}

impl View for ImageFrame {
    type V = FrameState;

    closed spec fn view(&self) -> FrameState {
        FrameState {
            accept_input: self.accept_input,
            image: match self.image {
                Some(texture) => Some(texture@),
                None => None,
            },
            open: self.open,
            title: self.title@,
            seen: self.viewmodel.passed(self.vm_rx),
            viewmodel: self.viewmodel@,
        }
    }
}

impl ImageFrame {
    /// The view-model of the window.
    pub closed spec fn spec_viewmodel(&self) -> viewmodel::image_frame::ImageFrame {
        self.viewmodel
    }

    /// A window over `viewmodel`. It takes its properties and its picture
    /// from the view-model, and has passed every notification so far.
    pub fn new(viewmodel: viewmodel::image_frame::ImageFrame) -> (frame: ImageFrame)
        ensures
            frame@ == (FrameState {
                accept_input: viewmodel@.accept_input,
                image: texture_of_option(viewmodel@.image),
                open: viewmodel@.open,
                title: viewmodel@.title,
                seen: Some(viewmodel@.notified.len()),
                viewmodel: viewmodel@,
            }),
            frame.spec_viewmodel() == viewmodel,
    {
        let vm_rx = viewmodel.get_receiver();
        let mut result = Self {
            accept_input: viewmodel.get_accept_input(),
            image: None,
            open: viewmodel.get_open(),
            title: viewmodel.get_title().clone(),
            vm_rx,
            viewmodel,
        };
        let snapshot = result.viewmodel.get_image();
        result.set_image(&*snapshot);
        result
    }

    /// Makes a texture of `image`, or drops the texture where there is no
    /// picture.
    pub fn set_image(&mut self, image: &Option<Picture>)
        ensures
            final(self)@ == (FrameState { image: texture_of_option(view_of(*image)), ..old(self)@ }),
            final(self).spec_viewmodel() == old(self).spec_viewmodel(),
    {
        match image {
            Some(image) => {
                self.image = Some(Texture::from_picture(image));
            },
            None => {
                self.image = None;
            },
        }
    }

    /// The texture of the picture, where there is one.
    pub fn texture(&self) -> (texture: Option<&Texture>)
        ensures
            match texture {
                Some(t) => self@.image == Some(t@),
                None => self@.image is None,
            },
    {
        self.image.as_ref()
    }

    /// What is inside the window in this frame.
    pub fn content(&self) -> (content: FrameContent)
        ensures
            content == self@.content(),
    {
        match self.image {
            Some(_) => FrameContent::Picture,
            None => FrameContent::NothingToShow { offer_open: self.accept_input },
        }
    }

    /// What the inside of the window asks for. A click on the button that
    /// opens a picture asks for the file dialog; the button is there only
    /// while the window has no picture and accepts input.
    pub fn ui(&self, open_clicked: bool) -> (action: Option<GuiAction>)
        ensures
            action == if open_clicked && self@.content() == (FrameContent::NothingToShow {
                offer_open: true,
            }) {
                Some(GuiAction::OpenFileDialog)
            } else {
                None
            },
    {
        match self.image {
            Some(_) => None,
            None => {
                if self.accept_input && open_clicked {
                    Some(GuiAction::OpenFileDialog)
                } else {
                    None
                }
            },
        }
    }

    /// What a frame does before the window is drawn. The view-model polls
    /// its cell. Every notification of the view-model that waits is taken,
    /// and for each the window takes the named property over; where
    /// notifications were lost, it takes every property over. The window
    /// is handed back as it is to be drawn.
    pub fn show(&mut self, model: &Image) -> (window: Window)
        ensures
            old(self)@.shown(final(self)@, window, model@),
            old(self).spec_viewmodel().follows(model) ==> {
                &&& final(self)@.viewmodel == old(self)@.viewmodel.after_poll(
                    old(self).spec_viewmodel().seen(model) < model.signals(),
                    model@,
                )
                &&& final(self).spec_viewmodel().follows(model)
                &&& final(self).spec_viewmodel().seen(model) == crate::signal::passed_after(
                    model.signals(),
                    old(self).spec_viewmodel().seen(model),
                    SIGNAL_CAPACITY as nat,
                )
            },
    {
        self.viewmodel.process_messages(model);
        let ghost polled = self@;
        let ghost polled_viewmodel = self.viewmodel;
        let ghost mut at: nat = 0;
        proof {
            if polled.tied() {
                at = polled.seen->0;
                assert(polled.viewmodel.notified.subrange(at as int, at as int) =~= Seq::empty());
                assert(polled.drained_to(at) == polled);
            }
        }
        let mut image_changed = false;
        let mut left: usize = SIGNAL_CAPACITY + 2;
        while left > 0
            invariant
                left <= SIGNAL_CAPACITY + 2,
                self.spec_viewmodel() == polled_viewmodel,
                self@.viewmodel == polled.viewmodel,
                polled.refreshed(self@),
                !image_changed ==> self@.image == polled.image,
                image_changed ==> self@.image == texture_of_option(polled.viewmodel.image),
                polled.tied() ==> {
                    &&& polled.seen->0 <= at <= polled.viewmodel.notified.len()
                    &&& self@ == polled.drained_to(at)
                    &&& image_changed == polled.told_of(PropertyChangedNotification::Image, at)
                    &&& at < polled.viewmodel.notified.len() ==> (if polled.viewmodel.notified.len()
                        - at > SIGNAL_CAPACITY {
                        SIGNAL_CAPACITY + 2
                    } else {
                        polled.viewmodel.notified.len() - at + 1
                    }) <= left
                    &&& at >= polled.first_kept() || at == polled.seen->0
                },
            decreases left,
        {
            match self.viewmodel.poll(&mut self.vm_rx) {
                Polled::Got(notification) => {
                    self.notified(notification);
                    match notification {
                        PropertyChangedNotification::Image => {
                            image_changed = true;
                        },
                        _ => {},
                    }
                    proof {
                        if polled.tied() {
                            Self::lemma_take_one(polled, at);
                            at = at + 1;
                        }
                    }
                    left -= 1;
                },
                Polled::Lagged => {
                    self.lost();
                    image_changed = true;
                    proof {
                        if polled.tied() {
                            at = polled.first_kept();
                            assert(polled.viewmodel.notified.subrange(at as int, at as int)
                                =~= Seq::empty());
                        }
                    }
                    left -= 1;
                },
                Polled::Empty => {
                    left = 0;
                },
                Polled::Closed => {
                    left = 0;
                },
            }
        }
        Window { title: self.title.clone(), open: self.open, image_changed }
    }

    /// Taking the notification at `at` after those before it is taking the
    /// notifications up to `at + 1`.
    proof fn lemma_take_one(polled: FrameState, at: nat)
        requires
            polled.tied(),
            polled.first_kept() <= at < polled.viewmodel.notified.len(),
        ensures
            polled.drained_to(at + 1) == (FrameState {
                seen: Some(at + 1),
                ..polled.drained_to(at).after_notification(polled.viewmodel.notified[at as int])
            }),
            forall|n: PropertyChangedNotification|
                polled.told_of(n, at + 1) == (polled.told_of(n, at) || n
                    == polled.viewmodel.notified[at as int]),
    {
        let notes = polled.viewmodel.notified;
        let first = polled.first_kept() as int;
        let taken = notes.subrange(first, at as int);
        let more = notes.subrange(first, at as int + 1);
        assert(more =~= taken.push(notes[at as int]));
        assert forall|n: PropertyChangedNotification|
            more.contains(n) == (taken.contains(n) || n == notes[at as int]) by {
            if taken.contains(n) {
                let i = choose|i: int| 0 <= i < taken.len() && taken[i] == n;
                assert(more[i] == n);
            }
            if n == notes[at as int] {
                assert(more[more.len() - 1] == n);
            }
            if more.contains(n) {
                let i = choose|i: int| 0 <= i < more.len() && more[i] == n;
                if i < taken.len() {
                    assert(taken[i] == n);
                }
            }
        }
    }

    /// What follows a notification of the view-model: the window takes the
    /// named property over, and for a changed picture makes a texture of
    /// the picture that the view-model holds.
    pub fn notified(&mut self, notification: PropertyChangedNotification)
        ensures
            final(self)@ == old(self)@.after_notification(notification),
            final(self).spec_viewmodel() == old(self).spec_viewmodel(),
    {
        match notification {
            PropertyChangedNotification::AcceptInput => {
                self.accept_input = self.viewmodel.get_accept_input();
            },
            PropertyChangedNotification::Image => {
                let snapshot = self.viewmodel.get_image();
                self.set_image(&*snapshot);
            },
            PropertyChangedNotification::Open => {
                self.open = self.viewmodel.get_open();
            },
            PropertyChangedNotification::Title => {
                self.title = self.viewmodel.get_title().clone();
            },
        }
    }

    /// What follows the news that notifications were lost: the window
    /// takes every property over from the view-model.
    pub fn lost(&mut self)
        ensures
            final(self)@ == old(self)@.after_loss(),
            final(self).spec_viewmodel() == old(self).spec_viewmodel(),
    {
        self.accept_input = self.viewmodel.get_accept_input();
        let snapshot = self.viewmodel.get_image();
        self.set_image(&*snapshot);
        self.open = self.viewmodel.get_open();
        self.title = self.viewmodel.get_title().clone();
    }

    /// What a frame does after the window was drawn: whether the window is
    /// still open goes to the view-model, which tells of it.
    pub fn drawn(&mut self, open: bool)
        ensures
            final(self)@ == old(self)@.after_drawn(open),
            final(self).spec_viewmodel().keeps_ties(old(self).spec_viewmodel()),
    {
        self.viewmodel.set_open(open);
    }
}

} // verus!
