//! The view-model of a window that shows one picture.

use crate::model::image::{view_of, Image};
use crate::model::image_service::ImageService;
use crate::picture::{Picture, PictureView};
use crate::signal::{passed_after, poll_result, tells, FrameOutlet, Polled, SIGNAL_CAPACITY};
use std::sync::Arc;
use tokio::sync::broadcast::Receiver;
use vstd::prelude::*;

verus! {

/// Names the property of an image frame that changed.
#[derive(Clone, Copy, Debug, PartialEq, Eq, Structural)]
pub enum PropertyChangedNotification {
    AcceptInput,
    Image,
    Open,
    Title,
}

/// What an image frame shows, and what it has told its view.
pub struct FrameProperties {
    /// Whether the frame offers to load a picture while it has none.
    pub accept_input: bool,
    /// The picture as the frame saw it last.
    pub image: Option<PictureView>,
    /// Whether the window is open.
    pub open: bool,
    /// The title of the window.
    pub title: Seq<char>,
    /// The notifications that the frame has sent so far, oldest first.
    pub notified: Seq<PropertyChangedNotification>,
}

impl FrameProperties {
    /// The properties after `notification` was sent.
    pub open spec fn told(self, notification: PropertyChangedNotification) -> FrameProperties {
        FrameProperties { notified: self.notified.push(notification), ..self }
    }

    /// The properties after the cell was polled: where it told of a change,
    /// the frame holds what the cell holds now and has told its view.
    pub open spec fn after_poll(self, changed: bool, model: Option<PictureView>) -> FrameProperties {
        if changed {
            FrameProperties { image: model, ..self }.told(PropertyChangedNotification::Image)
        } else {
            self
        }
    }
}

/// Calls `Arc::clone`, which makes another handle to the same value. The
/// contract claims that the copy leads to what the handle leads to.
#[verifier::external_body]
fn share(handle: &Arc<Option<Picture>>) -> (copy: Arc<Option<Picture>>)
    ensures
        copy == *handle,
{
    Arc::clone(handle)
}

/// The view-model of a window that shows the picture of one cell.
pub struct ImageFrame {
    view_channel: FrameOutlet,
    accept_input: bool,
    image: Arc<Option<Picture>>,
    open: bool,
    title: String,
    model_rx: Receiver<()>,
}

impl View for ImageFrame {
    type V = FrameProperties;

    closed spec fn view(&self) -> FrameProperties {
        FrameProperties {
            accept_input: self.accept_input,
            image: view_of(*self.image),
            open: self.open,
            title: self.title@,
            notified: self.view_channel.sent(),
        }
    }
}

impl ImageFrame {
    /// The subscription of the frame to its cell.
    pub closed spec fn subscription(&self) -> Receiver<()> {
        self.model_rx
    }

    /// Whether the frame is subscribed to `model` and has passed no more
    /// signals than `model` has sent.
    pub open spec fn follows(&self, model: &Image) -> bool {
        model.passed(self.subscription()) is Some && model.passed(self.subscription())->0
            <= model.signals()
    }

    /// How many signals of `model` the frame has passed.
    pub open spec fn seen(&self, model: &Image) -> nat {
        model.passed(self.subscription())->0
    }

    /// How many signals of `model` wait for the frame.
    pub open spec fn waiting(&self, model: &Image) -> nat {
        (model.signals() - self.seen(model)) as nat
    }

    /// How many notifications of the frame a subscription has passed, or
    /// nothing where it is no subscription to this frame.
    pub closed spec fn passed(&self, receiver: Receiver<PropertyChangedNotification>) -> Option<nat> {
        self.view_channel.passed(receiver)
    }

    /// Whether the frame is subscribed as `before` was, and every
    /// subscription to it stands where it stood with `before`.
    pub open spec fn keeps_ties(&self, before: ImageFrame) -> bool {
        &&& self.subscription() == before.subscription()
        &&& forall|receiver: Receiver<PropertyChangedNotification>| #[trigger]
            self.passed(receiver) == before.passed(receiver)
    }

    /// A view-model for a window titled `title` that follows `model`. The
    /// window starts open and without a picture, and has told nothing.
    pub fn new(title: &str, accept_input: bool, model: &Image) -> (frame: ImageFrame)
        ensures
            frame@ == (FrameProperties {
                accept_input,
                image: None,
                open: true,
                title: title@,
                notified: Seq::empty(),
            }),
            model.passed(frame.subscription()) == Some(model.signals()),
    {
        let model_rx = model.get_property_changed_rx();
        Self {
            view_channel: FrameOutlet::new(),
            title: title.to_owned(),
            image: Arc::new(None),
            accept_input,
            open: true,
            model_rx,
        }
    }

    /// Polls the cell once. Where a signal waits, or signals were lost,
    /// the frame takes a fresh snapshot of `model` and tells its view;
    /// else nothing changes.
    pub fn process_messages(&mut self, model: &Image)
        ensures
            final(self)@ == old(self)@ || final(self)@ == old(self)@.after_poll(true, model@),
            forall|receiver: Receiver<PropertyChangedNotification>| #[trigger]
                final(self).passed(receiver) == old(self).passed(receiver),
            old(self).follows(model) ==> {
                &&& final(self)@ == old(self)@.after_poll(
                    old(self).seen(model) < model.signals(),
                    model@,
                )
                &&& model.passed(final(self).subscription()) == Some(
                    passed_after(model.signals(), old(self).seen(model), SIGNAL_CAPACITY as nat),
                )
            },
    {
        let polled = model.poll(&mut self.model_rx);
        self.model_polled(polled, model);
    }

    /// What follows a poll of the cell: where it told of a change, by a
    /// signal or by the news that signals were lost, the frame takes a
    /// fresh snapshot of `model` and tells its view.
    pub fn model_polled(&mut self, polled: Polled<()>, model: &Image)
        ensures
            final(self)@ == old(self)@.after_poll(tells(polled), model@),
            final(self).keeps_ties(*old(self)),
    {
        match polled {
            Polled::Got(_) => self.set_image(model.get()),
            Polled::Lagged => self.set_image(model.get()),
            Polled::Empty => {},
            Polled::Closed => {},
        }
    }

    /// A new subscription to the notifications of this view-model. It has
    /// passed every notification so far.
    pub fn get_receiver(&self) -> (receiver: Receiver<PropertyChangedNotification>)
        ensures
            self.passed(receiver) == Some(self@.notified.len()),
    {
        self.view_channel.subscribe()
    }

    /// Polls a subscription to this view-model: the next notification that
    /// it has not passed, while no more wait than the channel keeps; the
    /// news of a loss beyond that; nothing where nothing waits.
    pub fn poll(&self, receiver: &mut Receiver<PropertyChangedNotification>) -> (polled: Polled<
        PropertyChangedNotification,
    >)
        ensures
            self.passed(*old(receiver)) is Some && self.passed(*old(receiver))->0
                <= self@.notified.len() ==> {
                &&& polled == poll_result(
                    self@.notified,
                    self.passed(*old(receiver))->0,
                    SIGNAL_CAPACITY as nat,
                )
                &&& self.passed(*final(receiver)) == Some(
                    passed_after(
                        self@.notified.len(),
                        self.passed(*old(receiver))->0,
                        SIGNAL_CAPACITY as nat,
                    ),
                )
            },
    {
        self.view_channel.poll(receiver)
    }

    /// Asks `image_service` to load a picture from the bytes of `file`.
    pub fn open_file(&self, image_service: &mut ImageService, file: Option<&[u8]>)
        ensures
            exists|outcome: Option<PictureView>|
                final(image_service)@ == #[trigger] old(image_service)@.loaded(outcome),
            file is None ==> final(image_service)@ == old(image_service)@,
    {
        image_service.load_new_image(file);
    }

    /// Whether the frame offers to load a picture while it has none.
    pub fn get_accept_input(&self) -> (accept_input: bool)
        ensures
            accept_input == self@.accept_input,
    {
        self.accept_input
    }

    /// The picture as the frame saw it last.
    pub fn get_image(&self) -> (snapshot: Arc<Option<Picture>>)
        ensures
            view_of(*snapshot) == self@.image,
    {
        share(&self.image)
    }

    /// Whether the window is open.
    pub fn get_open(&self) -> (open: bool)
        ensures
            open == self@.open,
    {
        self.open
    }

    /// The title of the window.
    pub fn get_title(&self) -> (title: &String)
        ensures
            title@ == self@.title,
    {
        &self.title
    }

    /// Sets whether the frame offers to load a picture, and tells the view.
    pub fn set_accept_input(&mut self, accept_input: bool)
        ensures
            final(self)@ == (FrameProperties { accept_input, ..old(self)@ }).told(
                PropertyChangedNotification::AcceptInput,
            ),
            final(self).keeps_ties(*old(self)),
    {
        self.accept_input = accept_input;
        self.tell(PropertyChangedNotification::AcceptInput);
    }

    /// Sets the picture that the frame holds, and tells the view.
    pub fn set_image(&mut self, image: Arc<Option<Picture>>)
        ensures
            final(self)@ == (FrameProperties { image: view_of(*image), ..old(self)@ }).told(
                PropertyChangedNotification::Image,
            ),
            final(self).keeps_ties(*old(self)),
    {
        self.image = image;
        self.tell(PropertyChangedNotification::Image);
    }

    /// Sets whether the window is open, and tells the view.
    pub fn set_open(&mut self, open: bool)
        ensures
            final(self)@ == (FrameProperties { open, ..old(self)@ }).told(
                PropertyChangedNotification::Open,
            ),
            final(self).keeps_ties(*old(self)),
    {
        self.open = open;
        self.tell(PropertyChangedNotification::Open);
    }

    /// Sets the title of the window, and tells the view.
    pub fn set_title(&mut self, title: String)
        ensures
            final(self)@ == (FrameProperties { title: title@, ..old(self)@ }).told(
                PropertyChangedNotification::Title,
            ),
            final(self).keeps_ties(*old(self)),
    {
        self.title = title;
        self.tell(PropertyChangedNotification::Title);
    }

    fn tell(&mut self, notification: PropertyChangedNotification)
        ensures
            final(self)@ == old(self)@.told(notification),
            final(self).keeps_ties(*old(self)),
    {
        self.view_channel.send(notification);
    }
}

} // verus!
