//! The view-model of the menu bar.

use crate::model::image_service::ImageService;
use crate::model::session::CellId;
use crate::picture::{Picture, PictureView};
use crate::signal::{passed_after, poll_result, tells, PanelOutlet, Polled, SIGNAL_CAPACITY};
use tokio::sync::broadcast::Receiver;
use vstd::prelude::*;

verus! {

/// Names the property of the menu bar that changed.
#[derive(Clone, Copy, Debug, PartialEq, Eq, Structural)]
pub enum PropertyChangedNotification {
    HasCurrent,
    HasPreview,
}

/// What the menu bar knows of the pictures, and what it has told its view.
pub struct PanelProperties {
    /// Whether there was a current picture when the panel looked last.
    pub has_current: bool,
    /// Whether there was a provisional picture when the panel looked last.
    pub has_preview: bool,
    /// The notifications that the panel has sent so far, oldest first.
    pub notified: Seq<PropertyChangedNotification>,
}

impl PanelProperties {
    /// The properties after it was seen whether there is a current picture,
    /// and the view was told.
    pub open spec fn with_current(self, has_current: bool) -> PanelProperties {
        PanelProperties {
            has_current,
            notified: self.notified.push(PropertyChangedNotification::HasCurrent),
            ..self
        }
    }

    /// The properties after it was seen whether there is a provisional
    /// picture, and the view was told.
    pub open spec fn with_preview(self, has_preview: bool) -> PanelProperties {
        PanelProperties {
            has_preview,
            notified: self.notified.push(PropertyChangedNotification::HasPreview),
            ..self
        }
    }

    /// The properties after the two cells were polled, the current one
    /// first: for each cell that told of a change, the panel knows whether
    /// that cell holds a picture now, and has told its view.
    pub open spec fn after_poll(
        self,
        current_changed: bool,
        preview_changed: bool,
        current: bool,
        preview: bool,
    ) -> PanelProperties {
        let first = if current_changed {
            self.with_current(current)
        } else {
            self
        };
        if preview_changed {
            first.with_preview(preview)
        } else {
            first
        }
    }
}

/// The view-model of the menu bar: it follows the current and the
/// provisional picture of a service and hands the user's commands on to it.
pub struct TopPanel {
    view_channel: PanelOutlet,
    has_current: bool,
    has_preview: bool,
    current_image_rx: Receiver<()>,
    preview_image_rx: Receiver<()>,
}

impl View for TopPanel {
    type V = PanelProperties;

    closed spec fn view(&self) -> PanelProperties {
        PanelProperties {
            has_current: self.has_current,
            has_preview: self.has_preview,
            notified: self.view_channel.sent(),
        }
    }
}

impl TopPanel {
    /// The subscription of the panel to the cell named `id`.
    pub closed spec fn subscription(&self, id: CellId) -> Receiver<()> {
        match id {
            CellId::Current => self.current_image_rx,
            CellId::Preview => self.preview_image_rx,
        }
    }

    /// How many signals of the cell named `id` the panel has passed, or
    /// nothing where it is not subscribed to that cell of `image_service`.
    pub open spec fn seen(&self, image_service: &ImageService, id: CellId) -> Option<nat> {
        image_service.spec_cell(id).passed(self.subscription(id))
    }

    /// Whether the panel is subscribed to the two cells of `image_service`
    /// and has passed no more signals than they have sent.
    pub open spec fn follows(&self, image_service: &ImageService) -> bool {
        &&& self.seen(image_service, CellId::Current) is Some
        &&& self.seen(image_service, CellId::Current)->0 <= image_service.spec_cell(
            CellId::Current,
        ).signals()
        &&& self.seen(image_service, CellId::Preview) is Some
        &&& self.seen(image_service, CellId::Preview)->0 <= image_service.spec_cell(
            CellId::Preview,
        ).signals()
    }

    /// How many signals of the cell named `id` wait for the panel.
    pub open spec fn waiting(&self, image_service: &ImageService, id: CellId) -> nat {
        (image_service.spec_cell(id).signals() - self.seen(image_service, id)->0) as nat
    }

    /// Whether a signal of the cell named `id` waits for the panel.
    pub open spec fn waits(&self, image_service: &ImageService, id: CellId) -> bool {
        self.waiting(image_service, id) > 0
    }

    /// How many notifications of the panel a subscription has passed, or
    /// nothing where it is no subscription to this panel.
    pub closed spec fn passed(&self, receiver: Receiver<PropertyChangedNotification>) -> Option<nat> {
        self.view_channel.passed(receiver)
    }

    /// Whether the panel is subscribed as `before` was, and every
    /// subscription to it stands where it stood with `before`.
    pub open spec fn keeps_ties(&self, before: TopPanel) -> bool {
        &&& self.subscription(CellId::Current) == before.subscription(CellId::Current)
        &&& self.subscription(CellId::Preview) == before.subscription(CellId::Preview)
        &&& forall|receiver: Receiver<PropertyChangedNotification>| #[trigger]
            self.passed(receiver) == before.passed(receiver)
    }

    /// Whether the panel is what `before` was: the same properties, the
    /// same subscriptions, the same subscribers.
    pub open spec fn unchanged(&self, before: TopPanel) -> bool {
        self@ == before@ && self.keeps_ties(before)
    }

    /// A view-model that follows the two pictures of `image_service`. It
    /// starts as if there were no picture, has told nothing, and has
    /// passed every signal that the two cells sent so far.
    pub fn new(image_service: &ImageService) -> (panel: TopPanel)
        ensures
            panel@ == (PanelProperties {
                has_current: false,
                has_preview: false,
                notified: Seq::empty(),
            }),
            panel.seen(image_service, CellId::Current) == Some(
                image_service.spec_cell(CellId::Current).signals(),
            ),
            panel.seen(image_service, CellId::Preview) == Some(
                image_service.spec_cell(CellId::Preview).signals(),
            ),
    {
        let current_image_rx = image_service.get_current_image().get_property_changed_rx();
        let preview_image_rx = image_service.get_preview_image().get_property_changed_rx();
        Self {
            view_channel: PanelOutlet::new(),
            has_current: false,
            has_preview: false,
            current_image_rx,
            preview_image_rx,
        }
    }

    /// Asks `image_service` to load a picture from the bytes of `file`.
    pub fn open_file(&mut self, image_service: &mut ImageService, file: Option<&[u8]>)
        ensures
            final(self).unchanged(*old(self)),
            exists|outcome: Option<PictureView>|
                final(image_service)@ == #[trigger] old(image_service)@.loaded(outcome),
            file is None ==> final(image_service)@ == old(image_service)@,
            final(image_service).same_cells(*old(image_service)),
    {
        image_service.load_new_image(file);
    }

    /// Hands what a load came to on to `image_service`.
    pub fn open_decoded(&mut self, image_service: &mut ImageService, outcome: Option<Picture>)
        ensures
            final(self).unchanged(*old(self)),
            final(image_service)@ == old(image_service)@.loaded(
                crate::model::image::view_of(outcome),
            ),
            final(image_service).same_cells(*old(image_service)),
    {
        image_service.load_decoded(outcome);
    }

    /// Polls each of the two cells once, the current one first. For a cell
    /// where a signal waits, or signals were lost, the panel looks whether
    /// it holds a picture now and tells its view; what belongs to the
    /// other cell stays.
    pub fn process_messages(&mut self, image_service: &ImageService)
        ensures
            final(self)@.has_current == old(self)@.has_current || final(self)@.has_current
                == image_service@.current.is_some(),
            final(self)@.has_preview == old(self)@.has_preview || final(self)@.has_preview
                == image_service@.preview.is_some(),
            forall|receiver: Receiver<PropertyChangedNotification>| #[trigger]
                final(self).passed(receiver) == old(self).passed(receiver),
            old(self)@.notified.is_prefix_of(final(self)@.notified),
            old(self).follows(image_service) ==> {
                &&& final(self)@ == old(self)@.after_poll(
                    old(self).waits(image_service, CellId::Current),
                    old(self).waits(image_service, CellId::Preview),
                    image_service@.current.is_some(),
                    image_service@.preview.is_some(),
                )
                &&& final(self).seen(image_service, CellId::Current) == Some(
                    passed_after(
                        image_service.spec_cell(CellId::Current).signals(),
                        old(self).seen(image_service, CellId::Current)->0,
                        SIGNAL_CAPACITY as nat,
                    ),
                )
                &&& final(self).seen(image_service, CellId::Preview) == Some(
                    passed_after(
                        image_service.spec_cell(CellId::Preview).signals(),
                        old(self).seen(image_service, CellId::Preview)->0,
                        SIGNAL_CAPACITY as nat,
                    ),
                )
            },
    {
        let current_polled = image_service.get_current_image().poll(&mut self.current_image_rx);
        let preview_polled = image_service.get_preview_image().poll(&mut self.preview_image_rx);
        self.cells_polled(current_polled, preview_polled, image_service);
    }

    /// What follows a poll of the two cells: for each that told of a
    /// change, by a signal or by the news that signals were lost, the
    /// panel looks whether it holds a picture now and tells its view.
    pub fn cells_polled(
        &mut self,
        current_polled: Polled<()>,
        preview_polled: Polled<()>,
        image_service: &ImageService,
    )
        ensures
            final(self)@ == old(self)@.after_poll(
                tells(current_polled),
                tells(preview_polled),
                image_service@.current.is_some(),
                image_service@.preview.is_some(),
            ),
            final(self).keeps_ties(*old(self)),
    {
        match current_polled {
            Polled::Got(_) => self.refresh_current(image_service),
            Polled::Lagged => self.refresh_current(image_service),
            Polled::Empty => {},
            Polled::Closed => {},
        }
        match preview_polled {
            Polled::Got(_) => self.refresh_preview(image_service),
            Polled::Lagged => self.refresh_preview(image_service),
            Polled::Empty => {},
            Polled::Closed => {},
        }
    }

    fn refresh_current(&mut self, image_service: &ImageService)
        ensures
            final(self)@ == old(self)@.with_current(image_service@.current.is_some()),
            final(self).keeps_ties(*old(self)),
    {
        let current = image_service.get_current_image().get();
        self.set_has_current(current.is_some());
    }

    fn refresh_preview(&mut self, image_service: &ImageService)
        ensures
            final(self)@ == old(self)@.with_preview(image_service@.preview.is_some()),
            final(self).keeps_ties(*old(self)),
    {
        let preview = image_service.get_preview_image().get();
        self.set_has_preview(preview.is_some());
    }

    /// A new subscription to the notifications of this view-model. It has
    /// passed every notification so far.
    pub fn get_receiver(&self) -> (receiver: Receiver<PropertyChangedNotification>)
        ensures
            self.passed(receiver) == Some(self@.notified.len()),
    {
        self.view_channel.subscribe()
    }

    /// Polls a subscription to this view-model: the next notification that
    /// it has not passed, while no more wait than the channel keeps; the
    /// news of a loss beyond that; nothing where nothing waits.
    pub fn poll(&self, receiver: &mut Receiver<PropertyChangedNotification>) -> (polled: Polled<
        PropertyChangedNotification,
    >)
        ensures
            self.passed(*old(receiver)) is Some && self.passed(*old(receiver))->0
                <= self@.notified.len() ==> {
                &&& polled == poll_result(
                    self@.notified,
                    self.passed(*old(receiver))->0,
                    SIGNAL_CAPACITY as nat,
                )
                &&& self.passed(*final(receiver)) == Some(
                    passed_after(
                        self@.notified.len(),
                        self.passed(*old(receiver))->0,
                        SIGNAL_CAPACITY as nat,
                    ),
                )
            },
    {
        self.view_channel.poll(receiver)
    }

    /// Hands the command on to `image_service`.
    pub fn apply_grayscale(&mut self, image_service: &mut ImageService)
        ensures
            final(self).unchanged(*old(self)),
            final(image_service)@ == old(image_service)@.apply_grayscale(),
            final(image_service).wrote(*old(image_service), 0, if old(image_service)@.current is Some { 1 } else { 0 }),
    {
        image_service.apply_grayscale();
    }

    /// Hands the command on to `image_service`.
    pub fn apply_invert(&mut self, image_service: &mut ImageService)
        ensures
            final(self).unchanged(*old(self)),
            final(image_service)@ == old(image_service)@.apply_invert(),
            final(image_service).wrote(*old(image_service), 0, if old(image_service)@.has_negative() { 1 } else { 0 }),
    {
        image_service.apply_invert();
    }

    /// Hands the command on to `image_service`.
    pub fn accept_operation(&mut self, image_service: &mut ImageService)
        ensures
            final(self).unchanged(*old(self)),
            final(image_service)@ == old(image_service)@.accept(),
            final(image_service).wrote(*old(image_service), if old(image_service)@.preview is Some { 1 } else { 0 },
                if old(image_service)@.preview is Some { 1 } else { 0 }),
    {
        image_service.accept_operation();
    }

    /// Hands the command on to `image_service`.
    pub fn discard_operation(&mut self, image_service: &mut ImageService)
        ensures
            final(self).unchanged(*old(self)),
            final(image_service)@ == old(image_service)@.discard(),
            final(image_service).wrote(*old(image_service), 0, 1),
    {
        image_service.discard_operation();
    }

    /// Asks `image_service` to drop both pictures.
    pub fn reset_images(&mut self, image_service: &mut ImageService)
        ensures
            final(self).unchanged(*old(self)),
            final(image_service)@ == old(image_service)@.reset(None),
            final(image_service).wrote(*old(image_service), 1, 1),
    {
        image_service.reset(None);
    }

    /// Whether there was a current picture when the panel looked last.
    pub fn get_has_current(&self) -> (has_current: bool)
        ensures
            has_current == self@.has_current,
    {
        self.has_current
    }

    /// Whether there was a provisional picture when the panel looked last.
    pub fn get_has_preview(&self) -> (has_preview: bool)
        ensures
            has_preview == self@.has_preview,
    {
        self.has_preview
    }

    fn set_has_current(&mut self, has_current: bool)
        ensures
            final(self)@ == old(self)@.with_current(has_current),
            final(self).keeps_ties(*old(self)),
    {
        self.has_current = has_current;
        self.view_channel.send(PropertyChangedNotification::HasCurrent);
    }

    fn set_has_preview(&mut self, has_preview: bool)
        ensures
            final(self)@ == old(self)@.with_preview(has_preview),
            final(self).keeps_ties(*old(self)),
    {
        self.has_preview = has_preview;
        self.view_channel.send(PropertyChangedNotification::HasPreview);
    }
}

} // verus!
