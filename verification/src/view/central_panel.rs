//! The area that holds the picture windows.

use crate::model::image_service::ImageService;
use crate::model::session::CellId;
use crate::view::image_frame::{FrameState, ImageFrame, Window};
use vstd::prelude::*;

verus! {

/// The area that holds the picture windows, each with the cell it follows.
pub struct CentralPanel {
    children: Vec<(CellId, ImageFrame)>,
}

impl View for CentralPanel {
    type V = Seq<(CellId, FrameState)>;

    closed spec fn view(&self) -> Seq<(CellId, FrameState)> {
        Seq::new(self.children@.len(), |i: int| (self.children@[i].0, self.children@[i].1@))
    }
}

impl CentralPanel {
    /// The view-model of the window at `i`.
    pub closed spec fn child_viewmodel(&self, i: int) -> crate::viewmodel::image_frame::ImageFrame {
        self.children@[i].1.spec_viewmodel()
    }

    /// Whether the view-model of each window is subscribed to the cell of
    /// `image_service` that the window follows, and has passed no more
    /// signals than that cell has sent.
    pub open spec fn follows(&self, image_service: &ImageService) -> bool {
        forall|i: int|
            0 <= i < self@.len() ==> (#[trigger] self.child_viewmodel(i)).follows(
                &image_service.spec_cell(self@[i].0),
            )
    }

    /// Whether each window is subscribed to its view-model and has passed
    /// no more notifications than the view-model has sent.
    pub open spec fn tied(&self) -> bool {
        forall|i: int| 0 <= i < self@.len() ==> (#[trigger] self@[i]).1.tied()
    }

    /// How many signals of its cell wait for the view-model of the window
    /// at `i`.
    pub open spec fn waiting(&self, image_service: &ImageService, i: int) -> nat {
        self.child_viewmodel(i).waiting(&image_service.spec_cell(self@[i].0))
    }

    /// Whether a signal of its cell waits for the view-model of the window
    /// at `i`.
    pub open spec fn waits(&self, image_service: &ImageService, i: int) -> bool {
        self.waiting(image_service, i) > 0
    }

    /// Whether every window has the view-model that it had with `before`,
    /// subscribed as it was.
    pub open spec fn keeps_ties(&self, before: CentralPanel) -> bool {
        forall|i: int|
            0 <= i < self@.len() ==> (#[trigger] self.child_viewmodel(i)).keeps_ties(
                before.child_viewmodel(i),
            )
    }

    /// A panel that holds `children`.
    pub fn new(children: Vec<(CellId, ImageFrame)>) -> (panel: CentralPanel)
        ensures
            panel@ == Seq::new(children@.len(), |i: int| (children@[i].0, children@[i].1@)),
            forall|i: int|
                0 <= i < children@.len() ==> #[trigger] panel.child_viewmodel(i)
                    == children@[i].1.spec_viewmodel(),
    {
        Self { children }
    }

    /// The number of windows.
    pub fn len(&self) -> (n: usize)
        ensures
            n == self@.len(),
    {
        self.children.len()
    }

    /// The window at `index`.
    pub fn child(&self, index: usize) -> (child: &ImageFrame)
        requires
            index < self@.len(),
        ensures
            child@ == self@[index as int].1,
    {
        &self.children[index].1
    }

    /// What a frame does before the windows are drawn: each window in turn
    /// does what its own frame asks, on the cell that it follows. The
    /// windows come back as they are to be drawn, in the order of the
    /// children.
    pub fn show(&mut self, image_service: &ImageService) -> (windows: Vec<Window>)
        ensures
            final(self)@.len() == old(self)@.len(),
            windows@.len() == old(self)@.len(),
            forall|i: int|
                #![trigger windows@[i]]
                #![trigger final(self)@[i]]
                0 <= i < old(self)@.len() ==> {
                    &&& final(self)@[i].0 == old(self)@[i].0
                    &&& old(self)@[i].1.shown(
                        final(self)@[i].1,
                        windows@[i],
                        image_service@.held(old(self)@[i].0),
                    )
                },
            old(self).follows(image_service) ==> {
                &&& final(self).follows(image_service)
                &&& forall|i: int|
                    0 <= i < old(self)@.len() ==> (#[trigger] final(self)@[i]).1.viewmodel == old(
                        self,
                    )@[i].1.viewmodel.after_poll(
                        old(self).waits(image_service, i),
                        image_service@.held(old(self)@[i].0),
                    )
                &&& forall|i: int|
                    0 <= i < old(self)@.len() ==> #[trigger] final(self).waiting(image_service, i)
                        == crate::signal::waiting_after(
                        old(self).waiting(image_service, i),
                        crate::signal::SIGNAL_CAPACITY as nat,
                    )
            },
    {
        let n: usize = self.children.len();
        let mut windows: Vec<Window> = Vec::with_capacity(n);
        let mut i: usize = 0;
        while i < n
            invariant
                i <= n,
                n == old(self)@.len(),
                self@.len() == n,
                windows@.len() == i,
                forall|j: int| i <= j < n ==> #[trigger] self@[j] == old(self)@[j],
                forall|j: int|
                    i <= j < n ==> #[trigger] self.child_viewmodel(j) == old(self).child_viewmodel(
                        j,
                    ),
                old(self).follows(image_service) ==> forall|j: int|
                    0 <= j < i ==> {
                        &&& (#[trigger] self.child_viewmodel(j)).follows(
                            &image_service.spec_cell(old(self)@[j].0),
                        )
                        &&& self@[j].1.viewmodel == old(self)@[j].1.viewmodel.after_poll(
                            old(self).waits(image_service, j),
                            image_service@.held(old(self)@[j].0),
                        )
                        &&& self.child_viewmodel(j).waiting(
                            &image_service.spec_cell(old(self)@[j].0),
                        ) == crate::signal::waiting_after(
                            old(self).waiting(image_service, j),
                            crate::signal::SIGNAL_CAPACITY as nat,
                        )
                    },
                forall|j: int|
                    #![trigger windows@[j]]
                    #![trigger self@[j]]
                    0 <= j < i ==> {
                        &&& self@[j].0 == old(self)@[j].0
                        &&& old(self)@[j].1.shown(
                            self@[j].1,
                            windows@[j],
                            image_service@.held(old(self)@[j].0),
                        )
                    },
            decreases n - i,
        {
            let ghost before = self@;
            let ghost before_panel = *self;
            let ghost drawn = windows@;
            let id = self.children[i].0;
            let window = self.children[i].1.show(image_service.cell(id));
            windows.push(window);
            assert(forall|j: int| 0 <= j < i ==> #[trigger] windows@[j] == drawn[j]);
            assert(forall|j: int| 0 <= j < n && j != i ==> #[trigger] self@[j] == before[j]);
            assert(forall|j: int|
                0 <= j < n && j != i ==> #[trigger] self.child_viewmodel(j)
                    == before_panel.child_viewmodel(j));
            assert(before_panel.child_viewmodel(i as int) == old(self).child_viewmodel(i as int));
            assert(before[i as int] == old(self)@[i as int]);
            assert(self@[i as int].0 == before[i as int].0);
            assert(before[i as int].1.shown(
                self@[i as int].1,
                windows@[i as int],
                image_service@.held(id),
            ));
            i += 1;
        }
        proof {
            if old(self).follows(image_service) {
                assert forall|j: int| 0 <= j < n implies {
                    &&& (#[trigger] self.child_viewmodel(j)).follows(
                        &image_service.spec_cell(self@[j].0),
                    )
                    &&& self@[j].1.viewmodel == old(self)@[j].1.viewmodel.after_poll(
                        old(self).waits(image_service, j),
                        image_service@.held(old(self)@[j].0),
                    )
                } by {
                    assert(self@[j].0 == old(self)@[j].0);
                }
                assert forall|j: int| 0 <= j < n implies #[trigger] self.waiting(image_service, j)
                    == crate::signal::waiting_after(
                    old(self).waiting(image_service, j),
                    crate::signal::SIGNAL_CAPACITY as nat,
                ) by {
                    assert(self.child_viewmodel(j).follows(&image_service.spec_cell(self@[j].0)));
                    assert(self@[j].0 == old(self)@[j].0);
                }
                assert forall|j: int| 0 <= j < n implies (#[trigger] self@[j]).1.viewmodel == old(
                    self,
                )@[j].1.viewmodel.after_poll(
                    old(self).waits(image_service, j),
                    image_service@.held(old(self)@[j].0),
                ) by {
                    assert(self.child_viewmodel(j).follows(&image_service.spec_cell(self@[j].0)));
                }
            }
        }
        windows
    }

    /// What a frame does after the window at `index` was drawn: whether it
    /// is still open goes to its view-model. The other windows stay.
    pub fn drawn(&mut self, index: usize, open: bool)
        requires
            index < old(self)@.len(),
        ensures
            final(self)@.len() == old(self)@.len(),
            forall|j: int|
                0 <= j < old(self)@.len() && j != index
                    ==> #[trigger] final(self)@[j] == old(self)@[j],
            final(self)@[index as int].0 == old(self)@[index as int].0,
            final(self)@[index as int].1 == old(self)@[index as int].1.after_drawn(open),
            final(self).keeps_ties(*old(self)),
    {
        self.children[index].1.drawn(open);
    }
}

} // verus!
