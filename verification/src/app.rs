//! The editor as a whole: the service, the menu bar and the picture windows,
//! wired together and driven frame by frame.

use crate::model::image_service::ImageService;
use crate::model::session::{CellId, EditSession};
use crate::picture::Picture;
use crate::signal::{waiting_after, SIGNAL_CAPACITY};
use crate::view::central_panel::CentralPanel;
use crate::view::image_frame::{FrameState, ImageFrame, Window};
use crate::view::top_panel::{
    kept_or_taken, session_after_answer, session_after_click, writes_of_click, PanelState,
    TopPanel,
};
use crate::view::GuiAction;
use crate::viewmodel;
use crate::viewmodel::image_frame::FrameProperties;
use crate::viewmodel::top_panel::PanelProperties;
use vstd::prelude::*;

verus! {

/// The mathematical state of the editor.
pub struct AppState {
    /// The pictures and the finished loads.
    pub session: EditSession,
    /// The menu bar.
    pub panel: PanelState,
    /// The picture windows, each with the cell it follows.
    pub frames: Seq<(CellId, FrameState)>,
    /// How many signals of the current and of the provisional picture wait
    /// for the view-model of the menu.
    pub panel_waiting: (nat, nat),
    /// How many signals of its cell wait for the view-model of each window.
    pub frame_waiting: Seq<nat>,
}

impl AppState {
    /// How often the cell named `id` is written, given how often the
    /// current and the provisional picture are.
    pub open spec fn writes_to(id: CellId, writes: (nat, nat)) -> nat {
        match id {
            CellId::Current => writes.0,
            CellId::Preview => writes.1,
        }
    }

    /// The view-model of the menu after it polled its cells in a frame in
    /// which `loads` finished loads were applied first.
    pub open spec fn panel_polled(self, loads: nat, session: EditSession) -> PanelProperties {
        self.panel.viewmodel.after_poll(
            self.panel_waiting.0 + loads > 0,
            self.panel_waiting.1 + loads > 0,
            session.current is Some,
            session.preview is Some,
        )
    }
}

/// A picture window as it starts: open, without a picture, and its
/// view-model in step with it.
pub open spec fn fresh_frame(title: Seq<char>, accept_input: bool) -> FrameState {
    FrameState {
        accept_input,
        image: None,
        open: true,
        title,
        seen: Some(0),
        viewmodel: FrameProperties {
            accept_input,
            image: None,
            open: true,
            title,
            notified: Seq::empty(),
        },
    }
}

/// The editor: one service, the menu bar, and a window for each of the two
/// pictures.
pub struct MyApp {
    top_panel: TopPanel,
    central_panel: CentralPanel,
    image_service: ImageService,
}

impl View for MyApp {
    type V = AppState;

    closed spec fn view(&self) -> AppState {
        AppState {
            session: self.image_service@,
            panel: self.top_panel@,
            frames: self.central_panel@,
            panel_waiting: (
                self.top_panel.spec_viewmodel().waiting(&self.image_service, CellId::Current),
                self.top_panel.spec_viewmodel().waiting(&self.image_service, CellId::Preview),
            ),
            frame_waiting: Seq::new(
                self.central_panel@.len(),
                |i: int| self.central_panel.waiting(&self.image_service, i),
            ),
        }
    }
}

impl Default for MyApp {
    /// The editor at its start: no picture, a menu that waits for no
    /// dialog, a window titled "Current" that follows the current picture
    /// and offers to open one, and a window titled "Preview" that follows
    /// the provisional picture.
    fn default() -> (app: MyApp)
        ensures
            app@.session == EditSession::empty(),
            app@.panel == (PanelState {
                has_current: false,
                has_preview: false,
                awaiting_file: false,
                seen: Some(0),
                viewmodel: PanelProperties {
                    has_current: false,
                    has_preview: false,
                    notified: Seq::empty(),
                },
            }),
            app@.frames =~= seq![
                (CellId::Current, fresh_frame("Current"@, true)),
                (CellId::Preview, fresh_frame("Preview"@, false)),
            ],
            app.coherent(),
            app@.panel_waiting == (0nat, 0nat),
            app@.frame_waiting =~= seq![0nat, 0nat],
    {
        let image_service = ImageService::new();
        let top_panel = TopPanel::new(viewmodel::top_panel::TopPanel::new(&image_service));
        let current = ImageFrame::new(
            viewmodel::image_frame::ImageFrame::new(
                "Current",
                true,
                image_service.get_current_image(),
            ),
        );
        let preview = ImageFrame::new(
            viewmodel::image_frame::ImageFrame::new(
                "Preview",
                false,
                image_service.get_preview_image(),
            ),
        );
        let mut children: Vec<(CellId, ImageFrame)> = Vec::with_capacity(2);
        children.push((CellId::Current, current));
        children.push((CellId::Preview, preview));
        let central_panel = CentralPanel::new(children);
        let app = Self { top_panel, central_panel, image_service };
        proof {
            assert(app.central_panel@ =~= seq![
                (CellId::Current, fresh_frame("Current"@, true)),
                (CellId::Preview, fresh_frame("Preview"@, false)),
            ]);
            assert(app.central_panel.tied());
            assert(app.central_panel.follows(&app.image_service));
        }
        app
    }
}

impl MyApp {
    /// Whether the editor is wired as it was made: the menu and each window
    /// are subscribed to their view-models, the view-models to the cells
    /// that they follow, and none has passed more than was sent.
    pub closed spec fn coherent(&self) -> bool {
        &&& self.top_panel@.tied()
        &&& self.top_panel.spec_viewmodel().follows(&self.image_service)
        &&& self.central_panel.tied()
        &&& self.central_panel.follows(&self.image_service)
    }

    /// In an editor that is wired as it was made, the menu and each window
    /// are subscribed to their view-models.
    pub proof fn lemma_coherent_is_tied(&self)
        requires
            self.coherent(),
        ensures
            self@.panel.tied(),
            forall|i: int| 0 <= i < self@.frames.len() ==> (#[trigger] self@.frames[i]).1.tied(),
    {
    }

    /// The service of the editor.
    pub fn image_service(&self) -> (service: &ImageService)
        ensures
            service@ == self@.session,
    {
        &self.image_service
    }

    /// The menu bar.
    pub fn top_panel(&self) -> (panel: &TopPanel)
        ensures
            panel@ == self@.panel,
    {
        &self.top_panel
    }

    /// The area that holds the picture windows.
    pub fn central_panel(&self) -> (panel: &CentralPanel)
        ensures
            panel@ == self@.frames,
    {
        &self.central_panel
    }

    /// One frame, up to the drawing. The finished loads are applied; the
    /// menu bar does what its frame asks, with `answer` as what the file
    /// dialog reported; then each picture window does what its frame asks.
    /// The windows come back as they are to be drawn.
    pub fn update(&mut self, answer: Option<Option<Picture>>) -> (windows: Vec<Window>)
        ensures
            final(self)@.session == session_after_answer(
                old(self)@.panel,
                answer,
                old(self)@.session.update(),
            ),
            final(self)@.panel.awaiting_file == old(self)@.panel.after_answer(answer).awaiting_file,
            kept_or_taken(
                old(self)@.panel.viewmodel.has_current,
                final(self)@.panel.viewmodel.has_current,
                final(self)@.session.current.is_some(),
            ),
            kept_or_taken(
                old(self)@.panel.viewmodel.has_preview,
                final(self)@.panel.viewmodel.has_preview,
                final(self)@.session.preview.is_some(),
            ),
            kept_or_taken(
                old(self)@.panel.has_current,
                final(self)@.panel.has_current,
                final(self)@.panel.viewmodel.has_current,
            ),
            kept_or_taken(
                old(self)@.panel.has_preview,
                final(self)@.panel.has_preview,
                final(self)@.panel.viewmodel.has_preview,
            ),
            final(self)@.frames.len() == old(self)@.frames.len(),
            windows@.len() == old(self)@.frames.len(),
            forall|i: int|
                #![trigger windows@[i]]
                #![trigger final(self)@.frames[i]]
                0 <= i < old(self)@.frames.len() ==> {
                    &&& final(self)@.frames[i].0 == old(self)@.frames[i].0
                    &&& old(self)@.frames[i].1.shown(
                        final(self)@.frames[i].1,
                        windows@[i],
                        final(self)@.session.held(old(self)@.frames[i].0),
                    )
                },
            old(self)@.panel.tied() ==> final(self)@.panel == (PanelState {
                viewmodel: final(self)@.panel.viewmodel,
                ..old(self)@.panel.after_answer(answer)
            }).drained(),
            old(self).coherent() ==> {
                let loads = old(self)@.session.pending.len();
                &&& final(self).coherent()
                &&& final(self)@.panel.viewmodel == old(self)@.panel_polled(
                    loads,
                    final(self)@.session,
                )
                &&& final(self)@.panel_waiting == (
                    waiting_after(old(self)@.panel_waiting.0 + loads, SIGNAL_CAPACITY as nat),
                    waiting_after(old(self)@.panel_waiting.1 + loads, SIGNAL_CAPACITY as nat),
                )
                &&& final(self)@.frame_waiting.len() == old(self)@.frames.len()
                &&& forall|i: int|
                    0 <= i < old(self)@.frames.len() ==> {
                        &&& (#[trigger] final(self)@.frames[i]).1.viewmodel == old(
                            self,
                        )@.frames[i].1.viewmodel.after_poll(
                            old(self)@.frame_waiting[i] + loads > 0,
                            final(self)@.session.held(old(self)@.frames[i].0),
                        )
                        &&& final(self)@.frame_waiting[i] == waiting_after(
                            old(self)@.frame_waiting[i] + loads,
                            SIGNAL_CAPACITY as nat,
                        )
                    }
            },
    {
        let ghost start = *self;
        self.image_service.update();
        let ghost loaded = *self;
        self.top_panel.show(&mut self.image_service, answer);
        let ghost polled = *self;
        let windows = self.central_panel.show(&self.image_service);
        proof {
            if old(self).coherent() {
                let loads = start@.session.pending.len();
                assert forall|i: int| 0 <= i < self.central_panel@.len() implies (
                #[trigger] self.central_panel@[i]).1.tied() by {
                    assert(old(self).central_panel@[i].1.tied());
                }
                assert forall|i: int| 0 <= i < start@.frames.len() implies loaded.central_panel.waiting(
                    &loaded.image_service,
                    i,
                ) == start@.frame_waiting[i] + loads by {
                    assert(start.central_panel.child_viewmodel(i).follows(
                        &start.image_service.spec_cell(start@.frames[i].0),
                    ));
                }
                assert forall|i: int| 0 <= i < start@.frames.len() implies {
                    &&& (#[trigger] self@.frames[i]).1.viewmodel
                        == start@.frames[i].1.viewmodel.after_poll(
                        start@.frame_waiting[i] + loads > 0,
                        self@.session.held(start@.frames[i].0),
                    )
                    &&& self@.frame_waiting[i] == waiting_after(
                        start@.frame_waiting[i] + loads,
                        SIGNAL_CAPACITY as nat,
                    )
                } by {
                    assert(polled.central_panel.waiting(&polled.image_service, i)
                        == loaded.central_panel.waiting(&loaded.image_service, i));
                    assert(self.central_panel.waiting(&self.image_service, i) == waiting_after(
                        polled.central_panel.waiting(&polled.image_service, i),
                        SIGNAL_CAPACITY as nat,
                    ));
                }
            }
        }
        windows
    }

    /// A click on `action` in the menu. What the menu does not offer
    /// changes nothing. A click that opens the file dialog is reported
    /// back, so that the dialog is opened; each other command is carried
    /// out on the pictures.
    pub fn click(&mut self, action: GuiAction) -> (open_dialog: bool)
        ensures
            open_dialog == (action == GuiAction::OpenFileDialog),
            final(self)@.panel == old(self)@.panel.after_click(action),
            final(self)@.session == session_after_click(
                old(self)@.panel,
                action,
                old(self)@.session,
            ),
            final(self)@.frames == old(self)@.frames,
            old(self).coherent() ==> {
                let writes = writes_of_click(old(self)@.panel, action, old(self)@.session);
                &&& final(self).coherent()
                &&& final(self)@.panel_waiting == (
                    old(self)@.panel_waiting.0 + writes.0,
                    old(self)@.panel_waiting.1 + writes.1,
                )
                &&& final(self)@.frame_waiting.len() == old(self)@.frames.len()
                &&& forall|i: int|
                    0 <= i < old(self)@.frames.len() ==> #[trigger] final(self)@.frame_waiting[i]
                        == old(self)@.frame_waiting[i] + AppState::writes_to(
                        old(self)@.frames[i].0,
                        writes,
                    )
            },
    {
        let ghost start = *self;
        let open_dialog = self.top_panel.ui(action, &mut self.image_service);
        proof {
            if old(self).coherent() {
                assert forall|i: int| 0 <= i < start@.frames.len() implies
                    #[trigger] start.central_panel.child_viewmodel(i).follows(
                    &start.image_service.spec_cell(start@.frames[i].0),
                ) by {}
            }
        }
        open_dialog
    }

    /// What a frame does after the window at `index` was drawn: whether it
    /// is still open goes to its view-model.
    pub fn drawn(&mut self, index: usize, open: bool)
        requires
            index < old(self)@.frames.len(),
        ensures
            final(self)@.session == old(self)@.session,
            final(self)@.panel == old(self)@.panel,
            final(self)@.frames.len() == old(self)@.frames.len(),
            forall|j: int|
                0 <= j < old(self)@.frames.len() && j != index
                    ==> #[trigger] final(self)@.frames[j] == old(self)@.frames[j],
            final(self)@.frames[index as int].0 == old(self)@.frames[index as int].0,
            final(self)@.frames[index as int].1 == old(self)@.frames[index as int].1.after_drawn(
                open,
            ),
            old(self).coherent() ==> final(self).coherent(),
            final(self)@.panel_waiting == old(self)@.panel_waiting,
            final(self)@.frame_waiting =~= old(self)@.frame_waiting,
    {
        self.central_panel.drawn(index, open);
    }
}

} // verus!
