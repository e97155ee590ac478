//! The views, without their drawing: what each surface holds from frame to
//! frame, what it offers, and what a click on it does. Whoever draws asks a
//! view what to show and tells it what the user did.

use vstd::prelude::*;

pub mod central_panel;
pub mod image_frame;
pub mod top_panel;

verus! {

/// What the user can ask for.
#[derive(Clone, Copy, Debug, PartialEq, Eq, Structural)]
pub enum GuiAction {
    OpenFileDialog,
    ApplyGrayscale,
    ApplyInvert,
    AcceptOperation,
    DiscardOperation,
    ResetAll,
}

} // verus!
