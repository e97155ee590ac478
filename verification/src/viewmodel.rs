//! The view-models: one for each surface of the interface. A view-model
//! follows the cells it subscribed to, keeps a copy of what its view shows,
//! and tells its view which property changed.

pub mod image_frame;
pub mod top_panel;
