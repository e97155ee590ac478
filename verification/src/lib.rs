//! The reactive core of a small image editor: a decoded picture, the two
//! transforms that can be previewed on it, the observable cells that hold the
//! current and the provisional picture, the service that edits them, and the
//! view-models and views that follow them frame by frame.

pub mod picture;
pub mod codec;
pub mod operations;
pub mod signal;
pub mod model;
pub mod viewmodel;
pub mod view;
pub mod app;
pub mod worker;
