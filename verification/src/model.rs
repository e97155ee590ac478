//! The state that is edited: the observable cell and the service that owns
//! two of them.

pub mod image;
pub mod image_service;
pub mod session;
