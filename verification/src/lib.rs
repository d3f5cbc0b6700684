//! The core of a bridge from a chat to a photo archive: what to ask of the
//! archive, how to read what it answers, and the tag keyboard.
//!
//! Nothing here performs a request or reads a file. The functions say which
//! request comes next and what an answer means; the caller carries them out.

pub mod callback;
pub mod error;
pub mod hash;
pub mod json;
pub mod keyboard;
pub mod media;
pub mod photo_service;
pub mod request;
pub mod selection;
pub mod session;
pub mod text;
pub mod token;
pub mod upload;

pub use error::PhotoPrismServiceError;
pub use photo_service::{PhotoPrismPhotoService, PhotoPrismUser, PhotoUID};
