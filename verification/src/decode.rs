//! Reading what the home server answers: the decoders of its JSON
//! documents.
//!
//! A document that does not have the expected shape is refused as a whole
//! with [`crate::error::Error::BackendError`]; no decoder panics on any
//! document.

pub mod changes;
pub mod collect;
pub mod directory;
pub mod fields;
pub mod members;
pub mod rooms;
pub mod timeline;
