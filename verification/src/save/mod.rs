//! Saving a world to a document and building a world back from one.

pub mod codec;
pub mod document;
pub mod error;
pub mod serialization;
pub mod store;
pub mod version;
