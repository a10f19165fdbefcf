//! Client-side filesystem view of a remote blob store.
//!
//! Blobs of the store are handled as files and directories. Every function
//! of this crate is synchronous and free of I/O: it either says which request
//! has to be sent to the store, or takes the store's reply and says what
//! follows from it. The embedding program carries the requests.

pub mod builder;
pub mod error;
pub mod fs;
pub mod metadata_detector;
pub mod profile;
pub mod push;
pub mod remote;
pub mod store;
pub mod typing;

pub use builder::MenmosBuilder;
pub use profile::{Config, Profile};
pub use typing::{FileMetadata, UploadRequest};
