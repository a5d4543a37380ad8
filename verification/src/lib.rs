//! A small time-tracking entry library: a catalog of campus locations, an
//! entry record type, and an in-memory entry store with create, find, update
//! and delete operations.

pub mod laws;
pub mod location;
pub mod model;
pub mod store;

pub use location::Location;
pub use model::{CandidateModel, Entries, Entry, EntryModel, StorageError};
pub use store::{find, EntryStore};
