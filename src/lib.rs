//! A personal template manager: a store of named file and directory
//! templates, with verified rules for adding, removing, listing, updating
//! and cloning them.
//!
//! The library decides; the caller performs. Every operation works on a
//! model of the directories involved (the names of their top-level entries
//! and the kind of each) and returns the copy or delete step that the caller
//! carries out on disk.

pub mod entries;
pub mod listing;
pub mod store;

pub mod laws;

pub use entries::{Entry, Kind, Listing};
pub use listing::ListTemps;
pub use store::{report, Ingest, Materialize, Op, Removal, Source, Store, StoreError, Update};
