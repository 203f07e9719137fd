//! A small graph store of entities and associations.
//!
//! Entities are typed blobs with a unique identifier; associations are typed,
//! timestamped, directed edges between two entities that carry a blob of their
//! own. A connection offers create, read, update and delete on entities, and
//! on associations create, delete, a change of type and three queries: by a
//! set of end points, by page, and by time window.
//!
//! The store itself:
//!
//! - [`types`]: identifiers, type tags, the association record, cursor and
//!   limit of a range query;
//! - [`errors`]: every way in which an operation can fail;
//! - [`connection`]: the operations of a store and what a caller may rely on;
//! - [`pages`]: what a page of associations is, and why paging ascends;
//! - [`tunables`]: the two page sizes;
//! - [`sqlite`]: the store on a SQLite database;
//! - [`shared`]: one store behind a lock, for many workers.
//!
//! On top of it, records of the caller as entities:
//!
//! - [`state`], [`entities`], [`assocs`]: saved and unsaved records, and
//!   associations between saved ones;
//! - [`demo`]: a small world of records to try them on.
//!
//! And beside it, [`config`], the configuration variables that the page
//! sizes are two of, and [`text`], numbers as text.

pub mod assocs;
pub mod config;
pub mod connection;
pub mod demo;
pub mod entities;
pub mod errors;
pub mod pages;
pub mod shared;
pub mod sqlite;
pub mod state;
pub mod text;
pub mod tunables;
pub mod types;

pub use assocs::{Assoc, AssocTypeID, RawAssoc};
pub use connection::TeaConnection;
pub use entities::{Ent, Entity, EntityTypeID, RawEntity};
pub use state::{Dirty, PersistedState, SaveError, SaveResult, Saved};
pub use shared::SharedTeaConnection;
pub use sqlite::TeaSqliteConnection;
pub use errors::{TeaError, TeaSqliteError};
pub use types::{AssocRangeAfter, AssocRangeLimit, AssocStorage, AssocType, EntityId, EntityType};
