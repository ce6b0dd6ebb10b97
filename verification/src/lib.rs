//! Loading tagged map points into a relational store: which decoded objects
//! are loaded, as what, with which rows, and in which order.
//!
//! The crate holds the decisions of the load and none of its input or output.
//! A host decodes the stream and talks to the store; it asks a [`Loader`] what
//! to do next and reports back what happened.

pub mod classify;
pub mod entity;
pub mod laws;
pub mod loader;
pub mod partition;
pub mod rows;
pub mod runs;
pub mod tags;

pub use classify::{get_types, types_from, Type, Types};
pub use entity::{get_object_id, Entity, Kind};
pub use loader::{Action, Event, Loader, Outcome};
pub use partition::{is_reserved, partition, residual_pairs, KnownFields, Partition};
pub use rows::{build_rows, make_rows, tag_rows, Location, PointRecord, ResidualTag, Rows};
