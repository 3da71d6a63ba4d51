//! In-memory relational indexing engine for a sensor dataset snapshot.
//!
//! The crate loads a fixed set of flat record tables (logs, maps, sensors,
//! scenes, samples, per-sensor captures, poses, tracked-object instances,
//! per-frame annotations, taxonomies, optional segmentation tables), builds
//! token-keyed lookup indices over each, and resolves cross-table foreign
//! keys and one-to-many groupings into denormalized, query-ready records.

pub mod common;
pub mod domain;
pub mod error;
pub mod geom;
pub mod laws;
pub mod model;
pub mod nusc;
pub mod resolve;
pub mod table;
pub mod token;
