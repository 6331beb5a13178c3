//! Incremental, generation-based backups: the decisions behind walking a
//! source tree and linking or copying each file against the previous snapshot.
pub mod files;
pub mod generation;
pub mod laws;
pub mod path;
pub mod time;
