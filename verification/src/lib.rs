//! Directory-to-text aggregation logic.
//!
//! Given files discovered on disk, the library decides which of them are
//! textual, computes the label under which each appears, and renders the
//! path-tagged blocks that make up the output document. All file system
//! access stays with the caller; the functions here work on plain values
//! and carry contracts that pin their results down.

pub mod content;
pub mod emit;
pub mod exclude;
pub mod laws;
pub mod pipeline;
