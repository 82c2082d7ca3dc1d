//! Media-library file scanner: takes a snapshot of a directory tree,
//! decides which files still need indexing, extracts per-file metadata
//! with a fast pass and a thorough fallback, and streams one outcome per
//! submitted job back to the consumer over a channel.

pub mod collector;
pub mod differ;
pub mod extractor;
pub mod model;
pub mod providers;
pub mod scanner;
pub mod split;
pub mod tags;
