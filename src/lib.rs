//! Detection of newly watched short videos from a browser's history store or
//! a worker's log output, and their enrichment from several independent
//! sources.
pub mod cursor;
pub mod debounce;
pub mod enrich;
pub mod extract;
pub mod json;
pub mod pipeline;
