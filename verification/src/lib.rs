//! Batch downloader and extractor for numbered archive packs.
//!
//! The crate models the run as data: a validated pack range, a resolver that
//! maps a pack number to its remote address and archive kind, a batch
//! controller that accounts for every pack exactly once while bounding the
//! number of concurrent extractions, and the per-entry decisions of the two
//! archive decoders.

pub mod batch;
pub mod decimal;
pub mod errors;
pub mod extract;
pub mod range;
pub mod task;
