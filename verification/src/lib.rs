//! Resolution of episodic download listings into normalized seed records,
//! and a Torznab-style indexer feed over the stored records.
//!
//! The library decides and computes; it does no input or output. A
//! resolution is driven step by step through `resolver::Resolver`: each step
//! says what is to be fetched or stored, and takes what came of it. A request
//! to the indexer is answered in the same way through
//! `torznab::TorznabProvider`.
//!
//! - `resolver`: site definitions, the choice of the definition for a show,
//!   the rows of a fetched page, and the steps of a resolution.
//! - `normalizer`: title cleanup, the episode cascade and the release name.
//! - `magnet`: the canonical form of a magnet link.
//! - `torznab`: capabilities, paging and the feed.
//! - `store`: what replacing and querying seeds mean, and a store in memory.
//! - `model`, `http`: the records and the requests.
//! - `pattern`, `markup`, `xml_writer`, `clock`: what is asked of the
//!   `regex`, `scraper`, `xml-rs` and `chrono` crates.
//! - `text`: characters, replacement and decimal numbers.

pub mod clock;
pub mod http;
pub mod magnet;
pub mod markup;
pub mod model;
pub mod normalizer;
pub mod pattern;
pub mod resolver;
pub mod store;
pub mod text;
pub mod torznab;
pub mod xml_writer;
