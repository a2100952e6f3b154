//! A line-oriented pattern search engine.
//!
//! A [`RegexMatcherBuilder`] compiles patterns into a [`RegexMatcher`]; a
//! [`SearcherBuilder`] configures a [`Searcher`], which scans a byte buffer
//! line by line and reports matching lines, context lines and a summary.
//! Pattern compilation, matching and scanning are done by the `grep` crates;
//! what this crate builds on them is stated in contracts and verified.

pub mod api;
pub mod error;
pub mod events;
pub mod matcher;
pub mod searcher;
pub mod sink;
pub mod spans;
pub mod types;

pub use api::{find, find_all, is_match, search};
pub use error::GrepError;
pub use events::ScanEvent;
pub use matcher::{
    MatcherOptions, MatcherSource, MatcherTerminator, RegexMatcher, RegexMatcherBuilder,
};
pub use searcher::{BinarySetting, SearchOptions, Searcher, SearcherBuilder};
pub use sink::{collect, CollectSink};
pub use types::{
    BinaryDetectionMode, ContextKind, MatchRange, SearchContext, SearchFinish, SearchMatch,
    SearchResult,
};
