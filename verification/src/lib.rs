//! A container for a list of localization messages.
//!
//! A [`FluentResource`] owns the source text of a single Fluent Translation
//! List and, bundled with it, the list of top-level entries that the
//! `fluent-syntax` parser recovered from that text. The bundle is by value:
//! each stored entry owns copies of the spans of text it was parsed from,
//! so the whole container can be moved, stored and shared like any plain
//! value, and accessors hand out references into the container itself.
//! Construction never aborts on malformed input: the parser's diagnostics
//! are handed back beside a fully usable container. After construction the
//! container is immutable, and every accessor is a plain read.

pub mod parse;
mod resource;

pub use resource::FluentResource;
pub use resource::ResourceView;

