//! Verified core of a single-page website mirroring tool.
//!
//! The library discovers the static assets a page references, resolves each
//! reference against the page's base URL, classifies it by file extension,
//! plans at-most-one fetch per distinct absolute URL, and rewrites the page
//! so every recognized reference points at its local copy.
//!
//! All I/O (HTTP transport, the file system, the terminal) lives outside this
//! crate; the library works on plain byte sequences and states what it does
//! with them.

pub mod bytes;
pub mod classify;
pub mod errors;
pub mod extract;
pub mod mirror;
pub mod paths;
pub mod rewrite;
pub mod urls;
