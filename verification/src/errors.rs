//! The library's error values.

use vstd::prelude::*;

verus! {

/// What can go wrong while mirroring a page.
///
/// An invalid URL is fatal for the base URL and skips a single asset
/// otherwise; a failed page fetch aborts the run; a failed asset fetch is
/// reported and the run continues.
#[derive(Clone, Copy, Debug, PartialEq, Eq, Structural)]
pub enum MirrorError {
    /// The base URL or a reference does not parse, even after joining.
    InvalidUrl,
    /// The main page could not be retrieved; nothing can proceed without it.
    FatalFetch,
    /// One asset's network or file-write step failed; the run continues.
    AssetFetch,
}

} // verus!
