//! URL parsing and relative-reference resolution.
//!
//! The WHATWG URL algorithms come from the `url` crate; this module names
//! their results and builds the library's resolution API on those names.

use vstd::prelude::*;
use crate::bytes::contains_seq_at;
use crate::bytes::match_at;
use crate::bytes::copy_range;
use crate::bytes::push_all;
use crate::errors::MirrorError;

verus! {

/// The serialization of `s` parsed as an absolute URL, when `s` parses.
pub uninterp spec fn url_normalized(s: Seq<u8>) -> Option<Seq<u8>>;

/// The serialization of `reference` resolved against the absolute URL
/// `base`, when the resolution succeeds.
pub uninterp spec fn url_joined(base: Seq<u8>, reference: Seq<u8>) -> Option<Seq<u8>>;

/// The path component of the absolute URL `u`, when `u` parses. It never
/// includes the query string or the fragment.
pub uninterp spec fn url_path_of(u: Seq<u8>) -> Option<Seq<u8>>;

/// Relies on url::Url::parse and Url::as_str: parsing is a function of the
/// input bytes alone; the crate stores URLs normalized, so a returned
/// serialization parses back to itself and resolves against itself to
/// itself (resolution of an input that carries its own scheme ignores the
/// base).
#[verifier::external_body]
fn parse_url_bytes(s: &[u8]) -> (r: Option<Vec<u8>>)
    ensures
        r is Some <==> url_normalized(s@) is Some,
        (r matches Some(v) ==> url_normalized(s@) == Some(v@)),
        (r matches Some(v) ==> url_normalized(v@) == Some(v@)),
        (r matches Some(v) ==> url_joined(v@, v@) == Some(v@)),
{
    let text = core::str::from_utf8(s).ok()?;
    Some(url::Url::parse(text).ok()?.as_str().as_bytes().to_vec())
}

/// Relies on url::Url::join, the WHATWG relative-URL resolution: the result
/// is a function of the two inputs alone; it comes back normalized, so it
/// parses to itself and resolves against itself to itself (resolution of an
/// input that carries its own scheme and authority ignores the base).
#[verifier::external_body]
fn join_url_bytes(base: &[u8], reference: &[u8]) -> (r: Option<Vec<u8>>)
    ensures
        r is Some <==> url_joined(base@, reference@) is Some,
        (r matches Some(v) ==> url_joined(base@, reference@) == Some(v@)),
        (r matches Some(v) ==> url_joined(v@, v@) == Some(v@)),
        (r matches Some(v) ==> url_normalized(v@) == Some(v@)),
{
    let b = core::str::from_utf8(base).ok()?;
    let rf = core::str::from_utf8(reference).ok()?;
    let joined = url::Url::parse(b).ok()?.join(rf).ok()?;
    Some(joined.as_str().as_bytes().to_vec())
}

/// Relies on url::Url::path: the path component of a parsed URL, a function
/// of the URL bytes alone, present exactly when the URL parses; the query
/// string and the fragment never appear in it.
#[verifier::external_body]
fn url_path_bytes(u: &[u8]) -> (r: Option<Vec<u8>>)
    ensures
        r is Some <==> url_path_of(u@) is Some,
        (r matches Some(p) ==> url_path_of(u@) == Some(p@)),
        r is Some <==> url_normalized(u@) is Some,
{
    let text = core::str::from_utf8(u).ok()?;
    Some(url::Url::parse(text).ok()?.path().as_bytes().to_vec())
}

/// Parses `s` as an absolute URL and returns its normalized serialization.
pub fn normalize_url(s: &[u8]) -> (r: Result<Vec<u8>, MirrorError>)
    ensures
        r is Ok <==> url_normalized(s@) is Some,
        (r matches Ok(v) ==> url_normalized(s@) == Some(v@)),
        (r matches Ok(v) ==> url_normalized(v@) == Some(v@)),
        (r matches Ok(v) ==> url_joined(v@, v@) == Some(v@)),
        (r matches Err(e) ==> e == MirrorError::InvalidUrl),
{
    match parse_url_bytes(s) {
        Some(v) => Ok(v),
        None => Err(MirrorError::InvalidUrl),
    }
}

/// Resolves the possibly-relative `reference` against the absolute URL
/// `base`.
///
/// Resolution is idempotent: a returned URL resolves against itself to
/// itself, so feeding a result back through `resolve` changes nothing.
pub fn resolve(base: &[u8], reference: &[u8]) -> (r: Result<Vec<u8>, MirrorError>)
    ensures
        r is Ok <==> url_joined(base@, reference@) is Some,
        (r matches Ok(v) ==> url_joined(base@, reference@) == Some(v@)),
        (r matches Ok(v) ==> url_joined(v@, v@) == Some(v@)),
        (r matches Err(e) ==> e == MirrorError::InvalidUrl),
{
    match join_url_bytes(base, reference) {
        Some(v) => Ok(v),
        None => Err(MirrorError::InvalidUrl),
    }
}

/// Returns the path component of the absolute URL `u`, when `u` parses.
pub fn path_of(u: &[u8]) -> (r: Option<Vec<u8>>)
    ensures
        r is Some <==> url_path_of(u@) is Some,
        (r matches Some(p) ==> url_path_of(u@) == Some(p@)),
{
    url_path_bytes(u)
}

/// `http://` as bytes.
pub open spec fn http_prefix() -> Seq<u8> {
    seq![104u8, 116u8, 116u8, 112u8, 58u8, 47u8, 47u8]
}

/// `https://` as bytes.
pub open spec fn https_prefix() -> Seq<u8> {
    seq![104u8, 116u8, 116u8, 112u8, 115u8, 58u8, 47u8, 47u8]
}

/// Whether `u` already starts with an `http://` or `https://` scheme.
pub open spec fn spec_has_scheme(u: Seq<u8>) -> bool {
    contains_seq_at(u, 0, http_prefix()) || contains_seq_at(u, 0, https_prefix())
}

/// Prepends `https://` to a target URL that names no scheme, and leaves one
/// that already starts with `http://` or `https://` unchanged.
pub fn with_scheme(url: &[u8]) -> (r: Vec<u8>)
    ensures
        spec_has_scheme(url@) ==> r@ == url@,
        !spec_has_scheme(url@) ==> r@ == https_prefix() + url@,
{
    let http: [u8; 7] = [104, 116, 116, 112, 58, 47, 47];
    let https: [u8; 8] = [104, 116, 116, 112, 115, 58, 47, 47];
    proof {
        assert(http@ =~= http_prefix());
        assert(https@ =~= https_prefix());
    }
    if match_at(url, 0, http.as_slice()) || match_at(url, 0, https.as_slice()) {
        let r = copy_range(url, 0, url.len());
        assert(r@ =~= url@);
        r
    } else {
        let mut out: Vec<u8> = Vec::new();
        push_all(&mut out, https.as_slice());
        push_all(&mut out, url);
        assert(out@ =~= https_prefix() + url@);
        out
    }
}

} // verus!
