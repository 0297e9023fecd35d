//! Filename and extension derivation, verified byte-level logic.
//!
//! A reference's filename is its final path segment with any query string or
//! fragment stripped. A path's extension is the text after the last dot of
//! its final segment; a segment without a dot, or with only a leading dot,
//! has no extension.

use vstd::prelude::*;

verus! {

/// Index of the first query (`?`) or fragment (`#`) delimiter of `v` at or
/// after `i`, or `v.len()` when there is none.
pub open spec fn stop_from(v: Seq<u8>, i: int) -> int
    decreases v.len() - i when 0 <= i <= v.len()
{
    if i >= v.len() {
        i
    } else if v[i] == 63 || v[i] == 35 {
        i
    } else {
        stop_from(v, i + 1)
    }
}

/// `v` with any query string or fragment removed.
pub open spec fn stripped(v: Seq<u8>) -> Seq<u8> {
    v.take(stop_from(v, 0))
}

/// Start of the final slash-separated segment of `v.take(i)`: the index just
/// after the last `/` strictly before `i`, or `0` when there is none.
pub open spec fn seg_start(v: Seq<u8>, i: int) -> int
    decreases i when 0 <= i <= v.len()
{
    if i <= 0 {
        0
    } else if v[i - 1] == 47 {
        i
    } else {
        seg_start(v, i - 1)
    }
}

/// The filename a reference denotes: its final path segment, query string
/// and fragment stripped. Empty when the reference names no file (for
/// example a bare `/`, or an empty reference).
pub open spec fn filename_spec(v: Seq<u8>) -> Seq<u8> {
    let s = stripped(v);
    s.subrange(seg_start(s, s.len() as int), s.len() as int)
}

/// Index just after the last dot of `v` in the range `[lo, i)`, when one is
/// there.
pub open spec fn last_dot_end(v: Seq<u8>, lo: int, i: int) -> Option<int>
    decreases i - lo when 0 <= lo <= i <= v.len()
{
    if i <= lo {
        None::<int>
    } else if v[i - 1] == 46 {
        Some(i)
    } else {
        last_dot_end(v, lo, i - 1)
    }
}

/// The extension of path `p`: the text after the last dot of its final
/// segment. A segment without a dot, or whose only dot leads it, has none.
pub open spec fn extension_spec(p: Seq<u8>) -> Option<Seq<u8>> {
    let lo = seg_start(p, p.len() as int);
    match last_dot_end(p, lo, p.len() as int) {
        Some(j) => if j - 1 == lo {
            None::<Seq<u8>>
        } else {
            Some(p.subrange(j, p.len() as int))
        },
        None => None::<Seq<u8>>,
    }
}

/// Computes the filename `reference` denotes: the final path segment with
/// query string and fragment stripped.
pub fn filename_of(reference: &[u8]) -> (r: Vec<u8>)
    ensures
        r@ == filename_spec(reference@),
{
    let n: usize = reference.len();
    let mut stop: usize = 0;
    while stop < n && reference[stop] != 63 && reference[stop] != 35
        invariant
            0 <= stop <= n == reference@.len(),
            stop_from(reference@, 0) == stop_from(reference@, stop as int),
        decreases n - stop,
    {
        stop += 1;
    }
    assert(stop_from(reference@, 0) == stop);
    let ghost s = stripped(reference@);
    assert(s =~= reference@.subrange(0, stop as int));
    let mut b: usize = stop;
    while b > 0 && reference[b - 1] != 47
        invariant
            0 <= b <= stop <= reference@.len(),
            s == reference@.subrange(0, stop as int),
            seg_start(s, stop as int) == seg_start(s, b as int),
        decreases b,
    {
        b -= 1;
    }
    assert(seg_start(s, b as int) == b);
    let r = crate::bytes::copy_range(reference, b, stop);
    assert(r@ =~= s.subrange(b as int, stop as int));
    r
}

/// Computes the extension of path `p`, as `extension_spec` describes it.
pub fn extension_of(p: &[u8]) -> (r: Option<Vec<u8>>)
    ensures
        r is Some <==> extension_spec(p@) is Some,
        r matches Some(e) ==> extension_spec(p@) == Some(e@),
{
    let n: usize = p.len();
    let mut b: usize = n;
    while b > 0 && p[b - 1] != 47
        invariant
            0 <= b <= n == p@.len(),
            seg_start(p@, n as int) == seg_start(p@, b as int),
        decreases b,
    {
        b -= 1;
    }
    assert(seg_start(p@, n as int) == b);
    let ghost lo = b as int;
    let mut d: usize = n;
    while d > b && p[d - 1] != 46
        invariant
            b <= d <= n == p@.len(),
            lo == b as int,
            last_dot_end(p@, lo, n as int) == last_dot_end(p@, lo, d as int),
        decreases d,
    {
        d -= 1;
    }
    if d == b {
        assert(last_dot_end(p@, lo, n as int) is None);
        return None;
    }
    assert(last_dot_end(p@, lo, n as int) == Some(d as int));
    if d - 1 == b {
        return None;
    }
    let e = crate::bytes::copy_range(p, d, n);
    Some(e)
}

} // verus!
