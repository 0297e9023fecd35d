//! Rewriting of the page text so each recognized asset reference points at
//! its local copy.
//!
//! Three passes run over the text, one per category: stylesheets by their
//! `href` attribute, scripts and images by their `src` attribute. A pass
//! finds `attr=` followed by a quoted value whose text contains a dot-led
//! extension of its family, and replaces the whole occurrence with
//! `attr="<category dir>/<filename>"`, the filename stripped of any query
//! string or fragment. A matched value that yields no filename (say, a bare
//! `/`) stays unchanged and the pass continues behind it; replaced text is
//! never scanned again.

use vstd::prelude::*;
use crate::bytes::contains_seq_at;
use crate::bytes::match_at;
use crate::bytes::copy_range;
use crate::bytes::push_all;
use crate::bytes::views_of;
use crate::classify::Category;
use crate::classify::exts_of;
use crate::classify::dir_of;
use crate::classify::ext_list;
use crate::classify::dir_bytes;
use crate::paths::filename_spec;

verus! {

/// A byte counts as an attribute-value quote character: `"` or `'`.
pub open spec fn is_quote(b: u8) -> bool {
    b == 34 || b == 39
}

/// The attribute a category is recognized by: `href=` for stylesheets,
/// `src=` for everything else.
pub open spec fn attr_of(c: Category) -> Seq<u8> {
    match c {
        Category::Css => seq![104u8, 114u8, 101u8, 102u8, 61u8],  // href=
        _ => seq![115u8, 114u8, 99u8, 61u8],  // src=
    }
}

/// The attribute pattern of a category.
pub fn attr_bytes(c: Category) -> (r: Vec<u8>)
    ensures
        r@ == attr_of(c),
{
    let r: Vec<u8> = match c {
        Category::Css => {
            let a: [u8; 5] = [104, 114, 101, 102, 61];
            vstd::slice::slice_to_vec(a.as_slice())
        },
        _ => {
            let a: [u8; 4] = [115, 114, 99, 61];
            vstd::slice::slice_to_vec(a.as_slice())
        },
    };
    proof {
        assert(r@ =~= attr_of(c));
    }
    r
}

/// Index of the first quote character of `s` at or after `i`, when one is
/// there.
pub open spec fn find_quote_from(s: Seq<u8>, i: int) -> Option<int>
    decreases s.len() - i when 0 <= i <= s.len()
{
    if i >= s.len() {
        None::<int>
    } else if is_quote(s[i]) {
        Some(i)
    } else {
        find_quote_from(s, i + 1)
    }
}

/// Whether some extension of the category's family occurs in `v` starting
/// exactly at `j`.
pub open spec fn ext_at(v: Seq<u8>, j: int, c: Category) -> bool {
    exists|i: int|
        0 <= i < exts_of(c).len() && contains_seq_at(v, j, #[trigger] exts_of(c)[i])
}

/// Whether a dot immediately followed by an extension of the category's
/// family occurs in `v` at or after position `k`.
pub open spec fn has_dot_ext_from(v: Seq<u8>, c: Category, k: int) -> bool
    decreases v.len() - k when 1 <= k <= v.len()
{
    if k >= v.len() {
        false
    } else if v[k] == 46 && ext_at(v, k + 1, c) {
        true
    } else {
        has_dot_ext_from(v, c, k + 1)
    }
}

/// Whether an attribute value belongs to the category's family: at least
/// one character, then somewhere a dot followed by a family extension.
pub open spec fn fam_matches(v: Seq<u8>, c: Category) -> bool {
    v.len() >= 1 && has_dot_ext_from(v, c, 1)
}

/// Result of matching a category's pattern at position `i` of `s`: the end
/// of the matched text, just past its closing quote. The pattern is the
/// attribute, an opening quote, a non-empty quote-free value of the
/// category's family, and a closing quote.
pub open spec fn pattern_match_end(s: Seq<u8>, c: Category, i: int) -> Option<int> {
    let a = attr_of(c);
    let qpos: int = i + a.len();
    let vstart: int = qpos + 1;
    if contains_seq_at(s, i, a) && vstart <= s.len() && is_quote(s[qpos]) {
        match find_quote_from(s, vstart) {
            Some(q) => {
                let v = s.subrange(vstart, q);
                if v.len() >= 1 && fam_matches(v, c) {
                    Some(q + 1)
                } else {
                    None::<int>
                }
            },
            None => None::<int>,
        }
    } else {
        None::<int>
    }
}

/// What a matched occurrence becomes: `attr="<dir>/<filename>"`, with the
/// filename taken from the quoted value, its query string and fragment
/// stripped. A value without a filename leaves the occurrence unchanged.
pub open spec fn replacement_for(s: Seq<u8>, c: Category, i: int, end: int) -> Seq<u8> {
    let a = attr_of(c);
    let vstart: int = i + a.len() + 1;
    let v = s.subrange(vstart, end - 1);
    let name = filename_spec(v);
    if name.len() == 0 {
        s.subrange(i, end)
    } else {
        a + seq![34u8] + dir_of(c) + seq![47u8] + name + seq![34u8]
    }
}

/// One pass over `s` from position `i` on: matched occurrences are replaced
/// and scanning resumes after them; all other bytes pass through unchanged.
pub open spec fn pass_from(s: Seq<u8>, c: Category, i: int) -> Seq<u8>
    decreases s.len() - i when 0 <= i <= s.len()
{
    if i >= s.len() {
        Seq::<u8>::empty()
    } else {
        match pattern_match_end(s, c, i) {
            Some(end) => if i < end <= s.len() {
                replacement_for(s, c, i, end) + pass_from(s, c, end)
            } else {
                seq![s[i]] + pass_from(s, c, i + 1)
            },
            None => seq![s[i]] + pass_from(s, c, i + 1),
        }
    }
}

/// One whole rewrite pass for a category.
pub open spec fn pass_spec(s: Seq<u8>, c: Category) -> Seq<u8> {
    pass_from(s, c, 0)
}

/// The rewritten page: the stylesheet pass, then the script pass, then the
/// image pass, each over the outcome of the one before. The passes touch
/// disjoint patterns, and no replacement re-enters a later pass.
pub open spec fn rewrite_spec(h: Seq<u8>) -> Seq<u8> {
    pass_spec(pass_spec(pass_spec(h, Category::Css), Category::Js), Category::Images)
}

/// Whether some extension of the family occurs in `v` at `j`; decides
/// `ext_at`.
fn ext_at_exec(v: &[u8], j: usize, c: Category, exts: &Vec<Vec<u8>>) -> (r: bool)
    requires
        j <= v@.len(),
        views_of(exts@) == exts_of(c),
    ensures
        r == ext_at(v@, j as int, c),
{
    let mut i: usize = 0;
    while i < exts.len()
        invariant
            0 <= i <= exts@.len(),
            j <= v@.len(),
            views_of(exts@) == exts_of(c),
            forall|k: int| 0 <= k < i ==> !contains_seq_at(v@, j as int, exts_of(c)[k]),
        decreases exts@.len() - i,
    {
        assert(exts_of(c)[i as int] == exts@[i as int]@);
        if match_at(v, j, exts[i].as_slice()) {
            return true;
        }
        i += 1;
    }
    false
}

/// Whether the value belongs to the category's family; decides
/// `fam_matches`.
fn fam_matches_exec(v: &[u8], c: Category, exts: &Vec<Vec<u8>>) -> (r: bool)
    requires
        views_of(exts@) == exts_of(c),
    ensures
        r == fam_matches(v@, c),
{
    if v.len() < 1 {
        return false;
    }
    let mut k: usize = 1;
    while k < v.len()
        invariant
            1 <= k <= v@.len(),
            views_of(exts@) == exts_of(c),
            has_dot_ext_from(v@, c, 1) == has_dot_ext_from(v@, c, k as int),
        decreases v@.len() - k,
    {
        if v[k] == 46 {
            if ext_at_exec(v, k + 1, c, exts) {
                assert(has_dot_ext_from(v@, c, k as int));
                return true;
            }
        }
        assert(has_dot_ext_from(v@, c, k as int) == has_dot_ext_from(v@, c, k as int + 1));
        k += 1;
    }
    assert(!has_dot_ext_from(v@, c, k as int));
    false
}

/// Index of the first quote of `s` at or after `from`; decides
/// `find_quote_from`.
fn find_quote(s: &[u8], from: usize) -> (r: Option<usize>)
    requires
        from <= s@.len(),
    ensures
        (r matches Some(q) ==> find_quote_from(s@, from as int) == Some(q as int) && from <= q
            < s@.len() && is_quote(s@[q as int])),
        r is None ==> find_quote_from(s@, from as int) is None,
{
    let mut i: usize = from;
    while i < s.len()
        invariant
            from <= i <= s@.len(),
            find_quote_from(s@, from as int) == find_quote_from(s@, i as int),
        decreases s@.len() - i,
    {
        if s[i] == 34 || s[i] == 39 {
            return Some(i);
        }
        i += 1;
    }
    None
}

/// Tries the category's pattern at position `i` of `s`; on a match, hands
/// back the end of the matched text and its replacement.
fn try_match(s: &[u8], c: Category, i: usize, attr: &Vec<u8>, exts: &Vec<Vec<u8>>) -> (r: Option<
    (usize, Vec<u8>),
>)
    requires
        i < s@.len(),
        attr@ == attr_of(c),
        views_of(exts@) == exts_of(c),
    ensures
        r is None ==> pattern_match_end(s@, c, i as int) is None,
        (r matches Some(pair) ==> pattern_match_end(s@, c, i as int) == Some(pair.0 as int) && i
            < pair.0 <= s@.len() && pair.1@ == replacement_for(s@, c, i as int, pair.0 as int)),
{
    let n: usize = s.len();
    if !match_at(s, i, attr.as_slice()) {
        return None;
    }
    assert(i + attr@.len() <= n);
    let qpos: usize = i + attr.len();
    if qpos >= s.len() {
        return None;
    }
    let qb = s[qpos];
    if !(qb == 34 || qb == 39) {
        return None;
    }
    let vstart: usize = qpos + 1;
    let q: usize = match find_quote(s, vstart) {
        Some(q) => q,
        None => {
            return None;
        },
    };
    if q == vstart {
        return None;
    }
    let value = copy_range(s, vstart, q);
    if !fam_matches_exec(value.as_slice(), c, exts) {
        return None;
    }
    let end: usize = q + 1;
    let name = crate::paths::filename_of(value.as_slice());
    assert(value@ == s@.subrange(vstart as int, end - 1));
    if name.len() == 0 {
        let rep = copy_range(s, i, end);
        Some((end, rep))
    } else {
        let mut rep: Vec<u8> = Vec::new();
        push_all(&mut rep, attr.as_slice());
        rep.push(34);
        let dir = dir_bytes(c);
        push_all(&mut rep, dir.as_slice());
        rep.push(47);
        push_all(&mut rep, name.as_slice());
        rep.push(34);
        proof {
            assert(rep@ =~= attr_of(c) + seq![34u8] + dir_of(c) + seq![47u8] + name@
                + seq![34u8]);
        }
        Some((end, rep))
    }
}

/// Runs one category's rewrite pass over `s`.
pub fn rewrite_pass(s: &[u8], c: Category) -> (r: Vec<u8>)
    ensures
        r@ == pass_spec(s@, c),
{
    let attr = attr_bytes(c);
    let exts = ext_list(c);
    let mut out: Vec<u8> = Vec::new();
    let mut i: usize = 0;
    while i < s.len()
        invariant
            0 <= i <= s@.len(),
            attr@ == attr_of(c),
            views_of(exts@) == exts_of(c),
            out@ + pass_from(s@, c, i as int) == pass_from(s@, c, 0),
        decreases s@.len() - i,
    {
        match try_match(s, c, i, &attr, &exts) {
            Some((end, rep)) => {
                proof {
                    assert(pass_from(s@, c, i as int) == replacement_for(
                        s@,
                        c,
                        i as int,
                        end as int,
                    ) + pass_from(s@, c, end as int));
                    assert((out@ + rep@) + pass_from(s@, c, end as int) =~= out@ + pass_from(
                        s@,
                        c,
                        i as int,
                    ));
                }
                push_all(&mut out, rep.as_slice());
                i = end;
            },
            None => {
                proof {
                    assert(pass_from(s@, c, i as int) == seq![s@[i as int]] + pass_from(
                        s@,
                        c,
                        i as int + 1,
                    ));
                    assert(out@.push(s@[i as int]) + pass_from(s@, c, i as int + 1) =~= out@
                        + pass_from(s@, c, i as int));
                }
                out.push(s[i]);
                i += 1;
            },
        }
    }
    proof {
        assert(out@ + pass_from(s@, c, i as int) =~= out@);
    }
    out
}

/// Rewrites the page text: every recognized stylesheet `href`, script
/// `src`, and image `src` comes to point at `<category dir>/<filename>`,
/// the filename taken from the original reference with its query string and
/// fragment stripped. Unrecognized text passes through byte for byte.
pub fn rewrite(html: &[u8]) -> (r: Vec<u8>)
    ensures
        r@ == rewrite_spec(html@),
{
    let css_done = rewrite_pass(html, Category::Css);
    let js_done = rewrite_pass(css_done.as_slice(), Category::Js);
    rewrite_pass(js_done.as_slice(), Category::Images)
}

} // verus!
