//! The state of one mirroring run: the base URL, the project name, and the
//! set of absolute URLs already fetched.
//!
//! Every fetch goes through this state first, which is what enforces the
//! at-most-once rule: a run never transfers the same absolute URL twice.

use vstd::prelude::*;
use vstd::slice::slice_to_vec;
use crate::bytes::views_of;
use crate::bytes::list_contains;
use crate::bytes::push_all;
use crate::classify::Category;
use crate::classify::dir_of;
use crate::classify::dir_bytes;
use crate::classify::classify;
use crate::classify::spec_category_of_url;
use crate::errors::MirrorError;
use crate::paths::filename_spec;
use crate::paths::filename_of;
use crate::urls::normalize_url;
use crate::urls::url_normalized;
use crate::urls::resolve;
use crate::urls::url_joined;

verus! {

/// Everything the pipeline needs to store one asset and rewrite its
/// reference: the absolute URL to fetch, the category directory it belongs
/// under, and the filename it is saved as.
#[derive(Debug)]
pub struct AssetPlan {
    /// The absolute URL whose bytes are to be fetched.
    pub url: Vec<u8>,
    /// The category directory the bytes belong under.
    pub category: Category,
    /// The non-empty filename the bytes are saved as.
    pub filename: Vec<u8>,
}

impl AssetPlan {
    /// The path `<project>/<category dir>/<filename>` where the planned
    /// asset's bytes belong.
    pub fn dest_path(&self, project: &[u8]) -> (r: Vec<u8>)
        ensures
            r@ == project@ + seq![47u8] + dir_of(self.category) + seq![47u8] + self.filename@,
    {
        let mut out: Vec<u8> = Vec::new();
        push_all(&mut out, project);
        out.push(47);
        let dir = dir_bytes(self.category);
        push_all(&mut out, dir.as_slice());
        out.push(47);
        push_all(&mut out, self.filename.as_slice());
        proof {
            assert(out@ =~= project@ + seq![47u8] + dir_of(self.category) + seq![47u8]
                + self.filename@);
        }
        out
    }
}

/// `asset_` as bytes: the prefix of fallback filenames.
pub open spec fn asset_prefix() -> Seq<u8> {
    seq![97u8, 115u8, 115u8, 101u8, 116u8, 95u8]
}

/// The decimal digits of `n`, most significant first.
pub open spec fn decimal_digits(n: nat) -> Seq<u8>
    decreases n,
{
    if n < 10 {
        seq![(48 + n) as u8]
    } else {
        decimal_digits(n / 10) + seq![(48 + n % 10) as u8]
    }
}

/// The fallback filename derived from a clock reading of `t` seconds:
/// `asset_<t>`. It keeps a planned filename non-empty when the reference
/// names no file.
pub open spec fn fallback_name_spec(t: u64) -> Seq<u8> {
    asset_prefix() + decimal_digits(t as nat)
}

/// Appends the decimal digits of `n`.
fn push_decimal(out: &mut Vec<u8>, n: u64)
    ensures
        final(out)@ == old(out)@ + decimal_digits(n as nat),
    decreases n,
{
    if n < 10 {
        let d: u8 = 48 + (n as u8);
        out.push(d);
        assert(out@ =~= old(out)@ + decimal_digits(n as nat));
    } else {
        push_decimal(out, n / 10);
        let d: u8 = 48 + ((n % 10) as u8);
        out.push(d);
        assert(out@ =~= old(out)@ + decimal_digits(n as nat));
    }
}

/// Builds the fallback filename `asset_<t>`.
fn fallback_name(t: u64) -> (r: Vec<u8>)
    ensures
        r@ == fallback_name_spec(t),
        r@.len() > 0,
{
    let prefix: [u8; 6] = [97, 115, 115, 101, 116, 95];
    let mut out = slice_to_vec(prefix.as_slice());
    proof {
        assert(out@ =~= asset_prefix());
    }
    push_decimal(&mut out, t);
    out
}

/// Relies on std::time::SystemTime::now: the seconds of the current clock
/// reading since the Unix epoch, zero for a clock before the epoch. The
/// value depends on the machine's clock, so nothing is promised of it.
#[verifier::external_body]
fn now_unix_seconds() -> u64 {
    match std::time::SystemTime::now().duration_since(std::time::UNIX_EPOCH) {
        Ok(d) => d.as_secs(),
        Err(_) => 0,
    }
}

/// `index.html` as bytes.
pub open spec fn index_name() -> Seq<u8> {
    seq![105u8, 110u8, 100u8, 101u8, 120u8, 46u8, 104u8, 116u8, 109u8, 108u8]
}

/// The path `<project>/index.html` where the rewritten page is persisted.
pub fn index_path(project: &[u8]) -> (r: Vec<u8>)
    ensures
        r@ == project@ + seq![47u8] + index_name(),
{
    let name: [u8; 10] = [105, 110, 100, 101, 120, 46, 104, 116, 109, 108];
    let mut out: Vec<u8> = Vec::new();
    push_all(&mut out, project);
    out.push(47);
    push_all(&mut out, name.as_slice());
    proof {
        assert(out@ =~= project@ + seq![47u8] + index_name());
    }
    out
}

/// The four fixed subdirectories a project owns, in creation order.
pub fn category_dirs() -> (r: Vec<Vec<u8>>)
    ensures
        views_of(r@) == seq![
            dir_of(Category::Assets),
            dir_of(Category::Css),
            dir_of(Category::Js),
            dir_of(Category::Images),
        ],
{
    let mut r: Vec<Vec<u8>> = Vec::new();
    r.push(dir_bytes(Category::Assets));
    r.push(dir_bytes(Category::Css));
    r.push(dir_bytes(Category::Js));
    r.push(dir_bytes(Category::Images));
    proof {
        assert(views_of(r@) =~~= seq![
            dir_of(Category::Assets),
            dir_of(Category::Css),
            dir_of(Category::Js),
            dir_of(Category::Images),
        ]);
    }
    r
}

/// Law of at-most-once fetching: recording a URL makes it a member of the
/// fetched set, and recording never removes a member. With `begin_fetch`'s
/// contract this says that once a URL has been fetched in a run, every
/// later `begin_fetch` or `plan_asset` of the same absolute URL finds it
/// stale and performs no transfer.
pub proof fn lemma_fetch_at_most_once(fetched: Set<Seq<u8>>, url: Seq<u8>, other: Seq<u8>)
    ensures
        fetched.insert(url).contains(url),
        fetched.contains(other) ==> fetched.insert(url).contains(other),
{
}

/// The state of one mirroring run.
#[derive(Debug)]
pub struct Mirror {
    base_url: Vec<u8>,
    project: Vec<u8>,
    fetched_list: Vec<Vec<u8>>,
}

impl Mirror {
    /// The normalized absolute URL of the page being mirrored.
    pub closed spec fn base(&self) -> Seq<u8> {
        self.base_url@
    }

    /// The project directory's name.
    pub closed spec fn project_name(&self) -> Seq<u8> {
        self.project@
    }

    /// The set of absolute URLs already fetched in this run.
    pub closed spec fn fetched(&self) -> Set<Seq<u8>> {
        views_of(self.fetched_list@).to_set()
    }

    /// Starts a run: parses the target as an absolute URL and remembers it,
    /// with the project name and an empty fetched set. A target that does
    /// not parse is an invalid URL, and fatal.
    pub fn new(target_url: &[u8], project: &[u8]) -> (r: Result<Mirror, MirrorError>)
        ensures
            r is Ok <==> url_normalized(target_url@) is Some,
            (r matches Ok(m) ==> Some(m.base()) == url_normalized(target_url@)
                && m.project_name() == project@ && m.fetched() == Set::<Seq<u8>>::empty()),
            (r matches Err(e) ==> e == MirrorError::InvalidUrl),
    {
        let base = match normalize_url(target_url) {
            Ok(b) => b,
            Err(e) => {
                return Err(e);
            },
        };
        let m = Mirror { base_url: base, project: slice_to_vec(project), fetched_list: Vec::new() };
        proof {
            assert forall|u: Seq<u8>| !m.fetched().contains(u) by {
                assert(!views_of(m.fetched_list@).contains(u));
            }
            assert(m.fetched() =~= Set::<Seq<u8>>::empty());
        }
        Ok(m)
    }

    /// The page's normalized absolute URL.
    pub fn base_bytes(&self) -> (r: &Vec<u8>)
        ensures
            r@ == self.base(),
    {
        &self.base_url
    }

    /// Whether this absolute URL was already fetched in this run.
    fn contains_url(&self, url: &[u8]) -> (r: bool)
        ensures
            r == self.fetched().contains(url@),
    {
        list_contains(&self.fetched_list, url)
    }

    /// Records `url` as fetched and says whether the transfer must happen:
    /// true exactly when the URL is new to this run. A repeated URL leaves
    /// the state as it was and asks for no I/O.
    pub fn begin_fetch(&mut self, url: &[u8]) -> (fresh: bool)
        ensures
            fresh == !old(self).fetched().contains(url@),
            final(self).fetched() == old(self).fetched().insert(url@),
            final(self).base() == old(self).base(),
            final(self).project_name() == old(self).project_name(),
    {
        if self.contains_url(url) {
            proof {
                assert(old(self).fetched().insert(url@) =~= old(self).fetched());
            }
            false
        } else {
            let ghost oldviews = views_of(self.fetched_list@);
            let v = slice_to_vec(url);
            self.fetched_list.push(v);
            proof {
                assert(views_of(self.fetched_list@) =~= oldviews.push(url@));
                oldviews.lemma_push_to_set_commute(url@);
            }
            true
        }
    }

    /// Plans one asset: resolves `reference` against the base URL,
    /// classifies the absolute URL, and derives the filename the asset is
    /// stored under — the reference's final path segment, query string and
    /// fragment stripped, or a time-based fallback when that is empty. An
    /// unresolvable reference is an invalid URL and changes nothing; an
    /// already-fetched URL yields no plan and asks for no I/O; a fresh URL
    /// is recorded and planned.
    pub fn plan_asset(&mut self, reference: &[u8]) -> (r: Result<Option<AssetPlan>, MirrorError>)
        ensures
            r is Err <==> url_joined(old(self).base(), reference@) is None,
            (r matches Err(e) ==> e == MirrorError::InvalidUrl && final(self).fetched() == old(
                self,
            ).fetched()),
            (r matches Ok(o) ==> url_joined(old(self).base(), reference@) matches Some(u)
                && final(self).fetched() == old(self).fetched().insert(u) && ((o is None) <==> old(
                self,
            ).fetched().contains(u)) && (o matches Some(plan) ==> plan.url@ == u && plan.category
                == spec_category_of_url(u) && plan.filename@.len() > 0 && (filename_spec(
                reference@,
            ).len() > 0 ==> plan.filename@ == filename_spec(reference@)) && (filename_spec(
                reference@,
            ).len() == 0 ==> (exists|t: u64| plan.filename@ == fallback_name_spec(t))))),
            final(self).base() == old(self).base(),
            final(self).project_name() == old(self).project_name(),
    {
        let full = match resolve(self.base_url.as_slice(), reference) {
            Ok(u) => u,
            Err(e) => {
                return Err(e);
            },
        };
        let fresh = self.begin_fetch(full.as_slice());
        if !fresh {
            return Ok(None);
        }
        let category = classify(full.as_slice());
        let mut name = filename_of(reference);
        if name.len() == 0 {
            let t = now_unix_seconds();
            name = fallback_name(t);
        }
        Ok(Some(AssetPlan { url: full, category, filename: name }))
    }
}

} // verus!
