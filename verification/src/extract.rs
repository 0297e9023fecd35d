//! Discovery of the asset references a page holds.
//!
//! The HTML parsing itself comes from the `scraper` crate; this module names
//! what its selectors yield on a document and states the one fact the
//! pipeline needs: `extract` returns every stylesheet `href`, then every
//! script `src`, then every image `src`, in document order, nothing else.
//! Malformed markup never fails: it merely yields fewer references.

use vstd::prelude::*;
use crate::bytes::views_of;
use crate::bytes::lemma_views_of_concat;

verus! {

/// The `href` attribute values of the stylesheet `link` elements of `h`, in
/// document order; elements without an `href` contribute nothing.
pub uninterp spec fn stylesheet_hrefs_of(h: Seq<u8>) -> Seq<Seq<u8>>;

/// The `src` attribute values of the `script` elements of `h` that carry
/// one, in document order.
pub uninterp spec fn script_srcs_of(h: Seq<u8>) -> Seq<Seq<u8>>;

/// The `src` attribute values of the `img` elements of `h` that carry one,
/// in document order.
pub uninterp spec fn image_srcs_of(h: Seq<u8>) -> Seq<Seq<u8>>;

/// Relies on scraper::Html::parse_document, Selector::parse and
/// ElementRef::attr: parsing is a function of the document bytes alone, and
/// the selector `link[rel='stylesheet']` yields the stylesheet links in
/// document order. Input that is not UTF-8 yields nothing.
#[verifier::external_body]
fn scrape_stylesheet_hrefs(html: &[u8]) -> (r: Vec<Vec<u8>>)
    ensures
        views_of(r@) == stylesheet_hrefs_of(html@),
{
    let text = match core::str::from_utf8(html) {
        Ok(t) => t,
        Err(_) => return Vec::new(),
    };
    let document = scraper::Html::parse_document(text);
    let selector = scraper::Selector::parse("link[rel='stylesheet']").unwrap();
    document
        .select(&selector)
        .filter_map(|element| element.attr("href"))
        .map(|href| href.as_bytes().to_vec())
        .collect()
}

/// Relies on scraper::Html::parse_document, Selector::parse and
/// ElementRef::attr, with the selector `script[src]`: the `src` values of
/// the scripts of the document, in document order, a function of the
/// document bytes alone. Input that is not UTF-8 yields nothing.
#[verifier::external_body]
fn scrape_script_srcs(html: &[u8]) -> (r: Vec<Vec<u8>>)
    ensures
        views_of(r@) == script_srcs_of(html@),
{
    let text = match core::str::from_utf8(html) {
        Ok(t) => t,
        Err(_) => return Vec::new(),
    };
    let document = scraper::Html::parse_document(text);
    let selector = scraper::Selector::parse("script[src]").unwrap();
    document
        .select(&selector)
        .filter_map(|element| element.attr("src"))
        .map(|src| src.as_bytes().to_vec())
        .collect()
}

/// Relies on scraper::Html::parse_document, Selector::parse and
/// ElementRef::attr, with the selector `img[src]`: the `src` values of the
/// images of the document, in document order, a function of the document
/// bytes alone. Input that is not UTF-8 yields nothing.
#[verifier::external_body]
fn scrape_image_srcs(html: &[u8]) -> (r: Vec<Vec<u8>>)
    ensures
        views_of(r@) == image_srcs_of(html@),
{
    let text = match core::str::from_utf8(html) {
        Ok(t) => t,
        Err(_) => return Vec::new(),
    };
    let document = scraper::Html::parse_document(text);
    let selector = scraper::Selector::parse("img[src]").unwrap();
    document
        .select(&selector)
        .filter_map(|element| element.attr("src"))
        .map(|src| src.as_bytes().to_vec())
        .collect()
}

/// Extracts the raw asset references of a page: every stylesheet `href`,
/// then every script `src`, then every image `src`, each verbatim and in
/// document order. The length of the result is exactly the count of those
/// three kinds of attribute in the markup; duplicates stay, and nothing
/// here fails on malformed markup.
pub fn extract(html: &[u8]) -> (r: Vec<Vec<u8>>)
    ensures
        views_of(r@) == stylesheet_hrefs_of(html@) + script_srcs_of(html@) + image_srcs_of(
            html@,
        ),
        views_of(r@).len() == stylesheet_hrefs_of(html@).len() + script_srcs_of(html@).len()
            + image_srcs_of(html@).len(),
        r@.len() == views_of(r@).len(),
{
    let mut out = scrape_stylesheet_hrefs(html);
    let mut scripts = scrape_script_srcs(html);
    let mut images = scrape_image_srcs(html);
    let ghost sty_part = out@;
    let ghost scr_part = scripts@;
    let ghost img_part = images@;
    out.append(&mut scripts);
    proof {
        lemma_views_of_concat(sty_part, scr_part);
    }
    out.append(&mut images);
    proof {
        lemma_views_of_concat(sty_part + scr_part, img_part);
        assert(views_of(out@) =~= stylesheet_hrefs_of(html@) + script_srcs_of(html@)
            + image_srcs_of(html@));
    }
    out
}

} // verus!
