//! Classification of a URL into an asset category by file extension.
//!
//! The category decides the directory an asset is stored under and the
//! prefix its rewritten reference carries. It is purely syntactic: only the
//! extension of the URL's final path segment matters, never the response.

use vstd::prelude::*;
use vstd::slice::slice_to_vec;
use crate::bytes::views_of;
use crate::bytes::list_contains;
use crate::paths::extension_spec;
use crate::urls::url_path_of;
use crate::urls::path_of;

verus! {

/// Where an asset belongs: its storage directory and rewrite prefix.
#[derive(Clone, Copy, Debug, PartialEq, Eq, Structural)]
pub enum Category {
    /// Stylesheets (`css`).
    Css,
    /// Scripts (`js`).
    Js,
    /// Raster and vector images (`png`, `jpg`, `jpeg`, `gif`, `svg`, `webp`).
    Images,
    /// Everything else, including URLs without an extension.
    Assets,
}

/// The file extensions that select a category. `Assets` is the default and
/// claims none of its own.
pub open spec fn exts_of(c: Category) -> Seq<Seq<u8>> {
    match c {
        Category::Css => seq![seq![99u8, 115u8, 115u8]],  // css
        Category::Js => seq![seq![106u8, 115u8]],  // js
        Category::Images => seq![
            seq![112u8, 110u8, 103u8],  // png
            seq![106u8, 112u8, 103u8],  // jpg
            seq![106u8, 112u8, 101u8, 103u8],  // jpeg
            seq![103u8, 105u8, 102u8],  // gif
            seq![115u8, 118u8, 103u8],  // svg
            seq![119u8, 101u8, 98u8, 112u8],  // webp
        ],
        Category::Assets => Seq::<Seq<u8>>::empty(),
    }
}

/// The directory name of a category, as bytes.
pub open spec fn dir_of(c: Category) -> Seq<u8> {
    match c {
        Category::Css => seq![99u8, 115u8, 115u8],  // css
        Category::Js => seq![106u8, 115u8],  // js
        Category::Images => seq![105u8, 109u8, 97u8, 103u8, 101u8, 115u8],  // images
        Category::Assets => seq![97u8, 115u8, 115u8, 101u8, 116u8, 115u8],  // assets
    }
}

/// The category an extension selects; no extension means `Assets`.
pub open spec fn category_of_ext(e: Option<Seq<u8>>) -> Category {
    match e {
        Some(x) => if exts_of(Category::Css).contains(x) {
            Category::Css
        } else if exts_of(Category::Js).contains(x) {
            Category::Js
        } else if exts_of(Category::Images).contains(x) {
            Category::Images
        } else {
            Category::Assets
        },
        None => Category::Assets,
    }
}

/// The extension of a URL's final path segment, when the URL parses and the
/// segment has one.
pub open spec fn url_extension(u: Seq<u8>) -> Option<Seq<u8>> {
    match url_path_of(u) {
        Some(p) => extension_spec(p),
        None => None::<Seq<u8>>,
    }
}

/// The category of a URL: decided by its final path-segment extension alone.
pub open spec fn spec_category_of_url(u: Seq<u8>) -> Category {
    category_of_ext(url_extension(u))
}

/// The category of a URL is a pure function of its final path-segment
/// extension: two URLs whose paths end in the same extension classify
/// alike, whatever their scheme, host, remaining path, or query string.
pub proof fn lemma_classify_extension_only(u1: Seq<u8>, u2: Seq<u8>)
    requires
        url_extension(u1) == url_extension(u2),
    ensures
        spec_category_of_url(u1) == spec_category_of_url(u2),
{
}

/// Builds the extension table of a category.
pub fn ext_list(c: Category) -> (r: Vec<Vec<u8>>)
    ensures
        views_of(r@) == exts_of(c),
{
    let mut r: Vec<Vec<u8>> = Vec::new();
    match c {
        Category::Css => {
            let css: [u8; 3] = [99, 115, 115];
            r.push(slice_to_vec(css.as_slice()));
        },
        Category::Js => {
            let js: [u8; 2] = [106, 115];
            r.push(slice_to_vec(js.as_slice()));
        },
        Category::Images => {
            let png: [u8; 3] = [112, 110, 103];
            let jpg: [u8; 3] = [106, 112, 103];
            let jpeg: [u8; 4] = [106, 112, 101, 103];
            let gif: [u8; 3] = [103, 105, 102];
            let svg: [u8; 3] = [115, 118, 103];
            let webp: [u8; 4] = [119, 101, 98, 112];
            r.push(slice_to_vec(png.as_slice()));
            r.push(slice_to_vec(jpg.as_slice()));
            r.push(slice_to_vec(jpeg.as_slice()));
            r.push(slice_to_vec(gif.as_slice()));
            r.push(slice_to_vec(svg.as_slice()));
            r.push(slice_to_vec(webp.as_slice()));
        },
        Category::Assets => {},
    }
    proof {
        assert(views_of(r@) =~~= exts_of(c));
    }
    r
}

/// The directory name of a category.
pub fn dir_bytes(c: Category) -> (r: Vec<u8>)
    ensures
        r@ == dir_of(c),
{
    let r: Vec<u8> = match c {
        Category::Css => {
            let a: [u8; 3] = [99, 115, 115];
            slice_to_vec(a.as_slice())
        },
        Category::Js => {
            let a: [u8; 2] = [106, 115];
            slice_to_vec(a.as_slice())
        },
        Category::Images => {
            let a: [u8; 6] = [105, 109, 97, 103, 101, 115];
            slice_to_vec(a.as_slice())
        },
        Category::Assets => {
            let a: [u8; 6] = [97, 115, 115, 101, 116, 115];
            slice_to_vec(a.as_slice())
        },
    };
    proof {
        assert(r@ =~= dir_of(c));
    }
    r
}

/// Classifies an absolute URL by the extension of its final path segment.
/// A URL that does not parse, or whose segment has no extension or an
/// unknown one, lands in `Assets`.
pub fn classify(url: &[u8]) -> (c: Category)
    ensures
        c == spec_category_of_url(url@),
{
    match path_of(url) {
        Some(p) => {
            match crate::paths::extension_of(p.as_slice()) {
                Some(e) => {
                    let css_list = ext_list(Category::Css);
                    let js_list = ext_list(Category::Js);
                    let img_list = ext_list(Category::Images);
                    if list_contains(&css_list, e.as_slice()) {
                        Category::Css
                    } else if list_contains(&js_list, e.as_slice()) {
                        Category::Js
                    } else if list_contains(&img_list, e.as_slice()) {
                        Category::Images
                    } else {
                        Category::Assets
                    }
                },
                None => Category::Assets,
            }
        },
        None => Category::Assets,
    }
}

} // verus!
