use fox2web::classify::{classify, Category};
use fox2web::paths::{filename_of, extension_of};

#[test]
fn classify_css() {
    assert_eq!(classify(b"https://example.com/static/app.css"), Category::Css);
}

#[test]
fn classify_js() {
    assert_eq!(classify(b"https://cdn.x/lib/app.js?v=3"), Category::Js);
}

#[test]
fn classify_each_image_extension() {
    for url in [
        b"https://a.com/i.png".to_vec(),
        b"https://a.com/i.jpg".to_vec(),
        b"https://a.com/i.jpeg".to_vec(),
        b"https://a.com/i.gif".to_vec(),
        b"https://a.com/i.svg".to_vec(),
        b"https://a.com/i.webp".to_vec(),
    ] {
        assert_eq!(classify(&url), Category::Images);
    }
}

#[test]
fn classify_unknown_extension_is_assets() {
    assert_eq!(classify(b"https://example.com/data.bin"), Category::Assets);
}

#[test]
fn classify_no_extension_is_assets() {
    assert_eq!(classify(b"https://example.com/about"), Category::Assets);
    assert_eq!(classify(b"https://example.com/"), Category::Assets);
}

#[test]
fn classify_is_case_sensitive() {
    assert_eq!(classify(b"https://example.com/a.CSS"), Category::Assets);
}

#[test]
fn classify_ignores_host_and_query() {
    let a = classify(b"https://one.example/x/y/style.css?v=1");
    let b = classify(b"http://other.example/style.css");
    assert_eq!(a, Category::Css);
    assert_eq!(a, b);
}

#[test]
fn classify_query_extension_does_not_count() {
    assert_eq!(classify(b"https://example.com/page?f=x.css"), Category::Assets);
}

#[test]
fn filename_strips_query_and_fragment() {
    assert_eq!(filename_of(b"/static/app.css?v=2"), b"app.css".to_vec());
    assert_eq!(filename_of(b"img/c.png#frag"), b"c.png".to_vec());
}

#[test]
fn filename_takes_final_segment() {
    assert_eq!(filename_of(b"https://cdn.x/a/b/c.js"), b"c.js".to_vec());
    assert_eq!(filename_of(b"plain.txt"), b"plain.txt".to_vec());
}

#[test]
fn filename_empty_for_bare_slash() {
    assert_eq!(filename_of(b"/"), b"".to_vec());
    assert_eq!(filename_of(b""), b"".to_vec());
    assert_eq!(filename_of(b"a/b/"), b"".to_vec());
}

#[test]
fn extension_after_last_dot() {
    assert_eq!(extension_of(b"/a/b.tar.gz"), Some(b"gz".to_vec()));
    assert_eq!(extension_of(b"/a/b.css"), Some(b"css".to_vec()));
}

#[test]
fn extension_absent_without_a_dot() {
    assert_eq!(extension_of(b"/a/plain"), None);
}

#[test]
fn extension_absent_for_leading_dot_only() {
    assert_eq!(extension_of(b"/home/.config"), None);
}
