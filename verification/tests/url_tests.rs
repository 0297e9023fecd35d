use fox2web::urls::{resolve, normalize_url, path_of, with_scheme};

#[test]
fn resolve_path_relative_reference() {
    let r = resolve(b"https://example.net/a/b.html", b"c.png").unwrap();
    assert_eq!(r, b"https://example.net/a/c.png".to_vec());
}

#[test]
fn resolve_root_relative_reference() {
    let r = resolve(b"https://alice.com/a", b"/v1/meta").unwrap();
    assert_eq!(r, b"https://alice.com/v1/meta".to_vec());
}

#[test]
fn resolve_scheme_relative_reference() {
    let r = resolve(b"https://alice.com/a", b"//eve.com/b").unwrap();
    assert_eq!(r, b"https://eve.com/b".to_vec());
}

#[test]
fn resolve_absolute_reference_ignores_base() {
    let r = resolve(b"https://alice.com/a", b"http://eve.com/b").unwrap();
    assert_eq!(r, b"http://eve.com/b".to_vec());
}

#[test]
fn resolve_keeps_query_and_fragment() {
    let r = resolve(b"https://example.com/d/", b"x.css?v=2#top").unwrap();
    assert_eq!(r, b"https://example.com/d/x.css?v=2#top".to_vec());
}

#[test]
fn resolve_is_idempotent_on_its_result() {
    let once = resolve(b"https://example.com/a/b.html", b"../img/c.png").unwrap();
    let twice = resolve(&once, &once).unwrap();
    assert_eq!(once, twice);
}

#[test]
fn resolve_rejects_unparseable_reference() {
    assert!(resolve(b"https://example.com/", b"http://[bad").is_err());
}

#[test]
fn normalize_adds_trailing_slash_to_bare_host() {
    let r = normalize_url(b"https://example.com").unwrap();
    assert_eq!(r, b"https://example.com/".to_vec());
}

#[test]
fn normalize_rejects_schemeless_text() {
    assert!(normalize_url(b"example.com/index.html").is_err());
}

#[test]
fn path_excludes_query_and_fragment() {
    let p = path_of(b"https://example.com/api/versions?page=2").unwrap();
    assert_eq!(p, b"/api/versions".to_vec());
}

#[test]
fn with_scheme_leaves_http_and_https_alone() {
    assert_eq!(with_scheme(b"http://x.org"), b"http://x.org".to_vec());
    assert_eq!(with_scheme(b"https://x.org"), b"https://x.org".to_vec());
}

#[test]
fn with_scheme_prepends_https() {
    assert_eq!(with_scheme(b"example.com"), b"https://example.com".to_vec());
}
