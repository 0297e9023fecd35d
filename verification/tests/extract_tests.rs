use fox2web::extract::extract;

#[test]
fn extract_orders_stylesheets_scripts_images() {
    let html = br#"<html><head>
        <script src="late.js"></script>
        <link rel="stylesheet" href="/s/a.css">
        </head><body>
        <img src="img/c.png">
        <script src="https://cdn.x/b.js"></script>
        </body></html>"#;
    let refs = extract(html);
    assert_eq!(refs.len(), 4);
    assert_eq!(refs[0], b"/s/a.css".to_vec());
    assert_eq!(refs[1], b"late.js".to_vec());
    assert_eq!(refs[2], b"https://cdn.x/b.js".to_vec());
    assert_eq!(refs[3], b"img/c.png".to_vec());
}

#[test]
fn extract_counts_only_attributes_present() {
    let html = br#"<html><head>
        <link rel="stylesheet" href="a.css">
        <link rel="icon" href="favicon.ico">
        <script>inline();</script>
        <script src="b.js"></script>
        </head><body>
        <img alt="no source">
        <img src="c.png">
        </body></html>"#;
    let refs = extract(html);
    assert_eq!(refs.len(), 3);
    assert_eq!(refs[0], b"a.css".to_vec());
    assert_eq!(refs[1], b"b.js".to_vec());
    assert_eq!(refs[2], b"c.png".to_vec());
}

#[test]
fn extract_keeps_duplicates() {
    let html = br#"<img src="x.png"><img src="x.png">"#;
    let refs = extract(html);
    assert_eq!(refs.len(), 2);
    assert_eq!(refs[0], refs[1]);
}

#[test]
fn extract_never_fails_on_malformed_markup() {
    let refs = extract(b"<<<>><link rel=\"stylesheet\" href=\"a.css\"<img");
    // However broken the markup, extraction yields a (possibly empty) list.
    for r in &refs {
        assert!(!r.is_empty());
    }
}

#[test]
fn extract_empty_document_yields_nothing() {
    assert_eq!(extract(b"").len(), 0);
}
