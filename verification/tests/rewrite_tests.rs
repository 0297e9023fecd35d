use fox2web::rewrite::rewrite;

fn s(v: Vec<u8>) -> String {
    String::from_utf8(v).unwrap()
}

#[test]
fn rewrite_stylesheet_strips_query() {
    let html = br#"<link rel="stylesheet" href="/static/app.css?v=2">"#;
    let out = s(rewrite(html));
    assert!(out.contains(r#"href="css/app.css""#), "{out}");
}

#[test]
fn rewrite_script_reference() {
    let html = br#"<script src="https://cdn.x/lib/b.js"></script>"#;
    let out = s(rewrite(html));
    assert!(out.contains(r#"src="js/b.js""#), "{out}");
}

#[test]
fn rewrite_image_reference() {
    let html = br#"<img src="img/c.png#frag">"#;
    let out = s(rewrite(html));
    assert!(out.contains(r#"src="images/c.png""#), "{out}");
}

#[test]
fn rewrite_single_quoted_value() {
    let html = b"<link rel='stylesheet' href='a.css'>";
    let out = s(rewrite(html));
    assert!(out.contains(r#"href="css/a.css""#), "{out}");
}

#[test]
fn rewrite_leaves_unrelated_text_alone() {
    let html = br#"<p>plain text, a href in prose, src= nothing quoted</p>"#;
    let out = rewrite(html);
    assert_eq!(out, html.to_vec());
}

#[test]
fn rewrite_leaves_non_asset_href_alone() {
    let html = br#"<a href="/about.html">about</a>"#;
    let out = rewrite(html);
    assert_eq!(out, html.to_vec());
}

#[test]
fn rewrite_skips_value_without_filename() {
    // The value matches the stylesheet family but names no file, so the
    // occurrence stays as it was and later ones are still rewritten.
    let html = br#"<link href="/x.css/"><link href="/y.css">"#;
    let out = s(rewrite(html));
    assert!(out.contains(r#"href="/x.css/""#), "{out}");
    assert!(out.contains(r#"href="css/y.css""#), "{out}");
}

#[test]
fn rewrite_all_three_kinds_in_one_page() {
    let html = br#"<html><head>
<link rel="stylesheet" href="/s/a.css">
<script src="https://cdn.x/b.js"></script>
</head><body>
<img src="img/c.png">
</body></html>"#;
    let out = s(rewrite(html));
    assert!(out.contains(r#"href="css/a.css""#), "{out}");
    assert!(out.contains(r#"src="js/b.js""#), "{out}");
    assert!(out.contains(r#"src="images/c.png""#), "{out}");
    assert!(!out.contains("/s/a.css"), "{out}");
    assert!(!out.contains("cdn.x"), "{out}");
}

#[test]
fn rewrite_requires_a_character_before_the_dot() {
    // `.css` alone, with nothing before the dot, is not a family match.
    let html = br#"<link href=".css">"#;
    let out = rewrite(html);
    assert_eq!(out, html.to_vec());
}

#[test]
fn rewrite_empty_input() {
    assert_eq!(rewrite(b""), b"".to_vec());
}
