use fox2web::classify::Category;
use fox2web::errors::MirrorError;
use fox2web::extract::extract;
use fox2web::mirror::{category_dirs, index_path, Mirror};
use fox2web::rewrite::rewrite;

#[test]
fn new_rejects_invalid_base_url() {
    assert_eq!(Mirror::new(b"not a url", b"demo").unwrap_err(), MirrorError::InvalidUrl);
}

#[test]
fn new_keeps_the_normalized_base() {
    let m = Mirror::new(b"https://example.com", b"demo").unwrap();
    assert_eq!(m.base_bytes().clone(), b"https://example.com/".to_vec());
}

#[test]
fn begin_fetch_is_fresh_once_per_url() {
    let mut m = Mirror::new(b"https://example.com/", b"demo").unwrap();
    assert!(m.begin_fetch(b"https://example.com/"));
    assert!(!m.begin_fetch(b"https://example.com/"));
    assert!(m.begin_fetch(b"https://example.com/other"));
    assert!(!m.begin_fetch(b"https://example.com/other"));
}

#[test]
fn plan_asset_fetches_each_url_once() {
    let mut m = Mirror::new(b"https://example.com/index.html", b"demo").unwrap();
    let first = m.plan_asset(b"/s/a.css").unwrap();
    assert!(first.is_some());
    // The same absolute URL through a different raw reference: no new I/O.
    let second = m.plan_asset(b"s/a.css").unwrap();
    assert!(second.is_none());
}

#[test]
fn plan_asset_rejects_unresolvable_reference() {
    let mut m = Mirror::new(b"https://example.com/", b"demo").unwrap();
    assert_eq!(m.plan_asset(b"http://[bad").unwrap_err(), MirrorError::InvalidUrl);
    // The failure left the fetched set alone.
    assert!(m.begin_fetch(b"https://example.com/x"));
}

#[test]
fn plan_asset_falls_back_to_a_time_name() {
    let before = std::time::SystemTime::now()
        .duration_since(std::time::UNIX_EPOCH)
        .unwrap()
        .as_secs();
    let mut m = Mirror::new(b"https://example.com/", b"demo").unwrap();
    let plan = m.plan_asset(b"/").unwrap().unwrap();
    let after = std::time::SystemTime::now()
        .duration_since(std::time::UNIX_EPOCH)
        .unwrap()
        .as_secs();
    assert!(plan.filename.starts_with(b"asset_"));
    let digits = String::from_utf8(plan.filename[b"asset_".len()..].to_vec()).unwrap();
    let stamp: u64 = digits.parse().unwrap();
    assert!(before <= stamp && stamp <= after);
}

#[test]
fn category_dirs_in_creation_order() {
    let dirs = category_dirs();
    assert_eq!(dirs.len(), 4);
    assert_eq!(dirs[0], b"assets".to_vec());
    assert_eq!(dirs[1], b"css".to_vec());
    assert_eq!(dirs[2], b"js".to_vec());
    assert_eq!(dirs[3], b"images".to_vec());
}

#[test]
fn index_path_of_the_project() {
    assert_eq!(index_path(b"demo"), b"demo/index.html".to_vec());
}

#[test]
fn whole_run_places_and_rewrites_every_asset() {
    let page = br#"<html><head>
<link rel="stylesheet" href="/s/a.css">
<script src="https://cdn.x/b.js"></script>
</head><body>
<img src="img/c.png">
</body></html>"#;
    let mut m = Mirror::new(b"https://example.com/index.html", b"demo").unwrap();
    assert!(m.begin_fetch(m.base_bytes().clone().as_slice()));

    let refs = extract(page);
    assert_eq!(refs.len(), 3);

    let mut dests: Vec<Vec<u8>> = Vec::new();
    for r in &refs {
        let plan = m.plan_asset(r).unwrap().unwrap();
        dests.push(plan.dest_path(b"demo"));
    }
    assert_eq!(dests[0], b"demo/css/a.css".to_vec());
    assert_eq!(dests[1], b"demo/js/b.js".to_vec());
    assert_eq!(dests[2], b"demo/images/c.png".to_vec());

    let out = String::from_utf8(rewrite(page)).unwrap();
    assert!(out.contains(r#"href="css/a.css""#), "{out}");
    assert!(out.contains(r#"src="js/b.js""#), "{out}");
    assert!(out.contains(r#"src="images/c.png""#), "{out}");
    assert_eq!(index_path(b"demo"), b"demo/index.html".to_vec());
}

#[test]
fn one_failed_asset_does_not_stop_the_run() {
    let page = br#"<link rel="stylesheet" href="/s/a.css"><script src="https://cdn.x/b.js"></script><img src="img/c.png">"#;
    let mut m = Mirror::new(b"https://example.com/index.html", b"demo").unwrap();
    assert!(m.begin_fetch(m.base_bytes().clone().as_slice()));

    let refs = extract(page);
    assert_eq!(refs.len(), 3);

    let mut saved: Vec<Vec<u8>> = Vec::new();
    for (i, r) in refs.iter().enumerate() {
        let plan = m.plan_asset(r).unwrap().unwrap();
        // The transfer of b.js fails; the plan is simply not acted on and
        // the run continues with the remaining assets.
        let fetch_failed = i == 1;
        if !fetch_failed {
            saved.push(plan.dest_path(b"demo"));
        }
    }
    assert_eq!(saved, vec![b"demo/css/a.css".to_vec(), b"demo/images/c.png".to_vec()]);

    // The rewrite works from the original page text and is complete even
    // though one transfer failed.
    let out = String::from_utf8(rewrite(page)).unwrap();
    assert!(out.contains(r#"href="css/a.css""#), "{out}");
    assert!(out.contains(r#"src="js/b.js""#), "{out}");
    assert!(out.contains(r#"src="images/c.png""#), "{out}");

    let plan = m.plan_asset(b"extra.png").unwrap().unwrap();
    assert_eq!(plan.category, Category::Images);
}
