use chrono::NaiveDateTime;
use sitehost::error::SiteError;
use sitehost::models::{File, Site};
use sitehost::resolve::{file_key, find_file, is_root_subpath, serve_plan, site_prefix, split_request_path, Method};

fn site(id: &str, host: &str, index: Option<&str>) -> Site {
    Site {
        id: id.to_string(),
        host: host.to_string(),
        index_file: index.map(|s| s.to_string()),
        created_at: NaiveDateTime::default(),
        updated_at: NaiveDateTime::default(),
    }
}

fn row(site_id: &str, name: &str, is_index: bool) -> File {
    File {
        id: format!("f-{}", name),
        site_id: site_id.to_string(),
        name: name.to_string(),
        path: format!("sites/{}/{}", site_id, name),
        mime_type: "text/html".to_string(),
        size: 42,
        is_index,
        created_at: NaiveDateTime::default(),
        updated_at: NaiveDateTime::default(),
    }
}

#[test]
fn split_host_and_subpath() {
    let t = split_request_path("example.com/docs/a.html");
    assert_eq!(t.host, "example.com");
    assert_eq!(t.subpath, "docs/a.html");
    assert!(!t.is_index);
}

#[test]
fn root_requests_with_and_without_slash() {
    for raw in ["example.com/", "example.com"] {
        let t = split_request_path(raw);
        assert_eq!(t.host, "example.com");
        assert_eq!(t.subpath, "");
        assert!(t.is_index);
        let s = site("S1", "example.com", Some("home.html"));
        assert_eq!(file_key(&s, &t).path, "sites/S1/home.html");
        let s = site("S1", "example.com", None);
        assert_eq!(file_key(&s, &t).path, "sites/S1/index.html");
    }
}

#[test]
fn double_slash_is_root() {
    let t = split_request_path("example.com//");
    assert_eq!(t.subpath, "/");
    assert!(t.is_index);
    assert!(is_root_subpath("/"));
    assert!(!is_root_subpath("//"));
}

#[test]
fn non_index_path_key() {
    let s = site("S2", "h.io", Some("index.html"));
    let t = split_request_path("h.io/css/site.css");
    let k = file_key(&s, &t);
    assert_eq!(k.site_id, "S2");
    assert!(!k.is_index);
    assert_eq!(k.path, "sites/S2/css/site.css");
    assert_eq!(site_prefix("S2"), "sites/S2/");
}

#[test]
fn lookup_respects_index_flag() {
    let files = vec![row("S1", "about.html", false), row("S1", "index.html", true)];
    let s = site("S1", "h.io", None);
    let k = file_key(&s, &split_request_path("h.io"));
    assert_eq!(find_file(&files, &k), Some(1));
    let k = file_key(&s, &split_request_path("h.io/about.html"));
    assert_eq!(find_file(&files, &k), Some(0));
    let k = file_key(&s, &split_request_path("h.io/index.html"));
    assert_eq!(find_file(&files, &k), None);
    let other = site("S9", "h.io", None);
    let k = file_key(&other, &split_request_path("h.io/about.html"));
    assert_eq!(find_file(&files, &k), None);
}

#[test]
fn head_and_get_share_headers() {
    let f = row("S1", "index.html", true);
    let get = serve_plan(Method::Get, &f, true).unwrap();
    let head = serve_plan(Method::Head, &f, true).unwrap();
    assert_eq!(get.content_type, head.content_type);
    assert_eq!(get.content_length, head.content_length);
    assert_eq!(get.content_length, 42);
    assert!(get.stream_body);
    assert!(!head.stream_body);
}

#[test]
fn failed_fetch_is_storage_error() {
    let f = row("S1", "index.html", true);
    assert!(matches!(serve_plan(Method::Get, &f, false), Err(SiteError::Storage)));
}
