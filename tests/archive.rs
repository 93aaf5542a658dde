use sitehost::archive::{extract_file, keeps_entry};
use sitehost::error::SiteError;
use std::io::{Cursor, Write};
use zip::write::SimpleFileOptions;
use zip::{CompressionMethod, ZipWriter};

fn build_zip(entries: &[(&str, &[u8])], dirs: &[&str]) -> Vec<u8> {
    let mut w = ZipWriter::new(Cursor::new(Vec::new()));
    let opts = SimpleFileOptions::default().compression_method(CompressionMethod::Stored);
    for d in dirs {
        w.add_directory(*d, opts).unwrap();
    }
    for (name, data) in entries {
        w.start_file(*name, opts).unwrap();
        w.write_all(data).unwrap();
    }
    w.finish().unwrap().into_inner()
}

#[test]
fn extraction_skips_metadata_entries() {
    let bytes = build_zip(
        &[
            ("a.html", b"<p>a</p>"),
            ("__MACOSX/b.html", b"meta"),
            (".DS_Store", b"ds"),
        ],
        &[],
    );
    let files = extract_file(bytes).unwrap();
    assert_eq!(files.len(), 1);
    assert_eq!(files[0].name, "a.html");
    assert_eq!(files[0].content, b"<p>a</p>".to_vec());
    assert_eq!(files[0].content_type.as_deref(), Some("text/html"));
}

#[test]
fn extraction_keeps_archive_order_and_drops_directories() {
    let bytes = build_zip(
        &[("z.css", b"body{}"), ("assets/logo.png", b"png"), ("a.html", b"x"), ("sub/.DS_Store", b"")],
        &["assets/"],
    );
    let files = extract_file(bytes).unwrap();
    let names: Vec<&str> = files.iter().map(|f| f.name.as_str()).collect();
    assert_eq!(names, vec!["z.css", "assets/logo.png", "a.html"]);
    assert_eq!(files[0].content_type.as_deref(), Some("text/css"));
    assert_eq!(files[1].content_type.as_deref(), Some("image/png"));
}

#[test]
fn extraction_gives_octet_stream_to_unknown_extensions() {
    let bytes = build_zip(&[("data.qqqunknown", b"1")], &[]);
    let files = extract_file(bytes).unwrap();
    assert_eq!(files[0].content_type.as_deref(), Some("application/octet-stream"));
}

#[test]
fn extraction_of_empty_archive_is_empty() {
    let bytes = build_zip(&[], &[]);
    assert_eq!(extract_file(bytes).unwrap().len(), 0);
}

#[test]
fn extraction_refuses_non_archive() {
    let r = extract_file(b"this is not a zip archive".to_vec());
    assert!(matches!(r, Err(SiteError::Extraction)));
}

#[test]
fn entry_filter_rules() {
    assert!(keeps_entry("index.html"));
    assert!(keeps_entry("css/site.css"));
    assert!(!keeps_entry("css/"));
    assert!(!keeps_entry("css\\"));
    assert!(!keeps_entry("__MACOSX/x.html"));
    assert!(!keeps_entry("__MACOSX"));
    assert!(!keeps_entry("a/.DS_Store"));
    assert!(keeps_entry("a/.ds_store"));
    assert!(keeps_entry("x__MACOSX"));
    assert!(keeps_entry(""));
}

#[test]
fn extraction_gives_octet_stream_without_extension() {
    let bytes = build_zip(&[("LICENSE", b"text"), ("docs/README", b"r")], &[]);
    let files = extract_file(bytes).unwrap();
    assert_eq!(files.len(), 2);
    assert_eq!(files[0].content_type.as_deref(), Some("application/octet-stream"));
    assert_eq!(files[1].content_type.as_deref(), Some("application/octet-stream"));
}

#[test]
fn extraction_filters_exact_names() {
    let bytes = build_zip(
        &[("x.DS_Store", b""), ("sub/.DS_Store", b""), ("y.ds_store", b"1"), ("sub/__MACOSX/c.css", b"2")],
        &["docs/"],
    );
    let files = extract_file(bytes).unwrap();
    let names: Vec<&str> = files.iter().map(|f| f.name.as_str()).collect();
    assert_eq!(names, vec!["y.ds_store", "sub/__MACOSX/c.css"]);
}
