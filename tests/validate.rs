use sitehost::error::{SiteError, UploadProblem};
use sitehost::publish::check_upload;
use sitehost::upload_file::CandidateFile;
use sitehost::validate::{parse_site_type, validate_files, SiteType, MAX_FILE_SIZE, MAX_ZIP_FILE_SIZE};
use std::io::{Cursor, Write};
use zip::write::SimpleFileOptions;
use zip::ZipWriter;

fn file(name: &str, ty: Option<&str>, size: usize) -> CandidateFile {
    CandidateFile {
        name: name.to_string(),
        content_type: ty.map(|t| t.to_string()),
        content: vec![b'x'; size],
    }
}

#[test]
fn site_type_tags() {
    assert_eq!(parse_site_type("html"), Some(SiteType::Html));
    assert_eq!(parse_site_type("zip"), Some(SiteType::Zip));
    assert_eq!(parse_site_type("HTML"), None);
    assert_eq!(parse_site_type(""), None);
}

#[test]
fn html_files_within_policy_pass_unchanged() {
    let files = vec![
        file("index.html", Some("text/html"), 10),
        file("site.css", Some("text/css"), MAX_FILE_SIZE),
    ];
    let out = validate_files(SiteType::Html, files).unwrap();
    assert_eq!(out.len(), 2);
    assert_eq!(out[0].name, "index.html");
    assert_eq!(out[1].content.len(), 2 * 1024 * 1024);
}

#[test]
fn html_empty_upload_passes() {
    assert_eq!(validate_files(SiteType::Html, vec![]).unwrap().len(), 0);
}

#[test]
fn html_oversized_file_refused() {
    let files = vec![file("index.html", Some("text/html"), MAX_FILE_SIZE + 1)];
    let r = validate_files(SiteType::Html, files);
    assert!(matches!(r, Err(SiteError::Validation(UploadProblem::HtmlFileTooLarge))));
}

#[test]
fn html_wrong_type_refused() {
    let files = vec![file("a.js", Some("application/javascript"), 1)];
    let r = validate_files(SiteType::Html, files);
    assert!(matches!(r, Err(SiteError::Validation(UploadProblem::HtmlTypeNotAllowed))));
}

#[test]
fn html_missing_type_refused() {
    let r = validate_files(SiteType::Html, vec![file("a.html", None, 1)]);
    assert!(matches!(r, Err(SiteError::Validation(UploadProblem::MissingContentType))));
}

#[test]
fn html_first_problem_reported() {
    let files = vec![
        file("a.html", Some("text/html"), 1),
        file("big.css", Some("text/css"), MAX_FILE_SIZE + 1),
        file("b.png", Some("image/png"), 1),
    ];
    let r = validate_files(SiteType::Html, files);
    assert!(matches!(r, Err(SiteError::Validation(UploadProblem::HtmlFileTooLarge))));
}

#[test]
fn archive_without_files_refused() {
    let r = validate_files(SiteType::Zip, vec![]);
    assert!(matches!(r, Err(SiteError::Validation(UploadProblem::NoFiles))));
}

#[test]
fn archive_wrong_type_refused() {
    let r = validate_files(SiteType::Zip, vec![file("site.tar", Some("application/x-tar"), 10)]);
    assert!(matches!(r, Err(SiteError::Validation(UploadProblem::NotAnArchive))));
}

#[test]
fn archive_too_large_refused() {
    let r = validate_files(
        SiteType::Zip,
        vec![file("site.zip", Some("application/zip"), MAX_ZIP_FILE_SIZE + 1)],
    );
    assert!(matches!(r, Err(SiteError::Validation(UploadProblem::ArchiveTooLarge))));
}

#[test]
fn archive_corrupt_gives_extraction_error() {
    let r = validate_files(SiteType::Zip, vec![file("site.zip", Some("application/zip"), 100)]);
    assert!(matches!(r, Err(SiteError::Extraction)));
}

#[test]
fn archive_entries_become_the_upload() {
    let mut w = ZipWriter::new(Cursor::new(Vec::new()));
    let opts = SimpleFileOptions::default();
    w.start_file("index.html", opts).unwrap();
    w.write_all(&vec![b'a'; MAX_FILE_SIZE + 10]).unwrap();
    w.start_file("app.js", opts).unwrap();
    w.write_all(b"let x = 1;").unwrap();
    let bytes = w.finish().unwrap().into_inner();
    let upload = CandidateFile {
        name: "site.zip".to_string(),
        content_type: Some("application/zip".to_string()),
        content: bytes,
    };
    let out = validate_files(SiteType::Zip, vec![upload]).unwrap();
    assert_eq!(out.len(), 2);
    assert_eq!(out[0].name, "index.html");
    assert_eq!(out[0].content.len(), MAX_FILE_SIZE + 10);
    assert_eq!(out[1].name, "app.js");
}

#[test]
fn unknown_site_type_refused_first() {
    let r = check_upload("tar", vec![]);
    assert!(matches!(r, Err(SiteError::InvalidSiteType)));
    let r = check_upload("zip", vec![]);
    assert!(matches!(r, Err(SiteError::Validation(UploadProblem::NoFiles))));
}

#[test]
fn problem_messages() {
    assert_eq!(UploadProblem::NoFiles.message(), "No files found");
    assert_eq!(
        SiteError::Validation(UploadProblem::ArchiveTooLarge).message(),
        "Zip file size is too large. Maximum size is 5MB"
    );
    assert_eq!(SiteError::Conflict.message(), "Domain is already taken");
    assert_eq!(SiteError::Conflict.status(), 400);
    assert_eq!(SiteError::NotFound.status(), 404);
    assert_eq!(SiteError::ConcurrentModification.status(), 500);
}
