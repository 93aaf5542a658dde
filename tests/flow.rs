use std::collections::HashMap;

use sitehost::error::{SiteError, UploadProblem};
use sitehost::flow::{start_create, start_delete, start_update, Action, Event, Flow};
use sitehost::models::{File, Site};
use sitehost::objects::upload_outcome;
use sitehost::resolve::{file_key, find_file, split_request_path};
use sitehost::routing::{CacheCall, CacheFailure};
use sitehost::upload_file::CandidateFile;

/// Stores kept in memory, answering the actions of a flow.
#[derive(Default)]
struct Stores {
    sites: Vec<Site>,
    files: Vec<File>,
    objects: Vec<String>,
    routes: HashMap<String, String>,
    version: u32,
    fail_deletes: bool,
    bump_version_before_write: bool,
}

impl Stores {
    fn answer(&mut self, action: Action) -> Result<Event, (u16, String)> {
        Ok(match action {
            Action::CheckHost { host } => Event::HostTaken(self.sites.iter().any(|s| s.host == host)),
            Action::LoadSite { id } => {
                Event::SiteLoaded(self.sites.iter().find(|s| s.id == id).map(|s| Site {
                    id: s.id.clone(),
                    host: s.host.clone(),
                    index_file: s.index_file.clone(),
                    created_at: s.created_at,
                    updated_at: s.updated_at,
                }))
            }
            Action::InsertSite { site } => {
                self.sites.push(site);
                Event::Written(true)
            }
            Action::UploadObjects { puts } => {
                let answers: Vec<Option<String>> = puts.iter().map(|p| Some(format!("mem://{}", p.key))).collect();
                for p in &puts {
                    self.objects.push(p.key.clone());
                }
                Event::Uploaded(upload_outcome(&puts, &answers))
            }
            Action::DeleteFileRows { site_id } => {
                self.files.retain(|f| f.site_id != site_id);
                Event::Written(true)
            }
            Action::InsertFileRows { rows } => {
                self.files.extend(rows);
                Event::Written(true)
            }
            Action::LoadFilePaths { site_id } => Event::PathsLoaded(Some(
                self.files.iter().filter(|f| f.site_id == site_id).map(|f| f.path.clone()).collect(),
            )),
            Action::DeleteObjects { keys } => {
                if self.fail_deletes {
                    Event::ObjectsDeleted(false)
                } else {
                    self.objects.retain(|o| !keys.contains(o));
                    Event::ObjectsDeleted(true)
                }
            }
            Action::DeleteSiteRow { id } => {
                self.sites.retain(|s| s.id != id);
                Event::Written(true)
            }
            Action::ReadCacheVersion => {
                let tag = format!("E{}", self.version);
                if self.bump_version_before_write {
                    self.version += 1;
                }
                Event::CacheVersion(Ok(tag))
            }
            Action::CallCache { call } => {
                let current = format!("E{}", self.version);
                let (if_match, apply): (String, Box<dyn FnOnce(&mut HashMap<String, String>)>) = match call {
                    CacheCall::Put { key, value, if_match } => (if_match, Box::new(move |m| {
                        m.insert(key, value);
                    })),
                    CacheCall::Remove { key, if_match } => (if_match, Box::new(move |m| {
                        m.remove(&key);
                    })),
                };
                if if_match != current {
                    Event::CacheWritten(Err(CacheFailure::VersionMismatch))
                } else {
                    apply(&mut self.routes);
                    self.version += 1;
                    Event::CacheWritten(Ok(()))
                }
            }
            Action::Respond { status, message } => return Err((status, message)),
        })
    }

    fn run(&mut self, start: (Flow, Action)) -> (u16, String) {
        let (mut flow, mut action) = start;
        loop {
            match self.answer(action) {
                Err(done) => {
                    assert!(flow.is_finished());
                    return done;
                }
                Ok(event) => {
                    let (next, next_action) = flow.step(event);
                    flow = next;
                    action = next_action;
                }
            }
        }
    }

    fn resolve(&self, raw: &str) -> Option<&File> {
        let target = split_request_path(raw);
        let site = self.sites.iter().find(|s| s.host == target.host)?;
        let key = file_key(site, &target);
        find_file(&self.files, &key).map(|i| &self.files[i])
    }
}

fn html(name: &str, body: &str) -> CandidateFile {
    CandidateFile { name: name.to_string(), content_type: Some("text/html".to_string()), content: body.as_bytes().to_vec() }
}

fn css(name: &str) -> CandidateFile {
    CandidateFile { name: name.to_string(), content_type: Some("text/css".to_string()), content: b"p{}".to_vec() }
}

fn create(stores: &mut Stores, domain: &str, files: Vec<CandidateFile>) -> (u16, String) {
    stores.run(start_create(domain, ".example.com", "html", "index.html".to_string(), files))
}

#[test]
fn html_publication_records_one_row_per_file() {
    let mut stores = Stores::default();
    let (status, message) = create(&mut stores, "blog", vec![html("index.html", "<h1>hi</h1>"), css("site.css")]);
    assert_eq!(status, 200);
    let site = &stores.sites[0];
    assert_eq!(
        message,
        format!("You can now access your site at: https://blog.example.com with site id: {}", site.id)
    );
    assert_eq!(stores.files.len(), 2);
    assert!(stores.files[0].is_index);
    assert!(!stores.files[1].is_index);
    assert_eq!(stores.files[1].path, format!("sites/{}/site.css", site.id));
    assert_eq!(stores.objects, vec![format!("sites/{}/index.html", site.id), format!("sites/{}/site.css", site.id)]);
    assert!(stores.routes["blog.example.com"].starts_with(&format!("{}=x=", site.id)));
}

#[test]
fn bad_archive_creates_nothing() {
    let mut stores = Stores::default();
    let big = CandidateFile {
        name: "site.zip".to_string(),
        content_type: Some("application/zip".to_string()),
        content: vec![0; 5 * 1024 * 1024 + 1],
    };
    let (status, message) = stores.run(start_create("a", ".b", "zip", "index.html".to_string(), vec![big]));
    assert_eq!(status, 400);
    assert_eq!(message, "Zip file size is too large. Maximum size is 5MB");
    let wrong = CandidateFile { name: "site.zip".to_string(), content_type: Some("text/plain".to_string()), content: vec![1] };
    let (status, _) = stores.run(start_create("a", ".b", "zip", "index.html".to_string(), vec![wrong]));
    assert_eq!(status, 400);
    assert!(stores.sites.is_empty() && stores.files.is_empty() && stores.objects.is_empty());
}

#[test]
fn unknown_site_type_creates_nothing() {
    let mut stores = Stores::default();
    let (status, message) = stores.run(start_create("a", ".b", "tar", "index.html".to_string(), vec![]));
    assert_eq!(status, 400);
    assert_eq!(message, SiteError::InvalidSiteType.message());
    assert!(stores.sites.is_empty());
}

#[test]
fn duplicate_host_conflicts() {
    let mut stores = Stores::default();
    assert_eq!(create(&mut stores, "shop", vec![html("index.html", "1")]).0, 200);
    let (status, message) = create(&mut stores, "shop", vec![html("index.html", "2")]);
    assert_eq!(status, 400);
    assert_eq!(message, "Domain is already taken");
    assert_eq!(stores.sites.iter().filter(|s| s.host == "shop.example.com").count(), 1);
    assert_eq!(stores.files.len(), 1);
}

#[test]
fn root_requests_resolve_to_index() {
    let mut stores = Stores::default();
    create(&mut stores, "docs", vec![html("index.html", "home"), html("a.html", "a")]);
    let with_slash = stores.resolve("docs.example.com/").unwrap();
    let without = stores.resolve("docs.example.com").unwrap();
    assert_eq!(with_slash.name, "index.html");
    assert_eq!(without.name, "index.html");
    assert_eq!(stores.resolve("docs.example.com/a.html").unwrap().name, "a.html");
    assert!(stores.resolve("docs.example.com/missing.html").is_none());
}

#[test]
fn deletion_removes_rows_objects_and_route() {
    let mut stores = Stores::default();
    create(&mut stores, "gone", vec![html("index.html", "x")]);
    create(&mut stores, "kept", vec![html("index.html", "y")]);
    let id = stores.sites[0].id.clone();
    let (status, message) = stores.run(start_delete(&id));
    assert_eq!(status, 200);
    assert_eq!(message, "Site deleted successfully");
    assert!(stores.sites.iter().all(|s| s.id != id));
    assert!(stores.files.iter().all(|f| f.site_id != id));
    assert!(!stores.routes.contains_key("gone.example.com"));
    assert!(stores.routes.contains_key("kept.example.com"));
    assert!(stores.resolve("gone.example.com/").is_none());
    assert!(stores.resolve("kept.example.com/").is_some());
}

#[test]
fn deletion_of_unknown_site_is_not_found() {
    let mut stores = Stores::default();
    assert_eq!(stores.run(start_delete("NOPE")).0, 404);
}

#[test]
fn failed_object_delete_keeps_metadata() {
    let mut stores = Stores::default();
    create(&mut stores, "stay", vec![html("index.html", "x")]);
    stores.fail_deletes = true;
    let id = stores.sites[0].id.clone();
    assert_eq!(stores.run(start_delete(&id)).0, 500);
    assert_eq!(stores.sites.len(), 1);
    assert_eq!(stores.files.len(), 1);
    assert!(stores.routes.contains_key("stay.example.com"));
}

#[test]
fn update_replaces_file_rows() {
    let mut stores = Stores::default();
    create(&mut stores, "up", vec![html("index.html", "v1"), html("old.html", "o")]);
    let id = stores.sites[0].id.clone();
    let old_ids: Vec<String> = stores.files.iter().map(|f| f.id.clone()).collect();
    let (status, message) = stores.run(start_update(&id, "html", "index.html".to_string(), vec![html("index.html", "v2")]));
    assert_eq!(status, 200);
    assert_eq!(message, "Site updated successfully");
    let rows: Vec<&File> = stores.files.iter().filter(|f| f.site_id == id).collect();
    assert_eq!(rows.len(), 1);
    assert!(rows[0].is_index);
    assert!(stores.files.iter().all(|f| !old_ids.contains(&f.id)));
    assert!(stores.objects.contains(&format!("sites/{}/old.html", id)));
}

#[test]
fn update_of_unknown_site_is_not_found() {
    let mut stores = Stores::default();
    assert_eq!(stores.run(start_update("NOPE", "html", "index.html".to_string(), vec![])).0, 404);
}

#[test]
fn update_with_invalid_files_is_refused() {
    let mut stores = Stores::default();
    create(&mut stores, "v", vec![html("index.html", "v1")]);
    let id = stores.sites[0].id.clone();
    let bad = CandidateFile { name: "x.js".to_string(), content_type: Some("text/javascript".to_string()), content: vec![] };
    let (status, message) = stores.run(start_update(&id, "html", "index.html".to_string(), vec![bad]));
    assert_eq!(status, 400);
    assert_eq!(message, UploadProblem::HtmlTypeNotAllowed.message());
    assert_eq!(stores.files.len(), 1);
}

#[test]
fn concurrent_cache_change_surfaces_as_server_error() {
    let mut stores = Stores::default();
    stores.bump_version_before_write = true;
    let (status, _) = create(&mut stores, "race", vec![html("index.html", "x")]);
    assert_eq!(status, 500);
    assert_eq!(stores.sites.len(), 1);
    assert!(stores.routes.is_empty());
}
