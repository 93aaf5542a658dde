use vstd::prelude::*;
use crate::error::{error_message, status_of, SiteError};
use crate::models::{File, Site};
use crate::objects::{object_puts, puts_for, ObjectPut};
use crate::publish::{
    check_upload, created_message, creation_message, file_rows, intake_outcome, new_site,
    objects_deleted, route_for, row_of, site_host,
};
use crate::resolve::{site_prefix, storage_prefix};
use crate::routing::{
    bound_call, cache_error, conditional_call, mutation_outcome, routing_token, CacheCall,
    CacheFailure, CacheMutation,
};
use crate::upload_file::{candidates_view, CandidateFile, UploadedFile};

verus! {

/// What a publication request is for, once its site is known.
#[derive(PartialEq, Eq, Structural, Clone, Copy, Debug)]
pub enum Purpose {
    Create,
    Update,
    Delete,
}

/// Where a publication request stands, with what it still needs.
pub enum Flow {
    /// Creation: waiting to learn whether the host is taken.
    AwaitHost { host: String, index_file: String, files: Vec<CandidateFile> },
    /// Creation: waiting for the site row to be inserted.
    AwaitSiteRow { site: Site, index_file: String, files: Vec<CandidateFile> },
    /// Update: waiting for the site row looked up by id.
    AwaitSiteForUpdate { index_file: String, files: Vec<CandidateFile> },
    /// Deletion: waiting for the site row looked up by id.
    AwaitSiteForDelete,
    /// Waiting for the objects to be uploaded.
    AwaitUpload { site: Site, index_file: String, purpose: Purpose },
    /// Update: waiting for the site's earlier file rows to be deleted.
    AwaitOldRows { site: Site, index_file: String, uploaded: Vec<UploadedFile> },
    /// Waiting for the new file rows to be inserted.
    AwaitRows { site: Site, purpose: Purpose },
    /// Deletion: waiting for the storage paths of the site's files.
    AwaitPaths { site: Site },
    /// Deletion: waiting for the bulk delete of the site's objects.
    AwaitObjectsDeleted { site: Site },
    /// Waiting for the routing cache's version tag.
    AwaitVersion { site: Site, mutation: CacheMutation, purpose: Purpose },
    /// Waiting for the conditional routing-cache call.
    AwaitCacheWrite { site: Site, purpose: Purpose },
    /// Deletion: waiting for the site's file rows to be deleted.
    AwaitFileRowsDropped { site: Site },
    /// Deletion: waiting for the site row to be deleted.
    AwaitSiteDropped,
    /// The request has been answered.
    Finished,
}

/// What the outside world reports back after an action.
pub enum Event {
    HostTaken(bool),
    SiteLoaded(Option<Site>),
    Written(bool),
    Uploaded(Result<Vec<UploadedFile>, SiteError>),
    PathsLoaded(Option<Vec<String>>),
    ObjectsDeleted(bool),
    CacheVersion(Result<String, CacheFailure>),
    CacheWritten(Result<(), CacheFailure>),
}

/// What the outside world is asked to do next.
pub enum Action {
    CheckHost { host: String },
    LoadSite { id: String },
    InsertSite { site: Site },
    UploadObjects { puts: Vec<ObjectPut> },
    DeleteFileRows { site_id: String },
    InsertFileRows { rows: Vec<File> },
    LoadFilePaths { site_id: String },
    DeleteObjects { keys: Vec<String> },
    DeleteSiteRow { id: String },
    ReadCacheVersion,
    CallCache { call: CacheCall },
    Respond { status: u16, message: String },
}

/// The answer to a failed request.
pub open spec fn responds_error(a: Action, e: SiteError) -> bool {
    &&& a is Respond
    &&& a->Respond_status == status_of(e)
    &&& a->Respond_message@ == error_message(e)
}

/// The request ends, answered with the error.
pub open spec fn finished_with(r: (Flow, Action), e: SiteError) -> bool {
    r.0 is Finished && responds_error(r.1, e)
}

/// The request ends, answered with success and the message.
pub open spec fn finished_ok(r: (Flow, Action), message: Seq<char>) -> bool {
    &&& r.0 is Finished
    &&& r.1 is Respond
    &&& r.1->Respond_status == 200
    &&& r.1->Respond_message@ == message
}

/// The file rows inserted: one per uploaded object, in order, each as `row_of` says.
pub open spec fn records_rows(
    a: Action,
    site_id: Seq<char>,
    index_file: Seq<char>,
    ups: Seq<UploadedFile>,
) -> bool {
    &&& a is InsertFileRows
    &&& a->InsertFileRows_rows@.len() == ups.len()
    &&& forall|k: int|
        0 <= k < ups.len() ==> row_of(site_id, index_file, ups[k], #[trigger] a->InsertFileRows_rows@[k]@)
}

/// The objects of `files` are uploaded under `sites/{id}/`, and the request then waits
/// for the upload with the site, the index file and its purpose.
pub open spec fn uploading(
    r: (Flow, Action),
    site: Site,
    index_file: Seq<char>,
    files: Seq<CandidateFile>,
    purpose: Purpose,
) -> bool {
    &&& r.0 is AwaitUpload
    &&& r.0->AwaitUpload_site@ == site@
    &&& r.0->AwaitUpload_index_file@ == index_file
    &&& r.0->AwaitUpload_purpose == purpose
    &&& r.1 is UploadObjects
    &&& puts_for(r.1->UploadObjects_puts@, storage_prefix(site.id@), candidates_view(files))
}

/// The routing cache is about to be changed for the site: its version tag is read first.
pub open spec fn changing_route(r: (Flow, Action), site: Site, purpose: Purpose) -> bool {
    &&& r.0 is AwaitVersion
    &&& r.0->AwaitVersion_site@ == site@
    &&& r.0->AwaitVersion_purpose == purpose
    &&& r.1 is ReadCacheVersion
}

/// The whole of one step: the next stage and action for each stage and report. A report
/// that does not fit the stage, and every failed metadata write, end the request with a
/// storage error.
pub open spec fn step_result(f: Flow, e: Event, r: (Flow, Action)) -> bool {
    match (f, e) {
        (Flow::AwaitHost { host, index_file, files }, Event::HostTaken(taken)) => if taken {
            finished_with(r, SiteError::Conflict)
        } else {
            &&& r.0 is AwaitSiteRow
            &&& r.0->AwaitSiteRow_site.host@ == host@
            &&& r.0->AwaitSiteRow_site@.index_file == Some(index_file@)
            &&& r.0->AwaitSiteRow_site.id@.len() == 26
            &&& r.0->AwaitSiteRow_index_file@ == index_file@
            &&& r.0->AwaitSiteRow_files@ == files@
            &&& r.1 is InsertSite
            &&& r.1->InsertSite_site@ == r.0->AwaitSiteRow_site@
        },
        (Flow::AwaitSiteRow { site, index_file, files }, Event::Written(ok)) => if !ok {
            finished_with(r, SiteError::Storage)
        } else {
            uploading(r, site, index_file@, files@, Purpose::Create)
        },
        (Flow::AwaitSiteForUpdate { index_file, files }, Event::SiteLoaded(found)) => match found {
            None => finished_with(r, SiteError::NotFound),
            Some(site) => uploading(r, site, index_file@, files@, Purpose::Update),
        },
        (Flow::AwaitSiteForDelete, Event::SiteLoaded(found)) => match found {
            None => finished_with(r, SiteError::NotFound),
            Some(site) => {
                &&& r.0 is AwaitPaths
                &&& r.0->AwaitPaths_site@ == site@
                &&& r.1 is LoadFilePaths
                &&& r.1->LoadFilePaths_site_id@ == site.id@
            },
        },
        (Flow::AwaitUpload { site, index_file, purpose }, Event::Uploaded(result)) => match result {
            Err(_) => finished_with(r, SiteError::Storage),
            Ok(ups) => match purpose {
                Purpose::Create => {
                    &&& r.0 is AwaitRows
                    &&& r.0->AwaitRows_site@ == site@
                    &&& r.0->AwaitRows_purpose == Purpose::Create
                    &&& records_rows(r.1, site.id@, index_file@, ups@)
                },
                Purpose::Update => {
                    &&& r.0 is AwaitOldRows
                    &&& r.0->AwaitOldRows_site@ == site@
                    &&& r.0->AwaitOldRows_index_file@ == index_file@
                    &&& r.0->AwaitOldRows_uploaded@ == ups@
                    &&& r.1 is DeleteFileRows
                    &&& r.1->DeleteFileRows_site_id@ == site.id@
                },
                Purpose::Delete => finished_with(r, SiteError::Storage),
            },
        },
        (Flow::AwaitOldRows { site, index_file, uploaded }, Event::Written(ok)) => if !ok {
            finished_with(r, SiteError::Storage)
        } else {
            &&& r.0 is AwaitRows
            &&& r.0->AwaitRows_site@ == site@
            &&& r.0->AwaitRows_purpose == Purpose::Update
            &&& records_rows(r.1, site.id@, index_file@, uploaded@)
        },
        (Flow::AwaitRows { site, purpose }, Event::Written(ok)) => if !ok {
            finished_with(r, SiteError::Storage)
        } else {
            &&& changing_route(r, site, purpose)
            &&& r.0->AwaitVersion_mutation is Put
            &&& r.0->AwaitVersion_mutation->Put_key@ == site.host@
            &&& exists|stamp: int|
                r.0->AwaitVersion_mutation->Put_value@ == #[trigger] routing_token(site.id@, stamp)
        },
        (Flow::AwaitPaths { site }, Event::PathsLoaded(paths)) => match paths {
            None => finished_with(r, SiteError::Storage),
            Some(keys) => {
                &&& r.0 is AwaitObjectsDeleted
                &&& r.0->AwaitObjectsDeleted_site@ == site@
                &&& r.1 is DeleteObjects
                &&& r.1->DeleteObjects_keys@ == keys@
            },
        },
        (Flow::AwaitObjectsDeleted { site }, Event::ObjectsDeleted(all_deleted)) => if !all_deleted {
            finished_with(r, SiteError::Storage)
        } else {
            &&& changing_route(r, site, Purpose::Delete)
            &&& r.0->AwaitVersion_mutation is Remove
            &&& r.0->AwaitVersion_mutation->Remove_key@ == site.host@
        },
        (Flow::AwaitVersion { site, mutation, purpose }, Event::CacheVersion(tag)) => match tag {
            Err(_) => finished_with(r, SiteError::Transport),
            Ok(t) => {
                &&& r.0 is AwaitCacheWrite
                &&& r.0->AwaitCacheWrite_site@ == site@
                &&& r.0->AwaitCacheWrite_purpose == purpose
                &&& r.1 is CallCache
                &&& bound_call(mutation, t@, r.1->CallCache_call)
            },
        },
        (Flow::AwaitCacheWrite { site, purpose }, Event::CacheWritten(result)) => match result {
            Err(failure) => finished_with(r, cache_error(failure)),
            Ok(_) => match purpose {
                Purpose::Create => finished_ok(r, creation_message(site.host@, site.id@)),
                Purpose::Update => finished_ok(r, "Site updated successfully"@),
                Purpose::Delete => {
                    &&& r.0 is AwaitFileRowsDropped
                    &&& r.0->AwaitFileRowsDropped_site@ == site@
                    &&& r.1 is DeleteFileRows
                    &&& r.1->DeleteFileRows_site_id@ == site.id@
                },
            },
        },
        (Flow::AwaitFileRowsDropped { site }, Event::Written(ok)) => if !ok {
            finished_with(r, SiteError::Storage)
        } else {
            &&& r.0 is AwaitSiteDropped
            &&& r.1 is DeleteSiteRow
            &&& r.1->DeleteSiteRow_id@ == site.id@
        },
        (Flow::AwaitSiteDropped, Event::Written(ok)) => if !ok {
            finished_with(r, SiteError::Storage)
        } else {
            finished_ok(r, "Site deleted successfully"@)
        },
        _ => finished_with(r, SiteError::Storage),
    }
}

fn site_copy(s: &Site) -> (r: Site)
    ensures
        r@ == s@,
{
    Site {
        id: s.id.clone(),
        host: s.host.clone(),
        index_file: match &s.index_file {
            Some(f) => Some(f.clone()),
            None => None,
        },
        created_at: s.created_at,
        updated_at: s.updated_at,
    }
}

fn fail(e: SiteError) -> (r: (Flow, Action))
    ensures
        finished_with(r, e),
{
    (Flow::Finished, Action::Respond { status: e.status(), message: e.message() })
}

fn succeed(message: String) -> (r: (Flow, Action))
    ensures
        finished_ok(r, message@),
{
    (Flow::Finished, Action::Respond { status: 200, message })
}

/// Starts a creation: the site-type tag and the files are checked before anything else;
/// then the host `domain + suffix` is looked up, with the validated files and the index
/// file kept for the next steps.
pub fn start_create(
    domain: &str,
    suffix: &str,
    site_type: &str,
    index_file: String,
    files: Vec<CandidateFile>,
) -> (r: (Flow, Action))
    ensures
        match intake_outcome(site_type@, candidates_view(files@)) {
            Err(e) => finished_with(r, e),
            Ok(fs) => {
                &&& r.0 is AwaitHost
                &&& r.0->AwaitHost_host@ == domain@ + suffix@
                &&& r.0->AwaitHost_index_file@ == index_file@
                &&& candidates_view(r.0->AwaitHost_files@) == fs
                &&& r.1 is CheckHost
                &&& r.1->CheckHost_host@ == domain@ + suffix@
            },
        },
{
    let files = match check_upload(site_type, files) {
        Ok(v) => v,
        Err(e) => return fail(e),
    };
    let host = site_host(domain, suffix);
    let h = host.clone();
    (Flow::AwaitHost { host, index_file, files }, Action::CheckHost { host: h })
}

/// Starts an update of the site `id`: the site-type tag and the files are checked before
/// anything else; then the site is looked up, with the validated files and the index file
/// kept for the next steps.
pub fn start_update(id: &str, site_type: &str, index_file: String, files: Vec<CandidateFile>) -> (r: (
    Flow,
    Action,
))
    ensures
        match intake_outcome(site_type@, candidates_view(files@)) {
            Err(e) => finished_with(r, e),
            Ok(fs) => {
                &&& r.0 is AwaitSiteForUpdate
                &&& r.0->AwaitSiteForUpdate_index_file@ == index_file@
                &&& candidates_view(r.0->AwaitSiteForUpdate_files@) == fs
                &&& r.1 is LoadSite
                &&& r.1->LoadSite_id@ == id@
            },
        },
{
    let files = match check_upload(site_type, files) {
        Ok(v) => v,
        Err(e) => return fail(e),
    };
    (Flow::AwaitSiteForUpdate { index_file, files }, Action::LoadSite { id: String::from_str(id) })
}

/// Starts the deletion of the site `id`: the site is looked up.
pub fn start_delete(id: &str) -> (r: (Flow, Action))
    ensures
        r.0 is AwaitSiteForDelete,
        r.1 is LoadSite,
        r.1->LoadSite_id@ == id@,
{
    (Flow::AwaitSiteForDelete, Action::LoadSite { id: String::from_str(id) })
}

fn begin_upload(site: Site, index_file: String, files: Vec<CandidateFile>, purpose: Purpose) -> (r: (
    Flow,
    Action,
))
    ensures
        uploading(r, site, index_file@, files@, purpose),
{
    let prefix = site_prefix(site.id.as_str());
    let puts = object_puts(prefix.as_str(), files);
    (Flow::AwaitUpload { site, index_file, purpose }, Action::UploadObjects { puts })
}

fn begin_cache(site: Site, mutation: CacheMutation, purpose: Purpose) -> (r: (Flow, Action))
    ensures
        changing_route(r, site, purpose),
        r.0->AwaitVersion_mutation == mutation,
{
    (Flow::AwaitVersion { site, mutation, purpose }, Action::ReadCacheVersion)
}

impl Flow {
    /// Whether the request has been answered.
    pub fn is_finished(&self) -> (r: bool)
        ensures
            r == self is Finished,
    {
        match self {
            Flow::Finished => true,
            _ => false,
        }
    }

    /// Takes the report of the last action and decides the next one, as `step_result`
    /// states for every stage and report.
    #[verifier::spinoff_prover]
    #[verifier::rlimit(100)]
    pub fn step(self, event: Event) -> (r: (Flow, Action))
        ensures
            step_result(self, event, r),
    {
        match (self, event) {
            (Flow::AwaitHost { host, index_file, files }, Event::HostTaken(taken)) => {
                match new_site(host, index_file.clone(), taken) {
                    Err(e) => fail(e),
                    Ok(site) => {
                        let row = site_copy(&site);
                        (Flow::AwaitSiteRow { site, index_file, files }, Action::InsertSite { site: row })
                    },
                }
            },
            (Flow::AwaitSiteRow { site, index_file, files }, Event::Written(ok)) => {
                if !ok {
                    fail(SiteError::Storage)
                } else {
                    begin_upload(site, index_file, files, Purpose::Create)
                }
            },
            (Flow::AwaitSiteForUpdate { index_file, files }, Event::SiteLoaded(found)) => {
                match found {
                    None => fail(SiteError::NotFound),
                    Some(site) => begin_upload(site, index_file, files, Purpose::Update),
                }
            },
            (Flow::AwaitSiteForDelete, Event::SiteLoaded(found)) => {
                match found {
                    None => fail(SiteError::NotFound),
                    Some(site) => {
                        let site_id = site.id.clone();
                        (Flow::AwaitPaths { site }, Action::LoadFilePaths { site_id })
                    },
                }
            },
            (Flow::AwaitUpload { site, index_file, purpose }, Event::Uploaded(result)) => {
                match result {
                    Err(_) => fail(SiteError::Storage),
                    Ok(uploaded) => match purpose {
                        Purpose::Create => {
                            let rows = file_rows(site.id.as_str(), index_file.as_str(), &uploaded);
                            (Flow::AwaitRows { site, purpose }, Action::InsertFileRows { rows })
                        },
                        Purpose::Update => {
                            let site_id = site.id.clone();
                            (
                                Flow::AwaitOldRows { site, index_file, uploaded },
                                Action::DeleteFileRows { site_id },
                            )
                        },
                        Purpose::Delete => fail(SiteError::Storage),
                    },
                }
            },
            (Flow::AwaitOldRows { site, index_file, uploaded }, Event::Written(ok)) => {
                if !ok {
                    fail(SiteError::Storage)
                } else {
                    let rows = file_rows(site.id.as_str(), index_file.as_str(), &uploaded);
                    (Flow::AwaitRows { site, purpose: Purpose::Update }, Action::InsertFileRows { rows })
                }
            },
            (Flow::AwaitRows { site, purpose }, Event::Written(ok)) => {
                if !ok {
                    fail(SiteError::Storage)
                } else {
                    let (key, value) = route_for(&site);
                    begin_cache(site, CacheMutation::Put { key, value }, purpose)
                }
            },
            (Flow::AwaitPaths { site }, Event::PathsLoaded(paths)) => {
                match paths {
                    None => fail(SiteError::Storage),
                    Some(keys) => (Flow::AwaitObjectsDeleted { site }, Action::DeleteObjects { keys }),
                }
            },
            (Flow::AwaitObjectsDeleted { site }, Event::ObjectsDeleted(all_deleted)) => {
                match objects_deleted(all_deleted) {
                    Err(e) => fail(e),
                    Ok(()) => {
                        let key = site.host.clone();
                        begin_cache(site, CacheMutation::Remove { key }, Purpose::Delete)
                    },
                }
            },
            (Flow::AwaitVersion { site, mutation, purpose }, Event::CacheVersion(tag)) => {
                match conditional_call(mutation, tag) {
                    Err(e) => fail(e),
                    Ok(call) => (Flow::AwaitCacheWrite { site, purpose }, Action::CallCache { call }),
                }
            },
            (Flow::AwaitCacheWrite { site, purpose }, Event::CacheWritten(result)) => {
                match mutation_outcome(result) {
                    Err(e) => fail(e),
                    Ok(()) => match purpose {
                        Purpose::Create => succeed(created_message(site.host.as_str(), site.id.as_str())),
                        Purpose::Update => succeed(String::from_str("Site updated successfully")),
                        Purpose::Delete => {
                            let site_id = site.id.clone();
                            (Flow::AwaitFileRowsDropped { site }, Action::DeleteFileRows { site_id })
                        },
                    },
                }
            },
            (Flow::AwaitFileRowsDropped { site }, Event::Written(ok)) => {
                if !ok {
                    fail(SiteError::Storage)
                } else {
                    (Flow::AwaitSiteDropped, Action::DeleteSiteRow { id: site.id })
                }
            },
            (Flow::AwaitSiteDropped, Event::Written(ok)) => {
                if !ok {
                    fail(SiteError::Storage)
                } else {
                    succeed(String::from_str("Site deleted successfully"))
                }
            },
            (_, _) => fail(SiteError::Storage),
        }
    }
}

} // verus!
