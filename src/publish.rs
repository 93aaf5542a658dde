use vstd::prelude::*;
use crate::error::SiteError;
use crate::models::{File, FileView, Site};
use crate::resolve::{site_prefix, storage_prefix};
use crate::text::{joined, same_text};
use crate::upload_file::{candidates_view, CandidateFile, CandidateView, UploadedFile};
use crate::validate::{
    outcome_matches, parse_site_type, site_type_of, validate_files, validation_outcome,
};
use chrono::NaiveDateTime;

verus! {

/// Relies on ulid::Ulid::new and its Display impl: a fresh identifier, written as the
/// 26 characters of its Crockford base32 form.
#[verifier::external_body]
fn fresh_id() -> (r: String)
    ensures
        r@.len() == 26,
{
    ulid::Ulid::new().to_string()
}

/// Relies on std::time::SystemTime::now and SystemTime::duration_since(UNIX_EPOCH): the
/// whole seconds from the epoch to now, `Ok` when now is after it, `Err` when before.
#[verifier::external_body]
fn clock_offset() -> (r: Result<u64, u64>) {
    std::time::SystemTime::now()
        .duration_since(std::time::UNIX_EPOCH)
        .map(|d| d.as_secs())
        .map_err(|e| e.duration().as_secs())
}

/// Relies on chrono::DateTime::from_timestamp and DateTime::naive_utc: the UTC time
/// `secs` seconds after the epoch, or none where chrono cannot represent it.
#[verifier::external_body]
fn datetime_at(secs: i64) -> (r: Option<NaiveDateTime>) {
    chrono::DateTime::from_timestamp(secs, 0).map(|d| d.naive_utc())
}

/// Relies on chrono's Default impl for NaiveDateTime: the Unix epoch.
#[verifier::external_body]
fn epoch() -> (r: NaiveDateTime) {
    NaiveDateTime::default()
}

/// The current time in whole seconds since the Unix epoch, negative before it and
/// saturated at the bounds of `i64`.
pub fn unix_seconds() -> (r: i64) {
    match clock_offset() {
        Ok(s) => if s > 9223372036854775807u64 {
            i64::MAX
        } else {
            s as i64
        },
        Err(s) => if s > 9223372036854775807u64 {
            i64::MIN
        } else {
            -(s as i64)
        },
    }
}

/// The current time in UTC, or the epoch where the clock reads a time that chrono cannot
/// represent.
fn now_utc() -> (r: NaiveDateTime) {
    match datetime_at(unix_seconds()) {
        Some(t) => t,
        None => epoch(),
    }
}

/// The host of a new site: its domain followed by its suffix.
pub fn site_host(domain: &str, suffix: &str) -> (r: String)
    ensures
        r@ == domain@ + suffix@,
{
    joined(domain, suffix)
}

/// The outcome of the checks that precede any write: the site-type tag, then the files.
pub open spec fn intake_outcome(tag: Seq<char>, fs: Seq<CandidateView>) -> Result<
    Seq<CandidateView>,
    SiteError,
> {
    match site_type_of(tag) {
        None => Err(SiteError::InvalidSiteType),
        Some(t) => validation_outcome(t, fs),
    }
}

/// First step of a creation or an update, before any store is touched: reads the
/// site-type tag and validates the files under it. An unknown tag is refused first.
pub fn check_upload(site_type: &str, files: Vec<CandidateFile>) -> (r: Result<
    Vec<CandidateFile>,
    SiteError,
>)
    ensures
        outcome_matches(r, intake_outcome(site_type@, candidates_view(files@))),
{
    match parse_site_type(site_type) {
        None => Err(SiteError::InvalidSiteType),
        Some(t) => validate_files(t, files),
    }
}

/// The row of a new site, or `Conflict` where its host is taken. The row gets a fresh
/// identifier, the given host and index file, and the current time.
pub fn new_site(host: String, index_file: String, taken: bool) -> (r: Result<Site, SiteError>)
    ensures
        taken ==> r == Err::<Site, SiteError>(SiteError::Conflict),
        !taken ==> (r matches Ok(s) && s.host@ == host@ && s@.index_file == Some(index_file@)
            && s.id@.len() == 26),
{
    if taken {
        return Err(SiteError::Conflict);
    }
    let now = now_utc();
    Ok(
        Site {
            id: fresh_id(),
            host,
            index_file: Some(index_file),
            created_at: now,
            updated_at: now,
        },
    )
}

/// The row that records an uploaded object of a site, without its identifier.
pub open spec fn row_of(site_id: Seq<char>, index_file: Seq<char>, u: UploadedFile, f: FileView) -> bool {
    &&& f.site_id == site_id
    &&& f.name == u.filename@
    &&& f.path == storage_prefix(site_id) + u.filename@
    &&& f.mime_type == u.content_type@
    &&& f.size == u.size
    &&& f.is_index == (u.filename@ == index_file)
}

/// One file row per uploaded object, in upload order, each under the site's storage
/// prefix and flagged as the index exactly when its name is the site's index file.
pub fn file_rows(site_id: &str, index_file: &str, uploaded: &Vec<UploadedFile>) -> (r: Vec<File>)
    ensures
        r@.len() == uploaded@.len(),
        forall|k: int|
            0 <= k < r@.len() ==> row_of(site_id@, index_file@, uploaded@[k], #[trigger] r@[k]@),
{
    let prefix = site_prefix(site_id);
    let mut rows: Vec<File> = Vec::new();
    let mut i: usize = 0;
    while i < uploaded.len()
        invariant
            0 <= i <= uploaded.len(),
            prefix@ == storage_prefix(site_id@),
            rows@.len() == i,
            forall|k: int|
                0 <= k < i ==> row_of(site_id@, index_file@, uploaded@[k], #[trigger] rows@[k]@),
        decreases uploaded.len() - i,
    {
        let u = &uploaded[i];
        let now = now_utc();
        let row = File {
            id: fresh_id(),
            site_id: String::from_str(site_id),
            name: u.filename.clone(),
            path: joined(prefix.as_str(), u.filename.as_str()),
            mime_type: u.content_type.clone(),
            size: u.size,
            is_index: same_text(u.filename.as_str(), index_file),
            created_at: now,
            updated_at: now,
        };
        rows.push(row);
        i = i + 1;
    }
    rows
}

/// The routing entry to write for a site: its host as key and a fresh routing token as
/// value, `{id}=x={seconds}`.
pub fn route_for(site: &Site) -> (r: (String, String))
    ensures
        r.0@ == site.host@,
        exists|stamp: int| r.1@ == #[trigger] crate::routing::routing_token(site.id@, stamp),
{
    let stamp = unix_seconds();
    let value = crate::routing::routing_value(site.id.as_str(), stamp);
    (site.host.clone(), value)
}

/// The decision after the bulk delete of a site's objects: metadata stays in place and
/// the request fails with a storage error when the batch did not fully succeed.
pub fn objects_deleted(all_deleted: bool) -> (r: Result<(), SiteError>)
    ensures
        all_deleted <==> r is Ok,
        !all_deleted ==> r == Err::<(), SiteError>(SiteError::Storage),
{
    if all_deleted {
        Ok(())
    } else {
        Err(SiteError::Storage)
    }
}

/// The message that answers a creation.
pub open spec fn creation_message(host: Seq<char>, site_id: Seq<char>) -> Seq<char> {
    "You can now access your site at: https://"@ + host + " with site id: "@ + site_id
}

/// The message that answers a creation.
pub fn created_message(host: &str, site_id: &str) -> (r: String)
    ensures
        r@ == creation_message(host@, site_id@),
{
    let mut r = joined("You can now access your site at: https://", host);
    r.append(" with site id: ");
    r.append(site_id);
    r
}

} // verus!
