use vstd::prelude::*;
use crate::error::SiteError;
use crate::models::{File, FileView, Site, SiteView};
use crate::text::joined;

verus! {

/// The two methods under which files are served.
#[derive(PartialEq, Eq, Structural, Clone, Copy, Debug)]
pub enum Method {
    Get,
    Head,
}

/// `host` and `subpath` are what a request path splits into at its first `/`: the host
/// holds no `/`, and the subpath is empty where the path holds none.
pub open spec fn splits_at_first_slash(raw: Seq<char>, host: Seq<char>, subpath: Seq<char>) -> bool {
    &&& !host.contains('/')
    &&& (raw == host && subpath.len() == 0) || raw == host + seq!['/'] + subpath
}

/// A subpath that asks for the site's root.
pub open spec fn is_index_subpath(subpath: Seq<char>) -> bool {
    subpath.len() == 0 || subpath == seq!['/']
}

/// The file served at a site's root when it names none.
pub open spec fn default_index() -> Seq<char> {
    seq!['i', 'n', 'd', 'e', 'x', '.', 'h', 't', 'm', 'l']
}

/// The key prefix under which the objects of a site are stored: `sites/{id}/`.
pub open spec fn storage_prefix(site_id: Seq<char>) -> Seq<char> {
    seq!['s', 'i', 't', 'e', 's', '/'] + site_id + seq!['/']
}

/// The file that a request for the root of a site asks for.
pub open spec fn index_name(site: SiteView) -> Seq<char> {
    match site.index_file {
        Some(f) => f,
        None => default_index(),
    }
}

/// The storage path that a request for `subpath` of `site` asks for.
pub open spec fn target_path(site: SiteView, subpath: Seq<char>) -> Seq<char> {
    if is_index_subpath(subpath) {
        storage_prefix(site.id) + index_name(site)
    } else {
        storage_prefix(site.id) + subpath
    }
}

/// A request path, split: the host to look up, the rest of the path, and whether it asks
/// for the site's root.
pub struct RequestTarget {
    pub host: String,
    pub subpath: String,
    pub is_index: bool,
}

/// What a file row must match to answer a request.
pub struct FileKey {
    pub site_id: String,
    pub is_index: bool,
    pub path: String,
}

/// Whether a file row answers a lookup.
pub open spec fn file_matches(f: FileView, site_id: Seq<char>, is_index: bool, path: Seq<char>) -> bool {
    f.site_id == site_id && f.is_index == is_index && f.path == path
}

/// The headers of an answer that serves a file, and whether its body is streamed.
pub struct ServePlan {
    pub content_type: String,
    pub content_length: i64,
    pub stream_body: bool,
}

/// Splits a request path `{host}/{subpath}` at its first `/`.
pub fn split_request_path(raw: &str) -> (r: RequestTarget)
    ensures
        splits_at_first_slash(raw@, r.host@, r.subpath@),
        r.is_index == is_index_subpath(r.subpath@),
{
    let n = raw.unicode_len();
    let mut i: usize = 0;
    while i < n
        invariant
            0 <= i <= n,
            n == raw@.len(),
            forall|k: int| 0 <= k < i ==> raw@[k] != '/',
        ensures
            0 <= i <= n,
            forall|k: int| 0 <= k < i ==> raw@[k] != '/',
            i < n ==> raw@[i as int] == '/',
        decreases n - i,
    {
        if raw.get_char(i) == '/' {
            break;
        }
        i = i + 1;
    }
    let host = String::from_str(raw.substring_char(0, i));
    let subpath = if i < n {
        String::from_str(raw.substring_char(i + 1, n))
    } else {
        String::new()
    };
    proof {
        assert(!host@.contains('/')) by {
            if host@.contains('/') {
                let k = choose|k: int| 0 <= k < host@.len() && host@[k] == '/';
                assert(raw@[k] == '/');
            }
        }
        if i < n {
            assert(raw@ =~= host@ + seq!['/'] + subpath@);
        } else {
            assert(raw@ =~= host@);
        }
    }
    let is_index = is_root_subpath(subpath.as_str());
    RequestTarget { host, subpath, is_index }
}

/// Whether a subpath asks for the site's root: it is empty or a single `/`.
pub fn is_root_subpath(subpath: &str) -> (r: bool)
    ensures
        r == is_index_subpath(subpath@),
{
    let n = subpath.unicode_len();
    if n == 0 {
        true
    } else if n == 1 {
        let c = subpath.get_char(0);
        proof {
            if c == '/' {
                assert(subpath@ =~= seq!['/']);
            }
        }
        c == '/'
    } else {
        false
    }
}

/// The key prefix `sites/{id}/` of a site's objects.
pub fn site_prefix(site_id: &str) -> (r: String)
    ensures
        r@ == storage_prefix(site_id@),
{
    proof {
        reveal_strlit("sites/");
        reveal_strlit("/");
    }
    let mut r = joined("sites/", site_id);
    r.append("/");
    assert(r@ =~= storage_prefix(site_id@));
    r
}

/// What a file row must match to answer `target` on `site`: the site, the root flag of
/// the request, and the storage path that the request asks for.
pub fn file_key(site: &Site, target: &RequestTarget) -> (r: FileKey)
    requires
        target.is_index == is_index_subpath(target.subpath@),
    ensures
        r.site_id@ == site.id@,
        r.is_index == target.is_index,
        r.path@ == target_path(site@, target.subpath@),
{
    proof {
        reveal_strlit("index.html");
    }
    assert("index.html"@ =~= default_index());
    let mut path = site_prefix(site.id.as_str());
    if target.is_index {
        match &site.index_file {
            Some(f) => path.append(f.as_str()),
            None => path.append("index.html"),
        }
    } else {
        path.append(target.subpath.as_str());
    }
    FileKey { site_id: site.id.clone(), is_index: target.is_index, path }
}

/// The first of `files` that answers `key`, if any.
pub fn find_file(files: &Vec<File>, key: &FileKey) -> (r: Option<usize>)
    ensures
        r matches Some(i) ==> i < files@.len() && file_matches(
            files@[i as int]@,
            key.site_id@,
            key.is_index,
            key.path@,
        ) && forall|k: int|
            0 <= k < i ==> !file_matches(#[trigger] files@[k]@, key.site_id@, key.is_index, key.path@),
        r is None ==> forall|k: int|
            0 <= k < files@.len() ==> !file_matches(
                #[trigger] files@[k]@,
                key.site_id@,
                key.is_index,
                key.path@,
            ),
{
    let mut i: usize = 0;
    while i < files.len()
        invariant
            0 <= i <= files.len(),
            forall|k: int|
                0 <= k < i ==> !file_matches(#[trigger] files@[k]@, key.site_id@, key.is_index, key.path@),
        decreases files.len() - i,
    {
        let f = &files[i];
        if crate::text::same_text(f.site_id.as_str(), key.site_id.as_str()) && f.is_index
            == key.is_index && crate::text::same_text(f.path.as_str(), key.path.as_str()) {
            return Some(i);
        }
        i = i + 1;
    }
    None
}

/// How a resolved file is answered: its own media type and size as headers, the body
/// streamed for GET and left out for HEAD. A failed fetch from the object store is a
/// storage error.
pub fn serve_plan(method: Method, file: &File, fetched: bool) -> (r: Result<ServePlan, SiteError>)
    ensures
        !fetched ==> r == Err::<ServePlan, SiteError>(SiteError::Storage),
        fetched ==> (r matches Ok(p) && p.content_type@ == file.mime_type@ && p.content_length
            == file.size && p.stream_body == (method == Method::Get)),
{
    if !fetched {
        return Err(SiteError::Storage);
    }
    Ok(
        ServePlan {
            content_type: file.mime_type.clone(),
            content_length: file.size,
            stream_body: match method {
                Method::Get => true,
                Method::Head => false,
            },
        },
    )
}

} // verus!
