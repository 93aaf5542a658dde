use vstd::prelude::*;
use crate::flow::Action;
use crate::models::{File, FileView, SiteView};
use crate::routing::CacheCall;
use crate::resolve::{
    file_matches, index_name, is_index_subpath, splits_at_first_slash, storage_prefix,
    target_path,
};
use crate::upload_file::CandidateView;
use crate::validate::{css_media, html_media, upload_problem, zip_media, SiteType, MAX_FILE_SIZE, MAX_ZIP_FILE_SIZE};

verus! {

broadcast use vstd::seq_lib::group_seq_properties;

/// The backing stores as the publication service sees them: the site rows and file rows
/// of the metadata store, and the host-to-token entries of the routing cache.
pub struct StoreModel {
    pub sites: Seq<SiteView>,
    pub files: Seq<FileView>,
    pub routes: Map<Seq<char>, Seq<char>>,
}

/// The number of site rows with a host.
pub open spec fn count_host(sites: Seq<SiteView>, host: Seq<char>) -> nat
    decreases sites.len(),
{
    if sites.len() == 0 {
        0
    } else {
        count_host(sites.drop_last(), host) + if sites.last().host == host {
            1nat
        } else {
            0nat
        }
    }
}

/// Whether a site row has the host.
pub open spec fn host_taken(s: StoreModel, host: Seq<char>) -> bool {
    exists|i: int| 0 <= i < s.sites.len() && #[trigger] s.sites[i].host == host
}

/// No two site rows share a host.
pub open spec fn hosts_unique(s: StoreModel) -> bool {
    forall|i: int, j: int|
        0 <= i < s.sites.len() && 0 <= j < s.sites.len() && #[trigger] s.sites[i].host
            == #[trigger] s.sites[j].host ==> i == j
}

pub open spec fn owned_by(site_id: Seq<char>) -> spec_fn(FileView) -> bool {
    |f: FileView| f.site_id == site_id
}

pub open spec fn not_owned_by(site_id: Seq<char>) -> spec_fn(FileView) -> bool {
    |f: FileView| f.site_id != site_id
}

pub open spec fn other_site(site_id: Seq<char>) -> spec_fn(SiteView) -> bool {
    |x: SiteView| x.id != site_id
}

/// The views of file rows.
pub open spec fn rows_view(rows: Seq<File>) -> Seq<FileView> {
    rows.map_values(|f: File| f@)
}

/// What an action of a request flow does to the stores. Object-store actions and reads
/// leave the metadata and the routing cache as they are; a conditional cache call is taken
/// as applied.
pub open spec fn apply(s: StoreModel, a: Action) -> StoreModel {
    match a {
        Action::InsertSite { site } => StoreModel { sites: s.sites.push(site@), ..s },
        Action::InsertFileRows { rows } => StoreModel { files: s.files + rows_view(rows@), ..s },
        Action::DeleteFileRows { site_id } => StoreModel {
            files: s.files.filter(not_owned_by(site_id@)),
            ..s
        },
        Action::DeleteSiteRow { id } => StoreModel { sites: s.sites.filter(other_site(id@)), ..s },
        Action::CallCache { call } => match call {
            CacheCall::Put { key, value, .. } => StoreModel {
                routes: s.routes.insert(key@, value@),
                ..s
            },
            CacheCall::Remove { key, .. } => StoreModel { routes: s.routes.remove(key@), ..s },
        },
        _ => s,
    }
}

/// The cache call writes the entry of `host`.
pub open spec fn puts_route(a: Action, host: Seq<char>) -> bool {
    a is CallCache && a->CallCache_call is Put && a->CallCache_call->Put_key@ == host
}

/// The cache call removes the entry of `host`.
pub open spec fn removes_route(a: Action, host: Seq<char>) -> bool {
    a is CallCache && a->CallCache_call is Remove && a->CallCache_call->Remove_key@ == host
}

/// A request for `subpath` on `host` resolves to the file row `f`: a site row has the
/// host, and `f` belongs to it, has the request's root flag and the target path.
pub open spec fn resolves(s: StoreModel, host: Seq<char>, subpath: Seq<char>, f: FileView) -> bool {
    exists|i: int|
        0 <= i < s.sites.len() && #[trigger] s.sites[i].host == host && s.files.contains(f)
            && file_matches(f, s.sites[i].id, is_index_subpath(subpath), target_path(s.sites[i], subpath))
}

/// A plain-site file that is HTML or CSS and within the size limit.
pub open spec fn good_html_file(f: CandidateView) -> bool {
    (f.content_type == Some(html_media()) || f.content_type == Some(css_media()))
        && f.content.len() <= MAX_FILE_SIZE
}

/// Every plain-site upload whose files are all HTML or CSS within the size limit passes
/// validation.
pub proof fn lemma_good_html_upload_accepted(fs: Seq<CandidateView>)
    requires
        forall|i: int| 0 <= i < fs.len() ==> good_html_file(#[trigger] fs[i]),
    ensures
        upload_problem(SiteType::Html, fs) is None,
    decreases fs.len(),
{
    if fs.len() > 0 {
        assert forall|i: int| 0 <= i < fs.drop_last().len() implies good_html_file(
            #[trigger] fs.drop_last()[i],
        ) by {
            assert(fs.drop_last()[i] == fs[i]);
        }
        lemma_good_html_upload_accepted(fs.drop_last());
        assert(good_html_file(fs[fs.len() - 1]));
    }
}

/// An archive upload whose archive is too large or not a zip archive fails validation,
/// so nothing is written.
pub proof fn lemma_bad_archive_refused(fs: Seq<CandidateView>)
    requires
        fs.len() > 0,
        fs[0].content.len() > MAX_ZIP_FILE_SIZE || fs[0].content_type != Some(zip_media()),
    ensures
        upload_problem(SiteType::Zip, fs) is Some,
{
}

proof fn lemma_count_absent(sites: Seq<SiteView>, host: Seq<char>)
    requires
        forall|i: int| 0 <= i < sites.len() ==> #[trigger] sites[i].host != host,
    ensures
        count_host(sites, host) == 0,
    decreases sites.len(),
{
    if sites.len() > 0 {
        assert forall|i: int| 0 <= i < sites.drop_last().len() implies #[trigger] sites.drop_last()[i].host
            != host by {
            assert(sites.drop_last()[i] == sites[i]);
        }
        lemma_count_absent(sites.drop_last(), host);
        assert(sites[sites.len() - 1].host != host);
    }
}

/// A creation whose host lookup found the host free inserts the site row, its file rows
/// and its routing entry (the actions `Flow::step` issues in that order). Afterwards the
/// host is taken, so a second creation on it meets `HostTaken(true)`, which `Flow::step`
/// answers with `Conflict`; the stores hold exactly one site row for the host.
pub proof fn lemma_duplicate_host_conflicts(
    s: StoreModel,
    insert_site: Action,
    insert_rows: Action,
    write_route: Action,
)
    requires
        insert_site is InsertSite,
        !host_taken(s, insert_site->InsertSite_site.host@),
        insert_rows is InsertFileRows,
        puts_route(write_route, insert_site->InsertSite_site.host@),
    ensures
        ({
            let s1 = apply(apply(apply(s, insert_site), insert_rows), write_route);
            let host = insert_site->InsertSite_site.host@;
            &&& host_taken(s1, host)
            &&& count_host(s1.sites, host) == 1
            &&& s1.routes.dom().contains(host)
        }),
{
    let site = insert_site->InsertSite_site@;
    let s1 = apply(apply(apply(s, insert_site), insert_rows), write_route);
    assert(s1.sites == s.sites.push(site));
    assert(s1.sites[s.sites.len() as int].host == site.host);
    assert forall|i: int| 0 <= i < s.sites.len() implies #[trigger] s.sites[i].host != site.host by {
        if s.sites[i].host == site.host {
            assert(host_taken(s, site.host));
        }
    }
    lemma_count_absent(s.sites, site.host);
    assert(s1.sites.drop_last() =~= s.sites);
}

/// A request for the host itself, or for the host followed by `/`, asks for the site's
/// root: the site's declared index file, `index.html` where it declares none.
pub proof fn lemma_root_request(host: Seq<char>, site: SiteView, h: Seq<char>, subpath: Seq<char>)
    requires
        !host.contains('/'),
        splits_at_first_slash(host, h, subpath) || splits_at_first_slash(
            host + seq!['/'],
            h,
            subpath,
        ),
    ensures
        h == host,
        is_index_subpath(subpath),
        target_path(site, subpath) == storage_prefix(site.id) + index_name(site),
{
    if splits_at_first_slash(host, h, subpath) {
        if host != h || subpath.len() != 0 {
            assert(host == h + seq!['/'] + subpath);
            assert(host[h.len() as int] == '/');
        }
    } else {
        let raw = host + seq!['/'];
        if raw == h && subpath.len() == 0 {
            assert(h[host.len() as int] == '/');
        } else {
            assert(raw == h + seq!['/'] + subpath);
            if h.len() < host.len() {
                assert(raw[h.len() as int] == '/');
                assert(host[h.len() as int] == '/');
            } else if h.len() > host.len() {
                assert(h[host.len() as int] == raw[host.len() as int]);
            }
            assert(h =~= host) by {
                assert forall|k: int| 0 <= k < h.len() implies h[k] == host[k] by {
                    assert(h[k] == raw[k]);
                }
            }
            assert(subpath.len() == 0);
        }
    }
}

/// A deletion removes the routing entry, then the site's file rows, then the site row
/// (the actions `Flow::step` issues after the objects are gone). Afterwards no file row and
/// no site row of the site remain, its routing entry is gone, and no request on its host
/// resolves; the other sites' rows stay.
pub proof fn lemma_delete_clears(
    s: StoreModel,
    site: SiteView,
    remove_route: Action,
    drop_rows: Action,
    drop_site: Action,
    subpath: Seq<char>,
    f: FileView,
)
    requires
        s.sites.contains(site),
        hosts_unique(s),
        removes_route(remove_route, site.host),
        drop_rows is DeleteFileRows && drop_rows->DeleteFileRows_site_id@ == site.id,
        drop_site is DeleteSiteRow && drop_site->DeleteSiteRow_id@ == site.id,
    ensures
        ({
            let s2 = apply(apply(apply(s, remove_route), drop_rows), drop_site);
            &&& forall|i: int| 0 <= i < s2.files.len() ==> #[trigger] s2.files[i].site_id != site.id
            &&& forall|i: int| 0 <= i < s2.sites.len() ==> #[trigger] s2.sites[i].id != site.id
            &&& forall|i: int|
                0 <= i < s.files.len() && s.files[i].site_id != site.id ==> s2.files.contains(
                    #[trigger] s.files[i],
                )
            &&& !s2.routes.dom().contains(site.host)
            &&& !resolves(s2, site.host, subpath, f)
        }),
{
    let s2 = apply(apply(apply(s, remove_route), drop_rows), drop_site);
    assert(s2.files == s.files.filter(not_owned_by(site.id)));
    assert(s2.sites == s.sites.filter(other_site(site.id)));
    assert(s2.routes == s.routes.remove(site.host));
    assert forall|i: int| 0 <= i < s2.files.len() implies #[trigger] s2.files[i].site_id != site.id by {
        s.files.lemma_filter_pred(not_owned_by(site.id), i);
    }
    assert forall|i: int| 0 <= i < s2.sites.len() implies #[trigger] s2.sites[i].id != site.id by {
        s.sites.lemma_filter_pred(other_site(site.id), i);
    }
    assert forall|i: int|
        0 <= i < s.files.len() && s.files[i].site_id != site.id implies s2.files.contains(
            #[trigger] s.files[i],
        ) by {
        s.files.lemma_filter_contains(not_owned_by(site.id), i);
    }
    if resolves(s2, site.host, subpath, f) {
        let i = choose|i: int|
            0 <= i < s2.sites.len() && #[trigger] s2.sites[i].host == site.host && s2.files.contains(f)
                && file_matches(f, s2.sites[i].id, is_index_subpath(subpath), target_path(s2.sites[i], subpath));
        let x = s2.sites[i];
        s.sites.lemma_filter_pred(other_site(site.id), i);
        assert(s2.sites.contains(x));
        s.sites.lemma_filter_contains_rev(other_site(site.id), x);
        let j = choose|j: int| 0 <= j < s.sites.len() && s.sites[j] == x;
        let k = choose|k: int| 0 <= k < s.sites.len() && s.sites[k] == site;
        assert(s.sites[j].host == s.sites[k].host);
        assert(j == k);
    }
}

/// An update drops the site's file rows, inserts the new ones (all of the site, as
/// `Flow::step` makes them) and refreshes the routing entry. Afterwards the site's file
/// rows are exactly the new rows, every earlier row of the site that is not among them is
/// gone, and the site rows and the other sites' file rows are as they were.
pub proof fn lemma_update_replaces_files(
    s: StoreModel,
    site_id: Seq<char>,
    drop_rows: Action,
    insert_rows: Action,
    write_route: Action,
)
    requires
        drop_rows is DeleteFileRows && drop_rows->DeleteFileRows_site_id@ == site_id,
        insert_rows is InsertFileRows,
        forall|i: int|
            0 <= i < insert_rows->InsertFileRows_rows@.len() ==> (
            #[trigger] insert_rows->InsertFileRows_rows@[i]).site_id@ == site_id,
        write_route is CallCache,
    ensures
        ({
            let s1 = apply(apply(apply(s, drop_rows), insert_rows), write_route);
            let rows = rows_view(insert_rows->InsertFileRows_rows@);
            &&& s1.files.filter(owned_by(site_id)) == rows
            &&& s1.files.filter(not_owned_by(site_id)) == s.files.filter(not_owned_by(site_id))
            &&& s1.sites == s.sites
            &&& forall|f: FileView|
                #[trigger] s.files.contains(f) && f.site_id == site_id && !rows.contains(f)
                    ==> !s1.files.contains(f)
        }),
{
    let rows = rows_view(insert_rows->InsertFileRows_rows@);
    let s1 = apply(apply(apply(s, drop_rows), insert_rows), write_route);
    let kept = s.files.filter(not_owned_by(site_id));
    assert(s1.files == kept + rows);
    assert forall|i: int| 0 <= i < rows.len() implies owned_by(site_id)(#[trigger] rows[i]) by {
        assert(rows[i] == insert_rows->InsertFileRows_rows@[i]@);
    }
    assert forall|i: int| 0 <= i < kept.len() implies not_owned_by(site_id)(#[trigger] kept[i]) by {
        s.files.lemma_filter_pred(not_owned_by(site_id), i);
    }
    Seq::filter_distributes_over_add(kept, rows, owned_by(site_id));
    Seq::filter_distributes_over_add(kept, rows, not_owned_by(site_id));
    lemma_filter_none(kept, owned_by(site_id), not_owned_by(site_id));
    lemma_filter_all(rows, owned_by(site_id));
    lemma_filter_all(kept, not_owned_by(site_id));
    lemma_filter_none(rows, not_owned_by(site_id), owned_by(site_id));
    assert(kept.filter(owned_by(site_id)) + rows =~= rows);
    assert(kept + rows.filter(not_owned_by(site_id)) =~= kept);
    assert forall|f: FileView|
        #[trigger] s.files.contains(f) && f.site_id == site_id && !rows.contains(f)
            implies !s1.files.contains(f) by {
        let files = kept + rows;
        if files.contains(f) {
            let k = choose|k: int| 0 <= k < files.len() && files[k] == f;
            if k < kept.len() {
                kept.lemma_filter_pred(not_owned_by(site_id), k);
            } else {
                assert(rows[k - kept.len()] == f);
            }
        }
    }
}

proof fn lemma_filter_none(fs: Seq<FileView>, pred: spec_fn(FileView) -> bool, other: spec_fn(FileView) -> bool)
    requires
        forall|i: int| 0 <= i < fs.len() ==> other(#[trigger] fs[i]),
        forall|f: FileView| #[trigger] other(f) ==> !pred(f),
    ensures
        fs.filter(pred) =~= Seq::<FileView>::empty(),
    decreases fs.len(),
{
    reveal(Seq::filter);
    if fs.len() > 0 {
        assert forall|i: int| 0 <= i < fs.drop_last().len() implies other(#[trigger] fs.drop_last()[i]) by {
            assert(fs.drop_last()[i] == fs[i]);
        }
        lemma_filter_none(fs.drop_last(), pred, other);
        assert(other(fs[fs.len() - 1]));
    }
}

proof fn lemma_filter_all(fs: Seq<FileView>, pred: spec_fn(FileView) -> bool)
    requires
        forall|i: int| 0 <= i < fs.len() ==> pred(#[trigger] fs[i]),
    ensures
        fs.filter(pred) =~= fs,
    decreases fs.len(),
{
    reveal(Seq::filter);
    if fs.len() > 0 {
        assert forall|i: int| 0 <= i < fs.drop_last().len() implies pred(#[trigger] fs.drop_last()[i]) by {
            assert(fs.drop_last()[i] == fs[i]);
        }
        lemma_filter_all(fs.drop_last(), pred);
        assert(pred(fs[fs.len() - 1]));
        assert(fs.drop_last().push(fs.last()) =~= fs);
    }
}

} // verus!
