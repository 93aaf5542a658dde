use vstd::prelude::*;
use chrono::NaiveDateTime;

verus! {

#[verifier::external_type_specification]
#[verifier::external_body]
pub struct ExNaiveDateTime(NaiveDateTime);

/// A published site: its identifier, its unique host and the file served at its root.
pub struct Site {
    pub id: String,
    pub host: String,
    pub index_file: Option<String>,
    pub created_at: NaiveDateTime,
    pub updated_at: NaiveDateTime,
}

/// A stored file of a site: `path` is its full key in the object store.
pub struct File {
    pub id: String,
    pub site_id: String,
    pub name: String,
    pub path: String,
    pub mime_type: String,
    pub size: i64,
    pub is_index: bool,
    pub created_at: NaiveDateTime,
    pub updated_at: NaiveDateTime,
}

/// What a `Site` row holds that the logic reads.
pub struct SiteView {
    pub id: Seq<char>,
    pub host: Seq<char>,
    pub index_file: Option<Seq<char>>,
}

/// What a `File` row holds that the logic reads.
pub struct FileView {
    pub id: Seq<char>,
    pub site_id: Seq<char>,
    pub name: Seq<char>,
    pub path: Seq<char>,
    pub mime_type: Seq<char>,
    pub size: i64,
    pub is_index: bool,
}

impl View for Site {
    type V = SiteView;

    open spec fn view(&self) -> SiteView {
        SiteView {
            id: self.id@,
            host: self.host@,
            index_file: match self.index_file {
                Some(f) => Some(f@),
                None => None,
            },
        }
    }
}

impl View for File {
    type V = FileView;

    open spec fn view(&self) -> FileView {
        FileView {
            id: self.id@,
            site_id: self.site_id@,
            name: self.name@,
            path: self.path@,
            mime_type: self.mime_type@,
            size: self.size,
            is_index: self.is_index,
        }
    }
}

} // verus!
