use vstd::prelude::*;

verus! {

/// An object that the object store accepted: its storage key, its media type and its
/// size in bytes.
pub struct UploadedFile {
    pub filename: String,
    pub content_type: String,
    pub size: i64,
    pub s3_key: String,
    pub s3_url: String,
}

impl UploadedFile {
    pub fn new(
        filename: String,
        content_type: String,
        size: i64,
        s3_key: String,
        s3_url: String,
    ) -> (r: Self)
        ensures
            r.filename@ == filename@,
            r.content_type@ == content_type@,
            r.size == size,
            r.s3_key@ == s3_key@,
            r.s3_url@ == s3_url@,
    {
        UploadedFile { filename, content_type, size, s3_key, s3_url }
    }
}

/// A file offered for publication: its name, the media type that came with it (if any)
/// and its bytes. Its size is the length of its bytes.
pub struct CandidateFile {
    pub name: String,
    pub content_type: Option<String>,
    pub content: Vec<u8>,
}

/// What a `CandidateFile` holds, as mathematical values.
pub struct CandidateView {
    pub name: Seq<char>,
    pub content_type: Option<Seq<char>>,
    pub content: Seq<u8>,
}

pub open spec fn opt_text(t: Option<String>) -> Option<Seq<char>> {
    match t {
        Some(s) => Some(s@),
        None => None,
    }
}

impl View for CandidateFile {
    type V = CandidateView;

    open spec fn view(&self) -> CandidateView {
        CandidateView {
            name: self.name@,
            content_type: opt_text(self.content_type),
            content: self.content@,
        }
    }
}

/// The views of a sequence of candidate files.
pub open spec fn candidates_view(v: Seq<CandidateFile>) -> Seq<CandidateView> {
    v.map_values(|f: CandidateFile| f@)
}

} // verus!
