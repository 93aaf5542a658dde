use vstd::prelude::*;
use crate::error::SiteError;
use crate::text::joined;
use crate::upload_file::{candidates_view, CandidateFile, CandidateView, UploadedFile};

verus! {

/// One object to put into the object store: the file's name, its full key, its media type
/// and its bytes.
pub struct ObjectPut {
    pub name: String,
    pub key: String,
    pub content_type: String,
    pub content: Vec<u8>,
}

/// The media type given to an object whose file came without one.
pub open spec fn octet_stream() -> Seq<char> {
    "application/octet-stream"@
}

/// The media type stored with a file.
pub open spec fn stored_type(t: Option<Seq<char>>) -> Seq<char> {
    match t {
        Some(t) => t,
        None => octet_stream(),
    }
}

/// `puts` are the objects that uploading `files` under `prefix` puts: one per file, in
/// order, each under the key `prefix + name`, with its media type and bytes.
pub open spec fn puts_for(puts: Seq<ObjectPut>, prefix: Seq<char>, files: Seq<CandidateView>) -> bool {
    &&& puts.len() == files.len()
    &&& forall|k: int|
        0 <= k < puts.len() ==> {
            &&& (#[trigger] puts[k]).name@ == files[k].name
            &&& puts[k].key@ == prefix + files[k].name
            &&& puts[k].content_type@ == stored_type(files[k].content_type)
            &&& puts[k].content@ == files[k].content
        }
}

/// The objects that uploading `files` under `prefix` puts.
pub fn object_puts(prefix: &str, files: Vec<CandidateFile>) -> (r: Vec<ObjectPut>)
    ensures
        puts_for(r@, prefix@, candidates_view(files@)),
{
    let ghost fs = files@;
    let mut files = files;
    let mut rev: Vec<ObjectPut> = Vec::new();
    while files.len() > 0
        invariant
            files@ == fs.subrange(0, files@.len() as int),
            files@.len() <= fs.len(),
            rev@.len() == fs.len() - files@.len(),
            forall|k: int|
                0 <= k < rev@.len() ==> {
                    let j = fs.len() - 1 - k;
                    &&& (#[trigger] rev@[k]).name@ == fs[j].name@
                    &&& rev@[k].key@ == prefix@ + fs[j].name@
                    &&& rev@[k].content_type@ == stored_type(fs[j]@.content_type)
                    &&& rev@[k].content@ == fs[j].content@
                },
        decreases files@.len(),
    {
        let f = files.pop().unwrap();
        let key = joined(prefix, f.name.as_str());
        let content_type = match f.content_type {
            Some(t) => t,
            None => String::from_str("application/octet-stream"),
        };
        rev.push(ObjectPut { name: f.name, key, content_type, content: f.content });
    }
    let mut r: Vec<ObjectPut> = Vec::new();
    while rev.len() > 0
        invariant
            rev@.len() + r@.len() == fs.len(),
            forall|k: int|
                0 <= k < rev@.len() ==> {
                    let j = fs.len() - 1 - k;
                    &&& (#[trigger] rev@[k]).name@ == fs[j].name@
                    &&& rev@[k].key@ == prefix@ + fs[j].name@
                    &&& rev@[k].content_type@ == stored_type(fs[j]@.content_type)
                    &&& rev@[k].content@ == fs[j].content@
                },
            forall|k: int|
                0 <= k < r@.len() ==> {
                    &&& (#[trigger] r@[k]).name@ == fs[k].name@
                    &&& r@[k].key@ == prefix@ + fs[k].name@
                    &&& r@[k].content_type@ == stored_type(fs[k]@.content_type)
                    &&& r@[k].content@ == fs[k].content@
                },
        decreases rev@.len(),
    {
        let p = rev.pop().unwrap();
        r.push(p);
    }
    assert(forall|k: int| 0 <= k < fs.len() ==> candidates_view(fs)[k] == #[trigger] fs[k]@);
    r
}

/// The result of an upload batch, given what the store answered for each object: the
/// uploaded objects, in order, when every put succeeded (with the address it gave);
/// otherwise a storage error, whatever the other puts did.
pub fn upload_outcome(puts: &Vec<ObjectPut>, answers: &Vec<Option<String>>) -> (r: Result<
    Vec<UploadedFile>,
    SiteError,
>)
    requires
        answers@.len() == puts@.len(),
    ensures
        (exists|k: int| 0 <= k < answers@.len() && #[trigger] answers@[k] is None) ==> r
            == Err::<Vec<UploadedFile>, SiteError>(SiteError::Storage),
        (forall|k: int| 0 <= k < answers@.len() ==> #[trigger] answers@[k] is Some) ==> (r matches Ok(
            v,
        ) && v@.len() == puts@.len() && forall|k: int|
            0 <= k < v@.len() ==> {
                &&& (#[trigger] v@[k]).filename@ == puts@[k].name@
                &&& v@[k].content_type@ == puts@[k].content_type@
                &&& v@[k].size == puts@[k].content@.len() as i64
                &&& v@[k].s3_key@ == puts@[k].key@
                &&& v@[k].s3_url@ == answers@[k]->Some_0@
            }),
{
    let mut v: Vec<UploadedFile> = Vec::new();
    let mut i: usize = 0;
    while i < puts.len()
        invariant
            0 <= i <= puts.len(),
            answers@.len() == puts@.len(),
            v@.len() == i,
            forall|k: int| 0 <= k < i ==> #[trigger] answers@[k] is Some,
            forall|k: int|
                0 <= k < i ==> {
                    &&& (#[trigger] v@[k]).filename@ == puts@[k].name@
                    &&& v@[k].content_type@ == puts@[k].content_type@
                    &&& v@[k].size == puts@[k].content@.len() as i64
                    &&& v@[k].s3_key@ == puts@[k].key@
                    &&& v@[k].s3_url@ == answers@[k]->Some_0@
                },
        decreases puts.len() - i,
    {
        let p = &puts[i];
        match &answers[i] {
            None => {
                assert(answers@[i as int] is None);
                return Err(SiteError::Storage);
            },
            Some(url) => {
                let u = UploadedFile::new(
                    p.name.clone(),
                    p.content_type.clone(),
                    #[verifier::truncate]
                    (p.content.len() as i64),
                    p.key.clone(),
                    url.clone(),
                );
                v.push(u);
            },
        }
        i = i + 1;
    }
    Ok(v)
}

} // verus!
