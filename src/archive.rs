use vstd::prelude::*;
use crate::error::SiteError;
use crate::text::{ends_with, has_prefix, has_suffix, starts_with};
use crate::upload_file::{candidates_view, CandidateFile, CandidateView};
use std::io::Cursor;
use zip::result::ZipError;
use zip::ZipArchive;

verus! {

#[verifier::external_type_specification]
#[verifier::external_body]
#[verifier::reject_recursive_types(R)]
pub struct ExZipArchive<R>(ZipArchive<R>);

#[verifier::external_type_specification]
#[verifier::external_body]
#[verifier::reject_recursive_types(T)]
pub struct ExCursor<T>(Cursor<T>);

#[verifier::external_type_specification]
#[verifier::external_body]
pub struct ExZipError(ZipError);

/// The entries of an opened archive, in the order of its central directory. For each
/// entry: whether `by_index` opens it, its name, whether its bytes can then be read to the
/// end, and those decompressed bytes. With the archive held in memory, each depends on
/// the archive's bytes alone.
pub uninterp spec fn archive_entries(a: ZipArchive<Cursor<Vec<u8>>>) -> Seq<(bool, Seq<char>, bool, Seq<u8>)>;

/// Whether `ZipArchive::new` reads a central directory from these bytes.
pub uninterp spec fn zip_opens(bytes: Seq<u8>) -> bool;

/// The entries of the archive that these bytes hold, as `archive_entries` gives them.
pub uninterp spec fn zip_entries(bytes: Seq<u8>) -> Seq<(bool, Seq<char>, bool, Seq<u8>)>;

/// The media type that a file name's extension suggests.
pub uninterp spec fn guessed_mime(name: Seq<char>) -> Seq<char>;

/// Relies on zip::ZipArchive::new: reads the central directory of the archive in `bytes`,
/// or fails; which of the two, and the entries read, depend on the bytes alone.
#[verifier::external_body]
fn open_archive(bytes: Vec<u8>) -> (r: Result<ZipArchive<Cursor<Vec<u8>>>, ZipError>)
    ensures
        r is Ok <==> zip_opens(bytes@),
        r matches Ok(a) ==> archive_entries(a) == zip_entries(bytes@),
{
    ZipArchive::new(Cursor::new(bytes))
}

/// Relies on zip::ZipArchive::len: the number of entries of the central directory.
#[verifier::external_body]
fn entry_count(a: &ZipArchive<Cursor<Vec<u8>>>) -> (r: usize)
    ensures
        r == archive_entries(*a).len(),
{
    a.len()
}

/// Relies on zip::ZipArchive::by_index and zip::read::ZipFile::name: the name of the
/// entry at `i`, where `by_index` opens it. Reading moves the cursor only; the entries stay.
#[verifier::external_body]
fn entry_name(a: &mut ZipArchive<Cursor<Vec<u8>>>, i: usize) -> (r: Result<String, ZipError>)
    requires
        i < archive_entries(*old(a)).len(),
    ensures
        archive_entries(*final(a)) == archive_entries(*old(a)),
        r is Ok <==> archive_entries(*old(a))[i as int].0,
        r matches Ok(n) ==> n@ == archive_entries(*old(a))[i as int].1,
{
    a.by_index(i).map(|f| f.name().to_string())
}

/// Relies on zip::ZipArchive::by_index and std::io::Read::read_to_end on the entry: the
/// decompressed bytes of the entry at `i`, where it opens and reads to the end.
#[verifier::external_body]
fn entry_data(a: &mut ZipArchive<Cursor<Vec<u8>>>, i: usize) -> (r: Result<Vec<u8>, ZipError>)
    requires
        i < archive_entries(*old(a)).len(),
    ensures
        archive_entries(*final(a)) == archive_entries(*old(a)),
        r is Ok <==> archive_entries(*old(a))[i as int].0 && archive_entries(*old(a))[i as int].2,
        r matches Ok(d) ==> d@ == archive_entries(*old(a))[i as int].3,
{
    let mut entry = a.by_index(i)?;
    let mut content = Vec::new();
    std::io::Read::read_to_end(&mut entry, &mut content)?;
    Ok(content)
}

/// Relies on mime_guess::from_path and MimeGuess::first_or_octet_stream: the media type
/// that the extension of `name` suggests, `application/octet-stream` where none is known;
/// a name without any `.` has no extension.
#[verifier::external_body]
fn guess_mime(name: &str) -> (r: String)
    ensures
        r@ == guessed_mime(name@),
        !name@.contains('.') ==> r@ == "application/octet-stream"@,
{
    mime_guess::from_path(name).first_or_octet_stream().to_string()
}

/// The folder that macOS adds to archives for its own metadata.
pub open spec fn metadata_folder() -> Seq<char> {
    seq!['_', '_', 'M', 'A', 'C', 'O', 'S', 'X']
}

/// The hidden file that macOS Finder leaves in folders.
pub open spec fn hidden_file() -> Seq<char> {
    seq!['.', 'D', 'S', '_', 'S', 't', 'o', 'r', 'e']
}

/// An entry name that denotes a directory: it ends with a path separator.
pub open spec fn names_directory(name: Seq<char>) -> bool {
    name.len() > 0 && (name.last() == '/' || name.last() == '\\')
}

/// An entry that extraction keeps: no directory, nothing under the metadata folder, no
/// hidden file.
pub open spec fn is_content_entry(name: Seq<char>) -> bool {
    !names_directory(name) && !has_prefix(name, metadata_folder()) && !has_suffix(
        name,
        hidden_file(),
    )
}

/// The file that extraction makes of a kept entry.
pub open spec fn extracted(e: (bool, Seq<char>, bool, Seq<u8>)) -> CandidateView {
    CandidateView { name: e.1, content_type: Some(guessed_mime(e.1)), content: e.3 }
}

/// What extraction makes of a sequence of entries: the kept files in their order, or
/// none where an entry does not open or a kept entry cannot be read.
pub open spec fn content_entries(es: Seq<(bool, Seq<char>, bool, Seq<u8>)>) -> Option<Seq<CandidateView>>
    decreases es.len(),
{
    if es.len() == 0 {
        Some(seq![])
    } else {
        match content_entries(es.drop_last()) {
            None => None,
            Some(rest) => {
                let e = es.last();
                if !e.0 {
                    None
                } else if !is_content_entry(e.1) {
                    Some(rest)
                } else if !e.2 {
                    None
                } else {
                    Some(rest.push(extracted(e)))
                }
            },
        }
    }
}

/// What extraction makes of the bytes of an archive: none where they are no archive.
pub open spec fn extract_result(bytes: Seq<u8>) -> Option<Seq<CandidateView>> {
    if zip_opens(bytes) {
        content_entries(zip_entries(bytes))
    } else {
        None
    }
}

/// The result of an extraction matches what the entries give.
pub open spec fn extraction_matches(r: Result<Vec<CandidateFile>, SiteError>, o: Option<Seq<CandidateView>>) -> bool {
    match o {
        Some(fs) => r matches Ok(v) && candidates_view(v@) == fs,
        None => r == Err::<Vec<CandidateFile>, SiteError>(SiteError::Extraction),
    }
}

/// A failure in a prefix of the entries is a failure of all of them.
proof fn lemma_failure_extends(es: Seq<(bool, Seq<char>, bool, Seq<u8>)>, i: int)
    requires
        0 <= i <= es.len(),
        content_entries(es.subrange(0, i)) is None,
    ensures
        content_entries(es) is None,
    decreases es.len() - i,
{
    if i < es.len() {
        assert(es.subrange(0, i + 1).drop_last() =~= es.subrange(0, i));
        lemma_failure_extends(es, i + 1);
    } else {
        assert(es.subrange(0, i) =~= es);
    }
}

/// Whether extraction keeps an entry of this name.
pub fn keeps_entry(name: &str) -> (r: bool)
    ensures
        r == is_content_entry(name@),
{
    proof {
        reveal_strlit("__MACOSX");
        reveal_strlit(".DS_Store");
    }
    assert("__MACOSX"@ =~= metadata_folder());
    assert(".DS_Store"@ =~= hidden_file());
    let n = name.unicode_len();
    if n > 0 {
        let c = name.get_char(n - 1);
        if c == '/' || c == '\\' {
            return false;
        }
    }
    !starts_with(name, "__MACOSX") && !ends_with(name, ".DS_Store")
}

/// Reads every entry of an opened archive and keeps the content files, in archive order,
/// each with the media type that its name suggests. Fails if an entry does not open or a
/// kept entry cannot be read; no partial list is returned.
pub fn extract_entries(archive: &mut ZipArchive<Cursor<Vec<u8>>>) -> (r: Result<
    Vec<CandidateFile>,
    SiteError,
>)
    ensures
        archive_entries(*final(archive)) == archive_entries(*old(archive)),
        extraction_matches(r, content_entries(archive_entries(*old(archive)))),
{
    let ghost es = archive_entries(*archive);
    let n = entry_count(archive);
    let mut files: Vec<CandidateFile> = Vec::new();
    let mut i: usize = 0;
    while i < n
        invariant
            0 <= i <= n,
            n == es.len(),
            archive_entries(*archive) == es,
            es == archive_entries(*old(archive)),
            content_entries(es.subrange(0, i as int)) == Some(candidates_view(files@)),
        decreases n - i,
    {
        proof {
            assert(es.subrange(0, i + 1).drop_last() =~= es.subrange(0, i as int));
            assert(es.subrange(0, i + 1).last() == es[i as int]);
        }
        let name = match entry_name(archive, i) {
            Ok(name) => name,
            Err(_) => {
                proof {
                    lemma_failure_extends(es, i + 1);
                }
                return Err(SiteError::Extraction);
            },
        };
        if keeps_entry(name.as_str()) {
            let content = match entry_data(archive, i) {
                Ok(content) => content,
                Err(_) => {
                    proof {
                        lemma_failure_extends(es, i + 1);
                    }
                    return Err(SiteError::Extraction);
                },
            };
            let content_type = guess_mime(name.as_str());
            let file = CandidateFile { name, content_type: Some(content_type), content };
            let ghost before = files@;
            files.push(file);
            proof {
                assert(candidates_view(files@) =~= candidates_view(before).push(file@));
            }
        }
        i = i + 1;
    }
    assert(es.subrange(0, n as int) =~= es);
    Ok(files)
}

/// Opens the archive held in `bytes` and extracts its content files, in archive order.
/// Fails with `Extraction` exactly where the bytes are no archive, an entry does not open
/// or a kept entry cannot be read.
pub fn extract_file(bytes: Vec<u8>) -> (r: Result<Vec<CandidateFile>, SiteError>)
    ensures
        extraction_matches(r, extract_result(bytes@)),
{
    let ghost b = bytes@;
    let mut archive = match open_archive(bytes) {
        Ok(a) => a,
        Err(_) => return Err(SiteError::Extraction),
    };
    extract_entries(&mut archive)
}

} // verus!
