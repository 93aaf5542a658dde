use vstd::prelude::*;
use crate::archive::{extract_file, extract_result};
use crate::error::{SiteError, UploadProblem};
use crate::text::same_text;
use crate::upload_file::{candidates_view, CandidateFile, CandidateView};

verus! {

/// How the files of a publication are given: as plain HTML and CSS files, or as one zip
/// archive that holds the site.
#[derive(PartialEq, Eq, Structural, Clone, Copy, Debug)]
pub enum SiteType {
    Html,
    Zip,
}

/// Largest file of a plain site, in bytes (2 MiB).
pub const MAX_FILE_SIZE: usize = 2097152;

/// Largest archive of an archive site, in bytes (5 MiB).
pub const MAX_ZIP_FILE_SIZE: usize = 5242880;

pub open spec fn html_tag() -> Seq<char> {
    seq!['h', 't', 'm', 'l']
}

pub open spec fn zip_tag() -> Seq<char> {
    seq!['z', 'i', 'p']
}

pub open spec fn html_media() -> Seq<char> {
    seq!['t', 'e', 'x', 't', '/', 'h', 't', 'm', 'l']
}

pub open spec fn css_media() -> Seq<char> {
    seq!['t', 'e', 'x', 't', '/', 'c', 's', 's']
}

pub open spec fn zip_media() -> Seq<char> {
    seq!['a', 'p', 'p', 'l', 'i', 'c', 'a', 't', 'i', 'o', 'n', '/', 'z', 'i', 'p']
}

/// The site type that a tag names, if any.
pub open spec fn site_type_of(tag: Seq<char>) -> Option<SiteType> {
    if tag == html_tag() {
        Some(SiteType::Html)
    } else if tag == zip_tag() {
        Some(SiteType::Zip)
    } else {
        None
    }
}

/// Reads the site-type tag of a publication request.
pub fn parse_site_type(tag: &str) -> (r: Option<SiteType>)
    ensures
        r == site_type_of(tag@),
{
    proof {
        reveal_strlit("html");
        reveal_strlit("zip");
    }
    assert("html"@ =~= html_tag());
    assert("zip"@ =~= zip_tag());
    if same_text(tag, "html") {
        Some(SiteType::Html)
    } else if same_text(tag, "zip") {
        Some(SiteType::Zip)
    } else {
        None
    }
}

/// What is wrong with one file of a plain site, if anything.
pub open spec fn html_file_problem(f: CandidateView) -> Option<UploadProblem> {
    match f.content_type {
        None => Some(UploadProblem::MissingContentType),
        Some(t) => if t != html_media() && t != css_media() {
            Some(UploadProblem::HtmlTypeNotAllowed)
        } else if f.content.len() > MAX_FILE_SIZE {
            Some(UploadProblem::HtmlFileTooLarge)
        } else {
            None
        },
    }
}

/// The problem of the first faulty file of a plain site, if any.
pub open spec fn html_problem(fs: Seq<CandidateView>) -> Option<UploadProblem>
    decreases fs.len(),
{
    if fs.len() == 0 {
        None
    } else {
        match html_problem(fs.drop_last()) {
            Some(p) => Some(p),
            None => html_file_problem(fs.last()),
        }
    }
}

/// What is wrong with the upload of an archive site, if anything: only its first file
/// counts.
pub open spec fn archive_problem(fs: Seq<CandidateView>) -> Option<UploadProblem> {
    if fs.len() == 0 {
        Some(UploadProblem::NoFiles)
    } else {
        match fs[0].content_type {
            None => Some(UploadProblem::MissingContentType),
            Some(t) => if t != zip_media() {
                Some(UploadProblem::NotAnArchive)
            } else if fs[0].content.len() > MAX_ZIP_FILE_SIZE {
                Some(UploadProblem::ArchiveTooLarge)
            } else {
                None
            },
        }
    }
}

/// The problem of an upload under a site type, if any.
pub open spec fn upload_problem(site_type: SiteType, fs: Seq<CandidateView>) -> Option<
    UploadProblem,
> {
    match site_type {
        SiteType::Html => html_problem(fs),
        SiteType::Zip => archive_problem(fs),
    }
}

/// What validation of an upload yields: the first problem found; otherwise a plain
/// site's files unchanged, or what extraction makes of the archive's bytes (the limits of
/// plain files do not apply to extracted entries).
pub open spec fn validation_outcome(site_type: SiteType, fs: Seq<CandidateView>) -> Result<
    Seq<CandidateView>,
    SiteError,
> {
    match upload_problem(site_type, fs) {
        Some(p) => Err(SiteError::Validation(p)),
        None => match site_type {
            SiteType::Html => Ok(fs),
            SiteType::Zip => match extract_result(fs[0].content) {
                Some(out) => Ok(out),
                None => Err(SiteError::Extraction),
            },
        },
    }
}

/// The result of a validation matches its outcome.
pub open spec fn outcome_matches(r: Result<Vec<CandidateFile>, SiteError>, o: Result<Seq<CandidateView>, SiteError>) -> bool {
    match o {
        Ok(fs) => r matches Ok(v) && candidates_view(v@) == fs,
        Err(e) => r == Err::<Vec<CandidateFile>, SiteError>(e),
    }
}

fn html_file_check(f: &CandidateFile) -> (r: Option<UploadProblem>)
    ensures
        r == html_file_problem(f@),
{
    proof {
        reveal_strlit("text/html");
        reveal_strlit("text/css");
    }
    assert("text/html"@ =~= html_media());
    assert("text/css"@ =~= css_media());
    match &f.content_type {
        None => Some(UploadProblem::MissingContentType),
        Some(t) => {
            if !same_text(t.as_str(), "text/html") && !same_text(t.as_str(), "text/css") {
                Some(UploadProblem::HtmlTypeNotAllowed)
            } else if f.content.len() > MAX_FILE_SIZE {
                Some(UploadProblem::HtmlFileTooLarge)
            } else {
                None
            }
        },
    }
}

fn archive_check(files: &Vec<CandidateFile>) -> (r: Option<UploadProblem>)
    ensures
        r == archive_problem(candidates_view(files@)),
{
    proof {
        reveal_strlit("application/zip");
    }
    assert("application/zip"@ =~= zip_media());
    if files.len() == 0 {
        return Some(UploadProblem::NoFiles);
    }
    let first = &files[0];
    assert(candidates_view(files@)[0] == first@);
    match &first.content_type {
        None => Some(UploadProblem::MissingContentType),
        Some(t) => {
            if !same_text(t.as_str(), "application/zip") {
                Some(UploadProblem::NotAnArchive)
            } else if first.content.len() > MAX_ZIP_FILE_SIZE {
                Some(UploadProblem::ArchiveTooLarge)
            } else {
                None
            }
        },
    }
}

/// Holds the files of a publication to the policy of its site type, and yields the files
/// to store: a plain site's files unchanged, or the content files of an archive site's
/// archive. The first problem found is the error; nothing else is looked at after it.
pub fn validate_files(site_type: SiteType, files: Vec<CandidateFile>) -> (r: Result<
    Vec<CandidateFile>,
    SiteError,
>)
    ensures
        outcome_matches(r, validation_outcome(site_type, candidates_view(files@))),
{
    match site_type {
        SiteType::Html => {
            let ghost fs = candidates_view(files@);
            let mut i: usize = 0;
            while i < files.len()
                invariant
                    0 <= i <= files.len(),
                    fs == candidates_view(files@),
                    site_type == SiteType::Html,
                    html_problem(fs.subrange(0, i as int)) is None,
                decreases files.len() - i,
            {
                proof {
                    assert(fs.subrange(0, i + 1).drop_last() =~= fs.subrange(0, i as int));
                    assert(fs[i as int] == files@[i as int]@);
                }
                match html_file_check(&files[i]) {
                    Some(p) => {
                        proof {
                            assert(fs.subrange(0, i + 1).last() == fs[i as int]);
                            assert(html_problem(fs.subrange(0, i + 1)) == Some(p));
                            lemma_html_problem_extends(fs, (i + 1) as int);
                        }
                        return Err(SiteError::Validation(p));
                    },
                    None => {
                        assert(fs.subrange(0, i + 1).last() == fs[i as int]);
                    },
                }
                i = i + 1;
            }
            assert(fs.subrange(0, files.len() as int) =~= fs);
            Ok(files)
        },
        SiteType::Zip => {
            match archive_check(&files) {
                Some(p) => {
                    return Err(SiteError::Validation(p));
                },
                None => {},
            }
            let ghost fs = candidates_view(files@);
            let mut files = files;
            let first = files.swap_remove(0);
            assert(first.content@ == fs[0].content);
            extract_file(first.content)
        },
    }
}

/// A problem in a prefix of the files is the problem of all of them.
proof fn lemma_html_problem_extends(fs: Seq<CandidateView>, i: int)
    requires
        0 <= i <= fs.len(),
        html_problem(fs.subrange(0, i)) is Some,
    ensures
        html_problem(fs) == html_problem(fs.subrange(0, i)),
    decreases fs.len() - i,
{
    if i < fs.len() {
        assert(fs.subrange(0, i + 1).drop_last() =~= fs.subrange(0, i));
        lemma_html_problem_extends(fs, i + 1);
    } else {
        assert(fs.subrange(0, i) =~= fs);
    }
}

} // verus!
