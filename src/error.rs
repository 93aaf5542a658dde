use vstd::prelude::*;

verus! {

/// Why a set of uploaded files was refused before anything was stored.
#[derive(PartialEq, Eq, Structural, Clone, Copy, Debug)]
pub enum UploadProblem {
    /// No file came with the request.
    NoFiles,
    /// A file came without a media type.
    MissingContentType,
    /// A file of a plain site is neither HTML nor CSS.
    HtmlTypeNotAllowed,
    /// A file of a plain site is over the size limit.
    HtmlFileTooLarge,
    /// The single file of an archive site is not a zip archive.
    NotAnArchive,
    /// The archive of an archive site is over the size limit.
    ArchiveTooLarge,
}

/// The ways a publication or a resolution can fail.
#[derive(PartialEq, Eq, Structural, Clone, Copy, Debug)]
pub enum SiteError {
    /// The site-type tag is neither `html` nor `zip`.
    InvalidSiteType,
    /// The uploaded files break the upload policy.
    Validation(UploadProblem),
    /// The archive could not be opened or one of its entries could not be read.
    Extraction,
    /// No site has that host or id, or no file matches the request.
    NotFound,
    /// Another site already has the host.
    Conflict,
    /// The object store failed to upload, fetch or delete.
    Storage,
    /// The routing cache changed between reading its version tag and writing.
    ConcurrentModification,
    /// The routing cache could not be reached or refused the call.
    Transport,
}

/// The HTTP status that answers an error.
pub open spec fn status_of(e: SiteError) -> u16 {
    match e {
        SiteError::InvalidSiteType => 400,
        SiteError::Validation(_) => 400,
        SiteError::Extraction => 400,
        SiteError::Conflict => 400,
        SiteError::NotFound => 404,
        SiteError::Storage => 500,
        SiteError::ConcurrentModification => 500,
        SiteError::Transport => 500,
    }
}

impl SiteError {
    /// The HTTP status that answers this error.
    pub fn status(&self) -> (r: u16)
        ensures
            r == status_of(*self),
    {
        match self {
            SiteError::InvalidSiteType => 400,
            SiteError::Validation(_) => 400,
            SiteError::Extraction => 400,
            SiteError::Conflict => 400,
            SiteError::NotFound => 404,
            SiteError::Storage => 500,
            SiteError::ConcurrentModification => 500,
            SiteError::Transport => 500,
        }
    }
}

/// The user-facing reason of an upload problem.
pub open spec fn problem_message(p: UploadProblem) -> Seq<char> {
    match p {
        UploadProblem::NoFiles => "No files found"@,
        UploadProblem::MissingContentType => "File has no content type"@,
        UploadProblem::HtmlTypeNotAllowed => "Invalid file type. Only text/html and text/css files are allowed"@,
        UploadProblem::HtmlFileTooLarge => "File size is too large. Maximum size is 2MB"@,
        UploadProblem::NotAnArchive => "Invalid file type. Only zip files are allowed"@,
        UploadProblem::ArchiveTooLarge => "Zip file size is too large. Maximum size is 5MB"@,
    }
}

impl UploadProblem {
    /// The user-facing reason of this problem.
    pub fn message(&self) -> (r: String)
        ensures
            r@ == problem_message(*self),
    {
        match self {
            UploadProblem::NoFiles => String::from_str("No files found"),
            UploadProblem::MissingContentType => String::from_str("File has no content type"),
            UploadProblem::HtmlTypeNotAllowed => String::from_str(
                "Invalid file type. Only text/html and text/css files are allowed",
            ),
            UploadProblem::HtmlFileTooLarge => String::from_str(
                "File size is too large. Maximum size is 2MB",
            ),
            UploadProblem::NotAnArchive => String::from_str(
                "Invalid file type. Only zip files are allowed",
            ),
            UploadProblem::ArchiveTooLarge => String::from_str(
                "Zip file size is too large. Maximum size is 5MB",
            ),
        }
    }
}

/// The message that answers an error.
pub open spec fn error_message(e: SiteError) -> Seq<char> {
    match e {
        SiteError::InvalidSiteType => "Invalid site type. Only 'html' and 'zip' are allowed"@,
        SiteError::Validation(p) => problem_message(p),
        SiteError::Extraction => "The archive could not be read"@,
        SiteError::NotFound => "Not found"@,
        SiteError::Conflict => "Domain is already taken"@,
        SiteError::Storage => "Internal server error"@,
        SiteError::ConcurrentModification => "Internal server error"@,
        SiteError::Transport => "Internal server error"@,
    }
}

impl SiteError {
    /// The message that answers this error; server-side causes stay generic.
    pub fn message(&self) -> (r: String)
        ensures
            r@ == error_message(*self),
    {
        match self {
            SiteError::InvalidSiteType => String::from_str(
                "Invalid site type. Only 'html' and 'zip' are allowed",
            ),
            SiteError::Validation(p) => p.message(),
            SiteError::Extraction => String::from_str("The archive could not be read"),
            SiteError::NotFound => String::from_str("Not found"),
            SiteError::Conflict => String::from_str("Domain is already taken"),
            SiteError::Storage => String::from_str("Internal server error"),
            SiteError::ConcurrentModification => String::from_str("Internal server error"),
            SiteError::Transport => String::from_str("Internal server error"),
        }
    }
}

} // verus!
