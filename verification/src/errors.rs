//! The failures that the catalog can report, and how each is shown.

use vstd::prelude::*;

verus! {

/// The kinds of failure.
#[derive(Clone, Copy, Debug, PartialEq, Eq, Structural)]
pub enum ErrorKind {
    Upstream,
    Extraction,
    InvalidInput,
    NotFound,
}

/// A failure of a catalog operation.
#[derive(Clone, Debug, PartialEq, Eq)]
pub enum AppError {
    /// The origin could not be reached (`status` is `None`), or it answered
    /// with a status outside the success range, which `status` keeps.
    UpstreamError { status: Option<u16>, message: String },
    /// A structural selector could not be applied to the page.
    ExtractionError(String),
    /// The caller supplied an empty or malformed identifier.
    InvalidInput(String),
    /// The page is there but holds no such resource.
    NotFound(String),
}

/// The body that a failure is reported with.
#[derive(Clone, Debug, PartialEq, Eq)]
pub struct ErrorResponse {
    pub status: String,
    pub message: String,
}

/// The HTTP status that a failure of kind `kind` is reported with.
pub open spec fn status_of(kind: ErrorKind) -> u16 {
    match kind {
        ErrorKind::Upstream => 502,
        ErrorKind::Extraction => 502,
        ErrorKind::InvalidInput => 400,
        ErrorKind::NotFound => 404,
    }
}

impl AppError {
    /// The kind of this failure.
    pub open spec fn kind(&self) -> ErrorKind {
        match self {
            AppError::UpstreamError { .. } => ErrorKind::Upstream,
            AppError::ExtractionError(_) => ErrorKind::Extraction,
            AppError::InvalidInput(_) => ErrorKind::InvalidInput,
            AppError::NotFound(_) => ErrorKind::NotFound,
        }
    }

    /// The words that explain this failure.
    pub open spec fn detail(&self) -> Seq<char> {
        match self {
            AppError::UpstreamError { message, .. } => message@,
            AppError::ExtractionError(m) => m@,
            AppError::InvalidInput(m) => m@,
            AppError::NotFound(m) => m@,
        }
    }

    /// What comes before the detail in the message of a failure.
    pub open spec fn prefix(kind: ErrorKind) -> Seq<char> {
        match kind {
            ErrorKind::Upstream => "Error saat request HTTP: "@,
            ErrorKind::Extraction => "Error saat scraping: "@,
            ErrorKind::InvalidInput => "Permintaan tidak valid: "@,
            ErrorKind::NotFound => "Tidak ditemukan: "@,
        }
    }

    /// The kind of this failure.
    pub fn error_kind(&self) -> (k: ErrorKind)
        ensures
            k == self.kind(),
    {
        match self {
            AppError::UpstreamError { .. } => ErrorKind::Upstream,
            AppError::ExtractionError(_) => ErrorKind::Extraction,
            AppError::InvalidInput(_) => ErrorKind::InvalidInput,
            AppError::NotFound(_) => ErrorKind::NotFound,
        }
    }

    /// The HTTP status that this failure is reported with: bad gateway for
    /// what went wrong at the origin or on its page, bad request for what
    /// the caller sent, not found for what the page lacks.
    pub fn status_code(&self) -> (code: u16)
        ensures
            code == status_of(self.kind()),
    {
        match self {
            AppError::UpstreamError { .. } => 502,
            AppError::ExtractionError(_) => 502,
            AppError::InvalidInput(_) => 400,
            AppError::NotFound(_) => 404,
        }
    }

    /// The message shown to the caller: the kind's prefix, then the detail.
    pub fn message(&self) -> (m: String)
        ensures
            m@ == Self::prefix(self.kind()) + self.detail(),
    {
        match self {
            AppError::UpstreamError { message, .. } => {
                String::from_str("Error saat request HTTP: ").concat(message.as_str())
            },
            AppError::ExtractionError(m) => String::from_str("Error saat scraping: ").concat(
                m.as_str(),
            ),
            AppError::InvalidInput(m) => String::from_str("Permintaan tidak valid: ").concat(
                m.as_str(),
            ),
            AppError::NotFound(m) => String::from_str("Tidak ditemukan: ").concat(m.as_str()),
        }
    }

    /// The body that this failure is reported with.
    pub fn error_response(&self) -> (r: ErrorResponse)
        ensures
            r.status@ == "error"@,
            r.message@ == Self::prefix(self.kind()) + self.detail(),
    {
        ErrorResponse { status: String::from_str("error"), message: self.message() }
    }
}

} // verus!
