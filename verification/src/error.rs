//! Error taxonomy and its total mapping to HTTP responses.
//!
//! A low-level failure is first classified into the closed variant set
//! `AppError`, and a classified error is then mapped to exactly one HTTP
//! status code and message.  Both steps are pure and total: every variant
//! is mapped, the same variant always maps to the same status, and the
//! conversion to a renderable page cannot itself fail.

use vstd::prelude::*;
use crate::ui::ErrorPage;

verus! {

/// The closed set of error classifications.
#[derive(Clone, Copy, PartialEq, Eq, Structural, Debug)]
pub enum AppError {
    JsonError,
    UiError,
    AppFileNotFound,
    AppErrUnknown,
}

/// What the classification reads of a low-level I/O failure: whether the
/// failure was "not found" or anything else.
#[derive(Clone, Copy, PartialEq, Eq, Structural, Debug)]
pub enum IoFailureKind {
    NotFound,
    Other,
}

/// The one HTTP status code each error variant maps to.
pub open spec fn status_of(err: AppError) -> u16 {
    match err {
        AppError::JsonError => 400,
        AppError::UiError => 500,
        AppError::AppFileNotFound => 404,
        AppError::AppErrUnknown => 500,
    }
}

/// The user-facing message of each error variant.
pub open spec fn message_of(err: AppError) -> Seq<char> {
    match err {
        AppError::JsonError => "malformed structured input"@,
        AppError::UiError => "template rendering failed"@,
        AppError::AppFileNotFound => "file not found"@,
        AppError::AppErrUnknown => "unknown error"@,
    }
}

/// How a low-level I/O failure is classified: "not found" kinds become
/// `AppFileNotFound`, every other kind becomes `AppErrUnknown`.
pub open spec fn classify_io(kind: IoFailureKind) -> AppError {
    match kind {
        IoFailureKind::NotFound => AppError::AppFileNotFound,
        IoFailureKind::Other => AppError::AppErrUnknown,
    }
}

impl AppError {
    /// The status code this variant maps to.
    pub fn status_code(&self) -> (r: u16)
        ensures
            r == status_of(*self),
    {
        match self {
            AppError::JsonError => 400,
            AppError::UiError => 500,
            AppError::AppFileNotFound => 404,
            AppError::AppErrUnknown => 500,
        }
    }

    /// The user-facing message of this variant.
    pub fn message(&self) -> (r: String)
        ensures
            r@ == message_of(*self),
    {
        match self {
            AppError::JsonError => "malformed structured input".to_owned(),
            AppError::UiError => "template rendering failed".to_owned(),
            AppError::AppFileNotFound => "file not found".to_owned(),
            AppError::AppErrUnknown => "unknown error".to_owned(),
        }
    }
}

impl From<IoFailureKind> for AppError {
    /// Classify a low-level I/O failure.
    fn from(kind: IoFailureKind) -> AppError {
        match kind {
            IoFailureKind::NotFound => AppError::AppFileNotFound,
            IoFailureKind::Other => AppError::AppErrUnknown,
        }
    }
}

impl vstd::std_specs::convert::FromSpecImpl<IoFailureKind> for AppError {
    open spec fn obeys_from_spec() -> bool {
        true
    }

    open spec fn from_spec(kind: IoFailureKind) -> AppError {
        classify_io(kind)
    }
}

impl ErrorPage {
    /// Map a classified error to its one response page: the status from
    /// the mapping table, the variant's message as the page text.  Total:
    /// every `AppError` value yields a page, and the conversion cannot
    /// fail.
    pub fn from_app_error(err: AppError) -> (r: ErrorPage)
        ensures
            r.status_code == status_of(err),
            r.error@ == message_of(err),
    {
        ErrorPage { status_code: err.status_code(), error: err.message() }
    }

    /// Classify a low-level I/O failure and map it to its page in one
    /// step: "not found" kinds give a 404 page, every other kind a 500
    /// page, each with the classified variant's message.
    pub fn from_io_failure(kind: IoFailureKind) -> (r: ErrorPage)
        ensures
            r.status_code == status_of(classify_io(kind)),
            r.error@ == message_of(classify_io(kind)),
    {
        let err = AppError::from(kind);
        ErrorPage::from_app_error(err)
    }
}

/// The status mapping is total and stable, holds exactly the documented
/// table, and no variant maps to success or to a code outside
/// {400, 404, 500}.
pub proof fn lemma_status_mapping_total()
    ensures
        status_of(AppError::UiError) == 500,
        status_of(AppError::JsonError) == 400,
        status_of(AppError::AppFileNotFound) == 404,
        status_of(AppError::AppErrUnknown) == 500,
        forall|e: AppError| status_of(e) != 200,
        forall|e: AppError|
            status_of(e) == 400 || status_of(e) == 404 || status_of(e) == 500,
{
}

} // verus!
