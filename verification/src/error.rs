//! The failures an operation on the vault can end in.

use vstd::prelude::*;

verus! {

/// Why an operation was refused or could not be completed.
#[derive(Debug, Clone, PartialEq, Eq)]
pub enum AppError {
    /// The request was malformed or lacked a required input.
    BadRequest(String),
    /// The caller may not perform the operation.
    Unauthorized(String),
    /// The entity does not exist, or belongs to another principal: the two
    /// cases are deliberately not told apart.
    NotFound(String),
    /// The store refused or failed a statement.
    Database,
    /// A payload could not be encoded or decoded.
    Internal,
}

/// The mathematical value of an [`AppError`].
pub enum AppErrorView {
    BadRequest(Seq<char>),
    Unauthorized(Seq<char>),
    NotFound(Seq<char>),
    Database,
    Internal,
}

impl View for AppError {
    type V = AppErrorView;

    open spec fn view(&self) -> AppErrorView {
        match self {
            AppError::BadRequest(m) => AppErrorView::BadRequest(m@),
            AppError::Unauthorized(m) => AppErrorView::Unauthorized(m@),
            AppError::NotFound(m) => AppErrorView::NotFound(m@),
            AppError::Database => AppErrorView::Database,
            AppError::Internal => AppErrorView::Internal,
        }
    }
}

impl AppError {
    /// An error saying that `what` is missing or malformed.
    pub fn bad_request(what: &str) -> (e: AppError)
        ensures
            e@ == AppErrorView::BadRequest(what@),
    {
        AppError::BadRequest(String::from_str(what))
    }

    /// An error saying that the caller is not permitted, with the reason `why`.
    pub fn unauthorized(why: &str) -> (e: AppError)
        ensures
            e@ == AppErrorView::Unauthorized(why@),
    {
        AppError::Unauthorized(String::from_str(why))
    }

    /// An error saying that `what` is absent for the calling principal.
    pub fn not_found(what: &str) -> (e: AppError)
        ensures
            e@ == AppErrorView::NotFound(what@),
    {
        AppError::NotFound(String::from_str(what))
    }
}

} // verus!
