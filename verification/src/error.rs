//! The error every service operation may answer with.
use vstd::prelude::*;

verus! {

/// Why a request was refused.
#[derive(Debug)]
pub enum AppError {
    /// The thing asked for does not exist.
    NotFound(String),
    /// The request itself is not acceptable.
    BadRequest(String),
    /// The machine could not give what the operation needs.
    Internal(String),
}

/// What an [`AppError`] says, with its message as a sequence of characters.
pub enum ErrorView {
    NotFound(Seq<char>),
    BadRequest(Seq<char>),
    Internal(Seq<char>),
}

impl View for AppError {
    type V = ErrorView;

    open spec fn view(&self) -> ErrorView {
        match self {
            AppError::NotFound(m) => ErrorView::NotFound(m@),
            AppError::BadRequest(m) => ErrorView::BadRequest(m@),
            AppError::Internal(m) => ErrorView::Internal(m@),
        }
    }
}

/// The error answered when no random bytes could be had for a new
/// identifier.
pub open spec fn id_unavailable() -> ErrorView {
    ErrorView::Internal("No random bytes for a new identifier"@)
}

/// The error answered when the system clock cannot be read.
pub open spec fn clock_unavailable() -> ErrorView {
    ErrorView::Internal("The system clock cannot be read"@)
}

/// The answer of a service operation.
pub type AppResult<T> = Result<T, AppError>;

/// An answer with its error, if any, taken by its view.
pub open spec fn outcome<T>(r: AppResult<T>) -> Result<T, ErrorView> {
    match r {
        Ok(v) => Ok(v),
        Err(e) => Err(e@),
    }
}

impl AppError {
    /// `NotFound` with the message `prefix` followed by `subject`.
    pub fn not_found(prefix: &str, subject: &str) -> (e: AppError)
        ensures
            e@ == ErrorView::NotFound(prefix@ + subject@),
    {
        let mut m = String::from_str(prefix);
        m.append(subject);
        AppError::NotFound(m)
    }

    /// `BadRequest` with the message `message`.
    pub fn bad_request(message: &str) -> (e: AppError)
        ensures
            e@ == ErrorView::BadRequest(message@),
    {
        AppError::BadRequest(String::from_str(message))
    }

    /// The error for a missing identifier (see [`id_unavailable`]).
    pub fn no_id() -> (e: AppError)
        ensures
            e@ == id_unavailable(),
    {
        AppError::Internal(String::from_str("No random bytes for a new identifier"))
    }

    /// The error for an unreadable clock (see [`clock_unavailable`]).
    pub fn no_clock() -> (e: AppError)
        ensures
            e@ == clock_unavailable(),
    {
        AppError::Internal(String::from_str("The system clock cannot be read"))
    }

    /// The message carried by the error.
    pub fn message(&self) -> (m: &String)
        ensures
            m@ == match self@ {
                ErrorView::NotFound(s) => s,
                ErrorView::BadRequest(s) => s,
                ErrorView::Internal(s) => s,
            },
    {
        match self {
            AppError::NotFound(m) => m,
            AppError::BadRequest(m) => m,
            AppError::Internal(m) => m,
        }
    }
}

} // verus!
