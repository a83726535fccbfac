//! The error taxonomy of the engine and how each kind is reported.
use vstd::prelude::*;

verus! {

/// What can go wrong in a request. `BadRequest` carries a message meant for
/// the caller; the storage and internal kinds carry none, so no detail leaks.
#[derive(Debug)]
pub enum AppError {
    NotFound,
    BadRequest(String),
    Forbidden,
    Unauthorized,
    DbError,
    OrmError,
    Internal,
}

/// The mathematical value of an [`AppError`].
pub enum AppErrorView {
    NotFound,
    BadRequest(Seq<char>),
    Forbidden,
    Unauthorized,
    DbError,
    OrmError,
    Internal,
}

impl View for AppError {
    type V = AppErrorView;

    open spec fn view(&self) -> AppErrorView {
        match self {
            AppError::NotFound => AppErrorView::NotFound,
            AppError::BadRequest(m) => AppErrorView::BadRequest(m@),
            AppError::Forbidden => AppErrorView::Forbidden,
            AppError::Unauthorized => AppErrorView::Unauthorized,
            AppError::DbError => AppErrorView::DbError,
            AppError::OrmError => AppErrorView::OrmError,
            AppError::Internal => AppErrorView::Internal,
        }
    }
}

/// The HTTP status that reports an error of this kind.
pub open spec fn status_of(e: AppErrorView) -> u16 {
    match e {
        AppErrorView::NotFound => 404,
        AppErrorView::BadRequest(_) => 400,
        AppErrorView::Forbidden => 403,
        AppErrorView::Unauthorized => 401,
        AppErrorView::DbError => 500,
        AppErrorView::OrmError => 500,
        AppErrorView::Internal => 500,
    }
}

/// The text shown to the caller for an error.
pub open spec fn message_of(e: AppErrorView) -> Seq<char> {
    match e {
        AppErrorView::NotFound => "Not Found"@,
        AppErrorView::BadRequest(m) => "Bad Request "@ + m,
        AppErrorView::Forbidden => "Forbidden"@,
        AppErrorView::Unauthorized => "Unauthorized"@,
        AppErrorView::DbError => "Database error"@,
        AppErrorView::OrmError => "ORM error"@,
        AppErrorView::Internal => "Internal Server Error"@,
    }
}

impl AppError {
    /// A `BadRequest` with the given message.
    pub fn bad_request(message: &str) -> (r: AppError)
        ensures
            r@ == AppErrorView::BadRequest(message@),
    {
        AppError::BadRequest(String::from_str(message))
    }

    /// The HTTP status code for this error: 400, 401, 403, 404 or 500.
    pub fn status_code(&self) -> (r: u16)
        ensures
            r == status_of(self@),
    {
        match self {
            AppError::NotFound => 404,
            AppError::BadRequest(_) => 400,
            AppError::Forbidden => 403,
            AppError::Unauthorized => 401,
            AppError::DbError => 500,
            AppError::OrmError => 500,
            AppError::Internal => 500,
        }
    }

    /// Whether the error is the server's fault rather than the caller's.
    pub fn is_internal(&self) -> (r: bool)
        ensures
            r == (status_of(self@) == 500),
    {
        match self {
            AppError::DbError | AppError::OrmError | AppError::Internal => true,
            _ => false,
        }
    }

    /// The message reported to the caller.
    pub fn message(&self) -> (r: String)
        ensures
            r@ == message_of(self@),
    {
        match self {
            AppError::NotFound => String::from_str("Not Found"),
            AppError::BadRequest(m) => {
                let mut s = String::from_str("Bad Request ");
                s.append(m.as_str());
                s
            },
            AppError::Forbidden => String::from_str("Forbidden"),
            AppError::Unauthorized => String::from_str("Unauthorized"),
            AppError::DbError => String::from_str("Database error"),
            AppError::OrmError => String::from_str("ORM error"),
            AppError::Internal => String::from_str("Internal Server Error"),
        }
    }
}

/// The result of a request.
pub type AppResult<T> = Result<T, AppError>;

} // verus!
