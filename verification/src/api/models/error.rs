//! Errors by kind, each with the status it maps to and the text shown for it.

use vstd::prelude::*;
use vstd::string::*;

verus! {

/// A failure of an operation, by kind, with the message shown to the caller.
#[derive(Debug)]
pub enum ApiError {
    BadRequest(String),
    Unauthorized(String),
    Forbidden(String),
    Database(String),
    NotFound(String),
    InternalServer(String),
}

/// The mathematical value of an [`ApiError`].
pub enum ApiErrorView {
    BadRequest(Seq<char>),
    Unauthorized(Seq<char>),
    Forbidden(Seq<char>),
    Database(Seq<char>),
    NotFound(Seq<char>),
    InternalServer(Seq<char>),
}

impl View for ApiError {
    type V = ApiErrorView;

    open spec fn view(&self) -> ApiErrorView {
        match *self {
            ApiError::BadRequest(m) => ApiErrorView::BadRequest(m@),
            ApiError::Unauthorized(m) => ApiErrorView::Unauthorized(m@),
            ApiError::Forbidden(m) => ApiErrorView::Forbidden(m@),
            ApiError::Database(m) => ApiErrorView::Database(m@),
            ApiError::NotFound(m) => ApiErrorView::NotFound(m@),
            ApiError::InternalServer(m) => ApiErrorView::InternalServer(m@),
        }
    }
}

impl ApiErrorView {
    /// The HTTP status that the kind of error maps to.
    pub open spec fn status(self) -> u16 {
        match self {
            ApiErrorView::BadRequest(_) => 400,
            ApiErrorView::Unauthorized(_) => 401,
            ApiErrorView::Forbidden(_) => 403,
            ApiErrorView::NotFound(_) => 404,
            ApiErrorView::Database(_) => 500,
            ApiErrorView::InternalServer(_) => 500,
        }
    }

    /// The message that the error carries.
    pub open spec fn detail(self) -> Seq<char> {
        match self {
            ApiErrorView::BadRequest(m) => m,
            ApiErrorView::Unauthorized(m) => m,
            ApiErrorView::Forbidden(m) => m,
            ApiErrorView::NotFound(m) => m,
            ApiErrorView::Database(m) => m,
            ApiErrorView::InternalServer(m) => m,
        }
    }

    /// The text shown to a client: the message itself, behind a fixed prefix
    /// for the two kinds that stand for a fault of the server.
    pub open spec fn text(self) -> Seq<char> {
        match self {
            ApiErrorView::Database(m) => "Database Error: "@ + m,
            ApiErrorView::InternalServer(m) => "Internal Service Error: "@ + m,
            _ => self.detail(),
        }
    }
}

/// The value of the outcome of an operation that hands nothing out.
pub open spec fn outcome(r: Result<(), ApiError>) -> Result<(), ApiErrorView> {
    match r {
        Ok(()) => Ok(()),
        Err(e) => Err(e@),
    }
}

impl ApiError {
    /// The HTTP status of the error: 400, 401, 403 and 404 for the four kinds
    /// a client can cause, 500 for the others.
    pub fn status_code(&self) -> (code: u16)
        ensures
            code == self@.status(),
    {
        match self {
            ApiError::BadRequest(_) => 400,
            ApiError::Unauthorized(_) => 401,
            ApiError::Forbidden(_) => 403,
            ApiError::NotFound(_) => 404,
            _ => 500,
        }
    }

    /// The text shown to a client.
    pub fn to_string(&self) -> (text: String)
        ensures
            text@ == self@.text(),
    {
        match self {
            ApiError::BadRequest(m) => m.clone(),
            ApiError::Unauthorized(m) => m.clone(),
            ApiError::Forbidden(m) => m.clone(),
            ApiError::NotFound(m) => m.clone(),
            ApiError::Database(m) => String::from_str("Database Error: ").concat(m.as_str()),
            ApiError::InternalServer(m) => String::from_str("Internal Service Error: ").concat(
                m.as_str(),
            ),
        }
    }
}

} // verus!
