//! The failures a request can end in, and the envelope they are reported in.

use vstd::prelude::*;

verus! {

/// A failure reported to the caller of the service.
#[derive(Debug, Clone, PartialEq, Eq)]
pub enum ServiceError {
    /// No route matches the request.
    NotFound,
    /// An unrecoverable fault inside the service.
    InternalServerError,
    /// The request is malformed, names an unknown or expired identifier,
    /// or the upstream fetch failed.
    BadRequest { message: String },
    /// The bearer credential is absent, malformed or wrong.
    Unauthorized { message: String },
}

/// The mathematical value of a [`ServiceError`]: the same variants, with
/// the message as a sequence of characters.
pub enum ServiceErrorView {
    NotFound,
    InternalServerError,
    BadRequest { message: Seq<char> },
    Unauthorized { message: Seq<char> },
}

impl View for ServiceError {
    type V = ServiceErrorView;

    open spec fn view(&self) -> ServiceErrorView {
        match self {
            ServiceError::NotFound => ServiceErrorView::NotFound,
            ServiceError::InternalServerError => ServiceErrorView::InternalServerError,
            ServiceError::BadRequest { message } => ServiceErrorView::BadRequest {
                message: message@,
            },
            ServiceError::Unauthorized { message } => ServiceErrorView::Unauthorized {
                message: message@,
            },
        }
    }
}

/// The body every failure is reported in: the HTTP status and a message.
#[derive(Debug, Clone, PartialEq, Eq)]
pub struct JsonError {
    pub status: u16,
    pub message: String,
}

impl ServiceErrorView {
    /// The HTTP status a failure is answered with.
    pub open spec fn status(self) -> u16 {
        match self {
            ServiceErrorView::NotFound => 404,
            ServiceErrorView::InternalServerError => 500,
            ServiceErrorView::BadRequest { .. } => 400,
            ServiceErrorView::Unauthorized { .. } => 401,
        }
    }

    /// The message a failure is answered with. The two variants without a
    /// message of their own get a fixed description.
    pub open spec fn message(self) -> Seq<char> {
        match self {
            ServiceErrorView::NotFound => "Resource not found"@,
            ServiceErrorView::InternalServerError => "Internal Server Error"@,
            ServiceErrorView::BadRequest { message } => message,
            ServiceErrorView::Unauthorized { message } => message,
        }
    }

    /// The short name of the variant.
    pub open spec fn name(self) -> Seq<char> {
        match self {
            ServiceErrorView::NotFound => "NotFound"@,
            ServiceErrorView::InternalServerError => "InternalServerError"@,
            ServiceErrorView::BadRequest { .. } => "BadRequest"@,
            ServiceErrorView::Unauthorized { .. } => "Unauthorized"@,
        }
    }
}

impl ServiceError {
    /// The HTTP status this failure is answered with.
    pub fn status(&self) -> (status: u16)
        ensures
            status == self@.status(),
    {
        match self {
            ServiceError::NotFound => 404,
            ServiceError::InternalServerError => 500,
            ServiceError::BadRequest { .. } => 400,
            ServiceError::Unauthorized { .. } => 401,
        }
    }

    /// The message this failure is answered with.
    pub fn message(&self) -> (message: String)
        ensures
            message@ == self@.message(),
    {
        match self {
            ServiceError::NotFound => "Resource not found".to_owned(),
            ServiceError::InternalServerError => "Internal Server Error".to_owned(),
            ServiceError::BadRequest { message } => message.clone(),
            ServiceError::Unauthorized { message } => message.clone(),
        }
    }

    /// The short name of the variant, as it appears in logs.
    pub fn to_string(&self) -> (name: String)
        ensures
            name@ == self@.name(),
    {
        match self {
            ServiceError::NotFound => "NotFound".to_owned(),
            ServiceError::InternalServerError => "InternalServerError".to_owned(),
            ServiceError::BadRequest { .. } => "BadRequest".to_owned(),
            ServiceError::Unauthorized { .. } => "Unauthorized".to_owned(),
        }
    }

    /// The envelope this failure is reported in: its status and its message.
    pub fn error_response(&self) -> (body: JsonError)
        ensures
            body.status == self@.status(),
            body.message@ == self@.message(),
    {
        JsonError { status: self.status(), message: self.message() }
    }
}

} // verus!
