//! The errors of the API and how each is answered.

use vstd::prelude::*;

verus! {

/// Why a request failed.
#[derive(Debug, Clone)]
pub enum AppError {
    /// The requested item does not exist.
    NotFound,
    /// The request itself is malformed; the text says how.
    BadRequest(String),
    /// The table could not be read.
    Ddb(String),
    /// A stored item could not be decoded.
    Deserialize(String),
}

/// An error seen as text.
pub enum AppErrorView {
    NotFound,
    BadRequest(Seq<char>),
    Ddb(Seq<char>),
    Deserialize(Seq<char>),
}

impl View for AppError {
    type V = AppErrorView;

    open spec fn view(&self) -> AppErrorView {
        match self {
            AppError::NotFound => AppErrorView::NotFound,
            AppError::BadRequest(m) => AppErrorView::BadRequest(m@),
            AppError::Ddb(m) => AppErrorView::Ddb(m@),
            AppError::Deserialize(m) => AppErrorView::Deserialize(m@),
        }
    }
}

impl AppErrorView {
    /// The error is the server's fault, not the client's.
    pub open spec fn is_internal(self) -> bool {
        self is Ddb || self is Deserialize
    }

    /// The HTTP status that answers the error.
    pub open spec fn status(self) -> u16 {
        match self {
            AppErrorView::NotFound => 404,
            AppErrorView::BadRequest(_) => 400,
            AppErrorView::Ddb(_) => 500,
            AppErrorView::Deserialize(_) => 500,
        }
    }

    /// The text sent to the client under `"error"`: internal details are
    /// never sent.
    pub open spec fn client_message(self) -> Seq<char> {
        match self {
            AppErrorView::NotFound => "not found"@,
            AppErrorView::BadRequest(m) => m,
            AppErrorView::Ddb(_) => "internal server error"@,
            AppErrorView::Deserialize(_) => "internal server error"@,
        }
    }

    /// The full description of the error, as logged.
    pub open spec fn description(self) -> Seq<char> {
        match self {
            AppErrorView::NotFound => "not found"@,
            AppErrorView::BadRequest(m) => "invalid input: "@ + m,
            AppErrorView::Ddb(m) => "dynamodb error: "@ + m,
            AppErrorView::Deserialize(m) => "deserialization error: "@ + m,
        }
    }
}

impl AppError {
    /// Whether the error is the server's fault (and is logged as such).
    pub fn is_internal(&self) -> (r: bool)
        ensures
            r == self@.is_internal(),
    {
        match self {
            AppError::Ddb(_) | AppError::Deserialize(_) => true,
            _ => false,
        }
    }

    /// The HTTP status code of the response to the error.
    pub fn status_code(&self) -> (r: u16)
        ensures
            r == self@.status(),
    {
        match self {
            AppError::NotFound => 404,
            AppError::BadRequest(_) => 400,
            AppError::Ddb(_) | AppError::Deserialize(_) => 500,
        }
    }

    /// The message of the JSON body `{"error": message}` that answers the
    /// error.
    pub fn client_message(&self) -> (r: String)
        ensures
            r@ == self@.client_message(),
    {
        match self {
            AppError::NotFound => "not found".to_owned(),
            AppError::BadRequest(msg) => msg.clone(),
            AppError::Ddb(_) | AppError::Deserialize(_) => "internal server error".to_owned(),
        }
    }

    /// The description of the error (what `to_string` gives).
    pub fn description(&self) -> (r: String)
        ensures
            r@ == self@.description(),
    {
        match self {
            AppError::NotFound => "not found".to_owned(),
            AppError::BadRequest(msg) => {
                let mut s = "invalid input: ".to_owned();
                s.append(msg.as_str());
                s
            },
            AppError::Ddb(msg) => {
                let mut s = "dynamodb error: ".to_owned();
                s.append(msg.as_str());
                s
            },
            AppError::Deserialize(msg) => {
                let mut s = "deserialization error: ".to_owned();
                s.append(msg.as_str());
                s
            },
        }
    }
}

/// Every error is answered with a client error (400, 404) or a server
/// error (500); client errors carry their own text, server errors never
/// show their details.
pub proof fn lemma_every_error_is_answered(e: AppErrorView)
    ensures
        e.status() == 400 || e.status() == 404 || e.status() == 500,
        e.status() == 500 <==> e.is_internal(),
        e.is_internal() ==> e.client_message() == "internal server error"@,
        e matches AppErrorView::BadRequest(m) ==> e.client_message() == m,
        e is NotFound ==> e.client_message() == "not found"@,
        e is NotFound ==> e.status() == 404,
        e is BadRequest ==> e.status() == 400,
        e is Ddb || e is Deserialize ==> e.status() == 500 && e.is_internal(),
        e matches AppErrorView::BadRequest(m) ==> e.description() == "invalid input: "@ + m,
        e matches AppErrorView::Ddb(m) ==> e.description() == "dynamodb error: "@ + m,
        e matches AppErrorView::Deserialize(m) ==> e.description() == "deserialization error: "@ + m,
{
}

} // verus!
