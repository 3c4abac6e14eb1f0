//! The server's error type and how each error is answered over HTTP.
use vstd::prelude::*;

verus! {

/// An error of the server. Errors raised by the database, the file system and
/// the JSON codec carry the text of the underlying error.
#[derive(Debug)]
pub enum AppError {
    Database(String),
    Io(String),
    NotFound(String),
    BadRequest(String),
    Unauthorized(String),
    Internal(String),
    InvalidSignature(String),
    UrlExpired,
    Json(String),
    Rsa(String),
    Multipart(String),
}

pub type AppResult<T> = Result<T, AppError>;

impl AppError {
    /// HTTP status code of the answer to this error.
    pub open spec fn spec_status(&self) -> u16 {
        match self {
            AppError::NotFound(_) => 404,
            AppError::BadRequest(_) => 400,
            AppError::Unauthorized(_) => 401,
            AppError::InvalidSignature(_) => 403,
            AppError::UrlExpired => 403,
            AppError::Database(_) => 500,
            AppError::Io(_) => 500,
            AppError::Internal(_) => 500,
            AppError::Json(_) => 400,
            AppError::Rsa(_) => 500,
            AppError::Multipart(_) => 400,
        }
    }

    /// The `error` field of the JSON answer.
    pub open spec fn spec_kind(&self) -> Seq<char> {
        match self {
            AppError::NotFound(_) => "not_found"@,
            AppError::BadRequest(_) => "bad_request"@,
            AppError::Unauthorized(_) => "unauthorized"@,
            AppError::InvalidSignature(_) => "invalid_signature"@,
            AppError::UrlExpired => "url_expired"@,
            AppError::Database(_) => "database_error"@,
            AppError::Io(_) => "io_error"@,
            AppError::Internal(_) => "internal_error"@,
            AppError::Json(_) => "json_error"@,
            AppError::Rsa(_) => "rsa_error"@,
            AppError::Multipart(_) => "multipart_error"@,
        }
    }

    /// The `message` field of the JSON answer.
    pub open spec fn spec_message(&self) -> Seq<char> {
        match self {
            AppError::UrlExpired => "URL has expired"@,
            AppError::NotFound(m) => m@,
            AppError::BadRequest(m) => m@,
            AppError::Unauthorized(m) => m@,
            AppError::InvalidSignature(m) => m@,
            AppError::Database(m) => m@,
            AppError::Io(m) => m@,
            AppError::Internal(m) => m@,
            AppError::Json(m) => m@,
            AppError::Rsa(m) => m@,
            AppError::Multipart(m) => m@,
        }
    }

    /// One-line description of the error, as it is logged.
    pub open spec fn spec_describe(&self) -> Seq<char> {
        match self {
            AppError::Database(m) => "Database error: "@ + m@,
            AppError::Io(m) => "IO error: "@ + m@,
            AppError::NotFound(m) => "Not found: "@ + m@,
            AppError::BadRequest(m) => "Bad request: "@ + m@,
            AppError::Unauthorized(m) => "Unauthorized: "@ + m@,
            AppError::Internal(m) => "Internal error: "@ + m@,
            AppError::InvalidSignature(m) => "Invalid signature: "@ + m@,
            AppError::UrlExpired => "URL expired"@,
            AppError::Json(m) => "JSON error: "@ + m@,
            AppError::Rsa(m) => "RSA error: "@ + m@,
            AppError::Multipart(m) => "Multipart error: "@ + m@,
        }
    }

    pub fn status_code(&self) -> (code: u16)
        ensures
            code == self.spec_status(),
    {
        match self {
            AppError::NotFound(_) => 404,
            AppError::BadRequest(_) => 400,
            AppError::Unauthorized(_) => 401,
            AppError::InvalidSignature(_) => 403,
            AppError::UrlExpired => 403,
            AppError::Database(_) => 500,
            AppError::Io(_) => 500,
            AppError::Internal(_) => 500,
            AppError::Json(_) => 400,
            AppError::Rsa(_) => 500,
            AppError::Multipart(_) => 400,
        }
    }

    pub fn kind(&self) -> (kind: String)
        ensures
            kind@ == self.spec_kind(),
    {
        let k = match self {
            AppError::NotFound(_) => "not_found",
            AppError::BadRequest(_) => "bad_request",
            AppError::Unauthorized(_) => "unauthorized",
            AppError::InvalidSignature(_) => "invalid_signature",
            AppError::UrlExpired => "url_expired",
            AppError::Database(_) => "database_error",
            AppError::Io(_) => "io_error",
            AppError::Internal(_) => "internal_error",
            AppError::Json(_) => "json_error",
            AppError::Rsa(_) => "rsa_error",
            AppError::Multipart(_) => "multipart_error",
        };
        k.to_owned()
    }

    pub fn message(&self) -> (message: String)
        ensures
            message@ == self.spec_message(),
    {
        match self {
            AppError::UrlExpired => "URL has expired".to_owned(),
            AppError::NotFound(m) => m.clone(),
            AppError::BadRequest(m) => m.clone(),
            AppError::Unauthorized(m) => m.clone(),
            AppError::InvalidSignature(m) => m.clone(),
            AppError::Database(m) => m.clone(),
            AppError::Io(m) => m.clone(),
            AppError::Internal(m) => m.clone(),
            AppError::Json(m) => m.clone(),
            AppError::Rsa(m) => m.clone(),
            AppError::Multipart(m) => m.clone(),
        }
    }

    pub fn describe(&self) -> (text: String)
        ensures
            text@ == self.spec_describe(),
    {
        let (prefix, detail) = match self {
            AppError::Database(m) => ("Database error: ", m.as_str()),
            AppError::Io(m) => ("IO error: ", m.as_str()),
            AppError::NotFound(m) => ("Not found: ", m.as_str()),
            AppError::BadRequest(m) => ("Bad request: ", m.as_str()),
            AppError::Unauthorized(m) => ("Unauthorized: ", m.as_str()),
            AppError::Internal(m) => ("Internal error: ", m.as_str()),
            AppError::InvalidSignature(m) => ("Invalid signature: ", m.as_str()),
            AppError::UrlExpired => ("URL expired", ""),
            AppError::Json(m) => ("JSON error: ", m.as_str()),
            AppError::Rsa(m) => ("RSA error: ", m.as_str()),
            AppError::Multipart(m) => ("Multipart error: ", m.as_str()),
        };
        let mut text = prefix.to_owned();
        text.append(detail);
        proof {
            if self is UrlExpired {
                reveal_strlit("");
                assert(text@ =~= "URL expired"@);
            }
        }
        text
    }

    /// Status code, `error` field and `message` field of the answer to this error.
    pub fn into_response_parts(self) -> (parts: (u16, String, String))
        ensures
            parts.0 == self.spec_status(),
            parts.1@ == self.spec_kind(),
            parts.2@ == self.spec_message(),
    {
        (self.status_code(), self.kind(), self.message())
    }
}

/// A `BadRequest` error with the given text.
pub fn bad_request(text: &str) -> (e: AppError)
    ensures
        e matches AppError::BadRequest(m) && m@ == text@,
{
    AppError::BadRequest(text.to_owned())
}

} // verus!
