use vstd::prelude::*;
use vstd::string::StringExecFns;

verus! {

/// The outward-facing error taxonomy: every internal failure is either an
/// opaque internal failure or a disclosed bad request with a message that is
/// safe to show to the caller.
#[derive(Debug, PartialEq)]
pub enum Error {
    InternalServerError,
    BadRequest(String),
}

/// What classification reads of a data-store failure: either a database
/// error with its kind and its reported texts, or any other failure.
#[derive(Debug, PartialEq)]
pub enum DbError {
    DatabaseError(DbErrorKind, DbErrorInfo),
    Other,
}

/// The kinds of database error that classification distinguishes: only a
/// uniqueness violation is disclosed to the caller.
#[derive(Debug, PartialEq)]
pub enum DbErrorKind {
    UniqueViolation,
    Other,
}

/// The texts a database error reports: a primary message, and an optional
/// more specific detail text.
#[derive(Debug, PartialEq)]
pub struct DbErrorInfo {
    pub message: String,
    pub details: Option<String>,
}

/// A rendered HTTP error: a status code and the response body.
#[derive(Debug, PartialEq)]
pub struct ErrorResponse {
    pub status: u16,
    pub body: String,
}

/// Whether a data-store failure is a uniqueness-constraint violation.
pub open spec fn is_unique_violation(e: DbError) -> bool {
    e is DatabaseError && e->0 is UniqueViolation
}

/// The text a uniqueness violation discloses: the detail text if present,
/// else the primary message.
pub open spec fn violation_text(e: DbError) -> Seq<char>
    recommends
        e is DatabaseError,
{
    if e->1.details is Some {
        e->1.details->0@
    } else {
        e->1.message@
    }
}

/// How a data-store failure must be classified: a uniqueness violation is
/// disclosed with its most specific text, anything else is kept opaque.
pub open spec fn db_classification(e: DbError, r: Error) -> bool {
    if is_unique_violation(e) {
        r is BadRequest && r->0@ == violation_text(e)
    } else {
        r is InternalServerError
    }
}

/// The fixed message prefix for a rejected password.
pub open spec fn password_prefix() -> Seq<char> {
    "Invalid password provided.\n"@
}

/// The fixed message prefix for a single failed validation constraint.
pub open spec fn constraint_prefix() -> Seq<char> {
    "Validation failed on some constraint.\n"@
}

/// The fixed message prefix for a set of failed validation fields.
pub open spec fn fields_prefix() -> Seq<char> {
    "Validation failed on some fields.\n"@
}

/// The fixed body of an opaque internal failure.
pub open spec fn internal_error_body() -> Seq<char> {
    "Internal Server Error"@
}

impl Error {
    /// Classify a data-store failure: a uniqueness violation is disclosed
    /// with its detail text (or, failing that, its primary message); every
    /// other data-store failure is kept opaque.
    pub fn from_db_error(e: DbError) -> (r: Error)
        ensures
            db_classification(e, r),
    {
        match e {
            DbError::DatabaseError(DbErrorKind::UniqueViolation, info) => {
                let message = match info.details {
                    Some(details) => details,
                    None => info.message,
                };
                Error::BadRequest(message)
            },
            _ => Error::InternalServerError,
        }
    }

    /// Classify a password-check failure, given the debug text of the
    /// underlying code: always disclosed, under the fixed password prefix.
    pub fn password_rejected(code_text: &str) -> (r: Error)
        ensures
            r is BadRequest,
            r->0@ == password_prefix() + code_text@,
    {
        Error::disclosed("Invalid password provided.\n", code_text)
    }

    /// Classify a single-field validation failure, given the debug text of
    /// the underlying error: always disclosed, under the fixed prefix.
    pub fn constraint_rejected(error_text: &str) -> (r: Error)
        ensures
            r is BadRequest,
            r->0@ == constraint_prefix() + error_text@,
    {
        Error::disclosed("Validation failed on some constraint.\n", error_text)
    }

    /// Classify a multi-field validation failure, given the debug text of
    /// the underlying error set: always disclosed, under the fixed prefix.
    pub fn fields_rejected(errors_text: &str) -> (r: Error)
        ensures
            r is BadRequest,
            r->0@ == fields_prefix() + errors_text@,
    {
        Error::disclosed("Validation failed on some fields.\n", errors_text)
    }

    /// Build a disclosed error whose message is a fixed prefix followed by
    /// the producer's own text.
    fn disclosed(prefix: &str, detail: &str) -> (r: Error)
        ensures
            r is BadRequest,
            r->0@ == prefix@ + detail@,
    {
        let message = String::from_str(prefix).concat(detail);
        Error::BadRequest(message)
    }

    /// Render this error into an HTTP response: an opaque failure is status
    /// 500 with a fixed body, a disclosed one is status 400 with its message
    /// as the body, verbatim.
    pub fn error_response(&self) -> (r: ErrorResponse)
        ensures
            self is InternalServerError ==> r.status == 500 && r.body@ == internal_error_body(),
            self is BadRequest ==> r.status == 400 && r.body@ == self->0@,
    {
        match self {
            Error::InternalServerError => ErrorResponse {
                status: 500,
                body: String::from_str("Internal Server Error"),
            },
            Error::BadRequest(message) => ErrorResponse { status: 400, body: message.clone() },
        }
    }
}

} // verus!
