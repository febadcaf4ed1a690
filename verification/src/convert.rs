use vstd::prelude::*;
use crate::error::{
    constraint_prefix, fields_prefix, is_unique_violation, password_prefix, DbError, DbErrorInfo,
    DbErrorKind, Error,
};

verus! {

/// Whether a diesel error is a database error of uniqueness-violation kind:
/// a pure test of the value's variant, left uninterpreted here.
pub uninterp spec fn diesel_unique_violation(e: diesel::result::Error) -> bool;

/// The `Debug` text of a password-check code: a pure function of the value,
/// left uninterpreted here.
pub uninterp spec fn pass_code_text(e: libreauth::pass::ErrorCode) -> Seq<char>;

/// Relies on matching `diesel::result::Error`: a `DatabaseError` carries a
/// `DatabaseErrorKind` and a `DatabaseErrorInformation` whose `message` and
/// `details` give the reported texts; this only tells the variants apart and
/// moves those texts over, so the model is a uniqueness violation exactly
/// when the diesel value is one.
#[verifier::external_body]
fn db_error_model(e: diesel::result::Error) -> (r: DbError)
    ensures
        is_unique_violation(r) == diesel_unique_violation(e),
{
    match e {
        diesel::result::Error::DatabaseError(kind, info) => {
            let k = match kind {
                diesel::result::DatabaseErrorKind::UniqueViolation => DbErrorKind::UniqueViolation,
                _ => DbErrorKind::Other,
            };
            let message = info.message().to_string();
            let details = info.details().map(|d| d.to_string());
            DbError::DatabaseError(k, DbErrorInfo { message, details })
        },
        _ => DbError::Other,
    }
}

/// Relies on the `Debug` rendering of `libreauth::pass::ErrorCode`, which is
/// derived on a fieldless `Copy` enum: the text is a function of the value
/// alone, and is exactly the name of one of the eight variants.
#[verifier::external_body]
fn pass_code_debug(e: &libreauth::pass::ErrorCode) -> (r: String)
    ensures
        r@ == pass_code_text(*e),
        r@ == "Success"@ || r@ == "PasswordTooShort"@ || r@ == "PasswordTooLong"@ || r@
            == "InvalidPasswordFormat"@ || r@ == "IncompatibleOption"@ || r@ == "NotEnoughSpace"@
            || r@ == "NullPtr"@ || r@ == "InvalidKeyLen"@,
{
    format!("{:?}", e)
}

/// Relies on the `Debug` rendering of `validator::ValidationError`: its
/// params map is a hash map, so the text may differ between runs and is not
/// pinned down; the derived rendering always begins with the type's name, so
/// it is never empty.
#[verifier::external_body]
fn validation_error_debug(e: &validator::ValidationError) -> (r: String)
    ensures
        r@.len() > 0,
{
    format!("{:?}", e)
}

/// Relies on the `Debug` rendering of `validator::ValidationErrors`: it is
/// backed by a hash map, so the text may differ between runs and is not
/// pinned down; the derived rendering always begins with the type's name, so
/// it is never empty.
#[verifier::external_body]
fn validation_errors_debug(e: &validator::ValidationErrors) -> (r: String)
    ensures
        r@.len() > 0,
{
    format!("{:?}", e)
}

impl Error {
    /// Classify a data-store failure as diesel reports it: disclosed exactly
    /// when it is a uniqueness violation, with the texts the value carries
    /// classified as `Error::from_db_error` states it; opaque otherwise.
    pub fn from_diesel_error(e: diesel::result::Error) -> (r: Error)
        ensures
            diesel_unique_violation(e) ==> r is BadRequest,
            !diesel_unique_violation(e) ==> r is InternalServerError,
    {
        let model = db_error_model(e);
        Error::from_db_error(model)
    }

    /// Classify a connection-pool acquisition failure: always kept opaque,
    /// whatever the failure was.
    pub fn from_pool_error(_e: diesel::r2d2::PoolError) -> (r: Error)
        ensures
            r is InternalServerError,
    {
        Error::InternalServerError
    }

    /// Classify a password-check failure: always disclosed, with a message
    /// that is exactly the fixed password prefix followed by the debug text
    /// of the code, and so strictly longer than the prefix.
    pub fn from_pass_error(e: libreauth::pass::ErrorCode) -> (r: Error)
        ensures
            r is BadRequest,
            r->0@ == password_prefix() + pass_code_text(e),
            r->0@.len() > password_prefix().len(),
    {
        let text = pass_code_debug(&e);
        let r = Error::password_rejected(text.as_str());
        proof {
            reveal_strlit("Success");
            reveal_strlit("PasswordTooShort");
            reveal_strlit("PasswordTooLong");
            reveal_strlit("InvalidPasswordFormat");
            reveal_strlit("IncompatibleOption");
            reveal_strlit("NotEnoughSpace");
            reveal_strlit("NullPtr");
            reveal_strlit("InvalidKeyLen");
            assert(text@.len() > 0);
        }
        r
    }

    /// Classify a single-field validation failure: always disclosed, with a
    /// message that starts with the fixed constraint prefix and, since the
    /// debug text is never empty, is strictly longer than it.
    pub fn from_validation_error(e: validator::ValidationError) -> (r: Error)
        ensures
            r is BadRequest,
            constraint_prefix().is_prefix_of(r->0@),
            r->0@.len() > constraint_prefix().len(),
    {
        let text = validation_error_debug(&e);
        Error::constraint_rejected(text.as_str())
    }

    /// Classify a multi-field validation failure: always disclosed, with a
    /// message that starts with the fixed fields prefix and, since the debug
    /// text is never empty, is strictly longer than it.
    pub fn from_validation_errors(e: validator::ValidationErrors) -> (r: Error)
        ensures
            r is BadRequest,
            fields_prefix().is_prefix_of(r->0@),
            r->0@.len() > fields_prefix().len(),
    {
        let text = validation_errors_debug(&e);
        Error::fields_rejected(text.as_str())
    }
}

} // verus!
