//! Declarations of the outside error types that classification consumes, so
//! that they can stand in the library's signatures; their values are opaque
//! here and are only carried through to the trusted wrappers.

use vstd::prelude::*;
use diesel::result::Error as DieselError;

verus! {

#[verifier::external_type_specification]
#[verifier::external_body]
pub struct ExDieselError(DieselError);

#[verifier::external_type_specification]
#[verifier::external_body]
pub struct ExPoolError(diesel::r2d2::PoolError);

#[verifier::external_type_specification]
#[verifier::external_body]
pub struct ExPassErrorCode(libreauth::pass::ErrorCode);

#[verifier::external_type_specification]
#[verifier::external_body]
pub struct ExValidationError(validator::ValidationError);

#[verifier::external_type_specification]
#[verifier::external_body]
pub struct ExValidationErrors(validator::ValidationErrors);

} // verus!
