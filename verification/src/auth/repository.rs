//! Rules of the user store that do not depend on the database itself.

use vstd::prelude::*;

use super::error::AuthError;
use crate::text::str_eq;

verus! {

/// The SQLSTATE code of a unique-constraint violation.
pub open spec fn unique_violation_code() -> Seq<char> {
    "23505"@
}

/// The error that a failed insertion of a user gives: a database error with
/// the unique-violation code means the email is taken; any other failure is
/// `Internal` with its description.
pub fn insert_error(db_code: Option<&str>, detail: String) -> (r: AuthError)
    ensures
        (match db_code {
            Some(c) if c@ == unique_violation_code() => r is EmailAlreadyExists,
            _ => r == AuthError::Internal(detail),
        }),
{
    match db_code {
        Some(code) if str_eq(code, "23505") => AuthError::EmailAlreadyExists,
        _ => AuthError::Internal(detail),
    }
}

/// The database code that marks a taken email is SQLSTATE `23505`
/// (`unique_violation`); every other failure of an insertion is internal.
pub proof fn lemma_taken_email_code(code: Seq<char>)
    ensures
        code == "23505"@ <==> code == unique_violation_code(),
{
}

} // verus!
