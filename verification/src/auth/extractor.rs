//! Who makes a request: the user named by its bearer token.

use vstd::prelude::*;

use super::domain::UserId;
use super::error::AuthError;
use crate::text::{has_prefix, strip_prefix};

verus! {

/// The user on whose behalf a request is made.
#[derive(Debug, Clone, Copy, PartialEq, Eq)]
pub struct AuthUser(pub UserId);

/// The scheme that precedes a token in the `Authorization` header.
pub open spec fn bearer_scheme() -> Seq<char> {
    "Bearer "@
}

/// The token in an `Authorization` header value of the form `Bearer <token>`;
/// a missing header, or one of another form, fails with `InvalidCredentials`.
pub fn bearer_token(header: Option<&str>) -> (r: Result<&str, AuthError>)
    ensures
        (match header {
            Some(h) => if has_prefix(h@, bearer_scheme()) {
                r matches Ok(t) && t@ == h@.skip(bearer_scheme().len() as int)
            } else {
                r matches Err(e) && e is InvalidCredentials
            },
            None => r matches Err(e) && e is InvalidCredentials,
        }),
{
    match header {
        None => Err(AuthError::InvalidCredentials),
        Some(h) => match strip_prefix(h, "Bearer ") {
            Some(token) => Ok(token),
            None => Err(AuthError::InvalidCredentials),
        },
    }
}

/// A header `Bearer <token>` gives exactly the token, for every token; a
/// header that does not begin with `Bearer ` (capital B, one space) is
/// refused.
pub proof fn lemma_bearer_header_gives_its_token(token: Seq<char>, header: Seq<char>)
    ensures
        has_prefix("Bearer "@ + token, bearer_scheme()),
        ("Bearer "@ + token).skip(bearer_scheme().len() as int) == token,
        !has_prefix(header, "Bearer "@) ==> !has_prefix(header, bearer_scheme()),
{
    let h = "Bearer "@ + token;
    assert(h.take("Bearer "@.len() as int) =~= "Bearer "@);
    assert(h.skip("Bearer "@.len() as int) =~= token);
}

} // verus!
