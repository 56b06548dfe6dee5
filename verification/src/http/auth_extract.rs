//! The bearer token of a request's `Authorization` header.
use vstd::prelude::*;

use crate::auth::{AuthError, AuthUser};
use crate::error::{answers, ApiError};
use crate::text::strip_prefix;

verus! {

/// The token that an `Authorization` header value carries: what follows
/// `"Bearer "`, when that is not empty.
pub open spec fn bearer_of(header: Seq<char>) -> Option<Seq<char>> {
    let prefix = "Bearer "@;
    if prefix.len() <= header.len() && header.subrange(0, prefix.len() as int) == prefix
        && header.len() > prefix.len() {
        Some(header.subrange(prefix.len() as int, header.len() as int))
    } else {
        None
    }
}

/// A header written as `Bearer ` and a non-empty token gives that token back.
pub proof fn lemma_bearer_round_trip(token: Seq<char>)
    requires
        token.len() > 0,
    ensures
        bearer_of("Bearer "@ + token) == Some(token),
{
    reveal_strlit("Bearer ");
    let header = "Bearer "@ + token;
    assert(header.subrange(0, 7) =~= "Bearer "@);
    assert(header.subrange(7, header.len() as int) =~= token);
}

/// `error` is the answer to a request without a signed-in user.
pub open spec fn is_auth_required(error: ApiError) -> bool {
    answers(error, 401, "AUTH_REQUIRED"@, "Sign in to continue"@)
}

/// Reads the bearer token from the `Authorization` header value, if the
/// request has one that is readable as text.
pub fn bearer_token(authorization: Option<&str>) -> (token: Result<&str, ApiError>)
    ensures
        match authorization {
            Some(h) => match bearer_of(h@) {
                Some(t) => token matches Ok(v) && v@ == t,
                None => token matches Err(e) && is_auth_required(e),
            },
            None => token matches Err(e) && is_auth_required(e),
        },
{
    proof {
        reveal_strlit("Bearer ");
    }
    let header = match authorization {
        Some(h) => h,
        None => return Err(ApiError::auth_required()),
    };
    match strip_prefix(header, "Bearer ") {
        Some(rest) => if rest.unicode_len() == 0 {
            Err(ApiError::auth_required())
        } else {
            Ok(rest)
        },
        None => Err(ApiError::auth_required()),
    }
}

/// The caller, once the auth service has checked their token: any failure is
/// answered as a missing sign-in.
pub fn authenticated(verified: Result<AuthUser, AuthError>) -> (caller: Result<AuthUser, ApiError>)
    ensures
        match verified {
            Ok(user) => caller matches Ok(u) && u == user,
            Err(_) => caller matches Err(e) && is_auth_required(e),
        },
{
    match verified {
        Ok(user) => Ok(user),
        Err(_) => Err(ApiError::auth_required()),
    }
}

} // verus!
