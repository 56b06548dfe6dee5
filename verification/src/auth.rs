//! Who is calling: bearer tokens are checked by the auth service, and its
//! answer decides the caller.
use vstd::prelude::*;

use crate::text::{push_text, text};

verus! {

#[derive(Debug, Clone, Copy, PartialEq, Eq, Structural)]
pub struct AuthUser {
    pub user_id: u128,
}

#[derive(Debug, Clone, Copy, PartialEq, Eq, Structural)]
pub enum AuthError {
    Missing,
    Invalid,
    Unavailable,
}

/// `s` without the `'/'` characters at its end.
pub open spec fn without_trailing_slashes(s: Seq<char>) -> Seq<char>
    decreases s.len(),
{
    if s.len() > 0 && s.last() == '/' {
        without_trailing_slashes(s.drop_last())
    } else {
        s
    }
}

/// The auth service's user endpoint under `supabase_url`.
pub open spec fn user_endpoint_of(supabase_url: Seq<char>) -> Seq<char> {
    without_trailing_slashes(supabase_url) + "/auth/v1/user"@
}

/// The URL at which the auth service answers who a token belongs to.
pub fn user_endpoint(supabase_url: &str) -> (endpoint: String)
    ensures
        endpoint@ == user_endpoint_of(supabase_url@),
{
    let ghost chars = supabase_url@;
    let mut end: usize = supabase_url.unicode_len();
    assert(chars.subrange(0, end as int) =~= chars);
    while end > 0 && supabase_url.get_char(end - 1) == '/'
        invariant
            end <= chars.len(),
            chars == supabase_url@,
            without_trailing_slashes(chars.subrange(0, end as int)) == without_trailing_slashes(chars),
        decreases end,
    {
        assert(chars.subrange(0, end as int).drop_last() =~= chars.subrange(0, end - 1));
        end = end - 1;
    }
    assert(without_trailing_slashes(chars.subrange(0, end as int)) == chars.subrange(0, end as int));
    let mut endpoint = text(supabase_url.substring_char(0, end));
    push_text(&mut endpoint, "/auth/v1/user");
    endpoint
}

/// A token is only sent to the auth service when there is one.
pub fn check_bearer(bearer_token: &str) -> (checked: Result<(), AuthError>)
    ensures
        checked == (if bearer_token@.len() == 0 {
            Err::<(), AuthError>(AuthError::Missing)
        } else {
            Ok(())
        }),
{
    if bearer_token.unicode_len() == 0 {
        Err(AuthError::Missing)
    } else {
        Ok(())
    }
}

/// What the auth service's answer says of the caller: with status 200 the
/// user it names (`None` when its body could not be read), with 401 or 403 an
/// invalid token, with anything else an unavailable service.
pub fn auth_answer(status: u16, user_id: Option<u128>) -> (caller: Result<AuthUser, AuthError>)
    ensures
        status == 200 ==> caller == match user_id {
            Some(id) => Ok::<AuthUser, AuthError>(AuthUser { user_id: id }),
            None => Err(AuthError::Unavailable),
        },
        status == 401 || status == 403 ==> caller == Err::<AuthUser, AuthError>(AuthError::Invalid),
        status != 200 && status != 401 && status != 403 ==> caller == Err::<AuthUser, AuthError>(
            AuthError::Unavailable,
        ),
{
    if status == 200 {
        match user_id {
            Some(id) => Ok(AuthUser { user_id: id }),
            None => Err(AuthError::Unavailable),
        }
    } else if status == 401 || status == 403 {
        Err(AuthError::Invalid)
    } else {
        Err(AuthError::Unavailable)
    }
}

} // verus!
