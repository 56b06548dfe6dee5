//! Member profiles: who a signed-in user is on the marketplace.
use vstd::prelude::*;

use crate::text::{push_text, text, trim, trimmed};
use crate::timestamp::Timestamp;

verus! {

/// A member profile; identifiers are the 128-bit values of UUIDs.
#[derive(Debug, Clone, PartialEq, Eq)]
pub struct UserProfile {
    pub id: u128,
    pub auth_user_id: u128,
    pub display_name: String,
    pub avatar_url: Option<String>,
    pub role: ProfileRole,
    pub trust_level: i32,
    pub created_at: Timestamp,
    pub updated_at: Timestamp,
}

#[derive(Debug, Clone, Copy, PartialEq, Eq, Structural)]
pub enum ProfileRole {
    Buyer,
    Seller,
    Runner,
    Admin,
}

/// The stored name of a profile role.
pub open spec fn role_name(role: ProfileRole) -> Seq<char> {
    match role {
        ProfileRole::Buyer => "buyer"@,
        ProfileRole::Seller => "seller"@,
        ProfileRole::Runner => "runner"@,
        ProfileRole::Admin => "admin"@,
    }
}

impl ProfileRole {
    pub fn as_str(&self) -> (name: &'static str)
        ensures
            name@ == role_name(*self),
    {
        match self {
            ProfileRole::Buyer => "buyer",
            ProfileRole::Seller => "seller",
            ProfileRole::Runner => "runner",
            ProfileRole::Admin => "admin",
        }
    }
}

/// Changes a member asks for; `None` leaves a field as it is, and
/// `Some(None)` clears the avatar.
#[derive(Debug, Clone, Default)]
pub struct ProfilePatch {
    pub display_name: Option<String>,
    pub avatar_url: Option<Option<String>>,
}

#[derive(Debug, Clone, Copy, PartialEq, Eq, Structural)]
pub enum ProfileError {
    NotFound,
    Invalid,
    Unavailable,
}

/// The longest display name a member may choose, in characters.
pub const MAX_DISPLAY_NAME_CHARS: usize = 80;

/// A requested display name is stored without surrounding white space; it
/// must keep at least one and at most 80 characters.
pub fn validated_display_name(requested: &str) -> (name: Result<String, ProfileError>)
    ensures
        ({
            let t = trimmed(requested@);
            &&& (t.len() == 0 || t.len() > 80) ==> name == Err::<String, ProfileError>(
                ProfileError::Invalid,
            )
            &&& (0 < t.len() <= 80) ==> (name matches Ok(n) && n@ == t)
        }),
{
    let trimmed_name = trim(requested);
    let length = trimmed_name.unicode_len();
    if length == 0 || length > MAX_DISPLAY_NAME_CHARS {
        return Err(ProfileError::Invalid);
    }
    Ok(text(trimmed_name))
}

} // verus!
