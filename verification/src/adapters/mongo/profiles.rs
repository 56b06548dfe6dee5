//! Profiles as MongoDB stores them: identifiers and roles as text.
use vstd::prelude::*;

use crate::ids::{lemma_hex_digits_len, parse_uuid, parsed_uuid, uuid_string, uuid_text};
use crate::ports::profile_repository::{role_name, ProfileError, ProfileRole, UserProfile};
use crate::text::{hex_digits, push_text, text, text_eq};
use crate::timestamp::Timestamp;

verus! {

/// The name a new member starts with: `BSR member` and the first eight
/// hexadecimal digits of their account id.
pub open spec fn default_display_name_text(auth_user_id: u128) -> Seq<char> {
    "BSR member "@ + uuid_text(auth_user_id).subrange(0, 8)
}

pub fn default_display_name(auth_user_id: u128) -> (name: String)
    ensures
        name@ == default_display_name_text(auth_user_id),
        name@ == "BSR member "@ + hex_digits(
            auth_user_id as nat / 0x1_0000_0000_0000_0000_0000_0000,
            8,
        ),
{
    let id = uuid_string(auth_user_id);
    proof {
        lemma_hex_digits_len(auth_user_id as nat / 0x1_0000_0000_0000_0000_0000_0000, 8);
        lemma_hex_digits_len(auth_user_id as nat / 0x1_0000_0000_0000_0000_0000, 4);
        lemma_hex_digits_len(auth_user_id as nat / 0x1_0000_0000_0000_0000, 4);
        lemma_hex_digits_len(auth_user_id as nat / 0x1_0000_0000_0000, 4);
        lemma_hex_digits_len(auth_user_id as nat, 12);
        assert(uuid_text(auth_user_id).subrange(0, 8) =~= hex_digits(
            auth_user_id as nat / 0x1_0000_0000_0000_0000_0000_0000,
            8,
        ));
    }
    let mut name = text("BSR member ");
    push_text(&mut name, id.as_str().substring_char(0, 8));
    name
}

/// The role stored as `value`; any other text is invalid profile data.
pub fn role_from_str(value: &str) -> (role: Result<ProfileRole, ProfileError>)
    ensures
        match role {
            Ok(r) => role_name(r) == value@,
            Err(e) => e == ProfileError::Invalid && forall|r: ProfileRole| role_name(r) != value@,
        },
{
    if text_eq(value, "buyer") {
        Ok(ProfileRole::Buyer)
    } else if text_eq(value, "seller") {
        Ok(ProfileRole::Seller)
    } else if text_eq(value, "runner") {
        Ok(ProfileRole::Runner)
    } else if text_eq(value, "admin") {
        Ok(ProfileRole::Admin)
    } else {
        proof {
            assert forall|r: ProfileRole| role_name(r) != value@ by {
                match r {
                    ProfileRole::Buyer => {},
                    ProfileRole::Seller => {},
                    ProfileRole::Runner => {},
                    ProfileRole::Admin => {},
                }
            }
        }
        Err(ProfileError::Invalid)
    }
}

/// A profile read back from its stored fields: both identifiers must be
/// UUIDs and the role one of the four roles.
pub fn profile_from_document(
    id: &str,
    auth_user_id: &str,
    display_name: String,
    avatar_url: Option<String>,
    role: &str,
    trust_level: i32,
    created_at: Timestamp,
    updated_at: Timestamp,
) -> (profile: Result<UserProfile, ProfileError>)
    ensures
        parsed_uuid(id@) is None ==> profile == Err::<UserProfile, ProfileError>(
            ProfileError::Invalid,
        ),
        parsed_uuid(auth_user_id@) is None ==> profile == Err::<UserProfile, ProfileError>(
            ProfileError::Invalid,
        ),
        (forall|r: ProfileRole| role_name(r) != role@) ==> profile == Err::<
            UserProfile,
            ProfileError,
        >(ProfileError::Invalid),
        profile matches Ok(p) ==> {
            &&& Some(p.id) == parsed_uuid(id@)
            &&& Some(p.auth_user_id) == parsed_uuid(auth_user_id@)
            &&& p.display_name == display_name
            &&& p.avatar_url == avatar_url
            &&& role_name(p.role) == role@
            &&& p.trust_level == trust_level
            &&& p.created_at == created_at
            &&& p.updated_at == updated_at
        },
        parsed_uuid(id@) is Some && parsed_uuid(auth_user_id@) is Some && (exists|r: ProfileRole|
            role_name(r) == role@) ==> profile is Ok,
{
    let id_value = match parse_uuid(id) {
        Some(v) => v,
        None => return Err(ProfileError::Invalid),
    };
    let auth_value = match parse_uuid(auth_user_id) {
        Some(v) => v,
        None => return Err(ProfileError::Invalid),
    };
    let role = role_from_str(role)?;
    Ok(
        UserProfile {
            id: id_value,
            auth_user_id: auth_value,
            display_name,
            avatar_url,
            role,
            trust_level,
            created_at,
            updated_at,
        },
    )
}

} // verus!
