//! Profiles: the answer to each way a profile request can fail.
use vstd::prelude::*;

use crate::error::{answers, ApiError};
use crate::ports::profile_repository::{ProfileError, ProfilePatch};

verus! {

/// A user's request to change their profile: a field left out stays as it
/// is, and an avatar of `Some(None)` is removed.
#[derive(Debug, Clone)]
pub struct UpdateProfileRequest {
    pub display_name: Option<String>,
    pub avatar_url: Option<Option<String>>,
}

/// The change a profile update asks the store for.
pub fn patch_of(request: UpdateProfileRequest) -> (patch: ProfilePatch)
    ensures
        patch.display_name == request.display_name,
        patch.avatar_url == request.avatar_url,
{
    ProfilePatch { display_name: request.display_name, avatar_url: request.avatar_url }
}

/// The status, code and message each profile failure is answered with.
pub open spec fn profile_answer(error: ProfileError) -> (u16, Seq<char>, Seq<char>) {
    match error {
        ProfileError::NotFound => (404, "PROFILE_NOT_FOUND"@, "Profile was not found"@),
        ProfileError::Invalid => (400, "INVALID_PROFILE"@, "Profile details are invalid"@),
        ProfileError::Unavailable => (
            503,
            "PROFILE_UNAVAILABLE"@,
            "Profile service is temporarily unavailable"@,
        ),
    }
}

pub fn map_profile_error(error: ProfileError) -> (answer: ApiError)
    ensures
        answers(answer, profile_answer(error).0, profile_answer(error).1, profile_answer(error).2),
{
    match error {
        ProfileError::NotFound => ApiError::new(404, "PROFILE_NOT_FOUND", "Profile was not found"),
        ProfileError::Invalid => ApiError::new(400, "INVALID_PROFILE", "Profile details are invalid"),
        ProfileError::Unavailable => ApiError::new(
            503,
            "PROFILE_UNAVAILABLE",
            "Profile service is temporarily unavailable",
        ),
    }
}

} // verus!
