//! Reading the profile of a user.

use vstd::prelude::*;
use crate::handlers::{spec_answers_with, spec_internal, answer_with};
use crate::json::json_of;
use crate::model::StoreFailure;
use crate::response::{ApiError, GeneralResponse};

verus! {

/// What is said of a username that no user has.
pub open spec fn spec_no_user_message() -> Seq<char> {
    "User not found"@
}

/// The user whose profile is asked for, told what the store found under the
/// username: the user's id; the refusal that there is no such user; an
/// internal error if the store failed.
pub fn profile_owner(found: Result<Option<u128>, StoreFailure>) -> (r: Result<u128, ApiError>)
    ensures
        match found {
            Ok(Some(id)) => r == Ok::<u128, ApiError>(id),
            Ok(None) => r matches Err(ApiError::FailMsg(m)) && m@ == spec_no_user_message(),
            Err(_) => spec_internal(r),
        },
{
    match found {
        Ok(Some(id)) => Ok(id),
        Ok(None) => Err(ApiError::FailMsg("User not found".to_owned())),
        Err(_) => Err(ApiError::InternalServerError),
    }
}

/// The answer to the request for a profile: the profile under `profile`;
/// that a profile is not found; an internal error if the store failed.
pub fn get_profile_answer(found: Result<Option<serde_json::Value>, StoreFailure>) -> (r: Result<
    GeneralResponse,
    ApiError,
>)
    ensures
        match found {
            Ok(Some(profile)) => r matches Ok(answer) && spec_answers_with(
                answer,
                "profile"@,
                json_of(profile),
            ),
            Ok(None) => r matches Err(ApiError::NotFound(kind)) && kind@ == "profile"@,
            Err(_) => spec_internal(r),
        },
{
    match found {
        Ok(Some(profile)) => Ok(answer_with("profile", profile)),
        Ok(None) => Err(ApiError::NotFound("profile".to_owned())),
        Err(_) => Err(ApiError::InternalServerError),
    }
}

/// Where the request for a profile stands.
#[derive(Clone, Copy, Debug, PartialEq, Eq, Structural)]
pub enum ProfileState {
    /// The store is asked for the id of the user of that name.
    AwaitingUser,
    /// The store is asked for the profile of the user.
    AwaitingProfile,
    /// The answer is out.
    Finished,
}

/// What came back to the request for a profile.
#[derive(Debug)]
pub enum ProfileEvent {
    /// The id of the user of that name, if there is one.
    UserLookedUp(Option<u128>),
    /// The profile of the user, if there is one.
    ProfileLookedUp(Option<serde_json::Value>),
    /// The store failed.
    StoreFailed,
}

/// What the request for a profile asks for next.
#[derive(Debug)]
pub enum ProfileAction {
    /// Ask the store for the id of the user of this name.
    FindUser(String),
    /// Ask the store for the profile of this user.
    FindProfile(u128),
    /// Answer the request.
    Respond(Result<GeneralResponse, ApiError>),
}

/// One step of the request for a profile.
///
/// A username that no user has is refused as such; a user without a profile
/// is answered with a profile not found.  A failure of the store, and an
/// event that the state does not wait for, end in an internal error.
pub open spec fn spec_profile_stepped(
    state: ProfileState,
    event: ProfileEvent,
    next: ProfileState,
    action: ProfileAction,
) -> bool {
    match (state, event) {
        (ProfileState::AwaitingUser, ProfileEvent::UserLookedUp(Some(user_id))) => {
            &&& next is AwaitingProfile
            &&& action == ProfileAction::FindProfile(user_id)
        },
        (ProfileState::AwaitingUser, ProfileEvent::UserLookedUp(None)) => {
            &&& next is Finished
            &&& action matches ProfileAction::Respond(Err(ApiError::FailMsg(m)))
            &&& m@ == spec_no_user_message()
        },
        (ProfileState::AwaitingProfile, ProfileEvent::ProfileLookedUp(Some(profile))) => {
            &&& next is Finished
            &&& action matches ProfileAction::Respond(Ok(answer))
            &&& spec_answers_with(answer, "profile"@, json_of(profile))
        },
        (ProfileState::AwaitingProfile, ProfileEvent::ProfileLookedUp(None)) => {
            &&& next is Finished
            &&& action matches ProfileAction::Respond(Err(ApiError::NotFound(kind)))
            &&& kind@ == "profile"@
        },
        _ => next is Finished && action matches ProfileAction::Respond(
            Err(ApiError::InternalServerError),
        ),
    }
}

/// Begins the request for the profile of the user named in the path.
pub fn profile_start(username: &str) -> (r: (ProfileState, ProfileAction))
    ensures
        r.0 is AwaitingUser,
        r.1 matches ProfileAction::FindUser(asked) && asked@ == username@,
{
    (ProfileState::AwaitingUser, ProfileAction::FindUser(username.to_owned()))
}

/// Takes the request for a profile one step further.
pub fn profile_step(state: ProfileState, event: ProfileEvent) -> (r: (ProfileState, ProfileAction))
    ensures
        spec_profile_stepped(state, event, r.0, r.1),
{
    match (state, event) {
        (ProfileState::AwaitingUser, ProfileEvent::UserLookedUp(found)) => {
            match profile_owner(Ok(found)) {
                Ok(user_id) => (ProfileState::AwaitingProfile, ProfileAction::FindProfile(user_id)),
                Err(e) => (ProfileState::Finished, ProfileAction::Respond(Err(e))),
            }
        },
        (ProfileState::AwaitingProfile, ProfileEvent::ProfileLookedUp(found)) => (
            ProfileState::Finished,
            ProfileAction::Respond(get_profile_answer(Ok(found))),
        ),
        _ => (ProfileState::Finished, ProfileAction::Respond(Err(ApiError::InternalServerError))),
    }
}

} // verus!
