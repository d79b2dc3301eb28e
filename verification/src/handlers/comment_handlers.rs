//! Reading the comments of a post, and commenting.

use vstd::prelude::*;
use crate::handlers::{spec_answers_with, spec_invalid, spec_internal, listed_answer};
use crate::json::{Json, models};
use crate::model::StoreFailure;
use crate::response::{ApiError, GeneralResponse};
use crate::schema::CommentSchemaOptional;
use crate::session_auth::AuthenticatedIdentity;

verus! {

/// The answer to the request for the comments of a post: the comments,
/// newest first as the store gave them, as a list under `comments`.
pub fn get_comments_answer(rows: Result<Vec<serde_json::Value>, StoreFailure>) -> (r: Result<
    GeneralResponse,
    ApiError,
>)
    ensures
        match rows {
            Ok(items) => r matches Ok(answer) && spec_answers_with(
                answer,
                "comments"@,
                Json::List(models(items@)),
            ),
            Err(_) => spec_internal(r),
        },
{
    listed_answer("comments", rows)
}

/// A comment that is to be written.
#[derive(Clone, Debug, PartialEq, Eq)]
pub struct NewComment {
    pub content: String,
    pub user_id: u128,
    pub post_id: u128,
}

/// What the admitted user's form asks the store to write: the comment on the
/// post, under the user's id; or the failures of the form.
pub fn comment_request(
    identity: &AuthenticatedIdentity,
    post_id: u128,
    form: CommentSchemaOptional,
) -> (r: Result<NewComment, ApiError>)
    ensures
        match r {
            Ok(comment) => form.spec_valid() && comment.user_id == identity.spec_user().id
                && comment.post_id == post_id && form.content == Some(comment.content),
            Err(e) => !form.spec_valid() && spec_invalid(e, form.spec_failures()),
        },
{
    match form.validate() {
        Err(set) => Err(ApiError::ValidationError(set)),
        Ok(()) => {
            match form.content {
                Some(content) => Ok(NewComment { content, user_id: identity.user().id, post_id }),
                None => Err(ApiError::InternalServerError),
            }
        },
    }
}

} // verus!
