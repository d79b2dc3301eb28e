//! Listing the users.

use vstd::prelude::*;
use crate::handlers::{spec_answers_with, spec_internal, listed_answer};
use crate::json::{Json, models};
use crate::model::StoreFailure;
use crate::response::{ApiError, GeneralResponse};

verus! {

/// The answer to the request for all users: the users, as the store gave
/// them, as a list under `users`.
pub fn get_all_users_answer(rows: Result<Vec<serde_json::Value>, StoreFailure>) -> (r: Result<
    GeneralResponse,
    ApiError,
>)
    ensures
        match rows {
            Ok(items) => r matches Ok(answer) && spec_answers_with(
                answer,
                "users"@,
                Json::List(models(items@)),
            ),
            Err(_) => spec_internal(r),
        },
{
    listed_answer("users", rows)
}

} // verus!
