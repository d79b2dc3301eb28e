//! The decisions of the request handlers.
//!
//! A handler waits on the store and on the session store between its
//! decisions.  Here each handler is the sequence of its decisions alone: it
//! is told what came back, and says what is to be done or answered next.

use vstd::prelude::*;
use crate::json::{Json, json_of, object_of, models, list_value, single_member_value};
use crate::model::StoreFailure;
use crate::response::{ApiError, GeneralResponse, Status};

pub mod auth_handlers;
pub mod comment_handlers;
pub mod post_handlers;
pub mod profile_handlers;
pub mod user_handlers;

verus! {

/// The answer is a success whose data is the object with the one member
/// given.
pub open spec fn spec_answers_with(answer: GeneralResponse, key: Seq<char>, value: Json) -> bool {
    &&& answer.status == Status::Success
    &&& answer.data matches Some(data)
    &&& json_of(data) == Json::Object(object_of(seq![(key, value)]))
}

/// The answer is a success with the data given.
pub open spec fn spec_answers_data(answer: GeneralResponse, data: Json) -> bool {
    &&& answer.status == Status::Success
    &&& answer.data matches Some(v)
    &&& json_of(v) == data
}

/// The error hands a form back with the failures given.
pub open spec fn spec_invalid(e: ApiError, failures: Map<Seq<char>, Seq<char>>) -> bool {
    e matches ApiError::ValidationError(set) && set@ == failures
}

/// The answer is a success without data.
pub open spec fn spec_answers_empty(answer: GeneralResponse) -> bool {
    answer.status == Status::Success && answer.data is None
}

/// The request ends in an internal error.
pub open spec fn spec_internal<T>(r: Result<T, ApiError>) -> bool {
    r matches Err(e) && e is InternalServerError
}

/// A success whose data is the object with the one member given.
pub fn answer_with(key: &str, value: serde_json::Value) -> (answer: GeneralResponse)
    ensures
        spec_answers_with(answer, key@, json_of(value)),
{
    GeneralResponse::success(Some(single_member_value(key.to_owned(), value)))
}

/// The answer to a write: success without data once the store has done it,
/// an internal error if the store failed.
pub fn stored_answer(stored: Result<(), StoreFailure>) -> (r: Result<GeneralResponse, ApiError>)
    ensures
        match stored {
            Ok(()) => r matches Ok(answer) && spec_answers_empty(answer),
            Err(_) => spec_internal(r),
        },
{
    match stored {
        Ok(()) => Ok(GeneralResponse::success(None)),
        Err(_) => Err(ApiError::InternalServerError),
    }
}

/// The answer to a listing: the rows, in the order the store gave them, as
/// a list under the key; an internal error if the store failed.
pub fn listed_answer(key: &str, rows: Result<Vec<serde_json::Value>, StoreFailure>) -> (r: Result<
    GeneralResponse,
    ApiError,
>)
    ensures
        match rows {
            Ok(items) => r matches Ok(answer) && spec_answers_with(
                answer,
                key@,
                Json::List(models(items@)),
            ),
            Err(_) => spec_internal(r),
        },
{
    match rows {
        Ok(items) => Ok(answer_with(key, list_value(items))),
        Err(_) => Err(ApiError::InternalServerError),
    }
}

} // verus!
