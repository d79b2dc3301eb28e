//! Reading, writing, deleting posts, and reacting to them.

use vstd::prelude::*;
use crate::handlers::{
    spec_answers_with, spec_answers_data, spec_answers_empty, spec_invalid, spec_internal,
    answer_with, listed_answer, stored_answer,
};
use crate::json::{
    Json, json_of, object_of, models, member_models, null_value, integer_value, text_value,
    object_value,
};
use crate::model::{StoreFailure, uuid_parsed, uuid_written, uuid_parse, uuid_text};
use crate::response::{ApiError, GeneralResponse, refusal, spec_refused};
use crate::schema::{CreatePostSchemaOptional, LikePostSchemaOptional};
use crate::session_auth::AuthenticatedIdentity;

verus! {

/// Turns the outcome of reading a post id into the caller's terms: the id,
/// or the refusal of the text as no UUID.
pub fn id_or_refusal(parsed: Result<u128, uuid::Error>) -> (r: Result<u128, ApiError>)
    ensures
        match parsed {
            Ok(id) => r == Ok::<u128, ApiError>(id),
            Err(_) => r is Err && spec_refused(r.err(), "post_id"@, "not a valid UUID"@),
        },
{
    match parsed {
        Ok(id) => Ok(id),
        Err(_) => Err(refusal("post_id", "not a valid UUID")),
    }
}

/// Reads the id of a post from the path of a request.
pub fn parse_post_id(raw: &str) -> (r: Result<u128, ApiError>)
    ensures
        match uuid_parsed(raw@) {
            Some(id) => r == Ok::<u128, ApiError>(id),
            None => r is Err && spec_refused(r.err(), "post_id"@, "not a valid UUID"@),
        },
{
    id_or_refusal(uuid_parse(raw))
}

/// The answer to the request for one post: the post under `post`; the
/// refusal that there is no such post; an internal error if the store failed.
pub fn get_post_answer(found: Result<Option<serde_json::Value>, StoreFailure>) -> (r: Result<
    GeneralResponse,
    ApiError,
>)
    ensures
        match found {
            Ok(Some(post)) => r matches Ok(answer) && spec_answers_with(
                answer,
                "post"@,
                json_of(post),
            ),
            Ok(None) => r is Err && spec_refused(r.err(), "post"@, "post doesnt exist"@),
            Err(_) => spec_internal(r),
        },
{
    match found {
        Ok(Some(post)) => Ok(answer_with("post", post)),
        Ok(None) => Err(refusal("post", "post doesnt exist")),
        Err(_) => Err(ApiError::InternalServerError),
    }
}

/// The answer to the request for all posts: the posts, newest first as the
/// store gave them, as a list under `posts`.
pub fn get_all_posts_answer(rows: Result<Vec<serde_json::Value>, StoreFailure>) -> (r: Result<
    GeneralResponse,
    ApiError,
>)
    ensures
        match rows {
            Ok(items) => r matches Ok(answer) && spec_answers_with(
                answer,
                "posts"@,
                Json::List(models(items@)),
            ),
            Err(_) => spec_internal(r),
        },
{
    listed_answer("posts", rows)
}

/// A post that is to be written.
#[derive(Clone, Debug, PartialEq, Eq)]
pub struct NewPost {
    pub user_id: u128,
    pub title: String,
    pub content: String,
}

/// What the admitted user's form asks the store to write: the post, under
/// the user's id; or the failures of the form.
pub fn create_post_request(
    identity: &AuthenticatedIdentity,
    form: CreatePostSchemaOptional,
) -> (r: Result<NewPost, ApiError>)
    ensures
        match r {
            Ok(post) => form.spec_valid() && post.user_id == identity.spec_user().id && form.title
                == Some(post.title) && form.content == Some(post.content),
            Err(e) => !form.spec_valid() && spec_invalid(e, form.spec_failures()),
        },
{
    match form.validate() {
        Err(set) => Err(ApiError::ValidationError(set)),
        Ok(()) => {
            match form.into_schema() {
                Ok(post) => {
                    let user_id = identity.user().id;
                    Ok(NewPost { user_id, title: post.title, content: post.content })
                },
                Err(e) => Err(e),
            }
        },
    }
}

/// What is said to a user who asks to delete a post of another.
pub open spec fn spec_not_owner_message() -> Seq<char> {
    "not authorized to delete post"@
}

/// Whether a user may delete a post, told who owns it: the owner may, and no
/// one else.  A post the store could not tell the owner of is an internal
/// error.
pub fn owner_check(user_id: u128, owner: Result<u128, StoreFailure>) -> (r: Result<(), ApiError>)
    ensures
        match owner {
            Ok(id) => if id == user_id {
                r is Ok
            } else {
                r matches Err(ApiError::FailMsg(m)) && m@ == spec_not_owner_message()
            },
            Err(_) => spec_internal(r),
        },
{
    match owner {
        Ok(id) => {
            if id == user_id {
                Ok(())
            } else {
                Err(ApiError::FailMsg("not authorized to delete post".to_owned()))
            }
        },
        Err(_) => Err(ApiError::InternalServerError),
    }
}

/// The reaction a form asks for: a like, or a dislike; or the failures of
/// the form.
pub fn reaction_request(form: &LikePostSchemaOptional) -> (r: Result<bool, ApiError>)
    ensures
        match r {
            Ok(like) => form.like == Some(like),
            Err(e) => form.like is None && spec_invalid(e, form.spec_failures()),
        },
{
    match form.validate() {
        Err(set) => Err(ApiError::ValidationError(set)),
        Ok(()) => {
            match form.like {
                Some(like) => Ok(like),
                None => Err(ApiError::InternalServerError),
            }
        },
    }
}

/// How a reaction is written: a user has at most one reaction to a post.
#[derive(Clone, Copy, Debug, PartialEq, Eq, Structural)]
pub enum ReactionWrite {
    /// The user has reacted to the post before: that reaction is changed.
    Update { reaction_id: u128, like: bool },
    /// The user has not: a reaction is added.
    Insert { like: bool },
}

/// Decides how a reaction is written, told the user's reaction to the post
/// so far.
pub fn reaction_write(existing: Result<Option<u128>, StoreFailure>, like: bool) -> (r: Result<
    ReactionWrite,
    ApiError,
>)
    ensures
        match existing {
            Ok(Some(reaction_id)) => r == Ok::<ReactionWrite, ApiError>(
                ReactionWrite::Update { reaction_id, like },
            ),
            Ok(None) => r == Ok::<ReactionWrite, ApiError>(ReactionWrite::Insert { like }),
            Err(_) => spec_internal(r),
        },
{
    match existing {
        Ok(Some(reaction_id)) => Ok(ReactionWrite::Update { reaction_id, like }),
        Ok(None) => Ok(ReactionWrite::Insert { like }),
        Err(_) => Err(ApiError::InternalServerError),
    }
}

/// A count as a document: the number, or `null` where the store gave none.
pub open spec fn spec_count(count: Option<i64>) -> Json {
    match count {
        Some(n) => Json::Integer(n as int),
        None => Json::Null,
    }
}

/// A count as a document.
pub fn count_value(count: Option<i64>) -> (v: serde_json::Value)
    ensures
        json_of(v) == spec_count(count),
{
    match count {
        Some(n) => integer_value(n),
        None => null_value(),
    }
}

/// The three keys of the answer to a reaction differ.
pub proof fn lemma_reaction_keys_differ()
    ensures
        "post_id"@ != "like_count"@,
        "post_id"@ != "dislike_count"@,
        "like_count"@ != "dislike_count"@,
{
    reveal_strlit("post_id");
    reveal_strlit("like_count");
    reveal_strlit("dislike_count");
    assert("post_id"@.len() == 7);
    assert("like_count"@.len() == 10);
    assert("dislike_count"@.len() == 13);
}

/// The data of the answer to a reaction: the post, by its id as text, and how
/// many like and dislike it now.
pub open spec fn spec_reaction_data(
    post_id: Seq<char>,
    likes: Option<i64>,
    dislikes: Option<i64>,
) -> Json {
    Json::Object(
        object_of(
            seq![
                ("post_id"@, Json::Text(post_id)),
                ("like_count"@, spec_count(likes)),
                ("dislike_count"@, spec_count(dislikes)),
            ],
        ),
    )
}

/// The data of the answer to a reaction.
pub fn reaction_data(post_id: &str, likes: Option<i64>, dislikes: Option<i64>) -> (v:
    serde_json::Value)
    ensures
        json_of(v) == spec_reaction_data(post_id@, likes, dislikes),
{
    let members = vec![
        ("post_id".to_owned(), text_value(post_id)),
        ("like_count".to_owned(), count_value(likes)),
        ("dislike_count".to_owned(), count_value(dislikes)),
    ];
    proof {
        lemma_reaction_keys_differ();
        assert(member_models(members@) =~= seq![
            ("post_id"@, Json::Text(post_id@)),
            ("like_count"@, spec_count(likes)),
            ("dislike_count"@, spec_count(dislikes)),
        ]);
    }
    object_value(members)
}

/// The answer to a reaction, told the counts of the post after the write.
pub fn reaction_answer(
    post_id: u128,
    counts: Result<(Option<i64>, Option<i64>), StoreFailure>,
) -> (r: Result<GeneralResponse, ApiError>)
    ensures
        match counts {
            Ok((likes, dislikes)) => r matches Ok(answer) && spec_answers_data(
                answer,
                spec_reaction_data(uuid_written(post_id), likes, dislikes),
            ),
            Err(_) => spec_internal(r),
        },
{
    match counts {
        Ok((likes, dislikes)) => {
            let id = uuid_text(post_id);
            Ok(GeneralResponse::success(Some(reaction_data(id.as_str(), likes, dislikes))))
        },
        Err(_) => Err(ApiError::InternalServerError),
    }
}

/// Where a reaction stands.
#[derive(Clone, Copy, Debug, PartialEq, Eq, Structural)]
pub enum ReactState {
    /// The store is asked for the user's reaction to the post so far.
    AwaitingReaction { post_id: u128, user_id: u128, like: bool },
    /// The store is asked to write the reaction.
    AwaitingWrite { post_id: u128 },
    /// The store is asked how many like and dislike the post.
    AwaitingCounts { post_id: u128 },
    /// The answer is out.
    Finished,
}

/// What came back to a reaction.
#[derive(Clone, Copy, Debug, PartialEq, Eq, Structural)]
pub enum ReactEvent {
    /// The id of the user's reaction to the post so far, if there is one.
    ReactionLookedUp(Option<u128>),
    /// The reaction is written.
    Written,
    /// How many like the post, and how many dislike it.
    Counted(Option<i64>, Option<i64>),
    /// The store failed.
    StoreFailed,
}

/// What a reaction asks for next.
#[derive(Debug)]
pub enum ReactAction {
    /// Ask the store for the user's reaction to the post.
    FindReaction { post_id: u128, user_id: u128 },
    /// Write the user's reaction to the post.
    Write { post_id: u128, user_id: u128, write: ReactionWrite },
    /// Ask the store how many like and dislike the post.
    CountReactions { post_id: u128 },
    /// Answer the request.
    Respond(Result<GeneralResponse, ApiError>),
}

impl ReactAction {
    /// What the action answers with, where it answers.
    pub open spec fn spec_answer(self) -> Option<Result<GeneralResponse, ApiError>> {
        match self {
            ReactAction::Respond(answer) => Some(answer),
            _ => None,
        }
    }
}

/// The request ends here, in an error of which `holds` is true.
pub open spec fn spec_ends_in<T>(
    answer: Option<Result<T, ApiError>>,
    holds: spec_fn(ApiError) -> bool,
) -> bool {
    answer matches Some(Err(e)) && holds(e)
}

/// The first step of a reaction: the form is held against its rule, then
/// the post id is read; then the store is asked for the reaction so far.
pub open spec fn spec_react_started(
    identity: AuthenticatedIdentity,
    raw_post_id: Seq<char>,
    form: LikePostSchemaOptional,
    state: ReactState,
    action: ReactAction,
) -> bool {
    match (form.like, uuid_parsed(raw_post_id)) {
        (None, _) => state is Finished && spec_ends_in(
            action.spec_answer(),
            |e: ApiError| spec_invalid(e, form.spec_failures()),
        ),
        (Some(_), None) => state is Finished && spec_ends_in(
            action.spec_answer(),
            |e: ApiError| spec_refused(Some(e), "post_id"@, "not a valid UUID"@),
        ),
        (Some(like), Some(post_id)) => {
            &&& state == ReactState::AwaitingReaction {
                post_id,
                user_id: identity.spec_user().id,
                like,
            }
            &&& action == ReactAction::FindReaction { post_id, user_id: identity.spec_user().id }
        },
    }
}

/// One step of a reaction.
///
/// A reaction the user already has is changed, else one is added.  The
/// counts are read after the write, and answered with the post.  A failure
/// of the store, and an event that the state does not wait for, end in an
/// internal error.
pub open spec fn spec_react_stepped(
    state: ReactState,
    event: ReactEvent,
    next: ReactState,
    action: ReactAction,
) -> bool {
    match (state, event) {
        (
            ReactState::AwaitingReaction { post_id, user_id, like },
            ReactEvent::ReactionLookedUp(existing),
        ) => {
            &&& next == ReactState::AwaitingWrite { post_id }
            &&& action == ReactAction::Write {
                post_id,
                user_id,
                write: match existing {
                    Some(reaction_id) => ReactionWrite::Update { reaction_id, like },
                    None => ReactionWrite::Insert { like },
                },
            }
        },
        (ReactState::AwaitingWrite { post_id }, ReactEvent::Written) => {
            &&& next == ReactState::AwaitingCounts { post_id }
            &&& action == ReactAction::CountReactions { post_id }
        },
        (ReactState::AwaitingCounts { post_id }, ReactEvent::Counted(likes, dislikes)) => {
            &&& next is Finished
            &&& action matches ReactAction::Respond(Ok(answer))
            &&& spec_answers_data(
                answer,
                spec_reaction_data(uuid_written(post_id), likes, dislikes),
            )
        },
        _ => next is Finished && spec_ends_in(
            action.spec_answer(),
            |e: ApiError| e is InternalServerError,
        ),
    }
}

/// Begins a reaction of the admitted user to the post named in the path.
pub fn react_start(
    identity: &AuthenticatedIdentity,
    raw_post_id: &str,
    form: &LikePostSchemaOptional,
) -> (r: (ReactState, ReactAction))
    ensures
        spec_react_started(*identity, raw_post_id@, *form, r.0, r.1),
{
    match reaction_request(form) {
        Err(e) => (ReactState::Finished, ReactAction::Respond(Err(e))),
        Ok(like) => {
            match parse_post_id(raw_post_id) {
                Err(e) => (ReactState::Finished, ReactAction::Respond(Err(e))),
                Ok(post_id) => {
                    let user_id = identity.user().id;
                    (
                        ReactState::AwaitingReaction { post_id, user_id, like },
                        ReactAction::FindReaction { post_id, user_id },
                    )
                },
            }
        },
    }
}

/// Takes a reaction one step further.
pub fn react_step(state: ReactState, event: ReactEvent) -> (r: (ReactState, ReactAction))
    ensures
        spec_react_stepped(state, event, r.0, r.1),
{
    match (state, event) {
        (
            ReactState::AwaitingReaction { post_id, user_id, like },
            ReactEvent::ReactionLookedUp(existing),
        ) => {
            match reaction_write(Ok(existing), like) {
                Ok(write) => (
                    ReactState::AwaitingWrite { post_id },
                    ReactAction::Write { post_id, user_id, write },
                ),
                Err(e) => (ReactState::Finished, ReactAction::Respond(Err(e))),
            }
        },
        (ReactState::AwaitingWrite { post_id }, ReactEvent::Written) => (
            ReactState::AwaitingCounts { post_id },
            ReactAction::CountReactions { post_id },
        ),
        (ReactState::AwaitingCounts { post_id }, ReactEvent::Counted(likes, dislikes)) => (
            ReactState::Finished,
            ReactAction::Respond(reaction_answer(post_id, Ok((likes, dislikes)))),
        ),
        _ => (ReactState::Finished, ReactAction::Respond(Err(ApiError::InternalServerError))),
    }
}

/// Where the deletion of a post stands.
#[derive(Clone, Copy, Debug, PartialEq, Eq, Structural)]
pub enum DeleteState {
    /// The store is asked who owns the post.
    AwaitingOwner { post_id: u128, user_id: u128 },
    /// The store is asked to delete the post.
    AwaitingDeletion,
    /// The answer is out.
    Finished,
}

/// What came back to a deletion.
#[derive(Clone, Copy, Debug, PartialEq, Eq, Structural)]
pub enum DeleteEvent {
    /// The id of the user who owns the post.
    OwnerFound(u128),
    /// The post is deleted.
    Deleted,
    /// The store failed, or it holds no such post.
    StoreFailed,
}

/// What a deletion asks for next.
#[derive(Debug)]
pub enum DeleteAction {
    /// Ask the store who owns the post.
    FindOwner { post_id: u128 },
    /// Delete the post.
    Delete { post_id: u128 },
    /// Answer the request.
    Respond(Result<GeneralResponse, ApiError>),
}

impl DeleteAction {
    /// What the action answers with, where it answers.
    pub open spec fn spec_answer(self) -> Option<Result<GeneralResponse, ApiError>> {
        match self {
            DeleteAction::Respond(answer) => Some(answer),
            _ => None,
        }
    }
}

/// The first step of a deletion: the post id is read, then the store is
/// asked for the owner.
pub open spec fn spec_delete_started(
    identity: AuthenticatedIdentity,
    raw_post_id: Seq<char>,
    state: DeleteState,
    action: DeleteAction,
) -> bool {
    match uuid_parsed(raw_post_id) {
        None => state is Finished && spec_ends_in(
            action.spec_answer(),
            |e: ApiError| spec_refused(Some(e), "post_id"@, "not a valid UUID"@),
        ),
        Some(post_id) => {
            &&& state == DeleteState::AwaitingOwner { post_id, user_id: identity.spec_user().id }
            &&& action == DeleteAction::FindOwner { post_id }
        },
    }
}

/// One step of a deletion.
///
/// The post is deleted only at the request of its owner; anyone else is
/// told that they are not authorized, and nothing is deleted.  A failure of
/// the store, and an event that the state does not wait for, end in an
/// internal error.
pub open spec fn spec_delete_stepped(
    state: DeleteState,
    event: DeleteEvent,
    next: DeleteState,
    action: DeleteAction,
) -> bool {
    match (state, event) {
        (DeleteState::AwaitingOwner { post_id, user_id }, DeleteEvent::OwnerFound(owner)) => {
            if owner == user_id {
                &&& next is AwaitingDeletion
                &&& action == DeleteAction::Delete { post_id }
            } else {
                &&& next is Finished
                &&& spec_ends_in(
                    action.spec_answer(),
                    |e: ApiError| e matches ApiError::FailMsg(m) && m@ == spec_not_owner_message(),
                )
            }
        },
        (DeleteState::AwaitingDeletion, DeleteEvent::Deleted) => {
            &&& next is Finished
            &&& action matches DeleteAction::Respond(Ok(answer))
            &&& spec_answers_empty(answer)
        },
        _ => next is Finished && spec_ends_in(
            action.spec_answer(),
            |e: ApiError| e is InternalServerError,
        ),
    }
}

/// Begins the deletion, by the admitted user, of the post named in the path.
pub fn delete_start(identity: &AuthenticatedIdentity, raw_post_id: &str) -> (r: (
    DeleteState,
    DeleteAction,
))
    ensures
        spec_delete_started(*identity, raw_post_id@, r.0, r.1),
{
    match parse_post_id(raw_post_id) {
        Err(e) => (DeleteState::Finished, DeleteAction::Respond(Err(e))),
        Ok(post_id) => (
            DeleteState::AwaitingOwner { post_id, user_id: identity.user().id },
            DeleteAction::FindOwner { post_id },
        ),
    }
}

/// Takes a deletion one step further.
pub fn delete_step(state: DeleteState, event: DeleteEvent) -> (r: (DeleteState, DeleteAction))
    ensures
        spec_delete_stepped(state, event, r.0, r.1),
{
    match (state, event) {
        (DeleteState::AwaitingOwner { post_id, user_id }, DeleteEvent::OwnerFound(owner)) => {
            match owner_check(user_id, Ok(owner)) {
                Ok(()) => (DeleteState::AwaitingDeletion, DeleteAction::Delete { post_id }),
                Err(e) => (DeleteState::Finished, DeleteAction::Respond(Err(e))),
            }
        },
        (DeleteState::AwaitingDeletion, DeleteEvent::Deleted) => (
            DeleteState::Finished,
            DeleteAction::Respond(stored_answer(Ok(()))),
        ),
        _ => (DeleteState::Finished, DeleteAction::Respond(Err(ApiError::InternalServerError))),
    }
}

/// No one but its owner gets a post deleted: a deletion asks the store to
/// delete only after the store named the requesting user as the owner.
pub proof fn lemma_delete_needs_owner(
    state: DeleteState,
    event: DeleteEvent,
    next: DeleteState,
    action: DeleteAction,
)
    requires
        spec_delete_stepped(state, event, next, action),
        action is Delete,
    ensures
        state matches DeleteState::AwaitingOwner { post_id, user_id } && event
            == DeleteEvent::OwnerFound(user_id) && action == (DeleteAction::Delete { post_id }),
{
}

} // verus!
