use serde_json::Value;
use session_gate::handlers::comment_handlers::{comment_request, get_comments_answer, NewComment};
use session_gate::handlers::post_handlers::{
    count_value, create_post_request, delete_start, delete_step, get_all_posts_answer,
    get_post_answer, id_or_refusal, owner_check, parse_post_id, react_start, react_step,
    reaction_answer, reaction_data, reaction_request, reaction_write, DeleteAction, DeleteEvent,
    DeleteState, NewPost, ReactAction, ReactEvent, ReactState, ReactionWrite,
};
use session_gate::handlers::profile_handlers::{
    get_profile_answer, profile_owner, profile_start, profile_step, ProfileAction, ProfileEvent,
    ProfileState,
};
use session_gate::handlers::user_handlers::get_all_users_answer;
use session_gate::handlers::{answer_with, listed_answer, stored_answer};
use session_gate::model::{StoreFailure, User};
use session_gate::response::ApiError;
use session_gate::route::{operations, Method, Operation};
use session_gate::schema::{CommentSchemaOptional, CreatePostSchemaOptional, LikePostSchemaOptional};
use session_gate::session_auth::{
    gate_step, AuthenticatedIdentity, GateAction, GateEvent, GateState, SessionLookup, UserLookup,
};

/// Alice, as a request of hers is admitted.
fn alice() -> AuthenticatedIdentity {
    let user = User {
        id: 7,
        username: "alice".to_string(),
        email: "alice@example.com".to_string(),
        password_hash: String::new(),
    };
    let (state, _) = gate_step(GateState::NoToken, GateEvent::TokenRead(Some("tok".to_string())));
    let (state, _) = gate_step(state, GateEvent::SessionLookedUp(SessionLookup::Found(7)));
    let (state, _) = gate_step(state, GateEvent::UserLookedUp(UserLookup::Found(user)));
    match gate_step(state, GateEvent::IdentityAttached) {
        (GateState::Admitted { identity }, GateAction::Proceed) => identity,
        other => panic!("{:?}", other),
    }
}

fn text(value: &str) -> Value {
    Value::String(value.to_string())
}

fn body_of(error: ApiError) -> (u16, String) {
    let reply = error.into_response();
    (reply.status_code, reply.body)
}

#[test]
fn post_id_is_read_as_a_uuid() {
    let id = parse_post_id("550e8400-e29b-41d4-a716-446655440000").unwrap();
    assert_eq!(id, 0x550e8400_e29b_41d4_a716_446655440000u128);
    let id = parse_post_id("550e8400e29b41d4a716446655440000").unwrap();
    assert_eq!(id, 0x550e8400_e29b_41d4_a716_446655440000u128);
}

#[test]
fn post_id_that_is_no_uuid_is_refused() {
    let (code, body) = body_of(parse_post_id("seven").unwrap_err());
    assert_eq!(code, 200);
    assert_eq!(body, "{\"data\":{\"post_id\":\"not a valid UUID\"},\"status\":\"fail\"}");
    assert!(parse_post_id("").is_err());
    assert!(matches!(id_or_refusal(Ok(5)), Ok(5)));
    let unreadable = uuid::Uuid::parse_str("seven").unwrap_err();
    let (_, body) = body_of(id_or_refusal(Err(unreadable)).unwrap_err());
    assert_eq!(body, "{\"data\":{\"post_id\":\"not a valid UUID\"},\"status\":\"fail\"}");
}

#[test]
fn found_post_is_answered_under_post() {
    let answer = get_post_answer(Ok(Some(text("the post")))).unwrap();
    assert_eq!(answer.body_text(), "{\"status\":\"success\",\"data\":{\"post\":\"the post\"}}");
}

#[test]
fn missing_post_is_refused() {
    let (code, body) = body_of(get_post_answer(Ok(None)).unwrap_err());
    assert_eq!(code, 200);
    assert_eq!(body, "{\"data\":{\"post\":\"post doesnt exist\"},\"status\":\"fail\"}");
    assert!(matches!(get_post_answer(Err(StoreFailure)), Err(ApiError::InternalServerError)));
}

#[test]
fn posts_are_listed_in_the_order_given() {
    let answer = get_all_posts_answer(Ok(vec![text("newest"), text("older")])).unwrap();
    assert_eq!(answer.body_text(), "{\"status\":\"success\",\"data\":{\"posts\":[\"newest\",\"older\"]}}");
    let answer = get_all_posts_answer(Ok(Vec::new())).unwrap();
    assert_eq!(answer.body_text(), "{\"status\":\"success\",\"data\":{\"posts\":[]}}");
    assert!(matches!(get_all_posts_answer(Err(StoreFailure)), Err(ApiError::InternalServerError)));
}

#[test]
fn comments_and_users_are_listed_under_their_keys() {
    let answer = get_comments_answer(Ok(vec![text("first")])).unwrap();
    assert_eq!(answer.body_text(), "{\"status\":\"success\",\"data\":{\"comments\":[\"first\"]}}");
    let answer = get_all_users_answer(Ok(vec![text("alice"), text("bob")])).unwrap();
    assert_eq!(answer.body_text(), "{\"status\":\"success\",\"data\":{\"users\":[\"alice\",\"bob\"]}}");
    assert!(matches!(get_comments_answer(Err(StoreFailure)), Err(ApiError::InternalServerError)));
    assert!(matches!(get_all_users_answer(Err(StoreFailure)), Err(ApiError::InternalServerError)));
    let answer = listed_answer("things", Ok(vec![Value::Bool(true)])).unwrap();
    assert_eq!(answer.body_text(), "{\"status\":\"success\",\"data\":{\"things\":[true]}}");
    let answer = answer_with("thing", Value::Null);
    assert_eq!(answer.body_text(), "{\"status\":\"success\",\"data\":{\"thing\":null}}");
}

#[test]
fn write_is_answered_with_empty_data() {
    let answer = stored_answer(Ok(())).unwrap();
    assert_eq!(answer.body_text(), "{\"status\":\"success\",\"data\":[]}");
    assert!(matches!(stored_answer(Err(StoreFailure)), Err(ApiError::InternalServerError)));
}

#[test]
fn valid_post_is_written_under_the_user() {
    let form = CreatePostSchemaOptional {
        title: Some("Hello".to_string()),
        content: Some("World".to_string()),
    };
    let post = create_post_request(&alice(), form).unwrap();
    assert_eq!(post, NewPost { user_id: 7, title: "Hello".to_string(), content: "World".to_string() });
}

#[test]
fn invalid_post_is_answered_with_its_failures() {
    let form = CreatePostSchemaOptional { title: None, content: Some("World".to_string()) };
    let (code, body) = body_of(create_post_request(&alice(), form).unwrap_err());
    assert_eq!(code, 200);
    assert_eq!(body, "{\"data\":{\"title\":\"title is required\"},\"status\":\"fail\"}");
}

#[test]
fn only_the_owner_deletes_a_post() {
    assert!(owner_check(7, Ok(7)).is_ok());
    let (code, body) = body_of(owner_check(7, Ok(8)).unwrap_err());
    assert_eq!(code, 200);
    assert_eq!(body, "{\"data\":{\"message\":\"not authorized to delete post\"},\"status\":\"fail\"}");
    assert!(matches!(owner_check(7, Err(StoreFailure)), Err(ApiError::InternalServerError)));
}

#[test]
fn owner_deletes_the_post() {
    let (state, action) = delete_start(&alice(), "00000000-0000-0000-0000-000000000063");
    assert_eq!(state, DeleteState::AwaitingOwner { post_id: 99, user_id: 7 });
    assert!(matches!(action, DeleteAction::FindOwner { post_id: 99 }));
    let (state, action) = delete_step(state, DeleteEvent::OwnerFound(7));
    assert_eq!(state, DeleteState::AwaitingDeletion);
    assert!(matches!(action, DeleteAction::Delete { post_id: 99 }));
    let (state, action) = delete_step(state, DeleteEvent::Deleted);
    assert_eq!(state, DeleteState::Finished);
    match action {
        DeleteAction::Respond(Ok(answer)) => {
            assert_eq!(answer.body_text(), "{\"status\":\"success\",\"data\":[]}")
        }
        other => panic!("{:?}", other),
    }
}

#[test]
fn post_of_another_is_not_deleted() {
    let (state, _) = delete_start(&alice(), "00000000-0000-0000-0000-000000000063");
    let (state, action) = delete_step(state, DeleteEvent::OwnerFound(8));
    assert_eq!(state, DeleteState::Finished);
    match action {
        DeleteAction::Respond(Err(error)) => {
            let (code, body) = body_of(error);
            assert_eq!(code, 200);
            assert_eq!(
                body,
                "{\"data\":{\"message\":\"not authorized to delete post\"},\"status\":\"fail\"}"
            );
        }
        other => panic!("{:?}", other),
    }
}

#[test]
fn deletion_ends_on_a_bad_id_or_a_failing_store() {
    let (state, action) = delete_start(&alice(), "ninety-nine");
    assert_eq!(state, DeleteState::Finished);
    match action {
        DeleteAction::Respond(Err(error)) => {
            let (_, body) = body_of(error);
            assert_eq!(body, "{\"data\":{\"post_id\":\"not a valid UUID\"},\"status\":\"fail\"}");
        }
        other => panic!("{:?}", other),
    }
    let waiting = DeleteState::AwaitingOwner { post_id: 99, user_id: 7 };
    let (state, action) = delete_step(waiting, DeleteEvent::StoreFailed);
    assert_eq!(state, DeleteState::Finished);
    assert!(matches!(action, DeleteAction::Respond(Err(ApiError::InternalServerError))));
    let (_, action) = delete_step(waiting, DeleteEvent::Deleted);
    assert!(matches!(action, DeleteAction::Respond(Err(ApiError::InternalServerError))));
    let (_, action) = delete_step(DeleteState::AwaitingDeletion, DeleteEvent::StoreFailed);
    assert!(matches!(action, DeleteAction::Respond(Err(ApiError::InternalServerError))));
}

#[test]
fn reaction_runs_from_lookup_to_counts() {
    let form = LikePostSchemaOptional { like: Some(true) };
    let (state, action) = react_start(&alice(), "00000000-0000-0000-0000-000000000063", &form);
    assert_eq!(state, ReactState::AwaitingReaction { post_id: 99, user_id: 7, like: true });
    assert!(matches!(action, ReactAction::FindReaction { post_id: 99, user_id: 7 }));
    let (state, action) = react_step(state, ReactEvent::ReactionLookedUp(None));
    assert_eq!(state, ReactState::AwaitingWrite { post_id: 99 });
    assert!(matches!(
        action,
        ReactAction::Write { post_id: 99, user_id: 7, write: ReactionWrite::Insert { like: true } }
    ));
    let (state, action) = react_step(state, ReactEvent::Written);
    assert_eq!(state, ReactState::AwaitingCounts { post_id: 99 });
    assert!(matches!(action, ReactAction::CountReactions { post_id: 99 }));
    let (state, action) = react_step(state, ReactEvent::Counted(Some(1), Some(0)));
    assert_eq!(state, ReactState::Finished);
    match action {
        ReactAction::Respond(Ok(answer)) => assert_eq!(
            answer.body_text(),
            "{\"status\":\"success\",\"data\":{\"dislike_count\":0,\"like_count\":1,\"post_id\":\"00000000-0000-0000-0000-000000000063\"}}"
        ),
        other => panic!("{:?}", other),
    }
}

#[test]
fn earlier_reaction_is_updated_in_the_run() {
    let waiting = ReactState::AwaitingReaction { post_id: 99, user_id: 7, like: false };
    let (_, action) = react_step(waiting, ReactEvent::ReactionLookedUp(Some(5)));
    assert!(matches!(
        action,
        ReactAction::Write {
            post_id: 99,
            user_id: 7,
            write: ReactionWrite::Update { reaction_id: 5, like: false }
        }
    ));
}

#[test]
fn reaction_form_is_held_before_the_post_id_is_read() {
    let (state, action) = react_start(&alice(), "ninety-nine", &LikePostSchemaOptional { like: None });
    assert_eq!(state, ReactState::Finished);
    match action {
        ReactAction::Respond(Err(error)) => {
            let (_, body) = body_of(error);
            assert_eq!(body, "{\"data\":{\"like\":\"like status is required\"},\"status\":\"fail\"}");
        }
        other => panic!("{:?}", other),
    }
    let (_, action) = react_start(&alice(), "ninety-nine", &LikePostSchemaOptional { like: Some(true) });
    match action {
        ReactAction::Respond(Err(error)) => {
            let (_, body) = body_of(error);
            assert_eq!(body, "{\"data\":{\"post_id\":\"not a valid UUID\"},\"status\":\"fail\"}");
        }
        other => panic!("{:?}", other),
    }
}

#[test]
fn reaction_ends_on_a_failing_store() {
    let states = vec![
        ReactState::AwaitingReaction { post_id: 99, user_id: 7, like: true },
        ReactState::AwaitingWrite { post_id: 99 },
        ReactState::AwaitingCounts { post_id: 99 },
    ];
    for state in states {
        let (next, action) = react_step(state, ReactEvent::StoreFailed);
        assert_eq!(next, ReactState::Finished);
        assert!(matches!(action, ReactAction::Respond(Err(ApiError::InternalServerError))));
    }
    let (_, action) = react_step(ReactState::AwaitingWrite { post_id: 99 }, ReactEvent::Counted(None, None));
    assert!(matches!(action, ReactAction::Respond(Err(ApiError::InternalServerError))));
}

#[test]
fn reaction_data_names_post_and_counts() {
    assert_eq!(
        reaction_data("the-post", Some(2), None).to_string(),
        "{\"dislike_count\":null,\"like_count\":2,\"post_id\":\"the-post\"}"
    );
}

#[test]
fn profile_is_looked_up_through_the_user() {
    let (state, action) = profile_start("alice");
    assert_eq!(state, ProfileState::AwaitingUser);
    assert!(matches!(action, ProfileAction::FindUser(ref name) if name == "alice"));
    let (state, action) = profile_step(state, ProfileEvent::UserLookedUp(Some(7)));
    assert_eq!(state, ProfileState::AwaitingProfile);
    assert!(matches!(action, ProfileAction::FindProfile(7)));
    let (state, action) = profile_step(state, ProfileEvent::ProfileLookedUp(Some(text("bio"))));
    assert_eq!(state, ProfileState::Finished);
    match action {
        ProfileAction::Respond(Ok(answer)) => {
            assert_eq!(answer.body_text(), "{\"status\":\"success\",\"data\":{\"profile\":\"bio\"}}")
        }
        other => panic!("{:?}", other),
    }
}

#[test]
fn profile_of_nobody_and_user_without_profile_are_refused() {
    let (state, action) = profile_step(ProfileState::AwaitingUser, ProfileEvent::UserLookedUp(None));
    assert_eq!(state, ProfileState::Finished);
    match action {
        ProfileAction::Respond(Err(error)) => {
            let (_, body) = body_of(error);
            assert_eq!(body, "{\"data\":{\"message\":\"User not found\"},\"status\":\"fail\"}");
        }
        other => panic!("{:?}", other),
    }
    let (_, action) = profile_step(ProfileState::AwaitingProfile, ProfileEvent::ProfileLookedUp(None));
    match action {
        ProfileAction::Respond(Err(error)) => {
            let (_, body) = body_of(error);
            assert_eq!(body, "{\"data\":{\"profile\":\"profile not found\"},\"status\":\"fail\"}");
        }
        other => panic!("{:?}", other),
    }
    let (_, action) = profile_step(ProfileState::AwaitingUser, ProfileEvent::StoreFailed);
    assert!(matches!(action, ProfileAction::Respond(Err(ApiError::InternalServerError))));
    let (_, action) = profile_step(ProfileState::AwaitingProfile, ProfileEvent::UserLookedUp(Some(1)));
    assert!(matches!(action, ProfileAction::Respond(Err(ApiError::InternalServerError))));
}

#[test]
fn reaction_is_asked_for_by_the_form() {
    assert_eq!(reaction_request(&LikePostSchemaOptional { like: Some(true) }).unwrap(), true);
    assert_eq!(reaction_request(&LikePostSchemaOptional { like: Some(false) }).unwrap(), false);
    let (code, body) = body_of(reaction_request(&LikePostSchemaOptional { like: None }).unwrap_err());
    assert_eq!(code, 200);
    assert_eq!(body, "{\"data\":{\"like\":\"like status is required\"},\"status\":\"fail\"}");
}

#[test]
fn earlier_reaction_is_changed_and_none_is_added() {
    assert_eq!(
        reaction_write(Ok(Some(11)), false).unwrap(),
        ReactionWrite::Update { reaction_id: 11, like: false }
    );
    assert_eq!(reaction_write(Ok(None), true).unwrap(), ReactionWrite::Insert { like: true });
    assert!(matches!(reaction_write(Err(StoreFailure), true), Err(ApiError::InternalServerError)));
}

#[test]
fn reaction_is_answered_with_the_counts() {
    let answer =
        reaction_answer(0x550e8400_e29b_41d4_a716_446655440000u128, Ok((Some(3), Some(0)))).unwrap();
    assert_eq!(
        answer.body_text(),
        "{\"status\":\"success\",\"data\":{\"dislike_count\":0,\"like_count\":3,\"post_id\":\"550e8400-e29b-41d4-a716-446655440000\"}}"
    );
    let answer = reaction_answer(1, Ok((None, Some(-2)))).unwrap();
    assert_eq!(
        answer.body_text(),
        "{\"status\":\"success\",\"data\":{\"dislike_count\":-2,\"like_count\":null,\"post_id\":\"00000000-0000-0000-0000-000000000001\"}}"
    );
    assert!(matches!(reaction_answer(1, Err(StoreFailure)), Err(ApiError::InternalServerError)));
    assert_eq!(count_value(Some(12)), Value::from(12));
    assert_eq!(count_value(None), Value::Null);
}

#[test]
fn valid_comment_is_written_under_user_and_post() {
    let form = CommentSchemaOptional { content: Some("nice".to_string()) };
    let comment = comment_request(&alice(), 99, form).unwrap();
    assert_eq!(comment, NewComment { content: "nice".to_string(), user_id: 7, post_id: 99 });
}

#[test]
fn invalid_comment_is_answered_with_its_failure() {
    let (_, body) = body_of(comment_request(&alice(), 99, CommentSchemaOptional { content: None }).unwrap_err());
    assert_eq!(body, "{\"data\":{\"content\":\"content is required\"},\"status\":\"fail\"}");
    let form = CommentSchemaOptional { content: Some(String::new()) };
    let (_, body) = body_of(comment_request(&alice(), 99, form).unwrap_err());
    assert_eq!(body, "{\"data\":{\"content\":\"title is required\"},\"status\":\"fail\"}");
}

#[test]
fn profile_is_found_through_its_user() {
    assert_eq!(profile_owner(Ok(Some(7))).unwrap(), 7);
    let (code, body) = body_of(profile_owner(Ok(None)).unwrap_err());
    assert_eq!(code, 200);
    assert_eq!(body, "{\"data\":{\"message\":\"User not found\"},\"status\":\"fail\"}");
    assert!(matches!(profile_owner(Err(StoreFailure)), Err(ApiError::InternalServerError)));
}

#[test]
fn profile_is_answered_under_profile() {
    let answer = get_profile_answer(Ok(Some(text("the profile")))).unwrap();
    assert_eq!(answer.body_text(), "{\"status\":\"success\",\"data\":{\"profile\":\"the profile\"}}");
    let (code, body) = body_of(get_profile_answer(Ok(None)).unwrap_err());
    assert_eq!(code, 200);
    assert_eq!(body, "{\"data\":{\"profile\":\"profile not found\"},\"status\":\"fail\"}");
    assert!(matches!(get_profile_answer(Err(StoreFailure)), Err(ApiError::InternalServerError)));
}

#[test]
fn writing_operations_ask_for_a_session() {
    let protected: Vec<Operation> =
        operations().into_iter().filter(|op| op.is_protected()).collect();
    assert_eq!(
        protected,
        vec![
            Operation::CreatePost,
            Operation::DeletePost,
            Operation::ReactToPost,
            Operation::Logout,
            Operation::LoginStatus,
            Operation::Comment,
        ]
    );
    assert!(!Operation::Login.is_protected());
    assert!(!Operation::Register.is_protected());
    assert!(!Operation::GetPost.is_protected());
}

#[test]
fn every_operation_has_its_route() {
    assert_eq!(operations().len(), 13);
    assert_eq!(Operation::CreatePost.method(), Method::Post);
    assert_eq!(Operation::CreatePost.path(), "/posts");
    assert_eq!(Operation::GetAllPosts.method(), Method::Get);
    assert_eq!(Operation::GetAllPosts.path(), "/posts");
    assert_eq!(Operation::DeletePost.method(), Method::Delete);
    assert_eq!(Operation::DeletePost.path(), "/posts/:post_id");
    assert_eq!(Operation::GetPost.method(), Method::Get);
    assert_eq!(Operation::GetPost.path(), "/posts/:post_id");
    assert_eq!(Operation::ReactToPost.path(), "/posts/:post_id/react");
    assert_eq!(Operation::Comment.method(), Method::Post);
    assert_eq!(Operation::GetComments.method(), Method::Get);
    assert_eq!(Operation::Comment.path(), Operation::GetComments.path());
    assert_eq!(Operation::Logout.path(), "/auth/logout");
    assert_eq!(Operation::LoginStatus.path(), "/auth/status");
    assert_eq!(Operation::Login.path(), "/auth/login");
    assert_eq!(Operation::Register.path(), "/auth/register");
    assert_eq!(Operation::GetProfile.path(), "/user/:username");
    assert_eq!(Operation::GetAllUsers.path(), "/users");
}
