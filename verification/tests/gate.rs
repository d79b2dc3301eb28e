use session_gate::model::User;
use session_gate::response::Status;
use session_gate::session_auth::{
    gate_step, session_key, turned_away, AuthenticatedIdentity, GateAction, GateEvent, GateState,
    Rejection, SessionLookup, UserLookup,
};

fn alice() -> User {
    User {
        id: 7,
        username: "alice".to_string(),
        email: "alice@example.com".to_string(),
        password_hash: "$argon2id$stored".to_string(),
    }
}

fn identity_of(state: &GateState) -> &AuthenticatedIdentity {
    match state {
        GateState::Admitted { identity } => identity,
        other => panic!("not admitted: {:?}", other),
    }
}

fn look_up_session(sessions: &[(&str, u128)], token: &str) -> SessionLookup {
    for (known, user_id) in sessions {
        if *known == token {
            return SessionLookup::Found(*user_id);
        }
    }
    SessionLookup::Missing
}

fn look_up_user(users: &[User], user_id: u128) -> UserLookup {
    for user in users {
        if user.id == user_id {
            return UserLookup::Found(user.clone());
        }
    }
    UserLookup::Missing
}

fn run(token: Option<&str>, sessions: &[(&str, u128)], users: &[User]) -> GateState {
    let (mut state, mut action) =
        gate_step(GateState::NoToken, GateEvent::TokenRead(token.map(|t| t.to_string())));
    loop {
        let event = match action {
            GateAction::LookUpSession(asked) => {
                GateEvent::SessionLookedUp(look_up_session(sessions, &asked))
            }
            GateAction::LoadUser(user_id) => GateEvent::UserLookedUp(look_up_user(users, user_id)),
            GateAction::AttachIdentity(_) => GateEvent::IdentityAttached,
            GateAction::Proceed | GateAction::Reject(_) => return state,
        };
        let next = gate_step(state, event);
        state = next.0;
        action = next.1;
    }
}

#[test]
fn session_keeps_the_user_under_user_id() {
    assert_eq!(session_key(), "user_id");
}

#[test]
fn request_without_token_is_unauthorized() {
    let (state, action) = gate_step(GateState::NoToken, GateEvent::TokenRead(None));
    assert_eq!(state, GateState::Rejected { reason: Rejection::Unauthorized });
    assert_eq!(action, GateAction::Reject(Rejection::Unauthorized));
    let reply = Rejection::Unauthorized.into_error().into_response();
    assert_eq!(reply.status_code, 401);
    assert_eq!(reply.body, "{\"data\":{\"message\":\"not authorized\"},\"status\":\"fail\"}");
    assert_eq!(Rejection::Unauthorized.into_error().status(), Status::Fail);
}

#[test]
fn request_without_token_never_reaches_the_handler() {
    let users = vec![alice()];
    let end = run(None, &[("tok", 7)], &users);
    assert_eq!(end, GateState::Rejected { reason: Rejection::Unauthorized });
}

#[test]
fn token_is_looked_up_in_the_session_store() {
    let (state, action) =
        gate_step(GateState::NoToken, GateEvent::TokenRead(Some("tok".to_string())));
    assert_eq!(state, GateState::TokenPresent { token: "tok".to_string() });
    assert_eq!(action, GateAction::LookUpSession("tok".to_string()));
}

#[test]
fn unknown_session_is_unauthorized() {
    let state = GateState::TokenPresent { token: "tok".to_string() };
    let (state, action) = gate_step(state, GateEvent::SessionLookedUp(SessionLookup::Missing));
    assert_eq!(state, GateState::Rejected { reason: Rejection::Unauthorized });
    assert_eq!(action, GateAction::Reject(Rejection::Unauthorized));
}

#[test]
fn failing_session_store_is_unauthorized() {
    let state = GateState::TokenPresent { token: "tok".to_string() };
    let (state, action) = gate_step(state, GateEvent::SessionLookedUp(SessionLookup::Failed));
    assert_eq!(state, GateState::Rejected { reason: Rejection::Unauthorized });
    assert_eq!(action, GateAction::Reject(Rejection::Unauthorized));
}

#[test]
fn resolved_session_loads_its_user() {
    let state = GateState::TokenPresent { token: "tok".to_string() };
    let (state, action) = gate_step(state, GateEvent::SessionLookedUp(SessionLookup::Found(7)));
    assert_eq!(state, GateState::SessionResolved { user_id: 7 });
    assert_eq!(action, GateAction::LoadUser(7));
}

#[test]
fn session_of_a_deleted_user_is_unauthorized() {
    let state = GateState::SessionResolved { user_id: 7 };
    let (state, action) = gate_step(state, GateEvent::UserLookedUp(UserLookup::Missing));
    assert_eq!(state, GateState::Rejected { reason: Rejection::Unauthorized });
    assert_eq!(action, GateAction::Reject(Rejection::Unauthorized));
}

#[test]
fn dead_token_is_answered_like_no_token() {
    let users = vec![alice()];
    let none = run(None, &[("tok", 7)], &users);
    let unknown = run(Some("other"), &[("tok", 7)], &users);
    let orphaned = run(Some("tok"), &[("tok", 8)], &users);
    assert_eq!(unknown, none);
    assert_eq!(orphaned, none);
    let replies: Vec<_> = vec![none, unknown, orphaned]
        .into_iter()
        .map(|state| match state {
            GateState::Rejected { reason } => reason.into_error().into_response(),
            other => panic!("admitted: {:?}", other),
        })
        .collect();
    assert_eq!(replies[0].status_code, 401);
    assert_eq!(replies[1].status_code, replies[0].status_code);
    assert_eq!(replies[2].status_code, replies[0].status_code);
    assert_eq!(replies[1].body, replies[0].body);
    assert_eq!(replies[2].body, replies[0].body);
}

#[test]
fn failing_store_is_an_internal_error() {
    let state = GateState::SessionResolved { user_id: 7 };
    let (state, action) = gate_step(state, GateEvent::UserLookedUp(UserLookup::Failed));
    assert_eq!(state, GateState::Rejected { reason: Rejection::Internal });
    assert_eq!(action, GateAction::Reject(Rejection::Internal));
    assert_eq!(Rejection::Internal.into_error().into_response().status_code, 500);
}

#[test]
fn loaded_user_is_attached_then_admitted() {
    let state = GateState::SessionResolved { user_id: 7 };
    let (state, action) = gate_step(state, GateEvent::UserLookedUp(UserLookup::Found(alice())));
    assert_eq!(state, GateState::UserLoaded { user: alice() });
    match action {
        GateAction::AttachIdentity(ref identity) => assert_eq!(identity.user(), &alice()),
        ref other => panic!("{:?}", other),
    }
    let (state, action) = gate_step(state, GateEvent::IdentityAttached);
    assert_eq!(identity_of(&state).user(), &alice());
    assert_eq!(action, GateAction::Proceed);
}

#[test]
fn live_session_is_admitted_on_every_run() {
    let users = vec![alice()];
    let sessions = [("tok", 7)];
    let first = run(Some("tok"), &sessions, &users);
    let second = run(Some("tok"), &sessions, &users);
    assert_eq!(identity_of(&first).user(), &alice());
    assert_eq!(second, first);
}

#[test]
fn event_out_of_turn_is_an_internal_error() {
    let (state, action) = gate_step(GateState::NoToken, GateEvent::IdentityAttached);
    assert_eq!(state, GateState::Rejected { reason: Rejection::Internal });
    assert_eq!(action, GateAction::Reject(Rejection::Internal));
    let (state, _) = gate_step(
        GateState::TokenPresent { token: "tok".to_string() },
        GateEvent::UserLookedUp(UserLookup::Found(alice())),
    );
    assert_eq!(state, GateState::Rejected { reason: Rejection::Internal });
    let (state, _) =
        gate_step(GateState::UserLoaded { user: alice() }, GateEvent::TokenRead(None));
    assert_eq!(state, GateState::Rejected { reason: Rejection::Internal });
}

#[test]
fn decided_request_stays_decided() {
    let admitted = run(Some("tok"), &[("tok", 7)], &[alice()]);
    let (state, action) = gate_step(admitted, GateEvent::TokenRead(None));
    assert_eq!(identity_of(&state).user(), &alice());
    assert_eq!(action, GateAction::Proceed);
    let (state, action) = gate_step(
        GateState::Rejected { reason: Rejection::Unauthorized },
        GateEvent::SessionLookedUp(SessionLookup::Found(7)),
    );
    assert_eq!(state, GateState::Rejected { reason: Rejection::Unauthorized });
    assert_eq!(action, GateAction::Reject(Rejection::Unauthorized));
    assert_eq!(
        turned_away(Rejection::Internal),
        (GateState::Rejected { reason: Rejection::Internal }, GateAction::Reject(Rejection::Internal))
    );
}

#[test]
fn copy_of_a_user_is_the_user() {
    assert_eq!(alice().copy(), alice());
}

#[test]
fn request_is_decided_within_four_steps() {
    let users = vec![alice()];
    let cases: Vec<(Option<&str>, Vec<(&str, u128)>)> = vec![
        (None, vec![]),
        (Some("tok"), vec![]),
        (Some("tok"), vec![("tok", 8)]),
        (Some("tok"), vec![("tok", 7)]),
    ];
    for (token, sessions) in cases {
        let mut steps = 1;
        let mut session_lookups = 0;
        let mut user_lookups = 0;
        let (mut state, mut action) =
            gate_step(GateState::NoToken, GateEvent::TokenRead(token.map(|t| t.to_string())));
        loop {
            let event = match action {
                GateAction::LookUpSession(asked) => {
                    session_lookups += 1;
                    assert_eq!(user_lookups, 0);
                    GateEvent::SessionLookedUp(look_up_session(&sessions, &asked))
                }
                GateAction::LoadUser(user_id) => {
                    user_lookups += 1;
                    GateEvent::UserLookedUp(look_up_user(&users, user_id))
                }
                GateAction::AttachIdentity(_) => GateEvent::IdentityAttached,
                GateAction::Proceed | GateAction::Reject(_) => break,
            };
            let next = gate_step(state, event);
            state = next.0;
            action = next.1;
            steps += 1;
        }
        assert!(steps <= 4);
        assert!(session_lookups <= 1);
        assert!(user_lookups <= 1);
        assert!(matches!(state, GateState::Admitted { .. } | GateState::Rejected { .. }));
    }
}
