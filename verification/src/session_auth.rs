//! The session gate in front of the protected operations.
//!
//! For each request the session gate reads the session token, asks the
//! session store for the user id kept under it, asks the store for that user,
//! and either attaches the user to the request and lets it through or turns
//! it away.  It reads and decides; it writes to neither store.  Sessions are
//! made by a login and ended by a logout.

use vstd::prelude::*;
use crate::model::User;
use crate::response::{ApiError, Status};

verus! {

/// The key under which a session keeps the id of its user.
pub fn session_key() -> (key: &'static str)
    ensures
        key@ == "user_id"@,
{
    "user_id"
}

/// Why the session gate turns a request away.
#[derive(Clone, Copy, Debug, PartialEq, Eq, Structural)]
pub enum Rejection {
    /// No session, or none that leads to a user.
    Unauthorized,
    /// The store failed.
    Internal,
}

impl Rejection {
    /// The error a rejection is answered with.
    pub open spec fn spec_error(self) -> ApiError {
        match self {
            Rejection::Unauthorized => ApiError::Unauthorized,
            Rejection::Internal => ApiError::InternalServerError,
        }
    }

    /// The error a rejection is answered with.
    pub fn into_error(self) -> (e: ApiError)
        ensures
            e == self.spec_error(),
    {
        match self {
            Rejection::Unauthorized => ApiError::Unauthorized,
            Rejection::Internal => ApiError::InternalServerError,
        }
    }
}

/// What the session store says of a token.
#[derive(Clone, Copy, Debug, PartialEq, Eq, Structural)]
pub enum SessionLookup {
    /// The session is live and keeps this user id.
    Found(u128),
    /// There is no such session, or it has expired, or it keeps no user id.
    Missing,
    /// The session store failed.
    Failed,
}

/// What the store says of a user id.
#[derive(Clone, Debug, PartialEq, Eq)]
pub enum UserLookup {
    /// The user with that id.
    Found(User),
    /// There is no user with that id.
    Missing,
    /// The store failed.
    Failed,
}

/// The user a request was admitted as.
///
/// Only the session gate makes one, from the user the store gave for the
/// session of the request; a handler reads it and cannot change it.
#[derive(Clone, Debug, PartialEq, Eq)]
pub struct AuthenticatedIdentity {
    user: User,
}

/// The identity of a request admitted as `user`.
pub closed spec fn spec_identity(user: User) -> AuthenticatedIdentity {
    AuthenticatedIdentity { user }
}

impl AuthenticatedIdentity {
    /// The user the request was admitted as.
    pub closed spec fn spec_user(self) -> User {
        self.user
    }

    /// The user the request was admitted as.
    pub fn user(&self) -> (user: &User)
        ensures
            *user == self.spec_user(),
    {
        &self.user
    }

    /// The identity is the user it was made from, and nothing else.
    pub proof fn lemma_identity_is_its_user(user: User)
        ensures
            spec_identity(user).spec_user() == user,
    {
    }
}

/// Where the session gate stands with a request.
#[derive(Debug, PartialEq, Eq)]
pub enum GateState {
    /// Nothing is known of the request yet.
    NoToken,
    /// The request came with a session token.
    TokenPresent { token: String },
    /// The session keeps a user id.
    SessionResolved { user_id: u128 },
    /// The store holds the user.
    UserLoaded { user: User },
    /// The request goes on, as this user.
    Admitted { identity: AuthenticatedIdentity },
    /// The request is turned away.
    Rejected { reason: Rejection },
}

impl GateState {
    /// The error a request that was turned away is answered with.
    pub open spec fn spec_answer(self) -> Option<ApiError> {
        match self {
            GateState::Rejected { reason } => Some(reason.spec_error()),
            _ => None,
        }
    }
}

/// What came back to the session gate.
#[derive(Debug, PartialEq, Eq)]
pub enum GateEvent {
    /// The session token of the request, if it has one.
    TokenRead(Option<String>),
    /// The session store's answer.
    SessionLookedUp(SessionLookup),
    /// The store's answer.
    UserLookedUp(UserLookup),
    /// The user is attached to the request.
    IdentityAttached,
}

/// What the session gate asks for next.
#[derive(Debug, PartialEq, Eq)]
pub enum GateAction {
    /// Ask the session store for the user id kept under this token.
    LookUpSession(String),
    /// Ask the store for the user with this id.
    LoadUser(u128),
    /// Attach this identity to the request, for the handler to read.
    AttachIdentity(AuthenticatedIdentity),
    /// Hand the request to the handler.
    Proceed,
    /// Answer the request with this rejection; the handler is not reached.
    Reject(Rejection),
}

impl GateAction {
    /// The action lets the request reach the handler.
    pub open spec fn spec_reaches_handler(self) -> bool {
        self is Proceed
    }
}

/// The session gate turns the request away.
pub open spec fn spec_turned_away(reason: Rejection) -> (GateState, GateAction) {
    (GateState::Rejected { reason }, GateAction::Reject(reason))
}

/// One step of the session gate.
///
/// A request without a token is unauthorized.  So is one whose token the
/// session store does not know, or could not look up, and one whose session
/// names a user the store does not hold: the three are answered alike.  A
/// failure of the store on loading the user is an internal error, and so is
/// an event that the state does not wait for.  A request that was admitted
/// or turned away stays so.
pub open spec fn spec_gate_step(state: GateState, event: GateEvent) -> (GateState, GateAction) {
    match (state, event) {
        (GateState::NoToken, GateEvent::TokenRead(Some(token))) => (
            GateState::TokenPresent { token },
            GateAction::LookUpSession(token),
        ),
        (GateState::NoToken, GateEvent::TokenRead(None)) => spec_turned_away(
            Rejection::Unauthorized,
        ),
        (
            GateState::TokenPresent { token },
            GateEvent::SessionLookedUp(SessionLookup::Found(user_id)),
        ) => (GateState::SessionResolved { user_id }, GateAction::LoadUser(user_id)),
        (GateState::TokenPresent { token }, GateEvent::SessionLookedUp(_)) => spec_turned_away(
            Rejection::Unauthorized,
        ),
        (
            GateState::SessionResolved { user_id },
            GateEvent::UserLookedUp(UserLookup::Found(user)),
        ) => (GateState::UserLoaded { user }, GateAction::AttachIdentity(spec_identity(user))),
        (
            GateState::SessionResolved { user_id },
            GateEvent::UserLookedUp(UserLookup::Missing),
        ) => spec_turned_away(Rejection::Unauthorized),
        (GateState::UserLoaded { user }, GateEvent::IdentityAttached) => (
            GateState::Admitted { identity: spec_identity(user) },
            GateAction::Proceed,
        ),
        (GateState::Admitted { identity }, _) => (
            GateState::Admitted { identity },
            GateAction::Proceed,
        ),
        (GateState::Rejected { reason }, _) => spec_turned_away(reason),
        _ => spec_turned_away(Rejection::Internal),
    }
}

/// The session gate turns the request away.
pub fn turned_away(reason: Rejection) -> (r: (GateState, GateAction))
    ensures
        r == spec_turned_away(reason),
{
    (GateState::Rejected { reason }, GateAction::Reject(reason))
}

/// Takes the session gate one step further.
pub fn gate_step(state: GateState, event: GateEvent) -> (r: (GateState, GateAction))
    ensures
        r == spec_gate_step(state, event),
{
    match (state, event) {
        (GateState::NoToken, GateEvent::TokenRead(Some(token))) => {
            let asked = token.clone();
            (GateState::TokenPresent { token }, GateAction::LookUpSession(asked))
        },
        (GateState::NoToken, GateEvent::TokenRead(None)) => turned_away(Rejection::Unauthorized),
        (
            GateState::TokenPresent { token },
            GateEvent::SessionLookedUp(SessionLookup::Found(user_id)),
        ) => (GateState::SessionResolved { user_id }, GateAction::LoadUser(user_id)),
        (GateState::TokenPresent { token }, GateEvent::SessionLookedUp(_)) => turned_away(
            Rejection::Unauthorized,
        ),
        (
            GateState::SessionResolved { user_id },
            GateEvent::UserLookedUp(UserLookup::Found(user)),
        ) => {
            let identity = AuthenticatedIdentity { user: user.copy() };
            (GateState::UserLoaded { user }, GateAction::AttachIdentity(identity))
        },
        (
            GateState::SessionResolved { user_id },
            GateEvent::UserLookedUp(UserLookup::Missing),
        ) => turned_away(Rejection::Unauthorized),
        (GateState::UserLoaded { user }, GateEvent::IdentityAttached) => (
            GateState::Admitted { identity: AuthenticatedIdentity { user } },
            GateAction::Proceed,
        ),
        (GateState::Admitted { identity }, _) => (
            GateState::Admitted { identity },
            GateAction::Proceed,
        ),
        (GateState::Rejected { reason }, _) => turned_away(reason),
        _ => turned_away(Rejection::Internal),
    }
}

/// The way of the session gate through one request, the session store and
/// the store answering as given: where the request ends.
pub open spec fn spec_gate_run(
    token: Option<String>,
    sessions: spec_fn(String) -> SessionLookup,
    users: spec_fn(u128) -> UserLookup,
) -> GateState {
    let first = spec_gate_step(GateState::NoToken, GateEvent::TokenRead(token));
    match first.1 {
        GateAction::LookUpSession(asked) => {
            let second = spec_gate_step(first.0, GateEvent::SessionLookedUp(sessions(asked)));
            match second.1 {
                GateAction::LoadUser(user_id) => {
                    let third = spec_gate_step(second.0, GateEvent::UserLookedUp(users(user_id)));
                    match third.1 {
                        GateAction::AttachIdentity(_) => spec_gate_step(
                            third.0,
                            GateEvent::IdentityAttached,
                        ).0,
                        _ => third.0,
                    }
                },
                _ => second.0,
            }
        },
        _ => first.0,
    }
}

/// A request without a session token never reaches the handler: whatever
/// the stores hold, it is turned away as unauthorized, which is answered
/// with HTTP 401 and a `fail` envelope.
pub proof fn lemma_no_token_is_unauthorized(
    sessions: spec_fn(String) -> SessionLookup,
    users: spec_fn(u128) -> UserLookup,
)
    ensures
        spec_gate_step(GateState::NoToken, GateEvent::TokenRead(None)) == spec_turned_away(
            Rejection::Unauthorized,
        ),
        !spec_gate_step(GateState::NoToken, GateEvent::TokenRead(None)).1.spec_reaches_handler(),
        spec_gate_run(None, sessions, users) == (GateState::Rejected {
            reason: Rejection::Unauthorized,
        }),
        spec_gate_run(None, sessions, users).spec_answer() == Some(ApiError::Unauthorized),
        ApiError::Unauthorized.spec_status_code() == 401,
        ApiError::Unauthorized.spec_status() == Status::Fail,
{
}

/// A token that leads nowhere looks like no token.  Whether the session is
/// unknown, could not be looked up, or names a user the store does not hold,
/// the request ends exactly as one without a token does, in the same answer
/// with HTTP 401, so that the answer tells a client nothing about which
/// sessions or users exist.
pub proof fn lemma_dead_token_is_like_none(
    token: String,
    sessions: spec_fn(String) -> SessionLookup,
    users: spec_fn(u128) -> UserLookup,
)
    requires
        sessions(token) matches SessionLookup::Found(user_id) ==> users(user_id) is Missing,
    ensures
        spec_gate_run(Some(token), sessions, users) == spec_gate_run(None, sessions, users),
        spec_gate_run(Some(token), sessions, users) == (GateState::Rejected {
            reason: Rejection::Unauthorized,
        }),
        spec_gate_run(Some(token), sessions, users).spec_answer() == Some(ApiError::Unauthorized),
{
}

/// A live session whose user the store holds is admitted as that user, on
/// every run: the session gate asks and never writes, so a second run meets
/// the stores as the first left them and ends as the first did.
pub proof fn lemma_live_session_is_admitted(
    token: String,
    sessions: spec_fn(String) -> SessionLookup,
    users: spec_fn(u128) -> UserLookup,
    user_id: u128,
    user: User,
)
    requires
        sessions(token) == SessionLookup::Found(user_id),
        users(user_id) == UserLookup::Found(user),
    ensures
        spec_gate_run(Some(token), sessions, users) == (GateState::Admitted {
            identity: spec_identity(user),
        }),
        spec_gate_run(Some(token), sessions, users) matches GateState::Admitted { identity }
            && identity.spec_user() == user,
{
}

/// Admitted are exactly the requests whose token names a live session of a
/// user the store holds; every other request is turned away.
pub proof fn lemma_admitted_only_with_session(
    token: Option<String>,
    sessions: spec_fn(String) -> SessionLookup,
    users: spec_fn(u128) -> UserLookup,
)
    ensures
        spec_gate_run(token, sessions, users) is Admitted <==> (token matches Some(t) && sessions(
            t,
        ) matches SessionLookup::Found(user_id) && users(user_id) is Found),
        spec_gate_run(token, sessions, users) is Admitted || spec_gate_run(
            token,
            sessions,
            users,
        ) is Rejected,
{
}

/// How far the session gate has come with a request.
pub open spec fn spec_progress(state: GateState) -> nat {
    match state {
        GateState::NoToken => 0,
        GateState::TokenPresent { .. } => 1,
        GateState::SessionResolved { .. } => 2,
        GateState::UserLoaded { .. } => 3,
        GateState::Admitted { .. } => 4,
        GateState::Rejected { .. } => 4,
    }
}

/// Every step takes an undecided request further, so a request is decided
/// after four steps at most.  The session store is asked only as the first
/// step and the store only as the second: each is asked once at most, the
/// session store before the store, and nothing is asked again.
pub proof fn lemma_gate_makes_progress(state: GateState, event: GateEvent)
    ensures
        spec_progress(state) < 4 ==> spec_progress(spec_gate_step(state, event).0) > spec_progress(
            state,
        ),
        spec_progress(state) == 4 ==> spec_gate_step(state, event).0 == state,
        spec_gate_step(state, event).1 is LookUpSession ==> state is NoToken,
        spec_gate_step(state, event).1 is LoadUser ==> state is TokenPresent,
        spec_gate_step(state, event).1 is Proceed ==> spec_gate_step(state, event).0 is Admitted,
        spec_gate_step(state, event).1 is Reject ==> spec_gate_step(state, event).0 is Rejected,
{
}

} // verus!
