//! Registration, login, logout and the login status.

use vstd::prelude::*;
use crate::credential::{argon2_phc, argon2_accepts, hash_password, verify_password, spec_hashed};
use crate::json::{
    Json, json_of, object_of, text_value, bool_value, single_member_value, two_member_value,
};
use crate::model::{
    User, NewUser, NewProfile, ascii_lowercase, spec_ascii_lowercase, spec_default_profile_image,
};
use crate::response::{
    ApiError, GeneralResponse, Status, refusal, spec_refused,
};
use crate::schema::{
    RegisterUserSchema, RegisterUserSchemaOptional, LoginUserSchema, LoginUserSchemaOptional,
    lemma_account_fields_differ,
};
use crate::session_auth::AuthenticatedIdentity;
use crate::validation::{ValidationFailureSet, spec_noted};

verus! {

/// Where a registration stands.
#[derive(Debug)]
pub enum RegisterState {
    /// The store is asked whether the username is taken.
    AwaitingUsernameCheck { form: RegisterUserSchema },
    /// The store is asked whether the e-mail address is taken.
    AwaitingEmailCheck { form: RegisterUserSchema, username_taken: bool },
    /// The store is asked to create the user and its profile.
    AwaitingCreation,
    /// The answer is out.
    Finished,
}

/// Why the store refused to create a user: what the user was to have is
/// another user's already.
#[derive(Clone, Copy, Debug, PartialEq, Eq, Structural)]
pub enum Conflict {
    /// Another user has the username.
    Username,
    /// Another user has the e-mail address.
    Email,
    /// Another user has the username, and one has the e-mail address.
    Both,
}

impl Conflict {
    /// Another user has the username.
    pub open spec fn spec_username_taken(self) -> bool {
        self != Conflict::Email
    }

    /// Another user has the e-mail address.
    pub open spec fn spec_email_taken(self) -> bool {
        self != Conflict::Username
    }

    /// Whether another user has the username.
    pub fn username_taken(&self) -> (taken: bool)
        ensures
            taken == self.spec_username_taken(),
    {
        match self {
            Conflict::Email => false,
            _ => true,
        }
    }

    /// Whether another user has the e-mail address.
    pub fn email_taken(&self) -> (taken: bool)
        ensures
            taken == self.spec_email_taken(),
    {
        match self {
            Conflict::Username => false,
            _ => true,
        }
    }
}

/// What came back to a registration.
#[derive(Debug)]
pub enum RegisterEvent {
    /// Whether a user has the username; `None` where the store gave no row.
    UsernameChecked(Option<bool>),
    /// Whether a user has the e-mail address; `None` where the store gave no
    /// row.
    EmailChecked(Option<bool>),
    /// User and profile are in the store; the id is the user's.
    Created(u128),
    /// The store refused the write, because a user that was written since
    /// the lookups has the username or the e-mail address; nothing was
    /// written.
    Conflicted(Conflict),
    /// The store failed; nothing was written.
    StoreFailed,
}

/// What a registration asks for next.
#[derive(Debug)]
pub enum RegisterAction {
    /// Ask the store whether a user has this username.
    CheckUsername(String),
    /// Ask the store whether a user has this e-mail address.  The address is
    /// in lower case, as the store keeps it.
    CheckEmail(String),
    /// Create the user and its profile as one write: both, or neither.
    CreateUserAndProfile { user: NewUser, profile: NewProfile },
    /// Answer the request.
    Respond(Result<GeneralResponse, ApiError>),
}

/// The request is answered with an internal error.
pub open spec fn spec_ends_internal(action_error: Option<ApiError>) -> bool {
    action_error matches Some(e) && e is InternalServerError
}

impl RegisterAction {
    /// The error the action answers with, where it answers with one.
    pub open spec fn spec_error(self) -> Option<ApiError> {
        match self {
            RegisterAction::Respond(Err(e)) => Some(e),
            _ => None,
        }
    }

    /// The action writes to the store.
    pub open spec fn spec_writes(self) -> bool {
        self is CreateUserAndProfile
    }
}

/// Whether a lookup said that a row is there.  No row is no.
pub open spec fn spec_taken(found: Option<bool>) -> bool {
    found == Some(true)
}

/// The conflicts of a registration with the accounts in the store, by field.
pub open spec fn spec_conflicts(username_taken: bool, email_taken: bool) -> Map<
    Seq<char>,
    Seq<char>,
> {
    spec_noted(
        spec_noted(
            Map::empty(),
            "username"@,
            if username_taken {
                Some("username already exists"@)
            } else {
                None
            },
        ),
        "email"@,
        if email_taken {
            Some("email already exists"@)
        } else {
            None
        },
    )
}

/// The first step of a registration: the form fails its rules and is
/// answered with the failures, or the store is asked about the username.
pub open spec fn spec_register_started(
    form: RegisterUserSchemaOptional,
    state: RegisterState,
    action: RegisterAction,
) -> bool {
    if form.spec_valid() {
        &&& state matches RegisterState::AwaitingUsernameCheck { form: complete }
        &&& form.username == Some(complete.username)
        &&& form.email == Some(complete.email)
        &&& form.password == Some(complete.password)
        &&& action == RegisterAction::CheckUsername(complete.username)
    } else {
        &&& state is Finished
        &&& action matches RegisterAction::Respond(Err(ApiError::ValidationError(set)))
        &&& set@ == form.spec_failures()
    }
}

/// What follows the hashing of the password: with a hash, the one write that
/// creates the user, its e-mail address in lower case, with the profile a
/// user starts with; without, an internal error.
pub open spec fn spec_creation_planned(
    form: RegisterUserSchema,
    phc: Option<Seq<char>>,
    state: RegisterState,
    action: RegisterAction,
) -> bool {
    match phc {
        Some(text) => {
            &&& state is AwaitingCreation
            &&& action matches RegisterAction::CreateUserAndProfile { user, profile }
            &&& user.username == form.username
            &&& user.email@ == spec_ascii_lowercase(form.email@)
            &&& user.password_hash@ == text
            &&& profile.profile_image@ == spec_default_profile_image()
            &&& profile.bio@ == Seq::<char>::empty()
        },
        None => state is Finished && spec_ends_internal(action.spec_error()),
    }
}

/// The refusal of a registration that conflicts with an account: a `fail`
/// whose data names each conflict under its field.
pub open spec fn spec_conflict_refused(
    error: Option<ApiError>,
    username_taken: bool,
    email_taken: bool,
) -> bool {
    &&& error matches Some(ApiError::Fail(detail))
    &&& json_of(detail) == Json::Object(
        spec_conflicts(username_taken, email_taken).map_values(|m: Seq<char>| Json::Text(m)),
    )
}

/// One step of a registration.
///
/// Both lookups are made before anything is decided, the one for the e-mail
/// address with the address in lower case, as it would be stored.  If either
/// found an account, the request is refused with the conflicts and nothing
/// is written.  Otherwise the password is hashed, with a salt of its own, and
/// the store is asked for the one write.  Success is answered once the store
/// has confirmed that write.  If the store refuses the write because another
/// registration took the username or the e-mail address in the meantime,
/// the request is refused with that conflict, as it would have been at the
/// lookup.  Any other failure of the store, at any point, and an event that
/// the state does not wait for, end in an internal error.
pub open spec fn spec_register_stepped(
    state: RegisterState,
    event: RegisterEvent,
    next: RegisterState,
    action: RegisterAction,
) -> bool {
    match (state, event) {
        (RegisterState::AwaitingUsernameCheck { form }, RegisterEvent::UsernameChecked(found)) => {
            &&& next == RegisterState::AwaitingEmailCheck {
                form,
                username_taken: spec_taken(found),
            }
            &&& action matches RegisterAction::CheckEmail(asked)
            &&& asked@ == spec_ascii_lowercase(form.email@)
        },
        (
            RegisterState::AwaitingEmailCheck { form, username_taken },
            RegisterEvent::EmailChecked(found),
        ) => {
            if username_taken || spec_taken(found) {
                &&& next is Finished
                &&& spec_conflict_refused(action.spec_error(), username_taken, spec_taken(found))
            } else {
                exists|salt: Seq<char>|
                    spec_creation_planned(
                        form,
                        #[trigger] argon2_phc(form.password@, salt),
                        next,
                        action,
                    )
            }
        },
        (RegisterState::AwaitingCreation, RegisterEvent::Created(_)) => {
            &&& next is Finished
            &&& action matches RegisterAction::Respond(Ok(answer))
            &&& answer.status == Status::Success
            &&& answer.data is None
        },
        (RegisterState::AwaitingCreation, RegisterEvent::Conflicted(conflict)) => {
            &&& next is Finished
            &&& spec_conflict_refused(
                action.spec_error(),
                conflict.spec_username_taken(),
                conflict.spec_email_taken(),
            )
        },
        _ => next is Finished && spec_ends_internal(action.spec_error()),
    }
}

/// Begins a registration with the form as it was sent.
pub fn register_start(form: RegisterUserSchemaOptional) -> (r: (RegisterState, RegisterAction))
    ensures
        spec_register_started(form, r.0, r.1),
{
    match form.validate() {
        Err(set) => (
            RegisterState::Finished,
            RegisterAction::Respond(Err(ApiError::ValidationError(set))),
        ),
        Ok(()) => {
            match form.into_schema() {
                Ok(complete) => {
                    let username = complete.username.clone();
                    (
                        RegisterState::AwaitingUsernameCheck { form: complete },
                        RegisterAction::CheckUsername(username),
                    )
                },
                Err(e) => (RegisterState::Finished, RegisterAction::Respond(Err(e))),
            }
        },
    }
}

/// The refusal of a registration that conflicts with an account.
pub fn conflict_error(username_taken: bool, email_taken: bool) -> (e: ApiError)
    ensures
        spec_conflict_refused(Some(e), username_taken, email_taken),
{
    let mut fails = ValidationFailureSet::new();
    if username_taken {
        fails.record("username", "username already exists");
    }
    if email_taken {
        fails.record("email", "email already exists");
    }
    proof {
        lemma_account_fields_differ();
    }
    ApiError::Fail(fails.to_value())
}

/// Decides what follows the hashing of the password.
pub fn plan_creation(form: RegisterUserSchema, hashed: Result<String, ApiError>) -> (r: (
    RegisterState,
    RegisterAction,
))
    ensures
        match hashed {
            Ok(text) => spec_creation_planned(form, Some(text@), r.0, r.1),
            Err(_) => spec_creation_planned(form, None, r.0, r.1),
        },
{
    match hashed {
        Ok(password_hash) => {
            let email = ascii_lowercase(form.email.as_str());
            let user = NewUser { username: form.username, email, password_hash };
            (
                RegisterState::AwaitingCreation,
                RegisterAction::CreateUserAndProfile { user, profile: NewProfile::initial() },
            )
        },
        Err(_) => (
            RegisterState::Finished,
            RegisterAction::Respond(Err(ApiError::InternalServerError)),
        ),
    }
}

/// Takes a registration one step further.
pub fn register_step(state: RegisterState, event: RegisterEvent) -> (r: (
    RegisterState,
    RegisterAction,
))
    ensures
        spec_register_stepped(state, event, r.0, r.1),
{
    match (state, event) {
        (RegisterState::AwaitingUsernameCheck { form }, RegisterEvent::UsernameChecked(found)) => {
            let email = ascii_lowercase(form.email.as_str());
            let username_taken = found == Some(true);
            (
                RegisterState::AwaitingEmailCheck { form, username_taken },
                RegisterAction::CheckEmail(email),
            )
        },
        (
            RegisterState::AwaitingEmailCheck { form, username_taken },
            RegisterEvent::EmailChecked(found),
        ) => {
            let email_taken = found == Some(true);
            if username_taken || email_taken {
                (
                    RegisterState::Finished,
                    RegisterAction::Respond(Err(conflict_error(username_taken, email_taken))),
                )
            } else {
                let hashed = hash_password(form.password.as_str());
                let ghost salt = choose|salt: Seq<char>|
                    spec_hashed(#[trigger] argon2_phc(form.password@, salt), hashed);
                let r = plan_creation(form, hashed);
                assert(spec_creation_planned(form, argon2_phc(form.password@, salt), r.0, r.1));
                r
            }
        },
        (RegisterState::AwaitingCreation, RegisterEvent::Created(_)) => (
            RegisterState::Finished,
            RegisterAction::Respond(Ok(GeneralResponse::success(None))),
        ),
        (RegisterState::AwaitingCreation, RegisterEvent::Conflicted(conflict)) => (
            RegisterState::Finished,
            RegisterAction::Respond(
                Err(conflict_error(conflict.username_taken(), conflict.email_taken())),
            ),
        ),
        _ => (RegisterState::Finished, RegisterAction::Respond(Err(ApiError::InternalServerError))),
    }
}

/// Where a login stands.
#[derive(Debug)]
pub enum LoginState {
    /// The store is asked for the user of that name.
    AwaitingUser { form: LoginUserSchema },
    /// The session store is asked to keep the user's id.
    AwaitingSession { username: String },
    /// The answer is out.
    Finished,
}

/// What came back to a login.
#[derive(Debug)]
pub enum LoginEvent {
    /// The user of that name, or that there is none.
    UserLookedUp(Option<User>),
    /// The session holds the user's id.
    SessionStored,
    /// The store or the session store failed.
    StoreFailed,
}

/// What a login asks for next.
#[derive(Debug)]
pub enum LoginAction {
    /// Ask the store for the user of this name.
    FindUser(String),
    /// Keep this user id in the session.
    StoreSession(u128),
    /// Answer the request.
    Respond(Result<GeneralResponse, ApiError>),
}

impl LoginAction {
    /// The error the action answers with, where it answers with one.
    pub open spec fn spec_error(self) -> Option<ApiError> {
        match self {
            LoginAction::Respond(Err(e)) => Some(e),
            _ => None,
        }
    }
}

/// The first step of a login: the form fails its rules and is answered with
/// the failures, or the store is asked for the user.
pub open spec fn spec_login_started(
    form: LoginUserSchemaOptional,
    state: LoginState,
    action: LoginAction,
) -> bool {
    if form.spec_valid() {
        &&& state matches LoginState::AwaitingUser { form: complete }
        &&& form.username == Some(complete.username)
        &&& form.password == Some(complete.password)
        &&& action == LoginAction::FindUser(complete.username)
    } else {
        &&& state is Finished
        &&& action matches LoginAction::Respond(Err(ApiError::ValidationError(set)))
        &&& set@ == form.spec_failures()
    }
}

/// What follows the check of the password against the user's hash: a session
/// for that user, or the refusal of the password.  No session is asked for
/// unless the password was verified.
pub open spec fn spec_password_checked(
    form: LoginUserSchema,
    user: User,
    verified: bool,
    next: LoginState,
    action: LoginAction,
) -> bool {
    if verified {
        &&& next == LoginState::AwaitingSession { username: form.username }
        &&& action == LoginAction::StoreSession(user.id)
    } else {
        &&& next is Finished
        &&& spec_refused(action.spec_error(), "password"@, "password is incorrect"@)
    }
}

/// One step of a login.
///
/// An unknown username is refused as such.  A known user's password is
/// verified against the stored hash; a wrong password is refused and no
/// session is made.  Success, with the username as it was sent, is answered
/// once the session holds the user's id.  A failure of a store, and an event
/// that the state does not wait for, end in an internal error.
pub open spec fn spec_login_stepped(
    state: LoginState,
    event: LoginEvent,
    next: LoginState,
    action: LoginAction,
) -> bool {
    match (state, event) {
        (LoginState::AwaitingUser { form }, LoginEvent::UserLookedUp(None)) => {
            &&& next is Finished
            &&& spec_refused(action.spec_error(), "username"@, "user does not exist"@)
        },
        (LoginState::AwaitingUser { form }, LoginEvent::UserLookedUp(Some(user))) => {
            spec_password_checked(
                form,
                user,
                argon2_accepts(form.password@, user.password_hash@),
                next,
                action,
            )
        },
        (LoginState::AwaitingSession { username }, LoginEvent::SessionStored) => {
            &&& next is Finished
            &&& action matches LoginAction::Respond(Ok(answer))
            &&& answer.status == Status::Success
            &&& answer.data matches Some(data)
            &&& json_of(data) == Json::Object(object_of(seq![("username"@, Json::Text(username@))]))
        },
        _ => next is Finished && spec_ends_internal(action.spec_error()),
    }
}

/// Begins a login with the form as it was sent.
pub fn login_start(form: LoginUserSchemaOptional) -> (r: (LoginState, LoginAction))
    ensures
        spec_login_started(form, r.0, r.1),
{
    match form.validate() {
        Err(set) => (
            LoginState::Finished,
            LoginAction::Respond(Err(ApiError::ValidationError(set))),
        ),
        Ok(()) => {
            match form.into_schema() {
                Ok(complete) => {
                    let username = complete.username.clone();
                    (LoginState::AwaitingUser { form: complete }, LoginAction::FindUser(username))
                },
                Err(e) => (LoginState::Finished, LoginAction::Respond(Err(e))),
            }
        },
    }
}

/// Decides what follows the check of the password.
pub fn after_password_check(form: LoginUserSchema, user: User, verified: bool) -> (r: (
    LoginState,
    LoginAction,
))
    ensures
        spec_password_checked(form, user, verified, r.0, r.1),
{
    if verified {
        (
            LoginState::AwaitingSession { username: form.username },
            LoginAction::StoreSession(user.id),
        )
    } else {
        (
            LoginState::Finished,
            LoginAction::Respond(Err(refusal("password", "password is incorrect"))),
        )
    }
}

/// Takes a login one step further.
pub fn login_step(state: LoginState, event: LoginEvent) -> (r: (LoginState, LoginAction))
    ensures
        spec_login_stepped(state, event, r.0, r.1),
{
    match (state, event) {
        (LoginState::AwaitingUser { form }, LoginEvent::UserLookedUp(found)) => {
            match found {
                None => (
                    LoginState::Finished,
                    LoginAction::Respond(Err(refusal("username", "user does not exist"))),
                ),
                Some(user) => {
                    let verified = verify_password(
                        form.password.as_str(),
                        user.password_hash.as_str(),
                    );
                    after_password_check(form, user, verified)
                },
            }
        },
        (LoginState::AwaitingSession { username }, LoginEvent::SessionStored) => {
            let data = single_member_value("username".to_owned(), text_value(username.as_str()));
            (LoginState::Finished, LoginAction::Respond(Ok(GeneralResponse::success(Some(data)))))
        },
        _ => (LoginState::Finished, LoginAction::Respond(Err(ApiError::InternalServerError))),
    }
}

/// The answer to a logout: success without data once the session is gone,
/// an internal error if the session store failed.
pub fn logout_answer(session_deleted: bool) -> (r: Result<GeneralResponse, ApiError>)
    ensures
        match r {
            Ok(answer) => session_deleted && answer.status == Status::Success
                && answer.data is None,
            Err(e) => !session_deleted && e is InternalServerError,
        },
{
    if session_deleted {
        Ok(GeneralResponse::success(None))
    } else {
        Err(ApiError::InternalServerError)
    }
}

/// The answer to the question whether a client is logged in, asked of an
/// admitted request: it is, under the name of the user it was admitted as.
pub fn login_status(identity: &AuthenticatedIdentity) -> (answer: GeneralResponse)
    ensures
        answer.status == Status::Success,
        answer.data matches Some(data) && json_of(data) == Json::Object(
            object_of(
                seq![
                    ("is_logged_in"@, Json::Bool(true)),
                    ("username"@, Json::Text(identity.spec_user().username@)),
                ],
            ),
        ),
{
    let data = two_member_value(
        "is_logged_in",
        bool_value(true),
        "username",
        text_value(identity.user().username.as_str()),
    );
    GeneralResponse::success(Some(data))
}

/// A registration that conflicts with an account writes nothing.  Whether
/// the username is taken, or the e-mail address, or both, the request ends
/// at once in a refusal, answered with HTTP 200 and a `fail` envelope whose
/// data names each conflict under its field.
pub proof fn lemma_conflict_is_refused(
    form: RegisterUserSchema,
    username_taken: bool,
    found: Option<bool>,
    next: RegisterState,
    action: RegisterAction,
)
    requires
        spec_register_stepped(
            RegisterState::AwaitingEmailCheck { form, username_taken },
            RegisterEvent::EmailChecked(found),
            next,
            action,
        ),
        username_taken || spec_taken(found),
    ensures
        next is Finished,
        !action.spec_writes(),
        action.spec_error() is Some,
        username_taken ==> action.spec_error()->0.spec_fails_on(
            "username"@,
            "username already exists"@,
        ),
        spec_taken(found) ==> action.spec_error()->0.spec_fails_on(
            "email"@,
            "email already exists"@,
        ),
{
    lemma_account_fields_differ();
}

/// A username the store knows is never registered again.  Once the store
/// has said that the username is taken, the registration goes on to ask
/// about the e-mail address and then ends, whatever the answer, in the
/// refusal that names the username; it writes nothing on the way.  So of two
/// registrations with one username, the one whose lookup the store answers
/// after it holds the other is refused.
pub proof fn lemma_taken_username_is_refused(
    form: RegisterUserSchema,
    email_found: Option<bool>,
    asked: (RegisterState, RegisterAction),
    ended: (RegisterState, RegisterAction),
)
    requires
        spec_register_stepped(
            RegisterState::AwaitingUsernameCheck { form },
            RegisterEvent::UsernameChecked(Some(true)),
            asked.0,
            asked.1,
        ),
        spec_register_stepped(asked.0, RegisterEvent::EmailChecked(email_found), ended.0, ended.1),
    ensures
        asked.1 is CheckEmail,
        !asked.1.spec_writes(),
        ended.0 is Finished,
        !ended.1.spec_writes(),
        ended.1.spec_error() is Some,
        ended.1.spec_error()->0.spec_fails_on("username"@, "username already exists"@),
{
    lemma_conflict_is_refused(form, true, email_found, ended.0, ended.1);
}

/// A write that the store refused for a conflict is answered as the lookup
/// would have answered it.  The registration ends at once in the refusal,
/// HTTP 200 and a `fail` whose data names each conflict under its field, and
/// nothing was written and nothing is written.
pub proof fn lemma_refused_write_is_refused(
    conflict: Conflict,
    next: RegisterState,
    action: RegisterAction,
)
    requires
        spec_register_stepped(
            RegisterState::AwaitingCreation,
            RegisterEvent::Conflicted(conflict),
            next,
            action,
        ),
    ensures
        next is Finished,
        !action.spec_writes(),
        action.spec_error() is Some,
        conflict.spec_username_taken() ==> action.spec_error()->0.spec_fails_on(
            "username"@,
            "username already exists"@,
        ),
        conflict.spec_email_taken() ==> action.spec_error()->0.spec_fails_on(
            "email"@,
            "email already exists"@,
        ),
{
    lemma_account_fields_differ();
}

/// How the registration that loses a username to another comes to know of
/// it.  Where the other was written before this one asked, the lookup says
/// that the username is taken.  Where both asked before either was written,
/// both lookups of this one found nothing, and the store refuses its write.
pub enum Lost {
    /// The lookup found the username taken; the e-mail address was looked up
    /// after it.
    AtLookup { email_found: Option<bool> },
    /// The write was refused, for a conflict that has the username in it.
    AtWrite { conflict: Conflict },
}

/// The steps of a registration with `form` that loses its username in the
/// way given: where it ends.
pub open spec fn spec_lost_run(
    form: RegisterUserSchema,
    lost: Lost,
    ended: (RegisterState, RegisterAction),
) -> bool {
    match lost {
        Lost::AtLookup { email_found } => exists|asked: (RegisterState, RegisterAction)|
            {
                &&& #[trigger] spec_register_stepped(
                    RegisterState::AwaitingUsernameCheck { form },
                    RegisterEvent::UsernameChecked(Some(true)),
                    asked.0,
                    asked.1,
                )
                &&& spec_register_stepped(
                    asked.0,
                    RegisterEvent::EmailChecked(email_found),
                    ended.0,
                    ended.1,
                )
            },
        Lost::AtWrite { conflict } => {
            &&& conflict.spec_username_taken()
            &&& spec_register_stepped(
                RegisterState::AwaitingCreation,
                RegisterEvent::Conflicted(conflict),
                ended.0,
                ended.1,
            )
        },
    }
}

/// Of two registrations with one username, the one that loses is refused,
/// in whichever order the two reach the store.  Whether it learns of the
/// other at its lookup or only when the store refuses its write, it ends in
/// the same answer: HTTP 200 and a `fail` whose data says, under `username`,
/// that the username already exists.  It is not answered with success, and
/// it leaves nothing written.
pub proof fn lemma_losing_registration_is_refused(
    form: RegisterUserSchema,
    lost: Lost,
    ended: (RegisterState, RegisterAction),
)
    requires
        spec_lost_run(form, lost, ended),
    ensures
        ended.0 is Finished,
        !ended.1.spec_writes(),
        !(ended.1 matches RegisterAction::Respond(Ok(_))),
        ended.1.spec_error() is Some,
        ended.1.spec_error()->0.spec_fails_on("username"@, "username already exists"@),
        ended.1.spec_error()->0.spec_status() == Status::Fail,
        ended.1.spec_error()->0.spec_status_code() == 200,
{
    match lost {
        Lost::AtLookup { email_found } => {
            let asked = choose|asked: (RegisterState, RegisterAction)|
                {
                    &&& #[trigger] spec_register_stepped(
                        RegisterState::AwaitingUsernameCheck { form },
                        RegisterEvent::UsernameChecked(Some(true)),
                        asked.0,
                        asked.1,
                    )
                    &&& spec_register_stepped(
                        asked.0,
                        RegisterEvent::EmailChecked(email_found),
                        ended.0,
                        ended.1,
                    )
                };
            lemma_taken_username_is_refused(form, email_found, asked, ended);
        },
        Lost::AtWrite { conflict } => {
            lemma_refused_write_is_refused(conflict, ended.0, ended.1);
        },
    }
}

/// A registration writes only after both lookups found no account, and it
/// writes once: the user and its profile go to the store as one write, for
/// the store to make both or neither.
pub proof fn lemma_write_needs_no_conflict(
    state: RegisterState,
    event: RegisterEvent,
    next: RegisterState,
    action: RegisterAction,
)
    requires
        spec_register_stepped(state, event, next, action),
        action.spec_writes(),
    ensures
        state matches RegisterState::AwaitingEmailCheck { username_taken, .. } && !username_taken,
        event matches RegisterEvent::EmailChecked(found) && !spec_taken(found),
        next is AwaitingCreation,
{
}

/// A registration is answered with success only when the store has
/// confirmed the write of user and profile.  If the store fails instead, for
/// another reason than a conflict, the answer is an internal error.
pub proof fn lemma_success_needs_creation(
    state: RegisterState,
    event: RegisterEvent,
    next: RegisterState,
    action: RegisterAction,
)
    requires
        spec_register_stepped(state, event, next, action),
    ensures
        action matches RegisterAction::Respond(Ok(_)) ==> state is AwaitingCreation
            && event is Created,
        event is StoreFailed ==> next is Finished && spec_ends_internal(action.spec_error()),
{
}

/// A wrong password makes no session.  The login of a known user whose
/// password does not verify ends at once in a refusal, answered with HTTP
/// 200 and a `fail` envelope whose data says so under `password`.
pub proof fn lemma_wrong_password_is_refused(
    form: LoginUserSchema,
    user: User,
    next: LoginState,
    action: LoginAction,
)
    requires
        spec_login_stepped(
            LoginState::AwaitingUser { form },
            LoginEvent::UserLookedUp(Some(user)),
            next,
            action,
        ),
        !argon2_accepts(form.password@, user.password_hash@),
    ensures
        next is Finished,
        action !is StoreSession,
        action.spec_error() is Some,
        action.spec_error()->0.spec_fails_on("password"@, "password is incorrect"@),
{
}

/// A login asks for a session only for a user the store holds and whose
/// password was verified against the stored hash, and for that user's id.
pub proof fn lemma_session_needs_verification(
    state: LoginState,
    event: LoginEvent,
    next: LoginState,
    action: LoginAction,
)
    requires
        spec_login_stepped(state, event, next, action),
        action is StoreSession,
    ensures
        state matches LoginState::AwaitingUser { form } && event matches LoginEvent::UserLookedUp(
            Some(user),
        ) && {
            &&& argon2_accepts(form.password@, user.password_hash@)
            &&& action == LoginAction::StoreSession(user.id)
        },
{
}

/// Nothing is tried again.  A failure of the store or of the session store
/// ends a login at once in an internal error, and a login is answered with
/// success only when the session holds the user's id.
pub proof fn lemma_login_success_needs_session(
    state: LoginState,
    event: LoginEvent,
    next: LoginState,
    action: LoginAction,
)
    requires
        spec_login_stepped(state, event, next, action),
    ensures
        action matches LoginAction::Respond(Ok(_)) ==> state is AwaitingSession
            && event is SessionStored,
        event is StoreFailed ==> next is Finished && spec_ends_internal(action.spec_error()),
{
}

} // verus!
