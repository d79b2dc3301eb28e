//! The request forms and their rules.
//!
//! Each form comes in two shapes.  The one whose name ends in `Optional` is
//! what a client sent: any field may be missing.  Its rules are applied in
//! the order they are declared with the field, and a form that passes them
//! can be turned into the other shape, in which every field is there.

use vstd::prelude::*;
use crate::response::ApiError;
use crate::validation::{
    ValidationError, ValidationFailureSet, RuleOutcome, aggregate_of, spec_noted,
    email_accepted, is_present, length_within, is_email,
};

verus! {

/// The number of bytes a text takes in UTF-8.
pub open spec fn byte_length(text: Seq<char>) -> nat {
    vstd::utf8::encode_utf8(text).len()
}

/// The words a length fails with, if it does: a length of zero is "empty",
/// one under `min` is "too short", one over `max` is "too long".
pub open spec fn spec_length_failure(
    len: nat,
    min: nat,
    max: nat,
    min_err: Seq<char>,
    max_err: Seq<char>,
    empty_err: Seq<char>,
) -> Option<Seq<char>> {
    if len == 0 {
        Some(empty_err)
    } else if len < min {
        Some(min_err)
    } else if len > max {
        Some(max_err)
    } else {
        None
    }
}

/// `result` is the outcome of a rule that fails with `failure`, if it fails:
/// code and message of the error are the words of the failure.
pub open spec fn fails_with(
    result: Result<(), ValidationError>,
    failure: Option<Seq<char>>,
) -> bool {
    match failure {
        None => result is Ok,
        Some(words) => {
            &&& result matches Err(e)
            &&& e.code@ == words
            &&& e.message matches Some(m)
            &&& m@ == words
        },
    }
}

/// Holds a length against its bounds.
pub fn validate_length(
    len: usize,
    min: usize,
    max: usize,
    min_err: &'static str,
    max_err: &'static str,
    empty_err: &'static str,
) -> (r: Result<(), ValidationError>)
    ensures
        fails_with(
            r,
            spec_length_failure(len as nat, min as nat, max as nat, min_err@, max_err@, empty_err@),
        ),
{
    if len == 0 {
        Err(ValidationError::new(empty_err))
    } else if len < min {
        Err(ValidationError::new(min_err))
    } else if len > max {
        Err(ValidationError::new(max_err))
    } else {
        Ok(())
    }
}

/// The words a username fails its length rule with, if it does.
pub open spec fn spec_username_length_failure(username: Seq<char>) -> Option<Seq<char>> {
    spec_length_failure(
        byte_length(username),
        1,
        20,
        "username too short"@,
        "username too long"@,
        "username cannot be empty"@,
    )
}

/// The words an e-mail address fails its length rule with, if it does.
pub open spec fn spec_email_length_failure(email: Seq<char>) -> Option<Seq<char>> {
    spec_length_failure(
        byte_length(email),
        1,
        20,
        "email too short"@,
        "email too long"@,
        "email cannot be empty"@,
    )
}

/// The words a password fails its length rule with, if it does.
pub open spec fn spec_password_length_failure(password: Seq<char>) -> Option<Seq<char>> {
    spec_length_failure(
        byte_length(password),
        1,
        20,
        "password too short"@,
        "password too long"@,
        "password cannot be empty"@,
    )
}

/// A username takes 1 to 20 bytes.
pub fn validate_username_length(username: &str) -> (r: Result<(), ValidationError>)
    ensures
        fails_with(r, spec_username_length_failure(username@)),
{
    let len = username.as_bytes().len();
    validate_length(
        len,
        1,
        20,
        "username too short",
        "username too long",
        "username cannot be empty",
    )
}

/// An e-mail address takes 1 to 20 bytes.
pub fn validate_email_length(username: &str) -> (r: Result<(), ValidationError>)
    ensures
        fails_with(r, spec_email_length_failure(username@)),
{
    let len = username.as_bytes().len();
    validate_length(
        len,
        1,
        20,
        "email too short",
        "email too long",
        "email cannot be empty",
    )
}

/// A password takes 1 to 20 bytes.
pub fn validate_password_length(username: &str) -> (r: Result<(), ValidationError>)
    ensures
        fails_with(r, spec_password_length_failure(username@)),
{
    let len = username.as_bytes().len();
    validate_length(
        len,
        1,
        20,
        "password too short",
        "password too long",
        "password cannot be empty",
    )
}

/// The message a rule's result surfaces as, if the rule failed.
pub open spec fn spec_surfaced(result: Result<(), ValidationError>) -> Option<Seq<char>> {
    match result {
        Ok(()) => None,
        Err(e) => Some(e.spec_message()),
    }
}

/// The view of a text that may be missing.
pub open spec fn spec_text(value: Option<String>) -> Option<Seq<char>> {
    match value {
        Some(text) => Some(text@),
        None => None,
    }
}

/// `result` is the outcome of a rule that passed, or that failed with the
/// code and the message given.
pub open spec fn spec_ruled(
    result: Result<(), ValidationError>,
    passed: bool,
    code: Seq<char>,
    message: Seq<char>,
) -> bool {
    if passed {
        result is Ok
    } else {
        &&& result matches Err(e)
        &&& e.code@ == code
        &&& e.message matches Some(m)
        &&& m@ == message
    }
}

/// The outcome of a rule, told whether its test passed.
pub fn rule_outcome(passed: bool, code: &str, message: &str) -> (r: Result<(), ValidationError>)
    ensures
        spec_ruled(r, passed, code@, message@),
{
    if passed {
        Ok(())
    } else {
        Err(ValidationError::with_message(code, message))
    }
}

/// The rule that a field is there; its code is `required`.
pub fn required_rule<T>(value: &Option<T>, message: &str) -> (r: Result<(), ValidationError>)
    ensures
        spec_ruled(r, value is Some, "required"@, message@),
{
    rule_outcome(is_present(value), "required", message)
}

/// The rule that a text has at least `min` characters; its code is `length`.
pub fn min_length_rule(value: &str, min: u64, message: &str) -> (r: Result<(), ValidationError>)
    ensures
        spec_ruled(r, value@.len() >= min, "length"@, message@),
{
    rule_outcome(length_within(value, Some(min), None), "length", message)
}

/// The rule that a text is an e-mail address; its code is `email`.
pub fn email_rule(value: &str, message: &str) -> (r: Result<(), ValidationError>)
    ensures
        spec_ruled(r, email_accepted(value@), "email"@, message@),
{
    rule_outcome(is_email(value), "email", message)
}

/// Appends the outcome of one rule on `field`.
fn apply_rule(outcomes: &mut Vec<RuleOutcome>, field: &str, result: Result<(), ValidationError>)
    ensures
        aggregate_of(final(outcomes)@) == spec_noted(
            aggregate_of(old(outcomes)@),
            field@,
            spec_surfaced(result),
        ),
{
    let outcome = RuleOutcome::of(field, result);
    outcomes.push(outcome);
    proof {
        assert(outcomes@.drop_last() =~= old(outcomes)@);
        assert(outcomes@.last() == outcome);
    }
}

/// Aggregates the outcomes of a form's rules into the form's verdict.
fn verdict(outcomes: &Vec<RuleOutcome>) -> (r: Result<(), ValidationFailureSet>)
    ensures
        r is Ok <==> aggregate_of(outcomes@) == Map::<Seq<char>, Seq<char>>::empty(),
        r matches Err(set) ==> set@ == aggregate_of(outcomes@),
{
    let set = ValidationFailureSet::aggregate(outcomes);
    if set.is_empty() {
        Ok(())
    } else {
        Err(set)
    }
}

/// What a text field that must be there and must not be empty fails with.
pub open spec fn spec_needed_text_failure(
    value: Option<Seq<char>>,
    missing: Seq<char>,
    empty: Seq<char>,
) -> Option<Seq<char>> {
    match value {
        None => Some(missing),
        Some(text) => if text.len() >= 1 {
            None
        } else {
            Some(empty)
        },
    }
}

/// Applies the rules of a text field that must be there and must not be
/// empty.
fn apply_needed_text(
    outcomes: &mut Vec<RuleOutcome>,
    field: &str,
    value: &Option<String>,
    missing: &str,
    empty: &str,
)
    ensures
        aggregate_of(final(outcomes)@) == spec_noted(
            aggregate_of(old(outcomes)@),
            field@,
            spec_needed_text_failure(spec_text(*value), missing@, empty@),
        ),
{
    apply_rule(outcomes, field, required_rule(value, missing));
    match value {
        Some(text) => {
            apply_rule(outcomes, field, min_length_rule(text.as_str(), 1, empty));
        },
        None => {},
    }
}

/// A registration, every field there.
#[derive(Debug)]
pub struct RegisterUserSchema {
    pub username: String,
    pub email: String,
    pub password: String,
}

/// A registration as it was sent.
#[derive(Debug)]
pub struct RegisterUserSchemaOptional {
    pub username: Option<String>,
    pub email: Option<String>,
    pub password: Option<String>,
}

/// What the username of a registration fails with: it must be there, and
/// take 1 to 20 bytes.
pub open spec fn spec_register_username_failure(value: Option<Seq<char>>) -> Option<Seq<char>> {
    match value {
        None => Some("username field required"@),
        Some(text) => spec_username_length_failure(text),
    }
}

/// What the e-mail address of a registration fails with: it must be there,
/// take 1 to 20 bytes, and be an e-mail address.
pub open spec fn spec_register_email_failure(value: Option<Seq<char>>) -> Option<Seq<char>> {
    match value {
        None => Some("email field required"@),
        Some(text) => match spec_email_length_failure(text) {
            Some(words) => Some(words),
            None => if email_accepted(text) {
                None
            } else {
                Some("not a valid email"@)
            },
        },
    }
}

/// What the password of a registration fails with: it must be there, and
/// take 1 to 20 bytes.
pub open spec fn spec_register_password_failure(value: Option<Seq<char>>) -> Option<Seq<char>> {
    match value {
        None => Some("password field required"@),
        Some(text) => spec_password_length_failure(text),
    }
}

/// The names of the fields of a registration and of a login differ.
pub proof fn lemma_account_fields_differ()
    ensures
        "username"@ != "email"@,
        "username"@ != "password"@,
        "email"@ != "password"@,
{
    reveal_strlit("username");
    reveal_strlit("email");
    reveal_strlit("password");
    assert("username"@.len() == 8);
    assert("email"@.len() == 5);
    assert("password"@.len() == 8);
    assert("username"@[0] == 'u');
    assert("password"@[0] == 'p');
}

impl RegisterUserSchemaOptional {
    /// The failures of the form, by field.
    pub open spec fn spec_failures(self) -> Map<Seq<char>, Seq<char>> {
        spec_noted(
            spec_noted(
                spec_noted(
                    Map::empty(),
                    "username"@,
                    spec_register_username_failure(spec_text(self.username)),
                ),
                "email"@,
                spec_register_email_failure(spec_text(self.email)),
            ),
            "password"@,
            spec_register_password_failure(spec_text(self.password)),
        )
    }

    /// Whether the form passes all its rules.
    pub open spec fn spec_valid(self) -> bool {
        &&& spec_register_username_failure(spec_text(self.username)) is None
        &&& spec_register_email_failure(spec_text(self.email)) is None
        &&& spec_register_password_failure(spec_text(self.password)) is None
    }

    /// Applies the rules of the form: it passes, or the failures come back,
    /// for each field the message of its first failing rule.
    pub fn validate(&self) -> (r: Result<(), ValidationFailureSet>)
        ensures
            r is Ok <==> self.spec_valid(),
            r matches Err(set) ==> set@ == self.spec_failures(),
    {
        let mut outcomes: Vec<RuleOutcome> = Vec::new();
        apply_rule(
            &mut outcomes,
            "username",
            required_rule(&self.username, "username field required"),
        );
        match &self.username {
            Some(text) => {
                apply_rule(&mut outcomes, "username", validate_username_length(text.as_str()));
            },
            None => {},
        }
        assert(aggregate_of(outcomes@) == spec_noted(
            Map::empty(),
            "username"@,
            spec_register_username_failure(spec_text(self.username)),
        ));
        let ghost after_username = aggregate_of(outcomes@);
        apply_rule(&mut outcomes, "email", required_rule(&self.email, "email field required"));
        match &self.email {
            Some(text) => {
                apply_rule(&mut outcomes, "email", validate_email_length(text.as_str()));
                apply_rule(&mut outcomes, "email", email_rule(text.as_str(), "not a valid email"));
            },
            None => {},
        }
        proof {
            lemma_account_fields_differ();
        }
        assert(aggregate_of(outcomes@) == spec_noted(
            after_username,
            "email"@,
            spec_register_email_failure(spec_text(self.email)),
        ));
        apply_rule(
            &mut outcomes,
            "password",
            required_rule(&self.password, "password field required"),
        );
        match &self.password {
            Some(text) => {
                apply_rule(&mut outcomes, "password", validate_password_length(text.as_str()));
            },
            None => {},
        }
        assert(aggregate_of(outcomes@) == self.spec_failures());
        proof {
            let failures = self.spec_failures();
            if !self.spec_valid() {
                assert(failures.contains_key("username"@) || failures.contains_key("email"@)
                    || failures.contains_key("password"@));
            }
        }
        verdict(&outcomes)
    }

    /// The form with every field there; an internal error if one is missing.
    pub fn into_schema(self) -> (r: Result<RegisterUserSchema, ApiError>)
        ensures
            match r {
                Ok(form) => self.username == Some(form.username) && self.email == Some(form.email)
                    && self.password == Some(form.password),
                Err(e) => e is InternalServerError && (self.username is None || self.email is None
                    || self.password is None),
            },
    {
        match (self.username, self.email, self.password) {
            (Some(username), Some(email), Some(password)) => Ok(
                RegisterUserSchema { username, email, password },
            ),
            _ => Err(ApiError::InternalServerError),
        }
    }
}

/// A form that passes its rules has every field.
pub proof fn lemma_valid_registration_is_complete(form: RegisterUserSchemaOptional)
    requires
        form.spec_valid(),
    ensures
        form.username is Some,
        form.email is Some,
        form.password is Some,
{
}

/// A login, every field there.
#[derive(Debug)]
pub struct LoginUserSchema {
    pub username: String,
    pub password: String,
}

/// A login as it was sent.
#[derive(Debug)]
pub struct LoginUserSchemaOptional {
    pub username: Option<String>,
    pub password: Option<String>,
}

impl LoginUserSchemaOptional {
    /// What the username fails with: it must be there and not be empty.
    pub open spec fn spec_username_failure(self) -> Option<Seq<char>> {
        spec_needed_text_failure(
            spec_text(self.username),
            "username is required"@,
            "username is required"@,
        )
    }

    /// What the password fails with: it must be there and not be empty.
    pub open spec fn spec_password_failure(self) -> Option<Seq<char>> {
        spec_needed_text_failure(
            spec_text(self.password),
            "password is required"@,
            "password is required"@,
        )
    }

    /// The failures of the form, by field.
    pub open spec fn spec_failures(self) -> Map<Seq<char>, Seq<char>> {
        spec_noted(
            spec_noted(Map::empty(), "username"@, self.spec_username_failure()),
            "password"@,
            self.spec_password_failure(),
        )
    }

    /// Whether the form passes all its rules.
    pub open spec fn spec_valid(self) -> bool {
        self.spec_username_failure() is None && self.spec_password_failure() is None
    }

    /// Applies the rules of the form: it passes, or the failures come back,
    /// for each field the message of its first failing rule.
    pub fn validate(&self) -> (r: Result<(), ValidationFailureSet>)
        ensures
            r is Ok <==> self.spec_valid(),
            r matches Err(set) ==> set@ == self.spec_failures(),
    {
        let mut outcomes: Vec<RuleOutcome> = Vec::new();
        apply_needed_text(
            &mut outcomes,
            "username",
            &self.username,
            "username is required",
            "username is required",
        );
        apply_needed_text(
            &mut outcomes,
            "password",
            &self.password,
            "password is required",
            "password is required",
        );
        proof {
            lemma_account_fields_differ();
            let failures = self.spec_failures();
            if !self.spec_valid() {
                assert(failures.contains_key("username"@) || failures.contains_key("password"@));
            }
        }
        verdict(&outcomes)
    }

    /// The form with every field there; an internal error if one is missing.
    pub fn into_schema(self) -> (r: Result<LoginUserSchema, ApiError>)
        ensures
            match r {
                Ok(form) => self.username == Some(form.username) && self.password == Some(
                    form.password,
                ),
                Err(e) => e is InternalServerError && (self.username is None
                    || self.password is None),
            },
    {
        match (self.username, self.password) {
            (Some(username), Some(password)) => Ok(LoginUserSchema { username, password }),
            _ => Err(ApiError::InternalServerError),
        }
    }
}

/// A new post, every field there.
#[derive(Debug)]
pub struct CreatePostSchema {
    pub title: String,
    pub content: String,
}

/// A new post as it was sent.
#[derive(Debug)]
pub struct CreatePostSchemaOptional {
    pub title: Option<String>,
    pub content: Option<String>,
}

/// The names of the fields of a post differ.
pub proof fn lemma_post_fields_differ()
    ensures
        "title"@ != "content"@,
{
    reveal_strlit("title");
    reveal_strlit("content");
    assert("title"@.len() == 5);
    assert("content"@.len() == 7);
}

impl CreatePostSchemaOptional {
    /// What the title fails with: it must be there and not be empty.
    pub open spec fn spec_title_failure(self) -> Option<Seq<char>> {
        spec_needed_text_failure(
            spec_text(self.title),
            "title is required"@,
            "title is required"@,
        )
    }

    /// What the content fails with: it must be there and not be empty.  The
    /// message names the title.
    pub open spec fn spec_content_failure(self) -> Option<Seq<char>> {
        spec_needed_text_failure(
            spec_text(self.content),
            "title is required"@,
            "title is required"@,
        )
    }

    /// The failures of the form, by field.
    pub open spec fn spec_failures(self) -> Map<Seq<char>, Seq<char>> {
        spec_noted(
            spec_noted(Map::empty(), "title"@, self.spec_title_failure()),
            "content"@,
            self.spec_content_failure(),
        )
    }

    /// Whether the form passes all its rules.
    pub open spec fn spec_valid(self) -> bool {
        self.spec_title_failure() is None && self.spec_content_failure() is None
    }

    /// Applies the rules of the form: it passes, or the failures come back,
    /// for each field the message of its first failing rule.
    pub fn validate(&self) -> (r: Result<(), ValidationFailureSet>)
        ensures
            r is Ok <==> self.spec_valid(),
            r matches Err(set) ==> set@ == self.spec_failures(),
    {
        let mut outcomes: Vec<RuleOutcome> = Vec::new();
        apply_needed_text(
            &mut outcomes,
            "title",
            &self.title,
            "title is required",
            "title is required",
        );
        apply_needed_text(
            &mut outcomes,
            "content",
            &self.content,
            "title is required",
            "title is required",
        );
        proof {
            lemma_post_fields_differ();
            let failures = self.spec_failures();
            if !self.spec_valid() {
                assert(failures.contains_key("title"@) || failures.contains_key("content"@));
            }
        }
        verdict(&outcomes)
    }

    /// The form with every field there; an internal error if one is missing.
    pub fn into_schema(self) -> (r: Result<CreatePostSchema, ApiError>)
        ensures
            match r {
                Ok(form) => self.title == Some(form.title) && self.content == Some(form.content),
                Err(e) => e is InternalServerError && (self.title is None || self.content is None),
            },
    {
        match (self.title, self.content) {
            (Some(title), Some(content)) => Ok(CreatePostSchema { title, content }),
            _ => Err(ApiError::InternalServerError),
        }
    }
}

/// A reaction to a post as it was sent: a like, or a dislike.
#[derive(Debug)]
pub struct LikePostSchemaOptional {
    pub like: Option<bool>,
}

impl LikePostSchemaOptional {
    /// What the reaction fails with: it must be there.
    pub open spec fn spec_like_failure(self) -> Option<Seq<char>> {
        if self.like is Some {
            None
        } else {
            Some("like status is required"@)
        }
    }

    /// The failures of the form, by field.
    pub open spec fn spec_failures(self) -> Map<Seq<char>, Seq<char>> {
        spec_noted(Map::empty(), "like"@, self.spec_like_failure())
    }

    /// Whether the form passes its rule.
    pub open spec fn spec_valid(self) -> bool {
        self.like is Some
    }

    /// Applies the rule of the form: it passes, or the failure comes back.
    pub fn validate(&self) -> (r: Result<(), ValidationFailureSet>)
        ensures
            r is Ok <==> self.spec_valid(),
            r matches Err(set) ==> set@ == self.spec_failures(),
    {
        let mut outcomes: Vec<RuleOutcome> = Vec::new();
        apply_rule(&mut outcomes, "like", required_rule(&self.like, "like status is required"));
        proof {
            if !self.spec_valid() {
                assert(self.spec_failures().contains_key("like"@));
            }
        }
        verdict(&outcomes)
    }
}

/// A comment as it was sent.
#[derive(Debug)]
pub struct CommentSchemaOptional {
    pub content: Option<String>,
}

impl CommentSchemaOptional {
    /// What the content fails with: it must be there and not be empty.  The
    /// message for an empty one names the title.
    pub open spec fn spec_content_failure(self) -> Option<Seq<char>> {
        spec_needed_text_failure(
            spec_text(self.content),
            "content is required"@,
            "title is required"@,
        )
    }

    /// The failures of the form, by field.
    pub open spec fn spec_failures(self) -> Map<Seq<char>, Seq<char>> {
        spec_noted(Map::empty(), "content"@, self.spec_content_failure())
    }

    /// Whether the form passes its rules.
    pub open spec fn spec_valid(self) -> bool {
        self.spec_content_failure() is None
    }

    /// Applies the rules of the form: it passes, or the failure comes back,
    /// the message of the first failing rule.
    pub fn validate(&self) -> (r: Result<(), ValidationFailureSet>)
        ensures
            r is Ok <==> self.spec_valid(),
            r matches Err(set) ==> set@ == self.spec_failures(),
    {
        let mut outcomes: Vec<RuleOutcome> = Vec::new();
        apply_needed_text(
            &mut outcomes,
            "content",
            &self.content,
            "content is required",
            "title is required",
        );
        proof {
            if !self.spec_valid() {
                assert(self.spec_failures().contains_key("content"@));
            }
        }
        verdict(&outcomes)
    }
}

} // verus!
