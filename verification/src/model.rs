//! The records the store keeps of an account, and the ids that records are
//! found by.

use vstd::prelude::*;

verus! {

/// A registered user.  The id, the username and the e-mail address each
/// belong to one user only; the e-mail address is kept in lower case.
#[derive(Clone, Debug, PartialEq, Eq)]
pub struct User {
    pub id: u128,
    pub username: String,
    pub email: String,
    pub password_hash: String,
}

impl User {
    /// A copy of the record.
    pub fn copy(&self) -> (c: User)
        ensures
            c == *self,
    {
        User {
            id: self.id,
            username: self.username.clone(),
            email: self.email.clone(),
            password_hash: self.password_hash.clone(),
        }
    }
}

/// The fields of a user that is to be created; the store gives the id.
#[derive(Clone, Debug, PartialEq, Eq)]
pub struct NewUser {
    pub username: String,
    pub email: String,
    pub password_hash: String,
}

/// The fields of the profile that is created with a user.
#[derive(Clone, Debug, PartialEq, Eq)]
pub struct NewProfile {
    pub profile_image: String,
    pub bio: String,
}

/// The image of a profile that has none of its own.
pub open spec fn spec_default_profile_image() -> Seq<char> {
    "default.jpg"@
}

impl NewProfile {
    /// The profile a new user starts with: the default image, an empty bio.
    pub fn initial() -> (profile: NewProfile)
        ensures
            profile.profile_image@ == spec_default_profile_image(),
            profile.bio@ == Seq::<char>::empty(),
    {
        NewProfile { profile_image: "default.jpg".to_owned(), bio: String::new() }
    }
}

/// The lower-case form of an ASCII capital letter; any other character is
/// left as it is.
pub open spec fn spec_ascii_lower(c: char) -> char {
    if 'A' <= c <= 'Z' {
        ((c as int) + 32) as char
    } else {
        c
    }
}

/// The text with each ASCII capital letter in lower case.
pub open spec fn spec_ascii_lowercase(text: Seq<char>) -> Seq<char> {
    text.map_values(|c: char| spec_ascii_lower(c))
}

/// `str::to_ascii_lowercase`: a copy in which the letters `A` to `Z` are
/// `a` to `z` and every other character is unchanged.
#[verifier::external_body]
pub(crate) fn ascii_lowercase(text: &str) -> (lower: String)
    ensures
        lower@ == spec_ascii_lowercase(text@),
{
    text.to_ascii_lowercase()
}

/// The store, or the session store, could not do what it was asked.
#[derive(Clone, Copy, Debug, PartialEq, Eq, Structural)]
pub struct StoreFailure;

/// `uuid::Error`, the reason a text is no UUID.
#[verifier::external_type_specification]
#[verifier::external_body]
pub struct ExUuidError(uuid::Error);

/// The id a text stands for, read as a UUID; `None` where it is none.
pub uninterp spec fn uuid_parsed(text: Seq<char>) -> Option<u128>;

/// The text an id is written as: a UUID in lower-case hexadecimal digits,
/// with hyphens.
pub uninterp spec fn uuid_written(id: u128) -> Seq<char>;

/// `uuid::Uuid::parse_str`, the UUID taken as its 128-bit value by
/// `as_u128`: the id is a function of the text, and so is whether there is
/// one.
#[verifier::external_body]
pub(crate) fn uuid_parse(text: &str) -> (r: Result<u128, uuid::Error>)
    ensures
        match r {
            Ok(id) => uuid_parsed(text@) == Some(id),
            Err(_) => uuid_parsed(text@) is None,
        },
{
    Ok(uuid::Uuid::parse_str(text)?.as_u128())
}

/// `Display` of `uuid::Uuid`, through `to_string`, on the UUID that
/// `from_u128` makes of the 128-bit value given.
#[verifier::external_body]
pub(crate) fn uuid_text(id: u128) -> (text: String)
    ensures
        text@ == uuid_written(id),
{
    uuid::Uuid::from_u128(id).to_string()
}

} // verus!
