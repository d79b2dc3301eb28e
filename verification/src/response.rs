//! The response envelope and the closed set of errors a request can end in.
//!
//! Every answer is an envelope: a `status` of `success`, `fail` or `error`,
//! with `data` (success, or the detail of a fail) or `message` (error).  A
//! `fail` is the client's to mend by changing its input; an `error` is not.

use vstd::prelude::*;
use vstd::string::StringExecFns;
use crate::json::{
    Json, json_of, json_text, models, object_of, text_value, list_value, value_text,
    single_member_value, two_member_value,
};
use crate::validation::ValidationFailureSet;

verus! {

/// Discriminant of the response envelope.
#[derive(Clone, Copy, Debug, PartialEq, Eq, Structural)]
pub enum Status {
    Success,
    Fail,
    Error,
}

impl Status {
    /// The word the discriminant is written as on the wire.
    pub open spec fn spec_name(self) -> Seq<char> {
        match self {
            Status::Success => "success"@,
            Status::Fail => "fail"@,
            Status::Error => "error"@,
        }
    }

    /// The word the discriminant is written as on the wire.
    pub fn name(&self) -> (word: &'static str)
        ensures
            word@ == self.spec_name(),
    {
        match self {
            Status::Success => "success",
            Status::Fail => "fail",
            Status::Error => "error",
        }
    }
}

/// What goes out on the wire: an HTTP status code, the content type, and
/// the body.
#[derive(Debug)]
pub struct HttpReply {
    pub status_code: u16,
    pub content_type: &'static str,
    pub body: String,
}

/// The content type of every reply.
pub open spec fn spec_content_type() -> Seq<char> {
    "application/json"@
}

/// The content type of every reply.
pub fn content_type() -> (name: &'static str)
    ensures
        name@ == spec_content_type(),
{
    "application/json"
}

impl HttpReply {
    /// A reply with the status code and the JSON body given.
    pub fn json(status_code: u16, body: String) -> (reply: HttpReply)
        ensures
            reply.status_code == status_code,
            reply.content_type@ == spec_content_type(),
            reply.body == body,
    {
        HttpReply { status_code, content_type: content_type(), body }
    }
}

/// The envelope of an answer that carries data.
#[derive(Debug)]
pub struct GeneralResponse {
    pub status: Status,
    pub data: Option<serde_json::Value>,
}

impl GeneralResponse {
    /// The document that stands under `data` on the wire: the payload, or the
    /// empty list where there is none.  It is never `null` and never left out.
    pub open spec fn spec_wire_data(self) -> Json {
        match self.data {
            Some(v) => json_of(v),
            None => Json::List(Seq::empty()),
        }
    }

    /// The text that stands under `data` on the wire; `[]` where there is no
    /// payload.
    pub open spec fn spec_data_text(self) -> Seq<char> {
        match self.data {
            Some(v) => json_text(json_of(v)),
            None => "[]"@,
        }
    }

    /// The body on the wire: `status` first, then `data`.
    pub open spec fn spec_body_text(self) -> Seq<char> {
        "{\"status\":\""@ + self.status.spec_name() + "\",\"data\":"@ + self.spec_data_text() + "}"@
    }

    /// A `success` envelope around the payload given.
    pub fn success(data: Option<serde_json::Value>) -> (r: GeneralResponse)
        ensures
            r.status == Status::Success,
            r.data == data,
    {
        GeneralResponse { status: Status::Success, data }
    }

    /// The document that stands under `data` on the wire.
    pub fn into_wire_data(self) -> (v: serde_json::Value)
        ensures
            json_of(v) == self.spec_wire_data(),
    {
        match self.data {
            Some(v) => v,
            None => {
                let none: Vec<serde_json::Value> = Vec::new();
                assert(models(none@) =~= Seq::<Json>::empty());
                list_value(none)
            },
        }
    }

    /// The text that stands under `data` on the wire.
    pub fn data_text(&self) -> (text: String)
        ensures
            text@ == self.spec_data_text(),
            text@ == json_text(self.spec_wire_data()),
    {
        match &self.data {
            Some(v) => value_text(v),
            None => {
                let none: Vec<serde_json::Value> = Vec::new();
                assert(models(none@) =~= Seq::<Json>::empty());
                value_text(&list_value(none))
            },
        }
    }

    /// The body on the wire.
    pub fn body_text(&self) -> (text: String)
        ensures
            text@ == self.spec_body_text(),
    {
        let mut text = "{\"status\":\"".to_owned();
        text.append(self.status.name());
        text.append("\",\"data\":");
        let data = self.data_text();
        text.append(data.as_str());
        text.append("}");
        text
    }

    /// The HTTP status code the envelope is answered with: 200 for a
    /// `success` and for a `fail`, 500 for an `error`.
    pub open spec fn spec_status_code(self) -> u16 {
        if self.status == Status::Error {
            500
        } else {
            200
        }
    }

    /// The body of the reply.  An `error` envelope carries a message and no
    /// data, so an envelope marked `error` is answered as the internal error
    /// is, and what it holds as data is not sent.
    pub open spec fn spec_reply_body(self) -> Seq<char> {
        if self.status == Status::Error {
            json_text(spec_error_body(spec_internal_message()))
        } else {
            self.spec_body_text()
        }
    }

    /// The reply for this envelope: for a `success` and for a `fail`, HTTP
    /// 200 and the body on the wire; for an `error`, the reply of the
    /// internal error.
    pub fn into_response(self) -> (reply: HttpReply)
        ensures
            reply.status_code == self.spec_status_code(),
            reply.content_type@ == spec_content_type(),
            reply.body@ == self.spec_reply_body(),
            self.status == Status::Success ==> reply.status_code == 200 && reply.body@
                == self.spec_body_text(),
    {
        match self.status {
            Status::Error => ApiError::InternalServerError.into_response(),
            _ => HttpReply::json(200, self.body_text()),
        }
    }
}

/// A success without payload goes out as `{"status":"success","data":[]}`:
/// `data` is the empty list, not `null`, and is not left out.
pub proof fn lemma_empty_success_body(answer: GeneralResponse)
    requires
        answer.status == Status::Success,
        answer.data is None,
    ensures
        answer.spec_body_text() == "{\"status\":\"success\",\"data\":[]}"@,
{
    reveal_strlit("{\"status\":\"");
    reveal_strlit("success");
    reveal_strlit("\",\"data\":");
    reveal_strlit("[]");
    reveal_strlit("}");
    reveal_strlit("{\"status\":\"success\",\"data\":[]}");
    assert(answer.spec_body_text() =~= "{\"status\":\"success\",\"data\":[]}"@);
}

/// The message of every `Unauthorized` answer.
pub open spec fn spec_unauthorized_message() -> Seq<char> {
    "not authorized"@
}

/// The message of every `InternalServerError` answer.
pub open spec fn spec_internal_message() -> Seq<char> {
    "internal server error"@
}

/// What is said of a resource that is not there.
pub open spec fn spec_not_found_message(kind: Seq<char>) -> Seq<char> {
    kind + " not found"@
}

/// An object with the one member `message`.
pub open spec fn spec_message_object(message: Seq<char>) -> Json {
    Json::Object(object_of(seq![("message"@, Json::Text(message))]))
}

/// A `fail` envelope around the detail given.
pub open spec fn spec_fail_body(data: Json) -> Json {
    Json::Object(object_of(seq![("status"@, Json::Text("fail"@)), ("data"@, data)]))
}

/// An `error` envelope with the message given.
pub open spec fn spec_error_body(message: Seq<char>) -> Json {
    Json::Object(
        object_of(seq![("status"@, Json::Text("error"@)), ("message"@, Json::Text(message))]),
    )
}

/// The ways a request can fail.
///
/// The set is closed, and [`ApiError::into_response`] answers each of them.
/// A failure of the store or of the session store that is not an absence is
/// always `InternalServerError`, which tells the client nothing of its cause.
#[derive(Debug)]
pub enum ApiError {
    /// The request is refused for a reason the payload states.
    Fail(serde_json::Value),
    /// The request is refused for a reason one sentence states.
    FailMsg(String),
    /// There is no session, or none that leads to a user.  Whichever it is,
    /// the answer is the same `fail` with the same fixed message, so that a
    /// client cannot probe for sessions.
    Unauthorized,
    /// A resource of the kind named is not there.
    NotFound(String),
    /// The server could not do its part.
    InternalServerError,
    /// The request could not be read, its body or its path; the text is the
    /// parser's.
    JsonRejection(String),
    /// Rules failed on fields of the form.
    ValidationError(ValidationFailureSet),
}

impl ApiError {
    /// The HTTP status code the error is answered with.
    pub open spec fn spec_status_code(self) -> u16 {
        match self {
            ApiError::Fail(_) => 200,
            ApiError::FailMsg(_) => 200,
            ApiError::Unauthorized => 401,
            ApiError::NotFound(_) => 200,
            ApiError::InternalServerError => 500,
            ApiError::JsonRejection(_) => 400,
            ApiError::ValidationError(_) => 200,
        }
    }

    /// The envelope discriminant the error is answered with.
    pub open spec fn spec_status(self) -> Status {
        match self {
            ApiError::InternalServerError => Status::Error,
            ApiError::JsonRejection(_) => Status::Error,
            _ => Status::Fail,
        }
    }

    /// The detail of a `fail`.
    pub open spec fn spec_data(self) -> Json
        recommends
            self.spec_status() == Status::Fail,
    {
        match self {
            ApiError::Fail(v) => json_of(v),
            ApiError::FailMsg(m) => spec_message_object(m@),
            ApiError::Unauthorized => spec_message_object(spec_unauthorized_message()),
            ApiError::NotFound(kind) => Json::Object(
                object_of(seq![(kind@, Json::Text(spec_not_found_message(kind@)))]),
            ),
            ApiError::ValidationError(set) => Json::Object(set.spec_object()),
            _ => Json::Null,
        }
    }

    /// The message of an `error`.
    pub open spec fn spec_message(self) -> Seq<char>
        recommends
            self.spec_status() == Status::Error,
    {
        match self {
            ApiError::JsonRejection(text) => text@,
            _ => spec_internal_message(),
        }
    }

    /// The envelope the error is answered with.
    pub open spec fn spec_body(self) -> Json {
        if self.spec_status() == Status::Fail {
            spec_fail_body(self.spec_data())
        } else {
            spec_error_body(self.spec_message())
        }
    }

    /// The error is answered with HTTP 200 and a `fail` envelope whose data is
    /// an object that holds the reason under the field.
    pub open spec fn spec_fails_on(self, field: Seq<char>, reason: Seq<char>) -> bool {
        &&& self.spec_status() == Status::Fail
        &&& self.spec_status_code() == 200
        &&& self.spec_data() matches Json::Object(detail)
        &&& detail.contains_key(field)
        &&& detail[field] == Json::Text(reason)
    }

    /// The HTTP status code the error is answered with.
    pub fn status_code(&self) -> (code: u16)
        ensures
            code == self.spec_status_code(),
    {
        match self {
            ApiError::Fail(_) => 200,
            ApiError::FailMsg(_) => 200,
            ApiError::Unauthorized => 401,
            ApiError::NotFound(_) => 200,
            ApiError::InternalServerError => 500,
            ApiError::JsonRejection(_) => 400,
            ApiError::ValidationError(_) => 200,
        }
    }

    /// The envelope discriminant the error is answered with.
    pub fn status(&self) -> (status: Status)
        ensures
            status == self.spec_status(),
    {
        match self {
            ApiError::InternalServerError => Status::Error,
            ApiError::JsonRejection(_) => Status::Error,
            _ => Status::Fail,
        }
    }

    /// The envelope the error is answered with, as a document.
    pub fn into_body(self) -> (body: serde_json::Value)
        ensures
            json_of(body) == self.spec_body(),
    {
        match self {
            ApiError::Fail(detail) => fail_value(detail),
            ApiError::FailMsg(message) => fail_value(message_value(message.as_str())),
            ApiError::Unauthorized => fail_value(message_value("not authorized")),
            ApiError::NotFound(kind) => {
                let mut sentence = kind.clone();
                sentence.append(" not found");
                let detail = single_member_value(kind, text_value(sentence.as_str()));
                fail_value(detail)
            },
            ApiError::InternalServerError => error_value("internal server error"),
            ApiError::JsonRejection(text) => error_value(text.as_str()),
            ApiError::ValidationError(set) => fail_value(set.to_value()),
        }
    }

    /// The reply the error is answered with: its status code, and its
    /// envelope in compact JSON.
    pub fn into_response(self) -> (reply: HttpReply)
        ensures
            reply.status_code == self.spec_status_code(),
            reply.content_type@ == spec_content_type(),
            reply.body@ == json_text(self.spec_body()),
    {
        let status_code = self.status_code();
        HttpReply::json(status_code, value_text(&self.into_body()))
    }
}

impl From<ValidationFailureSet> for ApiError {
    /// The failures of a form, as the error the form is answered with.
    fn from(set: ValidationFailureSet) -> (e: ApiError) {
        ApiError::ValidationError(set)
    }
}

impl vstd::std_specs::convert::FromSpecImpl<ValidationFailureSet> for ApiError {
    open spec fn obeys_from_spec() -> bool {
        true
    }

    open spec fn from_spec(set: ValidationFailureSet) -> ApiError {
        ApiError::ValidationError(set)
    }
}

/// The object with the one member `message`.
pub fn message_value(message: &str) -> (v: serde_json::Value)
    ensures
        json_of(v) == spec_message_object(message@),
{
    single_member_value("message".to_owned(), text_value(message))
}

/// A `fail` envelope around the detail given.
pub fn fail_value(detail: serde_json::Value) -> (v: serde_json::Value)
    ensures
        json_of(v) == spec_fail_body(json_of(detail)),
{
    two_member_value("status", text_value("fail"), "data", detail)
}

/// An `error` envelope with the message given.
pub fn error_value(message: &str) -> (v: serde_json::Value)
    ensures
        json_of(v) == spec_error_body(message@),
{
    two_member_value("status", text_value("error"), "message", text_value(message))
}

/// The three keys of an envelope are three different words.
pub proof fn lemma_envelope_keys_differ()
    ensures
        "status"@ != "data"@,
        "status"@ != "message"@,
        "data"@ != "message"@,
{
    reveal_strlit("status");
    reveal_strlit("data");
    reveal_strlit("message");
    assert("status"@.len() == 6);
    assert("data"@.len() == 4);
    assert("message"@.len() == 7);
}

/// A `fail` envelope holds `status` and `data` and nothing else; an `error`
/// envelope holds `status` and `message`, and no `data`.
pub proof fn lemma_envelope_members(data: Json, message: Seq<char>)
    ensures
        spec_fail_body(data) matches Json::Object(members) && {
            &&& members.dom() == set!["status"@, "data"@]
            &&& members["status"@] == Json::Text("fail"@)
            &&& members["data"@] == data
        },
        spec_error_body(message) matches Json::Object(members) && {
            &&& members.dom() == set!["status"@, "message"@]
            &&& members["status"@] == Json::Text("error"@)
            &&& members["message"@] == Json::Text(message)
            &&& !members.contains_key("data"@)
        },
{
    lemma_envelope_keys_differ();
    reveal_with_fuel(object_of, 3);
    let fail = object_of(seq![("status"@, Json::Text("fail"@)), ("data"@, data)]);
    assert(fail.dom() =~= set!["status"@, "data"@]);
    let error = object_of(
        seq![("status"@, Json::Text("error"@)), ("message"@, Json::Text(message))],
    );
    assert(error.dom() =~= set!["status"@, "message"@]);
}

/// The error refuses the request for the one reason given for the one field.
pub open spec fn spec_refused(
    error: Option<ApiError>,
    field: Seq<char>,
    reason: Seq<char>,
) -> bool {
    &&& error matches Some(ApiError::Fail(detail))
    &&& json_of(detail) == Json::Object(object_of(seq![(field, Json::Text(reason))]))
}

/// The refusal of a request for the one reason given for the one field.
pub fn refusal(field: &str, reason: &str) -> (e: ApiError)
    ensures
        spec_refused(Some(e), field@, reason@),
{
    ApiError::Fail(single_member_value(field.to_owned(), text_value(reason)))
}

/// Status code and envelope tell a client what to do.  An error is never
/// answered as a success; a `fail`, which the client can mend, comes with
/// HTTP 200 or 401; an `error`, which it cannot, with HTTP 400 or 500.
pub proof fn lemma_fail_or_error(e: ApiError)
    ensures
        e.spec_status() != Status::Success,
        e.spec_status() == Status::Fail <==> (e.spec_status_code() == 200 || e.spec_status_code()
            == 401),
        e.spec_status() == Status::Error <==> (e.spec_status_code() == 400 || e.spec_status_code()
            == 500),
{
}

/// What holds of the errors holds of the envelopes that carry data: one
/// marked `error` is answered with HTTP 500, every other with HTTP 200.
pub proof fn lemma_envelope_code_follows_status(answer: GeneralResponse)
    ensures
        answer.status == Status::Error <==> answer.spec_status_code() == 500,
        answer.status != Status::Error <==> answer.spec_status_code() == 200,
{
}

/// The error of a request whose path cannot be read: a request that cannot
/// be read, as one with an unreadable body is.  The text is the parser's.
pub fn path_rejection(diagnostic: String) -> (e: ApiError)
    ensures
        e == ApiError::JsonRejection(diagnostic),
        e.spec_status_code() == 400,
        e.spec_status() == Status::Error,
        e.spec_message() == diagnostic@,
{
    ApiError::JsonRejection(diagnostic)
}

/// The reply to a request whose path cannot be read: HTTP 400 and an `error`
/// envelope with the parser's text as its message.
pub fn path_rejection_reply(diagnostic: String) -> (reply: HttpReply)
    ensures
        reply.status_code == 400,
        reply.content_type@ == spec_content_type(),
        reply.body@ == json_text(spec_error_body(diagnostic@)),
{
    path_rejection(diagnostic).into_response()
}

} // verus!
