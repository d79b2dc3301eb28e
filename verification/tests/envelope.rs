use serde_json::Value;
use session_gate::response::{
    content_type, path_rejection, path_rejection_reply, refusal, ApiError, GeneralResponse,
    HttpReply, Status,
};
use session_gate::validation::ValidationFailureSet;

fn object(members: Vec<(&str, Value)>) -> Value {
    let mut map = serde_json::Map::new();
    for (key, value) in members {
        map.insert(key.to_string(), value);
    }
    Value::Object(map)
}

fn text(value: &str) -> Value {
    Value::String(value.to_string())
}

#[test]
fn logout_envelope_has_empty_list_as_data() {
    let answer = GeneralResponse { status: Status::Success, data: None };
    assert_eq!(answer.body_text(), "{\"status\":\"success\",\"data\":[]}");
    let reply = answer.into_response();
    assert_eq!(reply.status_code, 200);
    assert_eq!(reply.body, "{\"status\":\"success\",\"data\":[]}");
}

#[test]
fn empty_data_is_neither_null_nor_left_out() {
    let answer = GeneralResponse::success(None);
    let parsed: Value = serde_json::from_str(&answer.body_text()).unwrap();
    assert_eq!(parsed["data"], Value::Array(vec![]));
    assert_ne!(parsed["data"], Value::Null);
    assert_eq!(answer.data_text(), "[]");
    assert_eq!(answer.into_wire_data(), Value::Array(vec![]));
}

#[test]
fn success_envelope_carries_its_payload() {
    let answer = GeneralResponse::success(Some(object(vec![("username", text("alice"))])));
    assert_eq!(answer.body_text(), "{\"status\":\"success\",\"data\":{\"username\":\"alice\"}}");
    assert_eq!(answer.into_wire_data(), object(vec![("username", text("alice"))]));
}

#[test]
fn envelope_status_is_written_in_lower_case() {
    assert_eq!(Status::Success.name(), "success");
    assert_eq!(Status::Fail.name(), "fail");
    assert_eq!(Status::Error.name(), "error");
    let answer = GeneralResponse { status: Status::Fail, data: Some(text("x\"y")) };
    assert_eq!(answer.body_text(), "{\"status\":\"fail\",\"data\":\"x\\\"y\"}");
}

#[test]
fn every_reply_is_json() {
    assert_eq!(content_type(), "application/json");
    assert_eq!(GeneralResponse::success(None).into_response().content_type, "application/json");
    assert_eq!(ApiError::Unauthorized.into_response().content_type, "application/json");
    assert_eq!(ApiError::InternalServerError.into_response().content_type, "application/json");
    assert_eq!(path_rejection_reply(String::new()).content_type, "application/json");
    let reply = HttpReply::json(200, "[]".to_string());
    assert_eq!(reply.status_code, 200);
    assert_eq!(reply.content_type, "application/json");
    assert_eq!(reply.body, "[]");
}

#[test]
fn fail_with_payload_is_http_200() {
    let error = ApiError::Fail(object(vec![("username", text("already exists"))]));
    assert_eq!(error.status_code(), 200);
    assert_eq!(error.status(), Status::Fail);
    let reply = error.into_response();
    assert_eq!(reply.status_code, 200);
    assert_eq!(reply.body, "{\"data\":{\"username\":\"already exists\"},\"status\":\"fail\"}");
}

#[test]
fn fail_with_message_wraps_the_message() {
    let reply = ApiError::FailMsg("User not found".to_string()).into_response();
    assert_eq!(reply.status_code, 200);
    assert_eq!(reply.body, "{\"data\":{\"message\":\"User not found\"},\"status\":\"fail\"}");
}

#[test]
fn unauthorized_is_http_401_with_fixed_message() {
    let error = ApiError::Unauthorized;
    assert_eq!(error.status_code(), 401);
    assert_eq!(error.status(), Status::Fail);
    let reply = error.into_response();
    assert_eq!(reply.status_code, 401);
    assert_eq!(reply.body, "{\"data\":{\"message\":\"not authorized\"},\"status\":\"fail\"}");
}

#[test]
fn not_found_names_the_resource() {
    let reply = ApiError::NotFound("profile".to_string()).into_response();
    assert_eq!(reply.status_code, 200);
    assert_eq!(reply.body, "{\"data\":{\"profile\":\"profile not found\"},\"status\":\"fail\"}");
}

#[test]
fn internal_error_is_http_500_and_says_nothing() {
    let error = ApiError::InternalServerError;
    assert_eq!(error.status_code(), 500);
    assert_eq!(error.status(), Status::Error);
    let reply = error.into_response();
    assert_eq!(reply.status_code, 500);
    assert_eq!(reply.body, "{\"message\":\"internal server error\",\"status\":\"error\"}");
}

#[test]
fn malformed_request_is_http_400_with_the_diagnostic() {
    let error = ApiError::JsonRejection("missing field `username` at line 1 column 2".to_string());
    assert_eq!(error.status_code(), 400);
    assert_eq!(error.status(), Status::Error);
    let reply = error.into_response();
    assert_eq!(reply.status_code, 400);
    assert_eq!(
        reply.body,
        "{\"message\":\"missing field `username` at line 1 column 2\",\"status\":\"error\"}"
    );
}

#[test]
fn validation_failures_are_the_data_of_a_fail() {
    let mut set = ValidationFailureSet::new();
    set.record("username", "username too long");
    set.record("email", "not a valid email");
    let error = ApiError::ValidationError(set);
    assert_eq!(error.status_code(), 200);
    assert_eq!(error.status(), Status::Fail);
    let reply = error.into_response();
    assert_eq!(reply.status_code, 200);
    let parsed: Value = serde_json::from_str(&reply.body).unwrap();
    assert_eq!(
        parsed,
        object(vec![
            ("status", text("fail")),
            (
                "data",
                object(vec![
                    ("username", text("username too long")),
                    ("email", text("not a valid email")),
                ])
            ),
        ])
    );
}

#[test]
fn error_body_is_the_document_of_into_body() {
    let body = ApiError::FailMsg("no".to_string()).into_body();
    assert_eq!(
        body,
        object(vec![("status", text("fail")), ("data", object(vec![("message", text("no"))]))])
    );
    let body = ApiError::InternalServerError.into_body();
    assert_eq!(
        body,
        object(vec![("status", text("error")), ("message", text("internal server error"))])
    );
}

#[test]
fn refusal_names_field_and_reason() {
    let reply = refusal("post", "post doesnt exist").into_response();
    assert_eq!(reply.status_code, 200);
    assert_eq!(reply.body, "{\"data\":{\"post\":\"post doesnt exist\"},\"status\":\"fail\"}");
}

#[test]
fn unreadable_path_is_a_malformed_request_with_http_400() {
    let reply = path_rejection_reply("Invalid URL: cannot parse `seven` to a `u32`".to_string());
    assert_eq!(reply.status_code, 400);
    assert_eq!(reply.content_type, "application/json");
    assert_eq!(
        reply.body,
        "{\"message\":\"Invalid URL: cannot parse `seven` to a `u32`\",\"status\":\"error\"}"
    );
    let error = path_rejection("no such segment".to_string());
    assert!(matches!(error, ApiError::JsonRejection(ref text) if text == "no such segment"));
    assert_eq!(error.status_code(), 400);
    assert_eq!(error.status(), Status::Error);
}

#[test]
fn fail_and_error_are_told_apart_by_status_and_code() {
    let errors = vec![
        ApiError::Fail(Value::Null),
        ApiError::FailMsg(String::new()),
        ApiError::Unauthorized,
        ApiError::NotFound("post".to_string()),
        ApiError::InternalServerError,
        ApiError::JsonRejection(String::new()),
        ApiError::ValidationError(ValidationFailureSet::new()),
    ];
    for error in errors {
        let status = error.status();
        let code = error.status_code();
        assert_ne!(status, Status::Success);
        if status == Status::Fail {
            assert!(code == 200 || code == 401);
        } else {
            assert!(code == 400 || code == 500);
        }
        let parsed: Value = serde_json::from_str(&error.into_response().body).unwrap();
        assert_eq!(parsed["status"], text(status.name()));
        if status == Status::Fail {
            assert!(parsed.get("data").is_some());
        } else {
            assert!(parsed.get("message").is_some());
            assert!(parsed.get("data").is_none());
        }
    }
}

#[test]
fn failures_of_a_form_become_a_validation_error() {
    let mut set = ValidationFailureSet::new();
    set.record("title", "title is required");
    let error = ApiError::from(set);
    assert!(matches!(error, ApiError::ValidationError(_)));
    assert_eq!(
        error.into_response().body,
        "{\"data\":{\"title\":\"title is required\"},\"status\":\"fail\"}"
    );
}

#[test]
fn envelope_marked_error_is_answered_as_the_internal_error() {
    let answer = GeneralResponse { status: Status::Error, data: Some(text("a secret")) };
    let reply = answer.into_response();
    assert_eq!(reply.status_code, 500);
    assert_eq!(reply.body, "{\"message\":\"internal server error\",\"status\":\"error\"}");
    let answer = GeneralResponse { status: Status::Fail, data: Some(text("why")) };
    let reply = answer.into_response();
    assert_eq!(reply.status_code, 200);
    assert_eq!(reply.body, "{\"status\":\"fail\",\"data\":\"why\"}");
}
