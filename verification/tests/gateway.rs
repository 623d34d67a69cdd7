use directive_forwarder::gateway::{error_reply, failure_reply};
use directive_forwarder::json::{member2, object_of_one, same_text};
use directive_forwarder::{expect_for, BackendResult, Expect, FailureKind};
use serde_json::Value;

fn document(text: &str) -> Value {
    serde_json::from_str(text).unwrap()
}

#[test]
fn refused_credentials_have_their_own_kind() {
    assert_eq!(expect_for(401), Expect::Message(FailureKind::InvalidAuthorizationCredential));
    assert_eq!(expect_for(403), Expect::Message(FailureKind::InvalidAuthorizationCredential));
}

#[test]
fn other_failures_are_internal_errors() {
    for status in [400u16, 402, 404, 418, 499, 500, 502, 503, 599, u16::MAX] {
        assert_eq!(expect_for(status), Expect::Message(FailureKind::InternalError));
    }
}

#[test]
fn statuses_below_400_carry_a_document() {
    for status in [0u16, 100, 200, 201, 204, 301, 302, 399] {
        assert_eq!(expect_for(status), Expect::Document);
    }
}

#[test]
fn kinds_are_labelled_as_the_protocol_names_them() {
    assert_eq!(
        FailureKind::InvalidAuthorizationCredential.label(),
        "INVALID_AUTHORIZATION_CREDENTIAL"
    );
    assert_eq!(FailureKind::InternalError.label(), "INTERNAL_ERROR");
}

#[test]
fn refused_credential_document() {
    let result = BackendResult::Failure(
        FailureKind::InvalidAuthorizationCredential,
        "401: Unauthorized".to_string(),
    );
    assert_eq!(
        result.into_document(),
        document(
            r#"{"event": {"payload": {"type": "INVALID_AUTHORIZATION_CREDENTIAL",
                "message": "401: Unauthorized"}}}"#
        )
    );
}

#[test]
fn internal_error_document() {
    let result = BackendResult::Failure(FailureKind::InternalError, "boom".to_string());
    assert_eq!(
        result.into_document(),
        document(r#"{"event": {"payload": {"type": "INTERNAL_ERROR", "message": "boom"}}}"#)
    );
}

#[test]
fn failure_message_is_kept_as_text() {
    let body = "{\"message\": \"caf\u{e9} \\ \n\"}".to_string();
    let reply = failure_reply(FailureKind::InternalError, body.clone());
    assert_eq!(reply["event"]["payload"]["message"], Value::String(body));
    assert_eq!(reply["event"]["payload"]["type"], Value::String("INTERNAL_ERROR".to_string()));
    assert_eq!(reply.as_object().unwrap().len(), 1);
    assert_eq!(reply["event"].as_object().unwrap().len(), 1);
    assert_eq!(reply["event"]["payload"].as_object().unwrap().len(), 2);
}

#[test]
fn empty_failure_message() {
    assert_eq!(
        failure_reply(FailureKind::InternalError, String::new()),
        document(r#"{"event": {"payload": {"type": "INTERNAL_ERROR", "message": ""}}}"#)
    );
}

#[test]
fn success_is_passed_through() {
    let body = document(r#"{"ok": true}"#);
    assert_eq!(expect_for(200), Expect::Document);
    let result = BackendResult::Success(body.clone()).into_document();
    assert_eq!(result, body);
    assert_eq!(serde_json::to_string(&result).unwrap(), r#"{"ok":true}"#);
}

#[test]
fn success_that_is_no_object_is_passed_through() {
    for text in ["null", "[1,2,3]", "\"text\"", "12.5", r#"{"event":{"payload":{}}}"#] {
        let body = document(text);
        assert_eq!(BackendResult::Success(body.clone()).into_document(), body);
    }
}

#[test]
fn error_reply_document() {
    assert_eq!(
        error_reply("Failed to retrieve token"),
        document(r#"{"event": {"payload": {"error": "Failed to retrieve token"}}}"#)
    );
    assert_eq!(error_reply(""), document(r#"{"event": {"payload": {"error": ""}}}"#));
}

#[test]
fn object_of_one_holds_one_member() {
    let object = object_of_one("key", document("[1]"));
    assert_eq!(object, document(r#"{"key": [1]}"#));
    assert_ne!(object, document("[1]"));
}

#[test]
fn member2_follows_two_keys() {
    let value = document(r#"{"a": {"b": 1, "c": 2}, "b": 3}"#);
    assert_eq!(member2(&value, "a", "b"), Some(&document("1")));
    assert_eq!(member2(&value, "a", "c"), Some(&document("2")));
    assert_eq!(member2(&value, "a", "d"), None);
    assert_eq!(member2(&value, "b", "a"), None);
    assert_eq!(member2(&value, "x", "b"), None);
    assert_eq!(member2(&document("[[1]]"), "0", "0"), None);
}

#[test]
fn same_text_compares_characters() {
    assert!(same_text("3", "3"));
    assert!(same_text("", ""));
    assert!(!same_text("3", "3 "));
    assert!(!same_text("BearerToken", "bearerToken"));
}
