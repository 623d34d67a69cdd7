//! Reading the backend's answer.
//!
//! A status below 400 means that the body is the result, handed back as it
//! came. Any other status becomes a failure document, whose `message` is the
//! body's text and whose `type` tells a refused credential from the rest.

use crate::json::{json_of, members_of, no_members, object_of_one, object_value, put, text_value, Json};
use serde_json::Value;
use vstd::prelude::*;

verus! {

/// Why the backend's answer counts as a failure.
#[derive(Clone, Copy, Debug, PartialEq, Eq, Structural)]
pub enum FailureKind {
    /// The backend refused the credential (status 401 or 403).
    InvalidAuthorizationCredential,
    /// Any other status from 400 up.
    InternalError,
}

impl FailureKind {
    /// The name under which the kind appears in a failure document.
    pub open spec fn label_chars(self) -> Seq<char> {
        match self {
            FailureKind::InvalidAuthorizationCredential => "INVALID_AUTHORIZATION_CREDENTIAL"@,
            FailureKind::InternalError => "INTERNAL_ERROR"@,
        }
    }

    /// The kind of failure that a status of 400 or more stands for.
    pub open spec fn of_status(status: u16) -> FailureKind {
        if status == 401 || status == 403 {
            FailureKind::InvalidAuthorizationCredential
        } else {
            FailureKind::InternalError
        }
    }

    /// The name under which the kind appears in a failure document.
    pub fn label(self) -> (name: &'static str)
        ensures
            name@ == self.label_chars(),
    {
        match self {
            FailureKind::InvalidAuthorizationCredential => "INVALID_AUTHORIZATION_CREDENTIAL",
            FailureKind::InternalError => "INTERNAL_ERROR",
        }
    }
}

/// What to read from a response, once its status is known.
#[derive(Clone, Copy, Debug, PartialEq, Eq, Structural)]
pub enum Expect {
    /// The body is a JSON document: the result.
    Document,
    /// The body is the text of an error message of the given kind.
    Message(FailureKind),
}

/// What a status calls for.
pub open spec fn expected(status: u16) -> Expect {
    if status < 400 {
        Expect::Document
    } else {
        Expect::Message(FailureKind::of_status(status))
    }
}

/// Says how the body of a response with this status is to be read.
pub fn expect_for(status: u16) -> (expect: Expect)
    ensures
        expect == expected(status),
{
    if status >= 400 {
        if status == 401 || status == 403 {
            Expect::Message(FailureKind::InvalidAuthorizationCredential)
        } else {
            Expect::Message(FailureKind::InternalError)
        }
    } else {
        Expect::Document
    }
}

/// The document `{"event": {"payload": payload}}`.
pub open spec fn enveloped(payload: Map<Seq<char>, Json>) -> Json {
    Json::Object(
        map!["event"@ => Json::Object(map!["payload"@ => Json::Object(payload)])],
    )
}

/// The document `{"event": {"payload": {"error": reason}}}`.
pub open spec fn error_document(reason: Seq<char>) -> Json {
    enveloped(map!["error"@ => Json::Text(reason)])
}

/// The document `{"event": {"payload": {"type": kind, "message": message}}}`.
pub open spec fn failure_document(kind: FailureKind, message: Seq<char>) -> Json {
    enveloped(
        map!["type"@ => Json::Text(kind.label_chars()), "message"@ => Json::Text(message)],
    )
}

/// Wraps a payload as `{"event": {"payload": payload}}`.
fn envelope(payload: serde_json::Map<String, Value>) -> (document: Value)
    ensures
        json_of(document) == enveloped(members_of(payload)),
{
    object_of_one("event", object_of_one("payload", object_value(payload)))
}

/// Builds the document that reports `reason` as an error.
pub fn error_reply(reason: &str) -> (document: Value)
    ensures
        json_of(document) == error_document(reason@),
{
    let mut payload = no_members();
    put(&mut payload, "error".to_owned(), text_value(reason.to_owned()));
    envelope(payload)
}

/// Builds the document that reports a failed backend call.
pub fn failure_reply(kind: FailureKind, message: String) -> (document: Value)
    ensures
        json_of(document) == failure_document(kind, message@),
{
    let mut payload = no_members();
    put(&mut payload, "type".to_owned(), text_value(kind.label().to_owned()));
    put(&mut payload, "message".to_owned(), text_value(message));
    envelope(payload)
}

/// The outcome of one backend call that got an answer.
pub enum BackendResult {
    /// The backend's document.
    Success(Value),
    /// The kind of failure and the text of the backend's answer.
    Failure(FailureKind, String),
}

impl BackendResult {
    /// The document that stands for this outcome.
    pub open spec fn document(self) -> Json {
        match self {
            BackendResult::Success(body) => json_of(body),
            BackendResult::Failure(kind, message) => failure_document(kind, message@),
        }
    }

    /// Turns the outcome into the result of the invocation: the backend's
    /// document itself on success, a failure document otherwise.
    pub fn into_document(self) -> (document: Value)
        ensures
            json_of(document) == self.document(),
            self matches BackendResult::Success(body) ==> document == body,
    {
        match self {
            BackendResult::Success(body) => body,
            BackendResult::Failure(kind, message) => failure_reply(kind, message),
        }
    }
}

} // verus!
