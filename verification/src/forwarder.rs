//! The forwarder's first decision: answer at once, or call the backend.

use crate::credential::{chars_of, resolve, resolved};
use crate::gateway::{error_document, error_reply};
use crate::json::json_of;
use serde_json::Value;
use vstd::prelude::*;
use vstd::string::StringExecFns;

verus! {

/// What the process is configured with. Both settings are read once, when
/// the process starts, and never change.
pub struct Config {
    /// Where the backend is reached.
    pub base_url: Option<String>,
    /// The credential for directives that carry none.
    pub default_token: Option<String>,
}

/// One HTTP POST to the backend.
pub struct BackendRequest {
    /// The address to post to.
    pub url: String,
    /// The value of the `Authorization` header.
    pub authorization: String,
    /// The value of the `Content-Type` header.
    pub content_type: String,
    /// The body: the inbound event, as it came.
    pub body: Value,
}

/// What to do with an inbound event.
pub enum Action {
    /// Hand this document back; no request is made.
    Reply(Value),
    /// Send this request; the backend's answer decides the result.
    Post(BackendRequest),
}

/// The address of the backend's smart-home entry under a base address.
pub open spec fn endpoint_url(base_url: Seq<char>) -> Seq<char> {
    base_url + "/api/alexa/smart_home"@
}

/// The `Authorization` header that presents a bearer token.
pub open spec fn bearer_header(token: Seq<char>) -> Seq<char> {
    "Bearer "@ + token
}

/// Whether `request` relays `event` to the backend at `base_url` under `token`.
pub open spec fn relays(
    request: BackendRequest,
    base_url: Seq<char>,
    token: Seq<char>,
    event: Value,
) -> bool {
    &&& request.url@ == endpoint_url(base_url)
    &&& request.authorization@ == bearer_header(token)
    &&& request.content_type@ == "application/json"@
    &&& request.body == event
}

/// Whether `action` is the reply that reports `reason`.
pub open spec fn reports(action: Action, reason: Seq<char>) -> bool {
    action matches Action::Reply(document) && json_of(document) == error_document(reason)
}

/// Builds the request that relays `event` under `token`.
pub fn request_for(base_url: &str, token: &str, event: Value) -> (request: BackendRequest)
    ensures
        relays(request, base_url@, token@, event),
{
    let url = base_url.to_owned().concat("/api/alexa/smart_home");
    let authorization = "Bearer ".to_owned().concat(token);
    BackendRequest { url, authorization, content_type: "application/json".to_owned(), body: event }
}

/// Decides what to do with an inbound event.
///
/// Without a base address the answer is an error document, and so it is
/// where neither the event nor the configuration yields a credential. In
/// every other case the event is posted to the backend, unchanged, under the
/// resolved credential.
pub fn plan(config: &Config, event: Value) -> (action: Action)
    ensures
        match config.base_url {
            None => reports(action, "Failed to retrieve base url"@),
            Some(base_url) => match resolved(json_of(event), chars_of(config.default_token)) {
                None => reports(action, "Failed to retrieve token"@),
                Some(token) => action matches Action::Post(request) && relays(
                    request,
                    base_url@,
                    token,
                    event,
                ),
            },
        },
{
    let base_url = match &config.base_url {
        Some(base_url) => base_url,
        None => {
            return Action::Reply(error_reply("Failed to retrieve base url"));
        },
    };
    let default_token = match &config.default_token {
        Some(token) => Some(token.clone()),
        None => None,
    };
    match resolve(&event, default_token) {
        Some(token) => Action::Post(request_for(base_url.as_str(), token.as_str(), event)),
        None => Action::Reply(error_reply("Failed to retrieve token")),
    }
}

} // verus!
