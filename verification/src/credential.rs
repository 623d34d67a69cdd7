//! Finding the bearer credential of a directive.
//!
//! A directive is searched only when its header declares payload version
//! `"3"`. The scope is then looked for at `endpoint.scope`, `payload.grantee`
//! and `payload.scope`, in that order, and the first one present decides: if
//! it is not of type `BearerToken`, nothing is taken from the directive, even
//! where a later place holds a usable scope. Whenever the directive yields no
//! token, the configured default is the answer.

use crate::json::{json_of, json_of_opt, member, member2, same_text, text, Json};
use serde_json::Value;
use vstd::prelude::*;

verus! {

/// The value at `directive.header.payloadVersion`.
pub open spec fn payload_version(event: Json) -> Option<Json> {
    match event.field("directive"@) {
        Some(directive) => directive.field2("header"@, "payloadVersion"@),
        None => None,
    }
}

/// Whether the declared payload version is the string `"3"`.
pub open spec fn version_accepted(event: Json) -> bool {
    payload_version(event) == Some(Json::Text("3"@))
}

/// The first scope present among the three places where one may stand.
pub open spec fn candidate(directive: Json) -> Option<Json> {
    if directive.field2("endpoint"@, "scope"@) is Some {
        directive.field2("endpoint"@, "scope"@)
    } else if directive.field2("payload"@, "grantee"@) is Some {
        directive.field2("payload"@, "grantee"@)
    } else {
        directive.field2("payload"@, "scope"@)
    }
}

/// Whether the scope's `type` is the string `"BearerToken"`.
pub open spec fn is_bearer(scope: Json) -> bool {
    scope.field("type"@) == Some(Json::Text("BearerToken"@))
}

/// The token of a scope: the string under `token`, for a bearer scope only.
pub open spec fn scope_token(scope: Json) -> Option<Seq<char>> {
    if is_bearer(scope) {
        match scope.field("token"@) {
            Some(token) => token.text(),
            None => None,
        }
    } else {
        None
    }
}

/// The part of the event that is searched: its `directive` member, and only
/// where the version is accepted.
pub open spec fn searched(event: Json) -> Option<Json> {
    if version_accepted(event) {
        event.field("directive"@)
    } else {
        None
    }
}

/// The token that the directive itself carries.
pub open spec fn carried_token(event: Json) -> Option<Seq<char>> {
    match searched(event) {
        Some(directive) => match candidate(directive) {
            Some(scope) => scope_token(scope),
            None => None,
        },
        None => None,
    }
}

/// The credential for a directive: the one it carries, else the default.
pub open spec fn resolved(event: Json, default_token: Option<Seq<char>>) -> Option<Seq<char>> {
    match carried_token(event) {
        Some(token) => Some(token),
        None => default_token,
    }
}

/// Model of an optional owned string.
pub open spec fn chars_of(text: Option<String>) -> Option<Seq<char>> {
    match text {
        Some(t) => Some(t@),
        None => None,
    }
}

/// The `directive` member, when its header declares payload version `"3"`.
fn accepted_directive<'a>(event: &'a Value) -> (directive: Option<&'a Value>)
    ensures
        json_of_opt(directive) == searched(json_of(*event)),
{
    let directive = member(event, "directive")?;
    let version = text(member2(directive, "header", "payloadVersion")?)?;
    if same_text(version, "3") {
        Some(directive)
    } else {
        None
    }
}

/// The first scope present in the directive.
fn first_scope<'a>(directive: &'a Value) -> (scope: Option<&'a Value>)
    ensures
        json_of_opt(scope) == candidate(json_of(*directive)),
{
    let at_endpoint = member2(directive, "endpoint", "scope");
    if at_endpoint.is_some() {
        return at_endpoint;
    }
    let at_grantee = member2(directive, "payload", "grantee");
    if at_grantee.is_some() {
        return at_grantee;
    }
    member2(directive, "payload", "scope")
}

/// The token of one scope.
fn token_of_scope(scope: &Value) -> (token: Option<String>)
    ensures
        chars_of(token) == scope_token(json_of(*scope)),
{
    let kind = text(member(scope, "type")?)?;
    if !same_text(kind, "BearerToken") {
        return None;
    }
    let token = text(member(scope, "token")?)?;
    Some(token.to_owned())
}

/// The token that the directive itself carries, if any.
pub fn token_in_directive(event: &Value) -> (token: Option<String>)
    ensures
        chars_of(token) == carried_token(json_of(*event)),
{
    let directive = accepted_directive(event)?;
    let scope = first_scope(directive)?;
    token_of_scope(scope)
}

/// Resolves the credential for a directive: the token that the directive
/// carries, else `default_token`, else nothing.
pub fn resolve(event: &Value, default_token: Option<String>) -> (token: Option<String>)
    ensures
        chars_of(token) == resolved(json_of(*event), chars_of(default_token)),
        carried_token(json_of(*event)) is None ==> token == default_token,
{
    match token_in_directive(event) {
        Some(token) => Some(token),
        None => default_token,
    }
}

/// Resolution yields nothing only where the directive carries no token and no
/// default is configured.
pub proof fn unresolved_only_without_any_token(event: Json, default_token: Option<Seq<char>>)
    ensures
        resolved(event, default_token) is None <==> carried_token(event) is None
            && default_token is None,
{
}

/// A directive that does not declare payload version `"3"` is never
/// searched: its credential is the default, whatever scopes it holds.
pub proof fn other_version_uses_default(event: Json, default_token: Option<Seq<char>>)
    requires
        payload_version(event) != Some(Json::Text("3"@)),
    ensures
        resolved(event, default_token) == default_token,
{
}

/// With payload version `"3"`, a bearer scope at `endpoint.scope` decides:
/// its token is the credential, whatever stands at `payload.grantee` or
/// `payload.scope`.
pub proof fn endpoint_scope_comes_first(
    event: Json,
    directive: Json,
    scope: Json,
    token: Seq<char>,
    default_token: Option<Seq<char>>,
)
    requires
        payload_version(event) == Some(Json::Text("3"@)),
        event.field("directive"@) == Some(directive),
        directive.field2("endpoint"@, "scope"@) == Some(scope),
        scope.field("type"@) == Some(Json::Text("BearerToken"@)),
        scope.field("token"@) == Some(Json::Text(token)),
    ensures
        resolved(event, default_token) == Some(token),
{
}

/// With payload version `"3"`, the first scope present is the only one
/// examined: if its type is not `"BearerToken"`, the credential is the
/// default, even where a later place holds a bearer scope.
pub proof fn first_scope_alone_is_examined(
    event: Json,
    directive: Json,
    scope: Json,
    default_token: Option<Seq<char>>,
)
    requires
        payload_version(event) == Some(Json::Text("3"@)),
        event.field("directive"@) == Some(directive),
        candidate(directive) == Some(scope),
        scope.field("type"@) != Some(Json::Text("BearerToken"@)),
    ensures
        resolved(event, default_token) == default_token,
{
}

} // verus!
