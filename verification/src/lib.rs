//! Decisions of a smart-home directive forwarder.
//!
//! A directive arrives as a JSON document. The library finds the bearer
//! credential that the directive carries (or falls back to a configured one),
//! says which HTTP request relays the directive to the backend, and turns the
//! backend's answer into the document that is handed back. The network
//! exchange itself is left to the caller: the library only decides.

pub mod credential;
pub mod forwarder;
pub mod gateway;
pub mod json;

pub use credential::resolve;
pub use forwarder::{plan, Action, BackendRequest, Config};
pub use gateway::{expect_for, BackendResult, Expect, FailureKind};
pub use json::Json;
