//! Typed bindings for the browser WebExtension APIs.
//!
//! The library's job is marshaling: native call arguments are converted into
//! the JSON-like values the browser host expects, and the host's JSON-like
//! responses are converted back into typed structures. The conversions are
//! verified against an explicit model of the host's value space (see [`json`]).

mod error;
mod event_listener;
mod events;

pub mod json;

pub use crate::error::Error;
pub use crate::event_listener::ListenerLifecycle;

pub mod bookmarks;
pub mod contextual_identities;
pub mod downloads;
pub mod history;
pub mod omnibox;
pub mod tabs;
