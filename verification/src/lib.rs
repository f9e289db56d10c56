//! Typed, verified core of a client library for Pluggable Authentication
//! Modules: status codes, message styles, message parsing, the conversation
//! step that answers a batch of messages, and the bookkeeping of a client
//! session.

pub mod ffi;

pub mod error;
pub mod text;
pub mod raw;
pub mod converse;
pub mod client;
pub mod prelude;
