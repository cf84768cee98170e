//! Decisions of a notification service that forwards task reports to QQ private chats.
//!
//! The service keeps a WebSocket session with the QQ gateway, learns from it who the default
//! recipient of notifications is, and offers an HTTP API through which a token holder sends
//! text, Markdown and uploaded files to that recipient or to a named user. This crate holds
//! what the service decides and computes; reading, sending, sleeping and locking are its
//! caller's.
pub mod binding;
pub mod digest;
pub mod file_name;
pub mod gateway;
pub mod headers;
pub mod http_api;
pub mod json;
pub mod media;
pub mod qq_api;
pub mod settings;
pub mod state;
pub mod text;
pub mod transfer;
