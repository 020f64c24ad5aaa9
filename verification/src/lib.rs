//! Core logic of a desktop client for a code-hosting service: the
//! Action/Event command bridge, the OAuth device-flow controller, the
//! fetch-engine URL and request construction, and the shared data model.
//!
//! Network, process and keyring I/O live outside this crate; every decision
//! the client makes between those calls is implemented and verified here.

pub mod auth;
pub mod dispatch;
pub mod engine;
pub mod errors;
pub mod events;
pub mod i18n;
pub mod rest;
pub mod strutil;
pub mod token;
pub mod types;
pub mod ui_state;
pub mod viewer;
