//! Browser-automation gateway core: session isolation, accessibility
//! snapshots, selector resolution, keyboard input, saved authentication
//! state, request dispatch and the extension bridge's correlation table.

pub mod aria;
pub mod auth;
pub mod bridge;
pub mod dispatch;
pub mod error;
pub mod input;
pub mod json;
pub mod models;
pub mod scripts;
pub mod selector;
pub mod session;
pub mod text;
