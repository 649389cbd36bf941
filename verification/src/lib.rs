//! Core logic of a small AI assistant panel for the COSMIC desktop: chat and
//! settings models, the settings form, what the chat actions do to the state,
//! provider request building and stream decoding, the request in flight,
//! prompt assembly, personalization migration helpers, and rebuilding the
//! state from its files.

pub mod text;
pub mod chat;
pub mod settings_laws;
pub mod personalization;
pub mod json;
pub mod runtime;
pub mod provider;
pub mod storage;
pub mod settings_state;
pub mod display;
pub mod conversation;
pub mod secrets;
pub mod stream_laws;
pub mod keys;
pub mod requests;
pub mod message_actions;
pub mod panel_actions;
