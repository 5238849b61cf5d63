//! Core of a persisted, streaming chat service.
//!
//! The library models the chat pipeline: request validation, conversation
//! and message persistence sequencing, history replay, and the streaming
//! session protocol that relays generated text fragments to a client and
//! persists the completed reply.  Storage and inference backends are
//! collaborators; the decisions taken between calls to them live here and
//! are verified.

use vstd::prelude::*;

pub mod agent;
pub mod client;
mod clock;
pub mod errors;
pub mod handoff;
mod ids;
pub mod models;
pub mod service;
pub mod session;
pub mod store;
pub mod text;
pub mod wire;

verus! {

/// Maximum accepted length of a chat utterance, in characters.
pub const MAX_MESSAGE_LENGTH: usize = 8000;

/// Maximum length of a derived conversation title, in characters,
/// before the title is truncated and ellipsised.
pub const TITLE_MAX_CHARS: usize = 60;

/// Address of the streaming chat endpoint used by clients.
pub fn ws_url() -> (r: String)
    ensures
        r@ == "ws://localhost:3000/ws/chat"@,
{
    String::from_str("ws://localhost:3000/ws/chat")
}

} // verus!
