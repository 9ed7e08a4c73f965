//! Verified core of the Atuin AI inline assistant: the conversation state
//! machine, the API message encoding, the turn grouping used by the view, the
//! key handling of the inline TUI and the decoding of server-sent events.

pub mod text;
pub mod json;
pub mod state;
pub mod queries;
pub mod messages;
pub mod turns;
pub mod stream;
pub mod keys;
pub mod session;
pub mod hub;
pub mod input_box;
