//! A verified core for a turn-rotating, multi-persona conversation demo.
//!
//! The library holds the append-only message log, the prompt and transcript
//! rendering, and the decisions of the timed conversation loop; the console,
//! the clock and the text-generation client stay with the caller.

pub mod bot_agent;
pub mod bot_config;
pub mod conversation_runner;
pub mod jungian_modelling;
pub mod progress_bar;
pub mod room_setup;
pub mod text;
pub mod transcript;

