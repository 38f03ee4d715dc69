//! Core of an interactive chat REPL: a command dispatcher that interprets
//! discrete user commands against a shared configuration, and a stream relay
//! that buffers streamed reply fragments while cooperating with a shared
//! cancellation signal.

pub mod abort;
pub mod clipboard;
pub mod config;
pub mod errors;
pub mod handler;
pub mod relay;
pub mod text;
