//! Decision core of a Telegram support bot that files chat messages as Pylon issues.
//!
//! The library decides and never acts: it reads updates and settings as plain values and says
//! what to send, what to ask of Pylon and what to save. Sending, asking and saving are up to
//! the program around it.

pub mod cli;
pub mod config;
pub mod endpoints;
pub mod markdown;
pub mod pylon;
pub mod router;
pub mod telegram;
pub mod text;
pub mod watcher;
