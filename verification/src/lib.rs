//! `elelemer` runs local Large Language Model chat completions against Llama.cpp and Ollama
//! servers through their OpenAI-compatible streaming APIs.
//!
//! This crate is the verified core: settings validation, request construction, stream chunk
//! decoding decisions, error reporting and the streaming display state machine.

pub mod cli;
pub mod configuration;
pub mod errors;
pub mod net;
pub mod openai_api;
pub mod runners;
pub mod server_sent_events;
pub mod ui;
