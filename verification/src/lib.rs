//! Pantry's request-handling core: the rules by which the server picks an
//! LLM, authorises callers, merges parameters, tracks interrupts and keeps
//! user settings, each stated as a contract and proved.

pub mod text;
pub mod string_map;
pub mod connectors;
pub mod llm;
pub mod ids;
pub mod user;
pub mod server;
pub mod selection;
pub mod cancel_log;
pub mod interrupts;
pub mod state;
pub mod registry;
pub mod request;
pub mod frontend;
pub mod clock;
pub mod running;
pub mod manager;
pub mod deep_link;
pub mod cli;
pub mod listeners;
pub mod emitter;
