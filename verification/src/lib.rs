//! Runtime core for a chat-platform persona that holds multi-turn,
//! tool-augmented conversations with an LLM backend: a bounded per-channel
//! context store with snapshot/merge semantics, normalized provider adapters
//! for two incompatible wire protocols, a bounded tool-calling orchestration
//! loop with multi-model fallback, and per-user rate limiting.

pub mod adapter;
pub mod agent;
pub mod brain;
pub mod client;
pub mod commands;
pub mod config;
pub mod context;
pub mod events;
pub mod handler;
pub mod items;
pub mod orchestrate;
pub mod prefix;
pub mod ratelimit;
pub mod registry;
pub mod singleshot;
pub mod store;
pub mod strutil;
pub mod tools;
pub mod user;
