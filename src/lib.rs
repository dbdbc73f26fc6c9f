//! A virtual filesystem that exposes LLM conversations, stateless model
//! queries and semantic-search indexes as files and directories.
//!
//! The library holds the filesystem engine: the node model, the inode
//! registry, the state store, the path resolver and the per-node handlers.
//! Kernel callbacks, network clients and the async executor live outside
//! and feed it plain values.
pub mod chat;
pub mod config;
pub mod dirs;
pub mod engine;
pub mod error;
pub mod handlers;
pub mod node;
pub mod registry;
pub mod resolver;
pub mod settings;
pub mod state;
pub mod text;
pub mod wire;
