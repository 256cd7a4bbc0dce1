//! The rules of a podcast server: its admin command line, password hashes, the
//! layout of its Redis/Valkey store, its notifications, and the registry and
//! protocol through which a user's devices see and control each other.
//!
//! Nothing in here talks to a database, a store or a network. What has to be asked
//! of them is handed out as a value, and the answers are taken as arguments.

pub mod cli;
pub mod error;
pub mod handlers;
pub mod json;
pub mod keys;
pub mod models;
pub mod redis_client;
pub mod redis_manager;
pub mod services;
pub mod text;
