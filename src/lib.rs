//! A streaming sink that writes each record of a stream into a key-value store.

pub mod command;
pub mod config;
pub mod session;
pub mod sink;
pub mod store;
pub mod text;
