//! An LLM-driven shell agent: the message model, the tool catalog and
//! dispatcher, the bounded agent loop and the line-delimited protocol server.

pub mod text;
pub mod json;
pub mod message;
pub mod executor;
pub mod catalog;
pub mod tools;
pub mod agent;
pub mod protocol;
pub mod encoding;
pub mod backend;
pub mod config;
