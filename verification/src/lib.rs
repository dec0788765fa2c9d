//! Verified core of an MCP server that drives the `flute-webhooks` command-line tool.
//!
//! The library decides everything that does not need the outside world: how the
//! start-up environment becomes a [`config::Config`], which argv each tool hands to
//! the CLI, how a finished CLI process becomes a result or a [`error::FluteError`],
//! and what payload every tool reply carries.

pub mod config;
pub mod text;
pub mod error;
pub mod runner;
pub mod server;
