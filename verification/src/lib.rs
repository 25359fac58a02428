//! Device-flow login for a command-line tool, the credential store behind it,
//! and the tool's settings.
//!
//! The crate holds the decisions; talking to the network, the terminal and the
//! settings file is left to the program that uses it.

pub mod auth;
pub mod client;
pub mod commands;
pub mod config;
pub mod error;
pub mod text;

pub use error::CliError;
