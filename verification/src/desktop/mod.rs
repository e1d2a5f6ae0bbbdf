//! The desktop agent library: its configuration and its server.
pub mod config;
pub mod server;
