//! The desktop agent with a user interface: its configuration, the command
//! loop of its server, and the decisions of its window and tray menu.
pub mod config;
pub mod frame;
pub mod server;
