//! Verified core of the ppaass agent: the SOCKS5 and HTTP proxy front end
//! that accepts client connections and relays them to a ppaass proxy.
pub mod config;
pub mod console;
pub mod crypto;
pub mod desktop;
pub mod gui;
pub mod text;
pub mod wire;
pub mod socks5;
pub mod dispatch;
pub mod server;
pub mod http;
pub mod flow;
pub mod inbound;
pub mod pool;
