//! The agent server of the agent library: what it is built from, and the
//! address it listens on.
use vstd::prelude::*;
use std::sync::Arc;
use crate::config::AgentServerConfig;
use crate::text::{decimal, push_decimal};

verus! {

/// Chooses how the payload of each message to the proxy is encrypted.
pub struct AgentServerPayloadEncryptionTypeSelector;

/// Why the agent server cannot start.
#[derive(Debug, Clone, Copy, PartialEq, Eq, Structural)]
pub enum ServerError {
    /// The configuration gives no port; `ipv6` tells which address was asked for.
    PortMissing { ipv6: bool },
}

/// The address text that the server binds: `::1:port` on IPv6,
/// `0.0.0.0:port` otherwise.
pub open spec fn spec_bind_address(ipv6: bool, port: u16) -> Seq<char> {
    (if ipv6 {
        "::1:"@
    } else {
        "0.0.0.0:"@
    }) + decimal(port as nat)
}

/// Renders the address that a server listening on `port` binds.
pub fn render_bind_address(ipv6: bool, port: u16) -> (r: String)
    ensures
        r@ == spec_bind_address(ipv6, port),
{
    let mut s = if ipv6 {
        String::from_str("::1:")
    } else {
        String::from_str("0.0.0.0:")
    };
    push_decimal(&mut s, port as u64);
    s
}

/// The agent server, built from its configuration.
pub struct AgentServer {
    configuration: Arc<AgentServerConfig>,
}

impl AgentServer {
    pub closed spec fn spec_configuration(&self) -> AgentServerConfig {
        *self.configuration
    }

    pub fn new(configuration: Arc<AgentServerConfig>) -> (r: Self)
        ensures
            r.spec_configuration() == *configuration,
    {
        Self { configuration }
    }

    /// The configuration the server was built from.
    pub fn configuration(&self) -> (r: Arc<AgentServerConfig>)
        ensures
            *r == self.spec_configuration(),
    {
        self.configuration.clone()
    }

    /// The address to bind: on the configured port, IPv6 loopback or every
    /// IPv4 interface as the configuration says; an error if no port is
    /// configured.
    pub fn bind_address(&self) -> (r: Result<String, ServerError>)
        ensures
            match self.spec_configuration().port {
                None => r == Err::<String, ServerError>(
                    ServerError::PortMissing { ipv6: self.spec_configuration().ipv6.unwrap_or(false) },
                ),
                Some(p) => r matches Ok(s) && s@ == spec_bind_address(
                    self.spec_configuration().ipv6.unwrap_or(false),
                    p,
                ),
            },
    {
        let ipv6 = self.configuration.get_ipv6();
        match self.configuration.get_port() {
            None => Err(ServerError::PortMissing { ipv6 }),
            Some(port) => Ok(render_bind_address(ipv6, *port)),
        }
    }
}

} // verus!
