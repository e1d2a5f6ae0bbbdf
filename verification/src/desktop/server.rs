//! The agent server of the desktop agent library.
use vstd::prelude::*;
use std::sync::Arc;
use crate::desktop::config::AgentServerConfig;
use crate::server::{render_bind_address, spec_bind_address, ServerError};

verus! {

/// The desktop agent server, built from its configuration.
pub struct AgentServer {
    configuration: Arc<AgentServerConfig>,
}

impl AgentServer {
    pub closed spec fn spec_configuration(&self) -> AgentServerConfig {
        *self.configuration
    }

    pub fn new(configuration: Arc<AgentServerConfig>) -> (r: Self)
        ensures
            r.spec_configuration() == *configuration,
    {
        Self { configuration }
    }

    /// The configuration the server was built from.
    pub fn configuration(&self) -> (r: Arc<AgentServerConfig>)
        ensures
            *r == self.spec_configuration(),
    {
        self.configuration.clone()
    }

    /// The address to bind: on the configured port, IPv6 loopback or every
    /// IPv4 interface as the configuration says; an error if no port is
    /// configured.
    pub fn bind_address(&self) -> (r: Result<String, ServerError>)
        ensures
            match self.spec_configuration().port {
                None => r == Err::<String, ServerError>(
                    ServerError::PortMissing { ipv6: self.spec_configuration().ipv6.unwrap_or(false) },
                ),
                Some(p) => r matches Ok(s) && s@ == spec_bind_address(
                    self.spec_configuration().ipv6.unwrap_or(false),
                    p,
                ),
            },
    {
        let ipv6 = self.configuration.get_ipv6();
        match self.configuration.get_port() {
            None => Err(ServerError::PortMissing { ipv6 }),
            Some(port) => Ok(render_bind_address(ipv6, *port)),
        }
    }
}

} // verus!
