//! The configuration of the console agent, read from its TOML file.
use vstd::prelude::*;
use crate::server::{render_bind_address, spec_bind_address};

verus! {

/// The settings of the console agent; an absent setting takes its default.
#[derive(Debug)]
pub struct AgentConfig {
    /// The user token presented to the proxy.
    pub user_token: Option<String>,
    /// Whether the agent listens on IPv6.
    pub ipv6: Option<bool>,
    /// The port the agent listens on.
    pub port: Option<u16>,
    /// The directory that holds the RSA key files of each user.
    pub rsa_dir: Option<String>,
    /// The number of worker threads.
    pub agent_server_worker_thread_number: Option<usize>,
    /// Whether messages to the proxy are compressed.
    pub compress: Option<bool>,
    /// The addresses of the proxies.
    pub proxy_addresses: Option<Vec<String>>,
    /// The buffer size of client reads.
    pub client_receive_buffer_size: Option<usize>,
    /// The buffer size of proxy writes.
    pub proxy_send_buffer_size: Option<usize>,
    /// Seconds to wait when connecting to a proxy.
    pub connect_to_proxy_timeout: Option<u64>,
    /// Seconds to wait for data from the proxy while relaying.
    pub proxy_relay_timeout: Option<u64>,
    /// Seconds to wait for data from the client while relaying.
    pub client_relay_timeout: Option<u64>,
}

impl Default for AgentConfig {
    fn default() -> (r: Self)
        ensures
            r.user_token is None,
            r.ipv6 is None,
            r.port is None,
            r.rsa_dir is None,
            r.agent_server_worker_thread_number is None,
            r.compress is None,
            r.proxy_addresses is None,
            r.client_receive_buffer_size is None,
            r.proxy_send_buffer_size is None,
            r.connect_to_proxy_timeout is None,
            r.proxy_relay_timeout is None,
            r.client_relay_timeout is None,
    {
        AgentConfig { user_token: None, ipv6: None, port: None, rsa_dir: None, agent_server_worker_thread_number: None, compress: None, proxy_addresses: None, client_receive_buffer_size: None, proxy_send_buffer_size: None, connect_to_proxy_timeout: None, proxy_relay_timeout: None, client_relay_timeout: None }
    }
}

impl AgentConfig {
    pub fn get_user_token(&self) -> (r: &Option<String>)
        ensures
            *r == self.user_token,
    {
        &self.user_token
    }

    pub fn set_user_token(&mut self, user_token: String)
        ensures
            *final(self) == old(self).apply_update(AgentConfigUpdate::UserToken(user_token)),
    {
        self.user_token = Some(user_token);
    }

    pub fn set_proxy_addresses(&mut self, proxy_addresses: Vec<String>)
        ensures
            *final(self) == old(self).apply_update(AgentConfigUpdate::ProxyAddresses(proxy_addresses)),
    {
        self.proxy_addresses = Some(proxy_addresses);
    }

    pub fn get_proxy_addresses(&self) -> (r: Option<&Vec<String>>)
        ensures
            r is Some <==> self.proxy_addresses is Some,
            r is Some ==> *r->0 == self.proxy_addresses->0,
    {
        self.proxy_addresses.as_ref()
    }

    pub fn set_ipv6(&mut self, ipv6: bool)
        ensures
            *final(self) == old(self).apply_update(AgentConfigUpdate::Ipv6(ipv6)),
    {
        self.ipv6 = Some(ipv6);
    }

    pub fn get_ipv6(&self) -> (r: bool)
        ensures
            r == self.ipv6.unwrap_or(false),
    {
        self.ipv6.unwrap_or(false)
    }

    pub fn set_port(&mut self, port: u16)
        ensures
            *final(self) == old(self).apply_update(AgentConfigUpdate::Port(port)),
    {
        self.port = Some(port);
    }

    pub fn get_port(&self) -> (r: u16)
        ensures
            r == self.port.unwrap_or(80),
    {
        self.port.unwrap_or(80)
    }

    pub fn set_rsa_dir(&mut self, rsa_dir: &str)
        ensures
            final(self).rsa_dir matches Some(v) && v@ == rsa_dir@
                && *final(self) == old(self).apply_update(AgentConfigUpdate::RsaDir(v)),
    {
        self.rsa_dir = Some(String::from_str(rsa_dir));
    }

    pub fn get_rsa_dir(&self) -> (r: Option<&String>)
        ensures
            r is Some <==> self.rsa_dir is Some,
            r is Some ==> *r->0 == self.rsa_dir->0,
    {
        self.rsa_dir.as_ref()
    }

    pub fn set_agent_server_worker_thread_number(&mut self, thread_number: usize)
        ensures
            *final(self) == old(self).apply_update(AgentConfigUpdate::AgentServerWorkerThreadNumber(thread_number)),
    {
        self.agent_server_worker_thread_number = Some(thread_number);
    }

    pub fn get_agent_server_worker_thread_number(&self) -> (r: usize)
        ensures
            r == self.agent_server_worker_thread_number.unwrap_or(128),
    {
        self.agent_server_worker_thread_number.unwrap_or(128)
    }

    pub fn set_compress(&mut self, compress: bool)
        ensures
            *final(self) == old(self).apply_update(AgentConfigUpdate::Compress(compress)),
    {
        self.compress = Some(compress);
    }

    pub fn get_compress(&self) -> (r: bool)
        ensures
            r == self.compress.unwrap_or(false),
    {
        self.compress.unwrap_or(false)
    }

    pub fn get_proxy_send_buffer_size(&self) -> (r: usize)
        ensures
            r == self.proxy_send_buffer_size.unwrap_or(524288),
    {
        self.proxy_send_buffer_size.unwrap_or(524288)
    }

    pub fn get_connect_to_proxy_timeout(&self) -> (r: u64)
        ensures
            r == self.connect_to_proxy_timeout.unwrap_or(20),
    {
        self.connect_to_proxy_timeout.unwrap_or(20)
    }

    pub fn get_client_receive_buffer_size(&self) -> (r: usize)
        ensures
            r == self.client_receive_buffer_size.unwrap_or(524288),
    {
        self.client_receive_buffer_size.unwrap_or(524288)
    }

    pub fn get_proxy_relay_timeout(&self) -> (r: u64)
        ensures
            r == self.proxy_relay_timeout.unwrap_or(20),
    {
        self.proxy_relay_timeout.unwrap_or(20)
    }

    pub fn get_client_relay_timeout(&self) -> (r: u64)
        ensures
            r == self.client_relay_timeout.unwrap_or(20),
    {
        self.client_relay_timeout.unwrap_or(20)
    }
}

/// The console agent server; it reads the configuration it is given.
#[derive(Debug)]
pub struct AgentServer {}

impl AgentServer {
    /// The address to bind: the configured port (80 by default) on IPv6
    /// loopback or on every IPv4 interface, as the configuration says.
    pub fn bind_address(configuration: &AgentConfig) -> (r: String)
        ensures
            r@ == spec_bind_address(configuration.ipv6.unwrap_or(false), configuration.port.unwrap_or(80)),
    {
        render_bind_address(configuration.get_ipv6(), configuration.get_port())
    }
}

/// A call of one setter of [`AgentConfig`], with the value it writes.
#[derive(Debug)]
pub enum AgentConfigUpdate {
    UserToken(String),
    Ipv6(bool),
    Port(u16),
    RsaDir(String),
    AgentServerWorkerThreadNumber(usize),
    Compress(bool),
    ProxyAddresses(Vec<String>),
}

impl AgentConfig {
    /// This configuration after one setter call.
    pub open spec fn apply_update(self, u: AgentConfigUpdate) -> AgentConfig {
        match u {
            AgentConfigUpdate::UserToken(v) => AgentConfig { user_token: Some(v), ..self },
            AgentConfigUpdate::Ipv6(v) => AgentConfig { ipv6: Some(v), ..self },
            AgentConfigUpdate::Port(v) => AgentConfig { port: Some(v), ..self },
            AgentConfigUpdate::RsaDir(v) => AgentConfig { rsa_dir: Some(v), ..self },
            AgentConfigUpdate::AgentServerWorkerThreadNumber(v) => AgentConfig { agent_server_worker_thread_number: Some(v), ..self },
            AgentConfigUpdate::Compress(v) => AgentConfig { compress: Some(v), ..self },
            AgentConfigUpdate::ProxyAddresses(v) => AgentConfig { proxy_addresses: Some(v), ..self },
        }
    }

    /// This configuration after the setter calls `us`, in order.
    pub open spec fn apply_updates(self, us: Seq<AgentConfigUpdate>) -> AgentConfig
        decreases us.len(),
    {
        if us.len() == 0 {
            self
        } else {
            self.apply_updates(us.drop_last()).apply_update(us.last())
        }
    }

    /// The value that the last call of `set_user_token` among `us` wrote, or `init`
    /// where there is none.
    pub open spec fn last_user_token(us: Seq<AgentConfigUpdate>, init: Option<String>) -> Option<String>
        decreases us.len(),
    {
        if us.len() == 0 {
            init
        } else {
            match us.last() {
                AgentConfigUpdate::UserToken(v) => Some(v),
                _ => AgentConfig::last_user_token(us.drop_last(), init),
            }
        }
    }

    /// The value that the last call of `set_ipv6` among `us` wrote, or `init`
    /// where there is none.
    pub open spec fn last_ipv6(us: Seq<AgentConfigUpdate>, init: Option<bool>) -> Option<bool>
        decreases us.len(),
    {
        if us.len() == 0 {
            init
        } else {
            match us.last() {
                AgentConfigUpdate::Ipv6(v) => Some(v),
                _ => AgentConfig::last_ipv6(us.drop_last(), init),
            }
        }
    }

    /// The value that the last call of `set_port` among `us` wrote, or `init`
    /// where there is none.
    pub open spec fn last_port(us: Seq<AgentConfigUpdate>, init: Option<u16>) -> Option<u16>
        decreases us.len(),
    {
        if us.len() == 0 {
            init
        } else {
            match us.last() {
                AgentConfigUpdate::Port(v) => Some(v),
                _ => AgentConfig::last_port(us.drop_last(), init),
            }
        }
    }

    /// The value that the last call of `set_rsa_dir` among `us` wrote, or `init`
    /// where there is none.
    pub open spec fn last_rsa_dir(us: Seq<AgentConfigUpdate>, init: Option<String>) -> Option<String>
        decreases us.len(),
    {
        if us.len() == 0 {
            init
        } else {
            match us.last() {
                AgentConfigUpdate::RsaDir(v) => Some(v),
                _ => AgentConfig::last_rsa_dir(us.drop_last(), init),
            }
        }
    }

    /// The value that the last call of `set_agent_server_worker_thread_number` among `us` wrote, or `init`
    /// where there is none.
    pub open spec fn last_agent_server_worker_thread_number(us: Seq<AgentConfigUpdate>, init: Option<usize>) -> Option<usize>
        decreases us.len(),
    {
        if us.len() == 0 {
            init
        } else {
            match us.last() {
                AgentConfigUpdate::AgentServerWorkerThreadNumber(v) => Some(v),
                _ => AgentConfig::last_agent_server_worker_thread_number(us.drop_last(), init),
            }
        }
    }

    /// The value that the last call of `set_compress` among `us` wrote, or `init`
    /// where there is none.
    pub open spec fn last_compress(us: Seq<AgentConfigUpdate>, init: Option<bool>) -> Option<bool>
        decreases us.len(),
    {
        if us.len() == 0 {
            init
        } else {
            match us.last() {
                AgentConfigUpdate::Compress(v) => Some(v),
                _ => AgentConfig::last_compress(us.drop_last(), init),
            }
        }
    }

    /// The value that the last call of `set_proxy_addresses` among `us` wrote, or `init`
    /// where there is none.
    pub open spec fn last_proxy_addresses(us: Seq<AgentConfigUpdate>, init: Option<Vec<String>>) -> Option<Vec<String>>
        decreases us.len(),
    {
        if us.len() == 0 {
            init
        } else {
            match us.last() {
                AgentConfigUpdate::ProxyAddresses(v) => Some(v),
                _ => AgentConfig::last_proxy_addresses(us.drop_last(), init),
            }
        }
    }
}

/// After any sequence of setter calls, each setting of a [`AgentConfig`] reads as
/// the value that the last call of its own setter wrote, or as it was before
/// where no call wrote it: every other setter leaves it as it is, and a
/// setting without a setter never changes.
pub proof fn lemma_agent_config_updates(c: AgentConfig, us: Seq<AgentConfigUpdate>)
    ensures
        c.apply_updates(us).user_token == AgentConfig::last_user_token(us, c.user_token),
        c.apply_updates(us).ipv6 == AgentConfig::last_ipv6(us, c.ipv6),
        c.apply_updates(us).port == AgentConfig::last_port(us, c.port),
        c.apply_updates(us).rsa_dir == AgentConfig::last_rsa_dir(us, c.rsa_dir),
        c.apply_updates(us).agent_server_worker_thread_number == AgentConfig::last_agent_server_worker_thread_number(us, c.agent_server_worker_thread_number),
        c.apply_updates(us).compress == AgentConfig::last_compress(us, c.compress),
        c.apply_updates(us).proxy_addresses == AgentConfig::last_proxy_addresses(us, c.proxy_addresses),
        c.apply_updates(us).client_receive_buffer_size == c.client_receive_buffer_size,
        c.apply_updates(us).proxy_send_buffer_size == c.proxy_send_buffer_size,
        c.apply_updates(us).connect_to_proxy_timeout == c.connect_to_proxy_timeout,
        c.apply_updates(us).proxy_relay_timeout == c.proxy_relay_timeout,
        c.apply_updates(us).client_relay_timeout == c.client_relay_timeout,
    decreases us.len(),
{
    if us.len() > 0 {
        lemma_agent_config_updates(c, us.drop_last());
    }
}

} // verus!
