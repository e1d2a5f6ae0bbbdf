//! The configuration of the desktop agent, read from its TOML file.
use vstd::prelude::*;

verus! {

/// The settings of the desktop agent; an absent setting takes its default.
#[derive(Debug)]
pub struct AgentServerConfig {
    /// Whether the agent listens on IPv6.
    pub ipv6: Option<bool>,
    /// The port the agent listens on.
    pub port: Option<u16>,
    /// The directory that holds the RSA key files of each user.
    pub rsa_dir: Option<String>,
    /// The number of threads.
    pub thread_number: Option<usize>,
    /// Whether messages to the proxy are compressed.
    pub compress: Option<bool>,
    /// The most client connections served at once.
    pub client_max_connection_number: Option<usize>,
    /// Seconds to wait when accepting a client connection.
    pub client_tcp_connection_accept_timout_seconds: Option<u64>,
    /// The addresses of the proxies.
    pub proxy_addresses: Option<Vec<String>>,
}

impl Default for AgentServerConfig {
    fn default() -> (r: Self)
        ensures
            r.ipv6 is None,
            r.port is None,
            r.rsa_dir is None,
            r.thread_number is None,
            r.compress is None,
            r.client_max_connection_number is None,
            r.client_tcp_connection_accept_timout_seconds is None,
            r.proxy_addresses is None,
    {
        AgentServerConfig { ipv6: None, port: None, rsa_dir: None, thread_number: None, compress: None, client_max_connection_number: None, client_tcp_connection_accept_timout_seconds: None, proxy_addresses: None }
    }
}

impl AgentServerConfig {
    pub fn set_proxy_addresses(&mut self, proxy_addresses: Vec<String>)
        ensures
            *final(self) == old(self).apply_update(AgentServerConfigUpdate::ProxyAddresses(proxy_addresses)),
    {
        self.proxy_addresses = Some(proxy_addresses);
    }

    pub fn get_proxy_addresses(&self) -> (r: Option<&Vec<String>>)
        ensures
            r is Some <==> self.proxy_addresses is Some,
            r is Some ==> *r->0 == self.proxy_addresses->0,
    {
        self.proxy_addresses.as_ref()
    }

    pub fn set_ipv6(&mut self, ipv6: bool)
        ensures
            *final(self) == old(self).apply_update(AgentServerConfigUpdate::Ipv6(ipv6)),
    {
        self.ipv6 = Some(ipv6);
    }

    pub fn get_ipv6(&self) -> (r: bool)
        ensures
            r == self.ipv6.unwrap_or(false),
    {
        self.ipv6.unwrap_or(false)
    }

    pub fn set_port(&mut self, port: u16)
        ensures
            *final(self) == old(self).apply_update(AgentServerConfigUpdate::Port(port)),
    {
        self.port = Some(port);
    }

    pub fn get_port(&self) -> (r: &Option<u16>)
        ensures
            *r == self.port,
    {
        &self.port
    }

    pub fn set_rsa_dir(&mut self, rsa_dir: &str)
        ensures
            final(self).rsa_dir matches Some(v) && v@ == rsa_dir@
                && *final(self) == old(self).apply_update(AgentServerConfigUpdate::RsaDir(v)),
    {
        self.rsa_dir = Some(String::from_str(rsa_dir));
    }

    pub fn get_rsa_dir(&self) -> (r: Option<&String>)
        ensures
            r is Some <==> self.rsa_dir is Some,
            r is Some ==> *r->0 == self.rsa_dir->0,
    {
        self.rsa_dir.as_ref()
    }

    pub fn set_thread_number(&mut self, thread_number: usize)
        ensures
            *final(self) == old(self).apply_update(AgentServerConfigUpdate::ThreadNumber(thread_number)),
    {
        self.thread_number = Some(thread_number);
    }

    pub fn get_thread_number(&self) -> (r: usize)
        ensures
            r == self.thread_number.unwrap_or(128),
    {
        self.thread_number.unwrap_or(128)
    }

    pub fn set_compress(&mut self, compress: bool)
        ensures
            *final(self) == old(self).apply_update(AgentServerConfigUpdate::Compress(compress)),
    {
        self.compress = Some(compress);
    }

    pub fn get_compress(&self) -> (r: bool)
        ensures
            r == self.compress.unwrap_or(false),
    {
        self.compress.unwrap_or(false)
    }

    pub fn get_client_max_connection_number(&self) -> (r: usize)
        ensures
            r == self.client_max_connection_number.unwrap_or(1024),
    {
        self.client_max_connection_number.unwrap_or(1024)
    }

    pub fn get_client_tcp_connection_accept_timout_seconds(&self) -> (r: u64)
        ensures
            r == self.client_tcp_connection_accept_timout_seconds.unwrap_or(20),
    {
        self.client_tcp_connection_accept_timout_seconds.unwrap_or(20)
    }
}

/// A call of one setter of [`AgentServerConfig`], with the value it writes.
#[derive(Debug)]
pub enum AgentServerConfigUpdate {
    Ipv6(bool),
    Port(u16),
    RsaDir(String),
    ThreadNumber(usize),
    Compress(bool),
    ProxyAddresses(Vec<String>),
}

impl AgentServerConfig {
    /// This configuration after one setter call.
    pub open spec fn apply_update(self, u: AgentServerConfigUpdate) -> AgentServerConfig {
        match u {
            AgentServerConfigUpdate::Ipv6(v) => AgentServerConfig { ipv6: Some(v), ..self },
            AgentServerConfigUpdate::Port(v) => AgentServerConfig { port: Some(v), ..self },
            AgentServerConfigUpdate::RsaDir(v) => AgentServerConfig { rsa_dir: Some(v), ..self },
            AgentServerConfigUpdate::ThreadNumber(v) => AgentServerConfig { thread_number: Some(v), ..self },
            AgentServerConfigUpdate::Compress(v) => AgentServerConfig { compress: Some(v), ..self },
            AgentServerConfigUpdate::ProxyAddresses(v) => AgentServerConfig { proxy_addresses: Some(v), ..self },
        }
    }

    /// This configuration after the setter calls `us`, in order.
    pub open spec fn apply_updates(self, us: Seq<AgentServerConfigUpdate>) -> AgentServerConfig
        decreases us.len(),
    {
        if us.len() == 0 {
            self
        } else {
            self.apply_updates(us.drop_last()).apply_update(us.last())
        }
    }

    /// The value that the last call of `set_ipv6` among `us` wrote, or `init`
    /// where there is none.
    pub open spec fn last_ipv6(us: Seq<AgentServerConfigUpdate>, init: Option<bool>) -> Option<bool>
        decreases us.len(),
    {
        if us.len() == 0 {
            init
        } else {
            match us.last() {
                AgentServerConfigUpdate::Ipv6(v) => Some(v),
                _ => AgentServerConfig::last_ipv6(us.drop_last(), init),
            }
        }
    }

    /// The value that the last call of `set_port` among `us` wrote, or `init`
    /// where there is none.
    pub open spec fn last_port(us: Seq<AgentServerConfigUpdate>, init: Option<u16>) -> Option<u16>
        decreases us.len(),
    {
        if us.len() == 0 {
            init
        } else {
            match us.last() {
                AgentServerConfigUpdate::Port(v) => Some(v),
                _ => AgentServerConfig::last_port(us.drop_last(), init),
            }
        }
    }

    /// The value that the last call of `set_rsa_dir` among `us` wrote, or `init`
    /// where there is none.
    pub open spec fn last_rsa_dir(us: Seq<AgentServerConfigUpdate>, init: Option<String>) -> Option<String>
        decreases us.len(),
    {
        if us.len() == 0 {
            init
        } else {
            match us.last() {
                AgentServerConfigUpdate::RsaDir(v) => Some(v),
                _ => AgentServerConfig::last_rsa_dir(us.drop_last(), init),
            }
        }
    }

    /// The value that the last call of `set_thread_number` among `us` wrote, or `init`
    /// where there is none.
    pub open spec fn last_thread_number(us: Seq<AgentServerConfigUpdate>, init: Option<usize>) -> Option<usize>
        decreases us.len(),
    {
        if us.len() == 0 {
            init
        } else {
            match us.last() {
                AgentServerConfigUpdate::ThreadNumber(v) => Some(v),
                _ => AgentServerConfig::last_thread_number(us.drop_last(), init),
            }
        }
    }

    /// The value that the last call of `set_compress` among `us` wrote, or `init`
    /// where there is none.
    pub open spec fn last_compress(us: Seq<AgentServerConfigUpdate>, init: Option<bool>) -> Option<bool>
        decreases us.len(),
    {
        if us.len() == 0 {
            init
        } else {
            match us.last() {
                AgentServerConfigUpdate::Compress(v) => Some(v),
                _ => AgentServerConfig::last_compress(us.drop_last(), init),
            }
        }
    }

    /// The value that the last call of `set_proxy_addresses` among `us` wrote, or `init`
    /// where there is none.
    pub open spec fn last_proxy_addresses(us: Seq<AgentServerConfigUpdate>, init: Option<Vec<String>>) -> Option<Vec<String>>
        decreases us.len(),
    {
        if us.len() == 0 {
            init
        } else {
            match us.last() {
                AgentServerConfigUpdate::ProxyAddresses(v) => Some(v),
                _ => AgentServerConfig::last_proxy_addresses(us.drop_last(), init),
            }
        }
    }
}

/// After any sequence of setter calls, each setting of a [`AgentServerConfig`] reads as
/// the value that the last call of its own setter wrote, or as it was before
/// where no call wrote it: every other setter leaves it as it is, and a
/// setting without a setter never changes.
pub proof fn lemma_agent_server_config_updates(c: AgentServerConfig, us: Seq<AgentServerConfigUpdate>)
    ensures
        c.apply_updates(us).ipv6 == AgentServerConfig::last_ipv6(us, c.ipv6),
        c.apply_updates(us).port == AgentServerConfig::last_port(us, c.port),
        c.apply_updates(us).rsa_dir == AgentServerConfig::last_rsa_dir(us, c.rsa_dir),
        c.apply_updates(us).thread_number == AgentServerConfig::last_thread_number(us, c.thread_number),
        c.apply_updates(us).compress == AgentServerConfig::last_compress(us, c.compress),
        c.apply_updates(us).client_max_connection_number == c.client_max_connection_number,
        c.apply_updates(us).client_tcp_connection_accept_timout_seconds == c.client_tcp_connection_accept_timout_seconds,
        c.apply_updates(us).proxy_addresses == AgentServerConfig::last_proxy_addresses(us, c.proxy_addresses),
    decreases us.len(),
{
    if us.len() > 0 {
        lemma_agent_server_config_updates(c, us.drop_last());
    }
}

} // verus!
