//! The configuration of the agent server library, read from its TOML file.
use vstd::prelude::*;

verus! {

/// The settings of the agent server; an absent setting takes its default.
#[derive(Debug)]
pub struct AgentServerConfig {
    /// The user token presented to the proxy.
    pub user_token: Option<String>,
    /// Whether the agent listens on IPv6.
    pub ipv6: Option<bool>,
    /// The port the agent listens on.
    pub port: Option<u16>,
    /// The directory that holds the RSA key files of each user.
    pub rsa_dir: Option<String>,
    /// The number of worker threads.
    pub agent_server_worker_thread_number: Option<usize>,
    /// Whether messages to the proxy are compressed.
    pub compress: Option<bool>,
    /// The size of the proxy connection pool.
    pub proxy_connection_pool_size: Option<usize>,
    /// The addresses of the proxies.
    pub proxy_addresses: Option<Vec<String>>,
    /// The buffer size of the proxy message framing.
    pub message_framed_buffer_size: Option<usize>,
    /// Seconds between heartbeats on an idle proxy connection.
    pub idle_proxy_heartbeat_interval: Option<u64>,
    /// Seconds to wait when accepting a client connection.
    pub client_connection_accept_timeout: Option<u64>,
    /// Seconds to wait when connecting to a proxy.
    pub connect_to_proxy_timeout: Option<u64>,
    /// The buffer size of client reads.
    pub client_io_buffer_size: Option<usize>,
    /// The most client connections served at once.
    pub max_client_connection_number: Option<usize>,
}

impl Default for AgentServerConfig {
    fn default() -> (r: Self)
        ensures
            r.user_token is None,
            r.ipv6 is None,
            r.port is None,
            r.rsa_dir is None,
            r.agent_server_worker_thread_number is None,
            r.compress is None,
            r.proxy_connection_pool_size is None,
            r.proxy_addresses is None,
            r.message_framed_buffer_size is None,
            r.idle_proxy_heartbeat_interval is None,
            r.client_connection_accept_timeout is None,
            r.connect_to_proxy_timeout is None,
            r.client_io_buffer_size is None,
            r.max_client_connection_number is None,
    {
        AgentServerConfig { user_token: None, ipv6: None, port: None, rsa_dir: None, agent_server_worker_thread_number: None, compress: None, proxy_connection_pool_size: None, proxy_addresses: None, message_framed_buffer_size: None, idle_proxy_heartbeat_interval: None, client_connection_accept_timeout: None, connect_to_proxy_timeout: None, client_io_buffer_size: None, max_client_connection_number: None }
    }
}

impl AgentServerConfig {
    pub fn get_user_token(&self) -> (r: &Option<String>)
        ensures
            *r == self.user_token,
    {
        &self.user_token
    }
    pub fn set_user_token(&mut self, user_token: String)
        ensures
            *final(self) == old(self).apply_update(AgentServerConfigUpdate::UserToken(user_token)),
    {
        self.user_token = Some(user_token);
    }

    pub fn set_proxy_addresses(&mut self, proxy_addresses: Vec<String>)
        ensures
            *final(self) == old(self).apply_update(AgentServerConfigUpdate::ProxyAddresses(proxy_addresses)),
    {
        self.proxy_addresses = Some(proxy_addresses);
    }

    pub fn get_proxy_addresses(&self) -> (r: Option<&Vec<String>>)
        ensures
            r is Some <==> self.proxy_addresses is Some,
            r is Some ==> *r->0 == self.proxy_addresses->0,
    {
        self.proxy_addresses.as_ref()
    }

    pub fn set_ipv6(&mut self, ipv6: bool)
        ensures
            *final(self) == old(self).apply_update(AgentServerConfigUpdate::Ipv6(ipv6)),
    {
        self.ipv6 = Some(ipv6);
    }

    pub fn get_ipv6(&self) -> (r: bool)
        ensures
            r == self.ipv6.unwrap_or(false),
    {
        self.ipv6.unwrap_or(false)
    }

    pub fn set_port(&mut self, port: u16)
        ensures
            *final(self) == old(self).apply_update(AgentServerConfigUpdate::Port(port)),
    {
        self.port = Some(port);
    }

    pub fn get_port(&self) -> (r: &Option<u16>)
        ensures
            *r == self.port,
    {
        &self.port
    }

    pub fn set_rsa_dir(&mut self, rsa_dir: &str)
        ensures
            final(self).rsa_dir matches Some(v) && v@ == rsa_dir@
                && *final(self) == old(self).apply_update(AgentServerConfigUpdate::RsaDir(v)),
    {
        self.rsa_dir = Some(String::from_str(rsa_dir));
    }

    pub fn get_rsa_dir(&self) -> (r: Option<&String>)
        ensures
            r is Some <==> self.rsa_dir is Some,
            r is Some ==> *r->0 == self.rsa_dir->0,
    {
        self.rsa_dir.as_ref()
    }

    pub fn set_agent_server_worker_thread_number(&mut self, thread_number: usize)
        ensures
            *final(self) == old(self).apply_update(AgentServerConfigUpdate::AgentServerWorkerThreadNumber(thread_number)),
    {
        self.agent_server_worker_thread_number = Some(thread_number);
    }

    pub fn get_agent_server_worker_thread_number(&self) -> (r: usize)
        ensures
            r == self.agent_server_worker_thread_number.unwrap_or(128),
    {
        self.agent_server_worker_thread_number.unwrap_or(128)
    }

    pub fn set_compress(&mut self, compress: bool)
        ensures
            *final(self) == old(self).apply_update(AgentServerConfigUpdate::Compress(compress)),
    {
        self.compress = Some(compress);
    }

    pub fn get_compress(&self) -> (r: bool)
        ensures
            r == self.compress.unwrap_or(false),
    {
        self.compress.unwrap_or(false)
    }

    pub fn get_proxy_connection_pool_size(&self) -> (r: usize)
        ensures
            r == self.proxy_connection_pool_size.unwrap_or(1024),
    {
        self.proxy_connection_pool_size.unwrap_or(1024)
    }

    pub fn get_message_framed_buffer_size(&self) -> (r: usize)
        ensures
            r == self.message_framed_buffer_size.unwrap_or(65536),
    {
        self.message_framed_buffer_size.unwrap_or(65536)
    }

    pub fn get_idle_proxy_heartbeat_interval(&self) -> (r: u64)
        ensures
            r == self.idle_proxy_heartbeat_interval.unwrap_or(20),
    {
        self.idle_proxy_heartbeat_interval.unwrap_or(20)
    }

    pub fn get_client_connection_accept_timeout(&self) -> (r: u64)
        ensures
            r == self.client_connection_accept_timeout.unwrap_or(5),
    {
        self.client_connection_accept_timeout.unwrap_or(5)
    }

    pub fn get_client_io_buffer_size(&self) -> (r: usize)
        ensures
            r == self.client_io_buffer_size.unwrap_or(65536),
    {
        self.client_io_buffer_size.unwrap_or(65536)
    }

    pub fn get_connect_to_proxy_timeout(&self) -> (r: u64)
        ensures
            r == self.connect_to_proxy_timeout.unwrap_or(20),
    {
        self.connect_to_proxy_timeout.unwrap_or(20)
    }

    /// The most client connections served at once; by default, as many as
    /// the proxy connection pool holds.
    pub fn get_max_client_connection_number(&self) -> (r: usize)
        ensures
            r == self.max_client_connection_number.unwrap_or(self.proxy_connection_pool_size.unwrap_or(1024)),
    {
        let default_max_client_connection_number = self.get_proxy_connection_pool_size();
        self.max_client_connection_number.unwrap_or(default_max_client_connection_number)
    }
}

/// Where and how much the agent server logs.
#[derive(Debug)]
pub struct AgentServerLogConfig {
    /// The log directory.
    pub dir: Option<String>,
    /// The prefix of the log file names.
    pub file: Option<String>,
    /// The most verbose level logged.
    pub level: Option<String>,
}

impl Default for AgentServerLogConfig {
    fn default() -> (r: Self)
        ensures
            r.dir is None,
            r.file is None,
            r.level is None,
    {
        AgentServerLogConfig { dir: None, file: None, level: None }
    }
}

impl AgentServerLogConfig {
    pub fn get_dir(&self) -> (r: &Option<String>)
        ensures
            *r == self.dir,
    {
        &self.dir
    }

    pub fn get_file(&self) -> (r: &Option<String>)
        ensures
            *r == self.file,
    {
        &self.file
    }

    pub fn get_level(&self) -> (r: &Option<String>)
        ensures
            *r == self.level,
    {
        &self.level
    }
}

/// A call of one setter of [`AgentServerConfig`], with the value it writes.
#[derive(Debug)]
pub enum AgentServerConfigUpdate {
    UserToken(String),
    Ipv6(bool),
    Port(u16),
    RsaDir(String),
    AgentServerWorkerThreadNumber(usize),
    Compress(bool),
    ProxyAddresses(Vec<String>),
}

impl AgentServerConfig {
    /// This configuration after one setter call.
    pub open spec fn apply_update(self, u: AgentServerConfigUpdate) -> AgentServerConfig {
        match u {
            AgentServerConfigUpdate::UserToken(v) => AgentServerConfig { user_token: Some(v), ..self },
            AgentServerConfigUpdate::Ipv6(v) => AgentServerConfig { ipv6: Some(v), ..self },
            AgentServerConfigUpdate::Port(v) => AgentServerConfig { port: Some(v), ..self },
            AgentServerConfigUpdate::RsaDir(v) => AgentServerConfig { rsa_dir: Some(v), ..self },
            AgentServerConfigUpdate::AgentServerWorkerThreadNumber(v) => AgentServerConfig { agent_server_worker_thread_number: Some(v), ..self },
            AgentServerConfigUpdate::Compress(v) => AgentServerConfig { compress: Some(v), ..self },
            AgentServerConfigUpdate::ProxyAddresses(v) => AgentServerConfig { proxy_addresses: Some(v), ..self },
        }
    }

    /// This configuration after the setter calls `us`, in order.
    pub open spec fn apply_updates(self, us: Seq<AgentServerConfigUpdate>) -> AgentServerConfig
        decreases us.len(),
    {
        if us.len() == 0 {
            self
        } else {
            self.apply_updates(us.drop_last()).apply_update(us.last())
        }
    }

    /// The value that the last call of `set_user_token` among `us` wrote, or `init`
    /// where there is none.
    pub open spec fn last_user_token(us: Seq<AgentServerConfigUpdate>, init: Option<String>) -> Option<String>
        decreases us.len(),
    {
        if us.len() == 0 {
            init
        } else {
            match us.last() {
                AgentServerConfigUpdate::UserToken(v) => Some(v),
                _ => AgentServerConfig::last_user_token(us.drop_last(), init),
            }
        }
    }

    /// The value that the last call of `set_ipv6` among `us` wrote, or `init`
    /// where there is none.
    pub open spec fn last_ipv6(us: Seq<AgentServerConfigUpdate>, init: Option<bool>) -> Option<bool>
        decreases us.len(),
    {
        if us.len() == 0 {
            init
        } else {
            match us.last() {
                AgentServerConfigUpdate::Ipv6(v) => Some(v),
                _ => AgentServerConfig::last_ipv6(us.drop_last(), init),
            }
        }
    }

    /// The value that the last call of `set_port` among `us` wrote, or `init`
    /// where there is none.
    pub open spec fn last_port(us: Seq<AgentServerConfigUpdate>, init: Option<u16>) -> Option<u16>
        decreases us.len(),
    {
        if us.len() == 0 {
            init
        } else {
            match us.last() {
                AgentServerConfigUpdate::Port(v) => Some(v),
                _ => AgentServerConfig::last_port(us.drop_last(), init),
            }
        }
    }

    /// The value that the last call of `set_rsa_dir` among `us` wrote, or `init`
    /// where there is none.
    pub open spec fn last_rsa_dir(us: Seq<AgentServerConfigUpdate>, init: Option<String>) -> Option<String>
        decreases us.len(),
    {
        if us.len() == 0 {
            init
        } else {
            match us.last() {
                AgentServerConfigUpdate::RsaDir(v) => Some(v),
                _ => AgentServerConfig::last_rsa_dir(us.drop_last(), init),
            }
        }
    }

    /// The value that the last call of `set_agent_server_worker_thread_number` among `us` wrote, or `init`
    /// where there is none.
    pub open spec fn last_agent_server_worker_thread_number(us: Seq<AgentServerConfigUpdate>, init: Option<usize>) -> Option<usize>
        decreases us.len(),
    {
        if us.len() == 0 {
            init
        } else {
            match us.last() {
                AgentServerConfigUpdate::AgentServerWorkerThreadNumber(v) => Some(v),
                _ => AgentServerConfig::last_agent_server_worker_thread_number(us.drop_last(), init),
            }
        }
    }

    /// The value that the last call of `set_compress` among `us` wrote, or `init`
    /// where there is none.
    pub open spec fn last_compress(us: Seq<AgentServerConfigUpdate>, init: Option<bool>) -> Option<bool>
        decreases us.len(),
    {
        if us.len() == 0 {
            init
        } else {
            match us.last() {
                AgentServerConfigUpdate::Compress(v) => Some(v),
                _ => AgentServerConfig::last_compress(us.drop_last(), init),
            }
        }
    }

    /// The value that the last call of `set_proxy_addresses` among `us` wrote, or `init`
    /// where there is none.
    pub open spec fn last_proxy_addresses(us: Seq<AgentServerConfigUpdate>, init: Option<Vec<String>>) -> Option<Vec<String>>
        decreases us.len(),
    {
        if us.len() == 0 {
            init
        } else {
            match us.last() {
                AgentServerConfigUpdate::ProxyAddresses(v) => Some(v),
                _ => AgentServerConfig::last_proxy_addresses(us.drop_last(), init),
            }
        }
    }
}

/// After any sequence of setter calls, each setting of a [`AgentServerConfig`] reads as
/// the value that the last call of its own setter wrote, or as it was before
/// where no call wrote it: every other setter leaves it as it is, and a
/// setting without a setter never changes.
pub proof fn lemma_agent_server_config_updates(c: AgentServerConfig, us: Seq<AgentServerConfigUpdate>)
    ensures
        c.apply_updates(us).user_token == AgentServerConfig::last_user_token(us, c.user_token),
        c.apply_updates(us).ipv6 == AgentServerConfig::last_ipv6(us, c.ipv6),
        c.apply_updates(us).port == AgentServerConfig::last_port(us, c.port),
        c.apply_updates(us).rsa_dir == AgentServerConfig::last_rsa_dir(us, c.rsa_dir),
        c.apply_updates(us).agent_server_worker_thread_number == AgentServerConfig::last_agent_server_worker_thread_number(us, c.agent_server_worker_thread_number),
        c.apply_updates(us).compress == AgentServerConfig::last_compress(us, c.compress),
        c.apply_updates(us).proxy_connection_pool_size == c.proxy_connection_pool_size,
        c.apply_updates(us).proxy_addresses == AgentServerConfig::last_proxy_addresses(us, c.proxy_addresses),
        c.apply_updates(us).message_framed_buffer_size == c.message_framed_buffer_size,
        c.apply_updates(us).idle_proxy_heartbeat_interval == c.idle_proxy_heartbeat_interval,
        c.apply_updates(us).client_connection_accept_timeout == c.client_connection_accept_timeout,
        c.apply_updates(us).connect_to_proxy_timeout == c.connect_to_proxy_timeout,
        c.apply_updates(us).client_io_buffer_size == c.client_io_buffer_size,
        c.apply_updates(us).max_client_connection_number == c.max_client_connection_number,
    decreases us.len(),
{
    if us.len() > 0 {
        lemma_agent_server_config_updates(c, us.drop_last());
    }
}

} // verus!
