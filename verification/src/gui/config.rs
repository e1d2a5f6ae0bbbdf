//! The configuration of the desktop agent with a user interface: its log
//! settings, its agent settings, and how command-line arguments and the
//! settings form change them.
use vstd::prelude::*;
use crate::text::{parse_u16, spec_parse_u16, spec_int_error_text};

verus! {

/// Where and how much the agent logs.
#[derive(Debug)]
pub struct AgentLogConfig {
    pub log_dir: Option<String>,
    pub log_file: Option<String>,
    pub max_log_level: Option<String>,
}

impl AgentLogConfig {
    pub fn log_dir(&self) -> (r: &Option<String>)
        ensures
            *r == self.log_dir,
    {
        &self.log_dir
    }

    pub fn set_log_dir(&mut self, log_dir: String)
        ensures
            *final(self) == old(self).apply_update(AgentLogConfigUpdate::LogDir(log_dir)),
    {
        self.log_dir = Some(log_dir);
    }

    pub fn log_file(&self) -> (r: &Option<String>)
        ensures
            *r == self.log_file,
    {
        &self.log_file
    }

    pub fn set_log_file(&mut self, log_file: String)
        ensures
            *final(self) == old(self).apply_update(AgentLogConfigUpdate::LogFile(log_file)),
    {
        self.log_file = Some(log_file);
    }

    pub fn max_log_level(&self) -> (r: &Option<String>)
        ensures
            *r == self.max_log_level,
    {
        &self.max_log_level
    }

    pub fn set_max_log_level(&mut self, max_log_level: String)
        ensures
            *final(self) == old(self).apply_update(AgentLogConfigUpdate::MaxLogLevel(max_log_level)),
    {
        self.max_log_level = Some(max_log_level);
    }

}

/// The agent settings that the user interface shows and edits.
#[derive(Debug)]
pub struct AgentConfig {
    pub port: Option<u16>,
    pub so_recv_buffer_size: Option<u32>,
    pub so_send_buffer_size: Option<u32>,
    pub user_token: Option<String>,
    pub proxy_addresses: Option<Vec<String>>,
    pub client_buffer_size: Option<usize>,
    pub message_framed_buffer_size: Option<usize>,
    pub thread_number: Option<usize>,
    pub max_blocking_threads: Option<usize>,
    pub thread_timeout: Option<u64>,
    pub compress: Option<bool>,
    pub client_stream_so_linger: Option<u64>,
    pub proxy_stream_so_linger: Option<u64>,
    pub so_backlog: Option<u32>,
    pub agent_private_key_file: Option<String>,
    pub proxy_public_key_file: Option<String>,
    pub init_proxy_connection_number: Option<usize>,
    pub min_proxy_connection_number: Option<usize>,
    pub proxy_connection_number_incremental: Option<usize>,
    pub proxy_connection_check_interval_seconds: Option<u64>,
    pub proxy_connection_check_timeout: Option<u64>,
}

impl AgentConfig {
    pub fn port(&self) -> (r: Option<u16>)
        ensures
            r == self.port,
    {
        self.port
    }

    pub fn user_token(&self) -> (r: &Option<String>)
        ensures
            *r == self.user_token,
    {
        &self.user_token
    }

    pub fn proxy_addresses(&self) -> (r: &Option<Vec<String>>)
        ensures
            *r == self.proxy_addresses,
    {
        &self.proxy_addresses
    }

    pub fn client_buffer_size(&self) -> (r: Option<usize>)
        ensures
            r == self.client_buffer_size,
    {
        self.client_buffer_size
    }

    pub fn message_framed_buffer_size(&self) -> (r: Option<usize>)
        ensures
            r == self.message_framed_buffer_size,
    {
        self.message_framed_buffer_size
    }

    pub fn thread_number(&self) -> (r: Option<usize>)
        ensures
            r == self.thread_number,
    {
        self.thread_number
    }

    pub fn max_blocking_threads(&self) -> (r: Option<usize>)
        ensures
            r == self.max_blocking_threads,
    {
        self.max_blocking_threads
    }

    pub fn thread_timeout(&self) -> (r: Option<u64>)
        ensures
            r == self.thread_timeout,
    {
        self.thread_timeout
    }

    pub fn compress(&self) -> (r: Option<bool>)
        ensures
            r == self.compress,
    {
        self.compress
    }

    pub fn client_stream_so_linger(&self) -> (r: Option<u64>)
        ensures
            r == self.client_stream_so_linger,
    {
        self.client_stream_so_linger
    }

    pub fn proxy_stream_so_linger(&self) -> (r: Option<u64>)
        ensures
            r == self.proxy_stream_so_linger,
    {
        self.proxy_stream_so_linger
    }

    pub fn so_backlog(&self) -> (r: Option<u32>)
        ensures
            r == self.so_backlog,
    {
        self.so_backlog
    }

    pub fn so_recv_buffer_size(&self) -> (r: Option<u32>)
        ensures
            r == self.so_recv_buffer_size,
    {
        self.so_recv_buffer_size
    }

    pub fn so_send_buffer_size(&self) -> (r: Option<u32>)
        ensures
            r == self.so_send_buffer_size,
    {
        self.so_send_buffer_size
    }

    pub fn agent_private_key_file(&self) -> (r: &Option<String>)
        ensures
            *r == self.agent_private_key_file,
    {
        &self.agent_private_key_file
    }

    pub fn proxy_public_key_file(&self) -> (r: &Option<String>)
        ensures
            *r == self.proxy_public_key_file,
    {
        &self.proxy_public_key_file
    }

    pub fn init_proxy_connection_number(&self) -> (r: Option<usize>)
        ensures
            r == self.init_proxy_connection_number,
    {
        self.init_proxy_connection_number
    }

    pub fn min_proxy_connection_number(&self) -> (r: Option<usize>)
        ensures
            r == self.min_proxy_connection_number,
    {
        self.min_proxy_connection_number
    }

    pub fn proxy_connection_check_interval_seconds(&self) -> (r: Option<u64>)
        ensures
            r == self.proxy_connection_check_interval_seconds,
    {
        self.proxy_connection_check_interval_seconds
    }

    pub fn proxy_connection_number_increasement(&self) -> (r: Option<usize>)
        ensures
            r == self.proxy_connection_number_incremental,
    {
        self.proxy_connection_number_incremental
    }

    pub fn proxy_connection_check_timeout(&self) -> (r: Option<u64>)
        ensures
            r == self.proxy_connection_check_timeout,
    {
        self.proxy_connection_check_timeout
    }

    pub fn set_port(&mut self, port: u16)
        ensures
            *final(self) == old(self).apply_update(AgentConfigUpdate::Port(port)),
    {
        self.port = Some(port);
    }

    pub fn set_user_token(&mut self, user_token: String)
        ensures
            *final(self) == old(self).apply_update(AgentConfigUpdate::UserToken(user_token)),
    {
        self.user_token = Some(user_token);
    }

    pub fn set_proxy_addresses(&mut self, proxy_addresses: Vec<String>)
        ensures
            *final(self) == old(self).apply_update(AgentConfigUpdate::ProxyAddresses(proxy_addresses)),
    {
        self.proxy_addresses = Some(proxy_addresses);
    }

    pub fn set_client_buffer_size(&mut self, client_buffer_size: usize)
        ensures
            *final(self) == old(self).apply_update(AgentConfigUpdate::ClientBufferSize(client_buffer_size)),
    {
        self.client_buffer_size = Some(client_buffer_size);
    }

    pub fn set_message_framed_buffer_size(&mut self, message_framed_buffer_size: usize)
        ensures
            *final(self) == old(self).apply_update(AgentConfigUpdate::MessageFramedBufferSize(message_framed_buffer_size)),
    {
        self.message_framed_buffer_size = Some(message_framed_buffer_size);
    }

    pub fn set_thread_number(&mut self, thread_number: usize)
        ensures
            *final(self) == old(self).apply_update(AgentConfigUpdate::ThreadNumber(thread_number)),
    {
        self.thread_number = Some(thread_number);
    }

    pub fn set_compress(&mut self, compress: bool)
        ensures
            *final(self) == old(self).apply_update(AgentConfigUpdate::Compress(compress)),
    {
        self.compress = Some(compress);
    }

    pub fn set_so_backlog(&mut self, so_backlog: u32)
        ensures
            *final(self) == old(self).apply_update(AgentConfigUpdate::SoBacklog(so_backlog)),
    {
        self.so_backlog = Some(so_backlog);
    }

    pub fn set_agent_private_key_file(&mut self, agent_private_key_file: String)
        ensures
            *final(self) == old(self).apply_update(AgentConfigUpdate::AgentPrivateKeyFile(agent_private_key_file)),
    {
        self.agent_private_key_file = Some(agent_private_key_file);
    }

    pub fn set_proxy_public_key_file(&mut self, proxy_public_key_file: String)
        ensures
            *final(self) == old(self).apply_update(AgentConfigUpdate::ProxyPublicKeyFile(proxy_public_key_file)),
    {
        self.proxy_public_key_file = Some(proxy_public_key_file);
    }

    pub fn set_init_proxy_connection_number(&mut self, init_proxy_connection_number: usize)
        ensures
            *final(self) == old(self).apply_update(AgentConfigUpdate::InitProxyConnectionNumber(init_proxy_connection_number)),
    {
        self.init_proxy_connection_number = Some(init_proxy_connection_number);
    }

    pub fn set_min_proxy_connection_number(&mut self, min_proxy_connection_number: usize)
        ensures
            *final(self) == old(self).apply_update(AgentConfigUpdate::MinProxyConnectionNumber(min_proxy_connection_number)),
    {
        self.min_proxy_connection_number = Some(min_proxy_connection_number);
    }

    pub fn set_proxy_connection_check_interval_seconds(&mut self, proxy_connection_check_interval_seconds: u64)
        ensures
            *final(self) == old(self).apply_update(AgentConfigUpdate::ProxyConnectionCheckIntervalSeconds(proxy_connection_check_interval_seconds)),
    {
        self.proxy_connection_check_interval_seconds = Some(proxy_connection_check_interval_seconds);
    }

    pub fn set_proxy_connection_number_incremental(&mut self, proxy_connection_number_incremental: usize)
        ensures
            *final(self) == old(self).apply_update(AgentConfigUpdate::ProxyConnectionNumberIncremental(proxy_connection_number_incremental)),
    {
        self.proxy_connection_number_incremental = Some(proxy_connection_number_incremental);
    }

    pub fn set_proxy_connection_check_timeout(&mut self, proxy_connection_check_timeout: u64)
        ensures
            *final(self) == old(self).apply_update(AgentConfigUpdate::ProxyConnectionCheckTimeout(proxy_connection_check_timeout)),
    {
        self.proxy_connection_check_timeout = Some(proxy_connection_check_timeout);
    }

}

/// The command-line arguments that override settings of the configuration file.
#[derive(Debug)]
pub struct AgentArguments {
    /// The configuration file to read in place of the default one.
    pub configuration_file: Option<String>,
    /// The log configuration file to read in place of the default one.
    pub log_configuration_file: Option<String>,
    pub port: Option<u16>,
    pub compress: Option<bool>,
    pub client_buffer_size: Option<usize>,
    pub message_framed_buffer_size: Option<usize>,
    pub so_backlog: Option<u32>,
}

pub open spec fn override_with<T>(given: Option<T>, current: Option<T>) -> Option<T> {
    match given {
        Some(v) => Some(v),
        None => current,
    }
}

/// The configuration read from its file, with each setting that the command
/// line gives put in place of the file's.
pub fn prepare_agent_config(configuration: AgentConfig, arguments: &AgentArguments) -> (r: AgentConfig)
    ensures
        r == (AgentConfig {
            port: override_with(arguments.port, configuration.port),
            compress: override_with(arguments.compress, configuration.compress),
            client_buffer_size: override_with(arguments.client_buffer_size, configuration.client_buffer_size),
            message_framed_buffer_size: override_with(
                arguments.message_framed_buffer_size,
                configuration.message_framed_buffer_size,
            ),
            so_backlog: override_with(arguments.so_backlog, configuration.so_backlog),
            ..configuration
        }),
{
    let mut configuration = configuration;
    if let Some(port) = arguments.port {
        configuration.set_port(port);
    }
    if let Some(compress) = arguments.compress {
        configuration.set_compress(compress);
    }
    if let Some(client_buffer_size) = arguments.client_buffer_size {
        configuration.set_client_buffer_size(client_buffer_size);
    }
    if let Some(message_framed_buffer_size) = arguments.message_framed_buffer_size {
        configuration.set_message_framed_buffer_size(message_framed_buffer_size);
    }
    if let Some(so_backlog) = arguments.so_backlog {
        configuration.set_so_backlog(so_backlog);
    }
    configuration
}

/// The settings as the user interface's form sends them.
#[derive(Debug)]
pub struct UiConfiguration {
    pub user_token: Option<String>,
    pub proxy_addresses: Option<Vec<String>>,
    /// The port as typed.
    pub port: Option<String>,
    pub client_buffer_size: Option<usize>,
    pub message_framed_buffer_size: Option<usize>,
    pub thread_number: Option<usize>,
    pub compress: Option<bool>,
    pub init_proxy_connection_number: Option<usize>,
    pub min_proxy_connection_number: Option<usize>,
    pub proxy_connection_number_incremental: Option<usize>,
    pub proxy_connection_check_interval_seconds: Option<u64>,
    pub proxy_connection_check_timeout: Option<u64>,
}

/// `c` with the user token and proxy addresses of the form put in place.
pub open spec fn with_form_addressing(c: AgentConfig, ui: UiConfiguration) -> AgentConfig {
    AgentConfig {
        user_token: override_with(ui.user_token, c.user_token),
        proxy_addresses: override_with(ui.proxy_addresses, c.proxy_addresses),
        ..c
    }
}

/// `c` with the settings of the form that follow the port put in place.
pub open spec fn with_form_tuning(c: AgentConfig, ui: UiConfiguration) -> AgentConfig {
    AgentConfig {
        compress: override_with(ui.compress, c.compress),
        client_buffer_size: override_with(ui.client_buffer_size, c.client_buffer_size),
        message_framed_buffer_size: override_with(ui.message_framed_buffer_size, c.message_framed_buffer_size),
        thread_number: override_with(ui.thread_number, c.thread_number),
        init_proxy_connection_number: override_with(ui.init_proxy_connection_number, c.init_proxy_connection_number),
        min_proxy_connection_number: override_with(ui.min_proxy_connection_number, c.min_proxy_connection_number),
        proxy_connection_number_incremental: override_with(
            ui.proxy_connection_number_incremental,
            c.proxy_connection_number_incremental,
        ),
        ..c
    }
}

/// Puts the settings of the form in place, in the order of the form. A port
/// that does not parse as a `u16` stops there: the user token and proxy
/// addresses are already in place, the later settings are not, and the
/// error's message comes back. The two proxy connection check settings of
/// the form are not applied.
pub fn apply_ui_configuration(configuration: &mut AgentConfig, ui: UiConfiguration) -> (r: Result<(), String>)
    ensures
        match ui.port {
            None => r is Ok && *final(configuration) == with_form_tuning(with_form_addressing(*old(configuration), ui), ui),
            Some(port) => match spec_parse_u16(port@) {
                Ok(p) => r is Ok && *final(configuration) == with_form_tuning(
                    AgentConfig { port: Some(p), ..with_form_addressing(*old(configuration), ui) },
                    ui,
                ),
                Err(e) => r matches Err(m) && m@ == spec_int_error_text(e)
                    && *final(configuration) == with_form_addressing(*old(configuration), ui),
            },
        },
{
    let ghost ui0 = ui;
    let UiConfiguration {
        user_token,
        proxy_addresses,
        port,
        client_buffer_size,
        message_framed_buffer_size,
        thread_number,
        compress,
        init_proxy_connection_number,
        min_proxy_connection_number,
        proxy_connection_number_incremental,
        ..
    } = ui;
    if let Some(user_token) = user_token {
        configuration.set_user_token(user_token);
    }
    if let Some(proxy_addresses) = proxy_addresses {
        configuration.set_proxy_addresses(proxy_addresses);
    }
    if let Some(port) = port {
        match parse_u16(port.as_str()) {
            Ok(p) => configuration.set_port(p),
            Err(e) => return Err(e.to_text()),
        }
    }
    if let Some(compress) = compress {
        configuration.set_compress(compress);
    }
    if let Some(client_buffer_size) = client_buffer_size {
        configuration.set_client_buffer_size(client_buffer_size);
    }
    if let Some(message_framed_buffer_size) = message_framed_buffer_size {
        configuration.set_message_framed_buffer_size(message_framed_buffer_size);
    }
    if let Some(thread_number) = thread_number {
        configuration.set_thread_number(thread_number);
    }
    if let Some(init_proxy_connection_number) = init_proxy_connection_number {
        configuration.set_init_proxy_connection_number(init_proxy_connection_number);
    }
    if let Some(min_proxy_connection_number) = min_proxy_connection_number {
        configuration.set_min_proxy_connection_number(min_proxy_connection_number);
    }
    if let Some(proxy_connection_number_incremental) = proxy_connection_number_incremental {
        configuration.set_proxy_connection_number_incremental(proxy_connection_number_incremental);
    }
    Ok(())
}

/// A call of one setter of [`AgentLogConfig`], with the value it writes.
#[derive(Debug)]
pub enum AgentLogConfigUpdate {
    LogDir(String),
    LogFile(String),
    MaxLogLevel(String),
}

impl AgentLogConfig {
    /// This configuration after one setter call.
    pub open spec fn apply_update(self, u: AgentLogConfigUpdate) -> AgentLogConfig {
        match u {
            AgentLogConfigUpdate::LogDir(v) => AgentLogConfig { log_dir: Some(v), ..self },
            AgentLogConfigUpdate::LogFile(v) => AgentLogConfig { log_file: Some(v), ..self },
            AgentLogConfigUpdate::MaxLogLevel(v) => AgentLogConfig { max_log_level: Some(v), ..self },
        }
    }

    /// This configuration after the setter calls `us`, in order.
    pub open spec fn apply_updates(self, us: Seq<AgentLogConfigUpdate>) -> AgentLogConfig
        decreases us.len(),
    {
        if us.len() == 0 {
            self
        } else {
            self.apply_updates(us.drop_last()).apply_update(us.last())
        }
    }

    /// The value that the last call of `set_log_dir` among `us` wrote, or `init`
    /// where there is none.
    pub open spec fn last_log_dir(us: Seq<AgentLogConfigUpdate>, init: Option<String>) -> Option<String>
        decreases us.len(),
    {
        if us.len() == 0 {
            init
        } else {
            match us.last() {
                AgentLogConfigUpdate::LogDir(v) => Some(v),
                _ => AgentLogConfig::last_log_dir(us.drop_last(), init),
            }
        }
    }

    /// The value that the last call of `set_log_file` among `us` wrote, or `init`
    /// where there is none.
    pub open spec fn last_log_file(us: Seq<AgentLogConfigUpdate>, init: Option<String>) -> Option<String>
        decreases us.len(),
    {
        if us.len() == 0 {
            init
        } else {
            match us.last() {
                AgentLogConfigUpdate::LogFile(v) => Some(v),
                _ => AgentLogConfig::last_log_file(us.drop_last(), init),
            }
        }
    }

    /// The value that the last call of `set_max_log_level` among `us` wrote, or `init`
    /// where there is none.
    pub open spec fn last_max_log_level(us: Seq<AgentLogConfigUpdate>, init: Option<String>) -> Option<String>
        decreases us.len(),
    {
        if us.len() == 0 {
            init
        } else {
            match us.last() {
                AgentLogConfigUpdate::MaxLogLevel(v) => Some(v),
                _ => AgentLogConfig::last_max_log_level(us.drop_last(), init),
            }
        }
    }
}

/// After any sequence of setter calls, each setting of a [`AgentLogConfig`] reads as
/// the value that the last call of its own setter wrote, or as it was before
/// where no call wrote it: every other setter leaves it as it is, and a
/// setting without a setter never changes.
pub proof fn lemma_agent_log_config_updates(c: AgentLogConfig, us: Seq<AgentLogConfigUpdate>)
    ensures
        c.apply_updates(us).log_dir == AgentLogConfig::last_log_dir(us, c.log_dir),
        c.apply_updates(us).log_file == AgentLogConfig::last_log_file(us, c.log_file),
        c.apply_updates(us).max_log_level == AgentLogConfig::last_max_log_level(us, c.max_log_level),
    decreases us.len(),
{
    if us.len() > 0 {
        lemma_agent_log_config_updates(c, us.drop_last());
    }
}

/// A call of one setter of [`AgentConfig`], with the value it writes.
#[derive(Debug)]
pub enum AgentConfigUpdate {
    Port(u16),
    UserToken(String),
    ProxyAddresses(Vec<String>),
    ClientBufferSize(usize),
    MessageFramedBufferSize(usize),
    ThreadNumber(usize),
    Compress(bool),
    SoBacklog(u32),
    AgentPrivateKeyFile(String),
    ProxyPublicKeyFile(String),
    InitProxyConnectionNumber(usize),
    MinProxyConnectionNumber(usize),
    ProxyConnectionNumberIncremental(usize),
    ProxyConnectionCheckIntervalSeconds(u64),
    ProxyConnectionCheckTimeout(u64),
}

impl AgentConfig {
    /// This configuration after one setter call.
    pub open spec fn apply_update(self, u: AgentConfigUpdate) -> AgentConfig {
        match u {
            AgentConfigUpdate::Port(v) => AgentConfig { port: Some(v), ..self },
            AgentConfigUpdate::UserToken(v) => AgentConfig { user_token: Some(v), ..self },
            AgentConfigUpdate::ProxyAddresses(v) => AgentConfig { proxy_addresses: Some(v), ..self },
            AgentConfigUpdate::ClientBufferSize(v) => AgentConfig { client_buffer_size: Some(v), ..self },
            AgentConfigUpdate::MessageFramedBufferSize(v) => AgentConfig { message_framed_buffer_size: Some(v), ..self },
            AgentConfigUpdate::ThreadNumber(v) => AgentConfig { thread_number: Some(v), ..self },
            AgentConfigUpdate::Compress(v) => AgentConfig { compress: Some(v), ..self },
            AgentConfigUpdate::SoBacklog(v) => AgentConfig { so_backlog: Some(v), ..self },
            AgentConfigUpdate::AgentPrivateKeyFile(v) => AgentConfig { agent_private_key_file: Some(v), ..self },
            AgentConfigUpdate::ProxyPublicKeyFile(v) => AgentConfig { proxy_public_key_file: Some(v), ..self },
            AgentConfigUpdate::InitProxyConnectionNumber(v) => AgentConfig { init_proxy_connection_number: Some(v), ..self },
            AgentConfigUpdate::MinProxyConnectionNumber(v) => AgentConfig { min_proxy_connection_number: Some(v), ..self },
            AgentConfigUpdate::ProxyConnectionNumberIncremental(v) => AgentConfig { proxy_connection_number_incremental: Some(v), ..self },
            AgentConfigUpdate::ProxyConnectionCheckIntervalSeconds(v) => AgentConfig { proxy_connection_check_interval_seconds: Some(v), ..self },
            AgentConfigUpdate::ProxyConnectionCheckTimeout(v) => AgentConfig { proxy_connection_check_timeout: Some(v), ..self },
        }
    }

    /// This configuration after the setter calls `us`, in order.
    pub open spec fn apply_updates(self, us: Seq<AgentConfigUpdate>) -> AgentConfig
        decreases us.len(),
    {
        if us.len() == 0 {
            self
        } else {
            self.apply_updates(us.drop_last()).apply_update(us.last())
        }
    }

    /// The value that the last call of `set_port` among `us` wrote, or `init`
    /// where there is none.
    pub open spec fn last_port(us: Seq<AgentConfigUpdate>, init: Option<u16>) -> Option<u16>
        decreases us.len(),
    {
        if us.len() == 0 {
            init
        } else {
            match us.last() {
                AgentConfigUpdate::Port(v) => Some(v),
                _ => AgentConfig::last_port(us.drop_last(), init),
            }
        }
    }

    /// The value that the last call of `set_user_token` among `us` wrote, or `init`
    /// where there is none.
    pub open spec fn last_user_token(us: Seq<AgentConfigUpdate>, init: Option<String>) -> Option<String>
        decreases us.len(),
    {
        if us.len() == 0 {
            init
        } else {
            match us.last() {
                AgentConfigUpdate::UserToken(v) => Some(v),
                _ => AgentConfig::last_user_token(us.drop_last(), init),
            }
        }
    }

    /// The value that the last call of `set_proxy_addresses` among `us` wrote, or `init`
    /// where there is none.
    pub open spec fn last_proxy_addresses(us: Seq<AgentConfigUpdate>, init: Option<Vec<String>>) -> Option<Vec<String>>
        decreases us.len(),
    {
        if us.len() == 0 {
            init
        } else {
            match us.last() {
                AgentConfigUpdate::ProxyAddresses(v) => Some(v),
                _ => AgentConfig::last_proxy_addresses(us.drop_last(), init),
            }
        }
    }

    /// The value that the last call of `set_client_buffer_size` among `us` wrote, or `init`
    /// where there is none.
    pub open spec fn last_client_buffer_size(us: Seq<AgentConfigUpdate>, init: Option<usize>) -> Option<usize>
        decreases us.len(),
    {
        if us.len() == 0 {
            init
        } else {
            match us.last() {
                AgentConfigUpdate::ClientBufferSize(v) => Some(v),
                _ => AgentConfig::last_client_buffer_size(us.drop_last(), init),
            }
        }
    }

    /// The value that the last call of `set_message_framed_buffer_size` among `us` wrote, or `init`
    /// where there is none.
    pub open spec fn last_message_framed_buffer_size(us: Seq<AgentConfigUpdate>, init: Option<usize>) -> Option<usize>
        decreases us.len(),
    {
        if us.len() == 0 {
            init
        } else {
            match us.last() {
                AgentConfigUpdate::MessageFramedBufferSize(v) => Some(v),
                _ => AgentConfig::last_message_framed_buffer_size(us.drop_last(), init),
            }
        }
    }

    /// The value that the last call of `set_thread_number` among `us` wrote, or `init`
    /// where there is none.
    pub open spec fn last_thread_number(us: Seq<AgentConfigUpdate>, init: Option<usize>) -> Option<usize>
        decreases us.len(),
    {
        if us.len() == 0 {
            init
        } else {
            match us.last() {
                AgentConfigUpdate::ThreadNumber(v) => Some(v),
                _ => AgentConfig::last_thread_number(us.drop_last(), init),
            }
        }
    }

    /// The value that the last call of `set_compress` among `us` wrote, or `init`
    /// where there is none.
    pub open spec fn last_compress(us: Seq<AgentConfigUpdate>, init: Option<bool>) -> Option<bool>
        decreases us.len(),
    {
        if us.len() == 0 {
            init
        } else {
            match us.last() {
                AgentConfigUpdate::Compress(v) => Some(v),
                _ => AgentConfig::last_compress(us.drop_last(), init),
            }
        }
    }

    /// The value that the last call of `set_so_backlog` among `us` wrote, or `init`
    /// where there is none.
    pub open spec fn last_so_backlog(us: Seq<AgentConfigUpdate>, init: Option<u32>) -> Option<u32>
        decreases us.len(),
    {
        if us.len() == 0 {
            init
        } else {
            match us.last() {
                AgentConfigUpdate::SoBacklog(v) => Some(v),
                _ => AgentConfig::last_so_backlog(us.drop_last(), init),
            }
        }
    }

    /// The value that the last call of `set_agent_private_key_file` among `us` wrote, or `init`
    /// where there is none.
    pub open spec fn last_agent_private_key_file(us: Seq<AgentConfigUpdate>, init: Option<String>) -> Option<String>
        decreases us.len(),
    {
        if us.len() == 0 {
            init
        } else {
            match us.last() {
                AgentConfigUpdate::AgentPrivateKeyFile(v) => Some(v),
                _ => AgentConfig::last_agent_private_key_file(us.drop_last(), init),
            }
        }
    }

    /// The value that the last call of `set_proxy_public_key_file` among `us` wrote, or `init`
    /// where there is none.
    pub open spec fn last_proxy_public_key_file(us: Seq<AgentConfigUpdate>, init: Option<String>) -> Option<String>
        decreases us.len(),
    {
        if us.len() == 0 {
            init
        } else {
            match us.last() {
                AgentConfigUpdate::ProxyPublicKeyFile(v) => Some(v),
                _ => AgentConfig::last_proxy_public_key_file(us.drop_last(), init),
            }
        }
    }

    /// The value that the last call of `set_init_proxy_connection_number` among `us` wrote, or `init`
    /// where there is none.
    pub open spec fn last_init_proxy_connection_number(us: Seq<AgentConfigUpdate>, init: Option<usize>) -> Option<usize>
        decreases us.len(),
    {
        if us.len() == 0 {
            init
        } else {
            match us.last() {
                AgentConfigUpdate::InitProxyConnectionNumber(v) => Some(v),
                _ => AgentConfig::last_init_proxy_connection_number(us.drop_last(), init),
            }
        }
    }

    /// The value that the last call of `set_min_proxy_connection_number` among `us` wrote, or `init`
    /// where there is none.
    pub open spec fn last_min_proxy_connection_number(us: Seq<AgentConfigUpdate>, init: Option<usize>) -> Option<usize>
        decreases us.len(),
    {
        if us.len() == 0 {
            init
        } else {
            match us.last() {
                AgentConfigUpdate::MinProxyConnectionNumber(v) => Some(v),
                _ => AgentConfig::last_min_proxy_connection_number(us.drop_last(), init),
            }
        }
    }

    /// The value that the last call of `set_proxy_connection_number_incremental` among `us` wrote, or `init`
    /// where there is none.
    pub open spec fn last_proxy_connection_number_incremental(us: Seq<AgentConfigUpdate>, init: Option<usize>) -> Option<usize>
        decreases us.len(),
    {
        if us.len() == 0 {
            init
        } else {
            match us.last() {
                AgentConfigUpdate::ProxyConnectionNumberIncremental(v) => Some(v),
                _ => AgentConfig::last_proxy_connection_number_incremental(us.drop_last(), init),
            }
        }
    }

    /// The value that the last call of `set_proxy_connection_check_interval_seconds` among `us` wrote, or `init`
    /// where there is none.
    pub open spec fn last_proxy_connection_check_interval_seconds(us: Seq<AgentConfigUpdate>, init: Option<u64>) -> Option<u64>
        decreases us.len(),
    {
        if us.len() == 0 {
            init
        } else {
            match us.last() {
                AgentConfigUpdate::ProxyConnectionCheckIntervalSeconds(v) => Some(v),
                _ => AgentConfig::last_proxy_connection_check_interval_seconds(us.drop_last(), init),
            }
        }
    }

    /// The value that the last call of `set_proxy_connection_check_timeout` among `us` wrote, or `init`
    /// where there is none.
    pub open spec fn last_proxy_connection_check_timeout(us: Seq<AgentConfigUpdate>, init: Option<u64>) -> Option<u64>
        decreases us.len(),
    {
        if us.len() == 0 {
            init
        } else {
            match us.last() {
                AgentConfigUpdate::ProxyConnectionCheckTimeout(v) => Some(v),
                _ => AgentConfig::last_proxy_connection_check_timeout(us.drop_last(), init),
            }
        }
    }
}

/// After any sequence of setter calls, each setting of a [`AgentConfig`] reads as
/// the value that the last call of its own setter wrote, or as it was before
/// where no call wrote it: every other setter leaves it as it is, and a
/// setting without a setter never changes.
pub proof fn lemma_agent_config_updates(c: AgentConfig, us: Seq<AgentConfigUpdate>)
    ensures
        c.apply_updates(us).port == AgentConfig::last_port(us, c.port),
        c.apply_updates(us).so_recv_buffer_size == c.so_recv_buffer_size,
        c.apply_updates(us).so_send_buffer_size == c.so_send_buffer_size,
        c.apply_updates(us).user_token == AgentConfig::last_user_token(us, c.user_token),
        c.apply_updates(us).proxy_addresses == AgentConfig::last_proxy_addresses(us, c.proxy_addresses),
        c.apply_updates(us).client_buffer_size == AgentConfig::last_client_buffer_size(us, c.client_buffer_size),
        c.apply_updates(us).message_framed_buffer_size == AgentConfig::last_message_framed_buffer_size(us, c.message_framed_buffer_size),
        c.apply_updates(us).thread_number == AgentConfig::last_thread_number(us, c.thread_number),
        c.apply_updates(us).max_blocking_threads == c.max_blocking_threads,
        c.apply_updates(us).thread_timeout == c.thread_timeout,
        c.apply_updates(us).compress == AgentConfig::last_compress(us, c.compress),
        c.apply_updates(us).client_stream_so_linger == c.client_stream_so_linger,
        c.apply_updates(us).proxy_stream_so_linger == c.proxy_stream_so_linger,
        c.apply_updates(us).so_backlog == AgentConfig::last_so_backlog(us, c.so_backlog),
        c.apply_updates(us).agent_private_key_file == AgentConfig::last_agent_private_key_file(us, c.agent_private_key_file),
        c.apply_updates(us).proxy_public_key_file == AgentConfig::last_proxy_public_key_file(us, c.proxy_public_key_file),
        c.apply_updates(us).init_proxy_connection_number == AgentConfig::last_init_proxy_connection_number(us, c.init_proxy_connection_number),
        c.apply_updates(us).min_proxy_connection_number == AgentConfig::last_min_proxy_connection_number(us, c.min_proxy_connection_number),
        c.apply_updates(us).proxy_connection_number_incremental == AgentConfig::last_proxy_connection_number_incremental(us, c.proxy_connection_number_incremental),
        c.apply_updates(us).proxy_connection_check_interval_seconds == AgentConfig::last_proxy_connection_check_interval_seconds(us, c.proxy_connection_check_interval_seconds),
        c.apply_updates(us).proxy_connection_check_timeout == AgentConfig::last_proxy_connection_check_timeout(us, c.proxy_connection_check_timeout),
    decreases us.len(),
{
    if us.len() > 0 {
        lemma_agent_config_updates(c, us.drop_last());
    }
}

} // verus!
