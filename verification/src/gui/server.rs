//! The command loop of the desktop agent's server: start and stop commands
//! from the user interface, and the settings of the runtime and listener that
//! a start builds.
use vstd::prelude::*;
use crate::gui::config::AgentConfig;

verus! {

/// The port the server listens on when none is configured.
pub const DEFAULT_SERVER_PORT: u16 = 10080;

/// A command to the server loop.
#[derive(Debug, Clone, Copy, PartialEq, Eq, Structural)]
pub enum AgentServerCommand {
    Start,
    Stop,
}

/// The settings of the runtime that a start builds.
#[derive(Debug, Clone, Copy, PartialEq, Eq, Structural)]
pub struct RuntimeSettings {
    /// Seconds that an idle blocking thread is kept.
    pub thread_keep_alive_seconds: u64,
    pub max_blocking_threads: usize,
    pub worker_threads: usize,
}

/// The settings of the listening socket that a start opens.
#[derive(Debug, Clone, Copy, PartialEq, Eq, Structural)]
pub struct ListenSettings {
    pub port: u16,
    pub backlog: u32,
    pub recv_buffer_size: Option<u32>,
    pub send_buffer_size: Option<u32>,
    /// Seconds of linger on each accepted client connection.
    pub client_linger_seconds: Option<u64>,
}

/// The runtime settings: the configured ones, else 2 seconds of keep-alive,
/// 32 blocking threads and 1024 worker threads.
pub fn runtime_settings(configuration: &AgentConfig) -> (r: RuntimeSettings)
    ensures
        r == (RuntimeSettings {
            thread_keep_alive_seconds: configuration.thread_timeout.unwrap_or(2),
            max_blocking_threads: configuration.max_blocking_threads.unwrap_or(32),
            worker_threads: configuration.thread_number.unwrap_or(1024),
        }),
{
    RuntimeSettings {
        thread_keep_alive_seconds: configuration.thread_timeout().unwrap_or(2),
        max_blocking_threads: configuration.max_blocking_threads().unwrap_or(32),
        worker_threads: configuration.thread_number().unwrap_or(1024),
    }
}

/// The listener settings: the configured port (else 10080) and backlog
/// (else 1024), and the socket buffer sizes and client linger where
/// configured.
pub fn listen_settings(configuration: &AgentConfig) -> (r: ListenSettings)
    ensures
        r == (ListenSettings {
            port: configuration.port.unwrap_or(DEFAULT_SERVER_PORT),
            backlog: configuration.so_backlog.unwrap_or(1024),
            recv_buffer_size: configuration.so_recv_buffer_size,
            send_buffer_size: configuration.so_send_buffer_size,
            client_linger_seconds: configuration.client_stream_so_linger,
        }),
{
    ListenSettings {
        port: configuration.port().unwrap_or(DEFAULT_SERVER_PORT),
        backlog: configuration.so_backlog().unwrap_or(1024),
        recv_buffer_size: configuration.so_recv_buffer_size(),
        send_buffer_size: configuration.so_send_buffer_size(),
        client_linger_seconds: configuration.client_stream_so_linger(),
    }
}

/// What the server loop does with a command.
#[derive(Debug, Clone, Copy, PartialEq, Eq, Structural)]
pub enum ServerLoopAction {
    /// Shut the running runtime down.
    ShutdownRuntime,
    /// Build a runtime and serve on it, in place of the running one if any.
    StartRuntime { replaces_running: bool },
    /// Nothing runs; nothing to do.
    Idle,
}

/// The server loop: whether a runtime runs after `command` (an `Err` when
/// receiving failed), and what to do. A start always builds a new runtime; a
/// stop or a failed receive shuts down what runs.
pub fn on_server_command(running: bool, command: Result<AgentServerCommand, ()>) -> (r: (bool, ServerLoopAction))
    ensures
        command == Ok::<AgentServerCommand, ()>(AgentServerCommand::Start) ==> r == (
            true,
            ServerLoopAction::StartRuntime { replaces_running: running },
        ),
        command != Ok::<AgentServerCommand, ()>(AgentServerCommand::Start) ==> r == (
            false,
            if running {
                ServerLoopAction::ShutdownRuntime
            } else {
                ServerLoopAction::Idle
            },
        ),
{
    match command {
        Ok(AgentServerCommand::Start) => (true, ServerLoopAction::StartRuntime { replaces_running: running }),
        _ => (false, if running {
            ServerLoopAction::ShutdownRuntime
        } else {
            ServerLoopAction::Idle
        }),
    }
}

} // verus!
