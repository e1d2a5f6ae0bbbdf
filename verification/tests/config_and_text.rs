use ppaass_agent::config::{AgentServerConfig, AgentServerLogConfig};
use ppaass_agent::console::{self, AgentConfig as ConsoleAgentConfig};
use ppaass_agent::crypto::user_key_paths;
use ppaass_agent::desktop::config::AgentServerConfig as DesktopAgentServerConfig;
use ppaass_agent::desktop::server::AgentServer as DesktopAgentServer;
use ppaass_agent::gui::config::{apply_ui_configuration, prepare_agent_config, AgentArguments, AgentConfig, AgentLogConfig, UiConfiguration};
use ppaass_agent::gui::frame::{tray_event_action, window_event_action, TrayAction, TrayEvent, WindowAction, WindowEvent};
use ppaass_agent::gui::server::{listen_settings, on_server_command, runtime_settings, AgentServerCommand, ServerLoopAction};
use ppaass_agent::server::{AgentServer, ServerError};
use ppaass_agent::text::{parse_u16, push_decimal, push_hex_lower, IntParseError};
use std::sync::Arc;

fn empty_gui_config() -> AgentConfig {
    AgentConfig {
        port: None,
        so_recv_buffer_size: None,
        so_send_buffer_size: None,
        user_token: None,
        proxy_addresses: None,
        client_buffer_size: None,
        message_framed_buffer_size: None,
        thread_number: None,
        max_blocking_threads: None,
        thread_timeout: None,
        compress: None,
        client_stream_so_linger: None,
        proxy_stream_so_linger: None,
        so_backlog: None,
        agent_private_key_file: None,
        proxy_public_key_file: None,
        init_proxy_connection_number: None,
        min_proxy_connection_number: None,
        proxy_connection_number_incremental: None,
        proxy_connection_check_interval_seconds: None,
        proxy_connection_check_timeout: None,
    }
}

#[test]
fn agent_server_config_defaults() {
    let c = AgentServerConfig::default();
    assert_eq!(c.get_user_token(), &None);
    assert!(!c.get_ipv6());
    assert_eq!(c.get_port(), &None);
    assert_eq!(c.get_agent_server_worker_thread_number(), 128);
    assert!(!c.get_compress());
    assert_eq!(c.get_proxy_connection_pool_size(), 1024);
    assert_eq!(c.get_message_framed_buffer_size(), 65536);
    assert_eq!(c.get_idle_proxy_heartbeat_interval(), 20);
    assert_eq!(c.get_client_connection_accept_timeout(), 5);
    assert_eq!(c.get_client_io_buffer_size(), 65536);
    assert_eq!(c.get_connect_to_proxy_timeout(), 20);
    assert_eq!(c.get_max_client_connection_number(), 1024);
    assert!(c.get_proxy_addresses().is_none());
    assert!(c.get_rsa_dir().is_none());
}

#[test]
fn agent_server_config_read_after_write() {
    let mut c = AgentServerConfig::default();
    c.set_user_token("token".to_string());
    c.set_ipv6(true);
    c.set_port(10080);
    c.set_rsa_dir("/etc/rsa/");
    c.set_agent_server_worker_thread_number(8);
    c.set_compress(true);
    c.set_proxy_addresses(vec!["1.2.3.4:80".to_string()]);
    assert_eq!(c.get_user_token().as_deref(), Some("token"));
    assert!(c.get_ipv6());
    assert_eq!(c.get_port(), &Some(10080));
    assert_eq!(c.get_rsa_dir().unwrap(), "/etc/rsa/");
    assert_eq!(c.get_agent_server_worker_thread_number(), 8);
    assert!(c.get_compress());
    assert_eq!(c.get_proxy_addresses().unwrap(), &vec!["1.2.3.4:80".to_string()]);
    c.proxy_connection_pool_size = Some(16);
    assert_eq!(c.get_max_client_connection_number(), 16);
    c.max_client_connection_number = Some(3);
    assert_eq!(c.get_max_client_connection_number(), 3);
}

#[test]
fn log_configs() {
    let l = AgentServerLogConfig { dir: Some("logs".to_string()), file: None, level: Some("info".to_string()) };
    assert_eq!(l.get_dir().as_deref(), Some("logs"));
    assert_eq!(l.get_file(), &None);
    assert_eq!(l.get_level().as_deref(), Some("info"));
    let mut g = AgentLogConfig { log_dir: None, log_file: None, max_log_level: None };
    g.set_log_dir("d".to_string());
    g.set_log_file("f".to_string());
    g.set_max_log_level("debug".to_string());
    assert_eq!(g.log_dir().as_deref(), Some("d"));
    assert_eq!(g.log_file().as_deref(), Some("f"));
    assert_eq!(g.max_log_level().as_deref(), Some("debug"));
}

#[test]
fn desktop_config_defaults_and_server() {
    let mut c = DesktopAgentServerConfig::default();
    assert_eq!(c.get_thread_number(), 128);
    assert_eq!(c.get_client_max_connection_number(), 1024);
    assert_eq!(c.get_client_tcp_connection_accept_timout_seconds(), 20);
    let server = DesktopAgentServer::new(Arc::new(DesktopAgentServerConfig::default()));
    assert_eq!(server.bind_address(), Err(ServerError::PortMissing { ipv6: false }));
    c.set_port(1080);
    c.set_thread_number(4);
    assert_eq!(c.get_thread_number(), 4);
    let server = DesktopAgentServer::new(Arc::new(c));
    assert_eq!(server.bind_address().unwrap(), "0.0.0.0:1080");
}

#[test]
fn agent_server_bind_address() {
    let mut c = AgentServerConfig::default();
    c.set_ipv6(true);
    assert_eq!(AgentServer::new(Arc::new(AgentServerConfig::default())).bind_address(), Err(ServerError::PortMissing { ipv6: false }));
    c.set_port(8080);
    let server = AgentServer::new(Arc::new(c));
    assert_eq!(server.bind_address().unwrap(), "::1:8080");
    assert_eq!(server.configuration().get_port(), &Some(8080));
}

#[test]
fn console_config_defaults() {
    let mut c = ConsoleAgentConfig::default();
    assert_eq!(c.get_port(), 80);
    assert_eq!(c.get_proxy_send_buffer_size(), 512 * 1024);
    assert_eq!(c.get_client_receive_buffer_size(), 512 * 1024);
    assert_eq!(c.get_connect_to_proxy_timeout(), 20);
    assert_eq!(c.get_proxy_relay_timeout(), 20);
    assert_eq!(c.get_client_relay_timeout(), 20);
    assert_eq!(console::AgentServer::bind_address(&c), "0.0.0.0:80");
    c.set_port(9);
    c.set_ipv6(true);
    assert_eq!(console::AgentServer::bind_address(&c), "::1:9");
}

#[test]
fn gui_config_arguments_override_file() {
    let mut file = empty_gui_config();
    file.port = Some(1);
    file.so_backlog = Some(7);
    file.thread_number = Some(3);
    let arguments = AgentArguments {
        configuration_file: None,
        log_configuration_file: None,
        port: Some(2),
        compress: Some(true),
        client_buffer_size: None,
        message_framed_buffer_size: Some(10),
        so_backlog: None,
    };
    let c = prepare_agent_config(file, &arguments);
    assert_eq!(c.port(), Some(2));
    assert_eq!(c.compress(), Some(true));
    assert_eq!(c.message_framed_buffer_size(), Some(10));
    assert_eq!(c.so_backlog(), Some(7));
    assert_eq!(c.thread_number(), Some(3));
    assert_eq!(c.client_buffer_size(), None);
}

fn form(port: Option<&str>) -> UiConfiguration {
    UiConfiguration {
        user_token: Some("u".to_string()),
        proxy_addresses: Some(vec!["p".to_string()]),
        port: port.map(|p| p.to_string()),
        client_buffer_size: Some(1),
        message_framed_buffer_size: None,
        thread_number: Some(2),
        compress: Some(false),
        init_proxy_connection_number: Some(3),
        min_proxy_connection_number: Some(4),
        proxy_connection_number_incremental: Some(5),
        proxy_connection_check_interval_seconds: Some(6),
        proxy_connection_check_timeout: Some(7),
    }
}

#[test]
fn gui_form_applied() {
    let mut c = empty_gui_config();
    assert_eq!(apply_ui_configuration(&mut c, form(Some("10080"))), Ok(()));
    assert_eq!(c.port(), Some(10080));
    assert_eq!(c.user_token().as_deref(), Some("u"));
    assert_eq!(c.client_buffer_size(), Some(1));
    assert_eq!(c.thread_number(), Some(2));
    assert_eq!(c.proxy_connection_number_increasement(), Some(5));
    assert_eq!(c.proxy_connection_check_interval_seconds(), None);
    assert_eq!(c.proxy_connection_check_timeout(), None);
}

#[test]
fn gui_form_with_bad_port() {
    let mut c = empty_gui_config();
    assert_eq!(apply_ui_configuration(&mut c, form(Some("70000"))), Err("number too large to fit in target type".to_string()));
    assert_eq!(c.user_token().as_deref(), Some("u"));
    assert_eq!(c.proxy_addresses().as_ref().unwrap().len(), 1);
    assert_eq!(c.client_buffer_size(), None);
    let mut c = empty_gui_config();
    assert_eq!(apply_ui_configuration(&mut c, form(Some("8o"))), Err("invalid digit found in string".to_string()));
    let mut c = empty_gui_config();
    assert_eq!(apply_ui_configuration(&mut c, form(Some(""))), Err("cannot parse integer from empty string".to_string()));
}

#[test]
fn parse_u16_like_std() {
    for text in ["0", "80", "+443", "65535", "65536", "", "+", "-1", "1a", "99999x", "00080", " 1"] {
        let expected = text.parse::<u16>().map_err(|e| e.to_string());
        let got = parse_u16(text).map_err(|e| e.to_text());
        assert_eq!(got, expected, "text {text:?}");
    }
    assert_eq!(parse_u16("65536"), Err(IntParseError::PosOverflow));
}

#[test]
fn decimal_and_hex_rendering() {
    for n in [0u64, 7, 10, 255, 65535, 1234567890123] {
        let mut s = String::from("x");
        push_decimal(&mut s, n);
        assert_eq!(s, format!("x{n}"));
        let mut h = String::new();
        push_hex_lower(&mut h, n);
        assert_eq!(h, format!("{n:x}"));
    }
    for port in [0u16, 1, 80, 443, 65535] {
        let mut s = String::new();
        push_decimal(&mut s, port as u64);
        assert_eq!(parse_u16(&s), Ok(port));
    }
}

#[test]
fn key_paths() {
    let (public, private) = user_key_paths("/rsa/", "user1");
    assert_eq!(public, "/rsa/user1/ProxyPublicKey.pem");
    assert_eq!(private, "/rsa/user1/AgentPrivateKey.pem");
}

#[test]
fn gui_server_loop() {
    let mut c = empty_gui_config();
    let r = runtime_settings(&c);
    assert_eq!((r.thread_keep_alive_seconds, r.max_blocking_threads, r.worker_threads), (2, 32, 1024));
    let l = listen_settings(&c);
    assert_eq!((l.port, l.backlog), (10080, 1024));
    c.thread_number = Some(4);
    c.port = Some(1);
    c.so_recv_buffer_size = Some(100);
    assert_eq!(runtime_settings(&c).worker_threads, 4);
    assert_eq!(listen_settings(&c).port, 1);
    assert_eq!(listen_settings(&c).recv_buffer_size, Some(100));
    assert_eq!(on_server_command(false, Ok(AgentServerCommand::Start)), (true, ServerLoopAction::StartRuntime { replaces_running: false }));
    assert_eq!(on_server_command(true, Ok(AgentServerCommand::Start)), (true, ServerLoopAction::StartRuntime { replaces_running: true }));
    assert_eq!(on_server_command(true, Ok(AgentServerCommand::Stop)), (false, ServerLoopAction::ShutdownRuntime));
    assert_eq!(on_server_command(false, Err(())), (false, ServerLoopAction::Idle));
}

#[test]
fn gui_window_and_tray() {
    assert_eq!(window_event_action(WindowEvent::CloseRequested), WindowAction::Exit);
    assert_eq!(window_event_action(WindowEvent::Resized { width: 0, height: 0 }), WindowAction::Hide);
    assert_eq!(window_event_action(WindowEvent::Resized { width: 0, height: 5 }), WindowAction::Ignore);
    assert_eq!(tray_event_action(&TrayEvent::LeftClick, Some(true)), TrayAction::HideWindow);
    assert_eq!(tray_event_action(&TrayEvent::LeftClick, None), TrayAction::ShowWindow);
    assert_eq!(tray_event_action(&TrayEvent::MenuItemClick("agent-exit".to_string()), None), TrayAction::Exit);
    assert_eq!(
        tray_event_action(&TrayEvent::MenuItemClick("agent-server-start-backend-event".to_string()), None),
        TrayAction::StartServer
    );
    assert_eq!(
        tray_event_action(&TrayEvent::MenuItemClick("agent-server-stop-backend-event".to_string()), None),
        TrayAction::StopServer
    );
    assert_eq!(tray_event_action(&TrayEvent::MenuItemClick("other".to_string()), None), TrayAction::Ignore);
    assert_eq!(tray_event_action(&TrayEvent::Other, Some(false)), TrayAction::Ignore);
}

#[test]
fn settings_survive_other_setters() {
    let mut c = ConsoleAgentConfig::default();
    assert_eq!(c.get_agent_server_worker_thread_number(), 128);
    c.set_ipv6(true);
    c.set_agent_server_worker_thread_number(3);
    c.set_port(7);
    c.set_compress(true);
    c.set_user_token("first".to_string());
    c.set_rsa_dir("/keys/");
    c.set_agent_server_worker_thread_number(5);
    c.set_user_token("second".to_string());
    assert!(c.get_ipv6());
    assert_eq!(c.get_agent_server_worker_thread_number(), 5);
    assert_eq!(c.get_user_token(), &Some("second".to_string()));
    assert_eq!(c.get_port(), 7);

    let mut s = AgentServerConfig::default();
    s.set_user_token("t1".to_string());
    s.set_port(1);
    s.set_compress(false);
    assert_eq!(s.get_user_token(), &Some("t1".to_string()));
    assert_eq!(s.get_port(), &Some(1));

    let mut g = empty_gui_config();
    g.thread_timeout = Some(30);
    g.set_proxy_connection_number_incremental(4);
    g.set_port(2);
    g.set_thread_number(6);
    assert_eq!(g.proxy_connection_number_increasement(), Some(4));
    assert_eq!(g.thread_timeout(), Some(30));
    assert_eq!(g.port(), Some(2));
    let mut fresh = empty_gui_config();
    assert_eq!(fresh.port(), None);
    fresh.set_port(10081);
    assert_eq!(fresh.port(), Some(10081));

    let mut log = AgentLogConfig { log_dir: None, log_file: None, max_log_level: None };
    assert_eq!(log.max_log_level(), &None);
    log.set_log_file("agent.log".to_string());
    log.set_log_dir("logs".to_string());
    log.set_max_log_level("not-a-level".to_string());
    assert_eq!(log.log_file(), &Some("agent.log".to_string()));
    assert_eq!(log.max_log_level(), &Some("not-a-level".to_string()));
}
