//! The decisions of the main window and the tray menu of the desktop agent.
use vstd::prelude::*;

verus! {

/// The tray menu item and event that start the server.
pub const EVENT_AGENT_SERVER_START: &'static str = "agent-server-start-backend-event";
/// The tray menu item and event that stop the server.
pub const EVENT_AGENT_SERVER_STOP: &'static str = "agent-server-stop-backend-event";
/// The tray menu item that exits.
pub const EVENT_AGENT_EXIT: &'static str = "agent-exit";

/// An event of the main window.
#[derive(Debug, Clone, Copy, PartialEq, Eq, Structural)]
pub enum WindowEvent {
    CloseRequested,
    Resized { width: u32, height: u32 },
    Other,
}

/// What the main window does.
#[derive(Debug, Clone, Copy, PartialEq, Eq, Structural)]
pub enum WindowAction {
    Exit,
    Hide,
    Ignore,
}

/// Closing exits; shrinking to nothing (minimizing) hides; the rest is ignored.
pub fn window_event_action(event: WindowEvent) -> (r: WindowAction)
    ensures
        event == WindowEvent::CloseRequested ==> r == WindowAction::Exit,
        event matches WindowEvent::Resized { width, height } ==> r == (if width == 0 && height == 0 {
            WindowAction::Hide
        } else {
            WindowAction::Ignore
        }),
        event == WindowEvent::Other ==> r == WindowAction::Ignore,
{
    match event {
        WindowEvent::CloseRequested => WindowAction::Exit,
        WindowEvent::Resized { width, height } => if width == 0 && height == 0 {
            WindowAction::Hide
        } else {
            WindowAction::Ignore
        },
        WindowEvent::Other => WindowAction::Ignore,
    }
}

/// An event of the tray icon.
#[derive(Debug)]
pub enum TrayEvent {
    LeftClick,
    MenuItemClick(String),
    Other,
}

/// What the tray does.
#[derive(Debug, Clone, Copy, PartialEq, Eq, Structural)]
pub enum TrayAction {
    HideWindow,
    ShowWindow,
    Exit,
    StartServer,
    StopServer,
    Ignore,
}

/// A left click hides the window when it is known to be visible and shows it
/// otherwise; the menu items exit, start or stop the server; the rest is
/// ignored.
pub fn tray_event_action(event: &TrayEvent, window_visible: Option<bool>) -> (r: TrayAction)
    ensures
        event is LeftClick ==> r == (if window_visible == Some(true) {
            TrayAction::HideWindow
        } else {
            TrayAction::ShowWindow
        }),
        event matches TrayEvent::MenuItemClick(id) ==> r == (if id@ == EVENT_AGENT_EXIT@ {
            TrayAction::Exit
        } else if id@ == EVENT_AGENT_SERVER_START@ {
            TrayAction::StartServer
        } else if id@ == EVENT_AGENT_SERVER_STOP@ {
            TrayAction::StopServer
        } else {
            TrayAction::Ignore
        }),
        event is Other ==> r == TrayAction::Ignore,
{
    match event {
        TrayEvent::LeftClick => match window_visible {
            Some(true) => TrayAction::HideWindow,
            _ => TrayAction::ShowWindow,
        },
        TrayEvent::MenuItemClick(id) => {
            if text_equals(id.as_str(), EVENT_AGENT_EXIT) {
                TrayAction::Exit
            } else if text_equals(id.as_str(), EVENT_AGENT_SERVER_START) {
                TrayAction::StartServer
            } else if text_equals(id.as_str(), EVENT_AGENT_SERVER_STOP) {
                TrayAction::StopServer
            } else {
                TrayAction::Ignore
            }
        },
        TrayEvent::Other => TrayAction::Ignore,
    }
}

/// Whether two texts are equal, character by character.
pub fn text_equals(a: &str, b: &str) -> (r: bool)
    ensures
        r == (a@ == b@),
{
    let n = a.unicode_len();
    if n != b.unicode_len() {
        return false;
    }
    let mut i: usize = 0;
    while i < n
        invariant
            i <= n,
            n == a@.len(),
            n == b@.len(),
            forall|j: int| 0 <= j < i ==> a@[j] == b@[j],
        decreases n - i,
    {
        if a.get_char(i) != b.get_char(i) {
            return false;
        }
        i = i + 1;
    }
    assert(a@ =~= b@);
    true
}

} // verus!
