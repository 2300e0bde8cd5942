//! The tray's view of the supervisor: the status snapshot the poller
//! publishes, the user actions the tray menu can request, and the rules
//! for which menu items are enabled in which state.
//!
//! Rendering the menu is the surrounding application's job; this module
//! decides what it shows.  The supervisor does not depend on the tray
//! enforcing anything: its own idempotence and serialization keep it
//! correct whatever actions arrive.

use vstd::prelude::*;
use vstd::string::StringExecFns;
use crate::supervisor::ServerInfo;

verus! {

/// What the tray believes about the server process.
#[derive(Debug, Clone)]
pub enum ServerTrayStatus {
    /// No server process is running.
    Stopped,
    /// A lifecycle operation is under way; transient.
    Restarting,
    /// The server is running; the snapshot carries its version.
    Running { info: ServerInfo },
}

/// The whole tray status: nothing is shown about the server until a
/// first status snapshot arrives.
#[derive(Debug, Clone)]
pub struct TrayStatus {
    /// The server status line, once known.
    pub server_js: Option<ServerTrayStatus>,
}

impl Default for TrayStatus {
    /// Before the first snapshot, nothing is known.
    fn default() -> (r: TrayStatus)
        ensures
            r.server_js is None,
    {
        TrayStatus { server_js: None }
    }
}

/// An event sent to the tray's event loop.
pub enum MenuEvent {
    /// Replace the tray status with this one.
    UpdateTray(TrayStatus),
}

/// A user's server action from the tray menu.
#[derive(Debug, Clone, Copy, PartialEq, Eq, Structural)]
pub enum ServerAction {
    /// Start the server if it is not running.
    Start,
    /// Stop the running server.
    Stop,
    /// First stop the server child process, then start it back up.
    Restart,
}

impl ServerAction {
    /// The menu identifier of the tray item that triggers this action.
    pub fn menu_id(&self) -> (r: &'static str)
        ensures
            r@ == match self {
                ServerAction::Start => "start server"@,
                ServerAction::Stop => "stop server"@,
                ServerAction::Restart => "restart server"@,
            },
    {
        match self {
            ServerAction::Start => "start server",
            ServerAction::Stop => "stop server",
            ServerAction::Restart => "restart server",
        }
    }
}

/// Which of the tray's server items are enabled.
pub struct MenuFlags {
    /// The restart item: available whenever a status is known and no
    /// restart is already under way.
    pub restart_enabled: bool,
    /// The stop item: available exactly while the server runs.
    pub stop_enabled: bool,
    /// The start item: available exactly while the server is stopped.
    pub start_enabled: bool,
}

/// Decides which menu items a given status enables, so that conflicting
/// actions are not offered.
pub fn menu_flags(status: &TrayStatus) -> (r: MenuFlags)
    ensures
        r.restart_enabled == (status.server_js is Some && !(status.server_js matches Some(
            ServerTrayStatus::Restarting,
        ))),
        r.stop_enabled == (status.server_js matches Some(ServerTrayStatus::Running { info: _ })),
        r.start_enabled == (status.server_js matches Some(ServerTrayStatus::Stopped)),
{
    match &status.server_js {
        None => MenuFlags { restart_enabled: false, stop_enabled: false, start_enabled: false },
        Some(ServerTrayStatus::Stopped) => MenuFlags {
            restart_enabled: true,
            stop_enabled: false,
            start_enabled: true,
        },
        Some(ServerTrayStatus::Restarting) => MenuFlags {
            restart_enabled: false,
            stop_enabled: false,
            start_enabled: false,
        },
        Some(ServerTrayStatus::Running { info: _ }) => MenuFlags {
            restart_enabled: true,
            stop_enabled: true,
            start_enabled: false,
        },
    }
}

impl ServerTrayStatus {
    /// The text of the tray's status line.
    pub fn status_label(&self) -> (r: String)
        ensures
            match self {
                ServerTrayStatus::Stopped => r@ == "Server is not running"@,
                ServerTrayStatus::Restarting => r@ == "Server is restarting"@,
                ServerTrayStatus::Running { info } => r@ == "Server v"@ + info.version@
                    + " is running"@,
            },
    {
        match self {
            ServerTrayStatus::Stopped => String::from_str("Server is not running"),
            ServerTrayStatus::Restarting => String::from_str("Server is restarting"),
            ServerTrayStatus::Running { info } => {
                let mut out = String::from_str("Server v");
                out.append(info.version.as_str());
                out.append(" is running");
                out
            },
        }
    }
}

} // verus!
