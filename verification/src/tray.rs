//! The tray icon: what its menu offers and what each entry does.

use vstd::prelude::*;
use vstd::string::*;
use crate::text::text_eq;

verus! {

/// The tray icon of the application.
#[derive(Debug)]
pub struct TrayManager;

impl TrayManager {
    /// The manager of the tray icon.
    pub fn new() -> (r: TrayManager)
        ensures
            r == TrayManager,
    {
        TrayManager
    }
}

impl Default for TrayManager {
    fn default() -> (r: Self)
        ensures
            r == TrayManager,
    {
        TrayManager::new()
    }
}

/// One line of the tray menu.
#[derive(Clone, Copy, Debug)]
pub enum TrayMenuEntry {
    /// An entry that can be chosen, with its id and the text it shows.
    Item { id: &'static str, label: &'static str },
    /// A line between groups of entries.
    Separator,
}

/// What choosing an entry of the tray menu does.
#[derive(Clone, Copy, Debug, PartialEq, Eq, Structural)]
pub enum TrayAction {
    /// Shows the main window, or hides it where it is shown.
    ToggleWindow,
    /// Starts the gateway, and on success stores that it starts with the
    /// application, rebuilds the menu and tells the front end.
    StartServer,
    /// Stops the gateway, and on success stores that it does not start with
    /// the application, rebuilds the menu and tells the front end.
    StopServer,
    /// Stops the gateway and leaves the application.
    Quit,
}

/// The action behind the menu entry `id`, if the id is one of the menu's.
pub open spec fn action_of(id: Seq<char>) -> Option<TrayAction> {
    if id == "toggle"@ {
        Some(TrayAction::ToggleWindow)
    } else if id == "start_server"@ {
        Some(TrayAction::StartServer)
    } else if id == "stop_server"@ {
        Some(TrayAction::StopServer)
    } else if id == "quit"@ {
        Some(TrayAction::Quit)
    } else {
        None
    }
}

/// The entry that starts or stops the gateway.
pub open spec fn server_entry(server_running: bool) -> (Seq<char>, Seq<char>) {
    if server_running {
        ("stop_server"@, "停止 WebSocket API"@)
    } else {
        ("start_server"@, "启动 WebSocket API"@)
    }
}

/// Whether `entry` is the item `id` with the text `label`.
pub open spec fn is_item(entry: TrayMenuEntry, id: Seq<char>, label: Seq<char>) -> bool {
    entry matches TrayMenuEntry::Item { id: entry_id, label: entry_label } && entry_id@ == id
        && entry_label@ == label
}

impl TrayManager {
    /// The name of the event that tells the front end that the gateway was
    /// started or stopped.
    pub fn status_changed_event() -> (r: &'static str)
        ensures
            r@ == "webserver-status-changed"@,
    {
        "webserver-status-changed"
    }

    /// The key of the setting that says whether the gateway starts with the
    /// application.
    pub fn auto_start_key() -> (r: &'static str)
        ensures
            r@ == "webserver.auto_start"@,
    {
        "webserver.auto_start"
    }

    /// The id of the tray icon.
    pub fn tray_id() -> (r: &'static str)
        ensures
            r@ == "main"@,
    {
        "main"
    }

    /// The tray menu: the entry for the window, then the one entry for the
    /// gateway that fits its state, then the entry to quit, with a separator
    /// before and after the middle one.
    pub fn build_tray_menu(server_running: bool) -> (r: Vec<TrayMenuEntry>)
        ensures
            r@.len() == 5,
            is_item(r@[0], "toggle"@, "显示/隐藏窗口"@),
            r@[1] is Separator,
            is_item(r@[2], server_entry(server_running).0, server_entry(server_running).1),
            r@[3] is Separator,
            is_item(r@[4], "quit"@, "退出"@),
    {
        let mut menu: Vec<TrayMenuEntry> = Vec::new();
        menu.push(TrayMenuEntry::Item { id: "toggle", label: "显示/隐藏窗口" });
        menu.push(TrayMenuEntry::Separator);
        if server_running {
            menu.push(TrayMenuEntry::Item { id: "stop_server", label: "停止 WebSocket API" });
        } else {
            menu.push(TrayMenuEntry::Item { id: "start_server", label: "启动 WebSocket API" });
        }
        menu.push(TrayMenuEntry::Separator);
        menu.push(TrayMenuEntry::Item { id: "quit", label: "退出" });
        menu
    }

    /// The action behind the menu entry `id`; none for an id that the menu
    /// does not have.
    pub fn menu_action(id: &str) -> (r: Option<TrayAction>)
        ensures
            r == action_of(id@),
    {
        if text_eq(id, "toggle") {
            Some(TrayAction::ToggleWindow)
        } else if text_eq(id, "start_server") {
            Some(TrayAction::StartServer)
        } else if text_eq(id, "stop_server") {
            Some(TrayAction::StopServer)
        } else if text_eq(id, "quit") {
            Some(TrayAction::Quit)
        } else {
            None
        }
    }

    /// Whether a click on the tray icon shows the main window: the left
    /// button does, when it is let go.
    pub fn click_shows_window(left_button: bool, button_up: bool) -> (r: bool)
        ensures
            r == (left_button && button_up),
    {
        left_button && button_up
    }
}

} // verus!
