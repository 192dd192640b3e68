//! The tray menu: its entries for a given running state, and the commands
//! that its entries trigger.

use vstd::prelude::*;

verus! {

/// One entry of the tray menu.
#[derive(Debug, Clone, Copy, PartialEq, Eq)]
pub enum MenuEntry {
    Item { id: &'static str, label: &'static str, enabled: bool },
    Separator,
}

/// What a click on a menu entry asks for.
#[derive(Debug, Clone, Copy, PartialEq, Eq)]
pub enum MenuCommand {
    Show,
    Start,
    Stop,
    Restart,
    Logs,
    Quit,
}

/// The identifier of the tray icon.
pub const TRAY_ID: &'static str = "main";

/// The channel on which the request to show the logs is announced.
pub const SHOW_LOGS_CHANNEL: &'static str = "show-logs";

/// The status line of the menu.
pub open spec fn status_label(is_running: bool) -> &'static str {
    if is_running {
        "Status: Running"
    } else {
        "Status: Stopped"
    }
}

/// The menu for a running state: the status line, never clickable; start
/// offered only while stopped; stop and restart only while running.
pub open spec fn tray_menu_spec(is_running: bool) -> Seq<MenuEntry> {
    seq![
        MenuEntry::Item { id: "status", label: status_label(is_running), enabled: false },
        MenuEntry::Separator,
        MenuEntry::Item { id: "show", label: "Show Window", enabled: true },
        MenuEntry::Separator,
        MenuEntry::Item { id: "start", label: "Start Service", enabled: !is_running },
        MenuEntry::Item { id: "stop", label: "Stop Service", enabled: is_running },
        MenuEntry::Item { id: "restart", label: "Restart Service", enabled: is_running },
        MenuEntry::Separator,
        MenuEntry::Item { id: "logs", label: "View Logs", enabled: true },
        MenuEntry::Separator,
        MenuEntry::Item { id: "quit", label: "Quit", enabled: true },
    ]
}

/// The command that the entry with identifier `id` triggers, if any.
pub open spec fn command_of(id: Seq<char>) -> Option<MenuCommand> {
    if id == "show"@ {
        Some(MenuCommand::Show)
    } else if id == "start"@ {
        Some(MenuCommand::Start)
    } else if id == "stop"@ {
        Some(MenuCommand::Stop)
    } else if id == "restart"@ {
        Some(MenuCommand::Restart)
    } else if id == "logs"@ {
        Some(MenuCommand::Logs)
    } else if id == "quit"@ {
        Some(MenuCommand::Quit)
    } else {
        None
    }
}

/// Builds the tray menu for the given running state.
pub fn build_tray_menu(is_running: bool) -> (menu: Vec<MenuEntry>)
    ensures
        menu@ == tray_menu_spec(is_running),
{
    let status_text = if is_running {
        "Status: Running"
    } else {
        "Status: Stopped"
    };
    let mut menu: Vec<MenuEntry> = Vec::new();
    menu.push(MenuEntry::Item { id: "status", label: status_text, enabled: false });
    menu.push(MenuEntry::Separator);
    menu.push(MenuEntry::Item { id: "show", label: "Show Window", enabled: true });
    menu.push(MenuEntry::Separator);
    menu.push(MenuEntry::Item { id: "start", label: "Start Service", enabled: !is_running });
    menu.push(MenuEntry::Item { id: "stop", label: "Stop Service", enabled: is_running });
    menu.push(MenuEntry::Item { id: "restart", label: "Restart Service", enabled: is_running });
    menu.push(MenuEntry::Separator);
    menu.push(MenuEntry::Item { id: "logs", label: "View Logs", enabled: true });
    menu.push(MenuEntry::Separator);
    menu.push(MenuEntry::Item { id: "quit", label: "Quit", enabled: true });
    proof {
        assert(menu@ =~= tray_menu_spec(is_running));
    }
    menu
}

fn same_text(left: &str, right: &str) -> (same: bool)
    ensures
        same == (left@ == right@),
{
    left.to_owned() == right.to_owned()
}

/// Reads the identifier of a clicked menu entry. The status line and unknown
/// identifiers trigger nothing.
pub fn handle_tray_menu_event(event_id: &str) -> (command: Option<MenuCommand>)
    ensures
        command == command_of(event_id@),
{
    if same_text(event_id, "show") {
        Some(MenuCommand::Show)
    } else if same_text(event_id, "start") {
        Some(MenuCommand::Start)
    } else if same_text(event_id, "stop") {
        Some(MenuCommand::Stop)
    } else if same_text(event_id, "restart") {
        Some(MenuCommand::Restart)
    } else if same_text(event_id, "logs") {
        Some(MenuCommand::Logs)
    } else if same_text(event_id, "quit") {
        Some(MenuCommand::Quit)
    } else {
        None
    }
}

} // verus!
