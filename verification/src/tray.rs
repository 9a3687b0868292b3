//! The system tray: its menu, and what a menu choice or a click on the icon
//! does to the main window.
use vstd::prelude::*;
use crate::window::{spec_visibility_toggle, visibility_toggle, VisibilityCommand};

verus! {

/// One entry of the tray menu.
#[derive(Clone, Debug, PartialEq, Eq)]
pub struct MenuEntry {
    /// The identifier that a choice of the entry reports.
    pub id: String,
    /// The text shown.
    pub label: String,
    /// Whether the entry can be chosen.
    pub enabled: bool,
}

/// A slot of the tray menu.
#[derive(Clone, Debug, PartialEq, Eq)]
pub enum MenuSlot {
    Entry(MenuEntry),
    Separator,
}

/// `s` is an entry with this identifier, label and state.
pub open spec fn is_entry(s: MenuSlot, id: Seq<char>, label: Seq<char>, enabled: bool) -> bool {
    match s {
        MenuSlot::Entry(e) => e.id@ == id && e.label@ == label && e.enabled == enabled,
        MenuSlot::Separator => false,
    }
}

fn entry(id: &str, label: &str, enabled: bool) -> (s: MenuSlot)
    ensures
        is_entry(s, id@, label@, enabled),
{
    MenuSlot::Entry(
        MenuEntry { id: String::from_str(id), label: String::from_str(label), enabled },
    )
}

/// The tray menu: the client's name (not selectable), a separator, the
/// show/hide entry (labelled for a visible window), a separator, and quit.
pub fn tray_menu() -> (m: Vec<MenuSlot>)
    ensures
        m@.len() == 5,
        is_entry(m@[0], "title"@, "rsStoat for Desktop"@, false),
        m@[1] == MenuSlot::Separator,
        is_entry(m@[2], "show_hide"@, "Hide App"@, true),
        m@[3] == MenuSlot::Separator,
        is_entry(m@[4], "quit"@, "Quit App"@, true),
{
    let mut m: Vec<MenuSlot> = Vec::new();
    m.push(entry("title", "rsStoat for Desktop", false));
    m.push(MenuSlot::Separator);
    m.push(entry("show_hide", "Hide App", true));
    m.push(MenuSlot::Separator);
    m.push(entry("quit", "Quit App", true));
    m
}

/// The main window as the tray finds it.
#[derive(Clone, Copy, Debug, PartialEq, Eq, Structural)]
pub enum MainWindow {
    /// There is no main window (or no tray state to update).
    Absent,
    /// The main window exists; whether it is visible, if that could be read.
    Present { is_visible: Option<bool> },
}

/// What a choice in the tray menu leads to.
#[derive(Clone, Debug, PartialEq, Eq)]
pub enum MenuCommand {
    /// Nothing.
    Nothing,
    /// Hide the window and relabel the show/hide entry.
    Hide { label: String },
    /// Show and focus the window and relabel the show/hide entry.
    Show { label: String },
    /// Quit the application with this exit code.
    Exit { code: i32 },
}

/// What choosing the menu entry `id` does. The show/hide entry toggles the
/// window and relabels itself for the new state; quit exits with code 0;
/// anything else does nothing.
pub fn menu_command(id: &str, window: MainWindow) -> (c: MenuCommand)
    ensures
        id@ == "show_hide"@ ==> match window {
            MainWindow::Absent => c == MenuCommand::Nothing,
            MainWindow::Present { is_visible } => match c {
                MenuCommand::Hide { label } => is_visible == Some(true) && label@ == "Show App"@,
                MenuCommand::Show { label } => is_visible != Some(true) && label@ == "Hide App"@,
                _ => false,
            },
        },
        id@ == "quit"@ ==> c == (MenuCommand::Exit { code: 0 }),
        id@ != "show_hide"@ && id@ != "quit"@ ==> c == MenuCommand::Nothing,
{
    proof {
        reveal_strlit("show_hide");
        reveal_strlit("quit");
        assert("quit"@.len() != "show_hide"@.len());
    }
    let chosen = String::from_str(id);
    if chosen == String::from_str("show_hide") {
        match window {
            MainWindow::Absent => MenuCommand::Nothing,
            MainWindow::Present { is_visible } => match visibility_toggle(is_visible) {
                VisibilityCommand::Hide => MenuCommand::Hide { label: String::from_str("Show App") },
                VisibilityCommand::ShowAndFocus => MenuCommand::Show {
                    label: String::from_str("Hide App"),
                },
            },
        }
    } else if chosen == String::from_str("quit") {
        MenuCommand::Exit { code: 0 }
    } else {
        MenuCommand::Nothing
    }
}

/// What a click on the tray icon does: a left click toggles the window's
/// visibility (without relabelling the menu); other clicks do nothing.
pub fn icon_click(left_button: bool, window: MainWindow) -> (c: Option<VisibilityCommand>)
    ensures
        c == match window {
            MainWindow::Present { is_visible } if left_button => Some(
                spec_visibility_toggle(is_visible),
            ),
            _ => None,
        },
{
    if !left_button {
        return None;
    }
    match window {
        MainWindow::Absent => None,
        MainWindow::Present { is_visible } => Some(visibility_toggle(is_visible)),
    }
}

} // verus!
