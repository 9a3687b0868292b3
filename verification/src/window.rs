//! Decisions about the main window: what a window event leads to, how a
//! recorded window state is restored, and how maximise and visibility toggle.
use vstd::prelude::*;
use crate::config::{
    with_maximised, with_position, with_size, AppConfig, WindowState, DEFAULT_HEIGHT, DEFAULT_WIDTH,
};

verus! {

/// The least time, in nanoseconds, between two saves of the window geometry.
pub const SAVE_INTERVAL_NS: u64 = 300_000_000;

/// How the main window is built, before any recorded state is put back.
#[derive(Clone, Debug, PartialEq, Eq)]
pub struct MainWindowSpec {
    /// The label by which the window is found again.
    pub label: String,
    /// The window's title.
    pub title: String,
    /// The initial inner size, in logical pixels.
    pub width: i32,
    pub height: i32,
    /// The least inner size, in logical pixels.
    pub min_width: i32,
    pub min_height: i32,
    /// Whether the user can resize the window.
    pub resizable: bool,
}

/// The main window: labelled "main", titled "rsStoat", 1280 by 720 logical
/// pixels, at least 300 by 300, and resizable.
pub fn main_window_spec() -> (w: MainWindowSpec)
    ensures
        w.label@ == "main"@,
        w.title@ == "rsStoat"@,
        w.width == 1280,
        w.height == 720,
        w.min_width == 300,
        w.min_height == 300,
        w.resizable,
{
    MainWindowSpec {
        label: String::from_str("main"),
        title: String::from_str("rsStoat"),
        width: DEFAULT_WIDTH,
        height: DEFAULT_HEIGHT,
        min_width: 300,
        min_height: 300,
        resizable: true,
    }
}

/// A window size, width then height.
#[derive(Clone, Copy, Debug, PartialEq, Eq, Structural)]
pub struct Extent {
    pub width: i32,
    pub height: i32,
}

/// A window position.
#[derive(Clone, Copy, Debug, PartialEq, Eq, Structural)]
pub struct Position {
    pub x: i32,
    pub y: i32,
}

/// How the main window is to be put back at start-up.
#[derive(Clone, Copy, Debug, PartialEq, Eq, Structural)]
pub struct RestorePlan {
    /// The size to set, in logical pixels, if any.
    pub size: Option<Extent>,
    /// The position to set, in logical pixels, if any.
    pub position: Option<Position>,
    /// Whether to maximise the window.
    pub maximise: bool,
}

/// The size is restored only when both dimensions are positive, the position
/// only when one of its coordinates is positive, and the maximised flag as is.
pub open spec fn spec_restore_plan(ws: WindowState) -> RestorePlan {
    RestorePlan {
        size: if ws.width > 0 && ws.height > 0 {
            Some(Extent { width: ws.width, height: ws.height })
        } else {
            None
        },
        position: if ws.x > 0 || ws.y > 0 {
            Some(Position { x: ws.x, y: ws.y })
        } else {
            None
        },
        maximise: ws.is_maximised,
    }
}

/// How to put the main window back as `ws` recorded it.
pub fn restore_plan(ws: &WindowState) -> (p: RestorePlan)
    ensures
        p == spec_restore_plan(*ws),
{
    let size = if ws.width > 0 && ws.height > 0 {
        Some(Extent { width: ws.width, height: ws.height })
    } else {
        None
    };
    let position = if ws.x > 0 || ws.y > 0 {
        Some(Position { x: ws.x, y: ws.y })
    } else {
        None
    };
    RestorePlan { size, position, maximise: ws.is_maximised }
}

/// Limits how often the window geometry is saved: a save is allowed only when
/// at least `SAVE_INTERVAL_NS` have passed since the last allowed one.
#[derive(Clone, Copy, Debug, PartialEq, Eq, Structural)]
pub struct SaveThrottle {
    /// When the last save was allowed (or the throttle was made), in
    /// nanoseconds on the caller's monotonic clock.
    pub last_save_ns: u64,
}

/// Whether a save at `now_ns` is allowed after one at `last_ns`; a clock
/// reading earlier than `last_ns` counts as no time passed.
pub open spec fn save_due(last_ns: u64, now_ns: u64) -> bool {
    now_ns >= last_ns && now_ns - last_ns >= SAVE_INTERVAL_NS
}

impl SaveThrottle {
    /// A throttle whose interval starts at `now_ns`.
    pub fn new(now_ns: u64) -> (t: SaveThrottle)
        ensures
            t.last_save_ns == now_ns,
    {
        SaveThrottle { last_save_ns: now_ns }
    }

    /// Whether a save may happen at `now_ns`; when it may, the interval starts
    /// again from `now_ns`.
    pub fn should_save(&mut self, now_ns: u64) -> (b: bool)
        ensures
            b == save_due(old(self).last_save_ns, now_ns),
            final(self).last_save_ns == if b {
                now_ns
            } else {
                old(self).last_save_ns
            },
    {
        let elapsed: u64 = if now_ns >= self.last_save_ns {
            now_ns - self.last_save_ns
        } else {
            0
        };
        if elapsed >= SAVE_INTERVAL_NS {
            self.last_save_ns = now_ns;
            true
        } else {
            false
        }
    }
}

/// What happened to the main window.
#[derive(Clone, Copy, Debug, PartialEq, Eq, Structural)]
pub enum WindowEvent {
    /// The window moved to a new position, in logical pixels.
    Moved { x: i32, y: i32 },
    /// The window took a new size, in logical pixels; maximising and
    /// restoring resize it too, so the event says whether it is now maximised.
    Resized { width: u32, height: u32, maximised: bool },
    /// The user asked to close the window.
    CloseRequested,
    /// Any other window event.
    Other,
}

/// What to do in answer to a window event.
#[derive(Clone, Copy, Debug, PartialEq, Eq, Structural)]
pub enum WindowAction {
    /// Nothing.
    Nothing,
    /// Record this position in the configuration and save it.
    SavePosition { x: i32, y: i32 },
    /// Record this size and maximised state in the configuration and save it.
    SaveSize { width: u32, height: u32, maximised: bool },
    /// Record this maximised state alone in the configuration and save it.
    SaveMaximised { maximised: bool },
    /// Keep the window open and hide it instead.
    HideInsteadOfClosing,
    /// Let the window close.
    LetClose,
}

/// The answer to `event` at `now_ns`, given the throttle's last save, whether
/// minimising to the tray is on, and the maximised state the configuration
/// holds. A resize that the throttle holds back still saves the maximised
/// state when it differs from the saved one.
pub open spec fn spec_window_action(
    last_ns: u64,
    minimise_to_tray: bool,
    saved_maximised: bool,
    event: WindowEvent,
    now_ns: u64,
) -> WindowAction {
    match event {
        WindowEvent::Moved { x, y } => if save_due(last_ns, now_ns) {
            WindowAction::SavePosition { x, y }
        } else {
            WindowAction::Nothing
        },
        WindowEvent::Resized { width, height, maximised } => if save_due(last_ns, now_ns) {
            WindowAction::SaveSize { width, height, maximised }
        } else if maximised != saved_maximised {
            WindowAction::SaveMaximised { maximised }
        } else {
            WindowAction::Nothing
        },
        WindowEvent::CloseRequested => if minimise_to_tray {
            WindowAction::HideInsteadOfClosing
        } else {
            WindowAction::LetClose
        },
        WindowEvent::Other => WindowAction::Nothing,
    }
}

/// Only a move or a resize consults the throttle; it restarts when a save is
/// allowed.
pub open spec fn spec_throttle_after(last_ns: u64, event: WindowEvent, now_ns: u64) -> u64 {
    match event {
        WindowEvent::Moved { .. } | WindowEvent::Resized { .. } => if save_due(last_ns, now_ns) {
            now_ns
        } else {
            last_ns
        },
        _ => last_ns,
    }
}

/// Decides what a window event leads to. The geometry is saved at most once
/// per `SAVE_INTERVAL_NS`, but a change of the maximised state is saved on
/// every resize; a close request hides the window instead when
/// `minimise_to_tray` is set. `saved_maximised` is the maximised state that
/// the configuration holds.
pub fn on_window_event(
    throttle: &mut SaveThrottle,
    minimise_to_tray: bool,
    saved_maximised: bool,
    event: WindowEvent,
    now_ns: u64,
) -> (a: WindowAction)
    ensures
        a == spec_window_action(
            old(throttle).last_save_ns,
            minimise_to_tray,
            saved_maximised,
            event,
            now_ns,
        ),
        final(throttle).last_save_ns == spec_throttle_after(
            old(throttle).last_save_ns,
            event,
            now_ns,
        ),
{
    match event {
        WindowEvent::Moved { x, y } => {
            if throttle.should_save(now_ns) {
                WindowAction::SavePosition { x, y }
            } else {
                WindowAction::Nothing
            }
        },
        WindowEvent::Resized { width, height, maximised } => {
            if throttle.should_save(now_ns) {
                WindowAction::SaveSize { width, height, maximised }
            } else if maximised != saved_maximised {
                WindowAction::SaveMaximised { maximised }
            } else {
                WindowAction::Nothing
            }
        },
        WindowEvent::CloseRequested => {
            if minimise_to_tray {
                WindowAction::HideInsteadOfClosing
            } else {
                WindowAction::LetClose
            }
        },
        WindowEvent::Other => WindowAction::Nothing,
    }
}

/// The configuration once `action` is recorded in `c`: a save records its
/// values, any other action changes nothing.
pub open spec fn spec_config_after(c: AppConfig, action: WindowAction) -> AppConfig {
    match action {
        WindowAction::SavePosition { x, y } => with_position(c, x, y),
        WindowAction::SaveSize { width, height, maximised } => with_size(c, width, height, maximised),
        WindowAction::SaveMaximised { maximised } => with_maximised(c, maximised),
        _ => c,
    }
}

/// Records in `config` what `action` saves, and returns the configuration to
/// write to disk, or `None` when the action saves nothing.
pub fn record_window_action(config: &mut AppConfig, action: WindowAction) -> (snapshot: Option<
    AppConfig,
>)
    ensures
        *final(config) == spec_config_after(*old(config), action),
        snapshot == if action is SavePosition || action is SaveSize || action is SaveMaximised {
            Some(*final(config))
        } else {
            None
        },
{
    match action {
        WindowAction::SavePosition { x, y } => Some(config.record_position(x, y)),
        WindowAction::SaveSize { width, height, maximised } => Some(
            config.record_size(width, height, maximised),
        ),
        WindowAction::SaveMaximised { maximised } => Some(config.record_maximised(maximised)),
        _ => None,
    }
}

/// Whether to maximise or restore the window.
#[derive(Clone, Copy, Debug, PartialEq, Eq, Structural)]
pub enum MaximiseCommand {
    Maximise,
    Unmaximise,
}

/// Unmaximise a maximised window, maximise any other; `None` (the state could
/// not be read) counts as not maximised.
pub open spec fn spec_maximise_toggle(is_maximised: Option<bool>) -> MaximiseCommand {
    if is_maximised == Some(true) {
        MaximiseCommand::Unmaximise
    } else {
        MaximiseCommand::Maximise
    }
}

/// What the maximise button does.
pub fn maximise_toggle(is_maximised: Option<bool>) -> (c: MaximiseCommand)
    ensures
        c == spec_maximise_toggle(is_maximised),
{
    match is_maximised {
        Some(true) => MaximiseCommand::Unmaximise,
        _ => MaximiseCommand::Maximise,
    }
}

/// Whether the window is maximised once `c` was carried out.
pub open spec fn maximised_after(c: MaximiseCommand) -> bool {
    c == MaximiseCommand::Maximise
}

/// Whether to hide the window, or show and focus it.
#[derive(Clone, Copy, Debug, PartialEq, Eq, Structural)]
pub enum VisibilityCommand {
    Hide,
    ShowAndFocus,
}

/// Hide a visible window, show and focus any other; `None` (the state could
/// not be read) counts as hidden.
pub open spec fn spec_visibility_toggle(is_visible: Option<bool>) -> VisibilityCommand {
    if is_visible == Some(true) {
        VisibilityCommand::Hide
    } else {
        VisibilityCommand::ShowAndFocus
    }
}

/// Whether the window is visible once `c` was carried out.
pub open spec fn visible_after(c: VisibilityCommand) -> bool {
    c == VisibilityCommand::ShowAndFocus
}

/// Toggles the window's visibility.
pub fn visibility_toggle(is_visible: Option<bool>) -> (c: VisibilityCommand)
    ensures
        c == spec_visibility_toggle(is_visible),
{
    match is_visible {
        Some(true) => VisibilityCommand::Hide,
        _ => VisibilityCommand::ShowAndFocus,
    }
}

} // verus!
