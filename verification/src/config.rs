//! The persisted application configuration and its defaults.
use vstd::prelude::*;

verus! {

/// Where and how large the main window was when it was last moved or resized,
/// in logical pixels, and whether it was maximised.
#[derive(Clone, Copy, Debug, PartialEq, Eq, Structural)]
pub struct WindowState {
    pub x: i32,
    pub y: i32,
    pub width: i32,
    pub height: i32,
    pub is_maximised: bool,
}

/// The settings that the client keeps between runs.
#[derive(Clone, Copy, Debug, PartialEq, Eq, Structural)]
pub struct AppConfig {
    pub first_launch: bool,
    pub custom_frame: bool,
    pub minimise_to_tray: bool,
    pub start_minimised_to_tray: bool,
    pub spellchecker: bool,
    pub hardware_acceleration: bool,
    pub discord_rpc: bool,
    pub window_state: WindowState,
}

/// Width of the main window before any size was recorded.
pub const DEFAULT_WIDTH: i32 = 1280;

/// Height of the main window before any size was recorded.
pub const DEFAULT_HEIGHT: i32 = 720;

/// The window state used when none was recorded: 1280 by 720 at the origin,
/// not maximised.
pub open spec fn default_window_state() -> WindowState {
    WindowState { x: 0, y: 0, width: 1280, height: 720, is_maximised: false }
}

/// The configuration used on a first run: every flag on except starting
/// minimised to the tray, and the default window state.
pub open spec fn default_config() -> AppConfig {
    AppConfig {
        first_launch: true,
        custom_frame: true,
        minimise_to_tray: true,
        start_minimised_to_tray: false,
        spellchecker: true,
        hardware_acceleration: true,
        discord_rpc: true,
        window_state: default_window_state(),
    }
}

/// The value that configuration flags take when the file does not name them
/// and they are on unless the file says otherwise.
pub fn default_true() -> (b: bool)
    ensures
        b,
{
    true
}

impl Default for WindowState {
    fn default() -> (s: Self)
        ensures
            s == default_window_state(),
    {
        WindowState { x: 0, y: 0, width: DEFAULT_WIDTH, height: DEFAULT_HEIGHT, is_maximised: false }
    }
}

impl Default for AppConfig {
    fn default() -> (c: Self)
        ensures
            c == default_config(),
    {
        AppConfig {
            first_launch: default_true(),
            custom_frame: default_true(),
            minimise_to_tray: default_true(),
            start_minimised_to_tray: false,
            spellchecker: default_true(),
            hardware_acceleration: default_true(),
            discord_rpc: default_true(),
            window_state: WindowState::default(),
        }
    }
}

/// `c` with the window position replaced by (`x`, `y`).
pub open spec fn with_position(c: AppConfig, x: i32, y: i32) -> AppConfig {
    AppConfig { window_state: WindowState { x, y, ..c.window_state }, ..c }
}

/// `c` with the window size replaced by `width` by `height`, each
/// reinterpreted as an `i32` (values above `i32::MAX` wrap to negatives), and
/// the maximised flag replaced by `maximised`.
pub open spec fn with_size(c: AppConfig, width: u32, height: u32, maximised: bool) -> AppConfig {
    AppConfig {
        window_state: WindowState {
            width: width as i32,
            height: height as i32,
            is_maximised: maximised,
            ..c.window_state
        },
        ..c
    }
}

/// `c` with the maximised flag replaced by `maximised`.
pub open spec fn with_maximised(c: AppConfig, maximised: bool) -> AppConfig {
    AppConfig { window_state: WindowState { is_maximised: maximised, ..c.window_state }, ..c }
}

impl AppConfig {
    /// The configuration in effect after a load: the parsed file where it
    /// could be read and parsed, the defaults otherwise.
    pub fn from_loaded(parsed: Option<AppConfig>) -> (c: AppConfig)
        ensures
            c == (match parsed {
                Some(p) => p,
                None => default_config(),
            }),
    {
        match parsed {
            Some(p) => p,
            None => AppConfig::default(),
        }
    }

    /// Records a new window position, in logical pixels, and returns the
    /// configuration to save.
    pub fn record_position(&mut self, x: i32, y: i32) -> (snapshot: AppConfig)
        ensures
            *final(self) == with_position(*old(self), x, y),
            snapshot == *final(self),
    {
        self.window_state.x = x;
        self.window_state.y = y;
        *self
    }

    /// Records a new window size, in logical pixels, and whether the window
    /// is maximised, and returns the configuration to save. Each dimension is
    /// reinterpreted as an `i32`.
    pub fn record_size(&mut self, width: u32, height: u32, maximised: bool) -> (snapshot:
        AppConfig)
        ensures
            *final(self) == with_size(*old(self), width, height, maximised),
            snapshot == *final(self),
    {
        self.window_state.width = width as i32;
        self.window_state.height = height as i32;
        self.window_state.is_maximised = maximised;
        *self
    }

    /// Records whether the window is maximised and returns the configuration
    /// to save.
    pub fn record_maximised(&mut self, maximised: bool) -> (snapshot: AppConfig)
        ensures
            *final(self) == with_maximised(*old(self), maximised),
            snapshot == *final(self),
    {
        self.window_state.is_maximised = maximised;
        *self
    }

    /// Replaces the whole configuration with `new_config` and returns the
    /// configuration to save.
    pub fn replace(&mut self, new_config: AppConfig) -> (snapshot: AppConfig)
        ensures
            *final(self) == new_config,
            snapshot == new_config,
    {
        *self = new_config;
        *self
    }
}

} // verus!
