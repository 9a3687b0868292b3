use rsstoat::config::AppConfig;
use rsstoat::window::record_window_action;
use rsstoat::config::WindowState;
use rsstoat::window::{
    maximise_toggle, on_window_event, restore_plan, visibility_toggle, Extent, MaximiseCommand,
    Position, RestorePlan, SaveThrottle, VisibilityCommand, WindowAction, WindowEvent,
    SAVE_INTERVAL_NS,
};

#[test]
fn restore_default_state_sets_size_only() {
    let p = restore_plan(&WindowState::default());
    assert_eq!(
        p,
        RestorePlan { size: Some(Extent { width: 1280, height: 720 }), position: None, maximise: false }
    );
}

#[test]
fn restore_needs_both_dimensions_positive() {
    let ws = WindowState { x: 0, y: 0, width: 0, height: 720, is_maximised: false };
    assert_eq!(restore_plan(&ws).size, None);
    let ws = WindowState { x: 0, y: 0, width: 800, height: -1, is_maximised: false };
    assert_eq!(restore_plan(&ws).size, None);
}

#[test]
fn restore_position_when_one_coordinate_positive() {
    let ws = WindowState { x: 0, y: 5, width: 0, height: 0, is_maximised: true };
    let p = restore_plan(&ws);
    assert_eq!(p.position, Some(Position { x: 0, y: 5 }));
    assert!(p.maximise);
    let ws = WindowState { x: -100, y: 0, width: 0, height: 0, is_maximised: false };
    assert_eq!(restore_plan(&ws).position, None);
    let ws = WindowState { x: 7, y: -3, width: 0, height: 0, is_maximised: false };
    assert_eq!(restore_plan(&ws).position, Some(Position { x: 7, y: -3 }));
}

#[test]
fn throttle_refuses_saves_within_the_interval() {
    let mut t = SaveThrottle::new(1_000);
    assert!(!t.should_save(1_000 + SAVE_INTERVAL_NS - 1));
    assert_eq!(t.last_save_ns, 1_000);
    assert!(t.should_save(1_000 + SAVE_INTERVAL_NS));
    assert_eq!(t.last_save_ns, 1_000 + SAVE_INTERVAL_NS);
}

#[test]
fn throttle_treats_an_earlier_clock_as_no_time() {
    let mut t = SaveThrottle::new(5_000_000_000);
    assert!(!t.should_save(0));
    assert_eq!(t.last_save_ns, 5_000_000_000);
}

#[test]
fn moves_and_resizes_are_saved_when_due() {
    let mut t = SaveThrottle::new(0);
    assert_eq!(
        on_window_event(&mut t, true, false, WindowEvent::Moved { x: 3, y: 4 }, 300_000_000),
        WindowAction::SavePosition { x: 3, y: 4 }
    );
    assert_eq!(
        on_window_event(&mut t, true, false, WindowEvent::Resized { width: 9, height: 8, maximised: false }, 400_000_000),
        WindowAction::Nothing
    );
    assert_eq!(
        on_window_event(&mut t, true, false, WindowEvent::Resized { width: 9, height: 8, maximised: false }, 600_000_000),
        WindowAction::SaveSize { width: 9, height: 8, maximised: false }
    );
    assert_eq!(t.last_save_ns, 600_000_000);
}

#[test]
fn close_request_hides_when_minimising_to_tray() {
    let mut t = SaveThrottle::new(0);
    assert_eq!(
        on_window_event(&mut t, true, false, WindowEvent::CloseRequested, 900_000_000),
        WindowAction::HideInsteadOfClosing
    );
    assert_eq!(
        on_window_event(&mut t, false, false, WindowEvent::CloseRequested, 900_000_000),
        WindowAction::LetClose
    );
    assert_eq!(t.last_save_ns, 0);
}

#[test]
fn other_events_do_nothing() {
    let mut t = SaveThrottle::new(0);
    assert_eq!(on_window_event(&mut t, true, false, WindowEvent::Other, 900_000_000), WindowAction::Nothing);
    assert_eq!(t.last_save_ns, 0);
}

#[test]
fn maximise_button_toggles() {
    assert_eq!(maximise_toggle(Some(true)), MaximiseCommand::Unmaximise);
    assert_eq!(maximise_toggle(Some(false)), MaximiseCommand::Maximise);
    assert_eq!(maximise_toggle(None), MaximiseCommand::Maximise);
}

#[test]
fn visibility_toggles() {
    assert_eq!(visibility_toggle(Some(true)), VisibilityCommand::Hide);
    assert_eq!(visibility_toggle(Some(false)), VisibilityCommand::ShowAndFocus);
    assert_eq!(visibility_toggle(None), VisibilityCommand::ShowAndFocus);
}

#[test]
fn held_back_resize_still_saves_a_maximised_change() {
    let mut t = SaveThrottle::new(0);
    assert_eq!(
        on_window_event(&mut t, true, false, WindowEvent::Moved { x: 5, y: 5 }, 300_000_000),
        WindowAction::SavePosition { x: 5, y: 5 }
    );
    assert_eq!(
        on_window_event(
            &mut t,
            true,
            false,
            WindowEvent::Resized { width: 1920, height: 1040, maximised: true },
            300_000_001
        ),
        rsstoat::window::WindowAction::SaveMaximised { maximised: true }
    );
    assert_eq!(t.last_save_ns, 300_000_000);
    assert_eq!(
        on_window_event(
            &mut t,
            true,
            true,
            WindowEvent::Resized { width: 1920, height: 1040, maximised: true },
            300_000_002
        ),
        WindowAction::Nothing
    );
}

#[test]
fn record_window_action_records_each_save() {
    let mut c = AppConfig::default();
    assert_eq!(record_window_action(&mut c, WindowAction::Nothing), None);
    assert_eq!(record_window_action(&mut c, WindowAction::LetClose), None);
    assert_eq!(c, AppConfig::default());
    let s = record_window_action(&mut c, WindowAction::SavePosition { x: 3, y: 4 });
    assert_eq!(s, Some(c));
    assert_eq!((c.window_state.x, c.window_state.y), (3, 4));
    let s = record_window_action(&mut c, WindowAction::SaveMaximised { maximised: true });
    assert_eq!(s, Some(c));
    assert!(c.window_state.is_maximised);
    assert_eq!(c.window_state.width, 1280);
    let s = record_window_action(&mut c, WindowAction::SaveSize { width: 800, height: 600, maximised: false });
    assert_eq!(s, Some(c));
    assert_eq!((c.window_state.width, c.window_state.height, c.window_state.is_maximised), (800, 600, false));
}

#[test]
fn main_window_spec_values() {
    let w = rsstoat::window::main_window_spec();
    assert_eq!(w.label, "main");
    assert_eq!(w.title, "rsStoat");
    assert_eq!((w.width, w.height), (1280, 720));
    assert_eq!((w.min_width, w.min_height), (300, 300));
    assert!(w.resizable);
}
