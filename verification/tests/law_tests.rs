use rsstoat::window::record_window_action;
use rsstoat::config::{AppConfig, WindowState};
use rsstoat::launch::{server_url, startup_plan, Platform};
use rsstoat::presence::{presence_change, worker_step, PresenceChange, WorkerAction, WorkerPhase};
use rsstoat::window::{
    maximise_toggle, on_window_event, restore_plan, visibility_toggle, Extent, MaximiseCommand,
    Position, SaveThrottle, VisibilityCommand, WindowAction, WindowEvent,
};

#[test]
fn position_round_trip() {
    let mut c = AppConfig::default();
    c.record_position(120, 0);
    let p = restore_plan(&c.window_state);
    assert_eq!(p.position, Some(Position { x: 120, y: 0 }));
    assert_eq!(p.size, Some(Extent { width: 1280, height: 720 }));
    c.record_position(-10, -10);
    assert_eq!(restore_plan(&c.window_state).position, None);
}

#[test]
fn size_round_trip() {
    let mut c = AppConfig::default();
    c.record_size(1024, 768, false);
    assert_eq!(restore_plan(&c.window_state).size, Some(Extent { width: 1024, height: 768 }));
    c.record_size(3_000_000_000, 768, false);
    assert_eq!(restore_plan(&c.window_state).size, None);
}

#[test]
fn saves_are_spaced() {
    let mut t = SaveThrottle::new(0);
    assert_eq!(
        on_window_event(&mut t, false, false, WindowEvent::Moved { x: 1, y: 1 }, 1_000_000_000),
        WindowAction::SavePosition { x: 1, y: 1 }
    );
    assert_eq!(
        on_window_event(&mut t, false, false, WindowEvent::Resized { width: 5, height: 5, maximised: false }, 1_299_999_999),
        WindowAction::Nothing
    );
    assert_eq!(
        on_window_event(&mut t, false, false, WindowEvent::Moved { x: 2, y: 2 }, 1_300_000_000),
        WindowAction::SavePosition { x: 2, y: 2 }
    );
}

#[test]
fn presence_follows_setting_twice() {
    let mut running = false;
    for (old, new) in [(false, true), (true, false)] {
        match presence_change(old, new) {
            PresenceChange::Start => running = true,
            PresenceChange::Stop => running = false,
            PresenceChange::Unchanged => {}
        }
        assert_eq!(running, new);
    }
}

#[test]
fn stopped_worker_finishes_within_two_steps() {
    let (p, a) = worker_step(WorkerPhase::Waiting, false, true);
    assert_eq!(a, WorkerAction::SendActivity);
    assert_eq!(worker_step(p, false, true), (WorkerPhase::Done, WorkerAction::Finish));
}

#[test]
fn first_launch_happens_once_on_windows() {
    let mut c = AppConfig::default();
    startup_plan(&mut c, Platform::Windows, false);
    let snapshot = c;
    let plan = startup_plan(&mut c, Platform::Windows, false);
    assert_eq!(c, snapshot);
    assert!(!plan.enable_autostart);
}

#[test]
fn toggles_are_involutions() {
    let after = |c: VisibilityCommand| c == VisibilityCommand::ShowAndFocus;
    assert!(!after(visibility_toggle(Some(true))));
    assert!(after(visibility_toggle(Some(after(visibility_toggle(Some(true)))))));
    let max_after = |c: MaximiseCommand| c == MaximiseCommand::Maximise;
    assert!(max_after(maximise_toggle(Some(max_after(maximise_toggle(Some(false)))))) == false);
}

#[test]
fn default_server_when_no_flag() {
    let a: Vec<String> = vec!["rsstoat".to_string(), "--hidden".to_string()];
    assert_eq!(server_url(&a), "https://stoat.chat/app");
    let _ = WindowState::default();
}

#[test]
fn maximised_state_round_trip() {
    let mut c = AppConfig::default();
    let mut t = SaveThrottle::new(0);
    match on_window_event(&mut t, true, false, WindowEvent::Resized { width: 1920, height: 1040, maximised: true }, 500_000_000) {
        WindowAction::SaveSize { width, height, maximised } => {
            c.record_size(width, height, maximised);
        }
        other => panic!("unexpected {:?}", other),
    }
    let p = restore_plan(&c.window_state);
    assert!(p.maximise);
    assert_eq!(p.size, Some(Extent { width: 1920, height: 1040 }));
}

#[test]
fn maximise_right_after_a_move_is_recorded() {
    let mut c = AppConfig::default();
    let mut t = SaveThrottle::new(0);
    let a = on_window_event(&mut t, c.minimise_to_tray, c.window_state.is_maximised, WindowEvent::Moved { x: 10, y: 10 }, 300_000_000);
    record_window_action(&mut c, a);
    let a = on_window_event(
        &mut t,
        c.minimise_to_tray,
        c.window_state.is_maximised,
        WindowEvent::Resized { width: 1920, height: 1040, maximised: true },
        300_000_001,
    );
    record_window_action(&mut c, a);
    assert!(c.window_state.is_maximised);
    assert!(restore_plan(&c.window_state).maximise);
}
