use rsstoat::commands::{
    after_config_save, apply_new_config, autostart_app_name, autostart_change, get_versions, update_reply,
    AutostartChange, UpdateCheck,
};
use rsstoat::config::AppConfig;
use rsstoat::presence::PresenceChange;
use rsstoat::tray::{icon_click, menu_command, tray_menu, MainWindow, MenuCommand, MenuEntry, MenuSlot};
use rsstoat::window::VisibilityCommand;

fn entry(id: &str, label: &str, enabled: bool) -> MenuSlot {
    MenuSlot::Entry(MenuEntry { id: id.to_string(), label: label.to_string(), enabled })
}

#[test]
fn tray_menu_layout() {
    assert_eq!(
        tray_menu(),
        vec![
            entry("title", "rsStoat for Desktop", false),
            MenuSlot::Separator,
            entry("show_hide", "Hide App", true),
            MenuSlot::Separator,
            entry("quit", "Quit App", true),
        ]
    );
}

#[test]
fn show_hide_toggles_and_relabels() {
    let visible = MainWindow::Present { is_visible: Some(true) };
    let hidden = MainWindow::Present { is_visible: Some(false) };
    let unknown = MainWindow::Present { is_visible: None };
    assert_eq!(menu_command("show_hide", visible), MenuCommand::Hide { label: "Show App".to_string() });
    assert_eq!(menu_command("show_hide", hidden), MenuCommand::Show { label: "Hide App".to_string() });
    assert_eq!(menu_command("show_hide", unknown), MenuCommand::Show { label: "Hide App".to_string() });
    assert_eq!(menu_command("show_hide", MainWindow::Absent), MenuCommand::Nothing);
}

#[test]
fn quit_and_other_entries() {
    assert_eq!(menu_command("quit", MainWindow::Absent), MenuCommand::Exit { code: 0 });
    assert_eq!(menu_command("title", MainWindow::Absent), MenuCommand::Nothing);
    assert_eq!(menu_command("", MainWindow::Present { is_visible: Some(true) }), MenuCommand::Nothing);
}

#[test]
fn icon_click_toggles_on_left_button_only() {
    let visible = MainWindow::Present { is_visible: Some(true) };
    assert_eq!(icon_click(true, visible), Some(VisibilityCommand::Hide));
    assert_eq!(icon_click(true, MainWindow::Present { is_visible: Some(false) }), Some(VisibilityCommand::ShowAndFocus));
    assert_eq!(icon_click(false, visible), None);
    assert_eq!(icon_click(true, MainWindow::Absent), None);
}

#[test]
fn versions() {
    let v = get_versions();
    assert_eq!(v.tauri, "2");
    assert_eq!(v.desktop, "1.4.0");
}

#[test]
fn applying_a_config_reports_the_presence_change() {
    let mut current = AppConfig::default();
    let new_config = AppConfig { discord_rpc: false, spellchecker: false, ..AppConfig::default() };
    let u = apply_new_config(&mut current, new_config);
    assert_eq!(current, new_config);
    assert_eq!(u.snapshot, new_config);
    assert_eq!(u.presence, PresenceChange::Stop);
    let u = apply_new_config(&mut current, AppConfig::default());
    assert_eq!(u.presence, PresenceChange::Start);
    let u = apply_new_config(&mut current, AppConfig::default());
    assert_eq!(u.presence, PresenceChange::Unchanged);
}

#[test]
fn autostart_decisions() {
    assert_eq!(autostart_app_name(), "rsStoat");
    assert_eq!(autostart_change(true), AutostartChange::Enable);
    assert_eq!(autostart_change(false), AutostartChange::Disable);
}

#[test]
fn update_replies() {
    assert_eq!(
        update_reply(UpdateCheck::Available { current_version: "1.4.0".to_string(), version: "1.5.0".to_string() }),
        Ok("Update available: 1.4.0 -> 1.5.0".to_string())
    );
    assert_eq!(update_reply(UpdateCheck::UpToDate), Ok("No update available".to_string()));
    assert_eq!(
        update_reply(UpdateCheck::Failed { reason: "offline".to_string() }),
        Err("Update check failed: offline".to_string())
    );
    assert_eq!(
        update_reply(UpdateCheck::UpdaterUnavailable { reason: "no key".to_string() }),
        Err("Updater not available: no key".to_string())
    );
}

#[test]
fn failed_save_is_reported_and_leaves_presence_alone() {
    assert_eq!(
        after_config_save(Err("disk full".to_string()), PresenceChange::Start),
        (Err("disk full".to_string()), PresenceChange::Unchanged)
    );
    assert_eq!(after_config_save(Ok(()), PresenceChange::Stop), (Ok(()), PresenceChange::Stop));
    assert_eq!(after_config_save(Ok(()), PresenceChange::Unchanged), (Ok(()), PresenceChange::Unchanged));
}

#[test]
fn failed_save_keeps_the_new_config_in_memory() {
    let mut current = AppConfig::default();
    let new_config = AppConfig { discord_rpc: false, ..AppConfig::default() };
    let u = apply_new_config(&mut current, new_config);
    let (reply, presence) = after_config_save(Err("denied".to_string()), u.presence);
    assert_eq!(reply, Err("denied".to_string()));
    assert_eq!(presence, PresenceChange::Unchanged);
    assert_eq!(current, new_config);
}
