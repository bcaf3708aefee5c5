use hotkey_toggle::dispatch::{
    dispatch, tray_menu, Effect, MenuItem, Trigger, OPEN_SETTINGS_EVENT, QUIT_ITEM, QUIT_STATUS,
    SETTINGS_ITEM, TOGGLE_ITEM,
};

fn tray(id: &str) -> Trigger {
    Trigger::TrayItem(id.to_string())
}

#[test]
fn hotkey_press_toggles_window() {
    assert_eq!(dispatch(&Trigger::HotkeyPressed), Effect::ToggleWindow);
}

#[test]
fn hotkey_release_is_ignored() {
    assert_eq!(dispatch(&Trigger::HotkeyReleased), Effect::Ignore);
}

#[test]
fn one_keystroke_toggles_once() {
    let keystroke = [Trigger::HotkeyPressed, Trigger::HotkeyReleased];
    let toggles = keystroke.iter().filter(|t| dispatch(t) == Effect::ToggleWindow).count();
    assert_eq!(toggles, 1);
}

#[test]
fn tray_toggle_toggles_window() {
    assert_eq!(dispatch(&tray("toggle")), Effect::ToggleWindow);
}

#[test]
fn tray_settings_opens_settings() {
    assert_eq!(dispatch(&tray("settings")), Effect::OpenSettings);
}

#[test]
fn tray_quit_quits() {
    assert_eq!(dispatch(&tray("quit")), Effect::Quit);
}

#[test]
fn unknown_tray_item_is_ignored() {
    assert_eq!(dispatch(&tray("")), Effect::Ignore);
    assert_eq!(dispatch(&tray("about")), Effect::Ignore);
    assert_eq!(dispatch(&tray("Toggle")), Effect::Ignore);
    assert_eq!(dispatch(&tray("quit ")), Effect::Ignore);
    assert_eq!(dispatch(&tray("Toggle Window")), Effect::Ignore);
}

#[test]
fn dispatch_keeps_no_state() {
    let trigger = tray("toggle");
    assert_eq!(dispatch(&trigger), dispatch(&trigger));
    assert_eq!(dispatch(&tray("quit")), Effect::Quit);
    assert_eq!(dispatch(&trigger), Effect::ToggleWindow);
}

#[test]
fn tray_menu_has_three_items_in_order() {
    assert_eq!(
        tray_menu(),
        vec![
            MenuItem { id: "toggle".to_string(), label: "Toggle Window".to_string() },
            MenuItem { id: "settings".to_string(), label: "Settings".to_string() },
            MenuItem { id: "quit".to_string(), label: "Quit".to_string() },
        ]
    );
}

#[test]
fn every_menu_item_is_routed() {
    let effects: Vec<Effect> =
        tray_menu().into_iter().map(|item| dispatch(&Trigger::TrayItem(item.id))).collect();
    assert_eq!(effects, vec![Effect::ToggleWindow, Effect::OpenSettings, Effect::Quit]);
}

#[test]
fn dispatch_constants() {
    assert_eq!(TOGGLE_ITEM, "toggle");
    assert_eq!(SETTINGS_ITEM, "settings");
    assert_eq!(QUIT_ITEM, "quit");
    assert_eq!(OPEN_SETTINGS_EVENT, "open-settings");
    assert_eq!(QUIT_STATUS, 0);
}
