use corvus::app_state::{AppState, InputMode};
use corvus::config::Config;
use corvus::plugin::{Plugin, PluginManifest};
use corvus::settings::ColorScheme;
use corvus::settings_screen::{SettingsKey, SettingsNavigationMode, SettingsState};

fn app() -> AppState {
    AppState::new(Config::new(), Vec::new(), "/".to_string())
}

#[test]
fn categories_are_listed() {
    let c = SettingsState::categories();
    assert_eq!(c.len(), 9);
    assert_eq!(c[0], "Интерфейс");
    assert_eq!(c[8], "Плагины");
}

#[test]
fn category_cursor_stays_in_range() {
    let mut s = SettingsState::new();
    s.move_up();
    assert_eq!(s.selected_category, 0);
    for _ in 0..20 {
        s.move_down();
    }
    assert_eq!(s.selected_category, 8);
    assert_eq!(s.categories_state, Some(8));
    s.selected_item = 4;
    s.move_up();
    assert_eq!(s.selected_category, 7);
    assert_eq!(s.selected_item, 0);
    assert_eq!(s.items_state, Some(0));
}

#[test]
fn item_cursor_stays_in_category() {
    let a = app();
    let mut s = SettingsState::new();
    for _ in 0..10 {
        s.move_item_down(&a);
    }
    assert_eq!(s.selected_item, 4);
    s.move_item_up(&a);
    assert_eq!(s.selected_item, 3);
    s.toggle_navigation_mode();
    assert_eq!(s.navigation_mode, SettingsNavigationMode::Items);
    s.toggle_navigation_mode();
    assert_eq!(s.navigation_mode, SettingsNavigationMode::Categories);
}

#[test]
fn choosing_items_acts() {
    let mut a = app();
    let mut s = SettingsState::new();
    s.selected_item = 3;
    assert!(s.select_item(&mut a));
    assert!(a.show_hidden_files);
    s.selected_category = 1;
    s.selected_item = 7;
    assert!(!s.select_item(&mut a));
    assert_eq!(a.get_current_color_scheme(), ColorScheme::Nord);
    a.plugins.push(Plugin {
        manifest: PluginManifest {
            name: "p".to_string(),
            author: "a".to_string(),
            version: "1".to_string(),
            description: "d".to_string(),
        },
        path: "/p".to_string(),
        enabled: false,
    });
    s.selected_category = 8;
    s.selected_item = 0;
    s.select_item(&mut a);
    assert!(a.plugins[0].enabled);
}

#[test]
fn keys_drive_the_screen() {
    let mut a = app();
    a.input_mode = InputMode::Settings;
    let mut s = SettingsState::new();
    assert!(!s.handle_key(SettingsKey::Down, &mut a));
    assert!(!s.handle_key(SettingsKey::Char('j'), &mut a));
    assert_eq!(s.selected_category, 2);
    assert!(!s.handle_key(SettingsKey::Char('k'), &mut a));
    assert_eq!(s.selected_category, 1);
    assert!(!s.handle_key(SettingsKey::Char('l'), &mut a));
    assert_eq!(s.navigation_mode, SettingsNavigationMode::Items);
    s.handle_key(SettingsKey::Down, &mut a);
    assert_eq!(s.selected_item, 1);
    s.handle_key(SettingsKey::Enter, &mut a);
    assert_eq!(a.get_current_color_scheme(), ColorScheme::SolarizedLight);
    s.handle_key(SettingsKey::Tab, &mut a);
    assert_eq!(s.navigation_mode, SettingsNavigationMode::Categories);
    s.selected_category = 7;
    s.handle_key(SettingsKey::Enter, &mut a);
    assert!(s.show_hotkeys_list);
    assert!(!s.handle_key(SettingsKey::Esc, &mut a));
    assert!(!s.show_hotkeys_list);
    assert_eq!(a.input_mode, InputMode::Settings);
    assert!(s.handle_key(SettingsKey::Esc, &mut a));
    assert_eq!(a.input_mode, InputMode::Normal);
    a.input_mode = InputMode::Settings;
    assert!(s.handle_key(SettingsKey::Char('q'), &mut a));
    assert_eq!(a.input_mode, InputMode::Normal);
}
