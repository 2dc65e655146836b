use corvus::icons::{get_color_for_file, get_icon_for_file, IconColor};
use corvus::settings::{ColorScheme, Settings, SortField};

#[test]
fn scheme_names_round_trip() {
    for c in ColorScheme::all() {
        assert_eq!(ColorScheme::from_name(c.name()), Some(c));
    }
    assert_eq!(ColorScheme::all().len(), 12);
    assert_eq!(ColorScheme::from_name("dracula"), None);
    assert_eq!(ColorScheme::Nord.name(), "Nord");
}

#[test]
fn scheme_colours() {
    assert_eq!(ColorScheme::Dracula.background_rgb(), (40, 42, 54));
    assert_eq!(ColorScheme::GithubLight.highlight_bg_rgb(), (225, 228, 232));
    assert_eq!(ColorScheme::Cyberpunk.text_color_rgb(), (255, 0, 255));
    assert_eq!(ColorScheme::Nord.selection_bg_rgb(), (59, 66, 82));
}

#[test]
fn default_settings() {
    let s = Settings::new();
    assert_eq!(s.display.color_scheme, ColorScheme::Dracula);
    assert!(!s.display.show_hidden_files);
    assert_eq!(s.sort.field, SortField::Name);
    assert_eq!(s.preview.max_preview_size, 1024 * 1024);
    assert!(s.bookmarks.is_empty());
    let mut hidden = true;
    s.apply_to_app_state(&mut hidden);
    assert!(!hidden);
}

#[test]
fn icons_by_extension() {
    assert_eq!(get_icon_for_file("main.rs", false), "\u{e7a8}");
    assert!(matches!(get_color_for_file("main.rs", false), IconColor::Rgb(220, 100, 80)));
    assert!(matches!(get_color_for_file("x", true), IconColor::Blue));
    assert!(matches!(get_color_for_file("song.tar.gz", false), IconColor::Rgb(172, 63, 49)));
    assert!(matches!(get_color_for_file("clip.MP4", false), IconColor::Gray));
    assert!(matches!(get_color_for_file("README", false), IconColor::Gray));
    assert!(matches!(get_color_for_file("trailing.", false), IconColor::Gray));
    assert!(matches!(get_color_for_file(".gitignore", false), IconColor::Rgb(240, 80, 50)));
    assert!(matches!(get_color_for_file("md", false), IconColor::White));
    assert_eq!(get_icon_for_file("README", false), get_icon_for_file("other.xyz", false));
}
