use corvus::app_state::{
    directory_preview, large_file_preview, open_error_preview, read_file_preview, AppState, DirEntry,
    PreviewContent, TabState,
};
use corvus::config::Config;
use corvus::session::{SessionState, TabPath};

fn entry(name: &str, is_dir: bool) -> DirEntry {
    DirEntry { name: name.to_string(), path: format!("/d/{}", name), is_dir }
}

#[test]
fn small_files_are_read_large_ones_are_not() {
    assert!(large_file_preview(1024 * 1024).is_none());
    match large_file_preview(3 * 1024 * 1024) {
        Some(PreviewContent::TooLarge(t)) => assert_eq!(t, "3 MiB"),
        other => panic!("unexpected {:?}", other),
    }
}

#[test]
fn file_contents_become_text_or_binary() {
    assert!(matches!(read_file_preview(Ok(b"hi\n".to_vec())), PreviewContent::File(t) if t == "hi\n"));
    assert!(matches!(read_file_preview(Ok(vec![0xff, 0xfe])), PreviewContent::Binary));
    assert!(matches!(read_file_preview(Err("denied".to_string())), PreviewContent::Error(e) if e == "Error reading file:\ndenied"));
    assert!(matches!(open_error_preview("gone".to_string()), PreviewContent::Error(e) if e == "Error opening file:\ngone"));
}

#[test]
fn directory_preview_lists_in_order() {
    match directory_preview(Ok(vec![entry("b.txt", false), entry(".git", true), entry("src", true)])) {
        PreviewContent::Directory(v) => {
            let names: Vec<(&str, bool)> = v.iter().map(|e| (e.name.as_str(), e.is_dir)).collect();
            assert_eq!(names, vec![(".git", true), ("src", true), ("b.txt", false)]);
        }
        other => panic!("unexpected {:?}", other),
    }
    assert!(matches!(directory_preview(Err("no access".to_string())), PreviewContent::Error(e) if e == "Error reading directory:\nno access"));
}

#[test]
fn preview_follows_the_full_listing() {
    let mut t = TabState::new(0, "/d".to_string());
    assert!(t.preview_target().is_none());
    t.update_entries(vec![entry("a", false), entry("b", false)], false);
    t.cursor = 1;
    assert_eq!(t.preview_target().map(|e| e.name), Some("b".to_string()));
    t.preview_scroll = (3, 4);
    t.set_preview(Some(PreviewContent::Binary));
    assert_eq!(t.preview_scroll, (0, 0));
    assert!(matches!(t.preview_content, Some(PreviewContent::Binary)));
}

#[test]
fn session_round_trip() {
    let mut s = AppState::new(Config::new(), Vec::new(), "/home".to_string());
    s.new_tab("/tmp".to_string());
    s.bookmarks.push(("etc".to_string(), "/etc".to_string()));
    s.show_hidden_files = true;
    let kept = SessionState::from_app_state(&s);
    assert_eq!(kept.tabs.len(), 2);
    assert_eq!(kept.tabs[1].current_dir, "/tmp");
    assert_eq!(kept.active_tab_index, 1);
    let mut fresh = AppState::new(Config::new(), Vec::new(), "/".to_string());
    kept.apply_to_app_state(&mut fresh);
    assert_eq!(fresh.tabs.len(), 2);
    assert_eq!(fresh.tabs[0].current_dir, "/home");
    assert_eq!(fresh.active_tab_index, 1);
    assert!(fresh.show_tabs);
    assert!(fresh.show_hidden_files);
    assert_eq!(fresh.bookmarks, vec![("etc".to_string(), "/etc".to_string())]);
}

#[test]
fn session_index_is_clamped() {
    let kept = SessionState {
        tabs: vec![TabPath { id: 0, current_dir: "/a".to_string() }],
        active_tab_index: 7,
        show_tabs: false,
        bookmarks: Vec::new(),
        show_hidden_files: false,
    };
    let mut s = AppState::new(Config::new(), Vec::new(), "/".to_string());
    kept.apply_to_app_state(&mut s);
    assert_eq!(s.active_tab_index, 0);
    assert_eq!(s.tabs[0].current_dir, "/a");
}
