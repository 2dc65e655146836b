use corvus::app_state::{DirEntry, TabState};
use corvus::clipboard::{Clipboard, ClipboardMode};
use corvus::search::{SearchEngine, SearchMode};

fn entry(name: &str, is_dir: bool) -> DirEntry {
    DirEntry { name: name.to_string(), path: format!("/home/u/{}", name), is_dir }
}

fn tab() -> TabState {
    let mut t = TabState::new(0, "/home/u".to_string());
    t.entries = vec![entry("Docs", true), entry("notes.TXT", false), entry("photo.png", false)];
    t.update_filtered_entries("");
    t
}

#[test]
fn search_ignores_case() {
    let es = vec![entry("Docs", true), entry("notes.TXT", false), entry("photo.png", false)];
    let r = SearchEngine::search_entries(&es, "txt", &SearchMode::Name);
    assert_eq!(r.len(), 1);
    assert_eq!(r[0].name, "notes.TXT");
    let r = SearchEngine::search_entries(&es, "O", &SearchMode::Name);
    let names: Vec<&str> = r.iter().map(|e| e.name.as_str()).collect();
    assert_eq!(names, vec!["Docs", "notes.TXT", "photo.png"]);
}

#[test]
fn content_search_skips_directories() {
    let es = vec![entry("Docs", true), entry("docs.md", false)];
    let r = SearchEngine::search_entries(&es, "doc", &SearchMode::Content);
    assert_eq!(r.len(), 1);
    assert_eq!(r[0].name, "docs.md");
    let r = SearchEngine::search_entries(&es, "doc", &SearchMode::Metadata);
    assert_eq!(r.len(), 2);
}

#[test]
fn empty_query_keeps_everything() {
    let es = vec![entry("a", false), entry("B", true)];
    assert_eq!(SearchEngine::search_entries(&es, "", &SearchMode::Name).len(), 2);
    assert!(SearchEngine::search_entries(&Vec::new(), "x", &SearchMode::Name).is_empty());
}

#[test]
fn folded_match_on_given_text() {
    assert!(SearchEngine::entry_matches(false, "report.pdf", "epor", SearchMode::Name));
    assert!(!SearchEngine::entry_matches(true, "report", "epor", SearchMode::Content));
    assert!(!SearchEngine::entry_matches(false, "report", "Epor", SearchMode::Name));
}

#[test]
fn filter_narrows_the_list() {
    let mut t = tab();
    assert_eq!(t.filtered_entries.len(), 3);
    t.update_filtered_entries("PHOTO");
    assert_eq!(t.filtered_entries.len(), 1);
    assert_eq!(t.get_selected_entry_path(), Some("/home/u/photo.png".to_string()));
    t.update_filtered_entries("zzz");
    assert!(t.filtered_entries.is_empty());
    assert_eq!(t.get_selected_entry_path(), None);
}

#[test]
fn cursor_stays_in_the_list() {
    let mut t = tab();
    t.move_cursor_up(false);
    assert_eq!(t.cursor, 0);
    t.move_cursor_down(false);
    t.move_cursor_down(false);
    t.move_cursor_down(false);
    assert_eq!(t.cursor, 2);
    t.move_cursor_up(false);
    assert_eq!(t.cursor, 1);
    let mut empty = TabState::new(1, "/".to_string());
    empty.move_cursor_down(false);
    assert_eq!(empty.cursor, 0);
}

#[test]
fn entering_and_leaving_directories() {
    let mut t = tab();
    t.toggle_selection();
    assert!(t.enter_directory());
    assert_eq!(t.current_dir, "/home/u/Docs");
    assert!(t.selected_entries.is_empty());
    assert!(t.leave_directory());
    assert_eq!(t.current_dir, "/home/u");
    let mut root = TabState::new(2, "/".to_string());
    assert!(!root.leave_directory());
    assert_eq!(root.current_dir, "/");
    let mut on_file = tab();
    on_file.cursor = 1;
    assert!(!on_file.enter_directory());
    assert_eq!(on_file.current_dir, "/home/u");
}

#[test]
fn marking_toggles() {
    let mut t = tab();
    t.toggle_selection();
    assert_eq!(t.selected_entries, vec!["/home/u/Docs".to_string()]);
    t.select_current();
    assert!(t.selected_entries.is_empty());
    t.set_current_dir("/tmp".to_string());
    assert_eq!(t.current_dir, "/tmp");
}

#[test]
fn clipboard_modes() {
    let mut c = Clipboard::new();
    assert!(c.paths.is_empty());
    assert_eq!(c.mode, None);
    c.yank(vec!["/a".to_string()]);
    assert_eq!(c.mode, Some(ClipboardMode::Copy));
    c.cut(vec!["/b".to_string(), "/c".to_string()]);
    assert_eq!(c.mode, Some(ClipboardMode::Move));
    assert_eq!(c.paths.len(), 2);
    c.clear();
    assert!(c.paths.is_empty());
    assert_eq!(c.mode, None);
}

#[test]
fn listing_hides_dot_files_and_puts_directories_first() {
    let mut t = TabState::new(0, "/home/u".to_string());
    let listing = vec![entry("zeta.txt", false), entry(".cache", true), entry("beta", true), entry("Alpha.txt", false), entry("alpha", true)];
    t.cursor = 2;
    t.update_entries(listing, false);
    let names: Vec<&str> = t.entries.iter().map(|e| e.name.as_str()).collect();
    assert_eq!(names, vec!["alpha", "beta", "Alpha.txt", "zeta.txt"]);
    assert_eq!(t.filtered_entries.len(), 4);
    assert_eq!(t.cursor, 0);
    let again = vec![entry(".cache", true), entry("beta", true)];
    t.update_entries(again, true);
    let names: Vec<&str> = t.entries.iter().map(|e| e.name.as_str()).collect();
    assert_eq!(names, vec![".cache", "beta"]);
}

#[test]
fn listing_orders_by_character_code() {
    let mut t = TabState::new(0, "/".to_string());
    t.update_entries(vec![entry("b", false), entry("ab", false), entry("a", false), entry("é", false), entry("B", false)], true);
    let names: Vec<&str> = t.entries.iter().map(|e| e.name.as_str()).collect();
    assert_eq!(names, vec!["B", "a", "ab", "b", "é"]);
}

#[test]
fn content_and_walk_matching() {
    assert!(SearchEngine::content_matches("Hello World", "WORLD"));
    assert!(!SearchEngine::content_matches("Hello", "bye"));
    assert!(SearchEngine::walk_keeps("Report.PDF", false, "pdf", SearchMode::Name, false));
    assert!(!SearchEngine::walk_keeps("dir", true, "dir", SearchMode::Content, true));
    assert!(SearchEngine::walk_keeps("notes", false, "zzz", SearchMode::Content, true));
    assert!(!SearchEngine::walk_keeps("notes", false, "zzz", SearchMode::Metadata, true));
}
