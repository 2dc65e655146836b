use corvus::app_state::{
    keeps_mount, permissions_text, ActionToConfirm, AppState, CreateFileType, DirEntry, FocusBlock,
    InputMode,
};
use corvus::clipboard::ClipboardMode;
use corvus::config::Config;
use corvus::settings::ColorScheme;
use corvus::task::{TaskKind, TaskStatus};
use corvus::text::{in_base, parse_octal};

fn state() -> AppState {
    let xdg = vec![("Documents".to_string(), "/home/u/Documents".to_string())];
    let mut s = AppState::new(Config::new(), xdg, "/home/u".to_string());
    let entries = vec![
        DirEntry { name: "a.txt".to_string(), path: "/home/u/a.txt".to_string(), is_dir: false },
        DirEntry { name: "b.txt".to_string(), path: "/home/u/b.txt".to_string(), is_dir: false },
    ];
    s.tabs[0].entries = entries;
    s.tabs[0].update_filtered_entries("");
    s
}

#[test]
fn octal_input() {
    assert_eq!(parse_octal("755"), Some(0o755));
    assert_eq!(parse_octal("+644"), Some(0o644));
    assert_eq!(parse_octal(""), None);
    assert_eq!(parse_octal("+"), None);
    assert_eq!(parse_octal("78"), None);
    assert_eq!(parse_octal("-1"), None);
    assert_eq!(parse_octal("37777777777"), Some(u32::MAX));
    assert_eq!(parse_octal("40000000000"), None);
}

#[test]
fn numbers_in_bases() {
    assert_eq!(in_base(0, 10), "0");
    assert_eq!(in_base(1205, 10), "1205");
    assert_eq!(in_base(0o755, 8), "755");
}

#[test]
fn permission_letters() {
    assert_eq!(permissions_text(0o755), "rw xr -xr-x");
    assert_eq!(permissions_text(0), "-- -- -----");
    assert_eq!(permissions_text(0o644), "rw -r --r--");
}

#[test]
fn mounts_shown() {
    assert!(keeps_mount("sshfs", "/home/u/remote"));
    assert!(keeps_mount("ext4", "/run/media/u/stick"));
    assert!(keeps_mount("vfat", "/media/card"));
    assert!(!keeps_mount("ext4", "/"));
}

#[test]
fn delete_asks_then_submits() {
    let mut s = state();
    s.delete_selection();
    assert!(s.show_confirmation);
    assert_eq!(s.action_to_confirm, Some(ActionToConfirm::Delete));
    assert_eq!(s.confirmation_message, "Are you sure you want to delete \"a.txt\"? (y/n)");
    assert!(!s.confirm());
    let tasks = s.task_manager.get_tasks();
    assert_eq!(tasks.len(), 1);
    assert_eq!(tasks[0].description, "Delete \"a.txt\"");
    assert!(matches!(&tasks[0].kind, TaskKind::Delete { path } if path == "/home/u/a.txt"));
    assert!(matches!(tasks[0].status, TaskStatus::Pending));
    assert!(!s.show_confirmation);
}

#[test]
fn delete_of_marked_entries_counts_them() {
    let mut s = state();
    s.tabs[0].toggle_selection();
    s.tabs[0].cursor = 1;
    s.tabs[0].toggle_selection();
    s.delete_selection();
    assert_eq!(s.confirmation_message, "Are you sure you want to delete 2 items? (y/n)");
    s.confirm();
    assert_eq!(s.task_manager.get_tasks().len(), 2);
    assert!(s.tabs[0].selected_entries.is_empty());
}

#[test]
fn paste_copies_into_the_tab() {
    let mut s = state();
    s.yank_selection();
    assert_eq!(s.clipboard.mode, Some(ClipboardMode::Copy));
    s.tabs[0].current_dir = "/tmp".to_string();
    assert_eq!(s.paste_destinations(), vec!["/tmp/a.txt".to_string()]);
    s.paste(false);
    let tasks = s.task_manager.get_tasks();
    assert_eq!(tasks.len(), 1);
    assert_eq!(tasks[0].description, "Copy \"a.txt\" -> \"/tmp\"");
    assert!(matches!(&tasks[0].kind, TaskKind::Copy { src, dest } if src == "/home/u/a.txt" && dest == "/tmp/a.txt"));
    assert_eq!(s.clipboard.paths.len(), 1);
}

#[test]
fn conflicting_move_waits_for_confirmation() {
    let mut s = state();
    s.cut_selection();
    s.paste(true);
    assert!(s.show_confirmation);
    assert_eq!(s.action_to_confirm, Some(ActionToConfirm::Paste));
    assert!(s.task_manager.get_tasks().is_empty());
    s.confirm();
    let tasks = s.task_manager.get_tasks();
    assert_eq!(tasks[0].description, "Move \"a.txt\" -> \"/home/u\"");
    assert!(s.clipboard.paths.is_empty());
    assert_eq!(s.clipboard.mode, None);
    let mut t = state();
    t.cut_selection();
    t.paste(true);
    t.cancel_paste();
    assert!(t.pending_paste.is_none());
    assert!(t.task_manager.get_tasks().is_empty());
}

#[test]
fn chmod_and_chown_submit() {
    let mut s = state();
    s.chmod_selection();
    assert_eq!(s.input_dialog_prompt, "Enter new permissions for \"a.txt\" (octal):");
    assert_eq!(s.input_mode, InputMode::Chmod);
    s.input_buffer = "640".to_string();
    s.chmod_item();
    let tasks = s.task_manager.get_tasks();
    assert_eq!(tasks[0].description, "Chmod \"a.txt\" to 640");
    assert!(matches!(&tasks[0].kind, TaskKind::Chmod { mode, .. } if *mode == 0o640));
    assert_eq!(s.input_mode, InputMode::Normal);
    s.input_buffer = "9".to_string();
    s.chmod_item();
    assert_eq!(s.task_manager.get_tasks().len(), 1);
    s.input_buffer = "bob".to_string();
    s.chown_item();
    let tasks = s.task_manager.get_tasks();
    assert_eq!(tasks[1].description, "Chown \"a.txt\" to bob");
    assert!(s.input_buffer.is_empty());
}

#[test]
fn create_and_rename() {
    let mut s = state();
    s.input_buffer = "new".to_string();
    s.create_file_type = Some(CreateFileType::Directory);
    assert_eq!(s.new_item_path(), "/home/u/new");
    s.create_item(true);
    assert_eq!(s.input_dialog_error.as_deref(), Some("A file with this name already exists."));
    assert_eq!(s.input_buffer, "new");
    s.create_item(false);
    let tasks = s.task_manager.get_tasks();
    assert_eq!(tasks[0].description, "Create \"/home/u/new\"");
    assert!(matches!(&tasks[0].kind, TaskKind::CreateDirectory { path } if path == "/home/u/new"));
    s.rename_selection();
    assert_eq!(s.input_buffer, "a.txt");
    s.input_buffer = "c.txt".to_string();
    assert_eq!(s.renamed_path(), Some("/home/u/c.txt".to_string()));
    s.rename_item(false);
    let tasks = s.task_manager.get_tasks();
    assert_eq!(tasks[1].description, "Rename \"/home/u/a.txt\" to \"/home/u/c.txt\"");
    assert_eq!(s.input_mode, InputMode::Normal);
}

#[test]
fn archive_submission() {
    let mut s = state();
    s.archive_selection();
    assert_eq!(s.input_dialog_prompt, "Archive \"a.txt\". Enter archive name:");
    s.archive_item();
    assert_eq!(s.input_dialog_error.as_deref(), Some("Archive name cannot be empty"));
    s.select_archive_format();
    assert_eq!(s.archive_format, "tar");
    s.select_archive_format();
    assert_eq!(s.archive_format, "tar.gz");
    s.input_buffer = "backup".to_string();
    s.archive_item();
    let tasks = s.task_manager.get_tasks();
    assert_eq!(tasks[0].description, "Archive 1 items to \"/home/u/backup.tar.gz\"");
    assert!(matches!(&tasks[0].kind, TaskKind::Archive { dest, format, .. } if dest == "/home/u/backup.tar.gz" && format == "tar.gz"));
    s.select_archive_format();
    assert_eq!(s.archive_format, "zip");
}

#[test]
fn tabs_and_focus() {
    let mut s = state();
    assert!(s.new_tab("/tmp".to_string()));
    assert_eq!(s.active_tab_index, 1);
    assert!(s.show_tabs);
    s.next_tab();
    assert_eq!(s.active_tab_index, 0);
    s.previous_tab();
    assert_eq!(s.active_tab_index, 1);
    s.close_tab();
    assert_eq!(s.tabs.len(), 1);
    assert_eq!(s.active_tab_index, 0);
    assert!(!s.show_tabs);
    s.close_tab();
    assert_eq!(s.tabs.len(), 1);
    for _ in 0..12 {
        s.new_tab("/".to_string());
    }
    assert_eq!(s.tabs.len(), 10);
    s.cycle_focus();
    assert_eq!(s.focus, FocusBlock::Xdg);
    assert!(s.move_left_pane_cursor_down());
    assert_eq!(s.get_active_tab().current_dir, "/home/u/Documents");
}

#[test]
fn bookmarks_and_schemes() {
    let mut s = state();
    assert!(s.add_bookmark());
    assert_eq!(s.bookmarks, vec![("u".to_string(), "/home/u".to_string())]);
    assert_eq!(s.config.bookmarks, vec![("u".to_string(), "/home/u".to_string())]);
    s.focus = FocusBlock::Bookmarks;
    s.remove_bookmark();
    assert_eq!(s.confirmation_message, "Remove bookmark 'u'? (y/n)");
    assert!(s.confirm());
    assert!(s.bookmarks.is_empty());
    assert!(s.config.bookmarks.is_empty());
    assert_eq!(s.get_current_color_scheme(), ColorScheme::Dracula);
    s.set_color_scheme(ColorScheme::Nord);
    assert_eq!(s.get_current_color_scheme(), ColorScheme::Nord);
}

#[test]
fn search_dialog() {
    let mut s = state();
    s.start_search();
    assert!(s.show_search_dialog);
    s.search_query = "B.T".to_string();
    s.update_search();
    assert_eq!(s.search_results.len(), 1);
    assert_eq!(s.tabs[0].filtered_entries.len(), 1);
    assert!(s.select_search_result());
    assert_eq!(s.tabs[0].cursor, 0);
    s.cancel_search();
    assert!(!s.show_search_dialog);
    assert!(s.search_results.is_empty());
}
