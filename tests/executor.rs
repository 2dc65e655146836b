use corvus::executor::{chown_command, event_for_exit, event_for_result, unmount_command};
use corvus::task::{ArchiveFormat, ProgressEvent};

#[test]
fn format_tags() {
    assert_eq!(ArchiveFormat::from_tag(&"zip".to_string()), Ok(ArchiveFormat::Zip));
    assert_eq!(ArchiveFormat::from_tag(&"tar".to_string()), Ok(ArchiveFormat::Tar));
    assert_eq!(ArchiveFormat::from_tag(&"tar.gz".to_string()), Ok(ArchiveFormat::TarGz));
}

#[test]
fn unknown_format_tag_is_an_error() {
    assert_eq!(
        ArchiveFormat::from_tag(&"rar".to_string()),
        Err("Unsupported archive format: rar".to_string())
    );
    assert_eq!(
        ArchiveFormat::from_tag(&"".to_string()),
        Err("Unsupported archive format: ".to_string())
    );
    assert!(ArchiveFormat::from_tag(&"ZIP".to_string()).is_err());
}

#[test]
fn results_become_terminal_events() {
    assert!(matches!(event_for_result(Ok(())), ProgressEvent::Completed));
    assert!(matches!(event_for_result(Err("boom".to_string())), ProgressEvent::Error(e) if e == "boom"));
}

#[test]
fn exit_status_becomes_terminal_event() {
    assert!(matches!(event_for_exit(true, String::new()), ProgressEvent::Completed));
    assert!(matches!(
        event_for_exit(false, "umount: not mounted".to_string()),
        ProgressEvent::Error(e) if e == "umount: not mounted"
    ));
}

#[test]
fn command_lines() {
    let c = chown_command(&"/srv/f".to_string(), &"bob:staff".to_string());
    assert_eq!(c.program, "sudo");
    assert_eq!(c.args, vec!["chown".to_string(), "bob:staff".to_string(), "/srv/f".to_string()]);
    let u = unmount_command(&"/mnt/usb".to_string());
    assert_eq!(u.program, "umount");
    assert_eq!(u.args, vec!["/mnt/usb".to_string()]);
}
