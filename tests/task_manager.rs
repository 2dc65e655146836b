use corvus::executor::event_for_result;
use corvus::task::{ProgressEvent, TaskKind, TaskManager, TaskStatus};

fn copy_kind() -> TaskKind {
    TaskKind::Copy { src: "a.txt".to_string(), dest: "dir/a.txt".to_string() }
}

#[test]
fn added_task_is_listed_pending_with_fresh_id() {
    let mut m = TaskManager::new();
    let first = m.add_task(copy_kind(), "Copy a.txt".to_string());
    let tasks = m.get_tasks();
    assert_eq!(tasks.len(), 1);
    assert_eq!(tasks[0].id, first);
    assert!(matches!(tasks[0].status, TaskStatus::Pending));
    assert_eq!(tasks[0].description, "Copy a.txt");
    let second = m.add_task(TaskKind::Delete { path: "b".to_string() }, "Delete b".to_string());
    assert_ne!(first, second);
    let tasks = m.get_tasks();
    assert_eq!(tasks.len(), 2);
    assert_eq!(tasks[1].id, second);
    assert!(matches!(tasks[1].status, TaskStatus::Pending));
}

#[test]
fn second_dispatch_pass_starts_nothing() {
    let mut m = TaskManager::new();
    let a = m.add_task(copy_kind(), "one".to_string());
    let b = m.add_task(TaskKind::CreateDirectory { path: "d".to_string() }, "two".to_string());
    let first = m.process_pending_tasks();
    assert_eq!(first.len(), 2);
    assert_eq!(first[0].0, a);
    assert_eq!(first[1].0, b);
    assert!(matches!(&first[1].1, TaskKind::CreateDirectory { path } if path == "d"));
    for t in m.get_tasks() {
        assert!(matches!(t.status, TaskStatus::InProgress(0)));
    }
    let second = m.process_pending_tasks();
    assert!(second.is_empty());
    let c = m.add_task(TaskKind::Unmount { path: "/mnt/x".to_string() }, "three".to_string());
    let third = m.process_pending_tasks();
    assert_eq!(third.len(), 1);
    assert_eq!(third[0].0, c);
}

#[test]
fn copy_task_completes() {
    let mut m = TaskManager::new();
    let id = m.add_task(copy_kind(), "Copy".to_string());
    let jobs = m.process_pending_tasks();
    assert!(matches!(&jobs[0].1, TaskKind::Copy { src, dest } if src == "a.txt" && dest == "dir/a.txt"));
    let done = m.apply_event(id, event_for_result(Ok(())));
    assert!(done);
    assert!(matches!(m.get_tasks()[0].status, TaskStatus::Completed));
}

#[test]
fn move_task_completes() {
    let mut m = TaskManager::new();
    let kind = TaskKind::Move { src: "a.txt".to_string(), dest: "dir/a.txt".to_string() };
    let id = m.add_task(kind, "Move".to_string());
    let jobs = m.process_pending_tasks();
    assert!(matches!(&jobs[0].1, TaskKind::Move { src, dest } if src == "a.txt" && dest == "dir/a.txt"));
    assert!(m.apply_event(id, event_for_result(Ok(()))));
    assert!(matches!(m.get_tasks()[0].status, TaskStatus::Completed));
}

#[test]
fn delete_of_missing_path_fails_with_reason() {
    let mut m = TaskManager::new();
    let id = m.add_task(TaskKind::Delete { path: "/nonexistent".to_string() }, "Delete".to_string());
    m.process_pending_tasks();
    let reason = "No such file or directory (os error 2)".to_string();
    let done = m.apply_event(id, event_for_result(Err(reason.clone())));
    assert!(!done);
    match &m.get_tasks()[0].status {
        TaskStatus::Failed(r) => {
            assert!(!r.is_empty());
            assert_eq!(r, &reason);
        }
        other => panic!("unexpected status {:?}", other),
    }
}

#[test]
fn wait_result_is_true_only_for_completion() {
    let mut m = TaskManager::new();
    let a = m.add_task(copy_kind(), "a".to_string());
    let b = m.add_task(copy_kind(), "b".to_string());
    m.process_pending_tasks();
    assert!(!m.apply_event(a, ProgressEvent::Update(500)));
    assert!(matches!(m.get_tasks()[0].status, TaskStatus::InProgress(500)));
    assert!(!m.apply_event(b, ProgressEvent::Error("denied".to_string())));
    assert!(matches!(&m.get_tasks()[1].status, TaskStatus::Failed(e) if e == "denied"));
    assert!(m.apply_event(a, ProgressEvent::Completed));
    assert!(matches!(m.get_tasks()[0].status, TaskStatus::Completed));
}

#[test]
fn event_for_unknown_task_changes_nothing() {
    let mut m = TaskManager::new();
    let a = m.add_task(copy_kind(), "a".to_string());
    let mut other = TaskManager::new();
    other.add_task(copy_kind(), "x".to_string());
    let stranger = other.add_task(copy_kind(), "y".to_string());
    assert_ne!(a, stranger);
    assert!(!m.apply_event(stranger, ProgressEvent::Completed));
    assert!(matches!(m.get_tasks()[0].status, TaskStatus::Pending));
}

#[test]
fn snapshot_keeps_archive_operands() {
    let mut m = TaskManager::new();
    let kind = TaskKind::Archive {
        paths: vec!["src".to_string(), "b.txt".to_string()],
        dest: "out.zip".to_string(),
        format: "zip".to_string(),
    };
    m.add_task(kind, "Archive".to_string());
    match &m.get_tasks()[0].kind {
        TaskKind::Archive { paths, dest, format } => {
            assert_eq!(paths, &vec!["src".to_string(), "b.txt".to_string()]);
            assert_eq!(dest, "out.zip");
            assert_eq!(format, "zip");
        }
        other => panic!("unexpected kind {:?}", other),
    }
}
