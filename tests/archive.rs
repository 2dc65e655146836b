use corvus::archive::{archive_entries, ArchiveInput, WalkEntry};
use corvus::task::ArchiveFormat;

fn src_dir() -> ArchiveInput {
    ArchiveInput::Dir {
        path: "src".to_string(),
        name: "src".to_string(),
        contents: vec![
            WalkEntry { rel: "file1.txt".to_string(), is_dir: false },
            WalkEntry { rel: "sub".to_string(), is_dir: true },
            WalkEntry { rel: "sub/file2.txt".to_string(), is_dir: false },
        ],
    }
}

fn names(inputs: &Vec<ArchiveInput>, f: ArchiveFormat) -> Vec<(String, String, bool)> {
    archive_entries(inputs, f).into_iter().map(|e| (e.name, e.source, e.is_dir)).collect()
}

#[test]
fn zip_drops_directory_name() {
    let got = names(&vec![src_dir()], ArchiveFormat::Zip);
    assert_eq!(
        got,
        vec![
            ("file1.txt".to_string(), "src/file1.txt".to_string(), false),
            ("sub".to_string(), "src/sub".to_string(), true),
            ("sub/file2.txt".to_string(), "src/sub/file2.txt".to_string(), false),
        ]
    );
}

#[test]
fn tar_keeps_directory_name() {
    let got = names(&vec![src_dir()], ArchiveFormat::Tar);
    assert_eq!(
        got,
        vec![
            ("src".to_string(), "src".to_string(), true),
            ("src/file1.txt".to_string(), "src/file1.txt".to_string(), false),
            ("src/sub".to_string(), "src/sub".to_string(), true),
            ("src/sub/file2.txt".to_string(), "src/sub/file2.txt".to_string(), false),
        ]
    );
    assert_eq!(names(&vec![src_dir()], ArchiveFormat::TarGz), got);
}

#[test]
fn files_are_named_by_last_component_in_zip_and_by_path_in_tar() {
    let inputs = vec![ArchiveInput::File { path: "docs/a.txt".to_string(), name: "a.txt".to_string() }];
    assert_eq!(names(&inputs, ArchiveFormat::Zip), vec![("a.txt".to_string(), "docs/a.txt".to_string(), false)]);
    assert_eq!(
        names(&inputs, ArchiveFormat::Tar),
        vec![("docs/a.txt".to_string(), "docs/a.txt".to_string(), false)]
    );
}

#[test]
fn empty_inputs_give_no_entries() {
    assert!(archive_entries(&Vec::new(), ArchiveFormat::Zip).is_empty());
    let empty_dir = ArchiveInput::Dir { path: "/tmp/e".to_string(), name: "e".to_string(), contents: Vec::new() };
    assert!(archive_entries(&vec![empty_dir], ArchiveFormat::Zip).is_empty());
    let empty_dir = ArchiveInput::Dir { path: "/tmp/e".to_string(), name: "e".to_string(), contents: Vec::new() };
    assert_eq!(names(&vec![empty_dir], ArchiveFormat::Tar), vec![("e".to_string(), "/tmp/e".to_string(), true)]);
}
