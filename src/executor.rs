use vstd::prelude::*;
use crate::task::{ArchiveFormat, ProgressEvent};

verus! {

/// An outside program to run, with its arguments.
#[derive(Debug)]
pub struct CommandLine {
    pub program: String,
    pub args: Vec<String>,
}

/// The terminal event for an operation that ended with `result`: success
/// completes the task, an error fails it with the error's text.
pub fn event_for_result(result: Result<(), String>) -> (r: ProgressEvent)
    ensures
        match result {
            Ok(()) => r is Completed,
            Err(e) => r == ProgressEvent::Error(e),
        },
{
    match result {
        Ok(()) => ProgressEvent::Completed,
        Err(e) => ProgressEvent::Error(e),
    }
}

/// The terminal event for an outside program that ran: a zero exit status
/// completes the task, any other fails it with what the program wrote to its
/// standard error.
pub fn event_for_exit(success: bool, stderr_text: String) -> (r: ProgressEvent)
    ensures
        success ==> r is Completed,
        !success ==> r == ProgressEvent::Error(stderr_text),
{
    if success {
        ProgressEvent::Completed
    } else {
        ProgressEvent::Error(stderr_text)
    }
}

/// The elevated ownership change: `sudo chown <owner> <path>`.
pub fn chown_command(path: &String, owner: &String) -> (r: CommandLine)
    ensures
        r.program@ == "sudo"@,
        r.args@.len() == 3,
        r.args@[0]@ == "chown"@,
        r.args@[1] == *owner,
        r.args@[2] == *path,
{
    let mut args: Vec<String> = Vec::new();
    args.push(String::from_str("chown"));
    args.push(owner.clone());
    args.push(path.clone());
    CommandLine { program: String::from_str("sudo"), args }
}

/// The unmount of a mount point: `umount <path>`.
pub fn unmount_command(path: &String) -> (r: CommandLine)
    ensures
        r.program@ == "umount"@,
        r.args@.len() == 1,
        r.args@[0] == *path,
{
    let mut args: Vec<String> = Vec::new();
    args.push(path.clone());
    CommandLine { program: String::from_str("umount"), args }
}

/// The message that fails an archive task with an unknown format tag.
pub open spec fn unsupported_format_message(tag: Seq<char>) -> Seq<char> {
    "Unsupported archive format: "@ + tag
}

/// The format a tag names, if any: exactly "zip", "tar" and "tar.gz".
pub open spec fn format_of_tag(tag: Seq<char>) -> Option<ArchiveFormat> {
    if tag == "zip"@ {
        Some(ArchiveFormat::Zip)
    } else if tag == "tar"@ {
        Some(ArchiveFormat::Tar)
    } else if tag == "tar.gz"@ {
        Some(ArchiveFormat::TarGz)
    } else {
        None
    }
}

impl ArchiveFormat {
    /// Reads a format tag; any other tag is an error that names it.
    pub fn from_tag(tag: &String) -> (r: Result<ArchiveFormat, String>)
        ensures
            match format_of_tag(tag@) {
                Some(f) => r == Ok::<ArchiveFormat, String>(f),
                None => r is Err && r->Err_0@ == unsupported_format_message(tag@),
            },
    {
        proof {
            reveal_strlit("zip");
            reveal_strlit("tar");
            reveal_strlit("tar.gz");
            reveal_strlit("Unsupported archive format: ");
        }
        if *tag == String::from_str("zip") {
            Ok(ArchiveFormat::Zip)
        } else if *tag == String::from_str("tar") {
            Ok(ArchiveFormat::Tar)
        } else if *tag == String::from_str("tar.gz") {
            Ok(ArchiveFormat::TarGz)
        } else {
            Err(String::from_str("Unsupported archive format: ").concat(tag.as_str()))
        }
    }
}

} // verus!
