//! A file manager's core: a registry of background filesystem tasks with
//! their dispatch and completion rules, the decisions of the operation
//! executors, the entry plan of the archive builder, and the browsing state
//! (tabs, listings, selection, clipboard, dialogs, settings) that submits
//! work to it. Filesystem, process and terminal access stay with the caller.

use vstd::prelude::*;

pub mod app_state;
pub mod archive;
pub mod clipboard;
pub mod config;
pub mod executor;
pub mod icons;
pub mod plugin;
pub mod search;
pub mod session;
pub mod settings;
pub mod settings_screen;
pub mod task;
pub mod text;

verus! {

} // verus!
