//! Verified core of the herdr worktree picker: branch-name rules,
//! keybinding parsing, the JSON documents exchanged with Worktrunk and
//! herdr, removal safety, and the decisions of the picker and the
//! removal dialog.
pub mod text;
pub mod git;
pub mod config;
pub mod json;
pub mod wt;
pub mod picker;
pub mod herdr;
pub mod removal;
pub mod screen;
pub mod laws;
pub mod launch;
