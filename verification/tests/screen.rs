use herdr_worktree::config::{Config, KeyCode, KeyEvent, KeyModifiers, WorktreeBackend};
use herdr_worktree::git::HeadState;
use herdr_worktree::picker::App;
use herdr_worktree::screen::{entry_indicator, intent_option, Row, Tone};
use herdr_worktree::wt::{BranchEntry, EntryKind};

fn entry(name: &str, kind: EntryKind) -> BranchEntry {
    BranchEntry {
        kind,
        branch: name.into(),
        path: None,
        symbols: "+1".into(),
        remote: None,
        upstream: None,
    }
}

#[test]
fn picking_screen_text() {
    let app = App::new(
        Config::default(),
        "/r".into(),
        vec![entry("a", EntryKind::BranchLocal)],
        HeadState::Branch,
    );
    assert_eq!(
        app.header(),
        ("Filter (ctrl+r remotes, esc cancel)".to_string(), String::new())
    );
    let rows = app.rows();
    assert_eq!(rows.len(), 2);
    assert!(matches!(rows[0], Row::NewWorktree));
    assert!(matches!(&rows[1], Row::Entry { kind: EntryKind::BranchLocal, symbols, reference } if symbols == "+1" && reference == "a"));
    assert_eq!(app.list_title(), "Worktrees and branches");
    assert_eq!(app.message(), (String::new(), false));
}

#[test]
fn intent_screen_text() {
    let mut app = App::new(Config::default(), "/r".into(), Vec::new(), HeadState::Detached);
    app.handle_key(KeyEvent::new(KeyCode::Enter, KeyModifiers::empty()));
    assert_eq!(app.header().0, "Create worktree");
    assert_eq!(app.list_title(), "Starting point");
    assert_eq!(app.message().0, "↑/↓ select   ↵ continue   Esc back");
    assert_eq!(app.rows().len(), 3);
    let head = intent_option(0, HeadState::Detached, WorktreeBackend::Worktrunk);
    assert!(!head.available);
    assert_eq!(head.description, "Unavailable: detached HEAD");
    let request = intent_option(2, HeadState::Branch, WorktreeBackend::Native);
    assert_eq!(request.description, "Requires Worktrunk");
    assert_eq!(request.label, "PULL / MERGE REQUEST");
    let base = intent_option(1, HeadState::Branch, WorktreeBackend::Native);
    assert!(base.available);
    assert_eq!(base.tone, Tone::Blue);
}

#[test]
fn indicators_of_each_kind() {
    assert_eq!(entry_indicator(EntryKind::WorktreeCurrent), ("> here  ", Tone::Accent));
    assert_eq!(entry_indicator(EntryKind::BranchRemote), ("v remote", Tone::Blue));
    assert_eq!(entry_indicator(EntryKind::WorktreeMain).0, "* main  ");
}
