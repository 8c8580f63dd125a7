use herdr_worktree::config::{KeyCode, WorktreeBackend};
use herdr_worktree::json::parse_json;
use herdr_worktree::removal::{
    after_removal, backend_from_env, branch_for_checkout, confirm_hint, confirm_key,
    confirm_message, confirm_remove_env, refuse_primary, removed_branch, safety_from_env,
    workspace_worktree, worktree_label, Tone,
};
use herdr_worktree::wt::{BranchEntry, EntryKind, RemovalSafety};

fn json(text: &str) -> herdr_worktree::json::Json {
    parse_json(text.as_bytes()).unwrap()
}

#[test]
fn workspace_worktree_reads_the_snapshot() {
    let snap = json(
        r#"{"result": {"snapshot": {"workspaces": [
            {"workspace_id": "a", "worktree": {"checkout_path": "/x", "repo_name": "x", "repo_root": "/x"}},
            {"workspace_id": "b", "worktree": {"checkout_path": "/r.f", "repo_name": "r", "repo_root": "/r"}}
        ]}}}"#,
    );
    let w = workspace_worktree(&snap, "b").unwrap();
    assert_eq!((w.checkout_path.as_str(), w.repo_name.as_str(), w.repo_root.as_str()), ("/r.f", "r", "/r"));
    assert_eq!(workspace_worktree(&snap, "c").unwrap_err(), "Focused workspace was not found");
    assert_eq!(workspace_worktree(&json("{}"), "b").unwrap_err(), "Herdr snapshot has no workspaces");
    let bare = json(r#"{"result": {"snapshot": {"workspaces": [{"workspace_id": "b"}]}}}"#);
    assert_eq!(workspace_worktree(&bare, "b").unwrap_err(), "Focused workspace has no worktree");
    let partial = json(
        r#"{"result": {"snapshot": {"workspaces": [{"workspace_id": "b", "worktree": {"checkout_path": "/p", "repo_name": "n"}}]}}}"#,
    );
    assert_eq!(workspace_worktree(&partial, "b").unwrap_err(), "Focused workspace has no repository root");
}

#[test]
fn branch_of_a_checkout() {
    let entries = vec![BranchEntry {
        kind: EntryKind::WorktreeOther,
        branch: "feature".into(),
        path: Some("/r.f".into()),
        symbols: String::new(),
        remote: None,
        upstream: None,
    }];
    assert_eq!(branch_for_checkout(&entries, "/r.f").unwrap(), "feature");
    assert_eq!(
        branch_for_checkout(&entries, "/elsewhere").unwrap_err(),
        "Could not determine the worktree branch"
    );
}

#[test]
fn primary_worktree_is_refused() {
    assert_eq!(
        refuse_primary("/r", "/r").unwrap_err(),
        "Refusing to remove the primary worktree"
    );
    assert!(refuse_primary("/r.f", "/r").is_ok());
}

#[test]
fn confirmation_pane_variables() {
    let env = confirm_remove_env("w", "/c", "/r", "repo", "b", "repo: b", RemovalSafety::Dirty, WorktreeBackend::Native);
    let pairs: Vec<(&str, &str)> = env.iter().map(|(k, v)| (k.as_str(), v.as_str())).collect();
    assert_eq!(
        pairs,
        vec![
            ("HERDR_REMOVE_WORKSPACE_ID", "w"),
            ("HERDR_REMOVE_CHECKOUT_PATH", "/c"),
            ("HERDR_REMOVE_REPO_ROOT", "/r"),
            ("HERDR_REMOVE_REPO_NAME", "repo"),
            ("HERDR_REMOVE_BRANCH", "b"),
            ("HERDR_REMOVE_DISPLAY_TEXT", "repo: b"),
            ("HERDR_REMOVE_SAFETY", "dirty"),
            ("HERDR_REMOVE_BACKEND", "native"),
        ]
    );
    assert_eq!(worktree_label("repo", "b"), "repo: b");
}

#[test]
fn dialog_reads_its_variables() {
    assert_eq!(backend_from_env(Some("native")), WorktreeBackend::Native);
    assert_eq!(backend_from_env(Some("other")), WorktreeBackend::Worktrunk);
    assert_eq!(backend_from_env(None), WorktreeBackend::Worktrunk);
    assert_eq!(safety_from_env(Some("branch-not-integrated")), RemovalSafety::BranchNotIntegrated);
    assert_eq!(safety_from_env(Some("bogus")), RemovalSafety::Unknown);
    assert_eq!(safety_from_env(None), RemovalSafety::Unknown);
}

#[test]
fn dialog_answers() {
    assert_eq!(confirm_key(KeyCode::Char('y'), RemovalSafety::Safe), Some(true));
    assert_eq!(confirm_key(KeyCode::Char('Y'), RemovalSafety::Dirty), None);
    assert_eq!(confirm_key(KeyCode::Char('n'), RemovalSafety::Dirty), Some(false));
    assert_eq!(confirm_key(KeyCode::Esc, RemovalSafety::Safe), Some(false));
    assert_eq!(confirm_key(KeyCode::Enter, RemovalSafety::Safe), None);
    assert_eq!(confirm_hint(RemovalSafety::Unknown), "[Esc] Cancel");
    assert_eq!(confirm_hint(RemovalSafety::Safe), "[y] Remove    [n/Esc] Cancel");
    assert_eq!(
        confirm_message(RemovalSafety::Safe, WorktreeBackend::Native),
        ("Safe to remove: worktree will be removed; branch will be kept.", Tone::Good)
    );
    assert_eq!(
        confirm_message(RemovalSafety::Dirty, WorktreeBackend::Worktrunk).1,
        Tone::Bad
    );
}

#[test]
fn what_follows_a_removal() {
    assert_eq!(after_removal(WorktreeBackend::Native, RemovalSafety::Safe), (true, false));
    assert_eq!(after_removal(WorktreeBackend::Native, RemovalSafety::BranchNotIntegrated), (false, false));
    assert_eq!(after_removal(WorktreeBackend::Worktrunk, RemovalSafety::Safe), (false, true));
    assert_eq!(removed_branch(&json(r#"{"branch": "feature"}"#)), "feature");
    assert_eq!(removed_branch(&json("{}")), "<unknown>");
}
