use herdr_worktree::json::parse_json;
use herdr_worktree::wt::{
    entries_from_list, exit_error, launch_error, parse_wt_list, removal_safety, switched_path,
    wt_list, wt_remove, wt_switch, BranchEntry, EntryKind, RemovalSafety,
};

fn json(text: &str) -> herdr_worktree::json::Json {
    parse_json(text.as_bytes()).unwrap()
}

#[test]
fn test_entry_kind_match() {
    // Ensure EntryKind matches for worktrees
    let entry = BranchEntry {
        kind: EntryKind::WorktreeOther,
        branch: "test-branch".to_string(),
        path: Some("/some/path".to_string()),
        symbols: "".to_string(),
        remote: None,
        upstream: None,
    };
    assert!(matches!(
        entry.kind,
        EntryKind::WorktreeCurrent | EntryKind::WorktreeMain | EntryKind::WorktreeOther
    ));
}

#[test]
fn remote_entries_preserve_their_qualified_reference() {
    let entries = parse_wt_list(&json(
        r#"{"items": [{"branch": "feature/auth", "remote": "upstream"}]}"#,
    ));

    assert_eq!(entries[0].reference(), "upstream/feature/auth");
}

#[test]
fn local_entries_parse_their_upstream() {
    let entries = parse_wt_list(&json(
        r#"{"items": [{
            "branch": "feature/auth",
            "upstream": {"remote": "origin", "branch": "feature/auth"}
        }]}"#,
    ));

    assert_eq!(entries[0].upstream.as_deref(), Some("origin/feature/auth"));
}

#[test]
fn removal_safety_requires_a_clean_integrated_worktree() {
    let list = json(
        r#"{"items": [{
            "worktree": {
                "path": "/repo.feature",
                "changes": {"modified": false},
                "duplicate_branch": false
            },
            "display": {"state": "integrated"}
        }]}"#,
    );

    assert_eq!(removal_safety(&list, "/repo.feature"), RemovalSafety::Safe);
}

#[test]
fn removal_safety_rejects_dirty_and_unmerged_worktrees() {
    let dirty = json(
        r#"{"items": [{
            "worktree": {"path": "/repo.feature", "changes": {"untracked": true}},
            "display": {"state": "integrated"}
        }]}"#,
    );
    let unmerged = json(
        r#"{"items": [{
            "worktree": {"path": "/repo.feature", "changes": {}},
            "display": {"state": "ahead"}
        }]}"#,
    );

    assert_eq!(removal_safety(&dirty, "/repo.feature"), RemovalSafety::Dirty);
    assert_eq!(
        removal_safety(&unmerged, "/repo.feature"),
        RemovalSafety::BranchNotIntegrated
    );
}

#[test]
fn removal_safety_rejects_a_branch_checked_out_elsewhere() {
    let list = json(
        r#"{"items": [{
            "worktree": {
                "path": "/repo.feature",
                "changes": {},
                "duplicate_branch": true
            },
            "display": {"state": "integrated"}
        }]}"#,
    );

    assert_eq!(
        removal_safety(&list, "/repo.feature"),
        RemovalSafety::BranchCheckedOutElsewhere
    );
}

#[test]
fn removal_safety_edge_cases() {
    let empty = json(
        r#"{"items": [{"worktree": {"path": "/w"}, "display": {"state": "empty"}}]}"#,
    );
    assert_eq!(removal_safety(&empty, "/w"), RemovalSafety::Safe);
    assert_eq!(removal_safety(&empty, "/other"), RemovalSafety::Unknown);
    let stateless = json(r#"{"items": [{"worktree": {"path": "/w"}}]}"#);
    assert_eq!(removal_safety(&stateless, "/w"), RemovalSafety::Unknown);
    let conflicted = json(
        r#"{"items": [{"worktree": {"path": "/w", "changes": {"conflicted": true}, "duplicate_branch": true}}]}"#,
    );
    assert_eq!(removal_safety(&conflicted, "/w"), RemovalSafety::Dirty);
    assert_eq!(removal_safety(&json("[]"), "/w"), RemovalSafety::Unknown);
    let second = json(
        r#"{"items": [{"worktree": {"path": "/a"}, "display": {"state": "ahead"}},
                      {"worktree": {"path": "/b"}, "display": {"state": "integrated"}}]}"#,
    );
    assert_eq!(removal_safety(&second, "/b"), RemovalSafety::Safe);
}

#[test]
fn clean_unintegrated_worktrees_can_be_removed_without_deleting_the_branch() {
    assert!(RemovalSafety::BranchNotIntegrated.allows_removal());
    assert!(RemovalSafety::BranchCheckedOutElsewhere.allows_removal());
    assert!(!RemovalSafety::Dirty.allows_removal());
    assert!(!RemovalSafety::Unknown.allows_removal());
}

#[test]
fn safety_texts_round_trip() {
    for s in [
        RemovalSafety::Safe,
        RemovalSafety::Dirty,
        RemovalSafety::BranchCheckedOutElsewhere,
        RemovalSafety::BranchNotIntegrated,
        RemovalSafety::Unknown,
    ] {
        assert_eq!(RemovalSafety::from_env_value(s.as_env_value()), Some(s));
    }
    assert_eq!(RemovalSafety::from_env_value("clean"), None);
    assert_eq!(RemovalSafety::Dirty.as_env_value(), "dirty");
}

#[test]
fn combined_list_keeps_one_current_worktree_and_the_remotes() {
    let entries = parse_wt_list(&json(
        r#"{"items": [
            {"branch": "main", "worktree": {"path": ".", "current": true, "main": true}},
            {"branch": "feature", "remote": "origin"}
        ]}"#,
    ));
    assert_eq!(
        entries
            .iter()
            .filter(|entry| entry.kind == EntryKind::WorktreeCurrent)
            .count(),
        1
    );
    assert!(entries.iter().any(|entry| entry.kind == EntryKind::BranchRemote));
}

#[test]
fn list_entries_read_every_field() {
    let list = json(
        r#"{"items": [
            {"branch": "main", "worktree": {"path": ".", "main": true}, "display": {"symbols": "*"}},
            {"branch": "gone", "worktree": {"path": "/definitely/not/a/real/path/xyz"}},
            {"worktree": {"path": "."}},
            {"branch": "local"},
            {"branch": "up", "upstream": {"remote": "origin"}}
        ]}"#,
    );
    let entries = parse_wt_list(&list);
    assert_eq!(entries.len(), 3);
    assert_eq!(entries[0].kind, EntryKind::WorktreeMain);
    assert_eq!(entries[0].symbols, "*");
    assert_eq!(entries[0].path.as_deref(), Some("."));
    assert_eq!(entries[1].kind, EntryKind::BranchLocal);
    assert_eq!(entries[1].symbols, "");
    assert_eq!(entries[2].upstream, None);

    let all = entries_from_list(&list, &vec![true, true, true, true, true]);
    assert_eq!(all.len(), 4);
    assert_eq!(all[1].kind, EntryKind::WorktreeOther);
    let none = entries_from_list(&list, &vec![false, false, false, false, false]);
    assert_eq!(none.len(), 2);
    assert!(parse_wt_list(&json("{}")).is_empty());
}

#[test]
fn worktrunk_arguments() {
    assert_eq!(
        wt_switch("/r", "b", true),
        vec!["switch", "--no-cd", "--format", "json", "-C", "/r", "--create", "b"]
    );
    assert_eq!(
        wt_switch("/r", "b", false),
        vec!["switch", "--no-cd", "--format", "json", "-C", "/r", "b"]
    );
    assert_eq!(
        wt_remove("/r", "/w"),
        vec!["-C", "/r", "remove", "--foreground", "--format", "json", "/w"]
    );
    assert_eq!(
        wt_list("/r", true, true),
        vec!["list", "--format=json", "--config-set", "list.json-schema=2", "-C", "/r", "--branches", "--remotes"]
    );
    assert_eq!(
        wt_list("/r", false, false),
        vec!["list", "--format=json", "--config-set", "list.json-schema=2", "-C", "/r"]
    );
}

#[test]
fn availability_messages() {
    let missing = launch_error(true, "ignored");
    assert!(missing.contains("Worktrunk (wt) is required but was not found"));
    assert!(missing.contains("brew install worktrunk"));
    assert_eq!(launch_error(false, "denied"), "Could not run Worktrunk (wt): denied");
    let exited = exit_error("  \n", "exit status: 1");
    assert!(exited.contains("Worktrunk (wt) exited"));
    assert!(exited.contains("cargo install worktrunk"));
    assert_eq!(exit_error(" boom \n", "exit status: 1"), "Worktrunk (wt) could not run: boom");
}

#[test]
fn switch_reports_its_path() {
    assert_eq!(switched_path(&json(r#"{"path": "/w"}"#), "fallback"), "/w");
    assert_eq!(switched_path(&json(r#"{"path": 3}"#), "fallback"), "fallback");
}
