use herdr_worktree::config::{Config, KeyCode, KeyEvent, KeyModifiers, WorktreeBackend};
use herdr_worktree::git::HeadState;
use herdr_worktree::picker::{
    is_reference, new_intent_available, remote_target, validate_reference, App, AppState, Effect,
    NamingIntent, Task, TuiResult,
};
use herdr_worktree::wt::{BranchEntry, EntryKind};

fn branch(name: &str) -> BranchEntry {
    BranchEntry {
        kind: EntryKind::BranchLocal,
        branch: name.into(),
        path: None,
        symbols: String::new(),
        remote: None,
        upstream: None,
    }
}

fn remote(name: &str, remote: &str) -> BranchEntry {
    BranchEntry {
        kind: EntryKind::BranchRemote,
        branch: name.into(),
        path: None,
        symbols: String::new(),
        remote: Some(remote.into()),
        upstream: None,
    }
}

fn key(code: KeyCode) -> KeyEvent {
    KeyEvent::new(code, KeyModifiers::empty())
}

#[test]
fn remote_collision_requires_rename() {
    let remote = remote("feature/auth", "origin");
    let local = BranchEntry {
        kind: EntryKind::BranchLocal,
        branch: "feature/auth".into(),
        path: None,
        symbols: String::new(),
        remote: None,
        upstream: Some("upstream/feature/auth".into()),
    };
    assert_eq!(
        remote_target(&remote, &[remote.clone(), local]).unwrap(),
        None
    );
}

#[test]
fn remote_targets_without_conflict() {
    let r = remote("feature/auth", "origin");
    assert_eq!(
        remote_target(&r, &[r.clone()]).unwrap().as_deref(),
        Some("origin/feature/auth")
    );
    let mut tracking = branch("feature/auth");
    tracking.upstream = Some("origin/feature/auth".into());
    assert_eq!(
        remote_target(&r, &[r.clone(), tracking]).unwrap().as_deref(),
        Some("feature/auth")
    );
    let nameless = branch("x");
    let mut orphan = nameless.clone();
    orphan.kind = EntryKind::BranchRemote;
    assert_eq!(
        remote_target(&orphan, &[]).unwrap_err(),
        "Remote branch x has no remote name"
    );
}

#[test]
fn new_intent_availability_matches_head_state() {
    assert!(new_intent_available(HeadState::Branch, WorktreeBackend::Worktrunk, 0));
    assert!(new_intent_available(HeadState::Branch, WorktreeBackend::Worktrunk, 1));
    assert!(!new_intent_available(HeadState::Detached, WorktreeBackend::Worktrunk, 0));
    assert!(new_intent_available(HeadState::Detached, WorktreeBackend::Worktrunk, 1));
    assert!(!new_intent_available(HeadState::Unborn, WorktreeBackend::Worktrunk, 0));
    assert!(!new_intent_available(HeadState::Unborn, WorktreeBackend::Worktrunk, 1));
    assert!(new_intent_available(HeadState::Unborn, WorktreeBackend::Worktrunk, 2));
    assert!(!new_intent_available(HeadState::Branch, WorktreeBackend::Native, 2));
}

#[test]
fn restoring_new_intent_keeps_state_and_highlight_in_sync() {
    let mut app = App::new(Config::default(), "/repo".into(), Vec::new(), HeadState::Branch);

    app.show_new_intent(1);

    assert!(matches!(app.state, AppState::NewIntent { selected: 1 }));
    assert_eq!(app.selected, Some(1));
}

#[test]
fn references_are_not_branch_names() {
    assert!(is_reference("pr:42"));
    assert!(!is_reference("feature/new"));
}

#[test]
fn failed_creation_restores_name_and_base() {
    let base = branch("main");
    let mut app = App::new(Config::default(), ".".into(), vec![base.clone()], HeadState::Branch);
    let resume = AppState::Naming {
        input: "feature/new".into(),
        base: Some(base),
        intent: NamingIntent::NewBranch,
    };
    app.state = AppState::Creating;
    app.resume_state = Some(resume);
    app.creating = true;

    app.finish_creation(Err("creation failed".into()));

    assert!(matches!(app.state, AppState::Naming { ref input, .. } if input == "feature/new"));
    assert_eq!(app.error.as_deref(), Some("creation failed"));
}

#[test]
fn reference_validation_accepts_only_supported_inputs() {
    assert!(validate_reference("pr:42").is_ok());
    assert!(validate_reference("mr:42").is_ok());
    assert!(validate_reference("https://github.com/org/repo/pull/42").is_ok());
    assert!(validate_reference("pr:abc").is_err());
    assert!(validate_reference("feature/new").is_err());
}

#[test]
fn reference_refusals_explain_the_forms() {
    assert_eq!(
        validate_reference("pr:").unwrap_err(),
        "Enter pr:N or mr:N with a numeric ID"
    );
    assert_eq!(
        validate_reference("https://").unwrap_err(),
        "Enter pr:N, mr:N, or a pull/merge request URL"
    );
    assert!(validate_reference("http://x").is_ok());
    assert!(is_reference("mr:1") && is_reference("http://x") && is_reference("https://x"));
}

fn sample_app() -> App {
    let mut current = branch("main");
    current.kind = EntryKind::WorktreeCurrent;
    current.path = Some("/repo".into());
    let mut primary = branch("primary");
    primary.kind = EntryKind::WorktreeMain;
    primary.path = Some("/primary".into());
    let entries = vec![
        current,
        primary,
        branch("Feature/Login"),
        remote("feature/remote", "origin"),
    ];
    App::new(Config::default(), "/repo".into(), entries, HeadState::Branch)
}

#[test]
fn filter_hides_main_and_remotes_and_ignores_case() {
    let mut app = sample_app();
    assert_eq!(app.filtered, vec![0, 2]);
    for c in "LOGIN".chars() {
        assert!(matches!(app.handle_key(key(KeyCode::Char(c))), Effect::Nothing));
    }
    assert_eq!(app.filter, "LOGIN");
    assert_eq!(app.filtered, vec![2]);
    app.handle_key(key(KeyCode::Backspace));
    assert_eq!(app.filter, "LOGI");
    app.handle_key(KeyEvent::new(KeyCode::Char('u'), KeyModifiers::control()));
    assert_eq!(app.filter, "");
    assert_eq!(app.filtered, vec![0, 2]);
}

#[test]
fn toggling_shows_remotes_and_fetches_once() {
    let mut app = sample_app();
    let refresh = KeyEvent::new(KeyCode::Char('r'), KeyModifiers::alt());
    assert!(matches!(app.handle_key(refresh), Effect::Fetch));
    assert!(app.show_remotes && app.fetching);
    assert_eq!(app.filtered, vec![0, 2, 3]);
    assert_eq!(app.status.as_deref(), Some("Fetching all remotes..."));
    app.finish_fetch(Ok(vec![branch("only")]));
    assert!(!app.fetching);
    assert_eq!(app.filtered, vec![0]);
    assert_eq!(app.status.as_deref(), Some("Remote branches refreshed"));
    assert!(matches!(app.handle_key(refresh), Effect::Nothing));
    assert!(!app.show_remotes);
    app.finish_fetch(Err("offline".into()));
    assert_eq!(app.error.as_deref(), Some("offline"));
    assert_eq!(app.status, None);
}

#[test]
fn refresh_fetches_without_toggling() {
    let mut app = sample_app();
    let refresh = KeyEvent::new(KeyCode::Char('r'), KeyModifiers::control());
    assert!(matches!(app.handle_key(refresh), Effect::Fetch));
    assert!(!app.show_remotes);
    assert!(app.fetching);
    assert!(matches!(app.handle_key(refresh), Effect::Nothing));
    assert_eq!(app.filtered, vec![0, 2]);
}

#[test]
fn highlight_moves_within_rows() {
    let mut app = sample_app();
    app.handle_key(key(KeyCode::Up));
    assert_eq!(app.selected, Some(0));
    for _ in 0..5 {
        app.handle_key(key(KeyCode::Down));
    }
    assert_eq!(app.selected, Some(2));
    assert_eq!(app.selected_entry().unwrap().branch, "Feature/Login");
}

#[test]
fn confirming_a_worktree_opens_it() {
    let mut app = sample_app();
    app.handle_key(key(KeyCode::Down));
    match app.handle_key(key(KeyCode::Enter)) {
        Effect::Run(Task::Open { path }) => assert_eq!(path, "/repo"),
        other => panic!("unexpected {other:?}"),
    }
    assert!(matches!(app.state, AppState::Creating));
    assert!(matches!(app.handle_key(key(KeyCode::Esc)), Effect::Nothing));
    assert_eq!(app.finish_creation(Ok(())), Some(TuiResult::Created));
}

#[test]
fn new_branch_from_head_goes_through_git_checks() {
    let mut app = sample_app();
    app.handle_key(key(KeyCode::Enter));
    assert!(matches!(app.state, AppState::NewIntent { selected: 0 }));
    app.handle_key(key(KeyCode::Enter));
    for c in "jira-7".chars() {
        app.handle_key(key(KeyCode::Char(c)));
    }
    match app.handle_key(key(KeyCode::Enter)) {
        Effect::CheckName { name, base } => {
            assert_eq!(name, "JIRA-7");
            assert!(base.is_none());
            match app.finish_naming(name, base, Ok(())) {
                Effect::Run(Task::SwitchFromHead { branch }) => assert_eq!(branch, "JIRA-7"),
                other => panic!("unexpected {other:?}"),
            }
        }
        other => panic!("unexpected {other:?}"),
    }
    app.finish_creation(Err("no".into()));
    assert!(matches!(app.state, AppState::Naming { ref input, .. } if input == "jira-7"));
    app.handle_key(key(KeyCode::Esc));
    assert!(matches!(app.state, AppState::NewIntent { selected: 0 }));
    assert_eq!(app.selected, Some(0));
}

#[test]
fn choosing_a_base_saves_and_restores_the_filter() {
    let mut app = sample_app();
    app.handle_key(key(KeyCode::Char('f')));
    app.handle_key(key(KeyCode::Enter));
    app.handle_key(key(KeyCode::Down));
    app.handle_key(key(KeyCode::Enter));
    assert!(matches!(app.state, AppState::SelectingBase));
    assert_eq!(app.filter, "");
    assert_eq!(app.saved_filter, "f");
    app.handle_key(key(KeyCode::Esc));
    assert_eq!(app.filter, "f");
    assert!(matches!(app.state, AppState::NewIntent { selected: 1 }));
}

#[test]
fn names_that_look_like_requests_are_refused() {
    let mut app = sample_app();
    app.state = AppState::Naming {
        input: "pr:12".into(),
        base: None,
        intent: NamingIntent::NewBranch,
    };
    assert!(matches!(app.handle_key(key(KeyCode::Enter)), Effect::Nothing));
    assert_eq!(
        app.error.as_deref(),
        Some("Enter a new branch name, not a PR, MR, or URL")
    );
    app.state = AppState::Naming {
        input: "pr:12".into(),
        base: None,
        intent: NamingIntent::OpenReference,
    };
    match app.handle_key(key(KeyCode::Enter)) {
        Effect::Run(Task::Switch { target }) => assert_eq!(target, "pr:12"),
        other => panic!("unexpected {other:?}"),
    }
    assert_eq!(app.error, None);
    assert!(matches!(
        app.finish_naming("x".into(), None, Err("taken".into())),
        Effect::Nothing
    ));
    assert_eq!(app.error.as_deref(), Some("taken"));
}

#[test]
fn conflicting_remote_asks_for_another_name() {
    let r = remote("main", "origin");
    let mut app = App::new(
        Config::default(),
        "/repo".into(),
        vec![branch("main"), r],
        HeadState::Branch,
    );
    let toggle = KeyEvent::new(KeyCode::Char('r'), KeyModifiers::alt());
    app.handle_key(toggle);
    app.handle_key(key(KeyCode::Down));
    app.handle_key(key(KeyCode::Down));
    app.handle_key(key(KeyCode::Enter));
    assert!(matches!(app.state, AppState::RemoteConflict { selected: 0, .. }));
    app.handle_key(key(KeyCode::Down));
    assert_eq!(app.selected, Some(1));
    app.handle_key(key(KeyCode::Up));
    app.handle_key(key(KeyCode::Enter));
    assert!(matches!(
        app.state,
        AppState::Naming { base: Some(_), intent: NamingIntent::NewBranch, .. }
    ));
}

#[test]
fn cancel_leaves_the_picker() {
    let mut app = sample_app();
    assert!(matches!(app.handle_key(key(KeyCode::Esc)), Effect::Exit(TuiResult::Cancelled)));
}
