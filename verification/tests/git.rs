use herdr_worktree::git::{
    create_branch_from, existing_branch_verdict, head_state_from, normalize_branch_name,
    primary_worktree, ref_format_verdict, require_branch_name, HeadState,
};

#[test]
fn test_normalize_jira_style() {
    assert_eq!(normalize_branch_name("jira-123", true), "JIRA-123");
    assert_eq!(
        normalize_branch_name("jira-123-fix-bug", true),
        "JIRA-123-fix-bug"
    );
    assert_eq!(normalize_branch_name("feature-456", true), "FEATURE-456");
}

#[test]
fn test_no_normalize_when_disabled() {
    assert_eq!(normalize_branch_name("jira-123", false), "jira-123");
}

#[test]
fn test_no_normalize_invalid_pattern() {
    // No digits after dash
    assert_eq!(normalize_branch_name("feature-abc", true), "feature-abc");
    // Starts with number
    assert_eq!(normalize_branch_name("123-feature", true), "123-feature");
    // No dash
    assert_eq!(normalize_branch_name("feature", true), "feature");
}

#[test]
fn normalizing_twice_changes_nothing_more() {
    for name in ["jira-123", "ab_c9-7x", "x-1-y-2", "feature/auth", "-1", "a-", ""] {
        let once = normalize_branch_name(name, true);
        assert_eq!(normalize_branch_name(&once, true), once);
        assert_eq!(once.chars().count(), name.chars().count());
    }
}

#[test]
fn ticket_prefix_allows_digits_and_underscores() {
    assert_eq!(normalize_branch_name("ab_c9-7x", true), "AB_C9-7x");
    assert_eq!(normalize_branch_name("ab.c-7", true), "ab.c-7");
    assert_eq!(normalize_branch_name("a-", true), "a-");
    assert_eq!(normalize_branch_name("-1", true), "-1");
    assert_eq!(normalize_branch_name("é-1", true), "é-1");
}

#[test]
fn empty_branch_names_are_required() {
    assert_eq!(require_branch_name("").unwrap_err(), "Branch name is required");
    assert!(require_branch_name("x").is_ok());
}

#[test]
fn ref_format_and_existence_verdicts() {
    assert!(ref_format_verdict(true, "ignored").is_ok());
    assert_eq!(
        ref_format_verdict(false, "  fatal: bad name\n").unwrap_err(),
        "fatal: bad name"
    );
    assert!(existing_branch_verdict(false, "main").is_ok());
    assert_eq!(
        existing_branch_verdict(true, "main").unwrap_err(),
        "Branch main already exists locally"
    );
}

#[test]
fn head_state_follows_git_answers() {
    assert_eq!(head_state_from(false, true), HeadState::Unborn);
    assert_eq!(head_state_from(true, true), HeadState::Branch);
    assert_eq!(head_state_from(true, false), HeadState::Detached);
}

#[test]
fn branch_creation_arguments() {
    assert_eq!(
        create_branch_from("/r", "new", "origin/x", true),
        vec!["-C", "/r", "branch", "--track", "new", "origin/x"]
    );
    assert_eq!(
        create_branch_from("/r", "new", "main", false),
        vec!["-C", "/r", "branch", "new", "main"]
    );
}

#[test]
fn primary_worktree_is_the_first_listed() {
    let out = "worktree /repo\nHEAD abc\nbranch refs/heads/main\n\nworktree /repo.feature\nHEAD def\n";
    assert_eq!(primary_worktree(out).as_deref(), Some("/repo"));
    assert_eq!(primary_worktree("worktree /w\r\nHEAD x").as_deref(), Some("/w"));
    assert_eq!(primary_worktree("HEAD x\nworktree /last").as_deref(), Some("/last"));
    assert_eq!(primary_worktree("bare\n"), None);
    assert_eq!(primary_worktree(""), None);
}
