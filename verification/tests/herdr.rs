use herdr_worktree::herdr::{
    close_plugin_pane, command_error, focus_plugin_pane, get_focused_workspace_id,
    get_plugin_pane_id, get_workspace_cwd, open_confirm_remove_pane, open_plugin_pane_with_cwd,
    pane_id_from_context, show_notification, workspace_close, worktree_create, worktree_open,
    worktree_remove,
};
use herdr_worktree::json::parse_json;

fn json(text: &str) -> herdr_worktree::json::Json {
    parse_json(text.as_bytes()).unwrap()
}

const PANES: &str = r#"{"result": {"panes": [
    {"pane_id": "p1", "workspace_id": "w2", "label": "Worktree Picker", "cwd": "/elsewhere"},
    {"pane_id": "p2", "workspace_id": "w1", "label": "editor", "focused": true, "cwd": "/editor"},
    {"pane_id": "p3", "workspace_id": "w1", "label": "shell", "foreground_cwd": "/fg", "cwd": "/bg"},
    {"pane_id": "p4", "workspace_id": "w1", "label": "Worktree Picker"}
]}}"#;

#[test]
fn plugin_pane_is_found_in_the_focused_workspace() {
    let panes = json(PANES);
    assert_eq!(get_plugin_pane_id(&panes, "Worktree Picker").as_deref(), Some("p4"));
    assert_eq!(get_plugin_pane_id(&panes, "missing"), None);
    assert_eq!(get_plugin_pane_id(&json("{}"), "Worktree Picker"), None);
}

#[test]
fn workspace_cwd_prefers_the_shell_pane() {
    assert_eq!(get_workspace_cwd(&json(PANES)).as_deref(), Some("/fg"));
    let no_shell = json(
        r#"{"result": {"panes": [{"workspace_id": "w", "focused": true, "cwd": "/c"}]}}"#,
    );
    assert_eq!(get_workspace_cwd(&no_shell).as_deref(), Some("/c"));
    let unfocused = json(r#"{"result": {"panes": [{"workspace_id": "w", "cwd": "/c"}]}}"#);
    assert_eq!(get_workspace_cwd(&unfocused), None);
    let null_cwd = json(
        r#"{"result": {"panes": [{"workspace_id": "w", "focused": true, "foreground_cwd": null, "cwd": "/c"}]}}"#,
    );
    assert_eq!(get_workspace_cwd(&null_cwd), None);
}

#[test]
fn focused_workspace_of_a_snapshot() {
    let snap = json(r#"{"result": {"snapshot": {"focused_workspace_id": "w9"}}}"#);
    assert_eq!(get_focused_workspace_id(&snap).as_deref(), Some("w9"));
    assert_eq!(get_focused_workspace_id(&json(r#"{"result": {}}"#)), None);
}

#[test]
fn own_pane_comes_from_the_plugin_context() {
    assert_eq!(pane_id_from_context(r#"{"pane_id": "p7"}"#).as_deref(), Some("p7"));
    assert_eq!(pane_id_from_context("not json"), None);
    assert_eq!(pane_id_from_context(r#"{"pane_id": 7}"#), None);
}

#[test]
fn command_errors_prefer_json_messages() {
    assert_eq!(
        command_error(r#"{"error": {"message": "no such workspace"}}"#, "", "exit status: 1"),
        "no such workspace"
    );
    assert_eq!(command_error("  plain failure \n", "out", "exit status: 1"), "plain failure");
    assert_eq!(
        command_error("", r#"{"error": {"message": "from stdout"}}"#, "exit status: 1"),
        "from stdout"
    );
    assert_eq!(command_error(" ", "\n", "exit status: 2"), "herdr exited with exit status: 2");
}

#[test]
fn herdr_command_lines() {
    assert_eq!(focus_plugin_pane("p"), vec!["plugin", "pane", "focus", "p"]);
    assert_eq!(close_plugin_pane("p"), vec!["plugin", "pane", "close", "p"]);
    assert_eq!(workspace_close("w"), vec!["workspace", "close", "w"]);
    assert_eq!(
        show_notification("T", "B"),
        vec!["notification", "show", "T", "--body", "B"]
    );
    assert_eq!(
        open_plugin_pane_with_cwd("plug", "picker", "/c"),
        vec!["plugin", "pane", "open", "--plugin", "plug", "--entrypoint", "picker", "--env", "HERDR_WORKTREE_CWD=/c", "--focus"]
    );
    assert_eq!(
        open_confirm_remove_pane("plug", &[("A", "1"), ("B", "2")]),
        vec!["plugin", "pane", "open", "--plugin", "plug", "--entrypoint", "confirm-remove", "--focus", "--env", "A=1", "--env", "B=2"]
    );
    assert_eq!(
        worktree_open("/r", "/p", false),
        vec!["worktree", "open", "--cwd", "/r", "--path", "/p", "--json", "--no-focus"]
    );
    assert_eq!(
        worktree_create("/r", "b", Some("main")),
        vec!["worktree", "create", "--cwd", "/r", "--branch", "b", "--focus", "--json", "--base", "main"]
    );
    assert_eq!(worktree_remove("w"), vec!["worktree", "remove", "--workspace", "w"]);
}
