//! herdr: the command lines the plugin runs, and what it reads from
//! herdr's pane list, snapshot, plugin context and error output.
use vstd::prelude::*;
use crate::json::{
    Json, JsonValue, member, member_of, text_of, bool_of, array_of, json_values,
    lemma_values_index, get_text, get_flag, parse_json, json_document,
};
use vstd::utf8::encode_utf8;
use crate::text::{owned, concat, concat3, str_eq, trim_str, trim};

verus! {

/// The characters of each string.
pub open spec fn texts(v: Seq<String>) -> Seq<Seq<char>> {
    v.map_values(|s: String| s@)
}

/// Builds a command line from string slices.
pub fn words(parts: &[&str]) -> (r: Vec<String>)
    ensures
        texts(r@) == parts@.map_values(|s: &str| s@),
{
    let mut r: Vec<String> = Vec::new();
    let n = parts.len();
    let mut i: usize = 0;
    while i < n
        invariant
            n == parts@.len(),
            i <= n,
            texts(r@) == parts@.take(i as int).map_values(|s: &str| s@),
        decreases n - i,
    {
        let ghost before = r@;
        r.push(owned(parts[i]));
        assert(texts(r@) =~= texts(before).push(parts@[i as int]@));
        assert(parts@.take(i + 1) =~= parts@.take(i as int).push(parts@[i as int]));
        assert(parts@.take(i + 1).map_values(|s: &str| s@) =~= parts@.take(i as int).map_values(
            |s: &str| s@,
        ).push(parts@[i as int]@));
        i = i + 1;
    }
    assert(parts@.take(n as int) =~= parts@);
    r
}

/// herdr's arguments that focus the plugin pane `pane_id`.
pub fn focus_plugin_pane(pane_id: &str) -> (r: Vec<String>)
    ensures
        texts(r@) == seq!["plugin"@, "pane"@, "focus"@, pane_id@],
{
    let r = words(&["plugin", "pane", "focus", pane_id]);
    assert(texts(r@) =~= seq!["plugin"@, "pane"@, "focus"@, pane_id@]);
    r
}

/// herdr's arguments that close the plugin pane `pane_id`.
pub fn close_plugin_pane(pane_id: &str) -> (r: Vec<String>)
    ensures
        texts(r@) == seq!["plugin"@, "pane"@, "close"@, pane_id@],
{
    let r = words(&["plugin", "pane", "close", pane_id]);
    assert(texts(r@) =~= seq!["plugin"@, "pane"@, "close"@, pane_id@]);
    r
}

/// herdr's arguments that close the workspace `workspace_id`.
pub fn workspace_close(workspace_id: &str) -> (r: Vec<String>)
    ensures
        texts(r@) == seq!["workspace"@, "close"@, workspace_id@],
{
    let r = words(&["workspace", "close", workspace_id]);
    assert(texts(r@) =~= seq!["workspace"@, "close"@, workspace_id@]);
    r
}

/// herdr's arguments that show a notification.
pub fn show_notification(title: &str, body: &str) -> (r: Vec<String>)
    ensures
        texts(r@) == seq!["notification"@, "show"@, title@, "--body"@, body@],
{
    let r = words(&["notification", "show", title, "--body", body]);
    assert(texts(r@) =~= seq!["notification"@, "show"@, title@, "--body"@, body@]);
    r
}

/// herdr's arguments that open a plugin pane whose worktree picker starts
/// in `cwd`.
pub fn open_plugin_pane_with_cwd(plugin: &str, entrypoint: &str, cwd: &str) -> (r: Vec<String>)
    ensures
        texts(r@) == seq![
            "plugin"@,
            "pane"@,
            "open"@,
            "--plugin"@,
            plugin@,
            "--entrypoint"@,
            entrypoint@,
            "--env"@,
            "HERDR_WORKTREE_CWD="@ + cwd@,
            "--focus"@,
        ],
{
    let env = concat("HERDR_WORKTREE_CWD=", cwd);
    let r = words(
        &[
            "plugin",
            "pane",
            "open",
            "--plugin",
            plugin,
            "--entrypoint",
            entrypoint,
            "--env",
            env.as_str(),
            "--focus",
        ],
    );
    assert(texts(r@) =~= seq![
        "plugin"@,
        "pane"@,
        "open"@,
        "--plugin"@,
        plugin@,
        "--entrypoint"@,
        entrypoint@,
        "--env"@,
        "HERDR_WORKTREE_CWD="@ + cwd@,
        "--focus"@,
    ]);
    r
}

/// `--env key=value` for each variable, in order.
pub open spec fn env_args(vars: Seq<(Seq<char>, Seq<char>)>) -> Seq<Seq<char>>
    decreases vars.len(),
{
    if vars.len() == 0 {
        Seq::empty()
    } else {
        env_args(vars.drop_last()) + seq!["--env"@, vars.last().0 + "="@ + vars.last().1]
    }
}

pub open spec fn pair_texts(vars: Seq<(&str, &str)>) -> Seq<(Seq<char>, Seq<char>)> {
    vars.map_values(|p: (&str, &str)| (p.0@, p.1@))
}

/// herdr's arguments that open the removal confirmation pane, passing it
/// `env_vars`.
pub fn open_confirm_remove_pane(plugin: &str, env_vars: &[(&str, &str)]) -> (r: Vec<String>)
    ensures
        texts(r@) == seq![
            "plugin"@,
            "pane"@,
            "open"@,
            "--plugin"@,
            plugin@,
            "--entrypoint"@,
            "confirm-remove"@,
            "--focus"@,
        ] + env_args(pair_texts(env_vars@)),
{
    let mut r = words(
        &["plugin", "pane", "open", "--plugin", plugin, "--entrypoint", "confirm-remove", "--focus"],
    );
    let ghost head = seq![
        "plugin"@,
        "pane"@,
        "open"@,
        "--plugin"@,
        plugin@,
        "--entrypoint"@,
        "confirm-remove"@,
        "--focus"@,
    ];
    assert(texts(r@) =~= head);
    let n = env_vars.len();
    let mut i: usize = 0;
    assert(pair_texts(env_vars@.take(0)) =~= Seq::<(Seq<char>, Seq<char>)>::empty());
    assert(head + env_args(Seq::empty()) =~= head);
    while i < n
        invariant
            n == env_vars@.len(),
            i <= n,
            texts(r@) == head + env_args(pair_texts(env_vars@.take(i as int))),
        decreases n - i,
    {
        let (key, value) = env_vars[i];
        let ghost before = r@;
        r.push(owned("--env"));
        r.push(concat3(key, "=", value));
        proof {
            let ps = pair_texts(env_vars@.take(i + 1));
            assert(env_vars@.take(i + 1).drop_last() =~= env_vars@.take(i as int));
            assert(ps.drop_last() =~= pair_texts(env_vars@.take(i as int)));
            assert(ps.last() == (key@, value@));
            assert(texts(r@) =~= texts(before).push("--env"@).push(key@ + "="@ + value@));
        }
        i = i + 1;
    }
    assert(env_vars@.take(n as int) =~= env_vars@);
    r
}

/// herdr's arguments that open the worktree at `path` of the repository at
/// `repo_root`, focused or not.
pub fn worktree_open(repo_root: &str, path: &str, focus: bool) -> (r: Vec<String>)
    ensures
        texts(r@) == seq![
            "worktree"@,
            "open"@,
            "--cwd"@,
            repo_root@,
            "--path"@,
            path@,
            "--json"@,
            if focus {
                "--focus"@
            } else {
                "--no-focus"@
            },
        ],
{
    let r = words(
        &[
            "worktree",
            "open",
            "--cwd",
            repo_root,
            "--path",
            path,
            "--json",
            if focus {
                "--focus"
            } else {
                "--no-focus"
            },
        ],
    );
    assert(texts(r@) =~= seq![
        "worktree"@,
        "open"@,
        "--cwd"@,
        repo_root@,
        "--path"@,
        path@,
        "--json"@,
        if focus {
            "--focus"@
        } else {
            "--no-focus"@
        },
    ]);
    r
}

/// herdr's arguments that create and focus a worktree for `branch`, from
/// `base` when given.
pub fn worktree_create(repo_root: &str, branch: &str, base: Option<&str>) -> (r: Vec<String>)
    ensures
        texts(r@) == seq![
            "worktree"@,
            "create"@,
            "--cwd"@,
            repo_root@,
            "--branch"@,
            branch@,
            "--focus"@,
            "--json"@,
        ] + match base {
            Some(b) => seq!["--base"@, b@],
            None => Seq::empty(),
        },
{
    match base {
        Some(b) => {
            let r = words(
                &[
                    "worktree",
                    "create",
                    "--cwd",
                    repo_root,
                    "--branch",
                    branch,
                    "--focus",
                    "--json",
                    "--base",
                    b,
                ],
            );
            assert(texts(r@) =~= seq![
                "worktree"@,
                "create"@,
                "--cwd"@,
                repo_root@,
                "--branch"@,
                branch@,
                "--focus"@,
                "--json"@,
            ] + seq!["--base"@, b@]);
            r
        },
        None => {
            let r = words(
                &["worktree", "create", "--cwd", repo_root, "--branch", branch, "--focus", "--json"],
            );
            assert(texts(r@) =~= seq![
                "worktree"@,
                "create"@,
                "--cwd"@,
                repo_root@,
                "--branch"@,
                branch@,
                "--focus"@,
                "--json"@,
            ] + Seq::<Seq<char>>::empty());
            r
        },
    }
}

/// herdr's arguments that remove the worktree of the workspace `workspace_id`.
pub fn worktree_remove(workspace_id: &str) -> (r: Vec<String>)
    ensures
        texts(r@) == seq!["worktree"@, "remove"@, "--workspace"@, workspace_id@],
{
    let r = words(&["worktree", "remove", "--workspace", workspace_id]);
    assert(texts(r@) =~= seq!["worktree"@, "remove"@, "--workspace"@, workspace_id@]);
    r
}


/// The first value that satisfies `f`.
pub open spec fn first_where(s: Seq<JsonValue>, f: spec_fn(JsonValue) -> bool) -> Option<JsonValue>
    decreases s.len(),
{
    if s.len() == 0 {
        None
    } else if f(s[0]) {
        Some(s[0])
    } else {
        first_where(s.drop_first(), f)
    }
}

proof fn lemma_first_where_step(s: Seq<JsonValue>, f: spec_fn(JsonValue) -> bool, i: int)
    requires
        0 <= i < s.len(),
    ensures
        first_where(s.skip(i), f) == (if f(s[i]) {
            Some(s[i])
        } else {
            first_where(s.skip(i + 1), f)
        }),
{
    assert(s.skip(i).drop_first() =~= s.skip(i + 1));
}

/// The panes of herdr's pane list (`/result/panes`).
pub open spec fn panes_of(list: JsonValue) -> Option<Seq<JsonValue>> {
    array_of(member_of(member(list, "result"@), "panes"@))
}

pub open spec fn is_focused(p: JsonValue) -> bool {
    bool_of(member(p, "focused"@)) == Some(true)
}

/// The pane is in workspace `ws` and, when `label` is given, has that label.
pub open spec fn pane_matches(p: JsonValue, ws: Seq<char>, label: Option<Seq<char>>) -> bool {
    &&& text_of(member(p, "workspace_id"@)) == Some(ws)
    &&& label matches Some(l) ==> text_of(member(p, "label"@)) == Some(l)
}

/// The workspace of the first focused pane.
pub open spec fn focused_workspace(ps: Seq<JsonValue>) -> Option<Seq<char>> {
    match first_where(ps, |p: JsonValue| is_focused(p)) {
        Some(f) => text_of(member(f, "workspace_id"@)),
        None => None,
    }
}

/// The pane id of the first pane labelled `label` in the workspace of the
/// focused pane.
pub open spec fn plugin_pane_id_of(list: JsonValue, label: Seq<char>) -> Option<Seq<char>> {
    match panes_of(list) {
        None => None,
        Some(ps) => match focused_workspace(ps) {
            None => None,
            Some(ws) => match first_where(ps, |p: JsonValue| pane_matches(p, ws, Some(label))) {
                Some(p) => text_of(member(p, "pane_id"@)),
                None => None,
            },
        },
    }
}

/// A pane's working directory: its foreground process's when that member
/// is there, its own otherwise.
pub open spec fn pane_cwd(p: JsonValue) -> Option<Seq<char>> {
    text_of(
        match member(p, "foreground_cwd"@) {
            Some(v) => Some(v),
            None => member(p, "cwd"@),
        },
    )
}

/// The working directory of the focused workspace: that of its first pane
/// labelled `shell`, or else of its first pane.
pub open spec fn workspace_cwd_of(list: JsonValue) -> Option<Seq<char>> {
    match panes_of(list) {
        None => None,
        Some(ps) => match focused_workspace(ps) {
            None => None,
            Some(ws) => match first_where(ps, |p: JsonValue| pane_matches(p, ws, Some("shell"@))) {
                Some(p) => pane_cwd(p),
                None => match first_where(ps, |p: JsonValue| pane_matches(p, ws, None)) {
                    Some(p) => pane_cwd(p),
                    None => None,
                },
            },
        },
    }
}

/// The focused workspace of herdr's snapshot.
pub open spec fn focused_workspace_id_of(snapshot: JsonValue) -> Option<Seq<char>> {
    text_of(
        member_of(member_of(member(snapshot, "result"@), "snapshot"@), "focused_workspace_id"@),
    )
}

fn panes<'a>(list: &'a Json) -> (r: Option<&'a Vec<Json>>)
    ensures
        r is Some == panes_of(list.value()) is Some,
        r matches Some(ps) ==> panes_of(list.value()) == Some(json_values(ps@)),
{
    match list.get("result") {
        Some(res) => match res.get("panes") {
            Some(p) => p.as_array(),
            None => None,
        },
        None => None,
    }
}

fn find_focused<'a>(ps: &'a Vec<Json>) -> (r: Option<&'a Json>)
    ensures
        r is Some == first_where(json_values(ps@), |p: JsonValue| is_focused(p)) is Some,
        r matches Some(x) ==> first_where(json_values(ps@), |p: JsonValue| is_focused(p)) == Some(
            x.value(),
        ),
{
    let ghost f = |p: JsonValue| is_focused(p);
    let ghost vals = json_values(ps@);
    proof {
        lemma_values_index(ps@);
        assert(vals.skip(0) =~= vals);
    }
    let n = ps.len();
    let mut i: usize = 0;
    while i < n
        invariant
            n == ps@.len(),
            vals == json_values(ps@),
            vals.len() == n,
            forall|j: int| 0 <= j < n ==> #[trigger] vals[j] == ps@[j].value(),
            i <= n,
            f == (|p: JsonValue| is_focused(p)),
            first_where(vals, f) == first_where(vals.skip(i as int), f),
        decreases n - i,
    {
        proof {
            lemma_first_where_step(vals, f, i as int);
        }
        if get_flag(&ps[i], "focused") {
            return Some(&ps[i]);
        }
        i = i + 1;
    }
    assert(vals.skip(n as int) =~= Seq::<JsonValue>::empty());
    None
}

fn find_pane<'a>(ps: &'a Vec<Json>, ws: &str, label: Option<&str>) -> (r: Option<&'a Json>)
    ensures
        ({
            let l = match label {
                Some(l) => Some(l@),
                None => None,
            };
            let found = first_where(json_values(ps@), |p: JsonValue| pane_matches(p, ws@, l));
            &&& r is Some == found is Some
            &&& r matches Some(x) ==> found == Some(x.value())
        }),
{
    let ghost l = match label {
        Some(l) => Some(l@),
        None => None,
    };
    let ghost f = |p: JsonValue| pane_matches(p, ws@, l);
    let ghost vals = json_values(ps@);
    proof {
        lemma_values_index(ps@);
        assert(vals.skip(0) =~= vals);
    }
    let n = ps.len();
    let mut i: usize = 0;
    while i < n
        invariant
            n == ps@.len(),
            vals == json_values(ps@),
            vals.len() == n,
            forall|j: int| 0 <= j < n ==> #[trigger] vals[j] == ps@[j].value(),
            i <= n,
            f == (|p: JsonValue| pane_matches(p, ws@, l)),
            l == (match label {
                Some(l) => Some(l@),
                None => None::<Seq<char>>,
            }),
            first_where(vals, f) == first_where(vals.skip(i as int), f),
        decreases n - i,
    {
        proof {
            lemma_first_where_step(vals, f, i as int);
        }
        let p = &ps[i];
        let in_ws = match get_text(p, "workspace_id") {
            Some(w) => str_eq(w, ws),
            None => false,
        };
        let labelled = match label {
            Some(want) => match get_text(p, "label") {
                Some(have) => str_eq(have, want),
                None => false,
            },
            None => true,
        };
        if in_ws && labelled {
            return Some(p);
        }
        i = i + 1;
    }
    assert(vals.skip(n as int) =~= Seq::<JsonValue>::empty());
    None
}

fn text_out(t: Option<&str>) -> (r: Option<String>)
    ensures
        t is Some == r is Some,
        r matches Some(s) ==> t matches Some(u) && s@ == u@,
{
    match t {
        Some(s) => Some(owned(s)),
        None => None,
    }
}

pub open spec fn opt_chars(o: Option<String>) -> Option<Seq<char>> {
    match o {
        Some(s) => Some(s@),
        None => None,
    }
}

/// The pane id of the plugin pane labelled `label` in the focused workspace.
pub fn get_plugin_pane_id(pane_json: &Json, label: &str) -> (r: Option<String>)
    ensures
        opt_chars(r) == plugin_pane_id_of(pane_json.value(), label@),
{
    let ps = match panes(pane_json) {
        Some(ps) => ps,
        None => return None,
    };
    let focused = match find_focused(ps) {
        Some(f) => f,
        None => return None,
    };
    let ws = match get_text(focused, "workspace_id") {
        Some(w) => w,
        None => return None,
    };
    match find_pane(ps, ws, Some(label)) {
        Some(p) => text_out(get_text(p, "pane_id")),
        None => None,
    }
}

fn cwd_of_pane(p: &Json) -> (r: Option<String>)
    ensures
        opt_chars(r) == pane_cwd(p.value()),
{
    let v = match p.get("foreground_cwd") {
        Some(v) => Some(v),
        None => p.get("cwd"),
    };
    match v {
        Some(v) => text_out(v.as_str()),
        None => None,
    }
}

/// The working directory of the focused workspace, read from herdr's pane list.
pub fn get_workspace_cwd(pane_json: &Json) -> (r: Option<String>)
    ensures
        opt_chars(r) == workspace_cwd_of(pane_json.value()),
{
    let ps = match panes(pane_json) {
        Some(ps) => ps,
        None => return None,
    };
    let focused = match find_focused(ps) {
        Some(f) => f,
        None => return None,
    };
    let ws = match get_text(focused, "workspace_id") {
        Some(w) => w,
        None => return None,
    };
    proof {
        reveal_strlit("shell");
    }
    match find_pane(ps, ws, Some("shell")) {
        Some(p) => cwd_of_pane(p),
        None => match find_pane(ps, ws, None) {
            Some(p) => cwd_of_pane(p),
            None => None,
        },
    }
}

/// The focused workspace of herdr's snapshot.
pub fn get_focused_workspace_id(snapshot: &Json) -> (r: Option<String>)
    ensures
        opt_chars(r) == focused_workspace_id_of(snapshot.value()),
{
    match snapshot.get("result") {
        Some(res) => match res.get("snapshot") {
            Some(snap) => text_out(get_text(snap, "focused_workspace_id")),
            None => None,
        },
        None => None,
    }
}

/// The pane id in herdr's plugin context (`HERDR_PLUGIN_CONTEXT_JSON`).
pub open spec fn context_pane_id(context: Seq<char>) -> Option<Seq<char>> {
    match json_document(encode_utf8(context)) {
        Some(v) => text_of(member(v, "pane_id"@)),
        None => None,
    }
}

/// The pane id in herdr's plugin context.
pub fn pane_id_from_context(context: &str) -> (r: Option<String>)
    ensures
        opt_chars(r) == context_pane_id(context@),
{
    match parse_json(context.as_bytes()) {
        Ok(v) => text_out(get_text(&v, "pane_id")),
        Err(_) => None,
    }
}

/// The message of a herdr error document (`/error/message`).
pub open spec fn error_message_in(text: Seq<char>) -> Option<Seq<char>> {
    match json_document(encode_utf8(text)) {
        Some(v) => text_of(member_of(member(v, "error"@), "message"@)),
        None => None,
    }
}

/// What a failed herdr command reports: for its error output, then its
/// standard output, the message of a JSON error document, or else the text
/// itself when it is not blank; failing both, the exit status.
pub open spec fn command_error_of(stderr: Seq<char>, stdout: Seq<char>, status: Seq<char>) -> Seq<char> {
    match error_message_in(stderr) {
        Some(m) => m,
        None => if trim(stderr).len() > 0 {
            trim(stderr)
        } else {
            match error_message_in(stdout) {
                Some(m) => m,
                None => if trim(stdout).len() > 0 {
                    trim(stdout)
                } else {
                    "herdr exited with "@ + status
                },
            }
        },
    }
}

fn error_message(text: &str) -> (r: Option<String>)
    ensures
        opt_chars(r) == error_message_in(text@),
{
    match parse_json(text.as_bytes()) {
        Ok(v) => match v.get("error") {
            Some(e) => text_out(get_text(e, "message")),
            None => None,
        },
        Err(_) => None,
    }
}

/// The message for a failed herdr command, from its error output, its
/// standard output and its exit status as text.
pub fn command_error(stderr: &str, stdout: &str, status: &str) -> (r: String)
    ensures
        r@ == command_error_of(stderr@, stdout@, status@),
{
    match error_message(stderr) {
        Some(m) => return m,
        None => {},
    }
    let t = trim_str(stderr);
    if t.unicode_len() > 0 {
        return owned(t);
    }
    match error_message(stdout) {
        Some(m) => return m,
        None => {},
    }
    let t = trim_str(stdout);
    if t.unicode_len() > 0 {
        return owned(t);
    }
    concat("herdr exited with ", status)
}

} // verus!
