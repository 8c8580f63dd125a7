//! Removing a worktree: what the plugin reads of the focused workspace,
//! what it hands to the confirmation pane, what the dialog shows and
//! what each answer leads to.
use vstd::prelude::*;
use crate::config::{WorktreeBackend, KeyCode};
use crate::json::{Json, JsonValue, member, member_of, text_of, array_of, json_values, lemma_values_index, get_text};
use crate::herdr::{first_where};
use crate::wt::{RemovalSafety, BranchEntry, EntryView, entry_views, removal_allowed, safety_text};
use crate::text::{owned, concat3, str_eq};

verus! {

/// The worktree of a herdr workspace.
#[derive(Debug)]
pub struct WorkspaceWorktree {
    pub checkout_path: String,
    pub repo_name: String,
    pub repo_root: String,
}

pub open spec fn in_workspace(w: JsonValue, id: Seq<char>) -> bool {
    text_of(member(w, "workspace_id"@)) == Some(id)
}

/// The checkout path, repository name and repository root of the worktree
/// of workspace `id` in herdr's snapshot, or what is missing.
pub open spec fn workspace_worktree_of(snapshot: JsonValue, id: Seq<char>) -> Result<
    (Seq<char>, Seq<char>, Seq<char>),
    Seq<char>,
> {
    match array_of(
        member_of(member_of(member(snapshot, "result"@), "snapshot"@), "workspaces"@),
    ) {
        None => Err("Herdr snapshot has no workspaces"@),
        Some(ws) => match first_where(ws, |w: JsonValue| in_workspace(w, id)) {
            None => Err("Focused workspace was not found"@),
            Some(w) => match member(w, "worktree"@) {
                None => Err("Focused workspace has no worktree"@),
                Some(wt) => match text_of(member(wt, "checkout_path"@)) {
                    None => Err("Focused workspace has no checkout path"@),
                    Some(path) => match text_of(member(wt, "repo_name"@)) {
                        None => Err("Focused workspace has no repository name"@),
                        Some(name) => match text_of(member(wt, "repo_root"@)) {
                            None => Err("Focused workspace has no repository root"@),
                            Some(root) => Ok((path, name, root)),
                        },
                    },
                },
            },
        },
    }
}

proof fn lemma_first_where_step(s: Seq<JsonValue>, f: spec_fn(JsonValue) -> bool, i: int)
    requires
        0 <= i < s.len(),
    ensures
        first_where(s.skip(i), f) == (if f(s[i]) {
            Some(s[i])
        } else {
            first_where(s.skip(i + 1), f)
        }),
{
    assert(s.skip(i).drop_first() =~= s.skip(i + 1));
}

fn find_workspace<'a>(ws: &'a Vec<Json>, id: &str) -> (r: Option<&'a Json>)
    ensures
        r is Some == first_where(json_values(ws@), |w: JsonValue| in_workspace(w, id@)) is Some,
        r matches Some(x) ==> first_where(json_values(ws@), |w: JsonValue| in_workspace(w, id@))
            == Some(x.value()),
{
    let ghost f = |w: JsonValue| in_workspace(w, id@);
    let ghost vals = json_values(ws@);
    proof {
        lemma_values_index(ws@);
        assert(vals.skip(0) =~= vals);
    }
    let n = ws.len();
    let mut i: usize = 0;
    while i < n
        invariant
            n == ws@.len(),
            vals == json_values(ws@),
            vals.len() == n,
            forall|j: int| 0 <= j < n ==> #[trigger] vals[j] == ws@[j].value(),
            i <= n,
            f == (|w: JsonValue| in_workspace(w, id@)),
            first_where(vals, f) == first_where(vals.skip(i as int), f),
        decreases n - i,
    {
        proof {
            lemma_first_where_step(vals, f, i as int);
        }
        let matched = match get_text(&ws[i], "workspace_id") {
            Some(w) => str_eq(w, id),
            None => false,
        };
        if matched {
            return Some(&ws[i]);
        }
        i = i + 1;
    }
    assert(vals.skip(n as int) =~= Seq::<JsonValue>::empty());
    None
}

/// Reads the worktree of workspace `workspace_id` from herdr's snapshot.
pub fn workspace_worktree(snapshot: &Json, workspace_id: &str) -> (r: Result<WorkspaceWorktree, String>)
    ensures
        match workspace_worktree_of(snapshot.value(), workspace_id@) {
            Ok((path, name, root)) => r matches Ok(w) && w.checkout_path@ == path && w.repo_name@
                == name && w.repo_root@ == root,
            Err(msg) => r matches Err(e) && e@ == msg,
        },
{
    let workspaces = match snapshot.get("result") {
        Some(res) => match res.get("snapshot") {
            Some(snap) => match snap.get("workspaces") {
                Some(w) => w.as_array(),
                None => None,
            },
            None => None,
        },
        None => None,
    };
    let workspaces = match workspaces {
        Some(w) => w,
        None => return Err(owned("Herdr snapshot has no workspaces")),
    };
    let workspace = match find_workspace(workspaces, workspace_id) {
        Some(w) => w,
        None => return Err(owned("Focused workspace was not found")),
    };
    let worktree = match workspace.get("worktree") {
        Some(w) => w,
        None => return Err(owned("Focused workspace has no worktree")),
    };
    let checkout_path = match get_text(worktree, "checkout_path") {
        Some(p) => owned(p),
        None => return Err(owned("Focused workspace has no checkout path")),
    };
    let repo_name = match get_text(worktree, "repo_name") {
        Some(p) => owned(p),
        None => return Err(owned("Focused workspace has no repository name")),
    };
    let repo_root = match get_text(worktree, "repo_root") {
        Some(p) => owned(p),
        None => return Err(owned("Focused workspace has no repository root")),
    };
    Ok(WorkspaceWorktree { checkout_path, repo_name, repo_root })
}

/// The branch of the first entry whose worktree is at `path`.
pub open spec fn branch_at(es: Seq<EntryView>, path: Seq<char>) -> Option<Seq<char>>
    decreases es.len(),
{
    if es.len() == 0 {
        None
    } else if es[0].path == Some(path) {
        Some(es[0].branch)
    } else {
        branch_at(es.drop_first(), path)
    }
}

proof fn lemma_branch_at_step(es: Seq<EntryView>, path: Seq<char>, i: int)
    requires
        0 <= i < es.len(),
    ensures
        branch_at(es.skip(i), path) == (if es[i].path == Some(path) {
            Some(es[i].branch)
        } else {
            branch_at(es.skip(i + 1), path)
        }),
{
    assert(es.skip(i).drop_first() =~= es.skip(i + 1));
}

/// The branch checked out at `checkout_path`, from the listed entries.
pub fn branch_for_checkout(entries: &[BranchEntry], checkout_path: &str) -> (r: Result<String, String>)
    ensures
        match branch_at(entry_views(entries@), checkout_path@) {
            Some(b) => r matches Ok(s) && s@ == b,
            None => r matches Err(e) && e@ == "Could not determine the worktree branch"@,
        },
{
    let ghost es = entry_views(entries@);
    let n = entries.len();
    let mut i: usize = 0;
    assert(es.skip(0) =~= es);
    while i < n
        invariant
            n == entries@.len(),
            es == entry_views(entries@),
            es.len() == n,
            i <= n,
            branch_at(es, checkout_path@) == branch_at(es.skip(i as int), checkout_path@),
        decreases n - i,
    {
        proof {
            lemma_branch_at_step(es, checkout_path@, i as int);
        }
        assert(es[i as int] == entries@[i as int]@);
        let e = &entries[i];
        let here = match &e.path {
            Some(p) => str_eq(p.as_str(), checkout_path),
            None => false,
        };
        if here {
            return Ok(owned(e.branch.as_str()));
        }
        i = i + 1;
    }
    assert(es.skip(n as int) =~= Seq::<EntryView>::empty());
    Err(owned("Could not determine the worktree branch"))
}

/// The primary worktree is never removed.
pub fn refuse_primary(repo_root: &str, primary_worktree: &str) -> (r: Result<(), String>)
    ensures
        repo_root@ == primary_worktree@ ==> (r matches Err(e) && e@
            == "Refusing to remove the primary worktree"@),
        repo_root@ != primary_worktree@ ==> r is Ok,
{
    if str_eq(repo_root, primary_worktree) {
        Err(owned("Refusing to remove the primary worktree"))
    } else {
        Ok(())
    }
}

/// `repo: branch`, the way the dialog and the notifications name a worktree.
pub fn worktree_label(repo_name: &str, branch: &str) -> (r: String)
    ensures
        r@ == repo_name@ + ": "@ + branch@,
{
    concat3(repo_name, ": ", branch)
}

/// The backend as passed in `HERDR_REMOVE_BACKEND`.
pub fn backend_env_value(backend: WorktreeBackend) -> (r: &'static str)
    ensures
        r@ == (match backend {
            WorktreeBackend::Worktrunk => "worktrunk"@,
            WorktreeBackend::Native => "native"@,
        }),
{
    match backend {
        WorktreeBackend::Worktrunk => "worktrunk",
        WorktreeBackend::Native => "native",
    }
}

/// The backend named by `HERDR_REMOVE_BACKEND`: native only when it says
/// `native`.
pub fn backend_from_env(value: Option<&str>) -> (r: WorktreeBackend)
    ensures
        r == (if value matches Some(v) && v@ == "native"@ {
            WorktreeBackend::Native
        } else {
            WorktreeBackend::Worktrunk
        }),
{
    match value {
        Some(v) => if str_eq(v, "native") {
            WorktreeBackend::Native
        } else {
            WorktreeBackend::Worktrunk
        },
        None => WorktreeBackend::Worktrunk,
    }
}

/// The verdict named by `HERDR_REMOVE_SAFETY`, unknown when it names none.
pub fn safety_from_env(value: Option<&str>) -> (r: RemovalSafety)
    ensures
        r == (match value {
            Some(v) => match crate::wt::safety_named(v@) {
                Some(s) => s,
                None => RemovalSafety::Unknown,
            },
            None => RemovalSafety::Unknown,
        }),
{
    match value {
        Some(v) => match RemovalSafety::from_env_value(v) {
            Some(s) => s,
            None => RemovalSafety::Unknown,
        },
        None => RemovalSafety::Unknown,
    }
}

/// What the confirmation pane is told, as `(name, value)` pairs.
pub open spec fn confirm_env_of(
    workspace_id: Seq<char>,
    checkout_path: Seq<char>,
    repo_root: Seq<char>,
    repo_name: Seq<char>,
    branch: Seq<char>,
    display_text: Seq<char>,
    safety: RemovalSafety,
    backend: WorktreeBackend,
) -> Seq<(Seq<char>, Seq<char>)> {
    seq![
        ("HERDR_REMOVE_WORKSPACE_ID"@, workspace_id),
        ("HERDR_REMOVE_CHECKOUT_PATH"@, checkout_path),
        ("HERDR_REMOVE_REPO_ROOT"@, repo_root),
        ("HERDR_REMOVE_REPO_NAME"@, repo_name),
        ("HERDR_REMOVE_BRANCH"@, branch),
        ("HERDR_REMOVE_DISPLAY_TEXT"@, display_text),
        ("HERDR_REMOVE_SAFETY"@, safety_text(safety)),
        (
            "HERDR_REMOVE_BACKEND"@,
            match backend {
                WorktreeBackend::Worktrunk => "worktrunk"@,
                WorktreeBackend::Native => "native"@,
            },
        ),
    ]
}

pub open spec fn pair_views(v: Seq<(String, String)>) -> Seq<(Seq<char>, Seq<char>)> {
    v.map_values(|p: (String, String)| (p.0@, p.1@))
}

fn pair(k: &str, v: &str) -> (r: (String, String))
    ensures
        r.0@ == k@,
        r.1@ == v@,
{
    (owned(k), owned(v))
}

/// The variables for the confirmation pane.
pub fn confirm_remove_env(
    workspace_id: &str,
    checkout_path: &str,
    repo_root: &str,
    repo_name: &str,
    branch: &str,
    display_text: &str,
    safety: RemovalSafety,
    backend: WorktreeBackend,
) -> (r: Vec<(String, String)>)
    ensures
        pair_views(r@) == confirm_env_of(
            workspace_id@,
            checkout_path@,
            repo_root@,
            repo_name@,
            branch@,
            display_text@,
            safety,
            backend,
        ),
{
    let mut r: Vec<(String, String)> = Vec::new();
    r.push(pair("HERDR_REMOVE_WORKSPACE_ID", workspace_id));
    r.push(pair("HERDR_REMOVE_CHECKOUT_PATH", checkout_path));
    r.push(pair("HERDR_REMOVE_REPO_ROOT", repo_root));
    r.push(pair("HERDR_REMOVE_REPO_NAME", repo_name));
    r.push(pair("HERDR_REMOVE_BRANCH", branch));
    r.push(pair("HERDR_REMOVE_DISPLAY_TEXT", display_text));
    r.push(pair("HERDR_REMOVE_SAFETY", safety.as_env_value()));
    r.push(pair("HERDR_REMOVE_BACKEND", backend_env_value(backend)));
    assert(pair_views(r@) =~= confirm_env_of(
        workspace_id@,
        checkout_path@,
        repo_root@,
        repo_name@,
        branch@,
        display_text@,
        safety,
        backend,
    ));
    r
}

/// The branch that `wt remove` reports, or `<unknown>`.
pub fn removed_branch(report: &Json) -> (r: String)
    ensures
        r@ == (match text_of(member(report.value(), "branch"@)) {
            Some(b) => b,
            None => "<unknown>"@,
        }),
{
    match get_text(report, "branch") {
        Some(b) => owned(b),
        None => owned("<unknown>"),
    }
}

/// What follows a removal: deleting the branch (only the native backend on
/// a safe worktree; Worktrunk deletes it itself) and closing the workspace
/// (only with Worktrunk).
pub fn after_removal(backend: WorktreeBackend, safety: RemovalSafety) -> (r: (bool, bool))
    ensures
        r.0 == (backend == WorktreeBackend::Native && safety == RemovalSafety::Safe),
        r.1 == (backend == WorktreeBackend::Worktrunk),
{
    (
        backend == WorktreeBackend::Native && safety == RemovalSafety::Safe,
        backend == WorktreeBackend::Worktrunk,
    )
}

/// The colour in which the dialog shows its verdict.
#[derive(Debug, Clone, Copy, PartialEq, Eq, Structural)]
pub enum Tone {
    Good,
    Warning,
    Bad,
}

/// The dialog's verdict line.
pub open spec fn confirm_message_of(safety: RemovalSafety, backend: WorktreeBackend) -> (Seq<char>, Tone) {
    match safety {
        RemovalSafety::Safe => match backend {
            WorktreeBackend::Worktrunk => (
                "Safe to remove: worktree and branch will be deleted."@,
                Tone::Good,
            ),
            WorktreeBackend::Native => (
                "Safe to remove: worktree will be removed; branch will be kept."@,
                Tone::Good,
            ),
        },
        RemovalSafety::Dirty => ("Cannot remove: worktree has uncommitted changes."@, Tone::Bad),
        RemovalSafety::BranchCheckedOutElsewhere => (
            "Safe to remove: branch is checked out elsewhere."@,
            Tone::Warning,
        ),
        RemovalSafety::BranchNotIntegrated => (
            "Safe to remove: branch changes are not integrated."@,
            Tone::Warning,
        ),
        RemovalSafety::Unknown => ("Cannot verify safe removal."@, Tone::Warning),
    }
}

pub fn confirm_message(safety: RemovalSafety, backend: WorktreeBackend) -> (r: (&'static str, Tone))
    ensures
        (r.0@, r.1) == confirm_message_of(safety, backend),
{
    match safety {
        RemovalSafety::Safe => match backend {
            WorktreeBackend::Worktrunk => (
                "Safe to remove: worktree and branch will be deleted.",
                Tone::Good,
            ),
            WorktreeBackend::Native => (
                "Safe to remove: worktree will be removed; branch will be kept.",
                Tone::Good,
            ),
        },
        RemovalSafety::Dirty => ("Cannot remove: worktree has uncommitted changes.", Tone::Bad),
        RemovalSafety::BranchCheckedOutElsewhere => (
            "Safe to remove: branch is checked out elsewhere.",
            Tone::Warning,
        ),
        RemovalSafety::BranchNotIntegrated => (
            "Safe to remove: branch changes are not integrated.",
            Tone::Warning,
        ),
        RemovalSafety::Unknown => ("Cannot verify safe removal.", Tone::Warning),
    }
}

/// The keys the dialog offers.
pub fn confirm_hint(safety: RemovalSafety) -> (r: &'static str)
    ensures
        r@ == (if removal_allowed(safety) {
            "[y] Remove    [n/Esc] Cancel"@
        } else {
            "[Esc] Cancel"@
        }),
{
    if safety.allows_removal() {
        "[y] Remove    [n/Esc] Cancel"
    } else {
        "[Esc] Cancel"
    }
}

/// The dialog's answer to a key: `y` removes when removal is allowed;
/// `n` and Escape cancel; other keys are ignored.
pub open spec fn confirm_answer(code: KeyCode, safety: RemovalSafety) -> Option<bool> {
    match code {
        KeyCode::Char(c) => if (c == 'y' || c == 'Y') && removal_allowed(safety) {
            Some(true)
        } else if c == 'n' || c == 'N' {
            Some(false)
        } else {
            None
        },
        KeyCode::Esc => Some(false),
        _ => None,
    }
}

pub fn confirm_key(code: KeyCode, safety: RemovalSafety) -> (r: Option<bool>)
    ensures
        r == confirm_answer(code, safety),
{
    match code {
        KeyCode::Char(c) => if (c == 'y' || c == 'Y') && safety.allows_removal() {
            Some(true)
        } else if c == 'n' || c == 'N' {
            Some(false)
        } else {
            None
        },
        KeyCode::Esc => Some(false),
        _ => None,
    }
}

} // verus!
