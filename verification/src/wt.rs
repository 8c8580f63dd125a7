//! Worktrunk's view of a repository: the entries of `wt list` and whether
//! a worktree can be removed safely.
use vstd::prelude::*;
use crate::json::{
    get_text, get_flag,
    Json, JsonValue, member, member_of, text_of, bool_of, array_of, is_object, json_values,
    lemma_values_index,
};
use crate::text::{owned, concat, concat3, str_eq, trim, trim_str};
use crate::herdr::{texts, words};

verus! {

/// How safe it is to remove a worktree.
#[derive(Debug, Clone, Copy, PartialEq, Eq, Structural)]
pub enum RemovalSafety {
    Safe,
    Dirty,
    BranchCheckedOutElsewhere,
    BranchNotIntegrated,
    Unknown,
}

/// The text that carries a safety verdict to the confirmation pane.
pub open spec fn safety_text(s: RemovalSafety) -> Seq<char> {
    match s {
        RemovalSafety::Safe => "safe"@,
        RemovalSafety::Dirty => "dirty"@,
        RemovalSafety::BranchCheckedOutElsewhere => "branch-checked-out-elsewhere"@,
        RemovalSafety::BranchNotIntegrated => "branch-not-integrated"@,
        RemovalSafety::Unknown => "unknown"@,
    }
}

/// The verdict a text names, if it names one.
pub open spec fn safety_named(v: Seq<char>) -> Option<RemovalSafety> {
    if v == "safe"@ {
        Some(RemovalSafety::Safe)
    } else if v == "dirty"@ {
        Some(RemovalSafety::Dirty)
    } else if v == "branch-checked-out-elsewhere"@ {
        Some(RemovalSafety::BranchCheckedOutElsewhere)
    } else if v == "branch-not-integrated"@ {
        Some(RemovalSafety::BranchNotIntegrated)
    } else if v == "unknown"@ {
        Some(RemovalSafety::Unknown)
    } else {
        None
    }
}

/// Removal may go ahead: the worktree is clean and its state is known.
pub open spec fn removal_allowed(s: RemovalSafety) -> bool {
    s == RemovalSafety::Safe || s == RemovalSafety::BranchCheckedOutElsewhere || s
        == RemovalSafety::BranchNotIntegrated
}

impl RemovalSafety {
    /// Whether the dialog offers removal: not for a dirty worktree nor for
    /// one whose state is unknown.
    pub fn allows_removal(&self) -> (r: bool)
        ensures
            r == removal_allowed(*self),
    {
        match self {
            RemovalSafety::Safe | RemovalSafety::BranchCheckedOutElsewhere
            | RemovalSafety::BranchNotIntegrated => true,
            _ => false,
        }
    }

    /// The verdict as the text passed in `HERDR_REMOVE_SAFETY`.
    pub fn as_env_value(&self) -> (r: &'static str)
        ensures
            r@ == safety_text(*self),
    {
        match self {
            RemovalSafety::Safe => "safe",
            RemovalSafety::Dirty => "dirty",
            RemovalSafety::BranchCheckedOutElsewhere => "branch-checked-out-elsewhere",
            RemovalSafety::BranchNotIntegrated => "branch-not-integrated",
            RemovalSafety::Unknown => "unknown",
        }
    }

    /// The verdict that `value` names.
    pub fn from_env_value(value: &str) -> (r: Option<RemovalSafety>)
        ensures
            r == safety_named(value@),
    {
        if str_eq(value, "safe") {
            Some(RemovalSafety::Safe)
        } else if str_eq(value, "dirty") {
            Some(RemovalSafety::Dirty)
        } else if str_eq(value, "branch-checked-out-elsewhere") {
            Some(RemovalSafety::BranchCheckedOutElsewhere)
        } else if str_eq(value, "branch-not-integrated") {
            Some(RemovalSafety::BranchNotIntegrated)
        } else if str_eq(value, "unknown") {
            Some(RemovalSafety::Unknown)
        } else {
            None
        }
    }
}

/// Reading back the text of a verdict gives the verdict.
pub proof fn lemma_safety_text_round_trip(s: RemovalSafety)
    ensures
        safety_named(safety_text(s)) == Some(s),
{
    reveal_strlit("safe");
    reveal_strlit("dirty");
    reveal_strlit("branch-checked-out-elsewhere");
    reveal_strlit("branch-not-integrated");
    reveal_strlit("unknown");
    assert("safe"@.len() == 4);
    assert("dirty"@.len() == 5);
    assert("unknown"@.len() == 7);
    assert("branch-not-integrated"@.len() == 21);
    assert("branch-checked-out-elsewhere"@.len() == 28);
}

/// What an entry of the picker is.
#[derive(Debug, Clone, Copy, PartialEq, Eq, Structural)]
pub enum EntryKind {
    WorktreeCurrent,
    WorktreeMain,
    WorktreeOther,
    BranchLocal,
    BranchRemote,
    NewWorktree,
}

pub open spec fn is_worktree_kind(k: EntryKind) -> bool {
    k == EntryKind::WorktreeCurrent || k == EntryKind::WorktreeMain || k
        == EntryKind::WorktreeOther
}

pub open spec fn opt_text(o: Option<String>) -> Option<Seq<char>> {
    match o {
        Some(s) => Some(s@),
        None => None,
    }
}

/// The mathematical value of a `BranchEntry`.
pub struct EntryView {
    pub kind: EntryKind,
    pub branch: Seq<char>,
    pub path: Option<Seq<char>>,
    pub symbols: Seq<char>,
    pub remote: Option<Seq<char>>,
    pub upstream: Option<Seq<char>>,
}

/// A worktree or a branch, as the picker lists it.
#[derive(Debug)]
pub struct BranchEntry {
    pub kind: EntryKind,
    pub branch: String,
    pub path: Option<String>,
    pub symbols: String,
    pub remote: Option<String>,
    pub upstream: Option<String>,
}

impl View for BranchEntry {
    type V = EntryView;

    open spec fn view(&self) -> EntryView {
        EntryView {
            kind: self.kind,
            branch: self.branch@,
            path: opt_text(self.path),
            symbols: self.symbols@,
            remote: opt_text(self.remote),
            upstream: opt_text(self.upstream),
        }
    }
}

pub open spec fn entry_views(s: Seq<BranchEntry>) -> Seq<EntryView> {
    s.map_values(|e: BranchEntry| e@)
}

/// The name by which git knows the entry: `remote/branch` for a remote
/// branch, the branch name otherwise.
pub open spec fn reference_of(e: EntryView) -> Seq<char> {
    match e.remote {
        Some(r) => r + "/"@ + e.branch,
        None => e.branch,
    }
}

pub fn clone_text(o: &Option<String>) -> (r: Option<String>)
    ensures
        opt_text(r) == opt_text(*o),
{
    match o {
        Some(s) => Some(owned(s.as_str())),
        None => None,
    }
}

impl Clone for BranchEntry {
    fn clone(&self) -> (r: Self)
        ensures
            r@ == self@,
    {
        BranchEntry {
            kind: self.kind,
            branch: owned(self.branch.as_str()),
            path: clone_text(&self.path),
            symbols: owned(self.symbols.as_str()),
            remote: clone_text(&self.remote),
            upstream: clone_text(&self.upstream),
        }
    }
}

impl BranchEntry {
    /// The name by which git knows the entry.
    pub fn reference(&self) -> (r: String)
        ensures
            r@ == reference_of(self@),
    {
        match &self.remote {
            Some(remote) => concat3(remote.as_str(), "/", self.branch.as_str()),
            None => owned(self.branch.as_str()),
        }
    }
}


/// The path of the worktree an item of `wt list` describes.
pub open spec fn worktree_path(item: JsonValue) -> Option<Seq<char>> {
    text_of(member_of(member(item, "worktree"@), "path"@))
}

/// The first item whose worktree is at `path`.
pub open spec fn item_at_path(items: Seq<JsonValue>, path: Seq<char>) -> Option<JsonValue>
    decreases items.len(),
{
    if items.len() == 0 {
        None
    } else if worktree_path(items[0]) == Some(path) {
        Some(items[0])
    } else {
        item_at_path(items.drop_first(), path)
    }
}

/// The change flag `key` of a worktree is set.
pub open spec fn change_set(worktree: JsonValue, key: Seq<char>) -> bool {
    bool_of(member_of(member(worktree, "changes"@), key)) == Some(true)
}

/// The worktree has staged, modified, untracked, renamed, deleted or
/// conflicted changes.
pub open spec fn has_changes(worktree: JsonValue) -> bool {
    change_set(worktree, "staged"@) || change_set(worktree, "modified"@) || change_set(
        worktree,
        "untracked"@,
    ) || change_set(worktree, "renamed"@) || change_set(worktree, "deleted"@) || change_set(
        worktree,
        "conflicted"@,
    )
}

/// How safe it is to remove the worktree at `path`, by the `wt list`
/// document `list`: unknown when the worktree is not listed; dirty when
/// it has changes; then whether its branch is checked out elsewhere; then
/// safe when its state is `empty` or `integrated`, not integrated for any
/// other state, unknown without a state.
pub open spec fn removal_safety_of(list: JsonValue, path: Seq<char>) -> RemovalSafety {
    let item = match array_of(member(list, "items"@)) {
        Some(items) => item_at_path(items, path),
        None => None,
    };
    match item {
        None => RemovalSafety::Unknown,
        Some(item) => match member(item, "worktree"@) {
            None => RemovalSafety::Unknown,
            Some(wt) => if has_changes(wt) {
                RemovalSafety::Dirty
            } else if bool_of(member(wt, "duplicate_branch"@)) == Some(true) {
                RemovalSafety::BranchCheckedOutElsewhere
            } else {
                match text_of(member_of(member(item, "display"@), "state"@)) {
                    Some(state) => if state == "empty"@ || state == "integrated"@ {
                        RemovalSafety::Safe
                    } else {
                        RemovalSafety::BranchNotIntegrated
                    },
                    None => RemovalSafety::Unknown,
                }
            },
        },
    }
}

fn item_path(item: &Json) -> (r: Option<&str>)
    ensures
        r is Some == worktree_path(item.value()) is Some,
        r matches Some(s) ==> worktree_path(item.value()) == Some(s@),
{
    match item.get("worktree") {
        Some(w) => get_text(w, "path"),
        None => None,
    }
}

fn change_flag(worktree: &Json, key: &str) -> (r: bool)
    ensures
        r == change_set(worktree.value(), key@),
{
    match worktree.get("changes") {
        Some(c) => get_flag(c, key),
        None => false,
    }
}

proof fn lemma_item_at_path_step(items: Seq<JsonValue>, path: Seq<char>, i: int)
    requires
        0 <= i < items.len(),
    ensures
        item_at_path(items.skip(i), path) == (if worktree_path(items[i]) == Some(path) {
            Some(items[i])
        } else {
            item_at_path(items.skip(i + 1), path)
        }),
{
    assert(items.skip(i).drop_first() =~= items.skip(i + 1));
}

fn find_item<'a>(items: &'a Vec<Json>, path: &str) -> (r: Option<&'a Json>)
    ensures
        r is Some == item_at_path(json_values(items@), path@) is Some,
        r matches Some(x) ==> item_at_path(json_values(items@), path@) == Some(x.value()),
{
    let n = items.len();
    let ghost vals = json_values(items@);
    proof {
        lemma_values_index(items@);
        assert(vals.skip(0) =~= vals);
    }
    let mut i: usize = 0;
    while i < n
        invariant
            n == items@.len(),
            vals == json_values(items@),
            vals.len() == n,
            forall|j: int| 0 <= j < n ==> #[trigger] vals[j] == items@[j].value(),
            i <= n,
            item_at_path(vals, path@) == item_at_path(vals.skip(i as int), path@),
        decreases n - i,
    {
        proof {
            lemma_item_at_path_step(vals, path@, i as int);
        }
        match item_path(&items[i]) {
            Some(p) => {
                if str_eq(p, path) {
                    return Some(&items[i]);
                }
            },
            None => {},
        }
        i = i + 1;
    }
    assert(vals.skip(n as int) =~= Seq::<JsonValue>::empty());
    None
}

/// How safe it is to remove the worktree at `checkout_path`, read from
/// the `wt list` document `list`.
pub fn removal_safety(list: &Json, checkout_path: &str) -> (r: RemovalSafety)
    ensures
        r == removal_safety_of(list.value(), checkout_path@),
{
    let item = match list.get("items") {
        Some(items) => match items.as_array() {
            Some(items) => find_item(items, checkout_path),
            None => None,
        },
        None => None,
    };
    let item = match item {
        Some(item) => item,
        None => return RemovalSafety::Unknown,
    };
    let worktree = match item.get("worktree") {
        Some(w) => w,
        None => return RemovalSafety::Unknown,
    };
    let dirty = change_flag(worktree, "staged") || change_flag(worktree, "modified")
        || change_flag(worktree, "untracked") || change_flag(worktree, "renamed") || change_flag(
        worktree,
        "deleted",
    ) || change_flag(worktree, "conflicted");
    if dirty {
        return RemovalSafety::Dirty;
    }
    if get_flag(worktree, "duplicate_branch") {
        return RemovalSafety::BranchCheckedOutElsewhere;
    }
    let state = match item.get("display") {
        Some(d) => get_text(d, "state"),
        None => None,
    };
    match state {
        Some(s) => if str_eq(s, "empty") || str_eq(s, "integrated") {
            RemovalSafety::Safe
        } else {
            RemovalSafety::BranchNotIntegrated
        },
        None => RemovalSafety::Unknown,
    }
}


/// The kind of a `wt list` item: the current, main or another worktree
/// when it has a worktree, a remote branch when it names a remote, a
/// local branch otherwise.
pub open spec fn kind_of(item: JsonValue) -> EntryKind {
    match member(item, "worktree"@) {
        Some(wt) => if bool_of(member(wt, "current"@)) == Some(true) {
            EntryKind::WorktreeCurrent
        } else if bool_of(member(wt, "main"@)) == Some(true) {
            EntryKind::WorktreeMain
        } else {
            EntryKind::WorktreeOther
        },
        None => if member(item, "remote"@) is Some {
            EntryKind::BranchRemote
        } else {
            EntryKind::BranchLocal
        },
    }
}

/// `remote/branch` of the item's upstream, when the upstream is an object
/// with both texts.
pub open spec fn upstream_of(item: JsonValue) -> Option<Seq<char>> {
    let u = member(item, "upstream"@);
    if is_object(u) {
        match (text_of(member_of(u, "remote"@)), text_of(member_of(u, "branch"@))) {
            (Some(r), Some(b)) => Some(r + "/"@ + b),
            _ => None,
        }
    } else {
        None
    }
}

/// The entry an item of `wt list` describes; items without a branch name
/// describe none.
pub open spec fn entry_of(item: JsonValue) -> Option<EntryView> {
    match text_of(member(item, "branch"@)) {
        None => None,
        Some(branch) => Some(
            EntryView {
                kind: kind_of(item),
                branch,
                path: worktree_path(item),
                symbols: match text_of(member_of(member(item, "display"@), "symbols"@)) {
                    Some(s) => s,
                    None => Seq::empty(),
                },
                remote: text_of(member(item, "remote"@)),
                upstream: upstream_of(item),
            },
        ),
    }
}

/// A worktree entry with a path is kept only while that path exists.
pub open spec fn needs_path_check(e: EntryView) -> bool {
    is_worktree_kind(e.kind) && e.path is Some
}

/// Whether the path of item `i` exists; an item with no answer counts as
/// present.
pub open spec fn present_at(present: Seq<bool>, i: int) -> bool {
    if 0 <= i < present.len() {
        present[i]
    } else {
        true
    }
}

/// The entries of the first `n` items, in order.
pub open spec fn listed_entries(items: Seq<JsonValue>, present: Seq<bool>, n: nat) -> Seq<
    EntryView,
>
    decreases n,
{
    if n == 0 {
        Seq::empty()
    } else {
        let prev = listed_entries(items, present, (n - 1) as nat);
        match entry_of(items[n - 1]) {
            Some(e) => if needs_path_check(e) && !present_at(present, n - 1) {
                prev
            } else {
                prev.push(e)
            },
            None => prev,
        }
    }
}

/// The entries of a `wt list` document (schema 2, items at the top level),
/// given which worktree paths exist.
pub open spec fn wt_list_entries(list: JsonValue, present: Seq<bool>) -> Seq<EntryView> {
    match array_of(member(list, "items"@)) {
        Some(items) => listed_entries(items, present, items.len()),
        None => Seq::empty(),
    }
}

fn text_copy(t: Option<&str>) -> (r: Option<String>)
    ensures
        t is Some == r is Some,
        t matches Some(s) ==> opt_text(r) == Some(s@),
{
    match t {
        Some(s) => Some(owned(s)),
        None => None,
    }
}

fn entry_from_item(item: &Json) -> (r: Option<BranchEntry>)
    ensures
        r is Some == entry_of(item.value()) is Some,
        r matches Some(e) ==> entry_of(item.value()) == Some(e@),
{
    let branch = match get_text(item, "branch") {
        Some(b) => b,
        None => return None,
    };
    let worktree = item.get("worktree");
    let kind = match worktree {
        Some(wt) => if get_flag(wt, "current") {
            EntryKind::WorktreeCurrent
        } else if get_flag(wt, "main") {
            EntryKind::WorktreeMain
        } else {
            EntryKind::WorktreeOther
        },
        None => if item.get("remote").is_some() {
            EntryKind::BranchRemote
        } else {
            EntryKind::BranchLocal
        },
    };
    let path = text_copy(item_path(item));
    let symbols = match item.get("display") {
        Some(d) => match get_text(d, "symbols") {
            Some(s) => owned(s),
            None => String::new(),
        },
        None => String::new(),
    };
    let remote = text_copy(get_text(item, "remote"));
    let upstream = match item.get("upstream") {
        Some(u) => if u.is_object() {
            match (get_text(u, "remote"), get_text(u, "branch")) {
                (Some(r), Some(b)) => Some(concat3(r, "/", b)),
                _ => None,
            }
        } else {
            None
        },
        None => None,
    };
    let e = BranchEntry { kind, branch: owned(branch), path, symbols, remote, upstream };
    assert(e@ == entry_of(item.value())->0);
    Some(e)
}

/// The entries of a `wt list` document, keeping a worktree entry with a
/// path only when `present` says that its path exists (`present[i]` answers
/// for item `i`).
pub fn entries_from_list(list: &Json, present: &Vec<bool>) -> (r: Vec<BranchEntry>)
    ensures
        entry_views(r@) == wt_list_entries(list.value(), present@),
{
    let mut entries: Vec<BranchEntry> = Vec::new();
    let items = match list.get("items") {
        Some(items) => match items.as_array() {
            Some(items) => items,
            None => {
                assert(entry_views(entries@) =~= Seq::<EntryView>::empty());
                return entries;
            },
        },
        None => {
            assert(entry_views(entries@) =~= Seq::<EntryView>::empty());
            return entries;
        },
    };
    let ghost vals = json_values(items@);
    proof {
        lemma_values_index(items@);
    }
    let n = items.len();
    let mut i: usize = 0;
    assert(entry_views(entries@) =~= Seq::<EntryView>::empty());
    while i < n
        invariant
            n == items@.len(),
            vals == json_values(items@),
            vals.len() == n,
            forall|j: int| 0 <= j < n ==> #[trigger] vals[j] == items@[j].value(),
            array_of(member(list.value(), "items"@)) == Some(vals),
            i <= n,
            entry_views(entries@) == listed_entries(vals, present@, i as nat),
        decreases n - i,
    {
        let ghost before = entries@;
        match entry_from_item(&items[i]) {
            Some(e) => {
                let keep = if e.path.is_some() && (e.kind == EntryKind::WorktreeCurrent || e.kind
                    == EntryKind::WorktreeMain || e.kind == EntryKind::WorktreeOther) {
                    if i < present.len() {
                        present[i]
                    } else {
                        true
                    }
                } else {
                    true
                };
                if keep {
                    entries.push(e);
                    assert(entry_views(entries@) =~= entry_views(before).push(e@));
                }
            },
            None => {},
        }
        i = i + 1;
    }
    entries
}

/// Whether `path` exists on disk (`Path::exists`). Trusted and left
/// unstated: the answer depends on the file system.
#[verifier::external_body]
fn path_exists(path: &str) -> bool {
    std::path::Path::new(path).exists()
}

/// The entries of a `wt list` document, dropping worktrees whose path no
/// longer exists on disk. Which paths exist is the file system's answer:
/// the entries are those of `wt_list_entries` for some such answer.
pub fn parse_wt_list(json: &Json) -> (r: Vec<BranchEntry>)
    ensures
        exists|present: Seq<bool>| entry_views(r@) == wt_list_entries(json.value(), present),
{
    let mut present: Vec<bool> = Vec::new();
    match json.get("items") {
        Some(items) => match items.as_array() {
            Some(items) => {
                let n = items.len();
                let mut i: usize = 0;
                while i < n
                    invariant
                        n == items@.len(),
                        i <= n,
                    decreases n - i,
                {
                    let here = match entry_from_item(&items[i]) {
                        Some(e) => match &e.path {
                            Some(p) => path_exists(p.as_str()),
                            None => true,
                        },
                        None => true,
                    };
                    present.push(here);
                    i = i + 1;
                }
            },
            None => {},
        },
        None => {},
    }
    entries_from_list(json, &present)
}


/// How to install Worktrunk, appended to the messages about its absence.
pub const INSTALL_INSTRUCTIONS: &'static str = "Install Worktrunk with: brew install worktrunk (or cargo install worktrunk)";

/// The message when `wt --version` could not be started: missing, or
/// failing for another reason (`error` is the system's message).
pub fn launch_error(not_found: bool, error: &str) -> (r: String)
    ensures
        r@ == (if not_found {
            "Worktrunk (wt) is required but was not found. "@ + INSTALL_INSTRUCTIONS@
        } else {
            "Could not run Worktrunk (wt): "@ + error@
        }),
{
    if not_found {
        concat("Worktrunk (wt) is required but was not found. ", INSTALL_INSTRUCTIONS)
    } else {
        concat("Could not run Worktrunk (wt): ", error)
    }
}

/// The message when `wt --version` ran and failed: its error output when
/// there is any, otherwise its exit status and how to install Worktrunk.
pub fn exit_error(stderr: &str, status: &str) -> (r: String)
    ensures
        r@ == (if trim(stderr@).len() == 0 {
            "Worktrunk (wt) exited with "@ + status@ + ". "@ + INSTALL_INSTRUCTIONS@
        } else {
            "Worktrunk (wt) could not run: "@ + trim(stderr@)
        }),
{
    let t = trim_str(stderr);
    if t.unicode_len() == 0 {
        let mut m = concat3("Worktrunk (wt) exited with ", status, ". ");
        m.append(INSTALL_INSTRUCTIONS);
        m
    } else {
        concat("Worktrunk (wt) could not run: ", t)
    }
}

/// `wt`'s arguments that switch to `branch` (creating it when asked) and
/// report the result as JSON.
pub fn wt_switch(repo_root: &str, branch: &str, create: bool) -> (r: Vec<String>)
    ensures
        texts(r@) == seq!["switch"@, "--no-cd"@, "--format"@, "json"@, "-C"@, repo_root@] + (if create {
            seq!["--create"@]
        } else {
            Seq::empty()
        }) + seq![branch@],
{
    let r = if create {
        words(&["switch", "--no-cd", "--format", "json", "-C", repo_root, "--create", branch])
    } else {
        words(&["switch", "--no-cd", "--format", "json", "-C", repo_root, branch])
    };
    assert(texts(r@) =~= seq!["switch"@, "--no-cd"@, "--format"@, "json"@, "-C"@, repo_root@] + (
    if create {
        seq!["--create"@]
    } else {
        Seq::empty()
    }) + seq![branch@]);
    r
}

/// `wt`'s arguments that create `branch` from `base` and switch to it.
pub fn wt_switch_with_base(repo_root: &str, branch: &str, base: &str) -> (r: Vec<String>)
    ensures
        texts(r@) == seq![
            "switch"@,
            "--no-cd"@,
            "--format"@,
            "json"@,
            "-C"@,
            repo_root@,
            "--create"@,
            "--base"@,
            base@,
            branch@,
        ],
{
    let r = words(
        &["switch", "--no-cd", "--format", "json", "-C", repo_root, "--create", "--base", base, branch],
    );
    assert(texts(r@) =~= seq![
        "switch"@,
        "--no-cd"@,
        "--format"@,
        "json"@,
        "-C"@,
        repo_root@,
        "--create"@,
        "--base"@,
        base@,
        branch@,
    ]);
    r
}

/// `wt`'s arguments that remove the worktree at `checkout_path`.
pub fn wt_remove(repo_root: &str, checkout_path: &str) -> (r: Vec<String>)
    ensures
        texts(r@) == seq![
            "-C"@,
            repo_root@,
            "remove"@,
            "--foreground"@,
            "--format"@,
            "json"@,
            checkout_path@,
        ],
{
    let r = words(&["-C", repo_root, "remove", "--foreground", "--format", "json", checkout_path]);
    assert(texts(r@) =~= seq![
        "-C"@,
        repo_root@,
        "remove"@,
        "--foreground"@,
        "--format"@,
        "json"@,
        checkout_path@,
    ]);
    r
}

/// `wt`'s arguments that list worktrees as JSON (schema 2), with local
/// branches and remote branches when asked.
pub fn wt_list(repo_root: &str, include_branches: bool, include_remotes: bool) -> (r: Vec<String>)
    ensures
        texts(r@) == seq![
            "list"@,
            "--format=json"@,
            "--config-set"@,
            "list.json-schema=2"@,
            "-C"@,
            repo_root@,
        ] + (if include_branches {
            seq!["--branches"@]
        } else {
            Seq::empty()
        }) + (if include_remotes {
            seq!["--remotes"@]
        } else {
            Seq::empty()
        }),
{
    let mut r = words(&["list", "--format=json", "--config-set", "list.json-schema=2", "-C", repo_root]);
    let ghost head = texts(r@);
    if include_branches {
        r.push(owned("--branches"));
    }
    let ghost mid = texts(r@);
    assert(mid =~= head + (if include_branches {
        seq!["--branches"@]
    } else {
        Seq::empty()
    }));
    if include_remotes {
        r.push(owned("--remotes"));
    }
    assert(texts(r@) =~= mid + (if include_remotes {
        seq!["--remotes"@]
    } else {
        Seq::empty()
    }));
    r
}

/// The path of the worktree that `wt switch` reports, or `fallback`.
pub fn switched_path(report: &Json, fallback: &str) -> (r: String)
    ensures
        r@ == (match text_of(member(report.value(), "path"@)) {
            Some(p) => p,
            None => fallback@,
        }),
{
    match get_text(report, "path") {
        Some(p) => owned(p),
        None => owned(fallback),
    }
}

} // verus!
