//! The worktree picker: its states, its list of entries and filter, and
//! what each key does. Each key gives the next state of the picker and the
//! outside work to start, which the terminal front end performs.
use vstd::prelude::*;
use crate::config::{Config, WorktreeBackend, KeyCode, KeyEvent, KeyBinding};
use crate::git::{HeadState, normalized_branch, normalize_branch_name};
use crate::wt::{
    BranchEntry, EntryKind, EntryView, entry_views, reference_of, opt_text, clone_text,
};
use crate::text::{
    has_infix, lowercase, to_lowercase, contains, owned, concat3, str_eq, strip_prefix,
    is_digit, char_is_digit, starts_with, push_char, pop_char,
};

verus! {

/// How the picker ended.
#[derive(Debug, Clone, Copy, PartialEq, Eq, Structural)]
pub enum TuiResult {
    Cancelled,
    Created,
}

/// What the name being typed is for.
#[derive(Debug, Clone, Copy, PartialEq, Eq, Structural)]
pub enum NamingIntent {
    NewBranch,
    OpenReference,
}

/// The screens of the picker.
#[derive(Debug)]
pub enum AppState {
    /// Choosing an entry, with `New worktree...` as the first row.
    Picking,
    /// Choosing how to start a new worktree.
    NewIntent { selected: usize },
    /// Choosing the base of a new branch.
    SelectingBase,
    /// Typing a branch name or a request reference.
    Naming { input: String, base: Option<BranchEntry>, intent: NamingIntent },
    /// A remote branch whose name a different local branch already has.
    RemoteConflict { remote: BranchEntry, input: String, selected: usize },
    /// Waiting for a worktree to be created or opened.
    Creating,
}

pub open spec fn opt_entry(o: Option<BranchEntry>) -> Option<EntryView> {
    match o {
        Some(e) => Some(e@),
        None => None,
    }
}

/// The mathematical value of an `AppState`.
pub enum StateView {
    Picking,
    NewIntent(usize),
    SelectingBase,
    Naming(Seq<char>, Option<EntryView>, NamingIntent),
    RemoteConflict(EntryView, Seq<char>, usize),
    Creating,
}

impl View for AppState {
    type V = StateView;

    open spec fn view(&self) -> StateView {
        match self {
            AppState::Picking => StateView::Picking,
            AppState::NewIntent { selected } => StateView::NewIntent(*selected),
            AppState::SelectingBase => StateView::SelectingBase,
            AppState::Naming { input, base, intent } => StateView::Naming(
                input@,
                opt_entry(*base),
                *intent,
            ),
            AppState::RemoteConflict { remote, input, selected } => StateView::RemoteConflict(
                remote@,
                input@,
                *selected,
            ),
            AppState::Creating => StateView::Creating,
        }
    }
}

fn clone_entry_opt(o: &Option<BranchEntry>) -> (r: Option<BranchEntry>)
    ensures
        opt_entry(r) == opt_entry(*o),
{
    match o {
        Some(e) => Some(e.clone()),
        None => None,
    }
}

impl Clone for AppState {
    fn clone(&self) -> (r: Self)
        ensures
            r@ == self@,
    {
        match self {
            AppState::Picking => AppState::Picking,
            AppState::NewIntent { selected } => AppState::NewIntent { selected: *selected },
            AppState::SelectingBase => AppState::SelectingBase,
            AppState::Naming { input, base, intent } => AppState::Naming {
                input: owned(input.as_str()),
                base: clone_entry_opt(base),
                intent: *intent,
            },
            AppState::RemoteConflict { remote, input, selected } => AppState::RemoteConflict {
                remote: remote.clone(),
                input: owned(input.as_str()),
                selected: *selected,
            },
            AppState::Creating => AppState::Creating,
        }
    }
}

/// Whether the picker lists an entry: remote branches only while remotes
/// are shown, never the main worktree, and only entries whose reference,
/// lower-cased, contains the lower-cased filter.
pub open spec fn shown(e: EntryView, show_remotes: bool, query: Seq<char>) -> bool {
    &&& show_remotes || e.kind != EntryKind::BranchRemote
    &&& e.kind != EntryKind::WorktreeMain
    &&& has_infix(lowercase(reference_of(e)), query)
}

/// The positions, in order, of the first `n` entries that are shown.
pub open spec fn shown_indices(es: Seq<EntryView>, show_remotes: bool, query: Seq<char>, n: nat) -> Seq<
    usize,
>
    decreases n,
{
    if n == 0 {
        Seq::empty()
    } else {
        let p = shown_indices(es, show_remotes, query, (n - 1) as nat);
        if shown(es[n - 1], show_remotes, query) {
            p.push((n - 1) as usize)
        } else {
            p
        }
    }
}

/// The positions of the entries that the filter `filter` shows.
pub open spec fn filtered_for(es: Seq<EntryView>, show_remotes: bool, filter: Seq<char>) -> Seq<
    usize,
> {
    shown_indices(es, show_remotes, lowercase(filter), es.len())
}

/// Whether a way of starting a new worktree is available: from the
/// current HEAD only on a branch, from another base once HEAD has a
/// commit, a pull or merge request only with Worktrunk.
pub open spec fn intent_available(head: HeadState, backend: WorktreeBackend, selected: usize) -> bool {
    if selected == 0 {
        head == HeadState::Branch
    } else if selected == 1 {
        head != HeadState::Unborn
    } else if selected == 2 {
        backend == WorktreeBackend::Worktrunk
    } else {
        false
    }
}

pub fn new_intent_available(head: HeadState, backend: WorktreeBackend, selected: usize) -> (r: bool)
    ensures
        r == intent_available(head, backend, selected),
{
    match selected {
        0 => head == HeadState::Branch,
        1 => head != HeadState::Unborn,
        2 => backend == WorktreeBackend::Worktrunk,
        _ => false,
    }
}

/// Input that names a pull or merge request rather than a branch.
pub open spec fn names_reference(input: Seq<char>) -> bool {
    "pr:"@.is_prefix_of(input) || "mr:"@.is_prefix_of(input) || "http://"@.is_prefix_of(input)
        || "https://"@.is_prefix_of(input)
}

pub fn is_reference(input: &str) -> (r: bool)
    ensures
        r == names_reference(input@),
{
    starts_with(input, "pr:") || starts_with(input, "mr:") || starts_with(input, "http://")
        || starts_with(input, "https://")
}

pub open spec fn all_digits(s: Seq<char>) -> bool {
    forall|i: int| 0 <= i < s.len() ==> is_digit(#[trigger] s[i])
}

/// Why a request reference is refused, if it is: `pr:N` and `mr:N` need
/// a non-empty run of digits; otherwise an `http://` or `https://` URL
/// with something after the scheme is needed.
pub open spec fn reference_problem(input: Seq<char>) -> Option<Seq<char>> {
    let request = if "pr:"@.is_prefix_of(input) {
        Some(input.skip(3))
    } else if "mr:"@.is_prefix_of(input) {
        Some(input.skip(3))
    } else {
        None
    };
    match request {
        Some(number) => if number.len() > 0 && all_digits(number) {
            None
        } else {
            Some("Enter pr:N or mr:N with a numeric ID"@)
        },
        None => {
            let url = if "https://"@.is_prefix_of(input) {
                Some(input.skip(8))
            } else if "http://"@.is_prefix_of(input) {
                Some(input.skip(7))
            } else {
                None
            };
            if url matches Some(u) && u.len() > 0 {
                None
            } else {
                Some("Enter pr:N, mr:N, or a pull/merge request URL"@)
            }
        },
    }
}

fn digits_only(s: &str) -> (r: bool)
    ensures
        r == all_digits(s@),
{
    let n = s.unicode_len();
    let mut i: usize = 0;
    while i < n
        invariant
            n == s@.len(),
            i <= n,
            forall|j: int| 0 <= j < i ==> is_digit(#[trigger] s@[j]),
        decreases n - i,
    {
        if !char_is_digit(s.get_char(i)) {
            return false;
        }
        i = i + 1;
    }
    true
}

/// Accepts `pr:N`, `mr:N` or a request URL.
pub fn validate_reference(input: &str) -> (r: Result<(), String>)
    ensures
        match reference_problem(input@) {
            None => r is Ok,
            Some(msg) => r matches Err(e) && e@ == msg,
        },
{
    proof {
        reveal_strlit("pr:");
        reveal_strlit("mr:");
        reveal_strlit("http://");
        reveal_strlit("https://");
    }
    let request = match strip_prefix(input, "pr:") {
        Some(n) => Some(n),
        None => strip_prefix(input, "mr:"),
    };
    match request {
        Some(number) => {
            if number.unicode_len() > 0 && digits_only(number) {
                return Ok(());
            }
            return Err(owned("Enter pr:N or mr:N with a numeric ID"));
        },
        None => {},
    }
    let url = match strip_prefix(input, "https://") {
        Some(u) => Some(u),
        None => strip_prefix(input, "http://"),
    };
    match url {
        Some(u) => if u.unicode_len() > 0 {
            return Ok(());
        },
        None => {},
    }
    Err(owned("Enter pr:N, mr:N, or a pull/merge request URL"))
}

/// The first entry that is not a remote branch and has the branch name `branch`.
pub open spec fn local_named(es: Seq<EntryView>, branch: Seq<char>) -> Option<EntryView>
    decreases es.len(),
{
    if es.len() == 0 {
        None
    } else if es[0].kind != EntryKind::BranchRemote && es[0].branch == branch {
        Some(es[0])
    } else {
        local_named(es.drop_first(), branch)
    }
}

/// What opening a remote branch switches to: `remote/branch` when no other
/// entry has its name, the local branch when it tracks `remote/branch`,
/// and `None` when a different local branch has the name, so that another
/// name is needed.
pub open spec fn remote_target_of(entry: EntryView, es: Seq<EntryView>) -> Result<
    Option<Seq<char>>,
    Seq<char>,
> {
    match entry.remote {
        None => Err("Remote branch "@ + entry.branch + " has no remote name"@),
        Some(remote) => {
            let qualified = remote + "/"@ + entry.branch;
            match local_named(es, entry.branch) {
                None => Ok(Some(qualified)),
                Some(local) => if local.upstream == Some(qualified) {
                    Ok(Some(local.branch))
                } else {
                    Ok(None)
                },
            }
        },
    }
}

proof fn lemma_local_named_step(es: Seq<EntryView>, branch: Seq<char>, i: int)
    requires
        0 <= i < es.len(),
    ensures
        local_named(es.skip(i), branch) == (if es[i].kind != EntryKind::BranchRemote && es[i].branch
            == branch {
            Some(es[i])
        } else {
            local_named(es.skip(i + 1), branch)
        }),
{
    assert(es.skip(i).drop_first() =~= es.skip(i + 1));
}

pub fn remote_target(entry: &BranchEntry, entries: &[BranchEntry]) -> (r: Result<
    Option<String>,
    String,
>)
    ensures
        match remote_target_of(entry@, entry_views(entries@)) {
            Ok(t) => r is Ok && opt_text(r->Ok_0) == t,
            Err(msg) => r matches Err(e) && e@ == msg,
        },
{
    let remote = match &entry.remote {
        Some(r) => r,
        None => return Err(concat3("Remote branch ", entry.branch.as_str(), " has no remote name")),
    };
    let qualified = concat3(remote.as_str(), "/", entry.branch.as_str());
    let ghost es = entry_views(entries@);
    let n = entries.len();
    let mut i: usize = 0;
    assert(es.skip(0) =~= es);
    while i < n
        invariant
            n == entries@.len(),
            es == entry_views(entries@),
            es.len() == n,
            i <= n,
            local_named(es, entry.branch@) == local_named(es.skip(i as int), entry.branch@),
            opt_text(entry.remote) == Some(remote@),
            qualified@ == remote@ + "/"@ + entry.branch@,
        decreases n - i,
    {
        assert(es[i as int] == entries@[i as int]@);
        proof {
            lemma_local_named_step(es, entry.branch@, i as int);
        }
        let c = &entries[i];
        if c.kind != EntryKind::BranchRemote && str_eq(c.branch.as_str(), entry.branch.as_str()) {
            let tracks = match &c.upstream {
                Some(u) => str_eq(u.as_str(), qualified.as_str()),
                None => false,
            };
            if tracks {
                return Ok(Some(owned(c.branch.as_str())));
            } else {
                return Ok(None);
            }
        }
        i = i + 1;
    }
    assert(es.skip(n as int) =~= Seq::<EntryView>::empty());
    Ok(Some(qualified))
}


/// Outside work that creates or opens a worktree.
#[derive(Debug)]
#[allow(inconsistent_fields)]
pub enum Task {
    /// Open the existing worktree at `path` in herdr.
    Open { path: String },
    /// `wt switch` to `target`, then open the worktree it reports.
    Switch { target: String },
    /// Have herdr create a worktree for `branch`, from `base` when given.
    Create { branch: String, base: Option<String> },
    /// `wt switch --create` for `branch` from `base`, then open it.
    SwitchFromBase { branch: String, base: String },
    /// `wt switch --create` for `branch` from the current HEAD, then open it.
    SwitchFromHead { branch: String },
    /// Have herdr create a worktree for `branch` from the current HEAD.
    CreateFromHead { branch: String },
}

pub enum TaskView {
    Open(Seq<char>),
    Switch(Seq<char>),
    Create(Seq<char>, Option<Seq<char>>),
    SwitchFromBase(Seq<char>, Seq<char>),
    SwitchFromHead(Seq<char>),
    CreateFromHead(Seq<char>),
}

impl View for Task {
    type V = TaskView;

    open spec fn view(&self) -> TaskView {
        match self {
            Task::Open { path } => TaskView::Open(path@),
            Task::Switch { target } => TaskView::Switch(target@),
            Task::Create { branch, base } => TaskView::Create(branch@, opt_text(*base)),
            Task::SwitchFromBase { branch, base } => TaskView::SwitchFromBase(branch@, base@),
            Task::SwitchFromHead { branch } => TaskView::SwitchFromHead(branch@),
            Task::CreateFromHead { branch } => TaskView::CreateFromHead(branch@),
        }
    }
}

/// What the front end does after a key.
#[derive(Debug)]
pub enum Effect {
    /// Nothing beyond drawing the new state.
    Nothing,
    /// Leave the picker.
    Exit(TuiResult),
    /// Fetch all remotes and list the entries again, with remotes when
    /// they are shown; then call `finish_fetch`.
    Fetch,
    /// Run the task; then call `finish_creation`.
    Run(Task),
    /// Check that `name` can be a new branch (git's ref-format and
    /// existence checks); then call `finish_naming`.
    CheckName { name: String, base: Option<BranchEntry> },
}

pub enum EffectView {
    Nothing,
    Exit(TuiResult),
    Fetch,
    Run(TaskView),
    CheckName(Seq<char>, Option<EntryView>),
}

impl View for Effect {
    type V = EffectView;

    open spec fn view(&self) -> EffectView {
        match self {
            Effect::Nothing => EffectView::Nothing,
            Effect::Exit(r) => EffectView::Exit(*r),
            Effect::Fetch => EffectView::Fetch,
            Effect::Run(t) => EffectView::Run(t@),
            Effect::CheckName { name, base } => EffectView::CheckName(name@, opt_entry(*base)),
        }
    }
}

/// The picker.
pub struct App {
    pub entries: Vec<BranchEntry>,
    /// Positions in `entries` of the rows shown, in order.
    pub filtered: Vec<usize>,
    pub filter: String,
    /// The highlighted row.
    pub selected: Option<usize>,
    pub show_remotes: bool,
    pub config: Config,
    pub repo_root: String,
    pub head: HeadState,
    pub state: AppState,
    /// The filter in force before a base branch was chosen.
    pub saved_filter: String,
    pub status: Option<String>,
    pub error: Option<String>,
    /// A fetch of the remotes is under way.
    pub fetching: bool,
    /// A task that creates or opens a worktree is under way.
    pub creating: bool,
    /// The state to return to when that task fails.
    pub resume_state: Option<AppState>,
}

/// The mathematical value of the picker.
#[verifier::ext_equal]
pub struct AppView {
    pub entries: Seq<EntryView>,
    pub filtered: Seq<usize>,
    pub filter: Seq<char>,
    pub selected: Option<usize>,
    pub show_remotes: bool,
    pub config: Config,
    pub repo_root: Seq<char>,
    pub head: HeadState,
    pub state: StateView,
    pub saved_filter: Seq<char>,
    pub status: Option<Seq<char>>,
    pub error: Option<Seq<char>>,
    pub fetching: bool,
    pub creating: bool,
    pub resume: Option<StateView>,
}

pub open spec fn opt_state(o: Option<AppState>) -> Option<StateView> {
    match o {
        Some(s) => Some(s@),
        None => None,
    }
}

impl View for App {
    type V = AppView;

    open spec fn view(&self) -> AppView {
        AppView {
            entries: entry_views(self.entries@),
            filtered: self.filtered@,
            filter: self.filter@,
            selected: self.selected,
            show_remotes: self.show_remotes,
            config: self.config,
            repo_root: self.repo_root@,
            head: self.head,
            state: self.state@,
            saved_filter: self.saved_filter@,
            status: opt_text(self.status),
            error: opt_text(self.error),
            fetching: self.fetching,
            creating: self.creating,
            resume: opt_state(self.resume_state),
        }
    }
}

/// The highlighted intent is one of the three intents; the highlighted
/// choice of the conflict screen one of its two choices.
pub open spec fn state_wf(s: StateView) -> bool {
    match s {
        StateView::NewIntent(k) => k <= 2,
        StateView::RemoteConflict(_, _, k) => k <= 1,
        _ => true,
    }
}

/// Sizes stay within what the picker's arithmetic handles, and the
/// screens' highlights within their rows.
pub open spec fn app_wf(v: AppView) -> bool {
    &&& shape_wf(v)
    &&& v.filtered.len() <= v.entries.len()
    &&& v.selected matches Some(s) ==> s <= isize::MAX
}

/// The parts of `app_wf` that recomputing the rows does not touch.
pub open spec fn shape_wf(v: AppView) -> bool {
    &&& v.entries.len() < isize::MAX
    &&& state_wf(v.state)
    &&& v.resume matches Some(r) ==> state_wf(r)
}

/// The picker with its rows recomputed for the current filter and the
/// first row highlighted.
pub open spec fn refiltered(v: AppView) -> AppView {
    AppView { filtered: filtered_for(v.entries, v.show_remotes, v.filter), selected: Some(0), ..v }
}

/// The number of rows of the current screen.
pub open spec fn row_count(v: AppView) -> int {
    match v.state {
        StateView::Picking => v.filtered.len() + 1int,
        StateView::SelectingBase => v.filtered.len() as int,
        StateView::NewIntent(_) => 3,
        StateView::RemoteConflict(_, _, _) => 2,
        _ => 1,
    }
}

pub open spec fn intent_shown(v: AppView, selected: usize) -> AppView {
    AppView { state: StateView::NewIntent(selected), selected: Some(selected), ..v }
}

pub open spec fn clamp(x: int, lo: int, hi: int) -> int {
    if x < lo {
        lo
    } else if x > hi {
        hi
    } else {
        x
    }
}

/// The highlight moved by `delta` rows, kept on the screen.
pub open spec fn moved(v: AppView, delta: int) -> AppView {
    let count = row_count(v);
    if count == 0 {
        AppView { selected: None, ..v }
    } else {
        let current = match v.selected {
            Some(s) => s as int,
            None => 0,
        };
        AppView { selected: Some(clamp(current + delta, 0, count - 1) as usize), ..v }
    }
}

/// The entry on the highlighted row; on the picking screen the first row
/// is `New worktree...` and holds none.
pub open spec fn highlighted_entry(v: AppView) -> Option<EntryView> {
    match v.selected {
        None => None,
        Some(sel) => {
            let offset: int = if v.state is Picking {
                1
            } else {
                0
            };
            let k = sel - offset;
            if 0 <= k < v.filtered.len() && v.filtered[k] < v.entries.len() {
                Some(v.entries[v.filtered[k] as int])
            } else {
                None
            }
        },
    }
}

/// Starting a fetch, unless one is under way.
pub open spec fn fetch_started(v: AppView) -> (AppView, EffectView) {
    if v.fetching {
        (v, EffectView::Nothing)
    } else {
        (
            AppView { fetching: true, status: Some("Fetching all remotes..."@), error: None, ..v },
            EffectView::Fetch,
        )
    }
}

/// Starting a task: the current screen is kept to return to on failure.
pub open spec fn task_started(v: AppView, t: TaskView) -> (AppView, EffectView) {
    (
        AppView {
            resume: Some(v.state),
            state: StateView::Creating,
            creating: true,
            status: Some("Creating and opening worktree..."@),
            error: None,
            ..v
        },
        EffectView::Run(t),
    )
}

pub open spec fn with_error(v: AppView, msg: Seq<char>) -> AppView {
    AppView { error: Some(msg), ..v }
}

/// The task that goes to `target`: opening it when it is a worktree;
/// otherwise switching with Worktrunk, or having herdr create the worktree
/// (from `target` for a remote branch).
pub open spec fn open_task(v: AppView, e: EntryView, target: Seq<char>, switch: bool) -> TaskView {
    if !switch {
        TaskView::Open(target)
    } else if v.config.backend == WorktreeBackend::Worktrunk {
        TaskView::Switch(target)
    } else {
        TaskView::Create(
            e.branch,
            if e.kind == EntryKind::BranchRemote {
                Some(target)
            } else {
                None
            },
        )
    }
}

/// Opening an entry: a worktree by its path, a local branch by its name,
/// a remote branch by what `remote_target_of` gives; a remote branch whose
/// name a different local branch has leads to the conflict screen.
pub open spec fn entry_opened(v: AppView, e: EntryView) -> (AppView, EffectView) {
    let missing = (with_error(v, "Worktree entry is missing its path"@), EffectView::Nothing);
    match e.kind {
        EntryKind::WorktreeCurrent | EntryKind::WorktreeMain | EntryKind::WorktreeOther => match e.path {
            Some(p) => task_started(v, open_task(v, e, p, false)),
            None => missing,
        },
        EntryKind::BranchLocal => task_started(v, open_task(v, e, e.branch, true)),
        EntryKind::BranchRemote => match remote_target_of(e, v.entries) {
            Ok(Some(t)) => task_started(v, open_task(v, e, t, true)),
            Ok(None) => (
                AppView { state: StateView::RemoteConflict(e, Seq::empty(), 0), ..v },
                EffectView::Nothing,
            ),
            Err(msg) => (with_error(v, msg), EffectView::Nothing),
        },
        EntryKind::NewWorktree => missing,
    }
}

/// The task for a name typed on the naming screen.
pub open spec fn name_task(v: AppView, name: Seq<char>, base: Option<EntryView>, intent: NamingIntent) -> TaskView {
    match base {
        Some(b) => if v.config.backend == WorktreeBackend::Worktrunk {
            TaskView::SwitchFromBase(name, reference_of(b))
        } else {
            TaskView::Create(name, Some(reference_of(b)))
        },
        None => if v.config.backend == WorktreeBackend::Worktrunk {
            if intent == NamingIntent::NewBranch {
                TaskView::SwitchFromHead(name)
            } else {
                TaskView::Switch(name)
            }
        } else {
            TaskView::CreateFromHead(name)
        },
    }
}

/// Submitting the typed name: it is normalised first; a new branch may not
/// be a request reference and goes to git's checks; a request needs
/// Worktrunk and a valid reference.
pub open spec fn name_submitted(
    v: AppView,
    input: Seq<char>,
    base: Option<EntryView>,
    intent: NamingIntent,
) -> (AppView, EffectView) {
    let name = normalized_branch(input, v.config.normalize_jira_prefix);
    if intent == NamingIntent::NewBranch {
        if names_reference(name) {
            (
                with_error(v, "Enter a new branch name, not a PR, MR, or URL"@),
                EffectView::Nothing,
            )
        } else {
            (v, EffectView::CheckName(name, base))
        }
    } else if v.config.backend == WorktreeBackend::Native {
        (with_error(v, "Pull and merge requests require Worktrunk"@), EffectView::Nothing)
    } else {
        match reference_problem(name) {
            Some(msg) => (with_error(v, msg), EffectView::Nothing),
            None => task_started(v, name_task(v, name, base, intent)),
        }
    }
}

/// The outcome of git's checks of a new branch name.
pub open spec fn naming_finished(
    v: AppView,
    name: Seq<char>,
    base: Option<EntryView>,
    check: Result<(), Seq<char>>,
) -> (AppView, EffectView) {
    match check {
        Err(msg) => (with_error(v, msg), EffectView::Nothing),
        Ok(_) => task_started(v, name_task(v, name, base, NamingIntent::NewBranch)),
    }
}

/// The result of a fetch: the new entries, or the error.
pub open spec fn fetch_finished(v: AppView, r: Result<Seq<EntryView>, Seq<char>>) -> AppView {
    match r {
        Ok(es) => refiltered(
            AppView {
                fetching: false,
                entries: es,
                status: Some("Remote branches refreshed"@),
                error: None,
                ..v
            },
        ),
        Err(msg) => AppView { fetching: false, status: None, error: Some(msg), ..v },
    }
}

/// The result of a task: done, or back to the screen it started from.
pub open spec fn creation_finished(v: AppView, r: Result<(), Seq<char>>) -> (AppView, Option<TuiResult>) {
    match r {
        Ok(_) => (AppView { creating: false, ..v }, Some(TuiResult::Created)),
        Err(msg) => (
            AppView {
                creating: false,
                error: Some(msg),
                status: None,
                state: match v.resume {
                    Some(s) => s,
                    None => StateView::Picking,
                },
                resume: None,
                ..v
            },
            None,
        ),
    }
}

pub proof fn lemma_shown_indices_len(es: Seq<EntryView>, sr: bool, q: Seq<char>, n: nat)
    ensures
        shown_indices(es, sr, q, n).len() <= n,
        forall|j: int| 0 <= j < shown_indices(es, sr, q, n).len() ==> #[trigger] shown_indices(es, sr, q, n)[j] < n,
    decreases n,
{
    if n > 0 {
        lemma_shown_indices_len(es, sr, q, (n - 1) as nat);
    }
}

fn clone_string_opt(o: &Option<String>) -> (r: Option<String>)
    ensures
        opt_text(r) == opt_text(*o),
{
    clone_text(o)
}

impl App {
    pub fn new(config: Config, repo_root: String, entries: Vec<BranchEntry>, head: HeadState) -> (r: App)
        requires
            entries@.len() < isize::MAX,
        ensures
            r@ == (AppView {
                entries: entry_views(entries@),
                filtered: filtered_for(entry_views(entries@), false, Seq::empty()),
                filter: Seq::empty(),
                selected: Some(0),
                show_remotes: false,
                config,
                repo_root: repo_root@,
                head,
                state: StateView::Picking,
                saved_filter: Seq::empty(),
                status: None,
                error: None,
                fetching: false,
                creating: false,
                resume: None,
            }),
            app_wf(r@),
    {
        let mut app = App {
            entries,
            filtered: Vec::new(),
            filter: String::new(),
            selected: Some(0),
            show_remotes: false,
            config,
            repo_root,
            head,
            state: AppState::Picking,
            saved_filter: String::new(),
            status: None,
            error: None,
            fetching: false,
            creating: false,
            resume_state: None,
        };
        app.apply_filter();
        app
    }

    /// Recomputes the rows for the filter and highlights the first.
    pub fn apply_filter(&mut self)
        requires
            shape_wf(old(self)@),
        ensures
            final(self)@ == refiltered(old(self)@),
            app_wf(final(self)@),
    {
        let query = to_lowercase(self.filter.as_str());
        let ghost es = entry_views(self.entries@);
        let n = self.entries.len();
        let mut filtered: Vec<usize> = Vec::new();
        let mut i: usize = 0;
        while i < n
            invariant
                n == self.entries@.len(),
                es == entry_views(self.entries@),
                query@ == lowercase(self.filter@),
                i <= n,
                filtered@ == shown_indices(es, self.show_remotes, query@, i as nat),
            decreases n - i,
        {
            let e = &self.entries[i];
            assert(es[i as int] == e@);
            let keep = (self.show_remotes || e.kind != EntryKind::BranchRemote) && e.kind
                != EntryKind::WorktreeMain && contains(
                to_lowercase(e.reference().as_str()).as_str(),
                query.as_str(),
            );
            if keep {
                filtered.push(i);
            }
            i = i + 1;
        }
        proof {
            lemma_shown_indices_len(es, self.show_remotes, query@, n as nat);
        }
        self.filtered = filtered;
        self.selected = Some(0);
    }

    /// The number of rows of the current screen.
    pub fn visible_count(&self) -> (r: usize)
        requires
            app_wf(self@),
        ensures
            r == row_count(self@),
    {
        match self.state {
            AppState::Picking => self.filtered.len() + 1,
            AppState::SelectingBase => self.filtered.len(),
            AppState::NewIntent { .. } => 3,
            AppState::RemoteConflict { .. } => 2,
            AppState::Naming { .. } | AppState::Creating => 1,
        }
    }

    /// Whether intent `selected` is available here.
    pub fn new_intent_available(&self, selected: usize) -> (r: bool)
        ensures
            r == intent_available(self.head, self.config.backend, selected),
    {
        new_intent_available(self.head, self.config.backend, selected)
    }

    /// Shows the intent screen with intent `selected` highlighted.
    pub fn show_new_intent(&mut self, selected: usize)
        requires
            app_wf(old(self)@),
            selected <= 2,
        ensures
            final(self)@ == intent_shown(old(self)@, selected),
            app_wf(final(self)@),
    {
        self.state = AppState::NewIntent { selected };
        self.selected = Some(selected);
    }

    /// Moves the highlight by `delta` rows, staying on the screen.
    pub fn move_selection(&mut self, delta: isize)
        requires
            app_wf(old(self)@),
        ensures
            final(self)@ == moved(old(self)@, delta as int),
            app_wf(final(self)@),
    {
        let count = self.visible_count();
        if count == 0 {
            self.selected = None;
            return;
        }
        let current: isize = match self.selected {
            Some(s) => s as isize,
            None => 0,
        };
        let hi: isize = (count - 1) as isize;
        let target: isize = if delta < 0 {
            current + delta
        } else {
            if current > hi - delta { hi } else { current + delta }
        };
        let clamped: isize = if target < 0 {
            0
        } else if target > hi {
            hi
        } else {
            target
        };
        self.selected = Some(clamped as usize);
    }

    /// The entry on the highlighted row.
    pub fn selected_entry(&self) -> (r: Option<BranchEntry>)
        ensures
            opt_entry(r) == highlighted_entry(self@),
    {
        let sel = match self.selected {
            Some(s) => s,
            None => return None,
        };
        let offset: usize = match self.state {
            AppState::Picking => 1,
            _ => 0,
        };
        if sel < offset {
            return None;
        }
        let k = sel - offset;
        if k >= self.filtered.len() {
            return None;
        }
        let index = self.filtered[k];
        if index >= self.entries.len() {
            return None;
        }
        assert(entry_views(self.entries@)[index as int] == self.entries@[index as int]@);
        Some(self.entries[index].clone())
    }

    /// Starts fetching the remotes, unless a fetch is under way.
    pub fn start_fetch(&mut self) -> (r: Effect)
        requires
            app_wf(old(self)@),
        ensures
            (final(self)@, r@) == fetch_started(old(self)@),
            app_wf(final(self)@),
    {
        if self.fetching {
            return Effect::Nothing;
        }
        self.fetching = true;
        self.status = Some(owned("Fetching all remotes..."));
        self.error = None;
        Effect::Fetch
    }

    /// Starts a task that creates or opens a worktree.
    pub fn start_task(&mut self, task: Task) -> (r: Effect)
        requires
            app_wf(old(self)@),
        ensures
            (final(self)@, r@) == task_started(old(self)@, task@),
            app_wf(final(self)@),
    {
        self.resume_state = Some(self.state.clone());
        self.state = AppState::Creating;
        self.creating = true;
        self.status = Some(owned("Creating and opening worktree..."));
        self.error = None;
        Effect::Run(task)
    }
}


/// The key is the binding: the same key with the same modifiers.
pub open spec fn bound(b: KeyBinding, key: KeyEvent) -> bool {
    b.key() == key.code && b.mods() == key.modifiers
}

pub open spec fn popped(s: Seq<char>) -> Seq<char> {
    if s.len() > 0 {
        s.drop_last()
    } else {
        s
    }
}

/// The cancel key: leave the picker from the picking screen, otherwise go
/// back one screen (the intent screen highlights the intent that led on).
pub open spec fn cancelled(v: AppView) -> (AppView, EffectView) {
    match v.state {
        StateView::Picking => (v, EffectView::Exit(TuiResult::Cancelled)),
        StateView::NewIntent(_) => (AppView { state: StateView::Picking, ..v }, EffectView::Nothing),
        StateView::SelectingBase => (
            intent_shown(refiltered(AppView { filter: v.saved_filter, ..v }), 1),
            EffectView::Nothing,
        ),
        StateView::Naming(_, base, intent) => (
            intent_shown(
                v,
                if intent == NamingIntent::OpenReference {
                    2
                } else if base is Some {
                    1
                } else {
                    0
                },
            ),
            EffectView::Nothing,
        ),
        StateView::RemoteConflict(_, _, _) => (
            AppView { state: StateView::Picking, ..v },
            EffectView::Nothing,
        ),
        StateView::Creating => (v, EffectView::Nothing),
    }
}

/// The toggle key: show or hide the remote branches, fetching them when
/// they become shown.
pub open spec fn remotes_toggled(v: AppView) -> (AppView, EffectView) {
    let w = refiltered(AppView { show_remotes: !v.show_remotes, ..v });
    if w.show_remotes {
        fetch_started(w)
    } else {
        (w, EffectView::Nothing)
    }
}

/// Keys that edit the filter or move the highlight on the list screens.
pub open spec fn list_key(v: AppView, key: KeyEvent) -> (AppView, EffectView) {
    match key.code {
        KeyCode::Char(c) => if c == 'u' && key.modifiers.control {
            (refiltered(AppView { filter: Seq::empty(), ..v }), EffectView::Nothing)
        } else {
            (refiltered(AppView { filter: v.filter.push(c), ..v }), EffectView::Nothing)
        },
        KeyCode::Backspace => (refiltered(AppView { filter: popped(v.filter), ..v }), EffectView::Nothing),
        KeyCode::Up => (moved(v, -1), EffectView::Nothing),
        KeyCode::Down => (moved(v, 1), EffectView::Nothing),
        _ => (v, EffectView::Nothing),
    }
}

pub open spec fn naming_state(input: Seq<char>, base: Option<EntryView>, intent: NamingIntent) -> StateView {
    StateView::Naming(input, base, intent)
}

/// A key on the picking screen: confirm opens the highlighted entry, or
/// the intent screen from `New worktree...`.
pub open spec fn picking_key(v: AppView, key: KeyEvent) -> (AppView, EffectView) {
    if bound(v.config.keybindings.confirm, key) {
        if v.selected == Some(0usize) {
            (intent_shown(v, 0), EffectView::Nothing)
        } else {
            match highlighted_entry(v) {
                Some(e) => entry_opened(v, e),
                None => (v, EffectView::Nothing),
            }
        }
    } else {
        list_key(v, key)
    }
}

/// A key on the intent screen: up and down move among the three intents;
/// confirm goes on with an available one.
pub open spec fn intent_key(v: AppView, selected: usize, key: KeyEvent) -> (AppView, EffectView) {
    if key.code == KeyCode::Up {
        (intent_shown(v, if selected > 0 { (selected - 1) as usize } else { 0 }), EffectView::Nothing)
    } else if key.code == KeyCode::Down {
        (intent_shown(v, if selected >= 2 { 2 } else { (selected + 1) as usize }), EffectView::Nothing)
    } else if bound(v.config.keybindings.confirm, key) {
        if !intent_available(v.head, v.config.backend, selected) {
            (v, EffectView::Nothing)
        } else if selected == 0 {
            (
                AppView { state: naming_state(Seq::empty(), None, NamingIntent::NewBranch), ..v },
                EffectView::Nothing,
            )
        } else if selected == 1 {
            let w = refiltered(AppView { saved_filter: v.filter, filter: Seq::empty(), ..v });
            (AppView { state: StateView::SelectingBase, ..w }, EffectView::Nothing)
        } else {
            (
                AppView { state: naming_state(Seq::empty(), None, NamingIntent::OpenReference), ..v },
                EffectView::Nothing,
            )
        }
    } else {
        (v, EffectView::Nothing)
    }
}

/// A key on the base screen: confirm takes the highlighted entry as base.
pub open spec fn base_key(v: AppView, key: KeyEvent) -> (AppView, EffectView) {
    if bound(v.config.keybindings.confirm, key) {
        match highlighted_entry(v) {
            Some(b) => (
                AppView { state: naming_state(Seq::empty(), Some(b), NamingIntent::NewBranch), ..v },
                EffectView::Nothing,
            ),
            None => (v, EffectView::Nothing),
        }
    } else {
        list_key(v, key)
    }
}

/// A key on the naming screen: confirm submits the name; other keys edit it.
pub open spec fn naming_key(
    v: AppView,
    input: Seq<char>,
    base: Option<EntryView>,
    intent: NamingIntent,
    key: KeyEvent,
) -> (AppView, EffectView) {
    if bound(v.config.keybindings.confirm, key) {
        name_submitted(v, input, base, intent)
    } else {
        match key.code {
            KeyCode::Char(c) => if c == 'u' && key.modifiers.control {
                (AppView { state: naming_state(Seq::empty(), base, intent), ..v }, EffectView::Nothing)
            } else {
                (AppView { state: naming_state(input.push(c), base, intent), ..v }, EffectView::Nothing)
            },
            KeyCode::Backspace => (
                AppView { state: naming_state(popped(input), base, intent), ..v },
                EffectView::Nothing,
            ),
            _ => (v, EffectView::Nothing),
        }
    }
}

/// A key on the conflict screen: choose between another local name and
/// going back.
pub open spec fn conflict_key(
    v: AppView,
    remote: EntryView,
    input: Seq<char>,
    selected: usize,
    key: KeyEvent,
) -> (AppView, EffectView) {
    if key.code == KeyCode::Up {
        let s: usize = if selected > 0 { (selected - 1) as usize } else { 0 };
        (
            AppView { state: StateView::RemoteConflict(remote, input, s), selected: Some(s), ..v },
            EffectView::Nothing,
        )
    } else if key.code == KeyCode::Down {
        let s: usize = if selected >= 1 { 1 } else { (selected + 1) as usize };
        (
            AppView { state: StateView::RemoteConflict(remote, input, s), selected: Some(s), ..v },
            EffectView::Nothing,
        )
    } else if bound(v.config.keybindings.confirm, key) {
        if selected == 0 {
            (
                AppView { state: naming_state(input, Some(remote), NamingIntent::NewBranch), ..v },
                EffectView::Nothing,
            )
        } else {
            (AppView { state: StateView::Picking, ..v }, EffectView::Nothing)
        }
    } else {
        (v, EffectView::Nothing)
    }
}

/// What a key press does: nothing while a worktree is being created; the
/// cancel binding first; on the list screens the refresh binding (fetch
/// all remotes) and then the binding that shows or hides remote branches;
/// then the keys of the current screen.
pub open spec fn key_step(v: AppView, key: KeyEvent) -> (AppView, EffectView) {
    if v.state is Creating {
        (v, EffectView::Nothing)
    } else if bound(v.config.keybindings.cancel, key) {
        cancelled(v)
    } else if bound(v.config.keybindings.refresh, key) && (v.state is Picking || v.state is SelectingBase) {
        fetch_started(v)
    } else if bound(v.config.keybindings.toggle_remotes, key) && (v.state is Picking
        || v.state is SelectingBase) {
        remotes_toggled(v)
    } else {
        match v.state {
            StateView::Picking => picking_key(v, key),
            StateView::NewIntent(selected) => intent_key(v, selected, key),
            StateView::SelectingBase => base_key(v, key),
            StateView::Naming(input, base, intent) => naming_key(v, input, base, intent, key),
            StateView::RemoteConflict(remote, input, selected) => conflict_key(v, remote, input, selected, key),
            StateView::Creating => (v, EffectView::Nothing),
        }
    }
}


impl App {
    /// Opens an entry (see `entry_opened`).
    pub fn start_open(&mut self, entry: BranchEntry) -> (r: Effect)
        requires
            app_wf(old(self)@),
        ensures
            (final(self)@, r@) == entry_opened(old(self)@, entry@),
            app_wf(final(self)@),
    {
        let backend = self.config.backend;
        let (target, switch) = match entry.kind {
            EntryKind::WorktreeCurrent | EntryKind::WorktreeMain | EntryKind::WorktreeOther => {
                match &entry.path {
                    Some(p) => (owned(p.as_str()), false),
                    None => {
                        self.error = Some(owned("Worktree entry is missing its path"));
                        return Effect::Nothing;
                    },
                }
            },
            EntryKind::BranchLocal => (owned(entry.branch.as_str()), true),
            EntryKind::BranchRemote => match remote_target(&entry, self.entries.as_slice()) {
                Ok(Some(t)) => (t, true),
                Ok(None) => {
                    self.state = AppState::RemoteConflict {
                        remote: entry,
                        input: String::new(),
                        selected: 0,
                    };
                    return Effect::Nothing;
                },
                Err(e) => {
                    self.error = Some(e);
                    return Effect::Nothing;
                },
            },
            EntryKind::NewWorktree => {
                self.error = Some(owned("Worktree entry is missing its path"));
                return Effect::Nothing;
            },
        };
        let task = if !switch {
            Task::Open { path: target }
        } else {
            match backend {
                WorktreeBackend::Worktrunk => Task::Switch { target },
                WorktreeBackend::Native => {
                    let base = if entry.kind == EntryKind::BranchRemote {
                        Some(target)
                    } else {
                        None
                    };
                    Task::Create { branch: entry.branch, base }
                },
            }
        };
        self.start_task(task)
    }

    fn task_for_name(&self, name: String, base: Option<BranchEntry>, intent: NamingIntent) -> (r: Task)
        ensures
            r@ == name_task(self@, name@, opt_entry(base), intent),
    {
        match base {
            Some(b) => {
                let base_ref = b.reference();
                match self.config.backend {
                    WorktreeBackend::Worktrunk => Task::SwitchFromBase { branch: name, base: base_ref },
                    WorktreeBackend::Native => Task::Create { branch: name, base: Some(base_ref) },
                }
            },
            None => match self.config.backend {
                WorktreeBackend::Worktrunk => if intent == NamingIntent::NewBranch {
                    Task::SwitchFromHead { branch: name }
                } else {
                    Task::Switch { target: name }
                },
                WorktreeBackend::Native => Task::CreateFromHead { branch: name },
            },
        }
    }

    /// Submits the typed name (see `name_submitted`).
    pub fn submit_name(&mut self, input: String, base: Option<BranchEntry>, intent: NamingIntent) -> (r: Effect)
        requires
            app_wf(old(self)@),
        ensures
            (final(self)@, r@) == name_submitted(old(self)@, input@, opt_entry(base), intent),
            app_wf(final(self)@),
    {
        let name = normalize_branch_name(input.as_str(), self.config.normalize_jira_prefix);
        if intent == NamingIntent::NewBranch {
            if is_reference(name.as_str()) {
                self.error = Some(owned("Enter a new branch name, not a PR, MR, or URL"));
                return Effect::Nothing;
            }
            return Effect::CheckName { name, base };
        } else if self.config.backend == WorktreeBackend::Native {
            self.error = Some(owned("Pull and merge requests require Worktrunk"));
            return Effect::Nothing;
        }
        match validate_reference(name.as_str()) {
            Err(e) => {
                self.error = Some(e);
                Effect::Nothing
            },
            Ok(()) => {
                let task = self.task_for_name(name, base, intent);
                self.start_task(task)
            },
        }
    }

    /// Goes on with a new branch name once git has checked it.
    pub fn finish_naming(&mut self, name: String, base: Option<BranchEntry>, check: Result<(), String>) -> (r: Effect)
        requires
            app_wf(old(self)@),
        ensures
            (final(self)@, r@) == naming_finished(
                old(self)@,
                name@,
                opt_entry(base),
                match check {
                    Ok(_) => Ok(()),
                    Err(e) => Err(e@),
                },
            ),
            app_wf(final(self)@),
    {
        match check {
            Err(e) => {
                self.error = Some(e);
                Effect::Nothing
            },
            Ok(()) => {
                let task = self.task_for_name(name, base, NamingIntent::NewBranch);
                self.start_task(task)
            },
        }
    }

    /// Takes in the result of a fetch.
    pub fn finish_fetch(&mut self, result: Result<Vec<BranchEntry>, String>)
        requires
            app_wf(old(self)@),
            result matches Ok(es) ==> es@.len() < isize::MAX,
        ensures
            final(self)@ == fetch_finished(
                old(self)@,
                match result {
                    Ok(es) => Ok(entry_views(es@)),
                    Err(e) => Err(e@),
                },
            ),
            app_wf(final(self)@),
    {
        self.fetching = false;
        match result {
            Ok(entries) => {
                self.entries = entries;
                self.apply_filter();
                self.status = Some(owned("Remote branches refreshed"));
                self.error = None;
            },
            Err(e) => {
                self.status = None;
                self.error = Some(e);
            },
        }
    }

    /// Takes in the result of a task; `Some(Created)` ends the picker.
    pub fn finish_creation(&mut self, result: Result<(), String>) -> (r: Option<TuiResult>)
        requires
            app_wf(old(self)@),
        ensures
            (final(self)@, r) == creation_finished(
                old(self)@,
                match result {
                    Ok(_) => Ok(()),
                    Err(e) => Err(e@),
                },
            ),
            app_wf(final(self)@),
    {
        self.creating = false;
        match result {
            Ok(()) => Some(TuiResult::Created),
            Err(e) => {
                self.error = Some(e);
                self.status = None;
                self.restore_after_creation();
                None
            },
        }
    }

    /// Returns to the screen a failed task started from.
    pub fn restore_after_creation(&mut self)
        requires
            app_wf(old(self)@),
        ensures
            final(self)@ == (AppView {
                state: match old(self)@.resume {
                    Some(s) => s,
                    None => StateView::Picking,
                },
                resume: None,
                ..old(self)@
            }),
            app_wf(final(self)@),
    {
        let resume = self.resume_state.take();
        self.state = match resume {
            Some(s) => s,
            None => AppState::Picking,
        };
    }
}


impl App {
    fn on_cancel(&mut self) -> (r: Effect)
        requires
            app_wf(old(self)@),
        ensures
            (final(self)@, r@) == cancelled(old(self)@),
            app_wf(final(self)@),
    {
        match &self.state {
            AppState::Picking => Effect::Exit(TuiResult::Cancelled),
            AppState::NewIntent { .. } => {
                self.state = AppState::Picking;
                Effect::Nothing
            },
            AppState::SelectingBase => {
                self.filter = owned(self.saved_filter.as_str());
                self.apply_filter();
                self.show_new_intent(1);
                Effect::Nothing
            },
            AppState::Naming { base, intent, .. } => {
                let back = if *intent == NamingIntent::OpenReference {
                    2
                } else if base.is_some() {
                    1
                } else {
                    0
                };
                self.show_new_intent(back);
                Effect::Nothing
            },
            AppState::RemoteConflict { .. } => {
                self.state = AppState::Picking;
                Effect::Nothing
            },
            AppState::Creating => Effect::Nothing,
        }
    }

    fn toggle_remotes(&mut self) -> (r: Effect)
        requires
            app_wf(old(self)@),
        ensures
            (final(self)@, r@) == remotes_toggled(old(self)@),
            app_wf(final(self)@),
    {
        self.show_remotes = !self.show_remotes;
        self.apply_filter();
        if self.show_remotes {
            self.start_fetch()
        } else {
            Effect::Nothing
        }
    }

    fn list_key(&mut self, key: KeyEvent) -> (r: Effect)
        requires
            app_wf(old(self)@),
        ensures
            (final(self)@, r@) == list_key(old(self)@, key),
            app_wf(final(self)@),
    {
        match key.code {
            KeyCode::Char(c) => {
                if c == 'u' && key.modifiers.control {
                    self.filter = String::new();
                } else {
                    push_char(&mut self.filter, c);
                }
                self.apply_filter();
            },
            KeyCode::Backspace => {
                pop_char(&mut self.filter);
                self.apply_filter();
            },
            KeyCode::Up => self.move_selection(-1),
            KeyCode::Down => self.move_selection(1),
            _ => {},
        }
        Effect::Nothing
    }

    fn picking_key(&mut self, key: KeyEvent) -> (r: Effect)
        requires
            app_wf(old(self)@),
            old(self)@.state is Picking,
        ensures
            (final(self)@, r@) == picking_key(old(self)@, key),
            app_wf(final(self)@),
    {
        if self.config.keybindings.confirm.matches(key) {
            if self.selected == Some(0usize) {
                self.show_new_intent(0);
                Effect::Nothing
            } else {
                match self.selected_entry() {
                    Some(entry) => self.start_open(entry),
                    None => Effect::Nothing,
                }
            }
        } else {
            self.list_key(key)
        }
    }

    fn intent_key(&mut self, selected: usize, key: KeyEvent) -> (r: Effect)
        requires
            app_wf(old(self)@),
            old(self)@.state == StateView::NewIntent(selected),
        ensures
            (final(self)@, r@) == intent_key(old(self)@, selected, key),
            app_wf(final(self)@),
    {
        if key.code == KeyCode::Up {
            self.show_new_intent(if selected > 0 { selected - 1 } else { 0 });
            Effect::Nothing
        } else if key.code == KeyCode::Down {
            self.show_new_intent(if selected >= 2 { 2 } else { selected + 1 });
            Effect::Nothing
        } else if self.config.keybindings.confirm.matches(key) {
            if !self.new_intent_available(selected) {
                Effect::Nothing
            } else if selected == 0 {
                self.state = AppState::Naming {
                    input: String::new(),
                    base: None,
                    intent: NamingIntent::NewBranch,
                };
                Effect::Nothing
            } else if selected == 1 {
                self.saved_filter = owned(self.filter.as_str());
                self.filter = String::new();
                self.apply_filter();
                self.state = AppState::SelectingBase;
                Effect::Nothing
            } else {
                self.state = AppState::Naming {
                    input: String::new(),
                    base: None,
                    intent: NamingIntent::OpenReference,
                };
                Effect::Nothing
            }
        } else {
            Effect::Nothing
        }
    }

    fn base_key(&mut self, key: KeyEvent) -> (r: Effect)
        requires
            app_wf(old(self)@),
        ensures
            (final(self)@, r@) == base_key(old(self)@, key),
            app_wf(final(self)@),
    {
        if self.config.keybindings.confirm.matches(key) {
            match self.selected_entry() {
                Some(b) => {
                    self.state = AppState::Naming {
                        input: String::new(),
                        base: Some(b),
                        intent: NamingIntent::NewBranch,
                    };
                },
                None => {},
            }
            Effect::Nothing
        } else {
            self.list_key(key)
        }
    }

    fn naming_key(&mut self, input: String, base: Option<BranchEntry>, intent: NamingIntent, key: KeyEvent) -> (r: Effect)
        requires
            app_wf(old(self)@),
        ensures
            (final(self)@, r@) == naming_key(old(self)@, input@, opt_entry(base), intent, key),
            app_wf(final(self)@),
    {
        if self.config.keybindings.confirm.matches(key) {
            return self.submit_name(input, base, intent);
        }
        let mut input = input;
        match key.code {
            KeyCode::Char(c) => {
                if c == 'u' && key.modifiers.control {
                    input = String::new();
                } else {
                    push_char(&mut input, c);
                }
            },
            KeyCode::Backspace => {
                pop_char(&mut input);
            },
            _ => {
                return Effect::Nothing;
            },
        }
        self.state = AppState::Naming { input, base, intent };
        Effect::Nothing
    }

    fn conflict_key(&mut self, remote: BranchEntry, input: String, selected: usize, key: KeyEvent) -> (r: Effect)
        requires
            app_wf(old(self)@),
            old(self)@.state == StateView::RemoteConflict(remote@, input@, selected),
        ensures
            (final(self)@, r@) == conflict_key(old(self)@, remote@, input@, selected, key),
            app_wf(final(self)@),
    {
        if key.code == KeyCode::Up {
            let s = if selected > 0 { selected - 1 } else { 0 };
            self.state = AppState::RemoteConflict { remote, input, selected: s };
            self.selected = Some(s);
        } else if key.code == KeyCode::Down {
            let s = if selected >= 1 { 1 } else { selected + 1 };
            self.state = AppState::RemoteConflict { remote, input, selected: s };
            self.selected = Some(s);
        } else if self.config.keybindings.confirm.matches(key) {
            if selected == 0 {
                self.state = AppState::Naming {
                    input,
                    base: Some(remote),
                    intent: NamingIntent::NewBranch,
                };
            } else {
                self.state = AppState::Picking;
            }
        }
        Effect::Nothing
    }

    /// What a key press does (see `key_step`).
    pub fn handle_key(&mut self, key: KeyEvent) -> (r: Effect)
        requires
            app_wf(old(self)@),
        ensures
            (final(self)@, r@) == key_step(old(self)@, key),
            app_wf(final(self)@),
    {
        if let AppState::Creating = self.state {
            return Effect::Nothing;
        }
        if self.config.keybindings.cancel.matches(key) {
            return self.on_cancel();
        }
        let listing = match self.state {
            AppState::Picking | AppState::SelectingBase => true,
            _ => false,
        };
        if self.config.keybindings.refresh.matches(key) && listing {
            return self.start_fetch();
        }
        if self.config.keybindings.toggle_remotes.matches(key) && listing {
            return self.toggle_remotes();
        }
        match self.state.clone() {
            AppState::Picking => self.picking_key(key),
            AppState::NewIntent { selected } => self.intent_key(selected, key),
            AppState::SelectingBase => self.base_key(key),
            AppState::Naming { input, base, intent } => self.naming_key(input, base, intent, key),
            AppState::RemoteConflict { remote, input, selected } => self.conflict_key(
                remote,
                input,
                selected,
                key,
            ),
            AppState::Creating => Effect::Nothing,
        }
    }
}

} // verus!
