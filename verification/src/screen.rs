//! What the picker shows: the header, the rows of each screen, the
//! status line, and the labels of entries and intents.
use vstd::prelude::*;
use crate::config::WorktreeBackend;
use crate::git::HeadState;
use crate::picker::{App, AppView, AppState, StateView, NamingIntent, intent_available};
use crate::wt::{EntryKind, EntryView, reference_of, entry_views};
use crate::text::{owned, concat};

verus! {

/// The colour of a piece of text.
#[derive(Debug, Clone, Copy, PartialEq, Eq, Structural)]
pub enum Tone {
    Accent,
    Green,
    Teal,
    Plain,
    Blue,
    Yellow,
    Muted,
}

/// The marker and colour of an entry's kind.
pub fn entry_indicator(kind: EntryKind) -> (r: (&'static str, Tone))
    ensures
        (r.0@, r.1) == (match kind {
            EntryKind::WorktreeCurrent => ("> here  "@, Tone::Accent),
            EntryKind::WorktreeMain => ("* main  "@, Tone::Green),
            EntryKind::WorktreeOther => ("[] tree "@, Tone::Teal),
            EntryKind::BranchLocal => ("~ local "@, Tone::Plain),
            EntryKind::BranchRemote => ("v remote"@, Tone::Blue),
            EntryKind::NewWorktree => ("+ new   "@, Tone::Yellow),
        }),
{
    match kind {
        EntryKind::WorktreeCurrent => ("> here  ", Tone::Accent),
        EntryKind::WorktreeMain => ("* main  ", Tone::Green),
        EntryKind::WorktreeOther => ("[] tree ", Tone::Teal),
        EntryKind::BranchLocal => ("~ local ", Tone::Plain),
        EntryKind::BranchRemote => ("v remote", Tone::Blue),
        EntryKind::NewWorktree => ("+ new   ", Tone::Yellow),
    }
}

/// One way of starting a new worktree, as the intent screen shows it.
#[derive(Debug)]
pub struct IntentOption {
    pub label: &'static str,
    /// What the intent does, or why it is unavailable.
    pub description: &'static str,
    pub available: bool,
    pub tone: Tone,
}

/// Why intent `selected` is unavailable, if it is.
pub open spec fn intent_blocker(selected: usize, head: HeadState, backend: WorktreeBackend) -> Option<Seq<char>> {
    if selected == 0 {
        match head {
            HeadState::Branch => None,
            HeadState::Detached => Some("Unavailable: detached HEAD"@),
            HeadState::Unborn => Some("Unavailable: create an initial commit first"@),
        }
    } else if selected == 1 {
        if head == HeadState::Unborn {
            Some("Unavailable: create an initial commit first"@)
        } else {
            None
        }
    } else if backend == WorktreeBackend::Native {
        Some("Requires Worktrunk"@)
    } else {
        None
    }
}

pub open spec fn intent_label(selected: usize) -> (Seq<char>, Seq<char>, Tone) {
    if selected == 0 {
        ("CURRENT HEAD"@, "Create a new branch from your current checkout"@, Tone::Green)
    } else if selected == 1 {
        ("ANOTHER BRANCH"@, "Choose a local or remote base, then name the branch"@, Tone::Blue)
    } else {
        ("PULL / MERGE REQUEST"@, "Open pr:123, mr:123, or a request URL"@, Tone::Yellow)
    }
}

/// The row of intent `selected` (0 to 2) on the intent screen.
pub fn intent_option(selected: usize, head: HeadState, backend: WorktreeBackend) -> (r: IntentOption)
    requires
        selected <= 2,
    ensures
        r.label@ == intent_label(selected).0,
        r.tone == intent_label(selected).2,
        r.available == intent_blocker(selected, head, backend) is None,
        r.description@ == (match intent_blocker(selected, head, backend) {
            Some(why) => why,
            None => intent_label(selected).1,
        }),
{
    let (label, description, tone, unavailable): (&'static str, &'static str, Tone, Option<&'static str>) = if selected == 0 {
        (
            "CURRENT HEAD",
            "Create a new branch from your current checkout",
            Tone::Green,
            match head {
                HeadState::Branch => None,
                HeadState::Detached => Some("Unavailable: detached HEAD"),
                HeadState::Unborn => Some("Unavailable: create an initial commit first"),
            },
        )
    } else if selected == 1 {
        (
            "ANOTHER BRANCH",
            "Choose a local or remote base, then name the branch",
            Tone::Blue,
            if head == HeadState::Unborn {
                Some("Unavailable: create an initial commit first")
            } else {
                None
            },
        )
    } else {
        (
            "PULL / MERGE REQUEST",
            "Open pr:123, mr:123, or a request URL",
            Tone::Yellow,
            if backend == WorktreeBackend::Native {
                Some("Requires Worktrunk")
            } else {
                None
            },
        )
    };
    match unavailable {
        Some(why) => IntentOption { label, description: why, available: false, tone },
        None => IntentOption { label, description, available: true, tone },
    }
}

/// A row of the picker's list.
#[derive(Debug)]
pub enum Row {
    /// The `New worktree...` row of the picking screen.
    NewWorktree,
    /// An entry: its kind, Worktrunk's status symbols and its reference.
    Entry { kind: EntryKind, symbols: String, reference: String },
    /// Intent 0, 1 or 2 of the intent screen.
    Intent(usize),
    /// A fixed line of text.
    Note(&'static str),
}

pub enum RowView {
    NewWorktree,
    Entry(EntryKind, Seq<char>, Seq<char>),
    Intent(usize),
    Note(Seq<char>),
}

impl View for Row {
    type V = RowView;

    open spec fn view(&self) -> RowView {
        match self {
            Row::NewWorktree => RowView::NewWorktree,
            Row::Entry { kind, symbols, reference } => RowView::Entry(*kind, symbols@, reference@),
            Row::Intent(i) => RowView::Intent(*i),
            Row::Note(t) => RowView::Note(t@),
        }
    }
}

pub open spec fn row_views(rs: Seq<Row>) -> Seq<RowView> {
    rs.map_values(|r: Row| r@)
}

pub open spec fn entry_row(e: EntryView) -> RowView {
    RowView::Entry(e.kind, e.symbols, reference_of(e))
}

/// The rows of the entries at the first `n` filtered positions that lie
/// within the entries.
pub open spec fn entry_rows(v: AppView, n: nat) -> Seq<RowView>
    decreases n,
{
    if n == 0 {
        Seq::empty()
    } else {
        let prev = entry_rows(v, (n - 1) as nat);
        let idx = v.filtered[n - 1];
        if idx < v.entries.len() {
            prev.push(entry_row(v.entries[idx as int]))
        } else {
            prev
        }
    }
}

/// The rows of the current screen.
pub open spec fn rows_of(v: AppView) -> Seq<RowView> {
    match v.state {
        StateView::Picking => seq![RowView::NewWorktree] + entry_rows(v, v.filtered.len()),
        StateView::SelectingBase => entry_rows(v, v.filtered.len()),
        StateView::NewIntent(_) => seq![RowView::Intent(0), RowView::Intent(1), RowView::Intent(2)],
        StateView::Naming(_, _, NamingIntent::NewBranch) => seq![RowView::Note("Enter a new branch name"@)],
        StateView::Naming(_, _, NamingIntent::OpenReference) => seq![
            RowView::Note("GitHub: pr:123   GitLab: mr:123   Or enter a request URL"@),
        ],
        StateView::RemoteConflict(_, _, _) => seq![
            RowView::Note("Create with another local name"@),
            RowView::Note("Back"@),
        ],
        StateView::Creating => seq![RowView::Note("Working..."@)],
    }
}

/// The title and text of the header box.
pub open spec fn header_of(v: AppView) -> (Seq<char>, Seq<char>) {
    let keys = v.config.keybindings;
    match v.state {
        StateView::Picking => (
            "Filter ("@ + keys.refresh.text() + " remotes, "@ + keys.cancel.text() + " cancel)"@,
            v.filter,
        ),
        StateView::NewIntent(_) => ("Create worktree"@, "Choose a starting point"@),
        StateView::SelectingBase => (
            "Select base branch ("@ + keys.refresh.text() + " remotes, "@ + keys.cancel.text()
                + " cancel)"@,
            v.filter,
        ),
        StateView::Naming(input, base, NamingIntent::NewBranch) => (
            "New branch from "@ + match base {
                Some(b) => reference_of(b),
                None => "current HEAD"@,
            },
            input,
        ),
        StateView::Naming(input, _, NamingIntent::OpenReference) => (
            "Open pull or merge request"@,
            input,
        ),
        StateView::RemoteConflict(remote, _, _) => (
            "Remote name conflict"@,
            reference_of(remote) + " already has a different local branch"@,
        ),
        StateView::Creating => (
            "Creating"@,
            match v.status {
                Some(s) => s,
                None => Seq::empty(),
            },
        ),
    }
}

/// The status line and whether it reports an error: the error, else the
/// status, else the keys of the intent screen.
pub open spec fn message_of(v: AppView) -> (Seq<char>, bool) {
    match v.error {
        Some(e) => (e, true),
        None => match v.status {
            Some(s) => (s, false),
            None => (
                if v.state is NewIntent {
                    "↑/↓ select   ↵ continue   Esc back"@
                } else {
                    Seq::empty()
                },
                false,
            ),
        },
    }
}

fn keys_title(prefix: &str, refresh: &str, cancel: &str) -> (r: String)
    ensures
        r@ == prefix@ + refresh@ + " remotes, "@ + cancel@ + " cancel)"@,
{
    let mut t = concat(prefix, refresh);
    t.append(" remotes, ");
    t.append(cancel);
    t.append(" cancel)");
    t
}

impl App {
    /// The title and text of the header box.
    pub fn header(&self) -> (r: (String, String))
        ensures
            (r.0@, r.1@) == header_of(self@),
    {
        let keys = &self.config.keybindings;
        match &self.state {
            AppState::Picking => (
                keys_title("Filter (", keys.refresh.display(), keys.cancel.display()),
                owned(self.filter.as_str()),
            ),
            AppState::NewIntent { .. } => (owned("Create worktree"), owned("Choose a starting point")),
            AppState::SelectingBase => (
                keys_title("Select base branch (", keys.refresh.display(), keys.cancel.display()),
                owned(self.filter.as_str()),
            ),
            AppState::Naming { input, base, intent } => match intent {
                NamingIntent::NewBranch => {
                    let from = match base {
                        Some(b) => b.reference(),
                        None => owned("current HEAD"),
                    };
                    (concat("New branch from ", from.as_str()), owned(input.as_str()))
                },
                NamingIntent::OpenReference => (
                    owned("Open pull or merge request"),
                    owned(input.as_str()),
                ),
            },
            AppState::RemoteConflict { remote, .. } => {
                let r = remote.reference();
                (
                    owned("Remote name conflict"),
                    concat(r.as_str(), " already has a different local branch"),
                )
            },
            AppState::Creating => (
                owned("Creating"),
                match &self.status {
                    Some(s) => owned(s.as_str()),
                    None => String::new(),
                },
            ),
        }
    }

    fn entry_rows(&self) -> (r: Vec<Row>)
        ensures
            row_views(r@) == entry_rows(self@, self@.filtered.len()),
    {
        let mut rows: Vec<Row> = Vec::new();
        let n = self.filtered.len();
        let mut i: usize = 0;
        assert(row_views(rows@) =~= Seq::<RowView>::empty());
        while i < n
            invariant
                n == self.filtered@.len(),
                i <= n,
                row_views(rows@) == entry_rows(self@, i as nat),
            decreases n - i,
        {
            let idx = self.filtered[i];
            if idx < self.entries.len() {
                let e = &self.entries[idx];
                assert(entry_views(self.entries@)[idx as int] == e@);
                let ghost before = rows@;
                rows.push(
                    Row::Entry {
                        kind: e.kind,
                        symbols: owned(e.symbols.as_str()),
                        reference: e.reference(),
                    },
                );
                assert(row_views(rows@) =~= row_views(before).push(entry_row(e@)));
            }
            i = i + 1;
        }
        rows
    }

    /// The rows of the current screen.
    pub fn rows(&self) -> (r: Vec<Row>)
        ensures
            row_views(r@) == rows_of(self@),
    {
        match &self.state {
            AppState::Picking => {
                let mut rows = vec![Row::NewWorktree];
                let mut rest = self.entry_rows();
                let ghost tail = rest@;
                rows.append(&mut rest);
                assert(row_views(rows@) =~= seq![RowView::NewWorktree] + row_views(tail));
                rows
            },
            AppState::SelectingBase => self.entry_rows(),
            AppState::NewIntent { .. } => {
                let rows = vec![Row::Intent(0), Row::Intent(1), Row::Intent(2)];
                assert(row_views(rows@) =~= seq![RowView::Intent(0), RowView::Intent(1), RowView::Intent(2)]);
                rows
            },
            AppState::Naming { intent, .. } => {
                let rows = match intent {
                    NamingIntent::NewBranch => vec![Row::Note("Enter a new branch name")],
                    NamingIntent::OpenReference => vec![
                        Row::Note("GitHub: pr:123   GitLab: mr:123   Or enter a request URL"),
                    ],
                };
                assert(row_views(rows@) =~= rows_of(self@));
                rows
            },
            AppState::RemoteConflict { .. } => {
                let rows = vec![Row::Note("Create with another local name"), Row::Note("Back")];
                assert(row_views(rows@) =~= rows_of(self@));
                rows
            },
            AppState::Creating => {
                let rows = vec![Row::Note("Working...")];
                assert(row_views(rows@) =~= rows_of(self@));
                rows
            },
        }
    }

    /// The title of the list box.
    pub fn list_title(&self) -> (r: &'static str)
        ensures
            r@ == (if self@.state is NewIntent {
                "Starting point"@
            } else {
                "Worktrees and branches"@
            }),
    {
        match self.state {
            AppState::NewIntent { .. } => "Starting point",
            _ => "Worktrees and branches",
        }
    }

    /// The status line, and whether it reports an error.
    pub fn message(&self) -> (r: (String, bool))
        ensures
            (r.0@, r.1) == message_of(self@),
    {
        match &self.error {
            Some(e) => (owned(e.as_str()), true),
            None => match &self.status {
                Some(s) => (owned(s.as_str()), false),
                None => match self.state {
                    AppState::NewIntent { .. } => (owned("↑/↓ select   ↵ continue   Esc back"), false),
                    _ => (String::new(), false),
                },
            },
        }
    }
}

/// The intent screen offers an intent exactly when choosing it goes on.
pub proof fn lemma_intent_row_matches_behaviour(selected: usize, head: HeadState, backend: WorktreeBackend)
    requires
        selected <= 2,
    ensures
        (intent_blocker(selected, head, backend) is None) == intent_available(head, backend, selected),
{
}

} // verus!
