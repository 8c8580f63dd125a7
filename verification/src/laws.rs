//! Properties that hold across the library's operations.
use vstd::prelude::*;
use crate::config::{
    binding_of, KeyCode, KeyModifiers, no_modifiers, modifier_named, BindingError,
};
use crate::git::{normalized_branch, is_ticket, is_prefix_char};
use crate::picker::{
    AppView, StateView, EffectView, TaskView, key_step, remotes_toggled, refiltered, cancelled, intent_key, task_started,
    creation_finished, filtered_for, shown_indices, shown, moved, row_count,
    intent_available, bound, names_reference, reference_problem, };
use crate::text::{
    find_first, first_at, lemma_first_at_unique, upper, upper_char, is_space, is_alpha,
    };
use crate::wt::{
    removal_safety_of, removal_allowed, RemovalSafety, EntryView, listed_entries, needs_path_check,
    };
use crate::json::{JsonValue, member, member_of, bool_of, array_of};
use crate::wt::{item_at_path, worktree_path, reference_of, EntryKind};
use crate::text::{has_infix, lowercase};
use crate::removal::confirm_answer;

verus! {

proof fn lemma_upper_keeps_prefix_chars(p: Seq<char>)
    requires
        forall|i: int| 0 <= i < p.len() ==> is_prefix_char(#[trigger] p[i]),
    ensures
        upper(p).len() == p.len(),
        forall|i: int| 0 <= i < p.len() ==> is_prefix_char(#[trigger] upper(p)[i]) && upper(p)[i] != '-',
        upper(upper(p)) == upper(p),
        p.len() > 0 && is_alpha(p[0]) ==> is_alpha(upper(p)[0]),
{
    assert forall|i: int| 0 <= i < p.len() implies is_prefix_char(#[trigger] upper(p)[i]) && upper(p)[i] != '-' by {
        let c = p[i];
        assert(upper(p)[i] == upper_char(c));
    }
    assert(upper(upper(p)) =~= upper(p));
}

/// Normalising a branch name twice gives what normalising it once gives.
pub proof fn lemma_normalize_idempotent(branch: Seq<char>, enabled: bool)
    ensures
        normalized_branch(normalized_branch(branch, enabled), enabled) == normalized_branch(branch, enabled),
{
    if enabled {
        match find_first(branch, '-') {
            Some(k) => {
                assert(first_at(branch, '-', k));
                let prefix = branch.take(k);
                let rest = branch.skip(k + 1);
                if is_ticket(prefix, rest) {
                    let u = upper(prefix);
                    let out = u + seq!['-'] + rest;
                    lemma_upper_keeps_prefix_chars(prefix);
                    assert(first_at(out, '-', k));
                    lemma_first_at_unique(out, '-', k);
                    assert(out.take(k) =~= u);
                    assert(out.skip(k + 1) =~= rest);
                    assert(is_ticket(u, rest));
                }
            },
            None => {},
        }
    }
}

/// Normalising a branch name keeps its length.
pub proof fn lemma_normalize_keeps_length(branch: Seq<char>, enabled: bool)
    ensures
        normalized_branch(branch, enabled).len() == branch.len(),
{
    if enabled {
        match find_first(branch, '-') {
            Some(k) => {
                assert(first_at(branch, '-', k));
            },
            None => {},
        }
    }
}

/// `shift` followed by a single character binds that character upper-cased,
/// with shift held.
pub proof fn lemma_shift_uppercases(c: char)
    requires
        !is_space(c),
        c != '+',
    ensures
        binding_of(seq!['s', 'h', 'i', 'f', 't', '+', c]) == Ok::<(KeyCode, KeyModifiers), BindingError>(
            (KeyCode::Char(upper_char(c)), KeyModifiers { shift: true, ..no_modifiers() }),
        ),
{
    reveal_strlit("shift");
    let m = seq!['s', 'h', 'i', 'f', 't'];
    assert(m =~= "shift"@);
    assert(m.len() != "alt"@.len() && m.len() != "ctrl"@.len() && m.len() != "control"@.len()) by {
        reveal_strlit("alt");
        reveal_strlit("ctrl");
        reveal_strlit("control");
    }
    assert(modifier_named(m) == Some(crate::config::Modifier::Shift));
    assert(m.push('+').push(c) =~= seq!['s', 'h', 'i', 'f', 't', '+', c]);
    crate::config::lemma_modifier_char_binding(m, crate::config::Modifier::Shift, c);
}

/// A worktree with changes is never offered for removal.
pub proof fn lemma_dirty_never_removable(list: JsonValue, path: Seq<char>)
    requires
        removal_safety_of(list, path) == RemovalSafety::Dirty,
    ensures
        !removal_allowed(removal_safety_of(list, path)),
{
}

/// A verdict that cannot be established never allows removal.
pub proof fn lemma_unknown_never_removable()
    ensures
        !removal_allowed(RemovalSafety::Unknown),
        !removal_allowed(RemovalSafety::Dirty),
{
}

/// When no worktree path exists, no worktree entry with a path is listed.
pub proof fn lemma_missing_worktrees_dropped(items: Seq<JsonValue>, present: Seq<bool>, n: nat)
    requires
        n <= items.len(),
        forall|i: int| 0 <= i < present.len() ==> !#[trigger] present[i],
        present.len() >= items.len(),
    ensures
        forall|j: int| 0 <= j < listed_entries(items, present, n).len() ==> !needs_path_check(
            #[trigger] listed_entries(items, present, n)[j],
        ),
    decreases n,
{
    if n > 0 {
        lemma_missing_worktrees_dropped(items, present, (n - 1) as nat);
        let prev = listed_entries(items, present, (n - 1) as nat);
        let cur = listed_entries(items, present, n);
        assert(!crate::wt::present_at(present, n - 1));
        assert forall|j: int| 0 <= j < cur.len() implies !needs_path_check(#[trigger] cur[j]) by {
            if j < prev.len() {
                assert(cur[j] == prev[j]);
            }
        }
    }
}

/// Every row of the filtered list is an entry that the filter shows, in
/// the order of the entries.
pub proof fn lemma_filtered_rows_are_shown(
    es: Seq<EntryView>,
    show_remotes: bool,
    query: Seq<char>,
    n: nat,
)
    requires
        n <= es.len(),
        n <= usize::MAX,
    ensures
        forall|j: int| 0 <= j < shown_indices(es, show_remotes, query, n).len() ==> {
            let idx = #[trigger] shown_indices(es, show_remotes, query, n)[j];
            &&& idx < n
            &&& shown(es[idx as int], show_remotes, query)
        },
        forall|j: int, k: int| 0 <= j < k < shown_indices(es, show_remotes, query, n).len() ==>
            #[trigger] shown_indices(es, show_remotes, query, n)[j] < #[trigger] shown_indices(es, show_remotes, query, n)[k],
    decreases n,
{
    if n > 0 {
        lemma_filtered_rows_are_shown(es, show_remotes, query, (n - 1) as nat);
        let prev = shown_indices(es, show_remotes, query, (n - 1) as nat);
        let cur = shown_indices(es, show_remotes, query, n);
        assert forall|j: int| 0 <= j < cur.len() implies {
            let idx = #[trigger] cur[j];
            &&& idx < n
            &&& shown(es[idx as int], show_remotes, query)
        } by {
            if j < prev.len() {
                assert(cur[j] == prev[j]);
            }
        }
        assert forall|j: int, k: int| 0 <= j < k < cur.len() implies #[trigger] cur[j] < #[trigger] cur[k] by {
            if k < prev.len() {
                assert(cur[j] == prev[j]);
                assert(cur[k] == prev[k]);
            } else {
                assert(cur[j] == prev[j]);
            }
        }
    }
}

/// The picker never lists the main worktree, nor a remote branch while
/// remote branches are hidden.
pub proof fn lemma_filter_hides(es: Seq<EntryView>, show_remotes: bool, filter: Seq<char>)
    requires
        es.len() <= usize::MAX,
    ensures
        forall|j: int| 0 <= j < filtered_for(es, show_remotes, filter).len() ==> {
            let e = es[#[trigger] filtered_for(es, show_remotes, filter)[j] as int];
            &&& e.kind != crate::wt::EntryKind::WorktreeMain
            &&& !show_remotes ==> e.kind != crate::wt::EntryKind::BranchRemote
        },
{
    lemma_filtered_rows_are_shown(es, show_remotes, crate::text::lowercase(filter), es.len());
}

/// Moving the highlight keeps it on a row of the screen.
pub proof fn lemma_highlight_stays_on_screen(v: AppView, delta: int)
    requires
        row_count(v) > 0,
    ensures
        moved(v, delta).selected matches Some(s) && s < row_count(v),
{
}

/// While a worktree is being created, keys change nothing.
pub proof fn lemma_keys_wait_while_creating(v: AppView, key: crate::config::KeyEvent)
    requires
        v.state is Creating,
    ensures
        key_step(v, key) == (v, EffectView::Nothing),
{
}

/// A task that fails returns the picker to the screen it started from,
/// with the failure as its error.
pub proof fn lemma_failed_task_restores_screen(v: AppView, t: TaskView, msg: Seq<char>)
    ensures
        ({
            let (after, done) = creation_finished(task_started(v, t).0, Err(msg));
            &&& after.state == v.state
            &&& after.error == Some(msg)
            &&& after.status is None
            &&& !after.creating
            &&& done is None
        }),
{
}

/// A task that succeeds ends the picker as created.
pub proof fn lemma_finished_task_ends_picker(v: AppView, t: TaskView)
    ensures
        creation_finished(task_started(v, t).0, Ok(())).1 == Some(crate::picker::TuiResult::Created),
{
}

/// Choosing to start from the current HEAD or a request, then cancelling
/// the name, returns to the intent screen with that intent highlighted.
pub proof fn lemma_cancel_returns_to_intent(v: AppView, s: usize, key: crate::config::KeyEvent)
    requires
        v.state == StateView::NewIntent(s),
        s == 0 || s == 2,
        intent_available(v.head, v.config.backend, s),
        bound(v.config.keybindings.confirm, key),
        key.code != crate::config::KeyCode::Up,
        key.code != crate::config::KeyCode::Down,
    ensures
        cancelled(intent_key(v, s, key).0).0.state == StateView::NewIntent(s),
        cancelled(intent_key(v, s, key).0).0.selected == Some(s),
{
}

/// Choosing another base clears the filter; cancelling the choice of base
/// brings the filter back and highlights that intent again.
pub proof fn lemma_cancel_base_restores_filter(v: AppView, key: crate::config::KeyEvent)
    requires
        v.state == StateView::NewIntent(1),
        intent_available(v.head, v.config.backend, 1),
        bound(v.config.keybindings.confirm, key),
        key.code != crate::config::KeyCode::Up,
        key.code != crate::config::KeyCode::Down,
    ensures
        intent_key(v, 1, key).0.filter == Seq::<char>::empty(),
        intent_key(v, 1, key).0.state == StateView::SelectingBase,
        cancelled(intent_key(v, 1, key).0).0.filter == v.filter,
        cancelled(intent_key(v, 1, key).0).0.state == StateView::NewIntent(1),
{
}

/// A request reference that passes validation is recognised as a
/// reference, so it is never taken for a branch name.
pub proof fn lemma_valid_reference_is_reference(input: Seq<char>)
    requires
        reference_problem(input) is None,
    ensures
        names_reference(input),
{
}


/// Showing and then hiding remote branches (or the reverse) leaves the
/// same rows listed as before.
pub proof fn lemma_toggle_twice_restores_rows(v: AppView)
    ensures
        remotes_toggled(remotes_toggled(v).0).0.show_remotes == v.show_remotes,
        remotes_toggled(remotes_toggled(v).0).0.filtered == refiltered(v).filtered,
        remotes_toggled(remotes_toggled(v).0).0.entries == v.entries,
        remotes_toggled(remotes_toggled(v).0).0.filter == v.filter,
{
}


/// On the picking screen and on the base-selection screen alike, the key
/// bound to showing remote branches flips whether they are shown, keeps
/// the screen and the filter, and starts a fetch when they become shown.
pub proof fn lemma_toggle_acts_on_list_screens(v: AppView, key: crate::config::KeyEvent)
    requires
        v.state is Picking || v.state is SelectingBase,
        bound(v.config.keybindings.toggle_remotes, key),
        !bound(v.config.keybindings.cancel, key),
        !bound(v.config.keybindings.refresh, key),
    ensures
        key_step(v, key).0.show_remotes == !v.show_remotes,
        key_step(v, key).0.filter == v.filter,
        key_step(v, key).0.state == v.state,
        key_step(v, key).0.entries == v.entries,
        !v.show_remotes && !v.fetching ==> key_step(v, key).1 == EffectView::Fetch
            && key_step(v, key).0.fetching
            && key_step(v, key).0.status == Some("Fetching all remotes..."@),
        v.show_remotes ==> key_step(v, key).1 == EffectView::Nothing,
{
}

proof fn lemma_shown_indices_keep(es: Seq<EntryView>, show_remotes: bool, query: Seq<char>, n: nat, i: int)
    requires
        0 <= i < n,
        n <= es.len(),
        n <= usize::MAX,
        shown(es[i], show_remotes, query),
    ensures
        shown_indices(es, show_remotes, query, n).contains(i as usize),
    decreases n,
{
    let cur = shown_indices(es, show_remotes, query, n);
    let prev = shown_indices(es, show_remotes, query, (n - 1) as nat);
    if i == n - 1 {
        assert(cur == prev.push(i as usize));
        assert(cur[prev.len() as int] == i as usize);
    } else {
        lemma_shown_indices_keep(es, show_remotes, query, (n - 1) as nat, i);
        let k = choose|k: int| 0 <= k < prev.len() && prev[k] == i as usize;
        if shown(es[n - 1], show_remotes, query) {
            assert(cur[k] == prev[k]);
        }
    }
}

/// An entry is among the filtered rows exactly when it is not the main
/// worktree, is not a remote branch while remote branches are hidden, and
/// its reference, lower-cased, contains the lower-cased filter. Every
/// other entry (other worktrees, local branches, shown remote branches)
/// that matches is listed.
pub proof fn lemma_filter_lists_exactly_matches(
    es: Seq<EntryView>,
    show_remotes: bool,
    filter: Seq<char>,
    i: int,
)
    requires
        0 <= i < es.len(),
        es.len() <= usize::MAX,
    ensures
        filtered_for(es, show_remotes, filter).contains(i as usize) <==> {
            &&& es[i].kind != EntryKind::WorktreeMain
            &&& show_remotes || es[i].kind != EntryKind::BranchRemote
            &&& has_infix(lowercase(reference_of(es[i])), lowercase(filter))
        },
{
    let q = lowercase(filter);
    let f = filtered_for(es, show_remotes, filter);
    if es[i].kind != EntryKind::WorktreeMain && (show_remotes || es[i].kind != EntryKind::BranchRemote)
        && has_infix(lowercase(reference_of(es[i])), q) {
        lemma_shown_indices_keep(es, show_remotes, q, es.len(), i);
    }
    if f.contains(i as usize) {
        lemma_filtered_rows_are_shown(es, show_remotes, q, es.len());
        let k = choose|k: int| 0 <= k < f.len() && f[k] == i as usize;
        assert(f[k] == i as usize);
    }
}

proof fn lemma_item_at_index(items: Seq<JsonValue>, path: Seq<char>, i: int)
    requires
        0 <= i < items.len(),
        worktree_path(items[i]) == Some(path),
        forall|j: int| 0 <= j < i ==> worktree_path(#[trigger] items[j]) != Some(path),
    ensures
        item_at_path(items, path) == Some(items[i]),
    decreases i,
{
    if i > 0 {
        let rest = items.drop_first();
        assert(worktree_path(items[0]) != Some(path));
        assert forall|j: int| 0 <= j < i - 1 implies worktree_path(#[trigger] rest[j]) != Some(path) by {
            assert(rest[j] == items[j + 1]);
        }
        assert(rest[i - 1] == items[i]);
        lemma_item_at_index(rest, path, i - 1);
    }
}

/// A listed worktree with staged, modified, untracked, renamed, deleted or
/// conflicted changes is dirty: it is never offered for removal.
pub proof fn lemma_changed_worktree_is_dirty(
    list: JsonValue,
    path: Seq<char>,
    i: int,
    key: Seq<char>,
)
    requires
        array_of(member(list, "items"@)) matches Some(items) && 0 <= i < items.len() && worktree_path(
            items[i],
        ) == Some(path) && (forall|j: int| 0 <= j < i ==> worktree_path(#[trigger] items[j]) != Some(path))
            && bool_of(member_of(member_of(member(items[i], "worktree"@), "changes"@), key)) == Some(
            true,
        ),
        key == "staged"@ || key == "modified"@ || key == "untracked"@ || key == "renamed"@ || key
            == "deleted"@ || key == "conflicted"@,
    ensures
        removal_safety_of(list, path) == RemovalSafety::Dirty,
        !removal_allowed(removal_safety_of(list, path)),
{
    let items = array_of(member(list, "items"@)).unwrap();
    lemma_item_at_index(items, path, i);
}

/// The dialog removes on `y` or `Y` exactly for the verdicts that allow
/// removal (safe, branch checked out elsewhere, branch not integrated),
/// and cancels on `n`, `N` or Escape whatever the verdict.
pub proof fn lemma_yes_removes_exactly_when_allowed(safety: RemovalSafety)
    ensures
        confirm_answer(KeyCode::Char('y'), safety) == Some(true) <==> (safety == RemovalSafety::Safe
            || safety == RemovalSafety::BranchCheckedOutElsewhere || safety
            == RemovalSafety::BranchNotIntegrated),
        confirm_answer(KeyCode::Char('Y'), safety) == confirm_answer(KeyCode::Char('y'), safety),
        confirm_answer(KeyCode::Char('n'), safety) == Some(false),
        confirm_answer(KeyCode::Char('N'), safety) == Some(false),
        confirm_answer(KeyCode::Esc, safety) == Some(false),
{
}

/// `pr:` or `mr:` followed by a non-empty run of ASCII digits, of any
/// length, is accepted; followed by anything else it is refused.
pub proof fn lemma_numeric_requests_accepted(d: Seq<char>)
    ensures
        reference_problem("pr:"@ + d) is None <==> (d.len() > 0 && forall|i: int|
            0 <= i < d.len() ==> '0' <= #[trigger] d[i] <= '9'),
        reference_problem("mr:"@ + d) is None <==> (d.len() > 0 && forall|i: int|
            0 <= i < d.len() ==> '0' <= #[trigger] d[i] <= '9'),
{
    reveal_strlit("pr:");
    reveal_strlit("mr:");
    assert("pr:"@.is_prefix_of("pr:"@ + d));
    assert(("pr:"@ + d).skip(3) =~= d);
    assert("mr:"@.is_prefix_of("mr:"@ + d));
    assert(("mr:"@ + d).skip(3) =~= d);
    assert(!"pr:"@.is_prefix_of("mr:"@ + d)) by {
        assert(("mr:"@ + d)[0] == 'm');
    }
}

} // verus!
