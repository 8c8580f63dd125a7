//! Git: the state of HEAD, the rules for new branch names and the optional
//! upper-casing of a Jira-style ticket prefix.
use vstd::prelude::*;
use crate::herdr::{texts, words};
use crate::config::{split_on, lemma_split_step, lemma_split_nonempty};
use crate::text::{
    trim, trim_str, concat, is_alpha, is_alnum, is_digit, upper, find_first, owned, find_char,
    char_is_alpha, char_is_digit, ascii_upper, concat3, push_char, starts_with, strip_prefix,
};

verus! {

/// What HEAD points at.
#[derive(Debug, Clone, Copy, PartialEq, Eq, Structural)]
pub enum HeadState {
    Branch,
    Detached,
    Unborn,
}

/// The state of HEAD from git's answers: whether `rev-parse --verify HEAD`
/// succeeded, and whether `symbolic-ref HEAD` did (asked only after the
/// first succeeded).
pub fn head_state_from(head_resolves: bool, head_is_symbolic: bool) -> (r: HeadState)
    ensures
        r == (if !head_resolves {
            HeadState::Unborn
        } else if head_is_symbolic {
            HeadState::Branch
        } else {
            HeadState::Detached
        }),
{
    if !head_resolves {
        HeadState::Unborn
    } else if head_is_symbolic {
        HeadState::Branch
    } else {
        HeadState::Detached
    }
}

/// A character allowed in a ticket prefix: an ASCII letter, digit or `_`.
pub open spec fn is_prefix_char(c: char) -> bool {
    is_alnum(c) || c == '_'
}

/// `prefix` and `rest`, the two sides of the first `-`, form a ticket:
/// the prefix starts with a letter and holds only letters, digits and `_`,
/// and the rest starts with a digit.
pub open spec fn is_ticket(prefix: Seq<char>, rest: Seq<char>) -> bool {
    &&& prefix.len() > 0
    &&& is_alpha(prefix[0])
    &&& forall|i: int| 0 <= i < prefix.len() ==> is_prefix_char(#[trigger] prefix[i])
    &&& rest.len() > 0
    &&& is_digit(rest[0])
}

/// `branch` with a ticket prefix upper-cased (`jira-123-fix` becomes
/// `JIRA-123-fix`); any other name is left as it is.
pub open spec fn jira_normalized(branch: Seq<char>) -> Seq<char> {
    match find_first(branch, '-') {
        Some(k) => {
            let prefix = branch.take(k);
            let rest = branch.skip(k + 1);
            if is_ticket(prefix, rest) {
                upper(prefix) + seq!['-'] + rest
            } else {
                branch
            }
        },
        None => branch,
    }
}

/// What `normalize_branch_name` gives back.
pub open spec fn normalized_branch(branch: Seq<char>, enabled: bool) -> Seq<char> {
    if enabled {
        jira_normalized(branch)
    } else {
        branch
    }
}

/// Upper-cases the ticket prefix of a Jira-style branch name when `enabled`.
pub fn normalize_branch_name(branch: &str, enabled: bool) -> (r: String)
    ensures
        r@ == normalized_branch(branch@, enabled),
{
    if !enabled {
        return owned(branch);
    }
    let n = branch.unicode_len();
    let k = match find_char(branch, '-') {
        Some(k) => k,
        None => return owned(branch),
    };
    let prefix = branch.substring_char(0, k);
    let rest = branch.substring_char(k + 1, n);
    assert(prefix@ =~= branch@.take(k as int));
    assert(rest@ =~= branch@.skip(k + 1));
    if k == 0 || !char_is_alpha(prefix.get_char(0)) || k + 1 >= n || !char_is_digit(
        rest.get_char(0),
    ) {
        return owned(branch);
    }
    let mut i: usize = 0;
    while i < k
        invariant
            k == prefix@.len(),
            prefix@ == branch@.take(k as int),
            rest@ == branch@.skip(k + 1),
            find_first(branch@, '-') == Some(k as int),
            i <= k,
            forall|j: int| 0 <= j < i ==> is_prefix_char(#[trigger] prefix@[j]),
        decreases k - i,
    {
        let c = prefix.get_char(i);
        if !(char_is_alpha(c) || char_is_digit(c) || c == '_') {
            assert(!is_prefix_char(prefix@[i as int]));
            return owned(branch);
        }
        i = i + 1;
    }
    let head = ascii_upper(prefix);
    proof {
        reveal_strlit("-");
    }
    concat3(head.as_str(), "-", rest)
}


/// A new branch needs a name.
pub fn require_branch_name(branch: &str) -> (r: Result<(), String>)
    ensures
        branch@.len() == 0 ==> (r matches Err(e) && e@ == "Branch name is required"@),
        branch@.len() > 0 ==> r is Ok,
{
    if branch.unicode_len() == 0 {
        Err(owned("Branch name is required"))
    } else {
        Ok(())
    }
}

/// Whether git accepts the name as a branch name; when it does not, the
/// message is git's error output without surrounding white space.
pub fn ref_format_verdict(valid: bool, stderr: &str) -> (r: Result<(), String>)
    ensures
        valid ==> r is Ok,
        !valid ==> (r matches Err(e) && e@ == trim(stderr@)),
{
    if valid {
        Ok(())
    } else {
        Err(owned(trim_str(stderr)))
    }
}

/// The ref that a local branch named `branch` has.
pub fn local_branch_ref(branch: &str) -> (r: String)
    ensures
        r@ == "refs/heads/"@ + branch@,
{
    concat("refs/heads/", branch)
}

/// A new branch may not exist locally already.
pub fn existing_branch_verdict(exists: bool, branch: &str) -> (r: Result<(), String>)
    ensures
        !exists ==> r is Ok,
        exists ==> (r matches Err(e) && e@ == "Branch "@ + branch@ + " already exists locally"@),
{
    if exists {
        Err(concat3("Branch ", branch, " already exists locally"))
    } else {
        Ok(())
    }
}

/// git's arguments that create `branch` at `base`, tracking it when asked.
pub fn create_branch_from(repo_root: &str, branch: &str, base: &str, track: bool) -> (r: Vec<String>)
    ensures
        texts(r@) == seq!["-C"@, repo_root@, "branch"@] + (if track {
            seq!["--track"@]
        } else {
            Seq::empty()
        }) + seq![branch@, base@],
{
    let r = if track {
        words(&["-C", repo_root, "branch", "--track", branch, base])
    } else {
        words(&["-C", repo_root, "branch", branch, base])
    };
    assert(texts(r@) =~= seq!["-C"@, repo_root@, "branch"@] + (if track {
        seq!["--track"@]
    } else {
        Seq::empty()
    }) + seq![branch@, base@]);
    r
}


/// A line without the carriage return that ended it.
pub open spec fn strip_cr(l: Seq<char>) -> Seq<char> {
    if l.len() > 0 && l.last() == '\r' {
        l.drop_last()
    } else {
        l
    }
}

/// The lines of `s` (`str::lines`): split at `\n`, each line that a `\n`
/// ended losing a final `\r`, and no empty line after a final `\n`.
pub open spec fn lines_of(s: Seq<char>) -> Seq<Seq<char>> {
    let ps = split_on(s, '\n');
    let body = ps.drop_last().map_values(|l: Seq<char>| strip_cr(l));
    if ps.last().len() == 0 {
        body
    } else {
        body.push(ps.last())
    }
}

pub open spec fn is_worktree_line(l: Seq<char>) -> bool {
    "worktree "@.is_prefix_of(l)
}

/// Line `k` is the first `worktree` line.
pub open spec fn first_worktree_line(ls: Seq<Seq<char>>, k: int) -> bool {
    &&& 0 <= k < ls.len()
    &&& is_worktree_line(ls[k])
    &&& forall|j: int| 0 <= j < k ==> !is_worktree_line(#[trigger] ls[j])
}

/// The path of the first worktree in `git worktree list --porcelain`
/// output: the primary worktree.
pub open spec fn primary_worktree_of(out: Seq<char>) -> Option<Seq<char>> {
    let ls = lines_of(out);
    if exists|k: int| first_worktree_line(ls, k) {
        Some(ls[choose|k: int| first_worktree_line(ls, k)].skip("worktree "@.len() as int))
    } else {
        None
    }
}

proof fn lemma_first_worktree_line_unique(ls: Seq<Seq<char>>, k: int)
    requires
        first_worktree_line(ls, k),
    ensures
        (choose|j: int| first_worktree_line(ls, j)) == k,
{
    let j = choose|j: int| first_worktree_line(ls, j);
    assert(first_worktree_line(ls, j));
    if j < k {
        assert(!is_worktree_line(ls[j]));
    } else if k < j {
        assert(!is_worktree_line(ls[k]));
    }
}

proof fn lemma_split_extends(s: Seq<char>, sep: char, i: int, j: int)
    requires
        0 <= i <= j <= s.len(),
    ensures
        split_on(s.take(j), sep).len() >= split_on(s.take(i), sep).len(),
        forall|k: int| 0 <= k < split_on(s.take(i), sep).len() - 1 ==> #[trigger] split_on(s.take(j), sep)[k]
            == split_on(s.take(i), sep)[k],
    decreases j - i,
{
    if j > i {
        lemma_split_extends(s, sep, i, j - 1);
        lemma_split_step(s, sep, j - 1);
        lemma_split_nonempty(s.take(j - 1), sep);
        lemma_split_nonempty(s.take(i), sep);
    }
}

fn without_cr(l: &str) -> (r: &str)
    ensures
        r@ == strip_cr(l@),
{
    let n = l.unicode_len();
    if n > 0 && l.get_char(n - 1) == '\r' {
        let r = l.substring_char(0, n - 1);
        assert(r@ =~= l@.drop_last());
        r
    } else {
        l
    }
}

/// The path of the primary worktree in `git worktree list --porcelain` output.
pub fn primary_worktree(porcelain: &str) -> (r: Option<String>)
    ensures
        match primary_worktree_of(porcelain@) {
            Some(p) => r matches Some(s) && s@ == p,
            None => r is None,
        },
{
    proof {
        reveal_strlit("worktree ");
    }
    let n = porcelain.unicode_len();
    let ghost s = porcelain@;
    let mut cur = String::new();
    let mut i: usize = 0;
    proof {
        assert(s.take(0) =~= Seq::<char>::empty());
    }
    while i < n
        invariant
            n == s.len(),
            s == porcelain@,
            i <= n,
            "worktree "@.len() == 9,
            cur@ == split_on(s.take(i as int), '\n').last(),
            split_on(s.take(i as int), '\n').len() >= 1,
            forall|j: int| 0 <= j < split_on(s.take(i as int), '\n').len() - 1 ==> !is_worktree_line(
                strip_cr(#[trigger] split_on(s.take(i as int), '\n')[j]),
            ),
        decreases n - i,
    {
        let c = porcelain.get_char(i);
        let ghost p = split_on(s.take(i as int), '\n');
        proof {
            lemma_split_step(s, '\n', i as int);
        }
        if c == '\n' {
            let line = without_cr(cur.as_str());
            if starts_with(line, "worktree ") {
                proof {
                    let q = split_on(s, '\n');
                    let k = p.len() - 1;
                    lemma_split_extends(s, '\n', i + 1, n as int);
                    assert(s.take(n as int) =~= s);
                    assert(split_on(s.take(i + 1), '\n') == p.push(Seq::<char>::empty()));
                    assert(q[k] == p[k]);
                    let ls = lines_of(s);
                    assert(ls[k] == strip_cr(q[k]));
                    assert forall|j: int| 0 <= j < k implies !is_worktree_line(#[trigger] ls[j]) by {
                        assert(q[j] == p[j]);
                        assert(ls[j] == strip_cr(q[j]));
                    }
                    assert(first_worktree_line(ls, k));
                    lemma_first_worktree_line_unique(ls, k);
                }
                return match strip_prefix(line, "worktree ") {
                    Some(rest) => Some(owned(rest)),
                    None => None,
                };
            }
            cur = String::new();
            proof {
                let p2 = p.push(Seq::<char>::empty());
                assert forall|j: int| 0 <= j < p2.len() - 1 implies !is_worktree_line(strip_cr(#[trigger] p2[j])) by {
                    if j < p.len() - 1 {
                        assert(p2[j] == p[j]);
                    }
                }
            }
        } else {
            push_char(&mut cur, c);
            proof {
                let p2 = p.update(p.len() - 1, p.last().push(c));
                assert forall|j: int| 0 <= j < p2.len() - 1 implies !is_worktree_line(strip_cr(#[trigger] p2[j])) by {
                    assert(p2[j] == p[j]);
                }
            }
        }
        i = i + 1;
    }
    proof {
        assert(s.take(n as int) =~= s);
    }
    let ghost q = split_on(s, '\n');
    let ghost ls = lines_of(s);
    proof {
        assert forall|j: int| 0 <= j < q.len() - 1 implies ls[j] == strip_cr(#[trigger] q[j]) by {}
    }
    if cur.unicode_len() > 0 && starts_with(cur.as_str(), "worktree ") {
        proof {
            let k = q.len() - 1;
            assert(ls[k] == q.last());
            assert forall|j: int| 0 <= j < k implies !is_worktree_line(#[trigger] ls[j]) by {
                assert(ls[j] == strip_cr(q[j]));
            }
            assert(first_worktree_line(ls, k));
            lemma_first_worktree_line_unique(ls, k);
        }
        return match strip_prefix(cur.as_str(), "worktree ") {
            Some(rest) => Some(owned(rest)),
            None => None,
        };
    }
    proof {
        assert forall|k: int| !first_worktree_line(ls, k) by {
            if first_worktree_line(ls, k) {
                if k < q.len() - 1 {
                    assert(ls[k] == strip_cr(q[k]));
                } else {
                    assert(q.last().len() > 0);
                    assert(ls[k] == q.last());
                }
            }
        }
    }
    None
}

} // verus!
