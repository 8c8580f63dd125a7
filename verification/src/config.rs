//! Configuration: the worktree backend, Jira-prefix normalisation and the
//! keybindings, with the parser for keybinding strings such as `ctrl+r`.
use vstd::prelude::*;
use crate::text::{
    is_space, trim, lower, upper_char, push_char, trim_str, ascii_lower, str_eq, concat, owned,
    char_upper,
};

verus! {

/// Which tool creates and removes worktrees.
#[derive(Debug, Clone, Copy, PartialEq, Eq, Structural)]
pub enum WorktreeBackend {
    Worktrunk,
    Native,
}

impl Default for WorktreeBackend {
    fn default() -> (r: Self)
        ensures
            r == WorktreeBackend::Worktrunk,
    {
        WorktreeBackend::Worktrunk
    }
}

/// A key as the picker sees it. `Other` stands for every key that no
/// binding and no rule of the picker names.
#[derive(Debug, Clone, Copy, PartialEq, Eq, Structural)]
pub enum KeyCode {
    Enter,
    Esc,
    Tab,
    Backspace,
    Up,
    Down,
    Char(char),
    Other,
}

/// The modifier keys held with a key.
#[derive(Debug, Clone, Copy, PartialEq, Eq, Structural)]
pub struct KeyModifiers {
    pub shift: bool,
    pub control: bool,
    pub alt: bool,
    pub super_key: bool,
    pub hyper: bool,
    pub meta: bool,
}

pub open spec fn no_modifiers() -> KeyModifiers {
    KeyModifiers {
        shift: false,
        control: false,
        alt: false,
        super_key: false,
        hyper: false,
        meta: false,
    }
}

impl KeyModifiers {
    /// No modifier held.
    pub fn empty() -> (r: KeyModifiers)
        ensures
            r == no_modifiers(),
    {
        KeyModifiers {
            shift: false,
            control: false,
            alt: false,
            super_key: false,
            hyper: false,
            meta: false,
        }
    }

    /// Shift alone.
    pub fn shift() -> (r: KeyModifiers)
        ensures
            r == (KeyModifiers { shift: true, ..no_modifiers() }),
    {
        KeyModifiers { shift: true, ..KeyModifiers::empty() }
    }

    /// Control alone.
    pub fn control() -> (r: KeyModifiers)
        ensures
            r == (KeyModifiers { control: true, ..no_modifiers() }),
    {
        KeyModifiers { control: true, ..KeyModifiers::empty() }
    }

    /// Alt alone.
    pub fn alt() -> (r: KeyModifiers)
        ensures
            r == (KeyModifiers { alt: true, ..no_modifiers() }),
    {
        KeyModifiers { alt: true, ..KeyModifiers::empty() }
    }
}

/// A key press: the key and the modifiers held with it.
#[derive(Debug, Clone, Copy, PartialEq, Eq, Structural)]
pub struct KeyEvent {
    pub code: KeyCode,
    pub modifiers: KeyModifiers,
}

impl KeyEvent {
    pub fn new(code: KeyCode, modifiers: KeyModifiers) -> (r: KeyEvent)
        ensures
            r.code == code,
            r.modifiers == modifiers,
    {
        KeyEvent { code, modifiers }
    }
}

/// The modifiers that a binding string may name.
#[derive(Debug, Clone, Copy, PartialEq, Eq, Structural)]
pub enum Modifier {
    Alt,
    Control,
    Shift,
}

pub open spec fn holds(m: KeyModifiers, k: Modifier) -> bool {
    match k {
        Modifier::Alt => m.alt,
        Modifier::Control => m.control,
        Modifier::Shift => m.shift,
    }
}

pub open spec fn with_modifier(m: KeyModifiers, k: Modifier) -> KeyModifiers {
    match k {
        Modifier::Alt => KeyModifiers { alt: true, ..m },
        Modifier::Control => KeyModifiers { control: true, ..m },
        Modifier::Shift => KeyModifiers { shift: true, ..m },
    }
}

/// Why a binding string was refused.
#[derive(Debug, Clone, Copy, PartialEq, Eq, Structural)]
pub enum BindingError {
    DuplicateModifier,
    MoreThanOneKey,
    Unsupported,
    MissingKey,
}

/// The pieces of `s` between the occurrences of `sep` (`str::split`),
/// empty pieces included; the empty string has one empty piece.
pub open spec fn split_on(s: Seq<char>, sep: char) -> Seq<Seq<char>>
    decreases s.len(),
{
    if s.len() == 0 {
        seq![Seq::<char>::empty()]
    } else {
        let p = split_on(s.drop_last(), sep);
        if s.last() == sep {
            p.push(Seq::<char>::empty())
        } else {
            p.update(p.len() - 1, p.last().push(s.last()))
        }
    }
}

/// The modifier a lower-cased piece names.
pub open spec fn modifier_named(low: Seq<char>) -> Option<Modifier> {
    if low == "alt"@ {
        Some(Modifier::Alt)
    } else if low == "ctrl"@ || low == "control"@ {
        Some(Modifier::Control)
    } else if low == "shift"@ {
        Some(Modifier::Shift)
    } else {
        None
    }
}

/// The named key a lower-cased piece names.
pub open spec fn key_named(low: Seq<char>) -> Option<KeyCode> {
    if low == "enter"@ {
        Some(KeyCode::Enter)
    } else if low == "esc"@ || low == "escape"@ {
        Some(KeyCode::Esc)
    } else if low == "tab"@ {
        Some(KeyCode::Tab)
    } else if low == "backspace"@ {
        Some(KeyCode::Backspace)
    } else if low == "up"@ {
        Some(KeyCode::Up)
    } else if low == "down"@ {
        Some(KeyCode::Down)
    } else {
        None
    }
}

/// Where the reading of a binding string stands after some pieces: the
/// modifiers and key read so far, or the reason it was refused.
pub type Scan = Result<(KeyModifiers, Option<KeyCode>), BindingError>;

/// Reads one piece of a binding string. The piece is trimmed; a modifier
/// may be named once, a key once; a single character is a key, upper-cased
/// when shift was named before it.
pub open spec fn scan_piece(st: Scan, piece: Seq<char>) -> Scan {
    match st {
        Err(e) => Err(e),
        Ok((mods, key)) => {
            let part = trim(piece);
            let low = lower(part);
            match modifier_named(low) {
                Some(m) => if holds(mods, m) {
                    Err(BindingError::DuplicateModifier)
                } else {
                    Ok((with_modifier(mods, m), key))
                },
                None => if key is Some {
                    Err(BindingError::MoreThanOneKey)
                } else {
                    match key_named(low) {
                        Some(code) => Ok((mods, Some(code))),
                        None => if part.len() == 1 {
                            Ok(
                                (
                                    mods,
                                    Some(
                                        KeyCode::Char(
                                            if mods.shift {
                                                upper_char(part[0])
                                            } else {
                                                part[0]
                                            },
                                        ),
                                    ),
                                ),
                            )
                        } else {
                            Err(BindingError::Unsupported)
                        },
                    }
                },
            }
        },
    }
}

/// Reads the pieces in order.
pub open spec fn scan_pieces(pieces: Seq<Seq<char>>) -> Scan
    decreases pieces.len(),
{
    if pieces.len() == 0 {
        Ok((no_modifiers(), None))
    } else {
        scan_piece(scan_pieces(pieces.drop_last()), pieces.last())
    }
}

/// The key and modifiers a binding string stands for, or why it is refused.
pub open spec fn binding_of(value: Seq<char>) -> Result<(KeyCode, KeyModifiers), BindingError> {
    match scan_pieces(split_on(value, '+')) {
        Err(e) => Err(e),
        Ok((mods, None)) => Err(BindingError::MissingKey),
        Ok((mods, Some(code))) => Ok((code, mods)),
    }
}

/// The message that refuses `value` for `e`.
pub open spec fn binding_error_message(e: BindingError, value: Seq<char>) -> Seq<char> {
    match e {
        BindingError::DuplicateModifier => "duplicate modifier in keybinding: "@ + value,
        BindingError::MoreThanOneKey => "keybinding must contain one key: "@ + value,
        BindingError::Unsupported => "unsupported keybinding: "@ + value,
        BindingError::MissingKey => "keybinding is missing a key: "@ + value,
    }
}

/// A keybinding: its text as written, and the key and modifiers it stands for.
#[derive(Debug)]
pub struct KeyBinding {
    value: String,
    code: KeyCode,
    modifiers: KeyModifiers,
}

impl KeyBinding {
    /// The text of the binding as it was written.
    pub closed spec fn text(&self) -> Seq<char> {
        self.value@
    }

    /// The key the binding stands for.
    pub closed spec fn key(&self) -> KeyCode {
        self.code
    }

    /// The modifiers the binding stands for.
    pub closed spec fn mods(&self) -> KeyModifiers {
        self.modifiers
    }

    /// Whether `key` is this binding: the same key with exactly the same modifiers.
    pub fn matches(&self, key: KeyEvent) -> (r: bool)
        ensures
            r == (self.key() == key.code && self.mods() == key.modifiers),
    {
        self.code == key.code && self.modifiers == key.modifiers
    }

    /// The binding as it was written.
    pub fn display(&self) -> (r: &str)
        ensures
            r@ == self.text(),
    {
        self.value.as_str()
    }
}

fn modifier_of(low: &str) -> (r: Option<Modifier>)
    ensures
        r == modifier_named(low@),
{
    if str_eq(low, "alt") {
        Some(Modifier::Alt)
    } else if str_eq(low, "ctrl") || str_eq(low, "control") {
        Some(Modifier::Control)
    } else if str_eq(low, "shift") {
        Some(Modifier::Shift)
    } else {
        None
    }
}

fn named_key_of(low: &str) -> (r: Option<KeyCode>)
    ensures
        r == key_named(low@),
{
    if str_eq(low, "enter") {
        Some(KeyCode::Enter)
    } else if str_eq(low, "esc") || str_eq(low, "escape") {
        Some(KeyCode::Esc)
    } else if str_eq(low, "tab") {
        Some(KeyCode::Tab)
    } else if str_eq(low, "backspace") {
        Some(KeyCode::Backspace)
    } else if str_eq(low, "up") {
        Some(KeyCode::Up)
    } else if str_eq(low, "down") {
        Some(KeyCode::Down)
    } else {
        None
    }
}

fn scan_one(st: Scan, piece: &str) -> (r: Scan)
    ensures
        r == scan_piece(st, piece@),
{
    let (mods, key) = match st {
        Err(e) => return Err(e),
        Ok(p) => p,
    };
    let part = trim_str(piece);
    let low = ascii_lower(part);
    match modifier_of(low.as_str()) {
        Some(m) => {
            let held = match m {
                Modifier::Alt => mods.alt,
                Modifier::Control => mods.control,
                Modifier::Shift => mods.shift,
            };
            if held {
                return Err(BindingError::DuplicateModifier);
            }
            let added = match m {
                Modifier::Alt => KeyModifiers { alt: true, ..mods },
                Modifier::Control => KeyModifiers { control: true, ..mods },
                Modifier::Shift => KeyModifiers { shift: true, ..mods },
            };
            return Ok((added, key));
        },
        None => {},
    }
    if key.is_some() {
        return Err(BindingError::MoreThanOneKey);
    }
    match named_key_of(low.as_str()) {
        Some(code) => Ok((mods, Some(code))),
        None => {
            if part.unicode_len() == 1 {
                let c = part.get_char(0);
                let c = if mods.shift {
                    char_upper(c)
                } else {
                    c
                };
                Ok((mods, Some(KeyCode::Char(c))))
            } else {
                Err(BindingError::Unsupported)
            }
        },
    }
}

pub proof fn lemma_split_step(s: Seq<char>, sep: char, i: int)
    requires
        0 <= i < s.len(),
    ensures
        split_on(s.take(i + 1), sep) == (if s[i] == sep {
            split_on(s.take(i), sep).push(Seq::<char>::empty())
        } else {
            let p = split_on(s.take(i), sep);
            p.update(p.len() - 1, p.last().push(s[i]))
        }),
{
    assert(s.take(i + 1).drop_last() =~= s.take(i));
}

pub proof fn lemma_split_nonempty(s: Seq<char>, sep: char)
    ensures
        split_on(s, sep).len() >= 1,
    decreases s.len(),
{
    if s.len() > 0 {
        lemma_split_nonempty(s.drop_last(), sep);
    }
}

/// Reads a binding string such as `ctrl+r`, `alt+shift+g` or `enter`.
pub fn parse_key_binding(value: &str) -> (r: Result<KeyBinding, String>)
    ensures
        match binding_of(value@) {
            Ok((code, mods)) => r matches Ok(b) && b.text() == value@ && b.key() == code
                && b.mods() == mods,
            Err(e) => r matches Err(msg) && msg@ == binding_error_message(e, value@),
        },
{
    let n = value.unicode_len();
    let mut st: Scan = Ok((KeyModifiers::empty(), None));
    let mut cur = String::new();
    let mut i: usize = 0;
    proof {
        assert(value@.take(0) =~= Seq::<char>::empty());
        assert(split_on(Seq::<char>::empty(), '+').drop_last() =~= Seq::<Seq<char>>::empty());
    }
    while i < n
        invariant
            n == value@.len(),
            i <= n,
            split_on(value@.take(i as int), '+').len() >= 1,
            st == scan_pieces(split_on(value@.take(i as int), '+').drop_last()),
            cur@ == split_on(value@.take(i as int), '+').last(),
        decreases n - i,
    {
        let c = value.get_char(i);
        proof {
            lemma_split_step(value@, '+', i as int);
            lemma_split_nonempty(value@.take(i as int), '+');
        }
        let ghost before = split_on(value@.take(i as int), '+');
        if c == '+' {
            st = scan_one(st, cur.as_str());
            cur = String::new();
            proof {
                let after = before.push(Seq::<char>::empty());
                assert(after.drop_last() =~= before);
                assert(before =~= before.drop_last().push(before.last()));
            }
        } else {
            push_char(&mut cur, c);
            proof {
                let after = before.update(before.len() - 1, before.last().push(c));
                assert(after.drop_last() =~= before.drop_last());
            }
        }
        i = i + 1;
    }
    proof {
        assert(value@.take(n as int) =~= value@);
        let ps = split_on(value@, '+');
        assert(ps =~= ps.drop_last().push(ps.last()));
    }
    st = scan_one(st, cur.as_str());
    match st {
        Err(e) => Err(refusal(e, value)),
        Ok((mods, None)) => Err(refusal(BindingError::MissingKey, value)),
        Ok((mods, Some(code))) => Ok(KeyBinding { value: owned(value), code, modifiers: mods }),
    }
}

fn refusal(e: BindingError, value: &str) -> (r: String)
    ensures
        r@ == binding_error_message(e, value@),
{
    match e {
        BindingError::DuplicateModifier => concat("duplicate modifier in keybinding: ", value),
        BindingError::MoreThanOneKey => concat("keybinding must contain one key: ", value),
        BindingError::Unsupported => concat("unsupported keybinding: ", value),
        BindingError::MissingKey => concat("keybinding is missing a key: ", value),
    }
}


pub proof fn lemma_split_no_sep(s: Seq<char>, sep: char)
    requires
        forall|i: int| 0 <= i < s.len() ==> s[i] != sep,
    ensures
        split_on(s, sep) == seq![s],
    decreases s.len(),
{
    if s.len() > 0 {
        lemma_split_no_sep(s.drop_last(), sep);
        assert(s.drop_last().push(s.last()) =~= s);
        assert(seq![s.drop_last()].update(0, s.drop_last().push(s.last())) =~= seq![s]);
    } else {
        assert(s =~= Seq::<char>::empty());
    }
}

pub proof fn lemma_split_after_sep(s: Seq<char>, t: Seq<char>, sep: char)
    requires
        forall|i: int| 0 <= i < t.len() ==> t[i] != sep,
    ensures
        split_on(s.push(sep) + t, sep) == split_on(s, sep).push(t),
    decreases t.len(),
{
    if t.len() == 0 {
        assert(s.push(sep) + t =~= s.push(sep));
        assert(s.push(sep).drop_last() =~= s);
        assert(t =~= Seq::<char>::empty());
    } else {
        let u = t.drop_last();
        lemma_split_after_sep(s, u, sep);
        assert((s.push(sep) + t).drop_last() =~= s.push(sep) + u);
        let p = split_on(s, sep).push(u);
        assert(u.push(t.last()) =~= t);
        assert(p.update(p.len() - 1, p.last().push(t.last())) =~= split_on(s, sep).push(t));
    }
}

/// A word of lower-case ASCII letters reads back as itself.
proof fn lemma_plain_word(w: Seq<char>)
    requires
        w.len() > 0,
        forall|i: int| 0 <= i < w.len() ==> 'a' <= #[trigger] w[i] <= 'z',
    ensures
        trim(w) == w,
        lower(w) == w,
        split_on(w, '+') == seq![w],
{
    lemma_split_no_sep(w, '+');
    assert(!is_space(w[0]));
    assert(!is_space(w.last()));
    assert(lower(w) =~= w);
}

proof fn lemma_word_lists()
    ensures
        "alt"@ == seq!['a', 'l', 't'],
        "ctrl"@ == seq!['c', 't', 'r', 'l'],
        "control"@ == seq!['c', 'o', 'n', 't', 'r', 'o', 'l'],
        "shift"@ == seq!['s', 'h', 'i', 'f', 't'],
        "enter"@ == seq!['e', 'n', 't', 'e', 'r'],
        "esc"@ == seq!['e', 's', 'c'],
        "escape"@ == seq!['e', 's', 'c', 'a', 'p', 'e'],
        "tab"@ == seq!['t', 'a', 'b'],
        "backspace"@ == seq!['b', 'a', 'c', 'k', 's', 'p', 'a', 'c', 'e'],
        "up"@ == seq!['u', 'p'],
        "down"@ == seq!['d', 'o', 'w', 'n'],
        "r"@ == seq!['r'],
        "alt+r"@ == seq!['a', 'l', 't', '+', 'r'],
        "ctrl+r"@ == seq!['c', 't', 'r', 'l', '+', 'r'],
{
    reveal_strlit("alt");
    reveal_strlit("ctrl");
    reveal_strlit("control");
    reveal_strlit("shift");
    reveal_strlit("enter");
    reveal_strlit("esc");
    reveal_strlit("escape");
    reveal_strlit("tab");
    reveal_strlit("backspace");
    reveal_strlit("up");
    reveal_strlit("down");
    reveal_strlit("r");
    reveal_strlit("alt+r");
    reveal_strlit("ctrl+r");
}

/// `enter` is the Enter key with no modifier.
pub proof fn lemma_enter_binding()
    ensures
        binding_of("enter"@) == Ok::<(KeyCode, KeyModifiers), BindingError>((KeyCode::Enter, no_modifiers())),
{
    lemma_word_lists();
    lemma_named_key_binding("enter"@, KeyCode::Enter);
}

/// `esc` is the Escape key with no modifier.
pub proof fn lemma_esc_binding()
    ensures
        binding_of("esc"@) == Ok::<(KeyCode, KeyModifiers), BindingError>((KeyCode::Esc, no_modifiers())),
{
    lemma_word_lists();
    lemma_named_key_binding("esc"@, KeyCode::Esc);
}

/// The modifier words are made of lower-case letters.
proof fn lemma_modifier_word(m: Seq<char>, k: Modifier)
    requires
        modifier_named(m) == Some(k),
    ensures
        m.len() > 0,
        forall|i: int| 0 <= i < m.len() ==> 'a' <= #[trigger] m[i] <= 'z',
{
    lemma_word_lists();
}

/// The named-key words are made of lower-case letters.
proof fn lemma_key_word(w: Seq<char>, code: KeyCode)
    requires
        key_named(w) == Some(code),
    ensures
        w.len() > 0,
        forall|i: int| 0 <= i < w.len() ==> 'a' <= #[trigger] w[i] <= 'z',
        modifier_named(w) is None,
{
    lemma_word_lists();
}

/// A modifier word, `+` and one character bind that character, upper-cased
/// under shift, with that one modifier held.
pub proof fn lemma_modifier_char_binding(m: Seq<char>, k: Modifier, c: char)
    requires
        modifier_named(m) == Some(k),
        !is_space(c),
        c != '+',
    ensures
        binding_of(m.push('+').push(c)) == Ok::<(KeyCode, KeyModifiers), BindingError>(
            (
                KeyCode::Char(if k == Modifier::Shift { upper_char(c) } else { c }),
                with_modifier(no_modifiers(), k),
            ),
        ),
{
    lemma_word_lists();
    lemma_modifier_word(m, k);
    lemma_plain_word(m);
    let one = seq![c];
    lemma_split_after_sep(m, one, '+');
    assert(m.push('+') + one =~= m.push('+').push(c));
    let ps = seq![m].push(one);
    assert(ps.drop_last() =~= seq![m]);
    assert(seq![m].drop_last() =~= Seq::<Seq<char>>::empty());
    assert(scan_pieces(seq![m]) == scan_piece(scan_pieces(seq![m].drop_last()), m));
    assert(scan_pieces(ps) == scan_piece(scan_pieces(ps.drop_last()), one));
    assert(trim(one) == one) by {
        assert(one.drop_first().len() == 0);
        assert(one.drop_last().len() == 0);
    }
    assert(lower(one).len() == 1);
    assert(modifier_named(lower(one)) is None);
    assert(key_named(lower(one)) is None);
    let first = scan_piece(Ok((no_modifiers(), None)), m);
    assert(first == Ok::<(KeyModifiers, Option<KeyCode>), BindingError>((with_modifier(no_modifiers(), k), None)));
}

/// A named key's word alone binds that key with no modifier.
pub proof fn lemma_named_key_binding(w: Seq<char>, code: KeyCode)
    requires
        key_named(w) == Some(code),
    ensures
        binding_of(w) == Ok::<(KeyCode, KeyModifiers), BindingError>((code, no_modifiers())),
{
    lemma_key_word(w, code);
    lemma_plain_word(w);
    assert(scan_pieces(seq![w]) == scan_piece(scan_pieces(seq![w].drop_last()), w));
    assert(seq![w].drop_last() =~= Seq::<Seq<char>>::empty());
}

/// `alt+r` is `r` with alt.
pub proof fn lemma_alt_r_binding()
    ensures
        binding_of("alt+r"@) == Ok::<(KeyCode, KeyModifiers), BindingError>(
            (KeyCode::Char('r'), KeyModifiers { alt: true, ..no_modifiers() }),
        ),
{
    lemma_word_lists();
    assert("alt"@.push('+').push('r') =~= "alt+r"@);
    lemma_modifier_char_binding("alt"@, Modifier::Alt, 'r');
}

/// `ctrl+r` is `r` with control.
pub proof fn lemma_ctrl_r_binding()
    ensures
        binding_of("ctrl+r"@) == Ok::<(KeyCode, KeyModifiers), BindingError>(
            (KeyCode::Char('r'), KeyModifiers { control: true, ..no_modifiers() }),
        ),
{
    lemma_word_lists();
    assert("ctrl"@.push('+').push('r') =~= "ctrl+r"@);
    lemma_modifier_char_binding("ctrl"@, Modifier::Control, 'r');
}

/// The default confirm binding, `enter`.
pub fn default_confirm() -> (r: KeyBinding)
    ensures
        r.text() == "enter"@,
        r.key() == KeyCode::Enter,
        r.mods() == no_modifiers(),
{
    proof {
        lemma_enter_binding();
    }
    match parse_key_binding("enter") {
        Ok(b) => b,
        Err(_) => {
            assert(false);
            KeyBinding { value: String::new(), code: KeyCode::Enter, modifiers: KeyModifiers::empty() }
        },
    }
}

/// The default cancel binding, `esc`.
pub fn default_cancel() -> (r: KeyBinding)
    ensures
        r.text() == "esc"@,
        r.key() == KeyCode::Esc,
        r.mods() == no_modifiers(),
{
    proof {
        lemma_esc_binding();
    }
    match parse_key_binding("esc") {
        Ok(b) => b,
        Err(_) => {
            assert(false);
            KeyBinding { value: String::new(), code: KeyCode::Esc, modifiers: KeyModifiers::empty() }
        },
    }
}

/// The default binding that shows or hides remote branches, `alt+r`.
pub fn default_toggle_remotes() -> (r: KeyBinding)
    ensures
        r.text() == "alt+r"@,
        r.key() == KeyCode::Char('r'),
        r.mods() == (KeyModifiers { alt: true, ..no_modifiers() }),
{
    proof {
        lemma_alt_r_binding();
    }
    match parse_key_binding("alt+r") {
        Ok(b) => b,
        Err(_) => {
            assert(false);
            KeyBinding { value: String::new(), code: KeyCode::Esc, modifiers: KeyModifiers::empty() }
        },
    }
}

/// The default binding that fetches remote branches, `ctrl+r`.
pub fn default_refresh() -> (r: KeyBinding)
    ensures
        r.text() == "ctrl+r"@,
        r.key() == KeyCode::Char('r'),
        r.mods() == (KeyModifiers { control: true, ..no_modifiers() }),
{
    proof {
        lemma_ctrl_r_binding();
    }
    match parse_key_binding("ctrl+r") {
        Ok(b) => b,
        Err(_) => {
            assert(false);
            KeyBinding { value: String::new(), code: KeyCode::Esc, modifiers: KeyModifiers::empty() }
        },
    }
}


impl Clone for KeyBinding {
    fn clone(&self) -> (r: Self)
        ensures
            r.text() == self.text(),
            r.key() == self.key(),
            r.mods() == self.mods(),
    {
        KeyBinding { value: self.value.clone(), code: self.code, modifiers: self.modifiers }
    }
}

/// The four bindings of the picker.
#[derive(Debug)]
pub struct Keybindings {
    pub confirm: KeyBinding,
    pub cancel: KeyBinding,
    pub toggle_remotes: KeyBinding,
    pub refresh: KeyBinding,
}

impl Keybindings {
    /// The bindings are those of `enter`, `esc`, `alt+r` and `ctrl+r`.
    pub open spec fn is_default(&self) -> bool {
        &&& self.confirm.text() == "enter"@
        &&& self.confirm.key() == KeyCode::Enter
        &&& self.confirm.mods() == no_modifiers()
        &&& self.cancel.text() == "esc"@
        &&& self.cancel.key() == KeyCode::Esc
        &&& self.cancel.mods() == no_modifiers()
        &&& self.toggle_remotes.text() == "alt+r"@
        &&& self.toggle_remotes.key() == KeyCode::Char('r')
        &&& self.toggle_remotes.mods() == (KeyModifiers { alt: true, ..no_modifiers() })
        &&& self.refresh.text() == "ctrl+r"@
        &&& self.refresh.key() == KeyCode::Char('r')
        &&& self.refresh.mods() == (KeyModifiers { control: true, ..no_modifiers() })
    }

    /// The two bindings hold the same texts, keys and modifiers.
    pub open spec fn same_as(&self, other: &Keybindings) -> bool {
        &&& self.confirm.text() == other.confirm.text()
        &&& self.confirm.key() == other.confirm.key()
        &&& self.confirm.mods() == other.confirm.mods()
        &&& self.cancel.text() == other.cancel.text()
        &&& self.cancel.key() == other.cancel.key()
        &&& self.cancel.mods() == other.cancel.mods()
        &&& self.toggle_remotes.text() == other.toggle_remotes.text()
        &&& self.toggle_remotes.key() == other.toggle_remotes.key()
        &&& self.toggle_remotes.mods() == other.toggle_remotes.mods()
        &&& self.refresh.text() == other.refresh.text()
        &&& self.refresh.key() == other.refresh.key()
        &&& self.refresh.mods() == other.refresh.mods()
    }
}

impl Default for Keybindings {
    fn default() -> (r: Self)
        ensures
            r.is_default(),
    {
        Keybindings {
            confirm: default_confirm(),
            cancel: default_cancel(),
            toggle_remotes: default_toggle_remotes(),
            refresh: default_refresh(),
        }
    }
}

impl Clone for Keybindings {
    fn clone(&self) -> (r: Self)
        ensures
            r.same_as(self),
    {
        Keybindings {
            confirm: self.confirm.clone(),
            cancel: self.cancel.clone(),
            toggle_remotes: self.toggle_remotes.clone(),
            refresh: self.refresh.clone(),
        }
    }
}

/// The value a missing `normalize_jira_prefix` setting takes.
pub fn default_true() -> (r: bool)
    ensures
        r,
{
    true
}

/// The plugin's settings.
#[derive(Debug)]
pub struct Config {
    pub backend: WorktreeBackend,
    pub normalize_jira_prefix: bool,
    pub keybindings: Keybindings,
}

impl Default for Config {
    fn default() -> (r: Self)
        ensures
            r.backend == WorktreeBackend::Worktrunk,
            r.normalize_jira_prefix,
            r.keybindings.is_default(),
    {
        Config {
            backend: WorktreeBackend::default(),
            normalize_jira_prefix: default_true(),
            keybindings: Keybindings::default(),
        }
    }
}

impl Clone for Config {
    fn clone(&self) -> (r: Self)
        ensures
            r.backend == self.backend,
            r.normalize_jira_prefix == self.normalize_jira_prefix,
            r.keybindings.same_as(&self.keybindings),
    {
        Config {
            backend: self.backend,
            normalize_jira_prefix: self.normalize_jira_prefix,
            keybindings: self.keybindings.clone(),
        }
    }
}

} // verus!
