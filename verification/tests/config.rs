use herdr_worktree::config::{
    parse_key_binding, Config, KeyCode, KeyEvent, KeyModifiers, WorktreeBackend,
};

#[test]
fn test_default_config() {
    let config = Config::default();
    assert!(config.normalize_jira_prefix);
    assert_eq!(config.backend, WorktreeBackend::Worktrunk);
    assert_eq!(config.keybindings.confirm.display(), "enter");
    assert_eq!(config.keybindings.cancel.display(), "esc");
    assert_eq!(config.keybindings.toggle_remotes.display(), "alt+r");
    assert_eq!(config.keybindings.refresh.display(), "ctrl+r");
}

#[test]
fn shifted_character_keybindings_match_shifted_events() {
    let binding = parse_key_binding("shift+g").unwrap();

    assert!(binding.matches(KeyEvent::new(KeyCode::Char('G'), KeyModifiers::shift())));
}

#[test]
fn custom_bindings_match_their_events() {
    let confirm = parse_key_binding("ctrl+o").unwrap();
    let refresh = parse_key_binding("alt+f").unwrap();
    assert!(confirm.matches(KeyEvent::new(KeyCode::Char('o'), KeyModifiers::control())));
    assert!(!confirm.matches(KeyEvent::new(KeyCode::Char('o'), KeyModifiers::empty())));
    assert!(refresh.matches(KeyEvent::new(KeyCode::Char('f'), KeyModifiers::alt())));
    assert_eq!(confirm.display(), "ctrl+o");
}

#[test]
fn default_bindings_match_their_keys() {
    let config = Config::default();
    let keys = &config.keybindings;
    assert!(keys.confirm.matches(KeyEvent::new(KeyCode::Enter, KeyModifiers::empty())));
    assert!(keys.cancel.matches(KeyEvent::new(KeyCode::Esc, KeyModifiers::empty())));
    assert!(keys.toggle_remotes.matches(KeyEvent::new(KeyCode::Char('r'), KeyModifiers::alt())));
    assert!(keys.refresh.matches(KeyEvent::new(KeyCode::Char('r'), KeyModifiers::control())));
}

#[test]
fn bindings_are_trimmed_and_case_insensitive() {
    let b = parse_key_binding(" Ctrl + Escape ").unwrap();
    assert!(b.matches(KeyEvent::new(KeyCode::Esc, KeyModifiers::control())));
    assert_eq!(b.display(), " Ctrl + Escape ");
    let c = parse_key_binding("control+x").unwrap();
    assert!(c.matches(KeyEvent::new(KeyCode::Char('x'), KeyModifiers::control())));
    let d = parse_key_binding("x+shift").unwrap();
    assert!(d.matches(KeyEvent::new(KeyCode::Char('x'), KeyModifiers::shift())));
}

#[test]
fn named_keys_are_recognised() {
    for (text, code) in [
        ("enter", KeyCode::Enter),
        ("esc", KeyCode::Esc),
        ("escape", KeyCode::Esc),
        ("tab", KeyCode::Tab),
        ("backspace", KeyCode::Backspace),
        ("up", KeyCode::Up),
        ("down", KeyCode::Down),
        ("UP", KeyCode::Up),
    ] {
        let b = parse_key_binding(text).unwrap();
        assert!(b.matches(KeyEvent::new(code, KeyModifiers::empty())));
    }
}

#[test]
fn each_refusal_names_the_binding() {
    assert_eq!(
        parse_key_binding("ctrl+alt").unwrap_err(),
        "keybinding is missing a key: ctrl+alt"
    );
    assert!(parse_key_binding("ctrl+alt")
        .unwrap_err()
        .contains("keybinding is missing a key"));
    assert_eq!(
        parse_key_binding("ctrl+ctrl+r").unwrap_err(),
        "duplicate modifier in keybinding: ctrl+ctrl+r"
    );
    assert_eq!(
        parse_key_binding("a+b").unwrap_err(),
        "keybinding must contain one key: a+b"
    );
    assert_eq!(
        parse_key_binding("ctrl+home").unwrap_err(),
        "unsupported keybinding: ctrl+home"
    );
    assert_eq!(parse_key_binding("").unwrap_err(), "unsupported keybinding: ");
}
