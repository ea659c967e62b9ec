//! Key combinations and bindings.

use cortex::config::KeybindingConfig;
use cortex::keys::{
    keys_match, parse_key_combo, Action, KeyCode, KeyEvent, KeyMatcher, KeyModifiers,
};

#[test]
fn test_parse_key_combo() {
    let key = parse_key_combo("ctrl+q").unwrap();
    assert_eq!(key.modifiers, KeyModifiers::control());
    assert_eq!(key.code, KeyCode::Char('q'));

    let key = parse_key_combo("shift+m").unwrap();
    assert_eq!(key.modifiers, KeyModifiers::shift());
    assert_eq!(key.code, KeyCode::Char('m'));

    let key = parse_key_combo("left").unwrap();
    assert_eq!(key.code, KeyCode::Left);
    assert_eq!(key.modifiers, KeyModifiers::none());

    let key = parse_key_combo("h").unwrap();
    assert_eq!(key.code, KeyCode::Char('h'));
}

#[test]
fn test_key_matcher() {
    let config = KeybindingConfig::default();
    let matcher = KeyMatcher::from_config(&config);

    let key = KeyEvent::new(KeyCode::Char('q'), KeyModifiers::control());
    assert_eq!(matcher.match_key(key), Some(Action::Quit));

    let key = KeyEvent::new(KeyCode::Char('h'), KeyModifiers::none());
    assert_eq!(matcher.match_key(key), Some(Action::NavLeft));

    let key = KeyEvent::new(KeyCode::Left, KeyModifiers::none());
    assert_eq!(matcher.match_key(key), Some(Action::NavLeft));
}

// ── Default keybinding action matching ──────────────────────────────

#[test]
fn all_default_actions_match_expected_keys() {
    let config = KeybindingConfig::default();
    let matcher = KeyMatcher::from_config(&config);

    // Quit: ctrl+q
    assert_eq!(
        matcher.match_key(KeyEvent::new(KeyCode::Char('q'), KeyModifiers::control())),
        Some(Action::Quit)
    );

    // NavLeft: h or Left
    assert_eq!(
        matcher.match_key(KeyEvent::new(KeyCode::Char('h'), KeyModifiers::none())),
        Some(Action::NavLeft)
    );
    assert_eq!(
        matcher.match_key(KeyEvent::new(KeyCode::Left, KeyModifiers::none())),
        Some(Action::NavLeft)
    );

    // NavRight: l or Right
    assert_eq!(
        matcher.match_key(KeyEvent::new(KeyCode::Char('l'), KeyModifiers::none())),
        Some(Action::NavRight)
    );
    assert_eq!(
        matcher.match_key(KeyEvent::new(KeyCode::Right, KeyModifiers::none())),
        Some(Action::NavRight)
    );

    // NavUp: k or Up
    assert_eq!(
        matcher.match_key(KeyEvent::new(KeyCode::Char('k'), KeyModifiers::none())),
        Some(Action::NavUp)
    );
    assert_eq!(
        matcher.match_key(KeyEvent::new(KeyCode::Up, KeyModifiers::none())),
        Some(Action::NavUp)
    );

    // NavDown: j or Down
    assert_eq!(
        matcher.match_key(KeyEvent::new(KeyCode::Char('j'), KeyModifiers::none())),
        Some(Action::NavDown)
    );
    assert_eq!(
        matcher.match_key(KeyEvent::new(KeyCode::Down, KeyModifiers::none())),
        Some(Action::NavDown)
    );

    // CreateTask: n
    assert_eq!(
        matcher.match_key(KeyEvent::new(KeyCode::Char('n'), KeyModifiers::none())),
        Some(Action::CreateTask)
    );

    // EditTask: e
    assert_eq!(
        matcher.match_key(KeyEvent::new(KeyCode::Char('e'), KeyModifiers::none())),
        Some(Action::EditTask)
    );

    // MoveForward: m
    assert_eq!(
        matcher.match_key(KeyEvent::new(KeyCode::Char('m'), KeyModifiers::none())),
        Some(Action::MoveForward)
    );

    // MoveBackward: shift+m
    assert_eq!(
        matcher.match_key(KeyEvent::new(KeyCode::Char('m'), KeyModifiers::shift())),
        Some(Action::MoveBackward)
    );

    // DeleteTask: x
    assert_eq!(
        matcher.match_key(KeyEvent::new(KeyCode::Char('x'), KeyModifiers::none())),
        Some(Action::DeleteTask)
    );

    // ViewTask: v
    assert_eq!(
        matcher.match_key(KeyEvent::new(KeyCode::Char('v'), KeyModifiers::none())),
        Some(Action::ViewTask)
    );

    // HelpToggle: ?
    assert_eq!(
        matcher.match_key(KeyEvent::new(KeyCode::Char('?'), KeyModifiers::none())),
        Some(Action::HelpToggle)
    );

    // PrevProject: ctrl+k
    assert_eq!(
        matcher.match_key(KeyEvent::new(KeyCode::Char('k'), KeyModifiers::control())),
        Some(Action::PrevProject)
    );

    // NextProject: ctrl+j
    assert_eq!(
        matcher.match_key(KeyEvent::new(KeyCode::Char('j'), KeyModifiers::control())),
        Some(Action::NextProject)
    );

    // NewProject: ctrl+n
    assert_eq!(
        matcher.match_key(KeyEvent::new(KeyCode::Char('n'), KeyModifiers::control())),
        Some(Action::NewProject)
    );
}

#[test]
fn unmatched_key_returns_none() {
    let config = KeybindingConfig::default();
    let matcher = KeyMatcher::from_config(&config);

    // 'z' has no binding
    assert_eq!(
        matcher.match_key(KeyEvent::new(KeyCode::Char('z'), KeyModifiers::none())),
        None
    );

    // F1 has no binding
    assert_eq!(
        matcher.match_key(KeyEvent::new(KeyCode::F(1), KeyModifiers::none())),
        None
    );

    // ctrl+z has no binding
    assert_eq!(
        matcher.match_key(KeyEvent::new(KeyCode::Char('z'), KeyModifiers::control())),
        None
    );
}

#[test]
fn case_insensitive_matching_without_shift() {
    let config = KeybindingConfig::default();
    let matcher = KeyMatcher::from_config(&config);

    // 'N' (uppercase without explicit shift) should still match
    assert_eq!(
        matcher.match_key(KeyEvent::new(KeyCode::Char('N'), KeyModifiers::none())),
        Some(Action::CreateTask)
    );
}

#[test]
fn shift_modifier_requires_exact_case() {
    let config = KeybindingConfig::default();
    let matcher = KeyMatcher::from_config(&config);

    // shift+m matches MoveBackward (binding is "shift+m" → Char('m') + SHIFT)
    assert_eq!(
        matcher.match_key(KeyEvent::new(KeyCode::Char('m'), KeyModifiers::shift())),
        Some(Action::MoveBackward)
    );

    // When shift is held, matching is case-EXACT, so 'M' + SHIFT does NOT
    // match the 'm' + SHIFT binding.
    assert_eq!(
        matcher.match_key(KeyEvent::new(KeyCode::Char('M'), KeyModifiers::shift())),
        None
    );
}

#[test]
fn modifiers_must_match_exactly() {
    let config = KeybindingConfig::default();
    let matcher = KeyMatcher::from_config(&config);

    // ctrl+h should NOT match NavLeft (which is just 'h' with no modifiers)
    assert_eq!(
        matcher.match_key(KeyEvent::new(KeyCode::Char('h'), KeyModifiers::control())),
        None
    );

    // alt+h should NOT match NavLeft
    assert_eq!(
        matcher.match_key(KeyEvent::new(KeyCode::Char('h'), KeyModifiers::alt())),
        None
    );
}

// ── Parse edge cases ────────────────────────────────────────────────

#[test]
fn parse_key_combo_with_spaces_returns_none() {
    // The parser splits on '+' without trimming, so "ctrl + q" won't parse.
    // "ctrl " and " q" don't match known keys.
    assert!(parse_key_combo("ctrl + q").is_none());
}

#[test]
fn parse_key_combo_unknown_returns_none() {
    assert!(parse_key_combo("frodo").is_none());
    assert!(parse_key_combo("").is_none());
}

#[test]
fn parse_key_combo_space_key() {
    let key = parse_key_combo("space").unwrap();
    assert_eq!(key.code, KeyCode::Char(' '));
    assert_eq!(key.modifiers, KeyModifiers::none());
}

#[test]
fn parse_key_combo_special_keys() {
    assert!(parse_key_combo("enter").is_some());
    assert!(parse_key_combo("tab").is_some());
    assert!(parse_key_combo("escape").is_some());
    assert!(parse_key_combo("esc").is_some());
    assert!(parse_key_combo("backspace").is_some());
    assert!(parse_key_combo("delete").is_some());
    assert!(parse_key_combo("home").is_some());
    assert!(parse_key_combo("end").is_some());
    assert!(parse_key_combo("pageup").is_some());
    assert!(parse_key_combo("pagedown").is_some());
}

// ── How a combination is written ────────────────────────────────────

#[test]
fn the_case_of_a_combination_makes_no_difference() {
    let key = parse_key_combo("ctrl+shift+q").unwrap();
    assert_eq!(key.code, KeyCode::Char('q'));
    for written in ["CTRL+SHIFT+Q", "Ctrl+Shift+q", "cTRL+shIFT+Q"] {
        assert_eq!(parse_key_combo(written), Some(key), "{}", written);
    }
    assert_eq!(parse_key_combo("PageUp"), parse_key_combo("pageup"));
    assert_eq!(parse_key_combo("PAGEUP").unwrap().code, KeyCode::PageUp);
}

#[test]
fn the_order_and_number_of_modifiers_make_no_difference() {
    let key = parse_key_combo("ctrl+alt+shift+x").unwrap();
    assert!(key.modifiers.control && key.modifiers.alt && key.modifiers.shift);
    for written in [
        "shift+ctrl+alt+x",
        "alt+shift+ctrl+x",
        "ctrl+ctrl+alt+shift+x",
        "ctrl+alt+x+shift",
        "x+shift+alt+shift+ctrl",
    ] {
        assert_eq!(parse_key_combo(written), Some(key), "{}", written);
    }
}

#[test]
fn modifiers_alone_name_no_key() {
    for written in ["ctrl", "shift", "alt", "ctrl+shift", "ALT+Ctrl+Shift", "alt+alt"] {
        assert_eq!(parse_key_combo(written), None, "{}", written);
    }
}

#[test]
fn the_last_key_of_a_combination_counts() {
    assert_eq!(parse_key_combo("ctrl+a+b"), parse_key_combo("ctrl+b"));
    assert_eq!(parse_key_combo("a+unknown"), None);
}

#[test]
fn keys_that_no_combination_names_stay_apart() {
    let codes = [
        KeyCode::Null,
        KeyCode::CapsLock,
        KeyCode::ScrollLock,
        KeyCode::NumLock,
        KeyCode::PrintScreen,
        KeyCode::Pause,
        KeyCode::Menu,
        KeyCode::KeypadBegin,
        KeyCode::Media(0),
        KeyCode::Media(1),
        KeyCode::Modifier(0),
        KeyCode::Modifier(1),
    ];
    for i in 0..codes.len() {
        for j in 0..codes.len() {
            let a = KeyEvent::new(codes[i], KeyModifiers::none());
            let b = KeyEvent::new(codes[j], KeyModifiers::none());
            assert_eq!(keys_match(&a, &b), i == j, "{:?} {:?}", codes[i], codes[j]);
        }
    }
}
