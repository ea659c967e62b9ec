//! The keybinding reference.

use cortex::config::KeybindingConfig;
use cortex::help::{
    build_all_help_text, build_editor_text, build_global_text, build_kanban_text,
    build_review_text, capitalize, format_combo, format_combos_slash, format_single_combo,
};

#[test]
fn test_format_single_combo_basic() {
    assert_eq!(format_single_combo("ctrl+q"), "Ctrl+q");
    assert_eq!(format_single_combo("shift+m"), "Shift+M");
    assert_eq!(format_single_combo("h"), "h");
    assert_eq!(format_single_combo("?"), "?");
}

#[test]
fn test_format_single_combo_arrows() {
    assert_eq!(format_single_combo("left"), "←");
    assert_eq!(format_single_combo("right"), "→");
    assert_eq!(format_single_combo("up"), "↑");
    assert_eq!(format_single_combo("down"), "↓");
}

#[test]
fn test_format_combo_multi() {
    assert_eq!(format_combo("h, left"), "h / ←");
    assert_eq!(format_combo("l, right"), "l / →");
    assert_eq!(format_combo("k, up"), "k / ↑");
    assert_eq!(format_combo("j, down"), "j / ↓");
}

#[test]
fn test_format_combos_slash() {
    assert_eq!(format_combos_slash("ctrl+j", "ctrl+k"), "Ctrl+j / Ctrl+k");
}

#[test]
fn test_capitalize() {
    assert_eq!(capitalize("ctrl"), "Ctrl");
    assert_eq!(capitalize("shift"), "Shift");
    assert_eq!(capitalize("alt"), "Alt");
}

#[test]
fn test_build_global_text_default_config() {
    let kb = KeybindingConfig::default();
    let text = build_global_text(&kb);
    assert!(text.contains("Global Keys"));
    assert!(text.contains("Ctrl+q"));
    assert!(text.contains("Ctrl+j / Ctrl+k")); // next/prev project
}

#[test]
fn test_build_kanban_text_default_config() {
    let kb = KeybindingConfig::default();
    let text = build_kanban_text(&kb);
    assert!(text.contains("Kanban Keys"));
    assert!(text.contains("h / ←"));
}

#[test]
fn test_build_review_text_default_config() {
    let kb = KeybindingConfig::default();
    let text = build_review_text(&kb);
    assert!(text.contains("Review Keys"));
}

#[test]
fn test_build_editor_text_default_config() {
    let kb = KeybindingConfig::default();
    let text = build_editor_text(&kb.editor);
    assert!(text.contains("Task Editor Keys"));
}

#[test]
fn test_build_global_text_custom_config() {
    let mut kb = KeybindingConfig::default();
    kb.quit = "ctrl+x".to_string();
    let text = build_global_text(&kb);
    assert!(text.contains("Ctrl+x"));
    assert!(!text.contains("Ctrl+q"));
}

#[test]
fn test_build_editor_text_custom_config() {
    let mut kb = KeybindingConfig::default();
    kb.editor.save = "ctrl+w".to_string();
    kb.editor.cancel = "ctrl+g".to_string();
    let text = build_editor_text(&kb.editor);
    assert!(text.contains("Ctrl+w"));
    assert!(text.contains("Ctrl+g"));
}

#[test]
fn test_build_all_help_text_contains_all_sections() {
    let kb = KeybindingConfig::default();
    let text = build_all_help_text(&kb, &kb.editor);
    assert!(!text.is_empty(), "All-section help text should not be empty");
    assert!(text.contains("Global Keys"));
    assert!(text.contains("Kanban Keys"));
    assert!(text.contains("Review Keys"));
    assert!(text.contains("Task Editor Keys"));
    assert!(text.contains("Press any key to close"));
}
