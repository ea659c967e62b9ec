//! Texts, pages of text and the table.

use cortex::config::{ColumnDefinition, ColumnsConfig};
use cortex::diff_view::{extract_path_from_git_header, parse_range, step};
use cortex::editor::TaskEditorState;
use cortex::keys::{keys_match, parse_key_combo, KeyCode, KeyEvent, KeyModifiers};
use cortex::page::{break_line, erase_back, erase_forward, join_lines, move_to, type_char};
use cortex::page::CursorDirection;
use cortex::reports::{format_elapsed_time, format_seconds};
use cortex::table::Table;
use cortex::text::{
    bytes_in, capitalise, clip, contains, dec, dec_wide, ends_with, find, join, lines, pad_left,
    pad_right, parse_i64, parse_unsigned, skip, spaces, split_n, starts_with, take, trim,
    trim_start_matches, words,
};

fn page(lines: Vec<&str>) -> Vec<String> {
    lines.into_iter().map(|l| l.to_string()).collect()
}

#[test]
fn numbers_are_spelled_and_read() {
    assert_eq!(dec(0), "0");
    assert_eq!(dec(18446744073709551615), "18446744073709551615");
    assert_eq!(dec_wide(340282366920938463463374607431768211455).len(), 39);
    assert_eq!(parse_unsigned("42", 100), Some(42));
    assert_eq!(parse_unsigned("+42", 100), Some(42));
    assert_eq!(parse_unsigned("101", 100), None);
    assert_eq!(parse_unsigned("-1", 100), None);
    assert_eq!(parse_unsigned("", 100), None);
    assert_eq!(parse_unsigned("4x", 100), None);
    assert_eq!(parse_i64("-9223372036854775808"), Some(i64::MIN));
    assert_eq!(parse_i64("9223372036854775807"), Some(i64::MAX));
    assert_eq!(parse_i64("9223372036854775808"), None);
    assert_eq!(parse_i64("+7"), Some(7));
    assert_eq!(parse_i64("-"), None);
}

#[test]
fn texts_are_cut_into_lines_and_words() {
    assert_eq!(lines("a\r\nb\n\nc\n"), vec!["a", "b", "", "c"]);
    assert_eq!(lines("").len(), 0);
    assert_eq!(words("  a\u{3000}b\tc "), vec!["a", "b", "c"]);
    assert_eq!(trim(" \u{a0}a b\n"), "a b");
    assert_eq!(trim_start_matches("--a-", '-'), "a-");
    assert_eq!(split_n("a\tb\tc\td", "\t", 3), vec!["a", "b", "c\td"]);
    assert_eq!(join(&page(vec!["a", "b", "c"]), "; "), "a; b; c");
    assert_eq!(join(&Vec::new(), "; "), "");
}

#[test]
fn texts_are_searched_and_cut() {
    assert_eq!(find("abcabc", "ca"), Some(2));
    assert_eq!(find("abc", "x"), None);
    assert!(contains("né", "é"));
    assert!(starts_with("né", "n"));
    assert!(!starts_with("n", "né"));
    assert!(ends_with("né", "é"));
    assert_eq!(skip("née", 1), "ée");
    assert_eq!(take("née", 2), "né");
    assert_eq!(clip("née", 2), ("n".to_string(), true));
    assert_eq!(clip("née", 3), ("né".to_string(), true));
    assert_eq!(clip("née", 4), ("née".to_string(), false));
    assert_eq!(bytes_in("né"), 3);
    assert_eq!(capitalise("abc"), "Abc");
    assert_eq!(spaces(3), "   ");
    assert_eq!(pad_left("7", 4), "   7");
    assert_eq!(pad_right("ab", 4), "ab  ");
    assert_eq!(pad_right("abcde", 4), "abcde");
}

#[test]
fn key_combos_are_read_without_regard_to_case() {
    assert_eq!(
        parse_key_combo("CTRL+Q"),
        Some(KeyEvent::new(KeyCode::Char('q'), KeyModifiers::control()))
    );
    assert_eq!(parse_key_combo("CTRL+Q"), parse_key_combo("ctrl+q"));
    let key = parse_key_combo("ctrl+q").unwrap();
    assert!(keys_match(&key, &key));
    assert_eq!(parse_key_combo("nothing+at+all"), None);
}

#[test]
fn typing_and_erasing_undo_each_other() {
    let mut p = page(vec!["né", "b"]);
    assert_eq!(type_char(&mut p, 0, 1, 'x'), (0, 2));
    assert_eq!(p, page(vec!["nxé", "b"]));
    assert_eq!(erase_back(&mut p, 0, 2), (0, 1, true));
    assert_eq!(p, page(vec!["né", "b"]));
    assert_eq!(break_line(&mut p, 0, 1), (1, 0));
    assert_eq!(p, page(vec!["n", "é", "b"]));
    assert_eq!(erase_back(&mut p, 1, 0), (0, 1, true));
    assert_eq!(p, page(vec!["né", "b"]));
    assert_eq!(erase_forward(&mut p, 0, 2), (0, 2, true));
    assert_eq!(p, page(vec!["néb"]));
    assert_eq!(erase_back(&mut p, 0, 0), (0, 0, false));
    assert_eq!(erase_forward(&mut p, 0, 3), (0, 3, false));
    assert_eq!(join_lines(&page(vec!["a", "", "b"])), "a\n\nb");
}

#[test]
fn the_cursor_moves_within_the_page() {
    let mut p = page(vec!["long", "s"]);
    assert_eq!(move_to(&mut p, 0, 4, CursorDirection::Down), (1, 1));
    assert_eq!(move_to(&mut p, 1, 1, CursorDirection::Down), (1, 1));
    assert_eq!(move_to(&mut p, 1, 1, CursorDirection::Left), (1, 0));
    assert_eq!(move_to(&mut p, 0, 4, CursorDirection::Up), (0, 4));
    assert_eq!(move_to(&mut p, 0, 0, CursorDirection::Left), (0, 0));
    assert_eq!(move_to(&mut p, 0, 2, CursorDirection::Home), (0, 0));
    assert_eq!(move_to(&mut p, 0, 2, CursorDirection::End), (0, 4));
}

#[test]
fn descriptions_are_set_and_given_back() {
    let mut ed = TaskEditorState::new_for_create("todo", Vec::new());
    ed.set_description("one\ntwo");
    assert_eq!(ed.desc_lines, page(vec!["one", "two"]));
    assert_eq!(ed.description(), "one\ntwo");
    ed.clear_prompt();
    assert_eq!(ed.description(), "");
}

#[test]
fn tables_keep_the_order_of_insertion() {
    let mut t: Table<u8> = Table::new();
    t.insert("b".to_string(), 1);
    t.insert("a".to_string(), 2);
    t.insert("b".to_string(), 3);
    assert_eq!(t.entries, vec![("b".to_string(), 3), ("a".to_string(), 2)]);
    assert_eq!(t.get("b"), Some(&3));
    assert_eq!(t.position("a"), Some(1));
    *t.get_mut("a").unwrap() = 9;
    assert_eq!(t.get("a"), Some(&9));
    t.remove("b");
    assert!(!t.contains_key("b"));
    assert_eq!(t.get("b"), None);
}

#[test]
fn columns_are_looked_up() {
    let c = ColumnsConfig {
        definitions: vec![ColumnDefinition {
            id: "todo".to_string(),
            display_name: "To do".to_string(),
            agent: None,
            auto_progress_to: None,
            visible: false,
        }],
    };
    assert_eq!(c.display_name_for("todo"), "To do");
    assert_eq!(c.agent_for_column("todo"), None);
    assert_eq!(c.agent_for_column("gone"), None);
    assert_eq!(c.position("gone"), None);
    assert_eq!(c.visible_column_ids().len(), 0);
}

#[test]
fn times_are_spelled() {
    assert_eq!(format_seconds(59), "59s");
    assert_eq!(format_seconds(61), "1m 1s");
    assert_eq!(format_elapsed_time(0, 50), "");
    assert_eq!(format_elapsed_time(100, 50), "0s");
    assert_eq!(format_elapsed_time(100, 3825), "1h 2m");
}

#[test]
fn steps_stay_between_the_ends() {
    assert_eq!(step(0, -1, 5), 0);
    assert_eq!(step(5, 1, 5), 5);
    assert_eq!(step(2, i32::MIN, 5), 0);
    assert_eq!(step(2, i32::MAX, 5), 5);
    assert_eq!(parse_range("3"), Some((3, 1)));
    assert_eq!(parse_range("3,0"), Some((3, 0)));
    assert_eq!(parse_range("x"), None);
    assert_eq!(extract_path_from_git_header("a/x y b/x y"), "x y");
    assert_eq!(extract_path_from_git_header("foo bar"), "foo bar");
}
