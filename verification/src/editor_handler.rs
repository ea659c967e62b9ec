//! Editor key handler: the fixed keys of the task editor.

use vstd::prelude::*;
use crate::editor;
use crate::editor::{EditorField, TaskEditorState};
use crate::keys::{KeyCode, KeyEvent};
use crate::page::CursorDirection;

verus! {

/// Result of handling an editor key event.
#[derive(Clone, Copy, Debug, PartialEq, Eq, Structural)]
pub enum EditorAction {
    /// Keep editing.
    Stay,
    Save,
    Cancel,
}

/// The cursor movement of a key.
pub open spec fn direction_of(code: KeyCode) -> Option<CursorDirection> {
    match code {
        KeyCode::Up => Some(CursorDirection::Up),
        KeyCode::Down => Some(CursorDirection::Down),
        KeyCode::Left => Some(CursorDirection::Left),
        KeyCode::Right => Some(CursorDirection::Right),
        KeyCode::Home => Some(CursorDirection::Home),
        KeyCode::End => Some(CursorDirection::End),
        _ => None,
    }
}

/// The cursor movement of a key.
pub fn cursor_direction(code: KeyCode) -> (r: Option<CursorDirection>)
    ensures
        r == direction_of(code),
{
    match code {
        KeyCode::Up => Some(CursorDirection::Up),
        KeyCode::Down => Some(CursorDirection::Down),
        KeyCode::Left => Some(CursorDirection::Left),
        KeyCode::Right => Some(CursorDirection::Right),
        KeyCode::Home => Some(CursorDirection::Home),
        KeyCode::End => Some(CursorDirection::End),
        _ => None,
    }
}

/// Whether the key saves: Control with `s` or with Enter.
pub open spec fn saves(key: KeyEvent) -> bool {
    key.modifiers.control && (key.code == KeyCode::Char('s') || key.code == KeyCode::Enter)
}

/// The action that a key press in the task editor `a` leads to. Escape cancels
/// at once without unsaved changes, and otherwise when pressed a second time.
pub open spec fn action_of(a: TaskEditorState, key: KeyEvent) -> EditorAction {
    if saves(key) {
        EditorAction::Save
    } else if key.code == KeyCode::Esc && (a.discard_warning_shown || !a.has_unsaved_changes) {
        EditorAction::Cancel
    } else {
        EditorAction::Stay
    }
}

/// What a key press in the task editor `a` turns it into: `b`.
pub open spec fn edited(a: TaskEditorState, key: KeyEvent, b: TaskEditorState) -> bool {
    if saves(key) {
        b == a
    } else {
        match key.code {
            KeyCode::Esc => b == (TaskEditorState {
                discard_warning_shown: a.discard_warning_shown || a.has_unsaved_changes,
                ..a
            }),
            KeyCode::Tab => match a.focused_field {
                EditorField::Description => if a.available_columns@.len() == 0 {
                    b == a
                } else {
                    b == (TaskEditorState {
                        column_id: Some(a.available_columns@[a.next_column()]),
                        focused_field: EditorField::Column,
                        ..a
                    })
                },
                EditorField::Column => b == (TaskEditorState {
                    focused_field: EditorField::Description,
                    ..a
                }),
            },
            KeyCode::Enter => match a.focused_field {
                EditorField::Description => {
                    &&& b.page() == a.page().broken()
                    &&& b.has_unsaved_changes && !b.discard_warning_shown
                    &&& editor::same_but_text(a, b)
                },
                EditorField::Column => b == a,
            },
            KeyCode::Backspace => {
                &&& b.page() == a.page().erased_back()
                &&& b.has_unsaved_changes == (a.has_unsaved_changes || a.page().has_before())
                &&& b.discard_warning_shown == (a.discard_warning_shown && !a.page().has_before())
                &&& editor::same_but_text(a, b)
            },
            KeyCode::Delete => {
                &&& b.page() == a.page().erased_forward()
                &&& b.has_unsaved_changes == (a.has_unsaved_changes || a.page().has_behind())
                &&& b.discard_warning_shown == (a.discard_warning_shown && !a.page().has_behind())
                &&& editor::same_but_text(a, b)
            },
            KeyCode::PageUp => b == (TaskEditorState {
                scroll_offset: if a.scroll_offset >= 5 {
                    (a.scroll_offset - 5) as usize
                } else {
                    0
                },
                ..a
            }),
            KeyCode::PageDown => b == (TaskEditorState {
                scroll_offset: a.paged_down() as usize,
                ..a
            }),
            KeyCode::Char(ch) => if key.is_command() {
                b == a
            } else {
                &&& b.page() == a.page().typed(ch)
                &&& b.has_unsaved_changes && !b.discard_warning_shown
                &&& editor::same_but_text(a, b)
            },
            _ => match direction_of(key.code) {
                Some(direction) => {
                    &&& b.page() == a.page().moved(direction)
                    &&& b.has_unsaved_changes == a.has_unsaved_changes
                    &&& b.discard_warning_shown == a.discard_warning_shown
                    &&& editor::same_but_text(a, b)
                },
                None => b == a,
            },
        }
    }
}

/// Handle a key event in the task editor.
/// Returns an action if the key triggers a mode transition.
pub fn handle_editor_input(editor: &mut TaskEditorState, key: KeyEvent) -> (r: EditorAction)
    ensures
        r == action_of(*old(editor), key),
        edited(*old(editor), key, *final(editor)),
{
    // Ctrl+S or Ctrl+Enter: save
    if key.modifiers.control && (key.code == KeyCode::Char('s') || key.code == KeyCode::Enter) {
        return EditorAction::Save;
    }
    match key.code {
        // Cancel, with a warning first when there are unsaved changes
        KeyCode::Esc => {
            if editor.discard_warning_shown {
                return EditorAction::Cancel;
            }
            if editor.has_unsaved_changes {
                editor.discard_warning_shown = true;
                return EditorAction::Stay;
            }
            return EditorAction::Cancel;
        },
        // Cycle the focus between description and column
        KeyCode::Tab => {
            match editor.focused_field {
                EditorField::Description => {
                    if editor.available_columns.len() > 0 {
                        editor.cycle_column();
                        editor.focused_field = EditorField::Column;
                    }
                },
                EditorField::Column => {
                    editor.focused_field = EditorField::Description;
                },
            }
        },
        KeyCode::Enter => {
            match editor.focused_field {
                EditorField::Description => {
                    editor.insert_newline();
                },
                EditorField::Column => {},
            }
        },
        KeyCode::Backspace => {
            editor.delete_char_back();
        },
        KeyCode::Delete => {
            editor.delete_char_forward();
        },
        KeyCode::PageUp => {
            editor.page_up();
        },
        KeyCode::PageDown => {
            editor.page_down();
        },
        // Printable characters; Control and Alt combinations are ignored
        KeyCode::Char(ch) => {
            if !(key.modifiers.control || key.modifiers.alt) {
                editor.insert_char(ch);
            }
        },
        _ => {
            if let Some(direction) = cursor_direction(key.code) {
                editor.move_cursor(direction);
            }
        },
    }
    EditorAction::Stay
}

/// Escape never discards unsaved changes without a warning that was shown
/// before, and a second Escape does discard them.
pub proof fn law_escape_warns_before_discarding(
    a: TaskEditorState,
    b: TaskEditorState,
    esc: KeyEvent,
)
    requires
        esc.code == KeyCode::Esc,
        a.has_unsaved_changes,
        !a.discard_warning_shown,
        edited(a, esc, b),
    ensures
        action_of(a, esc) == EditorAction::Stay,
        b.discard_warning_shown,
        action_of(b, esc) == EditorAction::Cancel,
{
}

/// Typing after the warning takes it back: the next Escape warns again.
pub proof fn law_typing_takes_the_warning_back(
    a: TaskEditorState,
    b: TaskEditorState,
    key: KeyEvent,
    esc: KeyEvent,
)
    requires
        key.code is Char,
        !key.is_command(),
        edited(a, key, b),
        esc.code == KeyCode::Esc,
    ensures
        b.has_unsaved_changes,
        !b.discard_warning_shown,
        action_of(b, esc) == EditorAction::Stay,
{
}

/// With columns to choose from, Tab pressed twice comes back to the field it
/// started from.
pub proof fn law_tab_twice_comes_back(
    a: TaskEditorState,
    b: TaskEditorState,
    c: TaskEditorState,
    tab: KeyEvent,
)
    requires
        tab.code == KeyCode::Tab,
        a.available_columns@.len() > 0,
        edited(a, tab, b),
        edited(b, tab, c),
    ensures
        b.focused_field != a.focused_field,
        c.focused_field == a.focused_field,
{
}

/// Keys that edit a description do what they say to the text: a character is
/// typed, Enter breaks the line, Backspace and Delete erase before and behind the
/// cursor, and the arrow keys, Home and End only move it.
pub proof fn law_editor_keys_edit(a: TaskEditorState, key: KeyEvent, b: TaskEditorState)
    requires
        edited(a, key, b),
        a.focused_field == EditorField::Description,
        !key.modifiers.control,
    ensures
        key.code is Char && !key.modifiers.alt ==> b.page() == a.page().typed(key.code->Char_0),
        key.code is Char && key.modifiers.alt ==> b == a,
        key.code == KeyCode::Enter ==> b.page() == a.page().broken(),
        key.code == KeyCode::Backspace ==> b.page() == a.page().erased_back(),
        key.code == KeyCode::Delete ==> b.page() == a.page().erased_forward(),
        key.code == KeyCode::Up ==> b.page() == a.page().moved(CursorDirection::Up),
        key.code == KeyCode::Down ==> b.page() == a.page().moved(CursorDirection::Down),
        key.code == KeyCode::Left ==> b.page() == a.page().moved(CursorDirection::Left),
        key.code == KeyCode::Right ==> b.page() == a.page().moved(CursorDirection::Right),
        key.code == KeyCode::Home ==> b.page() == a.page().moved(CursorDirection::Home),
        key.code == KeyCode::End ==> b.page() == a.page().moved(CursorDirection::End),
        action_of(a, key) == EditorAction::Cancel ==> key.code == KeyCode::Esc,
        action_of(a, key) != EditorAction::Save,
{
}

/// Control with `s` or with Enter saves, whatever else the editor is at, and
/// leaves the text as it is; nothing else saves.
pub proof fn law_control_saves(a: TaskEditorState, key: KeyEvent, b: TaskEditorState)
    requires
        edited(a, key, b),
    ensures
        action_of(a, key) == EditorAction::Save <==> key.modifiers.control && (key.code
            == KeyCode::Char('s') || key.code == KeyCode::Enter),
        action_of(a, key) == EditorAction::Save ==> b == a,
{
}

/// Tab goes on to the next of the columns a task can stand in, and to the first
/// behind the last.
pub proof fn law_tab_chooses_the_next_column(
    a: TaskEditorState,
    tab: KeyEvent,
    b: TaskEditorState,
    i: int,
)
    requires
        tab.code == KeyCode::Tab,
        edited(a, tab, b),
        a.focused_field == EditorField::Description,
        a.column_id is Some,
        0 <= i < a.available_columns@.len(),
        crate::text::place(crate::text::texts(a.available_columns@), a.column_id->0@) == Some(i),
    ensures
        b.column_id == Some(
            a.available_columns@[if i + 1 < a.available_columns@.len() {
                i + 1
            } else {
                0
            }],
        ),
        b.page() == a.page(),
{
}

/// Page Down and Page Up scroll the description by five lines, within it.
pub proof fn law_description_pages(a: TaskEditorState, key: KeyEvent, b: TaskEditorState)
    requires
        edited(a, key, b),
        a.scroll_offset < a.desc_lines@.len() <= usize::MAX,
    ensures
        key.code == KeyCode::PageDown ==> b.scroll_offset == if a.scroll_offset + 5
            < a.desc_lines@.len() {
            a.scroll_offset + 5
        } else {
            a.desc_lines@.len() - 1
        },
        key.code == KeyCode::PageUp ==> b.scroll_offset == if a.scroll_offset >= 5 {
            a.scroll_offset - 5
        } else {
            0
        },
        key.code == KeyCode::PageDown || key.code == KeyCode::PageUp ==> b.page() == a.page(),
{
}

/// A change of the description is marked as unsaved and takes the warning about
/// discarding back; the mark stays while it is edited on.
pub proof fn law_description_changes_are_marked(
    a: TaskEditorState,
    key: KeyEvent,
    b: TaskEditorState,
)
    requires
        a.page().wf(),
        edited(a, key, b),
    ensures
        b.page().lines != a.page().lines ==> b.has_unsaved_changes && !b.discard_warning_shown,
        a.has_unsaved_changes ==> b.has_unsaved_changes,
        !a.discard_warning_shown && b.discard_warning_shown ==> key.code == KeyCode::Esc
            && a.has_unsaved_changes,
{
    crate::page::law_erasing_changes_what_is_there(a.page());
    crate::page::law_settling_settles(a.page());
    if direction_of(key.code) is Some {
        crate::page::law_moving_changes_no_text(a.page(), direction_of(key.code)->0);
    }
}

} // verus!
