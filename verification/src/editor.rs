//! The task editor: a description over several lines and the column of the task.

use vstd::prelude::*;
use crate::page;
use crate::page::CursorDirection;
use crate::text;
use crate::text::Cut;

verus! {

/// Which field of the task editor has the focus.
#[derive(Clone, Copy, Debug, PartialEq, Eq, Structural)]
pub enum EditorField {
    Description,
    Column,
}

/// The state of a task editor, or of the prompt input of the detail view.
#[derive(Debug, PartialEq, Eq)]
pub struct TaskEditorState {
    pub desc_lines: Vec<String>,
    pub cursor_row: usize,
    pub cursor_col: usize,
    pub scroll_offset: usize,
    pub focused_field: EditorField,
    pub available_columns: Vec<String>,
    pub column_id: Option<String>,
    pub has_unsaved_changes: bool,
    pub discard_warning_shown: bool,
    pub is_focused: bool,
    pub validation_error: Option<String>,
}

/// `a` and `b` differ at most in the text, the cursor and the two flags on
/// unsaved changes.
pub open spec fn same_but_text(a: TaskEditorState, b: TaskEditorState) -> bool {
    b == (TaskEditorState {
        desc_lines: b.desc_lines,
        cursor_row: b.cursor_row,
        cursor_col: b.cursor_col,
        has_unsaved_changes: b.has_unsaved_changes,
        discard_warning_shown: b.discard_warning_shown,
        ..a
    })
}

impl TaskEditorState {
    /// The text and the cursor.
    pub open spec fn page(&self) -> page::Page {
        page::page_of(self.desc_lines@, self.cursor_row, self.cursor_col)
    }

    /// An empty editor for a new task in the given column.
    pub fn new_for_create(column_id: &str, available_columns: Vec<String>) -> (r: Self)
        ensures
            r.page() == (page::Page { lines: seq![Seq::<char>::empty()], row: 0, col: 0 }),
            r.scroll_offset == 0,
            r.focused_field == EditorField::Description,
            r.available_columns == available_columns,
            r.column_id is Some,
            r.column_id->0@ == column_id@,
            !r.has_unsaved_changes,
            !r.discard_warning_shown,
            r.is_focused,
            r.validation_error is None,
    {
        let mut desc_lines: Vec<String> = Vec::new();
        desc_lines.push(String::new());
        proof {
            assert(text::texts(desc_lines@) =~= seq![Seq::<char>::empty()]);
        }
        TaskEditorState {
            desc_lines,
            cursor_row: 0,
            cursor_col: 0,
            scroll_offset: 0,
            focused_field: EditorField::Description,
            available_columns,
            column_id: Some(column_id.to_owned()),
            has_unsaved_changes: false,
            discard_warning_shown: false,
            is_focused: true,
            validation_error: None,
        }
    }

    /// The description as one text.
    pub fn description(&self) -> (r: String)
        ensures
            r@ == page::joined(self.page().lines),
    {
        page::join_lines(&self.desc_lines)
    }

    /// Puts a text in place of the description; the cursor goes to its start.
    pub fn set_description(&mut self, description: &str)
        ensures
            final(self).page() == (page::Page {
                lines: text::pieces(description@, Cut::At('\n')),
                row: 0,
                col: 0,
            }),
            *final(self) == (TaskEditorState {
                desc_lines: final(self).desc_lines,
                cursor_row: 0,
                cursor_col: 0,
                ..*old(self)
            }),
    {
        self.desc_lines = text::split(description, Cut::At('\n'));
        self.cursor_row = 0;
        self.cursor_col = 0;
    }

    /// Types a character at the cursor.
    pub fn insert_char(&mut self, ch: char)
        ensures
            final(self).page() == old(self).page().typed(ch),
            final(self).has_unsaved_changes,
            !final(self).discard_warning_shown,
            same_but_text(*old(self), *final(self)),
    {
        let (row, col) = page::type_char(&mut self.desc_lines, self.cursor_row, self.cursor_col, ch);
        self.cursor_row = row;
        self.cursor_col = col;
        self.has_unsaved_changes = true;
        self.discard_warning_shown = false;
    }

    /// Breaks the line at the cursor.
    pub fn insert_newline(&mut self)
        ensures
            final(self).page() == old(self).page().broken(),
            final(self).has_unsaved_changes,
            !final(self).discard_warning_shown,
            same_but_text(*old(self), *final(self)),
    {
        let (row, col) = page::break_line(&mut self.desc_lines, self.cursor_row, self.cursor_col);
        self.cursor_row = row;
        self.cursor_col = col;
        self.has_unsaved_changes = true;
        self.discard_warning_shown = false;
    }

    /// Deletes what stands before the cursor.
    pub fn delete_char_back(&mut self)
        ensures
            final(self).page() == old(self).page().erased_back(),
            final(self).has_unsaved_changes == (old(self).has_unsaved_changes || old(
                self,
            ).page().has_before()),
            final(self).discard_warning_shown == (old(self).discard_warning_shown && !old(
                self,
            ).page().has_before()),
            same_but_text(*old(self), *final(self)),
    {
        let (row, col, changed) = page::erase_back(
            &mut self.desc_lines,
            self.cursor_row,
            self.cursor_col,
        );
        self.cursor_row = row;
        self.cursor_col = col;
        if changed {
            self.has_unsaved_changes = true;
            self.discard_warning_shown = false;
        }
    }

    /// Deletes what stands behind the cursor.
    pub fn delete_char_forward(&mut self)
        ensures
            final(self).page() == old(self).page().erased_forward(),
            final(self).has_unsaved_changes == (old(self).has_unsaved_changes || old(
                self,
            ).page().has_behind()),
            final(self).discard_warning_shown == (old(self).discard_warning_shown && !old(
                self,
            ).page().has_behind()),
            same_but_text(*old(self), *final(self)),
    {
        let (row, col, changed) = page::erase_forward(
            &mut self.desc_lines,
            self.cursor_row,
            self.cursor_col,
        );
        self.cursor_row = row;
        self.cursor_col = col;
        if changed {
            self.has_unsaved_changes = true;
            self.discard_warning_shown = false;
        }
    }

    /// Moves the cursor.
    pub fn move_cursor(&mut self, direction: CursorDirection)
        ensures
            final(self).page() == old(self).page().moved(direction),
            final(self).has_unsaved_changes == old(self).has_unsaved_changes,
            final(self).discard_warning_shown == old(self).discard_warning_shown,
            same_but_text(*old(self), *final(self)),
    {
        let (row, col) = page::move_to(
            &mut self.desc_lines,
            self.cursor_row,
            self.cursor_col,
            direction,
        );
        self.cursor_row = row;
        self.cursor_col = col;
    }

    /// The place in the list of columns behind the present one; the first one
    /// behind the last, and when the present one is not in the list.
    pub open spec fn next_column(&self) -> int {
        let columns = text::texts(self.available_columns@);
        match self.column_id {
            Some(id) => match text::place(columns, id@) {
                Some(i) => if i + 1 < columns.len() {
                    i + 1
                } else {
                    0
                },
                None => 0,
            },
            None => 0,
        }
    }

    /// Goes on to the next column. Without columns nothing changes.
    pub fn cycle_column(&mut self)
        ensures
            *final(self) == (TaskEditorState {
                column_id: if old(self).available_columns@.len() == 0 {
                    old(self).column_id
                } else {
                    Some(old(self).available_columns@[old(self).next_column()])
                },
                ..*old(self)
            }),
    {
        if self.available_columns.len() == 0 {
            return;
        }
        let at: usize = match &self.column_id {
            Some(id) => match text::position(&self.available_columns, id.as_str()) {
                Some(i) => if i < self.available_columns.len() - 1 {
                    i + 1
                } else {
                    0
                },
                None => 0,
            },
            None => 0,
        };
        self.column_id = Some(self.available_columns[at].clone());
    }

    /// Empties the text and gives up the focus, as after a prompt is sent.
    pub fn clear_prompt(&mut self)
        ensures
            final(self).page() == (page::Page { lines: seq![Seq::<char>::empty()], row: 0, col: 0 }),
            *final(self) == (TaskEditorState {
                desc_lines: final(self).desc_lines,
                cursor_row: 0,
                cursor_col: 0,
                has_unsaved_changes: false,
                is_focused: false,
                ..*old(self)
            }),
    {
        let mut desc_lines: Vec<String> = Vec::new();
        desc_lines.push(String::new());
        proof {
            assert(text::texts(desc_lines@) =~= seq![Seq::<char>::empty()]);
        }
        self.desc_lines = desc_lines;
        self.cursor_row = 0;
        self.cursor_col = 0;
        self.has_unsaved_changes = false;
        self.is_focused = false;
    }

    /// Scrolls the text up by five lines, at most to the top.
    pub fn page_up(&mut self)
        ensures
            *final(self) == (TaskEditorState {
                scroll_offset: if old(self).scroll_offset >= 5 {
                    (old(self).scroll_offset - 5) as usize
                } else {
                    0
                },
                ..*old(self)
            }),
    {
        self.scroll_offset = if self.scroll_offset >= 5 {
            self.scroll_offset - 5
        } else {
            0
        };
    }

    /// The scroll position five lines down, at most the last line.
    pub open spec fn paged_down(&self) -> int {
        let last = if self.desc_lines@.len() > 0 {
            self.desc_lines@.len() - 1
        } else {
            0
        };
        page::least(self.scroll_offset + 5, last)
    }

    /// Scrolls the text down by five lines, at most to its last line.
    pub fn page_down(&mut self)
        ensures
            *final(self) == (TaskEditorState {
                scroll_offset: old(self).paged_down() as usize,
                ..*old(self)
            }),
    {
        let last: usize = if self.desc_lines.len() > 0 {
            self.desc_lines.len() - 1
        } else {
            0
        };
        self.scroll_offset = if last >= 5 && self.scroll_offset <= last - 5 {
            self.scroll_offset + 5
        } else {
            last
        };
    }
}

} // verus!
