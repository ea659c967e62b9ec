//! Key handlers of the diff review, archive, delete confirmation and
//! configuration editor modes.

use vstd::prelude::*;
use crate::config_editor::ConfigEditorState;
use crate::diff_view;
use crate::editor_handler;
use crate::effects;
use crate::effects::{Effect, Effects};
use crate::keys::{KeyCode, KeyEvent};
use crate::page;
use crate::state;
use crate::state::{
    AppMode, AppState, ArchiveState, DiffReviewState, FocusedPanel, NotificationVariant, UiState,
};
use crate::tasks;
use crate::text;

verus! {

// ─── Diff review ──────────────────────────────────────────────────────────

/// `r` with the next file selected, around the end.
pub open spec fn next_selected(r: DiffReviewState) -> DiffReviewState {
    if r.files@.len() == 0 {
        r
    } else {
        DiffReviewState {
            selected_file_index: ((r.selected_file_index + 1) % (r.files@.len() as int)) as usize,
            scroll_offset: 0,
            ..r
        }
    }
}

/// `r` with the previous file selected, around the start.
pub open spec fn prev_selected(r: DiffReviewState) -> DiffReviewState {
    if r.files@.len() == 0 {
        r
    } else {
        DiffReviewState {
            selected_file_index: if r.selected_file_index == 0 {
                (r.files@.len() - 1) as usize
            } else {
                (r.selected_file_index - 1) as usize
            },
            scroll_offset: 0,
            ..r
        }
    }
}

/// `r` scrolled by `delta` lines.
pub open spec fn scrolled(r: DiffReviewState, delta: int) -> DiffReviewState {
    DiffReviewState { scroll_offset: r.scrolled(delta) as usize, ..r }
}

/// What a key turns an open diff review into. In the file list the vertical
/// keys select a file, in the diff they scroll; the horizontal keys change
/// between the two and, beyond that, between files.
pub open spec fn review_key(r: DiffReviewState, code: KeyCode) -> DiffReviewState {
    match code {
        KeyCode::Tab => DiffReviewState { files_list_focused: !r.files_list_focused, ..r },
        KeyCode::Char('j') | KeyCode::Down => if r.files_list_focused {
            if r.selected_file_index < diff_view::last_index(r.files@.len()) {
                DiffReviewState {
                    selected_file_index: (r.selected_file_index + 1) as usize,
                    scroll_offset: 0,
                    ..r
                }
            } else {
                r
            }
        } else {
            scrolled(r, 1)
        },
        KeyCode::Char('k') | KeyCode::Up => if r.files_list_focused {
            if r.selected_file_index > 0 {
                DiffReviewState {
                    selected_file_index: (r.selected_file_index - 1) as usize,
                    scroll_offset: 0,
                    ..r
                }
            } else {
                r
            }
        } else {
            scrolled(r, -1)
        },
        KeyCode::Char('l') | KeyCode::Right => if r.files_list_focused {
            DiffReviewState { files_list_focused: false, ..r }
        } else {
            next_selected(r)
        },
        KeyCode::Char('h') | KeyCode::Left => if r.files_list_focused {
            prev_selected(r)
        } else {
            DiffReviewState { files_list_focused: true, ..r }
        },
        KeyCode::Char(']') => next_selected(r),
        KeyCode::Char('[') | KeyCode::Backspace => prev_selected(r),
        _ => r,
    }
}

/// What a key press in the diff review does. Leaving it returns to the detail
/// view when it was opened from there.
pub open spec fn review_handled(before: AppState, key: KeyEvent) -> AppState {
    match key.code {
        KeyCode::Esc | KeyCode::Char('q') => AppState {
            ui: UiState {
                diff_review: None,
                diff_review_source: None,
                mode: AppMode::Normal,
                focused_panel: if before.ui.diff_review_source == Some(FocusedPanel::TaskDetail) {
                    FocusedPanel::TaskDetail
                } else {
                    before.ui.focused_panel
                },
                ..before.ui
            },
            ..before
        },
        code => match before.ui.diff_review {
            Some(r) => AppState {
                ui: UiState { diff_review: Some(review_key(r, code)), ..before.ui },
                ..before
            },
            None => before,
        },
    }
}

fn edit_review(review: &mut DiffReviewState, code: KeyCode)
    ensures
        *final(review) == review_key(*old(review), code),
{
    match code {
        KeyCode::Tab => {
            review.files_list_focused = !review.files_list_focused;
        },
        KeyCode::Char('j') | KeyCode::Down => {
            if review.files_list_focused {
                let n: usize = review.files.len();
                if n > 0 && review.selected_file_index < n - 1 {
                    review.selected_file_index = review.selected_file_index + 1;
                    review.scroll_offset = 0;
                }
            } else {
                let _changed = diff_view::scroll_diff(review, 1);
            }
        },
        KeyCode::Char('k') | KeyCode::Up => {
            if review.files_list_focused {
                if review.selected_file_index > 0 {
                    review.selected_file_index = review.selected_file_index - 1;
                    review.scroll_offset = 0;
                }
            } else {
                let _changed = diff_view::scroll_diff(review, -1);
            }
        },
        KeyCode::Char('l') | KeyCode::Right => {
            if review.files_list_focused {
                review.files_list_focused = false;
            } else {
                diff_view::next_file(review);
            }
        },
        KeyCode::Char('h') | KeyCode::Left => {
            if review.files_list_focused {
                diff_view::prev_file(review);
            } else {
                review.files_list_focused = true;
            }
        },
        KeyCode::Char(']') => {
            diff_view::next_file(review);
        },
        KeyCode::Char('[') | KeyCode::Backspace => {
            diff_view::prev_file(review);
        },
        _ => {},
    }
}

/// Handle key events in diff review mode.
pub fn handle_diff_review_key(state: &mut AppState, key: KeyEvent)
    ensures
        *final(state) == review_handled(*old(state), key),
{
    match key.code {
        KeyCode::Esc | KeyCode::Char('q') => {
            if state.ui.diff_review_source == Some(FocusedPanel::TaskDetail) {
                state.ui.focused_panel = FocusedPanel::TaskDetail;
            }
            state.ui.diff_review_source = None;
            state.ui.mode = AppMode::Normal;
            state.ui.diff_review = None;
        },
        code => match &mut state.ui.diff_review {
            Some(review) => {
                edit_review(review, code);
            },
            None => {},
        },
    }
}

// ─── Archive ──────────────────────────────────────────────────────────────

/// The archived task that is selected.
pub open spec fn archived_task(state: AppState, archived: Seq<String>) -> Option<String> {
    match state.ui.archive_state {
        Some(a) => if a.selected_index < archived.len() {
            Some(archived[a.selected_index as int])
        } else {
            None
        },
        None => None,
    }
}

/// What a key press in the archive does: it moves the selection, opens the
/// selected task, takes it out of the archive, or leaves. `archived` are the
/// archived tasks of the active project.
pub open spec fn archive_key(
    before: AppState,
    key: KeyEvent,
    archived: Seq<String>,
    after: AppState,
    fx: Seq<Effect<Seq<char>>>,
) -> bool {
    let plain = key.modifiers == crate::keys::KeyModifiers::none();
    let last = diff_view::last_index(archived.len());
    let dirty = AppState { render_dirty: true, ..before };
    if key.code == KeyCode::Esc || (plain && key.code == KeyCode::Char('q')) {
        archive_left(before, after, fx)
    } else if !plain {
        after == before && fx.len() == 0
    } else { match key.code {
        KeyCode::Up | KeyCode::Char('k') => fx.len() == 0 && after
            == match before.ui.archive_state {
            Some(a) => archive_at(
                before,
                page::least(
                    if a.selected_index > 0 {
                        a.selected_index - 1
                    } else {
                        0
                    },
                    last,
                ),
            ),
            None => dirty,
        },
        KeyCode::Down | KeyCode::Char('j') => fx.len() == 0 && after
            == match before.ui.archive_state {
            Some(a) => archive_at(before, page::least(a.selected_index + 1, last)),
            None => dirty,
        },
        KeyCode::Enter => match archived_task(before, archived) {
            Some(id) => after == dirty && fx =~= seq![
                Effect::OpenTaskDetail { task_id: id@ },
                Effect::SetDiffReviewSource { panel: FocusedPanel::Kanban },
            ],
            None => after == before && fx.len() == 0,
        },
        KeyCode::Char('u') => match archived_task(before, archived) {
            Some(id) => after == dirty && fx == seq![Effect::UnarchiveTask { task_id: id@ }],
            None => after == before && fx.len() == 0,
        },
        _ => after == before && fx.len() == 0,
    } }
}

/// Leaving the archive.
pub open spec fn archive_left(
    before: AppState,
    after: AppState,
    fx: Seq<Effect<Seq<char>>>,
) -> bool {
    &&& fx.len() == 0
    &&& after == (AppState {
        ui: UiState { mode: AppMode::Normal, ..before.ui },
        render_dirty: true,
        ..before
    })
}

/// The archive with entry `i` selected.
pub open spec fn archive_at(before: AppState, i: int) -> AppState {
    AppState {
        ui: UiState {
            archive_state: Some(ArchiveState { selected_index: i as usize }),
            ..before.ui
        },
        render_dirty: true,
        ..before
    }
}

fn selected_archived(state: &AppState, archived: &Vec<String>) -> (r: Option<String>)
    ensures
        r == archived_task(*state, archived@),
{
    match &state.ui.archive_state {
        Some(a) => if a.selected_index < archived.len() {
            Some(archived[a.selected_index].clone())
        } else {
            None
        },
        None => None,
    }
}

/// Handle key events in archive mode.
///
/// - Up/Down or j/k: navigate the archived task list
/// - Enter: view task detail for the selected archived task
/// - u: unarchive the selected task
/// - Esc or q: return to normal mode
pub fn handle_archive_key(state: &mut AppState, key: KeyEvent, archived: &Vec<String>) -> (fx:
    Effects)
    ensures
        archive_key(*old(state), key, archived@, *final(state), fx@),
{
    let plain = key.modifiers == crate::keys::KeyModifiers::none();
    let last: usize = if archived.len() > 0 {
        archived.len() - 1
    } else {
        0
    };
    if key.code == KeyCode::Esc || (plain && key.code == KeyCode::Char('q')) {
        state.ui.mode = AppMode::Normal;
        state.mark_render_dirty();
        return Effects::new();
    }
    if !plain {
        return Effects::new();
    }
    match key.code {
        KeyCode::Up | KeyCode::Char('k') => {
            if let Some(a) = state.ui.archive_state {
                let up: usize = if a.selected_index > 0 {
                    a.selected_index - 1
                } else {
                    0
                };
                let at: usize = if up < last {
                    up
                } else {
                    last
                };
                state.ui.archive_state = Some(ArchiveState { selected_index: at });
            }
            state.mark_render_dirty();
        },
        KeyCode::Down | KeyCode::Char('j') => {
            if let Some(a) = state.ui.archive_state {
                let at: usize = if a.selected_index < last {
                    a.selected_index + 1
                } else {
                    last
                };
                state.ui.archive_state = Some(ArchiveState { selected_index: at });
            }
            state.mark_render_dirty();
        },
        KeyCode::Enter => {
            if let Some(id) = selected_archived(state, archived) {
                state.mark_render_dirty();
                let mut fx = Effects::one(Effect::OpenTaskDetail { task_id: id });
                fx.push(Effect::SetDiffReviewSource { panel: FocusedPanel::Kanban });
                return fx;
            }
        },
        KeyCode::Char('u') => {
            if let Some(id) = selected_archived(state, archived) {
                state.mark_render_dirty();
                return Effects::one(Effect::UnarchiveTask { task_id: id });
            }
        },
        _ => {},
    }
    Effects::new()
}

/// Reports that a task was taken out of the archive, if it was.
pub fn task_unarchived(done: bool) -> (fx: Effects)
    ensures
        fx@ == if done {
            seq![effects::notice("Task unarchived"@, NotificationVariant::Success, 3000)]
        } else {
            seq![]
        },
{
    if done {
        Effects::say("Task unarchived", NotificationVariant::Success, 3000)
    } else {
        Effects::new()
    }
}

/// Opens the archive at its first entry.
pub fn open_archive(state: &mut AppState)
    ensures
        *final(state) == (AppState {
            ui: UiState {
                archive_state: Some(ArchiveState { selected_index: 0 }),
                mode: AppMode::Archive,
                ..old(state).ui
            },
            render_dirty: true,
            ..*old(state)
        }),
{
    state.ui.archive_state = Some(ArchiveState { selected_index: 0 });
    state.ui.mode = AppMode::Archive;
    state.mark_render_dirty();
}

// ─── Delete confirmation ──────────────────────────────────────────────────

/// What a key press while a deletion waits for confirmation does.
pub open spec fn confirm_key(
    before: AppState,
    key: KeyEvent,
    after: AppState,
    fx: Seq<Effect<Seq<char>>>,
) -> bool {
    match key.code {
        KeyCode::Char('y') | KeyCode::Enter => tasks::deletion_confirmed(before, after, fx),
        KeyCode::Char('n') | KeyCode::Esc | KeyCode::Char('q') => {
            &&& fx.len() == 0
            &&& after == (AppState {
                ui: UiState { pending_delete_task_id: None, mode: AppMode::Normal, ..before.ui },
                render_dirty: true,
                ..before
            })
        },
        _ => after == before && fx.len() == 0,
    }
}

/// Handle key events while a deletion waits for confirmation.
///
/// - `y` or `Enter`: execute the pending deletion
/// - `n` or `Esc` or `q`: cancel and return to normal mode
/// - Any other key: ignored
pub fn handle_confirm_delete_key(state: &mut AppState, key: KeyEvent) -> (fx: Effects)
    ensures
        confirm_key(*old(state), key, *final(state), fx@),
{
    match key.code {
        KeyCode::Char('y') | KeyCode::Enter => tasks::execute_delete_task(state),
        KeyCode::Char('n') | KeyCode::Esc | KeyCode::Char('q') => {
            state.ui.pending_delete_task_id = None;
            state.ui.mode = AppMode::Normal;
            state.mark_render_dirty();
            Effects::new()
        },
        _ => Effects::new(),
    }
}

/// A task is deleted only after it was asked about and confirmed, and it is
/// the task that was focused when the question was put.
pub proof fn law_only_confirmed_tasks_are_deleted(
    a: AppState,
    b: AppState,
    c: AppState,
    key: KeyEvent,
    fx1: Seq<Effect<Seq<char>>>,
    fx2: Seq<Effect<Seq<char>>>,
    i: int,
)
    requires
        tasks::deletion_asked(a, b, fx1),
        a.ui.focused_task_id is Some,
        confirm_key(b, key, c, fx2),
        0 <= i < fx2.len(),
    ensures
        key.code == KeyCode::Char('y') || key.code == KeyCode::Enter,
        fx2[i] == (Effect::DeleteTask { task_id: a.ui.focused_task_id->0@ }),
        c.ui.mode == AppMode::Normal,
        c.ui.pending_delete_task_id is None,
{
}

// ─── Configuration editor ─────────────────────────────────────────────────

/// The place of the cursor after `row` and `col` are brought into `lines`.
pub open spec fn col_in(lines: Seq<String>, row: int, col: int) -> int {
    page::least(
        col,
        if 0 <= row < lines.len() {
            lines[row]@.len() as int
        } else {
            0
        },
    )
}

fn clip_col(lines: &Vec<String>, row: usize, col: usize) -> (r: usize)
    ensures
        r == col_in(lines@, row as int, col as int),
{
    let n: usize = if row < lines.len() {
        lines[row].as_str().unicode_len()
    } else {
        0
    };
    if col < n {
        col
    } else {
        n
    }
}

/// The editor one page up: ten lines, with the cursor not below the top line.
pub open spec fn paged_up(a: ConfigEditorState) -> ConfigEditorState {
    let offset = if a.scroll_offset >= 10 {
        a.scroll_offset - 10
    } else {
        0
    };
    let row = page::least(a.cursor_row as int, offset);
    ConfigEditorState {
        scroll_offset: offset as usize,
        cursor_row: row as usize,
        cursor_col: col_in(a.lines@, row, a.cursor_col as int) as usize,
        ..a
    }
}

/// The editor one page down: ten lines, at most to the last line.
pub open spec fn paged_down(a: ConfigEditorState) -> ConfigEditorState {
    let last = diff_view::last_index(a.lines@.len());
    let row = page::least(a.cursor_row + 10, last);
    ConfigEditorState {
        scroll_offset: page::least(a.scroll_offset + 10, last) as usize,
        cursor_row: row as usize,
        cursor_col: col_in(a.lines@, row, a.cursor_col as int) as usize,
        ..a
    }
}

/// What a key that edits or moves turns the editor `a` into: `b`.
pub open spec fn config_edited(
    a: ConfigEditorState,
    key: KeyEvent,
    b: ConfigEditorState,
) -> bool {
    match key.code {
        KeyCode::PageUp => b == paged_up(a),
        KeyCode::PageDown => b == paged_down(a),
        KeyCode::Char(c) => if key.is_command() {
            b == a
        } else {
            &&& b.page() == a.page().typed(c)
            &&& b.has_unsaved_changes
            &&& crate::config_editor::same_but_lines(a, b)
        },
        KeyCode::Enter => {
            &&& b.page() == a.page().broken()
            &&& b.has_unsaved_changes
            &&& crate::config_editor::same_but_lines(a, b)
        },
        KeyCode::Backspace => {
            &&& b.page() == a.page().erased_back()
            &&& b.has_unsaved_changes == (a.has_unsaved_changes || a.page().has_before())
            &&& crate::config_editor::same_but_lines(a, b)
        },
        KeyCode::Delete => {
            &&& b.page() == a.page().erased_forward()
            &&& b.has_unsaved_changes == (a.has_unsaved_changes || a.page().has_behind())
            &&& crate::config_editor::same_but_lines(a, b)
        },
        KeyCode::Tab => {
            &&& b.page() == a.page().typed(' ').typed(' ')
            &&& b.has_unsaved_changes
            &&& crate::config_editor::same_but_lines(a, b)
        },
        code => match editor_handler::direction_of(code) {
            Some(direction) => {
                &&& b.page() == a.page().moved(direction)
                &&& b.has_unsaved_changes == a.has_unsaved_changes
                &&& crate::config_editor::same_but_lines(a, b)
            },
            None => b == a,
        },
    }
}

fn edit_config(ed: &mut ConfigEditorState, key: KeyEvent)
    ensures
        config_edited(*old(ed), key, *final(ed)),
{
    match key.code {
        KeyCode::PageUp => {
            let offset: usize = if ed.scroll_offset >= 10 {
                ed.scroll_offset - 10
            } else {
                0
            };
            ed.scroll_offset = offset;
            if ed.cursor_row > offset {
                ed.cursor_row = offset;
            }
            ed.cursor_col = clip_col(&ed.lines, ed.cursor_row, ed.cursor_col);
        },
        KeyCode::PageDown => {
            let n: usize = ed.lines.len();
            let last: usize = if n > 0 {
                n - 1
            } else {
                0
            };
            ed.scroll_offset = if last >= 10 && ed.scroll_offset <= last - 10 {
                ed.scroll_offset + 10
            } else {
                last
            };
            ed.cursor_row = if last >= 10 && ed.cursor_row <= last - 10 {
                ed.cursor_row + 10
            } else {
                last
            };
            ed.cursor_col = clip_col(&ed.lines, ed.cursor_row, ed.cursor_col);
        },
        KeyCode::Char(c) => {
            if !(key.modifiers.control || key.modifiers.alt) {
                ed.insert_char(c);
            }
        },
        KeyCode::Enter => {
            ed.insert_newline();
        },
        KeyCode::Backspace => {
            ed.delete_char_back();
        },
        KeyCode::Delete => {
            ed.delete_char_forward();
        },
        KeyCode::Tab => {
            ed.insert_char(' ');
            ed.insert_char(' ');
        },
        code => {
            if let Some(direction) = editor_handler::cursor_direction(code) {
                ed.move_cursor(direction);
            }
        },
    }
}

/// Whether a key does something in the configuration editor besides saving and
/// leaving.
pub open spec fn config_key_known(key: KeyEvent) -> bool {
    match key.code {
        KeyCode::PageUp | KeyCode::PageDown | KeyCode::Enter | KeyCode::Backspace
        | KeyCode::Delete | KeyCode::Tab => true,
        KeyCode::Char(_) => !key.is_command(),
        code => editor_handler::direction_of(code) is Some,
    }
}

fn is_config_key(key: KeyEvent) -> (r: bool)
    ensures
        r == config_key_known(key),
{
    match key.code {
        KeyCode::PageUp | KeyCode::PageDown | KeyCode::Enter | KeyCode::Backspace
        | KeyCode::Delete | KeyCode::Tab => true,
        KeyCode::Char(_) => !(key.modifiers.control || key.modifiers.alt),
        code => editor_handler::cursor_direction(code).is_some(),
    }
}

/// What a key press in the configuration editor does: Control with `s` saves,
/// Escape leaves without saving, any other key edits or moves.
pub open spec fn config_key(
    before: AppState,
    key: KeyEvent,
    after: AppState,
    fx: Seq<Effect<Seq<char>>>,
) -> bool {
    if key.modifiers.control && key.code == KeyCode::Char('s') {
        &&& after == before
        &&& fx == match before.ui.config_editor_state {
            Some(ed) => seq![
                Effect::SaveConfig { content: page::joined(ed.page().lines) },
            ],
            None => seq![],
        }
    } else if key.code == KeyCode::Esc {
        &&& fx.len() == 0
        &&& after == (AppState {
            ui: UiState { config_editor_state: None, mode: AppMode::Normal, ..before.ui },
            render_dirty: true,
            ..before
        })
    } else {
        &&& fx.len() == 0
        &&& after == (AppState {
            ui: UiState { config_editor_state: after.ui.config_editor_state, ..before.ui },
            render_dirty: before.render_dirty || config_key_known(key),
            ..before
        })
        &&& match before.ui.config_editor_state {
            Some(a) => after.ui.config_editor_state is Some && config_edited(
                a,
                key,
                after.ui.config_editor_state->0,
            ),
            None => after.ui.config_editor_state is None,
        }
    }
}

/// Handle key events in configuration editor mode.
///
/// - Arrow keys / Home / End / PageUp / PageDown: navigate
/// - Character input: edit text
/// - Enter: insert newline
/// - Backspace / Delete: delete characters
/// - Tab: insert two spaces
/// - Ctrl+S: save, validate, and hot-reload if valid
/// - Esc: cancel and return to normal mode (discard changes)
pub fn handle_config_editor_key(state: &mut AppState, key: KeyEvent) -> (fx: Effects)
    ensures
        config_key(*old(state), key, *final(state), fx@),
{
    if key.modifiers.control && key.code == KeyCode::Char('s') {
        return match &state.ui.config_editor_state {
            Some(ed) => Effects::one(Effect::SaveConfig { content: ed.content() }),
            None => Effects::new(),
        };
    }
    if key.code == KeyCode::Esc {
        state.ui.config_editor_state = None;
        state.ui.mode = AppMode::Normal;
        state.mark_render_dirty();
        return Effects::new();
    }
    match &mut state.ui.config_editor_state {
        Some(ed) => {
            edit_config(ed, key);
        },
        None => {},
    }
    if is_config_key(key) {
        state.mark_render_dirty();
    }
    Effects::new()
}

/// How saving the configuration came out.
#[derive(Debug, PartialEq, Eq)]
pub enum ConfigOutcome {
    /// The file could not be written.
    WriteFailed(String),
    /// The file was written, but what it says is not valid.
    Invalid(Vec<String>),
    /// The file was written and loaded.
    Reloaded,
}

/// The editor with an error shown in it.
pub open spec fn error_shown(before: AppState, error: Seq<char>, after: AppState) -> bool {
    &&& after == (AppState {
        ui: UiState { config_editor_state: after.ui.config_editor_state, ..before.ui },
        render_dirty: true,
        ..before
    })
    &&& match before.ui.config_editor_state {
        Some(a) => {
            &&& after.ui.config_editor_state is Some
            &&& after.ui.config_editor_state->0 == (ConfigEditorState {
                validation_error: after.ui.config_editor_state->0.validation_error,
                ..a
            })
            &&& state::opt_view(after.ui.config_editor_state->0.validation_error) == Some(error)
        },
        None => after.ui.config_editor_state is None,
    }
}

fn show_error(state: &mut AppState, error: String)
    ensures
        error_shown(*old(state), error@, *final(state)),
{
    match &mut state.ui.config_editor_state {
        Some(ed) => {
            ed.validation_error = Some(error);
        },
        None => {},
    }
    state.mark_render_dirty();
}

/// What follows the saving of the configuration: on success the editor is
/// left, on failure it stays open with the error shown.
pub fn config_saved(state: &mut AppState, outcome: ConfigOutcome) -> (fx: Effects)
    ensures
        match outcome {
            ConfigOutcome::WriteFailed(e) => fx@.len() == 0 && error_shown(
                *old(state),
                "Failed to write file: "@ + e@,
                *final(state),
            ),
            ConfigOutcome::Invalid(errors) => fx@.len() == 0 && error_shown(
                *old(state),
                text::joined_by(text::texts(errors@), "; "@),
                *final(state),
            ),
            ConfigOutcome::Reloaded => {
                &&& *final(state) == (AppState {
                    ui: UiState {
                        config_editor_state: None,
                        mode: AppMode::Normal,
                        ..old(state).ui
                    },
                    render_dirty: true,
                    ..*old(state)
                })
                &&& fx@ == seq![
                    effects::notice(
                        "Config saved and reloaded"@,
                        NotificationVariant::Success,
                        3000,
                    ),
                ]
            },
        },
{
    match outcome {
        ConfigOutcome::WriteFailed(e) => {
            show_error(state, text::join2("Failed to write file: ", e.as_str()));
            Effects::new()
        },
        ConfigOutcome::Invalid(errors) => {
            show_error(state, text::join(&errors, "; "));
            Effects::new()
        },
        ConfigOutcome::Reloaded => {
            state.ui.config_editor_state = None;
            state.ui.mode = AppMode::Normal;
            state.mark_render_dirty();
            Effects::say("Config saved and reloaded", NotificationVariant::Success, 3000)
        },
    }
}

/// Opens the configuration editor on the contents of the file at `path`;
/// `None` when it could not be read, which is reported.
pub fn open_config_editor(state: &mut AppState, path: &str, content: Option<String>) -> (fx:
    Effects)
    ensures
        match content {
            None => {
                &&& *final(state) == *old(state)
                &&& fx@ == seq![
                    effects::notice(
                        "Cannot open config file: "@ + path@,
                        NotificationVariant::Error,
                        3000,
                    ),
                ]
            },
            Some(c) => {
                &&& fx@.len() == 0
                &&& *final(state) == (AppState {
                    ui: UiState {
                        config_editor_state: final(state).ui.config_editor_state,
                        mode: AppMode::ConfigEditor,
                        ..old(state).ui
                    },
                    render_dirty: true,
                    ..*old(state)
                })
                &&& ({
                    let ed = final(state).ui.config_editor_state;
                    &&& ed is Some
                    &&& ed->0.page() == (page::Page {
                        lines: text::pieces(c@, text::Cut::At('\n')),
                        row: 0,
                        col: 0,
                    })
                    &&& ed->0.scroll_offset == 0
                    &&& !ed->0.has_unsaved_changes
                    &&& ed->0.validation_error is None
                    &&& ed->0.config_path@ == path@
                })
            },
        },
{
    match content {
        None => {
            let message = text::join2("Cannot open config file: ", path);
            Effects::say(message.as_str(), NotificationVariant::Error, 3000)
        },
        Some(c) => {
            state.ui.config_editor_state = Some(ConfigEditorState::from_content(path, c.as_str()));
            state.ui.mode = AppMode::ConfigEditor;
            state.mark_render_dirty();
            Effects::new()
        },
    }
}

proof fn lemma_join_push(lines: Seq<Seq<char>>, c: char, sep: char)
    requires
        lines.len() > 0,
    ensures
        c == sep && sep == '\n' ==> page::joined(lines.push(Seq::empty())) == page::joined(
            lines,
        ).push(c),
        page::joined(lines.drop_last().push(lines.last().push(c))) == page::joined(lines).push(c),
{
    let more = lines.push(Seq::<char>::empty());
    assert(more.drop_last() =~= lines);
    assert(page::joined(more) =~= page::joined(lines) + seq!['\n']) by {
        assert(page::joined(more) == page::joined(lines) + seq!['\n'] + Seq::<char>::empty());
    }
    let grown = lines.drop_last().push(lines.last().push(c));
    assert(grown.drop_last() =~= lines.drop_last());
    if lines.len() == 1 {
        assert(page::joined(grown) == lines[0].push(c));
    } else {
        assert(page::joined(grown) =~= page::joined(lines).push(c));
    }
    assert(page::joined(lines) + seq!['\n'] =~= page::joined(lines).push('\n'));
}

/// A text that is cut into lines at its line feeds and joined again is the
/// same text: what the editor opens is what it would save.
pub proof fn law_lines_join_back(s: Seq<char>)
    ensures
        page::joined(text::pieces(s, text::Cut::At('\n'))) == s,
    decreases s.len(),
{
    let cut = text::Cut::At('\n');
    if s.len() == 0 {
        assert(page::joined(text::pieces(s, cut)) =~= s);
    } else {
        let front = s.drop_last();
        law_lines_join_back(front);
        text::lemma_pieces_len(front, cut);
        lemma_join_push(text::pieces(front, cut), s.last(), '\n');
        assert(front.push(s.last()) =~= s);
    }
}

/// In the diff review the keys for down and up move by one: in the list of files
/// from file to file, in the diff from line to line, within what there is. The
/// keys for left and right change to the list and to the diff; beyond that, and
/// with the brackets, they go to the file before or behind, around the ends. Tab
/// changes between the two. No key changes the files.
pub proof fn law_review_keys_move(r: DiffReviewState, code: KeyCode)
    requires
        r.selected_file_index < r.files@.len() <= usize::MAX,
        r.scroll_offset <= diff_view::last_index(
            r.files@[r.selected_file_index as int].lines@.len(),
        ) <= usize::MAX,
    ensures
        ({
            let s = review_key(r, code);
            let at = r.selected_file_index as int;
            let n = r.files@.len();
            let lines = r.files@[at].lines@.len();
            let down = code == KeyCode::Down || code == KeyCode::Char('j');
            let up = code == KeyCode::Up || code == KeyCode::Char('k');
            let right = code == KeyCode::Right || code == KeyCode::Char('l');
            let left = code == KeyCode::Left || code == KeyCode::Char('h');
            let list = r.files_list_focused;
            let behind = s.selected_file_index == (if at + 1 < n {
                at + 1
            } else {
                0
            }) && s.scroll_offset == 0;
            let before = s.selected_file_index == (if at > 0 {
                at - 1
            } else {
                n - 1
            }) && s.scroll_offset == 0;
            &&& s.files == r.files && s.error == r.error && s.task_number == r.task_number
            &&& down && list ==> s.selected_file_index == if at + 1 < n {
                at + 1
            } else {
                at
            }
            &&& up && list ==> s.selected_file_index == if at > 0 {
                at - 1
            } else {
                at
            }
            &&& (down || up) && !list ==> s.selected_file_index == at
            &&& down && !list ==> s.scroll_offset == if r.scroll_offset + 1 < lines {
                r.scroll_offset + 1
            } else {
                r.scroll_offset as int
            }
            &&& up && !list ==> s.scroll_offset == if r.scroll_offset > 0 {
                r.scroll_offset - 1
            } else {
                0
            }
            &&& right && list ==> !s.files_list_focused && s.selected_file_index == at
            &&& right && !list ==> behind && !s.files_list_focused
            &&& left && !list ==> s.files_list_focused && s.selected_file_index == at
            &&& left && list ==> before && s.files_list_focused
            &&& code == KeyCode::Char(']') ==> behind
            &&& code == KeyCode::Char('[') || code == KeyCode::Backspace ==> before
            &&& code == KeyCode::Tab ==> s.files_list_focused == !list && s.selected_file_index
                == at && s.scroll_offset == r.scroll_offset
        }),
{
    let n = r.files@.len();
    if r.selected_file_index + 1 < n {
        vstd::arithmetic::div_mod::lemma_small_mod((r.selected_file_index + 1) as nat, n);
    } else {
        vstd::arithmetic::div_mod::lemma_mod_self_0(n as int);
    }
}

/// Escape and `q` close the diff review, and no other key does; a review opened
/// from the detail view returns to it.
pub proof fn law_review_is_left_by_escape(before: AppState, key: KeyEvent)
    requires
        before.ui.mode == AppMode::DiffReview,
        before.ui.diff_review is Some,
    ensures
        ({
            let after = review_handled(before, key);
            let leaves = key.code == KeyCode::Esc || key.code == KeyCode::Char('q');
            &&& leaves <==> after.ui.mode == AppMode::Normal
            &&& leaves <==> after.ui.diff_review is None
            &&& leaves && before.ui.diff_review_source == Some(FocusedPanel::TaskDetail)
                ==> after.ui.focused_panel == FocusedPanel::TaskDetail
            &&& before.ui.diff_review_source != Some(FocusedPanel::TaskDetail)
                ==> after.ui.focused_panel == before.ui.focused_panel
        }),
{
}

/// In the archive the keys for down and up select the task below and above,
/// within the list; Enter opens the selected task and `u` takes it out of the
/// archive, and no other key does either; Escape and `q` leave.
pub proof fn law_archive_keys(
    before: AppState,
    key: KeyEvent,
    archived: Seq<String>,
    after: AppState,
    fx: Seq<Effect<Seq<char>>>,
    at: usize,
)
    requires
        archive_key(before, key, archived, after, fx),
        before.ui.mode == AppMode::Archive,
        before.ui.archive_state == Some(ArchiveState { selected_index: at }),
        at < archived.len() <= usize::MAX,
    ensures
        ({
            let plain = key.modifiers == crate::keys::KeyModifiers::none();
            let down = plain && (key.code == KeyCode::Down || key.code == KeyCode::Char('j'));
            let up = plain && (key.code == KeyCode::Up || key.code == KeyCode::Char('k'));
            let leaves = key.code == KeyCode::Esc || (plain && key.code == KeyCode::Char('q'));
            let opens = plain && key.code == KeyCode::Enter;
            let takes_out = plain && key.code == KeyCode::Char('u');
            &&& down ==> after.ui.archive_state is Some && after.ui.archive_state->0.selected_index
                == if at + 1 < archived.len() {
                at + 1
            } else {
                at as int
            }
            &&& up ==> after.ui.archive_state is Some && after.ui.archive_state->0.selected_index
                == if at > 0 {
                at - 1
            } else {
                0
            }
            &&& leaves <==> after.ui.mode == AppMode::Normal
            &&& opens ==> fx.contains(Effect::OpenTaskDetail { task_id: archived[at as int]@ })
            &&& takes_out ==> fx.contains(Effect::UnarchiveTask { task_id: archived[at as int]@ })
            &&& forall|i: int|
                0 <= i < fx.len() && (#[trigger] fx[i]) is OpenTaskDetail ==> opens
            &&& forall|i: int|
                0 <= i < fx.len() && (#[trigger] fx[i]) is UnarchiveTask ==> takes_out
        }),
{
    if key.modifiers == crate::keys::KeyModifiers::none() {
        if key.code == KeyCode::Enter {
            assert(fx[0] == (Effect::OpenTaskDetail { task_id: archived[at as int]@ }));
        }
        if key.code == KeyCode::Char('u') {
            assert(fx[0] == (Effect::UnarchiveTask { task_id: archived[at as int]@ }));
        }
    }
}

/// While a deletion waits for confirmation, `y` and Enter delete the task that
/// was asked about; `n`, `q` and Escape take the question back without deleting;
/// any other key leaves it open.
pub proof fn law_confirmation_keys(
    before: AppState,
    key: KeyEvent,
    after: AppState,
    fx: Seq<Effect<Seq<char>>>,
    id: String,
)
    requires
        confirm_key(before, key, after, fx),
        before.ui.mode == AppMode::ConfirmDelete,
        before.ui.pending_delete_task_id == Some(id),
    ensures
        ({
            let yes = key.code == KeyCode::Char('y') || key.code == KeyCode::Enter;
            let no = key.code == KeyCode::Char('n') || key.code == KeyCode::Char('q') || key.code
                == KeyCode::Esc;
            &&& yes ==> fx == seq![Effect::DeleteTask { task_id: id@ }]
            &&& !yes ==> fx.len() == 0
            &&& yes || no <==> after.ui.mode == AppMode::Normal
            &&& yes || no <==> after.ui.pending_delete_task_id is None
            &&& after.tasks == before.tasks
        }),
{
}

/// The configuration is saved by Control with `s` and by nothing else, with the
/// lines in the editor joined by line feeds; Escape leaves the editor without
/// saving, and nothing else leaves it.
pub proof fn law_config_is_saved_by_control_s(
    before: AppState,
    key: KeyEvent,
    after: AppState,
    fx: Seq<Effect<Seq<char>>>,
)
    requires
        config_key(before, key, after, fx),
        before.ui.mode == AppMode::ConfigEditor,
        before.ui.config_editor_state is Some,
    ensures
        ({
            let saves = key.modifiers.control && key.code == KeyCode::Char('s');
            let lines = before.ui.config_editor_state->0.page().lines;
            &&& saves <==> fx.len() > 0
            &&& saves ==> fx == seq![Effect::SaveConfig { content: page::joined(lines) }]
            &&& saves ==> after == before
            &&& key.code == KeyCode::Esc <==> after.ui.mode == AppMode::Normal
            &&& key.code == KeyCode::Esc <==> after.ui.config_editor_state is None
        }),
{
}

/// Paging in the configuration editor moves the view ten lines: down not beyond
/// the last line, up not before the first; the text stays as it is, and a page up
/// leads back where a page down did not meet the end.
pub proof fn law_config_pages(a: ConfigEditorState)
    requires
        a.cursor_row < a.lines@.len() <= usize::MAX,
        a.scroll_offset <= a.cursor_row,
    ensures
        ({
            let last = a.lines@.len() - 1;
            let d = paged_down(a);
            let u = paged_up(a);
            &&& d.lines == a.lines && u.lines == a.lines
            &&& a.scroll_offset + 10 <= last ==> d.scroll_offset == a.scroll_offset + 10
                && paged_up(d).scroll_offset == a.scroll_offset
            &&& a.cursor_row + 10 <= last ==> d.cursor_row == a.cursor_row + 10
            &&& d.scroll_offset <= d.cursor_row <= last
            &&& a.scroll_offset >= 10 ==> u.scroll_offset == a.scroll_offset - 10
            &&& u.cursor_row <= u.scroll_offset && u.cursor_row <= a.cursor_row
            &&& u.scroll_offset <= a.scroll_offset <= d.scroll_offset
        }),
{
}

/// Keys that edit the configuration do what they say to the text: a character is
/// typed, Enter breaks the line, Tab types two blanks, Backspace and Delete erase
/// before and behind the cursor, and the arrow keys only move it.
pub proof fn law_config_keys_edit(a: ConfigEditorState, key: KeyEvent, b: ConfigEditorState)
    requires
        config_edited(a, key, b),
    ensures
        key.code matches KeyCode::Char(c) && !key.is_command() ==> b.page() == a.page().typed(
            key.code->Char_0,
        ) && b.has_unsaved_changes,
        key.code is Char && key.is_command() ==> b == a,
        key.code == KeyCode::Enter ==> b.page() == a.page().broken() && b.has_unsaved_changes,
        key.code == KeyCode::Tab ==> b.page() == a.page().typed(' ').typed(' '),
        key.code == KeyCode::Backspace ==> b.page() == a.page().erased_back(),
        key.code == KeyCode::Delete ==> b.page() == a.page().erased_forward(),
        key.code == KeyCode::Up ==> b.page() == a.page().moved(page::CursorDirection::Up),
        key.code == KeyCode::Down ==> b.page() == a.page().moved(page::CursorDirection::Down),
        key.code == KeyCode::Left ==> b.page() == a.page().moved(page::CursorDirection::Left),
        key.code == KeyCode::Right ==> b.page() == a.page().moved(page::CursorDirection::Right),
        key.code == KeyCode::Home ==> b.page() == a.page().moved(page::CursorDirection::Home),
        key.code == KeyCode::End ==> b.page() == a.page().moved(page::CursorDirection::End),
{
}

/// A change of the configuration in the editor is marked as unsaved, and the mark
/// stays while it is edited on; moving about sets no mark.
pub proof fn law_config_changes_are_marked(
    a: ConfigEditorState,
    key: KeyEvent,
    b: ConfigEditorState,
)
    requires
        a.page().wf(),
        config_edited(a, key, b),
    ensures
        b.page().lines != a.page().lines ==> b.has_unsaved_changes,
        a.has_unsaved_changes ==> b.has_unsaved_changes,
        editor_handler::direction_of(key.code) is Some ==> b.has_unsaved_changes
            == a.has_unsaved_changes,
        b.config_path == a.config_path,
{
    page::law_erasing_changes_what_is_there(a.page());
    page::law_settling_settles(a.page());
    if editor_handler::direction_of(key.code) is Some {
        page::law_moving_changes_no_text(a.page(), editor_handler::direction_of(key.code)->0);
    }
}

/// An error of the configuration is shown in the editor, which keeps its text.
pub proof fn law_config_errors_are_shown(before: AppState, error: Seq<char>, after: AppState)
    requires
        error_shown(before, error, after),
        before.ui.config_editor_state is Some,
    ensures
        after.ui.config_editor_state is Some,
        state::opt_view(after.ui.config_editor_state->0.validation_error) == Some(error),
        after.ui.config_editor_state->0.page() == before.ui.config_editor_state->0.page(),
        after.ui.config_editor_state->0.has_unsaved_changes
            == before.ui.config_editor_state->0.has_unsaved_changes,
        after.ui.mode == before.ui.mode,
        after.render_dirty,
{
}

} // verus!
