//! Task editor, project rename and single-line prompts.

use vstd::prelude::*;
use crate::editor_handler;
use crate::editor_handler::EditorAction;
use crate::effects;
use crate::effects::{Effect, Effects};
use crate::keys::{KeyCode, KeyEvent};
use crate::page;
use crate::state;
use crate::state::{AppMode, AppState, Clients, CortexTask, NotificationVariant, UiState};
use crate::text;

verus! {

/// Which input prompt is active.
#[derive(Clone, Copy, Debug, PartialEq, Eq, Structural)]
pub enum InputPrompt {
    RenameProject,
    WorkingDirectory,
    NewProjectDirectory,
    AddDependency,
}

// ─── Task editor ──────────────────────────────────────────────────────────

/// What a key press in task editor mode does: it edits, and saving or
/// cancelling is asked for where the editor says so.
pub open spec fn editor_key(
    before: AppState,
    key: KeyEvent,
    after: AppState,
    fx: Seq<Effect<Seq<char>>>,
) -> bool {
    match before.ui.task_editor {
        None => after == before && fx.len() == 0,
        Some(a) => {
            &&& after.ui.task_editor is Some
            &&& editor_handler::edited(a, key, after.ui.task_editor->0)
            &&& after == (AppState {
                ui: UiState { task_editor: after.ui.task_editor, ..before.ui },
                ..before
            })
            &&& fx == match editor_handler::action_of(a, key) {
                EditorAction::Save => seq![Effect::<Seq<char>>::SaveTaskEditor],
                EditorAction::Cancel => seq![Effect::<Seq<char>>::CancelTaskEditor],
                EditorAction::Stay => seq![],
            }
        },
    }
}

/// Handle key events in task editor mode.
pub fn handle_editor_key(state: &mut AppState, key: KeyEvent) -> (fx: Effects)
    ensures
        editor_key(*old(state), key, *final(state), fx@),
{
    let action = match &mut state.ui.task_editor {
        Some(editor) => editor_handler::handle_editor_input(editor, key),
        None => EditorAction::Stay,
    };
    match action {
        EditorAction::Save => Effects::one(Effect::SaveTaskEditor),
        EditorAction::Cancel => Effects::one(Effect::CancelTaskEditor),
        EditorAction::Stay => Effects::new(),
    }
}

/// The column chosen in the task editor.
pub open spec fn chosen_column(state: AppState) -> Option<String> {
    match state.ui.task_editor {
        Some(ed) => ed.column_id,
        None => None,
    }
}

/// What follows the saving of a task: the editor is closed, the task is
/// focused and highlighted, its column is focused when it is visible, and the
/// agent of the column is dispatched.
pub open spec fn saved(state: AppState, visible: Seq<String>, task_id: Seq<char>) -> Seq<
    Effect<Seq<char>>,
> {
    let focused = seq![
        Effect::CancelTaskEditor,
        effects::notice("Task saved: "@ + task_id, NotificationVariant::Success, 3000),
        Effect::FocusTask { task_id },
        Effect::HighlightTask { task_id, duration_ms: 3000 },
    ];
    match chosen_column(state) {
        None => focused,
        Some(col) => {
            let shown = match text::place(text::texts(visible), col@) {
                Some(i) => focused.push(
                    Effect::FocusColumn { column_id: col@, index: i as usize },
                ),
                None => focused,
            };
            shown.push(Effect::DispatchAgent { task_id, column: col@ })
        },
    }
}

/// Goes on after the task in the editor was saved.
pub fn task_saved(state: &AppState, visible: &Vec<String>, task_id: &str) -> (fx: Effects)
    ensures
        fx@ == saved(*state, visible@, task_id@),
{
    let mut fx = Effects::one(Effect::CancelTaskEditor);
    let message = text::join2("Task saved: ", task_id);
    fx.notify(message.as_str(), NotificationVariant::Success, 3000);
    fx.push(Effect::FocusTask { task_id: task_id.to_owned() });
    fx.push(Effect::HighlightTask { task_id: task_id.to_owned(), duration_ms: 3000 });
    proof {
        assert(fx@ =~= seq![
            Effect::CancelTaskEditor,
            effects::notice("Task saved: "@ + task_id@, NotificationVariant::Success, 3000),
            Effect::FocusTask { task_id: task_id@ },
            Effect::HighlightTask { task_id: task_id@, duration_ms: 3000 },
        ]);
    }
    if let Some(ed) = &state.ui.task_editor {
        if let Some(col) = &ed.column_id {
            if let Some(i) = text::position(visible, col.as_str()) {
                fx.push(Effect::FocusColumn { column_id: col.clone(), index: i });
            }
            fx.push(Effect::DispatchAgent { task_id: task_id.to_owned(), column: col.clone() });
        }
    }
    fx
}

/// Reports that the task in the editor could not be saved, unless the editor
/// shows an error itself.
pub fn task_save_failed(state: &AppState, error: &str) -> (fx: Effects)
    ensures
        fx@ == if state.ui.task_editor is Some && state.ui.task_editor->0.validation_error is Some {
            seq![]
        } else {
            seq![
                effects::notice("Save failed: "@ + error@, NotificationVariant::Error, 3000),
            ]
        },
{
    if let Some(ed) = &state.ui.task_editor {
        if ed.validation_error.is_some() {
            return Effects::new();
        }
    }
    let message = text::join2("Save failed: ", error);
    Effects::say(message.as_str(), NotificationVariant::Error, 3000)
}

// ─── Single-line prompts ──────────────────────────────────────────────────

/// The prompt that a prompt context stands for.
pub open spec fn prompt_of(context: Option<String>) -> Option<InputPrompt> {
    match context {
        None => None,
        Some(c) => if c@ == "new_project_directory"@ {
            Some(InputPrompt::NewProjectDirectory)
        } else if c@ == "add_dependency"@ {
            Some(InputPrompt::AddDependency)
        } else {
            Some(InputPrompt::WorkingDirectory)
        },
    }
}

fn active_prompt(context: &Option<String>) -> (r: Option<InputPrompt>)
    ensures
        r == prompt_of(*context),
{
    match context {
        None => None,
        Some(c) => if text::same(c.as_str(), "new_project_directory") {
            Some(InputPrompt::NewProjectDirectory)
        } else if text::same(c.as_str(), "add_dependency") {
            Some(InputPrompt::AddDependency)
        } else {
            Some(InputPrompt::WorkingDirectory)
        },
    }
}

/// Handle key events in project rename mode.
pub fn handle_rename_key(state: &mut AppState, key: KeyEvent) -> (fx: Effects)
    ensures
        prompt_key(*old(state), key, InputPrompt::RenameProject, *final(state), fx@),
{
    handle_text_input(state, key, InputPrompt::RenameProject)
}

/// Handle key events in input prompt mode.
pub fn handle_input_prompt_key(state: &mut AppState, key: KeyEvent) -> (fx: Effects)
    ensures
        match prompt_of(old(state).ui.prompt_context) {
            Some(prompt) => prompt_key(*old(state), key, prompt, *final(state), fx@),
            None => *final(state) == *old(state) && fx@.len() == 0,
        },
{
    match active_prompt(&state.ui.prompt_context) {
        Some(prompt) => handle_text_input(state, key, prompt),
        None => Effects::new(),
    }
}

/// Whether a task belongs to the active project and has the number that
/// `input` spells.
pub open spec fn task_numbered(state: AppState, t: CortexTask, input: Seq<char>) -> bool {
    let project = match state.project_registry.active_project_id {
        Some(id) => id@,
        None => Seq::empty(),
    };
    t.project_id@ == project && text::decimal(t.number as nat) == input
}

/// The first task of the active project, from `from` on, with the number that
/// `input` spells.
pub open spec fn task_by_number(state: AppState, input: Seq<char>, from: int) -> Option<int>
    decreases state.tasks.entries@.len() - from,
{
    if from < 0 || from >= state.tasks.entries@.len() {
        None
    } else if task_numbered(state, state.tasks.entries@[from].1, input) {
        Some(from)
    } else {
        task_by_number(state, input, from + 1)
    }
}

fn find_task_by_number(state: &AppState, input: &str) -> (r: Option<usize>)
    ensures
        match r {
            Some(i) => i < state.tasks.entries@.len() && task_by_number(*state, input@, 0) == Some(
                i as int,
            ),
            None => task_by_number(*state, input@, 0) is None,
        },
{
    let project: String = match &state.project_registry.active_project_id {
        Some(id) => id.clone(),
        None => String::new(),
    };
    let mut i: usize = 0;
    while i < state.tasks.entries.len()
        invariant
            i <= state.tasks.entries@.len(),
            project@ == match state.project_registry.active_project_id {
                Some(id) => id@,
                None => Seq::empty(),
            },
            task_by_number(*state, input@, i as int) == task_by_number(*state, input@, 0),
        decreases state.tasks.entries@.len() - i,
    {
        let t = &state.tasks.entries[i].1;
        if text::same(t.project_id.as_str(), project.as_str()) && text::same(
            text::dec(t.number as u64).as_str(),
            input,
        ) {
            return Some(i);
        }
        i += 1;
    }
    None
}

/// What entering the number of a task to depend on asks for.
pub open spec fn dependency_entered(state: AppState) -> Seq<Effect<Seq<char>>> {
    let input = text::trimmed(state.ui.input_text@);
    if input.len() == 0 {
        seq![
            effects::notice("Task number cannot be empty"@, NotificationVariant::Warning, 2000),
        ]
    } else {
        match state.ui.focused_task_id {
            None => seq![],
            Some(id) => match task_by_number(state, input, 0) {
                Some(i) => seq![
                    Effect::AddDependency {
                        task_id: id@,
                        dependency_id: state.tasks.entries@[i].1.id@,
                    },
                ],
                None => seq![
                    effects::notice(
                        "Task #"@ + input + " not found in current project"@,
                        NotificationVariant::Warning,
                        3000,
                    ),
                ],
            },
        }
    }
}

fn enter_dependency(state: &AppState) -> (fx: Effects)
    ensures
        fx@ == dependency_entered(*state),
{
    let input = text::trim(state.ui.input_text.as_str());
    if input.as_str().unicode_len() == 0 {
        return Effects::say("Task number cannot be empty", NotificationVariant::Warning, 2000);
    }
    match &state.ui.focused_task_id {
        None => Effects::new(),
        Some(id) => match find_task_by_number(state, input.as_str()) {
            Some(i) => Effects::one(
                Effect::AddDependency {
                    task_id: id.clone(),
                    dependency_id: state.tasks.entries[i].1.id.clone(),
                },
            ),
            None => {
                let mut message = text::join2("Task #", input.as_str());
                message.append(" not found in current project");
                Effects::say(message.as_str(), NotificationVariant::Warning, 3000)
            },
        },
    }
}

/// A line of text with a cursor: the contents and the place of the cursor
/// after a key press. Keys that do not edit change nothing.
pub open spec fn line_edited(text: Seq<char>, cursor: int, code: KeyCode) -> (Seq<char>, int) {
    match code {
        KeyCode::Char(c) => {
            let at = page::least(cursor, text.len() as int);
            (text.insert(at, c), at + 1)
        },
        KeyCode::Backspace => if cursor > 0 {
            (
                if cursor - 1 < text.len() {
                    text.remove(cursor - 1)
                } else {
                    text
                },
                cursor - 1,
            )
        } else {
            (text, cursor)
        },
        KeyCode::Delete => (
            if cursor < text.len() {
                text.remove(cursor)
            } else {
                text
            },
            cursor,
        ),
        KeyCode::Left => (
            text,
            if cursor > 0 {
                cursor - 1
            } else {
                0
            },
        ),
        KeyCode::Right => (text, page::least(cursor + 1, text.len() as int)),
        KeyCode::Home => (text, 0),
        KeyCode::End => (text, text.len() as int),
        _ => (text, cursor),
    }
}

/// What a key press in a prompt does: Enter submits, Escape cancels, any other
/// key edits the line.
pub open spec fn prompt_key(
    before: AppState,
    key: KeyEvent,
    prompt: InputPrompt,
    after: AppState,
    fx: Seq<Effect<Seq<char>>>,
) -> bool {
    match key.code {
        KeyCode::Enter => {
            &&& after == before
            &&& fx == match prompt {
                InputPrompt::RenameProject => seq![Effect::<Seq<char>>::SubmitProjectRename],
                InputPrompt::WorkingDirectory => seq![
                    Effect::<Seq<char>>::SubmitWorkingDirectory,
                ],
                InputPrompt::NewProjectDirectory => seq![
                    Effect::<Seq<char>>::SubmitNewProjectDirectory,
                ],
                InputPrompt::AddDependency => dependency_entered(before),
            }
        },
        KeyCode::Esc => match prompt {
            InputPrompt::RenameProject => after == before && fx == seq![
                Effect::<Seq<char>>::CancelProjectRename,
            ],
            InputPrompt::WorkingDirectory => after == before && fx == seq![
                Effect::<Seq<char>>::CancelWorkingDirectory,
            ],
            InputPrompt::NewProjectDirectory => after == before && fx == seq![
                Effect::<Seq<char>>::CancelNewProjectDirectory,
            ],
            InputPrompt::AddDependency => {
                &&& fx.len() == 0
                &&& after == (AppState {
                    ui: UiState { mode: AppMode::Normal, prompt_context: None, ..before.ui },
                    ..before
                })
            },
        },
        _ => {
            let (line, cursor) = line_edited(
                before.ui.input_text@,
                before.ui.input_cursor as int,
                key.code,
            );
            &&& fx.len() == 0
            &&& after == (AppState {
                ui: UiState {
                    input_text: after.ui.input_text,
                    input_cursor: after.ui.input_cursor,
                    ..before.ui
                },
                ..before
            })
            &&& after.ui.input_text@ == line
            &&& after.ui.input_cursor == cursor
        },
    }
}

/// Shared key handler for single-line input prompts.
///
/// Handles character insertion, backspace, delete, cursor movement,
/// Home/End, Enter (submit), and Escape (cancel).
pub fn handle_text_input(state: &mut AppState, key: KeyEvent, prompt: InputPrompt) -> (fx: Effects)
    ensures
        prompt_key(*old(state), key, prompt, *final(state), fx@),
{
    match key.code {
        KeyCode::Enter => {
            return match prompt {
                InputPrompt::RenameProject => Effects::one(Effect::SubmitProjectRename),
                InputPrompt::WorkingDirectory => Effects::one(Effect::SubmitWorkingDirectory),
                InputPrompt::NewProjectDirectory => Effects::one(
                    Effect::SubmitNewProjectDirectory,
                ),
                InputPrompt::AddDependency => enter_dependency(state),
            };
        },
        KeyCode::Esc => {
            match prompt {
                InputPrompt::RenameProject => {
                    return Effects::one(Effect::CancelProjectRename);
                },
                InputPrompt::WorkingDirectory => {
                    return Effects::one(Effect::CancelWorkingDirectory);
                },
                InputPrompt::NewProjectDirectory => {
                    return Effects::one(Effect::CancelNewProjectDirectory);
                },
                InputPrompt::AddDependency => {
                    state.ui.mode = AppMode::Normal;
                    state.ui.prompt_context = None;
                },
            }
        },
        KeyCode::Char(c) => {
            let mut cs = text::chars_of(state.ui.input_text.as_str());
            let at: usize = if state.ui.input_cursor < cs.len() {
                state.ui.input_cursor
            } else {
                cs.len()
            };
            cs.insert(at, c);
            let line = text::string_of(&cs, 0, cs.len());
            proof {
                assert(line@ =~= state.ui.input_text@.insert(at as int, c));
                assert(at + 1 <= cs.len());
            }
            state.ui.input_text = line;
            state.ui.input_cursor = at + 1;
        },
        KeyCode::Backspace => {
            if state.ui.input_cursor > 0 {
                let at: usize = state.ui.input_cursor - 1;
                let mut cs = text::chars_of(state.ui.input_text.as_str());
                if at < cs.len() {
                    let _gone = cs.remove(at);
                    let line = text::string_of(&cs, 0, cs.len());
                    proof {
                        assert(line@ =~= state.ui.input_text@.remove(at as int));
                    }
                    state.ui.input_text = line;
                }
                state.ui.input_cursor = at;
            }
        },
        KeyCode::Delete => {
            let at: usize = state.ui.input_cursor;
            let mut cs = text::chars_of(state.ui.input_text.as_str());
            if at < cs.len() {
                let _gone = cs.remove(at);
                let line = text::string_of(&cs, 0, cs.len());
                proof {
                    assert(line@ =~= state.ui.input_text@.remove(at as int));
                }
                state.ui.input_text = line;
            }
        },
        KeyCode::Left => {
            if state.ui.input_cursor > 0 {
                state.ui.input_cursor = state.ui.input_cursor - 1;
            }
        },
        KeyCode::Right => {
            let n: usize = state.ui.input_text.as_str().unicode_len();
            state.ui.input_cursor = if state.ui.input_cursor < n {
                state.ui.input_cursor + 1
            } else {
                n
            };
        },
        KeyCode::Home => {
            state.ui.input_cursor = 0;
        },
        KeyCode::End => {
            state.ui.input_cursor = state.ui.input_text.as_str().unicode_len();
        },
        _ => {},
    }
    Effects::new()
}

/// Editing keeps the cursor within the line.
pub proof fn law_line_cursor_stays_inside(text: Seq<char>, cursor: int, code: KeyCode)
    requires
        0 <= cursor <= text.len(),
    ensures
        ({
            let (line, at) = line_edited(text, cursor, code);
            0 <= at <= line.len()
        }),
{
}

/// Backspace undoes a typed character.
pub proof fn law_line_backspace_undoes_typing(text: Seq<char>, cursor: int, c: char)
    requires
        0 <= cursor <= text.len(),
    ensures
        ({
            let (line, at) = line_edited(text, cursor, KeyCode::Char(c));
            line_edited(line, at, KeyCode::Backspace) == (text, cursor)
        }),
{
    let (line, at) = line_edited(text, cursor, KeyCode::Char(c));
    assert(line.remove(at - 1) =~= text);
}

// ─── What follows a submission ────────────────────────────────────────────

/// Reports the renaming of the project; `name` is the new name, `None` when it
/// was empty.
pub fn project_renamed(name: Option<String>) -> (fx: Effects)
    ensures
        fx@ == match name {
            Some(n) => seq![
                effects::notice(
                    "Project renamed to \""@ + n@ + "\""@,
                    NotificationVariant::Success,
                    3000,
                ),
            ],
            None => seq![
                effects::notice(
                    "Project name cannot be empty"@,
                    NotificationVariant::Warning,
                    2000,
                ),
            ],
        },
{
    match name {
        Some(n) => {
            let mut message = text::join2("Project renamed to \"", n.as_str());
            message.append("\"");
            Effects::say(message.as_str(), NotificationVariant::Success, 3000)
        },
        None => Effects::say("Project name cannot be empty", NotificationVariant::Warning, 2000),
    }
}

/// Reports the setting of the working directory: done, empty, or refused.
pub fn working_directory_set(outcome: Result<bool, String>) -> (fx: Effects)
    ensures
        fx@ == match outcome {
            Ok(true) => seq![
                effects::notice(
                    "Working directory updated"@,
                    NotificationVariant::Success,
                    3000,
                ),
            ],
            Ok(false) => seq![
                effects::notice(
                    "Working directory cannot be empty"@,
                    NotificationVariant::Warning,
                    2000,
                ),
            ],
            Err(e) => seq![effects::notice(e@, NotificationVariant::Error, 3000)],
        },
{
    match outcome {
        Ok(true) => Effects::say(
            "Working directory updated",
            NotificationVariant::Success,
            3000,
        ),
        Ok(false) => Effects::say(
            "Working directory cannot be empty",
            NotificationVariant::Warning,
            2000,
        ),
        Err(e) => Effects::say(e.as_str(), NotificationVariant::Error, 3000),
    }
}

/// What follows the creation of a project: it shares a connection, if there is
/// one to share, and a message is shown.
pub open spec fn created(
    state: AppState,
    clients: Clients,
    outcome: Result<String, String>,
) -> Seq<Effect<Seq<char>>> {
    match outcome {
        Ok(name) => {
            let said = effects::notice(
                "Created project \""@ + name@ + "\""@,
                NotificationVariant::Success,
                3000,
            );
            match state.project_registry.active_project_id {
                Some(id) if clients.projects@.len() > 0 => seq![
                    Effect::ShareClient { project_id: id@ },
                    Effect::SetProjectConnected { project_id: id@ },
                    said,
                ],
                _ => seq![said],
            }
        },
        Err(e) => seq![effects::notice(e@, NotificationVariant::Error, 3000)],
    }
}

/// Goes on after a project was created, or was not.
pub fn project_created(
    state: &AppState,
    clients: &Clients,
    outcome: Result<String, String>,
) -> (fx: Effects)
    ensures
        fx@ == created(*state, *clients, outcome),
{
    let mut fx = Effects::new();
    match outcome {
        Ok(name) => {
            if clients.projects.len() > 0 {
                if let Some(id) = &state.project_registry.active_project_id {
                    fx.push(Effect::ShareClient { project_id: id.clone() });
                    fx.push(Effect::SetProjectConnected { project_id: id.clone() });
                }
            }
            let mut message = text::join2("Created project \"", name.as_str());
            message.append("\"");
            fx.notify(message.as_str(), NotificationVariant::Success, 3000);
        },
        Err(e) => {
            fx.notify(e.as_str(), NotificationVariant::Error, 3000);
        },
    }
    proof {
        assert(fx@ =~= created(*state, *clients, outcome));
    }
    fx
}

/// Reports the adding of a dependency.
pub fn dependency_added(outcome: Result<(), String>) -> (fx: Effects)
    ensures
        fx@ == match outcome {
            Ok(_) => seq![
                effects::notice("Dependency added"@, NotificationVariant::Success, 3000),
            ],
            Err(e) => seq![effects::notice(e@, NotificationVariant::Warning, 3000)],
        },
{
    match outcome {
        Ok(_) => Effects::say("Dependency added", NotificationVariant::Success, 3000),
        Err(e) => Effects::say(e.as_str(), NotificationVariant::Warning, 3000),
    }
}

// ─── Dependencies ─────────────────────────────────────────────────────────

/// What asking for a dependency does: with a task focused, its number is
/// prompted for.
pub open spec fn dependency_asked(
    before: AppState,
    after: AppState,
    fx: Seq<Effect<Seq<char>>>,
) -> bool {
    if before.ui.focused_task_id is Some {
        &&& fx.len() == 0
        &&& after == (AppState {
            ui: UiState {
                input_text: after.ui.input_text,
                input_cursor: 0,
                prompt_label: after.ui.prompt_label,
                prompt_context: after.ui.prompt_context,
                mode: AppMode::InputPrompt,
                ..before.ui
            },
            render_dirty: true,
            ..before
        })
        &&& after.ui.input_text@.len() == 0
        &&& after.ui.prompt_label@ == "Depends on task #: "@
        &&& state::opt_view(after.ui.prompt_context) == Some("add_dependency"@)
    } else {
        &&& after == before
        &&& fx == seq![effects::notice("No task selected"@, NotificationVariant::Info, 2000)]
    }
}

/// Handle add-dependency keybinding.
/// Enters input prompt mode asking for a task number to depend on.
pub fn handle_add_dependency(state: &mut AppState) -> (fx: Effects)
    ensures
        dependency_asked(*old(state), *final(state), fx@),
{
    if state.ui.focused_task_id.is_some() {
        state.ui.input_text = String::new();
        state.ui.input_cursor = 0;
        state.ui.prompt_label = "Depends on task #: ".to_owned();
        state.ui.prompt_context = Some("add_dependency".to_owned());
        state.ui.mode = AppMode::InputPrompt;
        state.mark_render_dirty();
        Effects::new()
    } else {
        Effects::say("No task selected", NotificationVariant::Info, 2000)
    }
}

/// What removing a dependency does: the last one of the focused task goes.
pub open spec fn dependency_dropped(
    before: AppState,
    after: AppState,
    fx: Seq<Effect<Seq<char>>>,
) -> bool {
    match before.ui.focused_task_id {
        None => {
            &&& after == before
            &&& fx == seq![effects::notice("No task selected"@, NotificationVariant::Info, 2000)]
        },
        Some(id) => if before.tasks@.contains_key(id@)
            && before.tasks@[id@].blocked_by@.len() > 0 {
            &&& after == (AppState { render_dirty: true, ..before })
            &&& fx =~= seq![
                Effect::RemoveDependency {
                    task_id: id@,
                    dependency_id: before.tasks@[id@].blocked_by@.last()@,
                },
                effects::notice(
                    "Removed dependency on task (by ID)"@,
                    NotificationVariant::Info,
                    3000,
                ),
            ]
        } else {
            &&& after == before
            &&& fx == seq![
                effects::notice("No dependencies to remove"@, NotificationVariant::Info, 2000),
            ]
        },
    }
}

/// Handle remove-dependency keybinding.
/// If the focused task has dependencies, removes the last one added.
pub fn handle_remove_dependency(state: &mut AppState) -> (fx: Effects)
    ensures
        dependency_dropped(*old(state), *final(state), fx@),
{
    let id = match &state.ui.focused_task_id {
        Some(id) => id.clone(),
        None => {
            return Effects::say("No task selected", NotificationVariant::Info, 2000);
        },
    };
    let last: Option<String> = match state.tasks.get(id.as_str()) {
        Some(t) => {
            let n: usize = t.blocked_by.len();
            if n > 0 {
                Some(t.blocked_by[n - 1].clone())
            } else {
                None
            }
        },
        None => None,
    };
    match last {
        Some(dependency_id) => {
            let mut fx = Effects::one(Effect::RemoveDependency { task_id: id, dependency_id });
            fx.notify("Removed dependency on task (by ID)", NotificationVariant::Info, 3000);
            state.mark_render_dirty();
            fx
        },
        None => Effects::say("No dependencies to remove", NotificationVariant::Info, 2000),
    }
}

/// The line of a prompt is edited at its cursor: a character goes in there,
/// Delete takes out the one behind it and Backspace the one before; the arrow
/// keys, Home and End move the cursor and leave the text alone.
pub proof fn law_line_is_edited_at_the_cursor(text: Seq<char>, cursor: int, c: char)
    requires
        0 <= cursor <= text.len(),
    ensures
        line_edited(text, cursor, KeyCode::Char(c)) == (
            text.take(cursor) + seq![c] + text.skip(cursor),
            cursor + 1,
        ),
        cursor < text.len() ==> line_edited(text, cursor, KeyCode::Delete) == (
            text.take(cursor) + text.skip(cursor + 1),
            cursor,
        ),
        cursor == text.len() ==> line_edited(text, cursor, KeyCode::Delete) == (text, cursor),
        cursor > 0 ==> line_edited(text, cursor, KeyCode::Backspace) == (
            text.take(cursor - 1) + text.skip(cursor),
            cursor - 1,
        ),
        cursor == 0 ==> line_edited(text, cursor, KeyCode::Backspace) == (text, cursor),
        line_edited(text, cursor, KeyCode::Left) == (
            text,
            if cursor > 0 {
                cursor - 1
            } else {
                0
            },
        ),
        line_edited(text, cursor, KeyCode::Right) == (
            text,
            if cursor < text.len() {
                cursor + 1
            } else {
                cursor
            },
        ),
        line_edited(text, cursor, KeyCode::Home) == (text, 0int),
        line_edited(text, cursor, KeyCode::End) == (text, text.len() as int),
{
    assert(text.insert(cursor, c) =~= text.take(cursor) + seq![c] + text.skip(cursor));
    if cursor < text.len() {
        assert(text.remove(cursor) =~= text.take(cursor) + text.skip(cursor + 1));
    }
    if cursor > 0 {
        assert(text.remove(cursor - 1) =~= text.take(cursor - 1) + text.skip(cursor));
    }
}

/// In a prompt Enter submits, Escape gives up, and no other key does either; and
/// what is submitted or given up is what the prompt is for.
pub proof fn law_prompts_submit_and_cancel(
    before: AppState,
    key: KeyEvent,
    prompt: InputPrompt,
    after: AppState,
    fx: Seq<Effect<Seq<char>>>,
)
    requires
        prompt_key(before, key, prompt, after, fx),
    ensures
        ({
            let enter = key.code == KeyCode::Enter;
            let esc = key.code == KeyCode::Esc;
            let one = |e: Effect<Seq<char>>| fx == seq![e];
            &&& fx.len() > 0 ==> enter || esc
            &&& enter ==> after == before
            &&& one(Effect::SubmitProjectRename) <==> enter && prompt is RenameProject
            &&& one(Effect::SubmitWorkingDirectory) <==> enter && prompt is WorkingDirectory
            &&& one(Effect::SubmitNewProjectDirectory) <==> enter && prompt is NewProjectDirectory
            &&& one(Effect::CancelProjectRename) <==> esc && prompt is RenameProject
            &&& one(Effect::CancelWorkingDirectory) <==> esc && prompt is WorkingDirectory
            &&& one(Effect::CancelNewProjectDirectory) <==> esc && prompt is NewProjectDirectory
            &&& esc && prompt is AddDependency ==> after.ui.mode == AppMode::Normal && fx.len()
                == 0
            &&& forall|i: int|
                0 <= i < fx.len() && (#[trigger] fx[i]) is AddDependency ==> enter && prompt
                    is AddDependency
        }),
{
    if fx.len() > 0 {
        assert(fx[0] == fx.first());
    }
    assert(seq![Effect::<Seq<char>>::SubmitProjectRename][0] is SubmitProjectRename);
    assert(seq![Effect::<Seq<char>>::SubmitWorkingDirectory][0] is SubmitWorkingDirectory);
    assert(seq![Effect::<Seq<char>>::SubmitNewProjectDirectory][0] is SubmitNewProjectDirectory);
    assert(seq![Effect::<Seq<char>>::CancelProjectRename][0] is CancelProjectRename);
    assert(seq![Effect::<Seq<char>>::CancelWorkingDirectory][0] is CancelWorkingDirectory);
    assert(seq![Effect::<Seq<char>>::CancelNewProjectDirectory][0] is CancelNewProjectDirectory);
}

proof fn lemma_task_by_number(state: AppState, input: Seq<char>, from: int)
    requires
        0 <= from,
    ensures
        match task_by_number(state, input, from) {
            Some(k) => from <= k < state.tasks.entries@.len() && task_numbered(
                state,
                state.tasks.entries@[k].1,
                input,
            ),
            None => forall|k: int|
                from <= k < state.tasks.entries@.len() ==> !task_numbered(
                    state,
                    (#[trigger] state.tasks.entries@[k]).1,
                    input,
                ),
        },
    decreases state.tasks.entries@.len() - from,
{
    if from < state.tasks.entries@.len() {
        lemma_task_by_number(state, input, from + 1);
    }
}

/// A dependency goes from the focused task to a task of the active project that
/// has the number entered; where no task of it has that number, none is added.
pub proof fn law_dependency_is_the_task_of_that_number(state: AppState)
    requires
        state.project_registry.active_project_id is Some,
        state.ui.focused_task_id is Some,
        text::trimmed(state.ui.input_text@).len() > 0,
    ensures
        ({
            let fx = dependency_entered(state);
            let input = text::trimmed(state.ui.input_text@);
            let active = state.project_registry.active_project_id->0@;
            let all = state.tasks.entries@;
            &&& forall|i: int|
                0 <= i < fx.len() && (#[trigger] fx[i]) is AddDependency ==> fx[i]->AddDependency_task_id
                    == state.ui.focused_task_id->0@ && exists|k: int|
                    0 <= k < all.len() && (#[trigger] all[k]).1.project_id@ == active
                        && text::decimal(all[k].1.number as nat) == input && all[k].1.id@
                        == fx[i]->AddDependency_dependency_id
            &&& (exists|k: int|
                0 <= k < all.len() && (#[trigger] all[k]).1.project_id@ == active && text::decimal(
                    all[k].1.number as nat,
                ) == input) <==> exists|i: int|
                0 <= i < fx.len() && (#[trigger] fx[i]) is AddDependency
        }),
{
    let fx = dependency_entered(state);
    let input = text::trimmed(state.ui.input_text@);
    let all = state.tasks.entries@;
    lemma_task_by_number(state, input, 0);
    match task_by_number(state, input, 0) {
        Some(k) => {
            assert(all[k].1.project_id@ == state.project_registry.active_project_id->0@);
            assert(fx[0] is AddDependency);
        },
        None => {
            assert forall|k: int| 0 <= k < all.len() implies !((#[trigger] all[k]).1.project_id@
                == state.project_registry.active_project_id->0@ && text::decimal(
                all[k].1.number as nat,
            ) == input) by {
                assert(!task_numbered(state, all[k].1, input));
            }
        },
    }
}

/// A saved task is focused and highlighted, with the editor closed; with a column
/// chosen its agent is asked for there, and the column is focused at its place
/// among the visible ones just when it is one of them.
pub proof fn law_saved_task_is_focused(state: AppState, visible: Seq<String>, task_id: Seq<char>)
    requires
        visible.len() <= usize::MAX,
    ensures
        ({
            let fx = saved(state, visible, task_id);
            let column = chosen_column(state);
            &&& fx.contains(Effect::FocusTask { task_id })
            &&& fx.contains(Effect::<Seq<char>>::CancelTaskEditor)
            &&& column is Some <==> exists|i: int|
                0 <= i < fx.len() && (#[trigger] fx[i]) is DispatchAgent
            &&& column is Some ==> fx.contains(
                Effect::DispatchAgent { task_id, column: column->0@ },
            )
            &&& column is Some && text::place(text::texts(visible), column->0@) is Some
                ==> fx.contains(
                Effect::FocusColumn {
                    column_id: column->0@,
                    index: text::place(text::texts(visible), column->0@)->0 as usize,
                },
            )
        }),
{
    let fx = saved(state, visible, task_id);
    assert(fx[0] == Effect::<Seq<char>>::CancelTaskEditor);
    assert(fx[2] == Effect::FocusTask { task_id });
    if chosen_column(state) is Some {
        let column = chosen_column(state)->0@;
        assert(fx.last() == Effect::DispatchAgent { task_id, column });
        assert(fx[fx.len() - 1] is DispatchAgent);
        if text::place(text::texts(visible), column) is Some {
            assert(fx[4] is FocusColumn);
            assert(fx.contains(fx[4]));
        }
    }
}

/// A project that was created shares a connection where there is one, and is then
/// marked as connected; one that could not be created is reported as an error.
pub proof fn law_created_projects_share_a_connection(
    state: AppState,
    clients: Clients,
    outcome: Result<String, String>,
)
    requires
        state.project_registry.active_project_id is Some,
    ensures
        ({
            let fx = created(state, clients, outcome);
            let id = state.project_registry.active_project_id->0@;
            let shares = outcome is Ok && clients.projects@.len() > 0;
            &&& shares <==> fx.contains(Effect::ShareClient { project_id: id })
            &&& shares <==> fx.contains(Effect::SetProjectConnected { project_id: id })
            &&& outcome is Err ==> fx.len() == 1 && (fx[0] matches Effect::Notify {
                message,
                variant,
                ..
            } && variant is Error && message == outcome->Err_0@)
            &&& outcome is Ok ==> (fx.last() matches Effect::Notify { variant, .. } && variant
                is Success)
        }),
{
    let fx = created(state, clients, outcome);
    let id = state.project_registry.active_project_id->0@;
    if fx.len() == 3 {
        assert(fx[0] == Effect::ShareClient { project_id: id });
        assert(fx[1] == Effect::SetProjectConnected { project_id: id });
    }
}

/// In the task editor the keys that save and that cancel ask for that, and any
/// other key asks for nothing.
pub proof fn law_editor_keys_ask_for_what_they_say(
    before: AppState,
    key: KeyEvent,
    after: AppState,
    fx: Seq<Effect<Seq<char>>>,
    ed: crate::editor::TaskEditorState,
)
    requires
        editor_key(before, key, after, fx),
        before.ui.task_editor == Some(ed),
    ensures
        ({
            let saves = key.modifiers.control && (key.code == KeyCode::Char('s') || key.code
                == KeyCode::Enter);
            let cancels = !saves && key.code == KeyCode::Esc && (!ed.has_unsaved_changes
                || ed.discard_warning_shown);
            &&& saves ==> fx == seq![Effect::<Seq<char>>::SaveTaskEditor]
            &&& cancels ==> fx == seq![Effect::<Seq<char>>::CancelTaskEditor]
            &&& !saves && !cancels ==> fx.len() == 0
        }),
{
}

/// Asking for a dependency prompts for the number of a task, on an empty line;
/// asking to remove one removes the one that was added last.
pub proof fn law_dependencies_are_asked_for(
    before: AppState,
    after: AppState,
    fx: Seq<Effect<Seq<char>>>,
    id: String,
)
    requires
        before.ui.focused_task_id == Some(id),
    ensures
        dependency_asked(before, after, fx) ==> after.ui.mode == AppMode::InputPrompt && fx.len()
            == 0 && after.ui.input_text@.len() == 0 && after.ui.input_cursor == 0 && prompt_of(
            after.ui.prompt_context,
        ) == Some(InputPrompt::AddDependency),
        dependency_dropped(before, after, fx) && before.tasks@.contains_key(id@)
            && before.tasks@[id@].blocked_by@.len() > 0 ==> fx.contains(
            Effect::RemoveDependency {
                task_id: id@,
                dependency_id: before.tasks@[id@].blocked_by@[before.tasks@[id@].blocked_by@.len()
                    - 1]@,
            },
        ),
        dependency_dropped(before, after, fx) && !(before.tasks@.contains_key(id@)
            && before.tasks@[id@].blocked_by@.len() > 0) ==> fx.len() == 1 && fx[0] is Notify,
{
    reveal_strlit("new_project_directory");
    reveal_strlit("add_dependency");
    assert("new_project_directory"@.len() != "add_dependency"@.len());
    if dependency_dropped(before, after, fx) && before.tasks@.contains_key(id@)
        && before.tasks@[id@].blocked_by@.len() > 0 {
        assert(fx[0] is RemoveDependency);
        assert(fx.contains(fx[0]));
    }
}

/// Every prompt is known by its context: two have one of their own, and any other
/// asks for the working directory.
pub proof fn law_prompts_are_known_by_context(context: String)
    ensures
        prompt_of(Some(context)) == Some(InputPrompt::NewProjectDirectory) <==> context@
            == "new_project_directory"@,
        prompt_of(Some(context)) == Some(InputPrompt::AddDependency) <==> context@
            == "add_dependency"@,
        prompt_of(Some(context)) == Some(InputPrompt::WorkingDirectory) <==> context@
            != "new_project_directory"@ && context@ != "add_dependency"@,
        prompt_of(None) is None,
{
    reveal_strlit("new_project_directory");
    reveal_strlit("add_dependency");
    assert("new_project_directory"@.len() != "add_dependency"@.len());
}

} // verus!
