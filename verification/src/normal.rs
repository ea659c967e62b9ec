//! Normal mode key handler: layered interception of key events.
//!
//! Key interception order (first match wins):
//! 1. Detail editor inline editing (when editor is focused)
//! 2. Tab to focus editor (when detail view is open but editor not focused)
//! 3. Changed-files sidebar focus
//! 4. Permission modal key interception
//! 5. Task detail view: Escape, scroll, y/n for permissions, digit keys for questions
//! 6. Ctrl+R (circuit breaker reset)
//! 7. Configurable keybinding dispatch

use vstd::prelude::*;
use crate::config::{BoardSize, ColumnsConfig};
use crate::editor;
use crate::editor::TaskEditorState;
use crate::editor_handler;
use crate::effects;
use crate::effects::{Effect, Effects};
use crate::keys;
use crate::keys::{Action, EditorKeyAction, EditorKeyMatcher, KeyCode, KeyEvent, KeyMatcher, KeyModifiers};
use crate::modes;
use crate::mouse;
use crate::page;
use crate::permission;
use crate::projects;
use crate::prompts;
use crate::reports;
use crate::review;
use crate::state;
use crate::state::{
    AgentStatus, AppMode, AppState, ArchiveState, Clients, CortexTask, FocusedPanel,
    NotificationVariant, ReviewStatus, SessionTracker, TaskDetailSession, UiState,
};
use crate::subagent;
use crate::table;
use crate::tasks;
use crate::text;

verus! {

/// What the key handlers know besides the state: the keybindings, the columns
/// and sizes of the board, and the connections.
#[derive(Debug)]
pub struct Desk {
    pub key_matcher: KeyMatcher,
    pub editor_key_matcher: EditorKeyMatcher,
    pub columns: ColumnsConfig,
    pub board: BoardSize,
    pub clients: Clients,
}

/// The layer of normal mode that takes a key.
#[derive(Clone, Copy, Debug, PartialEq, Eq, Structural)]
pub enum Layer {
    DetailEditor,
    FocusCycle,
    ChangedFiles,
    Modal,
    Back,
    Scroll,
    Permission,
    Question,
    Breaker,
    Binding,
}

/// Whether the detail view has the focus.
pub open spec fn in_detail(state: AppState) -> bool {
    state.ui.focused_panel == FocusedPanel::TaskDetail
}

/// Whether the prompt input of the detail view has the focus.
pub open spec fn input_focused(state: AppState) -> bool {
    in_detail(state) && match state.ui.detail_editor {
        Some(ed) => ed.is_focused,
        None => false,
    }
}

/// Whether no modifier is held.
pub open spec fn unmodified(key: KeyEvent) -> bool {
    key.modifiers == KeyModifiers::none()
}

/// Whether the key scrolls the output of the detail view.
pub open spec fn scrolls(key: KeyEvent) -> bool {
    match key.code {
        KeyCode::Up | KeyCode::Down | KeyCode::Char('j') | KeyCode::Char('k') | KeyCode::Char('g')
        => unmodified(key),
        KeyCode::Char('G') => unmodified(key) || key.modifiers == KeyModifiers::shift(),
        _ => false,
    }
}

/// The place of the answer that a digit key stands for.
pub open spec fn answer_index(key: KeyEvent) -> Option<int> {
    match key.code {
        KeyCode::Char(c) => if '1' <= c <= '9' {
            Some(c as int - '1' as int)
        } else {
            None
        },
        _ => None,
    }
}

/// Whether the key answers the first question of the session in view.
pub open spec fn answers(state: AppState, key: KeyEvent) -> bool {
    in_detail(state) && state.ui.viewing_task_id is Some && match (
        answer_index(key),
        permission::effective(state),
    ) {
        (Some(i), Some(s)) => s.pending_questions@.len() > 0 && i
            < s.pending_questions@[0].answers@.len(),
        _ => false,
    }
}

/// Whether a digit key is held back because the task in view has questions.
pub open spec fn held_back(state: AppState, key: KeyEvent) -> bool {
    in_detail(state) && answer_index(key) is Some && match state.ui.viewing_task_id {
        Some(id) => match table::lookup(state.session_tracker.task_sessions@, id@) {
            Some(s) => s.pending_questions@.len() > 0,
            None => false,
        },
        None => false,
    }
}

/// The layer that takes a key in normal mode: the first one that matches.
pub open spec fn layer_of(state: AppState, key: KeyEvent) -> Layer {
    if input_focused(state) {
        Layer::DetailEditor
    } else if in_detail(state) && state.drilldown() is None && state.ui.detail_editor is Some
        && key.code == KeyCode::Tab && unmodified(key) {
        Layer::FocusCycle
    } else if in_detail(state) && state.ui.changed_files_focused {
        Layer::ChangedFiles
    } else if state.ui.permission_modal_active {
        Layer::Modal
    } else if in_detail(state) && key.code == KeyCode::Esc {
        Layer::Back
    } else if in_detail(state) && scrolls(key) {
        Layer::Scroll
    } else if in_detail(state) && (key.code == KeyCode::Char('y') || key.code == KeyCode::Char(
        'n',
    )) {
        Layer::Permission
    } else if answers(state, key) || held_back(state, key) {
        Layer::Question
    } else if key.code == KeyCode::Char('r') && key.modifiers == KeyModifiers::control() {
        Layer::Breaker
    } else {
        Layer::Binding
    }
}

fn is_unmodified(key: KeyEvent) -> (r: bool)
    ensures
        r == unmodified(key),
{
    key.modifiers == KeyModifiers::none()
}

fn digit_of(key: KeyEvent) -> (r: Option<usize>)
    ensures
        match r {
            Some(i) => answer_index(key) == Some(i as int),
            None => answer_index(key) is None,
        },
{
    match key.code {
        KeyCode::Char(c) => if '1' <= c && c <= '9' {
            Some((c as u32 - '1' as u32) as usize)
        } else {
            None
        },
        _ => None,
    }
}

fn can_answer(state: &AppState, key: KeyEvent) -> (r: bool)
    ensures
        r == answers(*state, key),
{
    if state.ui.focused_panel != FocusedPanel::TaskDetail || state.ui.viewing_task_id.is_none() {
        return false;
    }
    match (digit_of(key), permission::get_effective_session(state)) {
        (Some(i), Some(s)) => s.pending_questions.len() > 0 && i
            < s.pending_questions[0].answers.len(),
        _ => false,
    }
}

fn is_held_back(state: &AppState, key: KeyEvent) -> (r: bool)
    ensures
        r == held_back(*state, key),
{
    if state.ui.focused_panel != FocusedPanel::TaskDetail || digit_of(key).is_none() {
        return false;
    }
    match &state.ui.viewing_task_id {
        Some(id) => match state.session_tracker.task_sessions.get(id.as_str()) {
            Some(s) => s.pending_questions.len() > 0,
            None => false,
        },
        None => false,
    }
}

fn is_scroll_key(key: KeyEvent) -> (r: bool)
    ensures
        r == scrolls(key),
{
    match key.code {
        KeyCode::Up | KeyCode::Down | KeyCode::Char('j') | KeyCode::Char('k') | KeyCode::Char('g')
        => is_unmodified(key),
        KeyCode::Char('G') => is_unmodified(key) || key.modifiers == KeyModifiers::shift(),
        _ => false,
    }
}

/// The layer that takes a key in normal mode.
pub fn find_layer(state: &AppState, key: KeyEvent) -> (r: Layer)
    ensures
        r == layer_of(*state, key),
{
    let detail = state.ui.focused_panel == FocusedPanel::TaskDetail;
    let focused = match &state.ui.detail_editor {
        Some(ed) => ed.is_focused,
        None => false,
    };
    if detail && focused {
        Layer::DetailEditor
    } else if detail && !state.is_drilled_into_subagent() && state.ui.detail_editor.is_some()
        && key.code == KeyCode::Tab && is_unmodified(key) {
        Layer::FocusCycle
    } else if detail && state.ui.changed_files_focused {
        Layer::ChangedFiles
    } else if state.ui.permission_modal_active {
        Layer::Modal
    } else if detail && key.code == KeyCode::Esc {
        Layer::Back
    } else if detail && is_scroll_key(key) {
        Layer::Scroll
    } else if detail && (key.code == KeyCode::Char('y') || key.code == KeyCode::Char('n')) {
        Layer::Permission
    } else if can_answer(state, key) || is_held_back(state, key) {
        Layer::Question
    } else if key.code == KeyCode::Char('r') && key.modifiers == KeyModifiers::control() {
        Layer::Breaker
    } else {
        Layer::Binding
    }
}

// ─── Prompt input ─────────────────────────────────────────────────────────

/// The state with the prompt input `ed` in place of its own, and a new frame
/// asked for.
pub open spec fn with_input(before: AppState, ed: TaskEditorState) -> AppState {
    AppState {
        ui: UiState { detail_editor: Some(ed), ..before.ui },
        render_dirty: true,
        ..before
    }
}

/// A prompt input that was emptied and has lost the focus.
pub open spec fn cleared(a: TaskEditorState, b: TaskEditorState) -> bool {
    &&& b.page() == (page::Page { lines: seq![Seq::<char>::empty()], row: 0, col: 0 })
    &&& b == (TaskEditorState {
        desc_lines: b.desc_lines,
        cursor_row: 0,
        cursor_col: 0,
        has_unsaved_changes: false,
        is_focused: false,
        ..a
    })
}

/// The text in the prompt input, without white space around it.
pub open spec fn prompt_text(state: AppState) -> Seq<char> {
    match state.ui.detail_editor {
        Some(ed) => text::trimmed(page::joined(ed.page().lines)),
        None => Seq::empty(),
    }
}

/// The state after a prompt was taken: the input is cleared and a new frame
/// asked for; tasks and sessions may differ.
pub open spec fn prompt_taken(before: AppState, after: AppState) -> bool {
    &&& after.ui.detail_editor is Some
    &&& cleared(before.ui.detail_editor->0, after.ui.detail_editor->0)
    &&& after == (AppState {
        tasks: after.tasks,
        session_tracker: after.session_tracker,
        ..with_input(before, after.ui.detail_editor->0)
    })
}

/// What submitting the prompt does. An empty prompt is not submitted. While
/// the agent is busy the prompt waits with the task; at rest it is sent to the
/// task's session; without a session, or when the agent has failed or hangs,
/// a warning is shown.
pub open spec fn submitted(
    before: AppState,
    clients: Clients,
    after: AppState,
    fx: Seq<Effect<Seq<char>>>,
) -> bool {
    let prompt = prompt_text(before);
    if prompt.len() == 0 || before.ui.viewing_task_id is None {
        after == before && fx.len() == 0
    } else {
        let id = before.ui.viewing_task_id->0@;
        let task = tasks::task_of(before, id);
        let status = match task {
            Some(t) => t.agent_status,
            None => AgentStatus::Pending,
        };
        match status {
            AgentStatus::Running | AgentStatus::Pending => {
                &&& prompt_taken(before, after)
                &&& after.session_tracker == before.session_tracker
                &&& match task {
                    Some(t) => {
                        &&& after.tasks@.contains_key(id)
                        &&& after.tasks@ == before.tasks@.insert(
                            id,
                            CortexTask { queued_prompt: after.tasks@[id].queued_prompt, ..t },
                        )
                        &&& state::opt_view(after.tasks@[id].queued_prompt) == Some(prompt)
                    },
                    None => after.tasks == before.tasks,
                }
                &&& fx == seq![
                    effects::notice(
                        "Prompt queued — will be sent after current prompt completes"@,
                        NotificationVariant::Info,
                        3000,
                    ),
                ]
            },
            AgentStatus::Ready | AgentStatus::Complete | AgentStatus::Question => match task->0.session_id {
                Some(sid) => {
                    let marked = seq![
                        Effect::SetAgentStatus { task_id: id, status: AgentStatus::Running },
                        effects::notice("Sending prompt..."@, NotificationVariant::Info, 2000),
                    ];
                    &&& prompt_taken(before, after)
                    &&& after.tasks == before.tasks
                    &&& session_prompted(
                        before.session_tracker,
                        sid@,
                        prompt,
                        after.session_tracker,
                    )
                    &&& fx =~= if clients.serves(task->0.project_id@) {
                        marked.push(
                            Effect::SendPrompt {
                                project_id: task->0.project_id@,
                                session_id: sid@,
                                prompt,
                                agent: state::opt_view(task->0.agent_type),
                            },
                        )
                    } else {
                        marked
                    }
                },
                None => permission::says(
                    before,
                    after,
                    fx,
                    "No active session — cannot send prompt"@,
                    NotificationVariant::Warning,
                    3000,
                ),
            },
            AgentStatus::Error => permission::says(
                before,
                after,
                fx,
                "Cannot send prompt to errored agent"@,
                NotificationVariant::Warning,
                3000,
            ),
            AgentStatus::Hung => permission::says(
                before,
                after,
                fx,
                "Agent appears hung — try aborting first (ctrl+a)"@,
                NotificationVariant::Warning,
                5000,
            ),
        }
    }
}

/// The sessions with `prompt` as the active one of session `sid`, where that
/// is known.
pub open spec fn session_prompted(
    before: SessionTracker,
    sid: Seq<char>,
    prompt: Seq<char>,
    after: SessionTracker,
) -> bool {
    &&& after == (SessionTracker { task_sessions: after.task_sessions, ..before })
    &&& match table::lookup(before.task_sessions@, sid) {
        Some(s) => {
            let now = after.task_sessions@[sid];
            &&& after.task_sessions@ == before.task_sessions@.insert(
                sid,
                TaskDetailSession {
                    active_prompt: now.active_prompt,
                    render_version: subagent::next_version(s.render_version),
                    ..s
                },
            )
            &&& state::opt_view(now.active_prompt) == Some(prompt)
        },
        None => after.task_sessions@ == before.task_sessions@,
    }
}

fn clear_input(state: &mut AppState)
    requires
        old(state).ui.detail_editor is Some,
    ensures
        final(state).ui.detail_editor is Some,
        cleared(old(state).ui.detail_editor->0, final(state).ui.detail_editor->0),
        *final(state) == with_input(*old(state), final(state).ui.detail_editor->0),
{
    match &mut state.ui.detail_editor {
        Some(ed) => {
            ed.clear_prompt();
        },
        None => {},
    }
    state.mark_render_dirty();
}

/// Submits the prompt in the input of the detail view.
pub fn submit_prompt(state: &mut AppState, clients: &Clients) -> (fx: Effects)
    requires
        old(state).ui.detail_editor is Some,
    ensures
        submitted(*old(state), *clients, *final(state), fx@),
{
    let prompt = match &state.ui.detail_editor {
        Some(ed) => text::trim(ed.description().as_str()),
        None => String::new(),
    };
    if prompt.as_str().unicode_len() == 0 {
        return Effects::new();
    }
    let id = match &state.ui.viewing_task_id {
        Some(id) => id.clone(),
        None => {
            return Effects::new();
        },
    };
    let (status, session_id, agent, project_id): (
        AgentStatus,
        Option<String>,
        Option<String>,
        String,
    ) = match state.tasks.get(id.as_str()) {
        Some(t) => (
            t.agent_status,
            state::clone_opt(&t.session_id),
            state::clone_opt(&t.agent_type),
            t.project_id.clone(),
        ),
        None => (AgentStatus::Pending, None, None, String::new()),
    };
    match status {
        AgentStatus::Running | AgentStatus::Pending => {
            match state.tasks.get_mut(id.as_str()) {
                Some(t) => {
                    t.queued_prompt = Some(prompt);
                },
                None => {},
            }
            clear_input(state);
            Effects::say(
                "Prompt queued — will be sent after current prompt completes",
                NotificationVariant::Info,
                3000,
            )
        },
        AgentStatus::Ready | AgentStatus::Complete | AgentStatus::Question => {
            match session_id {
                Some(sid) => {
                    match state.session_tracker.task_sessions.get_mut(sid.as_str()) {
                        Some(s) => {
                            s.active_prompt = Some(prompt.clone());
                            s.render_version = s.render_version.wrapping_add(1);
                        },
                        None => {},
                    }
                    clear_input(state);
                    let mut fx = Effects::one(
                        Effect::SetAgentStatus { task_id: id, status: AgentStatus::Running },
                    );
                    fx.notify("Sending prompt...", NotificationVariant::Info, 2000);
                    if clients.has(project_id.as_str()) {
                        fx.push(
                            Effect::SendPrompt { project_id, session_id: sid, prompt, agent },
                        );
                    }
                    fx
                },
                None => {
                    state.mark_render_dirty();
                    Effects::say(
                        "No active session — cannot send prompt",
                        NotificationVariant::Warning,
                        3000,
                    )
                },
            }
        },
        AgentStatus::Error => {
            state.mark_render_dirty();
            Effects::say(
                "Cannot send prompt to errored agent",
                NotificationVariant::Warning,
                3000,
            )
        },
        AgentStatus::Hung => {
            state.mark_render_dirty();
            Effects::say(
                "Agent appears hung — try aborting first (ctrl+a)",
                NotificationVariant::Warning,
                5000,
            )
        },
    }
}

/// The model that a prompt is sent to: that of the agent, with the provider
/// before it unless it names one itself; without one of its own, the default.
pub open spec fn model_for(
    agent_model: Option<Seq<char>>,
    provider: Option<Seq<char>>,
    default_model: Seq<char>,
) -> Seq<char> {
    let p = match provider {
        Some(p) => p,
        None => "z.ai"@,
    };
    match agent_model {
        Some(m) => if text::holds(m, "/"@) {
            m
        } else {
            p + "/"@ + m
        },
        None => p + "/"@ + default_model,
    }
}

/// The model that a prompt is sent to.
pub fn prompt_model(
    agent_model: &Option<String>,
    provider: &Option<String>,
    default_model: &str,
) -> (r: String)
    ensures
        r@ == model_for(state::opt_view(*agent_model), state::opt_view(*provider), default_model@),
{
    let p: String = match provider {
        Some(p) => p.clone(),
        None => "z.ai".to_owned(),
    };
    let name: &str = match agent_model {
        Some(m) => {
            if text::contains(m.as_str(), "/") {
                return m.clone();
            }
            m.as_str()
        },
        None => default_model,
    };
    let mut out = p;
    out.append("/");
    out.append(name);
    out
}

/// Reports that a prompt could not be sent.
pub fn prompt_failed(state: &mut AppState, error: &str) -> (fx: Effects)
    ensures
        permission::says(
            *old(state),
            *final(state),
            fx@,
            "Failed to send prompt: "@ + error@,
            NotificationVariant::Error,
            5000,
        ),
{
    state.mark_render_dirty();
    let message = text::join2("Failed to send prompt: ", error);
    Effects::say(message.as_str(), NotificationVariant::Error, 5000)
}

/// What an editing key turns the prompt input `a` into: `b`. Cursor keys and
/// deletion work without modifiers, characters without Control and Alt.
pub open spec fn input_edited(a: TaskEditorState, key: KeyEvent, b: TaskEditorState) -> bool {
    match key.code {
        KeyCode::PageUp => b == (TaskEditorState {
            scroll_offset: if a.scroll_offset >= 5 {
                (a.scroll_offset - 5) as usize
            } else {
                0
            },
            ..a
        }),
        KeyCode::PageDown => b == (TaskEditorState {
            scroll_offset: a.paged_down() as usize,
            ..a
        }),
        KeyCode::Backspace => {
            &&& b.page() == a.page().erased_back()
            &&& b.has_unsaved_changes == (a.has_unsaved_changes || a.page().has_before())
            &&& b.discard_warning_shown == (a.discard_warning_shown && !a.page().has_before())
            &&& editor::same_but_text(a, b)
        },
        KeyCode::Delete => {
            &&& b.page() == a.page().erased_forward()
            &&& b.has_unsaved_changes == (a.has_unsaved_changes || a.page().has_behind())
            &&& b.discard_warning_shown == (a.discard_warning_shown && !a.page().has_behind())
            &&& editor::same_but_text(a, b)
        },
        KeyCode::Char(ch) => {
            &&& b.page() == a.page().typed(ch)
            &&& b.has_unsaved_changes && !b.discard_warning_shown
            &&& editor::same_but_text(a, b)
        },
        _ => match editor_handler::direction_of(key.code) {
            Some(direction) => {
                &&& b.page() == a.page().moved(direction)
                &&& b.has_unsaved_changes == a.has_unsaved_changes
                &&& b.discard_warning_shown == a.discard_warning_shown
                &&& editor::same_but_text(a, b)
            },
            None => b == a,
        },
    }
}

/// Whether a key edits the prompt input or moves in it.
pub open spec fn edits_input(key: KeyEvent) -> bool {
    match key.code {
        KeyCode::Char(_) => !key.is_command(),
        KeyCode::PageUp | KeyCode::PageDown | KeyCode::Backspace | KeyCode::Delete => unmodified(
            key,
        ),
        _ => unmodified(key) && editor_handler::direction_of(key.code) is Some,
    }
}

/// What a key does while the prompt input has the focus. `action` is the
/// editing action that the key is bound to.
pub open spec fn input_key(
    before: AppState,
    key: KeyEvent,
    action: Option<EditorKeyAction>,
    clients: Clients,
    after: AppState,
    fx: Seq<Effect<Seq<char>>>,
) -> bool {
    let ed = before.ui.detail_editor->0;
    match action {
        Some(EditorKeyAction::Save) | Some(EditorKeyAction::Cancel) => {
            &&& fx.len() == 0
            &&& after == with_input(before, TaskEditorState { is_focused: false, ..ed })
        },
        Some(EditorKeyAction::CycleField) => {
            &&& fx.len() == 0
            &&& after == with_input(
                before,
                TaskEditorState { discard_warning_shown: false, is_focused: false, ..ed },
            )
        },
        Some(EditorKeyAction::Submit) => after == before && fx.len() == 0,
        Some(EditorKeyAction::Newline) => if key.is_command() {
            after == before && fx.len() == 0
        } else {
            submitted(before, clients, after, fx)
        },
        None => {
            &&& fx.len() == 0
            &&& if edits_input(key) {
                &&& after.ui.detail_editor is Some
                &&& input_edited(ed, key, after.ui.detail_editor->0)
                &&& after == with_input(before, after.ui.detail_editor->0)
            } else {
                after == before
            }
        },
    }
}

fn edit_input(ed: &mut TaskEditorState, key: KeyEvent)
    ensures
        input_edited(*old(ed), key, *final(ed)),
{
    match key.code {
        KeyCode::PageUp => {
            ed.page_up();
        },
        KeyCode::PageDown => {
            ed.page_down();
        },
        KeyCode::Backspace => {
            ed.delete_char_back();
        },
        KeyCode::Delete => {
            ed.delete_char_forward();
        },
        KeyCode::Char(ch) => {
            ed.insert_char(ch);
        },
        code => {
            if let Some(direction) = editor_handler::cursor_direction(code) {
                ed.move_cursor(direction);
            }
        },
    }
}

fn is_input_key(key: KeyEvent) -> (r: bool)
    ensures
        r == edits_input(key),
{
    match key.code {
        KeyCode::Char(_) => !(key.modifiers.control || key.modifiers.alt),
        KeyCode::PageUp | KeyCode::PageDown | KeyCode::Backspace | KeyCode::Delete =>
            is_unmodified(key),
        code => is_unmodified(key) && editor_handler::cursor_direction(code).is_some(),
    }
}

/// Handles a key while the prompt input of the detail view has the focus.
pub fn handle_input_key(
    state: &mut AppState,
    key: KeyEvent,
    action: Option<EditorKeyAction>,
    clients: &Clients,
) -> (fx: Effects)
    requires
        old(state).ui.detail_editor is Some,
    ensures
        input_key(*old(state), key, action, *clients, *final(state), fx@),
{
    match action {
        Some(EditorKeyAction::Save) | Some(EditorKeyAction::Cancel) => {
            match &mut state.ui.detail_editor {
                Some(ed) => {
                    ed.is_focused = false;
                },
                None => {},
            }
            state.mark_render_dirty();
            Effects::new()
        },
        Some(EditorKeyAction::CycleField) => {
            match &mut state.ui.detail_editor {
                Some(ed) => {
                    ed.discard_warning_shown = false;
                    ed.is_focused = false;
                },
                None => {},
            }
            state.mark_render_dirty();
            Effects::new()
        },
        Some(EditorKeyAction::Submit) => Effects::new(),
        Some(EditorKeyAction::Newline) => {
            if key.modifiers.control || key.modifiers.alt {
                return Effects::new();
            }
            submit_prompt(state, clients)
        },
        None => {
            if is_input_key(key) {
                match &mut state.ui.detail_editor {
                    Some(ed) => {
                        edit_input(ed, key);
                    },
                    None => {},
                }
                state.mark_render_dirty();
            }
            Effects::new()
        },
    }
}

// ─── Focus in the detail view ─────────────────────────────────────────────

/// Whether there are changed files to focus.
pub open spec fn has_changed_files(state: AppState) -> bool {
    match state.ui.changed_files {
        Some(files) => files@.len() > 0,
        None => false,
    }
}

/// The focus on the prompt input.
pub open spec fn input_focus(before: AppState) -> AppState {
    AppState {
        ui: UiState {
            changed_files_focused: false,
            detail_editor: match before.ui.detail_editor {
                Some(ed) => Some(TaskEditorState { is_focused: true, ..ed }),
                None => None,
            },
            ..before.ui
        },
        render_dirty: true,
        ..before
    }
}

/// What Tab does in the detail view: the focus goes to the changed files, when
/// there are any and they do not have it, else to the prompt input.
pub open spec fn focus_cycled(before: AppState) -> AppState {
    if has_changed_files(before) && !before.ui.changed_files_focused {
        AppState {
            ui: UiState { changed_files_focused: true, ..before.ui },
            render_dirty: true,
            ..before
        }
    } else {
        input_focus(before)
    }
}

fn focus_input(state: &mut AppState)
    ensures
        *final(state) == input_focus(*old(state)),
{
    state.ui.changed_files_focused = false;
    match &mut state.ui.detail_editor {
        Some(ed) => {
            ed.is_focused = true;
        },
        None => {},
    }
    state.mark_render_dirty();
}

/// Moves the focus of the detail view on.
pub fn cycle_focus(state: &mut AppState)
    ensures
        *final(state) == focus_cycled(*old(state)),
{
    let files = match &state.ui.changed_files {
        Some(files) => files.len() > 0,
        None => false,
    };
    if files && !state.ui.changed_files_focused {
        state.ui.changed_files_focused = true;
        state.mark_render_dirty();
    } else {
        focus_input(state);
    }
}

/// What a key does while the changed files have the focus: it moves the
/// selection, opens the diff of the file selected, or gives the focus to the
/// prompt input. Any other key is held back.
pub open spec fn files_key(
    before: AppState,
    key: KeyEvent,
    after: AppState,
    fx: Seq<Effect<Seq<char>>>,
) -> bool {
    let at = before.ui.selected_changed_file_index;
    let last = match before.ui.changed_files {
        Some(files) => crate::diff_view::last_index(files@.len()),
        None => 0,
    };
    if !unmodified(key) {
        after == before && fx.len() == 0
    } else {
        match key.code {
            KeyCode::Up | KeyCode::Char('k') => fx.len() == 0 && after == file_at(
                before,
                if at > 0 {
                    at - 1
                } else {
                    0
                },
            ),
            KeyCode::Down | KeyCode::Char('j') => fx.len() == 0 && after == file_at(
                before,
                if at < last {
                    at + 1
                } else {
                    at as int
                },
            ),
            KeyCode::Enter => after == before && fx == review::file_diff_asked(before),
            KeyCode::Tab | KeyCode::Esc => after == input_focus(before) && fx.len() == 0,
            _ => after == before && fx.len() == 0,
        }
    }
}

/// The changed files with entry `i` selected.
pub open spec fn file_at(before: AppState, i: int) -> AppState {
    AppState {
        ui: UiState { selected_changed_file_index: i as usize, ..before.ui },
        render_dirty: true,
        ..before
    }
}

/// Handles a key while the changed files have the focus.
pub fn handle_files_key(state: &mut AppState, key: KeyEvent) -> (fx: Effects)
    ensures
        files_key(*old(state), key, *final(state), fx@),
{
    if !is_unmodified(key) {
        return Effects::new();
    }
    match key.code {
        KeyCode::Up | KeyCode::Char('k') => {
            if state.ui.selected_changed_file_index > 0 {
                state.ui.selected_changed_file_index = state.ui.selected_changed_file_index - 1;
            }
            state.mark_render_dirty();
            Effects::new()
        },
        KeyCode::Down | KeyCode::Char('j') => {
            let last: usize = match &state.ui.changed_files {
                Some(files) => if files.len() > 0 {
                    files.len() - 1
                } else {
                    0
                },
                None => 0,
            };
            if state.ui.selected_changed_file_index < last {
                state.ui.selected_changed_file_index = state.ui.selected_changed_file_index + 1;
            }
            state.mark_render_dirty();
            Effects::new()
        },
        KeyCode::Enter => review::handle_open_file_diff(state),
        KeyCode::Tab | KeyCode::Esc => {
            focus_input(state);
            Effects::new()
        },
        _ => Effects::new(),
    }
}

// ─── Modal ────────────────────────────────────────────────────────────────

/// The state with option `i` of the modal selected.
pub open spec fn option_at(before: AppState, i: int) -> AppState {
    AppState {
        ui: UiState { permission_modal_selected_index: i as usize, ..before.ui },
        ..before
    }
}

/// The state with the selection of the modal brought among its options.
pub open spec fn option_clamped(before: AppState) -> AppState {
    let n = permission::option_count(before);
    if n > 0 && before.ui.permission_modal_selected_index >= n {
        option_at(before, n - 1)
    } else {
        before
    }
}

/// What a key does while the modal is open. The selection is first brought
/// among the options. The vertical keys move it; Enter confirms; Escape
/// dismisses the modal; `y` and `n` decide a permission; a digit answers a
/// question. Any other key is held back.
pub open spec fn modal_key(
    before: AppState,
    key: KeyEvent,
    clients: Clients,
    now_ms: u64,
    after: AppState,
    fx: Seq<Effect<Seq<char>>>,
) -> bool {
    let s = option_clamped(before);
    let at = s.ui.permission_modal_selected_index;
    match key.code {
        KeyCode::Up | KeyCode::Char('k') => fx.len() == 0 && after == if at > 0 {
            AppState { render_dirty: true, ..option_at(s, at - 1) }
        } else {
            s
        },
        KeyCode::Down | KeyCode::Char('j') => fx.len() == 0 && after == if at + 1
            < permission::option_count(s) {
            AppState { render_dirty: true, ..option_at(s, at + 1) }
        } else {
            s
        },
        KeyCode::Enter => permission::confirmed(s, clients, after, fx),
        KeyCode::Esc => {
            &&& fx.len() == 0
            &&& after == (AppState {
                ui: UiState {
                    permission_modal_active: false,
                    permission_modal_selected_index: 0,
                    permission_modal_dismissed_at: Some(now_ms),
                    ..s.ui
                },
                render_dirty: true,
                ..s
            })
        },
        KeyCode::Char('y') => if permission::permission_waits(s) {
            permission::confirmed(option_at(s, 0), clients, after, fx)
        } else {
            after == s && fx.len() == 0
        },
        KeyCode::Char('n') => if permission::permission_waits(s) {
            permission::confirmed(option_at(s, 1), clients, after, fx)
        } else {
            after == s && fx.len() == 0
        },
        _ => match answer_index(key) {
            Some(i) => if !permission::permission_waits(s) && i < permission::option_count(s) {
                permission::confirmed(option_at(s, i), clients, after, fx)
            } else {
                after == s && fx.len() == 0
            },
            None => after == s && fx.len() == 0,
        },
    }
}

/// Whether a key confirms an option of the open modal: Enter the selected one,
/// `y` and `n` while a permission waits, a digit that names an answer while
/// none does.
pub open spec fn confirms(state: AppState, key: KeyEvent) -> bool {
    match key.code {
        KeyCode::Enter => true,
        KeyCode::Char('y') | KeyCode::Char('n') => permission::permission_waits(state),
        _ => match answer_index(key) {
            Some(i) => !permission::permission_waits(state) && i < permission::option_count(state),
            None => false,
        },
    }
}

/// Whether a key confirms an option of the open modal.
pub fn is_confirming(state: &AppState, key: KeyEvent) -> (r: bool)
    ensures
        r == confirms(*state, key),
{
    match key.code {
        KeyCode::Enter => true,
        KeyCode::Char('y') | KeyCode::Char('n') => permission::has_pending_permission(state),
        _ => match digit_of(key) {
            Some(i) => !permission::has_pending_permission(state) && i
                < permission::get_modal_option_count(state),
            None => false,
        },
    }
}

fn confirm_option(state: &mut AppState, i: usize, clients: &Clients) -> (fx: Effects)
    requires
        permission::task_known(*old(state), *clients),
    ensures
        permission::confirmed(option_at(*old(state), i as int), *clients, *final(state), fx@),
{
    state.ui.permission_modal_selected_index = i;
    permission::handle_modal_confirm(state, clients)
}

/// Handles a key while the modal is open.
pub fn handle_modal_key(
    state: &mut AppState,
    key: KeyEvent,
    clients: &Clients,
    now_ms: u64,
) -> (fx: Effects)
    requires
        confirms(*old(state), key) ==> permission::task_known(*old(state), *clients),
    ensures
        modal_key(*old(state), key, *clients, now_ms, *final(state), fx@),
{
    let n: usize = permission::get_modal_option_count(state);
    if n > 0 && state.ui.permission_modal_selected_index >= n {
        state.ui.permission_modal_selected_index = n - 1;
    }
    let at: usize = state.ui.permission_modal_selected_index;
    match key.code {
        KeyCode::Up | KeyCode::Char('k') => {
            if at > 0 {
                state.ui.permission_modal_selected_index = at - 1;
                state.mark_render_dirty();
            }
            Effects::new()
        },
        KeyCode::Down | KeyCode::Char('j') => {
            let n: usize = permission::get_modal_option_count(state);
            if n > 0 && at < n - 1 {
                state.ui.permission_modal_selected_index = at + 1;
                state.mark_render_dirty();
            }
            Effects::new()
        },
        KeyCode::Enter => permission::handle_modal_confirm(state, clients),
        KeyCode::Esc => {
            state.ui.permission_modal_active = false;
            state.ui.permission_modal_selected_index = 0;
            state.ui.permission_modal_dismissed_at = Some(now_ms);
            state.mark_render_dirty();
            Effects::new()
        },
        KeyCode::Char('y') => {
            if permission::has_pending_permission(state) {
                confirm_option(state, 0, clients)
            } else {
                Effects::new()
            }
        },
        KeyCode::Char('n') => {
            if permission::has_pending_permission(state) {
                confirm_option(state, 1, clients)
            } else {
                Effects::new()
            }
        },
        _ => match digit_of(key) {
            Some(i) => {
                if !permission::has_pending_permission(state) && i
                    < permission::get_modal_option_count(state) {
                    confirm_option(state, i, clients)
                } else {
                    Effects::new()
                }
            },
            None => Effects::new(),
        },
    }
}

// ─── Detail view ──────────────────────────────────────────────────────────

/// What Escape does in the detail view: back up from a subagent, else out.
pub open spec fn went_back(state: AppState) -> Seq<Effect<Seq<char>>> {
    if state.drilldown() is Some {
        seq![Effect::<Seq<char>>::PopDrilldown]
    } else {
        seq![Effect::<Seq<char>>::CloseTaskDetail]
    }
}

fn go_back(state: &AppState) -> (fx: Effects)
    ensures
        fx@ == went_back(*state),
{
    if state.is_drilled_into_subagent() {
        Effects::one(Effect::PopDrilldown)
    } else {
        Effects::one(Effect::CloseTaskDetail)
    }
}

/// How many lines of output the task in view has.
pub open spec fn output_lines(state: AppState) -> nat {
    match state.ui.viewing_task_id {
        Some(id) => match table::lookup(state.session_tracker.cached_streaming_lines@, id@) {
            Some(n) => n as nat,
            None => 0,
        },
        None => 0,
    }
}

/// The scroll position of the output after a key; `None` follows the end.
pub open spec fn output_scrolled(current: Option<usize>, total: nat, code: KeyCode) -> Option<
    usize,
> {
    let last = crate::diff_view::last_index(total);
    match code {
        KeyCode::Up | KeyCode::Char('k') => if total > 0 {
            match current {
                Some(i) if i > 0 => Some((i - 1) as usize),
                _ => Some(0usize),
            }
        } else {
            current
        },
        KeyCode::Down | KeyCode::Char('j') => if total > 0 {
            match current {
                Some(i) if i + 1 < last => Some((i + 1) as usize),
                _ => None,
            }
        } else {
            current
        },
        KeyCode::Char('g') => if total > 0 {
            Some(0usize)
        } else {
            current
        },
        _ => None,
    }
}

/// What scrolling the output does to the state.
pub open spec fn scrolled(before: AppState, code: KeyCode) -> AppState {
    let total = output_lines(before);
    if total > 0 || code == KeyCode::Char('G') {
        AppState {
            ui: UiState {
                user_scroll_offset: output_scrolled(before.ui.user_scroll_offset, total, code),
                ..before.ui
            },
            render_dirty: true,
            ..before
        }
    } else {
        before
    }
}

/// Scrolls the output of the detail view.
pub fn scroll_output(state: &mut AppState, key: KeyEvent)
    requires
        scrolls(key),
    ensures
        *final(state) == scrolled(*old(state), key.code),
{
    let total: usize = match &state.ui.viewing_task_id {
        Some(id) => match state.session_tracker.cached_streaming_lines.get(id.as_str()) {
            Some(n) => *n,
            None => 0,
        },
        None => 0,
    };
    match key.code {
        KeyCode::Up | KeyCode::Char('k') => {
            if total > 0 {
                let up: usize = match state.ui.user_scroll_offset {
                    Some(i) => if i > 0 {
                        i - 1
                    } else {
                        0
                    },
                    None => 0,
                };
                state.ui.user_scroll_offset = Some(up);
                state.mark_render_dirty();
            }
        },
        KeyCode::Down | KeyCode::Char('j') => {
            if total > 0 {
                let last: usize = total - 1;
                state.ui.user_scroll_offset = match state.ui.user_scroll_offset {
                    Some(i) => if last > 0 && i < last - 1 {
                        Some(i + 1)
                    } else {
                        None
                    },
                    None => None,
                };
                state.mark_render_dirty();
            }
        },
        KeyCode::Char('g') => {
            if total > 0 {
                state.ui.user_scroll_offset = Some(0);
                state.mark_render_dirty();
            }
        },
        _ => {
            state.ui.user_scroll_offset = None;
            state.mark_render_dirty();
        },
    }
}

/// A scroll position that a key sets is always one of a line before the last.
pub proof fn law_output_scroll_stays_inside(current: Option<usize>, total: nat, code: KeyCode)
    requires
        total > 0,
        match current {
            Some(i) => i < total,
            None => true,
        },
    ensures
        match output_scrolled(current, total, code) {
            Some(i) => i < total,
            None => true,
        },
{
}

/// What `y` and `n` do in the detail view: with a permission waiting in the
/// session in view and a connection, they approve and reject it.
pub open spec fn permission_decided(state: AppState, key: KeyEvent, clients: Clients) -> Seq<
    Effect<Seq<char>>,
> {
    match (permission::effective(state), state.ui.viewing_task_id) {
        (Some(s), Some(id)) => if s.pending_permissions@.len() > 0 && clients.serves_active(
            &state.project_registry,
        ) {
            seq![
                Effect::ResolvePermission {
                    project_id: state.project_registry.active_project_id->0@,
                    session_id: s.pending_permissions@[0].session_id@,
                    permission_id: s.pending_permissions@[0].id@,
                    task_id: id@,
                    approve: key.code == KeyCode::Char('y'),
                },
            ]
        } else {
            seq![]
        },
        _ => seq![],
    }
}

fn decide_permission(state: &AppState, key: KeyEvent, clients: &Clients) -> (fx: Effects)
    ensures
        fx@ == permission_decided(*state, key, *clients),
{
    if let Some(s) = permission::get_effective_session(state) {
        if let Some(id) = &state.ui.viewing_task_id {
            if let Some(pid) = &state.project_registry.active_project_id {
                if s.pending_permissions.len() > 0 && clients.has(pid.as_str()) {
                    let perm = &s.pending_permissions[0];
                    return Effects::one(
                        Effect::ResolvePermission {
                            project_id: pid.clone(),
                            session_id: perm.session_id.clone(),
                            permission_id: perm.id.clone(),
                            task_id: id.clone(),
                            approve: key.code == KeyCode::Char('y'),
                        },
                    );
                }
            }
        }
    }
    Effects::new()
}

/// What a digit does in the detail view: with a question that has that many
/// answers and a connection, it gives the answer.
pub open spec fn question_answered(state: AppState, key: KeyEvent, clients: Clients) -> Seq<
    Effect<Seq<char>>,
> {
    if answers(state, key) && clients.serves_active(&state.project_registry) {
        let question = permission::effective(state)->0.pending_questions@[0];
        seq![
            Effect::ResolveQuestion {
                project_id: state.project_registry.active_project_id->0@,
                session_id: question.session_id@,
                question_id: question.id@,
                answer: question.answers@[answer_index(key)->0]@,
                task_id: state.ui.viewing_task_id->0@,
            },
        ]
    } else {
        seq![]
    }
}

fn answer_question(state: &AppState, key: KeyEvent, clients: &Clients) -> (fx: Effects)
    ensures
        fx@ == question_answered(*state, key, *clients),
{
    if can_answer(state, key) {
        if let Some(pid) = &state.project_registry.active_project_id {
            if clients.has(pid.as_str()) {
                match (
                    digit_of(key),
                    permission::get_effective_session(state),
                    &state.ui.viewing_task_id,
                ) {
                    (Some(i), Some(s), Some(id)) => {
                        let question = &s.pending_questions[0];
                        return Effects::one(
                            Effect::ResolveQuestion {
                                project_id: pid.clone(),
                                session_id: question.session_id.clone(),
                                question_id: question.id.clone(),
                                answer: question.answers[i].clone(),
                                task_id: id.clone(),
                            },
                        );
                    },
                    _ => {},
                }
            }
        }
    }
    Effects::new()
}

/// What Control with `r` does: the circuit breaker of the active project is
/// reset.
pub open spec fn breaker_asked(state: AppState) -> Seq<Effect<Seq<char>>> {
    match state.project_registry.active_project_id {
        Some(id) => seq![Effect::ResetBreaker { project_id: id@ }],
        None => seq![],
    }
}

fn ask_breaker(state: &AppState) -> (fx: Effects)
    ensures
        fx@ == breaker_asked(*state),
{
    match &state.project_registry.active_project_id {
        Some(id) => Effects::one(Effect::ResetBreaker { project_id: id.clone() }),
        None => Effects::new(),
    }
}

/// Reports that the circuit breaker was reset, and whether it had been tripped.
pub fn breaker_reset(was_tripped: bool) -> (fx: Effects)
    ensures
        fx@ == seq![
            if was_tripped {
                effects::notice(
                    "Circuit breaker reset — auto-progression resumed."@,
                    NotificationVariant::Success,
                    3000,
                )
            } else {
                effects::notice(
                    "Circuit breaker was not tripped."@,
                    NotificationVariant::Info,
                    2000,
                )
            },
        ],
{
    if was_tripped {
        Effects::say(
            "Circuit breaker reset — auto-progression resumed.",
            NotificationVariant::Success,
            3000,
        )
    } else {
        Effects::say("Circuit breaker was not tripped.", NotificationVariant::Info, 2000)
    }
}

// ─── Bindings ─────────────────────────────────────────────────────────────

/// `after` is `before`, and the effects are `want`.
pub open spec fn only(
    before: AppState,
    after: AppState,
    fx: Seq<Effect<Seq<char>>>,
    want: Seq<Effect<Seq<char>>>,
) -> bool {
    after == before && fx == want
}

/// What a bound action does. Actions without a meaning on the board do
/// nothing, nor does a key without a binding.
pub open spec fn acted(
    before: AppState,
    action: Option<Action>,
    desk: Desk,
    term_width: u16,
    after: AppState,
    fx: Seq<Effect<Seq<char>>>,
) -> bool {
    let visible = crate::config::visible_ids(desk.columns.definitions@);
    match action {
        None => only(before, after, fx, seq![]),
        Some(action) => match action {
            Action::Quit => only(before, after, fx, seq![Effect::<Seq<char>>::Quit]),
            Action::HelpToggle => fx.len() == 0 && after == (AppState {
                ui: UiState { mode: AppMode::Help, ..before.ui },
                ..before
            }),
            Action::PrevProject => only(before, after, fx, projects::switched(before, -1)),
            Action::NextProject => only(before, after, fx, projects::switched(before, 1)),
            Action::NewProject => only(
                before,
                after,
                fx,
                seq![Effect::<Seq<char>>::OpenNewProjectDirectory],
            ),
            Action::RenameProject => only(
                before,
                after,
                fx,
                seq![Effect::<Seq<char>>::OpenProjectRename],
            ),
            Action::SetWorkingDirectory => only(
                before,
                after,
                fx,
                seq![Effect::<Seq<char>>::OpenSetWorkingDirectory],
            ),
            Action::DeleteProject => only(
                before,
                after,
                fx,
                projects::project_deleted(before, desk.clients),
            ),
            Action::NavLeft => column_stepped(before, visible, desk, term_width, -1, after, fx),
            Action::NavRight => column_stepped(before, visible, desk, term_width, 1, after, fx),
            Action::NavUp => mouse::task_focus_moved(before, -1, after, fx),
            Action::NavDown => mouse::task_focus_moved(before, 1, after, fx),
            Action::CreateTask => only(
                before,
                after,
                fx,
                seq![Effect::OpenTaskEditor { column_id: before.ui.focused_column@ }],
            ),
            Action::OpenTaskDetail | Action::ViewTask => only(
                before,
                after,
                fx,
                match before.ui.focused_task_id {
                    Some(id) => tasks::detail_opened(before, id@),
                    None => seq![
                        effects::notice("No task selected"@, NotificationVariant::Info, 2000),
                    ],
                },
            ),
            Action::MoveForward => after == before && shifted(before, visible, 1, fx),
            Action::MoveBackward => after == before && shifted(before, visible, -1, fx),
            Action::DeleteTask => tasks::deletion_asked(before, after, fx),
            Action::AbortSession => only(
                before,
                after,
                fx,
                match tasks::focused_session(before) {
                    None => seq![
                        effects::notice(
                            "No active session to abort"@,
                            NotificationVariant::Info,
                            2000,
                        ),
                    ],
                    Some(sid) => if desk.clients.serves_active(&before.project_registry) {
                        seq![
                            Effect::RequestAbort {
                                project_id: before.project_registry.active_project_id->0@,
                                session_id: sid@,
                            },
                        ]
                    } else {
                        seq![
                            effects::notice(
                                "No client available to abort session"@,
                                NotificationVariant::Error,
                                3000,
                            ),
                        ]
                    },
                },
            ),
            Action::RetryTask => only(
                before,
                after,
                fx,
                tasks::retried(before, desk.columns, desk.clients),
            ),
            Action::DrillDownSubagent => only(before, after, fx, subagent::drill_asked(before)),
            Action::ReviewChanges => review::review_asked(before, after, fx),
            Action::AcceptReview => only(before, after, fx, review::review_accepted(before)),
            Action::RejectReview => {
                &&& fx == review::review_rejected(before, desk.columns, desk.clients)
                &&& after == (AppState {
                    render_dirty: before.render_dirty || review::decidable(before),
                    ..before
                })
            },
            Action::Reports => reports::reports_toggled(before, after, fx),
            Action::AddDependency => prompts::dependency_asked(before, after, fx),
            Action::RemoveDependency => prompts::dependency_dropped(before, after, fx),
            Action::ViewArchive => fx.len() == 0 && after == (AppState {
                ui: UiState {
                    archive_state: Some(ArchiveState { selected_index: 0 }),
                    mode: AppMode::Archive,
                    ..before.ui
                },
                render_dirty: true,
                ..before
            }),
            Action::OpenConfigEditor => only(
                before,
                after,
                fx,
                seq![Effect::<Seq<char>>::ReadConfigFile],
            ),
            Action::EditTask => only(before, after, fx, tasks::edit_asked(before)),
            Action::MoveTaskUp | Action::MoveTaskDown | Action::ScrollKanbanLeft
            | Action::ScrollKanbanRight => only(
                before,
                after,
                fx,
                seq![],
            ),
        },
    }
}

/// A step of the column focus among the visible columns.
pub open spec fn column_stepped(
    before: AppState,
    visible: Seq<Seq<char>>,
    desk: Desk,
    term_width: u16,
    direction: int,
    after: AppState,
    fx: Seq<Effect<Seq<char>>>,
) -> bool {
    exists|ids: Seq<String>| #[trigger]
        text::texts(ids) == visible && mouse::column_moved(
            before,
            ids,
            mouse::fitting_columns(desk.board, term_width) as usize,
            direction,
            after,
            fx,
        )
}

/// A step of the focused task among the visible columns.
pub open spec fn shifted(
    before: AppState,
    visible: Seq<Seq<char>>,
    direction: int,
    fx: Seq<Effect<Seq<char>>>,
) -> bool {
    exists|ids: Seq<String>| #[trigger]
        text::texts(ids) == visible && fx == tasks::task_shifted(before, ids, direction)
}

fn act(state: &mut AppState, action: Option<Action>, desk: &Desk, term_width: u16) -> (fx: Effects)
    requires
        desk.board.column_width > 0,
    ensures
        acted(*old(state), action, *desk, term_width, *final(state), fx@),
{
    let action = match action {
        Some(action) => action,
        None => {
            return Effects::new();
        },
    };
    match action {
        Action::Quit => projects::handle_quit(),
        Action::HelpToggle => {
            projects::handle_help_toggle(state);
            Effects::new()
        },
        Action::PrevProject => projects::handle_prev_project(state),
        Action::NextProject => projects::handle_next_project(state),
        Action::NewProject => projects::handle_new_project(),
        Action::RenameProject => projects::handle_rename_project(),
        Action::SetWorkingDirectory => projects::handle_set_working_directory(),
        Action::DeleteProject => projects::handle_delete_project(state, &desk.clients),
        Action::NavLeft => {
            let visible = desk.columns.visible_column_ids();
            let max: usize = mouse::max_visible_columns(desk.board, term_width);
            mouse::handle_nav_column(state, &visible, max, -1)
        },
        Action::NavRight => {
            let visible = desk.columns.visible_column_ids();
            let max: usize = mouse::max_visible_columns(desk.board, term_width);
            mouse::handle_nav_column(state, &visible, max, 1)
        },
        Action::NavUp => mouse::handle_nav_task(state, -1),
        Action::NavDown => mouse::handle_nav_task(state, 1),
        Action::CreateTask => tasks::handle_create_task(state),
        Action::OpenTaskDetail | Action::ViewTask => tasks::handle_open_task_detail(state),
        Action::MoveForward => {
            let visible = desk.columns.visible_column_ids();
            tasks::handle_move_task(state, &visible, 1)
        },
        Action::MoveBackward => {
            let visible = desk.columns.visible_column_ids();
            tasks::handle_move_task(state, &visible, -1)
        },
        Action::DeleteTask => tasks::handle_delete_task(state),
        Action::AbortSession => tasks::handle_abort_session(state, &desk.clients),
        Action::RetryTask => tasks::handle_retry_task(state, &desk.columns, &desk.clients),
        Action::DrillDownSubagent => subagent::handle_drill_down_subagent(state),
        Action::ReviewChanges => review::handle_review_changes(state),
        Action::AcceptReview => review::handle_accept_review(state),
        Action::RejectReview => review::handle_reject_review(state, &desk.columns, &desk.clients),
        Action::Reports => reports::handle_reports_toggle(state),
        Action::AddDependency => prompts::handle_add_dependency(state),
        Action::RemoveDependency => prompts::handle_remove_dependency(state),
        Action::ViewArchive => {
            modes::open_archive(state);
            Effects::new()
        },
        Action::OpenConfigEditor => Effects::one(Effect::ReadConfigFile),
        Action::EditTask => tasks::handle_edit_task(state),
        Action::MoveTaskUp | Action::MoveTaskDown | Action::ScrollKanbanLeft
        | Action::ScrollKanbanRight => Effects::new(),
    }
}

// ─── All layers ───────────────────────────────────────────────────────────

/// What a key press in normal mode does: what the layer that takes it says.
pub open spec fn normal_key(
    before: AppState,
    key: KeyEvent,
    desk: Desk,
    term_width: u16,
    now_ms: u64,
    after: AppState,
    fx: Seq<Effect<Seq<char>>>,
) -> bool {
    match layer_of(before, key) {
        Layer::DetailEditor => input_key(
            before,
            key,
            keys::first_match(desk.editor_key_matcher.bindings@, key, 0),
            desk.clients,
            after,
            fx,
        ),
        Layer::FocusCycle => after == focus_cycled(before) && fx.len() == 0,
        Layer::ChangedFiles => files_key(before, key, after, fx),
        Layer::Modal => modal_key(before, key, desk.clients, now_ms, after, fx),
        Layer::Back => only(before, after, fx, went_back(before)),
        Layer::Scroll => after == scrolled(before, key.code) && fx.len() == 0,
        Layer::Permission => only(
            before,
            after,
            fx,
            permission_decided(before, key, desk.clients),
        ),
        Layer::Question => only(before, after, fx, question_answered(before, key, desk.clients)),
        Layer::Breaker => only(before, after, fx, breaker_asked(before)),
        Layer::Binding => acted(
            before,
            keys::first_match(desk.key_matcher.bindings@, key, 0),
            desk,
            term_width,
            after,
            fx,
        ),
    }
}

/// Handle key events in normal mode.
///
/// Passes the key through the layers and, when none of them takes it, to the
/// action that it is bound to.
pub fn handle_normal_key(
    state: &mut AppState,
    key: KeyEvent,
    desk: &Desk,
    term_width: u16,
    now_ms: u64,
) -> (fx: Effects)
    requires
        desk.board.column_width > 0,
        layer_of(*old(state), key) == Layer::Modal && confirms(*old(state), key)
            ==> permission::task_known(*old(state), desk.clients),
    ensures
        normal_key(*old(state), key, *desk, term_width, now_ms, *final(state), fx@),
{
    match find_layer(state, key) {
        Layer::DetailEditor => {
            let action = desk.editor_key_matcher.match_key(key);
            handle_input_key(state, key, action, &desk.clients)
        },
        Layer::FocusCycle => {
            cycle_focus(state);
            Effects::new()
        },
        Layer::ChangedFiles => handle_files_key(state, key),
        Layer::Modal => handle_modal_key(state, key, &desk.clients, now_ms),
        Layer::Back => go_back(state),
        Layer::Scroll => {
            scroll_output(state, key);
            Effects::new()
        },
        Layer::Permission => decide_permission(state, key, &desk.clients),
        Layer::Question => answer_question(state, key, &desk.clients),
        Layer::Breaker => ask_breaker(state),
        Layer::Binding => {
            let action = desk.key_matcher.match_key(key);
            act(state, action, desk, term_width)
        },
    }
}

/// A key that no layer takes and that is bound to nothing changes nothing.
pub proof fn law_unbound_keys_change_nothing(
    before: AppState,
    key: KeyEvent,
    desk: Desk,
    term_width: u16,
    now_ms: u64,
    after: AppState,
    fx: Seq<Effect<Seq<char>>>,
)
    requires
        layer_of(before, key) == Layer::Binding,
        keys::first_match(desk.key_matcher.bindings@, key, 0) is None,
        normal_key(before, key, desk, term_width, now_ms, after, fx),
    ensures
        after == before,
        fx.len() == 0,
{
}

/// While the prompt input has the focus, typing goes into it and nowhere else:
/// a character that is bound to no editing action never triggers an action of
/// the board.
pub proof fn law_typing_never_triggers_actions(
    before: AppState,
    key: KeyEvent,
    desk: Desk,
    term_width: u16,
    now_ms: u64,
    after: AppState,
    fx: Seq<Effect<Seq<char>>>,
)
    requires
        input_focused(before),
        key.code is Char,
        !key.is_command(),
        keys::first_match(desk.editor_key_matcher.bindings@, key, 0) is None,
        normal_key(before, key, desk, term_width, now_ms, after, fx),
    ensures
        fx.len() == 0,
        after.ui.detail_editor is Some,
        after.ui.detail_editor->0.page() == before.ui.detail_editor->0.page().typed(
            key.code->Char_0,
        ),
        after == with_input(before, after.ui.detail_editor->0),
{
}

/// While the modal is open a key that neither moves through its options nor
/// confirms or dismisses is held back: it asks for nothing and changes nothing
/// but a selection that is beyond the options.
pub proof fn law_modal_holds_other_keys_back(
    before: AppState,
    key: KeyEvent,
    desk: Desk,
    term_width: u16,
    now_ms: u64,
    after: AppState,
    fx: Seq<Effect<Seq<char>>>,
)
    requires
        layer_of(before, key) == Layer::Modal,
        !confirms(before, key),
        key.code != KeyCode::Up,
        key.code != KeyCode::Down,
        key.code != KeyCode::Char('k'),
        key.code != KeyCode::Char('j'),
        key.code != KeyCode::Esc,
        normal_key(before, key, desk, term_width, now_ms, after, fx),
    ensures
        fx.len() == 0,
        after == option_clamped(before),
{
}

/// In the detail view `y` and `n` never reach the bindings of the board.
pub proof fn law_decisions_stay_in_the_detail_view(state: AppState, key: KeyEvent)
    requires
        in_detail(state),
        key.code == KeyCode::Char('y') || key.code == KeyCode::Char('n'),
    ensures
        layer_of(state, key) != Layer::Binding,
{
}

/// What a key press in normal mode leaves alone, whatever it does: the columns
/// of the board and the projects stay as they are, and of a task at most the
/// prompt that waits with it changes. All else is left to the effects.
pub proof fn law_keys_leave_the_board_alone(
    before: AppState,
    key: KeyEvent,
    desk: Desk,
    term_width: u16,
    now_ms: u64,
    after: AppState,
    fx: Seq<Effect<Seq<char>>>,
)
    requires
        normal_key(before, key, desk, term_width, now_ms, after, fx),
    ensures
        after.kanban.columns == before.kanban.columns,
        after.project_registry == before.project_registry,
        forall|id: Seq<char>| #[trigger]
            after.tasks@.contains_key(id) == before.tasks@.contains_key(id),
        forall|id: Seq<char>| #[trigger]
            before.tasks@.contains_key(id) ==> after.tasks@[id] == (CortexTask {
                queued_prompt: after.tasks@[id].queued_prompt,
                ..before.tasks@[id]
            }),
{
}

// ─── Laws of the bindings ─────────────────────────────────────────────────

/// Whether a key press reaches the bindings of the board and fires an action.
pub open spec fn fires_action(
    before: AppState,
    key: KeyEvent,
    desk: Desk,
    action: Action,
) -> bool {
    layer_of(before, key) == Layer::Binding && keys::first_match(
        desk.key_matcher.bindings@,
        key,
        0,
    ) == Some(action)
}

/// Whether a task is the one that the user looks at: the one in the detail view,
/// where that has the focus, else the focused one on the board.
pub open spec fn looked_at(state: AppState, id: String) -> bool {
    match state.ui.focused_panel {
        FocusedPanel::TaskDetail => state.ui.viewing_task_id == Some(id),
        FocusedPanel::Kanban => state.ui.focused_task_id == Some(id),
    }
}

/// Accepting a task that awaits a decision has its work committed, and does not
/// send it anywhere else.
pub proof fn law_accepting_commits(
    before: AppState,
    key: KeyEvent,
    desk: Desk,
    term_width: u16,
    now_ms: u64,
    after: AppState,
    fx: Seq<Effect<Seq<char>>>,
    id: String,
)
    requires
        fires_action(before, key, desk, Action::AcceptReview),
        normal_key(before, key, desk, term_width, now_ms, after, fx),
        looked_at(before, id),
        tasks::task_of(before, id@) is Some,
        tasks::task_of(before, id@)->0.column@ == "review"@,
        tasks::task_of(before, id@)->0.review_status is AwaitingDecision,
        before.project_registry.working_dir(tasks::task_of(before, id@)->0.project_id@) is Some,
    ensures
        ({
            let t = tasks::task_of(before, id@)->0;
            &&& exists|i: int|
                0 <= i < fx.len() && #[trigger] fx[i] == (Effect::CommitReview {
                    task_id: id@,
                    task_number: t.number,
                    description: t.description@,
                    working_dir: before.project_registry.working_dir(t.project_id@)->0,
                })
            &&& forall|i: int|
                0 <= i < fx.len() ==> !((#[trigger] fx[i]) is MoveTask) && !(fx[i]
                    is ClearSessionData) && !(fx[i] is ForgetSession) && !(fx[i] is TaskMoved)
            &&& forall|i: int|
                0 <= i < fx.len() ==> ((#[trigger] fx[i]) matches Effect::SetAgentStatus {
                    task_id,
                    status,
                } ==> task_id == id@ && status is Running)
            &&& forall|i: int|
                0 <= i < fx.len() ==> ((#[trigger] fx[i]) matches Effect::SetReviewStatus {
                    task_id,
                    status,
                } ==> task_id == id@ && status is Approved)
            &&& after == before
        }),
{
    let t = tasks::task_of(before, id@)->0;
    assert(fx[2] == (Effect::CommitReview {
        task_id: id@,
        task_number: t.number,
        description: t.description@,
        working_dir: before.project_registry.working_dir(t.project_id@)->0,
    }));
}

/// Rejecting a task that awaits a decision sends it back to the running column
/// without its session, with its review pending again, and commits nothing; the
/// agent is started again just where there is a connection.
pub proof fn law_rejecting_sends_back(
    before: AppState,
    key: KeyEvent,
    desk: Desk,
    term_width: u16,
    now_ms: u64,
    after: AppState,
    fx: Seq<Effect<Seq<char>>>,
    id: String,
)
    requires
        fires_action(before, key, desk, Action::RejectReview),
        normal_key(before, key, desk, term_width, now_ms, after, fx),
        looked_at(before, id),
        tasks::task_of(before, id@) is Some,
        tasks::task_of(before, id@)->0.column@ == "review"@,
        tasks::task_of(before, id@)->0.review_status is AwaitingDecision,
    ensures
        ({
            let t = tasks::task_of(before, id@)->0;
            &&& fx.contains(Effect::MoveTask { task_id: id@, column: "running"@ })
            &&& fx.contains(Effect::ForgetSession { task_id: id@ })
            &&& fx.contains(Effect::ClearSessionData { task_id: id@ })
            &&& forall|i: int| 0 <= i < fx.len() ==> !((#[trigger] fx[i]) is CommitReview)
            &&& forall|i: int|
                0 <= i < fx.len() ==> match #[trigger] fx[i] {
                    Effect::SetReviewStatus { task_id, .. } => task_id == id@,
                    Effect::ClearSessionData { task_id } => task_id == id@,
                    Effect::ForgetSession { task_id } => task_id == id@,
                    Effect::MoveTask { task_id, column } => task_id == id@ && column
                        == "running"@,
                    Effect::SetAgentStatus { task_id, status } => task_id == id@ && status
                        is Running,
                    Effect::SetAgentType { task_id, agent } => task_id == id@ && agent
                        == desk.columns.agent_of("running"@),
                    Effect::TaskMoved { .. } | Effect::Notify { .. } => true,
                    _ => false,
                }
            &&& exists|i: int|
                0 <= i < fx.len() && #[trigger] fx[i] == (Effect::SetReviewStatus {
                    task_id: id@,
                    status: ReviewStatus::Pending,
                }) && forall|k: int|
                    i < k < fx.len() ==> !((#[trigger] fx[k]) is SetReviewStatus)
            &&& desk.clients.serves(t.project_id@) <==> exists|i: int|
                0 <= i < fx.len() && (#[trigger] fx[i]) is TaskMoved
            &&& forall|i: int|
                0 <= i < fx.len() ==> ((#[trigger] fx[i]) matches Effect::TaskMoved {
                    project_id,
                    task_id,
                    column,
                    previous_agent,
                } ==> project_id == t.project_id@ && task_id == id@ && column == "running"@
                    && previous_agent == state::opt_view(t.agent_type))
        }),
{
    let t = tasks::task_of(before, id@)->0;
    assert(fx[3] == (Effect::MoveTask { task_id: id@, column: "running"@ }));
    assert(fx[2] == (Effect::ForgetSession { task_id: id@ }));
    assert(fx[1] == (Effect::ClearSessionData { task_id: id@ }));
    assert(fx[4] == (Effect::SetReviewStatus { task_id: id@, status: ReviewStatus::Pending }));
    if desk.clients.serves(t.project_id@) {
        assert(fx[8] is TaskMoved);
    }
}

/// Moving the focused task on moves it to the visible column behind the focused
/// one, moving it back to the one before; the agent of that column is then asked
/// for. At the end of the board the task stays where it is.
pub proof fn law_moving_names_the_next_column(
    before: AppState,
    key: KeyEvent,
    desk: Desk,
    term_width: u16,
    now_ms: u64,
    after: AppState,
    fx: Seq<Effect<Seq<char>>>,
)
    requires
        normal_key(before, key, desk, term_width, now_ms, after, fx),
        before.ui.focused_task_id is Some,
    ensures
        ({
            let id = before.ui.focused_task_id->0@;
            let at = before.kanban.focused_column_index as int;
            let visible = crate::config::visible_ids(desk.columns.definitions@);
            &&& fires_action(before, key, desk, Action::MoveForward) && at + 1 < visible.len()
                ==> fx == seq![
                Effect::MoveTask { task_id: id, column: visible[at + 1] },
                Effect::DispatchAgent { task_id: id, column: visible[at + 1] },
            ]
            &&& fires_action(before, key, desk, Action::MoveBackward) && 0 < at <= visible.len()
                ==> fx == seq![
                Effect::MoveTask { task_id: id, column: visible[at - 1] },
                Effect::DispatchAgent { task_id: id, column: visible[at - 1] },
            ]
            &&& fires_action(before, key, desk, Action::MoveForward) && at + 1 >= visible.len()
                ==> fx.len() == 1 && fx[0] is Notify
            &&& fires_action(before, key, desk, Action::MoveBackward) && at == 0 ==> fx.len() == 1
                && fx[0] is Notify
        }),
{
    let visible = crate::config::visible_ids(desk.columns.definitions@);
    if fires_action(before, key, desk, Action::MoveForward) {
        let ids = choose|ids: Seq<String>| #[trigger]
            text::texts(ids) == visible && fx == tasks::task_shifted(before, ids, 1);
        assert(ids.len() == visible.len());
        assert forall|i: int| 0 <= i < ids.len() implies visible[i] == (#[trigger] ids[i])@ by {}
    }
    if fires_action(before, key, desk, Action::MoveBackward) {
        let ids = choose|ids: Seq<String>| #[trigger]
            text::texts(ids) == visible && fx == tasks::task_shifted(before, ids, -1);
        assert(ids.len() == visible.len());
        assert forall|i: int| 0 <= i < ids.len() implies visible[i] == (#[trigger] ids[i])@ by {}
    }
}

/// A task that was moved on and is then moved back, with the column that it came
/// to focused, comes to the column that it left; and the other way round.
pub proof fn law_moving_there_and_back(
    before: AppState,
    key: KeyEvent,
    between: AppState,
    back: KeyEvent,
    desk: Desk,
    term_width: u16,
    now_ms: u64,
    later_ms: u64,
    after1: AppState,
    fx1: Seq<Effect<Seq<char>>>,
    after2: AppState,
    fx2: Seq<Effect<Seq<char>>>,
)
    requires
        normal_key(before, key, desk, term_width, now_ms, after1, fx1),
        normal_key(between, back, desk, term_width, later_ms, after2, fx2),
        before.ui.focused_task_id is Some,
        between.ui.focused_task_id == before.ui.focused_task_id,
        before.kanban.focused_column_index < crate::config::visible_ids(
            desk.columns.definitions@,
        ).len(),
        between.kanban.focused_column_index < crate::config::visible_ids(
            desk.columns.definitions@,
        ).len(),
        fx1.len() == 2,
        fx1[0] == (Effect::MoveTask {
            task_id: before.ui.focused_task_id->0@,
            column: crate::config::visible_ids(
                desk.columns.definitions@,
            )[between.kanban.focused_column_index as int],
        }),
        (fires_action(before, key, desk, Action::MoveForward) && fires_action(
            between,
            back,
            desk,
            Action::MoveBackward,
        ) && between.kanban.focused_column_index == before.kanban.focused_column_index + 1) || (
        fires_action(before, key, desk, Action::MoveBackward) && fires_action(
            between,
            back,
            desk,
            Action::MoveForward,
        ) && between.kanban.focused_column_index == before.kanban.focused_column_index - 1),
    ensures
        fx2.len() == 2,
        fx2[0] == (Effect::MoveTask {
            task_id: before.ui.focused_task_id->0@,
            column: crate::config::visible_ids(
                desk.columns.definitions@,
            )[before.kanban.focused_column_index as int],
        }),
{
    law_moving_names_the_next_column(before, key, desk, term_width, now_ms, after1, fx1);
    law_moving_names_the_next_column(between, back, desk, term_width, later_ms, after2, fx2);
}

/// The focus moves to the visible column on the right with the key for the
/// right, to the one on the left with that for the left, and stays at the ends.
pub proof fn law_column_focus_moves_sideways(
    before: AppState,
    key: KeyEvent,
    desk: Desk,
    term_width: u16,
    now_ms: u64,
    after: AppState,
    fx: Seq<Effect<Seq<char>>>,
)
    requires
        normal_key(before, key, desk, term_width, now_ms, after, fx),
        before.kanban.focused_column_index < crate::config::visible_ids(
            desk.columns.definitions@,
        ).len(),
        crate::config::visible_ids(desk.columns.definitions@).len() <= usize::MAX,
    ensures
        ({
            let at = before.kanban.focused_column_index as int;
            let visible = crate::config::visible_ids(desk.columns.definitions@);
            let right = fires_action(before, key, desk, Action::NavRight);
            let left = fires_action(before, key, desk, Action::NavLeft);
            &&& right && at + 1 < visible.len() ==> after.kanban.focused_column_index == at + 1
                && fx == seq![Effect::SetFocusedColumn { column_id: visible[at + 1] }]
            &&& left && at > 0 ==> after.kanban.focused_column_index == at - 1 && fx == seq![
                Effect::SetFocusedColumn { column_id: visible[at - 1] },
            ]
            &&& right && at + 1 == visible.len() || left && at == 0 ==> after == before && fx.len()
                == 0
        }),
{
    let visible = crate::config::visible_ids(desk.columns.definitions@);
    let max = mouse::fitting_columns(desk.board, term_width) as usize;
    if fires_action(before, key, desk, Action::NavRight) {
        let ids = choose|ids: Seq<String>| #[trigger]
            text::texts(ids) == visible && mouse::column_moved(before, ids, max, 1, after, fx);
        assert(ids.len() == visible.len());
        assert forall|i: int| 0 <= i < ids.len() implies visible[i] == (#[trigger] ids[i])@ by {}
    }
    if fires_action(before, key, desk, Action::NavLeft) {
        let ids = choose|ids: Seq<String>| #[trigger]
            text::texts(ids) == visible && mouse::column_moved(before, ids, max, -1, after, fx);
        assert(ids.len() == visible.len());
        assert forall|i: int| 0 <= i < ids.len() implies visible[i] == (#[trigger] ids[i])@ by {}
    }
}

/// The focus moves to the task below with the key for down, to the one above
/// with that for up, within the focused column, and stays at its ends.
pub proof fn law_task_focus_moves_up_and_down(
    before: AppState,
    key: KeyEvent,
    desk: Desk,
    term_width: u16,
    now_ms: u64,
    after: AppState,
    fx: Seq<Effect<Seq<char>>>,
    ids: Vec<String>,
    at: usize,
)
    requires
        normal_key(before, key, desk, term_width, now_ms, after, fx),
        table::lookup(before.kanban.columns@, before.ui.focused_column@) == Some(ids),
        table::lookup(before.kanban.focused_task_index@, before.ui.focused_column@) == Some(at),
        at < ids@.len() <= usize::MAX,
    ensures
        ({
            let down = fires_action(before, key, desk, Action::NavDown);
            let up = fires_action(before, key, desk, Action::NavUp);
            let column = before.ui.focused_column@;
            &&& down && at + 1 < ids@.len() ==> after.ui.focused_task_id == Some(ids@[at + 1])
                && after.kanban.focused_task_index@[column] == at + 1
            &&& up && at > 0 ==> after.ui.focused_task_id == Some(ids@[at - 1])
                && after.kanban.focused_task_index@[column] == at - 1
            &&& down && at + 1 == ids@.len() || up && at == 0 ==> after == before
            &&& down || up ==> fx.len() == 0 && after.ui.focused_column == before.ui.focused_column
        }),
{
}

/// Every request that a key press makes through the bindings is one that the
/// action fired stands for.
pub proof fn law_requests_come_from_their_actions(
    before: AppState,
    key: KeyEvent,
    desk: Desk,
    term_width: u16,
    now_ms: u64,
    after: AppState,
    fx: Seq<Effect<Seq<char>>>,
    i: int,
)
    requires
        layer_of(before, key) == Layer::Binding,
        normal_key(before, key, desk, term_width, now_ms, after, fx),
        0 <= i < fx.len(),
    ensures
        ({
            let e = fx[i];
            let action = keys::first_match(desk.key_matcher.bindings@, key, 0);
            &&& action is Some
            &&& e is Quit ==> action->0 is Quit
            &&& e is OpenNewProjectDirectory ==> action->0 is NewProject
            &&& e is OpenProjectRename ==> action->0 is RenameProject
            &&& e is OpenSetWorkingDirectory ==> action->0 is SetWorkingDirectory
            &&& e is SelectProject ==> action->0 is PrevProject || action->0 is NextProject
            &&& e is AbortSession || e is RemoveClient || e is RemoveProject ==> action->0
                is DeleteProject
            &&& e is SetFocusedColumn ==> action->0 is NavLeft || action->0 is NavRight
            &&& e is OpenTaskEditor ==> action->0 is CreateTask
            &&& e is EditTask ==> action->0 is EditTask
            &&& e is OpenTaskDetail || e is LoadChangedFiles || e is SetDiffReviewSource
                ==> action->0 is OpenTaskDetail || action->0 is ViewTask
            &&& e is DispatchAgent ==> action->0 is MoveForward || action->0 is MoveBackward
            &&& e is MoveTask ==> action->0 is MoveForward || action->0 is MoveBackward
                || action->0 is RejectReview
            &&& e is CommitReview ==> action->0 is AcceptReview
            &&& e is ClearSessionData || e is ForgetSession || e is TaskMoved ==> action->0
                is RejectReview
            &&& e is SetReviewStatus || e is SetAgentStatus ==> action->0 is AcceptReview
                || action->0 is RejectReview
            &&& e is RequestAbort ==> action->0 is AbortSession
            &&& e is RetryTask ==> action->0 is RetryTask
            &&& e is DrillDown ==> action->0 is DrillDownSubagent
            &&& e is ReviewDiff ==> action->0 is ReviewChanges
            &&& e is RemoveDependency ==> action->0 is RemoveDependency
            &&& e is LoadCommits ==> action->0 is Reports
            &&& e is ReadConfigFile ==> action->0 is OpenConfigEditor
            &&& !(e is DeleteTask || e is AddDependency || e is SaveConfig || e is UnarchiveTask
                || e is SendPrompt || e is ResolvePermission || e is ResolveQuestion || e
                is ResetBreaker || e is SaveTaskEditor || e is CancelTaskEditor || e
                is SubmitProjectRename || e is CancelProjectRename || e is SubmitWorkingDirectory
                || e is CancelWorkingDirectory || e is SubmitNewProjectDirectory || e
                is CancelNewProjectDirectory)
        }),
{
    let action = keys::first_match(desk.key_matcher.bindings@, key, 0);
    if action == Some(Action::DeleteProject) && before.project_registry.active_project_id is Some {
        let id = before.project_registry.active_project_id->0@;
        projects::lemma_aborts_are_aborts(before.tasks.entries@, id);
    }
}

/// Every action on the board is carried out: where what it needs is there, a key
/// press that fires it makes the request that the action stands for, or brings
/// up the view that it stands for.
pub proof fn law_actions_are_carried_out(
    before: AppState,
    key: KeyEvent,
    desk: Desk,
    term_width: u16,
    now_ms: u64,
    after: AppState,
    fx: Seq<Effect<Seq<char>>>,
    action: Action,
)
    requires
        fires_action(before, key, desk, action),
        normal_key(before, key, desk, term_width, now_ms, after, fx),
    ensures
        ({
            let focused = before.ui.focused_task_id;
            let task = match focused {
                Some(id) => tasks::task_of(before, id@),
                None => None,
            };
            let active = before.project_registry.active_project_id;
            let connected = active is Some && desk.clients.serves(active->0@);
            &&& action is Quit ==> fx == seq![Effect::<Seq<char>>::Quit]
            &&& action is NewProject ==> fx == seq![Effect::<Seq<char>>::OpenNewProjectDirectory]
            &&& action is RenameProject ==> fx == seq![Effect::<Seq<char>>::OpenProjectRename]
            &&& action is SetWorkingDirectory ==> fx == seq![
                Effect::<Seq<char>>::OpenSetWorkingDirectory,
            ]
            &&& action is DeleteProject && active is Some ==> fx.len() > 0 && (fx.last()
                matches Effect::RemoveProject { project_id, .. } && project_id == active->0@)
            &&& action is CreateTask ==> fx == seq![
                Effect::OpenTaskEditor { column_id: before.ui.focused_column@ },
            ]
            &&& action is EditTask && focused is Some ==> fx == seq![
                Effect::EditTask { task_id: focused->0@ },
            ]
            &&& (action is OpenTaskDetail || action is ViewTask) && focused is Some ==> fx.len()
                > 0 && fx[0] == (Effect::OpenTaskDetail { task_id: focused->0@ })
            &&& action is DeleteTask && focused is Some ==> after.ui.mode == AppMode::ConfirmDelete
                && after.ui.pending_delete_task_id == focused && fx.len() == 0
            &&& action is AbortSession && task is Some && task->0.session_id is Some && connected
                ==> fx == seq![
                Effect::RequestAbort {
                    project_id: active->0@,
                    session_id: task->0.session_id->0@,
                },
            ]
            &&& action is RetryTask && task is Some && (task->0.agent_status is Hung
                || task->0.agent_status is Error) && connected && desk.columns.agent_of(
                task->0.column@,
            ) is Some ==> fx == seq![
                Effect::RetryTask {
                    project_id: active->0@,
                    task_id: focused->0@,
                    session_id: state::opt_view(task->0.session_id),
                    column: task->0.column@,
                },
            ]
            &&& action is ReviewChanges && before.ui.focused_panel == FocusedPanel::Kanban && task
                is Some && (task->0.agent_status is Ready || task->0.agent_status is Complete)
                && before.project_registry.working_dir(task->0.project_id@) is Some ==> fx == seq![
                Effect::ReviewDiff {
                    working_dir: before.project_registry.working_dir(task->0.project_id@)->0,
                    task_number: task->0.number,
                },
            ]
            &&& action is RemoveDependency && task is Some && task->0.blocked_by@.len() > 0
                ==> fx.len() > 0 && fx[0] == (Effect::RemoveDependency {
                task_id: focused->0@,
                dependency_id: task->0.blocked_by@.last()@,
            })
            &&& action is AddDependency && focused is Some ==> after.ui.mode
                == AppMode::InputPrompt && prompts::prompt_of(after.ui.prompt_context) == Some(
                prompts::InputPrompt::AddDependency,
            )
            &&& action is HelpToggle ==> after.ui.mode == AppMode::Help && fx.len() == 0
            &&& action is ViewArchive ==> after.ui.mode == AppMode::Archive && fx.len() == 0
            &&& action is Reports && before.ui.mode != AppMode::Reports ==> after.ui.mode
                == AppMode::Reports && fx.len() == 1 && fx[0] is LoadCommits
            &&& action is OpenConfigEditor ==> fx == seq![Effect::<Seq<char>>::ReadConfigFile]
        }),
{
    reveal_strlit("new_project_directory");
    reveal_strlit("add_dependency");
    assert("new_project_directory"@.len() != "add_dependency"@.len());
}

/// A key press on the board brings up just the view that its action stands for.
pub proof fn law_views_come_from_their_actions(
    before: AppState,
    key: KeyEvent,
    desk: Desk,
    term_width: u16,
    now_ms: u64,
    after: AppState,
    fx: Seq<Effect<Seq<char>>>,
)
    requires
        before.ui.mode == AppMode::Normal,
        normal_key(before, key, desk, term_width, now_ms, after, fx),
    ensures
        ({
            let mode = after.ui.mode;
            &&& mode == AppMode::Help <==> fires_action(before, key, desk, Action::HelpToggle)
            &&& mode == AppMode::Archive <==> fires_action(before, key, desk, Action::ViewArchive)
            &&& mode == AppMode::Reports <==> fires_action(before, key, desk, Action::Reports)
            &&& mode == AppMode::ConfirmDelete <==> fires_action(
                before,
                key,
                desk,
                Action::DeleteTask,
            ) && before.ui.focused_task_id is Some
            &&& mode == AppMode::InputPrompt <==> fires_action(
                before,
                key,
                desk,
                Action::AddDependency,
            ) && before.ui.focused_task_id is Some
            &&& mode != AppMode::TaskEditor && mode != AppMode::ProjectRename && mode
                != AppMode::DiffReview && mode != AppMode::ConfigEditor
        }),
{
}

/// The next project is the one behind the active one, the first behind the last;
/// the previous one is the one before it, the last before the first.
pub proof fn law_project_keys_go_round(
    before: AppState,
    key: KeyEvent,
    desk: Desk,
    term_width: u16,
    now_ms: u64,
    after: AppState,
    fx: Seq<Effect<Seq<char>>>,
    at: int,
)
    requires
        normal_key(before, key, desk, term_width, now_ms, after, fx),
        before.project_registry.projects@.len() > 1,
        projects::ids_differ(before.project_registry.projects@),
        0 <= at < before.project_registry.projects@.len(),
        before.project_registry.active_project_id is Some,
        before.project_registry.active_project_id->0@ == before.project_registry.projects@[at].id@,
    ensures
        ({
            let all = before.project_registry.projects@;
            let next = fires_action(before, key, desk, Action::NextProject);
            let prev = fires_action(before, key, desk, Action::PrevProject);
            &&& next ==> fx == seq![
                Effect::SelectProject {
                    project_id: all[if at + 1 < all.len() {
                        at + 1
                    } else {
                        0
                    }].id@,
                },
            ]
            &&& prev ==> fx == seq![
                Effect::SelectProject {
                    project_id: all[if at > 0 {
                        at - 1
                    } else {
                        all.len() - 1
                    }].id@,
                },
            ]
        }),
{
    let all = before.project_registry.projects@;
    projects::lemma_place_of(all, at, 0);
    let n = all.len() as int;
    assert(projects::active_place(before) == at);
    vstd::arithmetic::div_mod::lemma_small_mod(at as nat, n as nat);
    if at + 1 < n {
        vstd::arithmetic::div_mod::lemma_small_mod((at + 1) as nat, n as nat);
    } else {
        vstd::arithmetic::div_mod::lemma_mod_self_0(n);
    }
    if at > 0 {
        vstd::arithmetic::div_mod::lemma_small_mod((at - 1) as nat, n as nat);
    } else {
        vstd::arithmetic::div_mod::lemma_mod_add_multiples_vanish(-1, n);
        vstd::arithmetic::div_mod::lemma_small_mod((n - 1) as nat, n as nat);
    }
}

// ─── Laws of the detail view ──────────────────────────────────────────────

/// In the detail view `y` approves and `n` rejects the first permission that
/// waits in the session in view, and neither does anything else.
pub proof fn law_y_approves_and_n_rejects(
    before: AppState,
    key: KeyEvent,
    desk: Desk,
    term_width: u16,
    now_ms: u64,
    after: AppState,
    fx: Seq<Effect<Seq<char>>>,
)
    requires
        layer_of(before, key) == Layer::Permission,
        normal_key(before, key, desk, term_width, now_ms, after, fx),
    ensures
        after == before,
        fx.len() <= 1,
        forall|i: int|
            0 <= i < fx.len() ==> #[trigger] fx[i] == (Effect::ResolvePermission {
                project_id: before.project_registry.active_project_id->0@,
                session_id: permission::effective(before)->0.pending_permissions@[0].session_id@,
                permission_id: permission::effective(before)->0.pending_permissions@[0].id@,
                task_id: before.ui.viewing_task_id->0@,
                approve: key.code == KeyCode::Char('y'),
            }),
        key.code == KeyCode::Char('y') || key.code == KeyCode::Char('n'),
        permission::effective(before) is Some && permission::effective(
            before,
        )->0.pending_permissions@.len() > 0 && before.ui.viewing_task_id is Some
            && desk.clients.serves_active(&before.project_registry) ==> fx.len() == 1,
{
}

/// In the detail view a digit answers the first question that waits in the
/// session in view with the answer at that place, counted from one.
pub proof fn law_digits_name_answers(
    before: AppState,
    key: KeyEvent,
    desk: Desk,
    term_width: u16,
    now_ms: u64,
    after: AppState,
    fx: Seq<Effect<Seq<char>>>,
    d: char,
)
    requires
        layer_of(before, key) == Layer::Question,
        key.code == KeyCode::Char(d),
        normal_key(before, key, desk, term_width, now_ms, after, fx),
    ensures
        after == before,
        '1' <= d <= '9',
        fx.len() <= 1,
        forall|i: int|
            0 <= i < fx.len() ==> ({
                let q = permission::effective(before)->0.pending_questions@[0];
                &&& q.answers@.len() > d as int - '1' as int
                &&& #[trigger] fx[i] == (Effect::ResolveQuestion {
                    project_id: before.project_registry.active_project_id->0@,
                    session_id: q.session_id@,
                    question_id: q.id@,
                    answer: q.answers@[d as int - '1' as int]@,
                    task_id: before.ui.viewing_task_id->0@,
                })
            }),
        answers(before, key) && desk.clients.serves_active(&before.project_registry) ==> fx.len()
            == 1,
{
}

/// In the open modal `y` approves and `n` rejects the permission that waits,
/// whatever is selected; where none waits they do nothing.
pub proof fn law_modal_y_approves_and_n_rejects(
    before: AppState,
    key: KeyEvent,
    desk: Desk,
    term_width: u16,
    now_ms: u64,
    after: AppState,
    fx: Seq<Effect<Seq<char>>>,
)
    requires
        layer_of(before, key) == Layer::Modal,
        key.code == KeyCode::Char('y') || key.code == KeyCode::Char('n'),
        normal_key(before, key, desk, term_width, now_ms, after, fx),
    ensures
        forall|i: int|
            0 <= i < fx.len() && (#[trigger] fx[i]) is ResolvePermission ==> fx[i]
                == (Effect::ResolvePermission {
                project_id: before.project_registry.active_project_id->0@,
                session_id: permission::effective(before)->0.pending_permissions@[0].session_id@,
                permission_id: permission::effective(before)->0.pending_permissions@[0].id@,
                task_id: before.ui.viewing_task_id->0@,
                approve: key.code == KeyCode::Char('y'),
            }),
        forall|i: int| 0 <= i < fx.len() ==> !((#[trigger] fx[i]) is ResolveQuestion),
        permission::permission_waits(before) && desk.clients.serves_active(
            &before.project_registry,
        ) ==> fx.len() == 1 && fx[0] is ResolvePermission,
        !permission::permission_waits(before) ==> fx.len() == 0,
{
}

/// In the open modal the key for down selects the option below, that for up the
/// one above, within the options, and nothing is confirmed by that.
pub proof fn law_modal_selection_moves(
    before: AppState,
    key: KeyEvent,
    desk: Desk,
    term_width: u16,
    now_ms: u64,
    after: AppState,
    fx: Seq<Effect<Seq<char>>>,
)
    requires
        layer_of(before, key) == Layer::Modal,
        before.ui.permission_modal_selected_index < permission::option_count(before) <= usize::MAX,
        normal_key(before, key, desk, term_width, now_ms, after, fx),
    ensures
        ({
            let at = before.ui.permission_modal_selected_index as int;
            let now = after.ui.permission_modal_selected_index as int;
            let n = permission::option_count(before);
            let down = key.code == KeyCode::Down || key.code == KeyCode::Char('j');
            let up = key.code == KeyCode::Up || key.code == KeyCode::Char('k');
            &&& down ==> now == if at + 1 < n {
                at + 1
            } else {
                at
            }
            &&& up ==> now == if at > 0 {
                at - 1
            } else {
                at
            }
            &&& down || up ==> fx.len() == 0 && after.ui.permission_modal_active
        }),
{
}

/// In the open modal Enter decides by what is selected, and a digit answers the
/// question with the answer at that place, counted from one.
pub proof fn law_modal_answers_what_is_chosen(
    before: AppState,
    key: KeyEvent,
    desk: Desk,
    term_width: u16,
    now_ms: u64,
    after: AppState,
    fx: Seq<Effect<Seq<char>>>,
    i: int,
)
    requires
        layer_of(before, key) == Layer::Modal,
        before.ui.permission_modal_selected_index < permission::option_count(before),
        normal_key(before, key, desk, term_width, now_ms, after, fx),
        0 <= i < fx.len(),
        fx[i] is ResolveQuestion,
    ensures
        !permission::permission_waits(before),
        ({
            let q = permission::effective(before)->0.pending_questions@[0];
            let chosen = match key.code {
                KeyCode::Char(d) => d as int - '1' as int,
                _ => before.ui.permission_modal_selected_index as int,
            };
            &&& 0 <= chosen < q.answers@.len()
            &&& fx[i] == (Effect::ResolveQuestion {
                project_id: before.project_registry.active_project_id->0@,
                session_id: q.session_id@,
                question_id: q.id@,
                answer: q.answers@[chosen]@,
                task_id: before.ui.viewing_task_id->0@,
            })
        }),
{
}

/// Escape goes one level up: from a subagent to the session above it, from the
/// task out of the detail view.
pub proof fn law_escape_goes_one_level_up(
    before: AppState,
    key: KeyEvent,
    desk: Desk,
    term_width: u16,
    now_ms: u64,
    after: AppState,
    fx: Seq<Effect<Seq<char>>>,
)
    requires
        layer_of(before, key) == Layer::Back,
        normal_key(before, key, desk, term_width, now_ms, after, fx),
    ensures
        after == before,
        fx.len() == 1,
        fx[0] is PopDrilldown <==> before.ui.session_nav_stack@.len() > 0,
        fx[0] is CloseTaskDetail <==> before.ui.session_nav_stack@.len() == 0,
{
}

/// The output scrolls a line up with the keys for up, a line down with those for
/// down, to its first line with `g` and to its end with `G`; at the end it is
/// followed.
pub proof fn law_output_scrolls_as_the_key_says(current: Option<usize>, total: nat, code: KeyCode)
    requires
        total > 0,
        total <= usize::MAX,
    ensures
        ({
            let now = output_scrolled(current, total, code);
            let up = code == KeyCode::Up || code == KeyCode::Char('k');
            let down = code == KeyCode::Down || code == KeyCode::Char('j');
            &&& up ==> now is Some && match current {
                Some(i) => now->0 == if i > 0 {
                    i - 1
                } else {
                    0
                },
                None => now->0 == 0,
            }
            &&& down ==> match current {
                Some(i) => if i + 2 < total {
                    now is Some && now->0 == i + 1
                } else {
                    now is None
                },
                None => now is None,
            }
            &&& code == KeyCode::Char('g') ==> now is Some && now->0 == 0
            &&& code == KeyCode::Char('G') ==> now is None
            &&& up && current is Some && 0 < current->0 && current->0 + 1 < total
                ==> output_scrolled(now, total, KeyCode::Down) == current
        }),
{
}

/// In the list of changed files the keys for down select the file below, those
/// for up the one above, within the list; Enter asks for the diff of the selected
/// file; and Tab and Escape give the focus to the prompt input.
pub proof fn law_changed_files_keys(
    before: AppState,
    key: KeyEvent,
    desk: Desk,
    term_width: u16,
    now_ms: u64,
    after: AppState,
    fx: Seq<Effect<Seq<char>>>,
)
    requires
        layer_of(before, key) == Layer::ChangedFiles,
        key.modifiers == KeyModifiers::none(),
        before.ui.changed_files is Some,
        before.ui.selected_changed_file_index < before.ui.changed_files->0@.len() <= usize::MAX,
        normal_key(before, key, desk, term_width, now_ms, after, fx),
    ensures
        ({
            let files = before.ui.changed_files->0@;
            let at = before.ui.selected_changed_file_index as int;
            let now = after.ui.selected_changed_file_index as int;
            let down = key.code == KeyCode::Down || key.code == KeyCode::Char('j');
            let up = key.code == KeyCode::Up || key.code == KeyCode::Char('k');
            &&& down ==> now == if at + 1 < files.len() {
                at + 1
            } else {
                at
            }
            &&& up ==> now == if at > 0 {
                at - 1
            } else {
                at
            }
            &&& forall|i: int|
                0 <= i < fx.len() ==> key.code == KeyCode::Enter && ({
                    let t = tasks::task_of(before, before.ui.viewing_task_id->0@)->0;
                    #[trigger] fx[i] == (Effect::FileDiff {
                        working_dir: before.project_registry.working_dir(t.project_id@)->0,
                        path: files[at].path@,
                        task_number: t.number,
                    })
                })
            &&& key.code == KeyCode::Tab || key.code == KeyCode::Esc
                ==> !after.ui.changed_files_focused && (before.ui.detail_editor is Some
                ==> after.ui.detail_editor is Some && after.ui.detail_editor->0.is_focused)
        }),
{
}

/// A prompt goes where the agent can take it: to a busy agent it waits with the
/// task, to an agent at rest it is sent to the session of the task, and to a
/// failed or hung one it goes not at all and stays in the input.
pub proof fn law_prompts_go_where_they_are_taken(
    before: AppState,
    clients: Clients,
    after: AppState,
    fx: Seq<Effect<Seq<char>>>,
    id: String,
)
    requires
        submitted(before, clients, after, fx),
        before.ui.viewing_task_id == Some(id),
        tasks::task_of(before, id@) is Some,
        prompt_text(before).len() > 0,
    ensures
        ({
            let t = tasks::task_of(before, id@)->0;
            let s = t.agent_status;
            let busy = s is Running || s is Pending;
            let rests = s is Ready || s is Complete || s is Question;
            &&& busy ==> after.tasks@.contains_key(id@) && state::opt_view(
                after.tasks@[id@].queued_prompt,
            ) == Some(prompt_text(before))
            &&& rests && t.session_id is Some && clients.serves(t.project_id@) ==> fx.contains(
                Effect::SendPrompt {
                    project_id: t.project_id@,
                    session_id: t.session_id->0@,
                    prompt: prompt_text(before),
                    agent: state::opt_view(t.agent_type),
                },
            )
            &&& !rests ==> forall|i: int| 0 <= i < fx.len() ==> !((#[trigger] fx[i]) is SendPrompt)
            &&& !busy ==> after.tasks@ == before.tasks@
            &&& !busy && !rests ==> after.ui.detail_editor == before.ui.detail_editor && fx.len()
                == 1 && fx[0] is Notify
            &&& rests && t.session_id is Some ==> fx.contains(
                Effect::SetAgentStatus { task_id: id@, status: AgentStatus::Running },
            )
        }),
{
    let t = tasks::task_of(before, id@)->0;
    if t.session_id is Some && (t.agent_status is Ready || t.agent_status is Complete
        || t.agent_status is Question) {
        assert(fx[0] == (Effect::SetAgentStatus {
            task_id: id@,
            status: AgentStatus::Running,
        }));
        if clients.serves(t.project_id@) {
            assert(fx[2] == (Effect::SendPrompt {
                project_id: t.project_id@,
                session_id: t.session_id->0@,
                prompt: prompt_text(before),
                agent: state::opt_view(t.agent_type),
            }));
        }
    }
}

/// Leaving the prompt input by the keys for saving, cancelling or the next field
/// keeps what is in it and sends nothing; the key for a new line submits it.
pub proof fn law_leaving_the_input_keeps_the_text(
    before: AppState,
    key: KeyEvent,
    action: EditorKeyAction,
    clients: Clients,
    after: AppState,
    fx: Seq<Effect<Seq<char>>>,
)
    requires
        before.ui.detail_editor is Some,
        input_key(before, key, Some(action), clients, after, fx),
    ensures
        action is Save || action is Cancel || action is CycleField ==> fx.len() == 0
            && after.ui.detail_editor is Some && !after.ui.detail_editor->0.is_focused
            && after.ui.detail_editor->0.page() == before.ui.detail_editor->0.page(),
        action is Newline && !key.is_command() ==> submitted(before, clients, after, fx),
{
}

/// A model that names its provider is used as it is; any other stands behind its
/// provider and a slash, and an agent without a model of its own uses the default.
pub proof fn law_model_names_a_provider(
    agent_model: Option<Seq<char>>,
    provider: Option<Seq<char>>,
    default_model: Seq<char>,
)
    ensures
        ({
            let m = model_for(agent_model, provider, default_model);
            let name = match agent_model {
                Some(a) => a,
                None => default_model,
            };
            &&& m.len() >= name.len() && m.skip(m.len() - name.len()) == name
            &&& agent_model is Some && text::holds(agent_model->0, "/"@) ==> m == agent_model->0
            &&& provider is Some && !(agent_model is Some && text::holds(agent_model->0, "/"@))
                ==> m.len() == provider->0.len() + 1 + name.len() && m.take(
                provider->0.len() as int,
            ) == provider->0 && m[provider->0.len() as int] == '/'
        }),
{
    reveal_strlit("/");
    let m = model_for(agent_model, provider, default_model);
    let name = match agent_model {
        Some(a) => a,
        None => default_model,
    };
    assert(m.skip(m.len() - name.len()) =~= name);
    if provider is Some && !(agent_model is Some && text::holds(agent_model->0, "/"@)) {
        assert(m.take(provider->0.len() as int) =~= provider->0);
    }
}

/// A layer of normal mode asks for nothing but what it is for.
pub proof fn law_layers_ask_for_what_they_are_for(
    before: AppState,
    key: KeyEvent,
    desk: Desk,
    term_width: u16,
    now_ms: u64,
    after: AppState,
    fx: Seq<Effect<Seq<char>>>,
    i: int,
)
    requires
        layer_of(before, key) != Layer::Binding,
        normal_key(before, key, desk, term_width, now_ms, after, fx),
        0 <= i < fx.len(),
    ensures
        match layer_of(before, key) {
            Layer::DetailEditor => fx[i] is Notify || fx[i] is SetAgentStatus || fx[i]
                is SendPrompt,
            Layer::ChangedFiles => fx[i] is FileDiff,
            Layer::Modal => fx[i] is Notify || fx[i] is ResolvePermission || fx[i]
                is ResolveQuestion,
            Layer::Back => fx[i] is PopDrilldown || fx[i] is CloseTaskDetail,
            Layer::Permission => fx[i] is ResolvePermission,
            Layer::Question => fx[i] is ResolveQuestion,
            Layer::Breaker => fx[i] is ResetBreaker,
            _ => false,
        },
{
}

/// A prompt that is sent becomes the active one of its session; one that waits
/// leaves the sessions alone. Either way the input is empty afterwards and no
/// longer has the focus.
pub proof fn law_taken_prompts_leave_the_input(
    before: AppState,
    clients: Clients,
    after: AppState,
    fx: Seq<Effect<Seq<char>>>,
    id: String,
)
    requires
        submitted(before, clients, after, fx),
        before.ui.detail_editor is Some,
        before.ui.viewing_task_id == Some(id),
        tasks::task_of(before, id@) is Some,
        prompt_text(before).len() > 0,
    ensures
        ({
            let t = tasks::task_of(before, id@)->0;
            let s = t.agent_status;
            let busy = s is Running || s is Pending;
            let sent = (s is Ready || s is Complete || s is Question) && t.session_id is Some;
            &&& busy || sent ==> after.ui.detail_editor is Some
                && !after.ui.detail_editor->0.is_focused && page::joined(
                after.ui.detail_editor->0.page().lines,
            ).len() == 0
            &&& busy ==> after.session_tracker == before.session_tracker
            &&& sent && before.session_tracker.task_sessions@.contains_key(t.session_id->0@)
                ==> state::opt_view(
                after.session_tracker.task_sessions@[t.session_id->0@].active_prompt,
            ) == Some(prompt_text(before))
        }),
{
}

/// Tab in the detail view gives the focus to the changed files, where there are
/// any and they do not have it, and else to the prompt input; it never leaves it
/// with both.
pub proof fn law_tab_cycles_through_the_detail_view(before: AppState)
    requires
        before.ui.detail_editor is Some,
        !before.ui.detail_editor->0.is_focused,
    ensures
        ({
            let after = focus_cycled(before);
            let files = before.ui.changed_files is Some && before.ui.changed_files->0@.len() > 0;
            let input = after.ui.detail_editor is Some && after.ui.detail_editor->0.is_focused;
            &&& files && !before.ui.changed_files_focused <==> after.ui.changed_files_focused
            &&& input <==> !after.ui.changed_files_focused
            &&& after.ui.detail_editor->0.page() == before.ui.detail_editor->0.page()
        }),
{
}

/// Control with `r` resets the circuit breaker of the active project and of no
/// other.
pub proof fn law_control_r_resets_the_breaker(
    before: AppState,
    key: KeyEvent,
    desk: Desk,
    term_width: u16,
    now_ms: u64,
    after: AppState,
    fx: Seq<Effect<Seq<char>>>,
)
    requires
        before.ui.focused_panel == FocusedPanel::Kanban,
        !before.ui.permission_modal_active,
        normal_key(before, key, desk, term_width, now_ms, after, fx),
    ensures
        key.code == KeyCode::Char('r') && key.modifiers.control && !key.modifiers.shift
            && !key.modifiers.alt && key.modifiers.others == 0
            && before.project_registry.active_project_id is Some ==> fx == seq![
            Effect::ResetBreaker {
                project_id: before.project_registry.active_project_id->0@,
            },
        ],
{
}

/// A review is decided on only of a task that stands in the review column and
/// awaits a decision: on any other, neither key commits or moves anything.
pub proof fn law_only_waiting_reviews_are_decided(
    before: AppState,
    key: KeyEvent,
    desk: Desk,
    term_width: u16,
    now_ms: u64,
    after: AppState,
    fx: Seq<Effect<Seq<char>>>,
    id: String,
    i: int,
)
    requires
        fires_action(before, key, desk, Action::AcceptReview) || fires_action(
            before,
            key,
            desk,
            Action::RejectReview,
        ),
        normal_key(before, key, desk, term_width, now_ms, after, fx),
        looked_at(before, id),
        0 <= i < fx.len(),
        !(fx[i] is Notify),
    ensures
        tasks::task_of(before, id@) is Some,
        tasks::task_of(before, id@)->0.column@ == "review"@,
        tasks::task_of(before, id@)->0.review_status is AwaitingDecision,
{
}

/// Keys that edit the prompt do what they say to its text: a character is typed,
/// Backspace and Delete erase before and behind the cursor, and the arrow keys,
/// Home and End only move it.
pub proof fn law_input_keys_edit(a: TaskEditorState, key: KeyEvent, b: TaskEditorState)
    requires
        input_edited(a, key, b),
    ensures
        key.code is Char ==> b.page() == a.page().typed(key.code->Char_0),
        key.code == KeyCode::Backspace ==> b.page() == a.page().erased_back(),
        key.code == KeyCode::Delete ==> b.page() == a.page().erased_forward(),
        key.code == KeyCode::Up ==> b.page() == a.page().moved(page::CursorDirection::Up),
        key.code == KeyCode::Down ==> b.page() == a.page().moved(page::CursorDirection::Down),
        key.code == KeyCode::Left ==> b.page() == a.page().moved(page::CursorDirection::Left),
        key.code == KeyCode::Right ==> b.page() == a.page().moved(page::CursorDirection::Right),
        key.code == KeyCode::Home ==> b.page() == a.page().moved(page::CursorDirection::Home),
        key.code == KeyCode::End ==> b.page() == a.page().moved(page::CursorDirection::End),
{
}

/// A permission or a question is decided on in the detail view alone, and only
/// where the active project has a connection.
pub proof fn law_decisions_need_a_connection(
    before: AppState,
    key: KeyEvent,
    desk: Desk,
    term_width: u16,
    now_ms: u64,
    after: AppState,
    fx: Seq<Effect<Seq<char>>>,
    i: int,
)
    requires
        normal_key(before, key, desk, term_width, now_ms, after, fx),
        layer_of(before, key) == Layer::Modal || layer_of(before, key) == Layer::Permission
            || layer_of(before, key) == Layer::Question,
        0 <= i < fx.len(),
        fx[i] is ResolvePermission || fx[i] is ResolveQuestion,
    ensures
        before.project_registry.active_project_id is Some,
        desk.clients.serves(before.project_registry.active_project_id->0@),
        before.ui.focused_panel == FocusedPanel::TaskDetail,
{
}

/// On the board, with no modal open, every key goes to the bindings but Control
/// with `r`, which resets the circuit breaker.
pub proof fn law_board_keys_reach_the_bindings(state: AppState, key: KeyEvent)
    requires
        state.ui.focused_panel == FocusedPanel::Kanban,
        !state.ui.permission_modal_active,
    ensures
        ({
            let m = key.modifiers;
            let resets = key.code == KeyCode::Char('r') && m.control && !m.shift && !m.alt
                && m.others == 0;
            &&& resets ==> layer_of(state, key) == Layer::Breaker
            &&& !resets ==> layer_of(state, key) == Layer::Binding
        }),
{
}

/// While the prompt input has the focus every key goes to it; while the list of
/// changed files has it, every key but Tab goes to that; while the modal is open
/// and neither has the focus, every other key goes to the modal.
pub proof fn law_focus_takes_the_keys(state: AppState, key: KeyEvent)
    requires
        state.ui.focused_panel == FocusedPanel::TaskDetail,
    ensures
        ({
            let input = state.ui.detail_editor is Some && state.ui.detail_editor->0.is_focused;
            &&& input ==> layer_of(state, key) == Layer::DetailEditor
            &&& !input && state.ui.changed_files_focused && key.code != KeyCode::Tab ==> layer_of(
                state,
                key,
            ) == Layer::ChangedFiles
            &&& !input && !state.ui.changed_files_focused && state.ui.permission_modal_active
                && key.code != KeyCode::Tab ==> layer_of(state, key) == Layer::Modal
        }),
{
}

/// In the detail view, with nothing else in focus, Escape leads back, `y` and `n`
/// decide, the arrow keys up and down scroll, and a digit answers a question that
/// has such an answer.
pub proof fn law_detail_keys_have_their_layers(state: AppState, key: KeyEvent)
    requires
        state.ui.focused_panel == FocusedPanel::TaskDetail,
        !input_focused(state),
        !state.ui.changed_files_focused,
        !state.ui.permission_modal_active,
    ensures
        key.code == KeyCode::Esc ==> layer_of(state, key) == Layer::Back,
        key.code == KeyCode::Char('y') || key.code == KeyCode::Char('n') ==> layer_of(state, key)
            == Layer::Permission,
        (key.code == KeyCode::Up || key.code == KeyCode::Down || key.code == KeyCode::Char('j')
            || key.code == KeyCode::Char('k') || key.code == KeyCode::Char('g')) && key.modifiers
            == KeyModifiers::none() ==> layer_of(state, key) == Layer::Scroll,
        key.code == KeyCode::Char('G') && (key.modifiers == KeyModifiers::none() || key.modifiers
            == KeyModifiers::shift()) ==> layer_of(state, key) == Layer::Scroll,
        key.code is Char && '1' <= key.code->Char_0 <= '9' && state.ui.viewing_task_id is Some
            && permission::effective(state) is Some && permission::effective(
            state,
        )->0.pending_questions@.len() > 0 && permission::effective(
            state,
        )->0.pending_questions@[0].answers@.len() > key.code->Char_0 as int - '1' as int
            ==> layer_of(state, key) == Layer::Question,
{
}

/// A key press never takes back that a new frame was asked for.
pub proof fn law_asked_frames_stay_asked_for(
    before: AppState,
    key: KeyEvent,
    desk: Desk,
    term_width: u16,
    now_ms: u64,
    after: AppState,
    fx: Seq<Effect<Seq<char>>>,
)
    requires
        normal_key(before, key, desk, term_width, now_ms, after, fx),
        before.render_dirty,
    ensures
        after.render_dirty,
{
}

} // verus!
