//! Keys, mouse and the modal on a small board.

use cortex::app::{
    after_upkeep, handle_key_event, open_modal_if_needed, perform_local, prepare_frame,
};
use cortex::config::{BoardSize, ColumnDefinition, ColumnsConfig, KeybindingConfig};
use cortex::editor::TaskEditorState;
use cortex::effects::Effect;
use cortex::keys::{EditorKeyMatcher, KeyCode, KeyEvent, KeyMatcher, KeyModifiers};
use cortex::mouse::{
    ensure_column_visible, handle_mouse_event, max_visible_columns, try_step,
    update_focused_task_id, MouseEvent, MouseKind,
};
use cortex::normal::{
    breaker_reset, find_layer, handle_normal_key, is_confirming, prompt_failed, prompt_model, Desk, Layer,
};
use cortex::permission::{get_modal_option_count, is_task_known};
use cortex::state::{
    AgentStatus, AppMode, AppState, ChangedFileInfo, Clients, CortexTask, FileChangeStatus,
    FocusedPanel, KanbanState, NotificationVariant, PermissionRequest, Project, ProjectRegistry,
    ProjectStatus, QuestionRequest, ReviewStatus, SessionRef, SessionTracker, TaskDetailSession,
    UiState,
};
use cortex::table::Table;

fn table<V>(entries: Vec<(&str, V)>) -> Table<V> {
    let mut t = Table::new();
    for (k, v) in entries {
        t.insert(k.to_string(), v);
    }
    t
}

fn task(id: &str, number: u32, column: &str, status: AgentStatus) -> CortexTask {
    CortexTask {
        id: id.to_string(),
        number,
        project_id: "p1".to_string(),
        column: column.to_string(),
        description: format!("task {}", number),
        agent_status: status,
        agent_type: None,
        session_id: None,
        review_status: ReviewStatus::Pending,
        queued_prompt: None,
        error_message: None,
        pending_permission_count: 0,
        pending_question_count: 0,
        blocked_by: Vec::new(),
        created_at: 0,
        entered_column_at: 0,
        last_activity_at: 0,
    }
}

fn project(id: &str, name: &str) -> Project {
    Project {
        id: id.to_string(),
        name: name.to_string(),
        working_directory: "/work".to_string(),
        status: ProjectStatus::Idle,
    }
}

fn session(task_id: &str) -> TaskDetailSession {
    TaskDetailSession {
        session_id: Some("s1".to_string()),
        task_id: task_id.to_string(),
        streaming_text: None,
        messages: Vec::new(),
        pending_permissions: Vec::new(),
        pending_questions: Vec::new(),
        active_prompt: None,
        render_version: 0,
    }
}

/// A board with two projects, and three tasks in two of its columns.
fn board() -> AppState {
    AppState {
        tasks: table(vec![
            ("t1", task("t1", 1, "todo", AgentStatus::Pending)),
            ("t2", task("t2", 2, "todo", AgentStatus::Pending)),
            ("t3", task("t3", 3, "running", AgentStatus::Running)),
        ]),
        kanban: KanbanState {
            columns: table(vec![
                ("todo", vec!["t1".to_string(), "t2".to_string()]),
                ("running", vec!["t3".to_string()]),
            ]),
            focused_task_index: Table::new(),
            focused_column_index: 0,
            kanban_scroll_offset: 0,
        },
        ui: UiState {
            mode: AppMode::Normal,
            focused_panel: FocusedPanel::Kanban,
            focused_column: "todo".to_string(),
            focused_task_id: Some("t1".to_string()),
            viewing_task_id: None,
            detail_editor: None,
            task_editor: None,
            changed_files: None,
            changed_files_focused: false,
            selected_changed_file_index: 0,
            permission_modal_active: false,
            permission_modal_selected_index: 0,
            permission_modal_dismissed_at: None,
            user_scroll_offset: None,
            session_nav_stack: Vec::new(),
            input_text: String::new(),
            input_cursor: 0,
            prompt_label: String::new(),
            prompt_context: None,
            pending_delete_task_id: None,
            confirm_action: None,
            diff_review: None,
            diff_review_source: None,
            reports: None,
            archive_state: None,
            config_editor_state: None,
            notifications: Vec::new(),
        },
        session_tracker: SessionTracker {
            task_sessions: Table::new(),
            subagent_session_data: Table::new(),
            subagent_sessions: Table::new(),
            subagent_to_parent: Table::new(),
            cached_streaming_lines: Table::new(),
        },
        project_registry: ProjectRegistry {
            projects: vec![project("p1", "Alpha"), project("p2", "Beta")],
            active_project_id: Some("p1".to_string()),
        },
        render_dirty: false,
    }
}

fn columns() -> ColumnsConfig {
    let column = |id: &str, name: &str, agent: Option<&str>, visible: bool| ColumnDefinition {
        id: id.to_string(),
        display_name: name.to_string(),
        agent: agent.map(|a| a.to_string()),
        auto_progress_to: None,
        visible,
    };
    ColumnsConfig {
        definitions: vec![
            column("todo", "Todo", None, true),
            column("planning", "Plan", Some("planning"), true),
            column("running", "Run", Some("do"), true),
            column("review", "Review", None, true),
            column("done", "Done", None, false),
        ],
    }
}

fn clients() -> Clients {
    Clients { projects: vec!["p1".to_string()] }
}

fn notice(message: &str, variant: NotificationVariant, duration_ms: u64) -> Effect<String> {
    Effect::Notify { message: message.to_string(), variant, duration_ms }
}

fn plain(ch: char) -> KeyEvent {
    KeyEvent::new(KeyCode::Char(ch), KeyModifiers::none())
}

fn press(code: KeyCode) -> KeyEvent {
    KeyEvent::new(code, KeyModifiers::none())
}

fn ctrl(ch: char) -> KeyEvent {
    KeyEvent::new(KeyCode::Char(ch), KeyModifiers::control())
}

fn desk() -> Desk {
    let config = KeybindingConfig::default();
    Desk {
        key_matcher: KeyMatcher::from_config(&config),
        editor_key_matcher: EditorKeyMatcher::from_config(&config.editor),
        columns: columns(),
        board: BoardSize { sidebar_width: 20, column_width: 30 },
        clients: clients(),
    }
}

fn normal(state: &mut AppState, key: KeyEvent) -> Vec<Effect<String>> {
    handle_normal_key(state, key, &desk(), 120, 1_000).list
}

// ── Documented keys ─────────────────────────────────────────────────

#[test]
fn n_opens_the_editor_in_the_focused_column() {
    let mut state = board();
    assert_eq!(
        normal(&mut state, plain('n')),
        vec![Effect::OpenTaskEditor { column_id: "todo".to_string() }]
    );
    assert_eq!(state, board());
}

#[test]
fn m_moves_the_task_forward_and_starts_the_agent() {
    let mut state = board();
    assert_eq!(
        normal(&mut state, plain('m')),
        vec![
            Effect::MoveTask { task_id: "t1".to_string(), column: "planning".to_string() },
            Effect::DispatchAgent { task_id: "t1".to_string(), column: "planning".to_string() },
        ]
    );
}

#[test]
fn v_and_enter_open_the_task() {
    for key in [plain('v'), press(KeyCode::Enter)] {
        let mut state = board();
        let fx = normal(&mut state, key);
        assert_eq!(fx[0], Effect::OpenTaskDetail { task_id: "t1".to_string() });
    }
}

#[test]
fn e_edits_and_v_views_the_focused_task() {
    let mut state = board();
    assert_eq!(
        normal(&mut state, plain('e')),
        vec![Effect::EditTask { task_id: "t1".to_string() }]
    );
    assert_eq!(
        normal(&mut state, plain('v')),
        vec![
            Effect::OpenTaskDetail { task_id: "t1".to_string() },
            Effect::SetDiffReviewSource { panel: FocusedPanel::TaskDetail },
        ]
    );
    state.ui.focused_task_id = None;
    assert_eq!(
        normal(&mut state, plain('e')),
        vec![notice("No task selected", NotificationVariant::Info, 2000)]
    );
}

#[test]
fn x_asks_before_deleting() {
    let mut state = board();
    assert!(normal(&mut state, plain('x')).is_empty());
    assert_eq!(state.ui.mode, AppMode::ConfirmDelete);
    assert_eq!(state.ui.pending_delete_task_id.as_deref(), Some("t1"));
}

#[test]
fn question_mark_shows_help_and_any_key_closes_it() {
    let mut state = board();
    assert!(normal(&mut state, plain('?')).is_empty());
    assert_eq!(state.ui.mode, AppMode::Help);
    let fx = handle_key_event(&mut state, plain('x'), &desk(), &Vec::new(), 120, 1_000);
    assert!(fx.list.is_empty());
    assert_eq!(state.ui.mode, AppMode::Normal);
    assert!(state.render_dirty);
    assert_eq!(state.ui.pending_delete_task_id, None);
}

#[test]
fn ctrl_q_quits() {
    let mut state = board();
    assert_eq!(normal(&mut state, ctrl('q')), vec![Effect::Quit]);
}

#[test]
fn navigation_moves_focus_and_comes_back() {
    let mut state = board();
    normal(&mut state, plain('j'));
    assert_eq!(state.ui.focused_task_id.as_deref(), Some("t2"));
    normal(&mut state, plain('j'));
    assert_eq!(state.ui.focused_task_id.as_deref(), Some("t2"));
    normal(&mut state, plain('k'));
    assert_eq!(state.ui.focused_task_id.as_deref(), Some("t1"));

    assert_eq!(
        normal(&mut state, plain('l')),
        vec![Effect::SetFocusedColumn { column_id: "planning".to_string() }]
    );
    assert_eq!(state.kanban.focused_column_index, 1);
    assert_eq!(
        normal(&mut state, plain('h')),
        vec![Effect::SetFocusedColumn { column_id: "todo".to_string() }]
    );
    assert!(normal(&mut state, plain('h')).is_empty());
    assert_eq!(state.kanban.focused_column_index, 0);
}

#[test]
fn unbound_keys_change_nothing() {
    for key in [plain('z'), press(KeyCode::F(1)), ctrl('z')] {
        let mut state = board();
        assert!(normal(&mut state, key).is_empty());
        assert_eq!(state, board());
    }
}

#[test]
fn ctrl_r_resets_the_breaker_of_the_active_project() {
    let mut state = board();
    assert_eq!(
        normal(&mut state, ctrl('r')),
        vec![Effect::ResetBreaker { project_id: "p1".to_string() }]
    );
    state.project_registry.active_project_id = None;
    assert!(normal(&mut state, ctrl('r')).is_empty());
    assert_eq!(
        breaker_reset(true).list,
        vec![notice(
            "Circuit breaker reset — auto-progression resumed.",
            NotificationVariant::Success,
            3000
        )]
    );
    assert_eq!(
        breaker_reset(false).list,
        vec![notice("Circuit breaker was not tripped.", NotificationVariant::Info, 2000)]
    );
}

// ── Layers of normal mode ───────────────────────────────────────────

fn detail() -> AppState {
    let mut state = board();
    state.ui.focused_panel = FocusedPanel::TaskDetail;
    state.ui.viewing_task_id = Some("t1".to_string());
    let mut editor = TaskEditorState::new_for_create("todo", Vec::new());
    editor.is_focused = false;
    state.ui.detail_editor = Some(editor);
    state
}

fn focused_detail(text: &str) -> AppState {
    let mut state = detail();
    let editor = state.ui.detail_editor.as_mut().unwrap();
    editor.set_description(text);
    editor.is_focused = true;
    state
}

#[test]
fn layers_are_tried_in_order() {
    let mut state = focused_detail("");
    state.ui.changed_files_focused = true;
    state.ui.permission_modal_active = true;
    assert_eq!(find_layer(&state, plain('y')), Layer::DetailEditor);
    state.ui.detail_editor.as_mut().unwrap().is_focused = false;
    assert_eq!(find_layer(&state, press(KeyCode::Tab)), Layer::FocusCycle);
    assert_eq!(find_layer(&state, plain('y')), Layer::ChangedFiles);
    state.ui.changed_files_focused = false;
    assert_eq!(find_layer(&state, plain('y')), Layer::Modal);
    state.ui.permission_modal_active = false;
    assert_eq!(find_layer(&state, press(KeyCode::Esc)), Layer::Back);
    assert_eq!(find_layer(&state, plain('j')), Layer::Scroll);
    assert_eq!(find_layer(&state, plain('y')), Layer::Permission);
    assert_eq!(find_layer(&state, plain('1')), Layer::Binding);
    assert_eq!(find_layer(&state, ctrl('r')), Layer::Breaker);
    assert_eq!(find_layer(&state, plain('x')), Layer::Binding);
}

#[test]
fn typing_goes_into_the_prompt() {
    let mut state = focused_detail("");
    assert!(normal(&mut state, plain('x')).is_empty());
    assert!(normal(&mut state, plain('?')).is_empty());
    let editor = state.ui.detail_editor.as_ref().unwrap();
    assert_eq!(editor.description(), "x?");
    assert_eq!(state.ui.mode, AppMode::Normal);
    assert!(normal(&mut state, press(KeyCode::Esc)).is_empty());
    assert!(!state.ui.detail_editor.as_ref().unwrap().is_focused);
}

#[test]
fn an_empty_prompt_is_not_submitted() {
    let mut state = focused_detail("   ");
    assert!(normal(&mut state, press(KeyCode::Enter)).is_empty());
    assert_eq!(state, focused_detail("   "));
}

#[test]
fn a_prompt_waits_while_the_agent_is_busy() {
    let mut state = focused_detail(" go on ");
    assert_eq!(
        normal(&mut state, press(KeyCode::Enter)),
        vec![notice(
            "Prompt queued — will be sent after current prompt completes",
            NotificationVariant::Info,
            3000
        )]
    );
    assert_eq!(state.tasks.get("t1").unwrap().queued_prompt.as_deref(), Some("go on"));
    assert_eq!(state.tasks.get("t2").unwrap().queued_prompt, None);
    let editor = state.ui.detail_editor.as_ref().unwrap();
    assert_eq!(editor.description(), "");
    assert!(!editor.is_focused);
}

#[test]
fn a_prompt_is_sent_to_an_agent_at_rest() {
    let mut state = focused_detail("go on");
    {
        let t = state.tasks.get_mut("t1").unwrap();
        t.agent_status = AgentStatus::Ready;
        t.session_id = Some("s1".to_string());
        t.agent_type = Some("do".to_string());
    }
    state.session_tracker.task_sessions = table(vec![("s1", session("t1"))]);
    assert_eq!(
        normal(&mut state, press(KeyCode::Enter)),
        vec![
            Effect::SetAgentStatus { task_id: "t1".to_string(), status: AgentStatus::Running },
            notice("Sending prompt...", NotificationVariant::Info, 2000),
            Effect::SendPrompt {
                project_id: "p1".to_string(),
                session_id: "s1".to_string(),
                prompt: "go on".to_string(),
                agent: Some("do".to_string()),
            },
        ]
    );
    let s = state.session_tracker.task_sessions.get("s1").unwrap();
    assert_eq!(s.active_prompt.as_deref(), Some("go on"));
    assert_eq!(s.render_version, 1);
}

#[test]
fn a_prompt_cannot_be_sent_without_a_session_or_to_a_failed_agent() {
    for (status, message, ms) in [
        (AgentStatus::Complete, "No active session — cannot send prompt", 3000),
        (AgentStatus::Error, "Cannot send prompt to errored agent", 3000),
        (AgentStatus::Hung, "Agent appears hung — try aborting first (ctrl+a)", 5000),
    ] {
        let mut state = focused_detail("go on");
        state.tasks.get_mut("t1").unwrap().agent_status = status;
        assert_eq!(
            normal(&mut state, press(KeyCode::Enter)),
            vec![notice(message, NotificationVariant::Warning, ms)]
        );
        assert_eq!(state.ui.detail_editor.as_ref().unwrap().description(), "go on");
    }
}

#[test]
fn the_model_of_a_prompt() {
    let some = |s: &str| Some(s.to_string());
    assert_eq!(prompt_model(&some("a/b"), &None, "glm"), "a/b");
    assert_eq!(prompt_model(&some("b"), &None, "glm"), "z.ai/b");
    assert_eq!(prompt_model(&some("b"), &some("acme"), "glm"), "acme/b");
    assert_eq!(prompt_model(&None, &some("acme"), "glm"), "acme/glm");
    assert_eq!(prompt_model(&None, &None, "glm"), "z.ai/glm");
    let mut state = board();
    assert_eq!(
        prompt_failed(&mut state, "gone").list,
        vec![notice("Failed to send prompt: gone", NotificationVariant::Error, 5000)]
    );
    assert!(state.render_dirty);
}

#[test]
fn tab_cycles_through_the_detail_view() {
    let mut state = detail();
    state.ui.changed_files = Some(vec![ChangedFileInfo {
        path: "a.rs".to_string(),
        old_path: None,
        status: FileChangeStatus::Modified,
        additions: 1,
        deletions: 0,
    }]);
    normal(&mut state, press(KeyCode::Tab));
    assert!(state.ui.changed_files_focused);
    normal(&mut state, press(KeyCode::Tab));
    assert!(!state.ui.changed_files_focused);
    assert!(state.ui.detail_editor.as_ref().unwrap().is_focused);
    normal(&mut state, press(KeyCode::Tab));
    assert!(!state.ui.detail_editor.as_ref().unwrap().is_focused);
}

#[test]
fn changed_files_keep_the_selection_inside() {
    let mut state = detail();
    let file = |path: &str| ChangedFileInfo {
        path: path.to_string(),
        old_path: None,
        status: FileChangeStatus::Added,
        additions: 0,
        deletions: 0,
    };
    state.ui.changed_files = Some(vec![file("a"), file("b")]);
    state.ui.changed_files_focused = true;
    for (key, at) in [('k', 0), ('j', 1), ('j', 1), ('k', 0)] {
        normal(&mut state, plain(key));
        assert_eq!(state.ui.selected_changed_file_index, at);
    }
    let before = state.ui.selected_changed_file_index;
    assert!(normal(&mut state, plain('q')).is_empty());
    assert_eq!(state.ui.selected_changed_file_index, before);
    normal(&mut state, press(KeyCode::Esc));
    assert!(!state.ui.changed_files_focused);
}

#[test]
fn escape_leaves_the_detail_view_one_level_at_a_time() {
    let mut state = detail();
    assert_eq!(normal(&mut state, press(KeyCode::Esc)), vec![Effect::CloseTaskDetail]);
    state.ui.session_nav_stack.push(SessionRef {
        task_id: "t1".to_string(),
        session_id: "sub".to_string(),
        label: "sub".to_string(),
        depth: 1,
    });
    assert_eq!(normal(&mut state, press(KeyCode::Esc)), vec![Effect::PopDrilldown]);
}

#[test]
fn output_scrolls_between_its_first_and_last_line() {
    let mut state = detail();
    state.session_tracker.cached_streaming_lines = table(vec![("t1", 5)]);
    let mut at = |state: &mut AppState, key: KeyEvent| {
        normal(state, key);
        state.ui.user_scroll_offset
    };
    assert_eq!(at(&mut state, plain('j')), None);
    assert_eq!(at(&mut state, plain('k')), Some(0));
    assert_eq!(at(&mut state, plain('j')), Some(1));
    assert_eq!(at(&mut state, plain('j')), Some(2));
    assert_eq!(at(&mut state, plain('j')), Some(3));
    assert_eq!(at(&mut state, plain('j')), None);
    assert_eq!(at(&mut state, plain('g')), Some(0));
    let shift_g = KeyEvent::new(KeyCode::Char('G'), KeyModifiers::shift());
    assert_eq!(at(&mut state, shift_g), None);
    state.session_tracker.cached_streaming_lines = Table::new();
    assert_eq!(at(&mut state, plain('k')), None);
}

fn permission(id: &str) -> PermissionRequest {
    PermissionRequest {
        id: id.to_string(),
        session_id: "s1".to_string(),
        tool_name: "bash".to_string(),
        description: "run tests".to_string(),
        details: None,
    }
}

fn question() -> QuestionRequest {
    QuestionRequest {
        id: "q1".to_string(),
        session_id: "s1".to_string(),
        question: "Which?".to_string(),
        answers: vec!["left".to_string(), "right".to_string()],
    }
}

#[test]
fn y_and_n_decide_a_permission_and_nothing_else() {
    for (key, approve) in [('y', true), ('n', false)] {
        let mut state = detail();
        let mut s = session("t1");
        s.pending_permissions.push(permission("perm1"));
        state.session_tracker.task_sessions = table(vec![("t1", s)]);
        assert_eq!(
            normal(&mut state, plain(key)),
            vec![Effect::ResolvePermission {
                project_id: "p1".to_string(),
                session_id: "s1".to_string(),
                permission_id: "perm1".to_string(),
                task_id: "t1".to_string(),
                approve,
            }]
        );
    }
    let mut state = detail();
    assert!(normal(&mut state, plain('n')).is_empty());
}

#[test]
fn digits_answer_a_question() {
    let mut state = detail();
    let mut s = session("t1");
    s.pending_questions.push(question());
    state.session_tracker.task_sessions = table(vec![("t1", s)]);
    assert_eq!(
        normal(&mut state, plain('2')),
        vec![Effect::ResolveQuestion {
            project_id: "p1".to_string(),
            session_id: "s1".to_string(),
            question_id: "q1".to_string(),
            answer: "right".to_string(),
            task_id: "t1".to_string(),
        }]
    );
    assert!(normal(&mut state, plain('3')).is_empty());
    assert_eq!(find_layer(&state, plain('3')), Layer::Question);
    assert_eq!(find_layer(&state, plain('0')), Layer::Binding);
}

// ── The modal ───────────────────────────────────────────────────────

fn modal() -> AppState {
    let mut state = detail();
    let mut s = session("t1");
    s.pending_permissions.push(permission("perm1"));
    state.session_tracker.task_sessions = table(vec![("t1", s)]);
    state.ui.permission_modal_active = true;
    state
}

#[test]
fn modal_selection_stays_among_the_options() {
    let mut state = modal();
    state.ui.permission_modal_selected_index = 9;
    for (key, at) in [('z', 1), ('j', 1), ('k', 0), ('k', 0), ('j', 1)] {
        assert!(normal(&mut state, plain(key)).is_empty());
        assert_eq!(state.ui.permission_modal_selected_index, at);
    }
    assert_eq!(get_modal_option_count(&state), 2);
}

#[test]
fn the_open_modal_holds_other_keys_back() {
    for key in [plain('z'), plain('x'), ctrl('q'), plain('9')] {
        let mut state = modal();
        assert!(!is_confirming(&state, key));
        assert!(normal(&mut state, key).is_empty());
        assert_eq!(state, modal());
    }
    let mut state = modal();
    state.ui.viewing_task_id = None;
    assert!(normal(&mut state, plain('z')).is_empty());
    assert!(is_confirming(&modal(), press(KeyCode::Enter)));
    assert!(is_confirming(&modal(), plain('y')));
    assert!(is_task_known(&modal(), &clients()));
}

#[test]
fn only_the_first_option_approves() {
    for (at, approve) in [(0, true), (1, false)] {
        let mut state = modal();
        state.ui.permission_modal_selected_index = at;
        let fx = normal(&mut state, press(KeyCode::Enter));
        assert_eq!(
            fx[0],
            Effect::ResolvePermission {
                project_id: "p1".to_string(),
                session_id: "s1".to_string(),
                permission_id: "perm1".to_string(),
                task_id: "t1".to_string(),
                approve,
            }
        );
    }
}

#[test]
fn a_dismissed_modal_stays_closed_for_five_seconds() {
    let mut state = modal();
    handle_normal_key(&mut state, press(KeyCode::Esc), &desk(), 120, 10_000);
    assert!(!state.ui.permission_modal_active);
    assert!(prepare_frame(&mut state, 14_999));
    assert!(!state.ui.permission_modal_active);
    state.mark_render_dirty();
    assert!(prepare_frame(&mut state, 15_000));
    assert!(state.ui.permission_modal_active);
    assert!(!prepare_frame(&mut state, 20_000));
}

#[test]
fn the_modal_opens_only_in_the_detail_view_when_something_waits() {
    let mut state = modal();
    state.ui.permission_modal_active = false;
    state.ui.focused_panel = FocusedPanel::Kanban;
    open_modal_if_needed(&mut state, 0);
    assert!(!state.ui.permission_modal_active);
    state.ui.focused_panel = FocusedPanel::TaskDetail;
    state.ui.mode = AppMode::Help;
    open_modal_if_needed(&mut state, 0);
    assert!(!state.ui.permission_modal_active);
    state.ui.mode = AppMode::Normal;
    open_modal_if_needed(&mut state, 0);
    assert!(state.ui.permission_modal_active);

    let mut quiet = detail();
    open_modal_if_needed(&mut quiet, 0);
    assert!(!quiet.ui.permission_modal_active);
}

#[test]
fn upkeep_reports_hung_agents() {
    let mut state = board();
    assert!(after_upkeep(&mut state, false, false, 0, 60).list.is_empty());
    assert!(!state.render_dirty);
    assert_eq!(
        after_upkeep(&mut state, false, false, 2, 600).list,
        vec![notice(
            "2 task(s) marked as Hung — no activity for 600s",
            NotificationVariant::Warning,
            5000
        )]
    );
    assert!(state.render_dirty);
    let mut state = board();
    after_upkeep(&mut state, true, false, 0, 60);
    assert!(state.render_dirty);
}

#[test]
fn local_effects_change_the_state_and_others_are_handed_back() {
    let mut state = board();
    assert_eq!(
        perform_local(&mut state, Effect::FocusTask { task_id: "t2".to_string() }),
        None
    );
    assert_eq!(state.ui.focused_task_id.as_deref(), Some("t2"));
    let column = Effect::FocusColumn { column_id: "running".to_string(), index: 2 };
    assert_eq!(perform_local(&mut state, column), None);
    assert_eq!(state.ui.focused_column, "running");
    assert_eq!(state.kanban.focused_column_index, 2);
    let status = Effect::SetReviewStatus {
        task_id: "t3".to_string(),
        status: ReviewStatus::Approved,
    };
    assert_eq!(perform_local(&mut state, status), None);
    assert_eq!(state.tasks.get("t3").unwrap().review_status, ReviewStatus::Approved);
    let source = Effect::SetDiffReviewSource { panel: FocusedPanel::TaskDetail };
    assert_eq!(perform_local(&mut state, source), None);
    assert_eq!(state.ui.diff_review_source, Some(FocusedPanel::TaskDetail));
    state.ui.permission_modal_active = true;
    assert_eq!(
        perform_local(&mut state, Effect::SyncModal { task_id: "t1".to_string() }),
        None
    );
    assert!(!state.ui.permission_modal_active);
    assert_eq!(perform_local(&mut state, Effect::Quit), Some(Effect::Quit));
}

// ── Mouse and columns ───────────────────────────────────────────────

fn click(column: u16, row: u16) -> MouseEvent {
    MouseEvent { kind: MouseKind::LeftDown, column, row }
}

#[test]
fn clicks_focus_columns_and_cards() {
    let size = BoardSize { sidebar_width: 20, column_width: 30 };
    let visible = columns().visible_column_ids();
    assert_eq!(visible, vec!["todo", "planning", "running", "review"]);
    let mut state = board();
    let fx = handle_mouse_event(&mut state, click(25, 9), Some((160, 40)), size, &visible);
    assert_eq!(
        fx.list,
        vec![
            Effect::SetFocusedColumn { column_id: "todo".to_string() },
            Effect::FocusTask { task_id: "t2".to_string() },
        ]
    );
    assert_eq!(state.kanban.focused_task_index.get("todo"), Some(&1));
    let fx = handle_mouse_event(&mut state, click(85, 0), Some((160, 40)), size, &visible);
    assert_eq!(
        fx.list,
        vec![Effect::SetFocusedColumn { column_id: "running".to_string() }]
    );
    assert_eq!(state.kanban.focused_column_index, 2);
    for (x, y) in [(5, 5), (25, 38), (145, 5)] {
        let mut state = board();
        let fx = handle_mouse_event(&mut state, click(x, y), Some((160, 40)), size, &visible);
        assert!(fx.list.is_empty());
        assert_eq!(state, board());
    }
    let mut state = board();
    assert!(handle_mouse_event(&mut state, click(25, 5), None, size, &visible).list.is_empty());
    let wheel = MouseEvent { kind: MouseKind::ScrollDown, column: 0, row: 0 };
    handle_mouse_event(&mut state, wheel, None, size, &visible);
    assert_eq!(state.ui.focused_task_id.as_deref(), Some("t2"));
}

#[test]
fn the_focused_column_is_scrolled_into_view() {
    let size = BoardSize { sidebar_width: 20, column_width: 30 };
    assert_eq!(max_visible_columns(size, 120), 3);
    assert_eq!(max_visible_columns(size, 30), 1);
    let mut state = board();
    state.kanban.focused_column_index = 3;
    ensure_column_visible(&mut state, 4, 3);
    assert_eq!(state.kanban.kanban_scroll_offset, 1);
    ensure_column_visible(&mut state, 4, 3);
    assert_eq!(state.kanban.kanban_scroll_offset, 1);
    state.kanban.focused_column_index = 0;
    ensure_column_visible(&mut state, 4, 3);
    assert_eq!(state.kanban.kanban_scroll_offset, 0);
    state.kanban.kanban_scroll_offset = 2;
    ensure_column_visible(&mut state, 3, 3);
    assert_eq!(state.kanban.kanban_scroll_offset, 0);
    assert_eq!(try_step(0, -1, 3), None);
    assert_eq!(try_step(2, 1, 3), None);
    assert_eq!(try_step(1, 1, 3), Some(2));
}

#[test]
fn the_focused_task_follows_its_column() {
    let mut state = board();
    state.kanban.focused_task_index.insert("todo".to_string(), 7);
    update_focused_task_id(&mut state, "todo");
    assert_eq!(state.ui.focused_task_id.as_deref(), Some("t2"));
    update_focused_task_id(&mut state, "nowhere");
    assert_eq!(state.ui.focused_task_id.as_deref(), Some("t2"));
}

#[test]
fn handling_keys_leaves_columns_and_projects_alone() {
    for code in 32u8..127 {
        for modifiers in [KeyModifiers::none(), KeyModifiers::shift(), KeyModifiers::control()] {
            let mut state = detail();
            let key = KeyEvent::new(KeyCode::Char(code as char), modifiers);
            normal(&mut state, key);
            assert_eq!(state.kanban.columns, board().kanban.columns);
            assert_eq!(state.project_registry, board().project_registry);
            assert_eq!(state.tasks, board().tasks);
        }
    }
}
