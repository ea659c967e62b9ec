//! What the handlers ask for, and what follows when it has been done.

use cortex::config::{ColumnDefinition, ColumnsConfig};
use cortex::editor::TaskEditorState;
use cortex::effects::Effect;
use cortex::keys::{KeyCode, KeyEvent, KeyModifiers};
use cortex::modes::{
    config_saved, handle_archive_key, handle_config_editor_key, handle_confirm_delete_key,
    handle_diff_review_key, open_archive, open_config_editor, task_unarchived, ConfigOutcome,
};
use cortex::permission::{
    agent_completed, permission_resolved, question_resolved, reassessed, AgentCompletionAction,
};
use cortex::projects::{
    handle_delete_project, handle_next_project, handle_prev_project, project_removed,
    switch_project_offset,
};
use cortex::prompts::{
    dependency_added, handle_add_dependency, handle_editor_key, handle_input_prompt_key,
    handle_remove_dependency, handle_rename_key, handle_text_input, project_created,
    project_renamed, task_save_failed, task_saved, working_directory_set, InputPrompt,
};
use cortex::reports::{
    commits_loaded, compute_stats, format_duration, handle_reports_key, handle_reports_toggle,
    load_reports_data, log_error_message, parse_git_log, read_git_log, summarise, truncate_str,
};
use cortex::review::{
    add_error_message, commit_error_message, commit_message, commit_step, file_diff_done, handle_accept_review,
    handle_open_file_diff, handle_reject_review, handle_review_changes, review_diff_done,
    show_changes, show_file_diff, CommitEvent, CommitStep, GitOutcome,
};
use cortex::state::{
    AgentStatus, AppMode, AppState, ChangedFileInfo, Clients, CortexTask, FileChangeStatus,
    FocusedPanel, GitCommit, KanbanState, NotificationVariant, Project, ProjectRegistry,
    ProjectStatus, ReportsFocusedPane, ReviewStatus, SessionRef, SessionTracker,
    TaskDetailSession, TaskMessage, TaskMessagePart, TaskStats, UiState,
};
use cortex::subagent::{
    drill_down_step, find_drillable_subagent, handle_drill_down_subagent, subagent_fetched,
};
use cortex::table::Table;
use cortex::tasks::{
    abort_finished, dispatch_agent, execute_delete_task, handle_abort_session,
    handle_delete_task, handle_move_task, handle_open_task_detail, handle_retry_task,
    retry_reset, retry_started, review_directory, task_deleted,
};
use cortex::utils::{changed_files_loaded, parse_changed_files};

fn table<V>(entries: Vec<(&str, V)>) -> Table<V> {
    let mut t = Table::new();
    for (k, v) in entries {
        t.insert(k.to_string(), v);
    }
    t
}

fn task(id: &str, number: u32, column: &str, status: AgentStatus) -> CortexTask {
    CortexTask {
        id: id.to_string(),
        number,
        project_id: "p1".to_string(),
        column: column.to_string(),
        description: format!("task {}", number),
        agent_status: status,
        agent_type: None,
        session_id: None,
        review_status: ReviewStatus::Pending,
        queued_prompt: None,
        error_message: None,
        pending_permission_count: 0,
        pending_question_count: 0,
        blocked_by: Vec::new(),
        created_at: 0,
        entered_column_at: 0,
        last_activity_at: 0,
    }
}

fn project(id: &str, name: &str) -> Project {
    Project {
        id: id.to_string(),
        name: name.to_string(),
        working_directory: "/work".to_string(),
        status: ProjectStatus::Idle,
    }
}

fn session(task_id: &str) -> TaskDetailSession {
    TaskDetailSession {
        session_id: Some("s1".to_string()),
        task_id: task_id.to_string(),
        streaming_text: None,
        messages: Vec::new(),
        pending_permissions: Vec::new(),
        pending_questions: Vec::new(),
        active_prompt: None,
        render_version: 0,
    }
}

/// A board with two projects, and three tasks in two of its columns.
fn board() -> AppState {
    AppState {
        tasks: table(vec![
            ("t1", task("t1", 1, "todo", AgentStatus::Pending)),
            ("t2", task("t2", 2, "todo", AgentStatus::Pending)),
            ("t3", task("t3", 3, "running", AgentStatus::Running)),
        ]),
        kanban: KanbanState {
            columns: table(vec![
                ("todo", vec!["t1".to_string(), "t2".to_string()]),
                ("running", vec!["t3".to_string()]),
            ]),
            focused_task_index: Table::new(),
            focused_column_index: 0,
            kanban_scroll_offset: 0,
        },
        ui: UiState {
            mode: AppMode::Normal,
            focused_panel: FocusedPanel::Kanban,
            focused_column: "todo".to_string(),
            focused_task_id: Some("t1".to_string()),
            viewing_task_id: None,
            detail_editor: None,
            task_editor: None,
            changed_files: None,
            changed_files_focused: false,
            selected_changed_file_index: 0,
            permission_modal_active: false,
            permission_modal_selected_index: 0,
            permission_modal_dismissed_at: None,
            user_scroll_offset: None,
            session_nav_stack: Vec::new(),
            input_text: String::new(),
            input_cursor: 0,
            prompt_label: String::new(),
            prompt_context: None,
            pending_delete_task_id: None,
            confirm_action: None,
            diff_review: None,
            diff_review_source: None,
            reports: None,
            archive_state: None,
            config_editor_state: None,
            notifications: Vec::new(),
        },
        session_tracker: SessionTracker {
            task_sessions: Table::new(),
            subagent_session_data: Table::new(),
            subagent_sessions: Table::new(),
            subagent_to_parent: Table::new(),
            cached_streaming_lines: Table::new(),
        },
        project_registry: ProjectRegistry {
            projects: vec![project("p1", "Alpha"), project("p2", "Beta")],
            active_project_id: Some("p1".to_string()),
        },
        render_dirty: false,
    }
}

fn columns() -> ColumnsConfig {
    let column = |id: &str, name: &str, agent: Option<&str>, visible: bool| ColumnDefinition {
        id: id.to_string(),
        display_name: name.to_string(),
        agent: agent.map(|a| a.to_string()),
        auto_progress_to: None,
        visible,
    };
    ColumnsConfig {
        definitions: vec![
            column("todo", "Todo", None, true),
            column("planning", "Plan", Some("planning"), true),
            column("running", "Run", Some("do"), true),
            column("review", "Review", None, true),
            column("done", "Done", None, false),
        ],
    }
}

fn clients() -> Clients {
    Clients { projects: vec!["p1".to_string()] }
}

fn notice(message: &str, variant: NotificationVariant, duration_ms: u64) -> Effect<String> {
    Effect::Notify { message: message.to_string(), variant, duration_ms }
}

fn plain(ch: char) -> KeyEvent {
    KeyEvent::new(KeyCode::Char(ch), KeyModifiers::none())
}

fn press(code: KeyCode) -> KeyEvent {
    KeyEvent::new(code, KeyModifiers::none())
}

fn ctrl(ch: char) -> KeyEvent {
    KeyEvent::new(KeyCode::Char(ch), KeyModifiers::control())
}

// ─── Reviews ──────────────────────────────────────────────────────────────

const TWO_FILES: &str = "diff --git a/src/one.rs b/src/one.rs\n--- a/src/one.rs\n+++ b/src/one.rs\n@@ -1 +1,2 @@\n line\n+more\ndiff --git a/src/two.rs b/src/two.rs\n--- a/src/two.rs\n+++ b/src/two.rs\n@@ -4 +4 @@\n-old\n+new\n";

fn awaiting() -> AppState {
    let mut state = board();
    let t = state.tasks.get_mut("t1").unwrap();
    t.column = "review".to_string();
    t.agent_status = AgentStatus::Complete;
    t.review_status = ReviewStatus::AwaitingDecision;
    state
}

fn changed(path: &str) -> ChangedFileInfo {
    ChangedFileInfo {
        path: path.to_string(),
        old_path: None,
        status: FileChangeStatus::Modified,
        additions: 1,
        deletions: 0,
    }
}

#[test]
fn a_review_needs_a_finished_task_and_a_directory() {
    let mut state = board();
    assert_eq!(
        handle_review_changes(&mut state).list,
        vec![notice(
            "Cannot review — task is Pending (only Ready/Complete tasks can be reviewed)",
            NotificationVariant::Info,
            3000,
        )]
    );
    assert_eq!(state, board());

    let mut state = awaiting();
    assert_eq!(
        handle_review_changes(&mut state).list,
        vec![Effect::ReviewDiff { working_dir: "/work".to_string(), task_number: 1 }]
    );
    assert_eq!(state.ui.diff_review_source, Some(FocusedPanel::Kanban));

    let mut state = awaiting();
    state.project_registry.projects[0].working_directory = String::new();
    assert_eq!(
        handle_review_changes(&mut state).list,
        vec![notice(
            "No working directory configured for this project",
            NotificationVariant::Warning,
            3000,
        )]
    );

    let mut state = awaiting();
    state.ui.focused_task_id = None;
    assert_eq!(
        handle_review_changes(&mut state).list,
        vec![notice("No task selected", NotificationVariant::Info, 2000)]
    );
    state.ui.focused_task_id = Some("gone".to_string());
    assert_eq!(handle_review_changes(&mut state).list, vec![]);
}

#[test]
fn the_detail_view_reviews_the_task_it_shows() {
    let mut state = awaiting();
    state.ui.focused_panel = FocusedPanel::TaskDetail;
    state.ui.viewing_task_id = Some("t1".to_string());
    state.ui.focused_task_id = Some("t2".to_string());
    assert_eq!(
        handle_review_changes(&mut state).list,
        vec![Effect::ReviewDiff { working_dir: "/work".to_string(), task_number: 1 }]
    );
    assert_eq!(state.ui.diff_review_source, Some(FocusedPanel::TaskDetail));
    state.ui.focused_panel = FocusedPanel::Kanban;
    assert_eq!(
        handle_review_changes(&mut state).list,
        vec![notice(
            "Cannot review — task is Pending (only Ready/Complete tasks can be reviewed)",
            NotificationVariant::Info,
            3000,
        )]
    );
}

#[test]
fn a_diff_opens_the_review() {
    let mut state = board();
    let fx = review_diff_done(&mut state, 7, GitOutcome::Success(TWO_FILES.as_bytes().to_vec()));
    assert_eq!(fx.list, vec![]);
    assert_eq!(state.ui.mode, AppMode::DiffReview);
    let review = state.ui.diff_review.unwrap();
    assert_eq!(review.files.len(), 2);
    assert_eq!(review.files[0].path, "src/one.rs");
    assert_eq!(review.files[1].path, "src/two.rs");
    assert_eq!(review.selected_file_index, 0);
    assert_eq!(review.scroll_offset, 0);
    assert_eq!(review.error, None);
    assert_eq!(review.task_number, 7);
}

#[test]
fn nothing_to_review_is_said() {
    let mut state = board();
    let fx = review_diff_done(&mut state, 7, GitOutcome::Success(b" \n".to_vec()));
    assert_eq!(
        fx.list,
        vec![notice("No uncommitted changes to review", NotificationVariant::Info, 3000)]
    );
    assert_eq!(state, board());
}

#[test]
fn a_failed_diff_is_shown_as_an_error() {
    let mut state = board();
    let fx = review_diff_done(&mut state, 7, GitOutcome::Failure(b"fatal: \xff\n".to_vec()));
    assert_eq!(fx.list, vec![]);
    let review = state.ui.diff_review.unwrap();
    assert_eq!(review.files, vec![]);
    assert_eq!(review.error, Some("fatal: \u{fffd}\n".to_string()));

    let mut state = board();
    let fx = review_diff_done(&mut state, 7, GitOutcome::NotRun("no git".to_string()));
    assert_eq!(
        fx.list,
        vec![notice("Failed to run git diff: no git", NotificationVariant::Error, 3000)]
    );
    assert_eq!(state, board());
}

#[test]
fn the_diff_of_a_file_selects_that_file() {
    let mut state = awaiting();
    state.ui.viewing_task_id = Some("t1".to_string());
    assert_eq!(handle_open_file_diff(&state).list, vec![]);
    state.ui.changed_files = Some(vec![changed("src/one.rs"), changed("src/two.rs")]);
    state.ui.selected_changed_file_index = 9;
    assert_eq!(
        handle_open_file_diff(&state).list,
        vec![Effect::FileDiff {
            working_dir: "/work".to_string(),
            path: "src/two.rs".to_string(),
            task_number: 1,
        }]
    );

    let fx = file_diff_done(
        &mut state,
        "src/two.rs",
        1,
        GitOutcome::Success(TWO_FILES.as_bytes().to_vec()),
    );
    assert_eq!(fx.list, vec![]);
    assert_eq!(state.ui.mode, AppMode::DiffReview);
    assert_eq!(state.ui.diff_review_source, Some(FocusedPanel::TaskDetail));
    assert_eq!(state.ui.diff_review.as_ref().unwrap().selected_file_index, 1);

    show_file_diff(&mut state, TWO_FILES, "src/other.rs", 1);
    assert_eq!(state.ui.diff_review.as_ref().unwrap().selected_file_index, 0);

    let fx = file_diff_done(&mut state, "x", 1, GitOutcome::Failure(b"bad".to_vec()));
    assert_eq!(fx.list, vec![]);
    assert_eq!(state.ui.diff_review.as_ref().unwrap().error, Some("bad".to_string()));
    let fx = file_diff_done(&mut state, "x", 1, GitOutcome::NotRun("no git".to_string()));
    assert_eq!(
        fx.list,
        vec![notice("Failed to run git diff: no git", NotificationVariant::Error, 3000)]
    );
}

#[test]
fn accepting_marks_the_task_and_commits() {
    let state = awaiting();
    assert_eq!(
        handle_accept_review(&state).list,
        vec![
            Effect::SetReviewStatus {
                task_id: "t1".to_string(),
                status: ReviewStatus::Approved,
            },
            Effect::SetAgentStatus { task_id: "t1".to_string(), status: AgentStatus::Running },
            Effect::CommitReview {
                task_id: "t1".to_string(),
                task_number: 1,
                description: "task 1".to_string(),
                working_dir: "/work".to_string(),
            },
        ]
    );

    let mut state = awaiting();
    state.project_registry.projects[0].working_directory = String::new();
    assert_eq!(
        handle_accept_review(&state).list,
        vec![notice("No working directory configured", NotificationVariant::Warning, 3000)]
    );
    state.ui.focused_task_id = None;
    assert_eq!(
        handle_accept_review(&state).list,
        vec![notice("No task selected", NotificationVariant::Info, 2000)]
    );
}

#[test]
fn only_tasks_awaiting_a_decision_are_decided() {
    let mut state = board();
    assert_eq!(
        handle_accept_review(&state).list,
        vec![notice(
            "Cannot accept — task is not awaiting review",
            NotificationVariant::Info,
            3000,
        )]
    );
    assert_eq!(
        handle_reject_review(&mut state, &columns(), &clients()).list,
        vec![notice(
            "Cannot reject — task is not awaiting review",
            NotificationVariant::Info,
            3000,
        )]
    );
    assert_eq!(state, board());
}

#[test]
fn commit_messages() {
    assert_eq!(commit_message("fix the parser", 4), "feat: Fix the parser");
    assert_eq!(commit_message("", 4), "feat: task #4");
    assert_eq!(commit_message("élan", 4), "feat: élan");
    assert_eq!(commit_error_message(" nothing\n"), "git commit failed: nothing");
    assert_eq!(add_error_message(" locked\n"), "git add failed: locked");
}

#[test]
fn committing_goes_step_by_step() {
    let mut state = awaiting();
    let (step, fx) = commit_step(
        &mut state,
        "t1",
        1,
        CommitEvent::Added(GitOutcome::Success(Vec::new())),
    );
    assert_eq!((step, fx.list), (CommitStep::CheckStatus, vec![]));
    let (step, fx) = commit_step(
        &mut state,
        "t1",
        1,
        CommitEvent::Status(Some(b" M src/one.rs\n".to_vec())),
    );
    assert_eq!((step, fx.list), (CommitStep::Commit, vec![]));
    let (step, fx) = commit_step(&mut state, "t1", 1, CommitEvent::Status(None));
    assert_eq!((step, fx.list), (CommitStep::Commit, vec![]));
    assert_eq!(state, awaiting());

    let done = || {
        vec![
            Effect::MoveTask { task_id: "t1".to_string(), column: "done".to_string() },
            Effect::SetAgentStatus { task_id: "t1".to_string(), status: AgentStatus::Complete },
        ]
    };
    let (step, fx) = commit_step(
        &mut state,
        "t1",
        1,
        CommitEvent::Committed(GitOutcome::Success(Vec::new())),
    );
    let mut expected = done();
    expected.push(notice(
        "Task #1 committed and moved to done",
        NotificationVariant::Success,
        3000,
    ));
    assert_eq!((step, fx.list), (CommitStep::Finished, expected));
    assert!(state.render_dirty);

    let (step, fx) = commit_step(&mut state, "t1", 1, CommitEvent::Status(Some(Vec::new())));
    let mut expected = vec![notice(
        "No changes to commit — moving to done",
        NotificationVariant::Info,
        3000,
    )];
    expected.extend(done());
    assert_eq!((step, fx.list), (CommitStep::Finished, expected));
}

#[test]
fn a_failed_commit_opens_the_review_again() {
    let failures = vec![
        (
            CommitEvent::Added(GitOutcome::NotRun("no git".to_string())),
            "git add failed: no git",
        ),
        (
            CommitEvent::Added(GitOutcome::Failure(b" index.lock exists\n".to_vec())),
            "git add failed: index.lock exists",
        ),
        (
            CommitEvent::Committed(GitOutcome::Failure(b" hook declined \n".to_vec())),
            "git commit failed: hook declined",
        ),
        (
            CommitEvent::Committed(GitOutcome::NotRun("no git".to_string())),
            "git commit failed: no git",
        ),
    ];
    for (event, message) in failures {
        let mut state = awaiting();
        let t = state.tasks.get_mut("t1").unwrap();
        t.review_status = ReviewStatus::Approved;
        t.agent_status = AgentStatus::Running;
        let (step, fx) = commit_step(&mut state, "t1", 1, event);
        assert_eq!(step, CommitStep::Finished);
        assert_eq!(fx.list, vec![notice(message, NotificationVariant::Error, 5000)]);
        let mut expected = awaiting();
        expected.render_dirty = true;
        assert_eq!(state, expected);
    }
}

#[test]
fn rejecting_sends_the_task_back_to_work() {
    let mut state = awaiting();
    state.tasks.get_mut("t1").unwrap().agent_type = Some("do".to_string());
    let fx = handle_reject_review(&mut state, &columns(), &clients());
    let t1 = || "t1".to_string();
    let moved = || {
        vec![
            Effect::SetReviewStatus { task_id: t1(), status: ReviewStatus::Rejected },
            Effect::ClearSessionData { task_id: t1() },
            Effect::ForgetSession { task_id: t1() },
            Effect::MoveTask { task_id: t1(), column: "running".to_string() },
            Effect::SetReviewStatus { task_id: t1(), status: ReviewStatus::Pending },
            notice("Task #1 rejected — sent back for re-work", NotificationVariant::Info, 3000),
        ]
    };
    let mut expected = moved();
    expected.push(Effect::SetAgentStatus { task_id: t1(), status: AgentStatus::Running });
    expected.push(Effect::SetAgentType { task_id: t1(), agent: Some("do".to_string()) });
    expected.push(Effect::TaskMoved {
        project_id: "p1".to_string(),
        task_id: t1(),
        column: "running".to_string(),
        previous_agent: Some("do".to_string()),
    });
    assert_eq!(fx.list, expected);
    assert!(state.render_dirty);

    let mut state = awaiting();
    let fx = handle_reject_review(&mut state, &columns(), &Clients { projects: Vec::new() });
    let mut expected = moved();
    expected.push(notice(
        "No OpenCode client — agent dispatch skipped",
        NotificationVariant::Warning,
        3000,
    ));
    assert_eq!(fx.list, expected);
}

// ─── Tasks ────────────────────────────────────────────────────────────────

#[test]
fn opening_the_detail_view_loads_changes_of_finished_tasks() {
    let mut state = board();
    let opened = || {
        vec![
            Effect::OpenTaskDetail { task_id: "t1".to_string() },
            Effect::SetDiffReviewSource { panel: FocusedPanel::TaskDetail },
        ]
    };
    assert_eq!(handle_open_task_detail(&state).list, opened());
    state.tasks.get_mut("t1").unwrap().agent_status = AgentStatus::Ready;
    let mut expected = opened();
    expected.push(Effect::LoadChangedFiles {
        task_id: "t1".to_string(),
        working_dir: "/work".to_string(),
    });
    assert_eq!(handle_open_task_detail(&state).list, expected);
    assert_eq!(review_directory(&state, "t1"), Some("/work".to_string()));
    assert_eq!(review_directory(&state, "t2"), None);
    state.ui.focused_task_id = None;
    assert_eq!(
        handle_open_task_detail(&state).list,
        vec![notice("No task selected", NotificationVariant::Info, 2000)]
    );
}

#[test]
fn moving_past_the_ends_is_refused() {
    let mut state = board();
    let visible = columns().visible_column_ids();
    assert_eq!(visible, vec!["todo", "planning", "running", "review"]);
    assert_eq!(
        handle_move_task(&state, &visible, -1).list,
        vec![notice("Already at the first column", NotificationVariant::Warning, 2000)]
    );
    state.kanban.focused_column_index = 3;
    assert_eq!(
        handle_move_task(&state, &visible, 1).list,
        vec![notice("Already at the last column", NotificationVariant::Warning, 2000)]
    );
    assert_eq!(
        handle_move_task(&state, &visible, -1).list,
        vec![
            Effect::MoveTask { task_id: "t1".to_string(), column: "running".to_string() },
            Effect::DispatchAgent { task_id: "t1".to_string(), column: "running".to_string() },
        ]
    );
    state.ui.focused_task_id = None;
    assert_eq!(
        handle_move_task(&state, &visible, 1).list,
        vec![notice("No task selected to move", NotificationVariant::Warning, 2000)]
    );
}

#[test]
fn dispatching_needs_an_agent_a_project_and_a_connection() {
    let mut state = board();
    assert_eq!(dispatch_agent(&state, &columns(), &clients(), "t1", "todo").list, vec![]);
    assert_eq!(
        dispatch_agent(&state, &columns(), &clients(), "t1", "planning").list,
        vec![
            Effect::SetAgentStatus { task_id: "t1".to_string(), status: AgentStatus::Running },
            Effect::SetAgentType {
                task_id: "t1".to_string(),
                agent: Some("planning".to_string()),
            },
            Effect::TaskMoved {
                project_id: "p1".to_string(),
                task_id: "t1".to_string(),
                column: "planning".to_string(),
                previous_agent: None,
            },
        ]
    );
    assert_eq!(
        dispatch_agent(&state, &columns(), &Clients { projects: Vec::new() }, "t1", "planning")
            .list,
        vec![notice("No OpenCode client for this project", NotificationVariant::Warning, 3000)]
    );
    state.project_registry.active_project_id = None;
    assert_eq!(
        dispatch_agent(&state, &columns(), &clients(), "t1", "planning").list,
        vec![notice(
            "No active project — agent dispatch skipped",
            NotificationVariant::Warning,
            3000,
        )]
    );
}

#[test]
fn a_running_or_hung_task_is_not_dispatched_again() {
    let mut state = board();
    assert_eq!(dispatch_agent(&state, &columns(), &clients(), "t3", "planning").list, vec![]);
    state.tasks.get_mut("t3").unwrap().agent_status = AgentStatus::Hung;
    assert_eq!(
        dispatch_agent(&state, &columns(), &clients(), "t3", "planning").list,
        vec![notice(
            "Task is hung — abort the session before re-dispatching",
            NotificationVariant::Warning,
            5000,
        )]
    );
}

#[test]
fn deleting_asks_confirms_and_cleans_up() {
    let mut state = board();
    assert_eq!(handle_delete_task(&mut state).list, vec![]);
    assert_eq!(state.ui.mode, AppMode::ConfirmDelete);
    assert_eq!(state.ui.pending_delete_task_id, Some("t1".to_string()));
    assert_eq!(handle_confirm_delete_key(&mut state, plain('z')).list, vec![]);
    assert_eq!(state.ui.mode, AppMode::ConfirmDelete);
    assert_eq!(
        handle_confirm_delete_key(&mut state, plain('y')).list,
        vec![Effect::DeleteTask { task_id: "t1".to_string() }]
    );
    assert_eq!(state.ui.mode, AppMode::Normal);
    assert_eq!(state.ui.pending_delete_task_id, None);
    assert_eq!(execute_delete_task(&mut state).list, vec![]);

    state.ui.viewing_task_id = Some("t1".to_string());
    assert_eq!(
        task_deleted(&state, &clients(), "t1", Some("s1".to_string())).list,
        vec![
            Effect::ClampFocusedTask { column_id: "todo".to_string() },
            Effect::CloseTaskDetail,
            notice("Task deleted", NotificationVariant::Info, 3000),
            Effect::AbortSession { project_id: "p1".to_string(), session_id: "s1".to_string() },
        ]
    );
    state.ui.viewing_task_id = None;
    assert_eq!(
        task_deleted(&state, &clients(), "t1", None).list,
        vec![
            Effect::ClampFocusedTask { column_id: "todo".to_string() },
            notice("Task deleted", NotificationVariant::Info, 3000),
        ]
    );

    let mut state = board();
    handle_delete_task(&mut state);
    assert_eq!(handle_confirm_delete_key(&mut state, press(KeyCode::Esc)).list, vec![]);
    let mut expected = board();
    expected.render_dirty = true;
    assert_eq!(state, expected);

    state.ui.focused_task_id = None;
    assert_eq!(
        handle_delete_task(&mut state).list,
        vec![notice("No task selected to delete", NotificationVariant::Info, 2000)]
    );
}

#[test]
fn aborting_needs_a_session_and_a_connection() {
    let mut state = board();
    assert_eq!(
        handle_abort_session(&state, &clients()).list,
        vec![notice("No active session to abort", NotificationVariant::Info, 2000)]
    );
    state.tasks.get_mut("t1").unwrap().session_id = Some("s1".to_string());
    assert_eq!(
        handle_abort_session(&state, &clients()).list,
        vec![Effect::RequestAbort {
            project_id: "p1".to_string(),
            session_id: "s1".to_string(),
        }]
    );
    assert_eq!(
        handle_abort_session(&state, &Clients { projects: Vec::new() }).list,
        vec![notice("No client available to abort session", NotificationVariant::Error, 3000)]
    );
    assert_eq!(
        abort_finished(&mut state, "s1", true).list,
        vec![notice("Failed to abort session: s1", NotificationVariant::Error, 5000)]
    );
    assert!(state.render_dirty);
    assert_eq!(
        abort_finished(&mut state, "s1", false).list,
        vec![notice("Session abort requested: s1", NotificationVariant::Warning, 3000)]
    );
}

#[test]
fn only_hung_and_failed_tasks_are_retried() {
    let mut state = board();
    assert_eq!(
        handle_retry_task(&state, &columns(), &clients()).list,
        vec![notice(
            "Cannot retry — task status is Pending (only Hung/Error can be retried)",
            NotificationVariant::Info,
            3000,
        )]
    );
    state.tasks.get_mut("t1").unwrap().agent_status = AgentStatus::Error;
    assert_eq!(
        handle_retry_task(&state, &columns(), &clients()).list,
        vec![notice(
            "No agent configured for this column — cannot retry",
            NotificationVariant::Warning,
            3000,
        )]
    );
    assert_eq!(
        handle_retry_task(&state, &columns(), &Clients { projects: Vec::new() }).list,
        vec![notice("No OpenCode client for this project", NotificationVariant::Warning, 3000)]
    );
    state.tasks.get_mut("t3").unwrap().agent_status = AgentStatus::Hung;
    state.ui.focused_task_id = Some("t3".to_string());
    assert_eq!(
        handle_retry_task(&state, &columns(), &clients()).list,
        vec![Effect::RetryTask {
            project_id: "p1".to_string(),
            task_id: "t3".to_string(),
            session_id: None,
            column: "running".to_string(),
        }]
    );
    state.ui.focused_task_id = None;
    assert_eq!(
        handle_retry_task(&state, &columns(), &clients()).list,
        vec![notice("No task selected to retry", NotificationVariant::Info, 2000)]
    );
}

#[test]
fn a_retry_clears_what_the_last_run_left() {
    let mut state = board();
    let t = state.tasks.get_mut("t3").unwrap();
    t.error_message = Some("boom".to_string());
    t.pending_permission_count = 2;
    t.pending_question_count = 1;
    t.agent_type = Some("do".to_string());
    state.session_tracker.subagent_sessions = table(vec![
        ("t3", vec!["a".to_string(), "b".to_string()]),
        ("t1", vec!["c".to_string()]),
    ]);
    state.session_tracker.subagent_to_parent = table(vec![
        ("a", "t3".to_string()),
        ("b", "t3".to_string()),
        ("c", "t1".to_string()),
    ]);
    state.session_tracker.subagent_session_data =
        table(vec![("a", session("t3")), ("c", session("t1"))]);
    state.ui.viewing_task_id = Some("t3".to_string());
    state.ui.session_nav_stack = vec![SessionRef {
        task_id: "t3".to_string(),
        session_id: "a".to_string(),
        label: "Task #3 > do".to_string(),
        depth: 1,
    }];

    assert_eq!(
        retry_started("p1", "t3", "running").list,
        vec![
            Effect::ForgetSession { task_id: "t3".to_string() },
            Effect::ClearSessionData { task_id: "t3".to_string() },
            Effect::RetryReset {
                project_id: "p1".to_string(),
                task_id: "t3".to_string(),
                column: "running".to_string(),
            },
        ]
    );
    let fx = retry_reset(&mut state, "p1", "t3", "running");
    assert_eq!(
        fx.list,
        vec![
            Effect::SetAgentStatus { task_id: "t3".to_string(), status: AgentStatus::Running },
            Effect::UpdateProjectStatus { project_id: "p1".to_string() },
            Effect::CloseTaskDetail,
            Effect::TaskMoved {
                project_id: "p1".to_string(),
                task_id: "t3".to_string(),
                column: "running".to_string(),
                previous_agent: Some("do".to_string()),
            },
            notice("Task retry — re-dispatching agent", NotificationVariant::Success, 3000),
        ]
    );
    let t = state.tasks.get("t3").unwrap();
    assert_eq!(t.error_message, None);
    assert_eq!((t.pending_permission_count, t.pending_question_count), (0, 0));
    assert_eq!(
        state.session_tracker.subagent_sessions,
        table(vec![("t1", vec!["c".to_string()])])
    );
    assert_eq!(
        state.session_tracker.subagent_to_parent,
        table(vec![("c", "t1".to_string())])
    );
    assert_eq!(
        state.session_tracker.subagent_session_data,
        table(vec![("c", session("t1"))])
    );
    assert_eq!(state.ui.session_nav_stack, vec![]);
    assert!(state.render_dirty);
}

// ─── Projects ─────────────────────────────────────────────────────────────

#[test]
fn projects_go_round() {
    let mut state = board();
    let select = |id: &str| vec![Effect::SelectProject { project_id: id.to_string() }];
    assert_eq!(handle_next_project(&state).list, select("p2"));
    assert_eq!(handle_prev_project(&state).list, select("p2"));
    state.project_registry.active_project_id = Some("p2".to_string());
    assert_eq!(handle_next_project(&state).list, select("p1"));
    assert_eq!(handle_prev_project(&state).list, select("p1"));
    assert_eq!(switch_project_offset(&state, -3).list, select("p1"));
    assert_eq!(switch_project_offset(&state, i32::MIN).list, select("p2"));
    assert_eq!(switch_project_offset(&state, i32::MAX).list, select("p1"));
    state.project_registry.projects.pop();
    assert_eq!(handle_next_project(&state).list, vec![]);
}

#[test]
fn deleting_a_project_stops_its_sessions() {
    let mut state = board();
    state.tasks.get_mut("t3").unwrap().session_id = Some("s3".to_string());
    state.tasks.get_mut("t2").unwrap().session_id = Some("s2".to_string());
    state.tasks.get_mut("t2").unwrap().project_id = "p2".to_string();
    assert_eq!(
        handle_delete_project(&state, &clients()).list,
        vec![
            Effect::AbortSession { project_id: "p1".to_string(), session_id: "s3".to_string() },
            Effect::RemoveClient { project_id: "p1".to_string() },
            Effect::RemoveProject {
                project_id: "p1".to_string(),
                project_name: "Alpha".to_string(),
            },
        ]
    );
    assert_eq!(
        handle_delete_project(&state, &Clients { projects: Vec::new() }).list,
        vec![
            Effect::RemoveClient { project_id: "p1".to_string() },
            Effect::RemoveProject {
                project_id: "p1".to_string(),
                project_name: "Alpha".to_string(),
            },
        ]
    );
    state.project_registry.active_project_id = None;
    assert_eq!(
        handle_delete_project(&state, &clients()).list,
        vec![notice("No active project to delete", NotificationVariant::Info, 2000)]
    );

    state.project_registry.projects.remove(0);
    assert_eq!(
        project_removed(&state, "Alpha").list,
        vec![
            Effect::SelectProject { project_id: "p2".to_string() },
            notice("Project \"Alpha\" deleted", NotificationVariant::Info, 3000),
        ]
    );
    state.project_registry.projects.clear();
    assert_eq!(
        project_removed(&state, "Beta").list,
        vec![
            notice("Project \"Beta\" deleted", NotificationVariant::Info, 3000),
            notice(
                "All projects deleted. Press Ctrl+N to create a new one.",
                NotificationVariant::Info,
                10000,
            ),
        ]
    );
}

// ─── Subagents ────────────────────────────────────────────────────────────

fn agent(id: &str, name: &str) -> TaskMessagePart {
    TaskMessagePart::Agent { id: id.to_string(), agent: name.to_string() }
}

fn with_subagent() -> AppState {
    let mut state = board();
    state.ui.focused_panel = FocusedPanel::TaskDetail;
    state.ui.viewing_task_id = Some("t3".to_string());
    let mut s = session("t3");
    s.messages = vec![
        TaskMessage { parts: vec![TaskMessagePart::Other] },
        TaskMessage { parts: vec![TaskMessagePart::Other, agent("a", "planning")] },
    ];
    state.session_tracker.task_sessions = table(vec![("t3", s)]);
    state
}

fn step(session_id: &str, depth: u32) -> SessionRef {
    SessionRef {
        task_id: "t3".to_string(),
        session_id: session_id.to_string(),
        label: "Task #3 > planning".to_string(),
        depth,
    }
}

#[test]
fn the_first_subagent_is_drilled_into() {
    let mut state = with_subagent();
    assert_eq!(
        find_drillable_subagent(&state),
        Some(("a".to_string(), "planning".to_string(), "t3".to_string(), 1))
    );
    assert_eq!(
        handle_drill_down_subagent(&state).list,
        vec![Effect::DrillDown {
            session_id: "a".to_string(),
            agent: "planning".to_string(),
            task_id: "t3".to_string(),
            depth: 1,
        }]
    );
    state.ui.focused_panel = FocusedPanel::Kanban;
    assert_eq!(handle_drill_down_subagent(&state).list, vec![]);
    state.ui.focused_panel = FocusedPanel::TaskDetail;
    state.session_tracker.task_sessions = Table::new();
    assert_eq!(
        handle_drill_down_subagent(&state).list,
        vec![notice("No subagent to drill into", NotificationVariant::Info, 2000)]
    );
}

#[test]
fn no_subagent_is_drilled_into_twice() {
    let mut state = with_subagent();
    state.ui.session_nav_stack = vec![step("a", 1)];
    let mut s = session("t3");
    s.messages = vec![TaskMessage { parts: vec![agent("a", "planning"), agent("b", "do")] }];
    state.session_tracker.subagent_session_data = table(vec![("a", s)]);
    assert_eq!(
        find_drillable_subagent(&state),
        Some(("b".to_string(), "do".to_string(), "t3".to_string(), 2))
    );
    assert_eq!(
        drill_down_step(&state, &clients(), "a", "planning", "t3", 1).list,
        vec![]
    );
}

#[test]
fn messages_of_a_subagent_are_fetched_once() {
    let mut state = with_subagent();
    assert_eq!(
        drill_down_step(&state, &clients(), "a", "planning", "t3", 1).list,
        vec![Effect::FetchSubagent {
            project_id: "p1".to_string(),
            session_id: "a".to_string(),
            agent: "planning".to_string(),
            task_id: "t3".to_string(),
            depth: 1,
        }]
    );
    assert_eq!(
        drill_down_step(&state, &Clients { projects: Vec::new() }, "a", "planning", "t3", 1).list,
        vec![notice("No OpenCode client available", NotificationVariant::Warning, 3000)]
    );
    assert_eq!(
        subagent_fetched(&mut state, "a", "planning", "t3", 1, Err("gone".to_string())).list,
        vec![notice("Failed to load subagent: gone", NotificationVariant::Error, 3000)]
    );
    assert_eq!(state, with_subagent());

    let messages = vec![TaskMessage { parts: vec![TaskMessagePart::Other] }];
    let pushed = vec![Effect::PushDrilldown {
        task_id: "t3".to_string(),
        session_id: "a".to_string(),
        label: "Task #3 > planning".to_string(),
        depth: 1,
    }];
    let fx = subagent_fetched(&mut state, "a", "planning", "t3", 1, Ok(messages));
    assert_eq!(fx.list, pushed);
    let data = state.session_tracker.subagent_session_data.get("a").unwrap();
    assert_eq!(data.session_id, Some("a".to_string()));
    assert_eq!(data.task_id, "t3");
    assert_eq!(data.streaming_text, None);
    assert_eq!(data.messages.len(), 1);
    assert_eq!(data.render_version, 1);
    assert_eq!(
        drill_down_step(&state, &clients(), "a", "planning", "t3", 1).list,
        pushed
    );

    state.ui.session_nav_stack = vec![step("z", 1)];
    assert_eq!(
        drill_down_step(&state, &clients(), "a", "planning", "t3", 2).list,
        vec![Effect::PushDrilldown {
            task_id: "t3".to_string(),
            session_id: "a".to_string(),
            label: "planning".to_string(),
            depth: 2,
        }]
    );
}

// ─── Prompts ──────────────────────────────────────────────────────────────

fn prompting(context: &str, text: &str, cursor: usize) -> AppState {
    let mut state = board();
    state.ui.mode = AppMode::InputPrompt;
    state.ui.prompt_context = Some(context.to_string());
    state.ui.input_text = text.to_string();
    state.ui.input_cursor = cursor;
    state
}

fn edited(text: &str, cursor: usize, key: KeyEvent) -> (String, usize) {
    let mut state = prompting("set_working_directory", text, cursor);
    assert_eq!(handle_input_prompt_key(&mut state, key).list, vec![]);
    (state.ui.input_text, state.ui.input_cursor)
}

#[test]
fn lines_are_edited_by_character() {
    assert_eq!(edited("né", 2, plain('t')), ("nét".to_string(), 3));
    assert_eq!(edited("né", 9, plain('t')), ("nét".to_string(), 3));
    assert_eq!(edited("né", 1, plain('a')), ("naé".to_string(), 2));
    assert_eq!(edited("né", 2, press(KeyCode::Backspace)), ("n".to_string(), 1));
    assert_eq!(edited("né", 0, press(KeyCode::Backspace)), ("né".to_string(), 0));
    assert_eq!(edited("né", 9, press(KeyCode::Backspace)), ("né".to_string(), 8));
    assert_eq!(edited("né", 0, press(KeyCode::Delete)), ("é".to_string(), 0));
    assert_eq!(edited("né", 2, press(KeyCode::Delete)), ("né".to_string(), 2));
    assert_eq!(edited("né", 0, press(KeyCode::Left)), ("né".to_string(), 0));
    assert_eq!(edited("né", 2, press(KeyCode::Left)), ("né".to_string(), 1));
    assert_eq!(edited("né", 2, press(KeyCode::Right)), ("né".to_string(), 2));
    assert_eq!(edited("né", 1, press(KeyCode::Right)), ("né".to_string(), 2));
    assert_eq!(edited("né", 2, press(KeyCode::Home)), ("né".to_string(), 0));
    assert_eq!(edited("né", 0, press(KeyCode::End)), ("né".to_string(), 2));
    assert_eq!(edited("né", 1, press(KeyCode::Tab)), ("né".to_string(), 1));
}

#[test]
fn backspace_undoes_typing_in_a_prompt() {
    let mut state = prompting("set_working_directory", "/tmp", 2);
    handle_input_prompt_key(&mut state, plain('x'));
    handle_input_prompt_key(&mut state, press(KeyCode::Backspace));
    assert_eq!(state, prompting("set_working_directory", "/tmp", 2));
}

#[test]
fn prompts_submit_and_cancel() {
    let enter = |context: &str| {
        let mut state = prompting(context, "x", 1);
        handle_input_prompt_key(&mut state, press(KeyCode::Enter)).list
    };
    let escape = |context: &str| {
        let mut state = prompting(context, "x", 1);
        handle_input_prompt_key(&mut state, press(KeyCode::Esc)).list
    };
    assert_eq!(enter("set_working_directory"), vec![Effect::SubmitWorkingDirectory]);
    assert_eq!(enter("anything"), vec![Effect::SubmitWorkingDirectory]);
    assert_eq!(enter("new_project_directory"), vec![Effect::SubmitNewProjectDirectory]);
    assert_eq!(escape("set_working_directory"), vec![Effect::CancelWorkingDirectory]);
    assert_eq!(escape("new_project_directory"), vec![Effect::CancelNewProjectDirectory]);

    let mut state = prompting("", "x", 1);
    state.ui.prompt_context = None;
    assert_eq!(handle_input_prompt_key(&mut state, press(KeyCode::Enter)).list, vec![]);
    assert_eq!(
        handle_rename_key(&mut state, press(KeyCode::Enter)).list,
        vec![Effect::SubmitProjectRename]
    );
    assert_eq!(
        handle_text_input(&mut state, press(KeyCode::Esc), InputPrompt::RenameProject).list,
        vec![Effect::CancelProjectRename]
    );

    let mut state = prompting("add_dependency", "x", 1);
    assert_eq!(handle_input_prompt_key(&mut state, press(KeyCode::Esc)).list, vec![]);
    assert_eq!(state.ui.mode, AppMode::Normal);
    assert_eq!(state.ui.prompt_context, None);
}

#[test]
fn a_dependency_is_named_by_its_number() {
    let enter = |text: &str| {
        let mut state = prompting("add_dependency", text, 0);
        state.tasks.get_mut("t2").unwrap().project_id = "p2".to_string();
        handle_input_prompt_key(&mut state, press(KeyCode::Enter)).list
    };
    assert_eq!(
        enter(" 3 "),
        vec![Effect::AddDependency {
            task_id: "t1".to_string(),
            dependency_id: "t3".to_string(),
        }]
    );
    let missing = |n: &str| {
        vec![notice(
            &format!("Task #{} not found in current project", n),
            NotificationVariant::Warning,
            3000,
        )]
    };
    assert_eq!(enter("2"), missing("2"));
    assert_eq!(enter("03"), missing("03"));
    assert_eq!(
        enter("  "),
        vec![notice("Task number cannot be empty", NotificationVariant::Warning, 2000)]
    );
    assert_eq!(
        dependency_added(Ok(())).list,
        vec![notice("Dependency added", NotificationVariant::Success, 3000)]
    );
    assert_eq!(
        dependency_added(Err("cycle".to_string())).list,
        vec![notice("cycle", NotificationVariant::Warning, 3000)]
    );
}

#[test]
fn dependencies_are_asked_for_and_removed_from_the_end() {
    let mut state = board();
    assert_eq!(handle_add_dependency(&mut state).list, vec![]);
    assert_eq!(state.ui.mode, AppMode::InputPrompt);
    assert_eq!(state.ui.prompt_label, "Depends on task #: ");
    assert_eq!(state.ui.prompt_context, Some("add_dependency".to_string()));

    let mut state = board();
    assert_eq!(
        handle_remove_dependency(&mut state).list,
        vec![notice("No dependencies to remove", NotificationVariant::Info, 2000)]
    );
    state.tasks.get_mut("t1").unwrap().blocked_by = vec!["t2".to_string(), "t3".to_string()];
    assert_eq!(
        handle_remove_dependency(&mut state).list,
        vec![
            Effect::RemoveDependency {
                task_id: "t1".to_string(),
                dependency_id: "t3".to_string(),
            },
            notice("Removed dependency on task (by ID)", NotificationVariant::Info, 3000),
        ]
    );
    state.ui.focused_task_id = None;
    let none = vec![notice("No task selected", NotificationVariant::Info, 2000)];
    assert_eq!(handle_add_dependency(&mut state).list, none);
    assert_eq!(handle_remove_dependency(&mut state).list, none);
}

#[test]
fn submissions_are_reported() {
    assert_eq!(
        project_renamed(Some("Gamma".to_string())).list,
        vec![notice("Project renamed to \"Gamma\"", NotificationVariant::Success, 3000)]
    );
    assert_eq!(
        project_renamed(None).list,
        vec![notice("Project name cannot be empty", NotificationVariant::Warning, 2000)]
    );
    assert_eq!(
        working_directory_set(Ok(true)).list,
        vec![notice("Working directory updated", NotificationVariant::Success, 3000)]
    );
    assert_eq!(
        working_directory_set(Ok(false)).list,
        vec![notice("Working directory cannot be empty", NotificationVariant::Warning, 2000)]
    );
    assert_eq!(
        working_directory_set(Err("not a directory".to_string())).list,
        vec![notice("not a directory", NotificationVariant::Error, 3000)]
    );
    let state = board();
    let created = || notice("Created project \"New\"", NotificationVariant::Success, 3000);
    assert_eq!(
        project_created(&state, &clients(), Ok("New".to_string())).list,
        vec![
            Effect::ShareClient { project_id: "p1".to_string() },
            Effect::SetProjectConnected { project_id: "p1".to_string() },
            created(),
        ]
    );
    assert_eq!(
        project_created(&state, &Clients { projects: Vec::new() }, Ok("New".to_string())).list,
        vec![created()]
    );
    assert_eq!(
        project_created(&state, &clients(), Err("taken".to_string())).list,
        vec![notice("taken", NotificationVariant::Error, 3000)]
    );
}

#[test]
fn saving_a_task_focuses_it_and_starts_its_agent() {
    let mut state = board();
    assert_eq!(handle_editor_key(&mut state, ctrl('s')).list, vec![]);
    state.ui.task_editor = Some(TaskEditorState::new_for_create(
        "running",
        vec!["todo".to_string(), "running".to_string()],
    ));
    assert_eq!(handle_editor_key(&mut state, plain('a')).list, vec![]);
    assert_eq!(state.ui.task_editor.as_ref().unwrap().description(), "a");
    assert_eq!(handle_editor_key(&mut state, ctrl('s')).list, vec![Effect::SaveTaskEditor]);
    assert_eq!(handle_editor_key(&mut state, press(KeyCode::Esc)).list, vec![]);
    assert_eq!(
        handle_editor_key(&mut state, press(KeyCode::Esc)).list,
        vec![Effect::CancelTaskEditor]
    );

    let visible = columns().visible_column_ids();
    let focused = || {
        vec![
            Effect::CancelTaskEditor,
            notice("Task saved: t9", NotificationVariant::Success, 3000),
            Effect::FocusTask { task_id: "t9".to_string() },
            Effect::HighlightTask { task_id: "t9".to_string(), duration_ms: 3000 },
        ]
    };
    let mut expected = focused();
    expected.push(Effect::FocusColumn { column_id: "running".to_string(), index: 2 });
    expected.push(Effect::DispatchAgent {
        task_id: "t9".to_string(),
        column: "running".to_string(),
    });
    assert_eq!(task_saved(&state, &visible, "t9").list, expected);

    state.ui.task_editor.as_mut().unwrap().column_id = Some("done".to_string());
    let mut expected = focused();
    expected.push(Effect::DispatchAgent { task_id: "t9".to_string(), column: "done".to_string() });
    assert_eq!(task_saved(&state, &visible, "t9").list, expected);
    state.ui.task_editor.as_mut().unwrap().column_id = None;
    assert_eq!(task_saved(&state, &visible, "t9").list, focused());

    assert_eq!(
        task_save_failed(&state, "disk full").list,
        vec![notice("Save failed: disk full", NotificationVariant::Error, 3000)]
    );
    state.ui.task_editor.as_mut().unwrap().validation_error = Some("empty".to_string());
    assert_eq!(task_save_failed(&state, "empty").list, vec![]);
}

// ─── Permissions and questions ────────────────────────────────────────────

#[test]
fn resolved_permissions_are_cleared_and_reported() {
    let mut state = board();
    assert_eq!(
        permission_resolved(&mut state, "t1", "q1", true, Ok(())).list,
        vec![
            Effect::ClearPermission {
                task_id: "t1".to_string(),
                permission_id: "q1".to_string(),
                approve: true,
            },
            Effect::SyncModal { task_id: "t1".to_string() },
            notice("Permission approved", NotificationVariant::Success, 2000),
        ]
    );
    assert!(state.render_dirty);
    assert_eq!(
        permission_resolved(&mut state, "t1", "q1", false, Ok(())).list[2],
        notice("Permission rejected", NotificationVariant::Success, 2000)
    );
    assert_eq!(
        permission_resolved(&mut state, "t1", "q1", true, Err("down".to_string())).list,
        vec![notice("Failed to resolve permission: down", NotificationVariant::Error, 5000)]
    );
}

#[test]
fn answered_questions_reassess_the_task() {
    let mut state = board();
    let answer = "a long answer that goes on for more than thirty characters";
    assert_eq!(
        question_resolved(&mut state, "p1", "t1", "q1", answer, Ok(())).list,
        vec![
            Effect::ClearQuestion { task_id: "t1".to_string(), question_id: "q1".to_string() },
            Effect::ReassessTask { project_id: "p1".to_string(), task_id: "t1".to_string() },
            Effect::SyncModal { task_id: "t1".to_string() },
            notice(
                "Answered: a long answer that goes on for",
                NotificationVariant::Success,
                3000,
            ),
        ]
    );
    assert_eq!(
        question_resolved(&mut state, "p1", "t1", "q1", answer, Err("down".to_string())).list,
        vec![notice("Failed to answer question: down", NotificationVariant::Error, 5000)]
    );
    assert_eq!(reassessed("p1", "t1", None).list, vec![]);
    let set = |status| Effect::SetAgentStatus { task_id: "t1".to_string(), status };
    assert_eq!(
        reassessed("p1", "t1", Some((AgentStatus::Running, false))).list,
        vec![set(AgentStatus::Running)]
    );
    assert_eq!(
        reassessed("p1", "t1", Some((AgentStatus::Complete, true))).list,
        vec![
            set(AgentStatus::Complete),
            Effect::CompleteAgent { project_id: "p1".to_string(), task_id: "t1".to_string() },
        ]
    );
}

#[test]
fn a_finished_agent_moves_the_task_or_sends_the_waiting_prompt() {
    assert_eq!(agent_completed("p1", "t1", None).list, vec![]);
    assert_eq!(
        agent_completed(
            "p1",
            "t1",
            Some(AgentCompletionAction::AutoProgress { target_column: "review".to_string() }),
        )
        .list,
        vec![Effect::TaskMoved {
            project_id: "p1".to_string(),
            task_id: "t1".to_string(),
            column: "review".to_string(),
            previous_agent: None,
        }]
    );
    assert_eq!(
        agent_completed(
            "p1",
            "t1",
            Some(AgentCompletionAction::SendQueuedPrompt {
                task_id: "t2".to_string(),
                prompt: "go on".to_string(),
                session_id: "s2".to_string(),
                agent_type: Some("do".to_string()),
            }),
        )
        .list,
        vec![Effect::SendFollowUp {
            project_id: "p1".to_string(),
            task_id: "t2".to_string(),
            prompt: "go on".to_string(),
            session_id: "s2".to_string(),
            agent: Some("do".to_string()),
        }]
    );
}

// ─── Other modes ──────────────────────────────────────────────────────────

#[test]
fn the_archive_selection_stays_inside_the_list() {
    let mut state = board();
    open_archive(&mut state);
    assert_eq!(state.ui.mode, AppMode::Archive);
    let archived = vec!["t1".to_string(), "t2".to_string()];
    let at = |state: &AppState| state.ui.archive_state.as_ref().unwrap().selected_index;
    assert_eq!(at(&state), 0);
    handle_archive_key(&mut state, plain('k'), &archived);
    assert_eq!(at(&state), 0);
    handle_archive_key(&mut state, plain('j'), &archived);
    assert_eq!(at(&state), 1);
    handle_archive_key(&mut state, press(KeyCode::Down), &archived);
    assert_eq!(at(&state), 1);
    assert_eq!(
        handle_archive_key(&mut state, press(KeyCode::Enter), &archived).list,
        vec![
            Effect::OpenTaskDetail { task_id: "t2".to_string() },
            Effect::SetDiffReviewSource { panel: FocusedPanel::Kanban },
        ]
    );
    assert_eq!(
        handle_archive_key(&mut state, plain('u'), &archived).list,
        vec![Effect::UnarchiveTask { task_id: "t2".to_string() }]
    );
    assert_eq!(handle_archive_key(&mut state, plain('u'), &Vec::new()).list, vec![]);
    assert_eq!(handle_archive_key(&mut state, ctrl('q'), &archived).list, vec![]);
    assert_eq!(state.ui.mode, AppMode::Archive);
    assert_eq!(handle_archive_key(&mut state, plain('q'), &archived).list, vec![]);
    assert_eq!(state.ui.mode, AppMode::Normal);
    assert_eq!(
        task_unarchived(true).list,
        vec![notice("Task unarchived", NotificationVariant::Success, 3000)]
    );
    assert_eq!(task_unarchived(false).list, vec![]);
}

#[test]
fn diff_review_keys() {
    let mut state = board();
    show_changes(&mut state, TWO_FILES, 1);
    state.ui.diff_review_source = Some(FocusedPanel::TaskDetail);
    let look = |state: &AppState| {
        let r = state.ui.diff_review.as_ref().unwrap();
        (r.selected_file_index, r.scroll_offset, r.files_list_focused)
    };
    handle_diff_review_key(&mut state, plain('j'));
    assert_eq!(look(&state), (0, 1, false));
    handle_diff_review_key(&mut state, plain('k'));
    assert_eq!(look(&state), (0, 0, false));
    handle_diff_review_key(&mut state, press(KeyCode::Tab));
    assert_eq!(look(&state), (0, 0, true));
    handle_diff_review_key(&mut state, press(KeyCode::Down));
    assert_eq!(look(&state), (1, 0, true));
    handle_diff_review_key(&mut state, press(KeyCode::Down));
    assert_eq!(look(&state), (1, 0, true));
    handle_diff_review_key(&mut state, plain('h'));
    assert_eq!(look(&state).0, 0);
    handle_diff_review_key(&mut state, plain('l'));
    assert_eq!(look(&state), (0, 0, false));
    handle_diff_review_key(&mut state, plain(']'));
    assert_eq!(look(&state), (1, 0, false));
    handle_diff_review_key(&mut state, press(KeyCode::Backspace));
    assert_eq!(look(&state), (0, 0, false));
    handle_diff_review_key(&mut state, press(KeyCode::Left));
    assert_eq!(look(&state), (0, 0, true));
    handle_diff_review_key(&mut state, press(KeyCode::Esc));
    assert_eq!(state.ui.diff_review, None);
    assert_eq!(state.ui.diff_review_source, None);
    assert_eq!(state.ui.mode, AppMode::Normal);
    assert_eq!(state.ui.focused_panel, FocusedPanel::TaskDetail);
}

fn editing(lines: Vec<&str>) -> AppState {
    let mut state = board();
    let content = lines.join("\n");
    assert_eq!(open_config_editor(&mut state, "/c.toml", Some(content)).list, vec![]);
    state
}

#[test]
fn the_config_is_edited_and_saved() {
    let mut state = board();
    assert_eq!(
        open_config_editor(&mut state, "/c.toml", None).list,
        vec![notice("Cannot open config file: /c.toml", NotificationVariant::Error, 3000)]
    );
    assert_eq!(state, board());

    let mut state = editing(vec!["a = 1", "b = 2"]);
    assert_eq!(state.ui.mode, AppMode::ConfigEditor);
    for key in vec![plain('x'), press(KeyCode::Enter), press(KeyCode::Tab), plain('y')] {
        assert_eq!(handle_config_editor_key(&mut state, key).list, vec![]);
    }
    assert_eq!(handle_config_editor_key(&mut state, ctrl('y')).list, vec![]);
    let ed = state.ui.config_editor_state.as_ref().unwrap();
    assert_eq!(ed.content(), "x\n  ya = 1\nb = 2");
    assert_eq!((ed.cursor_row, ed.cursor_col), (1, 3));
    assert!(ed.has_unsaved_changes);
    handle_config_editor_key(&mut state, press(KeyCode::Backspace));
    handle_config_editor_key(&mut state, press(KeyCode::Delete));
    assert_eq!(
        handle_config_editor_key(&mut state, ctrl('s')).list,
        vec![Effect::SaveConfig { content: "x\n   = 1\nb = 2".to_string() }]
    );

    assert_eq!(
        config_saved(
            &mut state,
            ConfigOutcome::Invalid(vec!["bad".to_string(), "worse".to_string()]),
        )
        .list,
        vec![]
    );
    let error = |state: &AppState| {
        state.ui.config_editor_state.as_ref().unwrap().validation_error.clone()
    };
    assert_eq!(error(&state), Some("bad; worse".to_string()));
    config_saved(&mut state, ConfigOutcome::WriteFailed("read-only".to_string()));
    assert_eq!(error(&state), Some("Failed to write file: read-only".to_string()));
    assert_eq!(
        config_saved(&mut state, ConfigOutcome::Reloaded).list,
        vec![notice("Config saved and reloaded", NotificationVariant::Success, 3000)]
    );
    assert_eq!(state.ui.config_editor_state, None);
    assert_eq!(state.ui.mode, AppMode::Normal);

    let mut state = editing(vec!["a"]);
    handle_config_editor_key(&mut state, plain('x'));
    handle_config_editor_key(&mut state, press(KeyCode::Esc));
    let mut expected = board();
    expected.render_dirty = true;
    assert_eq!(state, expected);
}

#[test]
fn paging_through_the_config() {
    let lines: Vec<String> = (0..30).map(|i| format!("line {}", i)).collect();
    let mut state = editing(lines.iter().map(|l| l.as_str()).collect());
    let at = |state: &AppState| {
        let ed = state.ui.config_editor_state.as_ref().unwrap();
        (ed.cursor_row, ed.cursor_col, ed.scroll_offset)
    };
    handle_config_editor_key(&mut state, press(KeyCode::End));
    assert_eq!(at(&state), (0, 6, 0));
    handle_config_editor_key(&mut state, press(KeyCode::PageDown));
    assert_eq!(at(&state), (10, 6, 10));
    for _ in 0..3 {
        handle_config_editor_key(&mut state, press(KeyCode::PageDown));
    }
    assert_eq!(at(&state), (29, 6, 29));
    handle_config_editor_key(&mut state, press(KeyCode::PageUp));
    assert_eq!(at(&state), (19, 6, 19));
    handle_config_editor_key(&mut state, press(KeyCode::Up));
    assert_eq!(at(&state).0, 18);
    handle_config_editor_key(&mut state, press(KeyCode::Home));
    assert_eq!(at(&state).1, 0);
}

// ─── Changed files and reports ────────────────────────────────────────────

#[test]
fn changed_files_are_read_from_two_listings() {
    let numstat = b"3\t1\tsrc/a.rs\n-\t-\timg\xff.png\n2\t0\tnew.rs\nx\n";
    let status = b"M\tsrc/a.rs\nA\timg\xff.png\nR\told.rs\tnew.rs\nX\tother\nbare\n";
    let mut files = parse_changed_files(numstat, status);
    files.sort_by(|a, b| a.path.cmp(&b.path));
    let file = |path: &str, old: Option<&str>, status, additions, deletions| ChangedFileInfo {
        path: path.to_string(),
        old_path: old.map(|o| o.to_string()),
        status,
        additions,
        deletions,
    };
    assert_eq!(
        files,
        vec![
            file("img\u{fffd}.png", None, FileChangeStatus::Added, 0, 0),
            file("new.rs", Some("old.rs"), FileChangeStatus::Renamed, 2, 0),
            file("other", None, FileChangeStatus::Modified, 0, 0),
            file("src/a.rs", None, FileChangeStatus::Modified, 3, 1),
        ]
    );
}

#[test]
fn changed_files_arrive_for_the_task_in_view() {
    let mut state = board();
    changed_files_loaded(&mut state, "t1", vec![changed("a")]);
    assert_eq!(state, board());
    state.ui.viewing_task_id = Some("t1".to_string());
    state.ui.selected_changed_file_index = 3;
    changed_files_loaded(&mut state, "t1", vec![changed("a")]);
    assert_eq!(state.ui.changed_files, Some(vec![changed("a")]));
    assert_eq!(state.ui.selected_changed_file_index, 0);
    assert!(state.render_dirty);
    changed_files_loaded(&mut state, "t1", Vec::new());
    assert_eq!(state.ui.changed_files, None);
}

#[test]
fn git_logs_are_read() {
    let log = "abc\tfix: one\tAnn\t2 days ago\t1700000000\nbroken\ndef\tadd\tBob\tnow\tx\ty\n";
    let commit = |hash: &str, message: &str, author: &str, date: &str, timestamp| GitCommit {
        hash: hash.to_string(),
        message: message.to_string(),
        author: author.to_string(),
        date: date.to_string(),
        timestamp,
    };
    let expected = || {
        vec![
            commit("abc", "fix: one", "Ann", "2 days ago", 1700000000),
            commit("def", "add", "Bob", "now", 0),
        ]
    };
    assert_eq!(parse_git_log(log), expected());
    assert_eq!(
        read_git_log(Some(GitOutcome::Success(log.as_bytes().to_vec()))),
        Ok(expected())
    );
    assert_eq!(
        read_git_log(Some(GitOutcome::Success(b"a\t\xff\tc\td\t-5".to_vec()))),
        Ok(vec![commit("a", "\u{fffd}", "c", "d", -5)])
    );
    assert_eq!(
        read_git_log(Some(GitOutcome::Failure(b" fatal \xff\n".to_vec()))),
        Err("git log failed: fatal \u{fffd}".to_string())
    );
    assert_eq!(
        read_git_log(Some(GitOutcome::NotRun("no git".to_string()))),
        Err("Failed to run git log: no git".to_string())
    );
    assert_eq!(
        read_git_log(None),
        Err("No working directory configured for this project".to_string())
    );
    assert_eq!(log_error_message("x\n"), "git log failed: x");
}

#[test]
fn statistics_count_and_time_the_tasks() {
    let mut state = board();
    let t = state.tasks.get_mut("t1").unwrap();
    t.column = "done".to_string();
    t.agent_status = AgentStatus::Complete;
    t.created_at = 100;
    t.entered_column_at = 190;
    let t = state.tasks.get_mut("t2").unwrap();
    t.column = "review".to_string();
    t.agent_status = AgentStatus::Error;
    t.created_at = 100;
    t.entered_column_at = 190;
    let stats = compute_stats(&state.tasks.entries);
    assert_eq!(
        stats,
        TaskStats {
            total_tasks: 3,
            completed_tasks: 2,
            failed_tasks: 1,
            running_tasks: 1,
            durations: vec![90],
        }
    );
    assert_eq!(summarise(&vec![90, 31, 60]), (60, 90, 31));
    assert_eq!(summarise(&Vec::new()), (0, 0, 0));
}

#[test]
fn durations_are_spelled() {
    assert_eq!(format_duration(0), "—");
    assert_eq!(format_duration(-3), "—");
    assert_eq!(format_duration(59), "59s");
    assert_eq!(format_duration(61), "1m 1s");
    assert_eq!(format_duration(3725), "1h 2m");
    assert_eq!(format_duration(i128::MAX), "5124095576030431h 0m");
    assert_eq!(truncate_str("héllo", 5), "héllo");
    assert_eq!(truncate_str("héllos", 5), "hé...");
    assert_eq!(truncate_str("ab", 2), "ab");
}

#[test]
fn reports_open_fill_and_close() {
    let mut state = board();
    assert_eq!(
        handle_reports_toggle(&mut state).list,
        vec![Effect::LoadCommits { working_dir: Some("/work".to_string()) }]
    );
    assert_eq!(state.ui.mode, AppMode::Reports);
    let r = state.ui.reports.as_ref().unwrap();
    assert_eq!(r.stats.total_tasks, 3);
    assert_eq!(r.task_ids.len(), 3);
    assert_eq!(r.focused_pane, ReportsFocusedPane::Tasks);

    commits_loaded(&mut state, Err("no repository".to_string()));
    let error = |state: &AppState| state.ui.reports.as_ref().unwrap().error.clone();
    assert_eq!(error(&state), Some("no repository".to_string()));
    commits_loaded(&mut state, Ok(parse_git_log("a\tb\tc\td\t1\ne\tf\tg\th\t2")));
    assert_eq!(error(&state), None);

    let at = |state: &AppState| {
        let r = state.ui.reports.as_ref().unwrap();
        (r.selected_task_index, r.selected_index)
    };
    for _ in 0..5 {
        handle_reports_key(&mut state, plain('j'));
    }
    assert_eq!(at(&state), (2, 0));
    handle_reports_key(&mut state, press(KeyCode::Tab));
    for _ in 0..5 {
        handle_reports_key(&mut state, press(KeyCode::Down));
    }
    assert_eq!(at(&state), (2, 1));
    assert_eq!(handle_reports_key(&mut state, press(KeyCode::Enter)).list, vec![]);
    handle_reports_key(&mut state, press(KeyCode::Up));
    handle_reports_key(&mut state, plain('k'));
    assert_eq!(at(&state), (2, 0));
    handle_reports_key(&mut state, plain('q'));
    assert_eq!(state.ui.mode, AppMode::Normal);
    assert_eq!(state.ui.reports, None);

    load_reports_data(&mut state);
    state.ui.mode = AppMode::Reports;
    assert_eq!(handle_reports_toggle(&mut state).list, vec![]);
    assert_eq!(state.ui.reports, None);
    commits_loaded(&mut state, Ok(Vec::new()));
    assert_eq!(state.ui.reports, None);
}

#[test]
fn a_task_is_opened_from_the_reports() {
    let mut state = board();
    handle_reports_toggle(&mut state);
    handle_reports_key(&mut state, plain('j'));
    let id = state.ui.reports.as_ref().unwrap().task_ids[1].clone();
    assert_eq!(id, "t2");
    assert_eq!(
        handle_reports_key(&mut state, press(KeyCode::Enter)).list,
        vec![
            Effect::OpenTaskDetail { task_id: "t2".to_string() },
            Effect::SetDiffReviewSource { panel: FocusedPanel::TaskDetail },
        ]
    );
    assert_eq!(state.ui.mode, AppMode::Normal);
    assert_eq!(state.ui.reports, None);
    assert_eq!(state.ui.focused_task_id, Some("t2".to_string()));
    assert_eq!(state.ui.focused_column, "todo");
    assert_eq!(state.kanban.focused_task_index.get("todo"), Some(&1));
}
