//! What is drawn, and where.

use cortex::config::{BoardSize, ColumnDefinition, ColumnsConfig, KeybindingConfig};
use cortex::config_editor::{render_config_editor, ConfigEditorState};
use cortex::diff_view::render_diff_review;
use cortex::draw::{
    hundredths, right_of, span, Block, Borders, Canvas, Color, Draw, Lines, Rect, Style, Theme,
};
use cortex::help::render_help_overlay;
use cortex::kanban::{draw_column, render_kanban, shown_columns};
use cortex::loading::{advance_spinner, render_loading_frame, status_text};
use cortex::overlays::{
    pending_delete, render_archive_viewer, render_confirm_delete_dialog, render_confirm_dialog,
    render_input_prompt,
};
use cortex::permission_modal::{render_permission_modal, wrap_text};
use cortex::reports::{
    commits_loaded, handle_reports_toggle, parse_git_log, render_commits_pane, render_reports,
};
use cortex::review::show_changes;
use cortex::sidebar::{render_sidebar, ProjectIcons};
use cortex::state::{
    AgentStatus, AppMode, AppState, ChangedFileInfo, ConfirmableAction, CortexTask,
    FileChangeStatus, FocusedPanel, KanbanState, Notification, NotificationVariant,
    PermissionRequest, Project, ProjectRegistry, ProjectStatus, QuestionRequest, ReviewStatus,
    SessionTracker, TaskDetailSession, UiState,
};
use cortex::status_bar::{count_pending, gather_status, render_status_bar, Connection};
use cortex::table::Table;
use cortex::task_card::{mark_counts, render_task_card, room_for_title};
use cortex::view::{render_frame, render_normal, Live, Look};

fn table<V>(entries: Vec<(&str, V)>) -> Table<V> {
    let mut t = Table::new();
    for (k, v) in entries {
        t.insert(k.to_string(), v);
    }
    t
}

fn task(id: &str, number: u32, column: &str, status: AgentStatus) -> CortexTask {
    CortexTask {
        id: id.to_string(),
        number,
        project_id: "p1".to_string(),
        column: column.to_string(),
        description: format!("task {}", number),
        agent_status: status,
        agent_type: None,
        session_id: None,
        review_status: ReviewStatus::Pending,
        queued_prompt: None,
        error_message: None,
        pending_permission_count: 0,
        pending_question_count: 0,
        blocked_by: Vec::new(),
        created_at: 0,
        entered_column_at: 0,
        last_activity_at: 0,
    }
}

fn project(id: &str, name: &str) -> Project {
    Project {
        id: id.to_string(),
        name: name.to_string(),
        working_directory: "/work".to_string(),
        status: ProjectStatus::Idle,
    }
}

fn session(task_id: &str) -> TaskDetailSession {
    TaskDetailSession {
        session_id: Some("s1".to_string()),
        task_id: task_id.to_string(),
        streaming_text: None,
        messages: Vec::new(),
        pending_permissions: Vec::new(),
        pending_questions: Vec::new(),
        active_prompt: None,
        render_version: 0,
    }
}

/// A board with two projects, and three tasks in two of its columns.
fn board() -> AppState {
    AppState {
        tasks: table(vec![
            ("t1", task("t1", 1, "todo", AgentStatus::Pending)),
            ("t2", task("t2", 2, "todo", AgentStatus::Pending)),
            ("t3", task("t3", 3, "running", AgentStatus::Running)),
        ]),
        kanban: KanbanState {
            columns: table(vec![
                ("todo", vec!["t1".to_string(), "t2".to_string()]),
                ("running", vec!["t3".to_string()]),
            ]),
            focused_task_index: Table::new(),
            focused_column_index: 0,
            kanban_scroll_offset: 0,
        },
        ui: UiState {
            mode: AppMode::Normal,
            focused_panel: FocusedPanel::Kanban,
            focused_column: "todo".to_string(),
            focused_task_id: Some("t1".to_string()),
            viewing_task_id: None,
            detail_editor: None,
            task_editor: None,
            changed_files: None,
            changed_files_focused: false,
            selected_changed_file_index: 0,
            permission_modal_active: false,
            permission_modal_selected_index: 0,
            permission_modal_dismissed_at: None,
            user_scroll_offset: None,
            session_nav_stack: Vec::new(),
            input_text: String::new(),
            input_cursor: 0,
            prompt_label: String::new(),
            prompt_context: None,
            pending_delete_task_id: None,
            confirm_action: None,
            diff_review: None,
            diff_review_source: None,
            reports: None,
            archive_state: None,
            config_editor_state: None,
            notifications: Vec::new(),
        },
        session_tracker: SessionTracker {
            task_sessions: Table::new(),
            subagent_session_data: Table::new(),
            subagent_sessions: Table::new(),
            subagent_to_parent: Table::new(),
            cached_streaming_lines: Table::new(),
        },
        project_registry: ProjectRegistry {
            projects: vec![project("p1", "Alpha"), project("p2", "Beta")],
            active_project_id: Some("p1".to_string()),
        },
        render_dirty: false,
    }
}

fn columns() -> ColumnsConfig {
    let column = |id: &str, name: &str, agent: Option<&str>, visible: bool| ColumnDefinition {
        id: id.to_string(),
        display_name: name.to_string(),
        agent: agent.map(|a| a.to_string()),
        auto_progress_to: None,
        visible,
    };
    ColumnsConfig {
        definitions: vec![
            column("todo", "Todo", None, true),
            column("planning", "Plan", Some("planning"), true),
            column("running", "Run", Some("do"), true),
            column("review", "Review", None, true),
            column("done", "Done", None, false),
        ],
    }
}

fn screen(width: u16, height: u16) -> Rect {
    Rect { x: 0, y: 0, width, height }
}

fn at(x: u16, y: u16, width: u16, height: u16) -> Rect {
    Rect { x, y, width, height }
}

fn theme() -> Theme {
    Theme {
        working: Color::Blue,
        done: Color::Green,
        error: Color::Red,
        question: Color::Yellow,
        info: Color::Gray,
        connected: Color::Green,
        disconnected: Color::DarkGray,
        reconnecting: Color::Cyan,
    }
}

fn icons() -> ProjectIcons {
    ProjectIcons {
        disconnected: "-".to_string(),
        idle: "o".to_string(),
        working: "w".to_string(),
        question: "?".to_string(),
        done: "d".to_string(),
        error: "x".to_string(),
        hung: "h".to_string(),
    }
}

fn look() -> Look {
    Look {
        board: BoardSize { sidebar_width: 20, column_width: 20 },
        columns: columns(),
        icons: icons(),
        theme: theme(),
        keybindings: KeybindingConfig::default(),
        max_notifications: 5,
    }
}

fn live() -> Live {
    Live {
        connection: Connection {
            permanently_disconnected: false,
            reconnecting: false,
            attempt: 0,
            connected: true,
        },
        saving: false,
        archived: Vec::new(),
        doomed_title: String::new(),
        done_rate: "66.7%".to_string(),
    }
}

fn words(lines: &Lines) -> Vec<String> {
    lines
        .list
        .iter()
        .map(|l| l.spans.iter().map(|s| s.text.as_str()).collect::<Vec<&str>>().concat())
        .collect()
}

/// The texts on a canvas with their areas.
fn shown(canvas: &Canvas) -> Vec<(Rect, Vec<String>)> {
    let mut out = Vec::new();
    for d in &canvas.list {
        if let Draw::Text { area, lines, .. } = d {
            out.push((*area, words(lines)));
        }
    }
    out
}

/// The titles of the frames on a canvas with their areas.
fn frames(canvas: &Canvas) -> Vec<(Rect, String)> {
    let mut out = Vec::new();
    for d in &canvas.list {
        if let Draw::Block { area, block } = d {
            let title = match &block.title {
                Some(t) => t.text.clone(),
                None => String::new(),
            };
            out.push((*area, title));
        }
    }
    out
}

fn one(area: Rect, text: &str) -> (Rect, Vec<String>) {
    (area, vec![text.to_string()])
}

// ─── Areas ────────────────────────────────────────────────────────────────

#[test]
fn areas_are_cut_and_centered() {
    let a = at(2, 3, 10, 4);
    assert_eq!(a.within(Borders::all()), at(3, 4, 8, 2));
    assert_eq!(a.within(Borders::top()), at(2, 4, 10, 3));
    assert_eq!(a.within(Borders::open_below()), at(3, 4, 8, 3));
    assert_eq!(a.within(Borders::open_above()), at(3, 3, 8, 3));
    assert_eq!(at(5, 5, 1, 0).within(Borders::all()), at(6, 5, 0, 0));
    assert_eq!(a.narrow(), at(3, 3, 8, 4));
    assert_eq!(at(7, 7, 1, 1).narrow(), at(0, 0, 0, 0));
    assert_eq!(a.row(9), at(2, 9, 10, 1));
    assert_eq!(a.centered(4, 1), at(5, 4, 4, 1));
    assert_eq!(a.centered_percent(50, 50), at(4, 4, 5, 2));
    assert_eq!(hundredths(65535, 100), 65535);
    assert_eq!(hundredths(33, 50), 16);
}

#[test]
fn columns_to_the_right_stop_at_the_edge() {
    assert_eq!(right_of(10, 5), 15);
    assert_eq!(right_of(65000, 5000), 65535);
    assert_eq!(right_of(10, 65536 + 5), 15);
}

// ─── Cards ────────────────────────────────────────────────────────────────

fn card(t: &CortexTask, area: Rect, selected: bool, now: i64) -> Canvas {
    let mut canvas = Canvas::new();
    render_task_card(&mut canvas, area, t, "fix it", "*", "Working", selected, theme(), now);
    canvas
}

#[test]
fn a_card_has_title_status_and_time() {
    let mut t = task("t1", 7, "running", AgentStatus::Running);
    t.entered_column_at = 100;
    let canvas = card(&t, at(1, 2, 20, 5), false, 165);
    assert_eq!(
        shown(&canvas),
        vec![
            one(at(2, 3, 18, 1), "#7 fix it"),
            one(at(2, 4, 18, 1), "* Working"),
            one(at(2, 5, 18, 1), "⏱ 1m 5s"),
        ]
    );
    assert_eq!(
        canvas.list[0],
        Draw::Block {
            area: at(1, 2, 20, 5),
            block: Block {
                borders: Borders::all(),
                rounded: true,
                border: Style::fg(Color::Blue),
                style: Style::bg(Color::Reset),
                title: None,
                title_centered: false,
            },
        }
    );
    assert_eq!(room_for_title(at(1, 2, 20, 5), 7), 15);
    assert_eq!(room_for_title(at(1, 2, 3, 5), 1000), 0);
    assert_eq!(shown(&card(&t, at(1, 2, 20, 4), false, 165)).len(), 2);
    assert_eq!(shown(&card(&t, at(1, 2, 20, 3), false, 165)).len(), 1);
    assert_eq!(shown(&card(&t, at(1, 2, 20, 2), false, 165)).len(), 0);
}

#[test]
fn a_selected_card_stands_out() {
    let t = task("t1", 7, "running", AgentStatus::Running);
    let canvas = card(&t, at(0, 0, 20, 5), true, 0);
    if let Draw::Block { block, .. } = &canvas.list[0] {
        assert_eq!(block.border, Style::fg(Color::Cyan));
        assert_eq!(block.style, Style::bg(Color::Rgb(36, 40, 56)));
    } else {
        panic!("no frame");
    }
}

#[test]
fn the_time_of_a_finished_task_stands_still() {
    let mut t = task("t1", 7, "review", AgentStatus::Complete);
    t.entered_column_at = 100;
    t.last_activity_at = 130;
    let early = card(&t, at(0, 0, 20, 5), false, 1000);
    assert_eq!(shown(&early)[2], one(at(1, 3, 18, 1), "⏱ 30s"));
    assert_eq!(early, card(&t, at(0, 0, 20, 5), false, 999999));
}

#[test]
fn waiting_counts_are_set_off_and_retry_is_hinted_at() {
    let mut t = task("t1", 7, "running", AgentStatus::Hung);
    t.pending_permission_count = 2;
    t.pending_question_count = 1;
    let canvas = card(&t, at(0, 0, 30, 5), false, 0);
    if let Draw::Text { lines, .. } = &canvas.list[2] {
        let bold = |color| Style::bold(color);
        assert_eq!(
            lines.list[0].spans,
            vec![
                span("* Working", Style::fg(Color::Yellow)),
                span("!2", bold(Color::Yellow)),
                span("?1", bold(Color::Rgb(255, 255, 0))),
                span(" [R]", Style::fg(Color::DarkGray)),
            ]
        );
    } else {
        panic!("no status");
    }
    assert_eq!(
        mark_counts("a ?3 b", Style::plain()).spans,
        vec![
            span("a", Style::plain()),
            span("?3", Style::bold(Color::Rgb(255, 255, 0))),
            span(" b", Style::plain()),
        ]
    );
}

// ─── Sidebar ──────────────────────────────────────────────────────────────

#[test]
fn the_sidebar_lists_projects() {
    let mut state = board();
    state.project_registry.projects[1].name = "a rather long project name".to_string();
    state.project_registry.projects[1].status = ProjectStatus::Hung;
    let mut canvas = Canvas::new();
    render_sidebar(&mut canvas, at(0, 0, 20, 8), &state, &icons(), theme());
    assert_eq!(frames(&canvas), vec![(at(0, 0, 20, 8), " Projects ".to_string())]);
    assert_eq!(
        shown(&canvas),
        vec![
            one(at(2, 1, 16, 1), "o Alpha"),
            one(at(2, 2, 16, 1), "h a rather lo..."),
        ]
    );
    let mut canvas = Canvas::new();
    render_sidebar(&mut canvas, at(0, 0, 20, 2), &state, &icons(), theme());
    assert_eq!(shown(&canvas).len(), 1);
    state.project_registry.projects.clear();
    let mut canvas = Canvas::new();
    render_sidebar(&mut canvas, at(0, 0, 20, 8), &state, &icons(), theme());
    assert_eq!(shown(&canvas), vec![one(at(1, 1, 18, 7), "No projects")]);
}

// ─── Status bar ───────────────────────────────────────────────────────────

fn bar(state: &AppState, connection: Connection, saving: bool, width: u16) -> Vec<String> {
    let mut canvas = Canvas::new();
    render_status_bar(&mut canvas, at(0, 0, width, 2), state, connection, 5, saving, theme());
    shown(&canvas).into_iter().map(|(_, w)| w.concat()).collect()
}

#[test]
fn the_status_bar_tells_the_connection() {
    let state = board();
    let plain = live().connection;
    assert_eq!(
        bar(&state, plain, false, 100),
        vec!["● connected", "│ Alpha", " │ 1 task │", "?:help"]
    );
    assert_eq!(bar(&state, plain, false, 69), vec!["● connected", "?:help"]);
    assert_eq!(bar(&state, plain, false, 16), vec!["● connected"]);
    let off = Connection { connected: false, ..plain };
    assert_eq!(bar(&state, off, false, 100)[0], "○ disconnected");
    let again = Connection { reconnecting: true, ..plain };
    assert_eq!(bar(&state, again, false, 100)[0], "◐ reconnecting...");
    let third = Connection { attempt: 3, ..again };
    assert_eq!(bar(&state, third, false, 100)[0], "◐ reconnecting (3)...");
    let gone = Connection { permanently_disconnected: true, ..third };
    assert_eq!(
        bar(&state, gone, false, 100)[0],
        "✕ disconnected (max retries exceeded — restart to retry)"
    );
    assert_eq!(bar(&state, plain, true, 100)[3], "saving...");
}

#[test]
fn the_status_bar_shows_the_latest_notice_unless_something_waits() {
    let mut state = board();
    let plain = live().connection;
    state.ui.notifications = vec![Notification {
        message: "first".to_string(),
        variant: NotificationVariant::Info,
    }];
    assert_eq!(bar(&state, plain, true, 100)[3], "first");
    state.ui.notifications.push(Notification {
        message: "second".to_string(),
        variant: NotificationVariant::Error,
    });
    assert_eq!(bar(&state, plain, false, 100)[3], "(2/5) second");
    let status = gather_status(&state, plain, 5, false, theme());
    assert_eq!(status.notice_color, Color::Red);
    assert_eq!(status.attention, "");

    state.tasks.get_mut("t1").unwrap().pending_permission_count = 1;
    assert_eq!(count_pending(&state), (1, 0));
    assert_eq!(bar(&state, plain, false, 100)[3], "⚠ 1 permission pending — press v");
    state.tasks.get_mut("t3").unwrap().pending_question_count = 2;
    assert_eq!(bar(&state, plain, false, 100)[3], "⚠ 1 perm, 2 quests — press v");
    state.tasks.get_mut("t1").unwrap().pending_permission_count = 0;
    assert_eq!(bar(&state, plain, false, 100)[3], "⚠ 2 questions pending — press v");
    state.tasks.get_mut("t3").unwrap().project_id = "p2".to_string();
    assert_eq!(count_pending(&state), (0, 0));
    assert_eq!(bar(&state, plain, false, 100)[2], " │ 0 tasks │");
}

// ─── Loading ──────────────────────────────────────────────────────────────

#[test]
fn the_loading_screen_is_centered() {
    let mut canvas = Canvas::new();
    render_loading_frame(&mut canvas, screen(40, 10), "日本", 0);
    assert_eq!(
        shown(&canvas),
        vec![one(at(17, 4, 6, 1), "Cortex"), one(at(17, 5, 6, 1), "⠋ 日本")]
    );
    assert_eq!(status_text("go", 9), "⠏ go");
    assert_eq!(status_text("go", 13), "⠸ go");
}

#[test]
fn the_spinner_goes_round() {
    let mut i = 0;
    for _ in 0..10 {
        i = advance_spinner(i);
    }
    assert_eq!(i, 0);
    assert_eq!(advance_spinner(9), 0);
    assert_eq!(advance_spinner(12), 3);
}

// ─── Board ────────────────────────────────────────────────────────────────

#[test]
fn columns_that_do_not_fit_are_indicated() {
    let all = shown_columns(4, 3, 100, 20);
    assert_eq!((all.first, all.end, all.left, all.right), (0, 4, false, false));
    let first = shown_columns(4, 0, 70, 20);
    assert_eq!((first.first, first.end, first.left, first.right), (0, 3, false, true));
    let last = shown_columns(4, 9, 70, 20);
    assert_eq!((last.first, last.end, last.left, last.right), (1, 4, true, false));
    let narrow = shown_columns(4, 1, 10, 20);
    assert_eq!((narrow.first, narrow.end, narrow.left, narrow.right), (1, 2, true, true));
}

#[test]
fn the_board_draws_columns_and_cards() {
    let state = board();
    let mut canvas = Canvas::new();
    render_kanban(&mut canvas, at(0, 0, 100, 20), &state, &columns(), 20);
    let titles: Vec<String> = canvas
        .list
        .iter()
        .filter_map(|d| match d {
            Draw::Text { block: Some(b), .. } => b.title.as_ref().map(|t| t.text.clone()),
            Draw::Block { block, .. } => block.title.as_ref().map(|t| t.text.clone()),
            _ => None,
        })
        .collect();
    assert_eq!(titles, vec![" Todo (2) ", " Plan (0) ", " Run (1) ", " Review (0) "]);
    let cards: Vec<(Rect, &str, bool)> = canvas
        .list
        .iter()
        .filter_map(|d| match d {
            Draw::Card { area, task_id, selected } => Some((*area, task_id.as_str(), *selected)),
            _ => None,
        })
        .collect();
    assert_eq!(
        cards,
        vec![
            (at(1, 2, 23, 5), "t1", true),
            (at(1, 8, 23, 5), "t2", false),
            (at(51, 2, 23, 5), "t3", false),
        ]
    );
    assert_eq!(shown(&canvas).iter().filter(|(_, w)| w.concat() == "No tasks").count(), 2);
}

#[test]
fn cards_that_do_not_fit_are_counted() {
    let mut state = board();
    state.kanban.columns = table(vec![(
        "todo",
        vec!["t1".to_string(), "gone".to_string(), "t2".to_string(), "t3".to_string()],
    )]);
    let rows = vec![at(0, 0, 20, 2), at(0, 2, 20, 10)];
    let mut canvas = Canvas::new();
    draw_column(&mut canvas, &state, &columns(), "todo", &rows);
    let cards = canvas.list.iter().filter(|d| matches!(d, Draw::Card { .. })).count();
    assert_eq!(cards, 1);
    assert_eq!(shown(&canvas).last().unwrap(), &one(at(1, 10, 18, 1), "  ▼ 3 more"));

    let mut canvas = Canvas::new();
    state.kanban.columns = Table::new();
    draw_column(&mut canvas, &state, &columns(), "todo", &rows);
    let texts = shown(&canvas);
    assert_eq!(texts[texts.len() - 2], one(at(1, 5, 18, 1), "No tasks"));
    assert_eq!(texts[texts.len() - 1], one(at(1, 6, 18, 1), "Press n to create one"));
}

// ─── Overlays ─────────────────────────────────────────────────────────────

#[test]
fn the_input_prompt_shows_label_text_and_cursor() {
    let mut state = board();
    state.ui.prompt_context = Some("rename_project".to_string());
    state.ui.prompt_label = "Name: ".to_string();
    state.ui.input_text = "née".to_string();
    state.ui.input_cursor = 9;
    let mut canvas = Canvas::new();
    render_input_prompt(&mut canvas, screen(100, 50), &state);
    assert_eq!(canvas.list[0], Draw::Clear { area: at(25, 20, 50, 10) });
    assert_eq!(frames(&canvas)[0], (at(25, 20, 50, 10), " Rename Project ".to_string()));
    let texts: Vec<String> = shown(&canvas).into_iter().map(|(_, w)| w.concat()).collect();
    assert_eq!(texts, vec!["Name: ", "née", "Enter: confirm  |  Esc: cancel"]);
    let input = frames(&canvas)[1].0;
    assert!(canvas.list.contains(&Draw::Cursor { x: input.x + 1 + 3, y: input.y + 1 }));

    state.ui.prompt_context = Some("add_dependency".to_string());
    let mut canvas = Canvas::new();
    render_input_prompt(&mut canvas, screen(100, 50), &state);
    assert_eq!(frames(&canvas)[0].1, " Input ");
    state.ui.prompt_context = Some("set_working_directory".to_string());
    let mut canvas = Canvas::new();
    render_input_prompt(&mut canvas, screen(100, 50), &state);
    assert_eq!(frames(&canvas)[0].1, " Set Working Directory ");
}

#[test]
fn the_confirmation_names_the_project() {
    let mut state = board();
    let look_at = |state: &AppState| {
        let mut canvas = Canvas::new();
        render_confirm_dialog(&mut canvas, screen(100, 50), state);
        let texts: Vec<String> = shown(&canvas).into_iter().map(|(_, w)| w.concat()).collect();
        (frames(&canvas)[0].1.clone(), texts)
    };
    assert_eq!(
        look_at(&state),
        (
            " Confirm ".to_string(),
            vec!["Are you sure?".to_string(), "y: confirm  |  n/Esc: cancel".to_string()],
        )
    );
    state.ui.confirm_action = Some(ConfirmableAction::DeleteProject("p2".to_string()));
    assert_eq!(
        look_at(&state),
        (
            " Delete Project ".to_string(),
            vec![
                "Delete project \"Beta\"?".to_string(),
                "y: delete  |  n/Esc: cancel".to_string(),
            ],
        )
    );
    state.ui.confirm_action = Some(ConfirmableAction::DeleteProject("p9".to_string()));
    assert_eq!(look_at(&state).1[0], "Delete project \"p9\"?");
}

#[test]
fn the_deletion_is_confirmed_by_title() {
    let mut canvas = Canvas::new();
    render_confirm_delete_dialog(&mut canvas, screen(80, 24), "fix it");
    assert_eq!(
        shown(&canvas),
        vec![(
            at(20, 8, 40, 7),
            vec![
                "Delete task \"fix it\"?".to_string(),
                "".to_string(),
                "  y — confirm    n / Esc — cancel".to_string(),
            ],
        )]
    );
    let mut state = board();
    assert_eq!(pending_delete(&state), None);
    state.ui.pending_delete_task_id = Some("t2".to_string());
    assert_eq!(pending_delete(&state).unwrap().number, 2);
}

#[test]
fn the_archive_is_listed() {
    let entries = |archived: Vec<String>| {
        let mut canvas = Canvas::new();
        render_archive_viewer(&mut canvas, screen(80, 24), &archived);
        match &canvas.list[0] {
            Draw::List { lines, .. } => words(lines),
            _ => Vec::new(),
        }
    };
    assert_eq!(entries(Vec::new()), vec!["No archived tasks"]);
    assert_eq!(entries(vec!["t1".to_string(), "t2".to_string()]), vec!["t1", "t2"]);
}

#[test]
fn the_help_overlay_covers_part_of_the_screen() {
    let mut canvas = Canvas::new();
    render_help_overlay(&mut canvas, screen(100, 50), &KeybindingConfig::default());
    assert_eq!(canvas.list[0], Draw::Clear { area: at(15, 2, 70, 45) });
    assert_eq!(frames(&canvas)[0].1, " Help — Keybindings ");
    let texts = shown(&canvas);
    assert_eq!(texts[0].0, at(16, 3, 68, 43));
    assert_eq!(texts[0].1[1], " Global Keys");
    assert_eq!(texts[0].1[3], "   Ctrl+q           Quit");
    assert_eq!(texts[0].1.last().unwrap(), " Press any key to close");
    for expected in vec![
        "   e                Edit task",
        "   v                View task detail & stream",
        "   Ctrl+e           Edit configuration",
        "   b                Add dependency",
        "   Shift+H          Scroll board left (reserved, no effect)",
        "   Shift+L          Scroll board right (reserved, no effect)",
        "   Shift+K          Move task up (reserved, no effect)",
        "   Shift+J          Move task down (reserved, no effect)",
    ] {
        assert!(texts[0].1.iter().any(|t| t == expected), "{}", expected);
    }
}

// ─── Permission modal ─────────────────────────────────────────────────────

fn asking(details: Option<&str>) -> AppState {
    let mut state = board();
    state.ui.focused_panel = FocusedPanel::TaskDetail;
    state.ui.viewing_task_id = Some("t3".to_string());
    state.ui.permission_modal_active = true;
    let mut s = session("t3");
    s.pending_permissions = vec![PermissionRequest {
        id: "q1".to_string(),
        session_id: "s1".to_string(),
        tool_name: "bash".to_string(),
        description: "run a command".to_string(),
        details: details.map(|d| d.to_string()),
    }];
    state.session_tracker.task_sessions = table(vec![("t3", s)]);
    state
}

fn modal(state: &AppState, area: Rect) -> Canvas {
    let mut canvas = Canvas::new();
    render_permission_modal(&mut canvas, area, state, theme());
    canvas
}

#[test]
fn the_modal_shows_what_is_asked() {
    let state = asking(None);
    let canvas = modal(&state, screen(100, 30));
    assert_eq!(canvas.list[0], Draw::Clear { area: at(20, 9, 60, 12) });
    assert_eq!(frames(&canvas)[0].1, "⚠  Permission Request ");
    assert_eq!(
        shown(&canvas),
        vec![(
            at(21, 10, 58, 10),
            vec![
                "Tool: bash".to_string(),
                "".to_string(),
                "run a command".to_string(),
                "".to_string(),
                "▶ Yes (approve)".to_string(),
                "  No (reject)".to_string(),
                "".to_string(),
                " ↑↓ navigate  Enter select  y/n quick  Esc close".to_string(),
            ],
        )]
    );
    let detailed = modal(&asking(Some("rm -rf")), screen(100, 30));
    assert_eq!(shown(&detailed)[0].1[2], "rm -rf");
}

#[test]
fn the_modal_shows_questions() {
    let mut state = asking(None);
    let s = state.session_tracker.task_sessions.get_mut("t3").unwrap();
    s.pending_permissions = Vec::new();
    let q = |id: &str| QuestionRequest {
        id: id.to_string(),
        session_id: "s1".to_string(),
        question: "which?".to_string(),
        answers: vec!["this".to_string(), "that".to_string()],
    };
    s.pending_questions = vec![q("a"), q("b")];
    state.ui.permission_modal_selected_index = 1;
    let canvas = modal(&state, screen(100, 30));
    assert_eq!(frames(&canvas)[0].1, "?  Question 2 pending  ");
    assert_eq!(
        shown(&canvas)[0].1,
        vec![
            "Q: which?",
            "",
            "  [1] this",
            "▶ [2] that",
            "",
            " ↑↓ navigate  Enter select  1-9 quick  Esc close",
        ]
    );
}

#[test]
fn long_texts_are_wrapped_in_the_modal() {
    let mut state = asking(Some(&"lorem ipsum ".repeat(40)));
    let s = state.session_tracker.task_sessions.get_mut("t3").unwrap();
    s.pending_permissions[0].tool_name = "a tool with a name ".repeat(5);
    let canvas = modal(&state, screen(100, 50));
    let (area, texts) = &shown(&canvas)[0];
    assert_eq!(texts[0], "Tool: a tool with a name a tool with a name a tool with a");
    assert_eq!(texts[1], "name a tool with a name a tool with a name");
    assert_eq!(texts[2], "");
    assert!(texts.iter().all(|t| t.chars().count() <= area.width as usize));
    assert!(texts.len() <= area.height as usize);
    assert_eq!(texts[texts.len() - 3], "  No (reject)");
    if let Draw::Text { lines, .. } = canvas.list.last().unwrap() {
        assert_eq!(lines.list[0].spans[0], span("Tool: ", Style::bold(Color::Red)));
        assert_eq!(lines.list[1].spans[0].style, Style::bold(Color::White));
    }
}

#[test]
fn the_modal_needs_room_and_leaves_the_edges_free() {
    let state = asking(None);
    assert_eq!(modal(&state, screen(33, 30)).list, vec![]);
    assert_eq!(modal(&state, screen(100, 11)).list, vec![]);
    let small = modal(&state, screen(34, 12));
    assert_eq!(small.list[0], Draw::Clear { area: at(2, 2, 30, 8) });
    assert_eq!(modal(&board(), screen(100, 30)).list, vec![]);
}

#[test]
fn texts_are_wrapped_at_words() {
    assert_eq!(wrap_text("one two three", 7), vec!["one two", "three"]);
    assert_eq!(wrap_text("one\n\ntwo", 7), vec!["one", "", "two"]);
    assert_eq!(wrap_text("a enormously b", 5), vec!["a", "enor…", "b"]);
    assert_eq!(wrap_text("a  b\tc", 9), vec!["a b c"]);
    assert_eq!(wrap_text("éé éé", 5), vec!["éé", "éé"]);
    assert_eq!(wrap_text("a b\nc", 0), vec!["a b\nc"]);
}

// ─── Config editor ────────────────────────────────────────────────────────

#[test]
fn the_config_editor_shows_numbered_lines_and_the_cursor() {
    let mut ed = ConfigEditorState::from_content("/c.toml", "a = 1\nb = 2");
    ed.cursor_row = 1;
    ed.cursor_col = 2;
    let mut canvas = Canvas::new();
    render_config_editor(&mut canvas, screen(40, 10), &Some(ed));
    assert_eq!(
        frames(&canvas),
        vec![(screen(40, 10), " Config Editor: /c.toml ".to_string())]
    );
    assert_eq!(
        shown(&canvas),
        vec![
            (at(1, 1, 38, 6), vec!["   1 a = 1".to_string(), "   2 b ▊= 2".to_string()]),
            one(at(1, 7, 38, 1), " Line 2/2 "),
            one(
                at(1, 8, 38, 1),
                "Ctrl+S: save & reload  Esc: cancel (discard)  Tab: indent  ↑↓←→: navigate",
            ),
        ]
    );
    assert!(canvas.list.contains(&Draw::Cursor { x: 8, y: 2 }));

    let mut ed = ConfigEditorState::from_content("/c.toml", "a");
    ed.insert_char('x');
    let mut canvas = Canvas::new();
    render_config_editor(&mut canvas, screen(40, 10), &Some(ed));
    assert_eq!(shown(&canvas)[1].1, vec![" Unsaved changes | Line 1/1 "]);
    let mut ed = ConfigEditorState::from_content("/c.toml", "a");
    ed.validation_error = Some("bad".to_string());
    let mut canvas = Canvas::new();
    render_config_editor(&mut canvas, screen(40, 10), &Some(ed));
    assert_eq!(shown(&canvas)[1].1, vec![" Error: bad "]);
    let mut canvas = Canvas::new();
    render_config_editor(&mut canvas, screen(40, 10), &None);
    assert_eq!(canvas.list, vec![]);
}

#[test]
fn the_cursor_line_is_scrolled_into_view() {
    let mut ed = ConfigEditorState::from_content("/c.toml", "0\n1\n2\n3\n4\n5");
    ed.cursor_row = 5;
    assert_eq!(ed.first_visible(3), 3);
    ed.ensure_cursor_visible(3);
    assert_eq!(ed.scroll_offset, 3);
    ed.cursor_row = 1;
    ed.ensure_cursor_visible(3);
    assert_eq!(ed.scroll_offset, 1);
}

// ─── Diff review and reports ──────────────────────────────────────────────

fn reviewing() -> AppState {
    let mut state = board();
    show_changes(
        &mut state,
        "diff --git a/a.rs b/a.rs\n--- a/a.rs\n+++ b/a.rs\n@@ -1,2 +1,2 @@\n same\n-old\n+new\n",
        4,
    );
    state
}

#[test]
fn the_diff_review_shows_files_and_lines() {
    let state = reviewing();
    let mut canvas = Canvas::new();
    render_diff_review(&mut canvas, screen(100, 20), &state.ui.diff_review, theme());
    let texts: Vec<String> = canvas
        .list
        .iter()
        .flat_map(|d| match d {
            Draw::Text { lines, .. } => words(lines),
            Draw::List { lines, .. } => words(lines),
            _ => Vec::new(),
        })
        .collect();
    assert!(texts.iter().any(|t| t.contains("a.rs")));
    assert!(texts.iter().any(|t| t.contains("-old")));
    assert!(texts.iter().any(|t| t.contains("+new")));
    let mut canvas = Canvas::new();
    render_diff_review(&mut canvas, screen(100, 20), &None, theme());
    assert_eq!(canvas.list, vec![]);
}

#[test]
fn reports_show_statistics_and_commits() {
    let mut state = board();
    handle_reports_toggle(&mut state);
    commits_loaded(
        &mut state,
        Ok(parse_git_log("abc\tfix: one\tAnn\t2 days ago\t1\ndef\tadd\tBob\tnow\t2")),
    );
    let mut canvas = Canvas::new();
    render_reports(&mut canvas, screen(100, 30), &state.ui.reports, "0.0%");
    let texts: Vec<String> = shown(&canvas).into_iter().flat_map(|(_, w)| w).collect();
    for expected in vec![
        " Reports ",
        " TASK STATISTICS",
        "  Total Tasks:  3",
        "  Completed:    0",
        "  Failed:       0",
        "  Running:      3",
        "  Avg time:     —",
        "  Done rate:    0.0%",
        " ▶ abc fix: one",
        "     Ann  2 days ago",
        "   def add",
        "     Bob  now",
        " j/k: scroll  Esc/q: close ",
    ] {
        assert!(texts.iter().any(|t| t == expected), "{}", expected);
    }

    let mut canvas = Canvas::new();
    render_reports(&mut canvas, screen(39, 30), &state.ui.reports, "0.0%");
    assert_eq!(canvas.list, vec![Draw::Clear { area: screen(39, 30) }]);
    commits_loaded(&mut state, Err("no repository".to_string()));
    let mut canvas = Canvas::new();
    render_reports(&mut canvas, screen(100, 30), &state.ui.reports, "0.0%");
    assert_eq!(shown(&canvas), vec![one(screen(100, 30), "no repository")]);
    let mut canvas = Canvas::new();
    render_reports(&mut canvas, screen(100, 30), &None, "0.0%");
    assert_eq!(canvas.list, vec![]);
}

#[test]
fn the_selected_commit_is_in_sight() {
    let mut state = board();
    handle_reports_toggle(&mut state);
    let log: Vec<String> = (0..30).map(|i| format!("h{}\tm{}\ta\td\t1", i, i)).collect();
    commits_loaded(&mut state, Ok(parse_git_log(&log.join("\n"))));
    let reports = state.ui.reports.as_mut().unwrap();
    reports.selected_index = 25;
    let mut canvas = Canvas::new();
    render_commits_pane(&mut canvas, at(0, 0, 60, 12), reports);
    let texts = shown(&canvas);
    assert_eq!(texts[0].0, at(1, 1, 58, 10));
    assert_eq!(texts[0].1.len(), 10);
    assert_eq!(texts[0].1[8], " ▶ h25 m25");
    assert_eq!(texts[0].1[9], "     a  d");
    assert!(canvas.list.contains(&Draw::ScrollMark {
        area: at(1, 1, 58, 10),
        first: 21,
        shown: 5,
        total: 30,
    }));
}

// ─── Frames ───────────────────────────────────────────────────────────────

#[test]
fn a_small_terminal_shows_only_the_message() {
    let state = board();
    for area in vec![screen(59, 40), screen(100, 9)] {
        let mut canvas = Canvas::new();
        render_normal(&mut canvas, area, &state, &look(), &live());
        assert_eq!(canvas.list.len(), 1);
    }
    let mut canvas = Canvas::new();
    render_normal(&mut canvas, screen(59, 40), &state, &look(), &live());
    assert_eq!(
        shown(&canvas),
        vec![(
            screen(59, 40),
            vec![
                "Terminal too small (59×40).".to_string(),
                "Minimum required: 60×10.".to_string(),
                "Resize your terminal window.".to_string(),
            ],
        )]
    );
}

#[test]
fn the_normal_view_has_sidebar_board_and_status_bar() {
    let mut state = board();
    let mut canvas = Canvas::new();
    render_frame(&mut canvas, screen(120, 30), &state, &look(), &live());
    assert_eq!(frames(&canvas)[0], (at(0, 0, 20, 28), " Projects ".to_string()));
    let texts = shown(&canvas);
    assert!(texts.contains(&one(at(1, 29, 14, 1), "● connected")));
    let cards = canvas.list.iter().filter(|d| matches!(d, Draw::Card { .. })).count();
    assert_eq!(cards, 3);

    state.ui.focused_panel = FocusedPanel::TaskDetail;
    state.ui.viewing_task_id = Some("t3".to_string());
    let mut canvas = Canvas::new();
    render_frame(&mut canvas, screen(120, 30), &state, &look(), &live());
    assert!(canvas.list.contains(&Draw::Detail {
        area: at(20, 0, 100, 28),
        task_id: "t3".to_string(),
    }));
    state.ui.changed_files = Some(vec![ChangedFileInfo {
        path: "a".to_string(),
        old_path: None,
        status: FileChangeStatus::Added,
        additions: 1,
        deletions: 0,
    }]);
    let mut canvas = Canvas::new();
    render_frame(&mut canvas, screen(88, 30), &state, &look(), &live());
    assert!(canvas.list.contains(&Draw::ChangedFiles { area: at(60, 0, 28, 28) }));
    let mut canvas = Canvas::new();
    render_frame(&mut canvas, screen(87, 30), &state, &look(), &live());
    assert!(!canvas.list.iter().any(|d| matches!(d, Draw::ChangedFiles { .. })));
}

#[test]
fn every_mode_has_its_frame() {
    let frame = |state: &AppState| {
        let mut canvas = Canvas::new();
        render_frame(&mut canvas, screen(120, 40), state, &look(), &live());
        canvas
    };
    let mut state = board();
    let plain = frame(&state).list.len();
    for mode in vec![
        AppMode::Help,
        AppMode::ProjectRename,
        AppMode::InputPrompt,
        AppMode::ConfirmDelete,
        AppMode::Archive,
    ] {
        state.ui.mode = mode;
        assert!(frame(&state).list.len() > plain);
    }
    state.ui.mode = AppMode::TaskEditor;
    assert_eq!(frame(&state).list, vec![Draw::TaskEditor]);
    for mode in vec![AppMode::DiffReview, AppMode::Reports, AppMode::ConfigEditor] {
        state.ui.mode = mode;
        assert_eq!(frame(&state).list, vec![]);
    }
    let mut state = asking(None);
    let with_modal = frame(&state).list.len();
    state.ui.permission_modal_active = false;
    assert!(with_modal > frame(&state).list.len());
}
