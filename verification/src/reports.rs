//! Reports: task statistics, the latest commits, and moving through them.

use vstd::prelude::*;
use crate::config_editor;
use crate::diff_view;
use crate::draw;
use crate::draw::{
    Block, Borders, Canvas, Color, Constraint, Direction, Draw, Line, Lines, Rect, Span, Style,
    Wrap,
};
use crate::effects::{Effect, Effects};
use crate::keys::{KeyCode, KeyEvent};
use crate::review::GitOutcome;
use crate::state;
use crate::state::{
    AgentStatus, AppMode, AppState, CortexTask, GitCommit, KanbanState, ReportsFocusedPane,
    ReportsState, TaskStats, UiState,
};
use crate::table;
use crate::tasks;
use crate::text;

verus! {

/// Maximum number of commits to display.
pub const MAX_COMMITS: usize = 30;

// ─── Statistics ───────────────────────────────────────────────────────────

/// How many tasks stand in the done or the review column.
pub open spec fn completed(tasks: Seq<(String, CortexTask)>) -> nat
    decreases tasks.len(),
{
    if tasks.len() == 0 {
        0
    } else {
        let t = tasks.last().1;
        completed(tasks.drop_last()) + if t.column@ == "done"@ || t.column@ == "review"@ {
            1nat
        } else {
            0nat
        }
    }
}

/// How many tasks have failed.
pub open spec fn failed(tasks: Seq<(String, CortexTask)>) -> nat
    decreases tasks.len(),
{
    if tasks.len() == 0 {
        0
    } else {
        failed(tasks.drop_last()) + if tasks.last().1.agent_status is Error {
            1nat
        } else {
            0nat
        }
    }
}

/// How many tasks are running or about to.
pub open spec fn running(tasks: Seq<(String, CortexTask)>) -> nat
    decreases tasks.len(),
{
    if tasks.len() == 0 {
        0
    } else {
        let s = tasks.last().1.agent_status;
        running(tasks.drop_last()) + if s is Running || s is Pending {
            1nat
        } else {
            0nat
        }
    }
}

/// How long a done task took, from its creation to the done column, where both
/// times are known and in order.
pub open spec fn duration_of(t: CortexTask) -> Option<i64> {
    if t.column@ == "done"@ && t.created_at > 0 && t.entered_column_at > 0 && t.entered_column_at
        > t.created_at {
        Some((t.entered_column_at - t.created_at) as i64)
    } else {
        None
    }
}

/// The durations of the done tasks, in the order of the tasks.
pub open spec fn durations(tasks: Seq<(String, CortexTask)>) -> Seq<i64>
    decreases tasks.len(),
{
    if tasks.len() == 0 {
        Seq::empty()
    } else {
        match duration_of(tasks.last().1) {
            Some(d) => durations(tasks.drop_last()).push(d),
            None => durations(tasks.drop_last()),
        }
    }
}

/// The counts never exceed the number of tasks, and every duration is positive.
pub proof fn law_counts_within_total(tasks: Seq<(String, CortexTask)>)
    ensures
        completed(tasks) <= tasks.len(),
        failed(tasks) + running(tasks) <= tasks.len(),
        durations(tasks).len() <= completed(tasks),
        forall|i: int| 0 <= i < durations(tasks).len() ==> #[trigger] durations(tasks)[i] > 0,
    decreases tasks.len(),
{
    if tasks.len() > 0 {
        law_counts_within_total(tasks.drop_last());
    }
}

/// Counts the tasks and times the done ones.
pub fn compute_stats(tasks: &Vec<(String, CortexTask)>) -> (r: TaskStats)
    ensures
        r.total_tasks == tasks@.len(),
        r.completed_tasks == completed(tasks@),
        r.failed_tasks == failed(tasks@),
        r.running_tasks == running(tasks@),
        r.durations@ == durations(tasks@),
{
    let mut done: usize = 0;
    let mut bad: usize = 0;
    let mut busy: usize = 0;
    let mut times: Vec<i64> = Vec::new();
    let mut i: usize = 0;
    proof {
        assert(tasks@.take(0) =~= Seq::<(String, CortexTask)>::empty());
    }
    while i < tasks.len()
        invariant
            i <= tasks@.len(),
            done == completed(tasks@.take(i as int)),
            bad == failed(tasks@.take(i as int)),
            busy == running(tasks@.take(i as int)),
            times@ == durations(tasks@.take(i as int)),
            done <= i,
            bad <= i,
            busy <= i,
        decreases tasks@.len() - i,
    {
        let t = &tasks[i].1;
        proof {
            assert(tasks@.take(i + 1).drop_last() =~= tasks@.take(i as int));
            assert(tasks@.take(i + 1).last().1 == *t);
        }
        let in_done = text::same(t.column.as_str(), "done");
        if in_done || text::same(t.column.as_str(), "review") {
            done += 1;
        }
        match t.agent_status {
            AgentStatus::Error => {
                bad += 1;
            },
            AgentStatus::Running | AgentStatus::Pending => {
                busy += 1;
            },
            _ => {},
        }
        if in_done && t.created_at > 0 && t.entered_column_at > 0 && t.entered_column_at
            > t.created_at {
            times.push(t.entered_column_at - t.created_at);
        }
        i += 1;
    }
    proof {
        assert(tasks@.take(i as int) =~= tasks@);
    }
    TaskStats {
        total_tasks: tasks.len(),
        completed_tasks: done,
        failed_tasks: bad,
        running_tasks: busy,
        durations: times,
    }
}

// ─── Commits ──────────────────────────────────────────────────────────────

/// The contents of a commit.
#[verifier::ext_equal]
pub struct CommitView {
    pub hash: Seq<char>,
    pub message: Seq<char>,
    pub author: Seq<char>,
    pub date: Seq<char>,
    pub timestamp: int,
}

impl View for GitCommit {
    type V = CommitView;

    open spec fn view(&self) -> CommitView {
        CommitView {
            hash: self.hash@,
            message: self.message@,
            author: self.author@,
            date: self.date@,
            timestamp: self.timestamp as int,
        }
    }
}

/// The contents of a list of commits.
pub open spec fn commit_views(commits: Seq<GitCommit>) -> Seq<CommitView> {
    commits.map_values(|c: GitCommit| c@)
}

/// The commit on a line of `git log` output: five fields between tabs, the
/// last one its time, 0 when that is no number. Other lines say nothing.
pub open spec fn commit_of(line: Seq<char>) -> Option<CommitView> {
    let parts = text::fields(line, "\t"@, 5);
    if parts.len() >= 5 {
        Some(
            CommitView {
                hash: parts[0],
                message: parts[1],
                author: parts[2],
                date: parts[3],
                timestamp: match text::parsed_signed(parts[4]) {
                    Some(t) => t,
                    None => 0,
                },
            },
        )
    } else {
        None
    }
}

/// The commits on lines of `git log` output, in order.
pub open spec fn commits_on(lines: Seq<Seq<char>>) -> Seq<CommitView>
    decreases lines.len(),
{
    if lines.len() == 0 {
        Seq::empty()
    } else {
        match commit_of(lines.last()) {
            Some(c) => commits_on(lines.drop_last()).push(c),
            None => commits_on(lines.drop_last()),
        }
    }
}

/// Parse the output of `git log` with one commit to a line.
pub fn parse_git_log(output: &str) -> (r: Vec<GitCommit>)
    ensures
        commit_views(r@) == commits_on(text::lines_of(output@)),
{
    let lines = text::lines(output);
    let ghost all = text::texts(lines@);
    let mut commits: Vec<GitCommit> = Vec::new();
    let mut i: usize = 0;
    proof {
        assert(all.take(0) =~= Seq::<Seq<char>>::empty());
        assert(commit_views(commits@) =~= commits_on(all.take(0)));
        reveal_strlit("\t");
    }
    while i < lines.len()
        invariant
            "\t"@.len() == 1,
            i <= lines@.len(),
            all == text::texts(lines@),
            commit_views(commits@) == commits_on(all.take(i as int)),
        decreases lines@.len() - i,
    {
        let parts = text::split_n(lines[i].as_str(), "\t", 5);
        proof {
            assert(all.take(i + 1).drop_last() =~= all.take(i as int));
            assert(all.take(i + 1).last() == lines@[i as int]@);
            assert(text::texts(parts@).len() == parts@.len());
            assert forall|k: int| 0 <= k < parts@.len() implies text::texts(parts@)[k] == (
            #[trigger] parts@[k])@ by {}
        }
        if parts.len() >= 5 {
            let timestamp: i64 = match text::parse_i64(parts[4].as_str()) {
                Some(t) => t,
                None => 0,
            };
            let commit = GitCommit {
                hash: parts[0].clone(),
                message: parts[1].clone(),
                author: parts[2].clone(),
                date: parts[3].clone(),
                timestamp,
            };
            proof {
                assert(commit_views(commits@.push(commit)) =~= commit_views(commits@).push(
                    commit@,
                ));
            }
            commits.push(commit);
        }
        i += 1;
    }
    proof {
        assert(all.take(i as int) =~= all);
    }
    commits
}

/// What the error output of a failed `git log` is reported as.
pub open spec fn log_error(err: Seq<char>) -> Seq<char> {
    "git log failed: "@ + text::trimmed(err)
}

/// What the error output of a failed `git log` is reported as.
pub fn log_error_message(err: &str) -> (r: String)
    ensures
        r@ == log_error(err@),
{
    text::join2("git log failed: ", text::trim(err).as_str())
}

/// Reads the outcome of a run of `git log`; `None` stands for a project
/// without a working directory.
pub fn read_git_log(outcome: Option<GitOutcome>) -> (r: Result<Vec<GitCommit>, String>)
    ensures
        match outcome {
            None => r is Err && r->Err_0@ == "No working directory configured for this project"@,
            Some(GitOutcome::NotRun(e)) => r is Err && r->Err_0@ == "Failed to run git log: "@
                + e@,
            Some(GitOutcome::Failure(err)) => r is Err && r->Err_0@ == log_error(text::lossy(err@)),
            Some(GitOutcome::Success(out)) => r is Ok && commit_views(r->Ok_0@) == commits_on(
                text::lines_of(text::lossy(out@)),
            ),
        },
{
    match outcome {
        None => Err("No working directory configured for this project".to_owned()),
        Some(GitOutcome::NotRun(e)) => Err(text::join2("Failed to run git log: ", e.as_str())),
        Some(GitOutcome::Failure(err)) => {
            let raw = text::from_utf8_lossy(err.as_slice());
            Err(log_error_message(raw.as_str()))
        },
        Some(GitOutcome::Success(out)) => {
            let raw = text::from_utf8_lossy(out.as_slice());
            Ok(parse_git_log(raw.as_str()))
        },
    }
}

// ─── Opening and filling the view ─────────────────────────────────────────

/// The working directory of the active project, unless it is empty.
pub open spec fn active_dir(state: AppState) -> Option<Seq<char>> {
    match state.project_registry.active_project_id {
        Some(id) => state.project_registry.working_dir(id@),
        None => None,
    }
}

/// A reports view just opened over the present tasks.
pub open spec fn fresh_reports(tasks: Seq<(String, CortexTask)>, r: ReportsState) -> bool {
    &&& r.commits@.len() == 0
    &&& r.stats.total_tasks == tasks.len()
    &&& r.stats.completed_tasks == completed(tasks)
    &&& r.stats.failed_tasks == failed(tasks)
    &&& r.stats.running_tasks == running(tasks)
    &&& r.stats.durations@ == durations(tasks)
    &&& r.selected_index == 0
    &&& r.scroll_offset == 0
    &&& r.error is None
    &&& r.focused_pane == ReportsFocusedPane::Tasks
    &&& text::texts(r.task_ids@) == table::keys_of(tasks)
    &&& r.selected_task_index == 0
}

fn task_keys(tasks: &Vec<(String, CortexTask)>) -> (r: Vec<String>)
    ensures
        text::texts(r@) == table::keys_of(tasks@),
{
    let mut out: Vec<String> = Vec::new();
    let mut i: usize = 0;
    proof {
        assert(text::texts(out@) =~= table::keys_of(tasks@).take(0));
    }
    while i < tasks.len()
        invariant
            i <= tasks@.len(),
            text::texts(out@) == table::keys_of(tasks@).take(i as int),
        decreases tasks@.len() - i,
    {
        let ghost before = out@;
        out.push(tasks[i].0.clone());
        proof {
            assert(text::texts(out@) =~= text::texts(before).push(out@.last()@));
            assert(table::keys_of(tasks@).take(i + 1) =~= table::keys_of(tasks@).take(
                i as int,
            ).push(tasks@[i as int].0@));
        }
        i += 1;
    }
    proof {
        assert(table::keys_of(tasks@).take(i as int) =~= table::keys_of(tasks@));
    }
    out
}

/// Opens the reports view over the present tasks and asks for the latest
/// commits of the active project.
pub fn load_reports_data(state: &mut AppState) -> (fx: Effects)
    ensures
        final(state).ui.reports is Some,
        fresh_reports(old(state).tasks.entries@, final(state).ui.reports->0),
        *final(state) == (AppState {
            ui: UiState { reports: final(state).ui.reports, ..old(state).ui },
            render_dirty: true,
            ..*old(state)
        }),
        fx@ == seq![Effect::LoadCommits { working_dir: active_dir(*old(state)) }],
{
    let working_dir: Option<String> = match &state.project_registry.active_project_id {
        Some(id) => state.project_registry.working_directory_of(id.as_str()),
        None => None,
    };
    let stats = compute_stats(&state.tasks.entries);
    let task_ids = task_keys(&state.tasks.entries);
    state.ui.reports = Some(
        ReportsState {
            commits: Vec::new(),
            stats,
            selected_index: 0,
            scroll_offset: 0,
            error: None,
            focused_pane: ReportsFocusedPane::Tasks,
            task_ids,
            selected_task_index: 0,
        },
    );
    state.mark_render_dirty();
    Effects::one(Effect::LoadCommits { working_dir })
}

/// Takes the latest commits, or the failure to list them, into the view if it
/// is still open.
pub fn commits_loaded(state: &mut AppState, outcome: Result<Vec<GitCommit>, String>)
    ensures
        match old(state).ui.reports {
            None => *final(state) == (AppState { render_dirty: true, ..*old(state) }),
            Some(r) => *final(state) == (AppState {
                ui: UiState {
                    reports: Some(
                        match outcome {
                            Ok(commits) => ReportsState { commits, error: None, ..r },
                            Err(e) => ReportsState { error: Some(e), ..r },
                        },
                    ),
                    ..old(state).ui
                },
                render_dirty: true,
                ..*old(state)
            }),
        },
{
    match &mut state.ui.reports {
        Some(r) => match outcome {
            Ok(commits) => {
                r.commits = commits;
                r.error = None;
            },
            Err(e) => {
                r.error = Some(e);
            },
        },
        None => {},
    }
    state.mark_render_dirty();
}

/// Toggle the reports view on/off.
pub fn handle_reports_toggle(state: &mut AppState) -> (fx: Effects)
    ensures
        reports_toggled(*old(state), *final(state), fx@),
{
    if state.ui.mode == AppMode::Reports {
        state.ui.mode = AppMode::Normal;
        state.ui.reports = None;
        Effects::new()
    } else {
        state.ui.mode = AppMode::Reports;
        load_reports_data(state)
    }
}

/// What toggling the reports view does.
pub open spec fn reports_toggled(
    before: AppState,
    after: AppState,
    fx: Seq<Effect<Seq<char>>>,
) -> bool {
    if before.ui.mode == AppMode::Reports {
        &&& fx.len() == 0
        &&& after == (AppState {
            ui: UiState { mode: AppMode::Normal, reports: None, ..before.ui },
            ..before
        })
    } else {
        &&& after.ui.reports is Some
        &&& fresh_reports(before.tasks.entries@, after.ui.reports->0)
        &&& after == (AppState {
            ui: UiState { mode: AppMode::Reports, reports: after.ui.reports, ..before.ui },
            render_dirty: true,
            ..before
        })
        &&& fx == seq![Effect::LoadCommits { working_dir: active_dir(before) }]
    }
}

// ─── Moving through the view ──────────────────────────────────────────────

/// The selected entry `direction` places on among `n`, within the list.
pub open spec fn selection(current: usize, direction: int, n: nat) -> usize {
    if n == 0 {
        current
    } else {
        diff_view::clamp(current + direction, 0, n - 1) as usize
    }
}

/// Scroll the commit list by `direction` lines (-1 = up, +1 = down).
pub fn scroll_reports(state: &mut ReportsState, direction: i32)
    ensures
        *final(state) == (ReportsState {
            selected_index: selection(
                old(state).selected_index,
                direction as int,
                old(state).commits@.len(),
            ),
            ..*old(state)
        }),
{
    let total: usize = state.commits.len();
    if total == 0 {
        return;
    }
    state.selected_index = diff_view::step(state.selected_index, direction, total - 1);
}

/// Scroll the task list by `direction` lines (-1 = up, +1 = down).
pub fn scroll_tasks(state: &mut ReportsState, direction: i32)
    ensures
        *final(state) == (ReportsState {
            selected_task_index: selection(
                old(state).selected_task_index,
                direction as int,
                old(state).task_ids@.len(),
            ),
            ..*old(state)
        }),
{
    let total: usize = state.task_ids.len();
    if total == 0 {
        return;
    }
    state.selected_task_index = diff_view::step(state.selected_task_index, direction, total - 1);
}

/// A selection that is moved stays inside a list that is not empty.
pub proof fn law_selection_stays_inside(current: usize, direction: int, n: nat)
    requires
        0 < n <= usize::MAX,
    ensures
        selection(current, direction, n) < n,
        current < n ==> selection(current, 0, n) == current,
{
}

/// `r` with the selection of the focused pane moved.
pub open spec fn scrolled(r: ReportsState, direction: int) -> ReportsState {
    match r.focused_pane {
        ReportsFocusedPane::Tasks => ReportsState {
            selected_task_index: selection(r.selected_task_index, direction, r.task_ids@.len()),
            ..r
        },
        ReportsFocusedPane::Commits => ReportsState {
            selected_index: selection(r.selected_index, direction, r.commits@.len()),
            ..r
        },
    }
}

/// The task that Enter opens: the one selected in the tasks pane.
pub open spec fn chosen_task(state: AppState) -> Option<String> {
    match state.ui.reports {
        Some(r) => if r.focused_pane == ReportsFocusedPane::Tasks && r.selected_task_index
            < r.task_ids@.len() {
            Some(r.task_ids@[r.selected_task_index as int])
        } else {
            None
        },
        None => None,
    }
}

/// What opening a task from the reports does: back to normal mode with the
/// task focused, in its column and at its place there when it is on the board.
pub open spec fn task_chosen(before: AppState, id: String, after: AppState) -> bool {
    let back = UiState {
        mode: AppMode::Normal,
        reports: None,
        focused_task_id: Some(id),
        ..before.ui
    };
    match tasks::task_of(before, id@) {
        None => after == (AppState { ui: back, ..before }),
        Some(t) => {
            let at = match table::lookup(before.kanban.columns@, t.column@) {
                Some(ids) => text::place(text::texts(ids@), id@),
                None => None,
            };
            &&& after == (AppState {
                ui: UiState { focused_column: t.column, ..back },
                kanban: KanbanState {
                    focused_task_index: after.kanban.focused_task_index,
                    ..before.kanban
                },
                ..before
            })
            &&& after.kanban.focused_task_index@ == match at {
                Some(i) => before.kanban.focused_task_index@.insert(t.column@, i as usize),
                None => before.kanban.focused_task_index@,
            }
        },
    }
}

/// What a key press in the reports view does.
pub open spec fn reports_key(
    before: AppState,
    key: KeyEvent,
    after: AppState,
    fx: Seq<Effect<Seq<char>>>,
) -> bool {
    let with = |r: ReportsState| AppState {
        ui: UiState { reports: Some(r), ..before.ui },
        ..before
    };
    match key.code {
        KeyCode::Esc | KeyCode::Char('q') => {
            &&& fx.len() == 0
            &&& after == (AppState {
                ui: UiState { mode: AppMode::Normal, reports: None, ..before.ui },
                ..before
            })
        },
        KeyCode::Tab => fx.len() == 0 && after == match before.ui.reports {
            Some(r) => with(
                ReportsState {
                    focused_pane: if r.focused_pane == ReportsFocusedPane::Tasks {
                        ReportsFocusedPane::Commits
                    } else {
                        ReportsFocusedPane::Tasks
                    },
                    ..r
                },
            ),
            None => before,
        },
        KeyCode::Enter => match chosen_task(before) {
            Some(id) => task_chosen(before, id, after) && fx == tasks::detail_opened(before, id@),
            None => after == before && fx.len() == 0,
        },
        KeyCode::Char('j') | KeyCode::Down => fx.len() == 0 && after == match before.ui.reports {
            Some(r) => with(scrolled(r, 1)),
            None => before,
        },
        KeyCode::Char('k') | KeyCode::Up => fx.len() == 0 && after == match before.ui.reports {
            Some(r) => with(scrolled(r, -1)),
            None => before,
        },
        _ => after == before && fx.len() == 0,
    }
}

fn choose_task(state: &mut AppState, id: String)
    ensures
        task_chosen(*old(state), id, *final(state)),
{
    state.ui.mode = AppMode::Normal;
    state.ui.reports = None;
    state.ui.focused_task_id = Some(id.clone());
    if let Some(t) = state.tasks.get(id.as_str()) {
        let col = t.column.clone();
        let at: Option<usize> = match state.kanban.columns.get(col.as_str()) {
            Some(ids) => text::position(ids, id.as_str()),
            None => None,
        };
        if let Some(i) = at {
            state.kanban.focused_task_index.insert(col.clone(), i);
        }
        state.ui.focused_column = col;
    }
}

fn scroll_pane(reports: &mut ReportsState, direction: i32)
    ensures
        *final(reports) == scrolled(*old(reports), direction as int),
{
    match reports.focused_pane {
        ReportsFocusedPane::Tasks => {
            scroll_tasks(reports, direction);
        },
        ReportsFocusedPane::Commits => {
            scroll_reports(reports, direction);
        },
    }
}

/// Handle key events in reports mode.
pub fn handle_reports_key(state: &mut AppState, key: KeyEvent) -> (fx: Effects)
    ensures
        reports_key(*old(state), key, *final(state), fx@),
{
    match key.code {
        KeyCode::Esc | KeyCode::Char('q') => {
            state.ui.mode = AppMode::Normal;
            state.ui.reports = None;
        },
        KeyCode::Tab => {
            match &mut state.ui.reports {
                Some(r) => {
                    r.focused_pane = match r.focused_pane {
                        ReportsFocusedPane::Tasks => ReportsFocusedPane::Commits,
                        ReportsFocusedPane::Commits => ReportsFocusedPane::Tasks,
                    };
                },
                None => {},
            }
        },
        KeyCode::Enter => {
            let chosen: Option<String> = match &state.ui.reports {
                Some(r) => if r.focused_pane == ReportsFocusedPane::Tasks && r.selected_task_index
                    < r.task_ids.len() {
                    Some(r.task_ids[r.selected_task_index].clone())
                } else {
                    None
                },
                None => None,
            };
            if let Some(id) = chosen {
                let fx = tasks::open_detail(state, id.as_str());
                choose_task(state, id);
                return fx;
            }
        },
        KeyCode::Char('j') | KeyCode::Down => {
            match &mut state.ui.reports {
                Some(r) => {
                    scroll_pane(r, 1);
                },
                None => {},
            }
        },
        KeyCode::Char('k') | KeyCode::Up => {
            match &mut state.ui.reports {
                Some(r) => {
                    scroll_pane(r, -1);
                },
                None => {},
            }
        },
        _ => {},
    }
    Effects::new()
}

/// The opened view of a task survives the way there: what Enter focuses is the
/// task whose detail view it opens.
pub proof fn law_enter_focuses_what_it_opens(
    before: AppState,
    key: KeyEvent,
    after: AppState,
    fx: Seq<Effect<Seq<char>>>,
)
    requires
        key.code == KeyCode::Enter,
        chosen_task(before) is Some,
        reports_key(before, key, after, fx),
    ensures
        state::opt_view(after.ui.focused_task_id) == Some(chosen_task(before)->0@),
        after.ui.mode == AppMode::Normal,
        fx.len() >= 2,
        fx[0] == (Effect::OpenTaskDetail { task_id: chosen_task(before)->0@ }),
{
}

// ─── Durations and long texts ─────────────────────────────────────────────

/// A number of seconds in the two largest of hours, minutes and seconds.
pub open spec fn spelled_seconds(secs: nat) -> Seq<char> {
    let hours = secs / 3600;
    let minutes = (secs / 60) % 60;
    let seconds = secs % 60;
    if hours > 0 {
        text::decimal(hours) + "h "@ + text::decimal(minutes) + "m"@
    } else if minutes > 0 {
        text::decimal(minutes) + "m "@ + text::decimal(seconds) + "s"@
    } else {
        text::decimal(seconds) + "s"@
    }
}

/// Format a number of seconds to a human-readable string.
pub fn format_seconds(secs: u64) -> (r: String)
    ensures
        r@ == spelled_seconds(secs as nat),
{
    let hours: u64 = secs / 3600;
    let minutes: u64 = (secs / 60) % 60;
    let seconds: u64 = secs % 60;
    if hours > 0 {
        let mut out = text::dec(hours);
        out.append("h ");
        out.append(text::dec(minutes).as_str());
        out.append("m");
        out
    } else if minutes > 0 {
        let mut out = text::dec(minutes);
        out.append("m ");
        out.append(text::dec(seconds).as_str());
        out.append("s");
        out
    } else {
        let mut out = text::dec(seconds);
        out.append("s");
        out
    }
}

/// The time from `entered_at` to `now`, nothing when the former is not known.
pub open spec fn elapsed(entered_at: i64, now: i64) -> Seq<char> {
    if entered_at <= 0 {
        Seq::empty()
    } else if now >= entered_at {
        spelled_seconds((now - entered_at) as nat)
    } else {
        spelled_seconds(0)
    }
}

/// Format elapsed time since the given timestamp.
pub fn format_elapsed_time(entered_at: i64, now: i64) -> (r: String)
    ensures
        r@ == elapsed(entered_at, now),
{
    if entered_at <= 0 {
        return String::new();
    }
    let secs: u64 = if now >= entered_at {
        (now - entered_at) as u64
    } else {
        0
    };
    format_seconds(secs)
}

/// `s` cut to `max` characters, the last three of them dots when it is longer.
pub open spec fn shortened(s: Seq<char>, max: int) -> Seq<char> {
    if s.len() <= max {
        s
    } else {
        s.take(max - 3) + "..."@
    }
}

/// Truncate a string to `max_len` characters, appending "..." if truncated.
pub fn truncate_str(s: &str, max_len: usize) -> (r: String)
    requires
        max_len >= 3 || s@.len() <= max_len,
    ensures
        r@ == shortened(s@, max_len as int),
{
    if s.unicode_len() <= max_len {
        return s.to_owned();
    }
    let head = text::take(s, max_len - 3);
    text::join2(head.as_str(), "...")
}

/// A text that is cut fits into the length it is cut to.
pub proof fn law_shortened_fits(s: Seq<char>, max: int)
    requires
        max >= 3,
    ensures
        shortened(s, max).len() <= max,
        s.len() <= max ==> shortened(s, max) == s,
{
    reveal_strlit("...");
}

// ─── Drawing ──────────────────────────────────────────────────────────────

/// The sum of the durations.
pub open spec fn total_time(times: Seq<i64>) -> int
    decreases times.len(),
{
    if times.len() == 0 {
        0
    } else {
        total_time(times.drop_last()) + times.last()
    }
}

/// The longest of the durations, zero when there are none.
pub open spec fn longest(times: Seq<i64>) -> int
    decreases times.len(),
{
    if times.len() == 0 {
        0
    } else {
        let before = longest(times.drop_last());
        if times.last() > before {
            times.last() as int
        } else {
            before
        }
    }
}

/// The shortest of the durations, zero when there are none.
pub open spec fn shortest(times: Seq<i64>) -> int
    decreases times.len(),
{
    if times.len() == 0 {
        0
    } else if times.len() == 1 {
        times[0] as int
    } else {
        let before = shortest(times.drop_last());
        if times.last() < before {
            times.last() as int
        } else {
            before
        }
    }
}

/// The average of the durations in whole seconds, rounded down; zero when there
/// are none.
pub open spec fn average(times: Seq<i64>) -> int {
    if times.len() == 0 {
        0
    } else {
        total_time(times) / times.len() as int
    }
}

/// A duration in words, a dash when there is none; no more than 64 bits count.
pub open spec fn shown_duration(secs: int) -> Seq<char> {
    if secs <= 0 {
        "—"@
    } else if secs > u64::MAX {
        spelled_seconds(u64::MAX as nat)
    } else {
        spelled_seconds(secs as nat)
    }
}

/// Format a duration in seconds to a human-readable string.
pub fn format_duration(secs: i128) -> (r: String)
    ensures
        r@ == shown_duration(secs as int),
{
    if secs <= 0 {
        "—".to_owned()
    } else if secs > 0xffff_ffff_ffff_ffff {
        format_seconds(0xffff_ffff_ffff_ffff)
    } else {
        format_seconds(secs as u64)
    }
}

/// Average, longest and shortest of the durations.
pub fn summarise(times: &Vec<i64>) -> (r: (i128, i128, i128))
    ensures
        r.0 == average(times@),
        r.1 == longest(times@),
        r.2 == shortest(times@),
        i64::MIN <= r.0 <= i64::MAX,
        i64::MIN <= r.1 <= i64::MAX,
        i64::MIN <= r.2 <= i64::MAX,
{
    let mut sum: i128 = 0;
    let mut max: i128 = 0;
    let mut min: i128 = 0;
    let mut i: usize = 0;
    proof {
        assert(times@.take(0) =~= Seq::<i64>::empty());
    }
    while i < times.len()
        invariant
            i <= times@.len(),
            sum == total_time(times@.take(i as int)),
            max == longest(times@.take(i as int)),
            min == shortest(times@.take(i as int)),
            i * i64::MIN <= sum <= i * i64::MAX,
            i64::MIN <= max <= i64::MAX,
            i64::MIN <= min <= i64::MAX,
        decreases times@.len() - i,
    {
        let t: i128 = times[i] as i128;
        proof {
            assert(times@.take(i + 1).drop_last() =~= times@.take(i as int));
            assert(times@.take(i + 1).last() == times@[i as int]);
        }
        sum = sum + t;
        if t > max {
            max = t;
        }
        if i == 0 || t < min {
            min = t;
        }
        i += 1;
    }
    proof {
        assert(times@.take(i as int) =~= times@);
    }
    if times.len() == 0 {
        return (0, 0, 0);
    }
    let n: i128 = times.len() as i128;
    let avg: i128 = floor_div(sum, n);
    (avg, max, min)
}

/// `a / n`, rounded down.
fn floor_div(a: i128, n: i128) -> (r: i128)
    requires
        0 < n <= u64::MAX,
        n * i64::MIN <= a <= n * i64::MAX,
    ensures
        r == a as int / n as int,
        i64::MIN <= r <= i64::MAX,
{
    proof {
        let q = a as int / n as int;
        assert(i64::MIN <= q <= i64::MAX) by (nonlinear_arith)
            requires
                n > 0,
                n * i64::MIN <= a <= n * i64::MAX,
                q == a as int / n as int,
        ;
    }
    if a >= 0 {
        a / n
    } else {
        assert(a > i128::MIN) by (nonlinear_arith)
            requires
                0 < n <= u64::MAX,
                n * i64::MIN <= a,
        ;
        let b: i128 = -a;
        let q: i128 = b / n;
        let exact = b % n == 0;
        proof {
            let up = if exact {
                -q
            } else {
                -q - 1
            };
            assert(b == q * n + b % n) by {
                vstd::arithmetic::div_mod::lemma_fundamental_div_mod(b as int, n as int);
                assert(n * q == q * n) by (nonlinear_arith);
            }
            let rem = a as int - up * n;
            assert(rem == if exact {
                0int
            } else {
                n - b % n
            }) by (nonlinear_arith)
                requires
                    b == -a,
                    b == q * n + b % n,
                    up == if exact {
                        -q
                    } else {
                        -q - 1
                    },
                    exact == (b % n == 0),
                    rem == a as int - up * n,
            ;
            vstd::arithmetic::div_mod::lemma_fundamental_div_mod_converse(
                a as int,
                n as int,
                up as int,
                rem,
            );
        }
        if exact {
            -q
        } else {
            -q - 1
        }
    }
}

/// The color of the share of tasks that are done: green from 70 percent on,
/// yellow from 40.
pub open spec fn rate_color(completed: usize, total: usize) -> Color {
    if total > 0 && completed * 10 >= total * 7 {
        Color::Green
    } else if total > 0 && completed * 10 >= total * 4 {
        Color::Yellow
    } else {
        Color::Red
    }
}

fn color_of_rate(completed: usize, total: usize) -> (r: Color)
    ensures
        r == rate_color(completed, total),
{
    let done: u128 = completed as u128 * 10;
    if total > 0 && done >= total as u128 * 7 {
        Color::Green
    } else if total > 0 && done >= total as u128 * 4 {
        Color::Yellow
    } else {
        Color::Red
    }
}

/// A heading among the statistics.
pub open spec fn stats_heading(s: Seq<char>) -> Seq<Span<Seq<char>>> {
    draw::blank().push(draw::sp(s, Style::bold(Color::Cyan)))
}

/// A line of the statistics: a label and a value.
pub open spec fn stats_line(label: Seq<char>, value: Seq<char>, color: Color) -> Seq<
    Span<Seq<char>>,
> {
    draw::blank().push(draw::sp(label, Style::fg(Color::Cyan))).push(
        draw::sp(value, Style::fg(color)),
    )
}

/// The lines of the statistics. `rate` is the share of done tasks in words.
pub open spec fn stats_lines(stats: TaskStats, rate: Seq<char>) -> draw::TextView {
    let times = stats.durations@;
    Seq::empty().push(stats_heading(" TASK STATISTICS"@)).push(draw::blank()).push(
        stats_line(
            "  Total Tasks:  "@,
            text::decimal(stats.total_tasks as nat),
            Color::White,
        ),
    ).push(
        stats_line(
            "  Completed:    "@,
            text::decimal(stats.completed_tasks as nat),
            Color::Green,
        ),
    ).push(
        stats_line(
            "  Failed:       "@,
            text::decimal(stats.failed_tasks as nat),
            Color::Red,
        ),
    ).push(
        stats_line(
            "  Running:      "@,
            text::decimal(stats.running_tasks as nat),
            Color::Yellow,
        ),
    ).push(draw::blank()).push(stats_heading(" DURATION (done tasks)"@)).push(draw::blank()).push(
        stats_line("  Avg time:     "@, shown_duration(average(times)), Color::White),
    ).push(
        stats_line("  Max time:     "@, shown_duration(longest(times)), Color::White),
    ).push(
        stats_line("  Min time:     "@, shown_duration(shortest(times)), Color::White),
    ).push(draw::blank()).push(stats_heading(" COMPLETION"@)).push(draw::blank()).push(
        stats_line(
            "  Done rate:    "@,
            rate,
            rate_color(stats.completed_tasks, stats.total_tasks),
        ),
    )
}

/// The frame of a pane.
pub open spec fn pane_block(title: Seq<char>) -> Block<Seq<char>> {
    Block::<Seq<char>>::new(Borders::all(), Style::fg(Color::Rgb(60, 64, 80))).titled(
        draw::sp(title, Style::fg(Color::Rgb(140, 144, 170))),
    )
}

fn block_of_pane(title: &str) -> (r: Block<String>)
    ensures
        r.plain() == pane_block(title@),
{
    Block::new(Borders::all(), Style::fg(Color::Rgb(60, 64, 80))).titled(
        draw::span(title, Style::fg(Color::Rgb(140, 144, 170))),
    )
}

fn heading(s: &str) -> (r: Line)
    ensures
        r@ == stats_heading(s@),
{
    Line::of(s, Style::bold(Color::Cyan))
}

fn labelled(label: &str, value: &str, color: Color) -> (r: Line)
    ensures
        r@ == stats_line(label@, value@, color),
{
    Line::of(label, Style::fg(Color::Cyan)).with(value, Style::fg(color))
}

fn count_text(n: usize) -> (r: String)
    ensures
        r@ == text::decimal(n as nat),
{
    text::dec(n as u64)
}

/// What is drawn for the statistics.
pub open spec fn stats_drawn(
    before: draw::Drawn,
    area: Rect,
    stats: TaskStats,
    rate: Seq<char>,
) -> draw::Drawn {
    before.push(
        Draw::Text {
            area,
            lines: stats_lines(stats, rate),
            style: Style::plain(),
            centered: false,
            wrap: Wrap::Cut,
            block: Some(pane_block(" Stats "@)),
        },
    )
}

/// Render the left pane with task statistics.
pub fn render_stats_pane(canvas: &mut Canvas, area: Rect, stats: &TaskStats, rate: &str)
    ensures
        final(canvas)@ == stats_drawn(old(canvas)@, area, *stats, rate@),
{
    let (avg, max, min) = summarise(&stats.durations);
    let mut lines = Lines::new();
    lines.push(heading(" TASK STATISTICS"));
    lines.push(Line::new());
    lines.push(
        labelled("  Total Tasks:  ", count_text(stats.total_tasks).as_str(), Color::White),
    );
    lines.push(
        labelled("  Completed:    ", count_text(stats.completed_tasks).as_str(), Color::Green),
    );
    lines.push(
        labelled("  Failed:       ", count_text(stats.failed_tasks).as_str(), Color::Red),
    );
    lines.push(
        labelled("  Running:      ", count_text(stats.running_tasks).as_str(), Color::Yellow),
    );
    lines.push(Line::new());
    lines.push(heading(" DURATION (done tasks)"));
    lines.push(Line::new());
    lines.push(labelled("  Avg time:     ", format_duration(avg).as_str(), Color::White));
    lines.push(labelled("  Max time:     ", format_duration(max).as_str(), Color::White));
    lines.push(labelled("  Min time:     ", format_duration(min).as_str(), Color::White));
    lines.push(Line::new());
    lines.push(heading(" COMPLETION"));
    lines.push(Line::new());
    lines.push(
        labelled(
            "  Done rate:    ",
            rate,
            color_of_rate(stats.completed_tasks, stats.total_tasks),
        ),
    );
    canvas.put(
        Draw::Text {
            area,
            lines,
            style: Style::plain(),
            centered: false,
            wrap: Wrap::Cut,
            block: Some(block_of_pane(" Stats ")),
        },
    );
}

/// The first line of a commit: its hash and its message, the selected one with
/// a cursor before it.
pub open spec fn commit_head(commit: GitCommit, selected: bool) -> Seq<Span<Seq<char>>> {
    if selected {
        draw::blank().push(draw::sp(" ▶ "@, Style::fg(Color::Cyan))).push(
            draw::sp(commit.hash@ + " "@, Style::bold(Color::Yellow)),
        ).push(draw::sp(shortened(commit.message@, 40), Style::fg(Color::White)))
    } else {
        draw::blank().push(draw::sp("   "@, Style::plain())).push(
            draw::sp(commit.hash@ + " "@, Style::fg(Color::Rgb(140, 144, 170))),
        ).push(draw::sp(shortened(commit.message@, 40), Style::fg(Color::Rgb(180, 184, 200))))
    }
}

/// The second line of a commit: its author and its date.
pub open spec fn commit_meta(commit: GitCommit, selected: bool) -> Seq<Span<Seq<char>>> {
    let color = if selected {
        Color::Rgb(180, 184, 200)
    } else {
        Color::Rgb(100, 104, 120)
    };
    draw::blank().push(draw::sp("     "@, Style::plain())).push(
        draw::sp(shortened(commit.author@, 20), Style::fg(color)),
    ).push(draw::sp("  "@ + commit.date@, Style::fg(color)))
}

fn head_of(commit: &GitCommit, selected: bool) -> (r: Line)
    ensures
        r@ == commit_head(*commit, selected),
{
    let hash = text::join2(commit.hash.as_str(), " ");
    let message = truncate_str(commit.message.as_str(), 40);
    if selected {
        Line::of(" ▶ ", Style::fg(Color::Cyan)).with(
            hash.as_str(),
            Style::bold(Color::Yellow),
        ).with(message.as_str(), Style::fg(Color::White))
    } else {
        Line::of("   ", Style::plain()).with(
            hash.as_str(),
            Style::fg(Color::Rgb(140, 144, 170)),
        ).with(message.as_str(), Style::fg(Color::Rgb(180, 184, 200)))
    }
}

fn meta_of(commit: &GitCommit, selected: bool) -> (r: Line)
    ensures
        r@ == commit_meta(*commit, selected),
{
    let color = if selected {
        Color::Rgb(180, 184, 200)
    } else {
        Color::Rgb(100, 104, 120)
    };
    Line::of("     ", Style::plain()).with(
        truncate_str(commit.author.as_str(), 20).as_str(),
        Style::fg(color),
    ).with(text::join2("  ", commit.date.as_str()).as_str(), Style::fg(color))
}

/// The lines of the first `n` commits from `first` on.
pub open spec fn commit_lines(
    commits: Seq<GitCommit>,
    first: int,
    selected: usize,
    n: int,
) -> draw::TextView
    decreases n,
{
    if n <= 0 {
        Seq::empty()
    } else {
        let i = first + n - 1;
        commit_lines(commits, first, selected, n - 1).push(
            commit_head(commits[i], i == selected),
        ).push(commit_meta(commits[i], i == selected))
    }
}

proof fn lemma_commit_lines(
    commits: Seq<GitCommit>,
    first: int,
    selected: usize,
    n: int,
    k: int,
)
    requires
        0 <= k < n,
    ensures
        commit_lines(commits, first, selected, n).len() == 2 * n,
        commit_lines(commits, first, selected, n)[2 * k] == commit_head(
            commits[first + k],
            first + k == selected,
        ),
    decreases n,
{
    if n > 1 {
        lemma_commit_lines(
            commits,
            first,
            selected,
            n - 1,
            if k < n - 1 {
                k
            } else {
                0
            },
        );
    } else {
        assert(commit_lines(commits, first, selected, 0).len() == 0);
    }
}

/// The title over the commits.
pub open spec fn commits_title(count: nat) -> Seq<char> {
    " Recent Commits ("@ + text::decimal(count) + ") "@
}

/// How many commits there is room for in the given number of rows: each takes
/// two, and one is shown in any case.
pub open spec fn commits_in(height: u16) -> u16 {
    if height >= 2 {
        height / 2
    } else {
        1
    }
}

/// What is drawn for the commits: as many as there is room for, the selected one
/// among them, and a mark that shows where in the list they stand.
pub open spec fn commits_drawn(
    before: draw::Drawn,
    area: Rect,
    reports: ReportsState,
) -> draw::Drawn {
    let inner = area.bordered(Borders::all());
    let total = reports.commits@.len();
    let frame = Draw::Block { area, block: pane_block(commits_title(total)) };
    if total == 0 {
        before.push(
            draw::text_in_the_middle(
                inner,
                draw::only(
                    draw::blank().push(
                        draw::sp("No commits found"@, Style::fg(Color::Rgb(140, 144, 170))),
                    ),
                ),
                Style::plain(),
            ),
        ).push(frame)
    } else if inner.height == 0 {
        before
    } else {
        let room = commits_in(inner.height);
        let first = config_editor::shown_from(
            reports.selected_index,
            reports.scroll_offset,
            room as usize,
        );
        let listed = before.push(
            draw::text_at(
                inner,
                commit_lines(
                    reports.commits@,
                    first as int,
                    reports.selected_index,
                    config_editor::rows_shown(total, first, room) as int,
                ),
                Style::plain(),
            ),
        ).push(frame);
        if total > room {
            listed.push(
                Draw::ScrollMark {
                    area: inner,
                    first,
                    shown: room as usize,
                    total: total as usize,
                },
            )
        } else {
            listed
        }
    }
}

fn first_commit(reports: &ReportsState, height: usize) -> (r: usize)
    requires
        height > 0,
    ensures
        r == config_editor::shown_from(reports.selected_index, reports.scroll_offset, height),
{
    if reports.selected_index < reports.scroll_offset {
        reports.selected_index
    } else if reports.selected_index - reports.scroll_offset >= height {
        reports.selected_index - height + 1
    } else {
        reports.scroll_offset
    }
}

fn title_of_commits(count: usize) -> (r: String)
    ensures
        r@ == commits_title(count as nat),
{
    let mut out = text::join2(" Recent Commits (", count_text(count).as_str());
    out.append(") ");
    out
}

/// Render the right pane with the scrollable commit list.
pub fn render_commits_pane(canvas: &mut Canvas, area: Rect, reports: &ReportsState)
    requires
        area.fits(),
    ensures
        final(canvas)@ == commits_drawn(old(canvas)@, area, *reports),
{
    let inner = area.within(Borders::all());
    let total: usize = reports.commits.len();
    let title = title_of_commits(total);
    if total == 0 {
        canvas.middle(
            inner,
            Lines::of(Line::of("No commits found", Style::fg(Color::Rgb(140, 144, 170)))),
            Style::plain(),
        );
        canvas.block(area, block_of_pane(title.as_str()));
        return;
    }
    if inner.height == 0 {
        return;
    }
    let room: u16 = if inner.height >= 2 {
        inner.height / 2
    } else {
        1
    };
    let shown: usize = room as usize;
    let first: usize = first_commit(reports, shown);
    let mut lines = Lines::new();
    let mut n: usize = 0;
    while first < total && n < total - first && n < shown
        invariant
            shown == room,
            total == reports.commits@.len(),
            n <= config_editor::rows_shown(total as nat, first, room),
            lines@ == commit_lines(
                reports.commits@,
                first as int,
                reports.selected_index,
                n as int,
            ),
        decreases shown - n,
    {
        let i: usize = first + n;
        let selected = i == reports.selected_index;
        lines.push(head_of(&reports.commits[i], selected));
        lines.push(meta_of(&reports.commits[i], selected));
        n += 1;
    }
    canvas.text(inner, lines, Style::plain());
    canvas.block(area, block_of_pane(title.as_str()));
    if total > shown {
        canvas.put(Draw::ScrollMark { area: inner, first, shown, total });
    }
}

/// The rows of the reports view: title bar, panes and footer.
pub open spec fn reports_rows() -> Seq<Constraint> {
    seq![Constraint::Length(1), Constraint::Min(0), Constraint::Length(1)]
}

/// The panes of the reports view: statistics and commits.
pub open spec fn reports_panes() -> Seq<Constraint> {
    seq![Constraint::Percentage(35), Constraint::Min(0)]
}

/// What is drawn for the reports, with title bar, panes and footer in place.
pub open spec fn panes_drawn(
    before: draw::Drawn,
    reports: ReportsState,
    rate: Seq<char>,
    rows: Seq<Rect>,
    panes: Seq<Rect>,
) -> draw::Drawn {
    let titled = before.push(draw::word_at(rows[0], " Reports "@, Style::bold(Color::Cyan)));
    commits_drawn(
        stats_drawn(titled, panes[0], reports.stats, rate),
        panes[1],
        reports,
    ).push(
        draw::text_in_the_middle(
            rows[2],
            draw::only(
                draw::blank().push(
                    draw::sp(
                        " j/k: scroll  Esc/q: close "@,
                        Style::fg(Color::Rgb(140, 144, 170)),
                    ),
                ),
            ),
            Style::plain(),
        ),
    )
}

/// Draws the reports, with title bar, panes and footer in place.
pub fn draw_reports(
    canvas: &mut Canvas,
    reports: &ReportsState,
    rate: &str,
    rows: &Vec<Rect>,
    panes: &Vec<Rect>,
)
    requires
        rows@.len() == 3,
        panes@.len() == 2,
        panes@[1].fits(),
    ensures
        final(canvas)@ == panes_drawn(old(canvas)@, *reports, rate@, rows@, panes@),
{
    canvas.word(rows[0], " Reports ", Style::bold(Color::Cyan));
    render_stats_pane(canvas, panes[0], &reports.stats, rate);
    render_commits_pane(canvas, panes[1], reports);
    canvas.middle(
        rows[2],
        Lines::of(
            Line::of(" j/k: scroll  Esc/q: close ", Style::fg(Color::Rgb(140, 144, 170))),
        ),
        Style::plain(),
    );
}

/// An error in place of the reports.
pub open spec fn reports_error(area: Rect, error: Seq<char>) -> Draw<Seq<char>, draw::TextView> {
    Draw::Text {
        area,
        lines: draw::only(draw::blank().push(draw::sp(error, Style::fg(Color::Red)))),
        style: Style::plain(),
        centered: false,
        wrap: Wrap::Cut,
        block: Some(
            Block::<Seq<char>>::new(Borders::all(), Style::fg(Color::Red)).titled(
                draw::sp(" Reports "@, Style::bold(Color::Rgb(140, 144, 170))),
            ).title_in_the_middle(),
        ),
    }
}

/// What is drawn for the reports view: nothing when it is not open, nothing but
/// a blank area without room, an error, or the two panes.
pub open spec fn reports_drawn(
    before: draw::Drawn,
    area: Rect,
    reports: Option<ReportsState>,
    rate: Seq<char>,
    after: draw::Drawn,
) -> bool {
    match reports {
        None => after == before,
        Some(r) => {
            let cleared = before.push(Draw::Clear { area });
            if area.height < 6 || area.width < 40 {
                after == cleared
            } else {
                match r.error {
                    Some(error) => after == cleared.push(reports_error(area, error@)),
                    None => exists|rows: Seq<Rect>, panes: Seq<Rect>|
                        #[trigger] draw::parts_of(area, Direction::Vertical, reports_rows(), rows)
                            && #[trigger] draw::parts_of(
                            rows[1],
                            Direction::Horizontal,
                            reports_panes(),
                            panes,
                        ) && after == panes_drawn(cleared, r, rate, rows, panes),
                }
            }
        },
    }
}

/// Render the reports view as a full-screen two-pane overlay.
///
/// Left pane: task statistics (total, completed, failed, running, avg/max/min time, completion rate).
/// Right pane: scrollable list of the latest git commits. `rate` is the share
/// of done tasks in words.
pub fn render_reports(canvas: &mut Canvas, area: Rect, reports: &Option<ReportsState>, rate: &str)
    requires
        area.fits(),
    ensures
        reports_drawn(old(canvas)@, area, *reports, rate@, final(canvas)@),
{
    let reports = match reports {
        Some(r) => r,
        None => {
            return;
        },
    };
    canvas.clear(area);
    if area.height < 6 || area.width < 40 {
        return;
    }
    match &reports.error {
        Some(error) => {
            canvas.put(
                Draw::Text {
                    area,
                    lines: Lines::of(Line::of(error.as_str(), Style::fg(Color::Red))),
                    style: Style::plain(),
                    centered: false,
                    wrap: Wrap::Cut,
                    block: Some(
                        Block::new(Borders::all(), Style::fg(Color::Red)).titled(
                            draw::span(" Reports ", Style::bold(Color::Rgb(140, 144, 170))),
                        ).title_in_the_middle(),
                    ),
                },
            );
        },
        None => {
            let wanted = vec![Constraint::Length(1), Constraint::Min(0), Constraint::Length(1)];
            proof {
                assert(wanted@ =~= reports_rows());
            }
            let rows = draw::split(area, Direction::Vertical, &wanted);
            let widths = vec![Constraint::Percentage(35), Constraint::Min(0)];
            proof {
                assert(widths@ =~= reports_panes());
            }
            let panes = draw::split(rows[1], Direction::Horizontal, &widths);
            draw_reports(canvas, reports, rate, &rows, &panes);
            proof {
                assert(draw::parts_of(area, Direction::Vertical, reports_rows(), rows@));
                assert(draw::parts_of(
                    rows@[1],
                    Direction::Horizontal,
                    reports_panes(),
                    panes@,
                ));
            }
        },
    }
}

/// The average lies between the shortest and the longest duration.
pub proof fn law_average_is_between(times: Seq<i64>)
    requires
        times.len() > 0,
        forall|i: int| 0 <= i < times.len() ==> #[trigger] times[i] > 0,
    ensures
        0 < shortest(times) <= average(times) <= longest(times),
{
    lemma_sum_bounds(times);
    let n = times.len() as int;
    let sum = total_time(times);
    let lo = shortest(times);
    let hi = longest(times);
    assert(lo <= sum / n <= hi) by (nonlinear_arith)
        requires
            n > 0,
            n * lo <= sum <= n * hi,
    ;
}

proof fn lemma_sum_bounds(times: Seq<i64>)
    requires
        times.len() > 0,
        forall|i: int| 0 <= i < times.len() ==> #[trigger] times[i] > 0,
    ensures
        0 < shortest(times) <= longest(times),
        times.len() * shortest(times) <= total_time(times) <= times.len() * longest(times),
    decreases times.len(),
{
    if times.len() == 1 {
        reveal_with_fuel(total_time, 3);
        reveal_with_fuel(longest, 3);
        assert(times.drop_last() =~= Seq::<i64>::empty());
    } else {
        let rest = times.drop_last();
        assert forall|i: int| 0 <= i < rest.len() implies #[trigger] rest[i] > 0 by {
            assert(rest[i] == times[i]);
        }
        lemma_sum_bounds(rest);
        let n = rest.len() as int;
        let t = times.last() as int;
        let lo = shortest(rest);
        let hi = longest(rest);
        let low = shortest(times);
        let high = longest(times);
        let sum = total_time(rest);
        assert((n + 1) * low <= sum + t <= (n + 1) * high) by (nonlinear_arith)
            requires
                n > 0,
                n * lo <= sum <= n * hi,
                low <= lo,
                low <= t,
                hi <= high,
                t <= high,
        ;
    }
}

/// The selected commit is in sight: it is listed, marked as selected, on a line
/// within the height of the pane, and so is the line below it where the pane is
/// more than one row high.
pub proof fn law_selected_commit_is_in_sight(reports: ReportsState, height: u16)
    requires
        reports.selected_index < reports.commits@.len() <= usize::MAX,
        height > 0,
    ensures
        ({
            let selected = reports.selected_index;
            let room = commits_in(height);
            let first = config_editor::shown_from(
                selected,
                reports.scroll_offset,
                room as usize,
            );
            let n = config_editor::rows_shown(reports.commits@.len(), first, room) as int;
            let lines = commit_lines(reports.commits@, first as int, selected, n);
            let row = 2 * (selected - first);
            &&& first <= selected < first + n
            &&& 0 <= row < lines.len()
            &&& row < height
            &&& height > 1 ==> row + 1 < height
            &&& lines[row] == commit_head(reports.commits@[selected as int], true)
        }),
{
    let selected = reports.selected_index;
    let room = commits_in(height);
    let first = config_editor::shown_from(selected, reports.scroll_offset, room as usize);
    let n = config_editor::rows_shown(reports.commits@.len(), first, room) as int;
    lemma_commit_lines(reports.commits@, first as int, selected, n, selected - first);
}

/// The statistics count what they say: completed are the tasks in the done and
/// the review column, failed those whose agent has failed, running those whose
/// agent runs or is about to.
pub proof fn law_statistics_count_tasks(tasks: Seq<(String, CortexTask)>)
    ensures
        completed(tasks) == tasks.filter(
            |e: (String, CortexTask)| e.1.column@ == "done"@ || e.1.column@ == "review"@,
        ).len(),
        failed(tasks) == tasks.filter(
            |e: (String, CortexTask)| e.1.agent_status == AgentStatus::Error,
        ).len(),
        running(tasks) == tasks.filter(
            |e: (String, CortexTask)|
                e.1.agent_status == AgentStatus::Running || e.1.agent_status
                    == AgentStatus::Pending,
        ).len(),
    decreases tasks.len(),
{
    reveal(Seq::filter);
    if tasks.len() > 0 {
        law_statistics_count_tasks(tasks.drop_last());
    }
}

/// The durations are those of the tasks in the done column, in order, from their
/// creation to their coming there; tasks without both times have none.
pub proof fn law_durations_are_of_done_tasks(tasks: Seq<(String, CortexTask)>)
    ensures
        durations(tasks) == tasks.filter(
            |e: (String, CortexTask)|
                e.1.column@ == "done"@ && 0 < e.1.created_at < e.1.entered_column_at,
        ).map_values(
            |e: (String, CortexTask)| (e.1.entered_column_at - e.1.created_at) as i64,
        ),
    decreases tasks.len(),
{
    reveal(Seq::filter);
    let timed = |e: (String, CortexTask)|
        e.1.column@ == "done"@ && 0 < e.1.created_at < e.1.entered_column_at;
    let span = |e: (String, CortexTask)| (e.1.entered_column_at - e.1.created_at) as i64;
    if tasks.len() > 0 {
        let front = tasks.drop_last();
        law_durations_are_of_done_tasks(front);
        let kept = tasks.filter(timed);
        let before = front.filter(timed);
        if timed(tasks.last()) {
            assert(kept == before.push(tasks.last()));
            assert(kept.map_values(span) =~= before.map_values(span).push(span(tasks.last())));
        } else {
            assert(kept == before);
        }
    } else {
        assert(tasks.filter(timed).map_values(span) =~= Seq::<i64>::empty());
    }
}

/// The longest of the durations is one of them and none is longer; the shortest
/// is one of them and none is shorter.
pub proof fn law_longest_and_shortest(times: Seq<i64>)
    requires
        times.len() > 0,
        forall|i: int| 0 <= i < times.len() ==> #[trigger] times[i] > 0,
    ensures
        exists|i: int| 0 <= i < times.len() && #[trigger] times[i] == longest(times),
        exists|i: int| 0 <= i < times.len() && #[trigger] times[i] == shortest(times),
        forall|i: int|
            0 <= i < times.len() ==> shortest(times) <= #[trigger] times[i] <= longest(times),
    decreases times.len(),
{
    let front = times.drop_last();
    let last = times.len() - 1;
    assert(times[last] == times.last());
    if front.len() > 0 {
        law_longest_and_shortest(front);
        let i = choose|i: int| 0 <= i < front.len() && #[trigger] front[i] == longest(front);
        let j = choose|j: int| 0 <= j < front.len() && #[trigger] front[j] == shortest(front);
        assert(times[i] == longest(front));
        assert(times[j] == shortest(front));
        assert forall|k: int| 0 <= k < times.len() implies shortest(times) <= #[trigger] times[k]
            <= longest(times) by {
            if k < last {
                assert(front[k] == times[k]);
            }
        }
    } else {
        reveal_with_fuel(longest, 2);
    }
}

/// A duration is spelled in its two largest units, which together leave less than
/// one of the smaller unit over.
pub proof fn law_durations_are_spelled(secs: nat)
    ensures
        secs >= 3600 ==> exists|h: nat, m: nat|
            m < 60 && h * 3600 + m * 60 <= secs < h * 3600 + m * 60 + 60 && spelled_seconds(secs)
                == #[trigger] text::decimal(h) + "h "@ + #[trigger] text::decimal(m) + "m"@,
        60 <= secs < 3600 ==> exists|m: nat, s: nat|
            s < 60 && m * 60 + s == secs && spelled_seconds(secs) == #[trigger] text::decimal(m)
                + "m "@ + #[trigger] text::decimal(s) + "s"@,
        secs < 60 ==> spelled_seconds(secs) == text::decimal(secs) + "s"@,
{
    let h = secs / 3600;
    let m = (secs / 60) % 60;
    let s = secs % 60;
    assert(secs / 60 / 60 == secs / 3600);
    if secs >= 3600 {
        assert(m < 60 && h * 3600 + m * 60 <= secs < h * 3600 + m * 60 + 60);
        assert(spelled_seconds(secs) == text::decimal(h) + "h "@ + text::decimal(m) + "m"@);
    } else if secs >= 60 {
        assert(s < 60 && m * 60 + s == secs);
        assert(spelled_seconds(secs) == text::decimal(m) + "m "@ + text::decimal(s) + "s"@);
    }
}

/// The time shown is that from the one time to the other.
pub proof fn law_elapsed_is_the_difference(entered_at: i64, secs: nat)
    requires
        entered_at > 0,
        entered_at + secs <= i64::MAX,
    ensures
        elapsed(entered_at, (entered_at + secs) as i64) == spelled_seconds(secs),
{
}

/// The keys for down and up select the entry below and above in the pane that has
/// the focus, and leave the other pane alone; Tab changes the pane; Escape and
/// `q` leave the reports.
pub proof fn law_reports_keys(
    before: AppState,
    key: KeyEvent,
    after: AppState,
    fx: Seq<Effect<Seq<char>>>,
    r: ReportsState,
)
    requires
        reports_key(before, key, after, fx),
        before.ui.mode == AppMode::Reports,
        before.ui.reports == Some(r),
        r.selected_task_index < r.task_ids@.len() <= usize::MAX,
        r.selected_index < r.commits@.len() <= usize::MAX,
    ensures
        ({
            let down = key.code == KeyCode::Down || key.code == KeyCode::Char('j');
            let up = key.code == KeyCode::Up || key.code == KeyCode::Char('k');
            let leaves = key.code == KeyCode::Esc || key.code == KeyCode::Char('q');
            let s = after.ui.reports->0;
            let on_tasks = r.focused_pane == ReportsFocusedPane::Tasks;
            let task = r.selected_task_index as int;
            let commit = r.selected_index as int;
            &&& down && on_tasks ==> s.selected_index == commit && s.selected_task_index == if task
                + 1 < r.task_ids@.len() {
                task + 1
            } else {
                task
            }
            &&& up && on_tasks ==> s.selected_index == commit && s.selected_task_index == if task
                > 0 {
                task - 1
            } else {
                0
            }
            &&& down && !on_tasks ==> s.selected_task_index == task && s.selected_index
                == if commit + 1 < r.commits@.len() {
                commit + 1
            } else {
                commit
            }
            &&& up && !on_tasks ==> s.selected_task_index == task && s.selected_index == if commit
                > 0 {
                commit - 1
            } else {
                0
            }
            &&& down || up ==> fx.len() == 0 && s.focused_pane == r.focused_pane
            &&& key.code == KeyCode::Tab ==> s.focused_pane != r.focused_pane && s.selected_index
                == commit && s.selected_task_index == task
            &&& leaves ==> after.ui.mode == AppMode::Normal && after.ui.reports is None && fx.len()
                == 0
            &&& key.code == KeyCode::Enter && on_tasks ==> after.ui.mode == AppMode::Normal
                && state::opt_view(after.ui.focused_task_id) == Some(r.task_ids@[task]@)
            &&& !leaves && !(key.code == KeyCode::Enter && on_tasks) ==> after.ui.mode
                == AppMode::Reports
        }),
{
}

/// A commit is read field by field: hash, message, author, date and time, in
/// this order, and a line with fewer fields gives none.
pub proof fn law_commit_fields_in_order(line: Seq<char>)
    ensures
        ({
            let f = text::fields(line, "\t"@, 5);
            &&& commit_of(line) is Some <==> f.len() >= 5
            &&& commit_of(line) is Some ==> commit_of(line)->0.hash == f[0] && commit_of(
                line,
            )->0.message == f[1] && commit_of(line)->0.author == f[2] && commit_of(line)->0.date
                == f[3]
            &&& commit_of(line) is Some && text::parsed_signed(f[4]) is Some ==> commit_of(
                line,
            )->0.timestamp == text::parsed_signed(f[4])->0
        }),
{
}

/// The share of completed tasks looks good from seven in ten on, fair from four
/// in ten on, and bad below and without tasks.
pub proof fn law_rate_color_follows_the_share(completed: usize, total: usize)
    ensures
        total > 0 && 10 * completed >= 7 * total <==> rate_color(completed, total) is Green,
        total > 0 && 4 * total <= 10 * completed < 7 * total <==> rate_color(completed, total)
            is Yellow,
        total == 0 || 10 * completed < 4 * total <==> rate_color(completed, total) is Red,
{
}

/// A task opened from the reports is focused where it stands on the board: in its
/// column, and there at its place.
pub proof fn law_chosen_task_is_focused_in_place(
    before: AppState,
    id: String,
    after: AppState,
    t: CortexTask,
    ids: Vec<String>,
    i: int,
)
    requires
        task_chosen(before, id, after),
        tasks::task_of(before, id@) == Some(t),
        table::lookup(before.kanban.columns@, t.column@) == Some(ids),
        text::place(text::texts(ids@), id@) == Some(i),
        0 <= i < ids@.len() <= usize::MAX,
    ensures
        after.ui.focused_task_id == Some(id),
        after.ui.focused_column == t.column,
        after.kanban.focused_task_index@[t.column@] == i,
        after.kanban.columns == before.kanban.columns,
        after.ui.mode == AppMode::Normal,
{
}

/// The commits are those on the lines of the output, in order, one for each line
/// that has the fields of one.
pub proof fn law_commits_come_in_order(a: Seq<Seq<char>>, line: Seq<char>)
    ensures
        commits_on(a.push(line)) == if text::fields(line, "\t"@, 5).len() >= 5 {
            commits_on(a).push(commit_of(line)->0)
        } else {
            commits_on(a)
        },
        commits_on(Seq::empty()).len() == 0,
{
    assert(a.push(line).drop_last() =~= a);
}

/// The statistics are labelled with what they are: each count, and the average,
/// longest and shortest duration, stands behind its own label.
pub proof fn law_statistics_stand_behind_their_labels(stats: TaskStats, rate: Seq<char>)
    ensures
        ({
            let lines = stats_lines(stats, rate);
            let times = stats.durations@;
            let says = |label: Seq<char>, value: Seq<char>|
                exists|i: int|
                    0 <= i < lines.len() && (#[trigger] lines[i]).len() == 2 && lines[i][0].text
                        == label && lines[i][1].text == value;
            &&& says("  Total Tasks:  "@, text::decimal(stats.total_tasks as nat))
            &&& says("  Completed:    "@, text::decimal(stats.completed_tasks as nat))
            &&& says("  Failed:       "@, text::decimal(stats.failed_tasks as nat))
            &&& says("  Running:      "@, text::decimal(stats.running_tasks as nat))
            &&& says("  Avg time:     "@, shown_duration(average(times)))
            &&& says("  Max time:     "@, shown_duration(longest(times)))
            &&& says("  Min time:     "@, shown_duration(shortest(times)))
            &&& says("  Done rate:    "@, rate)
        }),
{
    let lines = stats_lines(stats, rate);
    let times = stats.durations@;
    assert(lines[2].len() == 2 && lines[2][0].text == "  Total Tasks:  "@);
    assert(lines[3].len() == 2 && lines[3][0].text == "  Completed:    "@);
    assert(lines[4].len() == 2 && lines[4][0].text == "  Failed:       "@);
    assert(lines[5].len() == 2 && lines[5][0].text == "  Running:      "@);
    assert(lines[9].len() == 2 && lines[9][0].text == "  Avg time:     "@);
    assert(lines[10].len() == 2 && lines[10][0].text == "  Max time:     "@);
    assert(lines[11].len() == 2 && lines[11][0].text == "  Min time:     "@);
    assert(lines[15].len() == 2 && lines[15][0].text == "  Done rate:    "@);
}

/// A duration is shown where there is one, and a dash where there is none.
pub proof fn law_no_duration_is_a_dash(secs: int)
    requires
        secs <= u64::MAX,
    ensures
        secs <= 0 ==> shown_duration(secs) == "—"@,
        secs > 0 ==> shown_duration(secs) == spelled_seconds(secs as nat),
{
}

/// The reports are opened over the tasks as they are, with the commits of the
/// working directory of the active project asked for, and closed by the same key.
pub proof fn law_reports_open_and_close(
    a: AppState,
    b: AppState,
    fx: Seq<Effect<Seq<char>>>,
    c: AppState,
    fx2: Seq<Effect<Seq<char>>>,
)
    requires
        a.ui.mode == AppMode::Normal,
        reports_toggled(a, b, fx),
        reports_toggled(b, c, fx2),
    ensures
        b.ui.mode == AppMode::Reports,
        b.ui.reports is Some,
        b.ui.reports->0.stats.total_tasks == a.tasks.entries@.len(),
        b.ui.reports->0.stats.completed_tasks == completed(a.tasks.entries@),
        b.ui.reports->0.stats.failed_tasks == failed(a.tasks.entries@),
        b.ui.reports->0.stats.running_tasks == running(a.tasks.entries@),
        text::texts(b.ui.reports->0.task_ids@).len() == a.tasks.entries@.len(),
        forall|i: int|
            0 <= i < a.tasks.entries@.len() ==> #[trigger] text::texts(
                b.ui.reports->0.task_ids@,
            )[i] == a.tasks.entries@[i].0@,
        fx == seq![
            Effect::LoadCommits {
                working_dir: if a.project_registry.active_project_id is Some {
                    a.project_registry.working_dir(a.project_registry.active_project_id->0@)
                } else {
                    None
                },
            },
        ],
        c.ui.mode == AppMode::Normal,
        c.ui.reports is None,
        fx2.len() == 0,
{
}

} // verus!
