//! Task handlers: create, open detail, move, delete, abort, retry.

use vstd::prelude::*;
use crate::config::ColumnsConfig;
use crate::effects;
use crate::effects::{Effect, Effects};
use crate::mouse;
use crate::state;
use crate::state::{
    AgentStatus, AppMode, AppState, Clients, CortexTask, FocusedPanel, NotificationVariant,
    SessionRef, SessionTracker, UiState,
};
use crate::table;
use crate::table::Table;
use crate::text;

verus! {

/// Open the task editor to create a new task.
pub fn handle_create_task(state: &AppState) -> (fx: Effects)
    ensures
        fx@ == seq![Effect::OpenTaskEditor { column_id: state.ui.focused_column@ }],
{
    Effects::one(Effect::OpenTaskEditor { column_id: state.ui.focused_column.clone() })
}

/// What asking to edit a task does: with a task focused, the editor is opened
/// on it.
pub open spec fn edit_asked(state: AppState) -> Seq<Effect<Seq<char>>> {
    match state.ui.focused_task_id {
        Some(id) => seq![Effect::EditTask { task_id: id@ }],
        None => seq![effects::notice("No task selected"@, NotificationVariant::Info, 2000)],
    }
}

/// Open the task editor on the focused task.
pub fn handle_edit_task(state: &AppState) -> (fx: Effects)
    ensures
        fx@ == edit_asked(*state),
{
    match &state.ui.focused_task_id {
        Some(id) => Effects::one(Effect::EditTask { task_id: id.clone() }),
        None => Effects::say("No task selected", NotificationVariant::Info, 2000),
    }
}

/// The task with the given id.
pub open spec fn task_of(state: AppState, id: Seq<char>) -> Option<CortexTask> {
    table::lookup(state.tasks@, id)
}

/// The working directory to look for changes of a task in: that of its
/// project, when the task can be reviewed.
pub open spec fn review_dir(state: AppState, task_id: Seq<char>) -> Option<Seq<char>> {
    match task_of(state, task_id) {
        Some(t) => if t.agent_status.reviewable() {
            state.project_registry.working_dir(t.project_id@)
        } else {
            None
        },
        None => None,
    }
}

/// The working directory to look for changes of a task in.
pub fn review_directory(state: &AppState, task_id: &str) -> (r: Option<String>)
    ensures
        state::opt_view(r) == review_dir(*state, task_id@),
{
    match state.tasks.get(task_id) {
        Some(t) => if t.agent_status.is_reviewable() {
            state.project_registry.working_directory_of(t.project_id.as_str())
        } else {
            None
        },
        None => None,
    }
}

/// What opening the detail view of a task does: the view is opened, the diff
/// review is set to return to it, and the changed files of a task that can be
/// reviewed are loaded.
pub open spec fn detail_opened(state: AppState, task_id: Seq<char>) -> Seq<Effect<Seq<char>>> {
    let opened = seq![
        Effect::OpenTaskDetail { task_id },
        Effect::SetDiffReviewSource { panel: FocusedPanel::TaskDetail },
    ];
    match review_dir(state, task_id) {
        Some(working_dir) => opened.push(Effect::LoadChangedFiles { task_id, working_dir }),
        None => opened,
    }
}

/// Opens the detail view of a task.
pub fn open_detail(state: &AppState, task_id: &str) -> (fx: Effects)
    ensures
        fx@ == detail_opened(*state, task_id@),
{
    let mut fx = Effects::new();
    fx.push(Effect::OpenTaskDetail { task_id: task_id.to_owned() });
    fx.push(Effect::SetDiffReviewSource { panel: FocusedPanel::TaskDetail });
    proof {
        assert(fx@ =~= seq![
            Effect::OpenTaskDetail { task_id: task_id@ },
            Effect::SetDiffReviewSource { panel: FocusedPanel::TaskDetail },
        ]);
    }
    if let Some(working_dir) = review_directory(state, task_id) {
        fx.push(Effect::LoadChangedFiles { task_id: task_id.to_owned(), working_dir });
    }
    fx
}

/// Open the task detail view for the focused task.
/// Loads changed files for reviewable tasks.
pub fn handle_open_task_detail(state: &AppState) -> (fx: Effects)
    ensures
        fx@ == match state.ui.focused_task_id {
            Some(id) => detail_opened(*state, id@),
            None => seq![effects::notice("No task selected"@, NotificationVariant::Info, 2000)],
        },
{
    match &state.ui.focused_task_id {
        Some(id) => open_detail(state, id.as_str()),
        None => Effects::say("No task selected", NotificationVariant::Info, 2000),
    }
}

/// What moving the focused task by `direction` columns does: it is moved when
/// there is such a column, and the agent of that column is then dispatched.
pub open spec fn task_shifted(state: AppState, visible: Seq<String>, direction: int) -> Seq<
    Effect<Seq<char>>,
> {
    match state.ui.focused_task_id {
        None => seq![
            effects::notice("No task selected to move"@, NotificationVariant::Warning, 2000),
        ],
        Some(id) => match mouse::stepped(
            state.kanban.focused_column_index as int,
            direction,
            visible.len() as int,
        ) {
            Some(i) => seq![
                Effect::MoveTask { task_id: id@, column: visible[i]@ },
                Effect::DispatchAgent { task_id: id@, column: visible[i]@ },
            ],
            None => seq![
                effects::notice(
                    if direction > 0 {
                        "Already at the last column"@
                    } else {
                        "Already at the first column"@
                    },
                    NotificationVariant::Warning,
                    2000,
                ),
            ],
        },
    }
}

/// Move the focused task forward or backward by `direction` columns (+1 or -1).
pub fn handle_move_task(state: &AppState, visible: &Vec<String>, direction: i32) -> (fx: Effects)
    ensures
        fx@ == task_shifted(*state, visible@, direction as int),
{
    let id = match &state.ui.focused_task_id {
        Some(id) => id,
        None => {
            return Effects::say("No task selected to move", NotificationVariant::Warning, 2000);
        },
    };
    match mouse::try_step(state.kanban.focused_column_index, direction, visible.len()) {
        Some(i) => {
            let mut fx = Effects::new();
            fx.push(Effect::MoveTask { task_id: id.clone(), column: visible[i].clone() });
            fx.push(Effect::DispatchAgent { task_id: id.clone(), column: visible[i].clone() });
            proof {
                assert(fx@ =~= task_shifted(*state, visible@, direction as int));
            }
            fx
        },
        None => {
            let message = if direction > 0 {
                "Already at the last column"
            } else {
                "Already at the first column"
            };
            Effects::say(message, NotificationVariant::Warning, 2000)
        },
    }
}

/// What dispatching the agent of a column on a task does. Nothing without an
/// agent or with one that is running. A hung task, a missing project and a
/// missing connection are reported. Else the task is set to work and the
/// orchestration is told, with the agent that the task had before.
pub open spec fn dispatched(
    state: AppState,
    columns: ColumnsConfig,
    clients: Clients,
    task_id: Seq<char>,
    column: Seq<char>,
) -> Seq<Effect<Seq<char>>> {
    let task = task_of(state, task_id);
    if columns.agent_of(column) is None {
        seq![]
    } else if task is Some && task->0.agent_status is Running {
        seq![]
    } else if task is Some && task->0.agent_status is Hung {
        seq![
            effects::notice(
                "Task is hung — abort the session before re-dispatching"@,
                NotificationVariant::Warning,
                5000,
            ),
        ]
    } else {
        match state.project_registry.active_project_id {
            None => seq![
                effects::notice(
                    "No active project — agent dispatch skipped"@,
                    NotificationVariant::Warning,
                    3000,
                ),
            ],
            Some(pid) => if !clients.serves(pid@) {
                seq![
                    effects::notice(
                        "No OpenCode client for this project"@,
                        NotificationVariant::Warning,
                        3000,
                    ),
                ]
            } else {
                seq![
                    Effect::SetAgentStatus { task_id, status: AgentStatus::Running },
                    Effect::SetAgentType { task_id, agent: columns.agent_of(column) },
                    Effect::TaskMoved {
                        project_id: pid@,
                        task_id,
                        column,
                        previous_agent: match task {
                            Some(t) => state::opt_view(t.agent_type),
                            None => None,
                        },
                    },
                ]
            },
        }
    }
}

/// Starts the agent of a column on a task that has come into it.
pub fn dispatch_agent(
    state: &AppState,
    columns: &ColumnsConfig,
    clients: &Clients,
    task_id: &str,
    column: &str,
) -> (fx: Effects)
    ensures
        fx@ == dispatched(*state, *columns, *clients, task_id@, column@),
{
    let agent = columns.agent_for_column(column);
    if agent.is_none() {
        return Effects::new();
    }
    let previous_agent: Option<String> = match state.tasks.get(task_id) {
        Some(t) => {
            match t.agent_status {
                AgentStatus::Running => {
                    return Effects::new();
                },
                AgentStatus::Hung => {
                    return Effects::say(
                        "Task is hung — abort the session before re-dispatching",
                        NotificationVariant::Warning,
                        5000,
                    );
                },
                _ => {},
            }
            state::clone_opt(&t.agent_type)
        },
        None => None,
    };
    let pid = match &state.project_registry.active_project_id {
        Some(pid) => pid,
        None => {
            return Effects::say(
                "No active project — agent dispatch skipped",
                NotificationVariant::Warning,
                3000,
            );
        },
    };
    if !clients.has(pid.as_str()) {
        return Effects::say(
            "No OpenCode client for this project",
            NotificationVariant::Warning,
            3000,
        );
    }
    let mut fx = Effects::new();
    fx.push(
        Effect::SetAgentStatus { task_id: task_id.to_owned(), status: AgentStatus::Running },
    );
    fx.push(Effect::SetAgentType { task_id: task_id.to_owned(), agent });
    fx.push(
        Effect::TaskMoved {
            project_id: pid.clone(),
            task_id: task_id.to_owned(),
            column: column.to_owned(),
            previous_agent,
        },
    );
    proof {
        assert(fx@ =~= dispatched(*state, *columns, *clients, task_id@, column@));
    }
    fx
}

/// A task that is moved into a column with an agent starts working: moving it
/// asks for the agent of just that column, and unless the task is at work
/// already, it is set to run with that agent and the orchestration is told.
/// `moved` is the state when the agent is dispatched.
pub proof fn law_entering_a_column_starts_its_agent(
    state: AppState,
    visible: Seq<String>,
    direction: int,
    moved: AppState,
    columns: ColumnsConfig,
    clients: Clients,
)
    requires
        state.ui.focused_task_id is Some,
        0 <= state.kanban.focused_column_index + direction < visible.len(),
        columns.agent_of(visible[state.kanban.focused_column_index + direction]@) is Some,
        clients.serves_active(&moved.project_registry),
        match task_of(moved, state.ui.focused_task_id->0@) {
            Some(t) => !(t.agent_status is Running) && !(t.agent_status is Hung),
            None => true,
        },
    ensures
        ({
            let task_id = state.ui.focused_task_id->0@;
            let column = visible[state.kanban.focused_column_index + direction]@;
            let asked = task_shifted(state, visible, direction);
            let done = dispatched(moved, columns, clients, task_id, column);
            &&& asked.len() == 2
            &&& asked[0] == Effect::MoveTask { task_id, column }
            &&& asked[1] == Effect::DispatchAgent { task_id, column }
            &&& done.len() == 3
            &&& done[0] == Effect::<Seq<char>>::SetAgentStatus {
                task_id,
                status: AgentStatus::Running,
            }
            &&& done[1] == Effect::SetAgentType { task_id, agent: columns.agent_of(column) }
            &&& done[2] is TaskMoved
            &&& done[2]->TaskMoved_task_id == task_id
            &&& done[2]->TaskMoved_column == column
        }),
{
}

/// A running or hung task is never set to work again by a dispatch.
pub proof fn law_no_second_dispatch(
    state: AppState,
    columns: ColumnsConfig,
    clients: Clients,
    task_id: Seq<char>,
    column: Seq<char>,
    i: int,
)
    requires
        task_of(state, task_id) is Some,
        task_of(state, task_id)->0.agent_status is Running || task_of(
            state,
            task_id,
        )->0.agent_status is Hung,
        0 <= i < dispatched(state, columns, clients, task_id, column).len(),
    ensures
        dispatched(state, columns, clients, task_id, column)[i] is Notify,
{
}

/// Delete the focused task (enter confirmation mode).
pub fn handle_delete_task(state: &mut AppState) -> (fx: Effects)
    ensures
        deletion_asked(*old(state), *final(state), fx@),
{
    match state::clone_opt(&state.ui.focused_task_id) {
        Some(id) => {
            state.ui.pending_delete_task_id = Some(id);
            state.ui.mode = AppMode::ConfirmDelete;
            state.mark_render_dirty();
            Effects::new()
        },
        None => Effects::say("No task selected to delete", NotificationVariant::Info, 2000),
    }
}

/// What asking to delete does: with a task focused, the question is put.
pub open spec fn deletion_asked(
    before: AppState,
    after: AppState,
    fx: Seq<Effect<Seq<char>>>,
) -> bool {
    if before.ui.focused_task_id is Some {
        &&& after == (AppState {
            ui: UiState {
                pending_delete_task_id: before.ui.focused_task_id,
                mode: AppMode::ConfirmDelete,
                ..before.ui
            },
            render_dirty: true,
            ..before
        })
        &&& fx.len() == 0
    } else {
        &&& after == before
        &&& fx == seq![
            effects::notice("No task selected to delete"@, NotificationVariant::Info, 2000),
        ]
    }
}

/// Execute the pending deletion (called from confirm mode).
pub fn execute_delete_task(state: &mut AppState) -> (fx: Effects)
    ensures
        deletion_confirmed(*old(state), *final(state), fx@),
{
    let pending = state::clone_opt(&state.ui.pending_delete_task_id);
    state.ui.pending_delete_task_id = None;
    state.ui.mode = AppMode::Normal;
    match pending {
        Some(id) => Effects::one(Effect::DeleteTask { task_id: id }),
        None => Effects::new(),
    }
}

/// What confirming a deletion does: back to normal mode, and the task that was
/// asked about is deleted.
pub open spec fn deletion_confirmed(
    before: AppState,
    after: AppState,
    fx: Seq<Effect<Seq<char>>>,
) -> bool {
    &&& after == (AppState {
        ui: UiState { pending_delete_task_id: None, mode: AppMode::Normal, ..before.ui },
        ..before
    })
    &&& fx == match before.ui.pending_delete_task_id {
        Some(id) => seq![Effect::DeleteTask { task_id: id@ }],
        None => seq![],
    }
}

/// What follows the deletion of a task that had, or had not, a session.
pub open spec fn deletion_done(
    state: AppState,
    clients: Clients,
    task_id: Seq<char>,
    session: Option<Seq<char>>,
) -> Seq<Effect<Seq<char>>> {
    let clamped = seq![Effect::ClampFocusedTask { column_id: state.ui.focused_column@ }];
    let closed = if state::opt_view(state.ui.viewing_task_id) == Some(task_id) {
        clamped.push(Effect::CloseTaskDetail)
    } else {
        clamped
    };
    let said = closed.push(effects::notice("Task deleted"@, NotificationVariant::Info, 3000));
    match (session, state.project_registry.active_project_id) {
        (Some(session_id), Some(pid)) => if clients.serves(pid@) {
            said.push(Effect::AbortSession { project_id: pid@, session_id })
        } else {
            said
        },
        _ => said,
    }
}

/// Cleans up after the deletion of a task; `session_id` is the session that it
/// had.
pub fn task_deleted(
    state: &AppState,
    clients: &Clients,
    task_id: &str,
    session_id: Option<String>,
) -> (fx: Effects)
    ensures
        fx@ == deletion_done(*state, *clients, task_id@, state::opt_view(session_id)),
{
    let mut fx = Effects::one(
        Effect::ClampFocusedTask { column_id: state.ui.focused_column.clone() },
    );
    if state::opt_is(&state.ui.viewing_task_id, task_id) {
        fx.push(Effect::CloseTaskDetail);
    }
    fx.notify("Task deleted", NotificationVariant::Info, 3000);
    if let Some(session_id) = session_id {
        if let Some(pid) = &state.project_registry.active_project_id {
            if clients.has(pid.as_str()) {
                fx.push(Effect::AbortSession { project_id: pid.clone(), session_id });
            }
        }
    }
    fx
}

/// The session of the focused task.
pub open spec fn focused_session(state: AppState) -> Option<String> {
    match state.ui.focused_task_id {
        Some(id) => match task_of(state, id@) {
            Some(t) => t.session_id,
            None => None,
        },
        None => None,
    }
}

/// Abort the active session for the focused task.
pub fn handle_abort_session(state: &AppState, clients: &Clients) -> (fx: Effects)
    ensures
        fx@ == match focused_session(*state) {
            None => seq![
                effects::notice("No active session to abort"@, NotificationVariant::Info, 2000),
            ],
            Some(sid) => if clients.serves_active(&state.project_registry) {
                seq![
                    Effect::RequestAbort {
                        project_id: state.project_registry.active_project_id->0@,
                        session_id: sid@,
                    },
                ]
            } else {
                seq![
                    effects::notice(
                        "No client available to abort session"@,
                        NotificationVariant::Error,
                        3000,
                    ),
                ]
            },
        },
{
    let session: Option<String> = match &state.ui.focused_task_id {
        Some(id) => match state.tasks.get(id.as_str()) {
            Some(t) => state::clone_opt(&t.session_id),
            None => None,
        },
        None => None,
    };
    match session {
        None => Effects::say("No active session to abort", NotificationVariant::Info, 2000),
        Some(session_id) => {
            if let Some(pid) = &state.project_registry.active_project_id {
                if clients.has(pid.as_str()) {
                    return Effects::one(
                        Effect::RequestAbort { project_id: pid.clone(), session_id },
                    );
                }
            }
            Effects::say(
                "No client available to abort session",
                NotificationVariant::Error,
                3000,
            )
        },
    }
}

/// Reports how the request to abort a session went.
pub fn abort_finished(state: &mut AppState, session_id: &str, failed: bool) -> (fx: Effects)
    ensures
        *final(state) == (AppState { render_dirty: true, ..*old(state) }),
        fx@ == seq![
            if failed {
                effects::notice(
                    "Failed to abort session: "@ + session_id@,
                    NotificationVariant::Error,
                    5000,
                )
            } else {
                effects::notice(
                    "Session abort requested: "@ + session_id@,
                    NotificationVariant::Warning,
                    3000,
                )
            },
        ],
{
    state.mark_render_dirty();
    if failed {
        let message = text::join2("Failed to abort session: ", session_id);
        Effects::say(message.as_str(), NotificationVariant::Error, 5000)
    } else {
        let message = text::join2("Session abort requested: ", session_id);
        Effects::say(message.as_str(), NotificationVariant::Warning, 3000)
    }
}

/// What asking to retry the focused task does. Only a hung or failed task can
/// be retried, and only with a connection and an agent for its column.
pub open spec fn retried(state: AppState, columns: ColumnsConfig, clients: Clients) -> Seq<
    Effect<Seq<char>>,
> {
    let task = match state.ui.focused_task_id {
        Some(id) => task_of(state, id@),
        None => None,
    };
    match task {
        None => seq![
            effects::notice("No task selected to retry"@, NotificationVariant::Info, 2000),
        ],
        Some(t) => if !(t.agent_status is Hung || t.agent_status is Error) {
            seq![
                effects::notice(
                    "Cannot retry — task status is "@ + t.agent_status.spelled()
                        + " (only Hung/Error can be retried)"@,
                    NotificationVariant::Info,
                    3000,
                ),
            ]
        } else if !clients.serves_active(&state.project_registry) {
            seq![
                effects::notice(
                    "No OpenCode client for this project"@,
                    NotificationVariant::Warning,
                    3000,
                ),
            ]
        } else if columns.agent_of(t.column@) is None {
            seq![
                effects::notice(
                    "No agent configured for this column — cannot retry"@,
                    NotificationVariant::Warning,
                    3000,
                ),
            ]
        } else {
            seq![
                Effect::RetryTask {
                    project_id: state.project_registry.active_project_id->0@,
                    task_id: state.ui.focused_task_id->0@,
                    session_id: state::opt_view(t.session_id),
                    column: t.column@,
                },
            ]
        },
    }
}

/// Retry a hung or errored task: abort the old session, clear stale state,
/// and re-dispatch the agent for the task's current column.
pub fn handle_retry_task(
    state: &AppState,
    columns: &ColumnsConfig,
    clients: &Clients,
) -> (fx: Effects)
    ensures
        fx@ == retried(*state, *columns, *clients),
{
    if let Some(id) = &state.ui.focused_task_id {
        if let Some(t) = state.tasks.get(id.as_str()) {
            if !matches!(t.agent_status, AgentStatus::Hung | AgentStatus::Error) {
                let mut message = text::join2("Cannot retry — task status is ", t.agent_status.name());
                message.append(" (only Hung/Error can be retried)");
                return Effects::say(message.as_str(), NotificationVariant::Info, 3000);
            }
            if let Some(pid) = &state.project_registry.active_project_id {
                if clients.has(pid.as_str()) {
                    if columns.agent_for_column(t.column.as_str()).is_none() {
                        return Effects::say(
                            "No agent configured for this column — cannot retry",
                            NotificationVariant::Warning,
                            3000,
                        );
                    }
                    return Effects::one(
                        Effect::RetryTask {
                            project_id: pid.clone(),
                            task_id: id.clone(),
                            session_id: state::clone_opt(&t.session_id),
                            column: t.column.clone(),
                        },
                    );
                }
            }
            return Effects::say(
                "No OpenCode client for this project",
                NotificationVariant::Warning,
                3000,
            );
        }
    }
    Effects::say("No task selected to retry", NotificationVariant::Info, 2000)
}

/// What follows once the old session of a task to be retried is out of the
/// way: its session is taken from it and the task is put back to work.
pub fn retry_started(project_id: &str, task_id: &str, column: &str) -> (fx: Effects)
    ensures
        fx@ == seq![
            Effect::ForgetSession { task_id: task_id@ },
            Effect::ClearSessionData { task_id: task_id@ },
            Effect::RetryReset { project_id: project_id@, task_id: task_id@, column: column@ },
        ],
{
    let mut fx = Effects::new();
    fx.push(Effect::ForgetSession { task_id: task_id.to_owned() });
    fx.push(Effect::ClearSessionData { task_id: task_id.to_owned() });
    fx.push(
        Effect::RetryReset {
            project_id: project_id.to_owned(),
            task_id: task_id.to_owned(),
            column: column.to_owned(),
        },
    );
    fx
}

/// `m` without the keys in `ids`.
pub open spec fn without<V>(m: Map<Seq<char>, V>, ids: Seq<Seq<char>>) -> Map<Seq<char>, V>
    decreases ids.len(),
{
    if ids.len() == 0 {
        m
    } else {
        without(m, ids.drop_last()).remove(ids.last())
    }
}

fn remove_all<V>(t: &mut Table<V>, ids: &Vec<String>)
    ensures
        final(t)@ == without(old(t)@, text::texts(ids@)),
{
    let ghost start = t@;
    let ghost all = text::texts(ids@);
    let mut i: usize = 0;
    proof {
        assert(all.take(0) =~= Seq::<Seq<char>>::empty());
    }
    while i < ids.len()
        invariant
            i <= ids@.len(),
            all == text::texts(ids@),
            t@ == without(start, all.take(i as int)),
        decreases ids@.len() - i,
    {
        proof {
            assert(all.take(i + 1).drop_last() =~= all.take(i as int));
            assert(all.take(i + 1).last() == ids@[i as int]@);
        }
        t.remove(ids[i].as_str());
        i += 1;
    }
    proof {
        assert(all.take(i as int) =~= all);
    }
}

/// Whether one of the drill-down steps belongs to a task.
pub open spec fn stack_names(stack: Seq<SessionRef>, task_id: Seq<char>) -> bool {
    exists|i: int| 0 <= i < stack.len() && (#[trigger] stack[i]).task_id@ == task_id
}

fn stack_has(stack: &Vec<SessionRef>, task_id: &str) -> (r: bool)
    ensures
        r == stack_names(stack@, task_id@),
{
    let mut i: usize = 0;
    while i < stack.len()
        invariant
            i <= stack@.len(),
            forall|j: int| 0 <= j < i ==> (#[trigger] stack@[j]).task_id@ != task_id@,
        decreases stack@.len() - i,
    {
        if text::same(stack[i].task_id.as_str(), task_id) {
            return true;
        }
        i += 1;
    }
    false
}

/// The subagent sessions recorded for a task.
pub open spec fn subagents_of(tracker: SessionTracker, task_id: Seq<char>) -> Seq<Seq<char>> {
    match table::lookup(tracker.subagent_sessions@, task_id) {
        Some(ids) => text::texts(ids@),
        None => Seq::empty(),
    }
}

/// What putting a task back to work changes in the state: its error and its
/// pending counts are cleared, what was kept of its subagents is dropped, and
/// drill-down steps are forgotten when one of them belongs to the task.
pub open spec fn work_reset(before: AppState, task_id: Seq<char>, after: AppState) -> bool {
    let gone = subagents_of(before.session_tracker, task_id);
    &&& after == (AppState {
        tasks: after.tasks,
        session_tracker: SessionTracker {
            subagent_sessions: after.session_tracker.subagent_sessions,
            subagent_to_parent: after.session_tracker.subagent_to_parent,
            subagent_session_data: after.session_tracker.subagent_session_data,
            ..before.session_tracker
        },
        ui: UiState { session_nav_stack: after.ui.session_nav_stack, ..before.ui },
        render_dirty: true,
        ..before
    })
    &&& after.tasks@ == match task_of(before, task_id) {
        Some(t) => before.tasks@.insert(
            task_id,
            CortexTask {
                error_message: None,
                pending_permission_count: 0,
                pending_question_count: 0,
                ..t
            },
        ),
        None => before.tasks@,
    }
    &&& after.session_tracker.subagent_sessions@
        == before.session_tracker.subagent_sessions@.remove(task_id)
    &&& after.session_tracker.subagent_to_parent@ == without(
        before.session_tracker.subagent_to_parent@,
        gone,
    )
    &&& after.session_tracker.subagent_session_data@ == without(
        before.session_tracker.subagent_session_data@,
        gone,
    )
    &&& after.ui.session_nav_stack@ == if stack_names(before.ui.session_nav_stack@, task_id) {
        Seq::empty()
    } else {
        before.ui.session_nav_stack@
    }
}

/// What putting a task back to work asks for: the task runs again, the status
/// of its project is worked out anew, the detail view is closed when it showed
/// a forgotten session, and the orchestration is told.
pub open spec fn work_resumed(
    state: AppState,
    project_id: Seq<char>,
    task_id: Seq<char>,
    column: Seq<char>,
) -> Seq<Effect<Seq<char>>> {
    let task = task_of(state, task_id);
    let running = seq![Effect::SetAgentStatus { task_id, status: AgentStatus::Running }];
    let updated = match task {
        Some(t) => running.push(Effect::UpdateProjectStatus { project_id: t.project_id@ }),
        None => running,
    };
    let closed = if stack_names(state.ui.session_nav_stack@, task_id) && state::opt_view(
        state.ui.viewing_task_id,
    ) == Some(task_id) {
        updated.push(Effect::CloseTaskDetail)
    } else {
        updated
    };
    closed.push(
        Effect::TaskMoved {
            project_id,
            task_id,
            column,
            previous_agent: match task {
                Some(t) => state::opt_view(t.agent_type),
                None => None,
            },
        },
    ).push(
        effects::notice(
            "Task retry — re-dispatching agent"@,
            NotificationVariant::Success,
            3000,
        ),
    )
}

/// Puts a task back to work.
pub fn retry_reset(
    state: &mut AppState,
    project_id: &str,
    task_id: &str,
    column: &str,
) -> (fx: Effects)
    ensures
        work_reset(*old(state), task_id@, *final(state)),
        fx@ == work_resumed(*old(state), project_id@, task_id@, column@),
{
    let mut fx = Effects::one(
        Effect::SetAgentStatus { task_id: task_id.to_owned(), status: AgentStatus::Running },
    );
    let mut previous_agent: Option<String> = None;
    match state.tasks.get_mut(task_id) {
        Some(t) => {
            t.error_message = None;
            t.pending_permission_count = 0;
            t.pending_question_count = 0;
            previous_agent = state::clone_opt(&t.agent_type);
            fx.push(Effect::UpdateProjectStatus { project_id: t.project_id.clone() });
        },
        None => {},
    }
    match state.session_tracker.subagent_sessions.get(task_id) {
        Some(ids) => {
            remove_all(&mut state.session_tracker.subagent_to_parent, ids);
            remove_all(&mut state.session_tracker.subagent_session_data, ids);
        },
        None => {},
    }
    state.session_tracker.subagent_sessions.remove(task_id);
    if stack_has(&state.ui.session_nav_stack, task_id) {
        state.ui.session_nav_stack = Vec::new();
        if state::opt_is(&state.ui.viewing_task_id, task_id) {
            fx.push(Effect::CloseTaskDetail);
        }
    }
    state.mark_render_dirty();
    fx.push(
        Effect::TaskMoved {
            project_id: project_id.to_owned(),
            task_id: task_id.to_owned(),
            column: column.to_owned(),
            previous_agent,
        },
    );
    fx.notify("Task retry — re-dispatching agent", NotificationVariant::Success, 3000);
    fx
}

/// Only a hung or failed task is retried, and only with a connection and an agent
/// for its column; it is then retried in the column where it stands.
pub proof fn law_only_stuck_tasks_are_retried(
    state: AppState,
    columns: ColumnsConfig,
    clients: Clients,
    i: int,
)
    requires
        0 <= i < retried(state, columns, clients).len(),
        retried(state, columns, clients)[i] is RetryTask,
    ensures
        state.ui.focused_task_id is Some,
        task_of(state, state.ui.focused_task_id->0@) is Some,
        ({
            let t = task_of(state, state.ui.focused_task_id->0@)->0;
            &&& t.agent_status is Hung || t.agent_status is Error
            &&& clients.serves_active(&state.project_registry)
            &&& columns.agent_of(t.column@) is Some
            &&& retried(state, columns, clients)[i]->RetryTask_column == t.column@
            &&& retried(state, columns, clients)[i]->RetryTask_session_id == state::opt_view(
                t.session_id,
            )
        }),
{
}

/// A dispatch sets the task to work with the agent of the column just when the
/// column has an agent, the task neither runs nor hangs, and the active project
/// has a connection; the agent that the task had before is passed on.
pub proof fn law_dispatch_sets_to_work(
    state: AppState,
    columns: ColumnsConfig,
    clients: Clients,
    task_id: Seq<char>,
    column: Seq<char>,
)
    ensures
        ({
            let fx = dispatched(state, columns, clients, task_id, column);
            let task = task_of(state, task_id);
            let free = match task {
                Some(t) => !(t.agent_status is Running) && !(t.agent_status is Hung),
                None => true,
            };
            let works = columns.agent_of(column) is Some && free && clients.serves_active(
                &state.project_registry,
            );
            &&& works <==> fx.contains(
                Effect::SetAgentStatus { task_id, status: AgentStatus::Running },
            )
            &&& works <==> fx.contains(
                Effect::SetAgentType { task_id, agent: columns.agent_of(column) },
            )
            &&& works <==> exists|i: int| 0 <= i < fx.len() && (#[trigger] fx[i]) is TaskMoved
            &&& forall|i: int|
                0 <= i < fx.len() && (#[trigger] fx[i]) is TaskMoved ==> fx[i]
                    == (Effect::TaskMoved {
                    project_id: state.project_registry.active_project_id->0@,
                    task_id,
                    column,
                    previous_agent: if task is Some {
                        state::opt_view(task->0.agent_type)
                    } else {
                        None
                    },
                })
            &&& columns.agent_of(column) is None ==> fx.len() == 0
        }),
{
    let fx = dispatched(state, columns, clients, task_id, column);
    if fx.len() == 3 {
        assert(fx[0] == Effect::<Seq<char>>::SetAgentStatus {
            task_id,
            status: AgentStatus::Running,
        });
        assert(fx[1] == Effect::SetAgentType { task_id, agent: columns.agent_of(column) });
        assert(fx[2] is TaskMoved);
    }
}

/// After a task was deleted the focus is brought into range, the detail view is
/// closed just when it showed the task, and its session is aborted just when it
/// had one and there is a connection.
pub proof fn law_deletion_cleans_up(
    state: AppState,
    clients: Clients,
    task_id: Seq<char>,
    session: Option<Seq<char>>,
)
    ensures
        ({
            let fx = deletion_done(state, clients, task_id, session);
            let connected = clients.serves_active(&state.project_registry);
            &&& fx.contains(Effect::ClampFocusedTask { column_id: state.ui.focused_column@ })
            &&& state::opt_view(state.ui.viewing_task_id) == Some(task_id) <==> fx.contains(
                Effect::<Seq<char>>::CloseTaskDetail,
            )
            &&& session is Some && connected ==> fx.contains(
                Effect::AbortSession {
                    project_id: state.project_registry.active_project_id->0@,
                    session_id: session->0,
                },
            )
            &&& !(session is Some && connected) ==> forall|i: int|
                0 <= i < fx.len() ==> !((#[trigger] fx[i]) is AbortSession)
        }),
{
    let fx = deletion_done(state, clients, task_id, session);
    assert(fx[0] == (Effect::ClampFocusedTask { column_id: state.ui.focused_column@ }));
    if state::opt_view(state.ui.viewing_task_id) == Some(task_id) {
        assert(fx[1] == Effect::<Seq<char>>::CloseTaskDetail);
    }
    if session is Some && clients.serves_active(&state.project_registry) {
        assert(fx.last() == (Effect::AbortSession {
            project_id: state.project_registry.active_project_id->0@,
            session_id: session->0,
        }));
    }
}

proof fn lemma_without<V>(m: Map<Seq<char>, V>, ids: Seq<Seq<char>>, k: Seq<char>)
    ensures
        without(m, ids).contains_key(k) <==> m.contains_key(k) && !ids.contains(k),
        without(m, ids).contains_key(k) ==> without(m, ids)[k] == m[k],
    decreases ids.len(),
{
    if ids.len() > 0 {
        let front = ids.drop_last();
        lemma_without(m, front, k);
        if front.contains(k) {
            let i = choose|i: int| 0 <= i < front.len() && front[i] == k;
            assert(ids[i] == k);
        }
        if ids.contains(k) && k != ids.last() {
            let i = choose|i: int| 0 <= i < ids.len() && ids[i] == k;
            assert(front[i] == k);
        }
        if k == ids.last() {
            assert(ids[ids.len() - 1] == k);
        }
    }
}

/// Putting a task back to work clears what the last run left of it and of its
/// subagents, and leaves every other task and every other session alone.
pub proof fn law_reset_clears_just_the_task(
    before: AppState,
    task_id: Seq<char>,
    after: AppState,
    k: Seq<char>,
)
    requires
        work_reset(before, task_id, after),
    ensures
        ({
            let a = before.session_tracker;
            let b = after.session_tracker;
            let gone = a.subagent_sessions@.contains_key(task_id) && text::texts(
                a.subagent_sessions@[task_id]@,
            ).contains(k);
            &&& task_of(before, task_id) is Some ==> task_of(after, task_id) is Some && task_of(
                after,
                task_id,
            )->0.error_message is None && task_of(after, task_id)->0.pending_permission_count == 0
                && task_of(after, task_id)->0.pending_question_count == 0 && task_of(
                after,
                task_id,
            )->0.column == task_of(before, task_id)->0.column
            &&& k != task_id ==> task_of(after, k) == task_of(before, k)
            &&& table::lookup(b.subagent_sessions@, task_id) is None
            &&& k != task_id ==> table::lookup(b.subagent_sessions@, k) == table::lookup(
                a.subagent_sessions@,
                k,
            )
            &&& table::lookup(b.subagent_session_data@, k) == if gone {
                None
            } else {
                table::lookup(a.subagent_session_data@, k)
            }
            &&& table::lookup(b.subagent_to_parent@, k) == if gone {
                None
            } else {
                table::lookup(a.subagent_to_parent@, k)
            }
            &&& b.task_sessions == a.task_sessions
        }),
{
    let gone = subagents_of(before.session_tracker, task_id);
    lemma_without(before.session_tracker.subagent_session_data@, gone, k);
    lemma_without(before.session_tracker.subagent_to_parent@, gone, k);
}

/// Opening a task opens its detail view, and loads its changed files just when
/// its work can be reviewed: when it is ready or complete and its project has a
/// working directory.
pub proof fn law_opening_loads_reviewable_changes(state: AppState, task_id: Seq<char>)
    ensures
        ({
            let fx = detail_opened(state, task_id);
            let t = task_of(state, task_id);
            let loads = t is Some && (t->0.agent_status is Ready || t->0.agent_status is Complete)
                && state.project_registry.working_dir(t->0.project_id@) is Some;
            &&& fx[0] == (Effect::OpenTaskDetail { task_id })
            &&& loads ==> fx.contains(
                Effect::LoadChangedFiles {
                    task_id,
                    working_dir: state.project_registry.working_dir(t->0.project_id@)->0,
                },
            )
            &&& !loads ==> forall|i: int|
                0 <= i < fx.len() ==> !((#[trigger] fx[i]) is LoadChangedFiles)
        }),
{
    let fx = detail_opened(state, task_id);
    if fx.len() > 2 {
        assert(fx[2] is LoadChangedFiles);
        assert(fx.contains(fx[2]));
    }
}

/// A task that is put back to work runs again, in its column and with the agent it
/// had handed on; the detail view is closed just when it shows the task below one
/// of its subagents.
pub proof fn law_retry_resumes_the_work(
    state: AppState,
    project_id: Seq<char>,
    task_id: Seq<char>,
    column: Seq<char>,
)
    ensures
        ({
            let fx = work_resumed(state, project_id, task_id, column);
            let t = task_of(state, task_id);
            let below = exists|i: int|
                0 <= i < state.ui.session_nav_stack@.len() && (
                #[trigger] state.ui.session_nav_stack@[i]).task_id@ == task_id;
            &&& fx.contains(Effect::SetAgentStatus { task_id, status: AgentStatus::Running })
            &&& fx.contains(
                Effect::TaskMoved {
                    project_id,
                    task_id,
                    column,
                    previous_agent: if t is Some {
                        state::opt_view(t->0.agent_type)
                    } else {
                        None
                    },
                },
            )
            &&& t is Some ==> fx.contains(
                Effect::UpdateProjectStatus { project_id: t->0.project_id@ },
            )
            &&& below && state::opt_view(state.ui.viewing_task_id) == Some(task_id)
                <==> fx.contains(Effect::<Seq<char>>::CloseTaskDetail)
        }),
{
    let fx = work_resumed(state, project_id, task_id, column);
    assert(fx[0] == Effect::<Seq<char>>::SetAgentStatus { task_id, status: AgentStatus::Running });
    assert(fx[fx.len() - 2] is TaskMoved);
    assert(fx.contains(fx[fx.len() - 2]));
    if task_of(state, task_id) is Some {
        assert(fx[1] is UpdateProjectStatus);
        assert(fx.contains(fx[1]));
    }
    if stack_names(state.ui.session_nav_stack@, task_id) && state::opt_view(
        state.ui.viewing_task_id,
    ) == Some(task_id) {
        assert(fx[fx.len() - 3] == Effect::<Seq<char>>::CloseTaskDetail);
    }
}

} // verus!
