//! Permission modal: what waits for the user, and what becomes of it once the
//! user has decided.

use vstd::prelude::*;
use crate::effects;
use crate::effects::{Effect, Effects};
use crate::state;
use crate::state::{
    AgentStatus, AppState, Clients, FocusedPanel, NotificationVariant, TaskDetailSession, UiState,
};
use crate::table;
use crate::text;

verus! {

/// The session in view: that of the subagent drilled into, else that of the
/// task in the detail view.
pub open spec fn effective(state: AppState) -> Option<TaskDetailSession> {
    match state.drilldown() {
        Some(sid) => table::lookup(state.session_tracker.subagent_session_data@, sid),
        None => match state.ui.viewing_task_id {
            Some(tid) => table::lookup(state.session_tracker.task_sessions@, tid@),
            None => None,
        },
    }
}

/// Get the effective session for the current view context.
///
/// When drilled into a subagent, returns the subagent's session data.
/// Otherwise, returns the main task's session data.
pub fn get_effective_session(state: &AppState) -> (r: Option<&TaskDetailSession>)
    ensures
        match r {
            Some(s) => effective(*state) == Some(*s),
            None => effective(*state) is None,
        },
{
    match state.get_drilldown_session_id() {
        Some(sid) => state.session_tracker.subagent_session_data.get(sid.as_str()),
        None => match &state.ui.viewing_task_id {
            Some(tid) => state.session_tracker.task_sessions.get(tid.as_str()),
            None => None,
        },
    }
}

/// Whether a permission waits in the session in view.
pub open spec fn permission_waits(state: AppState) -> bool {
    state.ui.focused_panel == FocusedPanel::TaskDetail && match effective(state) {
        Some(s) => s.pending_permissions@.len() > 0,
        None => false,
    }
}

/// Check if there's a pending permission (vs question) for the current view.
pub fn has_pending_permission(state: &AppState) -> (r: bool)
    ensures
        r == permission_waits(*state),
{
    if state.ui.focused_panel != FocusedPanel::TaskDetail {
        return false;
    }
    match get_effective_session(state) {
        Some(s) => s.pending_permissions.len() > 0,
        None => false,
    }
}

/// How many options the modal offers: yes and no for a permission, else the
/// answers of the first question.
pub open spec fn option_count(state: AppState) -> nat {
    if state.ui.focused_panel != FocusedPanel::TaskDetail {
        0
    } else {
        match effective(state) {
            Some(s) => if s.pending_permissions@.len() > 0 {
                2
            } else if s.pending_questions@.len() > 0 {
                s.pending_questions@[0].answers@.len()
            } else {
                0
            },
            None => 0,
        }
    }
}

/// Get the number of options in the current modal.
pub fn get_modal_option_count(state: &AppState) -> (r: usize)
    ensures
        r == option_count(*state),
{
    if state.ui.focused_panel != FocusedPanel::TaskDetail {
        return 0;
    }
    match get_effective_session(state) {
        Some(s) => {
            if s.pending_permissions.len() > 0 {
                2
            } else if s.pending_questions.len() > 0 {
                s.pending_questions[0].answers.len()
            } else {
                0
            }
        },
        None => 0,
    }
}

/// Whether the session of a task still has something pending.
pub open spec fn task_pending(state: AppState, task_id: Seq<char>) -> bool {
    match table::lookup(state.session_tracker.task_sessions@, task_id) {
        Some(s) => s.pending(),
        None => false,
    }
}

/// After resolving a permission/question, sync modal state.
/// Closes the modal if no more pending items remain, resets selection otherwise.
pub fn sync_modal_after_resolve(s: &mut AppState, task_id: &str)
    ensures
        !old(s).ui.permission_modal_active ==> *final(s) == *old(s),
        old(s).ui.permission_modal_active ==> *final(s) == (AppState {
            ui: UiState {
                permission_modal_active: task_pending(*old(s), task_id@),
                permission_modal_selected_index: 0,
                ..old(s).ui
            },
            ..*old(s)
        }),
{
    if s.ui.permission_modal_active {
        let has_more = match s.session_tracker.task_sessions.get(task_id) {
            Some(sess) => sess.has_pending(),
            None => false,
        };
        s.ui.permission_modal_active = has_more;
        s.ui.permission_modal_selected_index = 0;
    }
}

/// Nothing happens.
pub open spec fn idle(before: AppState, after: AppState, fx: Seq<Effect<Seq<char>>>) -> bool {
    after == before && fx.len() == 0
}

/// A message is shown and a new frame is asked for.
pub open spec fn says(
    before: AppState,
    after: AppState,
    fx: Seq<Effect<Seq<char>>>,
    message: Seq<char>,
    variant: NotificationVariant,
    duration_ms: u64,
) -> bool {
    &&& after == (AppState { render_dirty: true, ..before })
    &&& fx == seq![effects::notice(message, variant, duration_ms)]
}

/// What confirming the modal does. Nothing outside the detail view. Without
/// anything pending the modal is closed with a warning. Without a connection
/// an error is shown. A permission is approved by the first option and
/// rejected by the second; a question is answered by the option selected.
pub open spec fn confirmed(
    before: AppState,
    clients: Clients,
    after: AppState,
    fx: Seq<Effect<Seq<char>>>,
) -> bool {
    if before.ui.focused_panel != FocusedPanel::TaskDetail {
        idle(before, after, fx)
    } else {
        match effective(before) {
            Some(s) if s.pending() => {
                if !clients.serves_active(&before.project_registry) {
                    says(
                        before,
                        after,
                        fx,
                        "Cannot resolve: no server connection for this project"@,
                        NotificationVariant::Error,
                        5000,
                    )
                } else {
                    let project_id = before.project_registry.active_project_id->0@;
                    let task_id = before.ui.viewing_task_id->0@;
                    let selected = before.ui.permission_modal_selected_index;
                    &&& after == before
                    &&& fx == if s.pending_permissions@.len() > 0 {
                        if selected > 1 {
                            seq![]
                        } else {
                            seq![
                                Effect::ResolvePermission {
                                    project_id,
                                    session_id: s.pending_permissions@[0].session_id@,
                                    permission_id: s.pending_permissions@[0].id@,
                                    task_id,
                                    approve: selected == 0,
                                },
                            ]
                        }
                    } else if selected < s.pending_questions@[0].answers@.len() {
                        seq![
                            Effect::ResolveQuestion {
                                project_id,
                                session_id: s.pending_questions@[0].session_id@,
                                question_id: s.pending_questions@[0].id@,
                                answer: s.pending_questions@[0].answers@[selected as int]@,
                                task_id,
                            },
                        ]
                    } else {
                        seq![]
                    }
                }
            },
            _ => if before.ui.viewing_task_id is Some {
                &&& after == (AppState {
                    ui: UiState {
                        permission_modal_active: false,
                        permission_modal_selected_index: 0,
                        ..before.ui
                    },
                    render_dirty: true,
                    ..before
                })
                &&& fx =~= seq![
                    effects::notice(
                        "No pending permission or question to resolve"@,
                        NotificationVariant::Warning,
                        3000,
                    ),
                ]
            } else {
                idle(before, after, fx)
            },
        }
    }
}

/// In the detail view, whatever is pending with a connection to resolve it
/// belongs to a task that is being viewed.
pub open spec fn task_known(state: AppState, clients: Clients) -> bool {
    state.ui.focused_panel == FocusedPanel::TaskDetail && clients.serves_active(
        &state.project_registry,
    ) && effective(state) is Some && effective(state)->0.pending()
        ==> state.ui.viewing_task_id is Some
}

/// Whether whatever is pending in the detail view belongs to a task in view.
pub fn is_task_known(state: &AppState, clients: &Clients) -> (r: bool)
    ensures
        r == task_known(*state, *clients),
{
    if state.ui.focused_panel != FocusedPanel::TaskDetail || state.ui.viewing_task_id.is_some() {
        return true;
    }
    let pending = match get_effective_session(state) {
        Some(s) => s.has_pending(),
        None => false,
    };
    !pending || !clients.has_active(&state.project_registry)
}

/// Execute the currently selected modal option (approve/reject permission or
/// answer question).
pub fn handle_modal_confirm(state: &mut AppState, clients: &Clients) -> (fx: Effects)
    requires
        task_known(*old(state), *clients),
    ensures
        confirmed(*old(state), *clients, *final(state), fx@),
{
    if state.ui.focused_panel != FocusedPanel::TaskDetail {
        return Effects::new();
    }
    let has_pending = match get_effective_session(state) {
        Some(s) => s.has_pending(),
        None => false,
    };
    if !has_pending {
        if state.ui.viewing_task_id.is_some() {
            state.ui.permission_modal_active = false;
            state.ui.permission_modal_selected_index = 0;
            state.mark_render_dirty();
            return Effects::say(
                "No pending permission or question to resolve",
                NotificationVariant::Warning,
                3000,
            );
        }
        return Effects::new();
    }
    if !clients.has_active(&state.project_registry) {
        state.mark_render_dirty();
        return Effects::say(
            "Cannot resolve: no server connection for this project",
            NotificationVariant::Error,
            5000,
        );
    }
    let selected: usize = state.ui.permission_modal_selected_index;
    match (&state.project_registry.active_project_id, &state.ui.viewing_task_id) {
        (Some(project_id), Some(task_id)) => match get_effective_session(state) {
            Some(s) => {
                if s.pending_permissions.len() > 0 {
                    if selected > 1 {
                        return Effects::new();
                    }
                    let perm = &s.pending_permissions[0];
                    Effects::one(
                        Effect::ResolvePermission {
                            project_id: project_id.clone(),
                            session_id: perm.session_id.clone(),
                            permission_id: perm.id.clone(),
                            task_id: task_id.clone(),
                            approve: selected == 0,
                        },
                    )
                } else {
                    let question = &s.pending_questions[0];
                    if selected < question.answers.len() {
                        Effects::one(
                            Effect::ResolveQuestion {
                                project_id: project_id.clone(),
                                session_id: question.session_id.clone(),
                                question_id: question.id.clone(),
                                answer: question.answers[selected].clone(),
                                task_id: task_id.clone(),
                            },
                        )
                    } else {
                        Effects::new()
                    }
                }
            },
            None => Effects::new(),
        },
        _ => Effects::new(),
    }
}

/// What follows once the server has taken, or refused, the decision on a
/// permission.
pub fn permission_resolved(
    state: &mut AppState,
    task_id: &str,
    permission_id: &str,
    approve: bool,
    outcome: Result<(), String>,
) -> (fx: Effects)
    ensures
        *final(state) == (AppState { render_dirty: true, ..*old(state) }),
        fx@ == match outcome {
            Ok(_) => seq![
                Effect::ClearPermission { task_id: task_id@, permission_id: permission_id@, approve },
                Effect::SyncModal { task_id: task_id@ },
                effects::notice(
                    if approve {
                        "Permission approved"@
                    } else {
                        "Permission rejected"@
                    },
                    NotificationVariant::Success,
                    2000,
                ),
            ],
            Err(e) => seq![
                effects::notice(
                    "Failed to resolve permission: "@ + e@,
                    NotificationVariant::Error,
                    5000,
                ),
            ],
        },
{
    state.mark_render_dirty();
    let mut fx = Effects::new();
    match outcome {
        Ok(_) => {
            fx.push(
                Effect::ClearPermission {
                    task_id: task_id.to_owned(),
                    permission_id: permission_id.to_owned(),
                    approve,
                },
            );
            fx.push(Effect::SyncModal { task_id: task_id.to_owned() });
            let message = if approve {
                "Permission approved"
            } else {
                "Permission rejected"
            };
            fx.notify(message, NotificationVariant::Success, 2000);
        },
        Err(e) => {
            let message = text::join2("Failed to resolve permission: ", e.as_str());
            fx.notify(message.as_str(), NotificationVariant::Error, 5000);
        },
    }
    fx
}

/// What follows once the server has taken, or refused, the answer to a
/// question: the question is cleared, the task reassessed, the modal brought
/// up to date, and the start of the answer shown.
pub fn question_resolved(
    state: &mut AppState,
    project_id: &str,
    task_id: &str,
    question_id: &str,
    answer: &str,
    outcome: Result<(), String>,
) -> (fx: Effects)
    ensures
        *final(state) == (AppState { render_dirty: true, ..*old(state) }),
        fx@ == match outcome {
            Ok(_) => seq![
                Effect::ClearQuestion { task_id: task_id@, question_id: question_id@ },
                Effect::ReassessTask { project_id: project_id@, task_id: task_id@ },
                Effect::SyncModal { task_id: task_id@ },
                effects::notice(
                    "Answered: "@ + text::first(answer@, 30),
                    NotificationVariant::Success,
                    3000,
                ),
            ],
            Err(e) => seq![
                effects::notice(
                    "Failed to answer question: "@ + e@,
                    NotificationVariant::Error,
                    5000,
                ),
            ],
        },
{
    state.mark_render_dirty();
    let mut fx = Effects::new();
    match outcome {
        Ok(_) => {
            fx.push(
                Effect::ClearQuestion {
                    task_id: task_id.to_owned(),
                    question_id: question_id.to_owned(),
                },
            );
            fx.push(
                Effect::ReassessTask {
                    project_id: project_id.to_owned(),
                    task_id: task_id.to_owned(),
                },
            );
            fx.push(Effect::SyncModal { task_id: task_id.to_owned() });
            let preview = text::take(answer, 30);
            let message = text::join2("Answered: ", preview.as_str());
            fx.notify(message.as_str(), NotificationVariant::Success, 3000);
        },
        Err(e) => {
            let message = text::join2("Failed to answer question: ", e.as_str());
            fx.notify(message.as_str(), NotificationVariant::Error, 5000);
        },
    }
    fx
}

/// What follows the reassessment of a task: with a new status it is set, and
/// when the task is to go on, the orchestration is told that its agent has
/// finished. `outcome` is `None` when nothing needed reassessment.
pub fn reassessed(
    project_id: &str,
    task_id: &str,
    outcome: Option<(AgentStatus, bool)>,
) -> (fx: Effects)
    ensures
        fx@ == match outcome {
            None => seq![],
            Some((status, false)) => seq![Effect::SetAgentStatus { task_id: task_id@, status }],
            Some((status, true)) => seq![
                Effect::SetAgentStatus { task_id: task_id@, status },
                Effect::CompleteAgent { project_id: project_id@, task_id: task_id@ },
            ],
        },
{
    let mut fx = Effects::new();
    if let Some((status, progress)) = outcome {
        fx.push(Effect::SetAgentStatus { task_id: task_id.to_owned(), status });
        if progress {
            fx.push(
                Effect::CompleteAgent {
                    project_id: project_id.to_owned(),
                    task_id: task_id.to_owned(),
                },
            );
        }
    }
    fx
}

/// What the orchestration wants done when an agent has finished.
#[derive(Debug, PartialEq, Eq)]
pub enum AgentCompletionAction {
    AutoProgress { target_column: String },
    SendQueuedPrompt {
        task_id: String,
        prompt: String,
        session_id: String,
        agent_type: Option<String>,
    },
}

/// What follows when an agent has finished: the task goes on to the next
/// column, or the prompt that was waiting is sent.
pub fn agent_completed(
    project_id: &str,
    task_id: &str,
    action: Option<AgentCompletionAction>,
) -> (fx: Effects)
    ensures
        fx@ == match action {
            None => seq![],
            Some(AgentCompletionAction::AutoProgress { target_column }) => seq![
                Effect::TaskMoved {
                    project_id: project_id@,
                    task_id: task_id@,
                    column: target_column@,
                    previous_agent: None,
                },
            ],
            Some(
                AgentCompletionAction::SendQueuedPrompt {
                    task_id: queued_for,
                    prompt,
                    session_id,
                    agent_type,
                },
            ) => seq![
                Effect::SendFollowUp {
                    project_id: project_id@,
                    task_id: queued_for@,
                    prompt: prompt@,
                    session_id: session_id@,
                    agent: state::opt_view(agent_type),
                },
            ],
        },
{
    match action {
        None => Effects::new(),
        Some(AgentCompletionAction::AutoProgress { target_column }) => Effects::one(
            Effect::TaskMoved {
                project_id: project_id.to_owned(),
                task_id: task_id.to_owned(),
                column: target_column,
                previous_agent: None,
            },
        ),
        Some(
            AgentCompletionAction::SendQueuedPrompt {
                task_id: queued_for,
                prompt,
                session_id,
                agent_type,
            },
        ) => Effects::one(
            Effect::SendFollowUp {
                project_id: project_id.to_owned(),
                task_id: queued_for,
                prompt,
                session_id,
                agent: agent_type,
            },
        ),
    }
}

/// A permission is approved only by the first option of the modal, and never
/// resolved without a connection.
pub proof fn law_only_the_first_option_approves(
    before: AppState,
    clients: Clients,
    after: AppState,
    fx: Seq<Effect<Seq<char>>>,
    i: int,
)
    requires
        confirmed(before, clients, after, fx),
        0 <= i < fx.len(),
        fx[i] is ResolvePermission,
    ensures
        fx[i]->ResolvePermission_approve <==> before.ui.permission_modal_selected_index == 0,
        clients.serves_active(&before.project_registry),
        before.ui.focused_panel == FocusedPanel::TaskDetail,
{
}

/// Confirming with nothing to decide closes the modal with a warning; without a
/// connection it is reported as an error and the modal stays. Either way nothing
/// is decided.
pub proof fn law_confirming_in_vain(
    before: AppState,
    clients: Clients,
    after: AppState,
    fx: Seq<Effect<Seq<char>>>,
)
    requires
        confirmed(before, clients, after, fx),
        before.ui.focused_panel == FocusedPanel::TaskDetail,
        before.ui.viewing_task_id is Some,
    ensures
        ({
            let waits = effective(before) is Some && (effective(
                before,
            )->0.pending_permissions@.len() > 0 || effective(before)->0.pending_questions@.len()
                > 0);
            let connected = clients.serves_active(&before.project_registry);
            &&& !waits ==> !after.ui.permission_modal_active && fx.len() == 1 && (fx[0]
                matches Effect::Notify { variant, .. } && variant is Warning)
            &&& waits && !connected ==> after.ui == before.ui && fx.len() == 1 && (fx[0]
                matches Effect::Notify { variant, .. } && variant is Error)
            &&& waits && connected ==> after == before && forall|i: int|
                0 <= i < fx.len() ==> (#[trigger] fx[i]) is ResolvePermission || fx[i]
                    is ResolveQuestion
        }),
{
}

/// Confirming decides on what has waited longest: on the first permission by the
/// option that is selected, and without one on the first question by the answer
/// that is selected.
pub proof fn law_confirming_decides_on_the_first(
    before: AppState,
    clients: Clients,
    after: AppState,
    fx: Seq<Effect<Seq<char>>>,
    s: TaskDetailSession,
)
    requires
        confirmed(before, clients, after, fx),
        before.ui.focused_panel == FocusedPanel::TaskDetail,
        clients.serves_active(&before.project_registry),
        effective(before) == Some(s),
    ensures
        ({
            let at = before.ui.permission_modal_selected_index as int;
            &&& s.pending_permissions@.len() > 0 && at < 2 ==> fx.len() == 1 && (fx[0]
                matches Effect::ResolvePermission { session_id, permission_id, approve, .. }
                && permission_id == s.pending_permissions@[0].id@ && session_id
                == s.pending_permissions@[0].session_id@ && (approve <==> at == 0))
            &&& s.pending_permissions@.len() == 0 && s.pending_questions@.len() > 0 && at
                < s.pending_questions@[0].answers@.len() ==> fx.len() == 1 && (fx[0]
                matches Effect::ResolveQuestion { session_id, question_id, answer, .. }
                && question_id == s.pending_questions@[0].id@ && session_id
                == s.pending_questions@[0].session_id@ && answer
                == s.pending_questions@[0].answers@[at]@)
        }),
{
}

/// The session in view is that of the subagent drilled into last, and without one
/// that of the task in the detail view.
pub proof fn law_session_in_view(state: AppState)
    ensures
        ({
            let stack = state.ui.session_nav_stack@;
            &&& stack.len() > 0 ==> effective(state) == table::lookup(
                state.session_tracker.subagent_session_data@,
                stack[stack.len() - 1].session_id@,
            )
            &&& stack.len() == 0 && state.ui.viewing_task_id is Some ==> effective(state)
                == table::lookup(
                state.session_tracker.task_sessions@,
                state.ui.viewing_task_id->0@,
            )
            &&& stack.len() == 0 && state.ui.viewing_task_id is None ==> effective(state) is None
        }),
{
}

} // verus!
