//! The event loop's decisions: which handler takes a key, what happens between
//! events, and when the permission modal opens by itself.

use vstd::prelude::*;
use crate::effects;
use crate::effects::{Effect, Effects};
use crate::keys::{KeyCode, KeyEvent};
use crate::modes;
use crate::normal;
use crate::normal::Desk;
use crate::permission;
use crate::prompts;
use crate::reports;
use crate::state::{
    AppMode, AppState, CortexTask, FocusedPanel, KanbanState, NotificationVariant,
    TaskDetailSession, UiState,
};
use crate::prompts::InputPrompt;
use crate::table;
use crate::text;

verus! {

// ─── Keys ─────────────────────────────────────────────────────────────────

/// What a key press does: a new frame is asked for, and the handler of the
/// current mode takes the key. In help mode any key closes the overlay.
pub open spec fn key_handled(
    before: AppState,
    key: KeyEvent,
    desk: Desk,
    archived: Seq<String>,
    term_width: u16,
    now_ms: u64,
    after: AppState,
    fx: Seq<Effect<Seq<char>>>,
) -> bool {
    let s = AppState { render_dirty: true, ..before };
    match before.ui.mode {
        AppMode::Normal => normal::normal_key(s, key, desk, term_width, now_ms, after, fx),
        AppMode::TaskEditor => prompts::editor_key(s, key, after, fx),
        AppMode::Help => fx.len() == 0 && after == (AppState {
            ui: UiState { mode: AppMode::Normal, ..s.ui },
            ..s
        }),
        AppMode::ProjectRename => prompts::prompt_key(
            s,
            key,
            InputPrompt::RenameProject,
            after,
            fx,
        ),
        AppMode::InputPrompt => match prompts::prompt_of(s.ui.prompt_context) {
            Some(prompt) => prompts::prompt_key(s, key, prompt, after, fx),
            None => after == s && fx.len() == 0,
        },
        AppMode::DiffReview => after == modes::review_handled(s, key) && fx.len() == 0,
        AppMode::Reports => reports::reports_key(s, key, after, fx),
        AppMode::ConfirmDelete => modes::confirm_key(s, key, after, fx),
        AppMode::Archive => modes::archive_key(s, key, archived, after, fx),
        AppMode::ConfigEditor => modes::config_key(s, key, after, fx),
    }
}

/// Handle a key event based on current mode.
pub fn handle_key_event(
    state: &mut AppState,
    key: KeyEvent,
    desk: &Desk,
    archived: &Vec<String>,
    term_width: u16,
    now_ms: u64,
) -> (fx: Effects)
    requires
        desk.board.column_width > 0,
        old(state).ui.mode == AppMode::Normal && normal::layer_of(*old(state), key)
            == normal::Layer::Modal && normal::confirms(*old(state), key)
            ==> permission::task_known(*old(state), desk.clients),
    ensures
        key_handled(
            *old(state),
            key,
            *desk,
            archived@,
            term_width,
            now_ms,
            *final(state),
            fx@,
        ),
{
    state.mark_render_dirty();
    match state.ui.mode {
        AppMode::Normal => normal::handle_normal_key(state, key, desk, term_width, now_ms),
        AppMode::TaskEditor => prompts::handle_editor_key(state, key),
        AppMode::Help => {
            state.ui.mode = AppMode::Normal;
            Effects::new()
        },
        AppMode::ProjectRename => prompts::handle_rename_key(state, key),
        AppMode::InputPrompt => prompts::handle_input_prompt_key(state, key),
        AppMode::DiffReview => {
            modes::handle_diff_review_key(state, key);
            Effects::new()
        },
        AppMode::Reports => reports::handle_reports_key(state, key),
        AppMode::ConfirmDelete => modes::handle_confirm_delete_key(state, key),
        AppMode::Archive => modes::handle_archive_key(state, key, archived),
        AppMode::ConfigEditor => modes::handle_config_editor_key(state, key),
    }
}

/// Any key takes the help overlay away, and does nothing else.
pub proof fn law_any_key_closes_help(
    before: AppState,
    key: KeyEvent,
    desk: Desk,
    archived: Seq<String>,
    term_width: u16,
    now_ms: u64,
    after: AppState,
    fx: Seq<Effect<Seq<char>>>,
)
    requires
        before.ui.mode == AppMode::Help,
        key_handled(before, key, desk, archived, term_width, now_ms, after, fx),
    ensures
        fx.len() == 0,
        after == (AppState {
            ui: UiState { mode: AppMode::Normal, ..before.ui },
            render_dirty: true,
            ..before
        }),
{
}

// ─── Between events ───────────────────────────────────────────────────────

/// The message on tasks whose agents have stopped answering.
pub open spec fn hung_message(count: usize, timeout_secs: u64) -> Seq<char> {
    text::decimal(count as nat) + " task(s) marked as Hung — no activity for "@ + text::decimal(
        timeout_secs as nat,
    ) + "s"@
}

/// What follows the upkeep between two events: a new frame when notifications
/// or the highlight have expired, and a warning when agents have hung since.
pub fn after_upkeep(
    state: &mut AppState,
    notifications_expired: bool,
    highlight_expired: bool,
    newly_hung: usize,
    timeout_secs: u64,
) -> (fx: Effects)
    ensures
        *final(state) == (AppState {
            render_dirty: old(state).render_dirty || notifications_expired || highlight_expired
                || newly_hung > 0,
            ..*old(state)
        }),
        fx@ == if newly_hung > 0 {
            seq![
                effects::notice(
                    hung_message(newly_hung, timeout_secs),
                    NotificationVariant::Warning,
                    5000,
                ),
            ]
        } else {
            seq![]
        },
{
    if notifications_expired || highlight_expired {
        state.mark_render_dirty();
    }
    if newly_hung > 0 {
        state.mark_render_dirty();
        let mut message = text::join2(
            text::dec(newly_hung as u64).as_str(),
            " task(s) marked as Hung — no activity for ",
        );
        message.append(text::dec(timeout_secs).as_str());
        message.append("s");
        return Effects::say(message.as_str(), NotificationVariant::Warning, 5000);
    }
    Effects::new()
}

// ─── The modal ────────────────────────────────────────────────────────────

/// For how long a dismissed modal stays closed, in milliseconds.
pub const DISMISSED_MS: u64 = 5000;

/// Whether the modal was dismissed a moment ago.
pub open spec fn dismissed_recently(state: AppState, now_ms: u64) -> bool {
    match state.ui.permission_modal_dismissed_at {
        Some(t) => now_ms < t + DISMISSED_MS,
        None => false,
    }
}

/// Whether a session is known and something waits in it.
pub open spec fn waits_in(sessions: Map<Seq<char>, TaskDetailSession>, id: Seq<char>) -> bool {
    sessions.contains_key(id) && sessions[id].pending()
}

/// Whether something waits in the task in view or in the subagent drilled into.
pub open spec fn something_waits(state: AppState) -> bool {
    match state.ui.viewing_task_id {
        Some(tid) => waits_in(state.session_tracker.task_sessions@, tid@) || match state.drilldown() {
            Some(sid) => waits_in(state.session_tracker.subagent_session_data@, sid),
            None => false,
        },
        None => false,
    }
}

/// Whether the modal opens by itself: in the detail view, when something waits
/// and it was not dismissed a moment ago.
pub open spec fn opens_modal(state: AppState, now_ms: u64) -> bool {
    &&& !state.ui.permission_modal_active
    &&& !dismissed_recently(state, now_ms)
    &&& state.ui.mode == AppMode::Normal
    &&& state.ui.focused_panel == FocusedPanel::TaskDetail
    &&& something_waits(state)
}

/// The state with the modal open where it opens by itself.
pub open spec fn modal_opened(state: AppState, now_ms: u64) -> AppState {
    if opens_modal(state, now_ms) {
        AppState {
            ui: UiState {
                permission_modal_active: true,
                permission_modal_selected_index: 0,
                ..state.ui
            },
            ..state
        }
    } else {
        state
    }
}

fn pending_in(session: Option<&TaskDetailSession>) -> (r: bool)
    ensures
        r == match session {
            Some(s) => s.pending(),
            None => false,
        },
{
    match session {
        Some(s) => s.has_pending(),
        None => false,
    }
}

fn anything_waits(state: &AppState) -> (r: bool)
    ensures
        r == something_waits(*state),
{
    match &state.ui.viewing_task_id {
        Some(tid) => {
            let main = pending_in(state.session_tracker.task_sessions.get(tid.as_str()));
            let sub = match state.get_drilldown_session_id() {
                Some(sid) => pending_in(
                    state.session_tracker.subagent_session_data.get(sid.as_str()),
                ),
                None => false,
            };
            main || sub
        },
        None => false,
    }
}

/// Auto-open the permission modal when permissions/questions arrive.
pub fn open_modal_if_needed(state: &mut AppState, now_ms: u64)
    ensures
        *final(state) == modal_opened(*old(state), now_ms),
{
    let recently = match state.ui.permission_modal_dismissed_at {
        Some(t) => now_ms < t || now_ms - t < DISMISSED_MS,
        None => false,
    };
    if !state.ui.permission_modal_active && !recently && state.ui.mode == AppMode::Normal
        && state.ui.focused_panel == FocusedPanel::TaskDetail && anything_waits(state) {
        state.ui.permission_modal_active = true;
        state.ui.permission_modal_selected_index = 0;
    }
}

/// Whether a frame has to be drawn; if so, the modal is opened where it opens
/// by itself.
pub fn prepare_frame(state: &mut AppState, now_ms: u64) -> (r: bool)
    ensures
        r == old(state).render_dirty,
        *final(state) == if r {
            modal_opened(AppState { render_dirty: false, ..*old(state) }, now_ms)
        } else {
            AppState { render_dirty: false, ..*old(state) }
        },
{
    let needed = state.take_render_dirty();
    if needed {
        open_modal_if_needed(state, now_ms);
    }
    needed
}

/// A modal that the user dismissed stays closed for five seconds, whatever
/// waits.
pub proof fn law_dismissed_modal_stays_closed(
    before: AppState,
    key: KeyEvent,
    desk: Desk,
    term_width: u16,
    now_ms: u64,
    later_ms: u64,
    after: AppState,
    fx: Seq<Effect<Seq<char>>>,
)
    requires
        normal::layer_of(before, key) == normal::Layer::Modal,
        key.code == KeyCode::Esc,
        normal::normal_key(before, key, desk, term_width, now_ms, after, fx),
        now_ms <= later_ms < now_ms + DISMISSED_MS,
    ensures
        !modal_opened(after, later_ms).ui.permission_modal_active,
{
}

/// The modal opens by itself only when something waits for the user.
pub proof fn law_modal_opens_only_when_something_waits(state: AppState, now_ms: u64)
    requires
        !state.ui.permission_modal_active,
        modal_opened(state, now_ms).ui.permission_modal_active,
    ensures
        something_waits(state),
        state.ui.mode == AppMode::Normal,
        state.ui.focused_panel == FocusedPanel::TaskDetail,
{
}

// ─── Effects on the state itself ──────────────────────────────────────────

/// Whether an effect changes nothing but the state.
pub open spec fn is_local<S>(e: Effect<S>) -> bool {
    e is SetDiffReviewSource || e is FocusTask || e is FocusColumn || e is SetReviewStatus
        || e is SyncModal
}

/// What an effect that changes nothing but the state does to it.
pub open spec fn performed(
    before: AppState,
    e: Effect<Seq<char>>,
    after: AppState,
) -> bool {
    match e {
        Effect::SetDiffReviewSource { panel } => after == (AppState {
            ui: UiState { diff_review_source: Some(panel), ..before.ui },
            ..before
        }),
        Effect::FocusTask { task_id } => {
            &&& after == (AppState {
                ui: UiState { focused_task_id: after.ui.focused_task_id, ..before.ui },
                ..before
            })
            &&& after.ui.focused_task_id is Some
            &&& after.ui.focused_task_id->0@ == task_id
        },
        Effect::FocusColumn { column_id, index } => {
            &&& after == (AppState {
                ui: UiState { focused_column: after.ui.focused_column, ..before.ui },
                kanban: KanbanState { focused_column_index: index, ..before.kanban },
                ..before
            })
            &&& after.ui.focused_column@ == column_id
        },
        Effect::SetReviewStatus { task_id, status } => {
            &&& after == (AppState { tasks: after.tasks, ..before })
            &&& after.tasks@ == match table::lookup(before.tasks@, task_id) {
                Some(t) => before.tasks@.insert(
                    task_id,
                    CortexTask { review_status: status, ..t },
                ),
                None => before.tasks@,
            }
        },
        Effect::SyncModal { task_id } => if before.ui.permission_modal_active {
            after == (AppState {
                ui: UiState {
                    permission_modal_active: permission::task_pending(before, task_id),
                    permission_modal_selected_index: 0,
                    ..before.ui
                },
                ..before
            })
        } else {
            after == before
        },
        _ => after == before,
    }
}

/// Performs an effect that changes nothing but the state; any other is handed
/// back.
pub fn perform_local(state: &mut AppState, effect: Effect<String>) -> (rest: Option<Effect<String>>)
    ensures
        performed(*old(state), effect.plain(), *final(state)),
        rest == if is_local(effect) {
            None
        } else {
            Some(effect)
        },
{
    match effect {
        Effect::SetDiffReviewSource { panel } => {
            state.ui.diff_review_source = Some(panel);
            None
        },
        Effect::FocusTask { task_id } => {
            state.ui.focused_task_id = Some(task_id);
            None
        },
        Effect::FocusColumn { column_id, index } => {
            state.ui.focused_column = column_id;
            state.kanban.focused_column_index = index;
            None
        },
        Effect::SetReviewStatus { task_id, status } => {
            match state.tasks.get_mut(task_id.as_str()) {
                Some(t) => {
                    t.review_status = status;
                },
                None => {},
            }
            None
        },
        Effect::SyncModal { task_id } => {
            permission::sync_modal_after_resolve(state, task_id.as_str());
            None
        },
        other => Some(other),
    }
}

/// Escape leaves the help, the reports, the archive, the diff review, the question
/// on a deletion and the configuration editor, and brings the board back; it gives
/// up the renaming of a project.
pub proof fn law_escape_leads_back_to_the_board(
    before: AppState,
    key: KeyEvent,
    desk: Desk,
    archived: Seq<String>,
    term_width: u16,
    now_ms: u64,
    after: AppState,
    fx: Seq<Effect<Seq<char>>>,
)
    requires
        key_handled(before, key, desk, archived, term_width, now_ms, after, fx),
        key.code == KeyCode::Esc,
    ensures
        before.ui.mode == AppMode::Help || before.ui.mode == AppMode::DiffReview || before.ui.mode
            == AppMode::Reports || before.ui.mode == AppMode::ConfirmDelete || before.ui.mode
            == AppMode::Archive || (before.ui.mode == AppMode::ConfigEditor)
            ==> after.ui.mode == AppMode::Normal && fx.len() == 0,
        before.ui.mode == AppMode::ProjectRename ==> fx == seq![
            Effect::<Seq<char>>::CancelProjectRename,
        ],
        after.tasks == before.tasks || before.ui.mode == AppMode::Normal,
{
}

/// A key press goes to the view that is shown and to no other: what it asks for
/// is what keys of that view ask for.
#[verifier::spinoff_prover]
#[verifier::rlimit(50)]
pub proof fn law_keys_go_to_the_view_shown(
    before: AppState,
    key: KeyEvent,
    desk: Desk,
    archived: Seq<String>,
    term_width: u16,
    now_ms: u64,
    after: AppState,
    fx: Seq<Effect<Seq<char>>>,
    i: int,
)
    requires
        key_handled(before, key, desk, archived, term_width, now_ms, after, fx),
        0 <= i < fx.len(),
    ensures
        ({
            let mode = before.ui.mode;
            &&& fx[i] is SaveTaskEditor || fx[i] is CancelTaskEditor ==> mode
                == AppMode::TaskEditor
            &&& fx[i] is SubmitProjectRename || fx[i] is CancelProjectRename ==> mode
                == AppMode::ProjectRename
            &&& fx[i] is SubmitWorkingDirectory || fx[i] is CancelWorkingDirectory || fx[i]
                is SubmitNewProjectDirectory || fx[i] is CancelNewProjectDirectory || fx[i]
                is AddDependency ==> mode == AppMode::InputPrompt
            &&& fx[i] is DeleteTask ==> mode == AppMode::ConfirmDelete
            &&& fx[i] is UnarchiveTask ==> mode == AppMode::Archive
            &&& fx[i] is SaveConfig ==> mode == AppMode::ConfigEditor
            &&& fx[i] is Quit || fx[i] is RemoveProject || fx[i] is CommitReview || fx[i]
                is MoveTask || fx[i] is SendPrompt || fx[i] is ResolvePermission || fx[i]
                is ResolveQuestion || fx[i] is RetryTask || fx[i] is RequestAbort ==> mode
                == AppMode::Normal
            &&& mode != AppMode::Help && mode != AppMode::DiffReview
        }),
{
    let s = AppState { render_dirty: true, ..before };
    if before.ui.mode == AppMode::Normal {
        lemma_board_requests(s, key, desk, term_width, now_ms, after, fx, i);
    }
}

proof fn lemma_board_requests(
    before: AppState,
    key: KeyEvent,
    desk: Desk,
    term_width: u16,
    now_ms: u64,
    after: AppState,
    fx: Seq<Effect<Seq<char>>>,
    i: int,
)
    requires
        normal::normal_key(before, key, desk, term_width, now_ms, after, fx),
        0 <= i < fx.len(),
    ensures
        !(fx[i] is SaveTaskEditor || fx[i] is CancelTaskEditor || fx[i] is SubmitProjectRename
            || fx[i] is CancelProjectRename || fx[i] is SubmitWorkingDirectory || fx[i]
            is CancelWorkingDirectory || fx[i] is SubmitNewProjectDirectory || fx[i]
            is CancelNewProjectDirectory || fx[i] is AddDependency || fx[i] is DeleteTask || fx[i]
            is UnarchiveTask || fx[i] is SaveConfig),
{
    if normal::layer_of(before, key) == normal::Layer::Binding {
        normal::law_requests_come_from_their_actions(
            before,
            key,
            desk,
            term_width,
            now_ms,
            after,
            fx,
            i,
        );
    } else {
        normal::law_layers_ask_for_what_they_are_for(
            before,
            key,
            desk,
            term_width,
            now_ms,
            after,
            fx,
            i,
        );
    }
}

/// The modal opens in the detail view whenever something waits there, unless it
/// was dismissed a moment ago; it opens on the first option.
pub proof fn law_modal_opens_when_something_waits(state: AppState, now_ms: u64, id: String)
    requires
        state.ui.mode == AppMode::Normal,
        state.ui.focused_panel == FocusedPanel::TaskDetail,
        state.ui.viewing_task_id == Some(id),
        state.session_tracker.task_sessions@.contains_key(id@),
        state.session_tracker.task_sessions@[id@].pending_permissions@.len() > 0
            || state.session_tracker.task_sessions@[id@].pending_questions@.len() > 0,
        match state.ui.permission_modal_dismissed_at {
            Some(t) => t + 5000 <= now_ms,
            None => true,
        },
    ensures
        modal_opened(state, now_ms).ui.permission_modal_active,
        !state.ui.permission_modal_active ==> modal_opened(
            state,
            now_ms,
        ).ui.permission_modal_selected_index == 0,
{
}

/// What is carried out on the state alone does what it names: the review status
/// is set of that task and of no other, the task or the column named is focused.
pub proof fn law_local_effects_do_what_they_name(
    before: AppState,
    e: Effect<Seq<char>>,
    after: AppState,
    k: Seq<char>,
)
    requires
        performed(before, e, after),
    ensures
        e matches Effect::SetReviewStatus { task_id, status } ==> (before.tasks@.contains_key(
            task_id,
        ) ==> after.tasks@.contains_key(task_id) && after.tasks@[task_id].review_status == status
            && after.tasks@[task_id].column == before.tasks@[task_id].column) && (k != task_id
            ==> table::lookup(after.tasks@, k) == table::lookup(before.tasks@, k)),
        e matches Effect::FocusTask { task_id } ==> after.ui.focused_task_id is Some
            && after.ui.focused_task_id->0@ == task_id,
        e matches Effect::FocusColumn { column_id, index } ==> after.ui.focused_column@
            == column_id && after.kanban.focused_column_index == index,
        e matches Effect::SetDiffReviewSource { panel } ==> after.ui.diff_review_source == Some(
            panel,
        ),
        e matches Effect::SyncModal { task_id } ==> (after.ui.permission_modal_active
            <==> before.ui.permission_modal_active
            && before.session_tracker.task_sessions@.contains_key(task_id) && (
        before.session_tracker.task_sessions@[task_id].pending_permissions@.len() > 0
            || before.session_tracker.task_sessions@[task_id].pending_questions@.len() > 0)),
        !(e is SetReviewStatus) ==> after.tasks == before.tasks,
{
}

/// Every key press asks for a new frame, whatever else it does.
pub proof fn law_every_key_asks_for_a_frame(
    before: AppState,
    key: KeyEvent,
    desk: Desk,
    archived: Seq<String>,
    term_width: u16,
    now_ms: u64,
    after: AppState,
    fx: Seq<Effect<Seq<char>>>,
)
    requires
        key_handled(before, key, desk, archived, term_width, now_ms, after, fx),
    ensures
        after.render_dirty,
{
    let s = AppState { render_dirty: true, ..before };
    if before.ui.mode == AppMode::Normal {
        normal::law_asked_frames_stay_asked_for(s, key, desk, term_width, now_ms, after, fx);
    }
}

} // verus!
