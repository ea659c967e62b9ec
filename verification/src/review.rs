//! Review handlers: review changes, file diff, accept and reject.

use vstd::prelude::*;
use crate::config::ColumnsConfig;
use crate::diff_view;
use crate::effects;
use crate::effects::{Effect, Effects};
use crate::state;
use crate::state::{
    AgentStatus, AppMode, AppState, Clients, CortexTask, DiffFile, DiffReviewState, FocusedPanel,
    NotificationVariant, ReviewStatus, UiState,
};
use crate::tasks;
use crate::text;

verus! {

/// How a run of `git` came out: its output when it succeeded, its error output
/// when it failed, or why it could not be run.
#[derive(Debug, PartialEq, Eq)]
pub enum GitOutcome {
    Success(Vec<u8>),
    Failure(Vec<u8>),
    NotRun(String),
}

// ─── Diff of one file ─────────────────────────────────────────────────────

/// What opening the diff of the selected changed file asks for. Nothing
/// without changed files, a task in view, or a working directory.
pub open spec fn file_diff_asked(state: AppState) -> Seq<Effect<Seq<char>>> {
    match (state.ui.changed_files, state.ui.viewing_task_id) {
        (Some(files), Some(task_id)) => match tasks::task_of(state, task_id@) {
            Some(t) if files@.len() > 0 => {
                let at = diff_view::clamp(
                    state.ui.selected_changed_file_index as int,
                    0,
                    files@.len() - 1,
                );
                match state.project_registry.working_dir(t.project_id@) {
                    Some(working_dir) => seq![
                        Effect::FileDiff {
                            working_dir,
                            path: files@[at].path@,
                            task_number: t.number,
                        },
                    ],
                    None => seq![],
                }
            },
            _ => seq![],
        },
        _ => seq![],
    }
}

/// Open the diff review view focused on a specific file from the changed-files
/// sidebar.
pub fn handle_open_file_diff(state: &AppState) -> (fx: Effects)
    ensures
        fx@ == file_diff_asked(*state),
{
    if let Some(files) = &state.ui.changed_files {
        if files.len() > 0 {
            let at: usize = if state.ui.selected_changed_file_index < files.len() {
                state.ui.selected_changed_file_index
            } else {
                files.len() - 1
            };
            if let Some(task_id) = &state.ui.viewing_task_id {
                if let Some(t) = state.tasks.get(task_id.as_str()) {
                    if let Some(working_dir) = state.project_registry.working_directory_of(
                        t.project_id.as_str(),
                    ) {
                        return Effects::one(
                            Effect::FileDiff {
                                working_dir,
                                path: files[at].path.clone(),
                                task_number: t.number,
                            },
                        );
                    }
                }
            }
        }
    }
    Effects::new()
}

/// The place of the first file with the given path, from `from` on.
pub open spec fn path_at(files: Seq<DiffFile>, path: Seq<char>, from: int) -> Option<int>
    decreases files.len() - from,
{
    if from < 0 || from >= files.len() {
        None
    } else if files[from].path@ == path {
        Some(from)
    } else {
        path_at(files, path, from + 1)
    }
}

/// The place of the first file with the given path, 0 when there is none.
pub open spec fn path_place(files: Seq<DiffFile>, path: Seq<char>) -> int {
    match path_at(files, path, 0) {
        Some(i) => i,
        None => 0,
    }
}

fn find_path(files: &Vec<DiffFile>, path: &str) -> (r: usize)
    ensures
        r == path_place(files@, path@),
{
    let mut i: usize = 0;
    while i < files.len()
        invariant
            i <= files@.len(),
            path_at(files@, path@, i as int) == path_at(files@, path@, 0),
        decreases files@.len() - i,
    {
        if text::same(files[i].path.as_str(), path) {
            return i;
        }
        i += 1;
    }
    0
}

/// A diff review opened on `review`.
pub open spec fn review_opened(before: AppState, review: DiffReviewState, source: Option<
    FocusedPanel,
>) -> AppState {
    AppState {
        ui: UiState {
            diff_review: Some(review),
            diff_review_source: source,
            mode: AppMode::DiffReview,
            ..before.ui
        },
        ..before
    }
}

/// `review` shows the files that `output` holds, at the top of file `at`.
pub open spec fn shows(
    review: DiffReviewState,
    output: Seq<char>,
    at: int,
    task_number: u32,
) -> bool {
    &&& diff_view::file_views(review.files@) == diff_view::files_of(output)
    &&& review.selected_file_index == at
    &&& review.scroll_offset == 0
    &&& review.error is None
    &&& review.task_number == task_number
    &&& !review.files_list_focused
}

/// `review` shows an error.
pub open spec fn shows_error(review: DiffReviewState, error: Seq<char>, task_number: u32) -> bool {
    &&& review.files@.len() == 0
    &&& review.selected_file_index == 0
    &&& review.scroll_offset == 0
    &&& review.error is Some
    &&& review.error->0@ == error
    &&& review.task_number == task_number
    &&& !review.files_list_focused
}

fn diff_review(files: Vec<DiffFile>, at: usize, task_number: u32) -> (r: DiffReviewState)
    ensures
        r.files == files,
        r.selected_file_index == at,
        r.scroll_offset == 0,
        r.error is None,
        r.task_number == task_number,
        !r.files_list_focused,
{
    DiffReviewState {
        files,
        selected_file_index: at,
        scroll_offset: 0,
        error: None,
        task_number,
        files_list_focused: false,
    }
}

fn diff_error(error: String, task_number: u32) -> (r: DiffReviewState)
    ensures
        shows_error(r, error@, task_number),
{
    DiffReviewState {
        files: Vec::new(),
        selected_file_index: 0,
        scroll_offset: 0,
        error: Some(error),
        task_number,
        files_list_focused: false,
    }
}

/// Shows the diff of one file, given as text, with that file selected.
pub fn show_file_diff(state: &mut AppState, output: &str, path: &str, task_number: u32)
    ensures
        final(state).ui.diff_review is Some,
        *final(state) == review_opened(
            *old(state),
            final(state).ui.diff_review->0,
            Some(FocusedPanel::TaskDetail),
        ),
        shows(
            final(state).ui.diff_review->0,
            output@,
            path_place(final(state).ui.diff_review->0.files@, path@),
            task_number,
        ),
{
    let files = diff_view::parse_git_diff(output);
    let at: usize = find_path(&files, path);
    state.ui.diff_review = Some(diff_review(files, at, task_number));
    state.ui.diff_review_source = Some(FocusedPanel::TaskDetail);
    state.ui.mode = AppMode::DiffReview;
}

/// What follows the run of `git diff` on one file: its diff is shown with the
/// file selected, or the error output; that it could not be run is reported.
pub fn file_diff_done(
    state: &mut AppState,
    path: &str,
    task_number: u32,
    outcome: GitOutcome,
) -> (fx: Effects)
    ensures
        match outcome {
            GitOutcome::Success(out) => {
                &&& fx@.len() == 0
                &&& final(state).ui.diff_review is Some
                &&& *final(state) == review_opened(
                    *old(state),
                    final(state).ui.diff_review->0,
                    Some(FocusedPanel::TaskDetail),
                )
                &&& shows(
                    final(state).ui.diff_review->0,
                    text::lossy(out@),
                    path_place(final(state).ui.diff_review->0.files@, path@),
                    task_number,
                )
            },
            GitOutcome::Failure(err) => {
                &&& fx@.len() == 0
                &&& final(state).ui.diff_review is Some
                &&& *final(state) == review_opened(
                    *old(state),
                    final(state).ui.diff_review->0,
                    Some(FocusedPanel::TaskDetail),
                )
                &&& shows_error(
                    final(state).ui.diff_review->0,
                    text::lossy(err@),
                    task_number,
                )
            },
            GitOutcome::NotRun(e) => {
                &&& *final(state) == *old(state)
                &&& fx@ == seq![
                    effects::notice(
                        "Failed to run git diff: "@ + e@,
                        NotificationVariant::Error,
                        3000,
                    ),
                ]
            },
        },
{
    match outcome {
        GitOutcome::Success(out) => {
            let raw = text::from_utf8_lossy(out.as_slice());
            show_file_diff(state, raw.as_str(), path, task_number);
            Effects::new()
        },
        GitOutcome::Failure(err) => {
            let error = text::from_utf8_lossy(err.as_slice());
            state.ui.diff_review = Some(diff_error(error, task_number));
            state.ui.diff_review_source = Some(FocusedPanel::TaskDetail);
            state.ui.mode = AppMode::DiffReview;
            Effects::new()
        },
        GitOutcome::NotRun(e) => {
            let message = text::join2("Failed to run git diff: ", e.as_str());
            Effects::say(message.as_str(), NotificationVariant::Error, 3000)
        },
    }
}

// ─── Diff of a whole task ─────────────────────────────────────────────────

/// The task that a review is about: in the detail view the one in view, if
/// any, else the focused one.
pub open spec fn review_target(state: AppState) -> Option<String> {
    if state.ui.focused_panel == FocusedPanel::TaskDetail && state.ui.viewing_task_id is Some {
        state.ui.viewing_task_id
    } else {
        state.ui.focused_task_id
    }
}

fn target(state: &AppState) -> (r: Option<&String>)
    ensures
        match r {
            Some(id) => review_target(*state) == Some(*id),
            None => review_target(*state) is None,
        },
{
    if state.ui.focused_panel == FocusedPanel::TaskDetail {
        if let Some(id) = &state.ui.viewing_task_id {
            return Some(id);
        }
    }
    match &state.ui.focused_task_id {
        Some(id) => Some(id),
        None => None,
    }
}

/// What asking to review changes does. Only a task that is ready or complete
/// can be reviewed, and only with a working directory; the view then remembers
/// the panel to return to.
pub open spec fn review_asked(
    before: AppState,
    after: AppState,
    fx: Seq<Effect<Seq<char>>>,
) -> bool {
    match review_target(before) {
        None => {
            &&& after == before
            &&& fx == seq![
                effects::notice("No task selected"@, NotificationVariant::Info, 2000),
            ]
        },
        Some(id) => match tasks::task_of(before, id@) {
            None => after == before && fx.len() == 0,
            Some(t) => if !t.agent_status.reviewable() {
                &&& after == before
                &&& fx == seq![
                    effects::notice(
                        "Cannot review — task is "@ + t.agent_status.spelled()
                            + " (only Ready/Complete tasks can be reviewed)"@,
                        NotificationVariant::Info,
                        3000,
                    ),
                ]
            } else {
                match before.project_registry.working_dir(t.project_id@) {
                    None => {
                        &&& after == before
                        &&& fx == seq![
                            effects::notice(
                                "No working directory configured for this project"@,
                                NotificationVariant::Warning,
                                3000,
                            ),
                        ]
                    },
                    Some(working_dir) => {
                        &&& after == (AppState {
                            ui: UiState {
                                diff_review_source: Some(before.ui.focused_panel),
                                ..before.ui
                            },
                            ..before
                        })
                        &&& fx == seq![Effect::ReviewDiff { working_dir, task_number: t.number }]
                    },
                }
            },
        },
    }
}

/// Open the diff review view for the focused task.
pub fn handle_review_changes(state: &mut AppState) -> (fx: Effects)
    ensures
        review_asked(*old(state), *final(state), fx@),
{
    let id = match target(state) {
        Some(id) => id.clone(),
        None => {
            return Effects::say("No task selected", NotificationVariant::Info, 2000);
        },
    };
    let fx = match state.tasks.get(id.as_str()) {
        None => {
            return Effects::new();
        },
        Some(t) => {
            if !t.agent_status.is_reviewable() {
                let mut message = text::join2("Cannot review — task is ", t.agent_status.name());
                message.append(" (only Ready/Complete tasks can be reviewed)");
                return Effects::say(message.as_str(), NotificationVariant::Info, 3000);
            }
            match state.project_registry.working_directory_of(t.project_id.as_str()) {
                None => {
                    return Effects::say(
                        "No working directory configured for this project",
                        NotificationVariant::Warning,
                        3000,
                    );
                },
                Some(working_dir) => Effects::one(
                    Effect::ReviewDiff { working_dir, task_number: t.number },
                ),
            }
        },
    };
    state.ui.diff_review_source = Some(state.ui.focused_panel);
    fx
}

/// What showing the changes of a task does: with no changes at all a message
/// is shown, else the diff review is opened on its first file.
pub open spec fn changes_shown(
    before: AppState,
    output: Seq<char>,
    task_number: u32,
    after: AppState,
    fx: Seq<Effect<Seq<char>>>,
) -> bool {
    if diff_view::files_of(output).len() == 0 && text::trimmed(output).len() == 0 {
        &&& after == before
        &&& fx == seq![
            effects::notice(
                "No uncommitted changes to review"@,
                NotificationVariant::Info,
                3000,
            ),
        ]
    } else {
        &&& fx.len() == 0
        &&& after.ui.diff_review is Some
        &&& after == review_opened(
            before,
            after.ui.diff_review->0,
            before.ui.diff_review_source,
        )
        &&& shows(after.ui.diff_review->0, output, 0, task_number)
    }
}

/// Shows the changes of a task, given as text.
pub fn show_changes(state: &mut AppState, output: &str, task_number: u32) -> (fx: Effects)
    ensures
        changes_shown(*old(state), output@, task_number, *final(state), fx@),
{
    let files = diff_view::parse_git_diff(output);
    proof {
        assert(diff_view::file_views(files@).len() == files@.len());
    }
    if files.len() == 0 && text::trim(output).as_str().unicode_len() == 0 {
        return Effects::say(
            "No uncommitted changes to review",
            NotificationVariant::Info,
            3000,
        );
    }
    state.ui.diff_review = Some(diff_review(files, 0, task_number));
    state.ui.mode = AppMode::DiffReview;
    Effects::new()
}

/// What follows the run of `git diff` for a task.
pub fn review_diff_done(
    state: &mut AppState,
    task_number: u32,
    outcome: GitOutcome,
) -> (fx: Effects)
    ensures
        match outcome {
            GitOutcome::Success(out) => changes_shown(
                *old(state),
                text::lossy(out@),
                task_number,
                *final(state),
                fx@,
            ),
            GitOutcome::Failure(err) => {
                &&& fx@.len() == 0
                &&& final(state).ui.diff_review is Some
                &&& *final(state) == review_opened(
                    *old(state),
                    final(state).ui.diff_review->0,
                    old(state).ui.diff_review_source,
                )
                &&& shows_error(
                    final(state).ui.diff_review->0,
                    text::lossy(err@),
                    task_number,
                )
            },
            GitOutcome::NotRun(e) => {
                &&& *final(state) == *old(state)
                &&& fx@ == seq![
                    effects::notice(
                        "Failed to run git diff: "@ + e@,
                        NotificationVariant::Error,
                        3000,
                    ),
                ]
            },
        },
{
    match outcome {
        GitOutcome::Success(out) => {
            let raw = text::from_utf8_lossy(out.as_slice());
            show_changes(state, raw.as_str(), task_number)
        },
        GitOutcome::Failure(err) => {
            let error = text::from_utf8_lossy(err.as_slice());
            state.ui.diff_review = Some(diff_error(error, task_number));
            state.ui.mode = AppMode::DiffReview;
            Effects::new()
        },
        GitOutcome::NotRun(e) => {
            let message = text::join2("Failed to run git diff: ", e.as_str());
            Effects::say(message.as_str(), NotificationVariant::Error, 3000)
        },
    }
}

// ─── Accept ───────────────────────────────────────────────────────────────

/// Whether a task waits for the decision on its review.
pub open spec fn awaits_decision(t: CortexTask) -> bool {
    t.column@ == "review"@ && t.review_status is AwaitingDecision
}

fn is_awaiting(t: &CortexTask) -> (r: bool)
    ensures
        r == awaits_decision(*t),
{
    text::same(t.column.as_str(), "review") && matches!(
        t.review_status,
        ReviewStatus::AwaitingDecision
    )
}

/// What accepting a review asks for: the task is marked as approved and as
/// running, and its work is committed.
pub open spec fn review_accepted(state: AppState) -> Seq<Effect<Seq<char>>> {
    match review_target(state) {
        None => seq![effects::notice("No task selected"@, NotificationVariant::Info, 2000)],
        Some(id) => match tasks::task_of(state, id@) {
            None => seq![],
            Some(t) => if !awaits_decision(t) {
                seq![
                    effects::notice(
                        "Cannot accept — task is not awaiting review"@,
                        NotificationVariant::Info,
                        3000,
                    ),
                ]
            } else {
                match state.project_registry.working_dir(t.project_id@) {
                    None => seq![
                        effects::notice(
                            "No working directory configured"@,
                            NotificationVariant::Warning,
                            3000,
                        ),
                    ],
                    Some(working_dir) => seq![
                        Effect::SetReviewStatus { task_id: id@, status: ReviewStatus::Approved },
                        Effect::SetAgentStatus { task_id: id@, status: AgentStatus::Running },
                        Effect::CommitReview {
                            task_id: id@,
                            task_number: t.number,
                            description: t.description@,
                            working_dir,
                        },
                    ],
                }
            },
        },
    }
}

/// Accept a reviewed task: commit its work, then move it to the "done" column.
pub fn handle_accept_review(state: &AppState) -> (fx: Effects)
    ensures
        fx@ == review_accepted(*state),
{
    let id = match target(state) {
        Some(id) => id,
        None => {
            return Effects::say("No task selected", NotificationVariant::Info, 2000);
        },
    };
    let t = match state.tasks.get(id.as_str()) {
        Some(t) => t,
        None => {
            return Effects::new();
        },
    };
    if !is_awaiting(t) {
        return Effects::say(
            "Cannot accept — task is not awaiting review",
            NotificationVariant::Info,
            3000,
        );
    }
    match state.project_registry.working_directory_of(t.project_id.as_str()) {
        None => Effects::say(
            "No working directory configured",
            NotificationVariant::Warning,
            3000,
        ),
        Some(working_dir) => {
            let mut fx = Effects::new();
            fx.push(
                Effect::SetReviewStatus { task_id: id.clone(), status: ReviewStatus::Approved },
            );
            fx.push(
                Effect::SetAgentStatus { task_id: id.clone(), status: AgentStatus::Running },
            );
            fx.push(
                Effect::CommitReview {
                    task_id: id.clone(),
                    task_number: t.number,
                    description: t.description.clone(),
                    working_dir,
                },
            );
            proof {
                assert(fx@ =~= review_accepted(*state));
            }
            fx
        },
    }
}

/// The commit message for a task with the given title and number.
pub open spec fn message_for(title: Seq<char>, task_number: u32) -> Seq<char> {
    if title.len() == 0 {
        "feat: task #"@ + text::decimal(task_number as nat)
    } else {
        "feat: "@ + text::capitalised(title)
    }
}

/// The commit message for a task with the given title and number.
pub fn commit_message(title: &str, task_number: u32) -> (r: String)
    ensures
        r@ == message_for(title@, task_number),
{
    if title.unicode_len() == 0 {
        text::join2("feat: task #", text::dec(task_number as u64).as_str())
    } else {
        text::join2("feat: ", text::capitalise(title).as_str())
    }
}

/// How one of the steps of committing the work of a task came out.
#[derive(Debug, PartialEq, Eq)]
pub enum CommitEvent {
    /// How `git add -A` came out.
    Added(GitOutcome),
    /// What `git status --porcelain` printed, `None` when it could not be run.
    Status(Option<Vec<u8>>),
    /// How `git commit` came out.
    Committed(GitOutcome),
}

/// The step that comes next.
#[derive(Clone, Copy, Debug, PartialEq, Eq, Structural)]
pub enum CommitStep {
    CheckStatus,
    Commit,
    Finished,
}

/// A task with its review open again and its agent at rest.
pub open spec fn reopened(before: AppState, task_id: Seq<char>, after: AppState) -> bool {
    &&& after == (AppState { tasks: after.tasks, render_dirty: true, ..before })
    &&& after.tasks@ == match tasks::task_of(before, task_id) {
        Some(t) => before.tasks@.insert(
            task_id,
            CortexTask {
                review_status: ReviewStatus::AwaitingDecision,
                agent_status: AgentStatus::Complete,
                ..t
            },
        ),
        None => before.tasks@,
    }
}

fn reopen(state: &mut AppState, task_id: &str)
    ensures
        reopened(*old(state), task_id@, *final(state)),
{
    match state.tasks.get_mut(task_id) {
        Some(t) => {
            t.review_status = ReviewStatus::AwaitingDecision;
            t.agent_status = AgentStatus::Complete;
        },
        None => {},
    }
    state.mark_render_dirty();
}

/// What the error output of a failed staging is reported as.
pub open spec fn add_error(err: Seq<char>) -> Seq<char> {
    "git add failed: "@ + text::trimmed(err)
}

/// What the error output of a failed commit is reported as.
pub open spec fn commit_error(err: Seq<char>) -> Seq<char> {
    "git commit failed: "@ + text::trimmed(err)
}

/// What each step of committing leads to. Only when everything was staged the
/// status is checked.
/// Without changes the task is done; with changes, or when that is not known,
/// they are committed. A commit makes the task done; any failure is reported
/// and opens the review again.
pub open spec fn committing(
    before: AppState,
    task_id: Seq<char>,
    task_number: u32,
    event: CommitEvent,
    after: AppState,
    step: CommitStep,
    fx: Seq<Effect<Seq<char>>>,
) -> bool {
    let done = seq![
        Effect::MoveTask { task_id, column: "done"@ },
        Effect::SetAgentStatus { task_id, status: AgentStatus::Complete },
    ];
    match event {
        CommitEvent::Added(GitOutcome::Success(_)) => {
            &&& after == before
            &&& step == CommitStep::CheckStatus
            &&& fx.len() == 0
        },
        CommitEvent::Added(GitOutcome::Failure(err)) => {
            &&& reopened(before, task_id, after)
            &&& step == CommitStep::Finished
            &&& fx == seq![
                effects::notice(add_error(text::lossy(err@)), NotificationVariant::Error, 5000),
            ]
        },
        CommitEvent::Added(GitOutcome::NotRun(e)) => {
            &&& reopened(before, task_id, after)
            &&& step == CommitStep::Finished
            &&& fx == seq![
                effects::notice("git add failed: "@ + e@, NotificationVariant::Error, 5000),
            ]
        },
        CommitEvent::Status(out) => if out is Some && out->0@.len() == 0 {
            &&& after == (AppState { render_dirty: true, ..before })
            &&& step == CommitStep::Finished
            &&& fx =~= seq![
                effects::notice(
                    "No changes to commit — moving to done"@,
                    NotificationVariant::Info,
                    3000,
                ),
            ] + done
        } else {
            after == before && step == CommitStep::Commit && fx.len() == 0
        },
        CommitEvent::Committed(GitOutcome::Success(_)) => {
            &&& after == (AppState { render_dirty: true, ..before })
            &&& step == CommitStep::Finished
            &&& fx =~= done.push(
                effects::notice(
                    "Task #"@ + text::decimal(task_number as nat)
                        + " committed and moved to done"@,
                    NotificationVariant::Success,
                    3000,
                ),
            )
        },
        CommitEvent::Committed(GitOutcome::Failure(err)) => {
            &&& reopened(before, task_id, after)
            &&& step == CommitStep::Finished
            &&& fx == seq![
                effects::notice(
                    commit_error(text::lossy(err@)),
                    NotificationVariant::Error,
                    5000,
                ),
            ]
        },
        CommitEvent::Committed(GitOutcome::NotRun(e)) => {
            &&& reopened(before, task_id, after)
            &&& step == CommitStep::Finished
            &&& fx == seq![
                effects::notice("git commit failed: "@ + e@, NotificationVariant::Error, 5000),
            ]
        },
    }
}

/// The report of a failed staging, from its error output.
pub fn add_error_message(err: &str) -> (r: String)
    ensures
        r@ == add_error(err@),
{
    text::join2("git add failed: ", text::trim(err).as_str())
}

/// The report of a failed commit, from its error output.
pub fn commit_error_message(err: &str) -> (r: String)
    ensures
        r@ == commit_error(err@),
{
    text::join2("git commit failed: ", text::trim(err).as_str())
}

/// Takes one step of committing the work of a task.
pub fn commit_step(
    state: &mut AppState,
    task_id: &str,
    task_number: u32,
    event: CommitEvent,
) -> (r: (CommitStep, Effects))
    ensures
        committing(*old(state), task_id@, task_number, event, *final(state), r.0, r.1@),
{
    match event {
        CommitEvent::Added(outcome) => match outcome {
            GitOutcome::Success(_) => (CommitStep::CheckStatus, Effects::new()),
            GitOutcome::Failure(err) => {
                reopen(state, task_id);
                let raw = text::from_utf8_lossy(err.as_slice());
                let message = add_error_message(raw.as_str());
                (
                    CommitStep::Finished,
                    Effects::say(message.as_str(), NotificationVariant::Error, 5000),
                )
            },
            GitOutcome::NotRun(e) => {
                reopen(state, task_id);
                let message = text::join2("git add failed: ", e.as_str());
                (
                    CommitStep::Finished,
                    Effects::say(message.as_str(), NotificationVariant::Error, 5000),
                )
            },
        },
        CommitEvent::Status(out) => {
            if let Some(out) = out {
                if out.len() == 0 {
                    let mut fx = Effects::say(
                        "No changes to commit — moving to done",
                        NotificationVariant::Info,
                        3000,
                    );
                    fx.push(
                        Effect::MoveTask { task_id: task_id.to_owned(), column: "done".to_owned() },
                    );
                    fx.push(
                        Effect::SetAgentStatus {
                            task_id: task_id.to_owned(),
                            status: AgentStatus::Complete,
                        },
                    );
                    state.mark_render_dirty();
                    return (CommitStep::Finished, fx);
                }
            }
            (CommitStep::Commit, Effects::new())
        },
        CommitEvent::Committed(outcome) => match outcome {
            GitOutcome::Success(_) => {
                let mut fx = Effects::one(
                    Effect::MoveTask { task_id: task_id.to_owned(), column: "done".to_owned() },
                );
                fx.push(
                    Effect::SetAgentStatus {
                        task_id: task_id.to_owned(),
                        status: AgentStatus::Complete,
                    },
                );
                let mut message = text::join2("Task #", text::dec(task_number as u64).as_str());
                message.append(" committed and moved to done");
                fx.notify(message.as_str(), NotificationVariant::Success, 3000);
                state.mark_render_dirty();
                (CommitStep::Finished, fx)
            },
            GitOutcome::Failure(err) => {
                reopen(state, task_id);
                let raw = text::from_utf8_lossy(err.as_slice());
                let message = commit_error_message(raw.as_str());
                (
                    CommitStep::Finished,
                    Effects::say(message.as_str(), NotificationVariant::Error, 5000),
                )
            },
            GitOutcome::NotRun(e) => {
                reopen(state, task_id);
                let message = text::join2("git commit failed: ", e.as_str());
                (
                    CommitStep::Finished,
                    Effects::say(message.as_str(), NotificationVariant::Error, 5000),
                )
            },
        },
    }
}

/// A task is moved to the done column only when there was nothing to commit or
/// the commit succeeded; after any failure, in staging or committing, the work
/// stops and the review is open again; and nothing is committed unless staging
/// and the look at the status came before.
pub proof fn law_done_only_after_commit(
    before: AppState,
    task_id: Seq<char>,
    task_number: u32,
    event: CommitEvent,
    after: AppState,
    step: CommitStep,
    fx: Seq<Effect<Seq<char>>>,
)
    requires
        committing(before, task_id, task_number, event, after, step, fx),
    ensures
        forall|i: int|
            0 <= i < fx.len() && (#[trigger] fx[i]) is MoveTask ==> match event {
                CommitEvent::Status(out) => out is Some && out->0@.len() == 0,
                CommitEvent::Committed(GitOutcome::Success(_)) => true,
                _ => false,
            },
        step == CommitStep::CheckStatus ==> match event {
            CommitEvent::Added(GitOutcome::Success(_)) => true,
            _ => false,
        },
        step == CommitStep::Commit ==> event is Status,
        match event {
            CommitEvent::Added(outcome) => !(outcome is Success),
            CommitEvent::Committed(outcome) => !(outcome is Success),
            _ => false,
        } ==> step == CommitStep::Finished && (before.tasks@.contains_key(task_id)
            ==> after.tasks@[task_id].review_status is AwaitingDecision
            && after.tasks@[task_id].agent_status is Complete),
{
}

// ─── Reject ───────────────────────────────────────────────────────────────

/// What rejecting a review asks for: the task loses its session, goes back to
/// the running column with its review pending, and with a connection its agent
/// is started again.
pub open spec fn review_rejected(
    state: AppState,
    columns: ColumnsConfig,
    clients: Clients,
) -> Seq<Effect<Seq<char>>> {
    match review_target(state) {
        None => seq![effects::notice("No task selected"@, NotificationVariant::Info, 2000)],
        Some(id) => match tasks::task_of(state, id@) {
            None => seq![],
            Some(t) => if !awaits_decision(t) {
                seq![
                    effects::notice(
                        "Cannot reject — task is not awaiting review"@,
                        NotificationVariant::Info,
                        3000,
                    ),
                ]
            } else {
                let moved = seq![
                    Effect::SetReviewStatus { task_id: id@, status: ReviewStatus::Rejected },
                    Effect::ClearSessionData { task_id: id@ },
                    Effect::ForgetSession { task_id: id@ },
                    Effect::MoveTask { task_id: id@, column: "running"@ },
                    Effect::SetReviewStatus { task_id: id@, status: ReviewStatus::Pending },
                    effects::notice(
                        "Task #"@ + text::decimal(t.number as nat)
                            + " rejected — sent back for re-work"@,
                        NotificationVariant::Info,
                        3000,
                    ),
                ];
                if clients.serves(t.project_id@) {
                    moved + seq![
                        Effect::SetAgentStatus { task_id: id@, status: AgentStatus::Running },
                        Effect::SetAgentType {
                            task_id: id@,
                            agent: columns.agent_of("running"@),
                        },
                        Effect::TaskMoved {
                            project_id: t.project_id@,
                            task_id: id@,
                            column: "running"@,
                            previous_agent: state::opt_view(t.agent_type),
                        },
                    ]
                } else {
                    moved.push(
                        effects::notice(
                            "No OpenCode client — agent dispatch skipped"@,
                            NotificationVariant::Warning,
                            3000,
                        ),
                    )
                }
            },
        },
    }
}

/// Whether the task that a review is about waits for the decision on it.
pub open spec fn decidable(state: AppState) -> bool {
    match review_target(state) {
        Some(id) => match tasks::task_of(state, id@) {
            Some(t) => awaits_decision(t),
            None => false,
        },
        None => false,
    }
}

fn can_decide(state: &AppState) -> (r: bool)
    ensures
        r == decidable(*state),
{
    match target(state) {
        Some(id) => match state.tasks.get(id.as_str()) {
            Some(t) => is_awaiting(t),
            None => false,
        },
        None => false,
    }
}

/// Reject a reviewed task: move it back to the "running" column for re-work.
pub fn handle_reject_review(
    state: &mut AppState,
    columns: &ColumnsConfig,
    clients: &Clients,
) -> (fx: Effects)
    ensures
        fx@ == review_rejected(*old(state), *columns, *clients),
        *final(state) == (AppState {
            render_dirty: old(state).render_dirty || decidable(*old(state)),
            ..*old(state)
        }),
{
    let fx = reject(state, columns, clients);
    if can_decide(state) {
        state.mark_render_dirty();
    }
    fx
}

fn reject(state: &AppState, columns: &ColumnsConfig, clients: &Clients) -> (fx: Effects)
    ensures
        fx@ == review_rejected(*state, *columns, *clients),
{
    let id = match target(state) {
        Some(id) => id,
        None => {
            return Effects::say("No task selected", NotificationVariant::Info, 2000);
        },
    };
    let t = match state.tasks.get(id.as_str()) {
        Some(t) => t,
        None => {
            return Effects::new();
        },
    };
    if !is_awaiting(t) {
        return Effects::say(
            "Cannot reject — task is not awaiting review",
            NotificationVariant::Info,
            3000,
        );
    }
    let mut fx = Effects::new();
    fx.push(Effect::SetReviewStatus { task_id: id.clone(), status: ReviewStatus::Rejected });
    fx.push(Effect::ClearSessionData { task_id: id.clone() });
    fx.push(Effect::ForgetSession { task_id: id.clone() });
    fx.push(Effect::MoveTask { task_id: id.clone(), column: "running".to_owned() });
    fx.push(Effect::SetReviewStatus { task_id: id.clone(), status: ReviewStatus::Pending });
    let mut message = text::join2("Task #", text::dec(t.number as u64).as_str());
    message.append(" rejected — sent back for re-work");
    fx.notify(message.as_str(), NotificationVariant::Info, 3000);
    if clients.has(t.project_id.as_str()) {
        fx.push(Effect::SetAgentStatus { task_id: id.clone(), status: AgentStatus::Running });
        fx.push(
            Effect::SetAgentType {
                task_id: id.clone(),
                agent: columns.agent_for_column("running"),
            },
        );
        fx.push(
            Effect::TaskMoved {
                project_id: t.project_id.clone(),
                task_id: id.clone(),
                column: "running".to_owned(),
                previous_agent: state::clone_opt(&t.agent_type),
            },
        );
    } else {
        fx.notify(
            "No OpenCode client — agent dispatch skipped",
            NotificationVariant::Warning,
            3000,
        );
    }
    proof {
        assert(fx@ =~= review_rejected(*state, *columns, *clients));
    }
    fx
}

/// Only a task in the review column that awaits a decision can be accepted or
/// rejected: for any other nothing but messages come out.
pub proof fn law_only_awaiting_tasks_are_decided(
    state: AppState,
    columns: ColumnsConfig,
    clients: Clients,
)
    requires
        !decidable(state),
    ensures
        forall|i: int|
            0 <= i < review_accepted(state).len() ==> #[trigger] review_accepted(state)[i]
                is Notify,
        forall|i: int|
            0 <= i < review_rejected(state, columns, clients).len()
                ==> #[trigger] review_rejected(state, columns, clients)[i] is Notify,
{
}

/// Committing goes on step by step: what was staged is looked at, changes are
/// committed, and a task without changes or with its changes committed is moved
/// to the done column and marked as complete.
pub proof fn law_commits_lead_to_done(
    before: AppState,
    task_id: Seq<char>,
    task_number: u32,
    event: CommitEvent,
    after: AppState,
    step: CommitStep,
    fx: Seq<Effect<Seq<char>>>,
)
    requires
        committing(before, task_id, task_number, event, after, step, fx),
    ensures
        ({
            let done = match event {
                CommitEvent::Status(out) => out is Some && out->0@.len() == 0,
                CommitEvent::Committed(outcome) => outcome is Success,
                CommitEvent::Added(_) => false,
            };
            let fails = match event {
                CommitEvent::Added(outcome) => !(outcome is Success),
                CommitEvent::Committed(outcome) => !(outcome is Success),
                CommitEvent::Status(_) => false,
            };
            &&& event matches CommitEvent::Added(GitOutcome::Success(_)) ==> step
                == CommitStep::CheckStatus && fx.len() == 0
            &&& event matches CommitEvent::Status(out) ==> (step == CommitStep::Commit
                <==> !(out is Some && out->0@.len() == 0))
            &&& done ==> step == CommitStep::Finished && fx.contains(
                Effect::MoveTask { task_id, column: "done"@ },
            ) && fx.contains(Effect::SetAgentStatus { task_id, status: AgentStatus::Complete })
            &&& fails ==> step == CommitStep::Finished && fx.len() == 1 && (fx[0]
                matches Effect::Notify { variant, .. } && variant is Error)
            &&& fails && tasks::task_of(before, task_id) is Some ==> tasks::task_of(after, task_id)
                is Some && tasks::task_of(after, task_id)->0.review_status is AwaitingDecision
                && tasks::task_of(after, task_id)->0.agent_status is Complete && tasks::task_of(
                after,
                task_id,
            )->0.column == tasks::task_of(before, task_id)->0.column
            &&& !fails ==> after.tasks == before.tasks
        }),
{
    match event {
        CommitEvent::Status(out) => {
            if out is Some && out->0@.len() == 0 {
                assert(fx[1] == (Effect::MoveTask { task_id, column: "done"@ }));
                assert(fx[2] == Effect::<Seq<char>>::SetAgentStatus {
                    task_id,
                    status: AgentStatus::Complete,
                });
            }
        },
        CommitEvent::Committed(outcome) => {
            if outcome is Success {
                assert(fx[0] == (Effect::MoveTask { task_id, column: "done"@ }));
                assert(fx[1] == Effect::<Seq<char>>::SetAgentStatus {
                    task_id,
                    status: AgentStatus::Complete,
                });
            }
        },
        _ => {},
    }
}

/// Changes are reviewed just of a task that is ready or complete, in the working
/// directory of its project; the review then returns to the present panel.
pub proof fn law_only_finished_work_is_reviewed(
    before: AppState,
    after: AppState,
    fx: Seq<Effect<Seq<char>>>,
    id: String,
)
    requires
        review_asked(before, after, fx),
        before.ui.focused_panel == FocusedPanel::Kanban && before.ui.focused_task_id == Some(id)
            || before.ui.focused_panel == FocusedPanel::TaskDetail && before.ui.viewing_task_id
            == Some(id),
        tasks::task_of(before, id@) is Some,
    ensures
        ({
            let t = tasks::task_of(before, id@)->0;
            let dir = before.project_registry.working_dir(t.project_id@);
            let finished = t.agent_status is Ready || t.agent_status is Complete;
            &&& finished && dir is Some ==> fx == seq![
                Effect::ReviewDiff { working_dir: dir->0, task_number: t.number },
            ] && after.ui.diff_review_source == Some(before.ui.focused_panel)
            &&& !(finished && dir is Some) ==> after == before && fx.len() == 1 && fx[0] is Notify
        }),
{
}

proof fn lemma_path_at(files: Seq<DiffFile>, path: Seq<char>, from: int)
    requires
        0 <= from,
    ensures
        match path_at(files, path, from) {
            Some(i) => from <= i < files.len() && files[i].path@ == path && forall|k: int|
                from <= k < i ==> (#[trigger] files[k]).path@ != path,
            None => forall|k: int| from <= k < files.len() ==> (#[trigger] files[k]).path@ != path,
        },
    decreases files.len() - from,
{
    if from < files.len() {
        lemma_path_at(files, path, from + 1);
    }
}

/// The diff of one file opens on that file: where one of the files has the path,
/// the first that has it is selected.
pub proof fn law_the_file_asked_for_is_selected(files: Seq<DiffFile>, path: Seq<char>, k: int)
    requires
        0 <= k < files.len(),
        files[k].path@ == path,
    ensures
        0 <= path_place(files, path) <= k,
        files[path_place(files, path)].path@ == path,
{
    lemma_path_at(files, path, 0);
}

/// A commit message marks a feature and ends in the title of the task, its first
/// letter aside; a task without a title is named by its number.
pub proof fn law_commit_message_names_the_task(title: Seq<char>, task_number: u32)
    ensures
        ({
            let m = message_for(title, task_number);
            &&& text::begins(m, "feat: "@)
            &&& title.len() == 0 ==> text::ends(m, "#"@ + text::decimal(task_number as nat))
            &&& title.len() > 0 ==> m == "feat: "@ + text::capitalised(title)
        }),
{
    reveal_strlit("feat: ");
    reveal_strlit("feat: task #");
    reveal_strlit("#");
    let m = message_for(title, task_number);
    assert(m.subrange(0, 6) =~= "feat: "@);
    if title.len() == 0 {
        let tail = "#"@ + text::decimal(task_number as nat);
        let at = m.len() - tail.len();
        assert(m.subrange(at, at + tail.len()) =~= tail);
    }
}

/// Output without anything in it opens no review and says so; any other output
/// opens the review on its first file, in its own mode, and leaves the panel to
/// return to as it was.
pub proof fn law_changes_open_the_review(
    before: AppState,
    output: Seq<char>,
    task_number: u32,
    after: AppState,
    fx: Seq<Effect<Seq<char>>>,
)
    requires
        changes_shown(before, output, task_number, after, fx),
    ensures
        output.len() == 0 ==> after == before && fx.len() == 1 && fx[0] is Notify,
        diff_view::files_of(output).len() > 0 ==> after.ui.mode == AppMode::DiffReview && fx.len()
            == 0 && after.ui.diff_review is Some && after.ui.diff_review->0.selected_file_index == 0
            && after.ui.diff_review->0.files@.len() == diff_view::files_of(output).len()
            && after.ui.diff_review->0.task_number == task_number
            && after.ui.diff_review_source == before.ui.diff_review_source,
        after.tasks == before.tasks,
{
    if output.len() == 0 {
        let r = text::law_trimming_takes_off_white_space(output);
        assert(text::byte_len(output) == 0);
        assert(text::lines_of(output) =~= Seq::<Seq<char>>::empty()) by {
            assert(text::pieces(output, text::Cut::At('\n')).drop_last() =~= Seq::<
                Seq<char>,
            >::empty());
        }
    }
    if diff_view::files_of(output).len() > 0 {
        assert(diff_view::file_views(after.ui.diff_review->0.files@).len()
            == after.ui.diff_review->0.files@.len());
    }
}

} // verus!
