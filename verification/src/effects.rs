//! What the handlers ask to be done outside: the calls into the parts of the
//! application that keep, run or send things, in the order in which they are
//! to be made.

use vstd::prelude::*;
use crate::state;
use crate::state::{AgentStatus, FocusedPanel, NotificationVariant, ReviewStatus};

verus! {

/// One thing to be done. `S` is the type of the texts in it: strings in
/// executable code, characters in contracts.
#[derive(Debug, PartialEq, Eq)]
#[verifier::ext_equal]
#[allow(inconsistent_fields)]
pub enum Effect<S> {
    /// Show a message to the user.
    Notify { message: S, variant: NotificationVariant, duration_ms: u64 },
    /// Leave the application.
    Quit,
    /// Ask for the directory of a new project.
    OpenNewProjectDirectory,
    /// Ask for a new name of the active project.
    OpenProjectRename,
    /// Ask for the working directory of the active project.
    OpenSetWorkingDirectory,
    /// Make a project the active one.
    SelectProject { project_id: S },
    /// Abort a session; nothing is reported.
    AbortSession { project_id: S, session_id: S },
    /// Abort a session and report how that went.
    RequestAbort { project_id: S, session_id: S },
    /// Give up the connection of a project.
    RemoveClient { project_id: S },
    /// Remove a project; `project_removed` goes on from there.
    RemoveProject { project_id: S, project_name: S },
    /// Focus a column by its id.
    SetFocusedColumn { column_id: S },
    /// Open the task editor for a new task.
    OpenTaskEditor { column_id: S },
    /// Open the task editor on a task.
    EditTask { task_id: S },
    /// Open the detail view of a task.
    OpenTaskDetail { task_id: S },
    /// Close the detail view.
    CloseTaskDetail,
    /// Go back up from a subagent.
    PopDrilldown,
    /// Remember where the diff review returns to.
    SetDiffReviewSource { panel: FocusedPanel },
    /// List the changed files of a working directory; `changed_files_loaded` goes on from there.
    LoadChangedFiles { task_id: S, working_dir: S },
    /// Move a task to a column.
    MoveTask { task_id: S, column: S },
    /// Start the agent of a column on a task: `dispatch_agent` decides.
    DispatchAgent { task_id: S, column: S },
    /// Set the agent status of a task.
    SetAgentStatus { task_id: S, status: AgentStatus },
    /// Set the agent type of a task.
    SetAgentType { task_id: S, agent: Option<S> },
    /// Take the session from a task.
    ForgetSession { task_id: S },
    /// Drop the session data of a task.
    ClearSessionData { task_id: S },
    /// Set the review status of a task.
    SetReviewStatus { task_id: S, status: ReviewStatus },
    /// Tell the orchestration that a task has entered a column.
    TaskMoved { project_id: S, task_id: S, column: S, previous_agent: Option<S> },
    /// Work out the status of a project anew.
    UpdateProjectStatus { project_id: S },
    /// Delete a task; `task_deleted` goes on from there.
    DeleteTask { task_id: S },
    /// Bring the focused task of a column into range.
    ClampFocusedTask { column_id: S },
    /// Abort the old session, if any; `retry_started` goes on from there.
    RetryTask { project_id: S, task_id: S, session_id: Option<S>, column: S },
    /// Put a task back to work: `retry_reset` decides.
    RetryReset { project_id: S, task_id: S, column: S },
    /// Drill into a subagent; `drill_down_step` goes on from there.
    DrillDown { session_id: S, agent: S, task_id: S, depth: u32 },
    /// Fetch the messages of a subagent session; `subagent_fetched` goes on from there.
    FetchSubagent { project_id: S, session_id: S, agent: S, task_id: S, depth: u32 },
    /// Go down into a subagent.
    PushDrilldown { task_id: S, session_id: S, label: S, depth: u32 },
    /// Run `git diff HEAD` on one file; `file_diff_done` goes on from there.
    FileDiff { working_dir: S, path: S, task_number: u32 },
    /// Run `git diff HEAD`; `review_diff_done` goes on from there.
    ReviewDiff { working_dir: S, task_number: u32 },
    /// Stage and commit the work of a task; `commit_step` goes on from there.
    CommitReview { task_id: S, task_number: u32, description: S, working_dir: S },
    /// Send a prompt to a session; `prompt_failed` goes on from a failure.
    SendPrompt { project_id: S, session_id: S, prompt: S, agent: Option<S> },
    /// Approve or reject a permission; `permission_resolved` goes on from there.
    ResolvePermission { project_id: S, session_id: S, permission_id: S, task_id: S, approve: bool },
    /// Answer a question; `question_resolved` goes on from there.
    ResolveQuestion { project_id: S, session_id: S, question_id: S, answer: S, task_id: S },
    /// Take a permission off the list of a task.
    ClearPermission { task_id: S, permission_id: S, approve: bool },
    /// Take a question off the list of a task.
    ClearQuestion { task_id: S, question_id: S },
    /// Work out the status of a task after a question; `reassessed` goes on from there.
    ReassessTask { project_id: S, task_id: S },
    /// Tell the orchestration that an agent has finished; `agent_completed` goes on from there.
    CompleteAgent { project_id: S, task_id: S },
    /// Send a prompt that was waiting.
    SendFollowUp { project_id: S, task_id: S, prompt: S, session_id: S, agent: Option<S> },
    /// Bring the modal up to date after something was resolved.
    SyncModal { task_id: S },
    /// Reset the circuit breaker of a project; `breaker_reset` goes on from there.
    ResetBreaker { project_id: S },
    /// Make a task depend on another; `dependency_added` goes on from there.
    AddDependency { task_id: S, dependency_id: S },
    /// Take a dependency off a task.
    RemoveDependency { task_id: S, dependency_id: S },
    /// List the latest commits; `commits_loaded` goes on from there.
    LoadCommits { working_dir: Option<S> },
    /// Read the configuration file; `open_config_editor` goes on from there.
    ReadConfigFile,
    /// Write the configuration file and load it; `config_saved` goes on from there.
    SaveConfig { content: S },
    /// Take the new project name; `project_renamed` goes on from there.
    SubmitProjectRename,
    /// Take the new working directory; `working_directory_set` goes on from there.
    SubmitWorkingDirectory,
    /// Create the new project; `project_created` goes on from there.
    SubmitNewProjectDirectory,
    /// Give up renaming the project.
    CancelProjectRename,
    /// Give up setting the working directory.
    CancelWorkingDirectory,
    /// Give up creating a project.
    CancelNewProjectDirectory,
    /// Use an existing connection for a project.
    ShareClient { project_id: S },
    /// Mark a project as connected.
    SetProjectConnected { project_id: S },
    /// Save the task in the editor; `task_saved` or `task_save_failed` goes on from there.
    SaveTaskEditor,
    /// Close the task editor.
    CancelTaskEditor,
    /// Focus a task by its id.
    FocusTask { task_id: S },
    /// Highlight a task for a while.
    HighlightTask { task_id: S, duration_ms: u64 },
    /// Focus a column by its id and place.
    FocusColumn { column_id: S, index: usize },
    /// Take a task out of the archive; `task_unarchived` goes on from there.
    UnarchiveTask { task_id: S },
}

impl Effect<String> {
    /// The effect with its texts as characters.
    pub open spec fn plain(self) -> Effect<Seq<char>> {
        match self {
            Effect::Notify { message, variant, duration_ms } => Effect::Notify { message: message@, variant, duration_ms },
            Effect::Quit => Effect::Quit,
            Effect::OpenNewProjectDirectory => Effect::OpenNewProjectDirectory,
            Effect::OpenProjectRename => Effect::OpenProjectRename,
            Effect::OpenSetWorkingDirectory => Effect::OpenSetWorkingDirectory,
            Effect::SelectProject { project_id } => Effect::SelectProject { project_id: project_id@ },
            Effect::AbortSession { project_id, session_id } => Effect::AbortSession { project_id: project_id@, session_id: session_id@ },
            Effect::RequestAbort { project_id, session_id } => Effect::RequestAbort { project_id: project_id@, session_id: session_id@ },
            Effect::RemoveClient { project_id } => Effect::RemoveClient { project_id: project_id@ },
            Effect::RemoveProject { project_id, project_name } => Effect::RemoveProject { project_id: project_id@, project_name: project_name@ },
            Effect::SetFocusedColumn { column_id } => Effect::SetFocusedColumn { column_id: column_id@ },
            Effect::OpenTaskEditor { column_id } => Effect::OpenTaskEditor { column_id: column_id@ },
            Effect::EditTask { task_id } => Effect::EditTask { task_id: task_id@ },
            Effect::OpenTaskDetail { task_id } => Effect::OpenTaskDetail { task_id: task_id@ },
            Effect::CloseTaskDetail => Effect::CloseTaskDetail,
            Effect::PopDrilldown => Effect::PopDrilldown,
            Effect::SetDiffReviewSource { panel } => Effect::SetDiffReviewSource { panel },
            Effect::LoadChangedFiles { task_id, working_dir } => Effect::LoadChangedFiles { task_id: task_id@, working_dir: working_dir@ },
            Effect::MoveTask { task_id, column } => Effect::MoveTask { task_id: task_id@, column: column@ },
            Effect::DispatchAgent { task_id, column } => Effect::DispatchAgent { task_id: task_id@, column: column@ },
            Effect::SetAgentStatus { task_id, status } => Effect::SetAgentStatus { task_id: task_id@, status },
            Effect::SetAgentType { task_id, agent } => Effect::SetAgentType { task_id: task_id@, agent: state::opt_view(agent) },
            Effect::ForgetSession { task_id } => Effect::ForgetSession { task_id: task_id@ },
            Effect::ClearSessionData { task_id } => Effect::ClearSessionData { task_id: task_id@ },
            Effect::SetReviewStatus { task_id, status } => Effect::SetReviewStatus { task_id: task_id@, status },
            Effect::TaskMoved { project_id, task_id, column, previous_agent } => Effect::TaskMoved { project_id: project_id@, task_id: task_id@, column: column@, previous_agent: state::opt_view(previous_agent) },
            Effect::UpdateProjectStatus { project_id } => Effect::UpdateProjectStatus { project_id: project_id@ },
            Effect::DeleteTask { task_id } => Effect::DeleteTask { task_id: task_id@ },
            Effect::ClampFocusedTask { column_id } => Effect::ClampFocusedTask { column_id: column_id@ },
            Effect::RetryTask { project_id, task_id, session_id, column } => Effect::RetryTask { project_id: project_id@, task_id: task_id@, session_id: state::opt_view(session_id), column: column@ },
            Effect::RetryReset { project_id, task_id, column } => Effect::RetryReset { project_id: project_id@, task_id: task_id@, column: column@ },
            Effect::DrillDown { session_id, agent, task_id, depth } => Effect::DrillDown { session_id: session_id@, agent: agent@, task_id: task_id@, depth },
            Effect::FetchSubagent { project_id, session_id, agent, task_id, depth } => Effect::FetchSubagent { project_id: project_id@, session_id: session_id@, agent: agent@, task_id: task_id@, depth },
            Effect::PushDrilldown { task_id, session_id, label, depth } => Effect::PushDrilldown { task_id: task_id@, session_id: session_id@, label: label@, depth },
            Effect::FileDiff { working_dir, path, task_number } => Effect::FileDiff { working_dir: working_dir@, path: path@, task_number },
            Effect::ReviewDiff { working_dir, task_number } => Effect::ReviewDiff { working_dir: working_dir@, task_number },
            Effect::CommitReview { task_id, task_number, description, working_dir } => Effect::CommitReview { task_id: task_id@, task_number, description: description@, working_dir: working_dir@ },
            Effect::SendPrompt { project_id, session_id, prompt, agent } => Effect::SendPrompt { project_id: project_id@, session_id: session_id@, prompt: prompt@, agent: state::opt_view(agent) },
            Effect::ResolvePermission { project_id, session_id, permission_id, task_id, approve } => Effect::ResolvePermission { project_id: project_id@, session_id: session_id@, permission_id: permission_id@, task_id: task_id@, approve },
            Effect::ResolveQuestion { project_id, session_id, question_id, answer, task_id } => Effect::ResolveQuestion { project_id: project_id@, session_id: session_id@, question_id: question_id@, answer: answer@, task_id: task_id@ },
            Effect::ClearPermission { task_id, permission_id, approve } => Effect::ClearPermission { task_id: task_id@, permission_id: permission_id@, approve },
            Effect::ClearQuestion { task_id, question_id } => Effect::ClearQuestion { task_id: task_id@, question_id: question_id@ },
            Effect::ReassessTask { project_id, task_id } => Effect::ReassessTask { project_id: project_id@, task_id: task_id@ },
            Effect::CompleteAgent { project_id, task_id } => Effect::CompleteAgent { project_id: project_id@, task_id: task_id@ },
            Effect::SendFollowUp { project_id, task_id, prompt, session_id, agent } => Effect::SendFollowUp { project_id: project_id@, task_id: task_id@, prompt: prompt@, session_id: session_id@, agent: state::opt_view(agent) },
            Effect::SyncModal { task_id } => Effect::SyncModal { task_id: task_id@ },
            Effect::ResetBreaker { project_id } => Effect::ResetBreaker { project_id: project_id@ },
            Effect::AddDependency { task_id, dependency_id } => Effect::AddDependency { task_id: task_id@, dependency_id: dependency_id@ },
            Effect::RemoveDependency { task_id, dependency_id } => Effect::RemoveDependency { task_id: task_id@, dependency_id: dependency_id@ },
            Effect::LoadCommits { working_dir } => Effect::LoadCommits { working_dir: state::opt_view(working_dir) },
            Effect::ReadConfigFile => Effect::ReadConfigFile,
            Effect::SaveConfig { content } => Effect::SaveConfig { content: content@ },
            Effect::SubmitProjectRename => Effect::SubmitProjectRename,
            Effect::SubmitWorkingDirectory => Effect::SubmitWorkingDirectory,
            Effect::SubmitNewProjectDirectory => Effect::SubmitNewProjectDirectory,
            Effect::CancelProjectRename => Effect::CancelProjectRename,
            Effect::CancelWorkingDirectory => Effect::CancelWorkingDirectory,
            Effect::CancelNewProjectDirectory => Effect::CancelNewProjectDirectory,
            Effect::ShareClient { project_id } => Effect::ShareClient { project_id: project_id@ },
            Effect::SetProjectConnected { project_id } => Effect::SetProjectConnected { project_id: project_id@ },
            Effect::SaveTaskEditor => Effect::SaveTaskEditor,
            Effect::CancelTaskEditor => Effect::CancelTaskEditor,
            Effect::FocusTask { task_id } => Effect::FocusTask { task_id: task_id@ },
            Effect::HighlightTask { task_id, duration_ms } => Effect::HighlightTask { task_id: task_id@, duration_ms },
            Effect::FocusColumn { column_id, index } => Effect::FocusColumn { column_id: column_id@, index },
            Effect::UnarchiveTask { task_id } => Effect::UnarchiveTask { task_id: task_id@ },
        }
    }
}

/// A list of things to be done, in order.
#[derive(Debug, PartialEq, Eq)]
pub struct Effects {
    pub list: Vec<Effect<String>>,
}

impl View for Effects {
    type V = Seq<Effect<Seq<char>>>;

    open spec fn view(&self) -> Seq<Effect<Seq<char>>> {
        self.list@.map_values(|e: Effect<String>| e.plain())
    }
}

/// A message as an effect.
pub open spec fn notice(message: Seq<char>, variant: NotificationVariant, duration_ms: u64) -> Effect<
    Seq<char>,
> {
    Effect::Notify { message, variant, duration_ms }
}

impl Effects {
    /// Nothing to be done.
    pub fn new() -> (r: Self)
        ensures
            r@ == Seq::<Effect<Seq<char>>>::empty(),
    {
        let r = Effects { list: Vec::new() };
        proof {
            assert(r@ =~= Seq::<Effect<Seq<char>>>::empty());
        }
        r
    }

    /// Adds `e` at the end.
    pub fn push(&mut self, e: Effect<String>)
        ensures
            final(self)@ == old(self)@.push(e.plain()),
    {
        let ghost before = self@;
        self.list.push(e);
        proof {
            assert(self@ =~= before.push(e.plain()));
        }
    }

    /// Adds a message at the end.
    pub fn notify(&mut self, message: &str, variant: NotificationVariant, duration_ms: u64)
        ensures
            final(self)@ == old(self)@.push(notice(message@, variant, duration_ms)),
    {
        self.push(Effect::Notify { message: message.to_owned(), variant, duration_ms });
    }

    /// Just `e`.
    pub fn one(e: Effect<String>) -> (r: Self)
        ensures
            r@ == seq![e.plain()],
    {
        let mut r = Effects::new();
        r.push(e);
        proof {
            assert(r@ =~= seq![e.plain()]);
        }
        r
    }

    /// Just a message.
    pub fn say(message: &str, variant: NotificationVariant, duration_ms: u64) -> (r: Self)
        ensures
            r@ == seq![notice(message@, variant, duration_ms)],
    {
        Effects::one(Effect::Notify { message: message.to_owned(), variant, duration_ms })
    }
}

} // verus!
