//! The application state that the key handlers and views work on.

use vstd::prelude::*;
use crate::config_editor::ConfigEditorState;
use crate::editor::TaskEditorState;
use crate::table::Table;
use crate::text;

verus! {

/// Which input mode the application is in.
#[derive(Clone, Copy, Debug, PartialEq, Eq, Structural)]
pub enum AppMode {
    Normal,
    TaskEditor,
    Help,
    ProjectRename,
    InputPrompt,
    DiffReview,
    Reports,
    ConfirmDelete,
    Archive,
    ConfigEditor,
}

/// Which panel of the normal view has the focus.
#[derive(Clone, Copy, Debug, PartialEq, Eq, Structural)]
pub enum FocusedPanel {
    Kanban,
    TaskDetail,
}

/// What the agent of a task is doing.
#[derive(Clone, Copy, Debug, PartialEq, Eq, Structural)]
pub enum AgentStatus {
    Pending,
    Running,
    Hung,
    Ready,
    Complete,
    Error,
    Question,
}

impl AgentStatus {
    /// Whether the task has come to rest: its timer no longer ticks.
    pub open spec fn at_rest(self) -> bool {
        self is Complete || self is Ready || self is Hung || self is Error
    }

    /// Whether the task has come to rest: its timer no longer ticks.
    pub fn is_terminal(self) -> (r: bool)
        ensures
            r == self.at_rest(),
    {
        matches!(self, AgentStatus::Complete | AgentStatus::Ready | AgentStatus::Hung | AgentStatus::Error)
    }

    /// Whether the work of the agent can be reviewed.
    pub open spec fn reviewable(self) -> bool {
        self is Complete || self is Ready
    }

    /// Whether the work of the agent can be reviewed.
    pub fn is_reviewable(self) -> (r: bool)
        ensures
            r == self.reviewable(),
    {
        matches!(self, AgentStatus::Complete | AgentStatus::Ready)
    }

    /// The name of the status.
    pub open spec fn spelled(self) -> Seq<char> {
        match self {
            AgentStatus::Pending => "Pending"@,
            AgentStatus::Running => "Running"@,
            AgentStatus::Hung => "Hung"@,
            AgentStatus::Ready => "Ready"@,
            AgentStatus::Complete => "Complete"@,
            AgentStatus::Error => "Error"@,
            AgentStatus::Question => "Question"@,
        }
    }

    /// The name of the status.
    pub fn name(self) -> (r: &'static str)
        ensures
            r@ == self.spelled(),
    {
        match self {
            AgentStatus::Pending => "Pending",
            AgentStatus::Running => "Running",
            AgentStatus::Hung => "Hung",
            AgentStatus::Ready => "Ready",
            AgentStatus::Complete => "Complete",
            AgentStatus::Error => "Error",
            AgentStatus::Question => "Question",
        }
    }
}

/// How far the review of a task has come.
#[derive(Clone, Copy, Debug, PartialEq, Eq, Structural)]
pub enum ReviewStatus {
    Pending,
    AwaitingDecision,
    Approved,
    Rejected,
}

/// The state of a project as a whole.
#[derive(Clone, Copy, Debug, PartialEq, Eq, Structural)]
pub enum ProjectStatus {
    Disconnected,
    Idle,
    Working,
    Question,
    Done,
    Error,
    Hung,
}

/// The weight of a notification.
#[derive(Clone, Copy, Debug, PartialEq, Eq, Structural)]
pub enum NotificationVariant {
    Info,
    Success,
    Warning,
    Error,
}

/// A message shown to the user.
#[derive(Debug, PartialEq, Eq)]
pub struct Notification {
    pub message: String,
    pub variant: NotificationVariant,
}

/// What happened to a changed file.
#[derive(Clone, Copy, Debug, PartialEq, Eq, Structural)]
pub enum FileChangeStatus {
    Added,
    Modified,
    Deleted,
    Renamed,
    Copied,
}

/// One entry of the changed-files list.
#[derive(Debug, PartialEq, Eq)]
pub struct ChangedFileInfo {
    pub path: String,
    pub old_path: Option<String>,
    pub status: FileChangeStatus,
    pub additions: u32,
    pub deletions: u32,
}

/// What one line of a diff is.
#[derive(Clone, Copy, Debug, PartialEq, Eq, Structural)]
pub enum DiffLineKind {
    Context,
    Addition,
    Removal,
    HunkHeader { old_start: u32, old_count: u32, new_start: u32, new_count: u32 },
    NoNewlineAtEndOfFile,
}

/// One line of a diff.
#[derive(Debug, PartialEq, Eq)]
pub struct DiffLine {
    pub kind: DiffLineKind,
    pub content: String,
    pub old_line_no: Option<u32>,
    pub new_line_no: Option<u32>,
}

/// The diff of one file.
#[derive(Debug, PartialEq, Eq)]
pub struct DiffFile {
    pub path: String,
    pub old_path: Option<String>,
    pub additions: u32,
    pub deletions: u32,
    pub is_new: bool,
    pub is_deleted: bool,
    pub is_binary: bool,
    pub is_renamed: bool,
    pub lines: Vec<DiffLine>,
}

/// The diff review view.
#[derive(Debug, PartialEq, Eq)]
pub struct DiffReviewState {
    pub files: Vec<DiffFile>,
    pub selected_file_index: usize,
    pub scroll_offset: usize,
    pub error: Option<String>,
    pub task_number: u32,
    pub files_list_focused: bool,
}

/// One commit of the history shown in the reports view.
#[derive(Debug, PartialEq, Eq)]
pub struct GitCommit {
    pub hash: String,
    pub message: String,
    pub author: String,
    pub date: String,
    pub timestamp: i64,
}

/// Which pane of the reports view has the focus.
#[derive(Clone, Copy, Debug, PartialEq, Eq, Structural)]
pub enum ReportsFocusedPane {
    Tasks,
    Commits,
}

/// Task counts and durations of the reports view. The durations are those of
/// the done tasks, in seconds, in the order of the tasks.
#[derive(Debug, PartialEq, Eq)]
pub struct TaskStats {
    pub total_tasks: usize,
    pub completed_tasks: usize,
    pub failed_tasks: usize,
    pub running_tasks: usize,
    pub durations: Vec<i64>,
}

/// The reports view.
#[derive(Debug, PartialEq, Eq)]
pub struct ReportsState {
    pub commits: Vec<GitCommit>,
    pub stats: TaskStats,
    pub selected_index: usize,
    pub scroll_offset: usize,
    pub error: Option<String>,
    pub focused_pane: ReportsFocusedPane,
    pub task_ids: Vec<String>,
    pub selected_task_index: usize,
}

/// The archive view.
#[derive(Clone, Copy, Debug, PartialEq, Eq, Structural)]
pub struct ArchiveState {
    pub selected_index: usize,
}

/// A request of an agent for permission to use a tool.
#[derive(Debug, PartialEq, Eq)]
pub struct PermissionRequest {
    pub id: String,
    pub session_id: String,
    pub tool_name: String,
    pub description: String,
    pub details: Option<String>,
}

/// A question of an agent with the answers it offers.
#[derive(Debug, PartialEq, Eq)]
pub struct QuestionRequest {
    pub id: String,
    pub session_id: String,
    pub question: String,
    pub answers: Vec<String>,
}

/// One part of a message; only the parts that start a subagent are told apart.
#[derive(Debug, PartialEq, Eq)]
pub enum TaskMessagePart {
    Agent { id: String, agent: String },
    Other,
}

/// One message of a session.
#[derive(Debug, PartialEq, Eq)]
pub struct TaskMessage {
    pub parts: Vec<TaskMessagePart>,
}

/// What is known of a session.
#[derive(Debug, PartialEq, Eq)]
pub struct TaskDetailSession {
    pub session_id: Option<String>,
    pub task_id: String,
    pub streaming_text: Option<String>,
    pub messages: Vec<TaskMessage>,
    pub pending_permissions: Vec<PermissionRequest>,
    pub pending_questions: Vec<QuestionRequest>,
    pub active_prompt: Option<String>,
    pub render_version: u64,
}

impl TaskDetailSession {
    /// Whether a permission or a question waits for the user.
    pub open spec fn pending(&self) -> bool {
        self.pending_permissions@.len() > 0 || self.pending_questions@.len() > 0
    }

    /// Whether a permission or a question waits for the user.
    pub fn has_pending(&self) -> (r: bool)
        ensures
            r == self.pending(),
    {
        self.pending_permissions.len() > 0 || self.pending_questions.len() > 0
    }
}

/// One step down into a subagent.
#[derive(Debug, PartialEq, Eq)]
pub struct SessionRef {
    pub task_id: String,
    pub session_id: String,
    pub label: String,
    pub depth: u32,
}

/// The sessions that are known, by task and by subagent session.
#[derive(Debug, PartialEq, Eq)]
pub struct SessionTracker {
    pub task_sessions: Table<TaskDetailSession>,
    pub subagent_session_data: Table<TaskDetailSession>,
    pub subagent_sessions: Table<Vec<String>>,
    pub subagent_to_parent: Table<String>,
    /// How many lines of output are cached for a task.
    pub cached_streaming_lines: Table<usize>,
}

/// A task on the board.
#[derive(Debug, PartialEq, Eq)]
pub struct CortexTask {
    pub id: String,
    pub number: u32,
    pub project_id: String,
    pub column: String,
    pub description: String,
    pub agent_status: AgentStatus,
    pub agent_type: Option<String>,
    pub session_id: Option<String>,
    pub review_status: ReviewStatus,
    pub queued_prompt: Option<String>,
    pub error_message: Option<String>,
    pub pending_permission_count: u32,
    pub pending_question_count: u32,
    pub blocked_by: Vec<String>,
    pub created_at: i64,
    pub entered_column_at: i64,
    pub last_activity_at: i64,
}

/// A project.
#[derive(Debug, PartialEq, Eq)]
pub struct Project {
    pub id: String,
    pub name: String,
    pub working_directory: String,
    pub status: ProjectStatus,
}

/// The projects, and which of them is active.
#[derive(Debug, PartialEq, Eq)]
pub struct ProjectRegistry {
    pub projects: Vec<Project>,
    pub active_project_id: Option<String>,
}

/// The board: the tasks of each column and where the focus is.
#[derive(Debug, PartialEq, Eq)]
pub struct KanbanState {
    pub columns: Table<Vec<String>>,
    pub focused_task_index: Table<usize>,
    pub focused_column_index: usize,
    pub kanban_scroll_offset: usize,
}

/// An action that waits for the user to confirm it.
#[derive(Debug, PartialEq, Eq)]
pub enum ConfirmableAction {
    DeleteProject(String),
}

/// The state of the user interface.
#[derive(Debug, PartialEq, Eq)]
pub struct UiState {
    pub mode: AppMode,
    pub focused_panel: FocusedPanel,
    pub focused_column: String,
    pub focused_task_id: Option<String>,
    pub viewing_task_id: Option<String>,
    pub detail_editor: Option<TaskEditorState>,
    pub task_editor: Option<TaskEditorState>,
    pub changed_files: Option<Vec<ChangedFileInfo>>,
    pub changed_files_focused: bool,
    pub selected_changed_file_index: usize,
    pub permission_modal_active: bool,
    pub permission_modal_selected_index: usize,
    /// When the modal was dismissed, in milliseconds of a clock that never
    /// goes back.
    pub permission_modal_dismissed_at: Option<u64>,
    pub user_scroll_offset: Option<usize>,
    pub session_nav_stack: Vec<SessionRef>,
    pub input_text: String,
    pub input_cursor: usize,
    pub prompt_label: String,
    pub prompt_context: Option<String>,
    pub pending_delete_task_id: Option<String>,
    pub confirm_action: Option<ConfirmableAction>,
    pub diff_review: Option<DiffReviewState>,
    pub diff_review_source: Option<FocusedPanel>,
    pub reports: Option<ReportsState>,
    pub archive_state: Option<ArchiveState>,
    pub config_editor_state: Option<ConfigEditorState>,
    pub notifications: Vec<Notification>,
}

/// The whole application state.
#[derive(Debug, PartialEq, Eq)]
pub struct AppState {
    pub tasks: Table<CortexTask>,
    pub kanban: KanbanState,
    pub ui: UiState,
    pub session_tracker: SessionTracker,
    pub project_registry: ProjectRegistry,
    pub render_dirty: bool,
}

/// The contents of an optional string.
pub open spec fn opt_view(o: Option<String>) -> Option<Seq<char>> {
    match o {
        Some(s) => Some(s@),
        None => None,
    }
}

/// A copy of an optional string.
pub fn clone_opt(o: &Option<String>) -> (r: Option<String>)
    ensures
        r == *o,
{
    match o {
        Some(s) => Some(s.clone()),
        None => None,
    }
}

/// Whether `o` is a string with the contents of `s`.
pub fn opt_is(o: &Option<String>, s: &str) -> (r: bool)
    ensures
        r == (opt_view(*o) == Some(s@)),
{
    match o {
        Some(t) => text::same(t.as_str(), s),
        None => false,
    }
}

/// The position of the first project with the given id, from `from` on.
pub open spec fn project_at(projects: Seq<Project>, id: Seq<char>, from: int) -> Option<int>
    decreases projects.len() - from,
{
    if from < 0 || from >= projects.len() {
        None
    } else if projects[from].id@ == id {
        Some(from)
    } else {
        project_at(projects, id, from + 1)
    }
}

impl ProjectRegistry {
    /// The position of the first project with the given id.
    pub open spec fn slot(&self, id: Seq<char>) -> Option<int> {
        project_at(self.projects@, id, 0)
    }

    /// The position of the first project with the given id.
    pub fn position(&self, id: &str) -> (r: Option<usize>)
        ensures
            match r {
                Some(i) => i < self.projects@.len() && self.slot(id@) == Some(i as int),
                None => self.slot(id@) is None,
            },
    {
        let mut i: usize = 0;
        while i < self.projects.len()
            invariant
                i <= self.projects@.len(),
                project_at(self.projects@, id@, i as int) == self.slot(id@),
            decreases self.projects@.len() - i,
        {
            if text::same(self.projects[i].id.as_str(), id) {
                return Some(i);
            }
            i += 1;
        }
        None
    }

    /// The working directory of the project with the given id, unless it is
    /// empty or there is no such project.
    pub open spec fn working_dir(&self, id: Seq<char>) -> Option<Seq<char>> {
        match self.slot(id) {
            Some(i) => if self.projects@[i].working_directory@.len() > 0 {
                Some(self.projects@[i].working_directory@)
            } else {
                None
            },
            None => None,
        }
    }

    /// The working directory of the project with the given id, unless it is
    /// empty or there is no such project.
    pub fn working_directory_of(&self, id: &str) -> (r: Option<String>)
        ensures
            opt_view(r) == self.working_dir(id@),
    {
        match self.position(id) {
            Some(i) => {
                let wd = &self.projects[i].working_directory;
                if wd.as_str().unicode_len() > 0 {
                    Some(wd.clone())
                } else {
                    None
                }
            },
            None => None,
        }
    }
}

/// The projects for which there is a connection to an agent server.
#[derive(Debug, PartialEq, Eq)]
pub struct Clients {
    pub projects: Vec<String>,
}

impl Clients {
    /// Whether there is a connection for the project.
    pub open spec fn serves(&self, project_id: Seq<char>) -> bool {
        text::texts(self.projects@).contains(project_id)
    }

    /// Whether there is a connection for the project.
    pub fn has(&self, project_id: &str) -> (r: bool)
        ensures
            r == self.serves(project_id@),
    {
        let mut i: usize = 0;
        while i < self.projects.len()
            invariant
                i <= self.projects@.len(),
                forall|j: int| 0 <= j < i ==> (#[trigger] self.projects@[j])@ != project_id@,
            decreases self.projects@.len() - i,
        {
            if text::same(self.projects[i].as_str(), project_id) {
                proof {
                    assert(text::texts(self.projects@)[i as int] == project_id@);
                }
                return true;
            }
            i += 1;
        }
        proof {
            assert forall|j: int| 0 <= j < text::texts(self.projects@).len() implies
                #[trigger] text::texts(self.projects@)[j] != project_id@ by {
                assert(text::texts(self.projects@)[j] == self.projects@[j]@);
            }
        }
        false
    }

    /// Whether there is a connection for the active project.
    pub open spec fn serves_active(&self, registry: &ProjectRegistry) -> bool {
        match registry.active_project_id {
            Some(pid) => self.serves(pid@),
            None => false,
        }
    }

    /// Whether there is a connection for the active project.
    pub fn has_active(&self, registry: &ProjectRegistry) -> (r: bool)
        ensures
            r == self.serves_active(registry),
    {
        match &registry.active_project_id {
            Some(pid) => self.has(pid.as_str()),
            None => false,
        }
    }
}

impl AppState {
    /// The session of the subagent that is drilled into, if any.
    pub open spec fn drilldown(&self) -> Option<Seq<char>> {
        if self.ui.session_nav_stack@.len() > 0 {
            Some(self.ui.session_nav_stack@.last().session_id@)
        } else {
            None
        }
    }

    /// The session of the subagent that is drilled into, if any.
    pub fn get_drilldown_session_id(&self) -> (r: Option<&String>)
        ensures
            match r {
                Some(s) => self.drilldown() == Some(s@),
                None => self.drilldown() is None,
            },
    {
        let n: usize = self.ui.session_nav_stack.len();
        if n > 0 {
            Some(&self.ui.session_nav_stack[n - 1].session_id)
        } else {
            None
        }
    }

    /// Whether a subagent is drilled into.
    pub fn is_drilled_into_subagent(&self) -> (r: bool)
        ensures
            r == (self.drilldown() is Some),
    {
        self.ui.session_nav_stack.len() > 0
    }

    /// Asks for a new frame.
    pub fn mark_render_dirty(&mut self)
        ensures
            *final(self) == (AppState { render_dirty: true, ..*old(self) }),
    {
        self.render_dirty = true;
    }

    /// Whether a new frame was asked for; the request is used up.
    pub fn take_render_dirty(&mut self) -> (r: bool)
        ensures
            r == old(self).render_dirty,
            *final(self) == (AppState { render_dirty: false, ..*old(self) }),
    {
        let was = self.render_dirty;
        self.render_dirty = false;
        was
    }
}

/// The working directory of a project is the one entered for it; a project with
/// none, or one that is not known, has no working directory.
pub proof fn law_working_directory_is_that_of_the_project(
    registry: ProjectRegistry,
    id: Seq<char>,
    k: int,
)
    requires
        0 <= k < registry.projects@.len(),
        registry.projects@[k].id@ == id,
        forall|m: int| 0 <= m < k ==> (#[trigger] registry.projects@[m]).id@ != id,
    ensures
        registry.slot(id) == Some(k),
        registry.working_dir(id) == if registry.projects@[k].working_directory@.len() > 0 {
            Some(registry.projects@[k].working_directory@)
        } else {
            None
        },
{
    lemma_first_project(registry.projects@, id, k, 0);
}

proof fn lemma_first_project(projects: Seq<Project>, id: Seq<char>, k: int, from: int)
    requires
        0 <= from <= k < projects.len(),
        projects[k].id@ == id,
        forall|m: int| 0 <= m < k ==> (#[trigger] projects[m]).id@ != id,
    ensures
        project_at(projects, id, from) == Some(k),
    decreases k - from,
{
    if from < k {
        lemma_first_project(projects, id, k, from + 1);
    }
}

/// A task at rest is one whose agent no longer works and asks nothing; its work
/// can be reviewed where it did not fail or hang.
pub proof fn law_reviewable_work_is_at_rest(status: AgentStatus)
    ensures
        status.reviewable() ==> status.at_rest(),
        status.at_rest() <==> !(status is Pending || status is Running || status is Question),
        status.at_rest() && !status.reviewable() <==> status is Hung || status is Error,
{
}

} // verus!
