//! Subagent drill-down: finding a subagent in the session in view and going
//! down into its session.

use vstd::prelude::*;
use crate::diff_view;
use crate::effects;
use crate::effects::{Effect, Effects};
use crate::permission;
use crate::state::{
    AppState, Clients, FocusedPanel, NotificationVariant, SessionRef, SessionTracker,
    TaskDetailSession, TaskMessage, TaskMessagePart,
};
use crate::table;
use crate::tasks;
use crate::text;

verus! {

/// Whether one of the drill-down steps is into the given session.
pub open spec fn on_stack(stack: Seq<SessionRef>, session_id: Seq<char>) -> bool {
    exists|i: int| 0 <= i < stack.len() && (#[trigger] stack[i]).session_id@ == session_id
}

fn is_on_stack(stack: &Vec<SessionRef>, session_id: &str) -> (r: bool)
    ensures
        r == on_stack(stack@, session_id@),
{
    let mut i: usize = 0;
    while i < stack.len()
        invariant
            i <= stack@.len(),
            forall|j: int| 0 <= j < i ==> (#[trigger] stack@[j]).session_id@ != session_id@,
        decreases stack@.len() - i,
    {
        if text::same(stack[i].session_id.as_str(), session_id) {
            return true;
        }
        i += 1;
    }
    false
}

/// Whether a message part starts a subagent that is not drilled into yet.
pub open spec fn drillable(part: TaskMessagePart, stack: Seq<SessionRef>) -> bool {
    match part {
        TaskMessagePart::Agent { id, agent } => !on_stack(stack, id@),
        TaskMessagePart::Other => false,
    }
}

/// The session and name of the subagent that a message part starts.
pub open spec fn agent_of(part: TaskMessagePart) -> (Seq<char>, Seq<char>) {
    match part {
        TaskMessagePart::Agent { id, agent } => (id@, agent@),
        TaskMessagePart::Other => (Seq::empty(), Seq::empty()),
    }
}

/// The first subagent among the parts of a message, from `from` on.
pub open spec fn in_parts(
    parts: Seq<TaskMessagePart>,
    stack: Seq<SessionRef>,
    from: int,
) -> Option<(Seq<char>, Seq<char>)>
    decreases parts.len() - from,
{
    if from < 0 || from >= parts.len() {
        None
    } else if drillable(parts[from], stack) {
        Some(agent_of(parts[from]))
    } else {
        in_parts(parts, stack, from + 1)
    }
}

/// The first subagent among messages, from `from` on.
pub open spec fn in_messages(
    messages: Seq<TaskMessage>,
    stack: Seq<SessionRef>,
    from: int,
) -> Option<(Seq<char>, Seq<char>)>
    decreases messages.len() - from,
{
    if from < 0 || from >= messages.len() {
        None
    } else {
        match in_parts(messages[from].parts@, stack, 0) {
            Some(found) => Some(found),
            None => in_messages(messages, stack, from + 1),
        }
    }
}

fn scan_parts(parts: &Vec<TaskMessagePart>, stack: &Vec<SessionRef>) -> (r: Option<
    (String, String),
>)
    ensures
        match r {
            Some((id, agent)) => in_parts(parts@, stack@, 0) == Some((id@, agent@)),
            None => in_parts(parts@, stack@, 0) is None,
        },
{
    let mut i: usize = 0;
    while i < parts.len()
        invariant
            i <= parts@.len(),
            in_parts(parts@, stack@, i as int) == in_parts(parts@, stack@, 0),
        decreases parts@.len() - i,
    {
        if let TaskMessagePart::Agent { id, agent } = &parts[i] {
            if !is_on_stack(stack, id.as_str()) {
                return Some((id.clone(), agent.clone()));
            }
        }
        i += 1;
    }
    None
}

fn scan_messages(messages: &Vec<TaskMessage>, stack: &Vec<SessionRef>) -> (r: Option<
    (String, String),
>)
    ensures
        match r {
            Some((id, agent)) => in_messages(messages@, stack@, 0) == Some((id@, agent@)),
            None => in_messages(messages@, stack@, 0) is None,
        },
{
    let mut i: usize = 0;
    while i < messages.len()
        invariant
            i <= messages@.len(),
            in_messages(messages@, stack@, i as int) == in_messages(messages@, stack@, 0),
        decreases messages@.len() - i,
    {
        if let Some(found) = scan_parts(&messages[i].parts, stack) {
            return Some(found);
        }
        i += 1;
    }
    None
}

/// The task in the detail view, or nothing.
pub open spec fn viewed_task(state: AppState) -> Seq<char> {
    match state.ui.viewing_task_id {
        Some(id) => id@,
        None => Seq::empty(),
    }
}

/// The depth of a step down from the present view.
pub open spec fn next_depth(state: AppState) -> u32 {
    if state.ui.session_nav_stack@.len() > 0 {
        diff_view::next_no(state.ui.session_nav_stack@.last().depth)
    } else {
        1
    }
}

/// The first subagent in the session in view that is not drilled into yet:
/// its session, its name, the task, and the depth it would be shown at.
pub open spec fn found_subagent(state: AppState) -> Option<
    (Seq<char>, Seq<char>, Seq<char>, u32),
> {
    match permission::effective(state) {
        Some(s) => match in_messages(s.messages@, state.ui.session_nav_stack@, 0) {
            Some((id, agent)) => Some((id, agent, viewed_task(state), next_depth(state))),
            None => None,
        },
        None => None,
    }
}

/// Scan the current view for a drillable subagent.
///
/// Returns `Some((session_id, agent_name, parent_task_id, depth))` if a
/// navigable subagent is found, or `None` otherwise.
pub fn find_drillable_subagent(state: &AppState) -> (r: Option<(String, String, String, u32)>)
    ensures
        match r {
            Some((id, agent, task_id, depth)) => found_subagent(*state) == Some(
                (id@, agent@, task_id@, depth),
            ),
            None => found_subagent(*state) is None,
        },
{
    match permission::get_effective_session(state) {
        Some(s) => match scan_messages(&s.messages, &state.ui.session_nav_stack) {
            Some((id, agent)) => {
                let task_id = match &state.ui.viewing_task_id {
                    Some(tid) => tid.clone(),
                    None => String::new(),
                };
                let n: usize = state.ui.session_nav_stack.len();
                let depth: u32 = if n > 0 {
                    state.ui.session_nav_stack[n - 1].depth.wrapping_add(1)
                } else {
                    1
                };
                Some((id, agent, task_id, depth))
            },
            None => None,
        },
        None => None,
    }
}

/// What asking to drill down does: nothing outside the detail view; without a
/// subagent a message; else the step down is begun.
pub open spec fn drill_asked(state: AppState) -> Seq<Effect<Seq<char>>> {
    if state.ui.focused_panel != FocusedPanel::TaskDetail {
        seq![]
    } else {
        match found_subagent(state) {
            None => seq![
                effects::notice("No subagent to drill into"@, NotificationVariant::Info, 2000),
            ],
            Some((session_id, agent, task_id, depth)) => seq![
                Effect::DrillDown { session_id, agent, task_id, depth },
            ],
        }
    }
}

/// Handle drill-down into a subagent session.
pub fn handle_drill_down_subagent(state: &AppState) -> (fx: Effects)
    ensures
        fx@ == drill_asked(*state),
{
    if state.ui.focused_panel != FocusedPanel::TaskDetail {
        return Effects::new();
    }
    match find_drillable_subagent(state) {
        None => Effects::say("No subagent to drill into", NotificationVariant::Info, 2000),
        Some((session_id, agent, task_id, depth)) => Effects::one(
            Effect::DrillDown { session_id, agent, task_id, depth },
        ),
    }
}

/// Whether the messages of a subagent session still have to be fetched.
pub open spec fn unfetched(state: AppState, session_id: Seq<char>) -> bool {
    match table::lookup(state.session_tracker.subagent_session_data@, session_id) {
        Some(s) => s.messages@.len() == 0,
        None => true,
    }
}

/// The label of a step down: below a subagent just its name, else the task and
/// the name.
pub open spec fn label_of(state: AppState, task_id: Seq<char>, agent: Seq<char>) -> Seq<char> {
    if state.ui.session_nav_stack@.len() > 0 {
        agent
    } else {
        (match tasks::task_of(state, task_id) {
            Some(t) => "Task #"@ + text::decimal(t.number as nat),
            None => task_id,
        }) + " > "@ + agent
    }
}

/// The step down itself: nothing when the session is on the stack already.
pub open spec fn pushed(
    state: AppState,
    session_id: Seq<char>,
    agent: Seq<char>,
    task_id: Seq<char>,
    depth: u32,
) -> Seq<Effect<Seq<char>>> {
    if on_stack(state.ui.session_nav_stack@, session_id) {
        seq![]
    } else {
        seq![
            Effect::PushDrilldown {
                task_id,
                session_id,
                label: label_of(state, task_id, agent),
                depth,
            },
        ]
    }
}

fn push_step(
    state: &AppState,
    session_id: &str,
    agent: &str,
    task_id: &str,
    depth: u32,
) -> (fx: Effects)
    ensures
        fx@ == pushed(*state, session_id@, agent@, task_id@, depth),
{
    if is_on_stack(&state.ui.session_nav_stack, session_id) {
        return Effects::new();
    }
    let label = if state.is_drilled_into_subagent() {
        agent.to_owned()
    } else {
        let mut label = match state.tasks.get(task_id) {
            Some(t) => text::join2("Task #", text::dec(t.number as u64).as_str()),
            None => task_id.to_owned(),
        };
        label.append(" > ");
        label.append(agent);
        label
    };
    Effects::one(
        Effect::PushDrilldown {
            task_id: task_id.to_owned(),
            session_id: session_id.to_owned(),
            label,
            depth,
        },
    )
}

/// Goes on with a step down: messages that are not there yet are fetched
/// first, which takes a connection for the active project.
pub fn drill_down_step(
    state: &AppState,
    clients: &Clients,
    session_id: &str,
    agent: &str,
    task_id: &str,
    depth: u32,
) -> (fx: Effects)
    ensures
        fx@ == if !unfetched(*state, session_id@) {
            pushed(*state, session_id@, agent@, task_id@, depth)
        } else if clients.serves_active(&state.project_registry) {
            seq![
                Effect::FetchSubagent {
                    project_id: state.project_registry.active_project_id->0@,
                    session_id: session_id@,
                    agent: agent@,
                    task_id: task_id@,
                    depth,
                },
            ]
        } else {
            seq![
                effects::notice(
                    "No OpenCode client available"@,
                    NotificationVariant::Warning,
                    3000,
                ),
            ]
        },
{
    let missing = match state.session_tracker.subagent_session_data.get(session_id) {
        Some(s) => s.messages.len() == 0,
        None => true,
    };
    if !missing {
        return push_step(state, session_id, agent, task_id, depth);
    }
    if let Some(pid) = &state.project_registry.active_project_id {
        if clients.has(pid.as_str()) {
            return Effects::one(
                Effect::FetchSubagent {
                    project_id: pid.clone(),
                    session_id: session_id.to_owned(),
                    agent: agent.to_owned(),
                    task_id: task_id.to_owned(),
                    depth,
                },
            );
        }
    }
    Effects::say("No OpenCode client available", NotificationVariant::Warning, 3000)
}

/// What is kept of a session when its messages have come: the messages in
/// place of the streamed text, under a new version; the rest as it was.
pub open spec fn refreshed(
    before: Option<TaskDetailSession>,
    session_id: Seq<char>,
    task_id: Seq<char>,
    messages: Vec<TaskMessage>,
    after: TaskDetailSession,
) -> bool {
    &&& after.session_id is Some
    &&& after.session_id->0@ == session_id
    &&& after.task_id@ == task_id
    &&& after.streaming_text is None
    &&& after.messages == messages
    &&& match before {
        Some(b) => {
            &&& after.pending_permissions == b.pending_permissions
            &&& after.pending_questions == b.pending_questions
            &&& after.active_prompt == b.active_prompt
            &&& after.render_version == next_version(b.render_version)
        },
        None => {
            &&& after.pending_permissions@.len() == 0
            &&& after.pending_questions@.len() == 0
            &&& after.active_prompt is None
            &&& after.render_version == 1
        },
    }
}

/// The version behind `v`; versions start over behind the largest one.
pub open spec fn next_version(v: u64) -> u64 {
    if v == u64::MAX {
        0
    } else {
        (v + 1) as u64
    }
}

/// Takes the messages of a subagent session, or the failure to fetch them, and
/// goes on with the step down.
pub fn subagent_fetched(
    state: &mut AppState,
    session_id: &str,
    agent: &str,
    task_id: &str,
    depth: u32,
    outcome: Result<Vec<TaskMessage>, String>,
) -> (fx: Effects)
    ensures
        match outcome {
            Err(e) => {
                &&& *final(state) == *old(state)
                &&& fx@ == seq![
                    effects::notice(
                        "Failed to load subagent: "@ + e@,
                        NotificationVariant::Error,
                        3000,
                    ),
                ]
            },
            Ok(messages) => {
                &&& *final(state) == (AppState {
                    session_tracker: SessionTracker {
                        subagent_session_data: final(state).session_tracker.subagent_session_data,
                        ..old(state).session_tracker
                    },
                    ..*old(state)
                })
                &&& ({
                    let was = old(state).session_tracker.subagent_session_data@;
                    let is = final(state).session_tracker.subagent_session_data@;
                    &&& is.contains_key(session_id@)
                    &&& is == was.insert(session_id@, is[session_id@])
                    &&& refreshed(
                        table::lookup(was, session_id@),
                        session_id@,
                        task_id@,
                        messages,
                        is[session_id@],
                    )
                })
                &&& fx@ == pushed(*old(state), session_id@, agent@, task_id@, depth)
            },
        },
{
    let messages = match outcome {
        Ok(m) => m,
        Err(e) => {
            let message = text::join2("Failed to load subagent: ", e.as_str());
            return Effects::say(message.as_str(), NotificationVariant::Error, 3000);
        },
    };
    if !state.session_tracker.subagent_session_data.contains_key(session_id) {
        let fresh = TaskDetailSession {
            session_id: Some(session_id.to_owned()),
            task_id: task_id.to_owned(),
            streaming_text: None,
            messages,
            pending_permissions: Vec::new(),
            pending_questions: Vec::new(),
            active_prompt: None,
            render_version: 1,
        };
        state.session_tracker.subagent_session_data.insert(session_id.to_owned(), fresh);
    } else {
        match state.session_tracker.subagent_session_data.get_mut(session_id) {
            Some(entry) => {
                entry.session_id = Some(session_id.to_owned());
                entry.task_id = task_id.to_owned();
                entry.streaming_text = None;
                entry.messages = messages;
                entry.render_version = entry.render_version.wrapping_add(1);
            },
            None => {},
        }
    }
    push_step(state, session_id, agent, task_id, depth)
}

proof fn lemma_part_is_off_stack(parts: Seq<TaskMessagePart>, stack: Seq<SessionRef>, from: int)
    ensures
        match in_parts(parts, stack, from) {
            Some((id, _)) => !on_stack(stack, id),
            None => true,
        },
    decreases parts.len() - from,
{
    if 0 <= from < parts.len() && !drillable(parts[from], stack) {
        lemma_part_is_off_stack(parts, stack, from + 1);
    }
}

proof fn lemma_message_is_off_stack(messages: Seq<TaskMessage>, stack: Seq<SessionRef>, from: int)
    ensures
        match in_messages(messages, stack, from) {
            Some((id, _)) => !on_stack(stack, id),
            None => true,
        },
    decreases messages.len() - from,
{
    if 0 <= from < messages.len() {
        lemma_part_is_off_stack(messages[from].parts@, stack, 0);
        lemma_message_is_off_stack(messages, stack, from + 1);
    }
}

/// A subagent that is found to drill into is never one that is drilled into
/// already, so no session comes onto the stack twice.
pub proof fn law_no_subagent_twice(state: AppState)
    requires
        found_subagent(state) is Some,
    ensures
        ({
            let (session_id, agent, task_id, depth) = found_subagent(state)->0;
            &&& !on_stack(state.ui.session_nav_stack@, session_id)
            &&& pushed(state, session_id, agent, task_id, depth).len() == 1
        }),
{
    let s = permission::effective(state)->0;
    lemma_message_is_off_stack(s.messages@, state.ui.session_nav_stack@, 0);
}

/// Whether part `p` of message `m` starts a subagent that is not drilled into.
pub open spec fn starts_at(
    messages: Seq<TaskMessage>,
    stack: Seq<SessionRef>,
    m: int,
    p: int,
) -> bool {
    &&& 0 <= m < messages.len()
    &&& 0 <= p < messages[m].parts@.len()
    &&& messages[m].parts@[p] matches TaskMessagePart::Agent { id, .. } && forall|k: int|
        0 <= k < stack.len() ==> (#[trigger] stack[k]).session_id@ != id@
}

proof fn lemma_first_part(
    messages: Seq<TaskMessage>,
    stack: Seq<SessionRef>,
    m: int,
    from: int,
)
    requires
        0 <= m < messages.len(),
        0 <= from,
    ensures
        match in_parts(messages[m].parts@, stack, from) {
            Some((id, agent)) => exists|p: int| #[trigger]
                starts_at(messages, stack, m, p) && from <= p && id
                    == messages[m].parts@[p]->Agent_id@ && agent
                    == messages[m].parts@[p]->Agent_agent@ && forall|q: int|
                    from <= q < p ==> !(#[trigger] starts_at(messages, stack, m, q)),
            None => forall|q: int| from <= q ==> !(#[trigger] starts_at(messages, stack, m, q)),
        },
    decreases messages[m].parts@.len() - from,
{
    let parts = messages[m].parts@;
    if from < parts.len() {
        assert(drillable(parts[from], stack) <==> starts_at(messages, stack, m, from));
        if drillable(parts[from], stack) {
            assert(starts_at(messages, stack, m, from));
        } else {
            lemma_first_part(messages, stack, m, from + 1);
            match in_parts(parts, stack, from + 1) {
                Some((id, agent)) => {
                    let p = choose|p: int| #[trigger]
                        starts_at(messages, stack, m, p) && from + 1 <= p && id
                            == parts[p]->Agent_id@ && agent == parts[p]->Agent_agent@ && forall|
                            q: int,
                        |
                            from + 1 <= q < p ==> !(#[trigger] starts_at(messages, stack, m, q));
                    assert forall|q: int| from <= q < p implies !(#[trigger] starts_at(
                        messages,
                        stack,
                        m,
                        q,
                    )) by {}
                    assert(starts_at(messages, stack, m, p));
                },
                None => {},
            }
        }
    }
}

proof fn lemma_first_message(messages: Seq<TaskMessage>, stack: Seq<SessionRef>, from: int)
    requires
        0 <= from,
    ensures
        match in_messages(messages, stack, from) {
            Some((id, agent)) => exists|m: int, p: int| #[trigger]
                starts_at(messages, stack, m, p) && from <= m && id
                    == messages[m].parts@[p]->Agent_id@ && agent
                    == messages[m].parts@[p]->Agent_agent@ && forall|n: int, q: int|
                    from <= n && (n < m || n == m && q < p) ==> !(#[trigger] starts_at(
                        messages,
                        stack,
                        n,
                        q,
                    )),
            None => forall|n: int, q: int|
                from <= n ==> !(#[trigger] starts_at(messages, stack, n, q)),
        },
    decreases messages.len() - from,
{
    if from < messages.len() {
        lemma_first_part(messages, stack, from, 0);
        match in_parts(messages[from].parts@, stack, 0) {
            Some((id, agent)) => {
                let p = choose|p: int| #[trigger]
                    starts_at(messages, stack, from, p) && 0 <= p && id
                        == messages[from].parts@[p]->Agent_id@ && agent
                        == messages[from].parts@[p]->Agent_agent@ && forall|q: int|
                        0 <= q < p ==> !(#[trigger] starts_at(messages, stack, from, q));
                assert(starts_at(messages, stack, from, p));
            },
            None => {
                lemma_first_message(messages, stack, from + 1);
                match in_messages(messages, stack, from + 1) {
                    Some((id, agent)) => {
                        let (m, p) = choose|m: int, p: int| #[trigger]
                            starts_at(messages, stack, m, p) && from + 1 <= m && id
                                == messages[m].parts@[p]->Agent_id@ && agent
                                == messages[m].parts@[p]->Agent_agent@ && forall|n: int, q: int|
                                from + 1 <= n && (n < m || n == m && q < p) ==> !(
                                #[trigger] starts_at(messages, stack, n, q));
                        assert(starts_at(messages, stack, m, p));
                        assert forall|n: int, q: int|
                            from <= n && (n < m || n == m && q < p) implies !(
                        #[trigger] starts_at(messages, stack, n, q)) by {
                            if n == from && q >= 0 {
                                assert(!starts_at(messages, stack, from, q));
                            }
                        }
                    },
                    None => {
                        assert forall|n: int, q: int| from <= n implies !(#[trigger] starts_at(
                            messages,
                            stack,
                            n,
                            q,
                        )) by {
                            if n == from && q >= 0 {
                                assert(!starts_at(messages, stack, from, q));
                            }
                        }
                    },
                }
            },
        }
    }
}

/// Drilling down goes to the first subagent in the messages in view that is not
/// drilled into yet, one level deeper than the present view; where the messages
/// start none, there is none to go to.
pub proof fn law_first_subagent_is_drilled_into(state: AppState)
    requires
        permission::effective(state) is Some,
    ensures
        ({
            let messages = permission::effective(state)->0.messages@;
            let stack = state.ui.session_nav_stack@;
            match found_subagent(state) {
                Some((id, agent, task, depth)) => {
                    &&& exists|m: int, p: int| #[trigger]
                        starts_at(messages, stack, m, p) && id
                            == messages[m].parts@[p]->Agent_id@ && agent
                            == messages[m].parts@[p]->Agent_agent@ && forall|n: int, q: int|
                            n < m || n == m && q < p ==> !(#[trigger] starts_at(
                                messages,
                                stack,
                                n,
                                q,
                            ))
                    &&& state.ui.viewing_task_id is Some ==> task == state.ui.viewing_task_id->0@
                    &&& stack.len() == 0 ==> depth == 1
                    &&& stack.len() > 0 && stack.last().depth < u32::MAX ==> depth
                        == stack.last().depth + 1
                },
                None => forall|n: int, q: int| !(#[trigger] starts_at(messages, stack, n, q)),
            }
        }),
{
    let messages = permission::effective(state)->0.messages@;
    let stack = state.ui.session_nav_stack@;
    lemma_first_message(messages, stack, 0);
    match in_messages(messages, stack, 0) {
        Some((id, agent)) => {
            let (m, p) = choose|m: int, p: int| #[trigger]
                starts_at(messages, stack, m, p) && 0 <= m && id
                    == messages[m].parts@[p]->Agent_id@ && agent
                    == messages[m].parts@[p]->Agent_agent@ && forall|n: int, q: int|
                    0 <= n && (n < m || n == m && q < p) ==> !(#[trigger] starts_at(
                        messages,
                        stack,
                        n,
                        q,
                    ));
            assert(starts_at(messages, stack, m, p));
        },
        None => {},
    }
}

/// A step down is labelled with the name of the subagent; below the task itself
/// the label starts with the number of the task.
pub proof fn law_steps_down_are_labelled(state: AppState, task_id: Seq<char>, agent: Seq<char>)
    ensures
        ({
            let label = label_of(state, task_id, agent);
            &&& text::ends(label, agent)
            &&& state.ui.session_nav_stack@.len() == 0 && tasks::task_of(state, task_id) is Some
                ==> text::begins(
                label,
                "Task #"@ + text::decimal(tasks::task_of(state, task_id)->0.number as nat),
            )
        }),
{
    let label = label_of(state, task_id, agent);
    let at = label.len() - agent.len();
    assert(label.subrange(at, at + agent.len()) =~= agent);
    if state.ui.session_nav_stack@.len() == 0 && tasks::task_of(state, task_id) is Some {
        let head = "Task #"@ + text::decimal(tasks::task_of(state, task_id)->0.number as nat);
        assert(label.subrange(0, head.len() as int) =~= head);
    }
}

/// A session is gone down into once: where it is on the stack already, asking for
/// it again does nothing, and else it is put on the stack under its label.
pub proof fn law_no_session_twice_on_the_stack(
    state: AppState,
    session_id: Seq<char>,
    agent: Seq<char>,
    task_id: Seq<char>,
    depth: u32,
)
    ensures
        ({
            let fx = pushed(state, session_id, agent, task_id, depth);
            let there = exists|i: int|
                0 <= i < state.ui.session_nav_stack@.len() && (
                #[trigger] state.ui.session_nav_stack@[i]).session_id@ == session_id;
            &&& there <==> fx.len() == 0
            &&& !there ==> fx.len() == 1 && (fx[0] matches Effect::PushDrilldown {
                task_id: t,
                session_id: s,
                depth: d,
                ..
            } && t == task_id && s == session_id && d == depth)
        }),
{
}

/// Messages that have come take the place of the streamed text and of the messages
/// before; what waits in the session stays, and the version tells that something
/// has changed.
pub proof fn law_fetched_messages_replace_the_stream(
    before: Option<TaskDetailSession>,
    session_id: Seq<char>,
    task_id: Seq<char>,
    messages: Vec<TaskMessage>,
    after: TaskDetailSession,
)
    requires
        refreshed(before, session_id, task_id, messages, after),
    ensures
        after.messages@ == messages@,
        after.streaming_text is None,
        before is Some ==> after.pending() == before->0.pending() && after.render_version
            != before->0.render_version,
        before is None ==> !after.pending(),
        crate::state::opt_view(after.session_id) == Some(session_id),
        after.task_id@ == task_id,
{
}

/// The messages of a session are fetched just while none of them are there.
pub proof fn law_messages_are_fetched_once(state: AppState, session_id: Seq<char>)
    ensures
        unfetched(state, session_id) <==> !(
        state.session_tracker.subagent_session_data@.contains_key(session_id)
            && state.session_tracker.subagent_session_data@[session_id].messages@.len() > 0),
{
}

/// Drilling down works in the detail view alone; where there is a subagent to go
/// to, the step down goes there.
pub proof fn law_drilling_down_goes_to_what_was_found(state: AppState)
    ensures
        state.ui.focused_panel == FocusedPanel::Kanban ==> drill_asked(state).len() == 0,
        state.ui.focused_panel == FocusedPanel::TaskDetail ==> match found_subagent(state) {
            Some((session_id, agent, task_id, depth)) => drill_asked(state) == seq![
                Effect::DrillDown { session_id, agent, task_id, depth },
            ],
            None => drill_asked(state).len() == 1 && drill_asked(state)[0] is Notify,
        },
{
}

} // verus!
