//! Project handlers: create, rename, delete, switch, set working directory.

use vstd::prelude::*;
use crate::effects;
use crate::effects::{Effect, Effects};
use crate::state;
use crate::state::{
    AppMode, AppState, Clients, CortexTask, NotificationVariant, Project, UiState,
};
use crate::text;

verus! {

/// Quit the application.
pub fn handle_quit() -> (fx: Effects)
    ensures
        fx@ == seq![Effect::<Seq<char>>::Quit],
{
    Effects::one(Effect::Quit)
}

/// Show the help overlay.
pub fn handle_help_toggle(state: &mut AppState)
    ensures
        *final(state) == (AppState {
            ui: UiState { mode: AppMode::Help, ..old(state).ui },
            ..*old(state)
        }),
{
    state.ui.mode = AppMode::Help;
}

/// Open the new project directory prompt.
pub fn handle_new_project() -> (fx: Effects)
    ensures
        fx@ == seq![Effect::<Seq<char>>::OpenNewProjectDirectory],
{
    Effects::one(Effect::OpenNewProjectDirectory)
}

/// Open the project rename prompt.
pub fn handle_rename_project() -> (fx: Effects)
    ensures
        fx@ == seq![Effect::<Seq<char>>::OpenProjectRename],
{
    Effects::one(Effect::OpenProjectRename)
}

/// Open the set working directory prompt.
pub fn handle_set_working_directory() -> (fx: Effects)
    ensures
        fx@ == seq![Effect::<Seq<char>>::OpenSetWorkingDirectory],
{
    Effects::one(Effect::OpenSetWorkingDirectory)
}

/// The place of the active project among the projects, 0 when there is none.
pub open spec fn active_place(state: AppState) -> int {
    match state.project_registry.active_project_id {
        Some(id) => match state.project_registry.slot(id@) {
            Some(i) => i,
            None => 0,
        },
        None => 0,
    }
}

/// What switching by `direction` does: with more than one project, the one
/// that many places on is selected, around the ends of the list.
pub open spec fn switched(state: AppState, direction: int) -> Seq<Effect<Seq<char>>> {
    let projects = state.project_registry.projects@;
    if projects.len() <= 1 {
        seq![]
    } else {
        let i = (active_place(state) + direction) % (projects.len() as int);
        seq![Effect::SelectProject { project_id: projects[i].id@ }]
    }
}

/// Switch to the previous project.
pub fn handle_prev_project(state: &AppState) -> (fx: Effects)
    ensures
        fx@ == switched(*state, -1),
{
    switch_project_offset(state, -1)
}

/// Switch to the next project.
pub fn handle_next_project(state: &AppState) -> (fx: Effects)
    ensures
        fx@ == switched(*state, 1),
{
    switch_project_offset(state, 1)
}

/// Switch to the previous/next project by an offset (-1 or +1).
/// Wraps around at the boundaries.
pub fn switch_project_offset(state: &AppState, direction: i32) -> (fx: Effects)
    ensures
        fx@ == switched(*state, direction as int),
{
    let n: usize = state.project_registry.projects.len();
    if n <= 1 {
        return Effects::new();
    }
    let current: usize = match &state.project_registry.active_project_id {
        Some(id) => match state.project_registry.position(id.as_str()) {
            Some(i) => i,
            None => 0,
        },
        None => 0,
    };
    let m: u128 = n as u128;
    let on: u128 = if direction >= 0 {
        direction as u128
    } else {
        let back: u128 = (-(direction as i64)) as u128;
        proof {
            lemma_step_back(current as int, back as int, m as int);
        }
        m - back % m
    };
    let next: usize = ((current as u128 + on) % m) as usize;
    Effects::one(
        Effect::SelectProject { project_id: state.project_registry.projects[next].id.clone() },
    )
}

proof fn lemma_step_back(i: int, back: int, n: int)
    requires
        n > 0,
    ensures
        0 <= back % n < n,
        (i + (n - back % n)) % n == (i - back) % n,
{
    let q = back / n;
    vstd::arithmetic::div_mod::lemma_fundamental_div_mod(back, n);
    assert(i + (n - back % n) == n * (q + 1) + (i - back)) by (nonlinear_arith)
        requires
            back == n * q + back % n,
    ;
    vstd::arithmetic::div_mod::lemma_mod_multiples_vanish(q + 1, i - back, n);
}

proof fn lemma_place_inside(projects: Seq<Project>, id: Seq<char>, from: int)
    requires
        0 <= from,
    ensures
        match state::project_at(projects, id, from) {
            Some(i) => from <= i < projects.len(),
            None => true,
        },
    decreases projects.len() - from,
{
    if from < projects.len() {
        lemma_place_inside(projects, id, from + 1);
    }
}

/// With ids that differ, a project is found at its own place.
pub proof fn lemma_place_of(projects: Seq<Project>, j: int, from: int)
    requires
        ids_differ(projects),
        0 <= from <= j < projects.len(),
    ensures
        state::project_at(projects, projects[j].id@, from) == Some(j),
    decreases j - from,
{
    if from < j {
        lemma_place_of(projects, j, from + 1);
    }
}

/// Whether no two projects have the same id.
pub open spec fn ids_differ(projects: Seq<Project>) -> bool {
    forall|i: int, j: int|
        0 <= i < j < projects.len() ==> (#[trigger] projects[i]).id@ != (#[trigger] projects[j]).id@
}

/// Switching goes around the list and comes back: with one project or none
/// nothing is selected; else, when the project that a switch selects has become
/// the active one, the opposite switch selects the one that was active before.
pub proof fn law_switching_comes_back(before: AppState, between: AppState, direction: int)
    requires
        ids_differ(before.project_registry.projects@),
        between.project_registry.projects@ == before.project_registry.projects@,
        before.project_registry.projects@.len() > 1 ==> between.project_registry.active_project_id
            is Some && switched(before, direction) == seq![
            Effect::SelectProject {
                project_id: between.project_registry.active_project_id->0@,
            },
        ],
    ensures
        before.project_registry.projects@.len() <= 1 ==> switched(before, direction).len() == 0
            && switched(between, -direction).len() == 0,
        before.project_registry.projects@.len() > 1 ==> switched(between, -direction) == seq![
            Effect::SelectProject {
                project_id: before.project_registry.projects@[active_place(before)].id@,
            },
        ],
{
    let projects = before.project_registry.projects@;
    let n = projects.len() as int;
    if n > 1 {
        let i = active_place(before);
        let j = (i + direction) % n;
        assert(switched(before, direction)[0] == Effect::SelectProject {
            project_id: projects[j].id@,
        });
        assert(between.project_registry.active_project_id->0@ == projects[j].id@);
        assert(0 <= i < n) by {
            match before.project_registry.active_project_id {
                Some(id) => lemma_place_inside(projects, id@, 0),
                None => {},
            }
        }
        assert(0 <= j < n);
        lemma_place_of(projects, j, 0);
        assert(active_place(between) == j);
        vstd::arithmetic::div_mod::lemma_sub_mod_noop(i + direction, direction, n);
        vstd::arithmetic::div_mod::lemma_sub_mod_noop(j, direction, n);
        vstd::arithmetic::div_mod::lemma_mod_twice(i + direction, n);
        vstd::arithmetic::div_mod::lemma_small_mod(i as nat, n as nat);
        assert((j - direction) % n == i);
    }
}

/// The abort requests for the sessions of a project's tasks, in the order of
/// the tasks.
pub open spec fn aborts(tasks: Seq<(String, CortexTask)>, project_id: Seq<char>) -> Seq<
    Effect<Seq<char>>,
>
    decreases tasks.len(),
{
    if tasks.len() == 0 {
        seq![]
    } else {
        let front = aborts(tasks.drop_last(), project_id);
        let t = tasks.last().1;
        match t.session_id {
            Some(sid) => if t.project_id@ == project_id {
                front.push(Effect::AbortSession { project_id, session_id: sid@ })
            } else {
                front
            },
            None => front,
        }
    }
}

/// Aborting the sessions of a project asks for nothing else.
pub proof fn lemma_aborts_are_aborts(tasks: Seq<(String, CortexTask)>, project_id: Seq<char>)
    ensures
        forall|i: int|
            0 <= i < aborts(tasks, project_id).len() ==> (#[trigger] aborts(tasks, project_id)[i])
                is AbortSession,
    decreases tasks.len(),
{
    if tasks.len() > 0 {
        lemma_aborts_are_aborts(tasks.drop_last(), project_id);
    }
}

/// The name of the project with the given id, or the id when it is not known.
pub open spec fn project_name(state: AppState, id: Seq<char>) -> Seq<char> {
    match state.project_registry.slot(id) {
        Some(i) => state.project_registry.projects@[i].name@,
        None => id,
    }
}

/// What deleting the active project does: with a connection the sessions of
/// its tasks are aborted; then the connection and the project are removed.
pub open spec fn project_deleted(state: AppState, clients: Clients) -> Seq<Effect<Seq<char>>> {
    match state.project_registry.active_project_id {
        None => seq![
            effects::notice("No active project to delete"@, NotificationVariant::Info, 2000),
        ],
        Some(id) => {
            let stopped = if clients.serves(id@) {
                aborts(state.tasks.entries@, id@)
            } else {
                seq![]
            };
            stopped.push(Effect::RemoveClient { project_id: id@ }).push(
                Effect::RemoveProject {
                    project_id: id@,
                    project_name: project_name(state, id@),
                },
            )
        },
    }
}

/// Delete the active project: abort all sessions, remove from registry.
pub fn handle_delete_project(state: &AppState, clients: &Clients) -> (fx: Effects)
    ensures
        fx@ == project_deleted(*state, *clients),
{
    let id = match &state.project_registry.active_project_id {
        Some(id) => id,
        None => {
            return Effects::say("No active project to delete", NotificationVariant::Info, 2000);
        },
    };
    let mut fx = Effects::new();
    if clients.has(id.as_str()) {
        let mut i: usize = 0;
        let ghost all = state.tasks.entries@;
        proof {
            assert(all.take(0) =~= Seq::<(String, CortexTask)>::empty());
        }
        while i < state.tasks.entries.len()
            invariant
                i <= all.len(),
                all == state.tasks.entries@,
                fx@ == aborts(all.take(i as int), id@),
            decreases all.len() - i,
        {
            let t = &state.tasks.entries[i].1;
            proof {
                assert(all.take(i + 1).drop_last() =~= all.take(i as int));
                assert(all.take(i + 1).last().1 == *t);
            }
            if let Some(sid) = &t.session_id {
                if text::same(t.project_id.as_str(), id.as_str()) {
                    fx.push(
                        Effect::AbortSession { project_id: id.clone(), session_id: sid.clone() },
                    );
                }
            }
            i += 1;
        }
        proof {
            assert(all.take(i as int) =~= all);
        }
    }
    let name = match state.project_registry.position(id.as_str()) {
        Some(i) => state.project_registry.projects[i].name.clone(),
        None => id.clone(),
    };
    fx.push(Effect::RemoveClient { project_id: id.clone() });
    fx.push(Effect::RemoveProject { project_id: id.clone(), project_name: name });
    fx
}

/// What follows the removal of a project: the first of those left is selected,
/// and a message is shown, with another one when none is left.
pub fn project_removed(state: &AppState, name: &str) -> (fx: Effects)
    ensures
        ({
            let said = effects::notice(
                "Project \""@ + name@ + "\" deleted"@,
                NotificationVariant::Info,
                3000,
            );
            let projects = state.project_registry.projects@;
            fx@ == if projects.len() > 0 {
                seq![Effect::SelectProject { project_id: projects[0].id@ }, said]
            } else {
                seq![
                    said,
                    effects::notice(
                        "All projects deleted. Press Ctrl+N to create a new one."@,
                        NotificationVariant::Info,
                        10000,
                    ),
                ]
            }
        }),
{
    let mut fx = Effects::new();
    if state.project_registry.projects.len() > 0 {
        fx.push(
            Effect::SelectProject { project_id: state.project_registry.projects[0].id.clone() },
        );
    }
    let mut message = text::join2("Project \"", name);
    message.append("\" deleted");
    fx.notify(message.as_str(), NotificationVariant::Info, 3000);
    if state.project_registry.projects.len() == 0 {
        fx.notify(
            "All projects deleted. Press Ctrl+N to create a new one.",
            NotificationVariant::Info,
            10000,
        );
    }
    proof {
        let projects = state.project_registry.projects@;
        if projects.len() > 0 {
            assert(fx@ =~= seq![
                Effect::SelectProject { project_id: projects[0].id@ },
                effects::notice(message@, NotificationVariant::Info, 3000),
            ]);
        } else {
            assert(fx@ =~= seq![
                effects::notice(message@, NotificationVariant::Info, 3000),
                effects::notice(
                    "All projects deleted. Press Ctrl+N to create a new one."@,
                    NotificationVariant::Info,
                    10000,
                ),
            ]);
        }
    }
    fx
}

/// Deleting the active project aborts, with a connection, the sessions of just
/// its own tasks, and then removes it and no other project.
pub proof fn law_deleting_stops_just_its_sessions(
    state: AppState,
    clients: Clients,
    session_id: Seq<char>,
)
    requires
        state.project_registry.active_project_id is Some,
    ensures
        ({
            let id = state.project_registry.active_project_id->0@;
            let fx = project_deleted(state, clients);
            let tasks = state.tasks.entries@;
            &&& fx.contains(Effect::AbortSession { project_id: id, session_id }) <==> clients.serves(
                id,
            ) && exists|k: int|
                0 <= k < tasks.len() && (#[trigger] tasks[k]).1.project_id@ == id && state::opt_view(
                    tasks[k].1.session_id,
                ) == Some(session_id)
            &&& fx.contains(Effect::RemoveClient { project_id: id })
            &&& forall|i: int|
                0 <= i < fx.len() ==> ((#[trigger] fx[i]) is RemoveProject <==> i == fx.len() - 1)
            &&& fx.last()->RemoveProject_project_id == id
        }),
{
    let id = state.project_registry.active_project_id->0@;
    let fx = project_deleted(state, clients);
    let tasks = state.tasks.entries@;
    let stopped = aborts(tasks, id);
    lemma_aborts_are_aborts(tasks, id);
    lemma_aborts_of(tasks, id, session_id);
    let e = Effect::AbortSession { project_id: id, session_id };
    assert(fx[fx.len() - 2] == (Effect::RemoveClient { project_id: id }));
    if clients.serves(id) {
        if stopped.contains(e) {
            let i = choose|i: int| 0 <= i < stopped.len() && stopped[i] == e;
            assert(fx[i] == e);
        }
        if fx.contains(e) {
            let i = choose|i: int| 0 <= i < fx.len() && fx[i] == e;
            assert(stopped[i] == e);
        }
    }
}

proof fn lemma_aborts_of(
    tasks: Seq<(String, CortexTask)>,
    project_id: Seq<char>,
    session_id: Seq<char>,
)
    ensures
        aborts(tasks, project_id).contains(Effect::AbortSession { project_id, session_id })
            <==> exists|k: int|
            0 <= k < tasks.len() && (#[trigger] tasks[k]).1.project_id@ == project_id
                && state::opt_view(tasks[k].1.session_id) == Some(session_id),
    decreases tasks.len(),
{
    if tasks.len() > 0 {
        let front = tasks.drop_last();
        let e = Effect::AbortSession { project_id, session_id };
        let a = aborts(front, project_id);
        let b = aborts(tasks, project_id);
        let last = tasks.len() - 1;
        lemma_aborts_of(front, project_id, session_id);
        if b.len() > a.len() {
            assert(b[b.len() - 1] == b.last());
        }
        if a.contains(e) {
            let i = choose|i: int| 0 <= i < a.len() && a[i] == e;
            assert(b[i] == e);
            let k = choose|k: int|
                0 <= k < front.len() && (#[trigger] front[k]).1.project_id@ == project_id
                    && state::opt_view(front[k].1.session_id) == Some(session_id);
            assert(tasks[k] == front[k]);
        }
        if b.contains(e) && !a.contains(e) {
            let i = choose|i: int| 0 <= i < b.len() && b[i] == e;
            if i < a.len() {
                assert(a[i] == e);
            }
            assert(tasks[last].1.project_id@ == project_id);
        }
        if exists|k: int|
            0 <= k < tasks.len() && (#[trigger] tasks[k]).1.project_id@ == project_id
                && state::opt_view(tasks[k].1.session_id) == Some(session_id) {
            let k = choose|k: int|
                0 <= k < tasks.len() && (#[trigger] tasks[k]).1.project_id@ == project_id
                    && state::opt_view(tasks[k].1.session_id) == Some(session_id);
            if k < last {
                assert(front[k] == tasks[k]);
            } else {
                assert(b.last() == e);
            }
        }
    }
}

/// A project that is deleted is named as it is called, and by its id where it is
/// not known.
pub proof fn law_deleted_project_is_named(state: AppState, clients: Clients, k: int)
    requires
        state.project_registry.active_project_id is Some,
        ids_differ(state.project_registry.projects@),
        0 <= k < state.project_registry.projects@.len(),
        state.project_registry.projects@[k].id@ == state.project_registry.active_project_id->0@,
    ensures
        project_deleted(state, clients).last() == (Effect::RemoveProject {
            project_id: state.project_registry.projects@[k].id@,
            project_name: state.project_registry.projects@[k].name@,
        }),
{
    lemma_place_of(state.project_registry.projects@, k, 0);
}

} // verus!
