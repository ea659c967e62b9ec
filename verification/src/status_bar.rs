//! Status bar: the bottom bar showing connection status, project info,
//! notifications, and a `?:help` indicator.

use vstd::prelude::*;
use crate::draw;
use crate::draw::{Block, Borders, Canvas, Color, Constraint, Direction, Draw, Rect, Style, Theme};
use crate::state::{AgentStatus, AppState, CortexTask, NotificationVariant};
use crate::text;

verus! {

/// What is known of the connection of the active project.
#[derive(Clone, Copy, Debug, PartialEq, Eq, Structural)]
pub struct Connection {
    /// No further attempt to connect will be made.
    pub permanently_disconnected: bool,
    pub reconnecting: bool,
    /// The number of the attempt to connect, zero before the first.
    pub attempt: u32,
    pub connected: bool,
}

// ─── What waits for the user ──────────────────────────────────────────────

/// Whether a task belongs to the active project.
pub open spec fn in_project(task: CortexTask, active: Option<String>) -> bool {
    match active {
        Some(pid) => task.project_id@ == pid@,
        None => false,
    }
}

/// How many permissions wait in the tasks of the active project.
pub open spec fn permissions(tasks: Seq<(String, CortexTask)>, active: Option<String>) -> nat
    decreases tasks.len(),
{
    if tasks.len() == 0 {
        0
    } else {
        permissions(tasks.drop_last(), active) + if in_project(tasks.last().1, active) {
            tasks.last().1.pending_permission_count as nat
        } else {
            0
        }
    }
}

/// How many questions wait in the tasks of the active project.
pub open spec fn questions(tasks: Seq<(String, CortexTask)>, active: Option<String>) -> nat
    decreases tasks.len(),
{
    if tasks.len() == 0 {
        0
    } else {
        questions(tasks.drop_last(), active) + if in_project(tasks.last().1, active) {
            tasks.last().1.pending_question_count as nat
        } else {
            0
        }
    }
}

/// `n`, but no more than a `u32` can hold.
pub open spec fn capped(n: nat) -> u32 {
    if n <= u32::MAX {
        n as u32
    } else {
        u32::MAX
    }
}

fn belongs(task: &CortexTask, active: &Option<String>) -> (r: bool)
    ensures
        r == in_project(*task, *active),
{
    match active {
        Some(pid) => text::same(task.project_id.as_str(), pid.as_str()),
        None => false,
    }
}

fn capped_sum(a: u32, b: u32) -> (r: u32)
    ensures
        r == capped((a + b) as nat),
{
    if a <= u32::MAX - b {
        a + b
    } else {
        u32::MAX
    }
}

/// How many permissions and questions wait in the tasks of the active project.
pub fn count_pending(state: &AppState) -> (r: (u32, u32))
    ensures
        r.0 == capped(
            permissions(state.tasks.entries@, state.project_registry.active_project_id),
        ),
        r.1 == capped(
            questions(state.tasks.entries@, state.project_registry.active_project_id),
        ),
{
    let active = &state.project_registry.active_project_id;
    let entries = &state.tasks.entries;
    let mut perms: u32 = 0;
    let mut quests: u32 = 0;
    let mut i: usize = 0;
    proof {
        assert(entries@.take(0) =~= Seq::<(String, CortexTask)>::empty());
    }
    while i < entries.len()
        invariant
            i <= entries@.len(),
            perms == capped(permissions(entries@.take(i as int), *active)),
            quests == capped(questions(entries@.take(i as int), *active)),
        decreases entries@.len() - i,
    {
        proof {
            assert(entries@.take(i + 1).drop_last() =~= entries@.take(i as int));
            assert(entries@.take(i + 1).last() == entries@[i as int]);
        }
        let task = &entries[i].1;
        if belongs(task, active) {
            perms = capped_sum(perms, task.pending_permission_count);
            quests = capped_sum(quests, task.pending_question_count);
        }
        i += 1;
    }
    proof {
        assert(entries@.take(i as int) =~= entries@);
    }
    (perms, quests)
}

/// The ending of a noun after the number `n`.
pub open spec fn plural(n: u32) -> Seq<char> {
    if n == 1 {
        ""@
    } else {
        "s"@
    }
}

fn plural_ending(n: u32) -> (r: &'static str)
    ensures
        r@ == plural(n),
{
    if n == 1 {
        ""
    } else {
        "s"
    }
}

/// The text on what waits for the user, nothing when nothing does.
pub open spec fn attention(perms: u32, quests: u32) -> Seq<char> {
    if perms > 0 && quests > 0 {
        "\u{26A0} "@ + text::decimal(perms as nat) + " perm"@ + plural(perms) + ", "@
            + text::decimal(quests as nat) + " quest"@ + plural(quests) + " \u{2014} press v"@
    } else if perms > 0 {
        "\u{26A0} "@ + text::decimal(perms as nat) + " permission"@ + plural(perms)
            + " pending \u{2014} press v"@
    } else if quests > 0 {
        "\u{26A0} "@ + text::decimal(quests as nat) + " question"@ + plural(quests)
            + " pending \u{2014} press v"@
    } else {
        Seq::empty()
    }
}

fn attention_text(perms: u32, quests: u32) -> (r: String)
    ensures
        r@ == attention(perms, quests),
{
    let mut out = String::new();
    proof {
        assert(out@ =~= Seq::<char>::empty());
    }
    if perms == 0 && quests == 0 {
        return out;
    }
    out.append("\u{26A0} ");
    if perms > 0 && quests > 0 {
        out.append(text::dec(perms as u64).as_str());
        out.append(" perm");
        out.append(plural_ending(perms));
        out.append(", ");
        out.append(text::dec(quests as u64).as_str());
        out.append(" quest");
        out.append(plural_ending(quests));
        out.append(" \u{2014} press v");
    } else if perms > 0 {
        out.append(text::dec(perms as u64).as_str());
        out.append(" permission");
        out.append(plural_ending(perms));
        out.append(" pending \u{2014} press v");
    } else {
        out.append(text::dec(quests as u64).as_str());
        out.append(" question");
        out.append(plural_ending(quests));
        out.append(" pending \u{2014} press v");
    }
    proof {
        assert(Seq::<char>::empty() + "\u{26A0} "@ =~= "\u{26A0} "@);
    }
    out
}

// ─── Connection, project and notification ─────────────────────────────────

/// The text on the connection, and its color.
pub open spec fn connection_words(c: Connection, theme: Theme) -> (Seq<char>, Color) {
    if c.permanently_disconnected {
        ("✕ disconnected (max retries exceeded — restart to retry)"@, theme.error)
    } else if c.reconnecting {
        if c.attempt > 0 {
            (
                "◐ reconnecting ("@ + text::decimal(c.attempt as nat) + ")..."@,
                theme.reconnecting,
            )
        } else {
            ("◐ reconnecting..."@, theme.reconnecting)
        }
    } else if c.connected {
        ("● connected"@, theme.connected)
    } else {
        ("○ disconnected"@, theme.disconnected)
    }
}

fn connection_text(c: Connection, theme: Theme) -> (r: (String, Color))
    ensures
        (r.0@, r.1) == connection_words(c, theme),
{
    if c.permanently_disconnected {
        (
            "✕ disconnected (max retries exceeded — restart to retry)".to_owned(),
            theme.error,
        )
    } else if c.reconnecting {
        if c.attempt > 0 {
            let mut out = text::join2(
                "◐ reconnecting (",
                text::dec(c.attempt as u64).as_str(),
            );
            out.append(")...");
            (out, theme.reconnecting)
        } else {
            ("◐ reconnecting...".to_owned(), theme.reconnecting)
        }
    } else if c.connected {
        ("● connected".to_owned(), theme.connected)
    } else {
        ("○ disconnected".to_owned(), theme.disconnected)
    }
}

/// How many tasks of a project are running.
pub open spec fn running_in(tasks: Seq<(String, CortexTask)>, project_id: Seq<char>) -> nat
    decreases tasks.len(),
{
    if tasks.len() == 0 {
        0
    } else {
        let t = tasks.last().1;
        running_in(tasks.drop_last(), project_id) + if t.project_id@ == project_id
            && t.agent_status is Running {
            1nat
        } else {
            0nat
        }
    }
}

fn count_running(state: &AppState, project_id: &str) -> (r: usize)
    ensures
        r == running_in(state.tasks.entries@, project_id@),
{
    let entries = &state.tasks.entries;
    let mut count: usize = 0;
    let mut i: usize = 0;
    proof {
        assert(entries@.take(0) =~= Seq::<(String, CortexTask)>::empty());
    }
    while i < entries.len()
        invariant
            i <= entries@.len(),
            count <= i,
            count == running_in(entries@.take(i as int), project_id@),
        decreases entries@.len() - i,
    {
        proof {
            assert(entries@.take(i + 1).drop_last() =~= entries@.take(i as int));
            assert(entries@.take(i + 1).last() == entries@[i as int]);
        }
        let task = &entries[i].1;
        if text::same(task.project_id.as_str(), project_id) && task.agent_status
            == AgentStatus::Running {
            count += 1;
        }
        i += 1;
    }
    proof {
        assert(entries@.take(i as int) =~= entries@);
    }
    count
}

/// The name of the active project and how many of its tasks are running;
/// nothing when there is no such project.
pub open spec fn project_words(state: AppState) -> (Seq<char>, Seq<char>) {
    match state.project_registry.active_project_id {
        Some(pid) => match state.project_registry.slot(pid@) {
            Some(i) => {
                let n = running_in(state.tasks.entries@, pid@);
                (
                    state.project_registry.projects@[i].name@,
                    if n == 1 {
                        "1 task"@
                    } else {
                        text::decimal(n) + " tasks"@
                    },
                )
            },
            None => (Seq::empty(), Seq::empty()),
        },
        None => (Seq::empty(), Seq::empty()),
    }
}

fn project_text(state: &AppState) -> (r: (String, String))
    ensures
        (r.0@, r.1@) == project_words(*state),
{
    if let Some(pid) = &state.project_registry.active_project_id {
        if let Some(i) = state.project_registry.position(pid.as_str()) {
            let n: usize = count_running(state, pid.as_str());
            let label = if n == 1 {
                "1 task".to_owned()
            } else {
                text::join2(text::dec(n as u64).as_str(), " tasks")
            };
            return (state.project_registry.projects[i].name.clone(), label);
        }
    }
    let nothing = String::new();
    proof {
        assert(nothing@ =~= Seq::<char>::empty());
    }
    (nothing, String::new())
}

/// The color of a notification.
pub open spec fn notice_color(variant: NotificationVariant, theme: Theme) -> Color {
    match variant {
        NotificationVariant::Info => theme.info,
        NotificationVariant::Success => theme.done,
        NotificationVariant::Warning => theme.question,
        NotificationVariant::Error => theme.error,
    }
}

/// The latest notification, with a counter when several are shown; without one
/// a remark while the state is being saved.
pub open spec fn notice_words(
    state: AppState,
    max_notifications: usize,
    saving: bool,
    theme: Theme,
) -> (Seq<char>, Color) {
    let all = state.ui.notifications@;
    if all.len() > 0 {
        let n = all.last();
        (
            if all.len() > 1 {
                "("@ + text::decimal(all.len()) + "/"@ + text::decimal(max_notifications as nat)
                    + ") "@ + n.message@
            } else {
                n.message@
            },
            notice_color(n.variant, theme),
        )
    } else if saving {
        ("saving..."@, theme.info)
    } else {
        (Seq::empty(), Color::Reset)
    }
}

fn notice_text(state: &AppState, max_notifications: usize, saving: bool, theme: Theme) -> (r: (
    String,
    Color,
))
    ensures
        (r.0@, r.1) == notice_words(*state, max_notifications, saving, theme),
{
    let count: usize = state.ui.notifications.len();
    if count > 0 {
        let n = &state.ui.notifications[count - 1];
        let color = match n.variant {
            NotificationVariant::Info => theme.info,
            NotificationVariant::Success => theme.done,
            NotificationVariant::Warning => theme.question,
            NotificationVariant::Error => theme.error,
        };
        if count > 1 {
            let mut out = text::join2("(", text::dec(count as u64).as_str());
            out.append("/");
            out.append(text::dec(max_notifications as u64).as_str());
            out.append(") ");
            out.append(n.message.as_str());
            (out, color)
        } else {
            (n.message.clone(), color)
        }
    } else if saving {
        ("saving...".to_owned(), theme.info)
    } else {
        let nothing = String::new();
        proof {
            assert(nothing@ =~= Seq::<char>::empty());
        }
        (nothing, Color::Reset)
    }
}

// ─── Layout ───────────────────────────────────────────────────────────────

/// What the status bar shows. `S` is the type of the texts in it.
#[derive(Debug, PartialEq, Eq)]
#[verifier::ext_equal]
pub struct Status<S> {
    pub connection: S,
    pub connection_color: Color,
    pub project: S,
    pub tasks: S,
    pub attention: S,
    pub notice: S,
    pub notice_color: Color,
}

impl Status<String> {
    /// The contents with their texts as characters.
    pub open spec fn plain(self) -> Status<Seq<char>> {
        Status {
            connection: self.connection@,
            connection_color: self.connection_color,
            project: self.project@,
            tasks: self.tasks@,
            attention: self.attention@,
            notice: self.notice@,
            notice_color: self.notice_color,
        }
    }
}

/// What the status bar shows.
pub open spec fn status_of(
    state: AppState,
    connection: Connection,
    max_notifications: usize,
    saving: bool,
    theme: Theme,
) -> Status<Seq<char>> {
    let (conn, conn_color) = connection_words(connection, theme);
    let (project, tasks) = project_words(state);
    let (notice, notice_color) = notice_words(state, max_notifications, saving, theme);
    let active = state.project_registry.active_project_id;
    Status {
        connection: conn,
        connection_color: conn_color,
        project,
        tasks,
        attention: attention(
            capped(permissions(state.tasks.entries@, active)),
            capped(questions(state.tasks.entries@, active)),
        ),
        notice,
        notice_color,
    }
}

/// What the status bar shows.
pub fn gather_status(
    state: &AppState,
    connection: Connection,
    max_notifications: usize,
    saving: bool,
    theme: Theme,
) -> (r: Status<String>)
    ensures
        r.plain() == status_of(*state, connection, max_notifications, saving, theme),
{
    let (perms, quests) = count_pending(state);
    let (conn, connection_color) = connection_text(connection, theme);
    let (project, tasks) = project_text(state);
    let (notice, notice_color) = notice_text(state, max_notifications, saving, theme);
    Status {
        connection: conn,
        connection_color,
        project,
        tasks,
        attention: attention_text(perms, quests),
        notice,
        notice_color,
    }
}

/// The width of the text on the connection.
pub open spec fn connection_width(s: Status<Seq<char>>) -> u16 {
    if s.connection.len() > 14 {
        s.connection.len() as u16
    } else {
        14
    }
}

/// Whether the project is shown: narrow terminals have no room for it.
pub open spec fn shows_project(s: Status<Seq<char>>, width: u16) -> bool {
    s.project.len() > 0 && width >= 70
}

/// Whether the key of the help overlay is shown: it must have room, and twenty
/// columns more when there is text in the middle.
pub open spec fn shows_hint(s: Status<Seq<char>>, width: u16) -> bool {
    let project_width = if shows_project(s, width) {
        (7 + s.project.len() + s.tasks.len()) as u16
    } else {
        0
    };
    let taken = connection_width(s) + project_width;
    if s.attention.len() > 0 || s.notice.len() > 0 {
        width >= taken + 26
    } else {
        width >= taken + 6
    }
}

/// The widths of the parts of the status bar: connection, project and tasks
/// where they are shown, the middle, and the key of the help overlay.
pub open spec fn status_widths(s: Status<Seq<char>>, width: u16) -> Seq<Constraint> {
    let left = Seq::empty().push(Constraint::Length(connection_width(s)));
    let project = if shows_project(s, width) {
        left.push(Constraint::Length((2 + s.project.len()) as u16)).push(
            Constraint::Length((3 + s.tasks.len()) as u16),
        )
    } else {
        left
    };
    project.push(Constraint::Min(0)).push(
        Constraint::Length(
            if shows_hint(s, width) {
                6
            } else {
                0
            },
        ),
    )
}

fn has_project(s: &Status<String>, width: u16) -> (r: bool)
    ensures
        r == shows_project(s.plain(), width),
{
    s.project.as_str().unicode_len() > 0 && width >= 70
}

fn width_of_connection(s: &Status<String>) -> (r: u16)
    ensures
        r == connection_width(s.plain()),
{
    let n: usize = s.connection.as_str().unicode_len();
    if n > 14 {
        #[verifier::truncate]
        (n as u16)
    } else {
        14
    }
}

fn has_hint(s: &Status<String>, width: u16) -> (r: bool)
    ensures
        r == shows_hint(s.plain(), width),
{
    let project_width: u16 = if has_project(s, width) {
        let n: u128 = 7 + s.project.as_str().unicode_len() as u128
            + s.tasks.as_str().unicode_len() as u128;
        #[verifier::truncate]
        (n as u16)
    } else {
        0
    };
    let taken: u32 = width_of_connection(s) as u32 + project_width as u32;
    if s.attention.as_str().unicode_len() > 0 || s.notice.as_str().unicode_len() > 0 {
        width as u32 >= taken + 26
    } else {
        width as u32 >= taken + 6
    }
}

fn widths_of(s: &Status<String>, width: u16) -> (r: Vec<Constraint>)
    ensures
        r@ == status_widths(s.plain(), width),
{
    let mut out: Vec<Constraint> = Vec::new();
    out.push(Constraint::Length(width_of_connection(s)));
    if has_project(s, width) {
        let name: u128 = 2 + s.project.as_str().unicode_len() as u128;
        let tasks: u128 = 3 + s.tasks.as_str().unicode_len() as u128;
        let name_width: u16 = #[verifier::truncate]
        (name as u16);
        let tasks_width: u16 = #[verifier::truncate]
        (tasks as u16);
        out.push(Constraint::Length(name_width));
        out.push(Constraint::Length(tasks_width));
    }
    out.push(Constraint::Min(0));
    let hint: u16 = if has_hint(s, width) {
        6
    } else {
        0
    };
    out.push(Constraint::Length(hint));
    out
}

// ─── Drawing ──────────────────────────────────────────────────────────────

/// What the status bar shows in its parts.
pub open spec fn status_drawn(
    before: draw::Drawn,
    s: Status<Seq<char>>,
    width: u16,
    parts: Seq<Rect>,
) -> draw::Drawn {
    let left = before.push(
        draw::word_at(parts[0], s.connection, Style::fg(s.connection_color)),
    );
    let project = if shows_project(s, width) {
        left.push(draw::word_at(parts[1], "│ "@ + s.project, Style::fg(Color::Cyan))).push(
            draw::word_at(parts[2], " │ "@ + s.tasks + " │"@, Style::fg(Color::Cyan)),
        )
    } else {
        left
    };
    let slot = if shows_project(s, width) {
        3int
    } else {
        1int
    };
    let middle = if s.attention.len() > 0 {
        project.push(
            draw::word_at(parts[slot].narrowed(), s.attention, Style::bold(Color::Yellow)),
        )
    } else if s.notice.len() > 0 {
        project.push(
            draw::word_at(parts[slot].narrowed(), s.notice, Style::fg(s.notice_color)),
        )
    } else {
        project
    };
    if shows_hint(s, width) {
        middle.push(draw::word_at(parts[slot + 1], "?:help"@, Style::fg(Color::DarkGray)))
    } else {
        middle
    }
}

/// Draws what the status bar shows, in its parts.
pub fn draw_status_bar(canvas: &mut Canvas, s: &Status<String>, width: u16, parts: &Vec<Rect>)
    requires
        parts@.len() == status_widths(s.plain(), width).len(),
        forall|i: int| 0 <= i < parts@.len() ==> (#[trigger] parts@[i]).fits(),
    ensures
        final(canvas)@ == status_drawn(old(canvas)@, s.plain(), width, parts@),
{
    canvas.word(parts[0], s.connection.as_str(), Style::fg(s.connection_color));
    let mut slot: usize = 1;
    if has_project(s, width) {
        canvas.word(
            parts[1],
            text::join2("│ ", s.project.as_str()).as_str(),
            Style::fg(Color::Cyan),
        );
        let mut tasks = text::join2(" │ ", s.tasks.as_str());
        tasks.append(" │");
        canvas.word(parts[2], tasks.as_str(), Style::fg(Color::Cyan));
        slot = 3;
    }
    if s.attention.as_str().unicode_len() > 0 {
        canvas.word(parts[slot].narrow(), s.attention.as_str(), Style::bold(Color::Yellow));
    } else if s.notice.as_str().unicode_len() > 0 {
        canvas.word(parts[slot].narrow(), s.notice.as_str(), Style::fg(s.notice_color));
    }
    if has_hint(s, width) {
        canvas.word(parts[slot + 1], "?:help", Style::fg(Color::DarkGray));
    }
}

/// The line above the status bar.
pub open spec fn separator() -> Block<Seq<char>> {
    Block::<Seq<char>>::new(Borders::top(), Style::fg(Color::DarkGray))
}

/// What is drawn for the status bar, for some parts of its area.
pub open spec fn bar_drawn(
    before: draw::Drawn,
    area: Rect,
    s: Status<Seq<char>>,
    after: draw::Drawn,
) -> bool {
    let inner = area.bordered(Borders::top());
    exists|parts: Seq<Rect>|
        #[trigger] draw::parts_of(
            inner,
            Direction::Horizontal,
            status_widths(s, inner.width),
            parts,
        ) && after == status_drawn(
            before.push(Draw::Block { area: inner, block: separator() }),
            s,
            inner.width,
            parts,
        )
}

/// Render the status bar at the bottom of the terminal, spanning the full width.
pub fn render_status_bar(
    canvas: &mut Canvas,
    area: Rect,
    state: &AppState,
    connection: Connection,
    max_notifications: usize,
    saving: bool,
    theme: Theme,
)
    requires
        area.fits(),
    ensures
        bar_drawn(
            old(canvas)@,
            area,
            status_of(*state, connection, max_notifications, saving, theme),
            final(canvas)@,
        ),
{
    let inner = area.within(Borders::top());
    canvas.block(inner, Block::new(Borders::top(), Style::fg(Color::DarkGray)));
    let s = gather_status(state, connection, max_notifications, saving, theme);
    let widths = widths_of(&s, inner.width);
    let parts = draw::split(inner, Direction::Horizontal, &widths);
    draw_status_bar(canvas, &s, inner.width, &parts);
}

// ─── Laws ─────────────────────────────────────────────────────────────────

/// Whatever waits for the user is shown in place of any notification.
pub proof fn law_attention_takes_precedence(
    before: draw::Drawn,
    s: Status<Seq<char>>,
    other: Status<Seq<char>>,
    width: u16,
    parts: Seq<Rect>,
)
    requires
        s.attention.len() > 0,
        other == (Status { notice: other.notice, notice_color: other.notice_color, ..s }),
    ensures
        status_drawn(before, s, width, parts) == status_drawn(before, other, width, parts),
{
}

/// Something waits for the user just when a task of the active project has a
/// pending permission or question.
pub proof fn law_attention_when_something_waits(
    tasks: Seq<(String, CortexTask)>,
    active: Option<String>,
)
    ensures
        attention(capped(permissions(tasks, active)), capped(questions(tasks, active))).len() > 0
            <==> exists|i: int|
            0 <= i < tasks.len() && in_project((#[trigger] tasks[i]).1, active) && (
            tasks[i].1.pending_permission_count > 0 || tasks[i].1.pending_question_count > 0),
{
    reveal_strlit("\u{26A0} ");
    lemma_nothing_waits(tasks, active);
}

proof fn lemma_nothing_waits(tasks: Seq<(String, CortexTask)>, active: Option<String>)
    ensures
        permissions(tasks, active) + questions(tasks, active) > 0 <==> exists|i: int|
            0 <= i < tasks.len() && in_project((#[trigger] tasks[i]).1, active) && (
            tasks[i].1.pending_permission_count > 0 || tasks[i].1.pending_question_count > 0),
    decreases tasks.len(),
{
    if tasks.len() > 0 {
        let rest = tasks.drop_last();
        lemma_nothing_waits(rest, active);
        assert forall|i: int| 0 <= i < rest.len() implies rest[i] == tasks[i] by {}
        let n = tasks.len() - 1;
        let t = tasks[n].1;
        if in_project(t, active) && (t.pending_permission_count > 0 || t.pending_question_count
            > 0) {
            assert(in_project(tasks[n].1, active));
        }
        if exists|i: int|
            0 <= i < rest.len() && in_project((#[trigger] rest[i]).1, active) && (
            rest[i].1.pending_permission_count > 0 || rest[i].1.pending_question_count > 0) {
            let i = choose|i: int|
                0 <= i < rest.len() && in_project((#[trigger] rest[i]).1, active) && (
                rest[i].1.pending_permission_count > 0 || rest[i].1.pending_question_count > 0);
            assert(tasks[i] == rest[i]);
        }
        if exists|i: int|
            0 <= i < tasks.len() && in_project((#[trigger] tasks[i]).1, active) && (
            tasks[i].1.pending_permission_count > 0 || tasks[i].1.pending_question_count > 0) {
            let i = choose|i: int|
                0 <= i < tasks.len() && in_project((#[trigger] tasks[i]).1, active) && (
                tasks[i].1.pending_permission_count > 0 || tasks[i].1.pending_question_count > 0);
            if i < n {
                assert(rest[i] == tasks[i]);
            }
        }
    }
}

/// What waits is counted over the tasks of the active project, permissions and
/// questions apart, and the tasks of other projects count for nothing.
pub proof fn law_pending_counts_add_up(
    tasks: Seq<(String, CortexTask)>,
    e: (String, CortexTask),
    active: Option<String>,
)
    ensures
        ({
            let more = tasks.push(e);
            let counts = active is Some && e.1.project_id@ == active->0@;
            &&& counts ==> permissions(more, active) == permissions(tasks, active)
                + e.1.pending_permission_count
            &&& counts ==> questions(more, active) == questions(tasks, active)
                + e.1.pending_question_count
            &&& !counts ==> permissions(more, active) == permissions(tasks, active) && questions(
                more,
                active,
            ) == questions(tasks, active)
            &&& permissions(Seq::empty(), active) == 0 && questions(Seq::empty(), active) == 0
        }),
{
    assert(tasks.push(e).drop_last() =~= tasks);
}

/// The tasks counted as running are those of the project whose agent runs.
pub proof fn law_running_tasks_are_counted(tasks: Seq<(String, CortexTask)>, project_id: Seq<char>)
    ensures
        running_in(tasks, project_id) == tasks.filter(
            |e: (String, CortexTask)|
                e.1.project_id@ == project_id && e.1.agent_status == AgentStatus::Running,
        ).len(),
    decreases tasks.len(),
{
    reveal(Seq::filter);
    if tasks.len() > 0 {
        law_running_tasks_are_counted(tasks.drop_last(), project_id);
    }
}

/// The connection is shown as it is: given up for good before all else, then being
/// made again, then there or not there; each in its own color.
pub proof fn law_connection_is_shown(c: Connection, theme: Theme)
    ensures
        ({
            let (words, color) = connection_words(c, theme);
            &&& c.permanently_disconnected ==> color == theme.error
            &&& !c.permanently_disconnected && c.reconnecting ==> color == theme.reconnecting
            &&& !c.permanently_disconnected && !c.reconnecting && c.connected ==> color
                == theme.connected && words == "● connected"@
            &&& !c.permanently_disconnected && !c.reconnecting && !c.connected ==> color
                == theme.disconnected && words == "○ disconnected"@
        }),
{
}

/// A notice looks like its urgency: errors in the color of errors, warnings in
/// that of questions, successes in that of what is done.
pub proof fn law_notices_look_like_their_urgency(variant: NotificationVariant, theme: Theme)
    ensures
        variant is Error ==> notice_color(variant, theme) == theme.error,
        variant is Warning ==> notice_color(variant, theme) == theme.question,
        variant is Success ==> notice_color(variant, theme) == theme.done,
        variant is Info ==> notice_color(variant, theme) == theme.info,
{
}

/// The notice shown is the latest one.
pub proof fn law_latest_notice_is_shown(
    state: AppState,
    max_notifications: usize,
    saving: bool,
    theme: Theme,
)
    requires
        state.ui.notifications@.len() > 0,
    ensures
        ({
            let n = state.ui.notifications@[state.ui.notifications@.len() - 1];
            let (words, color) = notice_words(state, max_notifications, saving, theme);
            &&& text::ends(words, n.message@)
            &&& color == notice_color(n.variant, theme)
            &&& state.ui.notifications@.len() == 1 ==> words == n.message@
        }),
{
    let n = state.ui.notifications@[state.ui.notifications@.len() - 1];
    let words = notice_words(state, max_notifications, saving, theme).0;
    let at = words.len() - n.message@.len();
    assert(words.subrange(at, at + n.message@.len()) =~= n.message@);
}

} // verus!
