//! Task card component: a task as a bordered card within a column.

use vstd::prelude::*;
use crate::draw;
use crate::draw::{Block, Borders, Canvas, Color, Draw, Line, Rect, Span, Style, Theme};
use crate::reports;
use crate::state::{AgentStatus, CortexTask};
use crate::text;

verus! {

// ─── Status line ──────────────────────────────────────────────────────────

/// Whether a count stands at `p`: a blank, and `!` or `?` behind it.
pub open spec fn mark_at(s: Seq<char>, p: int) -> bool {
    0 <= p && p + 1 < s.len() && s[p] == ' ' && (s[p + 1] == '!' || s[p + 1] == '?')
}

/// Where the first count stands, from `from` on.
pub open spec fn next_mark(s: Seq<char>, from: int) -> Option<int>
    decreases s.len() - from,
{
    if from < 0 || from + 1 >= s.len() {
        None
    } else if mark_at(s, from) {
        Some(from)
    } else {
        next_mark(s, from + 1)
    }
}

/// Where the digits that stand from `from` on end.
pub open spec fn digits_end(s: Seq<char>, from: int) -> int
    decreases s.len() - from,
{
    if 0 <= from < s.len() && text::is_digit(s[from]) {
        digits_end(s, from + 1)
    } else {
        from
    }
}

/// How a count looks.
pub open spec fn mark_style(kind: char) -> Style {
    if kind == '!' {
        Style::bold(Color::Yellow)
    } else {
        Style::bold(Color::Rgb(255, 255, 0))
    }
}

/// The text from `from` on, with the counts in it set off in bold; the blank
/// before a count is left out.
pub open spec fn marked(s: Seq<char>, from: int, style: Style) -> Seq<Span<Seq<char>>>
    decreases s.len() - from,
    when 0 <= from <= s.len()
    via marked_decreases
{
    match next_mark(s, from) {
        Some(p) => {
            let end = digits_end(s, p + 2);
            let before = if p > from {
                draw::blank().push(draw::sp(s.subrange(from, p), style))
            } else {
                draw::blank()
            };
            before.push(draw::sp(s.subrange(p + 1, end), mark_style(s[p + 1]))) + marked(
                s,
                end,
                style,
            )
        },
        None => if from < s.len() {
            draw::blank().push(draw::sp(s.subrange(from, s.len() as int), style))
        } else {
            draw::blank()
        },
    }
}

#[via_fn]
proof fn marked_decreases(s: Seq<char>, from: int, style: Style) {
    if next_mark(s, from) is Some {
        lemma_next_mark(s, from);
        lemma_digits_end(s, next_mark(s, from)->0 + 2);
    }
}

proof fn lemma_next_mark(s: Seq<char>, from: int)
    requires
        0 <= from,
    ensures
        match next_mark(s, from) {
            Some(p) => from <= p && mark_at(s, p) && forall|q: int|
                from <= q < p ==> !mark_at(s, q),
            None => forall|q: int| from <= q ==> !mark_at(s, q),
        },
    decreases s.len() - from,
{
    if from + 1 < s.len() && !mark_at(s, from) {
        lemma_next_mark(s, from + 1);
    }
}

proof fn lemma_digits_end(s: Seq<char>, from: int)
    requires
        0 <= from <= s.len(),
    ensures
        from <= digits_end(s, from) <= s.len(),
        forall|q: int| from <= q < digits_end(s, from) ==> text::is_digit(#[trigger] s[q]),
    decreases s.len() - from,
{
    if from < s.len() && text::is_digit(s[from]) {
        lemma_digits_end(s, from + 1);
    }
}

fn find_mark(cs: &Vec<char>, from: usize) -> (r: Option<usize>)
    requires
        from <= cs@.len(),
    ensures
        match r {
            Some(p) => next_mark(cs@, from as int) == Some(p as int) && from <= p && p + 2
                <= cs.len(),
            None => next_mark(cs@, from as int) is None,
        },
{
    let mut p: usize = from;
    while p < cs.len() && cs.len() - p > 1
        invariant
            from <= p <= cs@.len(),
            next_mark(cs@, from as int) == next_mark(cs@, p as int),
        decreases cs@.len() - p,
    {
        if cs[p] == ' ' && (cs[p + 1] == '!' || cs[p + 1] == '?') {
            return Some(p);
        }
        p += 1;
    }
    None
}

fn find_digits_end(cs: &Vec<char>, from: usize) -> (r: usize)
    requires
        from <= cs@.len(),
    ensures
        r == digits_end(cs@, from as int),
        from <= r <= cs@.len(),
{
    let mut p: usize = from;
    while p < cs.len() && '0' <= cs[p] && cs[p] <= '9'
        invariant
            from <= p <= cs@.len(),
            digits_end(cs@, from as int) == digits_end(cs@, p as int),
        decreases cs@.len() - p,
    {
        p += 1;
    }
    p
}

fn style_mark(kind: char) -> (r: Style)
    ensures
        r == mark_style(kind),
{
    if kind == '!' {
        Style::bold(Color::Yellow)
    } else {
        Style::bold(Color::Rgb(255, 255, 0))
    }
}

/// The text with the counts in it set off in bold.
pub fn mark_counts(s: &str, style: Style) -> (r: Line)
    ensures
        r@ == marked(s@, 0, style),
{
    let cs = text::chars_of(s);
    let mut line = Line::new();
    let mut from: usize = 0;
    proof {
        assert(line@ + marked(s@, 0, style) =~= marked(s@, 0, style));
    }
    loop
        invariant
            from <= cs@.len(),
            cs@ == s@,
            line@ + marked(s@, from as int, style) == marked(s@, 0, style),
        decreases cs@.len() - from,
    {
        let ghost before = line@;
        match find_mark(&cs, from) {
            Some(p) => {
                let end: usize = find_digits_end(&cs, p + 2);
                if p > from {
                    line = line.with(text::string_of(&cs, from, p).as_str(), style);
                }
                line = line.with(
                    text::string_of(&cs, p + 1, end).as_str(),
                    style_mark(cs[p + 1]),
                );
                proof {
                    let rest = marked(s@, end as int, style);
                    assert(line@ + rest =~= before + marked(s@, from as int, style));
                }
                from = end;
            },
            None => {
                if from < cs.len() {
                    line = line.with(text::string_of(&cs, from, cs.len()).as_str(), style);
                }
                proof {
                    assert(line@ =~= before + marked(s@, from as int, style));
                }
                return line;
            },
        }
    }
}

/// The status line as text: icon, status, and how many permissions and
/// questions wait.
pub open spec fn status_words(
    icon: Seq<char>,
    label: Seq<char>,
    permissions: u32,
    questions: u32,
) -> Seq<char> {
    let status = icon + " "@ + label;
    let asked = if permissions > 0 {
        status + " !"@ + text::decimal(permissions as nat)
    } else {
        status
    };
    if questions > 0 {
        asked + " ?"@ + text::decimal(questions as nat)
    } else {
        asked
    }
}

fn words_of_status(icon: &str, label: &str, permissions: u32, questions: u32) -> (r: String)
    ensures
        r@ == status_words(icon@, label@, permissions, questions),
{
    let mut out = text::join2(icon, " ");
    out.append(label);
    if permissions > 0 {
        out.append(" !");
        out.append(text::dec(permissions as u64).as_str());
    }
    if questions > 0 {
        out.append(" ?");
        out.append(text::dec(questions as u64).as_str());
    }
    out
}

/// The color of a status.
pub open spec fn status_color(status: AgentStatus, theme: Theme) -> Color {
    match status {
        AgentStatus::Running => theme.working,
        AgentStatus::Ready => Color::Cyan,
        AgentStatus::Complete => theme.done,
        AgentStatus::Error => theme.error,
        AgentStatus::Hung => theme.question,
        AgentStatus::Question => theme.question,
        AgentStatus::Pending => Color::DarkGray,
    }
}

fn color_of(status: AgentStatus, theme: Theme) -> (r: Color)
    ensures
        r == status_color(status, theme),
{
    match status {
        AgentStatus::Running => theme.working,
        AgentStatus::Ready => Color::Cyan,
        AgentStatus::Complete => theme.done,
        AgentStatus::Error => theme.error,
        AgentStatus::Hung => theme.question,
        AgentStatus::Question => theme.question,
        AgentStatus::Pending => Color::DarkGray,
    }
}

/// The status line of a card. A task that hangs or has failed also shows the
/// key that retries it.
pub open spec fn status_spans(
    task: CortexTask,
    icon: Seq<char>,
    label: Seq<char>,
    theme: Theme,
) -> Seq<Span<Seq<char>>> {
    let style = Style::fg(status_color(task.agent_status, theme));
    let words = status_words(
        icon,
        label,
        task.pending_permission_count,
        task.pending_question_count,
    );
    let spans = if task.pending_permission_count == 0 && task.pending_question_count == 0 {
        draw::blank().push(draw::sp(words, style))
    } else {
        marked(words, 0, style)
    };
    if task.agent_status is Hung || task.agent_status is Error {
        spans.push(draw::sp(" [R]"@, Style::fg(Color::DarkGray)))
    } else {
        spans
    }
}

fn spans_of_status(task: &CortexTask, icon: &str, label: &str, theme: Theme) -> (r: Line)
    ensures
        r@ == status_spans(*task, icon@, label@, theme),
{
    let style = Style::fg(color_of(task.agent_status, theme));
    let words = words_of_status(
        icon,
        label,
        task.pending_permission_count,
        task.pending_question_count,
    );
    let line = if task.pending_permission_count == 0 && task.pending_question_count == 0 {
        Line::of(words.as_str(), style)
    } else {
        mark_counts(words.as_str(), style)
    };
    if matches!(task.agent_status, AgentStatus::Hung | AgentStatus::Error) {
        line.with(" [R]", Style::fg(Color::DarkGray))
    } else {
        line
    }
}

// ─── Card ─────────────────────────────────────────────────────────────────

/// The number of a task, before its title.
pub open spec fn number_prefix(number: u32) -> Seq<char> {
    "#"@ + text::decimal(number as nat) + " "@
}

fn prefix_of(number: u32) -> (r: String)
    ensures
        r@ == number_prefix(number),
{
    let mut out = text::join2("#", text::dec(number as u64).as_str());
    out.append(" ");
    out
}

/// How many characters of a title have room on a card in `area`.
pub open spec fn title_room(area: Rect, number: u32) -> int {
    let width = area.bordered(Borders::all()).width;
    if width > number_prefix(number).len() {
        width - number_prefix(number).len()
    } else {
        0
    }
}

/// How many characters of a title have room on a card in `area`.
pub fn room_for_title(area: Rect, number: u32) -> (r: usize)
    requires
        area.fits(),
    ensures
        r == title_room(area, number),
{
    let width: usize = area.within(Borders::all()).width as usize;
    let taken: usize = prefix_of(number).as_str().unicode_len();
    if width > taken {
        width - taken
    } else {
        0
    }
}

/// The frame of a card: cyan when selected, in the working color while the
/// agent runs.
pub open spec fn card_block(status: AgentStatus, selected: bool, theme: Theme) -> Block<Seq<char>> {
    Block::<Seq<char>>::new(
        Borders::all(),
        Style::fg(
            if selected {
                Color::Cyan
            } else if status is Running {
                theme.working
            } else {
                Color::DarkGray
            },
        ),
    ).rounded().styled(
        Style::bg(
            if selected {
                Color::Rgb(36, 40, 56)
            } else {
                Color::Reset
            },
        ),
    )
}

/// How long the task has been in its column; the time stops when it comes to
/// rest.
pub open spec fn card_time(task: CortexTask, now: i64) -> Seq<char> {
    reports::elapsed(
        task.entered_column_at,
        if task.agent_status.at_rest() {
            task.last_activity_at
        } else {
            now
        },
    )
}

/// The line with the time.
pub open spec fn time_spans(time: Seq<char>) -> Seq<Span<Seq<char>>> {
    draw::blank().push(draw::sp("⏱ "@, Style::fg(Color::DarkGray))).push(
        draw::sp(time, Style::fg(Color::Rgb(160, 160, 180))),
    )
}

/// What is drawn for a card: its frame and, as far as there are rows, title,
/// status and time.
pub open spec fn card_drawn(
    before: draw::Drawn,
    area: Rect,
    task: CortexTask,
    title: Seq<char>,
    icon: Seq<char>,
    label: Seq<char>,
    selected: bool,
    theme: Theme,
    now: i64,
) -> draw::Drawn {
    let inner = area.bordered(Borders::all());
    let framed = before.push(
        Draw::Block { area, block: card_block(task.agent_status, selected, theme) },
    );
    if inner.height < 1 {
        framed
    } else {
        let titled = framed.push(
            draw::word_at(
                inner.row(inner.y),
                number_prefix(task.number) + title,
                Style::fg(Color::White),
            ),
        );
        if inner.height < 2 {
            titled
        } else {
            let status = titled.push(
                draw::text_at(
                    inner.row((inner.y + 1) as u16),
                    draw::only(status_spans(task, icon, label, theme)),
                    Style::plain(),
                ),
            );
            if inner.height < 3 || card_time(task, now).len() == 0 {
                status
            } else {
                status.push(
                    draw::text_at(
                        inner.row((inner.y + 2) as u16),
                        draw::only(time_spans(card_time(task, now))),
                        Style::plain(),
                    ),
                )
            }
        }
    }
}

/// Render a task card in the given area. `title` is the title of the task, cut
/// to the room that there is for it; `icon` and `label` stand for its status.
pub fn render_task_card(
    canvas: &mut Canvas,
    area: Rect,
    task: &CortexTask,
    title: &str,
    icon: &str,
    label: &str,
    is_selected: bool,
    theme: Theme,
    now: i64,
)
    requires
        area.fits(),
    ensures
        final(canvas)@ == card_drawn(
            old(canvas)@,
            area,
            *task,
            title@,
            icon@,
            label@,
            is_selected,
            theme,
            now,
        ),
{
    let border = if is_selected {
        Color::Cyan
    } else if task.agent_status == AgentStatus::Running {
        theme.working
    } else {
        Color::DarkGray
    };
    let background = if is_selected {
        Color::Rgb(36, 40, 56)
    } else {
        Color::Reset
    };
    canvas.block(
        area,
        Block::new(Borders::all(), Style::fg(border)).rounded().styled(Style::bg(background)),
    );
    let inner = area.within(Borders::all());
    if inner.height < 1 {
        return;
    }
    let title_line = text::join2(prefix_of(task.number).as_str(), title);
    canvas.word(inner.row(inner.y), title_line.as_str(), Style::fg(Color::White));
    if inner.height < 2 {
        return;
    }
    canvas.line(inner.row(inner.y + 1), spans_of_status(task, icon, label, theme));
    if inner.height < 3 {
        return;
    }
    let timer_end: i64 = if task.agent_status.is_terminal() {
        task.last_activity_at
    } else {
        now
    };
    let time = reports::format_elapsed_time(task.entered_column_at, timer_end);
    if time.as_str().unicode_len() > 0 {
        canvas.line(
            inner.row(inner.y + 2),
            Line::of("⏱ ", Style::fg(Color::DarkGray)).with(
                time.as_str(),
                Style::fg(Color::Rgb(160, 160, 180)),
            ),
        );
    }
}

// ─── Laws ─────────────────────────────────────────────────────────────────

/// The time on the card of a task at rest does not depend on the clock.
pub proof fn law_time_stops_at_rest(task: CortexTask, now: i64, later: i64)
    requires
        task.agent_status.at_rest(),
    ensures
        card_time(task, now) == card_time(task, later),
{
}

/// When permissions and questions wait, the status line shows the status, then
/// the number of permissions and the number of questions, each set off in its
/// own style, as long as icon and status hold no such mark themselves.
pub proof fn law_counts_are_set_off(
    icon: Seq<char>,
    label: Seq<char>,
    permissions: u32,
    questions: u32,
    style: Style,
)
    requires
        permissions > 0,
        questions > 0,
        forall|p: int| !mark_at(icon + " "@ + label, p),
    ensures
        marked(status_words(icon, label, permissions, questions), 0, style) == draw::blank().push(
            draw::sp(icon + " "@ + label, style),
        ).push(
            draw::sp("!"@ + text::decimal(permissions as nat), Style::bold(Color::Yellow)),
        ).push(
            draw::sp(
                "?"@ + text::decimal(questions as nat),
                Style::bold(Color::Rgb(255, 255, 0)),
            ),
        ),
{
    reveal_strlit(" ");
    reveal_strlit(" !");
    reveal_strlit(" ?");
    reveal_strlit("!");
    reveal_strlit("?");
    let status = icon + " "@ + label;
    let a = text::decimal(permissions as nat);
    let b = text::decimal(questions as nat);
    let s = status_words(icon, label, permissions, questions);
    let p = status.len() as int;
    let q = p + 2 + a.len();
    text::lemma_decimal_digits(permissions as nat);
    text::lemma_decimal_digits(questions as nat);
    assert(s == status + " !"@ + a + " ?"@ + b);
    assert(s[p] == ' ' && s[p + 1] == '!');
    assert(s[q] == ' ' && s[q + 1] == '?');
    assert forall|i: int| 0 <= i < p implies !mark_at(s, i) by {
        assert(!mark_at(status, i));
        if i + 1 < p {
            assert(s[i] == status[i] && s[i + 1] == status[i + 1]);
        }
    }
    lemma_first_mark(s, 0, p);
    assert forall|i: int| p + 2 <= i < q implies text::is_digit(#[trigger] s[i]) by {
        assert(s[i] == a[i - p - 2]);
    }
    lemma_digits_run(s, p + 2, q);
    lemma_first_mark(s, q, q);
    assert forall|i: int| q + 2 <= i < s.len() implies text::is_digit(#[trigger] s[i]) by {
        assert(s[i] == b[i - q - 2]);
    }
    lemma_digits_run(s, q + 2, s.len() as int);
    lemma_next_mark(s, s.len() as int);
    assert(s.subrange(0, p) =~= status);
    assert(s.subrange(p + 1, q) =~= "!"@ + a);
    assert(s.subrange(q + 1, s.len() as int) =~= "?"@ + b);
    let last = marked(s, s.len() as int, style);
    assert(last == draw::blank());
    let second = marked(s, q, style);
    assert(second =~= draw::blank().push(
        draw::sp("?"@ + b, Style::bold(Color::Rgb(255, 255, 0))),
    ));
    assert(marked(s, 0, style) =~= draw::blank().push(draw::sp(status, style)).push(
        draw::sp("!"@ + a, Style::bold(Color::Yellow)),
    ) + second);
}

proof fn lemma_first_mark(s: Seq<char>, from: int, p: int)
    requires
        0 <= from <= p,
        mark_at(s, p),
        forall|i: int| from <= i < p ==> !mark_at(s, i),
    ensures
        next_mark(s, from) == Some(p),
{
    lemma_next_mark(s, from);
}

proof fn lemma_digits_run(s: Seq<char>, from: int, end: int)
    requires
        0 <= from <= end <= s.len(),
        forall|i: int| from <= i < end ==> text::is_digit(#[trigger] s[i]),
        end < s.len() ==> !text::is_digit(s[end]),
    ensures
        digits_end(s, from) == end,
    decreases end - from,
{
    if from < end {
        lemma_digits_run(s, from + 1, end);
    }
}

/// A card looks like the state of its task: failed in the color of errors,
/// finished in that of what is done, at work in that of work, and asking or
/// hanging in that of questions.
pub proof fn law_cards_look_like_their_state(status: AgentStatus, theme: Theme)
    ensures
        status is Error ==> status_color(status, theme) == theme.error,
        status is Complete ==> status_color(status, theme) == theme.done,
        status is Running ==> status_color(status, theme) == theme.working,
        status is Question || status is Hung ==> status_color(status, theme) == theme.question,
        status is Ready ==> status_color(status, theme) == Color::Cyan,
        status is Pending ==> status_color(status, theme) == Color::DarkGray,
{
}

/// The key that retries a task is shown just on cards of tasks that can be
/// retried: those that hang or have failed.
pub proof fn law_retry_is_hinted_at(
    task: CortexTask,
    icon: Seq<char>,
    label: Seq<char>,
    theme: Theme,
)
    requires
        task.pending_permission_count == 0,
        task.pending_question_count == 0,
    ensures
        ({
            let spans = status_spans(task, icon, label, theme);
            let stuck = task.agent_status is Hung || task.agent_status is Error;
            &&& spans[0].text == icon + " "@ + label
            &&& spans.len() == if stuck {
                2nat
            } else {
                1
            }
            &&& stuck ==> spans[1].text == " [R]"@
        }),
{
}

/// While a task is not at rest its card shows the time since it entered its
/// column; at rest it shows the time up to its last activity.
pub proof fn law_time_runs_from_entering(task: CortexTask, now: i64)
    requires
        0 < task.entered_column_at <= now,
        task.entered_column_at <= task.last_activity_at,
    ensures
        task.agent_status is Running || task.agent_status is Pending || task.agent_status
            is Question ==> card_time(task, now) == reports::spelled_seconds(
            (now - task.entered_column_at) as nat,
        ),
        task.agent_status is Complete || task.agent_status is Ready || task.agent_status is Hung
            || task.agent_status is Error ==> card_time(task, now) == reports::spelled_seconds(
            (task.last_activity_at - task.entered_column_at) as nat,
        ),
{
}

} // verus!
