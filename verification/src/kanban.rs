//! Kanban board: column lanes with task cards.
//!
//! Supports horizontal scrolling when the number of visible columns exceeds
//! the available terminal width. Scroll indicators are rendered at the edges
//! when columns are hidden off-screen.

use vstd::prelude::*;
use crate::config;
use crate::config::{BoardSize, ColumnsConfig};
use crate::draw;
use crate::draw::{Block, Borders, Canvas, Color, Constraint, Direction, Draw, Line, Lines, Rect, Style};
use crate::mouse;
use crate::mouse::MouseEvent;
use crate::state;
use crate::state::{AppState, CortexTask, KanbanState};
use crate::table;
use crate::text;

verus! {

/// Width reserved for each horizontal scroll indicator.
pub const SCROLL_INDICATOR_WIDTH: u16 = 3;

/// Height of a task card.
pub const CARD_HEIGHT: u16 = 5;

// ─── Which columns are shown ──────────────────────────────────────────────

/// The columns that are shown: those from `first` on, up to but not with
/// `end`, and whether there are more on either side.
#[derive(Clone, Copy, Debug, PartialEq, Eq, Structural)]
pub struct Window {
    pub first: usize,
    pub end: usize,
    pub left: bool,
    pub right: bool,
}

/// How many columns of the given width fit beside the scroll indicators, at
/// least one.
pub open spec fn fitting(width: u16, column_width: u16) -> int {
    let room = if width > 6 {
        width - 6
    } else {
        0
    };
    if room / column_width as int > 1 {
        room / column_width as int
    } else {
        1
    }
}

/// The columns that are shown of `total` when those from `offset` on are asked
/// for: all of them where they fit, else as many as fit, without running past
/// the last.
pub open spec fn window(total: usize, offset: usize, width: u16, column_width: u16) -> Window {
    let max = fitting(width, column_width);
    if total <= max {
        Window { first: 0, end: total, left: false, right: false }
    } else {
        let first = if offset < total - max {
            offset as int
        } else {
            total - max
        };
        Window {
            first: first as usize,
            end: (first + max) as usize,
            left: first > 0,
            right: first + max < total,
        }
    }
}

/// The columns that are shown.
pub fn shown_columns(total: usize, offset: usize, width: u16, column_width: u16) -> (r: Window)
    requires
        column_width > 0,
    ensures
        r == window(total, offset, width, column_width),
        r.first <= r.end <= total,
{
    let room: u16 = if width > 6 {
        width - 6
    } else {
        0
    };
    let fit: u16 = room / column_width;
    let max: usize = if fit > 1 {
        fit as usize
    } else {
        1
    };
    if total <= max {
        Window { first: 0, end: total, left: false, right: false }
    } else {
        let first: usize = if offset < total - max {
            offset
        } else {
            total - max
        };
        Window { first, end: first + max, left: first > 0, right: first + max < total }
    }
}

/// As many columns are shown as fit, and an indicator stands on just those
/// sides on which columns are hidden.
pub proof fn law_indicators_show_hidden_columns(
    total: usize,
    offset: usize,
    width: u16,
    column_width: u16,
)
    requires
        column_width > 0,
    ensures
        ({
            let w = window(total, offset, width, column_width);
            &&& w.first <= w.end <= total
            &&& w.left <==> w.first > 0
            &&& w.right <==> w.end < total
            &&& w.end - w.first == if total <= fitting(width, column_width) {
                total as int
            } else {
                fitting(width, column_width)
            }
        }),
{
    assert(fitting(width, column_width) <= u16::MAX) by {
        let room = if width > 6 {
            width - 6
        } else {
            0
        };
        assert(room / column_width as int <= room) by (nonlinear_arith)
            requires
                room >= 0,
                column_width > 0,
        ;
    }
}

/// The widths of the lanes: an indicator on either side where there is one, and
/// the columns between them.
pub open spec fn lane_widths(w: Window, column_width: u16) -> Seq<Constraint> {
    let left = if w.left {
        Seq::empty().push(Constraint::Length(SCROLL_INDICATOR_WIDTH))
    } else {
        Seq::empty()
    };
    let columns = left + Seq::new(
        (w.end - w.first) as nat,
        |i: int| Constraint::Min(column_width),
    );
    if w.right {
        columns.push(Constraint::Length(SCROLL_INDICATOR_WIDTH))
    } else {
        columns
    }
}

fn widths_of(w: Window, column_width: u16) -> (r: Vec<Constraint>)
    requires
        w.first <= w.end,
    ensures
        r@ == lane_widths(w, column_width),
{
    let mut out: Vec<Constraint> = Vec::new();
    if w.left {
        out.push(Constraint::Length(SCROLL_INDICATOR_WIDTH));
    }
    let ghost left = out@;
    let n: usize = w.end - w.first;
    let mut i: usize = 0;
    proof {
        assert(left + Seq::new(0, |i: int| Constraint::Min(column_width)) =~= left);
    }
    while i < n
        invariant
            i <= n,
            out@ == left + Seq::new(i as nat, |i: int| Constraint::Min(column_width)),
        decreases n - i,
    {
        out.push(Constraint::Min(column_width));
        i += 1;
        proof {
            assert(out@ =~= left + Seq::new(i as nat, |i: int| Constraint::Min(column_width)));
        }
    }
    if w.right {
        out.push(Constraint::Length(SCROLL_INDICATOR_WIDTH));
    }
    proof {
        assert(out@ =~= lane_widths(w, column_width));
    }
    out
}

// ─── One column ───────────────────────────────────────────────────────────

/// The rows of a lane: header and tasks.
pub open spec fn lane_rows() -> Seq<Constraint> {
    seq![Constraint::Length(2), Constraint::Min(0)]
}

/// The places of those of the first `n` ids that stand for a known task.
pub open spec fn known_places(tasks: Map<Seq<char>, CortexTask>, ids: Seq<String>, n: int) -> Seq<
    int,
>
    decreases n,
{
    if n <= 0 {
        Seq::empty()
    } else {
        let before = known_places(tasks, ids, n - 1);
        if tasks.contains_key(ids[n - 1]@) {
            before.push(n - 1)
        } else {
            before
        }
    }
}

/// How many cards fit, one below the other with a row between them.
pub open spec fn card_room(height: u16) -> int {
    if height < CARD_HEIGHT {
        0
    } else {
        (height - CARD_HEIGHT) / 6 + 1
    }
}

/// Where card `k` stands.
pub open spec fn card_area(inner: Rect, k: int) -> Rect {
    Rect { x: inner.x, y: (inner.y + 6 * k) as u16, width: inner.width, height: CARD_HEIGHT }
}

/// The cards of a column: those of the known tasks, as many as fit. The card of
/// the focused task is selected when its column has the focus.
pub open spec fn cards(
    state: AppState,
    column: Seq<char>,
    ids: Seq<String>,
    inner: Rect,
) -> draw::Drawn {
    let places = known_places(state.tasks@, ids, ids.len() as int);
    let focused = match table::lookup(state.kanban.focused_task_index@, column) {
        Some(i) => i as int,
        None => 0,
    };
    Seq::new(
        if places.len() < card_room(inner.height) {
            places.len()
        } else {
            card_room(inner.height) as nat
        },
        |k: int|
            Draw::Card {
                area: card_area(inner, k),
                task_id: ids[places[k]]@,
                selected: state.ui.focused_column@ == column && places[k] == focused
                    && state::opt_view(state.ui.focused_task_id) == Some(ids[places[k]]@),
            },
    )
}

/// The line on tasks that have no room.
pub open spec fn more_text(n: nat) -> Seq<char> {
    "  \u{25bc} "@ + text::decimal(n) + " more"@
}

/// The tasks of a column: its cards, and a line on those that have no room.
pub open spec fn tasks_drawn(
    before: draw::Drawn,
    state: AppState,
    column: Seq<char>,
    ids: Seq<String>,
    inner: Rect,
) -> draw::Drawn {
    let shown = cards(state, column, ids, inner);
    if shown.len() < ids.len() && inner.height > 0 {
        (before + shown).push(
            draw::text_at(
                inner.row((inner.y + inner.height - 1) as u16),
                draw::plain_word(more_text((ids.len() - shown.len()) as nat)),
                Style::fg(Color::DarkGray),
            ),
        )
    } else {
        before + shown
    }
}

/// What a column without tasks shows.
pub open spec fn no_tasks_drawn(before: draw::Drawn, focused: bool, inner: Rect) -> draw::Drawn {
    let center = (inner.y + inner.height / 2) as u16;
    if focused {
        before.push(
            draw::text_in_the_middle(
                inner.row(
                    if center > 0 {
                        (center - 1) as u16
                    } else {
                        0
                    },
                ),
                draw::plain_word("No tasks"@),
                Style::fg(Color::DarkGray),
            ),
        ).push(
            draw::text_in_the_middle(
                inner.row(center),
                draw::plain_word("Press n to create one"@),
                Style::fg(Color::Gray),
            ),
        )
    } else {
        before.push(
            draw::text_in_the_middle(
                inner.row(center),
                draw::plain_word("No tasks"@),
                Style::fg(Color::DarkGray),
            ),
        )
    }
}

/// The header of a column: its name and how many tasks it has.
pub open spec fn header_text(name: Seq<char>, count: nat) -> Seq<char> {
    " "@ + name + " ("@ + text::decimal(count) + ") "@
}

/// What is drawn for a column whose header and tasks stand in `rows`.
pub open spec fn column_drawn(
    before: draw::Drawn,
    state: AppState,
    columns: ColumnsConfig,
    id: Seq<char>,
    rows: Seq<Rect>,
) -> draw::Drawn {
    let focused = state.ui.focused_column@ == id;
    let color = if focused {
        Color::Cyan
    } else {
        Color::DarkGray
    };
    let header_style = if focused {
        Style::bold(Color::Cyan)
    } else {
        Style::fg(Color::DarkGray)
    };
    let ids = match table::lookup(state.kanban.columns@, id) {
        Some(ids) => ids@,
        None => Seq::empty(),
    };
    let inner = rows[1].bordered(Borders::open_above());
    let framed = before.push(
        Draw::Block {
            area: rows[0],
            block: Block::<Seq<char>>::new(Borders::open_below(), Style::fg(color)).titled(
                draw::sp(header_text(columns.shown_name(id), ids.len()), header_style),
            ),
        },
    ).push(
        Draw::Block {
            area: rows[1],
            block: Block::<Seq<char>>::new(Borders::open_above(), Style::fg(color)),
        },
    );
    if ids.len() > 0 {
        tasks_drawn(framed, state, id, ids, inner)
    } else {
        no_tasks_drawn(framed, focused, inner)
    }
}

proof fn lemma_known_prefix(tasks: Map<Seq<char>, CortexTask>, ids: Seq<String>, n: int, m: int)
    requires
        0 <= n <= m <= ids.len(),
    ensures
        known_places(tasks, ids, n).len() <= known_places(tasks, ids, m).len(),
        known_places(tasks, ids, n).len() <= n,
        forall|j: int|
            0 <= j < known_places(tasks, ids, n).len() ==> #[trigger] known_places(
                tasks,
                ids,
                n,
            )[j] == known_places(tasks, ids, m)[j],
    decreases m,
{
    if n < m {
        lemma_known_prefix(tasks, ids, n, m - 1);
    } else if n > 0 {
        lemma_known_prefix(tasks, ids, n - 1, n - 1);
    }
}

fn draw_tasks(canvas: &mut Canvas, state: &AppState, column: &str, ids: &Vec<String>, inner: Rect)
    requires
        inner.fits(),
    ensures
        final(canvas)@ == tasks_drawn(old(canvas)@, *state, column@, ids@, inner),
{
    let focused_idx: usize = match state.kanban.focused_task_index.get(column) {
        Some(i) => *i,
        None => 0,
    };
    let in_focus = text::same(state.ui.focused_column.as_str(), column);
    let room: usize = if inner.height < CARD_HEIGHT {
        0
    } else {
        ((inner.height - CARD_HEIGHT) / 6) as usize + 1
    };
    let ghost before = canvas@;
    let ghost want = cards(*state, column@, ids@, inner);
    let ghost places = known_places(state.tasks@, ids@, ids@.len() as int);
    let mut i: usize = 0;
    let mut drawn: usize = 0;
    let mut full = false;
    proof {
        assert(before + want.take(0) =~= before);
    }
    while i < ids.len() && !full
        invariant
            i <= ids@.len(),
            inner.fits(),
            room == card_room(inner.height),
            in_focus == (state.ui.focused_column@ == column@),
            focused_idx == match table::lookup(state.kanban.focused_task_index@, column@) {
                Some(i) => i as int,
                None => 0,
            },
            want == cards(*state, column@, ids@, inner),
            places == known_places(state.tasks@, ids@, ids@.len() as int),
            drawn <= room,
            drawn <= i,
            !full ==> drawn == known_places(state.tasks@, ids@, i as int).len(),
            full ==> drawn == room && places.len() > room,
            canvas@ == before + want.take(drawn as int),
            drawn <= want.len(),
        decreases ids@.len() - i + if full {
            0int
        } else {
            1int
        },
    {
        proof {
            lemma_known_prefix(state.tasks@, ids@, i as int, i + 1);
            lemma_known_prefix(state.tasks@, ids@, i + 1, ids@.len() as int);
        }
        if state.tasks.contains_key(ids[i].as_str()) {
            if drawn >= room {
                full = true;
            } else {
                let selected = in_focus && i == focused_idx && state::opt_is(
                    &state.ui.focused_task_id,
                    ids[i].as_str(),
                );
                let area = Rect {
                    x: inner.x,
                    y: inner.y + 6 * drawn as u16,
                    width: inner.width,
                    height: CARD_HEIGHT,
                };
                proof {
                    assert(known_places(state.tasks@, ids@, i + 1)[drawn as int] == i as int);
                    assert(places[drawn as int] == i as int);
                }
                canvas.put(Draw::Card { area, task_id: ids[i].clone(), selected });
                proof {
                    assert(before + want.take(drawn + 1) =~= (before + want.take(
                        drawn as int,
                    )).push(want[drawn as int]));
                }
                drawn += 1;
                i += 1;
            }
        } else {
            i += 1;
        }
    }
    proof {
        assert(want.take(drawn as int) =~= want);
    }
    let remaining: usize = ids.len() - drawn;
    if remaining > 0 && inner.height > 0 {
        let mut more = text::join2("  \u{25bc} ", text::dec(remaining as u64).as_str());
        more.append(" more");
        canvas.text(
            inner.row(inner.y + inner.height - 1),
            Lines::of(Line::of(more.as_str(), Style::plain())),
            Style::fg(Color::DarkGray),
        );
    }
}

fn draw_no_tasks(canvas: &mut Canvas, focused: bool, inner: Rect)
    requires
        inner.fits(),
    ensures
        final(canvas)@ == no_tasks_drawn(old(canvas)@, focused, inner),
{
    let center: u16 = inner.y + inner.height / 2;
    if focused {
        let above: u16 = if center > 0 {
            center - 1
        } else {
            0
        };
        canvas.middle(
            inner.row(above),
            Lines::of(Line::of("No tasks", Style::plain())),
            Style::fg(Color::DarkGray),
        );
        canvas.middle(
            inner.row(center),
            Lines::of(Line::of("Press n to create one", Style::plain())),
            Style::fg(Color::Gray),
        );
    } else {
        canvas.middle(
            inner.row(center),
            Lines::of(Line::of("No tasks", Style::plain())),
            Style::fg(Color::DarkGray),
        );
    }
}

/// Draws a column whose header and tasks stand in `rows`.
pub fn draw_column(
    canvas: &mut Canvas,
    state: &AppState,
    columns: &ColumnsConfig,
    id: &str,
    rows: &Vec<Rect>,
)
    requires
        rows@.len() == 2,
        rows@[1].fits(),
    ensures
        final(canvas)@ == column_drawn(old(canvas)@, *state, *columns, id@, rows@),
{
    let focused = text::same(state.ui.focused_column.as_str(), id);
    let color = if focused {
        Color::Cyan
    } else {
        Color::DarkGray
    };
    let header_style = if focused {
        Style::bold(Color::Cyan)
    } else {
        Style::fg(Color::DarkGray)
    };
    let count: usize = match state.kanban.columns.get(id) {
        Some(ids) => ids.len(),
        None => 0,
    };
    let mut header = text::join2(" ", columns.display_name_for(id).as_str());
    header.append(" (");
    header.append(text::dec(count as u64).as_str());
    header.append(") ");
    canvas.block(
        rows[0],
        Block::new(Borders::open_below(), Style::fg(color)).titled(
            draw::span(header.as_str(), header_style),
        ),
    );
    canvas.block(rows[1], Block::new(Borders::open_above(), Style::fg(color)));
    let inner = rows[1].within(Borders::open_above());
    match state.kanban.columns.get(id) {
        Some(ids) => {
            if ids.len() > 0 {
                draw_tasks(canvas, state, id, ids, inner);
            } else {
                draw_no_tasks(canvas, focused, inner);
            }
        },
        None => {
            draw_no_tasks(canvas, focused, inner);
        },
    }
}

// ─── The board ────────────────────────────────────────────────────────────

/// The first `n` of the columns from `first` on, each in its rows.
pub open spec fn columns_drawn(
    before: draw::Drawn,
    state: AppState,
    columns: ColumnsConfig,
    visible: Seq<Seq<char>>,
    first: int,
    rows: Seq<Seq<Rect>>,
    n: int,
) -> draw::Drawn
    decreases n,
{
    if n <= 0 {
        before
    } else {
        column_drawn(
            columns_drawn(before, state, columns, visible, first, rows, n - 1),
            state,
            columns,
            visible[first + n - 1],
            rows[n - 1],
        )
    }
}

/// The lane of the column at place `k` of the window.
pub open spec fn lane_of(w: Window, k: int) -> int {
    if w.left {
        k + 1
    } else {
        k
    }
}

/// What holds of the lanes of the board and of the rows of each column.
pub open spec fn board_split(
    area: Rect,
    w: Window,
    column_width: u16,
    lanes: Seq<Rect>,
    rows: Seq<Seq<Rect>>,
) -> bool {
    &&& draw::parts_of(area, Direction::Horizontal, lane_widths(w, column_width), lanes)
    &&& rows.len() == w.end - w.first
    &&& forall|k: int|
        0 <= k < rows.len() ==> draw::parts_of(
            lanes[lane_of(w, k)],
            Direction::Vertical,
            lane_rows(),
            #[trigger] rows[k],
        )
}

/// An arrow that points to hidden columns.
pub open spec fn arrow(area: Rect, picture: Seq<char>) -> Draw<Seq<char>, draw::TextView> {
    draw::text_in_the_middle(area, draw::plain_word(picture), Style::fg(Color::Yellow))
}

/// What is drawn for the board.
pub open spec fn board_drawn(
    before: draw::Drawn,
    state: AppState,
    columns: ColumnsConfig,
    visible: Seq<Seq<char>>,
    w: Window,
    lanes: Seq<Rect>,
    rows: Seq<Seq<Rect>>,
) -> draw::Drawn {
    let left = if w.left {
        before.push(arrow(lanes[0], "\u{25c0}"@))
    } else {
        before
    };
    let all = columns_drawn(
        left,
        state,
        columns,
        visible,
        w.first as int,
        rows,
        w.end - w.first,
    );
    if w.right {
        all.push(arrow(lanes[lane_of(w, w.end - w.first)], "\u{25b6}"@))
    } else {
        all
    }
}

/// What is drawn for the board, for some lanes of its area and some rows of its
/// columns; nothing without visible columns.
pub open spec fn kanban_drawn(
    before: draw::Drawn,
    area: Rect,
    state: AppState,
    columns: ColumnsConfig,
    column_width: u16,
    after: draw::Drawn,
) -> bool {
    let visible = config::visible_ids(columns.definitions@);
    let w = window(
        visible.len() as usize,
        state.kanban.kanban_scroll_offset,
        area.width,
        column_width,
    );
    if visible.len() == 0 {
        after == before
    } else {
        exists|lanes: Seq<Rect>, rows: Seq<Seq<Rect>>|
            #[trigger] board_split(area, w, column_width, lanes, rows) && after == board_drawn(
                before,
                state,
                columns,
                visible,
                w,
                lanes,
                rows,
            )
    }
}

/// Render the kanban board in the given area.
pub fn render_kanban(
    canvas: &mut Canvas,
    area: Rect,
    state: &AppState,
    columns: &ColumnsConfig,
    column_width: u16,
)
    requires
        area.fits(),
        column_width > 0,
    ensures
        kanban_drawn(old(canvas)@, area, *state, *columns, column_width, final(canvas)@),
{
    let visible = columns.visible_column_ids();
    if visible.len() == 0 {
        return;
    }
    let w = shown_columns(
        visible.len(),
        state.kanban.kanban_scroll_offset,
        area.width,
        column_width,
    );
    let ghost all = text::texts(visible@);
    let ghost before = canvas@;
    let widths = widths_of(w, column_width);
    let lanes = draw::split(area, Direction::Horizontal, &widths);
    let n: usize = w.end - w.first;
    let mut chunk: usize = 0;
    if w.left {
        canvas.middle(
            lanes[0],
            Lines::of(Line::of("\u{25c0}", Style::plain())),
            Style::fg(Color::Yellow),
        );
        chunk = 1;
    }
    let ghost left = canvas@;
    let ghost mut rows: Seq<Seq<Rect>> = Seq::empty();
    let mut k: usize = 0;
    while k < n
        invariant
            k <= n,
            n == w.end - w.first,
            w.first <= w.end <= visible@.len(),
            area.fits(),
            all == text::texts(visible@),
            all == config::visible_ids(columns.definitions@),
            draw::parts_of(area, Direction::Horizontal, lane_widths(w, column_width), lanes@),
            lanes.len() >= n + if w.left {
                1int
            } else {
                0int
            },
            chunk == lane_of(w, k as int),
            rows.len() == k,
            forall|j: int|
                0 <= j < k ==> draw::parts_of(
                    lanes@[lane_of(w, j)],
                    Direction::Vertical,
                    lane_rows(),
                    #[trigger] rows[j],
                ),
            canvas@ == columns_drawn(left, *state, *columns, all, w.first as int, rows, k as int),
        decreases n - k,
    {
        let wanted = vec![Constraint::Length(2), Constraint::Min(0)];
        proof {
            assert(wanted@ =~= lane_rows());
        }
        let lane = lanes[chunk];
        let parts = draw::split(lane, Direction::Vertical, &wanted);
        draw_column(canvas, state, columns, visible[w.first + k].as_str(), &parts);
        proof {
            let before = rows;
            rows = rows.push(parts@);
            lemma_columns_drawn(
                left,
                *state,
                *columns,
                all,
                w.first as int,
                before,
                rows,
                k as int,
            );
            assert(all[w.first + k] == visible@[w.first + k]@);
        }
        k += 1;
        chunk += 1;
    }
    if w.right {
        canvas.middle(
            lanes[chunk],
            Lines::of(Line::of("\u{25b6}", Style::plain())),
            Style::fg(Color::Yellow),
        );
    }
    proof {
        assert(all == config::visible_ids(columns.definitions@));
        assert(all.len() == visible.len());
        assert(w == window(
            all.len() as usize,
            state.kanban.kanban_scroll_offset,
            area.width,
            column_width,
        ));
        assert(board_split(area, w, column_width, lanes@, rows));
        assert(canvas@ == board_drawn(before, *state, *columns, all, w, lanes@, rows));
    }
}

proof fn lemma_columns_drawn(
    before: draw::Drawn,
    state: AppState,
    columns: ColumnsConfig,
    visible: Seq<Seq<char>>,
    first: int,
    a: Seq<Seq<Rect>>,
    b: Seq<Seq<Rect>>,
    n: int,
)
    requires
        0 <= n <= a.len(),
        n <= b.len(),
        forall|i: int| 0 <= i < n ==> a[i] == b[i],
    ensures
        columns_drawn(before, state, columns, visible, first, a, n) == columns_drawn(
            before,
            state,
            columns,
            visible,
            first,
            b,
            n,
        ),
    decreases n,
{
    if n > 0 {
        lemma_columns_drawn(before, state, columns, visible, first, a, b, n - 1);
    }
}

// ─── Laws ─────────────────────────────────────────────────────────────────

/// Every card lies inside its column, and no two cards share a row.
pub proof fn law_cards_have_rows_of_their_own(inner: Rect, i: int, j: int)
    requires
        inner.fits(),
        0 <= i < j < card_room(inner.height),
    ensures
        card_area(inner, i).inside(inner),
        card_area(inner, j).inside(inner),
        card_area(inner, i).y + CARD_HEIGHT < card_area(inner, j).y,
{
}

/// A task that has no card is counted in the line below the cards: cards and
/// count together make up the column.
pub proof fn law_every_task_is_accounted_for(
    state: AppState,
    column: Seq<char>,
    ids: Seq<String>,
    inner: Rect,
)
    requires
        cards(state, column, ids, inner).len() < ids.len(),
        inner.height > 0,
    ensures
        tasks_drawn(Seq::empty(), state, column, ids, inner).len() == cards(
            state,
            column,
            ids,
            inner,
        ).len() + 1,
        tasks_drawn(Seq::empty(), state, column, ids, inner).last() == draw::text_at(
            inner.row((inner.y + inner.height - 1) as u16),
            draw::plain_word(
                more_text((ids.len() - cards(state, column, ids, inner).len()) as nat),
            ),
            Style::fg(Color::DarkGray),
        ),
{
}

/// A click on a row of a card finds the place of that card, where the cards
/// start below a header of two rows.
pub proof fn law_click_finds_the_card(inner: Rect, k: int, click: MouseEvent)
    requires
        inner.fits(),
        inner.y == mouse::HEADER_ROWS,
        0 <= k < card_room(inner.height),
        card_area(inner, k).y <= click.row < card_area(inner, k).y + CARD_HEIGHT,
    ensures
        mouse::clicked_task(click) == k,
{
}

/// A click on a column finds the column that the board shows there, where the
/// lanes have the width that the columns ask for: `k` columns to the right of
/// the first one shown, behind the sidebar and the left indicator.
pub proof fn law_click_finds_the_column(
    kanban: KanbanState,
    size: BoardSize,
    width: u16,
    height: u16,
    total: usize,
    k: int,
    d: int,
    click: MouseEvent,
)
    requires
        size.column_width > 0,
        size.sidebar_width <= width,
        0 <= d < size.column_width,
        click.row + 2 < height,
        ({
            let w = window(
                total,
                kanban.kanban_scroll_offset,
                (width - size.sidebar_width) as u16,
                size.column_width,
            );
            &&& 0 <= k < w.end - w.first
            &&& click.column == size.sidebar_width + (if w.left {
                SCROLL_INDICATOR_WIDTH as int
            } else {
                0
            }) + k * size.column_width + d
        }),
    ensures
        mouse::clicked_column(kanban, click, width, height, size, total as int) == Some(
            window(
                total,
                kanban.kanban_scroll_offset,
                (width - size.sidebar_width) as u16,
                size.column_width,
            ).first + k,
        ),
{
    let board = (width - size.sidebar_width) as u16;
    let cw = size.column_width as int;
    law_indicators_show_hidden_columns(
        total,
        kanban.kanban_scroll_offset,
        board,
        size.column_width,
    );
    assert(fitting(board, size.column_width) == mouse::fitting_columns(size, width));
    let x = k * cw + d;
    assert(0 <= k * cw) by (nonlinear_arith)
        requires
            0 <= k,
            0 < cw,
    ;
    assert(k * cw == cw * k) by (nonlinear_arith);
    vstd::arithmetic::div_mod::lemma_fundamental_div_mod_converse(x, cw, k, d);
}

proof fn lemma_places_are_known(tasks: Map<Seq<char>, CortexTask>, ids: Seq<String>, n: int)
    requires
        0 <= n <= ids.len(),
    ensures
        forall|k: int|
            0 <= k < known_places(tasks, ids, n).len() ==> 0 <= #[trigger] known_places(
                tasks,
                ids,
                n,
            )[k] < n && tasks.contains_key(ids[known_places(tasks, ids, n)[k]]@),
        forall|k: int, m: int|
            0 <= k < m < known_places(tasks, ids, n).len() ==> #[trigger] known_places(
                tasks,
                ids,
                n,
            )[k] < #[trigger] known_places(tasks, ids, n)[m],
        forall|i: int|
            0 <= i < n && tasks.contains_key((#[trigger] ids[i])@) ==> known_places(
                tasks,
                ids,
                n,
            ).contains(i),
    decreases n,
{
    if n > 0 {
        lemma_places_are_known(tasks, ids, n - 1);
        let a = known_places(tasks, ids, n - 1);
        let b = known_places(tasks, ids, n);
        assert forall|i: int| 0 <= i < n && tasks.contains_key((#[trigger] ids[i])@) implies b.contains(
            i,
        ) by {
            if i < n - 1 {
                assert(a.contains(i));
                let k = choose|k: int| 0 <= k < a.len() && a[k] == i;
                assert(b[k] == i);
            } else {
                assert(b[b.len() - 1] == i);
            }
        }
    }
}

/// The cards of a column are those of its tasks, in their order and each once;
/// the one that is selected is that of the focused task, in the focused column.
pub proof fn law_cards_are_those_of_the_column(
    state: AppState,
    column: Seq<char>,
    ids: Seq<String>,
    inner: Rect,
    k: int,
)
    requires
        0 <= k < cards(state, column, ids, inner).len(),
    ensures
        ({
            let all = cards(state, column, ids, inner);
            let card = all[k];
            &&& card is Card
            &&& exists|i: int|
                k <= i < ids.len() && card->Card_task_id == (#[trigger] ids[i])@
                    && state.tasks@.contains_key(ids[i]@)
            &&& card->Card_selected ==> state.ui.focused_column@ == column && state::opt_view(
                state.ui.focused_task_id,
            ) == Some(card->Card_task_id)
            &&& card->Card_area == card_area(inner, k)
        }),
{
    let n = ids.len() as int;
    lemma_places_are_known(state.tasks@, ids, n);
    let places = known_places(state.tasks@, ids, n);
    lemma_places_rise(state.tasks@, ids, n, k);
    assert(cards(state, column, ids, inner)[k]->Card_task_id == ids[places[k]]@);
}

proof fn lemma_places_rise(tasks: Map<Seq<char>, CortexTask>, ids: Seq<String>, n: int, k: int)
    requires
        0 <= n <= ids.len(),
        0 <= k < known_places(tasks, ids, n).len(),
    ensures
        k <= known_places(tasks, ids, n)[k],
    decreases k,
{
    lemma_places_are_known(tasks, ids, n);
    if k > 0 {
        lemma_places_rise(tasks, ids, n, k - 1);
        assert(known_places(tasks, ids, n)[k - 1] < known_places(tasks, ids, n)[k]);
    }
}

/// With room for all of them, every known task of a column has a card, and the
/// focused one is selected.
pub proof fn law_every_known_task_has_a_card(
    state: AppState,
    column: Seq<char>,
    ids: Seq<String>,
    inner: Rect,
    i: int,
)
    requires
        0 <= i < ids.len() <= card_room(inner.height),
        state.tasks@.contains_key(ids[i]@),
    ensures
        exists|k: int|
            0 <= k < cards(state, column, ids, inner).len() && (#[trigger] cards(
                state,
                column,
                ids,
                inner,
            )[k])->Card_task_id == ids[i]@ && ((cards(
                state,
                column,
                ids,
                inner,
            )[k])->Card_selected <==> state.ui.focused_column@ == column && state::opt_view(
                state.ui.focused_task_id,
            ) == Some(ids[i]@) && i == match table::lookup(
                state.kanban.focused_task_index@,
                column,
            ) {
                Some(at) => at as int,
                None => 0,
            }),
{
    let n = ids.len() as int;
    lemma_places_are_known(state.tasks@, ids, n);
    lemma_known_prefix(state.tasks@, ids, n, n);
    let places = known_places(state.tasks@, ids, n);
    assert(places.contains(i));
    let k = choose|k: int| 0 <= k < places.len() && places[k] == i;
    assert(cards(state, column, ids, inner)[k]->Card_task_id == ids[i]@);
}

} // verus!
