//! Moving over the board: by mouse, column by column and task by task.

use vstd::prelude::*;
use crate::config::BoardSize;
use crate::diff_view;
use crate::effects::{Effect, Effects};
use crate::page;
use crate::state::{AppState, KanbanState, UiState};
use crate::table;

verus! {

/// The part of the width that the two scroll indicators take.
pub const INDICATORS_WIDTH: u16 = 6;

/// `a - b`, or 0 when that is less.
pub open spec fn minus(a: int, b: int) -> int {
    if a >= b {
        a - b
    } else {
        0
    }
}

/// How many columns fit on a terminal of the given width: at least one.
pub open spec fn fitting_columns(size: BoardSize, term_width: u16) -> int {
    let n = minus(minus(term_width as int, size.sidebar_width as int), 6) / (
    size.column_width as int);
    if n > 1 {
        n
    } else {
        1
    }
}

/// Calculate the maximum number of kanban columns that can fit.
pub fn max_visible_columns(size: BoardSize, term_width: u16) -> (r: usize)
    requires
        size.column_width > 0,
    ensures
        r == fitting_columns(size, term_width),
{
    let board: u16 = if term_width >= size.sidebar_width {
        term_width - size.sidebar_width
    } else {
        0
    };
    let available: u16 = if board >= INDICATORS_WIDTH {
        board - INDICATORS_WIDTH
    } else {
        0
    };
    let n: u16 = available / size.column_width;
    if n > 1 {
        n as usize
    } else {
        1
    }
}

/// The scroll offset that shows column `focused` of `total`, with `max`
/// columns in view: the present one when it does, else the nearest that does,
/// and never further than needed to show the last column.
pub open spec fn offset_showing(offset: int, focused: int, total: int, max: int) -> int {
    if total == 0 {
        offset
    } else if total <= max {
        0
    } else {
        let o = if focused < offset {
            focused
        } else if focused >= offset + max {
            focused - max + 1
        } else {
            offset
        };
        page::least(o, total - max)
    }
}

/// Ensure the focused column is visible by adjusting the scroll offset.
pub fn ensure_column_visible(state: &mut AppState, total_cols: usize, max_visible: usize)
    requires
        max_visible > 0,
    ensures
        *final(state) == (AppState {
            kanban: KanbanState {
                kanban_scroll_offset: offset_showing(
                    old(state).kanban.kanban_scroll_offset as int,
                    old(state).kanban.focused_column_index as int,
                    total_cols as int,
                    max_visible as int,
                ) as usize,
                ..old(state).kanban
            },
            ..*old(state)
        }),
{
    if total_cols == 0 {
        return;
    }
    if total_cols <= max_visible {
        state.kanban.kanban_scroll_offset = 0;
        return;
    }
    let focused: usize = state.kanban.focused_column_index;
    let mut offset: usize = state.kanban.kanban_scroll_offset;
    if focused < offset {
        offset = focused;
    } else if focused - offset >= max_visible {
        offset = focused - max_visible + 1;
    }
    let max_offset: usize = total_cols - max_visible;
    if offset > max_offset {
        offset = max_offset;
    }
    state.kanban.kanban_scroll_offset = offset;
}

/// A focused column that exists is in view afterwards, and the view does not
/// run past the last column.
pub proof fn law_focused_column_is_visible(offset: int, focused: int, total: int, max: int)
    requires
        0 <= offset,
        0 <= focused < total,
        0 < max,
    ensures
        ({
            let o = offset_showing(offset, focused, total, max);
            &&& 0 <= o <= focused < o + max
            &&& total > max ==> o + max <= total
            &&& offset_showing(o, focused, total, max) == o
        }),
{
}

/// The task that is focused in a column: the one at the column's focused
/// index, or the last one when that is out of range.
pub open spec fn focused_in(kanban: KanbanState, col_id: Seq<char>) -> Option<String> {
    let ids = kanban.columns@[col_id]@;
    let idx = match table::lookup(kanban.focused_task_index@, col_id) {
        Some(i) => i as int,
        None => 0,
    };
    let at = page::least(idx, diff_view::last_index(ids.len()));
    if at < ids.len() {
        Some(ids[at])
    } else {
        None
    }
}

/// Update the focused task ID based on the column's focused task index.
pub fn update_focused_task_id(state: &mut AppState, col_id: &str)
    ensures
        *final(state) == (if old(state).kanban.columns@.contains_key(col_id@) {
            AppState {
                ui: UiState {
                    focused_task_id: focused_in(old(state).kanban, col_id@),
                    ..old(state).ui
                },
                ..*old(state)
            }
        } else {
            *old(state)
        }),
{
    let idx: usize = match state.kanban.focused_task_index.get(col_id) {
        Some(i) => *i,
        None => 0,
    };
    let focused: Option<String> = match state.kanban.columns.get(col_id) {
        Some(ids) => {
            let last: usize = if ids.len() > 0 {
                ids.len() - 1
            } else {
                0
            };
            let at: usize = if idx < last {
                idx
            } else {
                last
            };
            if at < ids.len() {
                Some(ids[at].clone())
            } else {
                None
            }
        },
        None => {
            return;
        },
    };
    state.ui.focused_task_id = focused;
}

/// A step of `direction` from `current` that stays among `n`, if it does.
pub open spec fn stepped(current: int, direction: int, n: int) -> Option<int> {
    if 0 <= current + direction < n {
        Some(current + direction)
    } else {
        None
    }
}

/// A step of `direction` from `current` that stays among `n`, if it does.
pub fn try_step(current: usize, direction: i32, n: usize) -> (r: Option<usize>)
    ensures
        match r {
            Some(i) => stepped(current as int, direction as int, n as int) == Some(i as int) && i < n,
            None => stepped(current as int, direction as int, n as int) is None,
        },
{
    let next: i128 = current as i128 + direction as i128;
    if next >= 0 && next < n as i128 {
        Some(next as usize)
    } else {
        None
    }
}

/// Move the focused column left or right by `direction` (-1 or +1).
/// Auto-scrolls the kanban view to keep the focused column visible.
pub fn handle_nav_column(
    state: &mut AppState,
    visible: &Vec<String>,
    max_visible: usize,
    direction: i32,
) -> (fx: Effects)
    requires
        max_visible > 0,
    ensures
        column_moved(*old(state), visible@, max_visible, direction as int, *final(state), fx@),
{
    match try_step(state.kanban.focused_column_index, direction, visible.len()) {
        Some(i) => {
            state.kanban.focused_column_index = i;
            ensure_column_visible(state, visible.len(), max_visible);
            Effects::one(Effect::SetFocusedColumn { column_id: visible[i].clone() })
        },
        None => Effects::new(),
    }
}

/// What moving the column focus does: a step that stays among the visible
/// columns focuses that column and scrolls it into view; any other does
/// nothing.
pub open spec fn column_moved(
    before: AppState,
    visible: Seq<String>,
    max_visible: usize,
    direction: int,
    after: AppState,
    fx: Seq<Effect<Seq<char>>>,
) -> bool {
    match stepped(
        before.kanban.focused_column_index as int,
        direction,
        visible.len() as int,
    ) {
        Some(i) => {
            &&& after == (AppState {
                kanban: KanbanState {
                    focused_column_index: i as usize,
                    kanban_scroll_offset: offset_showing(
                        before.kanban.kanban_scroll_offset as int,
                        i,
                        visible.len() as int,
                        max_visible as int,
                    ) as usize,
                    ..before.kanban
                },
                ..before
            })
            &&& fx == seq![Effect::SetFocusedColumn { column_id: visible[i]@ }]
        },
        None => after == before && fx.len() == 0,
    }
}

/// The tasks of the focused column.
pub open spec fn focused_tasks(state: AppState) -> Seq<String> {
    match table::lookup(state.kanban.columns@, state.ui.focused_column@) {
        Some(ids) => ids@,
        None => Seq::empty(),
    }
}

/// The place of the focused task in the focused column.
pub open spec fn focused_place(state: AppState) -> int {
    match table::lookup(state.kanban.focused_task_index@, state.ui.focused_column@) {
        Some(i) => i as int,
        None => 0,
    }
}

/// What moving the task focus does: a step that stays among the tasks of the
/// focused column focuses that task; any other does nothing.
pub open spec fn task_focus_moved(
    before: AppState,
    direction: int,
    after: AppState,
    fx: Seq<Effect<Seq<char>>>,
) -> bool {
    &&& fx.len() == 0
    &&& match stepped(
        focused_place(before),
        direction,
        focused_tasks(before).len() as int,
    ) {
        Some(i) => {
            &&& after == (AppState {
                kanban: KanbanState {
                    focused_task_index: after.kanban.focused_task_index,
                    ..before.kanban
                },
                ui: UiState { focused_task_id: Some(focused_tasks(before)[i]), ..before.ui },
                ..before
            })
            &&& after.kanban.focused_task_index@ == before.kanban.focused_task_index@.insert(
                before.ui.focused_column@,
                i as usize,
            )
        },
        None => after == before,
    }
}

/// Move the focused task up or down by `direction` (-1 or +1).
pub fn handle_nav_task(state: &mut AppState, direction: i32) -> (fx: Effects)
    ensures
        task_focus_moved(*old(state), direction as int, *final(state), fx@),
{
    let col_id = state.ui.focused_column.clone();
    let task_count: usize = match state.kanban.columns.get(col_id.as_str()) {
        Some(ids) => ids.len(),
        None => 0,
    };
    let current: usize = match state.kanban.focused_task_index.get(col_id.as_str()) {
        Some(i) => *i,
        None => 0,
    };
    match try_step(current, direction, task_count) {
        Some(i) => {
            state.kanban.focused_task_index.insert(col_id.clone(), i);
            update_focused_task_id(state, col_id.as_str());
        },
        None => {},
    }
    Effects::new()
}

/// Moving the task focus one step and back ends at the place it started from,
/// and the board's columns are never touched.
pub proof fn law_task_focus_comes_back(
    a: AppState,
    b: AppState,
    c: AppState,
    direction: int,
    fx: Seq<Effect<Seq<char>>>,
)
    requires
        direction == 1 || direction == -1,
        stepped(focused_place(a), direction, focused_tasks(a).len() as int) is Some,
        0 <= focused_place(a) < focused_tasks(a).len() <= usize::MAX,
        task_focus_moved(a, direction, b, fx),
        task_focus_moved(b, -direction, c, fx),
    ensures
        focused_place(c) == focused_place(a),
        c.ui.focused_task_id == Some(focused_tasks(a)[focused_place(a)]),
        c.kanban.columns == a.kanban.columns,
{
}

/// What the mouse did.
#[derive(Clone, Copy, Debug, PartialEq, Eq, Structural)]
pub enum MouseKind {
    LeftDown,
    ScrollUp,
    ScrollDown,
    Other,
}

/// A mouse event at a cell of the terminal.
#[derive(Clone, Copy, Debug, PartialEq, Eq, Structural)]
pub struct MouseEvent {
    pub kind: MouseKind,
    pub column: u16,
    pub row: u16,
}

/// Rows that the header of a column takes.
pub const HEADER_ROWS: u16 = 2;

/// Rows from one task card to the next.
pub const CARD_ROWS: u16 = 6;

/// The place, among the visible columns, of the column under a click. There is
/// none in the sidebar, in the status bar, over the left scroll indicator or
/// behind the last column in view.
pub open spec fn clicked_column(
    kanban: KanbanState,
    mouse: MouseEvent,
    width: u16,
    height: u16,
    size: BoardSize,
    total: int,
) -> Option<int> {
    let max = fitting_columns(size, width);
    let all_fit = total <= max;
    let scroll = if all_fit {
        0
    } else {
        page::least(kanban.kanban_scroll_offset as int, total - max)
    };
    let indicator: int = if !all_fit && kanban.kanban_scroll_offset > 0 {
        3
    } else {
        0
    };
    let x = mouse.column - size.sidebar_width - indicator;
    let at = x / (size.column_width as int);
    if mouse.column < size.sidebar_width || mouse.row >= minus(height as int, 2) || x < 0 || at
        >= max || at + scroll >= total {
        None
    } else {
        Some(at + scroll)
    }
}

/// The place of the task card under a click below the header of a column.
pub open spec fn clicked_task(mouse: MouseEvent) -> int {
    (mouse.row - 2) / 6
}

/// What a left click does: it focuses the column under it and scrolls it into
/// view; below the header it also focuses the task card under it, if any.
pub open spec fn clicked(
    before: AppState,
    mouse: MouseEvent,
    width: u16,
    height: u16,
    size: BoardSize,
    visible: Seq<String>,
    after: AppState,
    fx: Seq<Effect<Seq<char>>>,
) -> bool {
    match clicked_column(before.kanban, mouse, width, height, size, visible.len() as int) {
        None => after == before && fx.len() == 0,
        Some(i) => {
            let col_id = visible[i]@;
            let focus = Effect::SetFocusedColumn { column_id: col_id };
            let ids = table::lookup(before.kanban.columns@, col_id);
            let scrolled = KanbanState {
                focused_column_index: i as usize,
                kanban_scroll_offset: offset_showing(
                    before.kanban.kanban_scroll_offset as int,
                    i,
                    visible.len() as int,
                    fitting_columns(size, width),
                ) as usize,
                ..before.kanban
            };
            if mouse.row >= 2 && ids is Some && clicked_task(mouse) < ids->0@.len() {
                &&& after == (AppState {
                    kanban: KanbanState {
                        focused_task_index: after.kanban.focused_task_index,
                        ..scrolled
                    },
                    render_dirty: true,
                    ..before
                })
                &&& after.kanban.focused_task_index@ == before.kanban.focused_task_index@.insert(
                    col_id,
                    clicked_task(mouse) as usize,
                )
                &&& fx =~= seq![
                    focus,
                    Effect::FocusTask { task_id: ids->0@[clicked_task(mouse)]@ },
                ]
            } else {
                &&& after == (AppState { kanban: scrolled, render_dirty: true, ..before })
                &&& fx == seq![focus]
            }
        },
    }
}

fn column_under(
    kanban: &KanbanState,
    mouse: MouseEvent,
    width: u16,
    height: u16,
    size: BoardSize,
    total: usize,
) -> (r: Option<usize>)
    requires
        size.column_width > 0,
    ensures
        match r {
            Some(i) => i < total && clicked_column(
                *kanban,
                mouse,
                width,
                height,
                size,
                total as int,
            ) == Some(i as int),
            None => clicked_column(*kanban, mouse, width, height, size, total as int) is None,
        },
{
    if mouse.column < size.sidebar_width {
        return None;
    }
    let bottom: u16 = if height >= 2 {
        height - 2
    } else {
        0
    };
    if mouse.row >= bottom {
        return None;
    }
    let kanban_x: u16 = mouse.column - size.sidebar_width;
    let max: usize = max_visible_columns(size, width);
    let all_fit = total <= max;
    let scroll: usize = if all_fit {
        0
    } else if kanban.kanban_scroll_offset < total - max {
        kanban.kanban_scroll_offset
    } else {
        total - max
    };
    let indicator: u16 = if !all_fit && kanban.kanban_scroll_offset > 0 {
        3
    } else {
        0
    };
    if kanban_x < indicator {
        return None;
    }
    let at: usize = ((kanban_x - indicator) / size.column_width) as usize;
    if at >= max || at >= total || scroll >= total - at {
        return None;
    }
    Some(at + scroll)
}

fn handle_click(
    state: &mut AppState,
    mouse: MouseEvent,
    width: u16,
    height: u16,
    size: BoardSize,
    visible: &Vec<String>,
) -> (fx: Effects)
    requires
        size.column_width > 0,
    ensures
        clicked(*old(state), mouse, width, height, size, visible@, *final(state), fx@),
{
    match column_under(&state.kanban, mouse, width, height, size, visible.len()) {
        None => Effects::new(),
        Some(i) => {
            let max: usize = max_visible_columns(size, width);
            state.kanban.focused_column_index = i;
            ensure_column_visible(state, visible.len(), max);
            let mut fx = Effects::new();
            fx.push(Effect::SetFocusedColumn { column_id: visible[i].clone() });
            if mouse.row >= HEADER_ROWS {
                let at: usize = ((mouse.row - HEADER_ROWS) / CARD_ROWS) as usize;
                let task_id: Option<String> = match state.kanban.columns.get(visible[i].as_str()) {
                    Some(ids) => if at < ids.len() {
                        Some(ids[at].clone())
                    } else {
                        None
                    },
                    None => None,
                };
                if let Some(task_id) = task_id {
                    state.kanban.focused_task_index.insert(visible[i].clone(), at);
                    fx.push(Effect::FocusTask { task_id });
                }
            }
            state.mark_render_dirty();
            fx
        },
    }
}

/// What a mouse event does: the wheel moves the task focus, a left click focuses
/// what is under it where the size of the terminal is known, and any other event
/// does nothing.
pub open spec fn moused(
    before: AppState,
    mouse: MouseEvent,
    terminal: Option<(u16, u16)>,
    size: BoardSize,
    visible: Seq<String>,
    after: AppState,
    fx: Seq<Effect<Seq<char>>>,
) -> bool {
    match mouse.kind {
        MouseKind::ScrollUp => task_focus_moved(before, -1, after, fx),
        MouseKind::ScrollDown => task_focus_moved(before, 1, after, fx),
        MouseKind::LeftDown => match terminal {
            Some((width, height)) => clicked(
                before,
                mouse,
                width,
                height,
                size,
                visible,
                after,
                fx,
            ),
            None => after == before && fx.len() == 0,
        },
        MouseKind::Other => after == before && fx.len() == 0,
    }
}

/// Handle a mouse event: left-click to focus tasks and columns.
///
/// Supports:
/// - Click on a kanban column header: focus that column
/// - Click on a task card: focus that task
/// - Scroll wheel: navigate tasks up/down within the focused column
///
/// `size` is the size of the terminal, `None` when it is not known; clicks are
/// then ignored.
pub fn handle_mouse_event(
    state: &mut AppState,
    mouse: MouseEvent,
    terminal: Option<(u16, u16)>,
    size: BoardSize,
    visible: &Vec<String>,
) -> (fx: Effects)
    requires
        size.column_width > 0,
    ensures
        moused(*old(state), mouse, terminal, size, visible@, *final(state), fx@),
{
    match mouse.kind {
        MouseKind::ScrollUp => handle_nav_task(state, -1),
        MouseKind::ScrollDown => handle_nav_task(state, 1),
        MouseKind::LeftDown => match terminal {
            Some((width, height)) => handle_click(state, mouse, width, height, size, visible),
            None => Effects::new(),
        },
        MouseKind::Other => Effects::new(),
    }
}

/// The wheel moves the task focus: down to the task below, up to the one above,
/// within the focused column.
pub proof fn law_wheel_moves_the_task_focus(
    before: AppState,
    mouse: MouseEvent,
    terminal: Option<(u16, u16)>,
    size: BoardSize,
    visible: Seq<String>,
    after: AppState,
    fx: Seq<Effect<Seq<char>>>,
    ids: Vec<String>,
    at: usize,
)
    requires
        moused(before, mouse, terminal, size, visible, after, fx),
        table::lookup(before.kanban.columns@, before.ui.focused_column@) == Some(ids),
        table::lookup(before.kanban.focused_task_index@, before.ui.focused_column@) == Some(at),
        at < ids@.len() <= usize::MAX,
    ensures
        mouse.kind == MouseKind::ScrollDown && at + 1 < ids@.len() ==> after.ui.focused_task_id
            == Some(ids@[at + 1]),
        mouse.kind == MouseKind::ScrollUp && at > 0 ==> after.ui.focused_task_id == Some(
            ids@[at - 1],
        ),
        mouse.kind == MouseKind::ScrollDown && at + 1 == ids@.len() ==> after == before,
        mouse.kind == MouseKind::ScrollUp && at == 0 ==> after == before,
        mouse.kind == MouseKind::Other ==> after == before,
        mouse.kind != MouseKind::LeftDown ==> fx.len() == 0,
{
}

/// A click focuses the column under it, and the task on the card under it; one
/// that is on no column does nothing.
pub proof fn law_clicks_focus_what_is_under_them(
    before: AppState,
    mouse: MouseEvent,
    width: u16,
    height: u16,
    size: BoardSize,
    visible: Seq<String>,
    after: AppState,
    fx: Seq<Effect<Seq<char>>>,
)
    requires
        moused(before, mouse, Some((width, height)), size, visible, after, fx),
        mouse.kind == MouseKind::LeftDown,
        size.column_width > 0,
        visible.len() <= usize::MAX,
    ensures
        ({
            let on = clicked_column(
                before.kanban,
                mouse,
                width,
                height,
                size,
                visible.len() as int,
            );
            let row = clicked_task(mouse);
            &&& on is None ==> after == before && fx.len() == 0
            &&& on is Some ==> after.kanban.focused_column_index == on->0 && fx.len() > 0 && fx[0]
                == (Effect::SetFocusedColumn { column_id: visible[on->0]@ })
            &&& on is Some && mouse.row >= 2 && before.kanban.columns@.contains_key(
                visible[on->0]@,
            ) && row < before.kanban.columns@[visible[on->0]@]@.len() ==> fx.len() == 2 && fx[1]
                == (Effect::FocusTask {
                task_id: before.kanban.columns@[visible[on->0]@]@[row]@,
            })
            &&& mouse.row < 2 ==> fx.len() <= 1
            &&& after.kanban.columns == before.kanban.columns && after.tasks == before.tasks
        }),
{
    let w = size.column_width as int;
    assert(forall|y: int| y >= 0 ==> #[trigger] (y / w) >= 0) by (nonlinear_arith)
        requires
            w > 0,
    ;
}

/// The board scrolls no further than it must: where the focused column is in view
/// and the view is within the board, it stays as it is.
pub proof fn law_view_stays_where_it_can(offset: int, focused: int, total: int, max: int)
    requires
        0 < max < total,
        0 <= offset <= total - max,
        0 <= focused < total,
    ensures
        offset <= focused < offset + max ==> offset_showing(offset, focused, total, max) == offset,
        focused < offset ==> offset_showing(offset, focused, total, max) == focused,
        focused >= offset + max ==> offset_showing(offset, focused, total, max) + max == focused + 1,
{
}

/// The focused task of a column is the one at the place that the column
/// remembers, or its last one where it has fewer.
pub proof fn law_column_remembers_its_task(kanban: KanbanState, column: Seq<char>, at: usize)
    requires
        kanban.columns@.contains_key(column),
        kanban.columns@[column]@.len() > 0,
        table::lookup(kanban.focused_task_index@, column) == Some(at),
    ensures
        ({
            let ids = kanban.columns@[column]@;
            focused_in(kanban, column) == Some(
                if at < ids.len() {
                    ids[at as int]
                } else {
                    ids[ids.len() - 1]
                },
            )
        }),
{
}

/// As many columns are in view as have room beside the sidebar and the scroll
/// indicators: one more would not fit, and one is in view in any case.
pub proof fn law_as_many_columns_as_fit(size: BoardSize, term_width: u16)
    requires
        size.column_width > 0,
    ensures
        ({
            let n = fitting_columns(size, term_width);
            let w = size.column_width as int;
            let taken = size.sidebar_width + 6;
            &&& n >= 1
            &&& n > 1 ==> taken + n * w <= term_width
            &&& taken + (n + 1) * w > term_width
        }),
{
    let w = size.column_width as int;
    let room = minus(minus(term_width as int, size.sidebar_width as int), 6);
    let q = room / w;
    vstd::arithmetic::div_mod::lemma_fundamental_div_mod(room, w);
    assert(q * w <= room < (q + 1) * w) by (nonlinear_arith)
        requires
            room == w * q + room % w,
            0 <= room % w < w,
    ;
    assert(2 * w >= w * 1 && (q <= 1 ==> (q + 1) * w <= 2 * w)) by (nonlinear_arith)
        requires
            w > 0,
    ;
}

} // verus!
