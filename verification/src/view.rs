//! The frame: which views are drawn in which mode, and where.

use vstd::prelude::*;
use crate::config::{BoardSize, ColumnsConfig, KeybindingConfig};
use crate::config_editor;
use crate::diff_view;
use crate::draw;
use crate::draw::{Canvas, Color, Constraint, Direction, Draw, Lines, Rect, Style, Theme};
use crate::help;
use crate::kanban;
use crate::overlays;
use crate::permission_modal;
use crate::reports;
use crate::sidebar;
use crate::sidebar::ProjectIcons;
use crate::state::{AppMode, AppState, FocusedPanel};
use crate::status_bar;
use crate::status_bar::Connection;
use crate::text;

verus! {

/// Minimum terminal width required for the layout.
pub const MIN_TERM_WIDTH: u16 = 60;

/// Minimum terminal height required for the layout.
pub const MIN_TERM_HEIGHT: u16 = 10;

/// Width of the changed-files sidebar panel in the task detail view.
pub const CHANGED_FILES_PANEL_WIDTH: u16 = 28;

/// Minimum width required for the task detail panel when the changed-files
/// sidebar is shown.
pub const MIN_TASK_DETAIL_WIDTH: u16 = 40;

/// How the board looks: sizes, columns, icons, colors and keys.
#[derive(Debug, PartialEq, Eq)]
pub struct Look {
    pub board: BoardSize,
    pub columns: ColumnsConfig,
    pub icons: ProjectIcons,
    pub theme: Theme,
    pub keybindings: KeybindingConfig,
    /// How many notifications are kept.
    pub max_notifications: usize,
}

/// What a frame shows besides the state.
#[derive(Debug, PartialEq, Eq)]
pub struct Live {
    pub connection: Connection,
    /// Whether the state is being saved.
    pub saving: bool,
    /// The archived tasks of the active project.
    pub archived: Vec<String>,
    /// The title of the task that waits to be deleted.
    pub doomed_title: String,
    /// The share of done tasks in words.
    pub done_rate: String,
}

// ─── Normal view ──────────────────────────────────────────────────────────

/// The text for a terminal that is too small.
pub open spec fn too_small_text(width: u16, height: u16) -> Seq<char> {
    "Terminal too small ("@ + text::decimal(width as nat) + "×"@ + text::decimal(height as nat)
        + ").\nMinimum required: 60×10.\nResize your terminal window."@
}

/// Whether the terminal is too small for the layout.
pub open spec fn too_small(screen: Rect) -> bool {
    screen.width < MIN_TERM_WIDTH || screen.height < MIN_TERM_HEIGHT
}

/// The rows of the normal view: content and status bar.
pub open spec fn screen_rows() -> Seq<Constraint> {
    seq![Constraint::Min(0), Constraint::Length(2)]
}

/// Whether the changed files are shown beside the detail view: when there are
/// any and the terminal is wide enough.
pub open spec fn shows_changed_files(screen: Rect, state: AppState, sidebar_width: u16) -> bool {
    &&& state.ui.focused_panel == FocusedPanel::TaskDetail
    &&& match state.ui.changed_files {
        Some(files) => files@.len() > 0,
        None => false,
    }
    &&& screen.width >= sidebar_width + CHANGED_FILES_PANEL_WIDTH + MIN_TASK_DETAIL_WIDTH
}

/// The columns of the content: sidebar, board or detail view, and the changed
/// files where they are shown.
pub open spec fn screen_columns(sidebar_width: u16, changed_files: bool) -> Seq<Constraint> {
    if changed_files {
        seq![
            Constraint::Length(sidebar_width),
            Constraint::Min(MIN_TASK_DETAIL_WIDTH),
            Constraint::Length(CHANGED_FILES_PANEL_WIDTH),
        ]
    } else {
        seq![Constraint::Length(sidebar_width), Constraint::Min(0)]
    }
}

/// The main panel: the detail view of a task when it has the focus and there is
/// one, else the board.
pub open spec fn panel_drawn(
    before: draw::Drawn,
    area: Rect,
    state: AppState,
    look: Look,
    after: draw::Drawn,
) -> bool {
    match (state.ui.focused_panel, state.ui.viewing_task_id) {
        (FocusedPanel::TaskDetail, Some(id)) => after == before.push(
            Draw::Detail { area, task_id: id@ },
        ),
        _ => kanban::kanban_drawn(
            before,
            area,
            state,
            look.columns,
            look.board.column_width,
            after,
        ),
    }
}

/// The changed files, where they are shown.
pub open spec fn files_drawn(
    before: draw::Drawn,
    shown: bool,
    columns: Seq<Rect>,
) -> draw::Drawn {
    if shown {
        before.push(Draw::ChangedFiles { area: columns[2] })
    } else {
        before
    }
}

/// What the status bar shows.
pub open spec fn status_shown(state: AppState, look: Look, live: Live) -> status_bar::Status<
    Seq<char>,
> {
    status_bar::status_of(
        state,
        live.connection,
        look.max_notifications,
        live.saving,
        look.theme,
    )
}

/// What is drawn for the normal view with its rows and columns in place: the
/// sidebar, the main panel, the changed files and the status bar, in this order.
pub open spec fn layout_drawn(
    before: draw::Drawn,
    screen: Rect,
    state: AppState,
    look: Look,
    live: Live,
    rows: Seq<Rect>,
    columns: Seq<Rect>,
    panel: draw::Drawn,
    after: draw::Drawn,
) -> bool {
    let side = sidebar::sidebar_drawn(before, columns[0], state, look.icons, look.theme);
    let changed = shows_changed_files(screen, state, look.board.sidebar_width);
    &&& panel_drawn(side, columns[1], state, look, panel)
    &&& status_bar::bar_drawn(
        files_drawn(panel, changed, columns),
        rows[1].narrowed(),
        status_shown(state, look, live),
        after,
    )
}

/// What is drawn for the normal view: the layout, or a message in its place when
/// the terminal is too small.
pub open spec fn normal_drawn(
    before: draw::Drawn,
    screen: Rect,
    state: AppState,
    look: Look,
    live: Live,
    after: draw::Drawn,
) -> bool {
    let changed = shows_changed_files(screen, state, look.board.sidebar_width);
    if too_small(screen) {
        after == before.push(
            draw::text_in_the_middle(
                screen,
                draw::raw(text::lines_of(too_small_text(screen.width, screen.height))),
                Style::fg(Color::Yellow),
            ),
        )
    } else {
        exists|rows: Seq<Rect>, columns: Seq<Rect>, panel: draw::Drawn|
            #[trigger] draw::parts_of(screen, Direction::Vertical, screen_rows(), rows)
                && #[trigger] draw::parts_of(
                rows[0],
                Direction::Horizontal,
                screen_columns(look.board.sidebar_width, changed),
                columns,
            ) && #[trigger] layout_drawn(
                before,
                screen,
                state,
                look,
                live,
                rows,
                columns,
                panel,
                after,
            )
    }
}

fn too_small_message(width: u16, height: u16) -> (r: String)
    ensures
        r@ == too_small_text(width, height),
{
    let mut out = text::join2("Terminal too small (", text::dec(width as u64).as_str());
    out.append("×");
    out.append(text::dec(height as u64).as_str());
    out.append(").\nMinimum required: 60×10.\nResize your terminal window.");
    out
}

fn has_changed_files(screen: Rect, state: &AppState, sidebar_width: u16) -> (r: bool)
    ensures
        r == shows_changed_files(screen, *state, sidebar_width),
{
    let any = match &state.ui.changed_files {
        Some(files) => files.len() > 0,
        None => false,
    };
    state.ui.focused_panel == FocusedPanel::TaskDetail && any && screen.width as u32
        >= sidebar_width as u32 + CHANGED_FILES_PANEL_WIDTH as u32 + MIN_TASK_DETAIL_WIDTH as u32
}

fn columns_wanted(sidebar_width: u16, changed_files: bool) -> (r: Vec<Constraint>)
    ensures
        r@ == screen_columns(sidebar_width, changed_files),
{
    let mut out: Vec<Constraint> = Vec::new();
    out.push(Constraint::Length(sidebar_width));
    if changed_files {
        out.push(Constraint::Min(MIN_TASK_DETAIL_WIDTH));
        out.push(Constraint::Length(CHANGED_FILES_PANEL_WIDTH));
    } else {
        out.push(Constraint::Min(0));
    }
    proof {
        assert(out@ =~= screen_columns(sidebar_width, changed_files));
    }
    out
}

fn draw_panel(canvas: &mut Canvas, area: Rect, state: &AppState, look: &Look)
    requires
        area.fits(),
        look.board.column_width > 0,
    ensures
        panel_drawn(old(canvas)@, area, *state, *look, final(canvas)@),
{
    if state.ui.focused_panel == FocusedPanel::TaskDetail {
        if let Some(id) = &state.ui.viewing_task_id {
            canvas.put(Draw::Detail { area, task_id: id.clone() });
            return;
        }
    }
    kanban::render_kanban(canvas, area, state, &look.columns, look.board.column_width);
}

/// Render the normal mode layout: sidebar + kanban + status bar.
///
/// If the terminal is too small (below [`MIN_TERM_WIDTH`] × [`MIN_TERM_HEIGHT`]),
/// renders a centered "terminal too small" message instead of the normal layout
/// to prevent garbled output from overlapping widgets.
pub fn render_normal(canvas: &mut Canvas, screen: Rect, state: &AppState, look: &Look, live: &Live)
    requires
        screen.fits(),
        look.board.column_width > 0,
    ensures
        normal_drawn(old(canvas)@, screen, *state, *look, *live, final(canvas)@),
{
    if screen.width < MIN_TERM_WIDTH || screen.height < MIN_TERM_HEIGHT {
        let message = too_small_message(screen.width, screen.height);
        canvas.middle(screen, Lines::raw(message.as_str()), Style::fg(Color::Yellow));
        return;
    }
    let ghost before = canvas@;
    let wanted = vec![Constraint::Min(0), Constraint::Length(2)];
    proof {
        assert(wanted@ =~= screen_rows());
    }
    let rows = draw::split(screen, Direction::Vertical, &wanted);
    let changed = has_changed_files(screen, state, look.board.sidebar_width);
    let widths = columns_wanted(look.board.sidebar_width, changed);
    let columns = draw::split(rows[0], Direction::Horizontal, &widths);
    sidebar::render_sidebar(canvas, columns[0], state, &look.icons, look.theme);
    draw_panel(canvas, columns[1], state, look);
    let ghost panel = canvas@;
    if changed {
        canvas.put(Draw::ChangedFiles { area: columns[2] });
    }
    status_bar::render_status_bar(
        canvas,
        rows[1].narrow(),
        state,
        live.connection,
        look.max_notifications,
        live.saving,
        look.theme,
    );
    proof {
        assert(draw::parts_of(screen, Direction::Vertical, screen_rows(), rows@));
        assert(draw::parts_of(
            rows@[0],
            Direction::Horizontal,
            screen_columns(look.board.sidebar_width, changed),
            columns@,
        ));
        assert(layout_drawn(
            before,
            screen,
            *state,
            *look,
            *live,
            rows@,
            columns@,
            panel,
            canvas@,
        ));
    }
}

// ─── Modes ────────────────────────────────────────────────────────────────

/// The rows in which the status bar is drawn once more, over the modal.
pub open spec fn modal_rows() -> Seq<Constraint> {
    seq![Constraint::Length(0), Constraint::Length(2)]
}

/// What is drawn over the normal view while the modal is open: the modal, and
/// the status bar once more, so that notifications stay visible.
pub open spec fn over_modal(
    normal: draw::Drawn,
    screen: Rect,
    state: AppState,
    look: Look,
    live: Live,
    after: draw::Drawn,
) -> bool {
    exists|rows: Seq<Rect>|
        #[trigger] draw::parts_of(screen, Direction::Vertical, modal_rows(), rows)
            && status_bar::bar_drawn(
            permission_modal::modal_drawn(normal, screen, state, look.theme),
            rows[1].narrowed(),
            status_shown(state, look, live),
            after,
        )
}

/// What is drawn on top of the normal view in the modes that show it.
pub open spec fn overlay_drawn(
    normal: draw::Drawn,
    screen: Rect,
    state: AppState,
    look: Look,
    live: Live,
    after: draw::Drawn,
) -> bool {
    match state.ui.mode {
        AppMode::Normal => if state.ui.permission_modal_active {
            over_modal(normal, screen, state, look, live, after)
        } else {
            after == normal
        },
        AppMode::Help => after == help::help_drawn(normal, screen, look.keybindings),
        AppMode::ProjectRename | AppMode::InputPrompt => overlays::input_prompt_drawn(
            normal,
            screen,
            state,
            after,
        ),
        AppMode::ConfirmDelete => after == normal.push(
            overlays::delete_dialog(screen, live.doomed_title@),
        ),
        AppMode::Archive => after == normal.push(
            overlays::archive_list(screen, text::texts(live.archived@)),
        ),
        _ => false,
    }
}

/// Whether a mode shows the normal view, with something on top of it or not.
pub open spec fn shows_board(mode: AppMode) -> bool {
    match mode {
        AppMode::TaskEditor | AppMode::DiffReview | AppMode::Reports | AppMode::ConfigEditor => false,
        _ => true,
    }
}

/// What a frame shows.
pub open spec fn frame_drawn(
    before: draw::Drawn,
    screen: Rect,
    state: AppState,
    look: Look,
    live: Live,
    after: draw::Drawn,
) -> bool {
    match state.ui.mode {
        AppMode::TaskEditor => after == before.push(Draw::TaskEditor),
        AppMode::DiffReview => diff_view::diff_review_drawn(
            before,
            screen,
            state.ui.diff_review,
            look.theme,
            after,
        ),
        AppMode::Reports => reports::reports_drawn(
            before,
            screen,
            state.ui.reports,
            live.done_rate@,
            after,
        ),
        AppMode::ConfigEditor => config_editor::config_editor_drawn(
            before,
            screen,
            state.ui.config_editor_state,
            after,
        ),
        _ => exists|normal: draw::Drawn|
            #[trigger] normal_drawn(before, screen, state, look, live, normal) && overlay_drawn(
                normal,
                screen,
                state,
                look,
                live,
                after,
            ),
    }
}

fn draw_overlay(canvas: &mut Canvas, screen: Rect, state: &AppState, look: &Look, live: &Live)
    requires
        screen.fits(),
        shows_board(state.ui.mode),
    ensures
        overlay_drawn(old(canvas)@, screen, *state, *look, *live, final(canvas)@),
{
    match state.ui.mode {
        AppMode::Normal => {
            if state.ui.permission_modal_active {
                permission_modal::render_permission_modal(canvas, screen, state, look.theme);
                let wanted = vec![Constraint::Length(0), Constraint::Length(2)];
                proof {
                    assert(wanted@ =~= modal_rows());
                }
                let rows = draw::split(screen, Direction::Vertical, &wanted);
                status_bar::render_status_bar(
                    canvas,
                    rows[1].narrow(),
                    state,
                    live.connection,
                    look.max_notifications,
                    live.saving,
                    look.theme,
                );
                proof {
                    assert(draw::parts_of(screen, Direction::Vertical, modal_rows(), rows@));
                }
            }
        },
        AppMode::Help => {
            help::render_help_overlay(canvas, screen, &look.keybindings);
        },
        AppMode::ProjectRename | AppMode::InputPrompt => {
            overlays::render_input_prompt(canvas, screen, state);
        },
        AppMode::ConfirmDelete => {
            overlays::render_confirm_delete_dialog(canvas, screen, live.doomed_title.as_str());
        },
        AppMode::Archive => {
            overlays::render_archive_viewer(canvas, screen, &live.archived);
        },
        _ => {},
    }
}

/// Draws a frame: the view of the current mode.
pub fn render_frame(canvas: &mut Canvas, screen: Rect, state: &AppState, look: &Look, live: &Live)
    requires
        screen.fits(),
        look.board.column_width > 0,
    ensures
        frame_drawn(old(canvas)@, screen, *state, *look, *live, final(canvas)@),
{
    match state.ui.mode {
        AppMode::TaskEditor => {
            canvas.put(Draw::TaskEditor);
        },
        AppMode::DiffReview => {
            diff_view::render_diff_review(canvas, screen, &state.ui.diff_review, look.theme);
        },
        AppMode::Reports => {
            reports::render_reports(canvas, screen, &state.ui.reports, live.done_rate.as_str());
        },
        AppMode::ConfigEditor => {
            config_editor::render_config_editor(canvas, screen, &state.ui.config_editor_state);
        },
        _ => {
            render_normal(canvas, screen, state, look, live);
            draw_overlay(canvas, screen, state, look, live);
        },
    }
}

// ─── Laws ─────────────────────────────────────────────────────────────────

/// On a terminal that is too small nothing of the layout is drawn: the message
/// is all that the normal view consists of.
pub proof fn law_too_small_shows_only_the_message(
    screen: Rect,
    state: AppState,
    look: Look,
    live: Live,
    after: draw::Drawn,
)
    requires
        too_small(screen),
        normal_drawn(Seq::empty(), screen, state, look, live, after),
    ensures
        after.len() == 1,
{
}

/// Every part of the normal view lies on the screen: the sidebar, the main
/// panel, the changed files and the status bar.
pub proof fn law_layout_stays_on_screen(
    screen: Rect,
    sidebar_width: u16,
    changed: bool,
    rows: Seq<Rect>,
    columns: Seq<Rect>,
    i: int,
)
    requires
        screen.fits(),
        !too_small(screen),
        draw::parts_of(screen, Direction::Vertical, screen_rows(), rows),
        draw::parts_of(
            rows[0],
            Direction::Horizontal,
            screen_columns(sidebar_width, changed),
            columns,
        ),
        0 <= i < columns.len(),
    ensures
        columns[i].inside(screen),
        rows[1].narrowed().inside(screen),
{
    assert(rows[0].inside(screen));
    assert(rows[1].inside(screen));
}

/// The changed files are shown only where the detail view keeps its minimum
/// width beside them and the sidebar.
pub proof fn law_changed_files_leave_room(screen: Rect, state: AppState, sidebar_width: u16)
    requires
        shows_changed_files(screen, state, sidebar_width),
    ensures
        screen.width - sidebar_width - CHANGED_FILES_PANEL_WIDTH >= MIN_TASK_DETAIL_WIDTH,
{
}

/// The help, the question on a deletion and the archive stand over the board, each
/// in its own mode; in normal mode the board is shown as it is.
pub proof fn law_modes_show_their_views(
    screen: Rect,
    state: AppState,
    look: Look,
    live: Live,
    normal: draw::Drawn,
    after: draw::Drawn,
)
    requires
        overlay_drawn(normal, screen, state, look, live, after),
    ensures
        state.ui.mode == AppMode::Normal && !state.ui.permission_modal_active ==> after == normal,
        state.ui.mode == AppMode::ConfirmDelete ==> after.len() == normal.len() + 1
            && after.last() == overlays::delete_dialog(screen, live.doomed_title@),
        state.ui.mode == AppMode::Archive ==> after.len() == normal.len() + 1 && after.last()
            == overlays::archive_list(screen, text::texts(live.archived@)),
        state.ui.mode == AppMode::Help ==> after == help::help_drawn(
            normal,
            screen,
            look.keybindings,
        ),
{
}

/// The main panel shows the task in view where the detail view has the focus, and
/// the board where it has not.
pub proof fn law_panel_follows_the_focus(
    before: draw::Drawn,
    area: Rect,
    state: AppState,
    look: Look,
    after: draw::Drawn,
)
    requires
        panel_drawn(before, area, state, look, after),
    ensures
        state.ui.focused_panel == FocusedPanel::TaskDetail && state.ui.viewing_task_id is Some
            ==> after == before.push(
            Draw::Detail { area, task_id: state.ui.viewing_task_id->0@ },
        ),
        state.ui.focused_panel == FocusedPanel::Kanban ==> kanban::kanban_drawn(
            before,
            area,
            state,
            look.columns,
            look.board.column_width,
            after,
        ),
{
}

/// The terminal is too small for the layout below sixty columns or ten rows.
pub proof fn law_layout_needs_room(screen: Rect)
    ensures
        too_small(screen) <==> screen.width < 60 || screen.height < 10,
{
}

} // verus!
