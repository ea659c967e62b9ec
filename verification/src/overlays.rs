//! Input prompt, confirmation dialogs and the archive: what is drawn on top of
//! the board.

use vstd::prelude::*;
use crate::draw;
use crate::draw::{
    Block, Borders, Canvas, Color, Constraint, Direction, Draw, Line, Lines, Rect, Style, Wrap,
};
use crate::help;
use crate::state;
use crate::state::{AppState, ConfirmableAction, CortexTask};
use crate::table;
use crate::text;

verus! {

// ─── Input prompt ─────────────────────────────────────────────────────────

/// The title of the input prompt.
pub open spec fn prompt_title(context: Option<Seq<char>>) -> Seq<char> {
    if context == Some("rename_project"@) {
        " Rename Project "@
    } else if context == Some("set_working_directory"@) {
        " Set Working Directory "@
    } else {
        " Input "@
    }
}

/// The rows of the input prompt: label, input field and hint.
pub open spec fn prompt_rows() -> Seq<Constraint> {
    seq![Constraint::Length(1), Constraint::Length(3), Constraint::Length(1)]
}

/// The frame of the input field.
pub open spec fn input_frame() -> Block<Seq<char>> {
    Block::<Seq<char>>::new(Borders::all(), Style::fg(Color::DarkGray)).styled(
        Style::bg(Color::Rgb(24, 28, 40)),
    )
}

/// What is drawn inside the frame of the input prompt, with its rows in
/// `parts`.
pub open spec fn prompt_drawn(before: draw::Drawn, state: AppState, parts: Seq<Rect>) -> draw::Drawn {
    let field = parts[1].bordered(Borders::all());
    let typed = state.ui.input_text@;
    let at = if state.ui.input_cursor < typed.len() {
        state.ui.input_cursor
    } else {
        typed.len() as usize
    };
    before.push(
        draw::text_at(
            parts[0],
            draw::raw(text::lines_of(state.ui.prompt_label@)),
            Style::fg(Color::White),
        ),
    ).push(Draw::Block { area: parts[1], block: input_frame() }).push(
        draw::text_at(
            field,
            draw::only(draw::blank().push(draw::sp(typed, Style::fg(Color::White)))),
            Style::fg(Color::White),
        ),
    ).push(Draw::Cursor { x: draw::beside(field.x, at), y: field.y }).push(
        draw::word_at(
            parts[2],
            "Enter: confirm  |  Esc: cancel"@,
            Style::fg(Color::DarkGray),
        ),
    )
}

/// The overlay before its contents are drawn: a cleared area and a frame.
pub open spec fn framed(before: draw::Drawn, area: Rect, title: Seq<char>, color: Color) -> draw::Drawn {
    before.push(Draw::Clear { area }).push(
        Draw::Block { area, block: help::overlay(title, color) },
    )
}

/// Draws the contents of the input prompt, with its rows in `parts`: the label,
/// the text typed so far with the cursor in it, and a hint.
pub fn draw_input_prompt(canvas: &mut Canvas, state: &AppState, parts: &Vec<Rect>)
    requires
        parts@.len() == 3,
        parts@[1].fits(),
    ensures
        final(canvas)@ == prompt_drawn(old(canvas)@, *state, parts@),
{
    canvas.text(
        parts[0],
        Lines::raw(state.ui.prompt_label.as_str()),
        Style::fg(Color::White),
    );
    canvas.block(
        parts[1],
        Block::new(Borders::all(), Style::fg(Color::DarkGray)).styled(
            Style::bg(Color::Rgb(24, 28, 40)),
        ),
    );
    let field = parts[1].within(Borders::all());
    canvas.text(
        field,
        Lines::of(Line::of(state.ui.input_text.as_str(), Style::fg(Color::White))),
        Style::fg(Color::White),
    );
    let count: usize = state.ui.input_text.as_str().unicode_len();
    let at: usize = if state.ui.input_cursor < count {
        state.ui.input_cursor
    } else {
        count
    };
    canvas.put(Draw::Cursor { x: draw::right_of(field.x, at), y: field.y });
    canvas.word(parts[2], "Enter: confirm  |  Esc: cancel", Style::fg(Color::DarkGray));
}

/// What is drawn for the input prompt, for some rows of its area.
pub open spec fn input_prompt_drawn(
    before: draw::Drawn,
    screen: Rect,
    state: AppState,
    after: draw::Drawn,
) -> bool {
    exists|parts: Seq<Rect>|
        #[trigger] draw::parts_of(
            screen.share(50, 20).bordered(Borders::all()),
            Direction::Vertical,
            prompt_rows(),
            parts,
        ) && after == prompt_drawn(
            framed(
                before,
                screen.share(50, 20),
                prompt_title(state::opt_view(state.ui.prompt_context)),
                Color::Cyan,
            ),
            state,
            parts,
        )
}

/// Render a centered input prompt overlay on top of the current view.
///
/// Displays the prompt label and current input text with a visible cursor.
/// The title is derived from the prompt context (e.g., "Rename Project",
/// "Set Working Directory").
pub fn render_input_prompt(canvas: &mut Canvas, screen: Rect, state: &AppState)
    requires
        screen.fits(),
    ensures
        input_prompt_drawn(old(canvas)@, screen, *state, final(canvas)@),
{
    let area = screen.centered_percent(50, 20);
    let title = if state::opt_is(&state.ui.prompt_context, "rename_project") {
        " Rename Project "
    } else if state::opt_is(&state.ui.prompt_context, "set_working_directory") {
        " Set Working Directory "
    } else {
        " Input "
    };
    canvas.clear(area);
    canvas.block(area, help::overlay_block(title, Color::Cyan));
    let inner = area.within(Borders::all());
    let rows = vec![Constraint::Length(1), Constraint::Length(3), Constraint::Length(1)];
    proof {
        assert(rows@ =~= prompt_rows());
    }
    let parts = draw::split(inner, Direction::Vertical, &rows);
    draw_input_prompt(canvas, state, &parts);
}

// ─── Confirmation dialogs ─────────────────────────────────────────────────

/// The title, message and hint of the confirmation dialog.
pub open spec fn confirm_words(state: AppState) -> (Seq<char>, Seq<char>, Seq<char>) {
    match state.ui.confirm_action {
        Some(ConfirmableAction::DeleteProject(id)) => {
            let name = match state.project_registry.slot(id@) {
                Some(i) => state.project_registry.projects@[i].name@,
                None => id@,
            };
            (
                " Delete Project "@,
                "Delete project \""@ + name + "\"?"@,
                "y: delete  |  n/Esc: cancel"@,
            )
        },
        None => (" Confirm "@, "Are you sure?"@, "y: confirm  |  n/Esc: cancel"@),
    }
}

fn words_to_confirm(state: &AppState) -> (r: (String, String, String))
    ensures
        (r.0@, r.1@, r.2@) == confirm_words(*state),
{
    match &state.ui.confirm_action {
        Some(ConfirmableAction::DeleteProject(id)) => {
            let name = match state.project_registry.position(id.as_str()) {
                Some(i) => state.project_registry.projects[i].name.clone(),
                None => id.clone(),
            };
            let mut message = text::join2("Delete project \"", name.as_str());
            message.append("\"?");
            (
                " Delete Project ".to_owned(),
                message,
                "y: delete  |  n/Esc: cancel".to_owned(),
            )
        },
        None => (
            " Confirm ".to_owned(),
            "Are you sure?".to_owned(),
            "y: confirm  |  n/Esc: cancel".to_owned(),
        ),
    }
}

/// The rows of the confirmation dialog: message and hint.
pub open spec fn confirm_rows() -> Seq<Constraint> {
    seq![Constraint::Length(1), Constraint::Length(1)]
}

/// What is drawn inside the frame of the confirmation dialog, with its rows in
/// `parts`.
pub open spec fn confirm_drawn(
    before: draw::Drawn,
    message: Seq<char>,
    hint: Seq<char>,
    parts: Seq<Rect>,
) -> draw::Drawn {
    before.push(draw::word_at(parts[0], message, Style::bold(Color::White))).push(
        draw::word_at(parts[1], hint, Style::fg(Color::DarkGray)),
    )
}

/// Draws the contents of the confirmation dialog, with its rows in `parts`.
pub fn draw_confirm_dialog(canvas: &mut Canvas, message: &str, hint: &str, parts: &Vec<Rect>)
    requires
        parts@.len() == 2,
    ensures
        final(canvas)@ == confirm_drawn(old(canvas)@, message@, hint@, parts@),
{
    canvas.word(parts[0], message, Style::bold(Color::White));
    canvas.word(parts[1], hint, Style::fg(Color::DarkGray));
}

/// Render a centered confirmation dialog overlay on top of the current view.
///
/// Displays the confirmation message and a hint with the keys. The user presses
/// `y` to confirm or `n`/`Esc` to cancel.
pub fn render_confirm_dialog(canvas: &mut Canvas, screen: Rect, state: &AppState)
    requires
        screen.fits(),
    ensures
        exists|parts: Seq<Rect>|
            #[trigger] draw::parts_of(
                screen.share(50, 20).bordered(Borders::all()),
                Direction::Vertical,
                confirm_rows(),
                parts,
            ) && final(canvas)@ == confirm_drawn(
                framed(
                    old(canvas)@,
                    screen.share(50, 20),
                    confirm_words(*state).0,
                    Color::Yellow,
                ),
                confirm_words(*state).1,
                confirm_words(*state).2,
                parts,
            ),
{
    let area = screen.centered_percent(50, 20);
    let (title, message, hint) = words_to_confirm(state);
    canvas.clear(area);
    canvas.block(area, help::overlay_block(title.as_str(), Color::Yellow));
    let inner = area.within(Borders::all());
    let rows = vec![Constraint::Length(1), Constraint::Length(1)];
    proof {
        assert(rows@ =~= confirm_rows());
    }
    let parts = draw::split(inner, Direction::Vertical, &rows);
    draw_confirm_dialog(canvas, message.as_str(), hint.as_str(), &parts);
}

/// The task that waits to be deleted.
pub open spec fn doomed(state: AppState) -> Option<CortexTask> {
    match state.ui.pending_delete_task_id {
        Some(id) => table::lookup(state.tasks@, id@),
        None => None,
    }
}

/// The task that waits to be deleted.
pub fn pending_delete(state: &AppState) -> (r: Option<&CortexTask>)
    ensures
        match r {
            Some(t) => doomed(*state) == Some(*t),
            None => doomed(*state) is None,
        },
{
    match &state.ui.pending_delete_task_id {
        Some(id) => state.tasks.get(id.as_str()),
        None => None,
    }
}

/// What the dialog asks before it deletes a task.
pub open spec fn delete_question(task_desc: Seq<char>) -> Seq<char> {
    "Delete task \""@ + task_desc + "\"?\n\n  y — confirm    n / Esc — cancel"@
}

/// Where the dialog stands: seven rows and half of the columns in the middle.
pub open spec fn delete_dialog_area(area: Rect) -> Rect {
    area.middle(
        (area.width * 50 / 100) as u16,
        if area.height < 7 {
            area.height
        } else {
            7
        },
    )
}

/// The dialog that asks before it deletes a task.
pub open spec fn delete_dialog(area: Rect, task_desc: Seq<char>) -> Draw<
    Seq<char>,
    draw::TextView,
> {
    Draw::Text {
        area: delete_dialog_area(area),
        lines: draw::raw(text::lines_of(delete_question(task_desc))),
        style: Style::fg(Color::Yellow),
        centered: true,
        wrap: Wrap::Trim,
        block: Some(
            Block::<Seq<char>>::new(Borders::all(), Style::plain()).titled(
                draw::sp(" Confirm Delete "@, Style::plain()),
            ),
        ),
    }
}

/// Render a centered confirmation dialog for task deletion. `task_desc` is the
/// title of the task that waits to be deleted, empty if there is none.
pub fn render_confirm_delete_dialog(canvas: &mut Canvas, area: Rect, task_desc: &str)
    requires
        area.fits(),
    ensures
        final(canvas)@ == old(canvas)@.push(delete_dialog(area, task_desc@)),
{
    let mut question = text::join2("Delete task \"", task_desc);
    question.append("\"?\n\n  y — confirm    n / Esc — cancel");
    let width: u16 = draw::hundredths(area.width, 50);
    let height: u16 = if area.height < 7 {
        area.height
    } else {
        7
    };
    canvas.put(
        Draw::Text {
            area: area.centered(width, height),
            lines: Lines::raw(question.as_str()),
            style: Style::fg(Color::Yellow),
            centered: true,
            wrap: Wrap::Trim,
            block: Some(
                Block::new(Borders::all(), Style::plain()).titled(
                    draw::span(" Confirm Delete ", Style::plain()),
                ),
            ),
        },
    );
}

// ─── Archive ──────────────────────────────────────────────────────────────

/// The entries of the archive: the ids of the archived tasks, or a line that
/// says that there are none.
pub open spec fn archive_lines(archived: Seq<Seq<char>>) -> draw::TextView {
    if archived.len() == 0 {
        draw::only(
            draw::blank().push(draw::sp("No archived tasks"@, Style::fg(Color::DarkGray))),
        )
    } else {
        draw::raw(archived)
    }
}

fn list_archived(archived: &Vec<String>) -> (r: Lines)
    ensures
        r@ == archive_lines(text::texts(archived@)),
{
    if archived.len() == 0 {
        return Lines::of(Line::of("No archived tasks", Style::fg(Color::DarkGray)));
    }
    let ghost want = draw::raw(text::texts(archived@));
    let mut out = Lines::new();
    let mut i: usize = 0;
    while i < archived.len()
        invariant
            i <= archived@.len(),
            want == draw::raw(text::texts(archived@)),
            out@ == want.take(i as int),
        decreases archived@.len() - i,
    {
        out.push(Line::of(archived[i].as_str(), Style::plain()));
        proof {
            assert(text::texts(archived@)[i as int] == archived@[i as int]@);
            assert(want.take(i + 1) =~= want.take(i as int).push(want[i as int]));
        }
        i += 1;
    }
    proof {
        assert(want.take(i as int) =~= want);
    }
    out
}

/// The list of archived tasks.
pub open spec fn archive_list(area: Rect, archived: Seq<Seq<char>>) -> Draw<
    Seq<char>,
    draw::TextView,
> {
    Draw::List {
        area,
        lines: archive_lines(archived),
        block: Block::<Seq<char>>::new(Borders::all(), Style::plain()).titled(
            draw::sp(" Archive "@, Style::plain()),
        ).styled(Style::fg(Color::Cyan)),
    }
}

/// Render the archive viewer panel: the archived tasks of the active project.
pub fn render_archive_viewer(canvas: &mut Canvas, area: Rect, archived: &Vec<String>)
    ensures
        final(canvas)@ == old(canvas)@.push(archive_list(area, text::texts(archived@))),
{
    canvas.put(
        Draw::List {
            area,
            lines: list_archived(archived),
            block: Block::new(Borders::all(), Style::plain()).titled(
                draw::span(" Archive ", Style::plain()),
            ).styled(Style::fg(Color::Cyan)),
        },
    );
}

/// The question before a project is deleted names the project, and the one before
/// a task is deleted names the task.
pub proof fn law_questions_name_what_is_deleted(
    state: AppState,
    id: String,
    k: int,
    task_desc: Seq<char>,
)
    requires
        state.ui.confirm_action == Some(ConfirmableAction::DeleteProject(id)),
        state.project_registry.slot(id@) == Some(k),
    ensures
        confirm_words(state).1 == "Delete project \""@ + state.project_registry.projects@[k].name@
            + "\"?"@,
        text::begins(delete_question(task_desc), "Delete task \""@ + task_desc + "\"?"@),
{
    reveal_strlit("\"?");
    reveal_strlit("\"?\n\n  y — confirm    n / Esc — cancel");
    let head = "Delete task \""@ + task_desc + "\"?"@;
    assert(delete_question(task_desc).subrange(0, head.len() as int) =~= head);
}

/// The task that waits to be deleted is the one that was asked about.
pub proof fn law_doomed_task_is_the_one_asked_about(state: AppState, id: String)
    requires
        state.ui.pending_delete_task_id == Some(id),
        state.tasks@.contains_key(id@),
    ensures
        doomed(state) == Some(state.tasks@[id@]),
{
}

/// A prompt is titled by what it asks for.
pub proof fn law_prompts_are_titled(context: Option<Seq<char>>)
    ensures
        prompt_title(context) == " Rename Project "@ <==> context == Some("rename_project"@),
        prompt_title(context) == " Set Working Directory "@ <==> context == Some(
            "set_working_directory"@,
        ),
{
    reveal_strlit(" Rename Project ");
    reveal_strlit(" Set Working Directory ");
    reveal_strlit(" Input ");
    reveal_strlit("rename_project");
    reveal_strlit("set_working_directory");
    assert(" Rename Project "@.len() != " Set Working Directory "@.len());
    assert(" Rename Project "@.len() != " Input "@.len());
    assert(" Set Working Directory "@.len() != " Input "@.len());
    assert("rename_project"@.len() != "set_working_directory"@.len());
}

} // verus!
