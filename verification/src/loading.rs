//! Loading screen shown during startup: a title and a status message with a
//! spinner, in the middle of the screen.

use vstd::prelude::*;
use crate::draw;
use crate::draw::{Canvas, Color, Constraint, Direction, Rect, Style};

verus! {

/// How many pictures the spinner has.
pub const SPINNER_FRAMES: usize = 10;

/// Picture `i` of the spinner.
pub open spec fn spinner(i: int) -> char {
    if i == 0 {
        '⠋'
    } else if i == 1 {
        '⠙'
    } else if i == 2 {
        '⠹'
    } else if i == 3 {
        '⠸'
    } else if i == 4 {
        '⠼'
    } else if i == 5 {
        '⠴'
    } else if i == 6 {
        '⠦'
    } else if i == 7 {
        '⠧'
    } else if i == 8 {
        '⠇'
    } else {
        '⠏'
    }
}

fn spinner_char(i: usize) -> (r: char)
    ensures
        r == spinner(i as int),
{
    if i == 0 {
        '⠋'
    } else if i == 1 {
        '⠙'
    } else if i == 2 {
        '⠹'
    } else if i == 3 {
        '⠸'
    } else if i == 4 {
        '⠼'
    } else if i == 5 {
        '⠴'
    } else if i == 6 {
        '⠦'
    } else if i == 7 {
        '⠧'
    } else if i == 8 {
        '⠇'
    } else {
        '⠏'
    }
}

/// The status line: the spinner and the message.
pub open spec fn status_line(message: Seq<char>, spinner_index: usize) -> Seq<char> {
    Seq::empty().push(spinner(spinner_index as int % SPINNER_FRAMES as int)) + " "@ + message
}

/// The status line: the spinner and the message.
pub fn status_text(message: &str, spinner_index: usize) -> (r: String)
    ensures
        r@ == status_line(message@, spinner_index),
{
    let mut out = String::new();
    out.push(spinner_char(spinner_index % SPINNER_FRAMES));
    out.append(" ");
    out.append(message);
    proof {
        assert(out@ =~= status_line(message@, spinner_index));
    }
    out
}

/// The rows of the screen: two in the middle.
pub open spec fn loading_rows() -> Seq<Constraint> {
    seq![Constraint::Fill(1), Constraint::Length(1), Constraint::Length(1), Constraint::Fill(1)]
}

/// The columns of a row with a text in its middle.
pub open spec fn loading_columns(s: Seq<char>) -> Seq<Constraint> {
    seq![Constraint::Fill(1), Constraint::Length(draw::columns_of(s) as u16), Constraint::Fill(1)]
}

fn middle_of(row: Rect, s: &str) -> (r: Rect)
    ensures
        exists|parts: Seq<Rect>|
            #[trigger] draw::parts_of(row, Direction::Horizontal, loading_columns(s@), parts) && r
                == parts[1],
{
    let width: u16 = #[verifier::truncate]
    (draw::width_of(s) as u16);
    let columns = vec![Constraint::Fill(1), Constraint::Length(width), Constraint::Fill(1)];
    proof {
        assert(columns@ =~= loading_columns(s@));
    }
    let parts = draw::split(row, Direction::Horizontal, &columns);
    parts[1]
}

/// What is drawn on the loading screen, with the title and the status line at
/// the given places.
pub open spec fn loading_drawn(
    before: draw::Drawn,
    message: Seq<char>,
    spinner_index: usize,
    title_area: Rect,
    status_area: Rect,
) -> draw::Drawn {
    before.push(draw::word_at(title_area, "Cortex"@, Style::bold(Color::Cyan))).push(
        draw::word_at(status_area, status_line(message, spinner_index), Style::fg(Color::Gray)),
    )
}

/// Draws the title and the status line at the given places.
pub fn draw_loading_frame(
    canvas: &mut Canvas,
    message: &str,
    spinner_index: usize,
    title_area: Rect,
    status_area: Rect,
)
    ensures
        final(canvas)@ == loading_drawn(
            old(canvas)@,
            message@,
            spinner_index,
            title_area,
            status_area,
        ),
{
    canvas.word(title_area, "Cortex", Style::bold(Color::Cyan));
    canvas.word(
        status_area,
        status_text(message, spinner_index).as_str(),
        Style::fg(Color::Gray),
    );
}

/// The middle of row `i`, for a text in it.
pub open spec fn stands_in(rows: Seq<Rect>, i: int, s: Seq<char>, area: Rect) -> bool {
    exists|parts: Seq<Rect>|
        #[trigger] draw::parts_of(rows[i], Direction::Horizontal, loading_columns(s), parts) && area
            == parts[1]
}

/// What holds of the places of the title and the status line: they are the
/// middles of the two middle rows of the screen.
pub open spec fn loading_places(
    screen: Rect,
    message: Seq<char>,
    spinner_index: usize,
    title_area: Rect,
    status_area: Rect,
) -> bool {
    exists|rows: Seq<Rect>|
        #[trigger] draw::parts_of(screen, Direction::Vertical, loading_rows(), rows) && stands_in(
            rows,
            1,
            "Cortex"@,
            title_area,
        ) && stands_in(rows, 2, status_line(message, spinner_index), status_area)
}

/// Render a centered loading screen with a spinner animation.
///
/// Draws a branded "Cortex" title and the provided status message with a
/// rotating braille spinner, both horizontally and vertically centered
/// in the terminal.
pub fn render_loading_frame(
    canvas: &mut Canvas,
    screen: Rect,
    message: &str,
    spinner_index: usize,
)
    ensures
        exists|title_area: Rect, status_area: Rect|
            #[trigger] loading_places(screen, message@, spinner_index, title_area, status_area)
                && final(canvas)@ == loading_drawn(
                old(canvas)@,
                message@,
                spinner_index,
                title_area,
                status_area,
            ),
{
    let wanted = vec![
        Constraint::Fill(1),
        Constraint::Length(1),
        Constraint::Length(1),
        Constraint::Fill(1),
    ];
    proof {
        assert(wanted@ =~= loading_rows());
    }
    let rows = draw::split(screen, Direction::Vertical, &wanted);
    let title_area = middle_of(rows[1], "Cortex");
    let status_area = middle_of(rows[2], status_text(message, spinner_index).as_str());
    draw_loading_frame(canvas, message, spinner_index, title_area, status_area);
    proof {
        assert(stands_in(rows@, 1, "Cortex"@, title_area));
        assert(stands_in(rows@, 2, status_line(message@, spinner_index), status_area));
        assert(loading_places(screen, message@, spinner_index, title_area, status_area));
    }
}

/// Advance the spinner index by one step.
pub fn advance_spinner(index: usize) -> (r: usize)
    requires
        index < usize::MAX,
    ensures
        r == (index + 1) % SPINNER_FRAMES as int,
        r < SPINNER_FRAMES,
{
    (index + 1) % SPINNER_FRAMES
}

/// The index after `n` steps from `index`.
pub open spec fn advanced(index: int, n: nat) -> int
    decreases n,
{
    if n == 0 {
        index
    } else {
        (advanced(index, (n - 1) as nat) + 1) % SPINNER_FRAMES as int
    }
}

/// After ten steps the spinner shows the same picture again, and no picture
/// comes twice on the way.
pub proof fn law_spinner_goes_round(index: int, i: nat, j: nat)
    requires
        0 <= index < SPINNER_FRAMES,
        i < j <= SPINNER_FRAMES,
    ensures
        spinner(advanced(index, i)) == spinner(advanced(index, j)) <==> j - i == SPINNER_FRAMES,
{
    lemma_advanced(index, i);
    lemma_advanced(index, j);
}

proof fn lemma_advanced(index: int, n: nat)
    requires
        0 <= index < SPINNER_FRAMES,
        n <= SPINNER_FRAMES,
    ensures
        advanced(index, n) == (index + n) % SPINNER_FRAMES as int,
    decreases n,
{
    if n > 0 {
        lemma_advanced(index, (n - 1) as nat);
    }
}

} // verus!
