//! The editor for the configuration file.

use vstd::prelude::*;
use crate::draw;
use crate::draw::{
    Block, Borders, Canvas, Color, Constraint, Direction, Draw, Line, Lines, Rect, Span, Style,
};
use crate::page;
use crate::page::CursorDirection;
use crate::text;
use crate::text::Cut;

verus! {

/// The state of the configuration editor.
#[derive(Debug, PartialEq, Eq)]
pub struct ConfigEditorState {
    pub lines: Vec<String>,
    pub cursor_row: usize,
    pub cursor_col: usize,
    pub scroll_offset: usize,
    pub has_unsaved_changes: bool,
    pub validation_error: Option<String>,
    pub config_path: String,
}

/// `a` and `b` differ at most in the text, the cursor and the flag on unsaved
/// changes.
pub open spec fn same_but_lines(a: ConfigEditorState, b: ConfigEditorState) -> bool {
    b == (ConfigEditorState {
        lines: b.lines,
        cursor_row: b.cursor_row,
        cursor_col: b.cursor_col,
        has_unsaved_changes: b.has_unsaved_changes,
        ..a
    })
}

impl ConfigEditorState {
    /// The text and the cursor.
    pub open spec fn page(&self) -> page::Page {
        page::page_of(self.lines@, self.cursor_row, self.cursor_col)
    }

    /// An editor over the contents of the file at `config_path`.
    pub fn from_content(config_path: &str, content: &str) -> (r: Self)
        ensures
            r.page() == (page::Page {
                lines: text::pieces(content@, Cut::At('\n')),
                row: 0,
                col: 0,
            }),
            r.scroll_offset == 0,
            !r.has_unsaved_changes,
            r.validation_error is None,
            r.config_path@ == config_path@,
    {
        ConfigEditorState {
            lines: text::split(content, Cut::At('\n')),
            cursor_row: 0,
            cursor_col: 0,
            scroll_offset: 0,
            has_unsaved_changes: false,
            validation_error: None,
            config_path: config_path.to_owned(),
        }
    }

    /// The whole text.
    pub fn content(&self) -> (r: String)
        ensures
            r@ == page::joined(self.page().lines),
    {
        page::join_lines(&self.lines)
    }

    /// Types a character at the cursor.
    pub fn insert_char(&mut self, ch: char)
        ensures
            final(self).page() == old(self).page().typed(ch),
            final(self).has_unsaved_changes,
            same_but_lines(*old(self), *final(self)),
    {
        let (row, col) = page::type_char(&mut self.lines, self.cursor_row, self.cursor_col, ch);
        self.cursor_row = row;
        self.cursor_col = col;
        self.has_unsaved_changes = true;
    }

    /// Breaks the line at the cursor.
    pub fn insert_newline(&mut self)
        ensures
            final(self).page() == old(self).page().broken(),
            final(self).has_unsaved_changes,
            same_but_lines(*old(self), *final(self)),
    {
        let (row, col) = page::break_line(&mut self.lines, self.cursor_row, self.cursor_col);
        self.cursor_row = row;
        self.cursor_col = col;
        self.has_unsaved_changes = true;
    }

    /// Deletes what stands before the cursor.
    pub fn delete_char_back(&mut self)
        ensures
            final(self).page() == old(self).page().erased_back(),
            final(self).has_unsaved_changes == (old(self).has_unsaved_changes || old(
                self,
            ).page().has_before()),
            same_but_lines(*old(self), *final(self)),
    {
        let (row, col, changed) = page::erase_back(
            &mut self.lines,
            self.cursor_row,
            self.cursor_col,
        );
        self.cursor_row = row;
        self.cursor_col = col;
        if changed {
            self.has_unsaved_changes = true;
        }
    }

    /// Deletes what stands behind the cursor.
    pub fn delete_char_forward(&mut self)
        ensures
            final(self).page() == old(self).page().erased_forward(),
            final(self).has_unsaved_changes == (old(self).has_unsaved_changes || old(
                self,
            ).page().has_behind()),
            same_but_lines(*old(self), *final(self)),
    {
        let (row, col, changed) = page::erase_forward(
            &mut self.lines,
            self.cursor_row,
            self.cursor_col,
        );
        self.cursor_row = row;
        self.cursor_col = col;
        if changed {
            self.has_unsaved_changes = true;
        }
    }

    /// Moves the cursor.
    pub fn move_cursor(&mut self, direction: CursorDirection)
        ensures
            final(self).page() == old(self).page().moved(direction),
            final(self).has_unsaved_changes == old(self).has_unsaved_changes,
            same_but_lines(*old(self), *final(self)),
    {
        let (row, col) = page::move_to(
            &mut self.lines,
            self.cursor_row,
            self.cursor_col,
            direction,
        );
        self.cursor_row = row;
        self.cursor_col = col;
    }
}

// ─── Drawing ──────────────────────────────────────────────────────────────

/// Width of the line-number gutter.
pub const LINE_NUM_WIDTH: u16 = 5;

/// The first row to show so that the cursor is among the `height` rows shown,
/// as close to `scroll` as that allows.
pub open spec fn shown_from(row: usize, scroll: usize, height: usize) -> usize {
    if row < scroll {
        row
    } else if height > 0 && row >= scroll + height {
        (row - height + 1) as usize
    } else {
        scroll
    }
}

/// The row of the cursor is among the rows that are shown.
pub proof fn law_cursor_is_shown(row: usize, scroll: usize, height: usize)
    requires
        height > 0,
    ensures
        shown_from(row, scroll, height) <= row < shown_from(row, scroll, height) + height,
{
}

impl ConfigEditorState {
    /// The first row to show so that the cursor is visible.
    pub fn first_visible(&self, height: usize) -> (r: usize)
        ensures
            r == shown_from(self.cursor_row, self.scroll_offset, height),
            r <= self.cursor_row,
    {
        if self.cursor_row < self.scroll_offset {
            self.cursor_row
        } else if height > 0 && self.cursor_row - self.scroll_offset >= height {
            self.cursor_row - height + 1
        } else {
            self.scroll_offset
        }
    }

    /// Scrolls so that the cursor is visible in the given number of rows.
    pub fn ensure_cursor_visible(&mut self, height: usize)
        ensures
            *final(self) == (ConfigEditorState {
                scroll_offset: shown_from(old(self).cursor_row, old(self).scroll_offset, height),
                ..*old(self)
            }),
    {
        self.scroll_offset = self.first_visible(height);
    }
}

/// The number of line `i`, at the right of the gutter.
pub open spec fn gutter(i: int) -> Seq<char> {
    text::right_aligned(text::decimal((i + 1) as nat), 4) + " "@
}

/// The part of the line that fits, with a block where the cursor is.
pub open spec fn with_cursor(line: Seq<char>, col: usize, width: int) -> Seq<char> {
    let shown = text::first(line, width);
    let at = if col < shown.len() {
        col as int
    } else {
        shown.len() as int
    };
    shown.take(at).push('▊') + shown.skip(at)
}

/// Line `i` as it is shown, with its number before it.
pub open spec fn editor_line(e: ConfigEditorState, i: int, width: int) -> Seq<Span<Seq<char>>> {
    let line = e.lines@[i]@;
    if i == e.cursor_row {
        draw::blank().push(draw::sp(gutter(i), Style::fg(Color::Cyan))).push(
            draw::sp(with_cursor(line, e.cursor_col, width), Style::fg(Color::White)),
        )
    } else {
        draw::blank().push(draw::sp(gutter(i), Style::fg(Color::DarkGray))).push(
            draw::sp(text::first(line, width), Style::plain()),
        )
    }
}

/// How many of `total` lines are shown from `first` on in `height` rows.
pub open spec fn rows_shown(total: nat, first: usize, height: u16) -> nat {
    if first >= total {
        0
    } else if total - first < height {
        (total - first) as nat
    } else {
        height as nat
    }
}

/// The lines that are shown.
pub open spec fn editor_lines(e: ConfigEditorState, first: usize, area: Rect) -> draw::TextView {
    let width = if area.width > 6 {
        area.width - 6
    } else {
        0
    };
    Seq::new(
        rows_shown(e.lines@.len(), first, area.height),
        |k: int| editor_line(e, first + k, width),
    )
}

/// Where the cursor of the terminal stands, unless that is outside of the area.
pub open spec fn cursor_cell(e: ConfigEditorState, first: usize, area: Rect) -> Option<(u16, u16)> {
    let line = if e.cursor_row < e.lines@.len() {
        e.lines@[e.cursor_row as int]@
    } else {
        Seq::empty()
    };
    let col = if e.cursor_col < line.len() {
        e.cursor_col as int
    } else {
        line.len() as int
    };
    let x = area.x + LINE_NUM_WIDTH + col % 65536;
    let y = area.y + (e.cursor_row - first) % 65536;
    if y < area.y + area.height && x < area.x + area.width {
        Some((x as u16, y as u16))
    } else {
        None
    }
}

/// The text of the status line and how it looks: an error, or that there are
/// unsaved changes, and the row of the cursor.
pub open spec fn editor_status(e: ConfigEditorState) -> (Seq<char>, Style) {
    let place = "Line "@ + text::decimal((e.cursor_row + 1) as nat) + "/"@ + text::decimal(
        e.lines@.len(),
    ) + " "@;
    match e.validation_error {
        Some(error) => (
            " Error: "@ + error@ + " "@,
            Style::on(Color::Black, Color::Red),
        ),
        None => if e.has_unsaved_changes {
            (" Unsaved changes | "@ + place, Style::on(Color::Black, Color::Yellow))
        } else {
            (" "@ + place, Style::on(Color::DarkGray, Color::Rgb(60, 64, 80)))
        },
    }
}

/// The frame of the editor.
pub open spec fn editor_block(path: Seq<char>) -> Block<Seq<char>> {
    Block::<Seq<char>>::new(Borders::all(), Style::fg(Color::Cyan)).rounded().titled(
        draw::sp(" Config Editor: "@ + path + " "@, Style::bold(Color::Cyan)),
    )
}

/// The rows of the editor: text, status and help.
pub open spec fn editor_rows() -> Seq<Constraint> {
    seq![Constraint::Min(0), Constraint::Length(1), Constraint::Length(1)]
}

/// What is drawn inside the frame of the editor, with its rows in `parts`.
pub open spec fn editor_drawn(
    before: draw::Drawn,
    e: ConfigEditorState,
    parts: Seq<Rect>,
) -> draw::Drawn {
    let first = shown_from(e.cursor_row, e.scroll_offset, parts[0].height as usize);
    let shown = before.push(
        draw::text_at(parts[0], editor_lines(e, first, parts[0]), Style::plain()),
    );
    let pointed = match cursor_cell(e, first, parts[0]) {
        Some((x, y)) => shown.push(Draw::Cursor { x, y }),
        None => shown,
    };
    pointed.push(draw::word_at(parts[1], editor_status(e).0, editor_status(e).1)).push(
        draw::word_at(
            parts[2],
            "Ctrl+S: save & reload  Esc: cancel (discard)  Tab: indent  ↑↓←→: navigate"@,
            Style::fg(Color::DarkGray),
        ),
    )
}

fn gutter_of(i: usize) -> (r: String)
    ensures
        r@ == gutter(i as int),
{
    text::join2(text::pad_left(text::dec_wide(i as u128 + 1).as_str(), 4).as_str(), " ")
}

fn cut_with_cursor(line: &str, col: usize, width: usize) -> (r: String)
    ensures
        r@ == with_cursor(line@, col, width as int),
{
    let shown = text::chars_of(text::take(line, width).as_str());
    let at: usize = if col < shown.len() {
        col
    } else {
        shown.len()
    };
    let mut out = text::string_of(&shown, 0, at);
    out.push('▊');
    out.append(text::string_of(&shown, at, shown.len()).as_str());
    proof {
        assert(out@ =~= with_cursor(line@, col, width as int));
    }
    out
}

fn lines_shown(e: &ConfigEditorState, first: usize, area: Rect) -> (r: Lines)
    ensures
        r@ == editor_lines(*e, first, area),
{
    let width: usize = if area.width > 6 {
        (area.width - 6) as usize
    } else {
        0
    };
    let mut out = Lines::new();
    let ghost want = editor_lines(*e, first, area);
    let mut k: usize = 0;
    while first < e.lines.len() && k < e.lines.len() - first && k < area.height as usize
        invariant
            k <= want.len(),
            width == if area.width > 6 {
                area.width - 6
            } else {
                0
            },
            want == editor_lines(*e, first, area),
            out@ == want.take(k as int),
        decreases area.height - k,
    {
        let i: usize = first + k;
        let number = gutter_of(i);
        let line = e.lines[i].as_str();
        if i == e.cursor_row {
            out.push(
                Line::of(number.as_str(), Style::fg(Color::Cyan)).with(
                    cut_with_cursor(line, e.cursor_col, width).as_str(),
                    Style::fg(Color::White),
                ),
            );
        } else {
            out.push(
                Line::of(number.as_str(), Style::fg(Color::DarkGray)).with(
                    text::take(line, width).as_str(),
                    Style::plain(),
                ),
            );
        }
        proof {
            assert(want.take(k + 1) =~= want.take(k as int).push(want[k as int]));
        }
        k += 1;
    }
    proof {
        assert(want.take(k as int) =~= want);
    }
    out
}

fn find_cursor_cell(e: &ConfigEditorState, first: usize, area: Rect) -> (r: Option<(u16, u16)>)
    requires
        area.fits(),
        first <= e.cursor_row,
    ensures
        r == cursor_cell(*e, first, area),
{
    let len: usize = if e.cursor_row < e.lines.len() {
        e.lines[e.cursor_row].as_str().unicode_len()
    } else {
        0
    };
    let col: usize = if e.cursor_col < len {
        e.cursor_col
    } else {
        len
    };
    let x: u32 = area.x as u32 + LINE_NUM_WIDTH as u32 + (col % 65536) as u32;
    let y: u32 = area.y as u32 + ((e.cursor_row - first) % 65536) as u32;
    if y < area.y as u32 + area.height as u32 && x < area.x as u32 + area.width as u32 {
        Some((x as u16, y as u16))
    } else {
        None
    }
}

fn status_of(e: &ConfigEditorState) -> (r: (String, Style))
    ensures
        (r.0@, r.1) == editor_status(*e),
{
    let mut place = text::join2("Line ", text::dec_wide(e.cursor_row as u128 + 1).as_str());
    place.append("/");
    place.append(text::dec(e.lines.len() as u64).as_str());
    place.append(" ");
    match &e.validation_error {
        Some(error) => {
            let mut out = text::join2(" Error: ", error.as_str());
            out.append(" ");
            (out, Style::on(Color::Black, Color::Red))
        },
        None => {
            if e.has_unsaved_changes {
                (
                    text::join2(" Unsaved changes | ", place.as_str()),
                    Style::on(Color::Black, Color::Yellow),
                )
            } else {
                (
                    text::join2(" ", place.as_str()),
                    Style::on(Color::DarkGray, Color::Rgb(60, 64, 80)),
                )
            }
        },
    }
}

/// Draws the contents of the editor, with its rows in `parts`.
pub fn draw_config_editor(canvas: &mut Canvas, e: &ConfigEditorState, parts: &Vec<Rect>)
    requires
        parts@.len() == 3,
        parts@[0].fits(),
    ensures
        final(canvas)@ == editor_drawn(old(canvas)@, *e, parts@),
{
    let first: usize = e.first_visible(parts[0].height as usize);
    canvas.text(parts[0], lines_shown(e, first, parts[0]), Style::plain());
    match find_cursor_cell(e, first, parts[0]) {
        Some((x, y)) => {
            canvas.put(Draw::Cursor { x, y });
        },
        None => {},
    }
    let (status, style) = status_of(e);
    canvas.word(parts[1], status.as_str(), style);
    canvas.word(
        parts[2],
        "Ctrl+S: save & reload  Esc: cancel (discard)  Tab: indent  ↑↓←→: navigate",
        Style::fg(Color::DarkGray),
    );
}

/// What is drawn for the editor, for some rows of its area; nothing when it is
/// not open.
pub open spec fn config_editor_drawn(
    before: draw::Drawn,
    screen: Rect,
    editor: Option<ConfigEditorState>,
    after: draw::Drawn,
) -> bool {
    match editor {
        Some(e) => exists|parts: Seq<Rect>|
            #[trigger] draw::parts_of(
                screen.bordered(Borders::all()),
                Direction::Vertical,
                editor_rows(),
                parts,
            ) && after == editor_drawn(
                before.push(Draw::Block { area: screen, block: editor_block(e.config_path@) }),
                e,
                parts,
            ),
        None => after == before,
    }
}

/// Render the fullscreen config editor.
pub fn render_config_editor(canvas: &mut Canvas, screen: Rect, editor: &Option<ConfigEditorState>)
    requires
        screen.fits(),
    ensures
        config_editor_drawn(old(canvas)@, screen, *editor, final(canvas)@),
{
    let ghost before = canvas@;
    match editor {
        Some(e) => {
            let mut title = text::join2(" Config Editor: ", e.config_path.as_str());
            title.append(" ");
            canvas.block(
                screen,
                Block::new(Borders::all(), Style::fg(Color::Cyan)).rounded().titled(
                    draw::span(title.as_str(), Style::bold(Color::Cyan)),
                ),
            );
            let inner = screen.within(Borders::all());
            let rows = vec![Constraint::Min(0), Constraint::Length(1), Constraint::Length(1)];
            proof {
                assert(rows@ =~= editor_rows());
            }
            let parts = draw::split(inner, Direction::Vertical, &rows);
            draw_config_editor(canvas, e, &parts);
            proof {
                assert(draw::parts_of(inner, Direction::Vertical, editor_rows(), parts@));
                assert(canvas@ == editor_drawn(
                    before.push(
                        Draw::Block { area: screen, block: editor_block(e.config_path@) },
                    ),
                    *e,
                    parts@,
                ));
            }
        },
        None => {},
    }
}

/// The line of the cursor is shown with the cursor in it and otherwise unchanged:
/// without the block the part that fits is left, and the block stands before the
/// character that the cursor stands on.
pub proof fn law_cursor_stands_in_its_line(line: Seq<char>, col: usize, width: int)
    requires
        line.len() <= width,
        col <= line.len(),
    ensures
        with_cursor(line, col, width).len() == line.len() + 1,
        with_cursor(line, col, width)[col as int] == '▊',
        with_cursor(line, col, width).remove(col as int) == line,
{
    let shown = with_cursor(line, col, width);
    assert(text::first(line, width) =~= line);
    assert(shown.remove(col as int) =~= line);
}

/// Lines are numbered from one, at the right of the gutter.
pub proof fn law_gutter_counts_from_one(i: int)
    requires
        0 <= i < 9999,
    ensures
        text::ends(gutter(i), text::decimal((i + 1) as nat) + " "@),
{
    reveal_strlit(" ");
    let d = text::decimal((i + 1) as nat) + " "@;
    let g = gutter(i);
    let at = g.len() - d.len();
    assert(g.subrange(at, at + d.len()) =~= d);
}

} // verus!
