//! What the views put on the screen: areas, styles, and lists of things to
//! draw, in order.

use ratatui::layout::{Constraint as Size, Direction as Axis, Layout, Rect as Cells};
use vstd::prelude::*;
use crate::text;

verus! {

// ─── Areas ────────────────────────────────────────────────────────────────

/// A rectangle of terminal cells.
#[derive(Clone, Copy, Debug, PartialEq, Eq, Structural)]
pub struct Rect {
    pub x: u16,
    pub y: u16,
    pub width: u16,
    pub height: u16,
}

/// Which sides of a block have a border.
#[derive(Clone, Copy, Debug, PartialEq, Eq, Structural)]
pub struct Borders {
    pub top: bool,
    pub right: bool,
    pub bottom: bool,
    pub left: bool,
}

impl Borders {
    /// A border on every side.
    #[verifier::allow_in_spec]
    pub fn all() -> Self
        returns
            (Borders { top: true, right: true, bottom: true, left: true }),
    {
        Borders { top: true, right: true, bottom: true, left: true }
    }

    /// A border at the top only.
    #[verifier::allow_in_spec]
    pub fn top() -> Self
        returns
            (Borders { top: true, right: false, bottom: false, left: false }),
    {
        Borders { top: true, right: false, bottom: false, left: false }
    }

    /// Borders everywhere but at the bottom.
    #[verifier::allow_in_spec]
    pub fn open_below() -> Self
        returns
            (Borders { top: true, right: true, bottom: false, left: true }),
    {
        Borders { top: true, right: true, bottom: false, left: true }
    }

    /// Borders everywhere but at the top.
    #[verifier::allow_in_spec]
    pub fn open_above() -> Self
        returns
            (Borders { top: false, right: true, bottom: true, left: true }),
    {
        Borders { top: false, right: true, bottom: true, left: true }
    }
}

/// `n` less one, but not below zero.
pub open spec fn less_one(n: u16, by: bool) -> u16 {
    if by && n > 0 {
        (n - 1) as u16
    } else {
        n
    }
}

impl Rect {
    /// Whether every cell of the rectangle has coordinates that a terminal can
    /// address.
    pub open spec fn fits(self) -> bool {
        self.x + self.width <= u16::MAX && self.y + self.height <= u16::MAX
    }

    /// Whether `self` lies inside `area`.
    pub open spec fn inside(self, area: Rect) -> bool {
        &&& area.x <= self.x && self.x + self.width <= area.x + area.width
        &&& area.y <= self.y && self.y + self.height <= area.y + area.height
    }

    /// What a block with these borders leaves of the rectangle: a border takes
    /// one row or column, where there is one.
    pub open spec fn bordered(self, b: Borders) -> Rect {
        Rect {
            x: if b.left && self.width > 0 {
                (self.x + 1) as u16
            } else {
                self.x
            },
            y: if b.top && self.height > 0 {
                (self.y + 1) as u16
            } else {
                self.y
            },
            width: less_one(less_one(self.width, b.left), b.right),
            height: less_one(less_one(self.height, b.top), b.bottom),
        }
    }

    /// What a block with these borders leaves of the rectangle.
    pub fn within(self, b: Borders) -> (r: Rect)
        requires
            self.fits(),
        ensures
            r == self.bordered(b),
            r.fits(),
            r.inside(self),
    {
        let mut r = self;
        if b.left && r.width > 0 {
            r.x = r.x + 1;
            r.width = r.width - 1;
        }
        if b.top && r.height > 0 {
            r.y = r.y + 1;
            r.height = r.height - 1;
        }
        if b.right && r.width > 0 {
            r.width = r.width - 1;
        }
        if b.bottom && r.height > 0 {
            r.height = r.height - 1;
        }
        r
    }

    /// The rectangle without its first and last column, or nothing at all when
    /// it is narrower than that.
    pub open spec fn narrowed(self) -> Rect {
        if self.width < 2 {
            Rect { x: 0, y: 0, width: 0, height: 0 }
        } else {
            Rect { x: (self.x + 1) as u16, width: (self.width - 2) as u16, ..self }
        }
    }

    /// The rectangle without its first and last column, or nothing at all when
    /// it is narrower than that.
    pub fn narrow(self) -> (r: Rect)
        requires
            self.fits(),
        ensures
            r == self.narrowed(),
            r.fits(),
    {
        if self.width < 2 {
            Rect { x: 0, y: 0, width: 0, height: 0 }
        } else {
            Rect { x: self.x + 1, width: self.width - 2, ..self }
        }
    }

    /// The row at height `y` of the rectangle's columns.
    #[verifier::allow_in_spec]
    pub fn row(self, y: u16) -> Rect
        returns
            (Rect { x: self.x, y, width: self.width, height: 1 }),
    {
        Rect { x: self.x, y, width: self.width, height: 1 }
    }

    /// A rectangle of the given size in the middle of `self`; it starts at the
    /// corner of `self` where it is larger.
    pub open spec fn middle(self, width: u16, height: u16) -> Rect {
        Rect {
            x: if width < self.width {
                (self.x + (self.width - width) / 2) as u16
            } else {
                self.x
            },
            y: if height < self.height {
                (self.y + (self.height - height) / 2) as u16
            } else {
                self.y
            },
            width,
            height,
        }
    }

    /// A rectangle in the middle of `self`, no larger than `self`.
    pub fn centered(self, width: u16, height: u16) -> (r: Rect)
        requires
            self.fits(),
            width <= self.width,
            height <= self.height,
        ensures
            r == self.middle(width, height),
            r.fits(),
            r.inside(self),
    {
        Rect {
            x: self.x + (self.width - width) / 2,
            y: self.y + (self.height - height) / 2,
            width,
            height,
        }
    }

    /// A rectangle in the middle of `self` with that many hundredths of its
    /// width and height.
    pub open spec fn share(self, percent_x: u16, percent_y: u16) -> Rect {
        self.middle(
            (self.width * percent_x / 100) as u16,
            (self.height * percent_y / 100) as u16,
        )
    }

    /// A rectangle in the middle of `self` with that many hundredths of its
    /// width and height.
    pub fn centered_percent(self, percent_x: u16, percent_y: u16) -> (r: Rect)
        requires
            self.fits(),
            percent_x <= 100,
            percent_y <= 100,
        ensures
            r == self.share(percent_x, percent_y),
            r.fits(),
            r.inside(self),
    {
        let width: u16 = hundredths(self.width, percent_x);
        let height: u16 = hundredths(self.height, percent_y);
        self.centered(width, height)
    }
}

/// `percent` hundredths of `n`, rounded down.
pub fn hundredths(n: u16, percent: u16) -> (r: u16)
    requires
        percent <= 100,
    ensures
        r == n * percent / 100,
        r <= n,
{
    assert(0 <= n * percent <= n * 100) by (nonlinear_arith)
        requires
            0 <= percent <= 100,
            0 <= n,
    ;
    assert(n * 100 <= 6553500);
    ((n as u32 * percent as u32) / 100) as u16
}

// ─── Splitting an area ────────────────────────────────────────────────────

/// Along which axis an area is split.
#[derive(Clone, Copy, Debug, PartialEq, Eq, Structural)]
pub enum Direction {
    Horizontal,
    Vertical,
}

/// How large a part of a split area should be.
#[derive(Clone, Copy, Debug, PartialEq, Eq, Structural)]
pub enum Constraint {
    Min(u16),
    Length(u16),
    Percentage(u16),
    Fill(u16),
}

/// Whether `Layout::split` may cut `area` into `parts` for these constraints.
pub uninterp spec fn may_split(
    area: Rect,
    direction: Direction,
    constraints: Seq<Constraint>,
    parts: Seq<Rect>,
) -> bool;

/// What holds of the parts of a split area, whatever their sizes: they are what
/// the layout may give for the constraints, one for each of them, each lies
/// inside the area and spans it across the direction of the split, and each has
/// coordinates that a terminal can address.
pub open spec fn parts_of(
    area: Rect,
    direction: Direction,
    constraints: Seq<Constraint>,
    parts: Seq<Rect>,
) -> bool {
    &&& may_split(area, direction, constraints, parts)
    &&& parts.len() == constraints.len()
    &&& forall|i: int|
        0 <= i < parts.len() ==> match direction {
            Direction::Horizontal => {
                &&& (#[trigger] parts[i]).y == area.y && parts[i].height == area.height
                &&& area.x <= parts[i].x
                &&& parts[i].x + parts[i].width <= area.x + area.width
                &&& parts[i].x + parts[i].width <= u16::MAX
            },
            Direction::Vertical => {
                &&& parts[i].x == area.x && parts[i].width == area.width
                &&& area.y <= parts[i].y
                &&& parts[i].y + parts[i].height <= area.y + area.height
                &&& parts[i].y + parts[i].height <= u16::MAX
            },
        }
}

/// Splits an area with `ratatui::layout::Layout::split`, with the layout's
/// default margin, spacing and flex.
///
/// There is one part for each constraint. A part keeps the position and size
/// of the area across the direction of the split. Along it a part starts and
/// ends inside the area, which the layout requires of its solver, and within the
/// coordinates that a terminal can address. Where inside the area that is, is
/// left unsaid: the solver weighs the constraints against each other, walking
/// hash maps, and its documentation calls the result indeterminate where they
/// conflict. That the parts came of just this area, direction and constraints is
/// kept as `may_split`.
#[verifier::external_body]
pub(crate) fn split(area: Rect, direction: Direction, constraints: &Vec<Constraint>) -> (r: Vec<
    Rect,
>)
    ensures
        may_split(area, direction, constraints@, r@),
        parts_of(area, direction, constraints@, r@),
{
    let axis = match direction {
        Direction::Horizontal => Axis::Horizontal,
        Direction::Vertical => Axis::Vertical,
    };
    let sizes = constraints.iter().map(|c| match *c {
        Constraint::Min(n) => Size::Min(n),
        Constraint::Length(n) => Size::Length(n),
        Constraint::Percentage(n) => Size::Percentage(n),
        Constraint::Fill(n) => Size::Fill(n),
    });
    let whole = Cells { x: area.x, y: area.y, width: area.width, height: area.height };
    let parts = Layout::default().direction(axis).constraints(sizes).split(whole);
    parts.iter().map(|p| Rect { x: p.x, y: p.y, width: p.width, height: p.height }).collect()
}

/// How many terminal columns a text takes.
pub uninterp spec fn columns_of(s: Seq<char>) -> nat;

/// How many terminal columns a line with the one text `s` takes:
/// `ratatui::text::Line::width`.
#[verifier::external_body]
pub(crate) fn width_of(s: &str) -> (r: usize)
    ensures
        r == columns_of(s@),
{
    ratatui::text::Line::from(ratatui::text::Span::raw(s)).width()
}

// ─── Styles ───────────────────────────────────────────────────────────────

/// A color of the terminal.
#[derive(Clone, Copy, Debug, PartialEq, Eq, Structural)]
pub enum Color {
    Reset,
    Black,
    Red,
    Green,
    Yellow,
    Blue,
    Cyan,
    Gray,
    DarkGray,
    White,
    Rgb(u8, u8, u8),
}

/// How text or a block looks. Without a color the one beneath stays.
#[derive(Clone, Copy, Debug, PartialEq, Eq, Structural)]
pub struct Style {
    pub fg: Option<Color>,
    pub bg: Option<Color>,
    pub bold: bool,
}

impl Style {
    /// No color and no emphasis.
    #[verifier::allow_in_spec]
    pub fn plain() -> Self
        returns
            (Style { fg: None, bg: None, bold: false }),
    {
        Style { fg: None, bg: None, bold: false }
    }

    /// Text in a color.
    #[verifier::allow_in_spec]
    pub fn fg(color: Color) -> Self
        returns
            (Style { fg: Some(color), bg: None, bold: false }),
    {
        Style { fg: Some(color), bg: None, bold: false }
    }

    /// Bold text in a color.
    #[verifier::allow_in_spec]
    pub fn bold(color: Color) -> Self
        returns
            (Style { fg: Some(color), bg: None, bold: true }),
    {
        Style { fg: Some(color), bg: None, bold: true }
    }

    /// A background.
    #[verifier::allow_in_spec]
    pub fn bg(color: Color) -> Self
        returns
            (Style { fg: None, bg: Some(color), bold: false }),
    {
        Style { fg: None, bg: Some(color), bold: false }
    }

    /// Text in a color on a background.
    #[verifier::allow_in_spec]
    pub fn on(fg: Color, bg: Color) -> Self
        returns
            (Style { fg: Some(fg), bg: Some(bg), bold: false }),
    {
        Style { fg: Some(fg), bg: Some(bg), bold: false }
    }
}

/// The colors of the theme.
#[derive(Clone, Copy, Debug, PartialEq, Eq, Structural)]
pub struct Theme {
    pub working: Color,
    pub done: Color,
    pub error: Color,
    pub question: Color,
    pub info: Color,
    pub connected: Color,
    pub disconnected: Color,
    pub reconnecting: Color,
}

// ─── Text and blocks ──────────────────────────────────────────────────────

/// A stretch of text in one style. `S` is the type of the text: a string in
/// executable code, characters in contracts.
#[derive(Debug, PartialEq, Eq)]
#[verifier::ext_equal]
pub struct Span<S> {
    pub text: S,
    pub style: Style,
}

impl Span<String> {
    /// The stretch with its text as characters.
    pub open spec fn plain(self) -> Span<Seq<char>> {
        Span { text: self.text@, style: self.style }
    }
}

/// A stretch of text in one style.
pub open spec fn sp(text: Seq<char>, style: Style) -> Span<Seq<char>> {
    Span { text, style }
}

/// A stretch of text in one style.
pub fn span(text: &str, style: Style) -> (r: Span<String>)
    ensures
        r.plain() == sp(text@, style),
{
    Span { text: text.to_owned(), style }
}

/// A line of text.
#[derive(Debug, PartialEq, Eq)]
pub struct Line {
    pub spans: Vec<Span<String>>,
}

impl View for Line {
    type V = Seq<Span<Seq<char>>>;

    open spec fn view(&self) -> Seq<Span<Seq<char>>> {
        self.spans@.map_values(|s: Span<String>| s.plain())
    }
}

/// A line without text.
pub open spec fn blank() -> Seq<Span<Seq<char>>> {
    Seq::empty()
}

impl Line {
    /// A line without text.
    pub fn new() -> (r: Self)
        ensures
            r@ == blank(),
    {
        let r = Line { spans: Vec::new() };
        proof {
            assert(r@ =~= blank());
        }
        r
    }

    /// The line with `text` at the end.
    pub fn with(self, text: &str, style: Style) -> (r: Self)
        ensures
            r@ == self@.push(sp(text@, style)),
    {
        let ghost before = self@;
        let mut r = self;
        r.spans.push(span(text, style));
        proof {
            assert(r@ =~= before.push(sp(text@, style)));
        }
        r
    }

    /// A line of one stretch of text.
    pub fn of(text: &str, style: Style) -> (r: Self)
        ensures
            r@ == blank().push(sp(text@, style)),
    {
        Line::new().with(text, style)
    }
}

/// Lines of text.
#[derive(Debug, PartialEq, Eq)]
pub struct Lines {
    pub list: Vec<Line>,
}

impl View for Lines {
    type V = Seq<Seq<Span<Seq<char>>>>;

    open spec fn view(&self) -> Seq<Seq<Span<Seq<char>>>> {
        self.list@.map_values(|l: Line| l@)
    }
}

/// The one line `l`.
pub open spec fn only(l: Seq<Span<Seq<char>>>) -> Seq<Seq<Span<Seq<char>>>> {
    Seq::empty().push(l)
}

/// Lines of plain text.
pub open spec fn raw(lines: Seq<Seq<char>>) -> Seq<Seq<Span<Seq<char>>>> {
    Seq::new(lines.len(), |i: int| blank().push(sp(lines[i], Style::plain())))
}

impl Lines {
    /// No lines.
    pub fn new() -> (r: Self)
        ensures
            r@ == Seq::<Seq<Span<Seq<char>>>>::empty(),
    {
        let r = Lines { list: Vec::new() };
        proof {
            assert(r@ =~= Seq::<Seq<Span<Seq<char>>>>::empty());
        }
        r
    }

    /// Adds a line at the end.
    pub fn push(&mut self, line: Line)
        ensures
            final(self)@ == old(self)@.push(line@),
    {
        let ghost before = self@;
        self.list.push(line);
        proof {
            assert(self@ =~= before.push(line@));
        }
    }

    /// The one line `line`.
    pub fn of(line: Line) -> (r: Self)
        ensures
            r@ == only(line@),
    {
        let mut r = Lines::new();
        r.push(line);
        r
    }

    /// The lines of a plain text.
    pub fn raw(s: &str) -> (r: Self)
        ensures
            r@ == raw(text::lines_of(s@)),
    {
        let parts = text::lines(s);
        let mut r = Lines::new();
        let mut i: usize = 0;
        while i < parts.len()
            invariant
                i <= parts@.len(),
                text::texts(parts@) == text::lines_of(s@),
                r@ == raw(text::lines_of(s@)).take(i as int),
            decreases parts@.len() - i,
        {
            r.push(Line::of(parts[i].as_str(), Style::plain()));
            proof {
                assert(text::texts(parts@)[i as int] == parts@[i as int]@);
                assert(raw(text::lines_of(s@)).take(i + 1) =~= raw(text::lines_of(s@)).take(
                    i as int,
                ).push(raw(text::lines_of(s@))[i as int]));
            }
            i += 1;
        }
        proof {
            assert(raw(text::lines_of(s@)).take(i as int) =~= raw(text::lines_of(s@)));
        }
        r
    }
}

/// A frame around an area.
#[derive(Debug, PartialEq, Eq)]
#[verifier::ext_equal]
pub struct Block<S> {
    pub borders: Borders,
    pub rounded: bool,
    pub border: Style,
    pub style: Style,
    pub title: Option<Span<S>>,
    pub title_centered: bool,
}

impl<S> Block<S> {
    /// A frame with these borders.
    #[verifier::allow_in_spec]
    pub fn new(borders: Borders, border: Style) -> Self
        returns
            (Block::<S> {
                borders,
                rounded: false,
                border,
                style: Style::plain(),
                title: None,
                title_centered: false,
            }),
    {
        Block::<S> {
            borders,
            rounded: false,
            border,
            style: Style::plain(),
            title: None,
            title_centered: false,
        }
    }

    /// The frame with rounded corners.
    #[verifier::allow_in_spec]
    pub fn rounded(self) -> Self
        returns
            (Block { rounded: true, ..self }),
    {
        Block { rounded: true, ..self }
    }

    /// The frame with a style for all of its area.
    #[verifier::allow_in_spec]
    pub fn styled(self, style: Style) -> Self
        returns
            (Block { style, ..self }),
    {
        Block { style, ..self }
    }

    /// The frame with a title.
    #[verifier::allow_in_spec]
    pub fn titled(self, title: Span<S>) -> Self
        returns
            (Block { title: Some(title), ..self }),
    {
        Block { title: Some(title), ..self }
    }

    /// The frame with its title in the middle.
    #[verifier::allow_in_spec]
    pub fn title_in_the_middle(self) -> Self
        returns
            (Block { title_centered: true, ..self }),
    {
        Block { title_centered: true, ..self }
    }
}

impl Block<String> {
    /// The frame with its title as characters.
    pub open spec fn plain(self) -> Block<Seq<char>> {
        Block {
            borders: self.borders,
            rounded: self.rounded,
            border: self.border,
            style: self.style,
            title: match self.title {
                Some(t) => Some(t.plain()),
                None => None,
            },
            title_centered: self.title_centered,
        }
    }
}

/// What happens to lines that are too long for their area.
#[derive(Clone, Copy, Debug, PartialEq, Eq, Structural)]
pub enum Wrap {
    /// They are cut off.
    Cut,
    /// They go on in the next row, with leading blanks kept.
    Keep,
    /// They go on in the next row, without leading blanks.
    Trim,
}

/// One thing to be drawn. `S` is the type of the texts in it and `L` that of
/// the lines: strings in executable code, characters in contracts.
#[derive(Debug, PartialEq, Eq)]
#[verifier::ext_equal]
#[allow(inconsistent_fields)]
pub enum Draw<S, L> {
    /// Make an area blank.
    Clear { area: Rect },
    /// A frame.
    Block { area: Rect, block: Block<S> },
    /// Text, in a frame if there is one.
    Text {
        area: Rect,
        lines: L,
        style: Style,
        centered: bool,
        wrap: Wrap,
        block: Option<Block<S>>,
    },
    /// A list of entries in a frame.
    List { area: Rect, lines: L, block: Block<S> },
    /// The cursor of the terminal.
    Cursor { x: u16, y: u16 },
    /// The card of a task.
    Card { area: Rect, task_id: S, selected: bool },
    /// The detail view of a task.
    Detail { area: Rect, task_id: S },
    /// The changed files of the task in the detail view.
    ChangedFiles { area: Rect },
    /// The task editor.
    TaskEditor,
    /// A mark beside a list of `total` entries of which `shown` fit, from entry
    /// `first` on.
    ScrollMark { area: Rect, first: usize, shown: usize, total: usize },
}

impl Draw<String, Lines> {
    /// The thing to be drawn with its texts as characters.
    pub open spec fn plain(self) -> Draw<Seq<char>, Seq<Seq<Span<Seq<char>>>>> {
        match self {
            Draw::Clear { area } => Draw::Clear { area },
            Draw::Block { area, block } => Draw::Block { area, block: block.plain() },
            Draw::Text { area, lines, style, centered, wrap, block } => Draw::Text {
                area,
                lines: lines@,
                style,
                centered,
                wrap,
                block: match block {
                    Some(b) => Some(b.plain()),
                    None => None,
                },
            },
            Draw::List { area, lines, block } => Draw::List {
                area,
                lines: lines@,
                block: block.plain(),
            },
            Draw::Cursor { x, y } => Draw::Cursor { x, y },
            Draw::Card { area, task_id, selected } => Draw::Card {
                area,
                task_id: task_id@,
                selected,
            },
            Draw::Detail { area, task_id } => Draw::Detail { area, task_id: task_id@ },
            Draw::ChangedFiles { area } => Draw::ChangedFiles { area },
            Draw::TaskEditor => Draw::TaskEditor,
            Draw::ScrollMark { area, first, shown, total } => Draw::ScrollMark {
                area,
                first,
                shown,
                total,
            },
        }
    }
}

/// Lines of text, as contracts speak of them.
pub type TextView = Seq<Seq<Span<Seq<char>>>>;

/// Things to be drawn, as contracts speak of them.
pub type Drawn = Seq<Draw<Seq<char>, Seq<Seq<Span<Seq<char>>>>>>;

/// `n` columns to the right of `x`, counted in the 65536 columns that a
/// terminal can address, and no further than the last of them.
pub open spec fn beside(x: u16, n: usize) -> u16 {
    if x + n % 65536 <= u16::MAX {
        (x + n % 65536) as u16
    } else {
        u16::MAX
    }
}

/// `n` columns to the right of `x`.
pub fn right_of(x: u16, n: usize) -> (r: u16)
    ensures
        r == beside(x, n),
{
    let by: u32 = (n % 65536) as u32;
    if x as u32 + by <= 65535 {
        (x as u32 + by) as u16
    } else {
        65535
    }
}

/// Text without a frame, from the left, cut off where it is too long.
pub open spec fn text_at(area: Rect, lines: Seq<Seq<Span<Seq<char>>>>, style: Style) -> Draw<
    Seq<char>,
    Seq<Seq<Span<Seq<char>>>>,
> {
    Draw::Text { area, lines, style, centered: false, wrap: Wrap::Cut, block: None }
}

/// Text without a frame, in the middle, cut off where it is too long.
pub open spec fn text_in_the_middle(
    area: Rect,
    lines: Seq<Seq<Span<Seq<char>>>>,
    style: Style,
) -> Draw<Seq<char>, Seq<Seq<Span<Seq<char>>>>> {
    Draw::Text { area, lines, style, centered: true, wrap: Wrap::Cut, block: None }
}

/// One stretch of text.
pub open spec fn word_at(area: Rect, text: Seq<char>, style: Style) -> Draw<
    Seq<char>,
    Seq<Seq<Span<Seq<char>>>>,
> {
    text_at(area, only(blank().push(sp(text, style))), Style::plain())
}

/// Plain text in a style.
pub open spec fn plain_word(text: Seq<char>) -> Seq<Seq<Span<Seq<char>>>> {
    only(blank().push(sp(text, Style::plain())))
}

/// Things to be drawn, in order.
#[derive(Debug, PartialEq, Eq)]
pub struct Canvas {
    pub list: Vec<Draw<String, Lines>>,
}

impl View for Canvas {
    type V = Seq<Draw<Seq<char>, Seq<Seq<Span<Seq<char>>>>>>;

    open spec fn view(&self) -> Seq<Draw<Seq<char>, Seq<Seq<Span<Seq<char>>>>>> {
        self.list@.map_values(|d: Draw<String, Lines>| d.plain())
    }
}

impl Canvas {
    /// Nothing to be drawn.
    pub fn new() -> (r: Self)
        ensures
            r@.len() == 0,
    {
        Canvas { list: Vec::new() }
    }

    /// Adds `d` at the end.
    pub fn put(&mut self, d: Draw<String, Lines>)
        ensures
            final(self)@ == old(self)@.push(d.plain()),
    {
        let ghost before = self@;
        self.list.push(d);
        proof {
            assert(self@ =~= before.push(d.plain()));
        }
    }

    /// Makes an area blank.
    pub fn clear(&mut self, area: Rect)
        ensures
            final(self)@ == old(self)@.push(Draw::Clear { area }),
    {
        self.put(Draw::Clear { area });
    }

    /// Draws a frame.
    pub fn block(&mut self, area: Rect, block: Block<String>)
        ensures
            final(self)@ == old(self)@.push(Draw::Block { area, block: block.plain() }),
    {
        self.put(Draw::Block { area, block });
    }

    /// Draws text without a frame, from the left.
    pub fn text(&mut self, area: Rect, lines: Lines, style: Style)
        ensures
            final(self)@ == old(self)@.push(text_at(area, lines@, style)),
    {
        self.put(
            Draw::Text { area, lines, style, centered: false, wrap: Wrap::Cut, block: None },
        );
    }

    /// Draws text without a frame, in the middle.
    pub fn middle(&mut self, area: Rect, lines: Lines, style: Style)
        ensures
            final(self)@ == old(self)@.push(text_in_the_middle(area, lines@, style)),
    {
        self.put(Draw::Text { area, lines, style, centered: true, wrap: Wrap::Cut, block: None });
    }

    /// Draws one stretch of text.
    pub fn word(&mut self, area: Rect, text: &str, style: Style)
        ensures
            final(self)@ == old(self)@.push(word_at(area, text@, style)),
    {
        self.text(area, Lines::of(Line::of(text, style)), Style::plain());
    }

    /// Draws one line.
    pub fn line(&mut self, area: Rect, line: Line)
        ensures
            final(self)@ == old(self)@.push(text_at(area, only(line@), Style::plain())),
    {
        self.text(area, Lines::of(line), Style::plain());
    }
}

/// A frame takes a cell on every side that has a border, and none elsewhere.
pub proof fn law_borders_take_a_cell(area: Rect, b: Borders)
    requires
        area.fits(),
        area.width >= 2,
        area.height >= 2,
    ensures
        ({
            let r = area.bordered(b);
            &&& r.x == area.x + if b.left {
                1int
            } else {
                0
            }
            &&& r.y == area.y + if b.top {
                1int
            } else {
                0
            }
            &&& r.x + r.width == area.x + area.width - if b.right {
                1int
            } else {
                0
            }
            &&& r.y + r.height == area.y + area.height - if b.bottom {
                1int
            } else {
                0
            }
        }),
{
}

/// What is centered has as much room before it as behind it, up to one cell.
pub proof fn law_middle_is_in_the_middle(area: Rect, width: u16, height: u16)
    requires
        area.fits(),
        width <= area.width,
        height <= area.height,
    ensures
        ({
            let r = area.middle(width, height);
            let left = r.x - area.x;
            let right = area.x + area.width - (r.x + r.width);
            let above = r.y - area.y;
            let below = area.y + area.height - (r.y + r.height);
            &&& r.width == width && r.height == height
            &&& 0 <= left <= right <= left + 1
            &&& 0 <= above <= below <= above + 1
        }),
{
}

} // verus!
