//! A page of text with a cursor, as both editors keep it: lines of characters
//! and the row and column of the cursor.

use vstd::prelude::*;
use crate::text;

verus! {

/// Where the cursor is asked to go.
#[derive(Clone, Copy, Debug, PartialEq, Eq, Structural)]
pub enum CursorDirection {
    Up,
    Down,
    Left,
    Right,
    Home,
    End,
}

/// The contents of a page and the place of its cursor.
#[verifier::ext_equal]
pub struct Page {
    pub lines: Seq<Seq<char>>,
    pub row: int,
    pub col: int,
}

/// The page that an editor's lines and cursor stand for.
pub open spec fn page_of(lines: Seq<String>, row: usize, col: usize) -> Page {
    Page { lines: text::texts(lines), row: row as int, col: col as int }
}

/// The smaller of two numbers.
pub open spec fn least(a: int, b: int) -> int {
    if a <= b {
        a
    } else {
        b
    }
}

impl Page {
    /// There is a line, and the cursor stands on or just behind one of its
    /// characters.
    pub open spec fn wf(self) -> bool {
        &&& 0 <= self.row < self.lines.len()
        &&& 0 <= self.col <= self.lines[self.row].len()
    }

    /// The page with its cursor brought inside the text; a page without lines
    /// counts as one empty line.
    pub open spec fn settled(self) -> Page {
        let lines = if self.lines.len() == 0 {
            seq![Seq::<char>::empty()]
        } else {
            self.lines
        };
        let row = least(self.row, lines.len() - 1);
        Page { lines, row, col: least(self.col, lines[row].len() as int) }
    }

    /// The line of the cursor.
    pub open spec fn line(self) -> Seq<char> {
        self.lines[self.row]
    }

    /// The page after `ch` is typed.
    pub open spec fn typed(self, ch: char) -> Page {
        let p = self.settled();
        Page {
            lines: p.lines.update(p.row, p.line().insert(p.col, ch)),
            row: p.row,
            col: p.col + 1,
        }
    }

    /// The page after a line break is typed.
    pub open spec fn broken(self) -> Page {
        let p = self.settled();
        Page {
            lines: p.lines.update(p.row, p.line().take(p.col)).insert(
                p.row + 1,
                p.line().skip(p.col),
            ),
            row: p.row + 1,
            col: 0,
        }
    }

    /// Whether there is something before the cursor.
    pub open spec fn has_before(self) -> bool {
        self.settled().col > 0 || self.settled().row > 0
    }

    /// Whether there is something behind the cursor.
    pub open spec fn has_behind(self) -> bool {
        let p = self.settled();
        p.col < p.line().len() || p.row + 1 < p.lines.len()
    }

    /// The page without the character, or line break, before the cursor.
    pub open spec fn erased_back(self) -> Page {
        let p = self.settled();
        if p.col > 0 {
            Page {
                lines: p.lines.update(p.row, p.line().remove(p.col - 1)),
                row: p.row,
                col: p.col - 1,
            }
        } else if p.row > 0 {
            Page {
                lines: p.lines.update(p.row - 1, p.lines[p.row - 1] + p.line()).remove(p.row),
                row: p.row - 1,
                col: p.lines[p.row - 1].len() as int,
            }
        } else {
            p
        }
    }

    /// The page without the character, or line break, behind the cursor.
    pub open spec fn erased_forward(self) -> Page {
        let p = self.settled();
        if p.col < p.line().len() {
            Page { lines: p.lines.update(p.row, p.line().remove(p.col)), row: p.row, col: p.col }
        } else if p.row + 1 < p.lines.len() {
            Page {
                lines: p.lines.update(p.row, p.line() + p.lines[p.row + 1]).remove(p.row + 1),
                row: p.row,
                col: p.col,
            }
        } else {
            p
        }
    }

    /// The page with its cursor moved. The cursor stays inside the text.
    pub open spec fn moved(self, direction: CursorDirection) -> Page {
        let p = self.settled();
        match direction {
            CursorDirection::Up => if p.row > 0 {
                Page { row: p.row - 1, ..p }.settled()
            } else {
                p
            },
            CursorDirection::Down => Page { row: p.row + 1, ..p }.settled(),
            CursorDirection::Left => if p.col > 0 {
                Page { col: p.col - 1, ..p }
            } else {
                p
            },
            CursorDirection::Right => Page { col: p.col + 1, ..p }.settled(),
            CursorDirection::Home => Page { col: 0, ..p },
            CursorDirection::End => Page { col: p.line().len() as int, ..p },
        }
    }
}

fn settle(lines: &mut Vec<String>, row: usize, col: usize) -> (r: (usize, usize))
    ensures
        page_of(final(lines)@, r.0, r.1) == page_of(old(lines)@, row, col).settled(),
        page_of(final(lines)@, r.0, r.1).wf(),
{
    if lines.len() == 0 {
        lines.push(String::new());
        proof {
            assert(text::texts(lines@) =~= seq![Seq::<char>::empty()]);
        }
    }
    let row: usize = if row < lines.len() {
        row
    } else {
        lines.len() - 1
    };
    let n: usize = lines[row].as_str().unicode_len();
    let col: usize = if col < n {
        col
    } else {
        n
    };
    (row, col)
}

proof fn lemma_set(lines: Seq<String>, i: int, s: String)
    requires
        0 <= i < lines.len(),
    ensures
        text::texts(lines.update(i, s)) == text::texts(lines).update(i, s@),
{
    assert(text::texts(lines.update(i, s)) =~= text::texts(lines).update(i, s@));
}

/// Types `ch` at the cursor and returns the cursor's new place.
pub fn type_char(lines: &mut Vec<String>, row: usize, col: usize, ch: char) -> (r: (usize, usize))
    ensures
        page_of(final(lines)@, r.0, r.1) == page_of(old(lines)@, row, col).typed(ch),
{
    let (row, col) = settle(lines, row, col);
    let mut cs = text::chars_of(lines[row].as_str());
    cs.insert(col, ch);
    let line = text::string_of(&cs, 0, cs.len());
    proof {
        assert(line@ =~= lines@[row as int]@.insert(col as int, ch));
        lemma_set(lines@, row as int, line);
        assert(col + 1 <= cs.len());
    }
    lines.set(row, line);
    (row, col + 1)
}

/// Breaks the line at the cursor and returns the cursor's new place.
pub fn break_line(lines: &mut Vec<String>, row: usize, col: usize) -> (r: (usize, usize))
    ensures
        page_of(final(lines)@, r.0, r.1) == page_of(old(lines)@, row, col).broken(),
{
    let (row, col) = settle(lines, row, col);
    let cs = text::chars_of(lines[row].as_str());
    let head = text::string_of(&cs, 0, col);
    let tail = text::string_of(&cs, col, cs.len());
    let ghost before = lines@;
    proof {
        assert(head@ =~= before[row as int]@.take(col as int));
        assert(tail@ =~= before[row as int]@.skip(col as int));
        lemma_set(before, row as int, head);
    }
    lines.set(row, head);
    proof {
        assert(row + 1 <= lines.len());
    }
    lines.insert(row + 1, tail);
    proof {
        assert(text::texts(lines@) =~= text::texts(before).update(row as int, head@).insert(
            row + 1,
            tail@,
        ));
    }
    (row + 1, 0)
}

/// Deletes what stands before the cursor; returns the cursor's new place and
/// whether something was deleted.
pub fn erase_back(lines: &mut Vec<String>, row: usize, col: usize) -> (r: (usize, usize, bool))
    ensures
        page_of(final(lines)@, r.0, r.1) == page_of(old(lines)@, row, col).erased_back(),
        r.2 == page_of(old(lines)@, row, col).has_before(),
{
    let (row, col) = settle(lines, row, col);
    let ghost before = lines@;
    if col > 0 {
        let mut cs = text::chars_of(lines[row].as_str());
        let _gone = cs.remove(col - 1);
        let line = text::string_of(&cs, 0, cs.len());
        proof {
            assert(line@ =~= before[row as int]@.remove(col - 1));
            lemma_set(before, row as int, line);
        }
        lines.set(row, line);
        (row, col - 1, true)
    } else if row > 0 {
        let at: usize = lines[row - 1].as_str().unicode_len();
        let line = text::join2(lines[row - 1].as_str(), lines[row].as_str());
        proof {
            lemma_set(before, row - 1, line);
        }
        lines.set(row - 1, line);
        let _gone = lines.remove(row);
        proof {
            assert(text::texts(lines@) =~= text::texts(before).update(row - 1, line@).remove(
                row as int,
            ));
        }
        (row - 1, at, true)
    } else {
        (row, col, false)
    }
}

/// Deletes what stands behind the cursor; returns the cursor's place and
/// whether something was deleted.
pub fn erase_forward(lines: &mut Vec<String>, row: usize, col: usize) -> (r: (usize, usize, bool))
    ensures
        page_of(final(lines)@, r.0, r.1) == page_of(old(lines)@, row, col).erased_forward(),
        r.2 == page_of(old(lines)@, row, col).has_behind(),
{
    let (row, col) = settle(lines, row, col);
    let ghost before = lines@;
    let mut cs = text::chars_of(lines[row].as_str());
    if col < cs.len() {
        let _gone = cs.remove(col);
        let line = text::string_of(&cs, 0, cs.len());
        proof {
            assert(line@ =~= before[row as int]@.remove(col as int));
            lemma_set(before, row as int, line);
        }
        lines.set(row, line);
        (row, col, true)
    } else if row < lines.len() - 1 {
        let line = text::join2(lines[row].as_str(), lines[row + 1].as_str());
        proof {
            lemma_set(before, row as int, line);
        }
        lines.set(row, line);
        let _gone = lines.remove(row + 1);
        proof {
            assert(text::texts(lines@) =~= text::texts(before).update(row as int, line@).remove(
                row + 1,
            ));
        }
        (row, col, true)
    } else {
        (row, col, false)
    }
}

/// Moves the cursor and returns its new place.
pub fn move_to(
    lines: &mut Vec<String>,
    row: usize,
    col: usize,
    direction: CursorDirection,
) -> (r: (usize, usize))
    ensures
        page_of(final(lines)@, r.0, r.1) == page_of(old(lines)@, row, col).moved(direction),
{
    let (row, col) = settle(lines, row, col);
    let n: usize = lines[row].as_str().unicode_len();
    match direction {
        CursorDirection::Up => {
            if row > 0 {
                settle(lines, row - 1, col)
            } else {
                (row, col)
            }
        },
        CursorDirection::Down => {
            if row < lines.len() - 1 {
                settle(lines, row + 1, col)
            } else {
                (row, col)
            }
        },
        CursorDirection::Left => {
            if col > 0 {
                (row, col - 1)
            } else {
                (row, col)
            }
        },
        CursorDirection::Right => {
            if col < n {
                (row, col + 1)
            } else {
                (row, col)
            }
        },
        CursorDirection::Home => (row, 0),
        CursorDirection::End => (row, n),
    }
}

/// Lines joined by line feeds.
pub open spec fn joined(lines: Seq<Seq<char>>) -> Seq<char>
    decreases lines.len(),
{
    if lines.len() == 0 {
        Seq::empty()
    } else if lines.len() == 1 {
        lines[0]
    } else {
        joined(lines.drop_last()) + seq!['\n'] + lines.last()
    }
}

/// The lines as one text, joined by line feeds.
pub fn join_lines(lines: &Vec<String>) -> (r: String)
    ensures
        r@ == joined(text::texts(lines@)),
{
    let mut out = String::new();
    let ghost all = text::texts(lines@);
    let mut i: usize = 0;
    proof {
        assert(out@ =~= joined(all.take(0)));
    }
    while i < lines.len()
        invariant
            i <= lines@.len(),
            all == text::texts(lines@),
            out@ == joined(all.take(i as int)),
        decreases lines@.len() - i,
    {
        proof {
            assert(all.take(i + 1).drop_last() =~= all.take(i as int));
            assert(all.take(i + 1).last() == lines@[i as int]@);
        }
        if i > 0 {
            out.push('\n');
        }
        out.append(lines[i].as_str());
        i += 1;
        proof {
            assert(out@ =~= joined(all.take(i as int)));
        }
    }
    proof {
        assert(all.take(i as int) =~= all);
    }
    out
}

/// A settled page is well formed and stays as it is.
pub proof fn law_settling_settles(p: Page)
    requires
        p.row >= 0,
        p.col >= 0,
    ensures
        p.settled().wf(),
        p.settled().settled() == p.settled(),
        p.wf() ==> p.settled() == p,
{
}

/// Every edit and every movement leaves the cursor inside the text.
pub proof fn law_edits_keep_the_cursor_inside(p: Page, ch: char, direction: CursorDirection)
    requires
        p.row >= 0,
        p.col >= 0,
    ensures
        p.typed(ch).wf(),
        p.broken().wf(),
        p.erased_back().wf(),
        p.erased_forward().wf(),
        p.moved(direction).wf(),
{
    law_settling_settles(p);
}

/// Backspace undoes a typed character.
pub proof fn law_backspace_undoes_typing(p: Page, ch: char)
    requires
        p.wf(),
    ensures
        p.typed(ch).erased_back() == p,
{
    let q = p.typed(ch);
    assert(q.wf());
    assert(q.erased_back().lines =~= p.lines) by {
        assert(q.line().remove(q.col - 1) =~= p.line());
    }
}

/// Backspace undoes a line break.
pub proof fn law_backspace_undoes_a_line_break(p: Page)
    requires
        p.wf(),
    ensures
        p.broken().erased_back() == p,
{
    let q = p.broken();
    assert(q.wf());
    assert(q.lines[q.row - 1] =~= p.line().take(p.col));
    assert(q.lines[q.row] =~= p.line().skip(p.col));
    assert(q.lines[q.row - 1] + q.line() =~= p.line());
    assert(q.erased_back().lines =~= p.lines);
}

/// Delete undoes a character typed when the cursor has gone back before it.
pub proof fn law_delete_undoes_typing_after_left(p: Page, ch: char)
    requires
        p.wf(),
    ensures
        p.typed(ch).moved(CursorDirection::Left).erased_forward() == p,
{
    let q = p.typed(ch).moved(CursorDirection::Left);
    assert(p.typed(ch).wf());
    assert(q.wf());
    assert(q.line().remove(q.col) =~= p.line());
    assert(q.erased_forward().lines =~= p.lines);
}

/// Moving the cursor changes no text.
pub proof fn law_moving_changes_no_text(p: Page, direction: CursorDirection)
    requires
        p.row >= 0,
        p.col >= 0,
    ensures
        p.moved(direction).lines == p.settled().lines,
{
}

/// Typing puts the character where the cursor stands and nothing else anywhere:
/// the line is what was before the cursor, the character, and what was behind it;
/// the cursor stands behind it, and the other lines are as they were.
pub proof fn law_typing_goes_to_the_cursor(p: Page, ch: char)
    requires
        p.wf(),
    ensures
        ({
            let q = p.typed(ch);
            &&& q.lines.len() == p.lines.len()
            &&& q.row == p.row && q.col == p.col + 1
            &&& q.lines[p.row] == p.lines[p.row].take(p.col) + seq![ch] + p.lines[p.row].skip(p.col)
            &&& forall|i: int|
                0 <= i < p.lines.len() && i != p.row ==> #[trigger] q.lines[i] == p.lines[i]
        }),
{
    law_settling_settles(p);
    assert(p.typed(ch).lines[p.row] =~= p.lines[p.row].take(p.col) + seq![ch] + p.lines[p.row].skip(
        p.col,
    ));
}

/// A line break parts the line at the cursor: what was before it stays, what was
/// behind it is the next line, where the cursor then stands at the start; the
/// lines further down follow.
pub proof fn law_breaking_parts_the_line(p: Page)
    requires
        p.wf(),
    ensures
        ({
            let q = p.broken();
            &&& q.lines.len() == p.lines.len() + 1
            &&& q.row == p.row + 1 && q.col == 0
            &&& q.lines[p.row] == p.lines[p.row].take(p.col)
            &&& q.lines[p.row + 1] == p.lines[p.row].skip(p.col)
            &&& forall|i: int| 0 <= i < p.row ==> #[trigger] q.lines[i] == p.lines[i]
            &&& forall|i: int|
                p.row + 1 < i < q.lines.len() ==> #[trigger] q.lines[i] == p.lines[i - 1]
        }),
{
    law_settling_settles(p);
}

/// Delete does behind the cursor what Backspace does before it: it leaves the
/// text that Backspace leaves one place further, at the start of the next line
/// where the cursor is at the end of one; at the end of the text it does nothing.
pub proof fn law_delete_is_backspace_from_behind(p: Page)
    requires
        p.wf(),
    ensures
        p.col < p.lines[p.row].len() ==> p.erased_forward() == (Page { col: p.col + 1, ..p }).erased_back(),
        p.col == p.lines[p.row].len() && p.row + 1 < p.lines.len() ==> p.erased_forward() == (Page {
            row: p.row + 1,
            col: 0,
            ..p
        }).erased_back(),
        p.col == p.lines[p.row].len() && p.row + 1 == p.lines.len() ==> p.erased_forward() == p,
        p.col == 0 && p.row == 0 ==> p.erased_back() == p,
{
    law_settling_settles(p);
    if p.col < p.lines[p.row].len() {
        law_settling_settles(Page { col: p.col + 1, ..p });
    } else if p.row + 1 < p.lines.len() {
        let q = Page { row: p.row + 1, col: 0, ..p };
        law_settling_settles(q);
        assert(p.erased_forward().lines =~= q.erased_back().lines);
    }
}

/// The cursor moves as the key says: a line up or down, a character to the left
/// or the right, to the start or the end of its line; on another line it stands
/// in the same column, or at the end of a shorter line. At the ends it stays.
pub proof fn law_cursor_moves(p: Page)
    requires
        p.wf(),
    ensures
        ({
            let up = p.moved(CursorDirection::Up);
            let down = p.moved(CursorDirection::Down);
            &&& p.row > 0 ==> up.row == p.row - 1 && up.col == least(
                p.col,
                p.lines[p.row - 1].len() as int,
            )
            &&& p.row == 0 ==> up == p
            &&& p.row + 1 < p.lines.len() ==> down.row == p.row + 1 && down.col == least(
                p.col,
                p.lines[p.row + 1].len() as int,
            )
            &&& p.row + 1 == p.lines.len() ==> down == p
            &&& p.moved(CursorDirection::Left) == Page {
                col: if p.col > 0 {
                    p.col - 1
                } else {
                    0
                },
                ..p
            }
            &&& p.moved(CursorDirection::Right) == Page {
                col: if p.col < p.lines[p.row].len() {
                    p.col + 1
                } else {
                    p.col
                },
                ..p
            }
            &&& p.moved(CursorDirection::Home) == Page { col: 0, ..p }
            &&& p.moved(CursorDirection::End) == Page { col: p.lines[p.row].len() as int, ..p }
        }),
{
    law_settling_settles(p);
}

/// Erasing changes the text just where there is something to erase.
pub proof fn law_erasing_changes_what_is_there(p: Page)
    requires
        p.wf(),
    ensures
        p.has_before() <==> p.row > 0 || p.col > 0,
        p.has_behind() <==> p.row + 1 < p.lines.len() || p.col < p.lines[p.row].len(),
        p.has_before() <==> p.erased_back().lines != p.lines,
        p.has_behind() <==> p.erased_forward().lines != p.lines,
{
    law_settling_settles(p);
    if p.col > 0 {
        assert(p.erased_back().lines[p.row].len() == p.lines[p.row].len() - 1);
    } else if p.row > 0 {
        assert(p.erased_back().lines.len() == p.lines.len() - 1);
    }
    if p.col < p.lines[p.row].len() {
        assert(p.erased_forward().lines[p.row].len() == p.lines[p.row].len() - 1);
    } else if p.row + 1 < p.lines.len() {
        assert(p.erased_forward().lines.len() == p.lines.len() - 1);
    }
}

} // verus!
