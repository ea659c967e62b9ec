//! Help overlay: the keybinding reference.

use vstd::prelude::*;
use crate::config::{EditorKeybindingConfig, KeybindingConfig};
use crate::draw;
use crate::draw::{Block, Borders, Canvas, Color, Draw, Lines, Rect, Style};
use crate::text;
use crate::text::Cut;

verus! {

// ─── Key combinations ─────────────────────────────────────────────────────

/// Whether one of the parts of a combination is Shift, in whatever case.
pub open spec fn has_shift(parts: Seq<Seq<char>>) -> bool {
    exists|i: int|
        0 <= i < parts.len() && (#[trigger] parts[i]).map_values(|c: char| text::ascii_small(c))
            == "shift"@
}

/// How the last part of a combination is shown: an arrow for a direction, a
/// letter as it is written but a capital with Shift, the name of any other key
/// with a capital.
pub open spec fn shown_key(part: Seq<char>, shift: bool) -> Seq<char> {
    let low = text::lowered(part);
    if low == "left"@ {
        "←"@
    } else if low == "right"@ {
        "→"@
    } else if low == "up"@ {
        "↑"@
    } else if low == "down"@ {
        "↓"@
    } else if text::byte_len(low) == 1 {
        if shift && ('a' <= low[0] <= 'z' || 'A' <= low[0] <= 'Z') {
            seq![text::ascii_capital(low[0])]
        } else {
            part
        }
    } else {
        text::capitalised(low)
    }
}

/// How a single combination is shown: its parts, with `+` between them.
pub open spec fn shown_combo(combo: Seq<char>) -> Seq<char> {
    let parts = text::pieces(combo, Cut::At('+'));
    text::joined_by(
        Seq::new(
            parts.len(),
            |i: int|
                if i == parts.len() - 1 {
                    shown_key(parts[i], has_shift(parts))
                } else {
                    text::capitalised(parts[i])
                },
        ),
        "+"@,
    )
}

/// How a comma-separated list of combinations is shown.
pub open spec fn shown_combos(combos: Seq<char>) -> Seq<char> {
    let parts = text::pieces(combos, Cut::At(','));
    text::joined_by(
        Seq::new(parts.len(), |i: int| shown_combo(text::trimmed(parts[i]))),
        " / "@,
    )
}

/// Whether the two texts are the same but for the case of ASCII letters; `b`
/// is written in small letters.
fn same_small(a: &str, b: &str) -> (r: bool)
    ensures
        r == (a@.map_values(|c: char| text::ascii_small(c)) == b@),
{
    let cs = text::chars_of(a);
    let mut low = String::new();
    let mut i: usize = 0;
    while i < cs.len()
        invariant
            i <= cs@.len(),
            low@ == cs@.take(i as int).map_values(|c: char| text::ascii_small(c)),
        decreases cs@.len() - i,
    {
        low.push(text::to_ascii_small(cs[i]));
        proof {
            assert(cs@.take(i + 1).map_values(|c: char| text::ascii_small(c)) =~= cs@.take(
                i as int,
            ).map_values(|c: char| text::ascii_small(c)).push(text::ascii_small(cs@[i as int])));
        }
        i += 1;
    }
    proof {
        assert(cs@.take(i as int) =~= a@);
    }
    text::same(low.as_str(), b)
}

fn shift_among(parts: &Vec<String>) -> (r: bool)
    ensures
        r == has_shift(text::texts(parts@)),
{
    let ghost all = text::texts(parts@);
    let mut i: usize = 0;
    while i < parts.len()
        invariant
            i <= parts@.len(),
            all == text::texts(parts@),
            forall|j: int|
                0 <= j < i ==> (#[trigger] all[j]).map_values(|c: char| text::ascii_small(c))
                    != "shift"@,
        decreases parts@.len() - i,
    {
        proof {
            assert(all[i as int] == parts@[i as int]@);
        }
        if same_small(parts[i].as_str(), "shift") {
            return true;
        }
        i += 1;
    }
    false
}

fn show_key(part: &str, shift: bool) -> (r: String)
    ensures
        r@ == shown_key(part@, shift),
{
    let low = text::to_lowercase(part);
    if text::same(low.as_str(), "left") {
        return "←".to_owned();
    }
    if text::same(low.as_str(), "right") {
        return "→".to_owned();
    }
    if text::same(low.as_str(), "up") {
        return "↑".to_owned();
    }
    if text::same(low.as_str(), "down") {
        return "↓".to_owned();
    }
    let cs = text::chars_of(low.as_str());
    proof {
        reveal_with_fuel(text::byte_len, 3);
        if cs@.len() >= 2 {
            text::lemma_byte_len_grows(low@, 2, low@.len() as int);
            assert(low@.take(2).drop_last().drop_last() =~= Seq::<char>::empty());
            assert(low@.take(low@.len() as int) =~= low@);
        } else if cs@.len() == 1 {
            assert(low@.drop_last() =~= Seq::<char>::empty());
        }
    }
    if cs.len() == 1 && text::width_in_bytes(cs[0]) == 1 {
        let c = cs[0];
        if shift && (('a' <= c && c <= 'z') || ('A' <= c && c <= 'Z')) {
            let mut out = String::new();
            out.push(text::to_ascii_capital(c));
            proof {
                assert(out@ =~= seq![text::ascii_capital(low@[0])]);
            }
            out
        } else {
            part.to_owned()
        }
    } else {
        text::capitalise(low.as_str())
    }
}

/// Format a single key combo into a display string.
/// Examples: "ctrl+q" → "Ctrl+q", "shift+m" → "Shift+M", "left" → "←", "h" → "h"
pub fn format_single_combo(combo: &str) -> (r: String)
    ensures
        r@ == shown_combo(combo@),
{
    let parts = text::split(combo, Cut::At('+'));
    let shift = shift_among(&parts);
    let ghost all = text::texts(parts@);
    let ghost want = Seq::new(
        all.len(),
        |i: int|
            if i == all.len() - 1 {
                shown_key(all[i], has_shift(all))
            } else {
                text::capitalised(all[i])
            },
    );
    let mut result: Vec<String> = Vec::new();
    let mut i: usize = 0;
    while i < parts.len()
        invariant
            i <= parts@.len(),
            all == text::texts(parts@),
            shift == has_shift(all),
            want.len() == all.len(),
            forall|j: int|
                0 <= j < all.len() ==> #[trigger] want[j] == if j == all.len() - 1 {
                    shown_key(all[j], has_shift(all))
                } else {
                    text::capitalised(all[j])
                },
            text::texts(result@) == want.take(i as int),
        decreases parts@.len() - i,
    {
        let ghost before = result@;
        proof {
            assert(all[i as int] == parts@[i as int]@);
        }
        if i == parts.len() - 1 {
            result.push(show_key(parts[i].as_str(), shift));
        } else {
            result.push(text::capitalise(parts[i].as_str()));
        }
        proof {
            assert(text::texts(result@) =~= text::texts(before).push(result@.last()@));
            assert(want.take(i + 1) =~= want.take(i as int).push(want[i as int]));
        }
        i += 1;
    }
    proof {
        assert(want.take(i as int) =~= want);
    }
    text::join(&result, "+")
}

/// Format a combo string (comma-separated alternatives) for display.
/// Example: "ctrl+q" → "Ctrl+q", "h, left" → "h / ←"
pub fn format_combo(combo: &str) -> (r: String)
    ensures
        r@ == shown_combos(combo@),
{
    let parts = text::split(combo, Cut::At(','));
    let ghost all = text::texts(parts@);
    let ghost want = Seq::new(all.len(), |i: int| shown_combo(text::trimmed(all[i])));
    let mut formatted: Vec<String> = Vec::new();
    let mut i: usize = 0;
    while i < parts.len()
        invariant
            i <= parts@.len(),
            all == text::texts(parts@),
            want == Seq::new(all.len(), |i: int| shown_combo(text::trimmed(all[i]))),
            text::texts(formatted@) == want.take(i as int),
        decreases parts@.len() - i,
    {
        let ghost before = formatted@;
        proof {
            assert(all[i as int] == parts@[i as int]@);
        }
        formatted.push(format_single_combo(text::trim(parts[i].as_str()).as_str()));
        proof {
            assert(text::texts(formatted@) =~= text::texts(before).push(formatted@.last()@));
            assert(want.take(i + 1) =~= want.take(i as int).push(want[i as int]));
        }
        i += 1;
    }
    proof {
        assert(want.take(i as int) =~= want);
    }
    text::join(&formatted, " / ")
}

/// Format two combo strings with " / " separator (for paired actions).
pub fn format_combos_slash(a: &str, b: &str) -> (r: String)
    ensures
        r@ == shown_combos(a@) + " / "@ + shown_combos(b@),
{
    let mut out = format_combo(a);
    out.append(" / ");
    out.append(format_combo(b).as_str());
    out
}

/// Capitalize the first letter of a word.
pub fn capitalize(s: &str) -> (r: String)
    ensures
        r@ == text::capitalised(s@),
{
    text::capitalise(s)
}

// ─── Sections ─────────────────────────────────────────────────────────────

/// The lines, each with a line break at its end.
pub open spec fn page_of(lines: Seq<Seq<char>>) -> Seq<char>
    decreases lines.len(),
{
    if lines.len() == 0 {
        Seq::empty()
    } else {
        page_of(lines.drop_last()) + lines.last() + "\n"@
    }
}

/// One line of the reference: the keys in a column of their own, and what they
/// do.
pub open spec fn entry(keys: Seq<char>, what: Seq<char>) -> Seq<char> {
    "   "@ + text::left_aligned(keys, 16) + " "@ + what
}

/// Writes the lines, each with a line break at its end.
fn write_page(lines: &Vec<String>) -> (r: String)
    ensures
        r@ == page_of(text::texts(lines@)),
{
    let ghost all = text::texts(lines@);
    let mut out = String::new();
    let mut i: usize = 0;
    proof {
        assert(out@ =~= page_of(all.take(0)));
    }
    while i < lines.len()
        invariant
            i <= lines@.len(),
            all == text::texts(lines@),
            out@ == page_of(all.take(i as int)),
        decreases lines@.len() - i,
    {
        proof {
            assert(all.take(i + 1).drop_last() =~= all.take(i as int));
            assert(all.take(i + 1).last() == lines@[i as int]@);
        }
        out.append(lines[i].as_str());
        out.append("\n");
        i += 1;
    }
    proof {
        assert(all.take(i as int) =~= all);
    }
    out
}

/// Adds a line at the end.
fn add_line(lines: &mut Vec<String>, line: &str)
    ensures
        text::texts(final(lines)@) == text::texts(old(lines)@).push(line@),
{
    let ghost before = lines@;
    lines.push(line.to_owned());
    proof {
        assert(text::texts(lines@) =~= text::texts(before).push(line@));
    }
}

/// Adds a line of the reference at the end.
fn add_entry(lines: &mut Vec<String>, keys: &str, what: &str)
    ensures
        text::texts(final(lines)@) == text::texts(old(lines)@).push(entry(keys@, what@)),
{
    let mut line = text::join2("   ", text::pad_right(keys, 16).as_str());
    line.append(" ");
    line.append(what);
    add_line(lines, line.as_str());
}

/// Adds a line on the given combinations at the end.
fn add_combo(lines: &mut Vec<String>, combo: &str, what: &str)
    ensures
        text::texts(final(lines)@) == text::texts(old(lines)@).push(
            entry(shown_combos(combo@), what@),
        ),
{
    add_entry(lines, format_combo(combo).as_str(), what);
}

/// The lines on the global keys.
pub open spec fn global_lines(kb: KeybindingConfig) -> Seq<Seq<char>> {
    Seq::<Seq<char>>::empty()
        .push(""@)
        .push(" Global Keys"@)
        .push(" ──────────────────────────────────────"@)
        .push(entry(shown_combos(kb.quit@), "Quit"@))
        .push(entry(shown_combos(kb.help_toggle@), "Toggle this help overlay"@))
        .push(
            entry(
                shown_combos(kb.next_project@) + " / "@ + shown_combos(kb.prev_project@),
                "Next / Previous project"@,
            ),
        )
        .push(entry(shown_combos(kb.new_project@), "New project"@))
        .push(entry(shown_combos(kb.rename_project@), "Rename active project"@))
        .push(entry(shown_combos(kb.delete_project@), "Delete active project"@))
        .push(entry("Ctrl+r"@, "Reset circuit breaker"@))
        .push(""@)
}

/// The lines on the keys of the board. Scrolling the board and moving a task
/// within its column have keys of their own but no effect yet, and say so.
pub open spec fn kanban_lines(kb: KeybindingConfig) -> Seq<Seq<char>> {
    Seq::<Seq<char>>::empty()
        .push(""@)
        .push(" Kanban Keys"@)
        .push(" ──────────────────────────────────────"@)
        .push(entry(shown_combos(kb.kanban_left@), "Move focus left (column)"@))
        .push(entry(shown_combos(kb.kanban_right@), "Move focus right (column)"@))
        .push(entry(shown_combos(kb.kanban_up@), "Move focus up (task)"@))
        .push(entry(shown_combos(kb.kanban_down@), "Move focus down (task)"@))
        .push(
            entry(
                shown_combos(kb.scroll_kanban_left@),
                "Scroll board left (reserved, no effect)"@,
            ),
        )
        .push(
            entry(
                shown_combos(kb.scroll_kanban_right@),
                "Scroll board right (reserved, no effect)"@,
            ),
        )
        .push(entry(shown_combos(kb.todo_new@), "Create new task"@))
        .push(entry(shown_combos(kb.todo_edit@), "Edit task"@))
        .push(entry(shown_combos(kb.task_open@), "Open task detail"@))
        .push(entry(shown_combos(kb.task_view@), "View task detail & stream"@))
        .push(entry(shown_combos(kb.kanban_move_forward@), "Move task forward (→ column)"@))
        .push(entry(shown_combos(kb.kanban_move_backward@), "Move task backward (← column)"@))
        .push(entry(shown_combos(kb.task_move_up@), "Move task up (reserved, no effect)"@))
        .push(entry(shown_combos(kb.task_move_down@), "Move task down (reserved, no effect)"@))
        .push(entry(shown_combos(kb.task_delete@), "Delete selected task"@))
        .push(entry(shown_combos(kb.set_working_directory@), "Set working directory"@))
        .push(entry(shown_combos(kb.abort_session@), "Abort running session"@))
        .push(entry(shown_combos(kb.retry_task@), "Retry hung / failed task"@))
        .push(entry(shown_combos(kb.review_changes@), "Review changes (diff)"@))
        .push(entry(shown_combos(kb.reports@), "Reports view"@))
        .push(entry(shown_combos(kb.drill_down_subagent@), "Drill down into subagent"@))
        .push(entry(shown_combos(kb.add_dependency@), "Add dependency"@))
        .push(entry(shown_combos(kb.remove_dependency@), "Remove dependency"@))
        .push(entry(shown_combos(kb.view_archive@), "View archived tasks"@))
        .push(entry(shown_combos(kb.open_config_editor@), "Edit configuration"@))
        .push(""@)
}

/// The lines on the keys of the review.
pub open spec fn review_lines(kb: KeybindingConfig) -> Seq<Seq<char>> {
    Seq::<Seq<char>>::empty()
        .push(""@)
        .push(" Review Keys"@)
        .push(" ──────────────────────────────────────"@)
        .push(entry(shown_combos(kb.accept_review@), "Accept reviewed task (commit + done)"@))
        .push(entry(shown_combos(kb.reject_review@), "Reject reviewed task (back to running)"@))
        .push(entry(shown_combos(kb.review_changes@), "View git diff for changes"@))
        .push(""@)
}

/// The lines on the keys of the task editor.
pub open spec fn editor_lines(ek: EditorKeybindingConfig) -> Seq<Seq<char>> {
    Seq::<Seq<char>>::empty()
        .push(""@)
        .push(" Task Editor Keys"@)
        .push(" ──────────────────────────────────────"@)
        .push(entry(shown_combos(ek.save@), "Save task"@))
        .push(entry(shown_combos(ek.cancel@), "Cancel and discard"@))
        .push(entry(shown_combos(ek.cycle_field@), "Cycle field focus"@))
        .push(entry(shown_combos(ek.newline@), "Newline (description)"@))
        .push("   Arrow keys    Move cursor"@)
        .push("   Home / End    Line start / end"@)
        .push("   Page Up/Down  Scroll description"@)
        .push("   Backspace     Delete character before cursor"@)
        .push("   Delete        Delete character at cursor"@)
        .push(""@)
}

/// Build the Global keybindings tab.
pub fn build_global_text(kb: &KeybindingConfig) -> (r: String)
    ensures
        r@ == page_of(global_lines(*kb)),
{
    let mut lines: Vec<String> = Vec::new();
    proof {
        assert(text::texts(lines@) =~= Seq::<Seq<char>>::empty());
    }
    add_line(&mut lines, "");
    add_line(&mut lines, " Global Keys");
    add_line(&mut lines, " ──────────────────────────────────────");
    add_combo(&mut lines, kb.quit.as_str(), "Quit");
    add_combo(&mut lines, kb.help_toggle.as_str(), "Toggle this help overlay");
    add_entry(
        &mut lines,
        format_combos_slash(kb.next_project.as_str(), kb.prev_project.as_str()).as_str(),
        "Next / Previous project",
    );
    add_combo(&mut lines, kb.new_project.as_str(), "New project");
    add_combo(&mut lines, kb.rename_project.as_str(), "Rename active project");
    add_combo(&mut lines, kb.delete_project.as_str(), "Delete active project");
    add_entry(&mut lines, "Ctrl+r", "Reset circuit breaker");
    add_line(&mut lines, "");
    write_page(&lines)
}

/// Build the Kanban keybindings tab.
pub fn build_kanban_text(kb: &KeybindingConfig) -> (r: String)
    ensures
        r@ == page_of(kanban_lines(*kb)),
{
    let mut lines: Vec<String> = Vec::new();
    proof {
        assert(text::texts(lines@) =~= Seq::<Seq<char>>::empty());
    }
    add_line(&mut lines, "");
    add_line(&mut lines, " Kanban Keys");
    add_line(&mut lines, " ──────────────────────────────────────");
    add_combo(&mut lines, kb.kanban_left.as_str(), "Move focus left (column)");
    add_combo(&mut lines, kb.kanban_right.as_str(), "Move focus right (column)");
    add_combo(&mut lines, kb.kanban_up.as_str(), "Move focus up (task)");
    add_combo(&mut lines, kb.kanban_down.as_str(), "Move focus down (task)");
    add_combo(
        &mut lines,
        kb.scroll_kanban_left.as_str(),
        "Scroll board left (reserved, no effect)",
    );
    add_combo(
        &mut lines,
        kb.scroll_kanban_right.as_str(),
        "Scroll board right (reserved, no effect)",
    );
    add_combo(&mut lines, kb.todo_new.as_str(), "Create new task");
    add_combo(&mut lines, kb.todo_edit.as_str(), "Edit task");
    add_combo(&mut lines, kb.task_open.as_str(), "Open task detail");
    add_combo(&mut lines, kb.task_view.as_str(), "View task detail & stream");
    add_combo(&mut lines, kb.kanban_move_forward.as_str(), "Move task forward (→ column)");
    add_combo(&mut lines, kb.kanban_move_backward.as_str(), "Move task backward (← column)");
    add_combo(&mut lines, kb.task_move_up.as_str(), "Move task up (reserved, no effect)");
    add_combo(&mut lines, kb.task_move_down.as_str(), "Move task down (reserved, no effect)");
    add_combo(&mut lines, kb.task_delete.as_str(), "Delete selected task");
    add_combo(&mut lines, kb.set_working_directory.as_str(), "Set working directory");
    add_combo(&mut lines, kb.abort_session.as_str(), "Abort running session");
    add_combo(&mut lines, kb.retry_task.as_str(), "Retry hung / failed task");
    add_combo(&mut lines, kb.review_changes.as_str(), "Review changes (diff)");
    add_combo(&mut lines, kb.reports.as_str(), "Reports view");
    add_combo(&mut lines, kb.drill_down_subagent.as_str(), "Drill down into subagent");
    add_combo(&mut lines, kb.add_dependency.as_str(), "Add dependency");
    add_combo(&mut lines, kb.remove_dependency.as_str(), "Remove dependency");
    add_combo(&mut lines, kb.view_archive.as_str(), "View archived tasks");
    add_combo(&mut lines, kb.open_config_editor.as_str(), "Edit configuration");
    add_line(&mut lines, "");
    write_page(&lines)
}

/// Build the Review keybindings tab.
pub fn build_review_text(kb: &KeybindingConfig) -> (r: String)
    ensures
        r@ == page_of(review_lines(*kb)),
{
    let mut lines: Vec<String> = Vec::new();
    proof {
        assert(text::texts(lines@) =~= Seq::<Seq<char>>::empty());
    }
    add_line(&mut lines, "");
    add_line(&mut lines, " Review Keys");
    add_line(&mut lines, " ──────────────────────────────────────");
    add_combo(&mut lines, kb.accept_review.as_str(), "Accept reviewed task (commit + done)");
    add_combo(&mut lines, kb.reject_review.as_str(), "Reject reviewed task (back to running)");
    add_combo(&mut lines, kb.review_changes.as_str(), "View git diff for changes");
    add_line(&mut lines, "");
    write_page(&lines)
}

/// Build the Task Editor keybindings tab.
pub fn build_editor_text(ek: &EditorKeybindingConfig) -> (r: String)
    ensures
        r@ == page_of(editor_lines(*ek)),
{
    let mut lines: Vec<String> = Vec::new();
    proof {
        assert(text::texts(lines@) =~= Seq::<Seq<char>>::empty());
    }
    add_line(&mut lines, "");
    add_line(&mut lines, " Task Editor Keys");
    add_line(&mut lines, " ──────────────────────────────────────");
    add_combo(&mut lines, ek.save.as_str(), "Save task");
    add_combo(&mut lines, ek.cancel.as_str(), "Cancel and discard");
    add_combo(&mut lines, ek.cycle_field.as_str(), "Cycle field focus");
    add_combo(&mut lines, ek.newline.as_str(), "Newline (description)");
    add_line(&mut lines, "   Arrow keys    Move cursor");
    add_line(&mut lines, "   Home / End    Line start / end");
    add_line(&mut lines, "   Page Up/Down  Scroll description");
    add_line(&mut lines, "   Backspace     Delete character before cursor");
    add_line(&mut lines, "   Delete        Delete character at cursor");
    add_line(&mut lines, "");
    write_page(&lines)
}

/// The whole reference: every section and a footer.
pub open spec fn all_text(kb: KeybindingConfig, ek: EditorKeybindingConfig) -> Seq<char> {
    page_of(global_lines(kb)) + page_of(kanban_lines(kb)) + page_of(review_lines(kb)) + page_of(
        editor_lines(ek),
    ) + "\n"@ + " Press any key to close\n"@
}

/// Build the help text for all sections concatenated into one page.
pub fn build_all_help_text(kb: &KeybindingConfig, ek: &EditorKeybindingConfig) -> (r: String)
    ensures
        r@ == all_text(*kb, *ek),
{
    let mut s = build_global_text(kb);
    s.append(build_kanban_text(kb).as_str());
    s.append(build_review_text(kb).as_str());
    s.append(build_editor_text(ek).as_str());
    s.append("\n");
    s.append(" Press any key to close\n");
    s
}

// ─── Overlay ──────────────────────────────────────────────────────────────

/// The frame of an overlay.
pub open spec fn overlay(title: Seq<char>, color: Color) -> Block<Seq<char>> {
    Block::<Seq<char>>::new(Borders::all(), Style::fg(color)).rounded().titled(
        draw::sp(title, Style::bold(color)),
    ).styled(Style::bg(Color::Rgb(36, 40, 56)))
}

/// The frame of an overlay.
pub fn overlay_block(title: &str, color: Color) -> (r: Block<String>)
    ensures
        r.plain() == overlay(title@, color),
{
    Block::new(Borders::all(), Style::fg(color)).rounded().titled(
        draw::span(title, Style::bold(color)),
    ).styled(Style::bg(Color::Rgb(36, 40, 56)))
}

/// What is drawn for the help overlay.
pub open spec fn help_drawn(before: draw::Drawn, screen: Rect, kb: KeybindingConfig) -> draw::Drawn {
    let area = screen.share(70, 90);
    before.push(Draw::Clear { area }).push(
        Draw::Block { area, block: overlay(" Help — Keybindings "@, Color::Cyan) },
    ).push(
        draw::text_at(
            area.bordered(Borders::all()),
            draw::raw(text::lines_of(all_text(kb, kb.editor))),
            Style::fg(Color::White),
        ),
    )
}

/// Render a centered help overlay showing all keybindings at once.
/// The keybindings displayed are pulled from the actual config, so custom
/// bindings are shown instead of a hardcoded default list.
pub fn render_help_overlay(canvas: &mut Canvas, screen: Rect, kb: &KeybindingConfig)
    requires
        screen.fits(),
    ensures
        final(canvas)@ == help_drawn(old(canvas)@, screen, *kb),
{
    let area = screen.centered_percent(70, 90);
    canvas.clear(area);
    canvas.block(area, overlay_block(" Help — Keybindings ", Color::Cyan));
    let help_text = build_all_help_text(kb, &kb.editor);
    canvas.text(
        area.within(Borders::all()),
        Lines::raw(help_text.as_str()),
        Style::fg(Color::White),
    );
}

// ─── Laws ─────────────────────────────────────────────────────────────────

/// Every line of a page can be found in it.
pub proof fn law_page_holds_its_lines(lines: Seq<Seq<char>>, i: int)
    requires
        0 <= i < lines.len(),
    ensures
        exists|at: int| text::stands_at(page_of(lines), lines[i], at),
    decreases lines.len(),
{
    let before = page_of(lines.drop_last());
    if i == lines.len() - 1 {
        assert(page_of(lines).subrange(
            before.len() as int,
            (before.len() + lines.last().len()) as int,
        ) =~= lines.last());
        assert(text::stands_at(page_of(lines), lines[i], before.len() as int));
    } else {
        law_page_holds_its_lines(lines.drop_last(), i);
        let at = choose|at: int| text::stands_at(before, lines[i], at);
        assert(page_of(lines).subrange(at, at + lines[i].len()) =~= before.subrange(
            at,
            at + lines[i].len(),
        ));
        assert(text::stands_at(page_of(lines), lines[i], at));
    }
}

/// Whether the help overlay shows a key combination.
pub open spec fn shows(kb: KeybindingConfig, combo: Seq<char>) -> bool {
    exists|at: int| text::stands_at(all_text(kb, kb.editor), shown_combos(combo), at)
}

spec fn section(kb: KeybindingConfig, n: int) -> Seq<Seq<char>> {
    if n == 0 {
        global_lines(kb)
    } else if n == 1 {
        kanban_lines(kb)
    } else if n == 2 {
        review_lines(kb)
    } else {
        editor_lines(kb.editor)
    }
}

proof fn lemma_stands_in_part(
    whole: Seq<char>,
    front: Seq<char>,
    part: Seq<char>,
    pat: Seq<char>,
    at: int,
)
    requires
        text::stands_at(part, pat, at),
        front.len() + part.len() <= whole.len(),
        whole.subrange(front.len() as int, (front.len() + part.len()) as int) == part,
    ensures
        text::stands_at(whole, pat, front.len() + at),
{
    assert(whole.subrange(front.len() + at, front.len() + at + pat.len()) =~= part.subrange(
        at,
        at + pat.len(),
    ));
}

spec fn joined(pages: Seq<Seq<char>>) -> Seq<char> {
    pages[0] + pages[1] + pages[2] + pages[3] + "\n"@ + " Press any key to close\n"@
}

proof fn lemma_stands_in_whole(pages: Seq<Seq<char>>, n: int, pat: Seq<char>, at: int)
    requires
        pages.len() == 4,
        0 <= n < 4,
        text::stands_at(pages[n], pat, at),
    ensures
        exists|to: int| text::stands_at(joined(pages), pat, to),
{
    let front = if n == 0 {
        Seq::empty()
    } else if n == 1 {
        pages[0]
    } else if n == 2 {
        pages[0] + pages[1]
    } else {
        pages[0] + pages[1] + pages[2]
    };
    let end = (front.len() + pages[n].len()) as int;
    assert(joined(pages).subrange(front.len() as int, end) =~= pages[n]);
    lemma_stands_in_part(joined(pages), front, pages[n], pat, at);
}

proof fn lemma_stands_in_page(lines: Seq<Seq<char>>, i: int, pat: Seq<char>, at: int) -> (to: int)
    requires
        0 <= i < lines.len(),
        text::stands_at(lines[i], pat, at),
    ensures
        text::stands_at(page_of(lines), pat, to),
{
    let page = page_of(lines);
    law_page_holds_its_lines(lines, i);
    let start = choose|start: int| text::stands_at(page, lines[i], start);
    lemma_stands_in_part(page, page.take(start), lines[i], pat, at);
    start + at
}

#[verifier::spinoff_prover]
proof fn lemma_line_shows(
    kb: KeybindingConfig,
    n: int,
    i: int,
    combo: Seq<char>,
    at: int,
)
    requires
        0 <= n < 4,
        0 <= i < section(kb, n).len(),
        text::stands_at(section(kb, n)[i], shown_combos(combo), at),
    ensures
        shows(kb, combo),
{
    let to = lemma_stands_in_page(section(kb, n), i, shown_combos(combo), at);
    let pages = Seq::new(4, |m: int| page_of(section(kb, m)));
    lemma_stands_in_whole(pages, n, shown_combos(combo), to);
    assert(joined(pages) == all_text(kb, kb.editor));
}

proof fn lemma_binding_shown(
    kb: KeybindingConfig,
    n: int,
    i: int,
    combo: Seq<char>,
    what: Seq<char>,
)
    requires
        0 <= n < 4,
        0 <= i < section(kb, n).len(),
        section(kb, n)[i] == entry(shown_combos(combo), what),
    ensures
        shows(kb, combo),
{
    reveal_strlit("   ");
    let c = shown_combos(combo);
    assert(entry(c, what).subrange(3, 3 + c.len() as int) =~= c);
    lemma_line_shows(kb, n, i, combo, 3);
}

proof fn lemma_pair_shown(kb: KeybindingConfig)
    ensures
        shows(kb, kb.next_project@),
        shows(kb, kb.prev_project@),
{
    reveal_strlit("   ");
    reveal_strlit(" / ");
    let a = shown_combos(kb.next_project@);
    let b = shown_combos(kb.prev_project@);
    let line = entry(a + " / "@ + b, "Next / Previous project"@);
    assert(section(kb, 0)[5] == line);
    assert(line.subrange(3, 3 + a.len() as int) =~= a);
    lemma_line_shows(kb, 0, 5, kb.next_project@, 3);
    assert(line.subrange(6 + a.len() as int, 6 + a.len() + b.len() as int) =~= b);
    lemma_line_shows(kb, 0, 5, kb.prev_project@, 6 + a.len() as int);
}

#[verifier::spinoff_prover]
proof fn lemma_global_shown(kb: KeybindingConfig)
    ensures
        shows(kb, kb.quit@),
        shows(kb, kb.help_toggle@),
        shows(kb, kb.next_project@),
        shows(kb, kb.prev_project@),
        shows(kb, kb.new_project@),
        shows(kb, kb.rename_project@),
        shows(kb, kb.delete_project@),
{
    lemma_binding_shown(kb, 0, 3, kb.quit@, "Quit"@);
    lemma_binding_shown(kb, 0, 4, kb.help_toggle@, "Toggle this help overlay"@);
    lemma_pair_shown(kb);
    lemma_binding_shown(kb, 0, 6, kb.new_project@, "New project"@);
    lemma_binding_shown(kb, 0, 7, kb.rename_project@, "Rename active project"@);
    lemma_binding_shown(kb, 0, 8, kb.delete_project@, "Delete active project"@);
}

#[verifier::spinoff_prover]
proof fn lemma_board_shown(kb: KeybindingConfig)
    ensures
        shows(kb, kb.kanban_left@),
        shows(kb, kb.kanban_right@),
        shows(kb, kb.kanban_up@),
        shows(kb, kb.kanban_down@),
        shows(kb, kb.scroll_kanban_left@),
        shows(kb, kb.scroll_kanban_right@),
        shows(kb, kb.todo_new@),
        shows(kb, kb.todo_edit@),
        shows(kb, kb.task_open@),
        shows(kb, kb.task_view@),
        shows(kb, kb.kanban_move_forward@),
        shows(kb, kb.kanban_move_backward@),
        shows(kb, kb.task_move_up@),
        shows(kb, kb.task_move_down@),
        shows(kb, kb.task_delete@),
        shows(kb, kb.set_working_directory@),
        shows(kb, kb.abort_session@),
        shows(kb, kb.retry_task@),
        shows(kb, kb.review_changes@),
        shows(kb, kb.reports@),
        shows(kb, kb.drill_down_subagent@),
        shows(kb, kb.add_dependency@),
        shows(kb, kb.remove_dependency@),
        shows(kb, kb.view_archive@),
        shows(kb, kb.open_config_editor@),
{
    lemma_binding_shown(kb, 1, 3, kb.kanban_left@, "Move focus left (column)"@);
    lemma_binding_shown(kb, 1, 4, kb.kanban_right@, "Move focus right (column)"@);
    lemma_binding_shown(kb, 1, 5, kb.kanban_up@, "Move focus up (task)"@);
    lemma_binding_shown(kb, 1, 6, kb.kanban_down@, "Move focus down (task)"@);
    lemma_binding_shown(
        kb,
        1,
        7,
        kb.scroll_kanban_left@,
        "Scroll board left (reserved, no effect)"@,
    );
    lemma_binding_shown(
        kb,
        1,
        8,
        kb.scroll_kanban_right@,
        "Scroll board right (reserved, no effect)"@,
    );
    lemma_binding_shown(kb, 1, 9, kb.todo_new@, "Create new task"@);
    lemma_binding_shown(kb, 1, 10, kb.todo_edit@, "Edit task"@);
    lemma_binding_shown(kb, 1, 11, kb.task_open@, "Open task detail"@);
    lemma_binding_shown(kb, 1, 12, kb.task_view@, "View task detail & stream"@);
    lemma_binding_shown(kb, 1, 13, kb.kanban_move_forward@, "Move task forward (→ column)"@);
    lemma_binding_shown(kb, 1, 14, kb.kanban_move_backward@, "Move task backward (← column)"@);
    lemma_binding_shown(kb, 1, 15, kb.task_move_up@, "Move task up (reserved, no effect)"@);
    lemma_binding_shown(kb, 1, 16, kb.task_move_down@, "Move task down (reserved, no effect)"@);
    lemma_binding_shown(kb, 1, 17, kb.task_delete@, "Delete selected task"@);
    lemma_binding_shown(kb, 1, 18, kb.set_working_directory@, "Set working directory"@);
    lemma_binding_shown(kb, 1, 19, kb.abort_session@, "Abort running session"@);
    lemma_binding_shown(kb, 1, 20, kb.retry_task@, "Retry hung / failed task"@);
    lemma_binding_shown(kb, 1, 21, kb.review_changes@, "Review changes (diff)"@);
    lemma_binding_shown(kb, 1, 22, kb.reports@, "Reports view"@);
    lemma_binding_shown(kb, 1, 23, kb.drill_down_subagent@, "Drill down into subagent"@);
    lemma_binding_shown(kb, 1, 24, kb.add_dependency@, "Add dependency"@);
    lemma_binding_shown(kb, 1, 25, kb.remove_dependency@, "Remove dependency"@);
    lemma_binding_shown(kb, 1, 26, kb.view_archive@, "View archived tasks"@);
    lemma_binding_shown(kb, 1, 27, kb.open_config_editor@, "Edit configuration"@);
}

#[verifier::spinoff_prover]
proof fn lemma_review_shown(kb: KeybindingConfig)
    ensures
        shows(kb, kb.accept_review@),
        shows(kb, kb.reject_review@),
{
    lemma_binding_shown(kb, 2, 3, kb.accept_review@, "Accept reviewed task (commit + done)"@);
    lemma_binding_shown(kb, 2, 4, kb.reject_review@, "Reject reviewed task (back to running)"@);
}

#[verifier::spinoff_prover]
proof fn lemma_editor_shown(kb: KeybindingConfig)
    ensures
        shows(kb, kb.editor.save@),
        shows(kb, kb.editor.cancel@),
        shows(kb, kb.editor.cycle_field@),
        shows(kb, kb.editor.newline@),
{
    lemma_binding_shown(kb, 3, 3, kb.editor.save@, "Save task"@);
    lemma_binding_shown(kb, 3, 4, kb.editor.cancel@, "Cancel and discard"@);
    lemma_binding_shown(kb, 3, 5, kb.editor.cycle_field@, "Cycle field focus"@);
    lemma_binding_shown(kb, 3, 6, kb.editor.newline@, "Newline (description)"@);
}

/// The help overlay is a full reference: it shows the combination of every
/// binding in the configuration.
pub proof fn law_every_binding_is_shown(kb: KeybindingConfig)
    ensures
        shows(kb, kb.quit@),
        shows(kb, kb.help_toggle@),
        shows(kb, kb.next_project@),
        shows(kb, kb.prev_project@),
        shows(kb, kb.new_project@),
        shows(kb, kb.rename_project@),
        shows(kb, kb.delete_project@),
        shows(kb, kb.kanban_left@),
        shows(kb, kb.kanban_right@),
        shows(kb, kb.kanban_up@),
        shows(kb, kb.kanban_down@),
        shows(kb, kb.scroll_kanban_left@),
        shows(kb, kb.scroll_kanban_right@),
        shows(kb, kb.todo_new@),
        shows(kb, kb.todo_edit@),
        shows(kb, kb.task_open@),
        shows(kb, kb.task_view@),
        shows(kb, kb.kanban_move_forward@),
        shows(kb, kb.kanban_move_backward@),
        shows(kb, kb.task_move_up@),
        shows(kb, kb.task_move_down@),
        shows(kb, kb.task_delete@),
        shows(kb, kb.set_working_directory@),
        shows(kb, kb.abort_session@),
        shows(kb, kb.retry_task@),
        shows(kb, kb.review_changes@),
        shows(kb, kb.reports@),
        shows(kb, kb.drill_down_subagent@),
        shows(kb, kb.add_dependency@),
        shows(kb, kb.remove_dependency@),
        shows(kb, kb.view_archive@),
        shows(kb, kb.open_config_editor@),
        shows(kb, kb.accept_review@),
        shows(kb, kb.reject_review@),
        shows(kb, kb.editor.save@),
        shows(kb, kb.editor.cancel@),
        shows(kb, kb.editor.cycle_field@),
        shows(kb, kb.editor.newline@),
{
    lemma_global_shown(kb);
    lemma_board_shown(kb);
    lemma_review_shown(kb);
    lemma_editor_shown(kb);
}

} // verus!
