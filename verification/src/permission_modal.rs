//! Permission/question modal overlay.
//!
//! A centered modal on top of the task detail view when the agent asks for
//! permission or has a question. Shows full context and selectable options
//! navigable with arrow keys + Enter (or y/n / digit shortcuts).

use vstd::prelude::*;
use crate::draw;
use crate::draw::{Block, Borders, Canvas, Color, Draw, Line, Lines, Rect, Span, Style, Theme};
use crate::state::{AppState, TaskDetailSession};
use crate::table;
use crate::text;

verus! {

// ─── Word wrapping ────────────────────────────────────────────────────────

/// Text that is being wrapped: the lines that are finished, and the one that is
/// being filled.
#[verifier::ext_equal]
pub struct Filling {
    pub done: Seq<Seq<char>>,
    pub current: Seq<char>,
}

/// A word at the start of a line of at most `max` characters: one that is too
/// long makes a line of its own, cut short.
pub open spec fn started(done: Seq<Seq<char>>, word: Seq<char>, max: nat) -> Filling {
    if word.len() > max {
        Filling { done: done.push(word.take(max - 1) + "…"@), current: Seq::empty() }
    } else {
        Filling { done, current: word }
    }
}

/// One more word: on the current line where it has room, else on the next.
pub open spec fn with_word(f: Filling, word: Seq<char>, max: nat) -> Filling {
    if f.current.len() == 0 {
        started(f.done, word, max)
    } else if text::byte_len(f.current) + 1 + text::byte_len(word) <= max {
        Filling { current: f.current + " "@ + word, ..f }
    } else {
        started(f.done.push(f.current), word, max)
    }
}

/// All of the words, one after the other.
pub open spec fn with_words(words: Seq<Seq<char>>, max: nat) -> Filling
    decreases words.len(),
{
    if words.len() == 0 {
        Filling { done: Seq::empty(), current: Seq::empty() }
    } else {
        with_word(with_words(words.drop_last(), max), words.last(), max)
    }
}

/// One line of text, wrapped.
pub open spec fn wrapped_line(line: Seq<char>, max: nat) -> Seq<Seq<char>> {
    if line.len() == 0 {
        Seq::empty().push(Seq::empty())
    } else {
        let f = with_words(text::words_of(line), max);
        if f.current.len() > 0 {
            f.done.push(f.current)
        } else {
            f.done
        }
    }
}

/// The lines of text, each wrapped.
pub open spec fn wrapped_lines(lines: Seq<Seq<char>>, max: nat) -> Seq<Seq<char>>
    decreases lines.len(),
{
    if lines.len() == 0 {
        Seq::empty()
    } else {
        wrapped_lines(lines.drop_last(), max) + wrapped_line(lines.last(), max)
    }
}

/// The text wrapped to lines of at most `max` characters; without any room it
/// stays as it is.
pub open spec fn wrapped(s: Seq<char>, max: nat) -> Seq<Seq<char>> {
    if max == 0 {
        Seq::empty().push(s)
    } else {
        wrapped_lines(text::lines_of(s), max)
    }
}

fn start(done: &mut Vec<String>, word: &str, max: usize) -> (r: String)
    requires
        max > 0,
    ensures
        (Filling { done: text::texts(final(done)@), current: r@ }) == started(
            text::texts(old(done)@),
            word@,
            max as nat,
        ),
{
    if word.unicode_len() > max {
        let ghost before = done@;
        let mut cut = text::take(word, max - 1);
        cut.append("…");
        done.push(cut);
        let r = String::new();
        proof {
            assert(text::texts(done@) =~= text::texts(before).push(done@.last()@));
            assert(r@ =~= Seq::<char>::empty());
        }
        r
    } else {
        word.to_owned()
    }
}

fn wrap_line(line: &str, max: usize) -> (r: Vec<String>)
    requires
        max > 0,
    ensures
        text::texts(r@) == wrapped_line(line@, max as nat),
{
    let mut done: Vec<String> = Vec::new();
    let mut current = String::new();
    proof {
        assert(text::texts(done@) =~= Seq::<Seq<char>>::empty());
        assert(current@ =~= Seq::<char>::empty());
    }
    if line.unicode_len() == 0 {
        done.push(current);
        proof {
            assert(text::texts(done@) =~= wrapped_line(line@, max as nat));
        }
        return done;
    }
    let words = text::words(line);
    let ghost all = text::texts(words@);
    let mut i: usize = 0;
    proof {
        assert(all.take(0) =~= Seq::<Seq<char>>::empty());
    }
    while i < words.len()
        invariant
            i <= words@.len(),
            max > 0,
            all == text::texts(words@),
            (Filling { done: text::texts(done@), current: current@ }) == with_words(
                all.take(i as int),
                max as nat,
            ),
        decreases words@.len() - i,
    {
        let word = words[i].as_str();
        proof {
            assert(all.take(i + 1).drop_last() =~= all.take(i as int));
            assert(all.take(i + 1).last() == word@);
        }
        if current.as_str().unicode_len() == 0 {
            current = start(&mut done, word, max);
        } else if text::bytes_in(current.as_str()) + 1 + text::bytes_in(word) <= max as u128 {
            current.append(" ");
            current.append(word);
        } else {
            let ghost before = done@;
            done.push(current);
            proof {
                assert(text::texts(done@) =~= text::texts(before).push(done@.last()@));
            }
            current = start(&mut done, word, max);
        }
        i += 1;
    }
    proof {
        assert(all.take(i as int) =~= all);
    }
    if current.as_str().unicode_len() > 0 {
        let ghost before = done@;
        done.push(current);
        proof {
            assert(text::texts(done@) =~= text::texts(before).push(done@.last()@));
        }
    }
    done
}

/// Simple word-wrapping for a text string to fit within `max_width` characters.
pub fn wrap_text(s: &str, max_width: usize) -> (r: Vec<String>)
    ensures
        text::texts(r@) == wrapped(s@, max_width as nat),
{
    let mut out: Vec<String> = Vec::new();
    if max_width == 0 {
        out.push(s.to_owned());
        proof {
            assert(text::texts(out@) =~= wrapped(s@, 0));
        }
        return out;
    }
    let lines = text::lines(s);
    let ghost all = text::texts(lines@);
    let mut i: usize = 0;
    proof {
        assert(text::texts(out@) =~= wrapped_lines(all.take(0), max_width as nat));
    }
    while i < lines.len()
        invariant
            i <= lines@.len(),
            max_width > 0,
            all == text::texts(lines@),
            text::texts(out@) == wrapped_lines(all.take(i as int), max_width as nat),
        decreases lines@.len() - i,
    {
        let ghost before = out@;
        let mut more = wrap_line(lines[i].as_str(), max_width);
        let ghost added = more@;
        out.append(&mut more);
        proof {
            assert(all.take(i + 1).drop_last() =~= all.take(i as int));
            assert(all.take(i + 1).last() == lines@[i as int]@);
            assert(text::texts(out@) =~= text::texts(before) + text::texts(added));
        }
        i += 1;
    }
    proof {
        assert(all.take(i as int) =~= all);
    }
    out
}

/// No wrapped line is longer than the room there is.
pub proof fn law_wrapped_lines_fit(s: Seq<char>, max: nat, i: int)
    requires
        max > 0,
        0 <= i < wrapped(s, max).len(),
    ensures
        wrapped(s, max)[i].len() <= max,
{
    lemma_lines_fit(text::lines_of(s), max);
}

spec fn fit(lines: Seq<Seq<char>>, max: nat) -> bool {
    forall|i: int| 0 <= i < lines.len() ==> (#[trigger] lines[i]).len() <= max
}

proof fn lemma_words_fit(words: Seq<Seq<char>>, max: nat)
    requires
        max > 0,
    ensures
        fit(with_words(words, max).done, max),
        with_words(words, max).current.len() <= max,
    decreases words.len(),
{
    reveal_strlit("…");
    reveal_strlit(" ");
    if words.len() > 0 {
        lemma_words_fit(words.drop_last(), max);
        let f = with_words(words.drop_last(), max);
        let word = words.last();
        text::lemma_byte_len_grows(f.current, 0, f.current.len() as int);
        text::lemma_byte_len_grows(word, 0, word.len() as int);
        assert(f.current.take(f.current.len() as int) =~= f.current);
        assert(word.take(word.len() as int) =~= word);
    }
}

proof fn lemma_lines_fit(lines: Seq<Seq<char>>, max: nat)
    requires
        max > 0,
    ensures
        fit(wrapped_lines(lines, max), max),
    decreases lines.len(),
{
    if lines.len() > 0 {
        lemma_lines_fit(lines.drop_last(), max);
        lemma_words_fit(text::words_of(lines.last()), max);
    }
}

/// The words of all lines, in order.
pub open spec fn all_words(lines: Seq<Seq<char>>) -> Seq<Seq<char>>
    decreases lines.len(),
{
    if lines.len() == 0 {
        Seq::empty()
    } else {
        all_words(lines.drop_last()) + text::words_of(lines.last())
    }
}

/// Wrapping moves words to other lines but loses none of them and keeps their
/// order, as long as each of them fits on a line.
pub proof fn law_wrapping_keeps_the_words(s: Seq<char>, max: nat)
    requires
        max > 0,
        forall|i: int|
            0 <= i < all_words(text::lines_of(s)).len() ==> (#[trigger] all_words(
                text::lines_of(s),
            )[i]).len() <= max,
    ensures
        all_words(wrapped(s, max)) == all_words(text::lines_of(s)),
{
    lemma_lines_keep_words(text::lines_of(s), max);
}

proof fn lemma_all_words_join(a: Seq<Seq<char>>, b: Seq<Seq<char>>)
    ensures
        all_words(a + b) == all_words(a) + all_words(b),
    decreases b.len(),
{
    if b.len() == 0 {
        assert(a + b =~= a);
        assert(all_words(a) + all_words(b) =~= all_words(a));
    } else {
        lemma_all_words_join(a, b.drop_last());
        assert((a + b).drop_last() =~= a + b.drop_last());
        assert(all_words(a + b) =~= all_words(a) + all_words(b));
    }
}

proof fn lemma_filling_keeps_words(words: Seq<Seq<char>>, max: nat)
    requires
        max > 0,
        forall|i: int|
            0 <= i < words.len() ==> text::is_word(#[trigger] words[i]) && words[i].len() <= max,
    ensures
        ({
            let f = with_words(words, max);
            all_words(f.done) + text::words_of(f.current) == words
        }),
    decreases words.len(),
{
    text::lemma_word_alone(Seq::empty());
    if words.len() == 0 {
        let f = with_words(words, max);
        assert(all_words(f.done) + text::words_of(f.current) =~= words);
    } else {
        let rest = words.drop_last();
        let word = words.last();
        assert forall|i: int| 0 <= i < rest.len() implies text::is_word(#[trigger] rest[i])
            && rest[i].len() <= max by {
            assert(rest[i] == words[i]);
        }
        lemma_filling_keeps_words(rest, max);
        let before = with_words(rest, max);
        let f = with_words(words, max);
        assert(text::is_word(words[words.len() - 1]));
        text::lemma_word_alone(word);
        text::lemma_words_join(before.current, word);
        assert(before.done.push(before.current).drop_last() =~= before.done);
        assert(all_words(f.done) + text::words_of(f.current) =~= rest.push(word));
        assert(rest.push(word) =~= words);
    }
}

proof fn lemma_lines_keep_words(lines: Seq<Seq<char>>, max: nat)
    requires
        max > 0,
        forall|i: int|
            0 <= i < all_words(lines).len() ==> (#[trigger] all_words(lines)[i]).len() <= max,
    ensures
        all_words(wrapped_lines(lines, max)) == all_words(lines),
    decreases lines.len(),
{
    if lines.len() > 0 {
        let rest = lines.drop_last();
        let line = lines.last();
        let words = text::words_of(line);
        let before = all_words(rest);
        assert forall|i: int| 0 <= i < before.len() implies (#[trigger] before[i]).len()
            <= max by {
            assert(all_words(lines)[i] == before[i]);
        }
        lemma_lines_keep_words(rest, max);
        assert forall|i: int| 0 <= i < words.len() implies text::is_word(#[trigger] words[i])
            && words[i].len() <= max by {
            text::lemma_words_are_words(line, i);
            assert(all_words(lines)[before.len() + i] == words[i]);
        }
        lemma_filling_keeps_words(words, max);
        text::lemma_word_alone(Seq::empty());
        let f = with_words(words, max);
        let out = wrapped_line(line, max);
        if line.len() == 0 {
            assert(out.drop_last() =~= Seq::<Seq<char>>::empty());
            assert(line =~= Seq::<char>::empty());
            assert(all_words(out) =~= words);
        } else if f.current.len() > 0 {
            assert(out.drop_last() =~= f.done);
            assert(all_words(out) =~= words);
        } else {
            assert(f.current =~= Seq::<char>::empty());
            assert(all_words(out) =~= words);
        }
        lemma_all_words_join(wrapped_lines(rest, max), out);
        assert(all_words(wrapped_lines(lines, max)) =~= all_words(lines));
    }
}

// ─── What the modal shows ─────────────────────────────────────────────────

/// What the modal asks. `S` is the type of the texts in it and `O` that of the
/// options: strings in executable code, characters in contracts.
#[derive(Debug, PartialEq, Eq)]
#[verifier::ext_equal]
pub struct ModalData<S, O> {
    pub is_permission: bool,
    /// The name of the tool, or the question.
    pub subject: S,
    /// What the tool is to do.
    pub details: S,
    pub options: O,
    /// How many requests of this sort wait.
    pub total: usize,
}

impl ModalData<String, Vec<String>> {
    /// The data with its texts as characters.
    pub open spec fn plain(self) -> ModalData<Seq<char>, Seq<Seq<char>>> {
        ModalData {
            is_permission: self.is_permission,
            subject: self.subject@,
            details: self.details@,
            options: text::texts(self.options@),
            total: self.total,
        }
    }
}

/// The answer with its number before it.
pub open spec fn numbered(i: int, answer: Seq<char>) -> Seq<char> {
    "["@ + text::decimal((i + 1) as nat) + "] "@ + answer
}

/// `selected`, or the last of `len` entries.
pub open spec fn up_to_last(selected: usize, len: nat) -> int {
    if selected < len {
        selected as int
    } else {
        len - 1
    }
}

/// What a session asks: the selected permission, else the selected question,
/// else nothing.
pub open spec fn asked(session: Option<TaskDetailSession>, selected: usize) -> Option<
    ModalData<Seq<char>, Seq<Seq<char>>>,
> {
    match session {
        None => None,
        Some(s) => {
            let perms = s.pending_permissions@;
            let questions = s.pending_questions@;
            if perms.len() > 0 {
                let p = perms[up_to_last(selected, perms.len())];
                Some(
                    ModalData {
                        is_permission: true,
                        subject: p.tool_name@,
                        details: match p.details {
                            Some(d) => d@,
                            None => p.description@,
                        },
                        options: Seq::empty().push("Yes (approve)"@).push("No (reject)"@),
                        total: perms.len() as usize,
                    },
                )
            } else if questions.len() > 0 {
                let q = questions[up_to_last(selected, questions.len())];
                Some(
                    ModalData {
                        is_permission: false,
                        subject: q.question@,
                        details: Seq::empty(),
                        options: Seq::new(
                            q.answers@.len(),
                            |i: int| numbered(i, q.answers@[i]@),
                        ),
                        total: questions.len() as usize,
                    },
                )
            } else {
                None
            }
        },
    }
}

/// Gather modal data from a session reference.
pub fn gather_modal_data(session: Option<&TaskDetailSession>, selected_index: usize) -> (r: Option<
    ModalData<String, Vec<String>>,
>)
    ensures
        match r {
            Some(d) => asked(
                match session {
                    Some(s) => Some(*s),
                    None => None,
                },
                selected_index,
            ) == Some(d.plain()),
            None => asked(
                match session {
                    Some(s) => Some(*s),
                    None => None,
                },
                selected_index,
            ) is None,
        },
{
    let session = match session {
        Some(s) => s,
        None => {
            return None;
        },
    };
    if session.pending_permissions.len() > 0 {
        let total: usize = session.pending_permissions.len();
        let idx: usize = if selected_index < total {
            selected_index
        } else {
            total - 1
        };
        let perm = &session.pending_permissions[idx];
        let mut options: Vec<String> = Vec::new();
        options.push("Yes (approve)".to_owned());
        options.push("No (reject)".to_owned());
        let details = match &perm.details {
            Some(d) => d.clone(),
            None => perm.description.clone(),
        };
        proof {
            assert(text::texts(options@) =~= Seq::empty().push("Yes (approve)"@).push(
                "No (reject)"@,
            ));
        }
        Some(
            ModalData {
                is_permission: true,
                subject: perm.tool_name.clone(),
                details,
                options,
                total,
            },
        )
    } else if session.pending_questions.len() > 0 {
        let total: usize = session.pending_questions.len();
        let idx: usize = if selected_index < total {
            selected_index
        } else {
            total - 1
        };
        let question = &session.pending_questions[idx];
        let options = number_answers(&question.answers);
        let details = String::new();
        proof {
            assert(details@ =~= Seq::<char>::empty());
        }
        Some(
            ModalData {
                is_permission: false,
                subject: question.question.clone(),
                details,
                options,
                total,
            },
        )
    } else {
        None
    }
}

fn number_answers(answers: &Vec<String>) -> (r: Vec<String>)
    ensures
        text::texts(r@) == Seq::new(answers@.len(), |i: int| numbered(i, answers@[i]@)),
{
    let mut out: Vec<String> = Vec::new();
    let ghost want = Seq::new(answers@.len(), |i: int| numbered(i, answers@[i]@));
    let mut i: usize = 0;
    while i < answers.len()
        invariant
            i <= answers@.len(),
            want == Seq::new(answers@.len(), |i: int| numbered(i, answers@[i]@)),
            text::texts(out@) == want.take(i as int),
        decreases answers@.len() - i,
    {
        let ghost before = out@;
        let mut option = text::join2("[", text::dec(i as u64 + 1).as_str());
        option.append("] ");
        option.append(answers[i].as_str());
        out.push(option);
        proof {
            assert(text::texts(out@) =~= text::texts(before).push(out@.last()@));
            assert(want.take(i + 1) =~= want.take(i as int).push(want[i as int]));
        }
        i += 1;
    }
    proof {
        assert(want.take(i as int) =~= want);
    }
    out
}

/// What the modal asks: what the session of the subagent drilled into asks, or
/// else that of the task in view, which holds the requests of its subagents.
pub open spec fn asked_in(state: AppState) -> Option<ModalData<Seq<char>, Seq<Seq<char>>>> {
    let selected = state.ui.permission_modal_selected_index;
    let sub = match state.drilldown() {
        Some(sid) => asked(
            table::lookup(state.session_tracker.subagent_session_data@, sid),
            selected,
        ),
        None => None,
    };
    match sub {
        Some(d) => Some(d),
        None => match state.ui.viewing_task_id {
            Some(tid) => asked(
                table::lookup(state.session_tracker.task_sessions@, tid@),
                selected,
            ),
            None => None,
        },
    }
}

fn find_request(state: &AppState) -> (r: Option<ModalData<String, Vec<String>>>)
    ensures
        match r {
            Some(d) => asked_in(*state) == Some(d.plain()),
            None => asked_in(*state) is None,
        },
{
    let selected: usize = state.ui.permission_modal_selected_index;
    if let Some(sid) = state.get_drilldown_session_id() {
        let sub = gather_modal_data(
            state.session_tracker.subagent_session_data.get(sid.as_str()),
            selected,
        );
        if sub.is_some() {
            return sub;
        }
    }
    match &state.ui.viewing_task_id {
        Some(tid) => gather_modal_data(
            state.session_tracker.task_sessions.get(tid.as_str()),
            selected,
        ),
        None => None,
    }
}

// ─── Drawing ──────────────────────────────────────────────────────────────

/// How high the modal is on a screen of the given height: high enough for its
/// lines and their frame where the screen has room for them, and no lower than
/// four lines of details need.
pub open spec fn modal_height(options: nat, lines: nat, height: u16) -> int {
    let usual = 10 + if options > 0 {
        options
    } else {
        1
    };
    let wanted = if lines + 2 > usual {
        lines + 2
    } else {
        usual
    };
    let room = if height > 4 {
        height - 4
    } else {
        0
    };
    if wanted < room {
        wanted as int
    } else {
        room
    }
}

/// How wide the modal is on a screen of the given width.
pub open spec fn modal_width(width: u16) -> int {
    if width >= 64 {
        60
    } else if width > 4 {
        width - 4
    } else {
        0
    }
}

/// The color of a permission or a question.
pub open spec fn accent(is_permission: bool, theme: Theme) -> Color {
    if is_permission {
        theme.error
    } else {
        theme.question
    }
}

/// The title of the modal, with a counter when several requests wait.
pub open spec fn modal_title(is_permission: bool, total: usize) -> Seq<char> {
    let counter = if total > 1 {
        " "@ + text::decimal(total as nat) + " pending "@
    } else {
        Seq::empty()
    };
    if is_permission {
        "⚠ "@ + " Permission Request"@ + counter + " "@
    } else {
        "? "@ + " Question"@ + counter + " "@
    }
}

/// The frame of the modal.
pub open spec fn modal_block(is_permission: bool, total: usize, theme: Theme) -> Block<Seq<char>> {
    let color = accent(is_permission, theme);
    Block::<Seq<char>>::new(Borders::all(), Style::fg(color)).rounded().titled(
        draw::sp(modal_title(is_permission, total), Style::bold(color)),
    ).styled(Style::bg(Color::Rgb(30, 32, 44)))
}

/// What stands before the tool or the question.
pub open spec fn subject_label(is_permission: bool) -> Seq<char> {
    if is_permission {
        "Tool: "@
    } else {
        "Q: "@
    }
}

/// A line on the tool or the question; the first one starts with the label.
pub open spec fn subject_line(
    is_permission: bool,
    line: Seq<char>,
    first: bool,
    theme: Theme,
) -> Seq<Span<Seq<char>>> {
    let n = subject_label(is_permission).len() as int;
    if first {
        draw::blank().push(
            draw::sp(text::first(line, n), Style::bold(accent(is_permission, theme))),
        ).push(draw::sp(text::after(line, n), Style::bold(Color::White)))
    } else {
        draw::blank().push(draw::sp(line, Style::bold(Color::White)))
    }
}

/// The lines with the tool or the question: label and text, wrapped.
pub open spec fn subject_lines(
    d: ModalData<Seq<char>, Seq<Seq<char>>>,
    width: u16,
    theme: Theme,
) -> Seq<Seq<Span<Seq<char>>>> {
    let lines = wrapped(subject_label(d.is_permission) + d.subject, width as nat);
    Seq::new(lines.len(), |i: int| subject_line(d.is_permission, lines[i], i == 0, theme))
}

/// The lines with the details.
pub open spec fn detail_lines(details: Seq<char>, width: u16) -> Seq<Seq<Span<Seq<char>>>> {
    let lines = wrapped(details, width as nat);
    Seq::new(
        lines.len(),
        |i: int| draw::blank().push(draw::sp(lines[i], Style::fg(Color::Rgb(200, 200, 215)))),
    )
}

/// How option `i` looks: green and red for yes and no, cyan for an answer, gray
/// unless it is selected.
pub open spec fn option_style(is_permission: bool, i: int, selected: bool) -> Style {
    if selected {
        if is_permission {
            if i == 0 {
                Style::on(Color::Green, Color::Rgb(30, 50, 30))
            } else {
                Style::on(Color::Red, Color::Rgb(50, 30, 30))
            }
        } else {
            Style::on(Color::Cyan, Color::Rgb(30, 40, 55))
        }
    } else {
        Style::on(Color::Rgb(160, 164, 180), Color::Rgb(30, 32, 44))
    }
}

/// The line of an option, with a cursor before the selected one.
pub open spec fn option_line(
    is_permission: bool,
    i: int,
    option: Seq<char>,
    selected: usize,
) -> Seq<Span<Seq<char>>> {
    let style = option_style(is_permission, i, i == selected);
    draw::blank().push(
        draw::sp(
            if i == selected {
                "▶ "@
            } else {
                "  "@
            },
            style,
        ),
    ).push(draw::sp(option, style))
}

/// The lines of the options.
pub open spec fn option_lines(
    d: ModalData<Seq<char>, Seq<Seq<char>>>,
    selected: usize,
) -> Seq<Seq<Span<Seq<char>>>> {
    Seq::new(
        d.options.len(),
        |i: int| option_line(d.is_permission, i, d.options[i], selected),
    )
}

/// The keys of the modal.
pub open spec fn modal_hints(is_permission: bool) -> Seq<Span<Seq<char>>> {
    let hint = Style::fg(Color::Rgb(100, 104, 120));
    let keys = draw::blank().push(draw::sp(" ↑↓"@, hint)).push(
        draw::sp(" navigate  "@, hint),
    ).push(draw::sp("Enter"@, hint)).push(draw::sp(" select  "@, hint));
    let quick = if is_permission {
        keys.push(draw::sp("y"@, Style::fg(Color::Green))).push(draw::sp("/"@, hint)).push(
            draw::sp("n"@, Style::fg(Color::Red)),
        )
    } else {
        keys.push(draw::sp("1-9"@, Style::fg(Color::Cyan)))
    };
    quick.push(draw::sp(" quick  "@, hint)).push(draw::sp("Esc"@, hint)).push(
        draw::sp(" close"@, hint),
    )
}

/// All of the lines of the modal.
pub open spec fn modal_lines(
    d: ModalData<Seq<char>, Seq<Seq<char>>>,
    selected: usize,
    width: u16,
    theme: Theme,
) -> Seq<Seq<Span<Seq<char>>>> {
    let head = subject_lines(d, width, theme).push(draw::blank());
    let body = if d.details.len() > 0 {
        (head + detail_lines(d.details, width)).push(draw::blank())
    } else {
        head
    };
    (body + option_lines(d, selected)).push(draw::blank()).push(modal_hints(d.is_permission))
}

/// What is drawn for the modal: nothing when nothing is asked or the screen is
/// too small.
pub open spec fn modal_drawn(
    before: Seq<Draw<Seq<char>, Seq<Seq<Span<Seq<char>>>>>>,
    area: Rect,
    state: AppState,
    theme: Theme,
) -> Seq<Draw<Seq<char>, Seq<Seq<Span<Seq<char>>>>>> {
    match asked_in(state) {
        None => before,
        Some(d) => {
            let width = modal_width(area.width);
            let lines = modal_lines(
                d,
                state.ui.permission_modal_selected_index,
                (width - 2) as u16,
                theme,
            );
            let height = modal_height(d.options.len(), lines.len(), area.height);
            if width < 30 || height < 8 {
                before
            } else {
                let popup = area.middle(width as u16, height as u16);
                before.push(Draw::Clear { area: popup }).push(
                    Draw::Block {
                        area: popup,
                        block: modal_block(d.is_permission, d.total, theme),
                    },
                ).push(draw::text_at(popup.bordered(Borders::all()), lines, Style::plain()))
            }
        },
    }
}

fn title_of(is_permission: bool, total: usize) -> (r: String)
    ensures
        r@ == modal_title(is_permission, total),
{
    let counter = if total > 1 {
        let mut c = text::join2(" ", text::dec(total as u64).as_str());
        c.append(" pending ");
        c
    } else {
        let c = String::new();
        proof {
            assert(c@ =~= Seq::<char>::empty());
        }
        c
    };
    let mut out = if is_permission {
        text::join2("⚠ ", " Permission Request")
    } else {
        text::join2("? ", " Question")
    };
    out.append(counter.as_str());
    out.append(" ");
    out
}

fn hints_of(is_permission: bool) -> (r: Line)
    ensures
        r@ == modal_hints(is_permission),
{
    let hint = Style::fg(Color::Rgb(100, 104, 120));
    let keys = Line::of(" ↑↓", hint).with(" navigate  ", hint).with("Enter", hint).with(
        " select  ",
        hint,
    );
    let quick = if is_permission {
        keys.with("y", Style::fg(Color::Green)).with("/", hint).with("n", Style::fg(Color::Red))
    } else {
        keys.with("1-9", Style::fg(Color::Cyan))
    };
    quick.with(" quick  ", hint).with("Esc", hint).with(" close", hint)
}

fn push_subject(content: &mut Lines, d: &ModalData<String, Vec<String>>, width: u16, theme: Theme)
    ensures
        final(content)@ == old(content)@ + subject_lines(d.plain(), width, theme),
{
    let label = if d.is_permission {
        "Tool: "
    } else {
        "Q: "
    };
    let color = if d.is_permission {
        theme.error
    } else {
        theme.question
    };
    let lines = wrap_text(text::join2(label, d.subject.as_str()).as_str(), width as usize);
    let n: usize = label.unicode_len();
    let ghost before = content@;
    let ghost want = subject_lines(d.plain(), width, theme);
    let mut i: usize = 0;
    proof {
        assert(before + want.take(0) =~= before);
    }
    while i < lines.len()
        invariant
            i <= lines@.len(),
            label@ == subject_label(d.is_permission),
            n == label@.len(),
            color == accent(d.is_permission, theme),
            want == subject_lines(d.plain(), width, theme),
            text::texts(lines@) == wrapped(label@ + d.subject@, width as nat),
            content@ == before + want.take(i as int),
        decreases lines@.len() - i,
    {
        let line = lines[i].as_str();
        if i == 0 {
            let head = text::take(line, n);
            let rest = text::skip(line, n);
            content.push(
                Line::of(head.as_str(), Style::bold(color)).with(
                    rest.as_str(),
                    Style::bold(Color::White),
                ),
            );
        } else {
            content.push(Line::of(line, Style::bold(Color::White)));
        }
        proof {
            assert(text::texts(lines@)[i as int] == lines@[i as int]@);
            assert(before + want.take(i + 1) =~= (before + want.take(i as int)).push(
                want[i as int],
            ));
        }
        i += 1;
    }
    proof {
        assert(want.take(i as int) =~= want);
    }
}

fn push_details(content: &mut Lines, details: &str, width: u16)
    ensures
        final(content)@ == old(content)@ + detail_lines(details@, width),
{
    let lines = wrap_text(details, width as usize);
    let ghost before = content@;
    let ghost want = detail_lines(details@, width);
    let mut i: usize = 0;
    proof {
        assert(before + want.take(0) =~= before);
    }
    while i < lines.len()
        invariant
            i <= lines@.len(),
            want == detail_lines(details@, width),
            text::texts(lines@) == wrapped(details@, width as nat),
            content@ == before + want.take(i as int),
        decreases lines@.len() - i,
    {
        content.push(Line::of(lines[i].as_str(), Style::fg(Color::Rgb(200, 200, 215))));
        proof {
            assert(text::texts(lines@)[i as int] == lines@[i as int]@);
            assert(before + want.take(i + 1) =~= (before + want.take(i as int)).push(
                want[i as int],
            ));
        }
        i += 1;
    }
    proof {
        assert(want.take(i as int) =~= want);
    }
}

fn style_of(is_permission: bool, i: usize, selected: bool) -> (r: Style)
    ensures
        r == option_style(is_permission, i as int, selected),
{
    if selected {
        if is_permission {
            if i == 0 {
                Style::on(Color::Green, Color::Rgb(30, 50, 30))
            } else {
                Style::on(Color::Red, Color::Rgb(50, 30, 30))
            }
        } else {
            Style::on(Color::Cyan, Color::Rgb(30, 40, 55))
        }
    } else {
        Style::on(Color::Rgb(160, 164, 180), Color::Rgb(30, 32, 44))
    }
}

fn push_options(content: &mut Lines, d: &ModalData<String, Vec<String>>, selected: usize)
    ensures
        final(content)@ == old(content)@ + option_lines(d.plain(), selected),
{
    let ghost before = content@;
    let ghost want = option_lines(d.plain(), selected);
    let mut i: usize = 0;
    proof {
        assert(before + want.take(0) =~= before);
    }
    while i < d.options.len()
        invariant
            i <= d.options@.len(),
            want == option_lines(d.plain(), selected),
            content@ == before + want.take(i as int),
        decreases d.options@.len() - i,
    {
        let style = style_of(d.is_permission, i, i == selected);
        let cursor = if i == selected {
            "▶ "
        } else {
            "  "
        };
        content.push(Line::of(cursor, style).with(d.options[i].as_str(), style));
        proof {
            assert(text::texts(d.options@)[i as int] == d.options@[i as int]@);
            assert(before + want.take(i + 1) =~= (before + want.take(i as int)).push(
                want[i as int],
            ));
        }
        i += 1;
    }
    proof {
        assert(want.take(i as int) =~= want);
    }
}

/// Render the permission/question modal overlay.
///
/// Draws a centered bordered block with:
/// - Title (Permission Request or Question) with a counter for stacked items
/// - Tool name / question text (full, wrapped)
/// - Description / details (full, wrapped)
/// - Selectable options list with a `▶` cursor indicator
/// - Footer with navigation hints
pub fn render_permission_modal(canvas: &mut Canvas, area: Rect, state: &AppState, theme: Theme)
    requires
        area.fits(),
    ensures
        final(canvas)@ == modal_drawn(old(canvas)@, area, *state, theme),
{
    let d = match find_request(state) {
        Some(d) => d,
        None => {
            return;
        },
    };
    let width: u16 = if area.width >= 64 {
        60
    } else if area.width > 4 {
        area.width - 4
    } else {
        0
    };
    if width < 30 {
        return;
    }
    let content = lines_of_modal(
        &d,
        state.ui.permission_modal_selected_index,
        width - 2,
        theme,
    );
    let height: u16 = height_of(d.options.len(), content.list.len(), area.height);
    if height < 8 {
        return;
    }
    let popup = area.centered(width, height);
    canvas.clear(popup);
    let color = if d.is_permission {
        theme.error
    } else {
        theme.question
    };
    let title = title_of(d.is_permission, d.total);
    canvas.block(
        popup,
        Block::new(Borders::all(), Style::fg(color)).rounded().titled(
            draw::span(title.as_str(), Style::bold(color)),
        ).styled(Style::bg(Color::Rgb(30, 32, 44))),
    );
    canvas.text(popup.within(Borders::all()), content, Style::plain());
}

fn height_of(options: usize, lines: usize, height: u16) -> (r: u16)
    ensures
        r == modal_height(options as nat, lines as nat, height),
{
    let room: u16 = if height > 4 {
        height - 4
    } else {
        0
    };
    let count: u128 = if options > 0 {
        options as u128
    } else {
        1
    };
    let wanted: u128 = if lines as u128 + 2 > 10 + count {
        lines as u128 + 2
    } else {
        10 + count
    };
    if wanted < room as u128 {
        wanted as u16
    } else {
        room
    }
}

fn lines_of_modal(
    d: &ModalData<String, Vec<String>>,
    selected: usize,
    width: u16,
    theme: Theme,
) -> (r: Lines)
    ensures
        r@ == modal_lines(d.plain(), selected, width, theme),
{
    let mut content = Lines::new();
    push_subject(&mut content, d, width, theme);
    proof {
        assert(content@ =~= subject_lines(d.plain(), width, theme));
    }
    content.push(Line::new());
    if d.details.as_str().unicode_len() > 0 {
        push_details(&mut content, d.details.as_str(), width);
        content.push(Line::new());
    }
    push_options(&mut content, d, selected);
    content.push(Line::new());
    content.push(hints_of(d.is_permission));
    content
}

/// Everything that the modal has to say is inside its frame, where the screen
/// has room for it.
pub proof fn law_modal_shows_everything(area: Rect, options: nat, lines: nat)
    requires
        area.fits(),
        lines + 6 <= area.height,
        modal_width(area.width) >= 30,
    ensures
        ({
            let popup = area.middle(
                modal_width(area.width) as u16,
                modal_height(options, lines, area.height) as u16,
            );
            lines <= popup.bordered(Borders::all()).height
        }),
{
}

/// The modal never covers the last two rows of the screen, in which the status
/// bar stands, and never reaches beyond the screen.
pub proof fn law_modal_leaves_the_edges_free(area: Rect, options: nat, lines: nat)
    requires
        area.fits(),
        modal_width(area.width) >= 30,
        modal_height(options, lines, area.height) >= 8,
    ensures
        ({
            let popup = area.middle(
                modal_width(area.width) as u16,
                modal_height(options, lines, area.height) as u16,
            );
            &&& popup.inside(area)
            &&& area.y + 2 <= popup.y
            &&& popup.y + popup.height + 2 <= area.y + area.height
            &&& area.x + 2 <= popup.x
            &&& popup.x + popup.width + 2 <= area.x + area.width
        }),
{
}

/// What the modal shows of a request is what confirming it decides on: a
/// permission comes before any question; it names the tool, and its first option
/// is the one that approves; a question offers its answers, numbered from one, in
/// their order.
pub proof fn law_modal_asks_what_waits(s: TaskDetailSession)
    requires
        s.pending_permissions@.len() <= usize::MAX,
        s.pending_questions@.len() <= usize::MAX,
    ensures
        ({
            let d = asked(Some(s), 0);
            let perms = s.pending_permissions@;
            let questions = s.pending_questions@;
            &&& d is Some <==> perms.len() > 0 || questions.len() > 0
            &&& perms.len() > 0 ==> d->0.is_permission && d->0.subject == perms[0].tool_name@
                && d->0.options.len() == 2 && d->0.options[0] == "Yes (approve)"@
                && d->0.options[1] == "No (reject)"@ && d->0.total == perms.len()
            &&& perms.len() > 0 ==> d->0.details == if perms[0].details is Some {
                perms[0].details->0@
            } else {
                perms[0].description@
            }
            &&& perms.len() == 0 && questions.len() > 0 ==> !d->0.is_permission && d->0.subject
                == questions[0].question@ && d->0.options.len() == questions[0].answers@.len()
                && d->0.total == questions.len()
            &&& perms.len() == 0 && questions.len() > 0 ==> forall|i: int|
                0 <= i < questions[0].answers@.len() ==> #[trigger] d->0.options[i] == "["@
                    + text::decimal((i + 1) as nat) + "] "@ + questions[0].answers@[i]@
        }),
{
}

/// Just the selected option has the cursor before it; to approve is green, to
/// reject is red.
pub proof fn law_selected_option_has_the_cursor(
    is_permission: bool,
    i: int,
    option: Seq<char>,
    selected: usize,
)
    ensures
        ({
            let spans = option_line(is_permission, i, option, selected);
            &&& spans.len() == 2 && spans[1].text == option
            &&& spans[0].text == "▶ "@ <==> i == selected
            &&& i == selected && is_permission && i == 0 ==> spans[1].style.fg == Some(Color::Green)
            &&& i == selected && is_permission && i == 1 ==> spans[1].style.fg == Some(Color::Red)
        }),
{
    reveal_strlit("▶ ");
    reveal_strlit("  ");
    assert("▶ "@[0] != "  "@[0]);
}

/// The modal speaks of the subagent in view where something waits there, else of
/// the task in view.
pub proof fn law_modal_speaks_of_the_session_in_view(state: AppState, id: String)
    requires
        state.ui.viewing_task_id == Some(id),
    ensures
        ({
            let selected = state.ui.permission_modal_selected_index;
            let sub = if state.ui.session_nav_stack@.len() > 0 {
                table::lookup(
                    state.session_tracker.subagent_session_data@,
                    state.ui.session_nav_stack@.last().session_id@,
                )
            } else {
                None
            };
            let own = table::lookup(state.session_tracker.task_sessions@, id@);
            &&& sub is Some && sub->0.pending() ==> asked_in(state) == asked(sub, selected)
            &&& !(sub is Some && sub->0.pending()) ==> asked_in(state) == asked(own, selected)
        }),
{
}

} // verus!
