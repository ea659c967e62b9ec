//! Keybindings: reading key combinations from the configuration and matching
//! key presses to actions.

use vstd::prelude::*;
use crate::config::{EditorKeybindingConfig, KeybindingConfig};
use crate::text;
use crate::text::Cut;

verus! {

/// A key without its modifiers.
#[derive(Clone, Copy, Debug, PartialEq, Eq, Structural)]
pub enum KeyCode {
    Char(char),
    F(u8),
    Left,
    Right,
    Up,
    Down,
    Enter,
    Tab,
    BackTab,
    Esc,
    Backspace,
    Delete,
    Insert,
    Home,
    End,
    PageUp,
    PageDown,
    Null,
    CapsLock,
    ScrollLock,
    NumLock,
    PrintScreen,
    Pause,
    Menu,
    KeypadBegin,
    /// A media key, by its number.
    Media(u8),
    /// A modifier key pressed by itself, by its number.
    Modifier(u8),
}

/// The modifier keys held down with a key. `others` holds the modifiers that
/// no binding uses, as bits.
#[derive(Clone, Copy, Debug, PartialEq, Eq, Structural)]
pub struct KeyModifiers {
    pub shift: bool,
    pub control: bool,
    pub alt: bool,
    pub others: u8,
}

impl KeyModifiers {
    /// No modifier.
    #[verifier::allow_in_spec]
    pub fn none() -> Self
        returns
            (KeyModifiers { shift: false, control: false, alt: false, others: 0 }),
    {
        KeyModifiers { shift: false, control: false, alt: false, others: 0 }
    }

    /// Shift alone.
    #[verifier::allow_in_spec]
    pub fn shift() -> Self
        returns
            (KeyModifiers { shift: true, control: false, alt: false, others: 0 }),
    {
        KeyModifiers { shift: true, control: false, alt: false, others: 0 }
    }

    /// Control alone.
    #[verifier::allow_in_spec]
    pub fn control() -> Self
        returns
            (KeyModifiers { shift: false, control: true, alt: false, others: 0 }),
    {
        KeyModifiers { shift: false, control: true, alt: false, others: 0 }
    }

    /// Alt alone.
    #[verifier::allow_in_spec]
    pub fn alt() -> Self
        returns
            (KeyModifiers { shift: false, control: false, alt: true, others: 0 }),
    {
        KeyModifiers { shift: false, control: false, alt: true, others: 0 }
    }
}

/// A key press.
#[derive(Clone, Copy, Debug, PartialEq, Eq, Structural)]
pub struct KeyEvent {
    pub code: KeyCode,
    pub modifiers: KeyModifiers,
}

impl KeyEvent {
    pub fn new(code: KeyCode, modifiers: KeyModifiers) -> (r: Self)
        ensures
            r == (KeyEvent { code, modifiers }),
    {
        KeyEvent { code, modifiers }
    }

    /// Whether Control or Alt is held.
    pub open spec fn is_command(self) -> bool {
        self.modifiers.control || self.modifiers.alt
    }
}

/// Actions that can be triggered by keybindings.
#[derive(Clone, Copy, Debug, PartialEq, Eq, Structural)]
pub enum Action {
    // Global
    Quit,
    HelpToggle,
    PrevProject,
    NextProject,
    NewProject,
    RenameProject,
    // Kanban navigation
    NavLeft,
    NavRight,
    NavUp,
    NavDown,
    // Kanban horizontal scroll
    ScrollKanbanLeft,
    ScrollKanbanRight,
    // Task operations
    CreateTask,
    EditTask,
    OpenTaskDetail,
    MoveForward,
    MoveBackward,
    MoveTaskUp,
    MoveTaskDown,
    DeleteTask,
    ViewTask,
    AbortSession,
    RetryTask,
    DrillDownSubagent,
    AddDependency,
    RemoveDependency,
    // Review
    ReviewChanges,
    AcceptReview,
    RejectReview,
    // Views
    Reports,
    ViewArchive,
    OpenConfigEditor,
    // Project operations
    SetWorkingDirectory,
    DeleteProject,
}

/// Editing actions with configurable keys.
#[derive(Clone, Copy, Debug, PartialEq, Eq, Structural)]
pub enum EditorKeyAction {
    Save,
    Cancel,
    CycleField,
    Submit,
    Newline,
}

/// What one part of a key combination stands for.
#[derive(Clone, Copy, Debug, PartialEq, Eq, Structural)]
pub enum KeyPart {
    Control,
    Shift,
    Alt,
    Code(KeyCode),
    Unknown,
}

/// What a part of a key combination stands for, given in lower case.
pub open spec fn part_of(lower: Seq<char>) -> KeyPart {
    if lower == "ctrl"@ {
        KeyPart::Control
    } else if lower == "shift"@ {
        KeyPart::Shift
    } else if lower == "alt"@ {
        KeyPart::Alt
    } else if lower == "left"@ {
        KeyPart::Code(KeyCode::Left)
    } else if lower == "right"@ {
        KeyPart::Code(KeyCode::Right)
    } else if lower == "up"@ {
        KeyPart::Code(KeyCode::Up)
    } else if lower == "down"@ {
        KeyPart::Code(KeyCode::Down)
    } else if lower == "enter"@ {
        KeyPart::Code(KeyCode::Enter)
    } else if lower == "tab"@ {
        KeyPart::Code(KeyCode::Tab)
    } else if lower == "esc"@ || lower == "escape"@ {
        KeyPart::Code(KeyCode::Esc)
    } else if lower == "backspace"@ {
        KeyPart::Code(KeyCode::Backspace)
    } else if lower == "delete"@ {
        KeyPart::Code(KeyCode::Delete)
    } else if lower == "home"@ {
        KeyPart::Code(KeyCode::Home)
    } else if lower == "end"@ {
        KeyPart::Code(KeyCode::End)
    } else if lower == "pageup"@ {
        KeyPart::Code(KeyCode::PageUp)
    } else if lower == "pagedown"@ {
        KeyPart::Code(KeyCode::PageDown)
    } else if lower == " "@ || lower == "space"@ {
        KeyPart::Code(KeyCode::Char(' '))
    } else if lower.len() == 1 && text::is_ascii(lower[0]) {
        KeyPart::Code(KeyCode::Char(lower[0]))
    } else {
        KeyPart::Unknown
    }
}

/// Reads one part of a key combination, given in lower case.
pub fn key_part(lower: &str) -> (r: KeyPart)
    ensures
        r == part_of(lower@),
{
    if text::same(lower, "ctrl") {
        KeyPart::Control
    } else if text::same(lower, "shift") {
        KeyPart::Shift
    } else if text::same(lower, "alt") {
        KeyPart::Alt
    } else if text::same(lower, "left") {
        KeyPart::Code(KeyCode::Left)
    } else if text::same(lower, "right") {
        KeyPart::Code(KeyCode::Right)
    } else if text::same(lower, "up") {
        KeyPart::Code(KeyCode::Up)
    } else if text::same(lower, "down") {
        KeyPart::Code(KeyCode::Down)
    } else if text::same(lower, "enter") {
        KeyPart::Code(KeyCode::Enter)
    } else if text::same(lower, "tab") {
        KeyPart::Code(KeyCode::Tab)
    } else if text::same(lower, "esc") || text::same(lower, "escape") {
        KeyPart::Code(KeyCode::Esc)
    } else if text::same(lower, "backspace") {
        KeyPart::Code(KeyCode::Backspace)
    } else if text::same(lower, "delete") {
        KeyPart::Code(KeyCode::Delete)
    } else if text::same(lower, "home") {
        KeyPart::Code(KeyCode::Home)
    } else if text::same(lower, "end") {
        KeyPart::Code(KeyCode::End)
    } else if text::same(lower, "pageup") {
        KeyPart::Code(KeyCode::PageUp)
    } else if text::same(lower, "pagedown") {
        KeyPart::Code(KeyCode::PageDown)
    } else if text::same(lower, " ") || text::same(lower, "space") {
        KeyPart::Code(KeyCode::Char(' '))
    } else {
        let cs = text::chars_of(lower);
        if cs.len() == 1 && (cs[0] as u32) < 128 {
            KeyPart::Code(KeyCode::Char(cs[0]))
        } else {
            KeyPart::Unknown
        }
    }
}

/// The modifiers and the key that a list of combination parts adds up to; a
/// later key takes the place of an earlier one. `None` when a part is unknown.
pub open spec fn combined(parts: Seq<Seq<char>>) -> Option<(KeyModifiers, Option<KeyCode>)>
    decreases parts.len(),
{
    if parts.len() == 0 {
        Some((KeyModifiers::none(), None))
    } else {
        match combined(parts.drop_last()) {
            None => None,
            Some((m, c)) => match part_of(text::lowered(parts.last())) {
                KeyPart::Control => Some((KeyModifiers { control: true, ..m }, c)),
                KeyPart::Shift => Some((KeyModifiers { shift: true, ..m }, c)),
                KeyPart::Alt => Some((KeyModifiers { alt: true, ..m }, c)),
                KeyPart::Code(code) => Some((m, Some(code))),
                KeyPart::Unknown => None,
            },
        }
    }
}

/// The key press that a combination such as `ctrl+q` names.
pub open spec fn key_of(combo: Seq<char>) -> Option<KeyEvent> {
    match combined(text::pieces(combo, Cut::At('+'))) {
        Some((modifiers, Some(code))) => Some(KeyEvent { code, modifiers }),
        _ => None,
    }
}

/// Reads a single key combination such as `ctrl+q`, `shift+m`, `left` or `h`.
pub fn parse_key_combo(combo: &str) -> (r: Option<KeyEvent>)
    ensures
        r == key_of(combo@),
{
    let parts = text::split(combo, Cut::At('+'));
    let mut modifiers = KeyModifiers::none();
    let mut code: Option<KeyCode> = None;
    let mut i: usize = 0;
    let ghost all = text::texts(parts@);
    proof {
        assert(all.take(0) =~= Seq::<Seq<char>>::empty());
    }
    while i < parts.len()
        invariant
            i <= parts@.len(),
            all == text::texts(parts@),
            all == text::pieces(combo@, Cut::At('+')),
            combined(all.take(i as int)) == Some((modifiers, code)),
        decreases parts@.len() - i,
    {
        let lower = text::to_lowercase(parts[i].as_str());
        proof {
            assert(all.take(i + 1).drop_last() =~= all.take(i as int));
            assert(all.take(i + 1).last() == parts@[i as int]@);
            assert(lower@ == text::lowered(parts@[i as int]@));
        }
        match key_part(lower.as_str()) {
            KeyPart::Control => {
                modifiers.control = true;
            },
            KeyPart::Shift => {
                modifiers.shift = true;
            },
            KeyPart::Alt => {
                modifiers.alt = true;
            },
            KeyPart::Code(c) => {
                code = Some(c);
            },
            KeyPart::Unknown => {
                proof {
                    lemma_unknown_part(all, i + 1);
                }
                return None;
            },
        }
        i += 1;
    }
    proof {
        assert(all.take(i as int) =~= all);
    }
    match code {
        Some(c) => Some(KeyEvent::new(c, modifiers)),
        None => None,
    }
}

/// Once a part is unknown, so is the whole combination.
proof fn lemma_unknown_part(parts: Seq<Seq<char>>, k: int)
    requires
        0 <= k <= parts.len(),
        combined(parts.take(k)) is None,
    ensures
        combined(parts) is None,
    decreases parts.len() - k,
{
    if k < parts.len() {
        assert(parts.take(k + 1).drop_last() =~= parts.take(k));
        lemma_unknown_part(parts, k + 1);
    } else {
        assert(parts.take(k) =~= parts);
    }
}

/// The key presses among a list of alternatives, in order; what names no key
/// is left out.
pub open spec fn named_keys(alternatives: Seq<Seq<char>>) -> Seq<KeyEvent>
    decreases alternatives.len(),
{
    if alternatives.len() == 0 {
        Seq::empty()
    } else {
        let front = named_keys(alternatives.drop_last());
        match key_of(text::trimmed(alternatives.last())) {
            Some(key) => front.push(key),
            None => front,
        }
    }
}

/// The key presses that a comma-separated list of combinations names.
pub open spec fn keys_in(combos: Seq<char>) -> Seq<KeyEvent> {
    named_keys(text::pieces(combos, Cut::At(',')))
}

/// The bindings of `action` to each key press in `combos`.
pub open spec fn bound<A>(combos: Seq<char>, action: A) -> Seq<(KeyEvent, A)> {
    keys_in(combos).map_values(|key: KeyEvent| (key, action))
}

/// Reads a comma-separated list of combinations and binds each to `action`.
fn parse_and_add<A: Copy>(bindings: &mut Vec<(KeyEvent, A)>, combo_str: &str, action: A)
    ensures
        final(bindings)@ == old(bindings)@ + bound(combo_str@, action),
{
    let combos = text::split(combo_str, Cut::At(','));
    let ghost start = bindings@;
    let ghost all = text::texts(combos@);
    let mut i: usize = 0;
    proof {
        assert(all.take(0) =~= Seq::<Seq<char>>::empty());
        assert(start + named_keys(all.take(0)).map_values(|key: KeyEvent| (key, action)) =~= start);
    }
    while i < combos.len()
        invariant
            i <= combos@.len(),
            all == text::texts(combos@),
            bindings@ == start + named_keys(all.take(i as int)).map_values(
                |key: KeyEvent| (key, action),
            ),
        decreases combos@.len() - i,
    {
        let combo = text::trim(combos[i].as_str());
        proof {
            assert(all.take(i + 1).drop_last() =~= all.take(i as int));
            assert(all.take(i + 1).last() == combos@[i as int]@);
        }
        if let Some(key) = parse_key_combo(combo.as_str()) {
            bindings.push((key, action));
        }
        i += 1;
        proof {
            assert(bindings@ =~= start + named_keys(all.take(i as int)).map_values(
                |key: KeyEvent| (key, action),
            ));
        }
    }
    proof {
        assert(all.take(i as int) =~= all);
    }
}

/// Whether a pressed key `b` fires a binding `a`: same modifiers and same key,
/// where letters match in either case unless Shift is held.
pub open spec fn fires(a: KeyEvent, b: KeyEvent) -> bool {
    a.modifiers == b.modifiers && match (a.code, b.code) {
        (KeyCode::Char(x), KeyCode::Char(y)) => if a.modifiers.shift {
            x == y
        } else {
            text::ascii_small(x) == text::ascii_small(y)
        },
        _ => a.code == b.code,
    }
}

/// Check if two key presses match (ignoring letter case when Shift is not held).
pub fn keys_match(a: &KeyEvent, b: &KeyEvent) -> (r: bool)
    ensures
        r == fires(*a, *b),
{
    if a.modifiers != b.modifiers {
        return false;
    }
    match (a.code, b.code) {
        (KeyCode::Char(x), KeyCode::Char(y)) => {
            if a.modifiers.shift {
                x == y
            } else {
                text::to_ascii_small(x) == text::to_ascii_small(y)
            }
        },
        (x, y) => x == y,
    }
}

/// The action of the first binding, from position `from` on, that `key` fires.
pub open spec fn first_match<A>(bindings: Seq<(KeyEvent, A)>, key: KeyEvent, from: int) -> Option<A>
    decreases bindings.len() - from,
{
    if from >= bindings.len() || from < 0 {
        None
    } else if fires(bindings[from].0, key) {
        Some(bindings[from].1)
    } else {
        first_match(bindings, key, from + 1)
    }
}

fn look_up<A: Copy>(bindings: &Vec<(KeyEvent, A)>, key: KeyEvent) -> (r: Option<A>)
    ensures
        r == first_match(bindings@, key, 0),
{
    let mut i: usize = 0;
    while i < bindings.len()
        invariant
            i <= bindings@.len(),
            first_match(bindings@, key, i as int) == first_match(bindings@, key, 0),
        decreases bindings@.len() - i,
    {
        if keys_match(&bindings[i].0, &key) {
            return Some(bindings[i].1);
        }
        i += 1;
    }
    None
}

/// Matches key presses to actions based on the configuration.
#[derive(Debug)]
pub struct KeyMatcher {
    pub bindings: Vec<(KeyEvent, Action)>,
}

/// All bindings of a configuration, in the order in which they are tried.
pub open spec fn bindings_of(c: KeybindingConfig) -> Seq<(KeyEvent, Action)> {
    Seq::<(KeyEvent, Action)>::empty() + bound(c.quit@, Action::Quit) + bound(
        c.help_toggle@,
        Action::HelpToggle,
    ) + bound(c.prev_project@, Action::PrevProject) + bound(c.next_project@, Action::NextProject)
        + bound(c.new_project@, Action::NewProject) + bound(
        c.rename_project@,
        Action::RenameProject,
    ) + bound(c.kanban_left@, Action::NavLeft) + bound(c.kanban_right@, Action::NavRight) + bound(
        c.kanban_up@,
        Action::NavUp,
    ) + bound(c.kanban_down@, Action::NavDown) + bound(c.todo_new@, Action::CreateTask) + bound(
        c.todo_edit@,
        Action::EditTask,
    ) + bound(c.kanban_move_forward@, Action::MoveForward) + bound(
        c.kanban_move_backward@,
        Action::MoveBackward,
    ) + bound(c.task_move_up@, Action::MoveTaskUp) + bound(c.task_move_down@, Action::MoveTaskDown)
        + bound(c.task_delete@, Action::DeleteTask) + bound(c.task_view@, Action::ViewTask) + bound(
        c.abort_session@,
        Action::AbortSession,
    ) + bound(c.scroll_kanban_left@, Action::ScrollKanbanLeft) + bound(
        c.scroll_kanban_right@,
        Action::ScrollKanbanRight,
    ) + bound(c.set_working_directory@, Action::SetWorkingDirectory) + bound(
        c.delete_project@,
        Action::DeleteProject,
    ) + bound(c.task_open@, Action::OpenTaskDetail) + bound(c.retry_task@, Action::RetryTask)
        + bound(c.drill_down_subagent@, Action::DrillDownSubagent) + bound(
        c.review_changes@,
        Action::ReviewChanges,
    ) + bound(c.accept_review@, Action::AcceptReview) + bound(
        c.reject_review@,
        Action::RejectReview,
    ) + bound(c.reports@, Action::Reports) + bound(c.add_dependency@, Action::AddDependency)
        + bound(c.remove_dependency@, Action::RemoveDependency) + bound(
        c.view_archive@,
        Action::ViewArchive,
    ) + bound(c.open_config_editor@, Action::OpenConfigEditor)
}

impl KeyMatcher {
    /// Build a matcher from the configured keybindings.
    pub fn from_config(config: &KeybindingConfig) -> (r: Self)
        ensures
            r.bindings@ == bindings_of(*config),
    {
        let mut b: Vec<(KeyEvent, Action)> = Vec::new();
        parse_and_add(&mut b, config.quit.as_str(), Action::Quit);
        parse_and_add(&mut b, config.help_toggle.as_str(), Action::HelpToggle);
        parse_and_add(&mut b, config.prev_project.as_str(), Action::PrevProject);
        parse_and_add(&mut b, config.next_project.as_str(), Action::NextProject);
        parse_and_add(&mut b, config.new_project.as_str(), Action::NewProject);
        parse_and_add(&mut b, config.rename_project.as_str(), Action::RenameProject);
        parse_and_add(&mut b, config.kanban_left.as_str(), Action::NavLeft);
        parse_and_add(&mut b, config.kanban_right.as_str(), Action::NavRight);
        parse_and_add(&mut b, config.kanban_up.as_str(), Action::NavUp);
        parse_and_add(&mut b, config.kanban_down.as_str(), Action::NavDown);
        parse_and_add(&mut b, config.todo_new.as_str(), Action::CreateTask);
        parse_and_add(&mut b, config.todo_edit.as_str(), Action::EditTask);
        parse_and_add(&mut b, config.kanban_move_forward.as_str(), Action::MoveForward);
        parse_and_add(&mut b, config.kanban_move_backward.as_str(), Action::MoveBackward);
        parse_and_add(&mut b, config.task_move_up.as_str(), Action::MoveTaskUp);
        parse_and_add(&mut b, config.task_move_down.as_str(), Action::MoveTaskDown);
        parse_and_add(&mut b, config.task_delete.as_str(), Action::DeleteTask);
        parse_and_add(&mut b, config.task_view.as_str(), Action::ViewTask);
        parse_and_add(&mut b, config.abort_session.as_str(), Action::AbortSession);
        parse_and_add(&mut b, config.scroll_kanban_left.as_str(), Action::ScrollKanbanLeft);
        parse_and_add(&mut b, config.scroll_kanban_right.as_str(), Action::ScrollKanbanRight);
        parse_and_add(&mut b, config.set_working_directory.as_str(), Action::SetWorkingDirectory);
        parse_and_add(&mut b, config.delete_project.as_str(), Action::DeleteProject);
        parse_and_add(&mut b, config.task_open.as_str(), Action::OpenTaskDetail);
        parse_and_add(&mut b, config.retry_task.as_str(), Action::RetryTask);
        parse_and_add(&mut b, config.drill_down_subagent.as_str(), Action::DrillDownSubagent);
        parse_and_add(&mut b, config.review_changes.as_str(), Action::ReviewChanges);
        parse_and_add(&mut b, config.accept_review.as_str(), Action::AcceptReview);
        parse_and_add(&mut b, config.reject_review.as_str(), Action::RejectReview);
        parse_and_add(&mut b, config.reports.as_str(), Action::Reports);
        parse_and_add(&mut b, config.add_dependency.as_str(), Action::AddDependency);
        parse_and_add(&mut b, config.remove_dependency.as_str(), Action::RemoveDependency);
        parse_and_add(&mut b, config.view_archive.as_str(), Action::ViewArchive);
        parse_and_add(&mut b, config.open_config_editor.as_str(), Action::OpenConfigEditor);
        KeyMatcher { bindings: b }
    }

    /// Match a key press to an action. Returns `None` if no binding fires.
    pub fn match_key(&self, key: KeyEvent) -> (r: Option<Action>)
        ensures
            r == first_match(self.bindings@, key, 0),
    {
        look_up(&self.bindings, key)
    }
}

/// Matches key presses to editing actions based on the configuration.
#[derive(Debug)]
pub struct EditorKeyMatcher {
    pub bindings: Vec<(KeyEvent, EditorKeyAction)>,
}

/// All editor bindings of a configuration, in the order in which they are tried.
pub open spec fn editor_bindings_of(c: EditorKeybindingConfig) -> Seq<
    (KeyEvent, EditorKeyAction),
> {
    Seq::<(KeyEvent, EditorKeyAction)>::empty() + bound(c.save@, EditorKeyAction::Save) + bound(
        c.cancel@,
        EditorKeyAction::Cancel,
    ) + bound(c.cycle_field@, EditorKeyAction::CycleField) + bound(
        c.newline@,
        EditorKeyAction::Newline,
    )
}

impl EditorKeyMatcher {
    /// Build a matcher from the configured editor keybindings.
    pub fn from_config(config: &EditorKeybindingConfig) -> (r: Self)
        ensures
            r.bindings@ == editor_bindings_of(*config),
    {
        let mut b: Vec<(KeyEvent, EditorKeyAction)> = Vec::new();
        parse_and_add(&mut b, config.save.as_str(), EditorKeyAction::Save);
        parse_and_add(&mut b, config.cancel.as_str(), EditorKeyAction::Cancel);
        parse_and_add(&mut b, config.cycle_field.as_str(), EditorKeyAction::CycleField);
        parse_and_add(&mut b, config.newline.as_str(), EditorKeyAction::Newline);
        EditorKeyMatcher { bindings: b }
    }

    /// Match a key press to an editing action. Returns `None` if no binding fires.
    pub fn match_key(&self, key: KeyEvent) -> (r: Option<EditorKeyAction>)
        ensures
            r == first_match(self.bindings@, key, 0),
    {
        look_up(&self.bindings, key)
    }
}

/// A match is always one of the bindings, fired by the key, with no earlier
/// binding fired; without a match no binding is fired.
pub proof fn law_first_binding_wins<A>(bindings: Seq<(KeyEvent, A)>, key: KeyEvent)
    ensures
        match first_match(bindings, key, 0) {
            Some(action) => exists|i: int|
                0 <= i < bindings.len() && (#[trigger] bindings[i]).1 == action && fires(
                    bindings[i].0,
                    key,
                ) && forall|j: int| 0 <= j < i ==> !fires((#[trigger] bindings[j]).0, key),
            None => forall|j: int|
                0 <= j < bindings.len() ==> !fires((#[trigger] bindings[j]).0, key),
        },
{
    lemma_match_from(bindings, key, 0);
}

proof fn lemma_match_from<A>(bindings: Seq<(KeyEvent, A)>, key: KeyEvent, from: int)
    requires
        0 <= from,
    ensures
        match first_match(bindings, key, from) {
            Some(action) => exists|i: int|
                from <= i < bindings.len() && (#[trigger] bindings[i]).1 == action && fires(
                    bindings[i].0,
                    key,
                ) && forall|j: int| from <= j < i ==> !fires((#[trigger] bindings[j]).0, key),
            None => forall|j: int|
                from <= j < bindings.len() ==> !fires((#[trigger] bindings[j]).0, key),
        },
    decreases bindings.len() - from,
{
    if from < bindings.len() {
        if fires(bindings[from].0, key) {
            assert(bindings[from].1 == first_match(bindings, key, from)->0);
        } else {
            lemma_match_from(bindings, key, from + 1);
            match first_match(bindings, key, from + 1) {
                Some(action) => {
                    let i = choose|i: int|
                        from + 1 <= i < bindings.len() && (#[trigger] bindings[i]).1 == action
                            && fires(bindings[i].0, key) && forall|j: int|
                            from + 1 <= j < i ==> !fires((#[trigger] bindings[j]).0, key);
                    assert(bindings[i].1 == action);
                    assert forall|j: int| from <= j < i implies !fires(
                        (#[trigger] bindings[j]).0,
                        key,
                    ) by {}
                },
                None => {},
            }
        }
    }
}

/// Modifiers must be the same for a binding to fire.
pub proof fn law_modifiers_match_exactly(a: KeyEvent, b: KeyEvent)
    requires
        a.modifiers != b.modifiers,
    ensures
        !fires(a, b),
{
}

/// Without Shift, the case of a letter makes no difference to what it fires.
pub proof fn law_case_is_ignored_without_shift(a: KeyEvent, c: char, m: KeyModifiers)
    requires
        !m.shift,
        'A' <= c <= 'Z',
    ensures
        fires(a, KeyEvent { code: KeyCode::Char(c), modifiers: m }) == fires(
            a,
            KeyEvent { code: KeyCode::Char(text::ascii_small(c)), modifiers: m },
        ),
{
}

// ─── Laws of the configuration ────────────────────────────────────────────

/// Whether a key press fires one of the combinations in a comma-separated list.
pub open spec fn presses(combos: Seq<char>, key: KeyEvent) -> bool {
    exists|i: int| 0 <= i < keys_in(combos).len() && fires(#[trigger] keys_in(combos)[i], key)
}

proof fn lemma_match_joined<A>(
    a: Seq<(KeyEvent, A)>,
    b: Seq<(KeyEvent, A)>,
    key: KeyEvent,
    from: int,
)
    requires
        0 <= from <= a.len(),
    ensures
        first_match(a + b, key, from) == match first_match(a, key, from) {
            Some(action) => Some(action),
            None => first_match(b, key, 0),
        },
    decreases a.len() - from,
{
    if from < a.len() {
        lemma_match_joined(a, b, key, from + 1);
    } else {
        lemma_match_shifted(a, b, key, 0);
    }
}

proof fn lemma_match_shifted<A>(
    a: Seq<(KeyEvent, A)>,
    b: Seq<(KeyEvent, A)>,
    key: KeyEvent,
    from: int,
)
    requires
        0 <= from <= b.len(),
    ensures
        first_match(a + b, key, a.len() + from) == first_match(b, key, from),
    decreases b.len() - from,
{
    if from < b.len() {
        assert((a + b)[a.len() + from] == b[from]);
        lemma_match_shifted(a, b, key, from + 1);
    }
}

proof fn lemma_tried_next<A>(
    before: Seq<(KeyEvent, A)>,
    combos: Seq<char>,
    action: A,
    key: KeyEvent,
) -> (after: Seq<(KeyEvent, A)>)
    ensures
        after == before + bound(combos, action),
        first_match(after, key, 0) == if first_match(before, key, 0) is Some {
            first_match(before, key, 0)
        } else if presses(combos, key) {
            Some(action)
        } else {
            None
        },
{
    let b = bound(combos, action);
    lemma_match_joined(before, b, key, 0);
    law_first_binding_wins(b, key);
    match first_match(b, key, 0) {
        Some(found) => {
            let i = choose|i: int|
                0 <= i < b.len() && (#[trigger] b[i]).1 == found && fires(b[i].0, key) && forall|
                    j: int,
                |
                    0 <= j < i ==> !fires((#[trigger] b[j]).0, key);
            assert(b[i] == (keys_in(combos)[i], action));
        },
        None => {
            if presses(combos, key) {
                let i = choose|i: int|
                    0 <= i < keys_in(combos).len() && fires(#[trigger] keys_in(combos)[i], key);
                assert(b[i] == (keys_in(combos)[i], action));
            }
        },
    }
    before + b
}

/// A key press fires the action that the field of the configuration is named
/// after which lists it; where several fields list it, the first in this order
/// counts; and a key that no field lists fires nothing.
pub proof fn law_each_field_binds_its_action(c: KeybindingConfig, key: KeyEvent)
    ensures
        first_match(bindings_of(c), key, 0) == if presses(c.quit@, key) {
            Some(Action::Quit)
        } else if presses(c.help_toggle@, key) {
            Some(Action::HelpToggle)
        } else if presses(c.prev_project@, key) {
            Some(Action::PrevProject)
        } else if presses(c.next_project@, key) {
            Some(Action::NextProject)
        } else if presses(c.new_project@, key) {
            Some(Action::NewProject)
        } else if presses(c.rename_project@, key) {
            Some(Action::RenameProject)
        } else if presses(c.kanban_left@, key) {
            Some(Action::NavLeft)
        } else if presses(c.kanban_right@, key) {
            Some(Action::NavRight)
        } else if presses(c.kanban_up@, key) {
            Some(Action::NavUp)
        } else if presses(c.kanban_down@, key) {
            Some(Action::NavDown)
        } else if presses(c.todo_new@, key) {
            Some(Action::CreateTask)
        } else if presses(c.todo_edit@, key) {
            Some(Action::EditTask)
        } else if presses(c.kanban_move_forward@, key) {
            Some(Action::MoveForward)
        } else if presses(c.kanban_move_backward@, key) {
            Some(Action::MoveBackward)
        } else if presses(c.task_move_up@, key) {
            Some(Action::MoveTaskUp)
        } else if presses(c.task_move_down@, key) {
            Some(Action::MoveTaskDown)
        } else if presses(c.task_delete@, key) {
            Some(Action::DeleteTask)
        } else if presses(c.task_view@, key) {
            Some(Action::ViewTask)
        } else if presses(c.abort_session@, key) {
            Some(Action::AbortSession)
        } else if presses(c.scroll_kanban_left@, key) {
            Some(Action::ScrollKanbanLeft)
        } else if presses(c.scroll_kanban_right@, key) {
            Some(Action::ScrollKanbanRight)
        } else if presses(c.set_working_directory@, key) {
            Some(Action::SetWorkingDirectory)
        } else if presses(c.delete_project@, key) {
            Some(Action::DeleteProject)
        } else if presses(c.task_open@, key) {
            Some(Action::OpenTaskDetail)
        } else if presses(c.retry_task@, key) {
            Some(Action::RetryTask)
        } else if presses(c.drill_down_subagent@, key) {
            Some(Action::DrillDownSubagent)
        } else if presses(c.review_changes@, key) {
            Some(Action::ReviewChanges)
        } else if presses(c.accept_review@, key) {
            Some(Action::AcceptReview)
        } else if presses(c.reject_review@, key) {
            Some(Action::RejectReview)
        } else if presses(c.reports@, key) {
            Some(Action::Reports)
        } else if presses(c.add_dependency@, key) {
            Some(Action::AddDependency)
        } else if presses(c.remove_dependency@, key) {
            Some(Action::RemoveDependency)
        } else if presses(c.view_archive@, key) {
            Some(Action::ViewArchive)
        } else if presses(c.open_config_editor@, key) {
            Some(Action::OpenConfigEditor)
        } else {
            None
        },
{
    let none = Seq::<(KeyEvent, Action)>::empty();
    let b1 = lemma_tried_next(none, c.quit@, Action::Quit, key);
    let b2 = lemma_tried_next(b1, c.help_toggle@, Action::HelpToggle, key);
    let b3 = lemma_tried_next(b2, c.prev_project@, Action::PrevProject, key);
    let b4 = lemma_tried_next(b3, c.next_project@, Action::NextProject, key);
    let b5 = lemma_tried_next(b4, c.new_project@, Action::NewProject, key);
    let b6 = lemma_tried_next(b5, c.rename_project@, Action::RenameProject, key);
    let b7 = lemma_tried_next(b6, c.kanban_left@, Action::NavLeft, key);
    let b8 = lemma_tried_next(b7, c.kanban_right@, Action::NavRight, key);
    let b9 = lemma_tried_next(b8, c.kanban_up@, Action::NavUp, key);
    let b10 = lemma_tried_next(b9, c.kanban_down@, Action::NavDown, key);
    let b11 = lemma_tried_next(b10, c.todo_new@, Action::CreateTask, key);
    let b12 = lemma_tried_next(b11, c.todo_edit@, Action::EditTask, key);
    let b13 = lemma_tried_next(b12, c.kanban_move_forward@, Action::MoveForward, key);
    let b14 = lemma_tried_next(b13, c.kanban_move_backward@, Action::MoveBackward, key);
    let b15 = lemma_tried_next(b14, c.task_move_up@, Action::MoveTaskUp, key);
    let b16 = lemma_tried_next(b15, c.task_move_down@, Action::MoveTaskDown, key);
    let b17 = lemma_tried_next(b16, c.task_delete@, Action::DeleteTask, key);
    let b18 = lemma_tried_next(b17, c.task_view@, Action::ViewTask, key);
    let b19 = lemma_tried_next(b18, c.abort_session@, Action::AbortSession, key);
    let b20 = lemma_tried_next(b19, c.scroll_kanban_left@, Action::ScrollKanbanLeft, key);
    let b21 = lemma_tried_next(b20, c.scroll_kanban_right@, Action::ScrollKanbanRight, key);
    let b22 = lemma_tried_next(b21, c.set_working_directory@, Action::SetWorkingDirectory, key);
    let b23 = lemma_tried_next(b22, c.delete_project@, Action::DeleteProject, key);
    let b24 = lemma_tried_next(b23, c.task_open@, Action::OpenTaskDetail, key);
    let b25 = lemma_tried_next(b24, c.retry_task@, Action::RetryTask, key);
    let b26 = lemma_tried_next(b25, c.drill_down_subagent@, Action::DrillDownSubagent, key);
    let b27 = lemma_tried_next(b26, c.review_changes@, Action::ReviewChanges, key);
    let b28 = lemma_tried_next(b27, c.accept_review@, Action::AcceptReview, key);
    let b29 = lemma_tried_next(b28, c.reject_review@, Action::RejectReview, key);
    let b30 = lemma_tried_next(b29, c.reports@, Action::Reports, key);
    let b31 = lemma_tried_next(b30, c.add_dependency@, Action::AddDependency, key);
    let b32 = lemma_tried_next(b31, c.remove_dependency@, Action::RemoveDependency, key);
    let b33 = lemma_tried_next(b32, c.view_archive@, Action::ViewArchive, key);
    let b34 = lemma_tried_next(b33, c.open_config_editor@, Action::OpenConfigEditor, key);
    assert(b34 == bindings_of(c));
}

/// A key press fires the editing action that the field of the configuration is
/// named after which lists it; where several fields list it, the first in this
/// order counts; and a key that no field lists fires nothing.
pub proof fn law_each_field_binds_its_editing_action(c: EditorKeybindingConfig, key: KeyEvent)
    ensures
        first_match(editor_bindings_of(c), key, 0) == if presses(c.save@, key) {
            Some(EditorKeyAction::Save)
        } else if presses(c.cancel@, key) {
            Some(EditorKeyAction::Cancel)
        } else if presses(c.cycle_field@, key) {
            Some(EditorKeyAction::CycleField)
        } else if presses(c.newline@, key) {
            Some(EditorKeyAction::Newline)
        } else {
            None
        },
{
    let none = Seq::<(KeyEvent, EditorKeyAction)>::empty();
    let b1 = lemma_tried_next(none, c.save@, EditorKeyAction::Save, key);
    let b2 = lemma_tried_next(b1, c.cancel@, EditorKeyAction::Cancel, key);
    let b3 = lemma_tried_next(b2, c.cycle_field@, EditorKeyAction::CycleField, key);
    let b4 = lemma_tried_next(b3, c.newline@, EditorKeyAction::Newline, key);
    assert(b4 == editor_bindings_of(c));
}

// ─── Laws of combinations ─────────────────────────────────────────────────

/// The parts of a combination.
pub open spec fn parts_of(combo: Seq<char>) -> Seq<Seq<char>> {
    text::pieces(combo, Cut::At('+'))
}

/// What a part of a combination stands for, in whatever case it is written.
pub open spec fn meaning(part: Seq<char>) -> KeyPart {
    part_of(text::lowered(part))
}

/// Whether a part of a combination is a modifier.
pub open spec fn is_modifier(part: Seq<char>) -> bool {
    let p = meaning(part);
    p == KeyPart::Control || p == KeyPart::Shift || p == KeyPart::Alt
}

/// Whether one of the parts stands for `p`.
pub open spec fn named(parts: Seq<Seq<char>>, p: KeyPart) -> bool {
    exists|i: int| 0 <= i < parts.len() && meaning(#[trigger] parts[i]) == p
}

/// The last key among the parts.
pub open spec fn last_key(parts: Seq<Seq<char>>) -> Option<KeyCode>
    decreases parts.len(),
{
    if parts.len() == 0 {
        None
    } else {
        match meaning(parts.last()) {
            KeyPart::Code(code) => Some(code),
            _ => last_key(parts.drop_last()),
        }
    }
}

/// All that counts of a combination is which modifiers it names, its last key,
/// and whether every part is known: neither the order of the modifiers, nor
/// where they stand, nor how often they are named.
pub proof fn law_order_of_modifiers_is_free(parts: Seq<Seq<char>>)
    ensures
        combined(parts) == if named(parts, KeyPart::Unknown) {
            None
        } else {
            Some(
                (
                    KeyModifiers {
                        shift: named(parts, KeyPart::Shift),
                        control: named(parts, KeyPart::Control),
                        alt: named(parts, KeyPart::Alt),
                        others: 0,
                    },
                    last_key(parts),
                ),
            )
        },
    decreases parts.len(),
{
    if parts.len() > 0 {
        let rest = parts.drop_last();
        law_order_of_modifiers_is_free(rest);
        assert forall|p: KeyPart| #[trigger] named(parts, p) == (named(rest, p) || meaning(
            parts.last(),
        ) == p) by {
            if named(rest, p) {
                let i = choose|i: int| 0 <= i < rest.len() && meaning(#[trigger] rest[i]) == p;
                assert(meaning(parts[i]) == p);
            }
            if meaning(parts.last()) == p {
                assert(meaning(parts[parts.len() - 1]) == p);
            }
            if named(parts, p) {
                let i = choose|i: int| 0 <= i < parts.len() && meaning(#[trigger] parts[i]) == p;
                if i < rest.len() {
                    assert(meaning(rest[i]) == p);
                }
            }
        }
    }
}

proof fn lemma_last_key_of_both(a: Seq<Seq<char>>, b: Seq<Seq<char>>)
    requires
        a.len() == b.len(),
        forall|k: int|
            0 <= k < a.len() ==> (#[trigger] a[k] == b[k] || is_modifier(a[k]) && is_modifier(
                b[k],
            )),
    ensures
        last_key(a) == last_key(b),
    decreases a.len(),
{
    if a.len() > 0 {
        let i = a.len() - 1;
        assert(a[i] == b[i] || is_modifier(a[i]) && is_modifier(b[i]));
        assert forall|k: int| 0 <= k < a.drop_last().len() implies (#[trigger] a.drop_last()[k]
            == b.drop_last()[k] || is_modifier(a.drop_last()[k]) && is_modifier(
            b.drop_last()[k],
        )) by {
            assert(a[k] == b[k] || is_modifier(a[k]) && is_modifier(b[k]));
        }
        lemma_last_key_of_both(a.drop_last(), b.drop_last());
    }
}

/// Two modifiers of a combination can change places.
pub proof fn law_modifiers_can_be_swapped(parts: Seq<Seq<char>>, i: int, j: int)
    requires
        0 <= i < parts.len(),
        0 <= j < parts.len(),
        is_modifier(parts[i]),
        is_modifier(parts[j]),
    ensures
        combined(parts.update(i, parts[j]).update(j, parts[i])) == combined(parts),
{
    let other = parts.update(i, parts[j]).update(j, parts[i]);
    law_order_of_modifiers_is_free(parts);
    law_order_of_modifiers_is_free(other);
    lemma_last_key_of_both(other, parts);
    assert forall|p: KeyPart| #[trigger] named(other, p) == named(parts, p) by {
        if named(parts, p) {
            let k = choose|k: int| 0 <= k < parts.len() && meaning(#[trigger] parts[k]) == p;
            let at = if k == i {
                j
            } else if k == j {
                i
            } else {
                k
            };
            assert(meaning(other[at]) == p);
        }
        if named(other, p) {
            let k = choose|k: int| 0 <= k < other.len() && meaning(#[trigger] other[k]) == p;
            let at = if k == j {
                i
            } else if k == i {
                j
            } else {
                k
            };
            assert(meaning(parts[at]) == p);
        }
    }
}

proof fn lemma_last_key_past_modifier(parts: Seq<Seq<char>>, k: int, part: Seq<char>)
    requires
        0 <= k <= parts.len(),
        is_modifier(part),
    ensures
        last_key(parts.insert(k, part)) == last_key(parts),
    decreases parts.len(),
{
    let more = parts.insert(k, part);
    if k == parts.len() {
        assert(more.drop_last() =~= parts);
    } else {
        assert(more.last() == parts.last());
        assert(more.drop_last() =~= parts.drop_last().insert(k, part));
        lemma_last_key_past_modifier(parts.drop_last(), k, part);
    }
}

/// A modifier of a combination can be named again, anywhere in it.
pub proof fn law_modifiers_can_be_repeated(parts: Seq<Seq<char>>, i: int, k: int)
    requires
        0 <= i < parts.len(),
        0 <= k <= parts.len(),
        is_modifier(parts[i]),
    ensures
        combined(parts.insert(k, parts[i])) == combined(parts),
{
    let more = parts.insert(k, parts[i]);
    law_order_of_modifiers_is_free(parts);
    law_order_of_modifiers_is_free(more);
    lemma_last_key_past_modifier(parts, k, parts[i]);
    assert forall|p: KeyPart| #[trigger] named(more, p) == named(parts, p) by {
        if named(parts, p) {
            let n = choose|n: int| 0 <= n < parts.len() && meaning(#[trigger] parts[n]) == p;
            let at = if n < k {
                n
            } else {
                n + 1
            };
            assert(meaning(more[at]) == p);
        }
        if named(more, p) {
            let n = choose|n: int| 0 <= n < more.len() && meaning(#[trigger] more[n]) == p;
            let at = if n < k {
                n
            } else if n == k {
                i
            } else {
                n - 1
            };
            assert(meaning(parts[at]) == p);
        }
    }
}

/// Two combinations that name the same modifiers, in any order and number, and
/// end in the same key are the same key press.
pub proof fn law_same_names_same_key(a: Seq<char>, b: Seq<char>)
    requires
        forall|p: KeyPart|
            !(p is Code) ==> #[trigger] named(parts_of(a), p) == named(parts_of(b), p),
        last_key(parts_of(a)) == last_key(parts_of(b)),
    ensures
        key_of(a) == key_of(b),
{
    law_order_of_modifiers_is_free(parts_of(a));
    law_order_of_modifiers_is_free(parts_of(b));
}

proof fn lemma_no_key(parts: Seq<Seq<char>>)
    requires
        forall|i: int| 0 <= i < parts.len() ==> is_modifier(#[trigger] parts[i]),
    ensures
        last_key(parts) is None,
    decreases parts.len(),
{
    if parts.len() > 0 {
        assert(is_modifier(parts[parts.len() - 1]));
        assert forall|i: int| 0 <= i < parts.drop_last().len() implies is_modifier(
            #[trigger] parts.drop_last()[i],
        ) by {
            assert(is_modifier(parts[i]));
        }
        lemma_no_key(parts.drop_last());
    }
}

/// Modifiers alone name no key press.
pub proof fn law_modifiers_alone_name_no_key(combo: Seq<char>)
    requires
        forall|i: int| 0 <= i < parts_of(combo).len() ==> is_modifier(
            #[trigger] parts_of(combo)[i],
        ),
    ensures
        key_of(combo) is None,
{
    law_order_of_modifiers_is_free(parts_of(combo));
    lemma_no_key(parts_of(combo));
}

/// Combinations whose parts are the same in lower case are the same.
pub proof fn law_same_in_lower_case(a: Seq<Seq<char>>, b: Seq<Seq<char>>)
    requires
        a.len() == b.len(),
        forall|i: int| 0 <= i < a.len() ==> text::lowered(#[trigger] a[i]) == text::lowered(b[i]),
    ensures
        combined(a) == combined(b),
    decreases a.len(),
{
    if a.len() > 0 {
        assert(text::lowered(a[a.len() - 1]) == text::lowered(b[a.len() - 1]));
        assert forall|i: int| 0 <= i < a.drop_last().len() implies text::lowered(
            #[trigger] a.drop_last()[i],
        ) == text::lowered(b.drop_last()[i]) by {
            assert(text::lowered(a[i]) == text::lowered(b[i]));
        }
        law_same_in_lower_case(a.drop_last(), b.drop_last());
    }
}

/// The case in which a combination of ASCII characters is written makes no
/// difference.
pub proof fn law_case_makes_no_difference(combo: Seq<char>)
    requires
        text::all_ascii(combo),
    ensures
        key_of(text::small(combo)) == key_of(combo),
        key_of(text::capitals(combo)) == key_of(combo),
{
    let parts = parts_of(combo);
    text::lemma_pieces_mapped(combo, '+', |c: char| text::ascii_small(c));
    text::lemma_pieces_mapped(combo, '+', |c: char| text::ascii_capital(c));
    text::lemma_pieces_ascii(combo, Cut::At('+'));
    let a = parts_of(text::small(combo));
    let b = parts_of(text::capitals(combo));
    assert forall|i: int| 0 <= i < parts.len() implies text::lowered(#[trigger] a[i])
        == text::lowered(parts[i]) && text::lowered(b[i]) == text::lowered(parts[i]) by {
        assert(a[i] == text::small(parts[i]));
        assert(b[i] == text::capitals(parts[i]));
        text::lemma_lowered(parts[i]);
    }
    law_same_in_lower_case(a, parts);
    assert forall|i: int| 0 <= i < parts.len() implies text::lowered(#[trigger] b[i])
        == text::lowered(parts[i]) by {
        assert(text::lowered(a[i]) == text::lowered(parts[i]));
    }
    law_same_in_lower_case(b, parts);
}

/// Every named key has its name and no other: the parts of a combination that
/// stand for it, in lower case, are those spelled so. A single ASCII character
/// stands for itself, and anything else for no key.
pub proof fn law_keys_have_their_names(s: Seq<char>)
    ensures
        part_of(s) == KeyPart::Control <==> s == "ctrl"@,
        part_of(s) == KeyPart::Shift <==> s == "shift"@,
        part_of(s) == KeyPart::Alt <==> s == "alt"@,
        part_of(s) == KeyPart::Code(KeyCode::Left) <==> s == "left"@,
        part_of(s) == KeyPart::Code(KeyCode::Right) <==> s == "right"@,
        part_of(s) == KeyPart::Code(KeyCode::Up) <==> s == "up"@,
        part_of(s) == KeyPart::Code(KeyCode::Down) <==> s == "down"@,
        part_of(s) == KeyPart::Code(KeyCode::Enter) <==> s == "enter"@,
        part_of(s) == KeyPart::Code(KeyCode::Tab) <==> s == "tab"@,
        part_of(s) == KeyPart::Code(KeyCode::Backspace) <==> s == "backspace"@,
        part_of(s) == KeyPart::Code(KeyCode::Delete) <==> s == "delete"@,
        part_of(s) == KeyPart::Code(KeyCode::Home) <==> s == "home"@,
        part_of(s) == KeyPart::Code(KeyCode::End) <==> s == "end"@,
        part_of(s) == KeyPart::Code(KeyCode::PageUp) <==> s == "pageup"@,
        part_of(s) == KeyPart::Code(KeyCode::PageDown) <==> s == "pagedown"@,
        part_of(s) == KeyPart::Code(KeyCode::Esc) <==> s == "esc"@ || s == "escape"@,
        part_of(s) == KeyPart::Code(KeyCode::Char(' ')) <==> s == "space"@ || s == " "@,
        s.len() == 1 && text::is_ascii(s[0]) ==> part_of(s) == KeyPart::Code(KeyCode::Char(s[0])),
        part_of(s) matches KeyPart::Code(KeyCode::Char(c)) ==> s == "space"@ || s == seq![c],
        s.len() == 0 ==> part_of(s) == KeyPart::Unknown,
{
    reveal_strlit("ctrl");
    reveal_strlit("shift");
    reveal_strlit("alt");
    reveal_strlit("left");
    reveal_strlit("right");
    reveal_strlit("up");
    reveal_strlit("down");
    reveal_strlit("enter");
    reveal_strlit("tab");
    reveal_strlit("esc");
    reveal_strlit("escape");
    reveal_strlit("backspace");
    reveal_strlit("delete");
    reveal_strlit("home");
    reveal_strlit("end");
    reveal_strlit("pageup");
    reveal_strlit("pagedown");
    reveal_strlit("space");
    reveal_strlit(" ");
    assert("ctrl"@[0] == 'c' && "shift"@[0] == 's' && "alt"@[0] == 'a' && "left"@[0] == 'l'
        && "right"@[0] == 'r' && "up"@[0] == 'u' && "down"@[0] == 'd' && "enter"@[0] == 'e'
        && "tab"@[0] == 't' && "esc"@[1] == 's' && "end"@[1] == 'n' && "home"@[0] == 'h'
        && "space"@[1] == 'p' && "shift"@[1] == 'h' && " "@[0] == ' ');
    if s.len() == 1 {
        assert(s[0] == ' ' ==> s =~= " "@);
        assert(s =~= seq![s[0]]);
    }
}

/// A list of combinations with another behind a comma names the keys of the one
/// and then those of the other.
pub proof fn law_lists_name_the_keys_of_both(a: Seq<char>, b: Seq<char>)
    ensures
        keys_in(a.push(',') + b) == keys_in(a) + keys_in(b),
{
    text::lemma_pieces_join(a, ',', b, Cut::At(','));
    lemma_named_joined(text::pieces(a, Cut::At(',')), text::pieces(b, Cut::At(',')));
}

proof fn lemma_named_joined(a: Seq<Seq<char>>, b: Seq<Seq<char>>)
    ensures
        named_keys(a + b) == named_keys(a) + named_keys(b),
    decreases b.len(),
{
    if b.len() == 0 {
        assert(a + b =~= a);
        assert(named_keys(a) + named_keys(b) =~= named_keys(a));
    } else {
        lemma_named_joined(a, b.drop_last());
        assert((a + b).drop_last() =~= a + b.drop_last());
        assert((a + b).last() == b.last());
        assert(named_keys(a + b) =~= named_keys(a) + named_keys(b));
    }
}

// ─── Laws of the default keys ─────────────────────────────────────────────

/// A key pressed alone.
pub open spec fn alone(code: KeyCode) -> KeyEvent {
    KeyEvent { code, modifiers: KeyModifiers::none() }
}

/// A character pressed with Control.
pub open spec fn control_with(c: char) -> KeyEvent {
    KeyEvent { code: KeyCode::Char(c), modifiers: KeyModifiers::control() }
}

/// A character pressed with Shift.
pub open spec fn shift_with(c: char) -> KeyEvent {
    KeyEvent { code: KeyCode::Char(c), modifiers: KeyModifiers::shift() }
}

spec fn is_name(s: Seq<char>) -> bool {
    s.len() > 0 && forall|i: int|
        0 <= i < s.len() ==> text::is_ascii(#[trigger] s[i]) && !('A' <= s[i] <= 'Z') && s[i] != '+'
            && s[i] != ',' && !text::is_blank(s[i])
}

proof fn lemma_name_is_itself(s: Seq<char>)
    requires
        is_name(s),
    ensures
        text::lowered(s) == s,
        text::trimmed(s) == s,
        text::pieces(s, Cut::At('+')) == seq![s],
        text::pieces(s, Cut::At(',')) == seq![s],
{
    assert forall|i: int| 0 <= i < s.len() implies !Cut::At('+').falls_on(#[trigger] s[i]) by {}
    assert forall|i: int| 0 <= i < s.len() implies !Cut::At(',').falls_on(#[trigger] s[i]) by {}
    text::lemma_one_piece(s, Cut::At('+'));
    text::lemma_one_piece(s, Cut::At(','));
    assert(text::all_ascii(s));
    assert(text::small(s) =~= s);
    assert(!text::is_blank(s[0]));
    assert(!text::is_blank(s[s.len() - 1]));
}

proof fn lemma_key_named(s: Seq<char>, code: KeyCode)
    requires
        is_name(s),
        part_of(s) == KeyPart::Code(code),
    ensures
        key_of(s) == Some(alone(code)),
{
    lemma_name_is_itself(s);
    reveal_with_fuel(combined, 2);
    assert(seq![s].drop_last() =~= Seq::<Seq<char>>::empty());
}

proof fn lemma_key_held(m: Seq<char>, s: Seq<char>, code: KeyCode)
    requires
        is_name(m),
        is_name(s),
        part_of(m) == KeyPart::Control || part_of(m) == KeyPart::Shift,
        part_of(s) == KeyPart::Code(code),
    ensures
        key_of(m.push('+') + s) == Some(
            (KeyEvent {
                code,
                modifiers: if part_of(m) == KeyPart::Control {
                    KeyModifiers::control()
                } else {
                    KeyModifiers::shift()
                },
            }),
        ),
        text::trimmed(m.push('+') + s) == m.push('+') + s,
        text::pieces(m.push('+') + s, Cut::At(',')) == seq![m.push('+') + s],
{
    let all = m.push('+') + s;
    lemma_name_is_itself(m);
    lemma_name_is_itself(s);
    text::lemma_pieces_join(m, '+', s, Cut::At('+'));
    assert(text::pieces(all, Cut::At('+')) =~= seq![m, s]);
    reveal_with_fuel(combined, 3);
    assert(seq![m, s].drop_last() =~= seq![m]);
    assert(seq![m].drop_last() =~= Seq::<Seq<char>>::empty());
    assert forall|i: int| 0 <= i < all.len() implies !Cut::At(',').falls_on(#[trigger] all[i]) by {
        if i < m.len() {
            assert(all[i] == m[i]);
        } else if i > m.len() {
            assert(all[i] == s[i - m.len() - 1]);
        }
    }
    text::lemma_one_piece(all, Cut::At(','));
    assert(all[0] == m[0]);
    assert(all.last() == s[s.len() - 1]);
}

proof fn lemma_presses_one(combos: Seq<char>, k: KeyEvent, key: KeyEvent)
    requires
        text::pieces(combos, Cut::At(',')) == seq![combos],
        key_of(text::trimmed(combos)) == Some(k),
    ensures
        presses(combos, key) == fires(k, key),
        keys_in(combos) == seq![k],
{
    reveal_with_fuel(named_keys, 2);
    assert(seq![combos].drop_last() =~= Seq::<Seq<char>>::empty());
    assert(keys_in(combos) =~= seq![k]);
    assert(keys_in(combos)[0] == k);
}

proof fn lemma_letter(combos: Seq<char>, c: char, key: KeyEvent)
    requires
        combos == seq![c],
        'a' <= c <= 'z' || c == '?',
    ensures
        presses(combos, key) == fires(alone(KeyCode::Char(c)), key),
{
    law_keys_have_their_names(combos);
    lemma_name_is_itself(combos);
    lemma_key_named(combos, KeyCode::Char(c));
    lemma_presses_one(combos, alone(KeyCode::Char(c)), key);
}

proof fn lemma_name(combos: Seq<char>, code: KeyCode, key: KeyEvent)
    requires
        is_name(combos),
        part_of(combos) == KeyPart::Code(code),
    ensures
        presses(combos, key) == fires(alone(code), key),
{
    lemma_name_is_itself(combos);
    lemma_key_named(combos, code);
    lemma_presses_one(combos, alone(code), key);
}

proof fn lemma_control_with(combos: Seq<char>, c: char, key: KeyEvent)
    requires
        combos == "ctrl"@.push('+') + seq![c],
        'a' <= c <= 'z',
    ensures
        presses(combos, key) == fires(control_with(c), key),
{
    reveal_strlit("ctrl");
    law_keys_have_their_names(seq![c]);
    law_keys_have_their_names("ctrl"@);
    lemma_key_held("ctrl"@, seq![c], KeyCode::Char(c));
    lemma_presses_one(combos, control_with(c), key);
}

proof fn lemma_shift_with(combos: Seq<char>, c: char, key: KeyEvent)
    requires
        combos == "shift"@.push('+') + seq![c],
        'a' <= c <= 'z',
    ensures
        presses(combos, key) == fires(shift_with(c), key),
{
    reveal_strlit("shift");
    law_keys_have_their_names(seq![c]);
    law_keys_have_their_names("shift"@);
    lemma_key_held("shift"@, seq![c], KeyCode::Char(c));
    lemma_presses_one(combos, shift_with(c), key);
}

proof fn lemma_letter_or_name(
    combos: Seq<char>,
    c: char,
    name: Seq<char>,
    code: KeyCode,
    key: KeyEvent,
)
    requires
        combos == seq![c].push(',') + (" "@ + name),
        'a' <= c <= 'z',
        is_name(name),
        part_of(name) == KeyPart::Code(code),
    ensures
        presses(combos, key) == (fires(alone(KeyCode::Char(c)), key)
            || fires(alone(code), key)),
{
    reveal_strlit(" ");
    let first = seq![c];
    let second = " "@ + name;
    let a = alone(KeyCode::Char(c));
    let b = alone(code);
    law_keys_have_their_names(first);
    lemma_name_is_itself(first);
    lemma_key_named(first, KeyCode::Char(c));
    lemma_presses_one(first, a, key);
    lemma_name_is_itself(name);
    lemma_key_named(name, code);
    assert forall|i: int| 0 <= i < second.len() implies !Cut::At(',').falls_on(
        #[trigger] second[i],
    ) by {
        if i > 0 {
            assert(second[i] == name[i - 1]);
        }
    }
    text::lemma_one_piece(second, Cut::At(','));
    assert(text::trimmed(second) == name) by {
        reveal_with_fuel(text::trim_front, 2);
        assert(second.skip(1) =~= name);
        assert(!text::is_blank(name[0]));
    }
    lemma_presses_one(second, b, key);
    law_lists_name_the_keys_of_both(first, second);
    assert(keys_in(combos) =~= seq![a, b]);
    assert(keys_in(combos)[0] == a);
    assert(keys_in(combos)[1] == b);
}

#[verifier::spinoff_prover]
#[verifier::rlimit(60)]
proof fn lemma_default_match(c: KeybindingConfig, key: KeyEvent)
    requires
        c.is_default(),
    ensures
        first_match(bindings_of(c), key, 0) == if fires(control_with('q'), key) {
            Some(Action::Quit)
        } else if fires(alone(KeyCode::Char('?')), key) {
            Some(Action::HelpToggle)
        } else if fires(control_with('k'), key) {
            Some(Action::PrevProject)
        } else if fires(control_with('j'), key) {
            Some(Action::NextProject)
        } else if fires(control_with('n'), key) {
            Some(Action::NewProject)
        } else if fires(alone(KeyCode::Char('r')), key) {
            Some(Action::RenameProject)
        } else if fires(alone(KeyCode::Char('h')), key) || fires(alone(KeyCode::Left), key) {
            Some(Action::NavLeft)
        } else if fires(alone(KeyCode::Char('l')), key) || fires(alone(KeyCode::Right), key) {
            Some(Action::NavRight)
        } else if fires(alone(KeyCode::Char('k')), key) || fires(alone(KeyCode::Up), key) {
            Some(Action::NavUp)
        } else if fires(alone(KeyCode::Char('j')), key) || fires(alone(KeyCode::Down), key) {
            Some(Action::NavDown)
        } else if fires(alone(KeyCode::Char('n')), key) {
            Some(Action::CreateTask)
        } else if fires(alone(KeyCode::Char('e')), key) {
            Some(Action::EditTask)
        } else if fires(alone(KeyCode::Char('m')), key) {
            Some(Action::MoveForward)
        } else if fires(shift_with('m'), key) {
            Some(Action::MoveBackward)
        } else if fires(shift_with('k'), key) {
            Some(Action::MoveTaskUp)
        } else if fires(shift_with('j'), key) {
            Some(Action::MoveTaskDown)
        } else if fires(alone(KeyCode::Char('x')), key) {
            Some(Action::DeleteTask)
        } else if fires(alone(KeyCode::Char('v')), key) {
            Some(Action::ViewTask)
        } else if fires(control_with('a'), key) {
            Some(Action::AbortSession)
        } else if fires(shift_with('h'), key) {
            Some(Action::ScrollKanbanLeft)
        } else if fires(shift_with('l'), key) {
            Some(Action::ScrollKanbanRight)
        } else if fires(control_with('w'), key) {
            Some(Action::SetWorkingDirectory)
        } else if fires(control_with('d'), key) {
            Some(Action::DeleteProject)
        } else if fires(alone(KeyCode::Enter), key) {
            Some(Action::OpenTaskDetail)
        } else if fires(shift_with('r'), key) {
            Some(Action::RetryTask)
        } else if fires(control_with('x'), key) {
            Some(Action::DrillDownSubagent)
        } else if fires(alone(KeyCode::Char('d')), key) {
            Some(Action::ReviewChanges)
        } else if fires(alone(KeyCode::Char('a')), key) {
            Some(Action::AcceptReview)
        } else if fires(shift_with('x'), key) {
            Some(Action::RejectReview)
        } else if fires(control_with('p'), key) {
            Some(Action::Reports)
        } else if fires(alone(KeyCode::Char('b')), key) {
            Some(Action::AddDependency)
        } else if fires(shift_with('b'), key) {
            Some(Action::RemoveDependency)
        } else if fires(control_with('o'), key) {
            Some(Action::ViewArchive)
        } else if fires(control_with('e'), key) {
            Some(Action::OpenConfigEditor)
        } else {
            None
        },
{
    reveal_strlit(" ");
    reveal_strlit("?");
    reveal_strlit("a");
    reveal_strlit("b");
    reveal_strlit("ctrl");
    reveal_strlit("ctrl+a");
    reveal_strlit("ctrl+d");
    reveal_strlit("ctrl+e");
    reveal_strlit("ctrl+j");
    reveal_strlit("ctrl+k");
    reveal_strlit("ctrl+n");
    reveal_strlit("ctrl+o");
    reveal_strlit("ctrl+p");
    reveal_strlit("ctrl+q");
    reveal_strlit("ctrl+w");
    reveal_strlit("ctrl+x");
    reveal_strlit("d");
    reveal_strlit("down");
    reveal_strlit("e");
    reveal_strlit("enter");
    reveal_strlit("h, left");
    reveal_strlit("j, down");
    reveal_strlit("k, up");
    reveal_strlit("l, right");
    reveal_strlit("left");
    reveal_strlit("m");
    reveal_strlit("n");
    reveal_strlit("r");
    reveal_strlit("right");
    reveal_strlit("shift");
    reveal_strlit("shift+b");
    reveal_strlit("shift+h");
    reveal_strlit("shift+j");
    reveal_strlit("shift+k");
    reveal_strlit("shift+l");
    reveal_strlit("shift+m");
    reveal_strlit("shift+r");
    reveal_strlit("shift+x");
    reveal_strlit("up");
    reveal_strlit("v");
    reveal_strlit("x");
    assert(c.quit@ =~= "ctrl"@.push('+') + seq!['q']);
    assert(c.help_toggle@ =~= seq!['?']);
    assert(c.prev_project@ =~= "ctrl"@.push('+') + seq!['k']);
    assert(c.next_project@ =~= "ctrl"@.push('+') + seq!['j']);
    assert(c.new_project@ =~= "ctrl"@.push('+') + seq!['n']);
    assert(c.rename_project@ =~= seq!['r']);
    assert(c.kanban_left@ =~= seq!['h'].push(',') + (" "@ + "left"@));
    assert(c.kanban_right@ =~= seq!['l'].push(',') + (" "@ + "right"@));
    assert(c.kanban_up@ =~= seq!['k'].push(',') + (" "@ + "up"@));
    assert(c.kanban_down@ =~= seq!['j'].push(',') + (" "@ + "down"@));
    assert(c.todo_new@ =~= seq!['n']);
    assert(c.todo_edit@ =~= seq!['e']);
    assert(c.kanban_move_forward@ =~= seq!['m']);
    assert(c.kanban_move_backward@ =~= "shift"@.push('+') + seq!['m']);
    assert(c.task_move_up@ =~= "shift"@.push('+') + seq!['k']);
    assert(c.task_move_down@ =~= "shift"@.push('+') + seq!['j']);
    assert(c.task_delete@ =~= seq!['x']);
    assert(c.task_view@ =~= seq!['v']);
    assert(c.abort_session@ =~= "ctrl"@.push('+') + seq!['a']);
    assert(c.scroll_kanban_left@ =~= "shift"@.push('+') + seq!['h']);
    assert(c.scroll_kanban_right@ =~= "shift"@.push('+') + seq!['l']);
    assert(c.set_working_directory@ =~= "ctrl"@.push('+') + seq!['w']);
    assert(c.delete_project@ =~= "ctrl"@.push('+') + seq!['d']);
    assert(c.retry_task@ =~= "shift"@.push('+') + seq!['r']);
    assert(c.drill_down_subagent@ =~= "ctrl"@.push('+') + seq!['x']);
    assert(c.review_changes@ =~= seq!['d']);
    assert(c.accept_review@ =~= seq!['a']);
    assert(c.reject_review@ =~= "shift"@.push('+') + seq!['x']);
    assert(c.reports@ =~= "ctrl"@.push('+') + seq!['p']);
    assert(c.add_dependency@ =~= seq!['b']);
    assert(c.remove_dependency@ =~= "shift"@.push('+') + seq!['b']);
    assert(c.view_archive@ =~= "ctrl"@.push('+') + seq!['o']);
    assert(c.open_config_editor@ =~= "ctrl"@.push('+') + seq!['e']);
    law_keys_have_their_names("left"@);
    law_keys_have_their_names("right"@);
    law_keys_have_their_names("up"@);
    law_keys_have_their_names("down"@);
    law_keys_have_their_names("enter"@);
    lemma_control_with(c.quit@, 'q', key);
    lemma_letter(c.help_toggle@, '?', key);
    lemma_control_with(c.prev_project@, 'k', key);
    lemma_control_with(c.next_project@, 'j', key);
    lemma_control_with(c.new_project@, 'n', key);
    lemma_letter(c.rename_project@, 'r', key);
    lemma_letter_or_name(c.kanban_left@, 'h', "left"@, KeyCode::Left, key);
    lemma_letter_or_name(c.kanban_right@, 'l', "right"@, KeyCode::Right, key);
    lemma_letter_or_name(c.kanban_up@, 'k', "up"@, KeyCode::Up, key);
    lemma_letter_or_name(c.kanban_down@, 'j', "down"@, KeyCode::Down, key);
    lemma_letter(c.todo_new@, 'n', key);
    lemma_letter(c.todo_edit@, 'e', key);
    lemma_letter(c.kanban_move_forward@, 'm', key);
    lemma_shift_with(c.kanban_move_backward@, 'm', key);
    lemma_shift_with(c.task_move_up@, 'k', key);
    lemma_shift_with(c.task_move_down@, 'j', key);
    lemma_letter(c.task_delete@, 'x', key);
    lemma_letter(c.task_view@, 'v', key);
    lemma_control_with(c.abort_session@, 'a', key);
    lemma_shift_with(c.scroll_kanban_left@, 'h', key);
    lemma_shift_with(c.scroll_kanban_right@, 'l', key);
    lemma_control_with(c.set_working_directory@, 'w', key);
    lemma_control_with(c.delete_project@, 'd', key);
    lemma_name(c.task_open@, KeyCode::Enter, key);
    lemma_shift_with(c.retry_task@, 'r', key);
    lemma_control_with(c.drill_down_subagent@, 'x', key);
    lemma_letter(c.review_changes@, 'd', key);
    lemma_letter(c.accept_review@, 'a', key);
    lemma_shift_with(c.reject_review@, 'x', key);
    lemma_control_with(c.reports@, 'p', key);
    lemma_letter(c.add_dependency@, 'b', key);
    lemma_shift_with(c.remove_dependency@, 'b', key);
    lemma_control_with(c.view_archive@, 'o', key);
    lemma_control_with(c.open_config_editor@, 'e', key);
    law_each_field_binds_its_action(c, key);
}

/// Where no keys are configured, the keys for leaving, for the help, for projects and
/// for moving the focus fire these actions.
#[verifier::spinoff_prover]
#[verifier::rlimit(60)]
pub proof fn law_default_keys_of_projects_and_focus(c: KeybindingConfig)
    requires
        c.is_default(),
    ensures
        first_match(bindings_of(c), control_with('q'), 0) == Some(Action::Quit),
        first_match(bindings_of(c), alone(KeyCode::Char('?')), 0) == Some(Action::HelpToggle),
        first_match(bindings_of(c), control_with('k'), 0) == Some(Action::PrevProject),
        first_match(bindings_of(c), control_with('j'), 0) == Some(Action::NextProject),
        first_match(bindings_of(c), control_with('n'), 0) == Some(Action::NewProject),
        first_match(bindings_of(c), alone(KeyCode::Char('r')), 0) == Some(Action::RenameProject),
        first_match(bindings_of(c), alone(KeyCode::Char('h')), 0) == Some(Action::NavLeft),
        first_match(bindings_of(c), alone(KeyCode::Left), 0) == Some(Action::NavLeft),
        first_match(bindings_of(c), alone(KeyCode::Char('l')), 0) == Some(Action::NavRight),
        first_match(bindings_of(c), alone(KeyCode::Right), 0) == Some(Action::NavRight),
{
    lemma_default_match(c, control_with('q'));
    lemma_default_match(c, alone(KeyCode::Char('?')));
    lemma_default_match(c, control_with('k'));
    lemma_default_match(c, control_with('j'));
    lemma_default_match(c, control_with('n'));
    lemma_default_match(c, alone(KeyCode::Char('r')));
    lemma_default_match(c, alone(KeyCode::Char('h')));
    lemma_default_match(c, alone(KeyCode::Left));
    lemma_default_match(c, alone(KeyCode::Char('l')));
    lemma_default_match(c, alone(KeyCode::Right));
}

/// Where no keys are configured, the keys for the focus and for tasks fire these
/// actions.
#[verifier::spinoff_prover]
#[verifier::rlimit(60)]
pub proof fn law_default_keys_of_tasks(c: KeybindingConfig)
    requires
        c.is_default(),
    ensures
        first_match(bindings_of(c), alone(KeyCode::Char('k')), 0) == Some(Action::NavUp),
        first_match(bindings_of(c), alone(KeyCode::Up), 0) == Some(Action::NavUp),
        first_match(bindings_of(c), alone(KeyCode::Char('j')), 0) == Some(Action::NavDown),
        first_match(bindings_of(c), alone(KeyCode::Down), 0) == Some(Action::NavDown),
        first_match(bindings_of(c), alone(KeyCode::Char('n')), 0) == Some(Action::CreateTask),
        first_match(bindings_of(c), alone(KeyCode::Char('e')), 0) == Some(Action::EditTask),
        first_match(bindings_of(c), alone(KeyCode::Char('m')), 0) == Some(Action::MoveForward),
        first_match(bindings_of(c), shift_with('m'), 0) == Some(Action::MoveBackward),
        first_match(bindings_of(c), shift_with('k'), 0) == Some(Action::MoveTaskUp),
        first_match(bindings_of(c), shift_with('j'), 0) == Some(Action::MoveTaskDown),
{
    lemma_default_match(c, alone(KeyCode::Char('k')));
    lemma_default_match(c, alone(KeyCode::Up));
    lemma_default_match(c, alone(KeyCode::Char('j')));
    lemma_default_match(c, alone(KeyCode::Down));
    lemma_default_match(c, alone(KeyCode::Char('n')));
    lemma_default_match(c, alone(KeyCode::Char('e')));
    lemma_default_match(c, alone(KeyCode::Char('m')));
    lemma_default_match(c, shift_with('m'));
    lemma_default_match(c, shift_with('k'));
    lemma_default_match(c, shift_with('j'));
}

/// Where no keys are configured, the keys for sessions, for the board and for
/// projects fire these actions.
#[verifier::spinoff_prover]
#[verifier::rlimit(60)]
pub proof fn law_default_keys_of_sessions_and_the_board(c: KeybindingConfig)
    requires
        c.is_default(),
    ensures
        first_match(bindings_of(c), alone(KeyCode::Char('x')), 0) == Some(Action::DeleteTask),
        first_match(bindings_of(c), alone(KeyCode::Char('v')), 0) == Some(Action::ViewTask),
        first_match(bindings_of(c), control_with('a'), 0) == Some(Action::AbortSession),
        first_match(bindings_of(c), shift_with('h'), 0) == Some(Action::ScrollKanbanLeft),
        first_match(bindings_of(c), shift_with('l'), 0) == Some(Action::ScrollKanbanRight),
        first_match(bindings_of(c), control_with('w'), 0) == Some(Action::SetWorkingDirectory),
        first_match(bindings_of(c), control_with('d'), 0) == Some(Action::DeleteProject),
        first_match(bindings_of(c), alone(KeyCode::Enter), 0) == Some(Action::OpenTaskDetail),
        first_match(bindings_of(c), shift_with('r'), 0) == Some(Action::RetryTask),
        first_match(bindings_of(c), control_with('x'), 0) == Some(Action::DrillDownSubagent),
{
    lemma_default_match(c, alone(KeyCode::Char('x')));
    lemma_default_match(c, alone(KeyCode::Char('v')));
    lemma_default_match(c, control_with('a'));
    lemma_default_match(c, shift_with('h'));
    lemma_default_match(c, shift_with('l'));
    lemma_default_match(c, control_with('w'));
    lemma_default_match(c, control_with('d'));
    lemma_default_match(c, alone(KeyCode::Enter));
    lemma_default_match(c, shift_with('r'));
    lemma_default_match(c, control_with('x'));
}

/// Where no keys are configured, the keys for reviews, dependencies and the other
/// views fire these actions.
#[verifier::spinoff_prover]
#[verifier::rlimit(60)]
pub proof fn law_default_keys_of_reviews_and_views(c: KeybindingConfig)
    requires
        c.is_default(),
    ensures
        first_match(bindings_of(c), alone(KeyCode::Char('d')), 0) == Some(Action::ReviewChanges),
        first_match(bindings_of(c), alone(KeyCode::Char('a')), 0) == Some(Action::AcceptReview),
        first_match(bindings_of(c), shift_with('x'), 0) == Some(Action::RejectReview),
        first_match(bindings_of(c), control_with('p'), 0) == Some(Action::Reports),
        first_match(bindings_of(c), alone(KeyCode::Char('b')), 0) == Some(Action::AddDependency),
        first_match(bindings_of(c), shift_with('b'), 0) == Some(Action::RemoveDependency),
        first_match(bindings_of(c), control_with('o'), 0) == Some(Action::ViewArchive),
        first_match(bindings_of(c), control_with('e'), 0) == Some(Action::OpenConfigEditor),
{
    lemma_default_match(c, alone(KeyCode::Char('d')));
    lemma_default_match(c, alone(KeyCode::Char('a')));
    lemma_default_match(c, shift_with('x'));
    lemma_default_match(c, control_with('p'));
    lemma_default_match(c, alone(KeyCode::Char('b')));
    lemma_default_match(c, shift_with('b'));
    lemma_default_match(c, control_with('o'));
    lemma_default_match(c, control_with('e'));
}

/// Where no keys are configured, the keys of the prompt input fire these editing
/// actions.
pub proof fn law_default_keys_of_the_editor(c: KeybindingConfig)
    requires
        c.is_default(),
    ensures
        first_match(editor_bindings_of(c.editor), control_with('s'), 0) == Some(
            EditorKeyAction::Save,
        ),
        first_match(editor_bindings_of(c.editor), alone(KeyCode::Esc), 0) == Some(
            EditorKeyAction::Cancel,
        ),
        first_match(editor_bindings_of(c.editor), alone(KeyCode::Tab), 0) == Some(
            EditorKeyAction::CycleField,
        ),
        first_match(editor_bindings_of(c.editor), alone(KeyCode::Enter), 0) == Some(
            EditorKeyAction::Newline,
        ),
{
    lemma_default_editor_match(c, control_with('s'));
    lemma_default_editor_match(c, alone(KeyCode::Esc));
    lemma_default_editor_match(c, alone(KeyCode::Tab));
    lemma_default_editor_match(c, alone(KeyCode::Enter));
}

proof fn lemma_default_editor_match(c: KeybindingConfig, key: KeyEvent)
    requires
        c.is_default(),
    ensures
        first_match(editor_bindings_of(c.editor), key, 0) == if fires(control_with('s'), key) {
            Some(EditorKeyAction::Save)
        } else if fires(alone(KeyCode::Esc), key) {
            Some(EditorKeyAction::Cancel)
        } else if fires(alone(KeyCode::Tab), key) {
            Some(EditorKeyAction::CycleField)
        } else if fires(alone(KeyCode::Enter), key) {
            Some(EditorKeyAction::Newline)
        } else {
            None
        },
{
    reveal_strlit("ctrl+s");
    reveal_strlit("ctrl");
    reveal_strlit("esc");
    reveal_strlit("tab");
    reveal_strlit("enter");
    assert(c.editor.save@ =~= "ctrl"@.push('+') + seq!['s']);
    law_keys_have_their_names("esc"@);
    law_keys_have_their_names("tab"@);
    law_keys_have_their_names("enter"@);
    lemma_control_with(c.editor.save@, 's', key);
    lemma_name(c.editor.cancel@, KeyCode::Esc, key);
    lemma_name(c.editor.cycle_field@, KeyCode::Tab, key);
    lemma_name(c.editor.newline@, KeyCode::Enter, key);
    law_each_field_binds_its_editing_action(c.editor, key);
}

} // verus!
