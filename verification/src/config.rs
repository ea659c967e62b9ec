//! Configuration: keybindings, board columns and theme.

use vstd::prelude::*;
use crate::text;

verus! {

/// The keys of the task editor. Each field is a comma-separated list of key
/// combinations.
#[derive(Clone, Debug, PartialEq, Eq)]
pub struct EditorKeybindingConfig {
    pub save: String,
    pub cancel: String,
    pub cycle_field: String,
    pub newline: String,
}

impl Default for EditorKeybindingConfig {
    fn default() -> (r: Self)
        ensures
            r.save@ == "ctrl+s"@,
            r.cancel@ == "esc"@,
            r.cycle_field@ == "tab"@,
            r.newline@ == "enter"@,
    {
        EditorKeybindingConfig {
            save: "ctrl+s".to_owned(),
            cancel: "esc".to_owned(),
            cycle_field: "tab".to_owned(),
            newline: "enter".to_owned(),
        }
    }
}

/// The keys of the board. Each field is a comma-separated list of key
/// combinations.
#[derive(Clone, Debug, PartialEq, Eq)]
pub struct KeybindingConfig {
    pub quit: String,
    pub help_toggle: String,
    pub prev_project: String,
    pub next_project: String,
    pub new_project: String,
    pub rename_project: String,
    pub set_working_directory: String,
    pub delete_project: String,
    pub kanban_left: String,
    pub kanban_right: String,
    pub kanban_up: String,
    pub kanban_down: String,
    pub scroll_kanban_left: String,
    pub scroll_kanban_right: String,
    pub todo_new: String,
    pub todo_edit: String,
    pub task_open: String,
    pub task_view: String,
    pub kanban_move_forward: String,
    pub kanban_move_backward: String,
    pub task_move_up: String,
    pub task_move_down: String,
    pub task_delete: String,
    pub abort_session: String,
    pub retry_task: String,
    pub drill_down_subagent: String,
    pub add_dependency: String,
    pub remove_dependency: String,
    pub review_changes: String,
    pub accept_review: String,
    pub reject_review: String,
    pub reports: String,
    pub view_archive: String,
    pub open_config_editor: String,
    pub editor: EditorKeybindingConfig,
}

impl KeybindingConfig {
    /// Whether every key is the one that is used where none is configured.
    pub open spec fn is_default(&self) -> bool {
        &&& self.quit@ == "ctrl+q"@
        &&& self.help_toggle@ == "?"@
        &&& self.prev_project@ == "ctrl+k"@
        &&& self.next_project@ == "ctrl+j"@
        &&& self.new_project@ == "ctrl+n"@
        &&& self.rename_project@ == "r"@
        &&& self.set_working_directory@ == "ctrl+w"@
        &&& self.delete_project@ == "ctrl+d"@
        &&& self.kanban_left@ == "h, left"@
        &&& self.kanban_right@ == "l, right"@
        &&& self.kanban_up@ == "k, up"@
        &&& self.kanban_down@ == "j, down"@
        &&& self.scroll_kanban_left@ == "shift+h"@
        &&& self.scroll_kanban_right@ == "shift+l"@
        &&& self.todo_new@ == "n"@
        &&& self.todo_edit@ == "e"@
        &&& self.task_open@ == "enter"@
        &&& self.task_view@ == "v"@
        &&& self.kanban_move_forward@ == "m"@
        &&& self.kanban_move_backward@ == "shift+m"@
        &&& self.task_move_up@ == "shift+k"@
        &&& self.task_move_down@ == "shift+j"@
        &&& self.task_delete@ == "x"@
        &&& self.abort_session@ == "ctrl+a"@
        &&& self.retry_task@ == "shift+r"@
        &&& self.drill_down_subagent@ == "ctrl+x"@
        &&& self.add_dependency@ == "b"@
        &&& self.remove_dependency@ == "shift+b"@
        &&& self.review_changes@ == "d"@
        &&& self.accept_review@ == "a"@
        &&& self.reject_review@ == "shift+x"@
        &&& self.reports@ == "ctrl+p"@
        &&& self.view_archive@ == "ctrl+o"@
        &&& self.open_config_editor@ == "ctrl+e"@
        &&& self.editor.save@ == "ctrl+s"@
        &&& self.editor.cancel@ == "esc"@
        &&& self.editor.cycle_field@ == "tab"@
        &&& self.editor.newline@ == "enter"@
    }
}

impl Default for KeybindingConfig {
    fn default() -> (r: Self)
        ensures
            r.quit@ == "ctrl+q"@,
            r.help_toggle@ == "?"@,
            r.prev_project@ == "ctrl+k"@,
            r.next_project@ == "ctrl+j"@,
            r.new_project@ == "ctrl+n"@,
            r.rename_project@ == "r"@,
            r.set_working_directory@ == "ctrl+w"@,
            r.delete_project@ == "ctrl+d"@,
            r.kanban_left@ == "h, left"@,
            r.kanban_right@ == "l, right"@,
            r.kanban_up@ == "k, up"@,
            r.kanban_down@ == "j, down"@,
            r.scroll_kanban_left@ == "shift+h"@,
            r.scroll_kanban_right@ == "shift+l"@,
            r.todo_new@ == "n"@,
            r.todo_edit@ == "e"@,
            r.task_open@ == "enter"@,
            r.task_view@ == "v"@,
            r.kanban_move_forward@ == "m"@,
            r.kanban_move_backward@ == "shift+m"@,
            r.task_move_up@ == "shift+k"@,
            r.task_move_down@ == "shift+j"@,
            r.task_delete@ == "x"@,
            r.abort_session@ == "ctrl+a"@,
            r.retry_task@ == "shift+r"@,
            r.drill_down_subagent@ == "ctrl+x"@,
            r.add_dependency@ == "b"@,
            r.remove_dependency@ == "shift+b"@,
            r.review_changes@ == "d"@,
            r.accept_review@ == "a"@,
            r.reject_review@ == "shift+x"@,
            r.reports@ == "ctrl+p"@,
            r.view_archive@ == "ctrl+o"@,
            r.open_config_editor@ == "ctrl+e"@,
            r.editor.save@ == "ctrl+s"@,
            r.editor.cancel@ == "esc"@,
            r.editor.cycle_field@ == "tab"@,
            r.editor.newline@ == "enter"@,
            r.is_default(),
    {
        KeybindingConfig {
            quit: "ctrl+q".to_owned(),
            help_toggle: "?".to_owned(),
            prev_project: "ctrl+k".to_owned(),
            next_project: "ctrl+j".to_owned(),
            new_project: "ctrl+n".to_owned(),
            rename_project: "r".to_owned(),
            set_working_directory: "ctrl+w".to_owned(),
            delete_project: "ctrl+d".to_owned(),
            kanban_left: "h, left".to_owned(),
            kanban_right: "l, right".to_owned(),
            kanban_up: "k, up".to_owned(),
            kanban_down: "j, down".to_owned(),
            scroll_kanban_left: "shift+h".to_owned(),
            scroll_kanban_right: "shift+l".to_owned(),
            todo_new: "n".to_owned(),
            todo_edit: "e".to_owned(),
            task_open: "enter".to_owned(),
            task_view: "v".to_owned(),
            kanban_move_forward: "m".to_owned(),
            kanban_move_backward: "shift+m".to_owned(),
            task_move_up: "shift+k".to_owned(),
            task_move_down: "shift+j".to_owned(),
            task_delete: "x".to_owned(),
            abort_session: "ctrl+a".to_owned(),
            retry_task: "shift+r".to_owned(),
            drill_down_subagent: "ctrl+x".to_owned(),
            add_dependency: "b".to_owned(),
            remove_dependency: "shift+b".to_owned(),
            review_changes: "d".to_owned(),
            accept_review: "a".to_owned(),
            reject_review: "shift+x".to_owned(),
            reports: "ctrl+p".to_owned(),
            view_archive: "ctrl+o".to_owned(),
            open_config_editor: "ctrl+e".to_owned(),
            editor: EditorKeybindingConfig::default(),
        }
    }
}

/// A column of the board.
#[derive(Clone, Debug, PartialEq, Eq)]
pub struct ColumnDefinition {
    pub id: String,
    pub display_name: String,
    pub agent: Option<String>,
    pub auto_progress_to: Option<String>,
    pub visible: bool,
}

/// The columns of the board, in order.
#[derive(Clone, Debug, PartialEq, Eq)]
pub struct ColumnsConfig {
    pub definitions: Vec<ColumnDefinition>,
}

/// The ids of the visible ones of a list of columns, in order.
pub open spec fn visible_ids(definitions: Seq<ColumnDefinition>) -> Seq<Seq<char>>
    decreases definitions.len(),
{
    if definitions.len() == 0 {
        Seq::empty()
    } else if definitions.last().visible {
        visible_ids(definitions.drop_last()).push(definitions.last().id@)
    } else {
        visible_ids(definitions.drop_last())
    }
}

/// The place of the first column with the given id, from `from` on.
pub open spec fn column_at(definitions: Seq<ColumnDefinition>, id: Seq<char>, from: int) -> Option<
    int,
>
    decreases definitions.len() - from,
{
    if from < 0 || from >= definitions.len() {
        None
    } else if definitions[from].id@ == id {
        Some(from)
    } else {
        column_at(definitions, id, from + 1)
    }
}

impl ColumnsConfig {
    /// The place of the first column with the given id.
    pub open spec fn slot(&self, id: Seq<char>) -> Option<int> {
        column_at(self.definitions@, id, 0)
    }

    /// The place of the first column with the given id.
    pub fn position(&self, id: &str) -> (r: Option<usize>)
        ensures
            match r {
                Some(i) => i < self.definitions@.len() && self.slot(id@) == Some(i as int),
                None => self.slot(id@) is None,
            },
    {
        let mut i: usize = 0;
        while i < self.definitions.len()
            invariant
                i <= self.definitions@.len(),
                column_at(self.definitions@, id@, i as int) == self.slot(id@),
            decreases self.definitions@.len() - i,
        {
            if text::same(self.definitions[i].id.as_str(), id) {
                return Some(i);
            }
            i += 1;
        }
        None
    }

    /// The ids of the visible columns, in order.
    pub fn visible_column_ids(&self) -> (r: Vec<String>)
        ensures
            text::texts(r@) == visible_ids(self.definitions@),
    {
        let mut out: Vec<String> = Vec::new();
        let mut i: usize = 0;
        proof {
            assert(self.definitions@.take(0) =~= Seq::<ColumnDefinition>::empty());
            assert(text::texts(out@) =~= visible_ids(self.definitions@.take(0)));
        }
        while i < self.definitions.len()
            invariant
                i <= self.definitions@.len(),
                text::texts(out@) == visible_ids(self.definitions@.take(i as int)),
            decreases self.definitions@.len() - i,
        {
            proof {
                assert(self.definitions@.take(i + 1).drop_last() =~= self.definitions@.take(
                    i as int,
                ));
            }
            if self.definitions[i].visible {
                let ghost before = out@;
                out.push(self.definitions[i].id.clone());
                proof {
                    assert(text::texts(out@) =~= text::texts(before).push(out@.last()@));
                }
            }
            i += 1;
        }
        proof {
            assert(self.definitions@.take(i as int) =~= self.definitions@);
        }
        out
    }

    /// The agent of a column, if it has one.
    pub open spec fn agent_of(&self, id: Seq<char>) -> Option<Seq<char>> {
        match self.slot(id) {
            Some(i) => match self.definitions@[i].agent {
                Some(a) => Some(a@),
                None => None,
            },
            None => None,
        }
    }

    /// The agent of a column, if it has one.
    pub fn agent_for_column(&self, id: &str) -> (r: Option<String>)
        ensures
            match r {
                Some(a) => self.agent_of(id@) == Some(a@),
                None => self.agent_of(id@) is None,
            },
    {
        match self.position(id) {
            Some(i) => match &self.definitions[i].agent {
                Some(a) => Some(a.clone()),
                None => None,
            },
            None => None,
        }
    }

    /// The name shown for a column: its display name, or its id when the
    /// column is not known.
    pub open spec fn shown_name(&self, id: Seq<char>) -> Seq<char> {
        match self.slot(id) {
            Some(i) => self.definitions@[i].display_name@,
            None => id,
        }
    }

    /// The name shown for a column.
    pub fn display_name_for(&self, id: &str) -> (r: String)
        ensures
            r@ == self.shown_name(id@),
    {
        match self.position(id) {
            Some(i) => self.definitions[i].display_name.clone(),
            None => id.to_owned(),
        }
    }
}

/// The sizes of the board.
#[derive(Clone, Copy, Debug, PartialEq, Eq, Structural)]
pub struct BoardSize {
    pub sidebar_width: u16,
    pub column_width: u16,
}

/// The visible columns are those marked as visible, in the order in which they
/// are defined.
pub proof fn law_visible_columns_are_those_marked(definitions: Seq<ColumnDefinition>)
    ensures
        visible_ids(definitions) == definitions.filter(
            |d: ColumnDefinition| d.visible,
        ).map_values(|d: ColumnDefinition| d.id@),
    decreases definitions.len(),
{
    reveal(Seq::filter);
    let kept = definitions.filter(|d: ColumnDefinition| d.visible);
    if definitions.len() > 0 {
        let front = definitions.drop_last();
        law_visible_columns_are_those_marked(front);
        let before = front.filter(|d: ColumnDefinition| d.visible);
        if definitions.last().visible {
            assert(kept == before.push(definitions.last()));
            assert(kept.map_values(|d: ColumnDefinition| d.id@) =~= before.map_values(
                |d: ColumnDefinition| d.id@,
            ).push(definitions.last().id@));
        } else {
            assert(kept == before);
        }
    } else {
        assert(kept.map_values(|d: ColumnDefinition| d.id@) =~= Seq::<Seq<char>>::empty());
    }
}

proof fn lemma_column_at(definitions: Seq<ColumnDefinition>, id: Seq<char>, from: int)
    requires
        0 <= from,
    ensures
        match column_at(definitions, id, from) {
            Some(i) => from <= i < definitions.len() && definitions[i].id@ == id && forall|k: int|
                from <= k < i ==> (#[trigger] definitions[k]).id@ != id,
            None => forall|k: int|
                from <= k < definitions.len() ==> (#[trigger] definitions[k]).id@ != id,
        },
    decreases definitions.len() - from,
{
    if from < definitions.len() {
        lemma_column_at(definitions, id, from + 1);
    }
}

/// Agent and name of a column are those of the first definition with its id; a
/// column that is not defined has no agent and is called by its id.
pub proof fn law_columns_are_found_by_id(c: ColumnsConfig, id: Seq<char>)
    ensures
        forall|k: int|
            0 <= k < c.definitions@.len() && (#[trigger] c.definitions@[k]).id@ == id && (forall|
                m: int,
            |
                0 <= m < k ==> (#[trigger] c.definitions@[m]).id@ != id) ==> c.shown_name(id)
                == c.definitions@[k].display_name@ && (match c.definitions@[k].agent {
                Some(a) => c.agent_of(id) == Some(a@),
                None => c.agent_of(id) is None,
            }),
        (forall|k: int| 0 <= k < c.definitions@.len() ==> (#[trigger] c.definitions@[k]).id@ != id)
            ==> c.shown_name(id) == id && c.agent_of(id) is None,
{
    lemma_column_at(c.definitions@, id, 0);
}

} // verus!
