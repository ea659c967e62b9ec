//! The list of changed files, read from the output of `git diff --numstat`
//! and `git diff --name-status`.

use vstd::prelude::*;
use crate::state;
use crate::state::{AppState, ChangedFileInfo, FileChangeStatus, UiState};
use crate::table;
use crate::table::Table;
use crate::text;

verus! {

/// The contents of an entry of the changed-files list.
#[verifier::ext_equal]
pub struct ChangedView {
    pub path: Seq<char>,
    pub old_path: Option<Seq<char>>,
    pub status: FileChangeStatus,
    pub additions: nat,
    pub deletions: nat,
}

impl View for ChangedFileInfo {
    type V = ChangedView;

    open spec fn view(&self) -> ChangedView {
        ChangedView {
            path: self.path@,
            old_path: state::opt_view(self.old_path),
            status: self.status,
            additions: self.additions as nat,
            deletions: self.deletions as nat,
        }
    }
}

/// What a status letter stands for; anything unknown counts as a modification.
pub open spec fn status_of(letter: Seq<char>) -> FileChangeStatus {
    if letter == "A"@ {
        FileChangeStatus::Added
    } else if letter == "M"@ {
        FileChangeStatus::Modified
    } else if letter == "D"@ {
        FileChangeStatus::Deleted
    } else if letter == "R"@ {
        FileChangeStatus::Renamed
    } else if letter == "C"@ {
        FileChangeStatus::Copied
    } else {
        FileChangeStatus::Modified
    }
}

fn read_status(letter: &str) -> (r: FileChangeStatus)
    ensures
        r == status_of(letter@),
{
    if text::same(letter, "A") {
        FileChangeStatus::Added
    } else if text::same(letter, "M") {
        FileChangeStatus::Modified
    } else if text::same(letter, "D") {
        FileChangeStatus::Deleted
    } else if text::same(letter, "R") {
        FileChangeStatus::Renamed
    } else if text::same(letter, "C") {
        FileChangeStatus::Copied
    } else {
        FileChangeStatus::Modified
    }
}

/// The path, status and old path on a line of `--name-status` output. Lines
/// with less than two fields say nothing. A rename or copy with three fields
/// has the old path in the second and the path in the third.
pub open spec fn name_status(line: Seq<char>) -> Option<
    (Seq<char>, FileChangeStatus, Option<Seq<char>>),
> {
    let parts = text::fields(line, "\t"@, 3);
    if parts.len() < 2 {
        None
    } else {
        let status = status_of(parts[0]);
        if (status is Renamed || status is Copied) && parts.len() >= 3 {
            Some((parts[2], status, Some(parts[1])))
        } else {
            Some((parts[1], status, None))
        }
    }
}

/// The number in a field of `--numstat` output; 0 when it is none, as the dash
/// of a binary file.
pub open spec fn count_of(field: Seq<char>) -> nat {
    match text::parsed(field, u32::MAX as nat) {
        Some(n) => n,
        None => 0,
    }
}

/// The path and counts on a line of `--numstat` output. Lines with less than
/// three fields say nothing.
pub open spec fn numstat(line: Seq<char>) -> Option<(Seq<char>, nat, nat)> {
    let parts = text::fields(line, "\t"@, 3);
    if parts.len() < 3 {
        None
    } else {
        Some((parts[2], count_of(parts[0]), count_of(parts[1])))
    }
}

/// The status and old path of each path, the last line about a path counting.
pub open spec fn status_map(lines: Seq<Seq<char>>) -> Map<
    Seq<char>,
    (FileChangeStatus, Option<Seq<char>>),
>
    decreases lines.len(),
{
    if lines.len() == 0 {
        Map::empty()
    } else {
        let front = status_map(lines.drop_last());
        match name_status(lines.last()) {
            Some((path, status, old_path)) => front.insert(path, (status, old_path)),
            None => front,
        }
    }
}

/// The paths in the order in which they are first named.
pub open spec fn status_paths(lines: Seq<Seq<char>>) -> Seq<Seq<char>>
    decreases lines.len(),
{
    if lines.len() == 0 {
        Seq::empty()
    } else {
        let front = status_paths(lines.drop_last());
        match name_status(lines.last()) {
            Some((path, _, _)) => if status_map(lines.drop_last()).contains_key(path) {
                front
            } else {
                front.push(path)
            },
            None => front,
        }
    }
}

/// The counts of each path, the last line about a path counting.
pub open spec fn count_map(lines: Seq<Seq<char>>) -> Map<Seq<char>, (nat, nat)>
    decreases lines.len(),
{
    if lines.len() == 0 {
        Map::empty()
    } else {
        let front = count_map(lines.drop_last());
        match numstat(lines.last()) {
            Some((path, additions, deletions)) => front.insert(path, (additions, deletions)),
            None => front,
        }
    }
}

/// The changed files: one entry for each path with a status, with its counts
/// where they are known.
pub open spec fn changed_files(numstat_text: Seq<char>, status_text: Seq<char>) -> Seq<
    ChangedView,
> {
    let statuses = status_map(text::lines_of(status_text));
    let counts = count_map(text::lines_of(numstat_text));
    status_paths(text::lines_of(status_text)).map_values(
        |path: Seq<char>|
            ChangedView {
                path,
                old_path: statuses[path].1,
                status: statuses[path].0,
                additions: if counts.contains_key(path) {
                    counts[path].0
                } else {
                    0
                },
                deletions: if counts.contains_key(path) {
                    counts[path].1
                } else {
                    0
                },
            },
    )
}

/// The table holds what the map says.
pub open spec fn statuses_agree(
    t: Table<(FileChangeStatus, Option<String>)>,
    m: Map<Seq<char>, (FileChangeStatus, Option<Seq<char>>)>,
) -> bool {
    forall|k: Seq<char>|
        #![trigger t@.contains_key(k)]
        #![trigger m.contains_key(k)]
        t@.contains_key(k) == m.contains_key(k) && (t@.contains_key(k) ==> t@[k].0 == m[k].0
            && state::opt_view(t@[k].1) == m[k].1)
}

/// The table holds what the map says.
pub open spec fn counts_agree(t: Table<(u32, u32)>, m: Map<Seq<char>, (nat, nat)>) -> bool {
    forall|k: Seq<char>|
        #![trigger t@.contains_key(k)]
        #![trigger m.contains_key(k)]
        t@.contains_key(k) == m.contains_key(k) && (t@.contains_key(k) ==> t@[k].0 as nat == m[k].0
            && t@[k].1 as nat == m[k].1)
}

fn read_statuses(status_text: &str) -> (r: Table<(FileChangeStatus, Option<String>)>)
    ensures
        statuses_agree(r, status_map(text::lines_of(status_text@))),
        r.keys() == status_paths(text::lines_of(status_text@)),
        r.distinct(),
{
    let lines = text::lines(status_text);
    let ghost all = text::texts(lines@);
    let mut t: Table<(FileChangeStatus, Option<String>)> = Table::new();
    let mut i: usize = 0;
    proof {
        assert(all.take(0) =~= Seq::<Seq<char>>::empty());
        assert(t.keys() =~= status_paths(all.take(0)));
        reveal_strlit("\t");
    }
    while i < lines.len()
        invariant
            "\t"@.len() == 1,
            i <= lines@.len(),
            all == text::texts(lines@),
            statuses_agree(t, status_map(all.take(i as int))),
            t.keys() == status_paths(all.take(i as int)),
            t.distinct(),
        decreases lines@.len() - i,
    {
        let parts = text::split_n(lines[i].as_str(), "\t", 3);
        proof {
            assert(all.take(i + 1).drop_last() =~= all.take(i as int));
            assert(all.take(i + 1).last() == lines@[i as int]@);
            assert(text::texts(parts@).len() == parts@.len());
            assert forall|k: int| 0 <= k < parts@.len() implies text::texts(parts@)[k] == (
            #[trigger] parts@[k])@ by {}
        }
        if parts.len() >= 2 {
            let status = read_status(parts[0].as_str());
            let moved = matches!(status, FileChangeStatus::Renamed | FileChangeStatus::Copied);
            if moved && parts.len() >= 3 {
                t.insert(parts[2].clone(), (status, Some(parts[1].clone())));
            } else {
                t.insert(parts[1].clone(), (status, None));
            }
        }
        i += 1;
    }
    proof {
        assert(all.take(i as int) =~= all);
    }
    t
}

fn read_count(field: &str) -> (r: u32)
    ensures
        r as nat == count_of(field@),
{
    match text::parse_unsigned(field, u32::MAX as u64) {
        Some(n) => n as u32,
        None => 0,
    }
}

fn read_counts(numstat_text: &str) -> (r: Table<(u32, u32)>)
    ensures
        counts_agree(r, count_map(text::lines_of(numstat_text@))),
{
    let lines = text::lines(numstat_text);
    let ghost all = text::texts(lines@);
    let mut t: Table<(u32, u32)> = Table::new();
    let mut i: usize = 0;
    proof {
        assert(all.take(0) =~= Seq::<Seq<char>>::empty());
        reveal_strlit("\t");
    }
    while i < lines.len()
        invariant
            "\t"@.len() == 1,
            i <= lines@.len(),
            all == text::texts(lines@),
            counts_agree(t, count_map(all.take(i as int))),
        decreases lines@.len() - i,
    {
        let parts = text::split_n(lines[i].as_str(), "\t", 3);
        proof {
            assert(all.take(i + 1).drop_last() =~= all.take(i as int));
            assert(all.take(i + 1).last() == lines@[i as int]@);
            assert(text::texts(parts@).len() == parts@.len());
            assert forall|k: int| 0 <= k < parts@.len() implies text::texts(parts@)[k] == (
            #[trigger] parts@[k])@ by {}
        }
        if parts.len() >= 3 {
            let adds: u32 = read_count(parts[0].as_str());
            let dels: u32 = read_count(parts[1].as_str());
            t.insert(parts[2].clone(), (adds, dels));
        }
        i += 1;
    }
    proof {
        assert(all.take(i as int) =~= all);
    }
    t
}

/// The contents of a changed-files list.
pub open spec fn changed_views(files: Seq<ChangedFileInfo>) -> Seq<ChangedView> {
    files.map_values(|f: ChangedFileInfo| f@)
}

/// Merges the two outputs, given as text, into the list of changed files.
pub fn merge_changed_files(numstat_text: &str, status_text: &str) -> (r: Vec<ChangedFileInfo>)
    ensures
        changed_views(r@) == changed_files(numstat_text@, status_text@),
{
    let statuses = read_statuses(status_text);
    let counts = read_counts(numstat_text);
    let ghost want = changed_files(numstat_text@, status_text@);
    let mut files: Vec<ChangedFileInfo> = Vec::new();
    let mut i: usize = 0;
    proof {
        assert(want.len() == statuses.keys().len());
        assert(statuses.keys().len() == statuses.entries@.len());
        assert(changed_views(files@) =~= want.take(0));
    }
    while i < statuses.entries.len()
        invariant
            i <= statuses.entries@.len(),
            statuses_agree(statuses, status_map(text::lines_of(status_text@))),
            statuses.keys() == status_paths(text::lines_of(status_text@)),
            statuses.distinct(),
            counts_agree(counts, count_map(text::lines_of(numstat_text@))),
            want == changed_files(numstat_text@, status_text@),
            want.len() == statuses.entries@.len(),
            changed_views(files@) == want.take(i as int),
        decreases statuses.entries@.len() - i,
    {
        let path = &statuses.entries[i].0;
        let status = statuses.entries[i].1.0;
        let old_path = state::clone_opt(&statuses.entries[i].1.1);
        let (additions, deletions): (u32, u32) = match counts.get(path.as_str()) {
            Some(c) => *c,
            None => (0, 0),
        };
        let file = ChangedFileInfo { path: path.clone(), old_path, status, additions, deletions };
        proof {
            let k = path@;
            table::lemma_slot_is(statuses.entries@, k, i as int);
            assert(statuses.keys()[i as int] == k);
            assert(statuses@.contains_key(k));
            assert(counts@.contains_key(k) == count_map(
                text::lines_of(numstat_text@),
            ).contains_key(k));
            assert(want[i as int] == file@);
            assert(want.take(i + 1) =~= want.take(i as int).push(want[i as int]));
            assert(changed_views(files@.push(file)) =~= changed_views(files@).push(file@));
        }
        files.push(file);
        i += 1;
    }
    proof {
        assert(want.take(i as int) =~= want);
    }
    files
}

/// Parse the output of `git diff --numstat HEAD` and
/// `git diff --name-status HEAD` into a list of changed files.
pub fn parse_changed_files(numstat_stdout: &[u8], name_status_stdout: &[u8]) -> (r: Vec<
    ChangedFileInfo,
>)
    ensures
        changed_views(r@) == changed_files(
            text::lossy(numstat_stdout@),
            text::lossy(name_status_stdout@),
        ),
{
    let numstat_text = text::from_utf8_lossy(numstat_stdout);
    let status_text = text::from_utf8_lossy(name_status_stdout);
    merge_changed_files(numstat_text.as_str(), status_text.as_str())
}

/// Takes a list of changed files into the view of a task, unless another task
/// has come into view meanwhile. An empty list counts as none.
pub fn changed_files_loaded(state: &mut AppState, task_id: &str, files: Vec<ChangedFileInfo>)
    ensures
        *final(state) == (if state::opt_view(old(state).ui.viewing_task_id) == Some(task_id@) {
            AppState {
                ui: UiState {
                    changed_files: if files@.len() == 0 {
                        None
                    } else {
                        Some(files)
                    },
                    selected_changed_file_index: 0,
                    ..old(state).ui
                },
                render_dirty: true,
                ..*old(state)
            }
        } else {
            *old(state)
        }),
{
    if state::opt_is(&state.ui.viewing_task_id, task_id) {
        state.ui.changed_files = if files.len() == 0 {
            None
        } else {
            Some(files)
        };
        state.ui.selected_changed_file_index = 0;
        state.mark_render_dirty();
    }
}

proof fn lemma_paths(lines: Seq<Seq<char>>)
    ensures
        status_paths(lines).no_duplicates(),
        forall|k: Seq<char>|
            status_paths(lines).contains(k) <==> #[trigger] status_map(lines).contains_key(k),
    decreases lines.len(),
{
    if lines.len() > 0 {
        let front = lines.drop_last();
        lemma_paths(front);
        let old_paths = status_paths(front);
        match name_status(lines.last()) {
            Some((path, _, _)) => {
                if !status_map(front).contains_key(path) {
                    let paths = old_paths.push(path);
                    assert(!old_paths.contains(path));
                    assert(paths.no_duplicates()) by {
                        assert forall|i: int, j: int|
                            0 <= i < paths.len() && 0 <= j < paths.len() && i != j implies paths[i]
                            != paths[j] by {
                            if i < old_paths.len() && j < old_paths.len() {
                                assert(old_paths[i] != old_paths[j]);
                            } else if i < old_paths.len() {
                                assert(old_paths.contains(old_paths[i]));
                            } else {
                                assert(old_paths.contains(old_paths[j]));
                            }
                        }
                    }
                    assert forall|k: Seq<char>|
                        paths.contains(k) <==> #[trigger] status_map(lines).contains_key(k) by {
                        if old_paths.contains(k) {
                            let i = choose|i: int| 0 <= i < old_paths.len() && old_paths[i] == k;
                            assert(paths[i] == k);
                        }
                        if k == path {
                            assert(paths[old_paths.len() as int] == k);
                        }
                        if paths.contains(k) {
                            let i = choose|i: int| 0 <= i < paths.len() && paths[i] == k;
                            if i < old_paths.len() {
                                assert(old_paths[i] == k);
                                assert(old_paths.contains(k));
                            }
                        }
                    }
                } else {
                    assert forall|k: Seq<char>|
                        old_paths.contains(k) <==> #[trigger] status_map(lines).contains_key(k) by {
                        assert(status_map(front).contains_key(k) == old_paths.contains(k));
                    }
                }
            },
            None => {
                assert forall|k: Seq<char>|
                    old_paths.contains(k) <==> #[trigger] status_map(lines).contains_key(k) by {
                    assert(status_map(front).contains_key(k) == old_paths.contains(k));
                }
            },
        }
    }
}

/// The list of changed files names no path twice, and names just the paths
/// that a status line names.
pub proof fn law_each_path_is_listed_once(numstat_text: Seq<char>, status_text: Seq<char>)
    ensures
        ({
            let files = changed_files(numstat_text, status_text);
            let statuses = status_map(text::lines_of(status_text));
            &&& forall|i: int, j: int|
                0 <= i < j < files.len() ==> (#[trigger] files[i]).path != (#[trigger] files[j]).path
            &&& forall|i: int|
                0 <= i < files.len() ==> statuses.contains_key((#[trigger] files[i]).path)
            &&& forall|k: Seq<char>| #[trigger]
                statuses.contains_key(k) ==> exists|i: int|
                    0 <= i < files.len() && (#[trigger] files[i]).path == k
        }),
{
    let lines = text::lines_of(status_text);
    lemma_paths(lines);
    let paths = status_paths(lines);
    let files = changed_files(numstat_text, status_text);
    assert forall|i: int| 0 <= i < files.len() implies (#[trigger] files[i]).path == paths[i] by {}
    assert forall|i: int| 0 <= i < files.len() implies status_map(lines).contains_key(
        (#[trigger] files[i]).path,
    ) by {
        assert(paths.contains(paths[i]));
    }
    assert forall|k: Seq<char>| #[trigger] status_map(lines).contains_key(k) implies exists|i: int|
        0 <= i < files.len() && (#[trigger] files[i]).path == k by {
        assert(paths.contains(k));
        let i = choose|i: int| 0 <= i < paths.len() && paths[i] == k;
        assert(files[i].path == k);
    }
}

/// The fields of a line of `git` output.
pub open spec fn columns_of(line: Seq<char>) -> Seq<Seq<char>> {
    text::fields(line, "\t"@, 3)
}

/// Whether a line of `--name-status` output is about a path: it names it last.
/// Only a rename or a copy names two.
pub open spec fn status_line_about(line: Seq<char>, path: Seq<char>) -> bool {
    let c = columns_of(line);
    c.len() >= 2 && path == if c.len() >= 3 && (c[0] == "R"@ || c[0] == "C"@) {
        c[2]
    } else {
        c[1]
    }
}

/// Whether a line of `--numstat` output is about a path.
pub open spec fn count_line_about(line: Seq<char>, path: Seq<char>) -> bool {
    columns_of(line).len() >= 3 && columns_of(line)[2] == path
}

/// Whether line `k` is the last of `lines` that is about a path.
pub open spec fn last_status_about(lines: Seq<Seq<char>>, k: int, path: Seq<char>) -> bool {
    &&& 0 <= k < lines.len()
    &&& status_line_about(lines[k], path)
    &&& forall|m: int| k < m < lines.len() ==> !status_line_about(#[trigger] lines[m], path)
}

/// Whether line `k` is the last of `lines` that has the counts of a path.
pub open spec fn last_count_about(lines: Seq<Seq<char>>, k: int, path: Seq<char>) -> bool {
    &&& 0 <= k < lines.len()
    &&& count_line_about(lines[k], path)
    &&& forall|m: int| k < m < lines.len() ==> !count_line_about(#[trigger] lines[m], path)
}

/// Whether a status and an old path are those that a line of `--name-status`
/// output gives: a letter of its own stands for each status but that of a
/// modification, and a rename or a copy from another path names that one.
pub open spec fn status_as_written(
    line: Seq<char>,
    status: FileChangeStatus,
    old_path: Option<Seq<char>>,
) -> bool {
    let c = columns_of(line);
    &&& status is Added <==> c[0] == "A"@
    &&& status is Deleted <==> c[0] == "D"@
    &&& status is Renamed <==> c[0] == "R"@
    &&& status is Copied <==> c[0] == "C"@
    &&& status is Modified <==> c[0] != "A"@ && c[0] != "D"@ && c[0] != "R"@ && c[0] != "C"@
    &&& old_path is Some <==> c.len() >= 3 && (c[0] == "R"@ || c[0] == "C"@)
    &&& old_path is Some ==> old_path == Some(c[1])
}

proof fn lemma_name_status(line: Seq<char>)
    ensures
        forall|path: Seq<char>| #[trigger]
            status_line_about(line, path) <==> match name_status(line) {
                Some((named, _, _)) => named == path,
                None => false,
            },
        name_status(line) matches Some((path, status, old_path)) ==> status_as_written(
            line,
            status,
            old_path,
        ),
{
    reveal_strlit("A");
    reveal_strlit("M");
    reveal_strlit("D");
    reveal_strlit("R");
    reveal_strlit("C");
    assert("A"@[0] == 'A' && "M"@[0] == 'M' && "D"@[0] == 'D' && "R"@[0] == 'R' && "C"@[0] == 'C');
}

proof fn lemma_status_kept(lines: Seq<Seq<char>>, path: Seq<char>)
    requires
        status_map(lines).contains_key(path),
    ensures
        exists|k: int| #[trigger]
            last_status_about(lines, k, path) && status_as_written(
                lines[k],
                status_map(lines)[path].0,
                status_map(lines)[path].1,
            ),
    decreases lines.len(),
{
    let front = lines.drop_last();
    let n = lines.len() - 1;
    lemma_name_status(lines.last());
    if status_line_about(lines.last(), path) {
        assert(last_status_about(lines, n, path));
    } else {
        lemma_status_kept(front, path);
        let k = choose|k: int| #[trigger]
            last_status_about(front, k, path) && status_as_written(
                front[k],
                status_map(front)[path].0,
                status_map(front)[path].1,
            );
        assert forall|m: int| k < m < lines.len() implies !status_line_about(
            #[trigger] lines[m],
            path,
        ) by {
            if m < n {
                assert(front[m] == lines[m]);
            }
        }
        assert(front[k] == lines[k]);
        assert(last_status_about(lines, k, path));
    }
}

proof fn lemma_count_kept(lines: Seq<Seq<char>>, path: Seq<char>)
    ensures
        count_map(lines).contains_key(path) ==> exists|k: int| #[trigger]
            last_count_about(lines, k, path) && count_map(lines)[path] == (
                count_of(columns_of(lines[k])[0]),
                count_of(columns_of(lines[k])[1]),
            ),
        !count_map(lines).contains_key(path) ==> forall|m: int|
            0 <= m < lines.len() ==> !count_line_about(#[trigger] lines[m], path),
    decreases lines.len(),
{
    if lines.len() > 0 {
        let front = lines.drop_last();
        let n = lines.len() - 1;
        lemma_count_kept(front, path);
        if count_line_about(lines.last(), path) {
            assert(last_count_about(lines, n, path));
        } else if count_map(front).contains_key(path) {
            let k = choose|k: int| #[trigger]
                last_count_about(front, k, path) && count_map(front)[path] == (
                    count_of(columns_of(front[k])[0]),
                    count_of(columns_of(front[k])[1]),
                );
            assert forall|m: int| k < m < lines.len() implies !count_line_about(
                #[trigger] lines[m],
                path,
            ) by {
                if m < n {
                    assert(front[m] == lines[m]);
                }
            }
            assert(front[k] == lines[k]);
            assert(last_count_about(lines, k, path));
        } else {
            assert forall|m: int| 0 <= m < lines.len() implies !count_line_about(
                #[trigger] lines[m],
                path,
            ) by {
                if m < n {
                    assert(front[m] == lines[m]);
                }
            }
        }
    }
}

/// Every entry of the list of changed files has the status that the last line
/// about its path gives by its letter: added, deleted, renamed, copied, and
/// modified for any other.
pub proof fn law_status_is_that_of_the_letter(
    numstat_text: Seq<char>,
    status_text: Seq<char>,
    i: int,
)
    requires
        0 <= i < changed_files(numstat_text, status_text).len(),
    ensures
        ({
            let f = changed_files(numstat_text, status_text)[i];
            let lines = text::lines_of(status_text);
            exists|k: int| #[trigger]
                last_status_about(lines, k, f.path) && status_as_written(
                    lines[k],
                    f.status,
                    f.old_path,
                )
        }),
{
    let lines = text::lines_of(status_text);
    law_each_path_is_listed_once(numstat_text, status_text);
    let f = changed_files(numstat_text, status_text)[i];
    assert(f.path == status_paths(lines)[i]);
    lemma_status_kept(lines, f.path);
}

/// Every path that a line of `--name-status` output is about is listed.
pub proof fn law_no_changed_file_is_lost(
    numstat_text: Seq<char>,
    status_text: Seq<char>,
    k: int,
    path: Seq<char>,
)
    requires
        0 <= k < text::lines_of(status_text).len(),
        status_line_about(text::lines_of(status_text)[k], path),
    ensures
        exists|i: int|
            0 <= i < changed_files(numstat_text, status_text).len() && (
            #[trigger] changed_files(numstat_text, status_text)[i]).path == path,
{
    lemma_status_named(text::lines_of(status_text), k, path);
    law_each_path_is_listed_once(numstat_text, status_text);
}

proof fn lemma_status_named(lines: Seq<Seq<char>>, k: int, path: Seq<char>)
    requires
        0 <= k < lines.len(),
        status_line_about(lines[k], path),
    ensures
        status_map(lines).contains_key(path),
    decreases lines.len(),
{
    lemma_name_status(lines.last());
    if k < lines.len() - 1 {
        lemma_status_named(lines.drop_last(), k, path);
    }
}

/// A count that is spelled in decimal is read as it is.
pub proof fn law_counts_read_back(n: nat)
    requires
        n <= u32::MAX,
    ensures
        count_of(text::decimal(n)) == n,
{
    text::law_decimal_reads_back(n, u32::MAX as nat);
}

/// Every entry of the list of changed files has the counts of the last line of
/// `--numstat` output about its path, additions first; both are 0 where there is
/// no such line.
pub proof fn law_counts_are_those_of_the_path(
    numstat_text: Seq<char>,
    status_text: Seq<char>,
    i: int,
)
    requires
        0 <= i < changed_files(numstat_text, status_text).len(),
    ensures
        ({
            let f = changed_files(numstat_text, status_text)[i];
            let lines = text::lines_of(numstat_text);
            ||| exists|k: int| #[trigger]
                last_count_about(lines, k, f.path) && f.additions == count_of(
                    columns_of(lines[k])[0],
                ) && f.deletions == count_of(columns_of(lines[k])[1])
            ||| f.additions == 0 && f.deletions == 0 && forall|m: int|
                0 <= m < lines.len() ==> !count_line_about(#[trigger] lines[m], f.path)
        }),
{
    lemma_count_kept(
        text::lines_of(numstat_text),
        changed_files(numstat_text, status_text)[i].path,
    );
}

} // verus!
