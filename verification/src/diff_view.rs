//! Diff review: reading the output of `git diff` into files and lines, and
//! moving through them.

use vstd::prelude::*;
use crate::draw;
use crate::draw::{
    Block, Borders, Canvas, Color, Constraint, Direction, Draw, Line, Lines, Rect, Span, Style,
    Theme, Wrap,
};
use crate::state;
use crate::state::{DiffFile, DiffLine, DiffLineKind, DiffReviewState};
use crate::text;

verus! {

/// Diff output of more than this many bytes is cut off.
pub const MAX_DIFF_SIZE: usize = 1_048_576;

/// The contents of a diff line.
#[verifier::ext_equal]
pub struct LineView {
    pub kind: DiffLineKind,
    pub content: Seq<char>,
    pub old_line_no: Option<u32>,
    pub new_line_no: Option<u32>,
}

/// The contents of the diff of a file.
#[verifier::ext_equal]
pub struct FileView {
    pub path: Seq<char>,
    pub old_path: Option<Seq<char>>,
    pub additions: nat,
    pub deletions: nat,
    pub is_new: bool,
    pub is_deleted: bool,
    pub is_binary: bool,
    pub is_renamed: bool,
    pub lines: Seq<LineView>,
}

impl View for DiffLine {
    type V = LineView;

    open spec fn view(&self) -> LineView {
        LineView {
            kind: self.kind,
            content: self.content@,
            old_line_no: self.old_line_no,
            new_line_no: self.new_line_no,
        }
    }
}

/// The contents of a list of diff lines.
pub open spec fn line_views(lines: Seq<DiffLine>) -> Seq<LineView> {
    lines.map_values(|l: DiffLine| l@)
}

impl View for DiffFile {
    type V = FileView;

    open spec fn view(&self) -> FileView {
        FileView {
            path: self.path@,
            old_path: state::opt_view(self.old_path),
            additions: self.additions as nat,
            deletions: self.deletions as nat,
            is_new: self.is_new,
            is_deleted: self.is_deleted,
            is_binary: self.is_binary,
            is_renamed: self.is_renamed,
            lines: line_views(self.lines@),
        }
    }
}

/// The contents of a list of file diffs.
pub open spec fn file_views(files: Seq<DiffFile>) -> Seq<FileView> {
    files.map_values(|f: DiffFile| f@)
}

/// A file diff with nothing in it yet.
pub open spec fn fresh_file(path: Seq<char>) -> FileView {
    FileView {
        path,
        old_path: None,
        additions: 0,
        deletions: 0,
        is_new: false,
        is_deleted: false,
        is_binary: false,
        is_renamed: false,
        lines: Seq::empty(),
    }
}

/// The entry that stands first when the output was cut off.
pub open spec fn cut_off_notice() -> FileView {
    FileView {
        is_binary: true,
        lines: seq![
            LineView {
                kind: DiffLineKind::Context,
                content: "Diff output exceeds 1048576 bytes and was truncated. Some changes may not be shown."@,
                old_line_no: None,
                new_line_no: None,
            },
        ],
        ..fresh_file("[TRUNCATED]"@)
    }
}

// ─── Parts of a line ──────────────────────────────────────────────────────

/// The target path of a `diff --git a/path b/path` header, given what follows
/// `diff --git `: what follows the first ` b/`, else all of it.
pub open spec fn header_path(header: Seq<char>) -> Seq<char> {
    match text::find_from(header, " b/"@, 0) {
        Some(i) => text::after(header, i + 3),
        None => header,
    }
}

/// Extract the target file path from a `diff --git a/path b/path` header.
///
/// The path after "b/" is the new/correct path. Falls back to the full string
/// if parsing fails.
pub fn extract_path_from_git_header(header: &str) -> (r: String)
    ensures
        r@ == header_path(header@),
{
    match text::find(header, " b/") {
        Some(i) => {
            proof {
                reveal_strlit(" b/");
                text::lemma_found_inside(header@, " b/"@, 0);
            }
            let cs = text::chars_of(header);
            proof {
                assert(i + 3 <= cs.len());
                assert(cs@.subrange(i + 3, cs@.len() as int) =~= text::after(header@, i + 3));
            }
            text::string_of(&cs, i + 3, cs.len())
        },
        None => header.to_owned(),
    }
}

/// The largest line number.
pub open spec fn max_no() -> nat {
    u32::MAX as nat
}

/// The start and count of a range such as `10,6` or `10`. A count that is
/// missing or no number is 1; a start that is no number makes the range void.
pub open spec fn range_of(range: Seq<char>) -> Option<(nat, nat)> {
    let (first, rest) = match text::find_from(range, ","@, 0) {
        Some(i) => (range.take(i), Some(text::after(range, i + 1))),
        None => (range, None),
    };
    match text::parsed(first, max_no()) {
        Some(start) => {
            let count = match rest {
                Some(c) => match text::parsed(c, max_no()) {
                    Some(n) => n,
                    None => 1,
                },
                None => 1,
            };
            Some((start, count))
        },
        None => None,
    }
}

/// A pair of numbers as a pair of 32-bit numbers.
pub open spec fn pair_view(p: Option<(u32, u32)>) -> Option<(nat, nat)> {
    match p {
        Some((a, b)) => Some((a as nat, b as nat)),
        None => None,
    }
}

fn parse_u32(s: &str) -> (r: Option<u32>)
    ensures
        match r {
            Some(v) => text::parsed(s@, max_no()) == Some(v as nat),
            None => text::parsed(s@, max_no()) is None,
        },
{
    match text::parse_unsigned(s, u32::MAX as u64) {
        Some(v) => Some(v as u32),
        None => None,
    }
}

/// Parse a range like `10,6` or `10` into `(start, count)`.
/// If no count is specified, count defaults to 1.
pub fn parse_range(range: &str) -> (r: Option<(u32, u32)>)
    ensures
        pair_view(r) == range_of(range@),
{
    match text::find(range, ",") {
        Some(i) => {
            proof {
                reveal_strlit(",");
                text::lemma_found_inside(range@, ","@, 0);
            }
            let cs = text::chars_of(range);
            let first = text::string_of(&cs, 0, i);
            let rest = text::string_of(&cs, i + 1, cs.len());
            proof {
                assert(first@ =~= range@.take(i as int));
                assert(rest@ =~= text::after(range@, i + 1));
            }
            let count: u32 = match parse_u32(rest.as_str()) {
                Some(n) => n,
                None => 1,
            };
            match parse_u32(first.as_str()) {
                Some(start) => Some((start, count)),
                None => None,
            }
        },
        None => match parse_u32(range) {
            Some(start) => Some((start, 1)),
            None => None,
        },
    }
}

/// The numbers of a hunk header.
#[derive(Clone, Copy, Debug, PartialEq, Eq, Structural)]
pub struct Hunk {
    pub old_start: u32,
    pub old_count: u32,
    pub new_start: u32,
    pub new_count: u32,
}

/// What follows `mark` at the start of `s`.
pub open spec fn marked(s: Seq<char>, mark: char) -> Option<Seq<char>> {
    if s.len() > 0 && s[0] == mark {
        Some(s.skip(1))
    } else {
        None
    }
}

fn strip_mark(s: &str, mark: char) -> (r: Option<String>)
    ensures
        state::opt_view(r) == marked(s@, mark),
{
    let cs = text::chars_of(s);
    if cs.len() > 0 && cs[0] == mark {
        proof {
            assert(cs@.subrange(1, cs@.len() as int) =~= s@.skip(1));
        }
        Some(text::string_of(&cs, 1, cs.len()))
    } else {
        None
    }
}

/// The numbers of a hunk header such as `@@ -10,6 +10,15 @@`: its first two
/// words behind the leading `@` are a range marked `-` and one marked `+`.
pub open spec fn hunk_of(line: Seq<char>) -> Option<Hunk> {
    let words = text::words_of(text::trimmed(text::strip_leading(line, '@')));
    if words.len() < 2 {
        None
    } else {
        match (marked(words[0], '-'), marked(words[1], '+')) {
            (Some(old), Some(new)) => match (range_of(old), range_of(new)) {
                (Some((a, b)), Some((c, d))) => Some(
                    Hunk {
                        old_start: a as u32,
                        old_count: b as u32,
                        new_start: c as u32,
                        new_count: d as u32,
                    },
                ),
                _ => None,
            },
            _ => None,
        }
    }
}

/// Parse a hunk header line like `@@ -10,6 +10,15 @@ ...`.
pub fn parse_hunk_header(line: &str) -> (r: Option<Hunk>)
    ensures
        r == hunk_of(line@),
{
    let body = text::trim(text::trim_start_matches(line, '@').as_str());
    let words = text::words(body.as_str());
    proof {
        assert(text::texts(words@).len() == words@.len());
    }
    if words.len() < 2 {
        return None;
    }
    proof {
        assert(text::texts(words@)[0] == words@[0]@);
        assert(text::texts(words@)[1] == words@[1]@);
    }
    let old_part = match strip_mark(words[0].as_str(), '-') {
        Some(p) => p,
        None => {
            return None;
        },
    };
    let new_part = match strip_mark(words[1].as_str(), '+') {
        Some(p) => p,
        None => {
            return None;
        },
    };
    match (parse_range(old_part.as_str()), parse_range(new_part.as_str())) {
        (Some((old_start, old_count)), Some((new_start, new_count))) => Some(
            Hunk { old_start, old_count, new_start, new_count },
        ),
        _ => None,
    }
}

// ─── Kinds of line ────────────────────────────────────────────────────────

/// What a line of diff output says, with the text that it carries.
pub enum DiffItem<S> {
    File(S),
    NewFile,
    DeletedFile,
    BinaryNew,
    Binary,
    RenameFrom(S),
    RenameTo(S),
    /// The old path, or `None` for `/dev/null`.
    OldPath(Option<S>),
    /// Whether the new path is `/dev/null`.
    NewPath(bool),
    Hunk(Option<Hunk>),
    NoNewline,
    Context(S),
    Addition(S),
    Removal(S),
    Nothing,
}

/// What a line of diff output says.
pub open spec fn item_of(line: Seq<char>) -> DiffItem<Seq<char>> {
    if text::begins(line, "diff --git "@) {
        DiffItem::File(line.skip(11))
    } else if text::begins(line, "new file mode"@) {
        DiffItem::NewFile
    } else if text::begins(line, "deleted file mode"@) {
        DiffItem::DeletedFile
    } else if line == "Binary files /dev/null differ"@ {
        DiffItem::BinaryNew
    } else if text::begins(line, "Binary files "@) && text::ends(line, " differ"@) {
        DiffItem::Binary
    } else if text::begins(line, "rename from "@) {
        DiffItem::RenameFrom(line.skip(12))
    } else if text::begins(line, "rename to "@) {
        DiffItem::RenameTo(line.skip(10))
    } else if text::begins(line, "--- "@) {
        if text::holds(line, "/dev/null"@) {
            DiffItem::OldPath(None)
        } else if text::begins(line, "--- a/"@) {
            DiffItem::OldPath(Some(line.skip(6)))
        } else {
            DiffItem::OldPath(Some(line.skip(4)))
        }
    } else if text::begins(line, "+++ "@) {
        DiffItem::NewPath(text::holds(line, "/dev/null"@))
    } else if text::begins(line, "@@ "@) {
        DiffItem::Hunk(hunk_of(line))
    } else if text::begins(line, "\\ "@) {
        DiffItem::NoNewline
    } else if text::begins(line, " "@) {
        DiffItem::Context(line.skip(1))
    } else if text::begins(line, "+"@) {
        DiffItem::Addition(line.skip(1))
    } else if text::begins(line, "-"@) {
        DiffItem::Removal(line.skip(1))
    } else {
        DiffItem::Nothing
    }
}

impl DiffItem<String> {
    /// The item with its text as characters.
    pub open spec fn plain(self) -> DiffItem<Seq<char>> {
        match self {
            DiffItem::File(s) => DiffItem::File(s@),
            DiffItem::NewFile => DiffItem::NewFile,
            DiffItem::DeletedFile => DiffItem::DeletedFile,
            DiffItem::BinaryNew => DiffItem::BinaryNew,
            DiffItem::Binary => DiffItem::Binary,
            DiffItem::RenameFrom(s) => DiffItem::RenameFrom(s@),
            DiffItem::RenameTo(s) => DiffItem::RenameTo(s@),
            DiffItem::OldPath(o) => DiffItem::OldPath(state::opt_view(o)),
            DiffItem::NewPath(b) => DiffItem::NewPath(b),
            DiffItem::Hunk(h) => DiffItem::Hunk(h),
            DiffItem::NoNewline => DiffItem::NoNewline,
            DiffItem::Context(s) => DiffItem::Context(s@),
            DiffItem::Addition(s) => DiffItem::Addition(s@),
            DiffItem::Removal(s) => DiffItem::Removal(s@),
            DiffItem::Nothing => DiffItem::Nothing,
        }
    }
}

/// Reads a line of diff output.
pub fn read_line(line: &str) -> (r: DiffItem<String>)
    ensures
        r.plain() == item_of(line@),
{
    proof {
        reveal_strlit("diff --git ");
        reveal_strlit("rename from ");
        reveal_strlit("rename to ");
        reveal_strlit("--- a/");
        reveal_strlit("--- ");
        reveal_strlit(" ");
        reveal_strlit("+");
        reveal_strlit("-");
    }
    if text::starts_with(line, "diff --git ") {
        DiffItem::File(text::skip(line, 11))
    } else if text::starts_with(line, "new file mode") {
        DiffItem::NewFile
    } else if text::starts_with(line, "deleted file mode") {
        DiffItem::DeletedFile
    } else if text::same(line, "Binary files /dev/null differ") {
        DiffItem::BinaryNew
    } else if text::starts_with(line, "Binary files ") && text::ends_with(line, " differ") {
        DiffItem::Binary
    } else if text::starts_with(line, "rename from ") {
        DiffItem::RenameFrom(text::skip(line, 12))
    } else if text::starts_with(line, "rename to ") {
        DiffItem::RenameTo(text::skip(line, 10))
    } else if text::starts_with(line, "--- ") {
        if text::contains(line, "/dev/null") {
            DiffItem::OldPath(None)
        } else if text::starts_with(line, "--- a/") {
            DiffItem::OldPath(Some(text::skip(line, 6)))
        } else {
            DiffItem::OldPath(Some(text::skip(line, 4)))
        }
    } else if text::starts_with(line, "+++ ") {
        DiffItem::NewPath(text::contains(line, "/dev/null"))
    } else if text::starts_with(line, "@@ ") {
        DiffItem::Hunk(parse_hunk_header(line))
    } else if text::starts_with(line, "\\ ") {
        DiffItem::NoNewline
    } else if text::starts_with(line, " ") {
        DiffItem::Context(text::skip(line, 1))
    } else if text::starts_with(line, "+") {
        DiffItem::Addition(text::skip(line, 1))
    } else if text::starts_with(line, "-") {
        DiffItem::Removal(text::skip(line, 1))
    } else {
        DiffItem::Nothing
    }
}

// ─── Reading the whole output ─────────────────────────────────────────────

/// How far the reading of diff output has come: the finished files, the file
/// being read, and the next line number on either side.
#[verifier::ext_equal]
pub struct Scan {
    pub files: Seq<FileView>,
    pub current: Option<FileView>,
    pub old_no: u32,
    pub new_no: u32,
}

/// The line number behind `n`; numbers start over behind the largest one.
pub open spec fn next_no(n: u32) -> u32 {
    if n == u32::MAX {
        0
    } else {
        (n + 1) as u32
    }
}

/// `f` with a line added.
pub open spec fn with_line(
    f: FileView,
    kind: DiffLineKind,
    content: Seq<char>,
    old_line_no: Option<u32>,
    new_line_no: Option<u32>,
) -> FileView {
    FileView {
        lines: f.lines.push(LineView { kind, content, old_line_no, new_line_no }),
        ..f
    }
}

/// The finished files with the file being read added.
pub open spec fn closed(files: Seq<FileView>, current: Option<FileView>) -> Seq<FileView> {
    match current {
        Some(f) => files.push(f),
        None => files,
    }
}

/// The reading after one more line. Lines before the first file header count
/// for nothing.
pub open spec fn scan_line(s: Scan, line: Seq<char>) -> Scan {
    match (item_of(line), s.current) {
        (DiffItem::File(header), _) => Scan {
            files: closed(s.files, s.current),
            current: Some(fresh_file(header_path(header))),
            ..s
        },
        (_, None) => s,
        (item, Some(f)) => match item {
            DiffItem::File(_) => s,
            DiffItem::NewFile => Scan { current: Some(FileView { is_new: true, ..f }), ..s },
            DiffItem::DeletedFile => Scan {
                current: Some(FileView { is_deleted: true, ..f }),
                ..s
            },
            DiffItem::BinaryNew => Scan {
                current: Some(FileView { is_binary: true, is_new: true, ..f }),
                ..s
            },
            DiffItem::Binary => Scan { current: Some(FileView { is_binary: true, ..f }), ..s },
            DiffItem::RenameFrom(p) => Scan {
                current: Some(FileView { old_path: Some(p), is_renamed: true, ..f }),
                ..s
            },
            DiffItem::RenameTo(p) => Scan { current: Some(FileView { path: p, ..f }), ..s },
            DiffItem::OldPath(None) => Scan { current: Some(FileView { is_new: true, ..f }), ..s },
            DiffItem::OldPath(Some(p)) => if f.old_path is None && !f.is_renamed && p.len() > 0 {
                Scan { current: Some(FileView { old_path: Some(p), ..f }), ..s }
            } else {
                s
            },
            DiffItem::NewPath(gone) => if gone {
                Scan { current: Some(FileView { is_deleted: true, ..f }), ..s }
            } else {
                s
            },
            DiffItem::Hunk(None) => s,
            DiffItem::Hunk(Some(h)) => Scan {
                current: Some(
                    with_line(
                        f,
                        DiffLineKind::HunkHeader {
                            old_start: h.old_start,
                            old_count: h.old_count,
                            new_start: h.new_start,
                            new_count: h.new_count,
                        },
                        line,
                        None,
                        None,
                    ),
                ),
                old_no: h.old_start,
                new_no: h.new_start,
                ..s
            },
            DiffItem::NoNewline => Scan {
                current: Some(with_line(f, DiffLineKind::NoNewlineAtEndOfFile, line, None, None)),
                ..s
            },
            DiffItem::Context(c) => Scan {
                current: Some(
                    with_line(f, DiffLineKind::Context, c, Some(s.old_no), Some(s.new_no)),
                ),
                old_no: next_no(s.old_no),
                new_no: next_no(s.new_no),
                ..s
            },
            DiffItem::Addition(c) => Scan {
                current: Some(
                    FileView {
                        additions: f.additions + 1,
                        ..with_line(f, DiffLineKind::Addition, c, None, Some(s.new_no))
                    },
                ),
                new_no: next_no(s.new_no),
                ..s
            },
            DiffItem::Removal(c) => Scan {
                current: Some(
                    FileView {
                        deletions: f.deletions + 1,
                        ..with_line(f, DiffLineKind::Removal, c, Some(s.old_no), None)
                    },
                ),
                old_no: next_no(s.old_no),
                ..s
            },
            DiffItem::Nothing => s,
        },
    }
}

/// The reading after all of `lines`, started with `files` in the list.
pub open spec fn scanned(files: Seq<FileView>, lines: Seq<Seq<char>>) -> Scan
    decreases lines.len(),
{
    if lines.len() == 0 {
        Scan { files, current: None, old_no: 0, new_no: 0 }
    } else {
        scan_line(scanned(files, lines.drop_last()), lines.last())
    }
}

/// The files of diff output. Output of more than the largest size is cut off
/// there, and the list then starts with a notice.
pub open spec fn files_of(output: Seq<char>) -> Seq<FileView> {
    let start = if text::byte_len(output) > MAX_DIFF_SIZE {
        seq![cut_off_notice()]
    } else {
        Seq::empty()
    };
    let s = scanned(start, text::lines_of(text::clipped(output, MAX_DIFF_SIZE as nat)));
    closed(s.files, s.current)
}

fn new_file(path: String) -> (r: DiffFile)
    ensures
        r@ == fresh_file(path@),
{
    let r = DiffFile {
        path,
        old_path: None,
        additions: 0,
        deletions: 0,
        is_new: false,
        is_deleted: false,
        is_binary: false,
        is_renamed: false,
        lines: Vec::new(),
    };
    proof {
        assert(line_views(r.lines@) =~= Seq::<LineView>::empty());
    }
    r
}

fn add_line(
    file: &mut DiffFile,
    kind: DiffLineKind,
    content: String,
    old_line_no: Option<u32>,
    new_line_no: Option<u32>,
)
    ensures
        final(file)@ == with_line(old(file)@, kind, content@, old_line_no, new_line_no),
        *final(file) == (DiffFile { lines: final(file).lines, ..*old(file) }),
{
    let ghost before = file.lines@;
    file.lines.push(DiffLine { kind, content, old_line_no, new_line_no });
    proof {
        assert(line_views(file.lines@) =~= line_views(before).push(
            LineView { kind, content: content@, old_line_no, new_line_no },
        ));
    }
}

/// Takes one item into the file being read.
fn apply_item(
    file: &mut DiffFile,
    item: DiffItem<String>,
    raw: &str,
    old_no: u32,
    new_no: u32,
) -> (r: (u32, u32))
    requires
        item.plain() == item_of(raw@),
        item !is File,
        old(file).additions < u32::MAX,
        old(file).deletions < u32::MAX,
    ensures
        ({
            let before = Scan {
                files: Seq::empty(),
                current: Some(old(file)@),
                old_no,
                new_no,
            };
            scan_line(before, raw@) == (Scan {
                files: Seq::empty(),
                current: Some(final(file)@),
                old_no: r.0,
                new_no: r.1,
            })
        }),
        final(file).additions <= old(file).additions + 1,
        final(file).deletions <= old(file).deletions + 1,
{
    match item {
        DiffItem::File(_) => (old_no, new_no),
        DiffItem::NewFile => {
            file.is_new = true;
            (old_no, new_no)
        },
        DiffItem::DeletedFile => {
            file.is_deleted = true;
            (old_no, new_no)
        },
        DiffItem::BinaryNew => {
            file.is_binary = true;
            file.is_new = true;
            (old_no, new_no)
        },
        DiffItem::Binary => {
            file.is_binary = true;
            (old_no, new_no)
        },
        DiffItem::RenameFrom(p) => {
            file.old_path = Some(p);
            file.is_renamed = true;
            (old_no, new_no)
        },
        DiffItem::RenameTo(p) => {
            file.path = p;
            (old_no, new_no)
        },
        DiffItem::OldPath(o) => {
            match o {
                None => {
                    file.is_new = true;
                },
                Some(p) => {
                    if file.old_path.is_none() && !file.is_renamed && p.as_str().unicode_len() > 0 {
                        file.old_path = Some(p);
                    }
                },
            }
            (old_no, new_no)
        },
        DiffItem::NewPath(gone) => {
            if gone {
                file.is_deleted = true;
            }
            (old_no, new_no)
        },
        DiffItem::Hunk(o) => match o {
            None => (old_no, new_no),
            Some(h) => {
                add_line(
                    file,
                    DiffLineKind::HunkHeader {
                        old_start: h.old_start,
                        old_count: h.old_count,
                        new_start: h.new_start,
                        new_count: h.new_count,
                    },
                    raw.to_owned(),
                    None,
                    None,
                );
                (h.old_start, h.new_start)
            },
        },
        DiffItem::NoNewline => {
            add_line(file, DiffLineKind::NoNewlineAtEndOfFile, raw.to_owned(), None, None);
            (old_no, new_no)
        },
        DiffItem::Context(c) => {
            add_line(file, DiffLineKind::Context, c, Some(old_no), Some(new_no));
            (old_no.wrapping_add(1), new_no.wrapping_add(1))
        },
        DiffItem::Addition(c) => {
            add_line(file, DiffLineKind::Addition, c, None, Some(new_no));
            file.additions = file.additions + 1;
            (old_no, new_no.wrapping_add(1))
        },
        DiffItem::Removal(c) => {
            add_line(file, DiffLineKind::Removal, c, Some(old_no), None);
            file.deletions = file.deletions + 1;
            (old_no.wrapping_add(1), new_no)
        },
        DiffItem::Nothing => (old_no, new_no),
    }
}

/// The contents of an optional file.
pub open spec fn opt_file(o: Option<DiffFile>) -> Option<FileView> {
    match o {
        Some(f) => Some(f@),
        None => None,
    }
}

proof fn lemma_push_file(files: Seq<DiffFile>, f: DiffFile)
    ensures
        file_views(files.push(f)) == file_views(files).push(f@),
{
    assert(file_views(files.push(f)) =~= file_views(files).push(f@));
}

/// Parse raw `git diff` output into a list of file diffs.
///
/// Handles: new files, deleted files, renames, binary files, normal diffs,
/// and "no newline at end of file" markers.
///
/// Output exceeding `MAX_DIFF_SIZE` bytes is truncated with a warning file.
pub fn parse_git_diff(output: &str) -> (r: Vec<DiffFile>)
    ensures
        file_views(r@) == files_of(output@),
{
    let mut files: Vec<DiffFile> = Vec::new();
    let (kept, cut) = text::clip(output, MAX_DIFF_SIZE);
    if cut {
        let mut notice = new_file("[TRUNCATED]".to_owned());
        notice.is_binary = true;
        add_line(
            &mut notice,
            DiffLineKind::Context,
            "Diff output exceeds 1048576 bytes and was truncated. Some changes may not be shown.".to_owned(),
            None,
            None,
        );
        proof {
            assert(notice@.lines =~= cut_off_notice().lines);
            lemma_push_file(files@, notice);
        }
        files.push(notice);
    }
    let ghost start = file_views(files@);
    proof {
        if cut {
            assert(start =~= seq![cut_off_notice()]);
        } else {
            assert(start =~= Seq::<FileView>::empty());
        }
        text::lemma_lines_len(kept@);
    }
    let lines = text::lines(kept.as_str());
    let ghost all = text::texts(lines@);
    let mut current: Option<DiffFile> = None;
    let mut old_no: u32 = 0;
    let mut new_no: u32 = 0;
    let mut i: usize = 0;
    proof {
        assert(all.take(0) =~= Seq::<Seq<char>>::empty());
        assert(all.len() == lines@.len());
    }
    while i < lines.len()
        invariant
            i <= lines@.len(),
            lines@.len() <= MAX_DIFF_SIZE + 1,
            all == text::texts(lines@),
            scanned(start, all.take(i as int)) == (Scan {
                files: file_views(files@),
                current: opt_file(current),
                old_no,
                new_no,
            }),
            match current {
                Some(f) => f.additions <= i && f.deletions <= i,
                None => true,
            },
        decreases lines@.len() - i,
    {
        let raw = lines[i].as_str();
        let item = read_line(raw);
        proof {
            assert(all.take(i + 1).drop_last() =~= all.take(i as int));
            assert(all.take(i + 1).last() == raw@);
        }
        let ghost before = scanned(start, all.take(i as int));
        match item {
            DiffItem::File(header) => {
                if let Some(f) = current {
                    proof {
                        lemma_push_file(files@, f);
                    }
                    files.push(f);
                }
                let path = extract_path_from_git_header(header.as_str());
                current = Some(new_file(path));
            },
            item => {
                match current {
                    Some(mut f) => {
                        let ghost f0 = f@;
                        let (o, n) = apply_item(&mut f, item, raw, old_no, new_no);
                        proof {
                            let small = Scan {
                                files: Seq::empty(),
                                current: Some(f0),
                                old_no,
                                new_no,
                            };
                            assert(scan_line(before, raw@) == (Scan {
                                files: before.files,
                                ..scan_line(small, raw@)
                            }));
                        }
                        old_no = o;
                        new_no = n;
                        current = Some(f);
                    },
                    None => {
                        current = None;
                    },
                }
            },
        }
        i += 1;
    }
    proof {
        assert(all.take(i as int) =~= all);
    }
    if let Some(f) = current {
        proof {
            lemma_push_file(files@, f);
        }
        files.push(f);
    }
    files
}

/// How many of `lines` were added.
pub open spec fn added(lines: Seq<LineView>) -> nat
    decreases lines.len(),
{
    if lines.len() == 0 {
        0
    } else {
        added(lines.drop_last()) + if lines.last().kind is Addition {
            1nat
        } else {
            0nat
        }
    }
}

/// How many of `lines` were removed.
pub open spec fn removed(lines: Seq<LineView>) -> nat
    decreases lines.len(),
{
    if lines.len() == 0 {
        0
    } else {
        removed(lines.drop_last()) + if lines.last().kind is Removal {
            1nat
        } else {
            0nat
        }
    }
}

/// A line carries a number on the old side just when it stands there, and one
/// on the new side just when it stands there.
pub open spec fn numbered(l: LineView) -> bool {
    &&& l.old_line_no is Some <==> l.kind is Context || l.kind is Removal
    &&& l.new_line_no is Some <==> l.kind is Context || l.kind is Addition
}

/// The counts of a file are those of its lines.
pub open spec fn counted(f: FileView) -> bool {
    f.additions == added(f.lines) && f.deletions == removed(f.lines)
}

/// Every line of a file is numbered as its kind asks.
pub open spec fn all_numbered(f: FileView) -> bool {
    forall|i: int| 0 <= i < f.lines.len() ==> numbered(#[trigger] f.lines[i])
}

proof fn lemma_with_line(
    f: FileView,
    kind: DiffLineKind,
    content: Seq<char>,
    o: Option<u32>,
    n: Option<u32>,
)
    ensures
        ({
            let g = with_line(f, kind, content, o, n);
            &&& added(g.lines) == added(f.lines) + if kind is Addition { 1nat } else { 0nat }
            &&& removed(g.lines) == removed(f.lines) + if kind is Removal { 1nat } else { 0nat }
            &&& all_numbered(f) && numbered(
                LineView { kind, content, old_line_no: o, new_line_no: n },
            ) ==> all_numbered(g)
        }),
{
    let g = with_line(f, kind, content, o, n);
    assert(g.lines.drop_last() =~= f.lines);
}

proof fn lemma_scan_line(s: Scan, line: Seq<char>)
    requires
        match s.current {
            Some(f) => counted(f) && all_numbered(f),
            None => true,
        },
    ensures
        match scan_line(s, line).current {
            Some(f) => counted(f) && all_numbered(f),
            None => true,
        },
{
    if let Some(f) = s.current {
        match item_of(line) {
            DiffItem::Hunk(Some(h)) => {
                lemma_with_line(
                    f,
                    DiffLineKind::HunkHeader {
                        old_start: h.old_start,
                        old_count: h.old_count,
                        new_start: h.new_start,
                        new_count: h.new_count,
                    },
                    line,
                    None,
                    None,
                );
            },
            DiffItem::NoNewline => {
                lemma_with_line(f, DiffLineKind::NoNewlineAtEndOfFile, line, None, None);
            },
            DiffItem::Context(c) => {
                lemma_with_line(f, DiffLineKind::Context, c, Some(s.old_no), Some(s.new_no));
            },
            DiffItem::Addition(c) => {
                lemma_with_line(f, DiffLineKind::Addition, c, None, Some(s.new_no));
            },
            DiffItem::Removal(c) => {
                lemma_with_line(f, DiffLineKind::Removal, c, Some(s.old_no), None);
            },
            _ => {},
        }
    }
}

/// How many of `lines` start the diff of a file.
pub open spec fn headers(lines: Seq<Seq<char>>) -> nat
    decreases lines.len(),
{
    if lines.len() == 0 {
        0
    } else {
        headers(lines.drop_last()) + if item_of(lines.last()) is File {
            1nat
        } else {
            0nat
        }
    }
}

proof fn lemma_scanned(start: Seq<FileView>, lines: Seq<Seq<char>>)
    ensures
        ({
            let s = scanned(start, lines);
            &&& closed(s.files, s.current).len() == start.len() + headers(lines)
            &&& s.files.len() >= start.len()
            &&& s.files.take(start.len() as int) == start
            &&& match s.current {
                Some(f) => counted(f) && all_numbered(f),
                None => s.files == start,
            }
            &&& forall|i: int|
                start.len() <= i < s.files.len() ==> counted(#[trigger] s.files[i]) && all_numbered(
                    s.files[i],
                )
        }),
    decreases lines.len(),
{
    if lines.len() == 0 {
        assert(start.take(start.len() as int) =~= start);
    } else {
        let before = scanned(start, lines.drop_last());
        lemma_scanned(start, lines.drop_last());
        lemma_scan_line(before, lines.last());
        let s = scanned(start, lines);
        if item_of(lines.last()) is File {
            assert(s.files.take(start.len() as int) =~= start) by {
                assert forall|i: int| 0 <= i < start.len() implies s.files[i] == start[i] by {
                    assert(before.files.take(start.len() as int)[i] == start[i]);
                }
            }
        }
    }
}

/// In every file that is read, the number of additions is the number of added
/// lines, the number of deletions that of removed lines, and every line is
/// numbered on just the sides on which it stands.
pub proof fn law_counts_match_lines(output: Seq<char>, i: int)
    requires
        0 <= i < files_of(output).len(),
        text::byte_len(output) > MAX_DIFF_SIZE ==> i > 0,
    ensures
        counted(files_of(output)[i]),
        all_numbered(files_of(output)[i]),
{
    let start = if text::byte_len(output) > MAX_DIFF_SIZE {
        seq![cut_off_notice()]
    } else {
        Seq::empty()
    };
    lemma_scanned(start, text::lines_of(text::clipped(output, MAX_DIFF_SIZE as nat)));
}

/// Output within the size limit gives one file per file header, none without
/// one; output beyond it gives one entry more, the notice, and it stands first.
pub proof fn law_one_file_per_header(output: Seq<char>)
    ensures
        ({
            let n = headers(text::lines_of(text::clipped(output, MAX_DIFF_SIZE as nat)));
            if text::byte_len(output) > MAX_DIFF_SIZE {
                files_of(output).len() == n + 1 && files_of(output)[0] == cut_off_notice()
            } else {
                files_of(output).len() == n
            }
        }),
{
    let start = if text::byte_len(output) > MAX_DIFF_SIZE {
        seq![cut_off_notice()]
    } else {
        Seq::empty()
    };
    let lines = text::lines_of(text::clipped(output, MAX_DIFF_SIZE as nat));
    lemma_scanned(start, lines);
    let s = scanned(start, lines);
    if text::byte_len(output) > MAX_DIFF_SIZE {
        assert(s.files.take(1)[0] == start[0]);
    }
}

/// Whether a line of a diff stands on the old side: it was there before.
pub open spec fn stands_old(l: LineView) -> bool {
    l.kind is Context || l.kind is Removal
}

/// Whether a line of a diff stands on the new side: it is there now.
pub open spec fn stands_new(l: LineView) -> bool {
    l.kind is Context || l.kind is Addition
}

/// How many of the lines from `from` up to `to` stand on the old side.
pub open spec fn count_old(lines: Seq<LineView>, from: int, to: int) -> nat
    decreases to - from,
{
    if to <= from {
        0
    } else {
        count_old(lines, from, to - 1) + if stands_old(lines[to - 1]) {
            1nat
        } else {
            0nat
        }
    }
}

/// How many of the lines from `from` up to `to` stand on the new side.
pub open spec fn count_new(lines: Seq<LineView>, from: int, to: int) -> nat
    decreases to - from,
{
    if to <= from {
        0
    } else {
        count_new(lines, from, to - 1) + if stands_new(lines[to - 1]) {
            1nat
        } else {
            0nat
        }
    }
}

/// Whether line `h` is the hunk header that line `j` belongs to: the last one
/// before it.
pub open spec fn heads(lines: Seq<LineView>, h: int, j: int) -> bool {
    &&& 0 <= h < j
    &&& lines[h].kind is HunkHeader
    &&& forall|k: int| h < k < j ==> !((#[trigger] lines[k]).kind is HunkHeader)
}

/// `start` and `n` lines on. Numbers start over behind the largest one.
pub open spec fn lines_on(start: u32, n: nat) -> u32 {
    ((start + n) % 0x1_0000_0000) as u32
}

spec fn placed(lines: Seq<LineView>) -> bool {
    forall|h: int, j: int| #[trigger]
        heads(lines, h, j) && j < lines.len() ==> {
            &&& stands_old(lines[j]) ==> lines[j].old_line_no == Some(
                lines_on(lines[h].kind->old_start, count_old(lines, h + 1, j)),
            )
            &&& stands_new(lines[j]) ==> lines[j].new_line_no == Some(
                lines_on(lines[h].kind->new_start, count_new(lines, h + 1, j)),
            )
        }
}

spec fn due(lines: Seq<LineView>, old_no: u32, new_no: u32) -> bool {
    forall|h: int| #[trigger]
        heads(lines, h, lines.len() as int) ==> {
            &&& old_no == lines_on(
                lines[h].kind->old_start,
                count_old(lines, h + 1, lines.len() as int),
            )
            &&& new_no == lines_on(
                lines[h].kind->new_start,
                count_new(lines, h + 1, lines.len() as int),
            )
        }
}

proof fn lemma_count_pushed(lines: Seq<LineView>, l: LineView, from: int, to: int)
    requires
        0 <= from,
        to <= lines.len(),
    ensures
        count_old(lines.push(l), from, to) == count_old(lines, from, to),
        count_new(lines.push(l), from, to) == count_new(lines, from, to),
    decreases to - from,
{
    if to > from {
        lemma_count_pushed(lines, l, from, to - 1);
    }
}

proof fn lemma_next_no(start: u32, n: nat)
    ensures
        next_no(lines_on(start, n)) == lines_on(start, n + 1),
{
}

proof fn lemma_heads_pushed(lines: Seq<LineView>, l: LineView, h: int, j: int)
    requires
        j <= lines.len(),
    ensures
        heads(lines.push(l), h, j) == heads(lines, h, j),
{
    let more = lines.push(l);
    if heads(more, h, j) {
        assert forall|k: int| h < k < j implies !((#[trigger] lines[k]).kind is HunkHeader) by {
            assert(more[k] == lines[k]);
        }
    }
    if heads(lines, h, j) {
        assert forall|k: int| h < k < j implies !((#[trigger] more[k]).kind is HunkHeader) by {
            assert(more[k] == lines[k]);
        }
    }
}

proof fn lemma_place_pushed(
    lines: Seq<LineView>,
    l: LineView,
    old_no: u32,
    new_no: u32,
    old_next: u32,
    new_next: u32,
)
    requires
        placed(lines),
        due(lines, old_no, new_no),
        stands_old(l) ==> l.old_line_no == Some(old_no) && old_next == next_no(old_no),
        stands_new(l) ==> l.new_line_no == Some(new_no) && new_next == next_no(new_no),
        l.kind matches DiffLineKind::HunkHeader { old_start, new_start, .. } ==> old_next
            == old_start && new_next == new_start,
        !(l.kind is HunkHeader) && !stands_old(l) ==> old_next == old_no,
        !(l.kind is HunkHeader) && !stands_new(l) ==> new_next == new_no,
    ensures
        placed(lines.push(l)),
        due(lines.push(l), old_next, new_next),
{
    let more = lines.push(l);
    let n = lines.len() as int;
    assert forall|h: int, j: int| #[trigger] heads(more, h, j) && j < more.len() implies {
        &&& stands_old(more[j]) ==> more[j].old_line_no == Some(
            lines_on(more[h].kind->old_start, count_old(more, h + 1, j)),
        )
        &&& stands_new(more[j]) ==> more[j].new_line_no == Some(
            lines_on(more[h].kind->new_start, count_new(more, h + 1, j)),
        )
    } by {
        lemma_heads_pushed(lines, l, h, j);
        lemma_count_pushed(lines, l, h + 1, j);
        assert(heads(lines, h, j));
    }
    assert forall|h: int| #[trigger] heads(more, h, more.len() as int) implies {
        &&& old_next == lines_on(more[h].kind->old_start, count_old(more, h + 1, n + 1))
        &&& new_next == lines_on(more[h].kind->new_start, count_new(more, h + 1, n + 1))
    } by {
        if h < n {
            assert(heads(more, h, n));
            assert(!(more[n].kind is HunkHeader));
            lemma_heads_pushed(lines, l, h, n);
            lemma_count_pushed(lines, l, h + 1, n);
            lemma_next_no(more[h].kind->old_start, count_old(lines, h + 1, n));
            lemma_next_no(more[h].kind->new_start, count_new(lines, h + 1, n));
        } else {
            assert(h == n);
        }
    }
}

spec fn in_place(s: Scan, skip: int) -> bool {
    &&& match s.current {
        Some(f) => placed(f.lines) && due(f.lines, s.old_no, s.new_no),
        None => true,
    }
    &&& forall|i: int| skip <= i < s.files.len() ==> placed((#[trigger] s.files[i]).lines)
}

proof fn lemma_step_in_place(s: Scan, line: Seq<char>, skip: int)
    requires
        0 <= skip,
        in_place(s, skip),
    ensures
        in_place(scan_line(s, line), skip),
{
    let t = scan_line(s, line);
    let item = item_of(line);
    if s.current is Some && !(item is File) {
        let f = s.current->0;
        let g = t.current->0;
        if g.lines.len() > f.lines.len() {
            lemma_place_pushed(
                f.lines,
                g.lines.last(),
                s.old_no,
                s.new_no,
                t.old_no,
                t.new_no,
            );
            assert(g.lines =~= f.lines.push(g.lines.last()));
        } else {
            assert(g.lines == f.lines);
        }
    } else if item is File {
        assert(t.current->0.lines.len() == 0);
        assert forall|i: int| skip <= i < t.files.len() implies placed(
            (#[trigger] t.files[i]).lines,
        ) by {}
    }
}

proof fn lemma_in_place(start: Seq<FileView>, lines: Seq<Seq<char>>)
    ensures
        in_place(scanned(start, lines), start.len() as int),
    decreases lines.len(),
{
    if lines.len() > 0 {
        lemma_in_place(start, lines.drop_last());
        lemma_step_in_place(
            scanned(start, lines.drop_last()),
            lines.last(),
            start.len() as int,
        );
    }
}

/// Line numbers count within a hunk: a line on the old side has the old start of
/// its hunk and as many more as there are lines on the old side before it in the
/// hunk; a line on the new side likewise. Context stands on both sides, a removed
/// line on the old one, an added line on the new one.
pub proof fn law_lines_are_numbered(output: Seq<char>, i: int, h: int, j: int)
    requires
        0 <= i < files_of(output).len(),
        text::byte_len(output) > MAX_DIFF_SIZE ==> i > 0,
        0 <= h < j < files_of(output)[i].lines.len(),
        heads(files_of(output)[i].lines, h, j),
    ensures
        ({
            let lines = files_of(output)[i].lines;
            let l = lines[j];
            &&& l.old_line_no == if l.kind is Context || l.kind is Removal {
                Some(lines_on(lines[h].kind->old_start, count_old(lines, h + 1, j)))
            } else {
                None
            }
            &&& l.new_line_no == if l.kind is Context || l.kind is Addition {
                Some(lines_on(lines[h].kind->new_start, count_new(lines, h + 1, j)))
            } else {
                None
            }
        }),
{
    let start = if text::byte_len(output) > MAX_DIFF_SIZE {
        seq![cut_off_notice()]
    } else {
        Seq::empty()
    };
    let kept = text::lines_of(text::clipped(output, MAX_DIFF_SIZE as nat));
    lemma_in_place(start, kept);
    law_counts_match_lines(output, i);
    let s = scanned(start, kept);
    let f = files_of(output)[i];
    if i < s.files.len() {
        assert(s.files[i] == f);
    }
    assert(placed(f.lines));
    assert(heads(f.lines, h, j));
}

/// The line of diff output that a line stands for.
pub open spec fn written(l: LineView) -> Seq<char> {
    match l.kind {
        DiffLineKind::Context => seq![' '] + l.content,
        DiffLineKind::Addition => seq!['+'] + l.content,
        DiffLineKind::Removal => seq!['-'] + l.content,
        _ => l.content,
    }
}

/// The lines of diff output that the lines of all files stand for.
pub open spec fn written_in(files: Seq<FileView>) -> Seq<Seq<char>>
    decreases files.len(),
{
    if files.len() == 0 {
        Seq::empty()
    } else {
        written_in(files.drop_last()) + files.last().lines.map_values(|l: LineView| written(l))
    }
}

/// Whether a line of diff output is one that a review shows: a line of a file,
/// marked by a blank, a plus or a minus and not naming a path; a well-formed hunk
/// header; or the remark on a missing line end.
pub open spec fn is_shown(line: Seq<char>) -> bool {
    line.len() > 0 && (line[0] == ' ' || (line[0] == '+' && !text::begins(line, "+++ "@)) || (
    line[0] == '-' && !text::begins(line, "--- "@)) || text::begins(line, "\\ "@) || (text::begins(
        line,
        "@@ "@,
    ) && hunk_of(line) is Some))
}

/// Whether the diff of a file has begun.
pub open spec fn has_begun(lines: Seq<Seq<char>>) -> bool {
    exists|k: int| 0 <= k < lines.len() && text::begins(#[trigger] lines[k], "diff --git "@)
}

/// The lines of diff output that a review shows, in order.
pub open spec fn shown_of(lines: Seq<Seq<char>>) -> Seq<Seq<char>>
    decreases lines.len(),
{
    if lines.len() == 0 {
        Seq::empty()
    } else if has_begun(lines.drop_last()) && is_shown(lines.last()) {
        shown_of(lines.drop_last()).push(lines.last())
    } else {
        shown_of(lines.drop_last())
    }
}

proof fn lemma_begins(line: Seq<char>, pat: Seq<char>)
    requires
        text::begins(line, pat),
    ensures
        line.len() >= pat.len(),
        forall|i: int| 0 <= i < pat.len() ==> #[trigger] line[i] == pat[i],
{
    assert forall|i: int| 0 <= i < pat.len() implies #[trigger] line[i] == pat[i] by {
        assert(line.subrange(0, pat.len() as int)[i] == line[i]);
    }
}

proof fn lemma_begins_with(line: Seq<char>, pat: Seq<char>)
    requires
        pat.len() == 1,
    ensures
        text::begins(line, pat) <==> line.len() > 0 && line[0] == pat[0],
{
    if line.len() > 0 && line[0] == pat[0] {
        assert(line.subrange(0, 1) =~= pat);
    }
    if text::begins(line, pat) {
        lemma_begins(line, pat);
    }
}

proof fn lemma_not_by_mark(line: Seq<char>, pat: Seq<char>)
    requires
        pat.len() > 0,
        line.len() > 0 ==> line[0] != pat[0],
    ensures
        !text::begins(line, pat),
{
    if text::begins(line, pat) {
        lemma_begins(line, pat);
        assert(line[0] == pat[0]);
    }
}

proof fn lemma_shown_items(line: Seq<char>)
    ensures
        text::begins(line, "diff --git "@) <==> item_of(line) is File,
        is_shown(line) <==> match item_of(line) {
            DiffItem::Hunk(Some(_)) | DiffItem::NoNewline | DiffItem::Context(_)
            | DiffItem::Addition(_) | DiffItem::Removal(_) => true,
            _ => false,
        },
        item_of(line) matches DiffItem::Context(c) ==> line == seq![' '] + c,
        item_of(line) matches DiffItem::Addition(c) ==> line == seq!['+'] + c,
        item_of(line) matches DiffItem::Removal(c) ==> line == seq!['-'] + c,
{
    reveal_strlit("diff --git ");
    reveal_strlit("new file mode");
    reveal_strlit("deleted file mode");
    reveal_strlit("Binary files /dev/null differ");
    reveal_strlit("Binary files ");
    reveal_strlit("rename from ");
    reveal_strlit("rename to ");
    reveal_strlit("--- ");
    reveal_strlit("+++ ");
    reveal_strlit("@@ ");
    reveal_strlit("\\ ");
    reveal_strlit(" ");
    reveal_strlit("+");
    reveal_strlit("-");
    lemma_begins_with(line, " "@);
    lemma_begins_with(line, "+"@);
    lemma_begins_with(line, "-"@);
    if line.len() > 0 && (line[0] == ' ' || line[0] == '+' || line[0] == '-' || line[0] == '@'
        || line[0] == '\\') {
        lemma_not_by_mark(line, "diff --git "@);
        lemma_not_by_mark(line, "new file mode"@);
        lemma_not_by_mark(line, "deleted file mode"@);
        lemma_not_by_mark(line, "Binary files "@);
        lemma_not_by_mark(line, "rename from "@);
        lemma_not_by_mark(line, "rename to "@);
        assert(line != "Binary files /dev/null differ"@) by {
            assert("Binary files /dev/null differ"@[0] == 'B');
        }
        if line[0] != '-' {
            lemma_not_by_mark(line, "--- "@);
        }
        if line[0] != '+' {
            lemma_not_by_mark(line, "+++ "@);
        }
        if line[0] != '@' {
            lemma_not_by_mark(line, "@@ "@);
        }
        if line[0] != '\\' {
            lemma_not_by_mark(line, "\\ "@);
        }
        assert(line =~= seq![line[0]] + line.skip(1));
    } else {
        lemma_not_by_mark(line, "@@ "@);
        lemma_not_by_mark(line, "\\ "@);
        lemma_not_by_mark(line, "--- "@);
        lemma_not_by_mark(line, "+++ "@);
    }
}

proof fn lemma_shown_is_written(start: Seq<FileView>, lines: Seq<Seq<char>>)
    ensures
        ({
            let s = scanned(start, lines);
            &&& written_in(closed(s.files, s.current)) == written_in(start) + shown_of(lines)
            &&& s.current is Some <==> has_begun(lines)
        }),
    decreases lines.len(),
{
    let s = scanned(start, lines);
    if lines.len() == 0 {
        assert(written_in(start) + shown_of(lines) =~= written_in(start));
    } else {
        let front = lines.drop_last();
        let line = lines.last();
        let before = scanned(start, front);
        lemma_shown_is_written(start, front);
        lemma_shown_items(line);
        if has_begun(front) {
            let k = choose|k: int|
                0 <= k < front.len() && text::begins(#[trigger] front[k], "diff --git "@);
            assert(lines[k] == front[k]);
        }
        if has_begun(lines) && !has_begun(front) {
            let k = choose|k: int|
                0 <= k < lines.len() && text::begins(#[trigger] lines[k], "diff --git "@);
            if k < front.len() {
                assert(front[k] == lines[k]);
            }
        }
        if item_of(line) is File {
            assert(lines[lines.len() - 1] == line);
            let f = s.current->0;
            assert(closed(s.files, s.current).drop_last() =~= s.files);
            assert(f.lines.map_values(|l: LineView| written(l)) =~= Seq::<Seq<char>>::empty());
            assert(written_in(s.files) + Seq::<Seq<char>>::empty() =~= written_in(s.files));
        } else if before.current is Some {
            let f = before.current->0;
            let g = s.current->0;
            assert(closed(before.files, before.current).drop_last() =~= before.files);
            assert(closed(s.files, s.current).drop_last() =~= s.files);
            let a = f.lines.map_values(|l: LineView| written(l));
            let b = g.lines.map_values(|l: LineView| written(l));
            if is_shown(line) {
                assert(g.lines =~= f.lines.push(g.lines.last()));
                assert(written(g.lines.last()) =~= line);
                assert(b =~= a.push(line));
                assert(written_in(s.files) + b =~= (written_in(s.files) + a).push(line));
                assert((written_in(start) + shown_of(front)).push(line) =~= written_in(start)
                    + shown_of(front).push(line));
            } else {
                assert(g.lines == f.lines);
            }
        }
    }
}

/// A diff review shows what the diff says, no more, no less and in order: the
/// lines of all files, each behind the mark of its kind, are the marked lines, the
/// hunk headers and the remarks of the output, from the first file header on.
pub proof fn law_review_shows_the_diff(output: Seq<char>)
    requires
        text::byte_len(output) <= MAX_DIFF_SIZE,
    ensures
        written_in(files_of(output)) == shown_of(text::lines_of(output)),
{
    let lines = text::lines_of(output);
    lemma_shown_is_written(Seq::empty(), lines);
    assert(Seq::<Seq<char>>::empty() + shown_of(lines) =~= shown_of(lines));
}

/// Whether a well-formed hunk header has come since the last file header.
pub open spec fn in_hunk(lines: Seq<Seq<char>>) -> bool
    decreases lines.len(),
{
    if lines.len() == 0 {
        false
    } else {
        match item_of(lines.last()) {
            DiffItem::File(_) => false,
            DiffItem::Hunk(Some(_)) => true,
            _ => in_hunk(lines.drop_last()),
        }
    }
}

/// Whether a line is one of those that are numbered.
pub open spec fn is_body(line: Seq<char>) -> bool {
    let item = item_of(line);
    item is Context || item is Addition || item is Removal
}

/// Whether every numbered line comes after a hunk header of its own file.
pub open spec fn hunks_first(lines: Seq<Seq<char>>) -> bool
    decreases lines.len(),
{
    lines.len() == 0 || hunks_first(lines.drop_last()) && (is_body(lines.last()) ==> in_hunk(
        lines.drop_last(),
    ))
}

proof fn lemma_read_on(start: Seq<FileView>, a: Seq<Seq<char>>, b: Seq<Seq<char>>)
    requires
        b.len() > 0,
        item_of(b[0]) is File,
        hunks_first(b),
    ensures
        ({
            let before = scanned(start, a);
            let whole = scanned(start, a + b);
            let part = scanned(Seq::empty(), b);
            &&& whole.files == closed(before.files, before.current) + part.files
            &&& whole.current == part.current
            &&& part.current is Some
            &&& in_hunk(b) ==> whole.old_no == part.old_no && whole.new_no == part.new_no
        }),
    decreases b.len(),
{
    let front = b.drop_last();
    assert((a + b).drop_last() =~= a + front);
    assert((a + b).last() == b.last());
    let before = scanned(start, a);
    let files = closed(before.files, before.current);
    if front.len() == 0 {
        assert(a + front =~= a);
        assert(b.last() == b[0]);
        assert(files + Seq::<FileView>::empty() =~= files);
    } else {
        lemma_read_on(start, a, front);
        let whole = scanned(start, a + front);
        let part = scanned(Seq::empty(), front);
        if item_of(b.last()) is File {
            assert(closed(whole.files, whole.current) =~= files + closed(part.files, part.current));
        }
    }
}

/// The diffs of files are independent of one another: with the diffs of more
/// files after those of others, the files of the one come first, then those of
/// the other, none of them changed or lost. The first text is empty or ends a
/// line; the second starts with a file header and has every numbered line behind
/// a hunk header of its own file, since line numbers start there.
pub proof fn law_files_are_independent(a: Seq<char>, b: Seq<char>)
    requires
        a.len() == 0 || a.last() == '\n',
        text::begins(b, "diff --git "@),
        hunks_first(text::lines_of(b)),
        text::byte_len(a + b) <= MAX_DIFF_SIZE,
    ensures
        files_of(a + b) == files_of(a) + files_of(b),
{
    text::lemma_byte_len_joins(a, b);
    text::lemma_lines_join(a, b);
    let la = text::lines_of(a);
    let lb = text::lines_of(b);
    reveal_strlit("diff --git ");
    text::lemma_first_line(b, "diff --git "@);
    lemma_read_on(Seq::empty(), la, lb);
    let before = scanned(Seq::empty(), la);
    let part = scanned(Seq::empty(), lb);
    let files = closed(before.files, before.current);
    assert((files + part.files).push(part.current->0) =~= files + part.files.push(
        part.current->0,
    ));
}

// ─── Moving through the diff ──────────────────────────────────────────────

/// `x` brought between `lo` and `hi`.
pub open spec fn clamp(x: int, lo: int, hi: int) -> int {
    if x < lo {
        lo
    } else if x > hi {
        hi
    } else {
        x
    }
}

/// The last valid index of a list of `n`, or 0 for an empty one.
pub open spec fn last_index(n: nat) -> int {
    if n == 0 {
        0
    } else {
        n - 1
    }
}

impl DiffReviewState {
    /// The place of the file that is shown.
    pub open spec fn shown(&self) -> int {
        clamp(self.selected_file_index as int, 0, last_index(self.files@.len()))
    }

    /// The scroll position `delta` lines further, within the file shown.
    pub open spec fn scrolled(&self, delta: int) -> int {
        if self.files@.len() == 0 {
            self.scroll_offset as int
        } else {
            clamp(
                self.scroll_offset + delta,
                0,
                last_index(self.files@[self.shown()].lines@.len()),
            )
        }
    }
}

/// `current + delta`, brought between 0 and `max`.
pub fn step(current: usize, delta: i32, max: usize) -> (r: usize)
    ensures
        r == clamp(current + delta, 0, max as int),
{
    let moved: i128 = current as i128 + delta as i128;
    if moved < 0 {
        0
    } else if moved > max as i128 {
        max
    } else {
        moved as usize
    }
}

/// Scroll the diff review view by the given delta.
///
/// Clamps the scroll offset to valid bounds for the current file.
/// Returns `true` if the scroll actually changed.
pub fn scroll_diff(state: &mut DiffReviewState, delta: i32) -> (r: bool)
    ensures
        *final(state) == (DiffReviewState {
            scroll_offset: old(state).scrolled(delta as int) as usize,
            ..*old(state)
        }),
        final(state).scroll_offset == old(state).scrolled(delta as int),
        r == (final(state).scroll_offset != old(state).scroll_offset),
{
    if state.files.len() == 0 {
        return false;
    }
    let last: usize = state.files.len() - 1;
    let at: usize = if state.selected_file_index < last {
        state.selected_file_index
    } else {
        last
    };
    let n: usize = state.files[at].lines.len();
    let max: usize = if n > 0 {
        n - 1
    } else {
        0
    };
    let moved: usize = step(state.scroll_offset, delta, max);
    if moved != state.scroll_offset {
        state.scroll_offset = moved;
        true
    } else {
        false
    }
}

/// Navigate to the next file in the diff review view.
///
/// Wraps around to the first file. Resets scroll offset.
pub fn next_file(state: &mut DiffReviewState)
    ensures
        old(state).files@.len() == 0 ==> *final(state) == *old(state),
        old(state).files@.len() > 0 ==> *final(state) == (DiffReviewState {
            selected_file_index: ((old(state).selected_file_index + 1) % (old(
                state,
            ).files@.len() as int)) as usize,
            scroll_offset: 0,
            ..*old(state)
        }),
{
    let n: usize = state.files.len();
    if n == 0 {
        return;
    }
    let at: usize = state.selected_file_index % n;
    proof {
        let i = state.selected_file_index as int;
        vstd::arithmetic::div_mod::lemma_add_mod_noop(i, 1, n as int);
        vstd::arithmetic::div_mod::lemma_mod_bound(i, n as int);
        if n == 1 {
            vstd::arithmetic::div_mod::lemma_mod_self_0(1);
        } else {
            vstd::arithmetic::div_mod::lemma_small_mod(1, n as nat);
        }
        if at + 1 < n {
            vstd::arithmetic::div_mod::lemma_small_mod((at + 1) as nat, n as nat);
        } else {
            vstd::arithmetic::div_mod::lemma_mod_self_0(n as int);
            if n == 1 {
                vstd::arithmetic::div_mod::lemma_small_mod(0, 1);
            }
        }
    }
    state.selected_file_index = if at < n - 1 {
        at + 1
    } else {
        0
    };
    state.scroll_offset = 0;
}

/// Navigate to the previous file in the diff review view.
///
/// Wraps around to the last file. Resets scroll offset.
pub fn prev_file(state: &mut DiffReviewState)
    ensures
        old(state).files@.len() == 0 ==> *final(state) == *old(state),
        old(state).files@.len() > 0 ==> *final(state) == (DiffReviewState {
            selected_file_index: if old(state).selected_file_index == 0 {
                (old(state).files@.len() - 1) as usize
            } else {
                (old(state).selected_file_index - 1) as usize
            },
            scroll_offset: 0,
            ..*old(state)
        }),
{
    if state.files.len() == 0 {
        return;
    }
    if state.selected_file_index == 0 {
        state.selected_file_index = state.files.len() - 1;
    } else {
        state.selected_file_index = state.selected_file_index - 1;
    }
    state.scroll_offset = 0;
}

/// Going to the next file and back, or back and forth, ends at the same file,
/// from any of `n` files.
pub proof fn law_next_and_prev_undo_each_other(i: int, n: int)
    requires
        0 <= i < n,
    ensures
        ({
            let next = (i + 1) % n;
            let prev = if i == 0 { n - 1 } else { i - 1 };
            &&& 0 <= next < n
            &&& 0 <= prev < n
            &&& (if next == 0 { n - 1 } else { next - 1 }) == i
            &&& (prev + 1) % n == i
        }),
{
    if i + 1 < n {
        vstd::arithmetic::div_mod::lemma_small_mod((i + 1) as nat, n as nat);
    } else {
        vstd::arithmetic::div_mod::lemma_mod_self_0(n);
    }
    if i == 0 {
        vstd::arithmetic::div_mod::lemma_mod_self_0(n);
    } else {
        vstd::arithmetic::div_mod::lemma_small_mod(i as nat, n as nat);
    }
}

/// Scrolling stays inside the file shown, and a scroll by nothing changes
/// nothing of a position that is inside.
pub proof fn law_scroll_stays_inside(state: DiffReviewState, delta: int)
    requires
        state.files@.len() > 0,
    ensures
        ({
            let last = last_index(state.files@[state.shown()].lines@.len());
            &&& 0 <= state.scrolled(delta) <= last
            &&& state.scroll_offset <= last ==> state.scrolled(0) == state.scroll_offset
        }),
{
}

// ─── Drawing ──────────────────────────────────────────────────────────────

/// A line number in four columns, zero when there is none.
pub open spec fn number_column(n: Option<u32>) -> Seq<char> {
    text::right_aligned(
        text::decimal(
            match n {
                Some(n) => n as nat,
                None => 0,
            },
        ),
        4,
    )
}

fn column_of(n: Option<u32>) -> (r: String)
    ensures
        r@ == number_column(n),
{
    let n: u32 = match n {
        Some(n) => n,
        None => 0,
    };
    text::pad_left(text::dec(n as u64).as_str(), 4)
}

/// A line of the diff: line numbers, a sign, and the text, in the color of its
/// kind.
pub open spec fn line_of(numbers: Seq<char>, sign: Seq<char>, content: Seq<char>, a: Color, b: Color, c: Color) -> Seq<
    Span<Seq<char>>,
> {
    draw::blank().push(draw::sp(numbers, Style::fg(a))).push(draw::sp(sign, Style::fg(b))).push(
        draw::sp(content, Style::fg(c)),
    )
}

/// How a line of the diff is shown.
pub open spec fn styled_line(line: DiffLine) -> Seq<Span<Seq<char>>> {
    match line.kind {
        DiffLineKind::Context => line_of(
            number_column(line.old_line_no) + " "@ + number_column(line.new_line_no) + " "@,
            " "@,
            line.content@,
            Color::Rgb(60, 64, 80),
            Color::Rgb(60, 64, 80),
            Color::Rgb(160, 164, 180),
        ),
        DiffLineKind::Addition => line_of(
            "     "@ + number_column(line.new_line_no) + " "@,
            "+"@,
            line.content@,
            Color::Rgb(40, 80, 40),
            Color::Rgb(80, 180, 80),
            Color::Rgb(120, 220, 120),
        ),
        DiffLineKind::Removal => line_of(
            number_column(line.old_line_no) + "      "@,
            "-"@,
            line.content@,
            Color::Rgb(80, 40, 40),
            Color::Rgb(220, 80, 80),
            Color::Rgb(220, 120, 120),
        ),
        DiffLineKind::HunkHeader { old_start, old_count, new_start, new_count } => draw::blank().push(
            draw::sp(
                "@@ -"@ + text::decimal(old_start as nat) + ","@ + text::decimal(old_count as nat)
                    + " +"@ + text::decimal(new_start as nat) + ","@ + text::decimal(
                    new_count as nat,
                ) + " @@"@,
                Style::fg(Color::Rgb(100, 149, 237)),
            ),
        ),
        DiffLineKind::NoNewlineAtEndOfFile => draw::blank().push(
            draw::sp(line.content@, Style::fg(Color::Rgb(120, 80, 160))),
        ),
    }
}

fn three_spans(numbers: &str, sign: &str, content: &str, a: Color, b: Color, c: Color) -> (r: Line)
    ensures
        r@ == line_of(numbers@, sign@, content@, a, b, c),
{
    Line::of(numbers, Style::fg(a)).with(sign, Style::fg(b)).with(content, Style::fg(c))
}

/// Build a styled line from a `DiffLine`.
pub fn build_styled_line(line: &DiffLine) -> (r: Line)
    ensures
        r@ == styled_line(*line),
{
    match line.kind {
        DiffLineKind::Context => {
            let mut numbers = column_of(line.old_line_no);
            numbers.append(" ");
            numbers.append(column_of(line.new_line_no).as_str());
            numbers.append(" ");
            three_spans(
                numbers.as_str(),
                " ",
                line.content.as_str(),
                Color::Rgb(60, 64, 80),
                Color::Rgb(60, 64, 80),
                Color::Rgb(160, 164, 180),
            )
        },
        DiffLineKind::Addition => {
            let mut numbers = text::join2("     ", column_of(line.new_line_no).as_str());
            numbers.append(" ");
            three_spans(
                numbers.as_str(),
                "+",
                line.content.as_str(),
                Color::Rgb(40, 80, 40),
                Color::Rgb(80, 180, 80),
                Color::Rgb(120, 220, 120),
            )
        },
        DiffLineKind::Removal => {
            let numbers = text::join2(column_of(line.old_line_no).as_str(), "      ");
            three_spans(
                numbers.as_str(),
                "-",
                line.content.as_str(),
                Color::Rgb(80, 40, 40),
                Color::Rgb(220, 80, 80),
                Color::Rgb(220, 120, 120),
            )
        },
        DiffLineKind::HunkHeader { old_start, old_count, new_start, new_count } => {
            let mut header = text::join2("@@ -", text::dec(old_start as u64).as_str());
            header.append(",");
            header.append(text::dec(old_count as u64).as_str());
            header.append(" +");
            header.append(text::dec(new_start as u64).as_str());
            header.append(",");
            header.append(text::dec(new_count as u64).as_str());
            header.append(" @@");
            Line::of(header.as_str(), Style::fg(Color::Rgb(100, 149, 237)))
        },
        DiffLineKind::NoNewlineAtEndOfFile => Line::of(
            line.content.as_str(),
            Style::fg(Color::Rgb(120, 80, 160)),
        ),
    }
}

/// The lines of a file that are shown: as many as there are rows, from the
/// scroll position on.
pub open spec fn lines_in_view(lines: Seq<DiffLine>, scroll: usize, height: u16) -> draw::TextView {
    Seq::new(
        if scroll >= lines.len() {
            0
        } else if lines.len() - scroll < height {
            (lines.len() - scroll) as nat
        } else {
            height as nat
        },
        |i: int| styled_line(lines[scroll + i]),
    )
}

/// What is drawn for the lines of a file.
pub open spec fn content_drawn(
    before: draw::Drawn,
    area: Rect,
    lines: Seq<DiffLine>,
    scroll: usize,
) -> draw::Drawn {
    if area.height == 0 {
        before
    } else {
        before.push(
            Draw::Text {
                area,
                lines: lines_in_view(lines, scroll, area.height),
                style: Style::plain(),
                centered: false,
                wrap: Wrap::Keep,
                block: None,
            },
        )
    }
}

/// Render the diff lines for a single file within the given area.
pub fn render_diff_content(canvas: &mut Canvas, area: Rect, file: &DiffFile, scroll_offset: usize)
    ensures
        final(canvas)@ == content_drawn(old(canvas)@, area, file.lines@, scroll_offset),
{
    if area.height == 0 {
        return;
    }
    let ghost want = lines_in_view(file.lines@, scroll_offset, area.height);
    let mut out = Lines::new();
    let mut i: usize = 0;
    while scroll_offset < file.lines.len() && i < file.lines.len() - scroll_offset && i
        < area.height as usize
        invariant
            i <= want.len(),
            want == lines_in_view(file.lines@, scroll_offset, area.height),
            out@ == want.take(i as int),
        decreases area.height - i,
    {
        out.push(build_styled_line(&file.lines[scroll_offset + i]));
        proof {
            assert(want.take(i + 1) =~= want.take(i as int).push(want[i as int]));
        }
        i += 1;
    }
    proof {
        assert(want.take(i as int) =~= want);
    }
    canvas.put(
        Draw::Text {
            area,
            lines: out,
            style: Style::plain(),
            centered: false,
            wrap: Wrap::Keep,
            block: None,
        },
    );
}

/// The heading of the review.
pub open spec fn review_heading(task_number: u32) -> Seq<char> {
    " Review Changes — Task #"@ + text::decimal(task_number as nat) + " "@
}

fn heading_of(task_number: u32) -> (r: String)
    ensures
        r@ == review_heading(task_number),
{
    let mut out = text::join2(" Review Changes — Task #", text::dec(task_number as u64).as_str());
    out.append(" ");
    out
}

/// A message in place of the diff.
pub open spec fn message_drawn(
    area: Rect,
    task_number: u32,
    message: Seq<char>,
    color: Color,
    border: Color,
) -> Draw<Seq<char>, draw::TextView> {
    Draw::Text {
        area,
        lines: draw::only(draw::blank().push(draw::sp(message, Style::fg(color)))),
        style: Style::plain(),
        centered: false,
        wrap: Wrap::Cut,
        block: Some(
            Block::<Seq<char>>::new(Borders::all(), Style::fg(border)).titled(
                draw::sp(review_heading(task_number), Style::bold(Color::Rgb(140, 144, 170))),
            ).title_in_the_middle(),
        ),
    }
}

fn draw_message(
    canvas: &mut Canvas,
    area: Rect,
    task_number: u32,
    message: &str,
    color: Color,
    border: Color,
)
    ensures
        final(canvas)@ == old(canvas)@.push(
            message_drawn(area, task_number, message@, color, border),
        ),
{
    canvas.put(
        Draw::Text {
            area,
            lines: Lines::of(Line::of(message, Style::fg(color))),
            style: Style::plain(),
            centered: false,
            wrap: Wrap::Cut,
            block: Some(
                Block::new(Borders::all(), Style::fg(border)).titled(
                    draw::span(
                        heading_of(task_number).as_str(),
                        Style::bold(Color::Rgb(140, 144, 170)),
                    ),
                ).title_in_the_middle(),
            ),
        },
    );
}

/// The path of a file in the title: for one that was renamed, the old path too.
pub open spec fn shown_path(file: DiffFile) -> Seq<char> {
    match file.old_path {
        Some(old) => if file.is_renamed {
            old@ + " → "@ + file.path@
        } else {
            file.path@
        },
        None => file.path@,
    }
}

fn path_of(file: &DiffFile) -> (r: String)
    ensures
        r@ == shown_path(*file),
{
    match &file.old_path {
        Some(old) => {
            if file.is_renamed {
                let mut out = text::join2(old.as_str(), " → ");
                out.append(file.path.as_str());
                out
            } else {
                file.path.clone()
            }
        },
        None => file.path.clone(),
    }
}

/// `spans` with one more at the end if `shown`.
pub open spec fn and_if(
    spans: Seq<Span<Seq<char>>>,
    shown: bool,
    text: Seq<char>,
    style: Style,
) -> Seq<Span<Seq<char>>> {
    if shown {
        spans.push(draw::sp(text, style))
    } else {
        spans
    }
}

/// The title bar: heading, what happened to the file, its path, how many lines
/// were added and removed, and its place among the files.
pub open spec fn title_spans(
    file: DiffFile,
    task_number: u32,
    index: int,
    total: nat,
    theme: Theme,
) -> Seq<Span<Seq<char>>> {
    let heading = draw::blank().push(
        draw::sp(review_heading(task_number), Style::bold(Color::Rgb(140, 144, 170))),
    ).push(draw::sp(" │ "@, Style::fg(Color::Rgb(45, 48, 62))));
    let fresh = and_if(heading, file.is_new, "new "@, Style::fg(theme.done));
    let gone = and_if(fresh, file.is_deleted, "deleted "@, Style::fg(theme.error));
    let binary = and_if(gone, file.is_binary, "binary "@, Style::fg(Color::Yellow));
    let renamed = and_if(
        binary,
        file.is_renamed,
        "renamed "@,
        Style::fg(Color::Rgb(140, 144, 170)),
    );
    let path = renamed.push(draw::sp(shown_path(file), Style::fg(Color::White)));
    let changed = file.additions > 0 || file.deletions > 0;
    let added = and_if(
        path,
        changed,
        "  +"@ + text::decimal(file.additions as nat) + " "@,
        Style::fg(theme.done),
    );
    let removed = and_if(
        added,
        changed,
        "-"@ + text::decimal(file.deletions as nat) + " "@,
        Style::fg(theme.error),
    );
    removed.push(draw::sp(" "@, Style::fg(Color::Rgb(45, 48, 62)))).push(
        draw::sp(
            "File "@ + text::decimal((index + 1) as nat) + "/"@ + text::decimal(total),
            Style::fg(Color::Rgb(100, 104, 120)),
        ),
    )
}

fn title_of(file: &DiffFile, task_number: u32, index: usize, total: usize, theme: Theme) -> (r: Line)
    ensures
        r@ == title_spans(*file, task_number, index as int, total as nat, theme),
{
    let mut line = Line::of(
        heading_of(task_number).as_str(),
        Style::bold(Color::Rgb(140, 144, 170)),
    ).with(" │ ", Style::fg(Color::Rgb(45, 48, 62)));
    if file.is_new {
        line = line.with("new ", Style::fg(theme.done));
    }
    if file.is_deleted {
        line = line.with("deleted ", Style::fg(theme.error));
    }
    if file.is_binary {
        line = line.with("binary ", Style::fg(Color::Yellow));
    }
    if file.is_renamed {
        line = line.with("renamed ", Style::fg(Color::Rgb(140, 144, 170)));
    }
    line = line.with(path_of(file).as_str(), Style::fg(Color::White));
    if file.additions > 0 || file.deletions > 0 {
        let mut added = text::join2("  +", text::dec(file.additions as u64).as_str());
        added.append(" ");
        line = line.with(added.as_str(), Style::fg(theme.done));
        let mut removed = text::join2("-", text::dec(file.deletions as u64).as_str());
        removed.append(" ");
        line = line.with(removed.as_str(), Style::fg(theme.error));
    }
    let mut place = text::join2("File ", text::dec_wide(index as u128 + 1).as_str());
    place.append("/");
    place.append(text::dec(total as u64).as_str());
    line.with(" ", Style::fg(Color::Rgb(45, 48, 62))).with(
        place.as_str(),
        Style::fg(Color::Rgb(100, 104, 120)),
    )
}

/// The keys of the review.
pub open spec fn footer_spans() -> Seq<Span<Seq<char>>> {
    let key = Style::bold(Color::Rgb(140, 144, 170));
    let desc = Style::fg(Color::Rgb(90, 94, 110));
    let pipe = Style::fg(Color::Rgb(45, 48, 62));
    draw::blank().push(draw::sp("Tab"@, key)).push(draw::sp("/"@, pipe)).push(
        draw::sp("]"@, key),
    ).push(draw::sp(" next file  "@, desc)).push(draw::sp("Shift+Tab"@, key)).push(
        draw::sp("/"@, pipe),
    ).push(draw::sp("["@, key)).push(draw::sp(" prev file  "@, desc)).push(
        draw::sp("↑↓"@, key),
    ).push(draw::sp("/"@, pipe)).push(draw::sp("j/k"@, key)).push(
        draw::sp(" scroll  "@, desc),
    ).push(draw::sp("Esc"@, key)).push(draw::sp(" back"@, desc))
}

fn footer_of() -> (r: Line)
    ensures
        r@ == footer_spans(),
{
    let key = Style::bold(Color::Rgb(140, 144, 170));
    let desc = Style::fg(Color::Rgb(90, 94, 110));
    let pipe = Style::fg(Color::Rgb(45, 48, 62));
    Line::of("Tab", key).with("/", pipe).with("]", key).with(" next file  ", desc).with(
        "Shift+Tab",
        key,
    ).with("/", pipe).with("[", key).with(" prev file  ", desc).with("↑↓", key).with(
        "/",
        pipe,
    ).with("j/k", key).with(" scroll  ", desc).with("Esc", key).with(" back", desc)
}

/// The rows of the review: title bar, diff and footer.
pub open spec fn review_rows() -> Seq<Constraint> {
    seq![Constraint::Length(1), Constraint::Min(0), Constraint::Length(1)]
}

/// Which file is shown: the one selected, or else the last.
pub open spec fn file_in_view(review: DiffReviewState) -> int {
    if review.selected_file_index < review.files@.len() {
        review.selected_file_index as int
    } else {
        review.files@.len() - 1
    }
}

/// What is drawn for a review with files, with its rows in `parts`.
pub open spec fn review_drawn(
    before: draw::Drawn,
    review: DiffReviewState,
    theme: Theme,
    parts: Seq<Rect>,
) -> draw::Drawn {
    let index = file_in_view(review);
    let file = review.files@[index];
    let titled = before.push(
        draw::text_at(
            parts[0],
            draw::only(
                title_spans(file, review.task_number, index, review.files@.len(), theme),
            ),
            Style::bg(Color::Rgb(30, 34, 50)),
        ),
    );
    let shown = if file.is_binary {
        titled.push(
            draw::text_in_the_middle(
                parts[1],
                draw::only(
                    draw::blank().push(
                        draw::sp(
                            "Binary file — cannot display diff"@,
                            Style::fg(Color::Rgb(140, 144, 170)),
                        ),
                    ),
                ),
                Style::plain(),
            ),
        )
    } else {
        content_drawn(titled, parts[1], file.lines@, review.scroll_offset)
    };
    shown.push(
        draw::text_at(
            parts[2],
            draw::only(footer_spans()),
            Style::bg(Color::Rgb(30, 34, 50)),
        ),
    )
}

/// Draws a review with files, with its rows in `parts`.
pub fn draw_diff_review(
    canvas: &mut Canvas,
    review: &DiffReviewState,
    theme: Theme,
    parts: &Vec<Rect>,
)
    requires
        review.files@.len() > 0,
        parts@.len() == 3,
    ensures
        final(canvas)@ == review_drawn(old(canvas)@, *review, theme, parts@),
{
    let total: usize = review.files.len();
    let index: usize = if review.selected_file_index < total {
        review.selected_file_index
    } else {
        total - 1
    };
    let file = &review.files[index];
    canvas.text(
        parts[0],
        Lines::of(title_of(file, review.task_number, index, total, theme)),
        Style::bg(Color::Rgb(30, 34, 50)),
    );
    if file.is_binary {
        canvas.middle(
            parts[1],
            Lines::of(
                Line::of(
                    "Binary file — cannot display diff",
                    Style::fg(Color::Rgb(140, 144, 170)),
                ),
            ),
            Style::plain(),
        );
    } else {
        render_diff_content(canvas, parts[1], file, review.scroll_offset);
    }
    canvas.text(parts[2], Lines::of(footer_of()), Style::bg(Color::Rgb(30, 34, 50)));
}

/// What is drawn for the review: nothing without one or without room, an error
/// or a remark that there is nothing to review, else the file in view.
pub open spec fn diff_review_drawn(
    before: draw::Drawn,
    area: Rect,
    review: Option<DiffReviewState>,
    theme: Theme,
    after: draw::Drawn,
) -> bool {
    match review {
        None => after == before,
        Some(review) => if area.height < 4 || area.width < 20 {
            after == before
        } else {
            match review.error {
                Some(error) => after == before.push(
                    message_drawn(
                        area,
                        review.task_number,
                        error@,
                        Color::Red,
                        Color::Red,
                    ),
                ),
                None => if review.files@.len() == 0 {
                    after == before.push(
                        message_drawn(
                            area,
                            review.task_number,
                            "No changes to review"@,
                            Color::Rgb(140, 144, 170),
                            Color::Rgb(60, 64, 80),
                        ),
                    )
                } else {
                    exists|parts: Seq<Rect>|
                        #[trigger] draw::parts_of(
                            area,
                            Direction::Vertical,
                            review_rows(),
                            parts,
                        ) && after == review_drawn(before, review, theme, parts)
                },
            }
        },
    }
}

/// Render the diff review view in the given area.
///
/// Shows one file at a time with navigation controls. The header displays
/// the task number, file index, and file path. The body shows the diff
/// with color-coded additions (green), removals (red), context (dim white),
/// and hunk headers (blue). The footer shows keybinding hints.
pub fn render_diff_review(
    canvas: &mut Canvas,
    area: Rect,
    review: &Option<DiffReviewState>,
    theme: Theme,
)
    ensures
        diff_review_drawn(old(canvas)@, area, *review, theme, final(canvas)@),
{
    let review = match review {
        Some(review) => review,
        None => {
            return;
        },
    };
    if area.height < 4 || area.width < 20 {
        return;
    }
    match &review.error {
        Some(error) => {
            draw_message(
                canvas,
                area,
                review.task_number,
                error.as_str(),
                Color::Red,
                Color::Red,
            );
        },
        None => {
            if review.files.len() == 0 {
                draw_message(
                    canvas,
                    area,
                    review.task_number,
                    "No changes to review",
                    Color::Rgb(140, 144, 170),
                    Color::Rgb(60, 64, 80),
                );
            } else {
                let rows = vec![
                    Constraint::Length(1),
                    Constraint::Min(0),
                    Constraint::Length(1),
                ];
                proof {
                    assert(rows@ =~= review_rows());
                }
                let parts = draw::split(area, Direction::Vertical, &rows);
                draw_diff_review(canvas, review, theme, &parts);
                proof {
                    assert(draw::parts_of(area, Direction::Vertical, review_rows(), parts@));
                }
            }
        },
    }
}

/// A line of a diff is shown by its kind: behind the line numbers of the sides on
/// which it stands comes the mark of its kind and then its text; what was added is
/// green, what was removed is red.
pub proof fn law_lines_look_like_their_kind(line: DiffLine)
    ensures
        ({
            let spans = styled_line(line);
            let last = spans.last();
            let body = line.kind is Context || line.kind is Addition || line.kind is Removal;
            &&& body ==> spans.len() == 3 && last.text == line.content@
            &&& line.kind is Addition ==> spans[1].text == "+"@
            &&& line.kind is Removal ==> spans[1].text == "-"@
            &&& line.kind is Context ==> spans[1].text == " "@
            &&& line.kind is Addition ==> (last.style.fg matches Some(Color::Rgb(r, g, b)) && g > r
                && g > b)
            &&& line.kind is Removal ==> (last.style.fg matches Some(Color::Rgb(r, g, b)) && r > g
                && r > b)
            &&& line.kind is Removal ==> text::begins(
                spans[0].text,
                number_column(line.old_line_no),
            )
            &&& line.kind is Context ==> text::begins(
                spans[0].text,
                number_column(line.old_line_no),
            )
            &&& line.kind is Addition || line.kind is Context ==> text::ends(
                spans[0].text,
                number_column(line.new_line_no) + " "@,
            )
        }),
{
    reveal_strlit(" ");
    reveal_strlit("     ");
    reveal_strlit("      ");
    let numbers = styled_line(line)[0].text;
    let old = number_column(line.old_line_no);
    let new = number_column(line.new_line_no) + " "@;
    if line.kind is Removal || line.kind is Context {
        assert(numbers.subrange(0, old.len() as int) =~= old);
    }
    if line.kind is Addition || line.kind is Context {
        let at = numbers.len() - new.len();
        assert(numbers.subrange(at, at + new.len()) =~= new);
    }
}

/// The lines in view are those from the scroll position on, as many as there are
/// rows, in order.
pub proof fn law_view_starts_at_the_scroll_position(
    lines: Seq<DiffLine>,
    scroll: usize,
    height: u16,
    i: int,
)
    requires
        0 <= i < height,
        scroll + i < lines.len(),
    ensures
        i < lines_in_view(lines, scroll, height).len() <= height,
        lines_in_view(lines, scroll, height)[i] == styled_line(lines[scroll + i]),
{
}

proof fn lemma_said(spans: Seq<Span<Seq<char>>>, more: Seq<Span<Seq<char>>>, t: Seq<char>)
    requires
        spans.len() <= more.len(),
        forall|i: int| 0 <= i < spans.len() ==> #[trigger] spans[i] == more[i],
    ensures
        says_so(spans, t) ==> says_so(more, t),
{
    if says_so(spans, t) {
        let i = choose|i: int| 0 <= i < spans.len() && (#[trigger] spans[i]).text == t;
        assert(more[i].text == t);
    }
}

/// Whether one of the stretches of a line is `t`.
pub open spec fn says_so(spans: Seq<Span<Seq<char>>>, t: Seq<char>) -> bool {
    exists|i: int| 0 <= i < spans.len() && (#[trigger] spans[i]).text == t
}

/// The title bar says what happened to the file and where it stands: that it is
/// new, deleted, binary or renamed where it is, how many lines were added and
/// removed where any were, and its place among the files, counted from one.
pub proof fn law_title_says_what_happened(
    file: DiffFile,
    task_number: u32,
    index: int,
    total: nat,
    theme: Theme,
)
    requires
        0 <= index,
    ensures
        ({
            let spans = title_spans(file, task_number, index, total, theme);
            let changed = file.additions > 0 || file.deletions > 0;
            &&& file.is_new ==> says_so(spans, "new "@)
            &&& file.is_deleted ==> says_so(spans, "deleted "@)
            &&& file.is_binary ==> says_so(spans, "binary "@)
            &&& file.is_renamed ==> says_so(spans, "renamed "@)
            &&& says_so(spans, shown_path(file))
            &&& changed ==> says_so(
                spans,
                "  +"@ + text::decimal(file.additions as nat) + " "@,
            )
            &&& changed ==> says_so(spans, "-"@ + text::decimal(file.deletions as nat) + " "@)
            &&& spans.last().text == "File "@ + text::decimal((index + 1) as nat) + "/"@
                + text::decimal(total)
        }),
{
    let spans = title_spans(file, task_number, index, total, theme);
    let heading = draw::blank().push(
        draw::sp(review_heading(task_number), Style::bold(Color::Rgb(140, 144, 170))),
    ).push(draw::sp(" │ "@, Style::fg(Color::Rgb(45, 48, 62))));
    let fresh = and_if(heading, file.is_new, "new "@, Style::fg(theme.done));
    let gone = and_if(fresh, file.is_deleted, "deleted "@, Style::fg(theme.error));
    let binary = and_if(gone, file.is_binary, "binary "@, Style::fg(Color::Yellow));
    let renamed = and_if(
        binary,
        file.is_renamed,
        "renamed "@,
        Style::fg(Color::Rgb(140, 144, 170)),
    );
    let path = renamed.push(draw::sp(shown_path(file), Style::fg(Color::White)));
    let changed = file.additions > 0 || file.deletions > 0;
    let plus = "  +"@ + text::decimal(file.additions as nat) + " "@;
    let added = and_if(path, changed, plus, Style::fg(theme.done));
    let minus = "-"@ + text::decimal(file.deletions as nat) + " "@;
    let removed = and_if(added, changed, minus, Style::fg(theme.error));
    if file.is_new {
        assert(fresh.last().text == "new "@);
        lemma_said(fresh, spans, "new "@);
    }
    if file.is_deleted {
        assert(gone.last().text == "deleted "@);
        lemma_said(gone, spans, "deleted "@);
    }
    if file.is_binary {
        assert(binary.last().text == "binary "@);
        lemma_said(binary, spans, "binary "@);
    }
    if file.is_renamed {
        assert(renamed.last().text == "renamed "@);
        lemma_said(renamed, spans, "renamed "@);
    }
    assert(path.last().text == shown_path(file));
    lemma_said(path, spans, shown_path(file));
    if changed {
        assert(added.last().text == plus);
        lemma_said(added, spans, plus);
        assert(removed.last().text == minus);
        lemma_said(removed, spans, minus);
    }
}

proof fn lemma_range_reads_back(a: nat, b: nat)
    requires
        a <= u32::MAX,
        b <= u32::MAX,
    ensures
        range_of(text::decimal(a) + ","@ + text::decimal(b)) == Some((a, b)),
{
    reveal_strlit(",");
    text::lemma_decimal_digits(a);
    let first = text::decimal(a);
    let rest = text::decimal(b);
    let s = first + ","@ + rest;
    text::law_first_place_is_found(s, ","@, 0);
    let n = first.len() as int;
    assert(s.subrange(n, n + 1) =~= ","@);
    assert(text::stands_at(s, ","@, n));
    match text::find_from(s, ","@, 0) {
        Some(i) => {
            assert(s.subrange(i, i + 1)[0] == s[i]);
            if i < n {
                assert(text::is_digit(first[i]));
                assert(s[i] == first[i]);
            }
            assert(s.take(i) =~= first);
            assert(text::after(s, i + 1) =~= rest);
        },
        None => {},
    }
    text::law_decimal_reads_back(a, max_no());
    text::law_decimal_reads_back(b, max_no());
}

proof fn lemma_range_is_a_word(mark: char, a: nat, b: nat)
    requires
        mark == '-' || mark == '+',
    ensures
        text::is_word(seq![mark] + (text::decimal(a) + ","@ + text::decimal(b))),
{
    reveal_strlit(",");
    text::lemma_decimal_digits(a);
    text::lemma_decimal_digits(b);
    let w = seq![mark] + (text::decimal(a) + ","@ + text::decimal(b));
    let n = text::decimal(a).len();
    assert forall|i: int| 0 <= i < w.len() implies !text::is_blank(#[trigger] w[i]) by {
        if 1 <= i < 1 + n {
            assert(w[i] == text::decimal(a)[i - 1]);
            assert(text::is_digit(text::decimal(a)[i - 1]));
        } else if i > 1 + n {
            assert(w[i] == text::decimal(b)[i - 2 - n]);
            assert(text::is_digit(text::decimal(b)[i - 2 - n]));
        }
    }
}

/// A hunk header that is spelled out is read as it is: the old range behind the
/// minus, the new one behind the plus, each with its start and its count.
pub proof fn law_hunk_headers_read_back(h: Hunk)
    ensures
        hunk_of(
            "@@ -"@ + text::decimal(h.old_start as nat) + ","@ + text::decimal(h.old_count as nat)
                + " +"@ + text::decimal(h.new_start as nat) + ","@ + text::decimal(
                h.new_count as nat,
            ) + " @@"@,
        ) == Some(h),
{
    reveal_strlit("@@ -");
    reveal_strlit(",");
    reveal_strlit(" +");
    reveal_strlit(" @@");
    reveal_strlit(" ");
    let old = text::decimal(h.old_start as nat) + ","@ + text::decimal(h.old_count as nat);
    let new = text::decimal(h.new_start as nat) + ","@ + text::decimal(h.new_count as nat);
    let line = "@@ -"@ + text::decimal(h.old_start as nat) + ","@ + text::decimal(
        h.old_count as nat,
    ) + " +"@ + text::decimal(h.new_start as nat) + ","@ + text::decimal(h.new_count as nat)
        + " @@"@;
    let w1 = seq!['-'] + old;
    let w2 = seq!['+'] + new;
    let w3 = seq!['@', '@'];
    let body = w1 + " "@ + (w2 + " "@ + w3);
    assert(line =~= seq!['@', '@', ' '] + body);
    let rest = text::strip_leading(line, '@');
    assert(rest =~= seq![' '] + body) by {
        reveal_with_fuel(text::strip_leading, 3);
        assert(line.skip(1).skip(1) =~= seq![' '] + body);
    }
    assert(text::trimmed(rest) =~= body) by {
        reveal_with_fuel(text::trim_front, 2);
        assert(rest.skip(1) =~= body);
        assert(body[0] == '-');
        assert(body.last() == '@');
    }
    text::lemma_words_join(w1, w2 + " "@ + w3);
    text::lemma_words_join(w2, w3);
    lemma_range_is_a_word('-', h.old_start as nat, h.old_count as nat);
    lemma_range_is_a_word('+', h.new_start as nat, h.new_count as nat);
    text::lemma_word_alone(w1);
    text::lemma_word_alone(w2);
    text::lemma_word_alone(w3);
    let words = text::words_of(body);
    assert(words =~= seq![w1, w2, w3]);
    assert(words[0].skip(1) =~= old);
    assert(words[1].skip(1) =~= new);
    lemma_range_reads_back(h.old_start as nat, h.old_count as nat);
    lemma_range_reads_back(h.new_start as nat, h.new_count as nat);
}

/// The path of a file is that behind `b/` in its header, where the old path has no
/// such mark in it.
pub proof fn law_header_names_the_new_path(old: Seq<char>, new: Seq<char>)
    requires
        forall|i: int| !(#[trigger] text::stands_at(old + " b/"@ + new, " b/"@, i)) || i >= old.len(),
    ensures
        header_path(old + " b/"@ + new) == new,
{
    reveal_strlit(" b/");
    let s = old + " b/"@ + new;
    let n = old.len() as int;
    text::law_first_place_is_found(s, " b/"@, 0);
    assert(s.subrange(n, n + 3) =~= " b/"@);
    assert(text::stands_at(s, " b/"@, n));
    assert(text::after(s, n + 3) =~= new);
}

proof fn lemma_one_more_line(output: Seq<char>, line: Seq<char>)
    requires
        output.len() > 0,
        output.last() == '\n',
        line.len() > 0,
        forall|i: int| 0 <= i < line.len() ==> #[trigger] line[i] != '\n',
    ensures
        text::lines_of(output + line) == text::lines_of(output).push(line),
{
    text::lemma_lines_join(output, line);
    text::lemma_one_piece(line, text::Cut::At('\n'));
    assert(text::lines_of(line) =~= seq![line]);
    assert(text::lines_of(output) + seq![line] =~= text::lines_of(output).push(line));
}

/// A line of the header of a file marks that file, the last one so far, as new,
/// deleted, binary or renamed, or names its path; it adds no line to the file and
/// leaves the other files alone.
pub proof fn law_header_lines_mark_the_file(output: Seq<char>, line: Seq<char>, p: Seq<char>)
    requires
        output.len() > 0,
        output.last() == '\n',
        has_begun(text::lines_of(output)),
        text::byte_len(output + line) <= MAX_DIFF_SIZE,
        line.len() > 0,
        forall|i: int| 0 <= i < line.len() ==> #[trigger] line[i] != '\n',
    ensures
        ({
            let a = files_of(output);
            let b = files_of(output + line);
            let f = a.last();
            let g = b.last();
            let marks = b.len() == a.len() && b.drop_last() == a.drop_last() && g.lines == f.lines
                && g.additions == f.additions && g.deletions == f.deletions;
            &&& text::begins(line, "new file mode"@) ==> marks && g == (FileView {
                is_new: true,
                ..f
            })
            &&& text::begins(line, "deleted file mode"@) ==> marks && g == (FileView {
                is_deleted: true,
                ..f
            })
            &&& line == "rename from "@ + p ==> marks && g == (FileView {
                old_path: Some(p),
                is_renamed: true,
                ..f
            })
            &&& line == "rename to "@ + p ==> marks && g == (FileView { path: p, ..f })
        }),
{
    let a = text::lines_of(output);
    lemma_one_more_line(output, line);
    text::lemma_byte_len_joins(output, line);
    lemma_shown_is_written(Seq::empty(), a);
    let s = scanned(Seq::empty(), a);
    let t = scanned(Seq::empty(), a.push(line));
    assert(a.push(line).drop_last() =~= a);
    assert(t == scan_line(s, line));
    reveal_strlit("diff --git ");
    reveal_strlit("new file mode");
    reveal_strlit("deleted file mode");
    reveal_strlit("Binary files /dev/null differ");
    reveal_strlit("Binary files ");
    reveal_strlit("rename from ");
    reveal_strlit("rename to ");
    assert("Binary files /dev/null differ"@[0] == 'B');
    if text::begins(line, "new file mode"@) {
        lemma_begins(line, "new file mode"@);
        assert(line[0] == "new file mode"@[0]);
        lemma_not_by_mark(line, "diff --git "@);
    } else if text::begins(line, "deleted file mode"@) {
        lemma_begins(line, "deleted file mode"@);
        assert(line[1] == "deleted file mode"@[1]);
        if text::begins(line, "diff --git "@) {
            lemma_begins(line, "diff --git "@);
            assert(line[1] == "diff --git "@[1]);
        }
    } else if line == "rename from "@ + p {
        assert(line.subrange(0, 12) =~= "rename from "@);
        assert(line.skip(12) =~= p);
        lemma_not_by_mark(line, "diff --git "@);
        lemma_not_by_mark(line, "Binary files "@);
    } else if line == "rename to "@ + p {
        assert(line.subrange(0, 10) =~= "rename to "@);
        assert(line.skip(10) =~= p);
        lemma_not_by_mark(line, "diff --git "@);
        lemma_not_by_mark(line, "Binary files "@);
        if text::begins(line, "rename from "@) {
            lemma_begins(line, "rename from "@);
            assert(line[7] == "rename from "@[7]);
        }
    }
    assert(closed(s.files, s.current).drop_last() =~= s.files);
    assert(closed(t.files, t.current).drop_last() =~= t.files);
}

} // verus!
