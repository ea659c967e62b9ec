//! Reading diffs and moving through them.

use cortex::diff_view::{
    extract_path_from_git_header, next_file, parse_git_diff, parse_range, prev_file, scroll_diff,
};
use cortex::state::{DiffFile, DiffLine, DiffLineKind, DiffReviewState};

#[test]
fn parse_simple_diff() {
    let output = r#"diff --git a/src/main.rs b/src/main.rs
index abc1234..def5678 100644
--- a/src/main.rs
+++ b/src/main.rs
@@ -1,4 +1,6 @@
 fn main() {
+    println!("hello");
+    println!("world");
     let x = 1;
-    let y = 2;
+    let y = 3;
 }
"#;
    let files = parse_git_diff(output);
    assert_eq!(files.len(), 1);
    assert_eq!(files[0].path, "src/main.rs");
    assert_eq!(files[0].additions, 3);
    assert_eq!(files[0].deletions, 1);
    assert!(!files[0].is_new);
    assert!(!files[0].is_deleted);
    assert!(!files[0].is_binary);

    // Check line types
    let kinds: Vec<&DiffLineKind> = files[0].lines.iter().map(|l| &l.kind).collect();
    assert!(matches!(kinds[0], DiffLineKind::HunkHeader { .. }));
    assert!(matches!(kinds[1], DiffLineKind::Context { .. }));
    assert!(matches!(kinds[2], DiffLineKind::Addition));
    assert!(matches!(kinds[3], DiffLineKind::Addition));
    assert!(matches!(kinds[4], DiffLineKind::Context));
    assert!(matches!(kinds[5], DiffLineKind::Removal));
    assert!(matches!(kinds[6], DiffLineKind::Addition));
    assert!(matches!(kinds[7], DiffLineKind::Context));
}

#[test]
fn parse_new_file() {
    let output = r#"diff --git a/src/new_file.rs b/src/new_file.rs
new file mode 100644
index 0000000..abc1234
--- /dev/null
+++ b/src/new_file.rs
@@ -0,0 +1,3 @@
+fn new_func() {
+    println!("new");
+}
"#;
    let files = parse_git_diff(output);
    assert_eq!(files.len(), 1);
    assert_eq!(files[0].path, "src/new_file.rs");
    assert!(files[0].is_new);
    assert_eq!(files[0].additions, 3);
    assert_eq!(files[0].deletions, 0);
}

#[test]
fn parse_deleted_file() {
    let output = r#"diff --git a/src/old_file.rs b/src/old_file.rs
deleted file mode 100644
index abc1234..0000000
--- a/src/old_file.rs
+++ /dev/null
@@ -1,2 +0,0 @@
-fn old() {
-}
"#;
    let files = parse_git_diff(output);
    assert_eq!(files.len(), 1);
    assert!(files[0].is_deleted);
    assert_eq!(files[0].additions, 0);
    assert_eq!(files[0].deletions, 2);
}

#[test]
fn parse_renamed_file() {
    let output = r#"diff --git a/src/old_name.rs b/src/new_name.rs
similarity index 100%
rename from src/old_name.rs
rename to src/new_name.rs
"#;
    let files = parse_git_diff(output);
    assert_eq!(files.len(), 1);
    assert_eq!(files[0].path, "src/new_name.rs");
    assert_eq!(files[0].old_path.as_deref(), Some("src/old_name.rs"));
    assert!(files[0].is_renamed);
}

#[test]
fn parse_binary_file() {
    let output = r#"diff --git a/image.png b/image.png
Binary files /dev/null differ
"#;
    let files = parse_git_diff(output);
    assert_eq!(files.len(), 1);
    assert!(files[0].is_binary);
    assert!(files[0].is_new);
}

#[test]
fn parse_no_newline_at_end() {
    let output = r#"diff --git a/file.txt b/file.txt
--- a/file.txt
+++ b/file.txt
@@ -1,2 +1,2 @@
 line1
-line2
+line2_modified
\ No newline at end of file
"#;
    let files = parse_git_diff(output);
    assert_eq!(files.len(), 1);
    let last = files[0].lines.last().unwrap();
    assert!(matches!(last.kind, DiffLineKind::NoNewlineAtEndOfFile));
}

#[test]
fn parse_multiple_files() {
    let output = r#"diff --git a/file1.rs b/file1.rs
--- a/file1.rs
+++ b/file1.rs
@@ -1,2 +1,2 @@
-old1
+new1
diff --git a/file2.rs b/file2.rs
--- a/file2.rs
+++ b/file2.rs
@@ -1,2 +1,2 @@
-old2
+new2
"#;
    let files = parse_git_diff(output);
    assert_eq!(files.len(), 2);
    assert_eq!(files[0].path, "file1.rs");
    assert_eq!(files[1].path, "file2.rs");
}

#[test]
fn parse_empty_diff() {
    let files = parse_git_diff("");
    assert!(files.is_empty());
}

#[test]
fn parse_hunk_header_single_line() {
    // @@ -1 +1 @@ (no count specified, defaults to 1)
    let output = r#"diff --git a/f.txt b/f.txt
--- a/f.txt
+++ b/f.txt
@@ -1 +1 @@
-old
+new
"#;
    let files = parse_git_diff(output);
    assert_eq!(files.len(), 1);
    if let DiffLineKind::HunkHeader {
        old_start,
        old_count,
        new_start,
        new_count,
    } = &files[0].lines[0].kind
    {
        assert_eq!(*old_start, 1);
        assert_eq!(*old_count, 1);
        assert_eq!(*new_start, 1);
        assert_eq!(*new_count, 1);
    } else {
        panic!("Expected HunkHeader");
    }
}

#[test]
fn parse_range_with_count() {
    assert_eq!(parse_range("10,6"), Some((10, 6)));
}

#[test]
fn parse_range_without_count() {
    assert_eq!(parse_range("10"), Some((10, 1)));
}

#[test]
fn extract_path_from_header() {
    assert_eq!(
        extract_path_from_git_header("a/src/main.rs b/src/main.rs"),
        "src/main.rs"
    );
}

#[test]
fn next_file_wraps_around() {
    let mut state = DiffReviewState {
        files: vec![
            DiffFile {
                path: "a.rs".into(),
                old_path: None,
                additions: 0,
                deletions: 0,
                is_new: false,
                is_deleted: false,
                is_binary: false,
                is_renamed: false,
                lines: Vec::new(),
            },
            DiffFile {
                path: "b.rs".into(),
                old_path: None,
                additions: 0,
                deletions: 0,
                is_new: false,
                is_deleted: false,
                is_binary: false,
                is_renamed: false,
                lines: Vec::new(),
            },
        ],
        selected_file_index: 1,
        scroll_offset: 5,
        error: None,
        task_number: 1,
        files_list_focused: false,
    };
    next_file(&mut state);
    assert_eq!(state.selected_file_index, 0);
    assert_eq!(state.scroll_offset, 0);
}

#[test]
fn prev_file_wraps_around() {
    let mut state = DiffReviewState {
        files: vec![
            DiffFile {
                path: "a.rs".into(),
                old_path: None,
                additions: 0,
                deletions: 0,
                is_new: false,
                is_deleted: false,
                is_binary: false,
                is_renamed: false,
                lines: Vec::new(),
            },
            DiffFile {
                path: "b.rs".into(),
                old_path: None,
                additions: 0,
                deletions: 0,
                is_new: false,
                is_deleted: false,
                is_binary: false,
                is_renamed: false,
                lines: Vec::new(),
            },
        ],
        selected_file_index: 0,
        scroll_offset: 5,
        error: None,
        task_number: 1,
        files_list_focused: false,
    };
    prev_file(&mut state);
    assert_eq!(state.selected_file_index, 1);
    assert_eq!(state.scroll_offset, 0);
}

#[test]
fn scroll_diff_clamps_to_bounds() {
    let mut state = DiffReviewState {
        files: vec![DiffFile {
            path: "a.rs".into(),
            old_path: None,
            additions: 1,
            deletions: 1,
            is_new: false,
            is_deleted: false,
            is_binary: false,
            is_renamed: false,
            lines: vec![
                DiffLine {
                    kind: DiffLineKind::Context,
                    content: "x".into(),
                    old_line_no: Some(1),
                    new_line_no: Some(1),
                },
                DiffLine {
                    kind: DiffLineKind::Addition,
                    content: "y".into(),
                    old_line_no: None,
                    new_line_no: Some(2),
                },
            ],
        }],
        selected_file_index: 0,
        scroll_offset: 0,
        error: None,
        task_number: 1,
        files_list_focused: false,
    };

    // Scroll down past the end — should clamp to max
    assert!(scroll_diff(&mut state, 10));
    assert_eq!(state.scroll_offset, 1);

    // Scroll up past the start — should clamp to 0
    assert!(scroll_diff(&mut state, -10));
    assert_eq!(state.scroll_offset, 0);

    // No-op scroll at boundary
    assert!(!scroll_diff(&mut state, -1));
    assert_eq!(state.scroll_offset, 0);
}

#[test]
fn the_diffs_of_files_are_independent() {
    let a = "diff --git a/one b/one\n--- a/one\n+++ b/one\n@@ -7,2 +7,3 @@\n x\n+y\n z\n";
    let b = "diff --git a/two b/two\ndeleted file mode 100644\n--- a/two\n+++ /dev/null\n\
             @@ -1,1 +0,0 @@\n-gone\n\
             diff --git a/three b/three\nnew file mode 100644\n--- /dev/null\n+++ b/three\n\
             @@ -0,0 +1,2 @@\n+first\n+second";
    let mut apart = parse_git_diff(a);
    assert_eq!(apart.len(), 1);
    let later = parse_git_diff(b);
    assert_eq!(later.len(), 2);
    for file in later {
        apart.push(file);
    }
    let together = parse_git_diff(&format!("{}{}", a, b));
    assert_eq!(together, apart);
    assert_eq!(together[1].lines[1].old_line_no, Some(1));
    assert_eq!(together[2].lines[2].new_line_no, Some(2));
    assert_eq!(parse_git_diff(&format!("{}{}", "", b)), parse_git_diff(b));
}
