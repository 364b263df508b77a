use gpt_commit::report::{
    confirm_line, diff_line, stats_line, status_entry, sum_diff_stats, usize_to_string,
};

const GREEN: &str = "\u{1b}[32m";
const RED: &str = "\u{1b}[31m";
const YELLOW: &str = "\u{1b}[33m";
const DEEP_BLUE: &str = "\u{1b}[34m";
const BRIGHT_BLUE: &str = "\u{1b}[94m";
const BOLD: &str = "\u{1b}[1m";
const RESET: &str = "\u{1b}[0m";

#[test]
fn diff_addition_is_green() {
    assert_eq!(
        diff_line('+', "new line\n"),
        format!("{GREEN}+{RESET}{GREEN}new line\n{RESET}")
    );
}

#[test]
fn diff_removal_is_red() {
    assert_eq!(
        diff_line('-', "old line\n"),
        format!("{RED}-{RESET}{RED}old line\n{RESET}")
    );
}

#[test]
fn diff_hunk_header_is_bright_blue() {
    assert_eq!(
        diff_line('H', "@@ -1 +1 @@\n"),
        format!("{BRIGHT_BLUE}@@ -1 +1 @@\n{RESET}")
    );
}

#[test]
fn diff_file_header_is_bold_after_blank_line() {
    assert_eq!(diff_line('F', "diff --git\n"), format!("\n{BOLD}diff --git\n{RESET}"));
}

#[test]
fn diff_context_is_verbatim() {
    assert_eq!(diff_line(' ', "context\n"), "context\n");
}

#[test]
fn status_added_is_green() {
    assert_eq!(
        status_entry("src/new.rs", "A"),
        format!("{GREEN}src/new.rs{RESET} A\n")
    );
}

#[test]
fn status_modified_is_yellow() {
    assert_eq!(
        status_entry("src/lib.rs", "M"),
        format!("{YELLOW}src/lib.rs{RESET} M\n")
    );
}

#[test]
fn status_deleted_is_red() {
    assert_eq!(status_entry("gone.rs", "D"), format!("{RED}gone.rs{RESET} D\n"));
}

#[test]
fn status_renamed_is_blue() {
    assert_eq!(status_entry("moved.rs", "R"), format!("{DEEP_BLUE}moved.rs{RESET} R\n"));
}

#[test]
fn status_other_codes_stay_plain() {
    assert_eq!(status_entry("odd.rs", "Typechange"), "odd.rs Typechange\n");
}

#[test]
fn confirm_line_shortens_hash_and_flattens_message() {
    assert_eq!(
        confirm_line("main", "0123456789abcdef", "  subject\nbody\ttail  "),
        "[main 0123456] subject body tail"
    );
}

#[test]
fn confirm_line_keeps_short_hash_whole() {
    assert_eq!(confirm_line("dev", "abc", "msg"), "[dev abc] msg");
}

#[test]
fn confirm_line_substitutes_gitmoji() {
    assert_eq!(
        confirm_line("main", "0123456789abcdef", ":bug: fix crash"),
        "[main 0123456] \u{1f41b} fix crash"
    );
}

#[test]
fn decimal_rendering_is_exact() {
    assert_eq!(usize_to_string(0), "0");
    assert_eq!(usize_to_string(7), "7");
    assert_eq!(usize_to_string(10), "10");
    assert_eq!(usize_to_string(12345), "12345");
}

#[test]
fn stats_line_is_exact() {
    assert_eq!(
        stats_line(3, 42, 7),
        "3 files changed, 42 insertions(+), 7 deletions(-)"
    );
}

#[test]
fn sum_diff_stats_counts_and_sums() {
    let per_file = vec![(3usize, 1usize), (0, 4), (2, 2)];
    assert_eq!(sum_diff_stats(&per_file), (3, 5, 7));
}

#[test]
fn sum_diff_stats_saturates() {
    let per_file = vec![(usize::MAX, 0usize), (5, 1)];
    assert_eq!(sum_diff_stats(&per_file), (2, usize::MAX, 1));
}
