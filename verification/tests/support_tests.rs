use gpt_commit::config::Config;
use gpt_commit::spinner::loading_str;
use gpt_commit::suggest::{clean_suggestion, edit_line, nonempty_line_count};

#[test]
fn config_default_has_no_key() {
    let config = Config::default();
    assert!(config.api_key.is_none());
    assert_eq!(config.get_api_key(), "");
}

#[test]
fn config_set_and_get_key() {
    let mut config = Config::default();
    config.set_api_key("SECRET-REDACTED".to_owned());
    assert_eq!(config.get_api_key(), "SECRET-REDACTED");
}

#[test]
fn loading_str_substitutes_the_frame() {
    assert_eq!(loading_str("[ ] Loading", 0), "\u{1f550} Loading");
    assert_eq!(loading_str("[ ] Loading", 3), "\u{1f553} Loading");
}

#[test]
fn loading_str_frame_index_wraps() {
    assert_eq!(loading_str("[ ]", 12), "\u{1f550}");
    assert_eq!(loading_str("[ ]", 23), "\u{1f55b}");
}

#[test]
fn loading_str_replaces_every_marker() {
    assert_eq!(loading_str("[ ] a [ ] b", 1), "\u{1f551} a \u{1f551} b");
}

#[test]
fn loading_str_without_marker_is_unchanged() {
    assert_eq!(loading_str("no marker", 5), "no marker");
}

#[test]
fn clean_suggestion_strips_labels_per_line() {
    assert_eq!(
        clean_suggestion("Title: subject here\nBody: body here"),
        "subject here\nbody here"
    );
}

#[test]
fn clean_suggestion_strips_several_labels() {
    assert_eq!(
        clean_suggestion("Gitmoji: :bug:\nSummary: fix\nfeat: thing"),
        ":bug:\nfix\nthing"
    );
}

#[test]
fn clean_suggestion_trims_lines() {
    assert_eq!(clean_suggestion("  plain line  "), "plain line");
}

#[test]
fn nonempty_line_count_skips_blanks() {
    assert_eq!(nonempty_line_count("a\n\nb\n"), 2);
}

#[test]
fn edit_line_replaces_by_nonempty_index() {
    assert_eq!(edit_line("a\n\nb\nc", 1, "B"), Some("a\nB\nc".to_owned()));
}

#[test]
fn edit_line_drops_line_emptied_by_the_edit() {
    assert_eq!(edit_line("a\nb\nc", 1, ""), Some("a\nc".to_owned()));
}

#[test]
fn edit_line_out_of_range_is_none() {
    assert_eq!(edit_line("a\nb", 5, "x"), None);
}
