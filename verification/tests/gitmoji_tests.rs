use gpt_commit::gitmoji::replace_gitmoji_with_emoji;

#[test]
fn replaces_known_code() {
    assert_eq!(replace_gitmoji_with_emoji(":bug:"), "\u{1f41b}");
}

#[test]
fn unknown_code_passes_through_verbatim() {
    assert_eq!(
        replace_gitmoji_with_emoji(":totally_unknown_code: hi"),
        ":totally_unknown_code: hi"
    );
}

#[test]
fn replaces_code_inside_text() {
    assert_eq!(
        replace_gitmoji_with_emoji(":sparkles: add feature"),
        "\u{2728} add feature"
    );
}

#[test]
fn replaces_several_codes_left_to_right() {
    assert_eq!(
        replace_gitmoji_with_emoji(":bug: fix and :memo: note"),
        "\u{1f41b} fix and \u{1f4dd} note"
    );
}

#[test]
fn adjacent_codes_both_replaced() {
    assert_eq!(replace_gitmoji_with_emoji(":bug::zap:"), "\u{1f41b}\u{26a1}\u{fe0f}");
}

#[test]
fn spans_do_not_overlap() {
    // The second colon of the first span is consumed, so `bug` has no
    // closing colon of its own afterwards.
    assert_eq!(replace_gitmoji_with_emoji(":x:bug:"), ":x:bug:");
}

#[test]
fn extra_colon_before_code_is_kept() {
    assert_eq!(replace_gitmoji_with_emoji("::bug::"), ":\u{1f41b}:");
}

#[test]
fn codes_are_case_sensitive() {
    assert_eq!(replace_gitmoji_with_emoji(":Bug:"), ":Bug:");
}

#[test]
fn text_without_codes_is_unchanged() {
    assert_eq!(
        replace_gitmoji_with_emoji("plain text, no codes: none"),
        "plain text, no codes: none"
    );
}

#[test]
fn underscore_and_digit_codes_work() {
    assert_eq!(replace_gitmoji_with_emoji(":white_check_mark:"), "\u{2705}");
    assert_eq!(replace_gitmoji_with_emoji(":pencil2:"), "\u{270f}\u{fe0f}");
}
