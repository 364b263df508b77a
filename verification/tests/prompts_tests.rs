use gpt_commit::prompts::{
    build_initial_message, build_query, build_readme_query, get_params, get_readme_params,
};

#[test]
fn params_list_is_complete() {
    let params = get_params();
    assert_eq!(params.len(), 10);
    assert_eq!(params[0], "You write an informative commit message.");
    assert_eq!(params[9], "6. Do not use markdown headings");
}

#[test]
fn readme_params_single_entry() {
    let params = get_readme_params();
    assert_eq!(
        params,
        vec!["create a readme based on the content of the given info".to_owned()]
    );
}

#[test]
fn initial_message_frames_os_info_and_instructions() {
    let msg = build_initial_message("OS Platform: linux");
    assert!(msg.starts_with("# The system information:\nOS Platform: linux\n\n# Your instructions:\n"));
    assert!(msg.ends_with("6. Do not use markdown headings"));
    assert!(msg.contains("You just reply with 2 lines in total."));
}

#[test]
fn query_concatenates_status_and_diff() {
    let q = build_query("M src/lib.rs\n", "diff --git a b\n");
    assert_eq!(
        q,
        "# Git-Status:\nM src/lib.rs\n\n\n# Git-Diffs, everything from here is the diff:\ndiff --git a b\n"
    );
}

#[test]
fn readme_query_keeps_short_contents_whole() {
    let q = build_readme_query("https://example.invalid/repo.git", "short contents");
    assert!(q.starts_with("https://example.invalid/repo.git\n\ncreate a readme based on the content of the given info\n\n\n\n"));
    assert!(q.ends_with("short contents"));
}

#[test]
fn readme_query_truncates_long_contents() {
    let origin = "https://example.invalid/repo.git";
    let long = "x".repeat(10000);
    let q = build_readme_query(origin, &long);
    // preamble: origin + two newlines + instruction + two newlines,
    // then two more newlines, then the contents cut to the budget.
    let preamble_len = origin.chars().count() + 2
        + "create a readme based on the content of the given info".chars().count() + 2;
    let budget = 4096 - preamble_len;
    assert_eq!(q.chars().count(), preamble_len + 2 + budget);
    assert!(q.ends_with("xx"));
}
