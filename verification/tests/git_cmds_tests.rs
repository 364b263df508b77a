use gpt_commit::git_cmds::{build_commands, paths_to_git_paths};

#[test]
fn build_commands_without_push() {
    let cmds = build_commands(&"msg".to_owned(), false, &vec![]);
    assert_eq!(
        cmds,
        vec![
            vec!["git".to_owned(), "add".to_owned(), ".".to_owned()],
            vec!["git".to_owned(), "commit".to_owned(), "-m".to_owned(), "msg".to_owned()],
        ]
    );
}

#[test]
fn build_commands_with_push() {
    let cmds = build_commands(&"msg".to_owned(), true, &vec![]);
    assert_eq!(cmds.len(), 3);
    assert_eq!(cmds[2], vec!["git".to_owned(), "push".to_owned()]);
}

#[test]
fn build_commands_strips_surrounding_quotes() {
    let cmds = build_commands(&"\"quoted message\"".to_owned(), false, &vec![]);
    assert_eq!(cmds[1][3], "quoted message");
}

#[test]
fn build_commands_keeps_inner_quotes() {
    let cmds = build_commands(&"say \"hi\" now".to_owned(), false, &vec![]);
    assert_eq!(cmds[1][3], "say \"hi\" now");
}

#[test]
fn build_commands_message_is_one_argument() {
    let cmds = build_commands(&"subject line\nbody line".to_owned(), false, &vec![]);
    assert_eq!(cmds[1].len(), 4);
    assert_eq!(cmds[1][3], "subject line\nbody line");
}

#[test]
fn build_commands_adds_named_files() {
    let files = vec!["src/main.rs".to_owned(), "README.md".to_owned()];
    let cmds = build_commands(&"msg".to_owned(), false, &files);
    assert_eq!(
        cmds[0],
        vec![
            "git".to_owned(),
            "add".to_owned(),
            "src/main.rs".to_owned(),
            "README.md".to_owned(),
        ]
    );
}

#[test]
fn empty_file_list_becomes_dot() {
    assert_eq!(paths_to_git_paths(&vec![]), vec![".".to_owned()]);
}

#[test]
fn paths_drop_current_dir_segments() {
    assert_eq!(
        paths_to_git_paths(&vec!["./src/main.rs".to_owned()]),
        vec!["src/main.rs".to_owned()]
    );
}

#[test]
fn paths_use_forward_slashes() {
    assert_eq!(
        paths_to_git_paths(&vec!["a\\b\\c.txt".to_owned()]),
        vec!["a/b/c.txt".to_owned()]
    );
}

#[test]
fn paths_collapse_repeated_separators() {
    assert_eq!(
        paths_to_git_paths(&vec!["a//b".to_owned()]),
        vec!["a/b".to_owned()]
    );
}

#[test]
fn dot_path_becomes_empty() {
    assert_eq!(paths_to_git_paths(&vec![".".to_owned()]), vec!["".to_owned()]);
}
