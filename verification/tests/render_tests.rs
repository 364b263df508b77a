use gpt_commit::render::{parse_command, parse_commands, render};
use gpt_commit::parser::parse;

const YELLOW: &str = "\u{1b}[33m";
const BLUE: &str = "\u{1b}[94m";
const GREEN: &str = "\u{1b}[32m";
const GRAY: &str = "\u{1b}[90m";
const RESET: &str = "\u{1b}[0m";

#[test]
fn render_program_yellow_and_flag_blue() {
    let out = parse_command("ls -la", false);
    assert_eq!(out, format!("{YELLOW}ls{RESET} {BLUE}-la{RESET}"));
}

#[test]
fn render_plain_arguments_stay_plain() {
    let out = parse_command("cp a.txt b.txt", false);
    assert_eq!(out, format!("{YELLOW}cp{RESET} a.txt b.txt"));
}

#[test]
fn render_commit_message_substitutes_gitmoji() {
    let out = parse_command("git commit -m \":bug: fix crash\"", false);
    assert_eq!(
        out,
        format!("{YELLOW}git{RESET} commit {BLUE}-m{RESET} \"{GREEN}\u{1f41b} fix crash{RESET}\"")
    );
    assert!(!out.contains(":bug:"));
    assert!(out.contains("\u{1f41b}"));
}

#[test]
fn render_commit_keeps_text_after_closing_quote() {
    let out = parse_command("git commit -m \"msg one\" --amend", false);
    assert_eq!(
        out,
        format!("{YELLOW}git{RESET} commit {BLUE}-m{RESET} \"{GREEN}msg one{RESET}\" --amend")
    );
}

#[test]
fn render_commit_without_quotes_has_empty_message_segment() {
    // A single-word message carries no space, so no quotes are shown
    // and the message segment degrades to nothing.
    let out = parse_command("git commit -m fix", false);
    assert_eq!(out, format!("{YELLOW}git{RESET} commit {BLUE}-m{RESET} "));
}

#[test]
fn render_commit_accepts_long_message_flag() {
    let out = parse_command("git commit --message \"a b\"", false);
    assert_eq!(
        out,
        format!("{YELLOW}git{RESET} commit {BLUE}--message{RESET} \"{GREEN}a b{RESET}\"")
    );
}

#[test]
fn render_commit_accepts_am_flag() {
    let out = parse_command("git commit -am \"a b\"", false);
    assert_eq!(
        out,
        format!("{YELLOW}git{RESET} commit {BLUE}-am{RESET} \"{GREEN}a b{RESET}\"")
    );
}

#[test]
fn render_commit_shows_only_first_message_flag_onward() {
    // Tokens between `commit` and the message flag are not part of the
    // message rendering.
    let out = parse_command("git commit -v -m \"a b\"", false);
    assert_eq!(
        out,
        format!("{YELLOW}git{RESET} commit {BLUE}-m{RESET} \"{GREEN}a b{RESET}\"")
    );
}

#[test]
fn render_git_non_commit_uses_flag_rule() {
    let out = parse_command("git push --force", false);
    assert_eq!(out, format!("{YELLOW}git{RESET} push {BLUE}--force{RESET}"));
}

#[test]
fn render_and_chain_separator() {
    let out = parse_command("a && b", false);
    assert_eq!(
        out,
        format!("{YELLOW}a{RESET} {GRAY} &&{RESET} {YELLOW}b{RESET} ")
    );
}

#[test]
fn render_pipeline_separator_with_newlines() {
    let out = parse_command("a | b", true);
    assert_eq!(
        out,
        format!("{YELLOW}a{RESET} {GRAY} |{RESET}\n{YELLOW}b{RESET} ")
    );
}

#[test]
fn render_stages_always_newline_joined() {
    let out = parse_command("a\nb", false);
    assert_eq!(out, format!("{YELLOW}a{RESET} \n{YELLOW}b{RESET} "));
}

#[test]
fn render_of_parsed_stages_matches_parse_command() {
    let stages = parse("git status\nls -l");
    let direct = render(&stages, true);
    let via_line = parse_command("git status\nls -l", true);
    assert_eq!(direct, via_line);
}

#[test]
fn parse_commands_joins_ready_commands_with_and() {
    let commands = vec![
        vec!["git".to_owned(), "add".to_owned(), ".".to_owned()],
        vec!["git".to_owned(), "push".to_owned()],
    ];
    let out = parse_commands(&commands, false);
    assert_eq!(
        out,
        format!("{YELLOW}git{RESET} add .{GRAY} &&{RESET} {YELLOW}git{RESET} push")
    );
}

#[test]
fn parse_commands_quotes_message_token_with_spaces() {
    let commands = vec![vec![
        "git".to_owned(),
        "commit".to_owned(),
        "-m".to_owned(),
        ":sparkles: add feature".to_owned(),
    ]];
    let out = parse_commands(&commands, true);
    assert_eq!(
        out,
        format!(
            "{YELLOW}git{RESET} commit {BLUE}-m{RESET} \"{GREEN}\u{2728} add feature{RESET}\""
        )
    );
}
