use gpt_commit::parser::{parse, tokenize, Stage};

fn texts(toks: &[gpt_commit::parser::Token]) -> Vec<String> {
    toks.iter().map(|t| t.text()).collect()
}

#[test]
fn tokenize_splits_on_whitespace_runs() {
    let toks = tokenize("  foo   bar\tbaz ");
    assert_eq!(texts(&toks), vec!["foo", "bar", "baz"]);
}

#[test]
fn tokenize_round_trips_whitespace_normalized() {
    // No quote, pipe or AND in the input: the space-joined tokens are
    // the whitespace-normalized input.
    let input = "  git   status \t -v ";
    let joined = texts(&tokenize(input)).join(" ");
    assert_eq!(joined, "git status -v");
    let again = texts(&tokenize(&joined)).join(" ");
    assert_eq!(again, joined);
}

#[test]
fn tokenize_keeps_quoted_span_as_one_token() {
    let toks = tokenize("git commit -m \"fix: the bug\"");
    assert_eq!(texts(&toks), vec!["git", "commit", "-m", "fix: the bug"]);
}

#[test]
fn tokenize_is_lenient_about_unterminated_quotes() {
    let toks = tokenize("echo \"unterminated quote");
    assert_eq!(texts(&toks), vec!["echo", "unterminated quote"]);
}

#[test]
fn tokenize_joins_around_quoted_span() {
    let toks = tokenize("ab\"cd ef\"gh");
    assert_eq!(texts(&toks), vec!["abcd efgh"]);
}

#[test]
fn tokenize_keeps_empty_quoted_token() {
    let toks = tokenize("echo \"\"");
    assert_eq!(texts(&toks), vec!["echo", ""]);
}

#[test]
fn parse_and_chain_of_three() {
    let stages = parse("a && b && c");
    assert_eq!(stages.len(), 1);
    match &stages[0] {
        Stage::AndChain(cmds) => {
            assert_eq!(cmds.len(), 3);
            assert_eq!(texts(&cmds[0].tokens), vec!["a"]);
            assert_eq!(texts(&cmds[1].tokens), vec!["b"]);
            assert_eq!(texts(&cmds[2].tokens), vec!["c"]);
        }
        _ => panic!("expected an AND-chain"),
    }
}

#[test]
fn parse_pipeline_of_three() {
    let stages = parse("a | b | c");
    assert_eq!(stages.len(), 1);
    match &stages[0] {
        Stage::Pipeline(cmds) => {
            assert_eq!(cmds.len(), 3);
            assert_eq!(texts(&cmds[0].tokens), vec!["a"]);
            assert_eq!(texts(&cmds[1].tokens), vec!["b"]);
            assert_eq!(texts(&cmds[2].tokens), vec!["c"]);
        }
        _ => panic!("expected a pipeline"),
    }
}

#[test]
fn parse_two_lines_gives_two_single_stages() {
    let stages = parse("a\nb");
    assert_eq!(stages.len(), 2);
    match &stages[0] {
        Stage::Single(c) => assert_eq!(texts(&c.tokens), vec!["a"]),
        _ => panic!("expected a single command"),
    }
    match &stages[1] {
        Stage::Single(c) => assert_eq!(texts(&c.tokens), vec!["b"]),
        _ => panic!("expected a single command"),
    }
}

#[test]
fn parse_drops_blank_lines() {
    let stages = parse("a\n\n   \nb\n");
    assert_eq!(stages.len(), 2);
}

#[test]
fn parse_pipe_wins_over_and() {
    // The pipe test comes first; the AND text stays inside the
    // pipeline's segments.
    let stages = parse("a && b | c");
    assert_eq!(stages.len(), 1);
    match &stages[0] {
        Stage::Pipeline(cmds) => {
            assert_eq!(cmds.len(), 2);
            assert_eq!(texts(&cmds[0].tokens), vec!["a", "&&", "b"]);
            assert_eq!(texts(&cmds[1].tokens), vec!["c"]);
        }
        _ => panic!("expected a pipeline"),
    }
}

#[test]
fn parse_drops_empty_chain_segments() {
    let stages = parse("a |  | b");
    assert_eq!(stages.len(), 1);
    match &stages[0] {
        Stage::Pipeline(cmds) => {
            assert_eq!(cmds.len(), 2);
            assert_eq!(texts(&cmds[0].tokens), vec!["a"]);
            assert_eq!(texts(&cmds[1].tokens), vec!["b"]);
        }
        _ => panic!("expected a pipeline"),
    }
}

#[test]
fn parse_single_command_with_arguments() {
    let stages = parse("cargo build --release");
    assert_eq!(stages.len(), 1);
    match &stages[0] {
        Stage::Single(c) => {
            assert_eq!(texts(&c.tokens), vec!["cargo", "build", "--release"]);
        }
        _ => panic!("expected a single command"),
    }
}
