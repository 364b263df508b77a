use gpt_commit::executor::{Directive, ExecEvent, ExecutionResult, Executor};
use gpt_commit::parser::parse;

#[test]
fn empty_input_is_immediate_success() {
    let m = Executor::new(parse(""));
    assert_eq!(
        m.directive(),
        Directive::Finished { result: ExecutionResult::Success }
    );
}

#[test]
fn single_command_success() {
    let mut m = Executor::new(parse("true"));
    assert_eq!(m.directive(), Directive::RunOne { stage: 0, command: 0 });
    m.step(ExecEvent::Exited { success: true });
    assert_eq!(
        m.directive(),
        Directive::Finished { result: ExecutionResult::Success }
    );
}

#[test]
fn and_chain_failure_never_reaches_second_command() {
    // The scenario behind the marker-file check: once the first
    // command of an AND-chain fails, the machine is finished and never
    // directs the spawn of the second.
    let mut m = Executor::new(parse("false && touch marker"));
    assert_eq!(m.directive(), Directive::RunOne { stage: 0, command: 0 });
    m.step(ExecEvent::Exited { success: false });
    assert_eq!(
        m.directive(),
        Directive::Finished { result: ExecutionResult::ExitFailure { stage: 0, command: 0 } }
    );
}

#[test]
fn and_chain_runs_left_to_right_on_success() {
    let mut m = Executor::new(parse("a && b && c"));
    assert_eq!(m.directive(), Directive::RunOne { stage: 0, command: 0 });
    m.step(ExecEvent::Exited { success: true });
    assert_eq!(m.directive(), Directive::RunOne { stage: 0, command: 1 });
    m.step(ExecEvent::Exited { success: true });
    assert_eq!(m.directive(), Directive::RunOne { stage: 0, command: 2 });
    m.step(ExecEvent::Exited { success: true });
    assert_eq!(
        m.directive(),
        Directive::Finished { result: ExecutionResult::Success }
    );
}

#[test]
fn and_chain_middle_failure_reports_its_position() {
    let mut m = Executor::new(parse("a && b && c"));
    m.step(ExecEvent::Exited { success: true });
    m.step(ExecEvent::Exited { success: false });
    assert_eq!(
        m.directive(),
        Directive::Finished { result: ExecutionResult::ExitFailure { stage: 0, command: 1 } }
    );
}

#[test]
fn pipeline_wiring_connects_stdout_to_stdin() {
    // `echo hello | wc -c`: the first member writes into the pipe and
    // the second reads from it; after both are spawned everything is
    // awaited and the last member's status decides.
    let mut m = Executor::new(parse("echo hello | wc -c"));
    assert_eq!(
        m.directive(),
        Directive::SpawnPiped { stage: 0, command: 0, read_prev: false, write_next: true }
    );
    assert_eq!(m.command_strings(0, 0), vec!["echo", "hello"]);
    m.step(ExecEvent::Spawned);
    assert_eq!(
        m.directive(),
        Directive::SpawnPiped { stage: 0, command: 1, read_prev: true, write_next: false }
    );
    assert_eq!(m.command_strings(0, 1), vec!["wc", "-c"]);
    m.step(ExecEvent::Spawned);
    assert_eq!(m.directive(), Directive::AwaitPipeline { stage: 0 });
    m.step(ExecEvent::PipelineDone { success: true });
    assert_eq!(
        m.directive(),
        Directive::Finished { result: ExecutionResult::Success }
    );
}

#[test]
fn pipeline_middle_member_reads_and_writes() {
    let mut m = Executor::new(parse("a | b | c"));
    m.step(ExecEvent::Spawned);
    assert_eq!(
        m.directive(),
        Directive::SpawnPiped { stage: 0, command: 1, read_prev: true, write_next: true }
    );
}

#[test]
fn pipeline_failure_reports_last_member() {
    let mut m = Executor::new(parse("a | b"));
    m.step(ExecEvent::Spawned);
    m.step(ExecEvent::Spawned);
    m.step(ExecEvent::PipelineDone { success: false });
    assert_eq!(
        m.directive(),
        Directive::Finished { result: ExecutionResult::ExitFailure { stage: 0, command: 1 } }
    );
}

#[test]
fn spawn_failure_halts_the_sequence() {
    let mut m = Executor::new(parse("nosuchprogram\necho after"));
    assert_eq!(m.directive(), Directive::RunOne { stage: 0, command: 0 });
    m.step(ExecEvent::SpawnFailed);
    assert_eq!(
        m.directive(),
        Directive::Finished { result: ExecutionResult::SpawnFailure { stage: 0, command: 0 } }
    );
}

#[test]
fn stages_run_in_order() {
    let mut m = Executor::new(parse("a\nb"));
    assert_eq!(m.directive(), Directive::RunOne { stage: 0, command: 0 });
    m.step(ExecEvent::Exited { success: true });
    assert_eq!(m.directive(), Directive::RunOne { stage: 1, command: 0 });
    m.step(ExecEvent::Exited { success: true });
    assert_eq!(
        m.directive(),
        Directive::Finished { result: ExecutionResult::Success }
    );
}

#[test]
fn failed_stage_halts_later_stages() {
    let mut m = Executor::new(parse("a\nb"));
    m.step(ExecEvent::Exited { success: false });
    assert_eq!(
        m.directive(),
        Directive::Finished { result: ExecutionResult::ExitFailure { stage: 0, command: 0 } }
    );
}

#[test]
fn command_strings_keep_quoted_argument_whole() {
    // The quoted multi-word argument reaches the spawned process as
    // one argument, not re-split on whitespace.
    let m = Executor::new(parse("git commit -m \"fix: the bug\""));
    assert_eq!(m.stage_count(), 1);
    assert_eq!(m.command_count(0), 1);
    assert_eq!(
        m.command_strings(0, 0),
        vec!["git", "commit", "-m", "fix: the bug"]
    );
}
