use cgroups_exporter::config::ShellCommandStream;
use cgroups_exporter::shell::{
    broadcast_value, command_output, waiter_outcome, CommandState, Error, ShellEvaluator,
    DEFAULT_CACHE_CAPACITY,
};

fn run_to_success(evaluator: &mut ShellEvaluator, command: &str, output: &str) {
    assert_eq!(evaluator.begin(command), CommandState::NotStarted);
    assert_eq!(evaluator.finish(command, Ok(output.to_string())), Ok(output.trim().to_string()));
}

#[test]
fn error_to_string_gives_the_words_of_each_kind() {
    assert_eq!(Error::TemplateRender("x".to_string()).to_string(), "Failed to prepare shell command: x");
    assert_eq!(Error::Execution("no sh".to_string()).to_string(), "Failed to execute shell command: no sh");
    assert_eq!(
        Error::Wait("boom".to_string()).to_string(),
        "Failed to wait on ongoing shell command execution: boom"
    );
    assert_eq!(Error::Empty.to_string(), "Shell command returned empty result");
    assert_eq!(Error::Exit(2).to_string(), "The command exited with code: 2");
    assert_eq!(Error::Exit(-1).to_string(), "The command exited with code: -1");
    assert_eq!(Error::ShuttingDown.to_string(), "Evaluator shutting down");
}

#[test]
fn command_output_picks_the_stream() {
    assert_eq!(
        command_output(true, Some(0), b"out\n", b"err\n", ShellCommandStream::Stdout),
        Ok("out\n".to_string())
    );
    assert_eq!(
        command_output(true, Some(0), b"out\n", b"err\n", ShellCommandStream::Stderr),
        Ok("err\n".to_string())
    );
}

#[test]
fn command_output_reports_the_exit_code() {
    assert_eq!(command_output(false, Some(3), b"out", b"", ShellCommandStream::Stdout), Err(Error::Exit(3)));
    assert_eq!(command_output(false, None, b"out", b"", ShellCommandStream::Stdout), Err(Error::Exit(-1)));
}

#[test]
fn command_output_replaces_what_is_no_utf8() {
    assert_eq!(
        command_output(true, Some(0), b"a\xffb", b"", ShellCommandStream::Stdout),
        Ok("a\u{fffd}b".to_string())
    );
    assert_eq!(
        command_output(true, Some(0), "gr\u{fc}n".as_bytes(), b"", ShellCommandStream::Stdout),
        Ok("gr\u{fc}n".to_string())
    );
}

#[test]
fn command_runs_once_for_all_who_ask_while_it_runs() {
    let mut evaluator = ShellEvaluator::new(10);
    assert_eq!(evaluator.begin("echo abc"), CommandState::NotStarted);
    assert_eq!(evaluator.begin("echo abc"), CommandState::InProgress);
    assert_eq!(evaluator.begin("echo other"), CommandState::NotStarted);
    assert_eq!(evaluator.begin("echo abc"), CommandState::InProgress);
    assert_eq!(evaluator.finish("echo abc", Ok("abc\n".to_string())), Ok("abc".to_string()));
    assert_eq!(evaluator.begin("echo abc"), CommandState::Completed("abc".to_string()));
    assert_eq!(evaluator.begin("echo abc"), CommandState::Completed("abc".to_string()));
    assert_eq!(evaluator.begin("echo other"), CommandState::InProgress);
}

#[test]
fn output_is_trimmed_before_it_is_remembered() {
    let mut evaluator = ShellEvaluator::new(10);
    assert_eq!(evaluator.begin("c"), CommandState::NotStarted);
    assert_eq!(evaluator.finish("c", Ok("  \t name with space \r\n".to_string())), Ok("name with space".to_string()));
    assert_eq!(evaluator.begin("c"), CommandState::Completed("name with space".to_string()));
}

#[test]
fn failure_is_not_remembered() {
    let mut evaluator = ShellEvaluator::new(10);
    assert_eq!(evaluator.begin("false"), CommandState::NotStarted);
    assert_eq!(evaluator.finish("false", Err(Error::Exit(1))), Err(Error::Exit(1)));
    assert_eq!(evaluator.begin("false"), CommandState::NotStarted);
    assert_eq!(evaluator.finish("false", Err(Error::Execution("gone".to_string()))), Err(Error::Execution("gone".to_string())));
    assert_eq!(evaluator.begin("false"), CommandState::NotStarted);
    assert_eq!(evaluator.finish("false", Ok("now it works\n".to_string())), Ok("now it works".to_string()));
    assert_eq!(evaluator.begin("false"), CommandState::Completed("now it works".to_string()));
}

#[test]
fn empty_output_is_an_error_and_is_not_remembered() {
    let mut evaluator = ShellEvaluator::new(10);
    assert_eq!(evaluator.begin("true"), CommandState::NotStarted);
    assert_eq!(evaluator.finish("true", Ok(" \n\t".to_string())), Err(Error::Empty));
    assert_eq!(evaluator.begin("true"), CommandState::NotStarted);
    assert_eq!(evaluator.finish("true", Ok(String::new())), Err(Error::Empty));
    assert_eq!(evaluator.begin("true"), CommandState::NotStarted);
}

#[test]
fn least_recently_used_output_leaves_a_full_cache() {
    let mut evaluator = ShellEvaluator::new(2);
    run_to_success(&mut evaluator, "a", "1");
    run_to_success(&mut evaluator, "b", "2");
    assert_eq!(evaluator.begin("a"), CommandState::Completed("1".to_string()));
    run_to_success(&mut evaluator, "c", "3");
    assert_eq!(evaluator.begin("a"), CommandState::Completed("1".to_string()));
    assert_eq!(evaluator.begin("c"), CommandState::Completed("3".to_string()));
    assert_eq!(evaluator.begin("b"), CommandState::NotStarted);
}

#[test]
fn remembered_output_is_replaced_by_a_newer_one() {
    let mut evaluator = ShellEvaluator::new(2);
    run_to_success(&mut evaluator, "a", "1");
    assert_eq!(evaluator.finish("a", Ok("2".to_string())), Ok("2".to_string()));
    assert_eq!(evaluator.begin("a"), CommandState::Completed("2".to_string()));
    run_to_success(&mut evaluator, "b", "x");
    assert_eq!(evaluator.begin("a"), CommandState::Completed("2".to_string()));
    assert_eq!(evaluator.begin("b"), CommandState::Completed("x".to_string()));
}

#[test]
fn cache_capacity_zero_is_one_hundred() {
    assert_eq!(DEFAULT_CACHE_CAPACITY, 100);
    let mut evaluator = ShellEvaluator::new(0);
    for i in 0..100 {
        run_to_success(&mut evaluator, &format!("command {}", i), &format!("output {}", i));
    }
    assert_eq!(evaluator.begin("command 0"), CommandState::Completed("output 0".to_string()));
    run_to_success(&mut evaluator, "command 100", "output 100");
    assert_eq!(evaluator.begin("command 0"), CommandState::Completed("output 0".to_string()));
    assert_eq!(evaluator.begin("command 100"), CommandState::Completed("output 100".to_string()));
    assert_eq!(evaluator.begin("command 1"), CommandState::NotStarted);
}

#[test]
fn cache_capacity_one_holds_one_output() {
    let mut evaluator = ShellEvaluator::new(1);
    run_to_success(&mut evaluator, "a", "1");
    run_to_success(&mut evaluator, "b", "2");
    assert_eq!(evaluator.begin("b"), CommandState::Completed("2".to_string()));
    assert_eq!(evaluator.begin("a"), CommandState::NotStarted);
}

#[test]
fn waiters_see_what_the_runner_saw() {
    let success: Result<String, Error> = Ok("abc".to_string());
    assert_eq!(broadcast_value(&success), Ok("abc".to_string()));
    assert_eq!(waiter_outcome(Some(broadcast_value(&success))), Ok("abc".to_string()));

    let failure: Result<String, Error> = Err(Error::Exit(7));
    assert_eq!(broadcast_value(&failure), Err("The command exited with code: 7".to_string()));
    assert_eq!(
        waiter_outcome(Some(broadcast_value(&failure))),
        Err(Error::Wait("The command exited with code: 7".to_string()))
    );
    assert_eq!(waiter_outcome(None), Err(Error::ShuttingDown));
}
