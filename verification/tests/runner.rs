use deployer_core::command::CustomCommand;
use deployer_core::environment::BuildEnvironment;
use deployer_core::runner::{compose_output, shell_or_default, CommandRun, ProcessOutcome};
use deployer_core::variables::Variable;

fn env(new_build: bool) -> BuildEnvironment {
    BuildEnvironment {
        build_dir: "/tmp/build".to_string(),
        cache_dir: "/tmp/cache".to_string(),
        artifacts_dir: "/tmp/artifacts".to_string(),
        new_build,
        silent_build: false,
        no_pipe: false,
    }
}

fn command(bash_c: &str, ignore_fails: bool) -> CustomCommand {
    CustomCommand {
        bash_c: bash_c.to_string(),
        placeholders: None,
        replacements: None,
        ignore_fails,
        show_success_output: false,
        show_bash_c: true,
        only_when_fresh: None,
    }
}

fn ok_outcome() -> ProcessOutcome {
    ProcessOutcome { success: true, stdout: String::new(), stderr: String::new() }
}

fn failed_outcome() -> ProcessOutcome {
    ProcessOutcome { success: false, stdout: String::new(), stderr: String::new() }
}

#[test]
fn failing_process_without_ignore_fails_stops_the_run() {
    let cmd = command("false", false);
    let mut run = CommandRun::start(&cmd, &env(true), "/bin/bash", None);
    assert!(!run.done());
    run.absorb(failed_outcome());
    assert!(run.done());
    let (success, _) = run.result();
    assert!(!success);
}

#[test]
fn failing_process_with_ignore_fails_continues() {
    let cmd = command("false", true);
    let mut run = CommandRun::start(&cmd, &env(true), "/bin/bash", None);
    run.absorb(failed_outcome());
    assert!(run.done());
    let (success, _) = run.result();
    assert!(success);
}

#[test]
fn only_when_fresh_skips_on_reused_build() {
    let mut cmd = command("make slow-setup", false);
    cmd.only_when_fresh = Some(true);
    let run = CommandRun::start(&cmd, &env(false), "/bin/bash", None);
    assert!(run.done());
    let (success, output) = run.result();
    assert!(success);
    assert_eq!(output, vec!["Skip a command due to not a fresh build..."]);
}

#[test]
fn only_when_fresh_runs_on_fresh_build() {
    let mut cmd = command("make slow-setup", false);
    cmd.only_when_fresh = Some(true);
    let run = CommandRun::start(&cmd, &env(true), "/bin/bash", None);
    assert!(!run.done());
    assert_eq!(run.current(), "make slow-setup");
}

#[test]
fn replacement_sets_spawn_once_each_in_list_order() {
    let mut cmd = command("echo X", false);
    cmd.placeholders = Some(vec!["X".to_string()]);
    cmd.replacements = Some(vec![
        vec![("X".to_string(), Variable::new_plain("X", "a"))],
        vec![("X".to_string(), Variable::new_plain("X", "b"))],
    ]);
    let mut run = CommandRun::start(&cmd, &env(true), "/bin/bash", None);
    let mut spawned: Vec<String> = Vec::new();
    while !run.done() {
        spawned.push(run.current().clone());
        run.absorb(ok_outcome());
    }
    assert_eq!(spawned, vec!["echo a", "echo b"]);
    let (success, _) = run.result();
    assert!(success);
}

#[test]
fn failed_substitution_stops_later_sets() {
    let mut cmd = command("run X", false);
    cmd.placeholders = Some(vec!["X".to_string()]);
    cmd.replacements = Some(vec![
        vec![("X".to_string(), Variable::new_plain("X", "first"))],
        vec![("X".to_string(), Variable::new_plain("X", "second"))],
    ]);
    let mut run = CommandRun::start(&cmd, &env(true), "/bin/bash", None);
    assert_eq!(run.current(), "run first");
    run.absorb(failed_outcome());
    assert!(run.done());
    let (success, _) = run.result();
    assert!(!success);
}

#[test]
fn quiet_success_composes_no_output() {
    let lines = compose_output("sh -c \"ls\"", "file\n", "", true, false, true, None);
    assert_eq!(lines, Vec::<String>::new());
}

#[test]
fn shown_success_output_has_header_and_lines() {
    let lines = compose_output("sh -c \"ls\"", "a\nb\n", "", true, true, true, None);
    assert_eq!(lines, vec!["Executing `sh -c \"ls\"`:", ">>> a", ">>> b"]);
}

#[test]
fn hidden_command_uses_generic_header() {
    let lines = compose_output("sh -c \"deploy\"", "done\n", "", true, true, false, None);
    assert_eq!(lines, vec!["Executing the command:", ">>> done"]);
}

#[test]
fn failure_marks_errors_before_stderr() {
    let lines = compose_output("sh -c \"x\"", "out\n", "oops\n", false, false, true, None);
    assert_eq!(
        lines,
        vec!["Executing `sh -c \"x\"`:", ">>> out", "Errors:", ">>> oops"]
    );
}

#[test]
fn blank_streams_compose_nothing() {
    let lines = compose_output("sh -c \"x\"", " \n", "\t", false, true, true, None);
    assert_eq!(lines, Vec::<String>::new());
}

#[test]
fn trim_keeps_most_recent_lines_on_failure() {
    let lines = compose_output("sh -c \"x\"", "a\nb\n", "e\n", false, false, true, Some(2));
    assert_eq!(lines, vec!["Errors:", ">>> e"]);
}

#[test]
fn trim_does_not_apply_on_success() {
    let lines = compose_output("sh -c \"x\"", "a\nb\n", "", true, true, true, Some(1));
    assert_eq!(lines, vec!["Executing `sh -c \"x\"`:", ">>> a", ">>> b"]);
}

#[test]
fn no_pipe_keeps_no_output() {
    let cmd = command("top", false);
    let mut e = env(true);
    e.no_pipe = true;
    let mut run = CommandRun::start(&cmd, &e, "/bin/bash", None);
    run.absorb(ProcessOutcome {
        success: true,
        stdout: "ignored".to_string(),
        stderr: String::new(),
    });
    let (success, output) = run.result();
    assert!(success);
    assert_eq!(output, Vec::<String>::new());
}

#[test]
fn shell_override_wins_over_the_default() {
    assert_eq!(shell_or_default(Some("/bin/zsh".to_string())), "/bin/zsh");
    assert_eq!(shell_or_default(None), "/bin/bash");
}

#[test]
fn stdout_without_trailing_newline_keeps_last_line() {
    let lines = compose_output("sh -c \"x\"", "a\nb", "", true, true, true, None);
    assert_eq!(lines, vec!["Executing `sh -c \"x\"`:", ">>> a", ">>> b"]);
}

#[test]
fn trailing_blank_line_is_dropped() {
    let lines = compose_output("sh -c \"x\"", "a\n   ", "", true, true, true, None);
    assert_eq!(lines, vec!["Executing `sh -c \"x\"`:", ">>> a"]);
}
