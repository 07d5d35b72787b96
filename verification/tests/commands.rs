use deployer_core::command::{apply_replacement_set, CustomCommand};
use deployer_core::variables::Variable;

fn plain_command(bash_c: &str) -> CustomCommand {
    CustomCommand {
        bash_c: bash_c.to_string(),
        placeholders: None,
        replacements: None,
        ignore_fails: false,
        show_success_output: false,
        show_bash_c: true,
        only_when_fresh: None,
    }
}

#[test]
fn invocations_without_replacements_is_the_raw_command() {
    let cmd = plain_command("cargo build --release");
    assert_eq!(cmd.invocations(), vec!["cargo build --release"]);
}

#[test]
fn invocations_fan_out_over_replacement_sets_in_order() {
    let mut cmd = plain_command("echo X");
    cmd.placeholders = Some(vec!["X".to_string()]);
    cmd.replacements = Some(vec![
        vec![("X".to_string(), Variable::new_plain("X", "a"))],
        vec![("X".to_string(), Variable::new_plain("X", "b"))],
    ]);
    assert_eq!(cmd.invocations(), vec!["echo a", "echo b"]);
}

#[test]
fn invocations_with_empty_replacement_list_run_nothing() {
    let mut cmd = plain_command("echo X");
    cmd.placeholders = Some(vec!["X".to_string()]);
    cmd.replacements = Some(vec![]);
    assert_eq!(cmd.invocations(), Vec::<String>::new());
}

#[test]
fn invocations_without_placeholders_ignore_replacements() {
    let mut cmd = plain_command("echo X");
    cmd.replacements = Some(vec![vec![("X".to_string(), Variable::new_plain("X", "a"))]]);
    assert_eq!(cmd.invocations(), vec!["echo X"]);
}

#[test]
fn apply_set_substitutes_each_pair_in_order() {
    let set = vec![
        ("<in>".to_string(), Variable::new_plain("input", "src.c")),
        ("<out>".to_string(), Variable::new_plain("output", "a.out")),
    ];
    assert_eq!(apply_replacement_set("gcc <in> -o <out>", &set), "gcc src.c -o a.out");
}

#[test]
fn unspecified_command_defaults() {
    let cmd = CustomCommand::new_from_prompt_unspecified("ls".to_string(), vec![]);
    assert!(cmd.ignore_fails);
    assert!(cmd.show_success_output);
    assert!(!cmd.show_bash_c);
    assert_eq!(cmd.only_when_fresh, Some(false));
    assert!(cmd.placeholders.is_none());
    assert!(cmd.replacements.is_none());
}

#[test]
fn unspecified_command_keeps_nonempty_placeholders() {
    let cmd =
        CustomCommand::new_from_prompt_unspecified("ls X".to_string(), vec!["X".to_string()]);
    assert_eq!(cmd.placeholders, Some(vec!["X".to_string()]));
}

#[test]
fn secret_variable_forces_command_hidden() {
    let mut var = Variable::new_plain("DEPLOY_KEY", "SECRET-REDACTED");
    var.is_secret = true;
    let cmd = plain_command("deploy K");
    assert!(cmd.show_bash_c);
    let bound = cmd.with_replacements(vec![vec![("K".to_string(), var)]]);
    assert!(!bound.show_bash_c);
}

#[test]
fn nonsecret_variable_keeps_command_visible() {
    let var = Variable::new_plain("NAME", "world");
    let cmd = plain_command("echo N");
    let bound = cmd.with_replacements(vec![vec![("N".to_string(), var)]]);
    assert!(bound.show_bash_c);
}

#[test]
fn hidden_stays_hidden_with_nonsecret_variable() {
    let var = Variable::new_plain("NAME", "world");
    let mut cmd = plain_command("echo N");
    cmd.show_bash_c = false;
    let bound = cmd.with_replacements(vec![vec![("N".to_string(), var)]]);
    assert!(!bound.show_bash_c);
}

#[test]
fn command_equality_is_structural() {
    let a = plain_command("ls");
    let b = plain_command("ls");
    let c = plain_command("pwd");
    assert!(a.eq(&b));
    assert!(!a.eq(&c));
    let mut d = plain_command("ls");
    d.ignore_fails = true;
    assert!(!a.eq(&d));
}
