use deployer_core::check::CheckAction;
use deployer_core::command::CustomCommand;

fn check_command() -> CustomCommand {
    CustomCommand {
        bash_c: "systemctl status app".to_string(),
        placeholders: None,
        replacements: None,
        ignore_fails: true,
        show_success_output: true,
        show_bash_c: false,
        only_when_fresh: None,
    }
}

fn check(found: Option<&str>, not_found: Option<&str>) -> CheckAction {
    CheckAction {
        command: check_command(),
        success_when_found: found.map(|s| s.to_string()),
        success_when_not_found: not_found.map(|s| s.to_string()),
    }
}

#[test]
fn found_pattern_succeeds_on_matching_output() {
    let c = check(Some("OK"), None);
    let (verdict, notes) = c.evaluate(&vec!["status: OK".to_string()]);
    assert!(verdict);
    assert_eq!(notes, vec!["Pattern `OK` found!"]);
}

#[test]
fn found_pattern_fails_on_other_output() {
    let c = check(Some("OK"), None);
    let (verdict, notes) = c.evaluate(&vec!["status: FAIL".to_string()]);
    assert!(!verdict);
    assert_eq!(notes, vec!["Pattern `OK` not found!"]);
}

#[test]
fn not_found_pattern_fails_when_present() {
    let c = check(None, Some("error"));
    let (verdict, notes) = c.evaluate(&vec!["an error occurred".to_string()]);
    assert!(!verdict);
    assert_eq!(notes, vec!["Pattern `error` found!"]);
}

#[test]
fn not_found_pattern_succeeds_when_absent() {
    let c = check(None, Some("error"));
    let (verdict, notes) = c.evaluate(&vec!["all good".to_string()]);
    assert!(verdict);
    assert_eq!(notes, vec!["Pattern `error` not found!"]);
}

#[test]
fn both_conditions_judge_the_same_text() {
    let c = check(Some("listening"), Some("panic"));
    let (verdict, _) = c.evaluate(&vec!["listening on 8080".to_string()]);
    assert!(verdict);
    let (verdict, _) = c.evaluate(&vec!["listening then panic".to_string()]);
    assert!(!verdict);
}

#[test]
fn failed_first_condition_skips_the_second() {
    let c = check(Some("OK"), Some("OK"));
    let (verdict, notes) = c.evaluate(&vec!["nothing here".to_string()]);
    assert!(!verdict);
    assert_eq!(notes, vec!["Pattern `OK` not found!"]);
}

#[test]
fn no_conditions_succeed_vacuously() {
    let c = check(None, None);
    let (verdict, notes) = c.evaluate(&vec!["anything".to_string()]);
    assert!(verdict);
    assert_eq!(notes, Vec::<String>::new());
}

#[test]
fn evaluation_is_idempotent_on_identical_output() {
    let c = check(Some("deployed"), Some("rollback"));
    let output = vec!["release deployed".to_string(), "cleanup done".to_string()];
    let (first, first_notes) = c.evaluate(&output);
    let (second, second_notes) = c.evaluate(&output);
    assert_eq!(first, second);
    assert_eq!(first_notes, second_notes);
}

#[test]
fn regex_matches_across_joined_lines() {
    let c = check(Some("a.b"), None);
    let (verdict, _) = c.evaluate(&vec!["xaxbx".to_string()]);
    assert!(verdict);
    // The join separator is a newline, which `.` does not cross.
    let (verdict, _) = c.evaluate(&vec!["a".to_string(), "b".to_string()]);
    assert!(!verdict);
}

#[test]
fn check_equality_compares_patterns_and_command() {
    let a = check(Some("OK"), None);
    let b = check(Some("OK"), None);
    let c = check(Some("KO"), None);
    let d = check(Some("OK"), Some("err"));
    assert!(a.eq(&b));
    assert!(!a.eq(&c));
    assert!(!a.eq(&d));
}
