use deployer_core::flags::{validate_build_flags, BuildFlagsError};
use deployer_core::info::{info2str_simple, str2info, Info};
use deployer_core::langs::{collect_multiple_languages, ProgrammingLanguage};
use deployer_core::pipelines::{find_default_pipeline, find_pipeline_by_title, DescribedPipeline};
use deployer_core::targets::{OsVariant, OsVersionSpecification, TargetDescription};
use deployer_core::variables::{find_var, is_secret_var, var_titles, VarValue, Variable};

#[test]
fn info_renders_as_name_at_version() {
    let info = Info { short_name: "cargo-rel".to_string(), version: "0.1".to_string() };
    assert_eq!(info2str_simple(&info), "cargo-rel@0.1");
}

#[test]
fn info_round_trips_through_its_text_form() {
    let info = Info { short_name: "build".to_string(), version: "2.3".to_string() };
    let parsed = str2info(&info2str_simple(&info)).expect("well-formed info text");
    assert_eq!(parsed.short_name, "build");
    assert_eq!(parsed.version, "2.3");
}

#[test]
fn info_text_without_at_sign_is_rejected() {
    assert!(str2info("noversion").is_none());
}

#[test]
fn info_text_takes_the_first_two_fields() {
    let parsed = str2info("a@b@c").expect("parses");
    assert_eq!(parsed.short_name, "a");
    assert_eq!(parsed.version, "b");
}

#[test]
fn info_text_with_trailing_at_has_empty_version() {
    let parsed = str2info("tool@").expect("parses");
    assert_eq!(parsed.short_name, "tool");
    assert_eq!(parsed.version, "");
}

#[test]
fn language_names_round_trip() {
    assert_eq!(ProgrammingLanguage::from_name("Rust").name(), "Rust");
    assert_eq!(ProgrammingLanguage::from_name("C++").name(), "C++");
    assert_eq!(ProgrammingLanguage::from_name("Zig").name(), "Zig");
}

#[test]
fn collecting_languages_keeps_only_custom_names() {
    let collected = collect_multiple_languages(vec![
        "Rust".to_string(),
        "Zig".to_string(),
        "Python".to_string(),
        "Haskell".to_string(),
    ]);
    let names: Vec<String> = collected.iter().map(|l| l.name()).collect();
    assert_eq!(names, vec!["Zig", "Haskell"]);
    assert!(collected.iter().all(|l| matches!(l, ProgrammingLanguage::Other(_))));
}

#[test]
fn variables_are_found_by_title() {
    let vars = vec![Variable::new_plain("HOST", "example.org"), Variable::new_plain("PORT", "80")];
    let port = find_var(&vars, "PORT").expect("PORT exists");
    assert_eq!(port.get_value(), "80");
    assert!(find_var(&vars, "USER").is_none());
}

#[test]
fn secretness_is_looked_up_by_title() {
    let mut key = Variable::new_plain("KEY", "SECRET-REDACTED");
    key.is_secret = true;
    let vars = vec![Variable::new_plain("HOST", "example.org"), key];
    assert!(is_secret_var(&vars, "KEY"));
    assert!(!is_secret_var(&vars, "HOST"));
    assert!(!is_secret_var(&vars, "MISSING"));
}

#[test]
fn titles_come_back_in_order() {
    let vars = vec![Variable::new_plain("A", "1"), Variable::new_plain("B", "2")];
    assert_eq!(var_titles(&vars), vec!["A", "B"]);
}

#[test]
fn variable_value_is_its_plain_content() {
    let v = Variable::new_plain("NAME", "world");
    assert!(matches!(v.value, VarValue::Plain(_)));
    assert_eq!(v.get_value(), "world");
}

#[test]
fn target_renders_all_parts() {
    let t = TargetDescription {
        arch: "x86_64".to_string(),
        os: OsVariant::Linux,
        derivative: "debian".to_string(),
        version: OsVersionSpecification::No,
    };
    assert_eq!(t.render(), "x86_64/linux@debian@any");
}

#[test]
fn target_renders_unix_like_and_weak_version() {
    let t = TargetDescription {
        arch: "aarch64".to_string(),
        os: OsVariant::UnixLike("freebsd".to_string()),
        derivative: "stock".to_string(),
        version: OsVersionSpecification::Weak("14".to_string()),
    };
    assert_eq!(t.render(), "aarch64/unix-freebsd@stock@^14");
}

#[test]
fn conflicting_cache_flags_are_rejected_first() {
    assert_eq!(
        validate_build_flags(true, true, true, true, false, true, true),
        Err(BuildFlagsError::LinkAndCopyCache)
    );
}

#[test]
fn current_excludes_other_build_options() {
    assert_eq!(
        validate_build_flags(true, true, false, false, false, false, false),
        Err(BuildFlagsError::CurrentWithBuildOptions)
    );
    assert_eq!(
        validate_build_flags(true, false, false, false, true, false, false),
        Err(BuildFlagsError::CurrentWithBuildOptions)
    );
}

#[test]
fn silent_excludes_no_pipe() {
    assert_eq!(
        validate_build_flags(false, false, false, false, false, true, true),
        Err(BuildFlagsError::SilentWithNoPipe)
    );
}

#[test]
fn compatible_flags_pass() {
    assert_eq!(validate_build_flags(false, true, true, false, false, true, false), Ok(()));
    assert_eq!(validate_build_flags(true, false, false, false, false, false, true), Ok(()));
}

fn pipeline(title: &str, default: Option<bool>) -> DescribedPipeline {
    DescribedPipeline {
        title: title.to_string(),
        desc: String::new(),
        info: Info { short_name: title.to_string(), version: "0.1".to_string() },
        tags: vec![],
        actions: vec![],
        default,
        exclusive_exec_tag: None,
    }
}

#[test]
fn default_pipeline_is_the_first_marked_one() {
    let ps = vec![pipeline("a", None), pipeline("b", Some(true)), pipeline("c", Some(true))];
    assert_eq!(find_default_pipeline(&ps), Some(1));
    let none = vec![pipeline("a", Some(false)), pipeline("b", None)];
    assert_eq!(find_default_pipeline(&none), None);
}

#[test]
fn pipelines_are_selected_by_title() {
    let ps = vec![pipeline("build", None), pipeline("deploy", None)];
    assert_eq!(find_pipeline_by_title(&ps, "deploy"), Some(1));
    assert_eq!(find_pipeline_by_title(&ps, "test"), None);
}
