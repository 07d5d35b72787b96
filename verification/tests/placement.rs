use deployer_core::enplace::{enplace_decision, enplace_ignore_list, enplace_source, EnplaceStep};

#[test]
fn present_artifact_is_copied_to_its_destination() {
    let step =
        enplace_decision("/tmp/build", "/proj/artifacts", "out/bin", "release/bin", true, true);
    match step {
        EnplaceStep::CopyTo { src, dst } => {
            assert_eq!(src, "/tmp/build/out/bin");
            assert_eq!(dst, "/proj/artifacts/release/bin");
        },
        _ => panic!("a present artifact must be copied"),
    }
}

#[test]
fn missing_artifact_fails_the_mandatory_pass() {
    let step = enplace_decision("/tmp/build", "/proj/artifacts", "out/bin", "bin", false, true);
    assert!(matches!(step, EnplaceStep::FailMissing));
}

#[test]
fn missing_artifact_is_skipped_in_the_best_effort_pass() {
    let step = enplace_decision("/tmp/build", "/proj/artifacts", "out/bin", "bin", false, false);
    assert!(matches!(step, EnplaceStep::SkipMissing));
}

#[test]
fn source_is_resolved_under_the_build_dir() {
    assert_eq!(enplace_source("/tmp/build", "out/bin"), "/tmp/build/out/bin");
}

#[test]
fn enplace_ignores_artifacts_dir_and_cache_entries() {
    let cache = vec!["Cargo.lock".to_string()];
    assert_eq!(enplace_ignore_list(&cache), vec!["artifacts", "Cargo.lock"]);
}
