use deployer_core::builds::{
    choose_build_folder, copy_ignore_list, is_new_build, minted_build_folder,
    take_project_build_folders, BuildStats, Builds, ProjectBuilds,
};
use deployer_core::info::Info;
use deployer_core::pipelines::DescribedPipeline;

fn pipeline(tag: Option<&str>) -> DescribedPipeline {
    DescribedPipeline {
        title: "release".to_string(),
        desc: String::new(),
        info: Info { short_name: "rel".to_string(), version: "0.1".to_string() },
        tags: vec![],
        actions: vec![],
        default: None,
        exclusive_exec_tag: tag.map(|s| s.to_string()),
    }
}

#[test]
fn second_build_reuses_the_recorded_directory() {
    let mut builds = Builds { projects: vec![] };
    let first =
        choose_build_folder(&mut builds, "app", &pipeline(None), false, "/cache/m1".to_string());
    assert_eq!(first, "/cache/m1");
    let second =
        choose_build_folder(&mut builds, "app", &pipeline(None), false, "/cache/m2".to_string());
    assert_eq!(second, "/cache/m1");
}

#[test]
fn fresh_build_mints_a_distinct_directory() {
    let mut builds = Builds { projects: vec![] };
    let first =
        choose_build_folder(&mut builds, "app", &pipeline(None), false, "/cache/m1".to_string());
    let second =
        choose_build_folder(&mut builds, "app", &pipeline(None), true, "/cache/m2".to_string());
    assert_eq!(first, "/cache/m1");
    assert_eq!(second, "/cache/m2");
    assert_ne!(first, second);
}

#[test]
fn exclusive_tags_partition_reuse() {
    let mut builds = Builds { projects: vec![] };
    let plain =
        choose_build_folder(&mut builds, "app", &pipeline(None), false, "/cache/m1".to_string());
    let tagged = choose_build_folder(
        &mut builds,
        "app",
        &pipeline(Some("docker")),
        false,
        "/cache/m2".to_string(),
    );
    assert_eq!(plain, "/cache/m1");
    assert_eq!(tagged, "/cache/m2");
    let tagged_again = choose_build_folder(
        &mut builds,
        "app",
        &pipeline(Some("docker")),
        false,
        "/cache/m3".to_string(),
    );
    assert_eq!(tagged_again, "/cache/m2");
}

#[test]
fn works_with_matches_equal_tags_or_both_absent() {
    let untagged = BuildStats { exclusive_tag: None, folder: "f".to_string() };
    let tagged = BuildStats { exclusive_tag: Some("docker".to_string()), folder: "f".to_string() };
    assert!(untagged.works_with(&pipeline(None)));
    assert!(!untagged.works_with(&pipeline(Some("docker"))));
    assert!(tagged.works_with(&pipeline(Some("docker"))));
    assert!(!tagged.works_with(&pipeline(Some("podman"))));
    assert!(!tagged.works_with(&pipeline(None)));
}

#[test]
fn projects_are_tracked_separately() {
    let mut builds = Builds { projects: vec![] };
    let a = choose_build_folder(&mut builds, "a", &pipeline(None), false, "/cache/a1".to_string());
    let b = choose_build_folder(&mut builds, "b", &pipeline(None), false, "/cache/b1".to_string());
    assert_eq!(a, "/cache/a1");
    assert_eq!(b, "/cache/b1");
    let a_again =
        choose_build_folder(&mut builds, "a", &pipeline(None), false, "/cache/a2".to_string());
    assert_eq!(a_again, "/cache/a1");
}

#[test]
fn new_build_rule() {
    assert!(is_new_build(false, false));
    assert!(is_new_build(false, true));
    assert!(is_new_build(true, true));
    assert!(!is_new_build(true, false));
}

#[test]
fn minted_folder_lives_under_the_cache_subdir() {
    assert_eq!(
        minted_build_folder("/home/u/.cache", "1234-abcd"),
        "/home/u/.cache/deploy-cache/deploy-build-1234-abcd"
    );
}

#[test]
fn copy_ignore_covers_artifacts_build_dir_and_cache_entries() {
    let cache = vec![".git".to_string(), "target".to_string()];
    assert_eq!(
        copy_ignore_list("deploy-build-77", &cache),
        vec!["artifacts", "deploy-build-77", ".git", "target"]
    );
}

#[test]
fn clean_takes_the_recorded_folders_and_empties_the_entry() {
    let mut builds = Builds {
        projects: vec![ProjectBuilds {
            name: "app".to_string(),
            builds: vec![
                BuildStats { exclusive_tag: None, folder: "/cache/b1".to_string() },
                BuildStats { exclusive_tag: None, folder: "/cache/b2".to_string() },
            ],
        }],
    };
    let folders = take_project_build_folders(&mut builds, "app");
    assert_eq!(folders, vec!["/cache/b1", "/cache/b2"]);
    assert_eq!(builds.projects.len(), 1);
    assert!(builds.projects[0].builds.is_empty());
    let nothing = take_project_build_folders(&mut builds, "other");
    assert_eq!(nothing, Vec::<String>::new());
}
