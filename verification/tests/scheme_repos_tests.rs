use tinty::config::{Config, SchemeRepoConfig, SchemesConfig};
use tinty::scheme_repos::{
    builtin_schemes_repo_path, collect_merged_schemes, conflict_warning, extra_repo_path, legacy_schemes_repo_path,
    migrate_legacy_schemes_repo, scheme_repo_refs, RepoSchemes, SchemeConflict,
};

fn cfg(extras: &[&str]) -> Config {
    Config {
        shell: None,
        default_scheme: None,
        preferred_schemes: None,
        rings: None,
        default_cycle_ring: None,
        items: None,
        hooks: None,
        schemes: SchemesConfig {
            allow_dirty_update: false,
            path: None,
            revision: None,
            extras: extras
                .iter()
                .map(|n| SchemeRepoConfig {
                    name: n.to_string(),
                    path: format!("https://example.com/{n}"),
                    revision: None,
                    allow_dirty_update: false,
                })
                .collect(),
        },
    }
}

fn repo(name: &str, present: bool, keys: &[&str]) -> RepoSchemes {
    RepoSchemes { name: name.to_string(), present, keys: keys.iter().map(|k| k.to_string()).collect() }
}

#[test]
fn refs_put_builtin_first_then_extras_in_order() {
    let config = cfg(&["a", "b"]);
    let refs = scheme_repo_refs("/data", &config);
    let names: Vec<&str> = refs.iter().map(|r| r.name.as_str()).collect();
    assert_eq!(names, vec!["schemes", "a", "b"]);
    assert_eq!(refs[1].path, "/data/scheme-repos/a");
    assert_eq!(refs[0].path, "/data/scheme-repos/schemes");
}

#[test]
fn migration_is_noop_when_nothing_at_legacy_location() {
    let result = migrate_legacy_schemes_repo("/tmp/data", false, false);
    assert!(result.is_none());
}

#[test]
fn migration_moves_legacy_clone_to_new_location() {
    let plan = migrate_legacy_schemes_repo("/tmp/data", true, false).expect("expected a migration");
    assert_eq!(plan.from, legacy_schemes_repo_path("/tmp/data"));
    assert_eq!(plan.to, builtin_schemes_repo_path("/tmp/data"));
    assert_eq!(plan.create_dir, "/tmp/data/scheme-repos");
    assert!(plan.message.contains("/tmp/data/repos/schemes  ->  /tmp/data/scheme-repos/schemes"));
}

#[test]
fn migration_leaves_new_location_untouched_when_already_present() {
    let plan = migrate_legacy_schemes_repo("/tmp/data", true, true);
    assert!(plan.is_none(), "must not migrate when new location exists");
}

#[test]
fn merge_prefers_extra_over_builtin_on_duplicate() {
    let repos = vec![repo("schemes", true, &["base16-dup"]), repo("extra", true, &["base16-dup"])];
    let merged = collect_merged_schemes(&repos).ok().unwrap();
    assert!(merged.files.iter().any(|w| w.key == "base16-dup"));
    assert_eq!(merged.conflicts.len(), 1);
    // The extra is listed after the built-in, so it wins (last-listed wins).
    assert_eq!(merged.conflicts[0].kept_repo, "extra");
    assert_eq!(merged.conflicts[0].shadowed_repo, "schemes");
}

#[test]
fn merge_errors_when_no_repo_exists() {
    let refs = scheme_repo_refs("/tmp/data", &cfg(&[]));
    let repos: Vec<RepoSchemes> = refs.iter().map(|r| repo(&r.name, false, &[])).collect();
    let err = collect_merged_schemes(&repos).err().unwrap();
    assert!(err.message().contains("run install"));
}

#[test]
fn merge_keeps_each_key_once_with_the_last_listed_owner() {
    let repos = vec![
        repo("schemes", true, &["base16-a", "base16-b"]),
        repo("gone", false, &["base16-a"]),
        repo("x", true, &["base16-b", "base16-c"]),
    ];
    let merged = collect_merged_schemes(&repos).ok().unwrap();
    assert_eq!(merged.files.len(), 3);
    let owner = |k: &str| merged.files.iter().find(|w| w.key == k).unwrap().repo;
    assert_eq!(owner("base16-a"), 0);
    assert_eq!(owner("base16-b"), 2);
    assert_eq!(owner("base16-c"), 2);
    assert_eq!(merged.conflicts.len(), 1);
    assert_eq!(merged.conflicts[0].key, "base16-b");
}

#[test]
fn every_shadowed_copy_names_the_repo_whose_copy_is_used() {
    let repos = vec![
        repo("schemes", true, &["base16-dup"]),
        repo("b", true, &["base16-dup"]),
        repo("c", true, &["base16-dup"]),
    ];
    let merged = collect_merged_schemes(&repos).ok().unwrap();
    assert_eq!(merged.files.len(), 1);
    assert_eq!(merged.files[0].repo, 2);
    assert_eq!(merged.conflicts.len(), 2);
    assert_eq!(merged.conflicts[0].shadowed_repo, "b");
    assert_eq!(merged.conflicts[0].kept_repo, "c");
    assert_eq!(merged.conflicts[1].shadowed_repo, "schemes");
    assert_eq!(merged.conflicts[1].kept_repo, "c");
}

#[test]
fn conflict_warning_lists_each_shadowed_copy() {
    assert!(conflict_warning(&vec![]).is_none());
    let c = SchemeConflict {
        key: "base16-dup".to_string(),
        kept_repo: "extra".to_string(),
        shadowed_repo: "schemes".to_string(),
    };
    assert_eq!(
        conflict_warning(&vec![c]).unwrap(),
        "Note: 1 duplicate scheme(s) across scheme repos; keeping the higher-precedence copy:\n  \"base16-dup\" from \"extra\" is used; the copy in \"schemes\" is ignored"
    );
}

#[test]
fn extra_repo_paths_live_under_scheme_repos() {
    assert_eq!(extra_repo_path("/d/", "community"), "/d/scheme-repos/community");
}
