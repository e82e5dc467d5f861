use tinty::config::{
    ensure_scheme_extras_are_valid, ensure_schemes_path_not_circular, Config, ConfigError, ConfigItem, ConfigRing,
    local_path_candidates, SchemeRepoConfig, SchemesConfig,
};
use tinty::constants::{SCHEMES_REPO_NAME, SCHEMES_REPO_REVISION, SCHEMES_REPO_URL};
use tinty::scheme_system::SchemeSystem;

fn schemes_table(allow_dirty_update: bool, path: Option<&str>, revision: Option<&str>) -> SchemesConfig {
    SchemesConfig {
        allow_dirty_update,
        path: path.map(|p| p.to_string()),
        revision: revision.map(|r| r.to_string()),
        extras: Vec::new(),
    }
}

fn config_with(schemes: SchemesConfig) -> Config {
    Config {
        shell: Some("sh -c '{}'".to_string()),
        default_scheme: None,
        preferred_schemes: None,
        rings: None,
        default_cycle_ring: None,
        items: None,
        hooks: None,
        schemes,
    }
}

fn item_with(allow_dirty_update: bool) -> ConfigItem {
    ConfigItem {
        name: "example".to_string(),
        path: "https://example.com/repo".to_string(),
        hook: None,
        themes_dir: "themes".to_string(),
        supported_systems: None,
        theme_file_extension: None,
        revision: None,
        write_to_file: None,
        allow_dirty_update,
    }
}

fn extra(name: &str) -> SchemeRepoConfig {
    SchemeRepoConfig {
        name: name.to_string(),
        path: "https://example.com/x".to_string(),
        revision: None,
        allow_dirty_update: false,
    }
}

#[test]
fn item_display_emits_allow_dirty_update_only_when_true() {
    assert!(item_with(true).to_toml().contains("allow-dirty-update = true"));
    assert!(!item_with(false).to_toml().contains("allow-dirty-update"));
}

#[test]
fn config_display_emits_schemes_table_only_when_set() {
    let config = config_with(schemes_table(true, None, None));
    let rendered = config.to_toml();
    assert!(rendered.contains("[schemes]"));
    assert!(rendered.contains("allow-dirty-update = true"));

    let off = config_with(schemes_table(false, None, None));
    assert!(!off.to_toml().contains("[schemes]"));
}

#[test]
fn schemes_source_defaults_to_builtin_repo_and_revision() {
    let config = config_with(schemes_table(false, None, None));
    let (source, revision) = config.schemes_source();
    assert_eq!(source, SCHEMES_REPO_URL);
    assert_eq!(revision.as_deref(), Some(SCHEMES_REPO_REVISION));
}

#[test]
fn schemes_source_revision_only_repins_builtin_repo() {
    let config = config_with(schemes_table(false, None, Some("main")));
    let (source, revision) = config.schemes_source();
    assert_eq!(source, SCHEMES_REPO_URL);
    assert_eq!(revision.as_deref(), Some("main"));
}

#[test]
fn schemes_source_path_overrides_source_and_defaults_revision() {
    let config = config_with(schemes_table(false, Some("https://example.com/schemes"), None));
    let (source, revision) = config.schemes_source();
    assert_eq!(source, "https://example.com/schemes");
    assert_eq!(revision, None);
}

#[test]
fn schemes_source_path_and_revision_are_both_honored() {
    let config = config_with(schemes_table(false, Some("https://example.com/schemes"), Some("v1.0.0")));
    let (source, revision) = config.schemes_source();
    assert_eq!(source, "https://example.com/schemes");
    assert_eq!(revision.as_deref(), Some("v1.0.0"));
}

#[test]
fn schemes_path_and_revision_parse_and_render() {
    let config = config_with(schemes_table(false, Some("https://example.com/schemes"), Some("dev")));
    assert_eq!(config.schemes.path.as_deref(), Some("https://example.com/schemes"));
    assert_eq!(config.schemes.revision.as_deref(), Some("dev"));

    let rendered = config.to_toml();
    assert!(rendered.contains("[schemes]"));
    assert!(rendered.contains("path = \"https://example.com/schemes\""));
    assert!(rendered.contains("revision = \"dev\""));
}

#[test]
fn ensure_scheme_extras_rejects_reserved_name() {
    let extras = vec![SchemeRepoConfig {
        name: SCHEMES_REPO_NAME.to_string(),
        path: "https://example.com/x".to_string(),
        revision: None,
        allow_dirty_update: false,
    }];
    let err = ensure_scheme_extras_are_valid(&extras).unwrap_err();
    assert!(err.message().contains("reserved"));
}

#[test]
fn ensure_scheme_extras_rejects_duplicate_names() {
    let err = ensure_scheme_extras_are_valid(&vec![extra("dup"), extra("dup")]).unwrap_err();
    assert!(err.message().contains("unique"));
}

#[test]
fn ensure_scheme_extras_rejects_empty_name() {
    let extras = vec![SchemeRepoConfig {
        name: "   ".to_string(),
        path: "https://example.com/x".to_string(),
        revision: None,
        allow_dirty_update: false,
    }];
    let err = ensure_scheme_extras_are_valid(&extras).unwrap_err();
    assert!(err.message().contains("empty"));
}

#[test]
fn config_display_round_trips_scheme_extras() {
    let mut schemes = schemes_table(false, None, None);
    schemes.extras.push(SchemeRepoConfig {
        name: "community".to_string(),
        path: "https://example.com/community".to_string(),
        revision: Some("main".to_string()),
        allow_dirty_update: false,
    });
    let config = config_with(schemes);
    let rendered = config.to_toml();
    assert!(rendered.contains("[[schemes.extras]]"));
    assert!(rendered.contains("name = \"community\""));
    assert!(rendered.contains("path = \"https://example.com/community\""));
    assert!(rendered.contains("revision = \"main\""));

    // The rendered config must itself parse back to the same extras.
    let reparsed: toml::Table = toml::from_str(&rendered).unwrap();
    let extras = reparsed["schemes"]["extras"].as_array().unwrap();
    assert_eq!(extras.len(), 1);
    assert_eq!(extras[0]["name"].as_str(), Some("community"));
}

#[test]
fn ensure_schemes_path_not_circular_allows_urls_and_other_dirs() {
    // A URL source is never circular.
    assert!(ensure_schemes_path_not_circular(
        "https://example.com/schemes",
        "/does/not/matter/repos/schemes",
        &None,
        &None,
    )
    .is_ok());

    // A local dir that differs from the slot is fine.
    assert!(ensure_schemes_path_not_circular(
        "/tmp",
        "/tmp/some-other-data/repos/schemes",
        &Some("/tmp".to_string()),
        &None,
    )
    .is_ok());
    assert!(ensure_schemes_path_not_circular(
        "/tmp",
        "/tmp/some-other-data/repos/schemes",
        &Some("/tmp".to_string()),
        &Some("/tmp/some-other-data/repos/schemes".to_string()),
    )
    .is_ok());
}

#[test]
fn ensure_schemes_path_not_circular_rejects_self_reference() {
    let slot = "/data/repos/schemes";
    let err = ensure_schemes_path_not_circular(slot, slot, &Some(slot.to_string()), &Some(slot.to_string()))
        .expect_err("expected a circular-reference error");
    assert!(err.message().contains("circular reference"));
}

#[test]
fn config_validate_rejects_reserved_item_name() {
    let mut config = config_with(schemes_table(false, None, None));
    let mut item = item_with(false);
    item.name = "schemes".to_string();
    config.items = Some(vec![item]);
    let err = config.validate(None, &vec![]).err().unwrap();
    assert!(matches!(err, ConfigError::ReservedItemName));
}

#[test]
fn config_validate_fills_in_defaults() {
    let mut config = config_with(schemes_table(false, None, None));
    config.shell = None;
    config.items = Some(vec![item_with(false)]);
    let valid = config.validate(None, &vec![]).ok().unwrap();
    assert_eq!(valid.shell.as_deref(), Some("sh -c '{}'"));
    let items = valid.items.unwrap();
    assert_eq!(items.len(), 1);
    assert_eq!(items[0].supported_systems, Some(vec![SchemeSystem::Base16]));
}

#[test]
fn config_validate_rejects_unknown_default_ring() {
    let mut config = config_with(schemes_table(false, None, None));
    config.rings = Some(vec![ConfigRing { name: "dark".to_string(), schemes: vec!["base16-a".to_string()] }]);
    config.default_cycle_ring = Some("light".to_string());
    let err = config.validate(None, &vec![]).err().unwrap();
    assert_eq!(
        err.message(),
        "config.toml default-cycle-ring is set to \"light\", but no ring with that name exists"
    );
}

#[test]
fn config_validate_rejects_shell_without_placeholder() {
    let mut config = config_with(schemes_table(false, None, None));
    config.shell = Some("bash -c".to_string());
    let err = config.validate(None, &vec![]).err().unwrap();
    assert!(matches!(err, ConfigError::MissingShellPlaceholder));
}

#[test]
fn config_validate_expands_home_in_item_paths() {
    let mut config = config_with(schemes_table(false, None, None));
    let mut item = item_with(false);
    item.path = "~/templates/vim".to_string();
    config.items = Some(vec![item]);
    let dirs = vec!["/home/me/templates/vim".to_string()];
    let valid = config.validate(Some("/home/me".to_string()), &dirs).ok().unwrap();
    assert_eq!(valid.items.unwrap()[0].path, "/home/me/templates/vim");
}

#[test]
fn config_validate_rejects_missing_local_item_path() {
    let mut config = config_with(schemes_table(false, None, None));
    let mut item = item_with(false);
    item.path = "/nowhere".to_string();
    config.items = Some(vec![item]);
    let err = config.validate(None, &vec![]).err().unwrap();
    assert_eq!(
        err.message(),
        "One of your config.toml items has an invalid `path` value. \"/nowhere\" is not a valid url and is not a path to an existing local directory"
    );
}

#[test]
fn config_display_separates_hooks_so_they_read_back() {
    let mut c = config_with(schemes_table(false, None, None));
    c.hooks = Some(vec!["echo one".to_string(), "echo two".to_string()]);
    let rendered = c.to_toml();
    assert!(rendered.contains("hooks = [\n  \"echo one\",\n  \"echo two\"\n]\n"));
    let reparsed: toml::Table = toml::from_str(&rendered).unwrap();
    let hooks = reparsed["hooks"].as_array().unwrap();
    assert_eq!(hooks.len(), 2);
    assert_eq!(hooks[0].as_str(), Some("echo one"));
    assert_eq!(hooks[1].as_str(), Some("echo two"));

    c.hooks = Some(vec!["echo hook".to_string()]);
    assert!(c.to_toml().contains("hooks = [\n  \"echo hook\"\n]\n"));
}

#[test]
fn local_path_candidates_expand_paths_as_validation_does() {
    let mut c = config_with(schemes_table(false, Some("~/schemes"), None));
    let mut item = item_with(false);
    item.path = "  ~/themes/x ".to_string();
    c.items = Some(vec![item]);
    let mut e = extra("more");
    e.path = "/abs/more".to_string();
    c.schemes.extras = vec![e];
    let home = Some("/home/me".to_string());
    let got = local_path_candidates(&c, &home);
    assert_eq!(
        got,
        vec![
            Some("/home/me/themes/x".to_string()),
            Some("/home/me/schemes".to_string()),
            Some("/abs/more".to_string()),
        ]
    );
    assert_eq!(local_path_candidates(&c, &None), vec![None, None, Some("/abs/more".to_string())]);
}
