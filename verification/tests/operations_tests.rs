use tinty::operations::sync::run_sync;
use tinty::config::{Config, ConfigItem, ConfigRing, SchemesConfig};
use tinty::operations::build::{build_item_message, build_summary, BuildError, BuildOutcome};
use tinty::operations::config as config_command;
use tinty::operations::current::{check_current, scheme_property, SchemeProperty};
use tinty::operations::cycle::{cycle, cycle_message};
use tinty::operations::gallery::server::{
    classify_header, parse_request_line, parse_usize, response_head, route, HeaderLine, Route,
};
use tinty::operations::gallery::{gallery_output_dir, gallery_script};
use tinty::operations::info::{
    info_header_lines, info_selection, info_system, is_yaml_file, palette_row_line, single_scheme_target,
    sort_scheme_files, Base16Palette, PaletteRow, SchemeFileEntry,
};
use tinty::operations::init::init_scheme_name;
use tinty::operations::install::{
    git_url_eq, install, install_dir_step, prepare_clone_slot, prepare_symlink_slot, InstallMethod, LinkStep,
    SlotPreparation, SlotState,
};
use tinty::operations::list::{schemes_dir_path, ColorOut, Lightness, SchemeEntry};
use tinty::operations::set::{find_set_theme, set_hook_script, set_theme_file_name};
use tinty::operations::setup::{setup, setup_item, SetupStep};
use tinty::operations::update::{
    lines_of_text, outcome_of_update, update, update_error_context, update_item_step, update_report, ItemOutcome,
};
use tinty::repo::UpdateStatus;
use tinty::scheme_system::SchemeSystem;

fn item(name: &str, path: &str) -> ConfigItem {
    ConfigItem {
        name: name.to_string(),
        path: path.to_string(),
        hook: None,
        themes_dir: "colors".to_string(),
        supported_systems: Some(vec![SchemeSystem::Base16]),
        theme_file_extension: None,
        revision: None,
        write_to_file: None,
        allow_dirty_update: false,
    }
}

fn config(items: Vec<ConfigItem>) -> Config {
    Config {
        shell: None,
        default_scheme: None,
        preferred_schemes: None,
        rings: None,
        default_cycle_ring: None,
        items: Some(items),
        hooks: None,
        schemes: SchemesConfig { allow_dirty_update: false, path: None, revision: None, extras: vec![] },
    }
}

// ----- cycle -------------------------------------------------------------

#[test]
fn cycle_moves_to_the_next_scheme_and_wraps() {
    let mut c = config(vec![]);
    c.rings = Some(vec![ConfigRing {
        name: "day".to_string(),
        schemes: vec!["base16-a".to_string(), "base16-b".to_string(), "base16-c".to_string()],
    }]);
    c.default_cycle_ring = Some("day".to_string());
    assert_eq!(cycle(&c, &"base16-a".to_string(), None).ok().unwrap(), "base16-b");
    assert_eq!(cycle(&c, &"base16-c".to_string(), None).ok().unwrap(), "base16-a");
    assert_eq!(cycle(&c, &"base16-zzz".to_string(), Some("day")).ok().unwrap(), "base16-a");
    let e = cycle(&c, &"base16-a".to_string(), Some("night")).err().unwrap();
    assert_eq!(e.message(), "No ring named \"night\" exists. Available rings: day");
    assert_eq!(cycle_message("base16-b"), "Applying next theme in cycle: base16-b");
}

#[test]
fn cycle_returns_after_a_full_turn() {
    let mut c = config(vec![]);
    c.rings = Some(vec![ConfigRing {
        name: "r".to_string(),
        schemes: vec!["x".to_string(), "y".to_string(), "z".to_string()],
    }]);
    let mut cur = "y".to_string();
    for _ in 0..3 {
        cur = cycle(&c, &cur, Some("r")).ok().unwrap();
    }
    assert_eq!(cur, "y");
}

// ----- update ------------------------------------------------------------

#[test]
fn update_plan_lists_items_then_schemes() {
    let mut a = item("vim", "https://example.com/vim");
    a.revision = Some("v1".to_string());
    a.allow_dirty_update = true;
    let plan = update(&config(vec![a]), "/data");
    assert_eq!(plan.items.len(), 1);
    assert_eq!(plan.items[0].path, "/data/repos/vim");
    assert_eq!(plan.items[0].revision.as_deref(), Some("v1"));
    assert!(plan.items[0].allow_dirty);
    assert_eq!(plan.schemes_repo_path, "/data/repos/schemes");
    assert_eq!(plan.schemes_source, "https://github.com/tinted-theming/schemes");
}

#[test]
fn dirty_repositories_are_updated_only_when_allowed() {
    assert_eq!(update_item_step(true, false), Some(false));
    assert_eq!(update_item_step(true, true), Some(false));
    assert_eq!(update_item_step(false, true), Some(true));
    assert_eq!(update_item_step(false, false), None);
}

#[test]
fn update_reports_each_outcome() {
    assert_eq!(update_report("vim", &ItemOutcome::UpToDate, false), vec!["vim up to date".to_string()]);
    assert!(update_report("vim", &ItemOutcome::UpToDate, true).is_empty());
    assert_eq!(
        update_report("vim", &ItemOutcome::LeftDirty, false),
        vec!["vim contains uncommitted changes, please commit or remove and then run `tinty update` again.".to_string()]
    );
    let o = outcome_of_update(true, UpdateStatus::ConflictPreserved { stderr: "error: a\r\n  b.txt\n".to_string() });
    assert_eq!(
        update_report("vim", &o, false),
        vec![
            "vim: could not update \u{2014} your local changes are preserved:".to_string(),
            "error: a".to_string(),
            "  b.txt".to_string(),
        ]
    );
    assert!(matches!(outcome_of_update(true, UpdateStatus::Updated), ItemOutcome::UpToDatePreserved));
    assert!(matches!(outcome_of_update(false, UpdateStatus::Updated), ItemOutcome::UpToDate));
    assert_eq!(update_error_context("vim", "u", &None), "Error updating vim to u@main");
}

#[test]
fn lines_of_text_matches_str_lines() {
    for s in ["", "a", "a\n", "a\r\nb", "a\n\nb\n", "x\r", "\n"] {
        let expected: Vec<String> = s.lines().map(|l| l.to_string()).collect();
        assert_eq!(lines_of_text(s), expected, "for {s:?}");
    }
}

// ----- install / setup / sync ---------------------------------------------

#[test]
fn git_urls_compare_without_slash_or_git_suffix() {
    let u = "https://github.com/tinted-theming/schemes";
    assert!(git_url_eq(u, u));
    assert!(git_url_eq(u, "https://github.com/tinted-theming/schemes/"));
    assert!(git_url_eq(u, "https://github.com/tinted-theming/schemes.git"));
    assert!(git_url_eq(" https://github.com/tinted-theming/schemes.git/ ", u));
    assert!(!git_url_eq(u, "https://github.com/tinted-theming/other"));
}

#[test]
fn install_plan_clones_urls_and_links_dirs() {
    let plan = install(&config(vec![item("vim", "https://example.com/vim"), item("local", "/my/dir")]), "/data");
    assert!(matches!(plan.items[0].method, InstallMethod::Clone { .. }));
    assert!(matches!(plan.items[1].method, InstallMethod::Link { ref source } if source == "/my/dir"));
    assert_eq!(plan.items[1].path, "/data/repos/local");
    assert_eq!(plan.schemes.path, "/data/repos/schemes");
}

#[test]
fn slots_are_cleared_for_a_new_source() {
    let src = "https://github.com/tinted-theming/schemes";
    assert_eq!(prepare_clone_slot(SlotState::Empty, &None, src), SlotPreparation::Keep);
    assert_eq!(prepare_clone_slot(SlotState::Symlink, &None, src), SlotPreparation::RemoveSymlink);
    assert_eq!(prepare_clone_slot(SlotState::Other, &Some(format!("{src}.git")), src), SlotPreparation::Keep);
    assert_eq!(prepare_clone_slot(SlotState::Other, &Some("https://x/y".to_string()), src), SlotPreparation::RemoveClone);
    assert_eq!(prepare_clone_slot(SlotState::Other, &None, src), SlotPreparation::RemoveClone);
    assert_eq!(prepare_symlink_slot(SlotState::Other), SlotPreparation::RemoveClone);
    assert_eq!(prepare_symlink_slot(SlotState::Symlink), SlotPreparation::Keep);
}

#[test]
fn install_dir_links_relinks_or_refuses() {
    assert!(matches!(install_dir_step("/s", true, true, "/d", Some(SlotState::Empty)), Ok(LinkStep::Link)));
    assert!(matches!(install_dir_step("/s", true, true, "/d", Some(SlotState::Symlink)), Ok(LinkStep::Relink)));
    assert!(matches!(install_dir_step("/s", false, false, "/d", Some(SlotState::Other)), Ok(LinkStep::Nothing)));
    let e = install_dir_step("/s", true, false, "/d", Some(SlotState::Empty)).err().unwrap();
    assert_eq!(e.message(), "/s is not a symlink to a directory. Please remove it and try again");
}

#[test]
fn setup_clones_items_then_schemes() {
    let targets = setup(&config(vec![item("vim", "https://example.com/vim")]), "/data");
    assert_eq!(targets.len(), 2);
    assert_eq!(targets[0].path, "/data/repos/vim");
    assert_eq!(targets[1].name, "schemes");
    assert_eq!(targets[1].url, "https://github.com/tinted-theming/schemes");
}

// ----- info / list ---------------------------------------------------------

fn entry(dir: &str, file: &str) -> SchemeFileEntry {
    SchemeFileEntry { dir_name: dir.to_string(), file_name: file.to_string(), path: format!("/s/{dir}/{file}") }
}

#[test]
fn info_selection_sorts_and_picks() {
    let files = vec![entry("base24", "a.yaml"), entry("base16", "b.yaml"), entry("base16", "a.yaml")];
    let sorted = sort_scheme_files(files);
    let names: Vec<String> = sorted.iter().map(|e| e.path.clone()).collect();
    assert_eq!(names, vec!["/s/base16/a.yaml", "/s/base16/b.yaml", "/s/base24/a.yaml"]);

    let files = vec![entry("base24", "a.yaml"), entry("base16", "b.yaml"), entry("base16", "notes.txt")];
    let picked = info_selection(files, Some("base16-b"), "", false).ok().unwrap();
    assert_eq!(picked.len(), 1);
    assert_eq!(picked[0].path, "/s/base16/b.yaml");

    let files = vec![entry("base24", "a.yaml"), entry("base16", "notes.txt")];
    let all = info_selection(files, None, "", true).ok().unwrap();
    assert_eq!(all.len(), 1);

    let e = info_selection(vec![], Some("oops-x"), "", false).err().unwrap();
    assert!(e.message().starts_with("Invalid scheme system: \"oops\" from scheme name \"oops-x\""));
    let e = info_selection(vec![], Some("base16-x"), "", false).err().unwrap();
    assert!(e.message().starts_with("Scheme file does not exist."));
}

#[test]
fn info_scheme_names_and_systems() {
    let (s, bare) = single_scheme_target("base16-ayu-dark").ok().unwrap();
    assert_eq!(s, "base16");
    assert_eq!(bare, "ayu-dark");
    assert!(matches!(info_system("base24", "/p"), Ok(SchemeSystem::Base24)));
    let e = info_system("tinted8", "/p/x.yaml").err().unwrap();
    assert_eq!(e.message(), "Scheme system is not supported \"tinted8\": /p/x.yaml");
    assert!(is_yaml_file("x.yaml"));
    assert!(!is_yaml_file("x.yml"));
    assert!(!is_yaml_file(".yaml"));
}

#[test]
fn info_report_lines() {
    let header = info_header_lines(SchemeSystem::Base16, "ayu", "Ayu", "Me", "/p/ayu.yaml");
    assert_eq!(header[0], "System: base16");
    assert_eq!(header[5], "| Color       | Name   | Hex     | ANSI     |");
    assert_eq!(header[6], "|-------------|--------|---------|----------|");
    let row = PaletteRow { name: "base08".to_string(), hex: "ff0080".to_string(), ansi: "1 and 9".to_string() };
    let line = palette_row_line(SchemeSystem::Base16, &row).ok().unwrap();
    assert_eq!(
        line,
        "| \x1B[48;2;255;0;128m\x1B[38;2;255;0;128m           \x1B[0m | base08 | #ff0080 | 1 and 9  |"
    );
    let bad = PaletteRow { name: "base00".to_string(), hex: "#zz".to_string(), ansi: "0".to_string() };
    assert!(palette_row_line(SchemeSystem::Base16, &bad).is_err());
    let short = PaletteRow { name: "base00".to_string(), hex: "#0af".to_string(), ansi: "0".to_string() };
    assert!(palette_row_line(SchemeSystem::Base24, &short).ok().unwrap().contains("\x1B[48;2;0;170;255m"));
}

#[test]
fn base16_palette_rows_follow_the_ansi_table() {
    let c = |s: &str| s.to_string();
    let p = Base16Palette {
        base00: c("00"), base01: c("01"), base02: c("02"), base03: c("03"), base04: c("04"), base05: c("05"),
        base06: c("06"), base07: c("07"), base08: c("08"), base09: c("09"), base0_a: c("0a"), base0_b: c("0b"),
        base0_c: c("0c"), base0_d: c("0d"), base0_e: c("0e"), base0_f: c("0f"),
    };
    let rows = p.rows();
    assert_eq!(rows.len(), 16);
    assert_eq!(rows[10].name, "base0A");
    assert_eq!(rows[10].hex, "0a");
    assert_eq!(rows[10].ansi, "3 and 11");
    assert_eq!(rows[15].ansi, "17");
}

#[test]
fn list_dir_and_envs() {
    assert_eq!(schemes_dir_path("/d", true, true).ok().unwrap(), "/d/custom-schemes");
    assert_eq!(schemes_dir_path("/d", false, true).ok().unwrap(), "/d/repos/schemes");
    assert_eq!(
        schemes_dir_path("/d", true, false).err().unwrap().message(),
        "You don't have any local custom schemes at: /d/custom-schemes"
    );
    let color = ColorOut::from_channels(
        ("ff".to_string(), "00".to_string(), "80".to_string()),
        (255, 0, 128),
        ("1".to_string(), "0".to_string(), "0.5019608".to_string()),
    );
    assert_eq!(color.hex_str, "#ff0080");
    let e = SchemeEntry {
        id: SchemeEntry::scheme_id("base16", "x"),
        name: "X".to_string(),
        author: "A".to_string(),
        system: "base16".to_string(),
        variant: "dark".to_string(),
        slug: "x".to_string(),
        palette: vec![("base0a".to_string(), color)],
        lightness: Some(Lightness { foreground: "90".to_string(), background: "10".to_string() }),
        ui: None,
        syntax: None,
    };
    let envs = e.to_envs();
    assert_eq!(envs.len(), 5 + 2 + 9);
    assert_eq!(envs[0], ("TINTY_SCHEME_ID".to_string(), "base16-x".to_string()));
    assert_eq!(envs[6], ("TINTY_SCHEME_LIGHTNESS_BACKGROUND".to_string(), "10".to_string()));
    assert_eq!(envs[7], ("TINTY_SCHEME_PALETTE_BASE0A_HEX_R".to_string(), "ff".to_string()));
    assert_eq!(envs[11], ("TINTY_SCHEME_PALETTE_BASE0A_RGB_G".to_string(), "0".to_string()));
    assert_eq!(envs[15], ("TINTY_SCHEME_PALETTE_BASE0A_DEC_B".to_string(), "0.5019608".to_string()));
}

// ----- set / init / current / config / build -------------------------------

#[test]
fn set_names_and_hooks() {
    let names = vec!["base16-ayu.vim".to_string()];
    assert_eq!(find_set_theme(&names, "base16-ayu"), Some(0));
    let it = item("vim", "x");
    assert_eq!(set_theme_file_name(&it, "base16-ayu.vim"), "vim-colors-file.vim");
    assert_eq!(set_theme_file_name(&it, "base16-ayu"), "vim-colors-file.");
    assert_eq!(set_hook_script("source %f", "/t"), "source /t");
}

#[test]
fn init_picks_recorded_then_default() {
    assert_eq!(init_scheme_name(Some("base16-a".to_string()), &Some("base16-d".to_string())).ok().unwrap(), "base16-a");
    assert_eq!(init_scheme_name(None, &Some("base16-d".to_string())).ok().unwrap(), "base16-d");
    assert!(init_scheme_name(Some(String::new()), &Some("base16-d".to_string())).is_err());
    assert!(init_scheme_name(None, &None).is_err());
}

#[test]
fn current_properties_by_name() {
    assert!(check_current("").is_err());
    assert!(check_current("base16-a").is_ok());
    assert_eq!(scheme_property(" author "), Some(SchemeProperty::Author));
    assert_eq!(scheme_property("variant"), Some(SchemeProperty::Variant));
    assert_eq!(scheme_property("colour"), None);
}

#[test]
fn config_command_prints_paths_or_config() {
    let c = config(vec![]);
    assert_eq!(config_command::config(&c, "/c.toml", "/d", true, false).ok().unwrap(), "/c.toml");
    assert_eq!(config_command::config(&c, "/c.toml", "/d", false, true).ok().unwrap(), "/d");
    assert!(config_command::config(&c, "/c.toml", "/d", true, true).is_err());
    assert_eq!(config_command::config(&c, "/c.toml", "/d", false, false).ok().unwrap(), c.to_toml());
}

#[test]
fn build_summary_counts_failures() {
    let names = vec!["a".to_string(), "b".to_string(), "c".to_string()];
    let outcomes = vec![BuildOutcome::Built, BuildOutcome::NotInstalled, BuildOutcome::Failed("boom".to_string())];
    match build_summary(&names, &outcomes) {
        Err(BuildError::Failed(m)) => assert_eq!(
            m,
            "Failed to build 2 of 3 item(s):\nb not installed (run `tinty install`)\nc: boom"
        ),
        _ => panic!("expected a failure"),
    }
    let ok = build_summary(&vec!["a".to_string()], &vec![BuildOutcome::Built]).ok().unwrap();
    assert_eq!(ok, "Built 1 item(s)");
    assert!(matches!(build_summary(&vec![], &vec![]), Err(BuildError::NoItems)));
    assert_eq!(build_item_message("a", &BuildOutcome::Built), "a built");
}

// ----- gallery ---------------------------------------------------------------

#[test]
fn gallery_paths_and_script() {
    assert_eq!(gallery_output_dir("/d", None), "/d/artifacts/gallery");
    assert_eq!(gallery_output_dir("/d", Some("/out")), "/out");
    assert_eq!(gallery_script("[]", "run();"), "const SCHEMES = [];\n\nrun();");
}

#[test]
fn gallery_server_reads_requests() {
    assert_eq!(parse_request_line("GET /index.html?x=1 HTTP/1.1\r\n"), ("GET".to_string(), "/index.html".to_string()));
    assert_eq!(parse_request_line("  POST\t/api/apply "), ("POST".to_string(), "/api/apply".to_string()));
    assert_eq!(parse_request_line(""), (String::new(), String::new()));
    assert_eq!(classify_header("\r\n"), HeaderLine::End);
    assert_eq!(classify_header("Content-Length: 42\r\n"), HeaderLine::ContentLength(42));
    assert_eq!(classify_header(" content-LENGTH :+7"), HeaderLine::ContentLength(7));
    assert_eq!(classify_header("Content-Length: x"), HeaderLine::ContentLength(0));
    assert_eq!(classify_header("Host: localhost"), HeaderLine::Other);
    assert_eq!(parse_usize("18446744073709551616"), None);
    assert_eq!(parse_usize("+12"), Some(12));
    assert_eq!(parse_usize("+"), None);
    assert_eq!(route("GET", "/"), Route::Index);
    assert_eq!(route("GET", "/api/current"), Route::Current);
    assert_eq!(route("POST", "/api/apply"), Route::Apply);
    assert_eq!(route("GET", "/nope"), Route::NotFound);
    assert_eq!(route("DELETE", "/"), Route::MethodNotAllowed);
    assert_eq!(
        response_head("200 OK", "text/plain", 5),
        "HTTP/1.1 200 OK\r\nContent-Type: text/plain\r\nContent-Length: 5\r\nConnection: close\r\nCache-Control: no-store\r\n\r\n"
    );
}

#[test]
fn setup_clones_missing_repositories_and_keeps_existing_ones() {
    let targets = setup(&config(vec![item("vim", "https://example.com/vim")]), "/data");
    match setup_item(&targets[0], false) {
        SetupStep::Clone { url, path, message } => {
            assert_eq!(url, "https://example.com/vim");
            assert_eq!(path, "/data/repos/vim");
            assert_eq!(message, "vim installed");
        }
        SetupStep::Keep { .. } => panic!("a missing repository is cloned"),
    }
    match setup_item(&targets[1], true) {
        SetupStep::Keep { message } => assert_eq!(message, "schemes already installed"),
        SetupStep::Clone { .. } => panic!("an existing directory is left alone"),
    }
}

#[test]
fn sync_runs_the_update_only_after_a_successful_install() {
    let updated = std::cell::Cell::new(false);
    let r: Result<(), String> = run_sync(|| Err("install failed".to_string()), || {
        updated.set(true);
        Ok(())
    });
    assert_eq!(r, Err("install failed".to_string()));
    assert!(!updated.get());
    let r: Result<(), String> = run_sync(|| Ok(()), || Err("update failed".to_string()));
    assert_eq!(r, Err("update failed".to_string()));
    let r: Result<(), String> = run_sync(|| Ok(()), || Ok(()));
    assert_eq!(r, Ok(()));
}
