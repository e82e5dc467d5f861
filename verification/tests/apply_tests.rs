use tinty::config::ConfigItem;
use tinty::operations::apply::{
    check_scheme, escape_for_regex, expand_tilde_with, find_theme_file, generate_file_contents, is_stale_entry, plan_item_output,
    system_items, theme_copy_file_name, write_target, ApplyError, EntryKind, Hook, LinkTarget, SchemeSource,
    WriteTarget,
};
use tinty::scheme_system::SchemeSystem;

#[test]
fn generate_file_contents_with_start_and_end_markers() {
    let insertion = "new-content";
    let source_content = "before\n<!-- START -->old<!-- END -->\nafter";
    let result =
        generate_file_contents(insertion, source_content, Some("<!-- START -->"), Some("<!-- END -->")).ok().unwrap();

    assert_eq!(result, "before\n<!-- START -->new-content<!-- END -->\nafter");
}

#[test]
fn generate_file_contents_with_start_marker_only() {
    let insertion = "new-content";
    let source_content = "before\n# START\nold trailing stuff";
    let result = generate_file_contents(insertion, source_content, Some("# START\n"), None).ok().unwrap();

    assert_eq!(result, "before\n# START\nnew-content");
}

#[test]
fn generate_file_contents_with_multiline_replacement() {
    let insertion = "line1\nline2\nline3";
    let source_content = "header\n<!-- START -->\nold\nmulti\nline\n<!-- END -->\nfooter";
    let result =
        generate_file_contents(insertion, source_content, Some("<!-- START -->"), Some("<!-- END -->")).ok().unwrap();

    assert_eq!(result, "header\n<!-- START -->line1\nline2\nline3<!-- END -->\nfooter");
}

#[test]
fn generate_file_contents_with_multiple_marker_pairs() {
    let insertion = "X";
    let source_content = "a<!-- S -->1<!-- E -->b<!-- S -->2<!-- E -->c";
    let result = generate_file_contents(insertion, source_content, Some("<!-- S -->"), Some("<!-- E -->")).ok().unwrap();

    assert_eq!(result, "a<!-- S -->X<!-- E -->b<!-- S -->X<!-- E -->c");
}

#[test]
fn generate_file_contents_with_special_regex_chars_in_markers() {
    let insertion = "content";
    let source_content = "before[START]old[END]after";
    let result = generate_file_contents(insertion, source_content, Some("[START]"), Some("[END]")).ok().unwrap();

    assert_eq!(result, "before[START]content[END]after");
}

#[test]
fn generate_file_contents_no_markers_returns_error() {
    let result = generate_file_contents("content", "source_content", None, None);

    assert!(result.is_err());
}

#[test]
fn generate_file_contents_end_marker_only_returns_error() {
    let result = generate_file_contents("content", "source_content", None, Some("<!-- END -->"));

    assert!(result.is_err());
}

#[test]
fn generate_file_contents_markers_not_found_leaves_unchanged() {
    let insertion = "new";
    let source_content = "no markers here";
    let result =
        generate_file_contents(insertion, source_content, Some("<!-- START -->"), Some("<!-- END -->")).ok().unwrap();

    assert_eq!(result, "no markers here");
}

#[test]
fn generate_file_contents_empty_insertion() {
    let insertion = "";
    let source_content = "before<!-- S -->old<!-- E -->after";
    let result = generate_file_contents(insertion, source_content, Some("<!-- S -->"), Some("<!-- E -->")).ok().unwrap();

    assert_eq!(result, "before<!-- S --><!-- E -->after");
}

#[test]
fn generate_file_contents_insertion_contains_markers() {
    let insertion = "theme with <!-- START --> and <!-- END --> inside";
    let source_content = "before\n<!-- START -->old<!-- END -->\nafter";
    let result =
        generate_file_contents(insertion, source_content, Some("<!-- START -->"), Some("<!-- END -->")).ok().unwrap();

    assert_eq!(
        result,
        "before\n<!-- START -->theme with <!-- START --> and <!-- END --> inside<!-- END -->\nafter"
    );
}

#[test]
fn generate_file_contents_reapply_with_markers_in_content() {
    let insertion = "new-theme";
    let source_content = "before\n<!-- START -->theme with <!-- START --> and <!-- END --> inside<!-- END -->\nafter";
    let result =
        generate_file_contents(insertion, source_content, Some("<!-- START -->"), Some("<!-- END -->")).ok().unwrap();

    assert_eq!(result, "before\n<!-- START -->new-theme<!-- END --> inside<!-- END -->\nafter");
}

#[test]
fn generate_file_contents_whitespace_around_markers() {
    let insertion = "content";
    let source_content = "before  <!-- START -->  old  <!-- END -->  after";
    let result =
        generate_file_contents(insertion, source_content, Some("<!-- START -->"), Some("<!-- END -->")).ok().unwrap();

    assert_eq!(result, "before  <!-- START -->content<!-- END -->  after");
}

#[test]
fn generate_file_contents_newlines_adjacent_to_markers() {
    let insertion = "content";
    let source_content = "before\n<!-- START -->\nold\n<!-- END -->\nafter";
    let result =
        generate_file_contents(insertion, source_content, Some("<!-- START -->"), Some("<!-- END -->")).ok().unwrap();

    assert_eq!(result, "before\n<!-- START -->content<!-- END -->\nafter");
}

#[test]
fn generate_file_contents_preserves_newlines_in_insertion() {
    let insertion = "\nline1\nline2\n";
    let source_content = "before<!-- S -->old<!-- E -->after";
    let result = generate_file_contents(insertion, source_content, Some("<!-- S -->"), Some("<!-- E -->")).ok().unwrap();

    assert_eq!(result, "before<!-- S -->\nline1\nline2\n<!-- E -->after");
}

fn item(name: &str, themes_dir: &str) -> ConfigItem {
    ConfigItem {
        name: name.to_string(),
        path: "https://example.com/repo".to_string(),
        hook: None,
        themes_dir: themes_dir.to_string(),
        supported_systems: Some(vec![SchemeSystem::Base16]),
        theme_file_extension: None,
        revision: None,
        write_to_file: None,
        allow_dirty_update: false,
    }
}

#[test]
fn check_scheme_accepts_a_builtin_scheme() {
    let r = check_scheme("base16-ayu-dark", true, false, "/data/custom-schemes");
    assert!(matches!(r, Ok((SchemeSystem::Base16, SchemeSource::Builtin))));
    let r = check_scheme("base24-x", false, true, "/data/custom-schemes");
    assert!(matches!(r, Ok((SchemeSystem::Base24, SchemeSource::Custom))));
}

#[test]
fn check_scheme_refuses_bad_names() {
    let e = check_scheme("ayu", true, false, "/c").err().unwrap();
    assert_eq!(
        e.message(),
        "Invalid scheme name. Make sure the scheme system is prefixed <SCHEME_SYSTEM>-<SCHEME_NAME>, eg: `base16-ayu-dark`"
    );
    let e = check_scheme("some-invalid-scheme", true, false, "/c").err().unwrap();
    assert_eq!(
        e.message(),
        "Invalid scheme name. Make sure your scheme is prefixed with a supprted system (\"base16\", \"base24\" or \"tinted8\"), eg: base16-some-invalid-scheme"
    );
    let (system, source) = check_scheme("tinted8-ayu", true, false, "/c").ok().unwrap();
    assert_eq!(system, SchemeSystem::Tinted8);
    assert_eq!(source, SchemeSource::Builtin);
    let e = check_scheme("base16-nope", false, false, "/c").err().unwrap();
    assert_eq!(e.message(), "Scheme does not exist: base16-nope");
}

#[test]
fn check_scheme_reports_a_shadowing_custom_scheme() {
    let e = check_scheme("base16-ayu-dark", true, true, "/data/custom-schemes").err().unwrap();
    assert!(matches!(e, ApplyError::ShadowedCustomScheme(_)));
    assert_eq!(
        e.message(),
        "You have a Tinty generated scheme named the same as an official tinted-theming/schemes name, please rename or remove it: /data/custom-schemes/ayu-dark.yaml"
    );
}

fn items_with_systems() -> Vec<ConfigItem> {
    let mut a = item("a", "colors");
    a.supported_systems = None;
    let b = item("b", "colors");
    let mut c = item("c", "colors");
    c.supported_systems = Some(vec![SchemeSystem::Base16, SchemeSystem::Base24]);
    let mut d = item("d", "colors");
    d.supported_systems = Some(vec![SchemeSystem::Base24]);
    vec![a, b, c, d]
}

#[test]
fn system_items_keeps_items_that_support_the_system() {
    let kept16 = system_items(Some(items_with_systems()), SchemeSystem::Base16);
    let names16: Vec<&str> = kept16.iter().map(|i| i.name.as_str()).collect();
    assert_eq!(names16, vec!["b", "c"]);
    let kept24 = system_items(Some(items_with_systems()), SchemeSystem::Base24);
    let names24: Vec<&str> = kept24.iter().map(|i| i.name.as_str()).collect();
    assert_eq!(names24, vec!["c", "d"]);
    assert!(system_items(None, SchemeSystem::Base16).is_empty());
}

#[test]
fn find_theme_file_matches_by_stem_or_extension() {
    let names = vec!["base16-x.vim".to_string(), "base16-ayu.vim".to_string(), "base16-ayu.lua".to_string()];
    assert_eq!(find_theme_file(&names, "base16-ayu", &None), Some(1));
    assert_eq!(find_theme_file(&names, "base16-ayu", &Some(".lua".to_string())), Some(2));
    assert_eq!(find_theme_file(&names, "base16-none", &None), None);
}

#[test]
fn theme_copy_keeps_the_extension() {
    let it = item("vim", "colors/sub");
    assert_eq!(theme_copy_file_name(&it, "base16-ayu.vim"), "vim-colors-sub-file.vim");
    assert_eq!(theme_copy_file_name(&it, "base16-ayu"), "vim-colors-sub-file");
    assert_eq!(theme_copy_file_name(&it, ".hidden"), "vim-colors-sub-file");
}

#[test]
fn hook_command_fills_in_placeholders() {
    let mut it = item("vim", "colors");
    it.hook = Some("echo %o %f %n".to_string());
    let hook = Hook::for_item(&it, None, "vim-colors-file.vim").unwrap();
    assert_eq!(hook.operation, "apply");
    let cmd = hook.command("/data/artifacts", &None, "base16-ayu").ok().unwrap();
    assert_eq!(cmd.program, "sh");
    assert_eq!(cmd.args, vec!["-c".to_string(), "echo apply /data/artifacts/vim-colors-file.vim base16-ayu".to_string()]);
    assert_eq!(cmd.theme_file_path, "/data/artifacts/vim-colors-file.vim");
}

#[test]
fn hook_command_refuses_a_shell_without_placeholder() {
    let mut it = item("vim", "colors");
    it.hook = Some("reload".to_string());
    let hook = Hook::for_item(&it, Some("init"), "f").unwrap();
    assert_eq!(hook.operation, "init");
    let e = hook.command("/a", &Some("bash -c".to_string()), "base16-x").err().unwrap();
    assert_eq!(e.message(), "The configured shell property does not contain the required command placeholder '{}'");
}

#[test]
fn write_target_reads_the_list_length() {
    let one = write_target(&vec!["/tmp/out".to_string()]).ok().unwrap();
    assert!(matches!(one, WriteTarget::Overwrite { ref path } if path == "/tmp/out"));
    let two = write_target(&vec!["/tmp/out".to_string(), "# S".to_string()]).ok().unwrap();
    assert!(matches!(two, WriteTarget::Splice { ref start, end: None, .. } if start == "# S"));
    let three = write_target(&vec!["/f".to_string(), "a".to_string(), "b".to_string()]).ok().unwrap();
    assert!(matches!(three, WriteTarget::Splice { end: Some(ref e), .. } if e == "b"));
    let e = write_target(&vec![]).err().unwrap();
    assert_eq!(e.message(), "tinty.toml requires has invalid values in `write_to_file` property");
}

#[test]
fn expand_tilde_replaces_a_leading_home_component() {
    let home = Some("/home/me".to_string());
    assert_eq!(expand_tilde_with("~/x/y", &home), "/home/me/x/y");
    assert_eq!(expand_tilde_with("~//./x/", &home), "/home/me/x");
    assert_eq!(expand_tilde_with("~", &home), "/home/me/");
    assert_eq!(expand_tilde_with("~x/y", &home), "~x/y");
    assert_eq!(expand_tilde_with("~/x", &None), "~/x");
}

#[test]
fn plan_item_output_names_copy_and_hook() {
    let mut it = item("vim", "colors");
    it.hook = Some("x".to_string());
    it.write_to_file = Some(vec!["/tmp/a".to_string()]);
    let out = plan_item_output(&it, "base16-ayu.vim", None).ok().unwrap();
    assert_eq!(out.file_name, "vim-colors-file.vim");
    assert_eq!(out.hook.unwrap().relative_file_path, "vim-colors-file.vim");
    assert!(out.write.is_some());
}

#[test]
fn stale_entries_are_files_and_dangling_links() {
    assert!(is_stale_entry("x-file.vim", EntryKind::File));
    assert!(!is_stale_entry(".tinty.lock", EntryKind::File));
    assert!(!is_stale_entry("gallery", EntryKind::Dir));
    assert!(is_stale_entry("old", EntryKind::Symlink(LinkTarget::Missing)));
    assert!(!is_stale_entry("live", EntryKind::Symlink(LinkTarget::Present)));
    assert!(!is_stale_entry("odd", EntryKind::Symlink(LinkTarget::Unreadable)));
}

#[test]
fn generate_file_contents_keeps_dollar_signs_verbatim() {
    let result = generate_file_contents("cost $5", "a[S]old[E]b", Some("[S]"), Some("[E]")).ok().unwrap();
    assert_eq!(result, "a[S]cost $5[E]b");
    let result = generate_file_contents("x$1y", "a$S$old$E$b", Some("$S$"), Some("$E$")).ok().unwrap();
    assert_eq!(result, "a$S$x$1y$E$b");
    let result = generate_file_contents("${name}", "top\n# $START\nold", Some("# $START\n"), None).ok().unwrap();
    assert_eq!(result, "top\n# $START\n${name}");
}

#[test]
fn escape_for_regex_backslashes_meta_characters() {
    assert_eq!(escape_for_regex("<!-- S -->"), "<!\\-\\- S \\-\\->");
    assert_eq!(escape_for_regex("[a.b]$"), "\\[a\\.b\\]\\$");
    assert_eq!(escape_for_regex("plain"), "plain");
}
