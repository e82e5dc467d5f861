//! The base16-shell hook: shell scripts that set the terminal's colours.
use crate::hooks::utils::{is_theme_file_name, theme_of_file, HookAction, HookActionView, HookJob, HookStage};
use crate::paths::{join_path, path_join};
use crate::text::cat3;
use vstd::prelude::*;

verus! {

/// The template repository's name, and its directory in the data dir.
pub const TEMPLATE_NAME: &'static str = "base16-shell";
/// Where the template repository is cloned from.
pub const TEMPLATE_REPO_URL: &'static str = "https://github.com/tinted-theming/base16-shell";
/// The file in the config dir that holds the active theme's script.
pub const LOCAL_THEME: &'static str = "base16_shell_theme";
/// The template repository's directory of theme scripts.
pub const LOCAL_THEMES_DIR: &'static str = "scripts";

/// The directory of theme scripts: `<data dir>/base16-shell/scripts`.
pub fn themes_path(app_data_path: &str) -> (res: String)
    ensures
        res@ == path_join(path_join(app_data_path@, TEMPLATE_NAME@), LOCAL_THEMES_DIR@),
{
    join_path(join_path(app_data_path, TEMPLATE_NAME).as_str(), LOCAL_THEMES_DIR)
}

/// Whether one of the theme scripts (`file_names`, each `base16-<theme>.sh`)
/// is that of `theme_name`.
pub fn has_theme(theme_name: &str, file_names: &Vec<String>) -> (res: bool)
    requires
        forall|i: int| 0 <= i < file_names.len() ==> is_theme_file_name(#[trigger] file_names@[i]@, "base16-"@, ".sh"@),
    ensures
        res == exists|i: int| 0 <= i < file_names.len() && theme_of_file(#[trigger] file_names@[i]@, "base16-"@, ".sh"@) == theme_name@,
{
    crate::hooks::utils::hook_has_theme(theme_name, file_names, "base16-", ".sh")
}

/// Starts setting up the template repository at `<data dir>/base16-shell`
/// (`exists` telling whether that path exists), as `utils::setup_hook` does.
pub fn setup_hook(app_data_path: &str, exists: bool) -> (res: (HookJob, HookAction))
    ensures
        res.0.name@ == TEMPLATE_NAME@,
        res.0.url@ == TEMPLATE_REPO_URL@,
        res.0.path@ == path_join(app_data_path@, TEMPLATE_NAME@),
        !exists ==> res.0.stage == HookStage::AwaitSetupClone && res.1@ == HookActionView::Clone(TEMPLATE_REPO_URL@, res.0.path@),
        exists ==> res.0.stage == HookStage::Finished && res.1@ == HookActionView::Done(Ok(false)),
{
    let path = join_path(app_data_path, TEMPLATE_NAME);
    crate::hooks::utils::setup_hook(TEMPLATE_NAME, TEMPLATE_REPO_URL, path.as_str(), exists)
}

/// Starts bringing the template repository at `<data dir>/base16-shell` up
/// to date (`exists` telling whether that path exists), as
/// `utils::update_hook` does.
pub fn update_hook(app_data_path: &str, exists: bool) -> (res: (HookJob, HookAction))
    ensures
        res.0.name@ == TEMPLATE_NAME@,
        res.0.url@ == TEMPLATE_REPO_URL@,
        res.0.path@ == path_join(app_data_path@, TEMPLATE_NAME@),
        exists ==> res.0.stage == HookStage::AwaitStatus && res.1@ == HookActionView::Status(res.0.path@),
        !exists ==> res.0.stage == HookStage::AwaitUpdateClone && res.1@ == HookActionView::Clone(TEMPLATE_REPO_URL@, res.0.path@),
{
    let path = join_path(app_data_path, TEMPLATE_NAME);
    crate::hooks::utils::update_hook(TEMPLATE_NAME, TEMPLATE_REPO_URL, path.as_str(), exists)
}

/// The file in the config dir that holds the active theme's script.
pub fn local_theme_path(app_config_path: &str) -> (res: String)
    ensures
        res@ == path_join(app_config_path@, LOCAL_THEME@),
{
    join_path(app_config_path, LOCAL_THEME)
}

/// The notice given when there is no theme to initialise: no theme script in
/// the config dir (`theme_exists` false) or no theme name.
pub fn init_theme_check(theme_name: &str, theme_exists: bool) -> (res: Option<(String, bool)>)
    ensures
        (!theme_exists || theme_name@.len() == 0) ==> (res matches Some((m, ok)) && !ok
            && m@ == "Config files don't exist, run `base16_shell set <THEME_NAME>` to create them"@),
        (theme_exists && theme_name@.len() > 0) ==> res is None,
{
    if !theme_exists || theme_name.is_empty() {
        Some(("Config files don't exist, run `base16_shell set <THEME_NAME>` to create them".to_string(), false))
    } else {
        None
    }
}

/// What initialising the theme reports once its script at `theme_path` has
/// run, successfully or not.
pub fn init_theme_outcome(success: bool, theme_path: &str) -> (res: (String, bool))
    ensures
        success ==> res.0@ == Seq::<char>::empty() && res.1,
        !success ==> res.0@ == "There was an issue executing theme with `sh` at: "@ + theme_path@ && !res.1,
{
    if success {
        (String::new(), true)
    } else {
        (crate::text::cat("There was an issue executing theme with `sh` at: ", theme_path), false)
    }
}

/// The script of theme `theme_name` in the template repository at
/// `local_repo_path`: `scripts/base16-<theme>.sh`.
pub fn theme_script_path(local_repo_path: &str, theme_name: &str) -> (res: String)
    ensures
        res@ == path_join(local_repo_path@, "scripts/base16-"@ + theme_name@ + ".sh"@),
{
    join_path(local_repo_path, cat3("scripts/base16-", theme_name, ".sh").as_str())
}

/// The complaint when a theme's script does not exist.
pub fn missing_theme_message(theme_name: &str, script_path: &str) -> (res: String)
    ensures
        res@ == "Theme \""@ + theme_name@ + "\" does not exist at \""@ + script_path@ + "\", try a different theme"@,
{
    let mut m = cat3("Theme \"", theme_name, "\" does not exist at \"");
    m.append(script_path);
    m.append("\", try a different theme");
    m
}

} // verus!
