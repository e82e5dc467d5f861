//! The base16-tmux hook: tmux colour configuration.
use crate::hooks::utils::{is_theme_file_name, theme_of_file, HookAction, HookActionView, HookJob, HookStage};
use crate::paths::{join_path, path_join};
use vstd::prelude::*;

verus! {

/// The template repository's name, and its directory in the data dir.
pub const TEMPLATE_NAME: &'static str = "base16-tmux";
/// Where the template repository is cloned from.
pub const TEMPLATE_REPO_URL: &'static str = "https://github.com/tinted-theming/base16-tmux";
/// The file in the config dir that selects the theme.
pub const FILE_NAME: &'static str = "tmux.base16.conf";
/// The template repository's directory of theme files.
pub const LOCAL_THEMES_DIR: &'static str = "colors";

/// The directory of theme files: `<data dir>/base16-tmux/colors`.
pub fn themes_path(app_data_path: &str) -> (res: String)
    ensures
        res@ == path_join(path_join(app_data_path@, TEMPLATE_NAME@), LOCAL_THEMES_DIR@),
{
    join_path(join_path(app_data_path, TEMPLATE_NAME).as_str(), LOCAL_THEMES_DIR)
}

/// Whether one of the theme files (`file_names`, each `base16-<theme>.conf`)
/// is that of `theme_name`.
pub fn has_theme(theme_name: &str, file_names: &Vec<String>) -> (res: bool)
    requires
        forall|i: int| 0 <= i < file_names.len() ==> is_theme_file_name(#[trigger] file_names@[i]@, "base16-"@, ".conf"@),
    ensures
        res == exists|i: int| 0 <= i < file_names.len() && theme_of_file(#[trigger] file_names@[i]@, "base16-"@, ".conf"@) == theme_name@,
{
    crate::hooks::utils::hook_has_theme(theme_name, file_names, "base16-", ".conf")
}

/// Starts setting up the template repository at `<data dir>/base16-tmux`
/// (`exists` telling whether that path exists), as `utils::setup_hook` does.
pub fn setup_hook(app_data_path: &str, exists: bool) -> (res: (HookJob, HookAction))
    ensures
        res.0.name@ == TEMPLATE_NAME@,
        res.0.url@ == TEMPLATE_REPO_URL@,
        res.0.path@ == path_join(app_data_path@, TEMPLATE_NAME@),
        !exists ==> res.0.stage == HookStage::AwaitSetupClone && res.1@ == HookActionView::Clone(TEMPLATE_REPO_URL@, res.0.path@),
        exists ==> res.0.stage == HookStage::Finished && res.1@ == HookActionView::Done(Ok(false)),
{
    let path = join_path(app_data_path, TEMPLATE_NAME);
    crate::hooks::utils::setup_hook(TEMPLATE_NAME, TEMPLATE_REPO_URL, path.as_str(), exists)
}

/// Starts bringing the template repository at `<data dir>/base16-tmux` up
/// to date (`exists` telling whether that path exists), as
/// `utils::update_hook` does.
pub fn update_hook(app_data_path: &str, exists: bool) -> (res: (HookJob, HookAction))
    ensures
        res.0.name@ == TEMPLATE_NAME@,
        res.0.url@ == TEMPLATE_REPO_URL@,
        res.0.path@ == path_join(app_data_path@, TEMPLATE_NAME@),
        exists ==> res.0.stage == HookStage::AwaitStatus && res.1@ == HookActionView::Status(res.0.path@),
        !exists ==> res.0.stage == HookStage::AwaitUpdateClone && res.1@ == HookActionView::Clone(TEMPLATE_REPO_URL@, res.0.path@),
{
    let path = join_path(app_data_path, TEMPLATE_NAME);
    crate::hooks::utils::update_hook(TEMPLATE_NAME, TEMPLATE_REPO_URL, path.as_str(), exists)
}

/// The configuration line that selects theme `theme_name`.
pub fn theme_setting(theme_name: &str) -> (res: String)
    ensures
        res@ == "set -g @colors-base16 '"@ + theme_name@ + "'"@,
{
    crate::text::cat3("set -g @colors-base16 '", theme_name, "'")
}

} // verus!
