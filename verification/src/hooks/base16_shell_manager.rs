//! The shell-manager hook: the list of schemes the manager knows.
use crate::constants::{REPO_NAME, REPO_URL};
use crate::hooks::utils::{HookAction, HookActionView, HookJob, HookStage};
use crate::paths::{join_path, path_join};
use vstd::prelude::*;

verus! {

/// The themes listed in the schemes list file, one per line, when that file
/// exists.
pub fn get_themes(list_exists: bool, lines: Vec<String>) -> (res: Option<Vec<String>>)
    ensures
        list_exists ==> res == Some(lines),
        !list_exists ==> res is None,
{
    if list_exists {
        Some(lines)
    } else {
        None
    }
}

/// The schemes list file: `<data dir>/tinty/schemes.txt`.
pub fn schemes_list_path(app_data_path: &str) -> (res: String)
    ensures
        res@ == path_join(path_join(app_data_path@, REPO_NAME@), "schemes.txt"@),
{
    join_path(join_path(app_data_path, REPO_NAME).as_str(), "schemes.txt")
}

/// Whether `theme_name` is one of the listed schemes.
pub fn has_theme(theme_name: &str, schemes_list: &Vec<String>) -> (res: bool)
    ensures
        res == exists|i: int| 0 <= i < schemes_list.len() && #[trigger] schemes_list@[i]@ == theme_name@,
{
    let n = schemes_list.len();
    let mut i: usize = 0;
    while i < n
        invariant
            n == schemes_list.len(),
            i <= n,
            forall|j: int| 0 <= j < i ==> #[trigger] schemes_list@[j]@ != theme_name@,
        decreases n - i,
    {
        if crate::text::str_eq(schemes_list[i].as_str(), theme_name) {
            return true;
        }
        i = i + 1;
    }
    false
}

/// Starts setting up the manager's repository at `<data dir>/tinty`
/// (`exists` telling whether that path exists), as `utils::setup_hook` does.
pub fn setup_hook(app_data_path: &str, exists: bool) -> (res: (HookJob, HookAction))
    ensures
        res.0.name@ == REPO_NAME@,
        res.0.url@ == REPO_URL@,
        res.0.path@ == path_join(app_data_path@, REPO_NAME@),
        !exists ==> res.0.stage == HookStage::AwaitSetupClone && res.1@ == HookActionView::Clone(REPO_URL@, res.0.path@),
        exists ==> res.0.stage == HookStage::Finished && res.1@ == HookActionView::Done(Ok(false)),
{
    let path = join_path(app_data_path, REPO_NAME);
    crate::hooks::utils::setup_hook(REPO_NAME, REPO_URL, path.as_str(), exists)
}

/// Starts bringing the manager's repository at `<data dir>/tinty` up to date
/// (`exists` telling whether that path exists), as `utils::update_hook` does.
pub fn update_hook(app_data_path: &str, exists: bool) -> (res: (HookJob, HookAction))
    ensures
        res.0.name@ == REPO_NAME@,
        res.0.url@ == REPO_URL@,
        res.0.path@ == path_join(app_data_path@, REPO_NAME@),
        exists ==> res.0.stage == HookStage::AwaitStatus && res.1@ == HookActionView::Status(res.0.path@),
        !exists ==> res.0.stage == HookStage::AwaitUpdateClone && res.1@ == HookActionView::Clone(REPO_URL@, res.0.path@),
{
    let path = join_path(app_data_path, REPO_NAME);
    crate::hooks::utils::update_hook(REPO_NAME, REPO_URL, path.as_str(), exists)
}

} // verus!
