//! `tinty setup`: the repositories cloned when missing.
use crate::config::{Config, ConfigItem};
use crate::constants::{REPO_DIR, SCHEMES_REPO_NAME, SCHEMES_REPO_URL};
use crate::paths::path_join;
use vstd::prelude::*;

verus! {

/// A repository cloned when it is missing.
pub struct SetupTarget {
    /// Its name, as reported.
    pub name: String,
    /// Its local path.
    pub path: String,
    /// Where it is cloned from.
    pub url: String,
}

/// The configured items, or none.
pub open spec fn configured_items(config: Config) -> Seq<ConfigItem> {
    match config.items {
        Some(v) => v@,
        None => Seq::empty(),
    }
}

/// What `tinty setup` works through for `config`, with the data dir at
/// `data_path`: every configured item (cloned from its `path` into
/// `<data dir>/repos/<name>`), then the built-in schemes repository from its
/// default URL.
pub fn setup(config: &Config, data_path: &str) -> (res: Vec<SetupTarget>)
    ensures
        res.len() == configured_items(*config).len() + 1,
        forall|i: int| 0 <= i < configured_items(*config).len() ==> {
            let item = configured_items(*config)[i];
            &&& (#[trigger] res@[i]).name@ == item.name@
            &&& res@[i].path@ == path_join(path_join(data_path@, REPO_DIR@), item.name@)
            &&& res@[i].url@ == item.path@
        },
        res@.last().name@ == SCHEMES_REPO_NAME@,
        res@.last().path@ == path_join(path_join(data_path@, REPO_DIR@), SCHEMES_REPO_NAME@),
        res@.last().url@ == SCHEMES_REPO_URL@,
{
    let mut v: Vec<SetupTarget> = Vec::new();
    match &config.items {
        Some(items) => {
            let n = items.len();
            let mut i: usize = 0;
            while i < n
                invariant
                    n == items.len(),
                    config.items == Some(*items),
                    i <= n,
                    v.len() == i,
                    forall|k: int| 0 <= k < i ==> {
                        &&& (#[trigger] v@[k]).name@ == items@[k].name@
                        &&& v@[k].path@ == path_join(path_join(data_path@, REPO_DIR@), items@[k].name@)
                        &&& v@[k].url@ == items@[k].path@
                    },
                decreases n - i,
            {
                let item = &items[i];
                v.push(SetupTarget {
                    name: item.name.clone(),
                    path: crate::paths::item_repo_path(data_path, item.name.as_str()),
                    url: item.path.clone(),
                });
                i = i + 1;
            }
        },
        None => {},
    }
    v.push(SetupTarget {
        name: SCHEMES_REPO_NAME.to_string(),
        path: crate::paths::item_repo_path(data_path, SCHEMES_REPO_NAME),
        url: SCHEMES_REPO_URL.to_string(),
    });
    v
}

/// What setting up one target does, knowing whether its path is already a
/// directory.
pub enum SetupStep {
    /// Clone `url` into `path`, then report `message`.
    Clone { url: String, path: String, message: String },
    /// Leave the existing directory alone and report `message`.
    Keep { message: String },
}

/// The step for `target`: a missing repository is cloned from its URL and
/// reported as `<name> installed`; an existing directory is left alone and
/// reported as `<name> already installed`.
pub fn setup_item(target: &SetupTarget, is_dir: bool) -> (res: SetupStep)
    ensures
        !is_dir ==> (res matches SetupStep::Clone { url, path, message } && url@ == target.url@ && path@
            == target.path@ && message@ == target.name@ + " installed"@),
        is_dir ==> (res matches SetupStep::Keep { message } && message@ == target.name@
            + " already installed"@),
{
    if !is_dir {
        SetupStep::Clone {
            url: target.url.clone(),
            path: target.path.clone(),
            message: crate::text::cat(&target.name, " installed"),
        }
    } else {
        SetupStep::Keep { message: crate::text::cat(&target.name, " already installed") }
    }
}

} // verus!
