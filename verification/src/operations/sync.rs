//! `tinty sync`: an install followed by an update.
use crate::config::Config;
use crate::operations::install::{install, InstallPlan};
use crate::operations::update::{update, UpdatePlan};
use vstd::prelude::*;

verus! {

/// What `tinty sync` works through for `config`: first everything
/// `tinty install` does, then everything `tinty update` does.
pub fn sync(config: &Config, data_path: &str) -> (res: (InstallPlan, UpdatePlan))
    ensures
        res.0.items.len() == crate::operations::install::configured_items(*config).len(),
        res.1.items.len() == crate::operations::update::configured_items(*config).len(),
        forall|i: int| 0 <= i < res.0.items.len() ==> {
            let item = crate::operations::install::configured_items(*config)[i];
            crate::operations::install::is_install_of(#[trigger] res.0.items@[i], item.name@, crate::paths::path_join(crate::paths::path_join(data_path@, crate::constants::REPO_DIR@), item.name@), item.path@, crate::config::opt_view(item.revision))
        },
        forall|i: int| 0 <= i < res.1.items.len() ==> crate::operations::update::is_item_target(#[trigger] res.1.items@[i], crate::operations::update::configured_items(*config)[i], data_path@),
{
    let first = install(config, data_path);
    let second = update(config, data_path);
    (first, second)
}

/// Runs the install step, then, only when it succeeded, the update step:
/// the outcome is the install's error when it failed, and the update's
/// outcome otherwise.
pub fn run_sync<E, I, U>(install_step: I, update_step: U) -> (res: Result<(), E>)
    where
        I: FnOnce() -> Result<(), E>,
        U: FnOnce() -> Result<(), E>,
    requires
        call_requires(install_step, ()),
        call_requires(update_step, ()),
    ensures
        (exists|r: Result<(), E>| call_ensures(install_step, (), r) && r is Err && res == r) || (exists|
            r: Result<(), E>,
            u: Result<(), E>,
        | call_ensures(install_step, (), r) && r is Ok && call_ensures(update_step, (), u) && res == u),
{
    let r = install_step();
    if r.is_err() {
        assert(call_ensures(install_step, (), r) && r is Err);
        return r;
    }
    let u = update_step();
    assert(call_ensures(install_step, (), r) && r is Ok && call_ensures(update_step, (), u));
    u
}

} // verus!
