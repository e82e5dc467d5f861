//! Names and fixed values shared across the library.
use vstd::prelude::*;

verus! {

/// The tool's own name.
pub const REPO_NAME: &'static str = "tinty";
/// The project's home page.
pub const REPO_URL: &'static str = "https://github.com/tinted-theming/tinty";
/// Subdirectory of the data dir that holds template `[[items]]` repositories.
pub const REPO_DIR: &'static str = "repos";
/// Subdirectory of the data dir that holds scheme repositories: the built-in
/// `schemes` repo plus any `[[schemes.extras]]` the user configures.
pub const SCHEME_REPO_DIR: &'static str = "scheme-repos";
/// Subdirectory of the data dir holding the applied theme files.
pub const ARTIFACTS_DIR: &'static str = "artifacts";
/// Lock file guarding the artifacts directory.
pub const LOCK_FILE: &'static str = ".tinty.lock";
/// Source of the built-in schemes repository.
pub const SCHEMES_REPO_URL: &'static str = "https://github.com/tinted-theming/schemes";
/// Name (and directory) of the built-in schemes repository.
pub const SCHEMES_REPO_NAME: &'static str = "schemes";
/// Directory of locally generated schemes.
pub const CUSTOM_SCHEMES_DIR_NAME: &'static str = "custom-schemes";
/// File recording the applied scheme.
pub const CURRENT_SCHEME_FILE_NAME: &'static str = "current_scheme";
/// The default scheme system's name.
pub const DEFAULT_SCHEME_SYSTEM: &'static str = "base16";
/// Pinned revision of the built-in schemes repository.
pub const SCHEMES_REPO_REVISION: &'static str = "spec-0.11";
/// Fallback Git revision used when a repository has no configured `revision`.
pub const DEFAULT_REVISION: &'static str = "main";

} // verus!
