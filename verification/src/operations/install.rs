//! `tinty install`: which repositories are cloned and which directories are
//! linked, how the schemes repository's slot is made ready for its source,
//! and what is reported. Cloning, linking and printing is the caller's.
use crate::config::{clone_opt, opt_view, Config, ConfigItem};
use crate::constants::{REPO_DIR, SCHEMES_REPO_NAME};
use crate::outside::{is_url, url_parses};
use crate::paths::path_join;
use crate::text::{cat, cat3, ends_with, is_ws, str_eq, str_trim, trim, trim_end, trim_end_char, trim_end_char_vec, trim_start};
use vstd::prelude::*;

verus! {

// ---------------------------------------------------------------------------
// Comparing Git URLs.
// ---------------------------------------------------------------------------

/// A Git URL as compared: trimmed, without trailing `/`, then without a
/// `.git` suffix.
pub open spec fn normalize_git_url(u: Seq<char>) -> Seq<char> {
    let t = trim_end_char(trim(u), '/');
    if ends_with(t, ".git"@) {
        t.subrange(0, t.len() - 4)
    } else {
        t
    }
}

/// Whether two Git URLs name the same repository once normalised, so that
/// `.../schemes`, `.../schemes/` and `.../schemes.git` compare equal.
pub fn git_url_eq(a: &str, b: &str) -> (res: bool)
    ensures
        res == (normalize_git_url(a@) == normalize_git_url(b@)),
{
    let na = normalize(a);
    let nb = normalize(b);
    str_eq(na.as_str(), nb.as_str())
}

/// A Git URL as compared.
fn normalize(url: &str) -> (res: String)
    ensures
        res@ == normalize_git_url(url@),
{
    let t = str_trim(url);
    let v = crate::text::chars_of(t.as_str());
    let w = trim_end_char_vec(&v, '/');
    proof {
        reveal_strlit(".git");
    }
    let s = crate::text::string_of(&w);
    if crate::text::str_ends_with(s.as_str(), ".git") {
        crate::text::string_of(&crate::text::slice_chars(&w, 0, w.len() - 4))
    } else {
        s
    }
}

/// Comparing Git URLs is an equivalence: reflexive, symmetric and
/// transitive.
pub proof fn law_git_url_eq_is_equivalence(a: Seq<char>, b: Seq<char>, c: Seq<char>)
    ensures
        normalize_git_url(a) == normalize_git_url(a),
        normalize_git_url(a) == normalize_git_url(b) ==> normalize_git_url(b) == normalize_git_url(a),
        normalize_git_url(a) == normalize_git_url(b) && normalize_git_url(b) == normalize_git_url(c)
            ==> normalize_git_url(a) == normalize_git_url(c),
{
}

/// A URL that neither begins nor ends with whitespace nor ends with `/` or
/// `.git` compares equal to itself with a trailing `/` and with a `.git`
/// suffix.
pub proof fn law_git_url_suffixes(u: Seq<char>)
    requires
        u.len() > 0,
        !is_ws(u[0]),
        !is_ws(u.last()),
        u.last() != '/',
        !ends_with(u, ".git"@),
    ensures
        normalize_git_url(u) == u,
        normalize_git_url(u + "/"@) == u,
        normalize_git_url(u + ".git"@) == u,
{
    reveal_strlit("/");
    reveal_strlit(".git");
    let s = u + "/"@;
    let g = u + ".git"@;
    assert(s[0] == u[0]);
    assert(g[0] == u[0]);
    assert(trim_start(u) == u);
    assert(trim_start(s) == s);
    assert(trim_start(g) == g);
    assert(trim_end(u) == u);
    assert(s.last() == '/');
    assert(trim_end(s) == s);
    assert(g.last() == 't');
    assert(trim_end(g) == g);
    assert(trim_end_char(u, '/') == u);
    assert(s.drop_last() =~= u);
    assert(trim_end_char(s, '/') == u);
    assert(trim_end_char(g, '/') == g);
    assert(g.subrange(g.len() - 4, g.len() as int) =~= ".git"@);
    assert(g.subrange(0, g.len() - 4) =~= u);
}

// ---------------------------------------------------------------------------
// What is installed, and how.
// ---------------------------------------------------------------------------

/// How a repository is installed.
pub enum InstallMethod {
    /// Cloned from a Git URL, checked out at `revision` when given.
    Clone { url: String, revision: Option<String> },
    /// Linked to a local directory.
    Link { source: String },
}

/// A repository to install.
pub struct InstallTarget {
    /// Its name, as reported.
    pub name: String,
    /// Its local path.
    pub path: String,
    pub method: InstallMethod,
}

/// `t` installs `name` at `path` from `source` (at `revision`): cloned when
/// the source is a URL, linked otherwise.
pub open spec fn is_install_of(t: InstallTarget, name: Seq<char>, path: Seq<char>, source: Seq<char>, revision: Option<Seq<char>>) -> bool {
    &&& t.name@ == name
    &&& t.path@ == path
    &&& if url_parses(source) {
        t.method matches InstallMethod::Clone { url, revision: r } && url@ == source && opt_view(r) == revision
    } else {
        t.method matches InstallMethod::Link { source: s } && s@ == source
    }
}

/// What `tinty install` works through: every configured item in order,
/// then the built-in schemes repository.
pub struct InstallPlan {
    pub items: Vec<InstallTarget>,
    pub schemes: InstallTarget,
}

/// The configured items, or none.
pub open spec fn configured_items(config: Config) -> Seq<ConfigItem> {
    match config.items {
        Some(v) => v@,
        None => Seq::empty(),
    }
}

/// The install of `name` at `path` from `source`.
fn install_target(name: &str, path: String, source: &str, revision: &Option<String>) -> (res: InstallTarget)
    ensures
        is_install_of(res, name@, path@, source@, opt_view(*revision)),
{
    let method = if is_url(source) {
        InstallMethod::Clone { url: source.to_string(), revision: clone_opt(revision) }
    } else {
        InstallMethod::Link { source: source.to_string() }
    };
    InstallTarget { name: name.to_string(), path, method }
}

/// What `tinty install` works through for `config`, with the data dir at
/// `data_path`: each item at `<data dir>/repos/<name>`, the schemes
/// repository at `<data dir>/repos/schemes`.
pub fn install(config: &Config, data_path: &str) -> (res: InstallPlan)
    ensures
        res.items.len() == configured_items(*config).len(),
        forall|i: int| 0 <= i < res.items.len() ==> {
            let item = configured_items(*config)[i];
            is_install_of(#[trigger] res.items@[i], item.name@, path_join(path_join(data_path@, REPO_DIR@), item.name@), item.path@, opt_view(item.revision))
        },
        is_install_of(res.schemes, SCHEMES_REPO_NAME@, path_join(path_join(data_path@, REPO_DIR@), SCHEMES_REPO_NAME@),
            config.schemes_source_spec().0, config.schemes_source_spec().1),
{
    let mut items: Vec<InstallTarget> = Vec::new();
    match &config.items {
        Some(v) => {
            let n = v.len();
            let mut i: usize = 0;
            while i < n
                invariant
                    n == v.len(),
                    config.items == Some(*v),
                    i <= n,
                    items.len() == i,
                    forall|k: int| 0 <= k < i ==> is_install_of(#[trigger] items@[k], v@[k].name@, path_join(path_join(data_path@, REPO_DIR@), v@[k].name@), v@[k].path@, opt_view(v@[k].revision)),
                decreases n - i,
            {
                let item = &v[i];
                let path = crate::paths::item_repo_path(data_path, item.name.as_str());
                items.push(install_target(item.name.as_str(), path, item.path.as_str(), &item.revision));
                i = i + 1;
            }
        },
        None => {},
    }
    let (source, revision) = config.schemes_source();
    let path = crate::paths::item_repo_path(data_path, SCHEMES_REPO_NAME);
    let schemes = install_target(SCHEMES_REPO_NAME, path, source.as_str(), &revision);
    InstallPlan { items, schemes }
}

// ---------------------------------------------------------------------------
// Decisions along the way.
// ---------------------------------------------------------------------------

/// What occupies a path, links not followed.
#[derive(Clone, Copy, Debug, PartialEq, Eq, Structural)]
pub enum SlotState {
    /// Nothing (or nothing that can be examined).
    Empty,
    /// A symbolic link.
    Symlink,
    /// Something else: a directory left by a clone.
    Other,
}

/// What to clear from the schemes repository's slot before installing.
#[derive(Clone, Copy, Debug, PartialEq, Eq, Structural)]
pub enum SlotPreparation {
    /// Nothing.
    Keep,
    /// The symbolic link there.
    RemoveSymlink,
    /// The clone there.
    RemoveClone,
}

/// Makes the slot ready for a clone of `source`: a link left by a
/// local-directory source goes, as does a clone whose `origin` (`origin`,
/// when it has one) is not `source`; an empty slot or a clone of `source`
/// stays.
pub fn prepare_clone_slot(state: SlotState, origin: &Option<String>, source: &str) -> (res: SlotPreparation)
    ensures
        state == SlotState::Empty ==> res == SlotPreparation::Keep,
        state == SlotState::Symlink ==> res == SlotPreparation::RemoveSymlink,
        state == SlotState::Other ==> res == if (origin matches Some(o) && normalize_git_url(o@) == normalize_git_url(source@)) {
            SlotPreparation::Keep
        } else {
            SlotPreparation::RemoveClone
        },
{
    match state {
        SlotState::Empty => SlotPreparation::Keep,
        SlotState::Symlink => SlotPreparation::RemoveSymlink,
        SlotState::Other => {
            let matches = match origin {
                Some(o) => git_url_eq(o.as_str(), source),
                None => false,
            };
            if matches {
                SlotPreparation::Keep
            } else {
                SlotPreparation::RemoveClone
            }
        },
    }
}

/// Makes the slot ready for a link to a local directory: a clone left by a
/// Git source goes; a link (refreshed later) or an empty slot stays.
pub fn prepare_symlink_slot(state: SlotState) -> (res: SlotPreparation)
    ensures
        res == if state == SlotState::Other {
            SlotPreparation::RemoveClone
        } else {
            SlotPreparation::Keep
        },
{
    if state == SlotState::Other {
        SlotPreparation::RemoveClone
    } else {
        SlotPreparation::Keep
    }
}

/// Why a repository could not be installed.
pub enum InstallError {
    /// The configured local source exists but is no directory; holds it.
    SourceNotADirectory(String),
    /// The install path holds something that is not a link; holds it.
    NotASymlink(String),
    /// The old link could not be removed; holds it.
    SymlinkNotRemoved(String),
}

impl InstallError {
    /// The message this error is reported with.
    pub fn message(&self) -> (res: String)
        ensures
            res@ == match self {
                InstallError::SourceNotADirectory(p) => p@ + " is not a symlink to a directory. Please remove it and try again"@,
                InstallError::NotASymlink(p) => "\""@ + p@ + "\" is a not a symlink, but according to your config it should be. Please remove this directory and try again"@,
                InstallError::SymlinkNotRemoved(p) => "Error trying to remove symlink at \""@ + p@ + "\". Remove it manually and try again"@,
            },
    {
        match self {
            InstallError::SourceNotADirectory(p) => cat(p.as_str(), " is not a symlink to a directory. Please remove it and try again"),
            InstallError::NotASymlink(p) => cat3("\"", p.as_str(), "\" is a not a symlink, but according to your config it should be. Please remove this directory and try again"),
            InstallError::SymlinkNotRemoved(p) => cat3("Error trying to remove symlink at \"", p.as_str(), "\". Remove it manually and try again"),
        }
    }
}

/// How a local directory is linked in.
#[derive(Clone, Copy, Debug, PartialEq, Eq, Structural)]
pub enum LinkStep {
    /// Create the link; report the item installed.
    Link,
    /// Replace the existing link; report the item already installed.
    Relink,
    /// Leave what is there.
    Nothing,
}

/// How the local directory `source` (`source_exists`, `source_is_dir`) is
/// linked in at `path`, given what occupies `path` (`None` when it exists
/// but cannot be examined).
pub fn install_dir_step(source: &str, source_exists: bool, source_is_dir: bool, path: &str, path_state: Option<SlotState>) -> (res: Result<LinkStep, InstallError>)
    ensures
        source_exists && !source_is_dir ==> (res matches Err(InstallError::SourceNotADirectory(p)) && p@ == source@),
        !(source_exists && !source_is_dir) ==> match path_state {
            None => res matches Err(InstallError::NotASymlink(p)) && p@ == path@,
            Some(SlotState::Empty) => res matches Ok(LinkStep::Link),
            Some(SlotState::Symlink) => res matches Ok(LinkStep::Relink),
            Some(SlotState::Other) => res matches Ok(LinkStep::Nothing),
        },
{
    if source_exists && !source_is_dir {
        return Err(InstallError::SourceNotADirectory(source.to_string()));
    }
    match path_state {
        None => Err(InstallError::NotASymlink(path.to_string())),
        Some(SlotState::Empty) => Ok(LinkStep::Link),
        Some(SlotState::Symlink) => Ok(LinkStep::Relink),
        Some(SlotState::Other) => Ok(LinkStep::Nothing),
    }
}

/// What is printed once `name` is dealt with (nothing when quiet):
/// installed just now, or already there.
pub fn install_report(name: &str, newly_installed: bool, is_quiet: bool) -> (res: Option<String>)
    ensures
        is_quiet ==> res is None,
        !is_quiet && newly_installed ==> (res matches Some(m) && m@ == name@ + " installed"@),
        !is_quiet && !newly_installed ==> (res matches Some(m) && m@ == name@ + " already installed"@),
{
    if is_quiet {
        None
    } else if newly_installed {
        Some(cat(name, " installed"))
    } else {
        Some(cat(name, " already installed"))
    }
}

} // verus!
