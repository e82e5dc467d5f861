//! The configuration model (`config.toml`) and its validation.
use crate::constants::{SCHEMES_REPO_NAME, SCHEMES_REPO_REVISION, SCHEMES_REPO_URL};
use crate::outside::{is_url, url_parses};
use crate::scheme_system::SchemeSystem;
use crate::text::{cat, cat3, starts_with, str_eq, str_starts_with, str_trim, trim, trim_end, trim_start, views};
use vstd::prelude::*;

verus! {

/// Default shell command used to run hooks; `{}` stands for the command.
pub const DEFAULT_CONFIG_SHELL: &'static str = "sh -c '{}'";
/// Name of the configuration file.
pub const CONFIG_FILE_NAME: &'static str = "config.toml";
/// Organisation directory under the XDG base directories.
pub const ORG_NAME: &'static str = "tinted-theming";
/// Source of the default `[[items]]` entry.
pub const BASE16_SHELL_REPO_URL: &'static str = "https://github.com/tinted-theming/tinted-shell";
/// Name of the default `[[items]]` entry.
pub const BASE16_SHELL_REPO_NAME: &'static str = "tinted-shell";
/// Themes directory of the default `[[items]]` entry.
pub const BASE16_SHELL_THEMES_DIR: &'static str = "scripts";
/// Hook of the default `[[items]]` entry.
pub const BASE16_SHELL_HOOK: &'static str = ". %f";

/// Structure for configuration apply items.
pub struct ConfigItem {
    pub name: String,
    pub path: String,
    pub hook: Option<String>,
    pub themes_dir: String,
    pub supported_systems: Option<Vec<SchemeSystem>>,
    pub theme_file_extension: Option<String>,
    pub revision: Option<String>,
    pub write_to_file: Option<Vec<String>>,
    /// When `true`, `tinty update` is allowed to proceed even if this item's
    /// local copy has uncommitted changes.
    pub allow_dirty_update: bool,
}

/// Structure for configuration cycle rings.
pub struct ConfigRing {
    pub name: String,
    pub schemes: Vec<String>,
}

/// An additional scheme repository declared under `[[schemes.extras]]`.
pub struct SchemeRepoConfig {
    /// Unique name for the repo; also its directory under `scheme-repos/`.
    pub name: String,
    /// Git URL (cloned) or local directory (symlinked).
    pub path: String,
    /// Git revision to check out. Ignored for a local-directory `path`.
    pub revision: Option<String>,
    /// When `true`, `tinty update` may proceed even if this repo's local copy
    /// has uncommitted changes.
    pub allow_dirty_update: bool,
}

/// Settings for the built-in schemes repository (the `[schemes]` table).
pub struct SchemesConfig {
    pub allow_dirty_update: bool,
    pub path: Option<String>,
    pub revision: Option<String>,
    pub extras: Vec<SchemeRepoConfig>,
}

/// Structure for configuration.
pub struct Config {
    pub shell: Option<String>,
    pub default_scheme: Option<String>,
    pub preferred_schemes: Option<Vec<String>>,
    pub rings: Option<Vec<ConfigRing>>,
    pub default_cycle_ring: Option<String>,
    pub items: Option<Vec<ConfigItem>>,
    pub hooks: Option<Vec<String>>,
    pub schemes: SchemesConfig,
}

/// Why a configuration was refused.
pub enum ConfigError {
    /// An item is named `schemes`, the built-in repository's name.
    ReservedItemName,
    /// Two items share this name.
    DuplicateItemName(String),
    /// An extra scheme repository has an empty (or blank) name.
    EmptyExtraName,
    /// An extra scheme repository is named `schemes`.
    ReservedExtraName,
    /// Two extra scheme repositories share this name.
    DuplicateExtraName(String),
    /// A ring has an empty (or blank) name.
    EmptyRingName,
    /// Two rings share this name.
    DuplicateRingName(String),
    /// `default-cycle-ring` names no configured ring.
    UnknownDefaultCycleRing(String),
    /// `default-cycle-ring` is set but no rings are configured.
    NoRingsConfigured(String),
    /// A path starts with `~/` but no home directory is known.
    NoHomeDir(String),
    /// An item's path is neither a URL nor an existing directory.
    InvalidItemPath(String),
    /// `[schemes].path` is neither a URL nor an existing directory.
    InvalidSchemesPath(String),
    /// An extra's path (name, expanded path) is neither a URL nor an existing
    /// directory.
    InvalidExtraPath(String, String),
    /// The configured shell lacks the `{}` placeholder.
    MissingShellPlaceholder,
    /// `[schemes].path` points at tinty's own managed schemes directory.
    CircularSchemesPath(String),
}

/// The mathematical value of a `ConfigError`.
pub enum ConfigErrorView {
    ReservedItemName,
    DuplicateItemName(Seq<char>),
    EmptyExtraName,
    ReservedExtraName,
    DuplicateExtraName(Seq<char>),
    EmptyRingName,
    DuplicateRingName(Seq<char>),
    UnknownDefaultCycleRing(Seq<char>),
    NoRingsConfigured(Seq<char>),
    NoHomeDir(Seq<char>),
    InvalidItemPath(Seq<char>),
    InvalidSchemesPath(Seq<char>),
    InvalidExtraPath(Seq<char>, Seq<char>),
    MissingShellPlaceholder,
    CircularSchemesPath(Seq<char>),
}

impl View for ConfigError {
    type V = ConfigErrorView;

    open spec fn view(&self) -> ConfigErrorView {
        match self {
            ConfigError::ReservedItemName => ConfigErrorView::ReservedItemName,
            ConfigError::DuplicateItemName(n) => ConfigErrorView::DuplicateItemName(n@),
            ConfigError::EmptyExtraName => ConfigErrorView::EmptyExtraName,
            ConfigError::ReservedExtraName => ConfigErrorView::ReservedExtraName,
            ConfigError::DuplicateExtraName(n) => ConfigErrorView::DuplicateExtraName(n@),
            ConfigError::EmptyRingName => ConfigErrorView::EmptyRingName,
            ConfigError::DuplicateRingName(n) => ConfigErrorView::DuplicateRingName(n@),
            ConfigError::UnknownDefaultCycleRing(n) => ConfigErrorView::UnknownDefaultCycleRing(n@),
            ConfigError::NoRingsConfigured(n) => ConfigErrorView::NoRingsConfigured(n@),
            ConfigError::NoHomeDir(p) => ConfigErrorView::NoHomeDir(p@),
            ConfigError::InvalidItemPath(p) => ConfigErrorView::InvalidItemPath(p@),
            ConfigError::InvalidSchemesPath(p) => ConfigErrorView::InvalidSchemesPath(p@),
            ConfigError::InvalidExtraPath(n, p) => ConfigErrorView::InvalidExtraPath(n@, p@),
            ConfigError::MissingShellPlaceholder => ConfigErrorView::MissingShellPlaceholder,
            ConfigError::CircularSchemesPath(p) => ConfigErrorView::CircularSchemesPath(p@),
        }
    }
}

// ---------------------------------------------------------------------------
// Name validation.
// ---------------------------------------------------------------------------

/// `names[i]` equals some earlier name.
pub open spec fn repeats_earlier(names: Seq<Seq<char>>, i: int) -> bool {
    exists|k: int| 0 <= k < i && names[k] == names[i]
}

/// The first problem with the item names, scanning in order: a name equal to
/// `schemes` or to an earlier name.
pub open spec fn item_names_error(names: Seq<Seq<char>>) -> Option<ConfigErrorView>
    decreases names.len(),
{
    if names.len() == 0 {
        None
    } else {
        match item_names_error(names.drop_last()) {
            Some(e) => Some(e),
            None => {
                let i = names.len() - 1;
                if names[i] == SCHEMES_REPO_NAME@ {
                    Some(ConfigErrorView::ReservedItemName)
                } else if repeats_earlier(names, i) {
                    Some(ConfigErrorView::DuplicateItemName(names[i]))
                } else {
                    None
                }
            },
        }
    }
}

/// The first problem with the extra repositories' names: a blank name, the
/// name `schemes`, or a name equal to an earlier one.
pub open spec fn extra_names_error(names: Seq<Seq<char>>) -> Option<ConfigErrorView>
    decreases names.len(),
{
    if names.len() == 0 {
        None
    } else {
        match extra_names_error(names.drop_last()) {
            Some(e) => Some(e),
            None => {
                let i = names.len() - 1;
                if trim(names[i]).len() == 0 {
                    Some(ConfigErrorView::EmptyExtraName)
                } else if names[i] == SCHEMES_REPO_NAME@ {
                    Some(ConfigErrorView::ReservedExtraName)
                } else if repeats_earlier(names, i) {
                    Some(ConfigErrorView::DuplicateExtraName(names[i]))
                } else {
                    None
                }
            },
        }
    }
}

/// The first problem with the ring names: a blank name or a repeated one.
pub open spec fn ring_names_error(names: Seq<Seq<char>>) -> Option<ConfigErrorView>
    decreases names.len(),
{
    if names.len() == 0 {
        None
    } else {
        match ring_names_error(names.drop_last()) {
            Some(e) => Some(e),
            None => {
                let i = names.len() - 1;
                if trim(names[i]).len() == 0 {
                    Some(ConfigErrorView::EmptyRingName)
                } else if repeats_earlier(names, i) {
                    Some(ConfigErrorView::DuplicateRingName(names[i]))
                } else {
                    None
                }
            },
        }
    }
}

/// The names of the items.
pub open spec fn item_names(items: Seq<ConfigItem>) -> Seq<Seq<char>> {
    items.map_values(|i: ConfigItem| i.name@)
}

/// The names of the extra scheme repositories.
pub open spec fn extra_names(extras: Seq<SchemeRepoConfig>) -> Seq<Seq<char>> {
    extras.map_values(|e: SchemeRepoConfig| e.name@)
}

/// The names of the rings.
pub open spec fn ring_names_of(rings: Seq<ConfigRing>) -> Seq<Seq<char>> {
    rings.map_values(|r: ConfigRing| r.name@)
}

/// Whether `names[i]` equals one of `names[0..i]`.
fn repeats_earlier_exec(names: &Vec<String>, i: usize) -> (res: bool)
    requires
        i < names.len(),
    ensures
        res == repeats_earlier(views(names@), i as int),
{
    let mut k: usize = 0;
    while k < i
        invariant
            i < names.len(),
            k <= i,
            forall|m: int| 0 <= m < k ==> names@[m]@ != names@[i as int]@,
        decreases i - k,
    {
        if str_eq(&names[k], &names[i]) {
            assert(views(names@)[k as int] == views(names@)[i as int]);
            return true;
        }
        k = k + 1;
    }
    false
}

/// The shapes of name check the three validators use.
enum NameRule {
    Items,
    Extras,
    Rings,
}

/// The first problem under `rule`.
spec fn names_error(rule: NameRule, names: Seq<Seq<char>>) -> Option<ConfigErrorView> {
    match rule {
        NameRule::Items => item_names_error(names),
        NameRule::Extras => extra_names_error(names),
        NameRule::Rings => ring_names_error(names),
    }
}

/// Once a prefix has a problem, that problem is the first one of the whole.
proof fn lemma_error_extends(rule: NameRule, s: Seq<Seq<char>>, i: int)
    requires
        0 <= i <= s.len(),
        names_error(rule, s.take(i)) is Some,
    ensures
        names_error(rule, s) == names_error(rule, s.take(i)),
    decreases s.len(),
{
    if i == s.len() {
        assert(s.take(i) =~= s);
    } else {
        assert(s.drop_last().take(i) =~= s.take(i));
        lemma_error_extends(rule, s.drop_last(), i);
    }
}

/// Checks `names` under `rule`, reporting the first problem.
fn check_names(rule: NameRule, names: &Vec<String>) -> (res: Result<(), ConfigError>)
    ensures
        match res {
            Ok(()) => names_error(rule, views(names@)) is None,
            Err(e) => names_error(rule, views(names@)) == Some(e@),
        },
{
    let n = names.len();
    let mut i: usize = 0;
    assert(views(names@).take(0) =~= Seq::<Seq<char>>::empty());
    while i < n
        invariant
            n == names.len(),
            i <= n,
            names_error(rule, views(names@).take(i as int)) is None,
        decreases n - i,
    {
        let ghost pre = views(names@).take(i + 1);
        assert(pre.drop_last() =~= views(names@).take(i as int));
        assert(pre[i as int] == names@[i as int]@);
        let repeated = repeats_earlier_exec(names, i);
        assert(repeats_earlier(pre, i as int) == repeats_earlier(views(names@), i as int)) by {
            if repeats_earlier(views(names@), i as int) {
                let k = choose|k: int| 0 <= k < i && views(names@)[k] == views(names@)[i as int];
                assert(pre[k] == views(names@)[k]);
            }
            if repeats_earlier(pre, i as int) {
                let k = choose|k: int| 0 <= k < i && pre[k] == pre[i as int];
                assert(pre[k] == views(names@)[k]);
            }
        }
        let name = &names[i];
        proof {
            if names_error(rule, pre) is Some {
                lemma_error_extends(rule, views(names@), i + 1);
            }
        }
        match rule {
            NameRule::Items => {
                proof {
                    reveal_strlit("schemes");
                }
                if str_eq(name, SCHEMES_REPO_NAME) {
                    return Err(ConfigError::ReservedItemName);
                }
                if repeated {
                    return Err(ConfigError::DuplicateItemName(name.clone()));
                }
            },
            NameRule::Extras => {
                let t = str_trim(name);
                if t.as_str().is_empty() {
                    assert(t@.len() == 0);
                    return Err(ConfigError::EmptyExtraName);
                }
                proof {
                    reveal_strlit("schemes");
                }
                if str_eq(name, SCHEMES_REPO_NAME) {
                    return Err(ConfigError::ReservedExtraName);
                }
                if repeated {
                    return Err(ConfigError::DuplicateExtraName(name.clone()));
                }
            },
            NameRule::Rings => {
                let t = str_trim(name);
                if t.as_str().is_empty() {
                    assert(t@.len() == 0);
                    return Err(ConfigError::EmptyRingName);
                }
                if repeated {
                    return Err(ConfigError::DuplicateRingName(name.clone()));
                }
            },
        }
        i = i + 1;
    }
    assert(views(names@).take(n as int) =~= views(names@));
    Ok(())
}

/// Rejects items named `schemes` (reserved for the built-in schemes
/// repository) and item names used more than once.
pub fn ensure_item_name_is_unique(items: &Vec<ConfigItem>) -> (res: Result<(), ConfigError>)
    ensures
        match res {
            Ok(()) => item_names_error(item_names(items@)) is None,
            Err(e) => item_names_error(item_names(items@)) == Some(e@),
        },
{
    let mut names: Vec<String> = Vec::new();
    let n = items.len();
    let mut i: usize = 0;
    while i < n
        invariant
            n == items.len(),
            i <= n,
            views(names@) == item_names(items@).take(i as int),
            names.len() == i,
        decreases n - i,
    {
        let ghost before = names@;
        names.push(items[i].name.clone());
        assert(item_names(items@)[i as int] == items@[i as int].name@);
        assert forall|k: int| 0 <= k < i implies #[trigger] views(names@)[k] == item_names(items@).take(i + 1)[k] by {
            assert(names@[k] == before[k]);
            assert(views(before)[k] == item_names(items@).take(i as int)[k]);
        }
        assert(views(names@) =~= item_names(items@).take(i + 1));
        i = i + 1;
    }
    assert(item_names(items@).take(n as int) =~= item_names(items@));
    check_names(NameRule::Items, &names)
}

/// Validates `[[schemes.extras]]` names: each must be non-blank, must not be
/// the reserved `schemes` name, and must be unique among extras.
pub fn ensure_scheme_extras_are_valid(extras: &Vec<SchemeRepoConfig>) -> (res: Result<(), ConfigError>)
    ensures
        match res {
            Ok(()) => extra_names_error(extra_names(extras@)) is None,
            Err(e) => extra_names_error(extra_names(extras@)) == Some(e@),
        },
{
    let mut names: Vec<String> = Vec::new();
    let n = extras.len();
    let mut i: usize = 0;
    while i < n
        invariant
            n == extras.len(),
            i <= n,
            views(names@) == extra_names(extras@).take(i as int),
            names.len() == i,
        decreases n - i,
    {
        let ghost before = names@;
        names.push(extras[i].name.clone());
        assert(extra_names(extras@)[i as int] == extras@[i as int].name@);
        assert forall|k: int| 0 <= k < i implies #[trigger] views(names@)[k] == extra_names(extras@).take(i + 1)[k] by {
            assert(names@[k] == before[k]);
            assert(views(before)[k] == extra_names(extras@).take(i as int)[k]);
        }
        assert(views(names@) =~= extra_names(extras@).take(i + 1));
        i = i + 1;
    }
    assert(extra_names(extras@).take(n as int) =~= extra_names(extras@));
    check_names(NameRule::Extras, &names)
}

/// Validates ring names: each must be non-blank and unique.
pub fn ensure_ring_names_are_valid(rings: &Vec<ConfigRing>) -> (res: Result<(), ConfigError>)
    ensures
        match res {
            Ok(()) => ring_names_error(ring_names_of(rings@)) is None,
            Err(e) => ring_names_error(ring_names_of(rings@)) == Some(e@),
        },
{
    let mut names: Vec<String> = Vec::new();
    let n = rings.len();
    let mut i: usize = 0;
    while i < n
        invariant
            n == rings.len(),
            i <= n,
            views(names@) == ring_names_of(rings@).take(i as int),
            names.len() == i,
        decreases n - i,
    {
        let ghost before = names@;
        names.push(rings[i].name.clone());
        assert(ring_names_of(rings@)[i as int] == rings@[i as int].name@);
        assert forall|k: int| 0 <= k < i implies #[trigger] views(names@)[k] == ring_names_of(rings@).take(i + 1)[k] by {
            assert(names@[k] == before[k]);
            assert(views(before)[k] == ring_names_of(rings@).take(i as int)[k]);
        }
        assert(views(names@) =~= ring_names_of(rings@).take(i + 1));
        i = i + 1;
    }
    assert(ring_names_of(rings@).take(n as int) =~= ring_names_of(rings@));
    check_names(NameRule::Rings, &names)
}


// ---------------------------------------------------------------------------
// The schemes repository's source.
// ---------------------------------------------------------------------------

/// The view of an optional string.
pub open spec fn opt_view(o: Option<String>) -> Option<Seq<char>> {
    match o {
        Some(s) => Some(s@),
        None => None,
    }
}

/// A copy of an optional string.
pub fn clone_opt(o: &Option<String>) -> (res: Option<String>)
    ensures
        opt_view(res) == opt_view(*o),
{
    match o {
        Some(s) => Some(s.clone()),
        None => None,
    }
}

impl Config {
    /// The effective source and revision of the built-in schemes repository:
    /// without `[schemes].path`, the built-in repo pinned at its revision
    /// (or at `[schemes].revision` when set); with a `path`, that source and
    /// the configured revision, if any.
    pub open spec fn schemes_source_spec(&self) -> (Seq<char>, Option<Seq<char>>) {
        match self.schemes.path {
            None => (
                SCHEMES_REPO_URL@,
                Some(
                    match self.schemes.revision {
                        Some(r) => r@,
                        None => SCHEMES_REPO_REVISION@,
                    },
                ),
            ),
            Some(p) => (p@, opt_view(self.schemes.revision)),
        }
    }

    /// Resolves the effective source and revision for the built-in schemes
    /// repository from the `[schemes]` table.
    pub fn schemes_source(&self) -> (res: (String, Option<String>))
        ensures
            (res.0@, opt_view(res.1)) == self.schemes_source_spec(),
    {
        match &self.schemes.path {
            None => {
                let revision = match &self.schemes.revision {
                    Some(r) => r.clone(),
                    None => SCHEMES_REPO_REVISION.to_string(),
                };
                (SCHEMES_REPO_URL.to_string(), Some(revision))
            },
            Some(path) => (path.clone(), clone_opt(&self.schemes.revision)),
        }
    }
}

// ---------------------------------------------------------------------------
// Rendering the configuration as TOML text.
// ---------------------------------------------------------------------------

/// `s` in double quotes.
pub open spec fn quote(s: Seq<char>) -> Seq<char> {
    seq!['"'] + s + seq!['"']
}

/// Each string quoted, joined with `", "`.
pub open spec fn quoted_list(v: Seq<Seq<char>>) -> Seq<char> {
    crate::text::join(v.map_values(|x: Seq<char>| quote(x)), seq![',', ' '])
}

/// Each string of `v` quoted, joined with `", "`.
pub fn quoted_join(v: &Vec<String>) -> (res: String)
    ensures
        res@ == quoted_list(views(v@)),
{
    let mut q: Vec<String> = Vec::new();
    let n = v.len();
    let mut i: usize = 0;
    while i < n
        invariant
            n == v.len(),
            i <= n,
            q.len() == i,
            forall|k: int| 0 <= k < i ==> #[trigger] q@[k]@ == quote(v@[k]@),
        decreases n - i,
    {
        proof {
            reveal_strlit("\"");
        }
        let item = cat3("\"", &v[i], "\"");
        assert(item@ =~= quote(v@[i as int]@));
        q.push(item);
        i = i + 1;
    }
    proof {
        reveal_strlit(", ");
        assert(views(q@) =~= views(v@).map_values(|x: Seq<char>| quote(x)));
        assert(", "@ =~= seq![',', ' ']);
    }
    crate::text::join_strings(&q, ", ")
}

/// The text of an optional string, empty when absent.
pub open spec fn opt_or_empty(o: Option<String>) -> Seq<char> {
    match o {
        Some(s) => s@,
        None => Seq::empty(),
    }
}

/// The names of the systems an item supports (Base16 when unset).
pub open spec fn item_system_names(item: ConfigItem) -> Seq<Seq<char>> {
    match item.supported_systems {
        Some(v) => v@.map_values(|s: SchemeSystem| s.name()),
        None => seq![SchemeSystem::Base16.name()],
    }
}

/// `line` when `cond`, nothing otherwise.
pub open spec fn when(cond: bool, line: Seq<char>) -> Seq<char> {
    if cond {
        line
    } else {
        Seq::empty()
    }
}

/// The `[[items]]` table for `item`.
pub open spec fn item_toml(item: ConfigItem) -> Seq<char> {
    let hook = opt_or_empty(item.hook);
    let revision = opt_or_empty(item.revision);
    "\n[[items]]\nname = "@ + quote(item.name@) + "\npath = "@ + quote(item.path@) + "\n"@
        + when(hook.len() > 0, "hook = "@ + quote(hook) + "\n"@)
        + when(revision.len() > 0, "revision = "@ + quote(revision) + "\n"@)
        + when(item.allow_dirty_update, "allow-dirty-update = true\n"@)
        + "supported-systems = ["@ + quoted_list(item_system_names(item)) + "]\n"@
        + "themes-dir = "@ + quote(item.themes_dir@)
}

/// `s` appended with `key = "value"` and a line break.
fn push_kv(s: &mut String, key: &str, value: &str)
    ensures
        final(s)@ == old(s)@ + key@ + quote(value@) + "\n"@,
{
    proof {
        reveal_strlit("\"");
        reveal_strlit("\"\n");
        reveal_strlit("\n");
    }
    s.append(key);
    s.append("\"");
    s.append(value);
    s.append("\"\n");
    assert(final(s)@ =~= old(s)@ + key@ + quote(value@) + "\n"@);
}

impl ConfigItem {
    /// The item rendered as a `[[items]]` table.
    #[verifier::spinoff_prover]
    #[verifier::rlimit(40)]
    pub fn to_toml(&self) -> (res: String)
        ensures
            res@ == item_toml(*self),
    {
        let mut s = String::new();
        s.append("\n[[items]]\n");
        push_kv(&mut s, "name = ", &self.name);
        push_kv(&mut s, "path = ", &self.path);
        let ghost head = s@;
        match &self.hook {
            Some(h) => {
                if !h.as_str().is_empty() {
                    push_kv(&mut s, "hook = ", h);
                }
            },
            None => {},
        }
        let ghost after_hook = s@;
        match &self.revision {
            Some(r) => {
                if !r.as_str().is_empty() {
                    push_kv(&mut s, "revision = ", r);
                }
            },
            None => {},
        }
        let ghost after_rev = s@;
        if self.allow_dirty_update {
            s.append("allow-dirty-update = true\n");
        }
        let ghost after_allow = s@;
        let mut names: Vec<String> = Vec::new();
        match &self.supported_systems {
            Some(v) => {
                let n = v.len();
                let mut i: usize = 0;
                while i < n
                    invariant
                        n == v.len(),
                        i <= n,
                        names.len() == i,
                        forall|k: int| 0 <= k < i ==> #[trigger] names@[k]@ == v@[k].name(),
                    decreases n - i,
                {
                    names.push(v[i].as_str().to_string());
                    i = i + 1;
                }
                assert(views(names@) =~= v@.map_values(|s: SchemeSystem| s.name()));
            },
            None => {
                names.push(SchemeSystem::Base16.as_str().to_string());
                assert(views(names@) =~= seq![SchemeSystem::Base16.name()]);
            },
        }
        let systems = quoted_join(&names);
        s.append("supported-systems = [");
        s.append(&systems);
        s.append("]\n");
        s.append("themes-dir = \"");
        s.append(&self.themes_dir);
        s.append("\"");
        proof {
            reveal_strlit("\n[[items]]\n");
            reveal_strlit("\n[[items]]\nname = ");
            reveal_strlit("name = ");
            reveal_strlit("path = ");
            reveal_strlit("\npath = ");
            reveal_strlit("hook = ");
            reveal_strlit("revision = ");
            reveal_strlit("allow-dirty-update = true\n");
            reveal_strlit("supported-systems = [");
            reveal_strlit("]\n");
            reveal_strlit("themes-dir = \"");
            reveal_strlit("themes-dir = ");
            reveal_strlit("\"");
            reveal_strlit("\n");
            let hook = opt_or_empty(self.hook);
            let revision = opt_or_empty(self.revision);
            assert(after_hook =~= head + when(hook.len() > 0, "hook = "@ + quote(hook) + "\n"@));
            assert(after_rev =~= after_hook + when(
                revision.len() > 0,
                "revision = "@ + quote(revision) + "\n"@,
            ));
            assert(after_allow =~= after_rev + when(
                self.allow_dirty_update,
                "allow-dirty-update = true\n"@,
            ));
            assert(head =~= "\n[[items]]\nname = "@ + quote(self.name@) + "\npath = "@ + quote(
                self.path@,
            ) + "\n"@);
            assert(s@ =~= item_toml(*self));
        }
        s
    }
}


/// The `[[rings]]` table for `ring`.
pub open spec fn ring_toml(ring: ConfigRing) -> Seq<char> {
    "\n[[rings]]\nname = "@ + quote(ring.name@) + "\nschemes = ["@ + quoted_list(views(ring.schemes@))
        + "]"@
}

/// The rendered ring lists every one of its schemes, each in double
/// quotes; the list is the ring's schemes in order, quoted and joined with
/// `, `, between `schemes = [` and the closing `]`.
pub proof fn law_ring_lists_every_scheme(ring: ConfigRing, i: int)
    requires
        0 <= i < ring.schemes.len(),
    ensures
        crate::text::contains(ring_toml(ring), quote(ring.schemes@[i]@)),
        ring_toml(ring) == "\n[[rings]]\nname = "@ + quote(ring.name@) + "\nschemes = ["@ + crate::text::join(
            Seq::new(ring.schemes.len() as nat, |k: int| seq!['"'] + ring.schemes@[k]@ + seq!['"']),
            seq![',', ' '],
        ) + "]"@,
{
    assert(views(ring.schemes@).map_values(|x: Seq<char>| quote(x)) =~= Seq::new(
        ring.schemes.len() as nat,
        |k: int| seq!['"'] + ring.schemes@[k]@ + seq!['"'],
    ));
    let quoted = views(ring.schemes@).map_values(|x: Seq<char>| quote(x));
    assert(quoted[i] == quote(ring.schemes@[i]@));
    crate::text::lemma_join_contains(quoted, seq![',', ' '], i);
    let list = crate::text::join(quoted, seq![',', ' ']);
    let k = choose|k: int| crate::text::occurs_at(list, quoted[i], k);
    let head = "\n[[rings]]\nname = "@ + quote(ring.name@) + "\nschemes = ["@;
    crate::text::lemma_occurs_in_context(head, list, "]"@, quoted[i], k);
    assert(head + list + "]"@ == ring_toml(ring));
}

impl ConfigRing {
    /// The ring rendered as a `[[rings]]` table.
    pub fn to_toml(&self) -> (res: String)
        ensures
            res@ == ring_toml(*self),
    {
        let mut s = String::new();
        s.append("\n[[rings]]\n");
        push_kv(&mut s, "name = ", &self.name);
        s.append("schemes = [");
        let list = quoted_join(&self.schemes);
        s.append(&list);
        s.append("]");
        proof {
            reveal_strlit("\n[[rings]]\n");
            reveal_strlit("\n[[rings]]\nname = ");
            reveal_strlit("name = ");
            reveal_strlit("\nschemes = [");
            reveal_strlit("schemes = [");
            reveal_strlit("]");
            reveal_strlit("\n");
            assert(s@ =~= ring_toml(*self));
        }
        s
    }
}

/// The `[[schemes.extras]]` table for `extra`.
pub open spec fn extra_toml(extra: SchemeRepoConfig) -> Seq<char> {
    "\n[[schemes.extras]]\nname = "@ + quote(extra.name@) + "\npath = "@ + quote(extra.path@)
        + match extra.revision {
        Some(r) => "\nrevision = "@ + quote(r@),
        None => Seq::empty(),
    } + when(extra.allow_dirty_update, "\nallow-dirty-update = true"@)
}

impl SchemeRepoConfig {
    /// The extra rendered as a `[[schemes.extras]]` table.
    pub fn to_toml(&self) -> (res: String)
        ensures
            res@ == extra_toml(*self),
    {
        let mut s = String::new();
        s.append("\n[[schemes.extras]]\n");
        push_kv(&mut s, "name = ", &self.name);
        s.append("path = \"");
        s.append(&self.path);
        s.append("\"");
        let ghost head = s@;
        match &self.revision {
            Some(r) => {
                s.append("\nrevision = \"");
                s.append(r);
                s.append("\"");
            },
            None => {},
        }
        let ghost after_rev = s@;
        if self.allow_dirty_update {
            s.append("\nallow-dirty-update = true");
        }
        proof {
            reveal_strlit("\n[[schemes.extras]]\n");
            reveal_strlit("\n[[schemes.extras]]\nname = ");
            reveal_strlit("name = ");
            reveal_strlit("path = \"");
            reveal_strlit("\npath = ");
            reveal_strlit("\"");
            reveal_strlit("\nrevision = \"");
            reveal_strlit("\nrevision = ");
            reveal_strlit("\nallow-dirty-update = true");
            reveal_strlit("\n");
            assert(head =~= "\n[[schemes.extras]]\nname = "@ + quote(self.name@) + "\npath = "@
                + quote(self.path@));
            match &self.revision {
                Some(r) => {
                    assert(after_rev =~= head + "\nrevision = "@ + quote(r@));
                },
                None => {
                    assert(after_rev =~= head);
                },
            }
            assert(s@ =~= extra_toml(*self));
        }
        s
    }
}

/// The `[schemes]` scalar table, present only when one of its keys is set.
pub open spec fn schemes_table_toml(sc: SchemesConfig) -> Seq<char> {
    when(
        sc.path is Some || sc.revision is Some || sc.allow_dirty_update,
        "\n[schemes]\n"@ + match sc.path {
            Some(p) => "path = "@ + quote(p@) + "\n"@,
            None => Seq::empty(),
        } + match sc.revision {
            Some(r) => "revision = "@ + quote(r@) + "\n"@,
            None => Seq::empty(),
        } + when(sc.allow_dirty_update, "allow-dirty-update = true\n"@),
    )
}

/// Each table text followed by a line break, concatenated.
pub open spec fn lines_of(v: Seq<Seq<char>>) -> Seq<char>
    decreases v.len(),
{
    if v.len() == 0 {
        Seq::empty()
    } else {
        lines_of(v.drop_last()) + v.last() + "\n"@
    }
}

/// The scalar keys at the top of the configuration text.
pub open spec fn config_scalars_toml(c: Config) -> Seq<char> {
    "shell = "@ + quote(
        match c.shell {
            Some(s) => s@,
            None => "None"@,
        },
    ) + "\n"@ + match c.default_scheme {
        Some(d) => "default-scheme = "@ + quote(d@) + "\n"@,
        None => Seq::empty(),
    } + match c.default_cycle_ring {
        Some(d) => "default-cycle-ring = "@ + quote(d@) + "\n"@,
        None => Seq::empty(),
    }
}

/// The lines of the `hooks` array: each hook quoted and indented, all but
/// the last followed by a comma, so that any number of hooks reads back as
/// a TOML array.
pub open spec fn hook_lines(hooks: Seq<Seq<char>>) -> Seq<Seq<char>> {
    hooks.map(|i: int, h: Seq<char>| "  "@ + quote(h) + if i + 1 < hooks.len() {
        ","@
    } else {
        Seq::empty()
    })
}

/// The list keys (`preferred-schemes`, `hooks`) of the configuration text.
pub open spec fn config_lists_toml(c: Config) -> Seq<char> {
    (match c.preferred_schemes {
        Some(v) => "preferred-schemes = ["@ + quoted_list(views(v@)) + "]\n"@,
        None => Seq::empty(),
    }) + match c.hooks {
        Some(v) => "hooks = [\n"@ + lines_of(hook_lines(views(v@))) + "]\n"@,
        None => Seq::empty(),
    }
}

/// The whole configuration as TOML text.
pub open spec fn config_toml(c: Config) -> Seq<char> {
    config_scalars_toml(c) + config_lists_toml(c) + schemes_table_toml(c.schemes) + lines_of(
        c.schemes.extras@.map_values(|e: SchemeRepoConfig| extra_toml(e)),
    ) + match c.rings {
        Some(v) => lines_of(v@.map_values(|r: ConfigRing| ring_toml(r))),
        None => Seq::empty(),
    } + match c.items {
        Some(v) => lines_of(v@.map_values(|i: ConfigItem| item_toml(i))),
        None => Seq::empty(),
    }
}

/// Appends each of `pieces` followed by a line break.
fn append_lines(s: &mut String, pieces: &Vec<String>)
    ensures
        final(s)@ == old(s)@ + lines_of(views(pieces@)),
{
    let n = pieces.len();
    let mut i: usize = 0;
    assert(views(pieces@).take(0) =~= Seq::<Seq<char>>::empty());
    while i < n
        invariant
            n == pieces.len(),
            i <= n,
            s@ == old(s)@ + lines_of(views(pieces@).take(i as int)),
        decreases n - i,
    {
        s.append(&pieces[i]);
        s.append("\n");
        proof {
            reveal_strlit("\n");
            let t = views(pieces@).take(i + 1);
            assert(t.drop_last() =~= views(pieces@).take(i as int));
            assert(t.last() == pieces@[i as int]@);
        }
        assert(s@ =~= old(s)@ + lines_of(views(pieces@).take(i + 1)));
        i = i + 1;
    }
    assert(views(pieces@).take(n as int) =~= views(pieces@));
}

/// Each extra's table, each followed by a line break.
fn extras_toml(extras: &Vec<SchemeRepoConfig>) -> (res: String)
    ensures
        res@ == lines_of(extras@.map_values(|e: SchemeRepoConfig| extra_toml(e))),
{
    let mut tables: Vec<String> = Vec::new();
    let n = extras.len();
    let mut i: usize = 0;
    while i < n
        invariant
            n == extras.len(),
            i <= n,
            tables.len() == i,
            forall|k: int| 0 <= k < i ==> #[trigger] tables@[k]@ == extra_toml(extras@[k]),
        decreases n - i,
    {
        tables.push(extras[i].to_toml());
        i = i + 1;
    }
    assert(views(tables@) =~= extras@.map_values(|e: SchemeRepoConfig| extra_toml(e)));
    let mut s = String::new();
    append_lines(&mut s, &tables);
    assert(s@ =~= lines_of(views(tables@)));
    s
}

/// Each ring's table, each followed by a line break.
fn rings_toml(rings: &Vec<ConfigRing>) -> (res: String)
    ensures
        res@ == lines_of(rings@.map_values(|r: ConfigRing| ring_toml(r))),
{
    let mut tables: Vec<String> = Vec::new();
    let n = rings.len();
    let mut i: usize = 0;
    while i < n
        invariant
            n == rings.len(),
            i <= n,
            tables.len() == i,
            forall|k: int| 0 <= k < i ==> #[trigger] tables@[k]@ == ring_toml(rings@[k]),
        decreases n - i,
    {
        tables.push(rings[i].to_toml());
        i = i + 1;
    }
    assert(views(tables@) =~= rings@.map_values(|r: ConfigRing| ring_toml(r)));
    let mut s = String::new();
    append_lines(&mut s, &tables);
    assert(s@ =~= lines_of(views(tables@)));
    s
}

/// Each item's table, each followed by a line break.
fn items_toml(items: &Vec<ConfigItem>) -> (res: String)
    ensures
        res@ == lines_of(items@.map_values(|i: ConfigItem| item_toml(i))),
{
    let mut tables: Vec<String> = Vec::new();
    let n = items.len();
    let mut i: usize = 0;
    while i < n
        invariant
            n == items.len(),
            i <= n,
            tables.len() == i,
            forall|k: int| 0 <= k < i ==> #[trigger] tables@[k]@ == item_toml(items@[k]),
        decreases n - i,
    {
        tables.push(items[i].to_toml());
        i = i + 1;
    }
    assert(views(tables@) =~= items@.map_values(|i: ConfigItem| item_toml(i)));
    let mut s = String::new();
    append_lines(&mut s, &tables);
    assert(s@ =~= lines_of(views(tables@)));
    s
}

/// The `[schemes]` table text.
fn schemes_table(sc: &SchemesConfig) -> (res: String)
    ensures
        res@ == schemes_table_toml(*sc),
{
    let mut s = String::new();
    if sc.path.is_some() || sc.revision.is_some() || sc.allow_dirty_update {
        s.append("\n[schemes]\n");
        let ghost p0 = s@;
        match &sc.path {
            Some(p) => push_kv(&mut s, "path = ", p),
            None => {},
        }
        let ghost p1 = s@;
        match &sc.revision {
            Some(r) => push_kv(&mut s, "revision = ", r),
            None => {},
        }
        let ghost p2 = s@;
        if sc.allow_dirty_update {
            s.append("allow-dirty-update = true\n");
        }
        proof {
            reveal_strlit("\n[schemes]\n");
            reveal_strlit("allow-dirty-update = true\n");
            assert(p1 =~= p0 + match sc.path {
                Some(p) => "path = "@ + quote(p@) + "\n"@,
                None => Seq::empty(),
            });
            assert(p2 =~= p1 + match sc.revision {
                Some(r) => "revision = "@ + quote(r@) + "\n"@,
                None => Seq::empty(),
            });
            assert(s@ =~= schemes_table_toml(*sc));
        }
    } else {
        assert(s@ =~= schemes_table_toml(*sc));
    }
    s
}

impl Config {
    /// The scalar keys.
    fn scalars_toml(&self) -> (res: String)
        ensures
            res@ == config_scalars_toml(*self),
    {
        let mut s = String::new();
        match &self.shell {
            Some(sh) => push_kv(&mut s, "shell = ", sh),
            None => push_kv(&mut s, "shell = ", "None"),
        }
        let ghost p1 = s@;
        match &self.default_scheme {
            Some(d) => push_kv(&mut s, "default-scheme = ", d),
            None => {},
        }
        let ghost p2 = s@;
        match &self.default_cycle_ring {
            Some(d) => push_kv(&mut s, "default-cycle-ring = ", d),
            None => {},
        }
        proof {
            let c = *self;
            assert(p2 =~= p1 + match c.default_scheme {
                Some(d) => "default-scheme = "@ + quote(d@) + "\n"@,
                None => Seq::empty(),
            });
            assert(s@ =~= config_scalars_toml(c));
        }
        s
    }

    /// The list keys.
    fn lists_toml(&self) -> (res: String)
        ensures
            res@ == config_lists_toml(*self),
    {
        let mut s = String::new();
        match &self.preferred_schemes {
            Some(v) => {
                s.append("preferred-schemes = [");
                let list = quoted_join(v);
                s.append(&list);
                s.append("]\n");
            },
            None => {},
        }
        let ghost p4 = s@;
        match &self.hooks {
            Some(v) => {
                s.append("hooks = [\n");
                let mut lines: Vec<String> = Vec::new();
                let n = v.len();
                let mut i: usize = 0;
                while i < n
                    invariant
                        n == v.len(),
                        i <= n,
                        lines.len() == i,
                        forall|k: int| 0 <= k < i ==> #[trigger] lines@[k]@ == hook_lines(views(v@))[k],
                    decreases n - i,
                {
                    proof {
                        reveal_strlit("  \"");
                        reveal_strlit("\"");
                        reveal_strlit("\",");
                        reveal_strlit("  ");
                        reveal_strlit(",");
                    }
                    let line = if i + 1 < n {
                        cat3("  \"", &v[i], "\",")
                    } else {
                        cat3("  \"", &v[i], "\"")
                    };
                    assert(line@ =~= hook_lines(views(v@))[i as int]);
                    lines.push(line);
                    i = i + 1;
                }
                assert(views(lines@) =~= hook_lines(views(v@)));
                append_lines(&mut s, &lines);
                s.append("]\n");
            },
            None => {},
        }
        proof {
            reveal_strlit("preferred-schemes = [");
            reveal_strlit("]\n");
            reveal_strlit("hooks = [\n");
            let c = *self;
            assert(p4 =~= match c.preferred_schemes {
                Some(v) => "preferred-schemes = ["@ + quoted_list(views(v@)) + "]\n"@,
                None => Seq::empty(),
            });
            assert(s@ =~= config_lists_toml(c));
        }
        s
    }

    /// The configuration rendered as TOML text: scalar keys first, then the
    /// `[schemes]` table, then the `[[schemes.extras]]`, `[[rings]]` and
    /// `[[items]]` tables, so the text parses back to the same settings.
    pub fn to_toml(&self) -> (res: String)
        ensures
            res@ == config_toml(*self),
    {
        let mut s = self.scalars_toml();
        let lists = self.lists_toml();
        s.append(&lists);
        let table = schemes_table(&self.schemes);
        s.append(&table);
        let extras = extras_toml(&self.schemes.extras);
        s.append(&extras);
        let ghost p7 = s@;
        match &self.rings {
            Some(v) => {
                let r = rings_toml(v);
                s.append(&r);
            },
            None => {},
        }
        let ghost p8 = s@;
        match &self.items {
            Some(v) => {
                let r = items_toml(v);
                s.append(&r);
            },
            None => {},
        }
        proof {
            let c = *self;
            assert(p8 =~= p7 + match c.rings {
                Some(v) => lines_of(v@.map_values(|r: ConfigRing| ring_toml(r))),
                None => Seq::empty(),
            });
            assert(s@ =~= config_toml(c));
        }
        s
    }
}


// ---------------------------------------------------------------------------
// Completing and validating a parsed configuration.
// ---------------------------------------------------------------------------

/// An item path with a leading `~/` (after trimming) expanded; any other
/// path is kept exactly as written. A missing home directory is an error
/// naming the path as written.
pub open spec fn expand_item_path(p: Seq<char>, home: Option<Seq<char>>) -> Result<
    Seq<char>,
    ConfigErrorView,
> {
    let t = trim(p);
    if starts_with(t, seq!['~', '/']) {
        match home {
            Some(h) => Ok(h + seq!['/'] + t.skip(2)),
            None => Err(ConfigErrorView::NoHomeDir(p)),
        }
    } else {
        Ok(p)
    }
}

/// `p` is a URL or an existing local directory.
pub open spec fn path_ok(p: Seq<char>, dirs: Seq<Seq<char>>) -> bool {
    url_parses(p) || dirs.contains(p)
}

/// The first problem among the item paths, in order.
pub open spec fn item_paths_error(paths: Seq<Seq<char>>, home: Option<Seq<char>>, dirs: Seq<Seq<char>>) -> Option<ConfigErrorView>
    decreases paths.len(),
{
    if paths.len() == 0 {
        None
    } else {
        match item_paths_error(paths.drop_last(), home, dirs) {
            Some(e) => Some(e),
            None => match expand_item_path(paths.last(), home) {
                Err(e) => Some(e),
                Ok(x) => if path_ok(x, dirs) {
                    None
                } else {
                    Some(ConfigErrorView::InvalidItemPath(x))
                },
            },
        }
    }
}

/// The problem with `[schemes].path`, if any.
pub open spec fn schemes_path_error(path: Option<Seq<char>>, home: Option<Seq<char>>, dirs: Seq<Seq<char>>) -> Option<ConfigErrorView> {
    match path {
        None => None,
        Some(p) => match crate::utils::expand_home(p, home) {
            Err(e) => Some(e),
            Ok(x) => if path_ok(x, dirs) {
                None
            } else {
                Some(ConfigErrorView::InvalidSchemesPath(x))
            },
        },
    }
}

/// The first problem among the extras' paths, in order.
pub open spec fn extra_paths_error(extras: Seq<SchemeRepoConfig>, home: Option<Seq<char>>, dirs: Seq<Seq<char>>) -> Option<ConfigErrorView>
    decreases extras.len(),
{
    if extras.len() == 0 {
        None
    } else {
        match extra_paths_error(extras.drop_last(), home, dirs) {
            Some(e) => Some(e),
            None => match crate::utils::expand_home(extras.last().path@, home) {
                Err(e) => Some(e),
                Ok(x) => if path_ok(x, dirs) {
                    None
                } else {
                    Some(ConfigErrorView::InvalidExtraPath(extras.last().name@, x))
                },
            },
        }
    }
}

/// The problem with the rings and `default-cycle-ring`, if any.
pub open spec fn rings_error(rings: Option<Vec<ConfigRing>>, default_ring: Option<String>) -> Option<ConfigErrorView> {
    match rings {
        Some(r) => match ring_names_error(ring_names_of(r@)) {
            Some(e) => Some(e),
            None => match default_ring {
                Some(d) => if ring_names_of(r@).contains(d@) {
                    None
                } else {
                    Some(ConfigErrorView::UnknownDefaultCycleRing(d@))
                },
                None => None,
            },
        },
        None => match default_ring {
            Some(d) => Some(ConfigErrorView::NoRingsConfigured(d@)),
            None => None,
        },
    }
}

/// The item paths in effect: the configured ones, or the default item's.
pub open spec fn effective_item_paths(c: Config) -> Seq<Seq<char>> {
    match c.items {
        Some(v) => v@.map_values(|i: ConfigItem| i.path@),
        None => seq![BASE16_SHELL_REPO_URL@],
    }
}

/// The shell in effect: the configured one or the default.
pub open spec fn effective_shell(c: Config) -> Seq<char> {
    match c.shell {
        Some(s) => s@,
        None => DEFAULT_CONFIG_SHELL@,
    }
}

/// `a` if it holds a problem, otherwise `b`.
pub open spec fn or_else(a: Option<ConfigErrorView>, b: Option<ConfigErrorView>) -> Option<ConfigErrorView> {
    if a is Some {
        a
    } else {
        b
    }
}

/// The first problem with a parsed configuration, checking in this order:
/// item names, rings, item paths, `[schemes].path`, extra names, extra paths,
/// and the shell's `{}` placeholder.
pub open spec fn read_error(c: Config, home: Option<Seq<char>>, dirs: Seq<Seq<char>>) -> Option<ConfigErrorView> {
    or_else(
        match c.items {
            Some(v) => item_names_error(item_names(v@)),
            None => None,
        },
        or_else(
            rings_error(c.rings, c.default_cycle_ring),
            or_else(
                item_paths_error(effective_item_paths(c), home, dirs),
                or_else(
                    schemes_path_error(opt_view(c.schemes.path), home, dirs),
                    or_else(
                        extra_names_error(extra_names(c.schemes.extras@)),
                        or_else(
                            extra_paths_error(c.schemes.extras@, home, dirs),
                            if crate::text::contains(effective_shell(c), seq!['{', '}']) {
                                None
                            } else {
                                Some(ConfigErrorView::MissingShellPlaceholder)
                            },
                        ),
                    ),
                ),
            ),
        ),
    )
}

/// The completed item `n` of a configuration `c` that passed validation.
pub open spec fn completed_item(orig: ConfigItem, done: ConfigItem, home: Option<Seq<char>>) -> bool {
    &&& expand_item_path(orig.path@, home) == Ok::<Seq<char>, ConfigErrorView>(done.path@)
    &&& done.name == orig.name
    &&& done.hook == orig.hook
    &&& done.themes_dir == orig.themes_dir
    &&& done.theme_file_extension == orig.theme_file_extension
    &&& done.revision == orig.revision
    &&& done.write_to_file == orig.write_to_file
    &&& done.allow_dirty_update == orig.allow_dirty_update
    &&& match orig.supported_systems {
        Some(v) => done.supported_systems == Some(v),
        None => done.supported_systems matches Some(d) && d@ == seq![SchemeSystem::Base16],
    }
}

/// The default item used when the configuration lists none.
pub open spec fn is_default_item(item: ConfigItem) -> bool {
    &&& item.name@ == BASE16_SHELL_REPO_NAME@
    &&& item.path@ == BASE16_SHELL_REPO_URL@
    &&& item.themes_dir@ == BASE16_SHELL_THEMES_DIR@
    &&& item.hook matches Some(h) && h@ == BASE16_SHELL_HOOK@
    &&& item.supported_systems matches Some(d) && d@ == seq![SchemeSystem::Base16]
    &&& item.theme_file_extension is None
    &&& item.revision is None
    &&& item.write_to_file is None
    &&& !item.allow_dirty_update
}

/// What reading a parsed configuration `c` yields, given the home directory
/// and the set of existing local directories: the first problem, or the
/// completed configuration (default item, default systems, expanded paths,
/// the shell in effect).
pub open spec fn read_outcome(c: Config, home: Option<Seq<char>>, dirs: Seq<Seq<char>>, res: Result<Config, ConfigError>) -> bool {
    match res {
        Err(e) => read_error(c, home, dirs) == Some(e@),
        Ok(d) => {
            &&& read_error(c, home, dirs) is None
            &&& d.shell matches Some(s) && s@ == effective_shell(c)
            &&& d.default_scheme == c.default_scheme
            &&& d.preferred_schemes == c.preferred_schemes
            &&& d.rings == c.rings
            &&& d.default_cycle_ring == c.default_cycle_ring
            &&& d.hooks == c.hooks
            &&& d.schemes.allow_dirty_update == c.schemes.allow_dirty_update
            &&& d.schemes.revision == c.schemes.revision
            &&& match c.schemes.path {
                Some(p) => d.schemes.path matches Some(q) && crate::utils::expand_home(p@, home)
                    == Ok::<Seq<char>, ConfigErrorView>(q@),
                None => d.schemes.path is None,
            }
            &&& d.schemes.extras.len() == c.schemes.extras.len()
            &&& forall|i: int|
                0 <= i < c.schemes.extras.len() ==> {
                    &&& #[trigger] d.schemes.extras@[i].name == c.schemes.extras@[i].name
                    &&& d.schemes.extras@[i].revision == c.schemes.extras@[i].revision
                    &&& d.schemes.extras@[i].allow_dirty_update
                        == c.schemes.extras@[i].allow_dirty_update
                    &&& crate::utils::expand_home(c.schemes.extras@[i].path@, home) == Ok::<
                        Seq<char>,
                        ConfigErrorView,
                    >(d.schemes.extras@[i].path@)
                }
            &&& d.items matches Some(v) && match c.items {
                Some(o) => v.len() == o.len() && forall|i: int|
                    0 <= i < o.len() ==> completed_item(#[trigger] o@[i], v@[i], home),
                None => v.len() == 1 && is_default_item(v@[0]),
            }
        },
    }
}


/// Whether some string of `v` equals `s`.
pub fn contains_string(v: &Vec<String>, s: &str) -> (res: bool)
    ensures
        res == views(v@).contains(s@),
{
    let n = v.len();
    let mut i: usize = 0;
    while i < n
        invariant
            n == v.len(),
            i <= n,
            forall|k: int| 0 <= k < i ==> v@[k]@ != s@,
        decreases n - i,
    {
        if str_eq(&v[i], s) {
            assert(views(v@)[i as int] == s@);
            return true;
        }
        i = i + 1;
    }
    assert forall|k: int| 0 <= k < views(v@).len() implies views(v@)[k] != s@ by {
        assert(views(v@)[k] == v@[k]@);
    }
    false
}

/// Whether `p` is a URL or an existing local directory.
fn path_ok_exec(p: &str, dirs: &Vec<String>) -> (res: bool)
    ensures
        res == path_ok(p@, views(dirs@)),
{
    is_url(p) || contains_string(dirs, p)
}

/// Expands an item path as `expand_item_path` describes.
fn expand_item_path_exec(path: &String, home: &Option<String>) -> (res: Result<String, ConfigError>)
    ensures
        match res {
            Ok(p) => expand_item_path(path@, opt_view(*home)) == Ok::<Seq<char>, ConfigErrorView>(p@),
            Err(e) => expand_item_path(path@, opt_view(*home)) == Err::<Seq<char>, ConfigErrorView>(e@),
        },
{
    let trimmed = str_trim(path);
    proof {
        reveal_strlit("~/");
        assert("~/"@ =~= seq!['~', '/']);
    }
    if str_starts_with(&trimmed, "~/") {
        match home {
            Some(h) => {
                let v = crate::text::chars_of(&trimmed);
                let rest = crate::text::slice_chars(&v, 2, v.len());
                let rest_s = crate::text::string_of(&rest);
                proof {
                    reveal_strlit("/");
                }
                let out = cat3(h, "/", &rest_s);
                assert(rest@ =~= trimmed@.skip(2));
                assert("/"@ =~= seq!['/']);
                assert(out@ =~= h@ + seq!['/'] + trimmed@.skip(2));
                Ok(out)
            },
            None => Err(ConfigError::NoHomeDir(path.clone())),
        }
    } else {
        Ok(path.clone())
    }
}

/// The paths of the items.
pub open spec fn item_paths(items: Seq<ConfigItem>) -> Seq<Seq<char>> {
    items.map_values(|i: ConfigItem| i.path@)
}

/// Once a prefix of the item paths has a problem, it is the first problem.
proof fn lemma_item_paths_error_extends(paths: Seq<Seq<char>>, home: Option<Seq<char>>, dirs: Seq<Seq<char>>, i: int)
    requires
        0 <= i <= paths.len(),
        item_paths_error(paths.take(i), home, dirs) is Some,
    ensures
        item_paths_error(paths, home, dirs) == item_paths_error(paths.take(i), home, dirs),
    decreases paths.len(),
{
    if i == paths.len() {
        assert(paths.take(i) =~= paths);
    } else {
        assert(paths.drop_last().take(i) =~= paths.take(i));
        lemma_item_paths_error_extends(paths.drop_last(), home, dirs, i);
    }
}

/// Once a prefix of the extras has a path problem, it is the first one.
proof fn lemma_extra_paths_error_extends(extras: Seq<SchemeRepoConfig>, home: Option<Seq<char>>, dirs: Seq<Seq<char>>, i: int)
    requires
        0 <= i <= extras.len(),
        extra_paths_error(extras.take(i), home, dirs) is Some,
    ensures
        extra_paths_error(extras, home, dirs) == extra_paths_error(extras.take(i), home, dirs),
    decreases extras.len(),
{
    if i == extras.len() {
        assert(extras.take(i) =~= extras);
    } else {
        assert(extras.drop_last().take(i) =~= extras.take(i));
        lemma_extra_paths_error_extends(extras.drop_last(), home, dirs, i);
    }
}

/// Completes every item (default systems, expanded path) and checks its path.
fn complete_items(items: Vec<ConfigItem>, home: &Option<String>, dirs: &Vec<String>) -> (res: Result<Vec<ConfigItem>, ConfigError>)
    ensures
        match res {
            Err(e) => item_paths_error(item_paths(items@), opt_view(*home), views(dirs@)) == Some(e@),
            Ok(v) => {
                &&& item_paths_error(item_paths(items@), opt_view(*home), views(dirs@)) is None
                &&& v.len() == items.len()
                &&& forall|i: int|
                    0 <= i < items.len() ==> completed_item(
                        #[trigger] items@[i],
                        v@[i],
                        opt_view(*home),
                    )
            },
        },
{
    let ghost orig = items@;
    let ghost h = opt_view(*home);
    let ghost ds = views(dirs@);
    let n = items.len();
    let mut src = items;
    let mut out: Vec<ConfigItem> = Vec::new();
    let mut i: usize = 0;
    assert(item_paths(orig).take(0) =~= Seq::<Seq<char>>::empty());
    assert(src@ =~= orig.skip(0));
    while i < n
        invariant
            n == orig.len(),
            orig == items@,
            i <= n,
            src@ == orig.skip(i as int),
            out.len() == i,
            h == opt_view(*home),
            ds == views(dirs@),
            item_paths_error(item_paths(orig).take(i as int), h, ds) is None,
            forall|k: int| 0 <= k < i ==> completed_item(#[trigger] orig[k], out@[k], h),
        decreases n - i,
    {
        let mut item = src.remove(0);
        assert(item == orig[i as int]);
        assert(src@ =~= orig.skip(i + 1));
        let ghost t = item_paths(orig).take(i + 1);
        assert(t.drop_last() =~= item_paths(orig).take(i as int));
        assert(t.last() == orig[i as int].path@);
        if item.supported_systems.is_none() {
            let mut d: Vec<SchemeSystem> = Vec::new();
            d.push(SchemeSystem::Base16);
            assert(d@ =~= seq![SchemeSystem::Base16]);
            item.supported_systems = Some(d);
        }
        let expanded = expand_item_path_exec(&item.path, home);
        match expanded {
            Err(e) => {
                proof {
                    assert(item_paths_error(t, h, ds) == Some(e@));
                    lemma_item_paths_error_extends(item_paths(orig), h, ds, i + 1);
                }
                return Err(e);
            },
            Ok(p) => {
                if !path_ok_exec(&p, dirs) {
                    proof {
                        assert(item_paths_error(t, h, ds) == Some(ConfigErrorView::InvalidItemPath(p@)));
                        lemma_item_paths_error_extends(item_paths(orig), h, ds, i + 1);
                    }
                    return Err(ConfigError::InvalidItemPath(p));
                }
                item.path = p;
            },
        }
        out.push(item);
        i = i + 1;
    }
    assert(item_paths(orig).take(n as int) =~= item_paths(orig));
    Ok(out)
}

/// Expands every extra's path and checks it.
#[verifier::spinoff_prover]
fn complete_extras(extras: Vec<SchemeRepoConfig>, home: &Option<String>, dirs: &Vec<String>) -> (res: Result<Vec<SchemeRepoConfig>, ConfigError>)
    ensures
        match res {
            Err(e) => extra_paths_error(extras@, opt_view(*home), views(dirs@)) == Some(e@),
            Ok(v) => {
                &&& extra_paths_error(extras@, opt_view(*home), views(dirs@)) is None
                &&& v.len() == extras.len()
                &&& forall|i: int|
                    0 <= i < extras.len() ==> {
                        &&& #[trigger] v@[i].name == extras@[i].name
                        &&& v@[i].revision == extras@[i].revision
                        &&& v@[i].allow_dirty_update == extras@[i].allow_dirty_update
                        &&& crate::utils::expand_home(extras@[i].path@, opt_view(*home)) == Ok::<
                            Seq<char>,
                            ConfigErrorView,
                        >(v@[i].path@)
                    }
            },
        },
{
    let ghost orig = extras@;
    let ghost h = opt_view(*home);
    let ghost ds = views(dirs@);
    let n = extras.len();
    let mut src = extras;
    let mut out: Vec<SchemeRepoConfig> = Vec::new();
    let mut i: usize = 0;
    assert(orig.take(0) =~= Seq::<SchemeRepoConfig>::empty());
    assert(src@ =~= orig.skip(0));
    while i < n
        invariant
            n == orig.len(),
            orig == extras@,
            i <= n,
            src@ == orig.skip(i as int),
            out.len() == i,
            h == opt_view(*home),
            ds == views(dirs@),
            extra_paths_error(orig.take(i as int), h, ds) is None,
            forall|k: int|
                0 <= k < i ==> {
                    &&& #[trigger] out@[k].name == orig[k].name
                    &&& out@[k].revision == orig[k].revision
                    &&& out@[k].allow_dirty_update == orig[k].allow_dirty_update
                    &&& crate::utils::expand_home(orig[k].path@, h) == Ok::<
                        Seq<char>,
                        ConfigErrorView,
                    >(out@[k].path@)
                },
        decreases n - i,
    {
        let mut extra = src.remove(0);
        assert(extra == orig[i as int]);
        assert(src@ =~= orig.skip(i + 1));
        let ghost t = orig.take(i + 1);
        assert(t.drop_last() =~= orig.take(i as int));
        assert(t.last() == orig[i as int]);
        let expanded = crate::utils::replace_tilde_with(&extra.path, home);
        match expanded {
            Err(e) => {
                proof {
                    assert(extra_paths_error(t, h, ds) == Some(e@));
                    lemma_extra_paths_error_extends(orig, h, ds, i + 1);
                }
                return Err(e);
            },
            Ok(p) => {
                if !path_ok_exec(&p, dirs) {
                    proof {
                        assert(extra_paths_error(t, h, ds) == Some(
                            ConfigErrorView::InvalidExtraPath(extra.name@, p@),
                        ));
                        lemma_extra_paths_error_extends(orig, h, ds, i + 1);
                    }
                    return Err(ConfigError::InvalidExtraPath(extra.name, p));
                }
                extra.path = p;
            },
        }
        out.push(extra);
        i = i + 1;
    }
    assert(orig.take(n as int) =~= orig);
    assert(extra_paths_error(extras@, h, ds) is None);
    Ok(out)
}


/// The item used when the configuration lists none.
fn default_item() -> (res: ConfigItem)
    ensures
        is_default_item(res),
{
    let mut systems: Vec<SchemeSystem> = Vec::new();
    systems.push(SchemeSystem::Base16);
    assert(systems@ =~= seq![SchemeSystem::Base16]);
    ConfigItem {
        path: BASE16_SHELL_REPO_URL.to_string(),
        name: BASE16_SHELL_REPO_NAME.to_string(),
        themes_dir: BASE16_SHELL_THEMES_DIR.to_string(),
        hook: Some(BASE16_SHELL_HOOK.to_string()),
        supported_systems: Some(systems),
        theme_file_extension: None,
        revision: None,
        write_to_file: None,
        allow_dirty_update: false,
    }
}

/// Checks the rings and `default-cycle-ring`.
fn check_rings(rings: &Option<Vec<ConfigRing>>, default_ring: &Option<String>) -> (res: Result<(), ConfigError>)
    ensures
        match res {
            Ok(()) => rings_error(*rings, *default_ring) is None,
            Err(e) => rings_error(*rings, *default_ring) == Some(e@),
        },
{
    match rings {
        Some(r) => {
            ensure_ring_names_are_valid(r)?;
            match default_ring {
                Some(d) => {
                    let n = r.len();
                    let mut i: usize = 0;
                    while i < n
                        invariant
                            n == r.len(),
                            i <= n,
                            *rings == Some(*r),
                            *default_ring == Some(*d),
                            ring_names_error(ring_names_of(r@)) is None,
                            forall|k: int| 0 <= k < i ==> r@[k].name@ != d@,
                        decreases n - i,
                    {
                        if str_eq(&r[i].name, d) {
                            assert(ring_names_of(r@).len() == r@.len());
                            assert(ring_names_of(r@)[i as int] == d@);
                            assert(ring_names_of(r@).contains(d@));
                            return Ok(());
                        }
                        i = i + 1;
                    }
                    assert forall|k: int| 0 <= k < ring_names_of(r@).len() implies ring_names_of(
                        r@,
                    )[k] != d@ by {
                        assert(ring_names_of(r@)[k] == r@[k].name@);
                    }
                    Err(ConfigError::UnknownDefaultCycleRing(d.clone()))
                },
                None => Ok(()),
            }
        },
        None => match default_ring {
            Some(d) => Err(ConfigError::NoRingsConfigured(d.clone())),
            None => Ok(()),
        },
    }
}

impl Config {
    /// Completes and validates a parsed configuration, given the home
    /// directory and the local directories that exist: adds the default item
    /// when none is configured, defaults each item's supported systems to
    /// Base16, expands `~/` paths, requires every path to be a URL or an
    /// existing directory, checks names and rings, and requires the shell to
    /// hold the `{}` placeholder.
    pub fn validate(self, home: Option<String>, existing_dirs: &Vec<String>) -> (res: Result<Config, ConfigError>)
        ensures
            read_outcome(self, opt_view(home), views(existing_dirs@), res),
    {
        let ghost c = self;
        let ghost h = opt_view(home);
        let ghost ds = views(existing_dirs@);
        let mut config = self;
        let shell = match &config.shell {
            Some(s) => s.clone(),
            None => DEFAULT_CONFIG_SHELL.to_string(),
        };
        let items = match config.items {
            Some(items) => {
                ensure_item_name_is_unique(&items)?;
                items
            },
            None => {
                let mut v: Vec<ConfigItem> = Vec::new();
                v.push(default_item());
                v
            },
        };
        let ghost eff_items = items@;
        assert(item_paths(eff_items) =~= effective_item_paths(c)) by {
            reveal_strlit("https://github.com/tinted-theming/tinted-shell");
        }
        check_rings(&config.rings, &config.default_cycle_ring)?;
        let items = complete_items(items, &home, existing_dirs)?;
        let schemes_path = match &config.schemes.path {
            Some(raw) => {
                let expanded = crate::utils::replace_tilde_with(raw, &home)?;
                if !path_ok_exec(&expanded, existing_dirs) {
                    return Err(ConfigError::InvalidSchemesPath(expanded));
                }
                Some(expanded)
            },
            None => None,
        };
        ensure_scheme_extras_are_valid(&config.schemes.extras)?;
        let extras = complete_extras(config.schemes.extras, &home, existing_dirs)?;
        proof {
            reveal_strlit("{}");
            assert("{}"@ =~= seq!['{', '}']);
        }
        if !crate::text::str_contains(&shell, "{}") {
            return Err(ConfigError::MissingShellPlaceholder);
        }
        config.shell = Some(shell);
        config.items = Some(items);
        config.schemes.path = schemes_path;
        config.schemes.extras = extras;
        proof {
            if c.items is None {
                reveal_strlit("https://github.com/tinted-theming/tinted-shell");
                let d = eff_items[0];
                assert(trim_start(d.path@) == d.path@);
                assert(trim_end(d.path@) == d.path@);
                assert(!starts_with(trim(d.path@), seq!['~', '/']));
            }
        }
        Ok(config)
    }

    /// Completes and validates a parsed configuration against the local
    /// directories that exist, expanding `~/` with the home directory of the
    /// environment. Whatever that directory is, the outcome is the one
    /// `validate` gives for it.
    pub fn read(parsed: Config, existing_dirs: &Vec<String>) -> (res: Result<Config, ConfigError>)
        ensures
            exists|h: Option<Seq<char>>|
                #![trigger read_error(parsed, h, views(existing_dirs@))]
                read_outcome(parsed, h, views(existing_dirs@), res),
    {
        let home = crate::outside::home_dir_display();
        let ghost h = opt_view(home);
        let res = parsed.validate(home, existing_dirs);
        assert(read_error(parsed, h, views(existing_dirs@)) == read_error(
            parsed,
            h,
            views(existing_dirs@),
        ));
        res
    }
}


/// The local paths `validate` checks, each as it expands it with the home
/// directory `home`: the item paths (the default item's when none is
/// configured), the `[schemes]` path, then the extras' paths.
pub open spec fn path_candidates(c: Config, home: Option<Seq<char>>) -> Seq<Result<Seq<char>, ConfigErrorView>> {
    effective_item_paths(c).map_values(|p: Seq<char>| expand_item_path(p, home)) + match c.schemes.path {
        Some(p) => seq![crate::utils::expand_home(p@, home)],
        None => Seq::empty(),
    } + c.schemes.extras@.map_values(|e: SchemeRepoConfig| crate::utils::expand_home(e.path@, home))
}

/// The expanded path, when expanding succeeds.
pub open spec fn expanded(r: Result<Seq<char>, ConfigErrorView>) -> Option<Seq<char>> {
    match r {
        Ok(x) => Some(x),
        Err(_) => None,
    }
}

/// The paths of `c` that `validate` looks up among the existing local
/// directories, expanded with `home` as it expands them (`None` where the
/// expansion fails); a caller passes on those that are directories.
pub fn local_path_candidates(c: &Config, home: &Option<String>) -> (res: Vec<Option<String>>)
    ensures
        res.len() == path_candidates(*c, opt_view(*home)).len(),
        forall|i: int|
            0 <= i < res.len() ==> opt_view(#[trigger] res@[i]) == expanded(path_candidates(*c, opt_view(*home))[i]),
{
    let ghost all = path_candidates(*c, opt_view(*home));
    let mut res: Vec<Option<String>> = Vec::new();
    match &c.items {
        Some(items) => {
            let n = items.len();
            let mut i: usize = 0;
            while i < n
                invariant
                    n == items.len(),
                    c.items == Some(*items),
                    all == path_candidates(*c, opt_view(*home)),
                    i <= n,
                    res.len() == i,
                    forall|k: int| 0 <= k < i ==> opt_view(#[trigger] res@[k]) == expanded(all[k]),
                decreases n - i,
            {
                let r = match expand_item_path_exec(&items[i].path, home) {
                    Ok(x) => Some(x),
                    Err(_) => None,
                };
                res.push(r);
                i = i + 1;
            }
        },
        None => {
            let url = BASE16_SHELL_REPO_URL.to_string();
            let r = match expand_item_path_exec(&url, home) {
                Ok(x) => Some(x),
                Err(_) => None,
            };
            res.push(r);
        },
    }
    let ghost n_items = effective_item_paths(*c).len();
    assert(res.len() == n_items);
    match &c.schemes.path {
        Some(p) => {
            let r = match crate::utils::replace_tilde_with(p, home) {
                Ok(x) => Some(x),
                Err(_) => None,
            };
            res.push(r);
        },
        None => {},
    }
    let m = res.len();
    let extras = &c.schemes.extras;
    let e = extras.len();
    let mut j: usize = 0;
    while j < e
        invariant
            e == extras.len(),
            extras == &c.schemes.extras,
            all == path_candidates(*c, opt_view(*home)),
            m <= all.len(),
            all.len() == m + e,
            j <= e,
            res.len() == m + j,
            forall|k: int| 0 <= k < m + j ==> opt_view(#[trigger] res@[k]) == expanded(all[k]),
        decreases e - j,
    {
        let r = match crate::utils::replace_tilde_with(&extras[j].path, home) {
            Ok(x) => Some(x),
            Err(_) => None,
        };
        assert(all[m + j] == crate::utils::expand_home(extras@[j as int].path@, opt_view(*home)));
        res.push(r);
        j = j + 1;
    }
    res
}

/// The message a refused configuration is reported with.
pub open spec fn config_error_message(e: ConfigErrorView) -> Seq<char> {
    match e {
        ConfigErrorView::ReservedItemName => "config.toml item.name \"schemes\" is reserved for the built-in schemes repository and cannot be used for a custom item. Please rename this item."@,
        ConfigErrorView::DuplicateItemName(n) => "config.toml item.name should be unique values, but \""@ + n + "\" is used for more than 1 item.name. Please change this to a unique value."@,
        ConfigErrorView::EmptyExtraName => "config.toml schemes.extras.name should not be empty"@,
        ConfigErrorView::ReservedExtraName => "config.toml schemes.extras.name \"schemes\" is reserved for the built-in schemes repository. Please rename this extra scheme repo."@,
        ConfigErrorView::DuplicateExtraName(n) => "config.toml schemes.extras.name should be unique values, but \""@ + n + "\" is used for more than 1 extra. Please change this to a unique value."@,
        ConfigErrorView::EmptyRingName => "config.toml rings.name should not be empty"@,
        ConfigErrorView::DuplicateRingName(n) => "config.toml rings.name should be unique values, but \""@ + n + "\" is used for more than 1 rings.name. Please change this to a unique value."@,
        ConfigErrorView::UnknownDefaultCycleRing(n) => "config.toml default-cycle-ring is set to \""@ + n + "\", but no ring with that name exists"@,
        ConfigErrorView::NoRingsConfigured(n) => "config.toml default-cycle-ring is set to \""@ + n + "\", but no rings are configured"@,
        ConfigErrorView::NoHomeDir(n) => "Unable to determine a home directory for \""@ + n + "\", please use an absolute path instead"@,
        ConfigErrorView::InvalidItemPath(n) => "One of your config.toml items has an invalid `path` value. \""@ + n + "\" is not a valid url and is not a path to an existing local directory"@,
        ConfigErrorView::InvalidSchemesPath(n) => "config.toml [schemes].path \""@ + n + "\" is not a valid url and is not a path to an existing local directory"@,
        ConfigErrorView::MissingShellPlaceholder => "The configured shell does not contain the required command placeholder '{}'. Check the default file or github for config examples."@,
        ConfigErrorView::CircularSchemesPath(n) => "config.toml [schemes].path points at tinty's own managed schemes directory ("@ + n + "). This would create a circular reference; point it at a different directory or a Git URL."@,
        ConfigErrorView::InvalidExtraPath(n, q) => "config.toml schemes.extras \""@ + n + "\" has an invalid `path` value. \""@ + q + "\" is not a valid url and is not a path to an existing local directory"@,
    }
}

impl ConfigError {
    /// The message this error is reported with.
    pub fn message(&self) -> (res: String)
        ensures
            res@ == config_error_message(self@),
    {
        proof {
            reveal_strlit("config.toml item.name \"schemes\" is reserved for the built-in schemes repository and cannot be used for a custom item. Please rename this item.");
            reveal_strlit("config.toml item.name should be unique values, but \"");
            reveal_strlit("\" is used for more than 1 item.name. Please change this to a unique value.");
            reveal_strlit("config.toml schemes.extras.name should not be empty");
            reveal_strlit("config.toml schemes.extras.name \"schemes\" is reserved for the built-in schemes repository. Please rename this extra scheme repo.");
            reveal_strlit("config.toml schemes.extras.name should be unique values, but \"");
            reveal_strlit("\" is used for more than 1 extra. Please change this to a unique value.");
            reveal_strlit("config.toml rings.name should not be empty");
            reveal_strlit("config.toml rings.name should be unique values, but \"");
            reveal_strlit("\" is used for more than 1 rings.name. Please change this to a unique value.");
            reveal_strlit("config.toml default-cycle-ring is set to \"");
            reveal_strlit("\", but no ring with that name exists");
            reveal_strlit("\", but no rings are configured");
            reveal_strlit("Unable to determine a home directory for \"");
            reveal_strlit("\", please use an absolute path instead");
            reveal_strlit("One of your config.toml items has an invalid `path` value. \"");
            reveal_strlit("\" is not a valid url and is not a path to an existing local directory");
            reveal_strlit("config.toml [schemes].path \"");
            reveal_strlit("The configured shell does not contain the required command placeholder '{}'. Check the default file or github for config examples.");
            reveal_strlit("config.toml [schemes].path points at tinty's own managed schemes directory (");
            reveal_strlit("). This would create a circular reference; point it at a different directory or a Git URL.");
            reveal_strlit("config.toml schemes.extras \"");
            reveal_strlit("\" has an invalid `path` value. \"");
        }
        let m = match self {
            ConfigError::ReservedItemName => "config.toml item.name \"schemes\" is reserved for the built-in schemes repository and cannot be used for a custom item. Please rename this item.".to_string(),
            ConfigError::DuplicateItemName(n) => cat3("config.toml item.name should be unique values, but \"", n, "\" is used for more than 1 item.name. Please change this to a unique value."),
            ConfigError::EmptyExtraName => "config.toml schemes.extras.name should not be empty".to_string(),
            ConfigError::ReservedExtraName => "config.toml schemes.extras.name \"schemes\" is reserved for the built-in schemes repository. Please rename this extra scheme repo.".to_string(),
            ConfigError::DuplicateExtraName(n) => cat3("config.toml schemes.extras.name should be unique values, but \"", n, "\" is used for more than 1 extra. Please change this to a unique value."),
            ConfigError::EmptyRingName => "config.toml rings.name should not be empty".to_string(),
            ConfigError::DuplicateRingName(n) => cat3("config.toml rings.name should be unique values, but \"", n, "\" is used for more than 1 rings.name. Please change this to a unique value."),
            ConfigError::UnknownDefaultCycleRing(n) => cat3("config.toml default-cycle-ring is set to \"", n, "\", but no ring with that name exists"),
            ConfigError::NoRingsConfigured(n) => cat3("config.toml default-cycle-ring is set to \"", n, "\", but no rings are configured"),
            ConfigError::NoHomeDir(n) => cat3("Unable to determine a home directory for \"", n, "\", please use an absolute path instead"),
            ConfigError::InvalidItemPath(n) => cat3("One of your config.toml items has an invalid `path` value. \"", n, "\" is not a valid url and is not a path to an existing local directory"),
            ConfigError::InvalidSchemesPath(n) => cat3("config.toml [schemes].path \"", n, "\" is not a valid url and is not a path to an existing local directory"),
            ConfigError::MissingShellPlaceholder => "The configured shell does not contain the required command placeholder '{}'. Check the default file or github for config examples.".to_string(),
            ConfigError::CircularSchemesPath(n) => cat3("config.toml [schemes].path points at tinty's own managed schemes directory (", n, "). This would create a circular reference; point it at a different directory or a Git URL."),
            ConfigError::InvalidExtraPath(n, q) => {
                let mut m = cat3("config.toml schemes.extras \"", n, "\" has an invalid `path` value. \"");
                m.append(q);
                m.append("\" is not a valid url and is not a path to an existing local directory");
                m
            },
        };
        proof {
            assert(m@ =~= config_error_message(self@));
        }
        m
    }
}

/// Rejects a `[schemes].path` (a local directory) that resolves to tinty's
/// own managed schemes directory. URL sources are always accepted.
/// `source_canonical` is the canonical form of `source` and `slot_identity`
/// that of the slot (its canonical parent joined with its file name), each
/// when it could be determined.
pub fn ensure_schemes_path_not_circular(
    source: &str,
    schemes_repo_path: &str,
    source_canonical: &Option<String>,
    slot_identity: &Option<String>,
) -> (res: Result<(), ConfigError>)
    ensures
        res is Err <==> (!url_parses(source@) && source_canonical is Some && slot_identity is Some
            && source_canonical->0@ == slot_identity->0@),
        res matches Err(e) ==> e@ == ConfigErrorView::CircularSchemesPath(schemes_repo_path@),
{
    if is_url(source) {
        return Ok(());
    }
    match (source_canonical, slot_identity) {
        (Some(a), Some(b)) => {
            if str_eq(a, b) {
                Err(ConfigError::CircularSchemesPath(schemes_repo_path.to_string()))
            } else {
                Ok(())
            }
        },
        _ => Ok(()),
    }
}

/// Item names the checks accept are distinct, and none is `schemes`.
pub proof fn law_accepted_item_names(names: Seq<Seq<char>>)
    requires
        item_names_error(names) is None,
    ensures
        forall|i: int| 0 <= i < names.len() ==> #[trigger] names[i] != SCHEMES_REPO_NAME@,
        forall|i: int, j: int| 0 <= i < j < names.len() ==> #[trigger] names[i] != #[trigger] names[j],
    decreases names.len(),
{
    if names.len() > 0 {
        let last = names.len() - 1;
        law_accepted_item_names(names.drop_last());
        assert(!repeats_earlier(names, last));
        assert forall|i: int, j: int| 0 <= i < j < names.len() implies #[trigger] names[i] != #[trigger] names[j] by {
            if j < last {
                assert(names.drop_last()[i] == names[i]);
                assert(names.drop_last()[j] == names[j]);
            } else {
                assert(!(names[i] == names[last]));
            }
        }
        assert forall|i: int| 0 <= i < names.len() implies #[trigger] names[i] != SCHEMES_REPO_NAME@ by {
            if i < last {
                assert(names.drop_last()[i] == names[i]);
            }
        }
    }
}

/// Ring names the checks accept are distinct and none is blank.
pub proof fn law_accepted_ring_names(names: Seq<Seq<char>>)
    requires
        ring_names_error(names) is None,
    ensures
        forall|i: int| 0 <= i < names.len() ==> trim(#[trigger] names[i]).len() > 0,
        forall|i: int, j: int| 0 <= i < j < names.len() ==> #[trigger] names[i] != #[trigger] names[j],
    decreases names.len(),
{
    if names.len() > 0 {
        let last = names.len() - 1;
        law_accepted_ring_names(names.drop_last());
        assert(!repeats_earlier(names, last));
        assert forall|i: int, j: int| 0 <= i < j < names.len() implies #[trigger] names[i] != #[trigger] names[j] by {
            if j < last {
                assert(names.drop_last()[i] == names[i]);
                assert(names.drop_last()[j] == names[j]);
            } else {
                assert(!(names[i] == names[last]));
            }
        }
        assert forall|i: int| 0 <= i < names.len() implies trim(#[trigger] names[i]).len() > 0 by {
            if i < last {
                assert(names.drop_last()[i] == names[i]);
            }
        }
    }
}

/// Extra scheme repository names the checks accept are distinct, none is
/// blank and none is `schemes`.
pub proof fn law_accepted_extra_names(names: Seq<Seq<char>>)
    requires
        extra_names_error(names) is None,
    ensures
        forall|i: int| 0 <= i < names.len() ==> trim(#[trigger] names[i]).len() > 0 && names[i] != SCHEMES_REPO_NAME@,
        forall|i: int, j: int| 0 <= i < j < names.len() ==> #[trigger] names[i] != #[trigger] names[j],
    decreases names.len(),
{
    if names.len() > 0 {
        let last = names.len() - 1;
        law_accepted_extra_names(names.drop_last());
        assert(!repeats_earlier(names, last));
        assert forall|i: int, j: int| 0 <= i < j < names.len() implies #[trigger] names[i] != #[trigger] names[j] by {
            if j < last {
                assert(names.drop_last()[i] == names[i]);
                assert(names.drop_last()[j] == names[j]);
            } else {
                assert(!(names[i] == names[last]));
            }
        }
        assert forall|i: int| 0 <= i < names.len() implies trim(#[trigger] names[i]).len() > 0 && names[i] != SCHEMES_REPO_NAME@ by {
            if i < last {
                assert(names.drop_last()[i] == names[i]);
            }
        }
    }
}

/// A configuration that reading accepts has distinct item names, none of
/// them `schemes`; distinct, non-blank ring names, among which the default
/// cycle ring (when set) is found; distinct, non-blank extra repository
/// names, none of them `schemes`; and a shell with the `{}` placeholder.
pub proof fn law_accepted_config(c: Config, home: Option<Seq<char>>, dirs: Seq<Seq<char>>)
    requires
        read_error(c, home, dirs) is None,
    ensures
        c.items matches Some(v) ==> {
            &&& forall|i: int| 0 <= i < v.len() ==> #[trigger] v@[i].name@ != SCHEMES_REPO_NAME@
            &&& forall|i: int, j: int| 0 <= i < j < v.len() ==> #[trigger] v@[i].name@ != #[trigger] v@[j].name@
        },
        c.rings matches Some(r) ==> {
            &&& forall|i: int| 0 <= i < r.len() ==> trim(#[trigger] r@[i].name@).len() > 0
            &&& forall|i: int, j: int| 0 <= i < j < r.len() ==> #[trigger] r@[i].name@ != #[trigger] r@[j].name@
            &&& c.default_cycle_ring matches Some(d) ==> exists|i: int| 0 <= i < r.len() && #[trigger] r@[i].name@ == d@
        },
        c.rings is None ==> c.default_cycle_ring is None,
        forall|i: int| 0 <= i < c.schemes.extras.len() ==> trim(#[trigger] c.schemes.extras@[i].name@).len() > 0
            && c.schemes.extras@[i].name@ != SCHEMES_REPO_NAME@,
        forall|i: int, j: int| 0 <= i < j < c.schemes.extras.len() ==> #[trigger] c.schemes.extras@[i].name@
            != #[trigger] c.schemes.extras@[j].name@,
        crate::text::contains(effective_shell(c), seq!['{', '}']),
{
    match c.items {
        Some(v) => {
            law_accepted_item_names(item_names(v@));
            assert forall|i: int| 0 <= i < v.len() implies #[trigger] v@[i].name@ != SCHEMES_REPO_NAME@ by {
                assert(item_names(v@)[i] == v@[i].name@);
            }
            assert forall|i: int, j: int| 0 <= i < j < v.len() implies #[trigger] v@[i].name@ != #[trigger] v@[j].name@ by {
                assert(item_names(v@)[i] == v@[i].name@);
                assert(item_names(v@)[j] == v@[j].name@);
            }
        },
        None => {},
    }
    match c.rings {
        Some(r) => {
            let names = ring_names_of(r@);
            law_accepted_ring_names(names);
            assert forall|i: int| 0 <= i < r.len() implies trim(#[trigger] r@[i].name@).len() > 0 by {
                assert(names[i] == r@[i].name@);
            }
            assert forall|i: int, j: int| 0 <= i < j < r.len() implies #[trigger] r@[i].name@ != #[trigger] r@[j].name@ by {
                assert(names[i] == r@[i].name@);
                assert(names[j] == r@[j].name@);
            }
            match c.default_cycle_ring {
                Some(d) => {
                    assert(names.contains(d@));
                    let k = choose|k: int| 0 <= k < names.len() && names[k] == d@;
                    assert(r@[k].name@ == d@);
                },
                None => {},
            }
        },
        None => {},
    }
    let en = extra_names(c.schemes.extras@);
    law_accepted_extra_names(en);
    assert forall|i: int| 0 <= i < c.schemes.extras.len() implies trim(#[trigger] c.schemes.extras@[i].name@).len() > 0
        && c.schemes.extras@[i].name@ != SCHEMES_REPO_NAME@ by {
        assert(en[i] == c.schemes.extras@[i].name@);
    }
    assert forall|i: int, j: int| 0 <= i < j < c.schemes.extras.len() implies #[trigger] c.schemes.extras@[i].name@
        != #[trigger] c.schemes.extras@[j].name@ by {
        assert(en[i] == c.schemes.extras@[i].name@);
        assert(en[j] == c.schemes.extras@[j].name@);
    }
}

} // verus!
