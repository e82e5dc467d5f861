//! Applying a scheme: checking the requested name, choosing each item's theme
//! file and the name of its copy, splicing theme text into user files, and
//! forming hook command lines. Reading, copying and running are the caller's.
use crate::config::{opt_view, ConfigItem};
use crate::constants::LOCK_FILE;
use crate::outside::{
    is_regex_meta, lazy_section_pattern, open_section_pattern, regex_escaped, regex_replace_all_literally,
    regex_replaced_literally, splice_sections, splice_to_end, first_occurrence_from, lemma_first_occurrence_from,
};
use crate::paths::{file_extension, file_stem, join_path, last_dot, path_join, split_file_name};
use crate::scheme_system::SchemeSystem;
use crate::text::{cat, cat3, join, join_strings, replace_all, split_char, str_eq, str_replace, str_split_char, views};
use crate::utils::{
    get_shell_command_from_string, shell_command_error_message, shell_command_words,
    theme_filename_stem, ShellCommandError,
};
use vstd::prelude::*;

verus! {

// ---------------------------------------------------------------------------
// Errors.
// ---------------------------------------------------------------------------

/// Why a scheme could not be applied.
pub enum ApplyError {
    /// The name has no `<system>-` prefix.
    MissingSystemPrefix,
    /// The prefix is not `base16` or `base24`; holds the requested name.
    UnsupportedSystem(String),
    /// No scheme of that name exists; holds the requested name.
    SchemeNotFound(String),
    /// A generated custom scheme shadows a built-in one; holds the path of
    /// the custom scheme file.
    ShadowedCustomScheme(String),
    /// An item's themes directory is missing; holds the item name and the
    /// directory.
    ThemePathMissing(String, String),
    /// An item's themes directory could not be listed; holds the item name.
    ThemesUnreadable(String),
    /// An item's `write_to_file` list has neither 1, 2 nor 3 entries.
    InvalidWriteToFile,
    /// No start marker was given for splicing.
    MissingStartMarker,
    /// The marker pattern did not compile.
    InvalidMarkerPattern,
    /// A hook command line could not be formed.
    HookCommand(ShellCommandError),
    /// A hook command line has no words.
    EmptyCommand,
}

/// An [`ApplyError`] with its strings viewed as character sequences.
pub enum ApplyErrorView {
    MissingSystemPrefix,
    UnsupportedSystem(Seq<char>),
    SchemeNotFound(Seq<char>),
    ShadowedCustomScheme(Seq<char>),
    ThemePathMissing(Seq<char>, Seq<char>),
    ThemesUnreadable(Seq<char>),
    InvalidWriteToFile,
    MissingStartMarker,
    InvalidMarkerPattern,
    HookCommand(ShellCommandError),
    EmptyCommand,
}

impl View for ApplyError {
    type V = ApplyErrorView;

    open spec fn view(&self) -> ApplyErrorView {
        match self {
            ApplyError::MissingSystemPrefix => ApplyErrorView::MissingSystemPrefix,
            ApplyError::UnsupportedSystem(n) => ApplyErrorView::UnsupportedSystem(n@),
            ApplyError::SchemeNotFound(n) => ApplyErrorView::SchemeNotFound(n@),
            ApplyError::ShadowedCustomScheme(p) => ApplyErrorView::ShadowedCustomScheme(p@),
            ApplyError::ThemePathMissing(n, p) => ApplyErrorView::ThemePathMissing(n@, p@),
            ApplyError::ThemesUnreadable(n) => ApplyErrorView::ThemesUnreadable(n@),
            ApplyError::InvalidWriteToFile => ApplyErrorView::InvalidWriteToFile,
            ApplyError::MissingStartMarker => ApplyErrorView::MissingStartMarker,
            ApplyError::InvalidMarkerPattern => ApplyErrorView::InvalidMarkerPattern,
            ApplyError::HookCommand(e) => ApplyErrorView::HookCommand(*e),
            ApplyError::EmptyCommand => ApplyErrorView::EmptyCommand,
        }
    }
}

/// The message an apply error is reported with.
pub open spec fn apply_error_message(e: ApplyErrorView) -> Seq<char> {
    match e {
        ApplyErrorView::MissingSystemPrefix => "Invalid scheme name. Make sure the scheme system is prefixed <SCHEME_SYSTEM>-<SCHEME_NAME>, eg: `base16-ayu-dark`"@,
        ApplyErrorView::UnsupportedSystem(n) => "Invalid scheme name. Make sure your scheme is prefixed with a supprted system (\"base16\", \"base24\" or \"tinted8\"), eg: base16-"@ + n,
        ApplyErrorView::SchemeNotFound(n) => "Scheme does not exist: "@ + n,
        ApplyErrorView::ShadowedCustomScheme(p) => "You have a Tinty generated scheme named the same as an official tinted-theming/schemes name, please rename or remove it: "@ + p,
        ApplyErrorView::ThemePathMissing(n, p) => "Provided theme path for "@ + n + " does not exist: "@ + p + "\nTry running `tinty install` or `tinty update` or check your config.toml file and try again."@,
        ApplyErrorView::ThemesUnreadable(n) => "Themes are missing from "@ + n + ", try running `tinty install` or `tinty update` and try again."@,
        ApplyErrorView::InvalidWriteToFile => "tinty.toml requires has invalid values in `write_to_file` property"@,
        ApplyErrorView::MissingStartMarker => "Unable to get file contents"@,
        ApplyErrorView::InvalidMarkerPattern => "Unable to compile the marker pattern"@,
        ApplyErrorView::HookCommand(e) => shell_command_error_message(e),
        ApplyErrorView::EmptyCommand => "Unable to extract cli command"@,
    }
}

impl ApplyError {
    /// The message this error is reported with.
    pub fn message(&self) -> (res: String)
        ensures
            res@ == apply_error_message(self@),
    {
        let m = match self {
            ApplyError::MissingSystemPrefix => "Invalid scheme name. Make sure the scheme system is prefixed <SCHEME_SYSTEM>-<SCHEME_NAME>, eg: `base16-ayu-dark`".to_string(),
            ApplyError::UnsupportedSystem(n) => cat("Invalid scheme name. Make sure your scheme is prefixed with a supprted system (\"base16\", \"base24\" or \"tinted8\"), eg: base16-", n),
            ApplyError::SchemeNotFound(n) => cat("Scheme does not exist: ", n),
            ApplyError::ShadowedCustomScheme(p) => cat("You have a Tinty generated scheme named the same as an official tinted-theming/schemes name, please rename or remove it: ", p),
            ApplyError::ThemePathMissing(n, p) => {
                let mut m = cat3("Provided theme path for ", n, " does not exist: ");
                m.append(p);
                m.append("\nTry running `tinty install` or `tinty update` or check your config.toml file and try again.");
                m
            },
            ApplyError::ThemesUnreadable(n) => cat3("Themes are missing from ", n, ", try running `tinty install` or `tinty update` and try again."),
            ApplyError::InvalidWriteToFile => "tinty.toml requires has invalid values in `write_to_file` property".to_string(),
            ApplyError::MissingStartMarker => "Unable to get file contents".to_string(),
            ApplyError::InvalidMarkerPattern => "Unable to compile the marker pattern".to_string(),
            ApplyError::HookCommand(e) => e.message(),
            ApplyError::EmptyCommand => "Unable to extract cli command".to_string(),
        };
        proof {
            assert(m@ =~= apply_error_message(self@));
        }
        m
    }
}

/// `res` is the outcome `expected` describes: the same value, or an error
/// with that view.
pub open spec fn outcome_is<T>(res: Result<T, ApplyError>, expected: Result<T, ApplyErrorView>) -> bool {
    match expected {
        Ok(v) => res matches Ok(r) && r == v,
        Err(e) => res matches Err(x) && x@ == e,
    }
}

// ---------------------------------------------------------------------------
// The requested scheme.
// ---------------------------------------------------------------------------

/// Where the requested scheme comes from.
#[derive(Clone, Copy, Debug, PartialEq, Eq, Structural)]
pub enum SchemeSource {
    /// A scheme of the schemes repositories.
    Builtin,
    /// A locally generated scheme.
    Custom,
}

/// The systems a scheme can be applied from: every supported system.
pub open spec fn is_apply_system(v: Seq<char>) -> bool {
    SchemeSystem::from_name(v) is Some
}

/// Whether `value` names a system a scheme can be applied from.
fn str_matches_scheme_system(value: &str) -> (res: bool)
    ensures
        res == is_apply_system(value@),
{
    SchemeSystem::from_str(value).is_some()
}

/// The path reported for a custom scheme that shadows a built-in one:
/// `<custom dir>/<name without its system prefix>.yaml`.
pub open spec fn shadow_path(custom_dir: Seq<char>, full: Seq<char>) -> Seq<char> {
    custom_dir + seq!['/'] + join(split_char(full, '-').skip(1), seq!['-']) + ".yaml"@
}

/// What checking the requested scheme `full` gives, knowing whether a
/// built-in and whether a custom scheme of that name exist: its system and
/// source, or the error.
pub open spec fn check_scheme_outcome(full: Seq<char>, builtin: bool, custom: bool, custom_dir: Seq<char>) -> Result<(SchemeSystem, SchemeSource), ApplyErrorView> {
    let pieces = split_char(full, '-');
    let system = SchemeSystem::from_name(pieces[0])->0;
    if pieces.len() < 2 {
        Err(ApplyErrorView::MissingSystemPrefix)
    } else if !is_apply_system(pieces[0]) {
        Err(ApplyErrorView::UnsupportedSystem(full))
    } else if builtin && !custom {
        Ok((system, SchemeSource::Builtin))
    } else if custom && !builtin {
        Ok((system, SchemeSource::Custom))
    } else if !builtin {
        Err(ApplyErrorView::SchemeNotFound(full))
    } else {
        Err(ApplyErrorView::ShadowedCustomScheme(shadow_path(custom_dir, full)))
    }
}

/// Checks the requested scheme name `full` (`<system>-<name>`), knowing
/// whether a built-in and whether a custom scheme of that name exist, and
/// whether custom schemes live in `custom_schemes_path`.
pub fn check_scheme(full: &str, builtin_exists: bool, custom_exists: bool, custom_schemes_path: &str) -> (res: Result<(SchemeSystem, SchemeSource), ApplyError>)
    ensures
        outcome_is(res, check_scheme_outcome(full@, builtin_exists, custom_exists, custom_schemes_path@)),
{
    let pieces = str_split_char(full, '-');
    proof {
        crate::text::lemma_split_char_nonempty(full@, '-');
        assert(views(pieces@)[0] == pieces@[0]@);
    }
    if pieces.len() < 2 {
        return Err(ApplyError::MissingSystemPrefix);
    }
    let first = pieces[0].as_str();
    if !str_matches_scheme_system(first) {
        return Err(ApplyError::UnsupportedSystem(full.to_string()));
    }
    let system = SchemeSystem::from_str(first).unwrap();
    if builtin_exists && !custom_exists {
        return Ok((system, SchemeSource::Builtin));
    }
    if custom_exists && !builtin_exists {
        return Ok((system, SchemeSource::Custom));
    }
    if !builtin_exists {
        return Err(ApplyError::SchemeNotFound(full.to_string()));
    }
    let mut rest: Vec<String> = Vec::new();
    let n = pieces.len();
    let mut i: usize = 1;
    while i < n
        invariant
            n == pieces.len(),
            1 <= i <= n,
            views(rest@) == views(pieces@).subrange(1, i as int),
        decreases n - i,
    {
        let p = pieces[i].clone();
        let ghost before = views(rest@);
        rest.push(p);
        assert(views(rest@) =~= before.push(pieces@[i as int]@));
        assert(views(pieces@).subrange(1, i + 1) =~= views(pieces@).subrange(1, i as int).push(
            views(pieces@)[i as int],
        ));
        i = i + 1;
    }
    assert(views(pieces@).subrange(1, n as int) =~= split_char(full@, '-').skip(1));
    let partial = join_strings(&rest, "-");
    proof {
        reveal_strlit("-");
        reveal_strlit("/");
        reveal_strlit(".yaml");
        assert("-"@ =~= seq!['-']);
    }
    let path = cat(&cat3(custom_schemes_path, "/", &partial), ".yaml");
    proof {
        assert(path@ =~= shadow_path(custom_schemes_path@, full@));
    }
    Err(ApplyError::ShadowedCustomScheme(path))
}

// ---------------------------------------------------------------------------
// The items a scheme is applied to.
// ---------------------------------------------------------------------------

/// Whether `item` supports `system`: its `supported-systems` list it.
pub open spec fn supports(item: ConfigItem, system: SchemeSystem) -> bool {
    item.supported_systems matches Some(v) && v@.contains(system)
}

/// The items of `s` that support `system`, in order.
pub open spec fn kept_items(s: Seq<ConfigItem>, system: SchemeSystem) -> Seq<ConfigItem>
    decreases s.len(),
{
    if s.len() == 0 {
        s
    } else if supports(s[0], system) {
        seq![s[0]] + kept_items(s.drop_first(), system)
    } else {
        kept_items(s.drop_first(), system)
    }
}

/// Whether the systems `v` include `system`.
fn lists_system(v: &Vec<SchemeSystem>, system: SchemeSystem) -> (res: bool)
    ensures
        res == v@.contains(system),
{
    let n = v.len();
    let mut i: usize = 0;
    while i < n
        invariant
            n == v.len(),
            i <= n,
            forall|k: int| 0 <= k < i ==> v@[k] != system,
        decreases n - i,
    {
        if v[i] == system {
            assert(v@[i as int] == system);
            return true;
        }
        i = i + 1;
    }
    false
}

/// The configured items a scheme of `system` is applied to: those whose
/// `supported-systems` include it.
pub fn system_items(items: Option<Vec<ConfigItem>>, system: SchemeSystem) -> (res: Vec<ConfigItem>)
    ensures
        res@ == match items {
            Some(v) => kept_items(v@, system),
            None => Seq::empty(),
        },
{
    let mut v = match items {
        Some(v) => v,
        None => {
            return Vec::new();
        },
    };
    let ghost orig = v@;
    let mut res: Vec<ConfigItem> = Vec::new();
    while v.len() > 0
        invariant
            res@ + kept_items(v@, system) == kept_items(orig, system),
        decreases v.len(),
    {
        let ghost before_v = v@;
        let ghost before_r = res@;
        let item = v.remove(0);
        assert(v@ =~= before_v.drop_first());
        let keep = match &item.supported_systems {
            Some(systems) => lists_system(systems, system),
            None => false,
        };
        if keep {
            res.push(item);
            assert(res@ + kept_items(v@, system) =~= before_r + kept_items(before_v, system));
        } else {
            assert(res@ + kept_items(v@, system) =~= before_r + kept_items(before_v, system));
        }
    }
    assert(res@ + Seq::<ConfigItem>::empty() =~= res@);
    res
}

// ---------------------------------------------------------------------------
// Theme files and their copies.
// ---------------------------------------------------------------------------

/// Whether a file named `name` is the theme file of scheme `full`: with a
/// configured extension, the name is the scheme name followed by it;
/// without one, the file's stem is the scheme name.
pub open spec fn is_theme_file(name: Seq<char>, full: Seq<char>, ext: Option<Seq<char>>) -> bool {
    match ext {
        Some(e) => name == full + e,
        None => file_stem(name) == full,
    }
}

/// Without a configured extension, a file is the theme file of scheme
/// `full` exactly when its name is `full` itself (holding no '.' after its
/// first character), or `full` followed by a '.' and an extension without
/// '.': a longer scheme name that merely starts with `full` (such as
/// `base16-tomorrow-night.vim` for `base16-tomorrow`) is another scheme.
pub proof fn law_theme_file_stem_is_the_scheme(name: Seq<char>, full: Seq<char>)
    ensures
        is_theme_file(name, full, None) <==> (
            (name == full && forall|k: int| 0 < k < name.len() ==> name[k] != '.')
            || (full.len() > 0 && name.len() > full.len() && name.take(full.len() as int) == full
                && name[full.len() as int] == '.' && forall|k: int|
                full.len() < k < name.len() ==> name[k] != '.')
        ),
{
    crate::paths::lemma_last_dot(name);
    if full.len() > 0 && name.len() > full.len() && name.take(full.len() as int) == full
        && name[full.len() as int] == '.' && (forall|k: int| full.len() < k < name.len() ==> name[k] != '.') {
        crate::paths::lemma_last_dot_at(name, full.len() as int);
        assert(name.subrange(0, full.len() as int) =~= full);
    }
    if name == full && (forall|k: int| 0 < k < name.len() ==> name[k] != '.') {
        if name.len() > 0 && name[0] == '.' {
            crate::paths::lemma_last_dot_at(name, 0);
        } else {
            crate::paths::lemma_last_dot_at(name, -1);
        }
    }
    if is_theme_file(name, full, None) {
        match last_dot(name) {
            Some(p) => {
                if p > 0 {
                    assert(full =~= name.subrange(0, p));
                    assert(name.take(full.len() as int) =~= full);
                }
            },
            None => {},
        }
    }
}

/// The first of `names` (the entries of an item's themes directory) that is
/// the theme file of scheme `full`.
pub fn find_theme_file(names: &Vec<String>, full: &str, ext: &Option<String>) -> (res: Option<usize>)
    ensures
        match res {
            Some(i) => i < names.len() && is_theme_file(names@[i as int]@, full@, opt_view(*ext))
                && forall|j: int| 0 <= j < i ==> !is_theme_file(#[trigger] names@[j]@, full@, opt_view(*ext)),
            None => forall|j: int|
                0 <= j < names.len() ==> !is_theme_file(#[trigger] names@[j]@, full@, opt_view(*ext)),
        },
{
    let n = names.len();
    let mut i: usize = 0;
    while i < n
        invariant
            n == names.len(),
            i <= n,
            forall|j: int| 0 <= j < i ==> !is_theme_file(#[trigger] names@[j]@, full@, opt_view(*ext)),
        decreases n - i,
    {
        let hit = match ext {
            Some(e) => {
                let want = cat(full, e);
                str_eq(names[i].as_str(), want.as_str())
            },
            None => {
                let (stem, _) = split_file_name(names[i].as_str());
                str_eq(stem.as_str(), full)
            },
        };
        if hit {
            return Some(i);
        }
        i = i + 1;
    }
    None
}

/// The name an item's theme file `found` is copied under:
/// `<item>-<themes dir>-file`, followed by `found`'s extension.
pub open spec fn theme_copy_name(item: ConfigItem, found: Seq<char>) -> Seq<char> {
    theme_filename_stem(item.name@, item.themes_dir@) + match file_extension(found) {
        Some(e) => seq!['.'] + e,
        None => Seq::empty(),
    }
}

/// The name an item's theme file `found` is copied under.
pub fn theme_copy_file_name(item: &ConfigItem, found: &str) -> (res: String)
    ensures
        res@ == theme_copy_name(*item, found@),
{
    let stem = crate::utils::create_theme_filename_without_extension(item);
    let (_, ext) = split_file_name(found);
    match ext {
        Some(e) => {
            proof {
                reveal_strlit(".");
            }
            cat3(stem.as_str(), ".", e.as_str())
        },
        None => {
            proof {
                assert(stem@ + Seq::<char>::empty() =~= stem@);
            }
            stem
        },
    }
}

/// The directory an item's theme files are read from:
/// `<data dir>/repos/<item>/<themes dir>`.
pub fn item_themes_path(data_path: &str, item: &ConfigItem) -> (res: String)
    ensures
        res@ == path_join(path_join(path_join(data_path@, crate::constants::REPO_DIR@), item.name@), item.themes_dir@),
{
    let repo = crate::paths::item_repo_path(data_path, item.name.as_str());
    join_path(repo.as_str(), item.themes_dir.as_str())
}

/// The notice printed when an item has no theme file for the scheme.
pub fn missing_theme_message(item_name: &str, themes_path: &str) -> (res: String)
    ensures
        res@ == "Theme does not exists for "@ + item_name@ + " in "@ + themes_path@
            + ". Try running `tinty update` or submit an issue on https://github.com/tinted-theming/tinty"@,
{
    let mut m = cat3("Theme does not exists for ", item_name, " in ");
    m.append(themes_path);
    m.append(". Try running `tinty update` or submit an issue on https://github.com/tinted-theming/tinty");
    m
}

// ---------------------------------------------------------------------------
// Command lines.
// ---------------------------------------------------------------------------

/// A command line's program and arguments, from its words, or why there is
/// none.
pub open spec fn command_outcome(words: Result<Seq<Seq<char>>, ShellCommandError>) -> Result<(Seq<char>, Seq<Seq<char>>), ApplyErrorView> {
    match words {
        Err(e) => Err(ApplyErrorView::HookCommand(e)),
        Ok(w) => if w.len() == 0 {
            Err(ApplyErrorView::EmptyCommand)
        } else {
            Ok((w[0], w.skip(1)))
        },
    }
}

/// The program and arguments that run `command` through `shell` (the
/// configured shell, or the default).
pub fn shell_command(shell: &Option<String>, command: &str) -> (res: Result<(String, Vec<String>), ApplyError>)
    ensures
        match command_outcome(shell_command_words(opt_view(*shell), command@)) {
            Ok((p, a)) => res matches Ok((rp, ra)) && rp@ == p && views(ra@) == a,
            Err(e) => res matches Err(x) && x@ == e,
        },
{
    match get_shell_command_from_string(shell, command) {
        Err(e) => Err(ApplyError::HookCommand(e)),
        Ok(words) => {
            let mut words = words;
            if words.len() == 0 {
                return Err(ApplyError::EmptyCommand);
            }
            let ghost w = views(words@);
            let program = words.remove(0);
            proof {
                assert(views(words@) =~= w.skip(1));
            }
            Ok((program, words))
        },
    }
}

/// A template item's hook, to be run once the applied files are in place.
pub struct Hook {
    /// The item's name.
    pub name: String,
    /// The configured command, with `%o`, `%f` and `%n` placeholders.
    pub command_template: String,
    /// The operation reported to the hook (`apply` unless another is active).
    pub operation: String,
    /// The theme copy's path relative to the artifacts directory.
    pub relative_file_path: String,
}

/// A hook's command line, ready to run.
pub struct HookCommand {
    pub program: String,
    pub args: Vec<String>,
    /// The applied theme file's path, also handed to the hook in
    /// `TINTY_THEME_FILE_PATH`.
    pub theme_file_path: String,
    /// The operation, also handed to the hook in `TINTY_THEME_OPERATION`.
    pub operation: String,
}

/// A hook template with `%o`, `%f` and `%n` replaced, in that order, by the
/// operation, the theme file's path and the scheme name.
pub open spec fn hook_script(template: Seq<char>, operation: Seq<char>, theme_path: Seq<char>, full: Seq<char>) -> Seq<char> {
    replace_all(
        replace_all(replace_all(template, seq!['%', 'o'], operation), seq!['%', 'f'], theme_path),
        seq!['%', 'n'],
        full,
    )
}

/// The operation a hook reports: the active one, or `apply`.
pub open spec fn hook_operation(active: Option<Seq<char>>) -> Seq<char> {
    match active {
        Some(o) => o,
        None => "apply"@,
    }
}

impl Hook {
    /// The hook of `item`, whose theme was copied to `file_name`, if the item
    /// has one.
    pub fn for_item(item: &ConfigItem, active_operation: Option<&str>, file_name: &str) -> (res: Option<Hook>)
        ensures
            match item.hook {
                None => res is None,
                Some(t) => res matches Some(h) && h.name@ == item.name@ && h.command_template@ == t@
                    && h.operation@ == hook_operation(match active_operation {
                        Some(o) => Some(o@),
                        None => None,
                    }) && h.relative_file_path@ == file_name@,
            },
    {
        match &item.hook {
            None => None,
            Some(t) => {
                proof {
                    reveal_strlit("apply");
                }
                let operation = match active_operation {
                    Some(o) => o.to_string(),
                    None => "apply".to_string(),
                };
                Some(Hook {
                    name: item.name.clone(),
                    command_template: t.clone(),
                    operation,
                    relative_file_path: file_name.to_string(),
                })
            },
        }
    }

    /// The command line of this hook once the files are in
    /// `artifacts_path`, for scheme `full`, run through `shell`.
    pub fn command(&self, artifacts_path: &str, shell: &Option<String>, full: &str) -> (res: Result<HookCommand, ApplyError>)
        ensures
            ({
                let path = path_join(artifacts_path@, self.relative_file_path@);
                let script = hook_script(self.command_template@, self.operation@, path, full@);
                match command_outcome(shell_command_words(opt_view(*shell), script)) {
                    Ok((p, a)) => res matches Ok(c) && c.program@ == p && views(c.args@) == a
                        && c.theme_file_path@ == path && c.operation@ == self.operation@,
                    Err(e) => res matches Err(x) && x@ == e,
                }
            }),
    {
        let path = join_path(artifacts_path, self.relative_file_path.as_str());
        proof {
            reveal_strlit("%o");
            reveal_strlit("%f");
            reveal_strlit("%n");
            assert("%o"@ =~= seq!['%', 'o']);
            assert("%f"@ =~= seq!['%', 'f']);
            assert("%n"@ =~= seq!['%', 'n']);
        }
        let s1 = str_replace(self.command_template.as_str(), "%o", self.operation.as_str());
        let s2 = str_replace(s1.as_str(), "%f", path.as_str());
        let script = str_replace(s2.as_str(), "%n", full);
        let (program, args) = shell_command(shell, script.as_str())?;
        Ok(HookCommand { program, args, theme_file_path: path, operation: self.operation.clone() })
    }
}

// ---------------------------------------------------------------------------
// Writing theme text into user files.
// ---------------------------------------------------------------------------

/// `s` without its leading separators and `.` components.
pub open spec fn trim_left_components(s: Seq<char>) -> Seq<char>
    decreases s.len(),
{
    if s.len() > 0 && (s[0] == '/' || (s[0] == '.' && (s.len() == 1 || s[1] == '/'))) {
        trim_left_components(s.drop_first())
    } else {
        s
    }
}

/// `s` without its trailing separators and `.` components.
pub open spec fn trim_right_components(s: Seq<char>) -> Seq<char>
    decreases s.len(),
{
    if s.len() > 0 && (s.last() == '/' || (s.last() == '.' && (s.len() == 1 || s[s.len() - 2] == '/'))) {
        trim_right_components(s.drop_last())
    } else {
        s
    }
}

/// A path whose first component is `~` with that component replaced by
/// `home` (as `Path::strip_prefix("~/")` and `join` do); any other path, or
/// any path when there is no home directory, unchanged.
pub open spec fn expand_tilde_path(p: Seq<char>, home: Option<Seq<char>>) -> Seq<char> {
    if p.len() > 0 && p[0] == '~' && (p.len() == 1 || p[1] == '/') {
        match home {
            Some(h) => path_join(h, trim_right_components(trim_left_components(p.drop_first()))),
            None => p,
        }
    } else {
        p
    }
}

/// `out` is `p` with a leading `~` expanded by some home directory, or `p`
/// itself.
pub open spec fn tilde_expansion_of(p: Seq<char>, out: Seq<char>) -> bool {
    exists|h: Option<Seq<char>>| out == expand_tilde_path(p, h)
}

/// `path` with a leading `~` component replaced by `home`.
pub fn expand_tilde_with(path: &str, home: &Option<String>) -> (res: String)
    ensures
        res@ == expand_tilde_path(path@, opt_view(*home)),
{
    let v = crate::text::chars_of(path);
    let n = v.len();
    if !(n > 0 && v[0] == '~' && (n == 1 || v[1] == '/')) {
        return path.to_string();
    }
    let h = match home {
        Some(h) => h,
        None => {
            return path.to_string();
        },
    };
    let mut i: usize = 1;
    assert(v@.subrange(1, n as int) =~= v@.drop_first());
    while i < n && (v[i] == '/' || (v[i] == '.' && (i + 1 == n || v[i + 1] == '/')))
        invariant
            1 <= i <= n,
            n == v.len(),
            trim_left_components(v@.drop_first()) == trim_left_components(v@.subrange(i as int, n as int)),
        decreases n - i,
    {
        assert(v@.subrange(i as int, n as int).drop_first() =~= v@.subrange(i + 1, n as int));
        i = i + 1;
    }
    assert(trim_left_components(v@.subrange(i as int, n as int)) == v@.subrange(i as int, n as int));
    let mut j: usize = n;
    while j > i && (v[j - 1] == '/' || (v[j - 1] == '.' && (j - 1 == i || v[j - 2] == '/')))
        invariant
            1 <= i <= j <= n,
            n == v.len(),
            trim_right_components(v@.subrange(i as int, n as int)) == trim_right_components(v@.subrange(i as int, j as int)),
        decreases j - i,
    {
        assert(v@.subrange(i as int, j as int).drop_last() =~= v@.subrange(i as int, j - 1));
        j = j - 1;
    }
    let rest = crate::text::string_of(&crate::text::slice_chars(&v, i, j));
    join_path(h.as_str(), rest.as_str())
}

/// `path` with a leading `~` component replaced by the home directory of the
/// environment. Whatever that directory is, the result is the expansion by
/// it.
pub fn expand_tilde(path: &str) -> (res: String)
    ensures
        tilde_expansion_of(path@, res@),
{
    let home = crate::outside::dirs_home_dir_display();
    let res = expand_tilde_with(path, &home);
    assert(res@ == expand_tilde_path(path@, opt_view(home)));
    res
}

/// Where an item's `write_to_file` setting sends the theme text.
pub enum WriteTarget {
    /// Into the file at `path`, between `start` and `end` (or from `start` to
    /// the end of the file).
    Splice { path: String, start: String, end: Option<String> },
    /// Over the whole file at `path`.
    Overwrite { path: String },
}

/// `res` is what a `write_to_file` list `entries` gives: one entry
/// overwrites that file, two splice after a start marker, three splice
/// between a start and an end marker (the file's `~` expanded); any other
/// length is refused.
pub open spec fn write_target_for(entries: Seq<String>, res: Result<WriteTarget, ApplyError>) -> bool {
    if entries.len() == 3 {
        res matches Ok(WriteTarget::Splice { path, start, end }) && tilde_expansion_of(entries[0]@, path@)
            && start@ == entries[1]@ && end is Some && end->0@ == entries[2]@
    } else if entries.len() == 2 {
        res matches Ok(WriteTarget::Splice { path, start, end }) && tilde_expansion_of(entries[0]@, path@)
            && start@ == entries[1]@ && end is None
    } else if entries.len() == 1 {
        res matches Ok(WriteTarget::Overwrite { path }) && tilde_expansion_of(entries[0]@, path@)
    } else {
        res matches Err(ApplyError::InvalidWriteToFile)
    }
}

/// Reads an item's `write_to_file` list.
pub fn write_target(entries: &Vec<String>) -> (res: Result<WriteTarget, ApplyError>)
    ensures
        write_target_for(entries@, res),
{
    let n = entries.len();
    if n == 3 {
        Ok(WriteTarget::Splice {
            path: expand_tilde(entries[0].as_str()),
            start: entries[1].clone(),
            end: Some(entries[2].clone()),
        })
    } else if n == 2 {
        Ok(WriteTarget::Splice {
            path: expand_tilde(entries[0].as_str()),
            start: entries[1].clone(),
            end: None,
        })
    } else if n == 1 {
        Ok(WriteTarget::Overwrite { path: expand_tilde(entries[0].as_str()) })
    } else {
        Err(ApplyError::InvalidWriteToFile)
    }
}

/// The pattern of a marked section: from `start` up to the nearest `end`,
/// or to the end of the text when there is no end marker (`.` also matching
/// line breaks).
pub open spec fn section_pattern(start: Seq<char>, end: Option<Seq<char>>) -> Seq<char> {
    match end {
        Some(e) => lazy_section_pattern(start, e),
        None => open_section_pattern(start),
    }
}

/// The spliced text: each marked section replaced, the markers kept around
/// the insertion.
pub open spec fn spliced(insertion: Seq<char>, source: Seq<char>, start: Seq<char>, end: Option<Seq<char>>) -> Seq<char> {
    match end {
        Some(e) => splice_sections(source, start, e, section_replacement(insertion, start, end)),
        None => splice_to_end(source, start, section_replacement(insertion, start, end)),
    }
}

/// `s` escaped for a regular expression: each meta character preceded by a
/// backslash, as `regex::escape` writes it.
pub fn escape_for_regex(s: &str) -> (res: String)
    ensures
        res@ == regex_escaped(s@),
{
    let v = crate::text::chars_of(s);
    let mut out = String::new();
    let n = v.len();
    let mut i: usize = 0;
    while i < n
        invariant
            n == v.len(),
            v@ == s@,
            i <= n,
            out@ == regex_escaped(v@.take(i as int)),
        decreases n - i,
    {
        let c = v[i];
        assert(v@.take(i + 1).drop_last() =~= v@.take(i as int));
        assert(v@.take(i + 1).last() == c);
        if c == '\\' || c == '.' || c == '+' || c == '*' || c == '?' || c == '(' || c == ')' || c == '|'
            || c == '[' || c == ']' || c == '{' || c == '}' || c == '^' || c == '$' || c == '#' || c == '&'
            || c == '-' || c == '~' {
            assert(is_regex_meta(c));
            crate::text::push_char(&mut out, '\\');
            crate::text::push_char(&mut out, c);
            assert(out@ =~= regex_escaped(v@.take(i as int)) + seq!['\\', c]);
        } else {
            assert(!is_regex_meta(c));
            crate::text::push_char(&mut out, c);
        }
        i = i + 1;
    }
    assert(v@.take(n as int) =~= v@);
    out
}

/// What a marked section is replaced with, literally: the markers around
/// the new text.
pub open spec fn section_replacement(insertion: Seq<char>, start: Seq<char>, end: Option<Seq<char>>) -> Seq<char> {
    match end {
        Some(e) => start + insertion + e,
        None => start + insertion,
    }
}

/// A text in which the start marker does not occur is left as it is.
pub proof fn law_splice_without_markers_keeps_text(
    insertion: Seq<char>,
    source: Seq<char>,
    start: Seq<char>,
    end: Option<Seq<char>>,
)
    requires
        first_occurrence_from(source, start, 0) is None,
    ensures
        spliced(insertion, source, start, end) == source,
{
}

/// The text before the first marked section is kept, and the section is
/// replaced by the start marker, the insertion verbatim and the end marker.
pub proof fn law_splice_keeps_markers_around_insertion(
    insertion: Seq<char>,
    source: Seq<char>,
    start: Seq<char>,
    end: Option<Seq<char>>,
    i: int,
)
    requires
        start.len() > 0,
        first_occurrence_from(source, start, 0) == Some(i),
        end matches Some(e) ==> first_occurrence_from(source, e, i + start.len()) is Some,
    ensures
        spliced(insertion, source, start, end).take(i) == source.take(i),
        spliced(insertion, source, start, end).subrange(i, i + start.len() + insertion.len())
            == start + insertion,
        end matches Some(e) ==> spliced(insertion, source, start, end).subrange(
            i + start.len() + insertion.len(),
            i + start.len() + insertion.len() + e.len(),
        ) == e,
{
    lemma_first_occurrence_from(source, start, 0);
    let t = spliced(insertion, source, start, end);
    let r = section_replacement(insertion, start, end);
    match end {
        Some(e) => {
            let j = first_occurrence_from(source, e, i + start.len())->0;
            lemma_first_occurrence_from(source, e, i + start.len());
            let rest = splice_sections(source.skip(j + e.len()), start, e, r);
            assert(t == source.take(i) + r + rest);
            assert(t.take(i) =~= source.take(i));
            assert(t.subrange(i, i + start.len() + insertion.len()) =~= start + insertion);
            assert(t.subrange(i + start.len() + insertion.len(), i + start.len() + insertion.len() + e.len()) =~= e);
        },
        None => {
            assert(t == source.take(i) + r);
            assert(t.take(i) =~= source.take(i));
            assert(t.subrange(i, i + start.len() + insertion.len()) =~= start + insertion);
        },
    }
}

/// Replaces every section of `source_content` marked by `start_marker` and
/// `end_marker` (or running from `start_marker` to the end, without an end
/// marker) with the markers around `insertion_content`, inserted verbatim
/// (a `$` in the markers or the insertion stays as written). Without a
/// start marker there is nothing to splice.
pub fn generate_file_contents(
    insertion_content: &str,
    source_content: &str,
    start_marker: Option<&str>,
    end_marker: Option<&str>,
) -> (res: Result<String, ApplyError>)
    ensures
        match start_marker {
            None => res matches Err(ApplyError::MissingStartMarker),
            Some(s) => {
                let end = match end_marker {
                    Some(e) => Some(e@),
                    None => None,
                };
                &&& match regex_replaced_literally(section_pattern(s@, end), source_content@, section_replacement(insertion_content@, s@, end)) {
                    Some(r) => res matches Ok(o) && o@ == r,
                    None => res matches Err(ApplyError::InvalidMarkerPattern),
                }
                &&& (s@.len() > 0 && res is Ok ==> res->Ok_0@ == spliced(insertion_content@, source_content@, s@, end))
            },
        },
{
    let start = match start_marker {
        Some(s) => s,
        None => {
            return Err(ApplyError::MissingStartMarker);
        },
    };
    proof {
        reveal_strlit("(?s)");
        reveal_strlit(".*?");
        reveal_strlit(".*$");
    }
    let re_start = escape_for_regex(start);
    let (pattern, replacement) = match end_marker {
        Some(e) => {
            let re_end = escape_for_regex(e);
            let mut p = cat3("(?s)", re_start.as_str(), ".*?");
            p.append(re_end.as_str());
            let mut r = cat(start, insertion_content);
            r.append(e);
            (p, r)
        },
        None => (cat3("(?s)", re_start.as_str(), ".*$"), cat(start, insertion_content)),
    };
    match regex_replace_all_literally(pattern.as_str(), source_content, replacement.as_str()) {
        Some(r) => Ok(r),
        None => Err(ApplyError::InvalidMarkerPattern),
    }
}

// ---------------------------------------------------------------------------
// Per-item outcome.
// ---------------------------------------------------------------------------

/// What applying a scheme to one item produces once its theme file is found.
pub struct ItemOutput {
    /// The name the theme file is copied under in the artifacts directory.
    pub file_name: String,
    /// The item's hook, if it has one.
    pub hook: Option<Hook>,
    /// Where `write_to_file` sends the theme text, if it is set.
    pub write: Option<WriteTarget>,
}

/// What applying a scheme to `item` produces, its theme file being `found`.
pub fn plan_item_output(item: &ConfigItem, found: &str, active_operation: Option<&str>) -> (res: Result<ItemOutput, ApplyError>)
    ensures
        match item.write_to_file {
            Some(v) if v.len() == 0 || v.len() > 3 => res matches Err(ApplyError::InvalidWriteToFile),
            _ => res matches Ok(o) && o.file_name@ == theme_copy_name(*item, found@)
                && match item.hook {
                    None => o.hook is None,
                    Some(t) => o.hook matches Some(h) && h.name@ == item.name@ && h.command_template@ == t@
                        && h.operation@ == hook_operation(match active_operation {
                            Some(op) => Some(op@),
                            None => None,
                        }) && h.relative_file_path@ == o.file_name@,
                }
                && match item.write_to_file {
                    None => o.write is None,
                    Some(v) => o.write matches Some(w) && write_target_for(v@, Ok(w)),
                },
        },
{
    let file_name = theme_copy_file_name(item, found);
    let hook = Hook::for_item(item, active_operation, file_name.as_str());
    let write = match &item.write_to_file {
        None => None,
        Some(v) => Some(write_target(v)?),
    };
    Ok(ItemOutput { file_name, hook, write })
}

// ---------------------------------------------------------------------------
// Tidying the data directory.
// ---------------------------------------------------------------------------

/// What a symbolic link points at.
#[derive(Clone, Copy, Debug, PartialEq, Eq, Structural)]
pub enum LinkTarget {
    /// Something that exists.
    Present,
    /// Nothing: the link dangles.
    Missing,
    /// Something that could not be examined.
    Unreadable,
}

/// The kind of a directory entry, links not followed.
#[derive(Clone, Copy, Debug, PartialEq, Eq, Structural)]
pub enum EntryKind {
    Dir,
    File,
    Symlink(LinkTarget),
}

/// Whether an entry of the data directory is removed once the applied
/// files are linked into it: the lock file and directories stay, dangling
/// links and plain files go.
pub fn is_stale_entry(name: &str, kind: EntryKind) -> (res: bool)
    ensures
        res == (name@ != LOCK_FILE@ && match kind {
            EntryKind::Dir => false,
            EntryKind::File => true,
            EntryKind::Symlink(t) => t == LinkTarget::Missing,
        }),
{
    if str_eq(name, LOCK_FILE) {
        return false;
    }
    match kind {
        EntryKind::Dir => false,
        EntryKind::File => true,
        EntryKind::Symlink(t) => t == LinkTarget::Missing,
    }
}

} // verus!
