//! Small helpers shared by the operations: home-directory expansion, scheme
//! cycling, theme file naming and hook command lines.
use crate::config::{Config, ConfigError, ConfigErrorView, ConfigItem, ConfigRing, quote, quoted_list};
use crate::text::{cat, cat3, chars_of, join, replace_all, slice_chars, starts_with, str_eq, str_replace, string_of, str_trim, trim, views};
use vstd::prelude::*;

verus! {

/// `p` trimmed, with a leading `~/` replaced by the home directory and a
/// separator; a missing home directory is an error naming the trimmed path.
pub open spec fn expand_home(p: Seq<char>, home: Option<Seq<char>>) -> Result<
    Seq<char>,
    ConfigErrorView,
> {
    let t = trim(p);
    if starts_with(t, seq!['~', '/']) {
        match home {
            Some(h) => Ok(h + seq!['/'] + t.skip(2)),
            None => Err(ConfigErrorView::NoHomeDir(t)),
        }
    } else {
        Ok(t)
    }
}

/// The expansion of a `~/` path given the home directory `home`.
pub fn replace_tilde_with(path_str: &str, home: &Option<String>) -> (res: Result<String, ConfigError>)
    ensures
        match res {
            Ok(p) => expand_home(path_str@, crate::config::opt_view(*home)) == Ok::<
                Seq<char>,
                ConfigErrorView,
            >(p@),
            Err(e) => expand_home(path_str@, crate::config::opt_view(*home)) == Err::<
                Seq<char>,
                ConfigErrorView,
            >(e@),
        },
{
    let trimmed = str_trim(path_str);
    proof {
        reveal_strlit("~/");
        assert("~/"@ =~= seq!['~', '/']);
    }
    if crate::text::str_starts_with(&trimmed, "~/") {
        match home {
            Some(h) => {
                let v = chars_of(&trimmed);
                let rest = slice_chars(&v, 2, v.len());
                let rest_s = string_of(&rest);
                proof {
                    reveal_strlit("/");
                }
                let out = cat3(h, "/", &rest_s);
                assert(rest@ =~= trimmed@.skip(2));
                assert("/"@ =~= seq!['/']);
                assert(out@ =~= h@ + seq!['/'] + trimmed@.skip(2));
                Ok(out)
            },
            None => Err(ConfigError::NoHomeDir(trimmed)),
        }
    } else {
        Ok(trimmed)
    }
}

/// Replaces a leading `~/` in the (trimmed) path with the home directory.
/// The home directory comes from the environment; whatever it is, the result
/// is the expansion for that directory, or the absence of one.
pub fn replace_tilde_slash_with_home(path_str: &str) -> (res: Result<String, ConfigError>)
    ensures
        exists|h: Option<Seq<char>>|
            #![trigger expand_home(path_str@, h)]
            match res {
                Ok(p) => expand_home(path_str@, h) == Ok::<Seq<char>, ConfigErrorView>(p@),
                Err(e) => expand_home(path_str@, h) == Err::<Seq<char>, ConfigErrorView>(e@),
            },
{
    let home = crate::outside::home_dir_display();
    let res = replace_tilde_with(path_str, &home);
    assert(expand_home(path_str@, crate::config::opt_view(home)) == expand_home(
        path_str@,
        crate::config::opt_view(home),
    ));
    res
}


// ---------------------------------------------------------------------------
// Cycling through a ring of schemes.
// ---------------------------------------------------------------------------

/// The index of the first occurrence of `x` in `s`.
pub open spec fn position(s: Seq<Seq<char>>, x: Seq<char>) -> Option<int>
    decreases s.len(),
{
    if s.len() == 0 {
        None
    } else if s[0] == x {
        Some(0)
    } else {
        match position(s.drop_first(), x) {
            Some(i) => Some(i + 1),
            None => None,
        }
    }
}

/// `position` finds the first occurrence.
pub proof fn lemma_position(s: Seq<Seq<char>>, x: Seq<char>)
    ensures
        match position(s, x) {
            Some(i) => 0 <= i < s.len() && s[i] == x && forall|k: int| 0 <= k < i ==> s[k] != x,
            None => forall|k: int| 0 <= k < s.len() ==> s[k] != x,
        },
    decreases s.len(),
{
    if s.len() > 0 {
        lemma_position(s.drop_first(), x);
        if s[0] != x {
            assert forall|k: int| 0 < k < s.len() implies s[k] == s.drop_first()[k - 1] by {}
        }
    }
}

/// The scheme after `current` in the ring `schemes`: the one following its
/// first occurrence, wrapping around at the end; the first scheme when
/// `current` is not in the ring.
pub open spec fn next_in_cycle(current: Seq<char>, schemes: Seq<Seq<char>>) -> Seq<char> {
    match position(schemes, current) {
        Some(i) => schemes[(i + 1) % (schemes.len() as int)],
        None => schemes[0],
    }
}

/// The scheme after `current` in the ring `schemes`.
pub fn next_scheme_in_cycle(current: &String, schemes: &Vec<String>) -> (res: String)
    requires
        schemes.len() > 0,
    ensures
        res@ == next_in_cycle(current@, views(schemes@)),
{
    let n = schemes.len();
    let mut i: usize = 0;
    proof {
        lemma_position(views(schemes@), current@);
    }
    while i < n
        invariant
            n == schemes.len(),
            i <= n,
            forall|k: int| 0 <= k < i ==> schemes@[k]@ != current@,
        decreases n - i,
    {
        if str_eq(&schemes[i], current) {
            proof {
                lemma_position(views(schemes@), current@);
                assert(views(schemes@)[i as int] == current@);
                match position(views(schemes@), current@) {
                    Some(p) => {
                        if p < i {
                            assert(views(schemes@)[p] == schemes@[p]@);
                        }
                        if p > i {
                            assert(views(schemes@)[i as int] != current@);
                        }
                    },
                    None => {},
                }
            }
            let next = (i + 1) % n;
            return schemes[next].clone();
        }
        i = i + 1;
    }
    proof {
        match position(views(schemes@), current@) {
            Some(p) => {
                assert(views(schemes@)[p] == schemes@[p]@);
            },
            None => {},
        }
    }
    schemes[0].clone()
}

/// The scheme reached from `current` after `k` steps around the ring.
pub open spec fn cycle_steps(current: Seq<char>, schemes: Seq<Seq<char>>, k: nat) -> Seq<char>
    decreases k,
{
    if k == 0 {
        current
    } else {
        next_in_cycle(cycle_steps(current, schemes, (k - 1) as nat), schemes)
    }
}

/// The ring lists no scheme twice.
pub open spec fn ring_distinct(schemes: Seq<Seq<char>>) -> bool {
    forall|a: int, b: int| 0 <= a < b < schemes.len() ==> schemes[a] != schemes[b]
}

/// Law: the next scheme is always one of the ring's schemes.
pub proof fn law_next_scheme_is_in_ring(current: Seq<char>, schemes: Seq<Seq<char>>)
    requires
        schemes.len() > 0,
    ensures
        schemes.contains(next_in_cycle(current, schemes)),
{
    lemma_position(schemes, current);
    let n = schemes.len() as int;
    match position(schemes, current) {
        Some(i) => {
            let j = (i + 1) % n;
            assert(0 <= j < n);
        },
        None => {},
    }
}

/// In a ring without repeats, the scheme after the one at index `i` is the
/// one at index `i + 1`, wrapping from the last to the first.
pub proof fn law_next_scheme_follows(schemes: Seq<Seq<char>>, i: int)
    requires
        ring_distinct(schemes),
        0 <= i < schemes.len(),
    ensures
        next_in_cycle(schemes[i], schemes) == schemes[(i + 1) % (schemes.len() as int)],
{
    lemma_position(schemes, schemes[i]);
    match position(schemes, schemes[i]) {
        Some(p) => {
            if p < i {
                assert(schemes[p] != schemes[i]);
            }
            if p > i {
                assert(schemes[i] != schemes[p]);
            }
        },
        None => {},
    }
}

/// Law: in a ring without repeats, stepping `k` times from the scheme at
/// index `i` reaches the scheme at index `(i + k) mod n`.
pub proof fn law_cycle_steps(schemes: Seq<Seq<char>>, i: int, k: nat)
    requires
        ring_distinct(schemes),
        0 <= i < schemes.len(),
    ensures
        cycle_steps(schemes[i], schemes, k) == schemes[(i + k) % (schemes.len() as int)],
    decreases k,
{
    let n = schemes.len() as int;
    if k == 0 {
        vstd::arithmetic::div_mod::lemma_small_mod(i as nat, n as nat);
    } else {
        law_cycle_steps(schemes, i, (k - 1) as nat);
        let r = (i + k - 1) % n;
        assert(0 <= r < n) by {
            vstd::arithmetic::div_mod::lemma_mod_bound(i + k - 1, n);
        }
        law_next_scheme_follows(schemes, r);
        vstd::arithmetic::div_mod::lemma_add_mod_noop(i + k - 1, 1, n);
        vstd::arithmetic::div_mod::lemma_mod_twice(i + k - 1, n);
        if n > 1 {
            vstd::arithmetic::div_mod::lemma_small_mod(1, n as nat);
        } else {
            assert(r == 0);
            assert((r + 1) % n == 0);
            assert((i + k) % n == 0) by {
                vstd::arithmetic::div_mod::lemma_mod_bound(i + k, n);
            }
        }
        assert((r + 1) % n == (i + k) % n);
    }
}

/// Law: in a ring without repeats, cycling once per scheme returns to the
/// scheme one started from.
pub proof fn law_cycle_returns(schemes: Seq<Seq<char>>, i: int)
    requires
        ring_distinct(schemes),
        0 <= i < schemes.len(),
    ensures
        cycle_steps(schemes[i], schemes, schemes.len()) == schemes[i],
{
    let n = schemes.len() as int;
    law_cycle_steps(schemes, i, schemes.len());
    vstd::arithmetic::div_mod::lemma_mod_add_multiples_vanish(i, n);
    vstd::arithmetic::div_mod::lemma_small_mod(i as nat, n as nat);
}


/// The names of the rings, joined with `", "`.
pub fn ring_names(rings: &Vec<ConfigRing>) -> (res: String)
    ensures
        res@ == join(crate::config::ring_names_of(rings@), seq![',', ' ']),
{
    let mut names: Vec<String> = Vec::new();
    let n = rings.len();
    let mut i: usize = 0;
    while i < n
        invariant
            n == rings.len(),
            i <= n,
            names.len() == i,
            forall|k: int| 0 <= k < i ==> #[trigger] names@[k]@ == rings@[k].name@,
        decreases n - i,
    {
        names.push(rings[i].name.clone());
        i = i + 1;
    }
    assert(views(names@) =~= crate::config::ring_names_of(rings@));
    proof {
        reveal_strlit(", ");
        assert(", "@ =~= seq![',', ' ']);
    }
    crate::text::join_strings(&names, ", ")
}

/// The schemes suggested for the replacement ring: the preferred schemes,
/// with the default scheme in front when it is not among them.
pub open spec fn migration_schemes(c: Config) -> Seq<Seq<char>> {
    let preferred = match c.preferred_schemes {
        Some(v) => views(v@),
        None => Seq::empty(),
    };
    match c.default_scheme {
        Some(d) => if preferred.contains(d@) {
            preferred
        } else {
            seq![d@] + preferred
        },
        None => preferred,
    }
}

/// The message that explains how to replace `preferred-schemes` by a ring.
pub open spec fn migration_message_text(c: Config) -> Seq<char> {
    "`preferred-schemes` is no longer supported by `tinty cycle`.\nRemove `preferred-schemes` from your config and add this instead:\n\ndefault-cycle-ring = \"default\"\n\n[[rings]]\nname = \"default\"\nschemes = ["@
        + quoted_list(migration_schemes(c)) + "]"@
}

/// Explains how to replace `preferred-schemes` by a ring.
pub fn preferred_schemes_migration_message(config: &Config) -> (res: String)
    ensures
        res@ == migration_message_text(*config),
{
    let mut list: Vec<String> = Vec::new();
    match &config.preferred_schemes {
        Some(v) => {
            let n = v.len();
            let mut i: usize = 0;
            while i < n
                invariant
                    n == v.len(),
                    i <= n,
                    list.len() == i,
                    forall|k: int| 0 <= k < i ==> #[trigger] list@[k]@ == v@[k]@,
                decreases n - i,
            {
                list.push(v[i].clone());
                i = i + 1;
            }
            assert(views(list@) =~= views(v@));
        },
        None => {
            assert(views(list@) =~= Seq::<Seq<char>>::empty());
        },
    }
    let ghost preferred = views(list@);
    match &config.default_scheme {
        Some(d) => {
            if !crate::config::contains_string(&list, d) {
                list.insert(0, d.clone());
                assert(views(list@) =~= seq![d@] + preferred);
            }
        },
        None => {},
    }
    assert(views(list@) == migration_schemes(*config));
    let schemes = crate::config::quoted_join(&list);
    let text = cat3(
        "`preferred-schemes` is no longer supported by `tinty cycle`.\nRemove `preferred-schemes` from your config and add this instead:\n\ndefault-cycle-ring = \"default\"\n\n[[rings]]\nname = \"default\"\nschemes = [",
        &schemes,
        "]",
    );
    text
}

/// Why `tinty cycle` cannot pick a ring.
pub enum CycleError {
    /// `preferred-schemes` is set; carries the migration message.
    PreferredSchemes(String),
    /// Neither `--ring` nor `default-cycle-ring` names a ring.
    NoRingSelected,
    /// No `[[rings]]` are configured.
    NoRings,
    /// No ring has the name (name, the available ring names joined).
    NoSuchRing(String, String),
    /// The ring with this name has no schemes.
    EmptyRing(String),
}

impl CycleError {
    /// The message this error is reported with.
    pub fn message(&self) -> (res: String)
        ensures
            res@ == match self {
                CycleError::PreferredSchemes(m) => m@,
                CycleError::NoRingSelected => "`tinty cycle` requires either `default-cycle-ring` in config.toml or `--ring <name>`"@,
                CycleError::NoRings => "`tinty cycle` requires at least one configured `[[rings]]`"@,
                CycleError::NoSuchRing(n, a) => if a@.len() == 0 {
                    "No ring named \""@ + n@ + "\" exists"@
                } else {
                    "No ring named \""@ + n@ + "\" exists. Available rings: "@ + a@
                },
                CycleError::EmptyRing(n) => "Ring \""@ + n@
                    + "\" does not contain any schemes and cannot be cycled"@,
            },
    {
        match self {
            CycleError::PreferredSchemes(m) => m.clone(),
            CycleError::NoRingSelected => "`tinty cycle` requires either `default-cycle-ring` in config.toml or `--ring <name>`".to_string(),
            CycleError::NoRings => "`tinty cycle` requires at least one configured `[[rings]]`".to_string(),
            CycleError::NoSuchRing(n, a) => {
                if a.as_str().is_empty() {
                    cat3("No ring named \"", n, "\" exists")
                } else {
                    let mut m = cat3("No ring named \"", n, "\" exists. Available rings: ");
                    m.append(a);
                    m
                }
            },
            CycleError::EmptyRing(n) => cat3(
                "Ring \"",
                n,
                "\" does not contain any schemes and cannot be cycled",
            ),
        }
    }
}

/// The index of the first ring named `name`.
pub open spec fn ring_index(rings: Seq<ConfigRing>, name: Seq<char>) -> Option<int> {
    position(crate::config::ring_names_of(rings), name)
}

/// The schemes of the ring `tinty cycle` goes through: the ring named by
/// `requested_ring`, or else by `default-cycle-ring`.
pub fn cycle_scheme_list(config: &Config, requested_ring: Option<&str>) -> (res: Result<Vec<String>, CycleError>)
    ensures
        config.preferred_schemes is Some ==> (res matches Err(CycleError::PreferredSchemes(m)) && m@
            == migration_message_text(*config)),
        config.preferred_schemes is None ==> {
            let selected: Option<Seq<char>> = match requested_ring {
                Some(r) => Some(r@),
                None => crate::config::opt_view(config.default_cycle_ring),
            };
            match selected {
                None => res matches Err(CycleError::NoRingSelected),
                Some(name) => match config.rings {
                    None => res matches Err(CycleError::NoRings),
                    Some(rings) => match ring_index(rings@, name) {
                        None => (res matches Err(CycleError::NoSuchRing(n, a)) && n@ == name
                            && a@ == join(crate::config::ring_names_of(rings@), seq![',', ' '])),
                        Some(i) => if rings@[i].schemes.len() == 0 {
                            (res matches Err(CycleError::EmptyRing(n)) && n@ == name)
                        } else {
                            (res matches Ok(v) && views(v@) == views(rings@[i].schemes@))
                        },
                    },
                },
            }
        },
{
    if config.preferred_schemes.is_some() {
        return Err(CycleError::PreferredSchemes(preferred_schemes_migration_message(config)));
    }
    let ring_name: String = match requested_ring {
        Some(r) => r.to_string(),
        None => match &config.default_cycle_ring {
            Some(d) => d.clone(),
            None => {
                return Err(CycleError::NoRingSelected);
            },
        },
    };
    let rings = match &config.rings {
        Some(r) => r,
        None => {
            return Err(CycleError::NoRings);
        },
    };
    let n = rings.len();
    let mut i: usize = 0;
    proof {
        lemma_position(crate::config::ring_names_of(rings@), ring_name@);
    }
    while i < n
        invariant
            n == rings.len(),
            i <= n,
            config.preferred_schemes is None,
            config.rings == Some(*rings),
            ring_name@ == match requested_ring {
                Some(r) => r@,
                None => config.default_cycle_ring->0@,
            },
            requested_ring is None ==> config.default_cycle_ring is Some,
            forall|k: int| 0 <= k < i ==> #[trigger] rings@[k].name@ != ring_name@,
        decreases n - i,
    {
        if str_eq(&rings[i].name, &ring_name) {
            proof {
                let names = crate::config::ring_names_of(rings@);
                lemma_position(names, ring_name@);
                assert(names[i as int] == ring_name@);
                match position(names, ring_name@) {
                    Some(p) => {
                        if p < i {
                            assert(names[p] == rings@[p].name@);
                        }
                        if p > i {
                            assert(names[i as int] != ring_name@);
                        }
                    },
                    None => {},
                }
            }
            let ring = &rings[i];
            if ring.schemes.len() == 0 {
                return Err(CycleError::EmptyRing(ring.name.clone()));
            }
            let mut out: Vec<String> = Vec::new();
            let m = ring.schemes.len();
            let mut k: usize = 0;
            while k < m
                invariant
                    m == ring.schemes.len(),
                    k <= m,
                    out.len() == k,
                    forall|q: int| 0 <= q < k ==> #[trigger] out@[q]@ == ring.schemes@[q]@,
                decreases m - k,
            {
                out.push(ring.schemes[k].clone());
                k = k + 1;
            }
            assert(views(out@) =~= views(ring.schemes@));
            return Ok(out);
        }
        i = i + 1;
    }
    proof {
        let names = crate::config::ring_names_of(rings@);
        lemma_position(names, ring_name@);
        match position(names, ring_name@) {
            Some(p) => {
                assert(names[p] == rings@[p].name@);
            },
            None => {},
        }
    }
    Err(CycleError::NoSuchRing(ring_name, ring_names(rings)))
}

// ---------------------------------------------------------------------------
// Theme file names and hook command lines.
// ---------------------------------------------------------------------------

/// `<name>-<themes dir with '/' as '-'>-file`.
pub open spec fn theme_filename_stem(name: Seq<char>, themes_dir: Seq<char>) -> Seq<char> {
    name + seq!['-'] + replace_all(themes_dir, seq!['/'], seq!['-']) + "-file"@
}

/// The base name (without extension) of the file an item's theme is copied
/// to.
pub fn create_theme_filename_without_extension(item: &ConfigItem) -> (res: String)
    ensures
        res@ == theme_filename_stem(item.name@, item.themes_dir@),
{
    proof {
        reveal_strlit("/");
        reveal_strlit("-");
        assert("/"@ =~= seq!['/']);
        assert("-"@ =~= seq!['-']);
    }
    let flat = str_replace(&item.themes_dir, "/", "-");
    cat3(&cat(&item.name, "-"), &flat, "-file")
}

/// The scheme key `<system>-<slug>` of a scheme file.
pub fn scheme_key(system: &str, slug: &str) -> (res: String)
    ensures
        res@ == system@ + seq!['-'] + slug@,
{
    proof {
        reveal_strlit("-");
    }
    cat3(system, "-", slug)
}

/// Why a hook command line could not be formed.
#[derive(Clone, Copy, Debug, PartialEq, Eq, Structural)]
pub enum ShellCommandError {
    /// The shell lacks the `{}` placeholder.
    MissingPlaceholder,
    /// The command line could not be split into words.
    Unsplittable,
}

/// The message a hook command-line error is reported with.
pub open spec fn shell_command_error_message(e: ShellCommandError) -> Seq<char> {
    match e {
        ShellCommandError::MissingPlaceholder => "The configured shell property does not contain the required command placeholder '{}'"@,
        ShellCommandError::Unsplittable => "missing closing quote"@,
    }
}

impl ShellCommandError {
    /// The message this error is reported with.
    pub fn message(&self) -> (res: String)
        ensures
            res@ == shell_command_error_message(*self),
    {
        match self {
            ShellCommandError::MissingPlaceholder => "The configured shell property does not contain the required command placeholder '{}'".to_string(),
            ShellCommandError::Unsplittable => "missing closing quote".to_string(),
        }
    }
}

/// The words of the command line that runs `command` through `shell` (the
/// configured shell, or the default): `{}` in the shell replaced by the
/// command, split as a shell would; or why there are none.
pub open spec fn shell_command_words(shell: Option<Seq<char>>, command: Seq<char>) -> Result<Seq<Seq<char>>, ShellCommandError> {
    let sh = match shell {
        Some(s) => s,
        None => crate::config::DEFAULT_CONFIG_SHELL@,
    };
    if !crate::text::contains(sh, seq!['{', '}']) {
        Err(ShellCommandError::MissingPlaceholder)
    } else {
        match crate::outside::shell_words_of(replace_all(sh, seq!['{', '}'], command)) {
            Some(words) => Ok(words),
            None => Err(ShellCommandError::Unsplittable),
        }
    }
}

/// The words of the command line that runs `command` through `shell` (the
/// configured shell, or the default).
pub fn get_shell_command_from_string(shell: &Option<String>, command: &str) -> (res: Result<Vec<String>, ShellCommandError>)
    ensures
        match shell_command_words(crate::config::opt_view(*shell), command@) {
            Ok(words) => res matches Ok(v) && views(v@) == words,
            Err(e) => res matches Err(x) && x == e,
        },
{
    let sh: String = match shell {
        Some(s) => s.clone(),
        None => crate::config::DEFAULT_CONFIG_SHELL.to_string(),
    };
    proof {
        reveal_strlit("{}");
        assert("{}"@ =~= seq!['{', '}']);
    }
    let full = str_replace(&sh, "{}", command);
    if crate::text::str_contains(&sh, "{}") {
        match crate::outside::shell_split(&full) {
            Some(v) => Ok(v),
            None => Err(ShellCommandError::Unsplittable),
        }
    } else {
        Err(ShellCommandError::MissingPlaceholder)
    }
}

} // verus!
