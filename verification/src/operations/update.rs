//! `tinty update`: which repositories are brought up to date, whether a
//! repository with local changes may be, and what is reported. Running the
//! Git jobs and printing is the caller's.
use crate::config::{clone_opt, opt_view, Config, ConfigItem};
use crate::constants::{REPO_DIR, SCHEMES_REPO_NAME};
use crate::outside::{is_url, url_parses};
use crate::paths::{join_path, path_join};
use crate::repo::UpdateStatus;
use crate::text::{cat, cat3, split_char, str_split_char, views};
use vstd::prelude::*;

verus! {

/// A repository to bring up to date.
pub struct UpdateTarget {
    /// Its name, as reported.
    pub name: String,
    /// Its URL.
    pub url: String,
    /// Its local path.
    pub path: String,
    /// The revision to bring it to (`main` when unset).
    pub revision: Option<String>,
    /// Whether it may be updated with uncommitted changes.
    pub allow_dirty: bool,
}

/// `t` is the update of configured item `item`, installed under `data`.
pub open spec fn is_item_target(t: UpdateTarget, item: ConfigItem, data: Seq<char>) -> bool {
    &&& t.name@ == item.name@
    &&& t.url@ == item.path@
    &&& t.path@ == path_join(path_join(data, REPO_DIR@), item.name@)
    &&& opt_view(t.revision) == opt_view(item.revision)
    &&& t.allow_dirty == item.allow_dirty_update
}

/// What `tinty update` works through: every configured item in order, then
/// the built-in schemes repository.
pub struct UpdatePlan {
    pub items: Vec<UpdateTarget>,
    /// Where the schemes repository lives: `<data dir>/repos/schemes`.
    pub schemes_repo_path: String,
    /// Its source: a Git URL, or a local directory.
    pub schemes_source: String,
    pub schemes_revision: Option<String>,
    /// Whether it may be updated with uncommitted changes.
    pub schemes_allow_dirty: bool,
}

/// The configured items, or none.
pub open spec fn configured_items(config: Config) -> Seq<ConfigItem> {
    match config.items {
        Some(v) => v@,
        None => Seq::empty(),
    }
}

/// The update of configured item `item`.
fn item_target(item: &ConfigItem, data_path: &str) -> (res: UpdateTarget)
    ensures
        is_item_target(res, *item, data_path@),
{
    UpdateTarget {
        name: item.name.clone(),
        url: item.path.clone(),
        path: crate::paths::item_repo_path(data_path, item.name.as_str()),
        revision: clone_opt(&item.revision),
        allow_dirty: item.allow_dirty_update,
    }
}

/// What `tinty update` works through for `config`, with the data dir at
/// `data_path`.
pub fn update(config: &Config, data_path: &str) -> (res: UpdatePlan)
    ensures
        res.items.len() == configured_items(*config).len(),
        forall|i: int| 0 <= i < res.items.len() ==> is_item_target(#[trigger] res.items@[i], configured_items(*config)[i], data_path@),
        res.schemes_repo_path@ == path_join(path_join(data_path@, REPO_DIR@), SCHEMES_REPO_NAME@),
        (res.schemes_source@, opt_view(res.schemes_revision)) == config.schemes_source_spec(),
        res.schemes_allow_dirty == config.schemes.allow_dirty_update,
{
    let mut items: Vec<UpdateTarget> = Vec::new();
    match &config.items {
        Some(v) => {
            let n = v.len();
            let mut i: usize = 0;
            while i < n
                invariant
                    n == v.len(),
                    config.items == Some(*v),
                    i <= n,
                    items.len() == i,
                    forall|k: int| 0 <= k < i ==> is_item_target(#[trigger] items@[k], v@[k], data_path@),
                decreases n - i,
            {
                items.push(item_target(&v[i], data_path));
                i = i + 1;
            }
        },
        None => {},
    }
    let (schemes_source, schemes_revision) = config.schemes_source();
    UpdatePlan {
        items,
        schemes_repo_path: crate::paths::item_repo_path(data_path, SCHEMES_REPO_NAME),
        schemes_source,
        schemes_revision,
        schemes_allow_dirty: config.schemes.allow_dirty_update,
    }
}

/// Whether an installed repository is updated, and if so whether local
/// changes may stay: a clean one is updated; one with uncommitted changes
/// only when that is allowed.
pub open spec fn update_decision(is_clean: bool, allow_dirty: bool) -> Option<bool> {
    if is_clean {
        Some(false)
    } else if allow_dirty {
        Some(true)
    } else {
        None
    }
}

/// Whether an installed repository is updated (`Some`), and if so whether
/// the update may run against local changes.
pub fn update_item_step(is_clean: bool, allow_dirty: bool) -> (res: Option<bool>)
    ensures
        res == update_decision(is_clean, allow_dirty),
{
    if is_clean {
        Some(false)
    } else if allow_dirty {
        Some(true)
    } else {
        None
    }
}

/// A repository with uncommitted changes is touched only when that is
/// allowed, and an update of a clean repository never runs against local
/// changes.
pub proof fn law_dirty_update_needs_permission(is_clean: bool, allow_dirty: bool)
    ensures
        update_decision(is_clean, allow_dirty) is Some <==> (is_clean || allow_dirty),
        is_clean ==> update_decision(is_clean, allow_dirty) == Some(false),
        update_decision(is_clean, allow_dirty) == Some(true) ==> !is_clean && allow_dirty,
{
}

/// How updating one repository went.
pub enum ItemOutcome {
    /// It is not installed.
    NotInstalled,
    /// It was clean and is now up to date.
    UpToDate,
    /// It had local changes, which were kept, and is now up to date.
    UpToDatePreserved,
    /// It had local changes and was left alone.
    LeftDirty,
    /// Updating it would have overwritten local changes; holds git's
    /// explanation.
    Conflict(String),
}

/// How an update that ran went, from what it reported: an update of a clean
/// repository is simply up to date; one that ran against local changes
/// either kept them or was refused.
pub fn outcome_of_update(with_local_changes: bool, status: UpdateStatus) -> (res: ItemOutcome)
    ensures
        !with_local_changes ==> res is UpToDate,
        with_local_changes ==> match status {
            UpdateStatus::Updated => res is UpToDatePreserved,
            UpdateStatus::ConflictPreserved { stderr } => res matches ItemOutcome::Conflict(s) && s@ == stderr@,
        },
{
    if !with_local_changes {
        return ItemOutcome::UpToDate;
    }
    match status {
        UpdateStatus::Updated => ItemOutcome::UpToDatePreserved,
        UpdateStatus::ConflictPreserved { stderr } => ItemOutcome::Conflict(stderr),
    }
}

/// The lines of `s`, as `str::lines` gives them: split at `\n`, a `\r`
/// before the `\n` dropped, no line after a final `\n`.
pub open spec fn text_lines(s: Seq<char>) -> Seq<Seq<char>> {
    let pieces = split_char(s, '\n');
    let k = pieces.len() - 1;
    let ended = Seq::new(k as nat, |i: int| crate::text::trim_end_char_once(pieces[i], '\r'));
    if pieces[k].len() == 0 {
        ended
    } else {
        ended.push(pieces[k])
    }
}

/// The lines of `s`.
pub fn lines_of_text(s: &str) -> (res: Vec<String>)
    ensures
        views(res@) == text_lines(s@),
{
    let pieces = str_split_char(s, '\n');
    proof {
        crate::text::lemma_split_char_nonempty(s@, '\n');
    }
    let k = pieces.len() - 1;
    let mut out: Vec<String> = Vec::new();
    let mut i: usize = 0;
    while i < k
        invariant
            k == pieces.len() - 1,
            views(pieces@) == split_char(s@, '\n'),
            i <= k,
            views(out@) == Seq::new(i as nat, |j: int| crate::text::trim_end_char_once(views(pieces@)[j], '\r')),
        decreases k - i,
    {
        let ghost before = views(out@);
        let line = crate::text::strip_trailing_char(pieces[i].as_str(), '\r');
        let ghost lv = line@;
        out.push(line);
        assert(views(out@) =~= before.push(lv));
        assert(views(pieces@)[i as int] == pieces@[i as int]@);
        assert(views(out@) =~= Seq::new((i + 1) as nat, |j: int| crate::text::trim_end_char_once(views(pieces@)[j], '\r')));
        i = i + 1;
    }
    assert(views(pieces@)[k as int] == pieces@[k as int]@);
    if !pieces[k].as_str().is_empty() {
        let ghost before = views(out@);
        out.push(pieces[k].clone());
        assert(views(out@) =~= before.push(pieces@[k as int]@));
    }
    out
}

/// What is printed for a repository named `name` once its update is over
/// (nothing when quiet).
pub open spec fn outcome_lines(name: Seq<char>, outcome: ItemOutcome) -> Seq<Seq<char>> {
    match outcome {
        ItemOutcome::NotInstalled => seq![name + " not installed (run `tinty install`)"@],
        ItemOutcome::UpToDate => seq![name + " up to date"@],
        ItemOutcome::UpToDatePreserved => seq![name + " up to date (local changes preserved)"@],
        ItemOutcome::LeftDirty => seq![name + " contains uncommitted changes, please commit or remove and then run `tinty update` again."@],
        ItemOutcome::Conflict(stderr) => seq![name + ": could not update \u{2014} your local changes are preserved:"@] + text_lines(stderr@),
    }
}

/// What is printed for a repository named `name` once its update is over.
pub fn update_report(name: &str, outcome: &ItemOutcome, is_quiet: bool) -> (res: Vec<String>)
    ensures
        is_quiet ==> res.len() == 0,
        !is_quiet ==> views(res@) == outcome_lines(name@, *outcome),
{
    let mut v: Vec<String> = Vec::new();
    if is_quiet {
        return v;
    }
    match outcome {
        ItemOutcome::NotInstalled => v.push(cat(name, " not installed (run `tinty install`)")),
        ItemOutcome::UpToDate => v.push(cat(name, " up to date")),
        ItemOutcome::UpToDatePreserved => v.push(cat(name, " up to date (local changes preserved)")),
        ItemOutcome::LeftDirty => v.push(cat(name, " contains uncommitted changes, please commit or remove and then run `tinty update` again.")),
        ItemOutcome::Conflict(stderr) => {
            v.push(cat(name, ": could not update \u{2014} your local changes are preserved:"));
            let lines = lines_of_text(stderr.as_str());
            let ghost head = views(v@);
            let n = lines.len();
            let mut i: usize = 0;
            while i < n
                invariant
                    n == lines.len(),
                    i <= n,
                    views(v@) == head + views(lines@).take(i as int),
                decreases n - i,
            {
                let ghost before = views(v@);
                let l = lines[i].clone();
                let ghost lv = l@;
                v.push(l);
                assert(views(v@) =~= before.push(lv));
                assert(views(lines@)[i as int] == lines@[i as int]@);
                assert(views(lines@).take(i + 1) =~= views(lines@).take(i as int).push(lines@[i as int]@));
                assert(views(v@) =~= head + views(lines@).take(i + 1));
                i = i + 1;
            }
            assert(views(lines@).take(n as int) =~= views(lines@));
        },
    }
    assert(views(v@) =~= outcome_lines(name@, *outcome));
    v
}

/// The context added to a failed update of `name` from `url` at `revision`
/// (`main` when unset).
pub fn update_error_context(name: &str, url: &str, revision: &Option<String>) -> (res: String)
    ensures
        res@ == "Error updating "@ + name@ + " to "@ + url@ + seq!['@'] + match revision {
            Some(r) => r@,
            None => "main"@,
        },
{
    let mut m = cat3("Error updating ", name, " to ");
    m.append(url);
    m.append("@");
    match revision {
        Some(r) => m.append(r.as_str()),
        None => m.append("main"),
    }
    proof {
        reveal_strlit("@");
    }
    m
}

/// Whether the schemes repository's source is updated like an item (a Git
/// URL) rather than being a local directory, which needs no fetching.
pub fn schemes_source_is_git(source: &str) -> (res: bool)
    ensures
        res == url_parses(source@),
{
    is_url(source)
}

/// What is printed for a local-directory schemes source (nothing when
/// quiet): whether it is in place.
pub fn local_schemes_report(exists: bool, is_quiet: bool) -> (res: Option<String>)
    ensures
        is_quiet ==> res is None,
        !is_quiet && exists ==> (res matches Some(m) && m@ == "schemes up to date (local directory)"@),
        !is_quiet && !exists ==> (res matches Some(m) && m@ == "schemes not installed (run `tinty install`)"@),
{
    if is_quiet {
        None
    } else if exists {
        Some("schemes up to date (local directory)".to_string())
    } else {
        Some("schemes not installed (run `tinty install`)".to_string())
    }
}

} // verus!
