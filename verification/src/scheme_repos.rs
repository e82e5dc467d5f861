//! Scheme repositories: the built-in `schemes` repo plus any user-configured
//! `[[schemes.extras]]`, merged as an ordered overlay stack
//! `[built-in, extra1, extra2, …]` in which the last listed repo wins.
use crate::config::Config;
use crate::constants::{REPO_DIR, SCHEMES_REPO_NAME, SCHEME_REPO_DIR};
use crate::paths::{join_path, path_join};
use crate::text::{lex_lt, str_eq, str_lt, views};
use vstd::prelude::*;

verus! {

/// A scheme repository tinty knows about: the built-in `schemes` repo or a
/// configured extra. `path` is the on-disk directory that holds the
/// `<system>/<slug>.yaml` tree.
pub struct SchemeRepoRef {
    /// The repo's name (`"schemes"` for the built-in, otherwise the extra's
    /// configured `name`).
    pub name: String,
    /// The on-disk directory holding this repo's `<system>/` scheme tree.
    pub path: String,
}

/// Directory that holds every scheme repository: `<data>/scheme-repos`.
pub fn scheme_repos_dir(data_path: &str) -> (res: String)
    ensures
        res@ == path_join(data_path@, SCHEME_REPO_DIR@),
{
    join_path(data_path, SCHEME_REPO_DIR)
}

/// On-disk location of the built-in schemes repo: `<data>/scheme-repos/schemes`.
pub fn builtin_schemes_repo_path(data_path: &str) -> (res: String)
    ensures
        res@ == path_join(path_join(data_path@, SCHEME_REPO_DIR@), SCHEMES_REPO_NAME@),
{
    let dir = scheme_repos_dir(data_path);
    join_path(&dir, SCHEMES_REPO_NAME)
}

/// On-disk location of an extra scheme repo: `<data>/scheme-repos/<name>`.
pub fn extra_repo_path(data_path: &str, name: &str) -> (res: String)
    ensures
        res@ == path_join(path_join(data_path@, SCHEME_REPO_DIR@), name@),
{
    let dir = scheme_repos_dir(data_path);
    join_path(&dir, name)
}

/// Pre-relocation location of the built-in schemes repo: `<data>/repos/schemes`.
pub fn legacy_schemes_repo_path(data_path: &str) -> (res: String)
    ensures
        res@ == path_join(path_join(data_path@, REPO_DIR@), SCHEMES_REPO_NAME@),
{
    let dir = join_path(data_path, REPO_DIR);
    join_path(&dir, SCHEMES_REPO_NAME)
}

/// Every scheme repository configured for this invocation, in precedence
/// order: the built-in `schemes` repo first, then the `[[schemes.extras]]` in
/// config order.
pub fn scheme_repo_refs(data_path: &str, config: &Config) -> (res: Vec<SchemeRepoRef>)
    ensures
        res.len() == config.schemes.extras.len() + 1,
        res[0].name@ == SCHEMES_REPO_NAME@,
        res[0].path@ == path_join(path_join(data_path@, SCHEME_REPO_DIR@), SCHEMES_REPO_NAME@),
        forall|i: int|
            0 <= i < config.schemes.extras.len() ==> {
                &&& #[trigger] res[i + 1].name@ == config.schemes.extras[i].name@
                &&& res[i + 1].path@ == path_join(
                    path_join(data_path@, SCHEME_REPO_DIR@),
                    config.schemes.extras[i].name@,
                )
            },
{
    let mut refs: Vec<SchemeRepoRef> = Vec::new();
    refs.push(
        SchemeRepoRef {
            name: SCHEMES_REPO_NAME.to_string(),
            path: builtin_schemes_repo_path(data_path),
        },
    );
    let extras = &config.schemes.extras;
    let n = extras.len();
    let mut i: usize = 0;
    while i < n
        invariant
            n == extras.len(),
            extras == &config.schemes.extras,
            i <= n,
            refs.len() == i + 1,
            refs[0].name@ == SCHEMES_REPO_NAME@,
            refs[0].path@ == path_join(
                path_join(data_path@, SCHEME_REPO_DIR@),
                SCHEMES_REPO_NAME@,
            ),
            forall|k: int|
                0 <= k < i ==> {
                    &&& #[trigger] refs[k + 1].name@ == extras[k].name@
                    &&& refs[k + 1].path@ == path_join(
                        path_join(data_path@, SCHEME_REPO_DIR@),
                        extras[k].name@,
                    )
                },
        decreases n - i,
    {
        let name = extras[i].name.clone();
        let path = extra_repo_path(data_path, &extras[i].name);
        refs.push(SchemeRepoRef { name, path });
        i = i + 1;
    }
    refs
}

// ---------------------------------------------------------------------------
// Merging the scheme collections of several repositories.
// ---------------------------------------------------------------------------

/// What one scheme repository holds, as found on disk.
pub struct RepoSchemes {
    /// The repository's name.
    pub name: String,
    /// Whether the repository's directory exists.
    pub present: bool,
    /// The `<system>-<slug>` keys of its schemes; a key occurs at most once.
    pub keys: Vec<String>,
}

/// A scheme key defined by more than one repo. The occurrence from
/// `kept_repo` is used; the one from `shadowed_repo` is discarded.
pub struct SchemeConflict {
    /// The `<system>-<slug>` key defined in both repos.
    pub key: String,
    /// The repo whose scheme is used (higher precedence).
    pub kept_repo: String,
    /// The repo whose scheme is shadowed (lower precedence).
    pub shadowed_repo: String,
}

impl View for SchemeConflict {
    type V = (Seq<char>, Seq<char>, Seq<char>);

    open spec fn view(&self) -> Self::V {
        (self.key@, self.kept_repo@, self.shadowed_repo@)
    }
}

/// The repository whose copy of a scheme is used.
pub struct SchemeWinner {
    /// The `<system>-<slug>` key.
    pub key: String,
    /// Index of the winning repository in the merged list.
    pub repo: usize,
}

/// The merged scheme collection across all configured repos.
pub struct MergedSchemes {
    /// Each scheme key once, with the repository whose copy wins.
    pub files: Vec<SchemeWinner>,
    /// One record per shadowed copy of a key defined by more than one repo,
    /// naming the repo whose copy is used; ordered by key, then by the
    /// shadowed repo's name.
    pub conflicts: Vec<SchemeConflict>,
}

/// Why no merged collection could be produced.
#[derive(Debug, PartialEq, Eq, Structural)]
pub enum SchemeRepoError {
    /// No scheme repository exists on disk yet.
    NoSchemeRepo,
}

impl SchemeRepoError {
    /// The message this error is reported with.
    pub fn message(&self) -> (res: String)
        ensures
            res@ == "Schemes are missing, run install and then try again: `tinty install`"@,
    {
        "Schemes are missing, run install and then try again: `tinty install`".to_string()
    }
}

/// Repository `i` is on disk and defines `k`.
pub open spec fn holds(repos: Seq<RepoSchemes>, i: int, k: Seq<char>) -> bool {
    repos[i].present && views(repos[i].keys@).contains(k)
}

/// The last repository before index `j` that defines `k`: the owner of `k`
/// once the first `j` repositories are stacked.
pub open spec fn owner_before(repos: Seq<RepoSchemes>, k: Seq<char>, j: int) -> Option<int>
    decreases j,
{
    if j <= 0 {
        None
    } else if holds(repos, j - 1, k) {
        Some(j - 1)
    } else {
        owner_before(repos, k, j - 1)
    }
}

/// The conflicts found while adding the first `m` keys of repository `j` on
/// top of repositories `0..j`.
pub open spec fn repo_conflicts(repos: Seq<RepoSchemes>, j: int, m: int) -> Seq<
    (Seq<char>, Seq<char>, Seq<char>),
>
    decreases m,
{
    if m <= 0 {
        Seq::empty()
    } else {
        let k = repos[j].keys@[m - 1]@;
        let earlier = repo_conflicts(repos, j, m - 1);
        match owner_before(repos, k, j) {
            Some(p) => earlier.push((k, repos[j].name@, repos[p].name@)),
            None => earlier,
        }
    }
}

/// A conflict as it is reported: the kept repository is the one whose copy
/// is finally used, the key's owner once the whole stack is in place (the
/// record is left as found when no repository defines the key).
pub open spec fn reported_conflict(
    repos: Seq<RepoSchemes>,
    c: (Seq<char>, Seq<char>, Seq<char>),
) -> (Seq<char>, Seq<char>, Seq<char>) {
    match owner_before(repos, c.0, repos.len() as int) {
        Some(o) => (c.0, repos[o].name@, c.2),
        None => c,
    }
}

/// The conflicts found while stacking the first `j` repositories, in
/// discovery order, each recording the repository that overrode the copy.
pub open spec fn discovered(repos: Seq<RepoSchemes>, j: int) -> Seq<
    (Seq<char>, Seq<char>, Seq<char>),
>
    decreases j,
{
    if j <= 0 {
        Seq::empty()
    } else if repos[j - 1].present {
        discovered(repos, j - 1) + repo_conflicts(repos, j - 1, repos[j - 1].keys@.len() as int)
    } else {
        discovered(repos, j - 1)
    }
}

/// The order of the conflict notice: by key, then by the shadowed repo.
pub open spec fn conflict_lt(
    a: (Seq<char>, Seq<char>, Seq<char>),
    b: (Seq<char>, Seq<char>, Seq<char>),
) -> bool {
    lex_lt(a.0, b.0) || (a.0 == b.0 && lex_lt(a.2, b.2))
}

/// `x` inserted into `s` after every element that does not sort after it.
pub open spec fn insert_sorted(
    x: (Seq<char>, Seq<char>, Seq<char>),
    s: Seq<(Seq<char>, Seq<char>, Seq<char>)>,
) -> Seq<(Seq<char>, Seq<char>, Seq<char>)>
    decreases s.len(),
{
    if s.len() == 0 {
        seq![x]
    } else if conflict_lt(x, s[0]) {
        seq![x] + s
    } else {
        seq![s[0]] + insert_sorted(x, s.drop_first())
    }
}

/// `s` stably sorted by `conflict_lt`.
pub open spec fn sort_conflicts(s: Seq<(Seq<char>, Seq<char>, Seq<char>)>) -> Seq<
    (Seq<char>, Seq<char>, Seq<char>),
>
    decreases s.len(),
{
    if s.len() == 0 {
        Seq::empty()
    } else {
        insert_sorted(s.last(), sort_conflicts(s.drop_last()))
    }
}

/// Inserting at the first position whose element sorts after `x` is
/// `insert_sorted`.
proof fn lemma_insert_sorted_at(
    x: (Seq<char>, Seq<char>, Seq<char>),
    s: Seq<(Seq<char>, Seq<char>, Seq<char>)>,
    p: int,
)
    requires
        0 <= p <= s.len(),
        forall|i: int| 0 <= i < p ==> !conflict_lt(x, #[trigger] s[i]),
        p < s.len() ==> conflict_lt(x, s[p]),
    ensures
        insert_sorted(x, s) == s.insert(p, x),
    decreases s.len(),
{
    if s.len() == 0 {
        assert(s.insert(p, x) =~= seq![x]);
    } else if p == 0 {
        assert(s.insert(0, x) =~= seq![x] + s);
    } else {
        assert(!conflict_lt(x, s[0]));
        let t = s.drop_first();
        assert forall|i: int| 0 <= i < p - 1 implies !conflict_lt(x, #[trigger] t[i]) by {
            assert(t[i] == s[i + 1]);
        }
        lemma_insert_sorted_at(x, t, p - 1);
        assert(s.insert(p, x) =~= seq![s[0]] + t.insert(p - 1, x));
    }
}

/// Whether conflict `a` sorts before conflict `b`.
fn conflict_lt_exec(a: &SchemeConflict, b: &SchemeConflict) -> (res: bool)
    ensures
        res == conflict_lt(a@, b@),
{
    if str_lt(&a.key, &b.key) {
        true
    } else if str_eq(&a.key, &b.key) {
        str_lt(&a.shadowed_repo, &b.shadowed_repo)
    } else {
        false
    }
}

/// The views of a sequence of conflicts.
pub open spec fn conflict_views(v: Seq<SchemeConflict>) -> Seq<
    (Seq<char>, Seq<char>, Seq<char>),
> {
    v.map_values(|c: SchemeConflict| c@)
}

/// A copy of a conflict record.
fn clone_conflict(c: &SchemeConflict) -> (res: SchemeConflict)
    ensures
        res@ == c@,
{
    SchemeConflict {
        key: c.key.clone(),
        kept_repo: c.kept_repo.clone(),
        shadowed_repo: c.shadowed_repo.clone(),
    }
}

/// `conflicts` stably sorted by key, then by shadowed repo.
fn sort_conflicts_exec(conflicts: &Vec<SchemeConflict>) -> (res: Vec<SchemeConflict>)
    ensures
        conflict_views(res@) == sort_conflicts(conflict_views(conflicts@)),
{
    let mut out: Vec<SchemeConflict> = Vec::new();
    let n = conflicts.len();
    let mut i: usize = 0;
    assert(conflict_views(conflicts@).take(0) =~= Seq::empty());
    assert(conflict_views(out@) =~= Seq::empty());
    while i < n
        invariant
            n == conflicts.len(),
            i <= n,
            conflict_views(out@) == sort_conflicts(conflict_views(conflicts@).take(i as int)),
        decreases n - i,
    {
        let x = clone_conflict(&conflicts[i]);
        let m = out.len();
        let mut p: usize = 0;
        while p < m && !conflict_lt_exec(&x, &out[p])
            invariant
                m == out.len(),
                p <= m,
                forall|k: int| 0 <= k < p ==> !conflict_lt(x@, #[trigger] conflict_views(out@)[k]),
            decreases m - p,
        {
            p = p + 1;
        }
        let ghost before = conflict_views(out@);
        proof {
            lemma_insert_sorted_at(x@, before, p as int);
        }
        out.insert(p, x);
        assert(conflict_views(out@) =~= before.insert(p as int, conflicts@[i as int]@));
        let ghost t = conflict_views(conflicts@).take(i + 1);
        assert(t.drop_last() =~= conflict_views(conflicts@).take(i as int));
        assert(t.last() == conflicts@[i as int]@);
        i = i + 1;
    }
    assert(conflict_views(conflicts@).take(n as int) =~= conflict_views(conflicts@));
    out
}


/// Each repository lists a key at most once.
pub open spec fn keys_distinct(repos: Seq<RepoSchemes>) -> bool {
    forall|j: int, a: int, b: int|
        0 <= j < repos.len() && 0 <= a < b < repos[j].keys@.len() ==> #[trigger] repos[j].keys@[a]@
            != #[trigger] repos[j].keys@[b]@
}

/// The owner of `k` once the first `m` keys of repository `j` have been
/// stacked on repositories `0..j`.
pub open spec fn owner_mid(repos: Seq<RepoSchemes>, j: int, m: int, k: Seq<char>) -> Option<int> {
    if repos[j].present && views(repos[j].keys@).take(m).contains(k) {
        Some(j)
    } else {
        owner_before(repos, k, j)
    }
}

/// `files` records every key once, each with its owner once the first `m`
/// keys of repository `j` are stacked on repositories `0..j`.
pub open spec fn winners_mid(files: Seq<SchemeWinner>, repos: Seq<RepoSchemes>, j: int, m: int) -> bool {
    &&& forall|a: int, b: int|
        0 <= a < b < files.len() ==> #[trigger] files[a].key@ != #[trigger] files[b].key@
    &&& forall|a: int|
        0 <= a < files.len() ==> owner_mid(repos, j, m, #[trigger] files[a].key@) == Some(
            files[a].repo as int,
        )
    &&& forall|k: Seq<char>|
        #[trigger] owner_mid(repos, j, m, k) is Some ==> exists|a: int|
            0 <= a < files.len() && #[trigger] files[a].key@ == k
}

/// `files` records every key of the whole stack once, each with its owner:
/// the last repository that defines it.
pub open spec fn winners_exact(files: Seq<SchemeWinner>, repos: Seq<RepoSchemes>) -> bool {
    &&& forall|a: int, b: int|
        0 <= a < b < files.len() ==> #[trigger] files[a].key@ != #[trigger] files[b].key@
    &&& forall|a: int|
        0 <= a < files.len() ==> owner_before(repos, #[trigger] files[a].key@, repos.len() as int)
            == Some(files[a].repo as int)
    &&& forall|k: Seq<char>|
        #[trigger] owner_before(repos, k, repos.len() as int) is Some ==> exists|a: int|
            0 <= a < files.len() && #[trigger] files[a].key@ == k
}

/// The winner recorded for `key`, if any.
fn find_winner(files: &Vec<SchemeWinner>, key: &String) -> (res: Option<usize>)
    ensures
        match res {
            Some(a) => a < files.len() && files@[a as int].key@ == key@,
            None => forall|a: int| 0 <= a < files.len() ==> #[trigger] files@[a].key@ != key@,
        },
{
    let n = files.len();
    let mut a: usize = 0;
    while a < n
        invariant
            n == files.len(),
            a <= n,
            forall|b: int| 0 <= b < a ==> #[trigger] files@[b].key@ != key@,
        decreases n - a,
    {
        if str_eq(&files[a].key, key) {
            return Some(a);
        }
        a = a + 1;
    }
    None
}

/// Before any key of repository `j` is added, owners are those of `0..j`.
proof fn lemma_owner_mid_zero(repos: Seq<RepoSchemes>, j: int, k: Seq<char>)
    ensures
        owner_mid(repos, j, 0, k) == owner_before(repos, k, j),
{
    assert(views(repos[j].keys@).take(0) =~= Seq::<Seq<char>>::empty());
}

/// Winner records carry over between two stages with the same owners.
proof fn lemma_winners_transfer(
    files: Seq<SchemeWinner>,
    repos: Seq<RepoSchemes>,
    j1: int,
    m1: int,
    j2: int,
    m2: int,
)
    requires
        winners_mid(files, repos, j1, m1),
        forall|k: Seq<char>| owner_mid(repos, j1, m1, k) == owner_mid(repos, j2, m2, k),
    ensures
        winners_mid(files, repos, j2, m2),
{
    assert forall|k: Seq<char>| #[trigger] owner_mid(repos, j2, m2, k) is Some implies exists|a: int|
        0 <= a < files.len() && #[trigger] files[a].key@ == k by {
        assert(owner_mid(repos, j1, m1, k) is Some);
    }
}

/// Winner records of the whole stack.
proof fn lemma_winners_exact(files: Seq<SchemeWinner>, repos: Seq<RepoSchemes>)
    requires
        winners_mid(files, repos, repos.len() as int, 0),
    ensures
        winners_exact(files, repos),
{
    assert forall|k: Seq<char>|
        owner_mid(repos, repos.len() as int, 0, k) == owner_before(repos, k, repos.len() as int) by {
        lemma_owner_mid_zero(repos, repos.len() as int, k);
    }
    assert forall|k: Seq<char>| #[trigger] owner_before(repos, k, repos.len() as int) is Some implies exists|a: int|
        0 <= a < files.len() && #[trigger] files[a].key@ == k by {
        assert(owner_mid(repos, repos.len() as int, 0, k) is Some);
    }
}

/// Adding repository `j` when it is absent changes no owner.
proof fn lemma_owner_step(repos: Seq<RepoSchemes>, j: int, k: Seq<char>)
    requires
        0 <= j < repos.len(),
    ensures
        owner_before(repos, k, j + 1) == owner_mid(repos, j, repos[j].keys@.len() as int, k),
{
    assert(views(repos[j].keys@).take(repos[j].keys@.len() as int) =~= views(repos[j].keys@));
}

/// Collects and merges the schemes of every configured repo that exists on
/// disk, applying last-listed-wins precedence: the repos are an overlay stack
/// with the built-in at the bottom. Fails only when no repository exists.
pub fn collect_merged_schemes(repos: &Vec<RepoSchemes>) -> (res: Result<MergedSchemes, SchemeRepoError>)
    requires
        keys_distinct(repos@),
    ensures
        match res {
            Ok(merged) => {
                &&& exists|j: int| 0 <= j < repos.len() && #[trigger] repos[j].present
                &&& winners_exact(merged.files@, repos@)
                &&& forall|a: int|
                    0 <= a < merged.files.len() ==> #[trigger] merged.files@[a].repo < repos.len()
                &&& conflict_views(merged.conflicts@) == sort_conflicts(
                    discovered(repos@, repos.len() as int),
                ).map_values(|c: (Seq<char>, Seq<char>, Seq<char>)| reported_conflict(repos@, c))
            },
            Err(e) => e == SchemeRepoError::NoSchemeRepo && forall|j: int|
                0 <= j < repos.len() ==> !#[trigger] repos[j].present,
        },
{
    let n = repos.len();
    let mut files: Vec<SchemeWinner> = Vec::new();
    let mut conflicts: Vec<SchemeConflict> = Vec::new();
    let mut any_present = false;
    let mut j: usize = 0;
    assert(conflict_views(conflicts@) =~= discovered(repos@, 0));
    while j < n
        invariant
            n == repos.len(),
            keys_distinct(repos@),
            j <= n,
            any_present <==> exists|i: int| 0 <= i < j && #[trigger] repos[i].present,
            winners_mid(files@, repos@, j as int, 0),
            forall|a: int| 0 <= a < files.len() ==> #[trigger] files@[a].repo < j,
            conflict_views(conflicts@) == discovered(repos@, j as int),
        decreases n - j,
    {
        let repo = &repos[j];
        if !repo.present {
            proof {
                assert forall|k: Seq<char>|
                    owner_mid(repos@, j as int, 0, k) == owner_mid(repos@, j + 1, 0, k) by {
                    lemma_owner_mid_zero(repos@, j as int, k);
                    lemma_owner_mid_zero(repos@, j + 1, k);
                }
                lemma_winners_transfer(files@, repos@, j as int, 0, j + 1, 0);
            }
            j = j + 1;
            continue;
        }
        any_present = true;
        let m = repo.keys.len();
        let mut i: usize = 0;
        proof {
            assert(conflict_views(conflicts@) =~= discovered(repos@, j as int) + repo_conflicts(
                repos@,
                j as int,
                0,
            ));
        }
        while i < m
            invariant
                n == repos.len(),
                keys_distinct(repos@),
                j < n,
                repo == &repos[j as int],
                repo.present,
                m == repo.keys.len(),
                i <= m,
                winners_mid(files@, repos@, j as int, i as int),
                forall|a: int| 0 <= a < files.len() ==> #[trigger] files@[a].repo <= j,
                conflict_views(conflicts@) == discovered(repos@, j as int) + repo_conflicts(
                    repos@,
                    j as int,
                    i as int,
                ),
            decreases m - i,
        {
            let key = &repo.keys[i];
            let ghost kv = key@;
            let ghost old_files = files@;
            let ghost ks = views(repo.keys@);
            assert(ks.take(i + 1) =~= ks.take(i as int).push(kv));
            // The key is new to this repository, so its owner so far is the
            // owner among the earlier repositories.
            assert(!ks.take(i as int).contains(kv)) by {
                if ks.take(i as int).contains(kv) {
                    let b = choose|b: int| 0 <= b < i && ks.take(i as int)[b] == kv;
                    assert(repo.keys@[b]@ == repo.keys@[i as int]@);
                }
            }
            assert(owner_mid(repos@, j as int, i as int, kv) == owner_before(repos@, kv, j as int));
            assert(ks.take(i + 1)[i as int] == kv);
            assert(owner_mid(repos@, j as int, i + 1, kv) == Some(j as int));
            assert forall|x: Seq<char>| x != kv implies #[trigger] owner_mid(
                repos@,
                j as int,
                i + 1,
                x,
            ) == owner_mid(repos@, j as int, i as int, x) by {
                if ks.take(i + 1).contains(x) {
                    let c = choose|c: int| 0 <= c < i + 1 && #[trigger] ks.take(i + 1)[c] == x;
                    assert(ks.take(i as int)[c] == x);
                }
                if ks.take(i as int).contains(x) {
                    let c = choose|c: int| 0 <= c < i && #[trigger] ks.take(i as int)[c] == x;
                    assert(ks.take(i + 1)[c] == x);
                }
            }
            match find_winner(&files, key) {
                Some(a) => {
                    let prev = files[a].repo;
                    assert(owner_before(repos@, kv, j as int) == Some(prev as int));
                    let c = SchemeConflict {
                        key: key.clone(),
                        kept_repo: repo.name.clone(),
                        shadowed_repo: repos[prev].name.clone(),
                    };
                    let ghost before = conflict_views(conflicts@);
                    conflicts.push(c);
                    assert(conflict_views(conflicts@) =~= before.push(
                        (kv, repos[j as int].name@, repos[prev as int].name@),
                    ));
                    files.set(a, SchemeWinner { key: key.clone(), repo: j });
                    proof {
                                                assert forall|b: int| 0 <= b < files.len() implies owner_mid(repos@, j as int, i + 1, #[trigger] files@[b].key@) == Some(files@[b].repo as int) by {
                            if b != a {
                                assert(files@[b] == old_files[b]);
                                assert(old_files[b].key@ != kv);
                            }
                        }
                        assert forall|k: Seq<char>| #[trigger] owner_mid(repos@, j as int, i + 1, k) is Some implies exists|b: int|
                            0 <= b < files.len() && #[trigger] files@[b].key@ == k by {
                            if k == kv {
                                assert(files@[a as int].key@ == k);
                            } else {
                                assert(owner_mid(repos@, j as int, i as int, k) is Some);
                                let b = choose|b: int|
                                    0 <= b < old_files.len() && #[trigger] old_files[b].key@ == k;
                                assert(files@[b].key@ == k);
                            }
                        }
                        assert forall|x: int, y: int|
                            0 <= x < y < files.len() implies #[trigger] files@[x].key@
                            != #[trigger] files@[y].key@ by {
                            assert(old_files[x].key@ != old_files[y].key@);
                        }
                    }
                },
                None => {
                    assert(owner_before(repos@, kv, j as int) is None) by {
                        if owner_before(repos@, kv, j as int) is Some {
                            assert(owner_mid(repos@, j as int, i as int, kv) is Some);
                        }
                    }
                    files.push(SchemeWinner { key: key.clone(), repo: j });
                    proof {
                                                assert forall|b: int| 0 <= b < files.len() implies owner_mid(repos@, j as int, i + 1, #[trigger] files@[b].key@) == Some(files@[b].repo as int) by {
                            if b < old_files.len() {
                                assert(files@[b] == old_files[b]);
                            }
                        }
                        assert forall|k: Seq<char>| #[trigger] owner_mid(repos@, j as int, i + 1, k) is Some implies exists|b: int|
                            0 <= b < files.len() && #[trigger] files@[b].key@ == k by {
                            if k == kv {
                                assert(files@[old_files.len() as int].key@ == k);
                            } else {
                                assert(owner_mid(repos@, j as int, i as int, k) is Some);
                                let b = choose|b: int|
                                    0 <= b < old_files.len() && #[trigger] old_files[b].key@ == k;
                                assert(files@[b].key@ == k);
                            }
                        }
                        assert forall|x: int, y: int|
                            0 <= x < y < files.len() implies #[trigger] files@[x].key@
                            != #[trigger] files@[y].key@ by {
                            if y < old_files.len() {
                                assert(old_files[x].key@ != old_files[y].key@);
                            } else {
                                assert(files@[y].key@ == kv);
                                assert(files@[x] == old_files[x]);
                            }
                        }
                    }
                },
            }
            i = i + 1;
        }
        proof {
            assert forall|k: Seq<char>|
                owner_mid(repos@, j as int, m as int, k) == owner_mid(repos@, j + 1, 0, k) by {
                lemma_owner_step(repos@, j as int, k);
                lemma_owner_mid_zero(repos@, j + 1, k);
            }
            lemma_winners_transfer(files@, repos@, j as int, m as int, j + 1, 0);
        }
        j = j + 1;
    }
    if !any_present {
        return Err(SchemeRepoError::NoSchemeRepo);
    }
    proof {
        lemma_winners_exact(files@, repos@);
    }
    let sorted = sort_conflicts_exec(&conflicts);
    let mut reported: Vec<SchemeConflict> = Vec::new();
    let mut t: usize = 0;
    while t < sorted.len()
        invariant
            n == repos.len(),
            winners_exact(files@, repos@),
            forall|a: int| 0 <= a < files.len() ==> #[trigger] files@[a].repo < n,
            t <= sorted.len(),
            conflict_views(reported@) == conflict_views(sorted@).take(t as int).map_values(
                |c: (Seq<char>, Seq<char>, Seq<char>)| reported_conflict(repos@, c),
            ),
        decreases sorted.len() - t,
    {
        let c = &sorted[t];
        let kept = match find_winner(&files, &c.key) {
            Some(a) => repos[files[a].repo].name.clone(),
            None => {
                proof {
                    if owner_before(repos@, c.key@, repos.len() as int) is Some {
                        let b = choose|b: int| 0 <= b < files.len() && #[trigger] files@[b].key@ == c.key@;
                        assert(files@[b].key@ != c.key@);
                    }
                }
                c.kept_repo.clone()
            },
        };
        let ghost before = conflict_views(reported@);
        reported.push(SchemeConflict { key: c.key.clone(), kept_repo: kept, shadowed_repo: c.shadowed_repo.clone() });
        proof {
            let f = |x: (Seq<char>, Seq<char>, Seq<char>)| reported_conflict(repos@, x);
            assert(conflict_views(sorted@).take(t + 1) =~= conflict_views(sorted@).take(t as int).push(c@));
            assert(conflict_views(reported@) =~= before.push(reported_conflict(repos@, c@)));
            assert(conflict_views(sorted@).take(t + 1).map_values(f) =~= conflict_views(sorted@).take(
                t as int,
            ).map_values(f).push(f(c@)));
        }
        t = t + 1;
    }
    assert(conflict_views(sorted@).take(sorted.len() as int) =~= conflict_views(sorted@));
    Ok(MergedSchemes { files, conflicts: reported })
}


/// Law: the copy of a scheme that is used comes from the last repository in
/// the stack that defines it (extras override the built-in repo, and later
/// extras override earlier ones).
pub proof fn law_last_listed_wins(repos: Seq<RepoSchemes>, j: int, k: Seq<char>)
    requires
        0 <= j < repos.len(),
        holds(repos, j, k),
        forall|i: int| j < i < repos.len() ==> !#[trigger] holds(repos, i, k),
    ensures
        owner_before(repos, k, repos.len() as int) == Some(j),
    decreases repos.len() - j,
{
    lemma_owner_before_skip(repos, j, k, repos.len() as int);
}

proof fn lemma_owner_before_skip(repos: Seq<RepoSchemes>, j: int, k: Seq<char>, t: int)
    requires
        0 <= j < t <= repos.len(),
        holds(repos, j, k),
        forall|i: int| j < i < t ==> !#[trigger] holds(repos, i, k),
    ensures
        owner_before(repos, k, t) == Some(j),
    decreases t - j,
{
    if t - 1 > j {
        assert(!holds(repos, t - 1, k));
        lemma_owner_before_skip(repos, j, k, t - 1);
    }
}

// ---------------------------------------------------------------------------
// The duplicate-scheme notice.
// ---------------------------------------------------------------------------

/// First line of the duplicate-scheme notice.
pub open spec fn conflict_header(count: nat) -> Seq<char> {
    "Note: "@ + crate::text::decimal(count)
        + " duplicate scheme(s) across scheme repos; keeping the higher-precedence copy:"@
}

/// One line of the duplicate-scheme notice.
pub open spec fn conflict_line(c: (Seq<char>, Seq<char>, Seq<char>)) -> Seq<char> {
    "  \""@ + c.0 + "\" from \""@ + c.1 + "\" is used; the copy in \""@ + c.2 + "\" is ignored"@
}

/// Formats a one-line warning for each shadowed scheme, or `None` when there
/// are no conflicts.
pub fn conflict_warning(conflicts: &Vec<SchemeConflict>) -> (res: Option<String>)
    ensures
        conflicts.len() == 0 ==> res is None,
        conflicts.len() > 0 ==> res is Some && res->0@ == crate::text::join(
            seq![conflict_header(conflicts.len() as nat)] + conflict_views(conflicts@).map_values(
                |c: (Seq<char>, Seq<char>, Seq<char>)| conflict_line(c),
            ),
            "\n"@,
        ),
{
    if conflicts.len() == 0 {
        return None;
    }
    let mut lines: Vec<String> = Vec::new();
    let count = crate::text::u64_to_decimal(conflicts.len() as u64);
    let header = crate::text::cat3(
        "Note: ",
        &count,
        " duplicate scheme(s) across scheme repos; keeping the higher-precedence copy:",
    );
    lines.push(header);
    let n = conflicts.len();
    let mut i: usize = 0;
    let ghost target = seq![conflict_header(conflicts.len() as nat)] + conflict_views(
        conflicts@,
    ).map_values(|c: (Seq<char>, Seq<char>, Seq<char>)| conflict_line(c));
    while i < n
        invariant
            n == conflicts.len(),
            i <= n,
            lines.len() == i + 1,
            target == seq![conflict_header(conflicts.len() as nat)] + conflict_views(
                conflicts@,
            ).map_values(|c: (Seq<char>, Seq<char>, Seq<char>)| conflict_line(c)),
            forall|k: int| 0 <= k <= i ==> #[trigger] lines@[k]@ == target[k],
        decreases n - i,
    {
        let c = &conflicts[i];
        let mut line = crate::text::cat3("  \"", &c.key, "\" from \"");
        line.append(&c.kept_repo);
        line.append("\" is used; the copy in \"");
        line.append(&c.shadowed_repo);
        line.append("\" is ignored");
        proof {
            reveal_strlit("  \"");
            reveal_strlit("\" from \"");
            reveal_strlit("\" is used; the copy in \"");
            reveal_strlit("\" is ignored");
        }
        assert(line@ =~= conflict_line(conflicts@[i as int]@));
        assert(target[i + 1] == conflict_line(conflicts@[i as int]@));
        lines.push(line);
        i = i + 1;
    }
    proof {
        reveal_strlit("Note: ");
        reveal_strlit(" duplicate scheme(s) across scheme repos; keeping the higher-precedence copy:");
        assert(views(lines@) =~= target);
    }
    Some(crate::text::join_strings(&lines, "\n"))
}

// ---------------------------------------------------------------------------
// One-time relocation of the built-in schemes repository.
// ---------------------------------------------------------------------------

/// What relocating the built-in schemes repo requires of the file system.
pub struct MigrationPlan {
    /// Directory to create first: `<data>/scheme-repos`.
    pub create_dir: String,
    /// The legacy location, `<data>/repos/schemes`.
    pub from: String,
    /// The new location, `<data>/scheme-repos/schemes`.
    pub to: String,
    /// The notice to print once the move is done.
    pub message: String,
}

/// The notice printed after a relocation.
pub open spec fn migration_message(from: Seq<char>, to: Seq<char>) -> Seq<char> {
    "Moved the schemes repository to its new home:\n  "@ + from + "  ->  "@ + to
        + "\nScheme repositories now live under `scheme-repos/`, separate from template items in `repos/`."@
}

/// One-time relocation of the built-in schemes repo from `<data>/repos/schemes`
/// to `<data>/scheme-repos/schemes`. A move is planned only when something
/// occupies the legacy location and nothing occupies the new one.
pub fn migrate_legacy_schemes_repo(data_path: &str, legacy_present: bool, new_present: bool) -> (res: Option<MigrationPlan>)
    ensures
        (legacy_present && !new_present) <==> res is Some,
        res matches Some(plan) ==> {
            &&& plan.create_dir@ == path_join(data_path@, SCHEME_REPO_DIR@)
            &&& plan.from@ == path_join(path_join(data_path@, REPO_DIR@), SCHEMES_REPO_NAME@)
            &&& plan.to@ == path_join(path_join(data_path@, SCHEME_REPO_DIR@), SCHEMES_REPO_NAME@)
            &&& plan.message@ == migration_message(plan.from@, plan.to@)
        },
{
    if !legacy_present || new_present {
        return None;
    }
    let from = legacy_schemes_repo_path(data_path);
    let to = builtin_schemes_repo_path(data_path);
    let mut message = crate::text::cat3("Moved the schemes repository to its new home:\n  ", &from, "  ->  ");
    message.append(&to);
    message.append("\nScheme repositories now live under `scheme-repos/`, separate from template items in `repos/`.");
    proof {
        reveal_strlit("Moved the schemes repository to its new home:\n  ");
        reveal_strlit("  ->  ");
        reveal_strlit("\nScheme repositories now live under `scheme-repos/`, separate from template items in `repos/`.");
    }
    assert(message@ =~= migration_message(from@, to@));
    Some(MigrationPlan { create_dir: scheme_repos_dir(data_path), from, to, message })
}

} // verus!
