//! Tinty's on-disk data-directory layout. Paths are held as strings and joined
//! as `Path::join` does on Unix.
use crate::constants::REPO_DIR;
use vstd::prelude::*;

verus! {

/// `seg` adjoined to `base`: an absolute `seg` replaces `base`; otherwise a
/// separator is inserted when `base` is non-empty and lacks a trailing one.
pub open spec fn path_join(base: Seq<char>, seg: Seq<char>) -> Seq<char> {
    if seg.len() > 0 && seg[0] == '/' {
        seg
    } else if base.len() == 0 || base.last() == '/' {
        base + seg
    } else {
        base + seq!['/'] + seg
    }
}

/// `seg` adjoined to `base`.
pub fn join_path(base: &str, seg: &str) -> (res: String)
    ensures
        res@ == path_join(base@, seg@),
{
    let s = crate::text::chars_of(seg);
    let b = crate::text::chars_of(base);
    if s.len() > 0 && s[0] == '/' {
        return String::from_str(seg);
    }
    if b.len() == 0 || b[b.len() - 1] == '/' {
        crate::text::cat(base, seg)
    } else {
        proof {
            reveal_strlit("/");
        }
        crate::text::cat3(base, "/", seg)
    }
}

/// The directory holding every installed template repository: `<data_dir>/repos`.
pub fn repos_dir(data_path: &str) -> (res: String)
    ensures
        res@ == path_join(data_path@, REPO_DIR@),
{
    join_path(data_path, REPO_DIR)
}

/// The local path of an installed `[[items]]` template repository, by item
/// name: `<data_dir>/repos/<name>`.
pub fn item_repo_path(data_path: &str, item_name: &str) -> (res: String)
    ensures
        res@ == path_join(path_join(data_path@, REPO_DIR@), item_name@),
{
    let dir = repos_dir(data_path);
    join_path(&dir, item_name)
}

// ---------------------------------------------------------------------------
// File names.
// ---------------------------------------------------------------------------

/// The index of the last '.' in `s`, if any.
pub open spec fn last_dot(s: Seq<char>) -> Option<int>
    decreases s.len(),
{
    if s.len() == 0 {
        None
    } else if s.last() == '.' {
        Some(s.len() - 1)
    } else {
        last_dot(s.drop_last())
    }
}

/// A file name's stem, as `Path::file_stem` gives it: the name before its
/// last '.', unless there is none or it begins the name.
pub open spec fn file_stem(name: Seq<char>) -> Seq<char> {
    match last_dot(name) {
        Some(p) => if p > 0 {
            name.subrange(0, p)
        } else {
            name
        },
        None => name,
    }
}

/// A file name's extension, as `Path::extension` gives it: what follows its
/// last '.', unless there is none or it begins the name.
pub open spec fn file_extension(name: Seq<char>) -> Option<Seq<char>> {
    match last_dot(name) {
        Some(p) => if p > 0 {
            Some(name.subrange(p + 1, name.len() as int))
        } else {
            None
        },
        None => None,
    }
}

/// With no '.' from `k` on, the last '.' of `s` is that of its first `k`
/// characters.
proof fn lemma_last_dot_prefix(s: Seq<char>, k: int)
    requires
        0 <= k <= s.len(),
        forall|j: int| k <= j < s.len() ==> s[j] != '.',
    ensures
        last_dot(s) == last_dot(s.subrange(0, k)),
    decreases s.len(),
{
    if s.len() == k {
        assert(s.subrange(0, k) =~= s);
    } else {
        assert(s.drop_last().subrange(0, k) =~= s.subrange(0, k));
        lemma_last_dot_prefix(s.drop_last(), k);
    }
}

/// `last_dot` finds the last '.': none when the name holds no '.', else a
/// '.' with none after it.
pub proof fn lemma_last_dot(s: Seq<char>)
    ensures
        last_dot(s) is None ==> forall|k: int| 0 <= k < s.len() ==> s[k] != '.',
        last_dot(s) matches Some(p) ==> 0 <= p < s.len() && s[p] == '.' && forall|k: int|
            p < k < s.len() ==> s[k] != '.',
    decreases s.len(),
{
    if s.len() > 0 && s.last() != '.' {
        lemma_last_dot(s.drop_last());
        assert forall|k: int| 0 <= k < s.len() - 1 implies s[k] == s.drop_last()[k] by {}
    }
}

/// Conversely, a '.' with none after it is the last one, and a name without
/// '.' has none.
pub proof fn lemma_last_dot_at(s: Seq<char>, p: int)
    requires
        -1 <= p < s.len(),
        p >= 0 ==> s[p] == '.',
        forall|k: int| p < k < s.len() ==> s[k] != '.',
    ensures
        last_dot(s) == if p >= 0 { Some(p) } else { None::<int> },
    decreases s.len(),
{
    if s.len() > 0 && s.len() - 1 != p {
        assert forall|k: int| p < k < s.len() - 1 implies s.drop_last()[k] != '.' by {
            assert(s.drop_last()[k] == s[k]);
        }
        if p >= 0 {
            assert(s.drop_last()[p] == s[p]);
        }
        lemma_last_dot_at(s.drop_last(), p);
    }
}

/// Splits a file name into its stem and its extension.
pub fn split_file_name(name: &str) -> (res: (String, Option<String>))
    ensures
        res.0@ == file_stem(name@),
        crate::config::opt_view(res.1) == file_extension(name@),
{
    let v = crate::text::chars_of(name);
    let n = v.len();
    let mut i: usize = n;
    while i > 0 && v[i - 1] != '.'
        invariant
            i <= n,
            n == v.len(),
            forall|j: int| i <= j < n ==> v@[j] != '.',
        decreases i,
    {
        i = i - 1;
    }
    proof {
        lemma_last_dot_prefix(v@, i as int);
    }
    if i <= 1 {
        proof {
            if i == 1 {
                assert(v@.subrange(0, 1).last() == '.');
            }
            assert(v@.subrange(0, 0).len() == 0);
        }
        (name.to_string(), None)
    } else {
        proof {
            assert(v@.subrange(0, i as int).last() == '.');
        }
        let stem = crate::text::string_of(&crate::text::slice_chars(&v, 0, i - 1));
        let ext = crate::text::string_of(&crate::text::slice_chars(&v, i, n));
        (stem, Some(ext))
    }
}

} // verus!
