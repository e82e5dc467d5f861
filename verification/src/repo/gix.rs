//! The gitoxide backend's decisions: which kind of revision a remote offers
//! and whether a revision is shaped like a SHA1.
use crate::repo::git_shell::{sha_shaped, GitError, GitErrorView, RevisionKind};
use vstd::prelude::*;

verus! {

/// The repository backend built on the `gix` (gitoxide) library.
pub struct GixBackend;

/// What a remote offers for `rev`: its tag, else its branch, else (when
/// `rev` is shaped like one) a SHA1 to be verified after fetching.
pub open spec fn probe_outcome(rev: Seq<char>, found_tag: bool, found_branch: bool) -> Result<RevisionKind, GitErrorView> {
    if found_tag {
        Ok(RevisionKind::Tag)
    } else if found_branch {
        Ok(RevisionKind::Branch)
    } else if !sha_shaped(rev) {
        Err(GitErrorView::CannotResolve(rev))
    } else {
        Ok(RevisionKind::Sha)
    }
}

impl GixBackend {
    /// Whether `rev` is shaped like a (possibly abbreviated) SHA1.
    pub fn looks_like_sha(rev: &str) -> (res: bool)
        ensures
            res == sha_shaped(rev@),
    {
        let v = crate::text::chars_of(rev);
        let n = v.len();
        if n == 0 || n > 40 {
            return false;
        }
        let mut i: usize = 0;
        while i < n
            invariant
                n == v.len(),
                v@ == rev@,
                i <= n,
                forall|j: int| 0 <= j < i ==> (('0' <= #[trigger] v@[j] && v@[j] <= '9') || ('a' <= v@[j] && v@[j] <= 'f')),
            decreases n - i,
        {
            let c = v[i];
            if !(('0' <= c && c <= '9') || ('a' <= c && c <= 'f')) {
                return false;
            }
            i = i + 1;
        }
        true
    }

    /// Classifies `rev` from what the remote's refs showed: whether
    /// `refs/tags/<rev>` and whether `refs/heads/<rev>` are among them.
    pub fn probe_revision_kind(rev: &str, found_tag: bool, found_branch: bool) -> (res: Result<RevisionKind, GitError>)
        ensures
            match probe_outcome(rev@, found_tag, found_branch) {
                Ok(k) => res matches Ok(r) && r == k,
                Err(e) => res matches Err(x) && x@ == e,
            },
    {
        if found_tag {
            Ok(RevisionKind::Tag)
        } else if found_branch {
            Ok(RevisionKind::Branch)
        } else if !GixBackend::looks_like_sha(rev) {
            Err(GitError::CannotResolve(rev.to_string()))
        } else {
            Ok(RevisionKind::Sha)
        }
    }

    /// Whether an update must rewrite `origin`'s URL, and restore it should
    /// the update fail: when the configured URL differs from the current one.
    pub fn url_changed(current_url: &str, url: &str) -> (res: bool)
        ensures
            res == (current_url@ != url@),
    {
        !crate::text::str_eq(current_url, url)
    }
}

} // verus!
