//! Repository backends: how tinty fetches and updates template and scheme
//! repositories. The operations are carried out by the `git` binary, step by
//! step as `git_shell::GitJob` decides.
pub mod git_shell;
pub mod gix;

use crate::repo::git_shell::{
    clone_cmd, command_error, done_err, remote_add_cmd, runs, safe_command, CommandLine, GitAction, GitError,
    GitErrorView, GitJob, GitStage, OutputMode,
};
use crate::text::{str_eq, str_trim, trim};
use vstd::prelude::*;

verus! {

/// Outcome of an update that was allowed to run against a dirty working
/// tree.
pub enum UpdateStatus {
    /// The repository was brought to the configured revision.
    Updated,
    /// The update was refused because it would have overwritten local work;
    /// `stderr` is git's explanation.
    ConflictPreserved { stderr: String },
}

/// The backends that can carry out repository operations.
#[derive(Clone, Copy, Debug, PartialEq, Eq, Structural)]
pub enum RepositoryBackend {
    /// The user's `git` binary (the default).
    GitShell,
    /// The gitoxide library.
    Gix,
}

/// The values of `TINTY_USE_GIX` that select the gix backend.
pub open spec fn is_truthy(v: Seq<char>) -> bool {
    v == "1"@ || v == "true"@ || v == "TRUE"@ || v == "yes"@
}

/// Whether the value of `TINTY_USE_GIX` (if set) selects the gix backend.
pub fn use_gix(value: Option<&str>) -> (res: bool)
    ensures
        res == match value {
            Some(v) => is_truthy(v@),
            None => false,
        },
{
    match value {
        Some(v) => str_eq(v, "1") || str_eq(v, "true") || str_eq(v, "TRUE") || str_eq(v, "yes"),
        None => false,
    }
}

/// The backend selected by the value of `TINTY_USE_GIX`: gix when it is
/// truthy, the `git` binary otherwise.
pub fn backend(use_gix_value: Option<&str>) -> (res: RepositoryBackend)
    ensures
        res == if match use_gix_value {
            Some(v) => is_truthy(v@),
            None => false,
        } {
            RepositoryBackend::Gix
        } else {
            RepositoryBackend::GitShell
        },
{
    if use_gix(use_gix_value) {
        RepositoryBackend::Gix
    } else {
        RepositoryBackend::GitShell
    }
}

/// Starts installing `url` at `target` (`target_exists` telling whether
/// that path exists), checked out at `revision` when given.
pub fn install(url: &str, target: &str, revision: Option<String>, target_exists: bool) -> (res: (GitJob, GitAction))
    ensures
        git_shell::wf(res.0),
        res.0.kind == git_shell::JobKind::Clone,
        res.0.repo@ == target@,
        res.0.url@ == url@,
        res.0.remote@ == "origin"@,
        crate::config::opt_view(res.0.revision) == crate::config::opt_view(revision),
        res.0.pending is None,
        target_exists ==> res.0.stage == GitStage::Finished && done_err(res.1, GitErrorView::TargetExists(url@, target@)),
        !target_exists ==> match command_error(clone_cmd(url@, target@)) {
            Some(e) => res.0.stage == GitStage::Finished && done_err(res.1, e),
            None => res.0.stage == GitStage::Cloning && runs(res.1, clone_cmd(url@, target@), None, OutputMode::Discard),
        },
{
    git_shell::GitShellBackend.install(url, target, revision, target_exists)
}

/// Starts bringing the repository at `target` (`is_dir` telling whether it
/// is a directory) to `url` at `revision` (`main` when unset), through the
/// temporary remote `tmp_remote`; with `allow_dirty` (the working tree may
/// hold uncommitted changes) a checkout git refuses over them ends the job
/// with `GitAction::Preserved` and git's explanation.
pub fn update(target: &str, url: &str, revision: Option<String>, is_dir: bool, tmp_remote: String, allow_dirty: bool) -> (res: (GitJob, GitAction))
    ensures
        res.0.allow_dirty == allow_dirty,
        git_shell::wf(res.0),
        res.0.kind == git_shell::JobKind::Update,
        res.0.repo@ == target@,
        res.0.url@ == url@,
        res.0.remote@ == tmp_remote@,
        res.0.revision matches Some(r) && r@ == match revision {
            Some(x) => x@,
            None => crate::constants::DEFAULT_REVISION@,
        },
        res.0.pending is None,
        !is_dir ==> res.0.stage == GitStage::Finished && done_err(res.1, GitErrorView::NotADirectory(target@)),
        is_dir ==> match command_error(remote_add_cmd(tmp_remote@, url@)) {
            Some(e) => res.0.stage == GitStage::Finished && done_err(res.1, e),
            None => res.0.stage == GitStage::AddingRemote && runs(
                res.1,
                remote_add_cmd(tmp_remote@, url@),
                Some(target@),
                OutputMode::Discard,
            ),
        },
{
    git_shell::GitShellBackend.update(target, url, revision, is_dir, tmp_remote, allow_dirty)
}

/// What an update reports once its job is done, from how the job ended:
/// `Ok(None)` when it brought the repository to its revision, `Ok(Some(e))`
/// when git refused the checkout over local changes (`e` being git's
/// explanation, the job having ended with `GitAction::Preserved(e)`), or the
/// job's error.
pub fn update_status(outcome: Result<Option<String>, GitError>) -> (res: Result<UpdateStatus, GitError>)
    ensures
        outcome matches Ok(None) ==> res matches Ok(UpdateStatus::Updated),
        outcome matches Ok(Some(e)) ==> (res matches Ok(UpdateStatus::ConflictPreserved { stderr }) && stderr@ == e@),
        outcome matches Err(e) ==> (res matches Err(x) && x@ == e@),
{
    match outcome {
        Ok(None) => Ok(UpdateStatus::Updated),
        Ok(Some(e)) => Ok(UpdateStatus::ConflictPreserved { stderr: e }),
        Err(e) => Err(e),
    }
}

/// Whether a working tree is clean, from the output of
/// `git status --porcelain` in it.
pub fn is_clean(status_output: &Vec<u8>) -> (res: bool)
    ensures
        res == (status_output.len() == 0),
{
    git_shell::GitShellBackend.is_clean(status_output)
}

/// The command whose output names the URL of a repository's `origin`
/// remote.
pub fn origin_url_command() -> (res: Result<CommandLine, GitError>)
    ensures
        match crate::outside::shell_words_of("git remote get-url origin"@) {
            None => res is Err,
            Some(w) => if w.len() == 0 {
                res is Err
            } else {
                res matches Ok(c) && c.program@ == w[0] && crate::text::views(c.args@) == w.skip(1)
            },
        },
{
    safe_command("git remote get-url origin")
}

/// The URL of a repository's `origin` remote, from the output lines of
/// `git remote get-url origin` (`None` when it failed, as it does outside a
/// repository or without such a remote): its first line, trimmed, unless
/// that is empty.
pub fn origin_url(output: Option<Vec<String>>) -> (res: Option<String>)
    ensures
        match output {
            None => res is None,
            Some(lines) => if lines.len() > 0 && trim(lines@[0]@).len() > 0 {
                res matches Some(u) && u@ == trim(lines@[0]@)
            } else {
                res is None
            },
        },
{
    match output {
        None => None,
        Some(lines) => {
            if lines.len() == 0 {
                return None;
            }
            let first = str_trim(lines[0].as_str());
            if first.as_str().is_empty() {
                None
            } else {
                Some(first)
            }
        },
    }
}

} // verus!
