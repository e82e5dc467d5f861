//! The repository backend that drives the user's `git` binary.
//!
//! Cloning, updating and checking out a revision alternate between running
//! `git` and deciding what to run next. The decisions live here as a state
//! machine: a `GitJob` says which command to run (a `GitAction`), is told what
//! came of it (a `GitEvent`), and decides the next step, until it is done.
use crate::config::opt_view;
use crate::outside::{shell_split, shell_words_of};
use crate::text::{cat, cat3, split_char, starts_with, str_eq, str_split_char, str_starts_with, views};
use vstd::prelude::*;

verus! {

/// How a revision name was resolved.
#[derive(Clone, Copy, Debug, PartialEq, Eq, Structural)]
pub enum RevisionKind {
    Tag,
    Branch,
    Sha,
}

/// Why a git operation failed.
pub enum GitError {
    /// Cloning into a directory that already exists (url, target).
    TargetExists(String, String),
    /// Updating a path that is not a directory.
    NotADirectory(String),
    /// The revision is neither a tag, a branch, nor shaped like a SHA1.
    CannotResolve(String),
    /// The SHA1 is on no branch of the remote (revision, remote).
    NotFound(String, String),
    /// A command could not be run; the message says which.
    CommandFailed(String),
    /// A command line could not be split into words.
    Unsplittable(String),
    /// A command line holds no command.
    NoCommand,
}

/// The mathematical value of a `GitError`.
pub enum GitErrorView {
    TargetExists(Seq<char>, Seq<char>),
    NotADirectory(Seq<char>),
    CannotResolve(Seq<char>),
    NotFound(Seq<char>, Seq<char>),
    CommandFailed(Seq<char>),
    Unsplittable(Seq<char>),
    NoCommand,
}

impl View for GitError {
    type V = GitErrorView;

    open spec fn view(&self) -> GitErrorView {
        match self {
            GitError::TargetExists(u, t) => GitErrorView::TargetExists(u@, t@),
            GitError::NotADirectory(p) => GitErrorView::NotADirectory(p@),
            GitError::CannotResolve(r) => GitErrorView::CannotResolve(r@),
            GitError::NotFound(r, m) => GitErrorView::NotFound(r@, m@),
            GitError::CommandFailed(m) => GitErrorView::CommandFailed(m@),
            GitError::Unsplittable(c) => GitErrorView::Unsplittable(c@),
            GitError::NoCommand => GitErrorView::NoCommand,
        }
    }
}

/// The message a git error is reported with.
pub open spec fn git_error_message(e: GitErrorView) -> Seq<char> {
    match e {
        GitErrorView::TargetExists(u, t) => "Error cloning "@ + u + ". Target directory '"@ + t + "' already exists"@,
        GitErrorView::NotADirectory(p) => "Error with updating. "@ + p + " is not a directory"@,
        GitErrorView::CannotResolve(r) => "cannot resolve "@ + r + " into a Git SHA1"@,
        GitErrorView::NotFound(r, m) => "cannot find revision "@ + r + " in remote "@ + m,
        GitErrorView::CommandFailed(m) => m,
        GitErrorView::Unsplittable(_) => "missing closing quote"@,
        GitErrorView::NoCommand => "Unable to extract cli command"@,
    }
}

impl GitError {
    /// The message this error is reported with.
    pub fn message(&self) -> (res: String)
        ensures
            res@ == git_error_message(self@),
    {
        let m = match self {
            GitError::TargetExists(u, t) => {
                let mut m = cat3("Error cloning ", u, ". Target directory '");
                m.append(t);
                m.append("' already exists");
                m
            },
            GitError::NotADirectory(p) => cat3("Error with updating. ", p, " is not a directory"),
            GitError::CannotResolve(r) => cat3("cannot resolve ", r, " into a Git SHA1"),
            GitError::NotFound(r, m) => {
                let mut s = cat3("cannot find revision ", r, " in remote ");
                s.append(m);
                s
            },
            GitError::CommandFailed(m) => m.clone(),
            GitError::Unsplittable(_) => "missing closing quote".to_string(),
            GitError::NoCommand => "Unable to extract cli command".to_string(),
        };
        proof {
            assert(m@ =~= git_error_message(self@));
        }
        m
    }
}

/// A copy of an error.
pub fn clone_error(e: &GitError) -> (res: GitError)
    ensures
        res@ == e@,
{
    match e {
        GitError::TargetExists(u, t) => GitError::TargetExists(u.clone(), t.clone()),
        GitError::NotADirectory(p) => GitError::NotADirectory(p.clone()),
        GitError::CannotResolve(r) => GitError::CannotResolve(r.clone()),
        GitError::NotFound(r, m) => GitError::NotFound(r.clone(), m.clone()),
        GitError::CommandFailed(m) => GitError::CommandFailed(m.clone()),
        GitError::Unsplittable(c) => GitError::Unsplittable(c.clone()),
        GitError::NoCommand => GitError::NoCommand,
    }
}

// ---------------------------------------------------------------------------
// Command lines.
// ---------------------------------------------------------------------------

/// `"x"`.
pub open spec fn q(x: Seq<char>) -> Seq<char> {
    seq!['"'] + x + seq!['"']
}

pub open spec fn clone_cmd(url: Seq<char>, target: Seq<char>) -> Seq<char> {
    "git clone "@ + q(url) + " "@ + q(target)
}

pub open spec fn fetch_revision_cmd(remote: Seq<char>, rev: Seq<char>) -> Seq<char> {
    "git fetch --quiet "@ + q(remote) + " "@ + q(rev)
}

pub open spec fn ls_tags_cmd(remote: Seq<char>, rev: Seq<char>) -> Seq<char> {
    "git ls-remote --quiet --tags "@ + q(remote) + " "@ + q("refs/tags/"@ + rev)
}

pub open spec fn ls_heads_cmd(remote: Seq<char>, rev: Seq<char>) -> Seq<char> {
    "git ls-remote --quiet "@ + q(remote) + " "@ + q("refs/heads/"@ + rev)
}

pub open spec fn fetch_remote_cmd(remote: Seq<char>) -> Seq<char> {
    "git fetch --quiet "@ + q(remote)
}

pub open spec fn contains_cmd(rev: Seq<char>) -> Seq<char> {
    "git branch --format=\"%(refname)\" -a --contains "@ + q(rev)
}

pub open spec fn checkout_branch_cmd(rev: Seq<char>, sha: Seq<char>) -> Seq<char> {
    "git checkout --quiet -B "@ + q(rev) + " "@ + q(sha)
}

pub open spec fn checkout_detached_cmd(sha: Seq<char>) -> Seq<char> {
    "git -c advice.detachedHead=false checkout --quiet "@ + q(sha)
}

pub open spec fn remote_add_cmd(remote: Seq<char>, url: Seq<char>) -> Seq<char> {
    "git remote add "@ + q(remote) + " "@ + q(url)
}

pub open spec fn remote_rm_cmd(remote: Seq<char>) -> Seq<char> {
    "git remote rm "@ + q(remote)
}

pub open spec fn set_origin_cmd(url: Seq<char>) -> Seq<char> {
    "git remote set-url origin "@ + q(url)
}

/// `prefix"a"`.
fn quoted1(prefix: &str, a: &str) -> (res: String)
    ensures
        res@ == prefix@ + q(a@),
{
    proof {
        reveal_strlit("\"");
    }
    let mut s = cat3(prefix, "\"", a);
    s.append("\"");
    assert(s@ =~= prefix@ + q(a@));
    s
}

/// `prefix"a" "b"`.
fn quoted2(prefix: &str, a: &str, b: &str) -> (res: String)
    ensures
        res@ == prefix@ + q(a@) + " "@ + q(b@),
{
    proof {
        reveal_strlit("\" \"");
        reveal_strlit("\"");
        reveal_strlit(" ");
    }
    let mut s = cat3(prefix, "\"", a);
    s.append("\" \"");
    s.append(b);
    s.append("\"");
    assert(s@ =~= prefix@ + q(a@) + " "@ + q(b@));
    s
}

/// The words of a command line: the program and its arguments.
pub struct CommandLine {
    pub program: String,
    pub args: Vec<String>,
}

/// Splits a command line into its program and arguments, as a shell would.
pub fn safe_command(command_str: &str) -> (res: Result<CommandLine, GitError>)
    ensures
        match shell_words_of(command_str@) {
            None => res matches Err(e) && e@ == GitErrorView::Unsplittable(command_str@),
            Some(w) => if w.len() == 0 {
                res matches Err(e) && e@ == GitErrorView::NoCommand
            } else {
                res matches Ok(c) && c.program@ == w[0] && views(c.args@) == w.skip(1)
            },
        },
{
    match shell_split(command_str) {
        None => Err(GitError::Unsplittable(command_str.to_string())),
        Some(mut words) => {
            if words.len() == 0 {
                return Err(GitError::NoCommand);
            }
            let ghost w = views(words@);
            let program = words.remove(0);
            assert(views(words@) =~= w.skip(1));
            Ok(CommandLine { program, args: words })
        },
    }
}

// ---------------------------------------------------------------------------
// Reading `git` output.
// ---------------------------------------------------------------------------

/// The SHA of the first `ls-remote` line `<sha>\t<ref>` whose ref is
/// `expected`.
pub open spec fn ref_sha(lines: Seq<Seq<char>>, expected: Seq<char>) -> Option<Seq<char>>
    decreases lines.len(),
{
    if lines.len() == 0 {
        None
    } else {
        let parts = split_char(lines[0], '\t');
        if parts.len() == 2 && parts[1] == expected {
            Some(parts[0])
        } else {
            ref_sha(lines.drop_first(), expected)
        }
    }
}

/// The SHA of the first `ls-remote` line for `expected`.
pub fn find_ref_sha(lines: &Vec<String>, expected: &str) -> (res: Option<String>)
    ensures
        opt_view(res) == ref_sha(views(lines@), expected@),
{
    let n = lines.len();
    let mut i: usize = 0;
    assert(views(lines@).skip(0) =~= views(lines@));
    while i < n
        invariant
            n == lines.len(),
            i <= n,
            ref_sha(views(lines@), expected@) == ref_sha(views(lines@).skip(i as int), expected@),
        decreases n - i,
    {
        let parts = str_split_char(&lines[i], '\t');
        let ghost rest = views(lines@).skip(i as int);
        assert(rest[0] == lines@[i as int]@);
        assert(rest.drop_first() =~= views(lines@).skip(i + 1));
        if parts.len() == 2 && str_eq(&parts[1], expected) {
            assert(views(parts@)[1] == parts@[1]@);
            assert(views(parts@)[0] == parts@[0]@);
            return Some(parts[0].clone());
        }
        proof {
            if views(parts@).len() == 2 {
                assert(views(parts@)[1] == parts@[1]@);
            }
        }
        i = i + 1;
    }
    assert(views(lines@).skip(n as int) =~= Seq::<Seq<char>>::empty());
    None
}

/// Whether some line starts with `prefix`.
pub fn any_line_starts_with(lines: &Vec<String>, prefix: &str) -> (res: bool)
    ensures
        res == exists|i: int| 0 <= i < lines.len() && starts_with(#[trigger] lines@[i]@, prefix@),
{
    let n = lines.len();
    let mut i: usize = 0;
    while i < n
        invariant
            n == lines.len(),
            i <= n,
            forall|k: int| 0 <= k < i ==> !starts_with(#[trigger] lines@[k]@, prefix@),
        decreases n - i,
    {
        if str_starts_with(&lines[i], prefix) {
            return true;
        }
        i = i + 1;
    }
    false
}

/// Whether `git status --porcelain` printed nothing: the working tree is
/// clean.
pub fn git_is_working_dir_clean(status_output: &Vec<u8>) -> (res: bool)
    ensures
        res == (status_output.len() == 0),
{
    status_output.len() == 0
}

/// The name of a temporary remote: `tinty-remote-<n>`.
pub open spec fn remote_name_for(n: u32) -> Seq<char> {
    "tinty-remote-"@ + crate::text::decimal(n as nat)
}

/// A fresh temporary remote name, `tinty-remote-<random number>`.
pub fn random_remote_name() -> (res: String)
    ensures
        exists|n: u32| res@ == remote_name_for(n),
{
    let n = crate::outside::random_u32();
    let digits = crate::text::u64_to_decimal(n as u64);
    let name = cat("tinty-remote-", &digits);
    assert(name@ == remote_name_for(n));
    name
}


// ---------------------------------------------------------------------------
// The clone/update state machine.
// ---------------------------------------------------------------------------

/// Whether a repository is being cloned or updated.
#[derive(Clone, Copy, Debug, PartialEq, Eq, Structural)]
pub enum JobKind {
    Clone,
    Update,
}

/// The command a job last asked to run, or what it is waiting on.
#[derive(Clone, Copy, Debug, PartialEq, Eq, Structural)]
pub enum GitStage {
    /// `git clone` ran.
    Cloning,
    /// `git remote add <temporary remote>` ran.
    AddingRemote,
    /// `git fetch --quiet <remote> <revision>` ran.
    FetchingRevision,
    /// `git ls-remote --tags` ran (its output is read).
    ListingTags,
    /// `git ls-remote` for branches ran (its output is read).
    ListingBranches,
    /// `git fetch --quiet <remote>` ran.
    FetchingRemote,
    /// `git branch -a --contains` ran (its output is read).
    ListingContaining,
    /// The checkout ran.
    CheckingOut,
    /// After a failure, `git remote rm <temporary remote>` ran.
    RemovingTempRemote,
    /// After a failure, the fresh clone was removed.
    RemovingClone,
    /// `git remote set-url origin` ran.
    SettingOrigin,
    /// `git remote rm <temporary remote>` ran after success.
    RemovingRemote,
    /// After git refused the checkout over local changes, `git remote rm
    /// <temporary remote>` ran.
    RemovingRemoteAfterRefusal,
    /// The job is over.
    Finished,
}

/// What a command's standard output is for.
#[derive(Clone, Copy, Debug, PartialEq, Eq, Structural)]
pub enum OutputMode {
    /// Shown to the user.
    Inherit,
    /// Discarded.
    Discard,
    /// Read back as lines.
    Capture,
    /// Read back as lines, with standard error discarded too.
    CaptureQuiet,
    /// Discarded, with standard error read back: an unsuccessful exit is
    /// reported as `GitEvent::Refused` with that text.
    Checked,
}

/// The next thing to do for a job.
pub enum GitAction {
    /// Run `program args`, in `dir` when given (otherwise in the current
    /// directory).
    Run { program: String, args: Vec<String>, dir: Option<String>, output: OutputMode },
    /// Remove this directory and everything in it.
    RemoveDir(String),
    /// The job is over, with this outcome.
    Done(Result<(), GitError>),
    /// The job is over: git refused to check the revision out because that
    /// would overwrite local changes, and the repository was left at its
    /// revision; this is git's explanation.
    Preserved(String),
}

/// What came of the last action.
pub enum GitEvent {
    /// It completed; for a captured command, these are its output lines.
    Ran(Vec<String>),
    /// It could not be carried out; the message says why.
    Failed(String),
    /// A command run with `OutputMode::Checked` exited unsuccessfully; this
    /// is its standard error.
    Refused(String),
}

/// A clone or an update in progress.
pub struct GitJob {
    pub kind: JobKind,
    /// The repository's local path.
    pub repo: String,
    /// The repository's URL.
    pub url: String,
    /// The remote the revision is taken from: `origin` for a clone, the
    /// temporary remote for an update.
    pub remote: String,
    /// The revision to check out: optional for a clone, always set for an
    /// update (`main` when unconfigured).
    pub revision: Option<String>,
    pub stage: GitStage,
    /// The error to report once cleanup is done.
    pub pending: Option<GitError>,
    /// Whether the update may run over uncommitted changes: its checkout
    /// then reports a refusal instead of going on.
    pub allow_dirty: bool,
    /// Git's explanation of a refused checkout, to report once the
    /// temporary remote is removed.
    pub conflict: Option<String>,
}

/// Stages in which the job is bringing the repository to its revision.
pub open spec fn in_revision_phase(s: GitStage) -> bool {
    s == GitStage::FetchingRevision || s == GitStage::ListingTags || s == GitStage::ListingBranches
        || s == GitStage::FetchingRemote || s == GitStage::ListingContaining || s
        == GitStage::CheckingOut
}

/// `a` runs the words of `cmd` in `dir` with output `out`.
pub open spec fn runs(a: GitAction, cmd: Seq<char>, dir: Option<Seq<char>>, out: OutputMode) -> bool {
    match a {
        GitAction::Run { program, args, dir: d, output } => {
            &&& shell_words_of(cmd) matches Some(w)
            &&& w.len() > 0
            &&& program@ == w[0]
            &&& views(args@) == w.skip(1)
            &&& opt_view(d) == dir
            &&& output == out
        },
        _ => false,
    }
}

/// The error `safe_command` reports for `cmd`, if any.
pub open spec fn command_error(cmd: Seq<char>) -> Option<GitErrorView> {
    match shell_words_of(cmd) {
        None => Some(GitErrorView::Unsplittable(cmd)),
        Some(w) => if w.len() == 0 {
            Some(GitErrorView::NoCommand)
        } else {
            None
        },
    }
}

/// The job's fields other than its stage and pending error are unchanged.
pub open spec fn same_job(a: GitJob, b: GitJob) -> bool {
    a.kind == b.kind && a.repo == b.repo && a.url == b.url && a.remote == b.remote && a.revision
        == b.revision && a.allow_dirty == b.allow_dirty
}

/// How the checkout's outcome is read: an update that may run over local
/// changes checks its exit status, any other job discards it.
pub open spec fn checkout_mode(j: GitJob) -> OutputMode {
    if j.kind == JobKind::Update && j.allow_dirty {
        OutputMode::Checked
    } else {
        OutputMode::Discard
    }
}

/// `a` ends the job, reporting the refused checkout explained by `stderr`.
pub open spec fn done_preserved(a: GitAction, stderr: Seq<char>) -> bool {
    a matches GitAction::Preserved(s) && s@ == stderr
}

/// The repository's directory as a working directory.
pub open spec fn in_repo(j: GitJob) -> Option<Seq<char>> {
    Some(j.repo@)
}

/// The revision to check out.
pub open spec fn rev(j: GitJob) -> Seq<char> {
    j.revision->0@
}

/// `a` ends the job with error `e`.
pub open spec fn done_err(a: GitAction, e: GitErrorView) -> bool {
    a matches GitAction::Done(Err(x)) && x@ == e
}

/// `a` ends the job successfully.
pub open spec fn done_ok(a: GitAction) -> bool {
    a matches GitAction::Done(Ok(()))
}

/// The job holds `e` to report after cleanup.
pub open spec fn pending_is(j: GitJob, e: GitErrorView) -> bool {
    j.pending matches Some(p) && p@ == e
}

/// `a` removes directory `d`.
pub open spec fn removes(a: GitAction, d: Seq<char>) -> bool {
    a matches GitAction::RemoveDir(x) && x@ == d
}

/// The outcome of a failure `e` in stage `old.stage`: while bringing the
/// repository to its revision, an update removes its temporary remote and a
/// clone removes the fresh clone before reporting `e`; otherwise `e` is
/// reported at once.
pub open spec fn fails(old: GitJob, new: GitJob, a: GitAction, e: GitErrorView, stage: GitStage) -> bool {
    &&& same_job(old, new)
    &&& if in_revision_phase(stage) && old.kind == JobKind::Update {
        match command_error(remote_rm_cmd(old.remote@)) {
            Some(ce) => new.stage == GitStage::Finished && done_err(a, ce) && new.pending
                == old.pending,
            None => new.stage == GitStage::RemovingTempRemote && pending_is(new, e) && runs(
                a,
                remote_rm_cmd(old.remote@),
                in_repo(old),
                OutputMode::Discard,
            ),
        }
    } else if in_revision_phase(stage) && old.kind == JobKind::Clone {
        new.stage == GitStage::RemovingClone && pending_is(new, e) && removes(a, old.repo@)
    } else {
        new.stage == GitStage::Finished && done_err(a, e) && new.pending == old.pending
    }
}

/// The outcome of running `cmd` next, then being in stage `next`; a command
/// line that cannot be formed is a failure in stage `stage`.
pub open spec fn proceeds(old: GitJob, new: GitJob, a: GitAction, cmd: Seq<char>, dir: Option<Seq<char>>, out: OutputMode, next: GitStage, stage: GitStage) -> bool {
    match command_error(cmd) {
        Some(e) => fails(old, new, a, e, stage),
        None => same_job(old, new) && new.stage == next && runs(a, cmd, dir, out) && new.pending
            == old.pending,
    }
}

/// The job is over with outcome `r`.
pub open spec fn ends(old: GitJob, new: GitJob, a: GitAction, ok: bool) -> bool {
    same_job(old, new) && new.stage == GitStage::Finished && if ok {
        done_ok(a)
    } else {
        old.pending is Some && done_err(a, old.pending->0@)
    }
}

impl GitJob {
    /// Fails with `e` in stage `stage`, cleaning up first where the stage
    /// calls for it.
    fn fail(&mut self, e: GitError, stage: GitStage) -> (a: GitAction)
        ensures
            fails(*old(self), *final(self), a, e@, stage),
    {
        if (stage == GitStage::FetchingRevision || stage == GitStage::ListingTags
            || stage == GitStage::ListingBranches || stage == GitStage::FetchingRemote
            || stage == GitStage::ListingContaining || stage == GitStage::CheckingOut) {
            match self.kind {
                JobKind::Update => {
                    let cmd = quoted1("git remote rm ", &self.remote);
                    proof {
                        reveal_strlit("git remote rm ");
                    }
                    match safe_command(&cmd) {
                        Ok(c) => {
                            self.stage = GitStage::RemovingTempRemote;
                            self.pending = Some(e);
                            GitAction::Run {
                                program: c.program,
                                args: c.args,
                                dir: Some(self.repo.clone()),
                                output: OutputMode::Discard,
                            }
                        },
                        Err(ce) => {
                            self.stage = GitStage::Finished;
                            GitAction::Done(Err(ce))
                        },
                    }
                },
                JobKind::Clone => {
                    self.stage = GitStage::RemovingClone;
                    self.pending = Some(e);
                    GitAction::RemoveDir(self.repo.clone())
                },
            }
        } else {
            self.stage = GitStage::Finished;
            GitAction::Done(Err(e))
        }
    }

    /// Runs `cmd` next (in the repository unless `here`), then waits in
    /// stage `next`.
    fn run_next(&mut self, cmd: String, in_repository: bool, out: OutputMode, next: GitStage, stage: GitStage) -> (a: GitAction)
        ensures
            proceeds(
                *old(self),
                *final(self),
                a,
                cmd@,
                if in_repository {
                    in_repo(*old(self))
                } else {
                    None
                },
                out,
                next,
                stage,
            ),
    {
        match safe_command(&cmd) {
            Ok(c) => {
                self.stage = next;
                let dir = if in_repository {
                    Some(self.repo.clone())
                } else {
                    None
                };
                GitAction::Run { program: c.program, args: c.args, dir, output: out }
            },
            Err(e) => self.fail(e, stage),
        }
    }

    /// How the checkout's outcome is to be read.
    fn checkout_output(&self) -> (res: OutputMode)
        ensures
            res == checkout_mode(*self),
    {
        if self.kind == JobKind::Update && self.allow_dirty {
            OutputMode::Checked
        } else {
            OutputMode::Discard
        }
    }

    /// The last action could not be carried out (`msg` says why).
    fn failed(&mut self, msg: String) -> (a: GitAction)
        ensures
            failed_step(*old(self), *final(self), a, msg@),
    {
        let stage = self.stage;
        if stage == GitStage::RemovingTempRemote || stage == GitStage::RemovingClone || stage
            == GitStage::RemovingRemoteAfterRefusal {
            self.stage = GitStage::Finished;
            GitAction::Done(Err(GitError::CommandFailed(msg)))
        } else {
            self.fail(GitError::CommandFailed(msg), stage)
        }
    }
}


/// `rev` is shaped like a (possibly abbreviated) SHA1: one to forty
/// characters, each a digit or a lower-case `a` to `f`.
pub open spec fn sha_shaped(rev: Seq<char>) -> bool {
    1 <= rev.len() <= 40 && forall|i: int| 0 <= i < rev.len() ==> (('0' <= #[trigger] rev[i] && rev[i] <= '9') || ('a' <= rev[i] && rev[i] <= 'f'))
}

/// The job's bookkeeping is consistent: an update always has a revision, and
/// so does a job bringing a repository to one; cleanup stages hold the error
/// to report.
pub open spec fn wf(j: GitJob) -> bool {
    &&& (j.kind == JobKind::Update ==> j.revision is Some)
    &&& (in_revision_phase(j.stage) ==> j.revision is Some)
    &&& (j.stage == GitStage::RemovingTempRemote || j.stage == GitStage::RemovingClone) ==> j.pending is Some
    &&& (j.stage == GitStage::AddingRemote || j.stage == GitStage::SettingOrigin || j.stage
        == GitStage::RemovingRemote || j.stage == GitStage::RemovingTempRemote) ==> j.kind
        == JobKind::Update
    &&& (j.stage == GitStage::Cloning || j.stage == GitStage::RemovingClone) ==> j.kind
        == JobKind::Clone
    &&& j.stage == GitStage::RemovingRemoteAfterRefusal ==> j.kind == JobKind::Update && j.conflict is Some
}

/// What a failure `msg` of the last action leads to: after a cleanup step,
/// the job ends with it; otherwise it is a failure of the current stage.
pub open spec fn failed_step(old: GitJob, new: GitJob, a: GitAction, msg: Seq<char>) -> bool {
    if old.stage == GitStage::RemovingTempRemote || old.stage == GitStage::RemovingClone || old.stage
        == GitStage::RemovingRemoteAfterRefusal {
        same_job(old, new) && new.stage == GitStage::Finished && done_err(a, GitErrorView::CommandFailed(msg))
    } else {
        fails(old, new, a, GitErrorView::CommandFailed(msg), old.stage)
    }
}

/// The checkout of an update that may run over local changes was refused
/// with explanation `msg`: the temporary remote is removed (origin is left
/// as it was) and the refusal kept to be reported.
pub open spec fn refused_step(old: GitJob, new: GitJob, a: GitAction, msg: Seq<char>) -> bool {
    &&& same_job(old, new)
    &&& match command_error(remote_rm_cmd(old.remote@)) {
        Some(ce) => new.stage == GitStage::Finished && done_err(a, ce),
        None => new.stage == GitStage::RemovingRemoteAfterRefusal && (new.conflict matches Some(c) && c@
            == msg) && runs(a, remote_rm_cmd(old.remote@), in_repo(old), OutputMode::Discard),
    }
}

/// The first step of a job that has just run the command of stage `old.stage`
/// and got `event`.
pub open spec fn step_spec(old: GitJob, new: GitJob, event: GitEvent, a: GitAction) -> bool {
    match event {
        GitEvent::Failed(msg) => failed_step(old, new, a, msg@),
        GitEvent::Refused(msg) => if old.stage == GitStage::CheckingOut && old.kind == JobKind::Update
            && old.allow_dirty {
            refused_step(old, new, a, msg@)
        } else {
            failed_step(old, new, a, msg@)
        },
        GitEvent::Ran(lines) => {
            let r = rev(old);
            let rm = old.remote@;
            match old.stage {
                GitStage::Cloning => if old.revision is Some {
                    proceeds(old, new, a, fetch_revision_cmd(rm, r), in_repo(old), OutputMode::Inherit, GitStage::FetchingRevision, GitStage::FetchingRevision)
                } else {
                    ends(old, new, a, true)
                },
                GitStage::AddingRemote => proceeds(old, new, a, fetch_revision_cmd(rm, r), in_repo(old), OutputMode::Inherit, GitStage::FetchingRevision, GitStage::FetchingRevision),
                GitStage::FetchingRevision => proceeds(old, new, a, ls_tags_cmd(rm, r), in_repo(old), OutputMode::CaptureQuiet, GitStage::ListingTags, GitStage::ListingTags),
                GitStage::ListingTags => match ref_sha(views(lines@), "refs/tags/"@ + r) {
                    Some(sha) => proceeds(old, new, a, checkout_detached_cmd(sha), in_repo(old), checkout_mode(old), GitStage::CheckingOut, GitStage::CheckingOut),
                    None => proceeds(old, new, a, ls_heads_cmd(rm, r), in_repo(old), OutputMode::Capture, GitStage::ListingBranches, GitStage::ListingBranches),
                },
                GitStage::ListingBranches => match ref_sha(views(lines@), "refs/heads/"@ + r) {
                    Some(sha) => proceeds(old, new, a, checkout_branch_cmd(r, sha), in_repo(old), checkout_mode(old), GitStage::CheckingOut, GitStage::CheckingOut),
                    None => if sha_shaped(r) {
                        proceeds(old, new, a, fetch_remote_cmd(rm), in_repo(old), OutputMode::Discard, GitStage::FetchingRemote, GitStage::FetchingRemote)
                    } else {
                        fails(old, new, a, GitErrorView::CannotResolve(r), old.stage)
                    },
                },
                GitStage::FetchingRemote => proceeds(old, new, a, contains_cmd(r), in_repo(old), OutputMode::Capture, GitStage::ListingContaining, GitStage::ListingContaining),
                GitStage::ListingContaining => if exists|i: int|
                    0 <= i < lines.len() && starts_with(
                        #[trigger] lines@[i]@,
                        "refs/remotes/"@ + rm + "/"@,
                    ) {
                    proceeds(old, new, a, checkout_detached_cmd(r), in_repo(old), checkout_mode(old), GitStage::CheckingOut, GitStage::CheckingOut)
                } else {
                    fails(old, new, a, GitErrorView::NotFound(r, rm), old.stage)
                },
                GitStage::CheckingOut => if old.kind == JobKind::Clone {
                    ends(old, new, a, true)
                } else {
                    proceeds(old, new, a, set_origin_cmd(old.url@), in_repo(old), OutputMode::Discard, GitStage::SettingOrigin, GitStage::SettingOrigin)
                },
                GitStage::SettingOrigin => proceeds(old, new, a, remote_rm_cmd(rm), in_repo(old), OutputMode::Discard, GitStage::RemovingRemote, GitStage::RemovingRemote),
                GitStage::RemovingRemote => ends(old, new, a, true),
                GitStage::RemovingRemoteAfterRefusal => same_job(old, new) && new.stage == GitStage::Finished
                    && done_preserved(a, old.conflict->0@),
                GitStage::RemovingTempRemote => ends(old, new, a, false),
                GitStage::RemovingClone => ends(old, new, a, false),
                GitStage::Finished => false,
            }
        },
    }
}

/// A copy of an optional revision's text.
fn rev_of(r: &Option<String>) -> (res: String)
    requires
        r is Some,
    ensures
        res@ == r->0@,
{
    match r {
        Some(s) => s.clone(),
        None => String::new(),
    }
}

impl GitJob {
    /// Starts cloning `repo_url` into `target_dir`, then checking out
    /// `revision` when one is given. A target that already exists is refused.
    pub fn git_clone(repo_url: &str, target_dir: &str, revision: Option<String>, target_exists: bool) -> (res: (GitJob, GitAction))
        ensures
            wf(res.0),
            res.0.kind == JobKind::Clone,
            res.0.repo@ == target_dir@,
            res.0.url@ == repo_url@,
            res.0.remote@ == "origin"@,
            opt_view(res.0.revision) == opt_view(revision),
            res.0.pending is None,
            !res.0.allow_dirty,
            target_exists ==> res.0.stage == GitStage::Finished && done_err(
                res.1,
                GitErrorView::TargetExists(repo_url@, target_dir@),
            ),
            !target_exists ==> match command_error(clone_cmd(repo_url@, target_dir@)) {
                Some(e) => res.0.stage == GitStage::Finished && done_err(res.1, e),
                None => res.0.stage == GitStage::Cloning && runs(
                    res.1,
                    clone_cmd(repo_url@, target_dir@),
                    None,
                    OutputMode::Discard,
                ),
            },
    {
        let mut job = GitJob {
            kind: JobKind::Clone,
            repo: target_dir.to_string(),
            url: repo_url.to_string(),
            remote: "origin".to_string(),
            revision,
            stage: GitStage::Finished,
            pending: None,
            allow_dirty: false,
            conflict: None,
        };
        if target_exists {
            let e = GitError::TargetExists(repo_url.to_string(), target_dir.to_string());
            return (job, GitAction::Done(Err(e)));
        }
        proof {
            reveal_strlit("git clone ");
        }
        let cmd = quoted2("git clone ", repo_url, target_dir);
        let a = job.run_next(cmd, false, OutputMode::Discard, GitStage::Cloning, GitStage::Cloning);
        (job, a)
    }

    /// Starts bringing the clone at `repo_path` to `revision` (`main` when
    /// none is given) of `repo_url`, through the temporary remote
    /// `tmp_remote`: the remote is added, the revision fetched, resolved and
    /// checked out, then `origin` is pointed at `repo_url` and the temporary
    /// remote removed. A path that is not a directory is refused. With
    /// `allow_dirty`, the checkout may run over uncommitted changes: when git
    /// refuses it because it would overwrite them, only the temporary remote
    /// is removed and the refusal is reported with git's explanation.
    pub fn git_update(repo_path: &str, repo_url: &str, revision: Option<String>, is_dir: bool, tmp_remote: String, allow_dirty: bool) -> (res: (GitJob, GitAction))
        ensures
            res.0.allow_dirty == allow_dirty,
            wf(res.0),
            res.0.kind == JobKind::Update,
            res.0.repo@ == repo_path@,
            res.0.url@ == repo_url@,
            res.0.remote@ == tmp_remote@,
            res.0.revision matches Some(r) && r@ == match revision {
                Some(x) => x@,
                None => crate::constants::DEFAULT_REVISION@,
            },
            res.0.pending is None,
            !is_dir ==> res.0.stage == GitStage::Finished && done_err(
                res.1,
                GitErrorView::NotADirectory(repo_path@),
            ),
            is_dir ==> match command_error(remote_add_cmd(tmp_remote@, repo_url@)) {
                Some(e) => res.0.stage == GitStage::Finished && done_err(res.1, e),
                None => res.0.stage == GitStage::AddingRemote && runs(
                    res.1,
                    remote_add_cmd(tmp_remote@, repo_url@),
                    Some(repo_path@),
                    OutputMode::Discard,
                ),
            },
    {
        let r = match revision {
            Some(x) => x,
            None => crate::constants::DEFAULT_REVISION.to_string(),
        };
        let mut job = GitJob {
            kind: JobKind::Update,
            repo: repo_path.to_string(),
            url: repo_url.to_string(),
            remote: tmp_remote,
            revision: Some(r),
            stage: GitStage::Finished,
            pending: None,
            allow_dirty,
            conflict: None,
        };
        if !is_dir {
            return (job, GitAction::Done(Err(GitError::NotADirectory(repo_path.to_string()))));
        }
        proof {
            reveal_strlit("git remote add ");
        }
        let cmd = quoted2("git remote add ", &job.remote, repo_url);
        let a = job.run_next(cmd, true, OutputMode::Discard, GitStage::AddingRemote, GitStage::AddingRemote);
        (job, a)
    }

    /// Decides the next step of the job from what came of the last one.
    pub fn step(&mut self, event: GitEvent) -> (a: GitAction)
        requires
            wf(*old(self)),
            old(self).stage != GitStage::Finished,
        ensures
            wf(*final(self)),
            step_spec(*old(self), *final(self), event, a),
    {
        let stage = self.stage;
        match event {
            GitEvent::Failed(msg) => self.failed(msg),
            GitEvent::Refused(msg) => {
                if stage == GitStage::CheckingOut && self.kind == JobKind::Update && self.allow_dirty {
                    proof {
                        reveal_strlit("git remote rm ");
                    }
                    let cmd = quoted1("git remote rm ", &self.remote);
                    match safe_command(&cmd) {
                        Ok(c) => {
                            self.stage = GitStage::RemovingRemoteAfterRefusal;
                            self.conflict = Some(msg);
                            GitAction::Run {
                                program: c.program,
                                args: c.args,
                                dir: Some(self.repo.clone()),
                                output: OutputMode::Discard,
                            }
                        },
                        Err(ce) => {
                            self.stage = GitStage::Finished;
                            GitAction::Done(Err(ce))
                        },
                    }
                } else {
                    self.failed(msg)
                }
            },
            GitEvent::Ran(lines) => {
                proof {
                    reveal_strlit("git fetch --quiet ");
                    reveal_strlit("git ls-remote --quiet --tags ");
                    reveal_strlit("git ls-remote --quiet ");
                    reveal_strlit("refs/tags/");
                    reveal_strlit("refs/heads/");
                    reveal_strlit("refs/remotes/");
                    reveal_strlit("/");
                    reveal_strlit("git branch --format=\"%(refname)\" -a --contains ");
                    reveal_strlit("git checkout --quiet -B ");
                    reveal_strlit("git -c advice.detachedHead=false checkout --quiet ");
                    reveal_strlit("git remote set-url origin ");
                    reveal_strlit("git remote rm ");
                }
                match stage {
                    GitStage::Cloning => {
                        if self.revision.is_some() {
                            let r = rev_of(&self.revision);
                            let cmd = quoted2("git fetch --quiet ", &self.remote, &r);
                            self.run_next(cmd, true, OutputMode::Inherit, GitStage::FetchingRevision, GitStage::FetchingRevision)
                        } else {
                            self.stage = GitStage::Finished;
                            GitAction::Done(Ok(()))
                        }
                    },
                    GitStage::AddingRemote => {
                        let r = rev_of(&self.revision);
                        let cmd = quoted2("git fetch --quiet ", &self.remote, &r);
                        self.run_next(cmd, true, OutputMode::Inherit, GitStage::FetchingRevision, GitStage::FetchingRevision)
                    },
                    GitStage::FetchingRevision => {
                        let r = rev_of(&self.revision);
                        let tag_ref = cat("refs/tags/", &r);
                        let cmd = quoted2("git ls-remote --quiet --tags ", &self.remote, &tag_ref);
                        self.run_next(cmd, true, OutputMode::CaptureQuiet, GitStage::ListingTags, GitStage::ListingTags)
                    },
                    GitStage::ListingTags => {
                        let r = rev_of(&self.revision);
                        let tag_ref = cat("refs/tags/", &r);
                        match find_ref_sha(&lines, &tag_ref) {
                            Some(sha) => {
                                let cmd = quoted1("git -c advice.detachedHead=false checkout --quiet ", &sha);
                                let out = self.checkout_output();
                                self.run_next(cmd, true, out, GitStage::CheckingOut, GitStage::CheckingOut)
                            },
                            None => {
                                let head_ref = cat("refs/heads/", &r);
                                let cmd = quoted2("git ls-remote --quiet ", &self.remote, &head_ref);
                                self.run_next(cmd, true, OutputMode::Capture, GitStage::ListingBranches, GitStage::ListingBranches)
                            },
                        }
                    },
                    GitStage::ListingBranches => {
                        let r = rev_of(&self.revision);
                        let head_ref = cat("refs/heads/", &r);
                        match find_ref_sha(&lines, &head_ref) {
                            Some(sha) => {
                                let cmd = quoted2("git checkout --quiet -B ", &r, &sha);
                                let out = self.checkout_output();
                                self.run_next(cmd, true, out, GitStage::CheckingOut, GitStage::CheckingOut)
                            },
                            None => if crate::repo::gix::GixBackend::looks_like_sha(&r) {
                                let cmd = quoted1("git fetch --quiet ", &self.remote);
                                self.run_next(cmd, true, OutputMode::Discard, GitStage::FetchingRemote, GitStage::FetchingRemote)
                            } else {
                                self.fail(GitError::CannotResolve(r), stage)
                            },
                        }
                    },
                    GitStage::FetchingRemote => {
                        let r = rev_of(&self.revision);
                        let cmd = quoted1("git branch --format=\"%(refname)\" -a --contains ", &r);
                        self.run_next(cmd, true, OutputMode::Capture, GitStage::ListingContaining, GitStage::ListingContaining)
                    },
                    GitStage::ListingContaining => {
                        let r = rev_of(&self.revision);
                        let prefix = cat3("refs/remotes/", &self.remote, "/");
                        if any_line_starts_with(&lines, &prefix) {
                            let cmd = quoted1("git -c advice.detachedHead=false checkout --quiet ", &r);
                            let out = self.checkout_output();
                            self.run_next(cmd, true, out, GitStage::CheckingOut, GitStage::CheckingOut)
                        } else {
                            let remote = self.remote.clone();
                            self.fail(GitError::NotFound(r, remote), stage)
                        }
                    },
                    GitStage::CheckingOut => {
                        match self.kind {
                            JobKind::Clone => {
                                self.stage = GitStage::Finished;
                                GitAction::Done(Ok(()))
                            },
                            JobKind::Update => {
                                let cmd = quoted1("git remote set-url origin ", &self.url);
                                self.run_next(cmd, true, OutputMode::Discard, GitStage::SettingOrigin, GitStage::SettingOrigin)
                            },
                        }
                    },
                    GitStage::SettingOrigin => {
                        let cmd = quoted1("git remote rm ", &self.remote);
                        self.run_next(cmd, true, OutputMode::Discard, GitStage::RemovingRemote, GitStage::RemovingRemote)
                    },
                    GitStage::RemovingRemote => {
                        self.stage = GitStage::Finished;
                        GitAction::Done(Ok(()))
                    },
                    GitStage::RemovingRemoteAfterRefusal => {
                        self.stage = GitStage::Finished;
                        let text = match &self.conflict {
                            Some(c) => c.clone(),
                            None => String::new(),
                        };
                        GitAction::Preserved(text)
                    },
                    GitStage::RemovingTempRemote | GitStage::RemovingClone => {
                        self.stage = GitStage::Finished;
                        let e = match &self.pending {
                            Some(p) => clone_error(p),
                            None => GitError::NoCommand,
                        };
                        GitAction::Done(Err(e))
                    },
                    GitStage::Finished => {
                        GitAction::Done(Ok(()))
                    },
                }
            },
        }
    }
}

/// The repository backend that drives the user's `git` binary.
pub struct GitShellBackend;

impl GitShellBackend {
    /// Starts cloning `url` into `target` (`target_exists` telling whether
    /// that path exists), checked out at `revision` when given.
    pub fn install(&self, url: &str, target: &str, revision: Option<String>, target_exists: bool) -> (res: (GitJob, GitAction))
        ensures
            wf(res.0),
            res.0.kind == JobKind::Clone,
            res.0.repo@ == target@,
            res.0.url@ == url@,
            res.0.remote@ == "origin"@,
            opt_view(res.0.revision) == opt_view(revision),
            res.0.pending is None,
            target_exists ==> res.0.stage == GitStage::Finished && done_err(
                res.1,
                GitErrorView::TargetExists(url@, target@),
            ),
            !target_exists ==> match command_error(clone_cmd(url@, target@)) {
                Some(e) => res.0.stage == GitStage::Finished && done_err(res.1, e),
                None => res.0.stage == GitStage::Cloning && runs(res.1, clone_cmd(url@, target@), None, OutputMode::Discard),
            },
    {
        GitJob::git_clone(url, target, revision, target_exists)
    }

    /// Starts bringing the repository at `target` (`is_dir` telling whether
    /// it is a directory) to `url` at `revision` (`main` when unset), through
    /// the temporary remote `tmp_remote`; with `allow_dirty` a checkout git
    /// refuses over local changes is reported rather than failed.
    pub fn update(&self, target: &str, url: &str, revision: Option<String>, is_dir: bool, tmp_remote: String, allow_dirty: bool) -> (res: (GitJob, GitAction))
        ensures
            res.0.allow_dirty == allow_dirty,
            wf(res.0),
            res.0.kind == JobKind::Update,
            res.0.repo@ == target@,
            res.0.url@ == url@,
            res.0.remote@ == tmp_remote@,
            res.0.revision matches Some(r) && r@ == match revision {
                Some(x) => x@,
                None => crate::constants::DEFAULT_REVISION@,
            },
            res.0.pending is None,
            !is_dir ==> res.0.stage == GitStage::Finished && done_err(
                res.1,
                GitErrorView::NotADirectory(target@),
            ),
            is_dir ==> match command_error(remote_add_cmd(tmp_remote@, url@)) {
                Some(e) => res.0.stage == GitStage::Finished && done_err(res.1, e),
                None => res.0.stage == GitStage::AddingRemote && runs(
                    res.1,
                    remote_add_cmd(tmp_remote@, url@),
                    Some(target@),
                    OutputMode::Discard,
                ),
            },
    {
        GitJob::git_update(target, url, revision, is_dir, tmp_remote, allow_dirty)
    }

    /// Whether a working tree is clean, from the output of
    /// `git status --porcelain` in it.
    pub fn is_clean(&self, status_output: &Vec<u8>) -> (res: bool)
        ensures
            res == (status_output.len() == 0),
    {
        git_is_working_dir_clean(status_output)
    }
}

/// When a command fails while a repository is being brought to its
/// revision, the job cleans up before reporting: an update removes its
/// temporary remote, a clone removes the fresh clone; the failure is kept to
/// be reported afterwards.
pub proof fn law_failure_cleans_up(old: GitJob, new: GitJob, msg: String, a: GitAction)
    requires
        wf(old),
        in_revision_phase(old.stage),
        step_spec(old, new, GitEvent::Failed(msg), a),
        old.kind == JobKind::Update ==> command_error(remote_rm_cmd(old.remote@)) is None,
    ensures
        old.kind == JobKind::Update ==> new.stage == GitStage::RemovingTempRemote && runs(a, remote_rm_cmd(old.remote@), in_repo(old), OutputMode::Discard),
        old.kind == JobKind::Clone ==> new.stage == GitStage::RemovingClone && removes(a, old.repo@),
        pending_is(new, GitErrorView::CommandFailed(msg@)),
        same_job(old, new),
{
}

/// When an update that may run over local changes has its checkout refused
/// by git, it removes its temporary remote (and does not point `origin` at
/// the new URL), keeping git's explanation; once that is done, the job ends
/// reporting the preserved conflict with that explanation.
pub proof fn law_refused_checkout_is_preserved(
    old: GitJob,
    mid: GitJob,
    msg: String,
    a: GitAction,
    fin: GitJob,
    lines: Vec<String>,
    b: GitAction,
)
    requires
        wf(old),
        old.stage == GitStage::CheckingOut,
        old.kind == JobKind::Update,
        old.allow_dirty,
        command_error(remote_rm_cmd(old.remote@)) is None,
        step_spec(old, mid, GitEvent::Refused(msg), a),
        step_spec(mid, fin, GitEvent::Ran(lines), b),
    ensures
        mid.stage == GitStage::RemovingRemoteAfterRefusal,
        runs(a, remote_rm_cmd(old.remote@), in_repo(old), OutputMode::Discard),
        fin.stage == GitStage::Finished,
        done_preserved(b, msg@),
        same_job(old, fin),
{
}

/// A job reports a preserved conflict only after removing the temporary
/// remote of an update whose checkout git refused.
pub proof fn law_preserved_only_after_refusal(old: GitJob, new: GitJob, event: GitEvent, a: GitAction)
    requires
        wf(old),
        step_spec(old, new, event, a),
        a is Preserved,
    ensures
        old.stage == GitStage::RemovingRemoteAfterRefusal,
        old.kind == JobKind::Update,
{
}

/// Once the cleanup after a failure is done, the job ends with the failure
/// it kept, not with the cleanup's outcome.
pub proof fn law_cleanup_reports_failure(old: GitJob, new: GitJob, lines: Vec<String>, a: GitAction)
    requires
        wf(old),
        old.stage == GitStage::RemovingTempRemote || old.stage == GitStage::RemovingClone,
        step_spec(old, new, GitEvent::Ran(lines), a),
    ensures
        new.stage == GitStage::Finished,
        done_err(a, old.pending->0@),
{
}

/// A successful update ends by pointing `origin` at the configured URL and
/// then removing its temporary remote.
pub proof fn law_update_success_sets_origin(old: GitJob, new: GitJob, lines: Vec<String>, a: GitAction)
    requires
        wf(old),
        old.kind == JobKind::Update,
        old.stage == GitStage::CheckingOut,
        step_spec(old, new, GitEvent::Ran(lines), a),
        command_error(set_origin_cmd(old.url@)) is None,
    ensures
        new.stage == GitStage::SettingOrigin,
        runs(a, set_origin_cmd(old.url@), in_repo(old), OutputMode::Discard),
{
}

} // verus!
