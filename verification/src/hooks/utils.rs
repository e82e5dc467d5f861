//! Setting up and refreshing a hook's template repository, as a sequence of
//! Git steps that the caller carries out one at a time, and looking a theme
//! up among a template's theme files.
use crate::text::{cat, cat3, ends_with, starts_with, str_ends_with, str_eq, str_starts_with};
use vstd::prelude::*;

verus! {

/// What the caller is asked to do next.
pub enum HookAction {
    /// Run `git status --porcelain` in `dir` and report its output.
    Status { dir: String },
    /// Run `git pull` in the directory `dir`; report a failure when `dir` is
    /// no directory or the pull does not succeed.
    Pull { dir: String },
    /// Remove `path` (a directory with its contents, or a file) if it exists.
    Remove { path: String },
    /// Clone `url` into `dir`; report a failure when `dir` already exists or
    /// `git` cannot be started.
    Clone { url: String, dir: String },
    /// Nothing more: whether the repository was set up or brought up to
    /// date, or why the work failed.
    Done(Result<bool, String>),
}

/// A [`HookAction`] with its strings viewed as character sequences.
pub enum HookActionView {
    Status(Seq<char>),
    Pull(Seq<char>),
    Remove(Seq<char>),
    Clone(Seq<char>, Seq<char>),
    Done(Result<bool, Seq<char>>),
}

impl View for HookAction {
    type V = HookActionView;

    open spec fn view(&self) -> HookActionView {
        match self {
            HookAction::Status { dir } => HookActionView::Status(dir@),
            HookAction::Pull { dir } => HookActionView::Pull(dir@),
            HookAction::Remove { path } => HookActionView::Remove(path@),
            HookAction::Clone { url, dir } => HookActionView::Clone(url@, dir@),
            HookAction::Done(r) => HookActionView::Done(match r {
                Ok(b) => Ok(*b),
                Err(m) => Err(m@),
            }),
        }
    }
}

/// How the last action went.
pub enum HookEvent {
    /// It was carried out; holds what it printed (used for `Status`).
    Ran(String),
    /// It failed; the message says why.
    Failed(String),
}

/// Where a hook job stands: which action's outcome it awaits.
#[derive(Clone, Copy, Debug, PartialEq, Eq, Structural)]
pub enum HookStage {
    /// The status of an installed repository.
    AwaitStatus,
    /// The pull of a clean repository.
    AwaitPull,
    /// The removal of a repository whose pull failed.
    AwaitRemove,
    /// The clone that replaces a removed repository.
    AwaitReclone,
    /// The clone that sets up a missing repository for `setup_hook`.
    AwaitSetupClone,
    /// The clone that sets up a missing repository for `update_hook`.
    AwaitUpdateClone,
    /// Done.
    Finished,
}

/// A hook's template repository being set up or brought up to date.
pub struct HookJob {
    /// The hook's name.
    pub name: String,
    /// The template repository's URL.
    pub url: String,
    /// Its local path.
    pub path: String,
    pub stage: HookStage,
}

/// The next stage and action when the job in `stage` (for repository `url`
/// at `path`) learns `event`: a clean repository is pulled, a failed pull
/// is replaced by a fresh clone, a repository with local changes (or whose
/// status cannot be read) is left alone.
pub open spec fn hook_step(stage: HookStage, ran: bool, output: Seq<char>, url: Seq<char>, path: Seq<char>) -> (HookStage, HookActionView) {
    match stage {
        HookStage::AwaitStatus => if ran && output.len() == 0 {
            (HookStage::AwaitPull, HookActionView::Pull(path))
        } else {
            (HookStage::Finished, HookActionView::Done(Ok(false)))
        },
        HookStage::AwaitPull => if ran {
            (HookStage::Finished, HookActionView::Done(Ok(true)))
        } else {
            (HookStage::AwaitRemove, HookActionView::Remove(path))
        },
        HookStage::AwaitRemove => if ran {
            (HookStage::AwaitReclone, HookActionView::Clone(url, path))
        } else {
            (HookStage::Finished, HookActionView::Done(Err(output)))
        },
        HookStage::AwaitReclone | HookStage::AwaitSetupClone => if ran {
            (HookStage::Finished, HookActionView::Done(Ok(true)))
        } else {
            (HookStage::Finished, HookActionView::Done(Err(output)))
        },
        HookStage::AwaitUpdateClone => (HookStage::Finished, HookActionView::Done(Ok(ran))),
        HookStage::Finished => (HookStage::Finished, HookActionView::Done(Ok(false))),
    }
}

/// Whether `e` reports success, and the text it carries.
pub open spec fn event_parts(e: HookEvent) -> (bool, Seq<char>) {
    match e {
        HookEvent::Ran(o) => (true, o@),
        HookEvent::Failed(m) => (false, m@),
    }
}

impl HookJob {
    /// Learns how the last action went and says what to do next.
    pub fn step(&mut self, event: HookEvent) -> (res: HookAction)
        requires
            old(self).stage != HookStage::Finished,
        ensures
            final(self).name == old(self).name,
            final(self).url == old(self).url,
            final(self).path == old(self).path,
            (final(self).stage, res@) == hook_step(
                old(self).stage,
                event_parts(event).0,
                event_parts(event).1,
                old(self).url@,
                old(self).path@,
            ),
    {
        let (ran, text) = match event {
            HookEvent::Ran(o) => (true, o),
            HookEvent::Failed(m) => (false, m),
        };
        match self.stage {
            HookStage::AwaitStatus => {
                if ran && text.as_str().is_empty() {
                    self.stage = HookStage::AwaitPull;
                    HookAction::Pull { dir: self.path.clone() }
                } else {
                    self.stage = HookStage::Finished;
                    HookAction::Done(Ok(false))
                }
            },
            HookStage::AwaitPull => {
                if ran {
                    self.stage = HookStage::Finished;
                    HookAction::Done(Ok(true))
                } else {
                    self.stage = HookStage::AwaitRemove;
                    HookAction::Remove { path: self.path.clone() }
                }
            },
            HookStage::AwaitRemove => {
                if ran {
                    self.stage = HookStage::AwaitReclone;
                    HookAction::Clone { url: self.url.clone(), dir: self.path.clone() }
                } else {
                    self.stage = HookStage::Finished;
                    HookAction::Done(Err(text))
                }
            },
            HookStage::AwaitReclone | HookStage::AwaitSetupClone => {
                self.stage = HookStage::Finished;
                if ran {
                    HookAction::Done(Ok(true))
                } else {
                    HookAction::Done(Err(text))
                }
            },
            HookStage::AwaitUpdateClone => {
                self.stage = HookStage::Finished;
                HookAction::Done(Ok(ran))
            },
            HookStage::Finished => HookAction::Done(Ok(false)),
        }
    }
}

/// Starts bringing the installed repository at `target_dir` up to date
/// from `repo_url`: first its status is read.
pub fn update_repo(repo_url: &str, target_dir: &str) -> (res: (HookJob, HookAction))
    ensures
        res.0.name@ == Seq::<char>::empty(),
        res.0.url@ == repo_url@,
        res.0.path@ == target_dir@,
        res.0.stage == HookStage::AwaitStatus,
        res.1@ == HookActionView::Status(target_dir@),
{
    let job = HookJob {
        name: String::new(),
        url: repo_url.to_string(),
        path: target_dir.to_string(),
        stage: HookStage::AwaitStatus,
    };
    (job, HookAction::Status { dir: target_dir.to_string() })
}

/// Starts setting up hook `name`'s repository at `local_repo_path`
/// (`exists` telling whether that path exists): a missing repository is
/// cloned and reported set up; an existing one is left as it is and
/// reported not set up.
pub fn setup_hook(name: &str, repo_url: &str, local_repo_path: &str, exists: bool) -> (res: (HookJob, HookAction))
    ensures
        res.0.name@ == name@,
        res.0.url@ == repo_url@,
        res.0.path@ == local_repo_path@,
        !exists ==> res.0.stage == HookStage::AwaitSetupClone && res.1@ == HookActionView::Clone(repo_url@, local_repo_path@),
        exists ==> res.0.stage == HookStage::Finished && res.1@ == HookActionView::Done(Ok(false)),
{
    let mut job = HookJob {
        name: name.to_string(),
        url: repo_url.to_string(),
        path: local_repo_path.to_string(),
        stage: HookStage::Finished,
    };
    if !exists {
        job.stage = HookStage::AwaitSetupClone;
        (job, HookAction::Clone { url: repo_url.to_string(), dir: local_repo_path.to_string() })
    } else {
        (job, HookAction::Done(Ok(false)))
    }
}

/// Starts bringing hook `name`'s repository at `local_repo_path` up to date
/// (`exists` telling whether that path exists): an installed repository is
/// refreshed as `update_repo` does; a missing one is cloned, and reported
/// up to date exactly when the clone succeeds.
pub fn update_hook(name: &str, repo_url: &str, local_repo_path: &str, exists: bool) -> (res: (HookJob, HookAction))
    ensures
        res.0.name@ == name@,
        res.0.url@ == repo_url@,
        res.0.path@ == local_repo_path@,
        exists ==> res.0.stage == HookStage::AwaitStatus && res.1@ == HookActionView::Status(local_repo_path@),
        !exists ==> res.0.stage == HookStage::AwaitUpdateClone && res.1@ == HookActionView::Clone(repo_url@, local_repo_path@),
{
    let mut job = HookJob {
        name: name.to_string(),
        url: repo_url.to_string(),
        path: local_repo_path.to_string(),
        stage: HookStage::AwaitStatus,
    };
    if exists {
        (job, HookAction::Status { dir: local_repo_path.to_string() })
    } else {
        job.stage = HookStage::AwaitUpdateClone;
        (job, HookAction::Clone { url: repo_url.to_string(), dir: local_repo_path.to_string() })
    }
}

/// The complaint when a clone's target directory already exists.
pub fn clone_target_exists_message(dir: &str) -> (res: String)
    ensures
        res@ == "Target directory '"@ + dir@ + "' already exists"@,
{
    cat3("Target directory '", dir, "' already exists")
}

/// The complaint when a repository to pull is no directory.
pub fn not_a_directory_message(dir: &str) -> (res: String)
    ensures
        res@ == dir@ + " is not a directory"@,
{
    cat(dir, " is not a directory")
}

/// The complaint when `git pull` does not succeed.
pub fn pull_failed_message(dir: &str) -> (res: String)
    ensures
        res@ == "git pull failed in "@ + dir@,
{
    cat("git pull failed in ", dir)
}

/// A theme file name is `prefix`, the theme's name, then `suffix`.
pub open spec fn is_theme_file_name(name: Seq<char>, prefix: Seq<char>, suffix: Seq<char>) -> bool {
    starts_with(name, prefix) && ends_with(name.skip(prefix.len() as int), suffix)
}

/// The theme a file name names: the name without `prefix` and `suffix`.
pub open spec fn theme_of_file(name: Seq<char>, prefix: Seq<char>, suffix: Seq<char>) -> Seq<char> {
    name.subrange(prefix.len() as int, name.len() - suffix.len())
}

/// Whether one of a template's theme files (`file_names`, each `prefix`,
/// a theme name, `suffix`) is that of `theme_name`.
pub fn hook_has_theme(theme_name: &str, file_names: &Vec<String>, prefix: &str, suffix: &str) -> (res: bool)
    requires
        forall|i: int| 0 <= i < file_names.len() ==> is_theme_file_name(#[trigger] file_names@[i]@, prefix@, suffix@),
    ensures
        res == exists|i: int| 0 <= i < file_names.len() && theme_of_file(#[trigger] file_names@[i]@, prefix@, suffix@) == theme_name@,
{
    let n = file_names.len();
    let p = crate::text::chars_of(prefix).len();
    let s = crate::text::chars_of(suffix).len();
    let mut i: usize = 0;
    while i < n
        invariant
            n == file_names.len(),
            p == prefix@.len(),
            s == suffix@.len(),
            i <= n,
            forall|j: int| 0 <= j < n ==> is_theme_file_name(#[trigger] file_names@[j]@, prefix@, suffix@),
            forall|j: int| 0 <= j < i ==> theme_of_file(#[trigger] file_names@[j]@, prefix@, suffix@) != theme_name@,
        decreases n - i,
    {
        let v = crate::text::chars_of(file_names[i].as_str());
        assert(is_theme_file_name(file_names@[i as int]@, prefix@, suffix@));
        let name = crate::text::string_of(&crate::text::slice_chars(&v, p, v.len() - s));
        if str_eq(name.as_str(), theme_name) {
            return true;
        }
        i = i + 1;
    }
    false
}

/// A hook repository whose working tree has local changes (its status
/// lists any) is left alone and reported not updated; a clean one is pulled.
pub proof fn law_dirty_hook_repo_untouched(output: Seq<char>, url: Seq<char>, path: Seq<char>)
    ensures
        output.len() > 0 ==> hook_step(HookStage::AwaitStatus, true, output, url, path) == (
            HookStage::Finished,
            HookActionView::Done(Ok(false)),
        ),
        output.len() == 0 ==> hook_step(HookStage::AwaitStatus, true, output, url, path) == (
            HookStage::AwaitPull,
            HookActionView::Pull(path),
        ),
{
}

/// A hook repository is reported set up or updated only after a clone or a
/// pull that succeeded.
pub proof fn law_success_needs_success(stage: HookStage, ran: bool, text: Seq<char>, url: Seq<char>, path: Seq<char>)
    requires
        stage != HookStage::Finished,
        hook_step(stage, ran, text, url, path).1 == HookActionView::Done(Ok(true)),
    ensures
        ran,
        stage == HookStage::AwaitPull || stage == HookStage::AwaitReclone || stage == HookStage::AwaitSetupClone
            || stage == HookStage::AwaitUpdateClone,
{
}

} // verus!
