use tinty::hooks::utils::{hook_has_theme, setup_hook, update_hook, HookAction, HookEvent, HookStage};
use tinty::hooks::{base16_shell, base16_shell_manager, base16_tmux};
use tinty::repo::git_shell::{
    find_ref_sha, git_is_working_dir_clean, GitAction, GitError, GitEvent, GitJob, GitStage, OutputMode,
};
use tinty::repo::gix::GixBackend;
use tinty::repo::{backend, origin_url, update_status, use_gix, RepositoryBackend, UpdateStatus};

fn run_args(a: &GitAction) -> Vec<String> {
    match a {
        GitAction::Run { program, args, .. } => {
            let mut v = vec![program.clone()];
            v.extend(args.iter().cloned());
            v
        }
        _ => panic!("expected a command"),
    }
}

#[test]
fn clone_job_runs_clone_then_checks_out_a_tag() {
    let (mut job, a) = GitJob::git_clone("https://x/r", "/d/r", Some("v1".to_string()), false);
    assert_eq!(run_args(&a), vec!["git", "clone", "https://x/r", "/d/r"]);
    let a = job.step(GitEvent::Ran(vec![]));
    assert_eq!(run_args(&a), vec!["git", "fetch", "--quiet", "origin", "v1"]);
    let a = job.step(GitEvent::Ran(vec![]));
    assert_eq!(run_args(&a), vec!["git", "ls-remote", "--quiet", "--tags", "origin", "refs/tags/v1"]);
    assert!(matches!(a, GitAction::Run { output: OutputMode::CaptureQuiet, .. }));
    let a = job.step(GitEvent::Ran(vec!["abc123\trefs/tags/v1".to_string()]));
    assert_eq!(run_args(&a), vec!["git", "-c", "advice.detachedHead=false", "checkout", "--quiet", "abc123"]);
    let a = job.step(GitEvent::Ran(vec![]));
    assert!(matches!(a, GitAction::Done(Ok(()))));
    assert_eq!(job.stage, GitStage::Finished);
}

#[test]
fn clone_job_refuses_an_existing_target() {
    let (_, a) = GitJob::git_clone("https://x/r", "/d/r", None, true);
    assert!(matches!(a, GitAction::Done(Err(GitError::TargetExists(_, _)))));
}

#[test]
fn failed_clone_checkout_removes_the_clone_then_reports() {
    let (mut job, _) = GitJob::git_clone("https://x/r", "/d/r", Some("nope".to_string()), false);
    job.step(GitEvent::Ran(vec![]));
    let a = job.step(GitEvent::Failed("fetch failed".to_string()));
    assert!(matches!(a, GitAction::RemoveDir(ref d) if d == "/d/r"));
    let a = job.step(GitEvent::Ran(vec![]));
    assert!(matches!(a, GitAction::Done(Err(GitError::CommandFailed(ref m))) if m == "fetch failed"));
}

#[test]
fn update_job_uses_a_temporary_remote() {
    let (mut job, a) = GitJob::git_update("/d/r", "https://x/r", None, true, "tinty-remote-7".to_string(), false);
    assert_eq!(run_args(&a), vec!["git", "remote", "add", "tinty-remote-7", "https://x/r"]);
    let a = job.step(GitEvent::Ran(vec![]));
    assert_eq!(run_args(&a), vec!["git", "fetch", "--quiet", "tinty-remote-7", "main"]);
    job.step(GitEvent::Ran(vec![]));
    let a = job.step(GitEvent::Ran(vec![]));
    assert_eq!(run_args(&a)[3], "tinty-remote-7");
    let a = job.step(GitEvent::Ran(vec!["def456\trefs/heads/main".to_string()]));
    assert_eq!(run_args(&a), vec!["git", "checkout", "--quiet", "-B", "main", "def456"]);
    let a = job.step(GitEvent::Ran(vec![]));
    assert_eq!(run_args(&a), vec!["git", "remote", "set-url", "origin", "https://x/r"]);
    let a = job.step(GitEvent::Ran(vec![]));
    assert_eq!(run_args(&a), vec!["git", "remote", "rm", "tinty-remote-7"]);
    let a = job.step(GitEvent::Ran(vec![]));
    assert!(matches!(a, GitAction::Done(Ok(()))));
}

#[test]
fn update_job_cleans_up_an_unknown_revision() {
    let (mut job, _) = GitJob::git_update("/d/r", "https://x/r", Some("zz-top".to_string()), true, "tmp".to_string(), false);
    job.step(GitEvent::Ran(vec![]));
    job.step(GitEvent::Ran(vec![]));
    job.step(GitEvent::Ran(vec![]));
    let a = job.step(GitEvent::Ran(vec![]));
    assert_eq!(run_args(&a), vec!["git", "remote", "rm", "tmp"]);
    let a = job.step(GitEvent::Ran(vec![]));
    match a {
        GitAction::Done(Err(e)) => assert_eq!(e.message(), "cannot resolve zz-top into a Git SHA1"),
        _ => panic!("expected the resolution error"),
    }
}

#[test]
fn update_job_refuses_a_missing_directory() {
    let (_, a) = GitJob::git_update("/d/r", "https://x/r", None, false, "tmp".to_string(), false);
    match a {
        GitAction::Done(Err(e)) => assert_eq!(e.message(), "Error with updating. /d/r is not a directory"),
        _ => panic!("expected an error"),
    }
}

#[test]
fn reading_git_output() {
    let lines = vec!["a\trefs/tags/x".to_string(), "b\trefs/tags/v1".to_string()];
    assert_eq!(find_ref_sha(&lines, "refs/tags/v1"), Some("b".to_string()));
    assert_eq!(find_ref_sha(&lines, "refs/tags/v2"), None);
    assert!(git_is_working_dir_clean(&vec![]));
    assert!(!git_is_working_dir_clean(&b" M x".to_vec()));
}

#[test]
fn backend_selection_and_results() {
    assert!(use_gix(Some("1")));
    assert!(use_gix(Some("yes")));
    assert!(!use_gix(Some("True")));
    assert!(!use_gix(None));
    assert_eq!(backend(Some("TRUE")), RepositoryBackend::Gix);
    assert_eq!(backend(Some("0")), RepositoryBackend::GitShell);
    assert!(matches!(update_status(Ok(None)), Ok(UpdateStatus::Updated)));
    match update_status(Ok(Some("error: would be overwritten: theme-a.txt".to_string()))) {
        Ok(UpdateStatus::ConflictPreserved { stderr }) => assert_eq!(stderr, "error: would be overwritten: theme-a.txt"),
        _ => panic!("expected a preserved conflict"),
    }
    assert_eq!(origin_url(Some(vec![" https://x/r \n".to_string()])), Some("https://x/r".to_string()));
    assert_eq!(origin_url(Some(vec![])), None);
    assert_eq!(origin_url(None), None);
}

#[test]
fn gix_revision_decisions() {
    assert!(GixBackend::looks_like_sha("abc123"));
    assert!(!GixBackend::looks_like_sha(""));
    assert!(!GixBackend::looks_like_sha("ABC"));
    assert!(!GixBackend::looks_like_sha(&"a".repeat(41)));
    assert!(GixBackend::probe_revision_kind("main", false, true).is_ok());
    let e = GixBackend::probe_revision_kind("main", false, false).err().unwrap();
    assert_eq!(e.message(), "cannot resolve main into a Git SHA1");
    assert!(GixBackend::url_changed("a", "b"));
    assert!(!GixBackend::url_changed("a", "a"));
}

#[test]
fn hook_update_pulls_a_clean_repo() {
    let (mut job, a) = update_hook("h", "https://x/h", "/d/h", true);
    assert!(matches!(a, HookAction::Status { ref dir } if dir == "/d/h"));
    let a = job.step(HookEvent::Ran(String::new()));
    assert!(matches!(a, HookAction::Pull { .. }));
    let a = job.step(HookEvent::Failed("no".to_string()));
    assert!(matches!(a, HookAction::Remove { .. }));
    let a = job.step(HookEvent::Ran(String::new()));
    assert!(matches!(a, HookAction::Clone { ref url, .. } if url == "https://x/h"));
    let a = job.step(HookEvent::Ran(String::new()));
    assert!(matches!(a, HookAction::Done(Ok(true))));
    assert_eq!(job.stage, HookStage::Finished);
}

#[test]
fn hook_update_leaves_a_dirty_repo() {
    let (mut job, _) = update_hook("h", "u", "/d/h", true);
    let a = job.step(HookEvent::Ran(" M file\n".to_string()));
    assert!(matches!(a, HookAction::Done(Ok(false))));
}

#[test]
fn hook_setup_clones_only_when_missing() {
    let (_, a) = setup_hook("h", "u", "/d/h", true);
    assert!(matches!(a, HookAction::Done(Ok(false))));
    let (mut job, a) = setup_hook("h", "u", "/d/h", false);
    assert!(matches!(a, HookAction::Clone { .. }));
    let a = job.step(HookEvent::Failed("exists".to_string()));
    assert!(matches!(a, HookAction::Done(Err(ref m)) if m == "exists"));
    let (mut job, _) = update_hook("h", "u", "/d/h", false);
    let a = job.step(HookEvent::Failed("x".to_string()));
    assert!(matches!(a, HookAction::Done(Ok(false))));
}

#[test]
fn hook_themes_are_found_by_name() {
    let files = vec!["base16-ayu.sh".to_string(), "base16-nord.sh".to_string()];
    assert!(hook_has_theme("nord", &files, "base16-", ".sh"));
    assert!(base16_shell::has_theme("ayu", &files));
    assert!(!base16_shell::has_theme("gruvbox", &files));
    assert!(base16_tmux::has_theme("x", &vec!["base16-x.conf".to_string()]));
    assert!(base16_shell_manager::has_theme("a", &vec!["b".to_string(), "a".to_string()]));
    assert_eq!(base16_shell_manager::get_themes(false, vec![]), None);
    assert_eq!(base16_shell::themes_path("/d"), "/d/base16-shell/scripts");
    let (job, _) = base16_tmux::setup_hook("/d", false);
    assert_eq!(job.path, "/d/base16-tmux");
    assert_eq!(base16_tmux::theme_setting("ayu"), "set -g @colors-base16 'ayu'");
}

#[test]
fn update_job_looks_up_a_sha_shaped_revision_on_the_remote() {
    let (mut job, _) = GitJob::git_update("/d/r", "https://x/r", Some("abc123".to_string()), true, "tmp".to_string(), false);
    job.step(GitEvent::Ran(vec![]));
    job.step(GitEvent::Ran(vec![]));
    job.step(GitEvent::Ran(vec![]));
    let a = job.step(GitEvent::Ran(vec![]));
    assert_eq!(run_args(&a), vec!["git", "fetch", "--quiet", "tmp"]);
}

fn output_of(a: &GitAction) -> OutputMode {
    match a {
        GitAction::Run { output, .. } => *output,
        _ => panic!("expected a command"),
    }
}

#[test]
fn allow_dirty_update_reports_a_refused_checkout_as_preserved() {
    let (mut job, _) = GitJob::git_update("/d/r", "https://x/r", None, true, "tmp".to_string(), true);
    job.step(GitEvent::Ran(vec![]));
    job.step(GitEvent::Ran(vec![]));
    job.step(GitEvent::Ran(vec![]));
    let a = job.step(GitEvent::Ran(vec!["def456\trefs/heads/main".to_string()]));
    assert_eq!(run_args(&a), vec!["git", "checkout", "--quiet", "-B", "main", "def456"]);
    assert_eq!(output_of(&a), OutputMode::Checked);
    let stderr = "error: Your local changes to the following files would be overwritten by checkout:\n\ttheme-a.txt";
    let a = job.step(GitEvent::Refused(stderr.to_string()));
    assert_eq!(run_args(&a), vec!["git", "remote", "rm", "tmp"]);
    assert_eq!(job.stage, GitStage::RemovingRemoteAfterRefusal);
    let a = job.step(GitEvent::Ran(vec![]));
    match a {
        GitAction::Preserved(s) => assert_eq!(s, stderr),
        _ => panic!("expected the preserved conflict"),
    }
}

#[test]
fn allow_dirty_update_carries_changes_forward_when_checkout_succeeds() {
    let (mut job, _) = GitJob::git_update("/d/r", "https://x/r", Some("v1".to_string()), true, "tmp".to_string(), true);
    job.step(GitEvent::Ran(vec![]));
    job.step(GitEvent::Ran(vec![]));
    let a = job.step(GitEvent::Ran(vec!["abc\trefs/tags/v1".to_string()]));
    assert_eq!(output_of(&a), OutputMode::Checked);
    let a = job.step(GitEvent::Ran(vec![]));
    assert_eq!(run_args(&a), vec!["git", "remote", "set-url", "origin", "https://x/r"]);
}

#[test]
fn strict_update_checks_out_without_reading_the_status() {
    let (mut job, _) = GitJob::git_update("/d/r", "https://x/r", Some("v1".to_string()), true, "tmp".to_string(), false);
    job.step(GitEvent::Ran(vec![]));
    job.step(GitEvent::Ran(vec![]));
    let a = job.step(GitEvent::Ran(vec!["abc\trefs/tags/v1".to_string()]));
    assert_eq!(output_of(&a), OutputMode::Discard);
    let a = job.step(GitEvent::Refused("boom".to_string()));
    assert_eq!(run_args(&a), vec!["git", "remote", "rm", "tmp"]);
    assert_eq!(job.stage, GitStage::RemovingTempRemote);
}
