use driven::cli::StrategyCommand;
use driven::strategy::detection::upstream_counts;
use driven::strategy::{
    detect_worktree_metadata, plan_worktree_isolation, GitCheckoutKind, GitProbe,
    WorktreeCreationDecision, WorktreeIsolationMode, WorktreeIsolationPlan,
};

fn ok(s: &str) -> Result<String, String> {
    Ok(s.to_string())
}

fn err(s: &str) -> Result<String, String> {
    Err(s.to_string())
}

fn not_a_repository() -> GitProbe {
    let e = "fatal: not a git repository (or any of the parent directories): .git";
    GitProbe {
        show_toplevel: err(e),
        is_bare_repository: err(e),
        git_dir: err(e),
        git_common_dir: err(e),
        superproject_working_tree: err(e),
        abbrev_ref_head: err(e),
        head: err(e),
        remote_origin_url: err(e),
        status_porcelain: err(e),
        upstream_counts: err(e),
    }
}

fn main_worktree(status: &str) -> GitProbe {
    GitProbe {
        show_toplevel: ok("/work/repo"),
        is_bare_repository: ok("false"),
        git_dir: ok(".git"),
        git_common_dir: ok(".git"),
        superproject_working_tree: ok(""),
        abbrev_ref_head: ok("main"),
        head: ok("0123456789abcdef0123456789abcdef01234567"),
        remote_origin_url: err(""),
        status_porcelain: ok(status),
        upstream_counts: err("fatal: no upstream configured for branch 'main'"),
    }
}

#[test]
fn worktree_detection_reports_not_repository_for_temp_directory() {
    let metadata = detect_worktree_metadata("/tmp/scratch", &not_a_repository());

    assert!(metadata.is_not_repository());
    assert_eq!(metadata.worktree_root, None);
    assert!(metadata.detection_error.is_some());
}

#[test]
fn worktree_plan_blocks_git_worktree_creation_for_non_repository() {
    let plan = plan_worktree_isolation("/tmp/scratch", &not_a_repository());

    assert_eq!(plan.mode, WorktreeIsolationMode::NoGitRepository);
    assert_eq!(plan.creation_decision, WorktreeCreationDecision::Blocked);
    assert!(!plan.can_create_git_worktree);
    assert!(!plan.native_isolation_detected);
    assert_eq!(plan.execution_root, None);
    assert!(plan
        .blockers
        .iter()
        .any(|blocker| blocker.contains("not a Git repository")));
}

#[test]
fn worktree_plan_blocks_git_worktree_creation_for_unborn_repository() {
    let mut probe = main_worktree("");
    probe.abbrev_ref_head = err("fatal: ambiguous argument 'HEAD'");
    probe.head = err("fatal: ambiguous argument 'HEAD'");

    let plan = plan_worktree_isolation("/work/repo", &probe);

    assert_eq!(plan.mode, WorktreeIsolationMode::MainWorktree);
    assert_eq!(plan.creation_decision, WorktreeCreationDecision::Blocked);
    assert!(!plan.can_create_git_worktree);
    assert!(plan
        .blockers
        .iter()
        .any(|blocker| blocker.contains("branch with a resolved HEAD")));
}

#[test]
fn worktree_plan_allows_git_worktree_creation_for_clean_main_worktree() {
    let plan = plan_worktree_isolation("/work/repo", &main_worktree(""));

    assert_eq!(plan.mode, WorktreeIsolationMode::MainWorktree);
    assert_eq!(
        plan.creation_decision,
        WorktreeCreationDecision::CreateGitWorktree
    );
    assert!(plan.can_create_git_worktree);
}

#[test]
fn worktree_plan_blocks_git_worktree_creation_for_dirty_main_worktree() {
    let plan = plan_worktree_isolation("/work/repo", &main_worktree(" M README.md"));

    assert_eq!(plan.mode, WorktreeIsolationMode::MainWorktree);
    assert_eq!(plan.creation_decision, WorktreeCreationDecision::Blocked);
    assert!(!plan.can_create_git_worktree);
    assert!(plan
        .blockers
        .iter()
        .any(|blocker| blocker.contains("local changes")));
}

#[test]
fn worktree_plan_reuses_clean_linked_worktree() {
    let mut probe = main_worktree("");
    probe.show_toplevel = ok("/work/linked");
    probe.git_dir = ok("/work/main/.git/worktrees/linked");
    probe.git_common_dir = ok("/work/main/.git");
    probe.abbrev_ref_head = ok("lane-worker");

    let plan = plan_worktree_isolation("/work/linked", &probe);

    assert_eq!(plan.mode, WorktreeIsolationMode::LinkedWorktree);
    assert_eq!(
        plan.creation_decision,
        WorktreeCreationDecision::ReuseCurrentWorktree
    );
    assert!(plan.native_isolation_detected);
    assert!(!plan.can_create_git_worktree);
}

#[test]
fn git_paths_are_read_relative_to_the_checkout() {
    let metadata = detect_worktree_metadata("/work/repo", &main_worktree(""));

    assert_eq!(metadata.kind, GitCheckoutKind::MainWorktree);
    assert_eq!(metadata.git_dir.as_deref(), Some("/work/repo/.git"));
    assert_eq!(metadata.worktree_root.as_deref(), Some("/work/repo"));
    assert_eq!(metadata.is_dirty, Some(false));
    assert!(!metadata.detached);
}

#[test]
fn same_git_dir_written_two_ways_is_not_a_linked_worktree() {
    let mut probe = main_worktree("");
    probe.git_dir = ok("/work/repo/.git/");
    probe.git_common_dir = ok("/work/repo//.git");

    let metadata = detect_worktree_metadata("/work/repo", &probe);

    assert_eq!(metadata.kind, GitCheckoutKind::MainWorktree);
}

#[test]
fn bare_repository_has_no_working_tree() {
    let mut probe = not_a_repository();
    probe.is_bare_repository = ok("true");
    probe.git_dir = ok(".");
    probe.abbrev_ref_head = ok("HEAD");

    let metadata = detect_worktree_metadata("/srv/repo.git", &probe);

    assert_eq!(metadata.kind, GitCheckoutKind::Bare);
    assert_eq!(metadata.branch, None);
    assert!(metadata.detached);
    assert!(metadata.detection_error.is_none());
    let plan = WorktreeIsolationPlan::from_metadata(metadata);
    assert_eq!(plan.creation_decision, WorktreeCreationDecision::Blocked);
}

#[test]
fn upstream_counts_read_behind_then_ahead() {
    assert_eq!(upstream_counts(&ok("3\t5")), (Some(5), Some(3)));
    assert_eq!(upstream_counts(&ok("  +2   7 ")), (Some(7), Some(2)));
    assert_eq!(upstream_counts(&ok("x 1")), (Some(1), None));
    assert_eq!(upstream_counts(&ok("4294967296 0")), (Some(0), None));
    assert_eq!(upstream_counts(&err("no upstream")), (None, None));
}

#[test]
fn strict_isolation_accepts_only_a_clean_linked_worktree() {
    let clean_main = plan_worktree_isolation("/work/repo", &main_worktree(""));
    let err = StrategyCommand::enforce_strict_isolation(&clean_main).unwrap_err();
    assert_eq!(
        err.message(),
        "strict isolation requires a clean isolated worktree; decision=CreateGitWorktree; blockers=; warnings="
    );

    let not_repo = plan_worktree_isolation("/tmp/x", &not_a_repository());
    let err = StrategyCommand::enforce_strict_isolation(&not_repo).unwrap_err();
    assert!(err
        .message()
        .starts_with("strict isolation requires a clean isolated worktree; decision=Blocked; blockers=path is not a Git repository; git worktree creation is blocked; fatal"));

    let mut linked = main_worktree("");
    linked.git_dir = ok("/work/main/.git/worktrees/linked");
    linked.git_common_dir = ok("/work/main/.git");
    let plan = plan_worktree_isolation("/work/linked", &linked);
    assert!(StrategyCommand::enforce_strict_isolation(&plan).is_ok());
}

#[test]
fn worktree_identity_ignores_dirty_state_and_head_but_not_branch() {
    let clean = detect_worktree_metadata("/work/repo", &main_worktree(""));
    let dirty = detect_worktree_metadata("/work/repo", &main_worktree(" M src/lib.rs"));
    assert_eq!(clean.is_dirty, Some(false));
    assert_eq!(dirty.is_dirty, Some(true));
    assert!(clean.has_same_identity(&dirty));

    let mut moved = main_worktree("");
    moved.head = ok("fedcba9876543210fedcba9876543210fedcba98");
    assert!(clean.has_same_identity(&detect_worktree_metadata("/work/repo", &moved)));

    let mut other_branch = main_worktree("");
    other_branch.abbrev_ref_head = ok("feature");
    assert!(!clean.has_same_identity(&detect_worktree_metadata("/work/repo", &other_branch)));
}
