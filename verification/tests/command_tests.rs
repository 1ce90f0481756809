use driven::cli::{
    CapturedCommand, CapturedCommandStatus, CapturedStream, StrategyCommand,
    StrategyReceiptExecutionOptions, StrategyStateOptions,
};
use driven::cli::strategy::{command_display, display_command_arg};
use driven::cli::strategy_receipt::receipt_command;
use driven::dx_config::{sr_content, DrivenDxConfig};
use driven::strategy::state_lock::{
    check_lock_unchanged, lock_path, recover_held_lock, recover_unreadable_lock,
};
use driven::strategy::{
    CommandStatus, GitCheckoutKind, GitProbe, LockMetadata, OutcomeProof, VerificationClass,
    WorktreeMetadata,
};
use driven::DrivenError;

fn not_a_repository(root: &str) -> WorktreeMetadata {
    let e = "fatal: not a git repository".to_string();
    let probe = GitProbe {
        show_toplevel: Err(e.clone()),
        is_bare_repository: Err(e.clone()),
        git_dir: Err(e.clone()),
        git_common_dir: Err(e.clone()),
        superproject_working_tree: Err(e.clone()),
        abbrev_ref_head: Err(e.clone()),
        head: Err(e.clone()),
        remote_origin_url: Err(e.clone()),
        status_porcelain: Err(e.clone()),
        upstream_counts: Err(e),
    };
    driven::strategy::detect_worktree_metadata(root, &probe)
}

#[test]
fn claim_json_contains_lane_worker_and_next_action() {
    let (output, _receipt) = StrategyCommand::claim_output(
        2,
        1,
        "worker-cli",
        "cli strategy",
        "continue with receipts",
        not_a_repository("/tmp/cli"),
    )
    .unwrap();

    let claim_json = output.claim.to_json(true, 1);
    let handoff_json = output.handoff.to_json(true);
    assert!(claim_json.contains("\"lane\": 2"));
    assert!(claim_json.contains("\"worker_id\": \"worker-cli\""));
    assert!(handoff_json.contains("continue with receipts"));
    assert_eq!(output.handoff.receipt_id, output.receipt_id);
    assert_eq!(output.recommended_small_commands.len(), 3);
}

#[test]
fn strategy_cli_claim_markdown_escapes_scope_and_next_action() {
    let (output, receipt) = StrategyCommand::claim_output(
        1,
        1,
        "worker-cli",
        "cli scope\n## Forged Scope | cell",
        "next\n## Forged Next | cell",
        not_a_repository("/tmp/cli"),
    )
    .unwrap();
    let markdown = StrategyCommand::render_claim_markdown(&output, &receipt).unwrap();

    assert!(!markdown.lines().any(|line| line == "## Forged Scope"));
    assert!(!markdown.lines().any(|line| line == "## Forged Next"));
    assert!(markdown.contains("cli scope<br>## Forged Scope \\| cell"));
    assert!(markdown.contains("next<br>## Forged Next \\| cell"));
    assert!(markdown.starts_with("# DX Lane/Pass Claim\n\n- Lane: 1\n- Pass: 1\n- Worker: worker-cli\n"));
    assert!(markdown.contains("- Worktree kind: NotRepository\n\n- Worktree decision: Blocked\n"));
    assert!(markdown.contains("## Small Commands First\n- `git status --short --branch`\n"));
}

#[test]
fn claim_command_refuses_blank_scope_and_next_action() {
    let err = StrategyCommand::claim_output(1, 1, "worker-cli", "  ", "next", not_a_repository("/x"))
        .err()
        .unwrap();
    assert_eq!(err.message(), "lane scope cannot be empty");
    let err = StrategyCommand::claim_output(1, 1, "worker-cli", "scope", " ", not_a_repository("/x"))
        .err()
        .unwrap();
    assert_eq!(err.message(), "next-pass handoff requires a next action");
    let err = StrategyCommand::claim_output(31, 1, "worker-cli", "scope", "n", not_a_repository("/x"))
        .err()
        .unwrap();
    assert_eq!(err.message(), "lane must be between 1 and 30, got 31");
}

#[test]
fn strategy_cli_complete_state_without_receipt_is_rejected() {
    let err = StrategyCommand::complete_state("/tmp/complete-state", "cli state", 30, 3, "worker-proof", true)
        .unwrap_err();

    assert!(err.to_string().contains("proof receipt"));
}

#[test]
fn state_options_build_the_store_configuration() {
    let options = StrategyStateOptions::default()
        .with_lane_cycling(true)
        .with_project_root("/work/project")
        .with_strict_isolation(true)
        .with_handoff_required_for_next(true);
    assert!(options.cycle_lanes && options.strict_isolation && options.handoff_required_for_next);
    assert_eq!(options.project_root.as_deref(), Some("/work/project"));

    let config = StrategyCommand::state_config("/state", "scope", &options, Some("/work/project"), 4, 2);
    assert_eq!(config.state_dir, "/state");
    assert_eq!(config.max_lanes, 4);
    assert_eq!(config.max_passes, 2);
    assert!(config.cycle_lanes);
    assert!(config.handoff_required_for_next);
    assert_eq!(config.project_root.as_deref(), Some("/work/project"));
}

#[test]
fn receipt_execution_options_have_defaults_and_limits() {
    let options = StrategyReceiptExecutionOptions::default();
    assert_eq!(options.timeout_ms, 300_000);
    assert_eq!(options.max_output_bytes, 1_048_576);
    assert!(options.validate().is_ok());
    let err = options.with_timeout_ms(0).validate().unwrap_err();
    assert_eq!(err.message(), "receipt command timeout must be at least 1 ms");
    let err = options.with_max_output_bytes(0).validate().unwrap_err();
    assert_eq!(err.message(), "receipt command output limit must be at least 1 byte");
}

fn captured(status: CapturedCommandStatus) -> CapturedCommand {
    CapturedCommand {
        status,
        stdout: CapturedStream {
            digest: "a".repeat(64),
            bytes: 2048,
            truncated: true,
        },
        stderr: CapturedStream {
            digest: "b".repeat(64),
            bytes: 0,
            truncated: false,
        },
        started_unix_seconds: 100,
        finished_unix_seconds: 101,
        duration_ms: 250,
    }
}

#[test]
fn strategy_cli_receipt_records_output_cap_policy() {
    let options = StrategyReceiptExecutionOptions::default().with_max_output_bytes(1024);
    let (proof, outcome) = receipt_command(
        "sh -c \"printf x\"",
        VerificationClass::Small,
        &captured(CapturedCommandStatus::Exited { exit_code: 0 }),
        "/work/project",
        &options,
    )
    .unwrap();

    let evidence = proof.evidence.as_ref().unwrap();
    assert_eq!(evidence.output_limit_bytes, Some(1024));
    assert!(evidence.stdout_truncated);
    assert_eq!(evidence.stdout_bytes, 2048);
    assert_eq!(proof.status, CommandStatus::Passed { exit_code: 0 });
    assert_eq!(
        outcome,
        OutcomeProof::Verified {
            summary: "sh -c \"printf x\" passed with exit code 0".to_string()
        }
    );
}

#[test]
fn failed_command_leaves_a_partial_outcome() {
    let (proof, outcome) = receipt_command(
        "cargo test",
        VerificationClass::Targeted,
        &captured(CapturedCommandStatus::Exited { exit_code: -3 }),
        "/work/project",
        &StrategyReceiptExecutionOptions::default(),
    )
    .unwrap();
    assert_eq!(proof.status, CommandStatus::Failed { exit_code: -3 });
    assert_eq!(
        outcome,
        OutcomeProof::Partial {
            summary: "cargo test failed with exit code -3".to_string()
        }
    );
}

#[test]
fn strategy_cli_receipt_timeout_writes_blocked_receipt() {
    let options = StrategyReceiptExecutionOptions::default().with_timeout_ms(50);
    let (proof, outcome) = receipt_command(
        "sleep 1",
        VerificationClass::Small,
        &captured(CapturedCommandStatus::TimedOut),
        "/work/project",
        &options,
    )
    .unwrap();

    assert_eq!(
        proof.status,
        CommandStatus::Blocked {
            reason: "sleep 1 timed out after 50 ms".to_string()
        }
    );
    assert!(proof.evidence.is_none());
    assert_eq!(
        outcome,
        OutcomeProof::Blocked {
            reason: "sleep 1 timed out after 50 ms".to_string()
        }
    );
}

#[test]
fn command_arguments_are_quoted_only_when_needed() {
    assert_eq!(display_command_arg("cargo"), "cargo");
    assert_eq!(display_command_arg("C:\\bin/tool.exe"), "C:\\bin/tool.exe");
    assert_eq!(display_command_arg("printf driven-proof"), "\"printf driven-proof\"");
    assert_eq!(display_command_arg("say \"hi\""), "\"say \\\"hi\\\"\"");
    let args = vec!["-c".to_string(), "printf driven-proof".to_string()];
    assert_eq!(command_display("sh", &args), "sh -c \"printf driven-proof\"");
    assert_eq!(command_display("ls", &Vec::new()), "ls");
}

#[test]
fn lock_recovery_follows_staleness() {
    let lock = LockMetadata::new(4242, 1_000, 7);
    assert_eq!(lock.lock_id, "4242-1000-7");
    assert!(!lock.is_stale(2_799));
    assert!(lock.is_stale(2_800));
    let err = recover_held_lock("/state/.driven-lane-pass.lock", 2_000, &lock).unwrap_err();
    assert_eq!(
        err.message(),
        "lane/pass state is locked at /state/.driven-lane-pass.lock by pid 4242 since 1000 (stale after 1800 seconds)"
    );
    assert!(recover_held_lock("/state/.driven-lane-pass.lock", 2_800, &lock).is_ok());
    assert_eq!(lock_path("/state"), "/state/.driven-lane-pass.lock");
}

#[test]
fn stale_unreadable_lock_can_be_recovered_and_fresh_one_blocks() {
    let unreadable = DrivenError::Validation("lock metadata is unreadable".to_string());
    assert!(recover_unreadable_lock(&unreadable, 10, 1_810).is_ok());
    let err = recover_unreadable_lock(&unreadable, 10, 1_809).unwrap_err();
    assert_eq!(
        err.message(),
        "validation error: lock metadata is unreadable; lock file modified at 10 and will be treated as stale after 1800 seconds"
    );
}

#[test]
fn stale_recovery_refuses_to_remove_replaced_lock_file() {
    let observed = LockMetadata::new(1, 1, 1);
    let replacement = LockMetadata::new(4242, 5_000, 1);
    let err = check_lock_unchanged("/state/.lock", &observed, &replacement).unwrap_err();
    assert!(err.to_string().contains("replaced"));
    assert!(check_lock_unchanged("/state/.lock", &observed, &LockMetadata::new(1, 1, 1)).is_ok());
    assert!(observed.to_json().ends_with("}\n"));
    assert!(observed.to_json().contains("\"owner_pid\": 1"));
}

#[test]
fn sr_values_are_quoted_when_needed() {
    let config = DrivenDxConfig {
        workspace_root: "/ws".to_string(),
        cache_dir: "/ws/.dx/cache".to_string(),
        sr_dir: "/ws/.dx/serializer".to_string(),
        receipts_dir: "/ws/.dx/receipts/driven".to_string(),
    };
    assert_eq!(config.sr_path("driven"), "/ws/.dx/serializer/driven.sr");
    assert_eq!(config.machine_path("driven"), "/ws/.dx/serializer/driven.machine");
    let entries = vec![
        ("plain".to_string(), "value".to_string()),
        ("empty".to_string(), String::new()),
        ("spaced".to_string(), "a \"b\" \\c".to_string()),
        ("list".to_string(), "[x]".to_string()),
    ];
    assert_eq!(
        sr_content(&entries),
        "plain=value\nempty=\"\"\nspaced=\"a \\\"b\\\" \\\\c\"\nlist=\"[x]\"\n"
    );
}

#[test]
fn checkout_kind_of_a_non_repository() {
    let m = not_a_repository("/tmp/cli");
    assert_eq!(m.kind, GitCheckoutKind::NotRepository);
    assert_eq!(m.input_root, "/tmp/cli");
}
