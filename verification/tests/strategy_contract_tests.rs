use driven::strategy::{
    CommandEvidence, CommandProof, CommandStatus, FileProof, LaneClaim, LaneId, OutcomeProof,
    PassNumber, ProofReceipt, SubagentDelegation, VerificationClass, WorkerId,
};

#[test]
fn lane_claim_builds_next_pass_handoff_for_same_worker() {
    let worker = WorkerId::new("worker-friday-01").unwrap();
    let claim = LaneClaim::new(
        LaneId::new(7).unwrap(),
        PassNumber::new(2).unwrap(),
        worker.clone(),
        "route-handler request behavior",
    )
    .with_subagent(SubagentDelegation::new(
        worker,
        LaneId::new(7).unwrap(),
        PassNumber::new(2).unwrap(),
        "verify proof contract",
    ));

    let receipt = ProofReceipt::new(claim.clone(), "pass proof")
        .with_command(CommandProof::passed(
            "rg -n \"request.url\" src",
            VerificationClass::Small,
        ))
        .with_file(FileProof::new(
            "src/delivery/server_contract.rs",
            "request alias normalization",
        ))
        .with_outcome(OutcomeProof::verified(
            "focused guard documents alias handling",
        ));

    let handoff = claim
        .next_pass_handoff(receipt, "continue with HEAD/OPTIONS request behavior")
        .unwrap();

    assert_eq!(handoff.lane, LaneId::new(7).unwrap());
    assert_eq!(handoff.completed_pass, PassNumber::new(2).unwrap());
    assert_eq!(handoff.next_pass, PassNumber::new(3).unwrap());
    assert_eq!(handoff.worker_id.as_str(), "worker-friday-01");
    assert!(handoff.next_action.contains("HEAD/OPTIONS"));
}

#[test]
fn receipt_validation_rejects_heavy_command_without_small_first_proof() {
    let claim = LaneClaim::new(
        LaneId::new(1).unwrap(),
        PassNumber::new(1).unwrap(),
        WorkerId::new("worker-heavy").unwrap(),
        "build proof",
    );

    let receipt = ProofReceipt::new(claim, "heavy first")
        .with_command(CommandProof::new(
            "cargo test -p dx-driven --lib",
            VerificationClass::Heavy,
            CommandStatus::Passed { exit_code: 0 },
        ))
        .with_outcome(OutcomeProof::partial("heavy command was attempted first"));

    let err = receipt.validate().unwrap_err();
    assert!(err.to_string().contains("small command"));
}

#[test]
fn command_proof_observed_records_captured_evidence() {
    let evidence =
        CommandEvidence::from_streams("G:/Dx/driven", b"driven-proof\n", b"", 10, 11).unwrap();
    let proof = CommandProof::observed(
        "cmd /C echo driven-proof",
        VerificationClass::Small,
        0,
        "G:/Dx/driven",
        b"driven-proof\n",
        b"",
        10,
        11,
    )
    .unwrap();

    assert_eq!(proof.status, CommandStatus::Passed { exit_code: 0 });
    assert_eq!(proof.evidence.as_ref(), Some(&evidence));
    assert_eq!(evidence.stdout_bytes, 13);
    assert_eq!(evidence.stderr_bytes, 0);
    assert_eq!(
        evidence.stdout_digest,
        blake3::hash(b"driven-proof\n").to_hex().to_string()
    );
}

#[test]
fn receipt_validation_rejects_empty_outcomes() {
    let claim = LaneClaim::new(
        LaneId::new(1).unwrap(),
        PassNumber::new(1).unwrap(),
        WorkerId::new("worker-outcome").unwrap(),
        "outcome proof",
    );
    let receipt = ProofReceipt::new(claim, "missing outcome").with_command(CommandProof::passed(
        "cargo fmt --check",
        VerificationClass::Small,
    ));

    let err = receipt.validate().unwrap_err();
    assert!(err.to_string().contains("outcome proof"));
}

#[test]
fn receipt_validation_rejects_verified_outcome_without_command_proof() {
    let claim = LaneClaim::new(
        LaneId::new(1).unwrap(),
        PassNumber::new(1).unwrap(),
        WorkerId::new("worker-empty-proof").unwrap(),
        "empty proof",
    );
    let receipt =
        ProofReceipt::new(claim, "no commands").with_outcome(OutcomeProof::verified("done"));

    let err = receipt.validate().unwrap_err();
    assert!(err.to_string().contains("command proof"));
}

#[test]
fn receipt_validation_rejects_skipped_command_with_verified_outcome() {
    let claim = LaneClaim::new(
        LaneId::new(1).unwrap(),
        PassNumber::new(1).unwrap(),
        WorkerId::new("worker-skipped").unwrap(),
        "skipped proof",
    );
    let receipt = ProofReceipt::new(claim, "skipped command")
        .with_command(CommandProof::new(
            "cargo fmt --check",
            VerificationClass::Small,
            CommandStatus::Skipped {
                reason: "formatting blocked by unrelated file".to_string(),
            },
        ))
        .with_outcome(OutcomeProof::verified("everything passed"));

    let err = receipt.validate().unwrap_err();
    assert!(err.to_string().contains("verified receipt"));
}

#[test]
fn receipt_validation_rejects_stale_receipt_id() {
    let claim = LaneClaim::new(
        LaneId::new(1).unwrap(),
        PassNumber::new(1).unwrap(),
        WorkerId::new("worker-stale").unwrap(),
        "receipt integrity",
    );
    let mut receipt = ProofReceipt::new(claim, "original summary")
        .with_command(CommandProof::passed(
            "cargo fmt --check",
            VerificationClass::Small,
        ))
        .with_outcome(OutcomeProof::verified("passed"));
    receipt.receipt_id = receipt.receipt_id().unwrap();
    receipt.summary = "tampered summary".to_string();

    let err = receipt.validate().unwrap_err();
    assert!(err.to_string().contains("receipt id"));
}

#[test]
fn receipt_validation_rejects_failed_small_command_before_heavy() {
    let claim = LaneClaim::new(
        LaneId::new(1).unwrap(),
        PassNumber::new(1).unwrap(),
        WorkerId::new("worker-small").unwrap(),
        "small-command-first",
    );
    let receipt = ProofReceipt::new(claim, "failed small")
        .with_command(CommandProof::new(
            "cargo fmt --check",
            VerificationClass::Small,
            CommandStatus::Failed { exit_code: 1 },
        ))
        .with_command(CommandProof::new(
            "cargo test --lib -j1",
            VerificationClass::Heavy,
            CommandStatus::Passed { exit_code: 0 },
        ))
        .with_outcome(OutcomeProof::partial("small command failed"));

    let err = receipt.validate().unwrap_err();
    assert!(err.to_string().contains("passed small command"));
}

#[test]
fn receipt_validation_rejects_verified_outcome_with_failed_command() {
    let claim = LaneClaim::new(
        LaneId::new(1).unwrap(),
        PassNumber::new(1).unwrap(),
        WorkerId::new("worker-failed").unwrap(),
        "verified honesty",
    );
    let receipt = ProofReceipt::new(claim, "failed command")
        .with_command(CommandProof::new(
            "cargo fmt --check",
            VerificationClass::Small,
            CommandStatus::Failed { exit_code: 1 },
        ))
        .with_outcome(OutcomeProof::verified("everything passed"));

    let err = receipt.validate().unwrap_err();
    assert!(err.to_string().contains("verified receipt"));
}

#[test]
fn lane_claim_rejects_subagent_on_different_lane_or_pass() {
    let claim = LaneClaim::new(
        LaneId::new(7).unwrap(),
        PassNumber::new(2).unwrap(),
        WorkerId::new("worker-parent").unwrap(),
        "subagent containment",
    )
    .with_subagent(SubagentDelegation::new(
        WorkerId::new("worker-child").unwrap(),
        LaneId::new(8).unwrap(),
        PassNumber::new(2).unwrap(),
        "review sibling lane",
    ));

    let err = claim.validate().unwrap_err();
    assert!(err.to_string().contains("subagent lane/pass"));
}

#[test]
fn handoff_rejects_receipt_from_different_claim() {
    let claim = LaneClaim::new(
        LaneId::new(1).unwrap(),
        PassNumber::new(1).unwrap(),
        WorkerId::new("worker-a").unwrap(),
        "handoff integrity",
    );
    let other_claim = LaneClaim::new(
        LaneId::new(2).unwrap(),
        PassNumber::new(1).unwrap(),
        WorkerId::new("worker-b").unwrap(),
        "handoff integrity",
    );
    let receipt = ProofReceipt::new(other_claim, "foreign receipt")
        .with_outcome(OutcomeProof::partial("not the same claim"));

    let err = claim.next_pass_handoff(receipt, "continue").unwrap_err();
    assert!(err.to_string().contains("receipt claim"));
}
