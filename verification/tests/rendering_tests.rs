use driven::strategy::receipt_render::escape_markdown_text;
use driven::strategy::redaction::redact_secrets;
use driven::strategy::{
    CommandProof, CommandStatus, FileProof, LaneClaim, LaneId, OutcomeProof, PassNumber,
    ProofReceipt, ReceiptFormat, SubagentDelegation, VerificationClass, WorkerId,
};

fn claim(lane: u8, worker: &str, scope: &str) -> LaneClaim {
    LaneClaim::new(
        LaneId::new(lane).unwrap(),
        PassNumber::new(1).unwrap(),
        WorkerId::new(worker).unwrap(),
        scope,
    )
}

#[test]
fn receipt_rendering_redacts_common_secrets() {
    let claim = claim(1, "worker-redact", "receipt redaction");
    let receipt = ProofReceipt::new(claim, "checked Authorization: Bearer secret-token")
        .with_command(CommandProof::passed(
            "OPENAI_API_KEY=sk-secret cargo test token=abc123",
            VerificationClass::Small,
        ))
        .with_file(FileProof::new(
            "src/strategy/receipt.rs",
            "removed password=hunter2 from proof output",
        ))
        .with_outcome(OutcomeProof::partial(
            "blocked by api_key=secret-value in local env",
        ));

    let json = receipt.render(ReceiptFormat::Json).unwrap();
    let markdown = receipt.render(ReceiptFormat::Markdown).unwrap();

    for rendered in [&json, &markdown] {
        assert!(!rendered.contains("secret-token"));
        assert!(!rendered.contains("sk-secret"));
        assert!(!rendered.contains("abc123"));
        assert!(!rendered.contains("hunter2"));
        assert!(!rendered.contains("secret-value"));
        assert!(rendered.contains("[REDACTED]"));
    }
}

#[test]
fn receipt_rendering_preserves_canonical_id_and_labels_redacted_digest() {
    let claim = claim(1, "worker-digest", "receipt digest token=scope-secret");
    let receipt = ProofReceipt::new(claim.clone(), "checked token=summary-secret")
        .with_command(CommandProof::passed(
            "TOKEN=visible token=command-secret cargo fmt --check",
            VerificationClass::Small,
        ))
        .with_outcome(OutcomeProof::verified("passed"));
    let canonical_id = receipt.receipt_id().unwrap();
    let handoff = claim
        .next_pass_handoff(receipt.clone(), "continue")
        .unwrap();

    let rendered_json = receipt.render(ReceiptFormat::Json).unwrap();
    let rendered = receipt.display_form().unwrap();
    let rendered_markdown = receipt.render(ReceiptFormat::Markdown).unwrap();

    assert_eq!(handoff.receipt_id, canonical_id);
    assert_eq!(rendered.receipt_id, canonical_id);
    assert!(rendered.redacted);
    assert!(rendered.redacted_payload_digest.is_some());
    assert_ne!(
        rendered.redacted_payload_digest.as_deref(),
        Some(canonical_id.as_str())
    );
    rendered.validate().unwrap();
    assert_eq!(rendered_json, format!("{}\n", rendered.to_json(true)));
    assert!(rendered_markdown.contains("Canonical receipt:"));
    assert!(rendered_markdown.contains("Redacted payload:"));
    assert!(!rendered_json.contains("summary-secret"));
    assert!(!rendered_json.contains("command-secret"));
}

#[test]
fn receipt_rendering_redacts_structured_secret_keys_and_auth_headers() {
    let claim = claim(1, "worker-structured-redaction", "scope");
    let receipt = ProofReceipt::new(
        claim,
        r#"checked {"api_key":"sk-live","client_secret": "client-secret-value"} refresh_token = refresh-value"#,
    )
    .with_command(CommandProof::new(
        r#"curl -H "Authorization: Basic abc123" --data "password : p@ss" https://example.test"#,
        VerificationClass::Small,
        CommandStatus::Skipped {
            reason: r#"blocked by access_token : access-value"#.to_string(),
        },
    ))
    .with_outcome(OutcomeProof::blocked(
        r#"waiting on {"token": "json-token"} and Authorization: Bearer bearer-value"#,
    ));

    let rendered = receipt.render(ReceiptFormat::Json).unwrap();

    for secret in [
        "sk-live",
        "client-secret-value",
        "refresh-value",
        "abc123",
        "p@ss",
        "access-value",
        "json-token",
        "bearer-value",
    ] {
        assert!(!rendered.contains(secret), "leaked secret: {secret}");
    }
    assert!(rendered.contains("[REDACTED]"));
}

#[test]
fn handoff_rejects_redacted_receipt() {
    let claim = claim(1, "worker-redacted-handoff", "handoff redaction");
    let receipt = ProofReceipt::new(claim.clone(), "contains token=secret")
        .with_command(CommandProof::passed(
            "cargo fmt --check token=secret",
            VerificationClass::Small,
        ))
        .with_outcome(OutcomeProof::partial("continue"));
    let redacted = receipt.display_form().unwrap();

    let err = claim
        .next_pass_handoff(redacted, "continue safely")
        .unwrap_err();

    assert!(err.to_string().contains("unredacted"));
}

#[test]
fn receipt_markdown_escapes_injected_headings() {
    let claim = claim(1, "worker-injection", "receipt injection\n## Forged Scope");
    let receipt = ProofReceipt::new(claim, "summary\n## Forged Summary | cell")
        .with_command(CommandProof::new(
            "cargo fmt --check",
            VerificationClass::Small,
            CommandStatus::Blocked {
                reason: "blocked\n## Forged Blocker | cell".to_string(),
            },
        ))
        .with_outcome(OutcomeProof::blocked("blocked\n## Forged Outcome | cell"));

    let markdown = receipt.render(ReceiptFormat::Markdown).unwrap();

    assert_eq!(markdown.matches("\n## Digest\n").count(), 1);
    assert!(!markdown.lines().any(|line| line == "## Forged Summary"));
    assert!(!markdown.lines().any(|line| line == "## Forged Blocker"));
    assert!(!markdown.lines().any(|line| line == "## Forged Outcome"));
    assert!(markdown.contains("summary<br>## Forged Summary \\| cell"));
    assert!(markdown.contains("blocked<br>## Forged Blocker \\| cell"));
}

#[test]
fn receipt_formats_are_deterministic_and_include_core_proof() {
    let claim = LaneClaim::new(
        LaneId::new(4).unwrap(),
        PassNumber::new(1).unwrap(),
        WorkerId::new("worker-json").unwrap(),
        "receipt serialization",
    );
    let receipt = ProofReceipt::new(claim, "serialization proof")
        .with_command(CommandProof::passed(
            "cargo fmt --check",
            VerificationClass::Small,
        ))
        .with_outcome(OutcomeProof::blocked("cargo cache is incomplete"));

    let json = receipt.render(ReceiptFormat::Json).unwrap();
    let markdown = receipt.render(ReceiptFormat::Markdown).unwrap();

    assert_eq!(json, receipt.render(ReceiptFormat::Json).unwrap());
    assert!(json.contains("\"lane\": 4"));
    assert!(json.contains("\"worker_id\": \"worker-json\""));
    assert!(markdown.contains("# DX Proof Receipt"));
    assert!(markdown.contains("cargo cache is incomplete"));
}

#[test]
fn lane_claim_rejects_deserialized_noncanonical_subagent_worker_id() {
    let mut claim = LaneClaim::new(
        LaneId::new(7).unwrap(),
        PassNumber::new(2).unwrap(),
        WorkerId::new("worker-parent").unwrap(),
        "subagent containment",
    )
    .with_subagent(SubagentDelegation::new(
        WorkerId::new("worker-child").unwrap(),
        LaneId::new(7).unwrap(),
        PassNumber::new(2).unwrap(),
        "review parent lane",
    ));
    claim.subagents[0].worker_id = WorkerId::from_persisted("Worker-Child".to_string());

    let err = claim.validate().unwrap_err();

    assert!(err.to_string().contains("subagent worker id"));
}

#[test]
fn redaction_masks_each_credential_form() {
    assert_eq!(
        redact_secrets("Authorization: Bearer abc.def"),
        "Authorization: Bearer [REDACTED]"
    );
    assert_eq!(redact_secrets("run --api-key=xyz now"), "run --api-key=[REDACTED] now");
    assert_eq!(redact_secrets("password=hunter2;"), "password=[REDACTED];");
    assert_eq!(redact_secrets("nothing to hide"), "nothing to hide");
}

#[test]
fn markdown_escape_replaces_line_breaks_and_cell_separators() {
    assert_eq!(escape_markdown_text("a\r\nb|c"), "a<br>b\\|c");
    assert_eq!(escape_markdown_text("plain"), "plain");
}

#[test]
fn persisted_handoff_is_masked_and_sealed() {
    let claim = claim(3, "worker-seal", "sealing");
    let receipt = ProofReceipt::new(claim.clone(), "summary token=hidden")
        .with_command(CommandProof::passed("cargo fmt --check", VerificationClass::Small))
        .with_outcome(OutcomeProof::partial("continue"));
    let mut handoff = claim
        .next_pass_handoff(receipt, "next token=also-hidden")
        .unwrap();
    handoff.worktree_identity = Some(driven::strategy::WorktreeIdentity {
        kind: driven::strategy::GitCheckoutKind::NotRepository,
        input_root: "/work".to_string(),
        worktree_root: None,
        git_dir: None,
        common_dir: None,
        superproject_root: None,
        branch: None,
        remote: None,
    });

    let stored = handoff.persisted_form().unwrap();

    assert!(stored.summary.contains("token=[REDACTED]"));
    assert!(!stored.next_action.contains("also-hidden"));
    let digest = stored.payload_digest.clone().unwrap();
    assert_eq!(digest.len(), 64);
    assert_eq!(digest, stored.computed_payload_digest());
    stored.validate_persisted().unwrap();
    assert!(handoff.validate_persisted().is_err());
}
