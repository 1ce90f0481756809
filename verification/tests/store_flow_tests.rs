use driven::strategy::{
    detect_worktree_metadata, ClaimStatus, CommandProof, CommandStatus, GitProbe, LaneId,
    LanePassAssignment, LanePassAssignmentStatus, LanePassConfig, LanePassSnapshot, LanePassStore,
    LanePassUpdate, NextPassHandoff, OutcomeProof, PassNumber, ProofReceipt, StateSessionId,
    VerificationClass, WorkerId, WorktreeIdentity, WorktreeMetadata,
};
use driven::DrivenError;

/// A lane/pass state directory held in memory: what the store's files
/// would hold, read and written the way the command-line driver does.
struct MemoryState {
    store: LanePassStore,
    last_lane: u8,
    claims: Vec<LanePassAssignment>,
    workers: Vec<LanePassAssignment>,
    receipts: Vec<(String, ProofReceipt)>,
    handoffs: Vec<(String, NextPassHandoff)>,
    session: StateSessionId,
    worktree: WorktreeMetadata,
}

fn checkout(root: &str) -> WorktreeMetadata {
    let e = "fatal: not a git repository".to_string();
    let probe = GitProbe {
        show_toplevel: Err(e.clone()),
        is_bare_repository: Err(e.clone()),
        git_dir: Err(e.clone()),
        git_common_dir: Err(e.clone()),
        superproject_working_tree: Err(e.clone()),
        abbrev_ref_head: Err(e.clone()),
        head: Err(e.clone()),
        remote_origin_url: Err(e.clone()),
        status_porcelain: Err(e.clone()),
        upstream_counts: Err(e),
    };
    detect_worktree_metadata(root, &probe)
}

impl MemoryState {
    fn new(config: LanePassConfig) -> MemoryState {
        MemoryState {
            store: LanePassStore::new(config).unwrap(),
            last_lane: 0,
            claims: Vec::new(),
            workers: Vec::new(),
            receipts: Vec::new(),
            handoffs: Vec::new(),
            session: StateSessionId::generate(&uuid::Uuid::new_v4().simple().to_string()),
            worktree: checkout("/work/project-a"),
        }
    }

    fn snapshot(&self) -> LanePassSnapshot {
        LanePassSnapshot {
            last_lane: self.last_lane,
            claims: self.claims.clone(),
            session: Ok(self.session.clone()),
            worktree: self.worktree.clone(),
        }
    }

    fn receipt_at(&self, path: &str) -> Result<ProofReceipt, DrivenError> {
        self.receipts
            .iter()
            .rev()
            .find(|(p, _)| p == path)
            .map(|(_, r)| r.clone())
            .ok_or_else(|| DrivenError::Io(format!("{} not found", path)))
    }

    fn current(&self, worker: &WorkerId) -> Result<Option<LanePassAssignment>, DrivenError> {
        let stored = self
            .workers
            .iter()
            .find(|a| a.worker_id.as_str() == worker.as_str())
            .cloned();
        let mut receipt_read = None;
        let mut handoff_read = None;
        if let Some(a) = &stored {
            if let Ok(Some(path)) = self.store.receipt_artifact_to_read(a) {
                receipt_read = Some(self.receipt_at(&path));
            }
            if let Ok(Some(path)) = self.store.handoff_artifact_to_read(a) {
                handoff_read = Some(
                    self.handoffs
                        .iter()
                        .rev()
                        .find(|(p, _)| p.as_str() == path.as_str())
                        .map(|(_, h)| Ok::<NextPassHandoff, DrivenError>(h.clone()))
                        .unwrap_or_else(|| Err(DrivenError::Io(format!("{} not found", path)))),
                );
            }
        }
        self.store.worker_assignment(
            worker,
            true,
            stored.map(Ok),
            &Ok(self.session.clone()),
            &receipt_read,
            &handoff_read,
        )
    }

    fn apply(&mut self, update: LanePassUpdate) -> Result<LanePassAssignment, DrivenError> {
        let assignment = update.assignment;
        if let Some(receipt) = update.receipt {
            self.receipts
                .push((assignment.receipt_path.clone().unwrap(), receipt));
        }
        if let Some(handoff) = update.handoff {
            self.handoffs
                .push((assignment.handoff_path.clone().unwrap(), handoff?));
        }
        if update.record {
            self.claims.push(assignment.clone());
            self.workers
                .retain(|a| a.worker_id.as_str() != assignment.worker_id.as_str());
            self.workers.push(assignment.clone());
            self.last_lane = assignment.lane.value();
        }
        Ok(assignment)
    }

    fn claim(&mut self, worker: WorkerId) -> Result<LanePassAssignment, DrivenError> {
        let current = self.current(&worker)?;
        let update = self.store.claim(worker, current, &self.snapshot())?;
        self.apply(update)
    }

    fn next_pass(&mut self, worker: &WorkerId) -> Result<LanePassAssignment, DrivenError> {
        let current = self.current(worker)?;
        let update = self.store.next_pass(worker, &current, &self.snapshot())?;
        self.apply(update)
    }

    fn next_pass_with_handoff(
        &mut self,
        worker: &WorkerId,
        receipt: &ProofReceipt,
        next_action: &str,
    ) -> Result<LanePassAssignment, DrivenError> {
        let current = self.current(worker)?;
        let update = self.store.next_pass_with_handoff(
            worker,
            &current,
            receipt.clone(),
            next_action,
            &self.snapshot(),
        )?;
        self.apply(update)
    }

    fn complete_pass_with_receipt(
        &mut self,
        worker: &WorkerId,
        receipt: &ProofReceipt,
    ) -> Result<LanePassAssignment, DrivenError> {
        let current = self.current(worker)?;
        let update = self.store.complete_pass_with_receipt(
            worker,
            true,
            &current,
            receipt.clone(),
            &self.snapshot(),
        )?;
        self.apply(update)
    }

    fn release_lane(&mut self, worker: &WorkerId) -> Result<LanePassAssignment, DrivenError> {
        let current = self.current(worker)?;
        let update = self.store.release_lane(worker, &current, &self.snapshot())?;
        self.apply(update)
    }
}

fn observed_small_command(command: &str) -> CommandProof {
    CommandProof::observed(
        command,
        VerificationClass::Small,
        0,
        "G:/Dx/driven",
        b"ok\n",
        b"",
        1_000,
        1_001,
    )
    .unwrap()
}

fn successful_receipt_for_assignment(assignment: &LanePassAssignment, summary: &str) -> ProofReceipt {
    let mut receipt = ProofReceipt::new(assignment.claim.clone(), summary)
        .with_worktree_identity(assignment.worktree.identity())
        .with_command(observed_small_command("cargo fmt --check"))
        .with_outcome(OutcomeProof::verified("small command passed"));
    receipt.receipt_id = receipt.receipt_id().unwrap();
    receipt
}

fn partial_receipt(assignment: &LanePassAssignment, summary: &str) -> ProofReceipt {
    let mut receipt = ProofReceipt::new(assignment.claim.clone(), summary)
        .with_worktree_identity(assignment.worktree.identity())
        .with_command(observed_small_command("cargo fmt --check"))
        .with_outcome(OutcomeProof::partial("continue in the next pass"));
    receipt.receipt_id = receipt.receipt_id().unwrap();
    receipt
}

fn config(max_lanes: u8, max_passes: u32) -> LanePassConfig {
    LanePassConfig::new("/tmp/run/state", "strategy engine")
        .with_max_lanes(max_lanes)
        .with_max_passes(max_passes)
}

#[test]
fn lane_pass_store_claims_first_lane_and_preserves_worker_lane_on_next_pass() {
    let mut state = MemoryState::new(config(30, 3));

    let first = state.claim(WorkerId::new("Worker.One").unwrap()).unwrap();
    let second = state.next_pass(&first.worker_id).unwrap();

    assert_eq!(first.lane, LaneId::new(1).unwrap());
    assert_eq!(first.pass, PassNumber::new(1).unwrap());
    assert_eq!(second.lane, first.lane);
    assert_eq!(second.pass, PassNumber::new(2).unwrap());
    assert!(first.paths.counter_path.starts_with("/tmp/run"));
    assert!(first.paths.claims_path.starts_with("/tmp/run"));
}

#[test]
fn lane_pass_store_advances_with_durable_handoff_receipt() {
    let mut state = MemoryState::new(config(30, 3));
    let first = state.claim(WorkerId::new("worker-handoff").unwrap()).unwrap();
    let receipt = partial_receipt(&first, "handoff proof");

    let advanced = state
        .next_pass_with_handoff(&first.worker_id, &receipt, "run targeted lane tests")
        .unwrap();

    assert_eq!(advanced.status, LanePassAssignmentStatus::Advanced);
    assert_eq!(advanced.lane, first.lane);
    assert_eq!(advanced.pass, PassNumber::new(2).unwrap());
    assert_eq!(
        advanced.receipt_id.as_deref(),
        Some(receipt.receipt_id.as_str())
    );
    let (_, stored_handoff) = state.handoffs.last().unwrap();
    stored_handoff.validate_against(&first.claim).unwrap();
    assert_eq!(stored_handoff.receipt_id, receipt.receipt_id);
    assert_eq!(stored_handoff.next_action, "run targeted lane tests");
    let stored_receipt = state
        .receipt_at(advanced.receipt_path.as_ref().unwrap())
        .unwrap();
    assert_eq!(stored_receipt.receipt_id, receipt.receipt_id);
    assert_eq!(
        advanced.handoff_path.as_deref(),
        Some(format!("/tmp/run/state/handoffs/{}.json", receipt.receipt_id).as_str())
    );
    let reread = state.current(&first.worker_id).unwrap().unwrap();
    assert_eq!(reread.pass, PassNumber::new(2).unwrap());
}

#[test]
fn lane_pass_store_redacts_secret_markers_in_persisted_handoff() {
    let mut state = MemoryState::new(LanePassConfig::new("/tmp/run/state", "strategy engine"));
    let first = state
        .claim(WorkerId::new("worker-handoff-redaction").unwrap())
        .unwrap();
    let receipt = partial_receipt(&first, "handoff token=summary-secret");

    state
        .next_pass_with_handoff(
            &first.worker_id,
            &receipt,
            "continue token=next-action-secret",
        )
        .unwrap();

    let handoff_json = state.handoffs.last().unwrap().1.to_json(true);
    assert!(!handoff_json.contains("summary-secret"));
    assert!(!handoff_json.contains("next-action-secret"));
    assert!(handoff_json.contains("token=[REDACTED]"));
}

#[test]
fn lane_pass_store_can_require_durable_handoff_for_next_pass() {
    let mut state = MemoryState::new(
        LanePassConfig::new("/tmp/run/state", "strategy engine")
            .with_handoff_required_for_next(true),
    );
    let first = state
        .claim(WorkerId::new("worker-strict-handoff").unwrap())
        .unwrap();

    let err = state.next_pass(&first.worker_id).unwrap_err();

    assert!(err.to_string().contains("durable handoff"));

    let receipt = partial_receipt(&first, "strict handoff proof");
    let advanced = state
        .next_pass_with_handoff(&first.worker_id, &receipt, "continue with pass 2")
        .unwrap();

    assert_eq!(advanced.status, LanePassAssignmentStatus::Advanced);
    assert_eq!(advanced.pass, PassNumber::new(2).unwrap());
}

#[test]
fn lane_pass_store_persists_handoff_worktree_identity() {
    let mut state = MemoryState::new(config(30, 3));
    let first = state
        .claim(WorkerId::new("worker-worktree-identity").unwrap())
        .unwrap();
    let receipt = partial_receipt(&first, "worktree handoff proof");

    state
        .next_pass_with_handoff(&first.worker_id, &receipt, "continue with same checkout")
        .unwrap();

    let (_, stored_handoff) = state.handoffs.last().unwrap();
    assert!(stored_handoff
        .worktree_identity
        .as_ref()
        .unwrap()
        .same(&WorktreeIdentity::from_metadata(&first.worktree)));
}

#[test]
fn lane_pass_store_rejects_worktree_identity_change_on_plain_next() {
    let mut state = MemoryState::new(config(30, 3));
    let first = state
        .claim(WorkerId::new("worker-plain-next-moved-root").unwrap())
        .unwrap();
    state.worktree = checkout("/work/project-b");

    let err = state.next_pass(&first.worker_id).unwrap_err();

    assert!(err.to_string().contains("worktree identity"));
    assert_eq!(state.current(&first.worker_id).unwrap().unwrap().pass, first.pass);
}

#[test]
fn lane_pass_store_claim_rejects_existing_active_claim_from_different_worktree() {
    let mut state = MemoryState::new(config(30, 3));
    let first = state
        .claim(WorkerId::new("worker-claim-moved-root").unwrap())
        .unwrap();
    state.worktree = checkout("/work/project-b");

    let err = state.claim(first.worker_id.clone()).unwrap_err();

    assert!(err.to_string().contains("worktree identity"));
    assert_eq!(
        state.current(&first.worker_id).unwrap().unwrap().claim.token,
        first.claim.token
    );
}

#[test]
fn lane_pass_store_rejects_blocked_handoff_advancement() {
    let mut state = MemoryState::new(LanePassConfig::new("/tmp/run/state", "strategy engine"));
    let first = state.claim(WorkerId::new("worker-blocked").unwrap()).unwrap();
    let mut receipt = ProofReceipt::new(first.claim.clone(), "blocked proof")
        .with_worktree_identity(first.worktree.identity())
        .with_command(CommandProof::new(
            "cargo fmt --check",
            VerificationClass::Small,
            CommandStatus::Blocked {
                reason: "waiting on isolated worktree".to_string(),
            },
        ))
        .with_outcome(OutcomeProof::blocked("waiting on isolated worktree"));
    receipt.receipt_id = receipt.receipt_id().unwrap();

    let err = state
        .next_pass_with_handoff(&first.worker_id, &receipt, "continue after blocker")
        .unwrap_err();

    assert!(err.to_string().contains("blocked handoff"));
}

#[test]
fn lane_pass_store_keeps_dot_and_underscore_worker_files_distinct() {
    let mut state = MemoryState::new(
        LanePassConfig::new("/tmp/run/state", "strategy engine").with_max_lanes(30),
    );

    let underscore = state.claim(WorkerId::new("worker_a").unwrap()).unwrap();
    let dotted = state.claim(WorkerId::new("worker.a").unwrap()).unwrap();

    assert_ne!(underscore.worker_id, dotted.worker_id);
    assert_ne!(underscore.lane, dotted.lane);
    assert_ne!(underscore.paths.worker_path, dotted.paths.worker_path);
}

#[test]
fn lane_pass_store_peek_does_not_create_state_files() {
    let state = MemoryState::new(LanePassConfig::new("/tmp/run/state", "strategy engine"));

    let peek = state.store.peek_next_claim(&state.snapshot()).unwrap();

    assert_eq!(peek.lane, LaneId::new(1).unwrap());
    assert_eq!(peek.pass, PassNumber::new(1).unwrap());
    assert_eq!(peek.status, LanePassAssignmentStatus::Peeked);
    assert_eq!(peek.worker_id.as_str(), "unclaimed");
    assert!(state.claims.is_empty());
}

#[test]
fn lane_pass_store_rejects_next_pass_after_max_pass() {
    let mut state = MemoryState::new(config(30, 1));

    let first = state.claim(WorkerId::new("worker-max").unwrap()).unwrap();
    let err = state.next_pass(&first.worker_id).unwrap_err();

    assert!(err.to_string().contains("max passes"));
    assert_eq!(
        err.message(),
        "worker worker-max reached max passes (1)"
    );
}

#[test]
fn lane_pass_store_does_not_cycle_into_active_lanes() {
    let mut state = MemoryState::new(
        LanePassConfig::new("/tmp/run/state", "strategy engine")
            .with_max_lanes(2)
            .with_lane_cycling(true),
    );

    state.claim(WorkerId::new("worker-one").unwrap()).unwrap();
    state.claim(WorkerId::new("worker-two").unwrap()).unwrap();
    let err = state.claim(WorkerId::new("worker-three").unwrap()).unwrap_err();

    assert!(err.to_string().contains("no released lane"));
}

#[test]
fn lane_pass_store_recycles_released_lane_when_cycling_is_enabled() {
    let mut state = MemoryState::new(
        LanePassConfig::new("/tmp/run/state", "strategy engine")
            .with_max_lanes(1)
            .with_lane_cycling(true),
    );

    let first = state.claim(WorkerId::new("worker-one").unwrap()).unwrap();
    let released = state.release_lane(&first.worker_id).unwrap();
    let second = state.claim(WorkerId::new("worker-two").unwrap()).unwrap();

    assert_eq!(released.claim.status, ClaimStatus::Released);
    assert_eq!(second.lane, LaneId::new(1).unwrap());
    assert_eq!(second.worker_id.as_str(), "worker-two");
}

#[test]
fn lane_pass_store_cycle_lanes_does_not_reclaim_different_worktree_lane() {
    let mut state = MemoryState::new(
        LanePassConfig::new("/tmp/run/state", "strategy engine")
            .with_max_lanes(1)
            .with_lane_cycling(true),
    );
    let first = state.claim(WorkerId::new("worker-one").unwrap()).unwrap();
    state.release_lane(&first.worker_id).unwrap();
    state.worktree = checkout("/work/project-b");

    let err = state.claim(WorkerId::new("worker-two").unwrap()).unwrap_err();

    assert!(err.to_string().contains("no released lane"));
}

#[test]
fn lane_pass_store_mints_new_claim_identity_when_recycling_lane_for_same_worker() {
    let mut state = MemoryState::new(
        LanePassConfig::new("/tmp/run/state", "strategy engine")
            .with_max_lanes(1)
            .with_lane_cycling(true),
    );

    let first = state.claim(WorkerId::new("worker-replay").unwrap()).unwrap();
    let stale_receipt = successful_receipt_for_assignment(&first, "old proof");
    state.release_lane(&first.worker_id).unwrap();
    let second = state.claim(WorkerId::new("worker-replay").unwrap()).unwrap();

    assert_eq!(second.lane, first.lane);
    assert_eq!(second.pass, first.pass);
    assert_eq!(second.worker_id, first.worker_id);
    assert_ne!(second.claim.claim_id, first.claim.claim_id);
    assert_ne!(second.claim.token, first.claim.token);

    let err = state
        .complete_pass_with_receipt(&second.worker_id, &stale_receipt)
        .unwrap_err();

    assert!(err.to_string().contains("receipt claim"));
}

#[test]
fn lane_pass_store_rejects_next_pass_after_release() {
    let mut state = MemoryState::new(LanePassConfig::new("/tmp/run/state", "strategy engine"));

    let first = state.claim(WorkerId::new("worker-release").unwrap()).unwrap();
    state.release_lane(&first.worker_id).unwrap();
    let err = state.next_pass(&first.worker_id).unwrap_err();

    assert!(err.to_string().contains("not active"));
}

#[test]
fn lane_pass_store_complete_pass_requires_receipt() {
    let mut state = MemoryState::new(LanePassConfig::new("/tmp/run/state", "proof completion"));
    let claim = state
        .claim(WorkerId::new("worker-proof-required").unwrap())
        .unwrap();

    let err = state.store.complete_pass(&claim.worker_id).unwrap_err();

    assert!(err.to_string().contains("proof receipt"));
}

#[test]
fn completing_a_pass_records_its_receipt() {
    let mut state = MemoryState::new(config(30, 3));
    let first = state.claim(WorkerId::new("worker-done").unwrap()).unwrap();
    let receipt = successful_receipt_for_assignment(&first, "all checks passed");

    let done = state
        .complete_pass_with_receipt(&first.worker_id, &receipt)
        .unwrap();

    assert_eq!(done.status, LanePassAssignmentStatus::Completed);
    assert_eq!(done.claim.status, ClaimStatus::Completed);
    assert_eq!(done.claim.claim_id, first.claim.claim_id);
    assert_eq!(done.lane, first.lane);
    assert_eq!(done.pass, first.pass);
    assert_eq!(
        done.receipt_path.as_deref(),
        Some(format!("/tmp/run/state/receipts/{}.json", receipt.receipt_id).as_str())
    );
    let reread = state.current(&first.worker_id).unwrap().unwrap();
    assert_eq!(reread.status, LanePassAssignmentStatus::Completed);
    let err = state.next_pass(&first.worker_id).unwrap_err();
    assert!(err.to_string().contains("not active"));
}

#[test]
fn claiming_twice_returns_the_active_assignment() {
    let mut state = MemoryState::new(config(30, 3));
    let first = state.claim(WorkerId::new("worker-again").unwrap()).unwrap();
    let recorded = state.claims.len();

    let again = state.claim(WorkerId::new("worker-again").unwrap()).unwrap();

    assert_eq!(again.claim.token, first.claim.token);
    assert_eq!(state.claims.len(), recorded);
    assert_eq!(first.claim.claim_id.as_str(), "claim-0000000000000001");
}

#[test]
fn lanes_beyond_the_limit_are_refused_without_cycling() {
    let mut state = MemoryState::new(config(1, 3));
    state.claim(WorkerId::new("worker-one").unwrap()).unwrap();

    let err = state.claim(WorkerId::new("worker-two").unwrap()).unwrap_err();

    assert_eq!(err.message(), "max lanes (1) reached");
}

#[test]
fn tampered_stored_assignment_is_refused_on_read() {
    let mut state = MemoryState::new(config(30, 3));
    let first = state.claim(WorkerId::new("worker-tamper").unwrap()).unwrap();
    state.workers[0].status = LanePassAssignmentStatus::Completed;

    let err = state.current(&first.worker_id).unwrap_err();

    assert!(err.to_string().contains("assignment status"));
}

#[test]
fn stored_receipt_outside_the_state_directory_is_refused() {
    let mut state = MemoryState::new(config(30, 3));
    let first = state.claim(WorkerId::new("worker-escape").unwrap()).unwrap();
    let receipt = successful_receipt_for_assignment(&first, "all checks passed");
    state
        .complete_pass_with_receipt(&first.worker_id, &receipt)
        .unwrap();
    state.workers[0].receipt_path = Some("/tmp/run/elsewhere/receipt.json".to_string());

    let err = state.current(&first.worker_id).unwrap_err();

    assert_eq!(
        err.message(),
        "receipt path must stay inside the lane state directory"
    );
}

#[test]
fn state_directory_that_climbs_out_is_refused() {
    let state = MemoryState::new(LanePassConfig::new("/tmp/run/../state", "strategy engine"));

    let err = state.store.peek_next_claim(&state.snapshot()).unwrap_err();

    assert_eq!(err.message(), "state dir cannot contain parent traversal");
}

#[test]
fn session_error_is_passed_on_when_claiming() {
    let state = MemoryState::new(config(30, 3));
    let worker = WorkerId::new("worker-session").unwrap();
    let mut snapshot = state.snapshot();
    snapshot.session = Err(DrivenError::Parse("failed to parse state session".to_string()));

    let current = state.current(&worker).unwrap();
    let err = match state.store.claim(worker, current, &snapshot) {
        Ok(_) => panic!("claim without a session must fail"),
        Err(e) => e,
    };

    assert_eq!(
        err,
        DrivenError::Parse("failed to parse state session".to_string())
    );
}

#[test]
fn lane_pass_store_rejects_cross_state_same_worktree_completion_replay() {
    let mut state_a = MemoryState::new(LanePassConfig::new("/tmp/run/state-a", "strategy engine"));
    let mut state_b = MemoryState::new(LanePassConfig::new("/tmp/run/state-b", "strategy engine"));
    let first = state_a
        .claim(WorkerId::new("worker-cross-state-replay").unwrap())
        .unwrap();
    let second = state_b
        .claim(WorkerId::new("worker-cross-state-replay").unwrap())
        .unwrap();
    let receipt = successful_receipt_for_assignment(&first, "state a proof");

    let err = state_b
        .complete_pass_with_receipt(&second.worker_id, &receipt)
        .unwrap_err();

    assert!(err.to_string().contains("state identity"));
    assert_eq!(
        state_b.current(&second.worker_id).unwrap().unwrap().status,
        LanePassAssignmentStatus::Claimed
    );
}

#[test]
fn lane_pass_store_rejects_missing_handoff_payload_digest_on_read() {
    let mut state = MemoryState::new(LanePassConfig::new("/tmp/run/state", "strategy engine"));
    let first = state
        .claim(WorkerId::new("worker-missing-handoff-digest").unwrap())
        .unwrap();
    let receipt = partial_receipt(&first, "handoff digest proof");
    state
        .next_pass_with_handoff(&first.worker_id, &receipt, "continue with valid artifacts")
        .unwrap();
    state.handoffs.last_mut().unwrap().1.payload_digest = None;

    let err = state.current(&first.worker_id).unwrap_err();

    assert!(err.to_string().contains("handoff payload digest"));
}

#[test]
fn lane_pass_store_rejects_tampered_handoff_summary_on_read() {
    let mut state = MemoryState::new(LanePassConfig::new("/tmp/run/state", "strategy engine"));
    let first = state
        .claim(WorkerId::new("worker-tampered-handoff-summary").unwrap())
        .unwrap();
    let receipt = partial_receipt(&first, "handoff semantic proof");
    state
        .next_pass_with_handoff(&first.worker_id, &receipt, "continue with valid artifacts")
        .unwrap();
    let stored = &mut state.handoffs.last_mut().unwrap().1;
    stored.summary = "tampered summary".to_string();
    stored.payload_digest = None;

    let err = state.current(&first.worker_id).unwrap_err();

    assert!(err.to_string().contains("stored handoff summary"));
}

#[test]
fn lane_pass_store_rejects_noncanonical_receipt_artifact_path_on_read() {
    let mut state = MemoryState::new(LanePassConfig::new("/tmp/run/state", "strategy engine"));
    let first = state
        .claim(WorkerId::new("worker-noncanonical-receipt").unwrap())
        .unwrap();
    let receipt = successful_receipt_for_assignment(&first, "completion proof");
    let completed = state
        .complete_pass_with_receipt(&first.worker_id, &receipt)
        .unwrap();
    let duplicate = "/tmp/run/state/receipts/duplicate-receipt.json".to_string();
    let copy = state.receipt_at(completed.receipt_path.as_ref().unwrap()).unwrap();
    state.receipts.push((duplicate.clone(), copy));
    state.workers[0].receipt_path = Some(duplicate);

    let err = state.current(&first.worker_id).unwrap_err();

    assert!(err.to_string().contains("canonical receipt path"));
}

#[test]
fn receipt_path_written_another_way_is_still_canonical() {
    let mut state = MemoryState::new(LanePassConfig::new("/tmp/run/state", "strategy engine"));
    let first = state
        .claim(WorkerId::new("worker-equivalent-path").unwrap())
        .unwrap();
    let receipt = successful_receipt_for_assignment(&first, "completion proof");
    state
        .complete_pass_with_receipt(&first.worker_id, &receipt)
        .unwrap();
    let spelled = format!("/tmp/run//state/./receipts/{}.json", receipt.receipt_id);
    let copy = state.receipt_at(state.workers[0].receipt_path.as_ref().unwrap()).unwrap();
    state.receipts.push((spelled.clone(), copy));
    state.workers[0].receipt_path = Some(spelled);

    let reread = state.current(&first.worker_id).unwrap().unwrap();

    assert_eq!(reread.status, LanePassAssignmentStatus::Completed);
}

#[test]
fn released_claim_keeps_lane_and_pass_and_refuses_further_changes() {
    let mut state = MemoryState::new(config(30, 3));
    let first = state.claim(WorkerId::new("worker-closed").unwrap()).unwrap();

    let released = state.release_lane(&first.worker_id).unwrap();

    assert_eq!(released.status, LanePassAssignmentStatus::Released);
    assert_eq!(released.claim.status, ClaimStatus::Released);
    assert_eq!(released.lane, first.lane);
    assert_eq!(released.pass, first.pass);
    assert_eq!(released.claim.claim_id, first.claim.claim_id);
    let err = state.release_lane(&first.worker_id).unwrap_err();
    assert!(err.to_string().contains("not active"));
}
