//! DX lane/pass strategy contracts: worker lane ownership, pass continuity,
//! subagent delegation, worktree metadata, proof receipts and next-pass
//! handoffs.

pub mod identity;
pub mod worktree;
pub mod detection;
pub mod evidence;
pub mod receipt;
pub mod handoff;
pub mod artifacts;
pub mod session;
pub mod orchestration;
pub mod store;
pub mod state_lock;
pub mod redaction;
pub mod receipt_render;

pub use identity::{
    derive_claim_token, ClaimId, ClaimStatus, ClaimToken, LaneClaim, LaneId, PassNumber,
    StateSessionId, SubagentDelegation, WorkerId, WorkerIdentity, WorkerKind, LANE_CLAIM_SCHEMA,
    MAX_LANES,
};
pub use evidence::{CommandEvidence, COMMAND_EVIDENCE_CAPTURED_BY};
pub use handoff::{NextPassHandoff, PassOutcome, LANE_HANDOFF_SCHEMA};
pub use receipt::{
    CommandProof, CommandStatus, FileProof, OutcomeProof, ProofReceipt, ReceiptFormat,
    VerificationClass, PROOF_RECEIPT_SCHEMA,
};
pub use worktree::{
    GitCheckoutKind, WorktreeCreationDecision, WorktreeIdentity, WorktreeIsolationMode,
    WorktreeIsolationPlan, WorktreeMetadata,
};
pub use detection::{detect_worktree_metadata, plan_worktree_isolation, GitProbe};
pub use orchestration::{
    LanePassAssignment, LanePassAssignmentStatus, LanePassConfig, LanePassStatePaths,
};
pub use session::LanePassSessionManifest;
pub use state_lock::LockMetadata;
pub use store::{LanePassSnapshot, LanePassStore, LanePassUpdate};
