//! What recording a verification command in a receipt computes: the limits
//! it runs under, the proof and outcome of what the command did, and
//! whether the claim it is recorded under still holds.

use vstd::prelude::*;

use crate::cli::strategy::StrategyCommand;
use crate::error::{agrees, validation, validation_owned, Result};
use crate::strategy::evidence::{evidence_rule, forward_slashes, COMMAND_EVIDENCE_CAPTURED_BY};
use crate::strategy::identity::{ClaimStatus, WorkerId};
use crate::strategy::orchestration::LanePassAssignment;
use crate::strategy::receipt::{
    canonical_receipt_id, observed_status, receipt_check, CommandProof, CommandStatus,
    OutcomeProof, ProofReceipt, VerificationClass,
};
use crate::strategy::store::{active_check, same_checkout, worker_message};
use crate::strategy::worktree::{identity_of, opt_view, WorktreeMetadata};
use crate::text::{concat2, concat3, decimal, is_blank, push_decimal, push_signed_decimal, signed_decimal};

verus! {

pub const DEFAULT_TIMEOUT_MS: u64 = 300000;

pub const DEFAULT_MAX_OUTPUT_BYTES: u64 = 1048576;

/// The limits under which a verification command is run.
#[derive(Debug, Clone, Copy, PartialEq, Eq, Structural)]
pub struct StrategyReceiptExecutionOptions {
    pub timeout_ms: u64,
    pub max_output_bytes: u64,
}

impl Default for StrategyReceiptExecutionOptions {
    /// Five minutes, and one MiB of output per stream.
    fn default() -> (r: Self)
        ensures
            r.timeout_ms == DEFAULT_TIMEOUT_MS,
            r.max_output_bytes == DEFAULT_MAX_OUTPUT_BYTES,
    {
        StrategyReceiptExecutionOptions {
            timeout_ms: DEFAULT_TIMEOUT_MS,
            max_output_bytes: DEFAULT_MAX_OUTPUT_BYTES,
        }
    }
}

pub open spec fn execution_check(o: StrategyReceiptExecutionOptions) -> Option<Seq<char>> {
    if o.timeout_ms == 0 {
        Some("receipt command timeout must be at least 1 ms"@)
    } else if o.max_output_bytes == 0 {
        Some("receipt command output limit must be at least 1 byte"@)
    } else {
        None
    }
}

impl StrategyReceiptExecutionOptions {
    pub fn with_timeout_ms(self, timeout_ms: u64) -> (r: Self)
        ensures
            r == (StrategyReceiptExecutionOptions { timeout_ms, ..self }),
    {
        StrategyReceiptExecutionOptions { timeout_ms, ..self }
    }

    pub fn with_max_output_bytes(self, max_output_bytes: u64) -> (r: Self)
        ensures
            r == (StrategyReceiptExecutionOptions { max_output_bytes, ..self }),
    {
        StrategyReceiptExecutionOptions { max_output_bytes, ..self }
    }

    /// Both limits must be at least one.
    pub fn validate(&self) -> (r: Result<()>)
        ensures
            agrees(r, execution_check(*self)),
    {
        if self.timeout_ms == 0 {
            return Err(validation("receipt command timeout must be at least 1 ms"));
        }
        if self.max_output_bytes == 0 {
            return Err(validation("receipt command output limit must be at least 1 byte"));
        }
        Ok(())
    }
}

/// How a captured command ended.
#[derive(Debug, Clone, Copy, PartialEq, Eq, Structural)]
pub enum CapturedCommandStatus {
    Exited { exit_code: i32 },
    TimedOut,
}

/// One output stream of a captured command, digested as it was read.
#[derive(Debug, PartialEq, Eq)]
pub struct CapturedStream {
    pub digest: String,
    pub bytes: u64,
    pub truncated: bool,
}

/// What running a command gave.
#[derive(Debug, PartialEq, Eq)]
pub struct CapturedCommand {
    pub status: CapturedCommandStatus,
    pub stdout: CapturedStream,
    pub stderr: CapturedStream,
    pub started_unix_seconds: u64,
    pub finished_unix_seconds: u64,
    pub duration_ms: u64,
}

/// The rule that the evidence of a command that exited breaks.
pub open spec fn captured_check(command: Seq<char>, cwd: Seq<char>, c: CapturedCommand) -> Option<
    Seq<char>,
> {
    let rule = evidence_rule(
        forward_slashes(cwd),
        c.started_unix_seconds,
        c.finished_unix_seconds,
        COMMAND_EVIDENCE_CAPTURED_BY@,
        c.stdout.truncated || c.stderr.truncated,
        true,
    );
    if rule is Some {
        rule
    } else if is_blank(command) {
        Some("command proof command cannot be empty"@)
    } else {
        None
    }
}

/// The proof of a command that exited with `exit_code`, with the evidence
/// of its capture.
pub open spec fn exited_proof(
    p: CommandProof,
    command: Seq<char>,
    class: VerificationClass,
    exit_code: i32,
    cwd: Seq<char>,
    c: CapturedCommand,
    limit: u64,
) -> bool {
    let e = p.evidence->Some_0;
    &&& p.command@ == command
    &&& p.class == class
    &&& p.status == observed_status(exit_code)
    &&& p.evidence is Some
    &&& e.cwd@ == forward_slashes(cwd)
    &&& e.stdout_digest@ == c.stdout.digest@
    &&& e.stderr_digest@ == c.stderr.digest@
    &&& e.stdout_bytes == c.stdout.bytes
    &&& e.stderr_bytes == c.stderr.bytes
    &&& e.stdout_truncated == c.stdout.truncated
    &&& e.stderr_truncated == c.stderr.truncated
    &&& e.output_limit_bytes == Some(limit)
    &&& e.duration_ms == Some(c.duration_ms)
    &&& e.started_unix_seconds == c.started_unix_seconds
    &&& e.finished_unix_seconds == c.finished_unix_seconds
}

/// What a receipt says of a command that exited: verified when it exited
/// with 0, partial otherwise, naming the command and its exit code.
pub open spec fn exited_outcome(o: OutcomeProof, command: Seq<char>, exit_code: i32) -> bool {
    if exit_code == 0 {
        o matches OutcomeProof::Verified { summary } && summary@ == command + " passed with exit code "@
            + signed_decimal(exit_code as int)
    } else {
        o matches OutcomeProof::Partial { summary } && summary@ == command + " failed with exit code "@
            + signed_decimal(exit_code as int)
    }
}

/// Why a command that timed out blocks the pass.
pub open spec fn timeout_reason(command: Seq<char>, timeout_ms: u64) -> Seq<char> {
    command + " timed out after "@ + decimal(timeout_ms as nat) + " ms"@
}

/// The proof and the outcome that a receipt records for a captured
/// command: for a command that exited, its observed status and evidence,
/// verified or partial; for one that timed out, blocked, with the reason.
pub fn receipt_command(
    command: &str,
    class: VerificationClass,
    captured: &CapturedCommand,
    cwd: &str,
    execution: &StrategyReceiptExecutionOptions,
) -> (r: Result<(CommandProof, OutcomeProof)>)
    ensures
        match captured.status {
            CapturedCommandStatus::Exited { exit_code } => {
                &&& agrees(r, captured_check(command@, cwd@, *captured))
                &&& r is Ok ==> exited_proof(
                    r->Ok_0.0,
                    command@,
                    class,
                    exit_code,
                    cwd@,
                    *captured,
                    execution.max_output_bytes,
                )
                &&& r is Ok ==> exited_outcome(r->Ok_0.1, command@, exit_code)
            },
            CapturedCommandStatus::TimedOut => {
                &&& r is Ok
                &&& r->Ok_0.0.command@ == command@
                &&& r->Ok_0.0.class == class
                &&& r->Ok_0.0.status matches CommandStatus::Blocked { reason } && reason@
                    == timeout_reason(command@, execution.timeout_ms)
                &&& r->Ok_0.0.evidence is None
                &&& r->Ok_0.1 matches OutcomeProof::Blocked { reason } && reason@ == timeout_reason(
                    command@,
                    execution.timeout_ms,
                )
            },
        },
{
    match captured.status {
        CapturedCommandStatus::Exited { exit_code } => {
            let proof = CommandProof::observed_captured(
                command,
                class,
                exit_code,
                cwd,
                captured.stdout.digest.as_str(),
                captured.stderr.digest.as_str(),
                captured.stdout.bytes,
                captured.stderr.bytes,
                captured.stdout.truncated,
                captured.stderr.truncated,
                execution.max_output_bytes,
                captured.duration_ms,
                captured.started_unix_seconds,
                captured.finished_unix_seconds,
            )?;
            let mut summary = String::from_str(command);
            if exit_code == 0 {
                summary.append(" passed with exit code ");
            } else {
                summary.append(" failed with exit code ");
            }
            push_signed_decimal(&mut summary, exit_code as i64);
            let outcome = if exit_code == 0 {
                OutcomeProof::Verified { summary }
            } else {
                OutcomeProof::Partial { summary }
            };
            Ok((proof, outcome))
        },
        CapturedCommandStatus::TimedOut => {
            let mut reason = concat2(command, " timed out after ");
            push_decimal(&mut reason, execution.timeout_ms);
            reason.append(" ms");
            let proof = CommandProof::new(
                command,
                class,
                CommandStatus::Blocked { reason: reason.clone() },
            );
            Ok((proof, OutcomeProof::Blocked { reason }))
        },
    }
}

/// Why a receipt written now would no longer belong to the claim it was
/// started under: the checkout changed, or the worker's active claim is
/// gone or is another one.
pub open spec fn stale_reason(
    worker: Seq<char>,
    started: LanePassAssignment,
    now: WorktreeMetadata,
    current: Option<LanePassAssignment>,
) -> Option<Seq<char>> {
    if !same_checkout(started.worktree, now) {
        Some(worker_message(worker, " worktree identity changed before receipt write"@))
    } else {
        match current {
            None => Some(worker_message(worker, " lane claim changed before receipt write"@)),
            Some(c) => if c.claim.status != ClaimStatus::Claimed || c.claim.token@
                != started.claim.token@ || c.lane@ != started.lane@ || c.pass@ != started.pass@ {
                Some(worker_message(worker, " lane claim changed before receipt write"@))
            } else if !same_checkout(c.worktree, started.worktree) {
                Some(worker_message(worker, " worktree identity changed before receipt write"@))
            } else {
                None
            },
        }
    }
}

impl StrategyCommand {
    /// The worker's assignment under which a command may be recorded: it
    /// must exist, be active, and belong to the checkout as it is now.
    pub fn active_assignment(
        worker_id: &WorkerId,
        current: Option<LanePassAssignment>,
        now: &WorktreeMetadata,
    ) -> (r: Result<LanePassAssignment>)
        ensures
            agrees(r, active_check(worker_id@, current, *now)),
            r is Ok ==> r->Ok_0 == current->Some_0,
    {
        let assignment = match current {
            None => {
                return Err(validation_owned(concat3("worker ", worker_id.as_str(), " has no lane claim")));
            },
            Some(a) => a,
        };
        if assignment.claim.status != ClaimStatus::Claimed {
            return Err(validation_owned(concat3("worker ", worker_id.as_str(), " lane claim is not active")));
        }
        if !assignment.worktree.has_same_identity(now) {
            return Err(validation("worktree identity changed since the active lane claim"));
        }
        Ok(assignment)
    }

    /// Whether the claim that a command was started under still holds,
    /// given the checkout and the worker's assignment as they are now (or
    /// the error that reading the assignment met).
    pub fn stale_receipt_reason(
        worker_id: &WorkerId,
        started: &LanePassAssignment,
        now: &WorktreeMetadata,
        current: Result<Option<LanePassAssignment>>,
    ) -> (r: Result<Option<String>>)
        ensures
            !same_checkout(started.worktree, *now) ==> r is Ok && r->Ok_0 is Some
                && r->Ok_0->Some_0@ == worker_message(
                worker_id@,
                " worktree identity changed before receipt write"@,
            ),
            same_checkout(started.worktree, *now) && current is Err ==> r is Err && r->Err_0
                == current->Err_0,
            same_checkout(started.worktree, *now) && current is Ok ==> r is Ok && opt_view(r->Ok_0)
                == stale_reason(worker_id@, *started, *now, current->Ok_0),
    {
        if !started.worktree.has_same_identity(now) {
            return Ok(Some(concat3("worker ", worker_id.as_str(), " worktree identity changed before receipt write")));
        }
        let current = match current {
            Err(e) => {
                return Err(e);
            },
            Ok(c) => c,
        };
        let changed = concat3("worker ", worker_id.as_str(), " lane claim changed before receipt write");
        let c = match &current {
            None => {
                return Ok(Some(changed));
            },
            Some(c) => c,
        };
        if c.claim.status != ClaimStatus::Claimed || !c.claim.token.same(&started.claim.token)
            || !c.lane.same(started.lane) || !c.pass.same(started.pass) {
            return Ok(Some(changed));
        }
        if !c.worktree.has_same_identity(&started.worktree) {
            return Ok(Some(concat3("worker ", worker_id.as_str(), " worktree identity changed before receipt write")));
        }
        Ok(None)
    }

    /// The receipt of a recorded command: made under the assignment's claim
    /// in its checkout, with the summary, the command and its outcome (or a
    /// blocked outcome where the claim went stale), and its canonical id.
    pub fn command_receipt(
        assignment: LanePassAssignment,
        summary: &str,
        command: CommandProof,
        outcome: OutcomeProof,
        stale: Option<String>,
    ) -> (r: Result<ProofReceipt>)
        ensures
            exists|unsealed: ProofReceipt|
                #![trigger receipt_check(unsealed)]
                {
                    &&& unsealed.claim == assignment.claim
                    &&& unsealed.worktree_identity == Some(identity_of(assignment.worktree))
                    &&& unsealed.summary@ == summary@
                    &&& unsealed.commands@ == seq![command]
                    &&& unsealed.outcomes@ == seq![
                        match stale {
                            Some(reason) => OutcomeProof::Blocked { reason },
                            None => outcome,
                        },
                    ]
                    &&& unsealed.files@.len() == 0
                    &&& unsealed.receipt_id@ == Seq::<char>::empty()
                    &&& !unsealed.redacted
                    &&& unsealed.redacted_payload_digest is None
                    &&& unsealed.schema@ == crate::strategy::receipt::PROOF_RECEIPT_SCHEMA@
                    &&& agrees(r, receipt_check(unsealed))
                    &&& r is Ok ==> r->Ok_0 == (ProofReceipt {
                        receipt_id: r->Ok_0.receipt_id,
                        ..unsealed
                    }) && r->Ok_0.receipt_id@ == canonical_receipt_id(unsealed)
                },
    {
        let outcome = match stale {
            Some(reason) => OutcomeProof::Blocked { reason },
            None => outcome,
        };
        let identity = assignment.worktree.identity();
        let mut receipt = ProofReceipt::new(assignment.claim, summary).with_worktree_identity(
            identity,
        ).with_command(command).with_outcome(outcome);
        let ghost unsealed = receipt;
        let id = receipt.receipt_id()?;
        receipt.receipt_id = id;
        Ok(receipt)
    }
}

} // verus!
