//! Proof receipts: what was run, touched and concluded in one lane/pass,
//! with the rules that make a receipt trustworthy and its canonical digest.

use vstd::prelude::*;
use vstd::utf8::encode_utf8;

use crate::digest::{blake3_hex, blake3_hex_of_str, is_digest_text};
use crate::error::{agrees, validation, validation_owned, DrivenError, Result};
use crate::json::{
    entries_view, jarray, jbool, jint, jobject, jstr, json_bool, json_signed, json_string, member,
    render_array, render_object, strings_view,
};
use crate::strategy::evidence::{
    evidence_check, evidence_from_streams, evidence_members, evidence_rule, forward_slashes,
    normalize_slashes, CommandEvidence, COMMAND_EVIDENCE_CAPTURED_BY,
};
use crate::strategy::identity::{claim_check, claim_json, LaneClaim};
use crate::strategy::worktree::{
    identity_json, identity_key, opt_view, WorktreeIdentity,
};
use crate::text::{concat2, is_blank, is_blank_str, str_eq};

verus! {

pub const PROOF_RECEIPT_SCHEMA: &'static str = "driven.proof_receipt.v1";

#[derive(Debug, Clone, Copy, PartialEq, Eq, Structural)]
pub enum ReceiptFormat {
    Json,
    Markdown,
}

#[derive(Debug, Clone, Copy, PartialEq, Eq, Structural)]
pub enum VerificationClass {
    Small,
    Targeted,
    Heavy,
}

#[derive(Debug, PartialEq, Eq)]
pub enum CommandStatus {
    Passed { exit_code: i32 },
    Failed { exit_code: i32 },
    Skipped { reason: String },
    Blocked { reason: String },
    NotRun,
}

impl Clone for CommandStatus {
    fn clone(&self) -> (r: Self)
        ensures
            r == *self,
    {
        match self {
            CommandStatus::Passed { exit_code } => CommandStatus::Passed { exit_code: *exit_code },
            CommandStatus::Failed { exit_code } => CommandStatus::Failed { exit_code: *exit_code },
            CommandStatus::Skipped { reason } => CommandStatus::Skipped { reason: reason.clone() },
            CommandStatus::Blocked { reason } => CommandStatus::Blocked { reason: reason.clone() },
            CommandStatus::NotRun => CommandStatus::NotRun,
        }
    }
}

pub open spec fn status_check(s: CommandStatus) -> Option<Seq<char>> {
    match s {
        CommandStatus::Passed { exit_code } => if exit_code == 0 {
            None
        } else {
            Some("passed command proof must use exit code 0"@)
        },
        CommandStatus::Failed { exit_code } => if exit_code != 0 {
            None
        } else {
            Some("failed command proof must use a non-zero exit code"@)
        },
        CommandStatus::Skipped { reason } => if is_blank(reason@) {
            Some("skipped or blocked command proof requires a reason"@)
        } else {
            None
        },
        CommandStatus::Blocked { reason } => if is_blank(reason@) {
            Some("skipped or blocked command proof requires a reason"@)
        } else {
            None
        },
        CommandStatus::NotRun => None,
    }
}

/// A status that forbids calling the receipt verified.
pub open spec fn prevents_verified(s: CommandStatus) -> bool {
    !(s is Passed)
}

pub open spec fn passed_with_zero(s: CommandStatus) -> bool {
    s matches CommandStatus::Passed { exit_code } && exit_code == 0
}

impl CommandStatus {
    pub fn validate(&self) -> (r: Result<()>)
        ensures
            agrees(r, status_check(*self)),
    {
        match self {
            CommandStatus::Passed { exit_code } => if *exit_code == 0 {
                Ok(())
            } else {
                Err(validation("passed command proof must use exit code 0"))
            },
            CommandStatus::Failed { exit_code } => if *exit_code != 0 {
                Ok(())
            } else {
                Err(validation("failed command proof must use a non-zero exit code"))
            },
            CommandStatus::Skipped { reason } | CommandStatus::Blocked { reason } => {
                if is_blank_str(reason.as_str()) {
                    Err(validation("skipped or blocked command proof requires a reason"))
                } else {
                    Ok(())
                }
            },
            CommandStatus::NotRun => Ok(()),
        }
    }

    pub fn prevents_verified_outcome(&self) -> (r: bool)
        ensures
            r == prevents_verified(*self),
    {
        match self {
            CommandStatus::Passed { .. } => false,
            _ => true,
        }
    }

    fn is_passed_zero(&self) -> (r: bool)
        ensures
            r == passed_with_zero(*self),
    {
        match self {
            CommandStatus::Passed { exit_code } => *exit_code == 0,
            _ => false,
        }
    }
}

// ---------------------------------------------------------------------------
// Command proofs
// ---------------------------------------------------------------------------

#[derive(Debug, PartialEq, Eq)]
pub struct CommandProof {
    pub command: String,
    pub class: VerificationClass,
    pub status: CommandStatus,
    pub evidence: Option<CommandEvidence>,
}

impl Clone for CommandProof {
    fn clone(&self) -> (r: Self)
        ensures
            r == *self,
    {
        CommandProof {
            command: self.command.clone(),
            class: self.class,
            status: self.status.clone(),
            evidence: match &self.evidence {
                Some(e) => Some(e.clone()),
                None => None,
            },
        }
    }
}

pub open spec fn command_check(c: CommandProof) -> Option<Seq<char>> {
    if is_blank(c.command@) {
        Some("command proof command cannot be empty"@)
    } else if c.evidence is Some && !(c.status is Passed || c.status is Failed) {
        Some("command evidence can only be attached to passed or failed commands"@)
    } else if c.evidence is Some && evidence_check(c.evidence->Some_0) is Some {
        evidence_check(c.evidence->Some_0)
    } else {
        status_check(c.status)
    }
}

pub open spec fn is_successful_small(c: CommandProof) -> bool {
    c.class == VerificationClass::Small && passed_with_zero(c.status)
}

/// The status an observed exit code gives: passed for 0, failed otherwise.
pub open spec fn observed_status(exit_code: i32) -> CommandStatus {
    if exit_code == 0 {
        CommandStatus::Passed { exit_code }
    } else {
        CommandStatus::Failed { exit_code }
    }
}

impl CommandProof {
    pub fn new(command: &str, class: VerificationClass, status: CommandStatus) -> (r: Self)
        ensures
            r.command@ == command@,
            r.class == class,
            r.status == status,
            r.evidence is None,
    {
        CommandProof { command: String::from_str(command), class, status, evidence: None }
    }

    pub fn passed(command: &str, class: VerificationClass) -> (r: Self)
        ensures
            r.command@ == command@,
            r.class == class,
            r.status == (CommandStatus::Passed { exit_code: 0 }),
            r.evidence is None,
    {
        CommandProof::new(command, class, CommandStatus::Passed { exit_code: 0 })
    }

    /// A command observed with full output streams; the exit code decides
    /// between passed and failed.
    pub fn observed(
        command: &str,
        class: VerificationClass,
        exit_code: i32,
        cwd: &str,
        stdout: &[u8],
        stderr: &[u8],
        started_unix_seconds: u64,
        finished_unix_seconds: u64,
    ) -> (r: Result<Self>)
        ensures
            agrees(
                r,
                if evidence_rule(
                    forward_slashes(cwd@),
                    started_unix_seconds,
                    finished_unix_seconds,
                    COMMAND_EVIDENCE_CAPTURED_BY@,
                    false,
                    false,
                ) is Some {
                    evidence_rule(
                        forward_slashes(cwd@),
                        started_unix_seconds,
                        finished_unix_seconds,
                        COMMAND_EVIDENCE_CAPTURED_BY@,
                        false,
                        false,
                    )
                } else if is_blank(command@) {
                    Some("command proof command cannot be empty"@)
                } else {
                    None
                },
            ),
            r is Ok ==> ({
                let p = r->Ok_0;
                &&& p.command@ == command@
                &&& p.class == class
                &&& p.status == observed_status(exit_code)
                &&& p.evidence is Some
                &&& evidence_from_streams(
                    p.evidence->Some_0,
                    cwd@,
                    stdout@,
                    stderr@,
                    started_unix_seconds,
                    finished_unix_seconds,
                )
            }),
    {
        let status = if exit_code == 0 {
            CommandStatus::Passed { exit_code }
        } else {
            CommandStatus::Failed { exit_code }
        };
        let evidence = CommandEvidence::from_streams(
            cwd,
            stdout,
            stderr,
            started_unix_seconds,
            finished_unix_seconds,
        )?;
        let proof = CommandProof {
            command: String::from_str(command),
            class,
            status,
            evidence: Some(evidence),
        };
        proof.validate()?;
        Ok(proof)
    }

    /// A command observed with streams digested while they were read.
    pub fn observed_captured(
        command: &str,
        class: VerificationClass,
        exit_code: i32,
        cwd: &str,
        stdout_digest: &str,
        stderr_digest: &str,
        stdout_bytes: u64,
        stderr_bytes: u64,
        stdout_truncated: bool,
        stderr_truncated: bool,
        output_limit_bytes: u64,
        duration_ms: u64,
        started_unix_seconds: u64,
        finished_unix_seconds: u64,
    ) -> (r: Result<Self>)
        ensures
            agrees(
                r,
                if evidence_rule(
                    forward_slashes(cwd@),
                    started_unix_seconds,
                    finished_unix_seconds,
                    COMMAND_EVIDENCE_CAPTURED_BY@,
                    stdout_truncated || stderr_truncated,
                    true,
                ) is Some {
                    evidence_rule(
                        forward_slashes(cwd@),
                        started_unix_seconds,
                        finished_unix_seconds,
                        COMMAND_EVIDENCE_CAPTURED_BY@,
                        stdout_truncated || stderr_truncated,
                        true,
                    )
                } else if is_blank(command@) {
                    Some("command proof command cannot be empty"@)
                } else {
                    None
                },
            ),
            r is Ok ==> ({
                let p = r->Ok_0;
                let e = p.evidence->Some_0;
                &&& p.command@ == command@
                &&& p.class == class
                &&& p.status == observed_status(exit_code)
                &&& p.evidence is Some
                &&& e.cwd@ == forward_slashes(cwd@)
                &&& e.stdout_digest@ == stdout_digest@
                &&& e.stderr_digest@ == stderr_digest@
                &&& e.stdout_bytes == stdout_bytes
                &&& e.stderr_bytes == stderr_bytes
                &&& e.stdout_truncated == stdout_truncated
                &&& e.stderr_truncated == stderr_truncated
                &&& e.output_limit_bytes == Some(output_limit_bytes)
                &&& e.duration_ms == Some(duration_ms)
                &&& e.started_unix_seconds == started_unix_seconds
                &&& e.finished_unix_seconds == finished_unix_seconds
            }),
    {
        let status = if exit_code == 0 {
            CommandStatus::Passed { exit_code }
        } else {
            CommandStatus::Failed { exit_code }
        };
        let evidence = CommandEvidence::from_captured_streams(
            cwd,
            stdout_digest,
            stderr_digest,
            stdout_bytes,
            stderr_bytes,
            stdout_truncated,
            stderr_truncated,
            output_limit_bytes,
            duration_ms,
            started_unix_seconds,
            finished_unix_seconds,
        )?;
        let proof = CommandProof {
            command: String::from_str(command),
            class,
            status,
            evidence: Some(evidence),
        };
        proof.validate()?;
        Ok(proof)
    }

    pub fn validate(&self) -> (r: Result<()>)
        ensures
            agrees(r, command_check(*self)),
    {
        if is_blank_str(self.command.as_str()) {
            return Err(validation("command proof command cannot be empty"));
        }
        if let Some(evidence) = &self.evidence {
            let attachable = match self.status {
                CommandStatus::Passed { .. } | CommandStatus::Failed { .. } => true,
                _ => false,
            };
            if !attachable {
                return Err(
                    validation("command evidence can only be attached to passed or failed commands"),
                );
            }
            evidence.validate()?;
        }
        self.status.validate()
    }

    pub fn is_successful_small(&self) -> (r: bool)
        ensures
            r == is_successful_small(*self),
    {
        self.class == VerificationClass::Small && self.status.is_passed_zero()
    }

    /// The blocker a blocked command stands for.
    pub fn blocker(&self) -> (r: Option<String>)
        ensures
            r matches Some(b) ==> self.status is Blocked && b@ == command_blocker(*self)->Some_0,
            r is None ==> command_blocker(*self) is None,
    {
        match &self.status {
            CommandStatus::Blocked { reason } => Some(concat2("command blocked: ", reason.as_str())),
            _ => None,
        }
    }
}

pub open spec fn command_blocker(c: CommandProof) -> Option<Seq<char>> {
    match c.status {
        CommandStatus::Blocked { reason } => Some("command blocked: "@ + reason@),
        _ => None,
    }
}

// ---------------------------------------------------------------------------
// File proofs
// ---------------------------------------------------------------------------

#[derive(Debug, PartialEq, Eq)]
pub struct FileProof {
    pub path: String,
    pub purpose: String,
}

impl Clone for FileProof {
    fn clone(&self) -> (r: Self)
        ensures
            r == *self,
    {
        FileProof { path: self.path.clone(), purpose: self.purpose.clone() }
    }
}

pub open spec fn file_check(f: FileProof) -> Option<Seq<char>> {
    if is_blank(f.path@) {
        Some("file proof path cannot be empty"@)
    } else if is_blank(f.purpose@) {
        Some("file proof purpose cannot be empty"@)
    } else {
        None
    }
}

impl FileProof {
    /// A file proof; the path is written with forward slashes.
    pub fn new(path: &str, purpose: &str) -> (r: Self)
        ensures
            r.path@ == forward_slashes(path@),
            r.purpose@ == purpose@,
    {
        FileProof { path: normalize_slashes(path), purpose: String::from_str(purpose) }
    }

    pub fn validate(&self) -> (r: Result<()>)
        ensures
            agrees(r, file_check(*self)),
    {
        if is_blank_str(self.path.as_str()) {
            return Err(validation("file proof path cannot be empty"));
        }
        if is_blank_str(self.purpose.as_str()) {
            return Err(validation("file proof purpose cannot be empty"));
        }
        Ok(())
    }
}

// ---------------------------------------------------------------------------
// Outcome proofs
// ---------------------------------------------------------------------------

#[derive(Debug, PartialEq, Eq)]
pub enum OutcomeProof {
    Verified { summary: String },
    Partial { summary: String },
    Blocked { reason: String },
}

impl Clone for OutcomeProof {
    fn clone(&self) -> (r: Self)
        ensures
            r == *self,
    {
        match self {
            OutcomeProof::Verified { summary } => OutcomeProof::Verified { summary: summary.clone() },
            OutcomeProof::Partial { summary } => OutcomeProof::Partial { summary: summary.clone() },
            OutcomeProof::Blocked { reason } => OutcomeProof::Blocked { reason: reason.clone() },
        }
    }
}

pub open spec fn outcome_text(o: OutcomeProof) -> Seq<char> {
    match o {
        OutcomeProof::Verified { summary } => summary@,
        OutcomeProof::Partial { summary } => summary@,
        OutcomeProof::Blocked { reason } => reason@,
    }
}

pub open spec fn outcome_check(o: OutcomeProof) -> Option<Seq<char>> {
    if is_blank(outcome_text(o)) {
        Some("outcome proof text cannot be empty"@)
    } else {
        None
    }
}

pub open spec fn outcome_blocker(o: OutcomeProof) -> Option<Seq<char>> {
    match o {
        OutcomeProof::Blocked { reason } => Some(reason@),
        _ => None,
    }
}

impl OutcomeProof {
    pub fn verified(summary: &str) -> (r: Self)
        ensures
            r matches OutcomeProof::Verified { summary: s } && s@ == summary@,
    {
        OutcomeProof::Verified { summary: String::from_str(summary) }
    }

    pub fn partial(summary: &str) -> (r: Self)
        ensures
            r matches OutcomeProof::Partial { summary: s } && s@ == summary@,
    {
        OutcomeProof::Partial { summary: String::from_str(summary) }
    }

    pub fn blocked(reason: &str) -> (r: Self)
        ensures
            r matches OutcomeProof::Blocked { reason: s } && s@ == reason@,
    {
        OutcomeProof::Blocked { reason: String::from_str(reason) }
    }

    pub fn validate(&self) -> (r: Result<()>)
        ensures
            agrees(r, outcome_check(*self)),
    {
        let text = match self {
            OutcomeProof::Verified { summary } | OutcomeProof::Partial { summary } => summary,
            OutcomeProof::Blocked { reason } => reason,
        };
        if is_blank_str(text.as_str()) {
            return Err(validation("outcome proof text cannot be empty"));
        }
        Ok(())
    }

    pub fn blocker(&self) -> (r: Option<String>)
        ensures
            r matches Some(b) ==> outcome_blocker(*self) == Some(b@),
            r is None ==> outcome_blocker(*self) is None,
    {
        match self {
            OutcomeProof::Blocked { reason } => Some(reason.clone()),
            _ => None,
        }
    }
}

// ---------------------------------------------------------------------------
// Collections of proofs
// ---------------------------------------------------------------------------

pub open spec fn commands_check(cs: Seq<CommandProof>) -> Option<Seq<char>>
    decreases cs.len(),
{
    if cs.len() == 0 {
        None
    } else if command_check(cs[0]) is Some {
        command_check(cs[0])
    } else {
        commands_check(cs.drop_first())
    }
}

pub open spec fn files_check(fs: Seq<FileProof>) -> Option<Seq<char>>
    decreases fs.len(),
{
    if fs.len() == 0 {
        None
    } else if file_check(fs[0]) is Some {
        file_check(fs[0])
    } else {
        files_check(fs.drop_first())
    }
}

pub open spec fn outcomes_check(os: Seq<OutcomeProof>) -> Option<Seq<char>>
    decreases os.len(),
{
    if os.len() == 0 {
        None
    } else if outcome_check(os[0]) is Some {
        outcome_check(os[0])
    } else {
        outcomes_check(os.drop_first())
    }
}

/// Small commands come first: no targeted or heavy command before a small
/// command has passed.
pub open spec fn small_first(cs: Seq<CommandProof>, has_passed_small: bool) -> bool
    decreases cs.len(),
{
    if cs.len() == 0 {
        true
    } else if cs[0].class == VerificationClass::Small {
        small_first(cs.drop_first(), has_passed_small || is_successful_small(cs[0]))
    } else {
        has_passed_small && small_first(cs.drop_first(), has_passed_small)
    }
}

pub open spec fn has_verified_outcome(os: Seq<OutcomeProof>) -> bool {
    exists|i: int| 0 <= i < os.len() && (#[trigger] os[i]) is Verified
}

pub open spec fn has_blocked_outcome(os: Seq<OutcomeProof>) -> bool {
    exists|i: int| 0 <= i < os.len() && (#[trigger] os[i]) is Blocked
}

pub open spec fn all_verified_outcomes(os: Seq<OutcomeProof>) -> bool {
    forall|i: int| 0 <= i < os.len() ==> (#[trigger] os[i]) is Verified
}

pub open spec fn has_passed_command(cs: Seq<CommandProof>) -> bool {
    exists|i: int| 0 <= i < cs.len() && passed_with_zero((#[trigger] cs[i]).status)
}

pub open spec fn has_preventing_command(cs: Seq<CommandProof>) -> bool {
    exists|i: int| 0 <= i < cs.len() && prevents_verified((#[trigger] cs[i]).status)
}

pub open spec fn has_blocked_command(cs: Seq<CommandProof>) -> bool {
    exists|i: int| 0 <= i < cs.len() && (#[trigger] cs[i]).status is Blocked
}

pub open spec fn all_have_evidence(cs: Seq<CommandProof>) -> bool {
    forall|i: int| 0 <= i < cs.len() ==> (#[trigger] cs[i]).evidence is Some
}

pub open spec fn command_blockers(cs: Seq<CommandProof>) -> Seq<Seq<char>>
    decreases cs.len(),
{
    if cs.len() == 0 {
        Seq::empty()
    } else {
        command_blockers(cs.drop_last()) + match command_blocker(cs.last()) {
            Some(b) => seq![b],
            None => Seq::empty(),
        }
    }
}

pub open spec fn outcome_blockers(os: Seq<OutcomeProof>) -> Seq<Seq<char>>
    decreases os.len(),
{
    if os.len() == 0 {
        Seq::empty()
    } else {
        outcome_blockers(os.drop_last()) + match outcome_blocker(os.last()) {
            Some(b) => seq![b],
            None => Seq::empty(),
        }
    }
}

// ---------------------------------------------------------------------------
// Proof receipts
// ---------------------------------------------------------------------------

#[derive(Debug, PartialEq, Eq)]
pub struct ProofReceipt {
    pub schema: String,
    pub receipt_id: String,
    pub redacted: bool,
    pub redacted_payload_digest: Option<String>,
    pub claim: LaneClaim,
    pub worktree_identity: Option<WorktreeIdentity>,
    pub summary: String,
    pub commands: Vec<CommandProof>,
    pub files: Vec<FileProof>,
    pub outcomes: Vec<OutcomeProof>,
}

pub open spec fn receipt_blockers(r: ProofReceipt) -> Seq<Seq<char>> {
    command_blockers(r.commands@) + outcome_blockers(r.outcomes@)
}

/// The JSON members of a receipt in which the receipt id, the redaction flag
/// and the redacted payload digest are given separately.
pub open spec fn receipt_members_with(
    r: ProofReceipt,
    receipt_id: Seq<char>,
    redacted: bool,
    digest: Option<Seq<char>>,
    pretty: bool,
    level: nat,
) -> Seq<(Seq<char>, Seq<char>)> {
    seq![("schema"@, jstr(r.schema@)), ("receipt_id"@, jstr(receipt_id)), ("redacted"@, jbool(redacted))]
        + match digest {
        Some(d) => seq![("redacted_payload_digest"@, jstr(d))],
        None => Seq::empty(),
    } + seq![("claim"@, claim_json(r.claim, pretty, level + 1))] + match r.worktree_identity {
        Some(i) => seq![("worktree_identity"@, identity_json(i, pretty, level + 1))],
        None => Seq::empty(),
    } + seq![
        ("summary"@, jstr(r.summary@)),
        ("commands"@, commands_json(r.commands@, pretty, level + 1)),
        ("files"@, files_json(r.files@, pretty, level + 1)),
        ("outcomes"@, outcomes_json(r.outcomes@, pretty, level + 1)),
    ]
}

pub open spec fn receipt_json_with(
    r: ProofReceipt,
    receipt_id: Seq<char>,
    redacted: bool,
    digest: Option<Seq<char>>,
    pretty: bool,
    level: nat,
) -> Seq<char> {
    jobject(receipt_members_with(r, receipt_id, redacted, digest, pretty, level), pretty, level)
}

/// The receipt as JSON, as it stands.
pub open spec fn receipt_json(r: ProofReceipt, pretty: bool, level: nat) -> Seq<char> {
    receipt_json_with(r, r.receipt_id@, r.redacted, opt_view(r.redacted_payload_digest), pretty, level)
}

/// The canonical receipt id: the digest of the compact JSON of the receipt
/// with an empty id, not redacted, and no redacted payload digest.
pub open spec fn canonical_receipt_id(r: ProofReceipt) -> Seq<char> {
    blake3_hex(encode_utf8(receipt_json_with(r, Seq::empty(), false, None, false, 0)))
}

/// The digest of a rendered payload: as the canonical id, but keeping the
/// redaction flag.
pub open spec fn rendered_payload_digest(r: ProofReceipt) -> Seq<char> {
    blake3_hex(encode_utf8(receipt_json_with(r, Seq::empty(), r.redacted, None, false, 0)))
}

/// The first rule that a receipt breaks, in the order `validate` checks them.
pub open spec fn receipt_check(r: ProofReceipt) -> Option<Seq<char>> {
    if claim_check(r.claim) is Some {
        claim_check(r.claim)
    } else if r.schema@ != PROOF_RECEIPT_SCHEMA@ {
        Some("proof receipt schema must be "@ + PROOF_RECEIPT_SCHEMA@)
    } else if is_blank(r.summary@) {
        Some("receipt summary cannot be empty"@)
    } else if r.redacted && opt_view(r.redacted_payload_digest) != Some(rendered_payload_digest(r)) {
        Some("redacted receipt digest does not match rendered payload"@)
    } else if !r.redacted && !is_blank(r.receipt_id@) && r.receipt_id@ != canonical_receipt_id(r) {
        Some("receipt id does not match canonical receipt payload"@)
    } else if r.outcomes@.len() == 0 {
        Some("receipt requires at least one outcome proof"@)
    } else if commands_check(r.commands@) is Some {
        commands_check(r.commands@)
    } else if files_check(r.files@) is Some {
        files_check(r.files@)
    } else if outcomes_check(r.outcomes@) is Some {
        outcomes_check(r.outcomes@)
    } else if !small_first(r.commands@, false) {
        Some("targeted or heavy verification requires a passed small command proof first"@)
    } else if has_verified_outcome(r.outcomes@) && !has_passed_command(r.commands@) {
        Some("verified receipt requires at least one passed command proof"@)
    } else if has_verified_outcome(r.outcomes@) && has_preventing_command(r.commands@) {
        Some("verified receipt cannot include failed, blocked, or not-run commands"@)
    } else if has_blocked_command(r.commands@) && !has_blocked_outcome(r.outcomes@) {
        Some("blocked command proof requires a blocked outcome"@)
    } else {
        None
    }
}

/// Giving a receipt another id changes neither its canonical id, nor the
/// digest of its rendered payload, nor the blockers it records.
pub proof fn lemma_receipt_with_id(n: ProofReceipt, r: ProofReceipt)
    requires
        n == (ProofReceipt { receipt_id: n.receipt_id, ..r }),
    ensures
        canonical_receipt_id(n) == canonical_receipt_id(r),
        rendered_payload_digest(n) == rendered_payload_digest(r),
        receipt_blockers(n) == receipt_blockers(r),
{
    assert(receipt_members_with(n, Seq::empty(), false, None, false, 0) =~= receipt_members_with(
        r,
        Seq::empty(),
        false,
        None,
        false,
        0,
    ));
    assert(receipt_members_with(n, Seq::empty(), n.redacted, None, false, 0) =~= receipt_members_with(
        r,
        Seq::empty(),
        r.redacted,
        None,
        false,
        0,
    ));
}

/// Stamping a valid, unredacted receipt with its canonical id keeps it
/// valid, and its canonical id stays the same.
pub proof fn lemma_stamped_receipt_valid(n: ProofReceipt, r: ProofReceipt)
    requires
        receipt_check(r) is None,
        !r.redacted,
        n == (ProofReceipt { receipt_id: n.receipt_id, ..r }),
        n.receipt_id@ == canonical_receipt_id(r),
    ensures
        receipt_check(n) is None,
        canonical_receipt_id(n) == canonical_receipt_id(r),
{
    lemma_receipt_with_id(n, r);
}

/// What completing a pass asks of a receipt beyond validity.
pub open spec fn completion_readiness_check(r: ProofReceipt) -> Option<Seq<char>> {
    if receipt_check(r) is Some {
        receipt_check(r)
    } else if r.redacted {
        Some("completion requires an unredacted canonical proof receipt"@)
    } else if is_blank(r.receipt_id@) {
        Some("completion requires a canonical receipt id"@)
    } else if !has_verified_outcome(r.outcomes@) {
        Some("completion requires a verified proof receipt"@)
    } else if !all_verified_outcomes(r.outcomes@) {
        Some("completion receipt cannot include partial or blocked outcomes"@)
    } else if !all_have_evidence(r.commands@) {
        Some("completion command proofs require driven-captured evidence"@)
    } else {
        None
    }
}

/// A receipt that can complete a pass is a canonical, unredacted proof in
/// which every outcome is verified (at least one) and every command carries
/// captured evidence: a partial or blocked outcome never completes a pass.
pub proof fn lemma_completion_needs_verified_evidence(r: ProofReceipt)
    requires
        completion_readiness_check(r) is None,
    ensures
        receipt_check(r) is None,
        !r.redacted,
        !is_blank(r.receipt_id@),
        r.outcomes@.len() > 0,
        forall|i: int| 0 <= i < r.outcomes@.len() ==> (#[trigger] r.outcomes@[i]) is Verified,
        forall|i: int| 0 <= i < r.commands@.len() ==> (#[trigger] r.commands@[i]).evidence is Some,
{
    let i = choose|i: int| 0 <= i < r.outcomes@.len() && (#[trigger] r.outcomes@[i]) is Verified;
    assert(0 <= i < r.outcomes@.len());
}

/// The receipt was made for the claim's lane, pass and worker.
pub open spec fn same_subject(receipt_claim: LaneClaim, claim: LaneClaim) -> bool {
    receipt_claim.lane@ == claim.lane@ && receipt_claim.pass@ == claim.pass@
        && receipt_claim.worker_id@ == claim.worker_id@
}

pub open spec fn worktree_identity_check(r: ProofReceipt, expected: WorktreeIdentity) -> Option<
    Seq<char>,
> {
    if receipt_check(r) is Some {
        receipt_check(r)
    } else if r.worktree_identity is None {
        Some("receipt worktree identity is required"@)
    } else if identity_key(r.worktree_identity->Some_0) != identity_key(expected) {
        Some("receipt worktree identity does not match active lane claim"@)
    } else {
        None
    }
}

fn clone_commands(v: &Vec<CommandProof>) -> (r: Vec<CommandProof>)
    ensures
        r@ == v@,
{
    let r = v.clone();
    assert(r@ =~= v@);
    r
}

fn clone_files(v: &Vec<FileProof>) -> (r: Vec<FileProof>)
    ensures
        r@ == v@,
{
    let r = v.clone();
    assert(r@ =~= v@);
    r
}

fn clone_outcomes(v: &Vec<OutcomeProof>) -> (r: Vec<OutcomeProof>)
    ensures
        r@ == v@,
{
    let r = v.clone();
    assert(r@ =~= v@);
    r
}

impl Clone for ProofReceipt {
    fn clone(&self) -> (r: Self)
        ensures
            r == (ProofReceipt {
                claim: r.claim,
                commands: r.commands,
                files: r.files,
                outcomes: r.outcomes,
                ..*self
            }),
            r.claim == (LaneClaim { subagents: r.claim.subagents, ..self.claim }),
            r.claim.subagents@ == self.claim.subagents@,
            r.commands@ == self.commands@,
            r.files@ == self.files@,
            r.outcomes@ == self.outcomes@,
    {
        ProofReceipt {
            schema: self.schema.clone(),
            receipt_id: self.receipt_id.clone(),
            redacted: self.redacted,
            redacted_payload_digest: crate::strategy::worktree::clone_opt_string(
                &self.redacted_payload_digest,
            ),
            claim: self.claim.clone(),
            worktree_identity: match &self.worktree_identity {
                Some(i) => Some(i.clone()),
                None => None,
            },
            summary: self.summary.clone(),
            commands: clone_commands(&self.commands),
            files: clone_files(&self.files),
            outcomes: clone_outcomes(&self.outcomes),
        }
    }
}

impl ProofReceipt {
    pub fn new(claim: LaneClaim, summary: &str) -> (r: Self)
        ensures
            r.schema@ == PROOF_RECEIPT_SCHEMA@,
            r.receipt_id@ == Seq::<char>::empty(),
            !r.redacted,
            r.redacted_payload_digest is None,
            r.claim == claim,
            r.worktree_identity is None,
            r.summary@ == summary@,
            r.commands@.len() == 0,
            r.files@.len() == 0,
            r.outcomes@.len() == 0,
    {
        ProofReceipt {
            schema: String::from_str(PROOF_RECEIPT_SCHEMA),
            receipt_id: String::new(),
            redacted: false,
            redacted_payload_digest: None,
            claim,
            worktree_identity: None,
            summary: String::from_str(summary),
            commands: Vec::new(),
            files: Vec::new(),
            outcomes: Vec::new(),
        }
    }

    pub fn with_command(self, command: CommandProof) -> (r: Self)
        ensures
            r == (ProofReceipt { commands: r.commands, ..self }),
            r.commands@ == self.commands@.push(command),
    {
        let mut s = self;
        s.commands.push(command);
        s
    }

    pub fn with_file(self, file: FileProof) -> (r: Self)
        ensures
            r == (ProofReceipt { files: r.files, ..self }),
            r.files@ == self.files@.push(file),
    {
        let mut s = self;
        s.files.push(file);
        s
    }

    pub fn with_outcome(self, outcome: OutcomeProof) -> (r: Self)
        ensures
            r == (ProofReceipt { outcomes: r.outcomes, ..self }),
            r.outcomes@ == self.outcomes@.push(outcome),
    {
        let mut s = self;
        s.outcomes.push(outcome);
        s
    }

    pub fn with_worktree_identity(self, identity: WorktreeIdentity) -> (r: Self)
        ensures
            r == (ProofReceipt { worktree_identity: Some(identity), ..self }),
    {
        let mut s = self;
        s.worktree_identity = Some(identity);
        s
    }

    pub fn summary(&self) -> (r: &str)
        ensures
            r@ == self.summary@,
    {
        self.summary.as_str()
    }

    /// Every blocker the receipt records: blocked commands first, then
    /// blocked outcomes.
    pub fn blockers(&self) -> (r: Vec<String>)
        ensures
            strings_view(r@) == receipt_blockers(*self),
    {
        let mut out: Vec<String> = Vec::new();
        let mut i: usize = 0;
        while i < self.commands.len()
            invariant
                0 <= i <= self.commands@.len(),
                strings_view(out@) =~= command_blockers(self.commands@.subrange(0, i as int)),
            decreases self.commands@.len() - i,
        {
            assert(self.commands@.subrange(0, i + 1).drop_last() =~= self.commands@.subrange(
                0,
                i as int,
            ));
            if let Some(b) = self.commands[i].blocker() {
                out.push(b);
            }
            i = i + 1;
        }
        assert(self.commands@.subrange(0, self.commands@.len() as int) =~= self.commands@);
        let ghost head = strings_view(out@);
        let mut j: usize = 0;
        while j < self.outcomes.len()
            invariant
                0 <= j <= self.outcomes@.len(),
                head == command_blockers(self.commands@),
                strings_view(out@) =~= head + outcome_blockers(
                    self.outcomes@.subrange(0, j as int),
                ),
            decreases self.outcomes@.len() - j,
        {
            assert(self.outcomes@.subrange(0, j + 1).drop_last() =~= self.outcomes@.subrange(
                0,
                j as int,
            ));
            let ghost before = strings_view(out@);
            if let Some(b) = self.outcomes[j].blocker() {
                out.push(b);
                assert(strings_view(out@) =~= before.push(b@));
            }
            assert(outcome_blockers(self.outcomes@.subrange(0, j + 1)) =~= outcome_blockers(
                self.outcomes@.subrange(0, j as int),
            ) + match outcome_blocker(self.outcomes@[j as int]) {
                Some(b) => seq![b],
                None => Seq::empty(),
            });
            j = j + 1;
        }
        assert(self.outcomes@.subrange(0, self.outcomes@.len() as int) =~= self.outcomes@);
        out
    }

    /// The receipt as JSON with the id, redaction flag and redacted payload
    /// digest given separately.
    #[verifier::rlimit(60)]
    fn to_json_with(
        &self,
        receipt_id: &str,
        redacted: bool,
        digest: &Option<String>,
        pretty: bool,
        level: usize,
    ) -> (r: String)
        requires
            level < usize::MAX - 4,
        ensures
            r@ == receipt_json_with(*self, receipt_id@, redacted, opt_view(*digest), pretty, level as nat),
    {
        let mut v: Vec<(String, String)> = Vec::new();
        v.push(member("schema", json_string(self.schema.as_str())));
        v.push(member("receipt_id", json_string(receipt_id)));
        v.push(member("redacted", json_bool(redacted)));
        if let Some(d) = digest {
            v.push(member("redacted_payload_digest", json_string(d.as_str())));
        }
        v.push(member("claim", self.claim.to_json(pretty, level + 1)));
        if let Some(i) = &self.worktree_identity {
            v.push(member("worktree_identity", i.to_json(pretty, level + 1)));
        }
        v.push(member("summary", json_string(self.summary.as_str())));
        v.push(member("commands", commands_to_json(&self.commands, pretty, level + 1)));
        v.push(member("files", files_to_json(&self.files, pretty, level + 1)));
        v.push(member("outcomes", outcomes_to_json(&self.outcomes, pretty, level + 1)));
        assert(entries_view(v@) =~= receipt_members_with(
            *self,
            receipt_id@,
            redacted,
            opt_view(*digest),
            pretty,
            level as nat,
        ));
        render_object(&v, pretty, level)
    }

    /// The receipt as JSON, as it stands.
    pub fn to_json(&self, pretty: bool) -> (r: String)
        ensures
            r@ == receipt_json(*self, pretty, 0),
    {
        self.to_json_with(self.receipt_id.as_str(), self.redacted, &self.redacted_payload_digest, pretty, 0)
    }

    /// The canonical id of the receipt, whatever id it carries now.
    pub fn computed_receipt_id(&self) -> (r: String)
        ensures
            r@ == canonical_receipt_id(*self),
            is_digest_text(r@),
    {
        let json = self.to_json_with("", false, &None, false, 0);
        proof {
            reveal_strlit("");
        }
        blake3_hex_of_str(json.as_str())
    }

    /// The digest of the payload as rendered, redaction flag included.
    pub fn rendered_payload_digest(&self) -> (r: String)
        ensures
            r@ == rendered_payload_digest(*self),
    {
        let json = self.to_json_with("", self.redacted, &None, false, 0);
        proof {
            reveal_strlit("");
        }
        blake3_hex_of_str(json.as_str())
    }

    pub fn is_verified(&self) -> (r: bool)
        ensures
            r == has_verified_outcome(self.outcomes@),
    {
        let mut i: usize = 0;
        while i < self.outcomes.len()
            invariant
                0 <= i <= self.outcomes@.len(),
                forall|k: int| 0 <= k < i ==> !((#[trigger] self.outcomes@[k]) is Verified),
            decreases self.outcomes@.len() - i,
        {
            if let OutcomeProof::Verified { .. } = &self.outcomes[i] {
                return true;
            }
            i = i + 1;
        }
        false
    }

    /// Checks every rule of a proof receipt, in order, and reports the first
    /// one broken.
    pub fn validate(&self) -> (r: Result<()>)
        ensures
            agrees(r, receipt_check(*self)),
    {
        self.claim.validate()?;
        if !str_eq(self.schema.as_str(), PROOF_RECEIPT_SCHEMA) {
            return Err(validation_owned(concat2("proof receipt schema must be ", PROOF_RECEIPT_SCHEMA)));
        }
        if is_blank_str(self.summary.as_str()) {
            return Err(validation("receipt summary cannot be empty"));
        }
        if self.redacted {
            let digest = self.rendered_payload_digest();
            let matches = match &self.redacted_payload_digest {
                Some(d) => *d == digest,
                None => false,
            };
            if !matches {
                return Err(validation("redacted receipt digest does not match rendered payload"));
            }
        } else if !is_blank_str(self.receipt_id.as_str()) {
            let computed = self.computed_receipt_id();
            if !(self.receipt_id == computed) {
                return Err(validation("receipt id does not match canonical receipt payload"));
            }
        }
        if self.outcomes.len() == 0 {
            return Err(validation("receipt requires at least one outcome proof"));
        }
        check_commands(&self.commands)?;
        check_files(&self.files)?;
        check_outcomes(&self.outcomes)?;
        if !commands_small_first(&self.commands) {
            return Err(
                validation(
                    "targeted or heavy verification requires a passed small command proof first",
                ),
            );
        }
        let verified = self.is_verified();
        if verified && !any_passed_command(&self.commands) {
            return Err(validation("verified receipt requires at least one passed command proof"));
        }
        if verified && any_preventing_command(&self.commands) {
            return Err(
                validation("verified receipt cannot include failed, blocked, or not-run commands"),
            );
        }
        if any_blocked_command(&self.commands) && !any_blocked_outcome(&self.outcomes) {
            return Err(validation("blocked command proof requires a blocked outcome"));
        }
        Ok(())
    }

    /// A receipt that may complete a pass: valid, unredacted, with a
    /// canonical id, only verified outcomes, and captured evidence for every
    /// command.
    pub fn validate_completion_readiness(&self) -> (r: Result<()>)
        ensures
            agrees(r, completion_readiness_check(*self)),
    {
        self.validate()?;
        if self.redacted {
            return Err(validation("completion requires an unredacted canonical proof receipt"));
        }
        if is_blank_str(self.receipt_id.as_str()) {
            return Err(validation("completion requires a canonical receipt id"));
        }
        if !self.is_verified() {
            return Err(validation("completion requires a verified proof receipt"));
        }
        let mut i: usize = 0;
        while i < self.outcomes.len()
            invariant
                0 <= i <= self.outcomes@.len(),
                completion_readiness_check(*self) == (if !all_verified_outcomes(self.outcomes@) {
                    Some("completion receipt cannot include partial or blocked outcomes"@)
                } else if !all_have_evidence(self.commands@) {
                    Some("completion command proofs require driven-captured evidence"@)
                } else {
                    None
                }),
                forall|k: int| 0 <= k < i ==> (#[trigger] self.outcomes@[k]) is Verified,
            decreases self.outcomes@.len() - i,
        {
            match &self.outcomes[i] {
                OutcomeProof::Verified { .. } => {},
                _ => {
                    return Err(
                        validation("completion receipt cannot include partial or blocked outcomes"),
                    );
                },
            }
            i = i + 1;
        }
        let mut j: usize = 0;
        while j < self.commands.len()
            invariant
                0 <= j <= self.commands@.len(),
                completion_readiness_check(*self) == (if !all_have_evidence(self.commands@) {
                    Some("completion command proofs require driven-captured evidence"@)
                } else {
                    None
                }),
                forall|k: int| 0 <= k < j ==> (#[trigger] self.commands@[k]).evidence is Some,
            decreases self.commands@.len() - j,
        {
            if self.commands[j].evidence.is_none() {
                return Err(validation("completion command proofs require driven-captured evidence"));
            }
            j = j + 1;
        }
        Ok(())
    }

    /// The receipt was made for the claim's lane, pass and worker.
    pub fn validate_completion_claim_subject(&self, claim: &LaneClaim) -> (r: Result<()>)
        ensures
            agrees(
                r,
                if same_subject(self.claim, *claim) {
                    None
                } else {
                    Some("receipt claim does not match active lane claim"@)
                },
            ),
    {
        if !self.claim.lane.same(claim.lane) || !self.claim.pass.same(claim.pass)
            || !self.claim.worker_id.same(&claim.worker_id) {
            return Err(validation("receipt claim does not match active lane claim"));
        }
        Ok(())
    }

    /// The receipt was made under this very claim: same subject and token.
    pub fn validate_completion_claim_match(&self, claim: &LaneClaim) -> (r: Result<()>)
        ensures
            agrees(
                r,
                if same_subject(self.claim, *claim) && self.claim.token@ == claim.token@ {
                    None
                } else {
                    Some("receipt claim does not match active lane claim"@)
                },
            ),
    {
        self.validate_completion_claim_subject(claim)?;
        if !self.claim.token.same(&claim.token) {
            return Err(validation("receipt claim does not match active lane claim"));
        }
        Ok(())
    }

    /// A receipt that completes the given claim.
    pub fn validate_for_completion_claim(&self, claim: &LaneClaim) -> (r: Result<()>)
        ensures
            agrees(
                r,
                if completion_readiness_check(*self) is Some {
                    completion_readiness_check(*self)
                } else if same_subject(self.claim, *claim) && self.claim.token@ == claim.token@ {
                    None
                } else {
                    Some("receipt claim does not match active lane claim"@)
                },
            ),
    {
        self.validate_completion_readiness()?;
        self.validate_completion_claim_match(claim)
    }

    /// A valid receipt recorded in the expected checkout.
    pub fn validate_worktree_identity(&self, expected: &WorktreeIdentity) -> (r: Result<()>)
        ensures
            agrees(r, worktree_identity_check(*self, *expected)),
    {
        self.validate()?;
        match &self.worktree_identity {
            None => Err(validation("receipt worktree identity is required")),
            Some(actual) => {
                if !actual.same(expected) {
                    Err(validation("receipt worktree identity does not match active lane claim"))
                } else {
                    Ok(())
                }
            },
        }
    }

    /// The canonical id of a valid receipt.
    pub fn receipt_id(&self) -> (r: Result<String>)
        ensures
            agrees(r, receipt_check(*self)),
            r is Ok ==> r->Ok_0@ == canonical_receipt_id(*self),
            r is Ok ==> is_digest_text(r->Ok_0@),
    {
        self.validate()?;
        Ok(self.computed_receipt_id())
    }
}

// ---------------------------------------------------------------------------
// Checks over collections
// ---------------------------------------------------------------------------

fn check_commands(cs: &Vec<CommandProof>) -> (r: Result<()>)
    ensures
        agrees(r, commands_check(cs@)),
{
    let n = cs.len();
    let mut i: usize = 0;
    assert(cs@.subrange(0, n as int) =~= cs@);
    while i < n
        invariant
            n == cs@.len(),
            0 <= i <= n,
            commands_check(cs@) == commands_check(cs@.subrange(i as int, n as int)),
        decreases n - i,
    {
        let ghost rest = cs@.subrange(i as int, n as int);
        assert(rest[0] == cs@[i as int]);
        assert(rest.drop_first() =~= cs@.subrange(i + 1, n as int));
        cs[i].validate()?;
        i = i + 1;
    }
    assert(cs@.subrange(n as int, n as int).len() == 0);
    Ok(())
}

fn check_files(fs: &Vec<FileProof>) -> (r: Result<()>)
    ensures
        agrees(r, files_check(fs@)),
{
    let n = fs.len();
    let mut i: usize = 0;
    assert(fs@.subrange(0, n as int) =~= fs@);
    while i < n
        invariant
            n == fs@.len(),
            0 <= i <= n,
            files_check(fs@) == files_check(fs@.subrange(i as int, n as int)),
        decreases n - i,
    {
        let ghost rest = fs@.subrange(i as int, n as int);
        assert(rest[0] == fs@[i as int]);
        assert(rest.drop_first() =~= fs@.subrange(i + 1, n as int));
        fs[i].validate()?;
        i = i + 1;
    }
    assert(fs@.subrange(n as int, n as int).len() == 0);
    Ok(())
}

fn check_outcomes(os: &Vec<OutcomeProof>) -> (r: Result<()>)
    ensures
        agrees(r, outcomes_check(os@)),
{
    let n = os.len();
    let mut i: usize = 0;
    assert(os@.subrange(0, n as int) =~= os@);
    while i < n
        invariant
            n == os@.len(),
            0 <= i <= n,
            outcomes_check(os@) == outcomes_check(os@.subrange(i as int, n as int)),
        decreases n - i,
    {
        let ghost rest = os@.subrange(i as int, n as int);
        assert(rest[0] == os@[i as int]);
        assert(rest.drop_first() =~= os@.subrange(i + 1, n as int));
        os[i].validate()?;
        i = i + 1;
    }
    assert(os@.subrange(n as int, n as int).len() == 0);
    Ok(())
}

fn commands_small_first(cs: &Vec<CommandProof>) -> (r: bool)
    ensures
        r == small_first(cs@, false),
{
    let n = cs.len();
    let mut i: usize = 0;
    let mut has_passed = false;
    assert(cs@.subrange(0, n as int) =~= cs@);
    while i < n
        invariant
            n == cs@.len(),
            0 <= i <= n,
            small_first(cs@, false) == small_first(cs@.subrange(i as int, n as int), has_passed),
        decreases n - i,
    {
        let ghost rest = cs@.subrange(i as int, n as int);
        assert(rest[0] == cs@[i as int]);
        assert(rest.drop_first() =~= cs@.subrange(i + 1, n as int));
        let c = &cs[i];
        if c.class == VerificationClass::Small {
            if c.is_successful_small() {
                has_passed = true;
            }
        } else if !has_passed {
            return false;
        }
        i = i + 1;
    }
    assert(cs@.subrange(n as int, n as int).len() == 0);
    true
}

fn any_passed_command(cs: &Vec<CommandProof>) -> (r: bool)
    ensures
        r == has_passed_command(cs@),
{
    let mut i: usize = 0;
    while i < cs.len()
        invariant
            0 <= i <= cs@.len(),
            forall|k: int| 0 <= k < i ==> !passed_with_zero((#[trigger] cs@[k]).status),
        decreases cs@.len() - i,
    {
        if cs[i].status.is_passed_zero() {
            return true;
        }
        i = i + 1;
    }
    false
}

fn any_preventing_command(cs: &Vec<CommandProof>) -> (r: bool)
    ensures
        r == has_preventing_command(cs@),
{
    let mut i: usize = 0;
    while i < cs.len()
        invariant
            0 <= i <= cs@.len(),
            forall|k: int| 0 <= k < i ==> !prevents_verified((#[trigger] cs@[k]).status),
        decreases cs@.len() - i,
    {
        if cs[i].status.prevents_verified_outcome() {
            return true;
        }
        i = i + 1;
    }
    false
}

fn any_blocked_command(cs: &Vec<CommandProof>) -> (r: bool)
    ensures
        r == has_blocked_command(cs@),
{
    let mut i: usize = 0;
    while i < cs.len()
        invariant
            0 <= i <= cs@.len(),
            forall|k: int| 0 <= k < i ==> !((#[trigger] cs@[k]).status is Blocked),
        decreases cs@.len() - i,
    {
        if let CommandStatus::Blocked { .. } = &cs[i].status {
            return true;
        }
        i = i + 1;
    }
    false
}

fn any_blocked_outcome(os: &Vec<OutcomeProof>) -> (r: bool)
    ensures
        r == has_blocked_outcome(os@),
{
    let mut i: usize = 0;
    while i < os.len()
        invariant
            0 <= i <= os@.len(),
            forall|k: int| 0 <= k < i ==> !((#[trigger] os@[k]) is Blocked),
        decreases os@.len() - i,
    {
        if let OutcomeProof::Blocked { .. } = &os[i] {
            return true;
        }
        i = i + 1;
    }
    false
}

// ---------------------------------------------------------------------------
// JSON
// ---------------------------------------------------------------------------

pub open spec fn class_name(c: VerificationClass) -> Seq<char> {
    match c {
        VerificationClass::Small => "small"@,
        VerificationClass::Targeted => "targeted"@,
        VerificationClass::Heavy => "heavy"@,
    }
}

pub fn class_text(c: VerificationClass) -> (r: &'static str)
    ensures
        r@ == class_name(c),
{
    match c {
        VerificationClass::Small => "small",
        VerificationClass::Targeted => "targeted",
        VerificationClass::Heavy => "heavy",
    }
}

pub open spec fn status_members(s: CommandStatus) -> Seq<(Seq<char>, Seq<char>)> {
    match s {
        CommandStatus::Passed { exit_code } => seq![
            ("status"@, jstr("passed"@)),
            ("exit_code"@, jint(exit_code as int)),
        ],
        CommandStatus::Failed { exit_code } => seq![
            ("status"@, jstr("failed"@)),
            ("exit_code"@, jint(exit_code as int)),
        ],
        CommandStatus::Skipped { reason } => seq![
            ("status"@, jstr("skipped"@)),
            ("reason"@, jstr(reason@)),
        ],
        CommandStatus::Blocked { reason } => seq![
            ("status"@, jstr("blocked"@)),
            ("reason"@, jstr(reason@)),
        ],
        CommandStatus::NotRun => seq![("status"@, jstr("not_run"@))],
    }
}

pub open spec fn command_members(c: CommandProof, pretty: bool, level: nat) -> Seq<
    (Seq<char>, Seq<char>),
> {
    seq![
        ("command"@, jstr(c.command@)),
        ("class"@, jstr(class_name(c.class))),
        ("status"@, jobject(status_members(c.status), pretty, level + 1)),
    ] + match c.evidence {
        Some(e) => seq![("evidence"@, jobject(evidence_members(e), pretty, level + 1))],
        None => Seq::empty(),
    }
}

pub open spec fn commands_json(cs: Seq<CommandProof>, pretty: bool, level: nat) -> Seq<char> {
    jarray(
        cs.map_values(|c: CommandProof| jobject(command_members(c, pretty, level + 1), pretty, level + 1)),
        pretty,
        level,
    )
}

pub open spec fn file_members(f: FileProof) -> Seq<(Seq<char>, Seq<char>)> {
    seq![("path"@, jstr(f.path@)), ("purpose"@, jstr(f.purpose@))]
}

pub open spec fn files_json(fs: Seq<FileProof>, pretty: bool, level: nat) -> Seq<char> {
    jarray(fs.map_values(|f: FileProof| jobject(file_members(f), pretty, level + 1)), pretty, level)
}

pub open spec fn outcome_members(o: OutcomeProof) -> Seq<(Seq<char>, Seq<char>)> {
    match o {
        OutcomeProof::Verified { summary } => seq![
            ("status"@, jstr("verified"@)),
            ("summary"@, jstr(summary@)),
        ],
        OutcomeProof::Partial { summary } => seq![
            ("status"@, jstr("partial"@)),
            ("summary"@, jstr(summary@)),
        ],
        OutcomeProof::Blocked { reason } => seq![
            ("status"@, jstr("blocked"@)),
            ("reason"@, jstr(reason@)),
        ],
    }
}

pub open spec fn outcomes_json(os: Seq<OutcomeProof>, pretty: bool, level: nat) -> Seq<char> {
    jarray(os.map_values(|o: OutcomeProof| jobject(outcome_members(o), pretty, level + 1)), pretty, level)
}

fn status_to_json(s: &CommandStatus, pretty: bool, level: usize) -> (r: String)
    requires
        level < usize::MAX,
    ensures
        r@ == jobject(status_members(*s), pretty, level as nat),
{
    let mut v: Vec<(String, String)> = Vec::new();
    match s {
        CommandStatus::Passed { exit_code } => {
            v.push(member("status", json_string("passed")));
            v.push(member("exit_code", json_signed(*exit_code)));
        },
        CommandStatus::Failed { exit_code } => {
            v.push(member("status", json_string("failed")));
            v.push(member("exit_code", json_signed(*exit_code)));
        },
        CommandStatus::Skipped { reason } => {
            v.push(member("status", json_string("skipped")));
            v.push(member("reason", json_string(reason.as_str())));
        },
        CommandStatus::Blocked { reason } => {
            v.push(member("status", json_string("blocked")));
            v.push(member("reason", json_string(reason.as_str())));
        },
        CommandStatus::NotRun => {
            v.push(member("status", json_string("not_run")));
        },
    }
    assert(entries_view(v@) =~= status_members(*s));
    render_object(&v, pretty, level)
}

impl CommandProof {
    pub fn to_json(&self, pretty: bool, level: usize) -> (r: String)
        requires
            level < usize::MAX - 1,
        ensures
            r@ == jobject(command_members(*self, pretty, level as nat), pretty, level as nat),
    {
        let mut v: Vec<(String, String)> = Vec::new();
        v.push(member("command", json_string(self.command.as_str())));
        v.push(member("class", json_string(class_text(self.class))));
        v.push(member("status", status_to_json(&self.status, pretty, level + 1)));
        if let Some(e) = &self.evidence {
            v.push(member("evidence", e.to_json(pretty, level + 1)));
        }
        assert(entries_view(v@) =~= command_members(*self, pretty, level as nat));
        render_object(&v, pretty, level)
    }
}

impl FileProof {
    pub fn to_json(&self, pretty: bool, level: usize) -> (r: String)
        requires
            level < usize::MAX,
        ensures
            r@ == jobject(file_members(*self), pretty, level as nat),
    {
        let mut v: Vec<(String, String)> = Vec::new();
        v.push(member("path", json_string(self.path.as_str())));
        v.push(member("purpose", json_string(self.purpose.as_str())));
        assert(entries_view(v@) =~= file_members(*self));
        render_object(&v, pretty, level)
    }
}

impl OutcomeProof {
    pub fn to_json(&self, pretty: bool, level: usize) -> (r: String)
        requires
            level < usize::MAX,
        ensures
            r@ == jobject(outcome_members(*self), pretty, level as nat),
    {
        let mut v: Vec<(String, String)> = Vec::new();
        match self {
            OutcomeProof::Verified { summary } => {
                v.push(member("status", json_string("verified")));
                v.push(member("summary", json_string(summary.as_str())));
            },
            OutcomeProof::Partial { summary } => {
                v.push(member("status", json_string("partial")));
                v.push(member("summary", json_string(summary.as_str())));
            },
            OutcomeProof::Blocked { reason } => {
                v.push(member("status", json_string("blocked")));
                v.push(member("reason", json_string(reason.as_str())));
            },
        }
        assert(entries_view(v@) =~= outcome_members(*self));
        render_object(&v, pretty, level)
    }
}

fn commands_to_json(cs: &Vec<CommandProof>, pretty: bool, level: usize) -> (r: String)
    requires
        level < usize::MAX - 2,
    ensures
        r@ == commands_json(cs@, pretty, level as nat),
{
    let mut items: Vec<String> = Vec::new();
    let mut i: usize = 0;
    while i < cs.len()
        invariant
            0 <= i <= cs@.len(),
            level < usize::MAX - 2,
            items@.len() == i,
            forall|k: int|
                0 <= k < i ==> (#[trigger] items@[k])@ == jobject(
                    command_members(cs@[k], pretty, (level + 1) as nat),
                    pretty,
                    (level + 1) as nat,
                ),
        decreases cs@.len() - i,
    {
        items.push(cs[i].to_json(pretty, level + 1));
        i = i + 1;
    }
    assert(strings_view(items@) =~= cs@.map_values(
        |c: CommandProof|
            jobject(command_members(c, pretty, (level + 1) as nat), pretty, (level + 1) as nat),
    ));
    render_array(&items, pretty, level)
}

fn files_to_json(fs: &Vec<FileProof>, pretty: bool, level: usize) -> (r: String)
    requires
        level < usize::MAX - 1,
    ensures
        r@ == files_json(fs@, pretty, level as nat),
{
    let mut items: Vec<String> = Vec::new();
    let mut i: usize = 0;
    while i < fs.len()
        invariant
            0 <= i <= fs@.len(),
            level < usize::MAX - 1,
            items@.len() == i,
            forall|k: int|
                0 <= k < i ==> (#[trigger] items@[k])@ == jobject(
                    file_members(fs@[k]),
                    pretty,
                    (level + 1) as nat,
                ),
        decreases fs@.len() - i,
    {
        items.push(fs[i].to_json(pretty, level + 1));
        i = i + 1;
    }
    assert(strings_view(items@) =~= fs@.map_values(
        |f: FileProof| jobject(file_members(f), pretty, (level + 1) as nat),
    ));
    render_array(&items, pretty, level)
}

fn outcomes_to_json(os: &Vec<OutcomeProof>, pretty: bool, level: usize) -> (r: String)
    requires
        level < usize::MAX - 1,
    ensures
        r@ == outcomes_json(os@, pretty, level as nat),
{
    let mut items: Vec<String> = Vec::new();
    let mut i: usize = 0;
    while i < os.len()
        invariant
            0 <= i <= os@.len(),
            level < usize::MAX - 1,
            items@.len() == i,
            forall|k: int|
                0 <= k < i ==> (#[trigger] items@[k])@ == jobject(
                    outcome_members(os@[k]),
                    pretty,
                    (level + 1) as nat,
                ),
        decreases os@.len() - i,
    {
        items.push(os[i].to_json(pretty, level + 1));
        i = i + 1;
    }
    assert(strings_view(items@) =~= os@.map_values(
        |o: OutcomeProof| jobject(outcome_members(o), pretty, (level + 1) as nat),
    ));
    render_array(&items, pretty, level)
}

} // verus!
