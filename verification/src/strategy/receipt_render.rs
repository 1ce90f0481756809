//! Rendering of proof receipts for people and tools: credentials masked,
//! canonical id kept, Markdown text escaped.

use vstd::prelude::*;

use crate::error::{agrees, Result};
use crate::strategy::evidence::CommandEvidence;
use crate::strategy::identity::{
    claim_check, expected_token, LaneClaim, SubagentDelegation,
};
use crate::strategy::receipt::{
    canonical_receipt_id, receipt_blockers, receipt_check, receipt_json, rendered_payload_digest,
    CommandProof, CommandStatus, FileProof, OutcomeProof, ProofReceipt, ReceiptFormat,
    VerificationClass,
};
use crate::strategy::handoff::has_partial_outcome;
use crate::strategy::redaction::{redact_opt, redact_secrets, redacted, redacted_opt};
use crate::strategy::worktree::{opt_view, GitCheckoutKind, WorktreeIdentity};
use crate::text::{decimal, push_char, push_decimal, push_signed_decimal, signed_decimal};

verus! {

// ---------------------------------------------------------------------------
// Markdown escaping
// ---------------------------------------------------------------------------

/// How one character is written in Markdown text: carriage returns are
/// dropped, pipes escaped, line feeds become `<br>`.
pub open spec fn md_escape_char(c: char) -> Seq<char> {
    if c == '\r' {
        Seq::empty()
    } else if c == '|' {
        seq!['\\', '|']
    } else if c == '\n' {
        "<br>"@
    } else {
        seq![c]
    }
}

pub open spec fn md_escape(s: Seq<char>) -> Seq<char>
    decreases s.len(),
{
    if s.len() == 0 {
        Seq::empty()
    } else {
        md_escape(s.drop_last()) + md_escape_char(s.last())
    }
}

/// Text safe to place in one Markdown line or table cell.
pub fn escape_markdown_text(value: &str) -> (r: String)
    ensures
        r@ == md_escape(value@),
{
    let n = value.unicode_len();
    let mut out = String::new();
    let mut i: usize = 0;
    while i < n
        invariant
            n == value@.len(),
            0 <= i <= n,
            out@ =~= md_escape(value@.subrange(0, i as int)),
        decreases n - i,
    {
        let c = value.get_char(i);
        if c == '\r' {
        } else if c == '|' {
            push_char(&mut out, '\\');
            push_char(&mut out, '|');
        } else if c == '\n' {
            out.append("<br>");
        } else {
            push_char(&mut out, c);
        }
        assert(value@.subrange(0, i + 1).drop_last() =~= value@.subrange(0, i as int));
        i = i + 1;
    }
    assert(value@.subrange(0, n as int) =~= value@);
    out
}

pub proof fn lemma_md_escape_has_no_line_break(s: Seq<char>)
    ensures
        forall|i: int|
            0 <= i < md_escape(s).len() ==> #[trigger] md_escape(s)[i] != '\n' && md_escape(s)[i]
                != '\r',
    decreases s.len(),
{
    if s.len() > 0 {
        lemma_md_escape_has_no_line_break(s.drop_last());
        let head = md_escape(s.drop_last());
        let tail = md_escape_char(s.last());
        assert forall|i: int| 0 <= i < md_escape(s).len() implies #[trigger] md_escape(s)[i] != '\n'
            && md_escape(s)[i] != '\r' by {
            if i >= head.len() {
                reveal_strlit("<br>");
                assert(md_escape(s)[i] == tail[i - head.len()]);
            } else {
                assert(md_escape(s)[i] == head[i]);
            }
        }
    }
}

// ---------------------------------------------------------------------------
// Redaction of a whole receipt
// ---------------------------------------------------------------------------

pub open spec fn redacted_status(s: CommandStatus, out: CommandStatus) -> bool {
    match s {
        CommandStatus::Skipped { reason } => out matches CommandStatus::Skipped { reason: r }
            && r@ == redacted(reason@),
        CommandStatus::Blocked { reason } => out matches CommandStatus::Blocked { reason: r }
            && r@ == redacted(reason@),
        _ => out == s,
    }
}

pub open spec fn redacted_evidence(e: Option<CommandEvidence>, out: Option<CommandEvidence>) -> bool {
    match e {
        Some(ev) => out is Some && out->Some_0 == (CommandEvidence { cwd: out->Some_0.cwd, ..ev })
            && out->Some_0.cwd@ == redacted(ev.cwd@),
        None => out is None,
    }
}

pub open spec fn redacted_command(c: CommandProof, out: CommandProof) -> bool {
    &&& out.command@ == redacted(c.command@)
    &&& out.class == c.class
    &&& redacted_status(c.status, out.status)
    &&& redacted_evidence(c.evidence, out.evidence)
}

pub open spec fn redacted_file(f: FileProof, out: FileProof) -> bool {
    out.path@ == redacted(f.path@) && out.purpose@ == redacted(f.purpose@)
}

pub open spec fn redacted_outcome(o: OutcomeProof, out: OutcomeProof) -> bool {
    match o {
        OutcomeProof::Verified { summary } => out matches OutcomeProof::Verified { summary: s }
            && s@ == redacted(summary@),
        OutcomeProof::Partial { summary } => out matches OutcomeProof::Partial { summary: s }
            && s@ == redacted(summary@),
        OutcomeProof::Blocked { reason } => out matches OutcomeProof::Blocked { reason: s }
            && s@ == redacted(reason@),
    }
}

pub open spec fn redacted_subagent(s: SubagentDelegation, out: SubagentDelegation) -> bool {
    out == (SubagentDelegation { task: out.task, ..s }) && out.task@ == redacted(s.task@)
}

pub open spec fn redacted_identity(i: WorktreeIdentity, out: WorktreeIdentity) -> bool {
    &&& out.kind == i.kind
    &&& out.input_root@ == redacted(i.input_root@)
    &&& opt_view(out.worktree_root) == redacted_opt(i.worktree_root)
    &&& opt_view(out.git_dir) == redacted_opt(i.git_dir)
    &&& opt_view(out.common_dir) == redacted_opt(i.common_dir)
    &&& opt_view(out.superproject_root) == redacted_opt(i.superproject_root)
    &&& opt_view(out.branch) == redacted_opt(i.branch)
    &&& opt_view(out.remote) == redacted_opt(i.remote)
}

/// `out` is `r` with every free-text field masked, the claim's token
/// recomputed for the masked scope, and id, redaction flag and payload
/// digest cleared.
pub open spec fn redacted_for_render_of(r: ProofReceipt, out: ProofReceipt) -> bool {
    &&& out.schema == r.schema
    &&& out.receipt_id@ == Seq::<char>::empty()
    &&& !out.redacted
    &&& out.redacted_payload_digest is None
    &&& out.summary@ == redacted(r.summary@)
    &&& out.claim == (LaneClaim {
        scope: out.claim.scope,
        token: out.claim.token,
        subagents: out.claim.subagents,
        ..r.claim
    })
    &&& out.claim.scope@ == redacted(r.claim.scope@)
    &&& out.claim.token@ == expected_token(out.claim)
    &&& out.claim.subagents@.len() == r.claim.subagents@.len()
    &&& forall|k: int|
        0 <= k < r.claim.subagents@.len() ==> redacted_subagent(
            r.claim.subagents@[k],
            #[trigger] out.claim.subagents@[k],
        )
    &&& (r.worktree_identity is None <==> out.worktree_identity is None)
    &&& (r.worktree_identity is Some ==> redacted_identity(
        r.worktree_identity->Some_0,
        out.worktree_identity->Some_0,
    ))
    &&& out.commands@.len() == r.commands@.len()
    &&& forall|k: int|
        0 <= k < r.commands@.len() ==> redacted_command(r.commands@[k], #[trigger] out.commands@[k])
    &&& out.files@.len() == r.files@.len()
    &&& forall|k: int|
        0 <= k < r.files@.len() ==> redacted_file(r.files@[k], #[trigger] out.files@[k])
    &&& out.outcomes@.len() == r.outcomes@.len()
    &&& forall|k: int|
        0 <= k < r.outcomes@.len() ==> redacted_outcome(r.outcomes@[k], #[trigger] out.outcomes@[k])
}

/// The form in which a receipt is shown: masked, carrying the canonical
/// id of the unmasked receipt, marked redacted, and sealed with the digest
/// of its own rendered payload.
pub open spec fn display_form_of(r: ProofReceipt, out: ProofReceipt) -> bool {
    exists|masked: ProofReceipt|
        #![trigger redacted_for_render_of(r, masked)]
        {
            &&& redacted_for_render_of(r, masked)
            &&& out == (ProofReceipt {
                receipt_id: out.receipt_id,
                redacted: true,
                redacted_payload_digest: out.redacted_payload_digest,
                ..masked
            })
            &&& out.receipt_id@ == canonical_receipt_id(r)
            &&& out.redacted_payload_digest is Some
            &&& out.redacted_payload_digest->Some_0@ == rendered_payload_digest(out)
        }
}

fn redact_status(s: &CommandStatus) -> (r: CommandStatus)
    ensures
        redacted_status(*s, r),
{
    match s {
        CommandStatus::Skipped { reason } => CommandStatus::Skipped {
            reason: redact_secrets(reason.as_str()),
        },
        CommandStatus::Blocked { reason } => CommandStatus::Blocked {
            reason: redact_secrets(reason.as_str()),
        },
        _ => s.clone(),
    }
}

fn redact_command(c: &CommandProof) -> (r: CommandProof)
    ensures
        redacted_command(*c, r),
{
    let evidence = match &c.evidence {
        Some(e) => {
            let mut e2 = e.clone();
            e2.cwd = redact_secrets(e.cwd.as_str());
            Some(e2)
        },
        None => None,
    };
    CommandProof {
        command: redact_secrets(c.command.as_str()),
        class: c.class,
        status: redact_status(&c.status),
        evidence,
    }
}

fn redact_outcome(o: &OutcomeProof) -> (r: OutcomeProof)
    ensures
        redacted_outcome(*o, r),
{
    match o {
        OutcomeProof::Verified { summary } => OutcomeProof::Verified {
            summary: redact_secrets(summary.as_str()),
        },
        OutcomeProof::Partial { summary } => OutcomeProof::Partial {
            summary: redact_secrets(summary.as_str()),
        },
        OutcomeProof::Blocked { reason } => OutcomeProof::Blocked {
            reason: redact_secrets(reason.as_str()),
        },
    }
}

fn redact_identity(i: &WorktreeIdentity) -> (r: WorktreeIdentity)
    ensures
        redacted_identity(*i, r),
{
    WorktreeIdentity {
        kind: i.kind,
        input_root: redact_secrets(i.input_root.as_str()),
        worktree_root: redact_opt(&i.worktree_root),
        git_dir: redact_opt(&i.git_dir),
        common_dir: redact_opt(&i.common_dir),
        superproject_root: redact_opt(&i.superproject_root),
        branch: redact_opt(&i.branch),
        remote: redact_opt(&i.remote),
    }
}

impl ProofReceipt {
    /// The receipt with every free-text field masked and the claim token
    /// recomputed for the masked scope.
    pub fn redacted_for_render(&self) -> (r: ProofReceipt)
        ensures
            redacted_for_render_of(*self, r),
    {
        let mut claim = self.claim.clone();
        claim.scope = redact_secrets(self.claim.scope.as_str());
        let mut subagents: Vec<SubagentDelegation> = Vec::new();
        let mut i: usize = 0;
        while i < self.claim.subagents.len()
            invariant
                0 <= i <= self.claim.subagents@.len(),
                subagents@.len() == i,
                forall|k: int|
                    0 <= k < i ==> redacted_subagent(
                        self.claim.subagents@[k],
                        #[trigger] subagents@[k],
                    ),
            decreases self.claim.subagents@.len() - i,
        {
            let mut s = self.claim.subagents[i].clone();
            s.task = redact_secrets(self.claim.subagents[i].task.as_str());
            subagents.push(s);
            i = i + 1;
        }
        claim.subagents = subagents;
        claim.refresh_token();
        let mut commands: Vec<CommandProof> = Vec::new();
        let mut j: usize = 0;
        while j < self.commands.len()
            invariant
                0 <= j <= self.commands@.len(),
                commands@.len() == j,
                forall|k: int|
                    0 <= k < j ==> redacted_command(self.commands@[k], #[trigger] commands@[k]),
            decreases self.commands@.len() - j,
        {
            commands.push(redact_command(&self.commands[j]));
            j = j + 1;
        }
        let mut files: Vec<FileProof> = Vec::new();
        let mut k: usize = 0;
        while k < self.files.len()
            invariant
                0 <= k <= self.files@.len(),
                files@.len() == k,
                forall|m: int| 0 <= m < k ==> redacted_file(self.files@[m], #[trigger] files@[m]),
            decreases self.files@.len() - k,
        {
            let f = &self.files[k];
            files.push(
                FileProof {
                    path: redact_secrets(f.path.as_str()),
                    purpose: redact_secrets(f.purpose.as_str()),
                },
            );
            k = k + 1;
        }
        let mut outcomes: Vec<OutcomeProof> = Vec::new();
        let mut m: usize = 0;
        while m < self.outcomes.len()
            invariant
                0 <= m <= self.outcomes@.len(),
                outcomes@.len() == m,
                forall|q: int|
                    0 <= q < m ==> redacted_outcome(self.outcomes@[q], #[trigger] outcomes@[q]),
            decreases self.outcomes@.len() - m,
        {
            outcomes.push(redact_outcome(&self.outcomes[m]));
            m = m + 1;
        }
        let worktree_identity = match &self.worktree_identity {
            Some(i) => Some(redact_identity(i)),
            None => None,
        };
        ProofReceipt {
            schema: self.schema.clone(),
            receipt_id: String::new(),
            redacted: false,
            redacted_payload_digest: None,
            claim,
            worktree_identity,
            summary: redact_secrets(self.summary.as_str()),
            commands,
            files,
            outcomes,
        }
    }

    /// The receipt in the form in which it is shown: masked, with the
    /// canonical id of this receipt and the digest of the masked payload.
    pub fn display_form(&self) -> (r: Result<ProofReceipt>)
        ensures
            agrees(r, receipt_check(*self)),
            r is Ok ==> display_form_of(*self, r->Ok_0),
    {
        let canonical_id = self.receipt_id()?;
        let masked = self.redacted_for_render();
        let ghost masked_view = masked;
        let mut shown = masked;
        shown.receipt_id = canonical_id;
        shown.redacted = true;
        let digest = shown.rendered_payload_digest();
        shown.redacted_payload_digest = Some(digest);
        proof {
            assert(redacted_for_render_of(*self, masked_view));
        }
        Ok(shown)
    }

    /// Renders the receipt for display, masked, in JSON (pretty, with a
    /// final line break) or in Markdown.
    pub fn render(&self, format: ReceiptFormat) -> (r: Result<String>)
        ensures
            agrees(r, receipt_check(*self)),
            r is Ok ==> exists|shown: ProofReceipt|
                #![trigger display_form_of(*self, shown)]
                display_form_of(*self, shown) && r->Ok_0@ == match format {
                    ReceiptFormat::Json => receipt_json(shown, true, 0).push('\n'),
                    ReceiptFormat::Markdown => receipt_markdown(shown),
                },
    {
        let shown = self.display_form()?;
        match format {
            ReceiptFormat::Json => {
                let mut json = shown.to_json(true);
                push_char(&mut json, '\n');
                Ok(json)
            },
            ReceiptFormat::Markdown => Ok(shown.render_markdown()),
        }
    }
}

// ---------------------------------------------------------------------------
// Markdown
// ---------------------------------------------------------------------------

pub open spec fn kind_debug_name(k: GitCheckoutKind) -> Seq<char> {
    match k {
        GitCheckoutKind::NotRepository => "NotRepository"@,
        GitCheckoutKind::MainWorktree => "MainWorktree"@,
        GitCheckoutKind::LinkedWorktree => "LinkedWorktree"@,
        GitCheckoutKind::Submodule => "Submodule"@,
        GitCheckoutKind::Bare => "Bare"@,
    }
}

pub fn kind_debug_text(k: GitCheckoutKind) -> (r: &'static str)
    ensures
        r@ == kind_debug_name(k),
{
    match k {
        GitCheckoutKind::NotRepository => "NotRepository",
        GitCheckoutKind::MainWorktree => "MainWorktree",
        GitCheckoutKind::LinkedWorktree => "LinkedWorktree",
        GitCheckoutKind::Submodule => "Submodule",
        GitCheckoutKind::Bare => "Bare",
    }
}

pub open spec fn class_debug_name(c: VerificationClass) -> Seq<char> {
    match c {
        VerificationClass::Small => "Small"@,
        VerificationClass::Targeted => "Targeted"@,
        VerificationClass::Heavy => "Heavy"@,
    }
}

fn class_debug_text(c: VerificationClass) -> (r: &'static str)
    ensures
        r@ == class_debug_name(c),
{
    match c {
        VerificationClass::Small => "Small",
        VerificationClass::Targeted => "Targeted",
        VerificationClass::Heavy => "Heavy",
    }
}

pub open spec fn status_label(s: CommandStatus) -> Seq<char> {
    match s {
        CommandStatus::Passed { exit_code } => "passed("@ + signed_decimal(exit_code as int) + ")"@,
        CommandStatus::Failed { exit_code } => "failed("@ + signed_decimal(exit_code as int) + ")"@,
        CommandStatus::Skipped { reason } => "skipped: "@ + md_escape(reason@),
        CommandStatus::Blocked { reason } => "blocked: "@ + md_escape(reason@),
        CommandStatus::NotRun => "not_run"@,
    }
}

pub open spec fn evidence_label(e: Option<CommandEvidence>) -> Seq<char> {
    match e {
        Some(ev) => "cwd: "@ + md_escape(ev.cwd@) + "; stdout: "@ + ev.stdout_digest@ + "; stderr: "@
            + ev.stderr_digest@,
        None => "-"@,
    }
}

pub open spec fn outcome_label(o: OutcomeProof) -> Seq<char> {
    match o {
        OutcomeProof::Verified { summary } => "verified: "@ + md_escape(summary@),
        OutcomeProof::Partial { summary } => "partial: "@ + md_escape(summary@),
        OutcomeProof::Blocked { reason } => "blocked: "@ + md_escape(reason@),
    }
}

pub open spec fn has_unfinished_command(cs: Seq<CommandProof>) -> bool {
    exists|i: int|
        0 <= i < cs.len() && ((#[trigger] cs[i]).status is Failed || cs[i].status is Skipped
            || cs[i].status is NotRun)
}

/// Blocked when the receipt records a blocker; partial when an outcome is
/// partial or a command failed, was skipped or did not run; verified
/// otherwise.
pub open spec fn receipt_status_label(r: ProofReceipt) -> Seq<char> {
    if receipt_blockers(r).len() > 0 {
        "blocked"@
    } else if has_partial_outcome(r.outcomes@) || has_unfinished_command(r.commands@) {
        "partial"@
    } else {
        "verified"@
    }
}

pub open spec fn command_row(index: nat, c: CommandProof) -> Seq<char> {
    "| "@ + decimal(index) + " | "@ + class_debug_name(c.class) + " | "@ + status_label(c.status)
        + " | "@ + evidence_label(c.evidence) + " | "@ + md_escape(c.command@) + " |\n"@
}

pub open spec fn command_rows(cs: Seq<CommandProof>) -> Seq<char>
    decreases cs.len(),
{
    if cs.len() == 0 {
        Seq::empty()
    } else {
        command_rows(cs.drop_last()) + command_row(cs.len(), cs.last())
    }
}

pub open spec fn file_rows(fs: Seq<FileProof>) -> Seq<char>
    decreases fs.len(),
{
    if fs.len() == 0 {
        Seq::empty()
    } else {
        file_rows(fs.drop_last()) + "| "@ + md_escape(fs.last().path@) + " | "@ + md_escape(
            fs.last().purpose@,
        ) + " |\n"@
    }
}

pub open spec fn outcome_lines(os: Seq<OutcomeProof>) -> Seq<char>
    decreases os.len(),
{
    if os.len() == 0 {
        Seq::empty()
    } else {
        outcome_lines(os.drop_last()) + "- "@ + outcome_label(os.last()) + "\n"@
    }
}

pub open spec fn worktree_section(i: Option<WorktreeIdentity>) -> Seq<char> {
    match i {
        Some(id) => "## Worktree\n"@ + "- Kind: "@ + kind_debug_name(id.kind) + "\n"@ + "- Root: "@
            + md_escape(id.input_root@) + "\n"@ + match id.branch {
            Some(b) => "- Branch: "@ + md_escape(b@) + "\n"@,
            None => Seq::empty(),
        } + match id.remote {
            Some(rm) => "- Remote: "@ + md_escape(rm@) + "\n"@,
            None => Seq::empty(),
        } + "\n"@,
        None => Seq::empty(),
    }
}

pub open spec fn digest_section(r: ProofReceipt) -> Seq<char> {
    "## Digest\n"@ + "- Algorithm: blake3\n"@ + "- Canonicalization: driven_receipt_v1\n"@ + if r.redacted {
        "- Canonical receipt: `"@ + r.receipt_id@ + "`\n"@ + match r.redacted_payload_digest {
            Some(d) => "- Redacted payload: `"@ + d@ + "`\n"@,
            None => Seq::empty(),
        }
    } else {
        "- Value: `"@ + r.receipt_id@ + "`\n"@
    }
}

/// The Markdown rendering of a receipt.
pub open spec fn receipt_markdown(r: ProofReceipt) -> Seq<char> {
    "# DX Proof Receipt: "@ + r.receipt_id@ + "\n\n"@ + "Status: "@ + receipt_status_label(r) + "\n"@
        + "Scope: lane "@ + decimal(r.claim.lane@ as nat) + " / pass "@ + decimal(r.claim.pass@ as nat)
        + " / worker "@ + r.claim.worker_id@ + "\n\n"@ + worktree_section(r.worktree_identity)
        + "## Summary\n"@ + "- "@ + md_escape(r.summary@) + "\n\n"@ + "## Commands\n"@
        + "| # | Class | Status | Evidence | Command |\n"@ + "|---|---|---|---|---|\n"@ + command_rows(
        r.commands@,
    ) + (if r.commands@.len() == 0 {
        "| - | - | not_run | - | - |\n"@
    } else {
        Seq::empty()
    }) + "\n"@ + "## Files\n"@ + "| Path | Purpose |\n"@ + "|---|---|\n"@ + file_rows(r.files@) + (
    if r.files@.len() == 0 {
        "| - | - |\n"@
    } else {
        Seq::empty()
    }) + "\n"@ + "## Outcomes\n"@ + outcome_lines(r.outcomes@) + (if r.outcomes@.len() == 0 {
        "- No outcome proof recorded.\n"@
    } else {
        Seq::empty()
    }) + "\n"@ + digest_section(r)
}

fn push_status_label(out: &mut String, s: &CommandStatus)
    ensures
        final(out)@ == old(out)@ + status_label(*s),
{
    match s {
        CommandStatus::Passed { exit_code } => {
            out.append("passed(");
            push_signed_decimal(out, *exit_code as i64);
            out.append(")");
        },
        CommandStatus::Failed { exit_code } => {
            out.append("failed(");
            push_signed_decimal(out, *exit_code as i64);
            out.append(")");
        },
        CommandStatus::Skipped { reason } => {
            out.append("skipped: ");
            out.append(escape_markdown_text(reason.as_str()).as_str());
        },
        CommandStatus::Blocked { reason } => {
            out.append("blocked: ");
            out.append(escape_markdown_text(reason.as_str()).as_str());
        },
        CommandStatus::NotRun => {
            out.append("not_run");
        },
    }
    assert(final(out)@ =~= old(out)@ + status_label(*s));
}

fn push_evidence_label(out: &mut String, e: &Option<CommandEvidence>)
    ensures
        final(out)@ == old(out)@ + evidence_label(*e),
{
    match e {
        Some(ev) => {
            out.append("cwd: ");
            out.append(escape_markdown_text(ev.cwd.as_str()).as_str());
            out.append("; stdout: ");
            out.append(ev.stdout_digest.as_str());
            out.append("; stderr: ");
            out.append(ev.stderr_digest.as_str());
        },
        None => {
            out.append("-");
        },
    }
    assert(final(out)@ =~= old(out)@ + evidence_label(*e));
}

fn push_outcome_label(out: &mut String, o: &OutcomeProof)
    ensures
        final(out)@ == old(out)@ + outcome_label(*o),
{
    match o {
        OutcomeProof::Verified { summary } => {
            out.append("verified: ");
            out.append(escape_markdown_text(summary.as_str()).as_str());
        },
        OutcomeProof::Partial { summary } => {
            out.append("partial: ");
            out.append(escape_markdown_text(summary.as_str()).as_str());
        },
        OutcomeProof::Blocked { reason } => {
            out.append("blocked: ");
            out.append(escape_markdown_text(reason.as_str()).as_str());
        },
    }
    assert(final(out)@ =~= old(out)@ + outcome_label(*o));
}

fn any_unfinished_command(cs: &Vec<CommandProof>) -> (r: bool)
    ensures
        r == has_unfinished_command(cs@),
{
    let mut i: usize = 0;
    while i < cs.len()
        invariant
            0 <= i <= cs@.len(),
            forall|k: int|
                0 <= k < i ==> !((#[trigger] cs@[k]).status is Failed || cs@[k].status is Skipped
                    || cs@[k].status is NotRun),
        decreases cs@.len() - i,
    {
        match &cs[i].status {
            CommandStatus::Failed { .. } | CommandStatus::Skipped { .. } | CommandStatus::NotRun => {
                return true;
            },
            _ => {},
        }
        i = i + 1;
    }
    false
}

fn any_partial(os: &Vec<OutcomeProof>) -> (r: bool)
    ensures
        r == has_partial_outcome(os@),
{
    let mut i: usize = 0;
    while i < os.len()
        invariant
            0 <= i <= os@.len(),
            forall|k: int| 0 <= k < i ==> !((#[trigger] os@[k]) is Partial),
        decreases os@.len() - i,
    {
        if let OutcomeProof::Partial { .. } = &os[i] {
            return true;
        }
        i = i + 1;
    }
    false
}

fn push_worktree_section(out: &mut String, i: &Option<WorktreeIdentity>)
    ensures
        final(out)@ == old(out)@ + worktree_section(*i),
{
    if let Some(id) = i {
        out.append("## Worktree\n");
        out.append("- Kind: ");
        out.append(kind_debug_text(id.kind));
        out.append("\n");
        out.append("- Root: ");
        out.append(escape_markdown_text(id.input_root.as_str()).as_str());
        out.append("\n");
        if let Some(b) = &id.branch {
            out.append("- Branch: ");
            out.append(escape_markdown_text(b.as_str()).as_str());
            out.append("\n");
        }
        if let Some(rm) = &id.remote {
            out.append("- Remote: ");
            out.append(escape_markdown_text(rm.as_str()).as_str());
            out.append("\n");
        }
        out.append("\n");
    }
    assert(final(out)@ =~= old(out)@ + worktree_section(*i));
}

fn push_digest_section(out: &mut String, r: &ProofReceipt)
    ensures
        final(out)@ == old(out)@ + digest_section(*r),
{
    out.append("## Digest\n");
    out.append("- Algorithm: blake3\n");
    out.append("- Canonicalization: driven_receipt_v1\n");
    if r.redacted {
        out.append("- Canonical receipt: `");
        out.append(r.receipt_id.as_str());
        out.append("`\n");
        if let Some(d) = &r.redacted_payload_digest {
            out.append("- Redacted payload: `");
            out.append(d.as_str());
            out.append("`\n");
        }
    } else {
        out.append("- Value: `");
        out.append(r.receipt_id.as_str());
        out.append("`\n");
    }
    assert(final(out)@ =~= old(out)@ + digest_section(*r));
}

fn push_command_row(out: &mut String, index: u64, c: &CommandProof)
    ensures
        final(out)@ == old(out)@ + command_row(index as nat, *c),
{
    out.append("| ");
    push_decimal(out, index);
    out.append(" | ");
    out.append(class_debug_text(c.class));
    out.append(" | ");
    push_status_label(out, &c.status);
    out.append(" | ");
    push_evidence_label(out, &c.evidence);
    out.append(" | ");
    out.append(escape_markdown_text(c.command.as_str()).as_str());
    out.append(" |\n");
    assert(final(out)@ =~= old(out)@ + command_row(index as nat, *c));
}

fn push_command_rows(out: &mut String, cs: &Vec<CommandProof>)
    ensures
        final(out)@ == old(out)@ + command_rows(cs@),
{
    let ghost start = out@;
    let mut i: usize = 0;
    while i < cs.len()
        invariant
            0 <= i <= cs@.len(),
            out@ =~= start + command_rows(cs@.subrange(0, i as int)),
        decreases cs@.len() - i,
    {
        push_command_row(out, (i + 1) as u64, &cs[i]);
        let ghost prefix = cs@.subrange(0, i + 1);
        assert(prefix.drop_last() =~= cs@.subrange(0, i as int));
        assert(prefix.last() == cs@[i as int]);
        i = i + 1;
    }
    assert(cs@.subrange(0, cs@.len() as int) =~= cs@);
}

fn push_file_rows(out: &mut String, fs: &Vec<FileProof>)
    ensures
        final(out)@ == old(out)@ + file_rows(fs@),
{
    let ghost start = out@;
    let mut i: usize = 0;
    while i < fs.len()
        invariant
            0 <= i <= fs@.len(),
            out@ =~= start + file_rows(fs@.subrange(0, i as int)),
        decreases fs@.len() - i,
    {
        let f = &fs[i];
        out.append("| ");
        out.append(escape_markdown_text(f.path.as_str()).as_str());
        out.append(" | ");
        out.append(escape_markdown_text(f.purpose.as_str()).as_str());
        out.append(" |\n");
        let ghost prefix = fs@.subrange(0, i + 1);
        assert(prefix.drop_last() =~= fs@.subrange(0, i as int));
        i = i + 1;
    }
    assert(fs@.subrange(0, fs@.len() as int) =~= fs@);
}

fn push_outcome_lines(out: &mut String, os: &Vec<OutcomeProof>)
    ensures
        final(out)@ == old(out)@ + outcome_lines(os@),
{
    let ghost start = out@;
    let mut i: usize = 0;
    while i < os.len()
        invariant
            0 <= i <= os@.len(),
            out@ =~= start + outcome_lines(os@.subrange(0, i as int)),
        decreases os@.len() - i,
    {
        out.append("- ");
        push_outcome_label(out, &os[i]);
        out.append("\n");
        let ghost prefix = os@.subrange(0, i + 1);
        assert(prefix.drop_last() =~= os@.subrange(0, i as int));
        i = i + 1;
    }
    assert(os@.subrange(0, os@.len() as int) =~= os@);
}

impl ProofReceipt {
    /// The receipt rendered as Markdown, as it stands.
    #[verifier::rlimit(40)]
    pub fn render_markdown(&self) -> (r: String)
        ensures
            r@ == receipt_markdown(*self),
    {
        let mut out = String::from_str("# DX Proof Receipt: ");
        out.append(self.receipt_id.as_str());
        out.append("\n\n");
        out.append("Status: ");
        let blockers = self.blockers();
        let label = if blockers.len() > 0 {
            "blocked"
        } else if any_partial(&self.outcomes) || any_unfinished_command(&self.commands) {
            "partial"
        } else {
            "verified"
        };
        out.append(label);
        out.append("\n");
        out.append("Scope: lane ");
        push_decimal(&mut out, self.claim.lane.value() as u64);
        out.append(" / pass ");
        push_decimal(&mut out, self.claim.pass.value() as u64);
        out.append(" / worker ");
        out.append(self.claim.worker_id.as_str());
        out.append("\n\n");
        let ghost part1 = out@;
        push_worktree_section(&mut out, &self.worktree_identity);
        out.append("## Summary\n");
        out.append("- ");
        out.append(escape_markdown_text(self.summary.as_str()).as_str());
        out.append("\n\n");
        out.append("## Commands\n");
        out.append("| # | Class | Status | Evidence | Command |\n");
        out.append("|---|---|---|---|---|\n");
        push_command_rows(&mut out, &self.commands);
        if self.commands.len() == 0 {
            out.append("| - | - | not_run | - | - |\n");
        }
        out.append("\n");
        let ghost part2 = out@;
        out.append("## Files\n");
        out.append("| Path | Purpose |\n");
        out.append("|---|---|\n");
        push_file_rows(&mut out, &self.files);
        if self.files.len() == 0 {
            out.append("| - | - |\n");
        }
        out.append("\n");
        out.append("## Outcomes\n");
        push_outcome_lines(&mut out, &self.outcomes);
        if self.outcomes.len() == 0 {
            out.append("- No outcome proof recorded.\n");
        }
        out.append("\n");
        push_digest_section(&mut out, self);
        assert(out@ =~= receipt_markdown(*self));
        out
    }
}

} // verus!
