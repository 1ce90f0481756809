//! What the lane/pass strategy commands compute: their options, the
//! configuration of the store they run, the modeled claim, and the text
//! they print.

use vstd::prelude::*;

use crate::error::{agrees, validation, validation_owned, Result};
use crate::json::strings_view;
use crate::strategy::handoff::{built_handoff, NextPassHandoff};

use crate::strategy::identity::{
    claim_check, lane_check, lemma_new_claim_valid, new_claim_fields, normalized_id, pass_check,
    pass_next_check, worker_id_check, LaneClaim, LaneId, PassNumber, WorkerId,
};
use crate::strategy::orchestration::{LanePassAssignment, LanePassAssignmentStatus, LanePassConfig};
use crate::strategy::receipt::{
    canonical_receipt_id, receipt_check, CommandProof, FileProof, OutcomeProof, ProofReceipt,
    ReceiptFormat, PROOF_RECEIPT_SCHEMA,
};
use crate::strategy::receipt_render::{
    display_form_of, escape_markdown_text, kind_debug_name, kind_debug_text, md_escape,
    receipt_markdown,
};
use crate::strategy::worktree::{
    opt_view, plan_of, GitCheckoutKind, WorktreeCreationDecision, WorktreeIsolationPlan,
    WorktreeMetadata,
};
use crate::text::{decimal, is_blank, is_blank_str, is_white_space, push_decimal};

verus! {

/// The lane/pass strategy commands.
pub struct StrategyCommand;

/// Options shared by the commands that run a lane/pass store.
#[derive(Debug)]
pub struct StrategyStateOptions {
    pub cycle_lanes: bool,
    pub project_root: Option<String>,
    pub strict_isolation: bool,
    pub handoff_required_for_next: bool,
}

impl Default for StrategyStateOptions {
    fn default() -> (r: Self)
        ensures
            !r.cycle_lanes,
            r.project_root is None,
            !r.strict_isolation,
            !r.handoff_required_for_next,
    {
        StrategyStateOptions {
            cycle_lanes: false,
            project_root: None,
            strict_isolation: false,
            handoff_required_for_next: false,
        }
    }
}

impl Clone for StrategyStateOptions {
    fn clone(&self) -> (r: Self)
        ensures
            r == *self,
    {
        StrategyStateOptions {
            cycle_lanes: self.cycle_lanes,
            project_root: crate::strategy::worktree::clone_opt_string(&self.project_root),
            strict_isolation: self.strict_isolation,
            handoff_required_for_next: self.handoff_required_for_next,
        }
    }
}

impl StrategyStateOptions {
    pub fn with_lane_cycling(self, cycle_lanes: bool) -> (r: Self)
        ensures
            r == (StrategyStateOptions { cycle_lanes, ..self }),
    {
        let mut o = self;
        o.cycle_lanes = cycle_lanes;
        o
    }

    pub fn with_project_root(self, project_root: &str) -> (r: Self)
        ensures
            r == (StrategyStateOptions { project_root: r.project_root, ..self }),
            opt_view(r.project_root) == Some(project_root@),
    {
        let mut o = self;
        o.project_root = Some(String::from_str(project_root));
        o
    }

    pub fn with_strict_isolation(self, strict_isolation: bool) -> (r: Self)
        ensures
            r == (StrategyStateOptions { strict_isolation, ..self }),
    {
        let mut o = self;
        o.strict_isolation = strict_isolation;
        o
    }

    pub fn with_handoff_required_for_next(self, required: bool) -> (r: Self)
        ensures
            r == (StrategyStateOptions { handoff_required_for_next: required, ..self }),
    {
        let mut o = self;
        o.handoff_required_for_next = required;
        o
    }
}

/// The claim that the `claim` command models, with the receipt id and the
/// handoff it would lead to.
pub struct StrategyClaimOutput {
    pub claim: LaneClaim,
    pub receipt_id: String,
    pub handoff: NextPassHandoff,
    pub worktree: WorktreeMetadata,
    pub worktree_plan: WorktreeIsolationPlan,
    pub recommended_small_commands: Vec<String>,
}

/// What inspecting a checkout shows.
pub struct StrategyWorktreeInspection {
    pub worktree: WorktreeMetadata,
    pub worktree_plan: WorktreeIsolationPlan,
}

/// The configuration of the store that a command runs: the state
/// directory and scope, the project root that the caller resolved (the
/// one given in the options, else the current directory, made absolute),
/// lane cycling and the handoff requirement from the options, and the
/// lane and pass limits.
pub open spec fn command_config(
    c: LanePassConfig,
    state_dir: Seq<char>,
    scope: Seq<char>,
    options: StrategyStateOptions,
    project_root: Option<Seq<char>>,
    max_lanes: u8,
    max_passes: u32,
) -> bool {
    &&& c.state_dir@ == state_dir
    &&& c.scope@ == scope
    &&& c.max_lanes == max_lanes
    &&& c.max_passes == max_passes
    &&& c.cycle_lanes == options.cycle_lanes
    &&& opt_view(c.project_root) == project_root
    &&& c.handoff_required_for_next == options.handoff_required_for_next
}

pub open spec fn decision_debug_name(d: WorktreeCreationDecision) -> Seq<char> {
    match d {
        WorktreeCreationDecision::Blocked => "Blocked"@,
        WorktreeCreationDecision::CreateGitWorktree => "CreateGitWorktree"@,
        WorktreeCreationDecision::ReuseCurrentWorktree => "ReuseCurrentWorktree"@,
    }
}

fn decision_debug_text(d: WorktreeCreationDecision) -> (r: &'static str)
    ensures
        r@ == decision_debug_name(d),
{
    match d {
        WorktreeCreationDecision::Blocked => "Blocked",
        WorktreeCreationDecision::CreateGitWorktree => "CreateGitWorktree",
        WorktreeCreationDecision::ReuseCurrentWorktree => "ReuseCurrentWorktree",
    }
}

pub open spec fn status_debug_name(s: LanePassAssignmentStatus) -> Seq<char> {
    match s {
        LanePassAssignmentStatus::Peeked => "Peeked"@,
        LanePassAssignmentStatus::Claimed => "Claimed"@,
        LanePassAssignmentStatus::Advanced => "Advanced"@,
        LanePassAssignmentStatus::Completed => "Completed"@,
        LanePassAssignmentStatus::Released => "Released"@,
    }
}

fn status_debug_text(s: LanePassAssignmentStatus) -> (r: &'static str)
    ensures
        r@ == status_debug_name(s),
{
    match s {
        LanePassAssignmentStatus::Peeked => "Peeked",
        LanePassAssignmentStatus::Claimed => "Claimed",
        LanePassAssignmentStatus::Advanced => "Advanced",
        LanePassAssignmentStatus::Completed => "Completed",
        LanePassAssignmentStatus::Released => "Released",
    }
}

/// `items` joined with `sep` between them.
pub open spec fn joined(items: Seq<Seq<char>>, sep: Seq<char>) -> Seq<char>
    decreases items.len(),
{
    if items.len() == 0 {
        Seq::empty()
    } else if items.len() == 1 {
        items[0]
    } else {
        joined(items.drop_last(), sep) + sep + items.last()
    }
}

/// Appends `items` joined with `sep`.
pub fn push_joined(out: &mut String, items: &Vec<String>, sep: &str)
    ensures
        final(out)@ == old(out)@ + joined(strings_view(items@), sep@),
{
    let ghost start = out@;
    let mut i: usize = 0;
    while i < items.len()
        invariant
            0 <= i <= items@.len(),
            out@ == start + joined(strings_view(items@.subrange(0, i as int)), sep@),
        decreases items@.len() - i,
    {
        let ghost before = strings_view(items@.subrange(0, i as int));
        let ghost after = strings_view(items@.subrange(0, i + 1));
        assert(after.drop_last() =~= before);
        assert(after.last() == items@[i as int]@);
        if i > 0 {
            out.append(sep);
        }
        out.append(items[i].as_str());
        proof {
            if i == 0 {
                assert(after.len() == 1);
            }
        }
        assert(out@ =~= start + joined(after, sep@));
        i = i + 1;
    }
    assert(items@.subrange(0, items@.len() as int) =~= items@);
}

/// Why strict isolation refuses to run in a checkout: it must be a linked
/// worktree or submodule, with neither blockers nor warnings.
pub open spec fn strict_isolation_check(plan: WorktreeIsolationPlan) -> Option<Seq<char>> {
    if plan.native_isolation_detected && plan.blockers@.len() == 0 && plan.warnings@.len() == 0 {
        None
    } else {
        Some(
            "strict isolation requires a clean isolated worktree; decision="@ + decision_debug_name(
                plan.creation_decision,
            ) + "; blockers="@ + joined(strings_view(plan.blockers@), "; "@) + "; warnings="@
                + joined(strings_view(plan.warnings@), "; "@),
        )
    }
}

/// The first pass of a lane with its claim modeled, no verification run
/// yet.
pub const MODELED_RECEIPT_SUMMARY: &'static str = "lane/pass claim modeled";

pub const MODELED_OUTCOME: &'static str = "claim created; run verification commands before closing the pass";

/// Why the `claim` command refuses its arguments: the worker id, lane and
/// pass must be valid, the scope and the next action not blank, and the
/// pass must have a next one.
pub open spec fn claim_command_check(
    lane: u8,
    pass: u32,
    worker: Seq<char>,
    scope: Seq<char>,
    next_action: Seq<char>,
) -> Option<Seq<char>> {
    if worker_id_check(worker) is Some {
        worker_id_check(worker)
    } else if lane_check(lane) is Some {
        lane_check(lane)
    } else if pass_check(pass) is Some {
        pass_check(pass)
    } else if is_blank(scope) {
        Some("lane scope cannot be empty"@)
    } else if is_blank(next_action) {
        Some("next-pass handoff requires a next action"@)
    } else {
        pass_next_check(pass)
    }
}

/// The receipt that records a modeled claim: no command, no file, and the
/// one partial outcome that says verification is still to come.
pub open spec fn modeled_receipt(r: ProofReceipt, c: LaneClaim) -> bool {
    &&& r.schema@ == PROOF_RECEIPT_SCHEMA@
    &&& r.receipt_id@ == Seq::<char>::empty()
    &&& !r.redacted
    &&& r.redacted_payload_digest is None
    &&& r.claim == (LaneClaim { subagents: r.claim.subagents, ..c })
    &&& r.claim.subagents@ == c.subagents@
    &&& r.worktree_identity is None
    &&& r.summary@ == MODELED_RECEIPT_SUMMARY@
    &&& r.commands@.len() == 0
    &&& r.files@.len() == 0
    &&& r.outcomes@.len() == 1
    &&& r.outcomes@[0] is Partial
    &&& r.outcomes@[0]->Partial_summary@ == MODELED_OUTCOME@
}

/// `- Worktree blocker: <blocker>` lines.
pub open spec fn blocker_lines(blockers: Seq<Seq<char>>) -> Seq<char>
    decreases blockers.len(),
{
    if blockers.len() == 0 {
        Seq::empty()
    } else {
        blocker_lines(blockers.drop_last()) + "- Worktree blocker: "@ + md_escape(blockers.last())
            + "\n"@
    }
}

/// ``- `<command>` `` lines.
pub open spec fn command_lines(commands: Seq<Seq<char>>) -> Seq<char>
    decreases commands.len(),
{
    if commands.len() == 0 {
        Seq::empty()
    } else {
        command_lines(commands.drop_last()) + "- `"@ + commands.last() + "`\n"@
    }
}

/// The Markdown of a modeled claim before its receipt.
pub open spec fn claim_markdown_head(o: StrategyClaimOutput) -> Seq<char> {
    "# DX Lane/Pass Claim\n\n"@ + "- Lane: "@ + decimal(o.claim.lane@ as nat) + "\n"@ + "- Pass: "@
        + decimal(o.claim.pass@ as nat) + "\n"@ + "- Worker: "@ + o.claim.worker_id@ + "\n"@
        + "- Scope: "@ + md_escape(o.claim.scope@) + "\n"@ + "- Next pass: "@ + decimal(
        o.handoff.next_pass@ as nat,
    ) + "\n"@ + "- Next action: "@ + md_escape(o.handoff.next_action@) + "\n"@
        + "- Worktree kind: "@ + kind_debug_name(o.worktree.kind) + "\n\n"@
        + "- Worktree decision: "@ + decision_debug_name(o.worktree_plan.creation_decision) + "\n"@
        + blocker_lines(strings_view(o.worktree_plan.blockers@)) + "\n"@ + "## Small Commands First\n"@
        + command_lines(strings_view(o.recommended_small_commands@)) + "\n"@
}

/// The Markdown summary of an assignment.
pub open spec fn assignment_markdown(a: LanePassAssignment) -> Seq<char> {
    "# DX Lane/Pass Assignment\n\n- Status: "@ + status_debug_name(a.status) + "\n- Scope: "@
        + md_escape(a.scope@) + "\n- Lane: "@ + decimal(a.lane@ as nat) + "\n- Pass: "@ + decimal(
        a.pass@ as nat,
    ) + "\n- Worker: "@ + a.worker_id@ + "\n- Counter: "@ + a.paths.counter_path@ + "\n- Claims: "@
        + a.paths.claims_path@ + "\n"@
}

/// The text shown when inspecting a checkout.
pub open spec fn inspection_text(i: StrategyWorktreeInspection) -> Seq<char> {
    "Worktree kind: "@ + kind_debug_name(i.worktree.kind) + "\nRoot: "@ + match i.worktree.worktree_root {
        Some(root) => root@,
        None => "not a repository"@,
    } + "\nBranch: "@ + match i.worktree.branch {
        Some(b) => b@,
        None => "detached-or-none"@,
    } + "\nDirty: "@ + match i.worktree.is_dirty {
        Some(true) => "true"@,
        Some(false) => "false"@,
        None => "unknown"@,
    } + "\nDecision: "@ + decision_debug_name(i.worktree_plan.creation_decision) + "\n"@
}

fn push_lines(out: &mut String, items: &Vec<String>, escape: bool)
    ensures
        final(out)@ == old(out)@ + (if escape {
            blocker_lines(strings_view(items@))
        } else {
            command_lines(strings_view(items@))
        }),
{
    let ghost start = out@;
    let mut i: usize = 0;
    while i < items.len()
        invariant
            0 <= i <= items@.len(),
            out@ == start + (if escape {
                blocker_lines(strings_view(items@.subrange(0, i as int)))
            } else {
                command_lines(strings_view(items@.subrange(0, i as int)))
            }),
        decreases items@.len() - i,
    {
        let ghost after = strings_view(items@.subrange(0, i + 1));
        assert(after.drop_last() =~= strings_view(items@.subrange(0, i as int)));
        assert(after.last() == items@[i as int]@);
        if escape {
            out.append("- Worktree blocker: ");
            out.append(escape_markdown_text(items[i].as_str()).as_str());
            out.append("\n");
        } else {
            out.append("- `");
            out.append(items[i].as_str());
            out.append("`\n");
        }
        i = i + 1;
    }
    assert(items@.subrange(0, items@.len() as int) =~= items@);
}

/// The receipt of a modeled claim is valid when the claim is.
proof fn lemma_modeled_receipt_valid(r: ProofReceipt, c: LaneClaim)
    requires
        modeled_receipt(r, c),
        claim_check(c) is None,
    ensures
        receipt_check(r) is None,
{
    reveal_strlit("lane/pass claim modeled");
    reveal_strlit("claim created; run verification commands before closing the pass");
    assert(MODELED_RECEIPT_SUMMARY@ == "lane/pass claim modeled"@);
    assert(!is_white_space(r.summary@[0]));
    assert(!is_blank(r.summary@));
    let o = r.outcomes@[0];
    assert(!is_white_space(o->Partial_summary@[0]));
    assert(crate::strategy::receipt::outcome_check(o) is None);
    assert(claim_check(r.claim) == claim_check(c));
    assert(r.commands@ =~= Seq::<CommandProof>::empty());
    assert(r.files@ =~= Seq::<FileProof>::empty());
    assert(r.outcomes@.drop_first() =~= Seq::<OutcomeProof>::empty());
    assert(crate::strategy::receipt::outcomes_check(r.outcomes@.drop_first()) is None);
    assert(crate::strategy::receipt::outcomes_check(r.outcomes@) is None);
    assert(crate::strategy::receipt::commands_check(r.commands@) is None);
    assert(crate::strategy::receipt::files_check(r.files@) is None);
    assert(!crate::strategy::receipt::has_verified_outcome(r.outcomes@));
    assert(!crate::strategy::receipt::has_blocked_command(r.commands@));
}

#[verifier::rlimit(40)]
fn claim_head(output: &StrategyClaimOutput) -> (r: String)
    ensures
        r@ == claim_markdown_head(*output),
{
    let mut md = String::from_str("# DX Lane/Pass Claim\n\n");
    md.append("- Lane: ");
    push_decimal(&mut md, output.claim.lane.value() as u64);
    md.append("\n");
    md.append("- Pass: ");
    push_decimal(&mut md, output.claim.pass.value() as u64);
    md.append("\n");
    md.append("- Worker: ");
    md.append(output.claim.worker_id.as_str());
    md.append("\n");
    md.append("- Scope: ");
    md.append(escape_markdown_text(output.claim.scope.as_str()).as_str());
    md.append("\n");
    md.append("- Next pass: ");
    push_decimal(&mut md, output.handoff.next_pass.value() as u64);
    md.append("\n");
    md.append("- Next action: ");
    md.append(escape_markdown_text(output.handoff.next_action.as_str()).as_str());
    md.append("\n");
    md.append("- Worktree kind: ");
    md.append(kind_debug_text(output.worktree.kind));
    md.append("\n\n");
    md.append("- Worktree decision: ");
    md.append(decision_debug_text(output.worktree_plan.creation_decision));
    md.append("\n");
    let ghost part = md@;
    push_lines(&mut md, &output.worktree_plan.blockers, true);
    md.append("\n");
    md.append("## Small Commands First\n");
    push_lines(&mut md, &output.recommended_small_commands, false);
    md.append("\n");
    assert(md@ =~= claim_markdown_head(*output));
    md
}

impl StrategyCommand {
    /// The configuration of the store that a command runs, for the
    /// project root that the caller resolved.
    pub fn state_config(
        state_dir: &str,
        scope: &str,
        options: &StrategyStateOptions,
        project_root: Option<&str>,
        max_lanes: u8,
        max_passes: u32,
    ) -> (r: LanePassConfig)
        ensures
            command_config(
                r,
                state_dir@,
                scope@,
                *options,
                match project_root {
                    Some(p) => Some(p@),
                    None => None,
                },
                max_lanes,
                max_passes,
            ),
    {
        let config = LanePassConfig::new(state_dir, scope);
        let config = match project_root {
            Some(root) => config.with_project_root(root),
            None => config,
        };
        config.with_lane_cycling(options.cycle_lanes).with_handoff_required_for_next(
            options.handoff_required_for_next,
        ).with_max_lanes(max_lanes).with_max_passes(max_passes)
    }

    /// Strict isolation runs only in a clean linked worktree or submodule:
    /// the plan of the checkout must detect native isolation and carry
    /// neither blockers nor warnings.
    pub fn enforce_strict_isolation(plan: &WorktreeIsolationPlan) -> (r: Result<()>)
        ensures
            agrees(r, strict_isolation_check(*plan)),
    {
        if plan.native_isolation_detected && plan.blockers.len() == 0 && plan.warnings.len() == 0 {
            return Ok(());
        }
        let mut msg = String::from_str("strict isolation requires a clean isolated worktree; decision=");
        msg.append(decision_debug_text(plan.creation_decision));
        msg.append("; blockers=");
        push_joined(&mut msg, &plan.blockers, "; ");
        msg.append("; warnings=");
        push_joined(&mut msg, &plan.warnings, "; ");
        Err(validation_owned(msg))
    }

    /// Completing a pass needs a receipt: this is always refused.
    pub fn complete_state(
        state_dir: &str,
        scope: &str,
        max_lanes: u8,
        max_passes: u32,
        worker_id: &str,
        json: bool,
    ) -> (r: Result<String>)
        ensures
            r is Err,
            r->Err_0.is_validation_with(
                "completion requires a canonical proof receipt; use complete_state_with_receipt"@,
            ),
    {
        Err(validation("completion requires a canonical proof receipt; use complete_state_with_receipt"))
    }

    /// What the `claim` command models for a checkout: the claim of the
    /// lane and pass for the worker in the scope, the id of the receipt that
    /// records it as a partial outcome, the handoff that receipt leads to,
    /// the checkout and its plan, and the small commands to run first.
    pub fn claim_output(
        lane: u8,
        pass: u32,
        worker_id: &str,
        scope: &str,
        next_action: &str,
        worktree: WorktreeMetadata,
    ) -> (r: Result<(StrategyClaimOutput, ProofReceipt)>)
        ensures
            agrees(r, claim_command_check(lane, pass, worker_id@, scope@, next_action@)),
            r is Ok ==> {
                let o = r->Ok_0.0;
                let receipt = r->Ok_0.1;
                &&& new_claim_fields(o.claim, o.claim.lane, o.claim.pass, o.claim.worker_id, scope@)
                &&& o.claim.lane@ == lane
                &&& o.claim.pass@ == pass
                &&& o.claim.worker_id@ == normalized_id(worker_id@)
                &&& modeled_receipt(receipt, o.claim)
                &&& receipt_check(receipt) is None
                &&& o.receipt_id@ == canonical_receipt_id(receipt)
                &&& built_handoff(o.handoff, o.claim, receipt, next_action@)
                &&& o.worktree == worktree
                &&& plan_of(o.worktree_plan, worktree)
                &&& strings_view(o.recommended_small_commands@) == seq![
                    "git status --short --branch"@,
                    "rg -n \"(<{7}|>{7}|={7})\""@,
                    "cargo fmt --check"@,
                ]
            },
    {
        let worker = WorkerId::new(worker_id)?;
        let lane_id = LaneId::new(lane)?;
        let pass_number = PassNumber::new(pass)?;
        if is_blank_str(scope) {
            return Err(validation("lane scope cannot be empty"));
        }
        let claim = LaneClaim::new(lane_id, pass_number, worker, scope);
        proof {
            lemma_new_claim_valid(claim, lane_id, pass_number, claim.worker_id, scope@);
        }
        let receipt = ProofReceipt::new(claim.clone(), MODELED_RECEIPT_SUMMARY).with_outcome(
            OutcomeProof::partial(MODELED_OUTCOME),
        );
        proof {
            lemma_modeled_receipt_valid(receipt, claim);
        }
        let receipt_id = receipt.receipt_id()?;
        let handoff = claim.handoff_from(&receipt, next_action)?;
        let plan = WorktreeIsolationPlan::from_metadata(worktree.clone());
        let mut commands: Vec<String> = Vec::new();
        commands.push(String::from_str("git status --short --branch"));
        commands.push(String::from_str("rg -n \"(<{7}|>{7}|={7})\""));
        commands.push(String::from_str("cargo fmt --check"));
        assert(strings_view(commands@) =~= seq![
            "git status --short --branch"@,
            "rg -n \"(<{7}|>{7}|={7})\""@,
            "cargo fmt --check"@,
        ]);
        Ok(
            (
                StrategyClaimOutput {
                    claim,
                    receipt_id,
                    handoff,
                    worktree,
                    worktree_plan: plan,
                    recommended_small_commands: commands,
                },
                receipt,
            ),
        )
    }

    /// The Markdown of a modeled claim, followed by its receipt rendered as
    /// Markdown.
    pub fn render_claim_markdown(output: &StrategyClaimOutput, receipt: &ProofReceipt) -> (r: Result<
        String,
    >)
        ensures
            agrees(r, crate::strategy::receipt::receipt_check(*receipt)),
            r is Ok ==> exists|shown: ProofReceipt|
                #![trigger display_form_of(*receipt, shown)]
                display_form_of(*receipt, shown) && r->Ok_0@ == claim_markdown_head(*output)
                    + receipt_markdown(shown),
    {
        let mut md = claim_head(output);
        let body = receipt.render(ReceiptFormat::Markdown)?;
        md.append(body.as_str());
        Ok(md)
    }

    /// The Markdown summary of an assignment that the state commands print
    /// when JSON is not asked for.
    pub fn render_assignment_markdown(a: &LanePassAssignment) -> (r: String)
        ensures
            r@ == assignment_markdown(*a),
    {
        let mut md = String::from_str("# DX Lane/Pass Assignment\n\n- Status: ");
        md.append(status_debug_text(a.status));
        md.append("\n- Scope: ");
        md.append(escape_markdown_text(a.scope.as_str()).as_str());
        md.append("\n- Lane: ");
        push_decimal(&mut md, a.lane.value() as u64);
        md.append("\n- Pass: ");
        push_decimal(&mut md, a.pass.value() as u64);
        md.append("\n- Worker: ");
        md.append(a.worker_id.as_str());
        md.append("\n- Counter: ");
        md.append(a.paths.counter_path.as_str());
        md.append("\n- Claims: ");
        md.append(a.paths.claims_path.as_str());
        md.append("\n");
        assert(md@ =~= assignment_markdown(*a));
        md
    }

    /// What inspecting a checkout shows when JSON is not asked for.
    pub fn inspection_text(inspection: &StrategyWorktreeInspection) -> (r: String)
        ensures
            r@ == inspection_text(*inspection),
    {
        let mut out = String::from_str("Worktree kind: ");
        out.append(kind_debug_text(inspection.worktree.kind));
        out.append("\nRoot: ");
        match &inspection.worktree.worktree_root {
            Some(root) => out.append(root.as_str()),
            None => out.append("not a repository"),
        }
        out.append("\nBranch: ");
        match &inspection.worktree.branch {
            Some(b) => out.append(b.as_str()),
            None => out.append("detached-or-none"),
        }
        out.append("\nDirty: ");
        match inspection.worktree.is_dirty {
            Some(true) => out.append("true"),
            Some(false) => out.append("false"),
            None => out.append("unknown"),
        }
        out.append("\nDecision: ");
        out.append(decision_debug_text(inspection.worktree_plan.creation_decision));
        out.append("\n");
        assert(out@ =~= inspection_text(*inspection));
        out
    }
}

// ---------------------------------------------------------------------------
// Commands as displayed
// ---------------------------------------------------------------------------

/// The text that `format!("{:?}", s)` gives for a string slice: `s` in
/// double quotes with its quotes, backslashes and non-printable
/// characters escaped.
pub uninterp spec fn str_debug(s: Seq<char>) -> Seq<char>;

/// Renders `s` with `<str as Debug>::fmt` through `format!("{:?}", s)`. The
/// contract claims only that the result is `str_debug(s)`, a function of
/// `s` alone; the escaping rules are std's.
#[verifier::external_body]
fn debug_quoted(s: &str) -> (r: String)
    ensures
        r@ == str_debug(s@),
{
    format!("{:?}", s)
}

/// Characters that a command argument may show unquoted.
pub open spec fn plain_arg_char(c: char) -> bool {
    let v = c as u32;
    ||| 48 <= v <= 57
    ||| 65 <= v <= 90
    ||| 97 <= v <= 122
    ||| c == '-'
    ||| c == '_'
    ||| c == '.'
    ||| c == '/'
    ||| c == '\\'
    ||| c == ':'
}

/// An argument as displayed: as it is when every character is plain,
/// otherwise quoted and escaped as `Debug` does.
pub open spec fn displayed_arg(arg: Seq<char>) -> Seq<char> {
    if forall|i: int| 0 <= i < arg.len() ==> plain_arg_char(#[trigger] arg[i]) {
        arg
    } else {
        str_debug(arg)
    }
}

fn plain_arg(c: char) -> (r: bool)
    ensures
        r == plain_arg_char(c),
{
    let v = c as u32;
    (48 <= v && v <= 57) || (65 <= v && v <= 90) || (97 <= v && v <= 122) || c == '-' || c == '_'
        || c == '.' || c == '/' || c == '\\' || c == ':'
}

/// An argument as displayed in a receipt's command line.
pub fn display_command_arg(arg: &str) -> (r: String)
    ensures
        r@ == displayed_arg(arg@),
{
    let n = arg.unicode_len();
    let mut i: usize = 0;
    while i < n
        invariant
            n == arg@.len(),
            0 <= i <= n,
            forall|k: int| 0 <= k < i ==> plain_arg_char(#[trigger] arg@[k]),
        decreases n - i,
    {
        if !plain_arg(arg.get_char(i)) {
            assert(!plain_arg_char(arg@[i as int]));
            return debug_quoted(arg);
        }
        i = i + 1;
    }
    String::from_str(arg)
}

/// The displayed command line: the program and its arguments, each as
/// displayed, separated by single spaces.
pub open spec fn displayed_command(program: Seq<char>, args: Seq<String>) -> Seq<char> {
    joined(seq![displayed_arg(program)] + args.map_values(|a: String| displayed_arg(a@)), " "@)
}

/// The command line recorded in a receipt.
pub fn command_display(program: &str, args: &Vec<String>) -> (r: String)
    ensures
        r@ == displayed_command(program@, args@),
{
    let mut shown: Vec<String> = Vec::new();
    shown.push(display_command_arg(program));
    let mut i: usize = 0;
    while i < args.len()
        invariant
            0 <= i <= args@.len(),
            strings_view(shown@) == seq![displayed_arg(program@)] + args@.subrange(0, i as int).map_values(
                |a: String| displayed_arg(a@),
            ),
        decreases args@.len() - i,
    {
        let d = display_command_arg(args[i].as_str());
        let ghost before = shown@;
        shown.push(d);
        assert(strings_view(shown@) =~= strings_view(before).push(d@));
        assert(args@.subrange(0, i + 1).map_values(|a: String| displayed_arg(a@)) =~= args@.subrange(
            0,
            i as int,
        ).map_values(|a: String| displayed_arg(a@)).push(displayed_arg(args@[i as int]@)));
        i = i + 1;
    }
    assert(args@.subrange(0, args@.len() as int) =~= args@);
    let mut out = String::new();
    push_joined(&mut out, &shown, " ");
    assert(out@ =~= displayed_command(program@, args@));
    out
}

} // verus!
