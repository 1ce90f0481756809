//! The lane/pass store: which lane and pass a worker gets, and how a pass
//! advances, completes or is released.
//!
//! The store's files are read and written by the caller, under the state
//! directory's lock. What was read is handed to the store as a snapshot;
//! the store decides, and says what must be recorded.

use vstd::prelude::*;

use crate::error::{agrees, answers, rule, validation, validation_owned, DrivenError, Refusal, Result};
use crate::strategy::artifacts::{
    artifact_location_check, artifact_path_check, artifact_path_in, ensure_artifact_path_in_state,
    handoff_path, paths_equal, receipt_path, same_path, same_string_lists, state_dir_check,
};
use crate::json::strings_view;
use crate::strategy::redaction::redacted;
use crate::strategy::handoff::{
    persisted_handoff_check, redacted_for_persistence_of, built_handoff, handoff_build_check, handoff_outcome, lemma_built_handoff_continues_claim,
    persist_check, persisted_form_of, NextPassHandoff, PassOutcome,
};
use crate::strategy::identity::{
    claim_sequence, expected_token, session_view, ClaimId, ClaimStatus, LaneClaim, LaneId,
    PassNumber, StateSessionId, WorkerId, WorkerKind, LANE_CLAIM_SCHEMA,
};
use crate::strategy::orchestration::{
    assignment_check, config_check, paths_for_worker, state_paths, worker_paths_check, LanePassAssignment,
    LanePassAssignmentStatus, LanePassConfig,
};
use crate::strategy::receipt::{
    canonical_receipt_id, completion_readiness_check, receipt_blockers, lemma_receipt_with_id, receipt_check,
    same_subject, worktree_identity_check, ProofReceipt,
};
use crate::strategy::session::{receipt_session_check, validate_receipt_session};
use crate::strategy::worktree::{
    opt_view, identity_key, identity_of, plan_of, WorktreeIsolationPlan, WorktreeMetadata,
};
use crate::text::{str_eq, concat2, concat3, decimal, is_blank, is_blank_str, push_decimal, zero_padded};

verus! {

/// What the caller read from the state directory under its lock.
pub struct LanePassSnapshot {
    /// The lane recorded in `lane-counter.json`; 0 when there is none.
    pub last_lane: u8,
    /// Every assignment recorded in `lane-claims.json`, oldest first, each
    /// one valid; empty when there is none.
    pub claims: Vec<LanePassAssignment>,
    /// The session id of the state directory, from its manifest (created
    /// when missing), or the error that reading or checking it met.
    pub session: Result<StateSessionId>,
    /// The checkout at the store's execution root, as it is now.
    pub worktree: WorktreeMetadata,
}

/// What the caller must record after a decision, in this order: the
/// receipt at the assignment's receipt path, the handoff at its handoff
/// path (or the error that storing it meets), then the assignment itself
/// when `record` holds.
pub struct LanePassUpdate {
    pub assignment: LanePassAssignment,
    pub record: bool,
    pub receipt: Option<ProofReceipt>,
    pub handoff: Option<Result<NextPassHandoff>>,
}

/// A lane/pass store over one state directory.
pub struct LanePassStore {
    config: LanePassConfig,
}

// ---------------------------------------------------------------------------
// Reading the snapshot
// ---------------------------------------------------------------------------

/// Two pieces of metadata identify the same checkout.
pub open spec fn same_checkout(a: WorktreeMetadata, b: WorktreeMetadata) -> bool {
    identity_key(identity_of(a)) == identity_key(identity_of(b))
}

/// The highest lane among the recorded assignments; 0 when there is none.
pub open spec fn highest_lane(claims: Seq<LanePassAssignment>) -> u8
    decreases claims.len(),
{
    if claims.len() == 0 {
        0
    } else {
        let rest = highest_lane(claims.drop_last());
        if claims.last().lane@ > rest {
            claims.last().lane@
        } else {
            rest
        }
    }
}

/// The highest claim sequence number among the recorded assignments; 0
/// when none has one.
pub open spec fn highest_claim_sequence(claims: Seq<LanePassAssignment>) -> nat
    decreases claims.len(),
{
    if claims.len() == 0 {
        0
    } else {
        let rest = highest_claim_sequence(claims.drop_last());
        match claim_sequence(claims.last().claim.claim_id@) {
            Some(v) => if v > rest {
                v as nat
            } else {
                rest
            },
            None => rest,
        }
    }
}

/// The sequence number of the next claim; `None` when it would overflow.
pub open spec fn next_claim_sequence(claims: Seq<LanePassAssignment>) -> Option<u64> {
    let m = highest_claim_sequence(claims);
    if m < u64::MAX {
        Some((m + 1) as u64)
    } else {
        None
    }
}

/// The claim id with the given sequence number.
pub open spec fn sequence_claim_id(sequence: u64) -> Seq<char> {
    "claim-"@ + zero_padded(sequence as nat, 16)
}

/// The index of the latest recorded assignment of a lane; -1 when there is
/// none.
pub open spec fn latest_index(claims: Seq<LanePassAssignment>, lane: u8) -> int
    decreases claims.len(),
{
    if claims.len() == 0 {
        -1
    } else if claims.last().lane@ == lane {
        claims.len() - 1
    } else {
        latest_index(claims.drop_last(), lane)
    }
}

/// A lane can be handed out again: it was never recorded, or its latest
/// assignment is no longer active and was made in the current checkout.
pub open spec fn lane_reusable(claims: Seq<LanePassAssignment>, lane: u8, current: WorktreeMetadata) -> bool {
    let k = latest_index(claims, lane);
    k < 0 || (claims[k].claim.status != ClaimStatus::Claimed && same_checkout(
        claims[k].worktree,
        current,
    ))
}

/// The first lane from `lane` up to `max` that can be handed out again.
pub open spec fn first_reusable_from(
    claims: Seq<LanePassAssignment>,
    current: WorktreeMetadata,
    lane: nat,
    max: u8,
) -> Option<u8>
    decreases max + 1 - lane,
{
    if lane > max {
        None
    } else if lane_reusable(claims, lane as u8, current) {
        Some(lane as u8)
    } else {
        first_reusable_from(claims, current, lane + 1, max)
    }
}

/// The lane that the store hands out next, or the message that refuses
/// one: the lane after the highest one recorded (in the counter or among
/// the assignments), or, past the last lane and with cycling on, the first
/// lane that can be handed out again.
pub open spec fn lane_choice(
    c: LanePassConfig,
    last_lane: u8,
    claims: Seq<LanePassAssignment>,
    current: WorktreeMetadata,
) -> core::result::Result<u8, Seq<char>> {
    let counter = if last_lane > highest_lane(claims) {
        last_lane
    } else {
        highest_lane(claims)
    };
    let next = if counter == 255 {
        255u8
    } else {
        (counter + 1) as u8
    };
    if next > c.max_lanes {
        if c.cycle_lanes {
            match first_reusable_from(claims, current, 1, c.max_lanes) {
                Some(lane) => Ok(lane),
                None => Err(
                    "max lanes ("@ + decimal(c.max_lanes as nat)
                        + ") reached and no released lane is available for the current worktree"@,
                ),
            }
        } else {
            Err("max lanes ("@ + decimal(c.max_lanes as nat) + ") reached"@)
        }
    } else {
        Ok(next)
    }
}

/// A result agrees with a choice: the chosen value, or the validation error
/// with the message.
pub open spec fn agrees_lane(r: Result<LaneId>, s: core::result::Result<u8, Seq<char>>) -> bool {
    match s {
        Ok(v) => r is Ok && r->Ok_0@ == v,
        Err(m) => r is Err && r->Err_0.is_validation_with(m),
    }
}

fn highest_recorded_lane(claims: &Vec<LanePassAssignment>) -> (r: u8)
    ensures
        r == highest_lane(claims@),
{
    let mut best: u8 = 0;
    let mut i: usize = 0;
    while i < claims.len()
        invariant
            0 <= i <= claims@.len(),
            best == highest_lane(claims@.subrange(0, i as int)),
        decreases claims@.len() - i,
    {
        assert(claims@.subrange(0, i + 1).drop_last() =~= claims@.subrange(0, i as int));
        let lane = claims[i].lane.value();
        if lane > best {
            best = lane;
        }
        i = i + 1;
    }
    assert(claims@.subrange(0, claims@.len() as int) =~= claims@);
    best
}

fn highest_sequence(claims: &Vec<LanePassAssignment>) -> (r: u64)
    ensures
        r == highest_claim_sequence(claims@),
{
    let mut best: u64 = 0;
    let mut i: usize = 0;
    while i < claims.len()
        invariant
            0 <= i <= claims@.len(),
            best == highest_claim_sequence(claims@.subrange(0, i as int)),
        decreases claims@.len() - i,
    {
        assert(claims@.subrange(0, i + 1).drop_last() =~= claims@.subrange(0, i as int));
        match claims[i].claim.claim_id.sequence() {
            Some(v) => {
                if v > best {
                    best = v;
                }
            },
            None => {},
        }
        i = i + 1;
    }
    assert(claims@.subrange(0, claims@.len() as int) =~= claims@);
    best
}

/// The id of the next claim: `claim-` and the sequence number after the
/// highest one recorded, padded to 16 digits.
pub fn next_claim_id(claims: &Vec<LanePassAssignment>) -> (r: Result<ClaimId>)
    ensures
        agrees(
            r,
            if next_claim_sequence(claims@) is None {
                Some("claim id sequence overflow"@)
            } else {
                None
            },
        ),
        r is Ok ==> r->Ok_0@ == sequence_claim_id(next_claim_sequence(claims@)->Some_0),
{
    let best = highest_sequence(claims);
    match best.checked_add(1) {
        None => Err(validation("claim id sequence overflow")),
        Some(next) => Ok(ClaimId::from_sequence(next)),
    }
}

proof fn lemma_latest_index_bounds(claims: Seq<LanePassAssignment>, lane: u8)
    ensures
        -1 <= latest_index(claims, lane) < claims.len(),
        latest_index(claims, lane) >= 0 ==> claims[latest_index(claims, lane)].lane@ == lane,
    decreases claims.len(),
{
    if claims.len() > 0 && claims.last().lane@ != lane {
        lemma_latest_index_bounds(claims.drop_last(), lane);
    }
}

fn latest_for_lane(claims: &Vec<LanePassAssignment>, lane: u8) -> (r: Option<usize>)
    ensures
        match r {
            Some(k) => k as int == latest_index(claims@, lane),
            None => latest_index(claims@, lane) == -1,
        },
{
    let mut i: usize = claims.len();
    assert(claims@.subrange(0, i as int) =~= claims@);
    while i > 0
        invariant
            0 <= i <= claims@.len(),
            latest_index(claims@, lane) == latest_index(claims@.subrange(0, i as int), lane),
        decreases i,
    {
        assert(claims@.subrange(0, i as int).drop_last() =~= claims@.subrange(0, i - 1));
        if claims[i - 1].lane.value() == lane {
            return Some(i - 1);
        }
        i = i - 1;
    }
    None
}

// ---------------------------------------------------------------------------
// Building assignments
// ---------------------------------------------------------------------------

/// A claim made by the store: for the lane, pass and worker, in the
/// store's scope, under the claim id and session, with the status given.
pub open spec fn built_claim(
    c: LaneClaim,
    lane: u8,
    pass: u32,
    worker: WorkerId,
    scope: Seq<char>,
    claim_id: Seq<char>,
    session: Option<Seq<char>>,
    status: ClaimStatus,
) -> bool {
    &&& c.schema@ == LANE_CLAIM_SCHEMA@
    &&& c.lane@ == lane
    &&& c.pass@ == pass
    &&& c.worker_id == worker
    &&& c.worker.id == worker
    &&& c.worker.display_name@ == worker@
    &&& c.worker.kind == WorkerKind::Automation
    &&& c.scope@ == scope
    &&& c.claim_id@ == claim_id
    &&& session_view(c.state_session_id) == session
    &&& c.status == status
    &&& c.subagents@.len() == 0
    &&& c.token@ == expected_token(c)
}

/// An assignment made by the store: its claim as `built_claim` says, the
/// paths of the worker, no artifact, and the current checkout with its
/// isolation plan.
pub open spec fn built_assignment(
    a: LanePassAssignment,
    c: LanePassConfig,
    status: LanePassAssignmentStatus,
    lane: u8,
    pass: u32,
    worker: WorkerId,
    claim_id: Seq<char>,
    session: Option<Seq<char>>,
    claim_status: ClaimStatus,
    current: WorktreeMetadata,
) -> bool {
    &&& a.status == status
    &&& a.scope@ == c.scope@
    &&& a.lane@ == lane
    &&& a.pass@ == pass
    &&& a.worker_id == worker
    &&& built_claim(a.claim, lane, pass, worker, c.scope@, claim_id, session, claim_status)
    &&& a.receipt_id is None
    &&& a.receipt_path is None
    &&& a.handoff_id is None
    &&& a.handoff_path is None
    &&& state_paths(a.paths, c.state_dir@, worker@)
    &&& a.worktree == current
    &&& a.worktree_plan is Some
    &&& plan_of(a.worktree_plan->Some_0, current)
}

/// The messages that refuse an operation on a worker's current assignment.
pub open spec fn worker_message(worker: Seq<char>, tail: Seq<char>) -> Seq<char> {
    "worker "@ + worker + tail
}

/// The first rule that acting on the worker's current assignment breaks:
/// there must be one, it must be active, and the checkout must be the one
/// it was made in.
pub open spec fn active_check(
    worker: Seq<char>,
    current: Option<LanePassAssignment>,
    now: WorktreeMetadata,
) -> Option<Seq<char>> {
    match current {
        None => Some(worker_message(worker, " has no lane claim"@)),
        Some(a) => if a.claim.status != ClaimStatus::Claimed {
            Some(worker_message(worker, " lane claim is not active"@))
        } else if !same_checkout(a.worktree, now) {
            Some("worktree identity changed since the active lane claim"@)
        } else {
            None
        },
    }
}

/// The message that refuses a pass beyond the store's limit.
pub open spec fn max_passes_message(worker: Seq<char>, max: u32) -> Seq<char> {
    worker_message(worker, " reached max passes ("@ + decimal(max as nat) + ")"@)
}

/// Why building an assignment is refused once its claim id is known: the
/// session could not be read, or the worker's paths cannot be made.
pub open spec fn build_refusal(
    c: LanePassConfig,
    session: Result<StateSessionId>,
    worker: Seq<char>,
) -> Option<Refusal> {
    match session {
        Err(e) => Some(Refusal::Passed(e)),
        Ok(_) => rule(worker_paths_check(c.state_dir@, worker)),
    }
}

/// The session's id as text, when it was read.
pub open spec fn session_of(session: Result<StateSessionId>) -> Option<Seq<char>> {
    match session {
        Ok(id) => Some(id@),
        Err(_) => None,
    }
}

fn worker_error(worker: &WorkerId, tail: &str) -> (e: DrivenError)
    ensures
        e.is_validation_with(worker_message(worker@, tail@)),
{
    validation_owned(concat3("worker ", worker.as_str(), tail))
}

impl LanePassStore {
    #[verifier::type_invariant]
    spec fn wf(self) -> bool {
        config_check(self.config) is None
    }

    /// The configuration the store runs with.
    pub closed spec fn spec_config(self) -> LanePassConfig {
        self.config
    }

    /// A store for a valid configuration.
    pub fn new(config: LanePassConfig) -> (r: Result<Self>)
        ensures
            agrees(r, config_check(config)),
            r is Ok ==> r->Ok_0.spec_config() == config,
    {
        config.validate()?;
        Ok(LanePassStore { config })
    }

    pub fn config(&self) -> (r: &LanePassConfig)
        ensures
            *r == self.spec_config(),
            config_check(*r) is None,
    {
        proof {
            use_type_invariant(self);
        }
        &self.config
    }

    /// The state directory, refused when it climbs out with `..`.
    pub fn state_dir(&self) -> (r: Result<String>)
        ensures
            agrees(r, state_dir_check(self.spec_config().state_dir@)),
            r is Ok ==> r->Ok_0@ == self.spec_config().state_dir@,
    {
        crate::strategy::artifacts::contained_state_dir(self.config.state_dir.as_str())
    }

    /// The lane handed out next.
    fn peek_next_lane(&self, snapshot: &LanePassSnapshot) -> (r: Result<LaneId>)
        ensures
            agrees_lane(r, lane_choice(self.spec_config(), snapshot.last_lane, snapshot.claims@, snapshot.worktree)),
    {
        proof {
            use_type_invariant(self);
        }
        let highest = highest_recorded_lane(&snapshot.claims);
        let counter = if snapshot.last_lane > highest {
            snapshot.last_lane
        } else {
            highest
        };
        let next = counter.saturating_add(1);
        if next > self.config.max_lanes {
            if self.config.cycle_lanes {
                self.first_available_lane(snapshot)
            } else {
                let mut msg = String::from_str("max lanes (");
                push_decimal(&mut msg, self.config.max_lanes as u64);
                msg.append(") reached");
                Err(validation_owned(msg))
            }
        } else {
            LaneId::new(next)
        }
    }

    /// The first lane whose latest assignment is no longer active and was
    /// made in the current checkout, or that was never handed out.
    fn first_available_lane(&self, snapshot: &LanePassSnapshot) -> (r: Result<LaneId>)
        ensures
            agrees_lane(
                r,
                match first_reusable_from(snapshot.claims@, snapshot.worktree, 1, self.spec_config().max_lanes) {
                    Some(lane) => Ok(lane),
                    None => Err(
                        "max lanes ("@ + decimal(self.spec_config().max_lanes as nat)
                            + ") reached and no released lane is available for the current worktree"@,
                    ),
                },
            ),
    {
        proof {
            use_type_invariant(self);
        }
        let max = self.config.max_lanes;
        let claims = &snapshot.claims;
        let mut lane: u8 = 1;
        while lane <= max
            invariant
                1 <= lane <= max + 1,
                max == self.config.max_lanes,
                1 <= max <= 30,
                claims == &snapshot.claims,
                first_reusable_from(claims@, snapshot.worktree, 1, max)
                    == first_reusable_from(claims@, snapshot.worktree, lane as nat, max),
            decreases max + 1 - lane,
        {
            proof {
                lemma_latest_index_bounds(claims@, lane);
            }
            match latest_for_lane(claims, lane) {
                None => {
                    return LaneId::new(lane);
                },
                Some(k) => {
                    let a = &claims[k];
                    if a.claim.status != ClaimStatus::Claimed && a.worktree.has_same_identity(
                        &snapshot.worktree,
                    ) {
                        return LaneId::new(lane);
                    }
                },
            }
            lane = lane + 1;
        }
        let mut msg = String::from_str("max lanes (");
        push_decimal(&mut msg, max as u64);
        msg.append(") reached and no released lane is available for the current worktree");
        Err(validation_owned(msg))
    }

    /// The store's files for a worker.
    pub fn paths_for_worker(&self, worker_id: &str) -> (r: Result<
        crate::strategy::orchestration::LanePassStatePaths,
    >)
        ensures
            agrees(r, worker_paths_check(self.spec_config().state_dir@, worker_id@)),
            r is Ok ==> state_paths(r->Ok_0, self.spec_config().state_dir@, worker_id@),
    {
        paths_for_worker(self.config.state_dir.as_str(), worker_id)
    }

    /// Builds an assignment for the current checkout, with the session of
    /// the state directory and a claim under the given id.
    fn build_assignment(
        &self,
        status: LanePassAssignmentStatus,
        lane: LaneId,
        pass: PassNumber,
        worker_id: WorkerId,
        claim_status: ClaimStatus,
        claim_id: ClaimId,
        snapshot: &LanePassSnapshot,
    ) -> (r: Result<LanePassAssignment>)
        ensures
            answers(r, build_refusal(self.spec_config(), snapshot.session, worker_id@)),
            r is Ok ==> built_assignment(
                r->Ok_0,
                self.spec_config(),
                status,
                lane@,
                pass@,
                worker_id,
                claim_id@,
                session_of(snapshot.session),
                claim_status,
                snapshot.worktree,
            ),
    {
        let session = match &snapshot.session {
            Ok(id) => id.clone(),
            Err(e) => {
                return Err(e.clone());
            },
        };
        let mut claim = LaneClaim::new(lane, pass, worker_id.clone(), self.config.scope.as_str()).with_claim_id(
            claim_id,
        ).with_state_session_id(session);
        claim.status = claim_status;
        let paths = paths_for_worker(self.config.state_dir.as_str(), worker_id.as_str())?;
        let worktree = snapshot.worktree.clone();
        let plan = WorktreeIsolationPlan::from_metadata(snapshot.worktree.clone());
        Ok(
            LanePassAssignment {
                status,
                scope: self.config.scope.clone(),
                lane,
                pass,
                worker_id,
                claim,
                receipt_id: None,
                receipt_path: None,
                handoff_id: None,
                handoff_path: None,
                paths,
                worktree,
                worktree_plan: Some(plan),
            },
        )
    }
}


// ---------------------------------------------------------------------------
// Decisions
// ---------------------------------------------------------------------------

/// Why peeking at the next claim is refused.
pub open spec fn peek_refusal(c: LanePassConfig, s: LanePassSnapshot) -> Option<Refusal> {
    if state_dir_check(c.state_dir@) is Some {
        rule(state_dir_check(c.state_dir@))
    } else {
        match lane_choice(c, s.last_lane, s.claims@, s.worktree) {
            Err(m) => Some(Refusal::Rule(m)),
            Ok(_) => None,
        }
    }
}

/// Why claiming a lane is refused.
pub open spec fn claim_refusal(
    c: LanePassConfig,
    worker: Seq<char>,
    current: Option<LanePassAssignment>,
    s: LanePassSnapshot,
) -> Option<Refusal> {
    if state_dir_check(c.state_dir@) is Some {
        rule(state_dir_check(c.state_dir@))
    } else if current is Some && current->Some_0.claim.status == ClaimStatus::Claimed {
        if !same_checkout(current->Some_0.worktree, s.worktree) {
            rule(Some("worktree identity changed since the active lane claim"@))
        } else {
            None
        }
    } else if lane_choice(c, s.last_lane, s.claims@, s.worktree) is Err {
        Some(Refusal::Rule(lane_choice(c, s.last_lane, s.claims@, s.worktree)->Err_0))
    } else if next_claim_sequence(s.claims@) is None {
        rule(Some("claim id sequence overflow"@))
    } else {
        build_refusal(c, s.session, worker)
    }
}

/// Why advancing to the next pass without a handoff is refused.
pub open spec fn next_refusal(
    c: LanePassConfig,
    worker: Seq<char>,
    current: Option<LanePassAssignment>,
    s: LanePassSnapshot,
) -> Option<Refusal> {
    if c.handoff_required_for_next {
        rule(
            Some(
                "durable handoff is required for next-pass advancement; use next_pass_with_handoff"@,
            ),
        )
    } else if state_dir_check(c.state_dir@) is Some {
        rule(state_dir_check(c.state_dir@))
    } else if active_check(worker, current, s.worktree) is Some {
        rule(active_check(worker, current, s.worktree))
    } else if crate::strategy::identity::pass_next_check(current->Some_0.pass@) is Some {
        rule(crate::strategy::identity::pass_next_check(current->Some_0.pass@))
    } else if current->Some_0.pass@ + 1 > c.max_passes {
        rule(Some(max_passes_message(worker, c.max_passes)))
    } else if next_claim_sequence(s.claims@) is None {
        rule(Some("claim id sequence overflow"@))
    } else {
        build_refusal(c, s.session, worker)
    }
}

/// Why changing the status of the worker's current claim is refused.
pub open spec fn status_refusal(
    c: LanePassConfig,
    worker: Seq<char>,
    current: Option<LanePassAssignment>,
    s: LanePassSnapshot,
) -> Option<Refusal> {
    if state_dir_check(c.state_dir@) is Some {
        rule(state_dir_check(c.state_dir@))
    } else if active_check(worker, current, s.worktree) is Some {
        rule(active_check(worker, current, s.worktree))
    } else {
        build_refusal(c, s.session, worker)
    }
}

/// Why completing the worker's pass with a receipt is refused.
pub open spec fn complete_refusal(
    c: LanePassConfig,
    worker: Seq<char>,
    state_dir_exists: bool,
    current: Option<LanePassAssignment>,
    receipt: ProofReceipt,
    s: LanePassSnapshot,
) -> Option<Refusal> {
    if state_dir_check(c.state_dir@) is Some {
        rule(state_dir_check(c.state_dir@))
    } else if !state_dir_exists {
        rule(Some(worker_message(worker, " has no lane claim"@)))
    } else if active_check(worker, current, s.worktree) is Some {
        rule(active_check(worker, current, s.worktree))
    } else if completion_readiness_check(receipt) is Some {
        rule(completion_readiness_check(receipt))
    } else if !same_subject(receipt.claim, current->Some_0.claim) {
        rule(Some("receipt claim does not match active lane claim"@))
    } else if worktree_identity_check(receipt, identity_of(current->Some_0.worktree)) is Some {
        rule(worktree_identity_check(receipt, identity_of(current->Some_0.worktree)))
    } else if receipt_session_check(receipt.claim, current->Some_0.claim) is Some {
        rule(receipt_session_check(receipt.claim, current->Some_0.claim))
    } else if receipt.claim.token@ != current->Some_0.claim.token@ {
        rule(Some("receipt claim does not match active lane claim"@))
    } else if build_refusal(c, s.session, worker) is Some {
        build_refusal(c, s.session, worker)
    } else {
        rule(artifact_path_check(c.state_dir@, receipt.receipt_id@))
    }
}

/// Why the receipt and handoff of the active assignment `a` do not allow
/// advancing to the next pass.
pub open spec fn handoff_prepare_refusal(
    c: LanePassConfig,
    worker: Seq<char>,
    a: LanePassAssignment,
    receipt: ProofReceipt,
    next_action: Seq<char>,
) -> Option<Seq<char>> {
    if receipt.redacted {
        Some("next-pass handoff requires an unredacted proof receipt"@)
    } else if receipt_check(receipt) is Some {
        receipt_check(receipt)
    } else if worktree_identity_check(receipt, identity_of(a.worktree)) is Some {
        worktree_identity_check(receipt, identity_of(a.worktree))
    } else if receipt_session_check(receipt.claim, a.claim) is Some {
        receipt_session_check(receipt.claim, a.claim)
    } else if handoff_build_check(a.claim, receipt, next_action) is Some {
        handoff_build_check(a.claim, receipt, next_action)
    } else if handoff_outcome(receipt) == PassOutcome::Blocked {
        Some("blocked handoff cannot advance the next pass"@)
    } else if a.claim.pass@ + 1 > c.max_passes {
        Some(max_passes_message(worker, c.max_passes))
    } else {
        None
    }
}

/// Why advancing to the next pass with a handoff is refused.
pub open spec fn handoff_refusal(
    c: LanePassConfig,
    worker: Seq<char>,
    current: Option<LanePassAssignment>,
    receipt: ProofReceipt,
    next_action: Seq<char>,
    s: LanePassSnapshot,
) -> Option<Refusal> {
    if state_dir_check(c.state_dir@) is Some {
        rule(state_dir_check(c.state_dir@))
    } else if active_check(worker, current, s.worktree) is Some {
        rule(active_check(worker, current, s.worktree))
    } else if handoff_prepare_refusal(c, worker, current->Some_0, receipt, next_action) is Some {
        rule(handoff_prepare_refusal(c, worker, current->Some_0, receipt, next_action))
    } else if next_claim_sequence(s.claims@) is None {
        rule(Some("claim id sequence overflow"@))
    } else if build_refusal(c, s.session, worker) is Some {
        build_refusal(c, s.session, worker)
    } else {
        rule(artifact_path_check(c.state_dir@, canonical_receipt_id(receipt)))
    }
}

/// The handoff to the next pass: built from the active claim and the
/// receipt, and bound to the checkout of the active assignment.
pub open spec fn advanced_handoff(
    h: NextPassHandoff,
    claim: LaneClaim,
    receipt: ProofReceipt,
    next_action: Seq<char>,
    now: WorktreeMetadata,
) -> bool {
    &&& built_handoff(NextPassHandoff { worktree_identity: None, ..h }, claim, receipt, next_action)
    &&& h.worktree_identity == Some(identity_of(now))
}

/// `stored` is what storing the handoff gives: its stored form, or the
/// error that making it meets.
pub open spec fn stored_handoff(stored: Result<NextPassHandoff>, h: NextPassHandoff) -> bool {
    &&& exists|out: NextPassHandoff|
        #![trigger persisted_form_of(h, out)]
        persisted_form_of(h, out) && agrees(stored, persist_check(h, out))
    &&& stored is Ok ==> persisted_form_of(h, stored->Ok_0)
}

/// The assignment without the artifacts it records.
pub open spec fn without_artifacts(a: LanePassAssignment) -> LanePassAssignment {
    LanePassAssignment {
        receipt_id: None,
        receipt_path: None,
        handoff_id: None,
        handoff_path: None,
        ..a
    }
}

impl LanePassStore {
    /// The assignment that a claim would get now, without recording it: the
    /// next lane, its first pass, an unclaimed worker.
    pub fn peek_next_claim(&self, snapshot: &LanePassSnapshot) -> (r: Result<LanePassAssignment>)
        ensures
            answers(r, peek_refusal(self.spec_config(), *snapshot)),
            r is Ok ==> r->Ok_0.worker_id@ == "unclaimed"@ && built_assignment(
                r->Ok_0,
                self.spec_config(),
                LanePassAssignmentStatus::Peeked,
                lane_choice(self.spec_config(), snapshot.last_lane, snapshot.claims@, snapshot.worktree)->Ok_0,
                1,
                r->Ok_0.worker_id,
                "legacy"@,
                None,
                ClaimStatus::Claimed,
                snapshot.worktree,
            ),
    {
        self.state_dir()?;
        let lane = self.peek_next_lane(snapshot)?;
        proof {
            reveal_strlit("unclaimed");
            assert(crate::strategy::identity::id_chars_ok("unclaimed"@, false));
            crate::strategy::identity::lemma_canonical_id("worker id"@, "unclaimed"@, false);
        }
        let worker_id = WorkerId::new("unclaimed")?;
        let claim = LaneClaim::new(lane, PassNumber::first(), worker_id.clone(), self.config.scope.as_str());
        let paths = paths_for_worker(self.config.state_dir.as_str(), "unclaimed")?;
        let worktree = snapshot.worktree.clone();
        let plan = WorktreeIsolationPlan::from_metadata(snapshot.worktree.clone());
        Ok(
            LanePassAssignment {
                status: LanePassAssignmentStatus::Peeked,
                scope: self.config.scope.clone(),
                lane,
                pass: PassNumber::first(),
                worker_id,
                claim,
                receipt_id: None,
                receipt_path: None,
                handoff_id: None,
                handoff_path: None,
                paths,
                worktree,
                worktree_plan: Some(plan),
            },
        )
    }

    /// Claims a lane for the worker: its active assignment when it has one
    /// in this checkout, otherwise the first pass of the next lane under a
    /// new claim id.
    pub fn claim(
        &self,
        worker_id: WorkerId,
        current: Option<LanePassAssignment>,
        snapshot: &LanePassSnapshot,
    ) -> (r: Result<LanePassUpdate>)
        ensures
            answers(r, claim_refusal(self.spec_config(), worker_id@, current, *snapshot)),
            r is Ok && current is Some && current->Some_0.claim.status == ClaimStatus::Claimed ==> {
                &&& r->Ok_0.assignment == current->Some_0
                &&& !r->Ok_0.record
                &&& r->Ok_0.receipt is None
                &&& r->Ok_0.handoff is None
            },
            r is Ok && !(current is Some && current->Some_0.claim.status == ClaimStatus::Claimed) ==> {
                &&& built_assignment(
                    r->Ok_0.assignment,
                    self.spec_config(),
                    LanePassAssignmentStatus::Claimed,
                    lane_choice(self.spec_config(), snapshot.last_lane, snapshot.claims@, snapshot.worktree)->Ok_0,
                    1,
                    worker_id,
                    sequence_claim_id(next_claim_sequence(snapshot.claims@)->Some_0),
                    session_of(snapshot.session),
                    ClaimStatus::Claimed,
                    snapshot.worktree,
                )
                &&& r->Ok_0.record
                &&& r->Ok_0.receipt is None
                &&& r->Ok_0.handoff is None
            },
    {
        self.state_dir()?;
        if let Some(existing) = current {
            if existing.claim.status == ClaimStatus::Claimed {
                if !existing.worktree.has_same_identity(&snapshot.worktree) {
                    return Err(validation("worktree identity changed since the active lane claim"));
                }
                return Ok(LanePassUpdate { assignment: existing, record: false, receipt: None, handoff: None });
            }
        }
        let lane = self.peek_next_lane(snapshot)?;
        let claim_id = next_claim_id(&snapshot.claims)?;
        let assignment = self.build_assignment(
            LanePassAssignmentStatus::Claimed,
            lane,
            PassNumber::first(),
            worker_id,
            ClaimStatus::Claimed,
            claim_id,
            snapshot,
        )?;
        Ok(LanePassUpdate { assignment, record: true, receipt: None, handoff: None })
    }

    /// Advances the worker to the next pass of its lane under a new claim
    /// id, without a handoff.
    pub fn next_pass(
        &self,
        worker_id: &WorkerId,
        current: &Option<LanePassAssignment>,
        snapshot: &LanePassSnapshot,
    ) -> (r: Result<LanePassUpdate>)
        ensures
            answers(r, next_refusal(self.spec_config(), worker_id@, *current, *snapshot)),
            r is Ok ==> {
                &&& built_assignment(
                    r->Ok_0.assignment,
                    self.spec_config(),
                    LanePassAssignmentStatus::Advanced,
                    current->Some_0.lane@,
                    (current->Some_0.pass@ + 1) as u32,
                    *worker_id,
                    sequence_claim_id(next_claim_sequence(snapshot.claims@)->Some_0),
                    session_of(snapshot.session),
                    ClaimStatus::Claimed,
                    snapshot.worktree,
                )
                &&& r->Ok_0.record
                &&& r->Ok_0.receipt is None
                &&& r->Ok_0.handoff is None
            },
    {
        if self.config.handoff_required_for_next {
            return Err(
                validation(
                    "durable handoff is required for next-pass advancement; use next_pass_with_handoff",
                ),
            );
        }
        self.state_dir()?;
        let active = match current {
            None => {
                return Err(worker_error(worker_id, " has no lane claim"));
            },
            Some(a) => a,
        };
        if active.claim.status != ClaimStatus::Claimed {
            return Err(worker_error(worker_id, " lane claim is not active"));
        }
        if !active.worktree.has_same_identity(&snapshot.worktree) {
            return Err(validation("worktree identity changed since the active lane claim"));
        }
        let next = active.pass.next()?;
        if next.value() > self.config.max_passes {
            return Err(self.max_passes_error(worker_id));
        }
        let claim_id = next_claim_id(&snapshot.claims)?;
        let assignment = self.build_assignment(
            LanePassAssignmentStatus::Advanced,
            active.lane,
            next,
            worker_id.clone(),
            ClaimStatus::Claimed,
            claim_id,
            snapshot,
        )?;
        Ok(LanePassUpdate { assignment, record: true, receipt: None, handoff: None })
    }

    fn max_passes_error(&self, worker_id: &WorkerId) -> (e: DrivenError)
        ensures
            e.is_validation_with(max_passes_message(worker_id@, self.spec_config().max_passes)),
    {
        let mut msg = concat3("worker ", worker_id.as_str(), " reached max passes (");
        push_decimal(&mut msg, self.config.max_passes as u64);
        msg.append(")");
        proof {
            reveal_strlit(")");
            reveal_strlit(" reached max passes (");
            reveal_strlit("worker ");
        }
        assert(msg@ =~= max_passes_message(worker_id@, self.config.max_passes));
        validation_owned(msg)
    }

    /// Completing a pass needs a receipt: this is always refused.
    pub fn complete_pass(&self, worker_id: &WorkerId) -> (r: Result<LanePassAssignment>)
        ensures
            r is Err,
            r->Err_0.is_validation_with(
                "completion requires a canonical proof receipt; use complete_pass_with_receipt"@,
            ),
    {
        Err(validation("completion requires a canonical proof receipt; use complete_pass_with_receipt"))
    }

    /// Releases the worker's lane: the same lane, pass and claim id, now
    /// released.
    pub fn release_lane(
        &self,
        worker_id: &WorkerId,
        current: &Option<LanePassAssignment>,
        snapshot: &LanePassSnapshot,
    ) -> (r: Result<LanePassUpdate>)
        ensures
            answers(r, status_refusal(self.spec_config(), worker_id@, *current, *snapshot)),
            r is Ok ==> {
                &&& built_assignment(
                    r->Ok_0.assignment,
                    self.spec_config(),
                    LanePassAssignmentStatus::Released,
                    current->Some_0.lane@,
                    current->Some_0.pass@,
                    *worker_id,
                    current->Some_0.claim.claim_id@,
                    session_of(snapshot.session),
                    ClaimStatus::Released,
                    snapshot.worktree,
                )
                &&& r->Ok_0.record
                &&& r->Ok_0.receipt is None
                &&& r->Ok_0.handoff is None
            },
    {
        self.state_dir()?;
        let active = match current {
            None => {
                return Err(worker_error(worker_id, " has no lane claim"));
            },
            Some(a) => a,
        };
        if active.claim.status != ClaimStatus::Claimed {
            return Err(worker_error(worker_id, " lane claim is not active"));
        }
        if !active.worktree.has_same_identity(&snapshot.worktree) {
            return Err(validation("worktree identity changed since the active lane claim"));
        }
        let assignment = self.build_assignment(
            LanePassAssignmentStatus::Released,
            active.lane,
            active.pass,
            worker_id.clone(),
            ClaimStatus::Released,
            active.claim.claim_id.clone(),
            snapshot,
        )?;
        Ok(LanePassUpdate { assignment, record: true, receipt: None, handoff: None })
    }

    /// Completes the worker's pass with a verified receipt made under its
    /// active claim, in its checkout and session: the same lane, pass and
    /// claim id, now completed, recording the receipt.
    pub fn complete_pass_with_receipt(
        &self,
        worker_id: &WorkerId,
        state_dir_exists: bool,
        current: &Option<LanePassAssignment>,
        receipt: ProofReceipt,
        snapshot: &LanePassSnapshot,
    ) -> (r: Result<LanePassUpdate>)
        ensures
            answers(
                r,
                complete_refusal(self.spec_config(), worker_id@, state_dir_exists, *current, receipt, *snapshot),
            ),
            r is Ok ==> {
                &&& built_assignment(
                    without_artifacts(r->Ok_0.assignment),
                    self.spec_config(),
                    LanePassAssignmentStatus::Completed,
                    current->Some_0.lane@,
                    current->Some_0.pass@,
                    *worker_id,
                    current->Some_0.claim.claim_id@,
                    session_of(snapshot.session),
                    ClaimStatus::Completed,
                    snapshot.worktree,
                )
                &&& crate::strategy::worktree::opt_view(r->Ok_0.assignment.receipt_id) == Some(receipt.receipt_id@)
                &&& crate::strategy::worktree::opt_view(r->Ok_0.assignment.receipt_path) == Some(
                    artifact_path_in(self.spec_config().state_dir@, "receipts"@, receipt.receipt_id@),
                )
                &&& r->Ok_0.assignment.handoff_id is None
                &&& r->Ok_0.assignment.handoff_path is None
                &&& r->Ok_0.record
                &&& r->Ok_0.receipt == Some(receipt)
                &&& r->Ok_0.handoff is None
            },
    {
        self.state_dir()?;
        if !state_dir_exists {
            return Err(worker_error(worker_id, " has no lane claim"));
        }
        let active = match current {
            None => {
                return Err(worker_error(worker_id, " has no lane claim"));
            },
            Some(a) => a,
        };
        if active.claim.status != ClaimStatus::Claimed {
            return Err(worker_error(worker_id, " lane claim is not active"));
        }
        if !active.worktree.has_same_identity(&snapshot.worktree) {
            return Err(validation("worktree identity changed since the active lane claim"));
        }
        receipt.validate_completion_readiness()?;
        receipt.validate_completion_claim_subject(&active.claim)?;
        receipt.validate_worktree_identity(&active.worktree.identity())?;
        validate_receipt_session(&receipt.claim, &active.claim)?;
        receipt.validate_completion_claim_match(&active.claim)?;
        let mut assignment = self.build_assignment(
            LanePassAssignmentStatus::Completed,
            active.lane,
            active.pass,
            worker_id.clone(),
            ClaimStatus::Completed,
            active.claim.claim_id.clone(),
            snapshot,
        )?;
        let path = receipt_path(self.config.state_dir.as_str(), receipt.receipt_id.as_str())?;
        assignment.receipt_id = Some(receipt.receipt_id.clone());
        assignment.receipt_path = Some(path);
        Ok(LanePassUpdate { assignment, record: true, receipt: Some(receipt), handoff: None })
    }

    /// The receipt of the active assignment's pass, with its canonical id
    /// filled in when it has none, and the handoff built from it and bound to
    /// the current checkout.
    #[verifier::rlimit(30)]
    fn prepare_handoff(
        &self,
        worker_id: &WorkerId,
        active: &LanePassAssignment,
        receipt: ProofReceipt,
        next_action: &str,
        snapshot: &LanePassSnapshot,
    ) -> (r: Result<(ProofReceipt, NextPassHandoff)>)
        requires
            active.claim.status == ClaimStatus::Claimed,
        ensures
            agrees(r, handoff_prepare_refusal(self.spec_config(), worker_id@, *active, receipt, next_action@)),
            r is Ok ==> {
                &&& r->Ok_0.0 == (ProofReceipt { receipt_id: r->Ok_0.0.receipt_id, ..receipt })
                &&& r->Ok_0.0.receipt_id@ == canonical_receipt_id(receipt)
                &&& advanced_handoff(r->Ok_0.1, active.claim, receipt, next_action@, active.worktree)
                &&& r->Ok_0.1.receipt_id@ == canonical_receipt_id(receipt)
                &&& r->Ok_0.1.next_pass@ == active.claim.pass@ + 1
            },
    {
        if receipt.redacted {
            return Err(validation("next-pass handoff requires an unredacted proof receipt"));
        }
        let ghost original = receipt;
        let mut receipt = receipt;
        if is_blank_str(receipt.receipt_id.as_str()) {
            let id = receipt.receipt_id()?;
            receipt.receipt_id = id;
        }
        proof {
            lemma_receipt_with_id(receipt, original);
            assert(receipt_check(receipt) == receipt_check(original));
        }
        receipt.validate()?;
        proof {
            assert(receipt.receipt_id@ == canonical_receipt_id(original));
            assert(handoff_build_check(active.claim, receipt, next_action@) == handoff_build_check(
                active.claim,
                original,
                next_action@,
            ));
            assert(handoff_outcome(receipt) == handoff_outcome(original));
        }
        let identity = active.worktree.identity();
        receipt.validate_worktree_identity(&identity)?;
        validate_receipt_session(&receipt.claim, &active.claim)?;
        let mut handoff = active.claim.handoff_from(&receipt, next_action)?;
        let ghost built = handoff;
        handoff.worktree_identity = Some(identity);
        proof {
            assert(NextPassHandoff { worktree_identity: None, ..handoff } == built);
            assert(built_handoff(built, active.claim, original, next_action@));
            lemma_built_handoff_continues_claim(handoff, active.claim, receipt, next_action@);
            assert(advanced_handoff(handoff, active.claim, original, next_action@, active.worktree));
        }
        handoff.validate_against(&active.claim)?;
        if handoff.outcome == PassOutcome::Blocked {
            return Err(validation("blocked handoff cannot advance the next pass"));
        }
        if handoff.next_pass.value() > self.config.max_passes {
            return Err(self.max_passes_error(worker_id));
        }
        Ok((receipt, handoff))
    }

    /// Advances the worker to the next pass of its lane with a durable
    /// handoff: the receipt of the pass (its canonical id filled in when it
    /// has none) must be valid, recorded in the current checkout and
    /// session under the active claim, and must not block; the next pass
    /// must stay within the limit.
    #[verifier::rlimit(60)]
    pub fn next_pass_with_handoff(
        &self,
        worker_id: &WorkerId,
        current: &Option<LanePassAssignment>,
        receipt: ProofReceipt,
        next_action: &str,
        snapshot: &LanePassSnapshot,
    ) -> (r: Result<LanePassUpdate>)
        ensures
            answers(
                r,
                handoff_refusal(self.spec_config(), worker_id@, *current, receipt, next_action@, *snapshot),
            ),
            r is Ok ==> {
                &&& built_assignment(
                    without_artifacts(r->Ok_0.assignment),
                    self.spec_config(),
                    LanePassAssignmentStatus::Advanced,
                    current->Some_0.lane@,
                    (current->Some_0.claim.pass@ + 1) as u32,
                    *worker_id,
                    sequence_claim_id(next_claim_sequence(snapshot.claims@)->Some_0),
                    session_of(snapshot.session),
                    ClaimStatus::Claimed,
                    snapshot.worktree,
                )
                &&& crate::strategy::worktree::opt_view(r->Ok_0.assignment.receipt_id) == Some(canonical_receipt_id(receipt))
                &&& crate::strategy::worktree::opt_view(r->Ok_0.assignment.receipt_path) == Some(
                    artifact_path_in(self.spec_config().state_dir@, "receipts"@, canonical_receipt_id(receipt)),
                )
                &&& crate::strategy::worktree::opt_view(r->Ok_0.assignment.handoff_id) == Some(canonical_receipt_id(receipt))
                &&& crate::strategy::worktree::opt_view(r->Ok_0.assignment.handoff_path) == Some(
                    artifact_path_in(self.spec_config().state_dir@, "handoffs"@, canonical_receipt_id(receipt)),
                )
                &&& r->Ok_0.record
                &&& r->Ok_0.receipt is Some
                &&& r->Ok_0.receipt->Some_0 == (ProofReceipt { receipt_id: r->Ok_0.receipt->Some_0.receipt_id, ..receipt })
                &&& r->Ok_0.receipt->Some_0.receipt_id@ == canonical_receipt_id(receipt)
                &&& r->Ok_0.handoff is Some
                &&& exists|h: NextPassHandoff|
                    #![trigger advanced_handoff(h, current->Some_0.claim, receipt, next_action@, current->Some_0.worktree)]
                    advanced_handoff(h, current->Some_0.claim, receipt, next_action@, current->Some_0.worktree)
                        && stored_handoff(r->Ok_0.handoff->Some_0, h)
            },
    {
        self.state_dir()?;
        let active = match current {
            None => {
                return Err(worker_error(worker_id, " has no lane claim"));
            },
            Some(a) => a,
        };
        if active.claim.status != ClaimStatus::Claimed {
            return Err(worker_error(worker_id, " lane claim is not active"));
        }
        if !active.worktree.has_same_identity(&snapshot.worktree) {
            return Err(validation("worktree identity changed since the active lane claim"));
        }
        let (receipt, handoff) = self.prepare_handoff(worker_id, active, receipt, next_action, snapshot)?;
        let claim_id = next_claim_id(&snapshot.claims)?;
        let mut assignment = self.build_assignment(
            LanePassAssignmentStatus::Advanced,
            active.lane,
            handoff.next_pass,
            worker_id.clone(),
            ClaimStatus::Claimed,
            claim_id,
            snapshot,
        )?;
        let stored_receipt_path = receipt_path(self.config.state_dir.as_str(), receipt.receipt_id.as_str())?;
        let stored_handoff_path = handoff_path(self.config.state_dir.as_str(), handoff.receipt_id.as_str())?;
        assignment.receipt_id = Some(receipt.receipt_id.clone());
        assignment.receipt_path = Some(stored_receipt_path);
        assignment.handoff_id = Some(handoff.receipt_id.clone());
        assignment.handoff_path = Some(stored_handoff_path);
        let stored = handoff.persisted_form();
        Ok(LanePassUpdate { assignment, record: true, receipt: Some(receipt), handoff: Some(stored) })
    }
}


// ---------------------------------------------------------------------------
// Reading a worker's assignment back
// ---------------------------------------------------------------------------

/// Why a worker's stored assignment, once parsed, is refused: it must be
/// valid, belong to the worker and to the store's scope, and name the
/// session of the state directory, if any.
pub open spec fn worker_record_refusal(
    c: LanePassConfig,
    worker: Seq<char>,
    a: LanePassAssignment,
    session: Result<StateSessionId>,
) -> Option<Refusal> {
    if assignment_check(a) is Some {
        rule(assignment_check(a))
    } else if a.worker_id@ != worker {
        rule(Some("worker state file belongs to "@ + a.worker_id@ + ", not "@ + worker))
    } else if a.scope@ != c.scope@ {
        rule(
            Some(
                worker_message(worker, " lane claim scope "@) + a.scope@ + " does not match store scope "@
                    + c.scope@,
            ),
        )
    } else {
        match session {
            Err(e) => Some(Refusal::Passed(e)),
            Ok(id) => if a.claim.state_session_id is Some && a.claim.state_session_id->Some_0@
                != id@ {
                rule(Some("assignment state identity does not match lane/pass state"@))
            } else {
                None
            },
        }
    }
}

/// Why the receipt that an assignment records cannot be read: its path must
/// lie in the state directory and be the canonical path of its id.
pub open spec fn receipt_location_refusal(c: LanePassConfig, a: LanePassAssignment) -> Option<Seq<char>> {
    if a.receipt_id is Some && a.receipt_path is Some {
        let id = a.receipt_id->Some_0@;
        let path = a.receipt_path->Some_0@;
        if artifact_location_check(c.state_dir@, path, "receipt"@) is Some {
            artifact_location_check(c.state_dir@, path, "receipt"@)
        } else if artifact_path_check(c.state_dir@, id) is Some {
            artifact_path_check(c.state_dir@, id)
        } else if !same_path(path, artifact_path_in(c.state_dir@, "receipts"@, id)) {
            Some("assignment receipt path must match canonical receipt path"@)
        } else {
            None
        }
    } else {
        None
    }
}

/// Why the handoff that an assignment records cannot be read.
pub open spec fn handoff_location_refusal(c: LanePassConfig, a: LanePassAssignment) -> Option<Seq<char>> {
    if a.handoff_id is Some && a.handoff_path is Some {
        let id = a.handoff_id->Some_0@;
        let path = a.handoff_path->Some_0@;
        if artifact_location_check(c.state_dir@, path, "handoff"@) is Some {
            artifact_location_check(c.state_dir@, path, "handoff"@)
        } else if artifact_path_check(c.state_dir@, id) is Some {
            artifact_path_check(c.state_dir@, id)
        } else if !same_path(path, artifact_path_in(c.state_dir@, "handoffs"@, id)) {
            Some("assignment handoff path must match canonical handoff path"@)
        } else {
            None
        }
    } else {
        None
    }
}

/// The pass that the stored receipt must belong to: the assignment's pass,
/// or the one before it when the assignment came with a handoff.
pub open spec fn expected_receipt_pass(a: LanePassAssignment) -> Option<u32> {
    if a.handoff_id is Some {
        if a.pass@ >= 2 {
            Some((a.pass@ - 1) as u32)
        } else {
            None
        }
    } else {
        Some(a.pass@)
    }
}

/// Why the receipt stored for an assignment does not back it.
pub open spec fn stored_receipt_refusal(a: LanePassAssignment, r: ProofReceipt) -> Option<Seq<char>> {
    if a.receipt_id is None {
        None
    } else if receipt_check(r) is Some {
        receipt_check(r)
    } else if r.receipt_id@ != a.receipt_id->Some_0@ {
        Some("stored receipt id does not match assignment receipt id"@)
    } else if expected_receipt_pass(a) is None {
        Some("handoff receipt cannot belong to pass zero"@)
    } else if r.claim.lane@ != a.lane@ || r.claim.pass@ != expected_receipt_pass(a)->Some_0
        || r.claim.worker_id@ != a.worker_id@ || r.claim.scope@ != a.scope@ {
        Some("stored receipt claim does not match assignment claim"@)
    } else if receipt_session_check(r.claim, a.claim) is Some {
        receipt_session_check(r.claim, a.claim)
    } else if worktree_identity_check(r, identity_of(a.worktree)) is Some {
        worktree_identity_check(r, identity_of(a.worktree))
    } else if a.handoff_id is None && (r.claim.claim_id@ != a.claim.claim_id@ || r.claim.token@
        != a.claim.token@) {
        Some("stored receipt claim does not match assignment claim"@)
    } else {
        None
    }
}

/// Why the handoff stored for an assignment does not back it, before its
/// receipt is consulted.
pub open spec fn stored_handoff_refusal(a: LanePassAssignment, h: NextPassHandoff) -> Option<Seq<char>> {
    if a.handoff_id is None {
        None
    } else if h.worktree_identity is None {
        Some("stored handoff worktree identity is required"@)
    } else if h.receipt_id@ != a.handoff_id->Some_0@ {
        Some("stored handoff receipt id does not match assignment handoff id"@)
    } else if a.receipt_id is Some && h.receipt_id@ != a.receipt_id->Some_0@ {
        Some("stored handoff receipt id does not match assignment receipt id"@)
    } else if h.lane@ != a.lane@ || h.worker_id@ != a.worker_id@ || h.next_pass@ != a.pass@ {
        Some("stored handoff does not match assignment lane/pass/worker"@)
    } else if a.receipt_path is None {
        Some("stored handoff requires a receipt artifact for claim validation"@)
    } else {
        None
    }
}

/// Why the stored handoff is not the one that its receipt gives: it must
/// come from the receipt's claim, and carry the masked summary, the outcome
/// and the masked blockers of the handoff built from that receipt, the
/// assignment's checkout, and a valid stored form.
pub open spec fn handoff_receipt_refusal(a: LanePassAssignment, h: NextPassHandoff, r: ProofReceipt) -> Option<
    Seq<char>,
> {
    if h.from_claim@ != r.claim.token@ {
        Some("stored handoff claim token does not match assignment claim"@)
    } else if handoff_build_check(r.claim, r, h.next_action@) is Some {
        handoff_build_check(r.claim, r, h.next_action@)
    } else if h.summary@ != redacted(r.summary@) {
        Some("stored handoff summary does not match receipt summary"@)
    } else if h.outcome != handoff_outcome(r) {
        Some("stored handoff outcome does not match receipt outcome"@)
    } else if strings_view(h.blockers@) != receipt_blockers(r).map_values(|b: Seq<char>| redacted(b)) {
        Some("stored handoff blockers do not match receipt blockers"@)
    } else if h.worktree_identity is None {
        Some("stored handoff worktree identity is required"@)
    } else if identity_key(h.worktree_identity->Some_0) != identity_key(identity_of(a.worktree)) {
        Some("stored handoff worktree identity does not match assignment worktree"@)
    } else {
        persisted_handoff_check(h)
    }
}

impl LanePassStore {
    /// Checks a worker's assignment as read back from its file, against the
    /// worker, the store's scope and the state directory's session.
    pub fn check_worker_record(
        &self,
        worker_id: &WorkerId,
        stored: &LanePassAssignment,
        session: &Result<StateSessionId>,
    ) -> (r: Result<()>)
        ensures
            answers(r, worker_record_refusal(self.spec_config(), worker_id@, *stored, *session)),
    {
        stored.validate()?;
        if !stored.worker_id.same(worker_id) {
            let mut msg = concat3("worker state file belongs to ", stored.worker_id.as_str(), ", not ");
            msg.append(worker_id.as_str());
            return Err(validation_owned(msg));
        }
        if !str_eq(stored.scope.as_str(), self.config.scope.as_str()) {
            let mut msg = concat3("worker ", worker_id.as_str(), " lane claim scope ");
            msg.append(stored.scope.as_str());
            msg.append(" does not match store scope ");
            msg.append(self.config.scope.as_str());
            proof {
                reveal_strlit("worker ");
                reveal_strlit(" lane claim scope ");
            }
            assert(msg@ =~= worker_message(worker_id@, " lane claim scope "@) + stored.scope@
                + " does not match store scope "@ + self.config.scope@);
            return Err(validation_owned(msg));
        }
        match session {
            Err(e) => Err(e.clone()),
            Ok(id) => {
                if let Some(claimed) = &stored.claim.state_session_id {
                    if !claimed.same(id) {
                        return Err(validation("assignment state identity does not match lane/pass state"));
                    }
                }
                Ok(())
            },
        }
    }

    /// Where the receipt that the assignment records is to be read from, once
    /// its path is known to be the canonical one inside the state directory;
    /// `None` when it records no receipt.
    pub fn receipt_artifact_to_read(&self, a: &LanePassAssignment) -> (r: Result<Option<String>>)
        ensures
            agrees(r, receipt_location_refusal(self.spec_config(), *a)),
            r is Ok ==> opt_view(r->Ok_0) == (if a.receipt_id is Some && a.receipt_path is Some {
                Some(a.receipt_path->Some_0@)
            } else {
                None
            }),
    {
        match (&a.receipt_id, &a.receipt_path) {
            (Some(id), Some(path)) => {
                ensure_artifact_path_in_state(self.config.state_dir.as_str(), path.as_str(), "receipt")?;
                let canonical = receipt_path(self.config.state_dir.as_str(), id.as_str())?;
                if !paths_equal(path.as_str(), canonical.as_str()) {
                    return Err(validation("assignment receipt path must match canonical receipt path"));
                }
                Ok(Some(path.clone()))
            },
            _ => Ok(None),
        }
    }

    /// Checks the receipt read back for an assignment that records one.
    pub fn check_stored_receipt(&self, a: &LanePassAssignment, stored: &ProofReceipt) -> (r: Result<()>)
        ensures
            agrees(r, stored_receipt_refusal(*a, *stored)),
    {
        let receipt_id = match &a.receipt_id {
            None => {
                return Ok(());
            },
            Some(id) => id,
        };
        stored.validate()?;
        if !str_eq(stored.receipt_id.as_str(), receipt_id.as_str()) {
            return Err(validation("stored receipt id does not match assignment receipt id"));
        }
        let expected_pass: u32 = if a.handoff_id.is_some() {
            let pass = a.pass.value();
            if pass < 2 {
                return Err(validation("handoff receipt cannot belong to pass zero"));
            }
            pass - 1
        } else {
            a.pass.value()
        };
        if !stored.claim.lane.same(a.lane) || stored.claim.pass.value() != expected_pass
            || !stored.claim.worker_id.same(&a.worker_id) || !str_eq(
            stored.claim.scope.as_str(),
            a.scope.as_str(),
        ) {
            return Err(validation("stored receipt claim does not match assignment claim"));
        }
        validate_receipt_session(&stored.claim, &a.claim)?;
        stored.validate_worktree_identity(&a.worktree.identity())?;
        if a.handoff_id.is_none() && (!stored.claim.claim_id.same(&a.claim.claim_id)
            || !stored.claim.token.same(&a.claim.token)) {
            return Err(validation("stored receipt claim does not match assignment claim"));
        }
        Ok(())
    }

    /// Where the handoff that the assignment records is to be read from, once
    /// its path is known to be the canonical one inside the state directory;
    /// `None` when it records no handoff.
    pub fn handoff_artifact_to_read(&self, a: &LanePassAssignment) -> (r: Result<Option<String>>)
        ensures
            agrees(r, handoff_location_refusal(self.spec_config(), *a)),
            r is Ok ==> opt_view(r->Ok_0) == (if a.handoff_id is Some && a.handoff_path is Some {
                Some(a.handoff_path->Some_0@)
            } else {
                None
            }),
    {
        match (&a.handoff_id, &a.handoff_path) {
            (Some(id), Some(path)) => {
                ensure_artifact_path_in_state(self.config.state_dir.as_str(), path.as_str(), "handoff")?;
                let canonical = handoff_path(self.config.state_dir.as_str(), id.as_str())?;
                if !paths_equal(path.as_str(), canonical.as_str()) {
                    return Err(validation("assignment handoff path must match canonical handoff path"));
                }
                Ok(Some(path.clone()))
            },
            _ => Ok(None),
        }
    }

    /// Checks the handoff read back for an assignment that records one, and
    /// says where the receipt it must be checked against is to be read from.
    pub fn check_stored_handoff(&self, a: &LanePassAssignment, stored: &NextPassHandoff) -> (r: Result<
        Option<String>,
    >)
        ensures
            agrees(r, stored_handoff_refusal(*a, *stored)),
            r is Ok ==> opt_view(r->Ok_0) == (if a.handoff_id is Some {
                Some(a.receipt_path->Some_0@)
            } else {
                None
            }),
    {
        let handoff_id = match &a.handoff_id {
            None => {
                return Ok(None);
            },
            Some(id) => id,
        };
        if stored.worktree_identity.is_none() {
            return Err(validation("stored handoff worktree identity is required"));
        }
        if !str_eq(stored.receipt_id.as_str(), handoff_id.as_str()) {
            return Err(validation("stored handoff receipt id does not match assignment handoff id"));
        }
        if let Some(receipt_id) = &a.receipt_id {
            if !str_eq(stored.receipt_id.as_str(), receipt_id.as_str()) {
                return Err(validation("stored handoff receipt id does not match assignment receipt id"));
            }
        }
        if !stored.lane.same(a.lane) || !stored.worker_id.same(&a.worker_id) || !stored.next_pass.same(
            a.pass,
        ) {
            return Err(validation("stored handoff does not match assignment lane/pass/worker"));
        }
        match &a.receipt_path {
            None => Err(validation("stored handoff requires a receipt artifact for claim validation")),
            Some(path) => Ok(Some(path.clone())),
        }
    }

    /// Checks the stored handoff against the receipt stored at the
    /// assignment's receipt path: it must be the stored form of the handoff
    /// that the receipt gives.
    #[verifier::rlimit(40)]
    pub fn check_handoff_against_receipt(
        &self,
        a: &LanePassAssignment,
        stored: &NextPassHandoff,
        receipt: &ProofReceipt,
    ) -> (r: Result<()>)
        ensures
            agrees(r, handoff_receipt_refusal(*a, *stored, *receipt)),
    {
        if !stored.from_claim.same(&receipt.claim.token) {
            return Err(validation("stored handoff claim token does not match assignment claim"));
        }
        let built = receipt.claim.handoff_from(receipt, stored.next_action.as_str())?;
        let expected = built.redacted_for_persistence();
        if !str_eq(stored.summary.as_str(), expected.summary.as_str()) {
            return Err(validation("stored handoff summary does not match receipt summary"));
        }
        if stored.outcome != expected.outcome {
            return Err(validation("stored handoff outcome does not match receipt outcome"));
        }
        proof {
            assert(strings_view(expected.blockers@) =~= receipt_blockers(*receipt).map_values(
                |b: Seq<char>| redacted(b),
            ));
        }
        if !same_string_lists(&stored.blockers, &expected.blockers) {
            return Err(validation("stored handoff blockers do not match receipt blockers"));
        }
        let identity = match &stored.worktree_identity {
            None => {
                return Err(validation("stored handoff worktree identity is required"));
            },
            Some(i) => i,
        };
        if !identity.same(&a.worktree.identity()) {
            return Err(validation("stored handoff worktree identity does not match assignment worktree"));
        }
        stored.validate_persisted()
    }
}


/// What checking an assignment's artifacts needs to have been read: the
/// receipt and the handoff at the paths it records, wherever those paths
/// pass the location checks.
pub open spec fn artifact_reads_supplied(
    c: LanePassConfig,
    a: LanePassAssignment,
    receipt_read: Option<Result<ProofReceipt>>,
    handoff_read: Option<Result<NextPassHandoff>>,
) -> bool {
    &&& (a.receipt_id is Some && a.receipt_path is Some && receipt_location_refusal(c, a) is None
        ==> receipt_read is Some)
    &&& (a.handoff_id is Some && a.handoff_path is Some && handoff_location_refusal(c, a) is None
        ==> handoff_read is Some)
}

/// Why the artifacts that a valid assignment records do not back it, given
/// what reading them gave.
pub open spec fn artifacts_refusal(
    c: LanePassConfig,
    a: LanePassAssignment,
    receipt_read: Option<Result<ProofReceipt>>,
    handoff_read: Option<Result<NextPassHandoff>>,
) -> Option<Refusal> {
    let has_receipt = a.receipt_id is Some && a.receipt_path is Some;
    let has_handoff = a.handoff_id is Some && a.handoff_path is Some;
    if receipt_location_refusal(c, a) is Some {
        rule(receipt_location_refusal(c, a))
    } else if has_receipt && receipt_read->Some_0 is Err {
        Some(Refusal::Passed(receipt_read->Some_0->Err_0))
    } else if has_receipt && stored_receipt_refusal(a, receipt_read->Some_0->Ok_0) is Some {
        rule(stored_receipt_refusal(a, receipt_read->Some_0->Ok_0))
    } else if handoff_location_refusal(c, a) is Some {
        rule(handoff_location_refusal(c, a))
    } else if has_handoff && handoff_read->Some_0 is Err {
        Some(Refusal::Passed(handoff_read->Some_0->Err_0))
    } else if has_handoff && stored_handoff_refusal(a, handoff_read->Some_0->Ok_0) is Some {
        rule(stored_handoff_refusal(a, handoff_read->Some_0->Ok_0))
    } else if has_handoff {
        rule(
            handoff_receipt_refusal(a, handoff_read->Some_0->Ok_0, receipt_read->Some_0->Ok_0),
        )
    } else {
        None
    }
}

/// Why reading a worker's assignment back is refused, given what reading
/// its file, the session manifest and its artifacts gave.
pub open spec fn worker_assignment_refusal(
    c: LanePassConfig,
    worker: Seq<char>,
    state_dir_exists: bool,
    stored: Option<Result<LanePassAssignment>>,
    session: Result<StateSessionId>,
    receipt_read: Option<Result<ProofReceipt>>,
    handoff_read: Option<Result<NextPassHandoff>>,
) -> Option<Refusal> {
    if state_dir_check(c.state_dir@) is Some {
        rule(state_dir_check(c.state_dir@))
    } else if !state_dir_exists {
        None
    } else if worker_paths_check(c.state_dir@, worker) is Some {
        rule(worker_paths_check(c.state_dir@, worker))
    } else {
        match stored {
            None => None,
            Some(Err(e)) => Some(Refusal::Passed(e)),
            Some(Ok(a)) => if worker_record_refusal(c, worker, a, session) is Some {
                worker_record_refusal(c, worker, a, session)
            } else {
                artifacts_refusal(c, a, receipt_read, handoff_read)
            },
        }
    }
}

pub open spec fn read_result<T>(r: Option<Result<T>>) -> Option<Refusal> {
    match r {
        Some(Err(e)) => Some(Refusal::Passed(e)),
        _ => None,
    }
}

impl LanePassStore {
    /// Checks the receipt and handoff that a valid assignment records, given
    /// what reading them from the paths it records gave.
    #[verifier::rlimit(40)]
    pub fn validate_assignment_artifacts(
        &self,
        a: &LanePassAssignment,
        receipt_read: &Option<Result<ProofReceipt>>,
        handoff_read: &Option<Result<NextPassHandoff>>,
    ) -> (r: Result<()>)
        requires
            assignment_check(*a) is None,
            artifact_reads_supplied(self.spec_config(), *a, *receipt_read, *handoff_read),
        ensures
            answers(r, artifacts_refusal(self.spec_config(), *a, *receipt_read, *handoff_read)),
    {
        let mut stored_receipt: Option<&ProofReceipt> = None;
        if let Some(_) = self.receipt_artifact_to_read(a)? {
            let receipt = match receipt_read {
                Some(Ok(receipt)) => receipt,
                Some(Err(e)) => {
                    return Err(e.clone());
                },
                None => {
                    return Ok(());
                },
            };
            self.check_stored_receipt(a, receipt)?;
            stored_receipt = Some(receipt);
        }
        if let Some(_) = self.handoff_artifact_to_read(a)? {
            let handoff = match handoff_read {
                Some(Ok(handoff)) => handoff,
                Some(Err(e)) => {
                    return Err(e.clone());
                },
                None => {
                    return Ok(());
                },
            };
            self.check_stored_handoff(a, handoff)?;
            let receipt = match stored_receipt {
                Some(receipt) => receipt,
                None => {
                    return Ok(());
                },
            };
            self.check_handoff_against_receipt(a, handoff, receipt)?;
        }
        Ok(())
    }

    /// The worker's assignment as stored, once it has been checked against
    /// the worker, the store, the session and the artifacts it records;
    /// `None` when the state directory or the worker's file does not exist.
    /// `stored` is what reading and parsing the worker's file gave (`None`
    /// when there is no such file); the other reads are as for
    /// `validate_assignment_artifacts`.
    pub fn worker_assignment(
        &self,
        worker_id: &WorkerId,
        state_dir_exists: bool,
        stored: Option<Result<LanePassAssignment>>,
        session: &Result<StateSessionId>,
        receipt_read: &Option<Result<ProofReceipt>>,
        handoff_read: &Option<Result<NextPassHandoff>>,
    ) -> (r: Result<Option<LanePassAssignment>>)
        requires
            stored matches Some(Ok(a)) ==> (worker_record_refusal(self.spec_config(), worker_id@, a, *session)
                is None ==> artifact_reads_supplied(self.spec_config(), a, *receipt_read, *handoff_read)),
        ensures
            answers(
                r,
                worker_assignment_refusal(
                    self.spec_config(),
                    worker_id@,
                    state_dir_exists,
                    stored,
                    *session,
                    *receipt_read,
                    *handoff_read,
                ),
            ),
            r is Ok ==> (if state_dir_exists && stored is Some {
                r->Ok_0 == Some(stored->Some_0->Ok_0)
            } else {
                r->Ok_0 is None
            }),
    {
        self.state_dir()?;
        if !state_dir_exists {
            return Ok(None);
        }
        self.paths_for_worker(worker_id.as_str())?;
        let assignment = match stored {
            None => {
                return Ok(None);
            },
            Some(Err(e)) => {
                return Err(e);
            },
            Some(Ok(a)) => a,
        };
        self.check_worker_record(worker_id, &assignment, session)?;
        self.validate_assignment_artifacts(&assignment, receipt_read, handoff_read)?;
        Ok(Some(assignment))
    }

    /// Where the store runs git and commands: the project root when one is
    /// configured; otherwise the current directory (`.`) for a relative
    /// state directory, and the parent of an absolute one (`.` for the root).
    pub fn execution_root(&self) -> (r: String)
        ensures
            r@ == execution_root_of(self.spec_config()),
    {
        match &self.config.project_root {
            Some(root) => root.clone(),
            None => {
                if !crate::strategy::artifacts::absolute(self.config.state_dir.as_str()) {
                    return String::from_str(".");
                }
                match crate::strategy::artifacts::parent_of_absolute(self.config.state_dir.as_str()) {
                    Some(parent) => parent,
                    None => String::from_str("."),
                }
            },
        }
    }
}

/// The directory the store runs in.
pub open spec fn execution_root_of(c: LanePassConfig) -> Seq<char> {
    match c.project_root {
        Some(root) => root@,
        None => if !crate::strategy::artifacts::is_absolute(c.state_dir@) {
            "."@
        } else {
            match crate::strategy::artifacts::absolute_parent(c.state_dir@) {
                Some(parent) => parent,
                None => "."@,
            }
        },
    }
}


// ---------------------------------------------------------------------------
// Laws
// ---------------------------------------------------------------------------

proof fn lemma_highest_lane_bounds(claims: Seq<LanePassAssignment>)
    ensures
        forall|i: int| 0 <= i < claims.len() ==> (#[trigger] claims[i]).lane@ <= highest_lane(claims),
    decreases claims.len(),
{
    if claims.len() > 0 {
        lemma_highest_lane_bounds(claims.drop_last());
        assert forall|i: int| 0 <= i < claims.len() implies (#[trigger] claims[i]).lane@ <= highest_lane(
            claims,
        ) by {
            if i < claims.len() - 1 {
                assert(claims[i] == claims.drop_last()[i]);
            }
        }
    }
}

proof fn lemma_first_reusable(
    claims: Seq<LanePassAssignment>,
    now: WorktreeMetadata,
    lane: nat,
    max: u8,
)
    requires
        1 <= lane,
    ensures
        first_reusable_from(claims, now, lane, max) matches Some(l) ==> lane <= l <= max
            && lane_reusable(claims, l, now),
    decreases max + 1 - lane,
{
    if lane <= max && !lane_reusable(claims, lane as u8, now) {
        lemma_first_reusable(claims, now, lane + 1, max);
    }
}

/// The lane the store hands out is within the limit, and its latest
/// recorded assignment, if any, is no longer active: the store never hands
/// out a lane that a worker holds. Without lane cycling it lies above every
/// lane recorded, in the counter or among the assignments.
pub proof fn lemma_chosen_lane_is_free(
    c: LanePassConfig,
    last_lane: u8,
    claims: Seq<LanePassAssignment>,
    now: WorktreeMetadata,
)
    requires
        config_check(c) is None,
        lane_choice(c, last_lane, claims, now) is Ok,
    ensures
        ({
            let l = lane_choice(c, last_lane, claims, now)->Ok_0;
            &&& 1 <= l <= c.max_lanes
            &&& latest_index(claims, l) < 0 || claims[latest_index(claims, l)].claim.status
                != ClaimStatus::Claimed
            &&& !c.cycle_lanes ==> l > last_lane && forall|i: int|
                0 <= i < claims.len() ==> (#[trigger] claims[i]).lane@ < l
        }),
{
    let l = lane_choice(c, last_lane, claims, now)->Ok_0;
    lemma_highest_lane_bounds(claims);
    lemma_latest_index_bounds(claims, l);
    lemma_first_reusable(claims, now, 1, c.max_lanes);
}

proof fn lemma_highest_sequence_bounds(claims: Seq<LanePassAssignment>)
    ensures
        forall|i: int|
            0 <= i < claims.len() && (#[trigger] claim_sequence(claims[i].claim.claim_id@)) is Some
                ==> claim_sequence(claims[i].claim.claim_id@)->Some_0 <= highest_claim_sequence(claims),
    decreases claims.len(),
{
    if claims.len() > 0 {
        lemma_highest_sequence_bounds(claims.drop_last());
        assert forall|i: int|
            0 <= i < claims.len() && (#[trigger] claim_sequence(claims[i].claim.claim_id@)) is Some implies claim_sequence(
            claims[i].claim.claim_id@,
        )->Some_0 <= highest_claim_sequence(claims) by {
            if i < claims.len() - 1 {
                assert(claims[i] == claims.drop_last()[i]);
            }
        }
    }
}

/// The sequence number of the next claim is above that of every claim
/// recorded, so a claim id is never handed out twice.
pub proof fn lemma_next_claim_id_is_new(claims: Seq<LanePassAssignment>)
    requires
        next_claim_sequence(claims) is Some,
    ensures
        forall|i: int|
            0 <= i < claims.len() && (#[trigger] claim_sequence(claims[i].claim.claim_id@)) is Some
                ==> claim_sequence(claims[i].claim.claim_id@)->Some_0 < next_claim_sequence(
                claims,
            )->Some_0,
        forall|i: int|
            0 <= i < claims.len() ==> (#[trigger] claims[i]).claim.claim_id@ != sequence_claim_id(
                next_claim_sequence(claims)->Some_0,
            ),
{
    lemma_highest_sequence_bounds(claims);
    let n = next_claim_sequence(claims)->Some_0;
    crate::strategy::identity::lemma_sequence_claim_id_parses(n);
    assert forall|i: int| 0 <= i < claims.len() implies (#[trigger] claims[i]).claim.claim_id@
        != sequence_claim_id(n) by {
        if claims[i].claim.claim_id@ == sequence_claim_id(n) {
            assert(claim_sequence(claims[i].claim.claim_id@) == Some(n));
        }
    }
}

/// Advancing to the next pass keeps the worker on its lane, moves it
/// exactly one pass on, stays within the pass limit, and mints a claim id
/// that no recorded claim carries.
pub proof fn lemma_next_pass_continues_lane(
    c: LanePassConfig,
    worker: WorkerId,
    current: Option<LanePassAssignment>,
    s: LanePassSnapshot,
    a: LanePassAssignment,
)
    requires
        next_refusal(c, worker@, current, s) is None,
        built_assignment(
            a,
            c,
            LanePassAssignmentStatus::Advanced,
            current->Some_0.lane@,
            (current->Some_0.pass@ + 1) as u32,
            worker,
            sequence_claim_id(next_claim_sequence(s.claims@)->Some_0),
            session_of(s.session),
            ClaimStatus::Claimed,
            s.worktree,
        ),
    ensures
        current is Some,
        current->Some_0.claim.status == ClaimStatus::Claimed,
        a.lane@ == current->Some_0.lane@,
        a.pass@ == current->Some_0.pass@ + 1,
        a.pass@ <= c.max_passes,
        a.worker_id@ == worker@,
        a.claim.status == ClaimStatus::Claimed,
        forall|i: int| 0 <= i < s.claims@.len() ==> (#[trigger] s.claims@[i]).claim.claim_id@ != a.claim.claim_id@,
{
    lemma_next_claim_id_is_new(s.claims@);
}

/// A claim that the store recorded stays the worker's: claiming again in
/// the same checkout, with the recorded assignment as the worker's
/// current one, is not refused (and `claim` then hands that assignment
/// back unchanged and records nothing).
pub proof fn lemma_claim_again_keeps_assignment(
    c: LanePassConfig,
    worker: WorkerId,
    current: Option<LanePassAssignment>,
    s: LanePassSnapshot,
    a: LanePassAssignment,
    later: LanePassSnapshot,
)
    requires
        claim_refusal(c, worker@, current, s) is None,
        !(current is Some && current->Some_0.claim.status == ClaimStatus::Claimed),
        built_assignment(
            a,
            c,
            LanePassAssignmentStatus::Claimed,
            lane_choice(c, s.last_lane, s.claims@, s.worktree)->Ok_0,
            1,
            worker,
            sequence_claim_id(next_claim_sequence(s.claims@)->Some_0),
            session_of(s.session),
            ClaimStatus::Claimed,
            s.worktree,
        ),
        same_checkout(s.worktree, later.worktree),
    ensures
        a.claim.status == ClaimStatus::Claimed,
        a.pass@ == 1,
        claim_refusal(c, worker@, Some(a), later) is None,
{
}

/// A released or completed claim is no longer active: neither a plain
/// next pass, nor a handoff, nor another release, nor a completion is
/// accepted for it, whatever the later state and receipt.
pub proof fn lemma_closed_claim_is_inactive(
    c: LanePassConfig,
    worker: WorkerId,
    a: LanePassAssignment,
    later: LanePassSnapshot,
    receipt: ProofReceipt,
    next_action: Seq<char>,
    state_dir_exists: bool,
)
    requires
        a.claim.status == ClaimStatus::Released || a.claim.status == ClaimStatus::Completed,
    ensures
        next_refusal(c, worker@, Some(a), later) is Some,
        handoff_refusal(c, worker@, Some(a), receipt, next_action, later) is Some,
        status_refusal(c, worker@, Some(a), later) is Some,
        complete_refusal(c, worker@, state_dir_exists, Some(a), receipt, later) is Some,
{
}

/// Releasing keeps the lane, the pass and the claim id of the active
/// claim, and leaves the claim released.
pub proof fn lemma_release_keeps_lane_and_pass(
    c: LanePassConfig,
    worker: WorkerId,
    current: Option<LanePassAssignment>,
    s: LanePassSnapshot,
    a: LanePassAssignment,
)
    requires
        status_refusal(c, worker@, current, s) is None,
        built_assignment(
            a,
            c,
            LanePassAssignmentStatus::Released,
            current->Some_0.lane@,
            current->Some_0.pass@,
            worker,
            current->Some_0.claim.claim_id@,
            session_of(s.session),
            ClaimStatus::Released,
            s.worktree,
        ),
    ensures
        current is Some,
        current->Some_0.claim.status == ClaimStatus::Claimed,
        a.lane@ == current->Some_0.lane@,
        a.pass@ == current->Some_0.pass@,
        a.claim.claim_id@ == current->Some_0.claim.claim_id@,
        a.claim.status == ClaimStatus::Released,
        a.status == LanePassAssignmentStatus::Released,
{
}

/// Passes stop at the limit: once a worker's pass has reached the store's
/// maximum, no next pass is accepted, with or without a handoff.
#[verifier::spinoff_prover]
pub proof fn lemma_passes_stop_at_max(
    c: LanePassConfig,
    worker: WorkerId,
    a: LanePassAssignment,
    s: LanePassSnapshot,
    receipt: ProofReceipt,
    next_action: Seq<char>,
)
    requires
        a.pass@ >= c.max_passes,
        a.claim.pass@ == a.pass@,
    ensures
        next_refusal(c, worker@, Some(a), s) is Some,
        handoff_refusal(c, worker@, Some(a), receipt, next_action, s) is Some,
{
    let w = worker@;
    let passed_checks = state_dir_check(c.state_dir@) is None && active_check(
        w,
        Some(a),
        s.worktree,
    ) is None;
    assert(next_refusal(c, w, Some(a), s) is Some) by {
        if !c.handoff_required_for_next && passed_checks
            && crate::strategy::identity::pass_next_check(a.pass@) is None {
            assert(a.pass@ + 1 > c.max_passes);
        }
    }
    assert(handoff_refusal(c, w, Some(a), receipt, next_action, s) is Some) by {
        if passed_checks {
            assert(a.claim.pass@ + 1 > c.max_passes);
            assert(handoff_prepare_refusal(c, w, a, receipt, next_action) is Some);
        }
    }
}

/// A pass is completed only with a receipt whose every outcome is verified
/// and whose every command carries captured evidence, made for the active
/// claim of the worker.
pub proof fn lemma_completion_only_with_verified_receipt(
    c: LanePassConfig,
    worker: WorkerId,
    state_dir_exists: bool,
    current: Option<LanePassAssignment>,
    receipt: ProofReceipt,
    s: LanePassSnapshot,
)
    requires
        complete_refusal(c, worker@, state_dir_exists, current, receipt, s) is None,
    ensures
        current is Some,
        current->Some_0.claim.status == ClaimStatus::Claimed,
        !receipt.redacted,
        receipt.outcomes@.len() > 0,
        forall|i: int| 0 <= i < receipt.outcomes@.len() ==> (#[trigger] receipt.outcomes@[i]) is Verified,
        forall|i: int| 0 <= i < receipt.commands@.len() ==> (#[trigger] receipt.commands@[i]).evidence is Some,
        receipt.claim.token@ == current->Some_0.claim.token@,
{
    crate::strategy::receipt::lemma_completion_needs_verified_evidence(receipt);
}

} // verus!
