//! Lane/pass assignments: the configuration of a state directory, the
//! files it holds, and the record that ties a worker to a lane and pass.

use vstd::prelude::*;

use crate::error::{agrees, validation, validation_owned, Result};
use crate::strategy::artifacts::{contained_state_dir, join_path, path_join, state_dir_check};
use crate::strategy::identity::{
    claim_check, normalized_id, worker_id_check, ClaimStatus, LaneClaim, LaneId, PassNumber,
    WorkerId, MAX_LANES,
};
use crate::strategy::worktree::{opt_view, WorktreeIsolationPlan, WorktreeMetadata};
use crate::text::{concat3, is_blank, is_blank_str, str_eq, trim};

verus! {

pub const COUNTER_FILE: &'static str = "lane-counter.json";

pub const CLAIMS_FILE: &'static str = "lane-claims.json";

pub const WORKERS_DIR: &'static str = "workers";

pub const DEFAULT_MAX_PASSES: u32 = 3;

// ---------------------------------------------------------------------------
// Configuration
// ---------------------------------------------------------------------------

/// How a lane/pass state directory is run.
#[derive(Debug, PartialEq, Eq)]
pub struct LanePassConfig {
    pub state_dir: String,
    pub scope: String,
    pub max_lanes: u8,
    pub max_passes: u32,
    pub cycle_lanes: bool,
    pub project_root: Option<String>,
    pub handoff_required_for_next: bool,
}

impl Clone for LanePassConfig {
    fn clone(&self) -> (r: Self)
        ensures
            r == *self,
    {
        LanePassConfig {
            state_dir: self.state_dir.clone(),
            scope: self.scope.clone(),
            max_lanes: self.max_lanes,
            max_passes: self.max_passes,
            cycle_lanes: self.cycle_lanes,
            project_root: crate::strategy::worktree::clone_opt_string(&self.project_root),
            handoff_required_for_next: self.handoff_required_for_next,
        }
    }
}

/// The first rule that a configuration breaks.
pub open spec fn config_check(c: LanePassConfig) -> Option<Seq<char>> {
    if is_blank(c.scope@) {
        Some("lane/pass scope cannot be empty"@)
    } else if c.max_lanes == 0 || c.max_lanes > MAX_LANES {
        Some("max lanes must be between 1 and 30"@)
    } else if c.max_passes == 0 {
        Some("max passes must be at least 1"@)
    } else {
        None
    }
}

impl LanePassConfig {
    /// A configuration with every lane and at most three passes per lane,
    /// no lane cycling, no project root and no handoff requirement.
    pub fn new(state_dir: &str, scope: &str) -> (r: Self)
        ensures
            r.state_dir@ == state_dir@,
            r.scope@ == scope@,
            r.max_lanes == MAX_LANES,
            r.max_passes == DEFAULT_MAX_PASSES,
            !r.cycle_lanes,
            r.project_root is None,
            !r.handoff_required_for_next,
    {
        LanePassConfig {
            state_dir: String::from_str(state_dir),
            scope: String::from_str(scope),
            max_lanes: MAX_LANES,
            max_passes: DEFAULT_MAX_PASSES,
            cycle_lanes: false,
            project_root: None,
            handoff_required_for_next: false,
        }
    }

    pub fn with_max_lanes(self, max_lanes: u8) -> (r: Self)
        ensures
            r == (LanePassConfig { max_lanes, ..self }),
    {
        let mut c = self;
        c.max_lanes = max_lanes;
        c
    }

    pub fn with_max_passes(self, max_passes: u32) -> (r: Self)
        ensures
            r == (LanePassConfig { max_passes, ..self }),
    {
        let mut c = self;
        c.max_passes = max_passes;
        c
    }

    pub fn with_lane_cycling(self, cycle_lanes: bool) -> (r: Self)
        ensures
            r == (LanePassConfig { cycle_lanes, ..self }),
    {
        let mut c = self;
        c.cycle_lanes = cycle_lanes;
        c
    }

    /// Runs the store for the checkout at `project_root`, a path that the
    /// caller has already made absolute and canonical.
    pub fn with_project_root(self, project_root: &str) -> (r: Self)
        ensures
            r == (LanePassConfig { project_root: r.project_root, ..self }),
            opt_view(r.project_root) == Some(project_root@),
    {
        let mut c = self;
        c.project_root = Some(String::from_str(project_root));
        c
    }

    pub fn with_handoff_required_for_next(self, required: bool) -> (r: Self)
        ensures
            r == (LanePassConfig { handoff_required_for_next: required, ..self }),
    {
        let mut c = self;
        c.handoff_required_for_next = required;
        c
    }

    pub fn validate(&self) -> (r: Result<()>)
        ensures
            agrees(r, config_check(*self)),
    {
        if is_blank_str(self.scope.as_str()) {
            return Err(validation("lane/pass scope cannot be empty"));
        }
        if self.max_lanes == 0 || self.max_lanes > MAX_LANES {
            return Err(validation("max lanes must be between 1 and 30"));
        }
        if self.max_passes == 0 {
            return Err(validation("max passes must be at least 1"));
        }
        Ok(())
    }
}

// ---------------------------------------------------------------------------
// State paths
// ---------------------------------------------------------------------------

/// The files of a state directory that concern one worker.
#[derive(Debug, PartialEq, Eq)]
pub struct LanePassStatePaths {
    pub state_dir: String,
    pub counter_path: String,
    pub claims_path: String,
    pub worker_path: String,
}

impl Clone for LanePassStatePaths {
    fn clone(&self) -> (r: Self)
        ensures
            r == *self,
    {
        LanePassStatePaths {
            state_dir: self.state_dir.clone(),
            counter_path: self.counter_path.clone(),
            claims_path: self.claims_path.clone(),
            worker_path: self.worker_path.clone(),
        }
    }
}

/// `workers/worker-<id>.json` under the state directory, for the
/// normalized worker id.
pub open spec fn worker_file_path(dir: Seq<char>, worker: Seq<char>) -> Seq<char> {
    path_join(path_join(dir, WORKERS_DIR@), "worker-"@ + normalized_id(worker) + ".json"@)
}

/// The paths of the state directory `dir` for the worker `worker`.
pub open spec fn state_paths(p: LanePassStatePaths, dir: Seq<char>, worker: Seq<char>) -> bool {
    &&& p.state_dir@ == dir
    &&& p.counter_path@ == path_join(dir, COUNTER_FILE@)
    &&& p.claims_path@ == path_join(dir, CLAIMS_FILE@)
    &&& p.worker_path@ == worker_file_path(dir, worker)
}

pub open spec fn worker_paths_check(dir: Seq<char>, worker: Seq<char>) -> Option<Seq<char>> {
    if state_dir_check(dir) is Some {
        state_dir_check(dir)
    } else {
        worker_id_check(worker)
    }
}

/// The paths of the state directory for a worker, whose id must be a valid
/// worker id.
pub fn paths_for_worker(state_dir: &str, worker_id: &str) -> (r: Result<LanePassStatePaths>)
    ensures
        agrees(r, worker_paths_check(state_dir@, worker_id@)),
        r is Ok ==> state_paths(r->Ok_0, state_dir@, worker_id@),
{
    let dir = contained_state_dir(state_dir)?;
    let worker = WorkerId::new(worker_id)?;
    let file = concat3("worker-", worker.as_str(), ".json");
    let workers = join_path(dir.as_str(), WORKERS_DIR);
    Ok(
        LanePassStatePaths {
            counter_path: join_path(dir.as_str(), COUNTER_FILE),
            claims_path: join_path(dir.as_str(), CLAIMS_FILE),
            worker_path: join_path(workers.as_str(), file.as_str()),
            state_dir: dir,
        },
    )
}

// ---------------------------------------------------------------------------
// Assignments
// ---------------------------------------------------------------------------

#[derive(Debug, Clone, Copy, PartialEq, Eq, Structural)]
pub enum LanePassAssignmentStatus {
    Peeked,
    Claimed,
    Advanced,
    Completed,
    Released,
}

pub open spec fn assignment_status_name(s: LanePassAssignmentStatus) -> Seq<char> {
    match s {
        LanePassAssignmentStatus::Peeked => "peeked"@,
        LanePassAssignmentStatus::Claimed => "claimed"@,
        LanePassAssignmentStatus::Advanced => "advanced"@,
        LanePassAssignmentStatus::Completed => "completed"@,
        LanePassAssignmentStatus::Released => "released"@,
    }
}

/// The name under which a status is stored.
pub fn assignment_status_text(s: LanePassAssignmentStatus) -> (r: &'static str)
    ensures
        r@ == assignment_status_name(s),
{
    match s {
        LanePassAssignmentStatus::Peeked => "peeked",
        LanePassAssignmentStatus::Claimed => "claimed",
        LanePassAssignmentStatus::Advanced => "advanced",
        LanePassAssignmentStatus::Completed => "completed",
        LanePassAssignmentStatus::Released => "released",
    }
}

/// A worker's place in the lane/pass state: its lane, its pass, its claim,
/// the artifacts of its last pass, and the checkout it works in.
#[derive(Debug, Clone, PartialEq, Eq)]
pub struct LanePassAssignment {
    pub status: LanePassAssignmentStatus,
    pub scope: String,
    pub lane: LaneId,
    pub pass: PassNumber,
    pub worker_id: WorkerId,
    pub claim: LaneClaim,
    pub receipt_id: Option<String>,
    pub receipt_path: Option<String>,
    pub handoff_id: Option<String>,
    pub handoff_path: Option<String>,
    pub paths: LanePassStatePaths,
    pub worktree: WorktreeMetadata,
    pub worktree_plan: Option<WorktreeIsolationPlan>,
}

/// The claim status that an assignment status goes with.
pub open spec fn expected_claim_status(s: LanePassAssignmentStatus) -> ClaimStatus {
    match s {
        LanePassAssignmentStatus::Completed => ClaimStatus::Completed,
        LanePassAssignmentStatus::Released => ClaimStatus::Released,
        _ => ClaimStatus::Claimed,
    }
}

pub open spec fn blank_opt(o: Option<String>) -> bool {
    o is Some && is_blank(o->Some_0@)
}

pub open spec fn empty_opt(o: Option<String>) -> bool {
    o is Some && o->Some_0@.len() == 0
}

/// The first rule that an assignment breaks, in the order `validate`
/// checks them.
pub open spec fn assignment_check(a: LanePassAssignment) -> Option<Seq<char>> {
    if claim_check(a.claim) is Some {
        claim_check(a.claim)
    } else if is_blank(a.scope@) {
        Some("lane/pass assignment scope cannot be empty"@)
    } else if a.claim.scope@ != a.scope@ {
        Some("assignment scope does not match claim scope"@)
    } else if a.claim.lane@ != a.lane@ {
        Some("assignment lane does not match claim lane"@)
    } else if a.claim.pass@ != a.pass@ {
        Some("assignment pass does not match claim pass"@)
    } else if a.claim.worker_id@ != a.worker_id@ {
        Some("assignment worker does not match claim worker"@)
    } else if a.claim.status != expected_claim_status(a.status) {
        Some("assignment status does not match claim status"@)
    } else if blank_opt(a.receipt_id) {
        Some("assignment receipt id cannot be empty"@)
    } else if empty_opt(a.receipt_path) {
        Some("assignment receipt path cannot be empty"@)
    } else if blank_opt(a.handoff_id) {
        Some("assignment handoff id cannot be empty"@)
    } else if empty_opt(a.handoff_path) {
        Some("assignment handoff path cannot be empty"@)
    } else if (a.receipt_id is Some) != (a.receipt_path is Some) {
        Some("assignment receipt id and path must be recorded together"@)
    } else if (a.handoff_id is Some) != (a.handoff_path is Some) {
        Some("assignment handoff id and path must be recorded together"@)
    } else if a.receipt_id is Some && a.handoff_id is Some && a.receipt_id->Some_0@
        != a.handoff_id->Some_0@ {
        Some("assignment receipt and handoff ids must match"@)
    } else {
        None
    }
}

fn blank_option(o: &Option<String>) -> (r: bool)
    ensures
        r == blank_opt(*o),
{
    match o {
        Some(s) => is_blank_str(s.as_str()),
        None => false,
    }
}

fn empty_option(o: &Option<String>) -> (r: bool)
    ensures
        r == empty_opt(*o),
{
    match o {
        Some(s) => s.unicode_len() == 0,
        None => false,
    }
}

impl LanePassAssignment {
    /// Checks that the assignment agrees with its claim and that the
    /// artifacts it records are named consistently.
    pub fn validate(&self) -> (r: Result<()>)
        ensures
            agrees(r, assignment_check(*self)),
    {
        self.claim.validate()?;
        if is_blank_str(self.scope.as_str()) {
            return Err(validation("lane/pass assignment scope cannot be empty"));
        }
        if !str_eq(self.claim.scope.as_str(), self.scope.as_str()) {
            return Err(validation("assignment scope does not match claim scope"));
        }
        if !self.claim.lane.same(self.lane) {
            return Err(validation("assignment lane does not match claim lane"));
        }
        if !self.claim.pass.same(self.pass) {
            return Err(validation("assignment pass does not match claim pass"));
        }
        if !self.claim.worker_id.same(&self.worker_id) {
            return Err(validation("assignment worker does not match claim worker"));
        }
        let expected = match self.status {
            LanePassAssignmentStatus::Peeked
            | LanePassAssignmentStatus::Claimed
            | LanePassAssignmentStatus::Advanced => ClaimStatus::Claimed,
            LanePassAssignmentStatus::Completed => ClaimStatus::Completed,
            LanePassAssignmentStatus::Released => ClaimStatus::Released,
        };
        if self.claim.status != expected {
            return Err(validation("assignment status does not match claim status"));
        }
        if blank_option(&self.receipt_id) {
            return Err(validation("assignment receipt id cannot be empty"));
        }
        if empty_option(&self.receipt_path) {
            return Err(validation("assignment receipt path cannot be empty"));
        }
        if blank_option(&self.handoff_id) {
            return Err(validation("assignment handoff id cannot be empty"));
        }
        if empty_option(&self.handoff_path) {
            return Err(validation("assignment handoff path cannot be empty"));
        }
        if self.receipt_id.is_some() != self.receipt_path.is_some() {
            return Err(validation("assignment receipt id and path must be recorded together"));
        }
        if self.handoff_id.is_some() != self.handoff_path.is_some() {
            return Err(validation("assignment handoff id and path must be recorded together"));
        }
        if let (Some(receipt_id), Some(handoff_id)) = (&self.receipt_id, &self.handoff_id) {
            if !str_eq(receipt_id.as_str(), handoff_id.as_str()) {
                return Err(validation("assignment receipt and handoff ids must match"));
            }
        }
        Ok(())
    }
}

} // verus!
