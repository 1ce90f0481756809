//! Git checkout metadata, the identity that a claim is bound to, and the
//! isolation plan derived from it.

use vstd::prelude::*;

use crate::strategy::artifacts::{path_components, paths_equal};
use crate::json::{
    entries_view, jobject, jopt_str, jstr, json_opt_string, json_string, member, render_object,
};

verus! {

pub const WORKTREE_PLAN_SCHEMA: &'static str = "driven.worktree_isolation_plan.v1";

#[derive(Debug, Clone, Copy, PartialEq, Eq, Structural)]
pub enum GitCheckoutKind {
    NotRepository,
    MainWorktree,
    LinkedWorktree,
    Submodule,
    Bare,
}

#[derive(Debug, Clone, Copy, PartialEq, Eq, Structural)]
pub enum WorktreeIsolationMode {
    NoGitRepository,
    MainWorktree,
    LinkedWorktree,
    Submodule,
    BareRepository,
}

#[derive(Debug, Clone, Copy, PartialEq, Eq, Structural)]
pub enum WorktreeCreationDecision {
    Blocked,
    CreateGitWorktree,
    ReuseCurrentWorktree,
}

/// The text of an optional string.
pub open spec fn opt_view(o: Option<String>) -> Option<Seq<char>> {
    match o {
        Some(s) => Some(s@),
        None => None,
    }
}

pub fn clone_opt_string(o: &Option<String>) -> (r: Option<String>)
    ensures
        r == *o,
{
    match o {
        Some(s) => Some(s.clone()),
        None => None,
    }
}

/// Equality of two optional strings by their text.
pub fn same_opt_string(a: &Option<String>, b: &Option<String>) -> (r: bool)
    ensures
        r == (opt_view(*a) == opt_view(*b)),
{
    match (a, b) {
        (Some(x), Some(y)) => crate::text::str_eq(x.as_str(), y.as_str()),
        (None, None) => true,
        _ => false,
    }
}

/// What was found about a checkout. Paths are held as text.
#[derive(Debug, PartialEq, Eq)]
pub struct WorktreeMetadata {
    pub kind: GitCheckoutKind,
    pub input_root: String,
    pub worktree_root: Option<String>,
    pub git_dir: Option<String>,
    pub common_dir: Option<String>,
    pub superproject_root: Option<String>,
    pub branch: Option<String>,
    pub detached: bool,
    pub head_sha: Option<String>,
    pub remote: Option<String>,
    pub is_dirty: Option<bool>,
    pub ahead: Option<u32>,
    pub behind: Option<u32>,
    pub detection_error: Option<String>,
}

impl Clone for WorktreeMetadata {
    fn clone(&self) -> (r: Self)
        ensures
            r == *self,
    {
        WorktreeMetadata {
            kind: self.kind,
            input_root: self.input_root.clone(),
            worktree_root: clone_opt_string(&self.worktree_root),
            git_dir: clone_opt_string(&self.git_dir),
            common_dir: clone_opt_string(&self.common_dir),
            superproject_root: clone_opt_string(&self.superproject_root),
            branch: clone_opt_string(&self.branch),
            detached: self.detached,
            head_sha: clone_opt_string(&self.head_sha),
            remote: clone_opt_string(&self.remote),
            is_dirty: self.is_dirty,
            ahead: self.ahead,
            behind: self.behind,
            detection_error: clone_opt_string(&self.detection_error),
        }
    }
}

/// The parts of a checkout's metadata that identify it; a claim is bound to
/// these and to nothing that changes while one works in the checkout.
#[derive(Debug, PartialEq, Eq)]
pub struct WorktreeIdentity {
    pub kind: GitCheckoutKind,
    pub input_root: String,
    pub worktree_root: Option<String>,
    pub git_dir: Option<String>,
    pub common_dir: Option<String>,
    pub superproject_root: Option<String>,
    pub branch: Option<String>,
    pub remote: Option<String>,
}

impl Clone for WorktreeIdentity {
    fn clone(&self) -> (r: Self)
        ensures
            r == *self,
    {
        WorktreeIdentity {
            kind: self.kind,
            input_root: self.input_root.clone(),
            worktree_root: clone_opt_string(&self.worktree_root),
            git_dir: clone_opt_string(&self.git_dir),
            common_dir: clone_opt_string(&self.common_dir),
            superproject_root: clone_opt_string(&self.superproject_root),
            branch: clone_opt_string(&self.branch),
            remote: clone_opt_string(&self.remote),
        }
    }
}

/// The components of an optional path.
pub open spec fn opt_components(o: Option<String>) -> Option<Seq<Seq<char>>> {
    match o {
        Some(p) => Some(path_components(p@)),
        None => None,
    }
}

/// What an identity is compared by: its kind, the components of its paths,
/// and the text of its branch and remote.
pub open spec fn identity_key(i: WorktreeIdentity) -> (
    GitCheckoutKind,
    Seq<Seq<char>>,
    Option<Seq<Seq<char>>>,
    Option<Seq<Seq<char>>>,
    Option<Seq<Seq<char>>>,
    Option<Seq<Seq<char>>>,
    Option<Seq<char>>,
    Option<Seq<char>>,
) {
    (
        i.kind,
        path_components(i.input_root@),
        opt_components(i.worktree_root),
        opt_components(i.git_dir),
        opt_components(i.common_dir),
        opt_components(i.superproject_root),
        opt_view(i.branch),
        opt_view(i.remote),
    )
}

/// Equality of two optional paths, component by component.
pub fn same_opt_path(a: &Option<String>, b: &Option<String>) -> (r: bool)
    ensures
        r == (opt_components(*a) == opt_components(*b)),
{
    match (a, b) {
        (Some(x), Some(y)) => paths_equal(x.as_str(), y.as_str()),
        (None, None) => true,
        _ => false,
    }
}

/// The identity that metadata gives: the worktree root stands for the
/// input root where one was found.
pub open spec fn identity_of(m: WorktreeMetadata) -> WorktreeIdentity {
    WorktreeIdentity {
        kind: m.kind,
        input_root: match m.worktree_root {
            Some(root) => root,
            None => m.input_root,
        },
        worktree_root: m.worktree_root,
        git_dir: m.git_dir,
        common_dir: m.common_dir,
        superproject_root: m.superproject_root,
        branch: m.branch,
        remote: m.remote,
    }
}

impl WorktreeIdentity {
    pub fn from_metadata(metadata: &WorktreeMetadata) -> (r: Self)
        ensures
            r == identity_of(*metadata),
    {
        let input_root = match &metadata.worktree_root {
            Some(root) => root.clone(),
            None => metadata.input_root.clone(),
        };
        WorktreeIdentity {
            kind: metadata.kind,
            input_root,
            worktree_root: clone_opt_string(&metadata.worktree_root),
            git_dir: clone_opt_string(&metadata.git_dir),
            common_dir: clone_opt_string(&metadata.common_dir),
            superproject_root: clone_opt_string(&metadata.superproject_root),
            branch: clone_opt_string(&metadata.branch),
            remote: clone_opt_string(&metadata.remote),
        }
    }

    /// Equality as `==` on identities holding paths: the kind, each path
    /// component by component, the branch and the remote.
    pub fn same(&self, other: &Self) -> (r: bool)
        ensures
            r == (identity_key(*self) == identity_key(*other)),
    {
        self.kind == other.kind && paths_equal(self.input_root.as_str(), other.input_root.as_str())
            && same_opt_path(&self.worktree_root, &other.worktree_root) && same_opt_path(
            &self.git_dir,
            &other.git_dir,
        ) && same_opt_path(&self.common_dir, &other.common_dir) && same_opt_path(
            &self.superproject_root,
            &other.superproject_root,
        ) && same_opt_string(&self.branch, &other.branch) && same_opt_string(
            &self.remote,
            &other.remote,
        )
    }
}

impl WorktreeMetadata {
    pub fn is_not_repository(&self) -> (r: bool)
        ensures
            r == (self.kind == GitCheckoutKind::NotRepository),
    {
        self.kind == GitCheckoutKind::NotRepository
    }

    pub fn identity(&self) -> (r: WorktreeIdentity)
        ensures
            r == identity_of(*self),
    {
        WorktreeIdentity::from_metadata(self)
    }

    /// Whether two pieces of metadata identify the same checkout.
    pub fn has_same_identity(&self, other: &Self) -> (r: bool)
        ensures
            r == (identity_key(identity_of(*self)) == identity_key(identity_of(*other))),
    {
        self.identity().same(&other.identity())
    }
}

// ---------------------------------------------------------------------------
// Isolation plan
// ---------------------------------------------------------------------------

#[derive(Debug, Clone, PartialEq, Eq)]
pub struct WorktreeIsolationPlan {
    pub schema: String,
    pub metadata: WorktreeMetadata,
    pub mode: WorktreeIsolationMode,
    pub creation_decision: WorktreeCreationDecision,
    pub can_create_git_worktree: bool,
    pub native_isolation_detected: bool,
    pub execution_root: Option<String>,
    pub blockers: Vec<String>,
    pub warnings: Vec<String>,
}

pub open spec fn plan_mode(kind: GitCheckoutKind) -> WorktreeIsolationMode {
    match kind {
        GitCheckoutKind::NotRepository => WorktreeIsolationMode::NoGitRepository,
        GitCheckoutKind::Bare => WorktreeIsolationMode::BareRepository,
        GitCheckoutKind::LinkedWorktree => WorktreeIsolationMode::LinkedWorktree,
        GitCheckoutKind::Submodule => WorktreeIsolationMode::Submodule,
        GitCheckoutKind::MainWorktree => WorktreeIsolationMode::MainWorktree,
    }
}

pub open spec fn when(cond: bool, item: Seq<char>) -> Seq<Seq<char>> {
    if cond {
        seq![item]
    } else {
        Seq::empty()
    }
}

/// What stands in the way of isolating the checkout.
pub open spec fn plan_blockers(m: WorktreeMetadata) -> Seq<Seq<char>> {
    match m.kind {
        GitCheckoutKind::NotRepository => seq![
            "path is not a Git repository; git worktree creation is blocked"@,
        ] + match m.detection_error {
            Some(e) => seq![e@],
            None => Seq::empty(),
        },
        GitCheckoutKind::Bare => seq![
            "bare repository has no working tree; provide an explicit checkout target before isolation"@,
        ],
        GitCheckoutKind::LinkedWorktree => Seq::empty(),
        GitCheckoutKind::Submodule => Seq::empty(),
        GitCheckoutKind::MainWorktree => when(
            m.is_dirty == Some(true),
            "main worktree has local changes; commit, stash, or claim an existing isolated worktree before creating isolation"@,
        ) + when(
            m.detached,
            "main worktree must be on a branch with a resolved HEAD before creating a git worktree"@,
        ) + when(
            m.head_sha is None,
            "main worktree must have a branch with a resolved HEAD before creating a git worktree"@,
        ),
    }
}

/// What deserves attention before reusing the checkout.
pub open spec fn plan_warnings(m: WorktreeMetadata) -> Seq<Seq<char>> {
    match m.kind {
        GitCheckoutKind::LinkedWorktree => when(
            m.is_dirty == Some(true),
            "linked worktree has local changes; confirm ownership before reuse"@,
        ) + when(
            m.detached,
            "linked worktree is detached; preserve external orchestration metadata"@,
        ),
        GitCheckoutKind::Submodule => seq![
            "path is a Git submodule; reuse current checkout unless the superproject owns orchestration"@,
        ] + when(
            m.is_dirty == Some(true),
            "submodule has local changes; confirm ownership before reuse"@,
        ),
        _ => Seq::empty(),
    }
}

pub open spec fn plan_decision(m: WorktreeMetadata) -> WorktreeCreationDecision {
    match m.kind {
        GitCheckoutKind::NotRepository => WorktreeCreationDecision::Blocked,
        GitCheckoutKind::Bare => WorktreeCreationDecision::Blocked,
        GitCheckoutKind::LinkedWorktree => WorktreeCreationDecision::ReuseCurrentWorktree,
        GitCheckoutKind::Submodule => WorktreeCreationDecision::ReuseCurrentWorktree,
        GitCheckoutKind::MainWorktree => if plan_blockers(m).len() == 0 {
            WorktreeCreationDecision::CreateGitWorktree
        } else {
            WorktreeCreationDecision::Blocked
        },
    }
}

/// The plan that `from_metadata` makes of the metadata.
pub open spec fn plan_of(p: WorktreeIsolationPlan, m: WorktreeMetadata) -> bool {
    &&& p.schema@ == WORKTREE_PLAN_SCHEMA@
    &&& p.metadata == m
    &&& p.mode == plan_mode(m.kind)
    &&& p.creation_decision == plan_decision(m)
    &&& p.can_create_git_worktree == (m.kind == GitCheckoutKind::MainWorktree && plan_blockers(
        m,
    ).len() == 0)
    &&& p.native_isolation_detected == (m.kind == GitCheckoutKind::LinkedWorktree || m.kind
        == GitCheckoutKind::Submodule)
    &&& p.execution_root == (if m.kind == GitCheckoutKind::NotRepository || m.kind
        == GitCheckoutKind::Bare {
        None
    } else {
        m.worktree_root
    })
    &&& crate::json::strings_view(p.blockers@) == plan_blockers(m)
    &&& crate::json::strings_view(p.warnings@) == plan_warnings(m)
}

/// A plan blocks exactly when it names a blocker; it creates a git
/// worktree exactly when it says one can be created; it reuses the current
/// checkout exactly when isolation is native; and only a reused checkout
/// carries warnings.
pub proof fn lemma_plan_decision(p: WorktreeIsolationPlan, m: WorktreeMetadata)
    requires
        plan_of(p, m),
    ensures
        (p.creation_decision == WorktreeCreationDecision::Blocked) <==> p.blockers@.len() > 0,
        (p.creation_decision == WorktreeCreationDecision::CreateGitWorktree)
            <==> p.can_create_git_worktree,
        (p.creation_decision == WorktreeCreationDecision::ReuseCurrentWorktree)
            <==> p.native_isolation_detected,
        p.warnings@.len() > 0 ==> p.native_isolation_detected,
{
    assert(crate::json::strings_view(p.blockers@).len() == p.blockers@.len());
    assert(crate::json::strings_view(p.warnings@).len() == p.warnings@.len());
}

/// The isolation decision, from the checkout alone: a repository that is
/// missing or bare is blocked; a linked worktree or a submodule is reused
/// as it is; a main worktree gets a new git worktree only when it is clean,
/// on a branch and has a resolved `HEAD`, and is blocked otherwise.
pub proof fn lemma_plan_decision_by_checkout(p: WorktreeIsolationPlan, m: WorktreeMetadata)
    requires
        plan_of(p, m),
    ensures
        m.kind == GitCheckoutKind::NotRepository || m.kind == GitCheckoutKind::Bare
            ==> p.creation_decision == WorktreeCreationDecision::Blocked
            && !p.can_create_git_worktree && p.blockers@.len() > 0,
        m.kind == GitCheckoutKind::LinkedWorktree || m.kind == GitCheckoutKind::Submodule
            ==> p.creation_decision == WorktreeCreationDecision::ReuseCurrentWorktree
            && p.blockers@.len() == 0,
        m.kind == GitCheckoutKind::Submodule ==> p.warnings@.len() > 0,
        m.kind == GitCheckoutKind::MainWorktree ==> (p.creation_decision
            == WorktreeCreationDecision::CreateGitWorktree <==> (m.is_dirty != Some(true)
            && !m.detached && m.head_sha is Some)),
        m.kind == GitCheckoutKind::MainWorktree && (m.is_dirty == Some(true) || m.detached
            || m.head_sha is None) ==> p.creation_decision == WorktreeCreationDecision::Blocked
            && !p.can_create_git_worktree && p.blockers@.len() > 0,
        p.can_create_git_worktree <==> (m.kind == GitCheckoutKind::MainWorktree && m.is_dirty
            != Some(true) && !m.detached && m.head_sha is Some),
{
    assert(crate::json::strings_view(p.blockers@).len() == p.blockers@.len());
    assert(crate::json::strings_view(p.warnings@).len() == p.warnings@.len());
}

/// The identity of a checkout does not depend on whether it has local
/// changes, where `HEAD` points, how far it is from its upstream, or a
/// detection error: metadata that differ only there identify the same
/// checkout.
pub proof fn lemma_identity_ignores_volatile_state(a: WorktreeMetadata, b: WorktreeMetadata)
    requires
        a == (WorktreeMetadata {
            is_dirty: a.is_dirty,
            head_sha: a.head_sha,
            ahead: a.ahead,
            behind: a.behind,
            detached: a.detached,
            detection_error: a.detection_error,
            ..b
        }),
    ensures
        identity_of(a) == identity_of(b),
{
}

fn push_text(v: &mut Vec<String>, text: &str)
    ensures
        crate::json::strings_view(final(v)@) == crate::json::strings_view(old(v)@).push(text@),
{
    v.push(String::from_str(text));
    assert(crate::json::strings_view(final(v)@) =~= crate::json::strings_view(old(v)@).push(
        text@,
    ));
}

impl WorktreeIsolationPlan {
    /// Decides how a lane may be isolated in the checkout that the metadata
    /// describes.
    pub fn from_metadata(metadata: WorktreeMetadata) -> (r: Self)
        ensures
            plan_of(r, metadata),
    {
        let mut blockers: Vec<String> = Vec::new();
        let mut warnings: Vec<String> = Vec::new();
        let ghost m = metadata;
        let mode;
        let decision;
        let can_create;
        let native;
        match metadata.kind {
            GitCheckoutKind::NotRepository => {
                push_text(
                    &mut blockers,
                    "path is not a Git repository; git worktree creation is blocked",
                );
                if let Some(error) = &metadata.detection_error {
                    push_text(&mut blockers, error.as_str());
                }
                mode = WorktreeIsolationMode::NoGitRepository;
                decision = WorktreeCreationDecision::Blocked;
                can_create = false;
                native = false;
            },
            GitCheckoutKind::Bare => {
                push_text(
                    &mut blockers,
                    "bare repository has no working tree; provide an explicit checkout target before isolation",
                );
                mode = WorktreeIsolationMode::BareRepository;
                decision = WorktreeCreationDecision::Blocked;
                can_create = false;
                native = false;
            },
            GitCheckoutKind::LinkedWorktree => {
                if metadata.is_dirty == Some(true) {
                    push_text(
                        &mut warnings,
                        "linked worktree has local changes; confirm ownership before reuse",
                    );
                }
                if metadata.detached {
                    push_text(
                        &mut warnings,
                        "linked worktree is detached; preserve external orchestration metadata",
                    );
                }
                mode = WorktreeIsolationMode::LinkedWorktree;
                decision = WorktreeCreationDecision::ReuseCurrentWorktree;
                can_create = false;
                native = true;
            },
            GitCheckoutKind::Submodule => {
                push_text(
                    &mut warnings,
                    "path is a Git submodule; reuse current checkout unless the superproject owns orchestration",
                );
                if metadata.is_dirty == Some(true) {
                    push_text(
                        &mut warnings,
                        "submodule has local changes; confirm ownership before reuse",
                    );
                }
                mode = WorktreeIsolationMode::Submodule;
                decision = WorktreeCreationDecision::ReuseCurrentWorktree;
                can_create = false;
                native = true;
            },
            GitCheckoutKind::MainWorktree => {
                if metadata.is_dirty == Some(true) {
                    push_text(
                        &mut blockers,
                        "main worktree has local changes; commit, stash, or claim an existing isolated worktree before creating isolation",
                    );
                }
                if metadata.detached {
                    push_text(
                        &mut blockers,
                        "main worktree must be on a branch with a resolved HEAD before creating a git worktree",
                    );
                }
                if metadata.head_sha.is_none() {
                    push_text(
                        &mut blockers,
                        "main worktree must have a branch with a resolved HEAD before creating a git worktree",
                    );
                }
                can_create = blockers.len() == 0;
                mode = WorktreeIsolationMode::MainWorktree;
                decision = if can_create {
                    WorktreeCreationDecision::CreateGitWorktree
                } else {
                    WorktreeCreationDecision::Blocked
                };
                native = false;
            },
        }
        assert(crate::json::strings_view(blockers@) =~= plan_blockers(m));
        assert(crate::json::strings_view(warnings@) =~= plan_warnings(m));
        let execution_root = match mode {
            WorktreeIsolationMode::NoGitRepository | WorktreeIsolationMode::BareRepository => None,
            _ => clone_opt_string(&metadata.worktree_root),
        };
        WorktreeIsolationPlan {
            schema: String::from_str(WORKTREE_PLAN_SCHEMA),
            metadata,
            mode,
            creation_decision: decision,
            can_create_git_worktree: can_create,
            native_isolation_detected: native,
            execution_root,
            blockers,
            warnings,
        }
    }

    /// Whether strict isolation accepts the checkout: an isolated worktree
    /// with nothing blocking and nothing to warn about.
    pub fn allows_strict_isolation(&self) -> (r: bool)
        ensures
            r == (self.native_isolation_detected && self.blockers@.len() == 0
                && self.warnings@.len() == 0),
    {
        self.native_isolation_detected && self.blockers.len() == 0 && self.warnings.len() == 0
    }
}

// ---------------------------------------------------------------------------
// JSON
// ---------------------------------------------------------------------------

pub open spec fn checkout_kind_name(k: GitCheckoutKind) -> Seq<char> {
    match k {
        GitCheckoutKind::NotRepository => "not_repository"@,
        GitCheckoutKind::MainWorktree => "main_worktree"@,
        GitCheckoutKind::LinkedWorktree => "linked_worktree"@,
        GitCheckoutKind::Submodule => "submodule"@,
        GitCheckoutKind::Bare => "bare"@,
    }
}

pub fn checkout_kind_text(k: GitCheckoutKind) -> (r: &'static str)
    ensures
        r@ == checkout_kind_name(k),
{
    match k {
        GitCheckoutKind::NotRepository => "not_repository",
        GitCheckoutKind::MainWorktree => "main_worktree",
        GitCheckoutKind::LinkedWorktree => "linked_worktree",
        GitCheckoutKind::Submodule => "submodule",
        GitCheckoutKind::Bare => "bare",
    }
}

pub open spec fn identity_members(i: WorktreeIdentity) -> Seq<(Seq<char>, Seq<char>)> {
    seq![
        ("kind"@, jstr(checkout_kind_name(i.kind))),
        ("input_root"@, jstr(i.input_root@)),
        ("worktree_root"@, jopt_str(opt_view(i.worktree_root))),
        ("git_dir"@, jopt_str(opt_view(i.git_dir))),
        ("common_dir"@, jopt_str(opt_view(i.common_dir))),
        ("superproject_root"@, jopt_str(opt_view(i.superproject_root))),
        ("branch"@, jopt_str(opt_view(i.branch))),
        ("remote"@, jopt_str(opt_view(i.remote))),
    ]
}

/// The identity as a JSON object at nesting `level`.
pub open spec fn identity_json(i: WorktreeIdentity, pretty: bool, level: nat) -> Seq<char> {
    jobject(identity_members(i), pretty, level)
}

impl WorktreeIdentity {
    pub fn to_json(&self, pretty: bool, level: usize) -> (r: String)
        requires
            level < usize::MAX,
        ensures
            r@ == identity_json(*self, pretty, level as nat),
    {
        let mut v: Vec<(String, String)> = Vec::new();
        v.push(member("kind", json_string(checkout_kind_text(self.kind))));
        v.push(member("input_root", json_string(self.input_root.as_str())));
        v.push(member("worktree_root", json_opt_string(&self.worktree_root)));
        v.push(member("git_dir", json_opt_string(&self.git_dir)));
        v.push(member("common_dir", json_opt_string(&self.common_dir)));
        v.push(member("superproject_root", json_opt_string(&self.superproject_root)));
        v.push(member("branch", json_opt_string(&self.branch)));
        v.push(member("remote", json_opt_string(&self.remote)));
        assert(entries_view(v@) =~= identity_members(*self));
        render_object(&v, pretty, level)
    }
}

} // verus!
