//! Worktree metadata from what git reports about a checkout.
//!
//! The queries are run by the caller; each answer is the trimmed standard
//! output of the query, or the error text when it failed. From those
//! answers the metadata is computed here.

use vstd::prelude::*;

use crate::strategy::artifacts::{absolute, is_absolute, join_path, path_join, paths_equal, same_path};
use crate::strategy::identity::{
    all_ascii_digits, digits_value, parse_u64, parse_u64_str, unsigned_body,
};
use crate::strategy::worktree::{
    clone_opt_string, opt_view, plan_of, GitCheckoutKind, WorktreeIsolationPlan, WorktreeMetadata,
};
use crate::text::{is_blank, is_blank_str, is_white_space, str_eq, trim_start, white_space_char};

verus! {

/// The answers of git about one checkout, each query's trimmed standard
/// output or its error text.
pub struct GitProbe {
    /// `git rev-parse --show-toplevel`
    pub show_toplevel: core::result::Result<String, String>,
    /// `git rev-parse --is-bare-repository`
    pub is_bare_repository: core::result::Result<String, String>,
    /// `git rev-parse --git-dir`
    pub git_dir: core::result::Result<String, String>,
    /// `git rev-parse --git-common-dir`
    pub git_common_dir: core::result::Result<String, String>,
    /// `git rev-parse --show-superproject-working-tree`
    pub superproject_working_tree: core::result::Result<String, String>,
    /// `git rev-parse --abbrev-ref HEAD`
    pub abbrev_ref_head: core::result::Result<String, String>,
    /// `git rev-parse HEAD`
    pub head: core::result::Result<String, String>,
    /// `git config --get remote.origin.url`
    pub remote_origin_url: core::result::Result<String, String>,
    /// `git status --porcelain`
    pub status_porcelain: core::result::Result<String, String>,
    /// `git rev-list --left-right --count @{upstream}...HEAD`
    pub upstream_counts: core::result::Result<String, String>,
}

/// The output of a query that succeeded.
pub open spec fn answer(r: core::result::Result<String, String>) -> Option<Seq<char>> {
    match r {
        Ok(s) => Some(s@),
        Err(_) => None,
    }
}

fn answer_text(r: &core::result::Result<String, String>) -> (o: Option<String>)
    ensures
        opt_view(o) == answer(*r),
{
    match r {
        Ok(s) => Some(s.clone()),
        Err(_) => None,
    }
}

/// A path that git printed, read relative to the checkout root unless it
/// is absolute.
pub open spec fn git_path(root: Seq<char>, path: Seq<char>) -> Seq<char> {
    if is_absolute(path) {
        path
    } else {
        path_join(root, path)
    }
}

pub fn normalize_git_path(root: &str, path: &str) -> (r: String)
    ensures
        r@ == git_path(root@, path@),
{
    if absolute(path) {
        String::from_str(path)
    } else {
        join_path(root, path)
    }
}

pub open spec fn git_path_answer(root: Seq<char>, r: core::result::Result<String, String>) -> Option<
    Seq<char>,
> {
    match answer(r) {
        Some(p) => Some(git_path(root, p)),
        None => None,
    }
}

fn git_path_of(root: &str, r: &core::result::Result<String, String>) -> (o: Option<String>)
    ensures
        opt_view(o) == git_path_answer(root@, *r),
{
    match r {
        Ok(p) => Some(normalize_git_path(root, p.as_str())),
        Err(_) => None,
    }
}

/// The branch: the abbreviated name of `HEAD`, unless it is `HEAD` itself.
pub open spec fn branch_answer(r: core::result::Result<String, String>) -> Option<Seq<char>> {
    match answer(r) {
        Some(b) => if b == "HEAD"@ {
            None
        } else {
            Some(b)
        },
        None => None,
    }
}

fn branch_of(r: &core::result::Result<String, String>) -> (o: Option<String>)
    ensures
        opt_view(o) == branch_answer(*r),
{
    match r {
        Ok(b) => {
            if str_eq(b.as_str(), "HEAD") {
                None
            } else {
                Some(b.clone())
            }
        },
        Err(_) => None,
    }
}

pub open spec fn says_true(r: core::result::Result<String, String>) -> bool {
    answer(r) == Some("true"@)
}

fn answered_true(r: &core::result::Result<String, String>) -> (b: bool)
    ensures
        b == says_true(*r),
{
    match r {
        Ok(s) => str_eq(s.as_str(), "true"),
        Err(_) => false,
    }
}

// ---------------------------------------------------------------------------
// Upstream counts
// ---------------------------------------------------------------------------

/// Length of the run of non-white-space characters that starts `s`.
pub open spec fn leading_token_len(s: Seq<char>) -> nat
    decreases s.len(),
{
    if s.len() > 0 && !is_white_space(s[0]) {
        1 + leading_token_len(s.drop_first())
    } else {
        0
    }
}

/// The first field of `s` split at white space.
pub open spec fn first_token(s: Seq<char>) -> Seq<char> {
    let t = trim_start(s);
    t.subrange(0, leading_token_len(t) as int)
}

/// What follows the first field of `s`.
pub open spec fn after_first_token(s: Seq<char>) -> Seq<char> {
    let t = trim_start(s);
    t.subrange(leading_token_len(t) as int, t.len() as int)
}

/// `u32::from_str`: an optional `+`, then one or more decimal digits whose
/// value fits in 32 bits.
pub open spec fn parse_u32(s: Seq<char>) -> Option<u32> {
    let body = unsigned_body(s);
    if body.len() == 0 || !all_ascii_digits(body) || digits_value(body) > u32::MAX {
        None
    } else {
        Some(digits_value(body) as u32)
    }
}

/// Commits ahead of and behind the upstream, from the counts
/// `<behind> <ahead>` that `git rev-list --left-right --count` prints.
pub open spec fn upstream_divergence(r: core::result::Result<String, String>) -> (Option<u32>, Option<
    u32,
>) {
    match answer(r) {
        Some(out) => (
            parse_u32(first_token(after_first_token(out))),
            parse_u32(first_token(out)),
        ),
        None => (None, None),
    }
}

fn parse_u32_str(s: &str) -> (r: Option<u32>)
    ensures
        r == parse_u32(s@),
{
    match parse_u64_str(s) {
        Some(v) => {
            if v > 4294967295 {
                None
            } else {
                Some(v as u32)
            }
        },
        None => None,
    }
}

fn skip_white(s: &str, i: usize) -> (r: usize)
    requires
        i <= s@.len(),
    ensures
        i <= r <= s@.len(),
        s@.subrange(r as int, s@.len() as int) == trim_start(s@.subrange(i as int, s@.len() as int)),
    decreases s@.len() - i,
{
    let n = s.unicode_len();
    let ghost rest = s@.subrange(i as int, n as int);
    if i < n && white_space_char(s.get_char(i)) {
        assert(rest.drop_first() =~= s@.subrange(i + 1, n as int));
        skip_white(s, i + 1)
    } else {
        i
    }
}

fn token_end(s: &str, i: usize) -> (r: usize)
    requires
        i <= s@.len(),
    ensures
        i <= r <= s@.len(),
        r - i == leading_token_len(s@.subrange(i as int, s@.len() as int)),
    decreases s@.len() - i,
{
    let n = s.unicode_len();
    let ghost rest = s@.subrange(i as int, n as int);
    if i < n && !white_space_char(s.get_char(i)) {
        assert(rest.drop_first() =~= s@.subrange(i + 1, n as int));
        token_end(s, i + 1)
    } else {
        i
    }
}

/// The commits ahead of and behind the upstream.
pub fn upstream_counts(r: &core::result::Result<String, String>) -> (o: (Option<u32>, Option<u32>))
    ensures
        o == upstream_divergence(*r),
{
    match r {
        Ok(out) => {
            let s = out.as_str();
            let n = s.unicode_len();
            let i0 = skip_white(s, 0);
            let i1 = token_end(s, i0);
            let i2 = skip_white(s, i1);
            let i3 = token_end(s, i2);
            let ghost t = trim_start(s@);
            proof {
                assert(s@.subrange(0, n as int) =~= s@);
                assert(t =~= s@.subrange(i0 as int, n as int));
                assert(t.subrange(0, leading_token_len(t) as int) =~= s@.subrange(
                    i0 as int,
                    i1 as int,
                ));
                assert(after_first_token(s@) =~= s@.subrange(i1 as int, n as int));
                let u = trim_start(after_first_token(s@));
                assert(u =~= s@.subrange(i2 as int, n as int));
                assert(u.subrange(0, leading_token_len(u) as int) =~= s@.subrange(
                    i2 as int,
                    i3 as int,
                ));
            }
            let behind = parse_u32_str(s.substring_char(i0, i1));
            let ahead = parse_u32_str(s.substring_char(i2, i3));
            (ahead, behind)
        },
        Err(_) => (None, None),
    }
}

// ---------------------------------------------------------------------------
// Metadata
// ---------------------------------------------------------------------------

/// The metadata of a checkout that git does not see as a repository: the
/// error of the top-level query is kept.
pub open spec fn not_repository_metadata(input_root: Seq<char>, error: Seq<char>, m: WorktreeMetadata) -> bool {
    &&& m.kind == GitCheckoutKind::NotRepository
    &&& m.input_root@ == input_root
    &&& m.worktree_root is None
    &&& m.git_dir is None
    &&& m.common_dir is None
    &&& m.superproject_root is None
    &&& m.branch is None
    &&& !m.detached
    &&& m.head_sha is None
    &&& m.remote is None
    &&& m.is_dirty is None
    &&& m.ahead is None
    &&& m.behind is None
    &&& opt_view(m.detection_error) == Some(error)
}

/// The metadata of a bare repository.
pub open spec fn bare_metadata(input_root: Seq<char>, p: GitProbe, m: WorktreeMetadata) -> bool {
    &&& m.kind == GitCheckoutKind::Bare
    &&& m.input_root@ == input_root
    &&& m.worktree_root is None
    &&& opt_view(m.git_dir) == git_path_answer(input_root, p.git_dir)
    &&& opt_view(m.common_dir) == git_path_answer(input_root, p.git_common_dir)
    &&& m.superproject_root is None
    &&& opt_view(m.branch) == branch_answer(p.abbrev_ref_head)
    &&& m.detached == (branch_answer(p.abbrev_ref_head) is None)
    &&& opt_view(m.head_sha) == answer(p.head)
    &&& opt_view(m.remote) == answer(p.remote_origin_url)
    &&& m.is_dirty is None
    &&& m.ahead is None
    &&& m.behind is None
    &&& m.detection_error is None
}

/// The superproject of a submodule, when git names one.
pub open spec fn superproject_answer(r: core::result::Result<String, String>) -> Option<Seq<char>> {
    match answer(r) {
        Some(s) => if s.len() == 0 {
            None
        } else {
            Some(s)
        },
        None => None,
    }
}

/// The kind of a checkout that has a working tree.
pub open spec fn checkout_kind(input_root: Seq<char>, p: GitProbe) -> GitCheckoutKind {
    let git_dir = git_path_answer(input_root, p.git_dir);
    let common_dir = git_path_answer(input_root, p.git_common_dir);
    if says_true(p.is_bare_repository) {
        GitCheckoutKind::Bare
    } else if superproject_answer(p.superproject_working_tree) is Some {
        GitCheckoutKind::Submodule
    } else if git_dir is Some && common_dir is Some && !same_path(git_dir->Some_0, common_dir->Some_0) {
        GitCheckoutKind::LinkedWorktree
    } else {
        GitCheckoutKind::MainWorktree
    }
}

/// Whether the working tree has changes: some porcelain status line.
pub open spec fn dirty_answer(r: core::result::Result<String, String>) -> Option<bool> {
    match answer(r) {
        Some(s) => Some(!is_blank(s)),
        None => None,
    }
}

/// The metadata of a checkout with a working tree.
pub open spec fn working_tree_metadata(input_root: Seq<char>, p: GitProbe, m: WorktreeMetadata) -> bool {
    &&& m.kind == checkout_kind(input_root, p)
    &&& m.input_root@ == input_root
    &&& opt_view(m.worktree_root) == answer(p.show_toplevel)
    &&& opt_view(m.git_dir) == git_path_answer(input_root, p.git_dir)
    &&& opt_view(m.common_dir) == git_path_answer(input_root, p.git_common_dir)
    &&& opt_view(m.superproject_root) == superproject_answer(p.superproject_working_tree)
    &&& opt_view(m.branch) == branch_answer(p.abbrev_ref_head)
    &&& m.detached == (branch_answer(p.abbrev_ref_head) is None)
    &&& opt_view(m.head_sha) == answer(p.head)
    &&& opt_view(m.remote) == answer(p.remote_origin_url)
    &&& m.is_dirty == dirty_answer(p.status_porcelain)
    &&& (m.ahead, m.behind) == upstream_divergence(p.upstream_counts)
    &&& m.detection_error is None
}

/// The metadata that git's answers describe for the checkout at
/// `input_root`.
pub open spec fn probed_metadata(input_root: Seq<char>, p: GitProbe, m: WorktreeMetadata) -> bool {
    match p.show_toplevel {
        Ok(_) => working_tree_metadata(input_root, p, m),
        Err(e) => if says_true(p.is_bare_repository) {
            bare_metadata(input_root, p, m)
        } else {
            not_repository_metadata(input_root, e@, m)
        },
    }
}

fn superproject_of(r: &core::result::Result<String, String>) -> (o: Option<String>)
    ensures
        opt_view(o) == superproject_answer(*r),
{
    match r {
        Ok(s) => {
            if s.unicode_len() == 0 {
                None
            } else {
                Some(s.clone())
            }
        },
        Err(_) => None,
    }
}

fn dirty_of(r: &core::result::Result<String, String>) -> (o: Option<bool>)
    ensures
        o == dirty_answer(*r),
{
    match r {
        Ok(s) => Some(!is_blank_str(s.as_str())),
        Err(_) => None,
    }
}

impl WorktreeMetadata {
    /// The metadata of the checkout at `input_root` (already made absolute
    /// by the caller), from git's answers about it.
    pub fn from_probe(input_root: &str, probe: &GitProbe) -> (r: WorktreeMetadata)
        ensures
            probed_metadata(input_root@, *probe, r),
    {
        let root = String::from_str(input_root);
        match &probe.show_toplevel {
            Err(error) => {
                if answered_true(&probe.is_bare_repository) {
                    let branch = branch_of(&probe.abbrev_ref_head);
                    let detached = branch.is_none();
                    WorktreeMetadata {
                        kind: GitCheckoutKind::Bare,
                        input_root: root,
                        worktree_root: None,
                        git_dir: git_path_of(input_root, &probe.git_dir),
                        common_dir: git_path_of(input_root, &probe.git_common_dir),
                        superproject_root: None,
                        branch,
                        detached,
                        head_sha: answer_text(&probe.head),
                        remote: answer_text(&probe.remote_origin_url),
                        is_dirty: None,
                        ahead: None,
                        behind: None,
                        detection_error: None,
                    }
                } else {
                    WorktreeMetadata {
                        kind: GitCheckoutKind::NotRepository,
                        input_root: root,
                        worktree_root: None,
                        git_dir: None,
                        common_dir: None,
                        superproject_root: None,
                        branch: None,
                        detached: false,
                        head_sha: None,
                        remote: None,
                        is_dirty: None,
                        ahead: None,
                        behind: None,
                        detection_error: Some(error.clone()),
                    }
                }
            },
            Ok(top) => {
                let bare = answered_true(&probe.is_bare_repository);
                let git_dir = git_path_of(input_root, &probe.git_dir);
                let common_dir = git_path_of(input_root, &probe.git_common_dir);
                let superproject_root = superproject_of(&probe.superproject_working_tree);
                let linked = match (&git_dir, &common_dir) {
                    (Some(g), Some(c)) => !paths_equal(g.as_str(), c.as_str()),
                    _ => false,
                };
                let kind = if bare {
                    GitCheckoutKind::Bare
                } else if superproject_root.is_some() {
                    GitCheckoutKind::Submodule
                } else if linked {
                    GitCheckoutKind::LinkedWorktree
                } else {
                    GitCheckoutKind::MainWorktree
                };
                let branch = branch_of(&probe.abbrev_ref_head);
                let detached = branch.is_none();
                let (ahead, behind) = upstream_counts(&probe.upstream_counts);
                WorktreeMetadata {
                    kind,
                    input_root: root,
                    worktree_root: Some(top.clone()),
                    git_dir,
                    common_dir,
                    superproject_root,
                    branch,
                    detached,
                    head_sha: answer_text(&probe.head),
                    remote: answer_text(&probe.remote_origin_url),
                    is_dirty: dirty_of(&probe.status_porcelain),
                    ahead,
                    behind,
                    detection_error: None,
                }
            },
        }
    }
}

/// The metadata of the checkout at `input_root`, from git's answers about
/// it.
pub fn detect_worktree_metadata(input_root: &str, probe: &GitProbe) -> (r: WorktreeMetadata)
    ensures
        probed_metadata(input_root@, *probe, r),
{
    WorktreeMetadata::from_probe(input_root, probe)
}

/// The isolation plan of the checkout at `input_root`, from git's answers
/// about it.
pub fn plan_worktree_isolation(input_root: &str, probe: &GitProbe) -> (r: WorktreeIsolationPlan)
    ensures
        probed_metadata(input_root@, *probe, r.metadata),
        plan_of(r, r.metadata),
{
    WorktreeIsolationPlan::from_metadata(detect_worktree_metadata(input_root, probe))
}

/// The kind of a checkout follows git's answers: no top level and not bare
/// is no repository; a bare answer is a bare repository; with a working
/// tree, a checkout that names a superproject is a submodule, and a
/// submodule always names one; a linked worktree has a git directory that
/// differs from the common one; a main worktree names no superproject and
/// is not bare.
pub proof fn lemma_checkout_kind_follows_answers(input_root: Seq<char>, p: GitProbe, m: WorktreeMetadata)
    requires
        probed_metadata(input_root, p, m),
    ensures
        p.show_toplevel is Err && !(p.is_bare_repository matches Ok(s) && s@ == "true"@)
            ==> m.kind == GitCheckoutKind::NotRepository,
        (p.is_bare_repository matches Ok(s) && s@ == "true"@) ==> m.kind == GitCheckoutKind::Bare,
        p.show_toplevel is Ok && !(p.is_bare_repository matches Ok(s) && s@ == "true"@)
            && (p.superproject_working_tree matches Ok(s) && s@.len() > 0)
            ==> m.kind == GitCheckoutKind::Submodule,
        p.show_toplevel is Ok && !(p.is_bare_repository matches Ok(s) && s@ == "true"@)
            ==> (m.kind == GitCheckoutKind::Submodule <==> m.superproject_root is Some),
        m.kind == GitCheckoutKind::Submodule ==> (p.superproject_working_tree matches Ok(s)
            && s@.len() > 0) && m.superproject_root is Some,
        m.kind == GitCheckoutKind::LinkedWorktree ==> m.git_dir is Some && m.common_dir is Some
            && !same_path(m.git_dir->Some_0@, m.common_dir->Some_0@),
        m.kind == GitCheckoutKind::MainWorktree ==> m.superproject_root is None
            && !(p.is_bare_repository matches Ok(s) && s@ == "true"@),
{
    reveal_strlit("true");
}

} // verus!
