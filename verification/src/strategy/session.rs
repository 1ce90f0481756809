//! The session manifest that names one lane/pass state directory, and the
//! rules that tie claims and receipts to it.

use vstd::prelude::*;

use crate::error::{agrees, validation, validation_owned, Result};
use crate::strategy::artifacts::{contained_state_dir, join_path, path_join, state_dir_check};
use crate::strategy::identity::{
    id_char_ok, is_lower_hex, lemma_canonical_id, normalized_id, session_view,
    state_session_id_check, LaneClaim, StateSessionId,
};
use crate::text::{
    concat2, is_blank, is_blank_str, lemma_trim_blank, lemma_trim_idempotent, str_eq, trim, trim_str,
};

verus! {

pub const STATE_SESSION_FILE: &'static str = "state-session.json";

pub const STATE_SESSION_SCHEMA: &'static str = "driven.lane_pass.state_session.v1";

/// The manifest stored as `state-session.json` in a state directory.
#[derive(Debug, PartialEq, Eq)]
pub struct LanePassSessionManifest {
    pub schema: String,
    pub state_session_id: StateSessionId,
    pub scope: String,
}

impl Clone for LanePassSessionManifest {
    fn clone(&self) -> (r: Self)
        ensures
            r == *self,
    {
        LanePassSessionManifest {
            schema: self.schema.clone(),
            state_session_id: self.state_session_id.clone(),
            scope: self.scope.clone(),
        }
    }
}

/// The first rule that a manifest breaks for a store of the given scope.
pub open spec fn manifest_check(m: LanePassSessionManifest, scope: Seq<char>) -> Option<Seq<char>> {
    if m.schema@ != STATE_SESSION_SCHEMA@ {
        Some("state session schema must be "@ + STATE_SESSION_SCHEMA@)
    } else if state_session_id_check(m.state_session_id@) is Some {
        state_session_id_check(m.state_session_id@)
    } else if normalized_id(m.state_session_id@) != m.state_session_id@ {
        Some("state session id must be normalized"@)
    } else if is_blank(m.scope@) {
        Some("state session scope cannot be empty"@)
    } else if m.scope@ != trim(scope) {
        Some("state session scope does not match store scope"@)
    } else {
        None
    }
}

impl LanePassSessionManifest {
    /// A fresh manifest: the current schema, the session id made from the
    /// caller's random draw (see `StateSessionId::generate`) and the
    /// trimmed scope.
    pub fn new(scope: &str, draw: &str) -> (r: Self)
        ensures
            r.schema@ == STATE_SESSION_SCHEMA@,
            r.scope@ == trim(scope@),
            r.state_session_id@ == "state-"@ + draw@,
    {
        LanePassSessionManifest {
            schema: String::from_str(STATE_SESSION_SCHEMA),
            state_session_id: StateSessionId::generate(draw),
            scope: trim_str(scope),
        }
    }

    /// Checks the manifest against the scope of the store that reads it.
    pub fn validate(&self, scope: &str) -> (r: Result<()>)
        ensures
            agrees(r, manifest_check(*self, scope@)),
    {
        if !str_eq(self.schema.as_str(), STATE_SESSION_SCHEMA) {
            return Err(validation_owned(concat2("state session schema must be ", STATE_SESSION_SCHEMA)));
        }
        let normalized = StateSessionId::new(self.state_session_id.as_str())?;
        if !normalized.same(&self.state_session_id) {
            return Err(validation("state session id must be normalized"));
        }
        if is_blank_str(self.scope.as_str()) {
            return Err(validation("state session scope cannot be empty"));
        }
        let trimmed = trim_str(scope);
        if !str_eq(self.scope.as_str(), trimmed.as_str()) {
            return Err(validation("state session scope does not match store scope"));
        }
        Ok(())
    }
}

/// A manifest made for a scope that is not blank passes the checks of a
/// store of that scope.
pub proof fn lemma_new_manifest_valid(m: LanePassSessionManifest, scope: Seq<char>)
    requires
        m.schema@ == STATE_SESSION_SCHEMA@,
        m.scope@ == trim(scope),
        m.state_session_id@.len() == 38,
        m.state_session_id@.subrange(0, 6) == "state-"@,
        forall|i: int| 6 <= i < 38 ==> is_lower_hex(#[trigger] m.state_session_id@[i]),
        !is_blank(scope),
    ensures
        manifest_check(m, scope) is None,
{
    let id = m.state_session_id@;
    reveal_strlit("state-");
    assert forall|i: int| 0 <= i < id.len() implies id_char_ok(#[trigger] id[i], true) by {
        if i < 6 {
            assert(id[i] == id.subrange(0, 6)[i]);
        } else {
            assert(is_lower_hex(id[i]));
        }
    }
    lemma_canonical_id("state session id"@, id, true);
    lemma_trim_blank(scope);
    lemma_trim_blank(trim(scope));
    lemma_trim_idempotent(scope);
}

/// Where the manifest of a state directory is stored.
pub fn session_path(state_dir: &str) -> (r: Result<String>)
    ensures
        agrees(r, state_dir_check(state_dir@)),
        r is Ok ==> r->Ok_0@ == path_join(state_dir@, STATE_SESSION_FILE@),
{
    let dir = contained_state_dir(state_dir)?;
    Ok(join_path(dir.as_str(), STATE_SESSION_FILE))
}

pub open spec fn claim_session_check(
    c: LaneClaim,
    m: LanePassSessionManifest,
    label: Seq<char>,
) -> Option<Seq<char>> {
    if c.state_session_id is Some && c.state_session_id->Some_0@ != m.state_session_id@ {
        Some(label + " state identity does not match lane/pass state"@)
    } else {
        None
    }
}

/// A claim that names a session must name the one of this state directory.
pub fn validate_claim_session(claim: &LaneClaim, manifest: &LanePassSessionManifest, label: &str) -> (r:
    Result<()>)
    ensures
        agrees(r, claim_session_check(*claim, *manifest, label@)),
{
    if let Some(id) = &claim.state_session_id {
        if !id.same(&manifest.state_session_id) {
            return Err(
                validation_owned(concat2(label, " state identity does not match lane/pass state")),
            );
        }
    }
    Ok(())
}

pub open spec fn receipt_session_check(receipt_claim: LaneClaim, active_claim: LaneClaim) -> Option<
    Seq<char>,
> {
    match (session_view(receipt_claim.state_session_id), session_view(active_claim.state_session_id)) {
        (Some(r), Some(a)) => if r == a {
            None
        } else {
            Some("receipt state identity does not match active lane claim"@)
        },
        (None, Some(_)) => Some("receipt claim state identity is required"@),
        (Some(_), None) => Some("active lane claim state identity is missing"@),
        (None, None) => None,
    }
}

/// A receipt belongs to the session of the active claim: both name the
/// same session, or neither names one.
pub fn validate_receipt_session(receipt_claim: &LaneClaim, active_claim: &LaneClaim) -> (r: Result<
    (),
>)
    ensures
        agrees(r, receipt_session_check(*receipt_claim, *active_claim)),
{
    match (&receipt_claim.state_session_id, &active_claim.state_session_id) {
        (Some(receipt), Some(active)) => {
            if receipt.same(active) {
                Ok(())
            } else {
                Err(validation("receipt state identity does not match active lane claim"))
            }
        },
        (None, Some(_)) => Err(validation("receipt claim state identity is required")),
        (Some(_), None) => Err(validation("active lane claim state identity is missing")),
        (None, None) => Ok(()),
    }
}

} // verus!
