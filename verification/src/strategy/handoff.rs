//! Next-pass handoffs: what one pass leaves to the next one of the same
//! worker on the same lane.

use vstd::prelude::*;
use vstd::utf8::encode_utf8;

use crate::digest::{blake3_hex, blake3_hex_of_str, is_digest_text, lemma_digest_text_not_blank};
use crate::error::{agrees, validation, validation_owned, Result};
use crate::json::{
    entries_view, jarray, jnum, jobject, jstr, json_number, json_string, member, quoted_items,
    render_object, render_string_array, strings_view,
};
use crate::strategy::identity::{
    claim_check, pass_next_check, ClaimToken, LaneClaim, LaneId, PassNumber, WorkerId,
};
use crate::strategy::receipt::{
    canonical_receipt_id, receipt_blockers, receipt_check, OutcomeProof, ProofReceipt,
};
use crate::strategy::worktree::{identity_json, opt_view, WorktreeIdentity};
use crate::strategy::redaction::{redact_secrets, redacted};
use crate::text::{concat2, is_blank, is_blank_str, str_eq};

verus! {

pub const LANE_HANDOFF_SCHEMA: &'static str = "driven.lane_handoff.v1";

#[derive(Debug, Clone, Copy, PartialEq, Eq, Structural)]
pub enum PassOutcome {
    Completed,
    Partial,
    Blocked,
}

#[derive(Debug, Clone, PartialEq, Eq)]
pub struct NextPassHandoff {
    pub schema: String,
    pub lane: LaneId,
    pub completed_pass: PassNumber,
    pub next_pass: PassNumber,
    pub worker_id: WorkerId,
    pub from_claim: ClaimToken,
    pub receipt_id: String,
    pub outcome: PassOutcome,
    pub summary: String,
    pub next_action: String,
    pub blockers: Vec<String>,
    pub payload_digest: Option<String>,
    pub worktree_identity: Option<WorktreeIdentity>,
}

pub open spec fn has_partial_outcome(os: Seq<OutcomeProof>) -> bool {
    exists|i: int| 0 <= i < os.len() && (#[trigger] os[i]) is Partial
}

/// How a pass ended: blocked when the receipt records a blocker, partial
/// when an outcome is partial, completed otherwise.
pub open spec fn handoff_outcome(r: ProofReceipt) -> PassOutcome {
    if receipt_blockers(r).len() > 0 {
        PassOutcome::Blocked
    } else if has_partial_outcome(r.outcomes@) {
        PassOutcome::Partial
    } else {
        PassOutcome::Completed
    }
}

proof fn lemma_blocked_outcome_gives_blocker(os: Seq<OutcomeProof>, i: int)
    requires
        0 <= i < os.len(),
        os[i] is Blocked,
    ensures
        crate::strategy::receipt::outcome_blockers(os).len() > 0,
    decreases os.len(),
{
    if i < os.len() - 1 {
        assert(os.drop_last()[i] == os[i]);
        lemma_blocked_outcome_gives_blocker(os.drop_last(), i);
    }
}

/// How a handoff reports the pass follows the receipt: blocked exactly
/// when it carries blockers; partial whenever the receipt has a partial
/// outcome and nothing blocks; completed only when nothing blocks and
/// every outcome of the receipt is verified.
pub proof fn lemma_handoff_outcome_follows_receipt(
    h: NextPassHandoff,
    c: LaneClaim,
    r: ProofReceipt,
    next_action: Seq<char>,
)
    requires
        built_handoff(h, c, r, next_action),
    ensures
        (h.outcome == PassOutcome::Blocked) <==> h.blockers@.len() > 0,
        h.blockers@.len() == 0 && (exists|i: int|
            0 <= i < r.outcomes@.len() && (#[trigger] r.outcomes@[i]) is Partial)
            ==> h.outcome == PassOutcome::Partial,
        h.outcome == PassOutcome::Completed ==> h.blockers@.len() == 0 && forall|i: int|
            0 <= i < r.outcomes@.len() ==> (#[trigger] r.outcomes@[i]) is Verified,
{
    assert(strings_view(h.blockers@).len() == h.blockers@.len());
    if h.outcome == PassOutcome::Completed {
        assert forall|i: int| 0 <= i < r.outcomes@.len() implies (#[trigger] r.outcomes@[i]) is Verified by {
            if r.outcomes@[i] is Blocked {
                lemma_blocked_outcome_gives_blocker(r.outcomes@, i);
            }
            if r.outcomes@[i] is Partial {
                assert(has_partial_outcome(r.outcomes@));
            }
        }
    }
}

/// The first rule that building a handoff from the claim and receipt breaks.
pub open spec fn handoff_build_check(c: LaneClaim, r: ProofReceipt, next_action: Seq<char>) -> Option<
    Seq<char>,
> {
    if claim_check(c) is Some {
        claim_check(c)
    } else if receipt_check(r) is Some {
        receipt_check(r)
    } else if r.redacted {
        Some("next-pass handoff requires an unredacted proof receipt"@)
    } else if r.claim.lane@ != c.lane@ || r.claim.pass@ != c.pass@ || r.claim.worker_id@
        != c.worker_id@ || r.claim.token@ != c.token@ {
        Some("receipt claim does not match lane claim"@)
    } else if is_blank(next_action) {
        Some("next-pass handoff requires a next action"@)
    } else {
        pass_next_check(c.pass@)
    }
}

/// The handoff built from the claim and receipt.
pub open spec fn built_handoff(h: NextPassHandoff, c: LaneClaim, r: ProofReceipt, next_action: Seq<
    char,
>) -> bool {
    &&& h.schema@ == LANE_HANDOFF_SCHEMA@
    &&& h.lane == c.lane
    &&& h.completed_pass == c.pass
    &&& h.next_pass@ == c.pass@ + 1
    &&& h.worker_id@ == c.worker_id@
    &&& h.from_claim@ == c.token@
    &&& h.receipt_id@ == canonical_receipt_id(r)
    &&& h.outcome == handoff_outcome(r)
    &&& h.summary@ == r.summary@
    &&& h.next_action@ == next_action
    &&& strings_view(h.blockers@) == receipt_blockers(r)
    &&& h.payload_digest is None
    &&& h.worktree_identity is None
}

/// The members of a handoff with its payload digest given separately.
pub open spec fn handoff_members_with(h: NextPassHandoff, digest: Option<Seq<char>>, pretty: bool, level: nat) -> Seq<
    (Seq<char>, Seq<char>),
> {
    seq![
        ("schema"@, jstr(h.schema@)),
        ("lane"@, jnum(h.lane@ as nat)),
        ("completed_pass"@, jnum(h.completed_pass@ as nat)),
        ("next_pass"@, jnum(h.next_pass@ as nat)),
        ("worker_id"@, jstr(h.worker_id@)),
        ("from_claim"@, jstr(h.from_claim@)),
        ("receipt_id"@, jstr(h.receipt_id@)),
        ("outcome"@, jstr(pass_outcome_name(h.outcome))),
        ("summary"@, jstr(h.summary@)),
        ("next_action"@, jstr(h.next_action@)),
        ("blockers"@, jarray(quoted_items(h.blockers@), pretty, level + 1)),
    ] + match digest {
        Some(d) => seq![("payload_digest"@, jstr(d))],
        None => Seq::empty(),
    } + match h.worktree_identity {
        Some(i) => seq![("worktree_identity"@, identity_json(i, pretty, level + 1))],
        None => Seq::empty(),
    }
}

pub open spec fn handoff_json_with(h: NextPassHandoff, digest: Option<Seq<char>>, pretty: bool, level: nat) -> Seq<
    char,
> {
    jobject(handoff_members_with(h, digest, pretty, level), pretty, level)
}

/// The handoff as JSON, as it stands.
pub open spec fn handoff_json(h: NextPassHandoff, pretty: bool, level: nat) -> Seq<char> {
    handoff_json_with(h, opt_view(h.payload_digest), pretty, level)
}

/// The digest of the handoff's compact JSON without its payload digest.
pub open spec fn handoff_payload_digest(h: NextPassHandoff) -> Seq<char> {
    blake3_hex(encode_utf8(handoff_json_with(h, None, false, 0)))
}

pub open spec fn handoff_check(h: NextPassHandoff) -> Option<Seq<char>> {
    if h.schema@ != LANE_HANDOFF_SCHEMA@ {
        Some("handoff schema must be "@ + LANE_HANDOFF_SCHEMA@)
    } else if is_blank(h.receipt_id@) {
        Some("handoff receipt id cannot be empty"@)
    } else if is_blank(h.summary@) {
        Some("handoff summary cannot be empty"@)
    } else if is_blank(h.next_action@) {
        Some("handoff next action cannot be empty"@)
    } else if h.outcome == PassOutcome::Blocked && h.blockers@.len() == 0 {
        Some("blocked handoff requires at least one blocker"@)
    } else if h.outcome == PassOutcome::Completed && h.blockers@.len() != 0 {
        Some("completed handoff cannot include blockers"@)
    } else if pass_next_check(h.completed_pass@) is Some {
        pass_next_check(h.completed_pass@)
    } else if h.next_pass@ != h.completed_pass@ + 1 {
        Some("handoff next pass must increment exactly once"@)
    } else if h.payload_digest is Some && h.payload_digest->Some_0@ != handoff_payload_digest(h) {
        Some("handoff payload digest does not match payload"@)
    } else {
        None
    }
}

pub open spec fn persisted_handoff_check(h: NextPassHandoff) -> Option<Seq<char>> {
    if h.payload_digest is None || is_blank(h.payload_digest->Some_0@) {
        Some("stored handoff payload digest is required"@)
    } else if h.worktree_identity is None {
        Some("stored handoff worktree identity is required"@)
    } else {
        handoff_check(h)
    }
}

pub open spec fn handoff_claim_check(h: NextPassHandoff, c: LaneClaim) -> Option<Seq<char>> {
    if handoff_check(h) is Some {
        handoff_check(h)
    } else if claim_check(c) is Some {
        claim_check(c)
    } else if h.lane@ != c.lane@ {
        Some("handoff lane does not match claim lane"@)
    } else if h.completed_pass@ != c.pass@ {
        Some("handoff completed pass does not match claim pass"@)
    } else if pass_next_check(c.pass@) is Some {
        pass_next_check(c.pass@)
    } else if h.next_pass@ != c.pass@ + 1 {
        Some("handoff next pass must increment exactly once"@)
    } else if h.worker_id@ != c.worker_id@ {
        Some("handoff worker does not match claim worker"@)
    } else if h.from_claim@ != c.token@ {
        Some("handoff claim token does not match claim"@)
    } else {
        None
    }
}

pub open spec fn pass_outcome_name(o: PassOutcome) -> Seq<char> {
    match o {
        PassOutcome::Completed => "completed"@,
        PassOutcome::Partial => "partial"@,
        PassOutcome::Blocked => "blocked"@,
    }
}

pub fn pass_outcome_text(o: PassOutcome) -> (r: &'static str)
    ensures
        r@ == pass_outcome_name(o),
{
    match o {
        PassOutcome::Completed => "completed",
        PassOutcome::Partial => "partial",
        PassOutcome::Blocked => "blocked",
    }
}

fn any_partial_outcome(os: &Vec<OutcomeProof>) -> (r: bool)
    ensures
        r == has_partial_outcome(os@),
{
    let mut i: usize = 0;
    while i < os.len()
        invariant
            0 <= i <= os@.len(),
            forall|k: int| 0 <= k < i ==> !((#[trigger] os@[k]) is Partial),
        decreases os@.len() - i,
    {
        if let OutcomeProof::Partial { .. } = &os[i] {
            return true;
        }
        i = i + 1;
    }
    false
}

impl LaneClaim {
    /// Builds the handoff from this claim's pass to the next one, from an
    /// unredacted receipt recorded under this very claim.
    pub fn next_pass_handoff(&self, receipt: ProofReceipt, next_action: &str) -> (r: Result<
        NextPassHandoff,
    >)
        ensures
            agrees(r, handoff_build_check(*self, receipt, next_action@)),
            r is Ok ==> built_handoff(r->Ok_0, *self, receipt, next_action@),
            r is Ok ==> is_digest_text(r->Ok_0.receipt_id@),
    {
        self.handoff_from(&receipt, next_action)
    }

    /// As `next_pass_handoff`, reading the receipt in place.
    pub(crate) fn handoff_from(&self, receipt: &ProofReceipt, next_action: &str) -> (r: Result<
        NextPassHandoff,
    >)
        ensures
            agrees(r, handoff_build_check(*self, *receipt, next_action@)),
            r is Ok ==> built_handoff(r->Ok_0, *self, *receipt, next_action@),
            r is Ok ==> is_digest_text(r->Ok_0.receipt_id@),
    {
        self.validate()?;
        receipt.validate()?;
        if receipt.redacted {
            return Err(validation("next-pass handoff requires an unredacted proof receipt"));
        }
        if !receipt.claim.lane.same(self.lane) || !receipt.claim.pass.same(self.pass)
            || !receipt.claim.worker_id.same(&self.worker_id) || !receipt.claim.token.same(
            &self.token,
        ) {
            return Err(validation("receipt claim does not match lane claim"));
        }
        if is_blank_str(next_action) {
            return Err(validation("next-pass handoff requires a next action"));
        }
        let blockers = receipt.blockers();
        let outcome = if blockers.len() > 0 {
            PassOutcome::Blocked
        } else if any_partial_outcome(&receipt.outcomes) {
            PassOutcome::Partial
        } else {
            PassOutcome::Completed
        };
        let next_pass = self.pass.next()?;
        let receipt_id = receipt.receipt_id()?;
        Ok(
            NextPassHandoff {
                schema: String::from_str(LANE_HANDOFF_SCHEMA),
                lane: self.lane,
                completed_pass: self.pass,
                next_pass,
                worker_id: self.worker_id.clone(),
                from_claim: self.token.clone(),
                receipt_id,
                outcome,
                summary: String::from_str(receipt.summary()),
                next_action: String::from_str(next_action),
                blockers,
                payload_digest: None,
                worktree_identity: None,
            },
        )
    }
}

impl NextPassHandoff {
    #[verifier::rlimit(40)]
    fn to_json_with(&self, digest: &Option<String>, pretty: bool, level: usize) -> (r: String)
        requires
            level < usize::MAX - 2,
        ensures
            r@ == handoff_json_with(*self, opt_view(*digest), pretty, level as nat),
    {
        let mut v: Vec<(String, String)> = Vec::new();
        v.push(member("schema", json_string(self.schema.as_str())));
        v.push(member("lane", json_number(self.lane.value() as u64)));
        v.push(member("completed_pass", json_number(self.completed_pass.value() as u64)));
        v.push(member("next_pass", json_number(self.next_pass.value() as u64)));
        v.push(member("worker_id", json_string(self.worker_id.as_str())));
        v.push(member("from_claim", json_string(self.from_claim.as_str())));
        v.push(member("receipt_id", json_string(self.receipt_id.as_str())));
        v.push(member("outcome", json_string(pass_outcome_text(self.outcome))));
        v.push(member("summary", json_string(self.summary.as_str())));
        v.push(member("next_action", json_string(self.next_action.as_str())));
        v.push(member("blockers", render_string_array(&self.blockers, pretty, level + 1)));
        if let Some(d) = digest {
            v.push(member("payload_digest", json_string(d.as_str())));
        }
        if let Some(i) = &self.worktree_identity {
            v.push(member("worktree_identity", i.to_json(pretty, level + 1)));
        }
        assert(entries_view(v@) =~= handoff_members_with(*self, opt_view(*digest), pretty, level as nat));
        render_object(&v, pretty, level)
    }

    /// The handoff as JSON, as it stands.
    pub fn to_json(&self, pretty: bool) -> (r: String)
        ensures
            r@ == handoff_json(*self, pretty, 0),
    {
        self.to_json_with(&self.payload_digest, pretty, 0)
    }

    /// The digest of the handoff without its payload digest.
    pub fn computed_payload_digest(&self) -> (r: String)
        ensures
            r@ == handoff_payload_digest(*self),
    {
        let json = self.to_json_with(&None, false, 0);
        blake3_hex_of_str(json.as_str())
    }

    /// Records the digest of the payload in the handoff.
    pub fn seal_payload_digest(&mut self)
        ensures
            *final(self) == (NextPassHandoff { payload_digest: final(self).payload_digest, ..*old(self) }),
            final(self).payload_digest is Some,
            final(self).payload_digest->Some_0@ == handoff_payload_digest(*old(self)),
    {
        let d = self.computed_payload_digest();
        self.payload_digest = Some(d);
    }

    pub fn validate(&self) -> (r: Result<()>)
        ensures
            agrees(r, handoff_check(*self)),
    {
        if !str_eq(self.schema.as_str(), LANE_HANDOFF_SCHEMA) {
            return Err(validation_owned(concat2("handoff schema must be ", LANE_HANDOFF_SCHEMA)));
        }
        if is_blank_str(self.receipt_id.as_str()) {
            return Err(validation("handoff receipt id cannot be empty"));
        }
        if is_blank_str(self.summary.as_str()) {
            return Err(validation("handoff summary cannot be empty"));
        }
        if is_blank_str(self.next_action.as_str()) {
            return Err(validation("handoff next action cannot be empty"));
        }
        if self.outcome == PassOutcome::Blocked && self.blockers.len() == 0 {
            return Err(validation("blocked handoff requires at least one blocker"));
        }
        if self.outcome == PassOutcome::Completed && self.blockers.len() != 0 {
            return Err(validation("completed handoff cannot include blockers"));
        }
        let expected_next = self.completed_pass.next()?;
        if !self.next_pass.same(expected_next) {
            return Err(validation("handoff next pass must increment exactly once"));
        }
        if let Some(d) = &self.payload_digest {
            let computed = self.computed_payload_digest();
            if !(*d == computed) {
                return Err(validation("handoff payload digest does not match payload"));
            }
        }
        Ok(())
    }

    /// A handoff as it must stand on disk: sealed with its payload digest and
    /// bound to a worktree identity.
    pub fn validate_persisted(&self) -> (r: Result<()>)
        ensures
            agrees(r, persisted_handoff_check(*self)),
    {
        match &self.payload_digest {
            Some(d) => {
                if is_blank_str(d.as_str()) {
                    return Err(validation("stored handoff payload digest is required"));
                }
            },
            None => {
                return Err(validation("stored handoff payload digest is required"));
            },
        }
        if self.worktree_identity.is_none() {
            return Err(validation("stored handoff worktree identity is required"));
        }
        self.validate()
    }

    /// A valid handoff that continues the given claim: same lane and worker,
    /// from its pass to the next, under its token.
    pub fn validate_against(&self, claim: &LaneClaim) -> (r: Result<()>)
        ensures
            agrees(r, handoff_claim_check(*self, *claim)),
    {
        self.validate()?;
        claim.validate()?;
        if !self.lane.same(claim.lane) {
            return Err(validation("handoff lane does not match claim lane"));
        }
        if !self.completed_pass.same(claim.pass) {
            return Err(validation("handoff completed pass does not match claim pass"));
        }
        let expected_next = claim.pass.next()?;
        if !self.next_pass.same(expected_next) {
            return Err(validation("handoff next pass must increment exactly once"));
        }
        if !self.worker_id.same(&claim.worker_id) {
            return Err(validation("handoff worker does not match claim worker"));
        }
        if !self.from_claim.same(&claim.token) {
            return Err(validation("handoff claim token does not match claim"));
        }
        Ok(())
    }
}

/// A handoff built from a claim and its receipt continues that claim,
/// whatever worktree identity it is then given: it is a valid handoff for
/// the claim's lane and worker, from the claim's pass to the next one,
/// under the claim's token.
pub proof fn lemma_built_handoff_continues_claim(
    h: NextPassHandoff,
    c: LaneClaim,
    r: ProofReceipt,
    next_action: Seq<char>,
)
    requires
        handoff_build_check(c, r, next_action) is None,
        built_handoff(NextPassHandoff { worktree_identity: None, ..h }, c, r, next_action),
        is_digest_text(h.receipt_id@),
    ensures
        handoff_check(h) is None,
        handoff_claim_check(h, c) is None,
{
    lemma_digest_text_not_blank(h.receipt_id@);
    assert(strings_view(h.blockers@).len() == h.blockers@.len());
}

/// `out` is `h` with summary, next action and blockers masked and the
/// payload digest dropped.
pub open spec fn redacted_for_persistence_of(h: NextPassHandoff, out: NextPassHandoff) -> bool {
    &&& out == (NextPassHandoff {
        summary: out.summary,
        next_action: out.next_action,
        blockers: out.blockers,
        payload_digest: None,
        ..h
    })
    &&& out.summary@ == redacted(h.summary@)
    &&& out.next_action@ == redacted(h.next_action@)
    &&& out.blockers@.len() == h.blockers@.len()
    &&& forall|k: int|
        0 <= k < h.blockers@.len() ==> (#[trigger] out.blockers@[k])@ == redacted(h.blockers@[k]@)
}

/// `out` is the form of `h` that is stored: masked, then sealed with the
/// digest of the masked payload.
pub open spec fn persisted_form_of(h: NextPassHandoff, out: NextPassHandoff) -> bool {
    exists|masked: NextPassHandoff|
        #![trigger redacted_for_persistence_of(h, masked)]
        {
            &&& redacted_for_persistence_of(h, masked)
            &&& out == (NextPassHandoff { payload_digest: out.payload_digest, ..masked })
            &&& out.payload_digest is Some
            &&& out.payload_digest->Some_0@ == handoff_payload_digest(masked)
        }
}

/// The first rule that the stored form of `h` breaks: those of `h` itself,
/// then those of the stored form.
pub open spec fn persist_check(h: NextPassHandoff, out: NextPassHandoff) -> Option<Seq<char>> {
    if handoff_check(h) is Some {
        handoff_check(h)
    } else {
        persisted_handoff_check(out)
    }
}

impl NextPassHandoff {
    /// The handoff with its free text masked and without payload digest.
    pub fn redacted_for_persistence(&self) -> (r: NextPassHandoff)
        ensures
            redacted_for_persistence_of(*self, r),
    {
        let mut blockers: Vec<String> = Vec::new();
        let mut i: usize = 0;
        while i < self.blockers.len()
            invariant
                0 <= i <= self.blockers@.len(),
                blockers@.len() == i,
                forall|k: int|
                    0 <= k < i ==> (#[trigger] blockers@[k])@ == redacted(self.blockers@[k]@),
            decreases self.blockers@.len() - i,
        {
            blockers.push(redact_secrets(self.blockers[i].as_str()));
            i = i + 1;
        }
        NextPassHandoff {
            schema: self.schema.clone(),
            lane: self.lane,
            completed_pass: self.completed_pass,
            next_pass: self.next_pass,
            worker_id: self.worker_id.clone(),
            from_claim: self.from_claim.clone(),
            receipt_id: self.receipt_id.clone(),
            outcome: self.outcome,
            summary: redact_secrets(self.summary.as_str()),
            next_action: redact_secrets(self.next_action.as_str()),
            blockers,
            payload_digest: None,
            worktree_identity: match &self.worktree_identity {
                Some(w) => Some(w.clone()),
                None => None,
            },
        }
    }

    /// The form in which a handoff is stored: the handoff must be valid; it
    /// is masked, sealed with the digest of the masked payload, and the
    /// result must be a valid stored handoff.
    pub fn persisted_form(&self) -> (r: Result<NextPassHandoff>)
        ensures
            exists|out: NextPassHandoff|
                #![trigger persisted_form_of(*self, out)]
                persisted_form_of(*self, out) && agrees(r, persist_check(*self, out)),
            r is Ok ==> persisted_form_of(*self, r->Ok_0),
    {
        let checked = self.validate();
        let mut persisted = self.redacted_for_persistence();
        let ghost masked = persisted;
        persisted.seal_payload_digest();
        proof {
            assert(persisted_form_of(*self, persisted));
        }
        match checked {
            Err(e) => Err(e),
            Ok(()) => {
                persisted.validate_persisted()?;
                Ok(persisted)
            },
        }
    }
}

} // verus!
