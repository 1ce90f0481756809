//! Evidence that a command was actually run: where, what it printed (as
//! digests and sizes) and when.

use vstd::prelude::*;

use crate::digest::{blake3_hex, blake3_hex_digest};
use crate::error::{agrees, validation, validation_owned, Result};
use crate::json::{
    entries_view, jbool, jnum, jobject, jstr, json_bool, json_number, json_string, member,
    render_object,
};
use crate::text::{concat2, is_blank, is_blank_str, push_char, str_eq};

verus! {

pub const COMMAND_EVIDENCE_CAPTURED_BY: &'static str = "driven.strategy.command_evidence.v1";

/// Backslashes written as forward slashes.
pub open spec fn forward_slashes(s: Seq<char>) -> Seq<char> {
    s.map_values(|c: char| if c == '\\' { '/' } else { c })
}

/// A path with its backslashes written as forward slashes.
pub fn normalize_slashes(s: &str) -> (r: String)
    ensures
        r@ == forward_slashes(s@),
{
    let n = s.unicode_len();
    let mut out = String::new();
    let mut i: usize = 0;
    while i < n
        invariant
            n == s@.len(),
            0 <= i <= n,
            out@ =~= forward_slashes(s@.subrange(0, i as int)),
        decreases n - i,
    {
        let c = s.get_char(i);
        if c == '\\' {
            push_char(&mut out, '/');
        } else {
            push_char(&mut out, c);
        }
        assert(s@.subrange(0, i + 1) =~= s@.subrange(0, i as int).push(c));
        i = i + 1;
    }
    assert(s@.subrange(0, n as int) =~= s@);
    out
}

#[derive(Debug, PartialEq, Eq)]
pub struct CommandEvidence {
    pub cwd: String,
    pub stdout_digest: String,
    pub stderr_digest: String,
    pub stdout_bytes: u64,
    pub stderr_bytes: u64,
    pub stdout_truncated: bool,
    pub stderr_truncated: bool,
    pub output_limit_bytes: Option<u64>,
    pub duration_ms: Option<u64>,
    pub started_unix_seconds: u64,
    pub finished_unix_seconds: u64,
    pub captured_by: String,
}

impl Clone for CommandEvidence {
    fn clone(&self) -> (r: Self)
        ensures
            r == *self,
    {
        CommandEvidence {
            cwd: self.cwd.clone(),
            stdout_digest: self.stdout_digest.clone(),
            stderr_digest: self.stderr_digest.clone(),
            stdout_bytes: self.stdout_bytes,
            stderr_bytes: self.stderr_bytes,
            stdout_truncated: self.stdout_truncated,
            stderr_truncated: self.stderr_truncated,
            output_limit_bytes: self.output_limit_bytes,
            duration_ms: self.duration_ms,
            started_unix_seconds: self.started_unix_seconds,
            finished_unix_seconds: self.finished_unix_seconds,
            captured_by: self.captured_by.clone(),
        }
    }
}

/// The first evidence rule broken by values with these parts.
pub open spec fn evidence_rule(
    cwd: Seq<char>,
    started: u64,
    finished: u64,
    captured_by: Seq<char>,
    truncated: bool,
    has_limit: bool,
) -> Option<Seq<char>> {
    if is_blank(cwd) {
        Some("command evidence cwd cannot be empty"@)
    } else if finished < started {
        Some("command evidence finish time cannot precede start time"@)
    } else if captured_by != COMMAND_EVIDENCE_CAPTURED_BY@ {
        Some("command evidence captured_by must be "@ + COMMAND_EVIDENCE_CAPTURED_BY@)
    } else if truncated && !has_limit {
        Some("truncated command evidence requires an output limit"@)
    } else {
        None
    }
}

pub open spec fn evidence_check(e: CommandEvidence) -> Option<Seq<char>> {
    evidence_rule(
        e.cwd@,
        e.started_unix_seconds,
        e.finished_unix_seconds,
        e.captured_by@,
        e.stdout_truncated || e.stderr_truncated,
        e.output_limit_bytes is Some,
    )
}

/// Evidence of streams held in full: their digests and sizes.
pub open spec fn evidence_from_streams(
    e: CommandEvidence,
    cwd: Seq<char>,
    stdout: Seq<u8>,
    stderr: Seq<u8>,
    started: u64,
    finished: u64,
) -> bool {
    &&& e.cwd@ == forward_slashes(cwd)
    &&& e.stdout_digest@ == blake3_hex(stdout)
    &&& e.stderr_digest@ == blake3_hex(stderr)
    &&& e.stdout_bytes == stdout.len()
    &&& e.stderr_bytes == stderr.len()
    &&& !e.stdout_truncated
    &&& !e.stderr_truncated
    &&& e.output_limit_bytes is None
    &&& e.duration_ms is None
    &&& e.started_unix_seconds == started
    &&& e.finished_unix_seconds == finished
    &&& e.captured_by@ == COMMAND_EVIDENCE_CAPTURED_BY@
}

impl CommandEvidence {
    /// Evidence of output streams held in full.
    pub fn from_streams(
        cwd: &str,
        stdout: &[u8],
        stderr: &[u8],
        started_unix_seconds: u64,
        finished_unix_seconds: u64,
    ) -> (r: Result<Self>)
        ensures
            agrees(
                r,
                evidence_rule(
                    forward_slashes(cwd@),
                    started_unix_seconds,
                    finished_unix_seconds,
                    COMMAND_EVIDENCE_CAPTURED_BY@,
                    false,
                    false,
                ),
            ),
            r is Ok ==> evidence_from_streams(
                r->Ok_0,
                cwd@,
                stdout@,
                stderr@,
                started_unix_seconds,
                finished_unix_seconds,
            ),
    {
        let evidence = CommandEvidence {
            cwd: normalize_slashes(cwd),
            stdout_digest: blake3_hex_digest(stdout),
            stderr_digest: blake3_hex_digest(stderr),
            stdout_bytes: stdout.len() as u64,
            stderr_bytes: stderr.len() as u64,
            stdout_truncated: false,
            stderr_truncated: false,
            output_limit_bytes: None,
            duration_ms: None,
            started_unix_seconds,
            finished_unix_seconds,
            captured_by: String::from_str(COMMAND_EVIDENCE_CAPTURED_BY),
        };
        evidence.validate()?;
        Ok(evidence)
    }

    /// Evidence of streams that were digested while they were read, with
    /// the output limit and duration of the run.
    pub fn from_captured_streams(
        cwd: &str,
        stdout_digest: &str,
        stderr_digest: &str,
        stdout_bytes: u64,
        stderr_bytes: u64,
        stdout_truncated: bool,
        stderr_truncated: bool,
        output_limit_bytes: u64,
        duration_ms: u64,
        started_unix_seconds: u64,
        finished_unix_seconds: u64,
    ) -> (r: Result<Self>)
        ensures
            agrees(
                r,
                evidence_rule(
                    forward_slashes(cwd@),
                    started_unix_seconds,
                    finished_unix_seconds,
                    COMMAND_EVIDENCE_CAPTURED_BY@,
                    stdout_truncated || stderr_truncated,
                    true,
                ),
            ),
            r is Ok ==> ({
                let e = r->Ok_0;
                &&& e.cwd@ == forward_slashes(cwd@)
                &&& e.stdout_digest@ == stdout_digest@
                &&& e.stderr_digest@ == stderr_digest@
                &&& e.stdout_bytes == stdout_bytes
                &&& e.stderr_bytes == stderr_bytes
                &&& e.stdout_truncated == stdout_truncated
                &&& e.stderr_truncated == stderr_truncated
                &&& e.output_limit_bytes == Some(output_limit_bytes)
                &&& e.duration_ms == Some(duration_ms)
                &&& e.started_unix_seconds == started_unix_seconds
                &&& e.finished_unix_seconds == finished_unix_seconds
                &&& e.captured_by@ == COMMAND_EVIDENCE_CAPTURED_BY@
            }),
    {
        let evidence = CommandEvidence {
            cwd: normalize_slashes(cwd),
            stdout_digest: String::from_str(stdout_digest),
            stderr_digest: String::from_str(stderr_digest),
            stdout_bytes,
            stderr_bytes,
            stdout_truncated,
            stderr_truncated,
            output_limit_bytes: Some(output_limit_bytes),
            duration_ms: Some(duration_ms),
            started_unix_seconds,
            finished_unix_seconds,
            captured_by: String::from_str(COMMAND_EVIDENCE_CAPTURED_BY),
        };
        evidence.validate()?;
        Ok(evidence)
    }

    pub fn validate(&self) -> (r: Result<()>)
        ensures
            agrees(r, evidence_check(*self)),
    {
        if is_blank_str(self.cwd.as_str()) {
            return Err(validation("command evidence cwd cannot be empty"));
        }
        if self.finished_unix_seconds < self.started_unix_seconds {
            return Err(validation("command evidence finish time cannot precede start time"));
        }
        if !str_eq(self.captured_by.as_str(), COMMAND_EVIDENCE_CAPTURED_BY) {
            return Err(
                validation_owned(
                    concat2("command evidence captured_by must be ", COMMAND_EVIDENCE_CAPTURED_BY),
                ),
            );
        }
        if (self.stdout_truncated || self.stderr_truncated) && self.output_limit_bytes.is_none() {
            return Err(validation("truncated command evidence requires an output limit"));
        }
        Ok(())
    }
}

// ---------------------------------------------------------------------------
// JSON
// ---------------------------------------------------------------------------

pub open spec fn opt_number_member(key: Seq<char>, v: Option<u64>) -> Seq<(Seq<char>, Seq<char>)> {
    match v {
        Some(n) => seq![(key, jnum(n as nat))],
        None => Seq::empty(),
    }
}

/// The members of evidence; a missing output limit or duration is left out.
pub open spec fn evidence_members(e: CommandEvidence) -> Seq<(Seq<char>, Seq<char>)> {
    seq![
        ("cwd"@, jstr(e.cwd@)),
        ("stdout_digest"@, jstr(e.stdout_digest@)),
        ("stderr_digest"@, jstr(e.stderr_digest@)),
        ("stdout_bytes"@, jnum(e.stdout_bytes as nat)),
        ("stderr_bytes"@, jnum(e.stderr_bytes as nat)),
        ("stdout_truncated"@, jbool(e.stdout_truncated)),
        ("stderr_truncated"@, jbool(e.stderr_truncated)),
    ] + opt_number_member("output_limit_bytes"@, e.output_limit_bytes) + opt_number_member(
        "duration_ms"@,
        e.duration_ms,
    ) + seq![
        ("started_unix_seconds"@, jnum(e.started_unix_seconds as nat)),
        ("finished_unix_seconds"@, jnum(e.finished_unix_seconds as nat)),
        ("captured_by"@, jstr(e.captured_by@)),
    ]
}

impl CommandEvidence {
    pub fn to_json(&self, pretty: bool, level: usize) -> (r: String)
        requires
            level < usize::MAX,
        ensures
            r@ == jobject(evidence_members(*self), pretty, level as nat),
    {
        let mut v: Vec<(String, String)> = Vec::new();
        v.push(member("cwd", json_string(self.cwd.as_str())));
        v.push(member("stdout_digest", json_string(self.stdout_digest.as_str())));
        v.push(member("stderr_digest", json_string(self.stderr_digest.as_str())));
        v.push(member("stdout_bytes", json_number(self.stdout_bytes)));
        v.push(member("stderr_bytes", json_number(self.stderr_bytes)));
        v.push(member("stdout_truncated", json_bool(self.stdout_truncated)));
        v.push(member("stderr_truncated", json_bool(self.stderr_truncated)));
        if let Some(limit) = self.output_limit_bytes {
            v.push(member("output_limit_bytes", json_number(limit)));
        }
        if let Some(d) = self.duration_ms {
            v.push(member("duration_ms", json_number(d)));
        }
        v.push(member("started_unix_seconds", json_number(self.started_unix_seconds)));
        v.push(member("finished_unix_seconds", json_number(self.finished_unix_seconds)));
        v.push(member("captured_by", json_string(self.captured_by.as_str())));
        assert(entries_view(v@) =~= evidence_members(*self));
        render_object(&v, pretty, level)
    }
}

} // verus!
