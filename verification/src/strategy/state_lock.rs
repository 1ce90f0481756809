//! The lock of a lane/pass state directory: what its file records, when a
//! lock left behind counts as stale, and what recovering it must check.
//! Creating, reading and removing the lock file is the caller's part.

use vstd::prelude::*;

use crate::error::{agrees, validation, validation_owned, DrivenError, Result};
use crate::json::{jnum, jobject, jstr, json_number, json_string, member, render_object, entries_view};
use crate::strategy::artifacts::{join_path, path_join};
use crate::text::{concat2, concat3, decimal, push_decimal, str_eq};

verus! {

pub const LOCK_FILE: &'static str = ".driven-lane-pass.lock";

pub const LOCK_SCHEMA: &'static str = "driven.lane_pass.lock.v1";

/// How long a lock is honoured: thirty minutes.
pub const DEFAULT_STALE_AFTER_SECONDS: u64 = 1800;

/// Where the lock of a state directory lives.
pub fn lock_path(state_dir: &str) -> (r: String)
    ensures
        r@ == path_join(state_dir@, LOCK_FILE@),
{
    join_path(state_dir, LOCK_FILE)
}

/// What a lock file records about its holder.
#[derive(Debug, PartialEq, Eq)]
pub struct LockMetadata {
    pub schema: String,
    pub lock_id: String,
    pub owner_pid: u32,
    pub acquired_unix_seconds: u64,
    pub stale_after_seconds: u64,
}

/// `<pid>-<acquired>-<sequence>`.
pub open spec fn lock_id_text(pid: u32, acquired: u64, sequence: u64) -> Seq<char> {
    decimal(pid as nat) + "-"@ + decimal(acquired as nat) + "-"@ + decimal(sequence as nat)
}

/// A lock is stale once its holder's time has run out; a deadline beyond
/// the `u64` range never comes.
pub open spec fn lock_is_stale(acquired: u64, stale_after: u64, now: u64) -> bool {
    acquired + stale_after <= u64::MAX && acquired + stale_after <= now
}

/// A lock that is stale stays stale as time goes on.
pub proof fn lemma_staleness_persists(acquired: u64, stale_after: u64, now: u64, later: u64)
    requires
        lock_is_stale(acquired, stale_after, now),
        now <= later,
    ensures
        lock_is_stale(acquired, stale_after, later),
{
}

pub open spec fn lock_members(m: LockMetadata) -> Seq<(Seq<char>, Seq<char>)> {
    seq![
        ("schema"@, jstr(m.schema@)),
        ("lock_id"@, jstr(m.lock_id@)),
        ("owner_pid"@, jnum(m.owner_pid as nat)),
        ("acquired_unix_seconds"@, jnum(m.acquired_unix_seconds as nat)),
        ("stale_after_seconds"@, jnum(m.stale_after_seconds as nat)),
    ]
}

impl LockMetadata {
    /// The record of a lock taken by process `pid` at `acquired`, the
    /// `sequence`-th lock that process takes.
    pub fn new(pid: u32, acquired_unix_seconds: u64, sequence: u64) -> (r: Self)
        ensures
            r.schema@ == LOCK_SCHEMA@,
            r.lock_id@ == lock_id_text(pid, acquired_unix_seconds, sequence),
            r.owner_pid == pid,
            r.acquired_unix_seconds == acquired_unix_seconds,
            r.stale_after_seconds == DEFAULT_STALE_AFTER_SECONDS,
    {
        let mut id = String::new();
        push_decimal(&mut id, pid as u64);
        id.append("-");
        push_decimal(&mut id, acquired_unix_seconds);
        id.append("-");
        push_decimal(&mut id, sequence);
        proof {
            reveal_strlit("-");
        }
        assert(id@ =~= lock_id_text(pid, acquired_unix_seconds, sequence));
        LockMetadata {
            schema: String::from_str(LOCK_SCHEMA),
            lock_id: id,
            owner_pid: pid,
            acquired_unix_seconds,
            stale_after_seconds: DEFAULT_STALE_AFTER_SECONDS,
        }
    }

    /// Whether the lock's time has run out at `now`.
    pub fn is_stale(&self, now: u64) -> (r: bool)
        ensures
            r == lock_is_stale(self.acquired_unix_seconds, self.stale_after_seconds, now),
    {
        match self.acquired_unix_seconds.checked_add(self.stale_after_seconds) {
            Some(expires_at) => expires_at <= now,
            None => false,
        }
    }

    /// A lock file of another schema is not honoured as a lock record.
    pub fn check_schema(&self, path: &str) -> (r: Result<()>)
        ensures
            agrees(
                r,
                if self.schema@ == LOCK_SCHEMA@ {
                    None
                } else {
                    Some(
                        "lane/pass state is locked at "@ + path@ + "; unsupported lock schema "@
                            + self.schema@,
                    )
                },
            ),
    {
        if !str_eq(self.schema.as_str(), LOCK_SCHEMA) {
            let mut msg = concat3("lane/pass state is locked at ", path, "; unsupported lock schema ");
            msg.append(self.schema.as_str());
            return Err(validation_owned(msg));
        }
        Ok(())
    }

    /// Whether the lock is still the one this holder took.
    pub fn is_held_by(&self, lock_id: &str) -> (r: bool)
        ensures
            r == (self.lock_id@ == lock_id@),
    {
        str_eq(self.lock_id.as_str(), lock_id)
    }

    /// The lock file's content: the record as pretty JSON and a line break.
    pub fn to_json(&self) -> (r: String)
        ensures
            r@ == jobject(lock_members(*self), true, 0) + "\n"@,
    {
        let mut v: Vec<(String, String)> = Vec::new();
        v.push(member("schema", json_string(self.schema.as_str())));
        v.push(member("lock_id", json_string(self.lock_id.as_str())));
        v.push(member("owner_pid", json_number(self.owner_pid as u64)));
        v.push(member("acquired_unix_seconds", json_number(self.acquired_unix_seconds)));
        v.push(member("stale_after_seconds", json_number(self.stale_after_seconds)));
        assert(entries_view(v@) =~= lock_members(*self));
        let mut out = render_object(&v, true, 0);
        out.append("\n");
        out
    }
}

pub open spec fn blocked_message(path: Seq<char>, m: LockMetadata) -> Seq<char> {
    "lane/pass state is locked at "@ + path + " by pid "@ + decimal(m.owner_pid as nat) + " since "@
        + decimal(m.acquired_unix_seconds as nat) + " (stale after "@ + decimal(
        m.stale_after_seconds as nat,
    ) + " seconds)"@
}

/// Whether a lock found held may be taken over: only once it is stale;
/// otherwise the message names its holder.
pub fn recover_held_lock(path: &str, now: u64, held: &LockMetadata) -> (r: Result<()>)
    ensures
        agrees(
            r,
            if lock_is_stale(held.acquired_unix_seconds, held.stale_after_seconds, now) {
                None
            } else {
                Some(blocked_message(path@, *held))
            },
        ),
{
    if held.is_stale(now) {
        return Ok(());
    }
    let mut msg = concat3("lane/pass state is locked at ", path, " by pid ");
    push_decimal(&mut msg, held.owner_pid as u64);
    msg.append(" since ");
    push_decimal(&mut msg, held.acquired_unix_seconds);
    msg.append(" (stale after ");
    push_decimal(&mut msg, held.stale_after_seconds);
    msg.append(" seconds)");
    assert(msg@ =~= blocked_message(path@, *held));
    Err(validation_owned(msg))
}

pub open spec fn unreadable_message(error: DrivenError, modified: u64) -> Seq<char> {
    error.kind_label() + error.text() + "; lock file modified at "@ + decimal(modified as nat)
        + " and will be treated as stale after "@ + decimal(DEFAULT_STALE_AFTER_SECONDS as nat)
        + " seconds"@
}

/// Whether a lock whose record cannot be read may be taken over: once the
/// file is older than the default lifetime of a lock; otherwise the message
/// gives the reading error and the file's age.
pub fn recover_unreadable_lock(error: &DrivenError, modified: u64, now: u64) -> (r: Result<()>)
    ensures
        agrees(
            r,
            if lock_is_stale(modified, DEFAULT_STALE_AFTER_SECONDS, now) {
                None
            } else {
                Some(unreadable_message(*error, modified))
            },
        ),
{
    match modified.checked_add(DEFAULT_STALE_AFTER_SECONDS) {
        Some(expires_at) => {
            if expires_at <= now {
                return Ok(());
            }
        },
        None => {},
    }
    let mut msg = error.to_string();
    msg.append("; lock file modified at ");
    push_decimal(&mut msg, modified);
    msg.append(" and will be treated as stale after ");
    push_decimal(&mut msg, DEFAULT_STALE_AFTER_SECONDS);
    msg.append(" seconds");
    assert(msg@ =~= unreadable_message(*error, modified));
    Err(validation_owned(msg))
}

/// A stale lock is removed only while it is still the one that was found
/// stale: same id, holder and time.
pub fn check_lock_unchanged(path: &str, observed: &LockMetadata, current: &LockMetadata) -> (r: Result<
    (),
>)
    ensures
        agrees(
            r,
            if current.lock_id@ == observed.lock_id@ && current.owner_pid == observed.owner_pid
                && current.acquired_unix_seconds == observed.acquired_unix_seconds {
                None
            } else {
                Some("lane/pass lock at "@ + path@ + " was replaced during stale recovery"@)
            },
        ),
{
    if !str_eq(current.lock_id.as_str(), observed.lock_id.as_str()) || current.owner_pid
        != observed.owner_pid || current.acquired_unix_seconds != observed.acquired_unix_seconds {
        return Err(validation_owned(concat3("lane/pass lock at ", path, " was replaced during stale recovery")));
    }
    Ok(())
}

/// An unreadable stale lock is removed only while its file is unchanged.
pub fn check_lock_file_unchanged(path: &str, observed_modified: u64, current_modified: u64) -> (r:
    Result<()>)
    ensures
        agrees(
            r,
            if current_modified == observed_modified {
                None
            } else {
                Some("lane/pass lock at "@ + path@ + " changed during stale recovery"@)
            },
        ),
{
    if current_modified != observed_modified {
        return Err(validation_owned(concat3("lane/pass lock at ", path, " changed during stale recovery")));
    }
    Ok(())
}

} // verus!
