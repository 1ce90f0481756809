//! Where DX keeps its serializer status files, and the `key=value` text
//! they are written in.

use vstd::prelude::*;

use crate::json::strings_view;
use crate::strategy::artifacts::{join_path, parent_path, path_join, path_parent};
use crate::text::{concat2, push_char};

verus! {

/// The directories of a DX workspace that the lane/pass commands use.
#[derive(Debug)]
pub struct DrivenDxConfig {
    pub workspace_root: String,
    pub cache_dir: String,
    pub sr_dir: String,
    pub receipts_dir: String,
}

/// An ASCII white-space character, as `char::is_ascii_whitespace` says:
/// space, tab, line feed, form feed and carriage return.
pub open spec fn is_ascii_white(c: char) -> bool {
    c == ' ' || c == '\t' || c == '\n' || c == '\x0C' || c == '\r'
}

/// A character that forces a value to be quoted.
pub open spec fn forces_quotes(c: char) -> bool {
    is_ascii_white(c) || c == '"' || c == '[' || c == ']' || c == '=' || c == '#'
}

/// The characters of a quoted value: `"` and `\` escaped with `\`.
pub open spec fn escaped_value(s: Seq<char>) -> Seq<char>
    decreases s.len(),
{
    if s.len() == 0 {
        Seq::empty()
    } else {
        escaped_value(s.drop_last()) + if s.last() == '"' || s.last() == '\\' {
            seq!['\\', s.last()]
        } else {
            seq![s.last()]
        }
    }
}

/// A value as the DX LLM `key=value` format writes it: `""` when empty,
/// in quotes with `"` and `\` escaped when it holds a character that forces
/// quotes, and as it is otherwise.
pub open spec fn llm_value(s: Seq<char>) -> Seq<char> {
    if s.len() == 0 {
        seq!['"', '"']
    } else if exists|i: int| 0 <= i < s.len() && forces_quotes(#[trigger] s[i]) {
        seq!['"'] + escaped_value(s) + seq!['"']
    } else {
        s
    }
}

/// `key=value` lines, one per entry, each ending with a line break.
pub open spec fn sr_lines(entries: Seq<(Seq<char>, Seq<char>)>) -> Seq<char>
    decreases entries.len(),
{
    if entries.len() == 0 {
        Seq::empty()
    } else {
        sr_lines(entries.drop_last()) + entries.last().0 + seq!['='] + llm_value(entries.last().1)
            + seq!['\n']
    }
}

fn forces(c: char) -> (r: bool)
    ensures
        r == forces_quotes(c),
{
    c == ' ' || c == '\t' || c == '\n' || c == '\x0C' || c == '\r' || c == '"' || c == '[' || c
        == ']' || c == '=' || c == '#'
}

/// Appends a value in the DX LLM format.
pub fn push_llm_value(out: &mut String, value: &str)
    ensures
        final(out)@ == old(out)@ + llm_value(value@),
{
    let n = value.unicode_len();
    if n == 0 {
        push_char(out, '"');
        push_char(out, '"');
        assert(final(out)@ =~= old(out)@ + llm_value(value@));
        return;
    }
    let mut quote = false;
    let mut i: usize = 0;
    while i < n
        invariant
            n == value@.len(),
            0 <= i <= n,
            !quote ==> forall|k: int| 0 <= k < i ==> !forces_quotes(#[trigger] value@[k]),
            quote ==> exists|k: int| 0 <= k < n && forces_quotes(#[trigger] value@[k]),
        decreases n - i,
    {
        if forces(value.get_char(i)) {
            quote = true;
        }
        i = i + 1;
    }
    if !quote {
        out.append(value);
        return;
    }
    let ghost start = out@;
    push_char(out, '"');
    let mut j: usize = 0;
    while j < n
        invariant
            n == value@.len(),
            0 <= j <= n,
            out@ == start + seq!['"'] + escaped_value(value@.subrange(0, j as int)),
        decreases n - j,
    {
        let c = value.get_char(j);
        assert(value@.subrange(0, j + 1).drop_last() =~= value@.subrange(0, j as int));
        if c == '"' || c == '\\' {
            push_char(out, '\\');
        }
        push_char(out, c);
        assert(out@ =~= start + seq!['"'] + escaped_value(value@.subrange(0, j + 1)));
        j = j + 1;
    }
    assert(value@.subrange(0, n as int) =~= value@);
    push_char(out, '"');
}

/// The content of a `.sr` file for the entries, in order.
pub fn sr_content(entries: &Vec<(String, String)>) -> (r: String)
    ensures
        r@ == sr_lines(crate::json::entries_view(entries@)),
{
    let mut out = String::new();
    let mut i: usize = 0;
    while i < entries.len()
        invariant
            0 <= i <= entries@.len(),
            out@ == sr_lines(crate::json::entries_view(entries@.subrange(0, i as int))),
        decreases entries@.len() - i,
    {
        let ghost before = out@;
        let ghost prefix = crate::json::entries_view(entries@.subrange(0, i + 1));
        assert(prefix.drop_last() =~= crate::json::entries_view(entries@.subrange(0, i as int)));
        out.append(entries[i].0.as_str());
        push_char(&mut out, '=');
        push_llm_value(&mut out, entries[i].1.as_str());
        push_char(&mut out, '\n');
        assert(out@ =~= sr_lines(prefix));
        i = i + 1;
    }
    assert(entries@.subrange(0, entries@.len() as int) =~= entries@);
    out
}

/// Where the serializer status files of a workspace live: beside the
/// cache directory, or under `.dx` of the workspace when the cache
/// directory has no parent.
pub open spec fn serializer_dir(workspace_root: Seq<char>, cache_dir: Seq<char>) -> Seq<char> {
    match path_parent(cache_dir) {
        Some(parent) => path_join(parent, "serializer"@),
        None => path_join(path_join(workspace_root, ".dx"@), "serializer"@),
    }
}

/// Where the lane/pass receipts of a workspace live.
pub open spec fn receipts_dir_of(workspace_root: Seq<char>) -> Seq<char> {
    path_join(path_join(path_join(workspace_root, ".dx"@), "receipts"@), "driven"@)
}

impl DrivenDxConfig {
    /// The directories for a workspace root and the cache directory that
    /// its DX configuration names.
    pub fn from_roots(workspace_root: &str, cache_dir: &str) -> (r: Self)
        ensures
            r.workspace_root@ == workspace_root@,
            r.cache_dir@ == cache_dir@,
            r.sr_dir@ == serializer_dir(workspace_root@, cache_dir@),
            r.receipts_dir@ == receipts_dir_of(workspace_root@),
    {
        let dx = join_path(workspace_root, ".dx");
        let sr_dir = match parent_path(cache_dir) {
            Some(parent) => join_path(parent.as_str(), "serializer"),
            None => join_path(dx.as_str(), "serializer"),
        };
        let receipts = join_path(dx.as_str(), "receipts");
        let receipts_dir = join_path(receipts.as_str(), "driven");
        DrivenDxConfig {
            workspace_root: String::from_str(workspace_root),
            cache_dir: String::from_str(cache_dir),
            sr_dir,
            receipts_dir,
        }
    }

    /// The `.sr` status file of `name`.
    pub fn sr_path(&self, name: &str) -> (r: String)
        ensures
            r@ == path_join(self.sr_dir@, name@ + ".sr"@),
    {
        let file = concat2(name, ".sr");
        join_path(self.sr_dir.as_str(), file.as_str())
    }

    /// The machine-readable status file of `name`.
    pub fn machine_path(&self, name: &str) -> (r: String)
        ensures
            r@ == path_join(self.sr_dir@, name@ + ".machine"@),
    {
        let file = concat2(name, ".machine");
        join_path(self.sr_dir.as_str(), file.as_str())
    }
}

} // verus!
