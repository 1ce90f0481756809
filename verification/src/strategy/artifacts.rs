//! Paths of the lane/pass state: the state directory, the receipt and
//! handoff artifacts inside it, read with the rules of `std::path` on Unix.

use vstd::prelude::*;

use crate::error::{agrees, validation, validation_owned, Result};
use crate::json::strings_view;
use crate::text::{concat2, push_char, str_eq, trim, trim_str};

verus! {

// ---------------------------------------------------------------------------
// Components
// ---------------------------------------------------------------------------

/// A `..` component starts at `i`.
pub open spec fn is_parent_at(p: Seq<char>, i: int) -> bool {
    &&& 0 <= i
    &&& i + 2 <= p.len()
    &&& p[i] == '.'
    &&& p[i + 1] == '.'
    &&& (i == 0 || p[i - 1] == '/')
    &&& (i + 2 == p.len() || p[i + 2] == '/')
}

/// Some component of `p` is `..`.
pub open spec fn has_parent_traversal(p: Seq<char>) -> bool {
    exists|i: int| #[trigger] is_parent_at(p, i)
}

/// Whether some component of `p` is `..`.
pub fn parent_traversal(p: &str) -> (r: bool)
    ensures
        r == has_parent_traversal(p@),
{
    let n = p.unicode_len();
    let mut i: usize = 0;
    while n >= 2 && i <= n - 2
        invariant
            n == p@.len(),
            0 <= i,
            i <= n,
            forall|k: int| 0 <= k < i ==> !is_parent_at(p@, k),
        decreases n - i,
    {
        if p.get_char(i) == '.' && p.get_char(i + 1) == '.' && (i == 0 || p.get_char(i - 1) == '/')
            && (i + 2 == n || p.get_char(i + 2) == '/') {
            assert(is_parent_at(p@, i as int));
            return true;
        }
        i = i + 1;
    }
    assert forall|k: int| !is_parent_at(p@, k) by {
        if 0 <= k < i {
        }
    }
    false
}

/// A segment that `Path::components` reports: not empty and not `.`.
pub open spec fn kept_segment(s: Seq<char>) -> bool {
    s.len() > 0 && s != seq!['.']
}

/// After reading `p`: the components completed so far, and the segment
/// being read.
pub open spec fn split_state(p: Seq<char>) -> (Seq<Seq<char>>, Seq<char>)
    decreases p.len(),
{
    if p.len() == 0 {
        (Seq::empty(), Seq::empty())
    } else {
        let st = split_state(p.drop_last());
        if p.last() == '/' {
            (if kept_segment(st.1) { st.0.push(st.1) } else { st.0 }, Seq::empty())
        } else {
            (st.0, st.1.push(p.last()))
        }
    }
}

/// The components after the root or the leading `.`.
pub open spec fn body_components(p: Seq<char>) -> Seq<Seq<char>> {
    let st = split_state(p);
    if kept_segment(st.1) {
        st.0.push(st.1)
    } else {
        st.0
    }
}

/// The root, written `/`, or a leading `.` component.
pub open spec fn leading_component(p: Seq<char>) -> Seq<Seq<char>> {
    if p.len() > 0 && p[0] == '/' {
        seq![seq!['/']]
    } else if p.len() > 0 && p[0] == '.' && (p.len() == 1 || p[1] == '/') {
        seq![seq!['.']]
    } else {
        Seq::empty()
    }
}

/// The components of `p` as `Path::components` yields them: the root as
/// `/`, a leading `.` as `.`, then each segment between separators that is
/// neither empty nor `.`, `..` included.
pub open spec fn path_components(p: Seq<char>) -> Seq<Seq<char>> {
    leading_component(p) + body_components(p)
}

/// `Path::starts_with`: the components of `base` begin those of `path`.
pub open spec fn path_starts_with(path: Seq<char>, base: Seq<char>) -> bool {
    let pc = path_components(path);
    let bc = path_components(base);
    bc.len() <= pc.len() && pc.subrange(0, bc.len() as int) == bc
}

/// `Path` equality: the same components.
pub open spec fn same_path(a: Seq<char>, b: Seq<char>) -> bool {
    path_components(a) == path_components(b)
}

fn kept(s: &String) -> (r: bool)
    ensures
        r == kept_segment(s@),
{
    let n = s.unicode_len();
    if n == 0 {
        false
    } else if n == 1 && s.as_str().get_char(0) == '.' {
        assert(s@ =~= seq!['.']);
        false
    } else {
        proof {
            if n == 1 {
                assert(s@[0] != seq!['.'][0]);
            }
        }
        true
    }
}

proof fn lemma_strings_view_push(v: Seq<String>, s: String)
    ensures
        strings_view(v.push(s)) == strings_view(v).push(s@),
{
    assert(strings_view(v.push(s)) =~= strings_view(v).push(s@));
}

/// The components of `p`, as `Path::components` yields them.
pub fn components(p: &str) -> (r: Vec<String>)
    ensures
        strings_view(r@) == path_components(p@),
{
    let n = p.unicode_len();
    let mut done: Vec<String> = Vec::new();
    if n > 0 && p.get_char(0) == '/' {
        done.push(String::from_str("/"));
        proof {
            reveal_strlit("/");
            assert("/"@ =~= seq!['/']);
            assert(strings_view(done@) =~= seq![seq!['/']]);
        }
    } else if n > 0 && p.get_char(0) == '.' && (n == 1 || p.get_char(1) == '/') {
        done.push(String::from_str("."));
        proof {
            reveal_strlit(".");
            assert("."@ =~= seq!['.']);
            assert(strings_view(done@) =~= seq![seq!['.']]);
        }
    }
    assert(strings_view(done@) =~= leading_component(p@));
    let ghost lead = strings_view(done@);
    let mut cur = String::new();
    let mut i: usize = 0;
    while i < n
        invariant
            n == p@.len(),
            0 <= i <= n,
            lead == leading_component(p@),
            strings_view(done@) == lead + split_state(p@.subrange(0, i as int)).0,
            cur@ == split_state(p@.subrange(0, i as int)).1,
        decreases n - i,
    {
        let c = p.get_char(i);
        let ghost before = p@.subrange(0, i as int);
        assert(p@.subrange(0, i + 1).drop_last() =~= before);
        assert(p@.subrange(0, i + 1).last() == c);
        if c == '/' {
            if kept(&cur) {
                proof {
                    lemma_strings_view_push(done@, cur);
                }
                done.push(cur);
                assert(strings_view(done@) =~= lead + split_state(p@.subrange(0, i + 1)).0);
            }
            cur = String::new();
        } else {
            push_char(&mut cur, c);
        }
        i = i + 1;
    }
    assert(p@.subrange(0, n as int) =~= p@);
    if kept(&cur) {
        proof {
            lemma_strings_view_push(done@, cur);
        }
        done.push(cur);
    }
    assert(strings_view(done@) =~= path_components(p@));
    done
}

pub fn same_strings(a: &Vec<String>, b: &Vec<String>, len: usize) -> (r: bool)
    requires
        len <= a@.len(),
        len <= b@.len(),
    ensures
        r == (strings_view(a@).subrange(0, len as int) == strings_view(b@).subrange(0, len as int)),
{
    let mut i: usize = 0;
    while i < len
        invariant
            len <= a@.len(),
            len <= b@.len(),
            0 <= i <= len,
            forall|k: int| 0 <= k < i ==> (#[trigger] a@[k])@ == b@[k]@,
        decreases len - i,
    {
        if !str_eq(a[i].as_str(), b[i].as_str()) {
            assert(strings_view(a@).subrange(0, len as int)[i as int] == a@[i as int]@);
            assert(strings_view(b@).subrange(0, len as int)[i as int] == b@[i as int]@);
            return false;
        }
        i = i + 1;
    }
    assert(strings_view(a@).subrange(0, len as int) =~= strings_view(b@).subrange(0, len as int));
    true
}

/// Equality of two lists of strings by their text.
pub fn same_string_lists(a: &Vec<String>, b: &Vec<String>) -> (r: bool)
    ensures
        r == (strings_view(a@) == strings_view(b@)),
{
    if a.len() != b.len() {
        assert(strings_view(a@).len() != strings_view(b@).len());
        return false;
    }
    assert(strings_view(a@).subrange(0, a@.len() as int) =~= strings_view(a@));
    assert(strings_view(b@).subrange(0, b@.len() as int) =~= strings_view(b@));
    same_strings(a, b, a.len())
}

/// `Path::starts_with`.
pub fn starts_with_path(path: &str, base: &str) -> (r: bool)
    ensures
        r == path_starts_with(path@, base@),
{
    let pc = components(path);
    let bc = components(base);
    if bc.len() > pc.len() {
        return false;
    }
    assert(strings_view(bc@).subrange(0, bc@.len() as int) =~= strings_view(bc@));
    same_strings(&pc, &bc, bc.len())
}

/// `Path` equality.
pub fn paths_equal(a: &str, b: &str) -> (r: bool)
    ensures
        r == same_path(a@, b@),
{
    let ac = components(a);
    let bc = components(b);
    if ac.len() != bc.len() {
        return false;
    }
    assert(strings_view(ac@).subrange(0, ac@.len() as int) =~= strings_view(ac@));
    assert(strings_view(bc@).subrange(0, bc@.len() as int) =~= strings_view(bc@));
    same_strings(&ac, &bc, ac.len())
}

// ---------------------------------------------------------------------------
// Joining and parents
// ---------------------------------------------------------------------------

/// `PathBuf::push` of `part` onto `base`: an absolute part replaces the
/// base; otherwise a separator is put between them where the base is not
/// empty and does not already end with one.
pub open spec fn path_join(base: Seq<char>, part: Seq<char>) -> Seq<char> {
    if part.len() > 0 && part[0] == '/' {
        part
    } else if base.len() > 0 && base.last() != '/' {
        base + seq!['/'] + part
    } else {
        base + part
    }
}

/// `Path::join`.
pub fn join_path(base: &str, part: &str) -> (r: String)
    ensures
        r@ == path_join(base@, part@),
{
    let n = base.unicode_len();
    if part.unicode_len() > 0 && part.get_char(0) == '/' {
        return String::from_str(part);
    }
    let mut out = String::from_str(base);
    if n > 0 && base.get_char(n - 1) != '/' {
        push_char(&mut out, '/');
    }
    out.append(part);
    out
}

/// `Path::is_absolute` on Unix: the path has a root.
pub open spec fn is_absolute(p: Seq<char>) -> bool {
    p.len() > 0 && p[0] == '/'
}

pub fn absolute(p: &str) -> (r: bool)
    ensures
        r == is_absolute(p@),
{
    p.unicode_len() > 0 && p.get_char(0) == '/'
}

/// Drops trailing separators and trailing `.` components.
pub open spec fn trim_trailing(b: Seq<char>) -> Seq<char>
    decreases b.len(),
{
    if b.len() == 0 {
        b
    } else if b.last() == '/' {
        trim_trailing(b.drop_last())
    } else if b.last() == '.' && (b.len() == 1 || b[b.len() - 2] == '/') {
        trim_trailing(b.drop_last())
    } else {
        b
    }
}

/// Drops the last segment and the one separator before it.
pub open spec fn drop_last_segment(b: Seq<char>) -> Seq<char>
    decreases b.len(),
{
    if b.len() == 0 {
        b
    } else if b.last() == '/' {
        b.drop_last()
    } else {
        drop_last_segment(b.drop_last())
    }
}

/// `Path::parent` of an absolute path: `None` for the root alone, otherwise
/// the root followed by what remains of the body once its trailing
/// separators and `.` components, its last component, and the separators
/// and `.` components left before it are dropped.
pub open spec fn absolute_parent(p: Seq<char>) -> Option<Seq<char>> {
    let t = trim_trailing(p.drop_first());
    if t.len() == 0 {
        None
    } else {
        Some(seq!['/'] + trim_trailing(drop_last_segment(t)))
    }
}

fn trimmed_end(p: &str, lo: usize, hi: usize) -> (r: usize)
    requires
        lo <= hi <= p@.len(),
    ensures
        lo <= r <= hi,
        p@.subrange(lo as int, r as int) == trim_trailing(p@.subrange(lo as int, hi as int)),
    decreases hi - lo,
{
    if hi == lo {
        return lo;
    }
    let c = p.get_char(hi - 1);
    let ghost s = p@.subrange(lo as int, hi as int);
    assert(s.drop_last() =~= p@.subrange(lo as int, hi - 1));
    assert(s.last() == c);
    if c == '/' || (c == '.' && (hi - 1 == lo || p.get_char(hi - 2) == '/')) {
        proof {
            if c == '.' && hi - 1 > lo {
                assert(s[s.len() - 2] == p@[hi - 2]);
            }
        }
        trimmed_end(p, lo, hi - 1)
    } else {
        proof {
            if hi - 1 > lo {
                assert(s[s.len() - 2] == p@[hi - 2]);
            }
        }
        hi
    }
}

fn segment_cut(p: &str, lo: usize, hi: usize) -> (r: usize)
    requires
        lo <= hi <= p@.len(),
    ensures
        lo <= r <= hi,
        p@.subrange(lo as int, r as int) == drop_last_segment(p@.subrange(lo as int, hi as int)),
    decreases hi - lo,
{
    if hi == lo {
        return lo;
    }
    let ghost s = p@.subrange(lo as int, hi as int);
    assert(s.drop_last() =~= p@.subrange(lo as int, hi - 1));
    if p.get_char(hi - 1) == '/' {
        hi - 1
    } else {
        segment_cut(p, lo, hi - 1)
    }
}

/// The parent of an absolute path, `None` for the root.
pub fn parent_of_absolute(p: &str) -> (r: Option<String>)
    requires
        is_absolute(p@),
    ensures
        opt_seq(r) == absolute_parent(p@),
{
    let n = p.unicode_len();
    assert(p@.subrange(1, n as int) =~= p@.drop_first());
    let t = trimmed_end(p, 1, n);
    if t == 1 {
        return None;
    }
    let cut = segment_cut(p, 1, t);
    let end = trimmed_end(p, 1, cut);
    let mut out = String::from_str("/");
    proof {
        reveal_strlit("/");
    }
    out.append(p.substring_char(1, end));
    assert(out@ =~= seq!['/'] + p@.subrange(1, end as int));
    Some(out)
}

/// Drops trailing separators and trailing `.` components of a relative
/// path, keeping a leading `.`.
pub open spec fn relative_trim_trailing(b: Seq<char>) -> Seq<char>
    decreases b.len(),
{
    if b.len() == 0 {
        b
    } else if b.last() == '/' {
        relative_trim_trailing(b.drop_last())
    } else if b.last() == '.' && b.len() >= 2 && b[b.len() - 2] == '/' {
        relative_trim_trailing(b.drop_last())
    } else {
        b
    }
}

/// `Path::parent` of a relative path: `None` for the empty path,
/// otherwise what remains once its trailing separators and `.` components,
/// its last component, and the separators and `.` components left before
/// it are dropped.
pub open spec fn relative_parent(p: Seq<char>) -> Option<Seq<char>> {
    if p.len() == 0 {
        None
    } else {
        Some(relative_trim_trailing(drop_last_segment(relative_trim_trailing(p))))
    }
}

/// `Path::parent` on Unix.
pub open spec fn path_parent(p: Seq<char>) -> Option<Seq<char>> {
    if is_absolute(p) {
        absolute_parent(p)
    } else {
        relative_parent(p)
    }
}

fn relative_trimmed_end(p: &str, hi: usize) -> (r: usize)
    requires
        hi <= p@.len(),
    ensures
        r <= hi,
        p@.subrange(0, r as int) == relative_trim_trailing(p@.subrange(0, hi as int)),
    decreases hi,
{
    if hi == 0 {
        return 0;
    }
    let c = p.get_char(hi - 1);
    let ghost s = p@.subrange(0, hi as int);
    assert(s.drop_last() =~= p@.subrange(0, hi - 1));
    assert(s.last() == c);
    if c == '/' || (c == '.' && hi >= 2 && p.get_char(hi - 2) == '/') {
        proof {
            if c == '.' {
                assert(s[s.len() - 2] == p@[hi - 2]);
            }
        }
        relative_trimmed_end(p, hi - 1)
    } else {
        proof {
            if hi >= 2 {
                assert(s[s.len() - 2] == p@[hi - 2]);
            }
        }
        hi
    }
}

/// The parent of a path, as `Path::parent` gives it.
pub fn parent_path(p: &str) -> (r: Option<String>)
    ensures
        opt_seq(r) == path_parent(p@),
{
    if absolute(p) {
        return parent_of_absolute(p);
    }
    let n = p.unicode_len();
    if n == 0 {
        return None;
    }
    assert(p@.subrange(0, n as int) =~= p@);
    let t = relative_trimmed_end(p, n);
    let cut = segment_cut(p, 0, t);
    let end = relative_trimmed_end(p, cut);
    Some(String::from_str(p.substring_char(0, end)))
}

pub open spec fn opt_seq(o: Option<String>) -> Option<Seq<char>> {
    match o {
        Some(s) => Some(s@),
        None => None,
    }
}

// ---------------------------------------------------------------------------
// The state directory and its artifacts
// ---------------------------------------------------------------------------

pub open spec fn state_dir_check(dir: Seq<char>) -> Option<Seq<char>> {
    if has_parent_traversal(dir) {
        Some("state dir cannot contain parent traversal"@)
    } else {
        None
    }
}

/// The state directory, refused when one of its components is `..`.
pub fn contained_state_dir(dir: &str) -> (r: Result<String>)
    ensures
        agrees(r, state_dir_check(dir@)),
        r is Ok ==> r->Ok_0@ == dir@,
{
    if parent_traversal(dir) {
        return Err(validation("state dir cannot contain parent traversal"));
    }
    Ok(String::from_str(dir))
}

pub open spec fn artifact_char_ok(c: char) -> bool {
    let v = c as u32;
    ||| 48 <= v <= 57
    ||| 65 <= v <= 90
    ||| 97 <= v <= 122
    ||| c == '-'
    ||| c == '_'
    ||| c == '.'
}

pub open spec fn artifact_id_check(raw: Seq<char>) -> Option<Seq<char>> {
    let v = trim(raw);
    if v.len() == 0 || v == seq!['.'] || v == seq!['.', '.'] {
        Some("artifact id cannot be empty or relative"@)
    } else if exists|i: int| 0 <= i < v.len() && !artifact_char_ok(#[trigger] v[i]) {
        Some("artifact id contains an unsafe path character"@)
    } else {
        None
    }
}

fn artifact_char(c: char) -> (r: bool)
    ensures
        r == artifact_char_ok(c),
{
    let v = c as u32;
    (48 <= v && v <= 57) || (65 <= v && v <= 90) || (97 <= v && v <= 122) || c == '-' || c == '_'
        || c == '.'
}

/// An artifact id usable as a file name: trimmed, not empty, `.` or `..`,
/// and made of ASCII letters, digits, `-`, `_` and `.` only.
pub fn safe_artifact_component(raw: &str) -> (r: Result<String>)
    ensures
        agrees(r, artifact_id_check(raw@)),
        r is Ok ==> r->Ok_0@ == trim(raw@),
{
    let value = trim_str(raw);
    let n = value.unicode_len();
    let relative = n == 0 || (n == 1 && value.as_str().get_char(0) == '.') || (n == 2
        && value.as_str().get_char(0) == '.' && value.as_str().get_char(1) == '.');
    proof {
        if n == 1 {
            if value@[0] == '.' {
                assert(value@ =~= seq!['.']);
            } else {
                assert(value@[0] != seq!['.'][0]);
            }
        }
        if n == 2 {
            if value@[0] == '.' && value@[1] == '.' {
                assert(value@ =~= seq!['.', '.']);
            } else {
                assert(value@[0] != seq!['.', '.'][0] || value@[1] != seq!['.', '.'][1]);
            }
        }
    }
    if relative {
        return Err(validation("artifact id cannot be empty or relative"));
    }
    let mut i: usize = 0;
    while i < n
        invariant
            n == value@.len(),
            value@ == trim(raw@),
            !(value@.len() == 0 || value@ == seq!['.'] || value@ == seq!['.', '.']),
            0 <= i <= n,
            forall|k: int| 0 <= k < i ==> artifact_char_ok(#[trigger] value@[k]),
        decreases n - i,
    {
        if !artifact_char(value.as_str().get_char(i)) {
            assert(!artifact_char_ok(value@[i as int]));
            return Err(validation("artifact id contains an unsafe path character"));
        }
        i = i + 1;
    }
    Ok(value)
}

/// `<state dir>/<folder>/<id>.json` for a safe id.
pub open spec fn artifact_path_in(dir: Seq<char>, folder: Seq<char>, id: Seq<char>) -> Seq<char> {
    path_join(path_join(dir, folder), trim(id) + ".json"@)
}

pub open spec fn artifact_path_check(dir: Seq<char>, id: Seq<char>) -> Option<Seq<char>> {
    if artifact_id_check(id) is Some {
        artifact_id_check(id)
    } else {
        state_dir_check(dir)
    }
}

fn artifact_path(dir: &str, folder: &str, id: &str) -> (r: Result<String>)
    ensures
        agrees(r, artifact_path_check(dir@, id@)),
        r is Ok ==> r->Ok_0@ == artifact_path_in(dir@, folder@, id@),
{
    let component = safe_artifact_component(id)?;
    let file = concat2(component.as_str(), ".json");
    let state_dir = contained_state_dir(dir)?;
    let sub = join_path(state_dir.as_str(), folder);
    Ok(join_path(sub.as_str(), file.as_str()))
}

/// Where the receipt with the given id is stored:
/// `<state dir>/receipts/<id>.json`.
pub fn receipt_path(state_dir: &str, receipt_id: &str) -> (r: Result<String>)
    ensures
        agrees(r, artifact_path_check(state_dir@, receipt_id@)),
        r is Ok ==> r->Ok_0@ == artifact_path_in(state_dir@, "receipts"@, receipt_id@),
{
    artifact_path(state_dir, "receipts", receipt_id)
}

/// Where the handoff with the given id is stored:
/// `<state dir>/handoffs/<id>.json`.
pub fn handoff_path(state_dir: &str, handoff_id: &str) -> (r: Result<String>)
    ensures
        agrees(r, artifact_path_check(state_dir@, handoff_id@)),
        r is Ok ==> r->Ok_0@ == artifact_path_in(state_dir@, "handoffs"@, handoff_id@),
{
    artifact_path(state_dir, "handoffs", handoff_id)
}

pub open spec fn artifact_location_check(dir: Seq<char>, path: Seq<char>, label: Seq<char>) -> Option<
    Seq<char>,
> {
    if has_parent_traversal(path) {
        Some(label + " path cannot contain parent traversal"@)
    } else if state_dir_check(dir) is Some {
        state_dir_check(dir)
    } else if !path_starts_with(path, dir) {
        Some(label + " path must stay inside the lane state directory"@)
    } else {
        None
    }
}

/// An artifact path must have no `..` component and lie inside the state
/// directory, component by component.
pub fn ensure_artifact_path_in_state(state_dir: &str, path: &str, label: &str) -> (r: Result<()>)
    ensures
        agrees(r, artifact_location_check(state_dir@, path@, label@)),
{
    if parent_traversal(path) {
        return Err(validation_owned(concat2(label, " path cannot contain parent traversal")));
    }
    let dir = contained_state_dir(state_dir)?;
    if !starts_with_path(path, dir.as_str()) {
        return Err(
            validation_owned(concat2(label, " path must stay inside the lane state directory")),
        );
    }
    Ok(())
}


// ---------------------------------------------------------------------------
// Containment
// ---------------------------------------------------------------------------

/// A plain file or directory name: not empty, not `.` or `..`, and
/// without a separator.
pub open spec fn plain_name(s: Seq<char>) -> bool {
    &&& s.len() > 0
    &&& s != seq!['.']
    &&& s != seq!['.', '.']
    &&& forall|i: int| 0 <= i < s.len() ==> #[trigger] s[i] != '/'
}

proof fn lemma_join_keeps_no_traversal(base: Seq<char>, part: Seq<char>)
    requires
        !has_parent_traversal(base),
        plain_name(part),
    ensures
        !has_parent_traversal(path_join(base, part)),
{
    let j = path_join(base, part);
    let sep = base.len() > 0 && base.last() != '/';
    let off: int = if sep { (base.len() + 1) as int } else { base.len() as int };
    assert(part[0] != '/');
    assert(j.len() == off + part.len());
    assert forall|k: int| 0 <= k < base.len() implies j[k] == base[k] by {}
    assert forall|k: int| 0 <= k < part.len() implies j[off + k] == part[k] by {}
    if sep {
        assert(j[base.len() as int] == '/');
    }
    assert forall|i: int| !is_parent_at(j, i) by {
        if is_parent_at(j, i) {
            if i + 2 <= base.len() {
                assert(is_parent_at(base, i));
            } else if i >= off {
                let k = i - off;
                if k > 0 {
                    assert(part[k - 1] == j[i - 1]);
                }
                if k + 2 < part.len() {
                    assert(part[k + 2] == j[i + 2]);
                }
                assert(k == 0);
                assert(k + 2 == part.len());
                assert(part =~= seq!['.', '.']);
            } else if sep {
                assert(i == base.len() || i + 1 == base.len());
            } else {
                assert(i + 1 == base.len());
                assert(base.last() == '/');
            }
        }
    }
}

proof fn lemma_split_plain_suffix(p: Seq<char>, t: Seq<char>)
    requires
        forall|i: int| 0 <= i < t.len() ==> #[trigger] t[i] != '/',
    ensures
        split_state(p + t) == (split_state(p).0, split_state(p).1 + t),
    decreases t.len(),
{
    if t.len() == 0 {
        assert(p + t =~= p);
        assert(split_state(p).1 + t =~= split_state(p).1);
    } else {
        assert((p + t).drop_last() =~= p + t.drop_last());
        assert(t.last() != '/');
        lemma_split_plain_suffix(p, t.drop_last());
        assert(split_state(p).1 + t.drop_last() + seq![t.last()] =~= split_state(p).1 + t);
        assert((split_state(p).1 + t.drop_last()).push(t.last()) =~= split_state(p).1 + t);
    }
}

/// The components of a join: those of the base, then the name.
proof fn lemma_join_components(base: Seq<char>, part: Seq<char>)
    requires
        plain_name(part),
    ensures
        path_components(path_join(base, part)) == path_components(base) + seq![part],
{
    let j = path_join(base, part);
    assert(part[0] != '/');
    let sep = base.len() > 0 && base.last() != '/';
    if sep {
        let b = base.push('/');
        assert(j =~= b + part);
        assert(b.drop_last() =~= base);
        lemma_split_plain_suffix(b, part);
        assert(split_state(b).1 =~= Seq::<char>::empty());
        assert(split_state(b).1 + part =~= part);
        assert(body_components(j) =~= body_components(base) + seq![part]);
        assert(j[0] == base[0]);
        if base.len() == 1 {
            assert(j[1] == '/');
        } else {
            assert(j[1] == base[1]);
        }
        assert(leading_component(j) == leading_component(base));
    } else {
        assert(j =~= base + part);
        lemma_split_plain_suffix(base, part);
        if base.len() == 0 {
            assert(split_state(base).1 + part =~= part);
            assert(body_components(j) =~= seq![part]);
            assert(body_components(base) =~= Seq::<Seq<char>>::empty());
            if part.len() > 1 && part[0] == '.' {
                assert(part[1] != '/');
            }
            if part.len() == 1 && part[0] == '.' {
                assert(part =~= seq!['.']);
            }
            assert(leading_component(j) =~= Seq::<Seq<char>>::empty());
        } else {
            let b = base.drop_last();
            assert(base =~= b.push('/'));
            assert(split_state(base).1 =~= Seq::<char>::empty());
            assert(split_state(base).1 + part =~= part);
            assert(body_components(j) =~= body_components(base) + seq![part]);
            assert(j[0] == base[0]);
            if base.len() == 1 {
                assert(base[0] == '/');
            } else {
                assert(j[1] == base[1]);
            }
            assert(leading_component(j) == leading_component(base));
        }
    }
    assert(path_components(j) =~= path_components(base) + seq![part]);
}

/// An artifact path lies inside the state directory, component by
/// component, and climbs out nowhere: the location check always accepts
/// the canonical path of an artifact with a safe id.
pub proof fn lemma_artifact_path_in_state(
    dir: Seq<char>,
    folder: Seq<char>,
    id: Seq<char>,
    label: Seq<char>,
)
    requires
        state_dir_check(dir) is None,
        artifact_id_check(id) is None,
        plain_name(folder),
    ensures
        artifact_location_check(dir, artifact_path_in(dir, folder, id), label) is None,
        path_components(artifact_path_in(dir, folder, id)) == path_components(dir) + seq![
            folder,
            trim(id) + ".json"@,
        ],
{
    let name = trim(id) + ".json"@;
    reveal_strlit(".json");
    assert forall|i: int| 0 <= i < name.len() implies #[trigger] name[i] != '/' by {
        if i < trim(id).len() {
            assert(artifact_char_ok(trim(id)[i]));
        }
    }
    assert(name.len() > 2);
    assert(plain_name(name)) by {
        if name =~= seq!['.'] {
        }
        if name =~= seq!['.', '.'] {
        }
    }
    let first = path_join(dir, folder);
    lemma_join_keeps_no_traversal(dir, folder);
    lemma_join_keeps_no_traversal(first, name);
    lemma_join_components(dir, folder);
    lemma_join_components(first, name);
    let whole = path_join(first, name);
    assert(path_components(whole) =~= path_components(dir) + seq![folder, name]);
    assert(path_components(whole).subrange(0, path_components(dir).len() as int) =~= path_components(
        dir,
    ));
}

} // verus!
