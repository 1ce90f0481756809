//! JSON text in the layout `serde_json` writes: compact, or pretty with two
//! spaces of indentation per level.

use vstd::prelude::*;

use crate::text::{decimal, push_char, push_decimal, push_signed_decimal, signed_decimal};

verus! {

pub open spec fn hex_digit(d: nat) -> char {
    if d < 10 {
        ((48 + d) as u32) as char
    } else {
        ((87 + d) as u32) as char
    }
}

/// How one character is written inside a JSON string.
pub open spec fn json_escape_char(c: char) -> Seq<char> {
    let v = c as u32;
    if v == 34 {
        seq!['\\', '"']
    } else if v == 92 {
        seq!['\\', '\\']
    } else if v == 8 {
        seq!['\\', 'b']
    } else if v == 9 {
        seq!['\\', 't']
    } else if v == 10 {
        seq!['\\', 'n']
    } else if v == 12 {
        seq!['\\', 'f']
    } else if v == 13 {
        seq!['\\', 'r']
    } else if v < 32 {
        seq!['\\', 'u', '0', '0', hex_digit((v / 16) as nat), hex_digit((v % 16) as nat)]
    } else {
        seq![c]
    }
}

pub open spec fn json_escape(s: Seq<char>) -> Seq<char>
    decreases s.len(),
{
    if s.len() == 0 {
        Seq::empty()
    } else {
        json_escape(s.drop_last()) + json_escape_char(s.last())
    }
}

/// A JSON string literal holding `s`.
pub open spec fn jstr(s: Seq<char>) -> Seq<char> {
    seq!['"'] + json_escape(s) + seq!['"']
}

pub open spec fn jnum(n: nat) -> Seq<char> {
    decimal(n)
}

pub open spec fn jint(n: int) -> Seq<char> {
    signed_decimal(n)
}

pub open spec fn jbool(b: bool) -> Seq<char> {
    if b {
        "true"@
    } else {
        "false"@
    }
}

pub open spec fn jnull() -> Seq<char> {
    "null"@
}

pub open spec fn jopt_str(s: Option<Seq<char>>) -> Seq<char> {
    match s {
        Some(t) => jstr(t),
        None => jnull(),
    }
}

/// Two spaces per level of nesting.
pub open spec fn indent(level: nat) -> Seq<char>
    decreases level,
{
    if level == 0 {
        Seq::empty()
    } else {
        indent((level - 1) as nat) + "  "@
    }
}

/// What stands before an element: a comma unless it is the first, and in
/// the pretty layout a line break and the element's indentation.
pub open spec fn element_sep(first: bool, pretty: bool, level: nat) -> Seq<char> {
    (if first {
        Seq::empty()
    } else {
        seq![',']
    }) + (if pretty {
        seq!['\n'] + indent(level + 1)
    } else {
        Seq::empty()
    })
}

pub open spec fn key_sep(pretty: bool) -> Seq<char> {
    if pretty {
        ": "@
    } else {
        ":"@
    }
}

/// What stands before the closing bracket of a non-empty container.
pub open spec fn closing(pretty: bool, level: nat) -> Seq<char> {
    if pretty {
        seq!['\n'] + indent(level)
    } else {
        Seq::empty()
    }
}

/// The members of an object, each already rendered at `level + 1`.
pub open spec fn json_members(entries: Seq<(Seq<char>, Seq<char>)>, pretty: bool, level: nat) -> Seq<
    char,
>
    decreases entries.len(),
{
    if entries.len() == 0 {
        Seq::empty()
    } else {
        json_members(entries.drop_last(), pretty, level) + element_sep(
            entries.len() == 1,
            pretty,
            level,
        ) + jstr(entries.last().0) + key_sep(pretty) + entries.last().1
    }
}

/// An object at nesting `level`, whose member values are rendered at
/// `level + 1`.
pub open spec fn jobject(entries: Seq<(Seq<char>, Seq<char>)>, pretty: bool, level: nat) -> Seq<
    char,
> {
    if entries.len() == 0 {
        "{}"@
    } else {
        seq!['{'] + json_members(entries, pretty, level) + closing(pretty, level) + seq!['}']
    }
}

pub open spec fn json_items(items: Seq<Seq<char>>, pretty: bool, level: nat) -> Seq<char>
    decreases items.len(),
{
    if items.len() == 0 {
        Seq::empty()
    } else {
        json_items(items.drop_last(), pretty, level) + element_sep(items.len() == 1, pretty, level)
            + items.last()
    }
}

/// An array at nesting `level`, whose items are rendered at `level + 1`.
pub open spec fn jarray(items: Seq<Seq<char>>, pretty: bool, level: nat) -> Seq<char> {
    if items.len() == 0 {
        "[]"@
    } else {
        seq!['['] + json_items(items, pretty, level) + closing(pretty, level) + seq![']']
    }
}

/// The text of rendered object members.
pub open spec fn entries_view(v: Seq<(String, String)>) -> Seq<(Seq<char>, Seq<char>)> {
    v.map_values(|e: (String, String)| (e.0@, e.1@))
}

/// Each string as a JSON string literal.
pub open spec fn quoted_items(v: Seq<String>) -> Seq<Seq<char>> {
    v.map_values(|s: String| jstr(s@))
}

pub open spec fn strings_view(v: Seq<String>) -> Seq<Seq<char>> {
    v.map_values(|s: String| s@)
}

fn hex_digit_char(d: u32) -> (c: char)
    requires
        d < 16,
    ensures
        c == hex_digit(d as nat),
{
    if d < 10 {
        let b: u8 = (48 + d) as u8;
        b as char
    } else {
        let b: u8 = (87 + d) as u8;
        b as char
    }
}

/// Appends the escaped form of one character.
fn push_escaped_char(out: &mut String, c: char)
    ensures
        final(out)@ == old(out)@ + json_escape_char(c),
{
    let v = c as u32;
    if v == 34 {
        push_char(out, '\\');
        push_char(out, '"');
    } else if v == 92 {
        push_char(out, '\\');
        push_char(out, '\\');
    } else if v == 8 {
        push_char(out, '\\');
        push_char(out, 'b');
    } else if v == 9 {
        push_char(out, '\\');
        push_char(out, 't');
    } else if v == 10 {
        push_char(out, '\\');
        push_char(out, 'n');
    } else if v == 12 {
        push_char(out, '\\');
        push_char(out, 'f');
    } else if v == 13 {
        push_char(out, '\\');
        push_char(out, 'r');
    } else if v < 32 {
        push_char(out, '\\');
        push_char(out, 'u');
        push_char(out, '0');
        push_char(out, '0');
        push_char(out, hex_digit_char(v / 16));
        push_char(out, hex_digit_char(v % 16));
    } else {
        push_char(out, c);
    }
    assert(final(out)@ =~= old(out)@ + json_escape_char(c));
}

/// A JSON string literal holding `s`.
pub fn json_string(s: &str) -> (r: String)
    ensures
        r@ == jstr(s@),
{
    let n = s.unicode_len();
    let mut out = String::new();
    push_char(&mut out, '"');
    let mut i: usize = 0;
    while i < n
        invariant
            n == s@.len(),
            0 <= i <= n,
            out@ =~= seq!['"'] + json_escape(s@.subrange(0, i as int)),
        decreases n - i,
    {
        let c = s.get_char(i);
        push_escaped_char(&mut out, c);
        assert(s@.subrange(0, i + 1).drop_last() =~= s@.subrange(0, i as int));
        i = i + 1;
    }
    assert(s@.subrange(0, n as int) =~= s@);
    push_char(&mut out, '"');
    assert(out@ =~= jstr(s@));
    out
}

pub fn json_number(n: u64) -> (r: String)
    ensures
        r@ == jnum(n as nat),
{
    crate::text::decimal_string(n)
}

pub fn json_signed(n: i32) -> (r: String)
    ensures
        r@ == jint(n as int),
{
    let mut s = String::new();
    push_signed_decimal(&mut s, n as i64);
    assert(s@ =~= jint(n as int));
    s
}

pub fn json_bool(b: bool) -> (r: String)
    ensures
        r@ == jbool(b),
{
    if b {
        String::from_str("true")
    } else {
        String::from_str("false")
    }
}

pub fn json_null() -> (r: String)
    ensures
        r@ == jnull(),
{
    String::from_str("null")
}

pub fn json_opt_string(s: &Option<String>) -> (r: String)
    ensures
        r@ == jopt_str(
            match s {
                Some(t) => Some(t@),
                None => None,
            },
        ),
{
    match s {
        Some(t) => json_string(t.as_str()),
        None => json_null(),
    }
}

fn push_indent(out: &mut String, level: usize)
    ensures
        final(out)@ == old(out)@ + indent(level as nat),
    decreases level,
{
    if level > 0 {
        push_indent(out, level - 1);
        out.append("  ");
    }
    assert(final(out)@ =~= old(out)@ + indent(level as nat));
}

fn push_element_sep(out: &mut String, first: bool, pretty: bool, level: usize)
    requires
        level < usize::MAX,
    ensures
        final(out)@ == old(out)@ + element_sep(first, pretty, level as nat),
{
    if !first {
        push_char(out, ',');
    }
    if pretty {
        push_char(out, '\n');
        push_indent(out, level + 1);
    }
    assert(final(out)@ =~= old(out)@ + element_sep(first, pretty, level as nat));
}

fn push_closing(out: &mut String, pretty: bool, level: usize)
    ensures
        final(out)@ == old(out)@ + closing(pretty, level as nat),
{
    if pretty {
        push_char(out, '\n');
        push_indent(out, level);
    }
    assert(final(out)@ =~= old(out)@ + closing(pretty, level as nat));
}

/// Renders an object from members whose values are already rendered.
pub fn render_object(entries: &Vec<(String, String)>, pretty: bool, level: usize) -> (r: String)
    requires
        level < usize::MAX,
    ensures
        r@ == jobject(entries_view(entries@), pretty, level as nat),
{
    let n = entries.len();
    if n == 0 {
        return String::from_str("{}");
    }
    let mut out = String::new();
    push_char(&mut out, '{');
    let mut i: usize = 0;
    while i < n
        invariant
            n == entries@.len(),
            0 <= i <= n,
            level < usize::MAX,
            out@ =~= seq!['{'] + json_members(
                entries_view(entries@.subrange(0, i as int)),
                pretty,
                level as nat,
            ),
        decreases n - i,
    {
        let ghost before = entries_view(entries@.subrange(0, i as int));
        let ghost after = entries_view(entries@.subrange(0, i + 1));
        assert(after.drop_last() =~= before);
        push_element_sep(&mut out, i == 0, pretty, level);
        let key = json_string(entries[i].0.as_str());
        out.append(key.as_str());
        if pretty {
            out.append(": ");
        } else {
            out.append(":");
        }
        out.append(entries[i].1.as_str());
        i = i + 1;
    }
    push_closing(&mut out, pretty, level);
    push_char(&mut out, '}');
    assert(entries@.subrange(0, n as int) =~= entries@);
    assert(out@ =~= jobject(entries_view(entries@), pretty, level as nat));
    out
}

/// Renders an array from items that are already rendered.
pub fn render_array(items: &Vec<String>, pretty: bool, level: usize) -> (r: String)
    requires
        level < usize::MAX,
    ensures
        r@ == jarray(strings_view(items@), pretty, level as nat),
{
    let n = items.len();
    if n == 0 {
        return String::from_str("[]");
    }
    let mut out = String::new();
    push_char(&mut out, '[');
    let mut i: usize = 0;
    while i < n
        invariant
            n == items@.len(),
            0 <= i <= n,
            level < usize::MAX,
            out@ =~= seq!['['] + json_items(
                strings_view(items@.subrange(0, i as int)),
                pretty,
                level as nat,
            ),
        decreases n - i,
    {
        let ghost before = strings_view(items@.subrange(0, i as int));
        let ghost after = strings_view(items@.subrange(0, i + 1));
        assert(after.drop_last() =~= before);
        push_element_sep(&mut out, i == 0, pretty, level);
        out.append(items[i].as_str());
        i = i + 1;
    }
    push_closing(&mut out, pretty, level);
    push_char(&mut out, ']');
    assert(items@.subrange(0, n as int) =~= items@);
    assert(out@ =~= jarray(strings_view(items@), pretty, level as nat));
    out
}

/// An array of JSON strings.
pub fn render_string_array(items: &Vec<String>, pretty: bool, level: usize) -> (r: String)
    requires
        level < usize::MAX,
    ensures
        r@ == jarray(quoted_items(items@), pretty, level as nat),
{
    let mut rendered: Vec<String> = Vec::new();
    let mut i: usize = 0;
    while i < items.len()
        invariant
            0 <= i <= items@.len(),
            rendered@.len() == i,
            forall|k: int| 0 <= k < i ==> (#[trigger] rendered@[k])@ == jstr(items@[k]@),
        decreases items@.len() - i,
    {
        rendered.push(json_string(items[i].as_str()));
        i = i + 1;
    }
    assert(strings_view(rendered@) =~= quoted_items(items@));
    render_array(&rendered, pretty, level)
}

/// A member whose key is `key` and whose value is already rendered.
pub fn member(key: &str, value: String) -> (r: (String, String))
    ensures
        r.0@ == key@,
        r.1@ == value@,
{
    (String::from_str(key), value)
}

} // verus!
