//! Lane, pass, worker and claim identities, and the lane claim itself.

use vstd::prelude::*;
use vstd::utf8::encode_utf8;

use crate::digest::{blake3_hex, blake3_hex_of_str};
use crate::json::{
    entries_view, jarray, jnum, jobject, jstr, json_number, json_string, member, render_array,
    render_object, strings_view,
};
use crate::error::{agrees, validation, validation_owned, DrivenError, Result};
use crate::text::{
    concat2, decimal, digit_char, is_blank, is_blank_str, lemma_lowercase_fixed, lemma_trim_no_white,
    push_char, push_decimal, repeat_char, str_eq, trim, trim_str, to_ascii_lowercase,
    to_ascii_lowercase_str, zero_padded,
};

verus! {

pub const MAX_LANES: u8 = 30;

pub const LANE_CLAIM_SCHEMA: &'static str = "driven.lane_claim.v1";

// ---------------------------------------------------------------------------
// Identifier rules
// ---------------------------------------------------------------------------

/// How raw identifier text is normalized: trimmed, then ASCII-lowercased.
pub open spec fn normalized_id(raw: Seq<char>) -> Seq<char> {
    to_ascii_lowercase(trim(raw))
}

/// Characters allowed in a normalized identifier: ASCII small letters,
/// digits, `-`, `_`, `.`, and `:` where `colon` allows it.
pub open spec fn id_char_ok(c: char, colon: bool) -> bool {
    let v = c as u32;
    ||| 97 <= v <= 122
    ||| 48 <= v <= 57
    ||| v == 45
    ||| v == 95
    ||| v == 46
    ||| (colon && v == 58)
}

pub open spec fn id_chars_ok(s: Seq<char>, colon: bool) -> bool {
    forall|i: int| 0 <= i < s.len() ==> id_char_ok(#[trigger] s[i], colon)
}

/// The first rule that raw identifier text breaks, with the message that
/// names it; `label` names the kind of identifier.
pub open spec fn identifier_check(label: Seq<char>, raw: Seq<char>, colon: bool) -> Option<
    Seq<char>,
> {
    let n = normalized_id(raw);
    if n.len() == 0 {
        Some(label + " cannot be empty"@)
    } else if !id_chars_ok(n, colon) {
        Some(label + " contains unsupported characters: "@ + raw)
    } else {
        None
    }
}

/// Whether `s` is the normalized form of a valid identifier of the kind.
pub open spec fn is_canonical_id(s: Seq<char>, colon: bool) -> bool {
    &&& normalized_id(s).len() > 0
    &&& id_chars_ok(normalized_id(s), colon)
    &&& normalized_id(s) == s
}

/// Identifier text made of allowed characters only is already normalized,
/// and passes the identifier rules.
pub proof fn lemma_canonical_id(label: Seq<char>, s: Seq<char>, colon: bool)
    requires
        s.len() > 0,
        id_chars_ok(s, colon),
    ensures
        normalized_id(s) == s,
        identifier_check(label, s, colon) is None,
        is_canonical_id(s, colon),
{
    assert(id_char_ok(s[0], colon));
    assert(id_char_ok(s.last(), colon));
    lemma_trim_no_white(s);
    assert forall|i: int| 0 <= i < s.len() implies !(65 <= (#[trigger] s[i] as u32) <= 90) by {
        assert(id_char_ok(s[i], colon));
    }
    lemma_lowercase_fixed(s);
}

fn id_char(c: char, colon: bool) -> (r: bool)
    ensures
        r == id_char_ok(c, colon),
{
    let v = c as u32;
    (97 <= v && v <= 122) || (48 <= v && v <= 57) || v == 45 || v == 95 || v == 46 || (colon && v
        == 58)
}

fn id_chars(s: &str, colon: bool) -> (r: bool)
    ensures
        r == id_chars_ok(s@, colon),
{
    let n = s.unicode_len();
    let mut i: usize = 0;
    while i < n
        invariant
            n == s@.len(),
            0 <= i <= n,
            forall|k: int| 0 <= k < i ==> id_char_ok(#[trigger] s@[k], colon),
        decreases n - i,
    {
        if !id_char(s.get_char(i), colon) {
            return false;
        }
        i = i + 1;
    }
    true
}

/// Normalizes raw identifier text and checks it against the identifier
/// rules; on success the normalized text.
fn check_identifier(label: &str, raw: &str, colon: bool) -> (r: Result<String>)
    ensures
        agrees(r, identifier_check(label@, raw@, colon)),
        r is Ok ==> r->Ok_0@ == normalized_id(raw@),
{
    let trimmed = trim_str(raw);
    let normalized = to_ascii_lowercase_str(trimmed.as_str());
    if normalized.unicode_len() == 0 {
        return Err(validation_owned(concat2(label, " cannot be empty")));
    }
    if !id_chars(normalized.as_str(), colon) {
        let mut msg = concat2(label, " contains unsupported characters: ");
        msg.append(raw);
        return Err(validation_owned(msg));
    }
    Ok(normalized)
}

// ---------------------------------------------------------------------------
// LaneId
// ---------------------------------------------------------------------------

/// A lane number, between 1 and `MAX_LANES` when built by `new`.
#[derive(Debug, Clone, Copy, PartialEq, Eq, PartialOrd, Ord, Hash, Structural)]
pub struct LaneId(u8);

impl View for LaneId {
    type V = u8;

    closed spec fn view(&self) -> u8 {
        self.0
    }
}

pub open spec fn lane_check(value: u8) -> Option<Seq<char>> {
    if 1 <= value <= MAX_LANES {
        None
    } else {
        Some("lane must be between 1 and 30, got "@ + decimal(value as nat))
    }
}

impl LaneId {
    /// A lane between 1 and `MAX_LANES`; any other value is refused.
    pub fn new(value: u8) -> (r: Result<Self>)
        ensures
            agrees(r, lane_check(value)),
            r is Ok ==> r->Ok_0@ == value,
    {
        if 1 <= value && value <= MAX_LANES {
            Ok(LaneId(value))
        } else {
            let mut msg = String::from_str("lane must be between 1 and 30, got ");
            push_decimal(&mut msg, value as u64);
            Err(validation_owned(msg))
        }
    }

    /// A lane number read back from stored state, unchecked; `validate` of
    /// the claim that holds it reports an out-of-range value.
    pub fn from_persisted(value: u8) -> (r: Self)
        ensures
            r@ == value,
    {
        LaneId(value)
    }

    pub fn value(self) -> (r: u8)
        ensures
            r == self@,
    {
        self.0
    }

    /// Equality by lane number.
    pub fn same(self, other: Self) -> (r: bool)
        ensures
            r == (self@ == other@),
    {
        self.0 == other.0
    }

    /// The lane number in decimal, as it is displayed.
    pub fn to_string(self) -> (r: String)
        ensures
            r@ == decimal(self@ as nat),
    {
        crate::text::decimal_string(self.0 as u64)
    }
}

// ---------------------------------------------------------------------------
// PassNumber
// ---------------------------------------------------------------------------

/// A pass number, at least 1 when built by `new`.
#[derive(Debug, Clone, Copy, PartialEq, Eq, PartialOrd, Ord, Hash, Structural)]
pub struct PassNumber(u32);

impl View for PassNumber {
    type V = u32;

    closed spec fn view(&self) -> u32 {
        self.0
    }
}

pub open spec fn pass_check(value: u32) -> Option<Seq<char>> {
    if value == 0 {
        Some("pass must be at least 1"@)
    } else {
        None
    }
}

/// What advancing a pass breaks: only the end of the `u32` range.
pub open spec fn pass_next_check(value: u32) -> Option<Seq<char>> {
    if value == u32::MAX {
        Some("pass overflow"@)
    } else {
        pass_check((value + 1) as u32)
    }
}

impl PassNumber {
    pub fn first() -> (r: Self)
        ensures
            r@ == 1,
    {
        PassNumber(1)
    }

    /// A pass of at least 1; zero is refused.
    pub fn new(value: u32) -> (r: Result<Self>)
        ensures
            agrees(r, pass_check(value)),
            r is Ok ==> r->Ok_0@ == value,
    {
        if value == 0 {
            Err(validation("pass must be at least 1"))
        } else {
            Ok(PassNumber(value))
        }
    }

    /// A pass number read back from stored state, unchecked.
    pub fn from_persisted(value: u32) -> (r: Self)
        ensures
            r@ == value,
    {
        PassNumber(value)
    }

    /// The following pass; refused only at the end of the `u32` range.
    pub fn next(self) -> (r: Result<Self>)
        ensures
            agrees(r, pass_next_check(self@)),
            r is Ok ==> r->Ok_0@ == self@ + 1,
    {
        match self.0.checked_add(1) {
            None => Err(validation("pass overflow")),
            Some(v) => PassNumber::new(v),
        }
    }

    pub fn value(self) -> (r: u32)
        ensures
            r == self@,
    {
        self.0
    }

    pub fn same(self, other: Self) -> (r: bool)
        ensures
            r == (self@ == other@),
    {
        self.0 == other.0
    }

    pub fn to_string(self) -> (r: String)
        ensures
            r@ == decimal(self@ as nat),
    {
        crate::text::decimal_string(self.0 as u64)
    }
}

// ---------------------------------------------------------------------------
// WorkerId
// ---------------------------------------------------------------------------

/// A worker identity: normalized text of ASCII small letters, digits,
/// `-`, `_` and `.` when built by `new`.
#[derive(Debug, PartialEq, Eq, PartialOrd, Ord, Hash)]
pub struct WorkerId(String);

impl View for WorkerId {
    type V = Seq<char>;

    closed spec fn view(&self) -> Seq<char> {
        self.0@
    }
}

impl Clone for WorkerId {
    fn clone(&self) -> (r: Self)
        ensures
            r == *self,
    {
        WorkerId(self.0.clone())
    }
}

pub open spec fn worker_id_check(raw: Seq<char>) -> Option<Seq<char>> {
    identifier_check("worker id"@, raw, false)
}

/// What `validate_canonical` reports for a stored worker id under `label`.
pub open spec fn canonical_worker_check(label: Seq<char>, s: Seq<char>) -> Option<Seq<char>> {
    if worker_id_check(s) is Some {
        worker_id_check(s)
    } else if normalized_id(s) != s {
        Some(label + " worker id must be normalized"@)
    } else {
        None
    }
}

impl WorkerId {
    /// Trims and lowercases the raw text; refuses it when nothing is left or
    /// when a character outside the allowed set remains.
    pub fn new(raw: &str) -> (r: Result<Self>)
        ensures
            agrees(r, worker_id_check(raw@)),
            r is Ok ==> r->Ok_0@ == normalized_id(raw@),
            r is Ok ==> is_canonical_id(r->Ok_0@, false),
    {
        let normalized = check_identifier("worker id", raw, false)?;
        proof {
            lemma_canonical_id("worker id"@, normalized@, false);
        }
        Ok(WorkerId(normalized))
    }

    /// A worker id read back from stored state, unchecked.
    pub fn from_persisted(raw: String) -> (r: Self)
        ensures
            r@ == raw@,
    {
        WorkerId(raw)
    }

    pub fn as_str(&self) -> (r: &str)
        ensures
            r@ == self@,
    {
        self.0.as_str()
    }

    pub fn same(&self, other: &Self) -> (r: bool)
        ensures
            r == (self@ == other@),
    {
        self.0 == other.0
    }

    pub fn to_string(&self) -> (r: String)
        ensures
            r@ == self@,
    {
        self.0.clone()
    }

    /// Refuses a stored worker id that `new` would not give back unchanged.
    pub fn validate_canonical(&self, label: &str) -> (r: Result<()>)
        ensures
            agrees(r, canonical_worker_check(label@, self@)),
    {
        let canonical = WorkerId::new(self.0.as_str())?;
        if !canonical.same(self) {
            return Err(validation_owned(concat2(label, " worker id must be normalized")));
        }
        Ok(())
    }
}

// ---------------------------------------------------------------------------
// ClaimToken
// ---------------------------------------------------------------------------

/// The digest that binds a claim to its lane, pass, worker, scope, claim id
/// and state session.
#[derive(Debug, PartialEq, Eq)]
pub struct ClaimToken(String);

impl View for ClaimToken {
    type V = Seq<char>;

    closed spec fn view(&self) -> Seq<char> {
        self.0@
    }
}

impl Clone for ClaimToken {
    fn clone(&self) -> (r: Self)
        ensures
            r == *self,
    {
        ClaimToken(self.0.clone())
    }
}

impl ClaimToken {
    /// A token read back from stored state, unchecked.
    pub fn from_persisted(raw: String) -> (r: Self)
        ensures
            r@ == raw@,
    {
        ClaimToken(raw)
    }

    pub fn as_str(&self) -> (r: &str)
        ensures
            r@ == self@,
    {
        self.0.as_str()
    }

    pub fn same(&self, other: &Self) -> (r: bool)
        ensures
            r == (self@ == other@),
    {
        self.0 == other.0
    }
}

// ---------------------------------------------------------------------------
// ClaimId
// ---------------------------------------------------------------------------

/// Identity of one claim; `legacy` for claims made before claim ids.
#[derive(Debug, PartialEq, Eq, PartialOrd, Ord, Hash)]
pub struct ClaimId(String);

impl View for ClaimId {
    type V = Seq<char>;

    closed spec fn view(&self) -> Seq<char> {
        self.0@
    }
}

impl Clone for ClaimId {
    fn clone(&self) -> (r: Self)
        ensures
            r == *self,
    {
        ClaimId(self.0.clone())
    }
}

pub open spec fn claim_id_check(raw: Seq<char>) -> Option<Seq<char>> {
    identifier_check("claim id"@, raw, true)
}

pub open spec fn is_ascii_digit(c: char) -> bool {
    48 <= (c as u32) <= 57
}

/// The number written by a non-empty run of decimal digits.
pub open spec fn digits_value(s: Seq<char>) -> nat
    decreases s.len(),
{
    if s.len() == 0 {
        0
    } else {
        digits_value(s.drop_last()) * 10 + ((s.last() as u32) - 48) as nat
    }
}

/// The digits that `u64::from_str` reads: the text after one optional `+`.
pub open spec fn unsigned_body(s: Seq<char>) -> Seq<char> {
    if s.len() > 0 && s[0] == '+' {
        s.drop_first()
    } else {
        s
    }
}

pub open spec fn all_ascii_digits(s: Seq<char>) -> bool {
    forall|i: int| 0 <= i < s.len() ==> is_ascii_digit(#[trigger] s[i])
}

/// `u64::from_str`: an optional `+`, then one or more decimal digits whose
/// value fits in 64 bits.
pub open spec fn parse_u64(s: Seq<char>) -> Option<u64> {
    let body = unsigned_body(s);
    if body.len() == 0 || !all_ascii_digits(body) || digits_value(body) > u64::MAX {
        None
    } else {
        Some(digits_value(body) as u64)
    }
}

/// The sequence number of a claim id written `claim-<number>`.
pub open spec fn claim_sequence(id: Seq<char>) -> Option<u64> {
    if id.len() >= 6 && id.subrange(0, 6) == "claim-"@ {
        parse_u64(id.subrange(6, id.len() as int))
    } else {
        None
    }
}

proof fn lemma_parse_stops_at_non_digit(s: Seq<char>, body: Seq<char>, k: int)
    requires
        body == unsigned_body(s),
        0 <= k < body.len(),
        !is_ascii_digit(body[k]),
    ensures
        parse_u64(s) is None,
{
    assert(!all_ascii_digits(body));
}

proof fn lemma_digits_value_grows(s: Seq<char>, i: int)
    requires
        0 <= i <= s.len(),
    ensures
        digits_value(s.subrange(0, i)) <= digits_value(s),
    decreases s.len() - i,
{
    if i < s.len() {
        lemma_digits_value_grows(s.drop_last(), i);
        assert(s.drop_last().subrange(0, i) =~= s.subrange(0, i));
    } else {
        assert(s.subrange(0, i) =~= s);
    }
}

proof fn lemma_digits_value_of_decimal(n: nat)
    ensures
        all_ascii_digits(decimal(n)),
        decimal(n).len() > 0,
        digits_value(decimal(n)) == n,
    decreases n,
{
    let last = digit_char(n % 10);
    assert((last as u32) == 48 + n % 10);
    if n >= 10 {
        lemma_digits_value_of_decimal(n / 10);
        let d = decimal(n / 10);
        assert(decimal(n) == d.push(last));
        assert(decimal(n).drop_last() =~= d);
        assert(decimal(n).last() == last);
        assert(digits_value(decimal(n)) == digits_value(d) * 10 + ((last as u32) - 48) as nat);
        assert((n / 10) * 10 + n % 10 == n);
    } else {
        assert(decimal(n) == seq![digit_char(n)]);
        assert(n % 10 == n);
        assert(decimal(n).drop_last() =~= Seq::<char>::empty());
        assert(decimal(n).last() == last);
        assert(digits_value(decimal(n)) == digits_value(Seq::<char>::empty()) * 10 + ((last as u32) - 48) as nat);
    }
    assert forall|i: int| 0 <= i < decimal(n).len() implies is_ascii_digit(#[trigger] decimal(n)[i]) by {
        if n >= 10 && i < decimal(n).len() - 1 {
            assert(decimal(n)[i] == decimal(n / 10)[i]);
        }
    }
}

proof fn lemma_digits_value_zeros(z: nat, s: Seq<char>)
    ensures
        digits_value(repeat_char('0', z) + s) == digits_value(s),
        all_ascii_digits(s) ==> all_ascii_digits(repeat_char('0', z) + s),
    decreases s.len(),
{
    let t = repeat_char('0', z) + s;
    if s.len() == 0 {
        assert(t =~= repeat_char('0', z));
        lemma_digits_value_of_zeros(z);
    } else {
        assert(t.drop_last() =~= repeat_char('0', z) + s.drop_last());
        lemma_digits_value_zeros(z, s.drop_last());
    }
    if all_ascii_digits(s) {
        assert forall|i: int| 0 <= i < t.len() implies is_ascii_digit(#[trigger] t[i]) by {
            if i >= z {
                assert(t[i] == s[i - z]);
            }
        }
    }
}

proof fn lemma_digits_value_of_zeros(z: nat)
    ensures
        digits_value(repeat_char('0', z)) == 0,
    decreases z,
{
    if z > 0 {
        assert(repeat_char('0', z).drop_last() =~= repeat_char('0', (z - 1) as nat));
        lemma_digits_value_of_zeros((z - 1) as nat);
    }
}

/// The claim id made from a sequence number reads back as that number.
pub proof fn lemma_sequence_claim_id_parses(n: u64)
    ensures
        claim_sequence("claim-"@ + zero_padded(n as nat, 16)) == Some(n),
{
    reveal_strlit("claim-");
    let digits = zero_padded(n as nat, 16);
    let id = "claim-"@ + digits;
    lemma_digits_value_of_decimal(n as nat);
    let pad: nat = if decimal(n as nat).len() < 16 { (16 - decimal(n as nat).len()) as nat } else { 0 };
    assert(digits == repeat_char('0', pad) + decimal(n as nat));
    lemma_digits_value_zeros(pad, decimal(n as nat));
    assert(id.subrange(0, 6) =~= "claim-"@);
    assert(id.subrange(6, id.len() as int) =~= digits);
    assert(digits.len() > 0);
    assert(is_ascii_digit(digits[0]));
    assert(unsigned_body(digits) == digits);
}

/// Parses a string slice as `u64::from_str` does.
pub fn parse_u64_str(s: &str) -> (r: Option<u64>)
    ensures
        r == parse_u64(s@),
{
    let n = s.unicode_len();
    let mut start: usize = 0;
    if n > 0 && s.get_char(0) == '+' {
        start = 1;
    }
    let ghost body = unsigned_body(s@);
    assert(body =~= s@.subrange(start as int, n as int));
    if start == n {
        return None;
    }
    let mut acc: u64 = 0;
    let mut i: usize = start;
    while i < n
        invariant
            n == s@.len(),
            start <= i <= n,
            body == s@.subrange(start as int, n as int),
            body == unsigned_body(s@),
            body.len() > 0,
            forall|k: int| start <= k < i ==> is_ascii_digit(#[trigger] s@[k]),
            acc as nat == digits_value(s@.subrange(start as int, i as int)),
        decreases n - i,
    {
        let c = s.get_char(i);
        let v = c as u32;
        if !(48 <= v && v <= 57) {
            assert(body[i - start] == c);
            assert(!is_ascii_digit(body[i - start]));
            proof {
                lemma_parse_stops_at_non_digit(s@, body, i - start);
            }
            return None;
        }
        let ghost prefix = s@.subrange(start as int, i + 1);
        assert(prefix.drop_last() =~= s@.subrange(start as int, i as int));
        assert(prefix.last() == c);
        let d: u64 = (v - 48) as u64;
        assert(digits_value(prefix) == acc * 10 + d);
        if acc > 1844674407370955161 || (acc == 1844674407370955161 && d > 5) {
            proof {
                assert(digits_value(prefix) > u64::MAX);
                assert(body.subrange(0, i + 1 - start) =~= prefix);
                lemma_digits_value_grows(body, i + 1 - start);
            }
            return None;
        }
        acc = acc * 10 + d;
        i = i + 1;
    }
    assert(s@.subrange(start as int, n as int) =~= body);
    assert forall|k: int| 0 <= k < body.len() implies is_ascii_digit(#[trigger] body[k]) by {
        assert(body[k] == s@[start + k]);
    }
    Some(acc)
}

impl ClaimId {
    /// Trims and lowercases the raw text; refuses it when nothing is left or
    /// when a character outside the allowed set (which admits `:`) remains.
    pub fn new(raw: &str) -> (r: Result<Self>)
        ensures
            agrees(r, claim_id_check(raw@)),
            r is Ok ==> r->Ok_0@ == normalized_id(raw@),
    {
        let normalized = check_identifier("claim id", raw, true)?;
        Ok(ClaimId(normalized))
    }

    /// A claim id read back from stored state, unchecked.
    pub fn from_persisted(raw: String) -> (r: Self)
        ensures
            r@ == raw@,
    {
        ClaimId(raw)
    }

    pub fn legacy() -> (r: Self)
        ensures
            r@ == "legacy"@,
    {
        ClaimId(String::from_str("legacy"))
    }

    /// `claim-` followed by the sequence number padded to 16 digits.
    pub fn from_sequence(sequence: u64) -> (r: Self)
        ensures
            r@ == "claim-"@ + zero_padded(sequence as nat, 16),
    {
        let digits = crate::text::decimal_string(sequence);
        let mut s = String::from_str("claim-");
        let dn = digits.unicode_len();
        let target: usize = if dn < 16 {
            16 - dn
        } else {
            0
        };
        let mut k: usize = 0;
        while k < target
            invariant
                dn == digits@.len(),
                target == (if dn < 16 { 16 - dn } else { 0 }),
                0 <= k <= target,
                s@ =~= "claim-"@ + crate::text::repeat_char('0', k as nat),
            decreases target - k,
        {
            push_char(&mut s, '0');
            k = k + 1;
        }
        s.append(digits.as_str());
        proof {
            if dn < 16 {
                assert(s@ =~= "claim-"@ + zero_padded(sequence as nat, 16));
            } else {
                assert(crate::text::repeat_char('0', 0) =~= Seq::<char>::empty());
                assert(s@ =~= "claim-"@ + digits@);
                assert(s@ =~= "claim-"@ + zero_padded(sequence as nat, 16));
            }
        }
        ClaimId(s)
    }

    pub fn as_str(&self) -> (r: &str)
        ensures
            r@ == self@,
    {
        self.0.as_str()
    }

    pub fn is_legacy(&self) -> (r: bool)
        ensures
            r == (self@ == "legacy"@),
    {
        str_eq(self.0.as_str(), "legacy")
    }

    pub fn same(&self, other: &Self) -> (r: bool)
        ensures
            r == (self@ == other@),
    {
        self.0 == other.0
    }

    /// The number of a claim id written `claim-<number>`.
    pub fn sequence(&self) -> (r: Option<u64>)
        ensures
            r == claim_sequence(self@),
    {
        if !crate::text::starts_with_str(self.0.as_str(), "claim-") {
            proof {
                reveal_strlit("claim-");
            }
            return None;
        }
        proof {
            reveal_strlit("claim-");
        }
        let n = self.0.unicode_len();
        let rest = self.0.as_str().substring_char(6, n);
        parse_u64_str(rest)
    }
}

impl Default for ClaimId {
    fn default() -> (r: Self)
        ensures
            r@ == "legacy"@,
    {
        ClaimId::legacy()
    }
}

// ---------------------------------------------------------------------------
// StateSessionId
// ---------------------------------------------------------------------------

/// Identity of one lane/pass state directory.
#[derive(Debug, PartialEq, Eq, PartialOrd, Ord, Hash)]
pub struct StateSessionId(String);

impl View for StateSessionId {
    type V = Seq<char>;

    closed spec fn view(&self) -> Seq<char> {
        self.0@
    }
}

impl Clone for StateSessionId {
    fn clone(&self) -> (r: Self)
        ensures
            r == *self,
    {
        StateSessionId(self.0.clone())
    }
}

pub open spec fn state_session_id_check(raw: Seq<char>) -> Option<Seq<char>> {
    identifier_check("state session id"@, raw, true)
}

pub open spec fn is_lower_hex(c: char) -> bool {
    let v = c as u32;
    (48 <= v <= 57) || (97 <= v <= 102)
}

impl StateSessionId {
    pub fn new(raw: &str) -> (r: Result<Self>)
        ensures
            agrees(r, state_session_id_check(raw@)),
            r is Ok ==> r->Ok_0@ == normalized_id(raw@),
    {
        let normalized = check_identifier("state session id", raw, true)?;
        Ok(StateSessionId(normalized))
    }

    /// A session id read back from stored state, unchecked.
    pub fn from_persisted(raw: String) -> (r: Self)
        ensures
            r@ == raw@,
    {
        StateSessionId(raw)
    }

    /// A fresh session id: `state-` followed by the caller's random draw,
    /// the 32 lowercase hexadecimal characters of a version 4 UUID in its
    /// simple form. The draw is made by the caller because drawing it can
    /// fail when the system's random source does.
    pub fn generate(draw: &str) -> (r: Self)
        ensures
            r@ == "state-"@ + draw@,
    {
        StateSessionId(concat2("state-", draw))
    }

    pub fn as_str(&self) -> (r: &str)
        ensures
            r@ == self@,
    {
        self.0.as_str()
    }

    pub fn same(&self, other: &Self) -> (r: bool)
        ensures
            r == (self@ == other@),
    {
        self.0 == other.0
    }
}

/// The view of an optional session id.
pub open spec fn session_view(s: Option<StateSessionId>) -> Option<Seq<char>> {
    match s {
        Some(id) => Some(id@),
        None => None,
    }
}

// ---------------------------------------------------------------------------
// Workers
// ---------------------------------------------------------------------------

#[derive(Debug, Clone, Copy, PartialEq, Eq, Structural)]
pub enum WorkerKind {
    Human,
    CodexSubagent,
    Automation,
}

#[derive(Debug, PartialEq, Eq)]
pub struct WorkerIdentity {
    pub id: WorkerId,
    pub display_name: String,
    pub kind: WorkerKind,
}

impl Clone for WorkerIdentity {
    fn clone(&self) -> (r: Self)
        ensures
            r == *self,
    {
        WorkerIdentity { id: self.id.clone(), display_name: self.display_name.clone(), kind: self.kind }
    }
}

pub open spec fn worker_identity_check(id: Seq<char>, display_name: Seq<char>) -> Option<
    Seq<char>,
> {
    if is_blank(display_name) {
        Some("worker display name cannot be empty"@)
    } else {
        worker_id_check(id)
    }
}

impl WorkerIdentity {
    pub fn new(id: &str, display_name: &str, kind: WorkerKind) -> (r: Result<Self>)
        ensures
            agrees(r, worker_identity_check(id@, display_name@)),
            r is Ok ==> r->Ok_0.id@ == normalized_id(id@) && r->Ok_0.display_name@ == display_name@
                && r->Ok_0.kind == kind,
    {
        if is_blank_str(display_name) {
            return Err(validation("worker display name cannot be empty"));
        }
        let id = WorkerId::new(id)?;
        Ok(WorkerIdentity { id, display_name: String::from_str(display_name), kind })
    }
}

#[derive(Debug, Clone, Copy, PartialEq, Eq, Structural)]
pub enum ClaimStatus {
    Claimed,
    Released,
    Completed,
}

// ---------------------------------------------------------------------------
// Subagent delegation
// ---------------------------------------------------------------------------

#[derive(Debug, PartialEq, Eq)]
pub struct SubagentDelegation {
    pub worker_id: WorkerId,
    pub lane: LaneId,
    pub pass: PassNumber,
    pub task: String,
}

impl Clone for SubagentDelegation {
    fn clone(&self) -> (r: Self)
        ensures
            r == *self,
    {
        SubagentDelegation {
            worker_id: self.worker_id.clone(),
            lane: self.lane,
            pass: self.pass,
            task: self.task.clone(),
        }
    }
}

pub open spec fn subagent_check(s: SubagentDelegation) -> Option<Seq<char>> {
    if canonical_worker_check("subagent"@, s.worker_id@) is Some {
        canonical_worker_check("subagent"@, s.worker_id@)
    } else if is_blank(s.task@) {
        Some("subagent task cannot be empty"@)
    } else {
        None
    }
}

impl SubagentDelegation {
    pub fn new(worker_id: WorkerId, lane: LaneId, pass: PassNumber, task: &str) -> (r: Self)
        ensures
            r.worker_id == worker_id,
            r.lane == lane,
            r.pass == pass,
            r.task@ == task@,
    {
        SubagentDelegation { worker_id, lane, pass, task: String::from_str(task) }
    }

    pub fn validate(&self) -> (r: Result<()>)
        ensures
            agrees(r, subagent_check(*self)),
    {
        self.worker_id.validate_canonical("subagent")?;
        if is_blank_str(self.task.as_str()) {
            return Err(validation("subagent task cannot be empty"));
        }
        Ok(())
    }
}

// ---------------------------------------------------------------------------
// Claim tokens
// ---------------------------------------------------------------------------

/// The canonical text whose digest is a claim token. Claims without a
/// state session and with the legacy claim id keep the first layout, those
/// with a claim id the second, those with a state session the third.
pub open spec fn claim_canonical(
    lane: u8,
    pass: u32,
    worker: Seq<char>,
    scope: Seq<char>,
    claim_id: Seq<char>,
    session: Option<Seq<char>>,
) -> Seq<char> {
    let common = "\nlane="@ + decimal(lane as nat) + "\npass="@ + decimal(pass as nat) + "\nworker="@
        + worker + "\nscope="@ + trim(scope);
    match session {
        Some(sid) => "driven.lane_claim.v3"@ + common + "\nclaim_id="@ + claim_id
            + "\nstate_session_id="@ + sid + "\n"@,
        None => if claim_id == "legacy"@ {
            "driven.lane_claim.v1"@ + common + "\n"@
        } else {
            "driven.lane_claim.v2"@ + common + "\nclaim_id="@ + claim_id + "\n"@
        },
    }
}

pub open spec fn claim_token_text(
    lane: u8,
    pass: u32,
    worker: Seq<char>,
    scope: Seq<char>,
    claim_id: Seq<char>,
    session: Option<Seq<char>>,
) -> Seq<char> {
    blake3_hex(encode_utf8(claim_canonical(lane, pass, worker, scope, claim_id, session)))
}

/// The token a claim must carry, given its other fields.
pub open spec fn expected_token(c: LaneClaim) -> Seq<char> {
    claim_token_text(
        c.lane@,
        c.pass@,
        c.worker_id@,
        c.scope@,
        c.claim_id@,
        session_view(c.state_session_id),
    )
}

/// The token of a legacy claim: no claim id, no state session.
pub fn derive_claim_token(lane: LaneId, pass: PassNumber, worker_id: &WorkerId, scope: &str) -> (r:
    ClaimToken)
    ensures
        r@ == claim_token_text(lane@, pass@, worker_id@, scope@, "legacy"@, None),
{
    let legacy = ClaimId::legacy();
    derive_claim_token_for_id(lane, pass, worker_id, scope, &legacy, None)
}

fn derive_claim_token_for_id(
    lane: LaneId,
    pass: PassNumber,
    worker_id: &WorkerId,
    scope: &str,
    claim_id: &ClaimId,
    state_session_id: Option<&StateSessionId>,
) -> (r: ClaimToken)
    ensures
        r@ == claim_token_text(
            lane@,
            pass@,
            worker_id@,
            scope@,
            claim_id@,
            match state_session_id {
                Some(s) => Some(s@),
                None => None,
            },
        ),
{
    let mut common = String::from_str("\nlane=");
    push_decimal(&mut common, lane.value() as u64);
    common.append("\npass=");
    push_decimal(&mut common, pass.value() as u64);
    common.append("\nworker=");
    common.append(worker_id.as_str());
    common.append("\nscope=");
    let trimmed = trim_str(scope);
    common.append(trimmed.as_str());
    let ghost common_view = "\nlane="@ + decimal(lane@ as nat) + "\npass="@ + decimal(
        pass@ as nat,
    ) + "\nworker="@ + worker_id@ + "\nscope="@ + trim(scope@);
    assert(common@ =~= common_view);
    let canonical = match state_session_id {
        Some(sid) => {
            let mut c = String::from_str("driven.lane_claim.v3");
            c.append(common.as_str());
            c.append("\nclaim_id=");
            c.append(claim_id.as_str());
            c.append("\nstate_session_id=");
            c.append(sid.as_str());
            c.append("\n");
            c
        },
        None => {
            if claim_id.is_legacy() {
                let mut c = String::from_str("driven.lane_claim.v1");
                c.append(common.as_str());
                c.append("\n");
                c
            } else {
                let mut c = String::from_str("driven.lane_claim.v2");
                c.append(common.as_str());
                c.append("\nclaim_id=");
                c.append(claim_id.as_str());
                c.append("\n");
                c
            }
        },
    };
    let ghost sv = match state_session_id {
        Some(s) => Some(s@),
        None => None,
    };
    assert(canonical@ =~= claim_canonical(lane@, pass@, worker_id@, scope@, claim_id@, sv));
    ClaimToken(blake3_hex_of_str(canonical.as_str()))
}

// ---------------------------------------------------------------------------
// LaneClaim
// ---------------------------------------------------------------------------

/// One worker's claim on one lane for one pass.
#[derive(Debug, PartialEq, Eq)]
pub struct LaneClaim {
    pub schema: String,
    pub lane: LaneId,
    pub pass: PassNumber,
    pub worker_id: WorkerId,
    pub worker: WorkerIdentity,
    pub scope: String,
    pub claim_id: ClaimId,
    pub state_session_id: Option<StateSessionId>,
    pub status: ClaimStatus,
    pub token: ClaimToken,
    pub subagents: Vec<SubagentDelegation>,
}

fn clone_session(s: &Option<StateSessionId>) -> (r: Option<StateSessionId>)
    ensures
        r == *s,
{
    match s {
        Some(id) => Some(id.clone()),
        None => None,
    }
}

fn clone_subagents(v: &Vec<SubagentDelegation>) -> (r: Vec<SubagentDelegation>)
    ensures
        r@ == v@,
{
    let mut out: Vec<SubagentDelegation> = Vec::new();
    let mut i: usize = 0;
    while i < v.len()
        invariant
            0 <= i <= v.len(),
            out@ =~= v@.subrange(0, i as int),
        decreases v.len() - i,
    {
        out.push(v[i].clone());
        i = i + 1;
    }
    assert(v@.subrange(0, v.len() as int) =~= v@);
    out
}

impl Clone for LaneClaim {
    fn clone(&self) -> (r: Self)
        ensures
            r == (LaneClaim { subagents: r.subagents, ..*self }),
            r.subagents@ == self.subagents@,
    {
        LaneClaim {
            schema: self.schema.clone(),
            lane: self.lane,
            pass: self.pass,
            worker_id: self.worker_id.clone(),
            worker: self.worker.clone(),
            scope: self.scope.clone(),
            claim_id: self.claim_id.clone(),
            state_session_id: clone_session(&self.state_session_id),
            status: self.status,
            token: self.token.clone(),
            subagents: clone_subagents(&self.subagents),
        }
    }
}

/// The first subagent rule that the delegations break.
pub open spec fn subagents_check(subs: Seq<SubagentDelegation>, lane: u8, pass: u32) -> Option<
    Seq<char>,
>
    decreases subs.len(),
{
    if subs.len() == 0 {
        None
    } else if subagent_check(subs[0]) is Some {
        subagent_check(subs[0])
    } else if subs[0].lane@ != lane || subs[0].pass@ != pass {
        Some("subagent lane/pass must match parent claim lane/pass"@)
    } else {
        subagents_check(subs.drop_first(), lane, pass)
    }
}

/// The first rule that a lane claim breaks, in the order `validate` checks
/// them, with the message that names it; `None` for a valid claim.
pub open spec fn claim_check(c: LaneClaim) -> Option<Seq<char>> {
    if lane_check(c.lane@) is Some {
        lane_check(c.lane@)
    } else if pass_check(c.pass@) is Some {
        pass_check(c.pass@)
    } else if canonical_worker_check("claim"@, c.worker_id@) is Some {
        canonical_worker_check("claim"@, c.worker_id@)
    } else if canonical_worker_check("worker identity"@, c.worker.id@) is Some {
        canonical_worker_check("worker identity"@, c.worker.id@)
    } else if claim_id_check(c.claim_id@) is Some {
        claim_id_check(c.claim_id@)
    } else if normalized_id(c.claim_id@) != c.claim_id@ {
        Some("claim id must be normalized"@)
    } else if c.state_session_id is Some && state_session_id_check(
        c.state_session_id->Some_0@,
    ) is Some {
        state_session_id_check(c.state_session_id->Some_0@)
    } else if c.state_session_id is Some && normalized_id(c.state_session_id->Some_0@)
        != c.state_session_id->Some_0@ {
        Some("state session id must be normalized"@)
    } else if c.schema@ != LANE_CLAIM_SCHEMA@ {
        Some("lane claim schema must be "@ + LANE_CLAIM_SCHEMA@)
    } else if is_blank(c.scope@) {
        Some("lane scope cannot be empty"@)
    } else if c.worker_id@ != c.worker.id@ {
        Some("claim worker id and worker identity must match"@)
    } else if is_blank(c.worker.display_name@) {
        Some("worker display name cannot be empty"@)
    } else if c.token@ != expected_token(c) {
        Some("claim token does not match lane/pass/worker/scope/claim id/state session"@)
    } else {
        subagents_check(c.subagents@, c.lane@, c.pass@)
    }
}

/// A fresh claim with the legacy claim id and no state session.
pub open spec fn new_claim_fields(
    r: LaneClaim,
    lane: LaneId,
    pass: PassNumber,
    worker_id: WorkerId,
    scope: Seq<char>,
) -> bool {
    &&& r.schema@ == LANE_CLAIM_SCHEMA@
    &&& r.lane == lane
    &&& r.pass == pass
    &&& r.worker_id == worker_id
    &&& r.worker.id == worker_id
    &&& r.worker.display_name@ == worker_id@
    &&& r.worker.kind == WorkerKind::Automation
    &&& r.scope@ == scope
    &&& r.claim_id@ == "legacy"@
    &&& r.state_session_id is None
    &&& r.status == ClaimStatus::Claimed
    &&& r.subagents@.len() == 0
    &&& r.token@ == expected_token(r)
}

/// Normalizing a valid worker id again changes nothing: the id it gives is
/// valid and is its own normal form.
pub proof fn lemma_worker_id_normalization_idempotent(raw: Seq<char>)
    requires
        worker_id_check(raw) is None,
    ensures
        worker_id_check(normalized_id(raw)) is None,
        normalized_id(normalized_id(raw)) == normalized_id(raw),
{
    lemma_canonical_id("worker id"@, normalized_id(raw), false);
}

/// A canonical worker id passes the worker rules under any label.
pub proof fn lemma_canonical_worker(label: Seq<char>, s: Seq<char>)
    requires
        is_canonical_id(s, false),
    ensures
        canonical_worker_check(label, s) is None,
        !is_blank(s),
{
    lemma_canonical_id("worker id"@, s, false);
    assert(id_char_ok(s[0], false));
}

/// A fresh claim is valid when its lane and pass are in range, its worker
/// id is canonical and its scope is not blank.
pub proof fn lemma_new_claim_valid(
    c: LaneClaim,
    lane: LaneId,
    pass: PassNumber,
    worker: WorkerId,
    scope: Seq<char>,
)
    requires
        new_claim_fields(c, lane, pass, worker, scope),
        lane_check(lane@) is None,
        pass_check(pass@) is None,
        is_canonical_id(worker@, false),
        !is_blank(scope),
    ensures
        claim_check(c) is None,
{
    lemma_canonical_worker("claim"@, worker@);
    lemma_canonical_worker("worker identity"@, worker@);
    reveal_strlit("legacy");
    assert(id_chars_ok("legacy"@, true));
    lemma_canonical_id("claim id"@, "legacy"@, true);
    assert(c.subagents@ =~= Seq::<SubagentDelegation>::empty());
}

/// Giving a valid claim a canonical claim id keeps it valid: every other
/// field stays, and the token is derived anew for the new id.
pub proof fn lemma_claim_id_change_keeps_claim_valid(c: LaneClaim, id: ClaimId, d: LaneClaim)
    requires
        claim_check(c) is None,
        is_canonical_id(id@, true),
        d == (LaneClaim { claim_id: id, token: d.token, ..c }),
        d.token@ == expected_token(d),
    ensures
        claim_check(d) is None,
{
    lemma_canonical_id("claim id"@, id@, true);
}

impl LaneClaim {
    pub fn new(lane: LaneId, pass: PassNumber, worker_id: WorkerId, scope: &str) -> (r: Self)
        ensures
            new_claim_fields(r, lane, pass, worker_id, scope@),
    {
        let worker = WorkerIdentity {
            display_name: worker_id.to_string(),
            id: worker_id.clone(),
            kind: WorkerKind::Automation,
        };
        let token = derive_claim_token(lane, pass, &worker_id, scope);
        let r = LaneClaim {
            schema: String::from_str(LANE_CLAIM_SCHEMA),
            token,
            lane,
            pass,
            worker_id,
            worker,
            scope: String::from_str(scope),
            claim_id: ClaimId::legacy(),
            state_session_id: None,
            status: ClaimStatus::Claimed,
            subagents: Vec::new(),
        };
        r
    }

    pub fn with_worker_identity(self, worker: WorkerIdentity) -> (r: Self)
        ensures
            r == (LaneClaim {
                worker_id: worker.id,
                worker: worker,
                token: r.token,
                ..self
            }),
            r.token@ == expected_token(r),
    {
        let mut c = self;
        c.worker_id = worker.id.clone();
        c.worker = worker;
        c.refresh_token();
        c
    }

    pub fn with_claim_id(self, claim_id: ClaimId) -> (r: Self)
        ensures
            r == (LaneClaim { claim_id: claim_id, token: r.token, ..self }),
            r.token@ == expected_token(r),
    {
        let mut c = self;
        c.claim_id = claim_id;
        c.refresh_token();
        c
    }

    pub fn with_state_session_id(self, state_session_id: StateSessionId) -> (r: Self)
        ensures
            r == (LaneClaim { state_session_id: Some(state_session_id), token: r.token, ..self }),
            r.token@ == expected_token(r),
    {
        let mut c = self;
        c.state_session_id = Some(state_session_id);
        c.refresh_token();
        c
    }

    pub fn with_subagent(self, subagent: SubagentDelegation) -> (r: Self)
        ensures
            r == (LaneClaim { subagents: r.subagents, ..self }),
            r.subagents@ == self.subagents@.push(subagent),
    {
        let mut c = self;
        c.subagents.push(subagent);
        c
    }

    pub fn is_owner(&self, worker_id: &WorkerId) -> (r: bool)
        ensures
            r == (self.worker_id@ == worker_id@),
    {
        self.worker_id.same(worker_id)
    }

    /// Recomputes the token from the claim's other fields.
    pub fn refresh_token(&mut self)
        ensures
            *final(self) == (LaneClaim { token: final(self).token, ..*old(self) }),
            final(self).token@ == expected_token(*final(self)),
    {
        let t = derive_claim_token_for_id(
            self.lane,
            self.pass,
            &self.worker_id,
            self.scope.as_str(),
            &self.claim_id,
            self.state_session_id.as_ref(),
        );
        self.token = t;
    }

    /// Checks every rule of a lane claim, in order, and reports the first
    /// one broken.
    pub fn validate(&self) -> (r: Result<()>)
        ensures
            agrees(r, claim_check(*self)),
    {
        LaneId::new(self.lane.value())?;
        PassNumber::new(self.pass.value())?;
        self.worker_id.validate_canonical("claim")?;
        self.worker.id.validate_canonical("worker identity")?;
        let normalized_claim_id = ClaimId::new(self.claim_id.as_str())?;
        if !normalized_claim_id.same(&self.claim_id) {
            return Err(validation("claim id must be normalized"));
        }
        if let Some(sid) = &self.state_session_id {
            let normalized = StateSessionId::new(sid.as_str())?;
            if !normalized.same(sid) {
                return Err(validation("state session id must be normalized"));
            }
        }
        if !str_eq(self.schema.as_str(), LANE_CLAIM_SCHEMA) {
            return Err(validation_owned(concat2("lane claim schema must be ", LANE_CLAIM_SCHEMA)));
        }
        if is_blank_str(self.scope.as_str()) {
            return Err(validation("lane scope cannot be empty"));
        }
        if !self.worker_id.same(&self.worker.id) {
            return Err(validation("claim worker id and worker identity must match"));
        }
        if is_blank_str(self.worker.display_name.as_str()) {
            return Err(validation("worker display name cannot be empty"));
        }
        let expected = derive_claim_token_for_id(
            self.lane,
            self.pass,
            &self.worker_id,
            self.scope.as_str(),
            &self.claim_id,
            self.state_session_id.as_ref(),
        );
        if !self.token.same(&expected) {
            return Err(
                validation("claim token does not match lane/pass/worker/scope/claim id/state session"),
            );
        }
        let n = self.subagents.len();
        let mut i: usize = 0;
        assert(self.subagents@.subrange(0, n as int) =~= self.subagents@);
        assert(claim_check(*self) == subagents_check(self.subagents@, self.lane@, self.pass@));
        while i < n
            invariant
                n == self.subagents@.len(),
                claim_check(*self) == subagents_check(self.subagents@, self.lane@, self.pass@),
                0 <= i <= n,
                subagents_check(self.subagents@, self.lane@, self.pass@) == subagents_check(
                    self.subagents@.subrange(i as int, n as int),
                    self.lane@,
                    self.pass@,
                ),
            decreases n - i,
        {
            let ghost rest = self.subagents@.subrange(i as int, n as int);
            assert(rest[0] == self.subagents@[i as int]);
            assert(rest.drop_first() =~= self.subagents@.subrange(i + 1, n as int));
            let sub = &self.subagents[i];
            sub.validate()?;
            if !sub.lane.same(self.lane) || !sub.pass.same(self.pass) {
                return Err(validation("subagent lane/pass must match parent claim lane/pass"));
            }
            i = i + 1;
        }
        assert(self.subagents@.subrange(n as int, n as int).len() == 0);
        Ok(())
    }
}

} // verus!

verus! {

// ---------------------------------------------------------------------------
// JSON
// ---------------------------------------------------------------------------

pub open spec fn worker_kind_name(k: WorkerKind) -> Seq<char> {
    match k {
        WorkerKind::Human => "human"@,
        WorkerKind::CodexSubagent => "codex_subagent"@,
        WorkerKind::Automation => "automation"@,
    }
}

pub fn worker_kind_text(k: WorkerKind) -> (r: &'static str)
    ensures
        r@ == worker_kind_name(k),
{
    match k {
        WorkerKind::Human => "human",
        WorkerKind::CodexSubagent => "codex_subagent",
        WorkerKind::Automation => "automation",
    }
}

pub open spec fn claim_status_name(s: ClaimStatus) -> Seq<char> {
    match s {
        ClaimStatus::Claimed => "claimed"@,
        ClaimStatus::Released => "released"@,
        ClaimStatus::Completed => "completed"@,
    }
}

pub fn claim_status_text(s: ClaimStatus) -> (r: &'static str)
    ensures
        r@ == claim_status_name(s),
{
    match s {
        ClaimStatus::Claimed => "claimed",
        ClaimStatus::Released => "released",
        ClaimStatus::Completed => "completed",
    }
}

pub open spec fn worker_identity_members(w: WorkerIdentity) -> Seq<(Seq<char>, Seq<char>)> {
    seq![
        ("id"@, jstr(w.id@)),
        ("display_name"@, jstr(w.display_name@)),
        ("kind"@, jstr(worker_kind_name(w.kind))),
    ]
}

pub open spec fn subagent_members(s: SubagentDelegation) -> Seq<(Seq<char>, Seq<char>)> {
    seq![
        ("worker_id"@, jstr(s.worker_id@)),
        ("lane"@, jnum(s.lane@ as nat)),
        ("pass"@, jnum(s.pass@ as nat)),
        ("task"@, jstr(s.task@)),
    ]
}

pub open spec fn subagents_json(subs: Seq<SubagentDelegation>, pretty: bool, level: nat) -> Seq<
    char,
> {
    jarray(
        subs.map_values(|s: SubagentDelegation| jobject(subagent_members(s), pretty, level + 1)),
        pretty,
        level,
    )
}

/// The members of a claim; the legacy claim id and a missing state session
/// are left out.
pub open spec fn claim_members(c: LaneClaim, pretty: bool, level: nat) -> Seq<
    (Seq<char>, Seq<char>),
> {
    seq![
        ("schema"@, jstr(c.schema@)),
        ("lane"@, jnum(c.lane@ as nat)),
        ("pass"@, jnum(c.pass@ as nat)),
        ("worker_id"@, jstr(c.worker_id@)),
        ("worker"@, jobject(worker_identity_members(c.worker), pretty, level + 1)),
        ("scope"@, jstr(c.scope@)),
    ] + (if c.claim_id@ == "legacy"@ {
        Seq::empty()
    } else {
        seq![("claim_id"@, jstr(c.claim_id@))]
    }) + match c.state_session_id {
        Some(s) => seq![("state_session_id"@, jstr(s@))],
        None => Seq::empty(),
    } + seq![
        ("status"@, jstr(claim_status_name(c.status))),
        ("token"@, jstr(c.token@)),
        ("subagents"@, subagents_json(c.subagents@, pretty, level + 1)),
    ]
}

/// The claim as a JSON object at nesting `level`.
pub open spec fn claim_json(c: LaneClaim, pretty: bool, level: nat) -> Seq<char> {
    jobject(claim_members(c, pretty, level), pretty, level)
}

impl WorkerIdentity {
    pub fn to_json(&self, pretty: bool, level: usize) -> (r: String)
        requires
            level < usize::MAX,
        ensures
            r@ == jobject(worker_identity_members(*self), pretty, level as nat),
    {
        let mut v: Vec<(String, String)> = Vec::new();
        v.push(member("id", json_string(self.id.as_str())));
        v.push(member("display_name", json_string(self.display_name.as_str())));
        v.push(member("kind", json_string(worker_kind_text(self.kind))));
        assert(entries_view(v@) =~= worker_identity_members(*self));
        render_object(&v, pretty, level)
    }
}

impl SubagentDelegation {
    pub fn to_json(&self, pretty: bool, level: usize) -> (r: String)
        requires
            level < usize::MAX,
        ensures
            r@ == jobject(subagent_members(*self), pretty, level as nat),
    {
        let mut v: Vec<(String, String)> = Vec::new();
        v.push(member("worker_id", json_string(self.worker_id.as_str())));
        v.push(member("lane", json_number(self.lane.value() as u64)));
        v.push(member("pass", json_number(self.pass.value() as u64)));
        v.push(member("task", json_string(self.task.as_str())));
        assert(entries_view(v@) =~= subagent_members(*self));
        render_object(&v, pretty, level)
    }
}

fn subagents_to_json(subs: &Vec<SubagentDelegation>, pretty: bool, level: usize) -> (r: String)
    requires
        level < usize::MAX - 1,
    ensures
        r@ == subagents_json(subs@, pretty, level as nat),
{
    let mut items: Vec<String> = Vec::new();
    let mut i: usize = 0;
    while i < subs.len()
        invariant
            0 <= i <= subs@.len(),
            level < usize::MAX - 1,
            items@.len() == i,
            forall|k: int|
                0 <= k < i ==> (#[trigger] items@[k])@ == jobject(
                    subagent_members(subs@[k]),
                    pretty,
                    (level + 1) as nat,
                ),
        decreases subs@.len() - i,
    {
        items.push(subs[i].to_json(pretty, level + 1));
        i = i + 1;
    }
    assert(strings_view(items@) =~= subs@.map_values(
        |s: SubagentDelegation| jobject(subagent_members(s), pretty, (level + 1) as nat),
    ));
    render_array(&items, pretty, level)
}

impl LaneClaim {
    /// The claim as JSON, in the layout `serde_json` writes.
    #[verifier::rlimit(40)]
    pub fn to_json(&self, pretty: bool, level: usize) -> (r: String)
        requires
            level < usize::MAX - 2,
        ensures
            r@ == claim_json(*self, pretty, level as nat),
    {
        let mut v: Vec<(String, String)> = Vec::new();
        v.push(member("schema", json_string(self.schema.as_str())));
        v.push(member("lane", json_number(self.lane.value() as u64)));
        v.push(member("pass", json_number(self.pass.value() as u64)));
        v.push(member("worker_id", json_string(self.worker_id.as_str())));
        v.push(member("worker", self.worker.to_json(pretty, level + 1)));
        v.push(member("scope", json_string(self.scope.as_str())));
        let ghost head = entries_view(v@);
        if !self.claim_id.is_legacy() {
            v.push(member("claim_id", json_string(self.claim_id.as_str())));
        }
        let ghost mid = entries_view(v@);
        if let Some(sid) = &self.state_session_id {
            v.push(member("state_session_id", json_string(sid.as_str())));
        }
        let ghost mid2 = entries_view(v@);
        v.push(member("status", json_string(claim_status_text(self.status))));
        v.push(member("token", json_string(self.token.as_str())));
        v.push(member("subagents", subagents_to_json(&self.subagents, pretty, level + 1)));
        proof {
            let full = claim_members(*self, pretty, level as nat);
            assert(entries_view(v@) =~= full);
        }
        render_object(&v, pretty, level)
    }
}

} // verus!
