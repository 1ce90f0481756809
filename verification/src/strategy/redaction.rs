//! Masking of credentials in free text before it is rendered or persisted.

use vstd::prelude::*;

use crate::text::{is_white_space, str_eq, white_space_char};

verus! {

/// Whether `regex::Regex::new` compiles `pattern`, with its default
/// limits.
pub uninterp spec fn regex_compiles(pattern: Seq<char>) -> bool;

/// The text that `Regex::replace_all(text, replacement)` gives for the
/// compiled `pattern`, `$name` and `${name}` in the replacement standing
/// for named groups.
pub uninterp spec fn regex_replaced(pattern: Seq<char>, text: Seq<char>, replacement: Seq<char>) -> Seq<
    char,
>;

/// Compiles `pattern` with `regex::Regex::new` and, where it compiles,
/// replaces every match in `text` with `replacement` through
/// `Regex::replace_all`. The contract claims that the result is present
/// exactly when the pattern compiles (`regex_compiles`, a function of the
/// pattern alone) and is then `regex_replaced` of the three texts, a
/// function of them alone; what that text is, it leaves to the regex crate.
#[verifier::external_body]
fn regex_replace_all(pattern: &str, text: &str, replacement: &str) -> (r: Option<String>)
    ensures
        r is Some <==> regex_compiles(pattern@),
        r is Some ==> r->Some_0@ == regex_replaced(pattern@, text@, replacement@),
{
    match regex::Regex::new(pattern) {
        Ok(re) => Some(re.replace_all(text, replacement).into_owned()),
        Err(_) => None,
    }
}

/// Keeps what precedes the secret and masks the secret itself.
pub const MASK_REPLACEMENT: &'static str = "${prefix}[REDACTED]";

/// `Authorization: Bearer|Basic <secret>` headers.
pub const AUTHORIZATION_PATTERN: &'static str = r#"(?ix)
            (?P<prefix>\bauthorization\s*:\s*(?:bearer|basic)\s+)
            (?P<secret>[^"'\s&,;|)}]+)
            "#;

/// `Bearer <secret>` anywhere.
pub const BEARER_PATTERN: &'static str = r#"(?ix)
            (?P<prefix>\bbearer\s+)
            (?P<secret>[^"'\s&,;|)}]+)
            "#;

/// Command-line flags that carry credentials.
pub const FLAG_PATTERN: &'static str = r#"(?ix)
            (?P<prefix>
                --(?:openai-api-key|openai_api_key|api-key|api_key|apikey|access-token|access_token|
                    refresh-token|refresh_token|id-token|id_token|client-secret|client_secret|
                    private-key|private_key|password|token|secret|session|cookie)
                (?:\s+|=)
                ["']?
            )
            (?P<secret>[^"'\s&,;|)}]+)
            "#;

/// `key=value` and `"key": "value"` pairs whose key names a credential.
pub const KEY_VALUE_PATTERN: &'static str = r#"(?ix)
            (?P<prefix>
                ["']?
                (?:openai_api_key|api_key|apikey|access_token|refresh_token|id_token|
                    client_secret|private_key|password|token|secret|session|cookie)
                ["']?
                \s*[:=]\s*
                ["']?
            )
            (?P<secret>[^"'\s&,;|)}]+)
            "#;

/// What masking with `pattern` gives: nothing once an earlier step gave
/// nothing or when the pattern does not compile.
pub open spec fn mask(pattern: Seq<char>, text: Option<Seq<char>>) -> Option<Seq<char>> {
    match text {
        Some(t) => if regex_compiles(pattern) {
            Some(regex_replaced(pattern, t, MASK_REPLACEMENT@))
        } else {
            None
        },
        None => None,
    }
}

/// What stands for the whole text when a masking pattern cannot be used:
/// masking fails closed.
pub const REDACTED_TEXT: &'static str = "[REDACTED]";

/// The text after the four masking passes: authorization headers, then
/// bearer tokens, then credential flags, then credential key/value pairs;
/// the text as a whole is masked when one of the patterns does not compile.
pub open spec fn pattern_masked(text: Seq<char>) -> Seq<char> {
    match mask(
        KEY_VALUE_PATTERN@,
        mask(FLAG_PATTERN@, mask(BEARER_PATTERN@, mask(AUTHORIZATION_PATTERN@, Some(text)))),
    ) {
        Some(masked) => masked,
        None => REDACTED_TEXT@,
    }
}

// ---------------------------------------------------------------------------
// Bearer tokens that survive masking
// ---------------------------------------------------------------------------

pub open spec fn is_ascii_word_char(c: char) -> bool {
    let v = c as u32;
    (48 <= v <= 57) || (65 <= v <= 90) || (97 <= v <= 122) || v == 95
}

/// A word may start at `j`: at the start of the text, or after an ASCII
/// character that is not a word character.
pub open spec fn word_opens_at(s: Seq<char>, j: int) -> bool {
    j == 0 || ((s[j - 1] as u32) < 128 && !is_ascii_word_char(s[j - 1]))
}

/// `c` is the lowercase ASCII letter `lower` in either case.
pub open spec fn letter_is(c: char, lower: char) -> bool {
    c == lower || (c as u32) + 32 == (lower as u32)
}

/// The word `bearer`, in any case, stands at `j`.
pub open spec fn bearer_at(s: Seq<char>, j: int) -> bool {
    &&& 0 <= j
    &&& j + 6 <= s.len()
    &&& letter_is(s[j], 'b')
    &&& letter_is(s[j + 1], 'e')
    &&& letter_is(s[j + 2], 'a')
    &&& letter_is(s[j + 3], 'r')
    &&& letter_is(s[j + 4], 'e')
    &&& letter_is(s[j + 5], 'r')
}

/// A character that a credential is made of: anything but white space,
/// quotes and the separators `& , ; | ) }`.
pub open spec fn is_secret_char(c: char) -> bool {
    !is_white_space(c) && c != '"' && c != '\'' && c != '&' && c != ',' && c != ';' && c != '|'
        && c != ')' && c != '}'
}

/// The end of the run of white space that starts at `k`.
pub open spec fn white_end(s: Seq<char>, k: int) -> int
    decreases s.len() - k,
{
    if 0 <= k < s.len() && is_white_space(s[k]) {
        white_end(s, k + 1)
    } else {
        k
    }
}

/// The end of the run of credential characters that starts at `k`.
pub open spec fn secret_end(s: Seq<char>, k: int) -> int
    decreases s.len() - k,
{
    if 0 <= k < s.len() && is_secret_char(s[k]) {
        secret_end(s, k + 1)
    } else {
        k
    }
}

/// At `j` stands a bearer token in the clear: the word `bearer` opening a
/// word, white space, then a credential that is not the mask.
pub open spec fn leaks_bearer_at(s: Seq<char>, j: int) -> bool {
    let a = white_end(s, j + 6);
    let b = secret_end(s, a);
    &&& word_opens_at(s, j)
    &&& bearer_at(s, j)
    &&& a > j + 6
    &&& b > a
    &&& s.subrange(a, b) != REDACTED_TEXT@
}

/// Some bearer token stands in the clear in `s`.
pub open spec fn leaks_bearer(s: Seq<char>) -> bool {
    exists|j: int| 0 <= j < s.len() && #[trigger] leaks_bearer_at(s, j)
}

/// Text with credentials masked: the four masking passes, and the whole
/// text masked should a bearer token still stand in the clear after them.
pub closed spec fn redacted(text: Seq<char>) -> Seq<char> {
    let masked = pattern_masked(text);
    if leaks_bearer(masked) {
        REDACTED_TEXT@
    } else {
        masked
    }
}

/// What redacted text is: the text after the four masking passes, or the
/// mask alone where a bearer token would still stand in the clear.
pub proof fn lemma_redacted_is_masked_text(text: Seq<char>)
    ensures
        redacted(text) == (if leaks_bearer(pattern_masked(text)) {
            REDACTED_TEXT@
        } else {
            pattern_masked(text)
        }),
{
}

fn white_end_of(s: &str, k: usize) -> (r: usize)
    requires
        k <= s@.len(),
    ensures
        r == white_end(s@, k as int),
        k <= r <= s@.len(),
    decreases s@.len() - k,
{
    if k < s.unicode_len() && white_space_char(s.get_char(k)) {
        white_end_of(s, k + 1)
    } else {
        k
    }
}

fn secret_char(c: char) -> (r: bool)
    ensures
        r == is_secret_char(c),
{
    !white_space_char(c) && c != '"' && c != '\'' && c != '&' && c != ',' && c != ';' && c != '|'
        && c != ')' && c != '}'
}

fn secret_end_of(s: &str, k: usize) -> (r: usize)
    requires
        k <= s@.len(),
    ensures
        r == secret_end(s@, k as int),
        k <= r <= s@.len(),
    decreases s@.len() - k,
{
    if k < s.unicode_len() && secret_char(s.get_char(k)) {
        secret_end_of(s, k + 1)
    } else {
        k
    }
}

fn ascii_word_char(c: char) -> (r: bool)
    ensures
        r == is_ascii_word_char(c),
{
    let v = c as u32;
    (48 <= v && v <= 57) || (65 <= v && v <= 90) || (97 <= v && v <= 122) || v == 95
}

fn letter(c: char, lower: char) -> (r: bool)
    requires
        97 <= lower as u32 <= 122,
    ensures
        r == letter_is(c, lower),
{
    c == lower || (c as u32) + 32 == (lower as u32)
}

fn leaks_bearer_at_exec(s: &str, j: usize) -> (r: bool)
    requires
        j < s@.len(),
    ensures
        r == leaks_bearer_at(s@, j as int),
{
    let n = s.unicode_len();
    if j > 0 {
        let p = s.get_char(j - 1);
        if (p as u32) >= 128 || ascii_word_char(p) {
            return false;
        }
    }
    if n - j < 6 {
        return false;
    }
    if !(letter(s.get_char(j), 'b') && letter(s.get_char(j + 1), 'e') && letter(
        s.get_char(j + 2),
        'a',
    ) && letter(s.get_char(j + 3), 'r') && letter(s.get_char(j + 4), 'e') && letter(
        s.get_char(j + 5),
        'r',
    )) {
        return false;
    }
    let a = white_end_of(s, j + 6);
    if a == j + 6 {
        return false;
    }
    let b = secret_end_of(s, a);
    if b == a {
        return false;
    }
    !str_eq(s.substring_char(a, b), REDACTED_TEXT)
}

/// Whether a bearer token stands in the clear in `s`.
pub fn leaks_bearer_token(s: &str) -> (r: bool)
    ensures
        r == leaks_bearer(s@),
{
    let n = s.unicode_len();
    let mut j: usize = 0;
    while j < n
        invariant
            n == s@.len(),
            0 <= j <= n,
            forall|k: int| 0 <= k < j ==> !#[trigger] leaks_bearer_at(s@, k),
        decreases n - j,
    {
        if leaks_bearer_at_exec(s, j) {
            return true;
        }
        j = j + 1;
    }
    false
}

/// The mask itself carries no bearer token.
proof fn lemma_mask_text_has_no_bearer()
    ensures
        !leaks_bearer(REDACTED_TEXT@),
{
    reveal_strlit("[REDACTED]");
    let m = REDACTED_TEXT@;
    assert forall|j: int| 0 <= j < m.len() implies !#[trigger] leaks_bearer_at(m, j) by {
        if bearer_at(m, j) {
            assert(letter_is(m[j], 'b'));
        }
    }
}

/// Redacted text never shows a bearer token in the clear: wherever the
/// word `bearer` opens a word and is followed by white space and a
/// credential, that credential is the mask.
pub proof fn lemma_redacted_shows_no_bearer_token(text: Seq<char>)
    ensures
        forall|j: int| 0 <= j < redacted(text).len() ==> !#[trigger] leaks_bearer_at(redacted(text), j),
{
    lemma_mask_text_has_no_bearer();
}

fn masked_by_patterns(text: &str) -> (r: String)
    ensures
        r@ == pattern_masked(text@),
{
    let step1 = match regex_replace_all(AUTHORIZATION_PATTERN, text, MASK_REPLACEMENT) {
        Some(t) => t,
        None => return String::from_str(REDACTED_TEXT),
    };
    let step2 = match regex_replace_all(BEARER_PATTERN, step1.as_str(), MASK_REPLACEMENT) {
        Some(t) => t,
        None => return String::from_str(REDACTED_TEXT),
    };
    let step3 = match regex_replace_all(FLAG_PATTERN, step2.as_str(), MASK_REPLACEMENT) {
        Some(t) => t,
        None => return String::from_str(REDACTED_TEXT),
    };
    match regex_replace_all(KEY_VALUE_PATTERN, step3.as_str(), MASK_REPLACEMENT) {
        Some(t) => t,
        None => String::from_str(REDACTED_TEXT),
    }
}

/// Masks the credentials that `text` carries.
pub fn redact_secrets(text: &str) -> (r: String)
    ensures
        r@ == redacted(text@),
        forall|j: int| 0 <= j < r@.len() ==> !#[trigger] leaks_bearer_at(r@, j),
{
    let masked = masked_by_patterns(text);
    proof {
        lemma_redacted_shows_no_bearer_token(text@);
    }
    if leaks_bearer_token(masked.as_str()) {
        String::from_str(REDACTED_TEXT)
    } else {
        masked
    }
}

/// The redacted form of optional text.
pub open spec fn redacted_opt(o: Option<String>) -> Option<Seq<char>> {
    match o {
        Some(s) => Some(redacted(s@)),
        None => None,
    }
}

pub fn redact_opt(o: &Option<String>) -> (r: Option<String>)
    ensures
        crate::strategy::worktree::opt_view(r) == redacted_opt(*o),
{
    match o {
        Some(s) => Some(redact_secrets(s.as_str())),
        None => None,
    }
}

} // verus!
