//! BLAKE3 digests rendered as lowercase hexadecimal text.

use vstd::prelude::*;
use vstd::utf8::encode_utf8;

verus! {

/// The lowercase hexadecimal rendering of the BLAKE3 hash of `data`.
pub uninterp spec fn blake3_hex(data: Seq<u8>) -> Seq<char>;

pub open spec fn is_lower_hex_char(c: char) -> bool {
    ('0' as u32 <= c as u32 <= '9' as u32) || ('a' as u32 <= c as u32 <= 'f' as u32)
}

/// Hashes `data` with `blake3::hash` and renders the 32-byte digest with
/// `blake3::Hash::to_hex`. The contract claims that the result is
/// `blake3_hex(data)`, a function of the bytes alone, and that it is 64
/// lowercase hexadecimal characters, as `to_hex` documents.
#[verifier::external_body]
pub(crate) fn blake3_hex_digest(data: &[u8]) -> (r: String)
    ensures
        r@ == blake3_hex(data@),
        r@.len() == 64,
        forall|i: int| 0 <= i < r@.len() ==> is_lower_hex_char(#[trigger] r@[i]),
{
    blake3::hash(data).to_hex().to_string()
}

/// Text in the form of a digest: 64 lowercase hexadecimal characters.
pub open spec fn is_digest_text(s: Seq<char>) -> bool {
    s.len() == 64 && forall|i: int| 0 <= i < s.len() ==> is_lower_hex_char(#[trigger] s[i])
}

/// Digest text is never blank.
pub proof fn lemma_digest_text_not_blank(s: Seq<char>)
    requires
        is_digest_text(s),
    ensures
        !crate::text::is_blank(s),
{
    assert(is_lower_hex_char(s[0]));
    assert(!crate::text::is_white_space(s[0]));
}

/// The BLAKE3 digest of the UTF-8 encoding of `text`.
pub fn blake3_hex_of_str(text: &str) -> (r: String)
    ensures
        r@ == blake3_hex(encode_utf8(text@)),
        is_digest_text(r@),
{
    blake3_hex_digest(text.as_bytes())
}

} // verus!
