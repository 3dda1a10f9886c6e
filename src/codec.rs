//! The textual form of signatures: URL-safe base64 without padding.

use vstd::prelude::*;
use crate::primitives::{base64_url_decode, base64_url_encode, base64_url_text, is_url_safe_char};
use crate::text::TextError;

verus! {

/// Whether `text` is what the codec makes of some byte sequence.
pub open spec fn is_signature_text(text: Seq<char>) -> bool {
    exists|b: Seq<u8>| #[trigger] base64_url_text(b) == text
}

/// Whether every character of `text` is in the URL-safe base64 alphabet.
pub open spec fn all_url_safe(text: Seq<char>) -> bool {
    forall|i: int| 0 <= i < text.len() ==> is_url_safe_char(#[trigger] text[i])
}

/// Renders signature bytes as URL-safe base64 text without padding.
pub fn encode_signature(sig: &[u8]) -> (r: String)
    ensures
        r@ == base64_url_text(sig@),
        r@.len() == (4 * sig@.len() + 2) / 3,
        forall|i: int| 0 <= i < r@.len() ==> is_url_safe_char(#[trigger] r@[i]),
        forall|i: int| 0 <= i < r@.len() ==> #[trigger] r@[i] != '=',
{
    let r = base64_url_encode(sig);
    assert forall|i: int| 0 <= i < r@.len() implies #[trigger] r@[i] != '=' by {
        assert(is_url_safe_char(r@[i]));
    }
    r
}

/// Parses signature text; fails with `Encoding` when the text is not what the
/// codec makes of any byte sequence, which is so of every text holding a
/// character outside the URL-safe alphabet.
pub fn decode_signature(text: &str) -> (r: Result<Vec<u8>, TextError>)
    ensures
        r is Ok <==> is_signature_text(text@),
        !all_url_safe(text@) ==> r == Err::<Vec<u8>, TextError>(TextError::Encoding),
        r is Ok ==> base64_url_text(r->Ok_0@) == text@,
        forall|b: Seq<u8>| #[trigger] base64_url_text(b) == text@ ==> (r is Ok && r->Ok_0@ == b),
        r is Err ==> r->Err_0 == TextError::Encoding,
{
    match base64_url_decode(text) {
        Ok(b) => Ok(b),
        Err(_) => Err(TextError::Encoding),
    }
}

} // verus!
