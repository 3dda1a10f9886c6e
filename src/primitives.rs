//! The cryptographic and random primitives that the signing core relies on,
//! each behind a small trusted wrapper over its outside crate.

use vstd::prelude::*;
use base64::Engine;
use ed25519_dalek::{Signer, SigningKey, Signature, Verifier, VerifyingKey};

verus! {

/// The text that URL-safe, unpadded base64 makes of a byte sequence.
pub uninterp spec fn base64_url_text(b: Seq<u8>) -> Seq<char>;

/// The BLAKE3 keyed hash of `data` under a 32-byte `key`.
pub uninterp spec fn blake3_keyed(key: Seq<u8>, data: Seq<u8>) -> Seq<u8>;

/// The Ed25519 signature of `msg` under the keypair derived from `seed`.
pub uninterp spec fn ed25519_signature(seed: Seq<u8>, msg: Seq<u8>) -> Seq<u8>;

/// The compressed public key of the keypair derived from `seed`.
pub uninterp spec fn ed25519_public(seed: Seq<u8>) -> Seq<u8>;

/// Whether 32 bytes are the compressed form of a point on the curve.
pub uninterp spec fn ed25519_point_valid(pk: Seq<u8>) -> bool;

/// Whether `sig` is accepted as a signature of `msg` under public key `pk`.
pub uninterp spec fn ed25519_accepts(pk: Seq<u8>, msg: Seq<u8>, sig: Seq<u8>) -> bool;

/// Characters of the URL-safe base64 alphabet.
pub open spec fn is_url_safe_char(c: char) -> bool {
    ('A' <= c && c <= 'Z') || ('a' <= c && c <= 'z') || ('0' <= c && c <= '9') || c == '-'
        || c == '_'
}

#[verifier::external_type_specification]
#[verifier::external_body]
pub struct ExDecodeError(base64::DecodeError);

#[verifier::external_type_specification]
#[verifier::external_body]
pub struct ExSignatureError(ed25519_dalek::SignatureError);

/// Relies on `base64::Engine::encode` with the `URL_SAFE_NO_PAD` engine: the
/// output uses the URL-safe alphabet only and carries no `=` padding, so each
/// full group of three bytes gives four characters and a trailing group of one
/// or two bytes gives two or three.
#[verifier::external_body]
pub(crate) fn base64_url_encode(b: &[u8]) -> (r: String)
    ensures
        r@ == base64_url_text(b@),
        r@.len() == (4 * b@.len() + 2) / 3,
        forall|i: int| 0 <= i < r@.len() ==> is_url_safe_char(#[trigger] r@[i]),
{
    base64::engine::general_purpose::URL_SAFE_NO_PAD.encode(b)
}

/// Relies on `base64::Engine::decode` with the `URL_SAFE_NO_PAD` engine, which
/// requires no padding and canonical trailing bits: it succeeds exactly on the
/// texts that the encoder produces, and gives back the bytes encoded. Every
/// character outside the URL-safe alphabet, `=` included, is refused.
#[verifier::external_body]
pub(crate) fn base64_url_decode(s: &str) -> (r: Result<Vec<u8>, base64::DecodeError>)
    ensures
        r is Ok ==> forall|i: int| 0 <= i < s@.len() ==> is_url_safe_char(#[trigger] s@[i]),
        r is Ok ==> base64_url_text(r->Ok_0@) == s@,
        forall|b: Seq<u8>| #[trigger] base64_url_text(b) == s@ ==> (r is Ok && r->Ok_0@ == b),
{
    base64::engine::general_purpose::URL_SAFE_NO_PAD.decode(s)
}

/// Relies on `blake3::keyed_hash`: 32 bytes determined by the key and input.
#[verifier::external_body]
pub(crate) fn blake3_keyed_hash(key: &[u8; 32], data: &[u8]) -> (r: [u8; 32])
    ensures
        r@ == blake3_keyed(key@, data@),
{
    *blake3::keyed_hash(key, data).as_bytes()
}

/// Relies on `ed25519_dalek::Signer::sign` for a `SigningKey` made by
/// `SigningKey::from_bytes`: deterministic signing, whose output the
/// keypair's public key accepts (the crate's documented round trip).
#[verifier::external_body]
pub(crate) fn ed25519_sign(seed: &[u8; 32], msg: &[u8]) -> (r: [u8; 64])
    ensures
        r@ == ed25519_signature(seed@, msg@),
        ed25519_accepts(ed25519_public(seed@), msg@, r@),
{
    SigningKey::from_bytes(seed).sign(msg).to_bytes()
}

/// Relies on `SigningKey::verifying_key` and `VerifyingKey::to_bytes`: the
/// compressed public key, which decompresses again since it encodes a point.
#[verifier::external_body]
pub(crate) fn ed25519_public_key(seed: &[u8; 32]) -> (r: [u8; 32])
    ensures
        r@ == ed25519_public(seed@),
        ed25519_point_valid(r@),
{
    SigningKey::from_bytes(seed).verifying_key().to_bytes()
}

/// Relies on `VerifyingKey::from_bytes`: it fails exactly on bytes that do
/// not decompress to a curve point.
#[verifier::external_body]
pub(crate) fn ed25519_check_public_key(pk: &[u8; 32]) -> (r: Result<(), ed25519_dalek::SignatureError>)
    ensures
        r is Ok <==> ed25519_point_valid(pk@),
{
    VerifyingKey::from_bytes(pk).map(|_| ())
}

/// Relies on `ed25519_dalek::Verifier::verify` for a `VerifyingKey`, with the
/// key rebuilt from bytes that are known to decompress.
#[verifier::external_body]
pub(crate) fn ed25519_verify(pk: &[u8; 32], msg: &[u8], sig: &[u8; 64]) -> (r: bool)
    requires
        ed25519_point_valid(pk@),
    ensures
        r == ed25519_accepts(pk@, msg@, sig@),
{
    match VerifyingKey::from_bytes(pk) {
        Ok(key) => key.verify(msg, &Signature::from_bytes(sig)).is_ok(),
        Err(_) => false,
    }
}

/// Relies on `SigningKey::generate` with the operating system's random
/// source: a fresh 32-byte seed, of which nothing can be promised.
#[verifier::external_body]
pub(crate) fn ed25519_fresh_seed() -> (r: [u8; 32]) {
    SigningKey::generate(&mut rand::rngs::OsRng).to_bytes()
}

/// Relies on `rand::Rng::gen_range` over the thread-local generator: a
/// value below `n`, which must be positive for the range to be non-empty.
#[verifier::external_body]
pub(crate) fn random_below(n: usize) -> (r: usize)
    requires
        n > 0,
    ensures
        r < n,
{
    rand::Rng::gen_range(&mut rand::thread_rng(), 0..n)
}

} // verus!
