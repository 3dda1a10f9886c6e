//! The text-signing core: two signing algorithms behind a common set of
//! capabilities (sign, verify, load, generate), and the three entry points
//! that tie key material, algorithm and signature codec together.

use vstd::prelude::*;
use crate::codec::{all_url_safe, decode_signature, encode_signature, is_signature_text};
use crate::genpass::{charset, gen_password};
use crate::primitives::{
    base64_url_text, blake3_keyed, blake3_keyed_hash, ed25519_accepts, ed25519_check_public_key,
    ed25519_fresh_seed, ed25519_point_valid, ed25519_public, ed25519_public_key, ed25519_sign,
    ed25519_signature, ed25519_verify,
};

verus! {

/// Length in bytes of every key that the two algorithms use.
pub const KEY_LEN: usize = 32;

/// Length in bytes of a keyed-hash signature.
pub const KEYED_HASH_LEN: usize = 32;

/// Length in bytes of an Ed25519 signature.
pub const ED25519_SIGNATURE_LEN: usize = 64;

/// Length of the password that becomes a generated keyed-hash key.
pub const GENERATED_PASSWORD_LEN: u8 = 32;

/// The ways in which a signing operation can fail structurally. A signature
/// that does not match is no error: `verify` answers `false`.
#[derive(Clone, Copy, Debug, PartialEq, Eq, Structural)]
pub enum TextError {
    /// The key bytes are too short, or do not form a valid public key.
    KeyLoad,
    /// The signature bytes do not have the shape the algorithm expects.
    MalformedSignature,
    /// The signature text is not URL-safe unpadded base64.
    Encoding,
}

/// Which signing algorithm an operation uses.
#[derive(Clone, Copy, Debug, PartialEq, Eq, Structural)]
pub enum TextSignFormat {
    /// A BLAKE3 keyed hash under a 32-byte symmetric key.
    Blake3,
    /// Ed25519 signatures: a 32-byte seed signs, a 32-byte public key verifies.
    Ed25519,
}

/// Signs a fully buffered input.
pub trait TextSign {
    /// The signature that this signer makes of `data`.
    spec fn signature_of(&self, data: Seq<u8>) -> Seq<u8>;

    /// Whether the verifying counterpart of this signer's key accepts `sig`
    /// as a signature of `data`.
    spec fn counterpart_accepts(&self, data: Seq<u8>, sig: Seq<u8>) -> bool;

    /// The length in bytes of every signature this signer makes.
    spec fn signature_len() -> nat;

    fn sign(&self, data: &[u8]) -> (r: Vec<u8>)
        ensures
            r@ == self.signature_of(data@),
            r@.len() == Self::signature_len(),
            self.counterpart_accepts(data@, r@),
    ;
}

/// Checks a signature over a fully buffered input.
pub trait TextVerify {
    /// Whether signature bytes have the shape that this algorithm can check.
    spec fn well_shaped(sig: Seq<u8>) -> bool;

    /// Whether `sig` is a valid signature of `data` under this key.
    spec fn accepts(&self, data: Seq<u8>, sig: Seq<u8>) -> bool;

    fn verify(&self, data: &[u8], sig: &[u8]) -> (r: Result<bool, TextError>)
        ensures
            r is Ok <==> Self::well_shaped(sig@),
            r is Ok ==> r->Ok_0 == self.accepts(data@, sig@),
            r is Err ==> r->Err_0 == TextError::MalformedSignature,
    ;
}

/// Builds an algorithm instance from the bytes of a key source. Only the
/// first `KEY_LEN` bytes are used.
pub trait KeyLoader: Sized {
    /// Whether key source content is accepted.
    spec fn key_accepted(key: Seq<u8>) -> bool;

    /// The key bytes that the instance holds.
    spec fn key_bytes(&self) -> Seq<u8>;

    fn load(key: &[u8]) -> (r: Result<Self, TextError>)
        ensures
            r is Ok <==> Self::key_accepted(key@),
            r is Ok ==> r->Ok_0.key_bytes() == key@.take(KEY_LEN as int),
            r is Err ==> r->Err_0 == TextError::KeyLoad,
    ;
}

/// Produces fresh key material, as an ordered list of blobs.
pub trait KeyGenerator {
    /// What holds of every key set this generator produces.
    spec fn generated(keys: Seq<Vec<u8>>) -> bool;

    fn generate() -> (r: Vec<Vec<u8>>)
        ensures
            Self::generated(r@),
    ;
}

/// A signer and verifier by BLAKE3 keyed hash.
pub struct Blake3 {
    key: [u8; 32],
}

/// An Ed25519 signer, holding the 32-byte seed of its keypair.
pub struct Ed25519Signer {
    key: [u8; 32],
}

/// An Ed25519 verifier, holding a public key that is a valid curve point.
pub struct Ed25519Verifier {
    key: [u8; 32],
}

/// The first `KEY_LEN` bytes of key source content.
fn key_prefix(key: &[u8]) -> (r: [u8; 32])
    requires
        key@.len() >= KEY_LEN,
    ensures
        r@ == key@.take(KEY_LEN as int),
{
    let mut r: [u8; 32] = [0u8; 32];
    let mut i: usize = 0;
    while i < KEY_LEN
        invariant
            i <= KEY_LEN,
            key@.len() >= KEY_LEN,
            forall|j: int| 0 <= j < i ==> r@[j] == key@[j],
        decreases KEY_LEN - i,
    {
        r[i] = key[i];
        i = i + 1;
    }
    assert(r@ =~= key@.take(KEY_LEN as int));
    r
}

/// Signature bytes of exactly the Ed25519 length, as an array.
fn signature_array(sig: &[u8]) -> (r: [u8; 64])
    requires
        sig@.len() == ED25519_SIGNATURE_LEN,
    ensures
        r@ == sig@,
{
    let mut r: [u8; 64] = [0u8; 64];
    let mut i: usize = 0;
    while i < ED25519_SIGNATURE_LEN
        invariant
            i <= ED25519_SIGNATURE_LEN,
            sig@.len() == ED25519_SIGNATURE_LEN,
            forall|j: int| 0 <= j < i ==> r@[j] == sig@[j],
        decreases ED25519_SIGNATURE_LEN - i,
    {
        r[i] = sig[i];
        i = i + 1;
    }
    assert(r@ =~= sig@);
    r
}

/// Exact byte equality, lengths included.
fn bytes_equal(a: &[u8], b: &[u8]) -> (r: bool)
    ensures
        r == (a@ == b@),
{
    if a.len() != b.len() {
        return false;
    }
    let mut i: usize = 0;
    while i < a.len()
        invariant
            i <= a@.len(),
            a@.len() == b@.len(),
            forall|j: int| 0 <= j < i ==> a@[j] == b@[j],
        decreases a@.len() - i,
    {
        if a[i] != b[i] {
            return false;
        }
        i = i + 1;
    }
    assert(a@ =~= b@);
    true
}

impl Blake3 {
    pub fn new(key: [u8; 32]) -> (r: Self)
        ensures
            r.key_bytes() == key@,
    {
        Self { key }
    }

    /// Uses the first `KEY_LEN` bytes of `key`; shorter content is refused.
    pub fn try_new(key: &[u8]) -> (r: Result<Self, TextError>)
        ensures
            r is Ok <==> key@.len() >= KEY_LEN,
            r is Ok ==> r->Ok_0.key_bytes() == key@.take(KEY_LEN as int),
            r is Err ==> r->Err_0 == TextError::KeyLoad,
    {
        if key.len() < KEY_LEN {
            return Err(TextError::KeyLoad);
        }
        Ok(Blake3::new(key_prefix(key)))
    }
}

impl TextSign for Blake3 {
    open spec fn signature_of(&self, data: Seq<u8>) -> Seq<u8> {
        blake3_keyed(self.key_bytes(), data)
    }

    open spec fn counterpart_accepts(&self, data: Seq<u8>, sig: Seq<u8>) -> bool {
        &&& sig.len() == KEYED_HASH_LEN
        &&& sig == blake3_keyed(self.key_bytes(), data)
    }

    open spec fn signature_len() -> nat {
        KEYED_HASH_LEN as nat
    }

    fn sign(&self, data: &[u8]) -> (r: Vec<u8>) {
        let hash = blake3_keyed_hash(&self.key, data);
        vstd::slice::slice_to_vec(&hash)
    }
}

impl TextVerify for Blake3 {
    open spec fn well_shaped(sig: Seq<u8>) -> bool {
        true
    }

    /// A signature of another length than the hash's is a mismatch, not an
    /// error.
    open spec fn accepts(&self, data: Seq<u8>, sig: Seq<u8>) -> bool {
        &&& sig.len() == KEYED_HASH_LEN
        &&& sig == blake3_keyed(self.key_bytes(), data)
    }

    fn verify(&self, data: &[u8], sig: &[u8]) -> (r: Result<bool, TextError>) {
        let hash = blake3_keyed_hash(&self.key, data);
        Ok(bytes_equal(&hash, sig))
    }
}

impl KeyLoader for Blake3 {
    open spec fn key_accepted(key: Seq<u8>) -> bool {
        key.len() >= KEY_LEN
    }

    closed spec fn key_bytes(&self) -> Seq<u8> {
        self.key@
    }

    fn load(key: &[u8]) -> (r: Result<Self, TextError>) {
        Self::try_new(key)
    }
}

impl KeyGenerator for Blake3 {
    open spec fn generated(keys: Seq<Vec<u8>>) -> bool {
        &&& keys.len() == 1
        &&& keys[0]@.len() == GENERATED_PASSWORD_LEN
        &&& forall|i: int|
            0 <= i < keys[0]@.len() ==> charset(true, true, true, true).contains(
                #[trigger] keys[0]@[i],
            )
    }

    /// Draws a password from every character class and makes it the key.
    fn generate() -> (r: Vec<Vec<u8>>) {
        let key = gen_password(GENERATED_PASSWORD_LEN, true, true, true, true);
        let key = match key {
            Ok(k) => k,
            Err(_) => {
                // unreachable: with every class selected there is always a character to draw
                proof {
                    assert(charset(true, true, true, true).len() > 0);
                }
                Vec::new()
            },
        };
        blake3_key_set(key)
    }
}

/// The key set of the keyed hash made from a password: its bytes, as the one
/// blob.
pub fn blake3_key_set(password: Vec<u8>) -> (r: Vec<Vec<u8>>)
    ensures
        r@.len() == 1,
        r@[0]@ == password@,
{
    let mut keys: Vec<Vec<u8>> = Vec::new();
    keys.push(password);
    keys
}

/// The Ed25519 key set made from a seed: the seed, then its public key.
pub fn ed25519_key_set(seed: &[u8; 32]) -> (r: Vec<Vec<u8>>)
    ensures
        r@.len() == 2,
        r@[0]@ == seed@,
        r@[1]@ == ed25519_public(seed@),
        r@[1]@.len() == KEY_LEN,
        ed25519_point_valid(r@[1]@),
{
    let public = ed25519_public_key(seed);
    let mut keys: Vec<Vec<u8>> = Vec::new();
    keys.push(vstd::slice::slice_to_vec(seed));
    keys.push(vstd::slice::slice_to_vec(&public));
    keys
}

impl Ed25519Signer {
    pub fn new(key: &[u8; 32]) -> (r: Self)
        ensures
            r.key_bytes() == key@,
    {
        Self { key: *key }
    }

    /// Uses the first `KEY_LEN` bytes of `key` as the seed; shorter content
    /// is refused.
    pub fn try_new(key: &[u8]) -> (r: Result<Self, TextError>)
        ensures
            r is Ok <==> key@.len() >= KEY_LEN,
            r is Ok ==> r->Ok_0.key_bytes() == key@.take(KEY_LEN as int),
            r is Err ==> r->Err_0 == TextError::KeyLoad,
    {
        if key.len() < KEY_LEN {
            return Err(TextError::KeyLoad);
        }
        let seed = key_prefix(key);
        Ok(Ed25519Signer::new(&seed))
    }
}

impl TextSign for Ed25519Signer {
    open spec fn signature_of(&self, data: Seq<u8>) -> Seq<u8> {
        ed25519_signature(self.key_bytes(), data)
    }

    open spec fn counterpart_accepts(&self, data: Seq<u8>, sig: Seq<u8>) -> bool {
        &&& sig.len() == ED25519_SIGNATURE_LEN
        &&& ed25519_accepts(ed25519_public(self.key_bytes()), data, sig)
    }

    open spec fn signature_len() -> nat {
        ED25519_SIGNATURE_LEN as nat
    }

    fn sign(&self, data: &[u8]) -> (r: Vec<u8>) {
        let sig = ed25519_sign(&self.key, data);
        vstd::slice::slice_to_vec(&sig)
    }
}

impl KeyLoader for Ed25519Signer {
    open spec fn key_accepted(key: Seq<u8>) -> bool {
        key.len() >= KEY_LEN
    }

    closed spec fn key_bytes(&self) -> Seq<u8> {
        self.key@
    }

    fn load(key: &[u8]) -> (r: Result<Self, TextError>) {
        Self::try_new(key)
    }
}

impl KeyGenerator for Ed25519Signer {
    open spec fn generated(keys: Seq<Vec<u8>>) -> bool {
        &&& keys.len() == 2
        &&& keys[0]@.len() == KEY_LEN
        &&& keys[1]@ == ed25519_public(keys[0]@)
        &&& keys[1]@.len() == KEY_LEN
        &&& ed25519_point_valid(keys[1]@)
    }

    /// Draws a fresh seed and derives its public key: secret first, then public.
    fn generate() -> (r: Vec<Vec<u8>>) {
        let seed = ed25519_fresh_seed();
        ed25519_key_set(&seed)
    }
}

impl Ed25519Verifier {
    #[verifier::type_invariant]
    spec fn valid_point(&self) -> bool {
        ed25519_point_valid(self.key@)
    }

    /// Uses the first `KEY_LEN` bytes of `key` as the public key; shorter
    /// content, or bytes that are not a valid curve point, are refused.
    pub fn try_new(key: &[u8]) -> (r: Result<Self, TextError>)
        ensures
            r is Ok <==> (key@.len() >= KEY_LEN && ed25519_point_valid(key@.take(KEY_LEN as int))),
            r is Ok ==> r->Ok_0.key_bytes() == key@.take(KEY_LEN as int),
            r is Err ==> r->Err_0 == TextError::KeyLoad,
    {
        if key.len() < KEY_LEN {
            return Err(TextError::KeyLoad);
        }
        let public = key_prefix(key);
        match ed25519_check_public_key(&public) {
            Ok(()) => Ok(Ed25519Verifier { key: public }),
            Err(_) => Err(TextError::KeyLoad),
        }
    }
}

impl TextVerify for Ed25519Verifier {
    open spec fn well_shaped(sig: Seq<u8>) -> bool {
        sig.len() == ED25519_SIGNATURE_LEN
    }

    open spec fn accepts(&self, data: Seq<u8>, sig: Seq<u8>) -> bool {
        ed25519_accepts(self.key_bytes(), data, sig)
    }

    fn verify(&self, data: &[u8], sig: &[u8]) -> (r: Result<bool, TextError>) {
        if sig.len() != ED25519_SIGNATURE_LEN {
            return Err(TextError::MalformedSignature);
        }
        proof {
            use_type_invariant(self);
        }
        let sig = signature_array(sig);
        Ok(ed25519_verify(&self.key, data, &sig))
    }
}

impl KeyLoader for Ed25519Verifier {
    open spec fn key_accepted(key: Seq<u8>) -> bool {
        key.len() >= KEY_LEN && ed25519_point_valid(key.take(KEY_LEN as int))
    }

    closed spec fn key_bytes(&self) -> Seq<u8> {
        self.key@
    }

    fn load(key: &[u8]) -> (r: Result<Self, TextError>) {
        Self::try_new(key)
    }
}

/// The raw signature that `format` makes of `data` under key source content
/// `key` (of which the first `KEY_LEN` bytes count).
pub open spec fn signed_bytes(format: TextSignFormat, key: Seq<u8>, data: Seq<u8>) -> Seq<u8> {
    match format {
        TextSignFormat::Blake3 => blake3_keyed(key.take(KEY_LEN as int), data),
        TextSignFormat::Ed25519 => ed25519_signature(key.take(KEY_LEN as int), data),
    }
}

/// The length in bytes of the raw signatures that `format` makes.
pub open spec fn signature_len(format: TextSignFormat) -> nat {
    match format {
        TextSignFormat::Blake3 => KEYED_HASH_LEN as nat,
        TextSignFormat::Ed25519 => ED25519_SIGNATURE_LEN as nat,
    }
}

/// Whether key source content loads as a verifying key for `format`.
pub open spec fn verify_key_accepted(format: TextSignFormat, key: Seq<u8>) -> bool {
    &&& key.len() >= KEY_LEN
    &&& (format == TextSignFormat::Ed25519 ==> ed25519_point_valid(key.take(KEY_LEN as int)))
}

/// What verifying raw signature bytes `sig` over `data` gives, once the key
/// has loaded.
pub open spec fn verify_bytes(format: TextSignFormat, key: Seq<u8>, data: Seq<u8>, sig: Seq<u8>) -> Result<bool, TextError> {
    match format {
        TextSignFormat::Blake3 => Ok(
            sig.len() == KEYED_HASH_LEN && sig == blake3_keyed(key.take(KEY_LEN as int), data),
        ),
        TextSignFormat::Ed25519 => if sig.len() == ED25519_SIGNATURE_LEN {
            Ok(ed25519_accepts(key.take(KEY_LEN as int), data, sig))
        } else {
            Err(TextError::MalformedSignature)
        },
    }
}

/// Whether `public` holds the verifying counterpart of signing key `secret`:
/// the same key for the keyed hash, the derived public key for Ed25519.
pub open spec fn counterpart(format: TextSignFormat, secret: Seq<u8>, public: Seq<u8>) -> bool {
    match format {
        TextSignFormat::Blake3 => public.take(KEY_LEN as int) == secret.take(KEY_LEN as int),
        TextSignFormat::Ed25519 => public.take(KEY_LEN as int) == ed25519_public(
            secret.take(KEY_LEN as int),
        ),
    }
}

/// Signs `data` with the key loaded from key source content `key`, and
/// renders the signature as text. Any verifying counterpart of the key
/// accepts the signature.
pub fn process_text_sign(data: &[u8], key: &[u8], format: TextSignFormat) -> (r: Result<String, TextError>)
    ensures
        r is Ok <==> key@.len() >= KEY_LEN,
        r is Ok ==> r->Ok_0@ == base64_url_text(signed_bytes(format, key@, data@)),
        r is Ok ==> signed_bytes(format, key@, data@).len() == signature_len(format),
        r is Ok ==> r->Ok_0@.len() == (4 * signature_len(format) + 2) / 3,
        r is Ok ==> all_url_safe(r->Ok_0@),
        r is Ok ==> forall|public: Seq<u8>|
            #[trigger] counterpart(format, key@, public) && verify_key_accepted(format, public)
                ==> verify_bytes(format, public, data@, signed_bytes(format, key@, data@)) == Ok::<bool, TextError>(true),
        r is Err ==> r->Err_0 == TextError::KeyLoad,
{
    let sig = match format {
        TextSignFormat::Blake3 => {
            let signer = match Blake3::load(key) {
                Ok(s) => s,
                Err(e) => return Err(e),
            };
            signer.sign(data)
        },
        TextSignFormat::Ed25519 => {
            let signer = match Ed25519Signer::load(key) {
                Ok(s) => s,
                Err(e) => return Err(e),
            };
            signer.sign(data)
        },
    };
    Ok(encode_signature(&sig))
}

/// Checks signature text against `data` under the verifying key loaded from
/// key source content `key`. The key loads first, then the text decodes; a
/// signature that does not match gives `Ok(false)`.
pub fn process_text_verify(data: &[u8], key: &[u8], format: TextSignFormat, sig: &str) -> (r: Result<bool, TextError>)
    ensures
        !verify_key_accepted(format, key@) ==> r == Err::<bool, TextError>(TextError::KeyLoad),
        verify_key_accepted(format, key@) && !is_signature_text(sig@) ==> r == Err::<bool, TextError>(
            TextError::Encoding,
        ),
        verify_key_accepted(format, key@) && !all_url_safe(sig@) ==> r == Err::<bool, TextError>(
            TextError::Encoding,
        ),
        verify_key_accepted(format, key@) ==> forall|b: Seq<u8>|
            #[trigger] base64_url_text(b) == sig@ ==> r == verify_bytes(format, key@, data@, b),
{
    match format {
        TextSignFormat::Blake3 => {
            let verifier = match Blake3::load(key) {
                Ok(v) => v,
                Err(e) => return Err(e),
            };
            let sig = match decode_signature(sig) {
                Ok(s) => s,
                Err(e) => return Err(e),
            };
            verifier.verify(data, &sig)
        },
        TextSignFormat::Ed25519 => {
            let verifier = match Ed25519Verifier::load(key) {
                Ok(v) => v,
                Err(e) => return Err(e),
            };
            let sig = match decode_signature(sig) {
                Ok(s) => s,
                Err(e) => return Err(e),
            };
            verifier.verify(data, &sig)
        },
    }
}

/// Fresh key material for `format`: one keyed-hash key, or an Ed25519 seed
/// followed by its public key.
pub fn process_generate(format: TextSignFormat) -> (r: Vec<Vec<u8>>)
    ensures
        format == TextSignFormat::Blake3 ==> Blake3::generated(r@),
        format == TextSignFormat::Ed25519 ==> Ed25519Signer::generated(r@),
{
    match format {
        TextSignFormat::Blake3 => Blake3::generate(),
        TextSignFormat::Ed25519 => Ed25519Signer::generate(),
    }
}

/// A signature that a keyed-hash signer returned (one its counterpart accepts,
/// as `sign` ensures) verifies under the same key, whatever the data, empty
/// data included.
pub proof fn lemma_blake3_sign_verify(signer: Blake3, verifier: Blake3, data: Seq<u8>, sig: Seq<u8>)
    requires
        signer.counterpart_accepts(data, sig),
        verifier.key_bytes() == signer.key_bytes(),
    ensures
        Blake3::well_shaped(sig),
        verifier.accepts(data, sig),
{
}

/// A signature that an Ed25519 signer returned (one its counterpart accepts,
/// as `sign` ensures) verifies under the signer's derived public key.
pub proof fn lemma_ed25519_sign_verify(
    signer: Ed25519Signer,
    verifier: Ed25519Verifier,
    data: Seq<u8>,
    sig: Seq<u8>,
)
    requires
        signer.counterpart_accepts(data, sig),
        verifier.key_bytes() == ed25519_public(signer.key_bytes()),
    ensures
        Ed25519Verifier::well_shaped(sig),
        verifier.accepts(data, sig),
{
}

/// A generated keyed-hash key set is one blob of `GENERATED_PASSWORD_LEN`
/// bytes, which loads as a key.
pub proof fn lemma_blake3_generated_keys(keys: Seq<Vec<u8>>)
    requires
        Blake3::generated(keys),
    ensures
        keys.len() == 1,
        keys[0]@.len() == GENERATED_PASSWORD_LEN,
        GENERATED_PASSWORD_LEN > 0,
        Blake3::key_accepted(keys[0]@),
        counterpart(TextSignFormat::Blake3, keys[0]@, keys[0]@),
{
}

/// A generated Ed25519 key set is two blobs of `KEY_LEN` bytes, secret then
/// public: the first loads as a signer, the second as a verifier, and the
/// second is the public key derived from the first.
pub proof fn lemma_ed25519_generated_keys(keys: Seq<Vec<u8>>)
    requires
        Ed25519Signer::generated(keys),
    ensures
        keys.len() == 2,
        keys[0]@.len() == KEY_LEN,
        keys[1]@.len() == KEY_LEN,
        keys[1]@ == ed25519_public(keys[0]@),
        Ed25519Signer::key_accepted(keys[0]@),
        Ed25519Verifier::key_accepted(keys[1]@),
        counterpart(TextSignFormat::Ed25519, keys[0]@, keys[1]@),
        verify_key_accepted(TextSignFormat::Ed25519, keys[1]@),
{
    assert(keys[0]@.take(KEY_LEN as int) =~= keys[0]@);
    assert(keys[1]@.take(KEY_LEN as int) =~= keys[1]@);
}

} // verus!
