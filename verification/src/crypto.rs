//! Hashes, keys, encodings and random bytes, from the crates that provide them.

use base64::Engine;
use ed25519_dalek::Verifier;
use rand::Rng;
use sha2::Digest;
use vstd::prelude::*;

verus! {

/// The SHA-256 digest of some bytes.
pub uninterp spec fn sha256(data: Seq<u8>) -> Seq<u8>;

/// `sha2::Sha256`: the digest of the data, which has 32 bytes.
#[verifier::external_body]
pub(crate) fn sha256_digest(data: &[u8]) -> (res: Vec<u8>)
    ensures
        res@ == sha256(data@),
        res@.len() == 32,
{
    let mut hasher = sha2::Sha256::new();
    hasher.update(data);
    hasher.finalize().to_vec()
}

/// What a text decodes to in padded standard base64, if it is that.
pub uninterp spec fn base64_decoded(text: Seq<char>) -> Option<Seq<u8>>;

/// Some bytes in padded standard base64.
pub uninterp spec fn base64_encoded(data: Seq<u8>) -> Seq<char>;

/// The bytes by their model.
pub open spec fn opt_bytes(b: Option<Vec<u8>>) -> Option<Seq<u8>> {
    match b {
        Some(v) => Some(v@),
        None => None,
    }
}

/// `base64`'s `STANDARD.decode`: the bytes that the text encodes, or nothing
/// where it is not canonical padded base64.
#[verifier::external_body]
pub(crate) fn base64_decode(text: &str) -> (res: Option<Vec<u8>>)
    ensures
        opt_bytes(res) == base64_decoded(text@),
{
    base64::engine::general_purpose::STANDARD.decode(text).ok()
}

/// `base64`'s `STANDARD.encode`: the bytes in base64, which decodes to them
/// again. It panics where the encoding's size does not fit in memory.
#[verifier::external_body]
pub(crate) fn base64_encode(data: &[u8]) -> (res: String)
    requires
        data@.len() <= usize::MAX / 4,
    ensures
        res@ == base64_encoded(data@),
        base64_decoded(res@) == Some(data@),
{
    base64::engine::general_purpose::STANDARD.encode(data)
}

/// Whether 32 bytes are an Ed25519 public key.
pub uninterp spec fn ed25519_key(key: Seq<u8>) -> bool;

/// Whether a signature on a message is one that a public key accepts.
pub uninterp spec fn ed25519_accepts(key: Seq<u8>, message: Seq<u8>, signature: Seq<u8>) -> bool;

/// The public key that belongs to a secret key.
pub uninterp spec fn ed25519_public(secret: Seq<u8>) -> Seq<u8>;

/// `ed25519_dalek::VerifyingKey::from_bytes`: whether the bytes are a public key.
#[verifier::external_body]
pub(crate) fn ed25519_is_key(key: &[u8]) -> (res: bool)
    requires
        key@.len() == 32,
    ensures
        res == ed25519_key(key@),
{
    ed25519_dalek::VerifyingKey::from_bytes(key.try_into().unwrap()).is_ok()
}

/// `ed25519_dalek::VerifyingKey::verify`: whether the public key accepts the
/// signature on the message.
#[verifier::external_body]
pub(crate) fn ed25519_verify(key: &[u8], message: &[u8], signature: &[u8]) -> (res: bool)
    requires
        key@.len() == 32,
        signature@.len() == 64,
        ed25519_key(key@),
    ensures
        res == ed25519_accepts(key@, message@, signature@),
{
    let signature = ed25519_dalek::Signature::from_bytes(signature.try_into().unwrap());
    ed25519_dalek::VerifyingKey::from_bytes(key.try_into().unwrap())
        .unwrap()
        .verify(message, &signature)
        .is_ok()
}

/// `ed25519_dalek::SigningKey::generate` with the thread's random numbers: the
/// 32 bytes of a new secret key. They are random: nothing else is claimed.
#[verifier::external_body]
pub(crate) fn ed25519_new_secret() -> (res: Vec<u8>)
    ensures
        res@.len() == 32,
{
    ed25519_dalek::SigningKey::generate(&mut rand::thread_rng()).to_bytes().to_vec()
}

/// `ed25519_dalek::SigningKey::verifying_key`: the 32 bytes of the public key.
#[verifier::external_body]
pub(crate) fn ed25519_public_key(secret: &[u8]) -> (res: Vec<u8>)
    requires
        secret@.len() == 32,
    ensures
        res@ == ed25519_public(secret@),
        res@.len() == 32,
{
    let signing_key = ed25519_dalek::SigningKey::from_bytes(secret.try_into().unwrap());
    signing_key.verifying_key().to_bytes().to_vec()
}

/// `rand::Rng::fill` on 32 bytes, with the thread's random numbers. They are
/// random: nothing but their number is claimed.
#[verifier::external_body]
pub(crate) fn random_32_bytes() -> (res: Vec<u8>)
    ensures
        res@.len() == 32,
{
    let mut bytes = [0u8; 32];
    rand::thread_rng().fill(&mut bytes);
    bytes.to_vec()
}

/// The digit characters of a lowercase hexadecimal number.
pub open spec fn hex_char(c: char) -> bool {
    '0' <= c <= '9' || 'a' <= c <= 'f'
}

/// `uuid::Uuid::new_v4` in its hyphenated form: 36 characters, hyphens and
/// lowercase hexadecimal digits. Which digits is random.
#[verifier::external_body]
pub(crate) fn new_uuid() -> (res: String)
    ensures
        res@.len() == 36,
        forall|i: int| 0 <= i < 36 ==> (#[trigger] res@[i] == '-' || hex_char(res@[i])),
{
    uuid::Uuid::new_v4().to_string()
}

} // verus!
