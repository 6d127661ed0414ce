//! Hybrid signatures: a classical Ed25519 signature next to a post-quantum one.
//!
//! The Ed25519 half is made and checked here with ring. A hybrid signature
//! is the classical signature followed by the post-quantum one, and it is
//! accepted only when both halves are.
use ring::rand::SecureRandom;
use ring::rand::SystemRandom;
use ring::signature::Ed25519KeyPair;
use ring::signature::KeyPair;
use vstd::prelude::*;
use crate::bytes::join_bytes;
use crate::bytes::hex_spec;
use crate::bytes::lemma_hex_len;
use crate::bytes::to_hex;

verus! {

#[verifier::external_type_specification]
#[verifier::external_body]
pub struct ExSystemRandom(SystemRandom);

/// Size of an Ed25519 seed in bytes.
pub const ED25519_SEED_BYTES: usize = 32;

/// Size of an Ed25519 public key in bytes.
pub const ED25519_PUBLIC_KEY_BYTES: usize = 32;

/// Size of an Ed25519 signature in bytes.
pub const ED25519_SIGNATURE_BYTES: usize = 64;

/// Whether ring's Ed25519 verification accepts `signature` on `data` under
/// `public_key`.
pub uninterp spec fn ed25519_accepts(public_key: Seq<u8>, data: Seq<u8>, signature: Seq<u8>) -> bool;

/// Relies on SystemRandom::new: a handle on the operating system's generator.
pub assume_specification[ SystemRandom::new ]() -> SystemRandom;

/// Relies on SecureRandom::fill of SystemRandom: the buffer is overwritten in
/// place with random bytes, or the call reports failure.
#[verifier::external_body]
fn fill_random(rng: &SystemRandom, buf: &mut Vec<u8>) -> (ok: bool)
    ensures
        final(buf)@.len() == old(buf)@.len(),
{
    rng.fill(buf.as_mut_slice()).is_ok()
}

/// The Ed25519 public key of the key pair that a 32-byte seed gives.
pub uninterp spec fn ed25519_public_of(seed: Seq<u8>) -> Seq<u8>;

/// The Ed25519 signature on `data` by the key pair that a 32-byte seed gives.
pub uninterp spec fn ed25519_signature_of(seed: Seq<u8>, data: Seq<u8>) -> Seq<u8>;

/// Relies on Ed25519KeyPair::sign: a 64-byte Ed25519 signature, which depends
/// on the seed and the data alone. The key pair is made with
/// Ed25519KeyPair::from_seed_unchecked, which accepts every 32-byte seed.
#[verifier::external_body]
fn sign_classically(data: &[u8], seed: &[u8]) -> (r: Vec<u8>)
    requires
        seed@.len() == ED25519_SEED_BYTES,
    ensures
        r@ == ed25519_signature_of(seed@, data@),
        r@.len() == ED25519_SIGNATURE_BYTES,
{
    let private_key = Ed25519KeyPair::from_seed_unchecked(seed).unwrap();
    private_key.sign(data).as_ref().to_vec()
}

/// Relies on KeyPair::public_key of Ed25519KeyPair: the 32-byte public key,
/// which depends on the seed alone. The key pair is made with
/// Ed25519KeyPair::from_seed_unchecked, which accepts every 32-byte seed.
#[verifier::external_body]
fn ed25519_public_key(seed: &[u8]) -> (r: Vec<u8>)
    requires
        seed@.len() == ED25519_SEED_BYTES,
    ensures
        r@ == ed25519_public_of(seed@),
        r@.len() == ED25519_PUBLIC_KEY_BYTES,
{
    let key_pair = Ed25519KeyPair::from_seed_unchecked(seed).unwrap();
    key_pair.public_key().as_ref().to_vec()
}

/// Relies on ring's UnparsedPublicKey::verify with ED25519: whether the
/// signature holds, which depends on the three byte strings alone.
#[verifier::external_body]
fn verify_classically(data: &[u8], signature: &[u8], public_key: &[u8]) -> (r: bool)
    ensures
        r == ed25519_accepts(public_key@, data@, signature@),
{
    ring::signature::UnparsedPublicKey::new(&ring::signature::ED25519, public_key).verify(
        data,
        signature,
    ).is_ok()
}

/// The classical half of a hybrid signature and whether it checks out.
pub struct ClassicalSignature {
    pub public_key: Vec<u8>,
    pub signature: Vec<u8>,
    pub valid: bool,
}

/// Signs `data` with the Ed25519 key pair that `seed` gives, and checks the
/// signature.
pub fn classical_from_seed(seed: &[u8], data: &[u8]) -> (r: ClassicalSignature)
    requires
        seed@.len() == ED25519_SEED_BYTES,
    ensures
        r.public_key@ == ed25519_public_of(seed@),
        r.signature@ == ed25519_signature_of(seed@, data@),
        r.public_key@.len() == ED25519_PUBLIC_KEY_BYTES,
        r.signature@.len() == ED25519_SIGNATURE_BYTES,
        r.valid == ed25519_accepts(r.public_key@, data@, r.signature@),
{
    let signature = sign_classically(data, seed);
    let public_key = ed25519_public_key(seed);
    let valid = verify_classically(data, signature.as_slice(), public_key.as_slice());
    ClassicalSignature { public_key, signature, valid }
}

/// Signs `data` with an Ed25519 key pair made from a fresh random seed, and
/// checks the signature. `None` when the system's generator fails.
pub fn classical_sign_and_verify(data: &[u8]) -> (r: Option<ClassicalSignature>)
    ensures
        r matches Some(c) ==> {
            &&& exists|seed: Seq<u8>|
                #![trigger ed25519_public_of(seed)]
                seed.len() == ED25519_SEED_BYTES && c.public_key@ == ed25519_public_of(seed)
                    && c.signature@ == ed25519_signature_of(seed, data@)
            &&& c.public_key@.len() == ED25519_PUBLIC_KEY_BYTES
            &&& c.signature@.len() == ED25519_SIGNATURE_BYTES
            &&& c.valid == ed25519_accepts(c.public_key@, data@, c.signature@)
        },
{
    let rng = SystemRandom::new();
    let mut seed: Vec<u8> = vec![0u8; ED25519_SEED_BYTES];
    if !fill_random(&rng, &mut seed) {
        return None;
    }
    let c = classical_from_seed(seed.as_slice(), data);
    assert(ed25519_public_of(seed@) == c.public_key@);
    Some(c)
}

/// Checks the classical half of a hybrid signature.
pub fn classical_valid(data: &[u8], signature: &[u8], public_key: &[u8]) -> (r: bool)
    ensures
        r == ed25519_accepts(public_key@, data@, signature@),
{
    verify_classically(data, signature, public_key)
}

/// The hybrid signature: the classical signature followed by the
/// post-quantum one.
pub fn hybrid_signature(classic: &[u8], pqc: &[u8]) -> (r: Vec<u8>)
    requires
        classic@.len() + pqc@.len() <= usize::MAX,
    ensures
        r@ == classic@ + pqc@,
{
    join_bytes(classic, pqc)
}

/// The hybrid signature in lower-case hex.
pub fn hybrid_signature_hex(classic: &[u8], pqc: &[u8]) -> (r: String)
    requires
        classic@.len() + pqc@.len() <= usize::MAX,
    ensures
        r@ == hex_spec(classic@ + pqc@),
        r@.len() == 2 * (classic@.len() + pqc@.len()),
{
    let joined = hybrid_signature(classic, pqc);
    proof {
        lemma_hex_len(classic@ + pqc@);
    }
    to_hex(joined.as_slice())
}

/// A hybrid signature is accepted only when both halves are.
pub fn hybrid_valid(classic_valid: bool, pqc_valid: bool) -> (r: bool)
    ensures
        r == (classic_valid && pqc_valid),
{
    classic_valid && pqc_valid
}

} // verus!
