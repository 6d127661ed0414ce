//! Key encapsulation with NTRU-HRSS-701 and FrodoKEM-976-AES.
//!
//! The encapsulation itself is done by the pqcrypto crates; this module
//! validates stored key bytes, turns keys and secrets into plain bytes, and
//! reports whether the sender's and the receiver's shared secrets agree.
use pqcrypto_frodo::frodokem976aes;
use pqcrypto_ntru::ntruhrss701;
use pqcrypto_traits::kem::Ciphertext as KemCiphertext;
use pqcrypto_traits::kem::PublicKey as KemPublicKey;
use pqcrypto_traits::kem::SecretKey as KemSecretKey;
use pqcrypto_traits::kem::SharedSecret as KemSharedSecret;
use vstd::prelude::*;
use vstd::slice::slice_to_vec;
use crate::bytes::bytes_equal;

verus! {

#[verifier::external_type_specification]
#[verifier::external_body]
pub struct ExNtruPublicKey(ntruhrss701::PublicKey);

#[verifier::external_type_specification]
#[verifier::external_body]
pub struct ExNtruSecretKey(ntruhrss701::SecretKey);

#[verifier::external_type_specification]
#[verifier::external_body]
pub struct ExNtruCiphertext(ntruhrss701::Ciphertext);

#[verifier::external_type_specification]
#[verifier::external_body]
pub struct ExNtruSharedSecret(ntruhrss701::SharedSecret);

#[verifier::external_type_specification]
#[verifier::external_body]
pub struct ExFrodoPublicKey(frodokem976aes::PublicKey);

#[verifier::external_type_specification]
#[verifier::external_body]
pub struct ExFrodoSecretKey(frodokem976aes::SecretKey);

#[verifier::external_type_specification]
#[verifier::external_body]
pub struct ExFrodoCiphertext(frodokem976aes::Ciphertext);

#[verifier::external_type_specification]
#[verifier::external_body]
pub struct ExFrodoSharedSecret(frodokem976aes::SharedSecret);

#[verifier::external_type_specification]
#[verifier::external_body]
pub struct ExPqError(pqcrypto_traits::Error);

/// Size of an NTRU-HRSS-701 public key in bytes.
pub const NTRU_PUBLIC_KEY_BYTES: usize = 1138;

/// Size of an NTRU-HRSS-701 secret key in bytes.
pub const NTRU_SECRET_KEY_BYTES: usize = 1450;

/// Size of an NTRU-HRSS-701 ciphertext in bytes.
pub const NTRU_CIPHERTEXT_BYTES: usize = 1138;

/// Size of an NTRU-HRSS-701 shared secret in bytes.
pub const NTRU_SHARED_SECRET_BYTES: usize = 32;

/// Size of a FrodoKEM-976-AES public key in bytes.
pub const FRODO_PUBLIC_KEY_BYTES: usize = 15632;

/// Size of a FrodoKEM-976-AES secret key in bytes.
pub const FRODO_SECRET_KEY_BYTES: usize = 31296;

/// Size of a FrodoKEM-976-AES ciphertext in bytes.
pub const FRODO_CIPHERTEXT_BYTES: usize = 15744;

/// Size of a FrodoKEM-976-AES shared secret in bytes.
pub const FRODO_SHARED_SECRET_BYTES: usize = 24;

// NTRU-HRSS-701: keys, ciphertexts and secrets are fixed-size byte arrays.

/// Relies on ntruhrss701::keypair: a fresh random key pair.
pub assume_specification[ ntruhrss701::keypair ]() -> (ntruhrss701::PublicKey, ntruhrss701::SecretKey);

/// Relies on ntruhrss701::encapsulate: a fresh random shared secret and its ciphertext.
pub assume_specification[ ntruhrss701::encapsulate ](pk: &ntruhrss701::PublicKey) -> (ntruhrss701::SharedSecret, ntruhrss701::Ciphertext);

/// The shared secret that NTRU-HRSS-701 decapsulation recovers from a
/// ciphertext with a secret key.
pub uninterp spec fn ntru_decapsulated(ct: Seq<u8>, sk: Seq<u8>) -> Seq<u8>;

/// Relies on ntruhrss701::decapsulate: the shared secret recovered with the
/// secret key, which depends on the two byte strings alone. Both are read with
/// from_bytes, which accepts them at these lengths.
#[verifier::external_body]
fn ntru_decapsulate(ct: &[u8], sk: &[u8]) -> (r: Vec<u8>)
    requires
        ct@.len() == NTRU_CIPHERTEXT_BYTES,
        sk@.len() == NTRU_SECRET_KEY_BYTES,
    ensures
        r@ == ntru_decapsulated(ct@, sk@),
        r@.len() == NTRU_SHARED_SECRET_BYTES,
{
    let ct = <ntruhrss701::Ciphertext as KemCiphertext>::from_bytes(ct).unwrap();
    let sk = <ntruhrss701::SecretKey as KemSecretKey>::from_bytes(sk).unwrap();
    ntruhrss701::decapsulate(&ct, &sk).as_bytes().to_vec()
}

/// Relies on ntruhrss701::public_key_bytes: the public key size.
pub assume_specification[ ntruhrss701::public_key_bytes ]() -> (r: usize)
    ensures
        r == NTRU_PUBLIC_KEY_BYTES,
;

/// Relies on ntruhrss701::secret_key_bytes: the secret key size.
pub assume_specification[ ntruhrss701::secret_key_bytes ]() -> (r: usize)
    ensures
        r == NTRU_SECRET_KEY_BYTES,
;

/// Relies on as_bytes of an NTRU public key: its fixed-size array.
pub assume_specification[ <ntruhrss701::PublicKey as KemPublicKey>::as_bytes ](
    k: &ntruhrss701::PublicKey,
) -> (r: &[u8])
    ensures
        r@.len() == NTRU_PUBLIC_KEY_BYTES,
;

/// Relies on as_bytes of an NTRU secret key: its fixed-size array.
pub assume_specification[ <ntruhrss701::SecretKey as KemSecretKey>::as_bytes ](
    k: &ntruhrss701::SecretKey,
) -> (r: &[u8])
    ensures
        r@.len() == NTRU_SECRET_KEY_BYTES,
;

/// Relies on as_bytes of an NTRU ciphertext: its fixed-size array.
pub assume_specification[ <ntruhrss701::Ciphertext as KemCiphertext>::as_bytes ](
    c: &ntruhrss701::Ciphertext,
) -> (r: &[u8])
    ensures
        r@.len() == NTRU_CIPHERTEXT_BYTES,
;

/// Relies on as_bytes of an NTRU shared secret: its fixed-size array.
pub assume_specification[ <ntruhrss701::SharedSecret as KemSharedSecret>::as_bytes ](
    s: &ntruhrss701::SharedSecret,
) -> (r: &[u8])
    ensures
        r@.len() == NTRU_SHARED_SECRET_BYTES,
;

/// Relies on from_bytes of an NTRU public key: it accepts exactly the slices of the key size.
pub assume_specification[ <ntruhrss701::PublicKey as KemPublicKey>::from_bytes ](
    bytes: &[u8],
) -> (r: Result<ntruhrss701::PublicKey, pqcrypto_traits::Error>)
    ensures
        r.is_ok() == (bytes@.len() == NTRU_PUBLIC_KEY_BYTES),
;

/// Relies on from_bytes of an NTRU secret key: it accepts exactly the slices of the key size.
pub assume_specification[ <ntruhrss701::SecretKey as KemSecretKey>::from_bytes ](
    bytes: &[u8],
) -> (r: Result<ntruhrss701::SecretKey, pqcrypto_traits::Error>)
    ensures
        r.is_ok() == (bytes@.len() == NTRU_SECRET_KEY_BYTES),
;

// FrodoKEM-976-AES.

/// Relies on frodokem976aes::keypair: a fresh random key pair.
pub assume_specification[ frodokem976aes::keypair ]() -> (frodokem976aes::PublicKey, frodokem976aes::SecretKey);

/// Relies on frodokem976aes::encapsulate: a fresh random shared secret and its ciphertext.
pub assume_specification[ frodokem976aes::encapsulate ](pk: &frodokem976aes::PublicKey) -> (frodokem976aes::SharedSecret, frodokem976aes::Ciphertext);

/// The shared secret that FrodoKEM-976-AES decapsulation recovers from a
/// ciphertext with a secret key.
pub uninterp spec fn frodo_decapsulated(ct: Seq<u8>, sk: Seq<u8>) -> Seq<u8>;

/// Relies on frodokem976aes::decapsulate: the shared secret recovered with the
/// secret key, which depends on the two byte strings alone. Both are read with
/// from_bytes, which accepts them at these lengths.
#[verifier::external_body]
fn frodo_decapsulate(ct: &[u8], sk: &[u8]) -> (r: Vec<u8>)
    requires
        ct@.len() == FRODO_CIPHERTEXT_BYTES,
        sk@.len() == FRODO_SECRET_KEY_BYTES,
    ensures
        r@ == frodo_decapsulated(ct@, sk@),
        r@.len() == FRODO_SHARED_SECRET_BYTES,
{
    let ct = <frodokem976aes::Ciphertext as KemCiphertext>::from_bytes(ct).unwrap();
    let sk = <frodokem976aes::SecretKey as KemSecretKey>::from_bytes(sk).unwrap();
    frodokem976aes::decapsulate(&ct, &sk).as_bytes().to_vec()
}

/// Relies on as_bytes of a FrodoKEM secret key: its fixed-size array.
pub assume_specification[ <frodokem976aes::SecretKey as KemSecretKey>::as_bytes ](
    k: &frodokem976aes::SecretKey,
) -> (r: &[u8])
    ensures
        r@.len() == FRODO_SECRET_KEY_BYTES,
;

/// Relies on as_bytes of a FrodoKEM public key: its fixed-size array.
pub assume_specification[ <frodokem976aes::PublicKey as KemPublicKey>::as_bytes ](
    k: &frodokem976aes::PublicKey,
) -> (r: &[u8])
    ensures
        r@.len() == FRODO_PUBLIC_KEY_BYTES,
;

/// Relies on as_bytes of a FrodoKEM ciphertext: its fixed-size array.
pub assume_specification[ <frodokem976aes::Ciphertext as KemCiphertext>::as_bytes ](
    c: &frodokem976aes::Ciphertext,
) -> (r: &[u8])
    ensures
        r@.len() == FRODO_CIPHERTEXT_BYTES,
;

/// Relies on as_bytes of a FrodoKEM shared secret: its fixed-size array.
pub assume_specification[ <frodokem976aes::SharedSecret as KemSharedSecret>::as_bytes ](
    s: &frodokem976aes::SharedSecret,
) -> (r: &[u8])
    ensures
        r@.len() == FRODO_SHARED_SECRET_BYTES,
;

/// Why stored key bytes were not turned back into keys.
#[derive(Debug, Clone, Copy, PartialEq, Eq, Structural)]
pub enum KeyError {
    InvalidPublicKeyLength,
    InvalidSecretKeyLength,
    PublicKeyRejected,
    SecretKeyRejected,
}

impl KeyError {
    /// A human-readable description of the error.
    pub fn message(&self) -> (r: &'static str)
        ensures
            *self == KeyError::InvalidPublicKeyLength ==> r@ == "Invalid public key length"@,
            *self == KeyError::InvalidSecretKeyLength ==> r@ == "Invalid secret key length"@,
            *self == KeyError::PublicKeyRejected ==> r@ == "Failed to reconstruct public key"@,
            *self == KeyError::SecretKeyRejected ==> r@ == "Failed to reconstruct secret key"@,
    {
        match self {
            KeyError::InvalidPublicKeyLength => "Invalid public key length",
            KeyError::InvalidSecretKeyLength => "Invalid secret key length",
            KeyError::PublicKeyRejected => "Failed to reconstruct public key",
            KeyError::SecretKeyRejected => "Failed to reconstruct secret key",
        }
    }
}

/// One run of a key exchange: the receiver's key pair, what the sender
/// sends back, and the shared secret as each side sees it.
pub struct KemExchange {
    pub public_key: Vec<u8>,
    pub secret_key: Vec<u8>,
    pub ciphertext: Vec<u8>,
    pub sender_secret: Vec<u8>,
    pub receiver_secret: Vec<u8>,
    pub secrets_match: bool,
}

impl KemExchange {
    /// The sizes of every part are those of the scheme, and the verdict
    /// compares the two shared secrets.
    pub open spec fn shaped(&self, pk_len: nat, sk_len: nat, ct_len: nat, ss_len: nat) -> bool {
        &&& self.public_key@.len() == pk_len
        &&& self.secret_key@.len() == sk_len
        &&& self.ciphertext@.len() == ct_len
        &&& self.sender_secret@.len() == ss_len
        &&& self.receiver_secret@.len() == ss_len
        &&& self.secrets_match == (self.sender_secret@ == self.receiver_secret@)
    }
}

/// NTRU-HRSS-701 key exchange between two parties: the receiver makes a key
/// pair, the sender encapsulates a secret to the public key, and the
/// receiver decapsulates the ciphertext with the secret key.
pub fn example_encrypt_decrypt_workflow() -> (r: KemExchange)
    ensures
        r.shaped(
            NTRU_PUBLIC_KEY_BYTES as nat,
            NTRU_SECRET_KEY_BYTES as nat,
            NTRU_CIPHERTEXT_BYTES as nat,
            NTRU_SHARED_SECRET_BYTES as nat,
        ),
        r.receiver_secret@ == ntru_decapsulated(r.ciphertext@, r.secret_key@),
{
    let (pk, sk) = ntruhrss701::keypair();
    let (sender, ct) = ntruhrss701::encapsulate(&pk);
    let public_key = slice_to_vec(pk.as_bytes());
    let secret_key = slice_to_vec(sk.as_bytes());
    let ciphertext = slice_to_vec(ct.as_bytes());
    let sender_secret = slice_to_vec(sender.as_bytes());
    let receiver_secret = ntru_decapsulate(ciphertext.as_slice(), secret_key.as_slice());
    let secrets_match = bytes_equal(sender_secret.as_slice(), receiver_secret.as_slice());
    KemExchange {
        public_key,
        secret_key,
        ciphertext,
        sender_secret,
        receiver_secret,
        secrets_match,
    }
}

/// FrodoKEM-976-AES key exchange between two parties, as for NTRU.
pub fn frodo_exchange() -> (r: KemExchange)
    ensures
        r.shaped(
            FRODO_PUBLIC_KEY_BYTES as nat,
            FRODO_SECRET_KEY_BYTES as nat,
            FRODO_CIPHERTEXT_BYTES as nat,
            FRODO_SHARED_SECRET_BYTES as nat,
        ),
        r.receiver_secret@ == frodo_decapsulated(r.ciphertext@, r.secret_key@),
{
    let (pk, sk) = frodokem976aes::keypair();
    let (sender, ct) = frodokem976aes::encapsulate(&pk);
    let public_key = slice_to_vec(pk.as_bytes());
    let secret_key = slice_to_vec(sk.as_bytes());
    let ciphertext = slice_to_vec(ct.as_bytes());
    let sender_secret = slice_to_vec(sender.as_bytes());
    let receiver_secret = frodo_decapsulate(ciphertext.as_slice(), secret_key.as_slice());
    let secrets_match = bytes_equal(sender_secret.as_slice(), receiver_secret.as_slice());
    KemExchange {
        public_key,
        secret_key,
        ciphertext,
        sender_secret,
        receiver_secret,
        secrets_match,
    }
}

/// A fresh NTRU-HRSS-701 key pair as (public key bytes, secret key bytes),
/// ready for storage or transmission.
pub fn generate_keypair_with_error_handling() -> (r: Result<(Vec<u8>, Vec<u8>), KeyError>)
    ensures
        r is Ok,
        r matches Ok((pk, sk)) ==> pk@.len() == NTRU_PUBLIC_KEY_BYTES && sk@.len()
            == NTRU_SECRET_KEY_BYTES,
{
    let (pk, sk) = ntruhrss701::keypair();
    Ok((slice_to_vec(pk.as_bytes()), slice_to_vec(sk.as_bytes())))
}

/// Rebuilds an NTRU-HRSS-701 key pair from stored bytes. The public key's
/// length is checked first, then the secret key's.
pub fn reconstruct_keys_from_bytes(pk_bytes: &[u8], sk_bytes: &[u8]) -> (r: Result<
    (ntruhrss701::PublicKey, ntruhrss701::SecretKey),
    KeyError,
>)
    ensures
        pk_bytes@.len() != NTRU_PUBLIC_KEY_BYTES ==> r == Err::<
            (ntruhrss701::PublicKey, ntruhrss701::SecretKey),
            KeyError,
        >(KeyError::InvalidPublicKeyLength),
        pk_bytes@.len() == NTRU_PUBLIC_KEY_BYTES && sk_bytes@.len() != NTRU_SECRET_KEY_BYTES ==> r
            == Err::<(ntruhrss701::PublicKey, ntruhrss701::SecretKey), KeyError>(
            KeyError::InvalidSecretKeyLength,
        ),
        r is Ok <==> (pk_bytes@.len() == NTRU_PUBLIC_KEY_BYTES && sk_bytes@.len()
            == NTRU_SECRET_KEY_BYTES),
{
    if pk_bytes.len() != ntruhrss701::public_key_bytes() {
        return Err(KeyError::InvalidPublicKeyLength);
    }
    if sk_bytes.len() != ntruhrss701::secret_key_bytes() {
        return Err(KeyError::InvalidSecretKeyLength);
    }
    let pk = match <ntruhrss701::PublicKey as KemPublicKey>::from_bytes(pk_bytes) {
        Ok(pk) => pk,
        Err(_) => return Err(KeyError::PublicKeyRejected),
    };
    let sk = match <ntruhrss701::SecretKey as KemSecretKey>::from_bytes(sk_bytes) {
        Ok(sk) => sk,
        Err(_) => return Err(KeyError::SecretKeyRejected),
    };
    Ok((pk, sk))
}

} // verus!
