//! Sign-and-open round trips with Dilithium3, Falcon-512 and SPHINCS+.
//!
//! Each scheme produces a signed message (signature and message together);
//! opening it with the public key gives the message back when the signature
//! holds. The schemes are those of the pqcrypto crates; this module records
//! what was produced and whether the opened message is the one signed.
use pqcrypto_dilithium::dilithium3;
use pqcrypto_falcon::falcon512;
use pqcrypto_sphincsplus::sphincssha256128frobust;
use pqcrypto_traits::sign::PublicKey as SignPublicKey;
use pqcrypto_traits::sign::SignedMessage as SignSignedMessage;
use pqcrypto_traits::sign::VerificationError;
use vstd::prelude::*;
use vstd::slice::slice_to_vec;
use crate::bytes::bytes_equal;

verus! {

#[verifier::external_type_specification]
#[verifier::external_body]
pub struct ExVerificationError(VerificationError);

#[verifier::external_type_specification]
#[verifier::external_body]
pub struct ExDilithiumPublicKey(dilithium3::PublicKey);

#[verifier::external_type_specification]
#[verifier::external_body]
pub struct ExDilithiumSecretKey(dilithium3::SecretKey);

#[verifier::external_type_specification]
#[verifier::external_body]
pub struct ExDilithiumSignedMessage(dilithium3::SignedMessage);

#[verifier::external_type_specification]
#[verifier::external_body]
pub struct ExFalconPublicKey(falcon512::PublicKey);

#[verifier::external_type_specification]
#[verifier::external_body]
pub struct ExFalconSecretKey(falcon512::SecretKey);

#[verifier::external_type_specification]
#[verifier::external_body]
pub struct ExFalconSignedMessage(falcon512::SignedMessage);

#[verifier::external_type_specification]
#[verifier::external_body]
pub struct ExSphincsPublicKey(sphincssha256128frobust::PublicKey);

#[verifier::external_type_specification]
#[verifier::external_body]
pub struct ExSphincsSecretKey(sphincssha256128frobust::SecretKey);

#[verifier::external_type_specification]
#[verifier::external_body]
pub struct ExSphincsSignedMessage(sphincssha256128frobust::SignedMessage);

/// Size of a Dilithium3 public key in bytes.
pub const DILITHIUM3_PUBLIC_KEY_BYTES: usize = 1952;

/// Size of a Falcon-512 public key in bytes.
pub const FALCON512_PUBLIC_KEY_BYTES: usize = 897;

/// Size of a SPHINCS+-SHA256-128f-robust public key in bytes.
pub const SPHINCS_PUBLIC_KEY_BYTES: usize = 32;

/// Relies on dilithium3::keypair: a fresh random key pair.
pub assume_specification[ dilithium3::keypair ]() -> (dilithium3::PublicKey, dilithium3::SecretKey);

/// Relies on dilithium3::sign: the message signed with the secret key.
pub assume_specification[ dilithium3::sign ](msg: &[u8], sk: &dilithium3::SecretKey) -> dilithium3::SignedMessage;

/// What opening a Dilithium3 signed message with a public key gives: the
/// message when the signature holds, nothing otherwise.
pub uninterp spec fn dilithium3_opened(sm: Seq<u8>, pk: Seq<u8>) -> Option<Seq<u8>>;

/// Relies on dilithium3::open: the message when the signature holds under the
/// public key, which depends on the two byte strings alone. Both are read
/// with from_bytes, which accepts any signed message and a public key of
/// this length.
#[verifier::external_body]
fn dilithium3_open(sm: &[u8], pk: &[u8]) -> (r: Result<Vec<u8>, VerificationError>)
    requires
        pk@.len() == DILITHIUM3_PUBLIC_KEY_BYTES,
    ensures
        opened_bytes(r) == dilithium3_opened(sm@, pk@),
{
    let sm = <dilithium3::SignedMessage as SignSignedMessage>::from_bytes(sm).unwrap();
    let pk = <dilithium3::PublicKey as SignPublicKey>::from_bytes(pk).unwrap();
    dilithium3::open(&sm, &pk)
}

/// Relies on as_bytes of a Dilithium3 public key: its fixed-size array.
pub assume_specification[ <dilithium3::PublicKey as SignPublicKey>::as_bytes ](
    k: &dilithium3::PublicKey,
) -> (r: &[u8])
    ensures
        r@.len() == DILITHIUM3_PUBLIC_KEY_BYTES,
;

/// Relies on as_bytes of a Dilithium3 signed message: its bytes.
pub assume_specification[ <dilithium3::SignedMessage as SignSignedMessage>::as_bytes ](
    sm: &dilithium3::SignedMessage,
) -> &[u8];

/// Relies on falcon512::keypair: a fresh random key pair.
pub assume_specification[ falcon512::keypair ]() -> (falcon512::PublicKey, falcon512::SecretKey);

/// Relies on falcon512::sign: the message signed with the secret key.
pub assume_specification[ falcon512::sign ](msg: &[u8], sk: &falcon512::SecretKey) -> falcon512::SignedMessage;

/// What opening a Falcon-512 signed message with a public key gives: the
/// message when the signature holds, nothing otherwise.
pub uninterp spec fn falcon512_opened(sm: Seq<u8>, pk: Seq<u8>) -> Option<Seq<u8>>;

/// Relies on falcon512::open: the message when the signature holds under the
/// public key, which depends on the two byte strings alone. Both are read
/// with from_bytes, which accepts any signed message and a public key of
/// this length.
#[verifier::external_body]
fn falcon512_open(sm: &[u8], pk: &[u8]) -> (r: Result<Vec<u8>, VerificationError>)
    requires
        pk@.len() == FALCON512_PUBLIC_KEY_BYTES,
    ensures
        opened_bytes(r) == falcon512_opened(sm@, pk@),
{
    let sm = <falcon512::SignedMessage as SignSignedMessage>::from_bytes(sm).unwrap();
    let pk = <falcon512::PublicKey as SignPublicKey>::from_bytes(pk).unwrap();
    falcon512::open(&sm, &pk)
}

/// Relies on as_bytes of a Falcon-512 public key: its fixed-size array.
pub assume_specification[ <falcon512::PublicKey as SignPublicKey>::as_bytes ](
    k: &falcon512::PublicKey,
) -> (r: &[u8])
    ensures
        r@.len() == FALCON512_PUBLIC_KEY_BYTES,
;

/// Relies on as_bytes of a Falcon-512 signed message: its bytes.
pub assume_specification[ <falcon512::SignedMessage as SignSignedMessage>::as_bytes ](
    sm: &falcon512::SignedMessage,
) -> &[u8];

/// Relies on sphincssha256128frobust::keypair: a fresh random key pair.
pub assume_specification[ sphincssha256128frobust::keypair ]() -> (sphincssha256128frobust::PublicKey, sphincssha256128frobust::SecretKey);

/// Relies on sphincssha256128frobust::sign: the message signed with the secret key.
pub assume_specification[ sphincssha256128frobust::sign ](msg: &[u8], sk: &sphincssha256128frobust::SecretKey) -> sphincssha256128frobust::SignedMessage;

/// What opening a SPHINCS+ signed message with a public key gives: the
/// message when the signature holds, nothing otherwise.
pub uninterp spec fn sphincs_opened(sm: Seq<u8>, pk: Seq<u8>) -> Option<Seq<u8>>;

/// Relies on sphincssha256128frobust::open: the message when the signature holds under the
/// public key, which depends on the two byte strings alone. Both are read
/// with from_bytes, which accepts any signed message and a public key of
/// this length.
#[verifier::external_body]
fn sphincs_open(sm: &[u8], pk: &[u8]) -> (r: Result<Vec<u8>, VerificationError>)
    requires
        pk@.len() == SPHINCS_PUBLIC_KEY_BYTES,
    ensures
        opened_bytes(r) == sphincs_opened(sm@, pk@),
{
    let sm = <sphincssha256128frobust::SignedMessage as SignSignedMessage>::from_bytes(sm).unwrap();
    let pk = <sphincssha256128frobust::PublicKey as SignPublicKey>::from_bytes(pk).unwrap();
    sphincssha256128frobust::open(&sm, &pk)
}

/// Relies on as_bytes of a SPHINCS+ public key: its fixed-size array.
pub assume_specification[ <sphincssha256128frobust::PublicKey as SignPublicKey>::as_bytes ](
    k: &sphincssha256128frobust::PublicKey,
) -> (r: &[u8])
    ensures
        r@.len() == SPHINCS_PUBLIC_KEY_BYTES,
;

/// Relies on as_bytes of a SPHINCS+ signed message: its bytes.
pub assume_specification[ <sphincssha256128frobust::SignedMessage as SignSignedMessage>::as_bytes ](
    sm: &sphincssha256128frobust::SignedMessage,
) -> &[u8];

/// What one sign-and-open round trip produced.
pub struct SignatureDemo {
    pub public_key: Vec<u8>,
    pub signed_message: Vec<u8>,
    /// The message that opening gave back, or `None` when the signature was rejected.
    pub opened: Option<Vec<u8>>,
    /// Whether opening gave back exactly the message that was signed.
    pub message_recovered: bool,
}

/// The bytes that a successful opening gave back.
pub open spec fn opened_bytes(r: Result<Vec<u8>, VerificationError>) -> Option<Seq<u8>> {
    match r {
        Ok(m) => Some(m@),
        Err(_) => None,
    }
}

/// The bytes of an opened message, if there is one.
pub open spec fn opened_view(o: Option<Vec<u8>>) -> Option<Seq<u8>> {
    match o {
        Some(m) => Some(m@),
        None => None,
    }
}

/// Whether `opened` holds exactly `message`.
pub open spec fn recovers(opened: Option<Vec<u8>>, message: Seq<u8>) -> bool {
    opened matches Some(m) && m@ == message
}

impl SignatureDemo {
    /// The public key has the scheme's size, and the verdict says whether
    /// `message` came back.
    pub open spec fn reports(&self, message: Seq<u8>, pk_len: nat) -> bool {
        &&& self.public_key@.len() == pk_len
        &&& self.message_recovered == recovers(self.opened, message)
    }
}

/// The message that opening produced, if the signature held.
pub fn opened_message(opened: Result<Vec<u8>, VerificationError>) -> (r: Option<Vec<u8>>)
    ensures
        r is Some <==> opened is Ok,
        opened matches Ok(m) ==> r == Some(m),
        opened_view(r) == opened_bytes(opened),
{
    match opened {
        Ok(m) => Some(m),
        Err(_) => None,
    }
}

/// Whether `opened` holds exactly `message`.
pub fn is_recovered(opened: &Option<Vec<u8>>, message: &[u8]) -> (r: bool)
    ensures
        r == recovers(*opened, message@),
{
    match opened {
        Some(m) => bytes_equal(m.as_slice(), message),
        None => false,
    }
}

/// Signs `message` with a fresh Dilithium3 key pair and opens it again.
pub fn dilithium3_demo(message: &[u8]) -> (r: SignatureDemo)
    ensures
        r.reports(message@, DILITHIUM3_PUBLIC_KEY_BYTES as nat),
        opened_view(r.opened) == dilithium3_opened(r.signed_message@, r.public_key@),
{
    let (pk, sk) = dilithium3::keypair();
    let sm = dilithium3::sign(message, &sk);
    let public_key = slice_to_vec(pk.as_bytes());
    let signed_message = slice_to_vec(sm.as_bytes());
    let opened = opened_message(dilithium3_open(signed_message.as_slice(), public_key.as_slice()));
    let message_recovered = is_recovered(&opened, message);
    SignatureDemo {
        public_key,
        signed_message,
        opened,
        message_recovered,
    }
}

/// Signs `message` with a fresh Falcon-512 key pair and opens it again.
pub fn falcon512_demo(message: &[u8]) -> (r: SignatureDemo)
    ensures
        r.reports(message@, FALCON512_PUBLIC_KEY_BYTES as nat),
        opened_view(r.opened) == falcon512_opened(r.signed_message@, r.public_key@),
{
    let (pk, sk) = falcon512::keypair();
    let sm = falcon512::sign(message, &sk);
    let public_key = slice_to_vec(pk.as_bytes());
    let signed_message = slice_to_vec(sm.as_bytes());
    let opened = opened_message(falcon512_open(signed_message.as_slice(), public_key.as_slice()));
    let message_recovered = is_recovered(&opened, message);
    SignatureDemo {
        public_key,
        signed_message,
        opened,
        message_recovered,
    }
}

/// Signs `message` with a fresh SPHINCS+-SHA256-128f-robust key pair and
/// opens it again.
pub fn sphincs_demo(message: &[u8]) -> (r: SignatureDemo)
    ensures
        r.reports(message@, SPHINCS_PUBLIC_KEY_BYTES as nat),
        opened_view(r.opened) == sphincs_opened(r.signed_message@, r.public_key@),
{
    let (pk, sk) = sphincssha256128frobust::keypair();
    let sm = sphincssha256128frobust::sign(message, &sk);
    let public_key = slice_to_vec(pk.as_bytes());
    let signed_message = slice_to_vec(sm.as_bytes());
    let opened = opened_message(sphincs_open(signed_message.as_slice(), public_key.as_slice()));
    let message_recovered = is_recovered(&opened, message);
    SignatureDemo {
        public_key,
        signed_message,
        opened,
        message_recovered,
    }
}

} // verus!
