use pqcrypto_dilithium::dilithium3;
use pqcrypto_frodo::frodokem976aes;
use pqcrypto_ntru::ntruhrss701;
use pq_toolkit::bytes::{bytes_equal, join_bytes, preview};
use pq_toolkit::hybrid::{
    classical_from_seed, classical_sign_and_verify, classical_valid, hybrid_signature, hybrid_signature_hex,
    hybrid_valid,
};
use pq_toolkit::kem::{
    example_encrypt_decrypt_workflow, frodo_exchange, generate_keypair_with_error_handling,
    reconstruct_keys_from_bytes, KeyError,
};
use pq_toolkit::menu::{choice_from_trimmed, menu_choice, MenuChoice};
use pq_toolkit::signing::{
    dilithium3_demo, falcon512_demo, is_recovered, opened_message, sphincs_demo,
};
use pq_toolkit::threshold::{
    aggregate_signatures, partial_signature_count, random_bytes, shares_from_bytes,
    split_private_key, THRESHOLD,
    TOTAL_SHARES,
};
use pqcrypto_traits::kem::{Ciphertext, PublicKey, SecretKey, SharedSecret};
use pqcrypto_traits::sign::PublicKey as SignPublicKey;
use pqcrypto_traits::sign::SignedMessage;
use pqcrypto_traits::sign::VerificationError;

#[test]
fn bytes_equal_compares_contents() {
    assert!(bytes_equal(&[1, 2, 3], &[1, 2, 3]));
    assert!(!bytes_equal(&[1, 2, 3], &[1, 2, 4]));
    assert!(!bytes_equal(&[1, 2], &[1, 2, 3]));
    assert!(bytes_equal(&[], &[]));
}

#[test]
fn preview_takes_a_prefix() {
    let data: Vec<u8> = (0u8..40).collect();
    assert_eq!(preview(&data, 16), (0u8..16).collect::<Vec<u8>>());
    assert_eq!(preview(&[7, 8, 9], 16), vec![7, 8, 9]);
    assert_eq!(preview(&[], 16), Vec::<u8>::new());
    assert_eq!(preview(&[7, 8, 9], 0), Vec::<u8>::new());
}

#[test]
fn join_bytes_keeps_order() {
    assert_eq!(join_bytes(&[1, 2], &[3]), vec![1, 2, 3]);
    assert_eq!(join_bytes(&[], &[5]), vec![5]);
    assert_eq!(join_bytes(&[5], &[]), vec![5]);
}

#[test]
fn hybrid_signature_puts_classical_first() {
    assert_eq!(hybrid_signature(&[0xaa, 0xbb], &[0x01, 0x02, 0x03]), vec![0xaa, 0xbb, 0x01, 0x02, 0x03]);
}

#[test]
fn hybrid_signature_hex_is_lower_case_pairs() {
    assert_eq!(hybrid_signature_hex(&[0x01, 0xab], &[0xff, 0x00]), "01abff00");
    assert_eq!(hybrid_signature_hex(&[], &[]), "");
    assert_eq!(hybrid_signature_hex(&[0x0f], &[0xf0]), "0ff0");
}

#[test]
fn hybrid_needs_both_halves() {
    assert!(hybrid_valid(true, true));
    assert!(!hybrid_valid(true, false));
    assert!(!hybrid_valid(false, true));
    assert!(!hybrid_valid(false, false));
}

#[test]
fn classical_signature_verifies_and_rejects_tampering() {
    let data = b"hybrid cryptography message!";
    let c = classical_sign_and_verify(data).expect("system generator");
    assert_eq!(c.public_key.len(), 32);
    assert_eq!(c.signature.len(), 64);
    assert!(c.valid);
    assert!(classical_valid(data, &c.signature, &c.public_key));
    assert!(!classical_valid(b"hybrid cryptography message?", &c.signature, &c.public_key));
    let mut bad = c.signature.clone();
    bad[0] ^= 1;
    assert!(!classical_valid(data, &bad, &c.public_key));
}

#[test]
fn ntru_exchange_agrees() {
    let x = example_encrypt_decrypt_workflow();
    assert_eq!(x.public_key.len(), 1138);
    assert_eq!(x.ciphertext.len(), 1138);
    assert_eq!(x.sender_secret.len(), 32);
    assert_eq!(x.receiver_secret.len(), 32);
    assert!(x.secrets_match);
    assert_eq!(x.sender_secret, x.receiver_secret);
}

#[test]
fn frodo_exchange_agrees() {
    let x = frodo_exchange();
    assert_eq!(x.public_key.len(), 15632);
    assert_eq!(x.ciphertext.len(), 15744);
    assert_eq!(x.sender_secret.len(), 24);
    assert!(x.secrets_match);
    assert_eq!(x.sender_secret, x.receiver_secret);
}

#[test]
fn stored_keys_round_trip() {
    let (pk, sk) = generate_keypair_with_error_handling().unwrap();
    assert_eq!(pk.len(), 1138);
    assert_eq!(sk.len(), 1450);
    let (pk2, sk2) = reconstruct_keys_from_bytes(&pk, &sk).unwrap();
    assert_eq!(pk2.as_bytes(), &pk[..]);
    assert_eq!(sk2.as_bytes(), &sk[..]);
}

#[test]
fn stored_keys_of_wrong_length_are_refused() {
    let (pk, sk) = generate_keypair_with_error_handling().unwrap();
    assert_eq!(
        reconstruct_keys_from_bytes(&pk[1..], &sk).err(),
        Some(KeyError::InvalidPublicKeyLength)
    );
    assert_eq!(
        reconstruct_keys_from_bytes(&pk, &sk[1..]).err(),
        Some(KeyError::InvalidSecretKeyLength)
    );
    assert_eq!(
        reconstruct_keys_from_bytes(&[], &[]).err(),
        Some(KeyError::InvalidPublicKeyLength)
    );
}

#[test]
fn key_error_messages() {
    assert_eq!(KeyError::InvalidPublicKeyLength.message(), "Invalid public key length");
    assert_eq!(KeyError::InvalidSecretKeyLength.message(), "Invalid secret key length");
    assert_eq!(KeyError::PublicKeyRejected.message(), "Failed to reconstruct public key");
    assert_eq!(KeyError::SecretKeyRejected.message(), "Failed to reconstruct secret key");
}

#[test]
fn dilithium3_round_trip() {
    let m = b"Quantum Resistant Blockchain Message";
    let d = dilithium3_demo(m);
    assert_eq!(d.public_key.len(), 1952);
    assert_eq!(d.opened.as_deref(), Some(&m[..]));
    assert!(d.message_recovered);
    assert!(d.signed_message.len() > m.len());
}

#[test]
fn falcon512_round_trip() {
    let m = b"Quantum Resistant Blockchain Message";
    let d = falcon512_demo(m);
    assert_eq!(d.public_key.len(), 897);
    assert_eq!(d.opened.as_deref(), Some(&m[..]));
    assert!(d.message_recovered);
}

#[test]
fn sphincs_round_trip() {
    let m = b"Quantum Resistant Blockchain Message";
    let d = sphincs_demo(m);
    assert_eq!(d.public_key.len(), 32);
    assert_eq!(d.opened.as_deref(), Some(&m[..]));
    assert!(d.message_recovered);
}

#[test]
fn rejected_signature_opens_nothing() {
    assert_eq!(opened_message(Err(VerificationError::InvalidSignature)), None);
    assert_eq!(opened_message(Ok(vec![1, 2])), Some(vec![1, 2]));
    assert!(!is_recovered(&None, b"m"));
    assert!(!is_recovered(&Some(b"x".to_vec()), b"m"));
    assert!(is_recovered(&Some(b"m".to_vec()), b"m"));
}

#[test]
fn shares_cover_every_number() {
    let shares = split_private_key(2560);
    assert_eq!(shares.len(), TOTAL_SHARES);
    for i in 0..TOTAL_SHARES {
        assert_eq!(shares[&i].len(), 2560);
    }
    assert!(!shares.contains_key(&TOTAL_SHARES));
    assert_eq!(split_private_key(0)[&0].len(), 0);
}

#[test]
fn random_bytes_have_the_asked_length() {
    assert_eq!(random_bytes(0).len(), 0);
    assert_eq!(random_bytes(33).len(), 33);
}

#[test]
fn partial_signatures_are_capped_at_threshold() {
    assert_eq!(partial_signature_count(5), THRESHOLD);
    assert_eq!(partial_signature_count(3), 3);
    assert_eq!(partial_signature_count(2), 2);
    assert_eq!(partial_signature_count(0), 0);
}

#[test]
fn aggregation_keeps_the_first() {
    assert_eq!(aggregate_signatures(vec![vec![1, 2], vec![3], vec![4]]), vec![1, 2]);
    assert_eq!(aggregate_signatures(vec![vec![]]), Vec::<u8>::new());
}

#[test]
fn menu_reads_trimmed_digits() {
    assert_eq!(menu_choice("1\n"), Some(MenuChoice::Authentication));
    assert_eq!(menu_choice("  2 "), Some(MenuChoice::Hybrid));
    assert_eq!(menu_choice("3"), Some(MenuChoice::Schnorr));
    assert_eq!(menu_choice("4\r\n"), Some(MenuChoice::Threshold));
    assert_eq!(menu_choice("5"), Some(MenuChoice::Exit));
    assert_eq!(menu_choice("6"), None);
    assert_eq!(menu_choice("12"), None);
    assert_eq!(menu_choice(""), None);
    assert_eq!(choice_from_trimmed(" 1"), None);
    assert_eq!(choice_from_trimmed("1"), Some(MenuChoice::Authentication));
}

fn unhex(s: &str) -> Vec<u8> {
    (0..s.len() / 2).map(|i| u8::from_str_radix(&s[2 * i..2 * i + 2], 16).unwrap()).collect()
}

#[test]
fn classical_signature_from_known_seed() {
    let seed = unhex("9d61b19deffd5a60ba844af492ec2cc44449c5697b326919703bac031cae7f60");
    let c = classical_from_seed(&seed, b"");
    assert_eq!(
        c.public_key,
        unhex("d75a980182b10ab7d54bfed3c964073a0ee172f3daa62325af021a68f707511a")
    );
    assert_eq!(
        c.signature,
        unhex(
            "e5564300c360ac729086e2cc806e828a84877f1eb8e5d974d873e065224901555fb8821590a33bacc61e39701cf9b46bd25bf5f0595bbe24655141438e7a100b"
        )
    );
    assert!(c.valid);
}

#[test]
fn classical_signature_depends_on_seed_alone() {
    let seed = [7u8; 32];
    let a = classical_from_seed(&seed, b"hybrid cryptography message!");
    let b = classical_from_seed(&seed, b"hybrid cryptography message!");
    assert_eq!(a.public_key, b.public_key);
    assert_eq!(a.signature, b.signature);
    let other = classical_from_seed(&[8u8; 32], b"hybrid cryptography message!");
    assert_ne!(a.public_key, other.public_key);
    assert!(!classical_valid(b"hybrid cryptography message!", &a.signature, &other.public_key));
}

#[test]
fn shares_are_consecutive_runs_of_the_drawn_bytes() {
    let drawn: Vec<u8> = (0u8..15).collect();
    let shares = shares_from_bytes(&drawn, 3);
    assert_eq!(shares.len(), 5);
    for i in 0..5usize {
        assert_eq!(shares[&i], drawn[3 * i..3 * i + 3].to_vec());
    }
    let empty = shares_from_bytes(&[], 0);
    assert_eq!(empty.len(), 5);
    assert!(empty.values().all(|s| s.is_empty()));
}

#[test]
fn ntru_receiver_secret_is_decapsulation() {
    let x = example_encrypt_decrypt_workflow();
    assert_eq!(x.secret_key.len(), 1450);
    let ct = ntruhrss701::Ciphertext::from_bytes(&x.ciphertext).unwrap();
    let sk = ntruhrss701::SecretKey::from_bytes(&x.secret_key).unwrap();
    assert_eq!(ntruhrss701::decapsulate(&ct, &sk).as_bytes(), &x.receiver_secret[..]);
}

#[test]
fn frodo_receiver_secret_is_decapsulation() {
    let x = frodo_exchange();
    assert_eq!(x.secret_key.len(), 31296);
    let ct = frodokem976aes::Ciphertext::from_bytes(&x.ciphertext).unwrap();
    let sk = frodokem976aes::SecretKey::from_bytes(&x.secret_key).unwrap();
    assert_eq!(frodokem976aes::decapsulate(&ct, &sk).as_bytes(), &x.receiver_secret[..]);
}

#[test]
fn dilithium3_opened_is_what_open_gives() {
    let d = dilithium3_demo(b"Quantum Resistant Blockchain Message");
    let sm = dilithium3::SignedMessage::from_bytes(&d.signed_message).unwrap();
    let pk = dilithium3::PublicKey::from_bytes(&d.public_key).unwrap();
    assert_eq!(dilithium3::open(&sm, &pk).ok(), d.opened);
    let (other_pk, _) = dilithium3::keypair();
    assert!(dilithium3::open(&sm, &other_pk).is_err());
    assert!(other_pk.as_bytes() != &d.public_key[..]);
}
