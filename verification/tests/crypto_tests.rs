use pingo::crypto::{
    bytes_to_array, generate_checksum, generate_device_id, verify_checksum, CryptoError,
    CryptoManager, EncryptedEnvelope,
};

#[test]
fn test_key_exchange_and_encryption() {
    let mut crypto_a = CryptoManager::new();
    let mut crypto_b = CryptoManager::new();

    let pub_a = crypto_a.generate_keypair();
    let pub_b = crypto_b.generate_keypair();

    let id_a = "device_a";
    let id_b = "device_b";

    crypto_a.establish_session(id_b, &pub_b).unwrap();
    crypto_b.establish_session(id_a, &pub_a).unwrap();

    let message = "Hello, secure world!";
    let envelope = crypto_a.encrypt_message(id_b, message).unwrap();

    let decrypted = crypto_b.decrypt_message(id_a, &envelope).unwrap();

    assert_eq!(message, decrypted);
}

#[test]
fn round_trip_holds_for_bytes_in_both_directions() {
    let mut a = CryptoManager::new();
    let mut b = CryptoManager::new();
    let pub_a = a.generate_keypair();
    let pub_b = b.generate_keypair();
    a.establish_session("b", &pub_b).unwrap();
    b.establish_session("a", &pub_a).unwrap();
    let payload: Vec<u8> = (0..=255u8).collect();
    let sealed = a.encrypt("b", &payload).unwrap();
    assert_eq!(b.decrypt("a", &sealed).unwrap(), payload);
    let back = b.encrypt("a", &[]).unwrap();
    assert_eq!(a.decrypt("b", &back).unwrap(), Vec::<u8>::new());
}

#[test]
fn envelope_carries_sender_key_and_fresh_nonce() {
    let mut a = CryptoManager::new();
    let mut b = CryptoManager::new();
    let pub_a = a.generate_keypair();
    let pub_b = b.generate_keypair();
    a.establish_session("b", &pub_b).unwrap();
    let first = a.encrypt_message("b", "same text").unwrap();
    let second = a.encrypt_message("b", "same text").unwrap();
    assert_eq!(first.sender_public_key, pub_a);
    assert_eq!(first.nonce.len(), 16);
    // Nine bytes of text and sixteen of tag make twenty-five, in Base64 thirty-six characters.
    assert_eq!(first.ciphertext.len(), 36);
    assert_ne!(first.nonce, second.nonce);
    assert_ne!(first.ciphertext, second.ciphertext);
    assert_ne!(first.ciphertext, "same text");
}

#[test]
fn public_key_is_absent_before_generation_and_stable_after() {
    let mut m = CryptoManager::new();
    assert!(m.get_public_key().is_none());
    let generated = m.generate_keypair();
    assert_eq!(generated.len(), 44);
    assert_eq!(m.get_public_key(), Some(generated));
}

#[test]
fn encrypt_without_session_fails() {
    let mut m = CryptoManager::new();
    m.generate_keypair();
    assert_eq!(m.encrypt("nobody", b"x").err(), Some(CryptoError::NoSession));
    assert_eq!(m.encrypt_message("nobody", "x").err(), Some(CryptoError::NoSession));
}

#[test]
fn decrypt_without_session_fails() {
    let m = CryptoManager::new();
    let envelope = EncryptedEnvelope {
        nonce: String::new(),
        ciphertext: String::new(),
        sender_public_key: String::new(),
    };
    assert_eq!(m.decrypt("nobody", &envelope).err(), Some(CryptoError::NoSession));
    assert_eq!(m.decrypt_message("nobody", &envelope).err(), Some(CryptoError::NoSession));
}

#[test]
fn every_decryption_failure_is_the_same_error() {
    let mut a = CryptoManager::new();
    let mut b = CryptoManager::new();
    let pub_a = a.generate_keypair();
    let pub_b = b.generate_keypair();
    a.establish_session("b", &pub_b).unwrap();
    b.establish_session("a", &pub_a).unwrap();
    let good = a.encrypt_message("b", "secret").unwrap();

    let bad_nonce_text = EncryptedEnvelope { nonce: "***".into(), ..good.clone() };
    assert_eq!(b.decrypt("a", &bad_nonce_text).err(), Some(CryptoError::DecryptionFailed));

    let short_nonce = EncryptedEnvelope { nonce: "AAAA".into(), ..good.clone() };
    assert_eq!(b.decrypt("a", &short_nonce).err(), Some(CryptoError::DecryptionFailed));

    let bad_ciphertext_text = EncryptedEnvelope { ciphertext: "not base64!".into(), ..good.clone() };
    assert_eq!(b.decrypt("a", &bad_ciphertext_text).err(), Some(CryptoError::DecryptionFailed));

    let mut tampered = good.clone();
    let first = if tampered.ciphertext.starts_with('A') { "B" } else { "A" };
    tampered.ciphertext.replace_range(0..1, first);
    assert_eq!(b.decrypt("a", &tampered).err(), Some(CryptoError::DecryptionFailed));

    let mut c = CryptoManager::new();
    c.generate_keypair();
    c.establish_session("a", &pub_a).unwrap();
    assert_eq!(c.decrypt("a", &good).err(), Some(CryptoError::DecryptionFailed));
}

#[test]
fn establish_session_checks_key_then_keypair() {
    let mut m = CryptoManager::new();
    match m.establish_session("p", "not base64!") {
        Err(CryptoError::InvalidEncoding { detail }) => {
            assert_eq!(detail, "Invalid symbol 32, offset 3.");
            assert_eq!(CryptoError::InvalidEncoding { detail: detail.clone() }.message(), detail);
        }
        other => panic!("unexpected {:?}", other),
    }
    assert_eq!(m.establish_session("p", "AAAA"), Err(CryptoError::InvalidPeerKeyLength));
    let mut other = CryptoManager::new();
    let key = other.generate_keypair();
    assert_eq!(m.establish_session("p", &key), Err(CryptoError::NoKeypair));
    assert!(!m.has_session("p"));
    m.generate_keypair();
    assert_eq!(m.establish_session("p", &key), Ok(()));
    assert!(m.has_session("p"));
}

#[test]
fn load_keypair_checks_secret_then_public() {
    let mut source = CryptoManager::new();
    let public = source.generate_keypair();
    let secret = public.clone();
    let mut m = CryptoManager::new();
    assert!(matches!(m.load_keypair("???", &public), Err(CryptoError::InvalidEncoding { .. })));
    assert_eq!(m.load_keypair("AAAA", &public), Err(CryptoError::InvalidSecretKeyLength));
    assert!(matches!(m.load_keypair(&secret, "???"), Err(CryptoError::InvalidEncoding { .. })));
    assert_eq!(m.load_keypair(&secret, "AAAA"), Err(CryptoError::InvalidPublicKeyLength));
    assert!(m.get_public_key().is_none());
    assert_eq!(m.load_keypair(&secret, &public), Ok(()));
    assert_eq!(m.get_public_key(), Some(public));
}

#[test]
fn loaded_secret_derives_the_same_session_as_the_peer() {
    // 32 zero bytes and 32 bytes of 0x01 as secrets, in Base64.
    let secret_a = "AAAAAAAAAAAAAAAAAAAAAAAAAAAAAAAAAAAAAAAAAAA=";
    let mut probe = CryptoManager::new();
    let pub_b = probe.generate_keypair();
    let mut a = CryptoManager::new();
    a.load_keypair(secret_a, &pub_b).unwrap();
    a.establish_session("b", &pub_b).unwrap();
    let sealed = a.encrypt_message("b", "x").unwrap();
    assert_eq!(a.decrypt_message("b", &sealed).unwrap(), "x");
}

#[test]
fn sessions_can_be_removed_and_cleared() {
    let mut a = CryptoManager::new();
    let mut b = CryptoManager::new();
    a.generate_keypair();
    let pub_b = b.generate_keypair();
    a.establish_session("b", &pub_b).unwrap();
    a.establish_session("c", &pub_b).unwrap();
    assert!(a.has_session("b"));
    a.remove_session("b");
    assert!(!a.has_session("b"));
    assert!(a.has_session("c"));
    a.remove_session("b");
    a.clear_sessions();
    assert!(!a.has_session("c"));
    a.clear_sessions();
    assert!(a.get_public_key().is_some());
}

#[test]
fn decrypt_message_rejects_bytes_that_are_no_text() {
    let mut a = CryptoManager::new();
    let mut b = CryptoManager::new();
    let pub_a = a.generate_keypair();
    let pub_b = b.generate_keypair();
    a.establish_session("b", &pub_b).unwrap();
    b.establish_session("a", &pub_a).unwrap();
    let sealed = a.encrypt("b", &[0xff, 0xfe]).unwrap();
    assert_eq!(b.decrypt_message("a", &sealed).err(), Some(CryptoError::InvalidText));
    assert_eq!(b.decrypt("a", &sealed).unwrap(), vec![0xff, 0xfe]);
}

#[test]
fn checksum_is_sha256_in_lower_case_hex() {
    assert_eq!(
        generate_checksum(b"abc"),
        "ba7816bf8f01cfea414140de5dae2223b00361a396177a9cb410ff61f20015ad"
    );
    assert_eq!(
        generate_checksum(b""),
        "e3b0c44298fc1c149afbf4c8996fb92427ae41e4649b934ca495991b7852b855"
    );
}

#[test]
fn verify_checksum_compares_with_the_digest() {
    assert!(verify_checksum(
        b"abc",
        "ba7816bf8f01cfea414140de5dae2223b00361a396177a9cb410ff61f20015ad"
    ));
    assert!(!verify_checksum(
        b"abd",
        "ba7816bf8f01cfea414140de5dae2223b00361a396177a9cb410ff61f20015ad"
    ));
    assert!(!verify_checksum(
        b"abc",
        "BA7816BF8F01CFEA414140DE5DAE2223B00361A396177A9CB410FF61F20015AD"
    ));
}

#[test]
fn device_id_is_thirty_two_hex_digits() {
    let id = generate_device_id();
    assert_eq!(id.len(), 32);
    assert!(id.chars().all(|c| c.is_ascii_digit() || ('a'..='f').contains(&c)));
    assert_ne!(id, generate_device_id());
}

#[test]
fn bytes_to_array_wants_the_exact_length() {
    assert_eq!(bytes_to_array::<4>(&vec![1, 2, 3, 4]), Some([1, 2, 3, 4]));
    assert_eq!(bytes_to_array::<4>(&vec![1, 2, 3]), None);
    assert_eq!(bytes_to_array::<4>(&vec![1, 2, 3, 4, 5]), None);
}

#[test]
fn error_messages_name_the_failure() {
    assert_eq!(CryptoError::NoSession.message(), "No session established with peer");
    assert_eq!(CryptoError::NoKeypair.message(), "No keypair generated");
    assert_eq!(
        CryptoError::DecryptionFailed.message(),
        "Decryption failed - invalid ciphertext or key"
    );
    assert_eq!(CryptoError::InvalidPeerKeyLength.message(), "Invalid peer public key length");
}

#[test]
fn key_agreement_follows_the_published_vectors() {
    // Both secrets and both public keys of the worked example of RFC 7748, in Base64.
    let alice_secret = "dwdtCnMYpX08FsFyUbJmRd9ML4frwJkqsXf7pR25LCo=";
    let alice_public = "hSDwCYkwp1R0i33ctD73Wg2/Og0mOBr066SpjqqbTmo=";
    let bob_secret = "XasIfmJKikt54X+Lg4AO5m87sSkmGLb9HC+LJ/+I4Os=";
    let bob_public = "3p7bfXt9wbTTW2HC7OQ1Nz+DQ8hbeGdNrfx+FG+IK08=";
    let mut alice = CryptoManager::new();
    let mut bob = CryptoManager::new();
    alice.load_keypair(alice_secret, alice_public).unwrap();
    bob.load_keypair(bob_secret, bob_public).unwrap();
    assert_eq!(alice.get_public_key().as_deref(), Some(alice_public));
    alice.establish_session("bob", bob_public).unwrap();
    bob.establish_session("alice", alice_public).unwrap();
    let sealed = alice.encrypt_message("bob", "over the wire").unwrap();
    assert_eq!(sealed.sender_public_key, alice_public);
    assert_eq!(bob.decrypt_message("alice", &sealed).unwrap(), "over the wire");
    let answer = bob.encrypt("alice", &[1, 2, 3]).unwrap();
    assert_eq!(alice.decrypt("bob", &answer).unwrap(), vec![1, 2, 3]);
    // A session with any other key does not open the envelope.
    alice.establish_session("bob", alice_public).unwrap();
    assert_eq!(alice.decrypt("bob", &answer).err(), Some(CryptoError::DecryptionFailed));
}
