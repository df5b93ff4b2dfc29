//! Tests of the cryptographic primitives and the secure channel: HKDF
//! against the published test vector, AEAD round trips and tamper
//! rejection, Diffie-Hellman agreement, the handshake, and framing.

use whatsmeow::hkdf::{Hkdf, derive_noise_keys};
use whatsmeow::cipher::Cipher;
use whatsmeow::keypair::{KeyPair, PreKey, shared_secrets_agree};
use whatsmeow::noise::{NoiseHandshake, handshake_exchange};
use whatsmeow::framer::{frame_outbound, parse_inbound};

#[test]
fn test_hkdf_basic() {
    let ikm = [0x0b; 22];
    let salt = [0x00; 13];
    let info = [0xf0, 0xf1, 0xf2, 0xf3, 0xf4, 0xf5, 0xf6, 0xf7, 0xf8, 0xf9];

    let output = Hkdf::derive(Some(&salt), &ikm, &info, 42);
    assert_eq!(output.len(), 42);
}

#[test]
fn hkdf_matches_published_test_vector() {
    // RFC 5869, test case 1
    let ikm = [0x0b; 22];
    let salt: Vec<u8> = (0u8..=12).collect();
    let info = [0xf0, 0xf1, 0xf2, 0xf3, 0xf4, 0xf5, 0xf6, 0xf7, 0xf8, 0xf9];
    let output = Hkdf::derive(Some(&salt), &ikm, &info, 42);
    let expected: [u8; 42] = [
        0x3c, 0xb2, 0x5f, 0x25, 0xfa, 0xac, 0xd5, 0x7a, 0x90, 0x43, 0x4f, 0x64, 0xd0, 0x36,
        0x2f, 0x2a, 0x2d, 0x2d, 0x0a, 0x90, 0xcf, 0x1a, 0x5a, 0x4c, 0x5d, 0xb0, 0x2d, 0x56,
        0xec, 0xc4, 0xc5, 0xbf, 0x34, 0x00, 0x72, 0x08, 0xd5, 0xb8, 0x87, 0x18, 0x58, 0x65,
    ];
    assert_eq!(output, expected.to_vec());
}

#[test]
fn test_hkdf_no_salt() {
    let ikm = b"input key material";
    let output = Hkdf::derive(None, ikm, b"info", 32);
    assert_eq!(output.len(), 32);
}

#[test]
fn test_derive_noise_keys() {
    let shared = [0xab; 32];
    let salt = [0xcd; 32];
    let (key1, key2) = derive_noise_keys(&shared, &salt);

    assert_ne!(key1, [0u8; 32]);
    assert_ne!(key2, [0u8; 32]);
    assert_ne!(key1, key2);
}

#[test]
fn hkdf_is_deterministic() {
    let a = Hkdf::derive(Some(&[1, 2, 3]), b"ikm", b"info", 40);
    let b = Hkdf::derive(Some(&[1, 2, 3]), b"ikm", b"info", 40);
    assert_eq!(a, b);
}

#[test]
fn test_encrypt_decrypt() {
    let key = [0xab; 32];
    let mut cipher = Cipher::new(key);

    let plaintext = b"Hello, WhatsApp!";
    let ad = b"additional data";

    let ciphertext = cipher.encrypt(plaintext, ad).unwrap();
    cipher.reset_nonce();
    let decrypted = cipher.decrypt(&ciphertext, ad).unwrap();

    assert_eq!(decrypted, plaintext);
}

#[test]
fn test_decrypt_wrong_ad_fails() {
    let key = [0xab; 32];
    let mut cipher = Cipher::new(key);

    let plaintext = b"Hello, WhatsApp!";
    let ciphertext = cipher.encrypt(plaintext, b"correct ad").unwrap();

    cipher.reset_nonce();
    let result = cipher.decrypt(&ciphertext, b"wrong ad");

    assert!(result.is_err());
}

#[test]
fn test_nonce_increments() {
    let key = [0xab; 32];
    let mut cipher = Cipher::new(key);

    let nonce1 = cipher.next_nonce();
    let nonce2 = cipher.next_nonce();

    assert_ne!(nonce1, nonce2);
}

#[test]
fn tampered_ciphertext_is_rejected() {
    let key = [0x11; 32];
    let mut cipher = Cipher::new(key);
    let ciphertext = cipher.encrypt(b"integrity matters", b"aad").unwrap();
    for bit in 0..8 {
        let mut tampered = ciphertext.clone();
        tampered[0] ^= 1u8 << bit;
        cipher.set_nonce(0);
        assert!(cipher.decrypt(&tampered, b"aad").is_err(), "bit {} accepted", bit);
    }
}

#[test]
fn test_key_pair_generation() {
    let kp = KeyPair::generate();
    assert_ne!(kp.public, [0u8; 32]);
    assert_ne!(kp.private, [0u8; 32]);
}

#[test]
fn test_dh_agreement() {
    let alice = KeyPair::generate();
    let bob = KeyPair::generate();

    let alice_shared = alice.dh(&bob.public);
    let bob_shared = bob.dh(&alice.public);

    assert_eq!(alice_shared, bob_shared);
}

#[test]
fn shared_secrets_agree_on_both_sides() {
    let a = KeyPair::generate();
    let b = KeyPair::generate();
    let (s1, s2) = shared_secrets_agree(&a, &b);
    assert_eq!(s1, s2);
}

#[test]
fn test_pre_key_generation() {
    let pk = PreKey::new(1);
    assert_eq!(pk.key_id, 1);
    assert!(pk.signature.is_none());
}

#[test]
fn signed_pre_key_carries_signature() {
    let identity = KeyPair::generate();
    let pk = PreKey::new_signed(7, &identity);
    assert_eq!(pk.key_id, 7);
    assert!(pk.signature.is_some());
    assert_eq!(pk.signature.unwrap().len(), 64);
}

#[test]
fn test_handshake_initialization() {
    let kp = KeyPair::generate();
    let hs = NoiseHandshake::new_initiator(kp);

    assert_ne!(hs.hash, [0u8; 32]);
    assert_ne!(hs.chaining_key, [0u8; 32]);
}

#[test]
fn test_write_message_1() {
    let kp = KeyPair::generate();
    let mut hs = NoiseHandshake::new_initiator(kp);

    let msg = hs.write_message_1();
    assert_eq!(msg.len(), 32);
}

#[test]
fn handshake_both_sides_agree_on_split_keys() {
    let initiator_static = KeyPair::generate();
    let responder_static = KeyPair::generate();
    let (initiator_pair, responder_pair) =
        handshake_exchange(initiator_static, responder_static, b"certificate", b"client payload")
            .expect("exchange fails");
    // the initiator sends under the first key; the responder receives under it
    let (mut i_send, mut i_recv) = initiator_pair;
    let (mut r_send, mut r_recv) = responder_pair;
    let frame = frame_outbound(&mut i_send, b"first frame").unwrap();
    let plain = parse_inbound(&mut r_send, &frame).unwrap();
    assert_eq!(plain, b"first frame".to_vec());
    let frame2 = frame_outbound(&mut r_recv, b"reply frame").unwrap();
    let plain2 = parse_inbound(&mut i_recv, &frame2).unwrap();
    assert_eq!(plain2, b"reply frame".to_vec());
}

#[test]
fn full_handshake_over_wire_messages() {
    let i_static = KeyPair::generate();
    let r_static = KeyPair::generate();
    let mut ini = NoiseHandshake::new_initiator(i_static);
    let mut res = NoiseHandshake::new_responder(r_static);
    let m1 = ini.write_message_1();
    res.read_message_1(&m1).unwrap();
    let m2 = res.write_message_2(b"server cert").unwrap();
    let cert = ini.read_message_2(&m2).unwrap();
    assert_eq!(cert, b"server cert".to_vec());
    let m3 = ini.write_message_3(b"client info").unwrap();
    let info = res.read_message_3(&m3).unwrap();
    assert_eq!(info, b"client info".to_vec());
    assert_eq!(ini.remote_static_key(), Some(&r_static.public));
    assert_eq!(res.remote_static_key(), Some(&i_static.public));
}

#[test]
fn framer_counters_must_stay_in_step() {
    let key = [0x42; 32];
    let mut send = Cipher::new(key);
    let mut recv = Cipher::new(key);
    let f1 = frame_outbound(&mut send, b"one").unwrap();
    let f2 = frame_outbound(&mut send, b"two").unwrap();
    // delivering the second frame first desynchronizes the counters
    assert!(parse_inbound(&mut recv, &f2).is_err());
    assert_eq!(parse_inbound(&mut recv, &f1).unwrap(), b"one".to_vec());
    assert_eq!(parse_inbound(&mut recv, &f2).unwrap(), b"two".to_vec());
}

#[test]
fn frame_has_three_byte_length_prefix() {
    let mut send = Cipher::new([9u8; 32]);
    let frame = frame_outbound(&mut send, b"abc").unwrap();
    let len = ((frame[0] as usize) << 16) | ((frame[1] as usize) << 8) | (frame[2] as usize);
    assert_eq!(len, frame.len() - 3);
    assert_eq!(len, 3 + 16);
}
