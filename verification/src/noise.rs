//! The three-message mutually authenticated handshake of the secure
//! channel (pattern XX): ephemeral keys cross first, then each side's
//! static key crosses encrypted, with a running transcript hash binding
//! every ciphertext and an HKDF chain turning each shared secret into a
//! fresh cipher key whose nonce counter restarts at zero.

use vstd::prelude::*;

verus! {

use crate::keypair::{KeyPair, valid_keypair, x25519, x25519_public};
use crate::cipher::{Cipher, CipherError, spec_nonce, nonce_bytes, aes256gcm_encrypt,
    aes256gcm_decrypt, GCM_P_MAX, GCM_A_MAX};
use crate::hkdf::{sha256, sha256_exec, spec_noise_derive, Hkdf, to_key32, zero_bytes};

/// The protocol name: exactly 32 bytes, padded with zeros.
pub open spec fn spec_protocol_name() -> Seq<u8> {
    seq![
        78u8,
        111u8,
        105u8,
        115u8,
        101u8,
        95u8,
        88u8,
        88u8,
        95u8,
        50u8,
        53u8,
        53u8,
        49u8,
        57u8,
        95u8,
        65u8,
        69u8,
        83u8,
        71u8,
        67u8,
        77u8,
        95u8,
        83u8,
        72u8,
        65u8,
        50u8,
        53u8,
        54u8,
        0u8,
        0u8,
        0u8,
        0u8,
    ]
}

/// The protocol name as bytes.
pub fn protocol_name() -> (r: Vec<u8>)
    ensures
        r@ == spec_protocol_name(),
{
    let v: Vec<u8> = vec![78, 111, 105, 115, 101, 95, 88, 88, 95, 50, 53, 53, 49, 57, 95, 65, 69, 83, 71, 67, 77, 95, 83, 72, 65, 50, 53, 54, 0, 0, 0, 0];
    proof {
        assert(v@ =~= spec_protocol_name());
    }
    v
}

/// The fixed connection prologue mixed in before the first message.
pub open spec fn spec_prologue() -> Seq<u8> {
    seq![0x57u8, 0x41u8, 6u8, 3u8]
}

/// The fixed connection prologue as bytes.
pub fn prologue() -> (r: Vec<u8>)
    ensures
        r@ == spec_prologue(),
{
    let v: Vec<u8> = vec![0x57, 0x41, 6, 3];
    proof {
        assert(v@ =~= spec_prologue());
    }
    v
}

/// The transcript hash after mixing `d` into `h`.
pub open spec fn mix_hash_s(h: Seq<u8>, d: Seq<u8>) -> Seq<u8> {
    sha256(h + d)
}

/// The chaining key after mixing a shared secret in.
pub open spec fn ck_next(ck: Seq<u8>, ikm: Seq<u8>) -> Seq<u8> {
    spec_noise_derive(ck, ikm).subrange(0, 32)
}

/// The cipher key a mixed-in shared secret yields.
pub open spec fn key_next(ck: Seq<u8>, ikm: Seq<u8>) -> Seq<u8> {
    spec_noise_derive(ck, ikm).subrange(32, 64)
}

/// The transcript hash every handshake starts from.
pub open spec fn spec_initial_hash() -> Seq<u8> {
    sha256(spec_protocol_name())
}

/// The transcript hash after the prologue is mixed in.
pub open spec fn spec_hash_after_prologue() -> Seq<u8> {
    mix_hash_s(spec_initial_hash(), spec_prologue())
}

/// What a handshake step can report.
#[derive(Debug, Clone, PartialEq)]
pub enum HandshakeError {
    MessageTooShort,
    DecryptionFailed,
    EncryptionFailed,
    InvalidKeySize,
    MissingRemoteKey,
}

/// The handshake state: transcript hash, chaining key, current cipher key
/// with its nonce counter, the local key pairs, and the peer keys once
/// they are known.
pub struct NoiseHandshake {
    /// The running transcript hash.
    pub hash: [u8; 32],
    /// The chaining key the next derivation feeds from.
    pub chaining_key: [u8; 32],
    /// The current cipher key.
    pub key: [u8; 32],
    /// The nonce counter of the current cipher key.
    pub counter: u32,
    /// The long-term static key pair.
    pub local_static: KeyPair,
    /// The per-connection ephemeral key pair.
    pub local_ephemeral: KeyPair,
    /// The peer's static public key, once decrypted.
    pub remote_static: Option<[u8; 32]>,
    /// The peer's ephemeral public key, once received.
    pub remote_ephemeral: Option<[u8; 32]>,
}

impl NoiseHandshake {
    /// A fresh handshake: hash and chaining key from the protocol name,
    /// the prologue mixed in, and a new ephemeral key pair.
    pub fn new_initiator(local_static: KeyPair) -> (r: NoiseHandshake)
        ensures
            r.hash@ == spec_hash_after_prologue(),
            r.chaining_key@ == spec_initial_hash(),
            r.key@ == spec_initial_hash(),
            r.counter == 0,
            r.local_static == local_static,
            valid_keypair(r.local_ephemeral),
            r.remote_static is None,
            r.remote_ephemeral is None,
    {
        let name = protocol_name();
        let h0v = sha256_exec(name.as_slice());
        let h0 = to_key32(h0v.as_slice(), 0);
        proof {
            assert(h0v@.subrange(0, 32) =~= h0v@);
        }
        let mut hs = NoiseHandshake {
            hash: h0,
            chaining_key: h0,
            key: h0,
            counter: 0,
            local_static,
            local_ephemeral: KeyPair::generate(),
            remote_static: None,
            remote_ephemeral: None,
        };
        let pro = prologue();
        hs.mix_hash(pro.as_slice());
        hs
    }

    /// A fresh responder-side handshake; the state starts the same way.
    pub fn new_responder(local_static: KeyPair) -> (r: NoiseHandshake)
        ensures
            r.hash@ == spec_hash_after_prologue(),
            r.chaining_key@ == spec_initial_hash(),
            r.key@ == spec_initial_hash(),
            r.counter == 0,
            r.local_static == local_static,
            valid_keypair(r.local_ephemeral),
            r.remote_static is None,
            r.remote_ephemeral is None,
    {
        NoiseHandshake::new_initiator(local_static)
    }

    /// Mixes bytes into the transcript hash.
    fn mix_hash(&mut self, data: &[u8])
        ensures
            final(self).hash@ == mix_hash_s(old(self).hash@, data@),
            final(self).chaining_key == old(self).chaining_key,
            final(self).key == old(self).key,
            final(self).counter == old(self).counter,
            final(self).local_static == old(self).local_static,
            final(self).local_ephemeral == old(self).local_ephemeral,
            final(self).remote_static == old(self).remote_static,
            final(self).remote_ephemeral == old(self).remote_ephemeral,
    {
        let mut buf: Vec<u8> = Vec::new();
        buf.extend_from_slice(self.hash.as_slice());
        buf.extend_from_slice(data);
        proof {
            assert(buf@ =~= self.hash@ + data@);
        }
        let hv = sha256_exec(buf.as_slice());
        proof {
            assert(hv@.subrange(0, 32) =~= hv@);
        }
        self.hash = to_key32(hv.as_slice(), 0);
    }

    /// Feeds a shared secret through the key-derivation chain: a new
    /// chaining key, a new cipher key, and the counter back at zero.
    fn mix_key(&mut self, ikm: &[u8])
        ensures
            final(self).chaining_key@ == ck_next(old(self).chaining_key@, ikm@),
            final(self).key@ == key_next(old(self).chaining_key@, ikm@),
            final(self).counter == 0,
            final(self).hash == old(self).hash,
            final(self).local_static == old(self).local_static,
            final(self).local_ephemeral == old(self).local_ephemeral,
            final(self).remote_static == old(self).remote_static,
            final(self).remote_ephemeral == old(self).remote_ephemeral,
    {
        let no_info: Vec<u8> = Vec::new();
        proof {
            assert(no_info@ =~= Seq::<u8>::empty());
        }
        let derived = Hkdf::derive(Some(self.chaining_key.as_slice()), ikm, no_info.as_slice(), 64);
        proof {
            crate::hkdf::lemma_hkdf_blocks_len(
                crate::hkdf::hkdf_prk(self.chaining_key@, ikm@),
                Seq::<u8>::empty(),
                2,
            );
        }
        self.chaining_key = to_key32(derived.as_slice(), 0);
        self.key = to_key32(derived.as_slice(), 32);
        self.counter = 0;
    }

    /// Seals a plaintext under the current key and counter with the
    /// transcript hash as associated data, then mixes the ciphertext in
    /// and steps the counter.
    fn encrypt_and_hash(&mut self, plaintext: &[u8]) -> (r: Result<Vec<u8>, HandshakeError>)
        requires
            old(self).counter < u32::MAX,
            plaintext@.len() <= GCM_P_MAX,
        ensures
            r matches Ok(ct) && ct@ == aes256gcm_encrypt(
                old(self).key@,
                spec_nonce(old(self).counter),
                old(self).hash@,
                plaintext@,
            ),
            final(self).hash@ == mix_hash_s(
                old(self).hash@,
                aes256gcm_encrypt(
                    old(self).key@,
                    spec_nonce(old(self).counter),
                    old(self).hash@,
                    plaintext@,
                ),
            ),
            final(self).counter == old(self).counter + 1,
            final(self).chaining_key == old(self).chaining_key,
            final(self).key == old(self).key,
            final(self).local_static == old(self).local_static,
            final(self).local_ephemeral == old(self).local_ephemeral,
            final(self).remote_static == old(self).remote_static,
            final(self).remote_ephemeral == old(self).remote_ephemeral,
    {
        let cipher = Cipher::new(self.key);
        let nonce = nonce_bytes(self.counter);
        let ct = match cipher.encrypt_with_nonce(plaintext, &nonce, self.hash.as_slice()) {
            Ok(c) => c,
            Err(_) => {
                proof {
                    assert(false);
                }
                return Err(HandshakeError::EncryptionFailed);
            },
        };
        self.counter = self.counter + 1;
        self.mix_hash(ct.as_slice());
        Ok(ct)
    }

    /// Opens a ciphertext under the current key and counter with the
    /// transcript hash as associated data; on success mixes the ciphertext
    /// in and steps the counter, on failure leaves the state alone.
    fn decrypt_and_hash(&mut self, ciphertext: &[u8]) -> (r: Result<Vec<u8>, HandshakeError>)
        requires
            old(self).counter < u32::MAX,
        ensures
            match aes256gcm_decrypt(
                old(self).key@,
                spec_nonce(old(self).counter),
                old(self).hash@,
                ciphertext@,
            ) {
                Some(pt) => r matches Ok(x) && x@ == pt && final(self).hash@ == mix_hash_s(
                    old(self).hash@,
                    ciphertext@,
                ) && final(self).counter == old(self).counter + 1,
                None => r == Err::<Vec<u8>, _>(HandshakeError::DecryptionFailed) && *final(self)
                    == *old(self),
            },
            (r matches Ok(x) ==> (forall|pt: Seq<u8>|
                ciphertext@ == aes256gcm_encrypt(
                    old(self).key@,
                    spec_nonce(old(self).counter),
                    old(self).hash@,
                    pt,
                ) ==> x@ == pt)),
            (r is Err ==> (forall|pt: Seq<u8>|
                ciphertext@ != aes256gcm_encrypt(
                    old(self).key@,
                    spec_nonce(old(self).counter),
                    old(self).hash@,
                    pt,
                ))),
            final(self).chaining_key == old(self).chaining_key,
            final(self).key == old(self).key,
            final(self).local_static == old(self).local_static,
            final(self).local_ephemeral == old(self).local_ephemeral,
            final(self).remote_static == old(self).remote_static,
            final(self).remote_ephemeral == old(self).remote_ephemeral,
    {
        let cipher = Cipher::new(self.key);
        let nonce = nonce_bytes(self.counter);
        let pt = match cipher.decrypt_with_nonce(ciphertext, &nonce, self.hash.as_slice()) {
            Ok(p) => p,
            Err(_) => {
                return Err(HandshakeError::DecryptionFailed);
            },
        };
        self.counter = self.counter + 1;
        self.mix_hash(ciphertext);
        Ok(pt)
    }

    /// The first message: the local ephemeral public key in the clear,
    /// mixed into the transcript hash.
    pub fn write_message_1(&mut self) -> (r: Vec<u8>)
        ensures
            r@ == old(self).local_ephemeral.public@,
            final(self).hash@ == mix_hash_s(old(self).hash@, old(self).local_ephemeral.public@),
            final(self).chaining_key == old(self).chaining_key,
            final(self).key == old(self).key,
            final(self).counter == old(self).counter,
            final(self).local_static == old(self).local_static,
            final(self).local_ephemeral == old(self).local_ephemeral,
            final(self).remote_static == old(self).remote_static,
            final(self).remote_ephemeral == old(self).remote_ephemeral,
    {
        let e = self.local_ephemeral.public;
        self.mix_hash(e.as_slice());
        let mut out: Vec<u8> = Vec::new();
        out.extend_from_slice(e.as_slice());
        proof {
            assert(out@ =~= e@);
        }
        out
    }

    /// Takes in the peer's first message: its ephemeral public key, mixed
    /// into the transcript hash.
    pub fn read_message_1(&mut self, message: &[u8]) -> (r: Result<(), HandshakeError>)
        ensures
            message@.len() < 32 ==> r == Err::<(), _>(HandshakeError::MessageTooShort)
                && *final(self) == *old(self),
            message@.len() >= 32 ==> {
                &&& r is Ok
                &&& final(self).hash@ == mix_hash_s(old(self).hash@, message@.subrange(0, 32))
                &&& final(self).remote_ephemeral matches Some(e) && e@ == message@.subrange(0, 32)
                &&& final(self).chaining_key == old(self).chaining_key
                &&& final(self).key == old(self).key
                &&& final(self).counter == old(self).counter
                &&& final(self).local_static == old(self).local_static
                &&& final(self).local_ephemeral == old(self).local_ephemeral
                &&& final(self).remote_static == old(self).remote_static
            },
    {
        if message.len() < 32 {
            return Err(HandshakeError::MessageTooShort);
        }
        let e = to_key32(message, 0);
        self.remote_ephemeral = Some(e);
        self.mix_hash(e.as_slice());
        Ok(())
    }
    /// The second message, sent by the responder: its ephemeral public
    /// key, its encrypted static public key, and an encrypted payload.
    pub fn write_message_2(&mut self, payload: &[u8]) -> (r: Result<Vec<u8>, HandshakeError>)
        requires
            old(self).remote_ephemeral is Some,
            payload@.len() <= GCM_P_MAX,
        ensures
            ({
                let e = old(self).local_ephemeral.public@;
                let re = old(self).remote_ephemeral->0@;
                let h1 = mix_hash_s(old(self).hash@, e);
                let ee = x25519(old(self).local_ephemeral.private@, re);
                let ck1 = ck_next(old(self).chaining_key@, ee);
                let k1 = key_next(old(self).chaining_key@, ee);
                let cs = aes256gcm_encrypt(k1, spec_nonce(0), h1, old(self).local_static.public@);
                let h2 = mix_hash_s(h1, cs);
                let es = x25519(old(self).local_static.private@, re);
                let ck2 = ck_next(ck1, es);
                let k2 = key_next(ck1, es);
                let cp = aes256gcm_encrypt(k2, spec_nonce(0), h2, payload@);
                let h3 = mix_hash_s(h2, cp);
                &&& r matches Ok(m) && m@ == e + cs + cp
                &&& cs.len() == 48
                &&& final(self).hash@ == h3
                &&& final(self).chaining_key@ == ck2
                &&& final(self).key@ == k2
                &&& final(self).counter == 1
                &&& final(self).local_static == old(self).local_static
                &&& final(self).local_ephemeral == old(self).local_ephemeral
                &&& final(self).remote_static == old(self).remote_static
                &&& final(self).remote_ephemeral == old(self).remote_ephemeral
            }),
    {
        let e = self.local_ephemeral.public;
        self.mix_hash(e.as_slice());
        let re = match self.remote_ephemeral {
            Some(x) => x,
            None => {
                proof {
                    assert(false);
                }
                return Err(HandshakeError::MissingRemoteKey);
            },
        };
        let ee = self.local_ephemeral.dh(&re);
        self.mix_key(ee.as_slice());
        let stat = self.local_static.public;
        let cs = match self.encrypt_and_hash(stat.as_slice()) {
            Ok(c) => c,
            Err(e2) => {
                proof {
                    assert(false);
                }
                return Err(e2);
            },
        };
        let es = self.local_static.dh(&re);
        self.mix_key(es.as_slice());
        let cp = match self.encrypt_and_hash(payload) {
            Ok(c) => c,
            Err(e2) => {
                proof {
                    assert(false);
                }
                return Err(e2);
            },
        };
        let mut out: Vec<u8> = Vec::new();
        out.extend_from_slice(e.as_slice());
        out.extend_from_slice(cs.as_slice());
        out.extend_from_slice(cp.as_slice());
        Ok(out)
    }

    /// Takes in the second message: the peer's ephemeral key, then its
    /// static key and a payload, each decrypted under a freshly derived
    /// key with the transcript hash as associated data.
    pub fn read_message_2(&mut self, message: &[u8]) -> (r: Result<Vec<u8>, HandshakeError>)
        ensures
            message@.len() < 80 ==> r == Err::<Vec<u8>, _>(HandshakeError::MessageTooShort)
                && *final(self) == *old(self),
            message@.len() >= 80 ==> (r is Err ==> r == Err::<Vec<u8>, _>(
                HandshakeError::DecryptionFailed,
            )),
            (forall|spt: Seq<u8>, ppt: Seq<u8>|
                #![trigger spt.len(), ppt.len()]
                {
                    let re = message@.subrange(0, 32);
                    let h1 = mix_hash_s(old(self).hash@, re);
                    let ee = x25519(old(self).local_ephemeral.private@, re);
                    let ck1 = ck_next(old(self).chaining_key@, ee);
                    let k1 = key_next(old(self).chaining_key@, ee);
                    let cs = message@.subrange(32, 80);
                    let h2 = mix_hash_s(h1, cs);
                    let es = x25519(old(self).local_ephemeral.private@, spt);
                    let ck2 = ck_next(ck1, es);
                    let k2 = key_next(ck1, es);
                    let cp = message@.subrange(80, message@.len() as int);
                    (message@.len() >= 80 && spt.len() == 32 && cs == aes256gcm_encrypt(
                        k1,
                        spec_nonce(0),
                        h1,
                        spt,
                    ) && cp == aes256gcm_encrypt(k2, spec_nonce(0), h2, ppt)) ==> {
                        &&& r matches Ok(p) && p@ == ppt
                        &&& final(self).hash@ == mix_hash_s(h2, cp)
                        &&& final(self).chaining_key@ == ck2
                        &&& final(self).key@ == k2
                        &&& final(self).counter == 1
                        &&& final(self).remote_ephemeral matches Some(x) && x@ == re
                        &&& final(self).remote_static matches Some(y) && y@ == spt
                        &&& final(self).local_static == old(self).local_static
                        &&& final(self).local_ephemeral == old(self).local_ephemeral
                    }
                }),
    {
        if message.len() < 80 {
            return Err(HandshakeError::MessageTooShort);
        }
        let n = message.len();
        let re = to_key32(message, 0);
        self.remote_ephemeral = Some(re);
        self.mix_hash(re.as_slice());
        let ee = self.local_ephemeral.dh(&re);
        self.mix_key(ee.as_slice());
        let encrypted_s = &message[32..80];
        let remote_s = match self.decrypt_and_hash(encrypted_s) {
            Ok(p) => p,
            Err(e2) => {
                return Err(e2);
            },
        };
        if remote_s.len() != 32 {
            return Err(HandshakeError::InvalidKeySize);
        }
        let remote_static = to_key32(remote_s.as_slice(), 0);
        proof {
            assert(remote_static@ =~= remote_s@);
        }
        self.remote_static = Some(remote_static);
        let es = self.local_ephemeral.dh(&remote_static);
        self.mix_key(es.as_slice());
        let encrypted_payload = &message[80..n];
        let payload = match self.decrypt_and_hash(encrypted_payload) {
            Ok(p) => p,
            Err(e2) => {
                return Err(e2);
            },
        };
        Ok(payload)
    }

    /// The third message: the local static key encrypted under the current
    /// key, then a payload encrypted under the next derived key.
    pub fn write_message_3(&mut self, payload: &[u8]) -> (r: Result<Vec<u8>, HandshakeError>)
        requires
            old(self).remote_ephemeral is Some,
            old(self).counter < u32::MAX,
            payload@.len() <= GCM_P_MAX,
        ensures
            ({
                let re = old(self).remote_ephemeral->0@;
                let cs = aes256gcm_encrypt(
                    old(self).key@,
                    spec_nonce(old(self).counter),
                    old(self).hash@,
                    old(self).local_static.public@,
                );
                let h4 = mix_hash_s(old(self).hash@, cs);
                let se = x25519(old(self).local_static.private@, re);
                let ck3 = ck_next(old(self).chaining_key@, se);
                let k3 = key_next(old(self).chaining_key@, se);
                let cp = aes256gcm_encrypt(k3, spec_nonce(0), h4, payload@);
                let h5 = mix_hash_s(h4, cp);
                &&& r matches Ok(m) && m@ == cs + cp
                &&& cs.len() == 48
                &&& final(self).hash@ == h5
                &&& final(self).chaining_key@ == ck3
                &&& final(self).key@ == k3
                &&& final(self).counter == 1
                &&& final(self).local_static == old(self).local_static
                &&& final(self).local_ephemeral == old(self).local_ephemeral
                &&& final(self).remote_static == old(self).remote_static
                &&& final(self).remote_ephemeral == old(self).remote_ephemeral
            }),
    {
        let stat = self.local_static.public;
        let cs = match self.encrypt_and_hash(stat.as_slice()) {
            Ok(c) => c,
            Err(e2) => {
                proof {
                    assert(false);
                }
                return Err(e2);
            },
        };
        let re = match self.remote_ephemeral {
            Some(x) => x,
            None => {
                proof {
                    assert(false);
                }
                return Err(HandshakeError::MissingRemoteKey);
            },
        };
        let se = self.local_static.dh(&re);
        self.mix_key(se.as_slice());
        let cp = match self.encrypt_and_hash(payload) {
            Ok(c) => c,
            Err(e2) => {
                proof {
                    assert(false);
                }
                return Err(e2);
            },
        };
        let mut out: Vec<u8> = Vec::new();
        out.extend_from_slice(cs.as_slice());
        out.extend_from_slice(cp.as_slice());
        Ok(out)
    }

    /// Takes in the third message: the peer's static key and a payload,
    /// decrypted in turn.
    pub fn read_message_3(&mut self, message: &[u8]) -> (r: Result<Vec<u8>, HandshakeError>)
        requires
            old(self).counter < u32::MAX,
        ensures
            message@.len() < 48 ==> r == Err::<Vec<u8>, _>(HandshakeError::MessageTooShort)
                && *final(self) == *old(self),
            message@.len() >= 48 ==> (r is Err ==> r == Err::<Vec<u8>, _>(
                HandshakeError::DecryptionFailed,
            )),
            (forall|spt: Seq<u8>, ppt: Seq<u8>|
                #![trigger spt.len(), ppt.len()]
                {
                    let cs = message@.subrange(0, 48);
                    let h4 = mix_hash_s(old(self).hash@, cs);
                    let se = x25519(old(self).local_ephemeral.private@, spt);
                    let ck3 = ck_next(old(self).chaining_key@, se);
                    let k3 = key_next(old(self).chaining_key@, se);
                    let cp = message@.subrange(48, message@.len() as int);
                    (message@.len() >= 48 && spt.len() == 32 && cs == aes256gcm_encrypt(
                        old(self).key@,
                        spec_nonce(old(self).counter),
                        old(self).hash@,
                        spt,
                    ) && cp == aes256gcm_encrypt(k3, spec_nonce(0), h4, ppt)) ==> {
                        &&& r matches Ok(p) && p@ == ppt
                        &&& final(self).hash@ == mix_hash_s(h4, cp)
                        &&& final(self).chaining_key@ == ck3
                        &&& final(self).key@ == k3
                        &&& final(self).counter == 1
                        &&& final(self).remote_static matches Some(y) && y@ == spt
                        &&& final(self).local_static == old(self).local_static
                        &&& final(self).local_ephemeral == old(self).local_ephemeral
                        &&& final(self).remote_ephemeral == old(self).remote_ephemeral
                    }
                }),
    {
        if message.len() < 48 {
            return Err(HandshakeError::MessageTooShort);
        }
        let n = message.len();
        let encrypted_s = &message[0..48];
        let remote_s = match self.decrypt_and_hash(encrypted_s) {
            Ok(p) => p,
            Err(e2) => {
                return Err(e2);
            },
        };
        if remote_s.len() != 32 {
            return Err(HandshakeError::InvalidKeySize);
        }
        let remote_static = to_key32(remote_s.as_slice(), 0);
        proof {
            assert(remote_static@ =~= remote_s@);
        }
        self.remote_static = Some(remote_static);
        let se = self.local_ephemeral.dh(&remote_static);
        self.mix_key(se.as_slice());
        let encrypted_payload = &message[48..n];
        let payload = match self.decrypt_and_hash(encrypted_payload) {
            Ok(p) => p,
            Err(e2) => {
                return Err(e2);
            },
        };
        Ok(payload)
    }

    /// The peer's static public key, once the handshake has revealed it.
    pub fn remote_static_key(&self) -> (r: Option<&[u8; 32]>)
        ensures
            match self.remote_static {
                Some(k) => r matches Some(x) && x@ == k@,
                None => r is None,
            },
    {
        self.remote_static.as_ref()
    }

    /// Splits the finished handshake into the two directional transport
    /// ciphers: one final derivation from the chaining key with no new
    /// input, the first half keying one direction, the second the other.
    pub fn split(self) -> (r: (Cipher, Cipher))
        ensures
            r.0.spec_key() == spec_noise_derive(self.chaining_key@, Seq::<u8>::empty()).subrange(
                0,
                32,
            ),
            r.1.spec_key() == spec_noise_derive(self.chaining_key@, Seq::<u8>::empty()).subrange(
                32,
                64,
            ),
            r.0.spec_counter() == 0,
            r.1.spec_counter() == 0,
    {
        let no_ikm: Vec<u8> = Vec::new();
        proof {
            assert(no_ikm@ =~= Seq::<u8>::empty());
        }
        let (send_key, recv_key) = crate::hkdf::derive_noise_keys(
            no_ikm.as_slice(),
            self.chaining_key.as_slice(),
        );
        (Cipher::new(send_key), Cipher::new(recv_key))
    }
}

/// Handshake symmetry: a full three-message exchange between an initiator
/// and a responder ends with both sides holding the same pair of
/// transport keys. The initiator sends under the first key and receives
/// under the second; the responder uses them the other way around.
#[verifier::rlimit(100)]
#[verifier::spinoff_prover]
pub fn handshake_exchange(
    initiator_static: KeyPair,
    responder_static: KeyPair,
    responder_payload: &[u8],
    initiator_payload: &[u8],
) -> (r: Result<((Cipher, Cipher), (Cipher, Cipher)), HandshakeError>)
    requires
        valid_keypair(initiator_static),
        valid_keypair(responder_static),
        responder_payload@.len() <= GCM_P_MAX,
        initiator_payload@.len() <= GCM_P_MAX,
    ensures
        r matches Ok(pair) && pair.0.0.spec_key() == pair.1.0.spec_key() && pair.0.1.spec_key()
            == pair.1.1.spec_key(),
{
    let mut ini = NoiseHandshake::new_initiator(initiator_static);
    let mut res = NoiseHandshake::new_responder(responder_static);
    let i_eph = ini.local_ephemeral;
    let r_eph = res.local_ephemeral;
    let ee_pair = crate::keypair::shared_secrets_agree(&i_eph, &r_eph);
    let es_pair = crate::keypair::shared_secrets_agree(&i_eph, &responder_static);
    let se_pair = crate::keypair::shared_secrets_agree(&initiator_static, &r_eph);
    let m1 = ini.write_message_1();
    let r1 = res.read_message_1(m1.as_slice());
    proof {
        assert(m1@.len() == 32);
        assert(r1 is Ok);
        assert(m1@.subrange(0, 32) =~= i_eph.public@);
    }
    let m2 = match res.write_message_2(responder_payload) {
        Ok(m) => m,
        Err(e) => {
            proof {
                assert(false);
            }
            return Err(e);
        },
    };
    let ghost e_r = r_eph.public@;
    let ghost ee = x25519(r_eph.private@, i_eph.public@);
    let ghost h1 = mix_hash_s(mix_hash_s(spec_hash_after_prologue(), i_eph.public@), e_r);
    let ghost ck1 = ck_next(spec_initial_hash(), ee);
    let ghost k1 = key_next(spec_initial_hash(), ee);
    let ghost cs2 = aes256gcm_encrypt(k1, spec_nonce(0), h1, responder_static.public@);
    let ghost h2 = mix_hash_s(h1, cs2);
    let ghost es = x25519(responder_static.private@, i_eph.public@);
    let ghost k2 = key_next(ck1, es);
    let ghost cp2 = aes256gcm_encrypt(k2, spec_nonce(0), h2, responder_payload@);
    proof {
        assert(e_r.len() == 32);
        assert(cp2.len() == responder_payload@.len() + 16);
        assert(m2@.len() == 32 + 48 + (responder_payload@.len() + 16));
        assert(m2@.subrange(0, 32) =~= e_r);
        assert(m2@.subrange(32, 80) =~= cs2);
        assert(m2@.subrange(80, m2@.len() as int) =~= cp2);
    }
    let r2 = ini.read_message_2(m2.as_slice());
    proof {
        let spt = responder_static.public@;
        let ppt = responder_payload@;
        assert(spt.len() == 32);
        assert(ppt.len() == responder_payload@.len());
        assert(x25519(i_eph.private@, e_r) == ee);
        assert(x25519(i_eph.private@, spt) == es);
        assert(ck_next(spec_initial_hash(), x25519(i_eph.private@, e_r)) == ck1);
        assert(key_next(ck1, x25519(i_eph.private@, spt)) == k2);
        assert(r2 is Ok);
    }
    let _payload2 = match r2 {
        Ok(p) => p,
        Err(e) => {
            proof {
                assert(false);
            }
            return Err(e);
        },
    };
    proof {
        assert(ini.chaining_key@ == res.chaining_key@);
        assert(ini.key@ == res.key@);
        assert(ini.hash@ == res.hash@);
        assert(ini.counter == 1 && res.counter == 1);
        assert(ini.remote_ephemeral matches Some(x) && x@ == e_r);
    }
    let ghost cs3 = aes256gcm_encrypt(
        ini.key@,
        spec_nonce(1),
        ini.hash@,
        initiator_static.public@,
    );
    let m3 = match ini.write_message_3(initiator_payload) {
        Ok(m) => m,
        Err(e) => {
            proof {
                assert(false);
            }
            return Err(e);
        },
    };
    let ghost ck_before = res.chaining_key@;
    let ghost se = x25519(initiator_static.private@, r_eph.public@);
    let ghost k3 = key_next(ck_before, se);
    let ghost h4 = mix_hash_s(res.hash@, cs3);
    let ghost cp3 = aes256gcm_encrypt(k3, spec_nonce(0), h4, initiator_payload@);
    proof {
        assert(ini.remote_ephemeral->0@ == e_r);
        assert(m3@.len() == 48 + (initiator_payload@.len() + 16));
        assert(m3@.subrange(0, 48) =~= cs3);
        assert(m3@.subrange(48, m3@.len() as int) =~= cp3);
    }
    let r3 = res.read_message_3(m3.as_slice());
    proof {
        let spt = initiator_static.public@;
        let ppt = initiator_payload@;
        assert(spt.len() == 32);
        assert(ppt.len() == initiator_payload@.len());
        assert(x25519(r_eph.private@, spt) == se);
        assert(key_next(ck_before, x25519(r_eph.private@, spt)) == k3);
        assert(r3 is Ok);
    }
    let _payload3 = match r3 {
        Ok(p) => p,
        Err(e) => {
            proof {
                assert(false);
            }
            return Err(e);
        },
    };
    proof {
        assert(ini.chaining_key@ == res.chaining_key@);
    }
    let i_pair = ini.split();
    let r_pair = res.split();
    Ok((i_pair, r_pair))
}

} // verus!
