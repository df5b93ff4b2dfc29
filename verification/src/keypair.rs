//! Curve25519 key pairs: generation with clamping, Diffie-Hellman, and
//! Ed25519 signing of public keys. The curve operations are outside calls
//! with named results; the Diffie-Hellman built on them commutes.

use vstd::prelude::*;

verus! {

use rand::RngCore;
use ed25519_dalek::Signer;

/// One byte of an X25519 scalar multiplication: a function of the scalar
/// (clamped inside the operation) and the point alone.
pub uninterp spec fn x25519_byte(scalar: Seq<u8>, point: Seq<u8>) -> spec_fn(int) -> u8;

/// What X25519 returns: 32 bytes, a function of scalar and point.
pub open spec fn x25519(scalar: Seq<u8>, point: Seq<u8>) -> Seq<u8> {
    Seq::new(32, x25519_byte(scalar, point))
}

/// The curve's base point: nine, then zeros.
pub open spec fn basepoint() -> Seq<u8> {
    Seq::new(
        32,
        |i: int|
            if i == 0 {
                9u8
            } else {
                0u8
            },
    )
}

/// The public key a private scalar yields.
pub open spec fn x25519_public(scalar: Seq<u8>) -> Seq<u8> {
    x25519(scalar, basepoint())
}

/// Relies on x25519_dalek's `x25519`: scalar multiplication with the
/// clamped scalar, a function of its two arguments; Diffie-Hellman built
/// from it agrees across sides, as the crate's own usage documents.
#[verifier::external_body]
fn x25519_exec(scalar: &[u8; 32], point: &[u8; 32]) -> (r: [u8; 32])
    ensures
        r@ == x25519(scalar@, point@),
        forall|i: int| 0 <= i < 32 ==> r@[i] == x25519_byte(scalar@, point@)(i),
        forall|s: Seq<u8>|
            point@ == x25519(s, basepoint()) ==> r@ == x25519(s, x25519(scalar@, basepoint())),
{
    x25519_dalek::x25519(*scalar, *point)
}

/// Relies on x25519_dalek's `x25519` and `X25519_BASEPOINT_BYTES`: the
/// public key of a scalar is the scalar times the base point, whose bytes
/// are nine followed by zeros.
#[verifier::external_body]
fn x25519_base_exec(scalar: &[u8; 32]) -> (r: [u8; 32])
    ensures
        r@ == x25519(scalar@, basepoint()),
        forall|i: int| 0 <= i < 32 ==> r@[i] == x25519_byte(scalar@, basepoint())(i),
{
    x25519_dalek::x25519(*scalar, x25519_dalek::X25519_BASEPOINT_BYTES)
}

/// Relies on rand's `thread_rng` and `fill_bytes`; nothing is promised of
/// the bytes drawn.
#[verifier::external_body]
fn random_bytes_32() -> (r: [u8; 32])
    ensures
        r@.len() == 32,
{
    let mut bytes = [0u8; 32];
    rand::thread_rng().fill_bytes(&mut bytes);
    bytes
}

/// One byte of an Ed25519 signature: signing is deterministic, a function
/// of the signing key and the message alone.
pub uninterp spec fn ed25519_sign_byte(key: Seq<u8>, msg: Seq<u8>) -> spec_fn(int) -> u8;

/// What Ed25519 signing returns: a 64-byte signature.
pub open spec fn ed25519_sign(key: Seq<u8>, msg: Seq<u8>) -> Seq<u8> {
    Seq::new(64, ed25519_sign_byte(key, msg))
}

/// Relies on ed25519_dalek's `SigningKey::from_bytes` and `sign`: Ed25519
/// signing is deterministic in key and message and yields 64 bytes.
#[verifier::external_body]
fn ed25519_sign_exec(key: &[u8; 32], msg: &[u8]) -> (r: [u8; 64])
    ensures
        r@ == ed25519_sign(key@, msg@),
        forall|i: int| 0 <= i < 64 ==> r@[i] == ed25519_sign_byte(key@, msg@)(i),
{
    let signing_key = ed25519_dalek::SigningKey::from_bytes(key);
    signing_key.sign(msg).to_bytes()
}

/// A key pair consistent with the curve: the public key is derived from
/// the private scalar.
pub open spec fn valid_keypair(kp: KeyPair) -> bool {
    kp.public@ == x25519_public(kp.private@)
}

/// A Curve25519 key pair.
#[derive(Clone, Copy)]
pub struct KeyPair {
    /// The public key.
    pub public: [u8; 32],
    /// The private scalar.
    pub private: [u8; 32],
}

impl KeyPair {
    /// Draws a fresh private scalar, clamps it, and derives its public
    /// key: the low three bits of the first byte are cleared, the high bit
    /// of the last byte is cleared and the bit below it set.
    pub fn generate() -> (r: KeyPair)
        ensures
            valid_keypair(r),
            r.private@[0] % 8 == 0,
            64 <= r.private@[31] < 128,
    {
        let drawn = random_bytes_32();
        let ghost b0 = drawn@[0];
        let ghost b31 = drawn@[31];
        let mut private = drawn;
        private[0] = private[0] & 248;
        private[31] = private[31] & 127;
        private[31] = private[31] | 64;
        proof {
            assert((b0 & 248) % 8 == 0) by (bit_vector);
            assert(64 <= ((b31 & 127) | 64) < 128) by (bit_vector);
            assert(private@[0] == b0 & 248);
            assert(private@[31] == (b31 & 127) | 64);
        }
        KeyPair::from_private_key(private)
    }

    /// The key pair of an existing private scalar.
    pub fn from_private_key(private: [u8; 32]) -> (r: KeyPair)
        ensures
            r.private@ == private@,
            valid_keypair(r),
    {
        let public = x25519_base_exec(&private);
        KeyPair { public, private }
    }

    /// The public key bytes.
    pub fn public_key(&self) -> (r: &[u8; 32])
        ensures
            r@ == self.public@,
    {
        &self.public
    }

    /// The private scalar bytes.
    pub fn private_key(&self) -> (r: &[u8; 32])
        ensures
            r@ == self.private@,
    {
        &self.private
    }

    /// The Diffie-Hellman shared secret with a peer's public key. When the
    /// peer's key is itself derived from a scalar, both sides compute the
    /// same secret.
    pub fn dh(&self, their_public: &[u8; 32]) -> (r: [u8; 32])
        ensures
            r@ == x25519(self.private@, their_public@),
            forall|s: Seq<u8>|
                their_public@ == x25519_public(s) ==> r@ == x25519(s, x25519_public(self.private@)),
    {
        x25519_exec(&self.private, their_public)
    }

    /// Signs another key pair's public key, prefixed by the key-type byte.
    pub fn sign(&self, key_to_sign: &KeyPair) -> (r: [u8; 64])
        ensures
            r@ == ed25519_sign(self.private@, seq![5u8] + key_to_sign.public@),
    {
        let mut message: Vec<u8> = Vec::new();
        message.push(5u8);
        message.extend_from_slice(key_to_sign.public.as_slice());
        proof {
            assert(message@ =~= seq![5u8] + key_to_sign.public@);
        }
        ed25519_sign_exec(&self.private, message.as_slice())
    }
}

/// Diffie-Hellman commutativity: the shared secrets two valid key pairs
/// derive from each other's public keys are the same bytes.
pub fn shared_secrets_agree(a: &KeyPair, b: &KeyPair) -> (r: ([u8; 32], [u8; 32]))
    requires
        valid_keypair(*a),
        valid_keypair(*b),
    ensures
        r.0@ == r.1@,
        r.0@ == x25519(a.private@, b.public@),
        r.1@ == x25519(b.private@, a.public@),
{
    let s1 = a.dh(&b.public);
    let s2 = b.dh(&a.public);
    proof {
        assert(b.public@ == x25519_public(b.private@));
        assert(s1@ == x25519(b.private@, x25519_public(a.private@)));
        assert(a.public@ == x25519_public(a.private@));
        assert(s2@ == x25519(b.private@, a.public@));
    }
    (s1, s2)
}

/// A one-time pre key: a key pair with an id and, when signed, the
/// signature of its public key under an identity key.
#[derive(Clone, Copy)]
pub struct PreKey {
    /// The key pair.
    pub key_pair: KeyPair,
    /// The key id.
    pub key_id: u32,
    /// The signature, for a signed pre key.
    pub signature: Option<[u8; 64]>,
}

impl PreKey {
    /// A fresh unsigned pre key.
    pub fn new(key_id: u32) -> (r: PreKey)
        ensures
            r.key_id == key_id,
            valid_keypair(r.key_pair),
            r.signature is None,
    {
        PreKey { key_pair: KeyPair::generate(), key_id, signature: None }
    }

    /// A fresh pre key signed by the identity key.
    pub fn new_signed(key_id: u32, identity_key: &KeyPair) -> (r: PreKey)
        ensures
            r.key_id == key_id,
            valid_keypair(r.key_pair),
            r.signature matches Some(sig) && sig@ == ed25519_sign(
                identity_key.private@,
                seq![5u8] + r.key_pair.public@,
            ),
    {
        let mut pre_key = PreKey::new(key_id);
        pre_key.signature = Some(identity_key.sign(&pre_key.key_pair));
        pre_key
    }
}

} // verus!
