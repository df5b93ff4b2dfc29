//! The AEAD primitive of the secure channel: AES-256-GCM keyed by 32
//! bytes, with a 12-byte nonce whose low four bytes carry a counter that
//! steps by one per operation.

use vstd::prelude::*;

verus! {

use aes_gcm::aead::Aead;
use aes_gcm::KeyInit;
use crate::hkdf::zero_bytes;

/// One byte of an AES-256-GCM sealing: a function of key, nonce,
/// associated data and plaintext alone.
pub uninterp spec fn aes256gcm_encrypt_byte(
    key: Seq<u8>,
    nonce: Seq<u8>,
    aad: Seq<u8>,
    pt: Seq<u8>,
    i: int,
) -> u8;

/// What AES-256-GCM sealing returns: the ciphertext with its 16-byte tag.
pub open spec fn aes256gcm_encrypt(key: Seq<u8>, nonce: Seq<u8>, aad: Seq<u8>, pt: Seq<u8>) -> Seq<
    u8,
> {
    Seq::new(pt.len() + 16, |i: int| aes256gcm_encrypt_byte(key, nonce, aad, pt, i))
}

/// Whether AES-256-GCM opening authenticates the given ciphertext.
pub uninterp spec fn aes256gcm_decrypt_ok(
    key: Seq<u8>,
    nonce: Seq<u8>,
    aad: Seq<u8>,
    ct: Seq<u8>,
) -> bool;

/// One byte of what AES-256-GCM opening returns.
pub uninterp spec fn aes256gcm_decrypt_byte(
    key: Seq<u8>,
    nonce: Seq<u8>,
    aad: Seq<u8>,
    ct: Seq<u8>,
    i: int,
) -> u8;

/// What AES-256-GCM opening returns: the plaintext when the tag
/// authenticates, nothing otherwise.
pub open spec fn aes256gcm_decrypt(key: Seq<u8>, nonce: Seq<u8>, aad: Seq<u8>, ct: Seq<u8>) -> Option<
    Seq<u8>,
> {
    if ct.len() >= 16 && aes256gcm_decrypt_ok(key, nonce, aad, ct) {
        Some(Seq::new((ct.len() - 16) as nat, |i: int| aes256gcm_decrypt_byte(key, nonce, aad, ct, i)))
    } else {
        None
    }
}

/// The longest plaintext one AES-GCM sealing accepts.
pub const GCM_P_MAX: u64 = 68719476704;

/// The longest associated data one AES-GCM operation accepts.
pub const GCM_A_MAX: u64 = 2305843009213693951;

/// Relies on aes_gcm's `Aes256Gcm` (new_from_slice, encrypt): sealing is a
/// function of key, nonce, associated data and plaintext; the result is
/// the plaintext length plus a 16-byte tag; it succeeds whenever the
/// plaintext and associated data are within the mode's limits.
#[verifier::external_body]
fn aead_encrypt_raw(key: &[u8; 32], nonce: &[u8; 12], aad: &[u8], pt: &[u8]) -> (r: Option<Vec<u8>>)
    ensures
        (r matches Some(ct) ==> ct@ == aes256gcm_encrypt(key@, nonce@, aad@, pt@) && ct@.len()
            == pt@.len() + 16 && forall|i: int|
            0 <= i < ct@.len() ==> ct@[i] == aes256gcm_encrypt_byte(key@, nonce@, aad@, pt@, i)),
        (pt@.len() <= GCM_P_MAX && aad@.len() <= GCM_A_MAX) ==> r is Some,
{
    let cipher = match aes_gcm::Aes256Gcm::new_from_slice(key) {
        Ok(c) => c,
        Err(_) => {
            return None;
        },
    };
    let nonce_arr = aes_gcm::aead::Nonce::<aes_gcm::Aes256Gcm>::try_from(&nonce[..]).ok()?;
    cipher.encrypt(&nonce_arr, aes_gcm::aead::Payload { msg: pt, aad }).ok()
}

/// Relies on aes_gcm's `Aes256Gcm` (new_from_slice, decrypt): opening
/// succeeds exactly when the tag authenticates; it then returns the
/// plaintext the matching sealing started from, so opening what sealing
/// produced under the same key, nonce and associated data gives back the
/// sealed plaintext.
#[verifier::external_body]
fn aead_decrypt_raw(key: &[u8; 32], nonce: &[u8; 12], aad: &[u8], ct: &[u8]) -> (r: Option<Vec<u8>>)
    ensures
        r is Some <==> (ct@.len() >= 16 && aes256gcm_decrypt_ok(key@, nonce@, aad@, ct@)),
        r matches Some(pt) ==> (Some(pt@) == aes256gcm_decrypt(key@, nonce@, aad@, ct@)
            && pt@.len() + 16 == ct@.len() && (forall|i: int|
            0 <= i < pt@.len() ==> pt@[i] == aes256gcm_decrypt_byte(key@, nonce@, aad@, ct@, i))),
        (r is None ==> (forall|pt: Seq<u8>| ct@ != aes256gcm_encrypt(key@, nonce@, aad@, pt))),
        (r matches Some(x) ==> (forall|pt: Seq<u8>|
            ct@ == aes256gcm_encrypt(key@, nonce@, aad@, pt) ==> x@ == pt)),
{
    let cipher = match aes_gcm::Aes256Gcm::new_from_slice(key) {
        Ok(c) => c,
        Err(_) => {
            return None;
        },
    };
    let nonce_arr = aes_gcm::aead::Nonce::<aes_gcm::Aes256Gcm>::try_from(&nonce[..]).ok()?;
    cipher.decrypt(&nonce_arr, aes_gcm::aead::Payload { msg: ct, aad }).ok()
}

/// What a cipher operation can report.
#[derive(Debug, Clone, PartialEq)]
pub enum CipherError {
    InvalidKey,
    EncryptionFailed,
    DecryptionFailed,
}

/// The nonce a counter stands for: eight zero bytes, then the counter,
/// big-endian, in the low four.
pub open spec fn spec_nonce(counter: u32) -> Seq<u8> {
    zero_bytes(8) + seq![
        ((counter as nat) / 0x1000000 % 256) as u8,
        ((counter as nat) / 0x10000 % 256) as u8,
        ((counter as nat) / 0x100 % 256) as u8,
        ((counter as nat) % 256) as u8,
    ]
}

/// The twelve nonce bytes a counter stands for.
pub fn nonce_bytes(counter: u32) -> (r: [u8; 12])
    ensures
        r@ == spec_nonce(counter),
{
    let mut nonce: [u8; 12] = [0u8; 12];
    nonce[8] = ((counter / 0x1000000) % 256) as u8;
    nonce[9] = ((counter / 0x10000) % 256) as u8;
    nonce[10] = ((counter / 0x100) % 256) as u8;
    nonce[11] = (counter % 256) as u8;
    proof {
        assert(nonce@ =~= spec_nonce(counter));
    }
    nonce
}

/// An AES-256-GCM cipher with a per-direction counter for its nonces.
pub struct Cipher {
    key: [u8; 32],
    nonce_counter: u32,
}

impl Cipher {
    /// The 32-byte key.
    pub closed spec fn spec_key(&self) -> Seq<u8> {
        self.key@
    }

    /// The counter that names the next nonce.
    pub closed spec fn spec_counter(&self) -> u32 {
        self.nonce_counter
    }

    /// The current counter value.
    pub fn counter(&self) -> (r: u32)
        ensures
            r == self.spec_counter(),
    {
        self.nonce_counter
    }

    /// A cipher over the given key, counter at zero.
    pub fn new(key: [u8; 32]) -> (r: Cipher)
        ensures
            r.spec_key() == key@,
            r.spec_counter() == 0,
    {
        Cipher { key, nonce_counter: 0 }
    }

    /// The next nonce: the current counter, which then steps by one.
    pub fn next_nonce(&mut self) -> (r: [u8; 12])
        requires
            old(self).spec_counter() < u32::MAX,
        ensures
            r@ == spec_nonce(old(self).spec_counter()),
            final(self).spec_counter() == old(self).spec_counter() + 1,
            final(self).spec_key() == old(self).spec_key(),
    {
        let c = self.nonce_counter;
        self.nonce_counter = c + 1;
        nonce_bytes(c)
    }

    /// Seals a plaintext under a given nonce, leaving the counter alone.
    pub fn encrypt_with_nonce(&self, plaintext: &[u8], nonce: &[u8; 12], ad: &[u8]) -> (r: Result<
        Vec<u8>,
        CipherError,
    >)
        requires
            plaintext@.len() <= GCM_P_MAX,
            ad@.len() <= GCM_A_MAX,
        ensures
            r matches Ok(ct) && ct@ == aes256gcm_encrypt(
                self.spec_key(),
                nonce@,
                ad@,
                plaintext@,
            ),
    {
        match aead_encrypt_raw(&self.key, nonce, ad, plaintext) {
            Some(ct) => Ok(ct),
            None => Err(CipherError::EncryptionFailed),
        }
    }

    /// Opens a ciphertext under a given nonce, leaving the counter alone.
    pub fn decrypt_with_nonce(&self, ciphertext: &[u8], nonce: &[u8; 12], ad: &[u8]) -> (r: Result<
        Vec<u8>,
        CipherError,
    >)
        ensures
            match aes256gcm_decrypt(self.spec_key(), nonce@, ad@, ciphertext@) {
                Some(pt) => r matches Ok(x) && x@ == pt,
                None => r == Err::<Vec<u8>, _>(CipherError::DecryptionFailed),
            },
            (r matches Err(e) ==> e == CipherError::DecryptionFailed && (forall|pt: Seq<u8>|
                ciphertext@ != aes256gcm_encrypt(self.spec_key(), nonce@, ad@, pt))),
            (r matches Ok(x) ==> (forall|pt: Seq<u8>|
                ciphertext@ == aes256gcm_encrypt(self.spec_key(), nonce@, ad@, pt) ==> x@ == pt)),
    {
        match aead_decrypt_raw(&self.key, nonce, ad, ciphertext) {
            Some(pt) => Ok(pt),
            None => Err(CipherError::DecryptionFailed),
        }
    }

    /// Seals under the current counter's nonce and steps the counter.
    pub fn encrypt(&mut self, plaintext: &[u8], ad: &[u8]) -> (r: Result<Vec<u8>, CipherError>)
        requires
            old(self).spec_counter() < u32::MAX,
            plaintext@.len() <= GCM_P_MAX,
            ad@.len() <= GCM_A_MAX,
        ensures
            final(self).spec_key() == old(self).spec_key(),
            final(self).spec_counter() == old(self).spec_counter() + 1,
            r matches Ok(ct) && ct@ == aes256gcm_encrypt(
                old(self).spec_key(),
                spec_nonce(old(self).spec_counter()),
                ad@,
                plaintext@,
            ),
    {
        let nonce = self.next_nonce();
        self.encrypt_with_nonce(plaintext, &nonce, ad)
    }

    /// Opens under the current counter's nonce and steps the counter.
    pub fn decrypt(&mut self, ciphertext: &[u8], ad: &[u8]) -> (r: Result<Vec<u8>, CipherError>)
        requires
            old(self).spec_counter() < u32::MAX,
        ensures
            final(self).spec_key() == old(self).spec_key(),
            final(self).spec_counter() == old(self).spec_counter() + 1,
            match aes256gcm_decrypt(
                old(self).spec_key(),
                spec_nonce(old(self).spec_counter()),
                ad@,
                ciphertext@,
            ) {
                Some(pt) => r matches Ok(x) && x@ == pt,
                None => r == Err::<Vec<u8>, _>(CipherError::DecryptionFailed),
            },
            (r matches Err(e) ==> e == CipherError::DecryptionFailed && (forall|pt: Seq<u8>|
                ciphertext@ != aes256gcm_encrypt(
                    old(self).spec_key(),
                    spec_nonce(old(self).spec_counter()),
                    ad@,
                    pt,
                ))),
            (r matches Ok(x) ==> (forall|pt: Seq<u8>|
                ciphertext@ == aes256gcm_encrypt(
                    old(self).spec_key(),
                    spec_nonce(old(self).spec_counter()),
                    ad@,
                    pt,
                ) ==> x@ == pt)),
    {
        let nonce = self.next_nonce();
        self.decrypt_with_nonce(ciphertext, &nonce, ad)
    }

    /// Puts the counter back to zero.
    pub fn reset_nonce(&mut self)
        ensures
            final(self).spec_counter() == 0,
            final(self).spec_key() == old(self).spec_key(),
    {
        self.nonce_counter = 0;
    }

    /// Sets the counter to a given value.
    pub fn set_nonce(&mut self, counter: u32)
        ensures
            final(self).spec_counter() == counter,
            final(self).spec_key() == old(self).spec_key(),
    {
        self.nonce_counter = counter;
    }
}

} // verus!
