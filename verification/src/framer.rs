//! The transport framer: after the handshake, each direction seals its
//! traffic under its own key and counter, with a three-byte big-endian
//! length before each ciphertext.

use vstd::prelude::*;

verus! {

use crate::cipher::{Cipher, CipherError, spec_nonce, aes256gcm_encrypt, aes256gcm_decrypt,
    GCM_P_MAX};
use crate::encoder::be_bytes3;

/// Seals a plaintext under the send cipher's current counter with empty
/// associated data, steps the counter, and prepends the three-byte length.
pub fn frame_outbound(cipher: &mut Cipher, plaintext: &[u8]) -> (r: Result<Vec<u8>, CipherError>)
    requires
        old(cipher).spec_counter() < u32::MAX,
        plaintext@.len() + 16 < 0x1000000,
    ensures
        final(cipher).spec_key() == old(cipher).spec_key(),
        final(cipher).spec_counter() == old(cipher).spec_counter() + 1,
        ({
            let ct = aes256gcm_encrypt(
                old(cipher).spec_key(),
                spec_nonce(old(cipher).spec_counter()),
                Seq::<u8>::empty(),
                plaintext@,
            );
            r matches Ok(f) && f@ == be_bytes3(ct.len()) + ct
        }),
{
    let no_ad: Vec<u8> = Vec::new();
    proof {
        assert(no_ad@ =~= Seq::<u8>::empty());
    }
    let ct = match cipher.encrypt(plaintext, no_ad.as_slice()) {
        Ok(c) => c,
        Err(e) => {
            proof {
                assert(false);
            }
            return Err(e);
        },
    };
    let n = ct.len();
    let mut frame: Vec<u8> = Vec::new();
    frame.push(((n / 65536) % 256) as u8);
    frame.push(((n / 256) % 256) as u8);
    frame.push((n % 256) as u8);
    frame.extend_from_slice(ct.as_slice());
    proof {
        assert(frame@ =~= be_bytes3(ct@.len()) + ct@);
    }
    Ok(frame)
}

/// Reads the three-byte length, checks the frame carries that many bytes,
/// and opens the indicated slice under the receive cipher's current
/// counter with empty associated data; the counter steps only on success
/// and the cipher is untouched on failure, which is fatal to the
/// connection.
pub fn parse_inbound(cipher: &mut Cipher, frame: &[u8]) -> (r: Result<Vec<u8>, CipherError>)
    requires
        old(cipher).spec_counter() < u32::MAX,
    ensures
        final(cipher).spec_key() == old(cipher).spec_key(),
        frame@.len() < 3 ==> r == Err::<Vec<u8>, _>(CipherError::DecryptionFailed)
            && *final(cipher) == *old(cipher),
        frame@.len() >= 3 ==> ({
            let len = (frame@[0] as nat) * 65536 + (frame@[1] as nat) * 256 + (frame@[2] as nat);
            if frame@.len() < 3 + len {
                r == Err::<Vec<u8>, _>(CipherError::DecryptionFailed)
                    && *final(cipher) == *old(cipher)
            } else {
                let ct = frame@.subrange(3, 3 + len as int);
                match aes256gcm_decrypt(
                    old(cipher).spec_key(),
                    spec_nonce(old(cipher).spec_counter()),
                    Seq::<u8>::empty(),
                    ct,
                ) {
                    Some(pt) => r matches Ok(x) && x@ == pt && final(cipher).spec_counter()
                        == old(cipher).spec_counter() + 1,
                    None => r == Err::<Vec<u8>, _>(CipherError::DecryptionFailed)
                        && *final(cipher) == *old(cipher),
                }
            }
        }),
    {
    if frame.len() < 3 {
        return Err(CipherError::DecryptionFailed);
    }
    let len: usize = (frame[0] as usize) * 65536 + (frame[1] as usize) * 256 + (frame[2] as usize);
    if frame.len() - 3 < len {
        return Err(CipherError::DecryptionFailed);
    }
    let ct = &frame[3..3 + len];
    let no_ad: Vec<u8> = Vec::new();
    proof {
        assert(no_ad@ =~= Seq::<u8>::empty());
    }
    let nonce = crate::cipher::nonce_bytes(cipher.counter());
    let pt = match cipher.decrypt_with_nonce(ct, &nonce, no_ad.as_slice()) {
        Ok(p) => p,
        Err(e) => {
            return Err(e);
        },
    };
    let _ = cipher.next_nonce();
    Ok(pt)
}

} // verus!
