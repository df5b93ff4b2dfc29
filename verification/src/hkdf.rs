//! HKDF-SHA256: HMAC-based extract-and-expand key derivation. The HMAC
//! primitive is an outside call with a named result; extraction and the
//! block-by-block expansion are verified against it.

use vstd::prelude::*;

verus! {

use hmac::Mac;
use sha2::Digest;

/// One byte of what HMAC-SHA256 returns: a function of key and message.
pub uninterp spec fn hmac_sha256_byte(key: Seq<u8>, msg: Seq<u8>, i: int) -> u8;

/// What HMAC-SHA256 returns: 32 bytes, a function of key and message.
pub open spec fn hmac_sha256(key: Seq<u8>, msg: Seq<u8>) -> Seq<u8> {
    Seq::new(32, |i: int| hmac_sha256_byte(key, msg, i))
}

/// One byte of what SHA-256 returns: a function of the message alone.
pub uninterp spec fn sha256_byte(msg: Seq<u8>, i: int) -> u8;

/// What SHA-256 returns: 32 bytes, a function of the message alone.
pub open spec fn sha256(msg: Seq<u8>) -> Seq<u8> {
    Seq::new(32, |i: int| sha256_byte(msg, i))
}

/// Relies on hmac's `Hmac<Sha256>` (new_from_slice, update, finalize):
/// the tag depends on key and message alone and is 32 bytes long; any key
/// length is accepted.
#[verifier::external_body]
pub fn hmac_sha256_exec(key: &[u8], msg: &[u8]) -> (r: Vec<u8>)
    ensures
        r@ == hmac_sha256(key@, msg@),
        r@.len() == 32,
        forall|i: int| 0 <= i < 32 ==> r@[i] == hmac_sha256_byte(key@, msg@, i),
{
    let mut mac = <hmac::Hmac<sha2::Sha256> as hmac::KeyInit>::new_from_slice(key).expect(
        "any key length works",
    );
    mac.update(msg);
    let out = mac.finalize().into_bytes();
    out.as_slice().to_vec()
}

/// Relies on sha2's `Sha256` (new, update, finalize): the digest depends
/// on the message alone and is 32 bytes long.
#[verifier::external_body]
pub fn sha256_exec(msg: &[u8]) -> (r: Vec<u8>)
    ensures
        r@ == sha256(msg@),
        r@.len() == 32,
        forall|i: int| 0 <= i < 32 ==> r@[i] == sha256_byte(msg@, i),
{
    let mut hasher = sha2::Sha256::new();
    hasher.update(msg);
    let out = hasher.finalize();
    out.as_slice().to_vec()
}

/// A run of zero bytes.
pub open spec fn zero_bytes(n: nat) -> Seq<u8> {
    Seq::new(n, |i: int| 0u8)
}

/// The extract step: a pseudorandom key from salt and input key material.
pub open spec fn hkdf_prk(salt: Seq<u8>, ikm: Seq<u8>) -> Seq<u8> {
    hmac_sha256(salt, ikm)
}

/// The `i`-th expansion block: HMAC of the previous block, the info
/// string, and the one-byte counter.
pub open spec fn hkdf_t(prk: Seq<u8>, info: Seq<u8>, i: nat) -> Seq<u8>
    decreases i,
{
    if i == 0 {
        Seq::<u8>::empty()
    } else {
        hmac_sha256(prk, hkdf_t(prk, info, (i - 1) as nat) + info + seq![i as u8])
    }
}

/// The first `k` expansion blocks, concatenated.
pub open spec fn hkdf_blocks(prk: Seq<u8>, info: Seq<u8>, k: nat) -> Seq<u8>
    decreases k,
{
    if k == 0 {
        Seq::<u8>::empty()
    } else {
        hkdf_blocks(prk, info, (k - 1) as nat) + hkdf_t(prk, info, k)
    }
}

/// The output key material: as many blocks as needed, cut to length.
pub open spec fn spec_hkdf_okm(prk: Seq<u8>, info: Seq<u8>, len: nat) -> Seq<u8> {
    hkdf_blocks(prk, info, (len + 31) / 32).take(len as int)
}

/// The salt that an absent salt stands for: 32 zero bytes.
pub open spec fn spec_hkdf_salt(salt: Option<Seq<u8>>) -> Seq<u8> {
    match salt {
        Some(s) => s,
        None => zero_bytes(32),
    }
}

/// Each expansion block is 32 bytes, so `k` blocks are `32 * k` bytes.
pub proof fn lemma_hkdf_blocks_len(prk: Seq<u8>, info: Seq<u8>, k: nat)
    ensures
        hkdf_blocks(prk, info, k).len() == 32 * k,
    decreases k,
{
    if k > 0 {
        lemma_hkdf_blocks_len(prk, info, (k - 1) as nat);
    }
}

/// HKDF-SHA256: extract once, then expand on demand.
pub struct Hkdf {
    prk: Vec<u8>,
}

impl View for Hkdf {
    type V = Seq<u8>;

    /// The pseudorandom key this instance expands from.
    closed spec fn view(&self) -> Seq<u8> {
        self.prk@
    }
}

impl Hkdf {
    /// Extracts a pseudorandom key from the input key material, using 32
    /// zero bytes when no salt is given.
    pub fn new(salt: Option<&[u8]>, ikm: &[u8]) -> (r: Hkdf)
        ensures
            r@ == hkdf_prk(
                spec_hkdf_salt(
                    match salt {
                        Some(s) => Some(s@),
                        None => None,
                    },
                ),
                ikm@,
            ),
    {
        let prk = match salt {
            Some(s) => hmac_sha256_exec(s, ikm),
            None => {
                let mut zeros: Vec<u8> = Vec::new();
                let mut i: usize = 0;
                while i < 32
                    invariant
                        0 <= i <= 32,
                        zeros@ =~= zero_bytes(i as nat),
                    decreases 32 - i,
                {
                    zeros.push(0u8);
                    proof {
                        assert(zeros@ =~= zero_bytes(i as nat + 1));
                    }
                    i = i + 1;
                }
                hmac_sha256_exec(zeros.as_slice(), ikm)
            },
        };
        Hkdf { prk }
    }

    /// Expands the key to `length` bytes under the given info string.
    pub fn expand(&self, info: &[u8], length: usize) -> (r: Vec<u8>)
        requires
            length <= 8160,
        ensures
            r@ == spec_hkdf_okm(self@, info@, length as nat),
    {
        let nblocks: usize = (length + 31) / 32;
        let mut output: Vec<u8> = Vec::new();
        let mut t: Vec<u8> = Vec::new();
        let mut b: usize = 0;
        proof {
            assert(output@ =~= hkdf_blocks(self@, info@, 0));
            assert(t@ =~= hkdf_t(self@, info@, 0));
        }
        while b < nblocks
            invariant
                nblocks <= 256,
                0 <= b <= nblocks,
                output@ == hkdf_blocks(self@, info@, b as nat),
                t@ == hkdf_t(self@, info@, b as nat),
            decreases nblocks - b,
        {
            let mut msg: Vec<u8> = t.clone();
            msg.extend_from_slice(info);
            msg.push((b + 1) as u8);
            proof {
                assert(msg@ =~= hkdf_t(self@, info@, b as nat) + info@ + seq![(b + 1) as u8]);
            }
            t = hmac_sha256_exec(self.prk.as_slice(), msg.as_slice());
            output.extend_from_slice(t.as_slice());
            b = b + 1;
        }
        output.truncate(length);
        proof {
            lemma_hkdf_blocks_len(self@, info@, nblocks as nat);
        }
        output
    }

    /// Extract and expand in one step.
    pub fn derive(salt: Option<&[u8]>, ikm: &[u8], info: &[u8], length: usize) -> (r: Vec<u8>)
        requires
            length <= 8160,
        ensures
            r@ == spec_hkdf_okm(
                hkdf_prk(
                    spec_hkdf_salt(
                        match salt {
                            Some(s) => Some(s@),
                            None => None,
                        },
                    ),
                    ikm@,
                ),
                info@,
                length as nat,
            ),
    {
        let hkdf = Hkdf::new(salt, ikm);
        hkdf.expand(info, length)
    }
}

/// The 64 bytes the secure channel derives from a shared secret and a
/// salt, split into two 32-byte keys.
pub open spec fn spec_noise_derive(salt: Seq<u8>, ikm: Seq<u8>) -> Seq<u8> {
    spec_hkdf_okm(hkdf_prk(salt, ikm), Seq::<u8>::empty(), 64)
}

/// Copies a 32-byte slice region into an array.
pub fn to_key32(v: &[u8], from: usize) -> (r: [u8; 32])
    requires
        from + 32 <= v@.len(),
    ensures
        r@ == v@.subrange(from as int, from as int + 32),
{
    let n = v.len();
    let mut out: [u8; 32] = [0u8; 32];
    let mut i: usize = 0;
    while i < 32
        invariant
            n == v@.len(),
            from + 32 <= n,
            0 <= i <= 32,
            out@.len() == 32,
            forall|j: int| 0 <= j < i ==> out@[j] == v@[from + j],
        decreases 32 - i,
    {
        out[i] = v[from + i];
        i = i + 1;
    }
    proof {
        assert(out@ =~= v@.subrange(from as int, from as int + 32));
    }
    out
}

/// Derives the two 32-byte direction keys for the secure channel.
pub fn derive_noise_keys(shared_secret: &[u8], salt: &[u8]) -> (r: ([u8; 32], [u8; 32]))
    ensures
        r.0@ == spec_noise_derive(salt@, shared_secret@).subrange(0, 32),
        r.1@ == spec_noise_derive(salt@, shared_secret@).subrange(32, 64),
{
    let no_info: Vec<u8> = Vec::new();
    let derived = Hkdf::derive(Some(salt), shared_secret, no_info.as_slice(), 64);
    proof {
        assert(no_info@ =~= Seq::<u8>::empty());
    }
    proof {
        lemma_hkdf_blocks_len(
            hkdf_prk(salt@, shared_secret@),
            Seq::<u8>::empty(),
            2,
        );
        assert(derived@.len() == 64);
    }
    let key1 = to_key32(derived.as_slice(), 0);
    let key2 = to_key32(derived.as_slice(), 32);
    (key1, key2)
}

/// Determinism of the derivation: two outputs drawn from the same salt,
/// key material, info and length are the same bytes.
pub proof fn lemma_hkdf_deterministic(
    salt: Seq<u8>,
    ikm: Seq<u8>,
    info: Seq<u8>,
    len: nat,
    r1: Seq<u8>,
    r2: Seq<u8>,
)
    requires
        r1 == spec_hkdf_okm(hkdf_prk(salt, ikm), info, len),
        r2 == spec_hkdf_okm(hkdf_prk(salt, ikm), info, len),
    ensures
        r1 == r2,
{
}

} // verus!
