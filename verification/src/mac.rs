//! HMAC (RFC 2104) over the SHA-2 digests, as SSH uses it: the integrity key
//! is exactly one digest long, so it never exceeds the hash block size.

use vstd::prelude::*;
use crate::crypto::{sha256, sha256_of, sha512, sha512_of};
use crate::wire::bytes_eq;

verus! {

/// The two digests the MAC and key-derivation layers run on.
#[derive(Clone, Copy, PartialEq, Eq, Structural, Debug)]
pub enum HashAlg {
    /// SHA-256: 32-byte output, 64-byte block.
    Sha256,
    /// SHA-512: 64-byte output, 128-byte block.
    Sha512,
}

impl HashAlg {
    /// The digest length in bytes.
    pub open spec fn spec_out_len(self) -> usize {
        match self {
            HashAlg::Sha256 => 32,
            HashAlg::Sha512 => 64,
        }
    }

    /// The digest length in bytes.
    pub fn out_len(self) -> (r: usize)
        ensures
            r == self.spec_out_len(),
    {
        match self {
            HashAlg::Sha256 => 32,
            HashAlg::Sha512 => 64,
        }
    }

    /// The hash block length in bytes.
    pub open spec fn spec_block_len(self) -> usize {
        match self {
            HashAlg::Sha256 => 64,
            HashAlg::Sha512 => 128,
        }
    }

    /// The hash block length in bytes.
    pub fn block_len(self) -> (r: usize)
        ensures
            r == self.spec_block_len(),
    {
        match self {
            HashAlg::Sha256 => 64,
            HashAlg::Sha512 => 128,
        }
    }
}

/// The digest of `data` under `alg`.
pub open spec fn spec_hash_of(alg: HashAlg, data: Seq<u8>) -> Seq<u8> {
    match alg {
        HashAlg::Sha256 => sha256_of(data),
        HashAlg::Sha512 => sha512_of(data),
    }
}

/// Compute the digest of `data` under `alg`.
pub fn digest(alg: HashAlg, data: &Vec<u8>) -> (r: Vec<u8>)
    ensures
        r@ == spec_hash_of(alg, data@),
        r@.len() == alg.spec_out_len(),
{
    match alg {
        HashAlg::Sha256 => sha256(data),
        HashAlg::Sha512 => sha512(data),
    }
}

/// The key padded with zeros to the block length, each byte XORed with `pad`.
pub open spec fn spec_xor_pad(key: Seq<u8>, block: nat, pad: u8) -> Seq<u8> {
    Seq::new(
        block,
        |i: int|
            if i < key.len() {
                key[i] ^ pad
            } else {
                pad
            },
    )
}

/// The HMAC of `msg` under `key` (RFC 2104), for a key no longer than the
/// hash block.
pub open spec fn spec_hmac(alg: HashAlg, key: Seq<u8>, msg: Seq<u8>) -> Seq<u8> {
    spec_hash_of(
        alg,
        spec_xor_pad(key, alg.spec_block_len() as nat, 0x5c) + spec_hash_of(
            alg,
            spec_xor_pad(key, alg.spec_block_len() as nat, 0x36) + msg,
        ),
    )
}

/// Build the padded, XORed key block.
fn xor_pad(key: &Vec<u8>, block: usize, pad: u8) -> (r: Vec<u8>)
    requires
        key@.len() <= block,
    ensures
        r@ == spec_xor_pad(key@, block as nat, pad),
{
    let mut out: Vec<u8> = Vec::new();
    let mut i: usize = 0;
    while i < block
        invariant
            i <= block,
            key@.len() <= block,
            out@.len() == i,
            forall|j: int| 0 <= j < i ==> out@[j] == (if j < key@.len() {
                key@[j] ^ pad
            } else {
                pad
            }),
        decreases block - i,
    {
        if i < key.len() {
            out.push(key[i] ^ pad);
        } else {
            out.push(pad);
        }
        i = i + 1;
    }
    assert(out@ =~= spec_xor_pad(key@, block as nat, pad));
    out
}

/// Append every byte of `src` to `dst`.
pub fn append_bytes(dst: &mut Vec<u8>, src: &Vec<u8>)
    ensures
        final(dst)@ == old(dst)@ + src@,
{
    let mut i: usize = 0;
    while i < src.len()
        invariant
            i <= src@.len(),
            dst@ == old(dst)@ + src@.subrange(0, i as int),
        decreases src@.len() - i,
    {
        dst.push(src[i]);
        i = i + 1;
        assert(dst@ =~= old(dst)@ + src@.subrange(0, i as int));
    }
    assert(final(dst)@ =~= old(dst)@ + src@);
}

/// Compute the HMAC of `msg` under `key`.
pub fn hmac(alg: HashAlg, key: &Vec<u8>, msg: &Vec<u8>) -> (r: Vec<u8>)
    requires
        key@.len() <= alg.spec_block_len(),
    ensures
        r@ == spec_hmac(alg, key@, msg@),
        r@.len() == alg.spec_out_len(),
{
    let block = alg.block_len();
    let mut inner = xor_pad(key, block, 0x36);
    append_bytes(&mut inner, msg);
    let inner_hash = digest(alg, &inner);
    let mut outer = xor_pad(key, block, 0x5c);
    append_bytes(&mut outer, &inner_hash);
    digest(alg, &outer)
}

/// Check a MAC tag: true exactly when `tag` is the HMAC of `msg` under
/// `key`.
pub fn hmac_verify(alg: HashAlg, key: &Vec<u8>, msg: &Vec<u8>, tag: &Vec<u8>) -> (r: bool)
    requires
        key@.len() <= alg.spec_block_len(),
    ensures
        r == (tag@ == spec_hmac(alg, key@, msg@)),
{
    let expect = hmac(alg, key, msg);
    bytes_eq(tag, &expect)
}

} // verus!
