//! Trusted bindings to the cryptographic collaborators: SHA-2 digests,
//! X25519 scalar multiplication, Ed25519 host-key signatures, AES-CTR, and
//! the thread RNG. Each binding's contract states only what the outside
//! crate's source shows; results that take pages to state are given names.

use vstd::prelude::*;
use ctr::cipher::{KeyIvInit, StreamCipher, StreamCipherSeek};
use sha2::Digest;
use signature::{Signer, Verifier};

verus! {

/// The SHA-256 digest of a byte string; a function of the bytes alone.
pub uninterp spec fn sha256_of(data: Seq<u8>) -> Seq<u8>;

/// Relies on sha2::Sha256 (FIPS 180-4): the digest depends on the input
/// alone and is thirty-two bytes long.
#[verifier::external_body]
pub fn sha256(data: &Vec<u8>) -> (r: Vec<u8>)
    ensures
        r@ == sha256_of(data@),
        r@.len() == 32,
{
    let mut h = sha2::Sha256::new();
    h.update(data.as_slice());
    h.finalize().to_vec()
}

/// The SHA-512 digest of a byte string; a function of the bytes alone.
pub uninterp spec fn sha512_of(data: Seq<u8>) -> Seq<u8>;

/// Relies on sha2::Sha512 (FIPS 180-4): the digest depends on the input
/// alone and is sixty-four bytes long.
#[verifier::external_body]
pub fn sha512(data: &Vec<u8>) -> (r: Vec<u8>)
    ensures
        r@ == sha512_of(data@),
        r@.len() == 64,
{
    let mut h = sha2::Sha512::new();
    h.update(data.as_slice());
    h.finalize().to_vec()
}

/// The X25519 function of a scalar and a point (RFC 7748); a function of the
/// two byte strings alone.
pub uninterp spec fn x25519_of(scalar: Seq<u8>, point: Seq<u8>) -> Seq<u8>;

/// Relies on x25519_dalek::x25519: the Montgomery-ladder result depends on
/// scalar and point alone and is thirty-two bytes long.
#[verifier::external_body]
pub fn x25519_mul(scalar: &Vec<u8>, point: &Vec<u8>) -> (r: Vec<u8>)
    requires
        scalar@.len() == 32,
        point@.len() == 32,
    ensures
        r@ == x25519_of(scalar@, point@),
        r@.len() == 32,
{
    let mut s = [0u8; 32];
    s.copy_from_slice(scalar.as_slice());
    let mut p = [0u8; 32];
    p.copy_from_slice(point.as_slice());
    x25519_dalek::x25519(s, p).to_vec()
}

/// The X25519 base point: nine followed by thirty-one zero bytes (RFC 7748).
pub open spec fn spec_basepoint() -> Seq<u8> {
    seq![9u8] + Seq::new(31, |i: int| 0u8)
}

/// Build the X25519 base point.
pub fn basepoint() -> (r: Vec<u8>)
    ensures
        r@ == spec_basepoint(),
        r@.len() == 32,
{
    let mut v: Vec<u8> = Vec::new();
    v.push(9);
    let mut i: usize = 0;
    while i < 31
        invariant
            i <= 31,
            v@.len() == i + 1,
            v@[0] == 9u8,
            forall|j: int| 1 <= j < v@.len() ==> v@[j] == 0u8,
        decreases 31 - i,
    {
        v.push(0);
        i = i + 1;
    }
    assert(v@ =~= spec_basepoint());
    v
}

/// Relies on rand::random: one byte from the thread RNG. Nothing can be
/// promised of its value.
#[verifier::external_body]
pub fn random_u8() -> u8 {
    rand::random()
}

/// Draw `n` bytes from the thread RNG.
pub fn random_bytes(n: usize) -> (r: Vec<u8>)
    ensures
        r@.len() == n,
{
    let mut v: Vec<u8> = Vec::new();
    let mut i: usize = 0;
    while i < n
        invariant
            i <= n,
            v@.len() == i,
        decreases n - i,
    {
        v.push(random_u8());
        i = i + 1;
    }
    v
}

/// Whether an SSH-encoded Ed25519 signature over a message verifies under a
/// public key in SSH blob encoding; a function of the three byte strings
/// alone (Ed25519 verification is deterministic, RFC 8032).
pub uninterp spec fn ssh_ed25519_verifies(
    key_blob: Seq<u8>,
    message: Seq<u8>,
    signature_blob: Seq<u8>,
) -> bool;

/// Relies on ssh_key::public::PublicKey::from_bytes,
/// ssh_key::Signature::try_from and signature::Verifier::verify: acceptance
/// depends on key blob, message and signature blob alone; an undecodable key
/// or signature never verifies.
#[verifier::external_body]
pub fn ed25519_verify(key_blob: &Vec<u8>, message: &Vec<u8>, signature_blob: &Vec<u8>) -> (r:
    bool)
    ensures
        r == ssh_ed25519_verifies(key_blob@, message@, signature_blob@),
{
    match (
        ssh_key::public::PublicKey::from_bytes(key_blob.as_slice()),
        ssh_key::Signature::try_from(signature_blob.as_slice()),
    ) {
        (Ok(key), Ok(sig)) => Verifier::verify(&key, message.as_slice(), &sig).is_ok(),
        _ => false,
    }
}

/// Whether a blob decodes as an SSH public key; a function of the blob
/// alone.
pub uninterp spec fn pk_blob_parses(blob: Seq<u8>) -> bool;

/// Relies on ssh_key::public::PublicKey::from_bytes: whether the blob
/// decodes as a public key depends on the blob alone, and decoding never
/// panics.
#[verifier::external_body]
pub fn public_key_parses(blob: &Vec<u8>) -> (r: bool)
    ensures
        r == pk_blob_parses(blob@),
{
    ssh_key::public::PublicKey::from_bytes(blob.as_slice()).is_ok()
}

#[verifier::external_type_specification]
#[verifier::external_body]
/// A host private key, opaque to the verifier; parsing and signing are
/// delegated to ssh_key.
pub struct ExPrivateKey(ssh_key::private::PrivateKey);

/// Relies on ssh_key::private::PrivateKey::public_key and
/// ssh_key::public::PublicKey::to_bytes: the host key blob in SSH wire
/// encoding. Nothing is stated of the bytes.
#[verifier::external_body]
pub fn public_key_blob(key: &ssh_key::private::PrivateKey) -> (r: Vec<u8>)
{
    key.public_key().to_bytes().unwrap_or_default()
}

/// Relies on signature::Signer::try_sign for ssh_key::private::PrivateKey
/// and ssh_key::Signature::encode: an SSH-encoded signature over the
/// message, or nothing for a key that cannot sign (an encrypted key, or one
/// whose algorithm has no signer here). Nothing is stated of the bytes.
#[verifier::external_body]
pub fn sign_message(key: &ssh_key::private::PrivateKey, message: &Vec<u8>) -> (r: Vec<u8>)
{
    match Signer::try_sign(key, message.as_slice()) {
        Ok(sig) => Vec::<u8>::try_from(sig).unwrap_or_default(),
        Err(_) => Vec::new(),
    }
}

/// The AES-128-CTR keystream application determined by key, initial counter
/// block, block offset and data; a function of its arguments alone.
pub uninterp spec fn aes128_ctr_of(key: Seq<u8>, iv: Seq<u8>, offset: u64, data: Seq<u8>) -> Seq<
    u8,
>;

/// Relies on ctr::Ctr128BE over aes::Aes128: a keystream XOR determined by
/// key, counter block and offset alone; it keeps the length, applying it
/// twice at the same position returns the input, and each byte depends only
/// on the keystream byte at its own position, so the first block stands on
/// its own.
#[verifier::external_body]
pub fn aes128_ctr_apply(key: &Vec<u8>, iv: &Vec<u8>, offset: u64, data: &Vec<u8>) -> (r: Vec<u8>)
    requires
        key@.len() == 16,
        iv@.len() == 16,
    ensures
        r@ == aes128_ctr_of(key@, iv@, offset, data@),
        r@.len() == data@.len(),
        aes128_ctr_of(key@, iv@, offset, r@) == data@,
        data@.len() >= 16 ==> r@.subrange(0, 16) == aes128_ctr_of(
            key@,
            iv@,
            offset,
            data@.subrange(0, 16),
        ),
        data@.len() >= 16 ==> aes128_ctr_of(key@, iv@, offset, r@.subrange(0, 16))
            == data@.subrange(0, 16),
{
    let c: Result<ctr::Ctr128BE<aes::Aes128>, _> = KeyIvInit::new_from_slices(key.as_slice(), iv.as_slice());
    match (c, offset.checked_mul(16)) {
        (Ok(mut c), Some(pos)) => {
            let mut buf = data.clone();
            if StreamCipherSeek::try_seek(&mut c, pos).is_err() {
                return data.clone();
            }
            c.apply_keystream(&mut buf);
            buf
        },
        _ => data.clone(),
    }
}

/// The AES-256-CTR keystream application determined by key, initial counter
/// block, block offset and data; a function of its arguments alone.
pub uninterp spec fn aes256_ctr_of(key: Seq<u8>, iv: Seq<u8>, offset: u64, data: Seq<u8>) -> Seq<
    u8,
>;

/// Relies on ctr::Ctr128BE over aes::Aes256: a keystream XOR determined by
/// key, counter block and offset alone; it keeps the length, applying it
/// twice at the same position returns the input, and each byte depends only
/// on the keystream byte at its own position, so the first block stands on
/// its own.
#[verifier::external_body]
pub fn aes256_ctr_apply(key: &Vec<u8>, iv: &Vec<u8>, offset: u64, data: &Vec<u8>) -> (r: Vec<u8>)
    requires
        key@.len() == 32,
        iv@.len() == 16,
    ensures
        r@ == aes256_ctr_of(key@, iv@, offset, data@),
        r@.len() == data@.len(),
        aes256_ctr_of(key@, iv@, offset, r@) == data@,
        data@.len() >= 16 ==> r@.subrange(0, 16) == aes256_ctr_of(
            key@,
            iv@,
            offset,
            data@.subrange(0, 16),
        ),
        data@.len() >= 16 ==> aes256_ctr_of(key@, iv@, offset, r@.subrange(0, 16))
            == data@.subrange(0, 16),
{
    let c: Result<ctr::Ctr128BE<aes::Aes256>, _> = KeyIvInit::new_from_slices(key.as_slice(), iv.as_slice());
    match (c, offset.checked_mul(16)) {
        (Ok(mut c), Some(pos)) => {
            let mut buf = data.clone();
            if StreamCipherSeek::try_seek(&mut c, pos).is_err() {
                return data.clone();
            }
            c.apply_keystream(&mut buf);
            buf
        },
        _ => data.clone(),
    }
}

} // verus!
