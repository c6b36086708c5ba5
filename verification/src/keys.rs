//! The key schedule (RFC 4253 §7.2): six byte strings derived from the
//! shared secret, the exchange hash and the session identifier by iterated
//! hashing, one single-byte label each.

use vstd::prelude::*;
use crate::algo::{Cipher, Hmac};
use crate::crypto::sha256;
use crate::crypto::sha256_of;
use crate::mac::append_bytes;
use crate::wire::{put_u32, spec_string, spec_u32_be};

verus! {

/// A byte string with its leading zero bytes removed.
pub open spec fn spec_strip_zeros(b: Seq<u8>) -> Seq<u8>
    decreases b.len(),
{
    if b.len() > 0 && b[0] == 0 {
        spec_strip_zeros(b.drop_first())
    } else {
        b
    }
}

/// The SSH `mpint` encoding of a non-negative integer given by big-endian
/// magnitude bytes (RFC 4251 §5): leading zeros dropped, a zero byte
/// prepended when the top bit is set, the whole length-prefixed.
pub open spec fn spec_mpint(b: Seq<u8>) -> Seq<u8> {
    let t = spec_strip_zeros(b);
    if t.len() == 0 {
        spec_u32_be(0)
    } else if t[0] >= 128 {
        spec_string(seq![0u8] + t)
    } else {
        spec_string(t)
    }
}

/// Encode a non-negative integer, given as big-endian magnitude bytes, as an
/// SSH `mpint`.
pub fn mpint_positive(b: &Vec<u8>) -> (r: Vec<u8>)
    requires
        b@.len() + 1 <= u32::MAX,
    ensures
        r@ == spec_mpint(b@),
{
    let mut start: usize = 0;
    assert(b@.subrange(0, b@.len() as int) =~= b@);
    while start < b.len() && b[start] == 0
        invariant
            start <= b@.len(),
            spec_strip_zeros(b@) == spec_strip_zeros(b@.subrange(start as int, b@.len() as int)),
        decreases b@.len() - start,
    {
        proof {
            let rest = b@.subrange(start as int, b@.len() as int);
            assert(rest.drop_first() =~= b@.subrange(start + 1 as int, b@.len() as int));
        }
        start = start + 1;
    }
    let ghost t = spec_strip_zeros(b@);
    proof {
        let rest = b@.subrange(start as int, b@.len() as int);
        assert(t == rest);
    }
    let mut out: Vec<u8> = Vec::new();
    if start == b.len() {
        // zero: an empty mpint
        put_u32(&mut out, 0);
        assert(out@ =~= spec_mpint(b@));
        return out;
    }
    let high = b[start];
    let len = b.len() - start;
    if high >= 128 {
        put_u32(&mut out, (len + 1) as u32);
        out.push(0);
        let mut i: usize = start;
        while i < b.len()
            invariant
                start <= i <= b@.len(),
                out@ == spec_u32_be((b@.len() - start + 1) as u32) + seq![0u8] + b@.subrange(
                    start as int,
                    i as int,
                ),
            decreases b@.len() - i,
        {
            out.push(b[i]);
            i = i + 1;
            assert(out@ =~= spec_u32_be((b@.len() - start + 1) as u32) + seq![0u8] + b@.subrange(
                start as int,
                i as int,
            ));
        }
        proof {
            assert(b@.subrange(start as int, b@.len() as int) == t);
            assert(out@ =~= spec_mpint(b@));
        }
    } else {
        put_u32(&mut out, len as u32);
        let mut i: usize = start;
        while i < b.len()
            invariant
                start <= i <= b@.len(),
                out@ == spec_u32_be((b@.len() - start) as u32) + b@.subrange(
                    start as int,
                    i as int,
                ),
            decreases b@.len() - i,
        {
            out.push(b[i]);
            i = i + 1;
            assert(out@ =~= spec_u32_be((b@.len() - start) as u32) + b@.subrange(
                start as int,
                i as int,
            ));
        }
        proof {
            assert(b@.subrange(start as int, b@.len() as int) == t);
            assert(out@ =~= spec_mpint(b@));
        }
    }
    out
}

/// The iterated key material: block zero hashes the secret, the exchange
/// hash, the label and the session identifier; each further block hashes the
/// secret, the exchange hash and everything so far.
pub open spec fn spec_kdf_blocks(
    k: Seq<u8>,
    h: Seq<u8>,
    label: u8,
    sid: Seq<u8>,
    n: nat,
) -> Seq<u8>
    decreases n,
{
    if n == 0 {
        sha256_of(k + h + seq![label] + sid)
    } else {
        let prev = spec_kdf_blocks(k, h, label, sid, (n - 1) as nat);
        prev + sha256_of(k + h + prev)
    }
}

/// Earlier key material is a prefix of later key material.
pub proof fn lemma_kdf_blocks_prefix(k: Seq<u8>, h: Seq<u8>, label: u8, sid: Seq<u8>, n1: nat, n2: nat)
    requires
        n1 <= n2,
    ensures
        spec_kdf_blocks(k, h, label, sid, n1).len() <= spec_kdf_blocks(k, h, label, sid, n2).len(),
        spec_kdf_blocks(k, h, label, sid, n2).subrange(
            0,
            spec_kdf_blocks(k, h, label, sid, n1).len() as int,
        ) == spec_kdf_blocks(k, h, label, sid, n1),
    decreases n2,
{
    if n1 < n2 {
        lemma_kdf_blocks_prefix(k, h, label, sid, n1, (n2 - 1) as nat);
        let prev = spec_kdf_blocks(k, h, label, sid, (n2 - 1) as nat);
        let p1 = spec_kdf_blocks(k, h, label, sid, n1);
        assert((prev + sha256_of(k + h + prev)).subrange(0, p1.len() as int) =~= prev.subrange(
            0,
            p1.len() as int,
        ));
    } else {
        let p = spec_kdf_blocks(k, h, label, sid, n1);
        assert(p.subrange(0, p.len() as int) =~= p);
    }
}

/// The key-derivation function is deterministic: any two runs long enough to
/// cover `needed` bytes agree on those bytes.
pub proof fn lemma_kdf_deterministic(
    k: Seq<u8>,
    h: Seq<u8>,
    label: u8,
    sid: Seq<u8>,
    needed: int,
    n1: nat,
    n2: nat,
)
    requires
        0 <= needed,
        spec_kdf_blocks(k, h, label, sid, n1).len() >= needed,
        spec_kdf_blocks(k, h, label, sid, n2).len() >= needed,
    ensures
        spec_kdf_blocks(k, h, label, sid, n1).subrange(0, needed) == spec_kdf_blocks(
            k,
            h,
            label,
            sid,
            n2,
        ).subrange(0, needed),
{
    if n1 <= n2 {
        lemma_kdf_blocks_prefix(k, h, label, sid, n1, n2);
        let p1 = spec_kdf_blocks(k, h, label, sid, n1);
        let p2 = spec_kdf_blocks(k, h, label, sid, n2);
        assert(p2.subrange(0, needed) =~= p2.subrange(0, p1.len() as int).subrange(0, needed));
    } else {
        lemma_kdf_blocks_prefix(k, h, label, sid, n2, n1);
        let p1 = spec_kdf_blocks(k, h, label, sid, n1);
        let p2 = spec_kdf_blocks(k, h, label, sid, n2);
        assert(p1.subrange(0, needed) =~= p1.subrange(0, p2.len() as int).subrange(0, needed));
    }
}

/// `out` is a prefix of the iterated key material for this label, `len`
/// bytes long: what [`derive_key`] hands out, and by
/// [`lemma_kdf_deterministic`] there is exactly one such string.
pub open spec fn spec_derived(
    k: Seq<u8>,
    h: Seq<u8>,
    label: u8,
    sid: Seq<u8>,
    len: int,
    out: Seq<u8>,
) -> bool {
    &&& out.len() == len
    &&& exists|n: nat|
        #![trigger spec_kdf_blocks(k, h, label, sid, n)]
        spec_kdf_blocks(k, h, label, sid, n).len() >= len && out == spec_kdf_blocks(
            k,
            h,
            label,
            sid,
            n,
        ).subrange(0, len)
}

/// Derive `needed` bytes of key material for the given label.
///
/// The result is the unique `needed`-byte prefix of the iterated key
/// material ([`lemma_kdf_deterministic`]).
pub fn derive_key(k: &Vec<u8>, h: &Vec<u8>, label: u8, sid: &Vec<u8>, needed: usize) -> (r: Vec<
    u8,
>)
    ensures
        r@.len() == needed,
        spec_derived(k@, h@, label, sid@, needed as int, r@),
{
    let mut seed: Vec<u8> = Vec::new();
    append_bytes(&mut seed, k);
    append_bytes(&mut seed, h);
    seed.push(label);
    append_bytes(&mut seed, sid);
    assert(seed@ =~= k@ + h@ + seq![label] + sid@);
    let mut out = sha256(&seed);
    let ghost mut n: nat = 0nat;
    assert(out@ == spec_kdf_blocks(k@, h@, label, sid@, n));
    while out.len() < needed
        invariant
            out@ == spec_kdf_blocks(k@, h@, label, sid@, n),
            out@.len() >= 32,
        decreases needed + 32 - out@.len(),
    {
        let mut round: Vec<u8> = Vec::new();
        append_bytes(&mut round, k);
        append_bytes(&mut round, h);
        append_bytes(&mut round, &out);
        assert(round@ =~= k@ + h@ + out@);
        let block = sha256(&round);
        append_bytes(&mut out, &block);
        proof {
            n = n + 1;
        }
    }
    let ghost full = out@;
    out.truncate(needed);
    assert(out@ =~= full.subrange(0, needed as int));
    out
}

/// One direction's derived keys: initialisation vector, encryption key and
/// integrity key (RFC 4253 §7.2).
#[derive(Clone, Debug)]
pub struct KeyChain {
    /// The initialisation vector.
    pub iv: Vec<u8>,
    /// The encryption key.
    pub key: Vec<u8>,
    /// The integrity key.
    pub hmac: Vec<u8>,
}

impl KeyChain {
    /// The sizes a transport with the given algorithms needs.
    pub open spec fn sized_for(self, cipher: Cipher, mac: Hmac) -> bool {
        &&& self.iv@.len() == cipher.spec_iv_size()
        &&& self.key@.len() == cipher.spec_key_size()
        &&& self.hmac@.len() == mac.spec_key_size()
    }

    /// An empty chain, for the identity transport before the first exchange.
    pub fn empty() -> (r: KeyChain)
        ensures
            r.iv@.len() == 0,
            r.key@.len() == 0,
            r.hmac@.len() == 0,
    {
        KeyChain { iv: Vec::new(), key: Vec::new(), hmac: Vec::new() }
    }

    /// Derive the client-to-server chain: labels `A`, `C`, `E`. Each field
    /// is exactly the derivation's prefix for its label.
    pub fn as_client(k: &Vec<u8>, h: &Vec<u8>, sid: &Vec<u8>, cipher: Cipher, mac: Hmac) -> (r:
        KeyChain)
        ensures
            r.sized_for(cipher, mac),
            spec_derived(k@, h@, 65, sid@, cipher.spec_iv_size() as int, r.iv@),
            spec_derived(k@, h@, 67, sid@, cipher.spec_key_size() as int, r.key@),
            spec_derived(k@, h@, 69, sid@, mac.spec_key_size() as int, r.hmac@),
    {
        KeyChain {
            iv: derive_key(k, h, 65, sid, cipher.iv_size()),
            key: derive_key(k, h, 67, sid, cipher.key_size()),
            hmac: derive_key(k, h, 69, sid, mac.key_size()),
        }
    }

    /// Derive the server-to-client chain: labels `B`, `D`, `F`. Each field
    /// is exactly the derivation's prefix for its label.
    pub fn as_server(k: &Vec<u8>, h: &Vec<u8>, sid: &Vec<u8>, cipher: Cipher, mac: Hmac) -> (r:
        KeyChain)
        ensures
            r.sized_for(cipher, mac),
            spec_derived(k@, h@, 66, sid@, cipher.spec_iv_size() as int, r.iv@),
            spec_derived(k@, h@, 68, sid@, cipher.spec_key_size() as int, r.key@),
            spec_derived(k@, h@, 70, sid@, mac.spec_key_size() as int, r.hmac@),
    {
        KeyChain {
            iv: derive_key(k, h, 66, sid, cipher.iv_size()),
            key: derive_key(k, h, 68, sid, cipher.key_size()),
            hmac: derive_key(k, h, 70, sid, mac.key_size()),
        }
    }
}

} // verus!
