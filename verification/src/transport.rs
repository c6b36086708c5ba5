//! One direction's transport: key chain, cipher state, cipher, MAC and
//! compression, with the codec operations the framing engine uses
//! (RFC 4253 §6).

use vstd::prelude::*;
use crate::algo::{Cipher, Compress, Hmac};
use crate::crypto::{aes128_ctr_apply, aes128_ctr_of, aes256_ctr_apply, aes256_ctr_of, random_u8};
use crate::keys::KeyChain;
use crate::mac::{hmac, hmac_verify, spec_hmac, HashAlg};
use crate::wire::{put_u32, spec_u32_be};
use crate::{Error, SshResult};

verus! {

/// Per-direction running cipher state: the block offset into the keystream,
/// reset atomically with each rekey.
#[derive(Clone, Debug)]
pub struct CipherState {
    /// How many cipher blocks have been consumed since the keys were
    /// installed.
    pub offset: u64,
}

/// The bundle applied to one direction of traffic.
#[derive(Clone, Debug)]
pub struct Transport {
    /// The derived keys.
    pub chain: KeyChain,
    /// The running cipher state; present exactly when a cipher is installed.
    pub state: Option<CipherState>,
    /// The negotiated cipher.
    pub cipher: Cipher,
    /// The negotiated MAC.
    pub hmac: Hmac,
    /// The negotiated compression.
    pub compress: Compress,
}

/// The two directions, always replaced atomically.
#[derive(Clone, Debug)]
pub struct TransportPair {
    /// The receiving direction.
    pub rx: Transport,
    /// The transmitting direction.
    pub tx: Transport,
}

/// The MAC's hash, for the two MACs that carry one.
pub open spec fn spec_mac_alg(m: Hmac) -> HashAlg {
    match m {
        Hmac::NoMac => HashAlg::Sha256,
        Hmac::HmacSha2256 => HashAlg::Sha256,
        Hmac::HmacSha2512 => HashAlg::Sha512,
    }
}

/// The keystream application of `cipher` at block offset `offset`.
pub open spec fn spec_cipher_apply(
    cipher: Cipher,
    key: Seq<u8>,
    iv: Seq<u8>,
    offset: u64,
    data: Seq<u8>,
) -> Seq<u8> {
    match cipher {
        Cipher::NoCipher => data,
        Cipher::Aes128Ctr => aes128_ctr_of(key, iv, offset, data),
        Cipher::Aes256Ctr => aes256_ctr_of(key, iv, offset, data),
    }
}

/// The MAC tag over a sequence number and a plaintext packet; empty when no
/// MAC is negotiated.
pub open spec fn spec_tag(t: Transport, seq: u32, plain: Seq<u8>) -> Seq<u8> {
    if t.hmac.spec_size() > 0 {
        spec_hmac(spec_mac_alg(t.hmac), t.chain.hmac@, spec_u32_be(seq) + plain)
    } else {
        Seq::empty()
    }
}

impl Transport {
    /// Well-formed: keys sized for the algorithms, cipher state present
    /// exactly when key material is installed.
    pub open spec fn wf(self) -> bool {
        &&& self.chain.sized_for(self.cipher, self.hmac)
        &&& (self.state is Some <==> self.cipher.spec_is_some())
    }

    /// The current keystream block offset; zero when no cipher runs.
    pub open spec fn spec_offset(self) -> u64 {
        match self.state {
            Some(s) => s.offset,
            None => 0,
        }
    }

    /// The identity transport, in force before the first key exchange.
    pub fn initial() -> (r: Transport)
        ensures
            r.wf(),
            r.cipher == Cipher::NoCipher,
            r.hmac == Hmac::NoMac,
            r.compress == Compress::NoCompression,
    {
        Transport {
            chain: KeyChain::empty(),
            state: None,
            cipher: Cipher::NoCipher,
            hmac: Hmac::NoMac,
            compress: Compress::NoCompression,
        }
    }

    /// The negotiated MAC.
    pub fn mac(&self) -> (r: Hmac)
        ensures
            r == self.hmac,
    {
        self.hmac
    }

    /// The cipher's block size.
    pub fn block_size(&self) -> (r: usize)
        ensures
            r == self.cipher.spec_block_size(),
    {
        self.cipher.block_size()
    }

    /// Apply the keystream at the current offset without advancing it, to
    /// look at a packet's first block before the rest has arrived.
    pub fn keystream_at(&self, data: &Vec<u8>) -> (r: Vec<u8>)
        requires
            self.wf(),
        ensures
            r@ == spec_cipher_apply(
                self.cipher,
                self.chain.key@,
                self.chain.iv@,
                self.spec_offset(),
                data@,
            ),
            r@.len() == data@.len(),
            spec_cipher_apply(
                self.cipher,
                self.chain.key@,
                self.chain.iv@,
                self.spec_offset(),
                r@,
            ) == data@,
            data@.len() >= 16 ==> r@.subrange(0, 16) == spec_cipher_apply(
                self.cipher,
                self.chain.key@,
                self.chain.iv@,
                self.spec_offset(),
                data@.subrange(0, 16),
            ),
            data@.len() >= 16 ==> spec_cipher_apply(
                self.cipher,
                self.chain.key@,
                self.chain.iv@,
                self.spec_offset(),
                r@.subrange(0, 16),
            ) == data@.subrange(0, 16),
    {
        match self.cipher {
            Cipher::NoCipher => {
                let mut out: Vec<u8> = Vec::new();
                let mut i: usize = 0;
                while i < data.len()
                    invariant
                        i <= data@.len(),
                        out@ =~= data@.subrange(0, i as int),
                    decreases data@.len() - i,
                {
                    out.push(data[i]);
                    i = i + 1;
                    assert(out@ =~= data@.subrange(0, i as int));
                }
                assert(out@ =~= data@);
                out
            },
            Cipher::Aes128Ctr => {
                let off = match &self.state {
                    Some(s) => s.offset,
                    None => 0,
                };
                aes128_ctr_apply(&self.chain.key, &self.chain.iv, off, data)
            },
            Cipher::Aes256Ctr => {
                let off = match &self.state {
                    Some(s) => s.offset,
                    None => 0,
                };
                aes256_ctr_apply(&self.chain.key, &self.chain.iv, off, data)
            },
        }
    }

    /// Advance the keystream offset by the blocks that `consumed` bytes
    /// cover.
    pub fn advance(&mut self, consumed: usize)
        requires
            old(self).wf(),
        ensures
            final(self).wf(),
            final(self).chain == old(self).chain,
            final(self).cipher == old(self).cipher,
            final(self).hmac == old(self).hmac,
            final(self).compress == old(self).compress,
            final(self).spec_offset() == (if old(self).cipher.spec_is_some() {
                crate::transport::spec_advanced(old(self).spec_offset(), consumed as nat)
            } else {
                old(self).spec_offset()
            }),
    {
        let blocks = (consumed / 16) as u64 + (if consumed % 16 > 0 {
            1u64
        } else {
            0u64
        });
        match &mut self.state {
            Some(s) => {
                s.offset = s.offset.wrapping_add(blocks);
            },
            None => {},
        }
    }

    /// Decrypt in place at the current offset and advance the state.
    pub fn decrypt(&mut self, buf: &Vec<u8>) -> (r: Vec<u8>)
        requires
            old(self).wf(),
        ensures
            final(self).wf(),
            r@ == spec_cipher_apply(
                old(self).cipher,
                old(self).chain.key@,
                old(self).chain.iv@,
                old(self).spec_offset(),
                buf@,
            ),
            r@.len() == buf@.len(),
            spec_cipher_apply(
                old(self).cipher,
                old(self).chain.key@,
                old(self).chain.iv@,
                old(self).spec_offset(),
                r@,
            ) == buf@,
            buf@.len() >= 16 ==> r@.subrange(0, 16) == spec_cipher_apply(
                old(self).cipher,
                old(self).chain.key@,
                old(self).chain.iv@,
                old(self).spec_offset(),
                buf@.subrange(0, 16),
            ),
            buf@.len() >= 16 ==> spec_cipher_apply(
                old(self).cipher,
                old(self).chain.key@,
                old(self).chain.iv@,
                old(self).spec_offset(),
                r@.subrange(0, 16),
            ) == buf@.subrange(0, 16),
            final(self).chain == old(self).chain,
            final(self).cipher == old(self).cipher,
            final(self).hmac == old(self).hmac,
            final(self).compress == old(self).compress,
            final(self).spec_offset() == (if old(self).cipher.spec_is_some() {
                crate::transport::spec_advanced(old(self).spec_offset(), buf@.len())
            } else {
                old(self).spec_offset()
            }),
    {
        let r = self.keystream_at(buf);
        self.advance(buf.len());
        r
    }

    /// Encrypt in place at the current offset and advance the state: the
    /// same keystream application as [`Transport::decrypt`].
    pub fn encrypt(&mut self, buf: &Vec<u8>) -> (r: Vec<u8>)
        requires
            old(self).wf(),
        ensures
            final(self).wf(),
            r@ == spec_cipher_apply(
                old(self).cipher,
                old(self).chain.key@,
                old(self).chain.iv@,
                old(self).spec_offset(),
                buf@,
            ),
            r@.len() == buf@.len(),
            spec_cipher_apply(
                old(self).cipher,
                old(self).chain.key@,
                old(self).chain.iv@,
                old(self).spec_offset(),
                r@,
            ) == buf@,
            buf@.len() >= 16 ==> r@.subrange(0, 16) == spec_cipher_apply(
                old(self).cipher,
                old(self).chain.key@,
                old(self).chain.iv@,
                old(self).spec_offset(),
                buf@.subrange(0, 16),
            ),
            buf@.len() >= 16 ==> spec_cipher_apply(
                old(self).cipher,
                old(self).chain.key@,
                old(self).chain.iv@,
                old(self).spec_offset(),
                r@.subrange(0, 16),
            ) == buf@.subrange(0, 16),
            final(self).chain == old(self).chain,
            final(self).cipher == old(self).cipher,
            final(self).hmac == old(self).hmac,
            final(self).compress == old(self).compress,
            final(self).spec_offset() == (if old(self).cipher.spec_is_some() {
                crate::transport::spec_advanced(old(self).spec_offset(), buf@.len())
            } else {
                old(self).spec_offset()
            }),
    {
        let r = self.keystream_at(buf);
        self.advance(buf.len());
        r
    }

    /// Verify a received packet's MAC over the sequence number and the
    /// plaintext packet; succeeds exactly when the tag matches, and always
    /// when no MAC is negotiated.
    pub fn open(&self, buf: &Vec<u8>, mac: &Vec<u8>, seq: u32) -> (r: SshResult<()>)
        requires
            self.wf(),
        ensures
            match r {
                Ok(()) => self.hmac.spec_size() > 0 ==> mac@ == spec_tag(*self, seq, buf@),
                Err(e) => self.hmac.spec_size() > 0 && mac@ != spec_tag(*self, seq, buf@) && (
                e matches Error::MacMismatch),
            },
            r is Ok <==> (self.hmac.spec_size() == 0 || mac@ == spec_tag(*self, seq, buf@)),
    {
        if self.hmac.size() > 0 {
            let mut msg: Vec<u8> = Vec::new();
            put_u32(&mut msg, seq);
            crate::mac::append_bytes(&mut msg, buf);
            assert(msg@ =~= spec_u32_be(seq) + buf@);
            let alg = match self.hmac {
                Hmac::NoMac => HashAlg::Sha256,
                Hmac::HmacSha2256 => HashAlg::Sha256,
                Hmac::HmacSha2512 => HashAlg::Sha512,
            };
            if hmac_verify(alg, &self.chain.hmac, &msg, mac) {
                Ok(())
            } else {
                Err(Error::MacMismatch)
            }
        } else {
            Ok(())
        }
    }

    /// Produce the MAC tag over the sequence number and the plaintext
    /// packet; empty when no MAC is negotiated.
    pub fn seal(&self, buf: &Vec<u8>, seq: u32) -> (r: Vec<u8>)
        requires
            self.wf(),
        ensures
            r@ == spec_tag(*self, seq, buf@),
            r@.len() == self.hmac.spec_size(),
    {
        if self.hmac.size() > 0 {
            let mut msg: Vec<u8> = Vec::new();
            put_u32(&mut msg, seq);
            crate::mac::append_bytes(&mut msg, buf);
            assert(msg@ =~= spec_u32_be(seq) + buf@);
            let alg = match self.hmac {
                Hmac::NoMac => HashAlg::Sha256,
                Hmac::HmacSha2256 => HashAlg::Sha256,
                Hmac::HmacSha2512 => HashAlg::Sha512,
            };
            hmac(alg, &self.chain.hmac, &msg)
        } else {
            let r: Vec<u8> = Vec::new();
            assert(r@ =~= spec_tag(*self, seq, buf@));
            r
        }
    }

    /// Apply compression: the identity, since only `none` is negotiated.
    pub fn compress(&self, buf: Vec<u8>) -> (r: Vec<u8>)
        ensures
            r@ == buf@,
    {
        buf
    }

    /// Invert compression: the identity, since only `none` is negotiated.
    pub fn decompress(&self, buf: Vec<u8>) -> (r: Vec<u8>)
        ensures
            r@ == buf@,
    {
        buf
    }

    /// Prefix `buf` with the padding length and append that many random
    /// bytes (RFC 4253 §6).
    pub fn pad(&self, buf: &Vec<u8>, padding: u8) -> (r: Vec<u8>)
        requires
            buf@.len() + padding + 1 <= usize::MAX,
        ensures
            r@.len() == 1 + buf@.len() + padding as int,
            r@[0] == padding,
            r@.subrange(1, 1 + buf@.len() as int) == buf@,
    {
        let mut out: Vec<u8> = Vec::new();
        out.push(padding);
        crate::mac::append_bytes(&mut out, buf);
        let mut i: usize = 0;
        while i < padding as usize
            invariant
                i <= padding as usize,
                out@.len() == 1 + buf@.len() + i,
                out@[0] == padding,
                out@.subrange(1, 1 + buf@.len() as int) == buf@,
            decreases padding as usize - i,
        {
            out.push(random_u8());
            i = i + 1;
            assert(out@.subrange(1, 1 + buf@.len() as int) =~= buf@);
        }
        out
    }
}

/// The keystream offset after `consumed` more bytes: whole blocks of
/// sixteen, rounded up, wrapping on overflow.
pub open spec fn spec_advanced(offset: u64, consumed: nat) -> u64 {
    crate::transport::wrap_add64(offset, (consumed / 16 + (if consumed % 16 > 0 {
        1nat
    } else {
        0nat
    })) as u64)
}

/// Wrapping 64-bit addition.
pub open spec fn wrap_add64(a: u64, b: u64) -> u64 {
    if a + b <= u64::MAX {
        (a + b) as u64
    } else {
        (a + b - 0x10000000000000000) as u64
    }
}

} // verus!
