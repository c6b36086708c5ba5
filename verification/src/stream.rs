//! The framing engine: bytes on one side, packets on the other. It owns the
//! current transport pair, the two sequence counters, the rekey thresholds
//! and the session identifier (RFC 4253 §6).

use vstd::prelude::*;
use crate::algo::Cipher;
use crate::transport::{
    spec_advanced, spec_cipher_apply, spec_tag, Transport, TransportPair,
};
use crate::wire::{spec_be_u32, spec_u32_be};
use crate::{Error, SshResult};

verus! {

/// Rekey after this many transported bytes: one gibibyte.
pub const REKEY_BYTES: u64 = 0x40000000;

/// Rekey after this many packets.
pub const REKEY_PACKETS: u64 = 0x40000000;

/// The largest packet accepted on the wire (RFC 4253 §6.1).
pub const MAX_PACKET: u32 = 35000;

/// The largest payload a caller may send in one packet.
pub const MAX_PAYLOAD: usize = 32768;

/// The framing engine's state.
#[derive(Clone, Debug)]
pub struct Stream {
    /// The transports of the two directions, replaced atomically at rekey.
    pub pair: TransportPair,
    /// The receive sequence number; monotone modulo two to the thirty-two,
    /// never reset.
    pub rx_seq: u32,
    /// The transmit sequence number; monotone modulo two to the thirty-two,
    /// never reset.
    pub tx_seq: u32,
    /// Bytes moved since the last rekey.
    pub bytes_since_rekey: u64,
    /// Packets moved since the last rekey.
    pub packets_since_rekey: u64,
    /// The exchange hash of the first key exchange, fixed once set.
    pub session_id: Option<Vec<u8>>,
}

/// Saturating 64-bit addition.
pub open spec fn sat_add64(a: u64, b: u64) -> u64 {
    if a + b <= u64::MAX {
        (a + b) as u64
    } else {
        u64::MAX
    }
}

/// The padding length for a payload (RFC 4253 §6): the total of length
/// field, padding-length byte, payload and padding is a multiple of the
/// block size, and the padding is at least four bytes.
pub open spec fn spec_padding_len(block: int, payload_len: int) -> int {
    let r = block - ((5 + payload_len) % block);
    if r < 4 {
        r + block
    } else {
        r
    }
}

/// A plaintext packet: length field, padding-length byte, payload, padding.
pub open spec fn spec_packet_plain(payload: Seq<u8>, tail: Seq<u8>) -> Seq<u8> {
    spec_u32_be((1 + payload.len() + tail.len()) as u32) + seq![tail.len() as u8] + payload + tail
}

/// What one attempt to take a packet off the front of a byte buffer yields.
pub enum SpecRecv {
    /// Not enough bytes yet.
    NeedMore,
    /// The length or padding violates the framing rules.
    Malformed,
    /// The MAC did not verify.
    BadMac,
    /// A payload, and how many buffered bytes the packet covered.
    Packet(Seq<u8>, int),
}

/// What receiving from buffered bytes `b` under transport `t` at sequence
/// number `seq` yields: decrypt the first block, read the length, check the
/// framing rules, wait for the rest, decrypt it, verify the MAC over the
/// plaintext, and strip the padding.
pub open spec fn spec_recv(t: Transport, seq: u32, b: Seq<u8>) -> SpecRecv {
    let block = t.cipher.spec_block_size() as int;
    let maclen = t.hmac.spec_size() as int;
    if b.len() < block {
        SpecRecv::NeedMore
    } else {
        let blk0 = spec_cipher_apply(
            t.cipher,
            t.chain.key@,
            t.chain.iv@,
            t.spec_offset(),
            b.subrange(0, block),
        );
        let len0 = spec_be_u32(blk0[0], blk0[1], blk0[2], blk0[3]) as int;
        if len0 < 5 || len0 > MAX_PACKET || (4 + len0) % block != 0 {
            SpecRecv::Malformed
        } else if b.len() < 4 + len0 + maclen {
            SpecRecv::NeedMore
        } else {
            let plain = spec_cipher_apply(
                t.cipher,
                t.chain.key@,
                t.chain.iv@,
                t.spec_offset(),
                b.subrange(0, 4 + len0),
            );
            let tag = b.subrange(4 + len0, 4 + len0 + maclen);
            if maclen > 0 && tag != spec_tag(t, seq, plain) {
                SpecRecv::BadMac
            } else {
                let pad = plain[4] as int;
                if pad < 4 || 1 + pad > len0 {
                    SpecRecv::Malformed
                } else {
                    SpecRecv::Packet(plain.subrange(5, 4 + len0 - pad), 4 + len0 + maclen)
                }
            }
        }
    }
}

/// `w` is a wire packet that the transmit transport `t` at sequence number
/// `seq` can produce for `payload`: an encrypted, correctly padded frame
/// followed by its MAC tag, together with the decryptability facts the
/// receiving side needs.
pub open spec fn spec_sent_wire(t: Transport, seq: u32, payload: Seq<u8>, w: Seq<u8>) -> bool {
    exists|tail: Seq<u8>|
        #![trigger spec_packet_plain(payload, tail)]
        {
            let plain = spec_packet_plain(payload, tail);
            let enc = spec_cipher_apply(
                t.cipher,
                t.chain.key@,
                t.chain.iv@,
                t.spec_offset(),
                plain,
            );
            &&& tail.len() == spec_padding_len(
                t.cipher.spec_block_size() as int,
                payload.len() as int,
            )
            &&& w == enc + spec_tag(t, seq, plain)
            &&& enc.len() == plain.len()
            &&& spec_tag(t, seq, plain).len() == t.hmac.spec_size()
            &&& spec_cipher_apply(t.cipher, t.chain.key@, t.chain.iv@, t.spec_offset(), enc)
                == plain
            &&& (plain.len() >= 16 ==> spec_cipher_apply(
                t.cipher,
                t.chain.key@,
                t.chain.iv@,
                t.spec_offset(),
                enc.subrange(0, 16),
            ) == plain.subrange(0, 16))
        }
}

impl Stream {
    /// Well-formed: both transports are.
    pub open spec fn wf(self) -> bool {
        self.pair.rx.wf() && self.pair.tx.wf()
    }

    /// A fresh stream: identity transports, counters at zero, no session
    /// identifier yet.
    pub fn new() -> (r: Stream)
        ensures
            r.wf(),
            r.rx_seq == 0,
            r.tx_seq == 0,
            r.session_id is None,
            r.pair.rx.cipher == Cipher::NoCipher,
            r.pair.tx.cipher == Cipher::NoCipher,
    {
        Stream {
            pair: TransportPair { rx: Transport::initial(), tx: Transport::initial() },
            rx_seq: 0,
            tx_seq: 0,
            bytes_since_rekey: 0,
            packets_since_rekey: 0,
            session_id: None,
        }
    }

    /// Whether a rekey is due: a gibibyte moved, or too many packets.
    pub fn is_rekeyable(&self) -> (r: bool)
        ensures
            r == (self.bytes_since_rekey >= REKEY_BYTES || self.packets_since_rekey
                >= REKEY_PACKETS),
    {
        self.bytes_since_rekey >= REKEY_BYTES || self.packets_since_rekey >= REKEY_PACKETS
    }

    /// Install the exchange hash as session identifier if none is set yet;
    /// an existing identifier is never reassigned. Returns the now-fixed
    /// identifier.
    pub fn with_session(&mut self, hash: &Vec<u8>) -> (r: Vec<u8>)
        ensures
            match old(self).session_id {
                Some(sid) => final(self).session_id == old(self).session_id && r@ == sid@,
                None => (final(self).session_id matches Some(s) && s@ == hash@) && r@ == hash@,
            },
            final(self).pair == old(self).pair,
            final(self).rx_seq == old(self).rx_seq,
            final(self).tx_seq == old(self).tx_seq,
            final(self).bytes_since_rekey == old(self).bytes_since_rekey,
            final(self).packets_since_rekey == old(self).packets_since_rekey,
    {
        match &self.session_id {
            Some(sid) => {
                let r = sid.clone();
                assert(r@ =~= sid@);
                r
            },
            None => {
                let h = hash.clone();
                assert(h@ =~= hash@);
                self.session_id = Some(h);
                let r = hash.clone();
                assert(r@ =~= hash@);
                r
            },
        }
    }

    /// Install a freshly derived transport pair: the counters of transported
    /// data reset, the sequence numbers and the session identifier do not.
    pub fn install(&mut self, pair: TransportPair)
        requires
            pair.rx.wf(),
            pair.tx.wf(),
        ensures
            final(self).wf(),
            final(self).pair == pair,
            final(self).rx_seq == old(self).rx_seq,
            final(self).tx_seq == old(self).tx_seq,
            final(self).session_id == old(self).session_id,
            final(self).bytes_since_rekey == 0,
            final(self).packets_since_rekey == 0,
    {
        self.pair = pair;
        self.bytes_since_rekey = 0;
        self.packets_since_rekey = 0;
    }

    /// Install the transmit half of a freshly derived pair: outgoing traffic
    /// uses the new keys from the NEWKEYS we send; nothing else moves.
    pub fn install_tx(&mut self, t: Transport)
        requires
            old(self).wf(),
            t.wf(),
        ensures
            final(self).wf(),
            final(self).pair.tx == t,
            final(self).pair.rx == old(self).pair.rx,
            final(self).rx_seq == old(self).rx_seq,
            final(self).tx_seq == old(self).tx_seq,
            final(self).session_id == old(self).session_id,
            final(self).bytes_since_rekey == old(self).bytes_since_rekey,
            final(self).packets_since_rekey == old(self).packets_since_rekey,
    {
        self.pair.tx = t;
    }

    /// Install the receive half of a freshly derived pair: incoming traffic
    /// uses the new keys from the peer's NEWKEYS on. This completes the
    /// rekey, so the transported-data counters reset; the sequence numbers
    /// and the session identifier do not.
    pub fn install_rx(&mut self, t: Transport)
        requires
            old(self).wf(),
            t.wf(),
        ensures
            final(self).wf(),
            final(self).pair.rx == t,
            final(self).pair.tx == old(self).pair.tx,
            final(self).rx_seq == old(self).rx_seq,
            final(self).tx_seq == old(self).tx_seq,
            final(self).session_id == old(self).session_id,
            final(self).bytes_since_rekey == 0,
            final(self).packets_since_rekey == 0,
    {
        self.pair.rx = t;
        self.bytes_since_rekey = 0;
        self.packets_since_rekey = 0;
    }

    /// Frame, pad, encrypt and seal one payload; the wire bytes come back
    /// and the transmit sequence number moves up by exactly one.
    pub fn send_packet(&mut self, payload: &Vec<u8>) -> (r: Vec<u8>)
        requires
            old(self).wf(),
            payload@.len() <= MAX_PAYLOAD,
        ensures
            final(self).wf(),
            final(self).tx_seq == crate::stream::wrap_inc32(old(self).tx_seq),
            final(self).rx_seq == old(self).rx_seq,
            final(self).pair.rx == old(self).pair.rx,
            final(self).session_id == old(self).session_id,
            final(self).pair.tx.chain == old(self).pair.tx.chain,
            final(self).pair.tx.cipher == old(self).pair.tx.cipher,
            final(self).pair.tx.hmac == old(self).pair.tx.hmac,
            final(self).pair.tx.compress == old(self).pair.tx.compress,
            spec_sent_wire(old(self).pair.tx, old(self).tx_seq, payload@, r@),
    {
        let seq = self.tx_seq;
        let block = self.pair.tx.block_size();
        let len = payload.len();
        let rem = (5 + len) % block;
        let mut padding = block - rem;
        if padding < 4 {
            padding = padding + block;
        }
        // assemble the plaintext packet
        let plen: u32 = (1 + len + padding) as u32;
        let mut plain: Vec<u8> = Vec::new();
        crate::wire::put_u32(&mut plain, plen);
        let padded = self.pair.tx.pad(payload, padding as u8);
        crate::mac::append_bytes(&mut plain, &padded);
        let ghost tail = padded@.subrange(1 + payload@.len() as int, padded@.len() as int);
        proof {
            assert(padded@ =~= seq![padding as u8] + payload@ + tail);
            assert(plain@ =~= spec_packet_plain(payload@, tail));
        }
        let tag = self.pair.tx.seal(&plain, seq);
        let enc = self.pair.tx.encrypt(&plain);
        let mut wire = enc;
        crate::mac::append_bytes(&mut wire, &tag);
        self.tx_seq = self.tx_seq.wrapping_add(1);
        self.bytes_since_rekey = saturating_add64(self.bytes_since_rekey, wire.len() as u64);
        self.packets_since_rekey = saturating_add64(self.packets_since_rekey, 1);
        wire
    }

    /// Take one packet off the front of the buffered bytes, if a whole one
    /// is there; its payload comes back and the receive sequence number
    /// moves up by exactly one. A short buffer is not an error; a framing
    /// violation or a MAC mismatch is, and leaves the stream unchanged.
    pub fn recv_packet(&mut self, inbuf: &mut Vec<u8>) -> (r: SshResult<Option<Vec<u8>>>)
        requires
            old(self).wf(),
        ensures
            final(self).wf(),
            final(self).pair.tx == old(self).pair.tx,
            final(self).tx_seq == old(self).tx_seq,
            final(self).session_id == old(self).session_id,
            final(self).pair.rx.chain == old(self).pair.rx.chain,
            final(self).pair.rx.cipher == old(self).pair.rx.cipher,
            final(self).pair.rx.hmac == old(self).pair.rx.hmac,
            final(self).pair.rx.compress == old(self).pair.rx.compress,
            match spec_recv(old(self).pair.rx, old(self).rx_seq, old(inbuf)@) {
                SpecRecv::NeedMore => (r matches Ok(None)) && *final(self) == *old(self)
                    && final(inbuf)@ == old(inbuf)@,
                SpecRecv::Malformed => (r matches Err(Error::MalformedPacket)) && *final(self)
                    == *old(self) && final(inbuf)@ == old(inbuf)@,
                SpecRecv::BadMac => (r matches Err(Error::MacMismatch)) && *final(self) == *old(self)
                    && final(inbuf)@ == old(inbuf)@,
                SpecRecv::Packet(payload, consumed) => {
                    &&& (r matches Ok(Some(p)) && p@ == payload)
                    &&& final(inbuf)@.len() < old(inbuf)@.len()
                    &&& final(inbuf)@ == old(inbuf)@.subrange(consumed, old(inbuf)@.len() as int)
                    &&& final(self).rx_seq == crate::stream::wrap_inc32(old(self).rx_seq)
                    &&& final(self).pair.rx.spec_offset() == (if old(
                        self,
                    ).pair.rx.cipher.spec_is_some() {
                        spec_advanced(old(self).pair.rx.spec_offset(), (consumed
                            - old(self).pair.rx.hmac.spec_size()) as nat)
                    } else {
                        old(self).pair.rx.spec_offset()
                    })
                },
            },
    {
        let block = self.pair.rx.block_size();
        let maclen = self.pair.rx.mac().size();
        if inbuf.len() < block {
            return Ok(None);
        }
        let mut rd = crate::wire::Reader::new(inbuf);
        let head = match rd.read_bytes(block) {
            Some(h) => h,
            None => {
                assert(false);
                return Ok(None);
            },
        };
        let blk0 = self.pair.rx.keystream_at(&head);
        let len0 = {
            let b0 = blk0[0];
            let b1 = blk0[1];
            let b2 = blk0[2];
            let b3 = blk0[3];
            ((b0 as u32) << 24) | ((b1 as u32) << 16) | ((b2 as u32) << 8) | (b3 as u32)
        };
        if len0 < 5 || len0 > MAX_PACKET || ((4 + len0 as usize) % block) != 0 {
            return Err(Error::MalformedPacket);
        }
        let enc_len = 4 + len0 as usize;
        let total = enc_len + maclen;
        if inbuf.len() < total {
            return Ok(None);
        }
        let mut rd2 = crate::wire::Reader::new(inbuf);
        let enc = match rd2.read_bytes(enc_len) {
            Some(e) => e,
            None => {
                assert(false);
                return Err(Error::MalformedPacket);
            },
        };
        let tag = match rd2.read_bytes(maclen) {
            Some(t) => t,
            None => {
                assert(false);
                return Err(Error::MalformedPacket);
            },
        };
        let plain = self.pair.rx.keystream_at(&enc);
        match self.pair.rx.open(&plain, &tag, self.rx_seq) {
            Ok(()) => {},
            Err(e) => {
                return Err(Error::MacMismatch);
            },
        }
        let pad = plain[4];
        if pad < 4 || 1 + pad as usize > len0 as usize {
            return Err(Error::MalformedPacket);
        }
        let mut rd3 = crate::wire::Reader { buf: &plain, pos: 5 };
        let payload = match rd3.read_bytes(enc_len - 1 - pad as usize - 4) {
            Some(p) => p,
            None => {
                assert(false);
                return Err(Error::MalformedPacket);
            },
        };
        assert(payload@ =~= spec_cipher_apply(
            self.pair.rx.cipher,
            self.pair.rx.chain.key@,
            self.pair.rx.chain.iv@,
            self.pair.rx.spec_offset(),
            inbuf@.subrange(0, enc_len as int),
        ).subrange(5, 4 + len0 as int - pad as int));
        // consume the packet and advance
        let rest = inbuf.split_off(total);
        *inbuf = rest;
        self.pair.rx.advance(enc_len);
        self.rx_seq = self.rx_seq.wrapping_add(1);
        self.bytes_since_rekey = saturating_add64(self.bytes_since_rekey, total as u64);
        self.packets_since_rekey = saturating_add64(self.packets_since_rekey, 1);
        Ok(Some(payload))
    }

    /// The payload of the next whole buffered packet, without consuming it
    /// or moving any counter: the dispatch decisions peek at the message
    /// number before committing to a read.
    pub fn peek_packet(&self, inbuf: &Vec<u8>) -> (r: SshResult<Option<Vec<u8>>>)
        requires
            self.wf(),
        ensures
            match spec_recv(self.pair.rx, self.rx_seq, inbuf@) {
                SpecRecv::NeedMore => r matches Ok(None),
                SpecRecv::Malformed => r matches Err(Error::MalformedPacket),
                SpecRecv::BadMac => r matches Err(Error::MacMismatch),
                SpecRecv::Packet(payload, _) => (r matches Ok(Some(p)) && p@ == payload),
            },
    {
        let block = self.pair.rx.block_size();
        let maclen = self.pair.rx.mac().size();
        if inbuf.len() < block {
            return Ok(None);
        }
        let mut rd = crate::wire::Reader::new(inbuf);
        let head = match rd.read_bytes(block) {
            Some(h) => h,
            None => {
                assert(false);
                return Ok(None);
            },
        };
        let blk0 = self.pair.rx.keystream_at(&head);
        let len0 = {
            let b0 = blk0[0];
            let b1 = blk0[1];
            let b2 = blk0[2];
            let b3 = blk0[3];
            ((b0 as u32) << 24) | ((b1 as u32) << 16) | ((b2 as u32) << 8) | (b3 as u32)
        };
        if len0 < 5 || len0 > MAX_PACKET || ((4 + len0 as usize) % block) != 0 {
            return Err(Error::MalformedPacket);
        }
        let enc_len = 4 + len0 as usize;
        let total = enc_len + maclen;
        if inbuf.len() < total {
            return Ok(None);
        }
        let mut rd2 = crate::wire::Reader::new(inbuf);
        let enc = match rd2.read_bytes(enc_len) {
            Some(e) => e,
            None => {
                assert(false);
                return Err(Error::MalformedPacket);
            },
        };
        let tag = match rd2.read_bytes(maclen) {
            Some(t) => t,
            None => {
                assert(false);
                return Err(Error::MalformedPacket);
            },
        };
        let plain = self.pair.rx.keystream_at(&enc);
        match self.pair.rx.open(&plain, &tag, self.rx_seq) {
            Ok(()) => {},
            Err(_) => {
                return Err(Error::MacMismatch);
            },
        }
        let pad = plain[4];
        if pad < 4 || 1 + pad as usize > len0 as usize {
            return Err(Error::MalformedPacket);
        }
        let mut rd3 = crate::wire::Reader { buf: &plain, pos: 5 };
        let payload = match rd3.read_bytes(enc_len - 1 - pad as usize - 4) {
            Some(p) => p,
            None => {
                assert(false);
                return Err(Error::MalformedPacket);
            },
        };
        assert(payload@ =~= spec_cipher_apply(
            self.pair.rx.cipher,
            self.pair.rx.chain.key@,
            self.pair.rx.chain.iv@,
            self.pair.rx.spec_offset(),
            inbuf@.subrange(0, enc_len as int),
        ).subrange(5, 4 + len0 as int - pad as int));
        Ok(Some(payload))
    }
}

/// Transport round trip: any wire bytes that [`Stream::send_packet`] can
/// produce for a payload, received under a matching transport at the same
/// sequence number, yield back exactly that payload — whatever the random
/// padding was, whatever bytes follow on the wire, under every supported
/// cipher and MAC combination.
///
/// The hypotheses are exactly the facts `send_packet` ensures about its
/// result, plus the match between the sender's transmit transport and the
/// receiver's receive transport.
pub proof fn lemma_recv_of_wire(
    t_tx: Transport,
    t_rx: Transport,
    seq: u32,
    payload: Seq<u8>,
    tail: Seq<u8>,
    w: Seq<u8>,
    rest: Seq<u8>,
)
    requires
        t_rx.cipher == t_tx.cipher,
        t_rx.hmac == t_tx.hmac,
        t_rx.chain.key@ == t_tx.chain.key@,
        t_rx.chain.iv@ == t_tx.chain.iv@,
        t_rx.chain.hmac@ == t_tx.chain.hmac@,
        t_rx.spec_offset() == t_tx.spec_offset(),
        payload.len() <= MAX_PAYLOAD,
        tail.len() == spec_padding_len(
            t_tx.cipher.spec_block_size() as int,
            payload.len() as int,
        ),
        w == spec_cipher_apply(
            t_tx.cipher,
            t_tx.chain.key@,
            t_tx.chain.iv@,
            t_tx.spec_offset(),
            spec_packet_plain(payload, tail),
        ) + spec_tag(t_tx, seq, spec_packet_plain(payload, tail)),
        spec_cipher_apply(
            t_tx.cipher,
            t_tx.chain.key@,
            t_tx.chain.iv@,
            t_tx.spec_offset(),
            spec_cipher_apply(
                t_tx.cipher,
                t_tx.chain.key@,
                t_tx.chain.iv@,
                t_tx.spec_offset(),
                spec_packet_plain(payload, tail),
            ),
        ) == spec_packet_plain(payload, tail),
        spec_packet_plain(payload, tail).len() >= 16 ==> spec_cipher_apply(
            t_tx.cipher,
            t_tx.chain.key@,
            t_tx.chain.iv@,
            t_tx.spec_offset(),
            spec_cipher_apply(
                t_tx.cipher,
                t_tx.chain.key@,
                t_tx.chain.iv@,
                t_tx.spec_offset(),
                spec_packet_plain(payload, tail),
            ).subrange(0, 16),
        ) == spec_packet_plain(payload, tail).subrange(0, 16),
        spec_cipher_apply(
            t_tx.cipher,
            t_tx.chain.key@,
            t_tx.chain.iv@,
            t_tx.spec_offset(),
            spec_packet_plain(payload, tail),
        ).len() == spec_packet_plain(payload, tail).len(),
        spec_tag(t_tx, seq, spec_packet_plain(payload, tail)).len() == t_tx.hmac.spec_size(),
    ensures
        spec_recv(t_rx, seq, w + rest) == SpecRecv::Packet(
            payload,
            spec_packet_plain(payload, tail).len() + t_rx.hmac.spec_size(),
        ),
{
    let block = t_tx.cipher.spec_block_size() as int;
    let p = payload.len() as int;
    let plain = spec_packet_plain(payload, tail);
    let enc = spec_cipher_apply(
        t_tx.cipher,
        t_tx.chain.key@,
        t_tx.chain.iv@,
        t_tx.spec_offset(),
        plain,
    );
    let tag = spec_tag(t_tx, seq, plain);
    let maclen = t_tx.hmac.spec_size() as int;
    let b = w + rest;
    // the padding keeps the plaintext block-aligned and modest in size
    assert(4 <= tail.len() < block + 4) by {
        assert(0 <= (5 + p) % block < block) by (nonlinear_arith)
            requires block == 8 || block == 16;
    }
    assert(plain.len() == 5 + p + tail.len());
    assert((plain.len() as int) % block == 0) by (nonlinear_arith)
        requires
            (block == 8 || block == 16) && plain.len() == 5 + p + tail.len() && 0 <= p
                && tail.len() == spec_padding_len(block, p),
    ;
    assert(plain.len() >= 16) by (nonlinear_arith)
        requires
            (block == 8 || block == 16) && plain.len() == 5 + p + tail.len() && 0 <= p && 4
                <= tail.len() && (plain.len() as int) % block == 0,
    ;
    // the first block of the buffer decrypts to the first block of the packet
    assert(b.len() >= block);
    assert(b.subrange(0, block) =~= enc.subrange(0, block));
    let blk0 = spec_cipher_apply(
        t_rx.cipher,
        t_rx.chain.key@,
        t_rx.chain.iv@,
        t_rx.spec_offset(),
        b.subrange(0, block),
    );
    match t_tx.cipher {
        Cipher::NoCipher => {
            assert(blk0 =~= plain.subrange(0, block));
        },
        Cipher::Aes128Ctr => {
            assert(b.subrange(0, block) =~= enc.subrange(0, 16));
            assert(blk0 =~= plain.subrange(0, 16));
        },
        Cipher::Aes256Ctr => {
            assert(b.subrange(0, block) =~= enc.subrange(0, 16));
            assert(blk0 =~= plain.subrange(0, 16));
        },
    }
    // the length field reads back as written
    let plen = (1 + payload.len() + tail.len()) as u32;
    crate::wire::lemma_u32_be_roundtrip(plen);
    assert(blk0[0] == spec_u32_be(plen)[0]);
    assert(blk0[1] == spec_u32_be(plen)[1]);
    assert(blk0[2] == spec_u32_be(plen)[2]);
    assert(blk0[3] == spec_u32_be(plen)[3]);
    let len0 = spec_be_u32(blk0[0], blk0[1], blk0[2], blk0[3]) as int;
    assert(len0 == 1 + p + tail.len());
    assert(len0 >= 5 && len0 <= MAX_PACKET && (4 + len0) % block == 0);
    // the whole encrypted region decrypts to the packet
    assert(b.len() >= 4 + len0 + maclen);
    assert(b.subrange(0, 4 + len0) =~= enc);
    let plain2 = spec_cipher_apply(
        t_rx.cipher,
        t_rx.chain.key@,
        t_rx.chain.iv@,
        t_rx.spec_offset(),
        b.subrange(0, 4 + len0),
    );
    assert(plain2 == plain);
    // the tag on the wire is the tag over the packet
    assert(b.subrange(4 + len0, 4 + len0 + maclen) =~= tag);
    assert(spec_tag(t_rx, seq, plain) == spec_tag(t_tx, seq, plain));
    // the padding byte and the payload read back as written
    assert(plain[4] == tail.len() as u8);
    assert(plain.subrange(5, 4 + len0 - tail.len()) =~= payload);
}

/// Transport round trip over the sent-wire predicate: any wire bytes
/// satisfying [`spec_sent_wire`] — exactly what [`Stream::send_packet`] and
/// the session layer's out-queue clauses promise — are received back as the
/// same payload under a matching transport at the same sequence number,
/// whatever follows on the wire.
pub proof fn lemma_recv_of_sent(
    t_tx: Transport,
    t_rx: Transport,
    seq: u32,
    payload: Seq<u8>,
    w: Seq<u8>,
    rest: Seq<u8>,
)
    requires
        t_rx.cipher == t_tx.cipher,
        t_rx.hmac == t_tx.hmac,
        t_rx.chain.key@ == t_tx.chain.key@,
        t_rx.chain.iv@ == t_tx.chain.iv@,
        t_rx.chain.hmac@ == t_tx.chain.hmac@,
        t_rx.spec_offset() == t_tx.spec_offset(),
        payload.len() <= MAX_PAYLOAD,
        spec_sent_wire(t_tx, seq, payload, w),
    ensures
        spec_recv(t_rx, seq, w + rest) == SpecRecv::Packet(payload, w.len() as int),
{
    let tail = choose|tail: Seq<u8>|
        #![trigger spec_packet_plain(payload, tail)]
        {
            let plain = spec_packet_plain(payload, tail);
            let enc = spec_cipher_apply(
                t_tx.cipher,
                t_tx.chain.key@,
                t_tx.chain.iv@,
                t_tx.spec_offset(),
                plain,
            );
            &&& tail.len() == spec_padding_len(
                t_tx.cipher.spec_block_size() as int,
                payload.len() as int,
            )
            &&& w == enc + spec_tag(t_tx, seq, plain)
            &&& enc.len() == plain.len()
            &&& spec_tag(t_tx, seq, plain).len() == t_tx.hmac.spec_size()
            &&& spec_cipher_apply(
                t_tx.cipher,
                t_tx.chain.key@,
                t_tx.chain.iv@,
                t_tx.spec_offset(),
                enc,
            ) == plain
            &&& (plain.len() >= 16 ==> spec_cipher_apply(
                t_tx.cipher,
                t_tx.chain.key@,
                t_tx.chain.iv@,
                t_tx.spec_offset(),
                enc.subrange(0, 16),
            ) == plain.subrange(0, 16))
        };
    lemma_recv_of_wire(t_tx, t_rx, seq, payload, tail, w, rest);
}

/// No payload without a verified frame: whenever receiving yields a packet,
/// the buffered bytes decrypted to a well-formed frame whose MAC, when one
/// is negotiated, is exactly the HMAC the receiver recomputes; a buffer
/// whose decrypted length field or padding byte breaks the rules yields a
/// framing error and no payload.
pub proof fn lemma_recv_delivers_only_verified(t: Transport, seq: u32, b: Seq<u8>)
    ensures
        match spec_recv(t, seq, b) {
            SpecRecv::Packet(payload, consumed) => {
                let plain = spec_cipher_apply(
                    t.cipher,
                    t.chain.key@,
                    t.chain.iv@,
                    t.spec_offset(),
                    b.subrange(0, consumed - t.hmac.spec_size()),
                );
                &&& t.hmac.spec_size() > 0 ==> b.subrange(
                    consumed - t.hmac.spec_size(),
                    consumed,
                ) == spec_tag(t, seq, plain)
                &&& payload == plain.subrange(
                    5,
                    consumed - t.hmac.spec_size() - plain[4],
                )
                &&& 4 <= plain[4]
            },
            _ => true,
        },
{
    let block = t.cipher.spec_block_size() as int;
    let maclen = t.hmac.spec_size() as int;
    if b.len() >= block {
        let blk0 = spec_cipher_apply(
            t.cipher,
            t.chain.key@,
            t.chain.iv@,
            t.spec_offset(),
            b.subrange(0, block),
        );
        let len0 = spec_be_u32(blk0[0], blk0[1], blk0[2], blk0[3]) as int;
        if !(len0 < 5 || len0 > MAX_PACKET || (4 + len0) % block != 0) && b.len() >= 4 + len0
            + maclen {
            match spec_recv(t, seq, b) {
                SpecRecv::Packet(payload, consumed) => {
                    assert(consumed == 4 + len0 + maclen);
                },
                _ => {},
            }
        }
    }
}

/// Wrapping increment of a 32-bit sequence number.
pub open spec fn wrap_inc32(a: u32) -> u32 {
    if a + 1 <= u32::MAX {
        (a + 1) as u32
    } else {
        0
    }
}

/// Saturating 64-bit addition.
pub fn saturating_add64(a: u64, b: u64) -> (r: u64)
    ensures
        r == sat_add64(a, b),
{
    if u64::MAX - a < b {
        u64::MAX
    } else {
        a + b
    }
}

} // verus!
