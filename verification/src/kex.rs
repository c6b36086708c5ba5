//! Key exchange: Curve25519 ECDH with a SHA-256 transcript hash (RFC 8731),
//! producing a freshly keyed transport pair and the exchange hash that fixes
//! the session identifier on first success.

use vstd::prelude::*;
use crate::algo::{
    cipher_of_name, first_common, hmac_of_name, kex_of_name, spec_cipher_of_name,
    spec_compress_of_name, spec_first_common, spec_hmac_of_name, spec_kex_of_name, Cipher,
    Compress, Hmac, Kex, compress_of_name,
};
use crate::crypto::{
    basepoint, ed25519_verify, public_key_blob, sha256, sha256_of, sign_message,
    spec_basepoint, ssh_ed25519_verifies, x25519_mul, x25519_of,
};
use crate::ident::Id;
use crate::keys::{mpint_positive, spec_derived, spec_mpint, KeyChain};
use crate::msg::{KexEcdhInit, KexEcdhReply, KexInit};
use crate::stream::Stream;
use crate::transport::{CipherState, Transport, TransportPair};
use crate::wire::{put_string, spec_string, views};
use crate::{Error, SshResult};

verus! {

/// The outcome of negotiating every KEXINIT slot.
#[derive(Clone, Copy, Debug)]
pub struct Negotiated {
    /// The key-exchange algorithm.
    pub kex: Kex,
    /// The client-to-server cipher.
    pub client_cipher: Cipher,
    /// The server-to-client cipher.
    pub server_cipher: Cipher,
    /// The client-to-server MAC.
    pub client_hmac: Hmac,
    /// The server-to-client MAC.
    pub server_hmac: Hmac,
    /// The client-to-server compression.
    pub client_compress: Compress,
    /// The server-to-client compression.
    pub server_compress: Compress,
}

/// The key-exchange algorithm two KEXINITs agree on: the first
/// client-preferred name in the server's list, decoded.
pub open spec fn spec_negociate(c: Seq<Seq<u8>>, s: Seq<Seq<u8>>) -> Option<Kex> {
    match spec_first_common(c, s) {
        Some(n) => spec_kex_of_name(n),
        None => None,
    }
}

/// Negotiate the key-exchange slot: the first client-preferred algorithm
/// that the server also lists; a dead end is fatal.
pub fn negociate(clientkex: &KexInit, serverkex: &KexInit) -> (r: SshResult<Kex>)
    ensures
        match r {
            Ok(k) => spec_negociate(
                views(clientkex.kex_algorithms@),
                views(serverkex.kex_algorithms@),
            ) == Some(k),
            Err(e) => (e matches Error::NoCommonKex) && spec_negociate(
                views(clientkex.kex_algorithms@),
                views(serverkex.kex_algorithms@),
            ) is None,
        },
{
    match first_common(&clientkex.kex_algorithms, &serverkex.kex_algorithms) {
        Some(name) => match kex_of_name(&name) {
            Some(k) => Ok(k),
            None => Err(Error::NoCommonKex),
        },
        None => Err(Error::NoCommonKex),
    }
}

/// Negotiate every slot of a KEXINIT pair. Each slot independently takes
/// the first client-preferred algorithm the server also lists; any empty
/// intersection is its own dead end.
pub fn negotiate_algorithms(i_c: &KexInit, i_s: &KexInit) -> (r: SshResult<Negotiated>)
    ensures
        match r {
            Ok(n) => {
                &&& spec_negociate(
                    views(i_c.kex_algorithms@),
                    views(i_s.kex_algorithms@),
                ) == Some(n.kex)
                &&& (match spec_first_common(
                    views(i_c.encryption_client_to_server@),
                    views(i_s.encryption_client_to_server@),
                ) {
                    Some(x) => spec_cipher_of_name(x) == Some(n.client_cipher),
                    None => false,
                })
                &&& (match spec_first_common(
                    views(i_c.encryption_server_to_client@),
                    views(i_s.encryption_server_to_client@),
                ) {
                    Some(x) => spec_cipher_of_name(x) == Some(n.server_cipher),
                    None => false,
                })
                &&& (match spec_first_common(
                    views(i_c.mac_client_to_server@),
                    views(i_s.mac_client_to_server@),
                ) {
                    Some(x) => spec_hmac_of_name(x) == Some(n.client_hmac),
                    None => false,
                })
                &&& (match spec_first_common(
                    views(i_c.mac_server_to_client@),
                    views(i_s.mac_server_to_client@),
                ) {
                    Some(x) => spec_hmac_of_name(x) == Some(n.server_hmac),
                    None => false,
                })
                &&& (match spec_first_common(
                    views(i_c.compression_client_to_server@),
                    views(i_s.compression_client_to_server@),
                ) {
                    Some(x) => spec_compress_of_name(x) == Some(n.client_compress),
                    None => false,
                })
                &&& (match spec_first_common(
                    views(i_c.compression_server_to_client@),
                    views(i_s.compression_server_to_client@),
                ) {
                    Some(x) => spec_compress_of_name(x) == Some(n.server_compress),
                    None => false,
                })
            },
            Err(e) => (e matches Error::NoCommonKex) || (e matches Error::NoCommonCipher) || (
            e matches Error::NoCommonMac) || (e matches Error::NoCommonCompression),
        },
{
    let kex = match negociate(i_c, i_s) {
        Ok(k) => k,
        Err(e) => {
            return Err(e);
        },
    };
    let client_cipher = match first_common(
        &i_c.encryption_client_to_server,
        &i_s.encryption_client_to_server,
    ) {
        Some(n) => match cipher_of_name(&n) {
            Some(c) => c,
            None => {
                return Err(Error::NoCommonCipher);
            },
        },
        None => {
            return Err(Error::NoCommonCipher);
        },
    };
    let server_cipher = match first_common(
        &i_c.encryption_server_to_client,
        &i_s.encryption_server_to_client,
    ) {
        Some(n) => match cipher_of_name(&n) {
            Some(c) => c,
            None => {
                return Err(Error::NoCommonCipher);
            },
        },
        None => {
            return Err(Error::NoCommonCipher);
        },
    };
    let client_hmac = match first_common(&i_c.mac_client_to_server, &i_s.mac_client_to_server) {
        Some(n) => match hmac_of_name(&n) {
            Some(m) => m,
            None => {
                return Err(Error::NoCommonMac);
            },
        },
        None => {
            return Err(Error::NoCommonMac);
        },
    };
    let server_hmac = match first_common(&i_c.mac_server_to_client, &i_s.mac_server_to_client) {
        Some(n) => match hmac_of_name(&n) {
            Some(m) => m,
            None => {
                return Err(Error::NoCommonMac);
            },
        },
        None => {
            return Err(Error::NoCommonMac);
        },
    };
    let client_compress = match first_common(
        &i_c.compression_client_to_server,
        &i_s.compression_client_to_server,
    ) {
        Some(n) => match compress_of_name(&n) {
            Some(c) => c,
            None => {
                return Err(Error::NoCommonCompression);
            },
        },
        None => {
            return Err(Error::NoCommonCompression);
        },
    };
    let server_compress = match first_common(
        &i_c.compression_server_to_client,
        &i_s.compression_server_to_client,
    ) {
        Some(n) => match compress_of_name(&n) {
            Some(c) => c,
            None => {
                return Err(Error::NoCommonCompression);
            },
        },
        None => {
            return Err(Error::NoCommonCompression);
        },
    };
    Ok(
        Negotiated {
            kex,
            client_cipher,
            server_cipher,
            client_hmac,
            server_hmac,
            client_compress,
            server_compress,
        },
    )
}

/// The exchange-hash transcript (RFC 8731 §3): both identification lines,
/// both KEXINIT payloads, the host key blob and both ephemeral keys, each
/// length-prefixed, then the shared secret as an `mpint`.
pub open spec fn spec_exchange_input(
    v_c: Seq<u8>,
    v_s: Seq<u8>,
    i_c: Seq<u8>,
    i_s: Seq<u8>,
    k_s: Seq<u8>,
    q_c: Seq<u8>,
    q_s: Seq<u8>,
    shared: Seq<u8>,
) -> Seq<u8> {
    spec_string(v_c) + spec_string(v_s) + spec_string(i_c) + spec_string(i_s) + spec_string(k_s)
        + spec_string(q_c) + spec_string(q_s) + spec_mpint(shared)
}

/// The exchange hash over the transcript.
pub open spec fn spec_exchange_hash(
    v_c: Seq<u8>,
    v_s: Seq<u8>,
    i_c: Seq<u8>,
    i_s: Seq<u8>,
    k_s: Seq<u8>,
    q_c: Seq<u8>,
    q_s: Seq<u8>,
    shared: Seq<u8>,
) -> Seq<u8> {
    sha256_of(spec_exchange_input(v_c, v_s, i_c, i_s, k_s, q_c, q_s, shared))
}

/// Build the exchange-hash transcript and hash it.
pub fn exchange_hash(
    v_c: &Vec<u8>,
    v_s: &Vec<u8>,
    i_c: &Vec<u8>,
    i_s: &Vec<u8>,
    k_s: &Vec<u8>,
    q_c: &Vec<u8>,
    q_s: &Vec<u8>,
    shared: &Vec<u8>,
) -> (r: Vec<u8>)
    requires
        v_c@.len() <= 0xffff,
        v_s@.len() <= 0xffff,
        i_c@.len() <= 0xffff,
        i_s@.len() <= 0xffff,
        k_s@.len() <= 0xffff,
        q_c@.len() <= 0xffff,
        q_s@.len() <= 0xffff,
        shared@.len() + 1 <= u32::MAX,
    ensures
        r@ == spec_exchange_hash(v_c@, v_s@, i_c@, i_s@, k_s@, q_c@, q_s@, shared@),
        r@.len() == 32,
{
    let mut input: Vec<u8> = Vec::new();
    put_string(&mut input, v_c);
    put_string(&mut input, v_s);
    put_string(&mut input, i_c);
    put_string(&mut input, i_s);
    put_string(&mut input, k_s);
    put_string(&mut input, q_c);
    put_string(&mut input, q_s);
    let k = mpint_positive(shared);
    crate::mac::append_bytes(&mut input, &k);
    assert(input@ =~= spec_exchange_input(v_c@, v_s@, i_c@, i_s@, k_s@, q_c@, q_s@, shared@));
    sha256(&input)
}

/// Build the transport pair a finished exchange installs: the given chains,
/// fresh cipher state where a cipher is keyed.
fn build_pair(n: &Negotiated, rx_chain: KeyChain, tx_chain: KeyChain, client_side: bool) -> (r:
    TransportPair)
    requires
        client_side ==> rx_chain.sized_for(n.server_cipher, n.server_hmac) && tx_chain.sized_for(
            n.client_cipher,
            n.client_hmac,
        ),
        !client_side ==> rx_chain.sized_for(n.client_cipher, n.client_hmac) && tx_chain.sized_for(
            n.server_cipher,
            n.server_hmac,
        ),
    ensures
        r.rx.wf(),
        r.tx.wf(),
        r.rx.chain == rx_chain,
        r.tx.chain == tx_chain,
        r.rx.spec_offset() == 0,
        r.tx.spec_offset() == 0,
        client_side ==> r.rx.cipher == n.server_cipher && r.tx.cipher == n.client_cipher
            && r.rx.hmac == n.server_hmac && r.tx.hmac == n.client_hmac && r.rx.compress
            == n.server_compress && r.tx.compress == n.client_compress,
        !client_side ==> r.rx.cipher == n.client_cipher && r.tx.cipher == n.server_cipher
            && r.rx.hmac == n.client_hmac && r.tx.hmac == n.server_hmac && r.rx.compress
            == n.client_compress && r.tx.compress == n.server_compress,
{
    let (rx_cipher, rx_hmac, rx_compress, tx_cipher, tx_hmac, tx_compress) = if client_side {
        (
            n.server_cipher,
            n.server_hmac,
            n.server_compress,
            n.client_cipher,
            n.client_hmac,
            n.client_compress,
        )
    } else {
        (
            n.client_cipher,
            n.client_hmac,
            n.client_compress,
            n.server_cipher,
            n.server_hmac,
            n.server_compress,
        )
    };
    let rx_state = if rx_cipher.is_some() {
        Some(CipherState { offset: 0 })
    } else {
        None
    };
    let tx_state = if tx_cipher.is_some() {
        Some(CipherState { offset: 0 })
    } else {
        None
    };
    TransportPair {
        rx: Transport {
            chain: rx_chain,
            state: rx_state,
            cipher: rx_cipher,
            hmac: rx_hmac,
            compress: rx_compress,
        },
        tx: Transport {
            chain: tx_chain,
            state: tx_state,
            cipher: tx_cipher,
            hmac: tx_hmac,
            compress: tx_compress,
        },
    }
}

impl Kex {
    /// Finish the exchange on the initiator side: combine the ephemeral
    /// secret with the responder's reply, verify the host-key signature over
    /// the exchange hash, fix the session identifier, and derive the new
    /// transport pair. Fails exactly when the reply's ephemeral key is not
    /// thirty-two bytes or the signature does not verify.
    pub fn init(
        &self,
        stream: &mut Stream,
        secret: &Vec<u8>,
        v_c: &Vec<u8>,
        v_s: &Vec<u8>,
        i_c: &Vec<u8>,
        i_s: &Vec<u8>,
        n: &Negotiated,
        ecdh: &KexEcdhReply,
    ) -> (r: SshResult<TransportPair>)
        requires
            secret@.len() == 32,
            v_c@.len() <= 0xffff,
            v_s@.len() <= 0xffff,
            i_c@.len() <= 0xffff,
            i_s@.len() <= 0xffff,
            ecdh.k_s@.len() <= 0xffff,
            ecdh.q_s@.len() <= 0xffff,
        ensures
            final(stream).pair == old(stream).pair,
            final(stream).rx_seq == old(stream).rx_seq,
            final(stream).tx_seq == old(stream).tx_seq,
            r is Ok <==> ecdh.q_s@.len() == 32 && ssh_ed25519_verifies(
                ecdh.k_s@,
                spec_exchange_hash(
                    v_c@,
                    v_s@,
                    i_c@,
                    i_s@,
                    ecdh.k_s@,
                    x25519_of(secret@, spec_basepoint()),
                    ecdh.q_s@,
                    x25519_of(secret@, ecdh.q_s@),
                ),
                ecdh.signature@,
            ),
            r matches Ok(pair) ==> {
                let k = spec_mpint(x25519_of(secret@, ecdh.q_s@));
                let h = spec_exchange_hash(
                    v_c@,
                    v_s@,
                    i_c@,
                    i_s@,
                    ecdh.k_s@,
                    x25519_of(secret@, spec_basepoint()),
                    ecdh.q_s@,
                    x25519_of(secret@, ecdh.q_s@),
                );
                &&& pair.rx.wf() && pair.tx.wf()
                &&& pair.rx.spec_offset() == 0 && pair.tx.spec_offset() == 0
                &&& pair.rx.cipher == n.server_cipher && pair.tx.cipher == n.client_cipher
                &&& pair.rx.hmac == n.server_hmac && pair.tx.hmac == n.client_hmac
                &&& pair.rx.compress == n.server_compress && pair.tx.compress
                    == n.client_compress
                &&& (final(stream).session_id matches Some(s) && {
                    &&& old(stream).session_id is Some ==> Some(s) == old(stream).session_id
                    &&& old(stream).session_id is None ==> s@ == h
                    &&& spec_derived(k, h, 66, s@, n.server_cipher.spec_iv_size() as int, pair.rx.chain.iv@)
                    &&& spec_derived(k, h, 68, s@, n.server_cipher.spec_key_size() as int, pair.rx.chain.key@)
                    &&& spec_derived(k, h, 70, s@, n.server_hmac.spec_key_size() as int, pair.rx.chain.hmac@)
                    &&& spec_derived(k, h, 65, s@, n.client_cipher.spec_iv_size() as int, pair.tx.chain.iv@)
                    &&& spec_derived(k, h, 67, s@, n.client_cipher.spec_key_size() as int, pair.tx.chain.key@)
                    &&& spec_derived(k, h, 69, s@, n.client_hmac.spec_key_size() as int, pair.tx.chain.hmac@)
                })
            },
            r is Err ==> *final(stream) == *old(stream) && (r matches Err(Error::KexError)),
    {
        let q_c = x25519_mul(secret, &basepoint());
        if ecdh.q_s.len() != 32 {
            return Err(Error::KexError);
        }
        let shared = x25519_mul(secret, &ecdh.q_s);
        let hash = exchange_hash(v_c, v_s, i_c, i_s, &ecdh.k_s, &q_c, &ecdh.q_s, &shared);
        if !ed25519_verify(&ecdh.k_s, &hash, &ecdh.signature) {
            return Err(Error::KexError);
        }
        let session_id = stream.with_session(&hash);
        // the derivation hashes K in its mpint encoding (RFC 4253 paragraph 7.2)
        let k = mpint_positive(&shared);
        let rx_chain = KeyChain::as_server(&k, &hash, &session_id, n.server_cipher,
            n.server_hmac);
        let tx_chain = KeyChain::as_client(&k, &hash, &session_id, n.client_cipher,
            n.client_hmac);
        Ok(build_pair(n, rx_chain, tx_chain, true))
    }

    /// Finish the exchange on the responder side: combine the ephemeral
    /// secret with the initiator's key, sign the exchange hash with the host
    /// key, fix the session identifier, and derive the new transport pair
    /// along with the reply to send. Fails when the initiator's ephemeral
    /// key is not thirty-two bytes, or when the host key's blob or signature
    /// would not fit a packet field.
    pub fn reply(
        &self,
        stream: &mut Stream,
        host_key: &ssh_key::private::PrivateKey,
        secret: &Vec<u8>,
        v_c: &Vec<u8>,
        v_s: &Vec<u8>,
        i_c: &Vec<u8>,
        i_s: &Vec<u8>,
        n: &Negotiated,
        ecdh: &KexEcdhInit,
    ) -> (r: SshResult<(TransportPair, KexEcdhReply)>)
        requires
            secret@.len() == 32,
            v_c@.len() <= 0xffff,
            v_s@.len() <= 0xffff,
            i_c@.len() <= 0xffff,
            i_s@.len() <= 0xffff,
        ensures
            final(stream).pair == old(stream).pair,
            final(stream).rx_seq == old(stream).rx_seq,
            final(stream).tx_seq == old(stream).tx_seq,
            ecdh.q_c@.len() != 32 ==> r is Err,
            r matches Ok((pair, reply)) ==> {
                let k = spec_mpint(x25519_of(secret@, ecdh.q_c@));
                let h = spec_exchange_hash(
                    v_c@,
                    v_s@,
                    i_c@,
                    i_s@,
                    reply.k_s@,
                    ecdh.q_c@,
                    x25519_of(secret@, spec_basepoint()),
                    x25519_of(secret@, ecdh.q_c@),
                );
                &&& ecdh.q_c@.len() == 32
                &&& reply.wf()
                &&& reply.q_s@.len() == 32
                &&& pair.rx.wf() && pair.tx.wf()
                &&& pair.rx.spec_offset() == 0 && pair.tx.spec_offset() == 0
                &&& pair.rx.cipher == n.client_cipher && pair.tx.cipher == n.server_cipher
                &&& pair.rx.hmac == n.client_hmac && pair.tx.hmac == n.server_hmac
                &&& pair.rx.compress == n.client_compress && pair.tx.compress
                    == n.server_compress
                &&& reply.q_s@ == x25519_of(secret@, spec_basepoint())
                &&& (final(stream).session_id matches Some(s) && {
                    &&& old(stream).session_id is Some ==> Some(s) == old(stream).session_id
                    &&& old(stream).session_id is None ==> s@ == h
                    &&& spec_derived(k, h, 65, s@, n.client_cipher.spec_iv_size() as int, pair.rx.chain.iv@)
                    &&& spec_derived(k, h, 67, s@, n.client_cipher.spec_key_size() as int, pair.rx.chain.key@)
                    &&& spec_derived(k, h, 69, s@, n.client_hmac.spec_key_size() as int, pair.rx.chain.hmac@)
                    &&& spec_derived(k, h, 66, s@, n.server_cipher.spec_iv_size() as int, pair.tx.chain.iv@)
                    &&& spec_derived(k, h, 68, s@, n.server_cipher.spec_key_size() as int, pair.tx.chain.key@)
                    &&& spec_derived(k, h, 70, s@, n.server_hmac.spec_key_size() as int, pair.tx.chain.hmac@)
                })
            },
            r is Err ==> *final(stream) == *old(stream) && (r matches Err(Error::KexError)),
    {
        let q_s = x25519_mul(secret, &basepoint());
        if ecdh.q_c.len() != 32 {
            return Err(Error::KexError);
        }
        let shared = x25519_mul(secret, &ecdh.q_c);
        let k_s = public_key_blob(host_key);
        if k_s.len() > 0xffff {
            return Err(Error::KexError);
        }
        let hash = exchange_hash(v_c, v_s, i_c, i_s, &k_s, &ecdh.q_c, &q_s, &shared);
        let signature = sign_message(host_key, &hash);
        if signature.len() > 0xffff {
            return Err(Error::KexError);
        }
        let reply = KexEcdhReply { k_s, q_s, signature };
        let session_id = stream.with_session(&hash);
        // the derivation hashes K in its mpint encoding (RFC 4253 paragraph 7.2)
        let k = mpint_positive(&shared);
        let rx_chain = KeyChain::as_client(&k, &hash, &session_id, n.client_cipher,
            n.client_hmac);
        let tx_chain = KeyChain::as_server(&k, &hash, &session_id, n.server_cipher,
            n.server_hmac);
        Ok((build_pair(n, rx_chain, tx_chain, false), reply))
    }
}

} // verus!
