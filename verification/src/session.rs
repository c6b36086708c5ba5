//! The session: identification exchange, transparent transport messages,
//! opportunistic rekeying, service requests, and sticky termination. The
//! session is a byte-in, byte-out machine: a host feeds it received bytes,
//! writes out what it queues, and exchanges payloads through `send` and
//! `recv`.

use vstd::prelude::*;
use crate::algo::{cipher_name, hmac_name, compress_name, kex_name, hostkey_name, Cipher, Compress, HostKey, Hmac, Kex};
use crate::crypto::{basepoint, random_bytes, x25519_mul};
use crate::ident::{parse_id, Id, ParsedId};
use crate::kex::{negotiate_algorithms, Negotiated};
use crate::msg::{
    encode_newkeys, is_newkeys, parse_disconnect, parse_kex_ecdh_init, parse_kex_ecdh_reply,
    parse_kexinit, parse_service_accept, parse_service_request, spec_parse_disconnect,
    spec_parse_service_accept, Disconnect,
    KexEcdhInit, KexInit, ServiceAccept, ServiceRequest, MSG_DEBUG, MSG_DISCONNECT, MSG_IGNORE,
    MSG_KEXINIT, MSG_SERVICE_ACCEPT, MSG_UNIMPLEMENTED,
};
use crate::stream::{Stream, MAX_PAYLOAD, REKEY_BYTES, REKEY_PACKETS};
use crate::transport::Transport;
use crate::stream::{spec_recv, spec_sent_wire, SpecRecv};
use crate::wire::{bytes_eq, spec_string, spec_u32_be};
use crate::{DisconnectReason, DisconnectedBy, DisconnectedError, Error, SshResult};

verus! {

/// Which side of the connection this session plays.
#[derive(Clone, Copy, PartialEq, Eq, Structural, Debug)]
pub enum Side {
    /// The initiator.
    Client,
    /// The responder.
    Server,
}

/// Where the session stands.
pub enum Phase {
    /// Waiting for the peer's identification line.
    AwaitPeerId,
    /// The transport runs; payloads flow.
    Ready,
    /// Our KEXINIT is out; waiting for the peer's.
    KexWaitInit {
        /// Our KEXINIT payload, kept verbatim for the transcript.
        ours: Vec<u8>,
    },
    /// KEXINITs exchanged; the ECDH messages are in flight.
    KexEcdh {
        /// The client's KEXINIT payload.
        i_c: Vec<u8>,
        /// The server's KEXINIT payload.
        i_s: Vec<u8>,
        /// The negotiated algorithms.
        neg: Negotiated,
        /// Our ephemeral X25519 secret.
        secret: Vec<u8>,
    },
    /// New keys derived and our NEWKEYS sent; waiting for the peer's to
    /// switch the receiving direction.
    KexNewKeys {
        /// The receive transport to install on the peer's NEWKEYS.
        rx: Transport,
    },
    /// The session is over; the error is served forever.
    Terminated(DisconnectedError),
}

/// Whether the transported-data thresholds call for a rekey.
pub open spec fn spec_rekey_due(s: Stream) -> bool {
    s.bytes_since_rekey >= REKEY_BYTES || s.packets_since_rekey >= REKEY_PACKETS
}

/// A transparent transport message: consumed by the session, never
/// surfaced (RFC 4253 §11).
pub open spec fn spec_transparent(p: Seq<u8>) -> bool {
    p.len() > 0 && (p[0] == MSG_IGNORE || p[0] == MSG_DEBUG || p[0] == MSG_UNIMPLEMENTED)
}

/// The payload was handed to the transport between the two states: its wire
/// bytes were queued at the end of the out buffer under the earlier transmit
/// transport, or it waits on `pending` for the running key exchange to
/// finish.
pub open spec fn spec_queued_payload(pre: Session, post: Session, payload: Seq<u8>) -> bool {
    ||| {
        &&& post.out@.len() >= pre.out@.len()
        &&& post.out@.subrange(0, pre.out@.len() as int) == pre.out@
        &&& spec_sent_wire(
            pre.stream.pair.tx,
            pre.stream.tx_seq,
            payload,
            post.out@.subrange(pre.out@.len() as int, post.out@.len() as int),
        )
    }
    ||| (post.pending@.len() > 0 && post.pending@.last()@ == payload)
}

/// Two disconnect records with the same content.
pub open spec fn disc_eq(a: DisconnectedError, b: DisconnectedError) -> bool {
    a.by == b.by && a.reason == b.reason && a.description@ == b.description@
}

/// A session: a stream, a side, the two identification lines, and the
/// byte queues a host pumps.
pub struct Session {
    /// Which side we play.
    pub side: Side,
    /// Our identification line.
    pub id: Id,
    /// The server host key; present on the server side.
    pub host_key: Option<ssh_key::private::PrivateKey>,
    /// The peer's identification line, once read.
    pub peer: Option<Id>,
    /// The framing engine.
    pub stream: Stream,
    /// Where the session stands.
    pub phase: Phase,
    /// Bytes received from the peer and not yet consumed.
    pub inbuf: Vec<u8>,
    /// Bytes queued for the peer.
    pub out: Vec<u8>,
    /// Payloads queued while a key exchange is in flight.
    pub pending: Vec<Vec<u8>>,
    /// The service name a SERVICE_REQUEST of ours is still waiting on.
    pub awaiting_service: Option<Vec<u8>>,
    /// The service name the peer accepted, if any.
    pub accepted_service: Option<Vec<u8>>,
}

/// Build the KEXINIT this library offers: both Curve25519 names, Ed25519
/// host keys, AES-CTR ciphers, the SHA-2 MACs, no compression.
pub fn default_kexinit() -> (r: KexInit)
    ensures
        r.wf(),
        r.spec_enc().len() <= MAX_PAYLOAD,
        r.spec_enc().len() > 0,
        r.spec_enc()[0] == MSG_KEXINIT,
{
    let cookie = random_bytes(16);
    let kex_algorithms = vec![kex_name(Kex::Curve25519Sha256), kex_name(
        Kex::Curve25519Sha256Libssh,
    )];
    let server_host_key_algorithms = vec![hostkey_name(HostKey::Ed25519)];
    let ciphers = vec![cipher_name(Cipher::Aes128Ctr), cipher_name(Cipher::Aes256Ctr)];
    let ciphers2 = vec![cipher_name(Cipher::Aes128Ctr), cipher_name(Cipher::Aes256Ctr)];
    let macs = vec![hmac_name(Hmac::HmacSha2256), hmac_name(Hmac::HmacSha2512)];
    let macs2 = vec![hmac_name(Hmac::HmacSha2256), hmac_name(Hmac::HmacSha2512)];
    let compressions = vec![compress_name(Compress::NoCompression)];
    let compressions2 = vec![compress_name(Compress::NoCompression)];
    let languages: Vec<Vec<u8>> = Vec::new();
    let languages2: Vec<Vec<u8>> = Vec::new();
    let r = KexInit {
        cookie,
        kex_algorithms,
        server_host_key_algorithms,
        encryption_client_to_server: ciphers,
        encryption_server_to_client: ciphers2,
        mac_client_to_server: macs,
        mac_server_to_client: macs2,
        compression_client_to_server: compressions,
        compression_server_to_client: compressions2,
        languages_client_to_server: languages,
        languages_server_to_client: languages2,
        first_kex_packet_follows: false,
    };
    proof {
        crate::session::lemma_short_namelists(r);
    }
    r
}

/// The default offer's name-lists are all well under the length bound.
proof fn lemma_short_namelists(r: KexInit)
    requires
        r.kex_algorithms@.len() <= 2,
        r.server_host_key_algorithms@.len() <= 2,
        r.encryption_client_to_server@.len() <= 2,
        r.encryption_server_to_client@.len() <= 2,
        r.mac_client_to_server@.len() <= 2,
        r.mac_server_to_client@.len() <= 2,
        r.compression_client_to_server@.len() <= 2,
        r.compression_server_to_client@.len() <= 2,
        r.languages_client_to_server@.len() <= 2,
        r.languages_server_to_client@.len() <= 2,
        forall|i: int|
            0 <= i < r.kex_algorithms@.len() ==> #[trigger] r.kex_algorithms@[i]@.len() <= 64,
        forall|i: int|
            0 <= i < r.server_host_key_algorithms@.len()
                ==> #[trigger] r.server_host_key_algorithms@[i]@.len() <= 64,
        forall|i: int|
            0 <= i < r.encryption_client_to_server@.len()
                ==> #[trigger] r.encryption_client_to_server@[i]@.len() <= 64,
        forall|i: int|
            0 <= i < r.encryption_server_to_client@.len()
                ==> #[trigger] r.encryption_server_to_client@[i]@.len() <= 64,
        forall|i: int|
            0 <= i < r.mac_client_to_server@.len() ==> #[trigger] r.mac_client_to_server@[i]@.len()
                <= 64,
        forall|i: int|
            0 <= i < r.mac_server_to_client@.len() ==> #[trigger] r.mac_server_to_client@[i]@.len()
                <= 64,
        forall|i: int|
            0 <= i < r.compression_client_to_server@.len()
                ==> #[trigger] r.compression_client_to_server@[i]@.len() <= 64,
        forall|i: int|
            0 <= i < r.compression_server_to_client@.len()
                ==> #[trigger] r.compression_server_to_client@[i]@.len() <= 64,
        forall|i: int|
            0 <= i < r.languages_client_to_server@.len()
                ==> #[trigger] r.languages_client_to_server@[i]@.len() <= 64,
        forall|i: int|
            0 <= i < r.languages_server_to_client@.len()
                ==> #[trigger] r.languages_server_to_client@[i]@.len() <= 64,
        r.cookie@.len() == 16,
    ensures
        r.wf(),
        r.spec_enc().len() <= 1500,
        r.spec_enc().len() > 0,
        r.spec_enc()[0] == MSG_KEXINIT,
{
    crate::wire::lemma_nl_payload_bound(crate::wire::views(r.kex_algorithms@), 64);
    crate::wire::lemma_nl_payload_bound(crate::wire::views(r.server_host_key_algorithms@), 64);
    crate::wire::lemma_nl_payload_bound(crate::wire::views(r.encryption_client_to_server@), 64);
    crate::wire::lemma_nl_payload_bound(crate::wire::views(r.encryption_server_to_client@), 64);
    crate::wire::lemma_nl_payload_bound(crate::wire::views(r.mac_client_to_server@), 64);
    crate::wire::lemma_nl_payload_bound(crate::wire::views(r.mac_server_to_client@), 64);
    crate::wire::lemma_nl_payload_bound(crate::wire::views(r.compression_client_to_server@), 64);
    crate::wire::lemma_nl_payload_bound(crate::wire::views(r.compression_server_to_client@), 64);
    crate::wire::lemma_nl_payload_bound(crate::wire::views(r.languages_client_to_server@), 64);
    crate::wire::lemma_nl_payload_bound(crate::wire::views(r.languages_server_to_client@), 64);
}

impl Session {
    /// Whether the session has hit its sticky terminal state.
    pub open spec fn is_terminated(self) -> bool {
        self.phase is Terminated
    }

    /// The record served once the session is terminated.
    pub open spec fn terminal_error(self) -> DisconnectedError
        recommends
            self.is_terminated(),
    {
        match self.phase {
            Phase::Terminated(e) => e,
            _ => arbitrary(),
        }
    }

    /// Well-formed: the stream is, our identification line is, and a
    /// receive transport parked for the peer's NEWKEYS is.
    pub open spec fn wf(self) -> bool {
        &&& self.stream.wf()
        &&& self.id.wf()
        &&& match self.phase {
            Phase::KexNewKeys { rx } => rx.wf(),
            Phase::KexWaitInit { ours } => ours@.len() <= MAX_PAYLOAD,
            _ => true,
        }
        &&& forall|i: int|
            0 <= i < self.pending@.len() ==> #[trigger] self.pending@[i]@.len() <= MAX_PAYLOAD
    }

    /// Start a session: queue our identification line and wait for the
    /// peer's.
    pub fn new(side: Side, id: Id, host_key: Option<ssh_key::private::PrivateKey>) -> (r: Session)
        requires
            id.wf(),
        ensures
            r.wf(),
            r.side == side,
            r.phase is AwaitPeerId,
            r.out@ == id.spec_encoded(),
            r.stream.session_id is None,
    {
        let out = id.encoded();
        Session {
            side,
            id,
            host_key,
            peer: None,
            stream: Stream::new(),
            phase: Phase::AwaitPeerId,
            inbuf: Vec::new(),
            out,
            pending: Vec::new(),
            awaiting_service: None,
            accepted_service: None,
        }
    }

    /// Feed bytes read from the peer.
    pub fn push_input(&mut self, data: &Vec<u8>)
        ensures
            final(self).inbuf@ == old(self).inbuf@ + data@,
            final(self).out == old(self).out,
            final(self).phase == old(self).phase,
            final(self).stream == old(self).stream,
            final(self).peer == old(self).peer,
            final(self).pending == old(self).pending,
            final(self).awaiting_service == old(self).awaiting_service,
            final(self).accepted_service == old(self).accepted_service,
            final(self).id == old(self).id,
            final(self).side == old(self).side,
    {
        crate::mac::append_bytes(&mut self.inbuf, data);
    }

    /// Take the bytes queued for the peer; the host writes them out.
    pub fn take_output(&mut self) -> (r: Vec<u8>)
        ensures
            r@ == old(self).out@,
            final(self).out@.len() == 0,
            final(self).phase == old(self).phase,
            final(self).stream == old(self).stream,
            final(self).inbuf == old(self).inbuf,
    {
        let mut r: Vec<u8> = Vec::new();
        core::mem::swap(&mut r, &mut self.out);
        r
    }

    /// The peer's identification line, once the exchange is done.
    pub fn peer_id(&self) -> (r: &Option<Id>)
        ensures
            r == self.peer,
    {
        &self.peer
    }

    /// The session identifier: the exchange hash of the first key exchange.
    pub fn session_id(&self) -> (r: Option<Vec<u8>>)
        ensures
            match self.stream.session_id {
                Some(sid) => (r matches Some(v) && v@ == sid@),
                None => r is None,
            },
    {
        match &self.stream.session_id {
            Some(sid) => {
                let v = sid.clone();
                assert(v@ =~= sid@);
                Some(v)
            },
            None => None,
        }
    }

    /// The service name the peer has accepted, if any.
    pub fn accepted(&self) -> (r: &Option<Vec<u8>>)
        ensures
            r == self.accepted_service,
    {
        &self.accepted_service
    }

    /// Whether a call to `recv` can make progress without more bytes: a
    /// whole event is buffered, or the session is terminated, or the next
    /// buffered bytes are already known to be bad. `recv` itself is not
    /// cancel-safe; a host that multiplexes waits on this probe first.
    pub fn readable(&self) -> (r: bool)
        requires
            self.wf(),
        ensures
            self.is_terminated() ==> r,
            !self.is_terminated() ==> r == (match self.phase {
                Phase::AwaitPeerId => !(crate::ident::spec_parse_id(self.inbuf@) is NeedMore),
                _ => !(crate::stream::spec_recv(
                    self.stream.pair.rx,
                    self.stream.rx_seq,
                    self.inbuf@,
                ) is NeedMore),
            }),
    {
        match &self.phase {
            Phase::Terminated(_) => true,
            Phase::AwaitPeerId => !matches!(parse_id(&self.inbuf), ParsedId::NeedMore),
            _ => {
                match self.stream.peek_packet(&self.inbuf) {
                    Ok(Some(_)) => true,
                    Ok(None) => false,
                    Err(_) => true,
                }
            },
        }
    }

    /// Move to the sticky terminal state and hand out the record.
    fn terminate(&mut self, by: DisconnectedBy, reason: DisconnectReason, description: Vec<u8>)
        -> (r: DisconnectedError)
        requires
            old(self).wf(),
        ensures
            final(self).wf(),
            final(self).is_terminated(),
            disc_eq(final(self).terminal_error(), r),
            r.by == by && r.reason == reason && r.description@ == description@,
            final(self).stream == old(self).stream,
            final(self).inbuf == old(self).inbuf,
            final(self).out == old(self).out,
            final(self).pending == old(self).pending,
            final(self).peer == old(self).peer,
            final(self).awaiting_service == old(self).awaiting_service,
            final(self).accepted_service == old(self).accepted_service,
    {
        let err = DisconnectedError { by, reason, description };
        let err2 = DisconnectedError {
            by: err.by,
            reason: err.reason,
            description: err.description.clone(),
        };
        assert(err2.description@ =~= err.description@);
        self.phase = Phase::Terminated(err2);
        err
    }

    /// Send a DISCONNECT with the reason and description, then move to the
    /// sticky terminal state; every later operation returns this record.
    pub fn disconnect(&mut self, reason: DisconnectReason, description: Vec<u8>) -> (r:
        DisconnectedError)
        requires
            old(self).wf(),
            description@.len() + 14 <= MAX_PAYLOAD,
        ensures
            !old(self).is_terminated() ==> {
                &&& final(self).out@.len() >= old(self).out@.len()
                &&& final(self).out@.subrange(0, old(self).out@.len() as int) == old(self).out@
                &&& spec_sent_wire(
                    old(self).stream.pair.tx,
                    old(self).stream.tx_seq,
                    seq![MSG_DISCONNECT] + spec_u32_be(reason.spec_code()) + spec_string(
                        description@,
                    ) + spec_string(Seq::<u8>::empty()),
                    final(self).out@.subrange(
                        old(self).out@.len() as int,
                        final(self).out@.len() as int,
                    ),
                )
            },
            final(self).wf(),
            final(self).is_terminated(),
            old(self).is_terminated() ==> disc_eq(r, old(self).terminal_error()) && *final(self)
                == *old(self),
            !old(self).is_terminated() ==> r.by == DisconnectedBy::Us && r.reason == reason
                && r.description@ == description@ && disc_eq(final(self).terminal_error(), r),
            final(self).stream.session_id == old(self).stream.session_id,
            final(self).inbuf == old(self).inbuf,
            final(self).peer == old(self).peer,
            final(self).pending == old(self).pending,
            final(self).awaiting_service == old(self).awaiting_service,
            final(self).accepted_service == old(self).accepted_service,
    {
        match &self.phase {
            Phase::Terminated(err) => {
                let r = DisconnectedError {
                    by: err.by,
                    reason: err.reason,
                    description: err.description.clone(),
                };
                assert(r.description@ =~= err.description@);
                r
            },
            _ => {
                let msg = Disconnect { reason, description: description.clone(), language:
                    Vec::new() };
                assert(msg.description@ =~= description@);
                let payload = msg.encode();
                let ghost out0 = self.out@;
                let wire = self.stream.send_packet(&payload);
                crate::mac::append_bytes(&mut self.out, &wire);
                proof {
                    assert(self.out@.subrange(0, out0.len() as int) =~= out0);
                    assert(self.out@.subrange(out0.len() as int, self.out@.len() as int)
                        =~= wire@);
                    assert(payload@ =~= seq![MSG_DISCONNECT] + spec_u32_be(reason.spec_code())
                        + spec_string(description@) + spec_string(Seq::<u8>::empty()));
                }
                self.terminate(DisconnectedBy::Us, reason, description)
            },
        }
    }

    /// Queue one KEXINIT of ours and remember its payload for the
    /// transcript.
    fn start_kex(&mut self) -> (ours: Vec<u8>)
        requires
            old(self).wf(),
            !old(self).is_terminated(),
        ensures
            final(self).wf(),
            final(self).stream.session_id == old(self).stream.session_id,
            final(self).stream.pair.rx == old(self).stream.pair.rx,
            final(self).stream.rx_seq == old(self).stream.rx_seq,
            final(self).inbuf == old(self).inbuf,
            final(self).phase == old(self).phase,
            final(self).pending == old(self).pending,
            final(self).peer == old(self).peer,
            final(self).awaiting_service == old(self).awaiting_service,
            final(self).accepted_service == old(self).accepted_service,
            ours@.len() <= MAX_PAYLOAD,
            ours@.len() > 0 && ours@[0] == MSG_KEXINIT,
            final(self).out@.len() >= old(self).out@.len(),
            final(self).out@.subrange(0, old(self).out@.len() as int) == old(self).out@,
            spec_sent_wire(
                old(self).stream.pair.tx,
                old(self).stream.tx_seq,
                ours@,
                final(self).out@.subrange(old(self).out@.len() as int, final(self).out@.len() as int),
            ),
    {
        let ki = default_kexinit();
        let payload = ki.encode();
        let wire = self.stream.send_packet(&payload);
        let ghost out0 = self.out@;
        crate::mac::append_bytes(&mut self.out, &wire);
        proof {
            assert(self.out@.subrange(0, out0.len() as int) =~= out0);
            assert(self.out@.subrange(out0.len() as int, self.out@.len() as int) =~= wire@);
        }
        payload
    }

    /// Process the peer's KEXINIT payload: negotiate, and move the exchange
    /// to the ECDH step; the client sends its ephemeral key at once.
    fn on_peer_kexinit(&mut self, ours: Vec<u8>, theirs: Vec<u8>) -> (r: SshResult<()>)
        requires
            old(self).wf(),
            !old(self).is_terminated(),
            ours@.len() <= MAX_PAYLOAD,
        ensures
            final(self).wf(),
            final(self).stream.session_id == old(self).stream.session_id,
            final(self).inbuf == old(self).inbuf,
            final(self).peer == old(self).peer,
            final(self).pending == old(self).pending,
            final(self).awaiting_service == old(self).awaiting_service,
            final(self).accepted_service == old(self).accepted_service,
            r is Ok ==> final(self).phase is KexEcdh,
            r is Err ==> final(self).phase == old(self).phase,
    {
        let their_ki = match parse_kexinit(&theirs) {
            Some(k) => k,
            None => {
                return Err(Error::UnexpectedMessage);
            },
        };
        let our_ki = match parse_kexinit(&ours) {
            Some(k) => k,
            None => {
                return Err(Error::KexError);
            },
        };
        let (i_c, i_s, neg) = match self.side {
            Side::Client => {
                let neg = match negotiate_algorithms(&our_ki, &their_ki) {
                    Ok(n) => n,
                    Err(e) => {
                        return Err(e);
                    },
                };
                (ours, theirs, neg)
            },
            Side::Server => {
                let neg = match negotiate_algorithms(&their_ki, &our_ki) {
                    Ok(n) => n,
                    Err(e) => {
                        return Err(e);
                    },
                };
                (theirs, ours, neg)
            },
        };
        let secret = random_bytes(32);
        if matches!(self.side, Side::Client) {
            let q_c = x25519_mul(&secret, &basepoint());
            let msg = KexEcdhInit { q_c };
            let payload = msg.encode();
            if payload.len() > MAX_PAYLOAD {
                return Err(Error::KexError);
            }
            let wire = self.stream.send_packet(&payload);
            crate::mac::append_bytes(&mut self.out, &wire);
        }
        self.phase = Phase::KexEcdh { i_c, i_s, neg, secret };
        Ok(())
    }

    /// Process one ECDH message: the client completes on the reply, the
    /// server on the init; both send NEWKEYS and switch their transmit
    /// direction to the new keys at once.
    fn on_kex_ecdh(
        &mut self,
        i_c: Vec<u8>,
        i_s: Vec<u8>,
        neg: Negotiated,
        secret: Vec<u8>,
        payload: &Vec<u8>,
    ) -> (r: SshResult<()>)
        requires
            old(self).wf(),
            !old(self).is_terminated(),
        ensures
            final(self).wf(),
            old(self).stream.session_id is Some ==> final(self).stream.session_id == old(self).stream.session_id,
            final(self).inbuf == old(self).inbuf,
            final(self).peer == old(self).peer,
            final(self).pending == old(self).pending,
            final(self).awaiting_service == old(self).awaiting_service,
            final(self).accepted_service == old(self).accepted_service,
            r is Ok ==> final(self).phase is KexNewKeys,
            r is Err ==> final(self).phase == old(self).phase,
    {
        if secret.len() != 32 || i_c.len() > 0xffff || i_s.len() > 0xffff {
            return Err(Error::KexError);
        }
        let (v_c, v_s) = match (&self.peer, self.side) {
            (Some(p), Side::Client) => (self.id.line.clone(), p.line.clone()),
            (Some(p), Side::Server) => (p.line.clone(), self.id.line.clone()),
            (None, _) => {
                return Err(Error::UnexpectedMessage);
            },
        };
        if v_c.len() > 0xffff || v_s.len() > 0xffff {
            return Err(Error::KexError);
        }
        let kex = neg.kex;
        let pair = match self.side {
            Side::Client => {
                let reply = match parse_kex_ecdh_reply(payload) {
                    Some(m) => m,
                    None => {
                        return Err(Error::UnexpectedMessage);
                    },
                };
                if reply.k_s.len() > 0xffff || reply.q_s.len() > 0xffff {
                    return Err(Error::KexError);
                }
                match kex.init(&mut self.stream, &secret, &v_c, &v_s, &i_c, &i_s, &neg, &reply) {
                    Ok(p) => p,
                    Err(e) => {
                        return Err(e);
                    },
                }
            },
            Side::Server => {
                let init = match parse_kex_ecdh_init(payload) {
                    Some(m) => m,
                    None => {
                        return Err(Error::UnexpectedMessage);
                    },
                };
                let host_key = match &self.host_key {
                    Some(k) => k,
                    None => {
                        return Err(Error::KexError);
                    },
                };
                let (p, reply) = match kex.reply(
                    &mut self.stream,
                    host_key,
                    &secret,
                    &v_c,
                    &v_s,
                    &i_c,
                    &i_s,
                    &neg,
                    &init,
                ) {
                    Ok(x) => x,
                    Err(e) => {
                        return Err(e);
                    },
                };
                let rp = reply.encode();
                if rp.len() > MAX_PAYLOAD {
                    return Err(Error::KexError);
                }
                let wire = self.stream.send_packet(&rp);
                crate::mac::append_bytes(&mut self.out, &wire);
                p
            },
        };
        // send our NEWKEYS and switch the transmit direction
        let nk = encode_newkeys();
        let wire = self.stream.send_packet(&nk);
        crate::mac::append_bytes(&mut self.out, &wire);
        self.stream.install_tx(pair.tx);
        self.phase = Phase::KexNewKeys { rx: pair.rx };
        Ok(())
    }

    /// Flush payloads queued while the exchange ran.
    fn flush_pending(&mut self)
        requires
            old(self).wf(),
            forall|i: int|
                0 <= i < old(self).pending@.len() ==> #[trigger] old(self).pending@[i]@.len() <= MAX_PAYLOAD,
        ensures
            final(self).wf(),
            final(self).stream.session_id == old(self).stream.session_id,
            final(self).pending@.len() == 0,
            final(self).inbuf == old(self).inbuf,
            final(self).phase == old(self).phase,
            final(self).peer == old(self).peer,
            final(self).awaiting_service == old(self).awaiting_service,
            final(self).accepted_service == old(self).accepted_service,
    {
        let mut i: usize = 0;
        while i < self.pending.len()
            invariant
                self.wf(),
                i <= self.pending@.len(),
                self.pending == old(self).pending,
                self.stream.session_id == old(self).stream.session_id,
                self.inbuf == old(self).inbuf,
                self.phase == old(self).phase,
                self.peer == old(self).peer,
                self.awaiting_service == old(self).awaiting_service,
                self.accepted_service == old(self).accepted_service,
                forall|j: int|
                    0 <= j < self.pending@.len() ==> #[trigger] self.pending@[j]@.len()
                        <= MAX_PAYLOAD,
            decreases self.pending@.len() - i,
        {
            let p = self.pending[i].clone();
            assert(p@ =~= self.pending@[i as int]@);
            let wire = self.stream.send_packet(&p);
            crate::mac::append_bytes(&mut self.out, &wire);
            i = i + 1;
        }
        self.pending = Vec::new();
    }

    /// Consume the peer's identification line from the buffered bytes, when
    /// the session still waits for it: a parsed line is installed as the
    /// peer identity and the first key exchange starts; a short buffer asks
    /// for more bytes; a malformed line terminates the session.
    fn read_peer_id(&mut self) -> (r: SshResult<bool>)
        requires
            old(self).wf(),
            !old(self).is_terminated(),
            old(self).phase is AwaitPeerId,
        ensures
            final(self).wf(),
            final(self).stream.session_id == old(self).stream.session_id,
            final(self).awaiting_service == old(self).awaiting_service,
            final(self).accepted_service == old(self).accepted_service,
            final(self).pending == old(self).pending,
            final(self).inbuf@.len() <= old(self).inbuf@.len(),
            match crate::ident::spec_parse_id(old(self).inbuf@) {
                crate::ident::SpecIdParse::NeedMore => (r matches Ok(b) && b == false) && *final(self)
                    == *old(self),
                crate::ident::SpecIdParse::Bad => (r matches Err(Error::Disconnected(e)))
                    && final(self).is_terminated() && final(self).inbuf == old(self).inbuf,
                crate::ident::SpecIdParse::Parsed(line, used) => {
                    &&& (r matches Ok(b) && b == true)
                    &&& (final(self).peer matches Some(p) && p.line@ == line)
                    &&& final(self).phase is KexWaitInit
                    &&& !final(self).is_terminated()
                    &&& final(self).inbuf@ == old(self).inbuf@.subrange(
                        used,
                        old(self).inbuf@.len() as int,
                    )
                    &&& used >= 2
                },
            },
    {
        match parse_id(&self.inbuf) {
            ParsedId::NeedMore => Ok(false),
            ParsedId::Bad => {
                let e = self.disconnect(DisconnectReason::ProtocolVersionNotSupported, Vec::new());
                Err(Error::Disconnected(e))
            },
            ParsedId::Parsed(id, used) => {
                let rest = self.inbuf.split_off(used);
                self.inbuf = rest;
                self.peer = Some(id);
                // the first key exchange starts right away
                let ours = self.start_kex();
                self.phase = Phase::KexWaitInit { ours };
                Ok(true)
            },
        }
    }

    /// Receive the next service payload, or nothing if more bytes are
    /// needed. Transparent messages are consumed here: IGNORE, DEBUG and
    /// UNIMPLEMENTED are skipped; a DISCONNECT moves the session to its
    /// sticky terminal state; KEXINIT from either side drives a key
    /// exchange, as does the rekey threshold. Once terminated, every call
    /// returns the same record.
    #[verifier::rlimit(100)]
    pub fn recv(&mut self) -> (r: SshResult<Option<Vec<u8>>>)
        requires
            old(self).wf(),
        ensures
            final(self).wf(),
            (r matches Ok(Some(p))) ==> final(self).inbuf@.len() < old(self).inbuf@.len(),
            r matches Ok(Some(p)) ==> p@.len() > 0 && p@[0] != MSG_KEXINIT && p@[0]
                != MSG_DISCONNECT && !spec_transparent(p@),
            old(self).awaiting_service is None ==> final(self).awaiting_service == old(self).awaiting_service
                && final(self).accepted_service == old(self).accepted_service,
            (old(self).peer is Some && !(old(self).phase is AwaitPeerId)) ==> final(self).peer
                == old(self).peer,
            (!old(self).is_terminated() && old(self).phase is AwaitPeerId) ==> match
                crate::ident::spec_parse_id(old(self).inbuf@) {
                crate::ident::SpecIdParse::NeedMore => (r matches Ok(None)) && *final(self)
                    == *old(self),
                crate::ident::SpecIdParse::Bad => (r matches Err(Error::Disconnected(e)))
                    && final(self).is_terminated(),
                crate::ident::SpecIdParse::Parsed(line, used) => (final(self).peer matches Some(p)
                    && p.line@ == line),
            },
            old(self).is_terminated() ==> *final(self) == *old(self) && (
            r matches Err(Error::Disconnected(e)) && disc_eq(e, old(self).terminal_error())),
            old(self).stream.session_id is Some ==> final(self).stream.session_id == old(self).stream.session_id,
            (!old(self).is_terminated() && old(self).phase is Ready) ==> match spec_recv(
                old(self).stream.pair.rx,
                old(self).stream.rx_seq,
                old(self).inbuf@,
            ) {
                SpecRecv::NeedMore => (r matches Ok(None)) && (!spec_rekey_due(
                    old(self).stream,
                ) ==> {
                    &&& final(self).stream == old(self).stream
                    &&& final(self).inbuf@ == old(self).inbuf@
                    &&& final(self).out == old(self).out
                    &&& final(self).pending == old(self).pending
                    &&& final(self).phase is Ready
                }),
                SpecRecv::Malformed => (r matches Err(Error::MalformedPacket)) && final(self).is_terminated(),
                SpecRecv::BadMac => (r matches Err(Error::MacMismatch)) && final(self).is_terminated(),
                SpecRecv::Packet(payload, consumed) => {
                    &&& ((payload.len() > 0 && payload[0] != MSG_KEXINIT && payload[0]
                        != MSG_DISCONNECT && !spec_transparent(payload) && (payload[0]
                        != MSG_SERVICE_ACCEPT || old(self).awaiting_service is None)) ==> {
                        &&& (r matches Ok(Some(p)) && p@ == payload)
                        &&& final(self).inbuf@ == old(self).inbuf@.subrange(
                            consumed,
                            old(self).inbuf@.len() as int,
                        )
                        &&& final(self).stream.rx_seq == crate::stream::wrap_inc32(
                            old(self).stream.rx_seq,
                        )
                        &&& (!spec_rekey_due(old(self).stream) ==> {
                            &&& final(self).stream.pair.tx == old(self).stream.pair.tx
                            &&& final(self).stream.tx_seq == old(self).stream.tx_seq
                            &&& final(self).out == old(self).out
                            &&& final(self).pending == old(self).pending
                            &&& final(self).phase is Ready
                        })
                    })
                    &&& ((payload.len() > 0 && payload[0] == MSG_DISCONNECT) ==> (
                    spec_parse_disconnect(payload) matches Some((reason, desc, lang)) ==> {
                        &&& (r matches Err(Error::Disconnected(e)) && e.by == DisconnectedBy::Them
                            && e.reason == reason && e.description@ == desc)
                        &&& final(self).is_terminated()
                    }))
                    &&& (payload.len() > 0 && payload[0] == MSG_SERVICE_ACCEPT ==> (
                    old(self).awaiting_service matches Some(want) ==> match spec_parse_service_accept(
                        payload,
                    ) {
                        Some(got) => {
                            &&& (got == want@ ==> (final(self).accepted_service matches Some(a)
                                && a@ == want@) && final(self).awaiting_service is None)
                            &&& (got != want@ ==> (r matches Err(Error::Disconnected(e)) && e.by
                                == DisconnectedBy::Us && e.reason
                                == DisconnectReason::ServiceNotAvailable) && final(self).is_terminated())
                        },
                        None => (r matches Err(Error::UnexpectedMessage)) && final(self).is_terminated(),
                    }))
                },
            },
        decreases old(self).inbuf@.len(),
    {
        match &self.phase {
            Phase::Terminated(err) => {
                let e = DisconnectedError {
                    by: err.by,
                    reason: err.reason,
                    description: err.description.clone(),
                };
                assert(e.description@ =~= err.description@);
                return Err(Error::Disconnected(e));
            },
            _ => {},
        }
        // the identification exchange comes first
        if matches!(&self.phase, Phase::AwaitPeerId) {
            match self.read_peer_id() {
                Ok(true) => {},
                Ok(false) => {
                    return Ok(None);
                },
                Err(e) => {
                    return Err(e);
                },
            }
        }
        // rekey on threshold, from the ready state
        if matches!(&self.phase, Phase::Ready) && self.stream.is_rekeyable() {
            let ours = self.start_kex();
            self.phase = Phase::KexWaitInit { ours };
        }
        let packet = match self.stream.recv_packet(&mut self.inbuf) {
            Ok(Some(p)) => p,
            Ok(None) => {
                return Ok(None);
            },
            Err(e) => {
                let reason = match &e {
                    Error::MacMismatch => DisconnectReason::MacError,
                    _ => DisconnectReason::ProtocolError,
                };
                let _ = self.disconnect(reason, Vec::new());
                return Err(e);
            },
        };
        if packet.len() == 0 {
            let _ = self.disconnect(DisconnectReason::ProtocolError, Vec::new());
            return Err(Error::UnexpectedMessage);
        }
        let num = packet[0];
        // transparent messages, in any phase
        if num == MSG_IGNORE || num == MSG_DEBUG || num == MSG_UNIMPLEMENTED {
            return self.recv();
        }
        if num == MSG_DISCONNECT {
            match parse_disconnect(&packet) {
                Some(m) => {
                    let e = self.terminate(DisconnectedBy::Them, m.reason, m.description);
                    return Err(Error::Disconnected(e));
                },
                None => {
                    let _ = self.disconnect(DisconnectReason::ProtocolError, Vec::new());
                    return Err(Error::UnexpectedMessage);
                },
            }
        }
        // a SERVICE_ACCEPT we are waiting on is consumed here
        if num == MSG_SERVICE_ACCEPT && !matches!(&self.awaiting_service, Option::None) {
            let name = match &self.awaiting_service {
                Some(n) => n.clone(),
                None => Vec::new(),
            };
            match parse_service_accept(&packet) {
                Some(m) => {
                    if bytes_eq(&m.service_name, &name) {
                        self.accepted_service = Some(name);
                        self.awaiting_service = None;
                        return self.recv();
                    } else {
                        let d = self.disconnect(DisconnectReason::ServiceNotAvailable, Vec::new());
                        return Err(Error::Disconnected(d));
                    }
                },
                None => {
                    let _ = self.disconnect(DisconnectReason::ProtocolError, Vec::new());
                    return Err(Error::UnexpectedMessage);
                },
            }
        }
        // key-exchange driving, by phase
        let mut phase = Phase::Ready;
        core::mem::swap(&mut phase, &mut self.phase);
        match phase {
            Phase::Ready => {
                if num == MSG_KEXINIT {
                    let ours = self.start_kex();
                    match self.on_peer_kexinit(ours, packet) {
                        Ok(()) => {
                            return self.recv();
                        },
                        Err(e) => {
                            let _ = self.disconnect(
                                DisconnectReason::KeyExchangeFailed,
                                Vec::new(),
                            );
                            return Err(e);
                        },
                    }
                }
                self.phase = Phase::Ready;
                Ok(Some(packet))
            },
            Phase::KexWaitInit { ours } => {
                if num == MSG_KEXINIT {
                    match self.on_peer_kexinit(ours, packet) {
                        Ok(()) => self.recv(),
                        Err(e) => {
                            let _ = self.disconnect(
                                DisconnectReason::KeyExchangeFailed,
                                Vec::new(),
                            );
                            Err(e)
                        },
                    }
                } else {
                    // transport traffic may still arrive under the old keys
                    self.phase = Phase::KexWaitInit { ours };
                    Ok(Some(packet))
                }
            },
            Phase::KexEcdh { i_c, i_s, neg, secret } => {
                match self.on_kex_ecdh(i_c, i_s, neg, secret, &packet) {
                    Ok(()) => self.recv(),
                    Err(e) => {
                        let _ = self.disconnect(DisconnectReason::KeyExchangeFailed, Vec::new());
                        Err(e)
                    },
                }
            },
            Phase::KexNewKeys { rx } => {
                if is_newkeys(&packet) {
                    self.stream.install_rx(rx);
                    self.phase = Phase::Ready;
                    self.flush_pending();
                    self.recv()
                } else {
                    let _ = self.disconnect(DisconnectReason::ProtocolError, Vec::new());
                    Err(Error::UnexpectedMessage)
                }
            },
            Phase::AwaitPeerId => {
                let _ = self.disconnect(DisconnectReason::ProtocolError, Vec::new());
                Err(Error::UnexpectedMessage)
            },
            Phase::Terminated(e) => {
                self.phase = Phase::Terminated(e);
                let err = match &self.phase {
                    Phase::Terminated(x) => DisconnectedError {
                        by: x.by,
                        reason: x.reason,
                        description: x.description.clone(),
                    },
                    _ => DisconnectedError {
                        by: DisconnectedBy::Us,
                        reason: DisconnectReason::ProtocolError,
                        description: Vec::new(),
                    },
                };
                Err(Error::Disconnected(err))
            },
        }
    }

    /// Start a key exchange now, whatever the thresholds say: the host's
    /// wall-clock rekey policy, and tests of rekeying, drive this. Nothing
    /// happens while an exchange is already in flight or the identification
    /// exchange is not done.
    pub fn rekey(&mut self) -> (r: SshResult<()>)
        requires
            old(self).wf(),
        ensures
            final(self).wf(),
            old(self).is_terminated() ==> *final(self) == *old(self) && (r matches Err(
                Error::Disconnected(e),
            ) && disc_eq(e, old(self).terminal_error())),
            old(self).stream.session_id is Some ==> final(self).stream.session_id == old(self).stream.session_id,
            (!old(self).is_terminated() && old(self).phase is Ready) ==> {
                &&& r is Ok
                &&& final(self).phase is KexWaitInit
                &&& final(self).out@.len() >= old(self).out@.len()
                &&& final(self).out@.subrange(0, old(self).out@.len() as int) == old(self).out@
                &&& exists|p: Seq<u8>|
                    p.len() > 0 && p[0] == MSG_KEXINIT && #[trigger] spec_sent_wire(
                        old(self).stream.pair.tx,
                        old(self).stream.tx_seq,
                        p,
                        final(self).out@.subrange(
                            old(self).out@.len() as int,
                            final(self).out@.len() as int,
                        ),
                    )
            },
    {
        match &self.phase {
            Phase::Terminated(err) => {
                let e = DisconnectedError {
                    by: err.by,
                    reason: err.reason,
                    description: err.description.clone(),
                };
                assert(e.description@ =~= err.description@);
                return Err(Error::Disconnected(e));
            },
            _ => {},
        }
        if matches!(&self.phase, Phase::Ready) {
            let ours = self.start_kex();
            self.phase = Phase::KexWaitInit { ours };
        }
        Ok(())
    }

    /// Send one payload. A due rekey is started first; payloads queued while
    /// an exchange is in flight go out, in order, as soon as it finishes.
    /// Once terminated, every call returns the same record.
    pub fn send(&mut self, payload: &Vec<u8>) -> (r: SshResult<()>)
        requires
            old(self).wf(),
            payload@.len() <= MAX_PAYLOAD,
        ensures
            final(self).wf(),
            final(self).inbuf == old(self).inbuf,
            old(self).is_terminated() ==> *final(self) == *old(self) && (
            r matches Err(Error::Disconnected(e)) && disc_eq(e, old(self).terminal_error())),
            old(self).stream.session_id is Some ==> final(self).stream.session_id == old(self).stream.session_id,
            !old(self).is_terminated() ==> r is Ok && spec_queued_payload(
                *old(self),
                *final(self),
                payload@,
            ),
            (!old(self).is_terminated() && old(self).phase is Ready && !spec_rekey_due(
                old(self).stream,
            )) ==> {
                &&& final(self).out@.len() >= old(self).out@.len()
                &&& final(self).out@.subrange(0, old(self).out@.len() as int) == old(self).out@
                &&& spec_sent_wire(
                    old(self).stream.pair.tx,
                    old(self).stream.tx_seq,
                    payload@,
                    final(self).out@.subrange(
                        old(self).out@.len() as int,
                        final(self).out@.len() as int,
                    ),
                )
                &&& final(self).stream.tx_seq == crate::stream::wrap_inc32(old(self).stream.tx_seq)
                &&& final(self).stream.pair.rx == old(self).stream.pair.rx
                &&& final(self).stream.rx_seq == old(self).stream.rx_seq
                &&& final(self).pending == old(self).pending
                &&& final(self).phase is Ready
            },
            (!old(self).is_terminated() && !(old(self).phase is Ready)) ==> {
                &&& final(self).pending@.len() == old(self).pending@.len() + 1
                &&& final(self).pending@.last()@ == payload@
                &&& final(self).out == old(self).out
                &&& final(self).stream == old(self).stream
            },
            (!old(self).is_terminated() && old(self).phase is Ready && spec_rekey_due(
                old(self).stream,
            )) ==> {
                &&& final(self).pending@.len() == old(self).pending@.len() + 1
                &&& final(self).pending@.last()@ == payload@
            },
    {
        match &self.phase {
            Phase::Terminated(err) => {
                let e = DisconnectedError {
                    by: err.by,
                    reason: err.reason,
                    description: err.description.clone(),
                };
                assert(e.description@ =~= err.description@);
                return Err(Error::Disconnected(e));
            },
            _ => {},
        }
        if matches!(&self.phase, Phase::Ready) && self.stream.is_rekeyable() {
            let ours = self.start_kex();
            self.phase = Phase::KexWaitInit { ours };
        }
        match &self.phase {
            Phase::Ready => {
                let ghost out0 = self.out@;
                let wire = self.stream.send_packet(payload);
                crate::mac::append_bytes(&mut self.out, &wire);
                proof {
                    assert(self.out@.subrange(0, out0.len() as int) =~= out0);
                    assert(self.out@.subrange(out0.len() as int, self.out@.len() as int)
                        =~= wire@);
                }
                Ok(())
            },
            _ => {
                // a key exchange is in flight: hold the payload back
                let p = payload.clone();
                assert(p@ =~= payload@);
                let ghost pend0 = self.pending@;
                self.pending.push(p);
                assert forall|i: int|
                    0 <= i < self.pending@.len() implies #[trigger] self.pending@[i]@.len()
                    <= MAX_PAYLOAD by {
                    if i < pend0.len() {
                        assert(self.pending@[i] == pend0[i]);
                    }
                }
                Ok(())
            },
        }
    }

    /// Ask the peer to start a service: queue the SERVICE_REQUEST and watch
    /// for the matching SERVICE_ACCEPT during `recv`. Only one request may
    /// be in flight at a time.
    pub fn request(&mut self, service_name: &Vec<u8>) -> (r: SshResult<()>)
        requires
            old(self).wf(),
            service_name@.len() + 6 <= MAX_PAYLOAD,
        ensures
            final(self).wf(),
            final(self).inbuf == old(self).inbuf,
            old(self).is_terminated() ==> *final(self) == *old(self) && (r matches Err(
                Error::Disconnected(e),
            ) && disc_eq(e, old(self).terminal_error())),
            old(self).stream.session_id is Some ==> final(self).stream.session_id == old(self).stream.session_id,
            (!old(self).is_terminated() && old(self).awaiting_service is None) ==> {
                &&& r is Ok
                &&& (final(self).awaiting_service matches Some(n) && n@ == service_name@)
                &&& spec_queued_payload(
                    *old(self),
                    *final(self),
                    seq![crate::msg::MSG_SERVICE_REQUEST] + spec_string(service_name@),
                )
            },
    {
        match &self.phase {
            Phase::Terminated(err) => {
                let e = DisconnectedError {
                    by: err.by,
                    reason: err.reason,
                    description: err.description.clone(),
                };
                assert(e.description@ =~= err.description@);
                return Err(Error::Disconnected(e));
            },
            _ => {},
        }
        if !matches!(&self.awaiting_service, Option::None) {
            // one request at a time
            return Err(Error::UnexpectedMessage);
        }
        let msg = ServiceRequest { service_name: service_name.clone() };
        assert(msg.service_name@ =~= service_name@);
        let payload = msg.encode();
        let ghost pre = *self;
        match self.send(&payload) {
            Ok(()) => {},
            Err(e) => {
                return Err(e);
            },
        }
        let name = service_name.clone();
        assert(name@ =~= service_name@);
        self.awaiting_service = Some(name);
        Ok(())
    }

    /// Handle one service request from the peer: on the expected name, queue
    /// the SERVICE_ACCEPT and yield the name; on another name, disconnect
    /// with `ServiceNotAvailable`; on another message, disconnect with
    /// `ProtocolError`. Nothing arriving yet is not an error.
    pub fn handle(&mut self, service_name: &Vec<u8>) -> (r: SshResult<Option<Vec<u8>>>)
        requires
            old(self).wf(),
            service_name@.len() + 6 <= MAX_PAYLOAD,
        ensures
            final(self).wf(),
            old(self).is_terminated() ==> *final(self) == *old(self) && (r matches Err(
                Error::Disconnected(e),
            ) && disc_eq(e, old(self).terminal_error())),
            old(self).stream.session_id is Some ==> final(self).stream.session_id == old(self).stream.session_id,
            (!old(self).is_terminated() && old(self).phase is Ready && !spec_rekey_due(
                old(self).stream,
            ) && old(self).awaiting_service is None) ==> match spec_recv(
                old(self).stream.pair.rx,
                old(self).stream.rx_seq,
                old(self).inbuf@,
            ) {
                SpecRecv::Packet(payload, consumed) => (
                crate::msg::spec_parse_service_request(payload) matches Some(name) ==> {
                    &&& (name == service_name@ ==> {
                        &&& (r matches Ok(Some(n)) && n@ == name)
                        &&& spec_queued_payload(
                            *old(self),
                            *final(self),
                            seq![MSG_SERVICE_ACCEPT] + spec_string(name),
                        )
                    })
                    &&& (name != service_name@ ==> {
                        &&& (r matches Err(Error::Disconnected(e)) && e.by == DisconnectedBy::Us
                            && e.reason == DisconnectReason::ServiceNotAvailable)
                        &&& final(self).is_terminated()
                    })
                }),
                _ => true,
            },
    {
        let packet = match self.recv() {
            Ok(Some(p)) => p,
            Ok(None) => {
                return Ok(None);
            },
            Err(e) => {
                return Err(e);
            },
        };
        match parse_service_request(&packet) {
            Some(m) => {
                if bytes_eq(&m.service_name, service_name) {
                    let accept = ServiceAccept { service_name: m.service_name };
                    let payload = accept.encode();
                    assert(payload@.len() <= MAX_PAYLOAD);
                    match self.send(&payload) {
                        Ok(()) => {},
                        Err(e) => {
                            return Err(e);
                        },
                    }
                    Ok(Some(accept.service_name))
                } else {
                    let d = self.disconnect(DisconnectReason::ServiceNotAvailable, Vec::new());
                    Err(Error::Disconnected(d))
                }
            },
            None => {
                let _ = self.disconnect(DisconnectReason::ProtocolError, Vec::new());
                Err(Error::UnexpectedMessage)
            },
        }
    }
}

} // verus!
