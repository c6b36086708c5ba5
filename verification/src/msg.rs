//! Transport-layer messages (RFC 4253): their payload layouts, encoders and
//! strict parsers. A payload is one wire message, the message number first;
//! parsers accept exactly the encodings and nothing else.

use vstd::prelude::*;
use crate::wire::{
    put_bool, put_namelist, put_string, put_u32, put_u8, spec_bool, spec_namelist,
    spec_nl_payload, spec_read_bool, spec_read_bytes, spec_read_namelist, spec_read_string,
    spec_read_u32, spec_read_u8, spec_string, spec_u32_be, views, Reader,
};
use crate::{DisconnectReason, Error, SshResult};

verus! {

/// Message number of SSH_MSG_DISCONNECT.
pub const MSG_DISCONNECT: u8 = 1;

/// Message number of SSH_MSG_IGNORE.
pub const MSG_IGNORE: u8 = 2;

/// Message number of SSH_MSG_UNIMPLEMENTED.
pub const MSG_UNIMPLEMENTED: u8 = 3;

/// Message number of SSH_MSG_DEBUG.
pub const MSG_DEBUG: u8 = 4;

/// Message number of SSH_MSG_SERVICE_REQUEST.
pub const MSG_SERVICE_REQUEST: u8 = 5;

/// Message number of SSH_MSG_SERVICE_ACCEPT.
pub const MSG_SERVICE_ACCEPT: u8 = 6;

/// Message number of SSH_MSG_KEXINIT.
pub const MSG_KEXINIT: u8 = 20;

/// Message number of SSH_MSG_NEWKEYS.
pub const MSG_NEWKEYS: u8 = 21;

/// Message number of SSH_MSG_KEX_ECDH_INIT.
pub const MSG_KEX_ECDH_INIT: u8 = 30;

/// Message number of SSH_MSG_KEX_ECDH_REPLY.
pub const MSG_KEX_ECDH_REPLY: u8 = 31;

/// A DISCONNECT message: the peer ends the session.
#[derive(Clone, Debug)]
pub struct Disconnect {
    /// Why the session ends.
    pub reason: DisconnectReason,
    /// A UTF-8 description shown to the other side.
    pub description: Vec<u8>,
    /// An RFC 3066 language tag, usually empty.
    pub language: Vec<u8>,
}

impl Disconnect {
    /// Encodable: the variable-length fields fit their length prefixes.
    pub open spec fn wf(self) -> bool {
        self.description@.len() <= 0xffff && self.language@.len() <= 0xffff
    }

    /// The payload bytes of the message.
    pub open spec fn spec_enc(self) -> Seq<u8> {
        seq![MSG_DISCONNECT] + spec_u32_be(self.reason.spec_code()) + spec_string(
            self.description@,
        ) + spec_string(self.language@)
    }

    /// Encode the payload.
    pub fn encode(&self) -> (r: Vec<u8>)
        requires
            self.wf(),
        ensures
            r@ == self.spec_enc(),
    {
        let mut out: Vec<u8> = Vec::new();
        put_u8(&mut out, MSG_DISCONNECT);
        put_u32(&mut out, self.reason.code());
        put_string(&mut out, &self.description);
        put_string(&mut out, &self.language);
        assert(out@ =~= self.spec_enc());
        out
    }
}

/// What parsing a DISCONNECT payload yields: reason, description, language.
pub open spec fn spec_parse_disconnect(b: Seq<u8>) -> Option<
    (DisconnectReason, Seq<u8>, Seq<u8>),
> {
    match spec_read_u8(b, 0) {
        Some((num, p0)) => if num == MSG_DISCONNECT {
            match spec_read_u32(b, p0) {
                Some((code, p1)) => match DisconnectReason::spec_from_code(code) {
                    Some(reason) => match spec_read_string(b, p1) {
                        Some((d, p2)) => match spec_read_string(b, p2) {
                            Some((l, p3)) => if p3 == b.len() {
                                Some((reason, d, l))
                            } else {
                                None
                            },
                            None => None,
                        },
                        None => None,
                    },
                    None => None,
                },
                None => None,
            }
        } else {
            None
        },
        None => None,
    }
}

/// Parse a DISCONNECT payload.
pub fn parse_disconnect(buf: &Vec<u8>) -> (r: Option<Disconnect>)
    ensures
        match r {
            Some(m) => spec_parse_disconnect(buf@) == Some((m.reason, m.description@, m.language@)),
            None => spec_parse_disconnect(buf@) is None,
        },
{
    let mut rd = Reader::new(buf);
    let num = match rd.read_u8() {
        Some(n) => n,
        None => { return None; },
    };
    if num != MSG_DISCONNECT {
        return None;
    }
    let code = match rd.read_u32() {
        Some(c) => c,
        None => { return None; },
    };
    let reason = match DisconnectReason::from_code(code) {
        Some(x) => x,
        None => { return None; },
    };
    let description = match rd.read_string() {
        Some(d) => d,
        None => { return None; },
    };
    let language = match rd.read_string() {
        Some(l) => l,
        None => { return None; },
    };
    if !rd.done() {
        return None;
    }
    Some(Disconnect { reason, description, language })
}

/// A SERVICE_REQUEST message: ask the peer to start a named service.
#[derive(Clone, Debug)]
pub struct ServiceRequest {
    /// The service asked for.
    pub service_name: Vec<u8>,
}

impl ServiceRequest {
    /// Encodable: the name fits its length prefix.
    pub open spec fn wf(self) -> bool {
        self.service_name@.len() <= 0xffff
    }

    /// The payload bytes of the message.
    pub open spec fn spec_enc(self) -> Seq<u8> {
        seq![MSG_SERVICE_REQUEST] + spec_string(self.service_name@)
    }

    /// Encode the payload.
    pub fn encode(&self) -> (r: Vec<u8>)
        requires
            self.wf(),
        ensures
            r@ == self.spec_enc(),
    {
        let mut out: Vec<u8> = Vec::new();
        put_u8(&mut out, MSG_SERVICE_REQUEST);
        put_string(&mut out, &self.service_name);
        assert(out@ =~= self.spec_enc());
        out
    }
}

/// What parsing a SERVICE_REQUEST payload yields: the service name.
pub open spec fn spec_parse_service_request(b: Seq<u8>) -> Option<Seq<u8>> {
    match spec_read_u8(b, 0) {
        Some((num, p0)) => if num == MSG_SERVICE_REQUEST {
            match spec_read_string(b, p0) {
                Some((s, p1)) => if p1 == b.len() {
                    Some(s)
                } else {
                    None
                },
                None => None,
            }
        } else {
            None
        },
        None => None,
    }
}

/// Parse a SERVICE_REQUEST payload.
pub fn parse_service_request(buf: &Vec<u8>) -> (r: Option<ServiceRequest>)
    ensures
        match r {
            Some(m) => spec_parse_service_request(buf@) == Some(m.service_name@),
            None => spec_parse_service_request(buf@) is None,
        },
{
    let mut rd = Reader::new(buf);
    let num = match rd.read_u8() {
        Some(n) => n,
        None => { return None; },
    };
    if num != MSG_SERVICE_REQUEST {
        return None;
    }
    let service_name = match rd.read_string() {
        Some(s) => s,
        None => { return None; },
    };
    if !rd.done() {
        return None;
    }
    Some(ServiceRequest { service_name })
}

/// A SERVICE_ACCEPT message: the peer starts the named service.
#[derive(Clone, Debug)]
pub struct ServiceAccept {
    /// The service accepted.
    pub service_name: Vec<u8>,
}

impl ServiceAccept {
    /// Encodable: the name fits its length prefix.
    pub open spec fn wf(self) -> bool {
        self.service_name@.len() <= 0xffff
    }

    /// The payload bytes of the message.
    pub open spec fn spec_enc(self) -> Seq<u8> {
        seq![MSG_SERVICE_ACCEPT] + spec_string(self.service_name@)
    }

    /// Encode the payload.
    pub fn encode(&self) -> (r: Vec<u8>)
        requires
            self.wf(),
        ensures
            r@ == self.spec_enc(),
    {
        let mut out: Vec<u8> = Vec::new();
        put_u8(&mut out, MSG_SERVICE_ACCEPT);
        put_string(&mut out, &self.service_name);
        assert(out@ =~= self.spec_enc());
        out
    }
}

/// What parsing a SERVICE_ACCEPT payload yields: the service name.
pub open spec fn spec_parse_service_accept(b: Seq<u8>) -> Option<Seq<u8>> {
    match spec_read_u8(b, 0) {
        Some((num, p0)) => if num == MSG_SERVICE_ACCEPT {
            match spec_read_string(b, p0) {
                Some((s, p1)) => if p1 == b.len() {
                    Some(s)
                } else {
                    None
                },
                None => None,
            }
        } else {
            None
        },
        None => None,
    }
}

/// Parse a SERVICE_ACCEPT payload.
pub fn parse_service_accept(buf: &Vec<u8>) -> (r: Option<ServiceAccept>)
    ensures
        match r {
            Some(m) => spec_parse_service_accept(buf@) == Some(m.service_name@),
            None => spec_parse_service_accept(buf@) is None,
        },
{
    let mut rd = Reader::new(buf);
    let num = match rd.read_u8() {
        Some(n) => n,
        None => { return None; },
    };
    if num != MSG_SERVICE_ACCEPT {
        return None;
    }
    let service_name = match rd.read_string() {
        Some(s) => s,
        None => { return None; },
    };
    if !rd.done() {
        return None;
    }
    Some(ServiceAccept { service_name })
}

/// A KEXINIT message: each side's algorithm preferences, most preferred
/// first, plus a random cookie. Captured verbatim because the bytes feed
/// the exchange-hash transcript.
#[derive(Clone, Debug)]
pub struct KexInit {
    /// Sixteen random bytes.
    pub cookie: Vec<u8>,
    /// Key-exchange algorithm names.
    pub kex_algorithms: Vec<Vec<u8>>,
    /// Host-key algorithm names.
    pub server_host_key_algorithms: Vec<Vec<u8>>,
    /// Cipher names, client-to-server direction.
    pub encryption_client_to_server: Vec<Vec<u8>>,
    /// Cipher names, server-to-client direction.
    pub encryption_server_to_client: Vec<Vec<u8>>,
    /// MAC names, client-to-server direction.
    pub mac_client_to_server: Vec<Vec<u8>>,
    /// MAC names, server-to-client direction.
    pub mac_server_to_client: Vec<Vec<u8>>,
    /// Compression names, client-to-server direction.
    pub compression_client_to_server: Vec<Vec<u8>>,
    /// Compression names, server-to-client direction.
    pub compression_server_to_client: Vec<Vec<u8>>,
    /// Language tags, client-to-server direction, usually empty.
    pub languages_client_to_server: Vec<Vec<u8>>,
    /// Language tags, server-to-client direction, usually empty.
    pub languages_server_to_client: Vec<Vec<u8>>,
    /// Whether a guessed first key-exchange packet follows.
    pub first_kex_packet_follows: bool,
}

impl KexInit {
    /// Encodable: the cookie is sixteen bytes and every list fits its
    /// length prefix.
    pub open spec fn wf(self) -> bool {
        &&& self.cookie@.len() == 16
        &&& spec_nl_payload(views(self.kex_algorithms@)).len() <= 0xffff
        &&& spec_nl_payload(views(self.server_host_key_algorithms@)).len() <= 0xffff
        &&& spec_nl_payload(views(self.encryption_client_to_server@)).len() <= 0xffff
        &&& spec_nl_payload(views(self.encryption_server_to_client@)).len() <= 0xffff
        &&& spec_nl_payload(views(self.mac_client_to_server@)).len() <= 0xffff
        &&& spec_nl_payload(views(self.mac_server_to_client@)).len() <= 0xffff
        &&& spec_nl_payload(views(self.compression_client_to_server@)).len() <= 0xffff
        &&& spec_nl_payload(views(self.compression_server_to_client@)).len() <= 0xffff
        &&& spec_nl_payload(views(self.languages_client_to_server@)).len() <= 0xffff
        &&& spec_nl_payload(views(self.languages_server_to_client@)).len() <= 0xffff
    }

    /// The payload bytes of the message.
    pub open spec fn spec_enc(self) -> Seq<u8> {
        seq![MSG_KEXINIT] + self.cookie@ + spec_namelist(views(self.kex_algorithms@))
            + spec_namelist(views(self.server_host_key_algorithms@)) + spec_namelist(
            views(self.encryption_client_to_server@),
        ) + spec_namelist(views(self.encryption_server_to_client@)) + spec_namelist(
            views(self.mac_client_to_server@),
        ) + spec_namelist(views(self.mac_server_to_client@)) + spec_namelist(
            views(self.compression_client_to_server@),
        ) + spec_namelist(views(self.compression_server_to_client@)) + spec_namelist(
            views(self.languages_client_to_server@),
        ) + spec_namelist(views(self.languages_server_to_client@)) + spec_bool(
            self.first_kex_packet_follows,
        ) + spec_u32_be(0)
    }

    /// Encode the payload.
    pub fn encode(&self) -> (r: Vec<u8>)
        requires
            self.wf(),
        ensures
            r@ == self.spec_enc(),
    {
        let mut out: Vec<u8> = Vec::new();
        put_u8(&mut out, MSG_KEXINIT);
        let mut i: usize = 0;
        while i < self.cookie.len()
            invariant
                i <= self.cookie@.len(),
                out@ =~= seq![MSG_KEXINIT] + self.cookie@.subrange(0, i as int),
            decreases self.cookie@.len() - i,
        {
            out.push(self.cookie[i]);
            i = i + 1;
            assert(out@ =~= seq![MSG_KEXINIT] + self.cookie@.subrange(0, i as int));
        }
        assert(self.cookie@.subrange(0, self.cookie@.len() as int) =~= self.cookie@);
        put_namelist(&mut out, &self.kex_algorithms);
        put_namelist(&mut out, &self.server_host_key_algorithms);
        put_namelist(&mut out, &self.encryption_client_to_server);
        put_namelist(&mut out, &self.encryption_server_to_client);
        put_namelist(&mut out, &self.mac_client_to_server);
        put_namelist(&mut out, &self.mac_server_to_client);
        put_namelist(&mut out, &self.compression_client_to_server);
        put_namelist(&mut out, &self.compression_server_to_client);
        put_namelist(&mut out, &self.languages_client_to_server);
        put_namelist(&mut out, &self.languages_server_to_client);
        put_bool(&mut out, self.first_kex_packet_follows);
        put_u32(&mut out, 0);
        assert(out@ =~= self.spec_enc());
        out
    }
}

/// The fields a parsed KEXINIT yields, as plain sequences.
pub struct SpecKexInit {
    /// Sixteen random bytes.
    pub cookie: Seq<u8>,
    /// The ten name-lists in wire order.
    pub lists: Seq<Seq<Seq<u8>>>,
    /// Whether a guessed first key-exchange packet follows.
    pub first_kex_packet_follows: bool,
}

/// What parsing a KEXINIT payload yields.
pub open spec fn spec_parse_kexinit(b: Seq<u8>) -> Option<SpecKexInit> {
    match spec_read_u8(b, 0) {
        Some((num, p0)) => if num == MSG_KEXINIT {
            match spec_read_bytes(b, p0, 16) {
                Some((cookie, p1)) => match spec_read_namelist(b, p1) {
                    Some((l0, q0)) => match spec_read_namelist(b, q0) {
                        Some((l1, q1)) => match spec_read_namelist(b, q1) {
                            Some((l2, q2)) => match spec_read_namelist(b, q2) {
                                Some((l3, q3)) => match spec_read_namelist(b, q3) {
                                    Some((l4, q4)) => match spec_read_namelist(b, q4) {
                                        Some((l5, q5)) => match spec_read_namelist(b, q5) {
                                            Some((l6, q6)) => match spec_read_namelist(b, q6) {
                                                Some((l7, q7)) => match spec_read_namelist(
                                                    b,
                                                    q7,
                                                ) {
                                                    Some((l8, q8)) => match spec_read_namelist(
                                                        b,
                                                        q8,
                                                    ) {
                                                        Some((l9, q9)) => match spec_read_bool(
                                                            b,
                                                            q9,
                                                        ) {
                                                            Some((fol, q10)) => match
                                                                spec_read_u32(b, q10) {
                                                                Some((_res, q11)) => if q11
                                                                    == b.len() {
                                                                    Some(
                                                                        SpecKexInit {
                                                                            cookie,
                                                                            lists: seq![
                                                                                l0, l1, l2, l3,
                                                                                l4, l5, l6, l7,
                                                                                l8, l9,
                                                                            ],
                                                                            first_kex_packet_follows:
                                                                                fol,
                                                                        },
                                                                    )
                                                                } else {
                                                                    None
                                                                },
                                                                None => None,
                                                            },
                                                            None => None,
                                                        },
                                                        None => None,
                                                    },
                                                    None => None,
                                                },
                                                None => None,
                                            },
                                            None => None,
                                        },
                                        None => None,
                                    },
                                    None => None,
                                },
                                None => None,
                            },
                            None => None,
                        },
                        None => None,
                    },
                    None => None,
                },
                None => None,
            }
        } else {
            None
        },
        None => None,
    }
}

/// Parse a KEXINIT payload.
pub fn parse_kexinit(buf: &Vec<u8>) -> (r: Option<KexInit>)
    ensures
        match r {
            Some(m) => {
                &&& spec_parse_kexinit(buf@) is Some
                &&& {
                    let s = spec_parse_kexinit(buf@).unwrap();
                    &&& s.cookie == m.cookie@
                    &&& s.lists == seq![
                        views(m.kex_algorithms@),
                        views(m.server_host_key_algorithms@),
                        views(m.encryption_client_to_server@),
                        views(m.encryption_server_to_client@),
                        views(m.mac_client_to_server@),
                        views(m.mac_server_to_client@),
                        views(m.compression_client_to_server@),
                        views(m.compression_server_to_client@),
                        views(m.languages_client_to_server@),
                        views(m.languages_server_to_client@),
                    ]
                    &&& s.first_kex_packet_follows == m.first_kex_packet_follows
                    &&& m.cookie@.len() == 16
                }
            },
            None => spec_parse_kexinit(buf@) is None,
        },
{
    let mut rd = Reader::new(buf);
    let num = match rd.read_u8() {
        Some(n) => n,
        None => { return None; },
    };
    if num != MSG_KEXINIT {
        return None;
    }
    let cookie = match rd.read_bytes(16) {
        Some(c) => c,
        None => { return None; },
    };
    let kex_algorithms = match rd.read_namelist() {
        Some(l) => l,
        None => { return None; },
    };
    let server_host_key_algorithms = match rd.read_namelist() {
        Some(l) => l,
        None => { return None; },
    };
    let encryption_client_to_server = match rd.read_namelist() {
        Some(l) => l,
        None => { return None; },
    };
    let encryption_server_to_client = match rd.read_namelist() {
        Some(l) => l,
        None => { return None; },
    };
    let mac_client_to_server = match rd.read_namelist() {
        Some(l) => l,
        None => { return None; },
    };
    let mac_server_to_client = match rd.read_namelist() {
        Some(l) => l,
        None => { return None; },
    };
    let compression_client_to_server = match rd.read_namelist() {
        Some(l) => l,
        None => { return None; },
    };
    let compression_server_to_client = match rd.read_namelist() {
        Some(l) => l,
        None => { return None; },
    };
    let languages_client_to_server = match rd.read_namelist() {
        Some(l) => l,
        None => { return None; },
    };
    let languages_server_to_client = match rd.read_namelist() {
        Some(l) => l,
        None => { return None; },
    };
    let first_kex_packet_follows = match rd.read_bool() {
        Some(f) => f,
        None => { return None; },
    };
    let _reserved = match rd.read_u32() {
        Some(x) => x,
        None => { return None; },
    };
    if !rd.done() {
        return None;
    }
    Some(
        KexInit {
            cookie,
            kex_algorithms,
            server_host_key_algorithms,
            encryption_client_to_server,
            encryption_server_to_client,
            mac_client_to_server,
            mac_server_to_client,
            compression_client_to_server,
            compression_server_to_client,
            languages_client_to_server,
            languages_server_to_client,
            first_kex_packet_follows,
        },
    )
}

/// Encode a NEWKEYS payload: the message number alone.
pub fn encode_newkeys() -> (r: Vec<u8>)
    ensures
        r@ =~= seq![MSG_NEWKEYS],
{
    let mut out: Vec<u8> = Vec::new();
    put_u8(&mut out, MSG_NEWKEYS);
    out
}

/// Whether a payload is exactly a NEWKEYS message.
pub open spec fn spec_is_newkeys(b: Seq<u8>) -> bool {
    b =~= seq![MSG_NEWKEYS]
}

/// Recognise a NEWKEYS payload.
pub fn is_newkeys(buf: &Vec<u8>) -> (r: bool)
    ensures
        r == spec_is_newkeys(buf@),
{
    if buf.len() == 1 {
        let b = buf[0];
        if b == MSG_NEWKEYS {
            assert(buf@ =~= seq![MSG_NEWKEYS]);
            return true;
        }
    }
    assert(!spec_is_newkeys(buf@));
    false
}

/// A KEX_ECDH_INIT message: the initiator's ephemeral public key.
#[derive(Clone, Debug)]
pub struct KexEcdhInit {
    /// The client's ephemeral X25519 public key, thirty-two bytes.
    pub q_c: Vec<u8>,
}

impl KexEcdhInit {
    /// Encodable: the key fits its length prefix.
    pub open spec fn wf(self) -> bool {
        self.q_c@.len() <= 0xffff
    }

    /// The payload bytes of the message.
    pub open spec fn spec_enc(self) -> Seq<u8> {
        seq![MSG_KEX_ECDH_INIT] + spec_string(self.q_c@)
    }

    /// Encode the payload.
    pub fn encode(&self) -> (r: Vec<u8>)
        requires
            self.wf(),
        ensures
            r@ == self.spec_enc(),
    {
        let mut out: Vec<u8> = Vec::new();
        put_u8(&mut out, MSG_KEX_ECDH_INIT);
        put_string(&mut out, &self.q_c);
        assert(out@ =~= self.spec_enc());
        out
    }
}

/// What parsing a KEX_ECDH_INIT payload yields: the ephemeral public key.
pub open spec fn spec_parse_kex_ecdh_init(b: Seq<u8>) -> Option<Seq<u8>> {
    match spec_read_u8(b, 0) {
        Some((num, p0)) => if num == MSG_KEX_ECDH_INIT {
            match spec_read_string(b, p0) {
                Some((s, p1)) => if p1 == b.len() {
                    Some(s)
                } else {
                    None
                },
                None => None,
            }
        } else {
            None
        },
        None => None,
    }
}

/// Parse a KEX_ECDH_INIT payload.
pub fn parse_kex_ecdh_init(buf: &Vec<u8>) -> (r: Option<KexEcdhInit>)
    ensures
        match r {
            Some(m) => spec_parse_kex_ecdh_init(buf@) == Some(m.q_c@),
            None => spec_parse_kex_ecdh_init(buf@) is None,
        },
{
    let mut rd = Reader::new(buf);
    let num = match rd.read_u8() {
        Some(n) => n,
        None => { return None; },
    };
    if num != MSG_KEX_ECDH_INIT {
        return None;
    }
    let q_c = match rd.read_string() {
        Some(s) => s,
        None => { return None; },
    };
    if !rd.done() {
        return None;
    }
    Some(KexEcdhInit { q_c })
}

/// A KEX_ECDH_REPLY message: the responder's host key, ephemeral public key,
/// and signature over the exchange hash.
#[derive(Clone, Debug)]
pub struct KexEcdhReply {
    /// The server's public host key blob.
    pub k_s: Vec<u8>,
    /// The server's ephemeral X25519 public key, thirty-two bytes.
    pub q_s: Vec<u8>,
    /// The signature over the exchange hash, in SSH signature encoding.
    pub signature: Vec<u8>,
}

impl KexEcdhReply {
    /// Encodable: every field fits its length prefix.
    pub open spec fn wf(self) -> bool {
        self.k_s@.len() <= 0xffff && self.q_s@.len() <= 0xffff && self.signature@.len() <= 0xffff
    }

    /// The payload bytes of the message.
    pub open spec fn spec_enc(self) -> Seq<u8> {
        seq![MSG_KEX_ECDH_REPLY] + spec_string(self.k_s@) + spec_string(self.q_s@) + spec_string(
            self.signature@,
        )
    }

    /// Encode the payload.
    pub fn encode(&self) -> (r: Vec<u8>)
        requires
            self.wf(),
        ensures
            r@ == self.spec_enc(),
    {
        let mut out: Vec<u8> = Vec::new();
        put_u8(&mut out, MSG_KEX_ECDH_REPLY);
        put_string(&mut out, &self.k_s);
        put_string(&mut out, &self.q_s);
        put_string(&mut out, &self.signature);
        assert(out@ =~= self.spec_enc());
        out
    }
}

/// What parsing a KEX_ECDH_REPLY payload yields: host key, ephemeral key,
/// signature.
pub open spec fn spec_parse_kex_ecdh_reply(b: Seq<u8>) -> Option<(Seq<u8>, Seq<u8>, Seq<u8>)> {
    match spec_read_u8(b, 0) {
        Some((num, p0)) => if num == MSG_KEX_ECDH_REPLY {
            match spec_read_string(b, p0) {
                Some((k_s, p1)) => match spec_read_string(b, p1) {
                    Some((q_s, p2)) => match spec_read_string(b, p2) {
                        Some((sig, p3)) => if p3 == b.len() {
                            Some((k_s, q_s, sig))
                        } else {
                            None
                        },
                        None => None,
                    },
                    None => None,
                },
                None => None,
            }
        } else {
            None
        },
        None => None,
    }
}

/// Parse a KEX_ECDH_REPLY payload.
pub fn parse_kex_ecdh_reply(buf: &Vec<u8>) -> (r: Option<KexEcdhReply>)
    ensures
        match r {
            Some(m) => spec_parse_kex_ecdh_reply(buf@) == Some((m.k_s@, m.q_s@, m.signature@)),
            None => spec_parse_kex_ecdh_reply(buf@) is None,
        },
{
    let mut rd = Reader::new(buf);
    let num = match rd.read_u8() {
        Some(n) => n,
        None => { return None; },
    };
    if num != MSG_KEX_ECDH_REPLY {
        return None;
    }
    let k_s = match rd.read_string() {
        Some(s) => s,
        None => { return None; },
    };
    let q_s = match rd.read_string() {
        Some(s) => s,
        None => { return None; },
    };
    let signature = match rd.read_string() {
        Some(s) => s,
        None => { return None; },
    };
    if !rd.done() {
        return None;
    }
    Some(KexEcdhReply { k_s, q_s, signature })
}

} // verus!
