//! The responder side of `ssh-userauth` (RFC 4252): a per-method dispatcher
//! with injected handler collaborators. Each dispatch removes the attempted
//! method from the allowed set; a continuation restores it; every FAILURE
//! lists exactly the current set.

use vstd::prelude::*;
use crate::auth::{spec_method_kind, Method, MethodSet};
use crate::crypto::{ed25519_verify, pk_blob_parses, public_key_parses, ssh_ed25519_verifies};
use crate::session::{spec_queued_payload, spec_rekey_due, spec_transparent, Session};
use crate::stream::{spec_recv, SpecRecv, MAX_PAYLOAD};
use crate::userauth::{
    parse_request, spec_parse_request, spec_pk_signed_blob, AuthMethod, Banner, Failure,
    PasswdChangereq, PkOk, PublickeySignature, encode_success, MSG_USERAUTH_BANNER,
    MSG_USERAUTH_FAILURE, MSG_USERAUTH_PK_OK, MSG_USERAUTH_SUCCESS,
};
use crate::wire::{bytes_eq, spec_bool, spec_namelist, spec_string, views, Reader};
use crate::{DisconnectReason, Error, SshResult};

verus! {

/// What a `none` handler decides.
#[derive(Clone, Copy, PartialEq, Eq, Structural, Debug)]
pub enum NoneVerdict {
    /// Let the user in.
    Accept,
    /// Refuse.
    Reject,
}

/// What a `password` handler decides.
#[derive(Clone, Debug)]
pub enum PasswordVerdict {
    /// Let the user in.
    Accept,
    /// Refuse.
    Reject,
    /// The password expired: ask for a new one with this prompt.
    PasswordExpired {
        /// The prompt shown to the user.
        prompt: Vec<u8>,
    },
}

/// What a `publickey` handler decides.
#[derive(Clone, Copy, PartialEq, Eq, Structural, Debug)]
pub enum PublickeyVerdict {
    /// Let the user in.
    Accept,
    /// Refuse.
    Reject,
}

/// A collaborator judging `none` attempts.
pub trait NoneHandler {
    /// Decide on an attempt by the named user.
    fn judge(&mut self, username: &Vec<u8>) -> NoneVerdict;
}

/// A collaborator judging `password` attempts.
pub trait PasswordHandler {
    /// Decide on an attempt by the named user with this password, and
    /// possibly a new one.
    fn judge(&mut self, username: &Vec<u8>, password: &Vec<u8>, new: &Option<Vec<u8>>)
        -> PasswordVerdict;
}

/// A collaborator judging `publickey` attempts whose signature verified.
pub trait PublickeyHandler {
    /// Decide on an attempt by the named user holding the key in this blob.
    fn judge(&mut self, username: &Vec<u8>, blob: &Vec<u8>) -> PublickeyVerdict;
}

impl NoneHandler for () {
    /// The unit handler rejects.
    fn judge(&mut self, username: &Vec<u8>) -> NoneVerdict {
        NoneVerdict::Reject
    }
}

impl PasswordHandler for () {
    /// The unit handler rejects.
    fn judge(&mut self, username: &Vec<u8>, password: &Vec<u8>, new: &Option<Vec<u8>>)
        -> PasswordVerdict {
        PasswordVerdict::Reject
    }
}

impl PublickeyHandler for () {
    /// The unit handler rejects.
    fn judge(&mut self, username: &Vec<u8>, blob: &Vec<u8>) -> PublickeyVerdict {
        PublickeyVerdict::Reject
    }
}

/// How one attempt went.
#[derive(Clone, Copy, PartialEq, Eq, Structural, Debug)]
pub enum Attempt {
    /// The user is in: send SUCCESS and hand over to the service.
    Success,
    /// A partial success: more methods are owed.
    Partial,
    /// Refused: send FAILURE with the current set.
    Failure,
    /// A continuation went out (PK_OK or PASSWD_CHANGEREQ); wait.
    Continue,
}

/// The authentication service handler for server sessions.
pub struct Auth<N, P, PK> {
    /// The banner to send once, before anything else.
    pub banner: Option<Vec<u8>>,
    /// Whether the banner went out already.
    pub banner_sent: bool,
    /// The methods still allowed for this attempt sequence.
    pub methods: MethodSet,
    /// The `none` handler.
    pub none: N,
    /// The `password` handler.
    pub password: P,
    /// The `publickey` handler.
    pub publickey: PK,
}

/// Whether a public-key blob's first field is the claimed algorithm name,
/// as an SSH `string`.
pub open spec fn spec_blob_alg_matches(blob: Seq<u8>, algorithm: Seq<u8>) -> bool {
    match crate::wire::spec_read_string(blob, 0) {
        Some((n, _)) => n == algorithm,
        None => false,
    }
}

/// Check that a public-key blob carries the claimed algorithm name: the
/// blob's first field is that name as an SSH `string`.
pub fn blob_algorithm_matches(blob: &Vec<u8>, algorithm: &Vec<u8>) -> (r: bool)
    ensures
        r == spec_blob_alg_matches(blob@, algorithm@),
{
    let mut rd = Reader::new(blob);
    match rd.read_string() {
        Some(n) => bytes_eq(&n, algorithm),
        None => false,
    }
}

impl Auth<(), (), ()> {
    /// An authentication handler that rejects everything: only `none` is in
    /// the allowed set, judged by the unit handler.
    pub fn new() -> (r: Auth<(), (), ()>)
        ensures
            r.methods.none_allowed,
            !r.methods.password_allowed,
            !r.methods.publickey_allowed,
            !r.methods.hostbased_allowed,
            !r.methods.keyboard_interactive_allowed,
            r.banner is None,
            !r.banner_sent,
    {
        Auth {
            banner: None,
            banner_sent: false,
            methods: MethodSet::initial(),
            none: (),
            password: (),
            publickey: (),
        }
    }
}

impl<N: NoneHandler, P: PasswordHandler, PK: PublickeyHandler> Auth<N, P, PK> {
    /// Bounded fields, so that every reply fits a packet.
    pub open spec fn wf(self) -> bool {
        match self.banner {
            Some(b) => b@.len() <= 0xffff && b@.len() + 16 <= MAX_PAYLOAD,
            None => true,
        }
    }

    /// Set the banner text sent once before authentication.
    pub fn banner(self, banner: Vec<u8>) -> (r: Auth<N, P, PK>)
        requires
            banner@.len() + 16 <= MAX_PAYLOAD,
        ensures
            r.wf() == true,
            (r.banner matches Some(b) && b == banner),
            r.banner_sent == self.banner_sent,
            r.methods == self.methods,
            r.none == self.none,
            r.password == self.password,
            r.publickey == self.publickey,
    {
        Auth { banner: Some(banner), ..self }
    }

    /// Install the `none` handler and allow the method.
    pub fn none<N2: NoneHandler>(self, none: N2) -> (r: Auth<N2, P, PK>)
        ensures
            r.methods == self.methods.spec_insert(Method::NoneMethod),
            r.banner == self.banner,
            r.banner_sent == self.banner_sent,
            r.none == none,
            r.password == self.password,
            r.publickey == self.publickey,
    {
        let mut methods = self.methods;
        methods.insert(Method::NoneMethod);
        Auth {
            banner: self.banner,
            banner_sent: self.banner_sent,
            methods,
            none,
            password: self.password,
            publickey: self.publickey,
        }
    }

    /// Install the `password` handler and allow the method.
    pub fn password<P2: PasswordHandler>(self, password: P2) -> (r: Auth<N, P2, PK>)
        ensures
            r.methods == self.methods.spec_insert(Method::Password),
            r.banner == self.banner,
            r.banner_sent == self.banner_sent,
            r.none == self.none,
            r.password == password,
            r.publickey == self.publickey,
    {
        let mut methods = self.methods;
        methods.insert(Method::Password);
        Auth {
            banner: self.banner,
            banner_sent: self.banner_sent,
            methods,
            none: self.none,
            password,
            publickey: self.publickey,
        }
    }

    /// Install the `publickey` handler and allow the method.
    pub fn publickey<PK2: PublickeyHandler>(self, publickey: PK2) -> (r: Auth<N, P, PK2>)
        ensures
            r.methods == self.methods.spec_insert(Method::Publickey),
            r.banner == self.banner,
            r.banner_sent == self.banner_sent,
            r.none == self.none,
            r.password == self.password,
            r.publickey == publickey,
    {
        let mut methods = self.methods;
        methods.insert(Method::Publickey);
        Auth {
            banner: self.banner,
            banner_sent: self.banner_sent,
            methods,
            none: self.none,
            password: self.password,
            publickey,
        }
    }

    /// The FAILURE message for the current state: `continue_with` is
    /// exactly the current allowed set, in enum order.
    pub fn failure_message(&self, partial: bool) -> (r: Failure)
        ensures
            views(r.continue_with@) == self.methods.spec_names(),
            r.partial_success == partial,
            r.wf(),
            r.spec_enc().len() <= MAX_PAYLOAD,
    {
        let continue_with = self.methods.names();
        proof {
            crate::wire::lemma_nl_payload_bound(views(continue_with@), 20);
        }
        Failure { continue_with, partial_success: partial }
    }

    /// Dispatch one attempt to its handler and report how it went. A
    /// publickey query that names a plausible key gets PK_OK and re-enables
    /// the method; an expired password gets PASSWD_CHANGEREQ and re-enables
    /// the method; `hostbased` and `keyboard-interactive` are not
    /// implemented and always fail.
    pub fn handle_attempt(
        &mut self,
        session: &mut Session,
        username: &Vec<u8>,
        method: &AuthMethod,
        service_name: &Vec<u8>,
    ) -> (r: SshResult<Attempt>)
        requires
            old(session).wf(),
        ensures
            final(session).wf(),
            final(self).banner_sent == old(self).banner_sent,
            final(self).banner == old(self).banner,
            match method {
                AuthMethod::NoneMethod => {
                    &&& final(self).methods == old(self).methods
                    &&& *final(session) == *old(session)
                    &&& (r matches Ok(a) ==> (a == Attempt::Success || a == Attempt::Failure))
                },
                AuthMethod::Password { password, new } => {
                    &&& (r matches Ok(a) ==> (a == Attempt::Success || a == Attempt::Failure
                        || a == Attempt::Continue))
                    &&& ((r matches Ok(a) && a == Attempt::Success) ==> final(self).methods
                        == old(self).methods && *final(session) == *old(session))
                    &&& ((r matches Ok(a) && a == Attempt::Failure) ==> final(self).methods
                        == old(self).methods && *final(session) == *old(session))
                    &&& ((r matches Ok(a) && a == Attempt::Continue) ==> final(self).methods
                        == old(self).methods.spec_insert(Method::Password) && exists|prompt: Seq<
                        u8,
                    >|
                        spec_queued_payload(
                            *old(session),
                            *final(session),
                            #[trigger] (seq![crate::userauth::MSG_USERAUTH_PASSWD_CHANGEREQ]
                                + spec_string(prompt) + spec_string(Seq::<u8>::empty())),
                        ))
                },
                AuthMethod::Publickey { algorithm, blob, signature } => match signature {
                    Some(sig) => {
                        &&& final(self).methods == old(self).methods
                        &&& *final(session) == *old(session)
                        &&& (r matches Ok(a) ==> (a == Attempt::Success || a
                            == Attempt::Failure))
                        &&& ((r matches Ok(a) && a == Attempt::Success)
                            ==> ssh_ed25519_verifies(
                            blob@,
                            spec_pk_signed_blob(
                                match old(session).stream.session_id {
                                    Some(s) => s@,
                                    None => Seq::<u8>::empty(),
                                },
                                username@,
                                service_name@,
                                algorithm@,
                                blob@,
                            ),
                            sig@,
                        ))
                    },
                    None => {
                        &&& final(self).methods == old(self).methods.spec_insert(
                            Method::Publickey,
                        )
                        &&& (r matches Ok(a) ==> (a == Attempt::Continue || a
                            == Attempt::Failure))
                        &&& ((r matches Ok(a) && a == Attempt::Continue) ==> spec_queued_payload(
                            *old(session),
                            *final(session),
                            seq![MSG_USERAUTH_PK_OK] + spec_string(algorithm@) + spec_string(
                                blob@,
                            ),
                        ))
                        &&& ((r matches Ok(a) && a == Attempt::Failure) ==> *final(session)
                            == *old(session))
                        &&& (!pk_blob_parses(blob@) ==> (r matches Ok(a) && a
                            == Attempt::Failure))
                        &&& ((r matches Ok(a) && a == Attempt::Continue) ==> pk_blob_parses(
                            blob@,
                        ))
                    },
                },
                AuthMethod::Hostbased { .. } => (r matches Ok(a) && a == Attempt::Failure)
                    && final(self).methods == old(self).methods && *final(session) == *old(session),
                AuthMethod::KeyboardInteractive { .. } => (r matches Ok(a) && a
                    == Attempt::Failure) && final(self).methods == old(self).methods && *final(session) == *old(session),
            },
    {
        match method {
            AuthMethod::NoneMethod => {
                match self.none.judge(username) {
                    NoneVerdict::Accept => Ok(Attempt::Success),
                    NoneVerdict::Reject => Ok(Attempt::Failure),
                }
            },
            AuthMethod::Publickey { algorithm, blob, signature } => {
                match signature {
                    Some(sig) => {
                        if username.len() > 0xffff || service_name.len() > 0xffff
                            || algorithm.len() > 0xffff || blob.len() > 0xffff {
                            return Ok(Attempt::Failure);
                        }
                        if !blob_algorithm_matches(blob, algorithm) {
                            return Ok(Attempt::Failure);
                        }
                        let session_id = match session.session_id() {
                            Some(sid) => sid,
                            None => Vec::new(),
                        };
                        if session_id.len() > 0xffff {
                            return Ok(Attempt::Failure);
                        }
                        let message = PublickeySignature {
                            session_id,
                            username: username.clone(),
                            service_name: service_name.clone(),
                            algorithm: algorithm.clone(),
                            blob: blob.clone(),
                        };
                        assert(message.username@ =~= username@);
                        assert(message.service_name@ =~= service_name@);
                        assert(message.algorithm@ =~= algorithm@);
                        assert(message.blob@ =~= blob@);
                        let data = message.encode();
                        if ed25519_verify(blob, &data, sig) {
                            match self.publickey.judge(username, blob) {
                                PublickeyVerdict::Accept => Ok(Attempt::Success),
                                PublickeyVerdict::Reject => Ok(Attempt::Failure),
                            }
                        } else {
                            // a forged signature fails without disconnecting
                            Ok(Attempt::Failure)
                        }
                    },
                    None => {
                        // no authentication was attempted: allow the method
                        // again, and acknowledge a key that parses
                        self.methods.insert(Method::Publickey);
                        if public_key_parses(blob) {
                            if algorithm.len() > 0xffff || blob.len() > 0xffff {
                                return Ok(Attempt::Failure);
                            }
                            let pk_ok = PkOk {
                                algorithm: algorithm.clone(),
                                blob: blob.clone(),
                            };
                            assert(pk_ok.algorithm@ =~= algorithm@);
                            assert(pk_ok.blob@ =~= blob@);
                            let payload = pk_ok.encode();
                            if payload.len() > MAX_PAYLOAD {
                                return Ok(Attempt::Failure);
                            }
                            match session.send(&payload) {
                                Ok(()) => Ok(Attempt::Continue),
                                Err(e) => Err(e),
                            }
                        } else {
                            Ok(Attempt::Failure)
                        }
                    },
                }
            },
            AuthMethod::Password { password, new } => {
                match self.password.judge(username, password, new) {
                    PasswordVerdict::Accept => Ok(Attempt::Success),
                    PasswordVerdict::Reject => Ok(Attempt::Failure),
                    PasswordVerdict::PasswordExpired { prompt } => {
                        if prompt.len() > 0xffff {
                            return Ok(Attempt::Failure);
                        }
                        let msg = PasswdChangereq { prompt, language: Vec::new() };
                        let payload = msg.encode();
                        if payload.len() > MAX_PAYLOAD {
                            return Ok(Attempt::Failure);
                        }
                        self.methods.insert(Method::Password);
                        match session.send(&payload) {
                            Ok(()) => Ok(Attempt::Continue),
                            Err(e) => Err(e),
                        }
                    },
                }
            },
            AuthMethod::Hostbased { .. } => Ok(Attempt::Failure),
            AuthMethod::KeyboardInteractive { .. } => Ok(Attempt::Failure),
        }
    }

    /// Drive the service with whatever bytes have arrived: judge one
    /// USERAUTH_REQUEST if one is buffered. Yields the requested service
    /// name once an attempt succeeds; nothing yet means feed more bytes. A
    /// method outside the allowed set gets FAILURE listing exactly that
    /// set, with no partial success, and its handler is never consulted.
    /// Any other message disconnects with a protocol error.
    pub fn proceed(&mut self, session: &mut Session) -> (r: SshResult<Option<Vec<u8>>>)
        requires
            old(session).wf(),
            old(self).wf(),
        ensures
            final(session).wf(),
            final(self).banner_sent,
            (!old(self).banner_sent && !old(session).is_terminated()) ==> (old(self).banner
                matches Some(b) ==> {
                &&& (r matches Ok(None))
                &&& spec_queued_payload(
                    *old(session),
                    *final(session),
                    seq![MSG_USERAUTH_BANNER] + spec_string(b@) + spec_string(Seq::<u8>::empty()),
                )
            }),
            (old(self).banner_sent && !old(session).is_terminated() && old(session).phase
                is Ready && !spec_rekey_due(old(session).stream) && old(session).awaiting_service
                is None) ==> match spec_recv(
                old(session).stream.pair.rx,
                old(session).stream.rx_seq,
                old(session).inbuf@,
            ) {
                SpecRecv::Packet(payload, consumed) => {
                    &&& ((payload.len() > 0 && payload[0] != crate::msg::MSG_KEXINIT && payload[0]
                        != crate::msg::MSG_DISCONNECT && !spec_transparent(payload)
                        && spec_parse_request(payload) is None) ==> {
                        &&& (r matches Err(Error::UnexpectedMessage))
                        &&& final(session).is_terminated()
                    })
                    &&& (spec_parse_request(payload) matches Some((user, service, m)) ==> {
                    &&& (!old(self).methods.spec_contains(spec_method_kind(m)) ==> {
                        &&& (r matches Ok(None))
                        &&& final(self).methods == old(self).methods
                        &&& spec_queued_payload(
                            *old(session),
                            *final(session),
                            seq![MSG_USERAUTH_FAILURE] + spec_namelist(
                                old(self).methods.spec_names(),
                            ) + spec_bool(false),
                        )
                    })
                    &&& (r matches Ok(Some(name)) ==> name@ == service && spec_queued_payload(
                        *old(session),
                        *final(session),
                        seq![MSG_USERAUTH_SUCCESS],
                    ))
                    &&& ((old(self).methods.spec_contains(spec_method_kind(m)) && (
                    r matches Ok(None)) && final(self).methods == old(self).methods.spec_remove(
                        spec_method_kind(m),
                    )) ==> spec_queued_payload(
                        *old(session),
                        *final(session),
                        seq![MSG_USERAUTH_FAILURE] + spec_namelist(
                            final(self).methods.spec_names(),
                        ) + spec_bool(false),
                    ))
                    })
                },
                _ => true,
            },
    {
        if !self.banner_sent {
            self.banner_sent = true;
            let banner = match &self.banner {
                Some(b) => Some(b.clone()),
                None => None,
            };
            match banner {
                Some(b) => {
                    assert(b@.len() + 16 <= MAX_PAYLOAD);
                    let msg = Banner { message: b, language: Vec::new() };
                    let payload = msg.encode();
                    match session.send(&payload) {
                        Ok(()) => {
                            return Ok(None);
                        },
                        Err(e) => {
                            return Err(e);
                        },
                    }
                },
                None => {},
            }
        }
        let packet = match session.recv() {
            Ok(Some(p)) => p,
            Ok(None) => {
                return Ok(None);
            },
            Err(e) => {
                return Err(e);
            },
        };
        let request = match parse_request(&packet) {
            Some(m) => m,
            None => {
                let _ = session.disconnect(DisconnectReason::ProtocolError, Vec::new());
                return Err(Error::UnexpectedMessage);
            },
        };
        let kind = request.method.kind();
        proof {
            assert(spec_method_kind(crate::userauth::method_view(request.method))
                == request.method.spec_kind());
        }
        if self.methods.remove(kind) {
            let attempt = match self.handle_attempt(
                session,
                &request.username,
                &request.method,
                &request.service_name,
            ) {
                Ok(a) => a,
                Err(e) => {
                    return Err(e);
                },
            };
            match attempt {
                Attempt::Success => {
                    let payload = encode_success();
                    match session.send(&payload) {
                        Ok(()) => Ok(Some(request.service_name)),
                        Err(e) => Err(e),
                    }
                },
                Attempt::Failure | Attempt::Partial => {
                    let msg = self.failure_message(matches!(attempt, Attempt::Partial));
                    let payload = msg.encode();
                    match session.send(&payload) {
                        Ok(()) => Ok(None),
                        Err(e) => Err(e),
                    }
                },
                Attempt::Continue => Ok(None),
            }
        } else {
            // the method is not allowed: its handler is never consulted
            let msg = self.failure_message(false);
            let payload = msg.encode();
            match session.send(&payload) {
                Ok(()) => Ok(None),
                Err(e) => Err(e),
            }
        }
    }
}

} // verus!
