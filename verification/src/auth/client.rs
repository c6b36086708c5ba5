//! The initiator side of `ssh-userauth` (RFC 4252): start with the `none`
//! method to discover what the server allows, then try `password`, then
//! `publickey`; a signed publickey attempt covers the canonical blob with
//! the session identifier fixed at the first key exchange.

use vstd::prelude::*;
use crate::algo::contains_name;
use crate::crypto::{public_key_blob, sign_message};
use crate::session::{spec_rekey_due, Session};
use crate::stream::{spec_recv, SpecRecv};
use crate::wire::spec_string;
use crate::stream::MAX_PAYLOAD;
use crate::session::spec_queued_payload;
use crate::userauth::{
    parse_pk_ok, spec_none_name, spec_ssh_connection_name, spec_ssh_userauth_name, AuthMethod,
    PublickeySignature, Request, is_success, password_name, publickey_name, ssh_userauth_name,
    ssh_connection_name, MSG_USERAUTH_BANNER, MSG_USERAUTH_FAILURE, MSG_USERAUTH_PK_OK,
    MSG_USERAUTH_REQUEST, MSG_USERAUTH_SUCCESS, parse_failure,
};
use crate::{DisconnectReason, Error, SshResult};

verus! {

/// Which method the last USERAUTH_REQUEST used; it disambiguates the
/// shared message number of PK_OK and PASSWD_CHANGEREQ.
#[derive(Clone, Copy, PartialEq, Eq, Structural, Debug)]
pub enum LastAttempt {
    /// Nothing sent yet.
    Nothing,
    /// The `none` probe.
    NoneProbe,
    /// A password.
    PasswordTry,
    /// A publickey query, unsigned.
    PublickeyQuery,
    /// A signed publickey attempt.
    PublickeySigned,
}

/// The authentication driver for client-side sessions.
///
/// It always starts with the `none` method to discover the methods the
/// server allows; only the last password given to [`Auth::password`] is
/// kept, and it is tried once.
pub struct Auth {
    /// Whether the user is authorized yet.
    pub authorized: bool,
    /// The user to authenticate.
    pub username: Vec<u8>,
    /// The password to try, if any.
    pub pass: Option<Vec<u8>>,
    /// The private key to try, if any.
    pub key: Option<ssh_key::private::PrivateKey>,
    /// Whether the `ssh-userauth` service request is out.
    pub requested: bool,
    /// Whether the `none` probe is out.
    pub sent_none: bool,
    /// Whether the password was tried.
    pub tried_password: bool,
    /// Whether the publickey query was sent.
    pub tried_publickey: bool,
    /// What the last request used.
    pub last: LastAttempt,
}

impl Auth {
    /// Bounded fields: the wire format carries names and passwords up to the
    /// string length prefix; anything longer than a packet is refused at the
    /// call that would send it.
    pub open spec fn wf(self) -> bool {
        &&& self.username@.len() <= 0xffff
        &&& match self.pass {
            Some(p) => p@.len() <= 0xffff,
            None => true,
        }
    }

    /// A driver for the given user, starting with the `none` method.
    pub fn new(username: Vec<u8>) -> (r: Auth)
        requires
            username@.len() <= 0xffff,
        ensures
            r.wf(),
            !r.authorized,
            r.username == username,
            r.pass is None,
            r.key is None,
    {
        Auth {
            authorized: false,
            username,
            pass: None,
            key: None,
            requested: false,
            sent_none: false,
            tried_password: false,
            tried_publickey: false,
            last: LastAttempt::Nothing,
        }
    }

    /// Also try this password; only the last one given is kept.
    pub fn password(self, password: Vec<u8>) -> (r: Auth)
        requires
            password@.len() <= 0xffff,
        ensures
            self.wf() ==> r.wf(),
            (r.pass matches Some(p) && p == password),
            r.username == self.username,
            r.key == self.key,
            r.authorized == self.authorized,
    {
        Auth { pass: Some(password), ..self }
    }

    /// Also try this private key.
    pub fn publickey(self, key: ssh_key::private::PrivateKey) -> (r: Auth)
        ensures
            self.wf() ==> r.wf(),
            r.key is Some,
            r.username == self.username,
            r.pass == self.pass,
            r.authorized == self.authorized,
    {
        Auth { key: Some(key), ..self }
    }

    /// Queue one USERAUTH_REQUEST.
    fn send_request(&self, session: &mut Session, method: AuthMethod) -> (r: SshResult<()>)
        requires
            old(session).wf(),
            self.wf(),
            method.wf(),
        ensures
            final(session).wf(),
            final(session).inbuf == old(session).inbuf,
            r is Ok ==> spec_queued_payload(
                *old(session),
                *final(session),
                seq![MSG_USERAUTH_REQUEST] + spec_string(self.username@) + spec_string(
                    spec_ssh_connection_name(),
                ) + method.spec_enc(),
            ),
            (!old(session).is_terminated() && self.username@.len() + method.spec_enc().len() + 23
                <= MAX_PAYLOAD) ==> r is Ok,
    {
        let username = self.username.clone();
        assert(username@ =~= self.username@);
        if username.len() > 0xffff {
            return Err(Error::UnexpectedMessage);
        }
        let msg = Request { username, service_name: ssh_connection_name(), method };
        let payload = msg.encode();
        assert(payload@ =~= seq![MSG_USERAUTH_REQUEST] + spec_string(self.username@)
            + spec_string(spec_ssh_connection_name()) + msg.method.spec_enc());
        if payload.len() > MAX_PAYLOAD {
            return Err(Error::UnexpectedMessage);
        }
        session.send(&payload)
    }

    /// After a FAILURE, try the next configured method that the server
    /// still allows: `password` first, then `publickey`; when nothing is
    /// left, authentication has failed.
    fn try_next(&mut self, session: &mut Session, continue_with: &Vec<Vec<u8>>) -> (r: SshResult<
        (),
    >)
        requires
            old(session).wf(),
            old(self).wf(),
        ensures
            final(session).wf(),
            final(session).inbuf == old(session).inbuf,
            final(self).wf(),
            final(self).requested == old(self).requested,
            final(self).sent_none == old(self).sent_none,
            old(self).tried_password ==> final(self).tried_password,
            old(self).tried_publickey ==> final(self).tried_publickey,
            final(self).authorized == old(self).authorized,
    {
        let has_password = match &self.pass {
            Some(_) => true,
            None => false,
        };
        if has_password && !self.tried_password && contains_name(
            continue_with,
            &password_name(),
        ) {
            self.tried_password = true;
            self.last = LastAttempt::PasswordTry;
            let password = match &self.pass {
                Some(p) => p.clone(),
                None => Vec::new(),
            };
            let method = AuthMethod::Password { password, new: None };
            return self.send_request(session, method);
        }
        let has_key = match &self.key {
            Some(_) => true,
            None => false,
        };
        if has_key && !self.tried_publickey && contains_name(continue_with, &publickey_name()) {
            self.tried_publickey = true;
            self.last = LastAttempt::PublickeyQuery;
            let blob = match &self.key {
                Some(k) => public_key_blob(k),
                None => Vec::new(),
            };
            if blob.len() > 0xffff {
                return Err(Error::UserauthFailed);
            }
            let method = AuthMethod::Publickey {
                algorithm: crate::algo::hostkey_name(crate::algo::HostKey::Ed25519),
                blob,
                signature: None,
            };
            return self.send_request(session, method);
        }
        Err(Error::UserauthFailed)
    }

    /// Drive authentication with whatever bytes have arrived: request the
    /// `ssh-userauth` service, probe with `none`, walk the configured
    /// methods on FAILURE, answer PK_OK with a signed attempt, and report
    /// authorization on SUCCESS. Nothing yet means feed more bytes.
    pub fn step(&mut self, session: &mut Session) -> (r: SshResult<Option<()>>)
        requires
            old(session).wf(),
            old(self).wf(),
        ensures
            final(session).wf(),
            final(self).wf(),
            old(self).requested ==> final(self).requested,
            old(self).sent_none ==> final(self).sent_none,
            old(self).tried_password ==> final(self).tried_password,
            old(self).tried_publickey ==> final(self).tried_publickey,
            (!old(self).authorized && !old(self).requested && !old(session).is_terminated()
                && old(session).awaiting_service is None) ==> {
                &&& (r matches Ok(None))
                &&& final(self).requested
                &&& spec_queued_payload(
                    *old(session),
                    *final(session),
                    seq![crate::msg::MSG_SERVICE_REQUEST] + spec_string(spec_ssh_userauth_name()),
                )
            },
            (!old(self).authorized && old(self).requested && !old(self).sent_none && !old(
                session,
            ).is_terminated() && old(session).phase is Ready && !spec_rekey_due(
                old(session).stream,
            ) && old(session).awaiting_service is None && old(session).accepted_service is Some
                && old(self).username@.len() + 40 <= MAX_PAYLOAD) ==> match spec_recv(
                old(session).stream.pair.rx,
                old(session).stream.rx_seq,
                old(session).inbuf@,
            ) {
                SpecRecv::NeedMore => {
                    &&& (r matches Ok(None))
                    &&& final(self).sent_none
                    &&& spec_queued_payload(
                        *old(session),
                        *final(session),
                        seq![MSG_USERAUTH_REQUEST] + spec_string(old(self).username@)
                            + spec_string(spec_ssh_connection_name()) + spec_string(
                            spec_none_name(),
                        ),
                    )
                },
                _ => true,
            },
            old(self).authorized ==> (r matches Ok(Some(u))) && *final(self) == *old(self)
                && *final(session) == *old(session),
            (r matches Ok(Some(u))) ==> final(self).authorized,
            (!old(self).authorized && old(self).requested && !old(session).is_terminated()
                && old(session).phase is Ready && !spec_rekey_due(old(session).stream) && old(session).awaiting_service is None) ==> match spec_recv(
                old(session).stream.pair.rx,
                old(session).stream.rx_seq,
                old(session).inbuf@,
            ) {
                SpecRecv::Packet(payload, consumed) => payload
                    == seq![MSG_USERAUTH_SUCCESS] ==> ((r matches Ok(Some(u)))
                    && final(self).authorized),
                _ => true,
            },
        decreases old(session).inbuf@.len(),
    {
        if self.authorized {
            return Ok(Some(()));
        }
        if !self.requested {
            match session.request(&ssh_userauth_name()) {
                Ok(()) => {
                    self.requested = true;
                    return Ok(None);
                },
                Err(e) => {
                    return Err(e);
                },
            }
        }
        let packet = match session.recv() {
            Ok(Some(p)) => p,
            Ok(None) => {
                // once the service is accepted, open with the none probe
                let accepted = match session.accepted() {
                    Some(_) => true,
                    None => false,
                };
                if accepted && !self.sent_none {
                    self.sent_none = true;
                    self.last = LastAttempt::NoneProbe;
                    match self.send_request(session, AuthMethod::NoneMethod) {
                        Ok(()) => {},
                        Err(e) => {
                            return Err(e);
                        },
                    }
                }
                return Ok(None);
            },
            Err(e) => {
                return Err(e);
            },
        };
        if packet.len() == 0 {
            let _ = session.disconnect(DisconnectReason::ProtocolError, Vec::new());
            return Err(Error::UnexpectedMessage);
        }
        let num = packet[0];
        if num == MSG_USERAUTH_SUCCESS && is_success(&packet) {
            self.authorized = true;
            return Ok(Some(()));
        }
        if num == MSG_USERAUTH_BANNER {
            // the banner is display-only
            return self.step(session);
        }
        if num == MSG_USERAUTH_FAILURE {
            match parse_failure(&packet) {
                Some(f) => {
                    match self.try_next(session, &f.continue_with) {
                        Ok(()) => {
                            return self.step(session);
                        },
                        Err(e) => {
                            return Err(e);
                        },
                    }
                },
                None => {
                    let _ = session.disconnect(DisconnectReason::ProtocolError, Vec::new());
                    return Err(Error::UnexpectedMessage);
                },
            }
        }
        if num == MSG_USERAUTH_PK_OK && matches!(self.last, LastAttempt::PublickeyQuery) {
            // the queried key is acceptable: send the signed attempt
            let pk_ok = match parse_pk_ok(&packet) {
                Some(m) => m,
                None => {
                    let _ = session.disconnect(DisconnectReason::ProtocolError, Vec::new());
                    return Err(Error::UnexpectedMessage);
                },
            };
            let session_id = match session.session_id() {
                Some(sid) => sid,
                None => Vec::new(),
            };
            let username = self.username.clone();
            assert(username@ =~= self.username@);
            if session_id.len() > 0xffff || username.len() > 0xffff || pk_ok.algorithm.len()
                > 0xffff || pk_ok.blob.len() > 0xffff {
                return Err(Error::UserauthFailed);
            }
            let message = PublickeySignature {
                session_id,
                username,
                service_name: ssh_connection_name(),
                algorithm: pk_ok.algorithm.clone(),
                blob: pk_ok.blob.clone(),
            };
            let data = message.encode();
            let signature = match &self.key {
                Some(k) => sign_message(k, &data),
                None => {
                    return Err(Error::UserauthFailed);
                },
            };
            if signature.len() > 0xffff {
                return Err(Error::UserauthFailed);
            }
            self.last = LastAttempt::PublickeySigned;
            let method = AuthMethod::Publickey {
                algorithm: pk_ok.algorithm,
                blob: pk_ok.blob,
                signature: Some(signature),
            };
            match self.send_request(session, method) {
                Ok(()) => {
                    return self.step(session);
                },
                Err(e) => {
                    return Err(e);
                },
            }
        }
        if num == MSG_USERAUTH_PK_OK && matches!(self.last, LastAttempt::PasswordTry) {
            // a password-change request: only the last password is kept, so
            // there is nothing more to offer
            return Err(Error::UserauthFailed);
        }
        let _ = session.disconnect(DisconnectReason::ProtocolError, Vec::new());
        Err(Error::UnexpectedMessage)
    }
}

} // verus!
