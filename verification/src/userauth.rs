//! `ssh-userauth` messages (RFC 4252): payload layouts, encoders and strict
//! parsers for USERAUTH_REQUEST, FAILURE, SUCCESS, BANNER, PK_OK and
//! PASSWD_CHANGEREQ, plus the canonical blob a publickey signature covers.

use vstd::prelude::*;
use crate::wire::{
    put_bool, put_namelist, put_string, put_u8, spec_bool, spec_namelist, spec_nl_payload,
    spec_read_bool, spec_read_namelist, spec_read_string, spec_read_u8, spec_string, views,
    Reader, bytes_eq,
};

verus! {

/// Message number of SSH_MSG_USERAUTH_REQUEST.
pub const MSG_USERAUTH_REQUEST: u8 = 50;

/// Message number of SSH_MSG_USERAUTH_FAILURE.
pub const MSG_USERAUTH_FAILURE: u8 = 51;

/// Message number of SSH_MSG_USERAUTH_SUCCESS.
pub const MSG_USERAUTH_SUCCESS: u8 = 52;

/// Message number of SSH_MSG_USERAUTH_BANNER.
pub const MSG_USERAUTH_BANNER: u8 = 53;

/// Message number of SSH_MSG_USERAUTH_PK_OK, shared with PASSWD_CHANGEREQ;
/// the attempted method disambiguates.
pub const MSG_USERAUTH_PK_OK: u8 = 60;

/// Message number of SSH_MSG_USERAUTH_PASSWD_CHANGEREQ.
pub const MSG_USERAUTH_PASSWD_CHANGEREQ: u8 = 60;

/// The name of the `none` method on the wire.
pub open spec fn spec_none_name() -> Seq<u8> {
    // none
    seq![110u8, 111u8, 110u8, 101u8]
}

/// Encode the name of the `none` method.
pub fn none_name() -> (r: Vec<u8>)
    ensures
        r@ == spec_none_name(),
{
    let v = vec![110u8, 111u8, 110u8, 101u8];
    assert(v@ =~= spec_none_name());
    v
}

/// The name of the `password` method on the wire.
pub open spec fn spec_password_name() -> Seq<u8> {
    // password
    seq![112u8, 97u8, 115u8, 115u8, 119u8, 111u8, 114u8, 100u8]
}

/// Encode the name of the `password` method.
pub fn password_name() -> (r: Vec<u8>)
    ensures
        r@ == spec_password_name(),
{
    let v = vec![112u8, 97u8, 115u8, 115u8, 119u8, 111u8, 114u8, 100u8];
    assert(v@ =~= spec_password_name());
    v
}

/// The name of the `publickey` method on the wire.
pub open spec fn spec_publickey_name() -> Seq<u8> {
    // publickey
    seq![112u8, 117u8, 98u8, 108u8, 105u8, 99u8, 107u8, 101u8, 121u8]
}

/// Encode the name of the `publickey` method.
pub fn publickey_name() -> (r: Vec<u8>)
    ensures
        r@ == spec_publickey_name(),
{
    let v = vec![112u8, 117u8, 98u8, 108u8, 105u8, 99u8, 107u8, 101u8, 121u8];
    assert(v@ =~= spec_publickey_name());
    v
}

/// The name of the `hostbased` method on the wire.
pub open spec fn spec_hostbased_name() -> Seq<u8> {
    // hostbased
    seq![104u8, 111u8, 115u8, 116u8, 98u8, 97u8, 115u8, 101u8, 100u8]
}

/// Encode the name of the `hostbased` method.
pub fn hostbased_name() -> (r: Vec<u8>)
    ensures
        r@ == spec_hostbased_name(),
{
    let v = vec![104u8, 111u8, 115u8, 116u8, 98u8, 97u8, 115u8, 101u8, 100u8];
    assert(v@ =~= spec_hostbased_name());
    v
}

/// The name of the `keyboard-interactive` method on the wire.
pub open spec fn spec_keyboard_interactive_name() -> Seq<u8> {
    // keyboard-interactive
    seq![
        107u8, 101u8, 121u8, 98u8, 111u8, 97u8, 114u8, 100u8, 45u8, 105u8, 110u8, 116u8, 101u8,
        114u8, 97u8, 99u8, 116u8, 105u8, 118u8, 101u8,
    ]
}

/// Encode the name of the `keyboard-interactive` method.
pub fn keyboard_interactive_name() -> (r: Vec<u8>)
    ensures
        r@ == spec_keyboard_interactive_name(),
{
    let v = vec![
        107u8, 101u8, 121u8, 98u8, 111u8, 97u8, 114u8, 100u8, 45u8, 105u8, 110u8, 116u8, 101u8,
        114u8, 97u8, 99u8, 116u8, 105u8, 118u8, 101u8,
    ];
    assert(v@ =~= spec_keyboard_interactive_name());
    v
}

/// The name of the authentication service on the wire.
pub open spec fn spec_ssh_userauth_name() -> Seq<u8> {
    // ssh-userauth
    seq![115u8, 115u8, 104u8, 45u8, 117u8, 115u8, 101u8, 114u8, 97u8, 117u8, 116u8, 104u8]
}

/// Encode the name of the authentication service.
pub fn ssh_userauth_name() -> (r: Vec<u8>)
    ensures
        r@ == spec_ssh_userauth_name(),
        r@.len() == 12,
{
    let v = vec![115u8, 115u8, 104u8, 45u8, 117u8, 115u8, 101u8, 114u8, 97u8, 117u8, 116u8, 104u8];
    assert(v@ =~= spec_ssh_userauth_name());
    v
}

/// The name of the connection service on the wire.
pub open spec fn spec_ssh_connection_name() -> Seq<u8> {
    // ssh-connection
    seq![115u8, 115u8, 104u8, 45u8, 99u8, 111u8, 110u8, 110u8, 101u8, 99u8, 116u8, 105u8, 111u8, 110u8]
}

/// Encode the name of the connection service.
pub fn ssh_connection_name() -> (r: Vec<u8>)
    ensures
        r@ == spec_ssh_connection_name(),
        r@.len() == 14,
{
    let v = vec![
        115u8, 115u8, 104u8, 45u8, 99u8, 111u8, 110u8, 110u8, 101u8, 99u8, 116u8, 105u8, 111u8,
        110u8,
    ];
    assert(v@ =~= spec_ssh_connection_name());
    v
}

/// The method carried by a USERAUTH_REQUEST, with its per-method fields.
#[derive(Clone, Debug)]
pub enum AuthMethod {
    /// The `none` method: no credentials at all.
    NoneMethod,
    /// The `password` method, optionally changing the password.
    Password {
        /// The password attempted.
        password: Vec<u8>,
        /// A new password, when the old one expired.
        new: Option<Vec<u8>>,
    },
    /// The `publickey` method: a query when unsigned, an attempt when signed.
    Publickey {
        /// The public-key algorithm name.
        algorithm: Vec<u8>,
        /// The public-key blob in SSH wire encoding.
        blob: Vec<u8>,
        /// The signature over the canonical blob, present for an attempt.
        signature: Option<Vec<u8>>,
    },
    /// The `hostbased` method; parsed but never handled.
    Hostbased {
        /// The public-key algorithm name.
        algorithm: Vec<u8>,
        /// The host key blob.
        host_key: Vec<u8>,
        /// The client host name.
        hostname: Vec<u8>,
        /// The user name on the client host.
        local_username: Vec<u8>,
        /// The signature.
        signature: Vec<u8>,
    },
    /// The `keyboard-interactive` method; parsed but never handled.
    KeyboardInteractive {
        /// The language tag.
        language: Vec<u8>,
        /// The submethods hint.
        submethods: Vec<u8>,
    },
}

impl AuthMethod {
    /// Encodable: every field fits its length prefix.
    pub open spec fn wf(self) -> bool {
        match self {
            AuthMethod::NoneMethod => true,
            AuthMethod::Password { password, new } => password@.len() <= 0xffff && (match new {
                Some(n) => n@.len() <= 0xffff,
                None => true,
            }),
            AuthMethod::Publickey { algorithm, blob, signature } => algorithm@.len() <= 0xffff
                && blob@.len() <= 0xffff && (match signature {
                Some(s) => s@.len() <= 0xffff,
                None => true,
            }),
            AuthMethod::Hostbased { algorithm, host_key, hostname, local_username, signature } =>
                algorithm@.len() <= 0xffff && host_key@.len() <= 0xffff && hostname@.len()
                <= 0xffff && local_username@.len() <= 0xffff && signature@.len() <= 0xffff,
            AuthMethod::KeyboardInteractive { language, submethods } => language@.len() <= 0xffff
                && submethods@.len() <= 0xffff,
        }
    }

    /// The method's wire encoding: its name, then its fields.
    pub open spec fn spec_enc(self) -> Seq<u8> {
        match self {
            AuthMethod::NoneMethod => spec_string(spec_none_name()),
            AuthMethod::Password { password, new } => spec_string(spec_password_name())
                + spec_bool(new is Some) + spec_string(password@) + (match new {
                Some(n) => spec_string(n@),
                None => Seq::empty(),
            }),
            AuthMethod::Publickey { algorithm, blob, signature } => spec_string(
                spec_publickey_name(),
            ) + spec_bool(signature is Some) + spec_string(algorithm@) + spec_string(blob@) + (
            match signature {
                Some(s) => spec_string(s@),
                None => Seq::empty(),
            }),
            AuthMethod::Hostbased { algorithm, host_key, hostname, local_username, signature } =>
                spec_string(spec_hostbased_name()) + spec_string(algorithm@) + spec_string(
                host_key@,
            ) + spec_string(hostname@) + spec_string(local_username@) + spec_string(signature@),
            AuthMethod::KeyboardInteractive { language, submethods } => spec_string(
                spec_keyboard_interactive_name(),
            ) + spec_string(language@) + spec_string(submethods@),
        }
    }

    /// Append the method's wire encoding to `out`.
    pub fn put(&self, out: &mut Vec<u8>)
        requires
            self.wf(),
        ensures
            final(out)@ == old(out)@ + self.spec_enc(),
    {
        match self {
            AuthMethod::NoneMethod => {
                put_string(out, &none_name());
            },
            AuthMethod::Password { password, new } => {
                put_string(out, &password_name());
                match new {
                    Some(n) => {
                        put_bool(out, true);
                        put_string(out, password);
                        put_string(out, n);
                    },
                    None => {
                        put_bool(out, false);
                        put_string(out, password);
                    },
                }
            },
            AuthMethod::Publickey { algorithm, blob, signature } => {
                put_string(out, &publickey_name());
                match signature {
                    Some(s) => {
                        put_bool(out, true);
                        put_string(out, algorithm);
                        put_string(out, blob);
                        put_string(out, s);
                    },
                    None => {
                        put_bool(out, false);
                        put_string(out, algorithm);
                        put_string(out, blob);
                    },
                }
            },
            AuthMethod::Hostbased { algorithm, host_key, hostname, local_username, signature } => {
                put_string(out, &hostbased_name());
                put_string(out, algorithm);
                put_string(out, host_key);
                put_string(out, hostname);
                put_string(out, local_username);
                put_string(out, signature);
            },
            AuthMethod::KeyboardInteractive { language, submethods } => {
                put_string(out, &keyboard_interactive_name());
                put_string(out, language);
                put_string(out, submethods);
            },
        }
        assert(final(out)@ =~= old(out)@ + self.spec_enc());
    }
}

/// A USERAUTH_REQUEST message: one authentication attempt.
#[derive(Clone, Debug)]
pub struct Request {
    /// The user being authenticated.
    pub username: Vec<u8>,
    /// The service to start after success.
    pub service_name: Vec<u8>,
    /// The attempted method with its fields.
    pub method: AuthMethod,
}

impl Request {
    /// Encodable: every field fits its length prefix.
    pub open spec fn wf(self) -> bool {
        self.username@.len() <= 0xffff && self.service_name@.len() <= 0xffff && self.method.wf()
    }

    /// The payload bytes of the message.
    pub open spec fn spec_enc(self) -> Seq<u8> {
        seq![MSG_USERAUTH_REQUEST] + spec_string(self.username@) + spec_string(self.service_name@)
            + self.method.spec_enc()
    }

    /// Encode the payload.
    pub fn encode(&self) -> (r: Vec<u8>)
        requires
            self.wf(),
        ensures
            r@ == self.spec_enc(),
    {
        let mut out: Vec<u8> = Vec::new();
        put_u8(&mut out, MSG_USERAUTH_REQUEST);
        put_string(&mut out, &self.username);
        put_string(&mut out, &self.service_name);
        self.method.put(&mut out);
        assert(out@ =~= self.spec_enc());
        out
    }
}

/// What parsing the method part of a USERAUTH_REQUEST yields: the method's
/// fields as plain sequences, mirroring [`AuthMethod`].
pub enum SpecAuthMethod {
    /// The `none` method.
    NoneMethod,
    /// The `password` method.
    Password { password: Seq<u8>, new: Option<Seq<u8>> },
    /// The `publickey` method.
    Publickey { algorithm: Seq<u8>, blob: Seq<u8>, signature: Option<Seq<u8>> },
    /// The `hostbased` method.
    Hostbased {
        algorithm: Seq<u8>,
        host_key: Seq<u8>,
        hostname: Seq<u8>,
        local_username: Seq<u8>,
        signature: Seq<u8>,
    },
    /// The `keyboard-interactive` method.
    KeyboardInteractive { language: Seq<u8>, submethods: Seq<u8> },
}

/// The spec-level view of an [`AuthMethod`].
pub open spec fn method_view(m: AuthMethod) -> SpecAuthMethod {
    match m {
        AuthMethod::NoneMethod => SpecAuthMethod::NoneMethod,
        AuthMethod::Password { password, new } => SpecAuthMethod::Password {
            password: password@,
            new: match new {
                Some(n) => Some(n@),
                None => None,
            },
        },
        AuthMethod::Publickey { algorithm, blob, signature } => SpecAuthMethod::Publickey {
            algorithm: algorithm@,
            blob: blob@,
            signature: match signature {
                Some(s) => Some(s@),
                None => None,
            },
        },
        AuthMethod::Hostbased { algorithm, host_key, hostname, local_username, signature } =>
            SpecAuthMethod::Hostbased {
            algorithm: algorithm@,
            host_key: host_key@,
            hostname: hostname@,
            local_username: local_username@,
            signature: signature@,
        },
        AuthMethod::KeyboardInteractive { language, submethods } =>
            SpecAuthMethod::KeyboardInteractive { language: language@, submethods: submethods@ },
    }
}

/// What parsing the method part at `pos` yields, requiring exhaustion.
pub open spec fn spec_parse_method(b: Seq<u8>, pos: int) -> Option<SpecAuthMethod> {
    match spec_read_string(b, pos) {
        Some((name, p)) => if name == spec_none_name() {
            if p == b.len() {
                Some(SpecAuthMethod::NoneMethod)
            } else {
                None
            }
        } else if name == spec_password_name() {
            match spec_read_bool(b, p) {
                Some((change, p1)) => match spec_read_string(b, p1) {
                    Some((password, p2)) => if change {
                        match spec_read_string(b, p2) {
                            Some((n, p3)) => if p3 == b.len() {
                                Some(SpecAuthMethod::Password { password, new: Some(n) })
                            } else {
                                None
                            },
                            None => None,
                        }
                    } else {
                        if p2 == b.len() {
                            Some(SpecAuthMethod::Password { password, new: None })
                        } else {
                            None
                        }
                    },
                    None => None,
                },
                None => None,
            }
        } else if name == spec_publickey_name() {
            match spec_read_bool(b, p) {
                Some((signed, p1)) => match spec_read_string(b, p1) {
                    Some((algorithm, p2)) => match spec_read_string(b, p2) {
                        Some((blob, p3)) => if signed {
                            match spec_read_string(b, p3) {
                                Some((s, p4)) => if p4 == b.len() {
                                    Some(
                                        SpecAuthMethod::Publickey {
                                            algorithm,
                                            blob,
                                            signature: Some(s),
                                        },
                                    )
                                } else {
                                    None
                                },
                                None => None,
                            }
                        } else {
                            if p3 == b.len() {
                                Some(
                                    SpecAuthMethod::Publickey { algorithm, blob, signature: None },
                                )
                            } else {
                                None
                            }
                        },
                        None => None,
                    },
                    None => None,
                },
                None => None,
            }
        } else if name == spec_hostbased_name() {
            match spec_read_string(b, p) {
                Some((algorithm, p1)) => match spec_read_string(b, p1) {
                    Some((host_key, p2)) => match spec_read_string(b, p2) {
                        Some((hostname, p3)) => match spec_read_string(b, p3) {
                            Some((local_username, p4)) => match spec_read_string(b, p4) {
                                Some((signature, p5)) => if p5 == b.len() {
                                    Some(
                                        SpecAuthMethod::Hostbased {
                                            algorithm,
                                            host_key,
                                            hostname,
                                            local_username,
                                            signature,
                                        },
                                    )
                                } else {
                                    None
                                },
                                None => None,
                            },
                            None => None,
                        },
                        None => None,
                    },
                    None => None,
                },
                None => None,
            }
        } else if name == spec_keyboard_interactive_name() {
            match spec_read_string(b, p) {
                Some((language, p1)) => match spec_read_string(b, p1) {
                    Some((submethods, p2)) => if p2 == b.len() {
                        Some(SpecAuthMethod::KeyboardInteractive { language, submethods })
                    } else {
                        None
                    },
                    None => None,
                },
                None => None,
            }
        } else {
            None
        },
        None => None,
    }
}

/// What parsing a USERAUTH_REQUEST payload yields: username, service name,
/// method.
pub open spec fn spec_parse_request(b: Seq<u8>) -> Option<(Seq<u8>, Seq<u8>, SpecAuthMethod)> {
    match spec_read_u8(b, 0) {
        Some((num, p0)) => if num == MSG_USERAUTH_REQUEST {
            match spec_read_string(b, p0) {
                Some((username, p1)) => match spec_read_string(b, p1) {
                    Some((service, p2)) => match spec_parse_method(b, p2) {
                        Some(m) => Some((username, service, m)),
                        None => None,
                    },
                    None => None,
                },
                None => None,
            }
        } else {
            None
        },
        None => None,
    }
}

/// Parse a USERAUTH_REQUEST payload.
pub fn parse_request(buf: &Vec<u8>) -> (r: Option<Request>)
    ensures
        match r {
            Some(m) => spec_parse_request(buf@) == Some(
                (m.username@, m.service_name@, method_view(m.method)),
            ),
            None => spec_parse_request(buf@) is None,
        },
{
    let mut rd = Reader::new(buf);
    let num = match rd.read_u8() {
        Some(n) => n,
        None => { return None; },
    };
    if num != MSG_USERAUTH_REQUEST {
        return None;
    }
    let username = match rd.read_string() {
        Some(s) => s,
        None => { return None; },
    };
    let service_name = match rd.read_string() {
        Some(s) => s,
        None => { return None; },
    };
    let name = match rd.read_string() {
        Some(s) => s,
        None => { return None; },
    };
    if bytes_eq(&name, &none_name()) {
        if !rd.done() {
            return None;
        }
        Some(Request { username, service_name, method: AuthMethod::NoneMethod })
    } else if bytes_eq(&name, &password_name()) {
        let change = match rd.read_bool() {
            Some(c) => c,
            None => { return None; },
        };
        let password = match rd.read_string() {
            Some(s) => s,
            None => { return None; },
        };
        if change {
            let new = match rd.read_string() {
                Some(s) => s,
                None => { return None; },
            };
            if !rd.done() {
                return None;
            }
            Some(
                Request {
                    username,
                    service_name,
                    method: AuthMethod::Password { password, new: Some(new) },
                },
            )
        } else {
            if !rd.done() {
                return None;
            }
            Some(
                Request {
                    username,
                    service_name,
                    method: AuthMethod::Password { password, new: None },
                },
            )
        }
    } else if bytes_eq(&name, &publickey_name()) {
        let signed = match rd.read_bool() {
            Some(c) => c,
            None => { return None; },
        };
        let algorithm = match rd.read_string() {
            Some(s) => s,
            None => { return None; },
        };
        let blob = match rd.read_string() {
            Some(s) => s,
            None => { return None; },
        };
        if signed {
            let signature = match rd.read_string() {
                Some(s) => s,
                None => { return None; },
            };
            if !rd.done() {
                return None;
            }
            Some(
                Request {
                    username,
                    service_name,
                    method: AuthMethod::Publickey { algorithm, blob, signature: Some(signature) },
                },
            )
        } else {
            if !rd.done() {
                return None;
            }
            Some(
                Request {
                    username,
                    service_name,
                    method: AuthMethod::Publickey { algorithm, blob, signature: None },
                },
            )
        }
    } else if bytes_eq(&name, &hostbased_name()) {
        let algorithm = match rd.read_string() {
            Some(s) => s,
            None => { return None; },
        };
        let host_key = match rd.read_string() {
            Some(s) => s,
            None => { return None; },
        };
        let hostname = match rd.read_string() {
            Some(s) => s,
            None => { return None; },
        };
        let local_username = match rd.read_string() {
            Some(s) => s,
            None => { return None; },
        };
        let signature = match rd.read_string() {
            Some(s) => s,
            None => { return None; },
        };
        if !rd.done() {
            return None;
        }
        Some(
            Request {
                username,
                service_name,
                method: AuthMethod::Hostbased {
                    algorithm,
                    host_key,
                    hostname,
                    local_username,
                    signature,
                },
            },
        )
    } else if bytes_eq(&name, &keyboard_interactive_name()) {
        let language = match rd.read_string() {
            Some(s) => s,
            None => { return None; },
        };
        let submethods = match rd.read_string() {
            Some(s) => s,
            None => { return None; },
        };
        if !rd.done() {
            return None;
        }
        Some(
            Request {
                username,
                service_name,
                method: AuthMethod::KeyboardInteractive { language, submethods },
            },
        )
    } else {
        None
    }
}

/// A USERAUTH_FAILURE message: the attempt failed; these methods may still
/// be tried.
#[derive(Clone, Debug)]
pub struct Failure {
    /// The methods the server is still willing to see.
    pub continue_with: Vec<Vec<u8>>,
    /// Whether the attempt succeeded but more are owed.
    pub partial_success: bool,
}

impl Failure {
    /// Encodable: the list fits its length prefix.
    pub open spec fn wf(self) -> bool {
        spec_nl_payload(views(self.continue_with@)).len() <= 0xffff
    }

    /// The payload bytes of the message.
    pub open spec fn spec_enc(self) -> Seq<u8> {
        seq![MSG_USERAUTH_FAILURE] + spec_namelist(views(self.continue_with@)) + spec_bool(
            self.partial_success,
        )
    }

    /// Encode the payload.
    pub fn encode(&self) -> (r: Vec<u8>)
        requires
            self.wf(),
        ensures
            r@ == self.spec_enc(),
    {
        let mut out: Vec<u8> = Vec::new();
        put_u8(&mut out, MSG_USERAUTH_FAILURE);
        put_namelist(&mut out, &self.continue_with);
        put_bool(&mut out, self.partial_success);
        assert(out@ =~= self.spec_enc());
        out
    }
}

/// What parsing a USERAUTH_FAILURE payload yields: the continuable methods
/// and the partial-success flag.
pub open spec fn spec_parse_failure(b: Seq<u8>) -> Option<(Seq<Seq<u8>>, bool)> {
    match spec_read_u8(b, 0) {
        Some((num, p0)) => if num == MSG_USERAUTH_FAILURE {
            match spec_read_namelist(b, p0) {
                Some((l, p1)) => match spec_read_bool(b, p1) {
                    Some((ps, p2)) => if p2 == b.len() {
                        Some((l, ps))
                    } else {
                        None
                    },
                    None => None,
                },
                None => None,
            }
        } else {
            None
        },
        None => None,
    }
}

/// Parse a USERAUTH_FAILURE payload.
pub fn parse_failure(buf: &Vec<u8>) -> (r: Option<Failure>)
    ensures
        match r {
            Some(m) => spec_parse_failure(buf@) == Some(
                (views(m.continue_with@), m.partial_success),
            ),
            None => spec_parse_failure(buf@) is None,
        },
{
    let mut rd = Reader::new(buf);
    let num = match rd.read_u8() {
        Some(n) => n,
        None => { return None; },
    };
    if num != MSG_USERAUTH_FAILURE {
        return None;
    }
    let continue_with = match rd.read_namelist() {
        Some(l) => l,
        None => { return None; },
    };
    let partial_success = match rd.read_bool() {
        Some(p) => p,
        None => { return None; },
    };
    if !rd.done() {
        return None;
    }
    Some(Failure { continue_with, partial_success })
}

/// Encode a USERAUTH_SUCCESS payload: the message number alone.
pub fn encode_success() -> (r: Vec<u8>)
    ensures
        r@ =~= seq![MSG_USERAUTH_SUCCESS],
{
    let mut out: Vec<u8> = Vec::new();
    put_u8(&mut out, MSG_USERAUTH_SUCCESS);
    out
}

/// Whether a payload is exactly a USERAUTH_SUCCESS message.
pub open spec fn spec_is_success(b: Seq<u8>) -> bool {
    b =~= seq![MSG_USERAUTH_SUCCESS]
}

/// Recognise a USERAUTH_SUCCESS payload.
pub fn is_success(buf: &Vec<u8>) -> (r: bool)
    ensures
        r == spec_is_success(buf@),
{
    if buf.len() == 1 {
        let b = buf[0];
        if b == MSG_USERAUTH_SUCCESS {
            assert(buf@ =~= seq![MSG_USERAUTH_SUCCESS]);
            return true;
        }
    }
    assert(!spec_is_success(buf@));
    false
}

/// A USERAUTH_BANNER message: text shown to the user before authentication.
#[derive(Clone, Debug)]
pub struct Banner {
    /// The banner text.
    pub message: Vec<u8>,
    /// An RFC 3066 language tag, usually empty.
    pub language: Vec<u8>,
}

impl Banner {
    /// Encodable: every field fits its length prefix.
    pub open spec fn wf(self) -> bool {
        self.message@.len() <= 0xffff && self.language@.len() <= 0xffff
    }

    /// The payload bytes of the message.
    pub open spec fn spec_enc(self) -> Seq<u8> {
        seq![MSG_USERAUTH_BANNER] + spec_string(self.message@) + spec_string(self.language@)
    }

    /// Encode the payload.
    pub fn encode(&self) -> (r: Vec<u8>)
        requires
            self.wf(),
        ensures
            r@ == self.spec_enc(),
    {
        let mut out: Vec<u8> = Vec::new();
        put_u8(&mut out, MSG_USERAUTH_BANNER);
        put_string(&mut out, &self.message);
        put_string(&mut out, &self.language);
        assert(out@ =~= self.spec_enc());
        out
    }
}

/// What parsing a USERAUTH_BANNER payload yields: message and language.
pub open spec fn spec_parse_banner(b: Seq<u8>) -> Option<(Seq<u8>, Seq<u8>)> {
    match spec_read_u8(b, 0) {
        Some((num, p0)) => if num == MSG_USERAUTH_BANNER {
            match spec_read_string(b, p0) {
                Some((m, p1)) => match spec_read_string(b, p1) {
                    Some((l, p2)) => if p2 == b.len() {
                        Some((m, l))
                    } else {
                        None
                    },
                    None => None,
                },
                None => None,
            }
        } else {
            None
        },
        None => None,
    }
}

/// Parse a USERAUTH_BANNER payload.
pub fn parse_banner(buf: &Vec<u8>) -> (r: Option<Banner>)
    ensures
        match r {
            Some(m) => spec_parse_banner(buf@) == Some((m.message@, m.language@)),
            None => spec_parse_banner(buf@) is None,
        },
{
    let mut rd = Reader::new(buf);
    let num = match rd.read_u8() {
        Some(n) => n,
        None => { return None; },
    };
    if num != MSG_USERAUTH_BANNER {
        return None;
    }
    let message = match rd.read_string() {
        Some(s) => s,
        None => { return None; },
    };
    let language = match rd.read_string() {
        Some(s) => s,
        None => { return None; },
    };
    if !rd.done() {
        return None;
    }
    Some(Banner { message, language })
}

/// A USERAUTH_PK_OK message: the queried key would be acceptable.
#[derive(Clone, Debug)]
pub struct PkOk {
    /// The algorithm name from the query.
    pub algorithm: Vec<u8>,
    /// The public-key blob from the query.
    pub blob: Vec<u8>,
}

impl PkOk {
    /// Encodable: every field fits its length prefix.
    pub open spec fn wf(self) -> bool {
        self.algorithm@.len() <= 0xffff && self.blob@.len() <= 0xffff
    }

    /// The payload bytes of the message.
    pub open spec fn spec_enc(self) -> Seq<u8> {
        seq![MSG_USERAUTH_PK_OK] + spec_string(self.algorithm@) + spec_string(self.blob@)
    }

    /// Encode the payload.
    pub fn encode(&self) -> (r: Vec<u8>)
        requires
            self.wf(),
        ensures
            r@ == self.spec_enc(),
    {
        let mut out: Vec<u8> = Vec::new();
        put_u8(&mut out, MSG_USERAUTH_PK_OK);
        put_string(&mut out, &self.algorithm);
        put_string(&mut out, &self.blob);
        assert(out@ =~= self.spec_enc());
        out
    }
}

/// What parsing a USERAUTH_PK_OK payload yields: algorithm and blob.
pub open spec fn spec_parse_pk_ok(b: Seq<u8>) -> Option<(Seq<u8>, Seq<u8>)> {
    match spec_read_u8(b, 0) {
        Some((num, p0)) => if num == MSG_USERAUTH_PK_OK {
            match spec_read_string(b, p0) {
                Some((a, p1)) => match spec_read_string(b, p1) {
                    Some((bl, p2)) => if p2 == b.len() {
                        Some((a, bl))
                    } else {
                        None
                    },
                    None => None,
                },
                None => None,
            }
        } else {
            None
        },
        None => None,
    }
}

/// Parse a USERAUTH_PK_OK payload.
pub fn parse_pk_ok(buf: &Vec<u8>) -> (r: Option<PkOk>)
    ensures
        match r {
            Some(m) => spec_parse_pk_ok(buf@) == Some((m.algorithm@, m.blob@)),
            None => spec_parse_pk_ok(buf@) is None,
        },
{
    let mut rd = Reader::new(buf);
    let num = match rd.read_u8() {
        Some(n) => n,
        None => { return None; },
    };
    if num != MSG_USERAUTH_PK_OK {
        return None;
    }
    let algorithm = match rd.read_string() {
        Some(s) => s,
        None => { return None; },
    };
    let blob = match rd.read_string() {
        Some(s) => s,
        None => { return None; },
    };
    if !rd.done() {
        return None;
    }
    Some(PkOk { algorithm, blob })
}

/// A USERAUTH_PASSWD_CHANGEREQ message: the password expired; send a new one.
#[derive(Clone, Debug)]
pub struct PasswdChangereq {
    /// The prompt shown to the user.
    pub prompt: Vec<u8>,
    /// An RFC 3066 language tag, usually empty.
    pub language: Vec<u8>,
}

impl PasswdChangereq {
    /// Encodable: every field fits its length prefix.
    pub open spec fn wf(self) -> bool {
        self.prompt@.len() <= 0xffff && self.language@.len() <= 0xffff
    }

    /// The payload bytes of the message.
    pub open spec fn spec_enc(self) -> Seq<u8> {
        seq![MSG_USERAUTH_PASSWD_CHANGEREQ] + spec_string(self.prompt@) + spec_string(
            self.language@,
        )
    }

    /// Encode the payload.
    pub fn encode(&self) -> (r: Vec<u8>)
        requires
            self.wf(),
        ensures
            r@ == self.spec_enc(),
    {
        let mut out: Vec<u8> = Vec::new();
        put_u8(&mut out, MSG_USERAUTH_PASSWD_CHANGEREQ);
        put_string(&mut out, &self.prompt);
        put_string(&mut out, &self.language);
        assert(out@ =~= self.spec_enc());
        out
    }
}

/// What parsing a USERAUTH_PASSWD_CHANGEREQ payload yields: prompt and
/// language.
pub open spec fn spec_parse_passwd_changereq(b: Seq<u8>) -> Option<(Seq<u8>, Seq<u8>)> {
    spec_parse_pk_ok(b)
}

/// The canonical blob a publickey signature covers (RFC 4252 §7): the
/// session identifier, then the USERAUTH_REQUEST fields of a signed
/// publickey attempt, with the signature-present flag set.
#[derive(Clone, Debug)]
pub struct PublickeySignature {
    /// The session identifier: the exchange hash of the first key exchange.
    pub session_id: Vec<u8>,
    /// The user being authenticated.
    pub username: Vec<u8>,
    /// The service to start after success.
    pub service_name: Vec<u8>,
    /// The public-key algorithm name.
    pub algorithm: Vec<u8>,
    /// The public-key blob.
    pub blob: Vec<u8>,
}

/// The bytes a publickey signature covers, over plain values: the session
/// identifier, then the USERAUTH_REQUEST fields of the signed attempt.
pub open spec fn spec_pk_signed_blob(
    session_id: Seq<u8>,
    username: Seq<u8>,
    service_name: Seq<u8>,
    algorithm: Seq<u8>,
    blob: Seq<u8>,
) -> Seq<u8> {
    spec_string(session_id) + seq![MSG_USERAUTH_REQUEST] + spec_string(username) + spec_string(
        service_name,
    ) + spec_string(spec_publickey_name()) + spec_bool(true) + spec_string(algorithm)
        + spec_string(blob)
}

impl PublickeySignature {
    /// Encodable: every field fits its length prefix.
    pub open spec fn wf(self) -> bool {
        self.session_id@.len() <= 0xffff && self.username@.len() <= 0xffff
            && self.service_name@.len() <= 0xffff && self.algorithm@.len() <= 0xffff
            && self.blob@.len() <= 0xffff
    }

    /// The bytes the signature covers.
    pub open spec fn spec_enc(self) -> Seq<u8> {
        spec_pk_signed_blob(
            self.session_id@,
            self.username@,
            self.service_name@,
            self.algorithm@,
            self.blob@,
        )
    }

    /// Encode the bytes the signature covers.
    pub fn encode(&self) -> (r: Vec<u8>)
        requires
            self.wf(),
        ensures
            r@ == self.spec_enc(),
    {
        let mut out: Vec<u8> = Vec::new();
        put_string(&mut out, &self.session_id);
        put_u8(&mut out, MSG_USERAUTH_REQUEST);
        put_string(&mut out, &self.username);
        put_string(&mut out, &self.service_name);
        put_string(&mut out, &publickey_name());
        put_bool(&mut out, true);
        put_string(&mut out, &self.algorithm);
        put_string(&mut out, &self.blob);
        assert(out@ =~= self.spec_enc());
        out
    }
}

/// Parse a USERAUTH_PASSWD_CHANGEREQ payload.
pub fn parse_passwd_changereq(buf: &Vec<u8>) -> (r: Option<PasswdChangereq>)
    ensures
        match r {
            Some(m) => spec_parse_passwd_changereq(buf@) == Some((m.prompt@, m.language@)),
            None => spec_parse_passwd_changereq(buf@) is None,
        },
{
    match parse_pk_ok(buf) {
        Some(m) => Some(PasswdChangereq { prompt: m.algorithm, language: m.blob }),
        None => None,
    }
}

} // verus!
