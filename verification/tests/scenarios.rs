use assh::auth::client as auth_client;
use assh::auth::handler::{
    Auth as ServerAuth, NoneHandler, NoneVerdict, PasswordHandler, PasswordVerdict,
    PublickeyHandler, PublickeyVerdict,
};
use assh::ident::Id;
use assh::session::{Session, Side};
use assh::{DisconnectReason, DisconnectedBy, Error};

fn client_id() -> Id {
    Id::new(b"SSH-2.0-assh_client".to_vec()).unwrap()
}

fn server_id() -> Id {
    Id::new(b"SSH-2.0-assh_server".to_vec()).unwrap()
}

fn host_key() -> ssh_key::private::PrivateKey {
    ssh_key::private::PrivateKey::random(&mut rand::thread_rng(), ssh_key::Algorithm::Ed25519)
        .unwrap()
}

/// Move queued bytes between the two sessions until both go quiet,
/// collecting any payloads surfaced on either side.
fn pump(
    a: &mut Session,
    b: &mut Session,
) -> (Vec<Vec<u8>>, Vec<Vec<u8>>, Option<Error>, Option<Error>) {
    let mut got_a = Vec::new();
    let mut got_b = Vec::new();
    let mut err_a = None;
    let mut err_b = None;
    for _ in 0..64 {
        let ab = a.take_output();
        let ba = b.take_output();
        if ab.is_empty() && ba.is_empty() && a.inbuf.is_empty() && b.inbuf.is_empty() {
            break;
        }
        b.push_input(&ab);
        a.push_input(&ba);
        loop {
            match a.recv() {
                Ok(Some(p)) => got_a.push(p),
                Ok(None) => break,
                Err(e) => {
                    err_a = Some(e);
                    break;
                },
            }
        }
        loop {
            match b.recv() {
                Ok(Some(p)) => got_b.push(p),
                Ok(None) => break,
                Err(e) => {
                    err_b = Some(e);
                    break;
                },
            }
        }
    }
    (got_a, got_b, err_a, err_b)
}

/// A connected pair with the first key exchange done.
fn connected_pair() -> (Session, Session) {
    let mut c = Session::new(Side::Client, client_id(), None);
    let mut s = Session::new(Side::Server, server_id(), Some(host_key()));
    let (ga, gb, ea, eb) = pump(&mut c, &mut s);
    assert!(ga.is_empty() && gb.is_empty(), "the handshake surfaces no payload");
    assert!(ea.is_none() && eb.is_none(), "the handshake must not fail: {ea:?} {eb:?}");
    assert!(c.session_id().is_some());
    assert_eq!(c.session_id(), s.session_id(), "both sides agree on the session identifier");
    assert_eq!(c.peer_id().as_ref().unwrap().line, server_id().line);
    assert_eq!(s.peer_id().as_ref().unwrap().line, client_id().line);
    (c, s)
}

#[test]
fn handshake_fixes_session_id() {
    let (c, s) = connected_pair();
    assert_eq!(c.session_id().unwrap().len(), 32);
    assert_eq!(c.session_id(), s.session_id());
}

#[test]
fn payloads_flow_both_ways() {
    let (mut c, mut s) = connected_pair();
    c.send(&b"\x5ahello from the client".to_vec()).unwrap();
    s.send(&b"\x5ahello from the server".to_vec()).unwrap();
    let (ga, gb, ea, eb) = pump(&mut c, &mut s);
    assert!(ea.is_none() && eb.is_none());
    assert_eq!(ga, vec![b"\x5ahello from the server".to_vec()]);
    assert_eq!(gb, vec![b"\x5ahello from the client".to_vec()]);
}

struct CountingNone {
    verdict: NoneVerdict,
    calls: u32,
}

impl NoneHandler for CountingNone {
    fn judge(&mut self, _username: &Vec<u8>) -> NoneVerdict {
        self.calls += 1;
        self.verdict
    }
}

struct CheckingPassword {
    user: Vec<u8>,
    pass: Vec<u8>,
    calls: u32,
}

impl PasswordHandler for CheckingPassword {
    fn judge(
        &mut self,
        username: &Vec<u8>,
        password: &Vec<u8>,
        _new: &Option<Vec<u8>>,
    ) -> PasswordVerdict {
        self.calls += 1;
        if *username == self.user && *password == self.pass {
            PasswordVerdict::Accept
        } else {
            PasswordVerdict::Reject
        }
    }
}

struct CheckingPublickey {
    user: Vec<u8>,
    blob: Vec<u8>,
    calls: u32,
}

impl PublickeyHandler for CheckingPublickey {
    fn judge(&mut self, username: &Vec<u8>, blob: &Vec<u8>) -> PublickeyVerdict {
        self.calls += 1;
        if *username == self.user && *blob == self.blob {
            PublickeyVerdict::Accept
        } else {
            PublickeyVerdict::Reject
        }
    }
}

/// Run the userauth conversation until the client is authorized or a side
/// fails; the server hands back the requested service name on success.
fn run_auth<N: NoneHandler, P: PasswordHandler, PK: PublickeyHandler>(
    client: &mut Session,
    server: &mut Session,
    client_auth: &mut auth_client::Auth,
    server_auth: &mut ServerAuth<N, P, PK>,
) -> (Result<(), Error>, Result<Option<Vec<u8>>, Error>) {
    let mut client_done: Result<(), Error> = Ok(());
    let mut server_service: Result<Option<Vec<u8>>, Error> = Ok(None);
    // the server owns the ssh-userauth service request
    for _ in 0..32 {
        let cs = client.take_output();
        let sc = server.take_output();
        server.push_input(&cs);
        client.push_input(&sc);
        if matches!(server_service, Ok(None)) {
            match server.handle(&b"ssh-userauth".to_vec()) {
                Ok(None) => {},
                Ok(Some(_)) => {
                    // the service request is in: now judge attempts
                    server_service = Ok(None);
                    break;
                },
                Err(e) => {
                    server_service = Err(e);
                    break;
                },
            }
        }
        match client_auth.step(client) {
            Ok(_) => {},
            Err(e) => {
                client_done = Err(e);
                break;
            },
        }
    }
    // attempts flow until success or failure
    let mut authorized = false;
    let mut accepted_service: Option<Vec<u8>> = None;
    for _ in 0..64 {
        let cs = client.take_output();
        let sc = server.take_output();
        server.push_input(&cs);
        client.push_input(&sc);
        if client_done.is_ok() && !authorized {
            match client_auth.step(client) {
                Ok(Some(())) => {
                    authorized = true;
                },
                Ok(None) => {},
                Err(e) => {
                    client_done = Err(e);
                },
            }
        }
        if server_service.is_ok() && accepted_service.is_none() {
            match server_auth.proceed(server) {
                Ok(Some(name)) => {
                    accepted_service = Some(name);
                },
                Ok(None) => {},
                Err(e) => {
                    server_service = Err(e);
                },
            }
        }
        if (authorized || client_done.is_err())
            && (accepted_service.is_some() || server_service.is_err())
        {
            break;
        }
    }
    let server_out = match server_service {
        Err(e) => Err(e),
        Ok(_) => Ok(accepted_service),
    };
    let client_out = match client_done {
        Err(e) => Err(e),
        Ok(()) => {
            if authorized {
                Ok(())
            } else {
                Err(Error::UserauthFailed)
            }
        },
    };
    (client_out, server_out)
}

#[test]
fn basic_none() {
    // the none method accepts outright; one request suffices
    let (mut c, mut s) = connected_pair();
    let mut ca = auth_client::Auth::new(b"user".to_vec());
    let mut sa = ServerAuth::new().none(CountingNone { verdict: NoneVerdict::Accept, calls: 0 });
    let (client_out, server_out) = run_auth(&mut c, &mut s, &mut ca, &mut sa);
    assert!(client_out.is_ok(), "Authentication request did not succeed");
    let service = server_out.expect("Authentication handling did not succeed");
    assert_eq!(service, Some(b"ssh-connection".to_vec()));
    assert_eq!(sa.none.calls, 1);
}

#[test]
fn none_rejected_password_accepted() {
    // two requests exactly: the none probe, then the password
    let (mut c, mut s) = connected_pair();
    let mut ca = auth_client::Auth::new(b"user".to_vec()).password(b"hunter2".to_vec());
    let mut sa = ServerAuth::new()
        .none(CountingNone { verdict: NoneVerdict::Reject, calls: 0 })
        .password(CheckingPassword { user: b"user".to_vec(), pass: b"hunter2".to_vec(), calls: 0 });
    let (client_out, server_out) = run_auth(&mut c, &mut s, &mut ca, &mut sa);
    assert!(client_out.is_ok());
    assert_eq!(server_out.unwrap(), Some(b"ssh-connection".to_vec()));
    assert_eq!(sa.none.calls, 1, "the none probe is judged once");
    assert_eq!(sa.password.calls, 1, "the password is judged once");
}

#[test]
fn publickey_query_then_signed() {
    let (mut c, mut s) = connected_pair();
    let key = host_key();
    let blob = key.public_key().to_bytes().unwrap();
    let mut ca = auth_client::Auth::new(b"user".to_vec()).publickey(key);
    let mut sa = ServerAuth::new()
        .none(CountingNone { verdict: NoneVerdict::Reject, calls: 0 })
        .publickey(CheckingPublickey { user: b"user".to_vec(), blob: blob.clone(), calls: 0 });
    let (client_out, server_out) = run_auth(&mut c, &mut s, &mut ca, &mut sa);
    assert!(client_out.is_ok(), "{client_out:?}");
    assert_eq!(server_out.unwrap(), Some(b"ssh-connection".to_vec()));
    // the handler runs only for the signed attempt, with the queried blob
    assert_eq!(sa.publickey.calls, 1);
}

#[test]
fn forged_publickey_signature_fails_without_disconnect() {
    let (mut c, mut s) = connected_pair();
    let key = host_key();
    let other = host_key();
    let blob = key.public_key().to_bytes().unwrap();
    // the client signs with a key that does not match the offered blob:
    // craft it by offering `key`'s blob while signing with `other`
    let mut ca = auth_client::Auth::new(b"user".to_vec()).publickey(other);
    let mut sa = ServerAuth::new()
        .none(CountingNone { verdict: NoneVerdict::Reject, calls: 0 })
        .publickey(CheckingPublickey { user: b"user".to_vec(), blob, calls: 0 });
    let (client_out, _server_out) = run_auth(&mut c, &mut s, &mut ca, &mut sa);
    // the wrong key is simply rejected; nobody disconnects
    assert!(matches!(client_out, Err(Error::UserauthFailed)), "{client_out:?}");
    assert!(!matches!(c.phase, assh::session::Phase::Terminated(_)));
}

#[test]
fn rekey_preserves_stream_and_session_id() {
    let (mut c, mut s) = connected_pair();
    let sid = c.session_id().unwrap();
    let chunk = vec![0x5a; 16384];
    let mut expect_at_server = Vec::new();
    for round in 0..6 {
        c.send(&chunk).unwrap();
        expect_at_server.push(chunk.clone());
        if round == 2 {
            // either side may initiate; here the client does
            c.rekey().unwrap();
        }
        if round == 4 {
            s.rekey().unwrap();
        }
        let (_, gb, ea, eb) = pump(&mut c, &mut s);
        assert!(ea.is_none() && eb.is_none(), "{ea:?} {eb:?}");
        for p in gb {
            assert_eq!(p, chunk, "no byte of payload is lost or changed");
            expect_at_server.pop();
        }
    }
    assert!(expect_at_server.is_empty(), "no payload is lost or duplicated");
    assert_eq!(c.session_id().unwrap(), sid, "the session identifier never changes");
    assert_eq!(s.session_id().unwrap(), sid);
}

#[test]
fn disconnect_by_peer_is_sticky() {
    let (mut c, mut s) = connected_pair();
    s.disconnect(DisconnectReason::ByApplication, b"bye".to_vec());
    let (_, _, ea, _) = pump(&mut c, &mut s);
    match ea {
        Some(Error::Disconnected(e)) => {
            assert_eq!(e.by, DisconnectedBy::Them);
            assert_eq!(e.reason, DisconnectReason::ByApplication);
            assert_eq!(e.description, b"bye".to_vec());
        },
        other => panic!("the client must surface the peer's disconnect, got {other:?}"),
    }
    // every later operation returns the same record
    for _ in 0..3 {
        match c.send(&b"\x5amore".to_vec()) {
            Err(Error::Disconnected(e)) => {
                assert_eq!(e.by, DisconnectedBy::Them);
                assert_eq!(e.reason, DisconnectReason::ByApplication);
                assert_eq!(e.description, b"bye".to_vec());
            },
            other => panic!("the terminal state must be sticky, got {other:?}"),
        }
        match c.recv() {
            Err(Error::Disconnected(e)) => {
                assert_eq!(e.reason, DisconnectReason::ByApplication);
            },
            other => panic!("the terminal state must be sticky, got {other:?}"),
        }
    }
}

#[test]
fn unknown_service_request_disconnects() {
    let (mut c, mut s) = connected_pair();
    c.request(&b"nonexistent".to_vec()).unwrap();
    let cs = c.take_output();
    s.push_input(&cs);
    match s.handle(&b"ssh-userauth".to_vec()) {
        Err(Error::Disconnected(e)) => {
            assert_eq!(e.by, DisconnectedBy::Us);
            assert_eq!(e.reason, DisconnectReason::ServiceNotAvailable);
        },
        other => panic!("the server must refuse the unknown service, got {other:?}"),
    }
    let (_, _, ea, _) = pump(&mut c, &mut s);
    match ea {
        Some(Error::Disconnected(e)) => {
            assert_eq!(e.by, DisconnectedBy::Them);
            assert_eq!(e.reason, DisconnectReason::ServiceNotAvailable);
        },
        other => panic!("the client must surface the disconnect, got {other:?}"),
    }
}

#[test]
fn failure_lists_exactly_the_allowed_set() {
    // publickey configured but no password: a password attempt is not in
    // the set, gets FAILURE with partial_success false, and its handler is
    // never consulted
    let (mut c, mut s) = connected_pair();
    let mut sa = ServerAuth::new()
        .none(CountingNone { verdict: NoneVerdict::Reject, calls: 0 })
        .publickey(CheckingPublickey { user: b"user".to_vec(), blob: Vec::new(), calls: 0 });
    // bring the service up by hand
    c.request(&b"ssh-userauth".to_vec()).unwrap();
    let cs = c.take_output();
    s.push_input(&cs);
    assert!(s.handle(&b"ssh-userauth".to_vec()).unwrap().is_some());
    let (_, _, ea, eb) = pump(&mut c, &mut s);
    assert!(ea.is_none() && eb.is_none());
    // a password attempt, though the method was never offered
    let req = assh::userauth::Request {
        username: b"user".to_vec(),
        service_name: b"ssh-connection".to_vec(),
        method: assh::userauth::AuthMethod::Password {
            password: b"guess".to_vec(),
            new: None,
        },
    };
    c.send(&req.encode()).unwrap();
    let cs = c.take_output();
    s.push_input(&cs);
    assert!(sa.proceed(&mut s).unwrap().is_none());
    let sc = s.take_output();
    c.push_input(&sc);
    let reply = c.recv().unwrap().expect("the failure must arrive");
    let failure = assh::userauth::parse_failure(&reply).expect("a FAILURE message");
    assert_eq!(
        failure.continue_with,
        vec![b"none".to_vec(), b"publickey".to_vec()],
        "continue_with is exactly the allowed set, in order",
    );
    assert!(!failure.partial_success);
    assert_eq!(sa.publickey.calls, 0, "the handler of an unoffered method never runs");
    // the allowed set did not change
    let names: Vec<Vec<u8>> = sa.methods.names();
    assert_eq!(names, vec![b"none".to_vec(), b"publickey".to_vec()]);
}

#[test]
fn publickey_query_requires_a_parsing_key() {
    // the PK_OK acknowledgement follows key-parse success, not the name
    // field: a garbage blob with a correct leading name is refused, a real
    // key is acknowledged
    let (mut c, mut s) = connected_pair();
    let mut sa = ServerAuth::new()
        .none(CountingNone { verdict: NoneVerdict::Reject, calls: 0 })
        .publickey(CheckingPublickey { user: b"user".to_vec(), blob: Vec::new(), calls: 0 });
    c.request(&b"ssh-userauth".to_vec()).unwrap();
    let cs = c.take_output();
    s.push_input(&cs);
    assert!(s.handle(&b"ssh-userauth".to_vec()).unwrap().is_some());
    let (_, _, ea, eb) = pump(&mut c, &mut s);
    assert!(ea.is_none() && eb.is_none());
    // a blob that names ssh-ed25519 but holds no key
    let mut bad_blob = Vec::new();
    bad_blob.extend_from_slice(&(11u32).to_be_bytes());
    bad_blob.extend_from_slice(b"ssh-ed25519");
    bad_blob.extend_from_slice(b"nonsense");
    let req = assh::userauth::Request {
        username: b"user".to_vec(),
        service_name: b"ssh-connection".to_vec(),
        method: assh::userauth::AuthMethod::Publickey {
            algorithm: b"ssh-ed25519".to_vec(),
            blob: bad_blob,
            signature: None,
        },
    };
    c.send(&req.encode()).unwrap();
    let cs = c.take_output();
    s.push_input(&cs);
    assert!(sa.proceed(&mut s).unwrap().is_none());
    let sc = s.take_output();
    c.push_input(&sc);
    let reply = c.recv().unwrap().expect("a reply must arrive");
    assert!(
        assh::userauth::parse_failure(&reply).is_some(),
        "a non-parsing blob gets FAILURE, not PK_OK",
    );
    // a real key is acknowledged with PK_OK
    let good_blob = host_key().public_key().to_bytes().unwrap();
    let req2 = assh::userauth::Request {
        username: b"user".to_vec(),
        service_name: b"ssh-connection".to_vec(),
        method: assh::userauth::AuthMethod::Publickey {
            algorithm: b"ssh-ed25519".to_vec(),
            blob: good_blob.clone(),
            signature: None,
        },
    };
    c.send(&req2.encode()).unwrap();
    let cs = c.take_output();
    s.push_input(&cs);
    assert!(sa.proceed(&mut s).unwrap().is_none());
    let sc = s.take_output();
    c.push_input(&sc);
    let reply2 = c.recv().unwrap().expect("a reply must arrive");
    let pk_ok = assh::userauth::parse_pk_ok(&reply2).expect("a parsing key gets PK_OK");
    assert_eq!(pk_ok.blob, good_blob);
}

#[test]
fn assert_session_is_send() {
    fn is_send<T: Send>() {}

    is_send::<Session>();
}

#[test]
fn assert_session_is_sync() {
    fn is_sync<T: Sync>() {}

    is_sync::<Session>();
}
