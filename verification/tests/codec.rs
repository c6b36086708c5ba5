use assh::algo::{first_common, Cipher, Hmac};
use assh::ident::{parse_id, Id, ParsedId};
use assh::keys::{derive_key, mpint_positive, KeyChain};
use assh::mac::{hmac, hmac_verify, HashAlg};
use assh::stream::Stream;
use assh::transport::{CipherState, Transport, TransportPair};
use assh::wire::{put_namelist, put_string, put_u32, split_names, Reader};
use assh::Error;

#[test]
fn u32_string_roundtrip() {
    let mut out = Vec::new();
    put_u32(&mut out, 0xdeadbeef);
    put_string(&mut out, &b"hello".to_vec());
    let mut rd = Reader::new(&out);
    assert_eq!(rd.read_u32(), Some(0xdeadbeef));
    assert_eq!(rd.read_string(), Some(b"hello".to_vec()));
    assert!(rd.done());
}

#[test]
fn namelist_roundtrip() {
    let names = vec![b"curve25519-sha256".to_vec(), b"ssh-ed25519".to_vec()];
    let mut out = Vec::new();
    put_namelist(&mut out, &names);
    let mut rd = Reader::new(&out);
    let payload = rd.read_string().unwrap();
    assert_eq!(payload, b"curve25519-sha256,ssh-ed25519".to_vec());
    assert_eq!(split_names(&payload), names);
    // the empty list is the empty payload
    assert_eq!(split_names(&Vec::new()), Vec::<Vec<u8>>::new());
}

#[test]
fn id_exchange_roundtrip() {
    let id = Id::new(b"SSH-2.0-assh_0.1.0 with comments".to_vec()).unwrap();
    let mut wire = id.encoded();
    wire.extend_from_slice(b"leftover");
    match parse_id(&wire) {
        ParsedId::Parsed(back, used) => {
            assert_eq!(back.line, id.line);
            assert_eq!(used, id.line.len() + 2);
        },
        _ => panic!("the identification line did not parse back"),
    }
}

#[test]
fn id_rejects_long_and_unterminated() {
    assert!(Id::new(vec![b'a'; 254]).is_none());
    assert!(Id::new(b"bad\r\nline".to_vec()).is_none());
    // no LF in 255 or more buffered bytes is hopeless
    match parse_id(&vec![b'x'; 255]) {
        ParsedId::Bad => {},
        _ => panic!("an overlong line must be refused"),
    }
    // a short buffer without LF just wants more bytes
    match parse_id(&b"SSH-2.0-partial".to_vec()) {
        ParsedId::NeedMore => {},
        _ => panic!("a partial line is not an error"),
    }
}

#[test]
fn negotiation_picks_first_client_preference() {
    let client = vec![b"aes256-ctr".to_vec(), b"aes128-ctr".to_vec(), b"none".to_vec()];
    let server = vec![b"aes128-ctr".to_vec(), b"aes256-ctr".to_vec()];
    // the first client-preferred name in the server's list, per slot
    assert_eq!(first_common(&client, &server), Some(b"aes256-ctr".to_vec()));
    let server2 = vec![b"none".to_vec()];
    assert_eq!(first_common(&client, &server2), Some(b"none".to_vec()));
    let server3 = vec![b"chacha20-poly1305@openssh.com".to_vec()];
    assert_eq!(first_common(&client, &server3), None);
}

#[test]
fn mpint_encoding() {
    // leading zeros are dropped
    assert_eq!(mpint_positive(&vec![0, 0, 1, 2]), vec![0, 0, 0, 2, 1, 2]);
    // a set top bit gets a zero byte so the number stays positive
    assert_eq!(mpint_positive(&vec![0x80]), vec![0, 0, 0, 2, 0, 0x80]);
    // zero is the empty mpint
    assert_eq!(mpint_positive(&vec![0, 0]), vec![0, 0, 0, 0]);
}

#[test]
fn key_derivation_deterministic_and_sized() {
    let k = mpint_positive(&vec![7u8; 32]);
    let h = vec![9u8; 32];
    let sid = vec![9u8; 32];
    for needed in [16usize, 32, 48, 64, 100] {
        let a = derive_key(&k, &h, 65, &sid, needed);
        let b = derive_key(&k, &h, 65, &sid, needed);
        assert_eq!(a, b, "the derivation must be deterministic");
        assert_eq!(a.len(), needed, "the derivation must cover the requested length");
    }
    // different labels give different material
    let a = derive_key(&k, &h, 65, &sid, 32);
    let b = derive_key(&k, &h, 66, &sid, 32);
    assert_ne!(a, b);
    // a longer request extends a shorter one
    let short = derive_key(&k, &h, 67, &sid, 16);
    let long = derive_key(&k, &h, 67, &sid, 64);
    assert_eq!(&long[..16], &short[..]);
}

#[test]
fn hmac_verifies_its_own_tag() {
    let key = vec![0x0bu8; 32];
    let msg = b"Hi There".to_vec();
    let tag = hmac(HashAlg::Sha256, &key, &msg);
    assert_eq!(tag.len(), 32);
    assert!(hmac_verify(HashAlg::Sha256, &key, &msg, &tag));
    let mut bad = tag.clone();
    bad[0] ^= 1;
    assert!(!hmac_verify(HashAlg::Sha256, &key, &msg, &bad));
    let tag512 = hmac(HashAlg::Sha512, &key, &msg);
    assert_eq!(tag512.len(), 64);
}

#[test]
fn hmac_sha256_known_answer() {
    // RFC 4231 test case 2: key "Jefe", data "what do ya want for nothing?"
    let key = b"Jefe".to_vec();
    let msg = b"what do ya want for nothing?".to_vec();
    let tag = hmac(HashAlg::Sha256, &key, &msg);
    let expect = [
        0x5bu8, 0xdc, 0xc1, 0x46, 0xbf, 0x60, 0x75, 0x4e, 0x6a, 0x04, 0x24, 0x26, 0x08, 0x95,
        0x75, 0xc7, 0x5a, 0x00, 0x3f, 0x08, 0x9d, 0x27, 0x39, 0x83, 0x9d, 0xec, 0x58, 0xb9,
        0x64, 0xec, 0x38, 0x43,
    ];
    assert_eq!(tag, expect.to_vec());
}

fn keyed_transport(cipher: Cipher, mac: Hmac, seed: u8) -> Transport {
    let key_size = match cipher {
        Cipher::NoCipher => 0,
        Cipher::Aes128Ctr => 16,
        Cipher::Aes256Ctr => 32,
    };
    let iv_size = match cipher {
        Cipher::NoCipher => 0,
        _ => 16,
    };
    let mac_size = match mac {
        Hmac::NoMac => 0,
        Hmac::HmacSha2256 => 32,
        Hmac::HmacSha2512 => 64,
    };
    Transport {
        chain: KeyChain {
            iv: vec![seed; iv_size],
            key: vec![seed.wrapping_add(1); key_size],
            hmac: vec![seed.wrapping_add(2); mac_size],
        },
        state: if cipher != Cipher::NoCipher { Some(CipherState { offset: 0 }) } else { None },
        cipher,
        hmac: mac,
        compress: assh::algo::Compress::NoCompression,
    }
}

fn matched_streams(cipher: Cipher, mac: Hmac) -> (Stream, Stream) {
    let mut a = Stream::new();
    let mut b = Stream::new();
    a.install(TransportPair {
        rx: keyed_transport(cipher, mac, 100),
        tx: keyed_transport(cipher, mac, 7),
    });
    b.install(TransportPair {
        rx: keyed_transport(cipher, mac, 7),
        tx: keyed_transport(cipher, mac, 100),
    });
    (a, b)
}

#[test]
fn packet_roundtrip_under_every_suite() {
    for (cipher, mac) in [
        (Cipher::NoCipher, Hmac::NoMac),
        (Cipher::NoCipher, Hmac::HmacSha2256),
        (Cipher::Aes128Ctr, Hmac::HmacSha2256),
        (Cipher::Aes128Ctr, Hmac::HmacSha2512),
        (Cipher::Aes256Ctr, Hmac::HmacSha2256),
        (Cipher::Aes256Ctr, Hmac::HmacSha2512),
    ] {
        let (mut a, mut b) = matched_streams(cipher, mac);
        let payloads: Vec<Vec<u8>> =
            vec![b"first".to_vec(), Vec::new(), vec![0xa5; 32768], b"last".to_vec()];
        let mut wire = Vec::new();
        for p in &payloads {
            wire.extend_from_slice(&a.send_packet(p));
        }
        let mut buf = wire;
        for p in &payloads {
            let got = b.recv_packet(&mut buf).expect("the packet must verify");
            assert_eq!(got.as_ref(), Some(p), "payloads come back exactly, in order");
        }
        assert!(buf.is_empty());
        assert_eq!(a.tx_seq, payloads.len() as u32);
        assert_eq!(b.rx_seq, payloads.len() as u32);
    }
}

#[test]
fn tampered_packet_is_refused() {
    let (mut a, mut b) = matched_streams(Cipher::Aes128Ctr, Hmac::HmacSha2256);
    let wire = a.send_packet(&b"sensitive".to_vec());
    // flip one byte somewhere in the middle
    for idx in [0usize, 2, 8, wire.len() - 1] {
        let mut probe = b.clone();
        let mut buf = wire.clone();
        buf[idx] ^= 0x40;
        // no payload may come out: the packet is refused, or the garbled
        // length leaves the engine waiting for bytes that never arrive
        match probe.recv_packet(&mut buf) {
            Err(Error::MacMismatch) | Err(Error::MalformedPacket) | Ok(None) => {},
            other => panic!("a tampered byte must be refused, got {other:?}"),
        }
    }
    // untouched, it still verifies
    let mut buf = wire.clone();
    assert_eq!(b.recv_packet(&mut buf).unwrap(), Some(b"sensitive".to_vec()));
}

#[test]
fn tampered_length_prefix_is_refused() {
    let (mut a, mut b) = matched_streams(Cipher::NoCipher, Hmac::HmacSha2256);
    let wire = a.send_packet(&b"payload".to_vec());
    // a length beyond the protocol cap is malformed before any MAC check
    let mut buf = wire.clone();
    buf[0] = 0xff;
    assert!(matches!(b.recv_packet(&mut buf), Err(Error::MalformedPacket)));
    // a subtly changed length upsets the MAC or the framing
    let mut buf2 = wire.clone();
    buf2[3] ^= 0x08;
    match b.recv_packet(&mut buf2) {
        Err(Error::MacMismatch) | Err(Error::MalformedPacket) | Ok(None) => {},
        other => panic!("a tampered length must never deliver a payload, got {other:?}"),
    }
}

#[test]
fn sequence_numbers_survive_rekey() {
    let (mut a, mut b) = matched_streams(Cipher::Aes128Ctr, Hmac::HmacSha2256);
    let mut buf = Vec::new();
    buf.extend_from_slice(&a.send_packet(&b"one".to_vec()));
    b.recv_packet(&mut buf).unwrap();
    let (tx_before, rx_before) = (a.tx_seq, b.rx_seq);
    // a rekey swaps the pair but leaves both counters alone
    a.install(TransportPair {
        rx: keyed_transport(Cipher::Aes256Ctr, Hmac::HmacSha2512, 50),
        tx: keyed_transport(Cipher::Aes256Ctr, Hmac::HmacSha2512, 60),
    });
    b.install(TransportPair {
        rx: keyed_transport(Cipher::Aes256Ctr, Hmac::HmacSha2512, 60),
        tx: keyed_transport(Cipher::Aes256Ctr, Hmac::HmacSha2512, 50),
    });
    assert_eq!(a.tx_seq, tx_before);
    assert_eq!(b.rx_seq, rx_before);
    let mut buf = Vec::new();
    buf.extend_from_slice(&a.send_packet(&b"two".to_vec()));
    assert_eq!(b.recv_packet(&mut buf).unwrap(), Some(b"two".to_vec()));
    assert_eq!(a.tx_seq, tx_before + 1);
    assert_eq!(b.rx_seq, rx_before + 1);
}

#[test]
fn session_id_is_fixed_at_first_exchange() {
    let mut s = Stream::new();
    assert!(s.session_id.is_none());
    let first = vec![1u8; 32];
    let second = vec![2u8; 32];
    assert_eq!(s.with_session(&first), first);
    // a later exchange hash never replaces the first
    assert_eq!(s.with_session(&second), first);
    assert_eq!(s.with_session(&second), first);
}
