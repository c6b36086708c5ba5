//! Algorithm namespaces and negotiation.
//!
//! Each KEXINIT slot is negotiated independently: the chosen algorithm is the
//! first client-preferred name that also appears in the server's list.

use vstd::prelude::*;
use crate::wire::{bytes_eq, views};

verus! {

/// SSH key-exchange algorithms: Curve25519 ECDH with a SHA-2-256 digest
/// (RFC 8731), and its pre-RFC alias.
#[derive(Clone, Copy, PartialEq, Eq, Structural, Debug)]
pub enum Kex {
    /// `curve25519-sha256`.
    Curve25519Sha256,
    /// `curve25519-sha256@libssh.org`.
    Curve25519Sha256Libssh,
}

/// SSH host-key algorithms.
#[derive(Clone, Copy, PartialEq, Eq, Structural, Debug)]
pub enum HostKey {
    /// `ssh-ed25519`.
    Ed25519,
}

/// Symmetric ciphers for packet encryption.
#[derive(Clone, Copy, PartialEq, Eq, Structural, Debug)]
pub enum Cipher {
    /// `none`: the identity cipher, in force before the first key exchange.
    NoCipher,
    /// `aes128-ctr` (RFC 4344).
    Aes128Ctr,
    /// `aes256-ctr` (RFC 4344).
    Aes256Ctr,
}

/// Message-authentication algorithms.
#[derive(Clone, Copy, PartialEq, Eq, Structural, Debug)]
pub enum Hmac {
    /// No MAC, in force before the first key exchange.
    NoMac,
    /// `hmac-sha2-256` (RFC 6668).
    HmacSha2256,
    /// `hmac-sha2-512` (RFC 6668).
    HmacSha2512,
}

/// Payload compression algorithms.
#[derive(Clone, Copy, PartialEq, Eq, Structural, Debug)]
pub enum Compress {
    /// `none`: payloads travel uncompressed.
    NoCompression,
}

/// The name of a key-exchange algorithm on the wire.
pub open spec fn spec_kex_name(k: Kex) -> Seq<u8> {
    match k {
        // curve25519-sha256
        Kex::Curve25519Sha256 => seq![
            99u8, 117u8, 114u8, 118u8, 101u8, 50u8, 53u8, 53u8, 49u8, 57u8, 45u8, 115u8, 104u8,
            97u8, 50u8, 53u8, 54u8,
        ],
        // curve25519-sha256@libssh.org
        Kex::Curve25519Sha256Libssh => seq![
            99u8, 117u8, 114u8, 118u8, 101u8, 50u8, 53u8, 53u8, 49u8, 57u8, 45u8, 115u8, 104u8,
            97u8, 50u8, 53u8, 54u8, 64u8, 108u8, 105u8, 98u8, 115u8, 115u8, 104u8, 46u8, 111u8,
            114u8, 103u8,
        ],
    }
}

/// Encode the name of a key-exchange algorithm.
pub fn kex_name(k: Kex) -> (r: Vec<u8>)
    ensures
        r@ == spec_kex_name(k),
{
    match k {
        Kex::Curve25519Sha256 => {
            let v = vec![
                99u8, 117u8, 114u8, 118u8, 101u8, 50u8, 53u8, 53u8, 49u8, 57u8, 45u8, 115u8,
                104u8, 97u8, 50u8, 53u8, 54u8,
            ];
            assert(v@ =~= spec_kex_name(k));
            v
        },
        Kex::Curve25519Sha256Libssh => {
            let v = vec![
                99u8, 117u8, 114u8, 118u8, 101u8, 50u8, 53u8, 53u8, 49u8, 57u8, 45u8, 115u8,
                104u8, 97u8, 50u8, 53u8, 54u8, 64u8, 108u8, 105u8, 98u8, 115u8, 115u8, 104u8,
                46u8, 111u8, 114u8, 103u8,
            ];
            assert(v@ =~= spec_kex_name(k));
            v
        },
    }
}

/// The key-exchange algorithm a name stands for, if any.
pub open spec fn spec_kex_of_name(n: Seq<u8>) -> Option<Kex> {
    if n == spec_kex_name(Kex::Curve25519Sha256) {
        Some(Kex::Curve25519Sha256)
    } else if n == spec_kex_name(Kex::Curve25519Sha256Libssh) {
        Some(Kex::Curve25519Sha256Libssh)
    } else {
        None
    }
}

/// Decode the name of a key-exchange algorithm.
pub fn kex_of_name(n: &Vec<u8>) -> (r: Option<Kex>)
    ensures
        r == spec_kex_of_name(n@),
{
    if bytes_eq(n, &kex_name(Kex::Curve25519Sha256)) {
        Some(Kex::Curve25519Sha256)
    } else if bytes_eq(n, &kex_name(Kex::Curve25519Sha256Libssh)) {
        Some(Kex::Curve25519Sha256Libssh)
    } else {
        None
    }
}

/// The name of a host-key algorithm on the wire.
pub open spec fn spec_hostkey_name(h: HostKey) -> Seq<u8> {
    match h {
        // ssh-ed25519
        HostKey::Ed25519 => seq![115u8, 115u8, 104u8, 45u8, 101u8, 100u8, 50u8, 53u8, 53u8, 49u8, 57u8],
    }
}

/// Encode the name of a host-key algorithm.
pub fn hostkey_name(h: HostKey) -> (r: Vec<u8>)
    ensures
        r@ == spec_hostkey_name(h),
{
    let v = vec![115u8, 115u8, 104u8, 45u8, 101u8, 100u8, 50u8, 53u8, 53u8, 49u8, 57u8];
    assert(v@ =~= spec_hostkey_name(h));
    v
}

/// The host-key algorithm a name stands for, if any.
pub open spec fn spec_hostkey_of_name(n: Seq<u8>) -> Option<HostKey> {
    if n == spec_hostkey_name(HostKey::Ed25519) {
        Some(HostKey::Ed25519)
    } else {
        None
    }
}

/// Decode the name of a host-key algorithm.
pub fn hostkey_of_name(n: &Vec<u8>) -> (r: Option<HostKey>)
    ensures
        r == spec_hostkey_of_name(n@),
{
    if bytes_eq(n, &hostkey_name(HostKey::Ed25519)) {
        Some(HostKey::Ed25519)
    } else {
        None
    }
}

/// The name of a cipher on the wire.
pub open spec fn spec_cipher_name(c: Cipher) -> Seq<u8> {
    match c {
        // none
        Cipher::NoCipher => seq![110u8, 111u8, 110u8, 101u8],
        // aes128-ctr
        Cipher::Aes128Ctr => seq![97u8, 101u8, 115u8, 49u8, 50u8, 56u8, 45u8, 99u8, 116u8, 114u8],
        // aes256-ctr
        Cipher::Aes256Ctr => seq![97u8, 101u8, 115u8, 50u8, 53u8, 54u8, 45u8, 99u8, 116u8, 114u8],
    }
}

/// Encode the name of a cipher.
pub fn cipher_name(c: Cipher) -> (r: Vec<u8>)
    ensures
        r@ == spec_cipher_name(c),
{
    match c {
        Cipher::NoCipher => {
            let v = vec![110u8, 111u8, 110u8, 101u8];
            assert(v@ =~= spec_cipher_name(c));
            v
        },
        Cipher::Aes128Ctr => {
            let v = vec![97u8, 101u8, 115u8, 49u8, 50u8, 56u8, 45u8, 99u8, 116u8, 114u8];
            assert(v@ =~= spec_cipher_name(c));
            v
        },
        Cipher::Aes256Ctr => {
            let v = vec![97u8, 101u8, 115u8, 50u8, 53u8, 54u8, 45u8, 99u8, 116u8, 114u8];
            assert(v@ =~= spec_cipher_name(c));
            v
        },
    }
}

/// The cipher a name stands for, if any.
pub open spec fn spec_cipher_of_name(n: Seq<u8>) -> Option<Cipher> {
    if n == spec_cipher_name(Cipher::NoCipher) {
        Some(Cipher::NoCipher)
    } else if n == spec_cipher_name(Cipher::Aes128Ctr) {
        Some(Cipher::Aes128Ctr)
    } else if n == spec_cipher_name(Cipher::Aes256Ctr) {
        Some(Cipher::Aes256Ctr)
    } else {
        None
    }
}

/// Decode the name of a cipher.
pub fn cipher_of_name(n: &Vec<u8>) -> (r: Option<Cipher>)
    ensures
        r == spec_cipher_of_name(n@),
{
    if bytes_eq(n, &cipher_name(Cipher::NoCipher)) {
        Some(Cipher::NoCipher)
    } else if bytes_eq(n, &cipher_name(Cipher::Aes128Ctr)) {
        Some(Cipher::Aes128Ctr)
    } else if bytes_eq(n, &cipher_name(Cipher::Aes256Ctr)) {
        Some(Cipher::Aes256Ctr)
    } else {
        None
    }
}

/// The name of a MAC algorithm on the wire.
pub open spec fn spec_hmac_name(m: Hmac) -> Seq<u8> {
    match m {
        // none
        Hmac::NoMac => seq![110u8, 111u8, 110u8, 101u8],
        // hmac-sha2-256
        Hmac::HmacSha2256 => seq![
            104u8, 109u8, 97u8, 99u8, 45u8, 115u8, 104u8, 97u8, 50u8, 45u8, 50u8, 53u8, 54u8,
        ],
        // hmac-sha2-512
        Hmac::HmacSha2512 => seq![
            104u8, 109u8, 97u8, 99u8, 45u8, 115u8, 104u8, 97u8, 50u8, 45u8, 53u8, 49u8, 50u8,
        ],
    }
}

/// Encode the name of a MAC algorithm.
pub fn hmac_name(m: Hmac) -> (r: Vec<u8>)
    ensures
        r@ == spec_hmac_name(m),
{
    match m {
        Hmac::NoMac => {
            let v = vec![110u8, 111u8, 110u8, 101u8];
            assert(v@ =~= spec_hmac_name(m));
            v
        },
        Hmac::HmacSha2256 => {
            let v = vec![
                104u8, 109u8, 97u8, 99u8, 45u8, 115u8, 104u8, 97u8, 50u8, 45u8, 50u8, 53u8, 54u8,
            ];
            assert(v@ =~= spec_hmac_name(m));
            v
        },
        Hmac::HmacSha2512 => {
            let v = vec![
                104u8, 109u8, 97u8, 99u8, 45u8, 115u8, 104u8, 97u8, 50u8, 45u8, 53u8, 49u8, 50u8,
            ];
            assert(v@ =~= spec_hmac_name(m));
            v
        },
    }
}

/// The MAC algorithm a name stands for, if any.
pub open spec fn spec_hmac_of_name(n: Seq<u8>) -> Option<Hmac> {
    if n == spec_hmac_name(Hmac::HmacSha2256) {
        Some(Hmac::HmacSha2256)
    } else if n == spec_hmac_name(Hmac::HmacSha2512) {
        Some(Hmac::HmacSha2512)
    } else {
        None
    }
}

/// Decode the name of a MAC algorithm.
pub fn hmac_of_name(n: &Vec<u8>) -> (r: Option<Hmac>)
    ensures
        r == spec_hmac_of_name(n@),
{
    if bytes_eq(n, &hmac_name(Hmac::HmacSha2256)) {
        Some(Hmac::HmacSha2256)
    } else if bytes_eq(n, &hmac_name(Hmac::HmacSha2512)) {
        Some(Hmac::HmacSha2512)
    } else {
        None
    }
}

/// The name of a compression algorithm on the wire.
pub open spec fn spec_compress_name(c: Compress) -> Seq<u8> {
    match c {
        // none
        Compress::NoCompression => seq![110u8, 111u8, 110u8, 101u8],
    }
}

/// Encode the name of a compression algorithm.
pub fn compress_name(c: Compress) -> (r: Vec<u8>)
    ensures
        r@ == spec_compress_name(c),
{
    let v = vec![110u8, 111u8, 110u8, 101u8];
    assert(v@ =~= spec_compress_name(c));
    v
}

/// The compression algorithm a name stands for, if any.
pub open spec fn spec_compress_of_name(n: Seq<u8>) -> Option<Compress> {
    if n == spec_compress_name(Compress::NoCompression) {
        Some(Compress::NoCompression)
    } else {
        None
    }
}

/// Decode the name of a compression algorithm.
pub fn compress_of_name(n: &Vec<u8>) -> (r: Option<Compress>)
    ensures
        r == spec_compress_of_name(n@),
{
    if bytes_eq(n, &compress_name(Compress::NoCompression)) {
        Some(Compress::NoCompression)
    } else {
        None
    }
}

impl Cipher {
    /// The cipher's block size, floored at eight for padding purposes
    /// (RFC 4253 §6).
    pub open spec fn spec_block_size(self) -> usize {
        match self {
            Cipher::NoCipher => 8,
            Cipher::Aes128Ctr => 16,
            Cipher::Aes256Ctr => 16,
        }
    }

    /// The cipher's block size.
    pub fn block_size(self) -> (r: usize)
        ensures
            r == self.spec_block_size(),
    {
        match self {
            Cipher::NoCipher => 8,
            Cipher::Aes128Ctr => 16,
            Cipher::Aes256Ctr => 16,
        }
    }

    /// How many key bytes the cipher takes.
    pub open spec fn spec_key_size(self) -> usize {
        match self {
            Cipher::NoCipher => 0,
            Cipher::Aes128Ctr => 16,
            Cipher::Aes256Ctr => 32,
        }
    }

    /// How many key bytes the cipher takes.
    pub fn key_size(self) -> (r: usize)
        ensures
            r == self.spec_key_size(),
    {
        match self {
            Cipher::NoCipher => 0,
            Cipher::Aes128Ctr => 16,
            Cipher::Aes256Ctr => 32,
        }
    }

    /// How many IV bytes the cipher takes.
    pub open spec fn spec_iv_size(self) -> usize {
        match self {
            Cipher::NoCipher => 0,
            Cipher::Aes128Ctr => 16,
            Cipher::Aes256Ctr => 16,
        }
    }

    /// How many IV bytes the cipher takes.
    pub fn iv_size(self) -> (r: usize)
        ensures
            r == self.spec_iv_size(),
    {
        match self {
            Cipher::NoCipher => 0,
            Cipher::Aes128Ctr => 16,
            Cipher::Aes256Ctr => 16,
        }
    }

    /// Whether key material is installed: everything but the identity cipher.
    pub open spec fn spec_is_some(self) -> bool {
        self != Cipher::NoCipher
    }

    /// Whether key material is installed.
    pub fn is_some(self) -> (r: bool)
        ensures
            r == self.spec_is_some(),
    {
        match self {
            Cipher::NoCipher => false,
            _ => true,
        }
    }
}

impl Hmac {
    /// The MAC tag length in bytes.
    pub open spec fn spec_size(self) -> usize {
        match self {
            Hmac::NoMac => 0,
            Hmac::HmacSha2256 => 32,
            Hmac::HmacSha2512 => 64,
        }
    }

    /// The MAC tag length in bytes.
    pub fn size(self) -> (r: usize)
        ensures
            r == self.spec_size(),
    {
        match self {
            Hmac::NoMac => 0,
            Hmac::HmacSha2256 => 32,
            Hmac::HmacSha2512 => 64,
        }
    }

    /// How many integrity-key bytes the MAC takes.
    pub open spec fn spec_key_size(self) -> usize {
        match self {
            Hmac::NoMac => 0,
            Hmac::HmacSha2256 => 32,
            Hmac::HmacSha2512 => 64,
        }
    }

    /// How many integrity-key bytes the MAC takes.
    pub fn key_size(self) -> (r: usize)
        ensures
            r == self.spec_key_size(),
    {
        match self {
            Hmac::NoMac => 0,
            Hmac::HmacSha2256 => 32,
            Hmac::HmacSha2512 => 64,
        }
    }
}

/// The first client-preferred name that also appears in the server's list.
pub open spec fn spec_first_common(c: Seq<Seq<u8>>, s: Seq<Seq<u8>>) -> Option<Seq<u8>>
    decreases c.len(),
{
    if c.len() == 0 {
        None
    } else if s.contains(c[0]) {
        Some(c[0])
    } else {
        spec_first_common(c.drop_first(), s)
    }
}

/// Whether `l` holds a name with the same bytes as `x`.
pub fn contains_name(l: &Vec<Vec<u8>>, x: &Vec<u8>) -> (r: bool)
    ensures
        r == views(l@).contains(x@),
{
    let mut i: usize = 0;
    while i < l.len()
        invariant
            i <= l@.len(),
            forall|j: int| 0 <= j < i ==> views(l@)[j] != x@,
        decreases l@.len() - i,
    {
        if bytes_eq(&l[i], x) {
            assert(views(l@)[i as int] == x@);
            return true;
        }
        i = i + 1;
    }
    assert(!views(l@).contains(x@)) by {
        if views(l@).contains(x@) {
            let j = choose|j: int| 0 <= j < views(l@).len() && views(l@)[j] == x@;
            assert(views(l@)[j] != x@);
        }
    }
    false
}

/// Pick the first client-preferred name that the server also lists.
pub fn first_common(c: &Vec<Vec<u8>>, s: &Vec<Vec<u8>>) -> (r: Option<Vec<u8>>)
    ensures
        match r {
            Some(v) => spec_first_common(views(c@), views(s@)) == Some(v@),
            None => spec_first_common(views(c@), views(s@)) is None,
        },
{
    let mut i: usize = 0;
    assert(views(c@).subrange(0, c@.len() as int) =~= views(c@));
    while i < c.len()
        invariant
            i <= c@.len(),
            spec_first_common(views(c@), views(s@)) == spec_first_common(
                views(c@).subrange(i as int, c@.len() as int),
                views(s@),
            ),
        decreases c@.len() - i,
    {
        let ghost rem = views(c@).subrange(i as int, c@.len() as int);
        if contains_name(s, &c[i]) {
            assert(rem[0] == views(c@)[i as int]);
            return Some(c[i].clone());
        }
        assert(rem[0] == views(c@)[i as int]);
        assert(rem.drop_first() =~= views(c@).subrange(i + 1 as int, c@.len() as int));
        i = i + 1;
    }
    assert(views(c@).subrange(i as int, c@.len() as int) =~= Seq::<Seq<u8>>::empty());
    None
}

/// Negotiation picks, in every slot independently, the first client-preferred
/// algorithm that the server also lists; when the intersection is empty it
/// picks nothing.
pub proof fn lemma_first_common_correct(c: Seq<Seq<u8>>, s: Seq<Seq<u8>>)
    ensures
        match spec_first_common(c, s) {
            Some(x) => exists|i: int|
                0 <= i < c.len() && c[i] == x && s.contains(x) && (forall|j: int|
                    0 <= j < i ==> !s.contains(c[j])),
            None => forall|i: int| 0 <= i < c.len() ==> !s.contains(c[i]),
        },
    decreases c.len(),
{
    if c.len() == 0 {
    } else if s.contains(c[0]) {
        assert(0 <= 0 < c.len() && c[0] == c[0] && s.contains(c[0]) && (forall|j: int|
            0 <= j < 0 ==> !s.contains(c[j])));
    } else {
        lemma_first_common_correct(c.drop_first(), s);
        let cc = c.drop_first();
        match spec_first_common(cc, s) {
            Some(x) => {
                let i = choose|i: int|
                    0 <= i < cc.len() && cc[i] == x && s.contains(x) && (forall|j: int|
                        0 <= j < i ==> !s.contains(cc[j]));
                assert(c[i + 1] == cc[i]);
                assert forall|j: int| 0 <= j < i + 1 implies !s.contains(c[j]) by {
                    if j > 0 {
                        assert(c[j] == cc[j - 1]);
                    }
                }
            },
            None => {
                assert forall|i: int| 0 <= i < c.len() implies !s.contains(c[i]) by {
                    if i > 0 {
                        assert(c[i] == cc[i - 1]);
                    }
                }
            },
        }
    }
}

} // verus!
