//! SSH wire-format primitives (RFC 4251 §5): big-endian `uint32`, `byte`,
//! `boolean`, length-prefixed `string`, and comma-separated `name-list`.
//!
//! Every encoder has a spec-level twin, and every reader is proved equal to a
//! spec-level parse over the same bytes, so message codecs built on top can
//! state exact contracts.

use vstd::prelude::*;

verus! {

/// The four big-endian bytes of a `uint32`.
pub open spec fn spec_u32_be(n: u32) -> Seq<u8> {
    seq![
        ((n >> 24) & 0xff) as u8,
        ((n >> 16) & 0xff) as u8,
        ((n >> 8) & 0xff) as u8,
        (n & 0xff) as u8,
    ]
}

/// The `uint32` read back from four big-endian bytes.
pub open spec fn spec_be_u32(b0: u8, b1: u8, b2: u8, b3: u8) -> u32 {
    ((b0 as u32) << 24) | ((b1 as u32) << 16) | ((b2 as u32) << 8) | (b3 as u32)
}

/// Reading the four bytes of an encoded `uint32` gives the value back.
pub proof fn lemma_u32_be_roundtrip(n: u32)
    ensures
        spec_be_u32(
            ((n >> 24) & 0xff) as u8,
            ((n >> 16) & 0xff) as u8,
            ((n >> 8) & 0xff) as u8,
            (n & 0xff) as u8,
        ) == n,
{
    assert((((((n >> 24) & 0xff) as u8) as u32) << 24) | (((((n >> 16) & 0xff) as u8) as u32)
        << 16) | (((((n >> 8) & 0xff) as u8) as u32) << 8) | (((n & 0xff) as u8) as u32) == n)
        by (bit_vector);
}


/// Append the big-endian encoding of `n` to `out`.
pub fn put_u32(out: &mut Vec<u8>, n: u32)
    ensures
        final(out)@ == old(out)@ + spec_u32_be(n),
{
    out.push(((n >> 24) & 0xff) as u8);
    out.push(((n >> 16) & 0xff) as u8);
    out.push(((n >> 8) & 0xff) as u8);
    out.push((n & 0xff) as u8);
    assert(final(out)@ =~= old(out)@ + spec_u32_be(n));
}

/// An SSH `string`: four length bytes, then the bytes themselves.
pub open spec fn spec_string(s: Seq<u8>) -> Seq<u8> {
    spec_u32_be(s.len() as u32) + s
}

/// Append the SSH `string` encoding of `s` to `out`.
pub fn put_string(out: &mut Vec<u8>, s: &Vec<u8>)
    requires
        s@.len() <= u32::MAX,
    ensures
        final(out)@ == old(out)@ + spec_string(s@),
{
    put_u32(out, s.len() as u32);
    let ghost mid = out@;
    let mut i: usize = 0;
    while i < s.len()
        invariant
            i <= s@.len(),
            out@ == mid + s@.subrange(0, i as int),
        decreases s@.len() - i,
    {
        out.push(s[i]);
        i = i + 1;
        assert(out@ =~= mid + s@.subrange(0, i as int));
    }
    assert(out@ =~= old(out)@ + spec_string(s@));
}

/// Append a single byte to `out`.
pub fn put_u8(out: &mut Vec<u8>, b: u8)
    ensures
        final(out)@ == old(out)@ + seq![b],
{
    out.push(b);
    assert(final(out)@ =~= old(out)@ + seq![b]);
}

/// An SSH `boolean`: one byte, zero for false, one for true.
pub open spec fn spec_bool(b: bool) -> Seq<u8> {
    if b {
        seq![1u8]
    } else {
        seq![0u8]
    }
}

/// Append the SSH `boolean` encoding of `b` to `out`.
pub fn put_bool(out: &mut Vec<u8>, b: bool)
    ensures
        final(out)@ == old(out)@ + spec_bool(b),
{
    if b {
        put_u8(out, 1);
    } else {
        put_u8(out, 0);
    }
}

/// A cursor over a byte buffer, reading SSH primitives front to back.
pub struct Reader<'a> {
    /// The bytes being read.
    pub buf: &'a Vec<u8>,
    /// The next unread position.
    pub pos: usize,
}

/// What reading a `uint32` at `pos` yields: the value and the new position.
pub open spec fn spec_read_u32(b: Seq<u8>, pos: int) -> Option<(u32, int)> {
    if 0 <= pos && pos + 4 <= b.len() {
        Some((spec_be_u32(b[pos], b[pos + 1], b[pos + 2], b[pos + 3]), pos + 4))
    } else {
        None
    }
}

/// What reading one byte at `pos` yields.
pub open spec fn spec_read_u8(b: Seq<u8>, pos: int) -> Option<(u8, int)> {
    if 0 <= pos && pos + 1 <= b.len() {
        Some((b[pos], pos + 1))
    } else {
        None
    }
}

/// What reading `n` raw bytes at `pos` yields.
pub open spec fn spec_read_bytes(b: Seq<u8>, pos: int, n: int) -> Option<(Seq<u8>, int)> {
    if 0 <= pos && 0 <= n && pos + n <= b.len() {
        Some((b.subrange(pos, pos + n), pos + n))
    } else {
        None
    }
}

/// What reading an SSH `string` at `pos` yields.
pub open spec fn spec_read_string(b: Seq<u8>, pos: int) -> Option<(Seq<u8>, int)> {
    match spec_read_u32(b, pos) {
        Some((n, p)) => spec_read_bytes(b, p, n as int),
        None => None,
    }
}

impl<'a> Reader<'a> {
    /// Start reading `buf` from its first byte.
    pub fn new(buf: &'a Vec<u8>) -> (r: Reader<'a>)
        ensures
            r.buf == buf,
            r.pos == 0,
    {
        Reader { buf, pos: 0 }
    }

    /// Whether every byte has been consumed.
    pub fn done(&self) -> (r: bool)
        ensures
            r == (self.pos == self.buf@.len()),
    {
        self.pos == self.buf.len()
    }

    /// Read one byte.
    pub fn read_u8(&mut self) -> (r: Option<u8>)
        ensures
            old(self).buf == final(self).buf,
            match spec_read_u8(old(self).buf@, old(self).pos as int) {
                Some((v, p)) => r == Some(v) && final(self).pos == p,
                None => r is None && final(self).pos == old(self).pos,
            },
    {
        if self.pos < self.buf.len() {
            let v = self.buf[self.pos];
            self.pos = self.pos + 1;
            Some(v)
        } else {
            None
        }
    }

    /// Read a big-endian `uint32`.
    pub fn read_u32(&mut self) -> (r: Option<u32>)
        ensures
            old(self).buf == final(self).buf,
            match spec_read_u32(old(self).buf@, old(self).pos as int) {
                Some((v, p)) => r == Some(v) && final(self).pos == p,
                None => r is None && final(self).pos == old(self).pos,
            },
    {
        if self.pos <= self.buf.len() && self.buf.len() - self.pos >= 4 {
            let b0 = self.buf[self.pos];
            let b1 = self.buf[self.pos + 1];
            let b2 = self.buf[self.pos + 2];
            let b3 = self.buf[self.pos + 3];
            self.pos = self.pos + 4;
            Some(((b0 as u32) << 24) | ((b1 as u32) << 16) | ((b2 as u32) << 8) | (b3 as u32))
        } else {
            None
        }
    }

    /// Read `n` raw bytes into a fresh vector.
    pub fn read_bytes(&mut self, n: usize) -> (r: Option<Vec<u8>>)
        ensures
            old(self).buf == final(self).buf,
            match spec_read_bytes(old(self).buf@, old(self).pos as int, n as int) {
                Some((v, p)) => r is Some && r.unwrap()@ == v && final(self).pos == p,
                None => r is None && final(self).pos == old(self).pos,
            },
    {
        let len = self.buf.len();
        if self.pos <= len && n <= len - self.pos {
            let mut v: Vec<u8> = Vec::new();
            let mut i: usize = 0;
            while i < n
                invariant
                    i <= n,
                    self.pos + n <= self.buf@.len(),
                    self.buf@.len() <= usize::MAX,
                    v@ =~= self.buf@.subrange(self.pos as int, self.pos + i as int),
                decreases n - i,
            {
                v.push(self.buf[self.pos + i]);
                i = i + 1;
                assert(v@ =~= self.buf@.subrange(self.pos as int, self.pos + i as int));
            }
            self.pos = self.pos + n;
            Some(v)
        } else {
            None
        }
    }

    /// Read an SSH `string`.
    pub fn read_string(&mut self) -> (r: Option<Vec<u8>>)
        ensures
            old(self).buf == final(self).buf,
            match spec_read_string(old(self).buf@, old(self).pos as int) {
                Some((v, p)) => r is Some && r.unwrap()@ == v && final(self).pos == p,
                None => r is None,
            },
    {
        let saved = self.pos;
        match self.read_u32() {
            Some(n) => {
                if n as usize <= self.buf.len() - self.pos {
                    self.read_bytes(n as usize)
                } else {
                    None
                }
            },
            None => None,
        }
    }
}

/// Whether two byte vectors hold the same bytes.
pub fn bytes_eq(a: &Vec<u8>, b: &Vec<u8>) -> (r: bool)
    ensures
        r == (a@ == b@),
{
    if a.len() != b.len() {
        assert(a@.len() != b@.len());
        return false;
    }
    let mut i: usize = 0;
    while i < a.len()
        invariant
            i <= a@.len(),
            a@.len() == b@.len(),
            forall|j: int| 0 <= j < i ==> a@[j] == b@[j],
        decreases a@.len() - i,
    {
        if a[i] != b[i] {
            return false;
        }
        i = i + 1;
    }
    assert(a@ =~= b@);
    true
}

/// The comma-joined payload of an SSH `name-list`.
pub open spec fn spec_nl_payload(names: Seq<Seq<u8>>) -> Seq<u8>
    decreases names.len(),
{
    if names.len() == 0 {
        Seq::empty()
    } else if names.len() == 1 {
        names[0]
    } else {
        spec_nl_payload(names.drop_last()) + seq![44u8] + names.last()
    }
}

/// An SSH `name-list`: the comma-joined names as an SSH `string`.
pub open spec fn spec_namelist(names: Seq<Seq<u8>>) -> Seq<u8> {
    spec_string(spec_nl_payload(names))
}

/// The views of a vector of byte vectors.
pub open spec fn views(names: Seq<Vec<u8>>) -> Seq<Seq<u8>> {
    names.map_values(|v: Vec<u8>| v@)
}

/// Append the SSH `name-list` encoding of `names` to `out`.
pub fn put_namelist(out: &mut Vec<u8>, names: &Vec<Vec<u8>>)
    requires
        spec_nl_payload(views(names@)).len() <= u32::MAX,
    ensures
        final(out)@ == old(out)@ + spec_namelist(views(names@)),
{
    let mut payload: Vec<u8> = Vec::new();
    let mut i: usize = 0;
    while i < names.len()
        invariant
            i <= names@.len(),
            payload@ == spec_nl_payload(views(names@).subrange(0, i as int)),
        decreases names@.len() - i,
    {
        if i > 0 {
            payload.push(44);
        }
        let mut j: usize = 0;
        let name = &names[i];
        while j < name.len()
            invariant
                j <= name@.len(),
                i < names@.len(),
                name == names@[i as int],
                payload@ == spec_nl_payload(views(names@).subrange(0, i as int)) + (if i > 0 {
                    seq![44u8]
                } else {
                    Seq::<u8>::empty()
                }) + name@.subrange(0, j as int),
            decreases name@.len() - j,
        {
            payload.push(name[j]);
            j = j + 1;
            assert(payload@ =~= spec_nl_payload(views(names@).subrange(0, i as int)) + (if i > 0 {
                seq![44u8]
            } else {
                Seq::<u8>::empty()
            }) + name@.subrange(0, j as int));
        }
        i = i + 1;
        proof {
            let vs = views(names@);
            let pre = vs.subrange(0, i as int);
            assert(pre.drop_last() =~= vs.subrange(0, i - 1));
            assert(pre.last() == name@);
            assert(name@.subrange(0, name@.len() as int) =~= name@);
            if i == 1 {
                assert(payload@ =~= spec_nl_payload(pre));
            } else {
                assert(payload@ =~= spec_nl_payload(pre));
            }
        }
    }
    assert(views(names@).subrange(0, names@.len() as int) =~= views(names@));
    put_string(out, &payload);
}

/// The items still to be produced once the split has consumed `s[..p]` and
/// holds the comma-free partial item `cur`.
pub open spec fn spec_split_names_from(s: Seq<u8>, p: int, cur: Seq<u8>) -> Seq<Seq<u8>>
    decreases s.len() - p when 0 <= p <= s.len()
{
    if p >= s.len() {
        seq![cur]
    } else if s[p] == 44 {
        seq![cur] + spec_split_names_from(s, p + 1, Seq::empty())
    } else {
        spec_split_names_from(s, p + 1, cur + seq![s[p]])
    }
}

/// The names of a comma-joined `name-list` payload: an empty payload is the
/// empty list, otherwise the comma-separated items in order.
pub open spec fn spec_split_names(s: Seq<u8>) -> Seq<Seq<u8>> {
    if s.len() == 0 {
        seq![]
    } else {
        spec_split_names_from(s, 0, Seq::empty())
    }
}

/// Split a `name-list` payload on commas.
pub fn split_names(s: &Vec<u8>) -> (r: Vec<Vec<u8>>)
    ensures
        views(r@) == spec_split_names(s@),
{
    let mut items: Vec<Vec<u8>> = Vec::new();
    let mut p: usize = 0;
    let mut cur: Vec<u8> = Vec::new();
    if s.len() == 0 {
        assert(views(items@) =~= spec_split_names(s@));
        return items;
    }
    assert(cur@ =~= Seq::<u8>::empty());
    while p < s.len()
        invariant
            p <= s@.len(),
            s@.len() > 0,
            spec_split_names(s@) == views(items@) + spec_split_names_from(s@, p as int, cur@),
        decreases s@.len() - p,
    {
        let ghost items0 = items@;
        let ghost cur0 = cur@;
        let c = s[p];
        if c == 44 {
            items.push(cur);
            cur = Vec::new();
            proof {
                assert(views(items@) =~= views(items0) + seq![cur0]);
                assert(cur@ =~= Seq::<u8>::empty());
                assert(views(items0) + (seq![cur0] + spec_split_names_from(
                    s@,
                    p + 1,
                    Seq::empty(),
                )) =~= (views(items0) + seq![cur0]) + spec_split_names_from(
                    s@,
                    p + 1,
                    Seq::empty(),
                ));
            }
        } else {
            cur.push(c);
            proof {
                assert(cur@ =~= cur0 + seq![s@[p as int]]);
            }
        }
        p = p + 1;
    }
    let ghost items0 = items@;
    let ghost cur0 = cur@;
    items.push(cur);
    proof {
        assert(views(items@) =~= views(items0) + seq![cur0]);
    }
    items
}

/// What reading an SSH `boolean` at `pos` yields.
pub open spec fn spec_read_bool(b: Seq<u8>, pos: int) -> Option<(bool, int)> {
    match spec_read_u8(b, pos) {
        Some((v, p)) => Some(((v != 0), p)),
        None => None,
    }
}

/// What reading an SSH `name-list` at `pos` yields.
pub open spec fn spec_read_namelist(b: Seq<u8>, pos: int) -> Option<(Seq<Seq<u8>>, int)> {
    match spec_read_string(b, pos) {
        Some((s, p)) => Some((spec_split_names(s), p)),
        None => None,
    }
}

impl<'a> Reader<'a> {
    /// Read an SSH `boolean`.
    pub fn read_bool(&mut self) -> (r: Option<bool>)
        ensures
            old(self).buf == final(self).buf,
            match spec_read_bool(old(self).buf@, old(self).pos as int) {
                Some((v, p)) => r == Some(v) && final(self).pos == p,
                None => r is None && final(self).pos == old(self).pos,
            },
    {
        match self.read_u8() {
            Some(v) => Some(v != 0),
            None => None,
        }
    }

    /// Read an SSH `name-list`.
    pub fn read_namelist(&mut self) -> (r: Option<Vec<Vec<u8>>>)
        ensures
            old(self).buf == final(self).buf,
            match spec_read_namelist(old(self).buf@, old(self).pos as int) {
                Some((v, p)) => r is Some && views(r.unwrap()@) == v && final(self).pos == p,
                None => r is None,
            },
    {
        match self.read_string() {
            Some(s) => Some(split_names(&s)),
            None => None,
        }
    }
}

/// A name-list of short names has a short payload.
pub proof fn lemma_nl_payload_bound(names: Seq<Seq<u8>>, each: int)
    requires
        0 <= each,
        forall|i: int| 0 <= i < names.len() ==> #[trigger] names[i].len() <= each,
    ensures
        spec_nl_payload(names).len() <= names.len() * (each + 1),
    decreases names.len(),
{
    if names.len() == 0 {
    } else if names.len() == 1 {
        assert(names[0].len() <= each);
    } else {
        lemma_nl_payload_bound(names.drop_last(), each);
        assert(names.last().len() <= each);
        let n = names.len() as int;
        assert(names.drop_last().len() == n - 1);
        assert((n - 1) * (each + 1) + (each + 1) == n * (each + 1)) by (nonlinear_arith);
    }
}



} // verus!
