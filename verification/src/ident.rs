//! The SSH identification string (RFC 4253 §4.2): a single line
//! `SSH-2.0-<software>[ <comments>]` sent by each side at connection start,
//! terminated by CRLF and bounded to 255 bytes including the CRLF.

use vstd::prelude::*;
use crate::wire::Reader;

verus! {

/// An identification string, kept without its trailing CRLF.
///
/// It is retained for the whole session because it feeds the exchange hash.
#[derive(Clone, Debug)]
pub struct Id {
    /// The line without CRLF, at most 253 bytes, free of CR and LF.
    pub line: Vec<u8>,
}

impl Id {
    /// Well-formedness: short enough to fit the 255-byte bound with CRLF,
    /// and free of line terminators.
    pub open spec fn wf(self) -> bool {
        &&& self.line@.len() <= 253
        &&& forall|i: int|
            0 <= i < self.line@.len() ==> self.line@[i] != 13 && self.line@[i] != 10
    }

    /// The bytes that go over the wire: the line followed by CRLF.
    pub open spec fn spec_encoded(self) -> Seq<u8> {
        self.line@ + seq![13u8, 10u8]
    }

    /// Build an identification string, rejecting one that is too long or
    /// holds a line terminator.
    pub fn new(line: Vec<u8>) -> (r: Option<Id>)
        ensures
            match r {
                Some(id) => id.wf() && id.line == line,
                None => !(Id { line }).wf(),
            },
    {
        if line.len() > 253 {
            return None;
        }
        let mut i: usize = 0;
        while i < line.len()
            invariant
                i <= line@.len(),
                forall|j: int| 0 <= j < i ==> line@[j] != 13 && line@[j] != 10,
            decreases line@.len() - i,
        {
            if line[i] == 13 || line[i] == 10 {
                return None;
            }
            i = i + 1;
        }
        Some(Id { line })
    }

    /// Encode the identification line with its CRLF terminator.
    pub fn encoded(&self) -> (r: Vec<u8>)
        ensures
            r@ == self.spec_encoded(),
    {
        let mut out: Vec<u8> = Vec::new();
        let mut i: usize = 0;
        while i < self.line.len()
            invariant
                i <= self.line@.len(),
                out@ =~= self.line@.subrange(0, i as int),
            decreases self.line@.len() - i,
        {
            out.push(self.line[i]);
            i = i + 1;
            assert(out@ =~= self.line@.subrange(0, i as int));
        }
        out.push(13);
        out.push(10);
        assert(out@ =~= self.spec_encoded());
        out
    }
}

/// The position of the first LF at or after `i`, if any.
pub open spec fn spec_find_lf(b: Seq<u8>, i: int) -> Option<int>
    decreases b.len() - i when 0 <= i <= b.len()
{
    if i >= b.len() {
        None
    } else if b[i] == 10 {
        Some(i)
    } else {
        spec_find_lf(b, i + 1)
    }
}

/// The spec-level outcome of parsing an identification line.
pub enum SpecIdParse {
    /// No full line yet and the bound is not exceeded: feed more bytes.
    NeedMore,
    /// The line breaks the rules: over 255 bytes with CRLF, not
    /// CRLF-terminated, or a CR inside the line.
    Bad,
    /// The line and the count of bytes consumed, CRLF included.
    Parsed(Seq<u8>, int),
}

/// What parsing an identification line from the front of `b` yields:
/// everything before the first LF, which must be CR-terminated, at most
/// 253 bytes long before the CR, and free of CR itself.
pub open spec fn spec_parse_id(b: Seq<u8>) -> SpecIdParse {
    match spec_find_lf(b, 0) {
        None => if b.len() >= 255 {
            SpecIdParse::Bad
        } else {
            SpecIdParse::NeedMore
        },
        Some(k) => if k >= 1 && b[k - 1] == 13 && k - 1 <= 253 && (forall|j: int|
            0 <= j < k - 1 ==> b[j] != 13) {
            SpecIdParse::Parsed(b.subrange(0, k - 1), k + 1)
        } else {
            SpecIdParse::Bad
        },
    }
}

/// The outcome of [`parse_id`].
pub enum ParsedId {
    /// No full line yet and the bound is not exceeded: feed more bytes.
    NeedMore,
    /// The line breaks the rules.
    Bad,
    /// The parsed line and the number of bytes consumed, CRLF included.
    Parsed(Id, usize),
}

/// Parse an identification line from the front of `buf`.
pub fn parse_id(buf: &Vec<u8>) -> (r: ParsedId)
    ensures
        match r {
            ParsedId::NeedMore => spec_parse_id(buf@) is NeedMore,
            ParsedId::Bad => spec_parse_id(buf@) is Bad,
            ParsedId::Parsed(id, used) => {
                &&& spec_parse_id(buf@) == SpecIdParse::Parsed(id.line@, used as int)
                &&& id.wf()
                &&& 2 <= used <= buf@.len()
            },
        },
{
    let mut i: usize = 0;
    while i < buf.len()
        invariant
            i <= buf@.len(),
            spec_find_lf(buf@, 0) == spec_find_lf(buf@, i as int),
            forall|j: int| 0 <= j < i ==> buf@[j] != 10,
        decreases buf@.len() - i,
    {
        if buf[i] == 10 {
            assert(spec_find_lf(buf@, i as int) == Some(i as int));
            if i < 1 || i - 1 > 253 {
                return ParsedId::Bad;
            }
            if buf[i - 1] != 13 {
                return ParsedId::Bad;
            }
            // scan the line itself for a stray CR
            let mut j: usize = 0;
            while j < i - 1
                invariant
                    i >= 1,
                    i < buf@.len(),
                    i - 1 <= 253,
                    j <= i - 1,
                    spec_find_lf(buf@, 0) == Some(i as int),
                    buf@[i - 1] == 13,
                    forall|m: int| 0 <= m < j ==> buf@[m] != 13,
                decreases i - 1 - j,
            {
                if buf[j] == 13 {
                    return ParsedId::Bad;
                }
                j = j + 1;
            }
            let mut rd = Reader::new(buf);
            let line = match rd.read_bytes(i - 1) {
                Some(l) => l,
                None => {
                    // the read stays within the buffer
                    assert(false);
                    return ParsedId::Bad;
                },
            };
            let id = Id { line };
            assert(forall|m: int| 0 <= m < id.line@.len() ==> id.line@[m] != 13 && id.line@[m]
                != 10);
            return ParsedId::Parsed(id, i + 1);
        }
        i = i + 1;
    }
    assert(spec_find_lf(buf@, i as int) is None);
    if buf.len() >= 255 {
        ParsedId::Bad
    } else {
        ParsedId::NeedMore
    }
}

/// Round trip (the identification exchange is lossless): encoding a
/// well-formed identification string and parsing it back, with anything at
/// all following on the wire, yields the same string and consumes exactly
/// the encoded bytes.
pub proof fn lemma_id_roundtrip(id: Id, rest: Seq<u8>)
    requires
        id.wf(),
    ensures
        spec_parse_id(id.spec_encoded() + rest) == SpecIdParse::Parsed(
            id.line@,
            id.line@.len() + 2 as int,
        ),
{
    let b = id.spec_encoded() + rest;
    let n = id.line@.len() as int;
    assert(b[n + 1] == 10);
    lemma_find_lf_skips(b, 0, n + 1);
    assert(spec_find_lf(b, 0) == Some(n + 1));
    assert(b[n] == 13);
    assert(forall|j: int| 0 <= j < n ==> b[j] == id.line@[j]);
    assert(b.subrange(0, n) =~= id.line@);
}

/// If no LF stands in `[i, k)` and `b[k] == 10`, the first LF at or after
/// `i` is at `k`.
proof fn lemma_find_lf_skips(b: Seq<u8>, i: int, k: int)
    requires
        0 <= i <= k < b.len(),
        b[k] == 10,
        forall|j: int| i <= j < k ==> b[j] != 10,
    ensures
        spec_find_lf(b, i) == Some(k),
    decreases k - i,
{
    if i < k {
        lemma_find_lf_skips(b, i + 1, k);
    }
}

} // verus!
