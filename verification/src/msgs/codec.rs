//! Big-endian integers and length-prefixed byte strings, as the attestation
//! messages lay them out on the wire.
use vstd::prelude::*;
use vstd::slice::{slice_subrange, slice_to_vec};
use crate::error::InvalidMessage;

verus! {

/// The two bytes of `v`, most significant first.
pub open spec fn be_u16(v: u16) -> Seq<u8> {
    seq![(v / 256) as u8, (v % 256) as u8]
}

/// The four bytes of `v`, most significant first.
#[verifier::opaque]
pub open spec fn be_u32(v: u32) -> Seq<u8> {
    seq![
        (v / 0x100_0000) as u8,
        ((v / 0x1_0000) % 256) as u8,
        ((v / 256) % 256) as u8,
        (v % 256) as u8,
    ]
}

/// The `u16` whose big-endian bytes are `b0, b1`.
pub open spec fn u16_of(b0: u8, b1: u8) -> u16 {
    (b0 * 256 + b1) as u16
}

/// The `u32` whose big-endian bytes are `b0, b1, b2, b3`.
pub open spec fn u32_of(b0: u8, b1: u8, b2: u8, b3: u8) -> u32 {
    (b0 * 0x100_0000 + b1 * 0x1_0000 + b2 * 256 + b3) as u32
}

/// Reading a `u16` from the front of `s`: the value and what follows it.
pub open spec fn spec_read_u16(s: Seq<u8>) -> Result<(u16, Seq<u8>), InvalidMessage> {
    if s.len() < 2 {
        Err(InvalidMessage::MissingData("u16"))
    } else {
        Ok((u16_of(s[0], s[1]), s.skip(2)))
    }
}

/// Reading a `u32` from the front of `s`: the value and what follows it.
#[verifier::opaque]
pub open spec fn spec_read_u32(s: Seq<u8>) -> Result<(u32, Seq<u8>), InvalidMessage> {
    if s.len() < 4 {
        Err(InvalidMessage::MissingData("u32"))
    } else {
        Ok((u32_of(s[0], s[1], s[2], s[3]), s.skip(4)))
    }
}

/// A byte string behind its two-byte big-endian length. The length field
/// holds the byte count modulo 2^16.
#[verifier::opaque]
pub open spec fn prefixed(payload: Seq<u8>) -> Seq<u8> {
    be_u16((payload.len() % 0x1_0000) as u16) + payload
}

/// Reading a length-prefixed byte string named `what` from the front of `s`:
/// the string and what follows it.
#[verifier::opaque]
pub open spec fn spec_read_prefixed(s: Seq<u8>, what: &'static str) -> Result<
    (Seq<u8>, Seq<u8>),
    InvalidMessage,
> {
    match spec_read_u16(s) {
        Err(e) => Err(e),
        Ok((n, t)) => if n <= t.len() {
            Ok((t.take(n as int), t.skip(n as int)))
        } else {
            Err(InvalidMessage::MissingData(what))
        },
    }
}

/// A cursor over a byte buffer; its view is the part not yet read.
pub struct Reader<'a> {
    buffer: &'a [u8],
    cursor: usize,
}

impl<'a> Reader<'a> {
    #[verifier::type_invariant]
    spec fn inv(&self) -> bool {
        self.cursor <= self.buffer@.len()
    }

    /// The bytes that have not been read yet.
    pub closed spec fn remaining(&self) -> Seq<u8> {
        self.buffer@.skip(self.cursor as int)
    }

    /// A reader at the start of `bytes`.
    pub fn init(bytes: &'a [u8]) -> (r: Reader<'a>)
        ensures
            r@ == bytes@,
    {
        let r = Reader { buffer: bytes, cursor: 0 };
        assert(r.buffer@.skip(0) =~= bytes@);
        r
    }

    /// The number of bytes not read yet.
    pub fn left(&self) -> (n: usize)
        ensures
            n == self@.len(),
    {
        proof {
            use_type_invariant(self);
        }
        self.buffer.len() - self.cursor
    }

    /// Whether any byte is left to read.
    pub fn any_left(&self) -> (b: bool)
        ensures
            b == (self@.len() > 0),
    {
        proof {
            use_type_invariant(self);
        }
        self.cursor < self.buffer.len()
    }

    /// The next `length` bytes, or `None` (reading nothing) where fewer are left.
    pub fn take(&mut self, length: usize) -> (r: Option<&'a [u8]>)
        ensures
            length <= old(self)@.len() ==> (r matches Some(s) && s@ == old(self)@.take(length as int)
                && final(self)@ == old(self)@.skip(length as int)),
            length > old(self)@.len() ==> r is None && final(self)@ == old(self)@,
    {
        proof {
            use_type_invariant(&*self);
        }
        if self.buffer.len() - self.cursor < length {
            return None;
        }
        let start = self.cursor;
        self.cursor = start + length;
        let s = slice_subrange(self.buffer, start, start + length);
        assert(s@ =~= old(self)@.take(length as int));
        assert(self@ =~= old(self)@.skip(length as int));
        Some(s)
    }
}

impl<'a> View for Reader<'a> {
    type V = Seq<u8>;

    open spec fn view(&self) -> Seq<u8> {
        self.remaining()
    }
}

/// Reads a big-endian `u16`.
pub fn read_u16(r: &mut Reader) -> (res: Result<u16, InvalidMessage>)
    ensures
        match spec_read_u16(old(r)@) {
            Ok((v, rest)) => res == Ok::<u16, InvalidMessage>(v) && final(r)@ == rest,
            Err(e) => res == Err::<u16, InvalidMessage>(e) && final(r)@ == old(r)@,
        },
{
    match r.take(2) {
        Some(s) => {
            let v = (s[0] as u16) * 256 + s[1] as u16;
            Ok(v)
        },
        None => Err(InvalidMessage::MissingData("u16")),
    }
}

/// Reads a big-endian `u32`.
pub fn read_u32(r: &mut Reader) -> (res: Result<u32, InvalidMessage>)
    ensures
        match spec_read_u32(old(r)@) {
            Ok((v, rest)) => res == Ok::<u32, InvalidMessage>(v) && final(r)@ == rest,
            Err(e) => res == Err::<u32, InvalidMessage>(e) && final(r)@ == old(r)@,
        },
{
    reveal(spec_read_u32);
    match r.take(4) {
        Some(s) => {
            let v = (s[0] as u32) * 0x100_0000 + (s[1] as u32) * 0x1_0000 + (s[2] as u32) * 256
                + s[3] as u32;
            Ok(v)
        },
        None => Err(InvalidMessage::MissingData("u32")),
    }
}

/// Reads a byte string behind its two-byte length; `what` names it in the
/// error for a string cut short.
pub fn read_prefixed(r: &mut Reader, what: &'static str) -> (res: Result<Vec<u8>, InvalidMessage>)
    ensures
        match spec_read_prefixed(old(r)@, what) {
            Ok((v, rest)) => res matches Ok(p) && p@ == v && final(r)@ == rest,
            Err(e) => res == Err::<Vec<u8>, InvalidMessage>(e),
        },
{
    reveal(spec_read_prefixed);
    let n = read_u16(r)?;
    match r.take(n as usize) {
        Some(s) => Ok(slice_to_vec(s)),
        None => Err(InvalidMessage::MissingData(what)),
    }
}

/// Appends the big-endian bytes of `v`.
pub fn encode_u16(v: u16, bytes: &mut Vec<u8>)
    ensures
        final(bytes)@ == old(bytes)@ + be_u16(v),
{
    bytes.push((v / 256) as u8);
    bytes.push((v % 256) as u8);
    assert(bytes@ =~= old(bytes)@ + be_u16(v));
}

/// Appends the big-endian bytes of `v`.
pub fn encode_u32(v: u32, bytes: &mut Vec<u8>)
    ensures
        final(bytes)@ == old(bytes)@ + be_u32(v),
{
    reveal(be_u32);
    bytes.push((v / 0x100_0000) as u8);
    bytes.push(((v / 0x1_0000) % 256) as u8);
    bytes.push(((v / 256) % 256) as u8);
    bytes.push((v % 256) as u8);
    assert(bytes@ =~= old(bytes)@ + be_u32(v));
}

/// Appends `payload`.
pub fn append_bytes(bytes: &mut Vec<u8>, payload: &[u8])
    ensures
        final(bytes)@ == old(bytes)@ + payload@,
{
    let mut i: usize = 0;
    while i < payload.len()
        invariant
            i <= payload@.len(),
            bytes@ == old(bytes)@ + payload@.take(i as int),
        decreases payload@.len() - i,
    {
        bytes.push(payload[i]);
        i = i + 1;
        assert(bytes@ =~= old(bytes)@ + payload@.take(i as int));
    }
    assert(payload@.take(i as int) =~= payload@);
}

/// Appends `payload` behind its two-byte length, which holds the byte count
/// modulo 2^16.
pub fn encode_prefixed(payload: &[u8], bytes: &mut Vec<u8>)
    ensures
        final(bytes)@ == old(bytes)@ + prefixed(payload@),
{
    reveal(prefixed);
    encode_u16((payload.len() % 0x1_0000) as u16, bytes);
    append_bytes(bytes, payload);
    assert(bytes@ =~= old(bytes)@ + prefixed(payload@));
}

/// Reading a `u16` gives back the written value and leaves what follows.
pub proof fn lemma_u16_roundtrip(v: u16, rest: Seq<u8>)
    ensures
        spec_read_u16(be_u16(v) + rest) == Ok::<(u16, Seq<u8>), InvalidMessage>((v, rest)),
{
    let s = be_u16(v) + rest;
    assert(s.skip(2) =~= rest);
}

/// What a successful `u16` read consumed is the encoding of the value read.
pub proof fn lemma_u16_inverse(s: Seq<u8>)
    ensures
        spec_read_u16(s) matches Ok((v, rest)) ==> s == be_u16(v) + rest,
{
    if s.len() >= 2 {
        let v = u16_of(s[0], s[1]);
        assert(s =~= be_u16(v) + s.skip(2));
    }
}

/// Reading a `u32` gives back the written value and leaves what follows.
pub proof fn lemma_u32_roundtrip(v: u32, rest: Seq<u8>)
    ensures
        spec_read_u32(be_u32(v) + rest) == Ok::<(u32, Seq<u8>), InvalidMessage>((v, rest)),
{
    reveal(spec_read_u32);
    reveal(be_u32);
    let s = be_u32(v) + rest;
    assert(s.skip(4) =~= rest);
}

/// The big-endian bytes of the `u32` built from four bytes are those bytes.
pub proof fn lemma_u32_bytes(b0: u8, b1: u8, b2: u8, b3: u8)
    ensures
        be_u32(u32_of(b0, b1, b2, b3)) == seq![b0, b1, b2, b3],
{
    reveal(be_u32);
    let v: int = b0 * 0x100_0000 + b1 * 0x1_0000 + b2 * 256 + b3;
    assert(0 <= v < 0x1_0000_0000) by (nonlinear_arith)
        requires
            v == b0 * 0x100_0000 + b1 * 0x1_0000 + b2 * 256 + b3,
            0 <= b0 < 256,
            0 <= b1 < 256,
            0 <= b2 < 256,
            0 <= b3 < 256,
    ;
    assert(v / 0x100_0000 == b0 && (v / 0x1_0000) % 256 == b1 && (v / 256) % 256 == b2 && v % 256
        == b3) by (nonlinear_arith)
        requires
            v == b0 * 0x100_0000 + b1 * 0x1_0000 + b2 * 256 + b3,
            0 <= b0 < 256,
            0 <= b1 < 256,
            0 <= b2 < 256,
            0 <= b3 < 256,
    ;
    assert(be_u32(u32_of(b0, b1, b2, b3)) =~= seq![b0, b1, b2, b3]);
}

/// What a successful `u32` read consumed is the encoding of the value read.
pub proof fn lemma_u32_inverse(s: Seq<u8>)
    ensures
        spec_read_u32(s) matches Ok((v, rest)) ==> s == be_u32(v) + rest,
{
    reveal(spec_read_u32);
    reveal(be_u32);
    if s.len() >= 4 {
        lemma_u32_bytes(s[0], s[1], s[2], s[3]);
        let v = u32_of(s[0], s[1], s[2], s[3]);
        assert(s =~= be_u32(v) + s.skip(4));
    }
}

/// A byte string of at most 2^16 - 1 bytes reads back unchanged.
pub proof fn lemma_prefixed_roundtrip(payload: Seq<u8>, rest: Seq<u8>, what: &'static str)
    requires
        payload.len() <= 0xFFFF,
    ensures
        spec_read_prefixed(prefixed(payload) + rest, what) == Ok::<
            (Seq<u8>, Seq<u8>),
            InvalidMessage,
        >((payload, rest)),
{
    reveal(spec_read_prefixed);
    reveal(prefixed);
    let n = (payload.len() % 0x1_0000) as u16;
    let p = payload + rest;
    assert(n == payload.len());
    lemma_u16_roundtrip(n, p);
    assert(prefixed(payload) + rest =~= be_u16(n) + p);
    assert(p.take(n as int) =~= payload);
    assert(p.skip(n as int) =~= rest);
}

/// What a successful read of a byte string consumed is its encoding.
pub proof fn lemma_prefixed_inverse(s: Seq<u8>, what: &'static str)
    ensures
        spec_read_prefixed(s, what) matches Ok((p, rest)) ==> p.len() <= 0xFFFF && s == prefixed(p)
            + rest,
{
    reveal(spec_read_prefixed);
    reveal(prefixed);
    lemma_u16_inverse(s);
    if let Ok((p, rest)) = spec_read_prefixed(s, what) {
        let (n, t) = spec_read_u16(s).unwrap();
        assert(t =~= p + rest);
        assert((p.len() % 0x1_0000) as u16 == n);
        assert(s =~= prefixed(p) + rest);
    }
}


/// The two bytes written for `v` are its high and low byte: their value as a
/// base-256 numeral, most significant first, is `v`.
pub proof fn lemma_be_u16_value(v: u16)
    ensures
        be_u16(v).len() == 2,
        be_u16(v)[0] * 256 + be_u16(v)[1] == v,
{
}

/// Two bytes `b0, b1` read as a `u16` give `b0 * 256 + b1`, and what follows them.
pub proof fn lemma_read_u16_value(b0: u8, b1: u8, rest: Seq<u8>)
    ensures
        spec_read_u16(seq![b0, b1] + rest) == Ok::<(u16, Seq<u8>), InvalidMessage>(
            ((b0 * 256 + b1) as u16, rest),
        ),
{
    assert((seq![b0, b1] + rest).skip(2) =~= rest);
}

/// The four bytes written for `v` read, as a base-256 numeral with the most
/// significant byte first, as `v`.
pub proof fn lemma_be_u32_value(v: u32)
    ensures
        be_u32(v).len() == 4,
        be_u32(v)[0] * 0x100_0000 + be_u32(v)[1] * 0x1_0000 + be_u32(v)[2] * 256 + be_u32(v)[3]
            == v,
{
    reveal(be_u32);
    let x: int = v as int;
    assert((x / 0x100_0000) * 0x100_0000 + ((x / 0x1_0000) % 256) * 0x1_0000 + ((x / 256) % 256)
        * 256 + x % 256 == x) by (nonlinear_arith)
        requires
            0 <= x < 0x1_0000_0000,
    ;
}

/// Four bytes read as a `u32` give their base-256 value, most significant
/// byte first, and what follows them.
pub proof fn lemma_read_u32_value(b0: u8, b1: u8, b2: u8, b3: u8, rest: Seq<u8>)
    ensures
        spec_read_u32(seq![b0, b1, b2, b3] + rest) == Ok::<(u32, Seq<u8>), InvalidMessage>(
            ((b0 * 0x100_0000 + b1 * 0x1_0000 + b2 * 256 + b3) as u32, rest),
        ),
{
    reveal(spec_read_u32);
    assert((seq![b0, b1, b2, b3] + rest).skip(4) =~= rest);
}

/// A byte string of at most 2^16 - 1 bytes is written as its byte count in
/// big-endian (high byte, low byte) followed by its bytes, unchanged.
pub proof fn lemma_prefixed_layout(payload: Seq<u8>)
    requires
        payload.len() <= 0xFFFF,
    ensures
        prefixed(payload) == seq![(payload.len() / 256) as u8, (payload.len() % 256) as u8]
            + payload,
{
    reveal(prefixed);
    assert(prefixed(payload) =~= seq![(payload.len() / 256) as u8, (payload.len() % 256) as u8]
        + payload);
}

/// A byte string is read as the big-endian count in its first two bytes
/// followed by that many bytes, unchanged, leaving what follows.
pub proof fn lemma_read_prefixed_layout(payload: Seq<u8>, rest: Seq<u8>, what: &'static str)
    requires
        payload.len() <= 0xFFFF,
    ensures
        spec_read_prefixed(
            seq![(payload.len() / 256) as u8, (payload.len() % 256) as u8] + payload + rest,
            what,
        ) == Ok::<(Seq<u8>, Seq<u8>), InvalidMessage>((payload, rest)),
{
    lemma_prefixed_layout(payload);
    lemma_prefixed_roundtrip(payload, rest, what);
}

} // verus!
