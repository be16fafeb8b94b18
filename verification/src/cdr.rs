//! XCDR2 (plain, `@final`) serialization for Unitree ROS2 messages.
//!
//! Unitree's `.msg` types are all effectively `@final`: there is no DHEADER and
//! no per-member EMHEADER. The wire format is therefore plain XCDR2:
//!
//! - little-endian
//! - maximum alignment of 4 bytes (8-byte primitives align to 4, not 8)
//! - strings are `u32 length` (including the trailing NUL) + bytes + `\0`
//! - sequences (`T[]`) are `u32 length` + elements
//! - fixed arrays (`T[N]`) are `N` elements back-to-back, no length prefix
//!
//! A serialized payload is prefixed with the 4-byte RTPS encapsulation header
//! `00 07 00 00` (CDR2_LE, no options). Alignment is tracked relative to the
//! start of the body; since the header is exactly 4 bytes the two conventions
//! coincide for a max alignment of 4.
//!
//! Every value type carries two spec functions: [`CdrSerialize::cdr_bytes`], the
//! bytes it appends to a body of a given length, and [`CdrDeserialize::cdr_read`],
//! what reading one value at a given offset of a body yields. The
//! [`CdrRoundTrip`] law ties the two together.

use vstd::prelude::*;
use vstd::arithmetic::div_mod::{lemma_fundamental_div_mod, lemma_mod_multiples_vanish, lemma_mod_pos_bound};
use crate::le::{le_bytes, le_value, pow256, lemma_le_roundtrip, lemma_le_value_bound, push_le, le_value_from};

verus! {

/// RTPS encapsulation header for plain XCDR2, little-endian (`CDR2_LE`).
pub const ENCAPSULATION_HEADER: [u8; 4] = [0x00, 0x07, 0x00, 0x00];

/// The bytes of [`ENCAPSULATION_HEADER`].
pub open spec fn encapsulation_header() -> Seq<u8> {
    seq![0x00u8, 0x07u8, 0x00u8, 0x00u8]
}

/// Errors that can occur while decoding a CDR payload.
#[derive(Debug, PartialEq, Eq)]
pub enum CdrError {
    /// The buffer ended before the expected number of bytes was available.
    Eof { offset: usize, needed: usize },
    /// The encapsulation header was missing or not a supported representation.
    BadEncapsulation([u8; 4]),
    /// A string field was not valid UTF-8.
    Utf8,
    /// A length field exceeded the remaining buffer (corrupt or hostile input).
    LengthOverflow { offset: usize, len: usize },
}

// ---------------------------------------------------------------------------
// Layout arithmetic
// ---------------------------------------------------------------------------

/// The alignment XCDR2 uses for an `n`-byte primitive: `min(n, 4)`.
pub open spec fn cdr_alignment(n: nat) -> nat {
    if n < 4 {
        n
    } else {
        4
    }
}

/// Number of padding bytes that bring `offset` to a multiple of `a`.
pub open spec fn padding(offset: nat, a: nat) -> nat {
    if offset % a == 0 {
        0
    } else {
        (a - offset % a) as nat
    }
}

/// `k` zero bytes.
pub open spec fn zeros(k: nat) -> Seq<u8> {
    Seq::new(k, |i: int| 0u8)
}

/// The offset a reader reaches when it skips padding to a multiple of
/// `cdr_alignment(n)`, stopping at the end of a body of length `len`.
pub open spec fn aligned_offset(len: nat, offset: nat, n: nat) -> nat {
    let t = offset + padding(offset, cdr_alignment(n));
    if t > len {
        len
    } else {
        t
    }
}

/// Reading `n` raw bytes at `offset` of `body`: the bytes, or the end-of-buffer
/// error, together with the offset afterwards.
pub open spec fn read_span(body: Seq<u8>, offset: nat, n: nat) -> (Result<Seq<u8>, CdrError>, nat) {
    if offset + n > body.len() {
        (
            Err(CdrError::Eof { offset: offset as usize, needed: (offset + n - body.len()) as usize }),
            offset,
        )
    } else {
        (Ok(body.subrange(offset as int, (offset + n) as int)), offset + n)
    }
}

/// The bytes a `size`-byte unsigned primitive of value `v` appends at `offset`.
pub open spec fn prim_bytes(offset: nat, size: nat, v: nat) -> Seq<u8> {
    zeros(padding(offset, cdr_alignment(size))) + le_bytes(v, size)
}

/// Reading a `size`-byte unsigned primitive at `offset`.
pub open spec fn prim_read(body: Seq<u8>, offset: nat, size: nat) -> (Result<nat, CdrError>, nat) {
    let p = aligned_offset(body.len(), offset, size);
    let (r, q) = read_span(body, p, size);
    match r {
        Ok(b) => (Ok(le_value(b)), q),
        Err(e) => (Err(e), q),
    }
}

/// A result with its success value taken by its deep view.
pub open spec fn deep_result<T: DeepView>(r: Result<T, CdrError>) -> Result<T::V, CdrError> {
    match r {
        Ok(v) => Ok(v.deep_view()),
        Err(e) => Err(e),
    }
}

/// A primitive writes at least one byte.
pub proof fn lemma_prim_bytes_nonempty(offset: nat, size: nat, v: nat)
    requires
        size >= 1,
    ensures
        prim_bytes(offset, size, v).len() > 0,
{
    assert(le_bytes(v, size).len() > 0);
}

/// Padding brings an offset to the next multiple of the alignment.
pub proof fn lemma_padding_aligns(offset: nat, a: nat)
    requires
        1 <= a,
    ensures
        padding(offset, a) < a,
        (offset + padding(offset, a)) % a == 0,
{
    let o = offset as int;
    let d = a as int;
    lemma_fundamental_div_mod(o, d);
    lemma_mod_pos_bound(o, d);
    let q = o / d;
    let r = o % d;
    if r != 0 {
        assert(o + (d - r) == d * (q + 1)) by (nonlinear_arith)
            requires
                o == d * q + r,
        ;
        lemma_mod_multiples_vanish(q + 1, 0, d);
    }
}

/// A primitive written after any prefix reads back at the prefix's end.
pub proof fn lemma_prim_roundtrip(prefix: Seq<u8>, rest: Seq<u8>, size: nat, v: nat)
    requires
        1 <= size,
        v < pow256(size),
    ensures
        prim_bytes(prefix.len(), size, v).len() == padding(prefix.len(), cdr_alignment(size))
            + size,
        prim_read(prefix + prim_bytes(prefix.len(), size, v) + rest, prefix.len(), size) == (
            Ok::<nat, CdrError>(v),
            prefix.len() + prim_bytes(prefix.len(), size, v).len(),
        ),
{
    let o = prefix.len();
    let z = zeros(padding(o, cdr_alignment(size)));
    let le = le_bytes(v, size);
    lemma_le_roundtrip(v, size);
    let buf = prefix + prim_bytes(o, size, v) + rest;
    let p = o + z.len();
    assert(aligned_offset(buf.len(), o, size) == p);
    assert(buf.subrange(p as int, (p + size) as int) =~= le);
}

/// Alignment relative to the body and relative to the whole payload agree:
/// the 4-byte encapsulation header does not change the padding any
/// alignment of 1, 2 or 4 bytes needs.
pub proof fn lemma_header_keeps_alignment(offset: nat, n: nat)
    requires
        cdr_alignment(n) == 1 || cdr_alignment(n) == 2 || cdr_alignment(n) == 4,
    ensures
        padding(offset + 4, cdr_alignment(n)) == padding(offset, cdr_alignment(n)),
{
    let a = cdr_alignment(n) as int;
    let o = offset as int;
    let k: int = if a == 1 {
        4
    } else if a == 2 {
        2
    } else {
        1
    };
    assert(a * k == 4);
    lemma_mod_multiples_vanish(k, o, a);
}

/// A successful raw read stays within the body and reads the same from any
/// extension of it.
pub proof fn lemma_read_span_extends(body: Seq<u8>, offset: nat, n: nat, ext: Seq<u8>)
    requires
        read_span(body, offset, n).0 is Ok,
    ensures
        read_span(body, offset, n).1 <= body.len(),
        read_span(body + ext, offset, n) == read_span(body, offset, n),
{
    assert((body + ext).subrange(offset as int, (offset + n) as int) =~= body.subrange(
        offset as int,
        (offset + n) as int,
    ));
}

/// A successful primitive read stays within the body and reads the same from
/// any extension of it.
pub proof fn lemma_prim_read_extends(body: Seq<u8>, offset: nat, size: nat, ext: Seq<u8>)
    requires
        size >= 1,
        offset <= body.len(),
        prim_read(body, offset, size).0 is Ok,
    ensures
        prim_read(body, offset, size).1 <= body.len(),
        prim_read(body + ext, offset, size) == prim_read(body, offset, size),
{
    let p = aligned_offset(body.len(), offset, size);
    lemma_read_span_extends(body, p, size, ext);
    assert(aligned_offset((body + ext).len(), offset, size) == p);
}

// ---------------------------------------------------------------------------
// Serializer
// ---------------------------------------------------------------------------

/// A growable XCDR2 writer. Tracks the body offset for alignment.
#[derive(Debug)]
pub struct CdrSerializer {
    buf: Vec<u8>,
}

impl View for CdrSerializer {
    type V = Seq<u8>;

    closed spec fn view(&self) -> Seq<u8> {
        self.buf@
    }
}

impl Default for CdrSerializer {
    fn default() -> (s: Self)
        ensures
            s@ == Seq::<u8>::empty(),
    {
        Self::new()
    }
}

impl Clone for CdrSerializer {
    fn clone(&self) -> (s: Self)
        ensures
            s@ == self@,
    {
        let mut buf: Vec<u8> = Vec::new();
        let mut i: usize = 0;
        while i < self.buf.len()
            invariant
                i <= self.buf@.len(),
                buf@ == self.buf@.take(i as int),
            decreases self.buf@.len() - i,
        {
            buf.push(self.buf[i]);
            i += 1;
            assert(buf@ =~= self.buf@.take(i as int));
        }
        assert(self.buf@.take(i as int) =~= self.buf@);
        CdrSerializer { buf }
    }
}

impl CdrSerializer {
    /// Create an empty serializer.
    pub fn new() -> (s: Self)
        ensures
            s@ == Seq::<u8>::empty(),
    {
        Self { buf: Vec::new() }
    }

    /// Current body length (also the alignment offset).
    pub fn len(&self) -> (n: usize)
        ensures
            n == self@.len(),
    {
        self.buf.len()
    }

    /// Whether nothing has been written yet.
    pub fn is_empty(&self) -> (b: bool)
        ensures
            b == (self@.len() == 0),
    {
        self.buf.len() == 0
    }

    /// Pad with zero bytes until the body offset is a multiple of `min(n, 4)`.
    pub fn align(&mut self, n: usize)
        requires
            n > 0,
        ensures
            final(self)@ == old(self)@ + zeros(padding(old(self)@.len(), cdr_alignment(n as nat))),
            final(self)@.len() % cdr_alignment(n as nat) == 0,
    {
        proof {
            lemma_padding_aligns(self@.len(), cdr_alignment(n as nat));
        }
        let a: usize = if n < 4 {
            n
        } else {
            4
        };
        let r = self.buf.len() % a;
        let pad: usize = if r == 0 {
            0
        } else {
            a - r
        };
        let mut k: usize = 0;
        while k < pad
            invariant
                k <= pad,
                self.buf@ == old(self)@ + zeros(k as nat),
            decreases pad - k,
        {
            self.buf.push(0);
            k += 1;
            assert(self.buf@ =~= old(self)@ + zeros(k as nat));
        }
    }

    /// Append raw bytes with no alignment.
    pub fn write_bytes(&mut self, b: &[u8])
        ensures
            final(self)@ == old(self)@ + b@,
    {
        let mut i: usize = 0;
        while i < b.len()
            invariant
                i <= b@.len(),
                self.buf@ == old(self)@ + b@.take(i as int),
            decreases b@.len() - i,
        {
            self.buf.push(b[i]);
            i += 1;
            assert(self.buf@ =~= old(self)@ + b@.take(i as int));
        }
        assert(b@.take(i as int) =~= b@);
    }

    /// Align to `min(size, 4)` and append the `size` little-endian bytes of `v`.
    pub(crate) fn write_le(&mut self, v: u64, size: usize)
        requires
            size > 0,
        ensures
            final(self)@ == old(self)@ + prim_bytes(old(self)@.len(), size as nat, v as nat),
    {
        self.align(size);
        push_le(&mut self.buf, v, size);
        assert(self.buf@ =~= old(self)@ + prim_bytes(old(self)@.len(), size as nat, v as nat));
    }

    /// Consume the serializer and return the body (without encapsulation header).
    pub fn into_body(self) -> (body: Vec<u8>)
        ensures
            body@ == self@,
    {
        self.buf
    }

    /// Consume the serializer and return a full payload with the 4-byte
    /// encapsulation header prepended.
    pub fn into_payload(self) -> (payload: Vec<u8>)
        ensures
            payload@ == encapsulation_header() + self@,
    {
        let mut out: Vec<u8> = Vec::new();
        out.push(ENCAPSULATION_HEADER[0]);
        out.push(ENCAPSULATION_HEADER[1]);
        out.push(ENCAPSULATION_HEADER[2]);
        out.push(ENCAPSULATION_HEADER[3]);
        let mut i: usize = 0;
        while i < self.buf.len()
            invariant
                i <= self.buf@.len(),
                out@ == encapsulation_header() + self.buf@.take(i as int),
            decreases self.buf@.len() - i,
        {
            out.push(self.buf[i]);
            i += 1;
            assert(out@ =~= encapsulation_header() + self.buf@.take(i as int));
        }
        assert(self.buf@.take(i as int) =~= self.buf@);
        out
    }
}

// ---------------------------------------------------------------------------
// Deserializer
// ---------------------------------------------------------------------------

/// Whether a payload starts with a supported encapsulation header:
/// CDR2_LE (`00 07`) or plain CDR_LE (`00 01`); both are LE plain.
pub open spec fn header_supported(payload: Seq<u8>) -> bool {
    payload[0] == 0x00 && (payload[1] == 0x07 || payload[1] == 0x01)
}

/// A borrowed XCDR2 reader over a message body (header already stripped).
#[derive(Debug)]
pub struct CdrDeserializer<'a> {
    buf: &'a [u8],
    pos: usize,
}

impl<'a> CdrDeserializer<'a> {
    #[verifier::type_invariant]
    spec fn offset_in_body(&self) -> bool {
        self.pos <= self.buf@.len()
    }

    /// The body being read.
    pub closed spec fn body(&self) -> Seq<u8> {
        self.buf@
    }

    /// The current read offset within the body.
    pub closed spec fn offset(&self) -> nat {
        self.pos as nat
    }

    /// Create a deserializer over a body slice (no encapsulation header).
    pub fn new(buf: &'a [u8]) -> (d: Self)
        ensures
            d.body() == buf@,
            d.offset() == 0,
    {
        Self { buf, pos: 0 }
    }

    /// Create a deserializer over a full payload, validating and skipping the
    /// 4-byte encapsulation header.
    pub fn from_payload(payload: &'a [u8]) -> (r: Result<Self, CdrError>)
        ensures
            payload@.len() < 4 ==> r == Err::<Self, CdrError>(
                CdrError::Eof { offset: payload@.len() as usize, needed: (4 - payload@.len()) as usize },
            ),
            payload@.len() >= 4 && !header_supported(payload@) ==> (r matches Err(
                CdrError::BadEncapsulation(h),
            ) && h@ == payload@.take(4)),
            payload@.len() >= 4 && header_supported(payload@) ==> (r matches Ok(d) && d.body()
                == payload@.skip(4) && d.offset() == 0),
    {
        if payload.len() < 4 {
            return Err(CdrError::Eof { offset: payload.len(), needed: 4 - payload.len() });
        }
        let hdr: [u8; 4] = [payload[0], payload[1], payload[2], payload[3]];
        if hdr[0] != 0x00 || (hdr[1] != 0x07 && hdr[1] != 0x01) {
            assert(hdr@ =~= payload@.take(4));
            return Err(CdrError::BadEncapsulation(hdr));
        }
        let body = &payload[4..payload.len()];
        assert(body@ =~= payload@.skip(4));
        Ok(Self { buf: body, pos: 0 })
    }

    /// Current offset within the body; it never passes the end of the body.
    pub fn position(&self) -> (p: usize)
        ensures
            p == self.offset(),
            p <= self.body().len(),
    {
        proof {
            use_type_invariant(self);
        }
        self.pos
    }

    /// Number of body bytes not yet read.
    pub fn remaining(&self) -> (n: usize)
        ensures
            self.offset() <= self.body().len(),
            n == self.body().len() - self.offset(),
    {
        proof {
            use_type_invariant(self);
        }
        self.buf.len() - self.pos
    }

    /// Skip padding until the offset is a multiple of `min(n, 4)`, or until the
    /// end of the body.
    pub fn align(&mut self, n: usize)
        requires
            n > 0,
        ensures
            final(self).body() == old(self).body(),
            final(self).offset() == aligned_offset(old(self).body().len(), old(self).offset(), n as nat),
            final(self).offset() % cdr_alignment(n as nat) == 0 || final(self).offset()
                == old(self).body().len(),
    {
        proof {
            use_type_invariant(&*self);
            lemma_padding_aligns(self.offset(), cdr_alignment(n as nat));
        }
        let a: usize = if n < 4 {
            n
        } else {
            4
        };
        let r = self.pos % a;
        let pad: usize = if r == 0 {
            0
        } else {
            a - r
        };
        if pad > self.buf.len() - self.pos {
            self.pos = self.buf.len();
        } else {
            self.pos = self.pos + pad;
        }
    }

    /// Read exactly `n` bytes.
    pub fn read_bytes(&mut self, n: usize) -> (r: Result<&'a [u8], CdrError>)
        ensures
            final(self).body() == old(self).body(),
            read_span(old(self).body(), old(self).offset(), n as nat) == (match r {
                Ok(s) => Ok(s@),
                Err(e) => Err(e),
            }, final(self).offset()),
    {
        proof {
            use_type_invariant(&*self);
        }
        if n > self.buf.len() - self.pos {
            return Err(CdrError::Eof { offset: self.pos, needed: n - (self.buf.len() - self.pos) });
        }
        let s = &self.buf[self.pos..self.pos + n];
        self.pos += n;
        Ok(s)
    }

    /// Align to `min(size, 4)` and read a `size`-byte little-endian value.
    pub(crate) fn read_le(&mut self, size: usize) -> (r: Result<u64, CdrError>)
        requires
            1 <= size <= 8,
        ensures
            final(self).body() == old(self).body(),
            prim_read(old(self).body(), old(self).offset(), size as nat) == (match r {
                Ok(v) => Ok(v as nat),
                Err(e) => Err(e),
            }, final(self).offset()),
            r matches Ok(v) ==> v < pow256(size as nat),
    {
        self.align(size);
        let b = self.read_bytes(size)?;
        let v = le_value_from(b, 0);
        assert(b@.skip(0) =~= b@);
        proof {
            lemma_le_value_bound(b@);
        }
        Ok(v)
    }
}

// ---------------------------------------------------------------------------
// The value traits and their law
// ---------------------------------------------------------------------------

/// A type that can be written to an XCDR2 stream.
pub trait CdrSerialize {
    /// The bytes this value appends to a body whose current length is `offset`
    /// (the padding it needs depends on that length).
    spec fn cdr_bytes(&self, offset: nat) -> Seq<u8>;

    /// Append this value to the serializer.
    fn serialize(&self, s: &mut CdrSerializer)
        ensures
            final(s)@ == old(s)@ + self.cdr_bytes(old(s)@.len()),
    ;
}

/// A type that can be read from an XCDR2 stream.
pub trait CdrDeserialize: Sized + DeepView {
    /// What reading one value at `offset` of `body` yields (the value by its
    /// deep view, or the error), with the offset the reader is left at.
    spec fn cdr_read(body: Seq<u8>, offset: nat) -> (Result<Self::V, CdrError>, nat);

    /// Read one value from the deserializer.
    fn deserialize(d: &mut CdrDeserializer<'_>) -> (r: Result<Self, CdrError>)
        ensures
            final(d).body() == old(d).body(),
            Self::cdr_read(old(d).body(), old(d).offset()) == (deep_result(r), final(d).offset()),
    ;

    /// Whether every value of the type takes at least one byte on the wire
    /// (false only for types made of empty arrays). A sequence of such values
    /// cannot declare more elements than there are bytes left.
    spec fn cdr_nonempty() -> bool;

    /// [`cdr_nonempty`](CdrDeserialize::cdr_nonempty), computed.
    fn is_cdr_nonempty() -> (b: bool)
        ensures
            b == Self::cdr_nonempty(),
    ;

    /// Reading is self-delimiting: a value read successfully from `body` stays
    /// within `body`, and reads the same from any extension of `body`.
    proof fn lemma_cdr_read_extends(body: Seq<u8>, offset: nat, ext: Seq<u8>)
        requires
            offset <= body.len(),
            Self::cdr_read(body, offset).0 is Ok,
        ensures
            Self::cdr_read(body, offset).1 <= body.len(),
            Self::cdr_read(body + ext, offset) == Self::cdr_read(body, offset),
    ;
}

/// The round-trip law of the encoding: a value written after any prefix reads
/// back, at the end of that prefix, as itself (by its deep view), whatever
/// follows it, and the reader ends right after its bytes.
pub trait CdrRoundTrip: CdrSerialize + CdrDeserialize {
    /// Values the encoding can carry: every string and sequence length fits the
    /// `u32` length prefix.
    spec fn cdr_encodable(&self) -> bool;

    /// A value of a type that is [nonempty](CdrDeserialize::cdr_nonempty)
    /// writes at least one byte.
    proof fn lemma_cdr_bytes_nonempty(&self, offset: nat)
        requires
            Self::cdr_nonempty(),
        ensures
            self.cdr_bytes(offset).len() > 0,
    ;

    proof fn lemma_cdr_roundtrip(&self, prefix: Seq<u8>, rest: Seq<u8>)
        requires
            self.cdr_encodable(),
        ensures
            Self::cdr_read(prefix + self.cdr_bytes(prefix.len()) + rest, prefix.len()) == (
                Ok::<Self::V, CdrError>(self.deep_view()),
                prefix.len() + self.cdr_bytes(prefix.len()).len(),
            ),
    ;
}

/// A strict prefix of an encoding does not decode: every cut of the bytes a
/// value writes (after any prefix) makes the read fail.
pub proof fn lemma_cdr_truncation_fails<T: CdrRoundTrip>(v: T, prefix: Seq<u8>, k: nat)
    requires
        v.cdr_encodable(),
        prefix.len() <= k < prefix.len() + v.cdr_bytes(prefix.len()).len(),
    ensures
        T::cdr_read((prefix + v.cdr_bytes(prefix.len())).take(k as int), prefix.len()).0 is Err,
{
    let full = prefix + v.cdr_bytes(prefix.len());
    let cut = full.take(k as int);
    v.lemma_cdr_roundtrip(prefix, Seq::empty());
    assert(full + Seq::<u8>::empty() =~= full);
    if T::cdr_read(cut, prefix.len()).0 is Ok {
        T::lemma_cdr_read_extends(cut, prefix.len(), full.skip(k as int));
        assert(cut + full.skip(k as int) =~= full);
    }
}

} // verus!
