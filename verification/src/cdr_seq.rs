//! XCDR2 encodings of the composite types: strings, sequences (`Vec<T>`),
//! fixed arrays (`[T; N]`) and pairs (the building block of message structs).

use vstd::prelude::*;
use vstd::utf8::{decode_utf8, encode_utf8, encode_utf8_decode_utf8, encode_utf8_valid_utf8, valid_utf8};
use crate::cdr::{
    CdrDeserialize, CdrDeserializer, CdrError, CdrRoundTrip, CdrSerialize, CdrSerializer,
    deep_result, lemma_prim_bytes_nonempty, lemma_read_span_extends, prim_bytes, read_span,
};
use crate::le::lemma_pow256_values;

verus! {

broadcast use {encode_utf8_valid_utf8, encode_utf8_decode_utf8};

// ---------------------------------------------------------------------------
// Trusted calls into std
// ---------------------------------------------------------------------------

/// `core::str::from_utf8`: succeeds exactly when the bytes are valid UTF-8, and
/// then yields the string those bytes encode.
#[verifier::external_body]
fn str_from_utf8(b: &[u8]) -> (r: Option<&str>)
    ensures
        r is Some <==> valid_utf8(b@),
        r matches Some(s) ==> s@ == decode_utf8(b@),
{
    core::str::from_utf8(b).ok()
}

/// `<[T; N]>::try_from(Vec<T>)`: a vector of exactly `N` elements becomes the
/// array of those elements, in order.
#[verifier::external_body]
fn vec_into_array<T, const N: usize>(v: Vec<T>) -> (a: [T; N])
    requires
        v@.len() == N,
    ensures
        a@ == v@,
{
    <[T; N]>::try_from(v).ok().unwrap()
}

// ---------------------------------------------------------------------------
// Specs
// ---------------------------------------------------------------------------

/// The `u32` length prefix of a string of `n` UTF-8 bytes: `n + 1` (the NUL is
/// counted), saturated at `u32::MAX`.
pub open spec fn string_len_field(n: nat) -> nat {
    if n + 1 <= u32::MAX {
        n + 1
    } else {
        u32::MAX as nat
    }
}

/// The `u32` length prefix of a sequence of `n` elements, saturated at `u32::MAX`.
pub open spec fn seq_len_field(n: nat) -> nat {
    if n <= u32::MAX {
        n
    } else {
        u32::MAX as nat
    }
}

/// The element-wise deep view of a sequence.
pub open spec fn deep_seq<T: DeepView>(s: Seq<T>) -> Seq<T::V> {
    Seq::new(s.len(), |i: int| s[i].deep_view())
}

/// The bytes of `items` written back-to-back, the first at body offset `offset`.
pub open spec fn items_bytes<T: CdrSerialize>(items: Seq<T>, offset: nat) -> Seq<u8>
    decreases items.len(),
{
    if items.len() == 0 {
        Seq::empty()
    } else {
        let p = items_bytes(items.drop_last(), offset);
        p + items.last().cdr_bytes(offset + p.len())
    }
}

/// Reading `n` values back-to-back from `offset`; the first error stops it.
pub open spec fn items_read<T: CdrDeserialize>(body: Seq<u8>, offset: nat, n: nat) -> (
    Result<Seq<T::V>, CdrError>,
    nat,
)
    decreases n,
{
    if n == 0 {
        (Ok(Seq::empty()), offset)
    } else {
        let (r, p) = items_read::<T>(body, offset, (n - 1) as nat);
        match r {
            Err(e) => (Err(e), p),
            Ok(s) => {
                let (r2, q) = T::cdr_read(body, p);
                match r2 {
                    Ok(v) => (Ok(s.push(v)), q),
                    Err(e) => (Err(e), q),
                }
            },
        }
    }
}

/// The bytes of a string with characters `chars` at `offset`: the `u32` length
/// (bytes plus NUL), the UTF-8 bytes, and a NUL.
pub open spec fn string_bytes(chars: Seq<char>, offset: nat) -> Seq<u8> {
    let b = encode_utf8(chars);
    prim_bytes(offset, 4, string_len_field(b.len())) + b + seq![0u8]
}

/// Reading a string at `offset`: a zero length gives the empty string; a length
/// beyond the rest of the body is a length overflow; else the declared bytes are
/// taken, a trailing NUL is dropped, and the rest must be UTF-8.
pub open spec fn string_read(body: Seq<u8>, offset: nat) -> (Result<Seq<char>, CdrError>, nat) {
    let (r, p) = <u32 as CdrDeserialize>::cdr_read(body, offset);
    match r {
        Err(e) => (Err(e), p),
        Ok(n) => if n == 0 {
            (Ok(Seq::empty()), p)
        } else if p + n > body.len() {
            (Err(CdrError::LengthOverflow { offset: p as usize, len: n as usize }), p)
        } else {
            let (r2, q) = read_span(body, p, n as nat);
            match r2 {
                Err(e) => (Err(e), q),
                Ok(b) => {
                    let c = if b.last() == 0 {
                        b.drop_last()
                    } else {
                        b
                    };
                    if valid_utf8(c) {
                        (Ok(decode_utf8(c)), q)
                    } else {
                        (Err(CdrError::Utf8), q)
                    }
                },
            }
        },
    }
}

// ---------------------------------------------------------------------------
// Lemmas
// ---------------------------------------------------------------------------

/// Once reading a run of values fails, reading a longer run fails the same way.
pub proof fn lemma_items_read_err_sticky<T: CdrDeserialize>(body: Seq<u8>, offset: nat, i: nat, n: nat)
    requires
        i <= n,
        items_read::<T>(body, offset, i).0 is Err,
    ensures
        items_read::<T>(body, offset, n) == items_read::<T>(body, offset, i),
    decreases n - i,
{
    if i < n {
        lemma_items_read_err_sticky::<T>(body, offset, i, (n - 1) as nat);
    }
}

/// A successful run of reads stays within the body and reads the same from any
/// extension of it.
pub proof fn lemma_items_read_extends<T: CdrDeserialize>(body: Seq<u8>, offset: nat, n: nat, ext: Seq<u8>)
    requires
        offset <= body.len(),
        items_read::<T>(body, offset, n).0 is Ok,
    ensures
        items_read::<T>(body, offset, n).1 <= body.len(),
        items_read::<T>(body + ext, offset, n) == items_read::<T>(body, offset, n),
    decreases n,
{
    if n > 0 {
        lemma_items_read_extends::<T>(body, offset, (n - 1) as nat, ext);
        let p = items_read::<T>(body, offset, (n - 1) as nat).1;
        T::lemma_cdr_read_extends(body, p, ext);
    }
}

/// Values of a nonempty type write at least one byte apiece.
pub proof fn lemma_items_bytes_len<T: CdrRoundTrip>(items: Seq<T>, offset: nat)
    requires
        T::cdr_nonempty(),
    ensures
        items_bytes(items, offset).len() >= items.len(),
    decreases items.len(),
{
    if items.len() > 0 {
        lemma_items_bytes_len(items.drop_last(), offset);
        let p = items_bytes(items.drop_last(), offset);
        items.last().lemma_cdr_bytes_nonempty(offset + p.len());
    }
}

/// Values written back-to-back after any prefix read back as themselves.
pub proof fn lemma_items_roundtrip<T: CdrRoundTrip>(items: Seq<T>, prefix: Seq<u8>, rest: Seq<u8>)
    requires
        forall|i: int| 0 <= i < items.len() ==> (#[trigger] items[i]).cdr_encodable(),
    ensures
        items_read::<T>(prefix + items_bytes(items, prefix.len()) + rest, prefix.len(), items.len())
            == (Ok::<Seq<T::V>, CdrError>(deep_seq(items)), prefix.len() + items_bytes(
            items,
            prefix.len(),
        ).len()),
    decreases items.len(),
{
    let o = prefix.len();
    if items.len() == 0 {
        assert(deep_seq(items) =~= Seq::<T::V>::empty());
    } else {
        let init = items.drop_last();
        let x = items.last();
        let b0 = items_bytes(init, o);
        let bx = x.cdr_bytes(o + b0.len());
        assert(items[items.len() - 1] == x);
        lemma_items_roundtrip(init, prefix, bx + rest);
        assert(prefix + items_bytes(items, o) + rest =~= prefix + b0 + (bx + rest));
        x.lemma_cdr_roundtrip(prefix + b0, rest);
        assert(prefix + items_bytes(items, o) + rest =~= (prefix + b0) + bx + rest);
        assert(deep_seq(init).push(x.deep_view()) =~= deep_seq(items));
    }
}

// ---------------------------------------------------------------------------
// Shared loops
// ---------------------------------------------------------------------------

/// Serialize every element of `items` in order.
pub(crate) fn serialize_items<T: CdrSerialize>(items: &[T], s: &mut CdrSerializer)
    ensures
        final(s)@ == old(s)@ + items_bytes(items@, old(s)@.len()),
{
    let ghost off = s@.len();
    let mut i: usize = 0;
    assert(items@.take(0) =~= Seq::<T>::empty());
    while i < items.len()
        invariant
            i <= items@.len(),
            off == old(s)@.len(),
            s@ == old(s)@ + items_bytes(items@.take(i as int), off),
        decreases items@.len() - i,
    {
        items[i].serialize(s);
        proof {
            let t = items@.take(i + 1);
            assert(t.drop_last() =~= items@.take(i as int));
            assert(t.last() == items@[i as int]);
        }
        i += 1;
    }
    assert(items@.take(i as int) =~= items@);
}

/// Deserialize `n` values in order, stopping at the first error.
pub(crate) fn deserialize_items<T: CdrDeserialize>(d: &mut CdrDeserializer<'_>, n: usize) -> (r:
    Result<Vec<T>, CdrError>)
    ensures
        final(d).body() == old(d).body(),
        items_read::<T>(old(d).body(), old(d).offset(), n as nat) == (deep_result(r), final(d).offset()),
        r matches Ok(v) ==> v@.len() == n,
{
    let ghost body = d.body();
    let ghost off = d.offset();
    let cap: usize = if n < 1024 {
        n
    } else {
        1024
    };
    let mut v: Vec<T> = Vec::with_capacity(cap);
    let mut i: usize = 0;
    assert(v.deep_view() =~= Seq::<T::V>::empty());
    while i < n
        invariant
            i <= n,
            v@.len() == i,
            d.body() == body,
            body == old(d).body(),
            off == old(d).offset(),
            items_read::<T>(body, off, i as nat) == (Ok::<Seq<T::V>, CdrError>(v.deep_view()), d.offset()),
        decreases n - i,
    {
        let ghost dv = v.deep_view();
        match T::deserialize(d) {
            Ok(x) => {
                v.push(x);
                assert(v.deep_view() =~= dv.push(x.deep_view()));
                i += 1;
            },
            Err(e) => {
                proof {
                    lemma_items_read_err_sticky::<T>(body, off, (i + 1) as nat, n as nat);
                }
                return Err(e);
            },
        }
    }
    Ok(v)
}

// ---------------------------------------------------------------------------
// String
// ---------------------------------------------------------------------------

impl CdrSerialize for String {
    open spec fn cdr_bytes(&self, offset: nat) -> Seq<u8> {
        string_bytes(self@, offset)
    }

    fn serialize(&self, s: &mut CdrSerializer) {
        // length includes the trailing NUL
        let b = self.as_str().as_bytes();
        let n = b.len();
        let len: u32 = if n < 0xFFFF_FFFF {
            (n + 1) as u32
        } else {
            0xFFFF_FFFF
        };
        len.serialize(s);
        s.write_bytes(b);
        s.write_bytes(&[0u8]);
        proof {
            let o = old(s)@.len();
            assert(s@ =~= old(s)@ + string_bytes(self@, o));
        }
    }
}

impl CdrDeserialize for String {
    open spec fn cdr_read(body: Seq<u8>, offset: nat) -> (Result<Seq<char>, CdrError>, nat) {
        string_read(body, offset)
    }

    fn deserialize(d: &mut CdrDeserializer<'_>) -> (r: Result<String, CdrError>) {
        let len = u32::deserialize(d)? as usize;
        if len == 0 {
            return Ok(String::new());
        }
        if len > d.remaining() {
            return Err(CdrError::LengthOverflow { offset: d.position(), len });
        }
        let bytes = d.read_bytes(len)?;
        // strip the trailing NUL
        let end = if bytes[len - 1] == 0 {
            len - 1
        } else {
            len
        };
        let content = &bytes[0..end];
        proof {
            if bytes@.last() == 0 {
                assert(content@ =~= bytes@.drop_last());
            } else {
                assert(content@ =~= bytes@);
            }
        }
        match str_from_utf8(content) {
            Some(st) => Ok(st.to_owned()),
            None => Err(CdrError::Utf8),
        }
    }

    open spec fn cdr_nonempty() -> bool {
        true
    }

    fn is_cdr_nonempty() -> (b: bool) {
        true
    }

    proof fn lemma_cdr_read_extends(body: Seq<u8>, offset: nat, ext: Seq<u8>) {
        <u32 as CdrDeserialize>::lemma_cdr_read_extends(body, offset, ext);
        let (r, p) = <u32 as CdrDeserialize>::cdr_read(body, offset);
        if let Ok(n) = r {
            if n != 0 {
                lemma_read_span_extends(body, p, n as nat, ext);
            }
        }
    }
}

impl CdrRoundTrip for String {
    open spec fn cdr_encodable(&self) -> bool {
        encode_utf8(self@).len() + 1 <= u32::MAX
    }

    proof fn lemma_cdr_bytes_nonempty(&self, offset: nat) {
    }

    proof fn lemma_cdr_roundtrip(&self, prefix: Seq<u8>, rest: Seq<u8>) {
        let o = prefix.len();
        let b = encode_utf8(self@);
        let n = b.len() + 1;
        let tail = b + seq![0u8] + rest;
        (n as u32).lemma_cdr_roundtrip(prefix, tail);
        let pb = (n as u32).cdr_bytes(o);
        assert(prefix + self.cdr_bytes(o) + rest =~= prefix + pb + tail);
        let buf = prefix + pb + tail;
        let p = o + pb.len();
        assert(buf.subrange(p as int, (p + n) as int) =~= b + seq![0u8]);
        assert((b + seq![0u8]).drop_last() =~= b);
    }
}

// ---------------------------------------------------------------------------
// Sequences
// ---------------------------------------------------------------------------

impl<T: CdrSerialize> CdrSerialize for Vec<T> {
    open spec fn cdr_bytes(&self, offset: nat) -> Seq<u8> {
        let p = prim_bytes(offset, 4, seq_len_field(self@.len()));
        p + items_bytes(self@, offset + p.len())
    }

    fn serialize(&self, s: &mut CdrSerializer) {
        let n = self.len();
        let len: u32 = if n <= 0xFFFF_FFFF {
            n as u32
        } else {
            0xFFFF_FFFF
        };
        len.serialize(s);
        serialize_items(self.as_slice(), s);
        proof {
            let o = old(s)@.len();
            assert(s@ =~= old(s)@ + self.cdr_bytes(o));
        }
    }
}

impl<T: CdrDeserialize> CdrDeserialize for Vec<T> {
    open spec fn cdr_read(body: Seq<u8>, offset: nat) -> (Result<Seq<T::V>, CdrError>, nat) {
        let (r, p) = <u32 as CdrDeserialize>::cdr_read(body, offset);
        match r {
            Err(e) => (Err(e), p),
            Ok(n) => if T::cdr_nonempty() && p + n > body.len() {
                (Err(CdrError::LengthOverflow { offset: p as usize, len: n as usize }), p)
            } else {
                items_read::<T>(body, p, n as nat)
            },
        }
    }

    fn deserialize(d: &mut CdrDeserializer<'_>) -> (r: Result<Vec<T>, CdrError>) {
        let len = u32::deserialize(d)? as usize;
        // each element of a nonempty type takes at least one byte
        if T::is_cdr_nonempty() && len > d.remaining() {
            return Err(CdrError::LengthOverflow { offset: d.position(), len });
        }
        deserialize_items(d, len)
    }

    open spec fn cdr_nonempty() -> bool {
        true
    }

    fn is_cdr_nonempty() -> (b: bool) {
        true
    }

    proof fn lemma_cdr_read_extends(body: Seq<u8>, offset: nat, ext: Seq<u8>) {
        <u32 as CdrDeserialize>::lemma_cdr_read_extends(body, offset, ext);
        let (r, p) = <u32 as CdrDeserialize>::cdr_read(body, offset);
        if let Ok(n) = r {
            lemma_items_read_extends::<T>(body, p, n as nat, ext);
        }
    }
}

impl<T: CdrRoundTrip> CdrRoundTrip for Vec<T> {
    open spec fn cdr_encodable(&self) -> bool {
        &&& self@.len() <= u32::MAX
        &&& forall|i: int| 0 <= i < self@.len() ==> (#[trigger] self@[i]).cdr_encodable()
    }

    proof fn lemma_cdr_bytes_nonempty(&self, offset: nat) {
        lemma_prim_bytes_nonempty(offset, 4, seq_len_field(self@.len()));
    }

    proof fn lemma_cdr_roundtrip(&self, prefix: Seq<u8>, rest: Seq<u8>) {
        let o = prefix.len();
        let n = self@.len();
        let pb = (n as u32).cdr_bytes(o);
        let ib = items_bytes(self@, o + pb.len());
        if T::cdr_nonempty() {
            lemma_items_bytes_len(self@, o + pb.len());
        }
        (n as u32).lemma_cdr_roundtrip(prefix, ib + rest);
        assert(prefix + self.cdr_bytes(o) + rest =~= prefix + pb + (ib + rest));
        lemma_items_roundtrip(self@, prefix + pb, rest);
        assert(prefix + self.cdr_bytes(o) + rest =~= (prefix + pb) + ib + rest);
        assert(deep_seq(self@) =~= self.deep_view());
    }
}

// ---------------------------------------------------------------------------
// Fixed arrays
// ---------------------------------------------------------------------------

impl<T: CdrSerialize, const N: usize> CdrSerialize for [T; N] {
    open spec fn cdr_bytes(&self, offset: nat) -> Seq<u8> {
        items_bytes(self@, offset)
    }

    fn serialize(&self, s: &mut CdrSerializer) {
        serialize_items(self.as_slice(), s);
    }
}

impl<T: CdrDeserialize, const N: usize> CdrDeserialize for [T; N] {
    open spec fn cdr_read(body: Seq<u8>, offset: nat) -> (Result<Seq<T::V>, CdrError>, nat) {
        items_read::<T>(body, offset, N as nat)
    }

    fn deserialize(d: &mut CdrDeserializer<'_>) -> (r: Result<[T; N], CdrError>) {
        let v = deserialize_items::<T>(d, N)?;
        let ghost dv = v.deep_view();
        let a = vec_into_array::<T, N>(v);
        assert(a.deep_view() =~= dv);
        Ok(a)
    }

    open spec fn cdr_nonempty() -> bool {
        N > 0 && T::cdr_nonempty()
    }

    fn is_cdr_nonempty() -> (b: bool) {
        N > 0 && T::is_cdr_nonempty()
    }

    proof fn lemma_cdr_read_extends(body: Seq<u8>, offset: nat, ext: Seq<u8>) {
        lemma_items_read_extends::<T>(body, offset, N as nat, ext);
    }
}

impl<T: CdrRoundTrip, const N: usize> CdrRoundTrip for [T; N] {
    open spec fn cdr_encodable(&self) -> bool {
        forall|i: int| 0 <= i < self@.len() ==> (#[trigger] self@[i]).cdr_encodable()
    }

    proof fn lemma_cdr_bytes_nonempty(&self, offset: nat) {
        lemma_items_bytes_len(self@, offset);
    }

    proof fn lemma_cdr_roundtrip(&self, prefix: Seq<u8>, rest: Seq<u8>) {
        lemma_items_roundtrip(self@, prefix, rest);
        assert(deep_seq(self@) =~= self.deep_view());
    }
}

// ---------------------------------------------------------------------------
// Pairs: two values back-to-back
// ---------------------------------------------------------------------------

impl<A: CdrSerialize, B: CdrSerialize> CdrSerialize for (A, B) {
    open spec fn cdr_bytes(&self, offset: nat) -> Seq<u8> {
        let a = self.0.cdr_bytes(offset);
        a + self.1.cdr_bytes(offset + a.len())
    }

    fn serialize(&self, s: &mut CdrSerializer) {
        self.0.serialize(s);
        self.1.serialize(s);
        assert(s@ =~= old(s)@ + self.cdr_bytes(old(s)@.len()));
    }
}

impl<A: CdrDeserialize, B: CdrDeserialize> CdrDeserialize for (A, B) {
    open spec fn cdr_read(body: Seq<u8>, offset: nat) -> (Result<(A::V, B::V), CdrError>, nat) {
        let (ra, p) = A::cdr_read(body, offset);
        match ra {
            Err(e) => (Err(e), p),
            Ok(a) => {
                let (rb, q) = B::cdr_read(body, p);
                match rb {
                    Err(e) => (Err(e), q),
                    Ok(b) => (Ok((a, b)), q),
                }
            },
        }
    }

    fn deserialize(d: &mut CdrDeserializer<'_>) -> (r: Result<(A, B), CdrError>) {
        let a = A::deserialize(d)?;
        let b = B::deserialize(d)?;
        Ok((a, b))
    }

    open spec fn cdr_nonempty() -> bool {
        A::cdr_nonempty() || B::cdr_nonempty()
    }

    fn is_cdr_nonempty() -> (b: bool) {
        A::is_cdr_nonempty() || B::is_cdr_nonempty()
    }

    proof fn lemma_cdr_read_extends(body: Seq<u8>, offset: nat, ext: Seq<u8>) {
        A::lemma_cdr_read_extends(body, offset, ext);
        let (ra, p) = A::cdr_read(body, offset);
        if ra is Ok {
            B::lemma_cdr_read_extends(body, p, ext);
        }
    }
}

impl<A: CdrRoundTrip, B: CdrRoundTrip> CdrRoundTrip for (A, B) {
    open spec fn cdr_encodable(&self) -> bool {
        self.0.cdr_encodable() && self.1.cdr_encodable()
    }

    proof fn lemma_cdr_bytes_nonempty(&self, offset: nat) {
        if A::cdr_nonempty() {
            self.0.lemma_cdr_bytes_nonempty(offset);
        } else {
            self.1.lemma_cdr_bytes_nonempty(offset + self.0.cdr_bytes(offset).len());
        }
    }

    proof fn lemma_cdr_roundtrip(&self, prefix: Seq<u8>, rest: Seq<u8>) {
        let o = prefix.len();
        let ba = self.0.cdr_bytes(o);
        let bb = self.1.cdr_bytes(o + ba.len());
        self.0.lemma_cdr_roundtrip(prefix, bb + rest);
        assert(prefix + self.cdr_bytes(o) + rest =~= prefix + ba + (bb + rest));
        self.1.lemma_cdr_roundtrip(prefix + ba, rest);
        assert(prefix + self.cdr_bytes(o) + rest =~= (prefix + ba) + bb + rest);
    }
}

} // verus!
